use dynasm_lib::arch::eval::Evaluator;
use dynasm_lib::arch::x64::ast::{CleanArg, Instruction, RegFamily, RegId, Register};
use dynasm_lib::arch::x64::compiler::compile_instruction;
use dynasm_lib::arch::x64::x64data::Features;
use dynasm_lib::arch::x64::{Error, X86Mode};
use dynasm_lib::arch::{Error as ExprError, ErrorSpan};
use dynasm_lib::common::{Ident, Jump, JumpKind, JumpOffset, NumericRepr, Size, Stmt, Value};
use dynasm_lib::serialize::fold_constants;
use dynasm_lib::State;

fn instruction(names: &[&str]) -> Instruction {
    Instruction { idents: names.iter().map(|n| Ident::new(n)).collect() }
}

fn reg(size: Size, id: RegId) -> CleanArg {
    CleanArg::Direct { reg: Register::new_static(size, id) }
}

fn imm(value: Value) -> CleanArg {
    CleanArg::Immediate { value }
}

fn mem(base: Option<Register>, index: Option<(Register, isize)>, disp: Option<Value>) -> CleanArg {
    CleanArg::Indirect {
        nosplit: false,
        size: None,
        disp_size: None,
        base,
        index: index.map(|(r, s)| (r, s, None)),
        disp,
    }
}

fn r64(id: RegId) -> Register {
    Register::new_static(Size::QWORD, id)
}

fn r32(id: RegId) -> Register {
    Register::new_static(Size::DWORD, id)
}

fn r16(id: RegId) -> Register {
    Register::new_static(Size::WORD, id)
}

fn compile(mode: X86Mode, features: Features, names: &[&str], args: Vec<CleanArg>) -> (State, Result<(), Error>) {
    let mut state = State::new();
    let result = compile_instruction(&mut state, mode, features, instruction(names), args);
    (state, result)
}

fn stmts(mode: X86Mode, names: &[&str], args: Vec<CleanArg>) -> Vec<Stmt> {
    let (state, result) = compile(mode, Features::all(), names, args);
    assert_eq!(result, Ok(()));
    assert!(state.diagnostics.is_empty());
    fold_constants(&state.stmts)
}

fn bytes(mode: X86Mode, names: &[&str], args: Vec<CleanArg>) -> Vec<u8> {
    let folded = stmts(mode, names, args);
    assert_eq!(folded.len(), 1);
    match &folded[0] {
        Stmt::Extend(data) => data.clone(),
        other => panic!("not a byte string: {:?}", other),
    }
}

fn error(mode: X86Mode, names: &[&str], args: Vec<CleanArg>) -> (State, Error) {
    let (state, result) = compile(mode, Features::all(), names, args);
    (state, result.unwrap_err())
}

#[test]
fn mov_rax_rbx_in_long_mode() {
    let code = bytes(X86Mode::Long, &["mov"], vec![reg(Size::QWORD, RegId::RAX), reg(Size::QWORD, RegId::RBX)]);
    assert_eq!(code, vec![0x48, 0x89, 0xD8]);
}

#[test]
fn mov_eax_from_scaled_index_with_displacement() {
    let operand = mem(Some(r64(RegId::RBX)), Some((r64(RegId::RCX), 4)), Some(Value::Dword(0x10)));
    let code = bytes(X86Mode::Long, &["mov"], vec![reg(Size::DWORD, RegId::RAX), operand]);
    assert_eq!(code, vec![0x8B, 0x44, 0x8B, 0x10]);
    let modrm = code[1];
    assert_eq!(modrm >> 6, 0b01);
    assert_eq!((modrm >> 3) & 7, 0b000);
    assert_eq!(modrm & 7, 0b100);
    let sib = code[2];
    assert_eq!(sib >> 6, 0b10);
    assert_eq!((sib >> 3) & 7, 0b001);
    assert_eq!(sib & 7, 0b011);
}

#[test]
fn displacement_that_needs_four_bytes() {
    let operand = mem(Some(r64(RegId::RBX)), None, Some(Value::Dword(0x1234)));
    let code = bytes(X86Mode::Long, &["mov"], vec![reg(Size::DWORD, RegId::RAX), operand]);
    assert_eq!(code, vec![0x8B, 0x83, 0x34, 0x12, 0x00, 0x00]);
}

#[test]
fn negative_displacement_of_one_byte() {
    let minus_eight = Value::Number(dynasm_lib::Number::from_u64_and_repr(0xF8, NumericRepr::I8()));
    let operand = mem(Some(r64(RegId::RBP)), None, Some(minus_eight));
    let code = bytes(X86Mode::Long, &["mov"], vec![reg(Size::QWORD, RegId::RAX), operand]);
    assert_eq!(code, vec![0x48, 0x8B, 0x45, 0xF8]);
}

#[test]
fn extended_registers_set_their_rex_bit() {
    let code = bytes(X86Mode::Long, &["mov"], vec![reg(Size::QWORD, RegId::R8), reg(Size::QWORD, RegId::RAX)]);
    assert_eq!(code, vec![0x49, 0x89, 0xC0]);
    let code = bytes(X86Mode::Long, &["mov"], vec![reg(Size::QWORD, RegId::RAX), reg(Size::QWORD, RegId::R8)]);
    assert_eq!(code, vec![0x4C, 0x89, 0xC0]);
    let operand = mem(Some(r64(RegId::RAX)), Some((r64(RegId::R9), 1)), None);
    let code = bytes(X86Mode::Long, &["mov"], vec![reg(Size::DWORD, RegId::RAX), operand]);
    assert_eq!(code, vec![0x42, 0x8B, 0x04, 0x08]);
}

#[test]
fn every_extended_register_sets_the_base_bit() {
    let extended = [
        RegId::R8,
        RegId::R9,
        RegId::R10,
        RegId::R11,
        RegId::R12,
        RegId::R13,
        RegId::R14,
        RegId::R15,
    ];
    for (i, id) in extended.iter().enumerate() {
        let code = bytes(X86Mode::Long, &["mov"], vec![reg(Size::DWORD, *id), reg(Size::DWORD, RegId::RAX)]);
        assert_eq!(code, vec![0x41, 0x89, 0xC0 + i as u8]);
        let (state, err) = error(
            X86Mode::Protected,
            &["mov"],
            vec![reg(Size::DWORD, *id), reg(Size::DWORD, RegId::RAX)],
        );
        assert!(matches!(err, Error::UnsupportedInThisMode { mode_hint: Some(X86Mode::Long), .. }));
        assert!(state.stmts.is_empty());
    }
}

#[test]
fn wide_operands_fail_in_protected_mode() {
    let (_, err) = error(
        X86Mode::Protected,
        &["mov"],
        vec![reg(Size::QWORD, RegId::RAX), reg(Size::QWORD, RegId::RBX)],
    );
    assert_eq!(
        err,
        Error::UnsupportedOperandInThisMode {
            operand: String::from("mov"),
            op_size: Size::QWORD,
            mode: X86Mode::Protected,
            mode_hint: Some(X86Mode::Long),
        }
    );
    let (_, err) = error(X86Mode::Protected, &["cdqe"], vec![]);
    assert_eq!(
        err,
        Error::UnsupportedInThisMode {
            message: String::from("Does not support 64 bit operand size in 32-bit mode"),
            mode_hint: Some(X86Mode::Long),
        }
    );
}

#[test]
fn stack_pointer_base_escapes_into_sib() {
    for (base, rex) in [(RegId::RSP, 0x48), (RegId::R12, 0x49)] {
        let operand = mem(Some(r64(base)), None, None);
        let code = bytes(X86Mode::Long, &["mov"], vec![reg(Size::QWORD, RegId::RAX), operand]);
        assert_eq!(code, vec![rex, 0x8B, 0x04, 0x24]);
        assert_eq!(code[2] & 7, 0b100);
        assert_eq!((code[3] >> 3) & 7, 0b100);
        let operand = mem(Some(r64(base)), None, Some(Value::Byte(8)));
        let code = bytes(X86Mode::Long, &["mov"], vec![reg(Size::QWORD, RegId::RAX), operand]);
        assert_eq!(code, vec![rex, 0x8B, 0x44, 0x24, 0x08]);
    }
}

#[test]
fn frame_pointer_base_takes_a_displacement() {
    for (base, rex) in [(RegId::RBP, 0x48), (RegId::R13, 0x49)] {
        let operand = mem(Some(r64(base)), None, None);
        let code = bytes(X86Mode::Long, &["mov"], vec![reg(Size::QWORD, RegId::RAX), operand]);
        assert_eq!(code, vec![rex, 0x8B, 0x45, 0x00]);
    }
}

#[test]
fn rsp_as_index_changes_places_with_the_base() {
    let operand = mem(Some(r64(RegId::RAX)), Some((r64(RegId::RSP), 1)), None);
    let code = bytes(X86Mode::Long, &["mov"], vec![reg(Size::QWORD, RegId::RCX), operand]);
    assert_eq!(code, vec![0x48, 0x8B, 0x0C, 0x04]);
    let operand = mem(Some(r64(RegId::RAX)), Some((r64(RegId::RSP), 2)), None);
    let (state, err) = error(X86Mode::Long, &["mov"], vec![reg(Size::QWORD, RegId::RCX), operand]);
    assert_eq!(err, Error::Fatal);
    assert_eq!(state.diagnostics.len(), 1);
    assert_eq!(state.diagnostics[0].span, ErrorSpan::Argument { idx: 1 });
    assert_eq!(state.diagnostics[0].message, "'rsp' cannot be used as index field");
}

#[test]
fn scaled_index_without_base_is_split() {
    let operand = mem(None, Some((r64(RegId::RCX), 2)), None);
    let code = bytes(X86Mode::Long, &["mov"], vec![reg(Size::DWORD, RegId::RAX), operand]);
    assert_eq!(code, vec![0x8B, 0x04, 0x09]);
    let operand = CleanArg::Indirect {
        nosplit: true,
        size: None,
        disp_size: None,
        base: None,
        index: Some((r64(RegId::RCX), 2, None)),
        disp: None,
    };
    let code = bytes(X86Mode::Long, &["mov"], vec![reg(Size::DWORD, RegId::RAX), operand]);
    assert_eq!(code, vec![0x8B, 0x04, 0x4D, 0x00, 0x00, 0x00, 0x00]);
}

#[test]
fn address_without_registers() {
    let operand = mem(None, None, Some(Value::Dword(0x1000)));
    let code = bytes(X86Mode::Long, &["mov"], vec![reg(Size::DWORD, RegId::RAX), operand]);
    assert_eq!(code, vec![0x8B, 0x04, 0x25, 0x00, 0x10, 0x00, 0x00]);
    let operand = mem(None, None, Some(Value::Dword(0x1000)));
    let code = bytes(X86Mode::Protected, &["mov"], vec![reg(Size::DWORD, RegId::RAX), operand]);
    assert_eq!(code, vec![0x8B, 0x05, 0x00, 0x10, 0x00, 0x00]);
    // without a base the displacement has four bytes even if it would fit one
    let operand = mem(None, None, Some(Value::Byte(0x10)));
    let code = bytes(X86Mode::Protected, &["mov"], vec![reg(Size::DWORD, RegId::RAX), operand]);
    assert_eq!(code, vec![0x8B, 0x05, 0x10, 0x00, 0x00, 0x00]);
}

#[test]
fn rip_relative_address() {
    let operand = mem(Some(r64(RegId::RIP)), None, Some(Value::Byte(0x10)));
    let code = bytes(X86Mode::Long, &["lea"], vec![reg(Size::QWORD, RegId::RAX), operand]);
    assert_eq!(code, vec![0x48, 0x8D, 0x05, 0x10, 0x00, 0x00, 0x00]);
}

#[test]
fn rip_relative_address_in_protected_mode_takes_a_relocation() {
    let operand = mem(Some(r32(RegId::RIP)), None, None);
    let folded = stmts(X86Mode::Protected, &["lea"], vec![reg(Size::DWORD, RegId::RAX), operand]);
    assert_eq!(
        folded,
        vec![
            Stmt::Extend(vec![0x8D, 0x05, 0x00, 0x00, 0x00, 0x00]),
            Stmt::BareJumpTarget(JumpOffset::Injected(Value::Byte(0)), vec![0, 4, 1]),
        ]
    );
}

#[test]
fn sixteen_bit_addresses_in_protected_mode() {
    let operand = mem(Some(r16(RegId::RBX)), Some((r16(RegId::RSI), 1)), None);
    let code = bytes(X86Mode::Protected, &["mov"], vec![reg(Size::WORD, RegId::RAX), operand]);
    assert_eq!(code, vec![0x67, 0x66, 0x8B, 0x00]);
    let operand = mem(Some(r16(RegId::RBP)), None, None);
    let code = bytes(X86Mode::Protected, &["mov"], vec![reg(Size::WORD, RegId::RAX), operand]);
    assert_eq!(code, vec![0x67, 0x66, 0x8B, 0x46, 0x00]);
    let operand = mem(Some(r16(RegId::RDI)), None, Some(Value::Word(0x1234)));
    let code = bytes(X86Mode::Protected, &["mov"], vec![reg(Size::WORD, RegId::RAX), operand]);
    assert_eq!(code, vec![0x67, 0x66, 0x8B, 0x85, 0x34, 0x12]);
}

#[test]
fn sixteen_bit_addresses_fail_in_long_mode() {
    let operand = mem(Some(r16(RegId::RBX)), None, None);
    let (state, err) = error(X86Mode::Long, &["mov"], vec![reg(Size::WORD, RegId::RAX), operand]);
    assert_eq!(err, Error::Fatal);
    assert_eq!(state.diagnostics[0].message, "16-bit addressing is not supported in this mode");
}

#[test]
fn address_size_prefix_for_narrow_addresses() {
    let operand = mem(Some(r32(RegId::RBX)), None, None);
    let code = bytes(X86Mode::Long, &["mov"], vec![reg(Size::DWORD, RegId::RAX), operand]);
    assert_eq!(code, vec![0x67, 0x8B, 0x03]);
}

#[test]
fn immediates_take_the_size_of_their_slot() {
    let code = bytes(X86Mode::Long, &["add"], vec![reg(Size::DWORD, RegId::RAX), imm(Value::Byte(1))]);
    assert_eq!(code, vec![0x83, 0xC0, 0x01]);
    let code = bytes(X86Mode::Long, &["add"], vec![reg(Size::BYTE, RegId::RAX), imm(Value::Byte(1))]);
    assert_eq!(code, vec![0x04, 0x01]);
    let code = bytes(X86Mode::Long, &["add"], vec![reg(Size::QWORD, RegId::RAX), imm(Value::Dword(1000))]);
    assert_eq!(code, vec![0x48, 0x05, 0xE8, 0x03, 0x00, 0x00]);
    let code = bytes(X86Mode::Long, &["add"], vec![reg(Size::DWORD, RegId::RCX), imm(Value::Word(1000))]);
    assert_eq!(code, vec![0x81, 0xC1, 0xE8, 0x03, 0x00, 0x00]);
    let code = bytes(X86Mode::Long, &["mov"], vec![reg(Size::QWORD, RegId::RAX), imm(Value::Qword(0x1122334455667788))]);
    assert_eq!(code, vec![0x48, 0xB8, 0x88, 0x77, 0x66, 0x55, 0x44, 0x33, 0x22, 0x11]);
}

#[test]
fn register_in_the_opcode() {
    assert_eq!(bytes(X86Mode::Long, &["push"], vec![reg(Size::QWORD, RegId::RBP)]), vec![0x55]);
    assert_eq!(bytes(X86Mode::Long, &["push"], vec![reg(Size::QWORD, RegId::R12)]), vec![0x41, 0x54]);
    assert_eq!(bytes(X86Mode::Long, &["pop"], vec![reg(Size::WORD, RegId::RAX)]), vec![0x66, 0x58]);
    assert_eq!(bytes(X86Mode::Long, &["bswap"], vec![reg(Size::QWORD, RegId::RDX)]), vec![0x48, 0x0F, 0xCA]);
    assert_eq!(bytes(X86Mode::Protected, &["inc"], vec![reg(Size::DWORD, RegId::RCX)]), vec![0x41]);
    assert_eq!(bytes(X86Mode::Long, &["inc"], vec![reg(Size::DWORD, RegId::RCX)]), vec![0xFF, 0xC1]);
}

#[test]
fn operand_size_that_a_mode_lacks() {
    let (_, err) = error(X86Mode::Long, &["push"], vec![reg(Size::DWORD, RegId::RAX)]);
    assert_eq!(
        err,
        Error::UnsupportedOperandInThisMode {
            operand: String::from("push"),
            op_size: Size::DWORD,
            mode: X86Mode::Long,
            mode_hint: Some(X86Mode::Protected),
        }
    );
    let (_, err) = error(X86Mode::Long, &["bswap"], vec![reg(Size::WORD, RegId::RAX)]);
    assert_eq!(
        err,
        Error::UnsupportedOperandInThisMode {
            operand: String::from("bswap"),
            op_size: Size::WORD,
            mode: X86Mode::Long,
            mode_hint: None,
        }
    );
}

#[test]
fn instructions_without_operands() {
    assert_eq!(bytes(X86Mode::Long, &["ret"], vec![]), vec![0xC3]);
    assert_eq!(bytes(X86Mode::Long, &["nop"], vec![]), vec![0x90]);
    assert_eq!(bytes(X86Mode::Long, &["pause"], vec![]), vec![0xF3, 0x90]);
    assert_eq!(bytes(X86Mode::Long, &["cbw"], vec![]), vec![0x66, 0x98]);
    assert_eq!(bytes(X86Mode::Long, &["cdqe"], vec![]), vec![0x48, 0x98]);
    assert_eq!(bytes(X86Mode::Protected, &["pushad"], vec![]), vec![0x60]);
    assert_eq!(bytes(X86Mode::Protected, &["jecxz"], vec![imm(Value::Byte(2))]), vec![0x67, 0xE3, 0x02]);
}

#[test]
fn high_byte_registers() {
    let code = bytes(X86Mode::Long, &["mov"], vec![reg(Size::BYTE, RegId::AH), reg(Size::BYTE, RegId::RBX)]);
    assert_eq!(code, vec![0x88, 0xDC]);
    let code = bytes(X86Mode::Long, &["mov"], vec![reg(Size::BYTE, RegId::RSI), reg(Size::BYTE, RegId::RAX)]);
    assert_eq!(code, vec![0x40, 0x88, 0xC6]);
    let (_, err) = error(X86Mode::Long, &["mov"], vec![reg(Size::BYTE, RegId::AH), reg(Size::BYTE, RegId::RSI)]);
    assert_eq!(
        err,
        Error::Generic {
            message: String::from("High byte register combined with extended registers or 64-bit operand size"),
        }
    );
    let (_, err) = error(X86Mode::Protected, &["mov"], vec![reg(Size::BYTE, RegId::RSI), reg(Size::BYTE, RegId::RAX)]);
    assert!(matches!(err, Error::UnsupportedInThisMode { mode_hint: Some(X86Mode::Long), .. }));
}

#[test]
fn prefixes_before_the_mnemonic() {
    let operand = mem(Some(r64(RegId::RAX)), None, None);
    let code = bytes(X86Mode::Long, &["lock", "add"], vec![operand, reg(Size::DWORD, RegId::RBX)]);
    assert_eq!(code, vec![0xF0, 0x01, 0x18]);
    assert_eq!(bytes(X86Mode::Long, &["rep", "movsb"], vec![]), vec![0xF3, 0xA4]);
    assert_eq!(bytes(X86Mode::Long, &["repne", "movsb"], vec![]), vec![0xF2, 0xA4]);
    assert_eq!(bytes(X86Mode::Long, &["repe", "cmpsb"], vec![]), vec![0xF3, 0xA6]);
    assert_eq!(bytes(X86Mode::Long, &["fs", "rep", "movsq"], vec![]), vec![0x64, 0xF3, 0x48, 0xA5]);
}

#[test]
fn prefixes_that_are_refused() {
    let (state, err) = error(X86Mode::Long, &["rep", "ret"], vec![]);
    assert_eq!(err, Error::Fatal);
    assert_eq!(state.diagnostics.len(), 1);
    assert_eq!(state.diagnostics[0].span, ErrorSpan::InstructionPart { idx: 0 });
    assert_eq!(state.diagnostics[0].message, "Cannot use prefix rep on this instruction");
    let (state, err) = error(X86Mode::Long, &["rep", "repne", "movsb"], vec![]);
    assert_eq!(err, Error::Fatal);
    assert_eq!(state.diagnostics[0].span, ErrorSpan::InstructionPart { idx: 1 });
    assert_eq!(state.diagnostics[0].message, "Duplicate prefix group");
    let (state, err) = error(X86Mode::Long, &["often", "movsb"], vec![]);
    assert_eq!(err, Error::Generic { message: String::from("unimplemented prefix") });
    assert!(state.diagnostics.is_empty());
}

#[test]
fn unknown_instruction() {
    let (state, err) = error(X86Mode::Long, &["lock", "frobnicate"], vec![]);
    assert_eq!(err, Error::Fatal);
    assert_eq!(state.diagnostics.len(), 1);
    assert_eq!(state.diagnostics[0].span, ErrorSpan::InstructionPart { idx: 1 });
    assert_eq!(state.diagnostics[0].message, "'frobnicate' is not a valid instruction");
    assert!(state.stmts.is_empty());
}

#[test]
fn operands_that_no_encoding_takes() {
    let (state, err) = error(X86Mode::Long, &["lea"], vec![reg(Size::QWORD, RegId::RAX), reg(Size::QWORD, RegId::RBX)]);
    assert_eq!(
        err,
        Error::Generic {
            message: String::from(
                "'lea': argument type/size mismatch, expected one of the following forms:\nlea reg*, mem"
            ),
        }
    );
    assert!(state.diagnostics.is_empty());
    let (_, err) = error(X86Mode::Long, &["pushad"], vec![]);
    assert_eq!(
        err,
        Error::Generic {
            message: String::from(
                "'pushad': argument type/size mismatch, expected one of the following forms:\npushad"
            ),
        }
    );
}

#[test]
fn conflicting_operand_sizes() {
    let (_, err) = error(X86Mode::Long, &["mov"], vec![reg(Size::QWORD, RegId::RAX), reg(Size::DWORD, RegId::RBX)]);
    assert_eq!(err, Error::Generic { message: String::from("Conflicting operand sizes") });
    let operand = mem(Some(r64(RegId::RAX)), None, None);
    let (_, err) = error(X86Mode::Long, &["inc"], vec![operand]);
    assert_eq!(err, Error::Generic { message: String::from("Unknown operand size") });
    let (_, err) = error(X86Mode::Long, &["mov"], vec![reg(Size::WORD, RegId::RAX), imm(Value::Dword(1))]);
    assert_eq!(err, Error::Generic { message: String::from("Immediate size mismatch") });
}

#[test]
fn vex_prefix_of_two_and_three_bytes() {
    let xmm = |id| reg(Size::OWORD, id);
    let ymm = |id| reg(Size::HWORD, id);
    let code = bytes(X86Mode::Long, &["vaddps"], vec![xmm(RegId::XMM0), xmm(RegId::XMM1), xmm(RegId::XMM2)]);
    assert_eq!(code, vec![0xC5, 0xF0, 0x58, 0xC2]);
    let code = bytes(X86Mode::Long, &["vaddps"], vec![ymm(RegId::XMM0), ymm(RegId::XMM1), ymm(RegId::XMM2)]);
    assert_eq!(code, vec![0xC5, 0xF4, 0x58, 0xC2]);
    let code = bytes(X86Mode::Long, &["vaddps"], vec![xmm(RegId::XMM8), xmm(RegId::XMM1), xmm(RegId::XMM2)]);
    assert_eq!(code, vec![0xC5, 0x70, 0x58, 0xC2]);
    let code = bytes(X86Mode::Long, &["vaddps"], vec![xmm(RegId::XMM0), xmm(RegId::XMM1), xmm(RegId::XMM8)]);
    assert_eq!(code, vec![0xC4, 0xC1, 0x70, 0x58, 0xC0]);
    let code = bytes(X86Mode::Long, &["vaddpd"], vec![xmm(RegId::XMM0), xmm(RegId::XMM15), xmm(RegId::XMM2)]);
    assert_eq!(code, vec![0xC5, 0x81, 0x58, 0xC2]);
    let code = bytes(X86Mode::Long, &["vfmadd231pd"], vec![xmm(RegId::XMM0), xmm(RegId::XMM1), xmm(RegId::XMM2)]);
    assert_eq!(code, vec![0xC4, 0xE2, 0xF1, 0xB8, 0xC2]);
    let code = bytes(X86Mode::Long, &["andn"], vec![reg(Size::QWORD, RegId::RAX), reg(Size::QWORD, RegId::RBX), reg(Size::QWORD, RegId::RCX)]);
    assert_eq!(code, vec![0xC4, 0xE2, 0xE0, 0xF2, 0xC1]);
}

#[test]
fn xop_prefix() {
    let code = bytes(X86Mode::Long, &["vfrczps"], vec![reg(Size::OWORD, RegId::XMM1), reg(Size::OWORD, RegId::XMM2)]);
    assert_eq!(code, vec![0x8F, 0xE9, 0x78, 0x80, 0xCA]);
}

#[test]
fn vex_with_extended_index_in_protected_mode() {
    let operand = mem(Some(r32(RegId::RAX)), Some((Register::new_static(Size::OWORD, RegId::XMM9), 4)), None);
    let code = bytes(
        X86Mode::Protected,
        &["vgatherdps"],
        vec![reg(Size::OWORD, RegId::XMM0), operand, reg(Size::OWORD, RegId::XMM2)],
    );
    assert_eq!(code, vec![0xC4, 0xE2, 0x69, 0x92, 0x44, 0x88, 0x00]);
}

#[test]
fn vector_index_in_long_mode() {
    let operand = mem(Some(r64(RegId::RAX)), Some((Register::new_static(Size::OWORD, RegId::XMM9), 4)), None);
    let code = bytes(
        X86Mode::Long,
        &["vgatherdps"],
        vec![reg(Size::OWORD, RegId::XMM0), operand, reg(Size::OWORD, RegId::XMM2)],
    );
    assert_eq!(code, vec![0xC4, 0xA2, 0x69, 0x92, 0x44, 0x88, 0x00]);
    // a vector index without a base: no address size is known, and the displacement has four bytes
    let operand = mem(None, Some((Register::new_static(Size::HWORD, RegId::XMM1), 1)), None);
    let code = bytes(
        X86Mode::Long,
        &["vgatherdps"],
        vec![reg(Size::HWORD, RegId::XMM0), operand, reg(Size::HWORD, RegId::XMM2)],
    );
    assert_eq!(code, vec![0xC4, 0xE2, 0x6D, 0x92, 0x04, 0x0D, 0x00, 0x00, 0x00, 0x00]);
}

#[test]
fn vector_register_as_base_moves_to_the_index() {
    let operand = mem(Some(Register::new_static(Size::OWORD, RegId::XMM9)), Some((r64(RegId::RAX), 1)), None);
    let code = bytes(
        X86Mode::Long,
        &["vgatherdps"],
        vec![reg(Size::OWORD, RegId::XMM0), operand, reg(Size::OWORD, RegId::XMM2)],
    );
    assert_eq!(code, vec![0xC4, 0xA2, 0x69, 0x92, 0x44, 0x08, 0x00]);
}

#[test]
fn disabled_features() {
    let args = || vec![reg(Size::OWORD, RegId::XMM0), reg(Size::OWORD, RegId::XMM1), reg(Size::OWORD, RegId::XMM2)];
    let (state, result) = compile(X86Mode::Long, Features::from_bits(Features::SSE | Features::SSE2), &["vaddps"], args());
    assert_eq!(result, Err(Error::DisabledFeatures(Features::from_bits(Features::AVX))));
    assert!(state.stmts.is_empty());
    let (_, result) = compile(X86Mode::Long, Features::empty(), &["vpaddd"], args());
    assert_eq!(result, Err(Error::DisabledFeatures(Features::from_bits(Features::AVX | Features::AVX2))));
    let (_, result) = compile(X86Mode::Long, Features::from_bits(Features::AVX), &["vpaddd"], args());
    assert_eq!(result, Err(Error::DisabledFeatures(Features::from_bits(Features::AVX2))));
    let (_, result) = compile(X86Mode::Long, Features::from_bits(Features::AVX | Features::AVX2), &["vpaddd"], args());
    assert_eq!(result, Ok(()));
    // instructions without features do not ask for any
    let (_, result) = compile(X86Mode::Long, Features::empty(), &["ret"], vec![]);
    assert_eq!(result, Ok(()));
}

#[test]
fn opcode_byte_behind_the_operands() {
    let code = bytes(X86Mode::Long, &["pfadd"], vec![reg(Size::QWORD, RegId::MMX0), reg(Size::QWORD, RegId::MMX1)]);
    assert_eq!(code, vec![0x0F, 0x0F, 0xC1, 0x9E]);
}

#[test]
fn register_in_the_immediate() {
    let xmm = |id| reg(Size::OWORD, id);
    let code = bytes(
        X86Mode::Long,
        &["vblendvps"],
        vec![xmm(RegId::XMM0), xmm(RegId::XMM1), xmm(RegId::XMM2), xmm(RegId::XMM3)],
    );
    assert_eq!(code, vec![0xC4, 0xE3, 0x71, 0x4A, 0xC2, 0x30]);
}

#[test]
fn special_registers_go_to_the_register_field() {
    let code = bytes(X86Mode::Long, &["mov"], vec![reg(Size::QWORD, RegId::CR3), reg(Size::QWORD, RegId::RAX)]);
    assert_eq!(code, vec![0x0F, 0x22, 0xD8]);
    let code = bytes(X86Mode::Long, &["mov"], vec![reg(Size::QWORD, RegId::RAX), reg(Size::QWORD, RegId::CR3)]);
    assert_eq!(code, vec![0x0F, 0x20, 0xD8]);
    let code = bytes(X86Mode::Long, &["mov"], vec![reg(Size::WORD, RegId::DS), reg(Size::WORD, RegId::RAX)]);
    assert_eq!(code, vec![0x8E, 0xD8]);
}

#[test]
fn fixed_registers_are_not_encoded() {
    let code = bytes(X86Mode::Long, &["shl"], vec![reg(Size::DWORD, RegId::RAX), reg(Size::BYTE, RegId::RCX)]);
    assert_eq!(code, vec![0xD3, 0xE0]);
    let code = bytes(X86Mode::Long, &["fadd"], vec![reg(Size::PWORD, RegId::ST0), reg(Size::PWORD, RegId::ST3)]);
    assert_eq!(code, vec![0xD8, 0xC3]);
    let code = bytes(X86Mode::Long, &["xchg"], vec![reg(Size::DWORD, RegId::RAX), reg(Size::DWORD, RegId::RBX)]);
    assert_eq!(code, vec![0x93]);
}

#[test]
fn jump_targets_take_relocations() {
    let target = || Jump::new(JumpKind::Global(Ident::new("done")), None);
    let folded = stmts(X86Mode::Long, &["jmp"], vec![CleanArg::JumpTarget { jump: target(), size: None }]);
    assert_eq!(
        folded,
        vec![
            Stmt::Extend(vec![0xE9, 0, 0, 0, 0]),
            Stmt::GlobalJumpTarget(Ident::new("done"), JumpOffset::Zero, vec![0, 4]),
        ]
    );
    let folded = stmts(X86Mode::Protected, &["jmp"], vec![CleanArg::JumpTarget { jump: target(), size: None }]);
    assert_eq!(
        folded,
        vec![
            Stmt::Extend(vec![0xE9, 0, 0, 0, 0]),
            Stmt::GlobalJumpTarget(Ident::new("done"), JumpOffset::Zero, vec![0, 4, 0]),
        ]
    );
    let folded = stmts(
        X86Mode::Long,
        &["jz"],
        vec![CleanArg::JumpTarget { jump: Jump::new(JumpKind::Backward(Ident::new("top")), None), size: Some(Size::BYTE) }],
    );
    assert_eq!(
        folded,
        vec![Stmt::Extend(vec![0x74, 0]), Stmt::BackwardJumpTarget(Ident::new("top"), JumpOffset::Zero, vec![0, 1])]
    );
}

#[test]
fn relocations_count_the_bytes_behind_their_slot() {
    let target = Jump::new(JumpKind::Forward(Ident::new("data")), None);
    let folded = stmts(
        X86Mode::Long,
        &["mov"],
        vec![CleanArg::IndirectJumpTarget { jump: target, size: Some(Size::DWORD) }, imm(Value::Dword(1000))],
    );
    assert_eq!(
        folded,
        vec![
            Stmt::Extend(vec![0xC7, 0x05, 0, 0, 0, 0, 0xE8, 0x03, 0, 0]),
            Stmt::ForwardJumpTarget(Ident::new("data"), JumpOffset::Zero, vec![4, 4]),
        ]
    );
    let target = Jump::new(JumpKind::Forward(Ident::new("data")), None);
    let folded = stmts(
        X86Mode::Protected,
        &["mov"],
        vec![reg(Size::DWORD, RegId::RCX), CleanArg::IndirectJumpTarget { jump: target, size: None }],
    );
    assert_eq!(
        folded,
        vec![
            Stmt::Extend(vec![0x8B, 0x0D, 0, 0, 0, 0]),
            Stmt::ForwardJumpTarget(Ident::new("data"), JumpOffset::Zero, vec![0, 4, 1]),
        ]
    );
}

#[test]
fn extern_relocations() {
    let target = || Jump::new(JumpKind::Bare(Value::Qword(0x1000)), None);
    let (state, err) = error(X86Mode::Long, &["call"], vec![CleanArg::JumpTarget { jump: target(), size: None }]);
    assert_eq!(err, Error::Generic { message: String::from("Extern relocations are not supported in x64 mode") });
    assert!(state.stmts.is_empty());
    let folded = stmts(X86Mode::Protected, &["call"], vec![CleanArg::JumpTarget { jump: target(), size: None }]);
    assert_eq!(
        folded,
        vec![
            Stmt::Extend(vec![0xE8, 0, 0, 0, 0]),
            Stmt::BareJumpTarget(JumpOffset::Injected(Value::Qword(0x1000)), vec![0, 4, 2]),
        ]
    );
}

#[test]
fn dynamic_immediates_are_passed_on() {
    let expr = dynasm_lib::Expr { idx: 7, repr: NumericRepr::I8() };
    let (state, result) = compile(
        X86Mode::Long,
        Features::all(),
        &["add"],
        vec![reg(Size::DWORD, RegId::RCX), imm(Value::Expr(expr))],
    );
    assert_eq!(result, Ok(()));
    assert_eq!(
        state.stmts,
        vec![Stmt::Extend(vec![0x83]), Stmt::Const(Value::Byte(0xC1)), Stmt::Const(Value::Expr(expr))]
    );
}

#[test]
fn dynamic_registers_with_a_builder_that_refuses() {
    let expr = dynasm_lib::Expr { idx: 0, repr: NumericRepr::U8() };
    let dynamic = CleanArg::Direct { reg: Register::new_dynamic(Size::QWORD, RegFamily::LEGACY, expr) };
    let (state, result) = compile(X86Mode::Long, Features::all(), &["mov"], vec![dynamic, reg(Size::QWORD, RegId::RAX)]);
    assert_eq!(result, Err(Error::Expr(ExprError::BadExprCombinator { expr })));
    assert!(state.stmts.is_empty());
}

fn dynamic_mov(code: u64) -> Vec<u64> {
    let mut builder = Evaluator::new();
    let expr = builder.define(code, NumericRepr::U8());
    let dynamic = CleanArg::Direct { reg: Register::new_dynamic(Size::QWORD, RegFamily::LEGACY, expr) };
    let result = compile_instruction(
        &mut builder,
        X86Mode::Long,
        Features::all(),
        instruction(&["mov"]),
        vec![dynamic, reg(Size::QWORD, RegId::RDX)],
    );
    assert_eq!(result, Ok(()));
    assert_eq!(builder.stmts.len(), 3);
    builder
        .stmts
        .iter()
        .map(|stmt| match stmt {
            Stmt::Const(Value::Expr(e)) => {
                assert_eq!(e.repr.size, Size::BYTE);
                builder.value(*e).unwrap()
            },
            Stmt::Extend(data) => {
                assert_eq!(data.len(), 1);
                data[0] as u64
            },
            other => panic!("unexpected statement {:?}", other),
        })
        .collect()
}

#[test]
fn dynamic_registers_encode_like_static_ones() {
    let ids = [
        RegId::RAX,
        RegId::RCX,
        RegId::RDX,
        RegId::RBX,
        RegId::RSP,
        RegId::RBP,
        RegId::RSI,
        RegId::RDI,
        RegId::R8,
        RegId::R9,
        RegId::R10,
        RegId::R11,
        RegId::R12,
        RegId::R13,
        RegId::R14,
        RegId::R15,
    ];
    for (code, id) in ids.iter().enumerate() {
        let expected = bytes(X86Mode::Long, &["mov"], vec![reg(Size::QWORD, *id), reg(Size::QWORD, RegId::RDX)]);
        let expected: Vec<u64> = expected.iter().map(|b| *b as u64).collect();
        assert_eq!(dynamic_mov(code as u64), expected);
    }
}

#[test]
fn dynamic_register_in_a_vex_prefix() {
    let mut builder = Evaluator::new();
    let expr = builder.define(9, NumericRepr::U8());
    let dynamic = CleanArg::Direct { reg: Register::new_dynamic(Size::OWORD, RegFamily::XMM, expr) };
    let result = compile_instruction(
        &mut builder,
        X86Mode::Long,
        Features::all(),
        instruction(&["vaddps"]),
        vec![reg(Size::OWORD, RegId::XMM0), dynamic, reg(Size::OWORD, RegId::XMM2)],
    );
    assert_eq!(result, Ok(()));
    // the second source register of the static encoding C5 B0 58 C2, inverted in bits 3 to 6
    let second = match &builder.stmts[1] {
        Stmt::Const(Value::Expr(e)) => builder.value(*e).unwrap(),
        other => panic!("unexpected statement {:?}", other),
    };
    assert_eq!(second, 0xB0);
    assert_eq!(builder.stmts[0], Stmt::Const(Value::Byte(0xC5)));
    assert_eq!(builder.stmts[2], Stmt::Extend(vec![0x58]));
    assert_eq!(builder.stmts[3], Stmt::Const(Value::Byte(0xC2)));
}

#[test]
fn dynamic_scale() {
    let mut builder = Evaluator::new();
    let scale = builder.define(4, NumericRepr::U8());
    let operand = CleanArg::Indirect {
        nosplit: false,
        size: None,
        disp_size: None,
        base: Some(r64(RegId::RBX)),
        index: Some((r64(RegId::RCX), 1, Some(scale))),
        disp: None,
    };
    let result = compile_instruction(
        &mut builder,
        X86Mode::Long,
        Features::all(),
        instruction(&["mov"]),
        vec![reg(Size::DWORD, RegId::RAX), operand],
    );
    assert_eq!(result, Ok(()));
    assert_eq!(builder.stmts.len(), 4);
    assert_eq!(builder.stmts[0], Stmt::Extend(vec![0x8B]));
    assert_eq!(builder.stmts[1], Stmt::Const(Value::Byte(0x04)));
    match (&builder.stmts[2], &builder.stmts[3]) {
        (Stmt::Stmt(bits), Stmt::Const(Value::Expr(sib))) => {
            assert_eq!(builder.value(*bits), Some(2));
            // the byte of mov eax, [rbx + rcx * 4]
            assert_eq!(builder.value(*sib), Some(0x8B));
        },
        other => panic!("unexpected statements {:?}", other),
    }
}

#[test]
fn several_memory_references_are_reported() {
    let first = mem(Some(r64(RegId::RAX)), None, None);
    let second = mem(Some(r64(RegId::RBX)), None, None);
    let (state, err) = error(X86Mode::Long, &["mov"], vec![first, second]);
    assert!(matches!(err, Error::Generic { .. }));
    assert_eq!(state.diagnostics.len(), 1);
    assert_eq!(state.diagnostics[0].span, ErrorSpan::Argument { idx: 1 });
    assert_eq!(state.diagnostics[0].message, "Multiple memory references in a single instruction");
}

#[test]
fn scale_that_cannot_be_encoded() {
    let operand = mem(Some(r64(RegId::RAX)), Some((r64(RegId::RCX), 3)), None);
    let (state, err) = error(X86Mode::Long, &["mov"], vec![reg(Size::DWORD, RegId::RAX), operand]);
    assert_eq!(err, Error::Fatal);
    assert_eq!(state.diagnostics.len(), 1);
    assert_eq!(state.diagnostics[0].message, "Impossible scale");
    assert!(state.stmts.is_empty());
}

#[test]
fn displacement_that_does_not_fit_its_size() {
    let operand = CleanArg::Indirect {
        nosplit: false,
        size: None,
        disp_size: Some(Size::BYTE),
        base: Some(r64(RegId::RAX)),
        index: None,
        disp: Some(Value::Dword(0x1234)),
    };
    let (_, err) = error(X86Mode::Long, &["mov"], vec![reg(Size::DWORD, RegId::RAX), operand]);
    assert_eq!(err, Error::Generic { message: String::from("Displacement out of range") });
}

#[test]
fn assorted_encodings() {
    let byte_at_rcx = CleanArg::Indirect {
        nosplit: false,
        size: Some(Size::BYTE),
        disp_size: None,
        base: Some(r64(RegId::RCX)),
        index: None,
        disp: None,
    };
    let code = bytes(X86Mode::Long, &["movzx"], vec![reg(Size::DWORD, RegId::RAX), byte_at_rcx.clone()]);
    assert_eq!(code, vec![0x0F, 0xB6, 0x01]);
    let code = bytes(X86Mode::Long, &["mov"], vec![byte_at_rcx, imm(Value::Byte(5))]);
    assert_eq!(code, vec![0xC6, 0x01, 0x05]);
    let code = bytes(
        X86Mode::Long,
        &["imul"],
        vec![reg(Size::DWORD, RegId::RAX), reg(Size::DWORD, RegId::RCX), imm(Value::Byte(5))],
    );
    assert_eq!(code, vec![0x6B, 0xC1, 0x05]);
    let code = bytes(X86Mode::Long, &["cvtsi2sd"], vec![reg(Size::OWORD, RegId::XMM0), reg(Size::QWORD, RegId::RAX)]);
    assert_eq!(code, vec![0xF2, 0x48, 0x0F, 0x2A, 0xC0]);
    let code = bytes(
        X86Mode::Long,
        &["pshufd"],
        vec![reg(Size::OWORD, RegId::XMM1), reg(Size::OWORD, RegId::XMM2), imm(Value::Byte(0x1B))],
    );
    assert_eq!(code, vec![0x66, 0x0F, 0x70, 0xCA, 0x1B]);
    assert_eq!(bytes(X86Mode::Long, &["call"], vec![reg(Size::QWORD, RegId::RAX)]), vec![0xFF, 0xD0]);
    let code = bytes(X86Mode::Long, &["blsi"], vec![reg(Size::DWORD, RegId::RAX), reg(Size::DWORD, RegId::RCX)]);
    assert_eq!(code, vec![0xC4, 0xE2, 0x78, 0xF3, 0xD9]);
    let code = bytes(
        X86Mode::Long,
        &["vcvtsi2sd"],
        vec![reg(Size::OWORD, RegId::XMM0), reg(Size::OWORD, RegId::XMM1), reg(Size::QWORD, RegId::RAX)],
    );
    assert_eq!(code, vec![0xC4, 0xE1, 0xF3, 0x2A, 0xC0]);
    assert_eq!(bytes(X86Mode::Long, &["fld"], vec![reg(Size::PWORD, RegId::ST3)]), vec![0xD9, 0xC3]);
    let code = bytes(X86Mode::Long, &["mov"], vec![reg(Size::DWORD, RegId::RAX), reg(Size::WORD, RegId::DS)]);
    assert_eq!(code, vec![0x8C, 0xD8]);
    let code = bytes(X86Mode::Long, &["xor"], vec![reg(Size::DWORD, RegId::R15), reg(Size::DWORD, RegId::R15)]);
    assert_eq!(code, vec![0x45, 0x31, 0xFF]);
    let operand = mem(Some(r64(RegId::R13)), Some((r64(RegId::R14), 8)), Some(Value::Dword(0x7FFF_FFFF)));
    let code = bytes(X86Mode::Long, &["lea"], vec![reg(Size::QWORD, RegId::R12), operand]);
    assert_eq!(code, vec![0x4F, 0x8D, 0xA4, 0xF5, 0xFF, 0xFF, 0xFF, 0x7F]);
    let code = bytes(X86Mode::Protected, &["add"], vec![reg(Size::WORD, RegId::RBX), imm(Value::Word(0x1234))]);
    assert_eq!(code, vec![0x66, 0x81, 0xC3, 0x34, 0x12]);
}
