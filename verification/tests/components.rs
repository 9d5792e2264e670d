use dynasm_lib::arch::x64::ast::{CleanArg, RegFamily, RegId, RegKind, Register, SizedArg};
use dynasm_lib::arch::x64::compiler::{
    check_rex, derive_size, encode_scale, extract_args, find_size_prefixes, get_legacy_prefixes, match_format_string,
    match_op_format, needs_address_prefix, read_format, resolve_address, sanitize_indirect,
    sanitize_indirects_and_sizes, size_operands, AddressError, FormatStringIterator, Opdata, SizePrefixError,
    SizePrefixes,
};
use dynasm_lib::arch::x64::debug::format_opdata_list;
use dynasm_lib::arch::x64::emit::{finish_byte, run_emit, run_plan, Emit, Patch};
use dynasm_lib::arch::x64::encode::{
    compile_modrm_sib, compile_operand, compile_rex, compile_sib_dynscale, compile_tail, compile_vex_xop, modrm_byte,
    reloc_offset, rex_byte, OperandError, Reloc, RelocationKind,
};
use dynasm_lib::arch::x64::opmap::get_mnemnonic_data;
use dynasm_lib::arch::x64::x64data::{Features, Flags};
use dynasm_lib::arch::x64::{AssembleX64, AssembleX86, Archx64, Archx86, Error, InstructionX64, InstructionX86, X86Mode};
use dynasm_lib::arch::x64::ast::Instruction;
use dynasm_lib::arch::{Arch, Error as ExprError, ErrorSpan};
use dynasm_lib::common::{Expr, Ident, Jump, JumpKind, Number, NumericRepr, Size, Stmt, Value};
use dynasm_lib::State;

fn form(args: &str, flags: u32) -> Opdata {
    Opdata {
        args: args.as_bytes().to_vec(),
        ops: vec![0x90],
        reg: 0xFF,
        flags: Flags::from_bits(flags),
        features: Features::empty(),
    }
}

fn direct(size: Size, id: RegId) -> CleanArg {
    CleanArg::Direct { reg: Register::new_static(size, id) }
}

fn sized(size: Size, id: RegId) -> SizedArg {
    SizedArg::Direct { reg: Register::new_static(size, id) }
}

fn memory(size: Option<Size>, base: Option<Register>, index: Option<(Register, isize, Option<Expr>)>) -> CleanArg {
    CleanArg::Indirect { nosplit: false, size, disp_size: None, base, index, disp: None }
}

fn r(size: Size, id: RegId) -> Register {
    Register::new_static(size, id)
}

fn generic(message: &str) -> Error {
    Error::Generic { message: String::from(message) }
}

#[test]
fn registers_have_a_family_and_a_code() {
    assert_eq!(RegId::RAX.code(), 0);
    assert_eq!(RegId::R15.code(), 15);
    assert_eq!(RegId::RIP.code(), 5);
    assert_eq!(RegId::BH.code(), 7);
    assert_eq!(RegId::XMM9.code(), 9);
    assert_eq!(RegId::GS.code(), 5);
    assert_eq!(RegId::BND3.code(), 3);
    assert_eq!(RegId::RAX.family(), RegFamily::LEGACY);
    assert_eq!(RegId::RIP.family(), RegFamily::RIP);
    assert_eq!(RegId::AH.family(), RegFamily::HIGHBYTE);
    assert_eq!(RegId::ST7.family(), RegFamily::FP);
    assert_eq!(RegId::MMX0.family(), RegFamily::MMX);
    assert_eq!(RegId::XMM15.family(), RegFamily::XMM);
    assert_eq!(RegId::ES.family(), RegFamily::SEGMENT);
    assert_eq!(RegId::CR8.family(), RegFamily::CONTROL);
    assert_eq!(RegId::DR7.family(), RegFamily::DEBUG);
    assert_eq!(RegId::BND0.family(), RegFamily::BOUND);
    assert_eq!(RegId::from_number(0x00), Some(RegId::RAX));
    assert_eq!(RegId::from_number(0x0C), Some(RegId::R12));
    assert_eq!(RegId::from_number(0x15), Some(RegId::RIP));
    assert_eq!(RegId::from_number(0x5F), Some(RegId::XMM15));
    assert_eq!(RegId::from_number(0x93), Some(RegId::BND3));
    assert_eq!(RegId::from_number(0x10), None);
    assert_eq!(RegId::from_number(0x66), None);
    assert_eq!(RegId::from_number(0xFF), None);
    for number in 0..=255u8 {
        if let Some(id) = RegId::from_number(number) {
            assert_eq!(id.code(), number & 0xF);
            assert_eq!(Some(RegKind::Static(id)), RegKind::from_number(number));
        } else {
            assert_eq!(RegKind::from_number(number), None);
        }
    }
}

#[test]
fn register_kinds() {
    let expr = Expr { idx: 0, repr: NumericRepr::U8() };
    let known = RegKind::Static(RegId::R9);
    let dynamic = RegKind::Dynamic(RegFamily::XMM, expr);
    assert_eq!(known.code(), Some(9));
    assert_eq!(dynamic.code(), None);
    assert_eq!(known.encode(), 9);
    assert_eq!(dynamic.encode(), 0);
    assert_eq!(known.family(), RegFamily::LEGACY);
    assert_eq!(dynamic.family(), RegFamily::XMM);
    assert!(!known.is_dynamic());
    assert!(dynamic.is_dynamic());
    assert!(known.is_extended());
    assert!(dynamic.is_extended());
    assert!(!RegKind::Static(RegId::RDI).is_extended());
    assert!(!RegKind::Static(RegId::ST7).is_extended());
    assert!(!RegKind::Dynamic(RegFamily::MMX, expr).is_extended());
    assert!(RegKind::Static(RegId::CR8).is_extended());
    assert!(known.is(RegId::R9));
    assert!(!known.is(RegId::R10));
    assert!(!dynamic.is(RegId::XMM0));
    assert_eq!(known.expr(), None);
    assert_eq!(dynamic.expr(), Some(expr));
    let reg = Register::new_dynamic(Size::OWORD, RegFamily::XMM, expr);
    assert_eq!(reg.size(), Size::OWORD);
    assert_eq!(reg.kind, dynamic);
    assert!(Register::new_static(Size::BYTE, RegId::RSP).is(RegId::RSP));
}

#[test]
fn formats_are_read_in_pairs() {
    let mut iter = FormatStringIterator::new(b"r*vb");
    assert_eq!(iter.next(), Some((b'r', b'*')));
    assert_eq!(iter.next(), Some((b'v', b'b')));
    assert_eq!(iter.next(), None);
    assert_eq!(iter.next(), None);
    let mut iter = FormatStringIterator::new(b"r*v");
    assert_eq!(iter.next(), Some((b'r', b'*')));
    assert_eq!(iter.next(), None);
    assert_eq!(read_format(b"ibod"), vec![(b'i', b'b'), (b'o', b'd')]);
    assert_eq!(read_format(b""), vec![]);
}

#[test]
fn formats_match_by_kind() {
    let ok = |args: &str, operands: &[CleanArg]| match_format_string(X86Mode::Long, &form(args, 0), operands);
    let eax = direct(Size::DWORD, RegId::RAX);
    let cl = direct(Size::BYTE, RegId::RCX);
    let value = CleanArg::Immediate { value: Value::Byte(1) };
    let target = CleanArg::JumpTarget { jump: Jump::new(JumpKind::Global(Ident::new("a")), None), size: None };
    let plain = memory(None, Some(r(Size::QWORD, RegId::RAX)), None);
    let gather = memory(None, Some(r(Size::QWORD, RegId::RAX)), Some((r(Size::OWORD, RegId::XMM1), 1, None)));
    assert_eq!(ok("rd", &[eax.clone()]), Ok(()));
    assert_eq!(ok("vd", &[eax.clone()]), Ok(()));
    assert_eq!(ok("Ad", &[eax.clone()]), Ok(()));
    assert_eq!(ok("Bd", &[eax.clone()]), Err(generic("argument type mismatch")));
    assert_eq!(ok("Bb", &[cl.clone()]), Ok(()));
    assert_eq!(ok("yd", &[eax.clone()]), Err(generic("argument type mismatch")));
    assert_eq!(ok("md", &[eax.clone()]), Err(generic("argument type mismatch")));
    assert_eq!(ok("ib", &[value.clone()]), Ok(()));
    assert_eq!(ok("ob", &[value.clone()]), Ok(()));
    assert_eq!(ok("rb", &[value.clone()]), Err(generic("argument type mismatch")));
    assert_eq!(ok("od", &[target.clone()]), Ok(()));
    assert_eq!(ok("id", &[target.clone()]), Err(generic("argument type mismatch")));
    assert_eq!(ok("md", &[plain.clone()]), Ok(()));
    assert_eq!(ok("vd", &[plain.clone()]), Ok(()));
    assert_eq!(ok("wo", &[plain.clone()]), Ok(()));
    assert_eq!(ok("rd", &[plain.clone()]), Err(generic("argument type mismatch")));
    assert_eq!(ok("k*", &[plain.clone()]), Err(generic("argument type mismatch")));
    assert_eq!(ok("k*", &[gather.clone()]), Ok(()));
    assert_eq!(ok("l*", &[gather.clone()]), Ok(()));
    assert_eq!(ok("m*", &[gather.clone()]), Err(generic("argument type mismatch")));
    assert_eq!(ok("Qw", &[direct(Size::WORD, RegId::ES)]), Ok(()));
    assert_eq!(ok("Qw", &[direct(Size::WORD, RegId::CS)]), Err(generic("argument type mismatch")));
    assert_eq!(ok("sw", &[direct(Size::WORD, RegId::CS)]), Ok(()));
    assert_eq!(ok("Wq", &[direct(Size::QWORD, RegId::CR8)]), Ok(()));
    assert_eq!(ok("Wq", &[direct(Size::QWORD, RegId::CR0)]), Err(generic("argument type mismatch")));
    assert_eq!(ok("Xp", &[direct(Size::PWORD, RegId::ST0)]), Ok(()));
    assert_eq!(ok("fp", &[direct(Size::PWORD, RegId::ST5)]), Ok(()));
    assert_eq!(ok("xq", &[direct(Size::QWORD, RegId::MMX1)]), Ok(()));
    assert_eq!(ok("dq", &[direct(Size::QWORD, RegId::DR1)]), Ok(()));
    assert_eq!(ok("bo", &[direct(Size::OWORD, RegId::BND1)]), Ok(()));
    assert_eq!(ok("rb", &[direct(Size::BYTE, RegId::AH)]), Ok(()));
    assert_eq!(ok("rd", &[]), Err(generic("argument length mismatch")));
    assert_eq!(ok("rdr", &[eax.clone()]), Err(generic("argument length mismatch")));
    assert_eq!(ok("", &[]), Ok(()));
}

#[test]
fn formats_match_by_size() {
    let ok = |args: &str, flags: u32, operand: CleanArg| match_format_string(X86Mode::Long, &form(args, flags), &[operand]);
    let size_mismatch = Err(generic("argument size mismatch"));
    assert_eq!(ok("rd", 0, direct(Size::QWORD, RegId::RAX)), size_mismatch);
    assert_eq!(ok("r*", 0, direct(Size::QWORD, RegId::RAX)), Ok(()));
    assert_eq!(ok("r*", 0, direct(Size::BYTE, RegId::RAX)), size_mismatch);
    assert_eq!(ok("y*", 0, direct(Size::HWORD, RegId::XMM0)), Ok(()));
    assert_eq!(ok("y*", 0, direct(Size::QWORD, RegId::XMM0)), size_mismatch);
    assert_eq!(ok("m*", 0, memory(Some(Size::PWORD), None, None)), Ok(()));
    assert_eq!(ok("m!", 0, memory(Some(Size::PWORD), None, None)), size_mismatch);
    assert_eq!(ok("m!", 0, memory(None, None, None)), Ok(()));
    assert_eq!(ok("r?", 0, direct(Size::BYTE, RegId::RAX)), Ok(()));
    assert_eq!(ok("f*", 0, direct(Size::PWORD, RegId::ST0)), Err(generic("invalid format string")));
    assert_eq!(ok("rz", 0, direct(Size::DWORD, RegId::RAX)), Err(generic("invalid format string")));
    // immediates fit larger slots
    let byte = CleanArg::Immediate { value: Value::Byte(1) };
    let dword = CleanArg::Immediate { value: Value::Dword(1) };
    let qword = CleanArg::Immediate { value: Value::Qword(1) };
    assert_eq!(ok("iw", 0, byte.clone()), Ok(()));
    assert_eq!(ok("id", 0, byte.clone()), Ok(()));
    assert_eq!(ok("iq", 0, dword.clone()), Ok(()));
    assert_eq!(ok("i*", 0, dword.clone()), Ok(()));
    assert_eq!(ok("i*", 0, qword.clone()), size_mismatch);
    assert_eq!(ok("ib", 0, dword.clone()), size_mismatch);
    assert_eq!(ok("iw", 0, dword), size_mismatch);
    // an operand without size
    assert_eq!(ok("md", 0, memory(None, None, None)), Ok(()));
    assert_eq!(ok("md", Flags::EXACT_SIZE, memory(None, None, None)), Err(generic("alternate variant exists")));
    assert_eq!(ok("m*", Flags::EXACT_SIZE, memory(None, None, None)), Ok(()));
    assert_eq!(ok("md", Flags::EXACT_SIZE, memory(Some(Size::DWORD), None, None)), Ok(()));
}

#[test]
fn formats_for_one_mode() {
    let only = form("", Flags::X86_ONLY);
    assert_eq!(match_format_string(X86Mode::Protected, &only, &[]), Ok(()));
    assert_eq!(match_format_string(X86Mode::Long, &only, &[]), Err(generic("Not available in 64-bit mode")));
}

#[test]
fn the_first_encoding_that_fits_is_taken() {
    let mut state = State::new();
    let span = ErrorSpan::instruction_part(0);
    let args = [direct(Size::DWORD, RegId::RCX), CleanArg::Immediate { value: Value::Byte(1) }];
    let data = match_op_format(&mut state, X86Mode::Long, span, "add", &args).unwrap();
    assert_eq!(data.args, b"v*ib".to_vec());
    assert_eq!(data.ops, vec![0x83]);
    assert_eq!(data.reg, 0);
    assert!(data.flags.contains(Flags::EXACT_SIZE | Flags::AUTO_SIZE | Flags::LOCK));
    let args = [direct(Size::DWORD, RegId::RAX), CleanArg::Immediate { value: Value::Dword(1) }];
    let data = match_op_format(&mut state, X86Mode::Long, span, "add", &args).unwrap();
    assert_eq!(data.args, b"A*i*".to_vec());
    let data = match_op_format(&mut state, X86Mode::Protected, span, "inc", &[direct(Size::DWORD, RegId::RCX)]).unwrap();
    assert_eq!(data.ops, vec![0x40]);
    let data = match_op_format(&mut state, X86Mode::Long, span, "inc", &[direct(Size::DWORD, RegId::RCX)]).unwrap();
    assert_eq!(data.ops, vec![0xFF]);
    assert!(state.diagnostics.is_empty());
    assert_eq!(match_op_format(&mut state, X86Mode::Long, span, "ADD", &args), Err(Error::Fatal));
    assert_eq!(state.diagnostics.len(), 1);
    assert_eq!(state.diagnostics[0].message, "'ADD' is not a valid instruction");
}

#[test]
fn the_opcode_table() {
    assert!(get_mnemnonic_data("frob").is_none());
    let je = get_mnemnonic_data("je").unwrap();
    let jz = get_mnemnonic_data("jz").unwrap();
    assert_eq!(je, jz);
    assert_eq!(je.len(), 2);
    assert_eq!(je[1].ops, vec![0x0F, 0x84]);
    let gather = get_mnemnonic_data("vgatherdps").unwrap();
    assert_eq!(gather[0].args, b"y*k*y*".to_vec());
    assert_eq!(gather[0].features, Features::from_bits(Features::AVX2));
    assert_eq!(gather[0].reg, 0xFF);
    let text = format_opdata_list("mov", &get_mnemnonic_data("movzx").unwrap());
    assert_eq!(
        text,
        "'mov': argument type/size mismatch, expected one of the following forms:\nmov reg*, reg/mem8\nmov reg*, reg/mem16"
    );
}

#[test]
fn scales() {
    assert_eq!(encode_scale(1), Some(0));
    assert_eq!(encode_scale(2), Some(1));
    assert_eq!(encode_scale(4), Some(2));
    assert_eq!(encode_scale(8), Some(3));
    assert_eq!(encode_scale(0), None);
    assert_eq!(encode_scale(3), None);
    assert_eq!(encode_scale(-1), None);
    assert_eq!(encode_scale(16), None);
}

#[test]
fn sizes_of_displacements() {
    assert_eq!(derive_size(Value::Dword(0x7F)), Some(Size::BYTE));
    assert_eq!(derive_size(Value::Dword(0x80)), Some(Size::WORD));
    assert_eq!(derive_size(Value::Byte(0x80)), Some(Size::WORD));
    assert_eq!(derive_size(Value::Qword(0x7FFF)), Some(Size::WORD));
    assert_eq!(derive_size(Value::Qword(0x8000)), Some(Size::DWORD));
    assert_eq!(derive_size(Value::Qword(0x7FFF_FFFF)), Some(Size::DWORD));
    assert_eq!(derive_size(Value::Qword(0x8000_0000)), Some(Size::QWORD));
    assert_eq!(derive_size(Value::Qword(u64::MAX)), Some(Size::QWORD));
    assert_eq!(derive_size(Value::Number(Number::from_u64_and_repr(u64::MAX, NumericRepr::I64()))), Some(Size::BYTE));
    assert_eq!(derive_size(Value::Number(Number::from_u64_and_repr(0xFF7F, NumericRepr::I16()))), Some(Size::WORD));
    assert_eq!(derive_size(Value::Expr(Expr { idx: 0, repr: NumericRepr::U16() })), Some(Size::WORD));
}

#[test]
fn address_forms() {
    let rax = r(Size::QWORD, RegId::RAX);
    let rsp = r(Size::QWORD, RegId::RSP);
    let xmm1 = r(Size::OWORD, RegId::XMM1);
    let xmm2 = r(Size::OWORD, RegId::XMM2);
    let form = resolve_address(X86Mode::Long, false, None, None);
    assert_eq!(form.complaint, None);
    let found = form.address.unwrap();
    assert_eq!((found.base, found.index, found.size), (None, None, None));
    let found = resolve_address(X86Mode::Long, false, Some(rsp), None).address.unwrap();
    assert_eq!((found.base, found.index, found.size), (Some(rsp), Some((rsp, 1, None)), Some(Size::QWORD)));
    let found = resolve_address(X86Mode::Long, false, Some(r(Size::DWORD, RegId::R12)), None).address.unwrap();
    assert_eq!(found.index, Some((r(Size::DWORD, RegId::RSP), 1, None)));
    assert_eq!(found.size, Some(Size::DWORD));
    let found = resolve_address(X86Mode::Long, false, None, Some((rax, 9, None))).address.unwrap();
    assert_eq!((found.base, found.index), (Some(rax), Some((rax, 8, None))));
    let found = resolve_address(X86Mode::Long, true, None, Some((rax, 9, None))).address.unwrap();
    assert_eq!((found.base, found.index), (None, Some((rax, 9, None))));
    let found = resolve_address(X86Mode::Long, false, None, Some((rsp, 1, None))).address.unwrap();
    assert_eq!((found.base, found.index), (Some(rsp), Some((rsp, 1, None))));
    let form = resolve_address(X86Mode::Long, false, Some(rsp), Some((rsp, 1, None)));
    assert_eq!(form.complaint, Some(AddressError::RspIndex));
    assert!(form.address.is_none());
    let form = resolve_address(X86Mode::Long, false, Some(rax), Some((r(Size::DWORD, RegId::RCX), 1, None)));
    assert_eq!(form.complaint, Some(AddressError::DifferingSizes));
    let form = resolve_address(X86Mode::Long, false, Some(rax), Some((r(Size::QWORD, RegId::RIP), 1, None)));
    assert_eq!(form.complaint, Some(AddressError::Combination));
    let found = resolve_address(X86Mode::Long, false, None, Some((r(Size::QWORD, RegId::RIP), 1, None))).address.unwrap();
    assert_eq!((found.base, found.index, found.size), (Some(r(Size::QWORD, RegId::RIP)), None, Some(Size::QWORD)));
    let form = resolve_address(X86Mode::Long, false, None, Some((r(Size::QWORD, RegId::RIP), 2, None)));
    assert_eq!(form.complaint, Some(AddressError::ScaledRip));
    let form = resolve_address(X86Mode::Long, false, Some(r(Size::BYTE, RegId::RAX)), None);
    assert_eq!(form.complaint, Some(AddressError::RegisterType));
    let form = resolve_address(X86Mode::Long, false, Some(r(Size::QWORD, RegId::MMX0)), None);
    assert_eq!(form.complaint, Some(AddressError::RegisterType));
    // vector registers
    let found = resolve_address(X86Mode::Long, false, Some(xmm1), None).address.unwrap();
    assert_eq!((found.base, found.index, found.size), (None, Some((xmm1, 1, None)), None));
    let form = resolve_address(X86Mode::Long, false, Some(xmm1), Some((xmm2, 4, None)));
    assert_eq!(form.complaint, Some(AddressError::Combination));
    let found = form.address.unwrap();
    assert_eq!((found.base, found.index, found.size), (None, Some((xmm1, 1, None)), None));
    let found = resolve_address(X86Mode::Long, false, Some(xmm1), Some((rax, 1, None))).address.unwrap();
    assert_eq!((found.base, found.index, found.size), (Some(rax), Some((xmm1, 1, None)), Some(Size::QWORD)));
    let form = resolve_address(X86Mode::Long, false, Some(xmm1), Some((rax, 2, None)));
    assert_eq!(form.complaint, Some(AddressError::VectorBase));
    let form = resolve_address(X86Mode::Protected, false, Some(r(Size::WORD, RegId::RBX)), Some((xmm1, 1, None)));
    assert_eq!(form.complaint, Some(AddressError::WordAddressing));
}

#[test]
fn sixteen_bit_address_forms() {
    let word = |id| r(Size::WORD, id);
    let base = |first, second: Option<RegId>| {
        resolve_address(X86Mode::Protected, false, Some(word(first)), second.map(|id| (word(id), 1, None)))
    };
    let combined = |id| Some(word(id));
    assert_eq!(base(RegId::RBX, Some(RegId::RSI)).address.unwrap().base, combined(RegId::RAX));
    assert_eq!(base(RegId::RSI, Some(RegId::RBX)).address.unwrap().base, combined(RegId::RAX));
    assert_eq!(base(RegId::RBX, Some(RegId::RDI)).address.unwrap().base, combined(RegId::RCX));
    assert_eq!(base(RegId::RBP, Some(RegId::RSI)).address.unwrap().base, combined(RegId::RDX));
    assert_eq!(base(RegId::RDI, Some(RegId::RBP)).address.unwrap().base, combined(RegId::RBX));
    assert_eq!(base(RegId::RSI, None).address.unwrap().base, combined(RegId::RSP));
    assert_eq!(base(RegId::RDI, None).address.unwrap().base, combined(RegId::RBP));
    assert_eq!(base(RegId::RBP, None).address.unwrap().base, combined(RegId::RSI));
    assert_eq!(base(RegId::RBX, None).address.unwrap().base, combined(RegId::RDI));
    assert_eq!(base(RegId::RBX, None).address.unwrap().size, Some(Size::WORD));
    assert_eq!(base(RegId::RBX, None).address.unwrap().index, None);
    assert_eq!(base(RegId::RAX, None).complaint, Some(AddressError::WordCombination));
    assert_eq!(base(RegId::RBX, Some(RegId::RBP)).complaint, Some(AddressError::WordCombination));
    assert_eq!(base(RegId::RSI, Some(RegId::RDI)).complaint, Some(AddressError::WordCombination));
    let found = resolve_address(X86Mode::Protected, false, None, Some((word(RegId::RSI), 1, None)));
    assert_eq!(found.address.unwrap().base, combined(RegId::RSP));
    let scaled = resolve_address(X86Mode::Protected, false, Some(word(RegId::RBX)), Some((word(RegId::RSI), 2, None)));
    assert_eq!(scaled.complaint, Some(AddressError::ScaledWord));
    let long = resolve_address(X86Mode::Long, false, Some(word(RegId::RBX)), None);
    assert_eq!(long.complaint, Some(AddressError::WordAddressing));
}

#[test]
fn memory_references_are_checked() {
    let mut state = State::new();
    let mut base = Some(r(Size::QWORD, RegId::R12));
    let mut index = None;
    let size = sanitize_indirect(&mut state, X86Mode::Long, ErrorSpan::argument(0), false, &mut base, &mut index);
    assert_eq!(size, Ok(Some(Size::QWORD)));
    assert_eq!(index, Some((r(Size::QWORD, RegId::RSP), 1, None)));
    assert!(state.diagnostics.is_empty());
    let mut base = Some(r(Size::QWORD, RegId::CR0));
    let mut index = None;
    let size = sanitize_indirect(&mut state, X86Mode::Long, ErrorSpan::argument(3), false, &mut base, &mut index);
    assert_eq!(size, Err(Error::Fatal));
    assert_eq!(state.diagnostics.len(), 1);
    assert_eq!(state.diagnostics[0].span, ErrorSpan::Argument { idx: 3 });
    assert_eq!(state.diagnostics[0].message, "Register type not supported");

    let mut state = State::new();
    let mut args = vec![
        direct(Size::DWORD, RegId::RAX),
        CleanArg::Indirect {
            nosplit: false,
            size: None,
            disp_size: Some(Size::WORD),
            base: Some(r(Size::DWORD, RegId::RBX)),
            index: Some((r(Size::DWORD, RegId::RCX), 3, None)),
            disp: None,
        },
        CleanArg::Indirect {
            nosplit: false,
            size: Some(Size::DWORD),
            disp_size: None,
            base: None,
            index: None,
            disp: Some(Value::Dword(0x100)),
        },
    ];
    assert_eq!(sanitize_indirects_and_sizes(&mut state, X86Mode::Long, &mut args), Ok(None));
    let messages: Vec<&str> = state.diagnostics.iter().map(|d| d.message.as_str()).collect();
    assert_eq!(
        messages,
        vec![
            "Impossible scale",
            "Displacement size without displacement",
            "Invalid displacement size, only BYTE or DWORD are possible",
            "Multiple memory references in a single instruction",
        ]
    );
    assert_eq!(state.diagnostics[0].span, ErrorSpan::Argument { idx: 1 });
    assert_eq!(state.diagnostics[3].span, ErrorSpan::Argument { idx: 2 });
    match &args[2] {
        CleanArg::Indirect { disp_size, .. } => assert_eq!(*disp_size, Some(Size::DWORD)),
        other => panic!("unexpected operand {:?}", other),
    }
}

#[test]
fn operands_are_sized() {
    let eax = direct(Size::DWORD, RegId::RAX);
    let rax = direct(Size::QWORD, RegId::RAX);
    let byte = CleanArg::Immediate { value: Value::Byte(1) };
    let target = CleanArg::JumpTarget { jump: Jump::new(JumpKind::Global(Ident::new("a")), None), size: None };
    let (size, args) = size_operands(&form("r*i*", 0), vec![rax.clone(), byte.clone()]).unwrap();
    assert_eq!(size, Some(Size::QWORD));
    assert_eq!(args, vec![sized(Size::QWORD, RegId::RAX), SizedArg::Immediate { value: Value::Dword(1) }]);
    let (size, args) = size_operands(&form("r*ib", 0), vec![eax.clone(), byte.clone()]).unwrap();
    assert_eq!(size, Some(Size::DWORD));
    assert_eq!(args[1], SizedArg::Immediate { value: Value::Byte(1) });
    let (size, args) = size_operands(&form("od", 0), vec![target.clone()]).unwrap();
    assert_eq!(size, None);
    assert_eq!(args, vec![SizedArg::JumpTarget { jump: Jump::new(JumpKind::Global(Ident::new("a")), None), size: Size::DWORD }]);
    let (size, args) = size_operands(&form("i*", 0), vec![byte.clone()]).unwrap();
    assert_eq!((size, args), (None, vec![SizedArg::Immediate { value: Value::Byte(1) }]));
    let gather = memory(None, None, Some((r(Size::HWORD, RegId::XMM1), 1, None)));
    let (size, _) = size_operands(&form("k*", 0), vec![gather]).unwrap();
    assert_eq!(size, Some(Size::HWORD));
    assert_eq!(size_operands(&form("r*r*", 0), vec![eax.clone(), rax.clone()]), Err(generic("Conflicting operand sizes")));
    assert_eq!(size_operands(&form("m*", 0), vec![memory(None, None, None)]), Err(generic("Unknown operand size")));
    assert_eq!(
        size_operands(&form("i*i*", 0), vec![byte.clone(), byte.clone()]),
        Err(generic("Bad formatting data? multiple immediates with wildcard size"))
    );
    assert_eq!(
        size_operands(&form("rwi*", 0), vec![direct(Size::WORD, RegId::RAX), byte.clone()]).map(|s| s.0),
        Ok(None)
    );
    assert_eq!(
        size_operands(&form("r*i*", 0), vec![direct(Size::WORD, RegId::RAX), CleanArg::Immediate { value: Value::Dword(1) }]),
        Err(generic("Immediate size mismatch"))
    );
    assert_eq!(size_operands(&form("o*", 0), vec![target.clone()]), Err(generic("bad formatting data")));
    // an offset of open size is an immediate: it takes at most four bytes
    let (size, args) = size_operands(&form("r*o*", 0), vec![rax.clone(), target.clone()]).unwrap();
    assert_eq!(size, Some(Size::QWORD));
    assert_eq!(
        args[1],
        SizedArg::JumpTarget { jump: Jump::new(JumpKind::Global(Ident::new("a")), None), size: Size::DWORD }
    );
    let sized_target =
        CleanArg::JumpTarget { jump: Jump::new(JumpKind::Global(Ident::new("a")), None), size: Some(Size::BYTE) };
    let (size, args) = size_operands(&form("o*", 0), vec![sized_target]).unwrap();
    assert_eq!(size, None);
    assert_eq!(
        args[0],
        SizedArg::JumpTarget { jump: Jump::new(JumpKind::Global(Ident::new("a")), None), size: Size::BYTE }
    );
    assert_eq!(size_operands(&form("r?", 0), vec![eax]), Err(generic("bad formatting data")));
}

#[test]
fn legacy_prefixes() {
    let names = |list: &[&str]| list.iter().map(|n| Ident::new(n)).collect::<Vec<Ident>>();
    let mut state = State::new();
    let all = form("", Flags::REP | Flags::REPE | Flags::LOCK);
    assert_eq!(get_legacy_prefixes(&mut state, &all, &names(&[])), Ok((None, None)));
    assert_eq!(get_legacy_prefixes(&mut state, &all, &names(&["rep"])), Ok((Some(0xF3), None)));
    assert_eq!(get_legacy_prefixes(&mut state, &all, &names(&["repe"])), Ok((Some(0xF3), None)));
    assert_eq!(get_legacy_prefixes(&mut state, &all, &names(&["repz"])), Ok((Some(0xF3), None)));
    assert_eq!(get_legacy_prefixes(&mut state, &all, &names(&["repne"])), Ok((Some(0xF2), None)));
    assert_eq!(get_legacy_prefixes(&mut state, &all, &names(&["repnz"])), Ok((Some(0xF2), None)));
    assert_eq!(get_legacy_prefixes(&mut state, &all, &names(&["lock"])), Ok((Some(0xF0), None)));
    for (name, byte) in [("ss", 0x36), ("cs", 0x2E), ("ds", 0x3E), ("es", 0x26), ("fs", 0x64), ("gs", 0x65)] {
        assert_eq!(get_legacy_prefixes(&mut state, &form("", 0), &names(&[name, "lock"][..1])), Ok((None, Some(byte))));
    }
    assert_eq!(get_legacy_prefixes(&mut state, &all, &names(&["gs", "lock"])), Ok((Some(0xF0), Some(0x65))));
    assert!(state.diagnostics.is_empty());
    assert_eq!(get_legacy_prefixes(&mut state, &form("", Flags::REP), &names(&["repe"])), Err(Error::Fatal));
    assert_eq!(get_legacy_prefixes(&mut state, &form("", Flags::REPE), &names(&["repne"])), Err(Error::Fatal));
    assert_eq!(get_legacy_prefixes(&mut state, &form("", 0), &names(&["es", "lock"])), Err(Error::Fatal));
    assert_eq!(get_legacy_prefixes(&mut state, &all, &names(&["es", "cs"])), Err(Error::Fatal));
    let messages: Vec<&str> = state.diagnostics.iter().map(|d| d.message.as_str()).collect();
    assert_eq!(
        messages,
        vec![
            "Cannot use prefix repe on this instruction",
            "Cannot use prefix repne on this instruction",
            "Cannot use prefix lock on this instruction",
            "Duplicate prefix group",
        ]
    );
    assert_eq!(state.diagnostics[2].span, ErrorSpan::InstructionPart { idx: 1 });
}

#[test]
fn prefixes_for_sizes() {
    let none = SizePrefixes { pref_size: false, rex_w: false, vex_l: false };
    let find = |flags, size, mode| find_size_prefixes(Flags::from_bits(flags), size, mode);
    let unsupported = |op_size, mode_hint| Err(SizePrefixError::Unsupported { op_size, mode_hint });
    assert_eq!(find(0, None, X86Mode::Long), Ok(none));
    assert_eq!(find(0, Some(Size::QWORD), X86Mode::Protected), Ok(none));
    assert_eq!(find(Flags::WORD_SIZE, None, X86Mode::Long), Ok(SizePrefixes { pref_size: true, ..none }));
    assert_eq!(find(Flags::WITH_REXW, None, X86Mode::Long), Ok(SizePrefixes { rex_w: true, ..none }));
    assert_eq!(find(Flags::WITH_VEXL, None, X86Mode::Long), Ok(SizePrefixes { vex_l: true, ..none }));
    assert_eq!(find(Flags::AUTO_SIZE, None, X86Mode::Long), Err(SizePrefixError::Format));
    assert_eq!(find(Flags::AUTO_SIZE, Some(Size::WORD), X86Mode::Long), Ok(SizePrefixes { pref_size: true, ..none }));
    assert_eq!(find(Flags::AUTO_SIZE, Some(Size::DWORD), X86Mode::Long), Ok(none));
    assert_eq!(find(Flags::AUTO_SIZE, Some(Size::QWORD), X86Mode::Long), Ok(SizePrefixes { rex_w: true, ..none }));
    assert_eq!(find(Flags::AUTO_SIZE, Some(Size::QWORD), X86Mode::Protected), unsupported(Size::QWORD, Some(X86Mode::Long)));
    assert_eq!(find(Flags::AUTO_SIZE, Some(Size::BYTE), X86Mode::Long), Err(SizePrefixError::Format));
    assert_eq!(find(Flags::AUTO_NO32, Some(Size::WORD), X86Mode::Long), Ok(SizePrefixes { pref_size: true, ..none }));
    assert_eq!(find(Flags::AUTO_NO32, Some(Size::QWORD), X86Mode::Long), Ok(none));
    assert_eq!(find(Flags::AUTO_NO32, Some(Size::DWORD), X86Mode::Protected), Ok(none));
    assert_eq!(find(Flags::AUTO_NO32, Some(Size::DWORD), X86Mode::Long), unsupported(Size::DWORD, Some(X86Mode::Protected)));
    assert_eq!(find(Flags::AUTO_NO32, Some(Size::BYTE), X86Mode::Long), Err(SizePrefixError::Format));
    assert_eq!(find(Flags::AUTO_REXW, Some(Size::QWORD), X86Mode::Long), Ok(SizePrefixes { rex_w: true, ..none }));
    assert_eq!(find(Flags::AUTO_REXW, Some(Size::DWORD), X86Mode::Long), Ok(none));
    assert_eq!(find(Flags::AUTO_REXW, Some(Size::WORD), X86Mode::Protected), unsupported(Size::WORD, None));
    assert_eq!(find(Flags::AUTO_VEXL, Some(Size::HWORD), X86Mode::Long), Ok(SizePrefixes { vex_l: true, ..none }));
    assert_eq!(find(Flags::AUTO_VEXL, Some(Size::OWORD), X86Mode::Long), Ok(none));
    assert_eq!(find(Flags::AUTO_VEXL, Some(Size::DWORD), X86Mode::Long), Err(SizePrefixError::Format));
    assert_eq!(
        find(Flags::AUTO_VEXL | Flags::WITH_REXW, Some(Size::HWORD), X86Mode::Long),
        Ok(SizePrefixes { pref_size: false, rex_w: true, vex_l: true })
    );
    assert_eq!(needs_address_prefix(X86Mode::Long, Size::QWORD), Some(false));
    assert_eq!(needs_address_prefix(X86Mode::Long, Size::DWORD), Some(true));
    assert_eq!(needs_address_prefix(X86Mode::Long, Size::WORD), None);
    assert_eq!(needs_address_prefix(X86Mode::Protected, Size::DWORD), Some(false));
    assert_eq!(needs_address_prefix(X86Mode::Protected, Size::WORD), Some(true));
    assert_eq!(needs_address_prefix(X86Mode::Protected, Size::QWORD), None);
}

#[test]
fn the_need_of_a_rex_prefix() {
    let check = |mode, args: &str, flags, operands: Vec<SizedArg>, rex_w| check_rex(mode, &form(args, flags), &operands, rex_w);
    let rax = sized(Size::QWORD, RegId::RAX);
    let r8 = sized(Size::QWORD, RegId::R8);
    let ah = sized(Size::BYTE, RegId::AH);
    let dil = sized(Size::BYTE, RegId::RDI);
    let dynamic = SizedArg::Direct {
        reg: Register::new_dynamic(Size::DWORD, RegFamily::LEGACY, Expr { idx: 0, repr: NumericRepr::U8() }),
    };
    assert_eq!(check(X86Mode::Long, "rqrq", 0, vec![rax.clone(), rax.clone()], false), Ok(false));
    assert_eq!(check(X86Mode::Long, "rqrq", 0, vec![rax.clone(), rax.clone()], true), Ok(true));
    assert_eq!(check(X86Mode::Long, "rqrq", 0, vec![rax.clone(), r8.clone()], false), Ok(true));
    assert_eq!(check(X86Mode::Long, "rbrb", 0, vec![dil.clone()], false), Ok(true));
    assert_eq!(check(X86Mode::Long, "rd", 0, vec![dynamic.clone()], false), Ok(true));
    // a register that the opcode implies is not encoded
    assert_eq!(check(X86Mode::Long, "Iq", 0, vec![r8.clone()], false), Ok(false));
    assert_eq!(check(X86Mode::Long, "rbrb", 0, vec![ah.clone(), ah.clone()], false), Ok(false));
    let high = Err(generic("High byte register combined with extended registers or 64-bit operand size"));
    assert_eq!(check(X86Mode::Long, "rbrb", 0, vec![ah.clone(), dil.clone()], false), high);
    assert_eq!(check(X86Mode::Long, "rbrb", 0, vec![ah.clone(), ah.clone()], true), high);
    let memory = SizedArg::Indirect {
        disp_size: None,
        base: Some(r(Size::QWORD, RegId::RAX)),
        index: Some((r(Size::QWORD, RegId::R9), 1, None)),
        disp: None,
    };
    assert_eq!(check(X86Mode::Long, "mq", 0, vec![memory.clone()], false), Ok(true));
    assert_eq!(check(X86Mode::Protected, "rqrq", 0, vec![rax.clone(), rax.clone()], false), Ok(false));
    assert_eq!(check(X86Mode::Protected, "rd", 0, vec![dynamic], false), Ok(false));
    assert!(matches!(
        check(X86Mode::Protected, "rqrq", 0, vec![rax.clone(), rax.clone()], true),
        Err(Error::UnsupportedInThisMode { mode_hint: Some(X86Mode::Long), .. })
    ));
    assert!(matches!(
        check(X86Mode::Protected, "rqrq", 0, vec![rax.clone(), r8.clone()], false),
        Err(Error::UnsupportedInThisMode { mode_hint: Some(X86Mode::Long), .. })
    ));
    assert!(matches!(
        check(X86Mode::Protected, "mq", 0, vec![memory.clone()], false),
        Err(Error::UnsupportedInThisMode { .. })
    ));
    assert_eq!(check(X86Mode::Protected, "mq", Flags::VEX_OP, vec![memory.clone()], false), Ok(false));
    assert_eq!(check(X86Mode::Protected, "mq", Flags::XOP_OP, vec![memory], false), Ok(false));
}

#[test]
fn operands_go_to_their_fields() {
    let a = sized(Size::OWORD, RegId::XMM0);
    let b = sized(Size::OWORD, RegId::XMM1);
    let c = sized(Size::OWORD, RegId::XMM2);
    let d = sized(Size::OWORD, RegId::XMM3);
    let i = SizedArg::Immediate { value: Value::Byte(1) };
    let extract = |args: &str, flags, operands: Vec<SizedArg>| extract_args(&form(args, flags), operands).unwrap();
    let none = None::<SizedArg>;
    assert_eq!(extract("", 0, vec![]), (None, None, None, None, vec![]));
    assert_eq!(extract("yo", 0, vec![a.clone()]), (Some(a.clone()), None, None, None, vec![]));
    assert_eq!(
        extract("yoyoib", 0, vec![a.clone(), b.clone(), i.clone()]),
        (Some(b.clone()), Some(a.clone()), None, None, vec![i.clone()])
    );
    assert_eq!(
        extract("yoyo", Flags::ENC_MR, vec![a.clone(), b.clone()]),
        (Some(a.clone()), Some(b.clone()), None, None, vec![])
    );
    assert_eq!(extract("woyo", 0, vec![a.clone(), b.clone()]), (Some(a.clone()), Some(b.clone()), None, None, vec![]));
    assert_eq!(
        extract("yoyo", Flags::ENC_VM, vec![a.clone(), b.clone()]),
        (Some(b.clone()), None, Some(a.clone()), None, vec![])
    );
    assert_eq!(
        extract("yoyowo", 0, vec![a.clone(), b.clone(), c.clone()]),
        (Some(c.clone()), Some(a.clone()), Some(b.clone()), None, vec![])
    );
    assert_eq!(
        extract("yowoyo", 0, vec![a.clone(), b.clone(), c.clone()]),
        (Some(b.clone()), Some(a.clone()), Some(c.clone()), None, vec![])
    );
    assert_eq!(
        extract("woyoyo", 0, vec![a.clone(), b.clone(), c.clone()]),
        (Some(a.clone()), Some(c.clone()), Some(b.clone()), None, vec![])
    );
    assert_eq!(
        extract("yoyoyo", Flags::ENC_VM, vec![a.clone(), b.clone(), c.clone()]),
        (Some(a.clone()), Some(c.clone()), Some(b.clone()), None, vec![])
    );
    assert_eq!(
        extract("yoyowoyo", 0, vec![a.clone(), b.clone(), c.clone(), d.clone()]),
        (Some(c.clone()), Some(a.clone()), Some(b.clone()), Some(d.clone()), vec![])
    );
    assert_eq!(
        extract("yoyoyowo", 0, vec![a.clone(), b.clone(), c.clone(), d.clone()]),
        (Some(d.clone()), Some(a.clone()), Some(b.clone()), Some(c.clone()), vec![])
    );
    let cr = sized(Size::QWORD, RegId::CR3);
    let rax = sized(Size::QWORD, RegId::RAX);
    assert_eq!(
        extract("cqrq", 0, vec![cr.clone(), rax.clone()]),
        (Some(rax.clone()), Some(cr.clone()), None, None, vec![])
    );
    assert_eq!(
        extract("rqcq", 0, vec![rax.clone(), cr.clone()]),
        (Some(rax.clone()), Some(cr.clone()), None, None, vec![])
    );
    assert_eq!(extract("Aqrq", 0, vec![rax.clone(), rax.clone()]), (Some(rax.clone()), none, None, None, vec![]));
    let bad = Err(generic("bad formatting data"));
    assert_eq!(extract_args(&form("mqmq", 0), vec![rax.clone(), rax.clone()]), bad);
    assert_eq!(extract_args(&form("cqcq", 0), vec![cr.clone(), cr.clone()]), bad);
    assert_eq!(
        extract_args(&form("rqrqrqrqrq", 0), vec![rax.clone(), rax.clone(), rax.clone(), rax.clone(), rax]),
        bad
    );
}

#[test]
fn bytes_for_registers() {
    assert_eq!(modrm_byte(0b11, 0b011, 0b000), 0xD8);
    assert_eq!(modrm_byte(0b01, 0, 0b100), 0x44);
    assert_eq!(modrm_byte(2, 9, 11), 0x8B);
    assert_eq!(modrm_byte(7, 0, 0), 0xC0);
    assert_eq!(rex_byte(true, 0, 0, 0), 0x48);
    assert_eq!(rex_byte(false, 8, 0, 0), 0x44);
    assert_eq!(rex_byte(false, 0, 9, 0), 0x42);
    assert_eq!(rex_byte(false, 7, 7, 15), 0x41);
    assert_eq!(rex_byte(true, 15, 15, 15), 0x4F);
    assert_eq!(RelocationKind::Relative.to_id(), 0);
    assert_eq!(RelocationKind::Absolute.to_id(), 1);
    assert_eq!(RelocationKind::Extern.to_id(), 2);
    assert_eq!(reloc_offset(&vec![4, 1, 32], 2, 0), Some(39));
    assert_eq!(reloc_offset(&vec![4, 1, 32], 0, 2), Some(32));
    assert_eq!(reloc_offset(&vec![4, 1, 32], 1, 3), Some(1));
    assert_eq!(reloc_offset(&vec![32; 8], 0, 0), None);
    assert_eq!(reloc_offset(&vec![32; 8], 0, 1), Some(224));
    assert_eq!(reloc_offset(&vec![255, 1], 0, 0), None);
    assert_eq!(reloc_offset(&vec![255; 1000], 0, 999), Some(255));
    assert_eq!(reloc_offset(&vec![255; 1000], 0, 0), None);
}

#[test]
fn pieces_with_dynamic_registers() {
    let expr = Expr { idx: 0, repr: NumericRepr::U8() };
    let other = Expr { idx: 1, repr: NumericRepr::U8() };
    let dynamic = RegKind::Dynamic(RegFamily::LEGACY, expr);
    let known = RegKind::Static(RegId::R9);
    let mut plan = Vec::new();
    compile_modrm_sib(&mut plan, 3, known, dynamic);
    compile_modrm_sib(&mut plan, 1, known, known);
    compile_sib_dynscale(&mut plan, 2, other, dynamic, known);
    assert_eq!(
        plan,
        vec![
            Emit::Byte { base: 0xC8, patches: vec![Patch::Or { expr, mask: 7, shift: 0 }], coerce: false },
            Emit::Byte { base: 0x49, patches: vec![], coerce: false },
            Emit::ScaledSib { base: 0x01, patches: vec![Patch::Or { expr, mask: 7, shift: 3 }], scale: 2, scale_expr: other },
        ]
    );
    let reg = Some(SizedArg::Direct { reg: Register::new_dynamic(Size::QWORD, RegFamily::LEGACY, expr) });
    let rm = Some(SizedArg::Indirect {
        disp_size: None,
        base: Some(Register::new_dynamic(Size::QWORD, RegFamily::LEGACY, other)),
        index: Some((r(Size::QWORD, RegId::R9), 1, None)),
        disp: None,
    });
    let mut plan = Vec::new();
    compile_rex(&mut plan, true, &reg, &rm);
    assert_eq!(
        plan,
        vec![Emit::Byte {
            base: 0x4A,
            patches: vec![Patch::Or { expr, mask: 8, shift: -1 }, Patch::Or { expr: other, mask: 8, shift: -3 }],
            coerce: false,
        }]
    );
    let mut plan = Vec::new();
    let flags = Flags::from_bits(Flags::VEX_OP);
    compile_vex_xop(&mut plan, X86Mode::Long, flags, &reg, &rm, 1, false, &None, false, 0);
    assert_eq!(
        plan,
        vec![
            Emit::Byte { base: 0xC4, patches: vec![], coerce: false },
            Emit::Byte {
                base: 0xA1,
                patches: vec![
                    Patch::AndNot { expr, mask: 8, shift: 4 },
                    Patch::AndNot { expr: other, mask: 8, shift: 2 },
                ],
                coerce: false,
            },
            Emit::Byte { base: 0x78, patches: vec![], coerce: false },
        ]
    );
    let mut plan = Vec::new();
    compile_vex_xop(&mut plan, X86Mode::Protected, flags, &reg, &rm, 1, false, &reg, true, 1);
    assert_eq!(
        plan,
        vec![
            Emit::Byte { base: 0xC5, patches: vec![], coerce: false },
            Emit::Byte { base: 0xFD, patches: vec![Patch::AndNot { expr, mask: 0xF, shift: 3 }], coerce: false },
        ]
    );
}

#[test]
fn pieces_become_statements() {
    let expr = Expr { idx: 0, repr: NumericRepr::U8() };
    let wide = Expr { idx: 1, repr: NumericRepr::U32() };
    assert_eq!(finish_byte(Value::Byte(3), false), Ok(Stmt::u8(3)));
    assert_eq!(finish_byte(Value::Byte(3), true), Ok(Stmt::u8(3)));
    assert_eq!(finish_byte(Value::Expr(expr), false), Ok(Stmt::Const(Value::Expr(expr))));
    assert_eq!(finish_byte(Value::Expr(wide), false), Err(ExprError::BadExprCombinator { expr: wide }));
    assert_eq!(finish_byte(Value::Expr(wide), true), Ok(Stmt::Const(Value::Expr(Expr { idx: 1, repr: NumericRepr::U8() }))));
    let mut state = State::new();
    assert_eq!(run_emit(&mut state, Emit::Stmt(Stmt::u32(7))), Ok(()));
    assert_eq!(run_emit(&mut state, Emit::Byte { base: 9, patches: vec![], coerce: false }), Ok(()));
    let patched = Emit::Byte { base: 9, patches: vec![Patch::Or { expr, mask: 7, shift: 0 }], coerce: false };
    assert_eq!(run_emit(&mut state, patched.clone()), Err(ExprError::BadExprCombinator { expr }));
    assert_eq!(state.stmts, vec![Stmt::u32(7), Stmt::u8(9)]);
    let plan = vec![Emit::Stmt(Stmt::u8(1)), patched, Emit::Stmt(Stmt::u8(2))];
    assert_eq!(run_plan(&mut state, plan), Err(ExprError::BadExprCombinator { expr }));
    assert_eq!(state.stmts, vec![Stmt::u32(7), Stmt::u8(9), Stmt::u8(1)]);
    let folded = Emit::Byte { base: 0x30, patches: vec![Patch::OrByte { value: 5 }], coerce: true };
    assert_eq!(run_emit(&mut state, folded), Ok(()));
    assert_eq!(state.stmts[3], Stmt::u8(0x35));
}

#[test]
fn instructions_for_the_simple_builder() {
    let inst = || Instruction { idents: vec![Ident::new("mov")] };
    let args = |size| vec![direct(size, RegId::RAX), direct(size, RegId::RBX)];
    let mut state = State::new();
    let arch = Archx64::default();
    assert_eq!(AssembleX64::compile_instruction(&mut state, &arch, InstructionX64 { inst: inst(), args: args(Size::QWORD) }), Ok(()));
    assert_eq!(AssembleX64::build_instruction(&mut state, &arch, InstructionX64 { inst: inst(), args: args(Size::DWORD) }), Ok(()));
    assert_eq!(
        state.stmts,
        vec![Stmt::u8(0x48), Stmt::Extend(vec![0x89]), Stmt::u8(0xD8), Stmt::Extend(vec![0x89]), Stmt::u8(0xD8)]
    );
    let mut state = State::new();
    let arch = Archx86::default();
    assert_eq!(AssembleX86::compile_instruction(&mut state, &arch, InstructionX86 { inst: inst(), args: args(Size::WORD) }), Ok(()));
    assert_eq!(state.stmts, vec![Stmt::u8(0x66), Stmt::Extend(vec![0x89]), Stmt::u8(0xD8)]);
    assert!(AssembleX86::build_instruction(&mut state, &arch, InstructionX86 { inst: inst(), args: args(Size::QWORD) }).is_err());
    let mut limited = Archx64::default();
    limited.set_features(&[]);
    let sse = InstructionX64 {
        inst: Instruction { idents: vec![Ident::new("addps")] },
        args: vec![direct(Size::OWORD, RegId::XMM0), direct(Size::OWORD, RegId::XMM1)],
    };
    assert_eq!(
        AssembleX64::compile_instruction(&mut State::new(), &limited, sse),
        Err(Error::DisabledFeatures(Features::from_bits(Features::SSE)))
    );
}

#[test]
fn what_follows_the_operand() {
    let jump = || Jump::new(JumpKind::Forward(Ident::new("far")), None);
    let reloc = || Reloc { target: jump(), size: Size::DWORD, kind: RelocationKind::Relative };
    let wide = SizedArg::Immediate { value: Value::Number(Number::from_u64_and_size(0, Size::HWORD)) };
    let plan = compile_tail(X86Mode::Long, Some(0x9E), None, vec![wide.clone(); 7], Some(reloc())).unwrap();
    assert_eq!(plan.len(), 9);
    assert_eq!(plan[0], Emit::Byte { base: 0x9E, patches: vec![], coerce: false });
    assert_eq!(plan[8], Emit::Stmt(jump().encode(&[225, 4])));
    assert_eq!(
        compile_tail(X86Mode::Long, Some(0x9E), None, vec![wide.clone(); 8], Some(reloc())),
        Err(OperandError::Offset)
    );
    assert_eq!(compile_tail(X86Mode::Long, None, None, vec![wide.clone(); 8], None).map(|p| p.len()), Ok(8));
    assert_eq!(
        compile_tail(X86Mode::Long, None, None, vec![sized(Size::DWORD, RegId::RAX)], None),
        Err(OperandError::Format)
    );
    let target = SizedArg::JumpTarget { jump: jump(), size: Size::BYTE };
    let plan = compile_tail(X86Mode::Protected, None, None, vec![target, wide], None).unwrap();
    assert_eq!(plan.len(), 3);
    assert_eq!(plan[2], Emit::Stmt(jump().encode(&[32, 1, 0])));
    // a register in the upper half of an immediate byte takes the first immediate
    let expr = Expr { idx: 4, repr: NumericRepr::U8() };
    let ireg = Some(SizedArg::Direct { reg: Register::new_dynamic(Size::OWORD, RegFamily::XMM, expr) });
    let low = SizedArg::Immediate { value: Value::Byte(0x35) };
    let plan = compile_tail(X86Mode::Long, None, ireg.clone(), vec![low], None).unwrap();
    assert_eq!(
        plan,
        vec![Emit::Byte {
            base: 0,
            patches: vec![Patch::Or { expr, mask: 0xF, shift: 4 }, Patch::OrByte { value: 5 }],
            coerce: true,
        }]
    );
    let word = SizedArg::Immediate { value: Value::Word(0x35) };
    assert_eq!(compile_tail(X86Mode::Long, None, ireg, vec![word], None), Err(OperandError::Format));
    // the register field without an operand for it
    assert_eq!(
        compile_operand(X86Mode::Long, Size::QWORD, 0xFF, &None, Some(sized(Size::QWORD, RegId::RAX))),
        Err(OperandError::Format)
    );
    let (plan, reloc) = compile_operand(X86Mode::Long, Size::QWORD, 5, &None, Some(sized(Size::QWORD, RegId::RAX))).unwrap();
    assert_eq!(plan, vec![Emit::Byte { base: 0xE8, patches: vec![], coerce: false }]);
    assert_eq!(reloc, None);
}
