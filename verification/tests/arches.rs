use dynasm_lib::arch::eval::{log2_value, mask_shift_value, Evaluator};
use dynasm_lib::arch::x64::x64data::{Features, Flags};
use dynasm_lib::arch::x64::{Archx64, Archx86};
use dynasm_lib::arch::{from_str, AnyArch, Arch, BasicExprBuilder, BasicExprBuilderExt, DummyArch, Error, ErrorSpan};
use dynasm_lib::common::{Const, Expr, Ident, Jump, JumpKind, JumpOffset, NumericRepr, Size, Stmt, Value};
use dynasm_lib::directive::{directive_const, evaluate_directive, Directive, MalformedDirectiveError};
use dynasm_lib::serialize::{bytes_of, fold_constants, method_of, push_method};
use dynasm_lib::{BasicAssembler, DynasmData, State};

fn names(list: &[&str]) -> Vec<String> {
    list.iter().map(|n| String::from(*n)).collect()
}

#[test]
fn architectures_by_name() {
    assert_eq!(from_str("x64"), Some(AnyArch::X64(Archx64::default())));
    assert_eq!(from_str("x86"), Some(AnyArch::X86(Archx86::default())));
    assert_eq!(from_str("unknown"), Some(AnyArch::Unknown(DummyArch::new("unknown"))));
    assert_eq!(from_str("aarch64"), None);
    assert_eq!(from_str(""), None);
    assert_eq!(from_str("x64").unwrap().name(), "x64");
    assert_eq!(from_str("x86").unwrap().name(), "x86");
    assert_eq!(from_str("unknown").unwrap().name(), "unknown");
    assert_eq!(Archx64::default().features(), Features::all());
    assert_eq!(Archx86::default().features(), Features::all());
    assert_eq!(Archx64::default().default_align(), 0x90);
    assert_eq!(Archx86::default().default_align(), 0x90);
    assert_eq!(DummyArch::new("none").default_align(), 0);
    assert_eq!(DummyArch::new("none").name(), "none");
}

#[test]
fn features_by_name() {
    assert_eq!(Features::from_str("fpu"), Some(Features::from_bits(Features::FPU)));
    assert_eq!(Features::from_str("sse41"), Some(Features::from_bits(Features::SSE41)));
    assert_eq!(Features::from_str("amd"), Some(Features::from_bits(Features::AMD)));
    assert_eq!(Features::from_str("AVX"), None);
    assert_eq!(Features::from_str("avx512"), None);
    assert_eq!(Features::all().bits(), 0x01FF_FFFF);
    assert!(Features::empty().is_empty());
    let both = Features::from_bits(Features::AVX).union(Features::from_bits(Features::FMA));
    assert_eq!(both.bits(), Features::AVX | Features::FMA);
    assert!(both.contains(Features::from_bits(Features::FMA)));
    assert!(!both.contains(Features::from_bits(Features::FMA | Features::SHA)));
    assert_eq!(both.difference(Features::from_bits(Features::FMA | Features::SHA)).bits(), Features::AVX);
    let flags = Flags::from_bits(Flags::VEX_OP | Flags::AUTO_VEXL);
    assert!(flags.contains(Flags::VEX_OP));
    assert!(!flags.contains(Flags::VEX_OP | Flags::XOP_OP));
    assert!(flags.intersects(Flags::VEX_OP | Flags::XOP_OP));
    assert!(!flags.intersects(Flags::XOP_OP));
}

#[test]
fn setting_features_replaces_them() {
    let mut arch = Archx64::default();
    let unknown = arch.set_features(&names(&["sse", "avx512", "avx", "mmx2"]));
    assert_eq!(unknown, names(&["avx512", "mmx2"]));
    assert_eq!(arch.features().bits(), Features::SSE | Features::AVX);
    // setting the same features again changes nothing
    let unknown = arch.set_features(&names(&["sse", "avx512", "avx", "mmx2"]));
    assert_eq!(unknown, names(&["avx512", "mmx2"]));
    assert_eq!(arch.features().bits(), Features::SSE | Features::AVX);
    // nothing is kept of what was set before
    let unknown = arch.set_features(&names(&["bmi1"]));
    assert!(unknown.is_empty());
    assert_eq!(arch.features().bits(), Features::BMI1);
    arch.set_features(&names(&["bmi1", "bmi1"]));
    assert_eq!(arch.features().bits(), Features::BMI1);
    arch.set_features(&[]);
    assert_eq!(arch.features(), Features::empty());
    let mut arch = Archx86::default();
    arch.set_features(&names(&["tdnow", "fpu"]));
    assert_eq!(arch.features().bits(), Features::TDNOW | Features::FPU);
    let mut any = from_str("x64").unwrap();
    any.set_features(&names(&["sha"]));
    any.set_features(&names(&["rtm"]));
    let mut once = from_str("x64").unwrap();
    once.set_features(&names(&["rtm"]));
    assert_eq!(any, once);
    let mut none = DummyArch::new("unknown");
    assert_eq!(none.set_features(&names(&["sse"])), names(&["sse"]));
    assert_eq!(none, DummyArch::new("unknown"));
}

#[test]
fn static_relocations() {
    let jump = || Jump::new(JumpKind::Global(Ident::new("table")), None);
    let mut stmts = vec![Stmt::u8(1)];
    Archx64::default().handle_static_reloc(&mut stmts, jump(), Size::QWORD);
    assert_eq!(
        stmts,
        vec![
            Stmt::u8(1),
            Stmt::zeroed(Size::QWORD),
            Stmt::GlobalJumpTarget(Ident::new("table"), JumpOffset::Zero, vec![0, 8]),
        ]
    );
    let mut stmts = Vec::new();
    Archx86::default().handle_static_reloc(&mut stmts, jump(), Size::DWORD);
    assert_eq!(
        stmts,
        vec![Stmt::zeroed(Size::DWORD), Stmt::GlobalJumpTarget(Ident::new("table"), JumpOffset::Zero, vec![0, 4, 0])]
    );
    let mut stmts = Vec::new();
    DummyArch::new("unknown").handle_static_reloc(&mut stmts, jump(), Size::DWORD);
    assert!(stmts.is_empty());
}

#[test]
fn mask_and_shift() {
    assert_eq!(mask_shift_value(0xABCD, 0xFF, 4), 0xCD0);
    assert_eq!(mask_shift_value(0xABCD, 0xFF0, -4), 0xBC);
    assert_eq!(mask_shift_value(0xABCD, 0xFFFF, 0), 0xABCD);
    assert_eq!(mask_shift_value(9, 8, -3), 1);
    assert_eq!(mask_shift_value(9, 7, 3), 8);
    assert_eq!(mask_shift_value(u64::MAX, u64::MAX, 63), 1 << 63);
    assert_eq!(mask_shift_value(u64::MAX, u64::MAX, 64), 0);
    assert_eq!(mask_shift_value(u64::MAX, u64::MAX, 127), 0);
    assert_eq!(mask_shift_value(u64::MAX, u64::MAX, -63), 1);
    assert_eq!(mask_shift_value(u64::MAX, u64::MAX, -64), 0);
    assert_eq!(mask_shift_value(u64::MAX, u64::MAX, -128), 0);
    for shift in -70i8..70 {
        for (value, mask) in [(0x1234_5678_9ABC_DEF0u64, 0xFFFF_0000_FFFF_0000u64), (7, 5), (u64::MAX, 0xF0)] {
            let masked = (value & mask) as u128;
            let expected = if shift >= 0 {
                (masked << shift) as u64
            } else {
                (masked >> (-(shift as i32))) as u64
            };
            assert_eq!(mask_shift_value(value, mask, shift), expected);
        }
    }
}

#[test]
fn logarithms() {
    assert_eq!(log2_value(1), Some(0));
    assert_eq!(log2_value(2), Some(1));
    assert_eq!(log2_value(8), Some(3));
    assert_eq!(log2_value(1 << 63), Some(63));
    assert_eq!(log2_value(0), None);
    assert_eq!(log2_value(3), None);
    assert_eq!(log2_value(12), None);
}

#[test]
fn the_evaluator_combines_what_it_knows() {
    let mut builder = Evaluator::new();
    let a = builder.define(0b1100, NumericRepr::U32());
    let b = builder.define(0b1010, NumericRepr::U8());
    assert_eq!(a, Expr { idx: 0, repr: NumericRepr::U32() });
    assert_eq!(builder.value(a), Some(0b1100));
    assert_eq!(builder.bits_of(Value::Expr(b)), Some(0b1010));
    assert_eq!(builder.bits_of(Value::Word(7)), Some(7));
    let or = builder.bit_or(a, Value::Expr(b)).unwrap();
    assert_eq!(or.repr, NumericRepr::U8());
    assert_eq!(builder.value(or), Some(0b1110));
    let and = builder.bit_and(a, Value::Byte(0b0110)).unwrap();
    assert_eq!(builder.value(and), Some(0b0100));
    let xor = builder.bit_xor(a, Value::Expr(b)).unwrap();
    assert_eq!(builder.value(xor), Some(0b0110));
    let sum = builder.add(a, Value::Qword(u64::MAX)).unwrap();
    assert_eq!(builder.value(sum), Some(0b1011));
    let product = builder.mul(a, Value::Byte(3)).unwrap();
    assert_eq!(builder.value(product), Some(36));
    let not = builder.neg(a).unwrap();
    assert_eq!(not.repr, NumericRepr::U32());
    assert_eq!(builder.value(not), Some(!0b1100));
    let shifted = builder.mask_shift(a, 0b0100, 2).unwrap();
    assert_eq!(builder.value(shifted), Some(0b10000));
    let shifted = builder.mask_shift(a, 0b1000, -3).unwrap();
    assert_eq!(builder.value(shifted), Some(1));
    let four = builder.define(4, NumericRepr::U8());
    let log = builder.log2(four).unwrap();
    assert_eq!(builder.value(log), Some(2));
    assert_eq!(builder.log2(a), None);
    let stranger = Expr { idx: 1000, repr: NumericRepr::U8() };
    assert_eq!(builder.value(stranger), None);
    assert_eq!(builder.bit_or(stranger, Value::Byte(1)), None);
    assert_eq!(builder.bit_or(a, Value::Expr(stranger)), None);
    assert_eq!(builder.neg(stranger), None);
    assert_eq!(builder.mask_shift(stranger, 1, 1), None);
    assert!(builder.stmts.is_empty());
    builder.push(Stmt::u8(1));
    builder.emit_error_at(ErrorSpan::argument(2), "bad");
    assert_eq!(builder.stmts, vec![Stmt::u8(1)]);
    assert_eq!(builder.diagnostics[0].span, ErrorSpan::Argument { idx: 2 });
    assert_eq!(builder.diagnostics[0].message, "bad");
}

#[test]
fn combinators_built_on_a_builder() {
    let mut builder = Evaluator::new();
    let reg = builder.define(0b1011, NumericRepr::U8());
    let or = builder.mask_shift_or(Value::Byte(0xC0), reg, 7, 3).unwrap();
    assert_eq!(builder.value(or), Some(0xC0 | (0b011 << 3)));
    let or = builder.mask_shift_or_else_err(Value::Byte(0x40), reg, 8, -3).unwrap();
    assert_eq!(builder.value(or), Some(0x41));
    let and = builder.mask_shift_inverted_and(Value::Byte(0xE1), reg, 8, 4).unwrap();
    assert_eq!(builder.value(and), Some(0x61));
    let and = builder.mask_shift_inverted_and_else_err(Value::Byte(0x78), reg, 0xF, 3).unwrap();
    assert_eq!(builder.value(and), Some(0x78 & !(0b1011 << 3)));
    let one = builder.define(1, NumericRepr::U8());
    let two = builder.define(2, NumericRepr::U8());
    assert_eq!(builder.add_many(&[]), Some(Value::Byte(0)));
    let sum = builder.add_many(&[reg, one, two]).unwrap();
    assert_eq!(builder.bits_of(sum), Some(14));
    let sum = builder.add_many_else_err(&[one, two]).unwrap();
    assert_eq!(builder.bits_of(sum), Some(3));
    let eight = builder.define(8, NumericRepr::U8());
    let (bits, byte) = builder.dynscale(eight, Value::Byte(0x0B)).unwrap();
    assert_eq!(builder.value(bits), Some(3));
    assert_eq!(builder.value(byte), Some(0xCB));
    let stranger = Expr { idx: 99, repr: NumericRepr::U8() };
    assert_eq!(builder.log2_else_err(stranger), Err(Error::BadExprCombinator { expr: stranger }));
    assert_eq!(builder.mask_shift_else_err(stranger, 1, 1), Err(Error::BadExprCombinator { expr: stranger }));
    assert_eq!(builder.add_many_else_err(&[one, stranger]), Err(Error::BadExprCombinator { expr: stranger }));
    assert_eq!(builder.dynscale(reg, Value::Byte(0)), Err(Error::BadExprCombinator { expr: reg }));
}

#[test]
fn the_simple_builder_refuses_to_combine() {
    let mut state = State::new();
    let a = Expr { idx: 0, repr: NumericRepr::U8() };
    assert_eq!(state.bit_or(a, Value::Byte(1)), None);
    assert_eq!(state.bit_and(a, Value::Byte(1)), None);
    assert_eq!(state.bit_xor(a, Value::Byte(1)), None);
    assert_eq!(state.add(a, Value::Byte(1)), None);
    assert_eq!(state.mul(a, Value::Byte(1)), None);
    assert_eq!(state.neg(a), None);
    assert_eq!(state.log2(a), None);
    assert_eq!(state.mask_shift(a, 1, 1), None);
    assert_eq!(state.bit_or_else_err(a, Value::Byte(1)), Err(Error::BadExprCombinator { expr: a }));
    assert_eq!(state.bit_and_else_err(a, Value::Byte(1)), Err(Error::BadExprCombinator { expr: a }));
    assert_eq!(state.bit_xor_else_err(a, Value::Byte(1)), Err(Error::BadExprCombinator { expr: a }));
    assert_eq!(state.add_else_err(a, Value::Byte(1)), Err(Error::BadExprCombinator { expr: a }));
    assert_eq!(state.mul_else_err(a, Value::Byte(1)), Err(Error::BadExprCombinator { expr: a }));
    assert_eq!(state.neg_else_err(a), Err(Error::BadExprCombinator { expr: a }));
    assert_eq!(state.add_many(&[a]), None);
    assert_eq!(state.mask_shift_or(Value::Byte(0), a, 1, 1), None);
    assert_eq!(state.mask_shift_inverted_and(Value::Byte(0), a, 1, 1), None);
    state.push(Stmt::u8(7));
    state.emit_error_at(ErrorSpan::instruction_part(0), "no");
    assert_eq!(state.stmts, vec![Stmt::u8(7)]);
    assert_eq!(state.diagnostics.len(), 1);
    let assembler = BasicAssembler { stmts: state.stmts.clone() };
    assert_eq!(assembler.stmts.len(), 1);
}

#[test]
fn constants_fold_into_byte_strings() {
    let label = Stmt::GlobalLabel(Ident::new("start"));
    let expr = Stmt::Const(Value::Expr(Expr { idx: 0, repr: NumericRepr::U8() }));
    let wide = Stmt::zeroed(Size::OWORD);
    let stmts = vec![
        Stmt::u8(0x48),
        Stmt::Extend(vec![0x89]),
        Stmt::u16(0x1234),
        label.copy(),
        Stmt::u32(0x1234_5678),
        expr.copy(),
        Stmt::u64(0x0102_0304_0506_0708),
        wide.copy(),
        label.copy(),
    ];
    assert_eq!(
        fold_constants(&stmts),
        vec![
            Stmt::Extend(vec![0x48, 0x89, 0x34, 0x12]),
            label.copy(),
            Stmt::Extend(vec![0x78, 0x56, 0x34, 0x12]),
            expr,
            Stmt::Extend(vec![8, 7, 6, 5, 4, 3, 2, 1]),
            wide,
            label,
        ]
    );
    assert_eq!(fold_constants(&Vec::new()), Vec::new());
    assert_eq!(bytes_of(&Stmt::u16(0xABCD)), Some(vec![0xCD, 0xAB]));
    assert_eq!(bytes_of(&Stmt::u32(0xABCD)), Some(vec![0xCD, 0xAB, 0, 0]));
    assert_eq!(bytes_of(&Stmt::u64(0xABCD)), Some(vec![0xCD, 0xAB, 0, 0, 0, 0, 0, 0]));
    assert_eq!(bytes_of(&Stmt::zeroed(Size::FWORD)), None);
    assert_eq!(bytes_of(&Stmt::DynamicLabel(Expr { idx: 0, repr: NumericRepr::U8() })), None);
}

#[test]
fn byte_strings_end_after_32_bytes() {
    let stmts: Vec<Stmt> = (0..70u8).map(Stmt::u8).collect();
    let folded = fold_constants(&stmts);
    assert_eq!(
        folded,
        vec![
            Stmt::Extend((0..32).collect()),
            Stmt::Extend((32..64).collect()),
            Stmt::Extend((64..70).collect()),
        ]
    );
    let stmts: Vec<Stmt> = (0..32u8).map(Stmt::u8).collect();
    assert_eq!(fold_constants(&stmts), vec![Stmt::Extend((0..32).collect())]);
    let long = vec![Stmt::Extend((0..100).collect())];
    assert_eq!(
        fold_constants(&long),
        vec![
            Stmt::Extend((0..32).collect()),
            Stmt::Extend((32..64).collect()),
            Stmt::Extend((64..96).collect()),
            Stmt::Extend((96..100).collect()),
        ]
    );
}

#[test]
fn directives() {
    let mut data = DynasmData::new("x64");
    assert_eq!(data.current_arch, AnyArch::X64(Archx64::default()));
    assert!(data.aliases.is_empty());
    let mut stmts = Vec::new();
    let value = Expr { idx: 1, repr: NumericRepr::U8() };
    let with = Expr { idx: 2, repr: NumericRepr::U8() };

    assert!(evaluate_directive(&mut data, &mut stmts, &Directive::Arch(String::from("x86"))).is_ok());
    assert_eq!(data.current_arch, AnyArch::X86(Archx86::default()));
    assert_eq!(
        evaluate_directive(&mut data, &mut stmts, &Directive::Arch(String::from("z80"))),
        Err(MalformedDirectiveError::UnknownArchitecture(String::from("z80")))
    );
    assert_eq!(data.current_arch, AnyArch::X86(Archx86::default()));

    assert!(evaluate_directive(&mut data, &mut stmts, &Directive::Feature(names(&["sse", "wrong"]))).is_ok());
    let mut expected = Archx86::default();
    expected.set_features(&names(&["sse"]));
    assert_eq!(data.current_arch, AnyArch::X86(expected.clone()));
    assert!(evaluate_directive(&mut data, &mut stmts, &Directive::Feature(names(&["none"]))).is_ok());
    expected.set_features(&[]);
    assert_eq!(data.current_arch, AnyArch::X86(expected));
    assert!(stmts.is_empty());

    assert!(evaluate_directive(&mut data, &mut stmts, &Directive::Byte(value)).is_ok());
    assert!(evaluate_directive(&mut data, &mut stmts, &Directive::Align { value, with: None }).is_ok());
    assert!(evaluate_directive(&mut data, &mut stmts, &Directive::Align { value, with: Some(with) }).is_ok());
    assert_eq!(
        stmts,
        vec![
            Stmt::ExprExtend(Value::Expr(value)),
            Stmt::Align(value, Value::Byte(0x90)),
            Stmt::Align(value, Value::Expr(with)),
        ]
    );
    assert_eq!(
        evaluate_directive(&mut data, &mut stmts, &Directive::Expr(value)),
        Err(MalformedDirectiveError::UnknownDirective)
    );
    assert_eq!(stmts.len(), 3);
}

#[test]
fn data_directives() {
    let mut data = DynasmData::new("x86");
    let mut stmts = Vec::new();
    let value = Expr { idx: 1, repr: NumericRepr::U8() };
    let consts = vec![
        Const::Value(value),
        Const::Relocate(Jump::new(JumpKind::Forward(Ident::new("next")), None)),
        Const::Value(Expr { idx: 2, repr: NumericRepr::U64() }),
    ];
    assert!(evaluate_directive(&mut data, &mut stmts, &Directive::Data(Size::DWORD, consts.clone())).is_ok());
    let expected = vec![
        Stmt::Const(Value::Expr(Expr { idx: 1, repr: NumericRepr::I32() })),
        Stmt::zeroed(Size::DWORD),
        Stmt::ForwardJumpTarget(Ident::new("next"), JumpOffset::Zero, vec![0, 4, 0]),
        Stmt::Const(Value::Expr(Expr { idx: 2, repr: NumericRepr::I32() })),
    ];
    assert_eq!(stmts, expected);
    let mut again = Vec::new();
    directive_const(&data, &mut again, &consts, Size::DWORD);
    assert_eq!(again, expected);
    let unknown = DynasmData::new("unknown");
    assert_eq!(unknown.current_arch.name(), "unknown");
    let mut none = Vec::new();
    directive_const(&unknown, &mut none, &consts[1..2], Size::DWORD);
    assert!(none.is_empty());
}

#[test]
fn aliases_are_not_given_twice() {
    let mut data = DynasmData::new("x64");
    let mut stmts = Vec::new();
    let alias = |alias: &str, reg: &str| Directive::Alias { alias: String::from(alias), reg: String::from(reg) };
    assert!(evaluate_directive(&mut data, &mut stmts, &alias("counter", "rcx")).is_ok());
    assert!(evaluate_directive(&mut data, &mut stmts, &alias("source", "rsi")).is_ok());
    assert_eq!(
        evaluate_directive(&mut data, &mut stmts, &alias("counter", "rdx")),
        Err(MalformedDirectiveError::DuplicateAlias { reused: String::from("counter") })
    );
    assert_eq!(
        data.aliases,
        vec![(String::from("counter"), String::from("rcx")), (String::from("source"), String::from("rsi"))]
    );
    assert_eq!(data.find_alias("source"), Some(1));
    assert_eq!(data.find_alias("rcx"), None);
    data.add_alias(String::from("sink"), String::from("rdi"));
    assert_eq!(data.find_alias("sink"), Some(2));
    assert!(stmts.is_empty());
}

#[test]
fn statements_are_calls_of_methods() {
    let expr = Expr { idx: 0, repr: NumericRepr::I16() };
    assert_eq!(method_of(&Stmt::u8(1)), Some("push"));
    assert_eq!(method_of(&Stmt::u16(1)), Some("push_u16"));
    assert_eq!(method_of(&Stmt::u32(1)), Some("push_u32"));
    assert_eq!(method_of(&Stmt::u64(1)), Some("push_u64"));
    assert_eq!(method_of(&Stmt::Const(Value::Expr(expr))), Some("push_i16"));
    assert_eq!(push_method(NumericRepr::I8()), Some("push_i8"));
    assert_eq!(push_method(NumericRepr::I32()), Some("push_i32"));
    assert_eq!(push_method(NumericRepr::I64()), Some("push_i64"));
    assert_eq!(push_method(NumericRepr::unsigned(Size::OWORD)), None);
    assert_eq!(method_of(&Stmt::zeroed(Size::FWORD)), None);
    assert_eq!(method_of(&Stmt::Extend(vec![1])), Some("extend"));
    assert_eq!(method_of(&Stmt::ExprExtend(Value::Expr(expr))), Some("extend"));
    assert_eq!(method_of(&Stmt::Align(expr, Value::Byte(0x90))), Some("align"));
    assert_eq!(method_of(&Stmt::GlobalLabel(Ident::new("a"))), Some("global_label"));
    assert_eq!(method_of(&Stmt::LocalLabel(Ident::new("a"))), Some("local_label"));
    assert_eq!(method_of(&Stmt::DynamicLabel(expr)), Some("dynamic_label"));
    assert_eq!(method_of(&Stmt::GlobalJumpTarget(Ident::new("a"), JumpOffset::Zero, vec![])), Some("global_reloc"));
    assert_eq!(method_of(&Stmt::ForwardJumpTarget(Ident::new("a"), JumpOffset::Zero, vec![])), Some("forward_reloc"));
    assert_eq!(
        method_of(&Stmt::BackwardJumpTarget(Ident::new("a"), JumpOffset::Zero, vec![])),
        Some("backward_reloc")
    );
    assert_eq!(
        method_of(&Stmt::DynamicJumpTarget(JumpOffset::Zero, JumpOffset::Zero, vec![])),
        Some("dynamic_reloc")
    );
    assert_eq!(method_of(&Stmt::BareJumpTarget(JumpOffset::Zero, vec![])), Some("bare_reloc"));
    assert_eq!(method_of(&Stmt::Stmt(expr)), None);
}
