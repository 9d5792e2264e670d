use dynasm_lib::common::{bitmask, bitmask64, Expr, Ident, Jump, JumpKind, JumpOffset, Number, NumericRepr, Size, Stmt, Value};

#[test]
fn sizes_in_bytes() {
    let sizes = [
        (Size::BYTE, 1, "i8"),
        (Size::WORD, 2, "i16"),
        (Size::DWORD, 4, "i32"),
        (Size::FWORD, 6, "i48"),
        (Size::QWORD, 8, "i64"),
        (Size::PWORD, 10, "i80"),
        (Size::OWORD, 16, "i128"),
        (Size::HWORD, 32, "i256"),
    ];
    for (size, bytes, literal) in sizes {
        assert_eq!(size.in_bytes(), bytes);
        assert_eq!(size.as_literal(), literal);
    }
    assert!(Size::BYTE < Size::WORD);
    assert!(Size::QWORD < Size::PWORD);
    assert!(Size::OWORD < Size::HWORD);
}

#[test]
fn representations() {
    assert_eq!(NumericRepr::signed(Size::WORD), NumericRepr { size: Size::WORD, signed: true });
    assert_eq!(NumericRepr::unsigned(Size::WORD), NumericRepr { size: Size::WORD, signed: false });
    assert_eq!(NumericRepr::U8(), NumericRepr::unsigned(Size::BYTE));
    assert_eq!(NumericRepr::I8(), NumericRepr::signed(Size::BYTE));
    assert_eq!(NumericRepr::U16(), NumericRepr::unsigned(Size::WORD));
    assert_eq!(NumericRepr::I16(), NumericRepr::signed(Size::WORD));
    assert_eq!(NumericRepr::U32(), NumericRepr::unsigned(Size::DWORD));
    assert_eq!(NumericRepr::I32(), NumericRepr::signed(Size::DWORD));
    assert_eq!(NumericRepr::U64(), NumericRepr::unsigned(Size::QWORD));
    assert_eq!(NumericRepr::I64(), NumericRepr::signed(Size::QWORD));
}

#[test]
fn numbers_of_each_size() {
    assert_eq!(Number::byte(0x12).repr(), NumericRepr::U8());
    assert_eq!(Number::word(0x1234).repr(), NumericRepr::U16());
    assert_eq!(Number::dword(0x1234_5678).repr(), NumericRepr::U32());
    assert_eq!(Number::qword(0x1234_5678_9ABC_DEF0).repr(), NumericRepr::U64());
    assert_eq!(Number::byte(0x12).as_u64(), 0x12);
    assert_eq!(Number::word(0x1234).as_u64(), 0x1234);
    assert_eq!(Number::dword(0x1234_5678).as_u64(), 0x1234_5678);
    assert_eq!(Number::qword(0x1234_5678_9ABC_DEF0).as_u64(), 0x1234_5678_9ABC_DEF0);
    assert_eq!(Number::from_u64_and_size(7, Size::DWORD), Number::dword(7));
}

#[test]
fn numbers_keep_the_bits_of_their_size() {
    assert_eq!(Number::from_u64_and_size(0x1234, Size::BYTE), Number::byte(0x34));
    assert_eq!(Number::from_u64_and_repr(0x80, NumericRepr::I8()).as_u64(), 0xFFFF_FFFF_FFFF_FF80);
    assert_eq!(Number::from_u64_and_repr(0x7F, NumericRepr::I8()).as_u64(), 0x7F);
    assert_eq!(Number::from_u64_and_repr(0x1_8000, NumericRepr::I16()).as_u64(), 0xFFFF_FFFF_FFFF_8000);
    assert_eq!(Number::from_u64_and_repr(0x1_8000, NumericRepr::U16()).as_u64(), 0x8000);
    assert_eq!(Number::from_u64_and_repr(u64::MAX, NumericRepr::unsigned(Size::FWORD)).as_u64(), 0xFFFF_FFFF_FFFF);
    assert_eq!(Number::from_u64_and_repr(u64::MAX, NumericRepr::unsigned(Size::OWORD)).as_u64(), u64::MAX);
    assert_eq!(Number::from_u64_and_repr(5, NumericRepr::signed(Size::HWORD)).as_u64(), 5);
}

#[test]
fn casts_work_in_two_complement() {
    let minus_one = Number::from_u64_and_repr(0xFF, NumericRepr::I8());
    assert_eq!(minus_one.as_i8(), -1);
    assert_eq!(minus_one.as_u8(), 0xFF);
    assert_eq!(minus_one.as_i16(), -1);
    assert_eq!(minus_one.as_u16(), 0xFFFF);
    assert_eq!(minus_one.as_i32(), -1);
    assert_eq!(minus_one.as_u32(), 0xFFFF_FFFF);
    assert_eq!(minus_one.as_u64(), u64::MAX);
    assert_eq!(minus_one.as_i64(), -1);
    assert_eq!(minus_one.int_value(), -1);
    let byte = Number::byte(0xFF);
    assert_eq!(byte.as_i8(), -1);
    assert_eq!(byte.as_i16(), 0xFF);
    assert_eq!(byte.as_u64(), 0xFF);
    assert_eq!(byte.int_value(), 255);
    assert_eq!(byte.cast_as(NumericRepr::I8()), minus_one);
    assert_eq!(minus_one.cast_as(NumericRepr::U8()), byte);
    assert_eq!(minus_one.cast_as(NumericRepr::U16()), Number::word(0xFFFF));
    assert_eq!(Number::word(0x1234).cast_as(NumericRepr::U8()), Number::byte(0x34));
    assert_eq!(Number::qword(0x1_0000_0001).as_i64(), 0x1_0000_0001);
    assert_eq!(Number::qword(0x1_0000_0000).as_i64(), 0x1_0000_0000);
    assert_eq!(Number::qword(u64::MAX).as_i64(), -1);
    assert_eq!(Number::byte(0xFF).as_i64(), 0xFF);
}

#[test]
fn conversions_keep_the_value() {
    let minus_one = Number::from_u64_and_repr(0xFF, NumericRepr::I8());
    assert_eq!(minus_one.convert(NumericRepr::I16()), Some(Number::from_u64_and_repr(0xFFFF, NumericRepr::I16())));
    assert_eq!(minus_one.convert(NumericRepr::I64()).map(|n| n.int_value()), Some(-1));
    assert_eq!(minus_one.convert(NumericRepr::U8()), None);
    assert_eq!(minus_one.convert(NumericRepr::U64()), None);
    assert_eq!(Number::byte(0x7F).convert(NumericRepr::I8()).map(|n| n.as_i8()), Some(127));
    assert_eq!(Number::byte(0x80).convert(NumericRepr::I8()), None);
    assert_eq!(Number::byte(0x80).convert(NumericRepr::I16()).map(|n| n.as_i16()), Some(128));
    assert_eq!(Number::dword(0x100).convert(NumericRepr::U8()), None);
    assert_eq!(Number::dword(0xFF).convert(NumericRepr::U8()), Some(Number::byte(0xFF)));
    assert_eq!(Number::qword(u64::MAX).convert(NumericRepr::I64()), None);
    assert_eq!(Number::qword(u64::MAX).convert(NumericRepr::U64()), Some(Number::qword(u64::MAX)));
    let low = Number::from_u64_and_repr(0x80, NumericRepr::I8());
    assert_eq!(low.int_value(), -128);
    assert_eq!(low.convert(NumericRepr::I8()), Some(low));
    assert_eq!(Number::from_u64_and_repr(0xFF7F, NumericRepr::I16()).convert(NumericRepr::I8()), None);
}

#[test]
fn signedness_and_size_can_change() {
    assert_eq!(Number::byte(0xFF).make_signed(true).int_value(), -1);
    assert_eq!(Number::byte(0xFF).make_signed(false), Number::byte(0xFF));
    assert_eq!(Number::from_u64_and_repr(0xFF, NumericRepr::I8()).make_signed(false), Number::byte(0xFF));
    assert_eq!(Number::byte(0x12).resize(Size::DWORD), Number::dword(0x12));
    let narrowed = Number::dword(0x1234).resize(Size::BYTE);
    assert_eq!(narrowed.repr(), NumericRepr::U8());
    assert_eq!(narrowed.as_u64(), 0x1234);
    assert_eq!(narrowed.resize(Size::DWORD), Number::dword(0x1234));
    let wide = Number::qword(0x1_0000_0000);
    assert_eq!(wide.resize(Size::BYTE).resize(Size::QWORD), wide);
    let minus_two = Number::from_u64_and_repr(0xFE, NumericRepr::I8());
    assert_eq!(minus_two.resize(Size::QWORD).int_value(), -2);
    assert_eq!(minus_two.resize(Size::QWORD).repr(), NumericRepr::I64());
}

#[test]
fn values() {
    assert_eq!(Value::Byte(1), Value::Number(Number::byte(1)));
    assert_eq!(Value::Word(1), Value::Number(Number::word(1)));
    assert_eq!(Value::Dword(1), Value::Number(Number::dword(1)));
    assert_eq!(Value::Qword(1), Value::Number(Number::qword(1)));
    assert_eq!(Value::from(3u8), Value::Byte(3));
    let expr = Expr { idx: 3, repr: NumericRepr::I32() };
    assert_eq!(Value::from(expr), Value::Expr(expr));
    assert_eq!(Value::Expr(expr).repr(), NumericRepr::I32());
    assert_eq!(Value::Expr(expr).size(), Size::DWORD);
    assert_eq!(Value::Word(1).repr(), NumericRepr::U16());
    assert_eq!(Value::Word(1).size(), Size::WORD);
    assert_eq!(Value::Expr(expr).convert(NumericRepr::U8()), Some(Value::Expr(Expr { idx: 3, repr: NumericRepr::U8() })));
    assert_eq!(Value::Word(0x100).convert(NumericRepr::U8()), None);
    assert_eq!(Value::Word(0x10).convert(NumericRepr::U8()), Some(Value::Byte(0x10)));
    assert_eq!(Value::Byte(0x10).resize(Size::DWORD), Value::Dword(0x10));
    assert_eq!(Value::Expr(expr).resize(Size::BYTE), Value::Expr(Expr { idx: 3, repr: NumericRepr::I8() }));
}

#[test]
fn statements_of_constants() {
    assert_eq!(Stmt::u8(1), Stmt::Const(Value::Byte(1)));
    assert_eq!(Stmt::u16(1), Stmt::Const(Value::Word(1)));
    assert_eq!(Stmt::u32(1), Stmt::Const(Value::Dword(1)));
    assert_eq!(Stmt::u64(1), Stmt::Const(Value::Qword(1)));
    assert_eq!(Stmt::zeroed(Size::DWORD), Stmt::u32(0));
    assert_eq!(Stmt::zeroed(Size::OWORD), Stmt::Const(Value::Number(Number::from_u64_and_size(0, Size::OWORD))));
    assert_eq!(Stmt::from(Value::Byte(9)), Stmt::u8(9));
    let label = Stmt::GlobalJumpTarget(Ident::new("a"), JumpOffset::Zero, vec![1, 2]);
    assert_eq!(label.copy(), label);
}

#[test]
fn identifiers() {
    assert_eq!(Ident::new("loop").to_string(), "loop");
    assert_eq!(Ident::new("loop").copy(), Ident { name: String::from("loop") });
}

#[test]
fn jumps_become_relocation_statements() {
    let offset = Expr { idx: 1, repr: NumericRepr::I32() };
    let target = Expr { idx: 2, repr: NumericRepr::U64() };
    let data = [0u8, 4];
    assert_eq!(
        Jump::new(JumpKind::Global(Ident::new("a")), None).encode(&data),
        Stmt::GlobalJumpTarget(Ident::new("a"), JumpOffset::Zero, vec![0, 4])
    );
    assert_eq!(
        Jump::new(JumpKind::Backward(Ident::new("a")), Some(offset)).encode(&data),
        Stmt::BackwardJumpTarget(Ident::new("a"), JumpOffset::Injected(Value::Expr(offset)), vec![0, 4])
    );
    assert_eq!(
        Jump::new(JumpKind::Forward(Ident::new("a")), None).encode(&data),
        Stmt::ForwardJumpTarget(Ident::new("a"), JumpOffset::Zero, vec![0, 4])
    );
    assert_eq!(
        Jump::new(JumpKind::Dynamic(target), Some(offset)).encode(&data),
        Stmt::DynamicJumpTarget(
            JumpOffset::Injected(Value::Expr(target)),
            JumpOffset::Injected(Value::Expr(offset)),
            vec![0, 4]
        )
    );
    assert_eq!(
        Jump::new(JumpKind::Bare(Value::Dword(0x1000)), None).encode(&[]),
        Stmt::BareJumpTarget(JumpOffset::Injected(Value::Dword(0x1000)), vec![])
    );
    let jump = Jump::new(JumpKind::Forward(Ident::new("a")), Some(offset));
    assert_eq!(jump.copy(), jump);
}

#[test]
fn jump_offsets() {
    let expr = Expr { idx: 1, repr: NumericRepr::I32() };
    assert_eq!(JumpOffset::from(None), JumpOffset::Zero);
    assert_eq!(JumpOffset::from(Some(expr)), JumpOffset::Injected(Value::Expr(expr)));
    assert_eq!(JumpOffset::from(expr), JumpOffset::Injected(Value::Expr(expr)));
    assert_eq!(JumpOffset::from(Value::Byte(1)), JumpOffset::Injected(Value::Byte(1)));
}

#[test]
fn bitmasks() {
    assert_eq!(bitmask(0), 0);
    assert_eq!(bitmask(1), 1);
    assert_eq!(bitmask(3), 0b111);
    assert_eq!(bitmask(31), 0x7FFF_FFFF);
    assert_eq!(bitmask(32), 0xFFFF_FFFF);
    assert_eq!(bitmask(200), 0xFFFF_FFFF);
    assert_eq!(bitmask64(0), 0);
    assert_eq!(bitmask64(12), 0xFFF);
    assert_eq!(bitmask64(63), 0x7FFF_FFFF_FFFF_FFFF);
    assert_eq!(bitmask64(64), u64::MAX);
    assert_eq!(bitmask64(255), u64::MAX);
}
