//! Infrastructure that is common across all assembler backends.
use vstd::bits::{
    lemma_u32_pow2_no_overflow, lemma_u32_shl_is_mul, lemma_u64_pow2_no_overflow, lemma_u64_shl_is_mul,
    low_bits_mask,
};
use vstd::prelude::*;
use vstd::std_specs::convert::FromSpecImpl;

verus! {

/// The size of a value, expression or register in bytes.
/// Uses the NASM syntax for sizes (a word is 16 bits).
#[derive(Debug, PartialOrd, PartialEq, Ord, Eq, Hash, Clone, Copy, Structural)]
pub enum Size {
    BYTE,
    WORD,
    DWORD,
    FWORD,
    QWORD,
    PWORD,
    OWORD,
    HWORD,
}

/// A number representation (sign and size).
#[derive(Debug, PartialOrd, PartialEq, Ord, Eq, Hash, Clone, Copy, Structural)]
pub struct NumericRepr {
    pub size: Size,
    pub signed: bool,
}

/// An integral value in a particular `NumericRepr`.
///
/// The value is backed by 64 bits. The bits above the width of the representation repeat the
/// sign bit if the representation is signed and are zero otherwise, see [`Number::wf`].
#[derive(Debug, PartialOrd, PartialEq, Ord, Eq, Hash, Clone, Copy, Structural)]
pub struct Number {
    value: u64,
    repr: NumericRepr,
}

impl Size {
    /// The number of bytes as a mathematical integer.
    pub open spec fn bytes(self) -> int {
        match self {
            Size::BYTE => 1,
            Size::WORD => 2,
            Size::DWORD => 4,
            Size::FWORD => 6,
            Size::QWORD => 8,
            Size::PWORD => 10,
            Size::OWORD => 16,
            Size::HWORD => 32,
        }
    }

    /// The bits of a 64 bit backed value that a value of this size occupies.
    pub open spec fn mask(self) -> u64 {
        match self {
            Size::BYTE => 0xFFu64,
            Size::WORD => 0xFFFFu64,
            Size::DWORD => 0xFFFF_FFFFu64,
            Size::FWORD => 0xFFFF_FFFF_FFFFu64,
            _ => 0xFFFF_FFFF_FFFF_FFFFu64,
        }
    }

    /// The highest bit of a 64 bit backed value that a value of this size occupies.
    pub open spec fn sign_bit(self) -> u64 {
        match self {
            Size::BYTE => 0x80u64,
            Size::WORD => 0x8000u64,
            Size::DWORD => 0x8000_0000u64,
            Size::FWORD => 0x8000_0000_0000u64,
            _ => 0x8000_0000_0000_0000u64,
        }
    }

    pub fn in_bytes(self) -> (r: u8)
        ensures
            r == self.bytes(),
    {
        match self {
            Size::BYTE => 1,
            Size::WORD => 2,
            Size::DWORD => 4,
            Size::FWORD => 6,
            Size::QWORD => 8,
            Size::PWORD => 10,
            Size::OWORD => 16,
            Size::HWORD => 32,
        }
    }

    pub fn as_literal(self) -> (r: &'static str)
        ensures
            r@ == match self {
                Size::BYTE => "i8"@,
                Size::WORD => "i16"@,
                Size::DWORD => "i32"@,
                Size::FWORD => "i48"@,
                Size::QWORD => "i64"@,
                Size::PWORD => "i80"@,
                Size::OWORD => "i128"@,
                Size::HWORD => "i256"@,
            },
    {
        match self {
            Size::BYTE => "i8",
            Size::WORD => "i16",
            Size::DWORD => "i32",
            Size::FWORD => "i48",
            Size::QWORD => "i64",
            Size::PWORD => "i80",
            Size::OWORD => "i128",
            Size::HWORD => "i256",
        }
    }
}

impl NumericRepr {
    #[allow(non_snake_case)]
    pub fn U8() -> (r: NumericRepr)
        ensures
            r == (NumericRepr { size: Size::BYTE, signed: false }),
    {
        NumericRepr { size: Size::BYTE, signed: false }
    }

    #[allow(non_snake_case)]
    pub fn I8() -> (r: NumericRepr)
        ensures
            r == (NumericRepr { size: Size::BYTE, signed: true }),
    {
        NumericRepr { size: Size::BYTE, signed: true }
    }

    #[allow(non_snake_case)]
    pub fn U16() -> (r: NumericRepr)
        ensures
            r == (NumericRepr { size: Size::WORD, signed: false }),
    {
        NumericRepr { size: Size::WORD, signed: false }
    }

    #[allow(non_snake_case)]
    pub fn I16() -> (r: NumericRepr)
        ensures
            r == (NumericRepr { size: Size::WORD, signed: true }),
    {
        NumericRepr { size: Size::WORD, signed: true }
    }

    #[allow(non_snake_case)]
    pub fn U32() -> (r: NumericRepr)
        ensures
            r == (NumericRepr { size: Size::DWORD, signed: false }),
    {
        NumericRepr { size: Size::DWORD, signed: false }
    }

    #[allow(non_snake_case)]
    pub fn I32() -> (r: NumericRepr)
        ensures
            r == (NumericRepr { size: Size::DWORD, signed: true }),
    {
        NumericRepr { size: Size::DWORD, signed: true }
    }

    #[allow(non_snake_case)]
    pub fn U64() -> (r: NumericRepr)
        ensures
            r == (NumericRepr { size: Size::QWORD, signed: false }),
    {
        NumericRepr { size: Size::QWORD, signed: false }
    }

    #[allow(non_snake_case)]
    pub fn I64() -> (r: NumericRepr)
        ensures
            r == (NumericRepr { size: Size::QWORD, signed: true }),
    {
        NumericRepr { size: Size::QWORD, signed: true }
    }

    pub fn signed(size: Size) -> (r: Self)
        ensures
            r == (NumericRepr { size, signed: true }),
    {
        NumericRepr { size, signed: true }
    }

    pub fn unsigned(size: Size) -> (r: Self)
        ensures
            r == (NumericRepr { size, signed: false }),
    {
        NumericRepr { size, signed: false }
    }

    /// The unsigned representation of a size.
    pub open spec fn unsigned_spec(size: Size) -> NumericRepr {
        NumericRepr { size, signed: false }
    }

    /// The signed representation of a size.
    pub open spec fn signed_spec(size: Size) -> NumericRepr {
        NumericRepr { size, signed: true }
    }

    /// The largest integer that the representation holds.
    pub open spec fn max_int(self) -> int {
        if self.signed {
            self.size.sign_bit() - 1
        } else {
            self.size.mask() as int
        }
    }

    /// The smallest integer that the representation holds.
    pub open spec fn min_int(self) -> int {
        if self.signed {
            -(self.size.sign_bit() as int)
        } else {
            0
        }
    }

    /// Whether the representation holds the integer `v`.
    pub open spec fn holds(self, v: int) -> bool {
        self.min_int() <= v <= self.max_int()
    }

    /// The bits of `bits` below the width of the representation, extended to 64 bits: by the
    /// sign bit for a signed representation, by zero for an unsigned one.
    pub open spec fn extend(self, bits: u64) -> u64 {
        if self.signed && (bits & self.size.sign_bit()) != 0 {
            bits | !self.size.mask()
        } else {
            bits & self.size.mask()
        }
    }
}


impl Number {
    /// The 64 bits that back the number.
    pub closed spec fn bits(self) -> u64 {
        self.value
    }

    /// The representation of the number, as a specification.
    pub closed spec fn spec_repr(self) -> NumericRepr {
        self.repr
    }

    /// The integer that the number stands for: its bits read as a signed 64 bit integer if the
    /// representation is signed, as an unsigned one otherwise.
    pub open spec fn as_int(self) -> int {
        if self.spec_repr().signed {
            (self.bits() as i64) as int
        } else {
            self.bits() as int
        }
    }

    /// The number with the given bits and representation.
    pub closed spec fn spec_new(bits: u64, repr: NumericRepr) -> Number {
        Number { value: bits, repr }
    }

    /// The number with the same bits in another representation.
    pub open spec fn with_repr(self, repr: NumericRepr) -> Number {
        Number::spec_new(self.bits(), repr)
    }

    /// The unsigned byte `val`.
    pub open spec fn byte_spec(val: u8) -> Number {
        Number::spec_new(val as u64, NumericRepr::unsigned_spec(Size::BYTE))
    }

    /// The unsigned double word `val`.
    pub open spec fn dword_spec(val: u32) -> Number {
        Number::spec_new(val as u64, NumericRepr::unsigned_spec(Size::DWORD))
    }

    /// The unsigned zero of a size.
    pub open spec fn zero_spec(size: Size) -> Number {
        Number::spec_new(0, NumericRepr::unsigned_spec(size))
    }

    /// The number in another size, with the same bits and the same signedness.
    pub open spec fn spec_resize(self, size: Size) -> Number {
        Number::spec_new(self.bits(), NumericRepr { size, signed: self.spec_repr().signed })
    }

    /// A number is determined by its bits and its representation.
    pub proof fn lemma_determined(a: Number, b: Number)
        requires
            a.bits() == b.bits(),
            a.spec_repr() == b.spec_repr(),
        ensures
            a == b,
    {
    }

    /// What a number made of bits and a representation holds.
    pub broadcast proof fn lemma_spec_new(bits: u64, repr: NumericRepr)
        ensures
            (#[trigger] Number::spec_new(bits, repr)).bits() == bits,
            Number::spec_new(bits, repr).spec_repr() == repr,
    {
    }

    /// The stored bits are correctly sign or zero extended for the representation.
    pub open spec fn wf(self) -> bool {
        self.bits() == self.spec_repr().extend(self.bits())
    }

    /// The number with the bits of `value` below the width of `size`, as an unsigned number.
    pub fn from_u64_and_size(val: u64, size: Size) -> (r: Self)
        ensures
            r.spec_repr() == NumericRepr::unsigned_spec(size),
            r.bits() == r.spec_repr().extend(val),
            r.wf(),
    {
        Self::from_u64_and_repr(val, NumericRepr::unsigned(size))
    }

    /// The number with the bits of `value` below the width of `repr`, extended as the
    /// representation asks.
    pub fn from_u64_and_repr(value: u64, repr: NumericRepr) -> (r: Self)
        ensures
            r.spec_repr() == repr,
            r.bits() == repr.extend(value),
            r.wf(),
    {
        let mut nr = Number { value, repr };
        nr.correct_extension_bits_for_sign();
        nr
    }

    pub fn repr(self) -> (r: NumericRepr)
        ensures
            r == self.spec_repr(),
    {
        self.repr
    }

    pub fn byte(val: u8) -> (r: Self)
        ensures
            r.spec_repr() == NumericRepr::unsigned_spec(Size::BYTE),
            r.bits() == val,
            r.wf(),
    {
        proof {
            lemma_extend_small(val as u64);
        }
        Self::from_u64_and_size(val as u64, Size::BYTE)
    }

    pub fn word(val: u16) -> (r: Self)
        ensures
            r.spec_repr() == NumericRepr::unsigned_spec(Size::WORD),
            r.bits() == val,
            r.wf(),
    {
        proof {
            lemma_extend_small(val as u64);
        }
        Self::from_u64_and_size(val as u64, Size::WORD)
    }

    pub fn dword(val: u32) -> (r: Self)
        ensures
            r.spec_repr() == NumericRepr::unsigned_spec(Size::DWORD),
            r.bits() == val,
            r.wf(),
    {
        proof {
            lemma_extend_small(val as u64);
        }
        Self::from_u64_and_size(val as u64, Size::DWORD)
    }

    pub fn qword(val: u64) -> (r: Self)
        ensures
            r.spec_repr() == NumericRepr::unsigned_spec(Size::QWORD),
            r.bits() == val,
            r.wf(),
    {
        proof {
            lemma_extend_small(val);
        }
        Self::from_u64_and_size(val, Size::QWORD)
    }

    /// The low byte of the number.
    pub fn as_u8(self) -> (r: u8)
        ensures
            r == self.bits() & 0xFF,
    {
        let bits: u64 = self.cast_as(NumericRepr::unsigned(Size::BYTE)).value;
        assert(bits & 0xFF < 0x100) by (bit_vector);
        bits as u8
    }

    /// The low byte of the number, read as a signed integer.
    pub fn as_i8(self) -> (r: i8)
        ensures
            r == (self.bits() & 0xFF) as u8 as i8,
    {
        let bits: u64 = self.cast_as(NumericRepr::unsigned(Size::BYTE)).value;
        assert(bits & 0xFF < 0x100) by (bit_vector);
        let low: u8 = bits as u8;
        #[verifier::truncate]
        (low as i8)
    }

    /// The low 16 bits of the number.
    pub fn as_u16(self) -> (r: u16)
        ensures
            r == self.bits() & 0xFFFF,
    {
        let bits: u64 = self.cast_as(NumericRepr::unsigned(Size::WORD)).value;
        assert(bits & 0xFFFF < 0x1_0000) by (bit_vector);
        bits as u16
    }

    /// The low 16 bits of the number, read as a signed integer.
    pub fn as_i16(self) -> (r: i16)
        ensures
            r == (self.bits() & 0xFFFF) as u16 as i16,
    {
        let bits: u64 = self.cast_as(NumericRepr::unsigned(Size::WORD)).value;
        assert(bits & 0xFFFF < 0x1_0000) by (bit_vector);
        let low: u16 = bits as u16;
        #[verifier::truncate]
        (low as i16)
    }

    /// The low 32 bits of the number.
    pub fn as_u32(self) -> (r: u32)
        ensures
            r == self.bits() & 0xFFFF_FFFF,
    {
        let bits: u64 = self.cast_as(NumericRepr::unsigned(Size::DWORD)).value;
        assert(bits & 0xFFFF_FFFF < 0x1_0000_0000) by (bit_vector);
        bits as u32
    }

    /// The low 32 bits of the number, read as a signed integer.
    pub fn as_i32(self) -> (r: i32)
        ensures
            r == (self.bits() & 0xFFFF_FFFF) as u32 as i32,
    {
        let bits: u64 = self.cast_as(NumericRepr::unsigned(Size::DWORD)).value;
        assert(bits & 0xFFFF_FFFF < 0x1_0000_0000) by (bit_vector);
        let low: u32 = bits as u32;
        #[verifier::truncate]
        (low as i32)
    }

    /// All 64 bits of the number.
    pub fn as_u64(self) -> (r: u64)
        ensures
            r == self.bits(),
    {
        let bits: u64 = self.cast_as(NumericRepr::unsigned(Size::QWORD)).value;
        let ghost own = self.value;
        assert(own & 0xFFFF_FFFF_FFFF_FFFF == own) by (bit_vector);
        bits
    }

    /// All 64 bits of the number, read as a signed integer.
    pub fn as_i64(self) -> (r: i64)
        ensures
            r == self.bits() as i64,
    {
        let bits: u64 = self.cast_as(NumericRepr::signed(Size::QWORD)).value;
        let ghost own = self.value;
        assert((own | !0xFFFF_FFFF_FFFF_FFFFu64) == own && (own & 0xFFFF_FFFF_FFFF_FFFFu64) == own)
            by (bit_vector);
        #[verifier::truncate]
        (bits as i64)
    }

    /// Perform a cast in 2-complement.
    ///
    /// Casts work like Rust `as` coercion: the bits below the width of `repr` are kept, the
    /// bits above it are filled as `repr` asks.
    pub fn cast_as(self, repr: NumericRepr) -> (r: Number)
        ensures
            r.spec_repr() == repr,
            r.bits() == repr.extend(self.bits()),
            r.wf(),
            repr.holds(self.as_int()) ==> r.as_int() == self.as_int(),
    {
        proof {
            broadcast use Number::lemma_spec_new;

            if repr.holds(self.as_int()) {
                lemma_cast_keeps_value(self, repr);
            }
        }
        let mut nr = self;
        nr.repr = repr;
        nr.correct_extension_bits_for_sign();
        nr
    }

    /// Do a value preserving (`TryFrom`) conversion.
    ///
    /// This is not the same as lossless, `u32` and `i32` can be converted without loss but do
    /// not preserve the values. The conversion succeeds exactly if `repr` holds the integer
    /// that the number stands for, and then the result stands for the same integer.
    pub fn convert(self, repr: NumericRepr) -> (r: Option<Number>)
        ensures
            r.is_some() == repr.holds(self.as_int()),
            r.is_some() ==> r.unwrap() == self.with_repr(repr),
            r.is_some() ==> r.unwrap().as_int() == self.as_int() && r.unwrap().wf(),
    {
        proof {
            broadcast use Number::lemma_spec_new;

            if repr.holds(self.as_int()) {
                lemma_cast_keeps_value(self, repr);
            }
        }
        let v: i128 = self.int_value();
        let fits = if repr.signed {
            let bound: i128 = sign_bit_of(repr.size) as i128;
            -bound <= v && v <= bound - 1
        } else {
            0 <= v && v <= mask_of(repr.size) as i128
        };
        if fits {
            let converted = Number { value: self.value, repr };
            proof {
                Number::lemma_determined(converted, self.with_repr(repr));
            }
            Some(converted)
        } else {
            None
        }
    }

    /// Change the signedness, keeping the bits below the width of the size.
    pub fn make_signed(self, signed: bool) -> (r: Number)
        ensures
            r.spec_repr() == (NumericRepr { size: self.spec_repr().size, signed }),
            r.bits() == r.spec_repr().extend(self.bits()),
            r.wf(),
    {
        let mut nr = self;
        nr.repr.signed = signed;
        nr.correct_extension_bits_for_sign();
        nr
    }

    /// Resize, keeping the same signedness. Nothing is lost: the bits stay as they are, so
    /// that resizing back gives the number again. The result stands for the same integer,
    /// with its bits correctly extended, where the new size holds that integer.
    pub fn resize(self, size: Size) -> (r: Number)
        ensures
            r == self.spec_resize(size),
            r.spec_repr() == (NumericRepr { size, signed: self.spec_repr().signed }),
            r.bits() == self.bits(),
            r.spec_repr().holds(self.as_int()) ==> r.wf() && r.as_int() == self.as_int(),
    {
        let nr = Number { value: self.value, repr: NumericRepr { size, signed: self.repr.signed } };
        proof {
            broadcast use Number::lemma_spec_new;

            Number::lemma_determined(nr, self.spec_resize(size));
            if nr.spec_repr().holds(self.as_int()) {
                lemma_cast_keeps_value(self, nr.spec_repr());
            }
        }
        nr
    }

    /// The integer that the number stands for.
    pub fn int_value(self) -> (r: i128)
        ensures
            r == self.as_int(),
    {
        if self.repr.signed {
            let v: i64 = #[verifier::truncate]
            (self.value as i64);
            v as i128
        } else {
            self.value as i128
        }
    }

    /// The value bitmask for the size.
    fn mask(self) -> (r: u64)
        ensures
            r == self.spec_repr().size.mask(),
    {
        mask_of(self.repr.size)
    }

    fn sign_bit(self) -> (r: u64)
        ensures
            r == self.spec_repr().size.sign_bit(),
            r >= 0x80,
    {
        sign_bit_of(self.repr.size)
    }

    fn is_sign_bit_set(self) -> (r: bool)
        ensures
            r == ((self.bits() & self.spec_repr().size.sign_bit()) != 0),
    {
        self.value & self.sign_bit() != 0
    }

    /// Fix the sign extension after a cast.
    fn correct_extension_bits_for_sign(&mut self)
        ensures
            final(self).spec_repr() == old(self).spec_repr(),
            final(self).bits() == old(self).spec_repr().extend(old(self).bits()),
            final(self).wf(),
    {
        proof {
            lemma_extend_idempotent(self.repr, self.value);
        }
        if self.repr.signed && self.is_sign_bit_set() {
            self.value = self.value | !self.mask();
        } else {
            self.value = self.value & self.mask();
        }
    }
}

/// The value bitmask for a size.
pub fn mask_of(size: Size) -> (r: u64)
    ensures
        r == size.mask(),
{
    match size {
        Size::BYTE => 0xFF,
        Size::WORD => 0xFFFF,
        Size::DWORD => 0xFFFF_FFFF,
        Size::FWORD => 0xFFFF_FFFF_FFFF,
        _ => 0xFFFF_FFFF_FFFF_FFFF,
    }
}

/// The highest bit that a value of a size occupies.
pub fn sign_bit_of(size: Size) -> (r: u64)
    ensures
        r == size.sign_bit(),
        r >= 0x80,
{
    match size {
        Size::BYTE => 0x80,
        Size::WORD => 0x8000,
        Size::DWORD => 0x8000_0000,
        Size::FWORD => 0x8000_0000_0000,
        _ => 0x8000_0000_0000_0000,
    }
}

/// Extending twice is extending once.
pub proof fn lemma_extend_idempotent(repr: NumericRepr, bits: u64)
    ensures
        repr.extend(repr.extend(bits)) == repr.extend(bits),
{
    let m = repr.size.mask();
    let s = repr.size.sign_bit();
    assert(m == 0xFF && s == 0x80 || m == 0xFFFF && s == 0x8000 || m == 0xFFFF_FFFF && s
        == 0x8000_0000 || m == 0xFFFF_FFFF_FFFF && s == 0x8000_0000_0000 || m
        == 0xFFFF_FFFF_FFFF_FFFF && s == 0x8000_0000_0000_0000);
    assert(((bits | !m) & s != 0 && ((bits | !m) | !m) == (bits | !m)) || bits & s == 0) by (bit_vector)
        requires
            m == 0xFF && s == 0x80 || m == 0xFFFF && s == 0x8000 || m == 0xFFFF_FFFF && s
                == 0x8000_0000 || m == 0xFFFF_FFFF_FFFF && s == 0x8000_0000_0000 || m
                == 0xFFFF_FFFF_FFFF_FFFF && s == 0x8000_0000_0000_0000,
    ;
    assert(((bits & m) & s) == (bits & s) && ((bits & m) & m) == (bits & m)) by (bit_vector)
        requires
            m == 0xFF && s == 0x80 || m == 0xFFFF && s == 0x8000 || m == 0xFFFF_FFFF && s
                == 0x8000_0000 || m == 0xFFFF_FFFF_FFFF && s == 0x8000_0000_0000 || m
                == 0xFFFF_FFFF_FFFF_FFFF && s == 0x8000_0000_0000_0000,
    ;
}

/// Resizing is lossless: a number that is resized and then resized back to its own size is
/// the number again.
pub proof fn lemma_resize_round_trip(nr: Number, size: Size)
    ensures
        nr.spec_resize(size).spec_resize(nr.spec_repr().size) == nr,
{
    broadcast use Number::lemma_spec_new;

    Number::lemma_determined(nr.spec_resize(size).spec_resize(nr.spec_repr().size), nr);
}

/// The masks and sign bits of the sizes.
pub open spec fn is_mask_and_sign_bit(m: u64, s: u64) -> bool {
    m == 0xFF && s == 0x80 || m == 0xFFFF && s == 0x8000 || m == 0xFFFF_FFFF && s == 0x8000_0000 || m
        == 0xFFFF_FFFF_FFFF && s == 0x8000_0000_0000 || m == 0xFFFF_FFFF_FFFF_FFFF && s
        == 0x8000_0000_0000_0000
}

/// The bits of a number whose bits are correctly extended stand for an integer that the
/// representation of the number holds.
pub proof fn lemma_wf_in_range(nr: Number)
    requires
        nr.wf(),
    ensures
        nr.spec_repr().holds(nr.as_int()),
{
    let bits = nr.bits();
    let m = nr.spec_repr().size.mask();
    let s = nr.spec_repr().size.sign_bit();
    assert(is_mask_and_sign_bit(m, s));
    if nr.spec_repr().signed {
        assert(-(s as int) <= (bits as i64) as int <= s - 1) by (bit_vector)
            requires
                is_mask_and_sign_bit(m, s),
                bits == if bits & s != 0 {
                    bits | !m
                } else {
                    bits & m
                },
        ;
    } else {
        assert(bits <= m) by (bit_vector)
            requires
                bits == bits & m,
        ;
    }
}

/// A cast to a representation that holds the integer of a number keeps the bits of the
/// number, and with them the integer.
pub proof fn lemma_cast_keeps_value(nr: Number, repr: NumericRepr)
    requires
        repr.holds(nr.as_int()),
    ensures
        repr.extend(nr.bits()) == nr.bits(),
        nr.with_repr(repr).as_int() == nr.as_int(),
        nr.with_repr(repr).wf(),
{
    broadcast use Number::lemma_spec_new;

    let bits = nr.bits();
    let m = repr.size.mask();
    let s = repr.size.sign_bit();
    assert(is_mask_and_sign_bit(m, s));
    if nr.spec_repr().signed {
        let v = bits as i64;
        if repr.signed {
            assert(bits == if bits & s != 0 {
                bits | !m
            } else {
                bits & m
            }) by (bit_vector)
                requires
                    is_mask_and_sign_bit(m, s),
                    -(s as int) <= (bits as i64) as int <= s - 1,
            ;
        } else {
            assert(bits == bits & m && (bits as i64) as int == bits as int) by (bit_vector)
                requires
                    is_mask_and_sign_bit(m, s),
                    0 <= (bits as i64) as int <= m as int,
            ;
        }
    } else {
        if repr.signed {
            assert(bits & s == 0 && bits == bits & m && (bits as i64) as int == bits as int) by (bit_vector)
                requires
                    is_mask_and_sign_bit(m, s),
                    bits as int <= s - 1,
            ;
        } else {
            assert(bits == bits & m) by (bit_vector)
                requires
                    is_mask_and_sign_bit(m, s),
                    bits <= m,
            ;
        }
    }
}

/// Zero is its own extension.
pub proof fn lemma_extend_zero(repr: NumericRepr)
    ensures
        repr.extend(0) == 0,
{
    let m = repr.size.mask();
    let s = repr.size.sign_bit();
    assert(0u64 & s == 0 && 0u64 & m == 0) by (bit_vector);
}

/// An unsigned value that fits a size is its own extension.
pub proof fn lemma_extend_small(bits: u64)
    ensures
        bits <= 0xFF ==> NumericRepr::unsigned_spec(Size::BYTE).extend(bits) == bits,
        bits <= 0xFFFF ==> NumericRepr::unsigned_spec(Size::WORD).extend(bits) == bits,
        bits <= 0xFFFF_FFFF ==> NumericRepr::unsigned_spec(Size::DWORD).extend(bits) == bits,
        NumericRepr::unsigned_spec(Size::QWORD).extend(bits) == bits,
{
    assert(bits <= 0xFF ==> bits & 0xFF == bits) by (bit_vector);
    assert(bits <= 0xFFFF ==> bits & 0xFFFF == bits) by (bit_vector);
    assert(bits <= 0xFFFF_FFFF ==> bits & 0xFFFF_FFFF == bits) by (bit_vector);
    assert(bits & 0xFFFF_FFFF_FFFF_FFFF == bits) by (bit_vector);
}

/// A value in a list of constants.
#[derive(Debug, Clone, PartialEq, Eq)]
pub enum Const {
    /// Add constant through applying some relocation.
    Relocate(Jump),
    /// Add a simple value.
    Value(Expr),
}

/// A reference to a jump target, with an optional offset that is added to it.
#[derive(Debug, Clone, PartialEq, Eq)]
pub struct Jump {
    pub kind: JumpKind,
    pub offset: Option<Expr>,
}

#[derive(Debug, Clone, PartialEq, Eq)]
pub enum JumpKind {
    /// A global label.
    Global(Ident),
    /// The closest local label of that name before the jump.
    Backward(Ident),
    /// The closest local label of that name after the jump.
    Forward(Ident),
    /// A label that the caller computes.
    Dynamic(Expr),
    /// An address that is known already.
    Bare(Value),
}

/// An abstract representation of a statement to be emitted.
#[derive(Debug, Clone, PartialEq, Eq)]
pub enum Stmt {
    /// Push integral data with arbitrary size.
    Const(Value),
    /// Extend the instruction stream with unsigned bytes.
    Extend(Vec<u8>),
    /// Extend the instruction stream with the bytes of a value.
    ExprExtend(Value),
    /// Align the instruction stream to some alignment, filling with the second value.
    Align(Expr, Value),
    GlobalLabel(Ident),
    LocalLabel(Ident),
    DynamicLabel(Expr),
    /// Relocations: the target, the offset that is added to it, and the relocation record.
    GlobalJumpTarget(Ident, JumpOffset, Vec<u8>),
    ForwardJumpTarget(Ident, JumpOffset, Vec<u8>),
    BackwardJumpTarget(Ident, JumpOffset, Vec<u8>),
    DynamicJumpTarget(JumpOffset, JumpOffset, Vec<u8>),
    BareJumpTarget(JumpOffset, Vec<u8>),
    /// A statement of the caller that has to be inserted between assembly hunks.
    Stmt(Expr),
}

/// A value that is specifically for jump offset use.
/// Slightly more specialized than `Value` since the only non-computed value is if elided.
#[derive(Debug, Clone, Copy, PartialEq, Eq)]
pub enum JumpOffset {
    Zero,
    Injected(Value),
}

/// An identifier.
#[derive(Debug, Clone, PartialEq, Eq)]
pub struct Ident {
    pub name: String,
}

/// An expression that will be inserted by the caller.
#[derive(Debug, Clone, Copy, PartialEq, Eq)]
pub struct Expr {
    /// An index generated by the library user, uniquely identifying this expression.
    pub idx: usize,
    /// The representation for this numeric expression. In the input, the caller gives the
    /// current type (or the smallest coercible one); in the output it names the final cast to
    /// use.
    pub repr: NumericRepr,
}

/// A dynamically or statically computed value.
#[derive(Debug, Clone, Copy, PartialEq, Eq)]
pub enum Value {
    /// A constant number.
    Number(Number),
    /// An external expression of the caller.
    Expr(Expr),
}

/// What a jump kind holds.
pub enum JumpKindView {
    Global(Seq<char>),
    Backward(Seq<char>),
    Forward(Seq<char>),
    Dynamic(Expr),
    Bare(Value),
}

/// What a jump holds.
pub struct JumpView {
    pub kind: JumpKindView,
    pub offset: Option<Expr>,
}

/// What a constant holds.
pub enum ConstView {
    Relocate(JumpView),
    Value(Expr),
}

/// What a statement holds.
pub enum StmtView {
    Const(Value),
    Extend(Seq<u8>),
    ExprExtend(Value),
    Align(Expr, Value),
    GlobalLabel(Seq<char>),
    LocalLabel(Seq<char>),
    DynamicLabel(Expr),
    GlobalJumpTarget(Seq<char>, JumpOffset, Seq<u8>),
    ForwardJumpTarget(Seq<char>, JumpOffset, Seq<u8>),
    BackwardJumpTarget(Seq<char>, JumpOffset, Seq<u8>),
    DynamicJumpTarget(JumpOffset, JumpOffset, Seq<u8>),
    BareJumpTarget(JumpOffset, Seq<u8>),
    Stmt(Expr),
}

impl View for Ident {
    type V = Seq<char>;

    open spec fn view(&self) -> Seq<char> {
        self.name@
    }
}

impl View for JumpKind {
    type V = JumpKindView;

    open spec fn view(&self) -> JumpKindView {
        match *self {
            JumpKind::Global(ident) => JumpKindView::Global(ident@),
            JumpKind::Backward(ident) => JumpKindView::Backward(ident@),
            JumpKind::Forward(ident) => JumpKindView::Forward(ident@),
            JumpKind::Dynamic(expr) => JumpKindView::Dynamic(expr),
            JumpKind::Bare(value) => JumpKindView::Bare(value),
        }
    }
}

impl View for Jump {
    type V = JumpView;

    open spec fn view(&self) -> JumpView {
        JumpView { kind: self.kind@, offset: self.offset }
    }
}

impl View for Const {
    type V = ConstView;

    open spec fn view(&self) -> ConstView {
        match *self {
            Const::Relocate(jump) => ConstView::Relocate(jump@),
            Const::Value(expr) => ConstView::Value(expr),
        }
    }
}

impl View for Stmt {
    type V = StmtView;

    open spec fn view(&self) -> StmtView {
        match *self {
            Stmt::Const(value) => StmtView::Const(value),
            Stmt::Extend(data) => StmtView::Extend(data@),
            Stmt::ExprExtend(value) => StmtView::ExprExtend(value),
            Stmt::Align(expr, with) => StmtView::Align(expr, with),
            Stmt::GlobalLabel(ident) => StmtView::GlobalLabel(ident@),
            Stmt::LocalLabel(ident) => StmtView::LocalLabel(ident@),
            Stmt::DynamicLabel(expr) => StmtView::DynamicLabel(expr),
            Stmt::GlobalJumpTarget(ident, offset, data) => StmtView::GlobalJumpTarget(
                ident@,
                offset,
                data@,
            ),
            Stmt::ForwardJumpTarget(ident, offset, data) => StmtView::ForwardJumpTarget(
                ident@,
                offset,
                data@,
            ),
            Stmt::BackwardJumpTarget(ident, offset, data) => StmtView::BackwardJumpTarget(
                ident@,
                offset,
                data@,
            ),
            Stmt::DynamicJumpTarget(target, offset, data) => StmtView::DynamicJumpTarget(
                target,
                offset,
                data@,
            ),
            Stmt::BareJumpTarget(target, data) => StmtView::BareJumpTarget(target, data@),
            Stmt::Stmt(expr) => StmtView::Stmt(expr),
        }
    }
}

/// What a sequence of statements holds.
pub open spec fn stmt_views(stmts: Seq<Stmt>) -> Seq<StmtView> {
    stmts.map_values(|s: Stmt| s@)
}

/// The offset that an optional offset expression stands for.
pub open spec fn jump_offset_of(offset: Option<Expr>) -> JumpOffset {
    match offset {
        None => JumpOffset::Zero,
        Some(expr) => JumpOffset::Injected(Value::Expr(expr)),
    }
}

impl JumpView {
    /// The relocation statement for this jump, with `data` as its relocation record.
    pub open spec fn encode(self, data: Seq<u8>) -> StmtView {
        let offset = jump_offset_of(self.offset);
        match self.kind {
            JumpKindView::Global(ident) => StmtView::GlobalJumpTarget(ident, offset, data),
            JumpKindView::Backward(ident) => StmtView::BackwardJumpTarget(ident, offset, data),
            JumpKindView::Forward(ident) => StmtView::ForwardJumpTarget(ident, offset, data),
            JumpKindView::Dynamic(expr) => StmtView::DynamicJumpTarget(
                JumpOffset::Injected(Value::Expr(expr)),
                offset,
                data,
            ),
            JumpKindView::Bare(value) => StmtView::BareJumpTarget(JumpOffset::Injected(value), data),
        }
    }
}

/// A copy of the bytes of a slice.
pub fn bytes_to_vec(data: &[u8]) -> (r: Vec<u8>)
    ensures
        r@ == data@,
{
    let mut v: Vec<u8> = Vec::new();
    let mut i: usize = 0;
    while i < data.len()
        invariant
            i <= data.len(),
            v@ == data@.subrange(0, i as int),
        decreases data.len() - i,
    {
        v.push(data[i]);
        i += 1;
        assert(v@ == data@.subrange(0, i as int));
    }
    assert(v@ == data@);
    v
}

impl Jump {
    pub fn new(kind: JumpKind, offset: Option<Expr>) -> (r: Jump)
        ensures
            r@ == (JumpView { kind: kind@, offset }),
    {
        Jump { kind, offset }
    }

    /// Another jump that holds the same.
    pub fn copy(&self) -> (r: Jump)
        ensures
            r@ == self@,
    {
        Jump { kind: self.kind.copy(), offset: self.offset }
    }

    /// The relocation statement for this jump, with `data` as its relocation record.
    pub fn encode(self, data: &[u8]) -> (r: Stmt)
        ensures
            r@ == self@.encode(data@),
    {
        let offset = JumpOffset::from(self.offset);
        let data = bytes_to_vec(data);
        match self.kind {
            JumpKind::Global(ident) => Stmt::GlobalJumpTarget(ident, offset, data),
            JumpKind::Backward(ident) => Stmt::BackwardJumpTarget(ident, offset, data),
            JumpKind::Forward(ident) => Stmt::ForwardJumpTarget(ident, offset, data),
            JumpKind::Dynamic(expr) => Stmt::DynamicJumpTarget(JumpOffset::from(expr), offset, data),
            JumpKind::Bare(value) => Stmt::BareJumpTarget(JumpOffset::from(value), data),
        }
    }
}

// convenience methods
impl Stmt {
    /// Another statement that holds the same.
    pub fn copy(&self) -> (r: Stmt)
        ensures
            r@ == self@,
    {
        match self {
            Stmt::Const(value) => Stmt::Const(*value),
            Stmt::Extend(data) => Stmt::Extend(bytes_to_vec(data.as_slice())),
            Stmt::ExprExtend(value) => Stmt::ExprExtend(*value),
            Stmt::Align(expr, with) => Stmt::Align(*expr, *with),
            Stmt::GlobalLabel(ident) => Stmt::GlobalLabel(ident.copy()),
            Stmt::LocalLabel(ident) => Stmt::LocalLabel(ident.copy()),
            Stmt::DynamicLabel(expr) => Stmt::DynamicLabel(*expr),
            Stmt::GlobalJumpTarget(ident, offset, data) => Stmt::GlobalJumpTarget(
                ident.copy(),
                *offset,
                bytes_to_vec(data.as_slice()),
            ),
            Stmt::ForwardJumpTarget(ident, offset, data) => Stmt::ForwardJumpTarget(
                ident.copy(),
                *offset,
                bytes_to_vec(data.as_slice()),
            ),
            Stmt::BackwardJumpTarget(ident, offset, data) => Stmt::BackwardJumpTarget(
                ident.copy(),
                *offset,
                bytes_to_vec(data.as_slice()),
            ),
            Stmt::DynamicJumpTarget(target, offset, data) => Stmt::DynamicJumpTarget(
                *target,
                *offset,
                bytes_to_vec(data.as_slice()),
            ),
            Stmt::BareJumpTarget(target, data) => Stmt::BareJumpTarget(
                *target,
                bytes_to_vec(data.as_slice()),
            ),
            Stmt::Stmt(expr) => Stmt::Stmt(*expr),
        }
    }

    pub fn u8(value: u8) -> (r: Stmt)
        ensures
            r@ == StmtView::Const(Value::byte_spec(value)),
    {
        Stmt::Const(Value::Byte(value))
    }

    pub fn u16(value: u16) -> (r: Stmt)
        ensures
            r@ matches StmtView::Const(Value::Number(nr)) && nr.bits() == value && nr.spec_repr()
                == NumericRepr::unsigned_spec(Size::WORD),
    {
        Stmt::Const(Value::Word(value))
    }

    pub fn u32(value: u32) -> (r: Stmt)
        ensures
            r@ == StmtView::Const(Value::dword_spec(value)),
    {
        Stmt::Const(Value::Dword(value))
    }

    pub fn u64(value: u64) -> (r: Stmt)
        ensures
            r@ matches StmtView::Const(Value::Number(nr)) && nr.bits() == value && nr.spec_repr()
                == NumericRepr::unsigned_spec(Size::QWORD),
    {
        Stmt::Const(Value::Qword(value))
    }

    /// Zeroed bytes of a numeric size.
    pub fn zeroed(size: Size) -> (r: Self)
        ensures
            r@ == StmtView::Const(Value::zero_spec(size)),
    {
        let nr = Number::from_u64_and_size(0, size);
        proof {
            lemma_extend_zero(nr.spec_repr());
            broadcast use Number::lemma_spec_new;
            Number::lemma_determined(nr, Number::zero_spec(size));
        }
        Stmt::Const(Value::Number(nr))
    }
}

impl Ident {
    pub fn new(name: &str) -> (r: Ident)
        ensures
            r@ == name@,
    {
        Ident { name: String::from_str(name) }
    }

    pub fn to_string(self) -> (r: String)
        ensures
            r@ == self@,
    {
        self.name
    }

    /// Another identifier of the same name.
    pub fn copy(&self) -> (r: Ident)
        ensures
            r@ == self@,
    {
        Ident { name: self.name.clone() }
    }
}

impl JumpKind {
    /// Another jump kind that holds the same.
    pub fn copy(&self) -> (r: JumpKind)
        ensures
            r@ == self@,
    {
        match self {
            JumpKind::Global(ident) => JumpKind::Global(ident.copy()),
            JumpKind::Backward(ident) => JumpKind::Backward(ident.copy()),
            JumpKind::Forward(ident) => JumpKind::Forward(ident.copy()),
            JumpKind::Dynamic(expr) => JumpKind::Dynamic(*expr),
            JumpKind::Bare(value) => JumpKind::Bare(*value),
        }
    }
}

impl Value {
    /// The unsigned byte `val` as a value.
    pub open spec fn byte_spec(val: u8) -> Value {
        Value::Number(Number::byte_spec(val))
    }

    /// The unsigned double word `val` as a value.
    pub open spec fn dword_spec(val: u32) -> Value {
        Value::Number(Number::dword_spec(val))
    }

    /// The unsigned zero of a size as a value.
    pub open spec fn zero_spec(size: Size) -> Value {
        Value::Number(Number::zero_spec(size))
    }

    #[allow(non_snake_case)]
    pub fn Byte(val: u8) -> (r: Self)
        ensures
            r == Value::byte_spec(val),
    {
        let nr = Number::byte(val);
        proof {
            broadcast use Number::lemma_spec_new;
            Number::lemma_determined(nr, Number::byte_spec(val));
        }
        Value::Number(nr)
    }

    #[allow(non_snake_case)]
    pub fn Word(val: u16) -> (r: Self)
        ensures
            r matches Value::Number(nr) && nr.bits() == val && nr.spec_repr()
                == NumericRepr::unsigned_spec(Size::WORD),
    {
        Value::Number(Number::word(val))
    }

    #[allow(non_snake_case)]
    pub fn Dword(val: u32) -> (r: Self)
        ensures
            r == Value::dword_spec(val),
    {
        let nr = Number::dword(val);
        proof {
            broadcast use Number::lemma_spec_new;
            Number::lemma_determined(nr, Number::dword_spec(val));
        }
        Value::Number(nr)
    }

    #[allow(non_snake_case)]
    pub fn Qword(val: u64) -> (r: Self)
        ensures
            r matches Value::Number(nr) && nr.bits() == val && nr.spec_repr()
                == NumericRepr::unsigned_spec(Size::QWORD),
    {
        Value::Number(Number::qword(val))
    }

    /// The representation of the value, as a specification.
    pub open spec fn spec_repr(self) -> NumericRepr {
        match self {
            Value::Number(nr) => nr.spec_repr(),
            Value::Expr(expr) => expr.repr,
        }
    }

    /// The value in another representation, if that representation can hold it: a number has
    /// to keep the integer that it stands for, an expression takes any representation.
    pub open spec fn spec_convert(self, repr: NumericRepr) -> Option<Value> {
        match self {
            Value::Number(nr) => if repr.holds(nr.as_int()) {
                Some(Value::Number(nr.with_repr(repr)))
            } else {
                None
            },
            Value::Expr(expr) => Some(Value::Expr(Expr { idx: expr.idx, repr })),
        }
    }

    pub fn repr(self) -> (r: NumericRepr)
        ensures
            r == self.spec_repr(),
    {
        match self {
            Value::Number(nr) => nr.repr(),
            Value::Expr(expr) => expr.repr,
        }
    }

    /// The value in another size, with the same signedness.
    pub open spec fn spec_resize(self, size: Size) -> Value {
        match self {
            Value::Number(nr) => Value::Number(nr.spec_resize(size)),
            Value::Expr(expr) => Value::Expr(
                Expr { idx: expr.idx, repr: NumericRepr { size, signed: expr.repr.signed } },
            ),
        }
    }

    /// The value in another size, with the same signedness.
    pub fn resize(self, size: Size) -> (r: Value)
        ensures
            r == self.spec_resize(size),
    {
        match self {
            Value::Number(nr) => Value::Number(nr.resize(size)),
            Value::Expr(expr) => Value::Expr(
                Expr { idx: expr.idx, repr: NumericRepr { size, signed: expr.repr.signed } },
            ),
        }
    }

    pub fn convert(self, repr: NumericRepr) -> (r: Option<Self>)
        ensures
            r == self.spec_convert(repr),
    {
        match self {
            Value::Number(nr) => match nr.convert(repr) {
                Some(converted) => Some(Value::Number(converted)),
                None => None,
            },
            Value::Expr(expr) => Some(Value::Expr(Expr { idx: expr.idx, repr })),
        }
    }

    pub fn size(self) -> (r: Size)
        ensures
            r == self.spec_repr().size,
    {
        self.repr().size
    }
}

/// Create a bitmask with the low `scale` bits set, all bits from 32 on.
pub fn bitmask(scale: u8) -> (r: u32)
    ensures
        r == low_bits_mask(if scale < 32 { scale as nat } else { 32 }),
{
    proof {
        vstd::arithmetic::power2::lemma2_to64();
    }
    if scale >= 32 {
        assert(low_bits_mask(32) == 0xFFFF_FFFF) by {
            vstd::bits::lemma_low_bits_mask_values();
        }
        0xFFFF_FFFF
    } else {
        let shift: u32 = scale as u32;
        proof {
            lemma_u32_pow2_no_overflow(scale as nat);
            lemma_u32_shl_is_mul(1u32, shift);
            vstd::arithmetic::power2::lemma_pow2_pos(scale as nat);
        }
        (1u32 << shift) - 1
    }
}

/// Create a bitmask with the low `scale` bits set, all bits from 64 on.
pub fn bitmask64(scale: u8) -> (r: u64)
    ensures
        r == low_bits_mask(if scale < 64 { scale as nat } else { 64 }),
{
    if scale >= 64 {
        assert(low_bits_mask(64) == 0xFFFF_FFFF_FFFF_FFFF) by {
            vstd::bits::lemma_low_bits_mask_values();
        }
        0xFFFF_FFFF_FFFF_FFFF
    } else {
        let shift: u64 = scale as u64;
        proof {
            lemma_u64_pow2_no_overflow(scale as nat);
            lemma_u64_shl_is_mul(1u64, shift);
            vstd::arithmetic::power2::lemma_pow2_pos(scale as nat);
        }
        (1u64 << shift) - 1
    }
}

impl From<Option<Expr>> for JumpOffset {
    fn from(val: Option<Expr>) -> (r: JumpOffset) {
        match val {
            None => JumpOffset::Zero,
            Some(expr) => JumpOffset::Injected(Value::Expr(expr)),
        }
    }
}

impl FromSpecImpl<Option<Expr>> for JumpOffset {
    open spec fn obeys_from_spec() -> bool {
        true
    }

    open spec fn from_spec(val: Option<Expr>) -> JumpOffset {
        jump_offset_of(val)
    }
}

impl From<Expr> for JumpOffset {
    fn from(expr: Expr) -> (r: JumpOffset) {
        JumpOffset::Injected(Value::Expr(expr))
    }
}

impl FromSpecImpl<Expr> for JumpOffset {
    open spec fn obeys_from_spec() -> bool {
        true
    }

    open spec fn from_spec(expr: Expr) -> JumpOffset {
        JumpOffset::Injected(Value::Expr(expr))
    }
}

impl From<Value> for JumpOffset {
    fn from(val: Value) -> (r: JumpOffset) {
        JumpOffset::Injected(val)
    }
}

impl FromSpecImpl<Value> for JumpOffset {
    open spec fn obeys_from_spec() -> bool {
        true
    }

    open spec fn from_spec(val: Value) -> JumpOffset {
        JumpOffset::Injected(val)
    }
}

impl From<u8> for Value {
    fn from(val: u8) -> (r: Value) {
        Value::Byte(val)
    }
}

impl FromSpecImpl<u8> for Value {
    open spec fn obeys_from_spec() -> bool {
        true
    }

    open spec fn from_spec(val: u8) -> Value {
        Value::byte_spec(val)
    }
}

impl From<Expr> for Value {
    fn from(expr: Expr) -> (r: Value) {
        Value::Expr(expr)
    }
}

impl FromSpecImpl<Expr> for Value {
    open spec fn obeys_from_spec() -> bool {
        true
    }

    open spec fn from_spec(expr: Expr) -> Value {
        Value::Expr(expr)
    }
}

impl From<Value> for Stmt {
    fn from(val: Value) -> (r: Stmt) {
        Stmt::Const(val)
    }
}

impl FromSpecImpl<Value> for Stmt {
    open spec fn obeys_from_spec() -> bool {
        true
    }

    open spec fn from_spec(val: Value) -> Stmt {
        Stmt::Const(val)
    }
}

} // verus!
