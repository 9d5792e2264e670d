//! The encoder: from a mnemonic and its operands to the statements of the instruction.
use super::ast::{
    clean_views, ident_views, sized_views, CleanArg, CleanArgView, Index, Instruction, RegFamily, RegId,
    RegKind, Register, SizedArg, SizedArgView,
};
use super::debug::{format_opdata_list, mismatch_text};
use super::emit::{all_literal, emit_views, literals, plan_outcome, run_plan, Emit, EmitView};
use super::encode::{
    compile_opcode, compile_operand, compile_rex, compile_tail, compile_vex_xop, opcode_emits,
    high_field, lemma_rex_bits, lemma_stack_base_escapes, low_field, memory_code, middle_field,
    operand_code, push_byte, register_field, rex_emit, tail_code, vex_emits, OperandError,
};
use super::opmap::{get_mnemnonic_data, mnemonic_forms};
use super::x64data::{str_eq, Features, Flags};
use super::{Error, ErrorView, X86Mode};
use crate::arch::{BasicExprBuilder, ErrorSpan, Report};
use crate::common::{Expr, Ident, Number, NumericRepr, Size, Value};
use vstd::prelude::*;

verus! {

/// An entry of the opcode table: one way to encode a mnemonic.
#[derive(Debug, Clone, PartialEq, Eq)]
pub struct Opdata {
    /// The format of the operands: for each of them the code of its kind, then that of its
    /// size.
    pub args: Vec<u8>,
    /// The bytes of the opcode.
    pub ops: Vec<u8>,
    /// What the register field holds if no operand goes there.
    pub reg: u8,
    pub flags: Flags,
    /// The features that a processor needs to have for this encoding.
    pub features: Features,
}

/// What an entry of the opcode table holds.
pub struct OpdataView {
    pub args: Seq<u8>,
    pub ops: Seq<u8>,
    pub reg: u8,
    pub flags: Flags,
    pub features: Features,
}

impl View for Opdata {
    type V = OpdataView;

    open spec fn view(&self) -> OpdataView {
        OpdataView {
            args: self.args@,
            ops: self.ops@,
            reg: self.reg,
            flags: self.flags,
            features: self.features,
        }
    }
}

/// What a list of entries holds.
pub open spec fn opdata_views(forms: Seq<Opdata>) -> Seq<OpdataView> {
    forms.map_values(|f: Opdata| f@)
}

/// The pairs of a kind and a size that a format holds: a last byte without a partner is left
/// out.
pub open spec fn format_pairs(format: Seq<u8>) -> Seq<(u8, u8)> {
    Seq::new((format.len() / 2) as nat, |i: int| (format[2 * i], format[2 * i + 1]))
}

/// Walks a format two bytes at a time.
#[derive(Debug, Clone, PartialEq, Eq)]
pub struct FormatStringIterator<'a> {
    buf: &'a [u8],
    pos: usize,
}

impl<'a> FormatStringIterator<'a> {
    /// The bytes that have not been walked yet.
    pub closed spec fn remaining(&self) -> Seq<u8> {
        self.buf@.skip(self.pos as int)
    }

    /// The iterator has not left its format.
    pub closed spec fn wf(&self) -> bool {
        self.pos <= self.buf@.len()
    }

    pub fn new(buf: &'a [u8]) -> (r: FormatStringIterator<'a>)
        ensures
            r.wf(),
            r.remaining() == buf@,
    {
        FormatStringIterator { buf, pos: 0 }
    }

    /// The next kind and size, if two bytes are left. A single byte that is left is dropped.
    pub fn next(&mut self) -> (r: Option<(u8, u8)>)
        requires
            old(self).wf(),
        ensures
            final(self).wf(),
            old(self).remaining().len() >= 2 ==> r == Some(
                (old(self).remaining()[0], old(self).remaining()[1]),
            ) && final(self).remaining() == old(self).remaining().skip(2),
            old(self).remaining().len() < 2 ==> r is None && final(self).remaining().len() == 0,
    {
        if self.buf.len() - self.pos >= 2 {
            let ty = self.buf[self.pos];
            let size = self.buf[self.pos + 1];
            assert(self.buf@.skip(self.pos as int).skip(2) == self.buf@.skip(self.pos + 2));
            self.pos = self.pos + 2;
            Some((ty, size))
        } else {
            self.pos = self.buf.len();
            None
        }
    }
}

/// The pairs of a kind and a size that a format holds.
pub fn read_format(format: &[u8]) -> (r: Vec<(u8, u8)>)
    ensures
        r@ == format_pairs(format@),
{
    let mut pairs: Vec<(u8, u8)> = Vec::new();
    let mut iter = FormatStringIterator::new(format);
    loop
        invariant
            iter.wf(),
            iter.remaining() == format@.skip(2 * (pairs@.len() as int)),
            2 * pairs@.len() <= format@.len(),
            pairs@ == format_pairs(format@).take(pairs@.len() as int),
        decreases iter.remaining().len(),
    {
        match iter.next() {
            Some(pair) => {
                let ghost n = pairs@.len() as int;
                pairs.push(pair);
                assert(format@.skip(2 * n).skip(2) == format@.skip(2 * (n + 1)));
                assert(pairs@ =~= format_pairs(format@).take(n + 1));
            },
            None => {
                assert(pairs@ =~= format_pairs(format@));
                return pairs;
            },
        }
    }
}

/// Why a format does not fit the operands of an instruction.
#[derive(Debug, Clone, Copy, PartialEq, Eq, Structural)]
pub enum Mismatch {
    /// The format is for the other processor mode.
    Mode,
    /// The format has another number of operands.
    Length,
    /// An operand is of another kind than its slot.
    Kind,
    /// An operand has another size than its slot.
    Size,
    /// An operand has no size, and the format is the more specific version of another.
    Alternate,
    /// The format holds a code that means nothing.
    Format,
}

impl Mismatch {
    pub open spec fn spec_message(self) -> Seq<char> {
        match self {
            Mismatch::Mode => "Not available in 64-bit mode"@,
            Mismatch::Length => "argument length mismatch"@,
            Mismatch::Kind => "argument type mismatch"@,
            Mismatch::Size => "argument size mismatch"@,
            Mismatch::Alternate => "alternate variant exists"@,
            Mismatch::Format => "invalid format string"@,
        }
    }

    pub fn message(self) -> (r: &'static str)
        ensures
            r@ == self.spec_message(),
    {
        match self {
            Mismatch::Mode => "Not available in 64-bit mode",
            Mismatch::Length => "argument length mismatch",
            Mismatch::Kind => "argument type mismatch",
            Mismatch::Size => "argument size mismatch",
            Mismatch::Alternate => "alternate variant exists",
            Mismatch::Format => "invalid format string",
        }
    }
}

/// Whether a register can stand in a slot of kind `code`.
///
/// - `A` to `P` stand for the general purpose registers from rax to r15, `Q` to `V` for the
///   segment registers from es to gs, `W` for cr8 and `X` for st0;
/// - `r` is a general purpose register, `f` one of the floating point stack, `x` an mmx
///   register, `y` an xmm or ymm register, `s` a segment register, `c` a control register,
///   `d` a debug register and `b` a bound register;
/// - `v` is a general purpose register or memory, `u` an mmx register or memory, `w` an xmm
///   or ymm register or memory.
pub open spec fn register_fits(code: u8, kind: RegKind) -> bool {
    let family = kind.spec_family();
    ||| 'A' as u8 <= code <= 'P' as u8 && family == RegFamily::LEGACY && kind.spec_code() == Some(
        (code - 'A' as u8) as u8,
    )
    ||| 'Q' as u8 <= code <= 'V' as u8 && family == RegFamily::SEGMENT && kind.spec_code() == Some(
        (code - 'Q' as u8) as u8,
    )
    ||| code == 'W' as u8 && kind.spec_is(RegId::CR8)
    ||| code == 'X' as u8 && kind.spec_is(RegId::ST0)
    ||| (code == 'r' as u8 || code == 'v' as u8) && (family == RegFamily::LEGACY || family
        == RegFamily::HIGHBYTE)
    ||| (code == 'x' as u8 || code == 'u' as u8) && family == RegFamily::MMX
    ||| (code == 'y' as u8 || code == 'w' as u8) && family == RegFamily::XMM
    ||| code == 'f' as u8 && family == RegFamily::FP
    ||| code == 's' as u8 && family == RegFamily::SEGMENT
    ||| code == 'c' as u8 && family == RegFamily::CONTROL
    ||| code == 'd' as u8 && family == RegFamily::DEBUG
    ||| code == 'b' as u8 && family == RegFamily::BOUND
}

/// Whether the index of a memory reference is a vector register.
pub open spec fn index_is_vector(index: Option<Index>) -> bool {
    index matches Some(i) && i.0.kind.spec_family() == RegFamily::XMM
}

/// Whether `code` is one of the kinds that take a memory reference.
pub open spec fn is_memory_code(code: u8) -> bool {
    code == 'm' as u8 || 'u' as u8 <= code <= 'w' as u8
}

/// The size that an operand shows to a slot of kind `code`: `None` if the operand cannot stand
/// in such a slot, `Some(None)` if it can and has no size of its own.
///
/// `i` is an immediate, `o` an instruction offset, `m` memory, `k` and `l` memory that is
/// indexed by a vector register, with elements of 32 and of 64 bits; such a reference shows
/// the size of its index. The other kinds take registers, see [`register_fits`].
pub open spec fn slot_size(code: u8, arg: CleanArgView) -> Option<Option<Size>> {
    match arg {
        CleanArgView::Immediate { value } => if code == 'i' as u8 || code == 'o' as u8 {
            Some(Some(value.spec_repr().size))
        } else {
            None
        },
        CleanArgView::JumpTarget { size, .. } => if code == 'o' as u8 {
            Some(size)
        } else {
            None
        },
        CleanArgView::Direct { reg } => if register_fits(code, reg.kind) {
            Some(Some(reg.size))
        } else {
            None
        },
        CleanArgView::Indirect { size, index, .. } => if is_memory_code(code) && !index_is_vector(
            index,
        ) {
            Some(size)
        } else if code == 'k' as u8 && index_is_vector(index) && (size is None || size == Some(
            Size::DWORD,
        )) {
            Some(Some(index.unwrap().0.size))
        } else if code == 'l' as u8 && index_is_vector(index) && (size is None || size == Some(
            Size::QWORD,
        )) {
            Some(Some(index.unwrap().0.size))
        } else {
            None
        },
        CleanArgView::IndirectJumpTarget { size, .. } => if is_memory_code(code) {
            Some(size)
        } else {
            None
        },
    }
}

/// Whether an operand of `size` fits a slot of kind `code` with the size code `fsize`; `None`
/// if the two codes mean nothing together.
///
/// `b`, `w`, `d`, `q`, `o` and `h` ask for a byte, word, doubleword, quadword, octword and
/// hexadecword, `p` for ten bytes and `f` for six; an immediate also fits a `w`, `d` or `q`
/// slot that is larger. `*` takes the sizes that the kind allows, `?` takes any size and `!`
/// takes none.
pub open spec fn size_fits(fsize: u8, code: u8, size: Size) -> Option<bool> {
    let immediate = code == 'i' as u8;
    if fsize == 'w' as u8 && immediate {
        Some(size.bytes() <= 2)
    } else if fsize == 'd' as u8 && immediate {
        Some(size.bytes() <= 4)
    } else if fsize == 'q' as u8 && immediate {
        Some(size.bytes() <= 8)
    } else if fsize == '*' as u8 && immediate {
        Some(size.bytes() <= 4)
    } else if fsize == 'b' as u8 {
        Some(size == Size::BYTE)
    } else if fsize == 'w' as u8 {
        Some(size == Size::WORD)
    } else if fsize == 'd' as u8 {
        Some(size == Size::DWORD)
    } else if fsize == 'q' as u8 {
        Some(size == Size::QWORD)
    } else if fsize == 'f' as u8 {
        Some(size == Size::FWORD)
    } else if fsize == 'p' as u8 {
        Some(size == Size::PWORD)
    } else if fsize == 'o' as u8 {
        Some(size == Size::OWORD)
    } else if fsize == 'h' as u8 {
        Some(size == Size::HWORD)
    } else if fsize == '*' as u8 {
        if code == 'k' as u8 || code == 'l' as u8 || code == 'y' as u8 || code == 'w' as u8 {
            Some(size == Size::OWORD || size == Size::HWORD)
        } else if code == 'r' as u8 || code == 'v' as u8 || 'A' as u8 <= code <= 'P' as u8 {
            Some(size == Size::WORD || size == Size::DWORD || size == Size::QWORD)
        } else if code == 'm' as u8 {
            Some(true)
        } else {
            None
        }
    } else if fsize == '?' as u8 {
        Some(true)
    } else if fsize == '!' as u8 {
        Some(false)
    } else {
        None
    }
}

/// Why an operand does not fit a slot, if it does not. `exact` says that the format is the
/// more specific version of another, so that it does not take operands without a size.
pub open spec fn slot_mismatch(code: u8, fsize: u8, arg: CleanArgView, exact: bool) -> Option<
    Mismatch,
> {
    match slot_size(code, arg) {
        None => Some(Mismatch::Kind),
        Some(Some(size)) => match size_fits(fsize, code, size) {
            Some(true) => None,
            Some(false) => Some(Mismatch::Size),
            None => Some(Mismatch::Format),
        },
        Some(None) => if fsize != '*' as u8 && exact {
            Some(Mismatch::Alternate)
        } else {
            None
        },
    }
}

/// The first reason for which one of the operands from `from` on does not fit its slot.
pub open spec fn slots_mismatch(
    pairs: Seq<(u8, u8)>,
    args: Seq<CleanArgView>,
    exact: bool,
    from: int,
) -> Option<Mismatch>
    decreases pairs.len() - from,
{
    if from < 0 || from >= pairs.len() || from >= args.len() {
        None
    } else {
        match slot_mismatch(pairs[from].0, pairs[from].1, args[from], exact) {
            Some(mismatch) => Some(mismatch),
            None => slots_mismatch(pairs, args, exact, from + 1),
        }
    }
}

/// Why a format does not fit the operands of an instruction in a mode, if it does not: the
/// format is for 32-bit mode only and the mode is another, or it has another number of slots
/// than there are operands, or, going through the operands in their order, one of them does
/// not fit its slot.
pub open spec fn format_mismatch(mode: X86Mode, fmt: OpdataView, args: Seq<CleanArgView>) -> Option<
    Mismatch,
> {
    if mode != X86Mode::Protected && fmt.flags.spec_intersects(Flags::X86_ONLY) {
        Some(Mismatch::Mode)
    } else if fmt.args.len() != args.len() * 2 {
        Some(Mismatch::Length)
    } else {
        slots_mismatch(format_pairs(fmt.args), args, fmt.flags.spec_contains(Flags::EXACT_SIZE), 0)
    }
}

/// Whether a register can stand in a slot of kind `code`.
pub fn check_register(code: u8, kind: &RegKind) -> (r: bool)
    ensures
        r == register_fits(code, *kind),
{
    let family = kind.family();
    if 'A' as u8 <= code && code <= 'P' as u8 {
        let wanted: u8 = code - 'A' as u8;
        family == RegFamily::LEGACY && matches!(kind.code(), Some(c) if c == wanted)
    } else if 'Q' as u8 <= code && code <= 'V' as u8 {
        let wanted: u8 = code - 'Q' as u8;
        family == RegFamily::SEGMENT && matches!(kind.code(), Some(c) if c == wanted)
    } else if code == 'W' as u8 {
        kind.is(RegId::CR8)
    } else if code == 'X' as u8 {
        kind.is(RegId::ST0)
    } else if code == 'r' as u8 || code == 'v' as u8 {
        family == RegFamily::LEGACY || family == RegFamily::HIGHBYTE
    } else if code == 'x' as u8 || code == 'u' as u8 {
        family == RegFamily::MMX
    } else if code == 'y' as u8 || code == 'w' as u8 {
        family == RegFamily::XMM
    } else if code == 'f' as u8 {
        family == RegFamily::FP
    } else if code == 's' as u8 {
        family == RegFamily::SEGMENT
    } else if code == 'c' as u8 {
        family == RegFamily::CONTROL
    } else if code == 'd' as u8 {
        family == RegFamily::DEBUG
    } else if code == 'b' as u8 {
        family == RegFamily::BOUND
    } else {
        false
    }
}

/// Whether the index of a memory reference is a vector register.
pub fn has_vector_index(index: &Option<Index>) -> (r: bool)
    ensures
        r == index_is_vector(*index),
{
    match index {
        Some(i) => i.0.kind.family() == RegFamily::XMM,
        None => false,
    }
}

/// The size that an operand shows to a slot of kind `code`.
pub fn operand_size(code: u8, arg: &CleanArg) -> (r: Option<Option<Size>>)
    ensures
        r == slot_size(code, arg@),
{
    let memory = code == 'm' as u8 || ('u' as u8 <= code && code <= 'w' as u8);
    match arg {
        CleanArg::Immediate { value } => if code == 'i' as u8 || code == 'o' as u8 {
            Some(Some(value.size()))
        } else {
            None
        },
        CleanArg::JumpTarget { size, .. } => if code == 'o' as u8 {
            Some(*size)
        } else {
            None
        },
        CleanArg::Direct { reg } => if check_register(code, &reg.kind) {
            Some(Some(reg.size))
        } else {
            None
        },
        CleanArg::Indirect { size, index, .. } => {
            let vector = has_vector_index(index);
            if memory && !vector {
                Some(*size)
            } else if code == 'k' as u8 && vector && (size.is_none() || matches!(size, Some(Size::DWORD))) {
                match index {
                    Some(i) => Some(Some(i.0.size)),
                    None => None,
                }
            } else if code == 'l' as u8 && vector && (size.is_none() || matches!(size, Some(Size::QWORD))) {
                match index {
                    Some(i) => Some(Some(i.0.size)),
                    None => None,
                }
            } else {
                None
            }
        },
        CleanArg::IndirectJumpTarget { size, .. } => if memory {
            Some(*size)
        } else {
            None
        },
    }
}

/// Whether an operand of `size` fits a slot of kind `code` with the size code `fsize`.
pub fn check_size(fsize: u8, code: u8, size: Size) -> (r: Option<bool>)
    ensures
        r == size_fits(fsize, code, size),
{
    let immediate = code == 'i' as u8;
    if fsize == 'w' as u8 && immediate {
        Some(size.in_bytes() <= 2)
    } else if fsize == 'd' as u8 && immediate {
        Some(size.in_bytes() <= 4)
    } else if fsize == 'q' as u8 && immediate {
        Some(size.in_bytes() <= 8)
    } else if fsize == '*' as u8 && immediate {
        Some(size.in_bytes() <= 4)
    } else if fsize == 'b' as u8 {
        Some(size == Size::BYTE)
    } else if fsize == 'w' as u8 {
        Some(size == Size::WORD)
    } else if fsize == 'd' as u8 {
        Some(size == Size::DWORD)
    } else if fsize == 'q' as u8 {
        Some(size == Size::QWORD)
    } else if fsize == 'f' as u8 {
        Some(size == Size::FWORD)
    } else if fsize == 'p' as u8 {
        Some(size == Size::PWORD)
    } else if fsize == 'o' as u8 {
        Some(size == Size::OWORD)
    } else if fsize == 'h' as u8 {
        Some(size == Size::HWORD)
    } else if fsize == '*' as u8 {
        if code == 'k' as u8 || code == 'l' as u8 || code == 'y' as u8 || code == 'w' as u8 {
            Some(size == Size::OWORD || size == Size::HWORD)
        } else if code == 'r' as u8 || code == 'v' as u8 || ('A' as u8 <= code && code <= 'P' as u8) {
            Some(size == Size::WORD || size == Size::DWORD || size == Size::QWORD)
        } else if code == 'm' as u8 {
            Some(true)
        } else {
            None
        }
    } else if fsize == '?' as u8 {
        Some(true)
    } else if fsize == '!' as u8 {
        Some(false)
    } else {
        None
    }
}

/// Why an operand does not fit a slot, if it does not.
pub fn check_slot(code: u8, fsize: u8, arg: &CleanArg, exact: bool) -> (r: Option<Mismatch>)
    ensures
        r == slot_mismatch(code, fsize, arg@, exact),
{
    match operand_size(code, arg) {
        None => Some(Mismatch::Kind),
        Some(Some(size)) => match check_size(fsize, code, size) {
            Some(true) => None,
            Some(false) => Some(Mismatch::Size),
            None => Some(Mismatch::Format),
        },
        Some(None) => if fsize != '*' as u8 && exact {
            Some(Mismatch::Alternate)
        } else {
            None
        },
    }
}

/// Why a format does not fit the operands of an instruction in a mode, if it does not.
pub fn check_format(mode: X86Mode, fmt: &Opdata, args: &[CleanArg]) -> (r: Option<Mismatch>)
    ensures
        r == format_mismatch(mode, fmt@, clean_views(args@)),
{
    if mode != X86Mode::Protected && fmt.flags.intersects(Flags::X86_ONLY) {
        return Some(Mismatch::Mode);
    }
    let ghost views = clean_views(args@);
    assert(views.len() == args@.len());
    let slots: usize = fmt.args.len();
    if args.len() > usize::MAX / 2 {
        assert(args@.len() * 2 > usize::MAX);
        return Some(Mismatch::Length);
    }
    if slots != args.len() * 2 {
        return Some(Mismatch::Length);
    }
    let pairs = read_format(fmt.args.as_slice());
    let exact = fmt.flags.contains(Flags::EXACT_SIZE);
    let mut i: usize = 0;
    while i < args.len()
        invariant
            i <= args.len(),
            pairs@.len() == args.len(),
            pairs@ == format_pairs(fmt@.args),
            exact == fmt@.flags.spec_contains(Flags::EXACT_SIZE),
            views == clean_views(args@),
            format_mismatch(mode, fmt@, views) == slots_mismatch(pairs@, views, exact, i as int),
        decreases args.len() - i,
    {
        let (code, fsize) = pairs[i];
        assert(views[i as int] == args@[i as int]@);
        match check_slot(code, fsize, &args[i], exact) {
            Some(mismatch) => {
                return Some(mismatch);
            },
            None => {},
        }
        i += 1;
    }
    None
}

/// Checks that a format fits the operands of an instruction in a mode.
pub fn match_format_string(mode: X86Mode, fmt: &Opdata, args: &[CleanArg]) -> (r: Result<(), Error>)
    ensures
        r is Ok <==> format_mismatch(mode, fmt@, clean_views(args@)) is None,
        r matches Err(e) ==> e@ == (ErrorView::Generic {
            message: format_mismatch(mode, fmt@, clean_views(args@)).unwrap().spec_message(),
        }),
{
    match check_format(mode, fmt, args) {
        None => Ok(()),
        Some(mismatch) => Err(Error::generic(mismatch.message())),
    }
}

/// The scale bits of a scale that can be encoded.
pub open spec fn scale_bits(scale: int) -> Option<u8> {
    if scale == 1 {
        Some(0u8)
    } else if scale == 2 {
        Some(1u8)
    } else if scale == 4 {
        Some(2u8)
    } else if scale == 8 {
        Some(3u8)
    } else {
        None
    }
}

pub fn encode_scale(scale: isize) -> (r: Option<u8>)
    ensures
        r == scale_bits(scale as int),
{
    match scale {
        1 => Some(0),
        2 => Some(1),
        4 => Some(2),
        8 => Some(3),
        _ => None,
    }
}

/// What is wrong with the registers of a memory reference.
#[derive(Debug, Clone, Copy, PartialEq, Eq, Structural)]
pub enum AddressError {
    DifferingSizes,
    Combination,
    WordAddressing,
    RegisterType,
    ScaledRip,
    VectorBase,
    ScaledWord,
    WordCombination,
    RspIndex,
}

impl AddressError {
    pub open spec fn spec_message(self) -> Seq<char> {
        match self {
            AddressError::DifferingSizes => "Registers of differing sizes"@,
            AddressError::Combination => "Register type combination not supported"@,
            AddressError::WordAddressing => "16-bit addressing is not supported in this mode"@,
            AddressError::RegisterType => "Register type not supported"@,
            AddressError::ScaledRip => "RIP cannot be scaled"@,
            AddressError::VectorBase => "vsib addressing requires a general purpose register as base"@,
            AddressError::ScaledWord => "16-bit addressing with scaled index"@,
            AddressError::WordCombination => "Impossible register combination"@,
            AddressError::RspIndex => "'rsp' cannot be used as index field"@,
        }
    }

    pub fn message(self) -> (r: &'static str)
        ensures
            r@ == self.spec_message(),
    {
        match self {
            AddressError::DifferingSizes => "Registers of differing sizes",
            AddressError::Combination => "Register type combination not supported",
            AddressError::WordAddressing => "16-bit addressing is not supported in this mode",
            AddressError::RegisterType => "Register type not supported",
            AddressError::ScaledRip => "RIP cannot be scaled",
            AddressError::VectorBase => "vsib addressing requires a general purpose register as base",
            AddressError::ScaledWord => "16-bit addressing with scaled index",
            AddressError::WordCombination => "Impossible register combination",
            AddressError::RspIndex => "'rsp' cannot be used as index field",
        }
    }
}

/// The registers of a memory reference in the form in which they are encoded, and the size of
/// the address: `None` where the registers do not give one.
#[derive(Debug, Clone, Copy, PartialEq, Eq)]
pub struct Address {
    pub base: Option<Register>,
    pub index: Option<Index>,
    pub size: Option<Size>,
}

/// What becomes of the registers of a memory reference: a complaint, if there is one, and the
/// address, unless the complaint is fatal.
#[derive(Debug, Clone, Copy, PartialEq, Eq)]
pub struct AddressForm {
    pub complaint: Option<AddressError>,
    pub address: Option<Address>,
}

/// The form for registers that cannot be encoded.
pub open spec fn no_address(error: AddressError) -> AddressForm {
    AddressForm { complaint: Some(error), address: None }
}

/// The form for registers that can be encoded.
pub open spec fn address(base: Option<Register>, index: Option<Index>, size: Option<Size>) -> AddressForm {
    AddressForm { complaint: None, address: Some(Address { base, index, size }) }
}

/// Whether an optional register is the known register `id`.
pub open spec fn opt_is(reg: Option<Register>, id: RegId) -> bool {
    reg matches Some(r) && r.kind.spec_is(id)
}

/// Whether an index can move to the place of a base: it has the scale one, and no expression
/// is multiplied to it.
pub open spec fn plain_index(index: Index) -> bool {
    index.1 == 1 && index.2 is None
}

/// The number that stands for the registers of a 16 bit address, if they can be combined:
/// bx+si, bx+di, bp+si, bp+di, si, di, bp, bx, in this order from zero.
pub open spec fn word_base(first: Option<Register>, second: Option<Register>) -> Option<RegId> {
    if opt_is(first, RegId::RBX) && opt_is(second, RegId::RSI) || opt_is(first, RegId::RSI)
        && opt_is(second, RegId::RBX) {
        Some(RegId::RAX)
    } else if opt_is(first, RegId::RBX) && opt_is(second, RegId::RDI) || opt_is(first, RegId::RDI)
        && opt_is(second, RegId::RBX) {
        Some(RegId::RCX)
    } else if opt_is(first, RegId::RBP) && opt_is(second, RegId::RSI) || opt_is(first, RegId::RSI)
        && opt_is(second, RegId::RBP) {
        Some(RegId::RDX)
    } else if opt_is(first, RegId::RBP) && opt_is(second, RegId::RDI) || opt_is(first, RegId::RDI)
        && opt_is(second, RegId::RBP) {
        Some(RegId::RBX)
    } else if second is Some {
        None
    } else if opt_is(first, RegId::RSI) {
        Some(RegId::RSP)
    } else if opt_is(first, RegId::RDI) {
        Some(RegId::RBP)
    } else if opt_is(first, RegId::RBP) {
        Some(RegId::RSI)
    } else if opt_is(first, RegId::RBX) {
        Some(RegId::RDI)
    } else {
        None
    }
}

/// The form of an address that is relative to the instruction pointer: the register stands
/// alone and unscaled, and it is encoded as the base.
pub open spec fn rip_form(base: Option<Register>, index: Option<Index>, size: Size) -> AddressForm {
    match index {
        Some(i) => if plain_index(i) {
            address(Some(i.0), None, Some(size))
        } else {
            no_address(AddressError::ScaledRip)
        },
        None => address(base, None, Some(size)),
    }
}

/// The form of an address of vector registers only: the register is encoded as the index,
/// and the address has no size. Two such registers draw a complaint, and the base replaces the
/// index.
pub open spec fn vector_form(base: Option<Register>, index: Option<Index>) -> AddressForm {
    AddressForm {
        complaint: if base is Some && index is Some {
            Some(AddressError::Combination)
        } else {
            None
        },
        address: Some(
            match base {
                Some(reg) => Address { base: None, index: Some((reg, 1isize, None)), size: None },
                None => Address { base: None, index, size: None },
            },
        ),
    }
}

/// The form of an address of a vector register and a general purpose register: the vector
/// register is encoded as the index. If it was given as the base, the two change places, which
/// takes an index that is plain.
pub open spec fn vsib_form(base: Register, index: Index, size: Size) -> AddressForm {
    if base.kind.spec_family() == RegFamily::XMM {
        if plain_index(index) {
            address(Some(index.0), Some((base, 1isize, None)), Some(size))
        } else {
            no_address(AddressError::VectorBase)
        }
    } else {
        address(Some(base), Some(index), Some(size))
    }
}

/// The form of a 16 bit address: the registers are encoded as one base, see [`word_base`].
pub open spec fn word_form(base: Option<Register>, index: Option<Index>) -> AddressForm {
    if index matches Some(i) && !plain_index(i) {
        no_address(AddressError::ScaledWord)
    } else {
        let second = match index {
            Some(i) => Some(i.0),
            None => None,
        };
        let combined = if base is Some {
            word_base(base, second)
        } else {
            word_base(second, None)
        };
        match combined {
            Some(id) => address(
                Some(Register { size: Size::WORD, kind: RegKind::Static(id) }),
                None,
                Some(Size::WORD),
            ),
            None => no_address(AddressError::WordCombination),
        }
    }
}

/// An index without a base, with nothing multiplied to it and a scale of 2, 3, 5 or 9, is
/// split into a base and an index with a scale that is one less, unless `nosplit` forbids it.
pub open spec fn split_index(
    nosplit: bool,
    base: Option<Register>,
    index: Option<Index>,
) -> (Option<
    Register,
>, Option<Index>) {
    match index {
        Some(i) => if !nosplit && base is None && i.2 is None && (i.1 == 2 || i.1 == 3 || i.1 == 5
            || i.1 == 9) {
            (Some(i.0), Some((i.0, (i.1 - 1) as isize, None)))
        } else {
            (base, index)
        },
        None => (base, index),
    }
}

/// Whether a base without an index has to be encoded with an index: rsp and r12 share their
/// code with the escape to the byte that holds the index, and a register that is not known
/// may be one of them.
pub open spec fn needs_escape(base: Option<Register>) -> bool {
    opt_is(base, RegId::RSP) || opt_is(base, RegId::R12) || (base matches Some(r)
        && r.kind.spec_is_dynamic())
}

/// The form of an address of general purpose registers of 32 or 64 bits: an index is split
/// where that saves a byte; rsp cannot be the index and changes places with the base where
/// the index is plain and the base is not rsp as well; a base that needs it gets rsp as index.
pub open spec fn normal_form(nosplit: bool, base: Option<Register>, index: Option<Index>, size: Size) -> AddressForm {
    let (base, index) = split_index(nosplit, base, index);
    if index matches Some(i) && i.0.kind.spec_is(RegId::RSP) {
        let i = index.unwrap();
        if !opt_is(base, RegId::RSP) && plain_index(i) {
            let moved = match base {
                Some(reg) => Some((reg, 1isize, None::<Expr>)),
                None => None,
            };
            if moved is None {
                address(
                    Some(i.0),
                    Some((Register { size, kind: RegKind::Static(RegId::RSP) }, 1isize, None)),
                    Some(size),
                )
            } else {
                address(Some(i.0), moved, Some(size))
            }
        } else {
            no_address(AddressError::RspIndex)
        }
    } else if index is None && needs_escape(base) {
        address(
            base,
            Some((Register { size, kind: RegKind::Static(RegId::RSP) }, 1isize, None)),
            Some(size),
        )
    } else {
        address(base, index, Some(size))
    }
}

/// The form in which the registers of a memory reference are encoded, or what is wrong with
/// them.
///
/// Without registers there is nothing to do. Two registers are of one family and one size, or
/// one of them is a vector register. The instruction pointer stands alone. General purpose
/// registers have 32 or 64 bits, or 16 where the mode has such addresses and no vector
/// register takes part. Registers of other families cannot address memory.
#[verifier::opaque]
pub open spec fn address_form(
    mode: X86Mode,
    nosplit: bool,
    base: Option<Register>,
    index: Option<Index>,
) -> AddressForm {
    if base is None && index is None {
        address(None, None, None)
    } else if base is Some && index is Some && base.unwrap().kind.spec_family()
        == index.unwrap().0.kind.spec_family() && base.unwrap().size != index.unwrap().0.size {
        no_address(AddressError::DifferingSizes)
    } else if base is Some && index is Some && base.unwrap().kind.spec_family()
        != index.unwrap().0.kind.spec_family() && base.unwrap().kind.spec_family() != RegFamily::XMM
        && index.unwrap().0.kind.spec_family() != RegFamily::XMM {
        no_address(AddressError::Combination)
    } else {
        let both = base is Some && index is Some;
        let vsib = both && base.unwrap().kind.spec_family() != index.unwrap().0.kind.spec_family();
        // the register that decides: the one that is there, or the one that is no vector
        let decides = if base is None || (vsib && base.unwrap().kind.spec_family() == RegFamily::XMM) {
            index.unwrap().0
        } else {
            base.unwrap()
        };
        let family = decides.kind.spec_family();
        let size = decides.size;
        if family == RegFamily::RIP {
            if both {
                no_address(AddressError::Combination)
            } else {
                rip_form(base, index, size)
            }
        } else if family == RegFamily::LEGACY {
            if size == Size::DWORD || size == Size::QWORD {
                if vsib {
                    vsib_form(base.unwrap(), index.unwrap(), size)
                } else {
                    normal_form(nosplit, base, index, size)
                }
            } else if size == Size::WORD {
                if mode == X86Mode::Long || vsib {
                    no_address(AddressError::WordAddressing)
                } else {
                    word_form(base, index)
                }
            } else {
                no_address(AddressError::RegisterType)
            }
        } else if family == RegFamily::XMM {
            vector_form(base, index)
        } else {
            no_address(AddressError::RegisterType)
        }
    }
}

/// Whether an optional register is the known register `id`.
pub fn is_reg(reg: &Option<Register>, id: RegId) -> (r: bool)
    ensures
        r == opt_is(*reg, id),
{
    match reg {
        Some(r) => r.kind.is(id),
        None => false,
    }
}

/// Whether an index can move to the place of a base.
pub fn is_plain_index(index: &Index) -> (r: bool)
    ensures
        r == plain_index(*index),
{
    index.1 == 1 && index.2.is_none()
}

fn fatal_address(error: AddressError) -> (r: AddressForm)
    ensures
        r == no_address(error),
{
    AddressForm { complaint: Some(error), address: None }
}

fn good_address(
    base: Option<Register>,
    index: Option<Index>,
    size: Option<Size>,
) -> (r: AddressForm)
    ensures
        r == address(base, index, size),
{
    AddressForm { complaint: None, address: Some(Address { base, index, size }) }
}

/// The number that stands for the registers of a 16 bit address, if they can be combined.
pub fn combine_word_base(first: &Option<Register>, second: &Option<Register>) -> (r: Option<RegId>)
    ensures
        r == word_base(*first, *second),
{
    if is_reg(first, RegId::RBX) && is_reg(second, RegId::RSI) || is_reg(first, RegId::RSI) && is_reg(
        second,
        RegId::RBX,
    ) {
        Some(RegId::RAX)
    } else if is_reg(first, RegId::RBX) && is_reg(second, RegId::RDI) || is_reg(first, RegId::RDI)
        && is_reg(second, RegId::RBX) {
        Some(RegId::RCX)
    } else if is_reg(first, RegId::RBP) && is_reg(second, RegId::RSI) || is_reg(first, RegId::RSI)
        && is_reg(second, RegId::RBP) {
        Some(RegId::RDX)
    } else if is_reg(first, RegId::RBP) && is_reg(second, RegId::RDI) || is_reg(first, RegId::RDI)
        && is_reg(second, RegId::RBP) {
        Some(RegId::RBX)
    } else if second.is_some() {
        None
    } else if is_reg(first, RegId::RSI) {
        Some(RegId::RSP)
    } else if is_reg(first, RegId::RDI) {
        Some(RegId::RBP)
    } else if is_reg(first, RegId::RBP) {
        Some(RegId::RSI)
    } else if is_reg(first, RegId::RBX) {
        Some(RegId::RDI)
    } else {
        None
    }
}

fn resolve_rip(base: Option<Register>, index: Option<Index>, size: Size) -> (r: AddressForm)
    ensures
        r == rip_form(base, index, size),
{
    match index {
        Some(i) => if is_plain_index(&i) {
            good_address(Some(i.0), None, Some(size))
        } else {
            fatal_address(AddressError::ScaledRip)
        },
        None => good_address(base, None, Some(size)),
    }
}

fn resolve_vector(base: Option<Register>, index: Option<Index>) -> (r: AddressForm)
    ensures
        r == vector_form(base, index),
{
    let complaint = if base.is_some() && index.is_some() {
        Some(AddressError::Combination)
    } else {
        None
    };
    let address = match base {
        Some(reg) => Address { base: None, index: Some((reg, 1, None)), size: None },
        None => Address { base: None, index, size: None },
    };
    AddressForm { complaint, address: Some(address) }
}

fn resolve_vsib(base: Register, index: Index, size: Size) -> (r: AddressForm)
    ensures
        r == vsib_form(base, index, size),
{
    if base.kind.family() == RegFamily::XMM {
        if is_plain_index(&index) {
            good_address(Some(index.0), Some((base, 1, None)), Some(size))
        } else {
            fatal_address(AddressError::VectorBase)
        }
    } else {
        good_address(Some(base), Some(index), Some(size))
    }
}

fn resolve_word(base: Option<Register>, index: Option<Index>) -> (r: AddressForm)
    ensures
        r == word_form(base, index),
{
    let second = match index {
        Some(i) => {
            if !is_plain_index(&i) {
                return fatal_address(AddressError::ScaledWord);
            }
            Some(i.0)
        },
        None => None,
    };
    let combined = if base.is_some() {
        combine_word_base(&base, &second)
    } else {
        combine_word_base(&second, &None)
    };
    match combined {
        Some(id) => good_address(Some(Register::new_static(Size::WORD, id)), None, Some(Size::WORD)),
        None => fatal_address(AddressError::WordCombination),
    }
}

fn resolve_normal(nosplit: bool, base: Option<Register>, index: Option<Index>, size: Size) -> (r:
    AddressForm)
    ensures
        r == normal_form(nosplit, base, index, size),
{
    let mut base = base;
    let mut index = index;
    // optimize indexes if a base is not present
    if let Some(i) = index {
        if !nosplit && base.is_none() && i.2.is_none() && (i.1 == 2 || i.1 == 3 || i.1 == 5 || i.1 == 9) {
            base = Some(i.0);
            index = Some((i.0, i.1 - 1, None));
        }
    }
    let escape = Some((Register::new_static(size, RegId::RSP), 1isize, None));
    // RSP as index field can not be represented. Check if we can swap it with base
    if let Some(i) = index {
        if i.0.kind.is(RegId::RSP) {
            if !is_reg(&base, RegId::RSP) && is_plain_index(&i) {
                return match base {
                    Some(reg) => good_address(Some(i.0), Some((reg, 1, None)), Some(size)),
                    None => good_address(Some(i.0), escape, Some(size)),
                };
            } else {
                return fatal_address(AddressError::RspIndex);
            }
        }
    }
    // RSP, R12 or a dynamic register as base without index (add an index so we escape into SIB)
    let dynamic = match base {
        Some(reg) => reg.kind.is_dynamic(),
        None => false,
    };
    if index.is_none() && (is_reg(&base, RegId::RSP) || is_reg(&base, RegId::R12) || dynamic) {
        good_address(base, escape, Some(size))
    } else {
        good_address(base, index, Some(size))
    }
}

/// The form in which the registers of a memory reference are encoded, or what is wrong with
/// them.
pub fn resolve_address(
    mode: X86Mode,
    nosplit: bool,
    base: Option<Register>,
    index: Option<Index>,
) -> (r:
    AddressForm)
    ensures
        r == address_form(mode, nosplit, base, index),
{
    reveal(address_form);
    let (decides, both, vsib) = match (base, index) {
        (None, None) => {
            return good_address(None, None, None);
        },
        (Some(b), None) => (b, false, false),
        (None, Some(i)) => (i.0, false, false),
        (Some(b), Some(i)) => {
            let f1 = b.kind.family();
            let f2 = i.0.kind.family();
            if f1 == f2 {
                if b.size != i.0.size {
                    return fatal_address(AddressError::DifferingSizes);
                }
                (b, true, false)
            } else if f1 == RegFamily::XMM {
                (i.0, true, true)
            } else if f2 == RegFamily::XMM {
                (b, true, true)
            } else {
                return fatal_address(AddressError::Combination);
            }
        },
    };
    let family = decides.kind.family();
    let size = decides.size;
    match family {
        RegFamily::RIP => if both {
            fatal_address(AddressError::Combination)
        } else {
            resolve_rip(base, index, size)
        },
        RegFamily::LEGACY => match size {
            Size::DWORD | Size::QWORD => if vsib {
                match (base, index) {
                    (Some(b), Some(i)) => resolve_vsib(b, i, size),
                    _ => fatal_address(AddressError::Combination),
                }
            } else {
                resolve_normal(nosplit, base, index, size)
            },
            Size::WORD => if mode == X86Mode::Long || vsib {
                fatal_address(AddressError::WordAddressing)
            } else {
                resolve_word(base, index)
            },
            _ => fatal_address(AddressError::RegisterType),
        },
        RegFamily::XMM => resolve_vector(base, index),
        _ => fatal_address(AddressError::RegisterType),
    }
}

/// Appending is associative.
pub proof fn concat_assoc<T>(a: Seq<T>, b: Seq<T>, c: Seq<T>)
    ensures
        (a + b) + c == a + (b + c),
{
    assert((a + b) + c =~= a + (b + c));
}

/// One report if `cond` holds, none otherwise.
pub open spec fn report_if(cond: bool, span: ErrorSpan, message: Seq<char>) -> Seq<Report> {
    if cond {
        seq![(span, message)]
    } else {
        seq![]
    }
}

/// Reports `message` at `span` if `cond` holds.
pub fn complain_if<B: BasicExprBuilder>(state: &mut B, cond: bool, span: ErrorSpan, message: &str)
    ensures
        final(state).emitted() == old(state).emitted(),
        final(state).knowledge() == old(state).knowledge(),
        final(state).reported() == old(state).reported() + report_if(cond, span, message@),
{
    if cond {
        state.emit_error_at(span, message);
        assert(state.reported() =~= old(state).reported() + report_if(cond, span, message@));
    } else {
        assert(state.reported() =~= old(state).reported() + report_if(cond, span, message@));
    }
}

/// Validates that the base/index combination can actually be encoded, brings the two into the
/// form in which they are encoded and returns the effective address size. If the address size
/// can't be determined (purely displacement, or VSIB without base), the result is `None`.
///
/// What is wrong with the registers is reported at `span`. If that is fatal, the registers
/// stay as they are.
pub fn sanitize_indirect<B: BasicExprBuilder>(
    state: &mut B,
    mode: X86Mode,
    span: ErrorSpan,
    nosplit: bool,
    base: &mut Option<Register>,
    index: &mut Option<Index>,
) -> (r: Result<Option<Size>, Error>)
    ensures
        final(state).emitted() == old(state).emitted(),
        final(state).knowledge() == old(state).knowledge(),
        ({
            let form = address_form(mode, nosplit, *old(base), *old(index));
            &&& final(state).reported() == old(state).reported() + report_if(
                form.complaint is Some,
                span,
                form.complaint.unwrap().spec_message(),
            )
            &&& match form.address {
                Some(a) => r == Ok::<Option<Size>, Error>(a.size) && *final(base) == a.base
                    && *final(index) == a.index,
                None => r matches Err(e) && e@ == ErrorView::Fatal && *final(base) == *old(base)
                    && *final(index) == *old(index),
            }
        }),
{
    let form = resolve_address(mode, nosplit, *base, *index);
    match form.complaint {
        Some(error) => {
            complain_if(state, true, span, error.message());
        },
        None => {
            complain_if(state, false, span, "");
        },
    }
    match form.address {
        Some(a) => {
            *base = a.base;
            *index = a.index;
            Ok(a.size)
        },
        None => Err(Error::Fatal),
    }
}

/// The smallest of the sizes of one, two, four and eight bytes that holds the integer `v` as
/// a signed number; eight bytes if none does.
pub open spec fn minimal_size(v: int) -> Size {
    if NumericRepr::signed_spec(Size::BYTE).holds(v) {
        Size::BYTE
    } else if NumericRepr::signed_spec(Size::WORD).holds(v) {
        Size::WORD
    } else if NumericRepr::signed_spec(Size::DWORD).holds(v) {
        Size::DWORD
    } else {
        Size::QWORD
    }
}

/// The size of a value where none is given: for a number the smallest that holds it as a
/// signed number, for an expression the size of its representation.
pub open spec fn derived_size(val: Value) -> Size {
    match val {
        Value::Expr(expr) => expr.repr.size,
        Value::Number(nr) => minimal_size(nr.as_int()),
    }
}

pub fn derive_size(val: Value) -> (r: Option<Size>)
    ensures
        r == Some(derived_size(val)),
{
    Some(
        match val {
            Value::Expr(expr) => expr.repr.size,
            Value::Number(nr) => {
                let v: i128 = nr.int_value();
                if -0x80 <= v && v <= 0x7F {
                    Size::BYTE
                } else if -0x8000 <= v && v <= 0x7FFF {
                    Size::WORD
                } else if -0x8000_0000 <= v && v <= 0x7FFF_FFFF {
                    Size::DWORD
                } else {
                    Size::QWORD
                }
            },
        },
    )
}

/// The size of the displacement of a memory reference: the one that is given, else the one
/// that the displacement has of itself, in the sizes that the address offers: one byte, or
/// two bytes in a 16 bit address and four in another.
pub open spec fn displacement_size(
    disp_size: Option<Size>,
    disp: Option<Value>,
    addr_size: Option<Size>,
) -> Option<Size> {
    match (disp_size, disp) {
        (Some(size), _) => Some(size),
        (None, Some(value)) => if derived_size(value) == Size::BYTE {
            Some(Size::BYTE)
        } else if addr_size == Some(Size::WORD) {
            Some(Size::WORD)
        } else {
            Some(Size::DWORD)
        },
        (None, None) => None,
    }
}

/// Whether the size that is given for a displacement is not one that the address offers.
pub open spec fn bad_displacement_size(disp_size: Option<Size>, addr_size: Option<Size>, word: bool) -> bool {
    disp_size matches Some(size) && (addr_size == Some(Size::WORD)) == word && size != Size::BYTE
        && size != (if word {
        Size::WORD
    } else {
        Size::DWORD
    })
}

/// What the check of a memory reference gives: the reports, and the reference with its
/// registers in the form in which they are encoded and with the size of its displacement,
/// unless the registers cannot be encoded.
pub struct MemoryCheck {
    pub reports: Seq<Report>,
    pub arg: Option<CleanArgView>,
    pub addr_size: Option<Size>,
}

/// The check of the memory reference `arg`, which is not the first of its instruction if
/// `seen` holds. See [`sanitize_indirects_and_sizes`].
#[verifier::opaque]
pub open spec fn memory_check(
    mode: X86Mode,
    span: ErrorSpan,
    arg: CleanArgView,
    seen: bool,
) -> MemoryCheck
    recommends
        arg is Indirect,
{
    match arg {
        CleanArgView::Indirect { nosplit, size, disp_size, base, index, disp } => {
            let form = address_form(mode, nosplit, base, index);
            let first = report_if(seen, span, "Multiple memory references in a single instruction"@)
                + report_if(form.complaint is Some, span, form.complaint.unwrap().spec_message());
            match form.address {
                None => MemoryCheck { reports: first, arg: None, addr_size: None },
                Some(a) => MemoryCheck {
                    reports: first + report_if(
                        a.index matches Some(i) && scale_bits(i.1 as int) is None,
                        span,
                        "Impossible scale"@,
                    ) + report_if(
                        disp_size is Some && disp is None,
                        span,
                        "Displacement size without displacement"@,
                    ) + report_if(
                        bad_displacement_size(disp_size, a.size, true),
                        span,
                        "Invalid displacement size, only BYTE or WORD are possible"@,
                    ) + report_if(
                        bad_displacement_size(disp_size, a.size, false),
                        span,
                        "Invalid displacement size, only BYTE or DWORD are possible"@,
                    ),
                    arg: Some(
                        CleanArgView::Indirect {
                            nosplit,
                            size,
                            disp_size: displacement_size(disp_size, disp, a.size),
                            base: a.base,
                            index: a.index,
                            disp,
                        },
                    ),
                    addr_size: a.size,
                },
            }
        },
        _ => MemoryCheck { reports: Seq::empty(), arg: None, addr_size: None },
    }
}

/// What the check of the operands of an instruction gives: the reports, the operands, and the
/// size of the address, unless the check failed.
pub struct Sanitization {
    pub reports: Seq<Report>,
    pub args: Seq<CleanArgView>,
    pub addr_size: Option<Option<Size>>,
}

/// The check of the operands from `from` on, after that of those before, which gave `reports`
/// and the size `addr_size` and saw a memory reference if `seen` holds.
pub open spec fn sanitization_from(
    mode: X86Mode,
    args: Seq<CleanArgView>,
    from: int,
    seen: bool,
    addr_size: Option<Size>,
    reports: Seq<Report>,
) -> Sanitization
    decreases args.len() - from,
{
    if from < 0 || from >= args.len() {
        Sanitization { reports, args, addr_size: Some(addr_size) }
    } else if args[from] is Indirect {
        let check = memory_check(mode, ErrorSpan::Argument { idx: from as usize }, args[from], seen);
        match check.arg {
            None => Sanitization { reports: reports + check.reports, args, addr_size: None },
            Some(arg) => sanitization_from(
                mode,
                args.update(from, arg),
                from + 1,
                true,
                check.addr_size,
                reports + check.reports,
            ),
        }
    } else {
        sanitization_from(mode, args, from + 1, seen, addr_size, reports)
    }
}

/// The check of the operands of an instruction: that of its memory references, in their
/// order, up to the first whose registers cannot be encoded. The size of the address is that
/// of the last memory reference.
pub open spec fn sanitization(mode: X86Mode, args: Seq<CleanArgView>) -> Sanitization {
    sanitization_from(mode, args, 0, false, None, Seq::empty())
}

/// Checks one memory reference, see [`memory_check`]. Returns the reference with its registers
/// in the form in which they are encoded and with the size of its displacement, and the
/// size of the address.
pub fn sanitize_memory<B: BasicExprBuilder>(
    state: &mut B,
    mode: X86Mode,
    span: ErrorSpan,
    arg: &CleanArg,
    seen: bool,
) -> (r: Result<(CleanArg, Option<Size>), Error>)
    requires
        arg@ is Indirect,
    ensures
        final(state).emitted() == old(state).emitted(),
        final(state).knowledge() == old(state).knowledge(),
        ({
            let check = memory_check(mode, span, arg@, seen);
            &&& final(state).reported() == old(state).reported() + check.reports
            &&& match check.arg {
                Some(a) => r matches Ok(done) && done.0@ == a && done.1 == check.addr_size,
                None => r matches Err(e) && e@ == ErrorView::Fatal,
            }
        }),
{
    reveal(memory_check);
    match arg {
        CleanArg::Indirect { nosplit, size, disp_size, base, index, disp } => {
            let ghost start = state.reported();
            let ghost form = address_form(mode, *nosplit, *base, *index);
            let ghost r1 = report_if(seen, span, "Multiple memory references in a single instruction"@);
            let ghost r2 = report_if(form.complaint is Some, span, form.complaint.unwrap().spec_message());
            complain_if(state, seen, span, "Multiple memory references in a single instruction");
            let mut base = *base;
            let mut index = *index;
            // figure out the effective address size and error on impossible combinations
            let sanitized = sanitize_indirect(state, mode, span, *nosplit, &mut base, &mut index);
            proof {
                concat_assoc(start, r1, r2);
            }
            let addr_size = match sanitized {
                Ok(addr_size) => addr_size,
                Err(e) => {
                    return Err(e);
                },
            };
            let bad_scale = match index {
                Some(i) => encode_scale(i.1).is_none(),
                None => false,
            };
            let ghost r3 = report_if(bad_scale, span, "Impossible scale"@);
            complain_if(state, bad_scale, span, "Impossible scale");
            let word = matches!(addr_size, Some(Size::WORD));
            // if specified, sanitize the displacement size. Else, derive one
            let (stray, bad_word, bad_other) = match disp_size {
                Some(given) => (
                    disp.is_none(),
                    word && *given != Size::BYTE && *given != Size::WORD,
                    !word && *given != Size::BYTE && *given != Size::DWORD,
                ),
                None => (false, false, false),
            };
            let ghost r4 = report_if(stray, span, "Displacement size without displacement"@);
            let ghost r5 = report_if(
                bad_word,
                span,
                "Invalid displacement size, only BYTE or WORD are possible"@,
            );
            let ghost r6 = report_if(
                bad_other,
                span,
                "Invalid displacement size, only BYTE or DWORD are possible"@,
            );
            complain_if(state, stray, span, "Displacement size without displacement");
            complain_if(
                state,
                bad_word,
                span,
                "Invalid displacement size, only BYTE or WORD are possible",
            );
            complain_if(
                state,
                bad_other,
                span,
                "Invalid displacement size, only BYTE or DWORD are possible",
            );
            proof {
                concat_assoc(start, r1 + r2, r3);
                concat_assoc(start, r1 + r2 + r3, r4);
                concat_assoc(start, r1 + r2 + r3 + r4, r5);
                concat_assoc(start, r1 + r2 + r3 + r4 + r5, r6);
            }
            let new_disp_size = match (disp_size, disp) {
                (Some(given), _) => Some(*given),
                (None, Some(value)) => match derive_size(*value) {
                    Some(Size::BYTE) => Some(Size::BYTE),
                    Some(_) => if word {
                        Some(Size::WORD)
                    } else {
                        Some(Size::DWORD)
                    },
                    None => None,
                },
                (None, None) => None,
            };
            Ok(
                (
                    CleanArg::Indirect {
                        nosplit: *nosplit,
                        size: *size,
                        disp_size: new_disp_size,
                        base,
                        index,
                        disp: *disp,
                    },
                    addr_size,
                ),
            )
        },
        _ => Err(Error::Fatal),
    }
}

/// Goes through the operands, checks for memory references that are impossible to encode,
/// brings their registers into the form in which they are encoded, fills in the size of
/// displacements that have none, and returns the effective address size.
///
/// Reported are, for each memory reference in turn: that it is not the first of the
/// instruction; what is wrong with its registers; that its scale cannot be encoded; that a size
/// is given for a displacement that is not there; that the size that is given for the
/// displacement is not one that the address offers. Only what is wrong with the registers
/// ends the check, with the error `Fatal`, unless it is that both are vector registers.
pub fn sanitize_indirects_and_sizes<B: BasicExprBuilder>(
    state: &mut B,
    mode: X86Mode,
    args: &mut Vec<CleanArg>,
) -> (r: Result<Option<Size>, Error>)
    ensures
        final(state).emitted() == old(state).emitted(),
        final(state).knowledge() == old(state).knowledge(),
        ({
            let done = sanitization(mode, clean_views(old(args)@));
            &&& final(state).reported() == old(state).reported() + done.reports
            &&& match done.addr_size {
                Some(size) => r == Ok::<Option<Size>, Error>(size) && clean_views(final(args)@)
                    == done.args,
                None => r matches Err(e) && e@ == ErrorView::Fatal,
            }
        }),
{
    // determine if an address size prefix is necessary, and sanitize the register choice for memoryrefs
    let mut addr_size = None;
    let mut encountered_indirect = false;
    let ghost start = state.reported();
    let ghost mut reports: Seq<Report> = Seq::empty();
    let ghost goal = sanitization(mode, clean_views(args@));
    assert(start + reports =~= start);
    let mut idx: usize = 0;
    while idx < args.len()
        invariant
            idx <= args.len(),
            state.emitted() == old(state).emitted(),
            state.knowledge() == old(state).knowledge(),
            start == old(state).reported(),
            state.reported() == start + reports,
            goal == sanitization(mode, clean_views(old(args)@)),
            goal == sanitization_from(
                mode,
                clean_views(args@),
                idx as int,
                encountered_indirect,
                addr_size,
                reports,
            ),
        decreases args.len() - idx,
    {
        let span = ErrorSpan::argument(idx);
        let ghost views = clean_views(args@);
        assert(views[idx as int] == args@[idx as int]@);
        if let CleanArg::Indirect { .. } = &args[idx] {
            let ghost check = memory_check(mode, span, views[idx as int], encountered_indirect);
            match sanitize_memory(state, mode, span, &args[idx], encountered_indirect) {
                Ok((arg, size)) => {
                    args.set(idx, arg);
                    addr_size = size;
                    encountered_indirect = true;
                    proof {
                        concat_assoc(start, reports, check.reports);
                        reports = reports + check.reports;
                        assert(clean_views(args@) =~= views.update(idx as int, check.arg.unwrap()));
                    }
                },
                Err(e) => {
                    proof {
                        concat_assoc(start, reports, check.reports);
                    }
                    return Err(e);
                },
            }
        }
        idx += 1;
    }
    Ok(addr_size)
}

/// Why the operands of an instruction cannot be sized.
#[derive(Debug, Clone, Copy, PartialEq, Eq, Structural)]
pub enum SizingError {
    /// Two operands in slots of one open size have different sizes.
    Conflict,
    /// The format has two immediates of open size.
    MultipleImmediates,
    /// The immediate is larger than the operands allow.
    ImmediateSize,
    /// No operand says what the open size is.
    UnknownSize,
    /// The format holds a size that means nothing, or an open size that nothing fills.
    Format,
}

impl SizingError {
    pub open spec fn spec_message(self) -> Seq<char> {
        match self {
            SizingError::Conflict => "Conflicting operand sizes"@,
            SizingError::MultipleImmediates => "Bad formatting data? multiple immediates with wildcard size"@,
            SizingError::ImmediateSize => "Immediate size mismatch"@,
            SizingError::UnknownSize => "Unknown operand size"@,
            SizingError::Format => "bad formatting data"@,
        }
    }

    pub fn message(self) -> (r: &'static str)
        ensures
            r@ == self.spec_message(),
    {
        match self {
            SizingError::Conflict => "Conflicting operand sizes",
            SizingError::MultipleImmediates => "Bad formatting data? multiple immediates with wildcard size",
            SizingError::ImmediateSize => "Immediate size mismatch",
            SizingError::UnknownSize => "Unknown operand size",
            SizingError::Format => "bad formatting data",
        }
    }
}

/// What the operands in the slots of open size say of that size.
#[derive(Debug, Clone, Copy, PartialEq, Eq)]
pub struct OpenSizes {
    /// The size of the operands that are no immediates.
    pub op_size: Option<Size>,
    /// The size of the immediate.
    pub im_size: Option<Size>,
    /// Whether there is an operand that is no immediate.
    pub has_arg: bool,
}

/// The size that an operand in a slot of open size has, if it has one. A memory reference
/// with a vector register as index has the size of that register.
pub open spec fn open_operand_size(arg: CleanArgView) -> Option<Size> {
    match arg {
        CleanArgView::Direct { reg } => Some(reg.size),
        CleanArgView::IndirectJumpTarget { size, .. } => size,
        CleanArgView::Indirect { size, index, .. } => if index_is_vector(index) {
            Some(index.unwrap().0.size)
        } else {
            size
        },
        CleanArgView::Immediate { value } => Some(value.spec_repr().size),
        CleanArgView::JumpTarget { size, .. } => size,
    }
}

/// What is known of the open sizes after an operand in a slot of open size has been looked
/// at.
pub open spec fn open_sizes_step(sizes: OpenSizes, arg: CleanArgView) -> Result<OpenSizes, SizingError> {
    let size = open_operand_size(arg);
    if arg is Immediate || arg is JumpTarget {
        if sizes.im_size is Some {
            Err(SizingError::MultipleImmediates)
        } else {
            Ok(OpenSizes { im_size: size, ..sizes })
        }
    } else {
        match size {
            Some(s) => if sizes.op_size is Some && sizes.op_size != Some(s) {
                Err(SizingError::Conflict)
            } else {
                Ok(OpenSizes { op_size: Some(s), has_arg: true, ..sizes })
            },
            None => Ok(OpenSizes { has_arg: true, ..sizes }),
        }
    }
}

/// What is known of the open sizes after the operands from `from` on have been looked at.
pub open spec fn open_sizes_from(
    pairs: Seq<(u8, u8)>,
    args: Seq<CleanArgView>,
    from: int,
    sizes: OpenSizes,
) -> Result<OpenSizes, SizingError>
    decreases args.len() - from,
{
    if from < 0 || from >= args.len() || from >= pairs.len() {
        Ok(sizes)
    } else if pairs[from].1 != '*' as u8 {
        open_sizes_from(pairs, args, from + 1, sizes)
    } else {
        match open_sizes_step(sizes, args[from]) {
            Ok(next) => open_sizes_from(pairs, args, from + 1, next),
            Err(e) => Err(e),
        }
    }
}

/// The sizes that fill the open slots: the operands that are no immediates agree on one, and
/// the immediate takes that size, but not more than four bytes; it may not be larger by
/// itself.
pub open spec fn open_sizes(pairs: Seq<(u8, u8)>, args: Seq<CleanArgView>) -> Result<OpenSizes, SizingError> {
    match open_sizes_from(pairs, args, 0, OpenSizes { op_size: None, im_size: None, has_arg: false }) {
        Err(e) => Err(e),
        Ok(sizes) => match sizes.op_size {
            Some(o) => {
                let limit = if o.bytes() > 4 {
                    Size::DWORD
                } else {
                    o
                };
                if sizes.im_size matches Some(i) && i.bytes() > limit.bytes() {
                    Err(SizingError::ImmediateSize)
                } else {
                    Ok(OpenSizes { im_size: Some(limit), ..sizes })
                }
            },
            None => if sizes.has_arg {
                Err(SizingError::UnknownSize)
            } else {
                Ok(sizes)
            },
        },
    }
}

/// The size of the operand in a slot, once the open sizes are known. An open slot for an
/// immediate or an instruction offset takes the size of the immediate, which is at most four
/// bytes where the operands give it; another open slot takes the size of the operands.
/// Memory that is indexed by a vector register has the size of its elements, whatever the
/// size code: `k` four bytes and `l` eight, unless the size code is `b` or `w`.
pub open spec fn slot_final_size(fsize: u8, code: u8, sizes: OpenSizes) -> Option<Size> {
    if fsize == 'b' as u8 {
        Some(Size::BYTE)
    } else if fsize == 'w' as u8 {
        Some(Size::WORD)
    } else if code == 'k' as u8 || fsize == 'd' as u8 {
        Some(Size::DWORD)
    } else if code == 'l' as u8 || fsize == 'q' as u8 {
        Some(Size::QWORD)
    } else if fsize == 'f' as u8 {
        Some(Size::FWORD)
    } else if fsize == 'p' as u8 {
        Some(Size::PWORD)
    } else if fsize == 'o' as u8 {
        Some(Size::OWORD)
    } else if fsize == 'h' as u8 {
        Some(Size::HWORD)
    } else if fsize == '*' as u8 {
        if code == 'i' as u8 || code == 'o' as u8 {
            sizes.im_size
        } else {
            sizes.op_size
        }
    } else if fsize == '!' as u8 {
        Some(Size::BYTE)
    } else {
        None
    }
}

/// An operand with the size of its slot: a jump target and an immediate take it; a
/// register has its own, and that of memory is not encoded.
pub open spec fn sized_arg(arg: CleanArgView, size: Size) -> SizedArgView {
    match arg {
        CleanArgView::Direct { reg } => SizedArgView::Direct { reg },
        CleanArgView::JumpTarget { jump, .. } => SizedArgView::JumpTarget { jump, size },
        CleanArgView::IndirectJumpTarget { jump, .. } => SizedArgView::IndirectJumpTarget { jump },
        CleanArgView::Immediate { value } => SizedArgView::Immediate { value: value.spec_resize(size) },
        CleanArgView::Indirect { disp_size, base, index, disp, .. } => SizedArgView::Indirect {
            disp_size,
            base,
            index,
            disp,
        },
    }
}

/// The number of operands that have a slot.
pub open spec fn slotted(pairs: Seq<(u8, u8)>, args: Seq<CleanArgView>) -> int {
    if pairs.len() < args.len() {
        pairs.len() as int
    } else {
        args.len() as int
    }
}

/// The size of the operands that are no immediates, and the operands with the sizes of their
/// slots: those of them that have a slot.
pub open spec fn operand_sizing(fmt: OpdataView, args: Seq<CleanArgView>) -> Result<
    (Option<Size>, Seq<SizedArgView>),
    SizingError,
> {
    let pairs = format_pairs(fmt.args);
    match open_sizes(pairs, args) {
        Err(e) => Err(e),
        Ok(sizes) => if forall|i: int|
            0 <= i < slotted(pairs, args) ==> (#[trigger] slot_final_size(
                pairs[i].1,
                pairs[i].0,
                sizes,
            )) is Some {
            Ok(
                (
                    sizes.op_size,
                    Seq::new(
                        slotted(pairs, args) as nat,
                        |i: int|
                            sized_arg(args[i], slot_final_size(pairs[i].1, pairs[i].0, sizes).unwrap()),
                    ),
                ),
            )
        } else {
            Err(SizingError::Format)
        },
    }
}

/// The size that an operand in a slot of open size has, if it has one.
pub fn open_size_of(arg: &CleanArg) -> (r: Option<Size>)
    ensures
        r == open_operand_size(arg@),
{
    match arg {
        CleanArg::Direct { reg } => Some(reg.size),
        CleanArg::IndirectJumpTarget { size, .. } => *size,
        CleanArg::Indirect { size, index, .. } => match index {
            Some(i) => if i.0.kind.family() == RegFamily::XMM {
                Some(i.0.size)
            } else {
                *size
            },
            None => *size,
        },
        CleanArg::Immediate { value } => Some(value.size()),
        CleanArg::JumpTarget { size, .. } => *size,
    }
}

/// The sizes that fill the open slots.
pub fn find_open_sizes(
    pairs: &Vec<(u8, u8)>,
    args: &Vec<CleanArg>,
) -> (r: Result<OpenSizes, SizingError>)
    ensures
        r == open_sizes(pairs@, clean_views(args@)),
{
    let mut sizes = OpenSizes { op_size: None, im_size: None, has_arg: false };
    let ghost views = clean_views(args@);
    let ghost start = sizes;
    let mut i: usize = 0;
    // operand size determination loop
    while i < args.len() && i < pairs.len()
        invariant
            i <= args.len(),
            i <= pairs.len(),
            views == clean_views(args@),
            start == (OpenSizes { op_size: None, im_size: None, has_arg: false }),
            open_sizes_from(pairs@, views, 0, start) == open_sizes_from(pairs@, views, i as int, sizes),
        decreases args.len() - i,
    {
        assert(views[i as int] == args@[i as int]@);
        if pairs[i].1 == '*' as u8 {
            let size = open_size_of(&args[i]);
            match &args[i] {
                CleanArg::Immediate { .. } | CleanArg::JumpTarget { .. } => {
                    if sizes.im_size.is_some() {
                        return Err(SizingError::MultipleImmediates);
                    }
                    sizes.im_size = size;
                },
                _ => {
                    sizes.has_arg = true;
                    if let Some(s) = size {
                        if let Some(known) = sizes.op_size {
                            if known != s {
                                return Err(SizingError::Conflict);
                            }
                        }
                        sizes.op_size = Some(s);
                    }
                },
            }
        }
        i += 1;
    }
    match sizes.op_size {
        Some(o) => {
            let limit = if o.in_bytes() > 4 {
                Size::DWORD
            } else {
                o
            };
            if let Some(i) = sizes.im_size {
                if i.in_bytes() > limit.in_bytes() {
                    return Err(SizingError::ImmediateSize);
                }
            }
            sizes.im_size = Some(limit);
            Ok(sizes)
        },
        None => if sizes.has_arg {
            Err(SizingError::UnknownSize)
        } else {
            Ok(sizes)
        },
    }
}

/// The size of the operand in a slot, once the open sizes are known.
pub fn final_size(fsize: u8, code: u8, sizes: &OpenSizes) -> (r: Option<Size>)
    ensures
        r == slot_final_size(fsize, code, *sizes),
{
    if fsize == 'b' as u8 {
        Some(Size::BYTE)
    } else if fsize == 'w' as u8 {
        Some(Size::WORD)
    } else if code == 'k' as u8 || fsize == 'd' as u8 {
        Some(Size::DWORD)
    } else if code == 'l' as u8 || fsize == 'q' as u8 {
        Some(Size::QWORD)
    } else if fsize == 'f' as u8 {
        Some(Size::FWORD)
    } else if fsize == 'p' as u8 {
        Some(Size::PWORD)
    } else if fsize == 'o' as u8 {
        Some(Size::OWORD)
    } else if fsize == 'h' as u8 {
        Some(Size::HWORD)
    } else if fsize == '*' as u8 {
        if code == 'i' as u8 || code == 'o' as u8 {
            sizes.im_size
        } else {
            sizes.op_size
        }
    } else if fsize == '!' as u8 {
        Some(Size::BYTE)
    } else {
        None
    }
}

/// An operand with the size of its slot.
pub fn with_size(arg: CleanArg, size: Size) -> (r: SizedArg)
    ensures
        r@ == sized_arg(arg@, size),
{
    match arg {
        CleanArg::Direct { reg } => SizedArg::Direct { reg },
        CleanArg::JumpTarget { jump, .. } => SizedArg::JumpTarget { jump, size },
        CleanArg::IndirectJumpTarget { jump, .. } => SizedArg::IndirectJumpTarget { jump },
        CleanArg::Immediate { value } => SizedArg::Immediate { value: value.resize(size) },
        CleanArg::Indirect { disp_size, base, index, disp, .. } => SizedArg::Indirect {
            disp_size,
            base,
            index,
            disp,
        },
    }
}

/// Fills in the sizes from the format to create the final operands, in two passes: the
/// first determines the sizes that fill the open slots, the second gives each operand the size
/// of its slot. Returns the size of the operands that are no immediates along with the
/// operands.
pub fn size_operands(
    fmt: &Opdata,
    args: Vec<CleanArg>,
) -> (r: Result<(Option<Size>, Vec<SizedArg>), Error>)
    ensures
        match operand_sizing(fmt@, clean_views(args@)) {
            Ok(sizing) => r matches Ok(done) && done.0 == sizing.0 && sized_views(done.1@) == sizing.1,
            Err(e) => r matches Err(err) && err@ == (ErrorView::Generic { message: e.spec_message() }),
        },
{
    let pairs = read_format(fmt.args.as_slice());
    let sizes = match find_open_sizes(&pairs, &args) {
        Ok(sizes) => sizes,
        Err(e) => {
            return Err(Error::generic(e.message()));
        },
    };
    let ghost views = clean_views(args@);
    let ghost n = slotted(pairs@, views);
    let mut left = args;
    let mut new_args: Vec<SizedArg> = Vec::new();
    let mut i: usize = 0;
    while left.len() > 0 && i < pairs.len()
        invariant
            i <= pairs.len(),
            i <= n,
            n == slotted(pairs@, views),
            pairs@ == format_pairs(fmt@.args),
            open_sizes(pairs@, views) == Ok::<OpenSizes, SizingError>(sizes),
            views == clean_views(args@),
            views.len() == i + left.len(),
            clean_views(left@) == views.skip(i as int),
            new_args@.len() == i,
            forall|j: int|
                0 <= j < i ==> (#[trigger] slot_final_size(pairs@[j].1, pairs@[j].0, sizes)) is Some,
            forall|j: int|
                0 <= j < i ==> (#[trigger] new_args@[j])@ == sized_arg(
                    views[j],
                    slot_final_size(pairs@[j].1, pairs@[j].0, sizes).unwrap(),
                ),
        decreases left.len(),
    {
        let ghost before = clean_views(left@);
        let ghost rest = left@;
        assert(before[0] == left@[0]@);
        let arg = left.remove(0);
        assert forall|j: int| 0 <= j < left@.len() implies clean_views(left@)[j] == views.skip(
            i + 1,
        )[j] by {
            assert(before[j + 1] == rest[j + 1]@);
        }
        assert(clean_views(left@) =~= views.skip(i + 1));
        let (code, fsize) = pairs[i];
        // get the specified operand size from the format string
        let size = match final_size(fsize, code, &sizes) {
            Some(size) => size,
            None => {
                assert(slot_final_size(pairs@[i as int].1, pairs@[i as int].0, sizes) is None);
                return Err(Error::generic(SizingError::Format.message()));
            },
        };
        new_args.push(with_size(arg, size));
        i += 1;
    }
    assert(i == n);
    assert(sized_views(new_args@) =~= operand_sizing(fmt@, views).unwrap().1);
    Ok((sizes.op_size, new_args))
}

/// What a prefix that is written before a mnemonic stands for.
#[derive(Debug, Clone, Copy, PartialEq, Eq, Structural)]
pub enum PrefixKind {
    /// A prefix of the first group (rep, repe, repne, lock) that the format allows, with its
    /// byte.
    Group1(u8),
    /// A prefix of the second group (a segment override), with its byte.
    Group2(u8),
    /// A prefix of the first group that the format does not allow.
    Refused,
    /// No prefix.
    Unknown,
}

/// What the prefix `name` stands for with an entry that has the flags `flags`.
pub open spec fn prefix_kind(name: Seq<char>, flags: Flags) -> PrefixKind {
    if name == "rep"@ {
        if flags.spec_contains(Flags::REP) {
            PrefixKind::Group1(0xF3)
        } else {
            PrefixKind::Refused
        }
    } else if name == "repe"@ || name == "repz"@ {
        if flags.spec_contains(Flags::REPE) {
            PrefixKind::Group1(0xF3)
        } else {
            PrefixKind::Refused
        }
    } else if name == "repnz"@ || name == "repne"@ {
        if flags.spec_contains(Flags::REP) {
            PrefixKind::Group1(0xF2)
        } else {
            PrefixKind::Refused
        }
    } else if name == "lock"@ {
        if flags.spec_contains(Flags::LOCK) {
            PrefixKind::Group1(0xF0)
        } else {
            PrefixKind::Refused
        }
    } else if name == "ss"@ {
        PrefixKind::Group2(0x36)
    } else if name == "cs"@ {
        PrefixKind::Group2(0x2E)
    } else if name == "ds"@ {
        PrefixKind::Group2(0x3E)
    } else if name == "es"@ {
        PrefixKind::Group2(0x26)
    } else if name == "fs"@ {
        PrefixKind::Group2(0x64)
    } else if name == "gs"@ {
        PrefixKind::Group2(0x65)
    } else {
        PrefixKind::Unknown
    }
}

/// What the prefix `name` stands for with an entry that has the flags `flags`.
pub fn classify_prefix(name: &str, flags: Flags) -> (r: PrefixKind)
    ensures
        r == prefix_kind(name@, flags),
{
    if str_eq(name, "rep") {
        if flags.contains(Flags::REP) {
            PrefixKind::Group1(0xF3)
        } else {
            PrefixKind::Refused
        }
    } else if str_eq(name, "repe") || str_eq(name, "repz") {
        if flags.contains(Flags::REPE) {
            PrefixKind::Group1(0xF3)
        } else {
            PrefixKind::Refused
        }
    } else if str_eq(name, "repnz") || str_eq(name, "repne") {
        if flags.contains(Flags::REP) {
            PrefixKind::Group1(0xF2)
        } else {
            PrefixKind::Refused
        }
    } else if str_eq(name, "lock") {
        if flags.contains(Flags::LOCK) {
            PrefixKind::Group1(0xF0)
        } else {
            PrefixKind::Refused
        }
    } else if str_eq(name, "ss") {
        PrefixKind::Group2(0x36)
    } else if str_eq(name, "cs") {
        PrefixKind::Group2(0x2E)
    } else if str_eq(name, "ds") {
        PrefixKind::Group2(0x3E)
    } else if str_eq(name, "es") {
        PrefixKind::Group2(0x26)
    } else if str_eq(name, "fs") {
        PrefixKind::Group2(0x64)
    } else if str_eq(name, "gs") {
        PrefixKind::Group2(0x65)
    } else {
        PrefixKind::Unknown
    }
}

/// The report for a prefix that a format does not allow.
pub open spec fn refused_prefix_message(name: Seq<char>) -> Seq<char> {
    "Cannot use prefix "@ + name + " on this instruction"@
}

/// What becomes of the prefixes of an instruction: the report, if there is one, and the bytes
/// of the two groups, or the error.
pub struct Prefixes {
    pub report: Option<Report>,
    pub groups: Result<(Option<u8>, Option<u8>), ErrorView>,
}

/// What becomes of the prefixes from `from` on, where those before gave the bytes `group1` and
/// `group2`.
pub open spec fn prefixes_from(
    flags: Flags,
    names: Seq<Seq<char>>,
    from: int,
    group1: Option<u8>,
    group2: Option<u8>,
) -> Prefixes
    decreases names.len() - from,
{
    if from < 0 || from >= names.len() {
        Prefixes { report: None, groups: Ok((group1, group2)) }
    } else {
        let span = ErrorSpan::InstructionPart { idx: from as usize };
        let duplicate = Prefixes {
            report: Some((span, "Duplicate prefix group"@)),
            groups: Err(ErrorView::Fatal),
        };
        match prefix_kind(names[from], flags) {
            PrefixKind::Group1(byte) => if group1 is Some {
                duplicate
            } else {
                prefixes_from(flags, names, from + 1, Some(byte), group2)
            },
            PrefixKind::Group2(byte) => if group2 is Some {
                duplicate
            } else {
                prefixes_from(flags, names, from + 1, group1, Some(byte))
            },
            PrefixKind::Refused => Prefixes {
                report: Some((span, refused_prefix_message(names[from]))),
                groups: Err(ErrorView::Fatal),
            },
            PrefixKind::Unknown => Prefixes {
                report: None,
                groups: Err(ErrorView::Generic { message: "unimplemented prefix"@ }),
            },
        }
    }
}

/// What becomes of the prefixes of an instruction, which are taken in their order: each of
/// rep, repe, repz, repne, repnz and lock has to be allowed by the flags of the entry, and
/// gives the byte of the first group; each segment gives the byte of the second group; no
/// group is given twice. What breaks these rules is reported at the prefix and is fatal; a
/// name that is no prefix is an error.
pub open spec fn legacy_prefixes(flags: Flags, names: Seq<Seq<char>>) -> Prefixes {
    prefixes_from(flags, names, 0, None, None)
}

/// The reports of an optional report.
pub open spec fn reports_of(report: Option<Report>) -> Seq<Report> {
    match report {
        Some(r) => seq![r],
        None => seq![],
    }
}

/// Determines the bytes of the prefixes that are written before the mnemonic, see
/// [`legacy_prefixes`].
pub fn get_legacy_prefixes<B: BasicExprBuilder>(
    state: &mut B,
    fmt: &Opdata,
    idents: &Vec<Ident>,
) -> (r:
    Result<(Option<u8>, Option<u8>), Error>)
    ensures
        final(state).emitted() == old(state).emitted(),
        final(state).knowledge() == old(state).knowledge(),
        ({
            let done = legacy_prefixes(fmt@.flags, ident_views(idents@));
            &&& final(state).reported() == old(state).reported() + reports_of(done.report)
            &&& match done.groups {
                Ok(groups) => r == Ok::<(Option<u8>, Option<u8>), Error>(groups),
                Err(e) => r matches Err(err) && err@ == e,
            }
        }),
{
    let mut group1: Option<u8> = None;
    let mut group2: Option<u8> = None;
    let ghost names = ident_views(idents@);
    let mut idx: usize = 0;
    while idx < idents.len()
        invariant
            idx <= idents.len(),
            names == ident_views(idents@),
            state.emitted() == old(state).emitted(),
            state.knowledge() == old(state).knowledge(),
            state.reported() == old(state).reported(),
            legacy_prefixes(fmt@.flags, names) == prefixes_from(
                fmt@.flags,
                names,
                idx as int,
                group1,
                group2,
            ),
        decreases idents.len() - idx,
    {
        let span = ErrorSpan::instruction_part(idx);
        let prefix = &idents[idx];
        assert(names[idx as int] == prefix@);
        match classify_prefix(prefix.name.as_str(), fmt.flags) {
            PrefixKind::Group1(byte) => {
                if group1.is_some() {
                    state.emit_error_at(span, "Duplicate prefix group");
                    assert(state.reported() =~= old(state).reported() + seq![
                        (span, "Duplicate prefix group"@),
                    ]);
                    return Err(Error::Fatal);
                }
                group1 = Some(byte);
            },
            PrefixKind::Group2(byte) => {
                if group2.is_some() {
                    state.emit_error_at(span, "Duplicate prefix group");
                    assert(state.reported() =~= old(state).reported() + seq![
                        (span, "Duplicate prefix group"@),
                    ]);
                    return Err(Error::Fatal);
                }
                group2 = Some(byte);
            },
            PrefixKind::Refused => {
                let mut message = String::from_str("Cannot use prefix ");
                message.append(prefix.name.as_str());
                message.append(" on this instruction");
                state.emit_error_at(span, message.as_str());
                assert(state.reported() =~= old(state).reported() + seq![
                    (span, refused_prefix_message(prefix@)),
                ]);
                return Err(Error::Fatal);
            },
            PrefixKind::Unknown => {
                assert(state.reported() =~= old(state).reported() + Seq::<Report>::empty());
                return Err(Error::generic("unimplemented prefix"));
            },
        }
        idx += 1;
    }
    assert(state.reported() =~= old(state).reported() + Seq::<Report>::empty());
    Ok((group1, group2))
}

/// Whether addresses of `addr_size` take the address size prefix in a mode: they do if they
/// are half as wide as the mode. `None` if the mode has no such addresses.
pub open spec fn address_prefix(mode: X86Mode, addr_size: Size) -> Option<bool> {
    match (mode, addr_size) {
        (X86Mode::Long, Size::QWORD) => Some(false),
        (X86Mode::Long, Size::DWORD) => Some(true),
        (X86Mode::Protected, Size::DWORD) => Some(false),
        (X86Mode::Protected, Size::WORD) => Some(true),
        _ => None,
    }
}

/// The size of addresses if no register says otherwise.
pub open spec fn default_address_size(mode: X86Mode) -> Size {
    match mode {
        X86Mode::Long => Size::QWORD,
        X86Mode::Protected => Size::DWORD,
    }
}

/// Whether addresses of `addr_size` take the address size prefix in a mode.
pub fn needs_address_prefix(mode: X86Mode, addr_size: Size) -> (r: Option<bool>)
    ensures
        r == address_prefix(mode, addr_size),
{
    match (mode, addr_size) {
        (X86Mode::Long, Size::QWORD) => Some(false),
        (X86Mode::Long, Size::DWORD) => Some(true),
        (X86Mode::Protected, Size::DWORD) => Some(false),
        (X86Mode::Protected, Size::WORD) => Some(true),
        _ => None,
    }
}

/// How the size of the operands is encoded.
#[derive(Debug, Clone, Copy, PartialEq, Eq, Structural)]
pub struct SizePrefixes {
    /// The operand size prefix is needed.
    pub pref_size: bool,
    /// The bit for 64 bit operands is set.
    pub rex_w: bool,
    /// The bit for 256 bit vectors is set.
    pub vex_l: bool,
}

/// Why the size of the operands cannot be encoded.
#[derive(Debug, Clone, Copy, PartialEq, Eq, Structural)]
pub enum SizePrefixError {
    /// The mode has no operands of this size; the hint names the mode that has.
    Unsupported { op_size: Size, mode_hint: Option<X86Mode> },
    /// The entry asks for a size that its format does not give.
    Format,
}

/// How the size `op_size` of the operands is encoded with an entry that has the flags
/// `flags`.
///
/// One of four flags says how the size varies. `AUTO_SIZE`: two bytes take the operand size
/// prefix, four bytes nothing, eight bytes the bit for 64 bit operands. `AUTO_NO32`: two bytes
/// take the operand size prefix, the size of the mode nothing, and four bytes cannot be had
/// in 64-bit mode. `AUTO_REXW`: four bytes take nothing, eight bytes the bit for 64 bit
/// operands. `AUTO_VEXL`: sixteen bytes take nothing, thirty-two the bit for 256 bit
/// vectors. With any of them, eight bytes cannot be had in 32-bit mode. The flags
/// `WORD_SIZE`, `WITH_REXW` and `WITH_VEXL` ask for the three in any case.
pub open spec fn size_prefixes(flags: Flags, op_size: Option<Size>, mode: X86Mode) -> Result<
    SizePrefixes,
    SizePrefixError,
> {
    let none = SizePrefixes { pref_size: false, rex_w: false, vex_l: false };
    let auto = if !flags.spec_intersects(
        Flags::AUTO_SIZE | Flags::AUTO_NO32 | Flags::AUTO_REXW | Flags::AUTO_VEXL,
    ) {
        Ok(none)
    } else if op_size is None {
        Err(SizePrefixError::Format)
    } else {
        let size = op_size.unwrap();
        if mode == X86Mode::Protected && size == Size::QWORD {
            Err(SizePrefixError::Unsupported { op_size: size, mode_hint: Some(X86Mode::Long) })
        } else if flags.spec_contains(Flags::AUTO_NO32) {
            if size == Size::WORD {
                Ok(SizePrefixes { pref_size: true, ..none })
            } else if size == Size::QWORD && mode == X86Mode::Long {
                Ok(none)
            } else if size == Size::DWORD && mode == X86Mode::Protected {
                Ok(none)
            } else if size == Size::DWORD && mode == X86Mode::Long {
                Err(SizePrefixError::Unsupported { op_size: size, mode_hint: Some(X86Mode::Protected) })
            } else {
                Err(SizePrefixError::Format)
            }
        } else if flags.spec_contains(Flags::AUTO_REXW) {
            if size == Size::QWORD {
                Ok(SizePrefixes { rex_w: true, ..none })
            } else if size == Size::DWORD {
                Ok(none)
            } else {
                Err(SizePrefixError::Unsupported { op_size: size, mode_hint: None })
            }
        } else if flags.spec_contains(Flags::AUTO_VEXL) {
            if size == Size::HWORD {
                Ok(SizePrefixes { vex_l: true, ..none })
            } else if size == Size::OWORD {
                Ok(none)
            } else {
                Err(SizePrefixError::Format)
            }
        } else if size == Size::WORD {
            Ok(SizePrefixes { pref_size: true, ..none })
        } else if size == Size::QWORD {
            Ok(SizePrefixes { rex_w: true, ..none })
        } else if size == Size::DWORD {
            Ok(none)
        } else {
            Err(SizePrefixError::Format)
        }
    };
    match auto {
        Err(e) => Err(e),
        Ok(found) => Ok(
            SizePrefixes {
                pref_size: found.pref_size || flags.spec_contains(Flags::WORD_SIZE),
                rex_w: found.rex_w || flags.spec_contains(Flags::WITH_REXW),
                vex_l: found.vex_l || flags.spec_contains(Flags::WITH_VEXL),
            },
        ),
    }
}

/// How the size `op_size` of the operands is encoded with an entry that has the flags
/// `flags`.
pub fn find_size_prefixes(flags: Flags, op_size: Option<Size>, mode: X86Mode) -> (r: Result<
    SizePrefixes,
    SizePrefixError,
>)
    ensures
        r == size_prefixes(flags, op_size, mode),
{
    let mut found = SizePrefixes { pref_size: false, rex_w: false, vex_l: false };
    if flags.intersects(Flags::AUTO_SIZE | Flags::AUTO_NO32 | Flags::AUTO_REXW | Flags::AUTO_VEXL) {
        // if any of these flags are true an operand size should've been calculated
        let size = match op_size {
            Some(size) => size,
            None => {
                return Err(SizePrefixError::Format);
            },
        };
        if mode == X86Mode::Protected && size == Size::QWORD {
            return Err(SizePrefixError::Unsupported { op_size: size, mode_hint: Some(X86Mode::Long) });
        }
        if flags.contains(Flags::AUTO_NO32) {
            if size == Size::WORD {
                found.pref_size = true;
            } else if size == Size::QWORD && mode == X86Mode::Long {
            } else if size == Size::DWORD && mode == X86Mode::Protected {
            } else if size == Size::DWORD && mode == X86Mode::Long {
                return Err(
                    SizePrefixError::Unsupported { op_size: size, mode_hint: Some(X86Mode::Protected) },
                );
            } else {
                return Err(SizePrefixError::Format);
            }
        } else if flags.contains(Flags::AUTO_REXW) {
            if size == Size::QWORD {
                found.rex_w = true;
            } else if size != Size::DWORD {
                return Err(SizePrefixError::Unsupported { op_size: size, mode_hint: None });
            }
        } else if flags.contains(Flags::AUTO_VEXL) {
            if size == Size::HWORD {
                found.vex_l = true;
            } else if size != Size::OWORD {
                return Err(SizePrefixError::Format);
            }
        } else if size == Size::WORD {
            found.pref_size = true;
        } else if size == Size::QWORD {
            found.rex_w = true;
        } else if size != Size::DWORD {
            return Err(SizePrefixError::Format);
        }
    }
    // mandatory prefixes
    Ok(
        SizePrefixes {
            pref_size: found.pref_size || flags.contains(Flags::WORD_SIZE),
            rex_w: found.rex_w || flags.contains(Flags::WITH_REXW),
            vex_l: found.vex_l || flags.contains(Flags::WITH_VEXL),
        },
    )
}

/// Whether the operand in a slot of kind `code` is encoded: the kinds that stand for one
/// register only are not.
pub open spec fn is_encoded(code: u8) -> bool {
    'a' as u8 <= code <= 'z' as u8
}

/// Whether a register is one of the upper eight of its family, and known to be.
pub open spec fn known_extended(kind: RegKind) -> bool {
    !kind.spec_is_dynamic() && kind.spec_is_extended()
}

/// Whether a register of one byte has the code of one of the high byte registers: spl, bpl,
/// sil and dil collide with ah, ch, dh and bh.
pub open spec fn collides_with_high_byte(reg: Register) -> bool {
    reg.size == Size::BYTE && (reg.kind.spec_is(RegId::RSP) || reg.kind.spec_is(RegId::RBP)
        || reg.kind.spec_is(RegId::RSI) || reg.kind.spec_is(RegId::RDI))
}

/// What an operand can mean for the REX prefix.
#[derive(Debug, Clone, Copy, PartialEq, Eq, Structural)]
pub enum RexTrait {
    /// The operand takes a REX prefix in 64-bit mode: it is or holds a register that is
    /// extended or may be, or a register of one byte that collides with a high byte register.
    Wants,
    /// The operand cannot be encoded with a REX prefix: it is a high byte register.
    Forbids,
    /// The operand cannot be encoded without a REX prefix, whatever the caller selects.
    Beyond,
}

/// Whether an operand has a trait.
pub open spec fn has_rex_trait(arg: SizedArgView, t: RexTrait) -> bool {
    match arg {
        SizedArgView::Direct { reg } => {
            let high = reg.kind.spec_family() == RegFamily::HIGHBYTE;
            match t {
                RexTrait::Forbids => high,
                RexTrait::Wants => !high && (reg.kind.spec_is_extended() || collides_with_high_byte(reg)),
                RexTrait::Beyond => !high && (known_extended(reg.kind) || collides_with_high_byte(reg)),
            }
        },
        SizedArgView::Indirect { base, index, .. } => match t {
            RexTrait::Forbids => false,
            RexTrait::Wants => (base matches Some(b) && b.kind.spec_is_extended()) || (index matches Some(
                i,
            ) && i.0.kind.spec_is_extended()),
            RexTrait::Beyond => (base matches Some(b) && known_extended(b.kind)) || (index matches Some(
                i,
            ) && known_extended(i.0.kind)),
        },
        _ => false,
    }
}

/// Whether the operand in slot `i` is encoded and has a trait.
pub open spec fn encoded_has(pairs: Seq<(u8, u8)>, args: Seq<SizedArgView>, i: int, t: RexTrait) -> bool {
    is_encoded(pairs[i].0) && has_rex_trait(args[i], t)
}

/// Whether one of the first `n` operands is encoded and has a trait.
pub open spec fn any_encoded_has(pairs: Seq<(u8, u8)>, args: Seq<SizedArgView>, n: int, t: RexTrait) -> bool {
    exists|i: int| 0 <= i < n && i < pairs.len() && i < args.len() && #[trigger] encoded_has(pairs, args, i, t)
}

/// Why the operands cannot be encoded with what there is of a REX prefix.
#[derive(Debug, Clone, Copy, PartialEq, Eq, Structural)]
pub enum RexError {
    /// 32-bit mode has no operands of 64 bits.
    WideOperand,
    /// 32-bit mode has no extended registers.
    ExtendedRegister,
    /// A high byte register stands beside what takes a REX prefix.
    HighByte,
}

impl RexError {
    /// The error that is returned for it.
    pub open spec fn error(self) -> ErrorView {
        match self {
            RexError::WideOperand => ErrorView::UnsupportedInThisMode {
                message: "Does not support 64 bit operand size in 32-bit mode"@,
                mode_hint: Some(X86Mode::Long),
            },
            RexError::ExtendedRegister => ErrorView::UnsupportedInThisMode {
                message: "Does not support extended registers in 32-bit mode"@,
                mode_hint: Some(X86Mode::Long),
            },
            RexError::HighByte => ErrorView::Generic {
                message: "High byte register combined with extended registers or 64-bit operand size"@,
            },
        }
    }

    pub fn to_error(self) -> (r: Error)
        ensures
            r@ == self.error(),
    {
        match self {
            RexError::WideOperand => Error::UnsupportedInThisMode {
                message: String::from_str("Does not support 64 bit operand size in 32-bit mode"),
                mode_hint: Some(X86Mode::Long),
            },
            RexError::ExtendedRegister => Error::UnsupportedInThisMode {
                message: String::from_str("Does not support extended registers in 32-bit mode"),
                mode_hint: Some(X86Mode::Long),
            },
            RexError::HighByte => Error::generic(
                "High byte register combined with extended registers or 64-bit operand size",
            ),
        }
    }
}

/// Whether the operands take a REX prefix, or why they cannot be encoded.
///
/// In 64-bit mode the prefix is taken if the operands have 64 bits or one that is encoded
/// wants it; a high byte register beside that is an error. 32-bit mode has no such prefix:
/// operands of 64 bits are an error there, and so is an operand that cannot do without the
/// prefix, unless the instruction has a VEX or XOP prefix, which leaves out what it cannot
/// hold.
pub open spec fn rex_need(
    mode: X86Mode,
    fmt: OpdataView,
    args: Seq<SizedArgView>,
    rex_w: bool,
) -> Result<
    bool,
    RexError,
> {
    let pairs = format_pairs(fmt.args);
    let n = args.len() as int;
    match mode {
        X86Mode::Protected => if rex_w {
            Err(RexError::WideOperand)
        } else if !fmt.flags.spec_intersects(Flags::VEX_OP | Flags::XOP_OP) && any_encoded_has(
            pairs,
            args,
            n,
            RexTrait::Beyond,
        ) {
            Err(RexError::ExtendedRegister)
        } else {
            Ok(false)
        },
        X86Mode::Long => {
            let requires_rex = rex_w || any_encoded_has(pairs, args, n, RexTrait::Wants);
            if requires_rex && any_encoded_has(pairs, args, n, RexTrait::Forbids) {
                Err(RexError::HighByte)
            } else {
                Ok(requires_rex)
            }
        },
    }
}

/// Whether a register of one byte has the code of one of the high byte registers.
pub fn is_low_byte_collision(reg: &Register) -> (r: bool)
    ensures
        r == collides_with_high_byte(*reg),
{
    reg.size == Size::BYTE && (reg.kind.is(RegId::RSP) || reg.kind.is(RegId::RBP) || reg.kind.is(
        RegId::RSI,
    ) || reg.kind.is(RegId::RDI))
}

/// Whether an operand wants a REX prefix, forbids it, and cannot do without it.
pub fn rex_traits(arg: &SizedArg) -> (r: (bool, bool, bool))
    ensures
        r.0 == has_rex_trait(arg@, RexTrait::Wants),
        r.1 == has_rex_trait(arg@, RexTrait::Forbids),
        r.2 == has_rex_trait(arg@, RexTrait::Beyond),
{
    match arg {
        SizedArg::Direct { reg } => {
            if reg.kind.family() == RegFamily::HIGHBYTE {
                (false, true, false)
            } else {
                let collides = is_low_byte_collision(reg);
                let extended = reg.kind.is_extended();
                (extended || collides, false, (extended && !reg.kind.is_dynamic()) || collides)
            }
        },
        SizedArg::Indirect { base, index, .. } => {
            let (base_wants, base_beyond) = match base {
                Some(b) => (b.kind.is_extended(), b.kind.is_extended() && !b.kind.is_dynamic()),
                None => (false, false),
            };
            let (index_wants, index_beyond) = match index {
                Some(i) => (i.0.kind.is_extended(), i.0.kind.is_extended() && !i.0.kind.is_dynamic()),
                None => (false, false),
            };
            (base_wants || index_wants, false, base_beyond || index_beyond)
        },
        _ => (false, false, false),
    }
}

/// Performs the checks for operand combinations that cannot be encoded, and says whether a
/// REX prefix is needed, see [`rex_need`].
pub fn check_rex(
    mode: X86Mode,
    fmt: &Opdata,
    args: &Vec<SizedArg>,
    rex_w: bool,
) -> (r: Result<bool, Error>)
    ensures
        match rex_need(mode, fmt@, sized_views(args@), rex_w) {
            Ok(need) => r == Ok::<bool, Error>(need),
            Err(e) => r matches Err(err) && err@ == e.error(),
        },
{
    let pairs = read_format(fmt.args.as_slice());
    let ghost views = sized_views(args@);
    let mut wants = false;
    let mut forbids = false;
    let mut beyond = false;
    let mut i: usize = 0;
    while i < args.len()
        invariant
            i <= args.len(),
            views == sized_views(args@),
            pairs@ == format_pairs(fmt@.args),
            wants == any_encoded_has(pairs@, views, i as int, RexTrait::Wants),
            forbids == any_encoded_has(pairs@, views, i as int, RexTrait::Forbids),
            beyond == any_encoded_has(pairs@, views, i as int, RexTrait::Beyond),
        decreases args.len() - i,
    {
        assert(views[i as int] == args@[i as int]@);
        // only scan args that are actually encoded
        if i < pairs.len() {
            let code = pairs[i].0;
            if 'a' as u8 <= code && code <= 'z' as u8 {
                let (w, f, b) = rex_traits(&args[i]);
                assert(w == encoded_has(pairs@, views, i as int, RexTrait::Wants));
                assert(f == encoded_has(pairs@, views, i as int, RexTrait::Forbids));
                assert(b == encoded_has(pairs@, views, i as int, RexTrait::Beyond));
                wants = wants || w;
                forbids = forbids || f;
                beyond = beyond || b;
            } else {
                assert(!encoded_has(pairs@, views, i as int, RexTrait::Wants));
                assert(!encoded_has(pairs@, views, i as int, RexTrait::Forbids));
                assert(!encoded_has(pairs@, views, i as int, RexTrait::Beyond));
            }
        }
        i += 1;
    }
    let ghost n = views.len() as int;
    assert(n == i);
    match mode {
        X86Mode::Protected => if rex_w {
            Err(RexError::WideOperand.to_error())
        } else if !fmt.flags.intersects(Flags::VEX_OP | Flags::XOP_OP) && beyond {
            Err(RexError::ExtendedRegister.to_error())
        } else {
            Ok(false)
        },
        X86Mode::Long => {
            let requires_rex = rex_w || wants;
            if requires_rex && forbids {
                Err(RexError::HighByte.to_error())
            } else {
                Ok(requires_rex)
            }
        },
    }
}

/// How the operand in a slot is encoded.
#[derive(Debug, Clone, Copy, PartialEq, Eq, Structural)]
pub enum SlotClass {
    /// A register or memory: the kinds `m`, `u`, `v`, `w`, `k` and `l`.
    Memory,
    /// A register: the kinds `f`, `x`, `r`, `y` and `b`.
    Register,
    /// A control, debug or segment register: the kinds `c`, `d` and `s`.
    Special,
    /// An immediate or an offset: the kinds `i` and `o`.
    Immediate,
    /// A register that the opcode implies.
    Fixed,
}

/// How the operand in a slot of kind `code` is encoded.
pub open spec fn slot_class(code: u8) -> SlotClass {
    if code == 'm' as u8 || code == 'u' as u8 || code == 'v' as u8 || code == 'w' as u8 || code
        == 'k' as u8 || code == 'l' as u8 {
        SlotClass::Memory
    } else if code == 'f' as u8 || code == 'x' as u8 || code == 'r' as u8 || code == 'y' as u8 || code
        == 'b' as u8 {
        SlotClass::Register
    } else if code == 'c' as u8 || code == 'd' as u8 || code == 's' as u8 {
        SlotClass::Special
    } else if code == 'i' as u8 || code == 'o' as u8 {
        SlotClass::Immediate
    } else {
        SlotClass::Fixed
    }
}

/// How the operand in a slot of kind `code` is encoded.
pub fn classify_slot(code: u8) -> (r: SlotClass)
    ensures
        r == slot_class(code),
{
    if code == 'm' as u8 || code == 'u' as u8 || code == 'v' as u8 || code == 'w' as u8 || code
        == 'k' as u8 || code == 'l' as u8 {
        SlotClass::Memory
    } else if code == 'f' as u8 || code == 'x' as u8 || code == 'r' as u8 || code == 'y' as u8 || code
        == 'b' as u8 {
        SlotClass::Register
    } else if code == 'c' as u8 || code == 'd' as u8 || code == 's' as u8 {
        SlotClass::Special
    } else if code == 'i' as u8 || code == 'o' as u8 {
        SlotClass::Immediate
    } else {
        SlotClass::Fixed
    }
}

/// The operands of an instruction, parted by how they are encoded.
pub struct Split {
    /// The registers and the memory reference, in their order.
    pub regs: Seq<SizedArgView>,
    /// The immediates and offsets, in their order.
    pub immediates: Seq<SizedArgView>,
    /// The place in `regs` of the operand whose slot takes memory.
    pub memarg: Option<int>,
    /// The place in `regs` of the control, debug or segment register.
    pub regarg: Option<int>,
}

/// The operands from `from` on, parted and added to those before; `None` if the format has
/// two slots for memory or two for control, debug and segment registers.
pub open spec fn split_from(
    pairs: Seq<(u8, u8)>,
    args: Seq<SizedArgView>,
    from: int,
    split: Split,
) -> Option<Split>
    decreases args.len() - from,
{
    if from < 0 || from >= args.len() || from >= pairs.len() {
        Some(split)
    } else {
        match slot_class(pairs[from].0) {
            SlotClass::Memory => if split.memarg is Some {
                None
            } else {
                split_from(
                    pairs,
                    args,
                    from + 1,
                    Split {
                        regs: split.regs.push(args[from]),
                        memarg: Some(split.regs.len() as int),
                        ..split
                    },
                )
            },
            SlotClass::Register => split_from(
                pairs,
                args,
                from + 1,
                Split { regs: split.regs.push(args[from]), ..split },
            ),
            SlotClass::Special => if split.regarg is Some {
                None
            } else {
                split_from(
                    pairs,
                    args,
                    from + 1,
                    Split {
                        regs: split.regs.push(args[from]),
                        regarg: Some(split.regs.len() as int),
                        ..split
                    },
                )
            },
            SlotClass::Immediate => split_from(
                pairs,
                args,
                from + 1,
                Split { immediates: split.immediates.push(args[from]), ..split },
            ),
            SlotClass::Fixed => split_from(pairs, args, from + 1, split),
        }
    }
}

/// The fields of an instruction that hold a register or a memory reference.
#[derive(Debug, Clone, Copy, PartialEq, Eq, Structural)]
pub enum Role {
    /// The field for a register or memory.
    Rm,
    /// The field for a register.
    Reg,
    /// The field for a second source register, in a VEX or XOP prefix.
    Vvvv,
    /// The field for a register in the upper half of an immediate byte.
    Ireg,
}

/// The fields that `len` operands go to, in the order of the operands.
///
/// A control, debug or segment register goes to the register field and the other operand to
/// the field for a register or memory. Else the default order is m, rm, rvm, rvim. The flag
/// `ENC_MR` selects mr, rmv, rvmi and the flag `ENC_VM` vm, mvr; the place of the slot for
/// memory selects among these as well.
pub open spec fn roles(flags: Flags, len: int, memarg: Option<int>, regarg: Option<int>) -> Seq<Role> {
    let mr = flags.spec_contains(Flags::ENC_MR);
    let vm = flags.spec_contains(Flags::ENC_VM);
    if regarg is Some {
        if regarg == Some(0int) {
            seq![Role::Reg, Role::Rm]
        } else {
            seq![Role::Rm, Role::Reg]
        }
    } else if len == 1 {
        seq![Role::Rm]
    } else if len == 2 {
        if mr || memarg == Some(0int) {
            seq![Role::Rm, Role::Reg]
        } else if vm {
            seq![Role::Vvvv, Role::Rm]
        } else {
            seq![Role::Reg, Role::Rm]
        }
    } else if len == 3 {
        if mr || memarg == Some(1int) {
            seq![Role::Reg, Role::Rm, Role::Vvvv]
        } else if vm || memarg == Some(0int) {
            seq![Role::Rm, Role::Vvvv, Role::Reg]
        } else {
            seq![Role::Reg, Role::Vvvv, Role::Rm]
        }
    } else if len == 4 {
        if mr || memarg == Some(2int) {
            seq![Role::Reg, Role::Vvvv, Role::Rm, Role::Ireg]
        } else {
            seq![Role::Reg, Role::Vvvv, Role::Ireg, Role::Rm]
        }
    } else {
        seq![]
    }
}

/// The operand that goes to a field: the one at the place where the field stands in `order`.
pub open spec fn operand_of(regs: Seq<SizedArgView>, order: Seq<Role>, role: Role) -> Option<SizedArgView> {
    if order.len() > 0 && regs.len() > 0 && order[0] == role {
        Some(regs[0])
    } else if order.len() > 1 && regs.len() > 1 && order[1] == role {
        Some(regs[1])
    } else if order.len() > 2 && regs.len() > 2 && order[2] == role {
        Some(regs[2])
    } else if order.len() > 3 && regs.len() > 3 && order[3] == role {
        Some(regs[3])
    } else {
        None
    }
}

/// The operands of an instruction by the fields that they go to.
pub struct Extracted {
    pub rm: Option<SizedArgView>,
    pub reg: Option<SizedArgView>,
    pub vvvv: Option<SizedArgView>,
    pub ireg: Option<SizedArgView>,
    pub immediates: Seq<SizedArgView>,
}

/// The operands of an instruction by the fields that they go to; `None` if the format has
/// two slots for memory, two for control, debug and segment registers, or more than four
/// for registers and memory.
pub open spec fn extraction(fmt: OpdataView, args: Seq<SizedArgView>) -> Option<Extracted> {
    let start = Split { regs: Seq::empty(), immediates: Seq::empty(), memarg: None, regarg: None };
    match split_from(format_pairs(fmt.args), args, 0, start) {
        None => None,
        Some(split) => if split.regs.len() > 4 {
            None
        } else {
            let order = roles(fmt.flags, split.regs.len() as int, split.memarg, split.regarg);
            Some(
                Extracted {
                    rm: operand_of(split.regs, order, Role::Rm),
                    reg: operand_of(split.regs, order, Role::Reg),
                    vvvv: operand_of(split.regs, order, Role::Vvvv),
                    ireg: operand_of(split.regs, order, Role::Ireg),
                    immediates: split.immediates,
                },
            )
        },
    }
}

/// The fields that `len` operands go to, in the order of the operands.
pub fn find_roles(
    flags: Flags,
    len: usize,
    memarg: Option<usize>,
    regarg: Option<usize>,
) -> (r: Vec<Role>)
    ensures
        r@ == roles(
            flags,
            len as int,
            match memarg {
                Some(i) => Some(i as int),
                None => None,
            },
            match regarg {
                Some(i) => Some(i as int),
                None => None,
            },
        ),
        r@.len() <= 4,
{
    let mr = flags.contains(Flags::ENC_MR);
    let vm = flags.contains(Flags::ENC_VM);
    let mem_at_0 = matches!(memarg, Some(0));
    let mem_at_1 = matches!(memarg, Some(1));
    let mem_at_2 = matches!(memarg, Some(2));
    if let Some(i) = regarg {
        if i == 0 {
            vec![Role::Reg, Role::Rm]
        } else {
            vec![Role::Rm, Role::Reg]
        }
    } else if len == 1 {
        vec![Role::Rm]
    } else if len == 2 {
        if mr || mem_at_0 {
            vec![Role::Rm, Role::Reg]
        } else if vm {
            vec![Role::Vvvv, Role::Rm]
        } else {
            vec![Role::Reg, Role::Rm]
        }
    } else if len == 3 {
        if mr || mem_at_1 {
            vec![Role::Reg, Role::Rm, Role::Vvvv]
        } else if vm || mem_at_0 {
            vec![Role::Rm, Role::Vvvv, Role::Reg]
        } else {
            vec![Role::Reg, Role::Vvvv, Role::Rm]
        }
    } else if len == 4 {
        if mr || mem_at_2 {
            vec![Role::Reg, Role::Vvvv, Role::Rm, Role::Ireg]
        } else {
            vec![Role::Reg, Role::Vvvv, Role::Ireg, Role::Rm]
        }
    } else {
        Vec::new()
    }
}

/// The view of an optional operand.
pub open spec fn opt_view(arg: Option<SizedArg>) -> Option<SizedArgView> {
    match arg {
        Some(a) => Some(a@),
        None => None,
    }
}

/// Parts the operands by the fields of the instruction that they go to: the field for a
/// register or memory, the field for a register, the field for a second source register, the
/// field for a register in an immediate, and the immediates. See [`extraction`].
pub fn extract_args(fmt: &Opdata, args: Vec<SizedArg>) -> (r: Result<
    (Option<SizedArg>, Option<SizedArg>, Option<SizedArg>, Option<SizedArg>, Vec<SizedArg>),
    Error,
>)
    ensures
        match extraction(fmt@, sized_views(args@)) {
            Some(e) => r matches Ok(done) && opt_view(done.0) == e.rm && opt_view(done.1) == e.reg
                && opt_view(done.2) == e.vvvv && opt_view(done.3) == e.ireg && sized_views(done.4@)
                == e.immediates,
            None => r matches Err(err) && err@ == (ErrorView::Generic { message: "bad formatting data"@ }),
        },
{
    let pairs = read_format(fmt.args.as_slice());
    let ghost views = sized_views(args@);
    let ghost start = Split { regs: Seq::empty(), immediates: Seq::empty(), memarg: None, regarg: None };
    let mut memarg: Option<usize> = None;
    let mut regarg: Option<usize> = None;
    let mut regs: Vec<SizedArg> = Vec::new();
    let mut immediates: Vec<SizedArg> = Vec::new();
    let mut left = args;
    let mut i: usize = 0;
    assert(sized_views(regs@) =~= start.regs);
    assert(sized_views(immediates@) =~= start.immediates);
    while left.len() > 0 && i < pairs.len()
        invariant
            i <= pairs.len(),
            views == sized_views(args@),
            start == (Split { regs: Seq::empty(), immediates: Seq::empty(), memarg: None, regarg: None }),
            pairs@ == format_pairs(fmt@.args),
            views.len() == i + left.len(),
            sized_views(left@) == views.skip(i as int),
            regs@.len() <= i,
            memarg matches Some(m) ==> m < regs@.len(),
            regarg matches Some(m) ==> m < regs@.len(),
            split_from(pairs@, views, 0, start) == split_from(
                pairs@,
                views,
                i as int,
                Split {
                    regs: sized_views(regs@),
                    immediates: sized_views(immediates@),
                    memarg: match memarg {
                        Some(m) => Some(m as int),
                        None => None,
                    },
                    regarg: match regarg {
                        Some(m) => Some(m as int),
                        None => None,
                    },
                },
            ),
        decreases left.len(),
    {
        let ghost before = sized_views(left@);
        let ghost rest = left@;
        let ghost old_regs = sized_views(regs@);
        let ghost old_immediates = sized_views(immediates@);
        assert(before[0] == left@[0]@);
        let arg = left.remove(0);
        assert forall|j: int| 0 <= j < left@.len() implies sized_views(left@)[j] == views.skip(
            i + 1,
        )[j] by {
            assert(before[j + 1] == rest[j + 1]@);
        }
        assert(sized_views(left@) =~= views.skip(i + 1));
        match classify_slot(pairs[i].0) {
            SlotClass::Memory => {
                if memarg.is_some() {
                    return Err(Error::generic("bad formatting data"));
                }
                memarg = Some(regs.len());
                regs.push(arg);
                assert(sized_views(regs@) =~= old_regs.push(views[i as int]));
            },
            SlotClass::Register => {
                regs.push(arg);
                assert(sized_views(regs@) =~= old_regs.push(views[i as int]));
            },
            SlotClass::Special => {
                if regarg.is_some() {
                    return Err(Error::generic("bad formatting data"));
                }
                regarg = Some(regs.len());
                regs.push(arg);
                assert(sized_views(regs@) =~= old_regs.push(views[i as int]));
            },
            SlotClass::Immediate => {
                immediates.push(arg);
                assert(sized_views(immediates@) =~= old_immediates.push(views[i as int]));
            },
            SlotClass::Fixed => {},
        }
        i += 1;
    }
    let len = regs.len();
    if len > 4 {
        return Err(Error::generic("bad formatting data"));
    }
    let order = find_roles(fmt.flags, len, memarg, regarg);
    let ghost all = sized_views(regs@);
    let mut m: Option<SizedArg> = None;
    let mut r: Option<SizedArg> = None;
    let mut v: Option<SizedArg> = None;
    let mut ireg: Option<SizedArg> = None;
    let mut k: usize = 0;
    while regs.len() > 0 && k < order.len()
        invariant
            k <= order@.len(),
            order@.len() <= 4,
            all.len() == k + regs@.len(),
            sized_views(regs@) == all.skip(k as int),
            opt_view(m) == operand_of(all.take(k as int), order@.take(k as int), Role::Rm),
            opt_view(r) == operand_of(all.take(k as int), order@.take(k as int), Role::Reg),
            opt_view(v) == operand_of(all.take(k as int), order@.take(k as int), Role::Vvvv),
            opt_view(ireg) == operand_of(all.take(k as int), order@.take(k as int), Role::Ireg),
            forall|a: int, b: int| 0 <= a < b < order@.len() ==> order@[a] != order@[b],
        decreases regs.len(),
    {
        let ghost before = sized_views(regs@);
        let ghost rest = regs@;
        assert(before[0] == regs@[0]@);
        let arg = regs.remove(0);
        assert forall|j: int| 0 <= j < regs@.len() implies sized_views(regs@)[j] == all.skip(k + 1)[j] by {
            assert(before[j + 1] == rest[j + 1]@);
        }
        assert(sized_views(regs@) =~= all.skip(k + 1));
        match order[k] {
            Role::Rm => {
                m = Some(arg);
            },
            Role::Reg => {
                r = Some(arg);
            },
            Role::Vvvv => {
                v = Some(arg);
            },
            Role::Ireg => {
                ireg = Some(arg);
            },
        }
        k += 1;
    }
    assert(operand_of(all.take(k as int), order@.take(k as int), Role::Rm) == operand_of(all, order@, Role::Rm));
    assert(operand_of(all.take(k as int), order@.take(k as int), Role::Reg) == operand_of(all, order@, Role::Reg));
    assert(operand_of(all.take(k as int), order@.take(k as int), Role::Vvvv) == operand_of(all, order@, Role::Vvvv));
    assert(operand_of(all.take(k as int), order@.take(k as int), Role::Ireg) == operand_of(all, order@, Role::Ireg));
    Ok((m, r, v, ireg, immediates))
}

/// The place of the first of the encodings from `from` on that fits the operands.
pub open spec fn first_match_from(
    mode: X86Mode,
    forms: Seq<OpdataView>,
    args: Seq<CleanArgView>,
    from: int,
) -> Option<
    int,
>
    decreases forms.len() - from,
{
    if from < 0 || from >= forms.len() {
        None
    } else if format_mismatch(mode, forms[from], args) is None {
        Some(from)
    } else {
        first_match_from(mode, forms, args, from + 1)
    }
}

/// The first encoding that fits wins: the place that is found is that of an encoding that
/// fits the operands, and none of the encodings before it does. No place is found only if no
/// encoding fits.
pub proof fn lemma_first_match(
    mode: X86Mode,
    forms: Seq<OpdataView>,
    args: Seq<CleanArgView>,
    from: int,
)
    requires
        0 <= from,
    ensures
        match first_match_from(mode, forms, args, from) {
            Some(k) => from <= k < forms.len() && format_mismatch(mode, forms[k], args) is None && forall|
                j: int,
            |
                from <= j < k ==> (#[trigger] format_mismatch(mode, forms[j], args)) is Some,
            None => forall|j: int|
                from <= j < forms.len() ==> (#[trigger] format_mismatch(mode, forms[j], args)) is Some,
        },
    decreases forms.len() - from,
{
    if from < forms.len() && format_mismatch(mode, forms[from], args) is Some {
        lemma_first_match(mode, forms, args, from + 1);
    }
}

/// Why no encoding is found for a mnemonic and its operands.
pub enum MatchError {
    /// The name is no mnemonic.
    UnknownInstruction,
    /// None of the encodings of the mnemonic takes the operands. Holds the message that
    /// lists them.
    NoFormMatched(Seq<char>),
}

/// The report for a name that is no mnemonic.
pub open spec fn unknown_instruction_message(name: Seq<char>) -> Seq<char> {
    "'"@ + name + "' is not a valid instruction"@
}

/// The encoding for a mnemonic and its operands: the first of the encodings of the
/// mnemonic, in the order of the table, that fits the operands.
pub open spec fn matched_form(mode: X86Mode, name: Seq<char>, args: Seq<CleanArgView>) -> Result<
    OpdataView,
    MatchError,
> {
    match mnemonic_forms(name) {
        None => Err(MatchError::UnknownInstruction),
        Some(forms) => match first_match_from(mode, forms, args, 0) {
            Some(k) => Ok(forms[k]),
            None => Err(MatchError::NoFormMatched(mismatch_text(name, forms))),
        },
    }
}

/// Finds the encoding for a mnemonic and its operands, see [`matched_form`]. A name that is
/// no mnemonic is reported at `span`, and the error is `Fatal`. Operands that no encoding
/// takes are an error that lists the encodings.
pub fn match_op_format<B: BasicExprBuilder>(
    state: &mut B,
    mode: X86Mode,
    span: ErrorSpan,
    ident: &str,
    args: &[CleanArg],
) -> (r: Result<Opdata, Error>)
    ensures
        final(state).emitted() == old(state).emitted(),
        final(state).knowledge() == old(state).knowledge(),
        match matched_form(mode, ident@, clean_views(args@)) {
            Ok(form) => r matches Ok(data) && data@ == form && final(state).reported() == old(
                state,
            ).reported(),
            Err(MatchError::UnknownInstruction) => r matches Err(e) && e@ == ErrorView::Fatal
                && final(state).reported() == old(state).reported().push(
                (span, unknown_instruction_message(ident@)),
            ),
            Err(MatchError::NoFormMatched(message)) => r matches Err(e) && e@ == (ErrorView::Generic {
                message,
            }) && final(state).reported() == old(state).reported(),
        },
{
    let mut forms = match get_mnemnonic_data(ident) {
        Some(forms) => forms,
        None => {
            let mut message = String::from_str("'");
            message.append(ident);
            message.append("' is not a valid instruction");
            state.emit_error_at(span, message.as_str());
            return Err(Error::Fatal);
        },
    };
    let ghost views = opdata_views(forms@);
    let ghost operands = clean_views(args@);
    let mut i: usize = 0;
    while i < forms.len()
        invariant
            i <= forms.len(),
            views == opdata_views(forms@),
            operands == clean_views(args@),
            mnemonic_forms(ident@) == Some(views),
            state.emitted() == old(state).emitted(),
            state.knowledge() == old(state).knowledge(),
            state.reported() == old(state).reported(),
            first_match_from(mode, views, operands, 0) == first_match_from(mode, views, operands, i as int),
        decreases forms.len() - i,
    {
        assert(views[i as int] == forms@[i as int]@);
        if let Ok(()) = match_format_string(mode, &forms[i], args) {
            return Ok(forms.swap_remove(i));
        }
        i += 1;
    }
    Err(Error::Generic { message: format_opdata_list(ident, &forms) })
}

/// The bytes of an opcode and what is taken from them: with the flag `IMM_OP` the last byte,
/// which then stands behind the operands; with a VEX or XOP prefix the first byte, which
/// selects the map of opcodes.
pub struct OpcodeParts {
    pub immediate_opcode: Option<u8>,
    pub map_sel: Option<u8>,
    pub ops: Seq<u8>,
}

/// The parts of an opcode; `None` if a byte that the flags ask for is not there.
pub open spec fn opcode_parts(flags: Flags, ops: Seq<u8>) -> Option<OpcodeParts> {
    let imm = flags.spec_intersects(Flags::IMM_OP);
    let vex = flags.spec_intersects(Flags::VEX_OP | Flags::XOP_OP);
    if imm && ops.len() == 0 {
        None
    } else {
        let rest = if imm {
            ops.drop_last()
        } else {
            ops
        };
        if vex && rest.len() == 0 {
            None
        } else {
            Some(
                OpcodeParts {
                    immediate_opcode: if imm {
                        Some(ops.last())
                    } else {
                        None
                    },
                    map_sel: if vex {
                        Some(rest[0])
                    } else {
                        None
                    },
                    ops: if vex {
                        rest.skip(1)
                    } else {
                        rest
                    },
                },
            )
        }
    }
}

/// The prefixes of an instruction and what else is known of it before its bytes are put
/// together.
#[derive(Debug, Clone, Copy, PartialEq, Eq)]
pub struct Prefix {
    /// The size of addresses.
    pub addr_size: Size,
    /// The address size prefix is needed.
    pub pref_addr: bool,
    /// The prefix that stands for a segment.
    pub pref_seg: Option<u8>,
    /// The prefix of the first group: lock, repne or rep.
    pub pref_mod: Option<u8>,
    /// How the size of the operands is encoded.
    pub sizes: SizePrefixes,
    /// The REX prefix is needed.
    pub need_rex: bool,
}

/// The pieces for one optional byte.
pub open spec fn opt_byte(byte: Option<u8>) -> Seq<EmitView> {
    match byte {
        Some(b) => seq![EmitView::byte(b)],
        None => seq![],
    }
}

/// What stands for the legacy prefixes in a VEX or XOP prefix: one for the operand size
/// prefix, two for F3, three for F2, else zero.
pub open spec fn vex_prefix_code(prefix: Prefix) -> u8 {
    if prefix.sizes.pref_size {
        1
    } else if prefix.pref_mod == Some(0xF3u8) {
        2
    } else if prefix.pref_mod == Some(0xF2u8) {
        3
    } else {
        0
    }
}

/// The pieces for the prefixes of an instruction: the segment and the address size prefix;
/// then a VEX or XOP prefix, which holds the others, or else the prefix of the first group,
/// the operand size prefix and the REX prefix.
pub open spec fn prefix_emits(
    mode: X86Mode,
    flags: Flags,
    prefix: Prefix,
    map_sel: Option<u8>,
    rm: Option<SizedArgView>,
    reg: Option<SizedArgView>,
    vvvv: Option<SizedArgView>,
) -> Seq<EmitView> {
    opt_byte(prefix.pref_seg) + opt_byte(
        if prefix.pref_addr {
            Some(0x67u8)
        } else {
            None
        },
    ) + match map_sel {
        Some(map) => vex_emits(
            mode,
            flags,
            reg,
            rm,
            map,
            prefix.sizes.rex_w,
            vvvv,
            prefix.sizes.vex_l,
            vex_prefix_code(prefix),
        ),
        None => opt_byte(prefix.pref_mod) + opt_byte(
            if prefix.sizes.pref_size {
                Some(0x66u8)
            } else {
                None
            },
        ) + if prefix.need_rex {
            seq![rex_emit(prefix.sizes.rex_w, reg, rm)]
        } else {
            seq![]
        },
    }
}

/// The pieces of an instruction: the prefixes, the opcode, the operand for a register or
/// memory with the register field, and what follows it. With the flag `SHORT_ARG` the operand
/// for a register goes into the opcode.
#[verifier::opaque]
pub open spec fn assembly(mode: X86Mode, data: OpdataView, prefix: Prefix, e: Extracted) -> Result<
    Seq<EmitView>,
    OperandError,
> {
    match opcode_parts(data.flags, data.ops) {
        None => Err(OperandError::Format),
        Some(parts) => match opcode_emits(data.flags, parts.ops, e.rm) {
            None => Err(OperandError::Format),
            Some(opcode) => {
                let rm = if data.flags.spec_contains(Flags::SHORT_ARG) {
                    None
                } else {
                    e.rm
                };
                match operand_code(mode, prefix.addr_size, data.reg, e.reg, rm) {
                    Err(err) => Err(err),
                    Ok(operand) => match tail_code(
                        mode,
                        parts.immediate_opcode,
                        e.ireg,
                        e.immediates,
                        operand.reloc,
                    ) {
                        Err(err) => Err(err),
                        Ok(tail) => Ok(
                            prefix_emits(mode, data.flags, prefix, parts.map_sel, e.rm, e.reg, e.vvvv)
                                + opcode + operand.emits + tail,
                        ),
                    },
                }
            },
        },
    }
}

/// Adds one optional byte.
pub fn push_opt_byte(plan: &mut Vec<Emit>, byte: Option<u8>)
    ensures
        emit_views(final(plan)@) == emit_views(old(plan)@) + opt_byte(byte),
{
    match byte {
        Some(b) => {
            push_byte(plan, b);
            assert(emit_views(plan@) =~= emit_views(old(plan)@) + opt_byte(byte));
        },
        None => {
            assert(emit_views(plan@) =~= emit_views(old(plan)@) + opt_byte(byte));
        },
    }
}

/// The views of pieces that are appended are the views of the pieces, appended.
pub proof fn lemma_emit_views_add(a: Seq<Emit>, b: Seq<Emit>)
    ensures
        emit_views(a + b) == emit_views(a) + emit_views(b),
{
    assert(emit_views(a + b) =~= emit_views(a) + emit_views(b));
}

/// The pieces for the prefixes of an instruction.
pub fn compile_prefixes(
    mode: X86Mode,
    flags: Flags,
    prefix: &Prefix,
    map_sel: Option<u8>,
    rm: &Option<SizedArg>,
    reg: &Option<SizedArg>,
    vvvv: &Option<SizedArg>,
) -> (r: Vec<Emit>)
    ensures
        emit_views(r@) == prefix_emits(
            mode,
            flags,
            *prefix,
            map_sel,
            opt_view(*rm),
            opt_view(*reg),
            opt_view(*vvvv),
        ),
{
    let mut plan: Vec<Emit> = Vec::new();
    assert(emit_views(plan@) =~= Seq::empty());
    // legacy-only prefixes
    push_opt_byte(&mut plan, prefix.pref_seg);
    push_opt_byte(&mut plan, if prefix.pref_addr {
        Some(0x67)
    } else {
        None
    });
    let ghost head = emit_views(plan@);
    assert(head =~= opt_byte(prefix.pref_seg) + opt_byte(
        if prefix.pref_addr {
            Some(0x67u8)
        } else {
            None
        },
    ));
    match map_sel {
        // VEX/XOP prefixes embed the operand size prefix / modification prefixes in them.
        Some(map) => {
            let code: u8 = if prefix.sizes.pref_size {
                0b01
            } else if matches!(prefix.pref_mod, Some(0xF3)) {
                0b10
            } else if matches!(prefix.pref_mod, Some(0xF2)) {
                0b11
            } else {
                0
            };
            compile_vex_xop(
                &mut plan,
                mode,
                flags,
                reg,
                rm,
                map,
                prefix.sizes.rex_w,
                vvvv,
                prefix.sizes.vex_l,
                code,
            );
        },
        // otherwise, the size/mod prefixes have to be pushed and check if a rex prefix has to be generated.
        None => {
            push_opt_byte(&mut plan, prefix.pref_mod);
            push_opt_byte(&mut plan, if prefix.sizes.pref_size {
                Some(0x66)
            } else {
                None
            });
            let ghost mid = emit_views(plan@);
            if prefix.need_rex {
                compile_rex(&mut plan, prefix.sizes.rex_w, reg, rm);
                assert(emit_views(plan@) =~= mid + seq![rex_emit(prefix.sizes.rex_w, opt_view(*reg), opt_view(*rm))]);
            } else {
                assert(emit_views(plan@) =~= mid + Seq::<EmitView>::empty());
            }
            assert(emit_views(plan@) =~= head + (opt_byte(prefix.pref_mod) + opt_byte(
                if prefix.sizes.pref_size {
                    Some(0x66u8)
                } else {
                    None
                },
            ) + if prefix.need_rex {
                seq![rex_emit(prefix.sizes.rex_w, opt_view(*reg), opt_view(*rm))]
            } else {
                seq![]
            }));
        },
    }
    plan
}

/// Puts the pieces of an instruction together, see [`assembly`].
pub fn assemble(
    mode: X86Mode,
    data: &Opdata,
    prefix: &Prefix,
    rm: Option<SizedArg>,
    reg: Option<SizedArg>,
    vvvv: Option<SizedArg>,
    ireg: Option<SizedArg>,
    immediates: Vec<SizedArg>,
) -> (r: Result<Vec<Emit>, OperandError>)
    ensures
        match assembly(
            mode,
            data@,
            *prefix,
            Extracted {
                rm: opt_view(rm),
                reg: opt_view(reg),
                vvvv: opt_view(vvvv),
                ireg: opt_view(ireg),
                immediates: sized_views(immediates@),
            },
        ) {
            Ok(emits) => r matches Ok(plan) && emit_views(plan@) == emits,
            Err(e) => r == Err::<Vec<Emit>, OperandError>(e),
        },
{
    reveal(assembly);
    let ghost e = Extracted {
        rm: opt_view(rm),
        reg: opt_view(reg),
        vvvv: opt_view(vvvv),
        ireg: opt_view(ireg),
        immediates: sized_views(immediates@),
    };
    let flags = data.flags;
    let mut from: usize = 0;
    let mut to: usize = data.ops.len();
    // deal with ops that encode the final byte in an immediate
    let immediate_opcode = if flags.intersects(Flags::IMM_OP) {
        if to == 0 {
            return Err(OperandError::Format);
        }
        to = to - 1;
        assert(data@.ops.drop_last() =~= data@.ops.subrange(0, to as int));
        Some(data.ops[to])
    } else {
        assert(data@.ops =~= data@.ops.subrange(0, to as int));
        None
    };
    // map_sel is stored in the first byte of the opcode
    let map_sel = if flags.intersects(Flags::VEX_OP | Flags::XOP_OP) {
        if to == 0 {
            return Err(OperandError::Format);
        }
        from = 1;
        assert(data@.ops.subrange(0, to as int).skip(1) =~= data@.ops.subrange(1, to as int));
        Some(data.ops[0])
    } else {
        None
    };
    let ghost parts = opcode_parts(data@.flags, data@.ops).unwrap();
    assert(parts.ops == data@.ops.subrange(from as int, to as int));
    let mut plan = compile_prefixes(mode, flags, prefix, map_sel, &rm, &reg, &vvvv);
    // if rm is embedded in the last opcode byte, push it here
    match compile_opcode(&mut plan, flags, &data.ops, from, to, &rm) {
        Ok(()) => {},
        Err(_) => {
            return Err(OperandError::Format);
        },
    }
    let rm = if flags.contains(Flags::SHORT_ARG) {
        None
    } else {
        rm
    };
    let (mut operand, reloc) = match compile_operand(mode, prefix.addr_size, data.reg, &reg, rm) {
        Ok(done) => done,
        Err(err) => {
            return Err(err);
        },
    };
    let mut tail = match compile_tail(mode, immediate_opcode, ireg, immediates, reloc) {
        Ok(tail) => tail,
        Err(err) => {
            return Err(err);
        },
    };
    proof {
        lemma_emit_views_add(plan@, operand@);
        lemma_emit_views_add(plan@ + operand@, tail@);
    }
    plan.append(&mut operand);
    plan.append(&mut tail);
    Ok(plan)
}

/// What becomes of an instruction: the reports, and the pieces of the instruction or the
/// error.
pub struct Compilation {
    pub reports: Seq<Report>,
    pub plan: Result<Seq<EmitView>, ErrorView>,
}

/// The prefix of the first group: the one that the flags of the entry ask for, else the one
/// that is written before the mnemonic.
pub open spec fn mod_prefix(flags: Flags, group1: Option<u8>) -> Option<u8> {
    if flags.spec_contains(Flags::PREF_F0) {
        Some(0xF0u8)
    } else if flags.spec_contains(Flags::PREF_F2) {
        Some(0xF2u8)
    } else if flags.spec_contains(Flags::PREF_F3) {
        Some(0xF3u8)
    } else {
        group1
    }
}

/// The error for operands of a size that the mode does not have.
pub open spec fn unsupported_operand(op: Seq<char>, op_size: Size, mode: X86Mode, mode_hint: Option<X86Mode>) -> ErrorView {
    ErrorView::UnsupportedOperandInThisMode { operand: op, op_size, mode, mode_hint }
}

/// What becomes of an instruction once the entry of the opcode table is found, in these
/// steps, each of which may fail:
///
/// - the features of the entry have to be among `features`, else the error names those that
///   are not;
/// - the prefixes that are written before the mnemonic give their bytes, see
///   [`legacy_prefixes`];
/// - the operands are sized, see [`operand_sizing`];
/// - the encoding of the size of the operands is found, see [`size_prefixes`];
/// - the need of a REX prefix is found, see [`rex_need`];
/// - the operands are parted by the fields that they go to, see [`extraction`];
/// - the pieces are put together, see [`assembly`].
#[verifier::opaque]
pub open spec fn matched_compilation(
    mode: X86Mode,
    features: Features,
    op: Seq<char>,
    prefixes: Seq<Seq<char>>,
    data: OpdataView,
    args: Seq<CleanArgView>,
    addr_size: Size,
    pref_addr: bool,
) -> Compilation {
    if !features.spec_contains(data.features) {
        Compilation {
            reports: seq![],
            plan: Err(ErrorView::DisabledFeatures(data.features.spec_difference(features))),
        }
    } else {
        let found = legacy_prefixes(data.flags, prefixes);
        let reports = reports_of(found.report);
        let plan = match found.groups {
            Err(e) => Err(e),
            Ok(groups) => match operand_sizing(data, args) {
                Err(e) => Err(ErrorView::Generic { message: e.spec_message() }),
                Ok(sizing) => match size_prefixes(data.flags, sizing.0, mode) {
                    Err(SizePrefixError::Unsupported { op_size, mode_hint }) => Err(
                        unsupported_operand(op, op_size, mode, mode_hint),
                    ),
                    Err(SizePrefixError::Format) => Err(OperandError::Format.error()),
                    Ok(sizes) => match rex_need(mode, data, sizing.1, sizes.rex_w) {
                        Err(e) => Err(e.error()),
                        Ok(need_rex) => match extraction(data, sizing.1) {
                            None => Err(OperandError::Format.error()),
                            Some(e) => match assembly(
                                mode,
                                data,
                                Prefix {
                                    addr_size,
                                    pref_addr: pref_addr || data.flags.spec_contains(Flags::PREF_67),
                                    pref_seg: groups.1,
                                    pref_mod: mod_prefix(data.flags, groups.0),
                                    sizes,
                                    need_rex,
                                },
                                e,
                            ) {
                                Err(err) => Err(err.error()),
                                Ok(plan) => Ok(plan),
                            },
                        },
                    },
                },
            },
        };
        Compilation { reports, plan }
    }
}

/// What becomes of an instruction, in these steps, each of which may fail:
///
/// - the operands are checked, see [`sanitization`];
/// - the size of addresses, which is that of the mode if the operands do not say, has to be
///   one that the mode has, see [`address_prefix`];
/// - the entry of the opcode table is found, see [`matched_form`]: a name that is no
///   mnemonic is reported at the mnemonic;
/// - the entry is encoded, see [`matched_compilation`].
pub open spec fn compilation(
    mode: X86Mode,
    features: Features,
    instruction: Seq<Seq<char>>,
    args: Seq<CleanArgView>,
) -> Compilation
    recommends
        instruction.len() > 0,
{
    let op = instruction.last();
    let prefixes = instruction.drop_last();
    let checked = sanitization(mode, args);
    match checked.addr_size {
        None => Compilation { reports: checked.reports, plan: Err(ErrorView::Fatal) },
        Some(found) => {
            let addr_size = match found {
                Some(size) => size,
                None => default_address_size(mode),
            };
            match address_prefix(mode, addr_size) {
                None => Compilation {
                    reports: checked.reports,
                    plan: Err(unsupported_operand(op, addr_size, mode, None)),
                },
                Some(pref_addr) => match matched_form(mode, op, checked.args) {
                    Err(MatchError::UnknownInstruction) => Compilation {
                        reports: checked.reports.push(
                            (
                                ErrorSpan::InstructionPart { idx: prefixes.len() as usize },
                                unknown_instruction_message(op),
                            ),
                        ),
                        plan: Err(ErrorView::Fatal),
                    },
                    Err(MatchError::NoFormMatched(message)) => Compilation {
                        reports: checked.reports,
                        plan: Err(ErrorView::Generic { message }),
                    },
                    Ok(data) => {
                        let matched = matched_compilation(
                            mode,
                            features,
                            op,
                            prefixes,
                            data,
                            checked.args,
                            addr_size,
                            pref_addr,
                        );
                        Compilation { reports: checked.reports + matched.reports, plan: matched.plan }
                    },
                },
            }
        },
    }
}

/// The error for operands of a size that the mode does not have.
pub fn unsupported_operand_error(
    op: &Ident,
    op_size: Size,
    mode: X86Mode,
    mode_hint: Option<X86Mode>,
) -> (r:
    Error)
    ensures
        r@ == unsupported_operand(op@, op_size, mode, mode_hint),
{
    Error::UnsupportedOperandInThisMode { operand: op.name.clone(), op_size, mode, mode_hint }
}

/// Encodes an instruction for which the entry of the opcode table is found, see
/// [`matched_compilation`]. Returns the pieces of the instruction.
pub fn encode_matched<B: BasicExprBuilder>(
    state: &mut B,
    mode: X86Mode,
    features: Features,
    op: &Ident,
    prefixes: &Vec<Ident>,
    data: &Opdata,
    args: Vec<CleanArg>,
    addr_size: Size,
    pref_addr: bool,
) -> (r: Result<Vec<Emit>, Error>)
    ensures
        final(state).emitted() == old(state).emitted(),
        final(state).knowledge() == old(state).knowledge(),
        ({
            let c = matched_compilation(
                mode,
                features,
                op@,
                ident_views(prefixes@),
                data@,
                clean_views(args@),
                addr_size,
                pref_addr,
            );
            &&& final(state).reported() == old(state).reported() + c.reports
            &&& match c.plan {
                Ok(emits) => r matches Ok(plan) && emit_views(plan@) == emits,
                Err(e) => r matches Err(err) && err@ == e,
            }
        }),
{
    reveal(matched_compilation);
    // determine if the features required for this op are fulfilled
    if !features.contains(data.features) {
        assert(state.reported() =~= old(state).reported() + Seq::<Report>::empty());
        return Err(Error::DisabledFeatures(data.features.difference(features)));
    }
    // determine legacy prefixes
    let (group1, pref_seg) = match get_legacy_prefixes(state, data, prefixes) {
        Ok(groups) => groups,
        Err(e) => {
            return Err(e);
        },
    };
    // fill in size info from the format string to create the final SizedArg vec
    let (op_size, args) = match size_operands(data, args) {
        Ok(sized) => sized,
        Err(e) => {
            return Err(e);
        },
    };
    // determine if size prefixes are necessary
    let sizes = match find_size_prefixes(data.flags, op_size, mode) {
        Ok(sizes) => sizes,
        Err(SizePrefixError::Unsupported { op_size, mode_hint }) => {
            return Err(unsupported_operand_error(op, op_size, mode, mode_hint));
        },
        Err(SizePrefixError::Format) => {
            return Err(OperandError::Format.to_error());
        },
    };
    let pref_mod = if data.flags.contains(Flags::PREF_F0) {
        Some(0xF0)
    } else if data.flags.contains(Flags::PREF_F2) {
        Some(0xF2)
    } else if data.flags.contains(Flags::PREF_F3) {
        Some(0xF3)
    } else {
        group1
    };
    // check if this combination of args can actually be encoded and whether a rex prefix is necessary
    let need_rex = match check_rex(mode, data, &args, sizes.rex_w) {
        Ok(need_rex) => need_rex,
        Err(e) => {
            return Err(e);
        },
    };
    // split args
    let (rm, reg, vvvv, ireg, immediates) = match extract_args(data, args) {
        Ok(extracted) => extracted,
        Err(e) => {
            return Err(e);
        },
    };
    let prefix = Prefix {
        addr_size,
        pref_addr: pref_addr || data.flags.contains(Flags::PREF_67),
        pref_seg,
        pref_mod,
        sizes,
        need_rex,
    };
    match assemble(mode, data, &prefix, rm, reg, vvvv, ireg, immediates) {
        Ok(plan) => Ok(plan),
        Err(err) => Err(err.to_error()),
    }
}

/// What a compilation does to an expression builder, which was `before` and is `after`, and
/// what it returns.
///
/// What is reported, and which error ends the compilation before the builder is asked, is
/// said by [`compilation`]; then nothing is appended, and the builder knows what it knew. If
/// no step fails, the pieces of the instruction become statements, see [`plan_outcome`]: the
/// builder is asked to combine for the pieces that an expression of the caller takes part
/// in, and the compilation ends with the error of the builder for the first piece for which
/// it refuses, after the statements of the pieces before. Where no expression of the caller
/// takes part in the pieces, the compilation succeeds and appends the statements that the
/// pieces stand for.
pub open spec fn compiled<B: BasicExprBuilder>(
    before: &B,
    after: &B,
    mode: X86Mode,
    features: Features,
    instruction: Seq<Seq<char>>,
    args: Seq<CleanArgView>,
    r: Result<(), Error>,
) -> bool {
    let c = compilation(mode, features, instruction, args);
    &&& after.reported() == before.reported() + c.reports
    &&& match c.plan {
        Err(e) => {
            &&& r matches Err(err) && err@ == e
            &&& after.emitted() == before.emitted()
            &&& after.knowledge() == before.knowledge()
        },
        Ok(plan) => {
            let outcome = plan_outcome::<B>(before.knowledge(), plan);
            &&& after.emitted() == before.emitted() + outcome.appended
            &&& after.knowledge() == outcome.knowledge
            &&& match outcome.result {
                Ok(()) => r is Ok,
                Err(e) => r matches Err(err) && err@ == ErrorView::Expr(e),
            }
            &&& all_literal(plan) ==> r is Ok && after.emitted() == before.emitted() + literals(plan)
        },
    }
}

/// Compiles one instruction: the statements that encode it are appended to those of the
/// expression builder `state`. See [`compiled`].
pub fn compile_instruction<B: BasicExprBuilder>(
    state: &mut B,
    mode: X86Mode,
    features: Features,
    instruction: Instruction,
    args: Vec<CleanArg>,
) -> (r: Result<(), Error>)
    requires
        instruction@.len() > 0,
    ensures
        compiled(old(state), final(state), mode, features, instruction@, clean_views(args@), r),
{
    let ghost start = state.reported();
    let ghost all = instruction@;
    let mut ops = instruction.idents;
    let op = match ops.pop() {
        Some(op) => op,
        None => {
            return Err(Error::Fatal);
        },
    };
    let prefixes = ops;
    assert(op@ == all.last());
    assert(ident_views(prefixes@) =~= all.drop_last());
    let op_span = ErrorSpan::InstructionPart { idx: prefixes.len() };
    let mut args = args;
    let ghost checked = sanitization(mode, clean_views(args@));
    // sanitize memory references, determine address size, and size immediates/displacements if possible
    let addr_size = match sanitize_indirects_and_sizes(state, mode, &mut args) {
        Ok(addr_size) => addr_size,
        Err(e) => {
            return Err(e);
        },
    };
    let addr_size = match addr_size {
        Some(size) => size,
        None => match mode {
            X86Mode::Long => Size::QWORD,
            X86Mode::Protected => Size::DWORD,
        },
    };
    // determine if we need an address size override prefix
    let pref_addr = match needs_address_prefix(mode, addr_size) {
        Some(pref_addr) => pref_addr,
        None => {
            return Err(unsupported_operand_error(&op, addr_size, mode, None));
        },
    };
    // find a matching op
    let data = match match_op_format(state, mode, op_span, op.name.as_str(), args.as_slice()) {
        Ok(data) => data,
        Err(e) => {
            return Err(e);
        },
    };
    let ghost matched = matched_compilation(
        mode,
        features,
        op@,
        ident_views(prefixes@),
        data@,
        clean_views(args@),
        addr_size,
        pref_addr,
    );
    let plan = match encode_matched(state, mode, features, &op, &prefixes, &data, args, addr_size, pref_addr) {
        Ok(plan) => plan,
        Err(e) => {
            proof {
                concat_assoc(start, checked.reports, matched.reports);
            }
            return Err(e);
        },
    };
    proof {
        concat_assoc(start, checked.reports, matched.reports);
    }
    match run_plan(state, plan) {
        Ok(()) => Ok(()),
        Err(e) => Err(Error::Expr(e)),
    }
}

/// An extended register takes the REX prefix: where an operand that is encoded is a known
/// register of the upper eight of its family, 64-bit mode encodes the operands with a REX
/// prefix, unless a high byte register stands beside it, and 32-bit mode fails with the error
/// that names the other mode, unless the instruction has a VEX or XOP prefix.
pub proof fn lemma_extended_register_takes_rex(
    fmt: OpdataView,
    args: Seq<SizedArgView>,
    rex_w: bool,
    i: int,
)
    requires
        0 <= i < args.len(),
        i < format_pairs(fmt.args).len(),
        is_encoded(format_pairs(fmt.args)[i].0),
        args[i] matches SizedArgView::Direct { reg } && known_extended(reg.kind),
    ensures
        rex_need(X86Mode::Long, fmt, args, rex_w) != Ok::<bool, RexError>(false),
        rex_need(X86Mode::Long, fmt, args, rex_w) is Err ==> rex_need(X86Mode::Long, fmt, args, rex_w)
            == Err::<bool, RexError>(RexError::HighByte),
        !fmt.flags.spec_intersects(Flags::VEX_OP | Flags::XOP_OP) ==> rex_need(
            X86Mode::Protected,
            fmt,
            args,
            rex_w,
        ) is Err && rex_need(X86Mode::Protected, fmt, args, rex_w).unwrap_err().error()
            is UnsupportedInThisMode,
{
    let pairs = format_pairs(fmt.args);
    let reg = args[i]->Direct_reg;
    assert(reg.kind.spec_family() != RegFamily::HIGHBYTE);
    assert(encoded_has(pairs, args, i, RexTrait::Wants));
    assert(encoded_has(pairs, args, i, RexTrait::Beyond));
}

/// A VEX or XOP prefix leaves out in 32-bit mode what it cannot hold there: whatever the
/// registers of the operands, an instruction with such a prefix needs no REX prefix in 32-bit
/// mode and does not fail for want of one, unless it has operands of 64 bits.
pub proof fn lemma_vex_in_protected_mode(fmt: OpdataView, args: Seq<SizedArgView>)
    requires
        fmt.flags.spec_intersects(Flags::VEX_OP | Flags::XOP_OP),
    ensures
        rex_need(X86Mode::Protected, fmt, args, false) == Ok::<bool, RexError>(false),
{
}

/// Feature gating: an entry of the opcode table that asks for a feature that is not active
/// fails with the error that names the features that are missing: those of the entry that
/// are not active, and no others.
pub proof fn lemma_feature_gating(
    mode: X86Mode,
    features: Features,
    op: Seq<char>,
    prefixes: Seq<Seq<char>>,
    data: OpdataView,
    args: Seq<CleanArgView>,
    addr_size: Size,
    pref_addr: bool,
)
    requires
        !features.spec_contains(data.features),
    ensures
        ({
            let missing = data.features.spec_difference(features);
            let c = matched_compilation(mode, features, op, prefixes, data, args, addr_size, pref_addr);
            &&& c.plan == Err::<Seq<EmitView>, ErrorView>(ErrorView::DisabledFeatures(missing))
            &&& c.reports.len() == 0
            &&& missing.bits != 0
            &&& missing.bits & features.bits == 0
            &&& missing.bits & data.features.bits == missing.bits
            &&& missing.bits | (data.features.bits & features.bits) == data.features.bits
        }),
{
    reveal(matched_compilation);
    let d = data.features.bits;
    let f = features.bits;
    assert(f & d != d ==> d & !f != 0 && (d & !f) & f == 0 && (d & !f) & d == (d & !f) && ((d & !f) | (d
        & f)) == d) by (bit_vector);
}

/// Feature gating for a whole instruction: if the operands pass their check, the mode has
/// addresses of their size, and the entry of the opcode table that is found asks for a
/// feature that is not active, then the compilation fails with the error that names the
/// features that are missing, and reports nothing but what the check of the operands
/// reports.
pub proof fn lemma_instruction_feature_gating(
    mode: X86Mode,
    features: Features,
    instruction: Seq<Seq<char>>,
    args: Seq<CleanArgView>,
    data: OpdataView,
)
    requires
        instruction.len() > 0,
        sanitization(mode, args).addr_size is Some,
        address_prefix(
            mode,
            match sanitization(mode, args).addr_size.unwrap() {
                Some(size) => size,
                None => default_address_size(mode),
            },
        ) is Some,
        matched_form(mode, instruction.last(), sanitization(mode, args).args) == Ok::<
            OpdataView,
            MatchError,
        >(data),
        !features.spec_contains(data.features),
    ensures
        compilation(mode, features, instruction, args).plan == Err::<Seq<EmitView>, ErrorView>(
            ErrorView::DisabledFeatures(data.features.spec_difference(features)),
        ),
        compilation(mode, features, instruction, args).reports == sanitization(mode, args).reports,
{
    let checked = sanitization(mode, args);
    let addr_size = match checked.addr_size.unwrap() {
        Some(size) => size,
        None => default_address_size(mode),
    };
    lemma_feature_gating(
        mode,
        features,
        instruction.last(),
        instruction.drop_last(),
        data,
        checked.args,
        addr_size,
        address_prefix(mode, addr_size).unwrap(),
    );
    assert(checked.reports + Seq::<Report>::empty() =~= checked.reports);
}

/// Where a REX prefix is needed it is the last of the prefixes, directly before the opcode.
pub proof fn lemma_rex_prefix_is_last(
    mode: X86Mode,
    flags: Flags,
    prefix: Prefix,
    rm: Option<SizedArgView>,
    reg: Option<SizedArgView>,
    vvvv: Option<SizedArgView>,
)
    requires
        prefix.need_rex,
    ensures
        prefix_emits(mode, flags, prefix, None, rm, reg, vvvv).last() == rex_emit(
            prefix.sizes.rex_w,
            reg,
            rm,
        ),
{
}

/// The pieces of an instruction begin with its prefixes.
pub proof fn lemma_assembly_begins_with_prefixes(
    mode: X86Mode,
    data: OpdataView,
    prefix: Prefix,
    e: Extracted,
    plan: Seq<EmitView>,
)
    requires
        assembly(mode, data, prefix, e) == Ok::<Seq<EmitView>, OperandError>(plan),
    ensures
        opcode_parts(data.flags, data.ops) is Some,
        ({
            let prefixes = prefix_emits(
                mode,
                data.flags,
                prefix,
                opcode_parts(data.flags, data.ops).unwrap().map_sel,
                e.rm,
                e.reg,
                e.vvvv,
            );
            prefixes.len() <= plan.len() && plan.take(prefixes.len() as int) == prefixes
        }),
{
    reveal(assembly);
    let parts = opcode_parts(data.flags, data.ops).unwrap();
    let prefixes = prefix_emits(mode, data.flags, prefix, parts.map_sel, e.rm, e.reg, e.vvvv);
    assert(plan.take(prefixes.len() as int) =~= prefixes);
}

/// An instruction with a VEX or XOP prefix does not fail in 32-bit mode for its registers:
/// if its features are active, its prefixes are allowed, its operands can be sized, and
/// they have not 64 bits, then whatever registers the operands are or hold, extended or
/// not, the compilation gives what putting the pieces together gives, without a REX prefix.
pub proof fn lemma_vex_compiles_in_protected_mode(
    features: Features,
    op: Seq<char>,
    prefixes: Seq<Seq<char>>,
    data: OpdataView,
    args: Seq<CleanArgView>,
    addr_size: Size,
    pref_addr: bool,
    groups: (Option<u8>, Option<u8>),
    sizing: (Option<Size>, Seq<SizedArgView>),
    sizes: SizePrefixes,
    e: Extracted,
)
    requires
        data.flags.spec_intersects(Flags::VEX_OP | Flags::XOP_OP),
        features.spec_contains(data.features),
        legacy_prefixes(data.flags, prefixes).groups == Ok::<(Option<u8>, Option<u8>), ErrorView>(groups),
        operand_sizing(data, args) == Ok::<(Option<Size>, Seq<SizedArgView>), SizingError>(sizing),
        size_prefixes(data.flags, sizing.0, X86Mode::Protected) == Ok::<SizePrefixes, SizePrefixError>(
            sizes,
        ),
        !sizes.rex_w,
        extraction(data, sizing.1) == Some(e),
    ensures
        matched_compilation(
            X86Mode::Protected,
            features,
            op,
            prefixes,
            data,
            args,
            addr_size,
            pref_addr,
        ).plan == match assembly(
            X86Mode::Protected,
            data,
            Prefix {
                addr_size,
                pref_addr: pref_addr || data.flags.spec_contains(Flags::PREF_67),
                pref_seg: groups.1,
                pref_mod: mod_prefix(data.flags, groups.0),
                sizes,
                need_rex: false,
            },
            e,
        ) {
            Ok(plan) => Ok::<Seq<EmitView>, ErrorView>(plan),
            Err(err) => Err(err.error()),
        },
{
    reveal(matched_compilation);
    lemma_vex_in_protected_mode(data, sizing.1);
}

/// Whether a register is the known register rsp or r12, of four or eight bytes.
pub open spec fn is_stack_base(base: Register) -> bool {
    (base.kind.spec_is(RegId::RSP) || base.kind.spec_is(RegId::R12)) && (base.size == Size::DWORD
        || base.size == Size::QWORD)
}

/// The index that stands for none beside a base of rsp or r12.
pub open spec fn escape_index(base: Register) -> Index {
    (Register { size: base.size, kind: RegKind::Static(RegId::RSP) }, 1isize, None)
}

/// The check of the operands gives a memory reference with a base of rsp or r12 and without
/// an index the index that stands for none, and reports nothing for its registers; the size
/// of the address is that of the base.
pub proof fn lemma_stack_base_is_sanitized(
    mode: X86Mode,
    span: ErrorSpan,
    nosplit: bool,
    size: Option<Size>,
    disp_size: Option<Size>,
    base: Register,
    disp: Option<Value>,
)
    requires
        is_stack_base(base),
    ensures
        ({
            let arg = CleanArgView::Indirect { nosplit, size, disp_size, base: Some(base), index: None, disp };
            let check = memory_check(mode, span, arg, false);
            &&& check.addr_size == Some(base.size)
            &&& check.arg == Some(
                CleanArgView::Indirect {
                    nosplit,
                    size,
                    disp_size: displacement_size(disp_size, disp, Some(base.size)),
                    base: Some(base),
                    index: Some(escape_index(base)),
                    disp,
                },
            )
        }),
{
    reveal(memory_check);
    lemma_stack_base_escapes(mode, nosplit, base, RegKind::Static(RegId::RAX), disp_size, disp);
}

/// An extended base takes the REX prefix: where an operand that is encoded is a memory
/// reference whose base is a known register of the upper eight of its family, such as r12,
/// 64-bit mode encodes the operands with a REX prefix, unless a high byte register stands
/// beside it, which is an error.
pub proof fn lemma_extended_base_takes_rex(fmt: OpdataView, args: Seq<SizedArgView>, rex_w: bool, i: int)
    requires
        0 <= i < args.len(),
        i < format_pairs(fmt.args).len(),
        is_encoded(format_pairs(fmt.args)[i].0),
        args[i] matches SizedArgView::Indirect { base: Some(b), .. } && known_extended(b.kind),
    ensures
        rex_need(X86Mode::Long, fmt, args, rex_w) != Ok::<bool, RexError>(false),
        rex_need(X86Mode::Long, fmt, args, rex_w) is Err ==> rex_need(X86Mode::Long, fmt, args, rex_w)
            == Err::<bool, RexError>(RexError::HighByte),
{
    assert(encoded_has(format_pairs(fmt.args), args, i, RexTrait::Wants));
}

/// The escape for a base of rsp or r12 in a whole instruction. Where the operand for a
/// register or memory of an instruction is a memory reference with rsp or r12 as its base
/// and the index that stands for none, and the pieces of the instruction can be put
/// together, the piece after the prefixes and the opcode is a byte that addresses memory and
/// has the code of rsp in its field for a register or memory, and the piece after it is a
/// byte that is known, with the scale one, the code of rsp as its index and the code of the
/// base as its base. If the instruction has a REX prefix, that prefix is the piece before the
/// opcode, and its lowest bit is set exactly if the base is r12.
pub proof fn lemma_stack_base_instruction(
    mode: X86Mode,
    data: OpdataView,
    prefix: Prefix,
    e: Extracted,
    plan: Seq<EmitView>,
    base: Register,
    disp_size: Option<Size>,
    disp: Option<Value>,
)
    requires
        is_stack_base(base),
        prefix.addr_size == base.size,
        !data.flags.spec_contains(Flags::SHORT_ARG),
        e.rm == Some(
            SizedArgView::Indirect { disp_size, base: Some(base), index: Some(escape_index(base)), disp },
        ),
        assembly(mode, data, prefix, e) == Ok::<Seq<EmitView>, OperandError>(plan),
    ensures
        opcode_parts(data.flags, data.ops) is Some,
        ({
            let map_sel = opcode_parts(data.flags, data.ops).unwrap().map_sel;
            let prefixes = prefix_emits(mode, data.flags, prefix, map_sel, e.rm, e.reg, e.vvvv);
            let at = prefixes.len() as int + 1;
            &&& plan.len() >= at + 2
            &&& plan[at] matches EmitView::Byte { base: first, .. } && low_field(first) == 4 && high_field(
                first,
            ) != 3
            &&& plan[at + 1] matches EmitView::Byte { base: sib, patches, .. } && patches.len() == 0
                && high_field(sib) == 0 && middle_field(sib) == 4 && low_field(sib) == 4
            &&& map_sel is None && prefix.need_rex ==> at >= 2 && plan[at - 2] == rex_emit(
                prefix.sizes.rex_w,
                e.reg,
                e.rm,
            ) && (rex_emit(prefix.sizes.rex_w, e.reg, e.rm) matches EmitView::Byte { base: byte, .. }
                && (byte % 2 == 1 <==> base.kind.spec_is(RegId::R12)))
        }),
{
    reveal(assembly);
    reveal(operand_code);
    let parts = opcode_parts(data.flags, data.ops).unwrap();
    let prefixes = prefix_emits(mode, data.flags, prefix, parts.map_sel, e.rm, e.reg, e.vvvv);
    let opcode = opcode_emits(data.flags, parts.ops, e.rm).unwrap();
    assert(opcode.len() == 1);
    let reg_k = register_field(data.reg, e.reg).unwrap();
    let operand = operand_code(mode, prefix.addr_size, data.reg, e.reg, e.rm).unwrap();
    let tail = tail_code(mode, parts.immediate_opcode, e.ireg, e.immediates, operand.reloc).unwrap();
    assert(plan == prefixes + opcode + operand.emits + tail);
    lemma_stack_base_escapes(mode, false, base, reg_k, disp_size, disp);
    assert(operand == memory_code(
        mode,
        base.size,
        reg_k,
        disp_size,
        Some(base),
        Some(escape_index(base)),
        disp,
    ).unwrap());
    let at = prefixes.len() as int + 1;
    assert(plan[at] == operand.emits[0]);
    assert(plan[at + 1] == operand.emits[1]);
    if parts.map_sel is None && prefix.need_rex {
        lemma_rex_prefix_is_last(mode, data.flags, prefix, e.rm, e.reg, e.vvvv);
        assert(plan[at - 2] == prefixes.last());
        lemma_rex_bits(
            prefix.sizes.rex_w,
            super::encode::field_register(e.reg),
            super::encode::index_register(e.rm),
            super::encode::base_register(e.rm),
        );
    }
}

} // verus!
