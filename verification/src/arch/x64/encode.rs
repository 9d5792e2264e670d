//! The bytes of an instruction: prefixes, the bytes that select registers and addressing
//! modes, displacements, immediates and relocations.
use super::ast::{sized_views, Index, RegFamily, RegId, RegKind, Register, SizedArg, SizedArgView};
use super::compiler::{
    address, address_form, encode_scale, has_vector_index, index_is_vector, is_reg, opt_is,
    opt_view, scale_bits,
};
use super::emit::{
    emit_outcome, emit_views, keeps, knows_patches, lemma_evaluator_byte, literal_byte, patched, values_of,
    Emit, EmitView, Patch,
};
use crate::arch::eval::{bits_in, mask_shift_spec, Evaluator};
use super::x64data::Flags;
use super::{Error, ErrorView, X86Mode};
use crate::common::{
    Expr, Jump, JumpKind, JumpKindView, JumpView, NumericRepr, Size, Stmt, StmtView, Value,
};
use vstd::prelude::*;

verus! {

/// The register is addressed directly.
pub const MOD_DIRECT: u8 = 0b11;

/// Memory is addressed without displacement.
pub const MOD_NODISP: u8 = 0b00;

/// Memory is addressed by a vector index without a base.
pub const MOD_NOBASE: u8 = 0b00;

/// Memory is addressed with a displacement of one byte.
pub const MOD_DISP8: u8 = 0b01;

/// Memory is addressed with a displacement of the size of the address.
pub const MOD_DISP32: u8 = 0b10;

/// What a relocation is relative to.
#[derive(Debug, Clone, Copy, PartialEq, Eq, Structural)]
pub enum RelocationKind {
    /// A rip-relative relocation. No need to keep track of.
    Relative,
    /// An absolute offset to a rip-relative location.
    Absolute,
    /// A relative offset to an absolute location,
    Extern,
}

impl RelocationKind {
    pub open spec fn id(self) -> u8 {
        match self {
            RelocationKind::Relative => 0,
            RelocationKind::Absolute => 1,
            RelocationKind::Extern => 2,
        }
    }

    pub fn to_id(self) -> (r: u8)
        ensures
            r == self.id(),
    {
        match self {
            RelocationKind::Relative => 0,
            RelocationKind::Absolute => 1,
            RelocationKind::Extern => 2,
        }
    }
}

/// The byte that holds an addressing mode in its upper two bits and a register in each of
/// its two fields of three bits; with the scale bits in place of the mode, the byte that
/// holds scale, index and base.
pub open spec fn modrm(mode: u8, reg: u8, rm: u8) -> u8 {
    ((mode % 4) * 64 + (reg % 8) * 8 + rm % 8) as u8
}

/// The byte that holds an addressing mode and two registers.
pub fn modrm_byte(mode: u8, reg: u8, rm: u8) -> (r: u8)
    ensures
        r == modrm(mode, reg, rm),
{
    let byte: u8 = (mode & 3) << 6 | (reg & 7) << 3 | (rm & 7);
    assert(((mode & 3) << 6 | (reg & 7) << 3 | (rm & 7)) == ((mode % 4) * 64 + (reg % 8) * 8 + rm % 8) as u8)
        by (bit_vector);
    byte
}

/// The change that puts a register which only the caller knows into a byte by or.
pub open spec fn or_patch(kind: RegKind, mask: u64, shift: i8) -> Seq<Patch> {
    match kind {
        RegKind::Dynamic(_, expr) => seq![Patch::Or { expr, mask, shift }],
        RegKind::Static(_) => seq![],
    }
}

/// The change that puts a register which only the caller knows into a byte that holds it
/// inverted.
pub open spec fn and_not_patch(kind: RegKind, mask: u64, shift: i8) -> Seq<Patch> {
    match kind {
        RegKind::Dynamic(_, expr) => seq![Patch::AndNot { expr, mask, shift }],
        RegKind::Static(_) => seq![],
    }
}

/// Adds the change that puts a register which only the caller knows into a byte.
pub fn push_patch(patches: &mut Vec<Patch>, kind: RegKind, mask: u64, shift: i8, inverted: bool)
    ensures
        final(patches)@ == old(patches)@ + if inverted {
            and_not_patch(kind, mask, shift)
        } else {
            or_patch(kind, mask, shift)
        },
{
    match kind {
        RegKind::Dynamic(_, expr) => {
            if inverted {
                patches.push(Patch::AndNot { expr, mask, shift });
            } else {
                patches.push(Patch::Or { expr, mask, shift });
            }
            assert(patches@ =~= old(patches)@ + if inverted {
                and_not_patch(kind, mask, shift)
            } else {
                or_patch(kind, mask, shift)
            });
        },
        RegKind::Static(_) => {
            assert(patches@ =~= old(patches)@ + Seq::<Patch>::empty());
        },
    }
}

/// The piece for the byte that holds an addressing mode and two registers: a register that
/// only the caller knows is put into its field by the caller.
pub open spec fn modrm_emit(mode: u8, reg1: RegKind, reg2: RegKind) -> EmitView {
    EmitView::Byte {
        base: modrm(mode, reg1.spec_encode(), reg2.spec_encode()),
        patches: or_patch(reg1, 7, 3) + or_patch(reg2, 7, 0),
        coerce: false,
    }
}

/// The piece for the byte that holds scale, index and base where the scale is `scale` times
/// an expression of the caller.
pub open spec fn scaled_sib_emit(scale: u8, scale_expr: Expr, reg1: RegKind, reg2: RegKind) -> EmitView {
    EmitView::ScaledSib {
        base: modrm(0, reg1.spec_encode(), reg2.spec_encode()),
        patches: or_patch(reg1, 7, 3) + or_patch(reg2, 7, 0),
        scale,
        scale_expr,
    }
}

/// Adds the byte that holds an addressing mode and two registers, or scale, index and base.
pub fn compile_modrm_sib(plan: &mut Vec<Emit>, mode: u8, reg1: RegKind, reg2: RegKind)
    ensures
        emit_views(final(plan)@) == emit_views(old(plan)@).push(modrm_emit(mode, reg1, reg2)),
{
    let base = modrm_byte(mode, reg1.encode(), reg2.encode());
    let mut patches: Vec<Patch> = Vec::new();
    push_patch(&mut patches, reg1, 7, 3, false);
    push_patch(&mut patches, reg2, 7, 0, false);
    assert(patches@ =~= or_patch(reg1, 7, 3) + or_patch(reg2, 7, 0));
    let emit = Emit::Byte { base, patches, coerce: false };
    plan.push(emit);
    assert(emit_views(plan@) =~= emit_views(old(plan)@).push(emit@));
}

/// Adds the byte that holds scale, index and base where the scale is `scale` times an
/// expression of the caller.
pub fn compile_sib_dynscale(
    plan: &mut Vec<Emit>,
    scale: u8,
    scale_expr: Expr,
    reg1: RegKind,
    reg2: RegKind,
)
    ensures
        emit_views(final(plan)@) == emit_views(old(plan)@).push(
            scaled_sib_emit(scale, scale_expr, reg1, reg2),
        ),
{
    let base = modrm_byte(0, reg1.encode(), reg2.encode());
    let mut patches: Vec<Patch> = Vec::new();
    push_patch(&mut patches, reg1, 7, 3, false);
    push_patch(&mut patches, reg2, 7, 0, false);
    assert(patches@ =~= or_patch(reg1, 7, 3) + or_patch(reg2, 7, 0));
    let emit = Emit::ScaledSib { base, patches, scale, scale_expr };
    plan.push(emit);
    assert(emit_views(plan@) =~= emit_views(old(plan)@).push(emit@));
}

/// Adds a statement that is known.
pub fn push_stmt(plan: &mut Vec<Emit>, stmt: Stmt)
    ensures
        emit_views(final(plan)@) == emit_views(old(plan)@).push(EmitView::Stmt(stmt@)),
{
    let emit = Emit::Stmt(stmt);
    plan.push(emit);
    assert(emit_views(plan@) =~= emit_views(old(plan)@).push(emit@));
}

/// Adds a byte that is known.
pub fn push_byte(plan: &mut Vec<Emit>, value: u8)
    ensures
        emit_views(final(plan)@) == emit_views(old(plan)@).push(EmitView::byte(value)),
{
    let emit = literal_byte(value);
    plan.push(emit);
    assert(emit_views(plan@) =~= emit_views(old(plan)@).push(emit@));
}

/// The register in the register field of an instruction: that of the operand, or the first
/// where no operand goes there.
pub open spec fn field_register(arg: Option<SizedArgView>) -> RegKind {
    match arg {
        Some(SizedArgView::Direct { reg }) => reg.kind,
        _ => RegKind::Static(RegId::RAX),
    }
}

/// The base register of the operand for a register or memory, or the register itself; the
/// first where there is none.
pub open spec fn base_register(rm: Option<SizedArgView>) -> RegKind {
    match rm {
        Some(SizedArgView::Direct { reg }) => reg.kind,
        Some(SizedArgView::Indirect { base: Some(base), .. }) => base.kind,
        _ => RegKind::Static(RegId::RAX),
    }
}

/// The index register of the operand for a register or memory; the first where there is
/// none.
pub open spec fn index_register(rm: Option<SizedArgView>) -> RegKind {
    match rm {
        Some(SizedArgView::Indirect { index: Some(index), .. }) => index.0.kind,
        _ => RegKind::Static(RegId::RAX),
    }
}

/// The register in the register field of an instruction.
pub fn field_register_of(arg: &Option<SizedArg>) -> (r: RegKind)
    ensures
        r == field_register(opt_view(*arg)),
{
    match arg {
        Some(SizedArg::Direct { reg }) => reg.kind,
        _ => RegKind::Static(RegId::RAX),
    }
}

/// The base register of the operand for a register or memory.
pub fn base_register_of(rm: &Option<SizedArg>) -> (r: RegKind)
    ensures
        r == base_register(opt_view(*rm)),
{
    match rm {
        Some(SizedArg::Direct { reg }) => reg.kind,
        Some(SizedArg::Indirect { base: Some(base), .. }) => base.kind,
        _ => RegKind::Static(RegId::RAX),
    }
}

/// The index register of the operand for a register or memory.
pub fn index_register_of(rm: &Option<SizedArg>) -> (r: RegKind)
    ensures
        r == index_register(opt_view(*rm)),
{
    match rm {
        Some(SizedArg::Indirect { index: Some(index), .. }) => index.0.kind,
        _ => RegKind::Static(RegId::RAX),
    }
}

/// The number one for true, zero for false.
pub open spec fn bit(b: bool) -> int {
    if b {
        1
    } else {
        0
    }
}

/// The REX prefix: 0100 in the upper half, then the bit for 64 bit operands and the fourth
/// bits of the register, the index and the base.
pub open spec fn rex(rex_w: bool, reg: u8, index: u8, base: u8) -> u8 {
    (64 + 8 * bit(rex_w) + 4 * ((reg / 8) % 2) + 2 * ((index / 8) % 2) + (base / 8) % 2) as u8
}

/// The REX prefix.
pub fn rex_byte(rex_w: bool, reg: u8, index: u8, base: u8) -> (r: u8)
    ensures
        r == rex(rex_w, reg, index, base),
{
    let w: u8 = if rex_w {
        1
    } else {
        0
    };
    let byte: u8 = 0x40 | w << 3 | (reg & 8) >> 1 | (index & 8) >> 2 | (base & 8) >> 3;
    assert(w <= 1 ==> (0x40 | w << 3 | (reg & 8) >> 1 | (index & 8) >> 2 | (base & 8) >> 3) == (64 + 8
        * w + 4 * ((reg / 8) % 2) + 2 * ((index / 8) % 2) + (base / 8) % 2) as u8) by (bit_vector);
    byte
}

/// The piece for the REX prefix of an instruction.
pub open spec fn rex_emit(rex_w: bool, reg: Option<SizedArgView>, rm: Option<SizedArgView>) -> EmitView {
    let reg_k = field_register(reg);
    let index_k = index_register(rm);
    let base_k = base_register(rm);
    EmitView::Byte {
        base: rex(rex_w, reg_k.spec_encode(), index_k.spec_encode(), base_k.spec_encode()),
        patches: or_patch(reg_k, 8, -1i8) + or_patch(index_k, 8, -2i8) + or_patch(base_k, 8, -3i8),
        coerce: false,
    }
}

/// Adds the REX prefix of an instruction.
pub fn compile_rex(plan: &mut Vec<Emit>, rex_w: bool, reg: &Option<SizedArg>, rm: &Option<SizedArg>)
    ensures
        emit_views(final(plan)@) == emit_views(old(plan)@).push(
            rex_emit(rex_w, opt_view(*reg), opt_view(*rm)),
        ),
{
    let reg_k = field_register_of(reg);
    let index_k = index_register_of(rm);
    let base_k = base_register_of(rm);
    let base = rex_byte(rex_w, reg_k.encode(), index_k.encode(), base_k.encode());
    let mut patches: Vec<Patch> = Vec::new();
    push_patch(&mut patches, reg_k, 8, -1, false);
    push_patch(&mut patches, index_k, 8, -2, false);
    push_patch(&mut patches, base_k, 8, -3, false);
    assert(patches@ =~= or_patch(reg_k, 8, -1i8) + or_patch(index_k, 8, -2i8) + or_patch(base_k, 8, -3i8));
    let emit = Emit::Byte { base, patches, coerce: false };
    plan.push(emit);
    assert(emit_views(plan@) =~= emit_views(old(plan)@).push(emit@));
}

/// In the REX prefix of an instruction the bit of each register that is extended is set: the
/// bit of value four for the register field, the bit of value two for the index, the bit of
/// value one for the base or the register in the field for a register or memory.
pub proof fn lemma_rex_bits(rex_w: bool, reg: RegKind, index: RegKind, base: RegKind)
    ensures
        ({
            let byte = rex(rex_w, reg.spec_encode(), index.spec_encode(), base.spec_encode());
            &&& byte / 16 == 4
            &&& (byte / 8) % 2 == bit(rex_w)
            &&& (byte / 4) % 2 == bit(reg.spec_encode() >= 8)
            &&& (byte / 2) % 2 == bit(index.spec_encode() >= 8)
            &&& byte % 2 == bit(base.spec_encode() >= 8)
        }),
{
    assert(reg.spec_encode() < 16);
    assert(index.spec_encode() < 16);
    assert(base.spec_encode() < 16);
}

/// The first byte after the escape of a VEX or XOP prefix: the map of opcodes in the low
/// five bits, above it the inverted fourth bits of base, index and register. 32-bit mode has
/// no registers with a fourth bit.
pub open spec fn vex_byte1(mode: X86Mode, map_sel: u8, reg: u8, index: u8, base: u8) -> u8 {
    match mode {
        X86Mode::Long => (map_sel % 32 + 128 * (1 - (reg / 8) % 2) + 64 * (1 - (index / 8) % 2) + 32 * (1
            - (base / 8) % 2)) as u8,
        X86Mode::Protected => (map_sel % 32 + 224) as u8,
    }
}

/// The second byte after the escape of a VEX or XOP prefix: what stands for the legacy prefix
/// in the low two bits (nothing, 66, F3, F2), the bit for vectors of 256 bits, the inverted
/// second source register in four bits, and the bit for 64 bit operands.
pub open spec fn vex_byte2(prefix: u8, rex_w: bool, vvvv: u8, vex_l: bool) -> u8 {
    (prefix % 4 + 128 * bit(rex_w) + 8 * (15 - vvvv % 16) + 4 * bit(vex_l)) as u8
}

/// The byte after the escape of a VEX prefix of two bytes: the inverted fourth bit of the
/// register, and the low seven bits of what would be the second byte.
pub open spec fn vex_short_byte(byte1: u8, byte2: u8) -> u8 {
    ((byte1 / 128) * 128 + byte2 % 128) as u8
}

/// The first byte after the escape of a VEX or XOP prefix.
pub fn make_vex_byte1(mode: X86Mode, map_sel: u8, reg: u8, index: u8, base: u8) -> (r: u8)
    ensures
        r == vex_byte1(mode, map_sel, reg, index, base),
{
    match mode {
        X86Mode::Long => {
            let byte: u8 = (map_sel & 0x1F) | (!reg & 8) << 4 | (!index & 8) << 3 | (!base & 8) << 2;
            assert(((map_sel & 0x1F) | (!reg & 8) << 4 | (!index & 8) << 3 | (!base & 8) << 2) == (map_sel
                % 32 + 128 * (1 - (reg / 8) % 2) + 64 * (1 - (index / 8) % 2) + 32 * (1 - (base / 8)
                % 2)) as u8) by (bit_vector);
            byte
        },
        X86Mode::Protected => {
            let byte: u8 = (map_sel & 0x1F) | 0xE0;
            assert(((map_sel & 0x1F) | 0xE0) == (map_sel % 32 + 224) as u8) by (bit_vector);
            byte
        },
    }
}

/// The second byte after the escape of a VEX or XOP prefix.
pub fn make_vex_byte2(prefix: u8, rex_w: bool, vvvv: u8, vex_l: bool) -> (r: u8)
    ensures
        r == vex_byte2(prefix, rex_w, vvvv, vex_l),
{
    let w: u8 = if rex_w {
        1
    } else {
        0
    };
    let l: u8 = if vex_l {
        1
    } else {
        0
    };
    let byte: u8 = (prefix & 0x3) | w << 7 | (!vvvv & 0xF) << 3 | l << 2;
    assert(w <= 1 && l <= 1 ==> ((prefix & 0x3) | w << 7 | (!vvvv & 0xF) << 3 | l << 2) == (prefix % 4
        + 128 * w + 8 * (15 - vvvv % 16) + 4 * l) as u8) by (bit_vector);
    byte
}

/// The register that a VEX or XOP prefix holds in a field: 32-bit mode leaves out the fourth
/// bit of register, index and base, so that the first register stands there.
pub open spec fn vex_register(mode: X86Mode, kind: RegKind) -> RegKind {
    match mode {
        X86Mode::Long => kind,
        X86Mode::Protected => RegKind::Static(RegId::RAX),
    }
}

/// Whether a VEX prefix can have its short form: the instruction is no XOP instruction, its
/// opcode is of the first map, it has not the bit for 64 bit operands, and neither index nor
/// base is extended or may be.
pub open spec fn vex_is_short(
    flags: Flags,
    byte1: u8,
    byte2: u8,
    index: RegKind,
    base: RegKind,
) -> bool {
    flags.spec_contains(Flags::VEX_OP) && byte1 % 128 == 0x61 && byte2 / 128 == 0
        && !index.spec_is_dynamic() && !base.spec_is_dynamic()
}

/// The pieces for the VEX or XOP prefix of an instruction: the escape (C5 for the short form
/// of a VEX prefix, else C4; 8F for an XOP prefix) and the one or two bytes after it. A
/// register that only the caller knows is put into its field by the caller.
pub open spec fn vex_emits(
    mode: X86Mode,
    flags: Flags,
    reg: Option<SizedArgView>,
    rm: Option<SizedArgView>,
    map_sel: u8,
    rex_w: bool,
    vvvv: Option<SizedArgView>,
    vex_l: bool,
    prefix: u8,
) -> Seq<EmitView> {
    let reg_k = vex_register(mode, field_register(reg));
    let index_k = vex_register(mode, index_register(rm));
    let base_k = vex_register(mode, base_register(rm));
    let vvvv_k = field_register(vvvv);
    let byte1 = vex_byte1(mode, map_sel, reg_k.spec_encode(), index_k.spec_encode(), base_k.spec_encode());
    let byte2 = vex_byte2(prefix, rex_w, vvvv_k.spec_encode(), vex_l);
    if vex_is_short(flags, byte1, byte2, index_k, base_k) {
        seq![
            EmitView::byte(0xC5),
            EmitView::Byte {
                base: vex_short_byte(byte1, byte2),
                patches: and_not_patch(reg_k, 8, 4) + and_not_patch(vvvv_k, 0xF, 3),
                coerce: false,
            },
        ]
    } else {
        seq![
            EmitView::byte(
                if flags.spec_contains(Flags::VEX_OP) {
                    0xC4
                } else {
                    0x8F
                },
            ),
            EmitView::Byte {
                base: byte1,
                patches: and_not_patch(reg_k, 8, 4) + and_not_patch(index_k, 8, 3) + and_not_patch(
                    base_k,
                    8,
                    2,
                ),
                coerce: false,
            },
            EmitView::Byte { base: byte2, patches: and_not_patch(vvvv_k, 0xF, 3), coerce: false },
        ]
    }
}

/// Adds the VEX or XOP prefix of an instruction.
pub fn compile_vex_xop(
    plan: &mut Vec<Emit>,
    mode: X86Mode,
    flags: Flags,
    reg: &Option<SizedArg>,
    rm: &Option<SizedArg>,
    map_sel: u8,
    rex_w: bool,
    vvvv: &Option<SizedArg>,
    vex_l: bool,
    prefix: u8,
)
    ensures
        emit_views(final(plan)@) == emit_views(old(plan)@) + vex_emits(
            mode,
            flags,
            opt_view(*reg),
            opt_view(*rm),
            map_sel,
            rex_w,
            opt_view(*vvvv),
            vex_l,
            prefix,
        ),
{
    let first = RegKind::Static(RegId::RAX);
    let (reg_k, index_k, base_k) = match mode {
        X86Mode::Long => (field_register_of(reg), index_register_of(rm), base_register_of(rm)),
        X86Mode::Protected => (first, first, first),
    };
    let vvvv_k = field_register_of(vvvv);
    let byte1 = make_vex_byte1(mode, map_sel, reg_k.encode(), index_k.encode(), base_k.encode());
    let byte2 = make_vex_byte2(prefix, rex_w, vvvv_k.encode(), vex_l);
    let ghost before = emit_views(plan@);
    if flags.contains(Flags::VEX_OP) && byte1 % 128 == 0x61 && byte2 / 128 == 0 && !index_k.is_dynamic()
        && !base_k.is_dynamic() {
        // 2-byte vex
        push_byte(plan, 0xC5);
        let short: u8 = (byte1 / 128) * 128 + byte2 % 128;
        let mut patches: Vec<Patch> = Vec::new();
        push_patch(&mut patches, reg_k, 8, 4, true);
        push_patch(&mut patches, vvvv_k, 0xF, 3, true);
        assert(patches@ =~= and_not_patch(reg_k, 8, 4) + and_not_patch(vvvv_k, 0xF, 3));
        let emit = Emit::Byte { base: short, patches, coerce: false };
        let ghost mid = emit_views(plan@);
        plan.push(emit);
        assert(emit_views(plan@) =~= mid.push(emit@));
        assert(emit_views(plan@) =~= before + seq![EmitView::byte(0xC5), emit@]);
    } else {
        push_byte(plan, if flags.contains(Flags::VEX_OP) {
            0xC4
        } else {
            0x8F
        });
        let mut patches1: Vec<Patch> = Vec::new();
        push_patch(&mut patches1, reg_k, 8, 4, true);
        push_patch(&mut patches1, index_k, 8, 3, true);
        push_patch(&mut patches1, base_k, 8, 2, true);
        assert(patches1@ =~= and_not_patch(reg_k, 8, 4) + and_not_patch(index_k, 8, 3) + and_not_patch(
            base_k,
            8,
            2,
        ));
        let mut patches2: Vec<Patch> = Vec::new();
        push_patch(&mut patches2, vvvv_k, 0xF, 3, true);
        assert(patches2@ =~= and_not_patch(vvvv_k, 0xF, 3));
        let emit1 = Emit::Byte { base: byte1, patches: patches1, coerce: false };
        let emit2 = Emit::Byte { base: byte2, patches: patches2, coerce: false };
        let ghost mid0 = emit_views(plan@);
        plan.push(emit1);
        let ghost mid = emit_views(plan@);
        assert(mid =~= mid0.push(emit1@));
        plan.push(emit2);
        assert(emit_views(plan@) =~= mid.push(emit2@));
        assert(emit_views(plan@) =~= before + seq![mid0.last(), emit1@, emit2@]);
    }
}

/// What becomes of the bytes of an opcode: the bytes that are appended as they are, and the
/// piece for the last byte if a register is put into it.
pub open spec fn opcode_emits(flags: Flags, ops: Seq<u8>, rm: Option<SizedArgView>) -> Option<Seq<EmitView>> {
    if flags.spec_contains(Flags::SHORT_ARG) {
        if ops.len() == 0 {
            None
        } else {
            let head = EmitView::Stmt(StmtView::Extend(ops.drop_last()));
            match rm {
                Some(SizedArgView::Direct { reg }) => match reg.kind {
                    RegKind::Dynamic(_, expr) => Some(
                        seq![
                            head,
                            EmitView::Byte {
                                base: ops.last(),
                                patches: seq![Patch::Or { expr, mask: 7, shift: 0 }],
                                coerce: true,
                            },
                        ],
                    ),
                    RegKind::Static(id) => if ops.last() + id.spec_code() % 8 > 255 {
                        None
                    } else {
                        Some(seq![head, EmitView::byte((ops.last() + id.spec_code() % 8) as u8)])
                    },
                },
                _ => None,
            }
        }
    } else {
        Some(seq![EmitView::Stmt(StmtView::Extend(ops))])
    }
}

/// A copy of a part of the bytes of a vector.
pub fn copy_range(data: &Vec<u8>, from: usize, to: usize) -> (r: Vec<u8>)
    requires
        from <= to <= data@.len(),
    ensures
        r@ == data@.subrange(from as int, to as int),
{
    let mut v: Vec<u8> = Vec::new();
    let mut i: usize = from;
    while i < to
        invariant
            from <= i <= to,
            to <= data@.len(),
            v@ == data@.subrange(from as int, i as int),
        decreases to - i,
    {
        v.push(data[i]);
        i += 1;
        assert(v@ =~= data@.subrange(from as int, i as int));
    }
    v
}

/// Adds the bytes of the opcode `ops[from..to]`. With the flag `SHORT_ARG` the register of
/// `rm` is put into the low three bits of the last byte, which has to leave room for it.
pub fn compile_opcode(
    plan: &mut Vec<Emit>,
    flags: Flags,
    ops: &Vec<u8>,
    from: usize,
    to: usize,
    rm: &Option<SizedArg>,
) -> (r: Result<(), Error>)
    requires
        from <= to <= ops@.len(),
    ensures
        match opcode_emits(flags, ops@.subrange(from as int, to as int), opt_view(*rm)) {
            Some(emits) => r is Ok && emit_views(final(plan)@) == emit_views(old(plan)@) + emits,
            None => r matches Err(e) && e@ == (ErrorView::Generic { message: "bad formatting data"@ })
                && final(plan)@ == old(plan)@,
        },
{
    let ghost before = emit_views(plan@);
    let ghost bytes = ops@.subrange(from as int, to as int);
    if flags.contains(Flags::SHORT_ARG) {
        if from == to {
            return Err(Error::generic("bad formatting data"));
        }
        let last = ops[to - 1];
        assert(bytes.last() == last);
        let kind = match rm {
            Some(SizedArg::Direct { reg }) => reg.kind,
            _ => {
                return Err(Error::generic("bad formatting data"));
            },
        };
        let byte = match kind {
            RegKind::Dynamic(_, expr) => {
                let mut patches: Vec<Patch> = Vec::new();
                patches.push(Patch::Or { expr, mask: 7, shift: 0 });
                Emit::Byte { base: last, patches, coerce: true }
            },
            RegKind::Static(id) => {
                let low: u8 = id.code() % 8;
                if last > 255 - low {
                    return Err(Error::generic("bad formatting data"));
                }
                literal_byte(last + low)
            },
        };
        let head = copy_range(ops, from, to - 1);
        assert(head@ =~= bytes.drop_last());
        push_stmt(plan, Stmt::Extend(head));
        let ghost mid = emit_views(plan@);
        plan.push(byte);
        assert(emit_views(plan@) =~= mid.push(byte@));
        assert(emit_views(plan@) =~= before + seq![mid.last(), byte@]);
        Ok(())
    } else {
        let all = copy_range(ops, from, to);
        push_stmt(plan, Stmt::Extend(all));
        assert(emit_views(plan@) =~= before + seq![EmitView::Stmt(StmtView::Extend(bytes))]);
        Ok(())
    }
}

/// Why the operand for a register or memory cannot be encoded.
#[derive(Debug, Clone, Copy, PartialEq, Eq, Structural)]
pub enum OperandError {
    /// The entry of the opcode table does not go with the operands.
    Format,
    /// The scale of the index is none of 1, 2, 4 and 8.
    Scale,
    /// The displacement is a number that is too large for its size.
    Displacement,
    /// The bytes behind a relocation are more than its record can count.
    Offset,
    /// 64-bit mode has no relocations to an address that is known.
    Extern,
}

impl OperandError {
    /// The error that is returned for it. A scale that cannot be encoded has been reported
    /// when the operands were checked.
    pub open spec fn error(self) -> ErrorView {
        match self {
            OperandError::Format => ErrorView::Generic { message: "bad formatting data"@ },
            OperandError::Scale => ErrorView::Fatal,
            OperandError::Displacement => ErrorView::Generic { message: "Displacement out of range"@ },
            OperandError::Offset => ErrorView::Generic { message: "Relocation offset out of range"@ },
            OperandError::Extern => ErrorView::Generic {
                message: "Extern relocations are not supported in x64 mode"@,
            },
        }
    }

    pub fn to_error(self) -> (r: Error)
        ensures
            r@ == self.error(),
    {
        match self {
            OperandError::Format => Error::generic("bad formatting data"),
            OperandError::Scale => Error::Fatal,
            OperandError::Displacement => Error::generic("Displacement out of range"),
            OperandError::Offset => Error::generic("Relocation offset out of range"),
            OperandError::Extern => Error::generic("Extern relocations are not supported in x64 mode"),
        }
    }
}

/// A relocation of an instruction, before the bytes behind it have been counted.
#[derive(Debug, Clone, PartialEq, Eq)]
pub struct Reloc {
    pub target: Jump,
    pub size: Size,
    pub kind: RelocationKind,
}

/// What a relocation holds.
pub struct RelocView {
    pub target: JumpView,
    pub size: Size,
    pub kind: RelocationKind,
}

impl View for Reloc {
    type V = RelocView;

    open spec fn view(&self) -> RelocView {
        RelocView { target: self.target@, size: self.size, kind: self.kind }
    }
}

/// The view of an optional relocation.
pub open spec fn opt_reloc_view(reloc: Option<Reloc>) -> Option<RelocView> {
    match reloc {
        Some(r) => Some(r@),
        None => None,
    }
}

/// The pieces for the operand for a register or memory, and the relocation that it takes.
pub struct OperandCode {
    pub emits: Seq<EmitView>,
    pub reloc: Option<RelocView>,
}

/// The pieces without a relocation.
pub open spec fn plain_code(emits: Seq<EmitView>) -> Result<OperandCode, OperandError> {
    Ok(OperandCode { emits, reloc: None })
}

/// The piece for a statement that is known.
pub open spec fn stmt_emit(stmt: StmtView) -> EmitView {
    EmitView::Stmt(stmt)
}

/// The addressing mode of an address with a displacement: the displacement has one byte or
/// the size of the address.
pub open spec fn disp_mode(disp_size: Option<Size>) -> u8 {
    if disp_size == Some(Size::BYTE) {
        MOD_DISP8
    } else {
        MOD_DISP32
    }
}

/// The pieces for a displacement that goes with an addressing mode: the displacement in one
/// byte or in `wide`, both signed. Without a displacement the mode for one byte takes a
/// zero, and `filled` asks for four bytes of zero with the other modes.
pub open spec fn disp_emits(
    disp: Option<Value>,
    mode: u8,
    wide: NumericRepr,
    filled: bool,
) -> Result<
    Seq<EmitView>,
    OperandError,
> {
    match disp {
        Some(value) => match value.spec_convert(
            if mode == MOD_DISP8 {
                NumericRepr::signed_spec(Size::BYTE)
            } else {
                wide
            },
        ) {
            Some(converted) => Ok(seq![stmt_emit(StmtView::Const(converted))]),
            None => Err(OperandError::Displacement),
        },
        None => if filled {
            Ok(seq![stmt_emit(StmtView::Const(Value::dword_spec(0)))])
        } else if mode == MOD_DISP8 {
            Ok(seq![EmitView::byte(0)])
        } else {
            Ok(seq![])
        },
    }
}

/// The piece for the byte that holds scale, index and base.
pub open spec fn sib_emit(index: Index, base: RegKind) -> Result<EmitView, OperandError> {
    match index.2 {
        Some(expr) => Ok(scaled_sib_emit(index.1 as u8, expr, index.0.kind, base)),
        None => match scale_bits(index.1 as int) {
            Some(bits) => Ok(modrm_emit(bits, index.0.kind, base)),
            None => Err(OperandError::Scale),
        },
    }
}

/// The pieces for an address with a vector register as index. There is always a byte for
/// scale, index and base. With a base there is a displacement, of one byte if none is asked
/// for. Without a base the displacement has four bytes.
pub open spec fn vsib_code(
    reg: RegKind,
    disp_size: Option<Size>,
    base: Option<Register>,
    index: Index,
    disp: Option<Value>,
) -> Result<OperandCode, OperandError> {
    let (base_k, mode) = match base {
        Some(b) => (
            b.kind,
            if disp is Some {
                disp_mode(disp_size)
            } else {
                MOD_DISP8
            },
        ),
        None => (RegKind::Static(RegId::RBP), MOD_NOBASE),
    };
    match (sib_emit(index, base_k), disp_emits(disp, mode, NumericRepr::signed_spec(Size::DWORD), mode != MOD_DISP8)) {
        (Err(e), _) => Err(e),
        (_, Err(e)) => Err(e),
        (Ok(sib), Ok(tail)) => plain_code(
            seq![modrm_emit(mode, reg, RegKind::Static(RegId::RSP)), sib] + tail,
        ),
    }
}

/// The pieces for a 16 bit address, whose registers have been combined into one base. The
/// code of bp alone stands for an address without registers if there is no displacement, so
/// that bp alone takes a displacement of one byte.
pub open spec fn word_code(
    reg: RegKind,
    disp_size: Option<Size>,
    base: Option<Register>,
    disp: Option<Value>,
) -> Result<
    OperandCode,
    OperandError,
> {
    match base {
        None => Err(OperandError::Format),
        Some(b) => {
            let mode = if disp is Some {
                disp_mode(disp_size)
            } else if b.kind.spec_is(RegId::RSI) {
                MOD_DISP8
            } else {
                MOD_NODISP
            };
            match disp_emits(disp, mode, NumericRepr::signed_spec(Size::WORD), false) {
                Err(e) => Err(e),
                Ok(tail) => plain_code(seq![modrm_emit(mode, reg, b.kind)] + tail),
            }
        },
    }
}

/// The jump that stands for the address zero.
pub open spec fn null_jump() -> JumpView {
    JumpView { kind: JumpKindView::Bare(Value::byte_spec(0)), offset: None }
}

/// The pieces for an address that is relative to the instruction pointer: always with four
/// bytes of displacement. 32-bit mode has no such addresses; there the four bytes are zero
/// and take a relocation.
pub open spec fn rip_code(mode: X86Mode, reg: RegKind, disp: Option<Value>) -> Result<
    OperandCode,
    OperandError,
> {
    let first = modrm_emit(MOD_NODISP, reg, RegKind::Static(RegId::RBP));
    match mode {
        X86Mode::Long => match disp_emits(disp, MOD_NODISP, NumericRepr::signed_spec(Size::DWORD), true) {
            Err(e) => Err(e),
            Ok(tail) => plain_code(seq![first] + tail),
        },
        X86Mode::Protected => Ok(
            OperandCode {
                emits: seq![first, stmt_emit(StmtView::Const(Value::dword_spec(0)))],
                reloc: Some(
                    RelocView { target: null_jump(), size: Size::DWORD, kind: RelocationKind::Absolute },
                ),
            },
        ),
    }
}

/// Whether a base cannot be encoded without a displacement: rbp and r13 share their code
/// with the address without a base, and a register that is not known may be one of them.
pub open spec fn needs_displacement(base: Option<Register>) -> bool {
    opt_is(base, RegId::RBP) || opt_is(base, RegId::R13) || (base matches Some(b)
        && b.kind.spec_is_dynamic())
}

/// The pieces for an address of general purpose registers of 32 or 64 bits.
///
/// The displacement is left out if there is none, unless the base needs one, which then has
/// one byte; without a base it has four bytes in any case. With an index the field for a
/// register or memory holds the code of rsp, and a byte for scale, index and base follows,
/// where the code of rbp stands for no base. Without any register the field holds the code of
/// rbp; in 64-bit mode that would mean an address relative to the instruction pointer, so
/// that the byte for scale, index and base is used there, with neither.
pub open spec fn normal_code(
    mode: X86Mode,
    reg: RegKind,
    disp_size: Option<Size>,
    base: Option<Register>,
    index: Option<Index>,
    disp: Option<Value>,
) -> Result<OperandCode, OperandError> {
    let no_base = base is None;
    let md = if needs_displacement(base) && disp is None {
        MOD_DISP8
    } else if disp is None || no_base {
        MOD_NODISP
    } else {
        disp_mode(disp_size)
    };
    let rsp = RegKind::Static(RegId::RSP);
    let rbp = RegKind::Static(RegId::RBP);
    let head: Result<Seq<EmitView>, OperandError> = match (index, base) {
        (Some(i), _) => match sib_emit(
            i,
            match base {
                Some(b) => b.kind,
                None => rbp,
            },
        ) {
            Ok(sib) => Ok(seq![modrm_emit(md, reg, rsp), sib]),
            Err(e) => Err(e),
        },
        (None, Some(b)) => Ok(seq![modrm_emit(md, reg, b.kind)]),
        (None, None) => match mode {
            X86Mode::Protected => Ok(seq![modrm_emit(md, reg, rbp)]),
            X86Mode::Long => Ok(seq![modrm_emit(md, reg, rsp), modrm_emit(0, rsp, rbp)]),
        },
    };
    match (head, disp_emits(disp, md, NumericRepr::signed_spec(Size::DWORD), no_base)) {
        (Err(e), _) => Err(e),
        (_, Err(e)) => Err(e),
        (Ok(h), Ok(tail)) => plain_code(h + tail),
    }
}

/// The pieces for a memory reference whose registers are in the form in which they are
/// encoded, by the kind of its address: with a vector register as index; of 16 bits;
/// relative to the instruction pointer; of general purpose registers.
pub open spec fn memory_code(
    mode: X86Mode,
    addr_size: Size,
    reg: RegKind,
    disp_size: Option<Size>,
    base: Option<Register>,
    index: Option<Index>,
    disp: Option<Value>,
) -> Result<OperandCode, OperandError> {
    if index_is_vector(index) {
        vsib_code(reg, disp_size, base, index.unwrap(), disp)
    } else if addr_size == Size::WORD {
        word_code(reg, disp_size, base, disp)
    } else if base matches Some(b) && b.kind.spec_family() == RegFamily::RIP {
        rip_code(mode, reg, disp)
    } else {
        normal_code(mode, reg, disp_size, base, index, disp)
    }
}

/// The register field of an instruction: the register of the operand that goes there, else
/// the register with the number that the entry of the opcode table gives.
pub open spec fn register_field(data_reg: u8, reg: Option<SizedArgView>) -> Option<RegKind> {
    match reg {
        Some(SizedArgView::Direct { reg }) => Some(reg.kind),
        _ => match RegId::of_number(data_reg) {
            Some(id) => Some(RegKind::Static(id)),
            None => None,
        },
    }
}

/// The pieces for the operand for a register or memory, with the register field beside it:
/// for a register the byte that addresses it directly; for a memory reference see
/// [`memory_code`]; for a jump target the byte for an address relative to the instruction
/// pointer and four bytes of zero, which take a relocation. Nothing without such an operand.
#[verifier::opaque]
pub open spec fn operand_code(
    mode: X86Mode,
    addr_size: Size,
    data_reg: u8,
    reg: Option<SizedArgView>,
    rm: Option<SizedArgView>,
) -> Result<OperandCode, OperandError> {
    match rm {
        Some(SizedArgView::Direct { reg: rm_reg }) => match register_field(data_reg, reg) {
            None => Err(OperandError::Format),
            Some(reg_k) => plain_code(seq![modrm_emit(MOD_DIRECT, reg_k, rm_reg.kind)]),
        },
        Some(SizedArgView::Indirect { disp_size, base, index, disp }) => match register_field(
            data_reg,
            reg,
        ) {
            None => Err(OperandError::Format),
            Some(reg_k) => memory_code(mode, addr_size, reg_k, disp_size, base, index, disp),
        },
        Some(SizedArgView::IndirectJumpTarget { jump }) => match register_field(data_reg, reg) {
            None => Err(OperandError::Format),
            Some(reg_k) => Ok(
                OperandCode {
                    emits: seq![
                        modrm_emit(MOD_NODISP, reg_k, RegKind::Static(RegId::RBP)),
                        stmt_emit(StmtView::Const(Value::dword_spec(0))),
                    ],
                    reloc: Some(
                        RelocView {
                            target: jump,
                            size: Size::DWORD,
                            kind: match mode {
                                X86Mode::Long => RelocationKind::Relative,
                                X86Mode::Protected => RelocationKind::Absolute,
                            },
                        },
                    ),
                },
            ),
        },
        _ => plain_code(seq![]),
    }
}

/// Adds the pieces for a displacement that goes with an addressing mode.
pub fn compile_disp(
    plan: &mut Vec<Emit>,
    disp: Option<Value>,
    mode: u8,
    wide: NumericRepr,
    filled: bool,
) -> (r:
    Result<(), OperandError>)
    ensures
        match disp_emits(disp, mode, wide, filled) {
            Ok(emits) => r is Ok && emit_views(final(plan)@) == emit_views(old(plan)@) + emits,
            Err(e) => r == Err::<(), OperandError>(e),
        },
{
    let ghost before = emit_views(plan@);
    match disp {
        Some(value) => {
            let repr = if mode == MOD_DISP8 {
                NumericRepr::signed(Size::BYTE)
            } else {
                wide
            };
            match value.convert(repr) {
                Some(converted) => {
                    push_stmt(plan, Stmt::Const(converted));
                    assert(emit_views(plan@) =~= before + seq![stmt_emit(StmtView::Const(converted))]);
                    Ok(())
                },
                None => Err(OperandError::Displacement),
            }
        },
        None => {
            if filled {
                push_stmt(plan, Stmt::u32(0));
                assert(emit_views(plan@) =~= before + seq![
                    stmt_emit(StmtView::Const(Value::dword_spec(0))),
                ]);
            } else if mode == MOD_DISP8 {
                push_byte(plan, 0);
                assert(emit_views(plan@) =~= before + seq![EmitView::byte(0)]);
            } else {
                assert(emit_views(plan@) =~= before + Seq::<EmitView>::empty());
            }
            Ok(())
        },
    }
}

/// Adds the piece for the byte that holds scale, index and base.
pub fn compile_sib(
    plan: &mut Vec<Emit>,
    index: &Index,
    base: RegKind,
) -> (r: Result<(), OperandError>)
    ensures
        match sib_emit(*index, base) {
            Ok(emit) => r is Ok && emit_views(final(plan)@) == emit_views(old(plan)@).push(emit),
            Err(e) => r == Err::<(), OperandError>(e) && final(plan)@ == old(plan)@,
        },
{
    match index.2 {
        Some(expr) => {
            let scale: u8 = #[verifier::truncate]
            (index.1 as u8);
            compile_sib_dynscale(plan, scale, expr, index.0.kind, base);
            Ok(())
        },
        None => match encode_scale(index.1) {
            Some(bits) => {
                compile_modrm_sib(plan, bits, index.0.kind, base);
                Ok(())
            },
            None => Err(OperandError::Scale),
        },
    }
}

/// The addressing mode of an address with a displacement.
pub fn disp_mode_of(disp_size: &Option<Size>) -> (r: u8)
    ensures
        r == disp_mode(*disp_size),
{
    match disp_size {
        Some(Size::BYTE) => MOD_DISP8,
        _ => MOD_DISP32,
    }
}

/// The pieces for an address with a vector register as index.
pub fn compile_vsib(
    reg: RegKind,
    disp_size: Option<Size>,
    base: Option<Register>,
    index: Index,
    disp: Option<Value>,
) -> (r: Result<Vec<Emit>, OperandError>)
    ensures
        match vsib_code(reg, disp_size, base, index, disp) {
            Ok(code) => r matches Ok(plan) && emit_views(plan@) == code.emits && code.reloc is None,
            Err(e) => r == Err::<Vec<Emit>, OperandError>(e),
        },
{
    // VSIB addressing has simplified rules.
    let (base_k, mode) = match base {
        Some(b) => (
            b.kind,
            if disp.is_some() {
                disp_mode_of(&disp_size)
            } else {
                MOD_DISP8
            },
        ),
        None => (RegKind::Static(RegId::RBP), MOD_NOBASE),
    };
    let mut plan: Vec<Emit> = Vec::new();
    assert(emit_views(plan@) =~= Seq::empty());
    // always need a SIB byte for VSIB addressing
    compile_modrm_sib(&mut plan, mode, reg, RegKind::Static(RegId::RSP));
    let sib = compile_sib(&mut plan, &index, base_k);
    let ghost head = emit_views(plan@);
    let tail = compile_disp(&mut plan, disp, mode, NumericRepr::signed(Size::DWORD), mode != MOD_DISP8);
    match (sib, tail) {
        (Err(e), _) => Err(e),
        (_, Err(e)) => Err(e),
        (Ok(()), Ok(())) => {
            assert(head =~= seq![
                modrm_emit(mode, reg, RegKind::Static(RegId::RSP)),
                sib_emit(index, base_k).unwrap(),
            ]);
            Ok(plan)
        },
    }
}

/// The pieces for a 16 bit address.
pub fn compile_word(
    reg: RegKind,
    disp_size: Option<Size>,
    base: Option<Register>,
    disp: Option<Value>,
) -> (r:
    Result<Vec<Emit>, OperandError>)
    ensures
        match word_code(reg, disp_size, base, disp) {
            Ok(code) => r matches Ok(plan) && emit_views(plan@) == code.emits && code.reloc is None,
            Err(e) => r == Err::<Vec<Emit>, OperandError>(e),
        },
{
    // 16-bit mode: the index/base combination has been encoded in the base register.
    let b = match base {
        Some(b) => b,
        None => {
            return Err(OperandError::Format);
        },
    };
    let mode = if disp.is_some() {
        disp_mode_of(&disp_size)
    } else if b.kind.is(RegId::RSI) {
        MOD_DISP8
    } else {
        MOD_NODISP
    };
    let mut plan: Vec<Emit> = Vec::new();
    assert(emit_views(plan@) =~= Seq::empty());
    // only need a mod.r/m byte for 16-bit addressing
    compile_modrm_sib(&mut plan, mode, reg, b.kind);
    let ghost head = emit_views(plan@);
    assert(head =~= seq![modrm_emit(mode, reg, b.kind)]);
    match compile_disp(&mut plan, disp, mode, NumericRepr::signed(Size::WORD), false) {
        Ok(()) => Ok(plan),
        Err(e) => Err(e),
    }
}

/// The pieces for an address that is relative to the instruction pointer, and the
/// relocation that it takes.
pub fn compile_rip(mode: X86Mode, reg: RegKind, disp: Option<Value>) -> (r: Result<
    (Vec<Emit>, Option<Reloc>),
    OperandError,
>)
    ensures
        match rip_code(mode, reg, disp) {
            Ok(code) => r matches Ok(done) && emit_views(done.0@) == code.emits && opt_reloc_view(done.1)
                == code.reloc,
            Err(e) => r == Err::<(Vec<Emit>, Option<Reloc>), OperandError>(e),
        },
{
    let mut plan: Vec<Emit> = Vec::new();
    assert(emit_views(plan@) =~= Seq::empty());
    // encode the RIP + disp32 or disp32 form
    compile_modrm_sib(&mut plan, MOD_NODISP, reg, RegKind::Static(RegId::RBP));
    let ghost head = emit_views(plan@);
    assert(head =~= seq![modrm_emit(MOD_NODISP, reg, RegKind::Static(RegId::RBP))]);
    match mode {
        X86Mode::Long => match compile_disp(
            &mut plan,
            disp,
            MOD_NODISP,
            NumericRepr::signed(Size::DWORD),
            true,
        ) {
            Ok(()) => Ok((plan, None)),
            Err(e) => Err(e),
        },
        X86Mode::Protected => {
            // x86 doesn't actually allow RIP-relative addressing
            // but we can work around it with relocations
            push_stmt(&mut plan, Stmt::u32(0));
            assert(emit_views(plan@) =~= seq![
                modrm_emit(MOD_NODISP, reg, RegKind::Static(RegId::RBP)),
                stmt_emit(StmtView::Const(Value::dword_spec(0))),
            ]);
            let target = Jump::new(JumpKind::Bare(Value::Byte(0)), None);
            Ok((plan, Some(Reloc { target, size: Size::DWORD, kind: RelocationKind::Absolute })))
        },
    }
}

/// The pieces for an address of general purpose registers of 32 or 64 bits.
pub fn compile_normal(
    mode: X86Mode,
    reg: RegKind,
    disp_size: Option<Size>,
    base: Option<Register>,
    index: Option<Index>,
    disp: Option<Value>,
) -> (r: Result<Vec<Emit>, OperandError>)
    ensures
        match normal_code(mode, reg, disp_size, base, index, disp) {
            Ok(code) => r matches Ok(plan) && emit_views(plan@) == code.emits && code.reloc is None,
            Err(e) => r == Err::<Vec<Emit>, OperandError>(e),
        },
{
    let no_base = base.is_none();
    let dynamic = match base {
        Some(b) => b.kind.is_dynamic(),
        None => false,
    };
    let rbp_base = is_reg(&base, RegId::RBP) || is_reg(&base, RegId::R13) || dynamic;
    // RBP can only be encoded as base if a displacement is present.
    let md = if rbp_base && disp.is_none() {
        MOD_DISP8
    } else if disp.is_none() || no_base {
        // mode_nodisp if no base is to be encoded. note that in these scenarios a 32-bit disp has to be emitted
        MOD_NODISP
    } else {
        disp_mode_of(&disp_size)
    };
    let rsp = RegKind::Static(RegId::RSP);
    let rbp = RegKind::Static(RegId::RBP);
    let mut plan: Vec<Emit> = Vec::new();
    assert(emit_views(plan@) =~= Seq::empty());
    let head = match (index, base) {
        (Some(i), _) => {
            // to encode the lack of a base we encode RBP
            let base_k = match base {
                Some(b) => b.kind,
                None => rbp,
            };
            // escape into the SIB byte
            compile_modrm_sib(&mut plan, md, reg, rsp);
            let sib = compile_sib(&mut plan, &i, base_k);
            proof {
                if sib is Ok {
                    assert(emit_views(plan@) =~= seq![modrm_emit(md, reg, rsp), sib_emit(i, base_k).unwrap()]);
                }
            }
            sib
        },
        (None, Some(b)) => {
            // no index, only a base. RBP at MOD_NODISP is used to encode RIP, but this is already handled
            compile_modrm_sib(&mut plan, md, reg, b.kind);
            assert(emit_views(plan@) =~= seq![modrm_emit(md, reg, b.kind)]);
            Ok(())
        },
        (None, None) => {
            // no base, no index. only disp. Easy in x86, but in x64 escape, use RBP as base and RSP as index
            match mode {
                X86Mode::Protected => {
                    compile_modrm_sib(&mut plan, md, reg, rbp);
                    assert(emit_views(plan@) =~= seq![modrm_emit(md, reg, rbp)]);
                },
                X86Mode::Long => {
                    compile_modrm_sib(&mut plan, md, reg, rsp);
                    compile_modrm_sib(&mut plan, 0, rsp, rbp);
                    assert(emit_views(plan@) =~= seq![modrm_emit(md, reg, rsp), modrm_emit(0, rsp, rbp)]);
                },
            }
            Ok(())
        },
    };
    let tail = compile_disp(&mut plan, disp, md, NumericRepr::signed(Size::DWORD), no_base);
    match (head, tail) {
        (Err(e), _) => Err(e),
        (_, Err(e)) => Err(e),
        (Ok(()), Ok(())) => Ok(plan),
    }
}

/// The register field of an instruction.
pub fn register_field_of(data_reg: u8, reg: &Option<SizedArg>) -> (r: Option<RegKind>)
    ensures
        r == register_field(data_reg, opt_view(*reg)),
{
    match reg {
        Some(SizedArg::Direct { reg }) => Some(reg.kind),
        _ => RegKind::from_number(data_reg),
    }
}

/// The pieces for the operand for a register or memory, with the register field beside it,
/// and the relocation that the operand takes. See [`operand_code`].
pub fn compile_operand(
    mode: X86Mode,
    addr_size: Size,
    data_reg: u8,
    reg: &Option<SizedArg>,
    rm: Option<SizedArg>,
) -> (r: Result<(Vec<Emit>, Option<Reloc>), OperandError>)
    ensures
        match operand_code(mode, addr_size, data_reg, opt_view(*reg), opt_view(rm)) {
            Ok(code) => r matches Ok(done) && emit_views(done.0@) == code.emits && opt_reloc_view(done.1)
                == code.reloc,
            Err(e) => r == Err::<(Vec<Emit>, Option<Reloc>), OperandError>(e),
        },
{
    reveal(operand_code);
    let mut plan: Vec<Emit> = Vec::new();
    assert(emit_views(plan@) =~= Seq::empty());
    let rm = match rm {
        Some(rm) => rm,
        None => {
            return Ok((plan, None));
        },
    };
    if let SizedArg::Immediate { .. } = &rm {
        return Ok((plan, None));
    }
    if let SizedArg::JumpTarget { .. } = &rm {
        return Ok((plan, None));
    }
    let reg_k = match register_field_of(data_reg, reg) {
        Some(reg_k) => reg_k,
        None => {
            return Err(OperandError::Format);
        },
    };
    match rm {
        // Direct ModRM addressing
        SizedArg::Direct { reg: rm_reg } => {
            compile_modrm_sib(&mut plan, MOD_DIRECT, reg_k, rm_reg.kind);
            assert(emit_views(plan@) =~= seq![modrm_emit(MOD_DIRECT, reg_k, rm_reg.kind)]);
            Ok((plan, None))
        },
        // Indirect ModRM (+SIB) addressing
        SizedArg::Indirect { disp_size, base, index, disp } => {
            let rip = match base {
                Some(b) => b.kind.family() == RegFamily::RIP,
                None => false,
            };
            if has_vector_index(&index) {
                match index {
                    Some(i) => match compile_vsib(reg_k, disp_size, base, i, disp) {
                        Ok(plan) => Ok((plan, None)),
                        Err(e) => Err(e),
                    },
                    None => Err(OperandError::Format),
                }
            } else if addr_size == Size::WORD {
                match compile_word(reg_k, disp_size, base, disp) {
                    Ok(plan) => Ok((plan, None)),
                    Err(e) => Err(e),
                }
            } else if rip {
                compile_rip(mode, reg_k, disp)
            } else {
                match compile_normal(mode, reg_k, disp_size, base, index, disp) {
                    Ok(plan) => Ok((plan, None)),
                    Err(e) => Err(e),
                }
            }
        },
        // jump-target relative addressing
        SizedArg::IndirectJumpTarget { jump } => {
            compile_modrm_sib(&mut plan, MOD_NODISP, reg_k, RegKind::Static(RegId::RBP));
            push_stmt(&mut plan, Stmt::u32(0));
            assert(emit_views(plan@) =~= seq![
                modrm_emit(MOD_NODISP, reg_k, RegKind::Static(RegId::RBP)),
                stmt_emit(StmtView::Const(Value::dword_spec(0))),
            ]);
            let kind = match mode {
                X86Mode::Long => RelocationKind::Relative,
                X86Mode::Protected => RelocationKind::Absolute,
            };
            Ok((plan, Some(Reloc { target: jump, size: Size::DWORD, kind })))
        },
        _ => Ok((plan, None)),
    }
}

/// The number of bytes that an immediate or a jump target takes in the instruction; none
/// for other operands.
pub open spec fn imm_width(arg: SizedArgView) -> int {
    match arg {
        SizedArgView::Immediate { value } => value.spec_repr().size.bytes(),
        SizedArgView::JumpTarget { size, .. } => size.bytes(),
        _ => 0,
    }
}

/// The numbers of bytes that the operands take.
pub open spec fn imm_widths(imms: Seq<SizedArgView>) -> Seq<u8> {
    Seq::new(imms.len(), |k: int| imm_width(imms[k]) as u8)
}

/// The sum of the numbers from the place `from` on.
pub open spec fn sum_from(widths: Seq<u8>, from: int) -> int
    decreases widths.len() - from,
{
    if from < 0 || from >= widths.len() {
        0
    } else {
        widths[from] + sum_from(widths, from + 1)
    }
}

/// A relocation with what says how many bytes of the instruction follow its slot: `lead`
/// bytes and the immediates from the place `from` on.
pub struct PlacedRelocView {
    pub reloc: RelocView,
    pub lead: int,
    pub from: int,
}

/// A relocation with what says how many bytes of the instruction follow its slot.
#[derive(Debug, Clone, PartialEq, Eq)]
pub struct PlacedReloc {
    pub reloc: Reloc,
    pub lead: u8,
    pub from: usize,
}

impl View for PlacedReloc {
    type V = PlacedRelocView;

    open spec fn view(&self) -> PlacedRelocView {
        PlacedRelocView { reloc: self.reloc@, lead: self.lead as int, from: self.from as int }
    }
}

/// What a list of relocations holds.
pub open spec fn placed_views(relocs: Seq<PlacedReloc>) -> Seq<PlacedRelocView> {
    relocs.map_values(|r: PlacedReloc| r@)
}

/// The low four bits of a number.
pub open spec fn low_nibble(value: crate::common::Number) -> u8 {
    (value.bits() % 16) as u8
}

/// The piece for the byte that holds a register in its upper half, and the immediates that
/// are left for bytes of their own.
pub struct HalfByte {
    pub emit: EmitView,
    pub rest: Seq<SizedArgView>,
}

/// The piece for the byte that holds the register `kind` in its upper half. The first
/// immediate, if there is one, has to be of the size of a byte and goes to the lower half.
/// What only the caller knows is put in its place by the caller.
pub open spec fn half_byte(kind: RegKind, imms: Seq<SizedArgView>) -> Result<HalfByte, OperandError> {
    let upper = (16 * kind.spec_encode()) as u8;
    let reg_patch = or_patch(kind, 0xF, 4);
    if imms.len() == 0 {
        Ok(HalfByte { emit: EmitView::Byte { base: upper, patches: reg_patch, coerce: true }, rest: imms })
    } else {
        match imms[0] {
            SizedArgView::Immediate { value: Value::Expr(expr) } => if expr.repr.size == Size::BYTE {
                Ok(
                    HalfByte {
                        emit: EmitView::Byte {
                            base: upper,
                            patches: reg_patch + seq![Patch::Or { expr, mask: 0xF, shift: 0 }],
                            coerce: true,
                        },
                        rest: imms.skip(1),
                    },
                )
            } else {
                Err(OperandError::Format)
            },
            SizedArgView::Immediate { value: Value::Number(nr) } => if nr.spec_repr().size == Size::BYTE {
                Ok(
                    HalfByte {
                        emit: if kind.spec_is_dynamic() {
                            EmitView::Byte {
                                base: upper,
                                patches: reg_patch + seq![Patch::OrByte { value: low_nibble(nr) }],
                                coerce: true,
                            }
                        } else {
                            EmitView::Byte {
                                base: (upper + low_nibble(nr)) as u8,
                                patches: reg_patch,
                                coerce: true,
                            }
                        },
                        rest: imms.skip(1),
                    },
                )
            } else {
                Err(OperandError::Format)
            },
            _ => Err(OperandError::Format),
        }
    }
}

/// The kind of a relocation to a jump target: relative, unless the target is an address that
/// is known, which 64-bit mode does not have.
pub open spec fn jump_relocation(mode: X86Mode, jump: JumpView) -> Result<RelocationKind, OperandError> {
    if jump.kind is Bare {
        match mode {
            X86Mode::Protected => Ok(RelocationKind::Extern),
            X86Mode::Long => Err(OperandError::Extern),
        }
    } else {
        Ok(RelocationKind::Relative)
    }
}

/// The pieces for immediates and jump targets, and the relocations that they take.
pub struct ImmediateCode {
    pub emits: Seq<EmitView>,
    pub relocs: Seq<PlacedRelocView>,
}

/// The pieces for the immediates and jump targets from `from` on, added to those before: an
/// immediate is appended as it is, a jump target leaves a slot of zeros, which takes a
/// relocation.
pub open spec fn immediates_from(
    mode: X86Mode,
    imms: Seq<SizedArgView>,
    from: int,
    code: ImmediateCode,
) -> Result<
    ImmediateCode,
    OperandError,
>
    decreases imms.len() - from,
{
    if from < 0 || from >= imms.len() {
        Ok(code)
    } else {
        match imms[from] {
            SizedArgView::Immediate { value } => immediates_from(
                mode,
                imms,
                from + 1,
                ImmediateCode { emits: code.emits.push(stmt_emit(StmtView::Const(value))), ..code },
            ),
            SizedArgView::JumpTarget { jump, size } => match jump_relocation(mode, jump) {
                Err(e) => Err(e),
                Ok(kind) => immediates_from(
                    mode,
                    imms,
                    from + 1,
                    ImmediateCode {
                        emits: code.emits.push(stmt_emit(StmtView::Const(Value::zero_spec(size)))),
                        relocs: code.relocs.push(
                            PlacedRelocView {
                                reloc: RelocView { target: jump, size, kind },
                                lead: 0,
                                from: from + 1,
                            },
                        ),
                    },
                ),
            },
            _ => Err(OperandError::Format),
        }
    }
}

/// The record of a relocation: the number of bytes between its slot and the end of the
/// instruction, and the size of the slot; in 32-bit mode the kind as well.
pub open spec fn reloc_record(mode: X86Mode, offset: u8, size: Size, kind: RelocationKind) -> Seq<u8> {
    match mode {
        X86Mode::Protected => seq![offset, size.bytes() as u8, kind.id()],
        X86Mode::Long => seq![offset, size.bytes() as u8],
    }
}

/// The statements of the relocations from `from` on, added to those before.
pub open spec fn relocations_from(
    mode: X86Mode,
    relocs: Seq<PlacedRelocView>,
    widths: Seq<u8>,
    from: int,
    emits: Seq<EmitView>,
) -> Result<Seq<EmitView>, OperandError>
    decreases relocs.len() - from,
{
    if from < 0 || from >= relocs.len() {
        Ok(emits)
    } else {
        let placed = relocs[from];
        let offset = placed.lead + sum_from(widths, placed.from);
        if offset > 255 {
            Err(OperandError::Offset)
        } else {
            relocations_from(
                mode,
                relocs,
                widths,
                from + 1,
                emits.push(
                    stmt_emit(
                        placed.reloc.target.encode(
                            reloc_record(mode, offset as u8, placed.reloc.size, placed.reloc.kind),
                        ),
                    ),
                ),
            )
        }
    }
}

/// The pieces for what follows the operand for a register or memory: the last byte of the
/// opcode where the entry puts it there; the byte that holds a register in its upper half;
/// the immediates and jump targets; at last the statements of the relocations, first that of
/// the operand for a register or memory, then those of the jump targets in their order.
#[verifier::opaque]
pub open spec fn tail_code(
    mode: X86Mode,
    immediate_opcode: Option<u8>,
    ireg: Option<SizedArgView>,
    imms: Seq<SizedArgView>,
    operand_reloc: Option<RelocView>,
) -> Result<Seq<EmitView>, OperandError> {
    let opcode: Seq<EmitView> = match immediate_opcode {
        Some(code) => seq![EmitView::byte(code)],
        None => seq![],
    };
    let half: Result<(Seq<EmitView>, Seq<SizedArgView>), OperandError> = match ireg {
        Some(SizedArgView::Direct { reg }) => match half_byte(reg.kind, imms) {
            Ok(h) => Ok((seq![h.emit], h.rest)),
            Err(e) => Err(e),
        },
        _ => Ok((seq![], imms)),
    };
    match half {
        Err(e) => Err(e),
        Ok((half_emits, rest)) => {
            let first: Seq<PlacedRelocView> = match operand_reloc {
                Some(reloc) => seq![
                    PlacedRelocView { reloc, lead: (opcode.len() + half_emits.len()) as int, from: 0 },
                ],
                None => seq![],
            };
            match immediates_from(
                mode,
                rest,
                0,
                ImmediateCode { emits: opcode + half_emits, relocs: first },
            ) {
                Err(e) => Err(e),
                Ok(code) => relocations_from(mode, code.relocs, imm_widths(rest), 0, code.emits),
            }
        },
    }
}

/// The number of bytes that an immediate or a jump target takes in the instruction.
pub fn imm_width_of(arg: &SizedArg) -> (r: u8)
    ensures
        r == imm_width(arg@),
        r <= 32,
{
    match arg {
        SizedArg::Immediate { value } => value.size().in_bytes(),
        SizedArg::JumpTarget { size, .. } => size.in_bytes(),
        _ => 0,
    }
}

/// The numbers of bytes that the operands take.
pub fn imm_widths_of(imms: &Vec<SizedArg>) -> (r: Vec<u8>)
    ensures
        r@ == imm_widths(sized_views(imms@)),
{
    let mut widths: Vec<u8> = Vec::new();
    let ghost views = sized_views(imms@);
    let mut i: usize = 0;
    while i < imms.len()
        invariant
            i <= imms.len(),
            views == sized_views(imms@),
            widths@ == imm_widths(views).take(i as int),
        decreases imms.len() - i,
    {
        assert(views[i as int] == imms@[i as int]@);
        widths.push(imm_width_of(&imms[i]));
        i += 1;
        assert(widths@ =~= imm_widths(views).take(i as int));
    }
    assert(widths@ =~= imm_widths(views));
    widths
}

/// The number of bytes between the slot of a relocation and the end of the instruction, if
/// a byte can hold that number.
pub fn reloc_offset(widths: &Vec<u8>, lead: u8, from: usize) -> (r: Option<u8>)
    requires
        lead <= 2,
    ensures
        r == if lead + sum_from(widths@, from as int) > 255 {
            None
        } else {
            Some((lead + sum_from(widths@, from as int)) as u8)
        },
{
    let mut total: u16 = lead as u16;
    let ghost mut exact: int = lead as int;
    let mut k: usize = from;
    if from >= widths.len() {
        return Some(lead);
    }
    while k < widths.len()
        invariant
            from <= k <= widths.len(),
            exact >= 0,
            exact + sum_from(widths@, k as int) == lead + sum_from(widths@, from as int),
            total as int == if exact > 256 {
                256
            } else {
                exact
            },
        decreases widths.len() - k,
    {
        let step: u16 = widths[k] as u16;
        proof {
            exact = exact + widths@[k as int];
        }
        total = if total + step > 256 {
            256
        } else {
            total + step
        };
        k += 1;
    }
    if total > 255 {
        None
    } else {
        Some(total as u8)
    }
}

/// The low four bits of a number.
pub fn low_nibble_of(value: crate::common::Number) -> (r: u8)
    ensures
        r == low_nibble(value),
        r < 16,
{
    let byte: u8 = value.as_u8();
    let ghost bits = value.bits();
    assert(((bits & 0xFF) as u8 & 0xF) == (bits % 16) as u8 && ((bits & 0xFF) as u8 & 0xF) < 16)
        by (bit_vector);
    byte & 0xF
}

/// The piece for the byte that holds the register `kind` in its upper half, and the
/// immediates that are left for bytes of their own. See [`half_byte`].
pub fn compile_half_byte(
    kind: RegKind,
    imms: Vec<SizedArg>,
) -> (r: Result<(Emit, Vec<SizedArg>), OperandError>)
    ensures
        match half_byte(kind, sized_views(imms@)) {
            Ok(half) => r matches Ok(done) && done.0@ == half.emit && sized_views(done.1@) == half.rest,
            Err(e) => r == Err::<(Emit, Vec<SizedArg>), OperandError>(e),
        },
{
    let code: u8 = kind.encode();
    let mut base: u8 = 16 * code;
    let mut patches: Vec<Patch> = Vec::new();
    push_patch(&mut patches, kind, 0xF, 4, false);
    assert(patches@ =~= or_patch(kind, 0xF, 4));
    let mut rest = imms;
    let ghost views = sized_views(imms@);
    // if immediates are present, the register argument will be merged into the
    // first immediate byte.
    if rest.len() > 0 {
        assert(views[0] == rest@[0]@);
        let ghost all = rest@;
        let first = rest.remove(0);
        assert forall|j: int| 0 <= j < rest@.len() implies sized_views(rest@)[j] == views.skip(1)[j] by {
            assert(views[j + 1] == all[j + 1]@);
        }
        assert(sized_views(rest@) =~= views.skip(1));
        match first {
            SizedArg::Immediate { value: Value::Expr(expr) } => {
                if expr.repr.size != Size::BYTE {
                    return Err(OperandError::Format);
                }
                let ghost before = patches@;
                patches.push(Patch::Or { expr, mask: 0xF, shift: 0 });
                assert(patches@ =~= before + seq![Patch::Or { expr, mask: 0xF, shift: 0 }]);
            },
            SizedArg::Immediate { value: Value::Number(nr) } => {
                if nr.repr().size != Size::BYTE {
                    return Err(OperandError::Format);
                }
                let low = low_nibble_of(nr);
                if kind.is_dynamic() {
                    let ghost before = patches@;
                    patches.push(Patch::OrByte { value: low });
                    assert(patches@ =~= before + seq![Patch::OrByte { value: low }]);
                } else {
                    base = base + low;
                }
            },
            _ => {
                return Err(OperandError::Format);
            },
        }
    } else {
        assert(sized_views(rest@) =~= views);
    }
    Ok((Emit::Byte { base, patches, coerce: true }, rest))
}

/// The kind of a relocation to a jump target.
pub fn jump_relocation_of(mode: X86Mode, jump: &Jump) -> (r: Result<RelocationKind, OperandError>)
    ensures
        r == jump_relocation(mode, jump@),
{
    if let JumpKind::Bare(_) = &jump.kind {
        match mode {
            X86Mode::Protected => Ok(RelocationKind::Extern),
            X86Mode::Long => Err(OperandError::Extern),
        }
    } else {
        Ok(RelocationKind::Relative)
    }
}

/// Adds the pieces for immediates and jump targets and the relocations that they take, see
/// [`immediates_from`].
pub fn compile_immediates(
    mode: X86Mode,
    imms: Vec<SizedArg>,
    plan: &mut Vec<Emit>,
    relocs: &mut Vec<PlacedReloc>,
) -> (r: Result<(), OperandError>)
    requires
        forall|k: int| 0 <= k < old(relocs)@.len() ==> (#[trigger] old(relocs)@[k]).lead <= 2,
    ensures
        forall|k: int| 0 <= k < final(relocs)@.len() ==> (#[trigger] final(relocs)@[k]).lead <= 2,
        match immediates_from(
            mode,
            sized_views(imms@),
            0,
            ImmediateCode { emits: emit_views(old(plan)@), relocs: placed_views(old(relocs)@) },
        ) {
            Ok(code) => r is Ok && emit_views(final(plan)@) == code.emits && placed_views(final(relocs)@)
                == code.relocs,
            Err(e) => r == Err::<(), OperandError>(e),
        },
{
    let ghost views = sized_views(imms@);
    let ghost start = ImmediateCode { emits: emit_views(plan@), relocs: placed_views(relocs@) };
    let count: usize = imms.len();
    let mut left = imms;
    let mut i: usize = 0;
    while left.len() > 0
        invariant
            views == sized_views(imms@),
            start == (ImmediateCode {
                emits: emit_views(old(plan)@),
                relocs: placed_views(old(relocs)@),
            }),
            views.len() == count,
            views.len() == i + left.len(),
            sized_views(left@) == views.skip(i as int),
            forall|k: int| 0 <= k < relocs@.len() ==> (#[trigger] relocs@[k]).lead <= 2,
            immediates_from(mode, views, 0, start) == immediates_from(
                mode,
                views,
                i as int,
                ImmediateCode { emits: emit_views(plan@), relocs: placed_views(relocs@) },
            ),
        decreases left.len(),
    {
        let ghost before = sized_views(left@);
        let ghost rest = left@;
        assert(before[0] == left@[0]@);
        let arg = left.remove(0);
        assert forall|j: int| 0 <= j < left@.len() implies sized_views(left@)[j] == views.skip(i + 1)[j] by {
            assert(before[j + 1] == rest[j + 1]@);
        }
        assert(sized_views(left@) =~= views.skip(i + 1));
        match arg {
            SizedArg::Immediate { value } => {
                push_stmt(plan, Stmt::Const(value));
            },
            SizedArg::JumpTarget { jump, size } => {
                let kind = match jump_relocation_of(mode, &jump) {
                    Ok(kind) => kind,
                    Err(e) => {
                        return Err(e);
                    },
                };
                // the slot that the relocation fills
                push_stmt(plan, Stmt::zeroed(size));
                // add the new relocation
                let ghost old_relocs = placed_views(relocs@);
                let placed = PlacedReloc { reloc: Reloc { target: jump, size, kind }, lead: 0, from: i + 1 };
                relocs.push(placed);
                assert(placed_views(relocs@) =~= old_relocs.push(placed@));
            },
            _ => {
                return Err(OperandError::Format);
            },
        }
        i += 1;
    }
    Ok(())
}

/// The record of a relocation.
pub fn reloc_record_of(mode: X86Mode, offset: u8, size: Size, kind: RelocationKind) -> (r: Vec<u8>)
    ensures
        r@ == reloc_record(mode, offset, size, kind),
{
    let mut data: Vec<u8> = Vec::new();
    data.push(offset);
    data.push(size.in_bytes());
    match mode {
        X86Mode::Protected => {
            data.push(kind.to_id());
            assert(data@ =~= reloc_record(mode, offset, size, kind));
        },
        X86Mode::Long => {
            assert(data@ =~= reloc_record(mode, offset, size, kind));
        },
    }
    data
}

/// Adds the statements of relocations, see [`relocations_from`].
pub fn compile_relocations(
    mode: X86Mode,
    relocs: Vec<PlacedReloc>,
    widths: &Vec<u8>,
    plan: &mut Vec<Emit>,
) -> (r:
    Result<(), OperandError>)
    requires
        forall|k: int| 0 <= k < relocs@.len() ==> (#[trigger] relocs@[k]).lead <= 2,
    ensures
        match relocations_from(mode, placed_views(relocs@), widths@, 0, emit_views(old(plan)@)) {
            Ok(emits) => r is Ok && emit_views(final(plan)@) == emits,
            Err(e) => r == Err::<(), OperandError>(e),
        },
{
    let ghost views = placed_views(relocs@);
    let ghost start = emit_views(plan@);
    let mut left = relocs;
    let ghost mut i: int = 0;
    while left.len() > 0
        invariant
            0 <= i,
            views == placed_views(relocs@),
            start == emit_views(old(plan)@),
            views.len() == i + left.len(),
            placed_views(left@) == views.skip(i),
            forall|k: int| 0 <= k < left@.len() ==> (#[trigger] left@[k]).lead <= 2,
            relocations_from(mode, views, widths@, 0, start) == relocations_from(
                mode,
                views,
                widths@,
                i,
                emit_views(plan@),
            ),
        decreases left.len(),
    {
        let ghost before = placed_views(left@);
        let ghost rest = left@;
        assert(before[0] == left@[0]@);
        let placed = left.remove(0);
        assert forall|j: int| 0 <= j < left@.len() implies placed_views(left@)[j] == views.skip(i + 1)[j] by {
            assert(before[j + 1] == rest[j + 1]@);
        }
        assert(placed_views(left@) =~= views.skip(i + 1));
        assert(placed == rest[0]);
        let offset = match reloc_offset(widths, placed.lead, placed.from) {
            Some(offset) => offset,
            None => {
                return Err(OperandError::Offset);
            },
        };
        let data = reloc_record_of(mode, offset, placed.reloc.size, placed.reloc.kind);
        push_stmt(plan, placed.reloc.target.encode(data.as_slice()));
        proof {
            i = i + 1;
        }
    }
    Ok(())
}

/// The pieces for what follows the operand for a register or memory, see [`tail_code`].
pub fn compile_tail(
    mode: X86Mode,
    immediate_opcode: Option<u8>,
    ireg: Option<SizedArg>,
    imms: Vec<SizedArg>,
    operand_reloc: Option<Reloc>,
) -> (r: Result<Vec<Emit>, OperandError>)
    ensures
        match tail_code(mode, immediate_opcode, opt_view(ireg), sized_views(imms@), opt_reloc_view(operand_reloc)) {
            Ok(emits) => r matches Ok(plan) && emit_views(plan@) == emits,
            Err(e) => r == Err::<Vec<Emit>, OperandError>(e),
        },
{
    reveal(tail_code);
    let mut plan: Vec<Emit> = Vec::new();
    let mut lead: u8 = 0;
    assert(emit_views(plan@) =~= Seq::empty());
    // opcode encoded after the displacement
    if let Some(code) = immediate_opcode {
        push_byte(&mut plan, code);
        lead = lead + 1;
    }
    let ghost opcode = emit_views(plan@);
    // register in immediate argument
    let rest = match ireg {
        Some(SizedArg::Direct { reg }) => match compile_half_byte(reg.kind, imms) {
            Ok((emit, rest)) => {
                plan.push(emit);
                assert(emit_views(plan@) =~= opcode + seq![emit@]);
                lead = lead + 1;
                rest
            },
            Err(e) => {
                return Err(e);
            },
        },
        _ => {
            assert(emit_views(plan@) =~= opcode + Seq::<EmitView>::empty());
            imms
        },
    };
    let mut relocs: Vec<PlacedReloc> = Vec::new();
    assert(placed_views(relocs@) =~= Seq::empty());
    if let Some(reloc) = operand_reloc {
        let placed = PlacedReloc { reloc, lead, from: 0 };
        relocs.push(placed);
        assert(placed_views(relocs@) =~= seq![placed@]);
    }
    let widths = imm_widths_of(&rest);
    match compile_immediates(mode, rest, &mut plan, &mut relocs) {
        Ok(()) => {},
        Err(e) => {
            return Err(e);
        },
    }
    match compile_relocations(mode, relocs, &widths, &mut plan) {
        Ok(()) => Ok(plan),
        Err(e) => Err(e),
    }
}

/// The base and the index of a byte that holds scale, index and base, and the field for a
/// register or memory of a byte that holds an addressing mode.
pub open spec fn low_field(byte: u8) -> int {
    (byte % 8) as int
}

/// The index of a byte that holds scale, index and base, and the register field of a byte
/// that holds an addressing mode.
pub open spec fn middle_field(byte: u8) -> int {
    ((byte / 8) % 8) as int
}

/// The addressing mode of a byte that holds one, and the scale of a byte that holds scale,
/// index and base.
pub open spec fn high_field(byte: u8) -> int {
    (byte / 64) as int
}

/// The byte that holds an addressing mode and two registers holds them in its fields.
pub proof fn lemma_modrm_fields(mode: u8, reg: u8, rm: u8)
    ensures
        high_field(modrm(mode, reg, rm)) == mode % 4,
        middle_field(modrm(mode, reg, rm)) == reg % 8,
        low_field(modrm(mode, reg, rm)) == rm % 8,
{
}

/// A base of rsp or r12 escapes into the byte for scale, index and base: a memory reference
/// with one of the two as its base and without an index is encoded with the code of rsp in
/// the field for a register or memory, which announces that byte, and the byte holds the
/// code of rsp as its index, which stands for none, and the base as its base, with the scale
/// one.
pub proof fn lemma_stack_base_escapes(
    mode: X86Mode,
    nosplit: bool,
    base: Register,
    reg: RegKind,
    disp_size: Option<Size>,
    disp: Option<Value>,
)
    requires
        base.kind.spec_is(RegId::RSP) || base.kind.spec_is(RegId::R12),
        base.size == Size::DWORD || base.size == Size::QWORD,
    ensures
        ({
            let form = address_form(mode, nosplit, Some(base), None);
            let escape: Index = (Register { size: base.size, kind: RegKind::Static(RegId::RSP) }, 1isize, None);
            &&& form == address(Some(base), Some(escape), Some(base.size))
            &&& memory_code(mode, base.size, reg, disp_size, Some(base), Some(escape), disp) matches Ok(code)
                ==> {
                &&& code.emits.len() >= 2
                &&& code.emits[0] matches EmitView::Byte { base: first, .. } && low_field(first) == 4
                &&& code.emits[1] matches EmitView::Byte { base: sib, patches, .. } && patches.len() == 0
                    && high_field(sib) == 0 && middle_field(sib) == 4 && low_field(sib)
                    == base.kind.spec_encode() % 8
            }
        }),
{
    reveal(address_form);
    let escape: Index = (Register { size: base.size, kind: RegKind::Static(RegId::RSP) }, 1isize, None);
    assert(base.kind.spec_family() == RegFamily::LEGACY);
    assert(!index_is_vector(Some(escape)));
    let rsp = RegKind::Static(RegId::RSP);
    assert(rsp.spec_encode() == 4);
    assert(sib_emit(escape, base.kind) == Ok::<EmitView, OperandError>(modrm_emit(0, rsp, base.kind)));
    assert(or_patch(rsp, 7, 3) + or_patch(base.kind, 7, 0) =~= Seq::<Patch>::empty());
    match normal_code(mode, reg, disp_size, Some(base), Some(escape), disp) {
        Ok(code) => {
            let md = if needs_displacement(Some(base)) && disp is None {
                MOD_DISP8
            } else if disp is None {
                MOD_NODISP
            } else {
                disp_mode(disp_size)
            };
            let head = seq![modrm_emit(md, reg, rsp), modrm_emit(0, rsp, base.kind)];
            let tail = disp_emits(disp, md, NumericRepr::signed_spec(Size::DWORD), false).unwrap();
            assert(code.emits == head + tail);
            assert(code.emits[0] == head[0]);
            assert(code.emits[1] == head[1]);
        },
        Err(_) => {},
    }
}

/// The code of a register: the one that is known, or the low four bits of the value of the
/// expression that selects the register.
pub open spec fn code_under(kind: RegKind, values: spec_fn(Expr) -> u64) -> u8 {
    match kind {
        RegKind::Static(id) => id.spec_code(),
        RegKind::Dynamic(_, expr) => (values(expr) % 16) as u8,
    }
}

/// What the change for a register makes of a byte: nothing for a register that is known.
proof fn lemma_patched_register(
    base: u8,
    before: Seq<Patch>,
    kind: RegKind,
    mask: u64,
    shift: i8,
    inverted: bool,
    values: spec_fn(Expr) -> u64,
)
    ensures
        ({
            let patch = if inverted {
                and_not_patch(kind, mask, shift)
            } else {
                or_patch(kind, mask, shift)
            };
            let byte = patched(base, before, values);
            patched(base, before + patch, values) == match kind {
                RegKind::Static(_) => byte,
                RegKind::Dynamic(_, expr) => if inverted {
                    !mask_shift_spec(values(expr), mask, shift) & byte
                } else {
                    mask_shift_spec(values(expr), mask, shift) | byte
                },
            }
        }),
{
    let patch = if inverted {
        and_not_patch(kind, mask, shift)
    } else {
        or_patch(kind, mask, shift)
    };
    match kind {
        RegKind::Static(_) => {
            assert(before + patch =~= before);
        },
        RegKind::Dynamic(_, expr) => {
            assert((before + patch).drop_last() =~= before);
            assert((before + patch).last() == patch[0]);
        },
    }
}

/// A register that only the caller knows is encoded like one that is known: with the
/// values of the expressions that select registers, the changes of the piece for a byte that
/// holds an addressing mode and two registers make the byte that holds the registers with
/// these values as their codes.
pub proof fn lemma_dynamic_modrm(
    mode: u8,
    reg1: RegKind,
    reg2: RegKind,
    values: spec_fn(Expr) -> u64,
)
    ensures
        modrm_emit(mode, reg1, reg2) matches EmitView::Byte { base, patches, .. } && patched(
            base,
            patches,
            values,
        ) == modrm(mode, code_under(reg1, values), code_under(reg2, values)),
{
    let base = modrm(mode, reg1.spec_encode(), reg2.spec_encode());
    let none = Seq::<Patch>::empty();
    lemma_patched_register(base, none, reg1, 7, 3, false, values);
    assert(none + or_patch(reg1, 7, 3) =~= or_patch(reg1, 7, 3));
    lemma_patched_register(base, or_patch(reg1, 7, 3), reg2, 7, 0, false, values);
    let d1 = reg1.spec_is_dynamic();
    let d2 = reg2.spec_is_dynamic();
    let s1 = reg1.spec_encode();
    let s2 = reg2.spec_encode();
    let v1: u64 = match reg1 {
        RegKind::Dynamic(_, expr) => values(expr),
        _ => 0,
    };
    let v2: u64 = match reg2 {
        RegKind::Dynamic(_, expr) => values(expr),
        _ => 0,
    };
    let c1: u8 = code_under(reg1, values);
    let c2: u8 = code_under(reg2, values);
    let b: u64 = base as u64;
    let p1: u64 = if d1 {
        ((v1 & 7) << 3u64) | b
    } else {
        b
    };
    let p2: u64 = if d2 {
        ((v2 & 7) << 0u64) | p1
    } else {
        p1
    };
    assert(p2 == ((mode % 4) * 64 + (c1 % 8) * 8 + c2 % 8) as u8) by (bit_vector)
        requires
            b == ((mode % 4) * 64 + (s1 % 8) * 8 + s2 % 8) as u8,
            d1 ==> s1 == 0 && c1 == (v1 % 16) as u8,
            !d1 ==> c1 == s1,
            d2 ==> s2 == 0 && c2 == (v2 % 16) as u8,
            !d2 ==> c2 == s2,
            p1 == if d1 {
                ((v1 & 7) << 3u64) | b
            } else {
                b
            },
            p2 == if d2 {
                ((v2 & 7) << 0u64) | p1
            } else {
                p1
            },
    ;
}

/// A register that only the caller knows is encoded like one that is known: with the
/// values of the expressions that select registers, the changes of the piece for a REX prefix
/// make the prefix for the registers with these values as their codes. So the bit of each
/// register whose code is eight or more is set.
pub proof fn lemma_dynamic_rex(
    rex_w: bool,
    reg: Option<SizedArgView>,
    rm: Option<SizedArgView>,
    values: spec_fn(Expr) -> u64,
)
    ensures
        rex_emit(rex_w, reg, rm) matches EmitView::Byte { base, patches, .. } && patched(base, patches, values)
            == rex(
            rex_w,
            code_under(field_register(reg), values),
            code_under(index_register(rm), values),
            code_under(base_register(rm), values),
        ),
{
    let reg_k = field_register(reg);
    let index_k = index_register(rm);
    let base_k = base_register(rm);
    let base = rex(rex_w, reg_k.spec_encode(), index_k.spec_encode(), base_k.spec_encode());
    let none = Seq::<Patch>::empty();
    let first = or_patch(reg_k, 8, -1i8);
    let second = first + or_patch(index_k, 8, -2i8);
    lemma_patched_register(base, none, reg_k, 8, -1i8, false, values);
    assert(none + first =~= first);
    lemma_patched_register(base, first, index_k, 8, -2i8, false, values);
    lemma_patched_register(base, second, base_k, 8, -3i8, false, values);
    let d1 = reg_k.spec_is_dynamic();
    let d2 = index_k.spec_is_dynamic();
    let d3 = base_k.spec_is_dynamic();
    let s1 = reg_k.spec_encode();
    let s2 = index_k.spec_encode();
    let s3 = base_k.spec_encode();
    let v1: u64 = match reg_k {
        RegKind::Dynamic(_, expr) => values(expr),
        _ => 0,
    };
    let v2: u64 = match index_k {
        RegKind::Dynamic(_, expr) => values(expr),
        _ => 0,
    };
    let v3: u64 = match base_k {
        RegKind::Dynamic(_, expr) => values(expr),
        _ => 0,
    };
    let c1: u8 = code_under(reg_k, values);
    let c2: u8 = code_under(index_k, values);
    let c3: u8 = code_under(base_k, values);
    let w: u8 = if rex_w {
        1
    } else {
        0
    };
    let b: u64 = base as u64;
    let p1: u64 = if d1 {
        ((v1 & 8) >> 1u64) | b
    } else {
        b
    };
    let p2: u64 = if d2 {
        ((v2 & 8) >> 2u64) | p1
    } else {
        p1
    };
    let p3: u64 = if d3 {
        ((v3 & 8) >> 3u64) | p2
    } else {
        p2
    };
    assert(p3 == (64 + 8 * w + 4 * ((c1 / 8) % 2) + 2 * ((c2 / 8) % 2) + (c3 / 8) % 2) as u8) by (bit_vector)
        requires
            w <= 1,
            s1 < 16 && s2 < 16 && s3 < 16,
            b == (64 + 8 * w + 4 * ((s1 / 8) % 2) + 2 * ((s2 / 8) % 2) + (s3 / 8) % 2) as u8,
            d1 ==> s1 == 0 && c1 == (v1 % 16) as u8,
            !d1 ==> c1 == s1,
            d2 ==> s2 == 0 && c2 == (v2 % 16) as u8,
            !d2 ==> c2 == s2,
            d3 ==> s3 == 0 && c3 == (v3 % 16) as u8,
            !d3 ==> c3 == s3,
            p1 == if d1 {
                ((v1 & 8) >> 1u64) | b
            } else {
                b
            },
            p2 == if d2 {
                ((v2 & 8) >> 2u64) | p1
            } else {
                p1
            },
            p3 == if d3 {
                ((v3 & 8) >> 3u64) | p2
            } else {
                p2
            },
    ;
}

/// A register that only the caller knows is encoded like one that is known: with the
/// values of the expressions that select registers, the changes of the pieces for a VEX or
/// XOP prefix make the bytes of the prefix for the registers with these values as their
/// codes.
pub proof fn lemma_dynamic_vex(
    mode: X86Mode,
    flags: Flags,
    reg: Option<SizedArgView>,
    rm: Option<SizedArgView>,
    map_sel: u8,
    rex_w: bool,
    vvvv: Option<SizedArgView>,
    vex_l: bool,
    prefix: u8,
    values: spec_fn(Expr) -> u64,
)
    ensures
        ({
            let emits = vex_emits(mode, flags, reg, rm, map_sel, rex_w, vvvv, vex_l, prefix);
            let byte1 = vex_byte1(
                mode,
                map_sel,
                code_under(vex_register(mode, field_register(reg)), values),
                code_under(vex_register(mode, index_register(rm)), values),
                code_under(vex_register(mode, base_register(rm)), values),
            );
            let byte2 = vex_byte2(prefix, rex_w, code_under(field_register(vvvv), values), vex_l);
            if emits.len() == 2 {
                emits[1] matches EmitView::Byte { base, patches, .. } && patched(base, patches, values)
                    == vex_short_byte(byte1, byte2)
            } else {
                &&& emits.len() == 3
                &&& emits[1] matches EmitView::Byte { base, patches, .. } && patched(base, patches, values)
                    == byte1
                &&& emits[2] matches EmitView::Byte { base, patches, .. } && patched(base, patches, values)
                    == byte2
            }
        }),
{
    let reg_k = vex_register(mode, field_register(reg));
    let index_k = vex_register(mode, index_register(rm));
    let base_k = vex_register(mode, base_register(rm));
    let vvvv_k = field_register(vvvv);
    let s1 = reg_k.spec_encode();
    let s2 = index_k.spec_encode();
    let s3 = base_k.spec_encode();
    let s4 = vvvv_k.spec_encode();
    let byte1 = vex_byte1(mode, map_sel, s1, s2, s3);
    let byte2 = vex_byte2(prefix, rex_w, s4, vex_l);
    let d1 = reg_k.spec_is_dynamic();
    let d2 = index_k.spec_is_dynamic();
    let d3 = base_k.spec_is_dynamic();
    let d4 = vvvv_k.spec_is_dynamic();
    let v1: u64 = match reg_k {
        RegKind::Dynamic(_, expr) => values(expr),
        _ => 0,
    };
    let v2: u64 = match index_k {
        RegKind::Dynamic(_, expr) => values(expr),
        _ => 0,
    };
    let v3: u64 = match base_k {
        RegKind::Dynamic(_, expr) => values(expr),
        _ => 0,
    };
    let v4: u64 = match vvvv_k {
        RegKind::Dynamic(_, expr) => values(expr),
        _ => 0,
    };
    let c1: u8 = code_under(reg_k, values);
    let c2: u8 = code_under(index_k, values);
    let c3: u8 = code_under(base_k, values);
    let c4: u8 = code_under(vvvv_k, values);
    let w: u8 = if rex_w {
        1
    } else {
        0
    };
    let l: u8 = if vex_l {
        1
    } else {
        0
    };
    let long = mode == X86Mode::Long;
    let none = Seq::<Patch>::empty();
    // the second byte
    let b2: u64 = byte2 as u64;
    let q: u64 = if d4 {
        !((v4 & 0xF) << 3u64) & b2
    } else {
        b2
    };
    lemma_patched_register(byte2, none, vvvv_k, 0xF, 3, true, values);
    assert(none + and_not_patch(vvvv_k, 0xF, 3) =~= and_not_patch(vvvv_k, 0xF, 3));
    assert(q == (prefix % 4 + 128 * w + 8 * (15 - c4 % 16) + 4 * l) as u8) by (bit_vector)
        requires
            w <= 1 && l <= 1,
            s4 < 16,
            b2 == (prefix % 4 + 128 * w + 8 * (15 - s4 % 16) + 4 * l) as u8,
            d4 ==> s4 == 0 && c4 == (v4 % 16) as u8,
            !d4 ==> c4 == s4,
            q == if d4 {
                !((v4 & 0xF) << 3u64) & b2
            } else {
                b2
            },
    ;
    if vex_is_short(flags, byte1, byte2, index_k, base_k) {
        // the byte of the short form
        let short = vex_short_byte(byte1, byte2);
        let first = and_not_patch(reg_k, 8, 4);
        lemma_patched_register(short, none, reg_k, 8, 4, true, values);
        assert(none + first =~= first);
        lemma_patched_register(short, first, vvvv_k, 0xF, 3, true, values);
        let b: u64 = short as u64;
        let b1: u8 = byte1;
        let p1: u64 = if d1 {
            !((v1 & 8) << 4u64) & b
        } else {
            b
        };
        let p2: u64 = if d4 {
            !((v4 & 0xF) << 3u64) & p1
        } else {
            p1
        };
        let m: u8 = (map_sel % 32) as u8;
        assert(p2 == ((((if long {
            m + 128 * (1 - (c1 / 8) % 2) + 64 * (1 - (c2 / 8) % 2) + 32 * (1 - (c3 / 8) % 2)
        } else {
            m + 224
        }) as u8) / 128) * 128 + ((prefix % 4 + 128 * w + 8 * (15 - c4 % 16) + 4 * l) as u8) % 128) as u8)
            by (bit_vector)
            requires
                w <= 1 && l <= 1,
                m < 32,
                s1 < 16 && s2 < 16 && s3 < 16 && s4 < 16,
                b1 == (if long {
                    m + 128 * (1 - (s1 / 8) % 2) + 64 * (1 - (s2 / 8) % 2) + 32 * (1 - (s3 / 8) % 2)
                } else {
                    m + 224
                }) as u8,
                b2 == (prefix % 4 + 128 * w + 8 * (15 - s4 % 16) + 4 * l) as u8,
                b == ((b1 / 128) * 128 + (b2 as u8) % 128) as u8,
                c2 == s2 && c3 == s3,
                d1 ==> s1 == 0 && c1 == (v1 % 16) as u8,
                !d1 ==> c1 == s1,
                d4 ==> s4 == 0 && c4 == (v4 % 16) as u8,
                !d4 ==> c4 == s4,
                p1 == if d1 {
                    !((v1 & 8) << 4u64) & b
                } else {
                    b
                },
                p2 == if d4 {
                    !((v4 & 0xF) << 3u64) & p1
                } else {
                    p1
                },
                !long ==> !d1,
        ;
    } else {
        // the first byte
        let first = and_not_patch(reg_k, 8, 4);
        let second = first + and_not_patch(index_k, 8, 3);
        lemma_patched_register(byte1, none, reg_k, 8, 4, true, values);
        assert(none + first =~= first);
        lemma_patched_register(byte1, first, index_k, 8, 3, true, values);
        lemma_patched_register(byte1, second, base_k, 8, 2, true, values);
        let b: u64 = byte1 as u64;
        let p1: u64 = if d1 {
            !((v1 & 8) << 4u64) & b
        } else {
            b
        };
        let p2: u64 = if d2 {
            !((v2 & 8) << 3u64) & p1
        } else {
            p1
        };
        let p3: u64 = if d3 {
            !((v3 & 8) << 2u64) & p2
        } else {
            p2
        };
        let m: u8 = (map_sel % 32) as u8;
        assert(p3 == (if long {
            m + 128 * (1 - (c1 / 8) % 2) + 64 * (1 - (c2 / 8) % 2) + 32 * (1 - (c3 / 8) % 2)
        } else {
            m + 224
        }) as u8) by (bit_vector)
            requires
                m < 32,
                s1 < 16 && s2 < 16 && s3 < 16,
                b == (if long {
                    m + 128 * (1 - (s1 / 8) % 2) + 64 * (1 - (s2 / 8) % 2) + 32 * (1 - (s3 / 8) % 2)
                } else {
                    m + 224
                }) as u8,
                d1 ==> s1 == 0 && c1 == (v1 % 16) as u8,
                !d1 ==> c1 == s1,
                d2 ==> s2 == 0 && c2 == (v2 % 16) as u8,
                !d2 ==> c2 == s2,
                d3 ==> s3 == 0 && c3 == (v3 % 16) as u8,
                !d3 ==> c3 == s3,
                !long ==> !d1 && !d2 && !d3,
                p1 == if d1 {
                    !((v1 & 8) << 4u64) & b
                } else {
                    b
                },
                p2 == if d2 {
                    !((v2 & 8) << 3u64) & p1
                } else {
                    p1
                },
                p3 == if d3 {
                    !((v3 & 8) << 2u64) & p2
                } else {
                    p2
                },
        ;
    }
}

/// Whether an evaluator that knows `known` knows the expression that selects a register, if
/// one does.
pub open spec fn knows_register(known: Seq<u64>, kind: RegKind) -> bool {
    kind matches RegKind::Dynamic(_, expr) ==> expr.idx < known.len()
}

/// With an evaluator, a register that the caller selects is encoded like one that is known:
/// an evaluator that knows the expressions that select the registers turns the piece for a
/// byte that holds an addressing mode and two registers into one constant of the size of a
/// byte, whose value is the byte for the registers that the expressions select.
pub proof fn lemma_evaluator_modrm(known: Seq<u64>, mode: u8, reg1: RegKind, reg2: RegKind)
    requires
        knows_register(known, reg1),
        knows_register(known, reg2),
        known.len() + 6 <= usize::MAX,
    ensures
        ({
            let outcome = emit_outcome::<Evaluator>(known, modrm_emit(mode, reg1, reg2));
            &&& outcome.0 is Ok
            &&& outcome.0.unwrap().len() == 1
            &&& outcome.0.unwrap()[0] is Const
            &&& outcome.0.unwrap()[0]->Const_0.spec_repr().size == Size::BYTE
            &&& bits_in(outcome.1, outcome.0.unwrap()[0]->Const_0) == Some(
                modrm(
                    mode,
                    code_under(reg1, values_of(known)),
                    code_under(reg2, values_of(known)),
                ) as u64,
            )
            &&& keeps(outcome.1, known)
        }),
{
    let base = modrm(mode, reg1.spec_encode(), reg2.spec_encode());
    let patches = or_patch(reg1, 7, 3) + or_patch(reg2, 7, 0);
    assert(knows_patches(known, patches));
    lemma_evaluator_byte(known, base, patches, false);
    lemma_dynamic_modrm(mode, reg1, reg2, values_of(known));
}

/// With an evaluator, a register that the caller selects is encoded like one that is known:
/// an evaluator that knows the expressions that select the registers turns the piece for a
/// REX prefix into one constant of the size of a byte, whose value is the prefix for the
/// registers that the expressions select.
pub proof fn lemma_evaluator_rex(
    known: Seq<u64>,
    rex_w: bool,
    reg: Option<SizedArgView>,
    rm: Option<SizedArgView>,
)
    requires
        knows_register(known, field_register(reg)),
        knows_register(known, index_register(rm)),
        knows_register(known, base_register(rm)),
        known.len() + 9 <= usize::MAX,
    ensures
        ({
            let outcome = emit_outcome::<Evaluator>(known, rex_emit(rex_w, reg, rm));
            &&& outcome.0 is Ok
            &&& outcome.0.unwrap().len() == 1
            &&& outcome.0.unwrap()[0] is Const
            &&& outcome.0.unwrap()[0]->Const_0.spec_repr().size == Size::BYTE
            &&& bits_in(outcome.1, outcome.0.unwrap()[0]->Const_0) == Some(
                rex(
                    rex_w,
                    code_under(field_register(reg), values_of(known)),
                    code_under(index_register(rm), values_of(known)),
                    code_under(base_register(rm), values_of(known)),
                ) as u64,
            )
            &&& keeps(outcome.1, known)
        }),
{
    let reg_k = field_register(reg);
    let index_k = index_register(rm);
    let base_k = base_register(rm);
    let base = rex(rex_w, reg_k.spec_encode(), index_k.spec_encode(), base_k.spec_encode());
    let patches = or_patch(reg_k, 8, -1i8) + or_patch(index_k, 8, -2i8) + or_patch(base_k, 8, -3i8);
    assert(knows_patches(known, patches));
    lemma_evaluator_byte(known, base, patches, false);
    lemma_dynamic_rex(rex_w, reg, rm, values_of(known));
}

/// In 32-bit mode a VEX or XOP prefix holds no fourth bit of a register, whatever the
/// registers: the prefix begins with C5, or with C4 or 8F and a byte whose upper three bits
/// are all set, above the map of opcodes, and that no expression takes part in.
pub proof fn lemma_vex_bytes_in_protected_mode(
    flags: Flags,
    reg: Option<SizedArgView>,
    rm: Option<SizedArgView>,
    map_sel: u8,
    rex_w: bool,
    vvvv: Option<SizedArgView>,
    vex_l: bool,
    prefix: u8,
)
    ensures
        ({
            let emits = vex_emits(X86Mode::Protected, flags, reg, rm, map_sel, rex_w, vvvv, vex_l, prefix);
            let first = (map_sel % 32 + 224) as u8;
            if emits.len() == 2 {
                flags.spec_contains(Flags::VEX_OP) && emits[0] == EmitView::byte(0xC5)
            } else {
                &&& emits.len() == 3
                &&& emits[0] == EmitView::byte(
                    if flags.spec_contains(Flags::VEX_OP) {
                        0xC4
                    } else {
                        0x8F
                    },
                )
                &&& emits[1] == EmitView::byte(first)
                &&& first / 32 == 7
                &&& first % 32 == map_sel % 32
            }
        }),
{
    let first = RegKind::Static(RegId::RAX);
    assert(and_not_patch(first, 8, 4) + and_not_patch(first, 8, 3) + and_not_patch(first, 8, 2)
        =~= Seq::<Patch>::empty());
}

} // verus!
