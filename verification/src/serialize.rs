//! Folds the constants of a list of statements into byte strings.
use crate::common::{stmt_views, Number, NumericRepr, Size, Stmt, StmtView, Value};
use byteorder::{ByteOrder, LittleEndian};
use vstd::prelude::*;

verus! {

/// The value of the byte at the place `i` of a number, counted from the lowest.
pub open spec fn place(i: int) -> int
    decreases i,
{
    if i <= 0 {
        1
    } else {
        256 * place(i - 1)
    }
}

/// The byte at the place `i` of a number, counted from the lowest.
pub open spec fn le_byte(n: u64, i: int) -> u8 {
    ((n as int / place(i)) % 256) as u8
}

/// The lowest `len` bytes of a number, the lowest first.
pub open spec fn le_bytes(n: u64, len: nat) -> Seq<u8> {
    Seq::new(len, |i: int| le_byte(n, i))
}

/// Calls `byteorder::LittleEndian::write_u16` on a buffer of two bytes, which copies the
/// two bytes of the number into the buffer, the lower one first.
#[verifier::external_body]
fn write_u16_le(n: u16) -> (r: Vec<u8>)
    ensures
        r@ == le_bytes(n as u64, 2),
{
    let mut buffer = [0u8; 2];
    LittleEndian::write_u16(&mut buffer, n);
    buffer.to_vec()
}

/// Calls `byteorder::LittleEndian::write_u32` on a buffer of four bytes, which copies the
/// four bytes of the number into the buffer, the lowest first.
#[verifier::external_body]
fn write_u32_le(n: u32) -> (r: Vec<u8>)
    ensures
        r@ == le_bytes(n as u64, 4),
{
    let mut buffer = [0u8; 4];
    LittleEndian::write_u32(&mut buffer, n);
    buffer.to_vec()
}

/// Calls `byteorder::LittleEndian::write_u64` on a buffer of eight bytes, which copies the
/// eight bytes of the number into the buffer, the lowest first.
#[verifier::external_body]
fn write_u64_le(n: u64) -> (r: Vec<u8>)
    ensures
        r@ == le_bytes(n, 8),
{
    let mut buffer = [0u8; 8];
    LittleEndian::write_u64(&mut buffer, n);
    buffer.to_vec()
}

/// The part of the bits of a number that its size holds, for the sizes of one, two, four
/// and eight bytes.
pub open spec fn low_bits(nr: Number) -> Option<u64> {
    match nr.spec_repr().size {
        Size::BYTE => Some(nr.bits() & 0xFF),
        Size::WORD => Some(nr.bits() & 0xFFFF),
        Size::DWORD => Some(nr.bits() & 0xFFFF_FFFF),
        Size::QWORD => Some(nr.bits()),
        _ => None,
    }
}

/// The bytes that a statement stands for, if it stands for bytes that are known: those of a
/// number of one, two, four or eight bytes, the lowest first, and those of a byte string.
pub open spec fn const_bytes(stmt: StmtView) -> Option<Seq<u8>> {
    match stmt {
        StmtView::Const(Value::Number(nr)) => match low_bits(nr) {
            Some(bits) => Some(le_bytes(bits, nr.spec_repr().size.bytes() as nat)),
            None => None,
        },
        StmtView::Extend(data) => Some(data),
        _ => None,
    }
}

/// The statements `folded` with the bytes of `buffer` as a byte string behind them, if there
/// are any.
pub open spec fn flushed(folded: Seq<StmtView>, buffer: Seq<u8>) -> Seq<StmtView> {
    if buffer.len() > 0 {
        folded.push(StmtView::Extend(buffer))
    } else {
        folded
    }
}

/// The statements `folded` and the bytes of `buffer` after byte strings of 32 bytes have
/// been taken from the buffer until no more than 32 bytes are left in it.
pub open spec fn chunked(folded: Seq<StmtView>, buffer: Seq<u8>) -> (Seq<StmtView>, Seq<u8>)
    decreases buffer.len(),
{
    if buffer.len() > 32 {
        chunked(folded.push(StmtView::Extend(buffer.take(32))), buffer.skip(32))
    } else {
        (folded, buffer)
    }
}

/// What folding the statements from `from` on gives, after those before gave the statements
/// `folded` and left the bytes of `buffer`.
pub open spec fn folded_from(
    stmts: Seq<StmtView>,
    from: int,
    folded: Seq<StmtView>,
    buffer: Seq<u8>,
) -> Seq<
    StmtView,
>
    decreases stmts.len() - from,
{
    if from < 0 || from >= stmts.len() {
        flushed(folded, buffer)
    } else {
        let next = match const_bytes(stmts[from]) {
            Some(bytes) => chunked(folded, buffer + bytes),
            None => chunked(flushed(folded, buffer).push(stmts[from]), seq![]),
        };
        folded_from(stmts, from + 1, next.0, next.1)
    }
}

/// The statements with their constants folded: the bytes of the statements that stand for
/// bytes that are known are collected, and stand in byte strings in place of the statements.
/// A byte string ends before a statement that stands for something else, and when more than
/// 32 bytes are collected, after 32 bytes.
pub open spec fn folded(stmts: Seq<StmtView>) -> Seq<StmtView> {
    folded_from(stmts, 0, seq![], seq![])
}

/// The bytes that a statement stands for, if it stands for bytes that are known.
pub fn bytes_of(stmt: &Stmt) -> (r: Option<Vec<u8>>)
    ensures
        match const_bytes(stmt@) {
            Some(bytes) => r matches Some(data) && data@ == bytes,
            None => r is None,
        },
{
    match stmt {
        Stmt::Const(Value::Number(nr)) => match nr.repr().size {
            Size::BYTE => {
                let mut data: Vec<u8> = Vec::new();
                let byte = nr.as_u8();
                data.push(byte);
                assert(data@ =~= le_bytes(nr.bits() & 0xFF, 1)) by {
                    assert(place(0) == 1);
                }
                Some(data)
            },
            Size::WORD => Some(write_u16_le(nr.as_u16())),
            Size::DWORD => Some(write_u32_le(nr.as_u32())),
            Size::QWORD => Some(write_u64_le(nr.as_u64())),
            _ => None,
        },
        Stmt::Extend(data) => Some(crate::common::bytes_to_vec(data.as_slice())),
        _ => None,
    }
}

/// Adds the bytes of `buffer` as a byte string to the statements, if there are any, and
/// leaves the buffer empty.
fn flush(folded: &mut Vec<Stmt>, buffer: &mut Vec<u8>)
    ensures
        stmt_views(final(folded)@) == flushed(stmt_views(old(folded)@), old(buffer)@),
        final(buffer)@.len() == 0,
{
    if buffer.len() > 0 {
        let mut data: Vec<u8> = Vec::new();
        data.append(buffer);
        let stmt = Stmt::Extend(data);
        folded.push(stmt);
        assert(stmt_views(folded@) =~= stmt_views(old(folded)@).push(stmt@));
    }
}

/// Takes byte strings of 32 bytes from the buffer until no more than 32 bytes are left in
/// it.
fn chunk(folded: &mut Vec<Stmt>, buffer: &mut Vec<u8>)
    ensures
        (stmt_views(final(folded)@), final(buffer)@) == chunked(
            stmt_views(old(folded)@),
            old(buffer)@,
        ),
{
    while buffer.len() > 32
        invariant
            chunked(stmt_views(folded@), buffer@) == chunked(stmt_views(old(folded)@), old(buffer)@),
        decreases buffer.len(),
    {
        let ghost before = stmt_views(folded@);
        let ghost bytes = buffer@;
        let rest = buffer.split_off(32);
        let mut head: Vec<u8> = Vec::new();
        head.append(buffer);
        assert(head@ =~= bytes.take(32));
        assert(rest@ =~= bytes.skip(32));
        let stmt = Stmt::Extend(head);
        folded.push(stmt);
        assert(stmt_views(folded@) =~= before.push(stmt@));
        *buffer = rest;
    }
}

/// Folds the constants of a list of statements into byte strings, see [`folded`]. What the
/// statements come to stays the same.
pub fn fold_constants(stmts: &Vec<Stmt>) -> (r: Vec<Stmt>)
    ensures
        stmt_views(r@) == folded(stmt_views(stmts@)),
        stream(stmt_views(r@)) == stream(stmt_views(stmts@)),
        all_folded(stmt_views(r@)),
{
    proof {
        lemma_folding_keeps_stream(stmt_views(stmts@));
    }
    let mut folded_stmts: Vec<Stmt> = Vec::new();
    let mut const_buffer: Vec<u8> = Vec::new();
    let ghost views = stmt_views(stmts@);
    assert(stmt_views(folded_stmts@) =~= Seq::empty());
    assert(const_buffer@ =~= Seq::empty());
    let mut i: usize = 0;
    while i < stmts.len()
        invariant
            i <= stmts.len(),
            views == stmt_views(stmts@),
            folded(views) == folded_from(views, i as int, stmt_views(folded_stmts@), const_buffer@),
        decreases stmts.len() - i,
    {
        assert(views[i as int] == stmts@[i as int]@);
        match bytes_of(&stmts[i]) {
            Some(mut bytes) => {
                let ghost before = const_buffer@;
                let ghost added = bytes@;
                const_buffer.append(&mut bytes);
                assert(const_buffer@ =~= before + added);
            },
            None => {
                // empty the const buffer
                flush(&mut folded_stmts, &mut const_buffer);
                let ghost before = stmt_views(folded_stmts@);
                let stmt = stmts[i].copy();
                folded_stmts.push(stmt);
                assert(stmt_views(folded_stmts@) =~= before.push(stmt@));
                assert(const_buffer@ =~= Seq::empty());
            },
        }
        chunk(&mut folded_stmts, &mut const_buffer);
        i += 1;
    }
    flush(&mut folded_stmts, &mut const_buffer);
    folded_stmts
}

/// What a list of statements comes to: a byte that is known, or a statement that stands
/// for something else.
pub enum Atom {
    Byte(u8),
    Other(StmtView),
}

/// The bytes as what a list of statements comes to.
pub open spec fn byte_atoms(bytes: Seq<u8>) -> Seq<Atom> {
    bytes.map_values(|b: u8| Atom::Byte(b))
}

/// What a statement comes to: its bytes if it stands for bytes that are known, else itself.
pub open spec fn atoms_of(stmt: StmtView) -> Seq<Atom> {
    match const_bytes(stmt) {
        Some(bytes) => byte_atoms(bytes),
        None => seq![Atom::Other(stmt)],
    }
}

/// What a list of statements comes to: the bytes that are known and the statements that
/// stand for something else, in their order.
pub open spec fn stream(stmts: Seq<StmtView>) -> Seq<Atom>
    decreases stmts.len(),
{
    if stmts.len() == 0 {
        seq![]
    } else {
        atoms_of(stmts[0]) + stream(stmts.skip(1))
    }
}

/// Whether a statement can stand in a list that is folded: it is no number of a size that
/// is folded, and a byte string has between 1 and 32 bytes.
pub open spec fn is_folded(stmt: StmtView) -> bool {
    match stmt {
        StmtView::Const(Value::Number(nr)) => low_bits(nr) is None,
        StmtView::Extend(data) => 0 < data.len() <= 32,
        _ => true,
    }
}

/// Whether all statements of a list can stand in a list that is folded.
pub open spec fn all_folded(stmts: Seq<StmtView>) -> bool {
    forall|i: int| 0 <= i < stmts.len() ==> is_folded(#[trigger] stmts[i])
}

proof fn lemma_stream_push(stmts: Seq<StmtView>, stmt: StmtView)
    ensures
        stream(stmts.push(stmt)) == stream(stmts) + atoms_of(stmt),
    decreases stmts.len(),
{
    let pushed = stmts.push(stmt);
    if stmts.len() == 0 {
        assert(pushed.skip(1) =~= Seq::<StmtView>::empty());
        assert(pushed[0] == stmt);
        assert(stream(pushed.skip(1)) =~= Seq::<Atom>::empty());
        assert(stream(stmts) =~= Seq::<Atom>::empty());
        assert(stream(pushed) == atoms_of(stmt) + stream(pushed.skip(1)));
        assert(stream(pushed) =~= stream(stmts) + atoms_of(stmt));
    } else {
        assert(pushed.skip(1) =~= stmts.skip(1).push(stmt));
        assert(pushed[0] == stmts[0]);
        lemma_stream_push(stmts.skip(1), stmt);
        assert(stream(pushed) == atoms_of(stmts[0]) + stream(pushed.skip(1)));
        assert(stream(pushed) =~= stream(stmts) + atoms_of(stmt));
    }
}

proof fn lemma_flushed(folded: Seq<StmtView>, buffer: Seq<u8>)
    requires
        all_folded(folded),
        buffer.len() <= 32,
    ensures
        stream(flushed(folded, buffer)) == stream(folded) + byte_atoms(buffer),
        all_folded(flushed(folded, buffer)),
{
    if buffer.len() > 0 {
        lemma_stream_push(folded, StmtView::Extend(buffer));
    } else {
        assert(stream(folded) + byte_atoms(buffer) =~= stream(folded));
    }
}

proof fn lemma_chunked(folded: Seq<StmtView>, buffer: Seq<u8>)
    requires
        all_folded(folded),
    ensures
        stream(chunked(folded, buffer).0) + byte_atoms(chunked(folded, buffer).1) == stream(folded)
            + byte_atoms(buffer),
        all_folded(chunked(folded, buffer).0),
        chunked(folded, buffer).1.len() <= 32,
    decreases buffer.len(),
{
    if buffer.len() > 32 {
        let head = StmtView::Extend(buffer.take(32));
        lemma_stream_push(folded, head);
        lemma_chunked(folded.push(head), buffer.skip(32));
        assert(byte_atoms(buffer.take(32)) + byte_atoms(buffer.skip(32)) =~= byte_atoms(buffer));
        let done = chunked(folded.push(head), buffer.skip(32));
        assert(stream(done.0) + byte_atoms(done.1) =~= stream(folded) + (byte_atoms(buffer.take(32))
            + byte_atoms(buffer.skip(32))));
    }
}

proof fn lemma_folded_from(stmts: Seq<StmtView>, from: int, folded: Seq<StmtView>, buffer: Seq<u8>)
    requires
        0 <= from <= stmts.len(),
        all_folded(folded),
        buffer.len() <= 32,
    ensures
        stream(folded_from(stmts, from, folded, buffer)) == stream(folded) + byte_atoms(buffer) + stream(
            stmts.skip(from),
        ),
        all_folded(folded_from(stmts, from, folded, buffer)),
    decreases stmts.len() - from,
{
    if from >= stmts.len() {
        lemma_flushed(folded, buffer);
        assert(stmts.skip(from) =~= seq![]);
        assert(stream(folded) + byte_atoms(buffer) + stream(stmts.skip(from)) =~= stream(folded)
            + byte_atoms(buffer));
    } else {
        let stmt = stmts[from];
        let rest = stmts.skip(from);
        assert(rest[0] == stmt);
        assert(rest.skip(1) =~= stmts.skip(from + 1));
        match const_bytes(stmt) {
            Some(bytes) => {
                lemma_chunked(folded, buffer + bytes);
                let next = chunked(folded, buffer + bytes);
                lemma_folded_from(stmts, from + 1, next.0, next.1);
                assert(byte_atoms(buffer + bytes) =~= byte_atoms(buffer) + byte_atoms(bytes));
                assert(stream(next.0) + byte_atoms(next.1) + stream(stmts.skip(from + 1)) =~= stream(folded)
                    + byte_atoms(buffer) + (byte_atoms(bytes) + stream(stmts.skip(from + 1))));
            },
            None => {
                lemma_flushed(folded, buffer);
                let flushed = flushed(folded, buffer);
                lemma_stream_push(flushed, stmt);
                assert(is_folded(stmt));
                let pushed = flushed.push(stmt);
                assert(all_folded(pushed));
                lemma_chunked(pushed, seq![]);
                let next = chunked(pushed, seq![]);
                assert(next == (pushed, Seq::<u8>::empty()));
                lemma_folded_from(stmts, from + 1, next.0, next.1);
                assert(byte_atoms(Seq::<u8>::empty()) =~= Seq::<Atom>::empty());
                assert(stream(next.0) + byte_atoms(next.1) + stream(stmts.skip(from + 1)) =~= stream(folded)
                    + byte_atoms(buffer) + (seq![Atom::Other(stmt)] + stream(stmts.skip(from + 1))));
            },
        }
    }
}

/// Folding keeps what a list of statements comes to: the same bytes and the same other
/// statements, in the same order. In what it gives, no number of one, two, four or eight
/// bytes is left, and every byte string has between 1 and 32 bytes.
pub proof fn lemma_folding_keeps_stream(stmts: Seq<StmtView>)
    ensures
        stream(folded(stmts)) == stream(stmts),
        all_folded(folded(stmts)),
{
    lemma_folded_from(stmts, 0, seq![], seq![]);
    assert(stmts.skip(0) =~= stmts);
    assert(byte_atoms(Seq::<u8>::empty()) =~= Seq::<Atom>::empty());
    assert(stream(Seq::<StmtView>::empty()) + byte_atoms(Seq::<u8>::empty()) + stream(stmts) =~= stream(
        stmts,
    ));
}

/// The name of the method of an assembler that pushes a value of a representation: one for
/// each of the sizes of one, two, four and eight bytes, signed and unsigned.
pub open spec fn push_method_name(repr: NumericRepr) -> Option<Seq<char>> {
    if repr.size == Size::BYTE && !repr.signed {
        Some("push"@)
    }     else if repr.size == Size::WORD && !repr.signed {
        Some("push_u16"@)
    }     else if repr.size == Size::DWORD && !repr.signed {
        Some("push_u32"@)
    }     else if repr.size == Size::QWORD && !repr.signed {
        Some("push_u64"@)
    }     else if repr.size == Size::BYTE && repr.signed {
        Some("push_i8"@)
    }     else if repr.size == Size::WORD && repr.signed {
        Some("push_i16"@)
    }     else if repr.size == Size::DWORD && repr.signed {
        Some("push_i32"@)
    }     else if repr.size == Size::QWORD && repr.signed {
        Some("push_i64"@)
    } else {
        None
    }
}

/// The name of the method of an assembler that a statement is a call of; `None` for a
/// statement of the caller, which is no call, and for a value of a size that cannot be
/// pushed.
pub open spec fn method_name(stmt: StmtView) -> Option<Seq<char>> {
    match stmt {
        StmtView::Const(value) => push_method_name(value.spec_repr()),
        StmtView::Extend(_) => Some("extend"@),
        StmtView::ExprExtend(_) => Some("extend"@),
        StmtView::Align(_, _) => Some("align"@),
        StmtView::GlobalLabel(_) => Some("global_label"@),
        StmtView::LocalLabel(_) => Some("local_label"@),
        StmtView::DynamicLabel(_) => Some("dynamic_label"@),
        StmtView::GlobalJumpTarget(_, _, _) => Some("global_reloc"@),
        StmtView::ForwardJumpTarget(_, _, _) => Some("forward_reloc"@),
        StmtView::BackwardJumpTarget(_, _, _) => Some("backward_reloc"@),
        StmtView::DynamicJumpTarget(_, _, _) => Some("dynamic_reloc"@),
        StmtView::BareJumpTarget(_, _) => Some("bare_reloc"@),
        StmtView::Stmt(_) => None,
    }
}

/// The name of the method of an assembler that pushes a value of a representation.
pub fn push_method(repr: NumericRepr) -> (r: Option<&'static str>)
    ensures
        match push_method_name(repr) {
            Some(name) => r matches Some(method) && method@ == name,
            None => r is None,
        },
{
    if repr.size == Size::BYTE && !repr.signed {
        Some("push")
    }     else if repr.size == Size::WORD && !repr.signed {
        Some("push_u16")
    }     else if repr.size == Size::DWORD && !repr.signed {
        Some("push_u32")
    }     else if repr.size == Size::QWORD && !repr.signed {
        Some("push_u64")
    }     else if repr.size == Size::BYTE && repr.signed {
        Some("push_i8")
    }     else if repr.size == Size::WORD && repr.signed {
        Some("push_i16")
    }     else if repr.size == Size::DWORD && repr.signed {
        Some("push_i32")
    }     else if repr.size == Size::QWORD && repr.signed {
        Some("push_i64")
    } else {
        None
    }
}

/// The name of the method of an assembler that a statement is a call of.
pub fn method_of(stmt: &Stmt) -> (r: Option<&'static str>)
    ensures
        match method_name(stmt@) {
            Some(name) => r matches Some(method) && method@ == name,
            None => r is None,
        },
{
    match stmt {
        Stmt::Const(value) => push_method(value.repr()),
        Stmt::Extend(_) => Some("extend"),
        Stmt::ExprExtend(_) => Some("extend"),
        Stmt::Align(_, _) => Some("align"),
        Stmt::GlobalLabel(_) => Some("global_label"),
        Stmt::LocalLabel(_) => Some("local_label"),
        Stmt::DynamicLabel(_) => Some("dynamic_label"),
        Stmt::GlobalJumpTarget(_, _, _) => Some("global_reloc"),
        Stmt::ForwardJumpTarget(_, _, _) => Some("forward_reloc"),
        Stmt::BackwardJumpTarget(_, _, _) => Some("backward_reloc"),
        Stmt::DynamicJumpTarget(_, _, _) => Some("dynamic_reloc"),
        Stmt::BareJumpTarget(_, _) => Some("bare_reloc"),
        Stmt::Stmt(_) => None,
    }
}

} // verus!
