//! The opcode table: for each mnemonic the ways to encode it, in the order in which they
//! are tried. Encodings that ask for an exact size stand before those that take any.
use super::compiler::{opdata_views, Opdata, OpdataView};
use super::x64data::{str_eq, Features, Flags};
use crate::common::bytes_to_vec;
use vstd::prelude::*;
use vstd::string::StringSliceAdditionalSpecFns;

verus! {

/// What the register field holds in an entry that has an operand for it.
pub const NONE: u8 = 0xFF;

/// An entry of the opcode table.
pub open spec fn form(args: Seq<u8>, ops: Seq<u8>, reg: u8, flags: u32, features: u32) -> OpdataView {
    OpdataView { args, ops, reg, flags: Flags { bits: flags }, features: Features { bits: features } }
}

/// A table without entries.
fn new_table() -> (r: Vec<Opdata>)
    ensures
        opdata_views(r@) == Seq::<OpdataView>::empty(),
{
    let table: Vec<Opdata> = Vec::new();
    assert(opdata_views(table@) =~= Seq::<OpdataView>::empty());
    table
}

/// An opcode of one byte.
fn ops1(a: u8) -> (r: Vec<u8>)
    ensures
        r@ == seq![a],
{
    let mut ops: Vec<u8> = Vec::new();
    ops.push(a);
    assert(ops@ =~= seq![a]);
    ops
}

/// An opcode of two bytes.
fn ops2(a: u8, b: u8) -> (r: Vec<u8>)
    ensures
        r@ == seq![a, b],
{
    let mut ops: Vec<u8> = Vec::new();
    ops.push(a);
    ops.push(b);
    assert(ops@ =~= seq![a, b]);
    ops
}

/// An opcode of three bytes.
fn ops3(a: u8, b: u8, c: u8) -> (r: Vec<u8>)
    ensures
        r@ == seq![a, b, c],
{
    let mut ops: Vec<u8> = Vec::new();
    ops.push(a);
    ops.push(b);
    ops.push(c);
    assert(ops@ =~= seq![a, b, c]);
    ops
}

/// Adds an entry to a table.
fn push_row(table: &mut Vec<Opdata>, args: &str, ops: Vec<u8>, reg: u8, flags: u32, features: u32)
    ensures
        opdata_views(final(table)@) == opdata_views(old(table)@).push(
            form(args.spec_bytes(), ops@, reg, flags, features),
        ),
{
    let entry = Opdata {
        args: bytes_to_vec(args.as_bytes()),
        ops,
        reg,
        flags: Flags::from_bits(flags),
        features: Features::from_bits(features),
    };
    table.push(entry);
    assert(opdata_views(table@) =~= opdata_views(old(table)@).push(entry@));
}

/// The encodings of `add`.
pub open spec fn forms_add() -> Seq<OpdataView> {
    seq![
        form("Abib".spec_bytes(), seq![0x04u8], NONE, Flags::DEFAULT, 0),
        form("v*ib".spec_bytes(), seq![0x83u8], 0, Flags::AUTO_SIZE | Flags::EXACT_SIZE | Flags::LOCK, 0),
        form("vbib".spec_bytes(), seq![0x80u8], 0, Flags::LOCK, 0),
        form("A*i*".spec_bytes(), seq![0x05u8], NONE, Flags::AUTO_SIZE, 0),
        form("v*i*".spec_bytes(), seq![0x81u8], 0, Flags::AUTO_SIZE | Flags::LOCK, 0),
        form("v*r*".spec_bytes(), seq![0x01u8], NONE, Flags::AUTO_SIZE | Flags::ENC_MR | Flags::LOCK, 0),
        form("vbrb".spec_bytes(), seq![0x00u8], NONE, Flags::ENC_MR | Flags::LOCK, 0),
        form("r*v*".spec_bytes(), seq![0x03u8], NONE, Flags::AUTO_SIZE, 0),
        form("rbvb".spec_bytes(), seq![0x02u8], NONE, Flags::DEFAULT, 0),
    ]
}

fn table_add() -> (r: Vec<Opdata>)
    ensures
        opdata_views(r@) == forms_add(),
{
    let mut table = new_table();
    push_row(&mut table, "Abib", ops1(0x04), NONE, Flags::DEFAULT, 0);
    push_row(&mut table, "v*ib", ops1(0x83), 0, Flags::AUTO_SIZE | Flags::EXACT_SIZE | Flags::LOCK, 0);
    push_row(&mut table, "vbib", ops1(0x80), 0, Flags::LOCK, 0);
    push_row(&mut table, "A*i*", ops1(0x05), NONE, Flags::AUTO_SIZE, 0);
    push_row(&mut table, "v*i*", ops1(0x81), 0, Flags::AUTO_SIZE | Flags::LOCK, 0);
    push_row(&mut table, "v*r*", ops1(0x01), NONE, Flags::AUTO_SIZE | Flags::ENC_MR | Flags::LOCK, 0);
    push_row(&mut table, "vbrb", ops1(0x00), NONE, Flags::ENC_MR | Flags::LOCK, 0);
    push_row(&mut table, "r*v*", ops1(0x03), NONE, Flags::AUTO_SIZE, 0);
    push_row(&mut table, "rbvb", ops1(0x02), NONE, Flags::DEFAULT, 0);
    table
}

/// The encodings of `or`.
pub open spec fn forms_or() -> Seq<OpdataView> {
    seq![
        form("Abib".spec_bytes(), seq![0x0Cu8], NONE, Flags::DEFAULT, 0),
        form("v*ib".spec_bytes(), seq![0x83u8], 1, Flags::AUTO_SIZE | Flags::EXACT_SIZE | Flags::LOCK, 0),
        form("vbib".spec_bytes(), seq![0x80u8], 1, Flags::LOCK, 0),
        form("A*i*".spec_bytes(), seq![0x0Du8], NONE, Flags::AUTO_SIZE, 0),
        form("v*i*".spec_bytes(), seq![0x81u8], 1, Flags::AUTO_SIZE | Flags::LOCK, 0),
        form("v*r*".spec_bytes(), seq![0x09u8], NONE, Flags::AUTO_SIZE | Flags::ENC_MR | Flags::LOCK, 0),
        form("vbrb".spec_bytes(), seq![0x08u8], NONE, Flags::ENC_MR | Flags::LOCK, 0),
        form("r*v*".spec_bytes(), seq![0x0Bu8], NONE, Flags::AUTO_SIZE, 0),
        form("rbvb".spec_bytes(), seq![0x0Au8], NONE, Flags::DEFAULT, 0),
    ]
}

fn table_or() -> (r: Vec<Opdata>)
    ensures
        opdata_views(r@) == forms_or(),
{
    let mut table = new_table();
    push_row(&mut table, "Abib", ops1(0x0C), NONE, Flags::DEFAULT, 0);
    push_row(&mut table, "v*ib", ops1(0x83), 1, Flags::AUTO_SIZE | Flags::EXACT_SIZE | Flags::LOCK, 0);
    push_row(&mut table, "vbib", ops1(0x80), 1, Flags::LOCK, 0);
    push_row(&mut table, "A*i*", ops1(0x0D), NONE, Flags::AUTO_SIZE, 0);
    push_row(&mut table, "v*i*", ops1(0x81), 1, Flags::AUTO_SIZE | Flags::LOCK, 0);
    push_row(&mut table, "v*r*", ops1(0x09), NONE, Flags::AUTO_SIZE | Flags::ENC_MR | Flags::LOCK, 0);
    push_row(&mut table, "vbrb", ops1(0x08), NONE, Flags::ENC_MR | Flags::LOCK, 0);
    push_row(&mut table, "r*v*", ops1(0x0B), NONE, Flags::AUTO_SIZE, 0);
    push_row(&mut table, "rbvb", ops1(0x0A), NONE, Flags::DEFAULT, 0);
    table
}

/// The encodings of `adc`.
pub open spec fn forms_adc() -> Seq<OpdataView> {
    seq![
        form("Abib".spec_bytes(), seq![0x14u8], NONE, Flags::DEFAULT, 0),
        form("v*ib".spec_bytes(), seq![0x83u8], 2, Flags::AUTO_SIZE | Flags::EXACT_SIZE | Flags::LOCK, 0),
        form("vbib".spec_bytes(), seq![0x80u8], 2, Flags::LOCK, 0),
        form("A*i*".spec_bytes(), seq![0x15u8], NONE, Flags::AUTO_SIZE, 0),
        form("v*i*".spec_bytes(), seq![0x81u8], 2, Flags::AUTO_SIZE | Flags::LOCK, 0),
        form("v*r*".spec_bytes(), seq![0x11u8], NONE, Flags::AUTO_SIZE | Flags::ENC_MR | Flags::LOCK, 0),
        form("vbrb".spec_bytes(), seq![0x10u8], NONE, Flags::ENC_MR | Flags::LOCK, 0),
        form("r*v*".spec_bytes(), seq![0x13u8], NONE, Flags::AUTO_SIZE, 0),
        form("rbvb".spec_bytes(), seq![0x12u8], NONE, Flags::DEFAULT, 0),
    ]
}

fn table_adc() -> (r: Vec<Opdata>)
    ensures
        opdata_views(r@) == forms_adc(),
{
    let mut table = new_table();
    push_row(&mut table, "Abib", ops1(0x14), NONE, Flags::DEFAULT, 0);
    push_row(&mut table, "v*ib", ops1(0x83), 2, Flags::AUTO_SIZE | Flags::EXACT_SIZE | Flags::LOCK, 0);
    push_row(&mut table, "vbib", ops1(0x80), 2, Flags::LOCK, 0);
    push_row(&mut table, "A*i*", ops1(0x15), NONE, Flags::AUTO_SIZE, 0);
    push_row(&mut table, "v*i*", ops1(0x81), 2, Flags::AUTO_SIZE | Flags::LOCK, 0);
    push_row(&mut table, "v*r*", ops1(0x11), NONE, Flags::AUTO_SIZE | Flags::ENC_MR | Flags::LOCK, 0);
    push_row(&mut table, "vbrb", ops1(0x10), NONE, Flags::ENC_MR | Flags::LOCK, 0);
    push_row(&mut table, "r*v*", ops1(0x13), NONE, Flags::AUTO_SIZE, 0);
    push_row(&mut table, "rbvb", ops1(0x12), NONE, Flags::DEFAULT, 0);
    table
}

/// The encodings of `sbb`.
pub open spec fn forms_sbb() -> Seq<OpdataView> {
    seq![
        form("Abib".spec_bytes(), seq![0x1Cu8], NONE, Flags::DEFAULT, 0),
        form("v*ib".spec_bytes(), seq![0x83u8], 3, Flags::AUTO_SIZE | Flags::EXACT_SIZE | Flags::LOCK, 0),
        form("vbib".spec_bytes(), seq![0x80u8], 3, Flags::LOCK, 0),
        form("A*i*".spec_bytes(), seq![0x1Du8], NONE, Flags::AUTO_SIZE, 0),
        form("v*i*".spec_bytes(), seq![0x81u8], 3, Flags::AUTO_SIZE | Flags::LOCK, 0),
        form("v*r*".spec_bytes(), seq![0x19u8], NONE, Flags::AUTO_SIZE | Flags::ENC_MR | Flags::LOCK, 0),
        form("vbrb".spec_bytes(), seq![0x18u8], NONE, Flags::ENC_MR | Flags::LOCK, 0),
        form("r*v*".spec_bytes(), seq![0x1Bu8], NONE, Flags::AUTO_SIZE, 0),
        form("rbvb".spec_bytes(), seq![0x1Au8], NONE, Flags::DEFAULT, 0),
    ]
}

fn table_sbb() -> (r: Vec<Opdata>)
    ensures
        opdata_views(r@) == forms_sbb(),
{
    let mut table = new_table();
    push_row(&mut table, "Abib", ops1(0x1C), NONE, Flags::DEFAULT, 0);
    push_row(&mut table, "v*ib", ops1(0x83), 3, Flags::AUTO_SIZE | Flags::EXACT_SIZE | Flags::LOCK, 0);
    push_row(&mut table, "vbib", ops1(0x80), 3, Flags::LOCK, 0);
    push_row(&mut table, "A*i*", ops1(0x1D), NONE, Flags::AUTO_SIZE, 0);
    push_row(&mut table, "v*i*", ops1(0x81), 3, Flags::AUTO_SIZE | Flags::LOCK, 0);
    push_row(&mut table, "v*r*", ops1(0x19), NONE, Flags::AUTO_SIZE | Flags::ENC_MR | Flags::LOCK, 0);
    push_row(&mut table, "vbrb", ops1(0x18), NONE, Flags::ENC_MR | Flags::LOCK, 0);
    push_row(&mut table, "r*v*", ops1(0x1B), NONE, Flags::AUTO_SIZE, 0);
    push_row(&mut table, "rbvb", ops1(0x1A), NONE, Flags::DEFAULT, 0);
    table
}

/// The encodings of `and`.
pub open spec fn forms_and() -> Seq<OpdataView> {
    seq![
        form("Abib".spec_bytes(), seq![0x24u8], NONE, Flags::DEFAULT, 0),
        form("v*ib".spec_bytes(), seq![0x83u8], 4, Flags::AUTO_SIZE | Flags::EXACT_SIZE | Flags::LOCK, 0),
        form("vbib".spec_bytes(), seq![0x80u8], 4, Flags::LOCK, 0),
        form("A*i*".spec_bytes(), seq![0x25u8], NONE, Flags::AUTO_SIZE, 0),
        form("v*i*".spec_bytes(), seq![0x81u8], 4, Flags::AUTO_SIZE | Flags::LOCK, 0),
        form("v*r*".spec_bytes(), seq![0x21u8], NONE, Flags::AUTO_SIZE | Flags::ENC_MR | Flags::LOCK, 0),
        form("vbrb".spec_bytes(), seq![0x20u8], NONE, Flags::ENC_MR | Flags::LOCK, 0),
        form("r*v*".spec_bytes(), seq![0x23u8], NONE, Flags::AUTO_SIZE, 0),
        form("rbvb".spec_bytes(), seq![0x22u8], NONE, Flags::DEFAULT, 0),
    ]
}

fn table_and() -> (r: Vec<Opdata>)
    ensures
        opdata_views(r@) == forms_and(),
{
    let mut table = new_table();
    push_row(&mut table, "Abib", ops1(0x24), NONE, Flags::DEFAULT, 0);
    push_row(&mut table, "v*ib", ops1(0x83), 4, Flags::AUTO_SIZE | Flags::EXACT_SIZE | Flags::LOCK, 0);
    push_row(&mut table, "vbib", ops1(0x80), 4, Flags::LOCK, 0);
    push_row(&mut table, "A*i*", ops1(0x25), NONE, Flags::AUTO_SIZE, 0);
    push_row(&mut table, "v*i*", ops1(0x81), 4, Flags::AUTO_SIZE | Flags::LOCK, 0);
    push_row(&mut table, "v*r*", ops1(0x21), NONE, Flags::AUTO_SIZE | Flags::ENC_MR | Flags::LOCK, 0);
    push_row(&mut table, "vbrb", ops1(0x20), NONE, Flags::ENC_MR | Flags::LOCK, 0);
    push_row(&mut table, "r*v*", ops1(0x23), NONE, Flags::AUTO_SIZE, 0);
    push_row(&mut table, "rbvb", ops1(0x22), NONE, Flags::DEFAULT, 0);
    table
}

/// The encodings of `sub`.
pub open spec fn forms_sub() -> Seq<OpdataView> {
    seq![
        form("Abib".spec_bytes(), seq![0x2Cu8], NONE, Flags::DEFAULT, 0),
        form("v*ib".spec_bytes(), seq![0x83u8], 5, Flags::AUTO_SIZE | Flags::EXACT_SIZE | Flags::LOCK, 0),
        form("vbib".spec_bytes(), seq![0x80u8], 5, Flags::LOCK, 0),
        form("A*i*".spec_bytes(), seq![0x2Du8], NONE, Flags::AUTO_SIZE, 0),
        form("v*i*".spec_bytes(), seq![0x81u8], 5, Flags::AUTO_SIZE | Flags::LOCK, 0),
        form("v*r*".spec_bytes(), seq![0x29u8], NONE, Flags::AUTO_SIZE | Flags::ENC_MR | Flags::LOCK, 0),
        form("vbrb".spec_bytes(), seq![0x28u8], NONE, Flags::ENC_MR | Flags::LOCK, 0),
        form("r*v*".spec_bytes(), seq![0x2Bu8], NONE, Flags::AUTO_SIZE, 0),
        form("rbvb".spec_bytes(), seq![0x2Au8], NONE, Flags::DEFAULT, 0),
    ]
}

fn table_sub() -> (r: Vec<Opdata>)
    ensures
        opdata_views(r@) == forms_sub(),
{
    let mut table = new_table();
    push_row(&mut table, "Abib", ops1(0x2C), NONE, Flags::DEFAULT, 0);
    push_row(&mut table, "v*ib", ops1(0x83), 5, Flags::AUTO_SIZE | Flags::EXACT_SIZE | Flags::LOCK, 0);
    push_row(&mut table, "vbib", ops1(0x80), 5, Flags::LOCK, 0);
    push_row(&mut table, "A*i*", ops1(0x2D), NONE, Flags::AUTO_SIZE, 0);
    push_row(&mut table, "v*i*", ops1(0x81), 5, Flags::AUTO_SIZE | Flags::LOCK, 0);
    push_row(&mut table, "v*r*", ops1(0x29), NONE, Flags::AUTO_SIZE | Flags::ENC_MR | Flags::LOCK, 0);
    push_row(&mut table, "vbrb", ops1(0x28), NONE, Flags::ENC_MR | Flags::LOCK, 0);
    push_row(&mut table, "r*v*", ops1(0x2B), NONE, Flags::AUTO_SIZE, 0);
    push_row(&mut table, "rbvb", ops1(0x2A), NONE, Flags::DEFAULT, 0);
    table
}

/// The encodings of `xor`.
pub open spec fn forms_xor() -> Seq<OpdataView> {
    seq![
        form("Abib".spec_bytes(), seq![0x34u8], NONE, Flags::DEFAULT, 0),
        form("v*ib".spec_bytes(), seq![0x83u8], 6, Flags::AUTO_SIZE | Flags::EXACT_SIZE | Flags::LOCK, 0),
        form("vbib".spec_bytes(), seq![0x80u8], 6, Flags::LOCK, 0),
        form("A*i*".spec_bytes(), seq![0x35u8], NONE, Flags::AUTO_SIZE, 0),
        form("v*i*".spec_bytes(), seq![0x81u8], 6, Flags::AUTO_SIZE | Flags::LOCK, 0),
        form("v*r*".spec_bytes(), seq![0x31u8], NONE, Flags::AUTO_SIZE | Flags::ENC_MR | Flags::LOCK, 0),
        form("vbrb".spec_bytes(), seq![0x30u8], NONE, Flags::ENC_MR | Flags::LOCK, 0),
        form("r*v*".spec_bytes(), seq![0x33u8], NONE, Flags::AUTO_SIZE, 0),
        form("rbvb".spec_bytes(), seq![0x32u8], NONE, Flags::DEFAULT, 0),
    ]
}

fn table_xor() -> (r: Vec<Opdata>)
    ensures
        opdata_views(r@) == forms_xor(),
{
    let mut table = new_table();
    push_row(&mut table, "Abib", ops1(0x34), NONE, Flags::DEFAULT, 0);
    push_row(&mut table, "v*ib", ops1(0x83), 6, Flags::AUTO_SIZE | Flags::EXACT_SIZE | Flags::LOCK, 0);
    push_row(&mut table, "vbib", ops1(0x80), 6, Flags::LOCK, 0);
    push_row(&mut table, "A*i*", ops1(0x35), NONE, Flags::AUTO_SIZE, 0);
    push_row(&mut table, "v*i*", ops1(0x81), 6, Flags::AUTO_SIZE | Flags::LOCK, 0);
    push_row(&mut table, "v*r*", ops1(0x31), NONE, Flags::AUTO_SIZE | Flags::ENC_MR | Flags::LOCK, 0);
    push_row(&mut table, "vbrb", ops1(0x30), NONE, Flags::ENC_MR | Flags::LOCK, 0);
    push_row(&mut table, "r*v*", ops1(0x33), NONE, Flags::AUTO_SIZE, 0);
    push_row(&mut table, "rbvb", ops1(0x32), NONE, Flags::DEFAULT, 0);
    table
}

/// The encodings of `cmp`.
pub open spec fn forms_cmp() -> Seq<OpdataView> {
    seq![
        form("Abib".spec_bytes(), seq![0x3Cu8], NONE, Flags::DEFAULT, 0),
        form("v*ib".spec_bytes(), seq![0x83u8], 7, Flags::AUTO_SIZE | Flags::EXACT_SIZE, 0),
        form("vbib".spec_bytes(), seq![0x80u8], 7, Flags::DEFAULT, 0),
        form("A*i*".spec_bytes(), seq![0x3Du8], NONE, Flags::AUTO_SIZE, 0),
        form("v*i*".spec_bytes(), seq![0x81u8], 7, Flags::AUTO_SIZE, 0),
        form("v*r*".spec_bytes(), seq![0x39u8], NONE, Flags::AUTO_SIZE | Flags::ENC_MR, 0),
        form("vbrb".spec_bytes(), seq![0x38u8], NONE, Flags::ENC_MR, 0),
        form("r*v*".spec_bytes(), seq![0x3Bu8], NONE, Flags::AUTO_SIZE, 0),
        form("rbvb".spec_bytes(), seq![0x3Au8], NONE, Flags::DEFAULT, 0),
    ]
}

fn table_cmp() -> (r: Vec<Opdata>)
    ensures
        opdata_views(r@) == forms_cmp(),
{
    let mut table = new_table();
    push_row(&mut table, "Abib", ops1(0x3C), NONE, Flags::DEFAULT, 0);
    push_row(&mut table, "v*ib", ops1(0x83), 7, Flags::AUTO_SIZE | Flags::EXACT_SIZE, 0);
    push_row(&mut table, "vbib", ops1(0x80), 7, Flags::DEFAULT, 0);
    push_row(&mut table, "A*i*", ops1(0x3D), NONE, Flags::AUTO_SIZE, 0);
    push_row(&mut table, "v*i*", ops1(0x81), 7, Flags::AUTO_SIZE, 0);
    push_row(&mut table, "v*r*", ops1(0x39), NONE, Flags::AUTO_SIZE | Flags::ENC_MR, 0);
    push_row(&mut table, "vbrb", ops1(0x38), NONE, Flags::ENC_MR, 0);
    push_row(&mut table, "r*v*", ops1(0x3B), NONE, Flags::AUTO_SIZE, 0);
    push_row(&mut table, "rbvb", ops1(0x3A), NONE, Flags::DEFAULT, 0);
    table
}

/// The encodings of `mov`.
pub open spec fn forms_mov() -> Seq<OpdataView> {
    seq![
        form("v*r*".spec_bytes(), seq![0x89u8], NONE, Flags::AUTO_SIZE | Flags::ENC_MR, 0),
        form("vbrb".spec_bytes(), seq![0x88u8], NONE, Flags::ENC_MR, 0),
        form("r*v*".spec_bytes(), seq![0x8Bu8], NONE, Flags::AUTO_SIZE, 0),
        form("rbvb".spec_bytes(), seq![0x8Au8], NONE, Flags::DEFAULT, 0),
        form("r*sw".spec_bytes(), seq![0x8Cu8], NONE, Flags::AUTO_SIZE, 0),
        form("mwsw".spec_bytes(), seq![0x8Cu8], NONE, Flags::DEFAULT, 0),
        form("swmw".spec_bytes(), seq![0x8Eu8], NONE, Flags::DEFAULT, 0),
        form("swrw".spec_bytes(), seq![0x8Eu8], NONE, Flags::DEFAULT, 0),
        form("rqiq".spec_bytes(), seq![0xB8u8], NONE, Flags::WITH_REXW | Flags::SHORT_ARG, 0),
        form("r*i*".spec_bytes(), seq![0xB8u8], NONE, Flags::AUTO_SIZE | Flags::SHORT_ARG, 0),
        form("rbib".spec_bytes(), seq![0xB0u8], NONE, Flags::SHORT_ARG, 0),
        form("v*i*".spec_bytes(), seq![0xC7u8], 0, Flags::AUTO_SIZE, 0),
        form("vbib".spec_bytes(), seq![0xC6u8], 0, Flags::DEFAULT, 0),
        form("cdrd".spec_bytes(), seq![0x0Fu8, 0x22u8], NONE, Flags::DEFAULT, 0),
        form("cqrq".spec_bytes(), seq![0x0Fu8, 0x22u8], NONE, Flags::DEFAULT, 0),
        form("rdcd".spec_bytes(), seq![0x0Fu8, 0x20u8], NONE, Flags::DEFAULT, 0),
        form("rqcq".spec_bytes(), seq![0x0Fu8, 0x20u8], NONE, Flags::DEFAULT, 0),
        form("ddrd".spec_bytes(), seq![0x0Fu8, 0x23u8], NONE, Flags::DEFAULT, 0),
        form("dqrq".spec_bytes(), seq![0x0Fu8, 0x23u8], NONE, Flags::DEFAULT, 0),
        form("rddd".spec_bytes(), seq![0x0Fu8, 0x21u8], NONE, Flags::DEFAULT, 0),
        form("rqdq".spec_bytes(), seq![0x0Fu8, 0x21u8], NONE, Flags::DEFAULT, 0),
    ]
}

fn table_mov() -> (r: Vec<Opdata>)
    ensures
        opdata_views(r@) == forms_mov(),
{
    let mut table = new_table();
    push_row(&mut table, "v*r*", ops1(0x89), NONE, Flags::AUTO_SIZE | Flags::ENC_MR, 0);
    push_row(&mut table, "vbrb", ops1(0x88), NONE, Flags::ENC_MR, 0);
    push_row(&mut table, "r*v*", ops1(0x8B), NONE, Flags::AUTO_SIZE, 0);
    push_row(&mut table, "rbvb", ops1(0x8A), NONE, Flags::DEFAULT, 0);
    push_row(&mut table, "r*sw", ops1(0x8C), NONE, Flags::AUTO_SIZE, 0);
    push_row(&mut table, "mwsw", ops1(0x8C), NONE, Flags::DEFAULT, 0);
    push_row(&mut table, "swmw", ops1(0x8E), NONE, Flags::DEFAULT, 0);
    push_row(&mut table, "swrw", ops1(0x8E), NONE, Flags::DEFAULT, 0);
    push_row(&mut table, "rqiq", ops1(0xB8), NONE, Flags::WITH_REXW | Flags::SHORT_ARG, 0);
    push_row(&mut table, "r*i*", ops1(0xB8), NONE, Flags::AUTO_SIZE | Flags::SHORT_ARG, 0);
    push_row(&mut table, "rbib", ops1(0xB0), NONE, Flags::SHORT_ARG, 0);
    push_row(&mut table, "v*i*", ops1(0xC7), 0, Flags::AUTO_SIZE, 0);
    push_row(&mut table, "vbib", ops1(0xC6), 0, Flags::DEFAULT, 0);
    push_row(&mut table, "cdrd", ops2(0x0F, 0x22), NONE, Flags::DEFAULT, 0);
    push_row(&mut table, "cqrq", ops2(0x0F, 0x22), NONE, Flags::DEFAULT, 0);
    push_row(&mut table, "rdcd", ops2(0x0F, 0x20), NONE, Flags::DEFAULT, 0);
    push_row(&mut table, "rqcq", ops2(0x0F, 0x20), NONE, Flags::DEFAULT, 0);
    push_row(&mut table, "ddrd", ops2(0x0F, 0x23), NONE, Flags::DEFAULT, 0);
    push_row(&mut table, "dqrq", ops2(0x0F, 0x23), NONE, Flags::DEFAULT, 0);
    push_row(&mut table, "rddd", ops2(0x0F, 0x21), NONE, Flags::DEFAULT, 0);
    push_row(&mut table, "rqdq", ops2(0x0F, 0x21), NONE, Flags::DEFAULT, 0);
    table
}

/// The encodings of `test`.
pub open spec fn forms_test() -> Seq<OpdataView> {
    seq![
        form("Abib".spec_bytes(), seq![0xA8u8], NONE, Flags::DEFAULT, 0),
        form("A*i*".spec_bytes(), seq![0xA9u8], NONE, Flags::AUTO_SIZE, 0),
        form("vbib".spec_bytes(), seq![0xF6u8], 0, Flags::DEFAULT, 0),
        form("v*i*".spec_bytes(), seq![0xF7u8], 0, Flags::AUTO_SIZE, 0),
        form("v*r*".spec_bytes(), seq![0x85u8], NONE, Flags::AUTO_SIZE | Flags::ENC_MR, 0),
        form("vbrb".spec_bytes(), seq![0x84u8], NONE, Flags::ENC_MR, 0),
    ]
}

fn table_test() -> (r: Vec<Opdata>)
    ensures
        opdata_views(r@) == forms_test(),
{
    let mut table = new_table();
    push_row(&mut table, "Abib", ops1(0xA8), NONE, Flags::DEFAULT, 0);
    push_row(&mut table, "A*i*", ops1(0xA9), NONE, Flags::AUTO_SIZE, 0);
    push_row(&mut table, "vbib", ops1(0xF6), 0, Flags::DEFAULT, 0);
    push_row(&mut table, "v*i*", ops1(0xF7), 0, Flags::AUTO_SIZE, 0);
    push_row(&mut table, "v*r*", ops1(0x85), NONE, Flags::AUTO_SIZE | Flags::ENC_MR, 0);
    push_row(&mut table, "vbrb", ops1(0x84), NONE, Flags::ENC_MR, 0);
    table
}

/// The encodings of `lea`.
pub open spec fn forms_lea() -> Seq<OpdataView> {
    seq![
        form("r*m!".spec_bytes(), seq![0x8Du8], NONE, Flags::AUTO_SIZE, 0),
    ]
}

fn table_lea() -> (r: Vec<Opdata>)
    ensures
        opdata_views(r@) == forms_lea(),
{
    let mut table = new_table();
    push_row(&mut table, "r*m!", ops1(0x8D), NONE, Flags::AUTO_SIZE, 0);
    table
}

/// The encodings of `push`.
pub open spec fn forms_push() -> Seq<OpdataView> {
    seq![
        form("r*".spec_bytes(), seq![0x50u8], NONE, Flags::AUTO_NO32 | Flags::SHORT_ARG, 0),
        form("v*".spec_bytes(), seq![0xFFu8], 6, Flags::AUTO_NO32, 0),
        form("ib".spec_bytes(), seq![0x6Au8], NONE, Flags::EXACT_SIZE, 0),
        form("iw".spec_bytes(), seq![0x68u8], NONE, Flags::EXACT_SIZE | Flags::WORD_SIZE, 0),
        form("id".spec_bytes(), seq![0x68u8], NONE, Flags::DEFAULT, 0),
    ]
}

fn table_push() -> (r: Vec<Opdata>)
    ensures
        opdata_views(r@) == forms_push(),
{
    let mut table = new_table();
    push_row(&mut table, "r*", ops1(0x50), NONE, Flags::AUTO_NO32 | Flags::SHORT_ARG, 0);
    push_row(&mut table, "v*", ops1(0xFF), 6, Flags::AUTO_NO32, 0);
    push_row(&mut table, "ib", ops1(0x6A), NONE, Flags::EXACT_SIZE, 0);
    push_row(&mut table, "iw", ops1(0x68), NONE, Flags::EXACT_SIZE | Flags::WORD_SIZE, 0);
    push_row(&mut table, "id", ops1(0x68), NONE, Flags::DEFAULT, 0);
    table
}

/// The encodings of `pop`.
pub open spec fn forms_pop() -> Seq<OpdataView> {
    seq![
        form("r*".spec_bytes(), seq![0x58u8], NONE, Flags::AUTO_NO32 | Flags::SHORT_ARG, 0),
        form("v*".spec_bytes(), seq![0x8Fu8], 0, Flags::AUTO_NO32, 0),
    ]
}

fn table_pop() -> (r: Vec<Opdata>)
    ensures
        opdata_views(r@) == forms_pop(),
{
    let mut table = new_table();
    push_row(&mut table, "r*", ops1(0x58), NONE, Flags::AUTO_NO32 | Flags::SHORT_ARG, 0);
    push_row(&mut table, "v*", ops1(0x8F), 0, Flags::AUTO_NO32, 0);
    table
}

/// The encodings of `ret`.
pub open spec fn forms_ret() -> Seq<OpdataView> {
    seq![
        form("".spec_bytes(), seq![0xC3u8], NONE, Flags::DEFAULT, 0),
        form("iw".spec_bytes(), seq![0xC2u8], NONE, Flags::DEFAULT, 0),
    ]
}

fn table_ret() -> (r: Vec<Opdata>)
    ensures
        opdata_views(r@) == forms_ret(),
{
    let mut table = new_table();
    push_row(&mut table, "", ops1(0xC3), NONE, Flags::DEFAULT, 0);
    push_row(&mut table, "iw", ops1(0xC2), NONE, Flags::DEFAULT, 0);
    table
}

/// The encodings of `nop`.
pub open spec fn forms_nop() -> Seq<OpdataView> {
    seq![
        form("".spec_bytes(), seq![0x90u8], NONE, Flags::DEFAULT, 0),
        form("v*".spec_bytes(), seq![0x0Fu8, 0x1Fu8], 0, Flags::AUTO_SIZE, 0),
    ]
}

fn table_nop() -> (r: Vec<Opdata>)
    ensures
        opdata_views(r@) == forms_nop(),
{
    let mut table = new_table();
    push_row(&mut table, "", ops1(0x90), NONE, Flags::DEFAULT, 0);
    push_row(&mut table, "v*", ops2(0x0F, 0x1F), 0, Flags::AUTO_SIZE, 0);
    table
}

/// The encodings of `int3`.
pub open spec fn forms_int3() -> Seq<OpdataView> {
    seq![
        form("".spec_bytes(), seq![0xCCu8], NONE, Flags::DEFAULT, 0),
    ]
}

fn table_int3() -> (r: Vec<Opdata>)
    ensures
        opdata_views(r@) == forms_int3(),
{
    let mut table = new_table();
    push_row(&mut table, "", ops1(0xCC), NONE, Flags::DEFAULT, 0);
    table
}

/// The encodings of `int`.
pub open spec fn forms_int() -> Seq<OpdataView> {
    seq![
        form("ib".spec_bytes(), seq![0xCDu8], NONE, Flags::DEFAULT, 0),
    ]
}

fn table_int() -> (r: Vec<Opdata>)
    ensures
        opdata_views(r@) == forms_int(),
{
    let mut table = new_table();
    push_row(&mut table, "ib", ops1(0xCD), NONE, Flags::DEFAULT, 0);
    table
}

/// The encodings of `hlt`.
pub open spec fn forms_hlt() -> Seq<OpdataView> {
    seq![
        form("".spec_bytes(), seq![0xF4u8], NONE, Flags::DEFAULT, 0),
    ]
}

fn table_hlt() -> (r: Vec<Opdata>)
    ensures
        opdata_views(r@) == forms_hlt(),
{
    let mut table = new_table();
    push_row(&mut table, "", ops1(0xF4), NONE, Flags::DEFAULT, 0);
    table
}

/// The encodings of `leave`.
pub open spec fn forms_leave() -> Seq<OpdataView> {
    seq![
        form("".spec_bytes(), seq![0xC9u8], NONE, Flags::DEFAULT, 0),
    ]
}

fn table_leave() -> (r: Vec<Opdata>)
    ensures
        opdata_views(r@) == forms_leave(),
{
    let mut table = new_table();
    push_row(&mut table, "", ops1(0xC9), NONE, Flags::DEFAULT, 0);
    table
}

/// The encodings of `cpuid`.
pub open spec fn forms_cpuid() -> Seq<OpdataView> {
    seq![
        form("".spec_bytes(), seq![0x0Fu8, 0xA2u8], NONE, Flags::DEFAULT, 0),
    ]
}

fn table_cpuid() -> (r: Vec<Opdata>)
    ensures
        opdata_views(r@) == forms_cpuid(),
{
    let mut table = new_table();
    push_row(&mut table, "", ops2(0x0F, 0xA2), NONE, Flags::DEFAULT, 0);
    table
}

/// The encodings of `syscall`.
pub open spec fn forms_syscall() -> Seq<OpdataView> {
    seq![
        form("".spec_bytes(), seq![0x0Fu8, 0x05u8], NONE, Flags::DEFAULT, 0),
    ]
}

fn table_syscall() -> (r: Vec<Opdata>)
    ensures
        opdata_views(r@) == forms_syscall(),
{
    let mut table = new_table();
    push_row(&mut table, "", ops2(0x0F, 0x05), NONE, Flags::DEFAULT, 0);
    table
}

/// The encodings of `ud2`.
pub open spec fn forms_ud2() -> Seq<OpdataView> {
    seq![
        form("".spec_bytes(), seq![0x0Fu8, 0x0Bu8], NONE, Flags::DEFAULT, 0),
    ]
}

fn table_ud2() -> (r: Vec<Opdata>)
    ensures
        opdata_views(r@) == forms_ud2(),
{
    let mut table = new_table();
    push_row(&mut table, "", ops2(0x0F, 0x0B), NONE, Flags::DEFAULT, 0);
    table
}

/// The encodings of `pause`.
pub open spec fn forms_pause() -> Seq<OpdataView> {
    seq![
        form("".spec_bytes(), seq![0x90u8], NONE, Flags::PREF_F3, 0),
    ]
}

fn table_pause() -> (r: Vec<Opdata>)
    ensures
        opdata_views(r@) == forms_pause(),
{
    let mut table = new_table();
    push_row(&mut table, "", ops1(0x90), NONE, Flags::PREF_F3, 0);
    table
}

/// The encodings of `cwde`.
pub open spec fn forms_cwde() -> Seq<OpdataView> {
    seq![
        form("".spec_bytes(), seq![0x98u8], NONE, Flags::DEFAULT, 0),
    ]
}

fn table_cwde() -> (r: Vec<Opdata>)
    ensures
        opdata_views(r@) == forms_cwde(),
{
    let mut table = new_table();
    push_row(&mut table, "", ops1(0x98), NONE, Flags::DEFAULT, 0);
    table
}

/// The encodings of `cbw`.
pub open spec fn forms_cbw() -> Seq<OpdataView> {
    seq![
        form("".spec_bytes(), seq![0x98u8], NONE, Flags::WORD_SIZE, 0),
    ]
}

fn table_cbw() -> (r: Vec<Opdata>)
    ensures
        opdata_views(r@) == forms_cbw(),
{
    let mut table = new_table();
    push_row(&mut table, "", ops1(0x98), NONE, Flags::WORD_SIZE, 0);
    table
}

/// The encodings of `cdqe`.
pub open spec fn forms_cdqe() -> Seq<OpdataView> {
    seq![
        form("".spec_bytes(), seq![0x98u8], NONE, Flags::WITH_REXW, 0),
    ]
}

fn table_cdqe() -> (r: Vec<Opdata>)
    ensures
        opdata_views(r@) == forms_cdqe(),
{
    let mut table = new_table();
    push_row(&mut table, "", ops1(0x98), NONE, Flags::WITH_REXW, 0);
    table
}

/// The encodings of `pushad`.
pub open spec fn forms_pushad() -> Seq<OpdataView> {
    seq![
        form("".spec_bytes(), seq![0x60u8], NONE, Flags::X86_ONLY, 0),
    ]
}

fn table_pushad() -> (r: Vec<Opdata>)
    ensures
        opdata_views(r@) == forms_pushad(),
{
    let mut table = new_table();
    push_row(&mut table, "", ops1(0x60), NONE, Flags::X86_ONLY, 0);
    table
}

/// The encodings of `popad`.
pub open spec fn forms_popad() -> Seq<OpdataView> {
    seq![
        form("".spec_bytes(), seq![0x61u8], NONE, Flags::X86_ONLY, 0),
    ]
}

fn table_popad() -> (r: Vec<Opdata>)
    ensures
        opdata_views(r@) == forms_popad(),
{
    let mut table = new_table();
    push_row(&mut table, "", ops1(0x61), NONE, Flags::X86_ONLY, 0);
    table
}

/// The encodings of `aaa`.
pub open spec fn forms_aaa() -> Seq<OpdataView> {
    seq![
        form("".spec_bytes(), seq![0x37u8], NONE, Flags::X86_ONLY, 0),
    ]
}

fn table_aaa() -> (r: Vec<Opdata>)
    ensures
        opdata_views(r@) == forms_aaa(),
{
    let mut table = new_table();
    push_row(&mut table, "", ops1(0x37), NONE, Flags::X86_ONLY, 0);
    table
}

/// The encodings of `jmp`.
pub open spec fn forms_jmp() -> Seq<OpdataView> {
    seq![
        form("ob".spec_bytes(), seq![0xEBu8], NONE, Flags::EXACT_SIZE, 0),
        form("od".spec_bytes(), seq![0xE9u8], NONE, Flags::DEFAULT, 0),
        form("v*".spec_bytes(), seq![0xFFu8], 4, Flags::AUTO_NO32, 0),
    ]
}

fn table_jmp() -> (r: Vec<Opdata>)
    ensures
        opdata_views(r@) == forms_jmp(),
{
    let mut table = new_table();
    push_row(&mut table, "ob", ops1(0xEB), NONE, Flags::EXACT_SIZE, 0);
    push_row(&mut table, "od", ops1(0xE9), NONE, Flags::DEFAULT, 0);
    push_row(&mut table, "v*", ops1(0xFF), 4, Flags::AUTO_NO32, 0);
    table
}

/// The encodings of `call`.
pub open spec fn forms_call() -> Seq<OpdataView> {
    seq![
        form("od".spec_bytes(), seq![0xE8u8], NONE, Flags::DEFAULT, 0),
        form("v*".spec_bytes(), seq![0xFFu8], 2, Flags::AUTO_NO32, 0),
    ]
}

fn table_call() -> (r: Vec<Opdata>)
    ensures
        opdata_views(r@) == forms_call(),
{
    let mut table = new_table();
    push_row(&mut table, "od", ops1(0xE8), NONE, Flags::DEFAULT, 0);
    push_row(&mut table, "v*", ops1(0xFF), 2, Flags::AUTO_NO32, 0);
    table
}

/// The encodings of `jo`.
pub open spec fn forms_jo() -> Seq<OpdataView> {
    seq![
        form("ob".spec_bytes(), seq![0x70u8], NONE, Flags::EXACT_SIZE, 0),
        form("od".spec_bytes(), seq![0x0Fu8, 0x80u8], NONE, Flags::DEFAULT, 0),
    ]
}

fn table_jo() -> (r: Vec<Opdata>)
    ensures
        opdata_views(r@) == forms_jo(),
{
    let mut table = new_table();
    push_row(&mut table, "ob", ops1(0x70), NONE, Flags::EXACT_SIZE, 0);
    push_row(&mut table, "od", ops2(0x0F, 0x80), NONE, Flags::DEFAULT, 0);
    table
}

/// The encodings of `jno`.
pub open spec fn forms_jno() -> Seq<OpdataView> {
    seq![
        form("ob".spec_bytes(), seq![0x71u8], NONE, Flags::EXACT_SIZE, 0),
        form("od".spec_bytes(), seq![0x0Fu8, 0x81u8], NONE, Flags::DEFAULT, 0),
    ]
}

fn table_jno() -> (r: Vec<Opdata>)
    ensures
        opdata_views(r@) == forms_jno(),
{
    let mut table = new_table();
    push_row(&mut table, "ob", ops1(0x71), NONE, Flags::EXACT_SIZE, 0);
    push_row(&mut table, "od", ops2(0x0F, 0x81), NONE, Flags::DEFAULT, 0);
    table
}

/// The encodings of `jb`, `jc`, `jnae`.
pub open spec fn forms_jb() -> Seq<OpdataView> {
    seq![
        form("ob".spec_bytes(), seq![0x72u8], NONE, Flags::EXACT_SIZE, 0),
        form("od".spec_bytes(), seq![0x0Fu8, 0x82u8], NONE, Flags::DEFAULT, 0),
    ]
}

fn table_jb() -> (r: Vec<Opdata>)
    ensures
        opdata_views(r@) == forms_jb(),
{
    let mut table = new_table();
    push_row(&mut table, "ob", ops1(0x72), NONE, Flags::EXACT_SIZE, 0);
    push_row(&mut table, "od", ops2(0x0F, 0x82), NONE, Flags::DEFAULT, 0);
    table
}

/// The encodings of `jnb`, `jnc`, `jae`.
pub open spec fn forms_jnb() -> Seq<OpdataView> {
    seq![
        form("ob".spec_bytes(), seq![0x73u8], NONE, Flags::EXACT_SIZE, 0),
        form("od".spec_bytes(), seq![0x0Fu8, 0x83u8], NONE, Flags::DEFAULT, 0),
    ]
}

fn table_jnb() -> (r: Vec<Opdata>)
    ensures
        opdata_views(r@) == forms_jnb(),
{
    let mut table = new_table();
    push_row(&mut table, "ob", ops1(0x73), NONE, Flags::EXACT_SIZE, 0);
    push_row(&mut table, "od", ops2(0x0F, 0x83), NONE, Flags::DEFAULT, 0);
    table
}

/// The encodings of `jz`, `je`.
pub open spec fn forms_jz() -> Seq<OpdataView> {
    seq![
        form("ob".spec_bytes(), seq![0x74u8], NONE, Flags::EXACT_SIZE, 0),
        form("od".spec_bytes(), seq![0x0Fu8, 0x84u8], NONE, Flags::DEFAULT, 0),
    ]
}

fn table_jz() -> (r: Vec<Opdata>)
    ensures
        opdata_views(r@) == forms_jz(),
{
    let mut table = new_table();
    push_row(&mut table, "ob", ops1(0x74), NONE, Flags::EXACT_SIZE, 0);
    push_row(&mut table, "od", ops2(0x0F, 0x84), NONE, Flags::DEFAULT, 0);
    table
}

/// The encodings of `jnz`, `jne`.
pub open spec fn forms_jnz() -> Seq<OpdataView> {
    seq![
        form("ob".spec_bytes(), seq![0x75u8], NONE, Flags::EXACT_SIZE, 0),
        form("od".spec_bytes(), seq![0x0Fu8, 0x85u8], NONE, Flags::DEFAULT, 0),
    ]
}

fn table_jnz() -> (r: Vec<Opdata>)
    ensures
        opdata_views(r@) == forms_jnz(),
{
    let mut table = new_table();
    push_row(&mut table, "ob", ops1(0x75), NONE, Flags::EXACT_SIZE, 0);
    push_row(&mut table, "od", ops2(0x0F, 0x85), NONE, Flags::DEFAULT, 0);
    table
}

/// The encodings of `jbe`, `jna`.
pub open spec fn forms_jbe() -> Seq<OpdataView> {
    seq![
        form("ob".spec_bytes(), seq![0x76u8], NONE, Flags::EXACT_SIZE, 0),
        form("od".spec_bytes(), seq![0x0Fu8, 0x86u8], NONE, Flags::DEFAULT, 0),
    ]
}

fn table_jbe() -> (r: Vec<Opdata>)
    ensures
        opdata_views(r@) == forms_jbe(),
{
    let mut table = new_table();
    push_row(&mut table, "ob", ops1(0x76), NONE, Flags::EXACT_SIZE, 0);
    push_row(&mut table, "od", ops2(0x0F, 0x86), NONE, Flags::DEFAULT, 0);
    table
}

/// The encodings of `jnbe`, `ja`.
pub open spec fn forms_jnbe() -> Seq<OpdataView> {
    seq![
        form("ob".spec_bytes(), seq![0x77u8], NONE, Flags::EXACT_SIZE, 0),
        form("od".spec_bytes(), seq![0x0Fu8, 0x87u8], NONE, Flags::DEFAULT, 0),
    ]
}

fn table_jnbe() -> (r: Vec<Opdata>)
    ensures
        opdata_views(r@) == forms_jnbe(),
{
    let mut table = new_table();
    push_row(&mut table, "ob", ops1(0x77), NONE, Flags::EXACT_SIZE, 0);
    push_row(&mut table, "od", ops2(0x0F, 0x87), NONE, Flags::DEFAULT, 0);
    table
}

/// The encodings of `js`.
pub open spec fn forms_js() -> Seq<OpdataView> {
    seq![
        form("ob".spec_bytes(), seq![0x78u8], NONE, Flags::EXACT_SIZE, 0),
        form("od".spec_bytes(), seq![0x0Fu8, 0x88u8], NONE, Flags::DEFAULT, 0),
    ]
}

fn table_js() -> (r: Vec<Opdata>)
    ensures
        opdata_views(r@) == forms_js(),
{
    let mut table = new_table();
    push_row(&mut table, "ob", ops1(0x78), NONE, Flags::EXACT_SIZE, 0);
    push_row(&mut table, "od", ops2(0x0F, 0x88), NONE, Flags::DEFAULT, 0);
    table
}

/// The encodings of `jns`.
pub open spec fn forms_jns() -> Seq<OpdataView> {
    seq![
        form("ob".spec_bytes(), seq![0x79u8], NONE, Flags::EXACT_SIZE, 0),
        form("od".spec_bytes(), seq![0x0Fu8, 0x89u8], NONE, Flags::DEFAULT, 0),
    ]
}

fn table_jns() -> (r: Vec<Opdata>)
    ensures
        opdata_views(r@) == forms_jns(),
{
    let mut table = new_table();
    push_row(&mut table, "ob", ops1(0x79), NONE, Flags::EXACT_SIZE, 0);
    push_row(&mut table, "od", ops2(0x0F, 0x89), NONE, Flags::DEFAULT, 0);
    table
}

/// The encodings of `jp`, `jpe`.
pub open spec fn forms_jp() -> Seq<OpdataView> {
    seq![
        form("ob".spec_bytes(), seq![0x7Au8], NONE, Flags::EXACT_SIZE, 0),
        form("od".spec_bytes(), seq![0x0Fu8, 0x8Au8], NONE, Flags::DEFAULT, 0),
    ]
}

fn table_jp() -> (r: Vec<Opdata>)
    ensures
        opdata_views(r@) == forms_jp(),
{
    let mut table = new_table();
    push_row(&mut table, "ob", ops1(0x7A), NONE, Flags::EXACT_SIZE, 0);
    push_row(&mut table, "od", ops2(0x0F, 0x8A), NONE, Flags::DEFAULT, 0);
    table
}

/// The encodings of `jnp`, `jpo`.
pub open spec fn forms_jnp() -> Seq<OpdataView> {
    seq![
        form("ob".spec_bytes(), seq![0x7Bu8], NONE, Flags::EXACT_SIZE, 0),
        form("od".spec_bytes(), seq![0x0Fu8, 0x8Bu8], NONE, Flags::DEFAULT, 0),
    ]
}

fn table_jnp() -> (r: Vec<Opdata>)
    ensures
        opdata_views(r@) == forms_jnp(),
{
    let mut table = new_table();
    push_row(&mut table, "ob", ops1(0x7B), NONE, Flags::EXACT_SIZE, 0);
    push_row(&mut table, "od", ops2(0x0F, 0x8B), NONE, Flags::DEFAULT, 0);
    table
}

/// The encodings of `jl`, `jnge`.
pub open spec fn forms_jl() -> Seq<OpdataView> {
    seq![
        form("ob".spec_bytes(), seq![0x7Cu8], NONE, Flags::EXACT_SIZE, 0),
        form("od".spec_bytes(), seq![0x0Fu8, 0x8Cu8], NONE, Flags::DEFAULT, 0),
    ]
}

fn table_jl() -> (r: Vec<Opdata>)
    ensures
        opdata_views(r@) == forms_jl(),
{
    let mut table = new_table();
    push_row(&mut table, "ob", ops1(0x7C), NONE, Flags::EXACT_SIZE, 0);
    push_row(&mut table, "od", ops2(0x0F, 0x8C), NONE, Flags::DEFAULT, 0);
    table
}

/// The encodings of `jnl`, `jge`.
pub open spec fn forms_jnl() -> Seq<OpdataView> {
    seq![
        form("ob".spec_bytes(), seq![0x7Du8], NONE, Flags::EXACT_SIZE, 0),
        form("od".spec_bytes(), seq![0x0Fu8, 0x8Du8], NONE, Flags::DEFAULT, 0),
    ]
}

fn table_jnl() -> (r: Vec<Opdata>)
    ensures
        opdata_views(r@) == forms_jnl(),
{
    let mut table = new_table();
    push_row(&mut table, "ob", ops1(0x7D), NONE, Flags::EXACT_SIZE, 0);
    push_row(&mut table, "od", ops2(0x0F, 0x8D), NONE, Flags::DEFAULT, 0);
    table
}

/// The encodings of `jle`, `jng`.
pub open spec fn forms_jle() -> Seq<OpdataView> {
    seq![
        form("ob".spec_bytes(), seq![0x7Eu8], NONE, Flags::EXACT_SIZE, 0),
        form("od".spec_bytes(), seq![0x0Fu8, 0x8Eu8], NONE, Flags::DEFAULT, 0),
    ]
}

fn table_jle() -> (r: Vec<Opdata>)
    ensures
        opdata_views(r@) == forms_jle(),
{
    let mut table = new_table();
    push_row(&mut table, "ob", ops1(0x7E), NONE, Flags::EXACT_SIZE, 0);
    push_row(&mut table, "od", ops2(0x0F, 0x8E), NONE, Flags::DEFAULT, 0);
    table
}

/// The encodings of `jnle`, `jg`.
pub open spec fn forms_jnle() -> Seq<OpdataView> {
    seq![
        form("ob".spec_bytes(), seq![0x7Fu8], NONE, Flags::EXACT_SIZE, 0),
        form("od".spec_bytes(), seq![0x0Fu8, 0x8Fu8], NONE, Flags::DEFAULT, 0),
    ]
}

fn table_jnle() -> (r: Vec<Opdata>)
    ensures
        opdata_views(r@) == forms_jnle(),
{
    let mut table = new_table();
    push_row(&mut table, "ob", ops1(0x7F), NONE, Flags::EXACT_SIZE, 0);
    push_row(&mut table, "od", ops2(0x0F, 0x8F), NONE, Flags::DEFAULT, 0);
    table
}

/// The encodings of `jecxz`.
pub open spec fn forms_jecxz() -> Seq<OpdataView> {
    seq![
        form("ob".spec_bytes(), seq![0xE3u8], NONE, Flags::PREF_67, 0),
    ]
}

fn table_jecxz() -> (r: Vec<Opdata>)
    ensures
        opdata_views(r@) == forms_jecxz(),
{
    let mut table = new_table();
    push_row(&mut table, "ob", ops1(0xE3), NONE, Flags::PREF_67, 0);
    table
}

/// The encodings of `jrcxz`.
pub open spec fn forms_jrcxz() -> Seq<OpdataView> {
    seq![
        form("ob".spec_bytes(), seq![0xE3u8], NONE, Flags::DEFAULT, 0),
    ]
}

fn table_jrcxz() -> (r: Vec<Opdata>)
    ensures
        opdata_views(r@) == forms_jrcxz(),
{
    let mut table = new_table();
    push_row(&mut table, "ob", ops1(0xE3), NONE, Flags::DEFAULT, 0);
    table
}

/// The encodings of `inc`.
pub open spec fn forms_inc() -> Seq<OpdataView> {
    seq![
        form("r*".spec_bytes(), seq![0x40u8], NONE, Flags::AUTO_SIZE | Flags::X86_ONLY | Flags::SHORT_ARG, 0),
        form("v*".spec_bytes(), seq![0xFFu8], 0, Flags::AUTO_SIZE | Flags::LOCK, 0),
        form("vb".spec_bytes(), seq![0xFEu8], 0, Flags::LOCK, 0),
    ]
}

fn table_inc() -> (r: Vec<Opdata>)
    ensures
        opdata_views(r@) == forms_inc(),
{
    let mut table = new_table();
    push_row(&mut table, "r*", ops1(0x40), NONE, Flags::AUTO_SIZE | Flags::X86_ONLY | Flags::SHORT_ARG, 0);
    push_row(&mut table, "v*", ops1(0xFF), 0, Flags::AUTO_SIZE | Flags::LOCK, 0);
    push_row(&mut table, "vb", ops1(0xFE), 0, Flags::LOCK, 0);
    table
}

/// The encodings of `dec`.
pub open spec fn forms_dec() -> Seq<OpdataView> {
    seq![
        form("r*".spec_bytes(), seq![0x48u8], NONE, Flags::AUTO_SIZE | Flags::X86_ONLY | Flags::SHORT_ARG, 0),
        form("v*".spec_bytes(), seq![0xFFu8], 1, Flags::AUTO_SIZE | Flags::LOCK, 0),
        form("vb".spec_bytes(), seq![0xFEu8], 1, Flags::LOCK, 0),
    ]
}

fn table_dec() -> (r: Vec<Opdata>)
    ensures
        opdata_views(r@) == forms_dec(),
{
    let mut table = new_table();
    push_row(&mut table, "r*", ops1(0x48), NONE, Flags::AUTO_SIZE | Flags::X86_ONLY | Flags::SHORT_ARG, 0);
    push_row(&mut table, "v*", ops1(0xFF), 1, Flags::AUTO_SIZE | Flags::LOCK, 0);
    push_row(&mut table, "vb", ops1(0xFE), 1, Flags::LOCK, 0);
    table
}

/// The encodings of `not`.
pub open spec fn forms_not() -> Seq<OpdataView> {
    seq![
        form("v*".spec_bytes(), seq![0xF7u8], 2, Flags::AUTO_SIZE | Flags::LOCK, 0),
        form("vb".spec_bytes(), seq![0xF6u8], 2, Flags::LOCK, 0),
    ]
}

fn table_not() -> (r: Vec<Opdata>)
    ensures
        opdata_views(r@) == forms_not(),
{
    let mut table = new_table();
    push_row(&mut table, "v*", ops1(0xF7), 2, Flags::AUTO_SIZE | Flags::LOCK, 0);
    push_row(&mut table, "vb", ops1(0xF6), 2, Flags::LOCK, 0);
    table
}

/// The encodings of `neg`.
pub open spec fn forms_neg() -> Seq<OpdataView> {
    seq![
        form("v*".spec_bytes(), seq![0xF7u8], 3, Flags::AUTO_SIZE | Flags::LOCK, 0),
        form("vb".spec_bytes(), seq![0xF6u8], 3, Flags::LOCK, 0),
    ]
}

fn table_neg() -> (r: Vec<Opdata>)
    ensures
        opdata_views(r@) == forms_neg(),
{
    let mut table = new_table();
    push_row(&mut table, "v*", ops1(0xF7), 3, Flags::AUTO_SIZE | Flags::LOCK, 0);
    push_row(&mut table, "vb", ops1(0xF6), 3, Flags::LOCK, 0);
    table
}

/// The encodings of `mul`.
pub open spec fn forms_mul() -> Seq<OpdataView> {
    seq![
        form("v*".spec_bytes(), seq![0xF7u8], 4, Flags::AUTO_SIZE, 0),
        form("vb".spec_bytes(), seq![0xF6u8], 4, Flags::DEFAULT, 0),
    ]
}

fn table_mul() -> (r: Vec<Opdata>)
    ensures
        opdata_views(r@) == forms_mul(),
{
    let mut table = new_table();
    push_row(&mut table, "v*", ops1(0xF7), 4, Flags::AUTO_SIZE, 0);
    push_row(&mut table, "vb", ops1(0xF6), 4, Flags::DEFAULT, 0);
    table
}

/// The encodings of `div`.
pub open spec fn forms_div() -> Seq<OpdataView> {
    seq![
        form("v*".spec_bytes(), seq![0xF7u8], 6, Flags::AUTO_SIZE, 0),
        form("vb".spec_bytes(), seq![0xF6u8], 6, Flags::DEFAULT, 0),
    ]
}

fn table_div() -> (r: Vec<Opdata>)
    ensures
        opdata_views(r@) == forms_div(),
{
    let mut table = new_table();
    push_row(&mut table, "v*", ops1(0xF7), 6, Flags::AUTO_SIZE, 0);
    push_row(&mut table, "vb", ops1(0xF6), 6, Flags::DEFAULT, 0);
    table
}

/// The encodings of `idiv`.
pub open spec fn forms_idiv() -> Seq<OpdataView> {
    seq![
        form("v*".spec_bytes(), seq![0xF7u8], 7, Flags::AUTO_SIZE, 0),
        form("vb".spec_bytes(), seq![0xF6u8], 7, Flags::DEFAULT, 0),
    ]
}

fn table_idiv() -> (r: Vec<Opdata>)
    ensures
        opdata_views(r@) == forms_idiv(),
{
    let mut table = new_table();
    push_row(&mut table, "v*", ops1(0xF7), 7, Flags::AUTO_SIZE, 0);
    push_row(&mut table, "vb", ops1(0xF6), 7, Flags::DEFAULT, 0);
    table
}

/// The encodings of `imul`.
pub open spec fn forms_imul() -> Seq<OpdataView> {
    seq![
        form("v*".spec_bytes(), seq![0xF7u8], 5, Flags::AUTO_SIZE, 0),
        form("vb".spec_bytes(), seq![0xF6u8], 5, Flags::DEFAULT, 0),
        form("r*v*".spec_bytes(), seq![0x0Fu8, 0xAFu8], NONE, Flags::AUTO_SIZE, 0),
        form("r*v*ib".spec_bytes(), seq![0x6Bu8], NONE, Flags::AUTO_SIZE | Flags::EXACT_SIZE, 0),
        form("r*v*i*".spec_bytes(), seq![0x69u8], NONE, Flags::AUTO_SIZE, 0),
    ]
}

fn table_imul() -> (r: Vec<Opdata>)
    ensures
        opdata_views(r@) == forms_imul(),
{
    let mut table = new_table();
    push_row(&mut table, "v*", ops1(0xF7), 5, Flags::AUTO_SIZE, 0);
    push_row(&mut table, "vb", ops1(0xF6), 5, Flags::DEFAULT, 0);
    push_row(&mut table, "r*v*", ops2(0x0F, 0xAF), NONE, Flags::AUTO_SIZE, 0);
    push_row(&mut table, "r*v*ib", ops1(0x6B), NONE, Flags::AUTO_SIZE | Flags::EXACT_SIZE, 0);
    push_row(&mut table, "r*v*i*", ops1(0x69), NONE, Flags::AUTO_SIZE, 0);
    table
}

/// The encodings of `rol`.
pub open spec fn forms_rol() -> Seq<OpdataView> {
    seq![
        form("v*Bb".spec_bytes(), seq![0xD3u8], 0, Flags::AUTO_SIZE, 0),
        form("vbBb".spec_bytes(), seq![0xD2u8], 0, Flags::DEFAULT, 0),
        form("v*ib".spec_bytes(), seq![0xC1u8], 0, Flags::AUTO_SIZE, 0),
        form("vbib".spec_bytes(), seq![0xC0u8], 0, Flags::DEFAULT, 0),
    ]
}

fn table_rol() -> (r: Vec<Opdata>)
    ensures
        opdata_views(r@) == forms_rol(),
{
    let mut table = new_table();
    push_row(&mut table, "v*Bb", ops1(0xD3), 0, Flags::AUTO_SIZE, 0);
    push_row(&mut table, "vbBb", ops1(0xD2), 0, Flags::DEFAULT, 0);
    push_row(&mut table, "v*ib", ops1(0xC1), 0, Flags::AUTO_SIZE, 0);
    push_row(&mut table, "vbib", ops1(0xC0), 0, Flags::DEFAULT, 0);
    table
}

/// The encodings of `ror`.
pub open spec fn forms_ror() -> Seq<OpdataView> {
    seq![
        form("v*Bb".spec_bytes(), seq![0xD3u8], 1, Flags::AUTO_SIZE, 0),
        form("vbBb".spec_bytes(), seq![0xD2u8], 1, Flags::DEFAULT, 0),
        form("v*ib".spec_bytes(), seq![0xC1u8], 1, Flags::AUTO_SIZE, 0),
        form("vbib".spec_bytes(), seq![0xC0u8], 1, Flags::DEFAULT, 0),
    ]
}

fn table_ror() -> (r: Vec<Opdata>)
    ensures
        opdata_views(r@) == forms_ror(),
{
    let mut table = new_table();
    push_row(&mut table, "v*Bb", ops1(0xD3), 1, Flags::AUTO_SIZE, 0);
    push_row(&mut table, "vbBb", ops1(0xD2), 1, Flags::DEFAULT, 0);
    push_row(&mut table, "v*ib", ops1(0xC1), 1, Flags::AUTO_SIZE, 0);
    push_row(&mut table, "vbib", ops1(0xC0), 1, Flags::DEFAULT, 0);
    table
}

/// The encodings of `shl`, `sal`.
pub open spec fn forms_shl() -> Seq<OpdataView> {
    seq![
        form("v*Bb".spec_bytes(), seq![0xD3u8], 4, Flags::AUTO_SIZE, 0),
        form("vbBb".spec_bytes(), seq![0xD2u8], 4, Flags::DEFAULT, 0),
        form("v*ib".spec_bytes(), seq![0xC1u8], 4, Flags::AUTO_SIZE, 0),
        form("vbib".spec_bytes(), seq![0xC0u8], 4, Flags::DEFAULT, 0),
    ]
}

fn table_shl() -> (r: Vec<Opdata>)
    ensures
        opdata_views(r@) == forms_shl(),
{
    let mut table = new_table();
    push_row(&mut table, "v*Bb", ops1(0xD3), 4, Flags::AUTO_SIZE, 0);
    push_row(&mut table, "vbBb", ops1(0xD2), 4, Flags::DEFAULT, 0);
    push_row(&mut table, "v*ib", ops1(0xC1), 4, Flags::AUTO_SIZE, 0);
    push_row(&mut table, "vbib", ops1(0xC0), 4, Flags::DEFAULT, 0);
    table
}

/// The encodings of `shr`.
pub open spec fn forms_shr() -> Seq<OpdataView> {
    seq![
        form("v*Bb".spec_bytes(), seq![0xD3u8], 5, Flags::AUTO_SIZE, 0),
        form("vbBb".spec_bytes(), seq![0xD2u8], 5, Flags::DEFAULT, 0),
        form("v*ib".spec_bytes(), seq![0xC1u8], 5, Flags::AUTO_SIZE, 0),
        form("vbib".spec_bytes(), seq![0xC0u8], 5, Flags::DEFAULT, 0),
    ]
}

fn table_shr() -> (r: Vec<Opdata>)
    ensures
        opdata_views(r@) == forms_shr(),
{
    let mut table = new_table();
    push_row(&mut table, "v*Bb", ops1(0xD3), 5, Flags::AUTO_SIZE, 0);
    push_row(&mut table, "vbBb", ops1(0xD2), 5, Flags::DEFAULT, 0);
    push_row(&mut table, "v*ib", ops1(0xC1), 5, Flags::AUTO_SIZE, 0);
    push_row(&mut table, "vbib", ops1(0xC0), 5, Flags::DEFAULT, 0);
    table
}

/// The encodings of `sar`.
pub open spec fn forms_sar() -> Seq<OpdataView> {
    seq![
        form("v*Bb".spec_bytes(), seq![0xD3u8], 7, Flags::AUTO_SIZE, 0),
        form("vbBb".spec_bytes(), seq![0xD2u8], 7, Flags::DEFAULT, 0),
        form("v*ib".spec_bytes(), seq![0xC1u8], 7, Flags::AUTO_SIZE, 0),
        form("vbib".spec_bytes(), seq![0xC0u8], 7, Flags::DEFAULT, 0),
    ]
}

fn table_sar() -> (r: Vec<Opdata>)
    ensures
        opdata_views(r@) == forms_sar(),
{
    let mut table = new_table();
    push_row(&mut table, "v*Bb", ops1(0xD3), 7, Flags::AUTO_SIZE, 0);
    push_row(&mut table, "vbBb", ops1(0xD2), 7, Flags::DEFAULT, 0);
    push_row(&mut table, "v*ib", ops1(0xC1), 7, Flags::AUTO_SIZE, 0);
    push_row(&mut table, "vbib", ops1(0xC0), 7, Flags::DEFAULT, 0);
    table
}

/// The encodings of `movzx`.
pub open spec fn forms_movzx() -> Seq<OpdataView> {
    seq![
        form("r*vb".spec_bytes(), seq![0x0Fu8, 0xB6u8], NONE, Flags::AUTO_SIZE, 0),
        form("r*vw".spec_bytes(), seq![0x0Fu8, 0xB7u8], NONE, Flags::AUTO_REXW, 0),
    ]
}

fn table_movzx() -> (r: Vec<Opdata>)
    ensures
        opdata_views(r@) == forms_movzx(),
{
    let mut table = new_table();
    push_row(&mut table, "r*vb", ops2(0x0F, 0xB6), NONE, Flags::AUTO_SIZE, 0);
    push_row(&mut table, "r*vw", ops2(0x0F, 0xB7), NONE, Flags::AUTO_REXW, 0);
    table
}

/// The encodings of `movsx`.
pub open spec fn forms_movsx() -> Seq<OpdataView> {
    seq![
        form("r*vb".spec_bytes(), seq![0x0Fu8, 0xBEu8], NONE, Flags::AUTO_SIZE, 0),
        form("r*vw".spec_bytes(), seq![0x0Fu8, 0xBFu8], NONE, Flags::AUTO_REXW, 0),
    ]
}

fn table_movsx() -> (r: Vec<Opdata>)
    ensures
        opdata_views(r@) == forms_movsx(),
{
    let mut table = new_table();
    push_row(&mut table, "r*vb", ops2(0x0F, 0xBE), NONE, Flags::AUTO_SIZE, 0);
    push_row(&mut table, "r*vw", ops2(0x0F, 0xBF), NONE, Flags::AUTO_REXW, 0);
    table
}

/// The encodings of `movsxd`.
pub open spec fn forms_movsxd() -> Seq<OpdataView> {
    seq![
        form("rqvd".spec_bytes(), seq![0x63u8], NONE, Flags::WITH_REXW, 0),
    ]
}

fn table_movsxd() -> (r: Vec<Opdata>)
    ensures
        opdata_views(r@) == forms_movsxd(),
{
    let mut table = new_table();
    push_row(&mut table, "rqvd", ops1(0x63), NONE, Flags::WITH_REXW, 0);
    table
}

/// The encodings of `xchg`.
pub open spec fn forms_xchg() -> Seq<OpdataView> {
    seq![
        form("A*r*".spec_bytes(), seq![0x90u8], NONE, Flags::AUTO_SIZE | Flags::SHORT_ARG, 0),
        form("r*A*".spec_bytes(), seq![0x90u8], NONE, Flags::AUTO_SIZE | Flags::SHORT_ARG, 0),
        form("v*r*".spec_bytes(), seq![0x87u8], NONE, Flags::AUTO_SIZE | Flags::LOCK | Flags::ENC_MR, 0),
        form("r*v*".spec_bytes(), seq![0x87u8], NONE, Flags::AUTO_SIZE | Flags::LOCK, 0),
        form("vbrb".spec_bytes(), seq![0x86u8], NONE, Flags::LOCK | Flags::ENC_MR, 0),
        form("rbvb".spec_bytes(), seq![0x86u8], NONE, Flags::LOCK, 0),
    ]
}

fn table_xchg() -> (r: Vec<Opdata>)
    ensures
        opdata_views(r@) == forms_xchg(),
{
    let mut table = new_table();
    push_row(&mut table, "A*r*", ops1(0x90), NONE, Flags::AUTO_SIZE | Flags::SHORT_ARG, 0);
    push_row(&mut table, "r*A*", ops1(0x90), NONE, Flags::AUTO_SIZE | Flags::SHORT_ARG, 0);
    push_row(&mut table, "v*r*", ops1(0x87), NONE, Flags::AUTO_SIZE | Flags::LOCK | Flags::ENC_MR, 0);
    push_row(&mut table, "r*v*", ops1(0x87), NONE, Flags::AUTO_SIZE | Flags::LOCK, 0);
    push_row(&mut table, "vbrb", ops1(0x86), NONE, Flags::LOCK | Flags::ENC_MR, 0);
    push_row(&mut table, "rbvb", ops1(0x86), NONE, Flags::LOCK, 0);
    table
}

/// The encodings of `cmpxchg`.
pub open spec fn forms_cmpxchg() -> Seq<OpdataView> {
    seq![
        form("v*r*".spec_bytes(), seq![0x0Fu8, 0xB1u8], NONE, Flags::AUTO_SIZE | Flags::LOCK | Flags::ENC_MR, 0),
        form("vbrb".spec_bytes(), seq![0x0Fu8, 0xB0u8], NONE, Flags::LOCK | Flags::ENC_MR, 0),
    ]
}

fn table_cmpxchg() -> (r: Vec<Opdata>)
    ensures
        opdata_views(r@) == forms_cmpxchg(),
{
    let mut table = new_table();
    push_row(&mut table, "v*r*", ops2(0x0F, 0xB1), NONE, Flags::AUTO_SIZE | Flags::LOCK | Flags::ENC_MR, 0);
    push_row(&mut table, "vbrb", ops2(0x0F, 0xB0), NONE, Flags::LOCK | Flags::ENC_MR, 0);
    table
}

/// The encodings of `xadd`.
pub open spec fn forms_xadd() -> Seq<OpdataView> {
    seq![
        form("v*r*".spec_bytes(), seq![0x0Fu8, 0xC1u8], NONE, Flags::AUTO_SIZE | Flags::LOCK | Flags::ENC_MR, 0),
        form("vbrb".spec_bytes(), seq![0x0Fu8, 0xC0u8], NONE, Flags::LOCK | Flags::ENC_MR, 0),
    ]
}

fn table_xadd() -> (r: Vec<Opdata>)
    ensures
        opdata_views(r@) == forms_xadd(),
{
    let mut table = new_table();
    push_row(&mut table, "v*r*", ops2(0x0F, 0xC1), NONE, Flags::AUTO_SIZE | Flags::LOCK | Flags::ENC_MR, 0);
    push_row(&mut table, "vbrb", ops2(0x0F, 0xC0), NONE, Flags::LOCK | Flags::ENC_MR, 0);
    table
}

/// The encodings of `bswap`.
pub open spec fn forms_bswap() -> Seq<OpdataView> {
    seq![
        form("r*".spec_bytes(), seq![0x0Fu8, 0xC8u8], NONE, Flags::AUTO_REXW | Flags::SHORT_ARG, 0),
    ]
}

fn table_bswap() -> (r: Vec<Opdata>)
    ensures
        opdata_views(r@) == forms_bswap(),
{
    let mut table = new_table();
    push_row(&mut table, "r*", ops2(0x0F, 0xC8), NONE, Flags::AUTO_REXW | Flags::SHORT_ARG, 0);
    table
}

/// The encodings of `popcnt`.
pub open spec fn forms_popcnt() -> Seq<OpdataView> {
    seq![
        form("r*v*".spec_bytes(), seq![0x0Fu8, 0xB8u8], NONE, Flags::AUTO_SIZE | Flags::PREF_F3, 0),
    ]
}

fn table_popcnt() -> (r: Vec<Opdata>)
    ensures
        opdata_views(r@) == forms_popcnt(),
{
    let mut table = new_table();
    push_row(&mut table, "r*v*", ops2(0x0F, 0xB8), NONE, Flags::AUTO_SIZE | Flags::PREF_F3, 0);
    table
}

/// The encodings of `movsb`.
pub open spec fn forms_movsb() -> Seq<OpdataView> {
    seq![
        form("".spec_bytes(), seq![0xA4u8], NONE, Flags::REP, 0),
    ]
}

fn table_movsb() -> (r: Vec<Opdata>)
    ensures
        opdata_views(r@) == forms_movsb(),
{
    let mut table = new_table();
    push_row(&mut table, "", ops1(0xA4), NONE, Flags::REP, 0);
    table
}

/// The encodings of `movsw`.
pub open spec fn forms_movsw() -> Seq<OpdataView> {
    seq![
        form("".spec_bytes(), seq![0xA5u8], NONE, Flags::WORD_SIZE | Flags::REP, 0),
    ]
}

fn table_movsw() -> (r: Vec<Opdata>)
    ensures
        opdata_views(r@) == forms_movsw(),
{
    let mut table = new_table();
    push_row(&mut table, "", ops1(0xA5), NONE, Flags::WORD_SIZE | Flags::REP, 0);
    table
}

/// The encodings of `movsq`.
pub open spec fn forms_movsq() -> Seq<OpdataView> {
    seq![
        form("".spec_bytes(), seq![0xA5u8], NONE, Flags::WITH_REXW | Flags::REP, 0),
    ]
}

fn table_movsq() -> (r: Vec<Opdata>)
    ensures
        opdata_views(r@) == forms_movsq(),
{
    let mut table = new_table();
    push_row(&mut table, "", ops1(0xA5), NONE, Flags::WITH_REXW | Flags::REP, 0);
    table
}

/// The encodings of `stosb`.
pub open spec fn forms_stosb() -> Seq<OpdataView> {
    seq![
        form("".spec_bytes(), seq![0xAAu8], NONE, Flags::REP, 0),
    ]
}

fn table_stosb() -> (r: Vec<Opdata>)
    ensures
        opdata_views(r@) == forms_stosb(),
{
    let mut table = new_table();
    push_row(&mut table, "", ops1(0xAA), NONE, Flags::REP, 0);
    table
}

/// The encodings of `stosq`.
pub open spec fn forms_stosq() -> Seq<OpdataView> {
    seq![
        form("".spec_bytes(), seq![0xABu8], NONE, Flags::WITH_REXW | Flags::REP, 0),
    ]
}

fn table_stosq() -> (r: Vec<Opdata>)
    ensures
        opdata_views(r@) == forms_stosq(),
{
    let mut table = new_table();
    push_row(&mut table, "", ops1(0xAB), NONE, Flags::WITH_REXW | Flags::REP, 0);
    table
}

/// The encodings of `lodsb`.
pub open spec fn forms_lodsb() -> Seq<OpdataView> {
    seq![
        form("".spec_bytes(), seq![0xACu8], NONE, Flags::REP, 0),
    ]
}

fn table_lodsb() -> (r: Vec<Opdata>)
    ensures
        opdata_views(r@) == forms_lodsb(),
{
    let mut table = new_table();
    push_row(&mut table, "", ops1(0xAC), NONE, Flags::REP, 0);
    table
}

/// The encodings of `cmpsb`.
pub open spec fn forms_cmpsb() -> Seq<OpdataView> {
    seq![
        form("".spec_bytes(), seq![0xA6u8], NONE, Flags::REPE, 0),
    ]
}

fn table_cmpsb() -> (r: Vec<Opdata>)
    ensures
        opdata_views(r@) == forms_cmpsb(),
{
    let mut table = new_table();
    push_row(&mut table, "", ops1(0xA6), NONE, Flags::REPE, 0);
    table
}

/// The encodings of `scasb`.
pub open spec fn forms_scasb() -> Seq<OpdataView> {
    seq![
        form("".spec_bytes(), seq![0xAEu8], NONE, Flags::REPE, 0),
    ]
}

fn table_scasb() -> (r: Vec<Opdata>)
    ensures
        opdata_views(r@) == forms_scasb(),
{
    let mut table = new_table();
    push_row(&mut table, "", ops1(0xAE), NONE, Flags::REPE, 0);
    table
}

/// The encodings of `fld`.
pub open spec fn forms_fld() -> Seq<OpdataView> {
    seq![
        form("md".spec_bytes(), seq![0xD9u8], 0, Flags::DEFAULT, Features::FPU),
        form("mq".spec_bytes(), seq![0xDDu8], 0, Flags::DEFAULT, Features::FPU),
        form("mp".spec_bytes(), seq![0xDBu8], 5, Flags::DEFAULT, Features::FPU),
        form("fp".spec_bytes(), seq![0xD9u8, 0xC0u8], NONE, Flags::SHORT_ARG, Features::FPU),
    ]
}

fn table_fld() -> (r: Vec<Opdata>)
    ensures
        opdata_views(r@) == forms_fld(),
{
    let mut table = new_table();
    push_row(&mut table, "md", ops1(0xD9), 0, Flags::DEFAULT, Features::FPU);
    push_row(&mut table, "mq", ops1(0xDD), 0, Flags::DEFAULT, Features::FPU);
    push_row(&mut table, "mp", ops1(0xDB), 5, Flags::DEFAULT, Features::FPU);
    push_row(&mut table, "fp", ops2(0xD9, 0xC0), NONE, Flags::SHORT_ARG, Features::FPU);
    table
}

/// The encodings of `fstp`.
pub open spec fn forms_fstp() -> Seq<OpdataView> {
    seq![
        form("md".spec_bytes(), seq![0xD9u8], 3, Flags::DEFAULT, Features::FPU),
        form("mq".spec_bytes(), seq![0xDDu8], 3, Flags::DEFAULT, Features::FPU),
        form("mp".spec_bytes(), seq![0xDBu8], 7, Flags::DEFAULT, Features::FPU),
        form("fp".spec_bytes(), seq![0xDDu8, 0xD8u8], NONE, Flags::SHORT_ARG, Features::FPU),
    ]
}

fn table_fstp() -> (r: Vec<Opdata>)
    ensures
        opdata_views(r@) == forms_fstp(),
{
    let mut table = new_table();
    push_row(&mut table, "md", ops1(0xD9), 3, Flags::DEFAULT, Features::FPU);
    push_row(&mut table, "mq", ops1(0xDD), 3, Flags::DEFAULT, Features::FPU);
    push_row(&mut table, "mp", ops1(0xDB), 7, Flags::DEFAULT, Features::FPU);
    push_row(&mut table, "fp", ops2(0xDD, 0xD8), NONE, Flags::SHORT_ARG, Features::FPU);
    table
}

/// The encodings of `fadd`.
pub open spec fn forms_fadd() -> Seq<OpdataView> {
    seq![
        form("md".spec_bytes(), seq![0xD8u8], 0, Flags::DEFAULT, Features::FPU),
        form("mq".spec_bytes(), seq![0xDCu8], 0, Flags::DEFAULT, Features::FPU),
        form("Xpfp".spec_bytes(), seq![0xD8u8, 0xC0u8], NONE, Flags::SHORT_ARG, Features::FPU),
        form("fpXp".spec_bytes(), seq![0xDCu8, 0xC0u8], NONE, Flags::SHORT_ARG, Features::FPU),
    ]
}

fn table_fadd() -> (r: Vec<Opdata>)
    ensures
        opdata_views(r@) == forms_fadd(),
{
    let mut table = new_table();
    push_row(&mut table, "md", ops1(0xD8), 0, Flags::DEFAULT, Features::FPU);
    push_row(&mut table, "mq", ops1(0xDC), 0, Flags::DEFAULT, Features::FPU);
    push_row(&mut table, "Xpfp", ops2(0xD8, 0xC0), NONE, Flags::SHORT_ARG, Features::FPU);
    push_row(&mut table, "fpXp", ops2(0xDC, 0xC0), NONE, Flags::SHORT_ARG, Features::FPU);
    table
}

/// The encodings of `emms`.
pub open spec fn forms_emms() -> Seq<OpdataView> {
    seq![
        form("".spec_bytes(), seq![0x0Fu8, 0x77u8], NONE, Flags::DEFAULT, Features::MMX),
    ]
}

fn table_emms() -> (r: Vec<Opdata>)
    ensures
        opdata_views(r@) == forms_emms(),
{
    let mut table = new_table();
    push_row(&mut table, "", ops2(0x0F, 0x77), NONE, Flags::DEFAULT, Features::MMX);
    table
}

/// The encodings of `paddb`.
pub open spec fn forms_paddb() -> Seq<OpdataView> {
    seq![
        form("xquq".spec_bytes(), seq![0x0Fu8, 0xFCu8], NONE, Flags::DEFAULT, Features::MMX),
        form("yowo".spec_bytes(), seq![0x0Fu8, 0xFCu8], NONE, Flags::PREF_66, Features::SSE2),
    ]
}

fn table_paddb() -> (r: Vec<Opdata>)
    ensures
        opdata_views(r@) == forms_paddb(),
{
    let mut table = new_table();
    push_row(&mut table, "xquq", ops2(0x0F, 0xFC), NONE, Flags::DEFAULT, Features::MMX);
    push_row(&mut table, "yowo", ops2(0x0F, 0xFC), NONE, Flags::PREF_66, Features::SSE2);
    table
}

/// The encodings of `pxor`.
pub open spec fn forms_pxor() -> Seq<OpdataView> {
    seq![
        form("xquq".spec_bytes(), seq![0x0Fu8, 0xEFu8], NONE, Flags::DEFAULT, Features::MMX),
        form("yowo".spec_bytes(), seq![0x0Fu8, 0xEFu8], NONE, Flags::PREF_66, Features::SSE2),
    ]
}

fn table_pxor() -> (r: Vec<Opdata>)
    ensures
        opdata_views(r@) == forms_pxor(),
{
    let mut table = new_table();
    push_row(&mut table, "xquq", ops2(0x0F, 0xEF), NONE, Flags::DEFAULT, Features::MMX);
    push_row(&mut table, "yowo", ops2(0x0F, 0xEF), NONE, Flags::PREF_66, Features::SSE2);
    table
}

/// The encodings of `movaps`.
pub open spec fn forms_movaps() -> Seq<OpdataView> {
    seq![
        form("yowo".spec_bytes(), seq![0x0Fu8, 0x28u8], NONE, Flags::DEFAULT, Features::SSE),
        form("woyo".spec_bytes(), seq![0x0Fu8, 0x29u8], NONE, Flags::ENC_MR, Features::SSE),
    ]
}

fn table_movaps() -> (r: Vec<Opdata>)
    ensures
        opdata_views(r@) == forms_movaps(),
{
    let mut table = new_table();
    push_row(&mut table, "yowo", ops2(0x0F, 0x28), NONE, Flags::DEFAULT, Features::SSE);
    push_row(&mut table, "woyo", ops2(0x0F, 0x29), NONE, Flags::ENC_MR, Features::SSE);
    table
}

/// The encodings of `movups`.
pub open spec fn forms_movups() -> Seq<OpdataView> {
    seq![
        form("yowo".spec_bytes(), seq![0x0Fu8, 0x10u8], NONE, Flags::DEFAULT, Features::SSE),
        form("woyo".spec_bytes(), seq![0x0Fu8, 0x11u8], NONE, Flags::ENC_MR, Features::SSE),
    ]
}

fn table_movups() -> (r: Vec<Opdata>)
    ensures
        opdata_views(r@) == forms_movups(),
{
    let mut table = new_table();
    push_row(&mut table, "yowo", ops2(0x0F, 0x10), NONE, Flags::DEFAULT, Features::SSE);
    push_row(&mut table, "woyo", ops2(0x0F, 0x11), NONE, Flags::ENC_MR, Features::SSE);
    table
}

/// The encodings of `movss`.
pub open spec fn forms_movss() -> Seq<OpdataView> {
    seq![
        form("yoyo".spec_bytes(), seq![0x0Fu8, 0x10u8], NONE, Flags::PREF_F3, Features::SSE),
        form("yomd".spec_bytes(), seq![0x0Fu8, 0x10u8], NONE, Flags::PREF_F3, Features::SSE),
        form("mdyo".spec_bytes(), seq![0x0Fu8, 0x11u8], NONE, Flags::PREF_F3 | Flags::ENC_MR, Features::SSE),
    ]
}

fn table_movss() -> (r: Vec<Opdata>)
    ensures
        opdata_views(r@) == forms_movss(),
{
    let mut table = new_table();
    push_row(&mut table, "yoyo", ops2(0x0F, 0x10), NONE, Flags::PREF_F3, Features::SSE);
    push_row(&mut table, "yomd", ops2(0x0F, 0x10), NONE, Flags::PREF_F3, Features::SSE);
    push_row(&mut table, "mdyo", ops2(0x0F, 0x11), NONE, Flags::PREF_F3 | Flags::ENC_MR, Features::SSE);
    table
}

/// The encodings of `movsd`.
pub open spec fn forms_movsd() -> Seq<OpdataView> {
    seq![
        form("".spec_bytes(), seq![0xA5u8], NONE, Flags::REP, 0),
        form("yoyo".spec_bytes(), seq![0x0Fu8, 0x10u8], NONE, Flags::PREF_F2, Features::SSE2),
        form("yomq".spec_bytes(), seq![0x0Fu8, 0x10u8], NONE, Flags::PREF_F2, Features::SSE2),
        form("mqyo".spec_bytes(), seq![0x0Fu8, 0x11u8], NONE, Flags::PREF_F2 | Flags::ENC_MR, Features::SSE2),
    ]
}

fn table_movsd() -> (r: Vec<Opdata>)
    ensures
        opdata_views(r@) == forms_movsd(),
{
    let mut table = new_table();
    push_row(&mut table, "", ops1(0xA5), NONE, Flags::REP, 0);
    push_row(&mut table, "yoyo", ops2(0x0F, 0x10), NONE, Flags::PREF_F2, Features::SSE2);
    push_row(&mut table, "yomq", ops2(0x0F, 0x10), NONE, Flags::PREF_F2, Features::SSE2);
    push_row(&mut table, "mqyo", ops2(0x0F, 0x11), NONE, Flags::PREF_F2 | Flags::ENC_MR, Features::SSE2);
    table
}

/// The encodings of `addps`.
pub open spec fn forms_addps() -> Seq<OpdataView> {
    seq![
        form("yowo".spec_bytes(), seq![0x0Fu8, 0x58u8], NONE, Flags::DEFAULT, Features::SSE),
    ]
}

fn table_addps() -> (r: Vec<Opdata>)
    ensures
        opdata_views(r@) == forms_addps(),
{
    let mut table = new_table();
    push_row(&mut table, "yowo", ops2(0x0F, 0x58), NONE, Flags::DEFAULT, Features::SSE);
    table
}

/// The encodings of `mulps`.
pub open spec fn forms_mulps() -> Seq<OpdataView> {
    seq![
        form("yowo".spec_bytes(), seq![0x0Fu8, 0x59u8], NONE, Flags::DEFAULT, Features::SSE),
    ]
}

fn table_mulps() -> (r: Vec<Opdata>)
    ensures
        opdata_views(r@) == forms_mulps(),
{
    let mut table = new_table();
    push_row(&mut table, "yowo", ops2(0x0F, 0x59), NONE, Flags::DEFAULT, Features::SSE);
    table
}

/// The encodings of `subps`.
pub open spec fn forms_subps() -> Seq<OpdataView> {
    seq![
        form("yowo".spec_bytes(), seq![0x0Fu8, 0x5Cu8], NONE, Flags::DEFAULT, Features::SSE),
    ]
}

fn table_subps() -> (r: Vec<Opdata>)
    ensures
        opdata_views(r@) == forms_subps(),
{
    let mut table = new_table();
    push_row(&mut table, "yowo", ops2(0x0F, 0x5C), NONE, Flags::DEFAULT, Features::SSE);
    table
}

/// The encodings of `divps`.
pub open spec fn forms_divps() -> Seq<OpdataView> {
    seq![
        form("yowo".spec_bytes(), seq![0x0Fu8, 0x5Eu8], NONE, Flags::DEFAULT, Features::SSE),
    ]
}

fn table_divps() -> (r: Vec<Opdata>)
    ensures
        opdata_views(r@) == forms_divps(),
{
    let mut table = new_table();
    push_row(&mut table, "yowo", ops2(0x0F, 0x5E), NONE, Flags::DEFAULT, Features::SSE);
    table
}

/// The encodings of `xorps`.
pub open spec fn forms_xorps() -> Seq<OpdataView> {
    seq![
        form("yowo".spec_bytes(), seq![0x0Fu8, 0x57u8], NONE, Flags::DEFAULT, Features::SSE),
    ]
}

fn table_xorps() -> (r: Vec<Opdata>)
    ensures
        opdata_views(r@) == forms_xorps(),
{
    let mut table = new_table();
    push_row(&mut table, "yowo", ops2(0x0F, 0x57), NONE, Flags::DEFAULT, Features::SSE);
    table
}

/// The encodings of `andps`.
pub open spec fn forms_andps() -> Seq<OpdataView> {
    seq![
        form("yowo".spec_bytes(), seq![0x0Fu8, 0x54u8], NONE, Flags::DEFAULT, Features::SSE),
    ]
}

fn table_andps() -> (r: Vec<Opdata>)
    ensures
        opdata_views(r@) == forms_andps(),
{
    let mut table = new_table();
    push_row(&mut table, "yowo", ops2(0x0F, 0x54), NONE, Flags::DEFAULT, Features::SSE);
    table
}

/// The encodings of `addpd`.
pub open spec fn forms_addpd() -> Seq<OpdataView> {
    seq![
        form("yowo".spec_bytes(), seq![0x0Fu8, 0x58u8], NONE, Flags::PREF_66, Features::SSE2),
    ]
}

fn table_addpd() -> (r: Vec<Opdata>)
    ensures
        opdata_views(r@) == forms_addpd(),
{
    let mut table = new_table();
    push_row(&mut table, "yowo", ops2(0x0F, 0x58), NONE, Flags::PREF_66, Features::SSE2);
    table
}

/// The encodings of `mulpd`.
pub open spec fn forms_mulpd() -> Seq<OpdataView> {
    seq![
        form("yowo".spec_bytes(), seq![0x0Fu8, 0x59u8], NONE, Flags::PREF_66, Features::SSE2),
    ]
}

fn table_mulpd() -> (r: Vec<Opdata>)
    ensures
        opdata_views(r@) == forms_mulpd(),
{
    let mut table = new_table();
    push_row(&mut table, "yowo", ops2(0x0F, 0x59), NONE, Flags::PREF_66, Features::SSE2);
    table
}

/// The encodings of `subpd`.
pub open spec fn forms_subpd() -> Seq<OpdataView> {
    seq![
        form("yowo".spec_bytes(), seq![0x0Fu8, 0x5Cu8], NONE, Flags::PREF_66, Features::SSE2),
    ]
}

fn table_subpd() -> (r: Vec<Opdata>)
    ensures
        opdata_views(r@) == forms_subpd(),
{
    let mut table = new_table();
    push_row(&mut table, "yowo", ops2(0x0F, 0x5C), NONE, Flags::PREF_66, Features::SSE2);
    table
}

/// The encodings of `xorpd`.
pub open spec fn forms_xorpd() -> Seq<OpdataView> {
    seq![
        form("yowo".spec_bytes(), seq![0x0Fu8, 0x57u8], NONE, Flags::PREF_66, Features::SSE2),
    ]
}

fn table_xorpd() -> (r: Vec<Opdata>)
    ensures
        opdata_views(r@) == forms_xorpd(),
{
    let mut table = new_table();
    push_row(&mut table, "yowo", ops2(0x0F, 0x57), NONE, Flags::PREF_66, Features::SSE2);
    table
}

/// The encodings of `addss`.
pub open spec fn forms_addss() -> Seq<OpdataView> {
    seq![
        form("yoyo".spec_bytes(), seq![0x0Fu8, 0x58u8], NONE, Flags::PREF_F3, Features::SSE),
        form("yomd".spec_bytes(), seq![0x0Fu8, 0x58u8], NONE, Flags::PREF_F3, Features::SSE),
    ]
}

fn table_addss() -> (r: Vec<Opdata>)
    ensures
        opdata_views(r@) == forms_addss(),
{
    let mut table = new_table();
    push_row(&mut table, "yoyo", ops2(0x0F, 0x58), NONE, Flags::PREF_F3, Features::SSE);
    push_row(&mut table, "yomd", ops2(0x0F, 0x58), NONE, Flags::PREF_F3, Features::SSE);
    table
}

/// The encodings of `mulss`.
pub open spec fn forms_mulss() -> Seq<OpdataView> {
    seq![
        form("yoyo".spec_bytes(), seq![0x0Fu8, 0x59u8], NONE, Flags::PREF_F3, Features::SSE),
        form("yomd".spec_bytes(), seq![0x0Fu8, 0x59u8], NONE, Flags::PREF_F3, Features::SSE),
    ]
}

fn table_mulss() -> (r: Vec<Opdata>)
    ensures
        opdata_views(r@) == forms_mulss(),
{
    let mut table = new_table();
    push_row(&mut table, "yoyo", ops2(0x0F, 0x59), NONE, Flags::PREF_F3, Features::SSE);
    push_row(&mut table, "yomd", ops2(0x0F, 0x59), NONE, Flags::PREF_F3, Features::SSE);
    table
}

/// The encodings of `subss`.
pub open spec fn forms_subss() -> Seq<OpdataView> {
    seq![
        form("yoyo".spec_bytes(), seq![0x0Fu8, 0x5Cu8], NONE, Flags::PREF_F3, Features::SSE),
        form("yomd".spec_bytes(), seq![0x0Fu8, 0x5Cu8], NONE, Flags::PREF_F3, Features::SSE),
    ]
}

fn table_subss() -> (r: Vec<Opdata>)
    ensures
        opdata_views(r@) == forms_subss(),
{
    let mut table = new_table();
    push_row(&mut table, "yoyo", ops2(0x0F, 0x5C), NONE, Flags::PREF_F3, Features::SSE);
    push_row(&mut table, "yomd", ops2(0x0F, 0x5C), NONE, Flags::PREF_F3, Features::SSE);
    table
}

/// The encodings of `addsd`.
pub open spec fn forms_addsd() -> Seq<OpdataView> {
    seq![
        form("yoyo".spec_bytes(), seq![0x0Fu8, 0x58u8], NONE, Flags::PREF_F2, Features::SSE2),
        form("yomq".spec_bytes(), seq![0x0Fu8, 0x58u8], NONE, Flags::PREF_F2, Features::SSE2),
    ]
}

fn table_addsd() -> (r: Vec<Opdata>)
    ensures
        opdata_views(r@) == forms_addsd(),
{
    let mut table = new_table();
    push_row(&mut table, "yoyo", ops2(0x0F, 0x58), NONE, Flags::PREF_F2, Features::SSE2);
    push_row(&mut table, "yomq", ops2(0x0F, 0x58), NONE, Flags::PREF_F2, Features::SSE2);
    table
}

/// The encodings of `mulsd`.
pub open spec fn forms_mulsd() -> Seq<OpdataView> {
    seq![
        form("yoyo".spec_bytes(), seq![0x0Fu8, 0x59u8], NONE, Flags::PREF_F2, Features::SSE2),
        form("yomq".spec_bytes(), seq![0x0Fu8, 0x59u8], NONE, Flags::PREF_F2, Features::SSE2),
    ]
}

fn table_mulsd() -> (r: Vec<Opdata>)
    ensures
        opdata_views(r@) == forms_mulsd(),
{
    let mut table = new_table();
    push_row(&mut table, "yoyo", ops2(0x0F, 0x59), NONE, Flags::PREF_F2, Features::SSE2);
    push_row(&mut table, "yomq", ops2(0x0F, 0x59), NONE, Flags::PREF_F2, Features::SSE2);
    table
}

/// The encodings of `subsd`.
pub open spec fn forms_subsd() -> Seq<OpdataView> {
    seq![
        form("yoyo".spec_bytes(), seq![0x0Fu8, 0x5Cu8], NONE, Flags::PREF_F2, Features::SSE2),
        form("yomq".spec_bytes(), seq![0x0Fu8, 0x5Cu8], NONE, Flags::PREF_F2, Features::SSE2),
    ]
}

fn table_subsd() -> (r: Vec<Opdata>)
    ensures
        opdata_views(r@) == forms_subsd(),
{
    let mut table = new_table();
    push_row(&mut table, "yoyo", ops2(0x0F, 0x5C), NONE, Flags::PREF_F2, Features::SSE2);
    push_row(&mut table, "yomq", ops2(0x0F, 0x5C), NONE, Flags::PREF_F2, Features::SSE2);
    table
}

/// The encodings of `cvtsi2sd`.
pub open spec fn forms_cvtsi2sd() -> Seq<OpdataView> {
    seq![
        form("yovd".spec_bytes(), seq![0x0Fu8, 0x2Au8], NONE, Flags::PREF_F2, Features::SSE2),
        form("yovq".spec_bytes(), seq![0x0Fu8, 0x2Au8], NONE, Flags::WITH_REXW | Flags::PREF_F2, Features::SSE2),
    ]
}

fn table_cvtsi2sd() -> (r: Vec<Opdata>)
    ensures
        opdata_views(r@) == forms_cvtsi2sd(),
{
    let mut table = new_table();
    push_row(&mut table, "yovd", ops2(0x0F, 0x2A), NONE, Flags::PREF_F2, Features::SSE2);
    push_row(&mut table, "yovq", ops2(0x0F, 0x2A), NONE, Flags::WITH_REXW | Flags::PREF_F2, Features::SSE2);
    table
}

/// The encodings of `pshufd`.
pub open spec fn forms_pshufd() -> Seq<OpdataView> {
    seq![
        form("yowoib".spec_bytes(), seq![0x0Fu8, 0x70u8], NONE, Flags::PREF_66, Features::SSE2),
    ]
}

fn table_pshufd() -> (r: Vec<Opdata>)
    ensures
        opdata_views(r@) == forms_pshufd(),
{
    let mut table = new_table();
    push_row(&mut table, "yowoib", ops2(0x0F, 0x70), NONE, Flags::PREF_66, Features::SSE2);
    table
}

/// The encodings of `haddps`.
pub open spec fn forms_haddps() -> Seq<OpdataView> {
    seq![
        form("yowo".spec_bytes(), seq![0x0Fu8, 0x7Cu8], NONE, Flags::PREF_F2, Features::SSE3),
    ]
}

fn table_haddps() -> (r: Vec<Opdata>)
    ensures
        opdata_views(r@) == forms_haddps(),
{
    let mut table = new_table();
    push_row(&mut table, "yowo", ops2(0x0F, 0x7C), NONE, Flags::PREF_F2, Features::SSE3);
    table
}

/// The encodings of `pshufb`.
pub open spec fn forms_pshufb() -> Seq<OpdataView> {
    seq![
        form("xquq".spec_bytes(), seq![0x0Fu8, 0x38u8, 0x00u8], NONE, Flags::DEFAULT, Features::SSSE3),
        form("yowo".spec_bytes(), seq![0x0Fu8, 0x38u8, 0x00u8], NONE, Flags::PREF_66, Features::SSSE3),
    ]
}

fn table_pshufb() -> (r: Vec<Opdata>)
    ensures
        opdata_views(r@) == forms_pshufb(),
{
    let mut table = new_table();
    push_row(&mut table, "xquq", ops3(0x0F, 0x38, 0x00), NONE, Flags::DEFAULT, Features::SSSE3);
    push_row(&mut table, "yowo", ops3(0x0F, 0x38, 0x00), NONE, Flags::PREF_66, Features::SSSE3);
    table
}

/// The encodings of `ptest`.
pub open spec fn forms_ptest() -> Seq<OpdataView> {
    seq![
        form("yowo".spec_bytes(), seq![0x0Fu8, 0x38u8, 0x17u8], NONE, Flags::PREF_66, Features::SSE41),
    ]
}

fn table_ptest() -> (r: Vec<Opdata>)
    ensures
        opdata_views(r@) == forms_ptest(),
{
    let mut table = new_table();
    push_row(&mut table, "yowo", ops3(0x0F, 0x38, 0x17), NONE, Flags::PREF_66, Features::SSE41);
    table
}

/// The encodings of `crc32`.
pub open spec fn forms_crc32() -> Seq<OpdataView> {
    seq![
        form("r*vb".spec_bytes(), seq![0x0Fu8, 0x38u8, 0xF0u8], NONE, Flags::AUTO_REXW | Flags::PREF_F2, Features::SSE42),
    ]
}

fn table_crc32() -> (r: Vec<Opdata>)
    ensures
        opdata_views(r@) == forms_crc32(),
{
    let mut table = new_table();
    push_row(&mut table, "r*vb", ops3(0x0F, 0x38, 0xF0), NONE, Flags::AUTO_REXW | Flags::PREF_F2, Features::SSE42);
    table
}

/// The encodings of `pfadd`.
pub open spec fn forms_pfadd() -> Seq<OpdataView> {
    seq![
        form("xquq".spec_bytes(), seq![0x0Fu8, 0x0Fu8, 0x9Eu8], NONE, Flags::IMM_OP, Features::TDNOW),
    ]
}

fn table_pfadd() -> (r: Vec<Opdata>)
    ensures
        opdata_views(r@) == forms_pfadd(),
{
    let mut table = new_table();
    push_row(&mut table, "xquq", ops3(0x0F, 0x0F, 0x9E), NONE, Flags::IMM_OP, Features::TDNOW);
    table
}

/// The encodings of `pfmul`.
pub open spec fn forms_pfmul() -> Seq<OpdataView> {
    seq![
        form("xquq".spec_bytes(), seq![0x0Fu8, 0x0Fu8, 0xB4u8], NONE, Flags::IMM_OP, Features::TDNOW),
    ]
}

fn table_pfmul() -> (r: Vec<Opdata>)
    ensures
        opdata_views(r@) == forms_pfmul(),
{
    let mut table = new_table();
    push_row(&mut table, "xquq", ops3(0x0F, 0x0F, 0xB4), NONE, Flags::IMM_OP, Features::TDNOW);
    table
}

/// The encodings of `femms`.
pub open spec fn forms_femms() -> Seq<OpdataView> {
    seq![
        form("".spec_bytes(), seq![0x0Fu8, 0x0Eu8], NONE, Flags::DEFAULT, Features::TDNOW),
    ]
}

fn table_femms() -> (r: Vec<Opdata>)
    ensures
        opdata_views(r@) == forms_femms(),
{
    let mut table = new_table();
    push_row(&mut table, "", ops2(0x0F, 0x0E), NONE, Flags::DEFAULT, Features::TDNOW);
    table
}

/// The encodings of `vaddps`.
pub open spec fn forms_vaddps() -> Seq<OpdataView> {
    seq![
        form("y*y*w*".spec_bytes(), seq![0x01u8, 0x58u8], NONE, Flags::AUTO_VEXL | Flags::VEX_OP, Features::AVX),
    ]
}

fn table_vaddps() -> (r: Vec<Opdata>)
    ensures
        opdata_views(r@) == forms_vaddps(),
{
    let mut table = new_table();
    push_row(&mut table, "y*y*w*", ops2(0x01, 0x58), NONE, Flags::AUTO_VEXL | Flags::VEX_OP, Features::AVX);
    table
}

/// The encodings of `vmulps`.
pub open spec fn forms_vmulps() -> Seq<OpdataView> {
    seq![
        form("y*y*w*".spec_bytes(), seq![0x01u8, 0x59u8], NONE, Flags::AUTO_VEXL | Flags::VEX_OP, Features::AVX),
    ]
}

fn table_vmulps() -> (r: Vec<Opdata>)
    ensures
        opdata_views(r@) == forms_vmulps(),
{
    let mut table = new_table();
    push_row(&mut table, "y*y*w*", ops2(0x01, 0x59), NONE, Flags::AUTO_VEXL | Flags::VEX_OP, Features::AVX);
    table
}

/// The encodings of `vsubps`.
pub open spec fn forms_vsubps() -> Seq<OpdataView> {
    seq![
        form("y*y*w*".spec_bytes(), seq![0x01u8, 0x5Cu8], NONE, Flags::AUTO_VEXL | Flags::VEX_OP, Features::AVX),
    ]
}

fn table_vsubps() -> (r: Vec<Opdata>)
    ensures
        opdata_views(r@) == forms_vsubps(),
{
    let mut table = new_table();
    push_row(&mut table, "y*y*w*", ops2(0x01, 0x5C), NONE, Flags::AUTO_VEXL | Flags::VEX_OP, Features::AVX);
    table
}

/// The encodings of `vxorps`.
pub open spec fn forms_vxorps() -> Seq<OpdataView> {
    seq![
        form("y*y*w*".spec_bytes(), seq![0x01u8, 0x57u8], NONE, Flags::AUTO_VEXL | Flags::VEX_OP, Features::AVX),
    ]
}

fn table_vxorps() -> (r: Vec<Opdata>)
    ensures
        opdata_views(r@) == forms_vxorps(),
{
    let mut table = new_table();
    push_row(&mut table, "y*y*w*", ops2(0x01, 0x57), NONE, Flags::AUTO_VEXL | Flags::VEX_OP, Features::AVX);
    table
}

/// The encodings of `vaddpd`.
pub open spec fn forms_vaddpd() -> Seq<OpdataView> {
    seq![
        form("y*y*w*".spec_bytes(), seq![0x01u8, 0x58u8], NONE, Flags::AUTO_VEXL | Flags::VEX_OP | Flags::PREF_66, Features::AVX),
    ]
}

fn table_vaddpd() -> (r: Vec<Opdata>)
    ensures
        opdata_views(r@) == forms_vaddpd(),
{
    let mut table = new_table();
    push_row(&mut table, "y*y*w*", ops2(0x01, 0x58), NONE, Flags::AUTO_VEXL | Flags::VEX_OP | Flags::PREF_66, Features::AVX);
    table
}

/// The encodings of `vmulpd`.
pub open spec fn forms_vmulpd() -> Seq<OpdataView> {
    seq![
        form("y*y*w*".spec_bytes(), seq![0x01u8, 0x59u8], NONE, Flags::AUTO_VEXL | Flags::VEX_OP | Flags::PREF_66, Features::AVX),
    ]
}

fn table_vmulpd() -> (r: Vec<Opdata>)
    ensures
        opdata_views(r@) == forms_vmulpd(),
{
    let mut table = new_table();
    push_row(&mut table, "y*y*w*", ops2(0x01, 0x59), NONE, Flags::AUTO_VEXL | Flags::VEX_OP | Flags::PREF_66, Features::AVX);
    table
}

/// The encodings of `vxorpd`.
pub open spec fn forms_vxorpd() -> Seq<OpdataView> {
    seq![
        form("y*y*w*".spec_bytes(), seq![0x01u8, 0x57u8], NONE, Flags::AUTO_VEXL | Flags::VEX_OP | Flags::PREF_66, Features::AVX),
    ]
}

fn table_vxorpd() -> (r: Vec<Opdata>)
    ensures
        opdata_views(r@) == forms_vxorpd(),
{
    let mut table = new_table();
    push_row(&mut table, "y*y*w*", ops2(0x01, 0x57), NONE, Flags::AUTO_VEXL | Flags::VEX_OP | Flags::PREF_66, Features::AVX);
    table
}

/// The encodings of `vaddss`.
pub open spec fn forms_vaddss() -> Seq<OpdataView> {
    seq![
        form("yoyoyo".spec_bytes(), seq![0x01u8, 0x58u8], NONE, Flags::VEX_OP | Flags::PREF_F3, Features::AVX),
        form("yoyomd".spec_bytes(), seq![0x01u8, 0x58u8], NONE, Flags::VEX_OP | Flags::PREF_F3, Features::AVX),
    ]
}

fn table_vaddss() -> (r: Vec<Opdata>)
    ensures
        opdata_views(r@) == forms_vaddss(),
{
    let mut table = new_table();
    push_row(&mut table, "yoyoyo", ops2(0x01, 0x58), NONE, Flags::VEX_OP | Flags::PREF_F3, Features::AVX);
    push_row(&mut table, "yoyomd", ops2(0x01, 0x58), NONE, Flags::VEX_OP | Flags::PREF_F3, Features::AVX);
    table
}

/// The encodings of `vmulss`.
pub open spec fn forms_vmulss() -> Seq<OpdataView> {
    seq![
        form("yoyoyo".spec_bytes(), seq![0x01u8, 0x59u8], NONE, Flags::VEX_OP | Flags::PREF_F3, Features::AVX),
        form("yoyomd".spec_bytes(), seq![0x01u8, 0x59u8], NONE, Flags::VEX_OP | Flags::PREF_F3, Features::AVX),
    ]
}

fn table_vmulss() -> (r: Vec<Opdata>)
    ensures
        opdata_views(r@) == forms_vmulss(),
{
    let mut table = new_table();
    push_row(&mut table, "yoyoyo", ops2(0x01, 0x59), NONE, Flags::VEX_OP | Flags::PREF_F3, Features::AVX);
    push_row(&mut table, "yoyomd", ops2(0x01, 0x59), NONE, Flags::VEX_OP | Flags::PREF_F3, Features::AVX);
    table
}

/// The encodings of `vaddsd`.
pub open spec fn forms_vaddsd() -> Seq<OpdataView> {
    seq![
        form("yoyoyo".spec_bytes(), seq![0x01u8, 0x58u8], NONE, Flags::VEX_OP | Flags::PREF_F2, Features::AVX),
        form("yoyomq".spec_bytes(), seq![0x01u8, 0x58u8], NONE, Flags::VEX_OP | Flags::PREF_F2, Features::AVX),
    ]
}

fn table_vaddsd() -> (r: Vec<Opdata>)
    ensures
        opdata_views(r@) == forms_vaddsd(),
{
    let mut table = new_table();
    push_row(&mut table, "yoyoyo", ops2(0x01, 0x58), NONE, Flags::VEX_OP | Flags::PREF_F2, Features::AVX);
    push_row(&mut table, "yoyomq", ops2(0x01, 0x58), NONE, Flags::VEX_OP | Flags::PREF_F2, Features::AVX);
    table
}

/// The encodings of `vmulsd`.
pub open spec fn forms_vmulsd() -> Seq<OpdataView> {
    seq![
        form("yoyoyo".spec_bytes(), seq![0x01u8, 0x59u8], NONE, Flags::VEX_OP | Flags::PREF_F2, Features::AVX),
        form("yoyomq".spec_bytes(), seq![0x01u8, 0x59u8], NONE, Flags::VEX_OP | Flags::PREF_F2, Features::AVX),
    ]
}

fn table_vmulsd() -> (r: Vec<Opdata>)
    ensures
        opdata_views(r@) == forms_vmulsd(),
{
    let mut table = new_table();
    push_row(&mut table, "yoyoyo", ops2(0x01, 0x59), NONE, Flags::VEX_OP | Flags::PREF_F2, Features::AVX);
    push_row(&mut table, "yoyomq", ops2(0x01, 0x59), NONE, Flags::VEX_OP | Flags::PREF_F2, Features::AVX);
    table
}

/// The encodings of `vmovaps`.
pub open spec fn forms_vmovaps() -> Seq<OpdataView> {
    seq![
        form("y*w*".spec_bytes(), seq![0x01u8, 0x28u8], NONE, Flags::AUTO_VEXL | Flags::VEX_OP, Features::AVX),
        form("w*y*".spec_bytes(), seq![0x01u8, 0x29u8], NONE, Flags::AUTO_VEXL | Flags::VEX_OP | Flags::ENC_MR, Features::AVX),
    ]
}

fn table_vmovaps() -> (r: Vec<Opdata>)
    ensures
        opdata_views(r@) == forms_vmovaps(),
{
    let mut table = new_table();
    push_row(&mut table, "y*w*", ops2(0x01, 0x28), NONE, Flags::AUTO_VEXL | Flags::VEX_OP, Features::AVX);
    push_row(&mut table, "w*y*", ops2(0x01, 0x29), NONE, Flags::AUTO_VEXL | Flags::VEX_OP | Flags::ENC_MR, Features::AVX);
    table
}

/// The encodings of `vmovups`.
pub open spec fn forms_vmovups() -> Seq<OpdataView> {
    seq![
        form("y*w*".spec_bytes(), seq![0x01u8, 0x10u8], NONE, Flags::AUTO_VEXL | Flags::VEX_OP, Features::AVX),
        form("w*y*".spec_bytes(), seq![0x01u8, 0x11u8], NONE, Flags::AUTO_VEXL | Flags::VEX_OP | Flags::ENC_MR, Features::AVX),
    ]
}

fn table_vmovups() -> (r: Vec<Opdata>)
    ensures
        opdata_views(r@) == forms_vmovups(),
{
    let mut table = new_table();
    push_row(&mut table, "y*w*", ops2(0x01, 0x10), NONE, Flags::AUTO_VEXL | Flags::VEX_OP, Features::AVX);
    push_row(&mut table, "w*y*", ops2(0x01, 0x11), NONE, Flags::AUTO_VEXL | Flags::VEX_OP | Flags::ENC_MR, Features::AVX);
    table
}

/// The encodings of `vzeroupper`.
pub open spec fn forms_vzeroupper() -> Seq<OpdataView> {
    seq![
        form("".spec_bytes(), seq![0x01u8, 0x77u8], NONE, Flags::VEX_OP, Features::AVX),
    ]
}

fn table_vzeroupper() -> (r: Vec<Opdata>)
    ensures
        opdata_views(r@) == forms_vzeroupper(),
{
    let mut table = new_table();
    push_row(&mut table, "", ops2(0x01, 0x77), NONE, Flags::VEX_OP, Features::AVX);
    table
}

/// The encodings of `vzeroall`.
pub open spec fn forms_vzeroall() -> Seq<OpdataView> {
    seq![
        form("".spec_bytes(), seq![0x01u8, 0x77u8], NONE, Flags::WITH_VEXL | Flags::VEX_OP, Features::AVX),
    ]
}

fn table_vzeroall() -> (r: Vec<Opdata>)
    ensures
        opdata_views(r@) == forms_vzeroall(),
{
    let mut table = new_table();
    push_row(&mut table, "", ops2(0x01, 0x77), NONE, Flags::WITH_VEXL | Flags::VEX_OP, Features::AVX);
    table
}

/// The encodings of `vblendvps`.
pub open spec fn forms_vblendvps() -> Seq<OpdataView> {
    seq![
        form("y*y*w*y*".spec_bytes(), seq![0x03u8, 0x4Au8], NONE, Flags::AUTO_VEXL | Flags::VEX_OP | Flags::PREF_66, Features::AVX),
    ]
}

fn table_vblendvps() -> (r: Vec<Opdata>)
    ensures
        opdata_views(r@) == forms_vblendvps(),
{
    let mut table = new_table();
    push_row(&mut table, "y*y*w*y*", ops2(0x03, 0x4A), NONE, Flags::AUTO_VEXL | Flags::VEX_OP | Flags::PREF_66, Features::AVX);
    table
}

/// The encodings of `vblendvpd`.
pub open spec fn forms_vblendvpd() -> Seq<OpdataView> {
    seq![
        form("y*y*w*y*".spec_bytes(), seq![0x03u8, 0x4Bu8], NONE, Flags::AUTO_VEXL | Flags::VEX_OP | Flags::PREF_66, Features::AVX),
    ]
}

fn table_vblendvpd() -> (r: Vec<Opdata>)
    ensures
        opdata_views(r@) == forms_vblendvpd(),
{
    let mut table = new_table();
    push_row(&mut table, "y*y*w*y*", ops2(0x03, 0x4B), NONE, Flags::AUTO_VEXL | Flags::VEX_OP | Flags::PREF_66, Features::AVX);
    table
}

/// The encodings of `vshufps`.
pub open spec fn forms_vshufps() -> Seq<OpdataView> {
    seq![
        form("y*y*w*ib".spec_bytes(), seq![0x01u8, 0xC6u8], NONE, Flags::AUTO_VEXL | Flags::VEX_OP, Features::AVX),
    ]
}

fn table_vshufps() -> (r: Vec<Opdata>)
    ensures
        opdata_views(r@) == forms_vshufps(),
{
    let mut table = new_table();
    push_row(&mut table, "y*y*w*ib", ops2(0x01, 0xC6), NONE, Flags::AUTO_VEXL | Flags::VEX_OP, Features::AVX);
    table
}

/// The encodings of `vcvtsi2sd`.
pub open spec fn forms_vcvtsi2sd() -> Seq<OpdataView> {
    seq![
        form("yoyovd".spec_bytes(), seq![0x01u8, 0x2Au8], NONE, Flags::VEX_OP | Flags::PREF_F2, Features::AVX),
        form("yoyovq".spec_bytes(), seq![0x01u8, 0x2Au8], NONE, Flags::WITH_REXW | Flags::VEX_OP | Flags::PREF_F2, Features::AVX),
    ]
}

fn table_vcvtsi2sd() -> (r: Vec<Opdata>)
    ensures
        opdata_views(r@) == forms_vcvtsi2sd(),
{
    let mut table = new_table();
    push_row(&mut table, "yoyovd", ops2(0x01, 0x2A), NONE, Flags::VEX_OP | Flags::PREF_F2, Features::AVX);
    push_row(&mut table, "yoyovq", ops2(0x01, 0x2A), NONE, Flags::WITH_REXW | Flags::VEX_OP | Flags::PREF_F2, Features::AVX);
    table
}

/// The encodings of `vpaddd`.
pub open spec fn forms_vpaddd() -> Seq<OpdataView> {
    seq![
        form("y*y*w*".spec_bytes(), seq![0x01u8, 0xFEu8], NONE, Flags::AUTO_VEXL | Flags::VEX_OP | Flags::PREF_66, Features::AVX | Features::AVX2),
    ]
}

fn table_vpaddd() -> (r: Vec<Opdata>)
    ensures
        opdata_views(r@) == forms_vpaddd(),
{
    let mut table = new_table();
    push_row(&mut table, "y*y*w*", ops2(0x01, 0xFE), NONE, Flags::AUTO_VEXL | Flags::VEX_OP | Flags::PREF_66, Features::AVX | Features::AVX2);
    table
}

/// The encodings of `vgatherdps`.
pub open spec fn forms_vgatherdps() -> Seq<OpdataView> {
    seq![
        form("y*k*y*".spec_bytes(), seq![0x02u8, 0x92u8], NONE, Flags::AUTO_VEXL | Flags::VEX_OP | Flags::ENC_MR | Flags::PREF_66, Features::AVX2),
    ]
}

fn table_vgatherdps() -> (r: Vec<Opdata>)
    ensures
        opdata_views(r@) == forms_vgatherdps(),
{
    let mut table = new_table();
    push_row(&mut table, "y*k*y*", ops2(0x02, 0x92), NONE, Flags::AUTO_VEXL | Flags::VEX_OP | Flags::ENC_MR | Flags::PREF_66, Features::AVX2);
    table
}

/// The encodings of `vgatherqpd`.
pub open spec fn forms_vgatherqpd() -> Seq<OpdataView> {
    seq![
        form("y*l*y*".spec_bytes(), seq![0x02u8, 0x93u8], NONE, Flags::AUTO_VEXL | Flags::WITH_REXW | Flags::VEX_OP | Flags::ENC_MR | Flags::PREF_66, Features::AVX2),
    ]
}

fn table_vgatherqpd() -> (r: Vec<Opdata>)
    ensures
        opdata_views(r@) == forms_vgatherqpd(),
{
    let mut table = new_table();
    push_row(&mut table, "y*l*y*", ops2(0x02, 0x93), NONE, Flags::AUTO_VEXL | Flags::WITH_REXW | Flags::VEX_OP | Flags::ENC_MR | Flags::PREF_66, Features::AVX2);
    table
}

/// The encodings of `vfmadd231ps`.
pub open spec fn forms_vfmadd231ps() -> Seq<OpdataView> {
    seq![
        form("y*y*w*".spec_bytes(), seq![0x02u8, 0xB8u8], NONE, Flags::AUTO_VEXL | Flags::VEX_OP | Flags::PREF_66, Features::FMA),
    ]
}

fn table_vfmadd231ps() -> (r: Vec<Opdata>)
    ensures
        opdata_views(r@) == forms_vfmadd231ps(),
{
    let mut table = new_table();
    push_row(&mut table, "y*y*w*", ops2(0x02, 0xB8), NONE, Flags::AUTO_VEXL | Flags::VEX_OP | Flags::PREF_66, Features::FMA);
    table
}

/// The encodings of `vfmadd231pd`.
pub open spec fn forms_vfmadd231pd() -> Seq<OpdataView> {
    seq![
        form("y*y*w*".spec_bytes(), seq![0x02u8, 0xB8u8], NONE, Flags::AUTO_VEXL | Flags::WITH_REXW | Flags::VEX_OP | Flags::PREF_66, Features::FMA),
    ]
}

fn table_vfmadd231pd() -> (r: Vec<Opdata>)
    ensures
        opdata_views(r@) == forms_vfmadd231pd(),
{
    let mut table = new_table();
    push_row(&mut table, "y*y*w*", ops2(0x02, 0xB8), NONE, Flags::AUTO_VEXL | Flags::WITH_REXW | Flags::VEX_OP | Flags::PREF_66, Features::FMA);
    table
}

/// The encodings of `andn`.
pub open spec fn forms_andn() -> Seq<OpdataView> {
    seq![
        form("r*r*v*".spec_bytes(), seq![0x02u8, 0xF2u8], NONE, Flags::AUTO_REXW | Flags::VEX_OP, Features::BMI1),
    ]
}

fn table_andn() -> (r: Vec<Opdata>)
    ensures
        opdata_views(r@) == forms_andn(),
{
    let mut table = new_table();
    push_row(&mut table, "r*r*v*", ops2(0x02, 0xF2), NONE, Flags::AUTO_REXW | Flags::VEX_OP, Features::BMI1);
    table
}

/// The encodings of `bextr`.
pub open spec fn forms_bextr() -> Seq<OpdataView> {
    seq![
        form("r*v*r*".spec_bytes(), seq![0x02u8, 0xF7u8], NONE, Flags::AUTO_REXW | Flags::VEX_OP, Features::BMI1),
    ]
}

fn table_bextr() -> (r: Vec<Opdata>)
    ensures
        opdata_views(r@) == forms_bextr(),
{
    let mut table = new_table();
    push_row(&mut table, "r*v*r*", ops2(0x02, 0xF7), NONE, Flags::AUTO_REXW | Flags::VEX_OP, Features::BMI1);
    table
}

/// The encodings of `blsi`.
pub open spec fn forms_blsi() -> Seq<OpdataView> {
    seq![
        form("r*v*".spec_bytes(), seq![0x02u8, 0xF3u8], 3, Flags::AUTO_REXW | Flags::VEX_OP | Flags::ENC_VM, Features::BMI1),
    ]
}

fn table_blsi() -> (r: Vec<Opdata>)
    ensures
        opdata_views(r@) == forms_blsi(),
{
    let mut table = new_table();
    push_row(&mut table, "r*v*", ops2(0x02, 0xF3), 3, Flags::AUTO_REXW | Flags::VEX_OP | Flags::ENC_VM, Features::BMI1);
    table
}

/// The encodings of `blsr`.
pub open spec fn forms_blsr() -> Seq<OpdataView> {
    seq![
        form("r*v*".spec_bytes(), seq![0x02u8, 0xF3u8], 1, Flags::AUTO_REXW | Flags::VEX_OP | Flags::ENC_VM, Features::BMI1),
    ]
}

fn table_blsr() -> (r: Vec<Opdata>)
    ensures
        opdata_views(r@) == forms_blsr(),
{
    let mut table = new_table();
    push_row(&mut table, "r*v*", ops2(0x02, 0xF3), 1, Flags::AUTO_REXW | Flags::VEX_OP | Flags::ENC_VM, Features::BMI1);
    table
}

/// The encodings of `pdep`.
pub open spec fn forms_pdep() -> Seq<OpdataView> {
    seq![
        form("r*r*v*".spec_bytes(), seq![0x02u8, 0xF5u8], NONE, Flags::AUTO_REXW | Flags::VEX_OP | Flags::PREF_F2, Features::BMI2),
    ]
}

fn table_pdep() -> (r: Vec<Opdata>)
    ensures
        opdata_views(r@) == forms_pdep(),
{
    let mut table = new_table();
    push_row(&mut table, "r*r*v*", ops2(0x02, 0xF5), NONE, Flags::AUTO_REXW | Flags::VEX_OP | Flags::PREF_F2, Features::BMI2);
    table
}

/// The encodings of `pext`.
pub open spec fn forms_pext() -> Seq<OpdataView> {
    seq![
        form("r*r*v*".spec_bytes(), seq![0x02u8, 0xF5u8], NONE, Flags::AUTO_REXW | Flags::VEX_OP | Flags::PREF_F3, Features::BMI2),
    ]
}

fn table_pext() -> (r: Vec<Opdata>)
    ensures
        opdata_views(r@) == forms_pext(),
{
    let mut table = new_table();
    push_row(&mut table, "r*r*v*", ops2(0x02, 0xF5), NONE, Flags::AUTO_REXW | Flags::VEX_OP | Flags::PREF_F3, Features::BMI2);
    table
}

/// The encodings of `blcfill`.
pub open spec fn forms_blcfill() -> Seq<OpdataView> {
    seq![
        form("r*v*".spec_bytes(), seq![0x09u8, 0x01u8], 1, Flags::AUTO_REXW | Flags::XOP_OP | Flags::ENC_VM, Features::TBM),
    ]
}

fn table_blcfill() -> (r: Vec<Opdata>)
    ensures
        opdata_views(r@) == forms_blcfill(),
{
    let mut table = new_table();
    push_row(&mut table, "r*v*", ops2(0x09, 0x01), 1, Flags::AUTO_REXW | Flags::XOP_OP | Flags::ENC_VM, Features::TBM);
    table
}

/// The encodings of `vfrczps`.
pub open spec fn forms_vfrczps() -> Seq<OpdataView> {
    seq![
        form("y*w*".spec_bytes(), seq![0x09u8, 0x80u8], NONE, Flags::AUTO_VEXL | Flags::XOP_OP, Features::SSE5),
    ]
}

fn table_vfrczps() -> (r: Vec<Opdata>)
    ensures
        opdata_views(r@) == forms_vfrczps(),
{
    let mut table = new_table();
    push_row(&mut table, "y*w*", ops2(0x09, 0x80), NONE, Flags::AUTO_VEXL | Flags::XOP_OP, Features::SSE5);
    table
}

/// The encodings of `vfrczpd`.
pub open spec fn forms_vfrczpd() -> Seq<OpdataView> {
    seq![
        form("y*w*".spec_bytes(), seq![0x09u8, 0x81u8], NONE, Flags::AUTO_VEXL | Flags::XOP_OP, Features::SSE5),
    ]
}

fn table_vfrczpd() -> (r: Vec<Opdata>)
    ensures
        opdata_views(r@) == forms_vfrczpd(),
{
    let mut table = new_table();
    push_row(&mut table, "y*w*", ops2(0x09, 0x81), NONE, Flags::AUTO_VEXL | Flags::XOP_OP, Features::SSE5);
    table
}

/// The encodings of `xbegin`.
pub open spec fn forms_xbegin() -> Seq<OpdataView> {
    seq![
        form("od".spec_bytes(), seq![0xC7u8, 0xF8u8], NONE, Flags::DEFAULT, Features::RTM),
    ]
}

fn table_xbegin() -> (r: Vec<Opdata>)
    ensures
        opdata_views(r@) == forms_xbegin(),
{
    let mut table = new_table();
    push_row(&mut table, "od", ops2(0xC7, 0xF8), NONE, Flags::DEFAULT, Features::RTM);
    table
}

/// The encodings of `xend`.
pub open spec fn forms_xend() -> Seq<OpdataView> {
    seq![
        form("".spec_bytes(), seq![0x0Fu8, 0x01u8, 0xD5u8], NONE, Flags::DEFAULT, Features::RTM),
    ]
}

fn table_xend() -> (r: Vec<Opdata>)
    ensures
        opdata_views(r@) == forms_xend(),
{
    let mut table = new_table();
    push_row(&mut table, "", ops3(0x0F, 0x01, 0xD5), NONE, Flags::DEFAULT, Features::RTM);
    table
}

/// The encodings of `vmcall`.
pub open spec fn forms_vmcall() -> Seq<OpdataView> {
    seq![
        form("".spec_bytes(), seq![0x0Fu8, 0x01u8, 0xC1u8], NONE, Flags::DEFAULT, Features::VMX),
    ]
}

fn table_vmcall() -> (r: Vec<Opdata>)
    ensures
        opdata_views(r@) == forms_vmcall(),
{
    let mut table = new_table();
    push_row(&mut table, "", ops3(0x0F, 0x01, 0xC1), NONE, Flags::DEFAULT, Features::VMX);
    table
}

/// The encodings of `invpcid`.
pub open spec fn forms_invpcid() -> Seq<OpdataView> {
    seq![
        form("rqmo".spec_bytes(), seq![0x0Fu8, 0x38u8, 0x82u8], NONE, Flags::PREF_66, Features::INVPCID),
    ]
}

fn table_invpcid() -> (r: Vec<Opdata>)
    ensures
        opdata_views(r@) == forms_invpcid(),
{
    let mut table = new_table();
    push_row(&mut table, "rqmo", ops3(0x0F, 0x38, 0x82), NONE, Flags::PREF_66, Features::INVPCID);
    table
}

/// The encodings of `sha1msg1`.
pub open spec fn forms_sha1msg1() -> Seq<OpdataView> {
    seq![
        form("yowo".spec_bytes(), seq![0x0Fu8, 0x38u8, 0xC9u8], NONE, Flags::DEFAULT, Features::SHA),
    ]
}

fn table_sha1msg1() -> (r: Vec<Opdata>)
    ensures
        opdata_views(r@) == forms_sha1msg1(),
{
    let mut table = new_table();
    push_row(&mut table, "yowo", ops3(0x0F, 0x38, 0xC9), NONE, Flags::DEFAULT, Features::SHA);
    table
}

/// The encodings of `prefetchwt1`.
pub open spec fn forms_prefetchwt1() -> Seq<OpdataView> {
    seq![
        form("mb".spec_bytes(), seq![0x0Fu8, 0x0Du8], 2, Flags::DEFAULT, Features::PREFETCHWT1),
    ]
}

fn table_prefetchwt1() -> (r: Vec<Opdata>)
    ensures
        opdata_views(r@) == forms_prefetchwt1(),
{
    let mut table = new_table();
    push_row(&mut table, "mb", ops2(0x0F, 0x0D), 2, Flags::DEFAULT, Features::PREFETCHWT1);
    table
}

/// The encodings of `extrq`.
pub open spec fn forms_extrq() -> Seq<OpdataView> {
    seq![
        form("yoyo".spec_bytes(), seq![0x0Fu8, 0x79u8], NONE, Flags::PREF_66, Features::SSE4A),
    ]
}

fn table_extrq() -> (r: Vec<Opdata>)
    ensures
        opdata_views(r@) == forms_extrq(),
{
    let mut table = new_table();
    push_row(&mut table, "yoyo", ops2(0x0F, 0x79), NONE, Flags::PREF_66, Features::SSE4A);
    table
}

/// The encodings of `clzero`.
pub open spec fn forms_clzero() -> Seq<OpdataView> {
    seq![
        form("".spec_bytes(), seq![0x0Fu8, 0x01u8, 0xFCu8], NONE, Flags::DEFAULT, Features::AMD),
    ]
}

fn table_clzero() -> (r: Vec<Opdata>)
    ensures
        opdata_views(r@) == forms_clzero(),
{
    let mut table = new_table();
    push_row(&mut table, "", ops3(0x0F, 0x01, 0xFC), NONE, Flags::DEFAULT, Features::AMD);
    table
}

/// The encodings of `rdshr`.
pub open spec fn forms_rdshr() -> Seq<OpdataView> {
    seq![
        form("vd".spec_bytes(), seq![0x0Fu8, 0x36u8], 0, Flags::DEFAULT, Features::CYRIX),
    ]
}

fn table_rdshr() -> (r: Vec<Opdata>)
    ensures
        opdata_views(r@) == forms_rdshr(),
{
    let mut table = new_table();
    push_row(&mut table, "vd", ops2(0x0F, 0x36), 0, Flags::DEFAULT, Features::CYRIX);
    table
}

/// The encodings of `bndmov`.
pub open spec fn forms_bndmov() -> Seq<OpdataView> {
    seq![
        form("bobo".spec_bytes(), seq![0x0Fu8, 0x1Au8], NONE, Flags::PREF_66, Features::MPX),
        form("bomo".spec_bytes(), seq![0x0Fu8, 0x1Au8], NONE, Flags::PREF_66, Features::MPX),
        form("mobo".spec_bytes(), seq![0x0Fu8, 0x1Bu8], NONE, Flags::PREF_66 | Flags::ENC_MR, Features::MPX),
    ]
}

fn table_bndmov() -> (r: Vec<Opdata>)
    ensures
        opdata_views(r@) == forms_bndmov(),
{
    let mut table = new_table();
    push_row(&mut table, "bobo", ops2(0x0F, 0x1A), NONE, Flags::PREF_66, Features::MPX);
    push_row(&mut table, "bomo", ops2(0x0F, 0x1A), NONE, Flags::PREF_66, Features::MPX);
    push_row(&mut table, "mobo", ops2(0x0F, 0x1B), NONE, Flags::PREF_66 | Flags::ENC_MR, Features::MPX);
    table
}

/// The encodings of a mnemonic, in the order in which they are tried; `None` for a name
/// that is no mnemonic.
pub open spec fn mnemonic_forms(name: Seq<char>) -> Option<Seq<OpdataView>> {
    if name == "add"@ {
        Some(forms_add())
    } else if name == "or"@ {
        Some(forms_or())
    } else if name == "adc"@ {
        Some(forms_adc())
    } else if name == "sbb"@ {
        Some(forms_sbb())
    } else if name == "and"@ {
        Some(forms_and())
    } else if name == "sub"@ {
        Some(forms_sub())
    } else if name == "xor"@ {
        Some(forms_xor())
    } else if name == "cmp"@ {
        Some(forms_cmp())
    } else if name == "mov"@ {
        Some(forms_mov())
    } else if name == "test"@ {
        Some(forms_test())
    } else if name == "lea"@ {
        Some(forms_lea())
    } else if name == "push"@ {
        Some(forms_push())
    } else if name == "pop"@ {
        Some(forms_pop())
    } else if name == "ret"@ {
        Some(forms_ret())
    } else if name == "nop"@ {
        Some(forms_nop())
    } else if name == "int3"@ {
        Some(forms_int3())
    } else if name == "int"@ {
        Some(forms_int())
    } else if name == "hlt"@ {
        Some(forms_hlt())
    } else if name == "leave"@ {
        Some(forms_leave())
    } else if name == "cpuid"@ {
        Some(forms_cpuid())
    } else if name == "syscall"@ {
        Some(forms_syscall())
    } else if name == "ud2"@ {
        Some(forms_ud2())
    } else if name == "pause"@ {
        Some(forms_pause())
    } else if name == "cwde"@ {
        Some(forms_cwde())
    } else if name == "cbw"@ {
        Some(forms_cbw())
    } else if name == "cdqe"@ {
        Some(forms_cdqe())
    } else if name == "pushad"@ {
        Some(forms_pushad())
    } else if name == "popad"@ {
        Some(forms_popad())
    } else if name == "aaa"@ {
        Some(forms_aaa())
    } else if name == "jmp"@ {
        Some(forms_jmp())
    } else if name == "call"@ {
        Some(forms_call())
    } else if name == "jo"@ {
        Some(forms_jo())
    } else if name == "jno"@ {
        Some(forms_jno())
    } else if name == "jb"@ || name == "jc"@ || name == "jnae"@ {
        Some(forms_jb())
    } else if name == "jnb"@ || name == "jnc"@ || name == "jae"@ {
        Some(forms_jnb())
    } else if name == "jz"@ || name == "je"@ {
        Some(forms_jz())
    } else if name == "jnz"@ || name == "jne"@ {
        Some(forms_jnz())
    } else if name == "jbe"@ || name == "jna"@ {
        Some(forms_jbe())
    } else if name == "jnbe"@ || name == "ja"@ {
        Some(forms_jnbe())
    } else if name == "js"@ {
        Some(forms_js())
    } else if name == "jns"@ {
        Some(forms_jns())
    } else if name == "jp"@ || name == "jpe"@ {
        Some(forms_jp())
    } else if name == "jnp"@ || name == "jpo"@ {
        Some(forms_jnp())
    } else if name == "jl"@ || name == "jnge"@ {
        Some(forms_jl())
    } else if name == "jnl"@ || name == "jge"@ {
        Some(forms_jnl())
    } else if name == "jle"@ || name == "jng"@ {
        Some(forms_jle())
    } else if name == "jnle"@ || name == "jg"@ {
        Some(forms_jnle())
    } else if name == "jecxz"@ {
        Some(forms_jecxz())
    } else if name == "jrcxz"@ {
        Some(forms_jrcxz())
    } else if name == "inc"@ {
        Some(forms_inc())
    } else if name == "dec"@ {
        Some(forms_dec())
    } else if name == "not"@ {
        Some(forms_not())
    } else if name == "neg"@ {
        Some(forms_neg())
    } else if name == "mul"@ {
        Some(forms_mul())
    } else if name == "div"@ {
        Some(forms_div())
    } else if name == "idiv"@ {
        Some(forms_idiv())
    } else if name == "imul"@ {
        Some(forms_imul())
    } else if name == "rol"@ {
        Some(forms_rol())
    } else if name == "ror"@ {
        Some(forms_ror())
    } else if name == "shl"@ || name == "sal"@ {
        Some(forms_shl())
    } else if name == "shr"@ {
        Some(forms_shr())
    } else if name == "sar"@ {
        Some(forms_sar())
    } else if name == "movzx"@ {
        Some(forms_movzx())
    } else if name == "movsx"@ {
        Some(forms_movsx())
    } else if name == "movsxd"@ {
        Some(forms_movsxd())
    } else if name == "xchg"@ {
        Some(forms_xchg())
    } else if name == "cmpxchg"@ {
        Some(forms_cmpxchg())
    } else if name == "xadd"@ {
        Some(forms_xadd())
    } else if name == "bswap"@ {
        Some(forms_bswap())
    } else if name == "popcnt"@ {
        Some(forms_popcnt())
    } else if name == "movsb"@ {
        Some(forms_movsb())
    } else if name == "movsw"@ {
        Some(forms_movsw())
    } else if name == "movsq"@ {
        Some(forms_movsq())
    } else if name == "stosb"@ {
        Some(forms_stosb())
    } else if name == "stosq"@ {
        Some(forms_stosq())
    } else if name == "lodsb"@ {
        Some(forms_lodsb())
    } else if name == "cmpsb"@ {
        Some(forms_cmpsb())
    } else if name == "scasb"@ {
        Some(forms_scasb())
    } else if name == "fld"@ {
        Some(forms_fld())
    } else if name == "fstp"@ {
        Some(forms_fstp())
    } else if name == "fadd"@ {
        Some(forms_fadd())
    } else if name == "emms"@ {
        Some(forms_emms())
    } else if name == "paddb"@ {
        Some(forms_paddb())
    } else if name == "pxor"@ {
        Some(forms_pxor())
    } else if name == "movaps"@ {
        Some(forms_movaps())
    } else if name == "movups"@ {
        Some(forms_movups())
    } else if name == "movss"@ {
        Some(forms_movss())
    } else if name == "movsd"@ {
        Some(forms_movsd())
    } else if name == "addps"@ {
        Some(forms_addps())
    } else if name == "mulps"@ {
        Some(forms_mulps())
    } else if name == "subps"@ {
        Some(forms_subps())
    } else if name == "divps"@ {
        Some(forms_divps())
    } else if name == "xorps"@ {
        Some(forms_xorps())
    } else if name == "andps"@ {
        Some(forms_andps())
    } else if name == "addpd"@ {
        Some(forms_addpd())
    } else if name == "mulpd"@ {
        Some(forms_mulpd())
    } else if name == "subpd"@ {
        Some(forms_subpd())
    } else if name == "xorpd"@ {
        Some(forms_xorpd())
    } else if name == "addss"@ {
        Some(forms_addss())
    } else if name == "mulss"@ {
        Some(forms_mulss())
    } else if name == "subss"@ {
        Some(forms_subss())
    } else if name == "addsd"@ {
        Some(forms_addsd())
    } else if name == "mulsd"@ {
        Some(forms_mulsd())
    } else if name == "subsd"@ {
        Some(forms_subsd())
    } else if name == "cvtsi2sd"@ {
        Some(forms_cvtsi2sd())
    } else if name == "pshufd"@ {
        Some(forms_pshufd())
    } else if name == "haddps"@ {
        Some(forms_haddps())
    } else if name == "pshufb"@ {
        Some(forms_pshufb())
    } else if name == "ptest"@ {
        Some(forms_ptest())
    } else if name == "crc32"@ {
        Some(forms_crc32())
    } else if name == "pfadd"@ {
        Some(forms_pfadd())
    } else if name == "pfmul"@ {
        Some(forms_pfmul())
    } else if name == "femms"@ {
        Some(forms_femms())
    } else if name == "vaddps"@ {
        Some(forms_vaddps())
    } else if name == "vmulps"@ {
        Some(forms_vmulps())
    } else if name == "vsubps"@ {
        Some(forms_vsubps())
    } else if name == "vxorps"@ {
        Some(forms_vxorps())
    } else if name == "vaddpd"@ {
        Some(forms_vaddpd())
    } else if name == "vmulpd"@ {
        Some(forms_vmulpd())
    } else if name == "vxorpd"@ {
        Some(forms_vxorpd())
    } else if name == "vaddss"@ {
        Some(forms_vaddss())
    } else if name == "vmulss"@ {
        Some(forms_vmulss())
    } else if name == "vaddsd"@ {
        Some(forms_vaddsd())
    } else if name == "vmulsd"@ {
        Some(forms_vmulsd())
    } else if name == "vmovaps"@ {
        Some(forms_vmovaps())
    } else if name == "vmovups"@ {
        Some(forms_vmovups())
    } else if name == "vzeroupper"@ {
        Some(forms_vzeroupper())
    } else if name == "vzeroall"@ {
        Some(forms_vzeroall())
    } else if name == "vblendvps"@ {
        Some(forms_vblendvps())
    } else if name == "vblendvpd"@ {
        Some(forms_vblendvpd())
    } else if name == "vshufps"@ {
        Some(forms_vshufps())
    } else if name == "vcvtsi2sd"@ {
        Some(forms_vcvtsi2sd())
    } else if name == "vpaddd"@ {
        Some(forms_vpaddd())
    } else if name == "vgatherdps"@ {
        Some(forms_vgatherdps())
    } else if name == "vgatherqpd"@ {
        Some(forms_vgatherqpd())
    } else if name == "vfmadd231ps"@ {
        Some(forms_vfmadd231ps())
    } else if name == "vfmadd231pd"@ {
        Some(forms_vfmadd231pd())
    } else if name == "andn"@ {
        Some(forms_andn())
    } else if name == "bextr"@ {
        Some(forms_bextr())
    } else if name == "blsi"@ {
        Some(forms_blsi())
    } else if name == "blsr"@ {
        Some(forms_blsr())
    } else if name == "pdep"@ {
        Some(forms_pdep())
    } else if name == "pext"@ {
        Some(forms_pext())
    } else if name == "blcfill"@ {
        Some(forms_blcfill())
    } else if name == "vfrczps"@ {
        Some(forms_vfrczps())
    } else if name == "vfrczpd"@ {
        Some(forms_vfrczpd())
    } else if name == "xbegin"@ {
        Some(forms_xbegin())
    } else if name == "xend"@ {
        Some(forms_xend())
    } else if name == "vmcall"@ {
        Some(forms_vmcall())
    } else if name == "invpcid"@ {
        Some(forms_invpcid())
    } else if name == "sha1msg1"@ {
        Some(forms_sha1msg1())
    } else if name == "prefetchwt1"@ {
        Some(forms_prefetchwt1())
    } else if name == "extrq"@ {
        Some(forms_extrq())
    } else if name == "clzero"@ {
        Some(forms_clzero())
    } else if name == "rdshr"@ {
        Some(forms_rdshr())
    } else if name == "bndmov"@ {
        Some(forms_bndmov())
    } else {
        None
    }
}

/// The encodings of a mnemonic, in the order in which they are tried.
pub fn get_mnemnonic_data(name: &str) -> (r: Option<Vec<Opdata>>)
    ensures
        match mnemonic_forms(name@) {
            Some(forms) => r matches Some(table) && opdata_views(table@) == forms,
            None => r is None,
        },
{
    if str_eq(name, "add") {
        Some(table_add())
    } else if str_eq(name, "or") {
        Some(table_or())
    } else if str_eq(name, "adc") {
        Some(table_adc())
    } else if str_eq(name, "sbb") {
        Some(table_sbb())
    } else if str_eq(name, "and") {
        Some(table_and())
    } else if str_eq(name, "sub") {
        Some(table_sub())
    } else if str_eq(name, "xor") {
        Some(table_xor())
    } else if str_eq(name, "cmp") {
        Some(table_cmp())
    } else if str_eq(name, "mov") {
        Some(table_mov())
    } else if str_eq(name, "test") {
        Some(table_test())
    } else if str_eq(name, "lea") {
        Some(table_lea())
    } else if str_eq(name, "push") {
        Some(table_push())
    } else if str_eq(name, "pop") {
        Some(table_pop())
    } else if str_eq(name, "ret") {
        Some(table_ret())
    } else if str_eq(name, "nop") {
        Some(table_nop())
    } else if str_eq(name, "int3") {
        Some(table_int3())
    } else if str_eq(name, "int") {
        Some(table_int())
    } else if str_eq(name, "hlt") {
        Some(table_hlt())
    } else if str_eq(name, "leave") {
        Some(table_leave())
    } else if str_eq(name, "cpuid") {
        Some(table_cpuid())
    } else if str_eq(name, "syscall") {
        Some(table_syscall())
    } else if str_eq(name, "ud2") {
        Some(table_ud2())
    } else if str_eq(name, "pause") {
        Some(table_pause())
    } else if str_eq(name, "cwde") {
        Some(table_cwde())
    } else if str_eq(name, "cbw") {
        Some(table_cbw())
    } else if str_eq(name, "cdqe") {
        Some(table_cdqe())
    } else if str_eq(name, "pushad") {
        Some(table_pushad())
    } else if str_eq(name, "popad") {
        Some(table_popad())
    } else if str_eq(name, "aaa") {
        Some(table_aaa())
    } else if str_eq(name, "jmp") {
        Some(table_jmp())
    } else if str_eq(name, "call") {
        Some(table_call())
    } else if str_eq(name, "jo") {
        Some(table_jo())
    } else if str_eq(name, "jno") {
        Some(table_jno())
    } else if str_eq(name, "jb") || str_eq(name, "jc") || str_eq(name, "jnae") {
        Some(table_jb())
    } else if str_eq(name, "jnb") || str_eq(name, "jnc") || str_eq(name, "jae") {
        Some(table_jnb())
    } else if str_eq(name, "jz") || str_eq(name, "je") {
        Some(table_jz())
    } else if str_eq(name, "jnz") || str_eq(name, "jne") {
        Some(table_jnz())
    } else if str_eq(name, "jbe") || str_eq(name, "jna") {
        Some(table_jbe())
    } else if str_eq(name, "jnbe") || str_eq(name, "ja") {
        Some(table_jnbe())
    } else if str_eq(name, "js") {
        Some(table_js())
    } else if str_eq(name, "jns") {
        Some(table_jns())
    } else if str_eq(name, "jp") || str_eq(name, "jpe") {
        Some(table_jp())
    } else if str_eq(name, "jnp") || str_eq(name, "jpo") {
        Some(table_jnp())
    } else if str_eq(name, "jl") || str_eq(name, "jnge") {
        Some(table_jl())
    } else if str_eq(name, "jnl") || str_eq(name, "jge") {
        Some(table_jnl())
    } else if str_eq(name, "jle") || str_eq(name, "jng") {
        Some(table_jle())
    } else if str_eq(name, "jnle") || str_eq(name, "jg") {
        Some(table_jnle())
    } else if str_eq(name, "jecxz") {
        Some(table_jecxz())
    } else if str_eq(name, "jrcxz") {
        Some(table_jrcxz())
    } else if str_eq(name, "inc") {
        Some(table_inc())
    } else if str_eq(name, "dec") {
        Some(table_dec())
    } else if str_eq(name, "not") {
        Some(table_not())
    } else if str_eq(name, "neg") {
        Some(table_neg())
    } else if str_eq(name, "mul") {
        Some(table_mul())
    } else if str_eq(name, "div") {
        Some(table_div())
    } else if str_eq(name, "idiv") {
        Some(table_idiv())
    } else if str_eq(name, "imul") {
        Some(table_imul())
    } else if str_eq(name, "rol") {
        Some(table_rol())
    } else if str_eq(name, "ror") {
        Some(table_ror())
    } else if str_eq(name, "shl") || str_eq(name, "sal") {
        Some(table_shl())
    } else if str_eq(name, "shr") {
        Some(table_shr())
    } else if str_eq(name, "sar") {
        Some(table_sar())
    } else if str_eq(name, "movzx") {
        Some(table_movzx())
    } else if str_eq(name, "movsx") {
        Some(table_movsx())
    } else if str_eq(name, "movsxd") {
        Some(table_movsxd())
    } else if str_eq(name, "xchg") {
        Some(table_xchg())
    } else if str_eq(name, "cmpxchg") {
        Some(table_cmpxchg())
    } else if str_eq(name, "xadd") {
        Some(table_xadd())
    } else if str_eq(name, "bswap") {
        Some(table_bswap())
    } else if str_eq(name, "popcnt") {
        Some(table_popcnt())
    } else if str_eq(name, "movsb") {
        Some(table_movsb())
    } else if str_eq(name, "movsw") {
        Some(table_movsw())
    } else if str_eq(name, "movsq") {
        Some(table_movsq())
    } else if str_eq(name, "stosb") {
        Some(table_stosb())
    } else if str_eq(name, "stosq") {
        Some(table_stosq())
    } else if str_eq(name, "lodsb") {
        Some(table_lodsb())
    } else if str_eq(name, "cmpsb") {
        Some(table_cmpsb())
    } else if str_eq(name, "scasb") {
        Some(table_scasb())
    } else if str_eq(name, "fld") {
        Some(table_fld())
    } else if str_eq(name, "fstp") {
        Some(table_fstp())
    } else if str_eq(name, "fadd") {
        Some(table_fadd())
    } else if str_eq(name, "emms") {
        Some(table_emms())
    } else if str_eq(name, "paddb") {
        Some(table_paddb())
    } else if str_eq(name, "pxor") {
        Some(table_pxor())
    } else if str_eq(name, "movaps") {
        Some(table_movaps())
    } else if str_eq(name, "movups") {
        Some(table_movups())
    } else if str_eq(name, "movss") {
        Some(table_movss())
    } else if str_eq(name, "movsd") {
        Some(table_movsd())
    } else if str_eq(name, "addps") {
        Some(table_addps())
    } else if str_eq(name, "mulps") {
        Some(table_mulps())
    } else if str_eq(name, "subps") {
        Some(table_subps())
    } else if str_eq(name, "divps") {
        Some(table_divps())
    } else if str_eq(name, "xorps") {
        Some(table_xorps())
    } else if str_eq(name, "andps") {
        Some(table_andps())
    } else if str_eq(name, "addpd") {
        Some(table_addpd())
    } else if str_eq(name, "mulpd") {
        Some(table_mulpd())
    } else if str_eq(name, "subpd") {
        Some(table_subpd())
    } else if str_eq(name, "xorpd") {
        Some(table_xorpd())
    } else if str_eq(name, "addss") {
        Some(table_addss())
    } else if str_eq(name, "mulss") {
        Some(table_mulss())
    } else if str_eq(name, "subss") {
        Some(table_subss())
    } else if str_eq(name, "addsd") {
        Some(table_addsd())
    } else if str_eq(name, "mulsd") {
        Some(table_mulsd())
    } else if str_eq(name, "subsd") {
        Some(table_subsd())
    } else if str_eq(name, "cvtsi2sd") {
        Some(table_cvtsi2sd())
    } else if str_eq(name, "pshufd") {
        Some(table_pshufd())
    } else if str_eq(name, "haddps") {
        Some(table_haddps())
    } else if str_eq(name, "pshufb") {
        Some(table_pshufb())
    } else if str_eq(name, "ptest") {
        Some(table_ptest())
    } else if str_eq(name, "crc32") {
        Some(table_crc32())
    } else if str_eq(name, "pfadd") {
        Some(table_pfadd())
    } else if str_eq(name, "pfmul") {
        Some(table_pfmul())
    } else if str_eq(name, "femms") {
        Some(table_femms())
    } else if str_eq(name, "vaddps") {
        Some(table_vaddps())
    } else if str_eq(name, "vmulps") {
        Some(table_vmulps())
    } else if str_eq(name, "vsubps") {
        Some(table_vsubps())
    } else if str_eq(name, "vxorps") {
        Some(table_vxorps())
    } else if str_eq(name, "vaddpd") {
        Some(table_vaddpd())
    } else if str_eq(name, "vmulpd") {
        Some(table_vmulpd())
    } else if str_eq(name, "vxorpd") {
        Some(table_vxorpd())
    } else if str_eq(name, "vaddss") {
        Some(table_vaddss())
    } else if str_eq(name, "vmulss") {
        Some(table_vmulss())
    } else if str_eq(name, "vaddsd") {
        Some(table_vaddsd())
    } else if str_eq(name, "vmulsd") {
        Some(table_vmulsd())
    } else if str_eq(name, "vmovaps") {
        Some(table_vmovaps())
    } else if str_eq(name, "vmovups") {
        Some(table_vmovups())
    } else if str_eq(name, "vzeroupper") {
        Some(table_vzeroupper())
    } else if str_eq(name, "vzeroall") {
        Some(table_vzeroall())
    } else if str_eq(name, "vblendvps") {
        Some(table_vblendvps())
    } else if str_eq(name, "vblendvpd") {
        Some(table_vblendvpd())
    } else if str_eq(name, "vshufps") {
        Some(table_vshufps())
    } else if str_eq(name, "vcvtsi2sd") {
        Some(table_vcvtsi2sd())
    } else if str_eq(name, "vpaddd") {
        Some(table_vpaddd())
    } else if str_eq(name, "vgatherdps") {
        Some(table_vgatherdps())
    } else if str_eq(name, "vgatherqpd") {
        Some(table_vgatherqpd())
    } else if str_eq(name, "vfmadd231ps") {
        Some(table_vfmadd231ps())
    } else if str_eq(name, "vfmadd231pd") {
        Some(table_vfmadd231pd())
    } else if str_eq(name, "andn") {
        Some(table_andn())
    } else if str_eq(name, "bextr") {
        Some(table_bextr())
    } else if str_eq(name, "blsi") {
        Some(table_blsi())
    } else if str_eq(name, "blsr") {
        Some(table_blsr())
    } else if str_eq(name, "pdep") {
        Some(table_pdep())
    } else if str_eq(name, "pext") {
        Some(table_pext())
    } else if str_eq(name, "blcfill") {
        Some(table_blcfill())
    } else if str_eq(name, "vfrczps") {
        Some(table_vfrczps())
    } else if str_eq(name, "vfrczpd") {
        Some(table_vfrczpd())
    } else if str_eq(name, "xbegin") {
        Some(table_xbegin())
    } else if str_eq(name, "xend") {
        Some(table_xend())
    } else if str_eq(name, "vmcall") {
        Some(table_vmcall())
    } else if str_eq(name, "invpcid") {
        Some(table_invpcid())
    } else if str_eq(name, "sha1msg1") {
        Some(table_sha1msg1())
    } else if str_eq(name, "prefetchwt1") {
        Some(table_prefetchwt1())
    } else if str_eq(name, "extrq") {
        Some(table_extrq())
    } else if str_eq(name, "clzero") {
        Some(table_clzero())
    } else if str_eq(name, "rdshr") {
        Some(table_rdshr())
    } else if str_eq(name, "bndmov") {
        Some(table_bndmov())
    } else {
        None
    }
}

} // verus!
