//! The encodings of the opcode table as text, for the messages of errors.
use super::compiler::{format_pairs, opdata_views, read_format, Opdata, OpdataView};
use vstd::prelude::*;

verus! {

/// The name of the kind of operand that a slot takes.
pub open spec fn kind_text(code: u8) -> Seq<char> {
    if code == 'i' as u8 {
        "imm"@
    } else if code == 'o' as u8 {
        "rel"@
    } else if code == 'm' as u8 {
        "mem"@
    } else if code == 'k' as u8 {
        "vm32addr"@
    } else if code == 'l' as u8 {
        "vm64addr"@
    } else if code == 'r' as u8 {
        "reg"@
    } else if code == 'f' as u8 {
        "st"@
    } else if code == 'x' as u8 {
        "mm"@
    } else if code == 'y' as u8 {
        "xmm"@
    } else if code == 's' as u8 {
        "segreg"@
    } else if code == 'c' as u8 {
        "creg"@
    } else if code == 'd' as u8 {
        "dreg"@
    } else if code == 'b' as u8 {
        "bndreg"@
    } else if code == 'v' as u8 {
        "reg/mem"@
    } else if code == 'u' as u8 {
        "mm/mem"@
    } else if code == 'w' as u8 {
        "xmm/mem"@
    } else if code == 'A' as u8 {
        "rax"@
    } else if code == 'B' as u8 {
        "rcx"@
    } else if code == 'C' as u8 {
        "rdx"@
    } else if code == 'D' as u8 {
        "rbx"@
    } else if code == 'E' as u8 {
        "rsp"@
    } else if code == 'F' as u8 {
        "rbp"@
    } else if code == 'G' as u8 {
        "rsi"@
    } else if code == 'H' as u8 {
        "rdi"@
    } else if code == 'I' as u8 {
        "r8"@
    } else if code == 'J' as u8 {
        "r9"@
    } else if code == 'K' as u8 {
        "r10"@
    } else if code == 'L' as u8 {
        "r11"@
    } else if code == 'M' as u8 {
        "r12"@
    } else if code == 'N' as u8 {
        "r13"@
    } else if code == 'O' as u8 {
        "r14"@
    } else if code == 'P' as u8 {
        "r15"@
    } else if code == 'Q' as u8 {
        "es"@
    } else if code == 'R' as u8 {
        "cs"@
    } else if code == 'S' as u8 {
        "ss"@
    } else if code == 'T' as u8 {
        "ds"@
    } else if code == 'U' as u8 {
        "fs"@
    } else if code == 'V' as u8 {
        "gs"@
    } else if code == 'W' as u8 {
        "cr8"@
    } else if code == 'X' as u8 {
        "st0"@
    } else {
        "?"@
    }
}

/// The name of the kind of operand that a slot takes.
pub fn kind_name(code: u8) -> (r: &'static str)
    ensures
        r@ == kind_text(code),
{
    if code == 'i' as u8 {
        "imm"
    } else if code == 'o' as u8 {
        "rel"
    } else if code == 'm' as u8 {
        "mem"
    } else if code == 'k' as u8 {
        "vm32addr"
    } else if code == 'l' as u8 {
        "vm64addr"
    } else if code == 'r' as u8 {
        "reg"
    } else if code == 'f' as u8 {
        "st"
    } else if code == 'x' as u8 {
        "mm"
    } else if code == 'y' as u8 {
        "xmm"
    } else if code == 's' as u8 {
        "segreg"
    } else if code == 'c' as u8 {
        "creg"
    } else if code == 'd' as u8 {
        "dreg"
    } else if code == 'b' as u8 {
        "bndreg"
    } else if code == 'v' as u8 {
        "reg/mem"
    } else if code == 'u' as u8 {
        "mm/mem"
    } else if code == 'w' as u8 {
        "xmm/mem"
    } else if code == 'A' as u8 {
        "rax"
    } else if code == 'B' as u8 {
        "rcx"
    } else if code == 'C' as u8 {
        "rdx"
    } else if code == 'D' as u8 {
        "rbx"
    } else if code == 'E' as u8 {
        "rsp"
    } else if code == 'F' as u8 {
        "rbp"
    } else if code == 'G' as u8 {
        "rsi"
    } else if code == 'H' as u8 {
        "rdi"
    } else if code == 'I' as u8 {
        "r8"
    } else if code == 'J' as u8 {
        "r9"
    } else if code == 'K' as u8 {
        "r10"
    } else if code == 'L' as u8 {
        "r11"
    } else if code == 'M' as u8 {
        "r12"
    } else if code == 'N' as u8 {
        "r13"
    } else if code == 'O' as u8 {
        "r14"
    } else if code == 'P' as u8 {
        "r15"
    } else if code == 'Q' as u8 {
        "es"
    } else if code == 'R' as u8 {
        "cs"
    } else if code == 'S' as u8 {
        "ss"
    } else if code == 'T' as u8 {
        "ds"
    } else if code == 'U' as u8 {
        "fs"
    } else if code == 'V' as u8 {
        "gs"
    } else if code == 'W' as u8 {
        "cr8"
    } else if code == 'X' as u8 {
        "st0"
    } else {
        "?"
    }
}

/// The name of the size of operand that a slot takes: its bits, `*` for a size that is
/// open, nothing where the slot does not say.
pub open spec fn size_text(fsize: u8) -> Seq<char> {
    if fsize == 'b' as u8 {
        "8"@
    } else if fsize == 'w' as u8 {
        "16"@
    } else if fsize == 'd' as u8 {
        "32"@
    } else if fsize == 'q' as u8 {
        "64"@
    } else if fsize == 'f' as u8 {
        "48"@
    } else if fsize == 'p' as u8 {
        "80"@
    } else if fsize == 'o' as u8 {
        "128"@
    } else if fsize == 'h' as u8 {
        "256"@
    } else if fsize == '*' as u8 {
        "*"@
    } else if fsize == '!' as u8 {
        ""@
    } else if fsize == '?' as u8 {
        ""@
    } else {
        "?"@
    }
}

/// The name of the size of operand that a slot takes.
pub fn size_name(fsize: u8) -> (r: &'static str)
    ensures
        r@ == size_text(fsize),
{
    if fsize == 'b' as u8 {
        "8"
    } else if fsize == 'w' as u8 {
        "16"
    } else if fsize == 'd' as u8 {
        "32"
    } else if fsize == 'q' as u8 {
        "64"
    } else if fsize == 'f' as u8 {
        "48"
    } else if fsize == 'p' as u8 {
        "80"
    } else if fsize == 'o' as u8 {
        "128"
    } else if fsize == 'h' as u8 {
        "256"
    } else if fsize == '*' as u8 {
        "*"
    } else if fsize == '!' as u8 {
        ""
    } else if fsize == '?' as u8 {
        ""
    } else {
        "?"
    }
}

/// What stands before the operand at the place `at`: a space before the first, a comma and a
/// space before the others.
pub open spec fn separator(at: int) -> Seq<char> {
    if at == 0 {
        " "@
    } else {
        ", "@
    }
}

/// The text `text` with the slots from `from` on added to it.
pub open spec fn signature_from(pairs: Seq<(u8, u8)>, from: int, text: Seq<char>) -> Seq<char>
    decreases pairs.len() - from,
{
    if from < 0 || from >= pairs.len() {
        text
    } else {
        signature_from(
            pairs,
            from + 1,
            text + separator(from) + kind_text(pairs[from].0) + size_text(pairs[from].1),
        )
    }
}

/// An encoding as text: the mnemonic, then the slots of its format, each with the name of
/// its kind and that of its size.
pub open spec fn opdata_text(name: Seq<char>, args: Seq<u8>) -> Seq<char> {
    signature_from(format_pairs(args), 0, name)
}

/// The text `text` with the encodings from `from` on added to it, each on a line of its own.
pub open spec fn opdata_list_from(
    name: Seq<char>,
    forms: Seq<OpdataView>,
    from: int,
    text: Seq<char>,
) -> Seq<
    char,
>
    decreases forms.len() - from,
{
    if from < 0 || from >= forms.len() {
        text
    } else {
        opdata_list_from(name, forms, from + 1, text + "\n"@ + opdata_text(name, forms[from].args))
    }
}

/// The message for operands that none of the encodings of a mnemonic takes: it lists them
/// all.
pub open spec fn mismatch_text(name: Seq<char>, forms: Seq<OpdataView>) -> Seq<char> {
    opdata_list_from(
        name,
        forms,
        0,
        "'"@ + name + "': argument type/size mismatch, expected one of the following forms:"@,
    )
}

/// Adds an encoding as text to `text`.
pub fn format_opdata(text: &mut String, name: &str, data: &Opdata)
    ensures
        final(text)@ == old(text)@ + opdata_text(name@, data@.args),
{
    let pairs = read_format(data.args.as_slice());
    let ghost start = text@;
    text.append(name);
    let mut i: usize = 0;
    while i < pairs.len()
        invariant
            i <= pairs.len(),
            pairs@ == format_pairs(data@.args),
            exists|own: Seq<char>| #![auto] text@ == start + own && opdata_text(name@, data@.args) == signature_from(pairs@, i as int, own),
        decreases pairs.len() - i,
    {
        let ghost own: Seq<char> = choose|own: Seq<char>| #![auto] text@ == start + own && opdata_text(name@, data@.args) == signature_from(pairs@, i as int, own);
        let sep = if i == 0 {
            " "
        } else {
            ", "
        };
        text.append(sep);
        text.append(kind_name(pairs[i].0));
        text.append(size_name(pairs[i].1));
        proof {
            let next = own + separator(i as int) + kind_text(pairs@[i as int].0) + size_text(pairs@[i as int].1);
            assert(text@ =~= start + next);
        }
        i += 1;
    }
    assert(start + name@ =~= start + (name@));
}

/// The message for operands that none of the encodings of the mnemonic `name` takes.
pub fn format_opdata_list(name: &str, forms: &Vec<Opdata>) -> (r: String)
    ensures
        r@ == mismatch_text(name@, opdata_views(forms@)),
{
    let mut text = String::from_str("'");
    text.append(name);
    text.append("': argument type/size mismatch, expected one of the following forms:");
    let ghost views = opdata_views(forms@);
    let mut i: usize = 0;
    while i < forms.len()
        invariant
            i <= forms.len(),
            views == opdata_views(forms@),
            mismatch_text(name@, views) == opdata_list_from(name@, views, i as int, text@),
        decreases forms.len() - i,
    {
        assert(views[i as int] == forms@[i as int]@);
        let ghost before = text@;
        text.append("\n");
        format_opdata(&mut text, name, &forms[i]);
        assert(text@ =~= before + "\n"@ + opdata_text(name@, views[i as int].args));
        i += 1;
    }
    text
}

} // verus!
