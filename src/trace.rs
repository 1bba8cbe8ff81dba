//! The lines that the debug printers write: a `[file:line]` tag, then either
//! nothing, a message, or `label = value` fields.

use vstd::prelude::*;

verus! {

/// The character of a decimal digit.
pub open spec fn digit_char(d: nat) -> char {
    if d == 0 {
        '0'
    } else if d == 1 {
        '1'
    } else if d == 2 {
        '2'
    } else if d == 3 {
        '3'
    } else if d == 4 {
        '4'
    } else if d == 5 {
        '5'
    } else if d == 6 {
        '6'
    } else if d == 7 {
        '7'
    } else if d == 8 {
        '8'
    } else {
        '9'
    }
}

/// The decimal text of `n`, most significant digit first, without leading zeros.
pub open spec fn decimal(n: nat) -> Seq<char>
    decreases n,
{
    if n < 10 {
        seq![digit_char(n)]
    } else {
        decimal(n / 10).push(digit_char(n % 10))
    }
}

/// Appends the decimal text of `n` to `out`.
pub fn push_decimal(out: &mut String, n: u32)
    ensures
        final(out)@ == old(out)@ + decimal(n as nat),
    decreases n,
{
    if n >= 10 {
        push_decimal(out, n / 10);
    }
    let d: usize = (n % 10) as usize;
    let digits = "0123456789";
    proof {
        reveal_strlit("0123456789");
    }
    let c = digits.substring_char(d, d + 1);
    assert(c@ =~= seq![digit_char(d as nat)]);
    out.append(c);
    assert(out@ =~= old(out)@ + decimal(n as nat));
}

/// The `[file:line]` tag that opens every debug line.
pub open spec fn location_tag(file: Seq<char>, line: nat) -> Seq<char> {
    seq!['['] + file + seq![':'] + decimal(line) + seq![']']
}

/// The fields of a terse debug line: each `label = value` followed by two spaces.
pub open spec fn fields_text(fields: Seq<(String, String)>) -> Seq<char>
    decreases fields.len(),
{
    if fields.len() == 0 {
        Seq::empty()
    } else {
        let last = fields.last();
        fields_text(fields.drop_last()) + last.0@ + seq![' ', '=', ' '] + last.1@ + seq![' ', ' ']
    }
}

/// Appends the `[file:line]` tag to `out`.
fn push_location(out: &mut String, file: &str, line: u32)
    ensures
        final(out)@ == old(out)@ + location_tag(file@, line as nat),
{
    proof {
        reveal_strlit("[");
        reveal_strlit(":");
        reveal_strlit("]");
    }
    out.append("[");
    out.append(file);
    out.append(":");
    push_decimal(out, line);
    out.append("]");
    assert(out@ =~= old(out)@ + location_tag(file@, line as nat));
}

/// The line of a bare `dump`: the location tag and nothing else.
pub fn dump_line(file: &str, line: u32) -> (r: String)
    ensures
        r@ == location_tag(file@, line as nat),
{
    let mut out = String::new();
    push_location(&mut out, file, line);
    assert(out@ =~= location_tag(file@, line as nat));
    out
}

/// The line of a `dump` with a formatted message: the location tag, a space,
/// then the message as it was formatted.
pub fn dump_message_line(file: &str, line: u32, message: &str) -> (r: String)
    ensures
        r@ == location_tag(file@, line as nat) + seq![' '] + message@,
{
    let mut out = String::new();
    push_location(&mut out, file, line);
    proof {
        reveal_strlit(" ");
    }
    out.append(" ");
    out.append(message);
    assert(out@ =~= location_tag(file@, line as nat) + seq![' '] + message@);
    out
}

/// The line of a `dmp`: the location tag, a space, then for each field in
/// order its label, ` = `, its rendered value and two spaces.
pub fn dmp_line(file: &str, line: u32, fields: &Vec<(String, String)>) -> (r: String)
    ensures
        r@ == location_tag(file@, line as nat) + seq![' '] + fields_text(fields@),
{
    let mut out = String::new();
    push_location(&mut out, file, line);
    proof {
        reveal_strlit(" ");
    }
    out.append(" ");
    let ghost head = out@;
    assert(head =~= location_tag(file@, line as nat) + seq![' ']);
    let mut i: usize = 0;
    while i < fields.len()
        invariant
            i <= fields@.len(),
            out@ == head + fields_text(fields@.subrange(0, i as int)),
        decreases fields@.len() - i,
    {
        let field = &fields[i];
        let ghost before = out@;
        proof {
            reveal_strlit(" = ");
            reveal_strlit("  ");
        }
        out.append(field.0.as_str());
        out.append(" = ");
        out.append(field.1.as_str());
        out.append("  ");
        proof {
            let next = fields@.subrange(0, i + 1);
            assert(next.drop_last() =~= fields@.subrange(0, i as int));
            assert(next.last() == fields@[i as int]);
            assert(fields_text(next) == fields_text(fields@.subrange(0, i as int)) + field.0@
                + seq![' ', '=', ' '] + field.1@ + seq![' ', ' ']);
            assert(out@ =~= before + field.0@ + seq![' ', '=', ' '] + field.1@ + seq![' ', ' ']);
        }
        i = i + 1;
        assert(out@ =~= head + fields_text(fields@.subrange(0, i as int)));
    }
    assert(fields@.subrange(0, fields@.len() as int) =~= fields@);
    out
}

} // verus!
