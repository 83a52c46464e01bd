use base64::Engine;
use vstd::prelude::*;

verus! {

/// The ASCII character of a decimal digit.
pub open spec fn digit_char(d: nat) -> char {
    if d == 0 { '0' }
    else if d == 1 { '1' }
    else if d == 2 { '2' }
    else if d == 3 { '3' }
    else if d == 4 { '4' }
    else if d == 5 { '5' }
    else if d == 6 { '6' }
    else if d == 7 { '7' }
    else if d == 8 { '8' }
    else { '9' }
}

/// The decimal rendering of `n`, left-padded with zeros to at least `width`
/// characters.
pub open spec fn decimal_padded(n: nat, width: nat) -> Seq<char>
    decreases width, n,
{
    if n < 10 && width <= 1 {
        seq![digit_char(n)]
    } else {
        decimal_padded(n / 10, if width > 0 { (width - 1) as nat } else { 0 }).push(digit_char(n % 10))
    }
}

fn digit_str(d: u8) -> (r: &'static str)
    requires
        d < 10,
    ensures
        r@ == seq![digit_char(d as nat)],
{
    proof {
        reveal_strlit("0");
        reveal_strlit("1");
        reveal_strlit("2");
        reveal_strlit("3");
        reveal_strlit("4");
        reveal_strlit("5");
        reveal_strlit("6");
        reveal_strlit("7");
        reveal_strlit("8");
        reveal_strlit("9");
    }
    match d {
        0 => "0",
        1 => "1",
        2 => "2",
        3 => "3",
        4 => "4",
        5 => "5",
        6 => "6",
        7 => "7",
        8 => "8",
        _ => "9",
    }
}

/// Appends the zero-padded decimal rendering of `n` to `out`.
fn push_decimal_padded(out: &mut String, n: u32, width: u32)
    ensures
        final(out)@ == old(out)@ + decimal_padded(n as nat, width as nat),
    decreases width, n,
{
    if n < 10 && width <= 1 {
        out.append(digit_str(n as u8));
    } else {
        let w: u32 = if width > 0 { width - 1 } else { 0 };
        push_decimal_padded(out, n / 10, w);
        out.append(digit_str((n % 10) as u8));
        assert(final(out)@ =~= old(out)@ + decimal_padded(n as nat, width as nat));
    }
}

/// Renders a calendar date as `YYYY-MM-DD`, each part zero-padded.
pub fn format_date(year: u16, month: u8, day: u8) -> (r: String)
    ensures
        r@ == decimal_padded(year as nat, 4) + seq!['-'] + decimal_padded(month as nat, 2)
            + seq!['-'] + decimal_padded(day as nat, 2),
{
    let mut out = String::new();
    push_decimal_padded(&mut out, year as u32, 4);
    out.append("-");
    push_decimal_padded(&mut out, month as u32, 2);
    out.append("-");
    push_decimal_padded(&mut out, day as u32, 2);
    proof {
        reveal_strlit("-");
    }
    assert(out@ =~= decimal_padded(year as nat, 4) + seq!['-'] + decimal_padded(month as nat, 2)
        + seq!['-'] + decimal_padded(day as nat, 2));
    out
}

/// What the standard base64 alphabet, with padding, makes of `bytes`.
pub uninterp spec fn base64_of(bytes: Seq<u8>) -> Seq<char>;

/// Relies on `base64::engine::general_purpose::STANDARD.encode`: standard
/// base64 with padding, a function of the bytes alone. Its buffer-size check
/// cannot fail on a slice, whose length is at most `isize::MAX`.
#[verifier::external_body]
pub(crate) fn base64_standard(bytes: &[u8]) -> (r: String)
    ensures
        r@ == base64_of(bytes@),
{
    base64::engine::general_purpose::STANDARD.encode(bytes)
}

/// Encodes raw image bytes as standard base64 text.
pub fn encode_image_bytes(bytes: &[u8]) -> (r: String)
    ensures
        r@ == base64_of(bytes@),
{
    base64_standard(bytes)
}

} // verus!
