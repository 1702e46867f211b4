//! Text pieces of the HTML fragments: escaping and number formatting.
use vstd::prelude::*;

verus! {

/// The entity text that stands for one character inside an HTML fragment.
pub open spec fn escaped_char(c: char) -> Seq<char> {
    if c == '&' {
        "&amp;"@
    } else if c == '<' {
        "&lt;"@
    } else if c == '>' {
        "&gt;"@
    } else if c == '"' {
        "&quot;"@
    } else {
        seq![c]
    }
}

/// User text made safe for element content and quoted attribute values.
pub open spec fn escaped(s: Seq<char>) -> Seq<char>
    decreases s.len(),
{
    if s.len() == 0 {
        Seq::empty()
    } else {
        escaped(s.drop_last()) + escaped_char(s.last())
    }
}

/// Relies on maud's `Render` impl for `str`, which copies the text and
/// replaces `&`, `<`, `>` and `"` by their entities, byte by byte.
#[verifier::external_body]
fn escape_html(s: &str) -> (r: String)
    ensures
        r@ == escaped(s@),
{
    let mut out = String::new();
    maud::Render::render_to(s, &mut out);
    out
}

/// Appends the escaped form of `s` to `out`.
pub fn push_escaped(out: &mut String, s: &str)
    ensures
        final(out)@ == old(out)@ + escaped(s@),
{
    let e = escape_html(s);
    out.append(e.as_str());
}

/// The decimal digit `d` as text.
pub open spec fn digit_text(d: int) -> Seq<char> {
    if d == 0 {
        "0"@
    } else if d == 1 {
        "1"@
    } else if d == 2 {
        "2"@
    } else if d == 3 {
        "3"@
    } else if d == 4 {
        "4"@
    } else if d == 5 {
        "5"@
    } else if d == 6 {
        "6"@
    } else if d == 7 {
        "7"@
    } else if d == 8 {
        "8"@
    } else {
        "9"@
    }
}

/// The digits of `n` in base ten, most significant first, without leading zeros.
pub open spec fn digits(n: nat) -> Seq<char>
    decreases n,
{
    if n < 10 {
        digit_text(n as int)
    } else {
        digits(n / 10) + digit_text((n % 10) as int)
    }
}

/// `n` written in base ten, with a leading `-` when it is negative.
pub open spec fn decimal(n: int) -> Seq<char> {
    if n < 0 {
        "-"@ + digits((-n) as nat)
    } else {
        digits(n as nat)
    }
}

/// `"true"` or `"false"`.
pub open spec fn bool_text(b: bool) -> Seq<char> {
    if b {
        "true"@
    } else {
        "false"@
    }
}

fn digit_str(d: u64) -> (r: &'static str)
    requires
        d < 10,
    ensures
        r@ == digit_text(d as int),
{
    if d == 0 {
        "0"
    } else if d == 1 {
        "1"
    } else if d == 2 {
        "2"
    } else if d == 3 {
        "3"
    } else if d == 4 {
        "4"
    } else if d == 5 {
        "5"
    } else if d == 6 {
        "6"
    } else if d == 7 {
        "7"
    } else if d == 8 {
        "8"
    } else {
        "9"
    }
}

fn push_digits(out: &mut String, n: u64)
    ensures
        final(out)@ == old(out)@ + digits(n as nat),
    decreases n,
{
    if n < 10 {
        out.append(digit_str(n));
    } else {
        let ghost before = out@;
        push_digits(out, n / 10);
        out.append(digit_str(n % 10));
        assert(out@ =~= before + digits(n as nat));
    }
}

/// Appends `n` in base ten to `out`.
pub fn push_decimal(out: &mut String, n: i64)
    ensures
        final(out)@ == old(out)@ + decimal(n as int),
{
    if n < 0 {
        let ghost before = out@;
        out.append("-");
        let m: u64 = (0i128 - n as i128) as u64;
        push_digits(out, m);
        assert(out@ =~= before + decimal(n as int));
    } else {
        push_digits(out, n as u64);
    }
}

/// Appends `"true"` or `"false"` to `out`.
pub fn push_bool(out: &mut String, b: bool)
    ensures
        final(out)@ == old(out)@ + bool_text(b),
{
    if b {
        out.append("true");
    } else {
        out.append("false");
    }
}

} // verus!
