//! HTTP status codes: the success range and the text a status is shown as.

use vstd::prelude::*;
use vstd::string::StringExecFns;

verus! {

/// A status code counts as a success when it lies in 200..=299.
pub open spec fn success_range(code: u16) -> bool {
    200 <= code <= 299
}

/// Tells whether `code` is a success status.
pub fn is_success(code: u16) -> (ok: bool)
    ensures
        ok == success_range(code),
{
    200 <= code && code < 300
}

/// The character that writes the digit `d`: `'0'` for 0, up to `'9'` for 9.
pub open spec fn digit_char(d: nat) -> char {
    ('0' as u8 + d) as u8 as char
}

/// `n` written in decimal, without leading zeros.
pub open spec fn decimal(n: nat) -> Seq<char>
    decreases n,
{
    if n < 10 {
        seq![digit_char(n)]
    } else {
        decimal(n / 10).push(digit_char(n % 10))
    }
}

/// The reason phrase that `http::StatusCode::canonical_reason` gives for the
/// status with number `code`; `None` where it knows no phrase or where no
/// status has that number.
pub uninterp spec fn canonical_reason(code: u16) -> Option<Seq<char>>;

/// What stands in place of the reason phrase of a status that has none.
pub open spec fn unknown_reason() -> Seq<char> {
    "<unknown status code>"@
}

/// The phrase shown after the number of a status.
pub open spec fn reason_text(code: u16) -> Seq<char> {
    match canonical_reason(code) {
        Some(phrase) => phrase,
        None => unknown_reason(),
    }
}

/// A status as it is shown in a diagnostic: its number in decimal, a space,
/// and its reason phrase.
pub open spec fn status_text(code: u16) -> Seq<char> {
    decimal(code as nat) + " "@ + reason_text(code)
}

/// Looks up the reason phrase of a status: `reqwest::StatusCode::from_u16`,
/// then `canonical_reason` on the status it gives.
///
/// Trusted: the phrase depends on the number alone, which is what
/// [`canonical_reason`] names. A number that `from_u16` refuses has no
/// phrase.
#[verifier::external_body]
fn reason_phrase(code: u16) -> (phrase: Option<&'static str>)
    ensures
        phrase matches Some(text) ==> canonical_reason(code) == Some(text@),
        phrase is None ==> canonical_reason(code) is None,
{
    match reqwest::StatusCode::from_u16(code) {
        Ok(status) => status.canonical_reason(),
        Err(_) => None,
    }
}

/// The one-character text of a digit.
fn digit_text(d: u16) -> (text: &'static str)
    requires
        d < 10,
    ensures
        text@ == seq![digit_char(d as nat)],
{
    proof {
        reveal_strlit("0");
        reveal_strlit("1");
        reveal_strlit("2");
        reveal_strlit("3");
        reveal_strlit("4");
        reveal_strlit("5");
        reveal_strlit("6");
        reveal_strlit("7");
        reveal_strlit("8");
        reveal_strlit("9");
    }
    let text = if d == 0 {
        "0"
    } else if d == 1 {
        "1"
    } else if d == 2 {
        "2"
    } else if d == 3 {
        "3"
    } else if d == 4 {
        "4"
    } else if d == 5 {
        "5"
    } else if d == 6 {
        "6"
    } else if d == 7 {
        "7"
    } else if d == 8 {
        "8"
    } else {
        "9"
    };
    assert(text@ =~= seq![digit_char(d as nat)]);
    text
}

/// Appends `n` in decimal to `out`.
pub fn push_decimal(out: &mut String, n: u16)
    ensures
        final(out)@ == old(out)@ + decimal(n as nat),
    decreases n,
{
    if n >= 10 {
        push_decimal(out, n / 10);
    }
    out.append(digit_text(n % 10));
    assert(out@ =~= old(out)@ + decimal(n as nat));
}

/// Appends the text of status `code` to `out`.
pub fn push_status_text(out: &mut String, code: u16)
    ensures
        final(out)@ == old(out)@ + status_text(code),
{
    push_decimal(out, code);
    out.append(" ");
    match reason_phrase(code) {
        Some(phrase) => out.append(phrase),
        None => out.append("<unknown status code>"),
    }
    assert(out@ =~= old(out)@ + status_text(code));
}

} // verus!
