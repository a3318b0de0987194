//! What holds of every classification.

use vstd::prelude::*;
use crate::status::{decimal, digit_char, reason_text, status_text, success_range};
use crate::text::{lemma_occurs_between, occurs_in};
use crate::verdict::{bad_status_diagnostic, classification, unreachable_diagnostic, Outcome};

verus! {

/// A check is healthy exactly when a response arrived and its status lies in
/// 200..=299, whatever the URL.
pub proof fn healthy_iff_success(url: Seq<char>, outcome: Outcome)
    ensures
        classification(url, outcome) is None <==> (outcome matches Outcome::Responded(status)
            && 200 <= status <= 299),
{
}

/// A response with a status outside 200..=299 gives a diagnostic in which
/// both the URL and the status code, written in decimal, can be read.
pub proof fn bad_status_names_url_and_code(url: Seq<char>, status: u16)
    requires
        !success_range(status),
    ensures
        classification(url, Outcome::Responded(status)) == Some(bad_status_diagnostic(url, status)),
        occurs_in(url, bad_status_diagnostic(url, status)),
        occurs_in(decimal(status as nat), bad_status_diagnostic(url, status)),
{
    let head = "Failed to get "@;
    let dash = " - "@;
    let tail = " "@ + reason_text(status);
    let diagnostic = bad_status_diagnostic(url, status);
    assert(diagnostic =~= head + url + (dash + status_text(status)));
    lemma_occurs_between(head, url, dash + status_text(status));
    assert(diagnostic =~= (head + url + dash) + decimal(status as nat) + tail);
    lemma_occurs_between(head + url + dash, decimal(status as nat), tail);
}

/// The status codes of HTTP, 100 to 999, are written with their three digits.
pub proof fn status_code_has_three_digits(code: u16)
    requires
        100 <= code <= 999,
    ensures
        decimal(code as nat) == seq![
            digit_char(code as nat / 100),
            digit_char(code as nat / 10 % 10),
            digit_char(code as nat % 10),
        ],
{
    let n: nat = code as nat;
    reveal_with_fuel(decimal, 3);
    assert(decimal(n) =~= seq![digit_char(n / 100), digit_char(n / 10 % 10), digit_char(n % 10)]);
}

/// A response with status 404 or 500 is unhealthy, whatever the URL, and its
/// diagnostic holds the URL and the digits `404` or `500`.
pub proof fn not_found_and_server_error_are_named(url: Seq<char>)
    ensures
        classification(url, Outcome::Responded(404)) == Some(bad_status_diagnostic(url, 404)),
        occurs_in(url, bad_status_diagnostic(url, 404)),
        occurs_in("404"@, bad_status_diagnostic(url, 404)),
        classification(url, Outcome::Responded(500)) == Some(bad_status_diagnostic(url, 500)),
        occurs_in(url, bad_status_diagnostic(url, 500)),
        occurs_in("500"@, bad_status_diagnostic(url, 500)),
{
    reveal_strlit("404");
    reveal_strlit("500");
    status_code_has_three_digits(404);
    status_code_has_three_digits(500);
    assert("404"@ =~= decimal(404));
    assert("500"@ =~= decimal(500));
    bad_status_names_url_and_code(url, 404);
    bad_status_names_url_and_code(url, 500);
}

/// A request that got no response gives a diagnostic made of the URL alone,
/// after words that say that connecting failed. No diagnostic for a bad
/// status, of whatever URL and status, reads the same.
pub proof fn unreachable_is_told_apart(url: Seq<char>, other_url: Seq<char>, status: u16)
    ensures
        classification(url, Outcome::Unreachable) == Some("Failed to connect to "@ + url),
        classification(url, Outcome::Unreachable) != classification(
            other_url,
            Outcome::Responded(status),
        ),
{
    reveal_strlit("Failed to connect to ");
    reveal_strlit("Failed to get ");
    let refused = unreachable_diagnostic(url);
    let bad = bad_status_diagnostic(other_url, status);
    assert(refused[10] == 'c');
    assert(bad[10] == 'g');
}

} // verus!
