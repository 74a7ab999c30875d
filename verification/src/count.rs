//! Counts are shown the English way, with a comma between groups of three
//! digits: `1,000,000`.

use vstd::prelude::*;
use num_format::{Locale, ToFormattedString};
use crate::text::{decimal, digit, lemma_decimal_starts_with_digit};

verus! {

/// The three digits of a number below 1000, leading zeros included.
pub open spec fn three_digits(n: nat) -> Seq<char> {
    seq![digit((n / 100) as int), digit((n / 10 % 10) as int), digit((n % 10) as int)]
}

/// The digits of `n` in groups of three from the right, with a comma
/// between groups.
pub open spec fn grouped(n: nat) -> Seq<char>
    decreases n,
{
    if n < 1000 {
        decimal(n)
    } else {
        grouped(n / 1000) + seq![','] + three_digits(n % 1000)
    }
}

/// A count as it is shown: grouped digits, after a `-` where it is negative.
pub open spec fn grouped_count(n: int) -> Seq<char> {
    if n < 0 {
        seq!['-'] + grouped((-n) as nat)
    } else {
        grouped(n as nat)
    }
}

/// The first character of a grouped number is a digit.
proof fn lemma_grouped_starts_with_digit(n: nat)
    ensures
        grouped(n).len() > 0,
        exists|d: int| 0 <= d < 10 && grouped(n)[0] == digit(d),
    decreases n,
{
    if n < 1000 {
        lemma_decimal_starts_with_digit(n);
    } else {
        lemma_grouped_starts_with_digit(n / 1000);
    }
}

/// No count reads `null`: its text starts with a digit or with `-`.
pub proof fn lemma_count_never_reads_null(n: int)
    ensures
        grouped_count(n) != "null"@,
{
    reveal_strlit("null");
    if n < 0 {
        assert(grouped_count(n)[0] == '-');
    } else {
        lemma_grouped_starts_with_digit(n as nat);
    }
}

/// Calls `num_format::ToFormattedString::to_formatted_string` on an `i64`
/// with `Locale::en`. That locale groups digits in threes, separates the
/// groups with `,` and writes `-` before a negative number; the contract
/// claims exactly that text.
#[verifier::external_body]
pub(crate) fn format_count(n: i64) -> (r: String)
    ensures
        r@ == grouped_count(n as int),
{
    n.to_formatted_string(&Locale::en)
}

} // verus!
