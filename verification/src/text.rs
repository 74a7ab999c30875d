//! Small operations on text that the rest of the crate is built from.
//!
//! Every function here is stated over the `Seq<char>` view of a string, so
//! that the formatting rules in the other modules can be written as plain
//! sequence expressions.

use vstd::prelude::*;
use vstd::string::*;

verus! {

/// The views of a sequence of strings, in the same order.
pub open spec fn texts(items: Seq<String>) -> Seq<Seq<char>> {
    items.map_values(|s: String| s@)
}

/// Whether a text holds no `"`, no `\` and no control character below
/// U+0020. Such a text stands in a JSON string as it is.
pub open spec fn is_plain(text: Seq<char>) -> bool {
    forall|i: int|
        0 <= i < text.len() ==> {
            let c = #[trigger] text[i];
            c != '"' && c != '\\' && c as u32 >= 0x20
        }
}

/// A text between two `"`.
pub open spec fn quoted(text: Seq<char>) -> Seq<char> {
    seq!['"'] + text + seq!['"']
}

/// `s` with every leading `"` taken away.
pub open spec fn without_leading_quotes(s: Seq<char>) -> Seq<char>
    decreases s.len(),
{
    if s.len() > 0 && s[0] == '"' {
        without_leading_quotes(s.drop_first())
    } else {
        s
    }
}

/// `s` with every trailing `"` taken away.
pub open spec fn without_trailing_quotes(s: Seq<char>) -> Seq<char>
    decreases s.len(),
{
    if s.len() > 0 && s.last() == '"' {
        without_trailing_quotes(s.drop_last())
    } else {
        s
    }
}

/// `s` with the `"` characters that surround it stripped from both ends.
pub open spec fn strip_quotes(s: Seq<char>) -> Seq<char> {
    without_trailing_quotes(without_leading_quotes(s))
}

/// `s` with every `"` removed, wherever it stands.
pub open spec fn remove_quotes(s: Seq<char>) -> Seq<char> {
    s.filter(|c: char| c != '"')
}

/// The items of `items` written one after another with `sep` between
/// neighbours.
pub open spec fn joined(items: Seq<Seq<char>>, sep: Seq<char>) -> Seq<char>
    decreases items.len(),
{
    if items.len() == 0 {
        Seq::empty()
    } else if items.len() == 1 {
        items[0]
    } else {
        joined(items.drop_last(), sep) + sep + items.last()
    }
}

/// The character of the decimal digit `d`.
pub open spec fn digit(d: int) -> char {
    seq!['0', '1', '2', '3', '4', '5', '6', '7', '8', '9'][d]
}

/// The decimal digits of `n`, without leading zeros.
pub open spec fn decimal(n: nat) -> Seq<char>
    decreases n,
{
    if n < 10 {
        seq![digit(n as int)]
    } else {
        decimal(n / 10).push(digit((n % 10) as int))
    }
}

/// The first character of a number's digits is a digit.
pub proof fn lemma_decimal_starts_with_digit(n: nat)
    ensures
        decimal(n).len() > 0,
        exists|d: int| 0 <= d < 10 && decimal(n)[0] == digit(d),
    decreases n,
{
    if n < 10 {
        assert(decimal(n)[0] == digit(n as int));
    } else {
        lemma_decimal_starts_with_digit(n / 10);
    }
}

/// Whether two strings hold the same characters.
pub fn same_text(a: &str, b: &str) -> (r: bool)
    ensures
        r == (a@ == b@),
{
    a.to_owned() == b.to_owned()
}

/// Stripping leaves a piece of the text it was given: the part between the
/// leading run and the trailing run of `"`, which neither starts nor ends
/// with `"`.
pub proof fn lemma_strip_quotes_is_middle(s: Seq<char>) -> (bounds: (int, int))
    ensures
        0 <= bounds.0 <= bounds.1 <= s.len(),
        strip_quotes(s) == s.subrange(bounds.0, bounds.1),
        forall|i: int| 0 <= i < bounds.0 ==> s[i] == '"',
        forall|i: int| bounds.1 <= i < s.len() ==> s[i] == '"',
        bounds.0 < bounds.1 ==> s[bounds.0] != '"' && s[bounds.1 - 1] != '"',
{
    let start = lemma_leading_run(s, 0);
    assert(s.subrange(0, s.len() as int) =~= s);
    let rest = s.subrange(start, s.len() as int);
    let len = lemma_trailing_run(rest, rest.len() as int);
    assert(rest.subrange(0, rest.len() as int) =~= rest);
    assert forall|i: int| start + len <= i < s.len() implies s[i] == '"' by {
        assert(rest[i - start] == s[i]);
    }
    (start, start + len)
}

/// The piece that stripping leaves is the only one of its kind: whatever
/// bounds cut `s` into a run of `"`, a middle that neither starts nor ends
/// with `"`, and a run of `"`, the middle is the stripped text.
pub proof fn lemma_strip_quotes_between(s: Seq<char>, start: int, end: int)
    requires
        0 <= start <= end <= s.len(),
        forall|i: int| 0 <= i < start ==> s[i] == '"',
        forall|i: int| end <= i < s.len() ==> s[i] == '"',
        start < end ==> s[start] != '"' && s[end - 1] != '"',
    ensures
        strip_quotes(s) == s.subrange(start, end),
{
    lemma_strip_quotes_is_middle(s);
}

/// Two texts between quotes are the same only where the texts are the same.
pub proof fn lemma_quoted_is_one_to_one(a: Seq<char>, b: Seq<char>)
    requires
        quoted(a) == quoted(b),
    ensures
        a == b,
{
    assert(quoted(a).len() == a.len() + 2 && quoted(b).len() == b.len() + 2);
    assert(quoted(a).subrange(1, a.len() as int + 1) =~= a);
    assert(quoted(b).subrange(1, b.len() as int + 1) =~= b);
}

/// A text without `"` is left as it is, whether quotes are stripped from its
/// ends or removed throughout.
pub proof fn lemma_quote_free_text(s: Seq<char>)
    requires
        forall|i: int| 0 <= i < s.len() ==> s[i] != '"',
    ensures
        strip_quotes(s) == s,
        remove_quotes(s) == s,
    decreases s.len(),
{
    reveal(Seq::filter);
    if s.len() > 0 {
        lemma_quote_free_text(s.drop_last());
        assert(s.drop_last().push(s.last()) =~= s);
    }
    lemma_strip_quotes_between(s, 0, s.len() as int);
    assert(s.subrange(0, s.len() as int) =~= s);
}

/// Taking the quotes off a plain text that was put between quotes gives the
/// text back, whether they are stripped from the ends or removed
/// throughout.
pub proof fn lemma_quoted_plain_text(text: Seq<char>)
    requires
        is_plain(text),
    ensures
        strip_quotes(quoted(text)) == text,
        remove_quotes(quoted(text)) == text,
{
    let q = quoted(text);
    let n = text.len() as int;
    assert(q.subrange(1, n + 1) =~= text);
    if n > 0 {
        assert(q[1] == text[0] && q[n] == text[n - 1]);
    }
    lemma_strip_quotes_between(q, 1, n + 1);
    let nothing = Seq::<char>::empty();
    let quote = seq!['"'];
    let keep = |c: char| c != '"';
    reveal(Seq::filter);
    Seq::filter_distributes_over_add(quote + text, quote, keep);
    Seq::filter_distributes_over_add(quote, text, keep);
    lemma_quote_free_text(text);
    nothing.lemma_filter_push('"', keep);
    assert(nothing.push('"') =~= quote);
    assert(nothing + text + nothing =~= text);
}

/// Walks over the leading `"` of `s` from position `from`, which only `"`
/// precede, and returns where the run ends.
proof fn lemma_leading_run(s: Seq<char>, from: int) -> (start: int)
    requires
        0 <= from <= s.len(),
        forall|i: int| 0 <= i < from ==> s[i] == '"',
    ensures
        from <= start <= s.len(),
        forall|i: int| 0 <= i < start ==> s[i] == '"',
        start < s.len() ==> s[start] != '"',
        without_leading_quotes(s.subrange(from, s.len() as int)) == s.subrange(
            start,
            s.len() as int,
        ),
    decreases s.len() - from,
{
    let tail = s.subrange(from, s.len() as int);
    if from < s.len() && s[from] == '"' {
        assert(tail.drop_first() =~= s.subrange(from + 1, s.len() as int));
        lemma_leading_run(s, from + 1)
    } else {
        from
    }
}

/// Walks over the trailing `"` of `s` back from position `to`, which only
/// `"` follow, and returns where the run begins.
proof fn lemma_trailing_run(s: Seq<char>, to: int) -> (end: int)
    requires
        0 <= to <= s.len(),
        forall|i: int| to <= i < s.len() ==> s[i] == '"',
    ensures
        0 <= end <= to,
        forall|i: int| end <= i < s.len() ==> s[i] == '"',
        end > 0 ==> s[end - 1] != '"',
        without_trailing_quotes(s.subrange(0, to)) == s.subrange(0, end),
    decreases to,
{
    let head = s.subrange(0, to);
    if to > 0 && s[to - 1] == '"' {
        assert(head.drop_last() =~= s.subrange(0, to - 1));
        lemma_trailing_run(s, to - 1)
    } else {
        to
    }
}

/// Strips the `"` characters that surround `s`.
pub fn strip_quotes_of(s: &str) -> (r: String)
    ensures
        r@ == strip_quotes(s@),
{
    let n: usize = s.unicode_len();
    let mut start: usize = 0;
    while start < n && s.get_char(start) == '"'
        invariant
            start <= n,
            n == s@.len(),
            forall|i: int| 0 <= i < start ==> s@[i] == '"',
        decreases n - start,
    {
        start += 1;
    }
    let mut end: usize = n;
    while end > start && s.get_char(end - 1) == '"'
        invariant
            start <= end <= n,
            n == s@.len(),
            forall|i: int| end <= i < n ==> s@[i] == '"',
        decreases end,
    {
        end -= 1;
    }
    proof {
        lemma_strip_quotes_between(s@, start as int, end as int);
    }
    s.substring_char(start, end).to_owned()
}

/// Removes every `"` from `s`.
pub fn remove_quotes_of(s: &str) -> (r: String)
    ensures
        r@ == remove_quotes(s@),
{
    let n: usize = s.unicode_len();
    let mut out = String::new();
    let mut i: usize = 0;
    proof {
        reveal(Seq::filter);
    }
    while i < n
        invariant
            i <= n,
            n == s@.len(),
            out@ == remove_quotes(s@.take(i as int)),
        decreases n - i,
    {
        let c = s.get_char(i);
        proof {
            s@.take(i as int).lemma_filter_push(c, |c: char| c != '"');
            assert(s@.take(i as int).push(c) =~= s@.take(i + 1));
        }
        if c != '"' {
            let piece = s.substring_char(i, i + 1);
            out.append(piece);
        }
        i += 1;
    }
    assert(s@.take(n as int) =~= s@);
    out
}

/// Joins `items` with `sep` between neighbours.
pub fn join_texts(items: &Vec<String>, sep: &str) -> (r: String)
    ensures
        r@ == joined(texts(items@), sep@),
{
    let mut out = String::new();
    let mut i: usize = 0;
    while i < items.len()
        invariant
            i <= items.len(),
            out@ == joined(texts(items@.take(i as int)), sep@),
        decreases items.len() - i,
    {
        proof {
            let before = texts(items@.take(i as int));
            let after = texts(items@.take(i + 1));
            assert(after.drop_last() =~= before);
        }
        if i > 0 {
            out.append(sep);
        }
        out.append(items[i].as_str());
        i += 1;
    }
    assert(items@.take(items.len() as int) =~= items@);
    out
}

} // verus!
