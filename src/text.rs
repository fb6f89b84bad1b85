use vstd::prelude::*;
use vstd::string::*;

verus! {

/// The text that `String::from_utf8_lossy` makes of a byte sequence: valid
/// UTF-8 is decoded, and each invalid sequence becomes U+FFFD.
pub uninterp spec fn utf8_lossy(bytes: Seq<u8>) -> Seq<char>;

/// The text that `String::from_utf16_lossy` makes of a sequence of UTF-16
/// code units: unpaired surrogates become U+FFFD.
pub uninterp spec fn utf16_lossy(units: Seq<u16>) -> Seq<char>;

/// The text that `str::trim` leaves: leading and trailing whitespace removed.
pub uninterp spec fn trimmed(s: Seq<char>) -> Seq<char>;

/// Relies on `String::from_utf8_lossy`, which never fails: the text depends on
/// the bytes alone.
#[verifier::external_body]
pub(crate) fn decode_utf8_lossy(bytes: &Vec<u8>) -> (r: String)
    ensures
        r@ == utf8_lossy(bytes@),
{
    String::from_utf8_lossy(bytes.as_slice()).into_owned()
}

/// Relies on `String::from_utf16_lossy`, which never fails: the text depends
/// on the code units alone.
#[verifier::external_body]
pub(crate) fn decode_utf16_lossy(units: &Vec<u16>) -> (r: String)
    ensures
        r@ == utf16_lossy(units@),
{
    String::from_utf16_lossy(units.as_slice())
}

/// Relies on `str::trim`: the result depends on the characters alone.
#[verifier::external_body]
pub(crate) fn trim_text(s: &str) -> (r: String)
    ensures
        r@ == trimmed(s@),
{
    s.trim().to_string()
}

/// `i` is the position of the first `"` in `s`.
pub open spec fn is_first_quote(s: Seq<char>, i: int) -> bool {
    &&& 0 <= i < s.len()
    &&& s[i] == '"'
    &&& forall|k: int| 0 <= k < i ==> s[k] != '"'
}

/// `j` is the position of the last `"` in `s`.
pub open spec fn is_last_quote(s: Seq<char>, j: int) -> bool {
    &&& 0 <= j < s.len()
    &&& s[j] == '"'
    &&& forall|k: int| j < k < s.len() ==> s[k] != '"'
}

/// `s` holds at least two `"` characters.
pub open spec fn has_two_quotes(s: Seq<char>) -> bool {
    exists|i: int, j: int| 0 <= i < j < s.len() && s[i] == '"' && s[j] == '"'
}

/// The text strictly between the first and the last `"` of `s`, or `None`
/// where `s` holds fewer than two of them.
pub open spec fn between_outer_quotes(s: Seq<char>) -> Option<Seq<char>> {
    if has_two_quotes(s) {
        let i = choose|i: int| is_first_quote(s, i);
        let j = choose|j: int| is_last_quote(s, j);
        Some(s.subrange(i + 1, j))
    } else {
        None
    }
}

/// Extracts the text between the first and the last `"` of `raw`, as in the
/// `WM_NAME(STRING) = "Title"` lines that X11 property tools print.
pub fn quoted_span(raw: &str) -> (r: Option<String>)
    ensures
        match r {
            Some(t) => between_outer_quotes(raw@) == Some(t@),
            None => between_outer_quotes(raw@).is_none(),
        },
{
    let ghost s = raw@;
    let n = raw.unicode_len();
    let mut first: usize = 0;
    while first < n && raw.get_char(first) != '"'
        invariant
            s == raw@,
            n == s.len(),
            first <= n,
            forall|k: int| 0 <= k < first ==> s[k] != '"',
        decreases n - first,
    {
        first = first + 1;
    }
    if first == n {
        assert(!has_two_quotes(s));
        return None;
    }
    let mut last: usize = n - 1;
    while last > first && raw.get_char(last) != '"'
        invariant
            s == raw@,
            n == s.len(),
            first < n,
            first <= last < n,
            s[first as int] == '"',
            forall|k: int| last < k < n ==> s[k] != '"',
        decreases last,
    {
        last = last - 1;
    }
    assert(is_first_quote(s, first as int));
    if last == first {
        assert forall|i: int, j: int| 0 <= i < j < s.len() && s[i] == '"' implies s[j] != '"' by {
            assert(i >= first);
        }
        return None;
    }
    assert(is_last_quote(s, last as int));
    assert(has_two_quotes(s));
    let ghost ci = choose|i: int| is_first_quote(s, i);
    let ghost cj = choose|j: int| is_last_quote(s, j);
    assert(ci == first as int) by {
        if ci < first as int {
        } else if ci > first as int {
        }
    }
    assert(cj == last as int) by {
        if cj < last as int {
        } else if cj > last as int {
        }
    }
    let inner = raw.substring_char(first + 1, last);
    Some(String::from_str(inner))
}

/// Text of the form `p"t"q`, with no quote in `p` or `q`, has `t` between its
/// outer quotes, whatever `t` holds.
pub proof fn framed_text_between_outer_quotes(p: Seq<char>, t: Seq<char>, q: Seq<char>)
    requires
        forall|k: int| 0 <= k < p.len() ==> p[k] != '"',
        forall|k: int| 0 <= k < q.len() ==> q[k] != '"',
    ensures
        between_outer_quotes(p + seq!['"'] + t + seq!['"'] + q) == Some(t),
{
    let s = p + seq!['"'] + t + seq!['"'] + q;
    let i = p.len() as int;
    let j = (p.len() + 1 + t.len()) as int;
    assert(s[i] == '"');
    assert(s[j] == '"');
    assert forall|k: int| 0 <= k < i implies s[k] != '"' by {
        assert(s[k] == p[k]);
    }
    assert forall|k: int| j < k < s.len() implies s[k] != '"' by {
        assert(s[k] == q[k - j - 1]);
    }
    assert(is_first_quote(s, i));
    assert(is_last_quote(s, j));
    assert(has_two_quotes(s));
    let ci = choose|x: int| is_first_quote(s, x);
    let cj = choose|y: int| is_last_quote(s, y);
    assert(ci == i) by {
        if ci < i {
        } else if ci > i {
        }
    }
    assert(cj == j) by {
        if cj < j {
        } else if cj > j {
        }
    }
    assert(s.subrange(i + 1, j) =~= t);
}

/// Text without a quote character has nothing between outer quotes.
pub proof fn unquoted_text_has_no_span(s: Seq<char>)
    requires
        forall|k: int| 0 <= k < s.len() ==> s[k] != '"',
    ensures
        between_outer_quotes(s).is_none(),
{
}

/// `prefix` followed by `detail`: the shape of every failure message.
pub(crate) fn prefixed_message(prefix: &str, detail: &str) -> (r: String)
    ensures
        r@ == prefix@ + detail@,
{
    let mut m = String::from_str(prefix);
    m.append(detail);
    m
}

} // verus!
