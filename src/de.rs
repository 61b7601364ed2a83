//! Tolerant numeric decoding: numeric fields arrive either as JSON numbers or
//! as numeral strings. Floating-point values are handled here as their IEEE 754
//! binary64 bit patterns, so that non-finite results can be rejected exactly.
use vstd::prelude::*;

verus! {

/// Why a numeric field could not be decoded.
#[derive(Debug, Clone, Copy, PartialEq, Eq, Structural)]
pub enum DecodeError {
    /// The string held nothing but whitespace.
    EmptyString,
    /// The string is not a floating-point literal.
    InvalidNumeral,
    /// The value is NaN or an infinity.
    NonFinite,
}

/// ASCII whitespace: space, tab, line feed, form feed, carriage return.
pub open spec fn is_ws(c: char) -> bool {
    c == ' ' || c == '\t' || c == '\n' || c == '\u{c}' || c == '\r'
}

pub open spec fn all_ws(s: Seq<char>) -> bool {
    forall|i: int| 0 <= i < s.len() ==> is_ws(#[trigger] s[i])
}

/// `s` without its leading whitespace.
pub open spec fn trim_start(s: Seq<char>) -> Seq<char>
    decreases s.len(),
{
    if s.len() > 0 && is_ws(s[0]) {
        trim_start(s.drop_first())
    } else {
        s
    }
}

/// `s` without its trailing whitespace.
pub open spec fn trim_end(s: Seq<char>) -> Seq<char>
    decreases s.len(),
{
    if s.len() > 0 && is_ws(s.last()) {
        trim_end(s.drop_last())
    } else {
        s
    }
}

/// `s` without surrounding whitespace.
pub open spec fn trimmed(s: Seq<char>) -> Seq<char> {
    trim_end(trim_start(s))
}

/// The exponent field of a binary64 bit pattern is all ones exactly for NaN
/// and the two infinities.
pub open spec fn finite_bits(bits: u64) -> bool {
    (bits >> 52u64) & 0x7ffu64 != 0x7ffu64
}

fn is_ws_char(c: char) -> (r: bool)
    ensures
        r == is_ws(c),
{
    c == ' ' || c == '\t' || c == '\n' || c == '\u{c}' || c == '\r'
}

/// Strips ASCII whitespace from both ends of `s`.
pub fn trim_ws(s: &str) -> (r: &str)
    ensures
        r@ == trimmed(s@),
{
    let len = s.unicode_len();
    let mut start: usize = 0;
    assert(s@.subrange(0, len as int) =~= s@);
    while start < len && is_ws_char(s.get_char(start))
        invariant
            len == s@.len(),
            start <= len,
            trim_start(s@.subrange(start as int, len as int)) == trim_start(s@),
        decreases len - start,
    {
        assert(s@.subrange(start as int, len as int).drop_first() =~= s@.subrange(
            start + 1,
            len as int,
        ));
        start = start + 1;
    }
    assert(trim_start(s@) == s@.subrange(start as int, len as int));
    let mut end: usize = len;
    while start < end && is_ws_char(s.get_char(end - 1))
        invariant
            len == s@.len(),
            start <= end <= len,
            trim_end(s@.subrange(start as int, end as int)) == trimmed(s@),
        decreases end - start,
    {
        assert(s@.subrange(start as int, end as int).drop_last() =~= s@.subrange(
            start as int,
            end - 1,
        ));
        end = end - 1;
    }
    s.substring_char(start, end)
}

/// Whether a binary64 bit pattern is a finite value.
pub fn is_finite_bits(bits: u64) -> (r: bool)
    ensures
        r == finite_bits(bits),
{
    (bits >> 52u64) & 0x7ffu64 != 0x7ffu64
}

/// Accepts a decoded value only when it is finite.
pub fn ok_finite(bits: u64) -> (r: Result<u64, DecodeError>)
    ensures
        r == (if finite_bits(bits) {
            Ok::<u64, DecodeError>(bits)
        } else {
            Err::<u64, DecodeError>(DecodeError::NonFinite)
        }),
{
    if is_finite_bits(bits) {
        Ok(bits)
    } else {
        Err(DecodeError::NonFinite)
    }
}

/// First step of decoding a numeral string: the text to hand to a float
/// parser, which is `s` without surrounding whitespace, or an error where
/// nothing is left.
pub fn numeral_text(s: &str) -> (r: Result<&str, DecodeError>)
    ensures
        trimmed(s@).len() == 0 ==> r == Err::<&str, DecodeError>(DecodeError::EmptyString),
        trimmed(s@).len() > 0 ==> r is Ok && r->Ok_0@ == trimmed(s@),
{
    let t = trim_ws(s);
    if t.is_empty() {
        Err(DecodeError::EmptyString)
    } else {
        Ok(t)
    }
}

/// Second step of decoding a numeral string: the parser's answer (the bit
/// pattern it read, or `None` when the text is no float literal) becomes the
/// field's value, which is never NaN nor infinite.
pub fn parsed_numeral(parsed: Option<u64>) -> (r: Result<u64, DecodeError>)
    ensures
        r == (match parsed {
            None => Err::<u64, DecodeError>(DecodeError::InvalidNumeral),
            Some(bits) => if finite_bits(bits) {
                Ok::<u64, DecodeError>(bits)
            } else {
                Err::<u64, DecodeError>(DecodeError::NonFinite)
            },
        }),
{
    match parsed {
        None => Err(DecodeError::InvalidNumeral),
        Some(bits) => ok_finite(bits),
    }
}

proof fn lemma_trim_start_ws_prefix(w: Seq<char>, x: Seq<char>)
    requires
        all_ws(w),
    ensures
        trim_start(w + x) == trim_start(x),
    decreases w.len(),
{
    if w.len() > 0 {
        assert((w + x)[0] == w[0]);
        assert((w + x).drop_first() =~= w.drop_first() + x);
        lemma_trim_start_ws_prefix(w.drop_first(), x);
    } else {
        assert(w + x =~= x);
    }
}

proof fn lemma_trim_end_ws_suffix(x: Seq<char>, w: Seq<char>)
    requires
        all_ws(w),
    ensures
        trim_end(x + w) == trim_end(x),
    decreases w.len(),
{
    if w.len() > 0 {
        assert((x + w).last() == w.last());
        assert((x + w).drop_last() =~= x + w.drop_last());
        lemma_trim_end_ws_suffix(x, w.drop_last());
    } else {
        assert(x + w =~= x);
    }
}

/// A numeral decodes the same with or without surrounding whitespace: for a
/// text `s` that has none of its own, padding it on either side with any
/// whitespace leaves what is handed to the float parser unchanged.
pub proof fn lemma_numeral_ignores_padding(pre: Seq<char>, s: Seq<char>, post: Seq<char>)
    requires
        all_ws(pre),
        all_ws(post),
        trimmed(s) == s,
    ensures
        trimmed(pre + s + post) == trimmed(s),
{
    lemma_trim_start_ws_prefix(pre, s + post);
    assert(pre + s + post =~= pre + (s + post));
    if s.len() == 0 {
        assert(s + post =~= post);
        lemma_trim_start_ws_prefix(post, Seq::<char>::empty());
        assert(post + Seq::<char>::empty() =~= post);
    } else {
        if is_ws(s[0]) {
            assert(trim_start(s) == trim_start(s.drop_first()));
            lemma_trim_start_len(s.drop_first());
            lemma_trim_end_len(trim_start(s));
        }
        assert((s + post)[0] == s[0]);
        assert(trim_start(s + post) == s + post);
        lemma_trim_end_ws_suffix(s, post);
        assert(trim_start(s) == s);
    }
}

proof fn lemma_trim_start_len(s: Seq<char>)
    ensures
        trim_start(s).len() <= s.len(),
    decreases s.len(),
{
    if s.len() > 0 && is_ws(s[0]) {
        lemma_trim_start_len(s.drop_first());
    }
}

proof fn lemma_trim_end_len(s: Seq<char>)
    ensures
        trim_end(s).len() <= s.len(),
    decreases s.len(),
{
    if s.len() > 0 && is_ws(s.last()) {
        lemma_trim_end_len(s.drop_last());
    }
}

} // verus!
