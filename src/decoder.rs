use vstd::prelude::*;
use vstd::utf8::{decode_utf8, valid_utf8};

use crate::text::{char_is_white_space, chars_of, is_white_space, string_of, sub_chars, trim_bounds, trimmed};

verus! {

/// What `String::from_utf8_lossy` makes of a byte sequence.
pub uninterp spec fn lossy_text(b: Seq<u8>) -> Seq<char>;

/// Relies on `String::from_utf8_lossy`: invalid sequences become U+FFFD, and
/// valid UTF-8 comes back as the text it encodes.
#[verifier::external_body]
fn decode_lossy(b: &[u8]) -> (r: String)
    ensures
        r@ == lossy_text(b@),
        valid_utf8(b@) ==> r@ == decode_utf8(b@),
{
    String::from_utf8_lossy(b).into_owned()
}

/// The source recorded for a payload that does not have three parts.
pub open spec fn unknown_source() -> Seq<char> {
    seq!['u', 'n', 'k', 'n', 'o', 'w', 'n']
}

/// The severity recorded for a payload that does not have three parts.
pub open spec fn raw_severity() -> Seq<char> {
    seq!['R', 'A', 'W']
}

/// The index of the first white-space character in `u` at or after `from`,
/// or `u.len()` if there is none.
pub open spec fn separator_index(u: Seq<char>, from: int) -> int
    decreases u.len() - from,
{
    if from >= u.len() {
        u.len() as int
    } else if is_white_space(u[from]) {
        from
    } else {
        separator_index(u, from + 1)
    }
}

/// The three fields of a log line, as text.
pub struct LogFields {
    pub source: String,
    pub severity: String,
    pub message: String,
}

impl View for LogFields {
    type V = (Seq<char>, Seq<char>, Seq<char>);

    open spec fn view(&self) -> (Seq<char>, Seq<char>, Seq<char>) {
        (self.source@, self.severity@, self.message@)
    }
}

impl LogFields {
    /// The fields of one entry.
    pub fn new(source: &str, severity: &str, message: &str) -> (r: LogFields)
        ensures
            r@ == (source@, severity@, message@),
    {
        LogFields {
            source: source.to_owned(),
            severity: severity.to_owned(),
            message: message.to_owned(),
        }
    }
}

/// The fields that a text payload decodes to: with white space cut off at both
/// ends, text that holds two white-space characters is split at the first two,
/// the third part keeping any further white space; any other text is the
/// message of an entry from an unknown source with the raw severity.
pub open spec fn fields_of(text: Seq<char>) -> (Seq<char>, Seq<char>, Seq<char>) {
    let u = trimmed(text);
    let i = separator_index(u, 0);
    let j = separator_index(u, i + 1);
    if j < u.len() {
        (u.subrange(0, i), u.subrange(i + 1, j), u.subrange(j + 1, u.len() as int))
    } else {
        (unknown_source(), raw_severity(), u)
    }
}

proof fn lemma_separator_index_bounds(u: Seq<char>, from: int)
    requires
        0 <= from <= u.len(),
    ensures
        from <= separator_index(u, from) <= u.len(),
        separator_index(u, from) < u.len() ==> is_white_space(u[separator_index(u, from)]),
        forall|k: int| from <= k < separator_index(u, from) ==> !is_white_space(u[k]),
    decreases u.len() - from,
{
    if from < u.len() && !is_white_space(u[from]) {
        lemma_separator_index_bounds(u, from + 1);
    }
}

/// The index of the first white-space character in `u` at or after `from`, or `u.len()`.
fn find_separator(u: &Vec<char>, from: usize) -> (r: usize)
    requires
        from <= u.len(),
    ensures
        r == separator_index(u@, from as int),
{
    let mut k: usize = from;
    while k < u.len()
        invariant
            from <= k <= u.len(),
            separator_index(u@, from as int) == separator_index(u@, k as int),
        decreases u.len() - k,
    {
        if char_is_white_space(u[k]) {
            return k;
        }
        k += 1;
    }
    k
}

/// The three fields `s`, `v`, `m` joined by the separators `w1` and `w2`.
pub open spec fn joined(s: Seq<char>, w1: char, v: Seq<char>, w2: char, m: Seq<char>) -> Seq<char> {
    s + seq![w1] + v + seq![w2] + m
}

/// Every text decodes to a well-formed entry: either its trimmed form is the
/// source, a white-space character, the severity, a white-space character and
/// the message, with no white space in source or severity; or the trimmed form
/// holds fewer than two white-space characters and is the message of an entry
/// from an unknown source with the raw severity.
pub proof fn lemma_decode_well_formed(text: Seq<char>)
    ensures
        ({
            let (s, v, m) = fields_of(text);
            let u = trimmed(text);
            ||| {
                &&& is_white_space(u[s.len() as int])
                &&& is_white_space(u[(s.len() + 1 + v.len()) as int])
                &&& u == joined(s, u[s.len() as int], v, u[(s.len() + 1 + v.len()) as int], m)
                &&& forall|k: int| 0 <= k < s.len() ==> !is_white_space(s[k])
                &&& forall|k: int| 0 <= k < v.len() ==> !is_white_space(v[k])
            }
            ||| (s == unknown_source() && v == raw_severity() && m == u && forall|a: int, b: int|
                0 <= a < b < u.len() && is_white_space(u[a]) ==> !is_white_space(u[b]))
        }),
{
    let u = trimmed(text);
    let i = separator_index(u, 0);
    lemma_separator_index_bounds(u, 0);
    if i < u.len() {
        let j = separator_index(u, i + 1);
        lemma_separator_index_bounds(u, i + 1);
        if j < u.len() {
            let s = u.subrange(0, i);
            let v = u.subrange(i + 1, j);
            let m = u.subrange(j + 1, u.len() as int);
            assert(joined(s, u[i], v, u[j], m) =~= u);
            assert forall|k: int| 0 <= k < s.len() implies !is_white_space(s[k]) by {
                assert(s[k] == u[k]);
            }
            assert forall|k: int| 0 <= k < v.len() implies !is_white_space(v[k]) by {
                assert(v[k] == u[i + 1 + k]);
            }
        } else {
            assert forall|a: int, b: int|
                0 <= a < b < u.len() && is_white_space(u[a]) implies !is_white_space(u[b]) by {
                assert(a >= i);
            }
        }
    } else {
        assert forall|a: int, b: int|
            0 <= a < b < u.len() && is_white_space(u[a]) implies !is_white_space(u[b]) by {
            assert(!is_white_space(u[a]));
        }
    }
}

proof fn lemma_separator_at(u: Seq<char>, from: int, e: int)
    requires
        0 <= from <= e < u.len(),
        is_white_space(u[e]),
        forall|k: int| from <= k < e ==> !is_white_space(u[k]),
    ensures
        separator_index(u, from) == e,
    decreases e - from,
{
    if from < e {
        lemma_separator_at(u, from + 1, e);
    }
}

/// A line made of a source and a severity without white space and a message
/// without white space at either end, joined by single spaces, decodes to
/// exactly those three fields: the daemon stores for it the same row as the
/// one-shot writer stores for the three fields.
pub proof fn lemma_line_decodes_to_its_fields(s: Seq<char>, v: Seq<char>, m: Seq<char>)
    requires
        s.len() > 0,
        m.len() > 0,
        forall|k: int| 0 <= k < s.len() ==> !is_white_space(s[k]),
        forall|k: int| 0 <= k < v.len() ==> !is_white_space(v[k]),
        !is_white_space(m[0]),
        !is_white_space(m.last()),
    ensures
        fields_of(joined(s, ' ', v, ' ', m)) == (s, v, m),
{
    let t = joined(s, ' ', v, ' ', m);
    let i = s.len() as int;
    let j = i + 1 + v.len();
    assert(t[0] == s[0]);
    assert(t.last() == m.last());
    assert(trimmed(t) == t);
    assert(t[i] == ' ');
    assert(t[j] == ' ');
    assert forall|k: int| 0 <= k < i implies !is_white_space(t[k]) by {
        assert(t[k] == s[k]);
    }
    assert forall|k: int| i + 1 <= k < j implies !is_white_space(t[k]) by {
        assert(t[k] == v[k - i - 1]);
    }
    lemma_separator_at(t, 0, i);
    lemma_separator_at(t, i + 1, j);
    assert(t.subrange(0, i) =~= s);
    assert(t.subrange(i + 1, j) =~= v);
    assert(t.subrange(j + 1, t.len() as int) =~= m);
}

/// Decodes text into the three fields of a log line; every text has an answer.
pub fn decode_text(text: &str) -> (r: LogFields)
    ensures
        r@ == fields_of(text@),
{
    let all = chars_of(text);
    let (lo, hi) = trim_bounds(&all);
    let u = sub_chars(&all, lo, hi);
    assert(u@ == trimmed(text@));
    let i = find_separator(&u, 0);
    proof {
        lemma_separator_index_bounds(u@, 0);
    }
    if i < u.len() {
        let j = find_separator(&u, i + 1);
        proof {
            lemma_separator_index_bounds(u@, i + 1);
        }
        if j < u.len() {
            let source = string_of(&sub_chars(&u, 0, i));
            let severity = string_of(&sub_chars(&u, i + 1, j));
            let message = string_of(&sub_chars(&u, j + 1, u.len()));
            return LogFields { source, severity, message };
        }
    }
    let source = string_of(&vec!['u', 'n', 'k', 'n', 'o', 'w', 'n']);
    let severity = string_of(&vec!['R', 'A', 'W']);
    let message = string_of(&u);
    proof {
        assert(source@ =~= unknown_source());
        assert(severity@ =~= raw_severity());
    }
    LogFields { source, severity, message }
}

/// Decodes a received payload into the three fields of a log line. The bytes
/// are read as UTF-8, invalid sequences replaced; every payload has an answer.
pub fn decode(payload: &[u8]) -> (r: LogFields)
    ensures
        r@ == fields_of(lossy_text(payload@)),
        valid_utf8(payload@) ==> r@ == fields_of(decode_utf8(payload@)),
{
    let text = decode_lossy(payload);
    decode_text(text.as_str())
}

} // verus!
