//! The persisted credentials record and its format.
//!
//! A successful login persists the credentials as one structured-text record,
//! `{"identifier":"..","secret":".."}`.  The record is written and read back
//! by this module alone; the file system only ever sees the rendered string.
//! Parsing is total: a record that does not come from [`encode_credentials`]
//! on well-formed credentials is rejected, never misread.

use vstd::prelude::*;
use crate::credentials::{Credentials, CredentialsView};

verus! {

/// Failure of the persisted record: it exists but cannot be parsed.
/// Callers treat this as "no usable credentials", not as a fatal error.
#[derive(Clone, Copy, PartialEq, Eq, Structural, Debug)]
pub enum ConfigError {
    CorruptConfig,
}

/// A character that may stand unescaped inside a quoted field of the record.
pub open spec fn char_ok(c: char) -> bool {
    c != '"' && c != '\\' && c as u32 >= 32
}

/// Every character of the field may stand unescaped in the record.
pub open spec fn field_wf(s: Seq<char>) -> bool {
    forall|i: int| 0 <= i < s.len() ==> char_ok(#[trigger] s[i])
}

/// Well-formed credentials: both fields can be carried by the record format.
pub open spec fn cred_wf(c: CredentialsView) -> bool {
    field_wf(c.identifier) && field_wf(c.secret)
}

/// The opening of the record, up to and including the quote that starts the
/// identifier field.
pub open spec fn head_part() -> Seq<char> {
    seq!['{', '"', 'i', 'd', 'e', 'n', 't', 'i', 'f', 'i', 'e', 'r', '"', ':', '"']
}

/// The middle of the record: closes the identifier field and opens the secret
/// field.
pub open spec fn mid_part() -> Seq<char> {
    seq!['"', ',', '"', 's', 'e', 'c', 'r', 'e', 't', '"', ':', '"']
}

/// The end of the record: closes the secret field and the object.
pub open spec fn tail_part() -> Seq<char> {
    seq!['"', '}']
}

/// The rendered record for credentials `c`.
pub open spec fn spec_encode(c: CredentialsView) -> Seq<char> {
    head_part() + c.identifier + mid_part() + c.secret + tail_part()
}

/// Index of the first double quote of `s` at or after `from`, or `s.len()`
/// if there is none.
pub open spec fn quote_pos(s: Seq<char>, from: int) -> int
    recommends
        0 <= from,
    decreases s.len() - from,
{
    if from >= s.len() {
        s.len() as int
    } else if s[from] == '"' {
        from
    } else {
        quote_pos(s, from + 1)
    }
}

/// The meaning of a persisted record: the credentials it denotes, or nothing
/// if it is not a record that [`spec_encode`] produces on well-formed
/// credentials.
pub open spec fn spec_parse(s: Seq<char>) -> Option<CredentialsView> {
    let q1 = quote_pos(s, 15);
    let q2 = quote_pos(s, q1 + 12);
    if s.len() < 15 || s.subrange(0, 15) != head_part() {
        None
    } else if q1 == s.len() {
        None
    } else if q1 + 12 > s.len() || s.subrange(q1, q1 + 12) != mid_part() {
        None
    } else if q2 == s.len() {
        None
    } else if q2 + 2 != s.len() || s[q2 + 1] != '}' {
        None
    } else {
        let c = CredentialsView {
            identifier: s.subrange(15, q1),
            secret: s.subrange(q1 + 12, q2),
        };
        if cred_wf(c) {
            Some(c)
        } else {
            None
        }
    }
}

fn char_allowed(c: char) -> (b: bool)
    ensures
        b == char_ok(c),
{
    c != '"' && c != '\\' && c as u32 >= 32
}

fn field_ok(s: &str) -> (b: bool)
    ensures
        b == field_wf(s@),
{
    let n = s.unicode_len();
    let mut i: usize = 0;
    while i < n
        invariant
            i <= n,
            n == s@.len(),
            forall|j: int| 0 <= j < i ==> char_ok(#[trigger] s@[j]),
        decreases n - i,
    {
        let c = s.get_char(i);
        if !char_allowed(c) {
            return false;
        }
        i += 1;
    }
    true
}

/// Whether `s` holds exactly the characters of `pat` starting at `at`.
fn match_at(s: &str, at: usize, pat: &str) -> (b: bool)
    requires
        at <= s@.len(),
    ensures
        b == (at + pat@.len() <= s@.len() && s@.subrange(
            at as int,
            at + pat@.len(),
        ) == pat@),
{
    let n = s.unicode_len();
    let m = pat.unicode_len();
    if m > n - at {
        return false;
    }
    let mut j: usize = 0;
    while j < m
        invariant
            j <= m,
            at + m <= n,
            n == s@.len(),
            m == pat@.len(),
            forall|k: int| 0 <= k < j ==> s@[at + k] == #[trigger] pat@[k],
        decreases m - j,
    {
        if s.get_char(at + j) != pat.get_char(j) {
            proof {
                assert(s@.subrange(at as int, at + pat@.len())[j as int] == s@[at + j]);
            }
            return false;
        }
        j += 1;
    }
    proof {
        assert(s@.subrange(at as int, at + pat@.len()) =~= pat@);
    }
    true
}

/// Index of the first double quote of `s` at or after `from`, or `s@.len()`
/// if there is none.
fn find_quote(s: &str, from: usize) -> (r: usize)
    requires
        from <= s@.len(),
    ensures
        r == quote_pos(s@, from as int),
        from <= r <= s@.len(),
        r < s@.len() ==> s@[r as int] == '"',
{
    let n = s.unicode_len();
    let mut i: usize = from;
    while i < n
        invariant
            from <= i <= n,
            n == s@.len(),
            quote_pos(s@, from as int) == quote_pos(s@, i as int),
        decreases n - i,
    {
        let c = s.get_char(i);
        if c == '"' {
            return i;
        }
        i += 1;
    }
    i
}

/// Renders credentials as the one persisted record, or nothing where a field
/// holds a character the record format cannot carry.
pub fn encode_credentials(c: &Credentials) -> (r: Option<String>)
    ensures
        r is Some <==> cred_wf(c@),
        r matches Some(s) ==> s@ == spec_encode(c@),
{
    if !field_ok(c.identifier.as_str()) {
        return None;
    }
    if !field_ok(c.secret.as_str()) {
        return None;
    }
    let mut out = String::from_str("{\"identifier\":\"");
    proof {
        reveal_strlit("{\"identifier\":\"");
        assert(out@ =~= head_part());
    }
    out.append(c.identifier.as_str());
    out.append("\",\"secret\":\"");
    proof {
        reveal_strlit("\",\"secret\":\"");
    }
    out.append(c.secret.as_str());
    out.append("\"}");
    proof {
        reveal_strlit("\"}");
        assert(out@ =~= spec_encode(c@));
    }
    Some(out)
}

/// Reads a persisted record back into credentials.  Returns
/// [`ConfigError::CorruptConfig`] exactly on the strings that denote no
/// record.
pub fn parse_credentials(s: &str) -> (r: Result<Credentials, ConfigError>)
    ensures
        match r {
            Ok(c) => spec_parse(s@) == Some(c@),
            Err(e) => spec_parse(s@) is None && e == ConfigError::CorruptConfig,
        },
{
    let n = s.unicode_len();
    proof {
        reveal_strlit("{\"identifier\":\"");
        reveal_strlit("\",\"secret\":\"");
        assert("{\"identifier\":\""@ =~= head_part());
        assert("\",\"secret\":\""@ =~= mid_part());
    }
    if !match_at(s, 0, "{\"identifier\":\"") {
        return Err(ConfigError::CorruptConfig);
    }
    let q1 = find_quote(s, 15);
    if q1 == n {
        return Err(ConfigError::CorruptConfig);
    }
    if !match_at(s, q1, "\",\"secret\":\"") {
        return Err(ConfigError::CorruptConfig);
    }
    let q2 = find_quote(s, q1 + 12);
    if q2 == n {
        return Err(ConfigError::CorruptConfig);
    }
    if n - q2 != 2 {
        return Err(ConfigError::CorruptConfig);
    }
    let close = s.get_char(q2 + 1);
    if close != '}' {
        return Err(ConfigError::CorruptConfig);
    }
    let id_part = s.substring_char(15, q1);
    let sec_part = s.substring_char(q1 + 12, q2);
    if !field_ok(id_part) {
        return Err(ConfigError::CorruptConfig);
    }
    if !field_ok(sec_part) {
        return Err(ConfigError::CorruptConfig);
    }
    let c = Credentials::new(String::from_str(id_part), String::from_str(sec_part));
    proof {
        assert(spec_parse(s@) == Some(c@));
    }
    Ok(c)
}

/// The first quote at or after `from` lies between `from` and the end, and
/// is a quote when it lies within the sequence.
proof fn lemma_quote_pos_bounds(s: Seq<char>, from: int)
    requires
        0 <= from <= s.len(),
    ensures
        from <= quote_pos(s, from) <= s.len(),
        quote_pos(s, from) < s.len() ==> s[quote_pos(s, from)] == '"',
    decreases s.len() - from,
{
    if from < s.len() && s[from] != '"' {
        lemma_quote_pos_bounds(s, from + 1);
    }
}

/// Index of the first quote is `k` when nothing before `k` is a quote.
proof fn lemma_quote_pos_found(s: Seq<char>, from: int, k: int)
    requires
        0 <= from <= k < s.len(),
        s[k] == '"',
        forall|j: int| from <= j < k ==> s[j] != '"',
    ensures
        quote_pos(s, from) == k,
    decreases k - from,
{
    if from < k {
        lemma_quote_pos_found(s, from + 1, k);
    }
}

/// Saving then loading gives the credentials back: for any well-formed
/// credentials `c`, the rendered record parses to exactly `c`.
pub proof fn lemma_record_round_trip(c: CredentialsView)
    requires
        cred_wf(c),
    ensures
        spec_parse(spec_encode(c)) == Some(c),
{
    let s = spec_encode(c);
    let ni = c.identifier.len() as int;
    let ns = c.secret.len() as int;
    assert(s.len() == 29 + ni + ns);
    assert(s.subrange(0, 15) =~= head_part());
    assert forall|j: int| 15 <= j < 15 + ni implies s[j] != '"' by {
        assert(s[j] == c.identifier[j - 15]);
        assert(char_ok(c.identifier[j - 15]));
    }
    assert(s[15 + ni] == mid_part()[0]);
    lemma_quote_pos_found(s, 15, 15 + ni);
    let q1 = 15 + ni;
    assert(s.subrange(q1, q1 + 12) =~= mid_part());
    assert forall|j: int| q1 + 12 <= j < q1 + 12 + ns implies s[j] != '"' by {
        assert(s[j] == c.secret[j - (q1 + 12)]);
        assert(char_ok(c.secret[j - (q1 + 12)]));
    }
    assert(s[q1 + 12 + ns] == tail_part()[0]);
    lemma_quote_pos_found(s, q1 + 12, q1 + 12 + ns);
    let q2 = q1 + 12 + ns;
    assert(s[q2 + 1] == tail_part()[1]);
    assert(s.subrange(15, q1) =~= c.identifier);
    assert(s.subrange(q1 + 12, q2) =~= c.secret);
    assert(spec_parse(s) == Some(c));
}

/// Only genuine records parse: whatever string reads back as credentials
/// `c` is, character for character, the rendered record of `c`, and `c` is
/// well-formed.  In particular a half-written record — any string that is
/// not exactly a rendering — never reads back as valid.
pub proof fn lemma_only_records_parse(s: Seq<char>, c: CredentialsView)
    requires
        spec_parse(s) == Some(c),
    ensures
        cred_wf(c),
        s == spec_encode(c),
{
    let q1 = quote_pos(s, 15);
    let q2 = quote_pos(s, q1 + 12);
    lemma_quote_pos_bounds(s, 15);
    lemma_quote_pos_bounds(s, q1 + 12);
    assert(s.subrange(q2, q2 + 2) =~= tail_part());
    assert forall|i: int| 0 <= i < s.len() implies s[i] == spec_encode(c)[i] by {
        if i < 15 {
            assert(s[i] == s.subrange(0, 15)[i]);
        } else if i < q1 {
            assert(s[i] == s.subrange(15, q1)[i - 15]);
        } else if i < q1 + 12 {
            assert(s[i] == s.subrange(q1, q1 + 12)[i - q1]);
        } else if i < q2 {
            assert(s[i] == s.subrange(q1 + 12, q2)[i - (q1 + 12)]);
        } else {
            assert(s[i] == s.subrange(q2, q2 + 2)[i - q2]);
        }
    }
    assert(s =~= spec_encode(c));
}

} // verus!
