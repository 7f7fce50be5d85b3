//! The closed set of HTTP verbs and case-insensitive verb selection.

use vstd::prelude::*;
use vstd::string::StrSliceExecFns;

use crate::errors::ClientError;

verus! {

/// The verbs a request may be dispatched with.
#[derive(Debug, Clone, Copy, PartialEq, Eq, Structural)]
pub enum Verb {
    Get,
    Post,
    Put,
    Delete,
    Patch,
}

/// ASCII upper-casing of one character; anything outside `a..z` is kept.
pub open spec fn upper_char(c: char) -> char {
    if 'a' <= c && c <= 'z' {
        ((c as u8) - 32) as char
    } else {
        c
    }
}

/// ASCII upper-casing of a character sequence.
pub open spec fn upper_seq(s: Seq<char>) -> Seq<char> {
    s.map_values(|c: char| upper_char(c))
}

/// The verb named by a string, after ASCII case folding; `None` for any
/// text outside the allowed set.
pub open spec fn verb_of(s: Seq<char>) -> Option<Verb> {
    let u = upper_seq(s);
    if u == "GET"@ {
        Some(Verb::Get)
    } else if u == "POST"@ {
        Some(Verb::Post)
    } else if u == "PUT"@ {
        Some(Verb::Put)
    } else if u == "DELETE"@ {
        Some(Verb::Delete)
    } else if u == "PATCH"@ {
        Some(Verb::Patch)
    } else {
        None
    }
}

pub(crate) fn upper_char_exec(c: char) -> (r: char)
    ensures
        r == upper_char(c),
{
    if 'a' <= c && c <= 'z' {
        ((c as u8) - 32) as char
    } else {
        c
    }
}

/// Whether `a` and `b` spell the same text up to ASCII case.
pub(crate) fn eq_fold(a: &str, b: &str) -> (r: bool)
    ensures
        r == (upper_seq(a@) == upper_seq(b@)),
{
    let n = a.unicode_len();
    let m = b.unicode_len();
    if n != m {
        proof {
            if upper_seq(a@) == upper_seq(b@) {
                assert(upper_seq(a@).len() == upper_seq(b@).len());
                assert(false);
            }
        }
        return false;
    }
    let mut i: usize = 0;
    while i < n
        invariant
            i <= n,
            n == a@.len(),
            n == b@.len(),
            forall|j: int| 0 <= j < i ==> upper_seq(a@)[j] == upper_seq(b@)[j],
        decreases n - i,
    {
        let c = upper_char_exec(a.get_char(i));
        let d = upper_char_exec(b.get_char(i));
        if c != d {
            proof {
                if upper_seq(a@) == upper_seq(b@) {
                    assert(upper_seq(a@)[i as int] == upper_seq(b@)[i as int]);
                    assert(false);
                }
            }
            return false;
        }
        i = i + 1;
    }
    proof {
        assert(upper_seq(a@) =~= upper_seq(b@));
    }
    true
}

/// Selects the verb named by `method`, folding ASCII case, and reports
/// `UnsupportedVerb` for any text outside the allowed set.
pub fn parse_verb(method: &str) -> (r: Result<Verb, ClientError>)
    ensures
        match r {
            Ok(v) => verb_of(method@) == Some(v),
            Err(e) => verb_of(method@) is None && (e matches ClientError::UnsupportedVerb(m)
                && m@ == method@),
        },
{
    proof {
        reveal_strlit("GET");
        reveal_strlit("POST");
        reveal_strlit("PUT");
        reveal_strlit("DELETE");
        reveal_strlit("PATCH");
        assert(upper_seq("GET"@) =~= "GET"@);
        assert(upper_seq("POST"@) =~= "POST"@);
        assert(upper_seq("PUT"@) =~= "PUT"@);
        assert(upper_seq("DELETE"@) =~= "DELETE"@);
        assert(upper_seq("PATCH"@) =~= "PATCH"@);
    }
    if eq_fold(method, "GET") {
        Ok(Verb::Get)
    } else if eq_fold(method, "POST") {
        Ok(Verb::Post)
    } else if eq_fold(method, "PUT") {
        Ok(Verb::Put)
    } else if eq_fold(method, "DELETE") {
        Ok(Verb::Delete)
    } else if eq_fold(method, "PATCH") {
        Ok(Verb::Patch)
    } else {
        Err(ClientError::UnsupportedVerb(method.to_owned()))
    }
}

impl Verb {
    /// Whether a dispatch with this verb carries a request body: every verb
    /// but `Get` does.
    pub fn sends_body(&self) -> (r: bool)
        ensures
            r == (*self != Verb::Get),
    {
        match self {
            Verb::Get => false,
            _ => true,
        }
    }
}

/// Verb selection is insensitive to ASCII case: two spellings that fold to
/// the same text select the same verb, or both fail.
pub proof fn lemma_dispatch_case_insensitive(s1: Seq<char>, s2: Seq<char>)
    requires
        upper_seq(s1) == upper_seq(s2),
    ensures
        verb_of(s1) == verb_of(s2),
{
}

} // verus!
