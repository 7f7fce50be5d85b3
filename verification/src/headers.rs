//! Header assembly: the authorization and content-type defaults, with
//! caller-supplied entries applied after them so callers may override.

use vstd::prelude::*;
use vstd::string::StringExecFns;

use crate::verb::eq_fold;
use crate::verb::upper_seq;

verus! {

/// The view of a header list: each entry as a pair of character sequences.
pub open spec fn header_views(hs: Seq<(String, String)>) -> Seq<(Seq<char>, Seq<char>)> {
    hs.map_values(|p: (String, String)| (p.0@, p.1@))
}

/// Whether some entry's name equals `name` up to ASCII case, as header
/// names compare in HTTP.
pub open spec fn has_header_key(hs: Seq<(Seq<char>, Seq<char>)>, name: Seq<char>) -> bool {
    exists|i: int| 0 <= i < hs.len() && upper_seq(hs[i].0) == upper_seq(name)
}

/// The default entries placed before the caller's: an `Authorization`
/// entry carrying the token and a JSON `Content-Type`, each only when the
/// caller did not supply that name itself.
pub open spec fn default_headers(token: Seq<char>, caller: Seq<(Seq<char>, Seq<char>)>) -> Seq<
    (Seq<char>, Seq<char>),
> {
    (if has_header_key(caller, "Authorization"@) {
        Seq::<(Seq<char>, Seq<char>)>::empty()
    } else {
        seq![("Authorization"@, token)]
    }) + (if has_header_key(caller, "Content-Type"@) {
        Seq::<(Seq<char>, Seq<char>)>::empty()
    } else {
        seq![("Content-Type"@, "application/json"@)]
    })
}

/// The full header list of a dispatch: the defaults, then every caller
/// entry in its given order.
pub open spec fn merged_headers(token: Seq<char>, caller: Seq<(Seq<char>, Seq<char>)>) -> Seq<
    (Seq<char>, Seq<char>),
> {
    default_headers(token, caller) + caller
}

/// Whether the list holds an entry named `name`, up to ASCII case.
fn contains_key(hs: &Vec<(String, String)>, name: &str) -> (r: bool)
    ensures
        r == has_header_key(header_views(hs@), name@),
{
    let n = hs.len();
    let mut i: usize = 0;
    while i < n
        invariant
            i <= n,
            n == hs@.len(),
            forall|j: int| 0 <= j < i ==> upper_seq(header_views(hs@)[j].0) != upper_seq(name@),
        decreases n - i,
    {
        if eq_fold(hs[i].0.as_str(), name) {
            proof {
                assert(upper_seq(header_views(hs@)[i as int].0) == upper_seq(name@));
            }
            return true;
        }
        i = i + 1;
    }
    false
}

/// Builds the header list of a dispatch: `Authorization` with the current
/// token and a JSON `Content-Type` first, then the caller's entries in
/// order; a caller entry with either default's name replaces that default.
pub fn merge_headers(token: &String, caller: &Vec<(String, String)>) -> (r: Vec<(String, String)>)
    ensures
        header_views(r@) == merged_headers(token@, header_views(caller@)),
{
    let ghost caller_v = header_views(caller@);
    let mut out: Vec<(String, String)> = Vec::new();
    if !contains_key(caller, "Authorization") {
        out.push((String::from_str("Authorization"), token.clone()));
    }
    if !contains_key(caller, "Content-Type") {
        out.push((String::from_str("Content-Type"), String::from_str("application/json")));
    }
    proof {
        assert(header_views(out@) =~= default_headers(token@, caller_v));
    }
    let n = caller.len();
    let mut i: usize = 0;
    while i < n
        invariant
            i <= n,
            n == caller@.len(),
            caller_v == header_views(caller@),
            header_views(out@) =~= default_headers(token@, caller_v) + caller_v.take(i as int),
        decreases n - i,
    {
        let key = caller[i].0.clone();
        let value = caller[i].1.clone();
        let ghost pre = out@;
        out.push((key, value));
        proof {
            assert(out@ == pre.push((key, value)));
            assert(header_views(out@) =~= header_views(pre).push((key@, value@)));
            assert(header_views(pre).push((key@, value@)) == (default_headers(token@, caller_v)
                + caller_v.take(i as int)).push(caller_v[i as int]));
            assert((default_headers(token@, caller_v) + caller_v.take(i as int)).push(
                caller_v[i as int],
            ) =~= default_headers(token@, caller_v) + caller_v.take(i as int + 1));
        }
        i = i + 1;
    }
    proof {
        assert(caller_v.take(n as int) =~= caller_v);
        assert(header_views(out@) =~= merged_headers(token@, caller_v));
    }
    out
}

/// Unless the caller supplied an `Authorization` entry of its own, the
/// merged list leads with one that carries the current token.
pub proof fn lemma_merge_authorization(token: Seq<char>, caller: Seq<(Seq<char>, Seq<char>)>)
    requires
        !has_header_key(caller, "Authorization"@),
    ensures
        merged_headers(token, caller).len() >= 1,
        merged_headers(token, caller)[0] == ("Authorization"@, token),
{
}

} // verus!
