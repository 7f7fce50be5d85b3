//! The client: configuration resolution, the credential store, URL and
//! query assembly, and preparation of a dispatch.

use vstd::prelude::*;
use vstd::string::StrSliceExecFns;
use vstd::string::StringExecFns;

use crate::encode::append_encoded;
use crate::encode::pct_encoded;
use crate::errors::ClientError;
use crate::headers::header_views;
use crate::headers::merge_headers;
use crate::headers::merged_headers;
use crate::params::ParamsValueType;
use crate::verb::Verb;
use crate::verb::parse_verb;
use crate::verb::verb_of;

verus! {

/// The payload of a successful token exchange: the granted token and its
/// time-to-live in seconds.
#[derive(Debug)]
pub struct TokenData {
    pub access_token: String,
    pub ttl: i32,
}

/// The decoded envelope of a token exchange response.
#[derive(Debug)]
pub struct TokenResponse {
    pub code: i32,
    pub message: String,
    pub data: Option<TokenData>,
}

/// Everything the transport needs to issue one request: the full URL, the
/// selected verb, and the assembled header list.
#[derive(Debug)]
pub struct PreparedRequest {
    pub url: String,
    pub verb: Verb,
    pub headers: Vec<(String, String)>,
}

/// An API client: immutable configuration resolved at construction, and
/// the one mutable credential it manages.
///
/// The token fields are replaced together by `apply_token_response` and
/// should not be written otherwise.
#[derive(Debug)]
pub struct Client {
    pub app_id: String,
    pub app_secret: String,
    pub url: String,
    pub env: String,
    pub expiration: String,
    pub access_token: String,
    pub ttl: i32,
    pub token_time: u64,
}

/// The base address substituted when none is given.
pub open spec fn default_url() -> Seq<char> {
    "https://analytics.volcengineapi.com"@
}

/// The environment segment substituted when none is given.
pub open spec fn default_env() -> Seq<char> {
    "dataopen"@
}

/// The expiration setting substituted when none is given.
pub open spec fn default_expiration() -> Seq<char> {
    "1800"@
}

/// A configuration input resolved against its default: the given text when
/// present and non-empty, the default otherwise.
pub open spec fn resolved_config(given: Option<&str>, default: Seq<char>) -> Seq<char> {
    match given {
        Some(u) => if u@.len() > 0 {
            u@
        } else {
            default
        },
        None => default,
    }
}

/// The query string for a parameter list: each entry as `key=value` with
/// the key and the rendered value percent-encoded, the first entry
/// prefixed with `?`, the rest with `&`.
pub open spec fn query_string(ps: Seq<(String, ParamsValueType)>, first: bool) -> Seq<char>
    decreases ps.len(),
{
    if ps.len() == 0 {
        Seq::empty()
    } else {
        (if first {
            "?"@
        } else {
            "&"@
        }) + pct_encoded(ps[0].0@) + "="@ + pct_encoded(ps[0].1.text_of()) + query_string(
            ps.drop_first(),
            false,
        )
    }
}

fn resolve_config(given: Option<&str>, default: &str) -> (r: String)
    ensures
        r@ == resolved_config(given, default@),
{
    match given {
        Some(u) => if !u.is_empty() {
            u.to_owned()
        } else {
            default.to_owned()
        },
        None => default.to_owned(),
    }
}

/// Relies on `std::time::SystemTime::now`: the wall clock, read as whole
/// seconds since the Unix epoch, or 0 should the clock read earlier than
/// the epoch. Nothing is assumed of the value.
#[verifier::external_body]
fn now_seconds() -> u64 {
    match std::time::SystemTime::now().duration_since(std::time::UNIX_EPOCH) {
        Ok(d) => d.as_secs(),
        Err(_) => 0,
    }
}

impl Client {
    /// Whether a token is cached at all, expired or not.
    pub open spec fn has_token(self) -> bool {
        self.access_token@.len() > 0
    }

    /// Whether the cached credential is valid when the clock reads `now`:
    /// a token is present and no more than `ttl` seconds have passed since
    /// it was issued.
    pub open spec fn valid_at(self, now: int) -> bool {
        self.has_token() && self.ttl >= 0 && now - self.token_time <= self.ttl
    }

    /// Token validity under an explicit ttl override: the override, when
    /// given, takes precedence over the ttl the server granted.
    pub open spec fn valid_at_with_override(self, now: int, ttl_override: Option<i32>) -> bool {
        match ttl_override {
            Some(t) => self.has_token() && t >= 0 && now - self.token_time <= t,
            None => self.valid_at(now),
        }
    }

    /// The client after a successful token exchange: the token replaced as
    /// one, stamped as issued at `now`; configuration untouched.
    pub open spec fn refreshed(self, data: TokenData, now: u64) -> Client {
        Client {
            access_token: data.access_token,
            ttl: data.ttl,
            token_time: now,
            ..self
        }
    }

    /// The address the request URL starts from: base address, environment
    /// segment, the fixed API prefix, then the endpoint path.
    pub open spec fn base_of(self, path: Seq<char>) -> Seq<char> {
        self.url@ + "/"@ + self.env@ + "/open-apis"@ + path
    }

    /// The fixed endpoint of the token exchange.
    pub open spec fn auth_url_of(self) -> Seq<char> {
        self.url@ + "/"@ + self.env@ + "/open-apis"@ + "/v1/authorization"@
    }

    /// Builds a client. Empty or absent base URL, environment and
    /// expiration inputs fall back to their defaults; no token is cached
    /// yet, so the credential is invalid whatever the clock reads.
    pub fn new(
        app_id: &str,
        app_secret: &str,
        url: Option<&str>,
        env: Option<&str>,
        expiration: Option<&str>,
    ) -> (r: Client)
        ensures
            r.app_id@ == app_id@,
            r.app_secret@ == app_secret@,
            r.url@ == resolved_config(url, default_url()),
            r.env@ == resolved_config(env, default_env()),
            r.expiration@ == resolved_config(expiration, default_expiration()),
            !r.has_token(),
            r.access_token@ == Seq::<char>::empty(),
            r.ttl == 0,
            r.token_time == 0,
            forall|now: int| !r.valid_at(now),
    {
        Client {
            app_id: app_id.to_owned(),
            app_secret: app_secret.to_owned(),
            url: resolve_config(url, "https://analytics.volcengineapi.com"),
            env: resolve_config(env, "dataopen"),
            expiration: resolve_config(expiration, "1800"),
            access_token: String::new(),
            ttl: 0,
            token_time: 0,
        }
    }

    /// Whether a token is currently cached; expiry is not checked.
    pub fn is_authenticated(self) -> (r: bool)
        ensures
            r == self.has_token(),
    {
        !self.access_token.as_str().is_empty()
    }

    /// The validity check against an explicit clock reading.
    pub fn valid_token(&self, now: u64) -> (r: bool)
        ensures
            r == self.valid_at(now as int),
    {
        if self.access_token.as_str().is_empty() {
            return false;
        }
        if self.ttl < 0 {
            return false;
        }
        if now <= self.token_time {
            return true;
        }
        now - self.token_time <= self.ttl as u64
    }

    /// The validity check against an explicit clock reading, under an
    /// explicit ttl override.
    pub fn valid_token_with_override(&self, now: u64, ttl_override: Option<i32>) -> (r: bool)
        ensures
            r == self.valid_at_with_override(now as int, ttl_override),
    {
        match ttl_override {
            Some(t) => {
                if self.access_token.as_str().is_empty() {
                    return false;
                }
                if t < 0 {
                    return false;
                }
                if now <= self.token_time {
                    return true;
                }
                now - self.token_time <= t as u64
            },
            None => self.valid_token(now),
        }
    }

    /// The validity check against the system clock. Without a cached token
    /// it is false whatever the clock reads.
    pub fn is_valid(&self) -> (r: bool)
        ensures
            !self.has_token() ==> r == false,
            self.ttl < 0 ==> r == false,
    {
        let now = now_seconds();
        self.valid_token(now)
    }

    /// Replaces the credential from a decoded token exchange response.
    /// Exactly a 200 code with a data payload succeeds and installs the
    /// token, stamped as issued at `now`; any other response changes
    /// nothing and reports the exchange's code and message.
    pub fn apply_token_response(&mut self, resp: TokenResponse, now: u64) -> (r: Result<
        (),
        ClientError,
    >)
        ensures
            r is Ok <==> (resp.code == 200 && resp.data is Some),
            r is Ok ==> (resp.data matches Some(d) && *final(self) == old(self).refreshed(d, now)),
            r is Err ==> *final(self) == *old(self),
            r is Err ==> (r matches Err(e) && e matches ClientError::Auth { code, message }
                && code == resp.code && message@ == resp.message@),
    {
        if resp.code == 200 {
            if let Some(d) = resp.data {
                self.access_token = d.access_token;
                self.ttl = d.ttl;
                self.token_time = now;
                return Ok(());
            }
        }
        Err(ClientError::Auth { code: resp.code, message: resp.message })
    }

    /// Appends the parameter list to `url` as a query string, rendering
    /// each value and percent-encoding keys and values.
    pub fn joint_query(&self, url: &str, params: &Vec<(String, ParamsValueType)>) -> (r: String)
        ensures
            r@ == url@ + query_string(params@, true),
    {
        let mut out = url.to_owned();
        let n = params.len();
        proof {
            assert(params@.skip(0) =~= params@);
        }
        let mut i: usize = 0;
        while i < n
            invariant
                i <= n,
                n == params@.len(),
                out@ + query_string(params@.skip(i as int), i == 0) == url@ + query_string(
                    params@,
                    true,
                ),
            decreases n - i,
        {
            let ghost pre = out@;
            if i == 0 {
                out.append("?");
            } else {
                out.append("&");
            }
            append_encoded(&mut out, params[i].0.as_str());
            out.append("=");
            let t = params[i].1.to_text();
            append_encoded(&mut out, t.as_str());
            proof {
                let tail = params@.skip(i as int);
                assert(tail.drop_first() =~= params@.skip(i as int + 1));
                assert(tail[0] == params@[i as int]);
                assert(out@ + query_string(params@.skip(i as int + 1), false) =~= pre
                    + query_string(tail, i == 0));
            }
            i = i + 1;
        }
        proof {
            assert(params@.skip(n as int) =~= Seq::<(String, ParamsValueType)>::empty());
            assert(out@ + query_string(params@.skip(n as int), n == 0) =~= out@);
        }
        out
    }

    /// Builds the full request URL: base address, environment segment, the
    /// fixed API prefix, the endpoint path, then the query string.
    pub fn build_url(&self, path: &str, params: &Vec<(String, ParamsValueType)>) -> (r: String)
        ensures
            r@ == self.base_of(path@) + query_string(params@, true),
    {
        let mut base = self.url.clone();
        base.append("/");
        base.append(self.env.as_str());
        base.append("/open-apis");
        base.append(path);
        self.joint_query(base.as_str(), params)
    }

    /// The URL the token exchange is posted to.
    pub fn authorization_url(&self) -> (r: String)
        ensures
            r@ == self.auth_url_of(),
    {
        let mut out = self.url.clone();
        out.append("/");
        out.append(self.env.as_str());
        out.append("/open-apis");
        out.append("/v1/authorization");
        out
    }

    /// The body of the token exchange: the client's identity as the two
    /// pairs the authorization endpoint expects.
    pub fn auth_body(&self) -> (r: Vec<(String, String)>)
        ensures
            r@.len() == 2,
            r@[0].0@ == "app_id"@ && r@[0].1@ == self.app_id@,
            r@[1].0@ == "app_secret"@ && r@[1].1@ == self.app_secret@,
    {
        let mut out: Vec<(String, String)> = Vec::new();
        out.push((String::from_str("app_id"), self.app_id.clone()));
        out.push((String::from_str("app_secret"), self.app_secret.clone()));
        out
    }

    /// Prepares one dispatch: selects the verb, folds ASCII case, builds
    /// the URL with its query string, and assembles the headers around the
    /// current token. A verb outside the allowed set prepares nothing and
    /// reports `UnsupportedVerb`.
    pub fn prepare(
        &self,
        path: &str,
        method: &str,
        headers: &Vec<(String, String)>,
        params: &Vec<(String, ParamsValueType)>,
    ) -> (r: Result<PreparedRequest, ClientError>)
        ensures
            r is Ok <==> verb_of(method@) is Some,
            r matches Ok(p) ==> verb_of(method@) == Some(p.verb) && p.url@ == self.base_of(path@)
                + query_string(params@, true) && header_views(p.headers@) == merged_headers(
                self.access_token@,
                header_views(headers@),
            ),
            r matches Err(e) ==> (e matches ClientError::UnsupportedVerb(m) && m@ == method@),
    {
        let verb = match parse_verb(method) {
            Ok(v) => v,
            Err(e) => {
                return Err(e);
            },
        };
        let url = self.build_url(path, params);
        let merged = merge_headers(&self.access_token, headers);
        Ok(PreparedRequest { url, verb, headers: merged })
    }
}

/// After a successful token exchange, the headers of the next dispatch
/// lead with an `Authorization` entry carrying exactly the granted token,
/// unless the caller supplied an authorization of its own.
pub proof fn lemma_fresh_token_is_sent(
    c: Client,
    data: TokenData,
    now: u64,
    caller: Seq<(Seq<char>, Seq<char>)>,
)
    requires
        !crate::headers::has_header_key(caller, "Authorization"@),
    ensures
        merged_headers(c.refreshed(data, now).access_token@, caller)[0] == (
            "Authorization"@,
            data.access_token@,
        ),
{
    crate::headers::lemma_merge_authorization(data.access_token@, caller);
}

/// A client that holds no token is never valid, whatever the clock reads.
pub proof fn lemma_no_token_never_valid(c: Client, now: int)
    requires
        !c.has_token(),
    ensures
        !c.valid_at(now),
{
}

/// Immediately after an exchange that granted a non-empty token with a
/// non-negative ttl, the credential is valid at the moment of issuance;
/// once more than `ttl` seconds have passed since then, it is valid no
/// longer.
pub proof fn lemma_refresh_validity(c: Client, data: TokenData, now: u64, later: int)
    requires
        data.access_token@.len() > 0,
        data.ttl >= 0,
    ensures
        c.refreshed(data, now).valid_at(now as int),
        later - now > data.ttl ==> !c.refreshed(data, now).valid_at(later),
{
}

} // verus!
