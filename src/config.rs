//! Relying Party configuration: the origin, the RP ID derived from it, and
//! the policies that validation applies.

use crate::rp::RelyingParty;
use vstd::prelude::*;
use vstd::string::StrSliceExecFns;

verus! {

/// Whether `s` holds the separator `://` at `i`.
pub open spec fn separator_at(s: Seq<char>, i: int) -> bool {
    0 <= i && i + 3 <= s.len() && s[i] == ':' && s[i + 1] == '/' && s[i + 2] == '/'
}

/// Where the host starts: just past the first `://` at or after `i`, or 0
/// where there is none.
pub open spec fn host_start_from(s: Seq<char>, i: nat) -> int
    decreases s.len() - i,
{
    if i + 3 > s.len() {
        0
    } else if separator_at(s, i as int) {
        i + 3 as int
    } else {
        host_start_from(s, i + 1)
    }
}

/// The index of the first `/` of `s` at or after `i`, or its length.
pub open spec fn first_slash_from(s: Seq<char>, i: nat) -> int
    decreases s.len() - i,
{
    if i >= s.len() {
        s.len() as int
    } else if s[i as int] == '/' {
        i as int
    } else {
        first_slash_from(s, i + 1)
    }
}

/// The RP ID of an origin: what follows the first `://` (or the whole
/// origin, where it has none), up to the first `/` or the end.
pub open spec fn derive_rp_id(origin: Seq<char>) -> Seq<char> {
    let rest = origin.subrange(host_start_from(origin, 0), origin.len() as int);
    rest.subrange(0, first_slash_from(rest, 0))
}

proof fn lemma_host_start_bounds(s: Seq<char>, i: nat)
    ensures
        0 <= host_start_from(s, i) <= s.len(),
    decreases s.len() - i,
{
    if i + 3 <= s.len() && !separator_at(s, i as int) {
        lemma_host_start_bounds(s, i + 1);
    }
}

proof fn lemma_first_slash_bounds(s: Seq<char>, i: nat)
    ensures
        i <= s.len() ==> i <= first_slash_from(s, i) <= s.len(),
        i > s.len() ==> first_slash_from(s, i) == s.len(),
    decreases s.len() - i,
{
    if i < s.len() && s[i as int] != '/' {
        lemma_first_slash_bounds(s, i + 1);
    }
}

/// Where the host of `origin` starts (see `host_start_from`).
fn host_start(origin: &str) -> (r: usize)
    ensures
        r == host_start_from(origin@, 0),
        r <= origin@.len(),
{
    proof {
        lemma_host_start_bounds(origin@, 0);
    }
    let n = origin.unicode_len();
    let mut i: usize = 0;
    while i < n && n - i >= 3
        invariant
            n == origin@.len(),
            i <= n,
            host_start_from(origin@, 0) == host_start_from(origin@, i as nat),
        decreases n - i,
    {
        if origin.get_char(i) == ':' && origin.get_char(i + 1) == '/' && origin.get_char(i + 2) == '/' {
            return i + 3;
        }
        i = i + 1;
    }
    0
}

/// The RP ID derived from `origin` (see `derive_rp_id`).
pub fn derive(origin: &str) -> (r: String)
    ensures
        r@ == derive_rp_id(origin@),
{
    let n = origin.unicode_len();
    let start = host_start(origin);
    let rest = origin.substring_char(start, n);
    let mut end: usize = 0;
    while end < n - start && rest.get_char(end) != '/'
        invariant
            n == origin@.len(),
            start <= n,
            rest@ == origin@.subrange(start as int, n as int),
            end <= n - start,
            first_slash_from(rest@, 0) == first_slash_from(rest@, end as nat),
        decreases n - start - end,
    {
        end = end + 1;
    }
    proof {
        lemma_first_slash_bounds(rest@, 0);
    }
    rest.substring_char(0, end).to_string()
}

/// How strongly user verification is asked for.
#[derive(Clone, Copy, Debug, PartialEq, Eq, Structural)]
pub enum UserVerification {
    /// Fails unless the response has the UV flag set.
    Required,
    /// Asked for, but a response without the UV flag is accepted.
    Preferred,
    /// Not asked for.
    Discouraged,
}

/// The server ("Relying Party") settings that validation checks against.
#[derive(Clone, Debug)]
pub struct WebAuthnConfig {
    /// The full origin (scheme, host, port) of the server.
    pub rp_origin: String,
    /// The RP ID, the domain that credentials are scoped to.
    pub rp_id: String,
    /// The user verification policy.
    pub user_verification: UserVerification,
    /// Whether client data with `crossOrigin` true is accepted.
    pub allow_cross_origin: bool,
}

impl WebAuthnConfig {
    /// A configuration for `origin`, with the RP ID derived from it, user
    /// verification preferred and cross-origin responses refused.
    pub fn new(origin: &str) -> (r: WebAuthnConfig)
        ensures
            r.rp_origin@ == origin@,
            r.rp_id@ == derive_rp_id(origin@),
            r.user_verification == UserVerification::Preferred,
            !r.allow_cross_origin,
    {
        let id = derive(origin);
        WebAuthnConfig {
            rp_origin: origin.to_string(),
            rp_id: id,
            user_verification: UserVerification::Preferred,
            allow_cross_origin: false,
        }
    }

    /// Sets the RP ID explicitly, in place of the derived one.
    pub fn set_id(&mut self, id: &str) -> (r: &mut Self)
        ensures
            r.rp_id@ == id@,
            r.rp_origin == old(self).rp_origin,
            r.user_verification == old(self).user_verification,
            r.allow_cross_origin == old(self).allow_cross_origin,
            *final(self) == *final(r),
    {
        self.rp_id = id.to_string();
        self
    }

    /// The origin.
    pub fn origin(&self) -> (r: &str)
        ensures
            r@ == self.rp_origin@,
    {
        self.rp_origin.as_str()
    }

    /// The RP ID.
    pub fn id(&self) -> (r: &str)
        ensures
            r@ == self.rp_id@,
    {
        self.rp_id.as_str()
    }

    /// The Relying Party that requests made with this configuration name:
    /// an empty name and this configuration's RP ID.
    pub fn as_relying_party(&self) -> (r: RelyingParty)
        ensures
            r.name@ == Seq::<char>::empty(),
            r.id matches Some(id) && id@ == self.rp_id@,
    {
        RelyingParty::builder(self).finish()
    }
}

} // verus!
