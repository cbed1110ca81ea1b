//! The Relying Party as presented to the client.

use crate::config::WebAuthnConfig;
use vstd::prelude::*;

verus! {

/// The Relying Party that a creation request names: the service's display
/// name and, optionally, its RP ID.
#[derive(Clone, Debug)]
pub struct RelyingParty {
    /// The name shown to the user (usually the application or company).
    pub name: String,
    /// The RP ID (usually the domain of the service).
    pub id: Option<String>,
}

impl RelyingParty {
    /// A Relying Party with the given name and no RP ID.
    pub fn new(name: &str) -> (r: RelyingParty)
        ensures
            r.name@ == name@,
            r.id is None,
    {
        RelyingParty { name: name.to_string(), id: None }
    }

    /// A builder that starts from an empty name and the RP ID of `cfg`.
    pub fn builder(cfg: &WebAuthnConfig) -> (r: RelyingPartyBuilder)
        ensures
            r.rp_name@ == Seq::<char>::empty(),
            r.rp_id matches Some(id) && id@ == cfg.rp_id@,
    {
        RelyingPartyBuilder::new(cfg)
    }
}

/// Assembles a `RelyingParty`.
#[derive(Clone, Debug)]
pub struct RelyingPartyBuilder {
    pub rp_name: String,
    pub rp_id: Option<String>,
}

impl RelyingPartyBuilder {
    /// A builder that starts from an empty name and the RP ID of `cfg`.
    pub fn new(cfg: &WebAuthnConfig) -> (r: RelyingPartyBuilder)
        ensures
            r.rp_name@ == Seq::<char>::empty(),
            r.rp_id matches Some(id) && id@ == cfg.rp_id@,
    {
        RelyingPartyBuilder { rp_name: String::new(), rp_id: Some(cfg.id().to_string()) }
    }

    /// Sets the display name.
    pub fn name(self, name: &str) -> (r: Self)
        ensures
            r.rp_name@ == name@,
            r.rp_id == self.rp_id,
    {
        RelyingPartyBuilder { rp_name: name.to_string(), rp_id: self.rp_id }
    }

    /// Sets the RP ID, in place of the configured one.
    pub fn id(self, id: &str) -> (r: Self)
        ensures
            r.rp_name == self.rp_name,
            r.rp_id matches Some(i) && i@ == id@,
    {
        RelyingPartyBuilder { rp_name: self.rp_name, rp_id: Some(id.to_string()) }
    }

    /// The Relying Party with the name and RP ID set so far.
    pub fn finish(self) -> (r: RelyingParty)
        ensures
            r.name == self.rp_name,
            r.id == self.rp_id,
    {
        RelyingParty { name: self.rp_name, id: self.rp_id }
    }
}

} // verus!
