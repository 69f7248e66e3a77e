//! The identity half of the issuance-service client: the key and endpoint a
//! caller configures. The transport that uses them lives outside the
//! library.

use vstd::prelude::*;

pub mod certificates;
pub mod result;
pub mod validation;

verus! {

/// The certificate statuses a purge covers, in the order they are asked
/// for: the pending ones (draft, then awaiting validation) when
/// `include_pending`, then the issued ones when `include_active`.
pub open spec fn spec_purge_statuses(include_pending: bool, include_active: bool) -> Seq<
    Seq<char>,
> {
    (if include_pending {
        seq!["draft"@, "pending_validation"@]
    } else {
        Seq::<Seq<char>>::empty()
    }) + (if include_active {
        seq!["issued"@]
    } else {
        Seq::<Seq<char>>::empty()
    })
}

/// Selects the certificate statuses a purge covers. Nothing when neither
/// group is asked for: a purge covering no status is refused rather than
/// silently matching nothing.
pub fn purge_status_selection(include_pending: bool, include_active: bool) -> (r: Option<
    Vec<&'static str>,
>)
    ensures
        r is Some <==> (include_pending || include_active),
        r is Some ==> r->0.deep_view() == spec_purge_statuses(include_pending, include_active),
{
    if !include_pending && !include_active {
        return None;
    }
    let mut status: Vec<&'static str> = Vec::new();
    if include_pending {
        status.push("draft");
        status.push("pending_validation");
    }
    if include_active {
        status.push("issued");
    }
    proof {
        assert(status.deep_view() =~= spec_purge_statuses(include_pending, include_active));
    }
    Some(status)
}

/// A client of the certificate-issuance service: an API key and the
/// service's endpoint.
pub struct Client {
    pub api_key: String,
    pub api_url: String,
}

impl Client {
    /// A client with an empty API key and the standard endpoint.
    pub fn default() -> (c: Self)
        ensures
            c.api_key@ == Seq::<char>::empty(),
            c.api_url@ == "https://api.zerossl.com"@,
    {
        Client { api_key: String::new(), api_url: "https://api.zerossl.com".to_owned() }
    }

    /// A client with the given API key and the standard endpoint.
    pub fn new(api_key: String) -> (c: Self)
        ensures
            c.api_key == api_key,
            c.api_url@ == "https://api.zerossl.com"@,
    {
        Client { api_key, ..Client::default() }
    }

    /// The configured API key.
    pub fn api_key(&self) -> (r: &String)
        ensures
            *r == self.api_key,
    {
        &self.api_key
    }

    /// The configured endpoint.
    pub fn api_url(&self) -> (r: &String)
        ensures
            *r == self.api_url,
    {
        &self.api_url
    }
}

} // verus!
