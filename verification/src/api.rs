//! The authenticated request dispatcher's verified parts: endpoint
//! resolution, request preparation, and response-status classification.

use vstd::prelude::*;

pub mod invoice;
pub mod lnuri;
pub mod payment;
pub mod wallet;
pub mod webhook;

verus! {

use vstd::string::StringExecFns;
use crate::{join_url, url_join_of, LNbitsRustClient, LnbitsError};

/// Authorization scope of a request: read-only (invoice reads) or
/// administrative (payment-out operations and payment lookups).
#[derive(Debug, Clone, Copy, PartialEq, Eq, Hash, Structural)]
pub enum LnbitsRequestKeyType {
    InvoiceRead,
    Admin,
}

/// The logical operations of the gateway, each rendering deterministically to
/// a relative path (and, for the find-by-correlation variant, a query
/// string). Embedded identifiers are inserted verbatim: the caller supplies
/// identifiers that are already safe for the position they occupy.
#[derive(Debug, Clone, PartialEq, Eq, Hash)]
pub enum LnbitsEndpoints {
    Wallets,
    Payments,
    PaymentsDecode,
    Boltz,
    PaymentHash(String),
    PaymentsFindInvoice(String),
}

/// The relative path that an endpoint renders to.
pub open spec fn spec_path(e: LnbitsEndpoints) -> Seq<char> {
    match e {
        LnbitsEndpoints::Wallets => "api/v1/wallet"@,
        LnbitsEndpoints::Payments => "api/v1/payments"@,
        LnbitsEndpoints::PaymentsDecode => "api/v1/payments/decode"@,
        LnbitsEndpoints::Boltz => "api/v1/beltz"@,
        LnbitsEndpoints::PaymentHash(hash) => "api/v1/payments/"@ + hash@,
        LnbitsEndpoints::PaymentsFindInvoice(checking_id) => "api/v1/payments?checking_id="@
            + checking_id@,
    }
}

impl LnbitsEndpoints {
    /// Endpoint Resolver: renders the endpoint to its relative path. Pure,
    /// total and deterministic — the result is exactly `spec_path`.
    pub fn path(&self) -> (r: String)
        ensures
            r@ == spec_path(*self),
    {
        match self {
            LnbitsEndpoints::Wallets => String::from_str("api/v1/wallet"),
            LnbitsEndpoints::Payments => String::from_str("api/v1/payments"),
            LnbitsEndpoints::PaymentsDecode => String::from_str("api/v1/payments/decode"),
            LnbitsEndpoints::Boltz => String::from_str("api/v1/beltz"),
            LnbitsEndpoints::PaymentHash(hash) => String::from_str("api/v1/payments/").concat(
                hash.as_str(),
            ),
            LnbitsEndpoints::PaymentsFindInvoice(checking_id) => String::from_str(
                "api/v1/payments?checking_id=",
            ).concat(checking_id.as_str()),
        }
    }
}

/// Appending different suffixes to one prefix gives different sequences.
proof fn lemma_concat_right_injective(p: Seq<char>, a: Seq<char>, b: Seq<char>)
    requires
        a != b,
    ensures
        p + a != p + b,
{
    if p + a == p + b {
        assert((p + a).len() == p.len() + a.len());
        assert((p + b).len() == p.len() + b.len());
        assert(a.len() == b.len());
        assert forall|i: int| 0 <= i < a.len() implies a[i] == b[i] by {
            assert((p + a)[p.len() + i] == a[i]);
            assert((p + b)[p.len() + i] == b[i]);
        }
        assert(a =~= b);
    }
}

/// Law: endpoint resolution is deterministic — equal endpoints render to the
/// identical path.
pub proof fn lemma_resolve_deterministic(e1: LnbitsEndpoints, e2: LnbitsEndpoints)
    requires
        e1 == e2,
    ensures
        spec_path(e1) == spec_path(e2),
{
}

/// Law: two payment-by-hash endpoints with differing hashes render to
/// differing paths.
pub proof fn lemma_resolve_hash_injective(h1: String, h2: String)
    requires
        h1@ != h2@,
    ensures
        spec_path(LnbitsEndpoints::PaymentHash(h1)) != spec_path(
            LnbitsEndpoints::PaymentHash(h2),
        ),
{
    lemma_concat_right_injective("api/v1/payments/"@, h1@, h2@);
}

/// Law: two find-by-correlation endpoints with differing identifiers render
/// to differing paths.
pub proof fn lemma_resolve_find_injective(id1: String, id2: String)
    requires
        id1@ != id2@,
    ensures
        spec_path(LnbitsEndpoints::PaymentsFindInvoice(id1)) != spec_path(
            LnbitsEndpoints::PaymentsFindInvoice(id2),
        ),
{
    lemma_concat_right_injective("api/v1/payments?checking_id="@, id1@, id2@);
}

/// The HTTP verbs the dispatcher uses. The update operation is sent as PATCH.
#[derive(Debug, Clone, Copy, PartialEq, Eq, Hash, Structural)]
pub enum HttpMethod {
    Get,
    Post,
    Patch,
    Delete,
}

/// Everything the transport needs to execute one dispatcher call: the verb,
/// the absolute URL, the credential to attach as the `X-Api-Key` header, and,
/// for write verbs, the pre-serialized body.
pub struct PreparedRequest {
    pub method: HttpMethod,
    pub url: String,
    pub api_key: String,
    pub body: Option<String>,
}

/// What one round trip against the transport produced: a response with its
/// status and raw body text, or a transport-level failure with its cause.
pub enum TransportOutcome {
    Response(u16, String),
    Failed(String),
}

/// Classifies a response status before any body is read: `404` and `401` are
/// the only statuses with a dedicated failure classification; every other
/// status is treated as success at the transport layer.
pub fn classify_status(status: u16) -> (r: Option<LnbitsError>)
    ensures
        status == 404 ==> (r matches Some(e) && e is NotFound),
        status == 401 ==> (r matches Some(e) && e is Unauthorized),
        (status != 404 && status != 401) ==> r is None,
{
    if status == 404 {
        Some(LnbitsError::NotFound)
    } else if status == 401 {
        Some(LnbitsError::Unauthorized)
    } else {
        None
    }
}

/// Classifies a full transport outcome: `404` fails as `NotFound`, `401` as
/// `Unauthorized`, any other status returns the raw body unchanged (server
/// errors included — the caller's DTO layer detects those via failed
/// deserialization), and a transport failure surfaces as `Transport` with its
/// cause, never downgraded to one of the status classifications.
pub fn classify_outcome(outcome: TransportOutcome) -> (r: Result<String, LnbitsError>)
    ensures
        outcome matches TransportOutcome::Response(status, body) ==> {
            &&& status == 404 ==> (r matches Err(e) && e is NotFound)
            &&& status == 401 ==> (r matches Err(e) && e is Unauthorized)
            &&& (status != 404 && status != 401) ==> (r matches Ok(b) && b == body)
        },
        outcome matches TransportOutcome::Failed(cause) ==> (r matches Err(e) && e
            == LnbitsError::Transport(cause)),
{
    match outcome {
        TransportOutcome::Response(status, body) => match classify_status(status) {
            Some(e) => Err(e),
            None => Ok(body),
        },
        TransportOutcome::Failed(cause) => Err(LnbitsError::Transport(cause)),
    }
}

impl LNbitsRustClient {
    /// Resolves the endpoint against the configured base URL and selects the
    /// credential for the requested scope, yielding everything the transport
    /// needs for one call. Succeeds exactly where the join of base URL and
    /// resolved path is defined; a base URL that the resolved path cannot be
    /// joined against is a `Configuration` error.
    pub fn prepare_request(
        &self,
        method: HttpMethod,
        key: &LnbitsRequestKeyType,
        endpoint: &LnbitsEndpoints,
        body: Option<String>,
    ) -> (r: Result<PreparedRequest, LnbitsError>)
        ensures
            r matches Ok(p) ==> {
                &&& url_join_of(self.lnbits_url@, spec_path(*endpoint)) == Some(p.url@)
                &&& p.api_key@ == self.spec_key(*key)
                &&& p.method == method
                &&& p.body == body
            },
            url_join_of(self.lnbits_url@, spec_path(*endpoint)) is Some ==> r is Ok,
            url_join_of(self.lnbits_url@, spec_path(*endpoint)) is None ==> (r matches Err(e)
                && e is Configuration),
    {
        let path = endpoint.path();
        let url = match join_url(self.lnbits_url.as_str(), path.as_str()) {
            Some(u) => u,
            None => {
                return Err(LnbitsError::Configuration);
            },
        };
        let api_key = self.select_key(key).clone();
        Ok(PreparedRequest { method, url, api_key, body })
    }
}

} // verus!

