//! Client library for an LNbits wallet gateway.
//!
//! The verified core covers endpoint resolution, key-scoped authorization,
//! response-status classification, and the webhook-to-channel bridge. The
//! network transport itself and the serde-based DTO facades live outside the
//! library, calling into the verified functions here.

use vstd::prelude::*;

pub mod api;

verus! {

use vstd::string::StringExecFns;
use crate::api::LnbitsRequestKeyType;

/// Error taxonomy of the client.
///
/// `Configuration` covers an invalid base URL or proxy target, fatal at
/// construction or URL-join time. `NotFound` and `Unauthorized` are the two
/// response statuses with a dedicated classification. `Transport` carries the
/// cause of a network-level failure and is never downgraded to one of the
/// other variants.
#[derive(Debug, Clone, PartialEq, Eq, Hash)]
pub enum LnbitsError {
    Configuration,
    NotFound,
    Unauthorized,
    Transport(String),
}

#[verifier::external_type_specification]
#[verifier::external_body]
pub struct ExClient(reqwest::Client);

/// The normalized serialization of an absolute URL parsed from the given
/// text, or `None` where the text is not an absolute URL.
pub uninterp spec fn url_parse_of(s: Seq<char>) -> Option<Seq<char>>;

/// The serialization of the URL obtained by joining the relative input
/// against the base URL (a leading-slash path replaces the base path, a
/// relative path appends), or `None` where base or join cannot be parsed.
pub uninterp spec fn url_join_of(base: Seq<char>, rel: Seq<char>) -> Option<Seq<char>>;

/// Relies on `url::Url::parse` (reqwest's re-export) and `Url::as_str`:
/// parsing an absolute URL is a pure function of the input text, and a parsed
/// URL serializes back to a normalized absolute URL string.
#[verifier::external_body]
fn parse_base_url(s: &str) -> (r: Option<String>)
    ensures
        r matches Some(u) ==> url_parse_of(s@) == Some(u@),
        r is None ==> url_parse_of(s@) is None,
{
    match reqwest::Url::parse(s) {
        Ok(u) => Some(String::from(u.as_str())),
        Err(_) => None,
    }
}

/// Relies on `url::Url::parse`, `Url::join` and `Url::as_str` (reqwest's
/// re-exports): joining a relative reference against an absolute base URL is
/// a pure function of the two texts.
#[verifier::external_body]
pub(crate) fn join_url(base: &str, rel: &str) -> (r: Option<String>)
    ensures
        r matches Some(u) ==> url_join_of(base@, rel@) == Some(u@),
        r is None ==> url_join_of(base@, rel@) is None,
{
    match reqwest::Url::parse(base) {
        Ok(b) => match b.join(rel) {
            Ok(u) => Some(String::from(u.as_str())),
            Err(_) => None,
        },
        Err(_) => None,
    }
}

/// Relies on `reqwest::Client::builder` and `ClientBuilder::build`: builds an
/// HTTP transport handle without performing any network activity; whether it
/// succeeds depends on the process environment.
#[verifier::external_body]
fn build_client() -> (r: Option<reqwest::Client>) {
    reqwest::Client::builder().build().ok()
}

/// Whether the given text names a valid proxy target: one that
/// `reqwest::Proxy::all` accepts, a decision made from the text alone.
pub uninterp spec fn proxy_target_ok(s: Seq<char>) -> bool;

/// Relies on `reqwest::Proxy::all`, `reqwest::Client::builder` and
/// `ClientBuilder::build`: builds an HTTP transport handle routed through the
/// given forward proxy. `Proxy::all` accepts or rejects the target as a pure
/// function of the text; whether the build itself succeeds depends on the
/// process environment, so only the rejection is promised.
#[verifier::external_body]
fn build_client_with_proxy(proxy: &str) -> (r: Option<reqwest::Client>)
    ensures
        !proxy_target_ok(proxy@) ==> r is None,
{
    match reqwest::Proxy::all(proxy) {
        Ok(p) => reqwest::Client::builder().proxy(p).build().ok(),
        Err(_) => None,
    }
}

/// Client configuration: immutable after construction and shared by every
/// request. The base URL is held in its normalized serialization, as produced
/// by the URL parser at construction time.
pub struct LNbitsRustClient {
    pub lnbits_url: String,
    pub admin_key: String,
    pub invoice_read_key: String,
    pub reqwest_client: reqwest::Client,
    pub wallet_id: String,
}

impl LNbitsRustClient {
    /// A well-formed configuration holds a non-empty credential for each of
    /// the two authorization scopes.
    pub open spec fn wf(&self) -> bool {
        self.admin_key@.len() > 0 && self.invoice_read_key@.len() > 0
    }

    /// The credential that the given authorization scope selects.
    pub open spec fn spec_key(&self, key: LnbitsRequestKeyType) -> Seq<char> {
        match key {
            LnbitsRequestKeyType::Admin => self.admin_key@,
            LnbitsRequestKeyType::InvoiceRead => self.invoice_read_key@,
        }
    }

    /// Key Selector: maps an authorization scope to the matching credential.
    /// Total over the closed two-element scope set; read-only.
    pub fn select_key(&self, key: &LnbitsRequestKeyType) -> (r: &String)
        ensures
            r@ == self.spec_key(*key),
    {
        match key {
            LnbitsRequestKeyType::Admin => &self.admin_key,
            LnbitsRequestKeyType::InvoiceRead => &self.invoice_read_key,
        }
    }

    /// Constructs the client configuration: validates and normalizes the base
    /// URL, stores both credentials and the wallet identifier, and builds the
    /// HTTP transport (optionally routed through a forward proxy). An
    /// unparsable base URL or an invalid proxy target is a `Configuration`
    /// error, surfaced here and never at call time.
    pub fn new(
        wallet_id: &str,
        lnbits_url: &str,
        invoice_read_key: &str,
        admin_key: &str,
        tor_socket: Option<&str>,
    ) -> (r: Result<LNbitsRustClient, LnbitsError>)
        ensures
            r matches Ok(c) ==> {
                &&& url_parse_of(lnbits_url@) == Some(c.lnbits_url@)
                &&& c.admin_key@ == admin_key@
                &&& c.invoice_read_key@ == invoice_read_key@
                &&& c.wallet_id@ == wallet_id@
            },
            url_parse_of(lnbits_url@) is None ==> r is Err,
            (tor_socket matches Some(s) && !proxy_target_ok(s@)) ==> r is Err,
            r matches Err(e) ==> e is Configuration,
    {
        let base = match parse_base_url(lnbits_url) {
            Some(b) => b,
            None => {
                return Err(LnbitsError::Configuration);
            },
        };
        let client = match tor_socket {
            Some(socket) => match build_client_with_proxy(socket) {
                Some(c) => c,
                None => {
                    return Err(LnbitsError::Configuration);
                },
            },
            None => match build_client() {
                Some(c) => c,
                None => {
                    return Err(LnbitsError::Configuration);
                },
            },
        };
        Ok(LNbitsRustClient {
            lnbits_url: base,
            admin_key: String::from_str(admin_key),
            invoice_read_key: String::from_str(invoice_read_key),
            reqwest_client: client,
            wallet_id: String::from_str(wallet_id),
        })
    }

    /// The transport handle, for the unverified code that executes prepared
    /// requests.
    pub fn http_client(&self) -> &reqwest::Client {
        &self.reqwest_client
    }
}

/// Law: for every authorization scope, a well-formed configuration yields a
/// non-empty credential — the scope set is closed, so no scope is unmapped.
pub proof fn lemma_key_selector_nonempty(c: &LNbitsRustClient, key: LnbitsRequestKeyType)
    requires
        c.wf(),
    ensures
        c.spec_key(key).len() > 0,
{
}

} // verus!
