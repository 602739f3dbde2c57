//! The dialog collaborator's data shapes and the construction of the URL
//! that opens the browser-based confirmation dialog. Parsing and rendering
//! of the URL itself is done by outside code; this module pins down exactly
//! which base URL and which query pairs, in which order, go into it.

use crate::crypto::AdminKey;
use crate::error::PortoError;
use crate::hexfmt::spec_hex_digit;
use vstd::prelude::*;
use vstd::string::StringExecFns;

verus! {

/// An RPC request handed to the dialog.
pub struct DialogRequest {
    pub method: String,
    /// The request parameters, as serialized text.
    pub params: String,
    /// The caller-chosen request id the eventual response will carry.
    pub id: u64,
}

/// An RPC response as the dialog reports it.
pub struct DialogResponse {
    /// The result value, as serialized text, when the call succeeded.
    pub result: Option<String>,
    /// The error value, as serialized text, when the call failed.
    pub error: Option<String>,
    pub id: u64,
}

/// Names the acceptance of `url::Url::parse` on a base URL string.
pub uninterp spec fn spec_url_parsable(base: Seq<char>) -> bool;

/// Names the result of parsing a base URL and appending query pairs through
/// `url::Url`'s form-urlencoded serializer: the rendered URL string, a
/// function of the base and the pairs alone.
pub uninterp spec fn spec_url_with_query(
    base: Seq<char>,
    pairs: Seq<(Seq<char>, Seq<char>)>,
) -> Seq<char>;

/// Relies on `url::Url::parse`, `query_pairs_mut().extend_pairs` (appends
/// each pair percent-encoded, in order) and the `Display` rendering of the
/// resulting URL; deterministic in its inputs.
#[verifier::external_body]
fn url_with_query(base: &str, pairs: &Vec<(String, String)>) -> (r: Option<String>)
    ensures
        r is Some <==> spec_url_parsable(base@),
        r matches Some(u) ==> u@ == spec_url_with_query(
            base@,
            pairs@.map_values(|p: (String, String)| (p.0@, p.1@)),
        ),
{
    match url::Url::parse(base) {
        Ok(mut u) => {
            u.query_pairs_mut().extend_pairs(pairs.iter().map(|p| (p.0.as_str(), p.1.as_str())));
            Some(u.to_string())
        },
        Err(_) => None,
    }
}

/// The decimal digit characters of a number, most significant first.
pub open spec fn spec_u64_string(n: u64) -> Seq<char>
    decreases n,
{
    if n < 10 {
        seq![spec_hex_digit(n as u8)]
    } else {
        spec_u64_string(n / 10).push(spec_hex_digit((n % 10) as u8))
    }
}

/// Relies on the standard decimal formatting of `u64`: the plain base-10
/// digit string, no sign, no separators, no leading zeros.
#[verifier::external_body]
fn u64_to_string(n: u64) -> (r: String)
    ensures
        r@ == spec_u64_string(n),
{
    format!("{}", n)
}

/// The referrer value announced to the dialog.
pub open spec fn spec_referrer_json() -> Seq<char> {
    "{\"title\":\"Porto CLI\",\"url\":\"cli://porto\"}"@
}

/// The base URL of the dialog page for a method.
pub open spec fn spec_dialog_base(host: Seq<char>, method: Seq<char>) -> Seq<char> {
    "https://"@ + host + "/dialog/"@ + method
}

/// The query pairs a dialog URL carries, in order.
pub open spec fn spec_dialog_pairs(
    id: u64,
    method: Seq<char>,
    params: Seq<char>,
    relay_url: Seq<char>,
) -> Seq<(Seq<char>, Seq<char>)> {
    seq![
        ("id"@, spec_u64_string(id)),
        ("method"@, method),
        ("params"@, params),
        ("referrer"@, spec_referrer_json()),
        ("relayUrl"@, relay_url),
    ]
}

/// Builds dialog URLs for a fixed host, once the relay's own URL is known.
pub struct DialogBuilder {
    host: String,
    relay_url: String,
}

impl DialogBuilder {
    /// The dialog hostname.
    pub closed spec fn spec_host(&self) -> Seq<char> {
        self.host@
    }

    /// The relay URL announced to the dialog.
    pub closed spec fn spec_relay_url(&self) -> Seq<char> {
        self.relay_url@
    }

    pub fn new(host: String) -> (r: Self)
        ensures
            r.spec_host() == host@,
            r.spec_relay_url() == Seq::<char>::empty(),
    {
        DialogBuilder { host, relay_url: String::new() }
    }

    pub fn set_relay_url(&mut self, relay_url: String)
        ensures
            final(self).spec_host() == old(self).spec_host(),
            final(self).spec_relay_url() == relay_url@,
    {
        self.relay_url = relay_url;
    }

    pub fn host(&self) -> (r: &str)
        ensures
            r@ == self.spec_host(),
    {
        self.host.as_str()
    }

    pub fn relay_url(&self) -> (r: &str)
        ensures
            r@ == self.spec_relay_url(),
    {
        self.relay_url.as_str()
    }

    /// The URL that opens the dialog for a request:
    /// `https://{host}/dialog/{method}` carrying the request id, method,
    /// parameters, the fixed referrer and the relay URL as query pairs.
    pub fn build_url(&self, request: &DialogRequest) -> (r: Result<String, PortoError>)
        ensures
            r is Ok <==> spec_url_parsable(spec_dialog_base(self.spec_host(), request.method@)),
            r matches Ok(u) ==> u@ == spec_url_with_query(
                spec_dialog_base(self.spec_host(), request.method@),
                spec_dialog_pairs(
                    request.id,
                    request.method@,
                    request.params@,
                    self.spec_relay_url(),
                ),
            ),
            r matches Err(e) ==> e matches PortoError::DialogError(_),
    {
        let mut base = String::from_str("https://");
        base.append(self.host.as_str());
        base.append("/dialog/");
        base.append(request.method.as_str());
        let mut pairs: Vec<(String, String)> = Vec::new();
        pairs.push((String::from_str("id"), u64_to_string(request.id)));
        pairs.push((String::from_str("method"), request.method.clone()));
        pairs.push((String::from_str("params"), request.params.clone()));
        pairs.push(
            (
                String::from_str("referrer"),
                String::from_str("{\"title\":\"Porto CLI\",\"url\":\"cli://porto\"}"),
            ),
        );
        pairs.push((String::from_str("relayUrl"), self.relay_url.clone()));
        proof {
            assert(pairs@.map_values(|p: (String, String)| (p.0@, p.1@)) =~= spec_dialog_pairs(
                request.id,
                request.method@,
                request.params@,
                self.spec_relay_url(),
            ));
        }
        match url_with_query(base.as_str(), &pairs) {
            Some(u) => Ok(u),
            None => Err(PortoError::DialogError(String::from_str("invalid dialog URL"))),
        }
    }
}

/// The capabilities requested when connecting a wallet.
pub struct ConnectParams {
    pub create_account: bool,
    pub grant_admins: Option<Vec<AdminKeyGrant>>,
}

/// One admin key granted during connection.
pub struct AdminKeyGrant {
    pub public_key: String,
    pub key_type: String,
}

/// One account the wallet reports.
pub struct Account {
    pub address: String,
}

/// What a successful connect call returns.
pub struct ConnectResult {
    pub accounts: Vec<Account>,
}

/// The parameters of an add-funds call.
pub struct AddFundsParams {
    pub address: String,
}

/// The parameters of a prepare-calls call: the calls as serialized text,
/// plus the key that will sign.
pub struct PrepareCallsParams {
    pub calls: Vec<String>,
    pub key: AdminKey,
}

/// What a prepare-calls call returns: the digest to sign plus the prepared
/// request's remaining fields, as (name, serialized value) pairs.
pub struct PrepareCallsResult {
    pub digest: String,
    pub request: Vec<(String, String)>,
}

/// The parameters of a send-prepared-calls call: the signature plus the
/// prepared request's fields, as (name, serialized value) pairs.
pub struct SendPreparedCallsParams {
    pub signature: String,
    pub request: Vec<(String, String)>,
}

/// What a call submission returns.
pub struct CallResult {
    pub id: String,
}

} // verus!
