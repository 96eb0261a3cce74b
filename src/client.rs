use vstd::prelude::*;
use vstd::utf8::encode_utf8;

use crate::decimal::{decimal, decimal_string};
use crate::error::Error;
use crate::signature::{get_signature, nonce, signature_of};

verus! {

/// Where the exchange's REST API is served.
pub const KRAKEN_BASE_URL: &'static str = "https://api.kraken.com/";

/// The `Content-Type` of a private request's body.
pub const FORM_URL_ENCODED: &'static str = "application/x-www-form-urlencoded; charset=utf-8";

/// The header that carries the API key.
pub const HEADER_API_KEY: &'static str = "API-Key";

/// The header that carries the request's signature.
pub const HEADER_API_SIGN: &'static str = "API-Sign";

/// The configuration of a client: where the API lives, which version of it
/// to call, and the credentials for private calls, if any.
pub struct KrakenClient {
    pub api_version: u8,
    pub base_url: String,
    pub api_key: Option<String>,
    pub api_secret: Option<String>,
}

/// A signed private request, ready to be sent as an HTTP POST.
pub struct PrivateRequest {
    /// The full URL to post to.
    pub url: String,
    /// The value of the `API-Key` header.
    pub api_key: String,
    /// The value of the `API-Sign` header.
    pub api_sign: String,
    /// The form-encoded body, `nonce=<nonce>`.
    pub body: Vec<u8>,
}

/// `{base}/{version}/public/{path_query}`
pub open spec fn public_url_of(base_url: Seq<char>, api_version: u8, path_query: Seq<char>) -> Seq<char> {
    base_url + "/"@ + decimal(api_version as nat) + "/public/"@ + path_query
}

/// `/{version}/private/{path_query}`: the path that a private request signs.
pub open spec fn private_path_of(api_version: u8, path_query: Seq<char>) -> Seq<char> {
    "/"@ + decimal(api_version as nat) + "/private/"@ + path_query
}

/// `nonce=<nonce>`: the body of a private request.
pub open spec fn private_body_of(nonce: nat) -> Seq<char> {
    "nonce="@ + decimal(nonce)
}

impl KrakenClient {
    /// Both credentials are present.
    pub open spec fn has_credentials(&self) -> bool {
        self.api_key is Some && self.api_secret is Some
    }

    /// `req` is the private request for `path_query` with the given nonce.
    pub open spec fn is_private_request(&self, path_query: Seq<char>, nonce: nat, req: PrivateRequest) -> bool {
        let path = private_path_of(self.api_version, path_query);
        let body = private_body_of(nonce);
        &&& self.has_credentials()
        &&& req.url@ == self.base_url@ + path
        &&& req.api_key@ == self.api_key->Some_0@
        &&& signature_of(path, body, nonce, self.api_secret->Some_0@) == Some(req.api_sign@)
        &&& req.body@ == encode_utf8(body)
    }

    pub fn new(base_url: &str, api_version: u8, api_key: Option<String>, api_secret: Option<String>) -> (r: Self)
        ensures
            r.base_url@ == base_url@,
            r.api_version == api_version,
            r.api_key == api_key,
            r.api_secret == api_secret,
    {
        KrakenClient { api_version, base_url: String::from_str(base_url), api_key, api_secret }
    }

    /// A client of version 0 of the API at its public address.
    pub fn new_v0(api_key: Option<String>, api_secret: Option<String>) -> (r: Self)
        ensures
            r.base_url@ == KRAKEN_BASE_URL@,
            r.api_version == 0,
            r.api_key == api_key,
            r.api_secret == api_secret,
    {
        KrakenClient::new(KRAKEN_BASE_URL, 0, api_key, api_secret)
    }

    /// The URL of a public endpoint, to be fetched with an HTTP GET.
    pub fn public_url(&self, path_query: &str) -> (r: String)
        ensures
            r@ == public_url_of(self.base_url@, self.api_version, path_query@),
    {
        let mut url = self.base_url.clone();
        url.append("/");
        url.append(decimal_string(self.api_version as u128).as_str());
        url.append("/public/");
        url.append(path_query);
        url
    }

    /// The path of a private endpoint, as it is signed.
    pub fn private_path(&self, path_query: &str) -> (r: String)
        ensures
            r@ == private_path_of(self.api_version, path_query@),
    {
        let mut path = String::from_str("/");
        path.append(decimal_string(self.api_version as u128).as_str());
        path.append("/private/");
        path.append(path_query);
        path
    }

    /// Builds and signs the private request for `path_query` with the given nonce.
    /// Without both credentials it fails with `Unauthorized`; with a secret that
    /// is not base64 it fails with `Base64DecodeError`; otherwise it succeeds.
    pub fn prepare_private(&self, path_query: &str, nonce: u128) -> (r: Result<PrivateRequest, Error>)
        ensures
            !self.has_credentials() ==> r is Err && r->Err_0 is Unauthorized,
            self.has_credentials() ==> match signature_of(
                private_path_of(self.api_version, path_query@),
                private_body_of(nonce as nat),
                nonce as nat,
                self.api_secret->Some_0@,
            ) {
                Some(_) => r is Ok && self.is_private_request(path_query@, nonce as nat, r->Ok_0),
                None => r is Err && r->Err_0 is Base64DecodeError,
            },
    {
        match (&self.api_key, &self.api_secret) {
            (Some(api_key), Some(api_secret)) => {
                let mut data = String::from_str("nonce=");
                data.append(decimal_string(nonce).as_str());
                let path = self.private_path(path_query);
                let api_sign = match get_signature(path.as_str(), data.as_str(), nonce, api_secret.as_str()) {
                    Ok(s) => s,
                    Err(e) => {
                        return Err(e);
                    },
                };
                let mut url = self.base_url.clone();
                url.append(path.as_str());
                Ok(PrivateRequest { url, api_key: api_key.clone(), api_sign, body: data.as_str().as_bytes_vec() })
            },
            _ => Err(Error::Unauthorized),
        }
    }

    /// Reads the clock for a nonce and prepares the private request for
    /// `path_query`. Without both credentials it fails with `Unauthorized` before
    /// reading the clock, so no request is ever built or sent.
    pub fn private_request(&self, path_query: &str) -> (r: Result<PrivateRequest, Error>)
        ensures
            !self.has_credentials() ==> r is Err && r->Err_0 is Unauthorized,
            self.has_credentials() ==> !(r is Err && r->Err_0 is Unauthorized),
            r is Ok ==> exists|n: u128| self.is_private_request(path_query@, n as nat, #[trigger] r->Ok_0),
            r is Err ==> r->Err_0 is Unauthorized || r->Err_0 is SystemTimeError || r->Err_0 is Base64DecodeError,
            self.has_credentials() && crate::signature::base64_decoded(self.api_secret->Some_0@) is Some
                ==> !(r is Err && r->Err_0 is Base64DecodeError),
            self.has_credentials() && crate::signature::base64_decoded(self.api_secret->Some_0@) is None
                ==> r is Err,
    {
        if self.api_key.is_none() || self.api_secret.is_none() {
            return Err(Error::Unauthorized);
        }
        let n = match nonce() {
            Ok(n) => n,
            Err(e) => {
                return Err(e);
            },
        };
        self.prepare_private(path_query, n)
    }
}

} // verus!
