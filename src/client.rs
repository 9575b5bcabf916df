//! The order lifecycle client: the transport it is built with, the requests
//! it sends and how it resolves what comes back.

use std::sync::Arc;
use vstd::prelude::*;
use vstd::string::*;
use crate::config::Config;
use crate::error::{api_error_from_fields, api_error_model, ApiError};
use crate::model::authenticate::{start_model, start_success_from_fields, Authenticate, StartView};
use crate::model::cancel::CancelResponse;
use crate::model::collect::{collect_model, CollectError, CollectResponse, CollectValue, CollectView};
use crate::model::sign::SignResponse;
use crate::json::{field, object_fields, parse_object_or_error, string_field};
use crate::tls::{pem_block_texts, root_texts, RootCertificate, RootCertificates, TlsError};

verus! {

/// What a transport is built from: the identity it presents, whether the
/// system's roots are trusted, and the PEM text of each added root, in order.
pub ghost struct TransportPlan {
    pub identity: Option<reqwest::Identity>,
    pub built_in_roots: bool,
    pub roots: Seq<Seq<char>>,
}

/// A transport being set up, with what has been handed to it so far.
pub struct TransportBuilder {
    inner: reqwest::ClientBuilder,
    plan: Ghost<TransportPlan>,
}

/// A built transport, with what it was built from.
pub struct Transport {
    client: reqwest::Client,
    plan: Ghost<TransportPlan>,
}

impl TransportBuilder {
    /// What has been handed to the builder so far.
    pub closed spec fn plan(&self) -> TransportPlan {
        self.plan@
    }
}

impl Transport {
    /// What the transport was built from.
    pub closed spec fn plan(&self) -> TransportPlan {
        self.plan@
    }

    /// The HTTP client.
    pub fn http(&self) -> (r: &reqwest::Client) {
        &self.client
    }
}

/// Relies on `reqwest::Client::builder`: no identity, the system's roots
/// trusted, no added root.
#[verifier::external_body]
fn client_builder() -> (r: TransportBuilder)
    ensures
        r.plan() == (TransportPlan { identity: None, built_in_roots: true, roots: Seq::empty() }),
{
    let plan = Ghost(TransportPlan { identity: None, built_in_roots: true, roots: Seq::empty() });
    TransportBuilder { inner: reqwest::Client::builder(), plan }
}

/// Relies on `reqwest::ClientBuilder::identity`: the client presents `identity`.
#[verifier::external_body]
fn with_identity(builder: TransportBuilder, identity: reqwest::Identity) -> (r: TransportBuilder)
    ensures
        r.plan() == (TransportPlan { identity: Some(identity), ..builder.plan() }),
{
    let plan = Ghost(TransportPlan { identity: Some(identity), ..builder.plan@ });
    TransportBuilder { inner: builder.inner.identity(identity), plan }
}

/// Relies on `reqwest::ClientBuilder::tls_built_in_root_certs`: whether the
/// system's roots are trusted as well.
#[verifier::external_body]
fn with_built_in_roots(builder: TransportBuilder, on: bool) -> (r: TransportBuilder)
    ensures
        r.plan() == (TransportPlan { built_in_roots: on, ..builder.plan() }),
{
    let plan = Ghost(TransportPlan { built_in_roots: on, ..builder.plan@ });
    TransportBuilder { inner: builder.inner.tls_built_in_root_certs(on), plan }
}

/// Relies on `reqwest::ClientBuilder::add_root_certificate`: one more
/// trusted root, after those already added.
#[verifier::external_body]
fn with_root_certificate(builder: TransportBuilder, cert: RootCertificate) -> (r: TransportBuilder)
    ensures
        r.plan() == (TransportPlan { roots: builder.plan().roots.push(cert.pem_text()), ..builder.plan() }),
{
    let plan = Ghost(TransportPlan { roots: builder.plan@.roots.push(cert.pem_text()), ..builder.plan@ });
    TransportBuilder { inner: builder.inner.add_root_certificate(cert.into_inner()), plan }
}

/// Relies on `reqwest::ClientBuilder::build`: the client built from what
/// was handed to the builder, or why it could not be built.
#[verifier::external_body]
fn build_client(builder: TransportBuilder) -> (r: Result<Transport, reqwest::Error>)
    ensures
        r matches Ok(t) ==> t.plan() == builder.plan(),
{
    let plan = builder.plan;
    builder.inner.build().map(|client| Transport { client, plan })
}

/// A client of the service: one shared transport bound to one base URL.
#[derive(Clone)]
pub struct BankID {
    transport: Arc<Transport>,
    base_url: String,
}

/// Why a request did not resolve to one of the endpoint's shapes.
#[derive(Debug)]
pub enum ClientError {
    /// The body matched no shape of the endpoint; it is kept as it came,
    /// with serde_json's error where the body is no JSON object at all.
    InvalidJson(Option<serde_json::Error>, String),
    /// The request could not be made or answered.
    Http(reqwest::Error),
    /// The service rejected the request.
    Api(ApiError),
}

/// Why a client could not be built.
#[derive(Debug)]
pub enum InitError {
    /// A block of the trust material is malformed.
    Pem(pem::PemError),
    /// The trust material holds no PEM block.
    NoCertificates,
    /// The transport could not be built.
    Reqwest(reqwest::Error),
}

/// The endpoints of the service.
#[derive(Clone, Copy, Debug, PartialEq, Eq)]
pub enum Endpoint {
    Authenticate,
    Sign,
    Collect,
    Cancel,
}

/// The path of an endpoint below the base URL.
pub open spec fn endpoint_path(e: Endpoint) -> Seq<char> {
    match e {
        Endpoint::Authenticate => "/auth"@,
        Endpoint::Sign => "/sign"@,
        Endpoint::Collect => "/collect"@,
        Endpoint::Cancel => "/cancel"@,
    }
}

impl Endpoint {
    /// The path of this endpoint below the base URL.
    pub fn path(&self) -> (r: &'static str)
        ensures
            r@ == endpoint_path(*self),
    {
        match self {
            Endpoint::Authenticate => "/auth",
            Endpoint::Sign => "/sign",
            Endpoint::Collect => "/collect",
            Endpoint::Cancel => "/cancel",
        }
    }
}

impl BankID {
    /// The base URL that every request goes below.
    pub closed spec fn base_url_view(&self) -> Seq<char> {
        self.base_url@
    }

    /// What the transport was built from.
    pub closed spec fn plan(&self) -> TransportPlan {
        self.transport.plan()
    }

    /// The shared transport.
    pub fn http_client(&self) -> (r: &reqwest::Client) {
        self.transport.http()
    }

    /// The URL of an endpoint: the base URL followed by the endpoint's path.
    pub fn url(&self, endpoint: Endpoint) -> (r: String)
        ensures
            r@ == self.base_url_view() + endpoint_path(endpoint),
    {
        self.base_url.clone().concat(endpoint.path())
    }

    /// Builds the client once: a transport that presents the configured
    /// identity, trusts the system's roots as configured, and trusts one root
    /// for each PEM block of the configured trust material, in order. Trust
    /// material without any block is refused.
    pub fn new(config: Config) -> (r: Result<BankID, InitError>)
        ensures
            match r {
                Ok(b) => {
                    &&& b.base_url_view() == config.url@
                    &&& pem_block_texts(config.ca@) matches Some(texts)
                    &&& texts.len() > 0
                    &&& b.plan() == (TransportPlan {
                        identity: Some(config.identity),
                        built_in_roots: config.built_in_roots,
                        roots: texts,
                    })
                },
                Err(InitError::Pem(_)) => pem_block_texts(config.ca@) is None,
                Err(InitError::NoCertificates) => pem_block_texts(config.ca@) matches Some(texts) && texts.len() == 0,
                Err(InitError::Reqwest(_)) => pem_block_texts(config.ca@) matches Some(texts) && texts.len() > 0,
            },
    {
        let mut certificates = match RootCertificates::from_string(config.ca.as_str()) {
            Ok(c) => c,
            Err(TlsError::Pem(e)) => return Err(InitError::Pem(e)),
            Err(TlsError::Reqwest(_)) | Err(TlsError::Io(_)) => {
                assert(false);
                return Err(InitError::NoCertificates);
            },
        };
        if certificates.len() == 0 {
            return Err(InitError::NoCertificates);
        }
        let ghost all = root_texts(certificates@);
        let mut builder = client_builder();
        builder = with_identity(builder, config.identity);
        builder = with_built_in_roots(builder, config.built_in_roots);
        assert(builder.plan().roots + root_texts(certificates@) =~= all);
        while certificates.len() > 0
            invariant
                builder.plan().identity == Some(config.identity),
                builder.plan().built_in_roots == config.built_in_roots,
                builder.plan().roots + root_texts(certificates@) == all,
            decreases certificates.len(),
        {
            let ghost before = certificates@;
            let cert = certificates.remove(0);
            assert(root_texts(before) =~= seq![cert.pem_text()] + root_texts(certificates@));
            builder = with_root_certificate(builder, cert);
            assert(builder.plan().roots + root_texts(certificates@) =~= all);
        }
        assert(root_texts(certificates@) =~= Seq::<Seq<char>>::empty());
        assert(builder.plan().roots =~= all);
        match build_client(builder) {
            Ok(transport) => Ok(BankID { transport: Arc::new(transport), base_url: config.url }),
            Err(e) => Err(InitError::Reqwest(e)),
        }
    }
}

/// Whether a resolver's error is the decode error for `text`: the body kept
/// as it came, with serde_json's error exactly where `text` is no object.
pub open spec fn is_decode_error(e: ClientError, text: Seq<char>) -> bool {
    match e {
        ClientError::InvalidJson(cause, body) => body@ == text && (cause is Some <==> object_fields(text) is None),
        _ => false,
    }
}

/// What a collect body resolves to: an error body first, a status body only
/// where the text is no error body, and otherwise the decode error.
pub fn resolve_collect(text: String) -> (r: Result<CollectResponse, ClientError>)
    ensures
        match r {
            Ok(c) => collect_model(text@) == Some(c@),
            Err(e) => collect_model(text@) is None && is_decode_error(e, text@),
        },
{
    let fields = match parse_object_or_error(text.as_str()) {
        Ok(f) => f,
        Err(e) => return Err(ClientError::InvalidJson(Some(e), text)),
    };
    if let Some(e) = ApiError::from_fields(&fields) {
        return Ok(CollectResponse::from(CollectError { error_code: e.error_code, details: e.details }));
    }
    match CollectValue::from_fields(&fields) {
        Some(v) => Ok(CollectResponse::from(v)),
        None => Err(ClientError::InvalidJson(None, text)),
    }
}

/// What an authenticate body resolves to: the tokens of a started order, the
/// service's error, or otherwise the decode error.
pub fn resolve_authenticate(text: String) -> (r: Result<Authenticate, ClientError>)
    ensures
        match r {
            Ok(a) => start_model(text@) == Some(a@),
            Err(e) => start_model(text@) is None && is_decode_error(e, text@),
        },
{
    let fields = match parse_object_or_error(text.as_str()) {
        Ok(f) => f,
        Err(e) => return Err(ClientError::InvalidJson(Some(e), text)),
    };
    match Authenticate::from_fields(&fields) {
        Some(a) => Ok(a),
        None => Err(ClientError::InvalidJson(None, text)),
    }
}

/// What a sign body resolves to: the tokens of a started order, the service's
/// error, or otherwise the decode error.
pub fn resolve_sign(text: String) -> (r: Result<SignResponse, ClientError>)
    ensures
        match r {
            Ok(a) => start_model(text@) == Some(a@),
            Err(e) => start_model(text@) is None && is_decode_error(e, text@),
        },
{
    let fields = match parse_object_or_error(text.as_str()) {
        Ok(f) => f,
        Err(e) => return Err(ClientError::InvalidJson(Some(e), text)),
    };
    match SignResponse::from_fields(&fields) {
        Some(a) => Ok(a),
        None => Err(ClientError::InvalidJson(None, text)),
    }
}

/// What a cancel body resolves to: the service's error where the body is an
/// error body, success for any other object, and otherwise the decode error.
pub fn resolve_cancel(text: String) -> (r: Result<CancelResponse, ClientError>)
    ensures
        match r {
            Ok(_) => object_fields(text@) is Some && api_error_model(text@) is None,
            Err(ClientError::Api(e)) => api_error_model(text@) == Some((e.error_code@, e.details@)),
            Err(e) => object_fields(text@) is None && is_decode_error(e, text@),
        },
{
    match parse_object_or_error(text.as_str()) {
        Ok(fields) => match ApiError::from_fields(&fields) {
            Some(e) => Err(ClientError::Api(e)),
            None => Ok(CancelResponse {}),
        },
        Err(e) => Err(ClientError::InvalidJson(Some(e), text)),
    }
}

/// A start body that holds all four tokens of a started order resolves to
/// those tokens, whatever else it holds; one that holds the error code and
/// details but not all four tokens resolves to that error.
pub proof fn lemma_start_resolution(text: Seq<char>)
    requires
        object_fields(text) is Some,
    ensures
        start_success_from_fields(object_fields(text)->Some_0) matches Some(s) ==> start_model(text) == Some(s)
            && s is Success,
        start_success_from_fields(object_fields(text)->Some_0) is None
            ==> match api_error_from_fields(object_fields(text)->Some_0) {
                Some(e) => start_model(text) == Some(StartView::Error { error_code: e.0, details: e.1 }),
                None => start_model(text) is None,
            },
{
}

/// A collect body that holds the error code and details resolves to that
/// error, whatever its `status` holds; a body without `errorCode` whose
/// `status` is `pending` and that holds the order reference and hint code
/// resolves to a pending order.
pub proof fn lemma_collect_resolution_order(text: Seq<char>)
    requires
        object_fields(text) is Some,
    ensures
        api_error_from_fields(object_fields(text)->Some_0) matches Some(e)
            ==> collect_model(text) == Some(CollectView::Error { error_code: e.0, details: e.1 }),
        ({
            let f = object_fields(text)->Some_0;
            field(f, "errorCode"@) is None && string_field(f, "status"@) == Some("pending"@)
                && string_field(f, "orderRef"@) is Some && string_field(f, "hintCode"@) is Some
                ==> collect_model(text) == Some(CollectView::Pending {
                    order_ref: string_field(f, "orderRef"@)->Some_0,
                    hint_code: string_field(f, "hintCode"@)->Some_0,
                })
        }),
{
}

} // verus!
