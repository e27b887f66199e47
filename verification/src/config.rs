//! Connection configuration: redirect policy, request method, and the
//! translation of the options struct into the native engine's
//! initialization parameters.

use vstd::prelude::*;
use vstd::string::StringExecFns;

verus! {

/// When the connection follows 3xx responses: never, only for GET and HEAD
/// requests, or for every method.
#[derive(Clone, Copy, Debug, PartialEq, Eq, Structural)]
pub enum FollowRedirectsPolicy {
    FollowNone,
    FollowGetHead,
    FollowAll,
}

impl Default for FollowRedirectsPolicy {
    fn default() -> (r: Self)
        ensures
            r == FollowRedirectsPolicy::FollowGetHead,
    {
        FollowRedirectsPolicy::FollowGetHead
    }
}

/// The HTTP request method, as far as the connection's own logic reads it.
#[derive(Clone, Copy, Debug, PartialEq, Eq, Structural)]
pub enum Method {
    Delete,
    Get,
    Head,
    Post,
    Put,
    Options,
    Patch,
}

/// Whether redirects are followed for a request: the policy crossed with
/// the request's method.
pub open spec fn follow_redirects_for(policy: FollowRedirectsPolicy, method: Method) -> bool {
    match policy {
        FollowRedirectsPolicy::FollowAll => true,
        FollowRedirectsPolicy::FollowGetHead => method == Method::Get || method == Method::Head,
        FollowRedirectsPolicy::FollowNone => false,
    }
}

/// The options a connection is constructed from.  Read once at
/// construction, never mutated afterwards.  Certificate and key are carried
/// as opaque PEM bytes and passed through to the engine unmodified.
#[derive(Clone, Debug)]
pub struct Configuration {
    pub buffer_size: Option<usize>,
    pub buffer_size_tx: Option<usize>,
    pub timeout_ms: Option<u64>,
    pub follow_redirects_policy: FollowRedirectsPolicy,
    pub client_certificate: Option<Vec<u8>>,
    pub private_key: Option<Vec<u8>>,
    pub use_global_ca_store: bool,
}

impl Default for Configuration {
    fn default() -> (r: Self)
        ensures
            r.buffer_size is None,
            r.buffer_size_tx is None,
            r.timeout_ms is None,
            r.follow_redirects_policy == FollowRedirectsPolicy::FollowGetHead,
            r.client_certificate is None,
            r.private_key is None,
            !r.use_global_ca_store,
    {
        Configuration {
            buffer_size: None,
            buffer_size_tx: None,
            timeout_ms: None,
            follow_redirects_policy: FollowRedirectsPolicy::FollowGetHead,
            client_certificate: None,
            private_key: None,
            use_global_ca_store: false,
        }
    }
}

/// The engine's initialization parameters, as plain values.  A field left
/// `None` keeps the engine's own default.
#[derive(Clone, Debug)]
pub struct NativeConfig {
    /// The engine insists on a valid URL at initialization; a placeholder is
    /// set here and replaced when the request is composed.
    pub url: String,
    pub buffer_size: Option<usize>,
    pub buffer_size_tx: Option<usize>,
    pub timeout_ms: Option<u64>,
    pub use_global_ca_store: bool,
    /// The engine session is opened in asynchronous mode.
    pub is_async: bool,
    pub client_cert_pem: Option<Vec<u8>>,
    pub client_key_pem: Option<Vec<u8>>,
}

impl Configuration {
    /// Translates the options into engine initialization parameters.  A
    /// client certificate is wired through only together with its private
    /// key: one without the other configures neither.
    pub fn to_native(&self) -> (r: NativeConfig)
        ensures
            r.url@ == "http://127.0.0.1"@,
            r.buffer_size == self.buffer_size,
            r.buffer_size_tx == self.buffer_size_tx,
            r.timeout_ms == self.timeout_ms,
            r.use_global_ca_store == self.use_global_ca_store,
            r.is_async,
            r.client_cert_pem.deep_view() == (if self.client_certificate is Some
                && self.private_key is Some {
                self.client_certificate.deep_view()
            } else {
                Option::<Seq<u8>>::None
            }),
            r.client_key_pem.deep_view() == (if self.client_certificate is Some
                && self.private_key is Some {
                self.private_key.deep_view()
            } else {
                Option::<Seq<u8>>::None
            }),
    {
        let (cert, key): (Option<Vec<u8>>, Option<Vec<u8>>) = match (
            &self.client_certificate,
            &self.private_key,
        ) {
            (Some(c), Some(k)) => (Some(c.clone()), Some(k.clone())),
            _ => (None, None),
        };
        NativeConfig {
            url: String::from_str("http://127.0.0.1"),
            buffer_size: self.buffer_size,
            buffer_size_tx: self.buffer_size_tx,
            timeout_ms: self.timeout_ms,
            use_global_ca_store: self.use_global_ca_store,
            is_async: true,
            client_cert_pem: cert,
            client_key_pem: key,
        }
    }
}

} // verus!
