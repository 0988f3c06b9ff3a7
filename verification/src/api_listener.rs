//! What the bring-up of the HTTP API decides before it opens its listener.

use vstd::prelude::*;
use vstd::string::*;

verus! {

/// How the API listens.
#[derive(Clone, Debug, PartialEq, Eq)]
pub enum ListenerChoice {
    /// With TLS, from the certificate and the key in the two files.
    Tls {
        /// The path of the certificate.
        cert_path: String,
        /// The path of the private key.
        key_path: String,
    },
    /// Without TLS.
    Plain,
}

/// The API listens with TLS exactly if both a certificate and a key are
/// configured.
pub fn choose_listener(tls_cert_path: Option<String>, tls_key_path: Option<String>) -> (choice:
    ListenerChoice)
    ensures
        choice == match (tls_cert_path, tls_key_path) {
            (Some(cert_path), Some(key_path)) => ListenerChoice::Tls { cert_path, key_path },
            _ => ListenerChoice::Plain,
        },
{
    match (tls_cert_path, tls_key_path) {
        (Some(cert_path), Some(key_path)) => ListenerChoice::Tls { cert_path, key_path },
        _ => ListenerChoice::Plain,
    }
}

/// The version that the API document announces: the configured one, or
/// `0.1.0` if none is configured.
pub fn api_version(configured: Option<String>) -> (version: String)
    ensures
        version@ == match configured {
            Some(version) => version@,
            None => "0.1.0"@,
        },
{
    match configured {
        Some(version) => version,
        None => String::from_str("0.1.0"),
    }
}

/// What the bring-up reports if the certificate at `path` cannot be read.
pub fn tls_cert_read_failure(path: &str) -> (message: String)
    ensures
        message@ == "Failed to read TLS cert from path: "@ + path@,
{
    String::from_str("Failed to read TLS cert from path: ").concat(path)
}

/// What the bring-up reports if the key at `path` cannot be read.
pub fn tls_key_read_failure(path: &str) -> (message: String)
    ensures
        message@ == "Failed to read TLS key from path: "@ + path@,
{
    String::from_str("Failed to read TLS key from path: ").concat(path)
}

} // verus!
