//! TLS material: where the certificates are, and reading PEM text.
use vstd::prelude::*;
use crate::text::owned;

verus! {

/// Where the TLS certificates are.
pub struct TlsConfig {
    /// The certificate authority's certificate.
    pub ca_cert_path: Option<String>,
    /// The client or server certificate.
    pub cert_path: String,
    /// The client or server private key.
    pub key_path: String,
    /// The server name expected for SNI and validation.
    pub server_name: Option<String>,
}

/// What rustls-pemfile's `certs` reads from PEM text, collected: the DER bytes of each
/// certificate section in order, or `None` when reading fails before the end.
pub uninterp spec fn pem_certificates(data: Seq<char>) -> Option<Seq<Seq<u8>>>;

/// What rustls-pemfile's `private_key` reads from PEM text: the secret DER bytes of the first
/// private key section, no key, or `None` when reading fails.
pub uninterp spec fn pem_private_key(data: Seq<char>) -> Option<Option<Seq<u8>>>;

pub open spec fn ders_view(v: Seq<Vec<u8>>) -> Seq<Seq<u8>> {
    v.map_values(|d: Vec<u8>| d@)
}

/// rustls-pemfile's `certs` over the text's bytes, collected into DER byte vectors; named
/// `pem_certificates` of the text.
#[verifier::external_body]
fn read_pem_certificates(data: &str) -> (r: Option<Vec<Vec<u8>>>)
    ensures
        match pem_certificates(data@) {
            Some(v) => r is Some && ders_view(r->0@) == v,
            None => r is None,
        },
{
    let mut rd = data.as_bytes();
    rustls_pemfile::certs(&mut rd).map(|c| c.map(|c| c.as_ref().to_vec())).collect::<Result<Vec<_>, _>>().ok()
}

/// rustls-pemfile's `private_key` over the text's bytes, the key as its secret DER bytes;
/// named `pem_private_key` of the text.
#[verifier::external_body]
fn read_pem_private_key(data: &str) -> (r: Option<Option<Vec<u8>>>)
    ensures
        match pem_private_key(data@) {
            Some(Some(k)) => r matches Some(Some(d)) && d@ == k,
            Some(None) => r matches Some(None),
            None => r is None,
        },
{
    let mut rd = data.as_bytes();
    match rustls_pemfile::private_key(&mut rd) {
        Ok(Some(k)) => Some(Some(k.secret_der().to_vec())),
        Ok(None) => Some(None),
        Err(_) => None,
    }
}

/// Why PEM text could not be read.
pub enum TlsError {
    /// The certificates could not be read.
    Certificates(String),
    /// The key could not be read.
    Key(String),
    /// The text holds no private key.
    NoKey(String),
}

/// Reads the certificates of PEM text (their DER bytes, in order).
pub fn load_certs_from_memory(data: &str) -> (r: Result<Vec<Vec<u8>>, TlsError>)
    ensures
        match pem_certificates(data@) {
            Some(v) => r is Ok && ders_view(r->Ok_0@) == v,
            None => r matches Err(TlsError::Certificates(m)) && m@ == "failed to load certs from memory"@,
        },
{
    match read_pem_certificates(data) {
        Some(v) => Ok(v),
        None => Err(TlsError::Certificates(owned("failed to load certs from memory"))),
    }
}

/// Reads the first private key of PEM text (its secret DER bytes).
pub fn load_key_from_memory(data: &str) -> (r: Result<Vec<u8>, TlsError>)
    ensures
        match pem_private_key(data@) {
            Some(Some(k)) => r is Ok && r->Ok_0@ == k,
            Some(None) => r matches Err(TlsError::NoKey(m)) && m@ == "no key found in memory"@,
            None => r matches Err(TlsError::Key(m)) && m@ == "failed to load key from memory"@,
        },
{
    match read_pem_private_key(data) {
        Some(Some(k)) => Ok(k),
        Some(None) => Err(TlsError::NoKey(owned("no key found in memory"))),
        None => Err(TlsError::Key(owned("failed to load key from memory"))),
    }
}

} // verus!
