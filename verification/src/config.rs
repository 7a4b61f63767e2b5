//! The server-configuration contract: from a certificate chain and a key
//! sequence (both as DER bytes) to a TLS engine configuration, and from
//! there to the cheaply duplicable acceptor handle every handler task holds.
//!
//! The TLS engine itself (rustls, reached through async-tls) is trusted:
//! each call into it stands behind a contract stated here.

use vstd::prelude::*;

use crate::ServerError;

verus! {

/// Makes `rustls::ServerConfig` usable in signatures; the value is opaque.
#[verifier::external_type_specification]
#[verifier::external_body]
pub struct ExServerConfig(rustls::ServerConfig);

/// Makes `rustls::Error` usable in signatures; the value is opaque.
#[verifier::external_type_specification]
#[verifier::external_body]
pub struct ExRustlsError(rustls::Error);

/// Makes `async_tls::TlsAcceptor` usable in signatures; the value is opaque.
#[verifier::external_type_specification]
#[verifier::external_body]
pub struct ExTlsAcceptor(async_tls::TlsAcceptor);

/// Makes `std::io::Error` usable in signatures; the value is opaque.
#[verifier::external_type_specification]
#[verifier::external_body]
pub struct ExIoError(std::io::Error);

/// What PEM decoding yields on these bytes: the DER bytes of every
/// `CERTIFICATE` section in file order, or nothing when the PEM structure
/// or its base64 payload is malformed. Deterministic in the bytes alone.
pub uninterp spec fn pem_certificates_of(data: Seq<u8>) -> Option<Seq<Seq<u8>>>;

/// What PKCS#8 PEM decoding yields on these bytes: the DER bytes of every
/// `PRIVATE KEY` section in file order, or nothing when the PEM structure
/// or its base64 payload is malformed. Deterministic in the bytes alone.
pub uninterp spec fn pem_pkcs8_keys_of(data: Seq<u8>) -> Option<Seq<Seq<u8>>>;

/// Relies on `rustls_pemfile::certs`: it decodes every `CERTIFICATE` PEM
/// section of its input into DER bytes, in order, and fails exactly on
/// malformed PEM or base64.
#[verifier::external_body]
fn pem_parse_certificates(data: &Vec<u8>) -> (r: Result<Vec<Vec<u8>>, std::io::Error>)
    ensures
        r matches Ok(v) ==> pem_certificates_of(data@) == Some(v.deep_view()),
        r is Err ==> pem_certificates_of(data@) is None,
{
    rustls_pemfile::certs(&mut data.as_slice())
}

/// Relies on `rustls_pemfile::pkcs8_private_keys`: it decodes every
/// `PRIVATE KEY` PEM section of its input into DER bytes, in order, and
/// fails exactly on malformed PEM or base64.
#[verifier::external_body]
fn pem_parse_pkcs8_keys(data: &Vec<u8>) -> (r: Result<Vec<Vec<u8>>, std::io::Error>)
    ensures
        r matches Ok(v) ==> pem_pkcs8_keys_of(data@) == Some(v.deep_view()),
        r is Err ==> pem_pkcs8_keys_of(data@) is None,
{
    rustls_pemfile::pkcs8_private_keys(&mut data.as_slice())
}

/// Decodes a certificate-chain file's bytes into DER certificates; a
/// malformed file is `InvalidCertificate`, and nothing else ever is.
pub fn parse_certificates(data: &Vec<u8>) -> (r: Result<Vec<Vec<u8>>, ServerError>)
    ensures
        r matches Ok(v) ==> pem_certificates_of(data@) == Some(v.deep_view()),
        r matches Err(e) ==> pem_certificates_of(data@) is None && e
            == ServerError::InvalidCertificate,
{
    match pem_parse_certificates(data) {
        Ok(v) => Ok(v),
        Err(_malformed) => Err(ServerError::InvalidCertificate),
    }
}

/// Decodes a key file's bytes into DER PKCS#8 private keys; a malformed
/// file is `InvalidKey`, and nothing else ever is.
pub fn parse_private_keys(data: &Vec<u8>) -> (r: Result<Vec<Vec<u8>>, ServerError>)
    ensures
        r matches Ok(v) ==> pem_pkcs8_keys_of(data@) == Some(v.deep_view()),
        r matches Err(e) ==> pem_pkcs8_keys_of(data@) is None && e == ServerError::InvalidKey,
{
    match pem_parse_pkcs8_keys(data) {
        Ok(v) => Ok(v),
        Err(_malformed) => Err(ServerError::InvalidKey),
    }
}

/// Whether the TLS engine accepts these DER bytes as a usable private key.
/// The engine decides by the key bytes alone, deterministically; what it
/// accepts (RSA, ECDSA or Ed25519 keys in supported encodings) takes pages
/// to state, so it is only named here.
pub uninterp spec fn engine_accepts_key(key: Seq<u8>) -> bool;

/// Relies on rustls's server `ConfigBuilder`: `with_safe_defaults` and
/// `with_no_client_auth` only choose defaults and cannot fail, and
/// `with_single_cert` returns `Ok` exactly when the private key parses as a
/// key of a supported type — its outcome depends on the key bytes alone,
/// and the chain is stored unexamined.
#[verifier::external_body]
fn engine_build_config(cert_chain: &Vec<Vec<u8>>, key: &Vec<u8>) -> (r: Result<
    rustls::ServerConfig,
    rustls::Error,
>)
    ensures
        r is Ok <==> engine_accepts_key(key@),
{
    let chain: Vec<rustls::Certificate> =
        cert_chain.iter().map(|c| rustls::Certificate(c.clone())).collect();
    rustls::ServerConfig::builder()
        .with_safe_defaults()
        .with_no_client_auth()
        .with_single_cert(chain, rustls::PrivateKey(key.clone()))
}

/// Relies on `async_tls::TlsAcceptor::from(Arc<rustls::ServerConfig>)`: it
/// wraps the configuration in a reference-counted handle and touches
/// nothing else. The result is opaque, so the caller carries the
/// configuration's model alongside in ghost state.
#[verifier::external_body]
fn engine_acceptor(config: rustls::ServerConfig) -> async_tls::TlsAcceptor {
    async_tls::TlsAcceptor::from(std::sync::Arc::new(config))
}

/// Relies on the derived `Clone` of `async_tls::TlsAcceptor`: it clones the
/// inner `Arc`, so both handles reference the same configuration and no
/// cryptographic state is copied.
#[verifier::external_body]
fn engine_acceptor_clone(acceptor: &async_tls::TlsAcceptor) -> async_tls::TlsAcceptor {
    acceptor.clone()
}

/// The mathematical content of a server configuration: the DER bytes of
/// the certificate chain, in order, and of the one selected private key.
pub struct ConfigView {
    pub certs: Seq<Seq<u8>>,
    pub key: Seq<u8>,
}

/// A well-formed configuration holds at least one certificate and a key
/// the engine accepts.
pub open spec fn config_wf(v: ConfigView) -> bool {
    v.certs.len() >= 1 && engine_accepts_key(v.key)
}

/// What building a configuration from a chain and a key sequence yields:
/// no key at all is `NoKeyProvided`; an empty chain, or a first key the
/// engine rejects, is `ConfigurationRejected`; otherwise the configuration
/// holds the whole chain and the first key.
pub open spec fn spec_build_config(certs: Seq<Seq<u8>>, keys: Seq<Seq<u8>>) -> Result<
    ConfigView,
    ServerError,
> {
    if keys.len() == 0 {
        Err(ServerError::NoKeyProvided)
    } else if certs.len() == 0 {
        Err(ServerError::ConfigurationRejected)
    } else if !engine_accepts_key(keys[0]) {
        Err(ServerError::ConfigurationRejected)
    } else {
        Ok(ConfigView { certs, key: keys[0] })
    }
}

/// An immutable server configuration: the TLS engine's configured state
/// together with the credentials it was built from. Built once at startup;
/// nothing mutates it afterwards (no method takes `&mut self`).
pub struct TlsServerConfig {
    engine: rustls::ServerConfig,
    cert_chain: Vec<Vec<u8>>,
    key: Vec<u8>,
}

impl View for TlsServerConfig {
    type V = ConfigView;

    closed spec fn view(&self) -> ConfigView {
        ConfigView { certs: self.cert_chain.deep_view(), key: self.key@ }
    }
}

impl TlsServerConfig {
    /// How many certificates the configured chain holds.
    pub fn cert_count(&self) -> (n: usize)
        ensures
            n == self@.certs.len(),
    {
        self.cert_chain.len()
    }
}

/// Builds the server configuration from a certificate chain and the key
/// sequence a key file yielded, selecting the first key, exactly as
/// `spec_build_config` describes.
pub fn build_server_config(certs: Vec<Vec<u8>>, keys: Vec<Vec<u8>>) -> (r: Result<
    TlsServerConfig,
    ServerError,
>)
    ensures
        r matches Ok(c) ==> spec_build_config(certs.deep_view(), keys.deep_view()) == Ok::<
            ConfigView,
            ServerError,
        >(c@) && config_wf(c@),
        r matches Err(e) ==> spec_build_config(certs.deep_view(), keys.deep_view()) == Err::<
            ConfigView,
            ServerError,
        >(e),
{
    let ghost keys_model = keys.deep_view();
    if keys.len() == 0 {
        return Err(ServerError::NoKeyProvided);
    }
    if certs.len() == 0 {
        return Err(ServerError::ConfigurationRejected);
    }
    let mut keys = keys;
    let key = keys.remove(0);
    proof {
        assert(key@ =~= keys_model[0]);
    }
    match engine_build_config(&certs, &key) {
        Ok(engine) => Ok(TlsServerConfig { engine, cert_chain: certs, key }),
        Err(_rejection) => Err(ServerError::ConfigurationRejected),
    }
}

/// The acceptor handle: shared ownership of one immutable server
/// configuration. Every handler task holds its own duplicate; all of them
/// reference the same configuration, whose model the handle carries as
/// ghost state.
pub struct TlsHandle {
    engine: async_tls::TlsAcceptor,
    config: Ghost<ConfigView>,
}

impl View for TlsHandle {
    type V = ConfigView;

    closed spec fn view(&self) -> ConfigView {
        self.config@
    }
}

impl TlsHandle {
    /// Wraps a built configuration into an acceptor handle. The handle's
    /// model is exactly the configuration it wraps.
    pub fn new(config: TlsServerConfig) -> (r: TlsHandle)
        ensures
            r@ == config@,
    {
        let ghost v = config@;
        let TlsServerConfig { engine, cert_chain, key } = config;
        TlsHandle { engine: engine_acceptor(engine), config: Ghost(v) }
    }

    /// Duplicates the handle for one more handler task: cheap shared
    /// ownership, referencing the same configuration — the duplicate's
    /// model is the original's, and `self` is untouched.
    pub fn duplicate(&self) -> (r: TlsHandle)
        ensures
            r@ == self@,
    {
        TlsHandle { engine: engine_acceptor_clone(&self.engine), config: Ghost(self.config@) }
    }

    /// The engine-side acceptor, for the unverified I/O layer to drive the
    /// handshake with.
    pub fn engine(&self) -> &async_tls::TlsAcceptor {
        &self.engine
    }
}

/// For every valid credential pair — at least one certificate, at least
/// one key, and a first key the engine accepts — building the server
/// configuration succeeds, and the configuration built is well formed and
/// holds exactly that chain and that first key.
pub proof fn lemma_valid_credentials_accepted(certs: Seq<Seq<u8>>, keys: Seq<Seq<u8>>)
    requires
        certs.len() >= 1,
        keys.len() >= 1,
        engine_accepts_key(keys[0]),
    ensures
        spec_build_config(certs, keys) == Ok::<ConfigView, ServerError>(
            ConfigView { certs, key: keys[0] },
        ),
        config_wf(spec_build_config(certs, keys)->Ok_0),
{
}

/// For every invalid credential pair, building fails with the matching
/// error kind: an empty key sequence is `NoKeyProvided`; an empty chain or
/// a first key the engine rejects is `ConfigurationRejected`. No other
/// error can come out of building.
pub proof fn lemma_invalid_credentials_rejected(certs: Seq<Seq<u8>>, keys: Seq<Seq<u8>>)
    requires
        keys.len() == 0 || certs.len() == 0 || !engine_accepts_key(keys[0]),
    ensures
        spec_build_config(certs, keys) is Err,
        keys.len() == 0 ==> spec_build_config(certs, keys) == Err::<ConfigView, ServerError>(
            ServerError::NoKeyProvided,
        ),
        keys.len() >= 1 ==> spec_build_config(certs, keys) == Err::<ConfigView, ServerError>(
            ServerError::ConfigurationRejected,
        ),
{
}

} // verus!
