//! TLS settings: where the certificate chain and the private key live, and
//! how their PEM text becomes a server configuration.
use vstd::prelude::*;

verus! {

#[verifier::external_type_specification]
#[verifier::external_body]
pub struct ExServerConfig(rustls::ServerConfig);

/// Where the PEM files of a TLS identity are.
#[derive(Clone, Debug)]
pub struct TlsConfig {
    /// Path to the certificate file (PEM format).
    pub cert_path: String,
    /// Path to the private key file (PEM format).
    pub key_path: String,
}

impl TlsConfig {
    /// A TLS configuration with these two paths.
    pub fn new(cert_path: &str, key_path: &str) -> (r: Self)
        ensures
            r.cert_path@ == cert_path@,
            r.key_path@ == key_path@,
    {
        TlsConfig { cert_path: cert_path.to_owned(), key_path: key_path.to_owned() }
    }
}

/// Why no server configuration could be made.
#[derive(Clone, Debug)]
pub enum TlsError {
    /// The certificate PEM could not be read; the message says why.
    Certificates(String),
    /// The private key PEM could not be read; the message says why.
    PrivateKeys(String),
    /// The private key PEM holds no PKCS#8 key.
    NoPrivateKey,
    /// rustls refused the certificate chain and key; the message says why.
    Rejected(String),
}

/// The plain content of a `TlsError`.
pub enum TlsFailure {
    Certificates(Seq<char>),
    PrivateKeys(Seq<char>),
    NoPrivateKey,
    Rejected(Seq<char>),
}

impl View for TlsError {
    type V = TlsFailure;

    open spec fn view(&self) -> TlsFailure {
        match self {
            TlsError::Certificates(m) => TlsFailure::Certificates(m@),
            TlsError::PrivateKeys(m) => TlsFailure::PrivateKeys(m@),
            TlsError::NoPrivateKey => TlsFailure::NoPrivateKey,
            TlsError::Rejected(m) => TlsFailure::Rejected(m@),
        }
    }
}

/// What `rustls_pemfile::certs` finds in a PEM text: the DER bytes of each
/// certificate in order, or the message of the first error.
pub uninterp spec fn pem_certificates(pem: Seq<u8>) -> Result<Seq<Seq<u8>>, Seq<char>>;

/// What `rustls_pemfile::pkcs8_private_keys` finds in a PEM text: the DER
/// bytes of each PKCS#8 key in order, or the message of the first error.
pub uninterp spec fn pem_pkcs8_keys(pem: Seq<u8>) -> Result<Seq<Seq<u8>>, Seq<char>>;

/// The plain content of a list of byte strings.
pub open spec fn blobs_view(v: Seq<Vec<u8>>) -> Seq<Seq<u8>> {
    v.map_values(|b: Vec<u8>| b@)
}

/// Relies on `rustls_pemfile::certs`: the certificates of a PEM text,
/// collected until the first error.
#[verifier::external_body]
fn read_certificates(pem: &[u8]) -> (r: Result<Vec<Vec<u8>>, String>)
    ensures
        r is Ok <==> pem_certificates(pem@) is Ok,
        r is Ok ==> blobs_view(r->Ok_0@) == pem_certificates(pem@)->Ok_0,
        r is Err ==> r->Err_0@ == pem_certificates(pem@)->Err_0,
{
    let mut reader: &[u8] = pem;
    match rustls_pemfile::certs(&mut reader).collect::<Result<Vec<_>, _>>() {
        Ok(certs) => Ok(certs.iter().map(|c| c.to_vec()).collect()),
        Err(e) => Err(e.to_string()),
    }
}

/// Relies on `rustls_pemfile::pkcs8_private_keys`: the PKCS#8 keys of a PEM
/// text, collected until the first error.
#[verifier::external_body]
fn read_pkcs8_keys(pem: &[u8]) -> (r: Result<Vec<Vec<u8>>, String>)
    ensures
        r is Ok <==> pem_pkcs8_keys(pem@) is Ok,
        r is Ok ==> blobs_view(r->Ok_0@) == pem_pkcs8_keys(pem@)->Ok_0,
        r is Err ==> r->Err_0@ == pem_pkcs8_keys(pem@)->Err_0,
{
    let mut reader: &[u8] = pem;
    match rustls_pemfile::pkcs8_private_keys(&mut reader).collect::<Result<Vec<_>, _>>() {
        Ok(keys) => Ok(keys.iter().map(|k| k.secret_pkcs8_der().to_vec()).collect()),
        Err(e) => Err(e.to_string()),
    }
}

/// Relies on `ServerConfig::builder_with_provider` with ring's default
/// provider, the safe default protocol versions, `with_no_client_auth` and
/// `with_single_cert`: a server configuration that asks no client
/// certificate, or the message of the refusal. Whether the key is accepted
/// may depend on the system's random source, so nothing is promised of it.
#[verifier::external_body]
fn single_cert_config(chain: Vec<Vec<u8>>, key: Vec<u8>) -> (r: Result<rustls::ServerConfig, String>) {
    let chain = chain.into_iter().map(rustls::pki_types::CertificateDer::from).collect();
    let key = rustls::pki_types::PrivatePkcs8KeyDer::from(key);
    let provider = std::sync::Arc::new(rustls::crypto::ring::default_provider());
    match rustls::ServerConfig::builder_with_provider(provider).with_safe_default_protocol_versions() {
        Ok(builder) => match builder.with_no_client_auth().with_single_cert(chain, key.into()) {
            Ok(config) => Ok(config),
            Err(e) => Err(e.to_string()),
        },
        Err(e) => Err(e.to_string()),
    }
}

/// The key that the server uses: the first of those found.
pub fn select_private_key(keys: Vec<Vec<u8>>) -> (r: Result<Vec<u8>, TlsError>)
    ensures
        r is Err <==> keys@.len() == 0,
        r is Err ==> r->Err_0@ == TlsFailure::NoPrivateKey,
        r is Ok ==> r->Ok_0@ == keys@[0]@,
{
    let mut keys = keys;
    if keys.len() == 0 {
        Err(TlsError::NoPrivateKey)
    } else {
        Ok(keys.remove(0))
    }
}

/// Why the two PEM texts cannot give a configuration before rustls is asked
/// to accept the chain and key, or nothing when they reach that point.
pub open spec fn pem_failure(cert_pem: Seq<u8>, key_pem: Seq<u8>) -> Option<TlsFailure> {
    match pem_certificates(cert_pem) {
        Err(e) => Some(TlsFailure::Certificates(e)),
        Ok(chain) => match pem_pkcs8_keys(key_pem) {
            Err(e) => Some(TlsFailure::PrivateKeys(e)),
            Ok(keys) => if keys.len() == 0 {
                Some(TlsFailure::NoPrivateKey)
            } else {
                None
            },
        },
    }
}

/// Builds the server configuration of a TLS listener from the PEM text of
/// its certificate chain and of its private key; no client certificate is
/// asked for. Where the PEM texts are fine, rustls either accepts the chain
/// and key or refuses them with a message.
pub fn build_server_config(cert_pem: &[u8], key_pem: &[u8]) -> (r: Result<
    rustls::ServerConfig,
    TlsError,
>)
    ensures
        pem_failure(cert_pem@, key_pem@) is Some ==> r is Err && Some(r->Err_0@) == pem_failure(
            cert_pem@,
            key_pem@,
        ),
        pem_failure(cert_pem@, key_pem@) is None ==> (r is Ok || r->Err_0 is Rejected),
{
    let chain = match read_certificates(cert_pem) {
        Ok(chain) => chain,
        Err(e) => {
            return Err(TlsError::Certificates(e));
        },
    };
    let keys = match read_pkcs8_keys(key_pem) {
        Ok(keys) => keys,
        Err(e) => {
            return Err(TlsError::PrivateKeys(e));
        },
    };
    proof {
        if keys@.len() > 0 {
            assert(blobs_view(keys@)[0] == keys@[0]@);
        }
    }
    let key = match select_private_key(keys) {
        Ok(key) => key,
        Err(e) => {
            return Err(e);
        },
    };
    match single_cert_config(chain, key) {
        Ok(config) => Ok(config),
        Err(e) => Err(TlsError::Rejected(e)),
    }
}

} // verus!
