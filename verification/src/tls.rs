//! TLS material for the listener: certificates and the private key out of PEM
//! files, and the server configuration made from them.

use vstd::prelude::*;
use std::sync::Arc;
use rustls::ServerConfig;
use rustls::pki_types::CertificateDer;
use rustls::pki_types::PrivateKeyDer;
use rustls_pemfile::Item;

verus! {

/// `std::io::Error`, carried through as it comes: nothing is known of what
/// it holds.
#[verifier::external_type_specification]
#[verifier::external_body]
pub struct ExIoError(std::io::Error);

/// `rustls::Error`, carried through as it comes.
#[verifier::external_type_specification]
#[verifier::external_body]
pub struct ExRustlsError(rustls::Error);

/// `rustls::ServerConfig`: what the listener is started with. Nothing is
/// known of what it holds.
#[verifier::external_type_specification]
#[verifier::external_body]
pub struct ExServerConfig(ServerConfig);

/// Why no server configuration could be made.
#[derive(Debug)]
pub enum TlsError {
    CargoManifestCheckFail(std::io::Error),
    CertFileRead(std::io::Error),
    KeyFileRead(std::io::Error),
    CertPemFile(std::io::Error),
    KeyPemFile(std::io::Error),
    PrivateKeyCreate(&'static str),
    NoKeysFound,
    ConfigBuild(rustls::Error),
}

/// One section of a PEM file, as far as key loading tells sections apart: a
/// private key in one of the three DER encodings, with its bytes, or
/// anything else.
#[derive(Debug)]
pub enum PemItem {
    Sec1Key(Vec<u8>),
    Pkcs1Key(Vec<u8>),
    Pkcs8Key(Vec<u8>),
    Other,
}

/// The mathematical value of a [`PemItem`].
pub enum PemItemModel {
    Sec1Key(Seq<u8>),
    Pkcs1Key(Seq<u8>),
    Pkcs8Key(Seq<u8>),
    Other,
}

impl View for PemItem {
    type V = PemItemModel;

    open spec fn view(&self) -> PemItemModel {
        match self {
            PemItem::Sec1Key(der) => PemItemModel::Sec1Key(der@),
            PemItem::Pkcs1Key(der) => PemItemModel::Pkcs1Key(der@),
            PemItem::Pkcs8Key(der) => PemItemModel::Pkcs8Key(der@),
            PemItem::Other => PemItemModel::Other,
        }
    }
}

impl PemItemModel {
    /// The DER bytes of a private key section; `None` for any other section.
    pub open spec fn key_der(self) -> Option<Seq<u8>> {
        match self {
            PemItemModel::Sec1Key(der) => Some(der),
            PemItemModel::Pkcs1Key(der) => Some(der),
            PemItemModel::Pkcs8Key(der) => Some(der),
            PemItemModel::Other => None,
        }
    }
}

/// The certificates that `rustls_pemfile::certs` reads out of a PEM file, in
/// order, each as its DER bytes; `None` where it reports an error.
pub uninterp spec fn pem_certs(pem: Seq<u8>) -> Option<Seq<Seq<u8>>>;

/// The sections that `rustls_pemfile::read_all` reads out of a PEM file, in
/// order; `None` where it reports an error.
pub uninterp spec fn pem_sections(pem: Seq<u8>) -> Option<Seq<PemItemModel>>;

/// Whether `PrivateKeyDer::try_from` recognises the bytes as a DER private
/// key in one of its three encodings.
///
/// This stays a name. The outside function guesses the encoding from the
/// first bytes, by a rule that its documentation does not give and that is
/// its own to change; the rule is no part of this library, which only needs
/// to know whether the guess succeeded.
pub uninterp spec fn recognised_key_der(der: Seq<u8>) -> bool;

/// The views of a list of byte strings.
pub open spec fn blobs(list: Seq<Vec<u8>>) -> Seq<Seq<u8>> {
    list.map_values(|b: Vec<u8>| b@)
}

/// The views of a list of PEM sections.
pub open spec fn sections(list: Seq<PemItem>) -> Seq<PemItemModel> {
    list.map_values(|i: PemItem| i@)
}

/// The DER bytes of the first private key among the sections, whatever
/// stands before it; `None` where no section is a private key.
pub open spec fn first_key(items: Seq<PemItemModel>) -> Option<Seq<u8>>
    decreases items.len(),
{
    if items.len() == 0 {
        None
    } else if items.first().key_der() is Some {
        items.first().key_der()
    } else {
        first_key(items.drop_first())
    }
}

/// The ways in which loading can fail before the configuration is built.
pub enum LoadFailure {
    CertPemFile,
    KeyPemFile,
    NoKeysFound,
    PrivateKeyCreate,
}

/// What the two PEM files yield: the certificate chain and the DER bytes of
/// the private key, or the first step that failed. The certificate file is
/// read first, then the key file; the first private key found is the one
/// that counts, and it is not replaced by a later one if it is not
/// recognised.
pub open spec fn tls_material(tls_cert: Seq<u8>, tls_key: Seq<u8>) -> Result<
    (Seq<Seq<u8>>, Seq<u8>),
    LoadFailure,
> {
    match pem_certs(tls_cert) {
        None => Err(LoadFailure::CertPemFile),
        Some(certs) => match pem_sections(tls_key) {
            None => Err(LoadFailure::KeyPemFile),
            Some(items) => match first_key(items) {
                None => Err(LoadFailure::NoKeysFound),
                Some(der) => if recognised_key_der(der) {
                    Ok((certs, der))
                } else {
                    Err(LoadFailure::PrivateKeyCreate)
                },
            },
        },
    }
}

impl TlsError {
    /// Whether this error is the given failure to load.
    pub open spec fn is_failure(self, failure: LoadFailure) -> bool {
        match failure {
            LoadFailure::CertPemFile => self is CertPemFile,
            LoadFailure::KeyPemFile => self is KeyPemFile,
            LoadFailure::NoKeysFound => self is NoKeysFound,
            LoadFailure::PrivateKeyCreate => self is PrivateKeyCreate,
        }
    }

    /// The text that describes an error.
    pub open spec fn spec_message(self) -> Seq<char> {
        match self {
            TlsError::CargoManifestCheckFail(_) =>
                "failed to check dir existance from CARGO_MANIFEST_DIR"@,
            TlsError::CertFileRead(_) => "failed to read cert file"@,
            TlsError::KeyFileRead(_) => "failed to read key file"@,
            TlsError::CertPemFile(_) => "cert pem file error"@,
            TlsError::KeyPemFile(_) => "key pem file error"@,
            TlsError::PrivateKeyCreate(_) => "cannot create private key"@,
            TlsError::NoKeysFound => "no keys found in keys file"@,
            TlsError::ConfigBuild(_) => "config build error"@,
        }
    }

    /// The text that describes this error.
    pub fn message(&self) -> (text: String)
        ensures
            text@ == self.spec_message(),
    {
        match self {
            TlsError::CargoManifestCheckFail(_) =>
                "failed to check dir existance from CARGO_MANIFEST_DIR".to_owned(),
            TlsError::CertFileRead(_) => "failed to read cert file".to_owned(),
            TlsError::KeyFileRead(_) => "failed to read key file".to_owned(),
            TlsError::CertPemFile(_) => "cert pem file error".to_owned(),
            TlsError::KeyPemFile(_) => "key pem file error".to_owned(),
            TlsError::PrivateKeyCreate(_) => "cannot create private key".to_owned(),
            TlsError::NoKeysFound => "no keys found in keys file".to_owned(),
            TlsError::ConfigBuild(_) => "config build error".to_owned(),
        }
    }
}

/// Calls `rustls_pemfile::certs` on the bytes of a PEM file and collects what
/// it yields. Claimed: the outcome is that of `pem_certs` on the same bytes,
/// the certificates as their DER bytes and an error as `None`.
#[verifier::external_body]
fn read_certs(pem: &[u8]) -> (res: Result<Vec<Vec<u8>>, std::io::Error>)
    ensures
        match res {
            Ok(certs) => pem_certs(pem@) == Some(blobs(certs@)),
            Err(_) => pem_certs(pem@) is None,
        },
{
    let mut reader = pem;
    rustls_pemfile::certs(&mut reader).map(|cert| cert.map(|der| der.to_vec())).collect()
}

/// Calls `rustls_pemfile::read_all` on the bytes of a PEM file and collects
/// what it yields. Claimed: the outcome is that of `pem_sections` on the same
/// bytes, each private key section with its DER bytes, every other section
/// as `Other`, and an error as `None`.
#[verifier::external_body]
fn read_sections(pem: &[u8]) -> (res: Result<Vec<PemItem>, std::io::Error>)
    ensures
        match res {
            Ok(items) => pem_sections(pem@) == Some(sections(items@)),
            Err(_) => pem_sections(pem@) is None,
        },
{
    let mut reader = pem;
    rustls_pemfile::read_all(&mut reader).map(|read| read.map(|item| match item {
        Item::Sec1Key(key) => PemItem::Sec1Key(key.secret_sec1_der().to_vec()),
        Item::Pkcs1Key(key) => PemItem::Pkcs1Key(key.secret_pkcs1_der().to_vec()),
        Item::Pkcs8Key(key) => PemItem::Pkcs8Key(key.secret_pkcs8_der().to_vec()),
        _ => PemItem::Other,
    })).collect()
}

/// Calls `PrivateKeyDer::try_from` on DER bytes and keeps its verdict.
/// Claimed: it succeeds exactly on the bytes that `recognised_key_der` holds
/// of.
#[verifier::external_body]
fn check_key(der: &[u8]) -> (res: Result<(), &'static str>)
    ensures
        res is Ok == recognised_key_der(der@),
{
    PrivateKeyDer::try_from(der).map(|_| ())
}

/// Builds a `rustls::ServerConfig` on the `ring` provider with the default
/// protocol versions and no client authentication, for the certificate chain
/// of the material and the private key made of its DER bytes by
/// `PrivateKeyDer::try_from`, offering its ALPN protocols. Nothing is
/// claimed of the configuration; an error is whatever the builder reports.
#[verifier::external_body]
fn build_config(material: TlsMaterial) -> (res: Result<ServerConfig, rustls::Error>) {
    let chain = material.certs.into_iter().map(CertificateDer::from).collect();
    let key = PrivateKeyDer::try_from(material.key_der)
        .map_err(|e| rustls::Error::General(e.to_string()))?;
    let provider = Arc::new(rustls::crypto::ring::default_provider());
    let mut config = ServerConfig::builder_with_provider(provider)
        .with_safe_default_protocol_versions()?
        .with_no_client_auth()
        .with_single_cert(chain, key)?;
    config.alpn_protocols = material.alpn;
    Ok(config)
}

/// The application protocols that the listener offers, in order of
/// preference: HTTP/2, then HTTP/1.1.
pub open spec fn spec_alpn_protocols() -> Seq<Seq<u8>> {
    seq![
        seq![104u8, 50u8],
        seq![104u8, 116u8, 116u8, 112u8, 47u8, 49u8, 46u8, 49u8],
    ]
}

/// The application protocols that the listener offers, in order of
/// preference: HTTP/2, then HTTP/1.1.
pub fn alpn_protocols() -> (protocols: Vec<Vec<u8>>)
    ensures
        blobs(protocols@) == spec_alpn_protocols(),
{
    let mut h2: Vec<u8> = Vec::new();
    h2.push(104u8);
    h2.push(50u8);
    let mut http11: Vec<u8> = Vec::new();
    http11.push(104u8);
    http11.push(116u8);
    http11.push(116u8);
    http11.push(112u8);
    http11.push(47u8);
    http11.push(49u8);
    http11.push(46u8);
    http11.push(49u8);
    let mut protocols: Vec<Vec<u8>> = Vec::new();
    protocols.push(h2);
    protocols.push(http11);
    assert(blobs(protocols@)[0] =~= spec_alpn_protocols()[0]);
    assert(blobs(protocols@)[1] =~= spec_alpn_protocols()[1]);
    assert(blobs(protocols@) =~= spec_alpn_protocols());
    protocols
}

/// Picks the private key out of the sections of a key file: the first
/// section that is a private key, in any of the three encodings, whatever
/// other sections stand before it.
pub fn select_private_key(items: Vec<PemItem>) -> (key: Option<Vec<u8>>)
    ensures
        match key {
            Some(der) => first_key(sections(items@)) == Some(der@),
            None => first_key(sections(items@)) is None,
        },
{
    let mut pool = items;
    let ghost all = sections(items@);
    let mut i: usize = 0;
    let n: usize = pool.len();
    assert(all.skip(0) =~= all);
    while i < n
        invariant
            n == pool@.len(),
            i <= n,
            pool@ == items@,
            all == sections(items@),
            first_key(all) == first_key(all.skip(i as int)),
        decreases n - i,
    {
        let ghost rest = all.skip(i as int);
        assert(rest.first() == pool@[i as int]@);
        assert(rest.drop_first() =~= all.skip(i + 1));
        let is_key = match &pool[i] {
            PemItem::Other => false,
            _ => true,
        };
        if is_key {
            let item = pool.swap_remove(i);
            assert(item@ == rest.first());
            return match item {
                PemItem::Sec1Key(der) => Some(der),
                PemItem::Pkcs1Key(der) => Some(der),
                PemItem::Pkcs8Key(der) => Some(der),
                PemItem::Other => None,
            };
        }
        i += 1;
    }
    None
}

/// What a server configuration is built from: the certificate chain, the
/// private key, and the application protocols to offer. The certificates
/// and the key are held as their DER bytes.
pub struct TlsMaterial {
    pub certs: Vec<Vec<u8>>,
    pub key_der: Vec<u8>,
    pub alpn: Vec<Vec<u8>>,
}

/// Reads what the configuration is built from out of the contents of the
/// certificate file and of the key file.
///
/// The certificates are read first, then the sections of the key file, of
/// which the first private key is taken: the key of the material is that
/// key, byte for byte, whatever sections stand before and after it. Each
/// step that fails gives its own error, and the first failure decides.
pub fn load_material(tls_cert: &[u8], tls_key: &[u8]) -> (res: Result<TlsMaterial, TlsError>)
    ensures
        match tls_material(tls_cert@, tls_key@) {
            Err(failure) => res matches Err(e) && e.is_failure(failure),
            Ok((certs, der)) => res matches Ok(material) && blobs(material.certs@) == certs
                && material.key_der@ == der && blobs(material.alpn@) == spec_alpn_protocols(),
        },
{
    let certs = match read_certs(tls_cert) {
        Ok(certs) => certs,
        Err(e) => {
            return Err(TlsError::CertPemFile(e));
        },
    };
    let items = match read_sections(tls_key) {
        Ok(items) => items,
        Err(e) => {
            return Err(TlsError::KeyPemFile(e));
        },
    };
    let der = match select_private_key(items) {
        Some(der) => der,
        None => {
            return Err(TlsError::NoKeysFound);
        },
    };
    match check_key(der.as_slice()) {
        Ok(()) => Ok(TlsMaterial { certs, key_der: der, alpn: alpn_protocols() }),
        Err(e) => Err(TlsError::PrivateKeyCreate(e)),
    }
}

/// What the builder's verdict means for the caller: the configuration, or
/// the builder's error as the error of this module.
pub fn built(verdict: Result<ServerConfig, rustls::Error>) -> (res: Result<ServerConfig, TlsError>)
    ensures
        match verdict {
            Ok(config) => res == Ok::<ServerConfig, TlsError>(config),
            Err(e) => res == Err::<ServerConfig, TlsError>(TlsError::ConfigBuild(e)),
        },
{
    match verdict {
        Ok(config) => Ok(config),
        Err(e) => Err(TlsError::ConfigBuild(e)),
    }
}

/// Makes the listener's TLS configuration out of the contents of the
/// certificate file and of the key file.
///
/// Where loading fails, the error is that of the step that failed first.
/// Where it succeeds the configuration is built from what was loaded; the
/// builder may still refuse the chain or the key.
pub fn server_config(tls_cert: &[u8], tls_key: &[u8]) -> (res: Result<ServerConfig, TlsError>)
    ensures
        match tls_material(tls_cert@, tls_key@) {
            Err(failure) => res matches Err(e) && e.is_failure(failure),
            Ok(_) => res matches Err(e) ==> e is ConfigBuild,
        },
{
    match load_material(tls_cert, tls_key) {
        Ok(material) => built(build_config(material)),
        Err(e) => Err(e),
    }
}

} // verus!
