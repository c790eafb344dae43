//! Loading one hostname's identity from the contents of its certificate and
//! key files.
use crate::identity::{
    certify, chain_view, identity_model, signer_available, IdentityModel, KeyEncoding, PrivateKey,
};
use rustls::sign::CertifiedKey;
use vstd::prelude::*;
use vstd::string::*;

verus! {

/// The I/O error type that the PEM reader reports, carried through unread.
#[verifier::external_type_specification]
#[verifier::external_body]
pub struct ExIoError(std::io::Error);

/// What the PEM reader makes of a certificate file: `None` where it reports
/// an error, else the DER bytes of each certificate section, in file order.
pub uninterp spec fn pem_certificates(pem: Seq<u8>) -> Option<Seq<Seq<u8>>>;

/// What the PEM reader makes of a key file: `None` where it reports an
/// error, `Some(None)` where the file holds no private key section, else the
/// encoding and DER bytes of the first one.
pub uninterp spec fn pem_private_key(pem: Seq<u8>) -> Option<Option<(KeyEncoding, Seq<u8>)>>;

/// Calls `rustls_pemfile::certs` on the bytes and collects what it yields.
///
/// Trusted: the result is a function of the bytes alone, named
/// [`pem_certificates`]; an error is returned exactly where that is `None`.
#[verifier::external_body]
pub(crate) fn read_certificates(pem: &[u8]) -> (r: Result<Vec<Vec<u8>>, std::io::Error>)
    ensures
        match r {
            Ok(certs) => pem_certificates(pem@) == Some(chain_view(certs@)),
            Err(_) => pem_certificates(pem@).is_none(),
        },
{
    let mut reader = pem;
    let mut certs = Vec::new();
    for cert in rustls_pemfile::certs(&mut reader) {
        certs.push(cert?.as_ref().to_vec());
    }
    Ok(certs)
}

/// Calls `rustls_pemfile::private_key` on the bytes.
///
/// Trusted: the result is a function of the bytes alone, named
/// [`pem_private_key`]; an error is returned exactly where that is `None`.
#[verifier::external_body]
pub(crate) fn read_private_key(pem: &[u8]) -> (r: Result<Option<PrivateKey>, std::io::Error>)
    ensures
        match r {
            Ok(Some(key)) => pem_private_key(pem@) == Some(Some((key.encoding, key.der@))),
            Ok(None) => pem_private_key(pem@) == Some(None::<(KeyEncoding, Seq<u8>)>),
            Err(_) => pem_private_key(pem@).is_none(),
        },
{
    let mut reader = pem;
    let (encoding, der) = match rustls_pemfile::private_key(&mut reader)? {
        Some(rustls::pki_types::PrivateKeyDer::Pkcs1(k)) => (KeyEncoding::Pkcs1, k.secret_pkcs1_der().to_vec()),
        Some(rustls::pki_types::PrivateKeyDer::Sec1(k)) => (KeyEncoding::Sec1, k.secret_sec1_der().to_vec()),
        Some(rustls::pki_types::PrivateKeyDer::Pkcs8(k)) => (KeyEncoding::Pkcs8, k.secret_pkcs8_der().to_vec()),
        _ => return Ok(None),
    };
    Ok(Some(PrivateKey { encoding, der }))
}

/// Calls `to_string` on the PEM reader's error, for the log. Nothing is
/// claimed of the text.
#[verifier::external_body]
pub(crate) fn reader_error_text(error: &std::io::Error) -> (text: String) {
    error.to_string()
}

/// Calls `to_string` on the TLS stack's error, for the log. Nothing is
/// claimed of the text.
#[verifier::external_body]
pub(crate) fn signer_error_text(error: &rustls::Error) -> (text: String) {
    error.to_string()
}

/// Why a hostname's files, though present, gave no identity.
#[derive(Clone, Copy, Debug, PartialEq, Eq, Structural)]
pub enum LoadFailure {
    /// The certificate file is not well-formed PEM, or holds no certificate.
    MalformedChain,
    /// The key file is not well-formed PEM, or holds no private key.
    MalformedKey,
    /// The key is of no algorithm or encoding that the TLS stack can sign with.
    UnsupportedKey,
}

/// A hostname whose files are present but cannot be used.
#[derive(Debug)]
pub struct CertificateLoadError {
    pub hostname: String,
    pub failure: LoadFailure,
    /// What was found wrong: the parser's own words, or one of
    /// [`no_certificate_text`] and [`no_key_text`].
    pub detail: String,
}

/// What is said of a chain file that holds no certificate.
pub open spec fn no_certificate_text() -> Seq<char> {
    "no certificate in the chain file"@
}

/// What is said of a key file that holds no private key.
pub open spec fn no_key_text() -> Seq<char> {
    "no private key in the key file"@
}

/// How a kind of failure is named in the log.
pub open spec fn failure_text(failure: LoadFailure) -> Seq<char> {
    match failure {
        LoadFailure::MalformedChain => ": malformed certificate chain: "@,
        LoadFailure::MalformedKey => ": malformed private key: "@,
        LoadFailure::UnsupportedKey => ": unsupported private key: "@,
    }
}

impl CertificateLoadError {
    /// A line for the operator's log: the hostname, the kind of failure and
    /// what was found wrong.
    pub fn message(&self) -> (r: String)
        ensures
            r@ == self.hostname@ + failure_text(self.failure) + self.detail@,
    {
        let text = self.hostname.clone();
        let text = match self.failure {
            LoadFailure::MalformedChain => text.concat(": malformed certificate chain: "),
            LoadFailure::MalformedKey => text.concat(": malformed private key: "),
            LoadFailure::UnsupportedKey => text.concat(": unsupported private key: "),
        };
        text.concat(self.detail.as_str())
    }
}

/// The failure that what the readers made of the two files amounts to, with
/// its detail, or `None` where there is none. For each file, `None` stands
/// for a file that does not exist and `Err` holds the reader's complaint.
///
/// Nothing is wrong where a file is missing. Otherwise the chain is judged
/// before the key: it must have been read and hold a certificate; then the
/// key file must have been read and hold a private key.
pub open spec fn judged_fault(
    chain: Option<Result<Vec<Vec<u8>>, String>>,
    key: Option<Result<Option<PrivateKey>, String>>,
) -> Option<(LoadFailure, Seq<char>)> {
    match (chain, key) {
        (None, _) | (_, None) => None,
        (Some(Err(complaint)), Some(_)) => Some((LoadFailure::MalformedChain, complaint@)),
        (Some(Ok(certs)), Some(found)) => if certs@.len() == 0 {
            Some((LoadFailure::MalformedChain, no_certificate_text()))
        } else {
            match found {
                Err(complaint) => Some((LoadFailure::MalformedKey, complaint@)),
                Ok(None) => Some((LoadFailure::MalformedKey, no_key_text())),
                Ok(Some(_)) => None,
            }
        },
    }
}

/// Decides what to do with what the readers made of the two files of
/// `domain`. For each file, `None` stands for a file that does not exist and
/// `Err` holds the reader's complaint.
///
/// A missing file gives `Ok(None)`: no identity, and no fault. A file that is
/// present and unusable gives the error of [`judged_fault`], which names the
/// hostname. Else the chain and the key are handed on as they were given.
pub fn judge_files(
    domain: &str,
    chain: Option<Result<Vec<Vec<u8>>, String>>,
    key: Option<Result<Option<PrivateKey>, String>>,
) -> (r: Result<Option<(Vec<Vec<u8>>, PrivateKey)>, CertificateLoadError>)
    ensures
        match judged_fault(chain, key) {
            Some((failure, detail)) => r matches Err(e) && e.hostname@ == domain@ && e.failure
                == failure && e.detail@ == detail,
            None => match (chain, key) {
                (Some(Ok(certs)), Some(Ok(Some(found)))) => r == Ok::<
                    Option<(Vec<Vec<u8>>, PrivateKey)>,
                    CertificateLoadError,
                >(Some((certs, found))),
                _ => r == Ok::<Option<(Vec<Vec<u8>>, PrivateKey)>, CertificateLoadError>(None),
            },
        },
{
    let (chain_read, key_read) = match (chain, key) {
        (Some(c), Some(k)) => (c, k),
        _ => return Ok(None),
    };
    let certs = match chain_read {
        Ok(certs) => certs,
        Err(complaint) => return Err(fault(domain, LoadFailure::MalformedChain, complaint)),
    };
    if certs.len() == 0 {
        return Err(
            fault(
                domain,
                LoadFailure::MalformedChain,
                String::from_str("no certificate in the chain file"),
            ),
        );
    }
    match key_read {
        Ok(Some(found)) => Ok(Some((certs, found))),
        Ok(None) => Err(
            fault(
                domain,
                LoadFailure::MalformedKey,
                String::from_str("no private key in the key file"),
            ),
        ),
        Err(complaint) => Err(fault(domain, LoadFailure::MalformedKey, complaint)),
    }
}

/// What loading one hostname comes to, as a function of what its two files
/// hold.
pub enum LoadOutcome {
    /// A file is missing: no identity, and no fault.
    Absent,
    /// This identity.
    Loaded(IdentityModel),
    /// A file is present and unusable.
    Failed(LoadFailure),
}

/// The outcome of loading from the given file contents; `None` stands for a
/// file that does not exist.
///
/// Where a file is missing there is no identity and no fault. Otherwise the
/// chain is judged before the key: the chain file must be well-formed and
/// hold at least one certificate, the key file must be well-formed and hold
/// a private key, and the TLS stack must be able to sign with that key. The
/// identity then holds the certificates in file order, the signer of the
/// first key of the key file, and no OCSP response.
pub open spec fn load_outcome(chain_pem: Option<Seq<u8>>, key_pem: Option<Seq<u8>>) -> LoadOutcome {
    if chain_pem.is_none() || key_pem.is_none() {
        LoadOutcome::Absent
    } else {
        match pem_certificates(chain_pem.unwrap()) {
            None => LoadOutcome::Failed(LoadFailure::MalformedChain),
            Some(chain) => if chain.len() == 0 {
                LoadOutcome::Failed(LoadFailure::MalformedChain)
            } else {
                match pem_private_key(key_pem.unwrap()) {
                    None | Some(None) => LoadOutcome::Failed(LoadFailure::MalformedKey),
                    Some(Some((encoding, der))) => if signer_available(encoding, der) {
                        LoadOutcome::Loaded(
                            IdentityModel { chain, key: (encoding, der), ocsp: None },
                        )
                    } else {
                        LoadOutcome::Failed(LoadFailure::UnsupportedKey)
                    },
                }
            },
        }
    }
}

/// The detail of the error where it is not the parser's own words: what is
/// said of a chain file without certificate, and of a key file without key
/// beside a usable chain.
pub open spec fn own_detail(chain_pem: Option<Seq<u8>>, key_pem: Option<Seq<u8>>) -> Option<
    Seq<char>,
> {
    if chain_pem.is_none() || key_pem.is_none() {
        None
    } else {
        match pem_certificates(chain_pem.unwrap()) {
            None => None,
            Some(chain) => if chain.len() == 0 {
                Some(no_certificate_text())
            } else if pem_private_key(key_pem.unwrap()) == Some(None::<(KeyEncoding, Seq<u8>)>) {
                Some(no_key_text())
            } else {
                None
            },
        }
    }
}

/// Where the certificate chain of `domain` is kept.
pub fn chain_path(domain: &str) -> (r: String)
    ensures
        r@ == "/etc/letsencrypt/live/"@ + domain@ + "/fullchain.pem"@,
{
    String::from_str("/etc/letsencrypt/live/").concat(domain).concat("/fullchain.pem")
}

/// Where the private key of `domain` is kept.
pub fn key_path(domain: &str) -> (r: String)
    ensures
        r@ == "/etc/letsencrypt/live/"@ + domain@ + "/privkey.pem"@,
{
    String::from_str("/etc/letsencrypt/live/").concat(domain).concat("/privkey.pem")
}

/// Builds the signing identity of `domain` from the contents of its
/// certificate file and key file, each `None` where the file does not exist.
///
/// A missing file gives `Ok(None)`. A file that is present and unusable (not
/// well-formed, a chain file without certificate, a key file without key, a
/// key that cannot be signed with) gives the error, which names the
/// hostname. An identity holds the certificates of the chain file in file
/// order, a signer for the first key of the key file, and no OCSP response.
pub fn get_cert_key(domain: &str, chain_pem: Option<&[u8]>, key_pem: Option<&[u8]>) -> (r: Result<
    Option<CertifiedKey>,
    CertificateLoadError,
>)
    ensures
        match load_outcome(bytes_view(chain_pem), bytes_view(key_pem)) {
            LoadOutcome::Absent => r == Ok::<Option<CertifiedKey>, CertificateLoadError>(None),
            LoadOutcome::Loaded(identity) => r matches Ok(Some(key)) && identity_model(key)
                == identity,
            LoadOutcome::Failed(failure) => r matches Err(e) && e.hostname@ == domain@ && e.failure
                == failure,
        },
        own_detail(bytes_view(chain_pem), bytes_view(key_pem)) matches Some(detail) ==> r matches Err(
            e,
        ) && e.detail@ == detail,
{
    let chain_read = match chain_pem {
        Some(bytes) => Some(
            match read_certificates(bytes) {
                Ok(certs) => Ok(certs),
                Err(e) => Err(reader_error_text(&e)),
            },
        ),
        None => None,
    };
    let key_read = match key_pem {
        Some(bytes) => Some(
            match read_private_key(bytes) {
                Ok(found) => Ok(found),
                Err(e) => Err(reader_error_text(&e)),
            },
        ),
        None => None,
    };
    match judge_files(domain, chain_read, key_read) {
        Ok(Some((certs, key))) => match certify(&certs, &key) {
            Ok(identity) => Ok(Some(identity)),
            Err(e) => Err(fault(domain, LoadFailure::UnsupportedKey, signer_error_text(&e))),
        },
        Ok(None) => Ok(None),
        Err(e) => Err(e),
    }
}

/// The contents of a file that may be missing, as a sequence of bytes.
pub open spec fn bytes_view(file: Option<&[u8]>) -> Option<Seq<u8>> {
    match file {
        Some(bytes) => Some(bytes@),
        None => None,
    }
}

fn fault(domain: &str, failure: LoadFailure, detail: String) -> (e: CertificateLoadError)
    ensures
        e.hostname@ == domain@,
        e.failure == failure,
        e.detail == detail,
{
    CertificateLoadError { hostname: String::from_str(domain), failure, detail }
}

} // verus!
