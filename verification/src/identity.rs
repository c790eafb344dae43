//! Signing identities: a certificate chain paired with the signer for its
//! private key, held as the TLS stack's own `CertifiedKey`.
use rustls::sign::CertifiedKey;
use std::sync::Arc;
use vstd::prelude::*;

verus! {

/// The TLS stack's identity type. Its signer is opaque; its certificate chain
/// is spoken of through [`certified_chain`].
#[verifier::external_type_specification]
#[verifier::external_body]
pub struct ExCertifiedKey(CertifiedKey);

/// The TLS stack's error type, carried through unread.
#[verifier::external_type_specification]
#[verifier::external_body]
pub struct ExTlsError(rustls::Error);

/// How a private key is encoded.
#[derive(Clone, Copy, Debug, PartialEq, Eq, Structural)]
pub enum KeyEncoding {
    /// An RSA key in PKCS#1 form.
    Pkcs1,
    /// An elliptic-curve key in SEC1 form.
    Sec1,
    /// A key of any algorithm in PKCS#8 form.
    Pkcs8,
}

/// A private key as it was found in a key file: its encoding and DER bytes.
pub struct PrivateKey {
    pub encoding: KeyEncoding,
    pub der: Vec<u8>,
}

/// The DER certificates of a chain, leaf first, as byte sequences.
pub open spec fn chain_view(chain: Seq<Vec<u8>>) -> Seq<Seq<u8>> {
    chain.map_values(|c: Vec<u8>| c@)
}

/// The certificate chain that an identity holds, leaf first.
pub uninterp spec fn certified_chain(key: CertifiedKey) -> Seq<Seq<u8>>;

/// The private key that an identity's signer was built from: its encoding
/// and DER bytes.
pub uninterp spec fn certified_signer(key: CertifiedKey) -> (KeyEncoding, Seq<u8>);

/// The OCSP response that an identity holds, if any.
pub uninterp spec fn certified_ocsp(key: CertifiedKey) -> Option<Seq<u8>>;

/// Whether the TLS stack can build a signer from a key of this encoding and
/// content: whether it parses as a key of an algorithm that the stack signs
/// with.
pub uninterp spec fn signer_available(encoding: KeyEncoding, der: Seq<u8>) -> bool;

/// What an identity is, as far as contracts speak of it.
pub struct IdentityModel {
    /// The certificate chain, leaf first.
    pub chain: Seq<Seq<u8>>,
    /// The private key that the signer was built from.
    pub key: (KeyEncoding, Seq<u8>),
    /// The OCSP response, if any.
    pub ocsp: Option<Seq<u8>>,
}

/// The model of the TLS stack's identity value.
pub open spec fn identity_model(key: CertifiedKey) -> IdentityModel {
    IdentityModel {
        chain: certified_chain(key),
        key: certified_signer(key),
        ocsp: certified_ocsp(key),
    }
}

/// Calls `rustls::crypto::aws_lc_rs::sign::any_supported_type` on the key and
/// puts the signer, with the chain, into a `CertifiedKey`.
///
/// Trusted: the call succeeds exactly on the keys for which
/// [`signer_available`] holds, and the identity made then holds the chain it
/// was given, in order, the signer built from the key it was given, and no
/// OCSP response.
#[verifier::external_body]
pub(crate) fn certify(chain: &Vec<Vec<u8>>, key: &PrivateKey) -> (r: Result<
    CertifiedKey,
    rustls::Error,
>)
    ensures
        r.is_ok() == signer_available(key.encoding, key.der@),
        r matches Ok(k) ==> certified_chain(k) == chain_view(chain@) && certified_signer(k) == (
            key.encoding,
            key.der@,
        ) && certified_ocsp(k).is_none(),
{
    let der = match key.encoding {
        KeyEncoding::Pkcs1 => rustls::pki_types::PrivateKeyDer::Pkcs1(key.der.clone().into()),
        KeyEncoding::Sec1 => rustls::pki_types::PrivateKeyDer::Sec1(key.der.clone().into()),
        KeyEncoding::Pkcs8 => rustls::pki_types::PrivateKeyDer::Pkcs8(key.der.clone().into()),
    };
    let signer = rustls::crypto::aws_lc_rs::sign::any_supported_type(&der)?;
    let cert = chain.iter().map(|c| rustls::pki_types::CertificateDer::from(c.clone())).collect();
    Ok(CertifiedKey { cert, key: signer, ocsp: None })
}

/// Reads the field `cert` of a `CertifiedKey` and copies each certificate's
/// bytes.
///
/// Trusted: the bytes handed out are the chain that the identity holds.
#[verifier::external_body]
pub(crate) fn chain_of(key: &CertifiedKey) -> (r: Vec<Vec<u8>>)
    ensures
        chain_view(r@) == certified_chain(*key),
{
    key.cert.iter().map(|c| c.as_ref().to_vec()).collect()
}

/// Calls `Arc::clone`.
///
/// Trusted: the new handle points to the same identity as the one given.
#[verifier::external_body]
pub(crate) fn clone_handle(key: &Arc<CertifiedKey>) -> (r: Arc<CertifiedKey>)
    ensures
        r == *key,
{
    Arc::clone(key)
}

/// One hostname's signing identity, shared by every handshake that resolves
/// to it.
pub struct TlsCollection {
    pub certified_key: Arc<CertifiedKey>,
}

impl View for TlsCollection {
    type V = IdentityModel;

    open spec fn view(&self) -> IdentityModel {
        identity_model(*self.certified_key)
    }
}

impl TlsCollection {
    /// The certificate chain of this identity, leaf first.
    pub open spec fn spec_chain(&self) -> Seq<Seq<u8>> {
        self@.chain
    }

    /// Wraps a freshly made identity for sharing.
    pub fn new(key: CertifiedKey) -> (r: Self)
        ensures
            *r.certified_key == key,
    {
        TlsCollection { certified_key: Arc::new(key) }
    }

    /// Another handle to the same identity.
    pub fn share(&self) -> (r: Self)
        ensures
            r == *self,
    {
        TlsCollection { certified_key: clone_handle(&self.certified_key) }
    }

    /// A copy of the certificate chain, leaf first.
    pub fn chain(&self) -> (r: Vec<Vec<u8>>)
        ensures
            chain_view(r@) == self.spec_chain(),
    {
        chain_of(&self.certified_key)
    }
}

} // verus!
