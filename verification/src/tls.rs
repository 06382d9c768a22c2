//! Security bridge: the locally decided parts of layering a stream-oriented
//! security handshake on top of the transport adapter.
//!
//! TRUST BOUNDARY. The peer's certificate chain is deliberately not validated:
//! any certificate and any handshake signature is accepted. This is sound only
//! because the transport below was set up through a relay that is already
//! trusted. The policy is a value of its own, [`CertificateVerification`], so that
//! an embedding that lacks such a relay can see, and refuse, what it is given.

use vstd::prelude::*;
use vstd::string::*;
use x509_cert::der::Decode;

verus! {

/// How the peer's certificate is checked during the handshake.
#[derive(Debug, Clone, Copy, PartialEq, Eq, Structural)]
pub enum CertificateVerification {
    /// Accept any certificate and any signature. Trust comes from the relay.
    AcceptAny,
    /// Validate the chain against the platform's roots.
    ValidateChain,
}

/// Settings of the security handshake.
#[derive(Debug, Clone, Copy, PartialEq, Eq, Structural)]
pub struct TlsSettings {
    pub certificate_verification: CertificateVerification,
    /// Whether sessions may be resumed. The authentication extension that runs
    /// over the stream afterwards does not work on resumed sessions.
    pub session_resumption: bool,
}

/// The settings used for every connection: no certificate validation, no
/// session resumption.
pub fn tls_settings() -> (settings: TlsSettings)
    ensures
        settings == (TlsSettings {
            certificate_verification: CertificateVerification::AcceptAny,
            session_resumption: false,
        }),
{
    TlsSettings {
        certificate_verification: CertificateVerification::AcceptAny,
        session_resumption: false,
    }
}

/// A signature scheme of the handshake, by its registered name.
#[derive(Debug, Clone, Copy, PartialEq, Eq, Structural)]
pub enum SignatureScheme {
    RsaPkcs1Sha1,
    EcdsaSha1Legacy,
    RsaPkcs1Sha256,
    EcdsaNistp256Sha256,
    RsaPkcs1Sha384,
    EcdsaNistp384Sha384,
    RsaPkcs1Sha512,
    EcdsaNistp521Sha512,
    RsaPssSha256,
    RsaPssSha384,
    RsaPssSha512,
    Ed25519,
    Ed448,
}

impl SignatureScheme {
    /// The scheme's code point on the wire.
    pub open spec fn spec_code(self) -> u16 {
        match self {
            SignatureScheme::RsaPkcs1Sha1 => 0x0201,
            SignatureScheme::EcdsaSha1Legacy => 0x0203,
            SignatureScheme::RsaPkcs1Sha256 => 0x0401,
            SignatureScheme::EcdsaNistp256Sha256 => 0x0403,
            SignatureScheme::RsaPkcs1Sha384 => 0x0501,
            SignatureScheme::EcdsaNistp384Sha384 => 0x0503,
            SignatureScheme::RsaPkcs1Sha512 => 0x0601,
            SignatureScheme::EcdsaNistp521Sha512 => 0x0603,
            SignatureScheme::RsaPssSha256 => 0x0804,
            SignatureScheme::RsaPssSha384 => 0x0805,
            SignatureScheme::RsaPssSha512 => 0x0806,
            SignatureScheme::Ed25519 => 0x0807,
            SignatureScheme::Ed448 => 0x0808,
        }
    }

    /// The scheme's code point on the wire.
    pub fn code(self) -> (code: u16)
        ensures
            code == self.spec_code(),
    {
        match self {
            SignatureScheme::RsaPkcs1Sha1 => 0x0201,
            SignatureScheme::EcdsaSha1Legacy => 0x0203,
            SignatureScheme::RsaPkcs1Sha256 => 0x0401,
            SignatureScheme::EcdsaNistp256Sha256 => 0x0403,
            SignatureScheme::RsaPkcs1Sha384 => 0x0501,
            SignatureScheme::EcdsaNistp384Sha384 => 0x0503,
            SignatureScheme::RsaPkcs1Sha512 => 0x0601,
            SignatureScheme::EcdsaNistp521Sha512 => 0x0603,
            SignatureScheme::RsaPssSha256 => 0x0804,
            SignatureScheme::RsaPssSha384 => 0x0805,
            SignatureScheme::RsaPssSha512 => 0x0806,
            SignatureScheme::Ed25519 => 0x0807,
            SignatureScheme::Ed448 => 0x0808,
        }
    }
}

/// The schemes announced when nothing is validated, in the order announced.
pub open spec fn accepted_schemes() -> Seq<SignatureScheme> {
    seq![
        SignatureScheme::RsaPkcs1Sha1,
        SignatureScheme::EcdsaSha1Legacy,
        SignatureScheme::RsaPkcs1Sha256,
        SignatureScheme::EcdsaNistp256Sha256,
        SignatureScheme::RsaPkcs1Sha384,
        SignatureScheme::EcdsaNistp384Sha384,
        SignatureScheme::RsaPkcs1Sha512,
        SignatureScheme::EcdsaNistp521Sha512,
        SignatureScheme::RsaPssSha256,
        SignatureScheme::RsaPssSha384,
        SignatureScheme::RsaPssSha512,
        SignatureScheme::Ed25519,
        SignatureScheme::Ed448,
    ]
}

/// The verifier that verifies nothing. See the trust boundary described at the
/// top of this module.
#[derive(Debug, Clone, Copy, PartialEq, Eq, Structural)]
pub struct NoCertificateVerification;

impl NoCertificateVerification {
    /// Any server certificate is accepted, whatever the chain, the name asked
    /// for and the stapled revocation data are.
    #[allow(unused_variables)]
    pub fn verify_server_cert(
        &self,
        end_entity: &[u8],
        intermediates: &[Vec<u8>],
        server_name: &str,
        ocsp_response: &[u8],
    ) -> (accepted: bool)
        ensures
            accepted,
    {
        true
    }

    /// Any TLS 1.2 handshake signature is accepted.
    #[allow(unused_variables)]
    pub fn verify_tls12_signature(&self, message: &[u8], cert: &[u8], signature: &[u8]) -> (accepted:
        bool)
        ensures
            accepted,
    {
        true
    }

    /// Any TLS 1.3 handshake signature is accepted.
    #[allow(unused_variables)]
    pub fn verify_tls13_signature(&self, message: &[u8], cert: &[u8], signature: &[u8]) -> (accepted:
        bool)
        ensures
            accepted,
    {
        true
    }

    /// Every scheme is announced, since none is ever checked.
    pub fn supported_verify_schemes(&self) -> (schemes: Vec<SignatureScheme>)
        ensures
            schemes@ == accepted_schemes(),
    {
        let mut schemes: Vec<SignatureScheme> = Vec::new();
        schemes.push(SignatureScheme::RsaPkcs1Sha1);
        schemes.push(SignatureScheme::EcdsaSha1Legacy);
        schemes.push(SignatureScheme::RsaPkcs1Sha256);
        schemes.push(SignatureScheme::EcdsaNistp256Sha256);
        schemes.push(SignatureScheme::RsaPkcs1Sha384);
        schemes.push(SignatureScheme::EcdsaNistp384Sha384);
        schemes.push(SignatureScheme::RsaPkcs1Sha512);
        schemes.push(SignatureScheme::EcdsaNistp521Sha512);
        schemes.push(SignatureScheme::RsaPssSha256);
        schemes.push(SignatureScheme::RsaPssSha384);
        schemes.push(SignatureScheme::RsaPssSha512);
        schemes.push(SignatureScheme::Ed25519);
        schemes.push(SignatureScheme::Ed448);
        schemes
    }
}

/// Why no public key could be had from the peer.
#[derive(Debug, PartialEq, Eq)]
pub enum PublicKeyError {
    /// The peer presented no certificate.
    MissingCertificate,
    /// The certificate is not well-formed; the text is the decoder's.
    Malformed(String),
    /// The subject public key is not a whole number of bytes.
    Unaligned,
}

impl PublicKeyError {
    pub open spec fn spec_description(self) -> Seq<char> {
        match self {
            PublicKeyError::MissingCertificate => "peer certificate is missing"@,
            PublicKeyError::Malformed(detail) => detail@,
            PublicKeyError::Unaligned => "subject public key BIT STRING is not aligned"@,
        }
    }

    /// The failure in words.
    pub fn description(&self) -> (text: String)
        ensures
            text@ == self.spec_description(),
    {
        match self {
            PublicKeyError::MissingCertificate => String::from_str("peer certificate is missing"),
            PublicKeyError::Malformed(detail) => detail.clone(),
            PublicKeyError::Unaligned => String::from_str(
                "subject public key BIT STRING is not aligned",
            ),
        }
    }
}

/// What the X.509 decoder makes of a byte string: nothing if it is no
/// certificate; else the bytes of the subject public key, or nothing if that bit
/// string has unused bits.
pub uninterp spec fn x509_subject_public_key(der: Seq<u8>) -> Option<Option<Seq<u8>>>;

/// Decodes a DER certificate with `x509_cert::Certificate::from_der` and reads
/// the bytes of its subject public key with `BitString::as_bytes`.
///
/// Trusted: the outcome is the one named by [`x509_subject_public_key`]. The
/// error is the decoder's own text.
#[verifier::external_body]
fn decode_subject_public_key(cert: &[u8]) -> (r: Result<Option<Vec<u8>>, String>)
    ensures
        match x509_subject_public_key(cert@) {
            None => r is Err,
            Some(None) => r is Ok && r->Ok_0 is None,
            Some(Some(key)) => r is Ok && r->Ok_0 is Some && r->Ok_0->0@ == key,
        },
{
    match x509_cert::Certificate::from_der(cert) {
        Ok(cert) => Ok(
            cert.tbs_certificate.subject_public_key_info.subject_public_key.as_bytes().map(
                |bytes| bytes.to_vec(),
            ),
        ),
        Err(error) => Err(error.to_string()),
    }
}

/// The public key for a decoding outcome.
pub open spec fn public_key_of(decoded: Result<Option<Vec<u8>>, String>) -> Result<
    Vec<u8>,
    PublicKeyError,
> {
    match decoded {
        Ok(Some(key)) => Ok(key),
        Ok(None) => Err(PublicKeyError::Unaligned),
        Err(detail) => Err(PublicKeyError::Malformed(detail)),
    }
}

/// Turns a decoding outcome into the public key or the reason there is none.
pub fn public_key_from(decoded: Result<Option<Vec<u8>>, String>) -> (r: Result<
    Vec<u8>,
    PublicKeyError,
>)
    ensures
        r == public_key_of(decoded),
{
    match decoded {
        Ok(Some(key)) => Ok(key),
        Ok(None) => Err(PublicKeyError::Unaligned),
        Err(detail) => Err(PublicKeyError::Malformed(detail)),
    }
}

/// Extracts the raw subject public key from a DER certificate.
pub fn extract_tls_server_public_key(cert: &[u8]) -> (r: Result<Vec<u8>, PublicKeyError>)
    ensures
        match x509_subject_public_key(cert@) {
            None => r is Err && r->Err_0 is Malformed,
            Some(None) => r is Err && r->Err_0 is Unaligned,
            Some(Some(key)) => r is Ok && r->Ok_0@ == key,
        },
{
    public_key_from(decode_subject_public_key(cert))
}

/// Extracts the peer's public key after the handshake: from the first
/// certificate the peer presented. Fails if the peer presented none.
pub fn server_public_key(peer_certificates: Option<&Vec<Vec<u8>>>) -> (r: Result<
    Vec<u8>,
    PublicKeyError,
>)
    ensures
        match peer_certificates {
            Some(certificates) if certificates@.len() > 0 => match x509_subject_public_key(
                certificates@[0]@,
            ) {
                None => r is Err && r->Err_0 is Malformed,
                Some(None) => r is Err && r->Err_0 is Unaligned,
                Some(Some(key)) => r is Ok && r->Ok_0@ == key,
            },
            _ => r is Err && r->Err_0 is MissingCertificate,
        },
{
    match peer_certificates {
        Some(certificates) => {
            if certificates.len() > 0 {
                extract_tls_server_public_key(certificates[0].as_slice())
            } else {
                Err(PublicKeyError::MissingCertificate)
            }
        },
        None => Err(PublicKeyError::MissingCertificate),
    }
}

} // verus!
