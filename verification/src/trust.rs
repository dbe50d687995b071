//! Trust-anchor construction. A trust bundle is built fresh for every
//! connection attempt from the bytes of a PEM certificate-chain file; it
//! holds the DER trust anchors extracted from that file together with the
//! target address and the server name the TLS handshake must validate.

use vstd::prelude::*;

use crate::errors::PlatformError;

verus! {

/// The DER contents of the PEM `CERTIFICATE` sections of a byte sequence,
/// in order: what `rustls_pemfile::certs` extracts from it.
pub uninterp spec fn pem_certs_of(bytes: Seq<u8>) -> Seq<Seq<u8>>;

/// The DER contents of the PEM PKCS#8 `PRIVATE KEY` sections of a byte
/// sequence, in order: what `rustls_pemfile::pkcs8_private_keys` extracts
/// from it.
pub uninterp spec fn pem_pkcs8_keys_of(bytes: Seq<u8>) -> Seq<Seq<u8>>;

/// Whether a byte sequence is well-formed PEM for certificate extraction —
/// whether `rustls_pemfile::certs` succeeds on it.
pub uninterp spec fn pem_parses(bytes: Seq<u8>) -> bool;

/// Whether a byte sequence is well-formed PEM for PKCS#8 key extraction —
/// whether `rustls_pemfile::pkcs8_private_keys` succeeds on it.
pub uninterp spec fn pem_pkcs8_parses(bytes: Seq<u8>) -> bool;

/// Relies on `rustls_pemfile::certs`: it extracts the DER contents of every
/// `CERTIFICATE` section of its input, fails only on malformed PEM framing
/// or base64 — success is a function of the bytes alone — and returns an
/// empty vector rather than failing when no certificate section is present,
/// in particular on empty input.
#[verifier::external_body]
pub(crate) fn parse_pem_certificates(bytes: &[u8]) -> (r: Option<Vec<Vec<u8>>>)
    ensures
        r is Some <==> pem_parses(bytes@),
        r is Some ==> r->Some_0.deep_view() == pem_certs_of(bytes@),
        bytes@.len() == 0 ==> r is Some && r->Some_0@.len() == 0,
{
    let mut rd = bytes;
    rustls_pemfile::certs(&mut rd).ok()
}

/// Relies on `rustls_pemfile::pkcs8_private_keys`: it extracts the DER
/// contents of every PKCS#8 `PRIVATE KEY` section of its input, fails only
/// on malformed PEM framing or base64 — success is a function of the bytes
/// alone — and returns an empty vector rather than failing when no such
/// section is present, in particular on empty input.
#[verifier::external_body]
pub(crate) fn parse_pem_pkcs8_keys(bytes: &[u8]) -> (r: Option<Vec<Vec<u8>>>)
    ensures
        r is Some <==> pem_pkcs8_parses(bytes@),
        r is Some ==> r->Some_0.deep_view() == pem_pkcs8_keys_of(bytes@),
        bytes@.len() == 0 ==> r is Some && r->Some_0@.len() == 0,
{
    let mut rd = bytes;
    rustls_pemfile::pkcs8_private_keys(&mut rd).ok()
}

/// Trust material for exactly one connection attempt: the DER trust anchors
/// extracted from a certificate-bundle file, the target address, and the
/// expected TLS server name. A bundle is used for one connection and
/// discarded; nothing is cached across calls.
pub struct TrustBundle {
    /// The `host:port` address to connect to.
    pub addr: String,
    /// The server name the TLS handshake must validate against.
    pub host: String,
    /// The DER bodies of the trust-anchor certificates.
    pub anchors: Vec<Vec<u8>>,
}

impl TrustBundle {
    /// A bundle is well formed when it holds at least one trust anchor.
    pub open spec fn wf(self) -> bool {
        self.anchors@.len() > 0
    }

    /// Build a bundle from already-extracted DER certificates. Succeeds
    /// exactly when at least one certificate is given; the anchors are the
    /// given certificates, unchanged and in order.
    pub fn from_certificates(addr: String, host: String, certs: Vec<Vec<u8>>) -> (r: Result<
        TrustBundle,
        PlatformError,
    >)
        ensures
            r is Ok <==> certs@.len() > 0,
            r matches Ok(b) ==> b.addr@ == addr@ && b.host@ == host@ && b.anchors == certs
                && b.wf(),
            r matches Err(e) ==> e is CertificateParseError,
    {
        if certs.len() == 0 {
            Err(
                PlatformError::CertificateParseError(
                    "certificate bundle holds no certificate".to_owned(),
                ),
            )
        } else {
            Ok(TrustBundle { addr, host, anchors: certs })
        }
    }

    /// Parse a PEM certificate bundle and build the trust anchors for one
    /// connection attempt. Succeeds exactly when the bytes are well-formed
    /// PEM holding at least one certificate; empty input always fails.
    pub fn load_from_pem(addr: String, host: String, pem: &[u8]) -> (r: Result<
        TrustBundle,
        PlatformError,
    >)
        ensures
            r is Ok <==> pem_parses(pem@) && pem_certs_of(pem@).len() > 0,
            r matches Ok(b) ==> b.anchors.deep_view() == pem_certs_of(pem@) && b.addr@ == addr@
                && b.host@ == host@ && b.wf(),
            r matches Err(e) ==> e is CertificateParseError,
            pem@.len() == 0 ==> r is Err,
    {
        match parse_pem_certificates(pem) {
            Some(certs) => {
                proof {
                    assert(certs.deep_view().len() == certs@.len());
                }
                Self::from_certificates(addr, host, certs)
            },
            None => Err(
                PlatformError::CertificateParseError(
                    "certificate bundle is not well-formed PEM".to_owned(),
                ),
            ),
        }
    }

    /// The number of trust anchors held.
    pub fn anchor_count(&self) -> (r: usize)
        ensures
            r == self.anchors@.len(),
    {
        self.anchors.len()
    }
}

/// Law: a trust bundle loaded from a PEM file holds exactly one anchor per
/// certificate in the file — the trust set size equals the number of
/// certificates the file parses to.
pub proof fn lemma_anchor_count_matches_file(pem: Seq<u8>, b: TrustBundle)
    requires
        b.anchors.deep_view() == pem_certs_of(pem),
    ensures
        b.anchors@.len() == pem_certs_of(pem).len(),
{
    assert(b.anchors.deep_view().len() == b.anchors@.len());
}

} // verus!
