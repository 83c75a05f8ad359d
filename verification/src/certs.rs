//! How the client reads a root certificate file.
use vstd::prelude::*;

use crate::text::str_eq;

verus! {

/// The encoding of a certificate file.
#[derive(Clone, Copy, Debug, PartialEq, Eq, Structural)]
pub enum CertEncoding {
    /// A single DER-encoded certificate.
    Der,
    /// PEM-encoded certificates.
    Pem,
}

/// Whether a file extension is `der`.
pub open spec fn is_der_extension(extension: Option<&str>) -> bool {
    extension matches Some(e) && e@ == "der"@
}

/// The encoding of a certificate file by its extension: a `der` file holds
/// one DER certificate, any other file PEM certificates.
pub fn certificate_encoding(extension: Option<&str>) -> (r: CertEncoding)
    ensures
        r == (if is_der_extension(extension) {
            CertEncoding::Der
        } else {
            CertEncoding::Pem
        }),
{
    match extension {
        Some(e) => if str_eq(e, "der") {
            CertEncoding::Der
        } else {
            CertEncoding::Pem
        },
        None => CertEncoding::Pem,
    }
}

/// What the PEM reader finds in a file: the DER bytes of each certificate
/// section, in order, or nothing when it fails on a section.
pub uninterp spec fn pem_certificates(pem: Seq<u8>) -> Option<Seq<Seq<u8>>>;

/// Reads the certificate sections of PEM text with `rustls_pemfile::certs`,
/// keeping the DER bytes of each; `None` when the reader reports an error.
#[verifier::external_body]
fn read_pem_certificates(pem: &[u8]) -> (r: Option<Vec<Vec<u8>>>)
    ensures
        match r {
            Some(certs) => pem_certificates(pem@) == Some(certs.deep_view()),
            None => pem_certificates(pem@) is None,
        },
{
    rustls_pemfile::certs(&mut &*pem).map(|c| c.map(|c| c.to_vec())).collect::<Result<Vec<_>, _>>().ok()
}

/// Why a certificate file cannot be used.
#[derive(Clone, Copy, Debug, PartialEq, Eq, Structural)]
pub enum CertError {
    /// The PEM text holds a malformed certificate.
    InvalidPem,
}

/// The certificates of a PEM file from what the reader found in it.
pub fn pem_chain(found: Option<Vec<Vec<u8>>>) -> (r: Result<Vec<Vec<u8>>, CertError>)
    ensures
        match found {
            Some(certs) => r == Ok::<Vec<Vec<u8>>, CertError>(certs),
            None => r == Err::<Vec<Vec<u8>>, CertError>(CertError::InvalidPem),
        },
{
    match found {
        Some(certs) => Ok(certs),
        None => Err(CertError::InvalidPem),
    }
}

/// The DER certificates a root certificate file holds, by its extension
/// and its contents: a `der` file is one certificate, any other file is
/// PEM text.
pub fn certificate_chain(extension: Option<&str>, contents: Vec<u8>) -> (r: Result<Vec<Vec<u8>>, CertError>)
    ensures
        is_der_extension(extension) ==> (r matches Ok(certs) && certs.deep_view() == seq![contents@]),
        !is_der_extension(extension) ==> match pem_certificates(contents@) {
            Some(certs) => (r matches Ok(found) && found.deep_view() == certs),
            None => r == Err::<Vec<Vec<u8>>, CertError>(CertError::InvalidPem),
        },
{
    match certificate_encoding(extension) {
        CertEncoding::Der => {
            let ghost der = contents@;
            let mut certs = Vec::new();
            certs.push(contents);
            proof {
                assert(certs@[0].deep_view() =~= der);
                assert(certs.deep_view() =~= seq![der]);
            }
            Ok(certs)
        },
        CertEncoding::Pem => pem_chain(read_pem_certificates(contents.as_slice())),
    }
}

} // verus!
