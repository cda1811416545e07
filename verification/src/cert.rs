//! The certificate provider: a self-signed certificate and its private key
//! for the names under which the listener is reached.

use crate::buffers::texts;
use vstd::prelude::*;
use vstd::string::StringExecFns;

verus! {

#[verifier::external_type_specification]
#[verifier::external_body]
pub struct ExRcgenError(rcgen::Error);

/// A certificate and its private key, both DER-encoded.
pub struct Certs {
    pub cert: Vec<u8>,
    pub key: Vec<u8>,
}

/// Why no certificate was made.
pub enum CertificateGenerationError {
    /// No subject name was given.
    NoSubjectNames,
    /// Making the key or signing the certificate failed.
    Rejected { reason: String },
}

/// `rcgen::generate_simple_self_signed`, then `Certificate::der` and
/// `KeyPair::serialize_der` on what it made: a fresh key pair and a
/// certificate for `names`, signed with that key. The key is random, so
/// nothing is claimed of the bytes.
#[verifier::external_body]
fn self_signed(names: Vec<String>) -> (made: Result<(Vec<u8>, Vec<u8>), rcgen::Error>) {
    let made = rcgen::generate_simple_self_signed(names)?;
    Ok((made.cert.der().to_vec(), made.key_pair.serialize_der()))
}

/// `Display` of `rcgen::Error`: the error in words.
#[verifier::external_body]
fn error_text(e: &rcgen::Error) -> (reason: String) {
    format!("{}", e)
}

/// The answer for what the generator gave: its two byte strings as they are,
/// or its refusal with its reason.
pub fn certs_from(made: Result<(Vec<u8>, Vec<u8>), String>) -> (r: Result<
    Certs,
    CertificateGenerationError,
>)
    ensures
        match made {
            Ok((cert, key)) => r matches Ok(certs) && certs.cert@ == cert@ && certs.key@ == key@,
            Err(why) => r matches Err(CertificateGenerationError::Rejected { reason })
                && reason@ == why@,
        },
{
    match made {
        Ok((cert, key)) => Ok(Certs { cert, key }),
        Err(why) => Err(CertificateGenerationError::Rejected { reason: why }),
    }
}

/// A certificate for `subject_alt_names` and its key. Without a name there is
/// no certificate; with names, only the generator can refuse.
pub fn generate_self_signed_certs(subject_alt_names: Vec<String>) -> (r: Result<
    Certs,
    CertificateGenerationError,
>)
    ensures
        subject_alt_names@.len() == 0 ==> r matches Err(
            CertificateGenerationError::NoSubjectNames,
        ),
        subject_alt_names@.len() > 0 ==> !(r matches Err(
            CertificateGenerationError::NoSubjectNames,
        )),
{
    if subject_alt_names.len() == 0 {
        return Err(CertificateGenerationError::NoSubjectNames);
    }
    let made = match self_signed(subject_alt_names) {
        Ok(pair) => Ok(pair),
        Err(e) => Err(error_text(&e)),
    };
    certs_from(made)
}

/// The names that the listener's certificate is made for: the address of
/// this machine on the local network, and `localhost`.
pub fn subject_names(ip: String) -> (names: Vec<String>)
    ensures
        names@.len() == 2,
        texts(names@) == seq![ip@, "localhost"@],
{
    let mut names: Vec<String> = Vec::new();
    names.push(ip);
    names.push(String::from_str("localhost"));
    assert(texts(names@) =~= seq![ip@, "localhost"@]);
    names
}

/// What the listener starts with: nothing for plain HTTP, a fresh bundle for
/// HTTPS. A failure to make the bundle is an error, never a silent change to
/// plain HTTP.
pub fn transport_certs(use_http: bool, ip: String) -> (r: Result<
    Option<Certs>,
    CertificateGenerationError,
>)
    ensures
        use_http ==> r matches Ok(None),
        !use_http ==> !(r matches Ok(None)),
        !(r matches Err(CertificateGenerationError::NoSubjectNames)),
{
    if use_http {
        Ok(None)
    } else {
        match generate_self_signed_certs(subject_names(ip)) {
            Ok(certs) => Ok(Some(certs)),
            Err(e) => Err(e),
        }
    }
}

} // verus!
