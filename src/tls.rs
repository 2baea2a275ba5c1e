use crate::config::Config;
use openssl::error::ErrorStack;
use openssl::ssl::SslAcceptorBuilder;
use vstd::prelude::*;

verus! {

#[verifier::external_type_specification]
#[verifier::external_body]
pub struct ExSslAcceptorBuilder(openssl::ssl::SslAcceptorBuilder);

#[verifier::external_type_specification]
#[verifier::external_body]
pub struct ExErrorStack(openssl::error::ErrorStack);

/// Why a TLS server context could not be built.
#[derive(Clone, Copy, Debug, PartialEq, Eq, Structural)]
pub enum TlsError {
    InvalidCert,
    InvalidKey,
    Build,
}

/// Relies on openssl's SslAcceptor::mozilla_intermediate with
/// SslMethod::tls(): the intermediate-compatibility baseline of protocols and
/// ciphers. Its success depends on the linked TLS library.
#[verifier::external_body]
fn intermediate_acceptor() -> (r: Result<SslAcceptorBuilder, ErrorStack>) {
    openssl::ssl::SslAcceptor::mozilla_intermediate(openssl::ssl::SslMethod::tls())
}

/// Relies on openssl's SslContextBuilder::set_private_key_file with the PEM
/// file type: loads the private key, and fails where the file is absent,
/// unreadable or no key. It panics on a path holding a NUL character.
#[verifier::external_body]
fn load_private_key(b: &mut SslAcceptorBuilder, path: &str) -> (r: Result<(), ErrorStack>)
    requires
        !path@.contains('\0'),
{
    b.set_private_key_file(path, openssl::ssl::SslFiletype::PEM)
}

/// Relies on openssl's SslContextBuilder::set_certificate_chain_file: loads
/// the PEM certificate chain, and fails where the file is absent, unreadable
/// or holds no certificate. It panics on a path holding a NUL character.
#[verifier::external_body]
fn load_certificate_chain(b: &mut SslAcceptorBuilder, path: &str) -> (r: Result<(), ErrorStack>)
    requires
        !path@.contains('\0'),
{
    b.set_certificate_chain_file(path)
}

/// The error of a build whose steps went as given: the baseline first, then
/// the private key, then the certificate chain. The first step that failed
/// decides; a later one is never reported.
pub open spec fn tls_outcome(base_ok: bool, key_ok: bool, cert_ok: bool) -> Result<(), TlsError> {
    if !base_ok {
        Err(TlsError::Build)
    } else if !key_ok {
        Err(TlsError::InvalidKey)
    } else if !cert_ok {
        Err(TlsError::InvalidCert)
    } else {
        Ok(())
    }
}

/// The error of a build from the outcome of each of its steps.
pub fn classify_tls(base_ok: bool, key_ok: bool, cert_ok: bool) -> (r: Result<(), TlsError>)
    ensures
        r == tls_outcome(base_ok, key_ok, cert_ok),
{
    if !base_ok {
        Err(TlsError::Build)
    } else if !key_ok {
        Err(TlsError::InvalidKey)
    } else if !cert_ok {
        Err(TlsError::InvalidCert)
    } else {
        Ok(())
    }
}

/// A key that fails to load is reported as `InvalidKey` and never also as a
/// certificate error; a certificate chain that fails after the key loaded is
/// reported as `InvalidCert`; with both loaded the build succeeds.
pub proof fn lemma_tls_errors_distinct(cert_ok: bool)
    ensures
        tls_outcome(true, false, cert_ok) == Err::<(), TlsError>(TlsError::InvalidKey),
        tls_outcome(true, true, false) == Err::<(), TlsError>(TlsError::InvalidCert),
        tls_outcome(true, true, true) == Ok::<(), TlsError>(()),
{
}

/// Whether a path holds a NUL character, which no file name can hold.
pub fn has_nul(path: &str) -> (r: bool)
    ensures
        r == path@.contains('\0'),
{
    let n = path.unicode_len();
    let mut i: usize = 0;
    while i < n
        invariant
            n == path@.len(),
            i <= n,
            forall|j: int| 0 <= j < i ==> path@[j] != '\0',
        decreases n - i,
    {
        if path.get_char(i) == '\0' {
            return true;
        }
        i = i + 1;
    }
    false
}

/// A TLS server context ready to bind, with the key and certificate chain
/// files that were loaded into it.
pub struct TlsContext {
    acceptor: SslAcceptorBuilder,
    key_file: String,
    cert_file: String,
}

impl TlsContext {
    /// The private key file that was loaded.
    pub closed spec fn key_path(&self) -> Seq<char> {
        self.key_file@
    }

    /// The certificate chain file that was loaded.
    pub closed spec fn cert_path(&self) -> Seq<char> {
        self.cert_file@
    }

    pub fn key_file(&self) -> (r: &str)
        ensures
            r@ == self.key_path(),
    {
        self.key_file.as_str()
    }

    pub fn cert_file(&self) -> (r: &str)
        ensures
            r@ == self.cert_path(),
    {
        self.cert_file.as_str()
    }

    /// The context, for a listener to bind with.
    pub fn into_acceptor(self) -> SslAcceptorBuilder {
        self.acceptor
    }
}

/// Builds a TLS server context on the intermediate-compatibility baseline
/// from the configured private key and certificate chain, the key first.
/// A key path with a NUL character is `InvalidKey` before anything is
/// loaded; a certificate path with one is `InvalidCert`, once the key has
/// loaded. Whether a file loads otherwise depends on the disk; a failure of
/// the key is never reported as a certificate error, and a success holds
/// exactly the configured files.
pub fn build_tls(config: &Config) -> (r: Result<TlsContext, TlsError>)
    ensures
        config.server.key@.contains('\0') ==> r == Err::<TlsContext, TlsError>(
            TlsError::InvalidKey,
        ),
        !config.server.key@.contains('\0') && config.server.cert@.contains('\0') ==> r is Err,
        r matches Err(e) && e != TlsError::InvalidKey ==> !config.server.key@.contains('\0'),
        r matches Ok(c) ==> c.key_path() == config.server.key@ && c.cert_path()
            == config.server.cert@ && !config.server.key@.contains('\0')
            && !config.server.cert@.contains('\0'),
{
    let key = config.server.key.as_str();
    let cert = config.server.cert.as_str();
    if has_nul(key) {
        return Err(TlsError::InvalidKey);
    }
    let mut b = match intermediate_acceptor() {
        Ok(b) => b,
        Err(_) => return Err(TlsError::Build),
    };
    let key_ok = load_private_key(&mut b, key).is_ok();
    let cert_ok = key_ok && !has_nul(cert) && load_certificate_chain(&mut b, cert).is_ok();
    match classify_tls(true, key_ok, cert_ok) {
        Ok(()) => Ok(
            TlsContext { acceptor: b, key_file: config.server.key.clone(), cert_file: config.server.cert.clone() },
        ),
        Err(e) => Err(e),
    }
}

} // verus!
