use std::io;
use vstd::prelude::*;
use crate::server::str_equals;

verus! {

#[verifier::external_type_specification]
#[verifier::external_body]
pub struct ExIoError(std::io::Error);

/// The certificate chain in a PEM text, each entry as DER bytes in the
/// order the sections appear; `None` where a section could not be read.
pub uninterp spec fn pem_certificates(pem: Seq<u8>) -> Option<Seq<Seq<u8>>>;

/// The DER bytes of the first private-key section of a PEM text:
/// `None` where a section could not be read, `Some(None)` where the text
/// holds no private key.
pub uninterp spec fn pem_private_key(pem: Seq<u8>) -> Option<Option<Seq<u8>>>;

/// Relies on rustls_pemfile::certs: yields each certificate section of the
/// text in order, and stops at the first section that fails to read.
#[verifier::external_body]
fn read_certificates(pem: &[u8]) -> (r: Result<Vec<Vec<u8>>, io::Error>)
    ensures
        match r {
            Ok(c) => pem_certificates(pem@) == Some(c@.map_values(|d: Vec<u8>| d@)),
            Err(_) => pem_certificates(pem@) is None,
        },
{
    let mut rd: &[u8] = pem;
    rustls_pemfile::certs(&mut rd).map(|c| c.map(|d| d.as_ref().to_vec())).collect()
}

/// Relies on rustls_pemfile::private_key: the first private-key section of
/// the text, if any, as its DER bytes.
#[verifier::external_body]
fn read_private_key(pem: &[u8]) -> (r: Result<Option<Vec<u8>>, io::Error>)
    ensures
        match r {
            Ok(Some(k)) => pem_private_key(pem@) == Some(Some(k@)),
            Ok(None) => pem_private_key(pem@) == Some(None::<Seq<u8>>),
            Err(_) => pem_private_key(pem@) is None,
        },
{
    let mut rd: &[u8] = pem;
    rustls_pemfile::private_key(&mut rd).map(|k| k.map(|k| k.secret_der().to_vec()))
}

/// Relies on std::io::Error::new, with the kind `Other`.
#[verifier::external_body]
fn other_io_error(msg: String) -> io::Error {
    io::Error::new(io::ErrorKind::Other, msg)
}

/// An I/O error of kind `Other` carrying the given message.
pub fn error(err: String) -> io::Error {
    other_io_error(err)
}

/// The closed set of places credentials are loaded from.
#[derive(Clone, Copy, Debug, PartialEq, Eq, Structural)]
pub enum CertMode {
    File,
    Aws,
}

/// Why credentials could not be loaded; each is fatal at startup.
#[derive(Debug)]
pub enum CredentialError {
    /// The mode names no supported source.
    UnsupportedMode,
    /// No directory was given to find the files in.
    MissingLocation,
    /// A PEM section could not be read.
    Malformed(io::Error),
    /// The key file holds no private key.
    MissingKey,
}

pub open spec fn mode_of(mode: Seq<char>) -> Option<CertMode> {
    if mode == "file"@ {
        Some(CertMode::File)
    } else if mode == "aws"@ {
        Some(CertMode::Aws)
    } else {
        None
    }
}

pub open spec fn cert_file_suffix() -> Seq<char> {
    "/ssl.cert"@
}

pub open spec fn key_file_suffix() -> Seq<char> {
    "/ssl.key"@
}

/// The path owed for a file of the given suffix: the mode must be
/// supported and a directory given.
pub open spec fn path_result_ok(
    mode: Seq<char>,
    dir: Option<String>,
    suffix: Seq<char>,
    r: Result<String, CredentialError>,
) -> bool {
    if mode_of(mode) is None {
        r matches Err(CredentialError::UnsupportedMode)
    } else {
        match dir {
            None => r matches Err(CredentialError::MissingLocation),
            Some(d) => r matches Ok(p) && p@ == d@ + suffix,
        }
    }
}

/// Reads the credential source named by a mode string.
pub fn parse_mode(mode: &str) -> (r: Option<CertMode>)
    ensures
        r == mode_of(mode@),
{
    proof {
        reveal_strlit("file");
        reveal_strlit("aws");
    }
    if str_equals(mode, "file") {
        Some(CertMode::File)
    } else if str_equals(mode, "aws") {
        Some(CertMode::Aws)
    } else {
        None
    }
}

/// The certificate chain of a PEM text, leaf first, as DER entries.
pub fn load_public_key(pem: &[u8]) -> (r: Result<Vec<Vec<u8>>, CredentialError>)
    ensures
        match r {
            Ok(c) => pem_certificates(pem@) == Some(c@.map_values(|d: Vec<u8>| d@)),
            Err(e) => pem_certificates(pem@) is None && e is Malformed,
        },
{
    match read_certificates(pem) {
        Ok(c) => Ok(c),
        Err(e) => Err(CredentialError::Malformed(e)),
    }
}

/// The first private key of a PEM text, as DER bytes; later keys are
/// ignored, and a text with no key is an error.
pub fn load_private_key(pem: &[u8]) -> (r: Result<Vec<u8>, CredentialError>)
    ensures
        match r {
            Ok(k) => pem_private_key(pem@) == Some(Some(k@)),
            Err(e) => match pem_private_key(pem@) {
                None => e is Malformed,
                Some(None) => e is MissingKey,
                Some(Some(_)) => false,
            },
        },
{
    match read_private_key(pem) {
        Ok(Some(k)) => Ok(k),
        Ok(None) => Err(CredentialError::MissingKey),
        Err(e) => Err(CredentialError::Malformed(e)),
    }
}

/// A credential source: the mode that selects it and the directory that
/// holds `ssl.cert` and `ssl.key`.
pub struct ImplCertificateInterface {
    pub mode: String,
    pub certs_dir: Option<String>,
}

impl ImplCertificateInterface {
    pub fn new(mode: String, certs_dir: Option<String>) -> (r: Self)
        ensures
            r.mode == mode,
            r.certs_dir == certs_dir,
    {
        ImplCertificateInterface { mode, certs_dir }
    }

    /// The source this value names, or `UnsupportedMode`.
    pub fn cert_mode(&self) -> (r: Result<CertMode, CredentialError>)
        ensures
            match mode_of(self.mode@) {
                Some(m) => r matches Ok(x) && x == m,
                None => r matches Err(CredentialError::UnsupportedMode),
            },
    {
        match parse_mode(self.mode.as_str()) {
            Some(m) => Ok(m),
            None => Err(CredentialError::UnsupportedMode),
        }
    }

    fn file_path(&self, suffix: &str) -> (r: Result<String, CredentialError>)
        ensures
            path_result_ok(self.mode@, self.certs_dir, suffix@, r),
    {
        match self.cert_mode() {
            Err(e) => Err(e),
            Ok(_) => match &self.certs_dir {
                None => Err(CredentialError::MissingLocation),
                Some(d) => {
                    let mut p = d.clone();
                    p.append(suffix);
                    Ok(p)
                },
            },
        }
    }

    /// Path of the PEM certificate chain: `<certs_dir>/ssl.cert`.
    pub fn public_cert_path(&self) -> (r: Result<String, CredentialError>)
        ensures
            path_result_ok(self.mode@, self.certs_dir, cert_file_suffix(), r),
    {
        proof {
            reveal_strlit("/ssl.cert");
        }
        self.file_path("/ssl.cert")
    }

    /// Path of the PEM private key: `<certs_dir>/ssl.key`.
    pub fn private_key_path(&self) -> (r: Result<String, CredentialError>)
        ensures
            path_result_ok(self.mode@, self.certs_dir, key_file_suffix(), r),
    {
        proof {
            reveal_strlit("/ssl.key");
        }
        self.file_path("/ssl.key")
    }

    /// The certificate chain read from the certificate file's contents.
    pub fn get_public_cert(&self, pem: &[u8]) -> (r: Result<Vec<Vec<u8>>, CredentialError>)
        ensures
            mode_of(self.mode@) is None ==> r matches Err(CredentialError::UnsupportedMode),
            mode_of(self.mode@) is Some ==> match r {
                Ok(c) => pem_certificates(pem@) == Some(c@.map_values(|d: Vec<u8>| d@)),
                Err(e) => pem_certificates(pem@) is None && e is Malformed,
            },
    {
        match self.cert_mode() {
            Err(e) => Err(e),
            Ok(_) => load_public_key(pem),
        }
    }

    /// The private key read from the key file's contents.
    pub fn get_private_cert(&self, pem: &[u8]) -> (r: Result<Vec<u8>, CredentialError>)
        ensures
            mode_of(self.mode@) is None ==> r matches Err(CredentialError::UnsupportedMode),
            mode_of(self.mode@) is Some ==> match r {
                Ok(k) => pem_private_key(pem@) == Some(Some(k@)),
                Err(e) => match pem_private_key(pem@) {
                    None => e is Malformed,
                    Some(None) => e is MissingKey,
                    Some(Some(_)) => false,
                },
            },
    {
        match self.cert_mode() {
            Err(e) => Err(e),
            Ok(_) => load_private_key(pem),
        }
    }
}

} // verus!
