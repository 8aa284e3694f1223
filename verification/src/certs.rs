//! Where certificates and private keys are kept, and how their files are
//! encoded.

use vstd::prelude::*;
use crate::error::{Error, ErrorKind};

verus! {

/// The path of a file that holds a certificate or a chain of them.
#[derive(Debug, Clone)]
pub struct Certificates(pub String);

/// The path of a file that holds a private key.
#[derive(Debug, Clone)]
pub struct PrivateKey(pub String);

/// The path of a directory.
#[derive(Debug, Clone)]
pub struct Directory(pub String);

/// The encoding of a certificate or key file.
#[derive(Debug, Clone, Copy, PartialEq, Eq, Structural)]
pub enum Encoding {
    Der,
    Pem,
}

/// The extension of a path as `std::path::Path::extension` gives it.
pub uninterp spec fn path_extension(path: Seq<char>) -> Option<Seq<char>>;

/// `std::path::Path::extension` on a path given as text: the extension of
/// the path's last component, where it has one.
#[verifier::external_body]
fn extension(path: &String) -> (found: Option<String>)
    ensures
        match found {
            Some(text) => path_extension(path@) == Some(text@),
            None => path_extension(path@) is None,
        },
{
    let found = std::path::Path::new(path).extension()?;
    Some(found.to_str()?.to_owned())
}

/// The encoding that an extension stands for: `der`, `pem`, or none.
pub open spec fn spec_encoding_of(extension: Option<Seq<char>>) -> Option<Encoding> {
    match extension {
        Some(text) => if text == "der"@ {
            Some(Encoding::Der)
        } else if text == "pem"@ {
            Some(Encoding::Pem)
        } else {
            None
        },
        None => None,
    }
}

/// The encoding of a file whose path ends in the extension given.
pub fn encoding_of(extension: &Option<String>) -> (encoding: Option<Encoding>)
    ensures
        encoding == spec_encoding_of(
            match *extension {
                Some(text) => Some(text@),
                None => None,
            },
        ),
{
    match extension {
        Some(text) => {
            let der = "der".to_owned();
            let pem = "pem".to_owned();
            if *text == der {
                Some(Encoding::Der)
            } else if *text == pem {
                Some(Encoding::Pem)
            } else {
                None
            }
        },
        None => None,
    }
}

/// How a certificate chain at the path given is to be read.
pub open spec fn spec_chain_encoding(path: Seq<char>) -> Result<Encoding, Error> {
    match spec_encoding_of(path_extension(path)) {
        Some(encoding) => Ok(encoding),
        None => Err(Error(ErrorKind::Config)),
    }
}

/// How a single certificate at the path given is to be read: it has to be
/// in DER.
pub open spec fn spec_cert_encoding(path: Seq<char>) -> Result<Encoding, Error> {
    match spec_encoding_of(path_extension(path)) {
        Some(Encoding::Der) => Ok(Encoding::Der),
        _ => Err(Error(ErrorKind::Config)),
    }
}

impl Certificates {
    /// The encoding in which the file holds a certificate chain, told by
    /// the path's extension. Any extension but `der` and `pem`, or none, is
    /// a configuration error.
    pub fn as_chain(&self) -> (result: Result<Encoding, Error>)
        ensures
            result == spec_chain_encoding(self.0@),
    {
        let found = extension(&self.0);
        match encoding_of(&found) {
            Some(encoding) => Ok(encoding),
            None => Err(Error(ErrorKind::Config)),
        }
    }

    /// The encoding in which the file holds a single certificate. Only DER
    /// will do; anything else is a configuration error.
    pub fn as_cert(&self) -> (result: Result<Encoding, Error>)
        ensures
            result == spec_cert_encoding(self.0@),
    {
        let found = extension(&self.0);
        match encoding_of(&found) {
            Some(Encoding::Der) => Ok(Encoding::Der),
            _ => Err(Error(ErrorKind::Config)),
        }
    }
}

impl PrivateKey {
    /// The encoding in which the file holds the key, told by the path's
    /// extension. Any extension but `der` and `pem`, or none, is a
    /// configuration error.
    pub fn as_key(&self) -> (result: Result<Encoding, Error>)
        ensures
            result == spec_chain_encoding(self.0@),
    {
        let found = extension(&self.0);
        match encoding_of(&found) {
            Some(encoding) => Ok(encoding),
            None => Err(Error(ErrorKind::Config)),
        }
    }
}

} // verus!
