//! Self-signed key material and fixed configurations, for trying a setup
//! out.

use vstd::prelude::*;
use vstd::string::*;
use crate::certs::{Certificates, PrivateKey};
use crate::config::{BeamSocket, BeamStream};
use crate::error::{Error, ErrorKind};
use crate::options::QuicOptions;
use crate::types::{IpAddr, SocketAddr, StreamType};

verus! {

/// A self-signed certificate and its private key, each in both encodings.
pub struct CertAndKey {
    pub cert_pem: String,
    pub cert_der: Vec<u8>,
    pub key_pem: String,
    pub key_der: Vec<u8>,
}

/// A file to be written: its name and its contents.
pub struct KeyFile {
    pub name: String,
    pub contents: Vec<u8>,
}

/// `rcgen::generate_simple_self_signed` for one name, with the
/// certificate and the key it made in PEM and in DER. The key is drawn at
/// random, so nothing is said of what comes back; `None` where the
/// generation failed.
#[verifier::external_body]
fn self_signed(name: &String) -> (made: Option<CertAndKey>) {
    let made = rcgen::generate_simple_self_signed(vec![name.clone()]).ok()?;
    Some(
        CertAndKey {
            cert_pem: made.cert.pem(),
            cert_der: made.cert.der().to_vec(),
            key_pem: made.signing_key.serialize_pem(),
            key_der: made.signing_key.serialize_der(),
        },
    )
}

/// The name that a certificate is made out to: the one given, or
/// `localhost`.
pub fn subject_name(name: Option<String>) -> (subject: String)
    ensures
        subject@ == match name {
            Some(given) => given@,
            None => "localhost"@,
        },
{
    match name {
        Some(given) => given,
        None => "localhost".to_owned(),
    }
}

/// Whether the files are four, by name `cert.pem`, `cert.der`, `key.pem`
/// and `key.der`, in this order.
pub open spec fn spec_names(files: Seq<KeyFile>) -> bool {
    &&& files.len() == 4
    &&& files[0].name@ == "cert.pem"@
    &&& files[1].name@ == "cert.der"@
    &&& files[2].name@ == "key.pem"@
    &&& files[3].name@ == "key.der"@
}

/// Whether the files are those of the material: the certificate in the
/// first two and the key in the last two, each in PEM and then in DER.
pub open spec fn spec_files(material: CertAndKey, files: Seq<KeyFile>) -> bool {
    &&& spec_names(files)
    &&& files[0].contents@ == vstd::utf8::encode_utf8(material.cert_pem@)
    &&& files[1].contents@ == material.cert_der@
    &&& files[2].contents@ == vstd::utf8::encode_utf8(material.key_pem@)
    &&& files[3].contents@ == material.key_der@
}

/// The four files that hold the material.
pub fn files(material: CertAndKey) -> (files: Vec<KeyFile>)
    ensures
        spec_files(material, files@),
{
    let mut files: Vec<KeyFile> = Vec::new();
    files.push(
        KeyFile {
            name: "cert.pem".to_owned(),
            contents: material.cert_pem.as_str().as_bytes_vec(),
        },
    );
    files.push(KeyFile { name: "cert.der".to_owned(), contents: material.cert_der });
    files.push(
        KeyFile {
            name: "key.pem".to_owned(),
            contents: material.key_pem.as_str().as_bytes_vec(),
        },
    );
    files.push(KeyFile { name: "key.der".to_owned(), contents: material.key_der });
    files
}

/// Makes a self-signed certificate for the name given, or for `localhost`,
/// and returns the four files that hold it and its key: there is key
/// material of which these are the files, by name and by contents. Where
/// the certificate cannot be made the error is a configuration error.
pub fn create_cert_and_key(name: Option<String>) -> (result: Result<
    Vec<KeyFile>,
    Error,
>)
    ensures
        match result {
            Ok(files) => spec_names(files@) && exists|material: CertAndKey|
                spec_files(material, files@),
            Err(error) => error == Error(ErrorKind::Config),
        },
{
    let subject = subject_name(name);
    match self_signed(&subject) {
        Some(material) => {
            let made = files(material);
            assert(spec_files(material, made@));
            Ok(made)
        },
        None => Err(Error(ErrorKind::Config)),
    }
}

/// A socket configuration for the owner of the one given, bound to a port
/// of the system's choice on the loopback address, under the name
/// `localhost`, with key material at the root directory.
pub fn test_socket_config(socket: BeamSocket) -> (config: BeamSocket)
    ensures
        config.socket_pid == socket.socket_pid,
        config.bind_address == Some(SocketAddr { ip: IpAddr::V4(127, 0, 0, 1), port: 0 }),
        config.server_name@ == "localhost"@,
        config.options.timeout is None,
        config.private_key matches Some(key) && key.0@ == "/"@,
        config.certificates matches Some(certificates) && certificates.0@ == "/"@,
{
    BeamSocket {
        socket_pid: socket.socket_pid,
        bind_address: Some(SocketAddr { ip: IpAddr::V4(127, 0, 0, 1), port: 0 }),
        server_name: "localhost".to_owned(),
        options: QuicOptions { timeout: None },
        private_key: Some(PrivateKey("/".to_owned())),
        certificates: Some(Certificates("/".to_owned())),
    }
}

/// A configuration of bidirectional streams for the owner of the one
/// given.
pub fn test_stream_config(stream: BeamStream) -> (config: BeamStream)
    ensures
        config.stream_pid == stream.stream_pid,
        config.stream_type == StreamType::Bi,
        config.options.timeout is None,
{
    BeamStream {
        stream_pid: stream.stream_pid,
        stream_type: StreamType::Bi,
        options: QuicOptions { timeout: None },
    }
}

} // verus!
