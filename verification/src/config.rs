//! What a caller supplies to set a connection up, and what each role needs
//! of it.

use std::sync::Arc;
use vstd::prelude::*;
use crate::certs::{spec_cert_encoding, spec_chain_encoding, Certificates, Encoding, PrivateKey};
use crate::error::{Error, ErrorKind};
use crate::options::QuicOptions;
use crate::types::{QuicSocket, QuicStream, SocketAddr, SocketType, StreamType};

verus! {

/// The configuration of a socket.
#[derive(Debug, Clone)]
pub struct BeamSocket {
    /// The process to tell of streams that the peer opens.
    pub socket_pid: Option<QuicSocket>,
    /// The address to bind to.
    pub bind_address: Option<SocketAddr>,
    /// The name that the server's certificate is checked against.
    pub server_name: String,
    pub options: QuicOptions,
    /// The server's private key.
    pub private_key: Option<PrivateKey>,
    /// The server's certificate chain, or the client's trust anchor.
    pub certificates: Option<Certificates>,
}

/// The configuration of the streams of a socket.
#[derive(Debug, Clone)]
pub struct BeamStream {
    pub stream_pid: Option<QuicStream>,
    pub stream_type: StreamType,
    pub options: QuicOptions,
}

/// A socket configuration that the tasks of a connection share. It is not
/// changed once a connection is set up with it.
#[derive(Debug, Clone)]
pub struct SocketRef(pub Arc<BeamSocket>);

/// A stream configuration that the tasks of a connection share.
#[derive(Debug, Clone)]
pub struct StreamRef(pub Arc<BeamStream>);

/// The two configurations of one connection.
#[derive(Debug, Clone)]
pub struct Configs {
    pub socket_config: SocketRef,
    pub stream_config: StreamRef,
}

/// What is needed to set up an endpoint in one of the two roles: where to
/// bind, and how each file of key material is encoded.
#[derive(Debug, Clone, Copy, PartialEq, Eq, Structural)]
pub enum EndpointPlan {
    /// A client trusts the one certificate given, in addition to nothing.
    Client { bind: SocketAddr, authority: Encoding },
    /// A server presents a certificate chain and proves it with a key.
    Server { bind: SocketAddr, key: Encoding, chain: Encoding },
}

/// `Arc::clone`: one more owner of the same value.
#[verifier::external_body]
fn share<T>(value: &Arc<T>) -> (shared: Arc<T>)
    ensures
        shared == *value,
{
    Arc::clone(value)
}

impl Configs {
    /// The same two configurations, for one more task to hold.
    pub fn share(&self) -> (shared: Configs)
        ensures
            shared == *self,
    {
        Configs {
            socket_config: SocketRef(share(&self.socket_config.0)),
            stream_config: StreamRef(share(&self.stream_config.0)),
        }
    }
}

impl BeamSocket {
    pub open spec fn spec_address(&self) -> Result<SocketAddr, Error> {
        match self.bind_address {
            Some(address) => Ok(address),
            None => Err(Error(ErrorKind::Config)),
        }
    }

    pub open spec fn spec_certs(&self) -> Result<Encoding, Error> {
        match self.certificates {
            Some(certificates) => spec_cert_encoding(certificates.0@),
            None => Err(Error(ErrorKind::Config)),
        }
    }

    pub open spec fn spec_cert_chain(&self) -> Result<Encoding, Error> {
        match self.certificates {
            Some(certificates) => spec_chain_encoding(certificates.0@),
            None => Err(Error(ErrorKind::Config)),
        }
    }

    pub open spec fn spec_private_key(&self) -> Result<Encoding, Error> {
        match self.private_key {
            Some(key) => spec_chain_encoding(key.0@),
            None => Err(Error(ErrorKind::Config)),
        }
    }

    pub open spec fn spec_send(&self) -> Result<QuicSocket, Error> {
        match self.socket_pid {
            Some(owner) => Ok(owner),
            None => Err(Error(ErrorKind::Config)),
        }
    }

    /// What an endpoint of the role given needs of this configuration. A
    /// client needs a certificate to trust and no key; a server needs a key
    /// and a certificate chain; both need an address to bind to. Whatever is
    /// missing or of an unknown encoding is a configuration error.
    pub open spec fn spec_plan(&self, role: SocketType) -> Result<EndpointPlan, Error> {
        match role {
            SocketType::Client => match (self.spec_certs(), self.spec_address()) {
                (Ok(authority), Ok(bind)) => Ok(EndpointPlan::Client { bind, authority }),
                _ => Err(Error(ErrorKind::Config)),
            },
            SocketType::Server => match (
                self.spec_private_key(),
                self.spec_cert_chain(),
                self.spec_address(),
            ) {
                (Ok(key), Ok(chain), Ok(bind)) => Ok(EndpointPlan::Server { bind, key, chain }),
                _ => Err(Error(ErrorKind::Config)),
            },
        }
    }

    /// The address to bind to. A configuration without one is in error.
    pub fn address(&self) -> (result: Result<SocketAddr, Error>)
        ensures
            result == self.spec_address(),
    {
        match self.bind_address {
            Some(address) => Ok(address),
            None => Err(Error(ErrorKind::Config)),
        }
    }

    /// The encoding of the one certificate that a client trusts.
    pub fn certs(&self) -> (result: Result<Encoding, Error>)
        ensures
            result == self.spec_certs(),
    {
        match &self.certificates {
            Some(certificates) => certificates.as_cert(),
            None => Err(Error(ErrorKind::Config)),
        }
    }

    /// The encoding of the certificate chain that a server presents.
    pub fn cert_chain(&self) -> (result: Result<Encoding, Error>)
        ensures
            result == self.spec_cert_chain(),
    {
        match &self.certificates {
            Some(certificates) => certificates.as_chain(),
            None => Err(Error(ErrorKind::Config)),
        }
    }

    /// The encoding of the server's private key.
    pub fn private_key(&self) -> (result: Result<Encoding, Error>)
        ensures
            result == self.spec_private_key(),
    {
        match &self.private_key {
            Some(key) => key.as_key(),
            None => Err(Error(ErrorKind::Config)),
        }
    }

    /// The process that is to be told of a stream the peer opened. A
    /// configuration without one is in error.
    pub fn send(&self) -> (result: Result<QuicSocket, Error>)
        ensures
            result == self.spec_send(),
    {
        match self.socket_pid {
            Some(owner) => Ok(owner),
            None => Err(Error(ErrorKind::Config)),
        }
    }

    /// The name that the server's certificate is checked against.
    pub fn server_name(&self) -> (result: Result<String, Error>)
        ensures
            result matches Ok(name) && name@ == self.server_name@,
    {
        Ok(self.server_name.clone())
    }

    /// What an endpoint of the role given needs of this configuration.
    pub fn plan(&self, role: SocketType) -> (result: Result<EndpointPlan, Error>)
        ensures
            result == self.spec_plan(role),
    {
        match role {
            SocketType::Client => {
                let authority = self.certs();
                let bind = self.address();
                match (authority, bind) {
                    (Ok(authority), Ok(bind)) => Ok(EndpointPlan::Client { bind, authority }),
                    _ => Err(Error(ErrorKind::Config)),
                }
            },
            SocketType::Server => {
                let key = self.private_key();
                let chain = self.cert_chain();
                let bind = self.address();
                match (key, chain, bind) {
                    (Ok(key), Ok(chain), Ok(bind)) => Ok(EndpointPlan::Server { bind, key, chain }),
                    _ => Err(Error(ErrorKind::Config)),
                }
            },
        }
    }
}

/// What a configuration has to answer before a connection can be set up
/// with it. Every answer may fail: what backs it may be missing or
/// malformed. None of them changes anything, so each may be asked again.
pub trait Net {
    /// The address to bind to.
    fn address(&self) -> Result<SocketAddr, Error>;

    /// The encoding of the certificate chain.
    fn certificate_chain(&self) -> Result<Encoding, Error>;

    /// The encoding of the private key. Only a server needs one.
    fn private_key(&self) -> Result<Encoding, Error>;

    /// The name that the server's certificate is checked against.
    fn server_name(&self) -> Result<String, Error>;
}

impl Net for SocketRef {
    fn address(&self) -> (result: Result<SocketAddr, Error>)
        ensures
            result == self.0.spec_address(),
    {
        self.0.address()
    }

    fn certificate_chain(&self) -> (result: Result<Encoding, Error>)
        ensures
            result == self.0.spec_cert_chain(),
    {
        self.0.cert_chain()
    }

    fn private_key(&self) -> (result: Result<Encoding, Error>)
        ensures
            result == self.0.spec_private_key(),
    {
        self.0.private_key()
    }

    fn server_name(&self) -> (result: Result<String, Error>)
        ensures
            result matches Ok(name) && name@ == self.0.server_name@,
    {
        self.0.server_name()
    }
}

impl SocketRef {
    /// A configuration ready to be shared.
    pub fn new(config: BeamSocket) -> (shared: SocketRef)
        ensures
            *shared.0 == config,
    {
        SocketRef(Arc::new(config))
    }

    /// The address to bind to.
    pub fn address(&self) -> (result: Result<SocketAddr, Error>)
        ensures
            result == self.0.spec_address(),
    {
        self.0.address()
    }

    /// The encoding of the one certificate that a client trusts.
    pub fn certs(&self) -> (result: Result<Encoding, Error>)
        ensures
            result == self.0.spec_certs(),
    {
        self.0.certs()
    }

    /// The encoding of the certificate chain that a server presents.
    pub fn cert_chain(&self) -> (result: Result<Encoding, Error>)
        ensures
            result == self.0.spec_cert_chain(),
    {
        self.0.cert_chain()
    }

    /// The encoding of the server's private key.
    pub fn private_key(&self) -> (result: Result<Encoding, Error>)
        ensures
            result == self.0.spec_private_key(),
    {
        self.0.private_key()
    }

    /// The process that is to be told of a stream the peer opened.
    pub fn send(&self) -> (result: Result<QuicSocket, Error>)
        ensures
            result == self.0.spec_send(),
    {
        self.0.send()
    }

    /// The name that the server's certificate is checked against.
    pub fn server_name(&self) -> (result: Result<String, Error>)
        ensures
            result matches Ok(name) && name@ == self.0.server_name@,
    {
        self.0.server_name()
    }
}

impl StreamRef {
    /// A configuration ready to be shared.
    pub fn new(config: BeamStream) -> (shared: StreamRef)
        ensures
            *shared.0 == config,
    {
        StreamRef(Arc::new(config))
    }
}

} // verus!
