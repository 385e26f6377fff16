//! Connectors that encrypt with rustls: the tagged connection, the
//! opportunistic-TLS connector, and the ready-made connector settings.

use vstd::prelude::*;
use crate::resolver::{new_hickory_http_connector, HickoryHttpConnector};
use crate::service::Features;

pub mod connector;

verus! {

/// An application protocol that can be offered to a TLS peer.
#[derive(Clone, Copy, Debug, PartialEq, Eq, Structural)]
pub enum Protocol {
    /// HTTP/2, offered as `h2`.
    H2,
    /// HTTP/1.1, offered as `http/1.1`.
    Http11,
}

impl Protocol {
    /// The bytes that name the protocol in the ALPN extension.
    pub open spec fn wire(self) -> Seq<u8> {
        match self {
            Protocol::H2 => seq![0x68u8, 0x32u8],
            Protocol::Http11 => seq![0x68u8, 0x74u8, 0x74u8, 0x70u8, 0x2fu8, 0x31u8, 0x2eu8, 0x31u8],
        }
    }

    /// The protocol that `bytes` name, if they name one.
    pub open spec fn parse(bytes: Seq<u8>) -> Option<Protocol> {
        if bytes == Protocol::H2.wire() {
            Some(Protocol::H2)
        } else if bytes == Protocol::Http11.wire() {
            Some(Protocol::Http11)
        } else {
            None
        }
    }

    /// The bytes that name the protocol in the ALPN extension.
    pub fn wire_name(&self) -> (name: Vec<u8>)
        ensures
            name@ == self.wire(),
    {
        let name = match self {
            Protocol::H2 => vec![0x68u8, 0x32u8],
            Protocol::Http11 => vec![0x68u8, 0x74u8, 0x74u8, 0x70u8, 0x2fu8, 0x31u8, 0x2eu8, 0x31u8],
        };
        proof {
            assert(name@ =~= self.wire());
        }
        name
    }

    /// Reads a protocol from the bytes that a peer selected.
    pub fn from_wire(bytes: &Vec<u8>) -> (p: Option<Protocol>)
        ensures
            p == Protocol::parse(bytes@),
    {
        if bytes.len() == 2 && bytes[0] == 0x68u8 && bytes[1] == 0x32u8 {
            proof {
                assert(bytes@ =~= Protocol::H2.wire());
            }
            Some(Protocol::H2)
        } else if bytes.len() == 8 && bytes[0] == 0x68u8 && bytes[1] == 0x74u8 && bytes[2] == 0x74u8
            && bytes[3] == 0x70u8 && bytes[4] == 0x2fu8 && bytes[5] == 0x31u8 && bytes[6] == 0x2eu8
            && bytes[7] == 0x31u8 {
            proof {
                assert(bytes@ =~= Protocol::Http11.wire());
                assert(Protocol::Http11.wire().len() != Protocol::H2.wire().len());
            }
            Some(Protocol::Http11)
        } else {
            proof {
                let h2 = Protocol::H2.wire();
                let h1 = Protocol::Http11.wire();
                assert(h2.len() == 2 && h2[0] == 0x68u8 && h2[1] == 0x32u8);
                assert(h1.len() == 8 && h1[0] == 0x68u8 && h1[1] == 0x74u8 && h1[2] == 0x74u8
                    && h1[3] == 0x70u8 && h1[4] == 0x2fu8 && h1[5] == 0x31u8 && h1[6] == 0x2eu8
                    && h1[7] == 0x31u8);
            }
            None
        }
    }
}

/// The protocols that a connector built with the given switches offers, in
/// the order of preference: HTTP/2 before HTTP/1.1.
pub open spec fn alpn_offer(http1: bool, http2: bool) -> Seq<Protocol> {
    let first = if http2 {
        seq![Protocol::H2]
    } else {
        Seq::<Protocol>::empty()
    };
    if http1 {
        first.push(Protocol::Http11)
    } else {
        first
    }
}

/// A stream that might be protected with TLS.
///
/// A value is built once, in one of the two variants, and stays in it.
#[derive(Debug, PartialEq, Eq)]
pub enum MaybeHttpsStream<T, S> {
    /// A stream over plain text.
    Http(T),
    /// A stream protected with TLS, with the protocol that was agreed on.
    Https { stream: S, protocol: Option<Protocol> },
}

impl<T, S> MaybeHttpsStream<T, S> {
    /// Whether the stream is protected with TLS.
    pub fn is_https(&self) -> (encrypted: bool)
        ensures
            encrypted == (self is Https),
    {
        match self {
            MaybeHttpsStream::Http(_) => false,
            MaybeHttpsStream::Https { .. } => true,
        }
    }

    /// The application protocol that was agreed on in the handshake; none
    /// on a plain stream.
    pub fn negotiated_protocol(&self) -> (protocol: Option<Protocol>)
        ensures
            protocol == match *self {
                MaybeHttpsStream::Http(_) => None,
                MaybeHttpsStream::Https { stream: _, protocol: agreed } => agreed,
            },
    {
        match self {
            MaybeHttpsStream::Http(_) => None,
            MaybeHttpsStream::Https { stream: _, protocol } => *protocol,
        }
    }
}

/// Where a connector has its trust anchors from.
#[derive(Clone, Copy, Debug, PartialEq, Eq, Structural)]
pub enum RootSource {
    /// The certificate store of the operating system.
    Native,
    /// The anchors that are compiled into the program.
    Webpki,
}

/// Why a connector could not be built.
#[derive(Clone, Copy, Debug, PartialEq, Eq, Structural)]
pub enum ConfigurationError {
    /// The certificate store could not be read at all.
    StoreInaccessible,
    /// The certificate store holds no certificate.
    NoCertificates,
    /// Neither HTTP/1.1 nor HTTP/2 is switched on.
    NoProtocol,
}

impl ConfigurationError {
    /// What the error says.
    pub open spec fn message_text(self) -> Seq<char> {
        match self {
            ConfigurationError::StoreInaccessible => "cannot access native cert store"@,
            ConfigurationError::NoCertificates => "no CA certificates found"@,
            ConfigurationError::NoProtocol => "neither http1 nor http2 is enabled"@,
        }
    }

    /// What the error says.
    pub fn message(&self) -> (msg: &'static str)
        ensures
            msg@ == self.message_text(),
    {
        match self {
            ConfigurationError::StoreInaccessible => "cannot access native cert store",
            ConfigurationError::NoCertificates => "no CA certificates found",
            ConfigurationError::NoProtocol => "neither http1 nor http2 is enabled",
        }
    }
}

/// The settings of a ready-made rustls connector over a
/// [`HickoryHttpConnector`].
#[derive(Clone, Copy, Debug, PartialEq, Eq)]
pub struct RustlsHttpsConnector<C, O> {
    pub http: HickoryHttpConnector<C, O>,
    pub roots: RootSource,
    pub https_only: bool,
    pub http1: bool,
    pub http2: bool,
}

/// The settings that `features` and a trust source give.
pub open spec fn rustls_settings<C, O>(roots: RootSource, features: Features) -> RustlsHttpsConnector<
    C,
    O,
> {
    RustlsHttpsConnector {
        http: crate::resolver::hickory_http_connector::<C, O>(features),
        roots,
        https_only: features.https_only,
        http1: features.http1,
        http2: features.http2,
    }
}

fn new_rustls_https_connector<C, O>(roots: RootSource, features: Features) -> (r: Result<
    RustlsHttpsConnector<C, O>,
    ConfigurationError,
>)
    ensures
        !features.http1 && !features.http2 ==> r == Err::<RustlsHttpsConnector<C, O>, ConfigurationError>(
            ConfigurationError::NoProtocol,
        ),
        features.http1 || features.http2 ==> r == Ok::<RustlsHttpsConnector<C, O>, ConfigurationError>(
            rustls_settings::<C, O>(roots, features),
        ),
{
    if !features.http1 && !features.http2 {
        return Err(ConfigurationError::NoProtocol);
    }
    let http_connector = new_hickory_http_connector::<C, O>(features);
    Ok(
        RustlsHttpsConnector {
            http: http_connector,
            roots,
            https_only: features.https_only,
            http1: features.http1,
            http2: features.http2,
        },
    )
}

/// Create a new [`RustlsHttpsConnector`] using the OS root store.
///
/// At least one of HTTP/1.1 and HTTP/2 must be switched on.
pub fn new_rustls_native_https_connector<C, O>(features: Features) -> (r: Result<
    RustlsHttpsConnector<C, O>,
    ConfigurationError,
>)
    ensures
        !features.http1 && !features.http2 ==> r == Err::<RustlsHttpsConnector<C, O>, ConfigurationError>(
            ConfigurationError::NoProtocol,
        ),
        features.http1 || features.http2 ==> r == Ok::<RustlsHttpsConnector<C, O>, ConfigurationError>(
            rustls_settings::<C, O>(RootSource::Native, features),
        ),
{
    new_rustls_https_connector(RootSource::Native, features)
}

/// Create a new [`RustlsHttpsConnector`] using the compiled-in roots.
///
/// At least one of HTTP/1.1 and HTTP/2 must be switched on.
pub fn new_rustls_webpki_https_connector<C, O>(features: Features) -> (r: Result<
    RustlsHttpsConnector<C, O>,
    ConfigurationError,
>)
    ensures
        !features.http1 && !features.http2 ==> r == Err::<RustlsHttpsConnector<C, O>, ConfigurationError>(
            ConfigurationError::NoProtocol,
        ),
        features.http1 || features.http2 ==> r == Ok::<RustlsHttpsConnector<C, O>, ConfigurationError>(
            rustls_settings::<C, O>(RootSource::Webpki, features),
        ),
{
    new_rustls_https_connector(RootSource::Webpki, features)
}

} // verus!
