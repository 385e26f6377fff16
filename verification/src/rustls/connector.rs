//! The opportunistic-TLS connector: per request it decides between a plain
//! and an encrypted transport, once and by the scheme alone.

use vstd::prelude::*;
use crate::resolver::{hickory_http_connector, new_hickory_http_connector, HickoryHttpConnector};
use crate::rustls::{alpn_offer, ConfigurationError, MaybeHttpsStream, Protocol, RootSource};
use crate::server_name::{dns_name_accepted, is_valid_server_name};
use crate::service::{Features, Readiness};

verus! {

/// A set of trust anchors: where it comes from and how many it holds.
#[derive(Clone, Copy, Debug, PartialEq, Eq, Structural)]
pub struct RootCertStore {
    pub source: RootSource,
    pub anchors: usize,
}

impl RootCertStore {
    /// Whether the store holds no anchor.
    pub fn is_empty(&self) -> (empty: bool)
        ensures
            empty == (self.anchors == 0),
    {
        self.anchors == 0
    }
}

/// What loading the certificate store of the operating system gave.
#[derive(Clone, Copy, Debug, PartialEq, Eq, Structural)]
pub enum NativeCerts {
    /// Every certificate was read; the count says how many there are.
    Loaded(usize),
    /// Some certificates could not be read; the count is of those that
    /// could.
    PartlyLoaded(usize),
    /// The store could not be read at all.
    Inaccessible,
}

impl NativeCerts {
    /// What a load stands for that read `certificates` certificates and
    /// met `errors` errors on the way.
    pub open spec fn of_load(certificates: usize, errors: usize) -> NativeCerts {
        if errors == 0 {
            NativeCerts::Loaded(certificates)
        } else if certificates > 0 {
            NativeCerts::PartlyLoaded(certificates)
        } else {
            NativeCerts::Inaccessible
        }
    }

    /// Sorts the outcome of a load by its two counts. A load without
    /// errors is complete, whatever it found; one with errors that still
    /// read something is partial; one with errors that read nothing could
    /// not access the store.
    pub fn classify(certificates: usize, errors: usize) -> (loaded: NativeCerts)
        ensures
            errors == 0 ==> loaded == NativeCerts::Loaded(certificates),
            errors > 0 && certificates > 0 ==> loaded == NativeCerts::PartlyLoaded(certificates),
            errors > 0 && certificates == 0 ==> loaded == NativeCerts::Inaccessible,
            loaded == NativeCerts::of_load(certificates, errors),
    {
        if errors == 0 {
            NativeCerts::Loaded(certificates)
        } else if certificates > 0 {
            NativeCerts::PartlyLoaded(certificates)
        } else {
            NativeCerts::Inaccessible
        }
    }

    /// Whether a part of the store could not be read, so that a warning is
    /// in order.
    pub fn is_partial(&self) -> (partial: bool)
        ensures
            partial == (*self is PartlyLoaded),
    {
        match self {
            NativeCerts::PartlyLoaded(_) => true,
            _ => false,
        }
    }
}

/// The TLS client settings that a connector hands to every handshake: the
/// roots to trust and the protocols to offer.
///
/// The settings always trust at least one root: no value of this type
/// holds an empty store.
#[derive(Debug, PartialEq, Eq)]
pub struct ClientConfig {
    root_store: RootCertStore,
    alpn_protocols: Vec<Protocol>,
}

impl ClientConfig {
    #[verifier::type_invariant]
    spec fn trusts_some_root(&self) -> bool {
        self.root_store.anchors > 0
    }

    /// The roots that are trusted.
    pub closed spec fn roots(&self) -> RootCertStore {
        self.root_store
    }

    /// The protocols that are offered, most preferred first. Empty: the
    /// ALPN extension is not sent.
    pub closed spec fn offer(&self) -> Seq<Protocol> {
        self.alpn_protocols@
    }

    /// Settings that trust `root_store` and offer `alpn_protocols`.
    ///
    /// The construction fails exactly if the store is empty.
    pub fn new(root_store: RootCertStore, alpn_protocols: Vec<Protocol>) -> (r: Result<
        Self,
        ConfigurationError,
    >)
        ensures
            root_store.anchors == 0 ==> r is Err && r->Err_0 == ConfigurationError::NoCertificates,
            root_store.anchors > 0 ==> r is Ok && r->Ok_0.roots() == root_store
                && r->Ok_0.offer() == alpn_protocols@,
    {
        if root_store.is_empty() {
            Err(ConfigurationError::NoCertificates)
        } else {
            Ok(ClientConfig { root_store, alpn_protocols })
        }
    }

    /// The roots that are trusted: there is at least one.
    pub fn root_store(&self) -> (store: RootCertStore)
        ensures
            store == self.roots(),
            store.anchors > 0,
    {
        proof {
            use_type_invariant(self);
        }
        self.root_store
    }

    /// The protocols that are offered, most preferred first.
    pub fn alpn_protocols(&self) -> (offer: &Vec<Protocol>)
        ensures
            offer@ == self.offer(),
    {
        &self.alpn_protocols
    }
}

impl Clone for ClientConfig {
    /// The same settings once more.
    fn clone(&self) -> (copy: Self)
        ensures
            copy.roots() == self.roots(),
            copy.offer() == self.offer(),
    {
        let mut alpn_protocols: Vec<Protocol> = Vec::new();
        let mut i: usize = 0;
        while i < self.alpn_protocols.len()
            invariant
                i <= self.alpn_protocols@.len(),
                alpn_protocols@ == self.alpn_protocols@.take(i as int),
            decreases self.alpn_protocols@.len() - i,
        {
            alpn_protocols.push(self.alpn_protocols[i]);
            proof {
                assert(self.alpn_protocols@.take(i + 1) =~= self.alpn_protocols@.take(i as int).push(
                    self.alpn_protocols@[i as int],
                ));
            }
            i = i + 1;
        }
        proof {
            use_type_invariant(self);
            assert(self.alpn_protocols@.take(i as int) =~= self.alpn_protocols@);
        }
        ClientConfig { root_store: self.root_store, alpn_protocols }
    }
}

/// What the connector reads of a request target.
#[derive(Clone, Debug, PartialEq, Eq)]
pub struct Target {
    /// The scheme, where the target has one.
    pub scheme: Option<String>,
    /// The host, where the target has one.
    pub host: Option<String>,
}

impl Target {
    /// Whether the target asks for an encrypted transport: its scheme is
    /// `https`, letter for letter.
    pub open spec fn is_encrypted(&self) -> bool {
        self.scheme matches Some(s) && s@ == "https"@
    }

    /// The name to offer to the TLS peer: the host, or the empty string
    /// where the target has none.
    pub open spec fn server_name(&self) -> Seq<char> {
        match self.host {
            Some(h) => h@,
            None => Seq::<char>::empty(),
        }
    }

    /// Whether the target asks for an encrypted transport.
    pub fn is_https(&self) -> (encrypted: bool)
        ensures
            encrypted == self.is_encrypted(),
    {
        match &self.scheme {
            Some(s) => {
                let https = "https".to_owned();
                *s == https
            },
            None => false,
        }
    }
}

/// A failed handshake.
#[derive(Debug, PartialEq, Eq)]
pub enum HandshakeError<E> {
    /// The host of the target is no DNS name that a certificate could be
    /// checked against.
    InvalidDnsName,
    /// The TLS library gave up; its error is carried as it came.
    Tls(E),
    /// The peer selected a protocol that was not offered.
    UnofferedProtocol,
}

/// The stages of a call at which it can fail.
#[derive(Clone, Copy, Debug, PartialEq, Eq, Structural)]
pub enum Stage {
    /// The decision on the scheme, before anything is dialed.
    Policy,
    /// The resolution of the host's name.
    Resolution,
    /// The connection to an address of the host.
    Dial,
    /// The TLS handshake over the connected stream.
    Handshake,
}

/// Why a call of the connector failed, by the stage that failed.
#[derive(Debug, PartialEq, Eq)]
pub enum ConnectorError<E> {
    /// Encryption is required and the target did not ask for it.
    Policy,
    /// The name of the host could not be resolved.
    Resolution(E),
    /// No address of the host could be connected to.
    Connection(E),
    /// The TLS handshake failed.
    Handshake(HandshakeError<E>),
}

impl<E> ConnectorError<E> {
    /// What the error says, where the connector made it itself; an error
    /// that was carried from the resolver, the dialer or the TLS library
    /// speaks for itself.
    pub open spec fn message_text(&self) -> Option<Seq<char>> {
        match *self {
            ConnectorError::Policy => Some("https required but URI was not https"@),
            ConnectorError::Handshake(HandshakeError::InvalidDnsName) => Some("invalid dnsname"@),
            ConnectorError::Handshake(HandshakeError::UnofferedProtocol) => Some(
                "peer selected a protocol that was not offered"@,
            ),
            _ => None,
        }
    }

    /// What the error says, where the connector made it itself.
    pub fn message(&self) -> (msg: Option<&'static str>)
        ensures
            match msg {
                Some(text) => self.message_text() == Some(text@),
                None => self.message_text() is None,
            },
    {
        match self {
            ConnectorError::Policy => Some("https required but URI was not https"),
            ConnectorError::Handshake(HandshakeError::InvalidDnsName) => Some("invalid dnsname"),
            ConnectorError::Handshake(HandshakeError::UnofferedProtocol) => Some(
                "peer selected a protocol that was not offered",
            ),
            _ => None,
        }
    }

    /// The stage of the call at which it failed.
    pub fn stage(&self) -> (stage: Stage)
        ensures
            stage == match *self {
                ConnectorError::Policy => Stage::Policy,
                ConnectorError::Resolution(_) => Stage::Resolution,
                ConnectorError::Connection(_) => Stage::Dial,
                ConnectorError::Handshake(_) => Stage::Handshake,
            },
    {
        match self {
            ConnectorError::Policy => Stage::Policy,
            ConnectorError::Resolution(_) => Stage::Resolution,
            ConnectorError::Connection(_) => Stage::Dial,
            ConnectorError::Handshake(_) => Stage::Handshake,
        }
    }
}

/// The state of a call after its first step: the target is being dialed.
#[derive(Debug, PartialEq, Eq)]
pub struct Dialing {
    /// The name for the handshake that follows; `None` where the stream
    /// stays plain.
    pub server_name: Option<String>,
}

impl View for Dialing {
    type V = Option<Seq<char>>;

    open spec fn view(&self) -> Option<Seq<char>> {
        match self.server_name {
            Some(name) => Some(name@),
            None => None,
        }
    }
}

/// What dialing gave.
#[derive(Debug, PartialEq, Eq)]
pub enum DialOutcome<T, E> {
    /// A connected stream.
    Connected(T),
    /// The host's name was not resolved; nothing was dialed.
    ResolutionFailed(E),
    /// The name was resolved and no address answered.
    ConnectionFailed(E),
}

/// What the connector does once the stream is there.
#[derive(Debug, PartialEq, Eq)]
pub enum Dialed<T, S> {
    /// The call is over: this is its connection.
    Done(MaybeHttpsStream<T, S>),
    /// A handshake over `stream` is due, with `server_name` as the name of
    /// the peer.
    Handshake { server_name: String, stream: T },
}

/// What the handshake gave.
#[derive(Debug, PartialEq, Eq)]
pub enum HandshakeOutcome<S, E> {
    /// An encrypted stream, and the name of the protocol that the peer
    /// selected, if it selected one.
    Established { stream: S, selected: Option<Vec<u8>> },
    /// No stream.
    Failed(E),
}

/// The first step of a call, as a function of what it reads: `None` for a
/// call that is refused, else the state to dial in.
pub open spec fn plan(force_https: bool, target: Target) -> Option<Option<Seq<char>>> {
    if target.is_encrypted() {
        Some(Some(target.server_name()))
    } else if force_https {
        None
    } else {
        Some(None)
    }
}

/// What an agreed protocol may be, given what was offered: the peer selects
/// nothing, or one of the offered protocols.
pub open spec fn agreed(offered: Seq<Protocol>, selected: Option<Seq<u8>>) -> Option<
    Option<Protocol>,
> {
    match selected {
        None => Some(None),
        Some(bytes) => match Protocol::parse(bytes) {
            Some(p) => if offered.contains(p) {
                Some(Some(p))
            } else {
                None
            },
            None => None,
        },
    }
}

/// The second step of a call, as a function of what dialing gave and of
/// whether the server name is a valid DNS name.
pub open spec fn after_dial<T, S, E>(
    dialing: Dialing,
    outcome: DialOutcome<T, E>,
    name_ok: bool,
) -> Result<Dialed<T, S>, ConnectorError<E>> {
    match outcome {
        DialOutcome::ResolutionFailed(e) => Err(ConnectorError::Resolution(e)),
        DialOutcome::ConnectionFailed(e) => Err(ConnectorError::Connection(e)),
        DialOutcome::Connected(stream) => match dialing.server_name {
            None => Ok(Dialed::Done(MaybeHttpsStream::Http(stream))),
            Some(server_name) => if name_ok {
                Ok(Dialed::Handshake { server_name, stream })
            } else {
                Err(ConnectorError::Handshake(HandshakeError::InvalidDnsName))
            },
        },
    }
}

/// The last step of a call, as a function of what was offered and of
/// what the handshake gave.
pub open spec fn after_handshake<T, S, E>(
    offered: Seq<Protocol>,
    outcome: HandshakeOutcome<S, E>,
) -> Result<MaybeHttpsStream<T, S>, ConnectorError<E>> {
    match outcome {
        HandshakeOutcome::Failed(e) => Err(ConnectorError::Handshake(HandshakeError::Tls(e))),
        HandshakeOutcome::Established { stream, selected } => {
            let selected_bytes = match selected {
                Some(bytes) => Some(bytes@),
                None => None,
            };
            match agreed(offered, selected_bytes) {
                Some(protocol) => Ok(MaybeHttpsStream::Https { stream, protocol }),
                None => Err(ConnectorError::Handshake(HandshakeError::UnofferedProtocol)),
            }
        },
    }
}

/// A Connector for the `https` scheme.
#[derive(Clone, Debug, PartialEq, Eq)]
pub struct HttpsConnector<T> {
    pub force_https: bool,
    pub http: T,
    pub tls_config: ClientConfig,
}

impl<T> HttpsConnector<T> {
    /// The protocols that the connector offers in every handshake.
    pub open spec fn offered(&self) -> Seq<Protocol> {
        self.tls_config.offer()
    }

    /// Whether the connector is what `build` makes of a root store and
    /// the switches: it forces nothing, dials through the plain connector
    /// of this library, trusts `store` and offers what the switches say.
    pub open spec fn is_built_from(&self, http: T, store: RootCertStore, features: Features) -> bool {
        &&& !self.force_https
        &&& self.http == http
        &&& self.tls_config.roots() == store
        &&& self.offered() == alpn_offer(features.http1, features.http2)
    }

    /// What the connector shows of itself when it is printed for
    /// debugging: its name and whether it forces encryption, nothing of
    /// the connector it wraps or of its TLS settings.
    pub open spec fn debug_text_of(force_https: bool) -> Seq<char> {
        if force_https {
            "HttpsConnector { force_https: true }"@
        } else {
            "HttpsConnector { force_https: false }"@
        }
    }

    /// The text for debugging output.
    pub fn debug_text(&self) -> (text: &'static str)
        ensures
            text@ == Self::debug_text_of(self.force_https),
    {
        if self.force_https {
            "HttpsConnector { force_https: true }"
        } else {
            "HttpsConnector { force_https: false }"
        }
    }

    /// Force the use of HTTPS when connecting.
    ///
    /// If a target is not `https` when connecting, the call is refused.
    /// Disabled by default.
    pub fn https_only(&mut self, enable: bool)
        ensures
            final(self).force_https == enable,
            final(self).http == old(self).http,
            final(self).tls_config == old(self).tls_config,
    {
        self.force_https = enable;
    }

    /// The readiness probe: the answer of the wrapped connector, passed on
    /// unchanged.
    pub fn poll_ready<E>(&self, inner: Readiness<E>) -> (ready: Readiness<E>)
        ensures
            ready == inner,
    {
        match inner {
            Readiness::Ready => Readiness::Ready,
            Readiness::Failed(e) => Readiness::Failed(e),
            Readiness::Pending => Readiness::Pending,
        }
    }

    /// Whether `protocol` is among those that the connector offers.
    pub fn offers(&self, protocol: Protocol) -> (found: bool)
        ensures
            found == self.offered().contains(protocol),
    {
        let offer = self.tls_config.alpn_protocols();
        let mut i: usize = 0;
        while i < offer.len()
            invariant
                i <= offer@.len(),
                offer@ == self.offered(),
                forall|j: int| 0 <= j < i ==> offer@[j] != protocol,
            decreases offer@.len() - i,
        {
            if offer[i] == protocol {
                return true;
            }
            i = i + 1;
        }
        false
    }

    /// The first step of a call: the decision between plain and encrypted,
    /// made once and from the scheme alone.
    ///
    /// A target that does not ask for encryption is refused where
    /// encryption is forced: no state to dial in comes back, so nothing is
    /// dialed. Every other target is to be dialed; an encrypted one takes
    /// the name for its handshake along.
    pub fn call<E>(&self, dst: &Target) -> (r: Result<Dialing, ConnectorError<E>>)
        ensures
            match r {
                Ok(dialing) => plan(self.force_https, *dst) == Some(dialing@),
                Err(e) => plan(self.force_https, *dst) is None && e is Policy,
            },
    {
        if dst.is_https() {
            let hostname = match &dst.host {
                Some(h) => h.clone(),
                None => String::new(),
            };
            Ok(Dialing { server_name: Some(hostname) })
        } else if self.force_https {
            Err(ConnectorError::Policy)
        } else {
            Ok(Dialing { server_name: None })
        }
    }

    /// The second step of a call, with the verdict on the server name
    /// given.
    ///
    /// A failed dial ends the call with the dialer's error, unchanged. A
    /// stream that stays plain ends it with the plain connection. A stream
    /// to encrypt goes on to the handshake if the server name is valid;
    /// else the call fails and the stream is dropped.
    pub fn dialed_with<P, S, E>(
        &self,
        dialing: Dialing,
        outcome: DialOutcome<P, E>,
        name_ok: bool,
    ) -> (r: Result<Dialed<P, S>, ConnectorError<E>>)
        ensures
            r == after_dial::<P, S, E>(dialing, outcome, name_ok),
    {
        match outcome {
            DialOutcome::ResolutionFailed(e) => Err(ConnectorError::Resolution(e)),
            DialOutcome::ConnectionFailed(e) => Err(ConnectorError::Connection(e)),
            DialOutcome::Connected(stream) => match dialing.server_name {
                None => Ok(Dialed::Done(MaybeHttpsStream::Http(stream))),
                Some(server_name) => {
                    if name_ok {
                        Ok(Dialed::Handshake { server_name, stream })
                    } else {
                        Err(ConnectorError::Handshake(HandshakeError::InvalidDnsName))
                    }
                },
            },
        }
    }

    /// The second step of a call: takes what dialing gave, checks the
    /// server name of a stream that is to be encrypted, and does as
    /// [`Self::dialed_with`] says.
    pub fn dialed<P, S, E>(&self, dialing: Dialing, outcome: DialOutcome<P, E>) -> (r: Result<
        Dialed<P, S>,
        ConnectorError<E>,
    >)
        ensures
            r == after_dial::<P, S, E>(
                dialing,
                outcome,
                dialing.server_name is Some && dns_name_accepted(dialing.server_name->Some_0@),
            ),
            outcome is Connected && dialing.server_name is Some
                && dialing.server_name->Some_0@.len() == 0 ==> r is Err,
    {
        let name_ok = match (&dialing.server_name, &outcome) {
            (Some(name), DialOutcome::Connected(_)) => is_valid_server_name(name.as_str()),
            _ => false,
        };
        self.dialed_with(dialing, outcome, name_ok)
    }

    /// The last step of a call: takes what the handshake gave.
    ///
    /// A failed handshake ends the call with the error of the TLS library;
    /// the result holds no plain stream. An established stream becomes the
    /// encrypted connection, with the protocol that the peer selected; a
    /// selection outside the offer fails the call.
    pub fn handshaken<P, S, E>(&self, outcome: HandshakeOutcome<S, E>) -> (r: Result<
        MaybeHttpsStream<P, S>,
        ConnectorError<E>,
    >)
        ensures
            r == after_handshake::<P, S, E>(self.offered(), outcome),
    {
        match outcome {
            HandshakeOutcome::Failed(e) => Err(ConnectorError::Handshake(HandshakeError::Tls(e))),
            HandshakeOutcome::Established { stream, selected } => {
                match selected {
                    None => Ok(MaybeHttpsStream::Https { stream, protocol: None }),
                    Some(bytes) => {
                        match Protocol::from_wire(&bytes) {
                            Some(p) => {
                                if self.offers(p) {
                                    Ok(MaybeHttpsStream::Https { stream, protocol: Some(p) })
                                } else {
                                    Err(ConnectorError::Handshake(HandshakeError::UnofferedProtocol))
                                }
                            },
                            None => Err(
                                ConnectorError::Handshake(HandshakeError::UnofferedProtocol),
                            ),
                        }
                    },
                }
            },
        }
    }
}

impl<H> From<(H, ClientConfig)> for HttpsConnector<H> {
    /// A connector over a plain connector with the TLS settings given,
    /// taken as they are. It does not force encryption.
    fn from(parts: (H, ClientConfig)) -> (connector: Self) {
        HttpsConnector { force_https: false, http: parts.0, tls_config: parts.1 }
    }
}

impl<H> vstd::std_specs::convert::FromSpecImpl<(H, ClientConfig)> for HttpsConnector<H> {
    open spec fn obeys_from_spec() -> bool {
        true
    }

    open spec fn from_spec(parts: (H, ClientConfig)) -> Self {
        HttpsConnector { force_https: false, http: parts.0, tls_config: parts.1 }
    }
}

/// Reads how many anchors `webpki_roots::TLS_SERVER_ROOTS` holds.
///
/// Trusted: the list is a constant of that crate and is not empty.
#[verifier::external_body]
fn embedded_anchor_count() -> (n: usize)
    ensures
        n > 0,
{
    webpki_roots::TLS_SERVER_ROOTS.len()
}

/// The root store that a load of the operating system's certificates
/// gives, if it gives one.
pub open spec fn native_store(loaded: NativeCerts) -> Option<RootCertStore> {
    match loaded {
        NativeCerts::Loaded(n) => Some(RootCertStore { source: RootSource::Native, anchors: n }),
        NativeCerts::PartlyLoaded(n) => Some(
            RootCertStore { source: RootSource::Native, anchors: n },
        ),
        NativeCerts::Inaccessible => None,
    }
}

impl<C, O> HttpsConnector<HickoryHttpConnector<C, O>> {
    /// Construct a new `HttpsConnector` using the OS root store, from what
    /// loading that store gave.
    ///
    /// A store of which only a part could be read is used as far as it was
    /// read. The construction fails if the store could not be accessed or
    /// is empty.
    pub fn with_native_roots(loaded: NativeCerts, features: Features) -> (r: Result<
        Self,
        ConfigurationError,
    >)
        ensures
            match native_store(loaded) {
                None => r is Err && r->Err_0 == ConfigurationError::StoreInaccessible,
                Some(store) => if store.anchors == 0 {
                    r is Err && r->Err_0 == ConfigurationError::NoCertificates
                } else {
                    r is Ok && r->Ok_0.is_built_from(hickory_http_connector::<C, O>(features), store, features)
                },
            },
    {
        match loaded {
            NativeCerts::Loaded(n) => Self::with_root_store(
                RootCertStore { source: RootSource::Native, anchors: n },
                features,
            ),
            NativeCerts::PartlyLoaded(n) => Self::with_root_store(
                RootCertStore { source: RootSource::Native, anchors: n },
                features,
            ),
            NativeCerts::Inaccessible => Err(ConfigurationError::StoreInaccessible),
        }
    }

    /// Construct a new `HttpsConnector` using the compiled-in roots.
    ///
    /// The construction never fails: the compiled-in list is not empty. The
    /// OS store plays no part, and encryption is not forced.
    pub fn with_webpki_roots(features: Features) -> (connector: Self)
        ensures
            connector.tls_config.roots().source == RootSource::Webpki,
            connector.tls_config.roots().anchors > 0,
            connector.is_built_from(
                hickory_http_connector::<C, O>(features),
                connector.tls_config.roots(),
                features,
            ),
    {
        let anchors: usize = embedded_anchor_count();
        let store = RootCertStore { source: RootSource::Webpki, anchors };
        let config = ClientConfig { root_store: store, alpn_protocols: Vec::new() };
        Self::build(config, features)
    }

    /// Construct a new `HttpsConnector` that trusts `store`.
    ///
    /// The construction fails exactly if the store is empty: no connector
    /// is made that could not verify any peer.
    pub fn with_root_store(store: RootCertStore, features: Features) -> (r: Result<
        Self,
        ConfigurationError,
    >)
        ensures
            store.anchors == 0 ==> r is Err && r->Err_0 == ConfigurationError::NoCertificates,
            store.anchors > 0 ==> r is Ok && r->Ok_0.is_built_from(
                hickory_http_connector::<C, O>(features),
                store,
                features,
            ),
    {
        match ClientConfig::new(store, Vec::new()) {
            Ok(config) => Ok(Self::build(config, features)),
            Err(e) => Err(e),
        }
    }

    fn build(config: ClientConfig, features: Features) -> (connector: Self)
        ensures
            connector.is_built_from(hickory_http_connector::<C, O>(features), config.roots(), features),
    {
        let http = new_hickory_http_connector::<C, O>(features);
        let mut alpn_protocols: Vec<Protocol> = Vec::new();
        if features.http2 {
            alpn_protocols.push(Protocol::H2);
        }
        if features.http1 {
            alpn_protocols.push(Protocol::Http11);
        }
        proof {
            assert(alpn_protocols@ =~= alpn_offer(features.http1, features.http2));
        }
        let config = ClientConfig { root_store: config.root_store(), alpn_protocols };
        HttpsConnector::from((http, config))
    }
}

/// Whether a step of a call ends it with a connection of the plain kind.
pub open spec fn ends_plain<T, S, E>(step: Result<Dialed<T, S>, ConnectorError<E>>) -> bool {
    step matches Ok(Dialed::Done(MaybeHttpsStream::Http(_)))
}

/// A target that does not ask for encryption, on a connector that does not
/// force it, is dialed and gives the dialed stream back as a plain
/// connection: the call ends there and no handshake is asked for.
pub proof fn lemma_plain_target_gives_plain_connection<T, S, E>(
    target: Target,
    dialing: Dialing,
    stream: T,
    name_ok: bool,
)
    requires
        !target.is_encrypted(),
        plan(false, target) == Some(dialing@),
    ensures
        after_dial::<T, S, E>(dialing, DialOutcome::Connected(stream), name_ok) == Ok::<
            Dialed<T, S>,
            ConnectorError<E>,
        >(Dialed::Done(MaybeHttpsStream::Http(stream))),
{
}

/// A target that asks for encryption never gets a plain connection: after
/// the dial the call either fails or goes on to the handshake with the
/// target's host as the server name, and the handshake gives an encrypted
/// connection or an error.
pub proof fn lemma_encrypted_target_never_plain<T, S, E>(
    force_https: bool,
    target: Target,
    dialing: Dialing,
    dial: DialOutcome<T, E>,
    name_ok: bool,
    offered: Seq<Protocol>,
    handshake: HandshakeOutcome<S, E>,
)
    requires
        target.is_encrypted(),
        plan(force_https, target) == Some(dialing@),
    ensures
        dialing@ == Some(target.server_name()),
        !ends_plain(after_dial::<T, S, E>(dialing, dial, name_ok)),
        dial is Connected && name_ok ==> (after_dial::<T, S, E>(dialing, dial, name_ok) matches Ok(
            Dialed::Handshake { server_name, stream },
        ) && server_name@ == target.server_name() && stream == dial->Connected_0),
        (after_handshake::<T, S, E>(offered, handshake) matches Ok(conn) ==> conn is Https),
{
}

/// The protocol of an encrypted connection is one that was offered, or
/// none; where nothing was offered it is none.
pub proof fn lemma_agreed_protocol_was_offered<T, S, E>(
    offered: Seq<Protocol>,
    handshake: HandshakeOutcome<S, E>,
)
    ensures
        match after_handshake::<T, S, E>(offered, handshake) {
            Ok(MaybeHttpsStream::Https { stream, protocol }) => {
                &&& handshake is Established
                &&& stream == handshake->stream
                &&& (protocol matches Some(p) ==> offered.contains(p))
                &&& offered.len() == 0 ==> protocol is None
            },
            Ok(MaybeHttpsStream::Http(_)) => false,
            Err(e) => e is Handshake,
        },
{
}

/// Where encryption is forced, a target that does not ask for it is
/// refused in the first step: there is no state to dial in.
pub proof fn lemma_forced_encryption_refuses_plain_target(target: Target)
    requires
        !target.is_encrypted(),
    ensures
        plan(true, target) is None,
{
}

/// The first step refuses nothing else: a call is refused only where
/// encryption is forced and the target does not ask for it.
pub proof fn lemma_refusal_is_by_policy_alone(force_https: bool, target: Target)
    ensures
        plan(force_https, target) is None <==> force_https && !target.is_encrypted(),
{
}

/// The decision between plain and encrypted rests on the scheme alone: two
/// targets with the same scheme are treated alike, whatever their hosts.
pub proof fn lemma_decision_by_scheme_alone(force_https: bool, a: Target, b: Target)
    requires
        a.scheme == b.scheme,
    ensures
        plan(force_https, a) is None <==> plan(force_https, b) is None,
        plan(force_https, a) == Some(None::<Seq<char>>) <==> plan(force_https, b) == Some(
            None::<Seq<char>>,
        ),
{
}

/// A failed resolution ends the call with the resolver's error, whatever
/// the target was; so does a failed connection, with the dialer's error.
pub proof fn lemma_dial_failure_is_handed_on<T, S, E>(dialing: Dialing, e: E, name_ok: bool)
    ensures
        after_dial::<T, S, E>(dialing, DialOutcome::ResolutionFailed(e), name_ok) == Err::<
            Dialed<T, S>,
            ConnectorError<E>,
        >(ConnectorError::Resolution(e)),
        after_dial::<T, S, E>(dialing, DialOutcome::ConnectionFailed(e), name_ok) == Err::<
            Dialed<T, S>,
            ConnectorError<E>,
        >(ConnectorError::Connection(e)),
{
}

/// A failed handshake ends the call with the error of the TLS library: the
/// call gives no connection, plain or encrypted.
pub proof fn lemma_handshake_failure_is_final<T, S, E>(offered: Seq<Protocol>, e: E)
    ensures
        after_handshake::<T, S, E>(offered, HandshakeOutcome::Failed(e)) == Err::<
            MaybeHttpsStream<T, S>,
            ConnectorError<E>,
        >(ConnectorError::Handshake(HandshakeError::Tls(e))),
{
}

/// A stream that was dialed for an encrypted target and whose server name
/// is not valid is not handed back: the call fails before any handshake.
pub proof fn lemma_invalid_server_name_fails<T, S, E>(dialing: Dialing, stream: T)
    requires
        dialing.server_name is Some,
    ensures
        after_dial::<T, S, E>(dialing, DialOutcome::Connected(stream), false) == Err::<
            Dialed<T, S>,
            ConnectorError<E>,
        >(ConnectorError::Handshake(HandshakeError::InvalidDnsName)),
{
}

} // verus!
