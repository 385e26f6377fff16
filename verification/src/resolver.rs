//! The resolution adapter: a DNS resolver described by its configuration,
//! and the two steps of one lookup.
//!
//! A description names one of the ready-made configurations or carries the
//! caller's own: a configuration of type `C` and options of type `O`, which
//! this library never looks into and hands on as they came.

use vstd::prelude::*;
use crate::addr::{unported_all, IpAddress, SocketAddrs};
use crate::service::{default_features, Features, Readiness};

verus! {

/// The name servers that a resolver asks.
#[derive(Clone, Copy, Debug, PartialEq, Eq)]
pub enum ResolverConfig<C> {
    /// The resolver library's own default servers.
    Default,
    /// Google's public servers.
    Google,
    /// Cloudflare's public servers.
    Cloudflare,
    /// Cloudflare's public servers, asked over HTTPS only.
    CloudflareHttps,
    /// Cloudflare's public servers, asked over TLS only.
    CloudflareTls,
    /// Quad9's public servers.
    Quad9,
    /// Quad9's public servers, asked over HTTPS only.
    Quad9Https,
    /// Quad9's public servers, asked over TLS only.
    Quad9Tls,
    /// The caller's own configuration.
    Custom(C),
}

/// The options of a resolver.
#[derive(Clone, Copy, Debug, PartialEq, Eq)]
pub enum ResolverOpts<O> {
    /// The resolver library's default options, with DNSSEC validation
    /// switched as said.
    Default { validate: bool },
    /// The caller's own options.
    Custom(O),
}

/// Where a resolver has its name servers from.
#[derive(Clone, Copy, Debug, PartialEq, Eq)]
pub enum ResolverSource<C> {
    /// A configuration, named or the caller's own.
    Config(ResolverConfig<C>),
    /// The configuration of the operating system.
    System,
    /// Whatever a resolver that was built elsewhere has.
    Supplied,
}

/// A DNS resolver, as far as this layer decides on it.
#[derive(Clone, Copy, Debug, PartialEq, Eq)]
pub struct Resolver<C, O> {
    pub source: ResolverSource<C>,
    pub options: ResolverOpts<O>,
}

/// A resolver for the HTTP connector, on top of a DNS [`Resolver`].
///
/// The handle is immutable once built; clones share what it describes.
#[derive(Clone, Copy, Debug, PartialEq, Eq)]
pub struct HickoryResolver<C, O> {
    pub resolver: Resolver<C, O>,
}

/// A [`HickoryResolver`] that runs on the Tokio runtime.
pub type TokioHickoryResolver<C, O> = HickoryResolver<C, O>;

/// The request that one call of the resolver issues: look up `name` as it
/// stands.
#[derive(Clone, Debug, PartialEq, Eq)]
pub struct Lookup {
    pub name: String,
}

/// A plain-transport connector parameterized by its resolver.
#[derive(Clone, Copy, Debug, PartialEq, Eq)]
pub struct HttpConnector<R> {
    pub resolver: R,
    /// Whether targets with another scheme than `http` are refused.
    pub enforce_http: bool,
}

/// An [`HttpConnector`] that resolves through a [`HickoryResolver`].
pub type HickoryHttpConnector<C, O> = HttpConnector<HickoryResolver<C, O>>;

/// An [`HttpConnector`] that resolves through a [`TokioHickoryResolver`].
pub type TokioHickoryHttpConnector<C, O> = HttpConnector<HickoryResolver<C, O>>;

impl<R> HttpConnector<R> {
    /// A connector over `resolver`. It starts out refusing every scheme but
    /// `http`.
    pub fn new_with_resolver(resolver: R) -> (connector: Self)
        ensures
            connector.resolver == resolver,
            connector.enforce_http,
    {
        HttpConnector { resolver, enforce_http: true }
    }

    /// Sets whether targets with another scheme than `http` are refused.
    pub fn enforce_http(&mut self, is_enforced: bool)
        ensures
            final(self).enforce_http == is_enforced,
            final(self).resolver == old(self).resolver,
    {
        self.enforce_http = is_enforced;
    }
}

/// The resolver options that go with `features`: DNSSEC validation is on
/// exactly when the feature is.
pub open spec fn default_opts_spec<O>(features: Features) -> ResolverOpts<O> {
    ResolverOpts::Default { validate: features.dnssec }
}

/// The resolver that a named configuration and `features` give.
pub open spec fn preset<C, O>(config: ResolverConfig<C>, features: Features) -> HickoryResolver<
    C,
    O,
> {
    HickoryResolver {
        resolver: Resolver {
            source: ResolverSource::Config(config),
            options: default_opts_spec(features),
        },
    }
}

/// Get the default resolver options as configured per `features`.
pub fn default_opts<O>(features: Features) -> (opts: ResolverOpts<O>)
    ensures
        opts == default_opts_spec::<O>(features),
{
    ResolverOpts::Default { validate: features.dnssec }
}

impl<C, O> Default for HickoryResolver<C, O> {
    /// The resolver with the default configuration and the default
    /// switches.
    fn default() -> (r: Self)
        ensures
            r == preset::<C, O>(ResolverConfig::Default, default_features()),
    {
        Self::new(Features::default())
    }
}

impl<C, O> TokioHickoryResolver<C, O> {
    /// Create a new resolver with the default configuration.
    pub fn new(features: Features) -> (r: Self)
        ensures
            r == preset::<C, O>(ResolverConfig::Default, features),
    {
        Self::with_config_and_options(ResolverConfig::Default, default_opts(features))
    }

    /// Create a new resolver that uses the Google nameservers.
    pub fn google(features: Features) -> (r: Self)
        ensures
            r == preset::<C, O>(ResolverConfig::Google, features),
    {
        Self::with_config_and_options(ResolverConfig::Google, default_opts(features))
    }

    /// Create a new resolver that uses the Cloudflare nameservers.
    pub fn cloudflare(features: Features) -> (r: Self)
        ensures
            r == preset::<C, O>(ResolverConfig::Cloudflare, features),
    {
        Self::with_config_and_options(ResolverConfig::Cloudflare, default_opts(features))
    }

    /// Create a new resolver that uses the Cloudflare nameservers, limited
    /// to lookups over HTTPS.
    pub fn cloudflare_https(features: Features) -> (r: Self)
        ensures
            r == preset::<C, O>(ResolverConfig::CloudflareHttps, features),
    {
        Self::with_config_and_options(ResolverConfig::CloudflareHttps, default_opts(features))
    }

    /// Create a new resolver that uses the Cloudflare nameservers, limited
    /// to lookups over TLS.
    pub fn cloudflare_tls(features: Features) -> (r: Self)
        ensures
            r == preset::<C, O>(ResolverConfig::CloudflareTls, features),
    {
        Self::with_config_and_options(ResolverConfig::CloudflareTls, default_opts(features))
    }

    /// Create a new resolver that uses the Quad9 nameservers.
    pub fn quad9(features: Features) -> (r: Self)
        ensures
            r == preset::<C, O>(ResolverConfig::Quad9, features),
    {
        Self::with_config_and_options(ResolverConfig::Quad9, default_opts(features))
    }

    /// Create a new resolver that uses the Quad9 nameservers, limited to
    /// lookups over HTTPS.
    pub fn quad9_https(features: Features) -> (r: Self)
        ensures
            r == preset::<C, O>(ResolverConfig::Quad9Https, features),
    {
        Self::with_config_and_options(ResolverConfig::Quad9Https, default_opts(features))
    }

    /// Create a new resolver that uses the Quad9 nameservers, limited to
    /// lookups over TLS.
    pub fn quad9_tls(features: Features) -> (r: Self)
        ensures
            r == preset::<C, O>(ResolverConfig::Quad9Tls, features),
    {
        Self::with_config_and_options(ResolverConfig::Quad9Tls, default_opts(features))
    }

    /// Create a new resolver with the configuration and options given.
    /// Both are kept as they came, the caller's own included.
    pub fn with_config_and_options(config: ResolverConfig<C>, options: ResolverOpts<O>) -> (r: Self)
        ensures
            r.resolver.source == ResolverSource::Config(config),
            r.resolver.options == options,
    {
        Self::from_resolver(Resolver { source: ResolverSource::Config(config), options })
    }

    /// Create a new resolver from what loading the system configuration
    /// gave: its options, or the error of the attempt.
    ///
    /// The error is handed on as it came.
    pub fn from_system_conf<E>(loaded: Result<ResolverOpts<O>, E>) -> (r: Result<Self, E>)
        ensures
            match loaded {
                Ok(options) => r == Ok::<Self, E>(
                    HickoryResolver { resolver: Resolver { source: ResolverSource::System, options } },
                ),
                Err(e) => r == Err::<Self, E>(e),
            },
    {
        match loaded {
            Ok(options) => Ok(Self::from_resolver(Resolver { source: ResolverSource::System, options })),
            Err(e) => Err(e),
        }
    }

    /// Create a resolver handle from the given [`Resolver`].
    pub fn from_resolver(resolver: Resolver<C, O>) -> (r: Self)
        ensures
            r.resolver == resolver,
    {
        HickoryResolver { resolver }
    }

    /// Create a new [`HickoryHttpConnector`] with this resolver.
    pub fn into_http_connector(self) -> (connector: HickoryHttpConnector<C, O>)
        ensures
            connector.resolver == self,
            connector.enforce_http,
    {
        HttpConnector::new_with_resolver(self)
    }

    /// The readiness probe: the adapter is always ready, whatever its
    /// resolver is doing.
    pub fn poll_ready<E>(&self) -> (ready: Readiness<E>)
        ensures
            ready == Readiness::<E>::Ready,
    {
        Readiness::Ready
    }

    /// Starts one resolution: the lookup to issue is for the literal name.
    /// The handle is left as it was.
    pub fn call(&self, name: String) -> (lookup: Lookup)
        ensures
            lookup.name == name,
    {
        Lookup { name }
    }

    /// Ends one resolution. The records of a successful lookup become the
    /// address sequence, in the resolver's order and without ports; a failed
    /// lookup gives its error, unchanged, and no address.
    pub fn resolved<E>(&self, outcome: Result<Vec<IpAddress>, E>) -> (r: Result<SocketAddrs, E>)
        ensures
            match outcome {
                Ok(ips) => r.is_ok() && r->Ok_0@ == unported_all(ips@),
                Err(e) => r.is_err() && r->Err_0 == e,
            },
    {
        match outcome {
            Ok(ips) => Ok(SocketAddrs::new(ips)),
            Err(e) => Err(e),
        }
    }
}

/// The plain-transport connector that every encrypting connector of this
/// library wraps: the default resolver, and no scheme refused.
pub open spec fn hickory_http_connector<C, O>(features: Features) -> HickoryHttpConnector<C, O> {
    HttpConnector { resolver: preset::<C, O>(ResolverConfig::Default, features), enforce_http: false }
}

/// Create the plain-transport connector for an encrypting connector: it
/// resolves through the default resolver and lets every scheme pass, since
/// the encrypting connector decides on the scheme itself.
pub fn new_hickory_http_connector<C, O>(features: Features) -> (connector: HickoryHttpConnector<
    C,
    O,
>)
    ensures
        connector == hickory_http_connector::<C, O>(features),
{
    let mut http = TokioHickoryResolver::<C, O>::new(features).into_http_connector();
    http.enforce_http(false);
    http
}

} // verus!
