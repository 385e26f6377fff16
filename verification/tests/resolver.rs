use hyper_hickory::addr::{IpAddress, SocketAddress, SocketAddrs};
use hyper_hickory::native_tls::new_native_tls_https_connector;
use hyper_hickory::resolver::{
    default_opts, new_hickory_http_connector, HickoryResolver, HttpConnector, Resolver,
    ResolverConfig, ResolverOpts, ResolverSource, TokioHickoryResolver,
};
use hyper_hickory::rustls::{
    new_rustls_native_https_connector, new_rustls_webpki_https_connector, ConfigurationError,
    RootSource,
};
use hyper_hickory::service::{Features, Readiness};

fn features(dnssec: bool) -> Features {
    Features { dnssec, http1: true, http2: true, https_only: false }
}

/// A caller's own name servers, as far as these tests go.
#[derive(Clone, Debug, PartialEq, Eq)]
struct OwnServers(Vec<&'static str>);

/// A caller's own options.
#[derive(Clone, Debug, PartialEq, Eq)]
struct OwnOptions {
    attempts: u8,
}

type Described = HickoryResolver<OwnServers, OwnOptions>;

fn described(config: ResolverConfig<OwnServers>, validate: bool) -> Described {
    HickoryResolver {
        resolver: Resolver {
            source: ResolverSource::Config(config),
            options: ResolverOpts::Default { validate },
        },
    }
}

#[test]
fn default_options_follow_dnssec_switch() {
    assert_eq!(default_opts::<OwnOptions>(features(false)), ResolverOpts::Default { validate: false });
    assert_eq!(default_opts::<OwnOptions>(features(true)), ResolverOpts::Default { validate: true });
}

#[test]
fn presets_differ_in_configuration_only() {
    for dnssec in [false, true] {
        let f = features(dnssec);
        assert_eq!(Described::new(f), described(ResolverConfig::Default, dnssec));
        assert_eq!(Described::google(f), described(ResolverConfig::Google, dnssec));
        assert_eq!(Described::cloudflare(f), described(ResolverConfig::Cloudflare, dnssec));
        assert_eq!(
            Described::cloudflare_https(f),
            described(ResolverConfig::CloudflareHttps, dnssec)
        );
        assert_eq!(
            Described::cloudflare_tls(f),
            described(ResolverConfig::CloudflareTls, dnssec)
        );
        assert_eq!(Described::quad9(f), described(ResolverConfig::Quad9, dnssec));
        assert_eq!(Described::quad9_https(f), described(ResolverConfig::Quad9Https, dnssec));
        assert_eq!(Described::quad9_tls(f), described(ResolverConfig::Quad9Tls, dnssec));
    }
}

#[test]
fn custom_configuration_and_options_are_kept() {
    let r = Described::with_config_and_options(
        ResolverConfig::Cloudflare,
        ResolverOpts::Default { validate: true },
    );
    assert_eq!(r, described(ResolverConfig::Cloudflare, true));
    let given = Resolver {
        source: ResolverSource::Supplied,
        options: ResolverOpts::Custom(OwnOptions { attempts: 4 }),
    };
    assert_eq!(Described::from_resolver(given.clone()).resolver, given);
}

#[test]
fn system_configuration_or_its_error() {
    let loaded: Result<ResolverOpts<OwnOptions>, &str> =
        Ok(ResolverOpts::Custom(OwnOptions { attempts: 2 }));
    assert_eq!(
        Described::from_system_conf(loaded),
        Ok(HickoryResolver {
            resolver: Resolver {
                source: ResolverSource::System,
                options: ResolverOpts::Custom(OwnOptions { attempts: 2 })
            }
        })
    );
    let failed: Result<ResolverOpts<OwnOptions>, &str> = Err("no resolv.conf");
    assert_eq!(Described::from_system_conf(failed), Err("no resolv.conf"));
}

#[test]
fn http_connector_starts_out_enforcing_http() {
    let resolver = Described::google(features(false));
    let mut connector = resolver.clone().into_http_connector();
    assert_eq!(connector, HttpConnector { resolver: resolver.clone(), enforce_http: true });
    connector.enforce_http(false);
    assert_eq!(connector, HttpConnector { resolver, enforce_http: false });
    connector.enforce_http(true);
    assert!(connector.enforce_http);
    assert_eq!(HttpConnector::new_with_resolver(7u8), HttpConnector { resolver: 7u8, enforce_http: true });
}

#[test]
fn connector_under_tls_lets_every_scheme_pass() {
    let connector = new_hickory_http_connector::<OwnServers, OwnOptions>(features(true));
    assert_eq!(
        connector,
        HttpConnector { resolver: described(ResolverConfig::Default, true), enforce_http: false }
    );
}

#[test]
fn resolver_is_always_ready() {
    let resolver = Described::new(features(false));
    assert_eq!(resolver.poll_ready::<&str>(), Readiness::Ready);
    assert_eq!(resolver.poll_ready::<&str>(), Readiness::Ready);
}

#[test]
fn lookup_is_for_the_literal_name() {
    let resolver = Described::new(features(false));
    assert_eq!(resolver.call("Example.TEST.".to_string()).name, "Example.TEST.");
    assert_eq!(resolver.call(String::new()).name, "");
    assert_eq!(resolver, Described::new(features(false)));
}

#[test]
fn resolved_addresses_keep_order_and_have_port_zero() {
    let resolver = Described::new(features(false));
    let v6: u128 = 0x2001_0db8_0000_0000_0000_0000_0000_0001;
    let ips = vec![IpAddress::V4(0xC000_0201), IpAddress::V6(v6), IpAddress::V4(0x0A00_0001)];
    let found: Result<Vec<IpAddress>, &str> = Ok(ips.clone());
    let mut addrs = resolver.resolved(found).unwrap();
    assert_eq!(addrs.remaining(), 3);
    for (i, ip) in ips.iter().enumerate() {
        assert_eq!(addrs.next(), Some(SocketAddress { ip: *ip, port: 0 }));
        assert_eq!(addrs.remaining(), 2 - i);
    }
    assert_eq!(addrs.next(), None);
    assert_eq!(addrs.next(), None);
    assert_eq!(addrs.remaining(), 0);
}

#[test]
fn resolution_error_comes_back_unchanged() {
    let resolver = Described::new(features(false));
    let failed: Result<Vec<IpAddress>, (u8, &str)> = Err((3, "NXDOMAIN"));
    match resolver.resolved(failed) {
        Err(e) => assert_eq!(e, (3, "NXDOMAIN")),
        Ok(_) => panic!("a failed lookup gave addresses"),
    }
}

#[test]
fn empty_lookup_gives_empty_sequence() {
    let mut addrs = SocketAddrs::new(Vec::new());
    assert_eq!(addrs.remaining(), 0);
    assert_eq!(addrs.next(), None);
}

#[test]
fn address_sequence_is_single_use() {
    let mut addrs = SocketAddrs::new(vec![IpAddress::V4(1), IpAddress::V4(1), IpAddress::V4(2)]);
    let mut seen = Vec::new();
    while let Some(a) = addrs.next() {
        seen.push(a);
    }
    assert_eq!(
        seen,
        vec![
            SocketAddress { ip: IpAddress::V4(1), port: 0 },
            SocketAddress { ip: IpAddress::V4(1), port: 0 },
            SocketAddress { ip: IpAddress::V4(2), port: 0 },
        ]
    );
    assert_eq!(addrs.next(), None);
}

#[test]
fn native_tls_settings_follow_the_switches() {
    for https_only in [false, true] {
        let f = Features { dnssec: false, http1: true, http2: false, https_only };
        let c = new_native_tls_https_connector::<OwnServers, OwnOptions>(f);
        assert_eq!(c.https_only, https_only);
        assert_eq!(c.http, new_hickory_http_connector(f));
        assert!(!c.http.enforce_http);
    }
}

#[test]
fn rustls_settings_follow_the_switches() {
    let f = Features { dnssec: true, http1: true, http2: false, https_only: true };
    let native = new_rustls_native_https_connector::<OwnServers, OwnOptions>(f).unwrap();
    assert_eq!(native.roots, RootSource::Native);
    assert!(native.https_only);
    assert!(native.http1);
    assert!(!native.http2);
    assert_eq!(native.http, new_hickory_http_connector(f));

    let g = Features { dnssec: false, http1: false, http2: true, https_only: false };
    let webpki = new_rustls_webpki_https_connector::<OwnServers, OwnOptions>(g).unwrap();
    assert_eq!(webpki.roots, RootSource::Webpki);
    assert!(!webpki.https_only);
    assert!(!webpki.http1);
    assert!(webpki.http2);
    assert!(!webpki.http.enforce_http);
}

#[test]
fn rustls_settings_need_a_protocol() {
    let none = Features { dnssec: false, http1: false, http2: false, https_only: false };
    assert_eq!(
        new_rustls_native_https_connector::<OwnServers, OwnOptions>(none),
        Err(ConfigurationError::NoProtocol)
    );
    assert_eq!(
        new_rustls_webpki_https_connector::<OwnServers, OwnOptions>(none),
        Err(ConfigurationError::NoProtocol)
    );
}

#[test]
fn own_configuration_and_options_are_handed_on_unchanged() {
    let servers = OwnServers(vec!["192.0.2.53:53", "[2001:db8::53]:853"]);
    let options = OwnOptions { attempts: 9 };
    let r = Described::with_config_and_options(
        ResolverConfig::Custom(servers.clone()),
        ResolverOpts::Custom(options.clone()),
    );
    assert_eq!(r.resolver.source, ResolverSource::Config(ResolverConfig::Custom(servers.clone())));
    assert_eq!(r.resolver.options, ResolverOpts::Custom(options.clone()));

    let connector = r.into_http_connector();
    assert_eq!(
        connector.resolver.resolver.source,
        ResolverSource::Config(ResolverConfig::Custom(servers))
    );
    assert_eq!(connector.resolver.resolver.options, ResolverOpts::Custom(options));

    let mixed = Described::with_config_and_options(
        ResolverConfig::Quad9Tls,
        ResolverOpts::Custom(OwnOptions { attempts: 1 }),
    );
    assert_eq!(mixed.resolver.source, ResolverSource::Config(ResolverConfig::Quad9Tls));
    assert_eq!(mixed.resolver.options, ResolverOpts::Custom(OwnOptions { attempts: 1 }));
}

#[test]
fn default_resolver_has_default_configuration_and_switches() {
    let f = Features::default();
    assert_eq!(f, Features { dnssec: false, http1: true, http2: true, https_only: false });
    assert_eq!(Described::default(), described(ResolverConfig::Default, false));
    assert_eq!(Described::default(), Described::new(f));
}
