//! What the application reads in the core's configuration.

use vstd::prelude::*;
use vstd::string::*;

use crate::text::{is_trimmed, law_trimmed, starts_with, trim, trimmed};

verus! {

/// A configuration.
#[derive(Debug, PartialEq, Eq)]
pub struct ConfigDocument<R> {
    pub typed: MihomoConfigDocument<R>,
}

/// The sections of a configuration. Those that nothing here reads are carried along in `rest`.
#[derive(Debug, PartialEq, Eq)]
pub struct MihomoConfigDocument<R> {
    pub global: GlobalConfig,
    pub tun: Option<TunConfig>,
    pub dns: Option<DnsConfig>,
    pub rest: R,
}

/// The settings at the top.
#[derive(Debug, PartialEq, Eq)]
pub struct GlobalConfig {
    pub mode: Option<String>,
    pub mixed_port: Option<u32>,
    pub external_controller: Option<String>,
    pub secret: Option<String>,
}

/// The virtual network device.
#[derive(Clone, Copy, Debug, PartialEq, Eq)]
pub struct TunConfig {
    pub enable: Option<bool>,
}

/// The name servers.
#[derive(Debug, PartialEq, Eq)]
pub struct DnsConfig {
    pub default_nameserver: Vec<String>,
    pub nameserver: Vec<String>,
}

/// What a configuration holds.
pub struct ConfigView<R> {
    pub global: GlobalConfigView,
    pub tun: Option<TunConfig>,
    pub dns: Option<DnsConfigView>,
    pub rest: R,
}

/// What a `GlobalConfig` holds.
pub struct GlobalConfigView {
    pub mode: Option<Seq<char>>,
    pub mixed_port: Option<u32>,
    pub external_controller: Option<Seq<char>>,
    pub secret: Option<Seq<char>>,
}

/// What a `DnsConfig` holds.
pub struct DnsConfigView {
    pub default_nameserver: Seq<Seq<char>>,
    pub nameserver: Seq<Seq<char>>,
}

impl<R> View for ConfigDocument<R> {
    type V = ConfigView<R>;

    open spec fn view(&self) -> ConfigView<R> {
        self.typed@
    }
}

impl<R> View for MihomoConfigDocument<R> {
    type V = ConfigView<R>;

    open spec fn view(&self) -> ConfigView<R> {
        ConfigView {
            global: self.global@,
            tun: self.tun,
            dns: self.dns.deep_view(),
            rest: self.rest,
        }
    }
}

impl View for GlobalConfig {
    type V = GlobalConfigView;

    open spec fn view(&self) -> GlobalConfigView {
        GlobalConfigView {
            mode: self.mode.deep_view(),
            mixed_port: self.mixed_port,
            external_controller: self.external_controller.deep_view(),
            secret: self.secret.deep_view(),
        }
    }
}

impl View for DnsConfig {
    type V = DnsConfigView;

    open spec fn view(&self) -> DnsConfigView {
        DnsConfigView {
            default_nameserver: self.default_nameserver.deep_view(),
            nameserver: self.nameserver.deep_view(),
        }
    }
}

impl DeepView for DnsConfig {
    type V = DnsConfigView;

    open spec fn deep_view(&self) -> DnsConfigView {
        self@
    }
}

/// What a reading of a configuration gave.
pub open spec fn loaded_view<R, E>(loaded: Result<ConfigDocument<R>, E>) -> Result<
    ConfigView<R>,
    E,
> {
    match loaded {
        Ok(document) => Ok(document@),
        Err(e) => Err(e),
    }
}

/// What an optional configuration holds.
pub open spec fn document_view<R>(document: Option<&ConfigDocument<R>>) -> Option<ConfigView<R>> {
    match document {
        Some(document) => Some(document@),
        None => None,
    }
}

/// The configuration turns the virtual network device on.
pub open spec fn enables_tun<R>(config: ConfigView<R>) -> bool {
    config.tun matches Some(tun) && tun.enable == Some(true)
}

/// Whether the configuration turns the virtual network device on, for which the core needs
/// privileges.
pub fn document_enables_tun<R>(document: &ConfigDocument<R>) -> (r: bool)
    ensures
        r == enables_tun(document@),
{
    match &document.typed.tun {
        Some(tun) => match tun.enable {
            Some(enable) => enable,
            None => false,
        },
        None => false,
    }
}

/// Of a configuration only the switch of its device counts: it turns the device on where the switch
/// is on, and neither where the switch is off or left out nor where there is no device.
pub proof fn law_enables_tun<R>(config: ConfigView<R>)
    ensures
        enables_tun((ConfigView { tun: Some(TunConfig { enable: Some(true) }), ..config })),
        !enables_tun((ConfigView { tun: Some(TunConfig { enable: Some(false) }), ..config })),
        !enables_tun((ConfigView { tun: Some(TunConfig { enable: None }), ..config })),
        !enables_tun((ConfigView { tun: None, ..config })),
{
}

/// The name servers with one in every list that was empty.
pub open spec fn with_dns_defaults(dns: DnsConfigView) -> DnsConfigView {
    DnsConfigView {
        default_nameserver: if dns.default_nameserver.len() == 0 {
            seq!["223.5.5.5"@]
        } else {
            dns.default_nameserver
        },
        nameserver: if dns.nameserver.len() == 0 {
            seq!["https://dns.alidns.com/dns-query"@]
        } else {
            dns.nameserver
        },
    }
}

/// The configuration with a name server in every empty list of its DNS section.
pub open spec fn with_runtime_dns<R>(config: ConfigView<R>) -> ConfigView<R> {
    ConfigView {
        dns: match config.dns {
            Some(dns) => Some(with_dns_defaults(dns)),
            None => None,
        },
        ..config
    }
}

/// Puts a name server into every empty list of the DNS section. The core rejects empty lists even
/// while the section is switched off.
pub fn ensure_runtime_dns_defaults<R>(document: &mut ConfigDocument<R>)
    ensures
        final(document)@ == with_runtime_dns(old(document)@),
{
    match &mut document.typed.dns {
        Some(dns) => {
            let ghost before = dns@;
            if dns.default_nameserver.len() == 0 {
                dns.default_nameserver.push("223.5.5.5".to_owned());
                assert(dns.default_nameserver.deep_view() == seq!["223.5.5.5"@]);
            }
            if dns.nameserver.len() == 0 {
                dns.nameserver.push("https://dns.alidns.com/dns-query".to_owned());
                assert(dns.nameserver.deep_view() == seq!["https://dns.alidns.com/dns-query"@]);
            }
            assert(dns@ == with_dns_defaults(before));
        },
        None => {},
    }
}

/// Filling the lists leaves none of them empty, changes nothing else, and changes nothing at all
/// where it was done before.
pub proof fn law_runtime_dns<R>(config: ConfigView<R>)
    ensures
        ({
            let filled = with_runtime_dns(config);
            &&& filled.dns matches Some(dns) ==> dns.default_nameserver.len() > 0
                && dns.nameserver.len() > 0
            &&& filled.dns is Some <==> config.dns is Some
            &&& filled.global == config.global && filled.tun == config.tun && filled.rest
                == config.rest
            &&& with_runtime_dns(filled) == filled
        }),
{
}

/// Filling leaves every list that has an entry as it is, whatever the other list is. A list that
/// has none gets one fixed server, and a configuration without a DNS section stays without one.
pub proof fn law_runtime_dns_keeps_entries<R>(config: ConfigView<R>)
    ensures
        config.dns is None ==> with_runtime_dns(config).dns is None,
        config.dns matches Some(before) ==> {
            &&& with_runtime_dns(config).dns matches Some(after)
            &&& before.default_nameserver.len() > 0 ==> after.default_nameserver
                == before.default_nameserver
            &&& before.nameserver.len() > 0 ==> after.nameserver == before.nameserver
            &&& before.default_nameserver.len() == 0 ==> after.default_nameserver.len() == 1
                && after.default_nameserver[0] == "223.5.5.5"@
            &&& before.nameserver.len() == 0 ==> after.nameserver.len() == 1
                && after.nameserver[0] == "https://dns.alidns.com/dns-query"@
        },
{
}

/// Where the core's controller is reached, and with which secret.
#[derive(Debug, PartialEq, Eq)]
pub struct MihomoEndpoint {
    pub base_url: String,
    pub secret: Option<String>,
}

/// The address of the controller as a URL: without white space around it, and with a scheme.
pub open spec fn controller_url(value: Seq<char>) -> Seq<char> {
    let address = trimmed(value);
    if "http://"@.is_prefix_of(address) || "https://"@.is_prefix_of(address) {
        address
    } else {
        "http://"@ + address
    }
}

/// The address of the controller as a URL.
pub fn normalize_controller_url(value: &str) -> (r: String)
    ensures
        r@ == controller_url(value@),
{
    let address = trim(value);
    if starts_with(address, "http://") || starts_with(address, "https://") {
        address.to_owned()
    } else {
        let mut url = "http://".to_owned();
        url.append(address);
        url
    }
}

/// A URL of the controller has a scheme and no white space around it, and is not changed by being
/// made a URL again.
pub proof fn law_controller_url(value: Seq<char>)
    ensures
        is_trimmed(controller_url(value)),
        "http://"@.is_prefix_of(controller_url(value)) || "https://"@.is_prefix_of(
            controller_url(value),
        ),
        controller_url(controller_url(value)) == controller_url(value),
{
    let address = trimmed(value);
    let url = controller_url(value);
    law_trimmed(value);
    reveal_strlit("http://");
    if !("http://"@.is_prefix_of(address) || "https://"@.is_prefix_of(address)) {
        assert(url[0] == 'h');
        assert(url.last() == if address.len() > 0 {
            address.last()
        } else {
            '/'
        });
        assert(url.take("http://"@.len() as int) == "http://"@);
    }
    law_trimmed(url);
}

/// An address that has a scheme is its own URL. One that has none is what follows the scheme in
/// its URL. White space around an address makes no difference.
pub proof fn law_controller_url_keeps_address(value: Seq<char>)
    ensures
        ({
            let address = trimmed(value);
            let url = controller_url(value);
            let secure = address.len() >= 8 && address.take(8) == "https://"@;
            let plain = address.len() >= 7 && address.take(7) == "http://"@;
            &&& secure || plain ==> url == address
            &&& !secure && !plain ==> url.len() == address.len() + 7 && url.take(7) == "http://"@
                && url.skip(7) == address
            &&& url == controller_url(address)
        }),
{
    reveal_strlit("http://");
    reveal_strlit("https://");
    let address = trimmed(value);
    let url = controller_url(value);
    law_trimmed(value);
    assert(address.subrange(0, 7) == address.take(7));
    assert(address.subrange(0, 8) == address.take(8));
    if url != address {
        assert(url.take(7) == "http://"@);
        assert(url.skip(7) == address);
    }
}

/// Makes the clients of the core's controller.
#[derive(Debug, PartialEq, Eq)]
pub struct MihomoClientFactory {}

/// The controller's address in a configuration.
pub open spec fn controller_of<R>(config: Option<ConfigView<R>>) -> Seq<char> {
    match config {
        Some(config) => match config.global.external_controller {
            Some(address) => address,
            None => "127.0.0.1:19090"@,
        },
        None => "127.0.0.1:19090"@,
    }
}

/// The controller's secret in a configuration.
pub open spec fn secret_of<R>(config: Option<ConfigView<R>>) -> Option<Seq<char>> {
    match config {
        Some(config) => config.global.secret,
        None => None,
    }
}

impl MihomoClientFactory {
    /// Where a configuration puts the controller. Where it names no address, a fixed local one
    /// is taken; where it names no secret, there is none.
    pub fn endpoint_from_document<R>(document: Option<&ConfigDocument<R>>) -> (r: MihomoEndpoint)
        ensures
            r.base_url@ == controller_url(controller_of(document_view(document))),
            r.secret.deep_view() == secret_of(document_view(document)),
    {
        match document {
            Some(document) => {
                let controller: &str = match &document.typed.global.external_controller {
                    Some(address) => address.as_str(),
                    None => "127.0.0.1:19090",
                };
                let secret: Option<String> = match &document.typed.global.secret {
                    Some(secret) => Some(secret.clone()),
                    None => None,
                };
                MihomoEndpoint { base_url: normalize_controller_url(controller), secret }
            },
            None => MihomoEndpoint {
                base_url: normalize_controller_url("127.0.0.1:19090"),
                secret: None,
            },
        }
    }
}

/// A configuration that names the controller's address or its secret has them from there, whatever
/// else it holds. Without an address, or without a configuration, the controller is the fixed local
/// one; without a secret there is none.
pub proof fn law_endpoint<R>(config: ConfigView<R>, address: Seq<char>, secret: Option<Seq<char>>)
    ensures
        controller_of(
            Some(
                ConfigView {
                    global: GlobalConfigView {
                        external_controller: Some(address),
                        ..config.global
                    },
                    ..config
                },
            ),
        ) == address,
        config.global.external_controller is None ==> controller_of(Some(config))
            == "127.0.0.1:19090"@,
        controller_of(None::<ConfigView<R>>) == "127.0.0.1:19090"@,
        secret_of(
            Some(ConfigView { global: GlobalConfigView { secret, ..config.global }, ..config }),
        ) == secret,
        secret_of(None::<ConfigView<R>>) is None,
{
}

/// The configuration in another mode.
pub open spec fn with_mode<R>(config: ConfigView<R>, mode: Seq<char>) -> ConfigView<R> {
    ConfigView { global: GlobalConfigView { mode: Some(mode), ..config.global }, ..config }
}

/// Sets the mode that the core runs in, and nothing else.
pub fn set_runtime_mode<R>(document: &mut ConfigDocument<R>, mode: &str)
    ensures
        final(document)@ == with_mode(old(document)@, mode@),
{
    document.typed.global.mode = Some(mode.to_owned());
}

/// Setting the mode leaves every other part of a configuration as it was. Of two modes that are set
/// in turn the later counts, and setting back the mode that was there restores the configuration.
pub proof fn law_mode_alone_is_set<R>(config: ConfigView<R>, mode: Seq<char>, later: Seq<char>)
    ensures
        with_mode(config, mode).global.mode == Some(mode),
        with_mode(config, mode).global.mixed_port == config.global.mixed_port,
        with_mode(config, mode).global.external_controller == config.global.external_controller,
        with_mode(config, mode).global.secret == config.global.secret,
        with_mode(config, mode).tun == config.tun,
        with_mode(config, mode).dns == config.dns,
        with_mode(config, mode).rest == config.rest,
        with_mode(with_mode(config, mode), later) == with_mode(config, later),
        config.global.mode matches Some(before) ==> with_mode(with_mode(config, mode), before)
            == config,
{
}

/// The controller is reached where the configuration puts it, with its secret. Without an address
/// that is the fixed local one, and without a secret there is none.
pub proof fn law_endpoint_of_document<R>(
    document: Option<&ConfigDocument<R>>,
    endpoint: MihomoEndpoint,
)
    requires
        call_ensures(MihomoClientFactory::endpoint_from_document::<R>, (document,), endpoint),
    ensures
        document is None ==> endpoint.base_url@ == controller_url("127.0.0.1:19090"@)
            && endpoint.secret is None,
        document matches Some(config) ==> {
            &&& endpoint.base_url@ == controller_url(
                match config.typed.global.external_controller {
                    Some(address) => address@,
                    None => "127.0.0.1:19090"@,
                },
            )
            &&& endpoint.secret.deep_view() == config.typed.global.secret.deep_view()
        },
{
}

/// Of a configuration each part is seen as it is.
pub proof fn law_config_view<R>(document: ConfigDocument<R>)
    ensures
        document@.rest == document.typed.rest,
        document@.tun == document.typed.tun,
        document@.global.mixed_port == document.typed.global.mixed_port,
        document@.global.mode.is_some() == document.typed.global.mode.is_some(),
        document.typed.global.mode matches Some(mode) ==> document@.global.mode == Some(mode@),
        document.typed.global.external_controller matches Some(address)
            ==> document@.global.external_controller == Some(address@),
        document.typed.global.secret matches Some(secret) ==> document@.global.secret == Some(
            secret@,
        ),
        document.typed.dns is Some <==> document@.dns is Some,
        document.typed.dns matches Some(dns) ==> document@.dns == Some(
            DnsConfigView {
                default_nameserver: dns.default_nameserver.deep_view(),
                nameserver: dns.nameserver.deep_view(),
            },
        ),
{
}

} // verus!
