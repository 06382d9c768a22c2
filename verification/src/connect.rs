//! What is decided locally when a connection is set up: which static channels
//! the connector gets, how the security handshake is configured, and whether
//! Kerberos goes through a proxy.

#[allow(unused_imports)]
use crate::tls::{tls_settings, CertificateVerification, TlsSettings};
use vstd::prelude::*;

verus! {

/// A static virtual channel attached to the connector.
#[derive(Debug, Clone, Copy, PartialEq, Eq, Structural)]
pub enum StaticChannel {
    /// The clipboard channel, served by the local clipboard backend.
    Clipboard,
    /// The dynamic channel host carrying the display-control channel.
    DisplayControl,
}

/// The channels to attach, in order: the clipboard channel if a backend is
/// there, then display control if it is wanted.
pub open spec fn static_channels_spec(clipboard_backend: bool, use_display_control: bool) -> Seq<
    StaticChannel,
> {
    (if clipboard_backend {
        seq![StaticChannel::Clipboard]
    } else {
        Seq::<StaticChannel>::empty()
    }) + (if use_display_control {
        seq![StaticChannel::DisplayControl]
    } else {
        Seq::<StaticChannel>::empty()
    })
}

/// Chooses the static channels to attach to the connector.
pub fn static_channels(clipboard_backend: bool, use_display_control: bool) -> (channels: Vec<
    StaticChannel,
>)
    ensures
        channels@ == static_channels_spec(clipboard_backend, use_display_control),
{
    let mut channels: Vec<StaticChannel> = Vec::new();
    if clipboard_backend {
        channels.push(StaticChannel::Clipboard);
    }
    if use_display_control {
        channels.push(StaticChannel::DisplayControl);
    }
    channels
}

/// Kerberos settings for the network-level authentication.
#[derive(Debug, PartialEq, Eq)]
pub struct KerberosConfig {
    /// The proxy through which the key distribution center is reached.
    pub kdc_proxy_url: Option<String>,
    /// The host that tickets are asked for.
    pub hostname: Option<String>,
}

/// The normalized text of a URL as `url::Url::parse` reads it, or `None` where
/// it rejects the text.
pub uninterp spec fn url_normalized(text: Seq<char>) -> Option<Seq<char>>;

/// Parses a URL with `url::Url::parse` and hands out its normalized text.
///
/// Trusted: the outcome is the one named by [`url_normalized`].
#[verifier::external_body]
fn parse_url(text: &str) -> (url: Option<String>)
    ensures
        match url_normalized(text@) {
            Some(normalized) => url is Some && url->0@ == normalized,
            None => url is None,
        },
{
    match url::Url::parse(text) {
        Ok(url) => Some(String::from(url.as_str())),
        Err(_) => None,
    }
}

/// The Kerberos settings for a parsed proxy URL: through the proxy, for the
/// destination host; none without a proxy.
pub open spec fn kerberos_for(proxy: Option<String>, destination: String) -> Option<
    KerberosConfig,
> {
    match proxy {
        Some(url) => Some(KerberosConfig { kdc_proxy_url: Some(url), hostname: Some(destination) }),
        None => None,
    }
}

/// Builds the Kerberos settings from an already parsed proxy URL.
pub fn kerberos_config_for(proxy: Option<String>, destination: String) -> (config: Option<
    KerberosConfig,
>)
    ensures
        config == kerberos_for(proxy, destination),
{
    match proxy {
        Some(url) => Some(KerberosConfig { kdc_proxy_url: Some(url), hostname: Some(destination) }),
        None => None,
    }
}

/// Builds the Kerberos settings: present exactly when a proxy URL is configured
/// and parses, and then for the destination host. A missing URL counts as the
/// empty text.
pub fn kerberos_config(kdc_proxy_url: Option<String>, destination: String) -> (config: Option<
    KerberosConfig,
>)
    ensures
        ({
            let text = match kdc_proxy_url {
                Some(url) => url@,
                None => Seq::<char>::empty(),
            };
            match url_normalized(text) {
                Some(normalized) => config is Some && config->0.kdc_proxy_url is Some
                    && config->0.kdc_proxy_url->0@ == normalized && config->0.hostname == Some(
                    destination,
                ),
                None => config is None,
            }
        }),
{
    let text = match kdc_proxy_url {
        Some(url) => url,
        None => String::new(),
    };
    kerberos_config_for(parse_url(text.as_str()), destination)
}

/// Everything that is fixed before the handshake begins.
#[derive(Debug, PartialEq, Eq)]
pub struct ConnectPlan {
    pub static_channels: Vec<StaticChannel>,
    pub tls: TlsSettings,
    pub kerberos: Option<KerberosConfig>,
}

/// Lays out a connection: the channels of [`static_channels`], the handshake
/// settings of [`tls_settings`] and the Kerberos settings of [`kerberos_config`].
pub fn connect_plan(
    destination: String,
    kdc_proxy_url: Option<String>,
    clipboard_backend: bool,
    use_display_control: bool,
) -> (plan: ConnectPlan)
    ensures
        plan.static_channels@ == static_channels_spec(clipboard_backend, use_display_control),
        plan.tls.certificate_verification == CertificateVerification::AcceptAny,
        !plan.tls.session_resumption,
        ({
            let text = match kdc_proxy_url {
                Some(url) => url@,
                None => Seq::<char>::empty(),
            };
            match url_normalized(text) {
                Some(normalized) => plan.kerberos is Some && plan.kerberos->0.kdc_proxy_url is Some
                    && plan.kerberos->0.kdc_proxy_url->0@ == normalized
                    && plan.kerberos->0.hostname == Some(destination),
                None => plan.kerberos is None,
            }
        }),
{
    ConnectPlan {
        static_channels: static_channels(clipboard_backend, use_display_control),
        tls: tls_settings(),
        kerberos: kerberos_config(kdc_proxy_url, destination),
    }
}

} // verus!
