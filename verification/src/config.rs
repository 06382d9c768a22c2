//! Connection settings that are decided locally before the protocol engine is
//! started.

use vstd::prelude::*;
use vstd::string::*;

verus! {

/// Desktop width requested when the caller does not choose one.
pub const DEFAULT_WIDTH: u16 = 1280;

/// Desktop height requested when the caller does not choose one.
pub const DEFAULT_HEIGHT: u16 = 720;

/// Desktop dimensions in pixels.
#[derive(Debug, Clone, Copy, PartialEq, Eq, Structural)]
pub struct DesktopSize {
    pub width: u16,
    pub height: u16,
}

/// How the client authenticates.
#[derive(Debug, PartialEq, Eq)]
pub enum Credentials {
    UsernamePassword { username: String, password: String },
}

/// Keyboard model announced to the server.
#[derive(Debug, Clone, Copy, PartialEq, Eq, Structural)]
pub enum KeyboardType {
    IbmPcXt,
    OlivettiIco,
    IbmPcAt,
    IbmEnhanced,
    Nokia1050,
    Nokia9140,
    Japanese,
}

/// Client platform announced to the server.
#[derive(Debug, Clone, Copy, PartialEq, Eq, Structural)]
pub enum MajorPlatformType {
    Unspecified,
    Windows,
    Os2,
    Macintosh,
    Unix,
    Ios,
    Osx,
    Android,
    ChromeOs,
}

/// Bitmap codec settings.
#[derive(Debug, Clone, Copy, PartialEq, Eq, Structural)]
pub struct BitmapConfig {
    pub color_depth: u32,
    pub lossy_compression: bool,
}

/// Settings handed to the protocol engine's connector. An absent optional value
/// leaves the choice to the engine.
#[derive(Debug, PartialEq, Eq)]
pub struct Config {
    pub credentials: Credentials,
    pub domain: Option<String>,
    pub enable_tls: bool,
    pub enable_credssp: bool,
    pub keyboard_type: KeyboardType,
    pub keyboard_subtype: u32,
    pub keyboard_layout: u32,
    pub keyboard_functional_keys_count: u32,
    pub ime_file_name: String,
    pub dig_product_id: String,
    pub desktop_size: DesktopSize,
    pub bitmap: Option<BitmapConfig>,
    pub client_build: u32,
    pub client_name: String,
    pub client_dir: String,
    pub platform: MajorPlatformType,
    pub no_server_pointer: bool,
    pub autologon: bool,
    pub request_data: Option<Vec<u8>>,
    pub pointer_software_rendering: bool,
    pub performance_flags: Option<u32>,
    pub desktop_scale_factor: u32,
    pub hardware_id: Option<[u32; 4]>,
}

/// The release triple (major, minor, patch) that `semver::Version::parse` reads
/// from a version text, or `None` where it rejects the text.
pub uninterp spec fn semver_release(text: Seq<char>) -> Option<(u64, u64, u64)>;

/// Parses a version text with `semver::Version::parse`.
///
/// Trusted: the result is the triple named by [`semver_release`].
#[verifier::external_body]
fn parse_release(text: &str) -> (release: Option<(u64, u64, u64)>)
    ensures
        release == semver_release(text@),
{
    match semver::Version::parse(text) {
        Ok(version) => Some((version.major, version.minor, version.patch)),
        Err(_) => None,
    }
}

/// Build number of a release: `major * 100 + minor * 10 + patch`, and 0 for a
/// version text that does not parse.
pub open spec fn build_number(release: Option<(u64, u64, u64)>) -> int {
    match release {
        Some((major, minor, patch)) => major * 100 + minor * 10 + patch,
        None => 0,
    }
}

/// The build number as announced to the server, if it fits.
pub open spec fn client_build_spec(release: Option<(u64, u64, u64)>) -> Option<u32> {
    if build_number(release) <= u32::MAX as int {
        Some(build_number(release) as u32)
    } else {
        None
    }
}

/// Computes the build number of a parsed release; `None` when it does not fit in
/// 32 bits.
pub fn client_build_of(release: Option<(u64, u64, u64)>) -> (build: Option<u32>)
    ensures
        build == client_build_spec(release),
{
    match release {
        None => Some(0),
        Some((major, minor, patch)) => {
            let limit: u64 = 0xFFFF_FFFF;
            if major > limit / 100 || minor > limit / 10 || patch > limit {
                return None;
            }
            let total: u64 = major * 100 + minor * 10 + patch;
            if total > limit {
                None
            } else {
                Some(total as u32)
            }
        },
    }
}

/// Computes the client build number from the package version text.
pub fn client_build(package_version: &str) -> (build: Option<u32>)
    ensures
        build == client_build_spec(semver_release(package_version@)),
{
    client_build_of(parse_release(package_version))
}

/// Whether `config` is the configuration built for the given account and desktop.
pub open spec fn is_session_config(
    config: Config,
    username: String,
    password: String,
    domain: Option<String>,
    client_name: String,
    desktop_size: DesktopSize,
    client_build: u32,
) -> bool {
    &&& config.credentials == Credentials::UsernamePassword { username, password }
    &&& config.domain == domain
    &&& config.enable_tls
    &&& config.enable_credssp
    &&& config.keyboard_type == KeyboardType::IbmEnhanced
    &&& config.keyboard_subtype == 0
    &&& config.keyboard_layout == 0
    &&& config.keyboard_functional_keys_count == 12
    &&& config.ime_file_name@ == Seq::<char>::empty()
    &&& config.dig_product_id@ == Seq::<char>::empty()
    &&& config.desktop_size == desktop_size
    &&& config.bitmap == Some(BitmapConfig { color_depth: 16, lossy_compression: true })
    &&& config.client_build == client_build
    &&& config.client_name == client_name
    &&& config.client_dir@ == "C:\\Windows\\System32\\mstscax.dll"@
    &&& config.platform == MajorPlatformType::Unspecified
    &&& !config.no_server_pointer
    &&& !config.autologon
    &&& config.request_data is None
    &&& !config.pointer_software_rendering
    &&& config.performance_flags is None
    &&& config.desktop_scale_factor == 0
    &&& config.hardware_id is None
}

/// Builds the connector configuration: password credentials with TLS and network
/// level authentication enabled, an enhanced keyboard with the server's default
/// layout, 16-bit lossy bitmaps, and everything else left at the engine's choice.
pub fn build_config(
    username: String,
    password: String,
    domain: Option<String>,
    client_name: String,
    desktop_size: DesktopSize,
    client_build: u32,
) -> (config: Config)
    ensures
        is_session_config(
            config,
            username,
            password,
            domain,
            client_name,
            desktop_size,
            client_build,
        ),
{
    Config {
        credentials: Credentials::UsernamePassword { username, password },
        domain,
        enable_tls: true,
        enable_credssp: true,
        keyboard_type: KeyboardType::IbmEnhanced,
        keyboard_subtype: 0,
        keyboard_layout: 0,
        keyboard_functional_keys_count: 12,
        ime_file_name: String::new(),
        dig_product_id: String::new(),
        desktop_size,
        bitmap: Some(BitmapConfig { color_depth: 16, lossy_compression: true }),
        client_build,
        client_name,
        client_dir: String::from_str("C:\\Windows\\System32\\mstscax.dll"),
        platform: MajorPlatformType::Unspecified,
        no_server_pointer: false,
        autologon: false,
        request_data: None,
        pointer_software_rendering: false,
        performance_flags: None,
        desktop_scale_factor: 0,
        hardware_id: None,
    }
}

} // verus!
