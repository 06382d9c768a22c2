use rdp_session::builder::{Extension, RequiredField, SessionBuilder};
use rdp_session::config::{
    build_config, client_build, client_build_of, BitmapConfig, Credentials, DesktopSize,
    KeyboardType, MajorPlatformType, DEFAULT_HEIGHT, DEFAULT_WIDTH,
};
use rdp_session::connect::{
    connect_plan, kerberos_config, kerberos_config_for, static_channels, KerberosConfig,
    StaticChannel,
};
use rdp_session::tls::{
    extract_tls_server_public_key, public_key_from, server_public_key, tls_settings,
    CertificateVerification, NoCertificateVerification, PublicKeyError, SignatureScheme,
    TlsSettings,
};
use wasm_bindgen::{JsCast, JsValue};
use web_sys::{HtmlCanvasElement, RtcDataChannel};

const CERTIFICATE: [u8; 389] = [
    0x30, 0x82, 0x01, 0x81, 0x30, 0x82, 0x01, 0x27, 0xa0, 0x03, 0x02, 0x01, 0x02, 0x02, 0x14, 0x13,
    0x6d, 0x5d, 0xe5, 0xbf, 0x20, 0xe9, 0xab, 0xc6, 0xb9, 0x5c, 0xaf, 0x87, 0x47, 0x60, 0x19, 0x3f,
    0x19, 0x49, 0xb6, 0x30, 0x0a, 0x06, 0x08, 0x2a, 0x86, 0x48, 0xce, 0x3d, 0x04, 0x03, 0x02, 0x30,
    0x16, 0x31, 0x14, 0x30, 0x12, 0x06, 0x03, 0x55, 0x04, 0x03, 0x0c, 0x0b, 0x72, 0x64, 0x70, 0x2e,
    0x65, 0x78, 0x61, 0x6d, 0x70, 0x6c, 0x65, 0x30, 0x1e, 0x17, 0x0d, 0x32, 0x36, 0x31, 0x30, 0x32,
    0x38, 0x30, 0x32, 0x30, 0x36, 0x34, 0x34, 0x5a, 0x17, 0x0d, 0x33, 0x36, 0x31, 0x30, 0x32, 0x35,
    0x30, 0x32, 0x30, 0x36, 0x34, 0x34, 0x5a, 0x30, 0x16, 0x31, 0x14, 0x30, 0x12, 0x06, 0x03, 0x55,
    0x04, 0x03, 0x0c, 0x0b, 0x72, 0x64, 0x70, 0x2e, 0x65, 0x78, 0x61, 0x6d, 0x70, 0x6c, 0x65, 0x30,
    0x59, 0x30, 0x13, 0x06, 0x07, 0x2a, 0x86, 0x48, 0xce, 0x3d, 0x02, 0x01, 0x06, 0x08, 0x2a, 0x86,
    0x48, 0xce, 0x3d, 0x03, 0x01, 0x07, 0x03, 0x42, 0x00, 0x04, 0xc1, 0x4e, 0x0c, 0x5b, 0x1c, 0xd8,
    0x65, 0x5e, 0xbd, 0x84, 0xdc, 0xf3, 0xa3, 0xee, 0x3d, 0x67, 0x33, 0xac, 0xd0, 0x0f, 0xbc, 0x43,
    0x9c, 0x76, 0x63, 0xc7, 0x96, 0x5f, 0x8b, 0x97, 0x42, 0xaa, 0x2c, 0xb0, 0x09, 0xe2, 0xd1, 0x98,
    0x56, 0xbf, 0x85, 0x28, 0x44, 0x19, 0xbf, 0xb0, 0x3d, 0x58, 0x87, 0xc5, 0x45, 0x72, 0x5d, 0xc8,
    0xd1, 0x1c, 0x28, 0x1c, 0x35, 0xf9, 0xa0, 0xd4, 0xfd, 0x42, 0xa3, 0x53, 0x30, 0x51, 0x30, 0x1d,
    0x06, 0x03, 0x55, 0x1d, 0x0e, 0x04, 0x16, 0x04, 0x14, 0x81, 0xcb, 0xfc, 0xc2, 0x8f, 0xb9, 0xab,
    0xf0, 0xdb, 0x08, 0x27, 0x89, 0xda, 0x49, 0x2d, 0x95, 0xc9, 0xd1, 0xcf, 0xd1, 0x30, 0x1f, 0x06,
    0x03, 0x55, 0x1d, 0x23, 0x04, 0x18, 0x30, 0x16, 0x80, 0x14, 0x81, 0xcb, 0xfc, 0xc2, 0x8f, 0xb9,
    0xab, 0xf0, 0xdb, 0x08, 0x27, 0x89, 0xda, 0x49, 0x2d, 0x95, 0xc9, 0xd1, 0xcf, 0xd1, 0x30, 0x0f,
    0x06, 0x03, 0x55, 0x1d, 0x13, 0x01, 0x01, 0xff, 0x04, 0x05, 0x30, 0x03, 0x01, 0x01, 0xff, 0x30,
    0x0a, 0x06, 0x08, 0x2a, 0x86, 0x48, 0xce, 0x3d, 0x04, 0x03, 0x02, 0x03, 0x48, 0x00, 0x30, 0x45,
    0x02, 0x20, 0x01, 0x78, 0x25, 0x22, 0x2b, 0xd5, 0xc0, 0x95, 0xeb, 0x12, 0x55, 0x80, 0xf6, 0x3c,
    0xc1, 0x7f, 0xfd, 0x2e, 0x1e, 0xae, 0xd3, 0x32, 0x5e, 0xeb, 0x12, 0x3e, 0x26, 0x22, 0x62, 0xd0,
    0xd4, 0x9d, 0x02, 0x21, 0x00, 0x96, 0xb7, 0xc7, 0xee, 0x42, 0x5c, 0xc4, 0xbd, 0xc6, 0x96, 0x5e,
    0xa4, 0x9e, 0x67, 0x7c, 0xfc, 0xdb, 0x06, 0x34, 0x26, 0xa7, 0x72, 0xb8, 0x9c, 0xd4, 0x48, 0x46,
    0x1d, 0xa1, 0x23, 0xd5, 0xb9,
];

const PUBLIC_KEY: [u8; 65] = [
    0x04, 0xc1, 0x4e, 0x0c, 0x5b, 0x1c, 0xd8, 0x65, 0x5e, 0xbd, 0x84, 0xdc, 0xf3, 0xa3, 0xee, 0x3d,
    0x67, 0x33, 0xac, 0xd0, 0x0f, 0xbc, 0x43, 0x9c, 0x76, 0x63, 0xc7, 0x96, 0x5f, 0x8b, 0x97, 0x42,
    0xaa, 0x2c, 0xb0, 0x09, 0xe2, 0xd1, 0x98, 0x56, 0xbf, 0x85, 0x28, 0x44, 0x19, 0xbf, 0xb0, 0x3d,
    0x58, 0x87, 0xc5, 0x45, 0x72, 0x5d, 0xc8, 0xd1, 0x1c, 0x28, 0x1c, 0x35, 0xf9, 0xa0, 0xd4, 0xfd,
    0x42,
];

#[test]
fn client_build_is_computed_from_the_release() {
    assert_eq!(client_build("1.2.3"), Some(123));
    assert_eq!(client_build("0.1.0"), Some(10));
    assert_eq!(client_build("12.34.56-rc.1+build.5"), Some(1596));
    assert_eq!(client_build("0.0.0"), Some(0));
}

#[test]
fn unparsable_version_gives_build_zero() {
    assert_eq!(client_build(""), Some(0));
    assert_eq!(client_build("1.2"), Some(0));
    assert_eq!(client_build("one.two.three"), Some(0));
    assert_eq!(client_build("01.2.3"), Some(0));
}

#[test]
fn client_build_that_does_not_fit_is_none() {
    assert_eq!(client_build("42949672.9.5"), Some(4294967295));
    assert_eq!(client_build("42949672.9.6"), None);
    assert_eq!(client_build("99999999999.0.0"), None);
    assert_eq!(client_build_of(Some((u64::MAX, u64::MAX, u64::MAX))), None);
    assert_eq!(client_build_of(Some((0, 0, 4294967296))), None);
    assert_eq!(client_build_of(Some((0, 429496729, 5))), Some(4294967295));
    assert_eq!(client_build_of(Some((0, 429496729, 6))), None);
    assert_eq!(client_build_of(None), Some(0));
}

#[test]
fn config_is_built_with_fixed_choices() {
    let config = build_config(
        "alice".to_owned(),
        "secret".to_owned(),
        Some("corp".to_owned()),
        "client".to_owned(),
        DesktopSize { width: 800, height: 600 },
        123,
    );
    assert_eq!(
        config.credentials,
        Credentials::UsernamePassword { username: "alice".to_owned(), password: "secret".to_owned() }
    );
    assert_eq!(config.domain, Some("corp".to_owned()));
    assert!(config.enable_tls);
    assert!(config.enable_credssp);
    assert_eq!(config.keyboard_type, KeyboardType::IbmEnhanced);
    assert_eq!(config.keyboard_subtype, 0);
    assert_eq!(config.keyboard_layout, 0);
    assert_eq!(config.keyboard_functional_keys_count, 12);
    assert_eq!(config.ime_file_name, "");
    assert_eq!(config.dig_product_id, "");
    assert_eq!(config.desktop_size, DesktopSize { width: 800, height: 600 });
    assert_eq!(config.bitmap, Some(BitmapConfig { color_depth: 16, lossy_compression: true }));
    assert_eq!(config.client_build, 123);
    assert_eq!(config.client_name, "client");
    assert_eq!(config.client_dir, "C:\\Windows\\System32\\mstscax.dll");
    assert_eq!(config.platform, MajorPlatformType::Unspecified);
    assert!(!config.no_server_pointer);
    assert!(!config.autologon);
    assert_eq!(config.request_data, None);
    assert!(!config.pointer_software_rendering);
    assert_eq!(config.performance_flags, None);
    assert_eq!(config.desktop_scale_factor, 0);
    assert_eq!(config.hardware_id, None);
}

#[test]
fn fresh_builder_has_defaults() {
    let builder = SessionBuilder::init();
    let inner = builder.inner();
    assert!(inner.data_channel.is_none());
    assert_eq!(inner.username, None);
    assert_eq!(inner.destination, None);
    assert_eq!(inner.server_domain, None);
    assert_eq!(inner.password, None);
    assert_eq!(inner.kdc_proxy_url, None);
    assert_eq!(inner.client_name, "ironrdp-web");
    assert_eq!(inner.desktop_size, DesktopSize { width: DEFAULT_WIDTH, height: DEFAULT_HEIGHT });
    assert_eq!(inner.desktop_size, DesktopSize { width: 1280, height: 720 });
    assert!(inner.render_canvas.is_none());
    assert!(inner.set_cursor_style_callback.is_none());
    assert!(inner.set_cursor_style_callback_context.is_none());
    assert!(inner.remote_clipboard_changed_callback.is_none());
    assert!(inner.remote_received_format_list_callback.is_none());
    assert!(inner.force_clipboard_update_callback.is_none());
    assert!(inner.use_display_control);
}

#[test]
fn builder_stores_what_it_is_given() {
    let builder = SessionBuilder::init()
        .username("alice".to_owned())
        .destination("10.0.0.1:3389".to_owned())
        .password("secret".to_owned())
        .server_domain("corp".to_owned())
        .desktop_size(DesktopSize { width: 800, height: 600 });
    let inner = builder.inner();
    assert_eq!(inner.username, Some("alice".to_owned()));
    assert_eq!(inner.destination, Some("10.0.0.1:3389".to_owned()));
    assert_eq!(inner.password, Some("secret".to_owned()));
    assert_eq!(inner.server_domain, Some("corp".to_owned()));
    assert_eq!(inner.desktop_size, DesktopSize { width: 800, height: 600 });
    assert_eq!(inner.client_name, "ironrdp-web");
}

#[test]
fn empty_server_domain_counts_as_none() {
    let builder = SessionBuilder::init().server_domain("corp".to_owned());
    assert_eq!(builder.inner().server_domain, Some("corp".to_owned()));
    let builder = builder.server_domain(String::new());
    assert_eq!(builder.inner().server_domain, None);
}

#[test]
fn extensions_switch_optional_features() {
    let builder =
        SessionBuilder::init().extension(Extension::KdcProxyUrl("https://kdc".to_owned()));
    assert_eq!(builder.inner().kdc_proxy_url, Some("https://kdc".to_owned()));
    assert!(builder.inner().use_display_control);
    let builder = builder.extension(Extension::DisplayControl(false));
    assert!(!builder.inner().use_display_control);
    assert_eq!(builder.inner().kdc_proxy_url, Some("https://kdc".to_owned()));
}

#[test]
fn connect_reports_the_first_missing_setting() {
    let missing = |builder: SessionBuilder| builder.connect(1).err();
    assert_eq!(missing(SessionBuilder::init()), Some(RequiredField::DataChannel));
    assert_eq!(
        missing(
            SessionBuilder::init()
                .username("alice".to_owned())
                .destination("host".to_owned())
                .password("secret".to_owned())
        ),
        Some(RequiredField::DataChannel)
    );
}

fn channel() -> RtcDataChannel {
    JsValue::NULL.unchecked_into()
}

fn canvas() -> HtmlCanvasElement {
    JsValue::NULL.unchecked_into()
}

fn builder_with(settings: usize) -> SessionBuilder {
    let mut builder = SessionBuilder::init();
    if settings > 0 {
        builder = builder.data_channel(channel());
    }
    if settings > 1 {
        builder = builder.username("alice".to_owned());
    }
    if settings > 2 {
        builder = builder.destination("10.0.0.1:3389".to_owned());
    }
    if settings > 3 {
        builder = builder.password("secret".to_owned());
    }
    if settings > 4 {
        builder = builder.render_canvas(canvas());
    }
    if settings > 5 {
        builder = builder.set_cursor_style_callback(JsValue::NULL);
    }
    if settings > 6 {
        builder = builder.set_cursor_style_callback_context(JsValue::UNDEFINED);
    }
    builder
}

#[test]
fn connect_reports_each_missing_setting_in_order() {
    let missing = |builder: SessionBuilder| builder.connect(1).err();
    assert_eq!(missing(builder_with(0)), Some(RequiredField::DataChannel));
    assert_eq!(missing(builder_with(1)), Some(RequiredField::Username));
    assert_eq!(missing(builder_with(2)), Some(RequiredField::Destination));
    assert_eq!(missing(builder_with(3)), Some(RequiredField::Password));
    assert_eq!(missing(builder_with(4)), Some(RequiredField::RenderCanvas));
    assert_eq!(missing(builder_with(5)), Some(RequiredField::SetCursorStyleCallback));
    assert_eq!(missing(builder_with(6)), Some(RequiredField::SetCursorStyleCallbackContext));
    assert_eq!(missing(builder_with(7)), None);
}

#[test]
fn connect_reports_the_first_of_several_missing_settings() {
    let missing = |builder: SessionBuilder| builder.connect(1).err();
    let builder = SessionBuilder::init()
        .set_cursor_style_callback_context(JsValue::UNDEFINED)
        .set_cursor_style_callback(JsValue::NULL)
        .render_canvas(canvas())
        .password("secret".to_owned());
    assert_eq!(missing(builder), Some(RequiredField::DataChannel));
    let builder = SessionBuilder::init()
        .set_cursor_style_callback_context(JsValue::UNDEFINED)
        .data_channel(channel())
        .password("secret".to_owned());
    assert_eq!(missing(builder), Some(RequiredField::Username));
    let builder = builder_with(2).password("secret".to_owned()).render_canvas(canvas());
    assert_eq!(missing(builder), Some(RequiredField::Destination));
    let builder = builder_with(4).set_cursor_style_callback_context(JsValue::UNDEFINED);
    assert_eq!(missing(builder), Some(RequiredField::RenderCanvas));
}

#[test]
fn connect_lays_out_the_request() {
    let request = SessionBuilder::init()
        .data_channel(channel())
        .username("alice".to_owned())
        .destination("10.0.0.1:3389".to_owned())
        .server_domain("corp".to_owned())
        .password("secret".to_owned())
        .desktop_size(DesktopSize { width: 800, height: 600 })
        .render_canvas(canvas())
        .set_cursor_style_callback(JsValue::NULL)
        .set_cursor_style_callback_context(JsValue::UNDEFINED)
        .extension(Extension::KdcProxyUrl("https://kdc".to_owned()))
        .extension(Extension::DisplayControl(false))
        .connect(123)
        .ok()
        .unwrap();
    assert_eq!(request.destination, "10.0.0.1:3389");
    assert_eq!(request.kdc_proxy_url, Some("https://kdc".to_owned()));
    assert!(!request.use_display_control);
    assert!(request.clipboard.is_none());
    assert_eq!(
        request.config,
        build_config(
            "alice".to_owned(),
            "secret".to_owned(),
            Some("corp".to_owned()),
            "ironrdp-web".to_owned(),
            DesktopSize { width: 800, height: 600 },
            123,
        )
    );
}

#[test]
fn clipboard_needs_the_remote_change_callback() {
    let complete = || {
        SessionBuilder::init()
            .data_channel(channel())
            .username("alice".to_owned())
            .destination("10.0.0.1:3389".to_owned())
            .password("secret".to_owned())
            .render_canvas(canvas())
            .set_cursor_style_callback(JsValue::NULL)
            .set_cursor_style_callback_context(JsValue::UNDEFINED)
    };
    let request = complete()
        .remote_received_format_list_callback(JsValue::TRUE)
        .force_clipboard_update_callback(JsValue::TRUE)
        .connect(1)
        .ok()
        .unwrap();
    assert!(request.clipboard.is_none());
    assert!(request.use_display_control);
    assert_eq!(request.kdc_proxy_url, None);
    let request = complete()
        .remote_clipboard_changed_callback(JsValue::TRUE)
        .force_clipboard_update_callback(JsValue::FALSE)
        .connect(1)
        .ok()
        .unwrap();
    let clipboard = request.clipboard.unwrap();
    assert!(clipboard.on_remote_received_format_list.is_none());
    assert!(clipboard.on_force_clipboard_update.is_some());
}

#[test]
fn missing_settings_describe_themselves() {
    assert_eq!(RequiredField::DataChannel.description(), "data_channel missing");
    assert_eq!(RequiredField::Username.description(), "username missing");
    assert_eq!(RequiredField::Destination.description(), "destination missing");
    assert_eq!(RequiredField::Password.description(), "password missing");
    assert_eq!(RequiredField::RenderCanvas.description(), "render_canvas missing");
    assert_eq!(
        RequiredField::SetCursorStyleCallback.description(),
        "set_cursor_style_callback missing"
    );
    assert_eq!(
        RequiredField::SetCursorStyleCallbackContext.description(),
        "set_cursor_style_callback_context missing"
    );
}

#[test]
fn host_values_are_carried_through_the_builder() {
    let builder = SessionBuilder::init()
        .set_cursor_style_callback(JsValue::NULL)
        .set_cursor_style_callback_context(JsValue::UNDEFINED)
        .remote_clipboard_changed_callback(JsValue::TRUE)
        .remote_received_format_list_callback(JsValue::FALSE)
        .force_clipboard_update_callback(JsValue::NULL);
    let inner = builder.inner();
    assert!(inner.set_cursor_style_callback.is_some());
    assert!(inner.set_cursor_style_callback_context.is_some());
    assert!(inner.remote_clipboard_changed_callback.is_some());
    assert!(inner.remote_received_format_list_callback.is_some());
    assert!(inner.force_clipboard_update_callback.is_some());
    assert_eq!(builder.connect(1).err(), Some(RequiredField::DataChannel));
}

#[test]
fn static_channels_follow_the_settings() {
    assert_eq!(static_channels(false, false), vec![]);
    assert_eq!(static_channels(true, false), vec![StaticChannel::Clipboard]);
    assert_eq!(static_channels(false, true), vec![StaticChannel::DisplayControl]);
    assert_eq!(
        static_channels(true, true),
        vec![StaticChannel::Clipboard, StaticChannel::DisplayControl]
    );
}

#[test]
fn kerberos_goes_through_a_proxy_that_parses() {
    assert_eq!(
        kerberos_config(Some("https://KDC.example.com/KdcProxy".to_owned()), "host".to_owned()),
        Some(KerberosConfig {
            kdc_proxy_url: Some("https://kdc.example.com/KdcProxy".to_owned()),
            hostname: Some("host".to_owned()),
        })
    );
    assert_eq!(
        kerberos_config(Some("https://kdc.example.com".to_owned()), "host".to_owned()),
        Some(KerberosConfig {
            kdc_proxy_url: Some("https://kdc.example.com/".to_owned()),
            hostname: Some("host".to_owned()),
        })
    );
}

#[test]
fn kerberos_is_off_without_a_usable_proxy() {
    assert_eq!(kerberos_config(None, "host".to_owned()), None);
    assert_eq!(kerberos_config(Some(String::new()), "host".to_owned()), None);
    assert_eq!(kerberos_config(Some("not a url".to_owned()), "host".to_owned()), None);
    assert_eq!(kerberos_config(Some("//kdc/path".to_owned()), "host".to_owned()), None);
    assert_eq!(kerberos_config_for(None, "host".to_owned()), None);
    assert_eq!(
        kerberos_config_for(Some("x:y".to_owned()), "host".to_owned()),
        Some(KerberosConfig {
            kdc_proxy_url: Some("x:y".to_owned()),
            hostname: Some("host".to_owned())
        })
    );
}

#[test]
fn connection_plan_never_validates_and_never_resumes() {
    let plan = connect_plan("host".to_owned(), None, true, true);
    assert_eq!(plan.static_channels, vec![StaticChannel::Clipboard, StaticChannel::DisplayControl]);
    assert_eq!(
        plan.tls,
        TlsSettings {
            certificate_verification: CertificateVerification::AcceptAny,
            session_resumption: false,
        }
    );
    assert_eq!(plan.kerberos, None);
    assert_eq!(tls_settings(), plan.tls);
    let plan = connect_plan("host".to_owned(), Some("http://kdc/".to_owned()), false, false);
    assert_eq!(plan.static_channels, vec![]);
    assert_eq!(
        plan.kerberos,
        Some(KerberosConfig {
            kdc_proxy_url: Some("http://kdc/".to_owned()),
            hostname: Some("host".to_owned())
        })
    );
}

#[test]
fn every_certificate_and_signature_is_accepted() {
    let verifier = NoCertificateVerification;
    assert!(verifier.verify_server_cert(&[], &[], "", &[]));
    assert!(verifier.verify_server_cert(&CERTIFICATE, &[vec![1, 2, 3]], "other.example", &[9]));
    assert!(verifier.verify_tls12_signature(b"message", &CERTIFICATE, &[0; 64]));
    assert!(verifier.verify_tls13_signature(b"message", &[], &[]));
}

#[test]
fn every_signature_scheme_is_announced() {
    let schemes = NoCertificateVerification.supported_verify_schemes();
    assert_eq!(
        schemes,
        vec![
            SignatureScheme::RsaPkcs1Sha1,
            SignatureScheme::EcdsaSha1Legacy,
            SignatureScheme::RsaPkcs1Sha256,
            SignatureScheme::EcdsaNistp256Sha256,
            SignatureScheme::RsaPkcs1Sha384,
            SignatureScheme::EcdsaNistp384Sha384,
            SignatureScheme::RsaPkcs1Sha512,
            SignatureScheme::EcdsaNistp521Sha512,
            SignatureScheme::RsaPssSha256,
            SignatureScheme::RsaPssSha384,
            SignatureScheme::RsaPssSha512,
            SignatureScheme::Ed25519,
            SignatureScheme::Ed448,
        ]
    );
    for scheme in schemes {
        assert_eq!(rustls::SignatureScheme::from(scheme.code()).to_array(), scheme.code().to_be_bytes());
        assert!(!matches!(rustls::SignatureScheme::from(scheme.code()), rustls::SignatureScheme::Unknown(_)));
    }
    assert_eq!(
        rustls::SignatureScheme::from(SignatureScheme::RsaPkcs1Sha1.code()),
        rustls::SignatureScheme::RSA_PKCS1_SHA1
    );
    assert_eq!(
        rustls::SignatureScheme::from(SignatureScheme::EcdsaSha1Legacy.code()),
        rustls::SignatureScheme::ECDSA_SHA1_Legacy
    );
    assert_eq!(
        rustls::SignatureScheme::from(SignatureScheme::EcdsaNistp521Sha512.code()),
        rustls::SignatureScheme::ECDSA_NISTP521_SHA512
    );
    assert_eq!(
        rustls::SignatureScheme::from(SignatureScheme::RsaPssSha256.code()),
        rustls::SignatureScheme::RSA_PSS_SHA256
    );
    assert_eq!(
        rustls::SignatureScheme::from(SignatureScheme::Ed25519.code()),
        rustls::SignatureScheme::ED25519
    );
    assert_eq!(
        rustls::SignatureScheme::from(SignatureScheme::Ed448.code()),
        rustls::SignatureScheme::ED448
    );
}

#[test]
fn public_key_is_extracted_from_a_certificate() {
    assert_eq!(extract_tls_server_public_key(&CERTIFICATE), Ok(PUBLIC_KEY.to_vec()));
}

#[test]
fn malformed_certificate_has_no_public_key() {
    assert!(matches!(extract_tls_server_public_key(&[]), Err(PublicKeyError::Malformed(_))));
    assert!(matches!(
        extract_tls_server_public_key(&[0x30, 0x03, 0x02, 0x01, 0x00]),
        Err(PublicKeyError::Malformed(_))
    ));
    assert!(matches!(
        extract_tls_server_public_key(&CERTIFICATE[..100]),
        Err(PublicKeyError::Malformed(_))
    ));
    let mut trailing = CERTIFICATE.to_vec();
    trailing.push(0);
    assert!(matches!(extract_tls_server_public_key(&trailing), Err(PublicKeyError::Malformed(_))));
}

#[test]
fn public_key_with_unused_bits_is_refused() {
    let mut certificate = CERTIFICATE.to_vec();
    let at = certificate
        .windows(4)
        .position(|window| window == [0x03, 0x42, 0x00, 0x04])
        .unwrap();
    certificate[at + 2] = 0x01;
    assert_eq!(extract_tls_server_public_key(&certificate), Err(PublicKeyError::Unaligned));
    assert_eq!(server_public_key(Some(&vec![certificate])), Err(PublicKeyError::Unaligned));
}

#[test]
fn decoding_outcomes_map_to_key_or_reason() {
    assert_eq!(public_key_from(Ok(Some(vec![1, 2]))), Ok(vec![1, 2]));
    assert_eq!(public_key_from(Ok(None)), Err(PublicKeyError::Unaligned));
    assert_eq!(
        public_key_from(Err("bad tag".to_owned())),
        Err(PublicKeyError::Malformed("bad tag".to_owned()))
    );
}

#[test]
fn peer_public_key_comes_from_the_first_certificate() {
    let chain = vec![CERTIFICATE.to_vec(), vec![0u8; 4]];
    assert_eq!(server_public_key(Some(&chain)), Ok(PUBLIC_KEY.to_vec()));
    let chain = vec![vec![0u8; 4], CERTIFICATE.to_vec()];
    assert!(matches!(server_public_key(Some(&chain)), Err(PublicKeyError::Malformed(_))));
}

#[test]
fn missing_peer_certificate_is_an_error() {
    assert_eq!(server_public_key(None), Err(PublicKeyError::MissingCertificate));
    assert_eq!(server_public_key(Some(&vec![])), Err(PublicKeyError::MissingCertificate));
}

#[test]
fn public_key_errors_describe_themselves() {
    assert_eq!(PublicKeyError::MissingCertificate.description(), "peer certificate is missing");
    assert_eq!(
        PublicKeyError::Unaligned.description(),
        "subject public key BIT STRING is not aligned"
    );
    assert_eq!(PublicKeyError::Malformed("bad tag".to_owned()).description(), "bad tag");
}
