//! Collects what a session needs before it can be connected.

#[allow(unused_imports)]
use crate::config::{build_config, is_session_config, Config, DesktopSize, DEFAULT_HEIGHT, DEFAULT_WIDTH};
use vstd::prelude::*;
use vstd::string::*;
use wasm_bindgen::JsValue;
use web_sys::{HtmlCanvasElement, RtcDataChannel};

verus! {

/// `web_sys::RtcDataChannel`: the handle of the transport channel. Carried
/// through untouched.
#[verifier::external_type_specification]
#[verifier::external_body]
pub struct ExRtcDataChannel(RtcDataChannel);

/// `web_sys::HtmlCanvasElement`: the handle of the presentation surface.
/// Carried through untouched.
#[verifier::external_type_specification]
#[verifier::external_body]
pub struct ExHtmlCanvasElement(HtmlCanvasElement);

/// `wasm_bindgen::JsValue`: an arbitrary value of the host, among them its
/// callbacks. Carried through untouched.
#[verifier::external_type_specification]
#[verifier::external_body]
pub struct ExJsValue(JsValue);

/// An optional feature switched through [`SessionBuilder::extension`].
#[derive(Debug)]
pub enum Extension {
    /// Reach the Kerberos key distribution center through this proxy.
    KdcProxyUrl(String),
    /// Whether to negotiate the display-control channel.
    DisplayControl(bool),
}

/// What a builder has collected so far.
#[derive(Clone)]
pub struct SessionBuilderInner {
    pub data_channel: Option<RtcDataChannel>,
    pub username: Option<String>,
    pub destination: Option<String>,
    pub server_domain: Option<String>,
    pub password: Option<String>,
    pub kdc_proxy_url: Option<String>,
    pub client_name: String,
    pub desktop_size: DesktopSize,
    pub render_canvas: Option<HtmlCanvasElement>,
    pub set_cursor_style_callback: Option<JsValue>,
    pub set_cursor_style_callback_context: Option<JsValue>,
    pub remote_clipboard_changed_callback: Option<JsValue>,
    pub remote_received_format_list_callback: Option<JsValue>,
    pub force_clipboard_update_callback: Option<JsValue>,
    pub use_display_control: bool,
}

/// Whether `inner` is what a fresh builder holds: nothing set, the default
/// client name and desktop size, display control wanted.
pub open spec fn is_default_builder(inner: SessionBuilderInner) -> bool {
    &&& inner.data_channel is None
    &&& inner.username is None
    &&& inner.destination is None
    &&& inner.server_domain is None
    &&& inner.password is None
    &&& inner.kdc_proxy_url is None
    &&& inner.client_name@ == "ironrdp-web"@
    &&& inner.desktop_size == DesktopSize { width: DEFAULT_WIDTH, height: DEFAULT_HEIGHT }
    &&& inner.render_canvas is None
    &&& inner.set_cursor_style_callback is None
    &&& inner.set_cursor_style_callback_context is None
    &&& inner.remote_clipboard_changed_callback is None
    &&& inner.remote_received_format_list_callback is None
    &&& inner.force_clipboard_update_callback is None
    &&& inner.use_display_control
}

impl SessionBuilderInner {
    /// What a fresh builder holds.
    pub fn default() -> (inner: SessionBuilderInner)
        ensures
            is_default_builder(inner),
    {
        SessionBuilderInner {
            data_channel: None,
            username: None,
            destination: None,
            server_domain: None,
            password: None,
            kdc_proxy_url: None,
            client_name: String::from_str("ironrdp-web"),
            desktop_size: DesktopSize { width: DEFAULT_WIDTH, height: DEFAULT_HEIGHT },
            render_canvas: None,
            set_cursor_style_callback: None,
            set_cursor_style_callback_context: None,
            remote_clipboard_changed_callback: None,
            remote_received_format_list_callback: None,
            force_clipboard_update_callback: None,
            use_display_control: true,
        }
    }
}

/// A setting without which no connection can be made.
#[derive(Debug, Clone, Copy, PartialEq, Eq, Structural)]
pub enum RequiredField {
    DataChannel,
    Username,
    Destination,
    Password,
    RenderCanvas,
    SetCursorStyleCallback,
    SetCursorStyleCallbackContext,
}

impl RequiredField {
    pub open spec fn spec_description(self) -> Seq<char> {
        match self {
            RequiredField::DataChannel => "data_channel missing"@,
            RequiredField::Username => "username missing"@,
            RequiredField::Destination => "destination missing"@,
            RequiredField::Password => "password missing"@,
            RequiredField::RenderCanvas => "render_canvas missing"@,
            RequiredField::SetCursorStyleCallback => "set_cursor_style_callback missing"@,
            RequiredField::SetCursorStyleCallbackContext => "set_cursor_style_callback_context missing"@,
        }
    }

    /// What is reported when the setting is missing.
    pub fn description(&self) -> (text: &'static str)
        ensures
            text@ == self.spec_description(),
    {
        match self {
            RequiredField::DataChannel => "data_channel missing",
            RequiredField::Username => "username missing",
            RequiredField::Destination => "destination missing",
            RequiredField::Password => "password missing",
            RequiredField::RenderCanvas => "render_canvas missing",
            RequiredField::SetCursorStyleCallback => "set_cursor_style_callback missing",
            RequiredField::SetCursorStyleCallbackContext => "set_cursor_style_callback_context missing",
        }
    }
}

/// The first required setting that is missing, in the order they are checked.
pub open spec fn first_missing(inner: SessionBuilderInner) -> Option<RequiredField> {
    if inner.data_channel is None {
        Some(RequiredField::DataChannel)
    } else if inner.username is None {
        Some(RequiredField::Username)
    } else if inner.destination is None {
        Some(RequiredField::Destination)
    } else if inner.password is None {
        Some(RequiredField::Password)
    } else if inner.render_canvas is None {
        Some(RequiredField::RenderCanvas)
    } else if inner.set_cursor_style_callback is None {
        Some(RequiredField::SetCursorStyleCallback)
    } else if inner.set_cursor_style_callback_context is None {
        Some(RequiredField::SetCursorStyleCallbackContext)
    } else {
        None
    }
}

/// Callbacks of the local clipboard.
pub struct ClipboardCallbacks {
    pub on_remote_clipboard_changed: JsValue,
    pub on_remote_received_format_list: Option<JsValue>,
    pub on_force_clipboard_update: Option<JsValue>,
}

/// Everything needed to connect and then run a session.
pub struct ConnectRequest {
    pub data_channel: RtcDataChannel,
    pub config: Config,
    pub destination: String,
    pub kdc_proxy_url: Option<String>,
    /// Present exactly when a callback for remote clipboard changes was set.
    pub clipboard: Option<ClipboardCallbacks>,
    pub use_display_control: bool,
    pub render_canvas: HtmlCanvasElement,
    pub set_cursor_style_callback: JsValue,
    pub set_cursor_style_callback_context: JsValue,
}

/// The clipboard callbacks that a builder's settings amount to.
pub open spec fn clipboard_callbacks(inner: SessionBuilderInner) -> Option<ClipboardCallbacks> {
    match inner.remote_clipboard_changed_callback {
        Some(callback) => Some(
            ClipboardCallbacks {
                on_remote_clipboard_changed: callback,
                on_remote_received_format_list: inner.remote_received_format_list_callback,
                on_force_clipboard_update: inner.force_clipboard_update_callback,
            },
        ),
        None => None,
    }
}

/// Whether `request` is the connection request for a complete builder.
pub open spec fn is_request_of(
    request: ConnectRequest,
    inner: SessionBuilderInner,
    client_build: u32,
) -> bool {
    &&& first_missing(inner) is None
    &&& Some(request.data_channel) == inner.data_channel
    &&& is_session_config(
        request.config,
        inner.username->0,
        inner.password->0,
        inner.server_domain,
        inner.client_name,
        inner.desktop_size,
        client_build,
    )
    &&& Some(request.destination) == inner.destination
    &&& request.kdc_proxy_url == inner.kdc_proxy_url
    &&& request.clipboard == clipboard_callbacks(inner)
    &&& request.use_display_control == inner.use_display_control
    &&& Some(request.render_canvas) == inner.render_canvas
    &&& Some(request.set_cursor_style_callback) == inner.set_cursor_style_callback
    &&& Some(request.set_cursor_style_callback_context) == inner.set_cursor_style_callback_context
}

/// Collects the settings of a session, one call at a time.
#[derive(Clone)]
pub struct SessionBuilder(SessionBuilderInner);

impl View for SessionBuilder {
    type V = SessionBuilderInner;

    closed spec fn view(&self) -> SessionBuilderInner {
        self.0
    }
}

impl SessionBuilder {
    /// A builder with nothing set.
    pub fn init() -> (builder: SessionBuilder)
        ensures
            is_default_builder(builder@),
    {
        SessionBuilder(SessionBuilderInner::default())
    }

    /// What was collected so far.
    pub fn inner(&self) -> (inner: &SessionBuilderInner)
        ensures
            *inner == self@,
    {
        &self.0
    }

    /// Required.
    pub fn data_channel(self, channel: RtcDataChannel) -> (builder: SessionBuilder)
        ensures
            builder@ == (SessionBuilderInner { data_channel: Some(channel), ..self@ }),
    {
        let mut inner = self.0;
        inner.data_channel = Some(channel);
        SessionBuilder(inner)
    }

    /// Required.
    pub fn username(self, username: String) -> (builder: SessionBuilder)
        ensures
            builder@ == (SessionBuilderInner { username: Some(username), ..self@ }),
    {
        let mut inner = self.0;
        inner.username = Some(username);
        SessionBuilder(inner)
    }

    /// Required.
    pub fn destination(self, destination: String) -> (builder: SessionBuilder)
        ensures
            builder@ == (SessionBuilderInner { destination: Some(destination), ..self@ }),
    {
        let mut inner = self.0;
        inner.destination = Some(destination);
        SessionBuilder(inner)
    }

    /// Optional. An empty domain counts as none.
    pub fn server_domain(self, server_domain: String) -> (builder: SessionBuilder)
        ensures
            builder@ == (SessionBuilderInner {
                server_domain: if server_domain@.len() == 0 {
                    None
                } else {
                    Some(server_domain)
                },
                ..self@
            }),
    {
        let mut inner = self.0;
        inner.server_domain = if server_domain.as_str().unicode_len() == 0 {
            None
        } else {
            Some(server_domain)
        };
        SessionBuilder(inner)
    }

    /// Required.
    pub fn password(self, password: String) -> (builder: SessionBuilder)
        ensures
            builder@ == (SessionBuilderInner { password: Some(password), ..self@ }),
    {
        let mut inner = self.0;
        inner.password = Some(password);
        SessionBuilder(inner)
    }

    /// Optional.
    pub fn desktop_size(self, desktop_size: DesktopSize) -> (builder: SessionBuilder)
        ensures
            builder@ == (SessionBuilderInner { desktop_size, ..self@ }),
    {
        let mut inner = self.0;
        inner.desktop_size = desktop_size;
        SessionBuilder(inner)
    }

    /// Required.
    pub fn render_canvas(self, canvas: HtmlCanvasElement) -> (builder: SessionBuilder)
        ensures
            builder@ == (SessionBuilderInner { render_canvas: Some(canvas), ..self@ }),
    {
        let mut inner = self.0;
        inner.render_canvas = Some(canvas);
        SessionBuilder(inner)
    }

    /// Required. The callback is told the cursor kind (`default`, `hidden` or
    /// `url`), the data URL of a `url` cursor, and the hotspot.
    pub fn set_cursor_style_callback(self, callback: JsValue) -> (builder: SessionBuilder)
        ensures
            builder@ == (SessionBuilderInner { set_cursor_style_callback: Some(callback), ..self@ }),
    {
        let mut inner = self.0;
        inner.set_cursor_style_callback = Some(callback);
        SessionBuilder(inner)
    }

    /// Required.
    pub fn set_cursor_style_callback_context(self, context: JsValue) -> (builder: SessionBuilder)
        ensures
            builder@ == (SessionBuilderInner {
                set_cursor_style_callback_context: Some(context),
                ..self@
            }),
    {
        let mut inner = self.0;
        inner.set_cursor_style_callback_context = Some(context);
        SessionBuilder(inner)
    }

    /// Optional. Without it the session has no clipboard.
    pub fn remote_clipboard_changed_callback(self, callback: JsValue) -> (builder: SessionBuilder)
        ensures
            builder@ == (SessionBuilderInner {
                remote_clipboard_changed_callback: Some(callback),
                ..self@
            }),
    {
        let mut inner = self.0;
        inner.remote_clipboard_changed_callback = Some(callback);
        SessionBuilder(inner)
    }

    /// Optional.
    pub fn remote_received_format_list_callback(self, callback: JsValue) -> (builder:
        SessionBuilder)
        ensures
            builder@ == (SessionBuilderInner {
                remote_received_format_list_callback: Some(callback),
                ..self@
            }),
    {
        let mut inner = self.0;
        inner.remote_received_format_list_callback = Some(callback);
        SessionBuilder(inner)
    }

    /// Optional.
    pub fn force_clipboard_update_callback(self, callback: JsValue) -> (builder: SessionBuilder)
        ensures
            builder@ == (SessionBuilderInner {
                force_clipboard_update_callback: Some(callback),
                ..self@
            }),
    {
        let mut inner = self.0;
        inner.force_clipboard_update_callback = Some(callback);
        SessionBuilder(inner)
    }

    /// Switches an optional feature.
    pub fn extension(self, value: Extension) -> (builder: SessionBuilder)
        ensures
            builder@ == match value {
                Extension::KdcProxyUrl(url) => SessionBuilderInner {
                    kdc_proxy_url: Some(url),
                    ..self@
                },
                Extension::DisplayControl(enabled) => SessionBuilderInner {
                    use_display_control: enabled,
                    ..self@
                },
            },
    {
        let mut inner = self.0;
        match value {
            Extension::KdcProxyUrl(url) => {
                inner.kdc_proxy_url = Some(url);
            },
            Extension::DisplayControl(enabled) => {
                inner.use_display_control = enabled;
            },
        }
        SessionBuilder(inner)
    }

    /// Checks that every required setting is there and lays out the connection.
    /// The first missing setting, in the order data channel, user name,
    /// destination, password, canvas, cursor callback, cursor callback context,
    /// is reported. `client_build` is the build number announced to the server.
    pub fn connect(self, client_build: u32) -> (r: Result<ConnectRequest, RequiredField>)
        ensures
            first_missing(self@) matches Some(field) ==> r is Err && r->Err_0 == field,
            first_missing(self@) is None ==> r is Ok && is_request_of(
                r->Ok_0,
                self@,
                client_build,
            ),
    {
        let inner = self.0;
        let data_channel = match inner.data_channel {
            Some(channel) => channel,
            None => {
                return Err(RequiredField::DataChannel);
            },
        };
        let username = match inner.username {
            Some(username) => username,
            None => {
                return Err(RequiredField::Username);
            },
        };
        let destination = match inner.destination {
            Some(destination) => destination,
            None => {
                return Err(RequiredField::Destination);
            },
        };
        let password = match inner.password {
            Some(password) => password,
            None => {
                return Err(RequiredField::Password);
            },
        };
        let render_canvas = match inner.render_canvas {
            Some(canvas) => canvas,
            None => {
                return Err(RequiredField::RenderCanvas);
            },
        };
        let set_cursor_style_callback = match inner.set_cursor_style_callback {
            Some(callback) => callback,
            None => {
                return Err(RequiredField::SetCursorStyleCallback);
            },
        };
        let set_cursor_style_callback_context = match inner.set_cursor_style_callback_context {
            Some(context) => context,
            None => {
                return Err(RequiredField::SetCursorStyleCallbackContext);
            },
        };
        let clipboard = match inner.remote_clipboard_changed_callback {
            Some(callback) => Some(
                ClipboardCallbacks {
                    on_remote_clipboard_changed: callback,
                    on_remote_received_format_list: inner.remote_received_format_list_callback,
                    on_force_clipboard_update: inner.force_clipboard_update_callback,
                },
            ),
            None => None,
        };
        let config = build_config(
            username,
            password,
            inner.server_domain,
            inner.client_name,
            inner.desktop_size,
            client_build,
        );
        Ok(
            ConnectRequest {
                data_channel,
                config,
                destination,
                kdc_proxy_url: inner.kdc_proxy_url,
                clipboard,
                use_display_control: inner.use_display_control,
                render_canvas,
                set_cursor_style_callback,
                set_cursor_style_callback_context,
            },
        )
    }
}

} // verus!
