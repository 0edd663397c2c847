//! What the view of an app is set up with.

use vstd::prelude::*;
use vstd::string::*;

use crate::details;
use crate::details::AppDetails;
use crate::storage;
use crate::storage::{storage_layout, StorageLayout};
use crate::text;
use crate::user_agent;
use crate::user_agent::{document_start_script, effective_user_agent};

verus! {

/// What the program around the window knows about the system.
pub struct HostEnvironment {
    /// The user's data directory.
    pub data_root: String,
    /// The user's cache directory.
    pub cache_root: String,
    /// The name of the program, below which its apps are stored.
    pub application: String,
    /// Whether media devices are bridged into workers.
    pub worker_bridge: bool,
}

/// Switches of the web engine.
#[derive(Clone, Copy, PartialEq, Eq, Structural, Debug)]
pub struct WebFeatures {
    pub webgl: bool,
    pub webrtc: bool,
    /// Required for getUserMedia and RTCPeerConnection; sites like WhatsApp Web report
    /// "calling not supported" without it.
    pub media_stream: bool,
    pub media: bool,
    pub mediasource: bool,
    pub encrypted_media: bool,
    pub media_capabilities: bool,
    pub hardware_acceleration: bool,
    pub canvas_acceleration: bool,
    pub local_storage: bool,
    pub database: bool,
    pub site_specific_quirks: bool,
    pub developer_extras: bool,
    pub spell_checking: bool,
}

/// Every switch turned on.
pub open spec fn all_features() -> WebFeatures {
    WebFeatures {
        webgl: true,
        webrtc: true,
        media_stream: true,
        media: true,
        mediasource: true,
        encrypted_media: true,
        media_capabilities: true,
        hardware_acceleration: true,
        canvas_acceleration: true,
        local_storage: true,
        database: true,
        site_specific_quirks: true,
        developer_extras: true,
        spell_checking: true,
    }
}

/// What the view of an app is set up with.
pub struct WebviewConfig {
    pub storage: StorageLayout,
    pub features: WebFeatures,
    pub user_agent: String,
    /// The HTTP proxy to go through, if any.
    pub proxy_url: Option<String>,
    /// Whether the page's theme color is listened for.
    pub theme_color: bool,
    /// The script that runs at document start in every frame.
    pub start_script: String,
    pub spell_languages: Vec<&'static str>,
}

/// What `WebviewConfig` holds, as mathematical values.
pub struct ConfigView {
    pub storage: storage::LayoutView,
    pub features: WebFeatures,
    pub user_agent: Seq<char>,
    pub proxy_url: Option<Seq<char>>,
    pub theme_color: bool,
    pub start_script: Seq<char>,
    pub spell_languages: Seq<Seq<char>>,
}

impl View for WebviewConfig {
    type V = ConfigView;

    open spec fn view(&self) -> ConfigView {
        ConfigView {
            storage: self.storage@,
            features: self.features,
            user_agent: self.user_agent@,
            proxy_url: text::text_option(self.proxy_url),
            theme_color: self.theme_color,
            start_script: self.start_script@,
            spell_languages: text::names(self.spell_languages@),
        }
    }
}

/// What the view of an app is set up with on a system.
pub open spec fn webview_config(host: HostEnvironment, app: details::DetailsView) -> ConfigView {
    ConfigView {
        storage: storage::layout_of(
            host.data_root@,
            host.cache_root@,
            host.application@,
            app.id,
        ),
        features: all_features(),
        user_agent: user_agent::agent_in_use(app.user_agent),
        proxy_url: app.proxy_url,
        theme_color: app.has_titlebar_color,
        start_script: user_agent::start_script(
            user_agent::agent_in_use(app.user_agent),
            host.worker_bridge,
        ),
        spell_languages: seq!["en_US"@],
    }
}

/// What the view of an app is set up with on a system.
pub fn create_webview(host: &HostEnvironment, app: &AppDetails) -> (config: WebviewConfig)
    ensures
        config@ == webview_config(*host, app@),
{
    let agent: String = effective_user_agent(&app.user_agent);
    let start_script: String = document_start_script(agent.as_str(), host.worker_bridge);
    let storage: StorageLayout = storage_layout(
        host.data_root.as_str(),
        host.cache_root.as_str(),
        host.application.as_str(),
        app.id.as_str(),
    );
    let features: WebFeatures = WebFeatures {
        webgl: true,
        webrtc: true,
        media_stream: true,
        media: true,
        mediasource: true,
        encrypted_media: true,
        media_capabilities: true,
        hardware_acceleration: true,
        canvas_acceleration: true,
        local_storage: true,
        database: true,
        site_specific_quirks: true,
        developer_extras: true,
        spell_checking: true,
    };
    let proxy_url: Option<String> = match &app.proxy_url {
        Some(proxy) => Some(proxy.clone()),
        None => None,
    };
    let mut spell_languages: Vec<&'static str> = Vec::new();
    spell_languages.push("en_US");
    assert(text::names(spell_languages@) =~= seq!["en_US"@]);
    WebviewConfig {
        storage,
        features,
        user_agent: agent,
        proxy_url,
        theme_color: app.has_titlebar_color,
        start_script,
        spell_languages,
    }
}

/// A page is told one and the same Chromium version: the one that its scripts see is the
/// one of the user agent that the view goes by.
pub proof fn law_version_agrees_with_agent(host: HostEnvironment, app: details::DetailsView)
    ensures
        webview_config(host, app).start_script == user_agent::start_script(
            webview_config(host, app).user_agent,
            host.worker_bridge,
        ),
        text::occurs_at(
            webview_config(host, app).start_script,
            user_agent::client_hints(
                user_agent::chrome_version(webview_config(host, app).user_agent),
            ),
            0,
        ),
{
    let script = webview_config(host, app).start_script;
    let hints = user_agent::client_hints(
        user_agent::chrome_version(webview_config(host, app).user_agent),
    );
    assert(script.subrange(0, hints.len() as int) =~= hints);
}

/// Every switch of the web engine is on, on every system and in every app.
pub proof fn law_every_feature_on(host: HostEnvironment, app: details::DetailsView)
    ensures
        ({
            let features = webview_config(host, app).features;
            &&& features.webgl
            &&& features.webrtc
            &&& features.media_stream
            &&& features.media
            &&& features.mediasource
            &&& features.encrypted_media
            &&& features.media_capabilities
            &&& features.hardware_acceleration
            &&& features.canvas_acceleration
            &&& features.local_storage
            &&& features.database
            &&& features.site_specific_quirks
            &&& features.developer_extras
            &&& features.spell_checking
        }),
{
}

/// What a view is set up with: every switch on, the app's own proxy or none, the theme color
/// listened for exactly where the title bar follows it, and the spelling of English checked.
pub proof fn law_view_of_app(host: &HostEnvironment, app: &AppDetails, config: WebviewConfig)
    requires
        call_ensures(create_webview, (host, app), config),
    ensures
        config.features.webgl && config.features.webrtc && config.features.media_stream,
        config.features.media && config.features.mediasource && config.features.encrypted_media,
        config.features.media_capabilities && config.features.hardware_acceleration,
        config.features.canvas_acceleration && config.features.local_storage,
        config.features.database && config.features.site_specific_quirks,
        config.features.developer_extras && config.features.spell_checking,
        config.proxy_url is Some <==> app.proxy_url is Some,
        config.proxy_url is Some ==> config.proxy_url.unwrap()@ == app.proxy_url.unwrap()@,
        config.theme_color == app.has_titlebar_color,
        config.spell_languages@.len() == 1,
        config.spell_languages@[0]@ == "en_US"@,
{
    law_every_feature_on(*host, app@);
    assert(config@ == webview_config(*host, app@));
    assert(text::names(config.spell_languages@).len() == config.spell_languages@.len());
    assert(text::names(config.spell_languages@)[0] == config.spell_languages@[0]@);
}

/// A view goes by the agent that is in use for the app, is served the script for that agent
/// with the bridge that the system asks for, and keeps its data where the app's data is kept.
pub proof fn law_view_agrees_with_its_parts<'a>(
    host: &'a HostEnvironment,
    app: &'a AppDetails,
    config: WebviewConfig,
    agent: String,
    as_str: &'a str,
    script: String,
    layout: StorageLayout,
)
    requires
        call_ensures(create_webview, (host, app), config),
        call_ensures(effective_user_agent, (&app.user_agent,), agent),
        as_str@ == agent@,
        call_ensures(document_start_script, (as_str, host.worker_bridge), script),
        exists|data: &str, cache: &str, application: &str, id: &str|
            #![trigger call_ensures(storage_layout, (data, cache, application, id), layout)]
            call_ensures(storage_layout, (data, cache, application, id), layout) && data@
                == host.data_root@ && cache@ == host.cache_root@ && application@
                == host.application@ && id@ == app.id@,
    ensures
        config.user_agent@ == agent@,
        config.start_script@ == script@,
        config.storage.data_dir@ == layout.data_dir@,
        config.storage.cache_dir@ == layout.cache_dir@,
        config.storage.session_dir@ == layout.session_dir@,
        config.storage.cookie_file@ == layout.cookie_file@,
{
    assert(config@ == webview_config(*host, app@));
    assert(config@.storage == config.storage@);
    assert(layout@ == config.storage@);
}

/// Two apps that differ in their ids alone are set up alike but for where their data is kept,
/// and what only the window is about makes no difference to the view.
pub proof fn law_view_depends_on(
    host: HostEnvironment,
    app: details::DetailsView,
    other: details::DetailsView,
)
    requires
        app.user_agent == other.user_agent,
        app.proxy_url == other.proxy_url,
        app.has_titlebar_color == other.has_titlebar_color,
    ensures
        webview_config(host, other) == (ConfigView {
            storage: webview_config(host, other).storage,
            ..webview_config(host, app)
        }),
        app.id == other.id ==> webview_config(host, app) == webview_config(host, other),
{
}

} // verus!
