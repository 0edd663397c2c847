use spider_window::details::AppDetails;
use spider_window::navigation::{
    action_names, action_steps, pressed_steps, update_nav_buttons, History, NavButtons, Step,
    ZoomStep,
};
use spider_window::permissions::{PermissionRequest, RequestStep};
use spider_window::policy::{PolicyAction, PolicyRequest, PopupAction};
use spider_window::storage::{join_path, storage_layout};
use spider_window::style::{
    format_css, stylesheet, theme_color, widget_name, Background, Brightness,
};
use spider_window::user_agent::{document_start_script, DEFAULT_USER_AGENT};
use spider_window::webview::{create_webview, HostEnvironment};
use spider_window::window::{AppWindow, CloseAction, LoadEvent};

fn details(id: &str) -> AppDetails {
    AppDetails {
        id: id.to_string(),
        title: "Chat".to_string(),
        url: "https://chat.example.com/".to_string(),
        user_agent: None,
        proxy_url: None,
        allowed_domains: Some(vec!["example.com".to_string()]),
        has_titlebar_color: true,
        run_in_background: false,
        window_width: 800,
        window_height: 600,
        window_maximize: false,
    }
}

fn host() -> HostEnvironment {
    HostEnvironment {
        data_root: "/home/me/.local/share".to_string(),
        cache_root: "/home/me/.cache".to_string(),
        application: "spider".to_string(),
        worker_bridge: true,
    }
}

fn names(steps: &[Step]) -> Vec<String> {
    steps
        .iter()
        .map(|step| match step {
            Step::GoBack => "back".to_string(),
            Step::GoForward => "forward".to_string(),
            Step::UpdateNavButtons => "buttons".to_string(),
            Step::Reload => "reload".to_string(),
            Step::ReloadBypassCache => "reload all".to_string(),
            Step::StopLoading => "stop".to_string(),
            Step::LoadUri { uri } => format!("load {}", uri),
            Step::Zoom(ZoomStep::In) => "in".to_string(),
            Step::Zoom(ZoomStep::Out) => "out".to_string(),
            Step::Zoom(ZoomStep::Reset) => "reset".to_string(),
            Step::ClaimGesture => "claim".to_string(),
        })
        .collect()
}

#[test]
fn new_window() {
    let (window, setup) = AppWindow::<u32>::new(&host(), details("chat"));
    assert_eq!(window.id(), "chat");
    assert!(!window.initial_load_done);
    assert!(window.pending_notifications.is_empty());
    assert_eq!(setup.widget_name, "schat");
    assert_eq!(setup.title, "Chat");
    assert_eq!((setup.width, setup.height, setup.maximize), (800, 600, false));
    assert_eq!(setup.start_uri, "https://chat.example.com/");
    assert_eq!(
        setup.stylesheet,
        "window#schat {\n    background: @window_bg_color;\n    color: @window_fg_color;\n}"
    );
    assert_eq!(
        setup.webview.storage.cookie_file,
        "/home/me/.local/share/spider/chat/cookie"
    );
}

#[test]
fn another_app_in_the_window() {
    let (mut window, _) = AppWindow::<u32>::new(&host(), details("chat"));
    window.load_changed(LoadEvent::Finished);
    assert!(window.show_notification(true, None, None, 7).is_some());
    let setup = window.set_details(&host(), details("mail"));
    assert_eq!(setup.widget_name, "smail");
    assert_eq!(window.id(), "mail");
    assert!(!window.initial_load_done);
    assert_eq!(window.pending_notifications, vec![7]);
}

#[test]
fn view_of_an_app() {
    let mut app = details("chat");
    app.proxy_url = Some("http://proxy:3128".to_string());
    let config = create_webview(&host(), &app);
    assert_eq!(config.user_agent, DEFAULT_USER_AGENT);
    assert_eq!(
        config.start_script,
        document_start_script(DEFAULT_USER_AGENT, true)
    );
    assert_eq!(config.proxy_url, Some("http://proxy:3128".to_string()));
    assert!(config.theme_color);
    assert_eq!(config.spell_languages, vec!["en_US"]);
    assert!(config.features.media_stream && config.features.spell_checking);

    app.user_agent = Some("Mine Chrome/9.1".to_string());
    app.proxy_url = None;
    app.has_titlebar_color = false;
    let mut plain = host();
    plain.worker_bridge = false;
    let config = create_webview(&plain, &app);
    assert_eq!(config.user_agent, "Mine Chrome/9.1");
    assert_eq!(
        config.start_script,
        document_start_script("Mine Chrome/9.1", false)
    );
    assert!(config.start_script.contains("var v = '9';"));
    assert_eq!(config.proxy_url, None);
    assert!(!config.theme_color);
}

#[test]
fn loading() {
    let (mut window, _) = AppWindow::<u32>::new(&host(), details("chat"));
    window.load_changed(LoadEvent::Other);
    assert!(!window.initial_load_done);
    window.load_changed(LoadEvent::Finished);
    assert!(window.initial_load_done);
    window.load_changed(LoadEvent::Other);
    assert!(window.initial_load_done);
}

#[test]
fn closing() {
    let (mut window, _) = AppWindow::<u32>::new(&host(), details("chat"));
    let mut stored = details("chat");
    stored.title = "Renamed".to_string();
    let outcome = window.close_request(Some(stored), (1024, 768), true);
    assert_eq!(outcome.action, CloseAction::Close);
    let saved = outcome.save.unwrap();
    assert_eq!(saved.title, "Renamed");
    assert_eq!(
        (saved.window_width, saved.window_height, saved.window_maximize),
        (1024, 768, true)
    );

    // Reopened, the window has the size that it had
    let (_, setup) = AppWindow::<u32>::new(&host(), saved);
    assert_eq!((setup.width, setup.height, setup.maximize), (1024, 768, true));
    assert_eq!(setup.title, "Renamed");

    window.details.run_in_background = true;
    let outcome = window.close_request(None, (1, 1), false);
    assert!(outcome.save.is_none());
    assert_eq!(outcome.action, CloseAction::Hide);
}

#[test]
fn notifications() {
    let (mut window, _) = AppWindow::<u32>::new(&host(), details("chat"));
    let desktop = window
        .show_notification(true, Some("Hello".to_string()), None, 1)
        .unwrap();
    assert_eq!(desktop.title, "Hello");
    assert_eq!(desktop.body, "");
    assert_eq!(desktop.action, "app.open-app");
    assert_eq!(desktop.target, "chat");
    assert!(window.show_notification(false, None, None, 2).is_none());
    assert_eq!(window.pending_notifications, vec![1]);
    let desktop = window
        .show_notification(true, None, Some("Body".to_string()), 3)
        .unwrap();
    assert_eq!(desktop.title, "");
    assert_eq!(desktop.body, "Body");
    assert_eq!(window.activate_pending_notifications(), vec![1, 3]);
    assert!(window.pending_notifications.is_empty());
    assert!(window.activate_pending_notifications().is_empty());
}

#[test]
fn latest_notifications_wait() {
    let (mut window, _) = AppWindow::<u32>::new(&host(), details("chat"));
    for n in 0..9 {
        window.show_notification(true, None, None, n);
    }
    assert_eq!(window.pending_notifications.len(), 9);
    for n in 9..14 {
        window.show_notification(true, None, None, n);
        assert_eq!(window.pending_notifications.len(), 9);
    }
    assert_eq!(
        window.activate_pending_notifications(),
        (5..14).collect::<Vec<u32>>()
    );
}

#[test]
fn moving_through_history() {
    let (window, _) = AppWindow::<u32>::new(&host(), details("chat"));
    assert_eq!(names(&window.go_back()), vec!["back", "buttons"]);
    assert_eq!(names(&window.go_forward()), vec!["forward", "buttons"]);
    assert_eq!(names(&pressed_steps(8)), vec!["claim", "back", "buttons"]);
    assert_eq!(names(&pressed_steps(9)), vec!["claim", "forward", "buttons"]);
    assert!(pressed_steps(1).is_empty());
}

#[test]
fn actions() {
    let steps = |name: &str| action_steps(name, "https://home/").map(|s| names(&s));
    let listed = action_names();
    assert_eq!(
        listed,
        vec![
            "forward",
            "back",
            "reload",
            "reload-bypass-cache",
            "stop",
            "go-home",
            "zoom-in",
            "zoom-out",
            "zoom-reset"
        ]
    );
    assert!(listed.iter().all(|name| steps(name).is_some()));
    assert_eq!(steps("forward").unwrap(), vec!["forward", "buttons"]);
    assert_eq!(steps("back").unwrap(), vec!["back", "buttons"]);
    assert_eq!(steps("reload").unwrap(), vec!["reload"]);
    assert_eq!(steps("reload-bypass-cache").unwrap(), vec!["reload all"]);
    assert_eq!(steps("stop").unwrap(), vec!["stop"]);
    assert_eq!(steps("go-home").unwrap(), vec!["load https://home/"]);
    assert_eq!(steps("zoom-in").unwrap(), vec!["in"]);
    assert_eq!(steps("zoom-out").unwrap(), vec!["out"]);
    assert_eq!(steps("zoom-reset").unwrap(), vec!["reset"]);
    assert_eq!(steps("quit"), None);
}

#[test]
fn navigation_buttons() {
    let some = |s: &str| Some(s.to_string());
    let history = |uri: Option<String>, back: Option<String>, forward: Option<String>| History {
        uri,
        back_uri: back,
        forward_uri: forward,
        back_len: 1,
        forward_len: 1,
        can_go_back: true,
        can_go_forward: false,
    };
    let buttons = |back: bool, forward: bool| NavButtons { back, forward };

    // Already one step back: the page just left lies ahead, one fewer lies behind
    let mut h = history(some("a"), some("a"), some("c"));
    assert_eq!(update_nav_buttons(&h), buttons(false, true));
    h.back_len = 2;
    h.forward_len = 0;
    assert_eq!(update_nav_buttons(&h), buttons(true, true));

    // Already one step forward: the page just left lies behind, one fewer lies ahead
    let mut h = history(some("c"), some("a"), some("c"));
    assert_eq!(update_nav_buttons(&h), buttons(true, false));
    h.back_len = 0;
    h.forward_len = 2;
    assert_eq!(update_nav_buttons(&h), buttons(true, true));

    // At the current entry, or elsewhere
    let h = history(some("b"), some("a"), some("c"));
    assert_eq!(update_nav_buttons(&h), buttons(true, false));
    let h = history(some("b"), None, None);
    assert_eq!(update_nav_buttons(&h), buttons(true, false));

    // A view without an address goes by the lengths of the list
    let mut h = history(None, None, None);
    h.back_len = 0;
    h.forward_len = 0;
    h.can_go_back = false;
    assert_eq!(update_nav_buttons(&h), buttons(true, true));
    h.forward_uri = some("c");
    h.forward_len = 1;
    assert_eq!(update_nav_buttons(&h), buttons(true, false));
    h.back_len = 1;
    assert_eq!(update_nav_buttons(&h), buttons(false, false));
    let mut h = history(None, some("a"), None);
    assert_eq!(update_nav_buttons(&h), buttons(false, false));
    h.forward_len = 0;
    assert_eq!(update_nav_buttons(&h), buttons(false, true));
    let h = history(None, some("a"), some("c"));
    assert_eq!(update_nav_buttons(&h), buttons(true, false));
}

#[test]
fn buttons_follow_the_view() {
    let entries = ["a", "b", "c", "d"];
    let entry = |i: usize| entries.get(i).map(|s| s.to_string());
    for current in 0..entries.len() {
        for at in current.saturating_sub(1)..(current + 2).min(entries.len()) {
            let history = History {
                uri: entry(at),
                back_uri: current.checked_sub(1).and_then(entry),
                forward_uri: entry(current + 1),
                back_len: current,
                forward_len: entries.len() - current - 1,
                can_go_back: current > 0,
                can_go_forward: current + 1 < entries.len(),
            };
            let expected = NavButtons {
                back: at > 0,
                forward: at + 1 < entries.len(),
            };
            assert_eq!(update_nav_buttons(&history), expected);
        }
    }
}

#[test]
fn the_window_consults_its_own_settings() {
    let (mut window, _) = AppWindow::<u32>::new(&host(), details("chat"));
    let outside = || PolicyRequest::Navigation {
        uri: Some("https://elsewhere.org/".to_string()),
    };
    assert!(matches!(window.policy(outside()), (PolicyAction::Proceed, true)));
    window.load_changed(LoadEvent::Finished);
    assert!(matches!(
        window.policy(outside()),
        (PolicyAction::OpenExternally { .. }, false)
    ));
    assert!(matches!(
        window.popup(Some("https://chat.example.com/x".to_string()), true),
        PopupAction::Show(_)
    ));
    assert!(matches!(
        window.popup(Some("https://elsewhere.org/".to_string()), true),
        PopupAction::OpenExternally { .. }
    ));
    window.details.allowed_domains = None;
    assert!(matches!(window.policy(outside()), (PolicyAction::Proceed, true)));

    assert_eq!(
        names(&window.action("go-home").unwrap()),
        vec!["load https://chat.example.com/"]
    );
    assert!(window.action("quit").is_none());

    let request = PermissionRequest::UserMedia {
        audio: false,
        video: true,
    };
    match window.permission_request(&request, Some("https://example.com/x")) {
        RequestStep::LookUp(lookup) => {
            assert_eq!(lookup.app, "chat");
            assert_eq!(lookup.origin, "https://example.com");
            assert_eq!(lookup.kinds, vec!["camera"]);
        }
        _ => panic!("nothing is looked up"),
    }
    let key = window
        .query_permission_state(&[], Some("video"), Some("https://example.com/x"))
        .unwrap();
    assert_eq!((key.app.as_str(), key.kind), ("chat", "camera"));
    assert_eq!(key.origin, "https://example.com");
}

#[test]
fn colors() {
    assert_eq!(
        format_css("x", "red", "blue"),
        "window#sx {\n    background: red;\n    color: blue;\n}"
    );
    assert_eq!(widget_name("x"), "sx");
    let css = |brightness: Option<Brightness>| {
        stylesheet(
            "x",
            &Some(Background {
                color: "#abc".to_string(),
                brightness,
            }),
        )
    };
    assert_eq!(css(Some(Brightness::Light)), format_css("x", "#abc", "black"));
    assert_eq!(css(Some(Brightness::Dark)), format_css("x", "#abc", "white"));
    assert_eq!(css(None), format_css("x", "#abc", "@window_fg_color"));
    assert_eq!(
        stylesheet("x", &None),
        format_css("x", "@window_bg_color", "@window_fg_color")
    );
    let (window, _) = AppWindow::<u32>::new(&host(), details("x"));
    assert_eq!(window.load_colors(&None), stylesheet("x", &None));
    assert!(css(None).starts_with(&format!("window#{} {{", widget_name("x"))));
    assert_eq!(theme_color("null".to_string()), None);
    assert_eq!(theme_color("#fff".to_string()), Some("#fff".to_string()));
    assert_eq!(theme_color("".to_string()), Some("".to_string()));
}

#[test]
fn paths() {
    let std_join = |base: &str, component: &str| {
        std::path::Path::new(base)
            .join(component)
            .to_str()
            .unwrap()
            .to_string()
    };
    for base in ["", "/", "/a", "/a/", "a", "a//"] {
        for component in ["", "b", "/b", "b/c", "/", "..", "b/"] {
            assert_eq!(join_path(base, component), std_join(base, component));
        }
    }
    let layout = storage_layout("/data", "/cache", "spider", "chat");
    assert_eq!(layout.data_dir, "/data/spider/chat");
    assert_eq!(layout.cache_dir, "/cache/spider/chat");
    assert_eq!(layout.session_dir, "/data/spider/chat/data");
    assert_eq!(layout.cookie_file, "/data/spider/chat/cookie");
    let other = storage_layout("/data", "/cache", "spider", "mail");
    assert_ne!(layout.data_dir, other.data_dir);
    assert_ne!(layout.cache_dir, other.cache_dir);
    assert_ne!(layout.session_dir, other.session_dir);
    assert_ne!(layout.cookie_file, other.cookie_file);
}
