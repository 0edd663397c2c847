use spider_window::policy::{
    create_popup, decide_by, decide_policy, popup_by, popup_title, PolicyAction, PolicyRequest,
    PopupAction, ResponseHeaders,
};

const INSIDE: &str = "https://app.example.com/";
const OUTSIDE: &str = "https://elsewhere.org/page";

fn restriction() -> Option<Vec<String>> {
    Some(vec!["example.com".to_string()])
}

fn navigation(uri: &str) -> PolicyRequest {
    PolicyRequest::Navigation {
        uri: Some(uri.to_string()),
    }
}

fn response(showable: Option<bool>) -> PolicyRequest {
    PolicyRequest::Response {
        headers: Some(ResponseHeaders { showable }),
    }
}

fn opened(outcome: (PolicyAction, bool)) -> String {
    assert!(!outcome.1);
    match outcome.0 {
        PolicyAction::OpenExternally { uri } => uri,
        _ => panic!("not opened externally"),
    }
}

fn proceeds(outcome: (PolicyAction, bool)) {
    assert!(outcome.1);
    assert!(matches!(outcome.0, PolicyAction::Proceed));
}

#[test]
fn first_navigation_is_allowed() {
    proceeds(decide_policy(&restriction(), false, navigation(OUTSIDE)));
    proceeds(decide_policy(&restriction(), false, navigation("no url")));
}

#[test]
fn navigation_is_kept_inside() {
    proceeds(decide_policy(&restriction(), true, navigation(INSIDE)));
    proceeds(decide_policy(&restriction(), true, navigation("about:blank")));
    assert_eq!(
        opened(decide_policy(&restriction(), true, navigation(OUTSIDE))),
        OUTSIDE
    );
    assert_eq!(
        opened(decide_policy(&restriction(), true, navigation("no url"))),
        "no url"
    );
    proceeds(decide_policy(&None, true, navigation(OUTSIDE)));
    proceeds(decide_policy(
        &restriction(),
        true,
        PolicyRequest::Navigation { uri: None },
    ));
}

#[test]
fn new_windows_open_externally() {
    for uri in [INSIDE, OUTSIDE] {
        for done in [false, true] {
            let request = PolicyRequest::NewWindow {
                uri: Some(uri.to_string()),
            };
            assert_eq!(opened(decide_policy(&restriction(), done, request)), uri);
        }
    }
    proceeds(decide_policy(
        &None,
        true,
        PolicyRequest::NewWindow { uri: None },
    ));
}

#[test]
fn what_cannot_be_shown_is_downloaded() {
    for showable in [None, Some(false)] {
        let (action, handled) = decide_policy(&None, true, response(showable));
        assert!(matches!(action, PolicyAction::Download));
        assert!(handled);
    }
    proceeds(decide_policy(&None, true, response(Some(true))));
    proceeds(decide_policy(
        &None,
        true,
        PolicyRequest::Response { headers: None },
    ));
    proceeds(decide_policy(&restriction(), true, PolicyRequest::Other));
}

#[test]
fn decisions_by_a_known_restriction() {
    proceeds(decide_by(navigation(OUTSIDE), true, true));
    proceeds(decide_by(navigation(OUTSIDE), false, false));
    assert_eq!(opened(decide_by(navigation(INSIDE), true, false)), INSIDE);
}

#[test]
fn popups() {
    let inside = || Some(INSIDE.to_string());
    let outside = || Some(OUTSIDE.to_string());
    match create_popup(&restriction(), inside(), true) {
        PopupAction::Show(window) => {
            assert_eq!((window.width, window.height), (640, 480));
            assert_eq!(window.title, "Pop Up");
        }
        _ => panic!("not shown"),
    }
    for attached in [false, true] {
        match create_popup(&restriction(), outside(), attached) {
            PopupAction::OpenExternally { uri } => assert_eq!(uri, OUTSIDE),
            _ => panic!("not opened externally"),
        }
        assert!(matches!(
            create_popup(&restriction(), None, attached),
            PopupAction::Suppress
        ));
    }
    assert!(matches!(
        create_popup(&restriction(), inside(), false),
        PopupAction::Suppress
    ));
    assert!(matches!(
        create_popup(&None, outside(), true),
        PopupAction::Show(_)
    ));
    assert!(matches!(popup_by(outside(), true, true), PopupAction::Show(_)));
    assert!(matches!(
        popup_by(inside(), false, true),
        PopupAction::OpenExternally { .. }
    ));
}

#[test]
fn popup_titles() {
    assert_eq!(popup_title(Some("Sign in".to_string())), "Sign in");
    assert_eq!(popup_title(None), "Pop Up");
}
