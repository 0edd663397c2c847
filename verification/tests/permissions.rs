use spider_window::permissions::{
    answer_query, normalize_permission_name, permission_kinds, permission_request,
    query_at_origin, query_permission_state, request_at_origin, settle_request, PermissionKey,
    PermissionLookup, PermissionRequest, PermissionState, RequestStep,
};
use std::collections::HashMap;

const TABLE: [(&str, &str); 4] = [
    ("notifications", "Notifications"),
    ("geolocation", "Location"),
    ("microphone", "Microphone"),
    ("camera", "Camera"),
];

type Store = HashMap<(String, String, String), bool>;

fn stored(key: &PermissionKey) -> (String, String, String) {
    (key.app.clone(), key.origin.clone(), key.kind.to_string())
}

fn other(class: &str) -> PermissionRequest {
    PermissionRequest::Other {
        class: class.to_string(),
    }
}

fn lookup(step: RequestStep) -> PermissionLookup {
    match step {
        RequestStep::LookUp(lookup) => lookup,
        _ => panic!("nothing is looked up"),
    }
}

fn both() -> PermissionRequest {
    PermissionRequest::UserMedia {
        audio: true,
        video: true,
    }
}

#[test]
fn names_of_the_web_engine() {
    assert_eq!(
        normalize_permission_name(&TABLE, Some("audio-capture")),
        Some("microphone")
    );
    assert_eq!(
        normalize_permission_name(&TABLE, Some("my-video")),
        Some("camera")
    );
    assert_eq!(
        normalize_permission_name(&TABLE, Some("video-and-audio")),
        Some("microphone")
    );
    assert_eq!(
        normalize_permission_name(&TABLE, Some("geolocation")),
        Some("geolocation")
    );
    assert_eq!(
        normalize_permission_name(&TABLE, Some("camera")),
        Some("camera")
    );
    assert_eq!(normalize_permission_name(&TABLE, Some("Geolocation")), None);
    assert_eq!(normalize_permission_name(&TABLE, Some("midi")), None);
    assert_eq!(normalize_permission_name(&TABLE, Some("")), None);
    assert_eq!(normalize_permission_name(&TABLE, None), None);
    assert_eq!(
        normalize_permission_name(&[], Some("audio")),
        Some("microphone")
    );
    assert_eq!(normalize_permission_name(&[], Some("camera")), None);
}

#[test]
fn kinds_of_requests() {
    assert_eq!(permission_kinds(&both()), vec!["microphone", "camera"]);
    let only_audio = PermissionRequest::UserMedia {
        audio: true,
        video: false,
    };
    assert_eq!(permission_kinds(&only_audio), vec!["microphone"]);
    let only_video = PermissionRequest::UserMedia {
        audio: false,
        video: true,
    };
    assert_eq!(permission_kinds(&only_video), vec!["camera"]);
    let neither = PermissionRequest::UserMedia {
        audio: false,
        video: false,
    };
    assert!(permission_kinds(&neither).is_empty());
    assert_eq!(
        permission_kinds(&other("WebKitNotificationPermissionRequest")),
        vec!["notifications"]
    );
    assert_eq!(
        permission_kinds(&other("WebKitGeolocationPermissionRequest")),
        vec!["geolocation"]
    );
    assert!(permission_kinds(&other("WebKitPointerLockPermissionRequest")).is_empty());
}

#[test]
fn first_steps() {
    let unknown = other("WebKitPointerLockPermissionRequest");
    assert!(matches!(
        permission_request("app", &unknown, Some("https://example.com/")),
        RequestStep::Unhandled
    ));
    assert!(matches!(
        permission_request("app", &unknown, None),
        RequestStep::Unhandled
    ));
    assert!(matches!(
        permission_request("app", &both(), None),
        RequestStep::Deny
    ));
    assert!(matches!(
        permission_request("app", &both(), Some("about:blank")),
        RequestStep::Deny
    ));
    let found = lookup(permission_request(
        "app",
        &both(),
        Some("https://example.com:8443/call"),
    ));
    assert_eq!(found.app, "app");
    assert_eq!(found.origin, "https://example.com:8443");
    assert_eq!(found.kinds, vec!["microphone", "camera"]);
}

#[test]
fn only_unknown_requests_are_left_to_the_web_engine() {
    let unknown = other("WebKitPointerLockPermissionRequest");
    assert!(!permission_request("app", &unknown, Some("https://example.com/")).handled());
    assert!(permission_request("app", &both(), None).handled());
    assert!(permission_request("app", &both(), Some("https://example.com/")).handled());
}

#[test]
fn keys_of_a_lookup() {
    let found = lookup(request_at_origin(
        "app",
        &both(),
        Some("https://example.com".to_string()),
    ));
    let keys = found.keys();
    assert_eq!(keys.len(), 2);
    assert_eq!(keys[0].app, "app");
    assert_eq!(keys[0].origin, "https://example.com");
    assert_eq!(keys[0].kind, "microphone");
    assert_eq!(keys[1].kind, "camera");
}

#[test]
fn earlier_decisions() {
    assert_eq!(settle_request(&vec![Some(true)]), Some(true));
    assert_eq!(settle_request(&vec![Some(false)]), Some(false));
    assert_eq!(settle_request(&vec![None]), None);
    assert_eq!(settle_request(&vec![Some(true), Some(true)]), Some(true));
    assert_eq!(settle_request(&vec![Some(true), Some(false)]), Some(false));
    assert_eq!(settle_request(&vec![Some(false), Some(true)]), Some(false));
    assert_eq!(settle_request(&vec![Some(true), None]), None);
    assert_eq!(settle_request(&vec![Some(false), None]), None);
    assert_eq!(settle_request(&Vec::new()), Some(true));
}

#[test]
fn question_to_the_user() {
    let found = PermissionLookup {
        app: "app".to_string(),
        origin: "https://example.com".to_string(),
        kinds: vec!["microphone", "camera"],
    };
    let labels = vec!["Microphone".to_string(), "Camera".to_string()];
    let prompt = found.prompt(Some("Chat".to_string()), &labels);
    assert_eq!(prompt.heading, "Allow Chat to use Microphone, Camera?");
    assert_eq!(prompt.body, "https://example.com");
    assert_eq!(prompt.responses, vec![("deny", "Deny"), ("allow", "Allow")]);
    assert_eq!(prompt.destructive, "deny");
    assert_eq!(prompt.default, "allow");
    assert_eq!(
        found.prompt(None, &labels).heading,
        "Allow  to use Microphone, Camera?"
    );
}

#[test]
fn answers_to_the_question() {
    let found = PermissionLookup {
        app: "app".to_string(),
        origin: "https://example.com".to_string(),
        kinds: vec!["microphone", "camera"],
    };
    let allowed = found.answer("allow");
    assert!(allowed.allow);
    assert_eq!(allowed.writes.len(), 2);
    for (write, kind) in allowed.writes.iter().zip(["microphone", "camera"]) {
        assert!(write.allow);
        assert_eq!(write.key.app, "app");
        assert_eq!(write.key.origin, "https://example.com");
        assert_eq!(write.key.kind, kind);
    }
    for response in ["deny", "close", "", "Allow"] {
        let denied = found.answer(response);
        assert!(!denied.allow);
        assert_eq!(denied.writes.len(), 2);
        assert!(denied.writes.iter().all(|w| !w.allow));
    }
}

#[test]
fn an_answer_settles_the_next_request() {
    for (response, decision) in [("allow", true), ("deny", false)] {
        let mut store: Store = HashMap::new();
        store.insert(
            (
                "app".to_string(),
                "https://example.com".to_string(),
                "camera".to_string(),
            ),
            !decision,
        );
        store.insert(
            (
                "other".to_string(),
                "https://example.com".to_string(),
                "camera".to_string(),
            ),
            !decision,
        );
        let ask = || lookup(permission_request("app", &both(), Some("https://example.com/x")));
        let recall = |store: &Store| -> Vec<Option<bool>> {
            ask()
                .keys()
                .iter()
                .map(|key| store.get(&stored(key)).copied())
                .collect()
        };
        assert_eq!(settle_request(&recall(&store)), None);
        for write in ask().answer(response).writes {
            store.insert(stored(&write.key), write.allow);
        }
        assert_eq!(settle_request(&recall(&store)), Some(decision));

        // A query for one of the kinds finds the same answer
        let key =
            query_permission_state("app", &TABLE, Some("audio"), Some("https://example.com/y"))
                .unwrap();
        let expected = if decision {
            PermissionState::Granted
        } else {
            PermissionState::Denied
        };
        assert_eq!(
            answer_query(store.get(&stored(&key)).copied()),
            Some(expected)
        );

        // Another app's decision is left alone
        let foreign =
            query_permission_state("other", &TABLE, Some("camera"), Some("https://example.com/"))
                .unwrap();
        assert_eq!(store.get(&stored(&foreign)), Some(&!decision));
    }
}

#[test]
fn queries() {
    let key = query_permission_state(
        "app",
        &TABLE,
        Some("notifications"),
        Some("http://localhost:3000/"),
    )
    .unwrap();
    assert_eq!(
        stored(&key),
        (
            "app".to_string(),
            "http://localhost:3000".to_string(),
            "notifications".to_string()
        )
    );
    assert!(query_permission_state("app", &TABLE, Some("midi"), Some("https://a.b/")).is_none());
    assert!(query_permission_state("app", &TABLE, None, Some("https://a.b/")).is_none());
    assert!(query_permission_state("app", &TABLE, Some("camera"), None).is_none());
    assert!(
        query_permission_state("app", &TABLE, Some("camera"), Some("about:blank")).is_none()
    );
    assert!(query_at_origin("app", &TABLE, Some("camera"), None).is_none());
    let given = query_at_origin("app", &TABLE, Some("camera"), Some("https://a.b".to_string()));
    assert_eq!(given.unwrap().origin, "https://a.b");
    assert_eq!(answer_query(Some(true)), Some(PermissionState::Granted));
    assert_eq!(answer_query(Some(false)), Some(PermissionState::Denied));
    assert_eq!(answer_query(None), None);
}

#[test]
fn kinds_stay_known() {
    for name in ["audio", "video", "notifications", "geolocation", "x"] {
        if let Some(kind) = normalize_permission_name(&TABLE, Some(name)) {
            assert!(TABLE.iter().any(|(known, _)| *known == kind));
        }
    }
}
