//! Navigation policy: what stays in the window, what goes to the system browser, what is
//! downloaded, and which pop ups are shown.

use vstd::prelude::*;
use vstd::string::*;

use crate::domains;
use crate::domains::uri_allowed;
use crate::text;

verus! {

/// What is known of the headers of an HTTP response.
#[derive(Clone, Copy)]
pub struct ResponseHeaders {
    /// Whether the view can show the declared content type, if one is declared.
    pub showable: Option<bool>,
}

/// A decision that the web engine asks for.
pub enum PolicyRequest {
    /// Something targets a new window.
    NewWindow { uri: Option<String> },
    /// The window is about to navigate.
    Navigation { uri: Option<String> },
    /// A response has come, with headers if it is an HTTP response.
    Response { headers: Option<ResponseHeaders> },
    /// Anything else.
    Other,
}

/// What is done about it.
pub enum PolicyAction {
    /// Nothing: the web engine goes on.
    Proceed,
    /// The address is opened in the system browser and ignored here.
    OpenExternally { uri: String },
    /// The response is downloaded.
    Download,
}

/// What `PolicyAction` holds, as mathematical values.
pub enum ActionView {
    Proceed,
    OpenExternally { uri: Seq<char> },
    Download,
}

impl View for PolicyAction {
    type V = ActionView;

    open spec fn view(&self) -> ActionView {
        match self {
            PolicyAction::Proceed => ActionView::Proceed,
            PolicyAction::OpenExternally { uri } => ActionView::OpenExternally { uri: uri@ },
            PolicyAction::Download => ActionView::Download,
        }
    }
}

/// The address that a policy request is about.
pub open spec fn request_uri(request: PolicyRequest) -> Option<Seq<char>> {
    match request {
        PolicyRequest::NewWindow { uri } => text::text_option(uri),
        PolicyRequest::Navigation { uri } => text::text_option(uri),
        _ => None,
    }
}

/// What is done about a policy request, where `permitted` says whether the domain
/// restriction lets its address in.
pub open spec fn policy_action(
    request: PolicyRequest,
    initial_load_done: bool,
    permitted: bool,
) -> ActionView {
    match request {
        PolicyRequest::NewWindow { uri } => match uri {
            Some(uri) => ActionView::OpenExternally { uri: uri@ },
            None => ActionView::Proceed,
        },
        PolicyRequest::Navigation { uri } => match uri {
            Some(uri) => if initial_load_done && !permitted {
                ActionView::OpenExternally { uri: uri@ }
            } else {
                ActionView::Proceed
            },
            None => ActionView::Proceed,
        },
        PolicyRequest::Response { headers } => match headers {
            Some(headers) => if headers.showable == Some(true) {
                ActionView::Proceed
            } else {
                ActionView::Download
            },
            None => ActionView::Proceed,
        },
        PolicyRequest::Other => ActionView::Proceed,
    }
}

/// Whether a policy request's address, if it has one, is let in by a domain restriction.
pub open spec fn request_permitted(
    restriction: Option<Seq<Seq<char>>>,
    request: PolicyRequest,
) -> bool {
    match request_uri(request) {
        Some(uri) => domains::uri_permitted(restriction, uri),
        None => true,
    }
}

/// What to do about a policy request, and what to report to the web engine: `false` where
/// the address went to the system browser.
pub fn decide_by(request: PolicyRequest, initial_load_done: bool, permitted: bool) -> (outcome: (
    PolicyAction,
    bool,
))
    ensures
        outcome.0@ == policy_action(request, initial_load_done, permitted),
        outcome.1 == !(outcome.0 is OpenExternally),
{
    match request {
        PolicyRequest::NewWindow { uri } => {
            // Open anything targeting a new window in the system browser instead
            match uri {
                Some(uri) => (PolicyAction::OpenExternally { uri }, false),
                None => (PolicyAction::Proceed, true),
            }
        },
        PolicyRequest::Navigation { uri } => {
            // Domain restriction: keep the app inside its own domains, everything else is
            // handed to the system browser. The very first navigation (the app's start page)
            // is always allowed.
            match uri {
                Some(uri) => {
                    if initial_load_done && !permitted {
                        (PolicyAction::OpenExternally { uri }, false)
                    } else {
                        (PolicyAction::Proceed, true)
                    }
                },
                None => (PolicyAction::Proceed, true),
            }
        },
        PolicyRequest::Response { headers } => {
            match headers {
                Some(headers) => match headers.showable {
                    Some(true) => (PolicyAction::Proceed, true),
                    _ => (PolicyAction::Download, true),
                },
                None => (PolicyAction::Proceed, true),
            }
        },
        PolicyRequest::Other => (PolicyAction::Proceed, true),
    }
}

/// What to do about a policy request of an app with this domain restriction, and what to
/// report to the web engine: `false` where the address went to the system browser.
pub fn decide_policy(
    allowed_domains: &Option<Vec<String>>,
    initial_load_done: bool,
    request: PolicyRequest,
) -> (outcome: (PolicyAction, bool))
    ensures
        outcome.0@ == policy_action(
            request,
            initial_load_done,
            request_permitted(domains::domain_list(*allowed_domains), request),
        ),
        outcome.1 == !(outcome.0 is OpenExternally),
{
    let permitted: bool = match &request {
        PolicyRequest::Navigation { uri: Some(uri) } => uri_allowed(allowed_domains, uri.as_str()),
        _ => true,
    };
    decide_by(request, initial_load_done, permitted)
}

/// A window for a pop up, before it is filled.
pub struct PopupWindow {
    pub width: i32,
    pub height: i32,
    pub title: &'static str,
}

/// What is done about a page that opens a pop up.
pub enum PopupAction {
    /// No pop up is shown.
    Suppress,
    /// No pop up is shown; the address is opened in the system browser.
    OpenExternally { uri: String },
    /// The pop up is shown in a window of its own, above the app's window.
    Show(PopupWindow),
}

/// What `PopupAction` holds, as mathematical values.
pub enum PopupView {
    Suppress,
    OpenExternally { uri: Seq<char> },
    Show { width: i32, height: i32, title: Seq<char> },
}

impl View for PopupAction {
    type V = PopupView;

    open spec fn view(&self) -> PopupView {
        match self {
            PopupAction::Suppress => PopupView::Suppress,
            PopupAction::OpenExternally { uri } => PopupView::OpenExternally { uri: uri@ },
            PopupAction::Show(window) => PopupView::Show {
                width: window.width,
                height: window.height,
                title: window.title@,
            },
        }
    }
}

/// What is done about a pop up, where `permitted` says whether the domain restriction lets
/// its address in and `attached` whether the app's window is still there and belongs to a
/// running application.
pub open spec fn popup_action(uri: Option<Seq<char>>, permitted: bool, attached: bool) -> PopupView {
    match uri {
        Some(uri) => if !permitted {
            PopupView::OpenExternally { uri }
        } else if attached {
            PopupView::Show { width: 640, height: 480, title: "Pop Up"@ }
        } else {
            PopupView::Suppress
        },
        None => PopupView::Suppress,
    }
}

/// What to do about a pop up whose address the domain restriction lets in or not.
pub fn popup_by(uri: Option<String>, permitted: bool, attached: bool) -> (action: PopupAction)
    ensures
        action@ == popup_action(text::text_option(uri), permitted, attached),
{
    match uri {
        None => PopupAction::Suppress,
        Some(uri) => {
            if !permitted {
                // Restricted app trying to pop up an outside page: hand it to the system
                // browser and suppress the pop up here
                PopupAction::OpenExternally { uri }
            } else if attached {
                PopupAction::Show(PopupWindow { width: 640, height: 480, title: "Pop Up" })
            } else {
                PopupAction::Suppress
            }
        },
    }
}

/// What to do about a pop up of an app with this domain restriction.
pub fn create_popup(
    allowed_domains: &Option<Vec<String>>,
    uri: Option<String>,
    attached: bool,
) -> (action: PopupAction)
    ensures
        action@ == popup_action(
            text::text_option(uri),
            text::text_option(uri) matches Some(u) && domains::uri_permitted(
                domains::domain_list(*allowed_domains),
                u,
            ),
            attached,
        ),
{
    let permitted: bool = match &uri {
        Some(uri) => uri_allowed(allowed_domains, uri.as_str()),
        None => false,
    };
    popup_by(uri, permitted, attached)
}

/// The title of a pop up's window: the document's, if it has one.
pub fn popup_title(document_title: Option<String>) -> (title: String)
    ensures
        title@ == (match document_title {
            Some(document_title) => document_title@,
            None => "Pop Up"@,
        }),
{
    match document_title {
        Some(title) => title,
        None => "Pop Up".to_owned(),
    }
}

/// The very first navigation is always allowed, whatever the domain restriction.
pub proof fn law_first_navigation_proceeds(
    restriction: Option<Seq<Seq<char>>>,
    request: PolicyRequest,
)
    requires
        request is Navigation,
    ensures
        policy_action(request, false, request_permitted(restriction, request))
            == ActionView::Proceed,
{
}

/// Once the start page is there, the app stays inside its domains: a navigation goes on in
/// the window exactly where the restriction lets its address in, and is otherwise handed to
/// the system browser as it is.
pub proof fn law_navigation_kept_inside(
    restriction: Option<Seq<Seq<char>>>,
    request: PolicyRequest,
    uri: Seq<char>,
)
    requires
        request is Navigation,
        request_uri(request) == Some(uri),
    ensures
        policy_action(request, true, request_permitted(restriction, request)) == (
        if domains::uri_permitted(restriction, uri) {
            ActionView::Proceed
        } else {
            ActionView::OpenExternally { uri }
        }),
{
}

/// Anything that targets a new window is opened in the system browser, even inside the
/// app's own domains.
pub proof fn law_new_windows_open_externally(
    request: PolicyRequest,
    initial_load_done: bool,
    permitted: bool,
    uri: Seq<char>,
)
    requires
        request is NewWindow,
        request_uri(request) == Some(uri),
    ensures
        policy_action(request, initial_load_done, permitted) == (ActionView::OpenExternally {
            uri,
        }),
{
}

/// An HTTP response is downloaded exactly where it does not declare a content type that the
/// view can show, and nothing else is.
pub proof fn law_downloads_what_cannot_be_shown(
    request: PolicyRequest,
    initial_load_done: bool,
    permitted: bool,
)
    ensures
        policy_action(request, initial_load_done, permitted) is Download <==> (
        request matches PolicyRequest::Response { headers: Some(headers) } && headers.showable
            != Some(true)),
{
}

/// A pop up is shown only where the domain restriction lets its address in; an address that
/// it keeps out goes to the system browser, whether or not the app's window is still there.
pub proof fn law_popups_kept_inside(
    restriction: Option<Seq<Seq<char>>>,
    uri: Seq<char>,
    attached: bool,
)
    ensures
        popup_action(Some(uri), domains::uri_permitted(restriction, uri), attached) is Show <==>
            domains::uri_permitted(restriction, uri) && attached,
        popup_action(Some(uri), domains::uri_permitted(restriction, uri), attached) == (
        PopupView::OpenExternally { uri }) <==> !domains::uri_permitted(restriction, uri),
{
}

/// Without a domain restriction no navigation and no pop up leaves for the system browser.
pub proof fn law_unrestricted_app_keeps_navigations(
    request: PolicyRequest,
    initial_load_done: bool,
    uri: Option<Seq<char>>,
    attached: bool,
)
    requires
        request is Navigation,
    ensures
        policy_action(request, initial_load_done, request_permitted(None, request))
            == ActionView::Proceed,
        !(popup_action(
            uri,
            uri matches Some(u) && domains::uri_permitted(None, u),
            attached,
        ) is OpenExternally),
{
}

/// Only a navigation or a new window with an address is ever opened in the system browser,
/// and then with that very address: a new window always, a navigation exactly where the start
/// page has loaded and the restriction keeps its address out.
pub proof fn law_only_own_address_opened(
    request: PolicyRequest,
    initial_load_done: bool,
    permitted: bool,
)
    ensures
        policy_action(request, initial_load_done, permitted) matches ActionView::OpenExternally {
            uri,
        } ==> request_uri(request) == Some(uri),
        request matches PolicyRequest::NewWindow { uri: Some(uri) } ==> policy_action(
            request,
            initial_load_done,
            permitted,
        ) == (ActionView::OpenExternally { uri: uri@ }),
        request matches PolicyRequest::Navigation { uri: Some(uri) } ==> (policy_action(
            request,
            initial_load_done,
            permitted,
        ) == (ActionView::OpenExternally { uri: uri@ }) <==> initial_load_done && !permitted),
        request_uri(request) is None ==> !(policy_action(request, initial_load_done, permitted)
            is OpenExternally),
        request_uri(request) == (match request {
            PolicyRequest::NewWindow { uri: Some(uri) } => Some(uri@),
            PolicyRequest::Navigation { uri: Some(uri) } => Some(uri@),
            _ => None,
        }),
{
}

/// What becomes of a response, or of anything else that is no navigation, depends neither on
/// how far the start page has loaded nor on the restriction; a response whose content type
/// the view can show is always shown, and so is one that is not HTTP.
pub proof fn law_responses_judged_alone(
    request: PolicyRequest,
    done: bool,
    permitted: bool,
    other_done: bool,
    other_permitted: bool,
)
    ensures
        !(request is Navigation) ==> policy_action(request, done, permitted) == policy_action(
            request,
            other_done,
            other_permitted,
        ),
        request matches PolicyRequest::Response { headers: Some(headers) } ==> (
        headers.showable == Some(true) <==> policy_action(request, done, permitted) is Proceed),
        request matches PolicyRequest::Response { headers: None } ==> policy_action(
            request,
            done,
            permitted,
        ) is Proceed,
        request is Other ==> policy_action(request, done, permitted) is Proceed,
{
}

/// A request is opened in the system browser exactly where it targets a new window or is a
/// navigation that is kept out, and then as it is; it is downloaded exactly where it is an
/// HTTP response that cannot be shown; and `false` is reported exactly where the system
/// browser is opened.
pub proof fn law_decision(
    request: PolicyRequest,
    initial_load_done: bool,
    permitted: bool,
    outcome: (PolicyAction, bool),
)
    requires
        call_ensures(decide_by, (request, initial_load_done, permitted), outcome),
    ensures
        outcome.0 matches PolicyAction::OpenExternally { uri } ==> match request {
            PolicyRequest::NewWindow { uri: Some(own) } => uri@ == own@,
            PolicyRequest::Navigation { uri: Some(own) } => uri@ == own@,
            _ => false,
        },
        outcome.0 is OpenExternally <==> match request {
            PolicyRequest::NewWindow { uri } => uri is Some,
            PolicyRequest::Navigation { uri } => uri is Some && initial_load_done && !permitted,
            _ => false,
        },
        outcome.0 is Download <==> (request matches PolicyRequest::Response {
            headers: Some(headers),
        } && headers.showable != Some(true)),
        outcome.1 <==> !(outcome.0 is OpenExternally),
{
}

/// An app with a restriction goes on to an address exactly as `uri_permitted` says once its
/// start page has loaded, and to any address before; whatever leaves for the system browser
/// leaves with its own address, and nothing but an HTTP response that cannot be shown is
/// downloaded.
pub proof fn law_policy_of_app(
    allowed_domains: &Option<Vec<String>>,
    initial_load_done: bool,
    request: PolicyRequest,
    outcome: (PolicyAction, bool),
)
    requires
        call_ensures(decide_policy, (allowed_domains, initial_load_done, request), outcome),
    ensures
        outcome.0 matches PolicyAction::OpenExternally { uri } ==> match request {
            PolicyRequest::NewWindow { uri: Some(own) } => uri@ == own@,
            PolicyRequest::Navigation { uri: Some(own) } => uri@ == own@,
            _ => false,
        },
        outcome.0 is OpenExternally <==> match request {
            PolicyRequest::NewWindow { uri } => uri is Some,
            PolicyRequest::Navigation { uri } => uri is Some && initial_load_done
                && !domains::uri_permitted(
                domains::domain_list(*allowed_domains),
                uri.unwrap()@,
            ),
            _ => false,
        },
        outcome.0 is Download <==> (request matches PolicyRequest::Response {
            headers: Some(headers),
        } && headers.showable != Some(true)),
        outcome.1 <==> !(outcome.0 is OpenExternally),
{
}

/// A navigation is decided by what `uri_allowed` says of its address: it leaves the window
/// exactly where the start page has loaded and the address is not allowed.
pub proof fn law_policy_follows_uri_allowed(
    allowed_domains: &Option<Vec<String>>,
    initial_load_done: bool,
    uri: String,
    address: &str,
    permitted: bool,
    outcome: (PolicyAction, bool),
)
    requires
        address@ == uri@,
        call_ensures(uri_allowed, (allowed_domains, address), permitted),
        call_ensures(
            decide_policy,
            (allowed_domains, initial_load_done, PolicyRequest::Navigation { uri: Some(uri) }),
            outcome,
        ),
    ensures
        outcome.1 <==> !initial_load_done || permitted,
        outcome.1 ==> outcome.0 is Proceed,
        !outcome.1 ==> (outcome.0 matches PolicyAction::OpenExternally { uri: opened }
            && opened@ == uri@),
{
}

/// A pop up is shown only with an address that is let in, above a window of a running
/// application, and then at its first size and title; an address that is kept out is opened
/// in the system browser as it is; and anything else shows nothing.
pub proof fn law_popup_by_its_address(
    uri: Option<String>,
    permitted: bool,
    attached: bool,
    action: PopupAction,
)
    requires
        call_ensures(popup_by, (uri, permitted, attached), action),
    ensures
        action is Show <==> uri is Some && permitted && attached,
        action is OpenExternally <==> uri is Some && !permitted,
        action matches PopupAction::OpenExternally { uri: opened } ==> opened@ == uri.unwrap()@,
        action matches PopupAction::Show(window) ==> window.width == 640 && window.height == 480
            && window.title@ == "Pop Up"@,
{
}

/// A pop up of an app is decided by what `uri_allowed` says of its address.
pub proof fn law_popup_follows_uri_allowed(
    allowed_domains: &Option<Vec<String>>,
    uri: String,
    address: &str,
    permitted: bool,
    attached: bool,
    action: PopupAction,
)
    requires
        address@ == uri@,
        call_ensures(uri_allowed, (allowed_domains, address), permitted),
        call_ensures(create_popup, (allowed_domains, Some(uri), attached), action),
    ensures
        action is Show <==> permitted && attached,
        action is OpenExternally <==> !permitted,
        action matches PopupAction::OpenExternally { uri: opened } ==> opened@ == uri@,
        action matches PopupAction::Show(window) ==> window.width == 640 && window.height == 480
            && window.title@ == "Pop Up"@,
{
}

/// A pop up without an address is not shown and opens nothing, whatever the restriction.
pub proof fn law_popup_without_address(
    allowed_domains: &Option<Vec<String>>,
    attached: bool,
    action: PopupAction,
)
    requires
        call_ensures(create_popup, (allowed_domains, None, attached), action),
    ensures
        action is Suppress,
{
}

/// The window of a pop up follows the document's title, and as long as the document has none
/// it keeps the title that it was opened with.
pub proof fn law_popup_title_follows_document(
    uri: Option<String>,
    action: PopupAction,
    document_title: Option<String>,
    title: String,
)
    requires
        call_ensures(popup_by, (uri, true, true), action),
        uri is Some,
        call_ensures(popup_title, (document_title,), title),
    ensures
        document_title is Some ==> title@ == document_title.unwrap()@,
        document_title is None ==> (action matches PopupAction::Show(window) && title@
            == window.title@),
{
}

} // verus!
