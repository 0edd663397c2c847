//! The window of one web application: what it holds, and what it does about what happens.

use vstd::prelude::*;
use vstd::string::*;

use crate::address;
use crate::details;
use crate::details::AppDetails;
use crate::domains;
use crate::navigation;
use crate::navigation::{action_steps, back_steps, forward_steps, Step};
use crate::permissions;
use crate::permissions::{PermissionKey, PermissionRequest, RequestStep};
use crate::policy;
use crate::policy::{create_popup, decide_policy, PolicyAction, PolicyRequest, PopupAction};
use crate::style;
use crate::style::{stylesheet, widget_name, Background};
use crate::text;
use crate::webview;
use crate::webview::{create_webview, HostEnvironment, WebviewConfig};

verus! {

/// How many notifications may wait before the oldest is dropped for a new one.
pub const PENDING_LIMIT: usize = 8;

/// The window of one web application. `N` is what stands for a web notification of the
/// page.
pub struct AppWindow<N> {
    pub details: AppDetails,
    /// Whether the start page has finished loading. The very first navigation is always
    /// allowed even under domain restriction.
    pub initial_load_done: bool,
    /// Web notifications awaiting a click on their desktop twin, oldest first.
    pub pending_notifications: Vec<N>,
}

/// How a window is shown.
pub struct WindowSetup {
    pub widget_name: String,
    pub title: String,
    pub width: i32,
    pub height: i32,
    pub maximize: bool,
    /// What the view in the window is set up with.
    pub webview: WebviewConfig,
    /// The page that the view loads first.
    pub start_uri: String,
    pub stylesheet: String,
}

/// What `WindowSetup` holds, as mathematical values.
pub struct SetupView {
    pub widget_name: Seq<char>,
    pub title: Seq<char>,
    pub width: i32,
    pub height: i32,
    pub maximize: bool,
    pub webview: webview::ConfigView,
    pub start_uri: Seq<char>,
    pub stylesheet: Seq<char>,
}

impl View for WindowSetup {
    type V = SetupView;

    open spec fn view(&self) -> SetupView {
        SetupView {
            widget_name: self.widget_name@,
            title: self.title@,
            width: self.width,
            height: self.height,
            maximize: self.maximize,
            webview: self.webview@,
            start_uri: self.start_uri@,
            stylesheet: self.stylesheet@,
        }
    }
}

/// How the window of an app is shown.
pub open spec fn window_setup(host: HostEnvironment, app: details::DetailsView) -> SetupView {
    SetupView {
        widget_name: style::widget_name_of(app.id),
        title: app.title,
        width: app.window_width,
        height: app.window_height,
        maximize: app.window_maximize,
        webview: webview::webview_config(host, app),
        start_uri: app.url,
        stylesheet: style::window_css(app.id, None),
    }
}

fn set_up(host: &HostEnvironment, app: &AppDetails) -> (setup: WindowSetup)
    ensures
        setup@ == window_setup(*host, app@),
{
    WindowSetup {
        widget_name: widget_name(app.id.as_str()),
        title: app.title.clone(),
        width: app.window_width,
        height: app.window_height,
        maximize: app.window_maximize,
        webview: create_webview(host, app),
        start_uri: app.url.clone(),
        stylesheet: stylesheet(app.id.as_str(), &None),
    }
}

/// Whether the loading of a page has come to its end.
#[derive(Clone, Copy, PartialEq, Eq, Structural, Debug)]
pub enum LoadEvent {
    Finished,
    Other,
}

/// What becomes of a window that is to be closed.
#[derive(Clone, Copy, PartialEq, Eq, Structural, Debug)]
pub enum CloseAction {
    /// The window is hidden and the app keeps running; reopening it from the launcher
    /// presents this same instance again.
    Hide,
    /// The window is closed.
    Close,
}

/// What is done when a window is to be closed.
pub struct CloseOutcome {
    /// The settings to save, if the app is still known.
    pub save: Option<AppDetails>,
    pub action: CloseAction,
}

/// A notification on the desktop.
pub struct DesktopNotification {
    pub title: String,
    pub body: String,
    /// The action that activating it leads to.
    pub action: &'static str,
    /// What the action is about: the app to open.
    pub target: String,
}

/// What waits once one more notification waits: the oldest makes room where more than the
/// limit were waiting.
pub open spec fn queued<N>(pending: Seq<N>, notification: N) -> Seq<N> {
    if pending.len() > PENDING_LIMIT {
        pending.drop_first().push(notification)
    } else {
        pending.push(notification)
    }
}

/// What waits once several notifications have come, in order.
pub open spec fn queued_all<N>(pending: Seq<N>, notifications: Seq<N>) -> Seq<N>
    decreases notifications.len(),
{
    if notifications.len() == 0 {
        pending
    } else {
        queued(queued_all(pending, notifications.drop_last()), notifications.last())
    }
}

/// A missing text is empty.
pub open spec fn or_empty(string: Option<Seq<char>>) -> Seq<char> {
    match string {
        Some(s) => s,
        None => Seq::empty(),
    }
}

fn unwrap_or_empty(string: Option<String>) -> (result: String)
    ensures
        result@ == or_empty(text::text_option(string)),
{
    match string {
        Some(s) => s,
        None => String::new(),
    }
}

impl<N> AppWindow<N> {
    /// What holds of every window: the list of waiting notifications is bounded.
    pub open spec fn well_formed(self) -> bool {
        self.pending_notifications@.len() <= PENDING_LIMIT + 1
    }

    /// A window for an app, and how it is shown.
    pub fn new(host: &HostEnvironment, details: AppDetails) -> (window: (Self, WindowSetup))
        ensures
            window.0.well_formed(),
            window.0.details == details,
            !window.0.initial_load_done,
            window.0.pending_notifications@ == Seq::<N>::empty(),
            window.1@ == window_setup(*host, details@),
    {
        let setup: WindowSetup = set_up(host, &details);
        (
            AppWindow { details, initial_load_done: false, pending_notifications: Vec::new() },
            setup,
        )
    }

    /// Gives the window over to an app, whose start page has yet to load.
    pub fn set_details(&mut self, host: &HostEnvironment, details: AppDetails) -> (setup:
        WindowSetup)
        ensures
            setup@ == window_setup(*host, details@),
            final(self).details == details,
            !final(self).initial_load_done,
            final(self).pending_notifications == old(self).pending_notifications,
    {
        let setup: WindowSetup = set_up(host, &details);
        self.details = details;
        self.initial_load_done = false;
        setup
    }

    /// The id of the window's app.
    pub fn id(&self) -> (id: String)
        ensures
            id@ == self.details@.id,
    {
        self.details.id.clone()
    }

    /// The style sheet of the window over a background.
    pub fn load_colors(&self, background: &Option<Background>) -> (css: String)
        ensures
            css@ == style::window_css(self.details@.id, style::background_option(*background)),
    {
        stylesheet(self.details.id.as_str(), background)
    }

    /// The steps of going back.
    pub fn go_back(&self) -> (steps: Vec<Step>)
        ensures
            navigation::plan(steps@) == navigation::back_plan(),
    {
        back_steps()
    }

    /// The steps of going forward.
    pub fn go_forward(&self) -> (steps: Vec<Step>)
        ensures
            navigation::plan(steps@) == navigation::forward_plan(),
    {
        forward_steps()
    }

    /// The steps of one of the window's actions, if there is one of that name.
    pub fn action(&self, name: &str) -> (steps: Option<Vec<Step>>)
        ensures
            navigation::plan_option(steps) == navigation::action_plan(name@, self.details@.url),
    {
        action_steps(name, self.details.url.as_str())
    }

    /// What to do about a policy request of the window's view, and what to report to the web
    /// engine: `false` where the address went to the system browser.
    pub fn policy(&self, request: PolicyRequest) -> (outcome: (PolicyAction, bool))
        ensures
            outcome.0@ == policy::policy_action(
                request,
                self.initial_load_done,
                policy::request_permitted(self.details@.allowed_domains, request),
            ),
            outcome.1 == !(outcome.0 is OpenExternally),
    {
        decide_policy(&self.details.allowed_domains, self.initial_load_done, request)
    }

    /// What to do about a pop up of the window's page, where `attached` says whether the
    /// window belongs to a running application.
    pub fn popup(&self, uri: Option<String>, attached: bool) -> (action: PopupAction)
        ensures
            action@ == policy::popup_action(
                text::text_option(uri),
                text::text_option(uri) matches Some(u) && domains::uri_permitted(
                    self.details@.allowed_domains,
                    u,
                ),
                attached,
            ),
    {
        create_popup(&self.details.allowed_domains, uri, attached)
    }

    /// What to do at first about a permission request by the page at `uri` in the window.
    pub fn permission_request(&self, request: &PermissionRequest, uri: Option<&str>) -> (step:
        RequestStep)
        ensures
            step@ == permissions::first_step(
                self.details@.id,
                *request,
                address::origin_of_page(text::str_option(uri)),
            ),
    {
        permissions::permission_request(self.details.id.as_str(), request, uri)
    }

    /// The key of the decision that a query by the page at `uri` in the window asks for.
    pub fn query_permission_state(
        &self,
        table: &[(&'static str, &'static str)],
        name: Option<&str>,
        uri: Option<&str>,
    ) -> (key: Option<PermissionKey>)
        ensures
            permissions::key_option(key) == permissions::query_key(
                self.details@.id,
                permissions::table_kinds(table@),
                text::str_option(name),
                address::origin_of_page(text::str_option(uri)),
            ),
    {
        permissions::query_permission_state(self.details.id.as_str(), table, name, uri)
    }

    /// Takes note of how far the page has loaded.
    pub fn load_changed(&mut self, event: LoadEvent)
        ensures
            final(self).initial_load_done == (old(self).initial_load_done || event
                == LoadEvent::Finished),
            final(self).details == old(self).details,
            final(self).pending_notifications == old(self).pending_notifications,
    {
        if event == LoadEvent::Finished {
            self.initial_load_done = true;
        }
    }

    /// What to do when the window is to be closed, where `stored` are the app's settings as
    /// they are stored now.
    pub fn close_request(
        &self,
        stored: Option<AppDetails>,
        size: (i32, i32),
        maximized: bool,
    ) -> (outcome: CloseOutcome)
        ensures
            details::details_option(outcome.save) == (match stored {
                Some(s) => Some(s@.with_window(size.0, size.1, maximized)),
                None => None,
            }),
            outcome.action == (if self.details.run_in_background {
                CloseAction::Hide
            } else {
                CloseAction::Close
            }),
    {
        let save: Option<AppDetails> = match stored {
            Some(stored) => {
                let mut details: AppDetails = stored;
                details.set_window(size.0, size.1, maximized);
                Some(details)
            },
            None => None,
        };
        // "Run in background": hide the window instead of closing so the app keeps running
        let action: CloseAction = if self.details.run_in_background {
            CloseAction::Hide
        } else {
            CloseAction::Close
        };
        CloseOutcome { save, action }
    }

    /// Forwards a page notification to the desktop, and keeps it until its desktop twin is
    /// activated. Without a running application nothing is shown or kept.
    pub fn show_notification(
        &mut self,
        application: bool,
        title: Option<String>,
        body: Option<String>,
        notification: N,
    ) -> (desktop: Option<DesktopNotification>)
        ensures
            final(self).details == old(self).details,
            final(self).initial_load_done == old(self).initial_load_done,
            old(self).well_formed() ==> final(self).well_formed(),
            desktop is Some == application,
            !application ==> final(self).pending_notifications == old(self).pending_notifications,
            application ==> final(self).pending_notifications@ == queued(
                old(self).pending_notifications@,
                notification,
            ),
            desktop matches Some(d) ==> {
                &&& d.title@ == or_empty(text::text_option(title))
                &&& d.body@ == or_empty(text::text_option(body))
                &&& d.action@ == "app.open-app"@
                &&& d.target@ == old(self).details@.id
            },
    {
        if !application {
            return None;
        }
        if self.pending_notifications.len() > PENDING_LIMIT {
            let _ = self.pending_notifications.remove(0);
        }
        self.pending_notifications.push(notification);
        assert(self.pending_notifications@ =~= queued(old(self).pending_notifications@, notification));
        Some(
            DesktopNotification {
                title: unwrap_or_empty(title),
                body: unwrap_or_empty(body),
                action: "app.open-app",
                target: self.details.id.clone(),
            },
        )
    }

    /// Takes out all waiting notifications, to replay their clicks into the page in order.
    pub fn activate_pending_notifications(&mut self) -> (clicked: Vec<N>)
        ensures
            clicked == old(self).pending_notifications,
            final(self).pending_notifications@ == Seq::<N>::empty(),
            final(self).well_formed(),
            final(self).details == old(self).details,
            final(self).initial_load_done == old(self).initial_load_done,
    {
        let mut clicked: Vec<N> = Vec::new();
        std::mem::swap(&mut clicked, &mut self.pending_notifications);
        clicked
    }
}

/// Of the notifications that have come since the list was empty, the last nine wait, in the
/// order in which they came.
pub proof fn law_latest_notifications_wait<N>(notifications: Seq<N>)
    ensures
        queued_all(Seq::<N>::empty(), notifications) == (if notifications.len() <= PENDING_LIMIT
            + 1 {
            notifications
        } else {
            notifications.skip(notifications.len() - PENDING_LIMIT - 1)
        }),
    decreases notifications.len(),
{
    if notifications.len() > 0 {
        let before = notifications.drop_last();
        law_latest_notifications_wait(before);
        assert(before.push(notifications.last()) =~= notifications);
        if notifications.len() > PENDING_LIMIT + 1 {
            let waiting = queued_all(Seq::<N>::empty(), before);
            assert(waiting.drop_first().push(notifications.last()) =~= notifications.skip(
                notifications.len() - PENDING_LIMIT - 1,
            ));
        }
    } else {
        assert(notifications =~= Seq::<N>::empty());
    }
}

/// A window comes back as it was closed: reopened with the settings saved on closing, it has
/// the size that it had and is maximized if it was, and nothing else is changed.
pub proof fn law_window_restored(
    host: HostEnvironment,
    stored: details::DetailsView,
    width: i32,
    height: i32,
    maximized: bool,
)
    ensures
        ({
            let reopened = window_setup(host, stored.with_window(width, height, maximized));
            &&& reopened.width == width
            &&& reopened.height == height
            &&& reopened.maximize == maximized
            &&& reopened == SetupView {
                width,
                height,
                maximize: maximized,
                ..window_setup(host, stored)
            }
        }),
{
}

/// A new window holds the app as it is given, has loaded nothing and has nothing waiting, and
/// is shown under the app's title, at the app's size and at the app's start page.
pub proof fn law_new_window_shows_app<N>(
    host: &HostEnvironment,
    app: AppDetails,
    made: (AppWindow<N>, WindowSetup),
)
    requires
        call_ensures(AppWindow::<N>::new, (host, app), made),
    ensures
        made.0.details == app,
        !made.0.initial_load_done,
        made.0.pending_notifications@.len() == 0,
        made.1.title@ == app.title@,
        made.1.width == app.window_width,
        made.1.height == app.window_height,
        made.1.maximize == app.window_maximize,
        made.1.start_uri@ == app.url@,
{
    assert(made.1@ == window_setup(*host, app@));
}

/// A new window is named, colored and filled as the parts of the library say for its app: it
/// has the widget name that the style sheet selects, the style sheet of a page without a
/// color, and the view that is created for the app.
pub proof fn law_new_window_made_of_parts<'a, N>(
    host: &'a HostEnvironment,
    app: AppDetails,
    made: (AppWindow<N>, WindowSetup),
    id: &'a str,
    name: String,
    css: String,
    view: WebviewConfig,
)
    requires
        call_ensures(AppWindow::<N>::new, (host, app), made),
        id@ == app.id@,
        call_ensures(widget_name, (id,), name),
        call_ensures(stylesheet, (id, &None), css),
        call_ensures(create_webview, (host, &app), view),
    ensures
        made.1.widget_name@ == name@,
        made.1.stylesheet@ == css@,
        made.1.webview@ == view@,
{
    assert(made.1@ == window_setup(*host, app@));
}

/// Giving a window over to an app shows it like a new window of that app, whose start page has
/// yet to load; what waits goes on waiting.
pub proof fn law_window_given_over<N>(
    host: &HostEnvironment,
    app: AppDetails,
    made: (AppWindow<N>, WindowSetup),
)
    requires
        call_ensures(AppWindow::<N>::new, (host, app), made),
    ensures
        forall|window: &mut AppWindow<N>, setup: WindowSetup|
            #[trigger] call_ensures(AppWindow::<N>::set_details, (window, host, app), setup) ==> {
                &&& setup@ == made.1@
                &&& setup.title@ == app.title@
                &&& setup.start_uri@ == app.url@
                &&& final(window).details == app
                &&& !final(window).initial_load_done
                &&& final(window).pending_notifications@ == window.pending_notifications@
            },
{
    assert forall|window: &mut AppWindow<N>, setup: WindowSetup|
        #[trigger] call_ensures(AppWindow::<N>::set_details, (window, host, app), setup) implies {
        &&& setup@ == made.1@
        &&& setup.title@ == app.title@
        &&& setup.start_uri@ == app.url@
        &&& final(window).details == app
        &&& !final(window).initial_load_done
        &&& final(window).pending_notifications@ == window.pending_notifications@
    } by {
        assert(setup@ == window_setup(*host, app@));
    }
}

/// A window answers for its own app: its id, its colors, its actions, its navigations, its pop
/// ups and its permissions are those that the parts of the library give for the settings it
/// holds.
pub proof fn law_window_goes_by_its_app<'a, N>(
    window: &'a AppWindow<N>,
    own_id: String,
    id: &'a str,
    home: &'a str,
    background: &'a Option<Background>,
    css: (String, String),
    name: &'a str,
    steps: (Option<Vec<Step>>, Option<Vec<Step>>),
    request: PolicyRequest,
    outcome: ((PolicyAction, bool), (PolicyAction, bool)),
    uri: Option<String>,
    attached: bool,
    popup: (PopupAction, PopupAction),
)
    requires
        id@ == window.details.id@,
        home@ == window.details.url@,
        call_ensures(AppWindow::<N>::id, (window,), own_id),
        call_ensures(AppWindow::<N>::load_colors, (window, background), css.0),
        call_ensures(stylesheet, (id, background), css.1),
        call_ensures(AppWindow::<N>::action, (window, name), steps.0),
        call_ensures(action_steps, (name, home), steps.1),
        call_ensures(AppWindow::<N>::policy, (window, request), outcome.0),
        call_ensures(
            decide_policy,
            (&window.details.allowed_domains, window.initial_load_done, request),
            outcome.1,
        ),
        call_ensures(AppWindow::<N>::popup, (window, uri, attached), popup.0),
        call_ensures(create_popup, (&window.details.allowed_domains, uri, attached), popup.1),
    ensures
        own_id@ == window.details.id@,
        css.0@ == css.1@,
        navigation::plan_option(steps.0) == navigation::plan_option(steps.1),
        outcome.0.0@ == outcome.1.0@ && outcome.0.1 == outcome.1.1,
        popup.0@ == popup.1@,
{
}

/// A window asks and answers about permissions under the id of its own app.
pub proof fn law_window_permissions_by_its_app<'a, N>(
    window: &'a AppWindow<N>,
    id: &'a str,
    request: &'a PermissionRequest,
    uri: Option<&'a str>,
    step: (RequestStep, RequestStep),
    table: &'a [(&'static str, &'static str)],
    name: Option<&'a str>,
    key: (Option<PermissionKey>, Option<PermissionKey>),
)
    requires
        id@ == window.details.id@,
        call_ensures(AppWindow::<N>::permission_request, (window, request, uri), step.0),
        call_ensures(permissions::permission_request, (id, request, uri), step.1),
        call_ensures(AppWindow::<N>::query_permission_state, (window, table, name, uri), key.0),
        call_ensures(permissions::query_permission_state, (id, table, name, uri), key.1),
    ensures
        step.0@ == step.1@,
        permissions::key_option(key.0) == permissions::key_option(key.1),
        key.0 matches Some(k) ==> k.app@ == window.details.id@,
        step.0 matches RequestStep::LookUp(lookup) ==> lookup.app@ == window.details.id@,
{
}

/// Going back and forward in a window are the moves of the library, each once.
pub proof fn law_window_moves<N>(window: &AppWindow<N>, back: Vec<Step>, forward: Vec<Step>)
    requires
        call_ensures(AppWindow::<N>::go_back, (window,), back),
        call_ensures(AppWindow::<N>::go_forward, (window,), forward),
    ensures
        back@.len() == 2 && back@[0] is GoBack && back@[1] is UpdateNavButtons,
        forward@.len() == 2 && forward@[0] is GoForward && forward@[1] is UpdateNavButtons,
{
    assert(navigation::plan(back@).len() == back@.len());
    assert(navigation::plan(forward@).len() == forward@.len());
    assert(navigation::plan(back@)[0] == back@[0]@ && navigation::plan(back@)[1] == back@[1]@);
    assert(navigation::plan(forward@)[0] == forward@[0]@ && navigation::plan(forward@)[1]
        == forward@[1]@);
}

/// A window counts as loaded from the first time its page has finished loading, whatever comes
/// after; nothing else of it changes.
pub proof fn law_loaded_once_finished<N>()
    ensures
        forall|window: &mut AppWindow<N>, event: LoadEvent|
            #[trigger] call_ensures(AppWindow::<N>::load_changed, (window, event), ()) ==> {
                &&& final(window).initial_load_done <==> window.initial_load_done || event
                    == LoadEvent::Finished
                &&& final(window).details == window.details
                &&& final(window).pending_notifications@ == window.pending_notifications@
            },
{
}

/// A new window goes wherever its start page leads, whatever its restriction. Once the page
/// has finished loading, it goes on exactly where `uri_allowed` lets it, and hands every other
/// address to the system browser.
pub proof fn law_kept_inside_once_loaded<'a, N>(
    host: &'a HostEnvironment,
    app: AppDetails,
    made: (AppWindow<N>, WindowSetup),
    uri: String,
    address: &'a str,
    permitted: bool,
    first: (PolicyAction, bool),
)
    requires
        call_ensures(AppWindow::<N>::new, (host, app), made),
        address@ == uri@,
        call_ensures(domains::uri_allowed, (&app.allowed_domains, address), permitted),
        call_ensures(
            AppWindow::<N>::policy,
            (&made.0, PolicyRequest::Navigation { uri: Some(uri) }),
            first,
        ),
    ensures
        first.0 is Proceed && first.1,
        forall|window: &mut AppWindow<N>, later: (PolicyAction, bool)|
            *window == made.0 && #[trigger] call_ensures(
                AppWindow::<N>::load_changed,
                (window, LoadEvent::Finished),
                (),
            ) && #[trigger] call_ensures(
                AppWindow::<N>::policy,
                (&*final(window), PolicyRequest::Navigation { uri: Some(uri) }),
                later,
            ) ==> {
                &&& later.1 <==> permitted
                &&& permitted ==> later.0 is Proceed
                &&& !permitted ==> (later.0 matches PolicyAction::OpenExternally { uri: opened }
                    && opened@ == uri@)
            },
{
    assert(made.0.details@.allowed_domains == domains::domain_list(app.allowed_domains));
}

/// A window that runs in the background is hidden and any other is closed. What is saved are
/// the settings as they are stored now, with the window as it is; an app that is no longer
/// stored is not saved.
pub proof fn law_closing_saves_window<N>(
    window: &AppWindow<N>,
    stored: Option<AppDetails>,
    size: (i32, i32),
    maximized: bool,
    outcome: CloseOutcome,
)
    requires
        call_ensures(AppWindow::<N>::close_request, (window, stored, size, maximized), outcome),
    ensures
        outcome.action == CloseAction::Hide <==> window.details.run_in_background,
        outcome.action == CloseAction::Close <==> !window.details.run_in_background,
        outcome.save is Some <==> stored is Some,
        outcome.save is Some ==> ({
            let saved = outcome.save.unwrap();
            let before = stored.unwrap();
            &&& saved.window_width == size.0
            &&& saved.window_height == size.1
            &&& saved.window_maximize == maximized
            &&& saved.id@ == before.id@
            &&& saved.title@ == before.title@
            &&& saved.url@ == before.url@
            &&& text::text_option(saved.user_agent) == text::text_option(before.user_agent)
            &&& text::text_option(saved.proxy_url) == text::text_option(before.proxy_url)
            &&& domains::domain_list(saved.allowed_domains) == domains::domain_list(
                before.allowed_domains,
            )
            &&& saved.has_titlebar_color == before.has_titlebar_color
            &&& saved.run_in_background == before.run_in_background
        }),
{
    if let Some(saved) = outcome.save {
        let before = stored.unwrap();
        assert(saved@ == before@.with_window(size.0, size.1, maximized));
    }
}

/// One more notification waits behind the others; where nine or more were waiting, the oldest
/// makes room, and no other is lost.
pub proof fn law_oldest_makes_room<N>(pending: Seq<N>, notification: N)
    ensures
        ({
            let waiting = queued(pending, notification);
            &&& waiting.last() == notification
            &&& pending.len() <= 8 ==> waiting.drop_last() == pending
            &&& pending.len() >= 9 ==> waiting.drop_last() == pending.skip(1)
        }),
{
    let waiting = queued(pending, notification);
    if pending.len() <= 8 {
        assert(waiting.drop_last() =~= pending);
    } else {
        assert(waiting.drop_last() =~= pending.skip(1));
    }
}

/// With a running application a page's notification goes to the desktop with its own title and
/// text, opens this window's app, and waits last; without one nothing is shown and nothing
/// waits. The app and how far it has loaded do not change.
pub proof fn law_notification_forwarded<N>()
    ensures
        forall|
            window: &mut AppWindow<N>,
            application: bool,
            title: Option<String>,
            body: Option<String>,
            notification: N,
            desktop: Option<DesktopNotification>,
        |
            #[trigger] call_ensures(
                AppWindow::<N>::show_notification,
                (window, application, title, body, notification),
                desktop,
            ) ==> {
                &&& desktop is Some <==> application
                &&& desktop matches Some(d) ==> {
                    &&& title is Some ==> d.title@ == title.unwrap()@
                    &&& title is None ==> d.title@.len() == 0
                    &&& body is Some ==> d.body@ == body.unwrap()@
                    &&& body is None ==> d.body@.len() == 0
                    &&& d.action@ == "app.open-app"@
                    &&& d.target@ == window.details.id@
                }
                &&& application ==> ({
                    let waiting = final(window).pending_notifications@;
                    let waited = window.pending_notifications@;
                    &&& waiting.len() > 0 && waiting.last() == notification
                    &&& waited.len() <= 8 ==> waiting.drop_last() == waited
                    &&& waited.len() >= 9 ==> waiting.drop_last() == waited.skip(1)
                })
                &&& !application ==> final(window).pending_notifications@
                    == window.pending_notifications@
                &&& final(window).details == window.details
                &&& final(window).initial_load_done == window.initial_load_done
            },
{
    assert forall|pending: Seq<N>, notification: N| #[trigger]
        queued(pending, notification).len() > 0 && queued(pending, notification).last()
            == notification && queued(pending, notification).drop_last() == (if pending.len()
            <= 8 {
            pending
        } else {
            pending.skip(1)
        }) by {
        law_oldest_makes_room(pending, notification);
    }
}

/// A notification that was forwarded is clicked when the waiting ones are activated, after
/// those that waited before it, and only once.
pub proof fn law_forwarded_then_clicked<N>()
    ensures
        forall|
            window: &mut AppWindow<N>,
            title: Option<String>,
            body: Option<String>,
            notification: N,
            desktop: Option<DesktopNotification>,
            later: &mut AppWindow<N>,
            clicked: Vec<N>,
        |
            #[trigger] call_ensures(
                AppWindow::<N>::show_notification,
                (window, true, title, body, notification),
                desktop,
            ) && *later == *final(window) && #[trigger] call_ensures(
                AppWindow::<N>::activate_pending_notifications,
                (later,),
                clicked,
            ) ==> {
                &&& clicked@.len() > 0 && clicked@.last() == notification
                &&& window.pending_notifications@.len() <= 8 ==> clicked@.drop_last()
                    == window.pending_notifications@
                &&& window.pending_notifications@.len() >= 9 ==> clicked@.drop_last()
                    == window.pending_notifications@.skip(1)
                &&& final(later).pending_notifications@.len() == 0
                &&& final(later).details == window.details
                &&& final(later).initial_load_done == window.initial_load_done
            },
{
    assert forall|pending: Seq<N>, notification: N| #[trigger]
        queued(pending, notification).len() > 0 && queued(pending, notification).last()
            == notification && queued(pending, notification).drop_last() == (if pending.len()
            <= 8 {
            pending
        } else {
            pending.skip(1)
        }) by {
        law_oldest_makes_room(pending, notification);
    }
}

/// Activating takes out every waiting notification, in the order in which they came, and
/// changes nothing else.
pub proof fn law_all_waiting_clicked<N>()
    ensures
        forall|window: &mut AppWindow<N>, clicked: Vec<N>|
            #[trigger] call_ensures(
                AppWindow::<N>::activate_pending_notifications,
                (window,),
                clicked,
            ) ==> {
                &&& clicked@ == window.pending_notifications@
                &&& final(window).pending_notifications@.len() == 0
                &&& final(window).details == window.details
                &&& final(window).initial_load_done == window.initial_load_done
            },
{
}

} // verus!
