//! The settings of one web application.

use vstd::prelude::*;
use vstd::string::*;

use crate::domains;
use crate::text;

verus! {

/// The settings of one web application.
#[derive(Clone, Debug)]
pub struct AppDetails {
    pub id: String,
    pub title: String,
    /// The start page.
    pub url: String,
    /// The user agent to go by in place of the default.
    pub user_agent: Option<String>,
    /// The HTTP proxy to go through, if any.
    pub proxy_url: Option<String>,
    /// The domains that the app is kept inside, if it is restricted.
    pub allowed_domains: Option<Vec<String>>,
    /// Whether the title bar follows the page's theme color.
    pub has_titlebar_color: bool,
    /// Whether closing the window leaves the app running.
    pub run_in_background: bool,
    pub window_width: i32,
    pub window_height: i32,
    pub window_maximize: bool,
}

/// What `AppDetails` holds, as mathematical values.
pub struct DetailsView {
    pub id: Seq<char>,
    pub title: Seq<char>,
    pub url: Seq<char>,
    pub user_agent: Option<Seq<char>>,
    pub proxy_url: Option<Seq<char>>,
    pub allowed_domains: Option<Seq<Seq<char>>>,
    pub has_titlebar_color: bool,
    pub run_in_background: bool,
    pub window_width: i32,
    pub window_height: i32,
    pub window_maximize: bool,
}

impl View for AppDetails {
    type V = DetailsView;

    open spec fn view(&self) -> DetailsView {
        DetailsView {
            id: self.id@,
            title: self.title@,
            url: self.url@,
            user_agent: text::text_option(self.user_agent),
            proxy_url: text::text_option(self.proxy_url),
            allowed_domains: domains::domain_list(self.allowed_domains),
            has_titlebar_color: self.has_titlebar_color,
            run_in_background: self.run_in_background,
            window_width: self.window_width,
            window_height: self.window_height,
            window_maximize: self.window_maximize,
        }
    }
}

impl DetailsView {
    /// The same settings with another window.
    pub open spec fn with_window(self, width: i32, height: i32, maximize: bool) -> DetailsView {
        DetailsView {
            window_width: width,
            window_height: height,
            window_maximize: maximize,
            ..self
        }
    }
}

impl AppDetails {
    /// Remembers the window, and leaves everything else as it is.
    pub fn set_window(&mut self, width: i32, height: i32, maximize: bool)
        ensures
            final(self)@ == old(self)@.with_window(width, height, maximize),
    {
        self.window_width = width;
        self.window_height = height;
        self.window_maximize = maximize;
    }
}

/// Settings that may be missing.
pub open spec fn details_option(details: Option<AppDetails>) -> Option<DetailsView> {
    match details {
        Some(details) => Some(details@),
        None => None,
    }
}

/// Remembering a window changes the three settings of the window and no other.
pub proof fn law_only_window_settings_change()
    ensures
        forall|app: &mut AppDetails, width: i32, height: i32, maximize: bool|
            #[trigger] call_ensures(AppDetails::set_window, (app, width, height, maximize), ()) ==> {
                &&& final(app).window_width == width
                &&& final(app).window_height == height
                &&& final(app).window_maximize == maximize
                &&& final(app).id@ == app.id@
                &&& final(app).title@ == app.title@
                &&& final(app).url@ == app.url@
                &&& text::text_option(final(app).user_agent) == text::text_option(app.user_agent)
                &&& text::text_option(final(app).proxy_url) == text::text_option(app.proxy_url)
                &&& domains::domain_list(final(app).allowed_domains) == domains::domain_list(
                    app.allowed_domains,
                )
                &&& final(app).has_titlebar_color == app.has_titlebar_color
                &&& final(app).run_in_background == app.run_in_background
            },
{
    assert forall|app: &mut AppDetails, width: i32, height: i32, maximize: bool|
        #[trigger] call_ensures(AppDetails::set_window, (app, width, height, maximize), ()) implies {
        &&& final(app).window_width == width
        &&& final(app).window_height == height
        &&& final(app).window_maximize == maximize
        &&& final(app).id@ == app.id@
        &&& final(app).title@ == app.title@
        &&& final(app).url@ == app.url@
        &&& text::text_option(final(app).user_agent) == text::text_option(app.user_agent)
        &&& text::text_option(final(app).proxy_url) == text::text_option(app.proxy_url)
        &&& domains::domain_list(final(app).allowed_domains) == domains::domain_list(
            app.allowed_domains,
        )
        &&& final(app).has_titlebar_color == app.has_titlebar_color
        &&& final(app).run_in_background == app.run_in_background
    } by {
        let before = app@;
        let after = final(app)@;
        assert(after == before.with_window(width, height, maximize));
    }
}

} // verus!
