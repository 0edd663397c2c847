//! Window colors: the style sheet that follows a page's theme color.

use vstd::prelude::*;
use vstd::string::*;

use crate::text;
use crate::text::same_text;

verus! {

/// The name of an app's window widget.
pub open spec fn widget_name_of(id: Seq<char>) -> Seq<char> {
    "s"@ + id
}

/// The rule that gives an app's window its background and text color.
pub open spec fn css_rule(id: Seq<char>, bg: Seq<char>, fg: Seq<char>) -> Seq<char> {
    "window#s"@ + id + " {\n    background: "@ + bg + ";\n    color: "@ + fg + ";\n}"@
}

/// The name of an app's window widget, by which the style sheet finds it.
pub fn widget_name(id: &str) -> (name: String)
    ensures
        name@ == widget_name_of(id@),
{
    let mut name: String = "s".to_owned();
    name.append(id);
    name
}

/// The style sheet of an app's window.
pub fn format_css(id: &str, bg: &str, fg: &str) -> (css: String)
    ensures
        css@ == css_rule(id@, bg@, fg@),
{
    let mut css: String = "window#s".to_owned();
    css.append(id);
    css.append(" {\n    background: ");
    css.append(bg);
    css.append(";\n    color: ");
    css.append(fg);
    css.append(";\n}");
    css
}

/// Whether a color is light or dark.
#[derive(Clone, Copy, PartialEq, Eq, Structural, Debug)]
pub enum Brightness {
    Light,
    Dark,
}

/// A background color, as a page names it.
pub struct Background {
    pub color: String,
    /// How bright it is, if it is a color that can be read.
    pub brightness: Option<Brightness>,
}

/// What `Background` holds, as mathematical values.
pub struct BackgroundView {
    pub color: Seq<char>,
    pub brightness: Option<Brightness>,
}

/// A background color that may be missing.
pub open spec fn background_option(background: Option<Background>) -> Option<BackgroundView> {
    match background {
        Some(b) => Some(BackgroundView { color: b.color@, brightness: b.brightness }),
        None => None,
    }
}

/// The background of a window: the page's color, or else the one of the desktop theme.
pub open spec fn shown_background(background: Option<BackgroundView>) -> Seq<char> {
    match background {
        Some(b) => b.color,
        None => "@window_bg_color"@,
    }
}

/// The text color of a window: black on a light background and white on a dark one, and
/// the desktop theme's where the background is missing or cannot be read.
pub open spec fn shown_foreground(background: Option<BackgroundView>) -> Seq<char> {
    match background {
        Some(b) => match b.brightness {
            Some(Brightness::Light) => "black"@,
            Some(Brightness::Dark) => "white"@,
            None => "@window_fg_color"@,
        },
        None => "@window_fg_color"@,
    }
}

/// The style sheet of an app's window over a background.
pub open spec fn window_css(id: Seq<char>, background: Option<BackgroundView>) -> Seq<char> {
    css_rule(id, shown_background(background), shown_foreground(background))
}

/// The style sheet of an app's window over a background.
pub fn stylesheet(id: &str, background: &Option<Background>) -> (css: String)
    ensures
        css@ == window_css(id@, background_option(*background)),
{
    match background {
        None => format_css(id, "@window_bg_color", "@window_fg_color"),
        Some(background) => {
            let fg: &str = match background.brightness {
                Some(Brightness::Light) => "black",
                Some(Brightness::Dark) => "white",
                None => "@window_fg_color",
            };
            format_css(id, background.color.as_str(), fg)
        },
    }
}

/// The color that a theme color message of the page names, if it names one.
pub fn theme_color(message: String) -> (color: Option<String>)
    ensures
        text::text_option(color) == (if message@ == "null"@ {
            None
        } else {
            Some(message@)
        }),
{
    if same_text(message.as_str(), "null") {
        None
    } else {
        Some(message)
    }
}

/// The style sheet is addressed to the app's own window: its selector names the widget.
pub proof fn law_css_selects_widget(id: Seq<char>, background: Option<BackgroundView>)
    ensures
        text::occurs_at(
            window_css(id, background),
            "window#"@ + widget_name_of(id) + " {"@,
            0,
        ),
{
    reveal_strlit("window#s");
    reveal_strlit("window#");
    reveal_strlit("s");
    reveal_strlit(" {");
    reveal_strlit(" {\n    background: ");
    let selector = "window#"@ + widget_name_of(id) + " {"@;
    let css = window_css(id, background);
    assert("window#s"@ =~= "window#"@ + "s"@);
    assert(css.subrange(0, selector.len() as int) =~= selector);
}

/// The style sheet selects the widget of that name and declares this background and this text
/// color for it, and nothing else.
pub proof fn law_css_declares_colors(
    id: &str,
    name: String,
    bg: &str,
    fg: &str,
    css: String,
)
    requires
        call_ensures(widget_name, (id,), name),
        call_ensures(format_css, (id, bg, fg), css),
    ensures
        name@ == "s"@ + id@,
        css@ == "window#"@ + name@ + " {\n"@ + "    background: "@ + bg@ + ";\n"@
            + "    color: "@ + fg@ + ";\n"@ + "}"@,
{
    reveal_strlit("window#s");
    reveal_strlit("window#");
    reveal_strlit("s");
    reveal_strlit(" {\n    background: ");
    reveal_strlit(" {\n");
    reveal_strlit("    background: ");
    reveal_strlit(";\n    color: ");
    reveal_strlit(";\n");
    reveal_strlit("    color: ");
    reveal_strlit(";\n}");
    reveal_strlit("}");
    assert("window#s"@ =~= "window#"@ + "s"@);
    assert(" {\n    background: "@ =~= " {\n"@ + "    background: "@);
    assert(";\n    color: "@ =~= ";\n"@ + "    color: "@);
    assert(";\n}"@ =~= ";\n"@ + "}"@);
    assert(css@ =~= "window#"@ + name@ + " {\n"@ + "    background: "@ + bg@ + ";\n"@
        + "    color: "@ + fg@ + ";\n"@ + "}"@);
}

/// Windows of different apps have different names.
pub proof fn law_widget_names_differ(left: Seq<char>, right: Seq<char>)
    ensures
        widget_name_of(left) == widget_name_of(right) <==> left == right,
{
    if widget_name_of(left) == widget_name_of(right) {
        let front = "s"@.len() as int;
        assert(widget_name_of(left).skip(front) =~= left);
        assert(widget_name_of(right).skip(front) =~= right);
    }
}

/// A window shows the page's color as its background, with black text on a light color and
/// white text on a dark one. Text on a color that cannot be read, and a window without a
/// color, are left to the desktop theme.
pub proof fn law_text_readable<'a>(
    id: &'a str,
    background: &'a Option<Background>,
    bg: &'a str,
    fg: &'a str,
    css: String,
    formatted: String,
)
    requires
        call_ensures(stylesheet, (id, background), css),
        call_ensures(format_css, (id, bg, fg), formatted),
        *background is None ==> bg@ == "@window_bg_color"@ && fg@ == "@window_fg_color"@,
        *background is Some ==> bg@ == background.unwrap().color@,
        *background is Some && background.unwrap().brightness == Some(Brightness::Light) ==> fg@
            == "black"@,
        *background is Some && background.unwrap().brightness == Some(Brightness::Dark) ==> fg@
            == "white"@,
        *background is Some && background.unwrap().brightness is None ==> fg@
            == "@window_fg_color"@,
    ensures
        css@ == formatted@,
{
}

/// A message of the page names a color, and that very color, unless it is "null".
pub proof fn law_message_names_color(message: String, color: Option<String>)
    requires
        call_ensures(theme_color, (message,), color),
    ensures
        color is None <==> message@ == "null"@,
        color matches Some(c) ==> c@ == message@,
{
}

} // verus!
