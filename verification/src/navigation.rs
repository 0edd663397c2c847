//! Moving through a page's history: the window's actions, the mouse buttons that stand for
//! them, and when the navigation buttons can be pressed.

use vstd::prelude::*;
use vstd::string::*;

use crate::text;
use crate::text::same_text;

verus! {

/// How the zoom level is changed.
#[derive(Clone, Copy, PartialEq, Eq, Structural, Debug)]
pub enum ZoomStep {
    In,
    Out,
    Reset,
}

/// One thing that the window does.
pub enum Step {
    GoBack,
    GoForward,
    /// Reads the history and sets the navigation buttons by `update_nav_buttons`.
    UpdateNavButtons,
    Reload,
    ReloadBypassCache,
    StopLoading,
    LoadUri { uri: String },
    Zoom(ZoomStep),
    /// Keeps a mouse press from the page.
    ClaimGesture,
}

/// What `Step` holds, as mathematical values.
pub enum StepView {
    GoBack,
    GoForward,
    UpdateNavButtons,
    Reload,
    ReloadBypassCache,
    StopLoading,
    LoadUri { uri: Seq<char> },
    Zoom(ZoomStep),
    ClaimGesture,
}

impl View for Step {
    type V = StepView;

    open spec fn view(&self) -> StepView {
        match self {
            Step::GoBack => StepView::GoBack,
            Step::GoForward => StepView::GoForward,
            Step::UpdateNavButtons => StepView::UpdateNavButtons,
            Step::Reload => StepView::Reload,
            Step::ReloadBypassCache => StepView::ReloadBypassCache,
            Step::StopLoading => StepView::StopLoading,
            Step::LoadUri { uri } => StepView::LoadUri { uri: uri@ },
            Step::Zoom(step) => StepView::Zoom(*step),
            Step::ClaimGesture => StepView::ClaimGesture,
        }
    }
}

/// Each step of a plan.
pub open spec fn plan(steps: Seq<Step>) -> Seq<StepView> {
    steps.map_values(|step: Step| step@)
}

/// A plan that may be missing.
pub open spec fn plan_option(steps: Option<Vec<Step>>) -> Option<Seq<StepView>> {
    match steps {
        Some(steps) => Some(plan(steps@)),
        None => None,
    }
}

/// Going back, and setting the buttons after it.
pub open spec fn back_plan() -> Seq<StepView> {
    seq![StepView::GoBack, StepView::UpdateNavButtons]
}

/// Going forward, and setting the buttons after it.
pub open spec fn forward_plan() -> Seq<StepView> {
    seq![StepView::GoForward, StepView::UpdateNavButtons]
}

/// The steps of going back.
pub fn back_steps() -> (steps: Vec<Step>)
    ensures
        plan(steps@) == back_plan(),
{
    let mut steps: Vec<Step> = Vec::new();
    steps.push(Step::GoBack);
    steps.push(Step::UpdateNavButtons);
    assert(plan(steps@) =~= back_plan());
    steps
}

/// The steps of going forward.
pub fn forward_steps() -> (steps: Vec<Step>)
    ensures
        plan(steps@) == forward_plan(),
{
    let mut steps: Vec<Step> = Vec::new();
    steps.push(Step::GoForward);
    steps.push(Step::UpdateNavButtons);
    assert(plan(steps@) =~= forward_plan());
    steps
}

fn one_step(step: Step) -> (steps: Vec<Step>)
    ensures
        plan(steps@) == seq![step@],
{
    let ghost view = step@;
    let mut steps: Vec<Step> = Vec::new();
    steps.push(step);
    assert(plan(steps@) =~= seq![view]);
    steps
}

/// The names of the window's actions.
pub open spec fn action_list() -> Seq<Seq<char>> {
    seq![
        "forward"@,
        "back"@,
        "reload"@,
        "reload-bypass-cache"@,
        "stop"@,
        "go-home"@,
        "zoom-in"@,
        "zoom-out"@,
        "zoom-reset"@,
    ]
}

/// What an action does in a window whose start page is `home`.
pub open spec fn action_plan(name: Seq<char>, home: Seq<char>) -> Option<Seq<StepView>> {
    if name == "forward"@ {
        Some(forward_plan())
    } else if name == "back"@ {
        Some(back_plan())
    } else if name == "reload"@ {
        Some(seq![StepView::Reload])
    } else if name == "reload-bypass-cache"@ {
        Some(seq![StepView::ReloadBypassCache])
    } else if name == "stop"@ {
        Some(seq![StepView::StopLoading])
    } else if name == "go-home"@ {
        Some(seq![StepView::LoadUri { uri: home }])
    } else if name == "zoom-in"@ {
        Some(seq![StepView::Zoom(ZoomStep::In)])
    } else if name == "zoom-out"@ {
        Some(seq![StepView::Zoom(ZoomStep::Out)])
    } else if name == "zoom-reset"@ {
        Some(seq![StepView::Zoom(ZoomStep::Reset)])
    } else {
        None
    }
}

/// The names of the window's actions, in the order in which they are set up.
pub fn action_names() -> (names: Vec<&'static str>)
    ensures
        text::names(names@) == action_list(),
{
    let mut names: Vec<&'static str> = Vec::new();
    names.push("forward");
    names.push("back");
    names.push("reload");
    names.push("reload-bypass-cache");
    names.push("stop");
    names.push("go-home");
    names.push("zoom-in");
    names.push("zoom-out");
    names.push("zoom-reset");
    assert(text::names(names@) =~= action_list());
    names
}

/// The steps of an action in a window whose start page is `home`, if there is an action of
/// that name.
pub fn action_steps(name: &str, home: &str) -> (steps: Option<Vec<Step>>)
    ensures
        plan_option(steps) == action_plan(name@, home@),
{
    if same_text(name, "forward") {
        Some(forward_steps())
    } else if same_text(name, "back") {
        Some(back_steps())
    } else if same_text(name, "reload") {
        Some(one_step(Step::Reload))
    } else if same_text(name, "reload-bypass-cache") {
        Some(one_step(Step::ReloadBypassCache))
    } else if same_text(name, "stop") {
        Some(one_step(Step::StopLoading))
    } else if same_text(name, "go-home") {
        Some(one_step(Step::LoadUri { uri: home.to_owned() }))
    } else if same_text(name, "zoom-in") {
        Some(one_step(Step::Zoom(ZoomStep::In)))
    } else if same_text(name, "zoom-out") {
        Some(one_step(Step::Zoom(ZoomStep::Out)))
    } else if same_text(name, "zoom-reset") {
        Some(one_step(Step::Zoom(ZoomStep::Reset)))
    } else {
        None
    }
}

/// The mouse button that goes back.
pub const BACK_MOUSE_BUTTON: u32 = 8;

/// The mouse button that goes forward.
pub const FORWARD_MOUSE_BUTTON: u32 = 9;

/// What pressing a mouse button does. The press is kept from the page where it moves
/// through the history.
pub open spec fn press_plan(button: u32) -> Seq<StepView> {
    if button == BACK_MOUSE_BUTTON {
        seq![StepView::ClaimGesture] + back_plan()
    } else if button == FORWARD_MOUSE_BUTTON {
        seq![StepView::ClaimGesture] + forward_plan()
    } else {
        Seq::empty()
    }
}

/// The steps that pressing a mouse button leads to.
pub fn pressed_steps(button: u32) -> (steps: Vec<Step>)
    ensures
        plan(steps@) == press_plan(button),
{
    let mut steps: Vec<Step> = Vec::new();
    if button == BACK_MOUSE_BUTTON {
        steps.push(Step::ClaimGesture);
        steps.push(Step::GoBack);
        steps.push(Step::UpdateNavButtons);
    }
    if button == FORWARD_MOUSE_BUTTON {
        steps.push(Step::ClaimGesture);
        steps.push(Step::GoForward);
        steps.push(Step::UpdateNavButtons);
    }
    assert(plan(steps@) =~= press_plan(button));
    steps
}

/// What is known of a view's history when the buttons are set.
pub struct History {
    /// Where the view is.
    pub uri: Option<String>,
    /// The address of the entry before the current one of the list.
    pub back_uri: Option<String>,
    /// The address of the entry after the current one of the list.
    pub forward_uri: Option<String>,
    /// How many entries stand before the current one of the list.
    pub back_len: usize,
    /// How many entries stand after the current one of the list.
    pub forward_len: usize,
    pub can_go_back: bool,
    pub can_go_forward: bool,
}

/// Which navigation buttons can be pressed.
#[derive(Clone, Copy, PartialEq, Eq, Structural, Debug)]
pub struct NavButtons {
    pub back: bool,
    pub forward: bool,
}

/// Which navigation buttons can be pressed in a view that has an address. The list may lag
/// behind the view: where the view is already at the entry before or after the current one,
/// the list is read as if it had moved there, so that the entry just left lies on the other
/// side.
pub open spec fn buttons_at(uri: Seq<char>, history: History) -> NavButtons {
    if text::text_option(history.back_uri) == Some(uri) {
        NavButtons { back: history.back_len > 1, forward: true }
    } else if text::text_option(history.forward_uri) == Some(uri) {
        NavButtons { back: true, forward: history.forward_len > 1 }
    } else {
        NavButtons { back: history.can_go_back, forward: history.can_go_forward }
    }
}

/// Which navigation buttons can be pressed in a view that has no address: it goes by the
/// lengths of the list as it stands, on the side on which no address is known.
pub open spec fn buttons_nowhere(history: History) -> NavButtons {
    if history.back_uri is None {
        NavButtons { back: history.back_len != 1, forward: history.forward_len == 0 }
    } else if history.forward_uri is None {
        NavButtons { back: history.back_len == 0, forward: history.forward_len != 1 }
    } else {
        NavButtons { back: history.can_go_back, forward: history.can_go_forward }
    }
}

/// Which navigation buttons can be pressed.
pub open spec fn nav_buttons(history: History) -> NavButtons {
    match history.uri {
        Some(uri) => buttons_at(uri@, history),
        None => buttons_nowhere(history),
    }
}

fn is_address(entry: &Option<String>, uri: &String) -> (same: bool)
    ensures
        same == (text::text_option(*entry) == Some(uri@)),
{
    match entry {
        Some(entry) => same_text(entry.as_str(), uri.as_str()),
        None => false,
    }
}

/// Which navigation buttons can be pressed.
pub fn update_nav_buttons(history: &History) -> (buttons: NavButtons)
    ensures
        buttons == nav_buttons(*history),
{
    match &history.uri {
        Some(uri) => {
            // The list has not been updated by this point. We correct by comparing the
            // current address with where it was in the list
            if is_address(&history.back_uri, uri) {
                NavButtons { back: history.back_len > 1, forward: true }
            } else if is_address(&history.forward_uri, uri) {
                NavButtons { back: true, forward: history.forward_len > 1 }
            } else {
                NavButtons { back: history.can_go_back, forward: history.can_go_forward }
            }
        },
        None => {
            if history.back_uri.is_none() {
                NavButtons { back: history.back_len != 1, forward: history.forward_len == 0 }
            } else if history.forward_uri.is_none() {
                NavButtons { back: history.back_len == 0, forward: history.forward_len != 1 }
            } else {
                NavButtons { back: history.can_go_back, forward: history.can_go_forward }
            }
        },
    }
}

/// Whether what is known of a history is read off a list of entries that stands at
/// `current`.
pub open spec fn read_off(history: History, entries: Seq<Seq<char>>, current: int) -> bool {
    &&& 0 <= current < entries.len()
    &&& history.back_len == current
    &&& history.forward_len == entries.len() - current - 1
    &&& text::text_option(history.back_uri) == (if current > 0 {
        Some(entries[current - 1])
    } else {
        None
    })
    &&& text::text_option(history.forward_uri) == (if current + 1 < entries.len() {
        Some(entries[current + 1])
    } else {
        None
    })
    &&& history.can_go_back == (current > 0)
    &&& history.can_go_forward == (current + 1 < entries.len())
}

/// The buttons are right although the list lags: whether the view is where the list stands
/// or one step before or after it, each button can be pressed exactly where there is an
/// entry on its side of the view. The view's address must tell where it is: it is not also
/// that of an entry around it for which it would be taken first.
pub proof fn law_buttons_follow_view(
    history: History,
    entries: Seq<Seq<char>>,
    current: int,
    at: int,
)
    requires
        read_off(history, entries, current),
        0 <= at < entries.len(),
        current - 1 <= at <= current + 1,
        text::text_option(history.uri) == Some(entries[at]),
        at >= current && current > 0 ==> entries[at] != entries[current - 1],
        at == current && current + 1 < entries.len() ==> entries[at] != entries[current + 1],
    ensures
        nav_buttons(history).back == (at > 0),
        nav_buttons(history).forward == (at + 1 < entries.len()),
{
}

/// Every listed action does something, and no other name does.
pub proof fn law_actions_listed(name: Seq<char>, home: Seq<char>)
    ensures
        action_list().contains(name) <==> action_plan(name, home) is Some,
{
    if action_plan(name, home) is Some {
        assert(action_list()[0] == "forward"@);
        assert(action_list()[1] == "back"@);
        assert(action_list()[2] == "reload"@);
        assert(action_list()[3] == "reload-bypass-cache"@);
        assert(action_list()[4] == "stop"@);
        assert(action_list()[5] == "go-home"@);
        assert(action_list()[6] == "zoom-in"@);
        assert(action_list()[7] == "zoom-out"@);
        assert(action_list()[8] == "zoom-reset"@);
    }
}

/// The buttons are set after every move through the history, however it was asked for.
pub proof fn law_moves_update_buttons(name: Seq<char>, home: Seq<char>, button: u32)
    ensures
        action_plan(name, home) matches Some(steps) ==> moves_update_buttons(steps),
        moves_update_buttons(press_plan(button)),
{
}

/// Whether every move through the history is followed at once by setting the buttons.
pub open spec fn moves_update_buttons(steps: Seq<StepView>) -> bool {
    forall|i: int|
        0 <= i < steps.len() && (#[trigger] steps[i] is GoBack || steps[i] is GoForward) ==> i + 1
            < steps.len() && steps[i + 1] is UpdateNavButtons
}

/// Each step of a plan is that of its own step, and none is left out.
pub proof fn law_plan_step_by_step(steps: Seq<Step>, i: int)
    requires
        0 <= i < steps.len(),
    ensures
        plan(steps).len() == steps.len(),
        plan(steps)[i] == steps[i]@,
        steps[i] is GoBack <==> plan(steps)[i] is GoBack,
        steps[i] is GoForward <==> plan(steps)[i] is GoForward,
        steps[i] is UpdateNavButtons <==> plan(steps)[i] is UpdateNavButtons,
        steps[i] is Reload <==> plan(steps)[i] is Reload,
        steps[i] is ReloadBypassCache <==> plan(steps)[i] is ReloadBypassCache,
        steps[i] is StopLoading <==> plan(steps)[i] is StopLoading,
        steps[i] is ClaimGesture <==> plan(steps)[i] is ClaimGesture,
        steps[i] matches Step::LoadUri { uri } ==> plan(steps)[i] == (StepView::LoadUri {
            uri: uri@,
        }),
        steps[i] matches Step::Zoom(zoom) ==> plan(steps)[i] == StepView::Zoom(zoom),
{
}

/// Going back moves back once and then sets the buttons; going forward moves forward once and
/// then sets the buttons.
pub proof fn law_moves_once(back: Vec<Step>, forward: Vec<Step>)
    requires
        call_ensures(back_steps, (), back),
        call_ensures(forward_steps, (), forward),
    ensures
        back@.len() == 2 && back@[0] is GoBack && back@[1] is UpdateNavButtons,
        forward@.len() == 2 && forward@[0] is GoForward && forward@[1] is UpdateNavButtons,
{
    assert(plan(back@).len() == back@.len());
    assert(plan(forward@).len() == forward@.len());
    assert(plan(back@)[0] == back@[0]@ && plan(back@)[1] == back@[1]@);
    assert(plan(forward@)[0] == forward@[0]@ && plan(forward@)[1] == forward@[1]@);
}

/// The names of the actions are told apart by these lengths and letters.
proof fn lemma_action_names_differ()
    ensures
        action_list().no_duplicates(),
{
    reveal_strlit("forward");
    reveal_strlit("back");
    reveal_strlit("reload");
    reveal_strlit("reload-bypass-cache");
    reveal_strlit("stop");
    reveal_strlit("go-home");
    reveal_strlit("zoom-in");
    reveal_strlit("zoom-out");
    reveal_strlit("zoom-reset");
    assert("forward"@[0] == 'f');
    assert("back"@[0] == 'b');
    assert("reload"@.len() == 6);
    assert("reload-bypass-cache"@.len() == 19);
    assert("stop"@[0] == 's');
    assert("go-home"@[0] == 'g');
    assert("zoom-in"@[0] == 'z' && "zoom-in"@.len() == 7);
    assert("zoom-out"@[0] == 'z' && "zoom-out"@.len() == 8);
    assert("zoom-reset"@[0] == 'z' && "zoom-reset"@.len() == 10);
    let list = action_list();
    assert(list.len() == 9);
    assert forall|i: int, k: int| 0 <= i < list.len() && 0 <= k < list.len() && i != k implies list[i]
        != list[k] by {
        assert(list[0] == "forward"@ && list[1] == "back"@ && list[2] == "reload"@);
        assert(list[3] == "reload-bypass-cache"@ && list[4] == "stop"@ && list[5] == "go-home"@);
        assert(list[6] == "zoom-in"@ && list[7] == "zoom-out"@ && list[8] == "zoom-reset"@);
        assert(list[i].len() != list[k].len() || list[i][0] != list[k][0]);
    }
}

/// Each action does what its name says and nothing else, once: an action that moves through
/// the history sets the buttons after it, going home loads the start page, and every other
/// action is one step. There is no action of any other name.
pub proof fn law_action_does_what_it_says<'a>(
    name: &'a str,
    home: &'a str,
    steps: Option<Vec<Step>>,
)
    requires
        call_ensures(action_steps, (name, home), steps),
    ensures
        steps is Some <==> name@ == "forward"@ || name@ == "back"@ || name@ == "reload"@ || name@
            == "reload-bypass-cache"@ || name@ == "stop"@ || name@ == "go-home"@ || name@
            == "zoom-in"@ || name@ == "zoom-out"@ || name@ == "zoom-reset"@,
        steps matches Some(s) ==> {
            &&& s@.len() == (if name@ == "forward"@ || name@ == "back"@ {
                2int
            } else {
                1int
            })
            &&& s@.len() == 2 ==> s@[1] is UpdateNavButtons
            &&& s@[0] is GoForward <==> name@ == "forward"@
            &&& s@[0] is GoBack <==> name@ == "back"@
            &&& s@[0] is Reload <==> name@ == "reload"@
            &&& s@[0] is ReloadBypassCache <==> name@ == "reload-bypass-cache"@
            &&& s@[0] is StopLoading <==> name@ == "stop"@
            &&& (s@[0] matches Step::LoadUri { uri } && uri@ == home@) <==> name@ == "go-home"@
            &&& s@[0] == Step::Zoom(ZoomStep::In) <==> name@ == "zoom-in"@
            &&& s@[0] == Step::Zoom(ZoomStep::Out) <==> name@ == "zoom-out"@
            &&& s@[0] == Step::Zoom(ZoomStep::Reset) <==> name@ == "zoom-reset"@
        },
{
    lemma_action_names_differ();
    let list = action_list();
    assert(list[0] == "forward"@ && list[1] == "back"@ && list[2] == "reload"@);
    assert(list[3] == "reload-bypass-cache"@ && list[4] == "stop"@ && list[5] == "go-home"@);
    assert(list[6] == "zoom-in"@ && list[7] == "zoom-out"@ && list[8] == "zoom-reset"@);
    if let Some(s) = steps {
        let planned = plan(s@);
        assert(planned.len() == s@.len());
        assert(Some(planned) == action_plan(name@, home@));
        assert(planned[0] == s@[0]@);
        if s@.len() == 2 {
            assert(planned[1] == s@[1]@);
        }
    }
}

/// The actions that are set up are these nine, each of them once, and each of them does
/// something.
pub proof fn law_actions_set_up(names: Vec<&'static str>, home: &str)
    requires
        call_ensures(action_names, (), names),
    ensures
        names@.len() == 9,
        forall|i: int, k: int|
            0 <= i < k < names@.len() ==> (#[trigger] names@[i])@ != (#[trigger] names@[k])@,
        forall|i: int, steps: Option<Vec<Step>>|
            0 <= i < names@.len() && #[trigger] call_ensures(
                action_steps,
                (names@[i], home),
                steps,
            ) ==> steps is Some,
{
    lemma_action_names_differ();
    let list = text::names(names@);
    assert(list.len() == names@.len());
    assert(forall|i: int| 0 <= i < names@.len() ==> list[i] == (#[trigger] names@[i])@);
    assert forall|i: int, steps: Option<Vec<Step>>|
        0 <= i < names@.len() && #[trigger] call_ensures(
            action_steps,
            (names@[i], home),
            steps,
        ) implies steps is Some by {
        assert(list[i] == names@[i]@);
        assert(action_list().contains(list[i]));
        law_actions_listed(list[i], home@);
    }
}

/// The eighth mouse button goes back and the ninth forward, as the actions do, and the press
/// is kept from the page first; no other button does anything.
pub proof fn law_mouse_buttons_move(
    button: u32,
    steps: Vec<Step>,
    back: Vec<Step>,
    forward: Vec<Step>,
)
    requires
        call_ensures(pressed_steps, (button,), steps),
        call_ensures(back_steps, (), back),
        call_ensures(forward_steps, (), forward),
    ensures
        button == 8 ==> steps@.len() == 3 && steps@[0] is ClaimGesture && steps@[1] is GoBack
            && steps@[2] is UpdateNavButtons,
        button == 9 ==> steps@.len() == 3 && steps@[0] is ClaimGesture && steps@[1] is GoForward
            && steps@[2] is UpdateNavButtons,
        button == 8 ==> plan(steps@).drop_first() == plan(back@),
        button == 9 ==> plan(steps@).drop_first() == plan(forward@),
        button != 8 && button != 9 ==> steps@.len() == 0,
{
    let planned = plan(steps@);
    assert(planned.len() == steps@.len());
    assert(forall|i: int| 0 <= i < steps@.len() ==> planned[i] == (#[trigger] steps@[i])@);
    if button == 8 {
        assert(planned.drop_first() =~= plan(back@));
        assert(planned[0] == steps@[0]@ && planned[1] == steps@[1]@ && planned[2] == steps@[2]@);
    }
    if button == 9 {
        assert(planned.drop_first() =~= plan(forward@));
        assert(planned[0] == steps@[0]@ && planned[1] == steps@[1]@ && planned[2] == steps@[2]@);
    }
}

/// A view at an address that is neither that of the entry before nor that of the entry after
/// goes by what the web engine says; one that is already at the entry before can go forward,
/// and back where more than that entry lies before; and one at the entry after can go back,
/// and forward where more than that entry lies after.
pub proof fn law_buttons_of_view_with_address(history: &History, buttons: NavButtons)
    requires
        call_ensures(update_nav_buttons, (history,), buttons),
        history.uri is Some,
    ensures
        ({
            let uri = history.uri.unwrap()@;
            let at_back = history.back_uri is Some && history.back_uri.unwrap()@ == uri;
            let at_forward = history.forward_uri is Some && history.forward_uri.unwrap()@ == uri;
            &&& at_back ==> buttons.forward && (buttons.back <==> history.back_len > 1)
            &&& at_forward && !at_back ==> buttons.back && (buttons.forward <==> history.forward_len
                > 1)
            &&& !at_back && !at_forward ==> buttons.back == history.can_go_back
                && buttons.forward == history.can_go_forward
        }),
{
}

/// A view without an address is taken to be on the side on which no address is known, the
/// entry before first; only where both are known it goes by what the web engine says.
pub proof fn law_buttons_of_view_without_address(history: &History, buttons: NavButtons)
    requires
        call_ensures(update_nav_buttons, (history,), buttons),
        history.uri is None,
    ensures
        history.back_uri is None ==> (buttons.back <==> history.back_len != 1) && (buttons.forward
            <==> history.forward_len == 0),
        history.back_uri is Some && history.forward_uri is None ==> (buttons.back
            <==> history.back_len == 0) && (buttons.forward <==> history.forward_len != 1),
        history.back_uri is Some && history.forward_uri is Some ==> buttons.back
            == history.can_go_back && buttons.forward == history.can_go_forward,
{
}

} // verus!
