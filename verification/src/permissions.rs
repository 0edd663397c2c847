//! Website permissions: what a site asks for, what was decided before, and what is
//! remembered of an answer. Decisions are stored per app, origin and kind.

use vstd::prelude::*;
use vstd::string::*;

use crate::address;
use crate::address::page_origin;
use crate::text;
use crate::text::{has_text, join_texts, same_text};

verus! {

/// The kinds of a table of kinds and their labels.
pub open spec fn table_kinds(table: Seq<(&'static str, &'static str)>) -> Seq<Seq<char>> {
    table.map_values(|row: (&'static str, &'static str)| row.0@)
}

/// The stored kind that a permission name of the web engine stands for: anything about
/// audio is the microphone, anything about video the camera, and another name stands for
/// itself if it is a known kind.
pub open spec fn stored_kind(known: Seq<Seq<char>>, name: Option<Seq<char>>) -> Option<Seq<char>> {
    match name {
        Some(name) => if text::contains_text(name, "audio"@) {
            Some("microphone"@)
        } else if text::contains_text(name, "video"@) {
            Some("camera"@)
        } else if known.contains(name) {
            Some(name)
        } else {
            None
        },
        None => None,
    }
}

/// Maps the web engine's permission API names onto our stored kinds. `table` lists the
/// known kinds with their labels.
pub fn normalize_permission_name(
    table: &[(&'static str, &'static str)],
    name: Option<&str>,
) -> (kind: Option<&'static str>)
    ensures
        text::str_option(kind) == stored_kind(table_kinds(table@), text::str_option(name)),
{
    match name {
        None => None,
        Some(wanted) => {
            if has_text(wanted, "audio") {
                Some("microphone")
            } else if has_text(wanted, "video") {
                Some("camera")
            } else {
                let mut i: usize = 0;
                while i < table.len()
                    invariant
                        i <= table@.len(),
                        name == Some(wanted),
                        !text::contains_text(wanted@, "audio"@),
                        !text::contains_text(wanted@, "video"@),
                        forall|k: int| 0 <= k < i ==> #[trigger] table_kinds(table@)[k] != wanted@,
                    decreases table@.len() - i,
                {
                    if same_text(table[i].0, wanted) {
                        assert(table_kinds(table@)[i as int] == wanted@);
                        return Some(table[i].0);
                    }
                    i += 1;
                }
                None
            }
        },
    }
}

/// A permission request of the web engine: for the microphone or the camera or both, or of
/// another type, told apart by its name.
pub enum PermissionRequest {
    UserMedia { audio: bool, video: bool },
    Other { class: String },
}

/// Which stored permission kinds a request maps to.
pub open spec fn requested_kinds(request: PermissionRequest) -> Seq<Seq<char>> {
    match request {
        PermissionRequest::UserMedia { audio, video } => {
            let microphone = if audio {
                seq!["microphone"@]
            } else {
                Seq::empty()
            };
            if video {
                microphone.push("camera"@)
            } else {
                microphone
            }
        },
        PermissionRequest::Other { class } => if class@
            == "WebKitNotificationPermissionRequest"@ {
            seq!["notifications"@]
        } else if class@ == "WebKitGeolocationPermissionRequest"@ {
            seq!["geolocation"@]
        } else {
            Seq::empty()
        },
    }
}

/// Which stored permission kinds a permission request maps to. Multiple kinds are returned
/// when e.g. camera AND microphone are both requested; all of them share one
/// prompt/decision.
pub fn permission_kinds(request: &PermissionRequest) -> (kinds: Vec<&'static str>)
    ensures
        text::names(kinds@) == requested_kinds(*request),
{
    let mut kinds: Vec<&'static str> = Vec::new();
    match request {
        PermissionRequest::UserMedia { audio, video } => {
            if *audio {
                kinds.push("microphone");
            }
            if *video {
                kinds.push("camera");
            }
        },
        PermissionRequest::Other { class } => {
            if same_text(class.as_str(), "WebKitNotificationPermissionRequest") {
                kinds.push("notifications");
            } else if same_text(class.as_str(), "WebKitGeolocationPermissionRequest") {
                kinds.push("geolocation");
            }
        },
    }
    assert(text::names(kinds@) =~= requested_kinds(*request));
    kinds
}

/// Under what a decision is stored.
pub struct PermissionKey {
    pub app: String,
    pub origin: String,
    pub kind: &'static str,
}

/// What `PermissionKey` holds, as mathematical values.
pub struct KeyView {
    pub app: Seq<char>,
    pub origin: Seq<char>,
    pub kind: Seq<char>,
}

impl View for PermissionKey {
    type V = KeyView;

    open spec fn view(&self) -> KeyView {
        KeyView { app: self.app@, origin: self.origin@, kind: self.kind@ }
    }
}

/// The keys of several kinds at one origin of one app.
pub open spec fn keys_of(app: Seq<char>, origin: Seq<char>, kinds: Seq<Seq<char>>) -> Seq<KeyView> {
    kinds.map_values(|kind: Seq<char>| KeyView { app, origin, kind })
}

/// Each key of a list.
pub open spec fn key_views(keys: Seq<PermissionKey>) -> Seq<KeyView> {
    keys.map_values(|key: PermissionKey| key@)
}

/// A request whose earlier decisions are to be looked up.
pub struct PermissionLookup {
    pub app: String,
    pub origin: String,
    pub kinds: Vec<&'static str>,
}

/// What to do about a permission request at first.
pub enum RequestStep {
    /// Of an unknown type: fall back to the web engine's default behavior.
    Unhandled,
    /// Refuse it: the page has no origin to store a decision for.
    Deny,
    /// Look up what was decided for each of its kinds.
    LookUp(PermissionLookup),
}

/// What `RequestStep` holds, as mathematical values.
pub enum RequestStepView {
    Unhandled,
    Deny,
    LookUp { app: Seq<char>, origin: Seq<char>, kinds: Seq<Seq<char>> },
}

impl View for RequestStep {
    type V = RequestStepView;

    open spec fn view(&self) -> RequestStepView {
        match self {
            RequestStep::Unhandled => RequestStepView::Unhandled,
            RequestStep::Deny => RequestStepView::Deny,
            RequestStep::LookUp(lookup) => RequestStepView::LookUp {
                app: lookup.app@,
                origin: lookup.origin@,
                kinds: text::names(lookup.kinds@),
            },
        }
    }
}

impl RequestStep {
    /// Whether the web engine is told that the request was taken care of.
    pub fn handled(&self) -> (handled: bool)
        ensures
            handled == !(self is Unhandled),
    {
        !matches!(self, RequestStep::Unhandled)
    }
}

/// What to do at first about a request by a page with this origin, if it has one.
pub open spec fn first_step(
    app: Seq<char>,
    request: PermissionRequest,
    origin: Option<Seq<char>>,
) -> RequestStepView {
    if requested_kinds(request).len() == 0 {
        RequestStepView::Unhandled
    } else {
        match origin {
            Some(origin) => RequestStepView::LookUp {
                app,
                origin,
                kinds: requested_kinds(request),
            },
            None => RequestStepView::Deny,
        }
    }
}

/// What to do at first about a request by a page whose origin is known.
pub fn request_at_origin(id: &str, request: &PermissionRequest, origin: Option<String>) -> (step:
    RequestStep)
    ensures
        step@ == first_step(id@, *request, text::text_option(origin)),
{
    let kinds: Vec<&'static str> = permission_kinds(request);
    assert(text::names(kinds@).len() == kinds@.len());
    if kinds.len() == 0 {
        return RequestStep::Unhandled;
    }
    match origin {
        None => RequestStep::Deny,
        Some(origin) => RequestStep::LookUp(PermissionLookup { app: id.to_owned(), origin, kinds }),
    }
}

/// What to do at first about a request by the page at `uri`.
pub fn permission_request(id: &str, request: &PermissionRequest, uri: Option<&str>) -> (step:
    RequestStep)
    ensures
        step@ == first_step(id@, *request, address::origin_of_page(text::str_option(uri))),
{
    request_at_origin(id, request, page_origin(uri))
}

/// What earlier decisions on all kinds of a request amount to: nothing unless each kind has
/// one, and then permission only where each was allowed.
pub open spec fn settled(decisions: Seq<Option<bool>>) -> Option<bool> {
    if forall|i: int| 0 <= i < decisions.len() ==> #[trigger] decisions[i] is Some {
        Some(forall|i: int| 0 <= i < decisions.len() ==> #[trigger] decisions[i] == Some(true))
    } else {
        None
    }
}

/// What earlier decisions settle: `Some(true)` to allow, `Some(false)` to deny, `None` to
/// ask the user.
pub fn settle_request(decisions: &Vec<Option<bool>>) -> (outcome: Option<bool>)
    ensures
        outcome == settled(decisions@),
{
    let mut allow: bool = true;
    let mut i: usize = 0;
    while i < decisions.len()
        invariant
            i <= decisions@.len(),
            forall|k: int| 0 <= k < i ==> #[trigger] decisions@[k] is Some,
            allow == (forall|k: int| 0 <= k < i ==> #[trigger] decisions@[k] == Some(true)),
        decreases decisions@.len() - i,
    {
        match decisions[i] {
            None => {
                assert(decisions@[i as int] is None);
                return None;
            },
            Some(decision) => {
                assert(decisions@[i as int] == Some(decision));
                allow = allow && decision;
            },
        }
        i += 1;
    }
    Some(allow)
}

/// The question put to the user.
pub struct Prompt {
    pub heading: String,
    pub body: String,
    /// The answers, each by its name and what is shown for it.
    pub responses: Vec<(&'static str, &'static str)>,
    /// The answer that is shown as destructive.
    pub destructive: &'static str,
    /// The answer that is given by default.
    pub default: &'static str,
}

/// The heading of the question whether an app may use what the labels say.
pub open spec fn prompt_heading(title: Option<Seq<char>>, labels: Seq<Seq<char>>) -> Seq<char> {
    let shown = match title {
        Some(title) => title,
        None => Seq::empty(),
    };
    "Allow "@ + shown + " to use "@ + text::joined(labels, ", "@) + "?"@
}

/// One write to the store of decisions.
pub struct PermissionWrite {
    pub key: PermissionKey,
    pub allow: bool,
}

/// Each write of a list.
pub open spec fn write_views(writes: Seq<PermissionWrite>) -> Seq<(KeyView, bool)> {
    writes.map_values(|write: PermissionWrite| (write.key@, write.allow))
}

/// What follows from the user's answer.
pub struct PromptAnswer {
    /// Whether the request is allowed, or else denied.
    pub allow: bool,
    /// What to remember, in order.
    pub writes: Vec<PermissionWrite>,
}

/// The same decision on each of the keys.
pub open spec fn decision_writes(keys: Seq<KeyView>, allow: bool) -> Seq<(KeyView, bool)> {
    keys.map_values(|key: KeyView| (key, allow))
}

impl PermissionLookup {
    /// The keys under which decisions on this request are stored.
    pub open spec fn key_list(self) -> Seq<KeyView> {
        keys_of(self.app@, self.origin@, text::names(self.kinds@))
    }

    fn key_at(&self, i: usize) -> (key: PermissionKey)
        requires
            i < self.kinds@.len(),
        ensures
            key@ == self.key_list()[i as int],
    {
        PermissionKey { app: self.app.clone(), origin: self.origin.clone(), kind: self.kinds[i] }
    }

    /// The keys to look up, one for each kind, in order.
    pub fn keys(&self) -> (keys: Vec<PermissionKey>)
        ensures
            key_views(keys@) == self.key_list(),
    {
        let mut keys: Vec<PermissionKey> = Vec::new();
        let mut i: usize = 0;
        while i < self.kinds.len()
            invariant
                i <= self.kinds@.len(),
                key_views(keys@) == self.key_list().take(i as int),
            decreases self.kinds@.len() - i,
        {
            let key: PermissionKey = self.key_at(i);
            let ghost before = keys@;
            keys.push(key);
            assert(key_views(keys@) =~= key_views(before).push(key@));
            assert(self.key_list().take(i + 1) =~= self.key_list().take(i as int).push(key@));
            i += 1;
        }
        assert(self.key_list().take(i as int) =~= self.key_list());
        keys
    }

    /// The question to ask where nothing was decided yet, by the app's title, if the app is
    /// known, and the label of each kind.
    pub fn prompt(&self, title: Option<String>, labels: &Vec<String>) -> (prompt: Prompt)
        ensures
            prompt.heading@ == prompt_heading(text::text_option(title), text::texts(labels@)),
            prompt.body@ == self.origin@,
            prompt.responses@ == seq![("deny", "Deny"), ("allow", "Allow")],
            prompt.destructive@ == "deny"@,
            prompt.default@ == "allow"@,
    {
        let mut heading: String = "Allow ".to_owned();
        match &title {
            Some(title) => {
                heading.append(title.as_str());
            },
            None => {},
        }
        heading.append(" to use ");
        heading.append(join_texts(labels, ", ").as_str());
        heading.append("?");
        assert(heading@ =~= prompt_heading(text::text_option(title), text::texts(labels@)));
        let mut responses: Vec<(&'static str, &'static str)> = Vec::new();
        responses.push(("deny", "Deny"));
        responses.push(("allow", "Allow"));
        Prompt {
            heading,
            body: self.origin.clone(),
            responses,
            destructive: "deny",
            default: "allow",
        }
    }

    /// What follows from the answer with this name. Any answer but "allow" denies, and the
    /// decision is remembered for every kind.
    pub fn answer(&self, response: &str) -> (answer: PromptAnswer)
        ensures
            answer.allow == (response@ == "allow"@),
            write_views(answer.writes@) == decision_writes(self.key_list(), answer.allow),
    {
        let allow: bool = same_text(response, "allow");
        let mut writes: Vec<PermissionWrite> = Vec::new();
        let mut i: usize = 0;
        while i < self.kinds.len()
            invariant
                i <= self.kinds@.len(),
                write_views(writes@) == decision_writes(self.key_list().take(i as int), allow),
            decreases self.kinds@.len() - i,
        {
            let key: PermissionKey = self.key_at(i);
            let ghost before = writes@;
            let ghost view = key@;
            writes.push(PermissionWrite { key, allow });
            assert(write_views(writes@) =~= write_views(before).push((view, allow)));
            assert(self.key_list().take(i + 1) =~= self.key_list().take(i as int).push(view));
            assert(decision_writes(self.key_list().take(i + 1), allow) =~= decision_writes(
                self.key_list().take(i as int),
                allow,
            ).push((view, allow)));
            i += 1;
        }
        assert(self.key_list().take(i as int) =~= self.key_list());
        PromptAnswer { allow, writes }
    }
}

/// A state that a page's query is answered with.
#[derive(Clone, Copy, PartialEq, Eq, Structural, Debug)]
pub enum PermissionState {
    Granted,
    Denied,
}

/// The key that answers a page's query, if the name and the page's origin are known.
pub open spec fn query_key(
    app: Seq<char>,
    known: Seq<Seq<char>>,
    name: Option<Seq<char>>,
    origin: Option<Seq<char>>,
) -> Option<KeyView> {
    match (stored_kind(known, name), origin) {
        (Some(kind), Some(origin)) => Some(KeyView { app, origin, kind }),
        _ => None,
    }
}

/// A key that may be missing.
pub open spec fn key_option(key: Option<PermissionKey>) -> Option<KeyView> {
    match key {
        Some(key) => Some(key@),
        None => None,
    }
}

/// The key of the decision that a query by a page with this origin asks for.
pub fn query_at_origin(
    id: &str,
    table: &[(&'static str, &'static str)],
    name: Option<&str>,
    origin: Option<String>,
) -> (key: Option<PermissionKey>)
    ensures
        key_option(key) == query_key(
            id@,
            table_kinds(table@),
            text::str_option(name),
            text::text_option(origin),
        ),
{
    match normalize_permission_name(table, name) {
        None => None,
        Some(kind) => match origin {
            None => None,
            Some(origin) => Some(PermissionKey { app: id.to_owned(), origin, kind }),
        },
    }
}

/// The key of the decision that a query by the page at `uri` asks for. Without one the
/// query is left unanswered.
pub fn query_permission_state(
    id: &str,
    table: &[(&'static str, &'static str)],
    name: Option<&str>,
    uri: Option<&str>,
) -> (key: Option<PermissionKey>)
    ensures
        key_option(key) == query_key(
            id@,
            table_kinds(table@),
            text::str_option(name),
            address::origin_of_page(text::str_option(uri)),
        ),
{
    query_at_origin(id, table, name, page_origin(uri))
}

/// Applies a saved permission decision without prompting. Without one the query is left
/// unanswered.
pub fn answer_query(saved: Option<bool>) -> (state: Option<PermissionState>)
    ensures
        state == (match saved {
            Some(true) => Some(PermissionState::Granted),
            Some(false) => Some(PermissionState::Denied),
            None => None,
        }),
{
    match saved {
        Some(true) => Some(PermissionState::Granted),
        Some(false) => Some(PermissionState::Denied),
        None => None,
    }
}

/// What a store of decisions holds for each of the keys.
pub open spec fn saved(store: Map<KeyView, bool>, keys: Seq<KeyView>) -> Seq<Option<bool>> {
    keys.map_values(|key: KeyView| saved_at(store, key))
}

/// What a store of decisions holds for a key.
pub open spec fn saved_at(store: Map<KeyView, bool>, key: KeyView) -> Option<bool> {
    if store.dom().contains(key) {
        Some(store[key])
    } else {
        None
    }
}

/// A store of decisions after writes, made in order.
pub open spec fn after_writes(
    store: Map<KeyView, bool>,
    writes: Seq<(KeyView, bool)>,
) -> Map<KeyView, bool>
    decreases writes.len(),
{
    if writes.len() == 0 {
        store
    } else {
        after_writes(store, writes.drop_last()).insert(writes.last().0, writes.last().1)
    }
}

/// What a store holds after one decision on several keys.
proof fn lemma_after_decision(
    store: Map<KeyView, bool>,
    keys: Seq<KeyView>,
    allow: bool,
    key: KeyView,
)
    ensures
        saved_at(after_writes(store, decision_writes(keys, allow)), key) == (if keys.contains(key) {
            Some(allow)
        } else {
            saved_at(store, key)
        }),
    decreases keys.len(),
{
    if keys.len() > 0 {
        let writes = decision_writes(keys, allow);
        assert(writes.drop_last() =~= decision_writes(keys.drop_last(), allow));
        lemma_after_decision(store, keys.drop_last(), allow, key);
        assert(keys =~= keys.drop_last().push(keys.last()));
        if keys.drop_last().contains(key) {
            let i = choose|i: int| 0 <= i < keys.drop_last().len() && keys.drop_last()[i] == key;
            assert(keys[i] == key);
        }
        if keys.contains(key) && key != keys.last() {
            let i = choose|i: int| 0 <= i < keys.len() && keys[i] == key;
            assert(keys.drop_last()[i] == key);
        }
    }
}

/// An answer is remembered: once what it asks to write is stored, the same request is
/// settled as the user answered, without asking again.
pub proof fn law_answer_settles_next_request(
    store: Map<KeyView, bool>,
    keys: Seq<KeyView>,
    allow: bool,
)
    requires
        keys.len() > 0,
    ensures
        settled(saved(after_writes(store, decision_writes(keys, allow)), keys)) == Some(allow),
{
    let after = after_writes(store, decision_writes(keys, allow));
    let decisions = saved(after, keys);
    assert forall|i: int| 0 <= i < decisions.len() implies #[trigger] decisions[i] == Some(
        allow,
    ) by {
        lemma_after_decision(store, keys, allow, keys[i]);
        assert(keys.contains(keys[i]));
    }
    assert(decisions[0] == Some(allow));
}

/// A request that is looked up has a kind, so an answer to it always settles the next one.
pub proof fn law_lookup_has_kinds(
    app: Seq<char>,
    request: PermissionRequest,
    origin: Option<Seq<char>>,
)
    ensures
        first_step(app, request, origin) matches RequestStepView::LookUp {
            app: a,
            origin: o,
            kinds,
        } ==> kinds.len() > 0 && keys_of(a, o, kinds).len() > 0,
{
}

/// An answer also answers the page's later queries on each of its kinds, and changes
/// nothing stored under another app, origin or kind.
pub proof fn law_answer_changes_its_keys_only(
    store: Map<KeyView, bool>,
    keys: Seq<KeyView>,
    allow: bool,
    key: KeyView,
)
    ensures
        keys.contains(key) ==> saved_at(
            after_writes(store, decision_writes(keys, allow)),
            key,
        ) == Some(allow),
        !keys.contains(key) ==> saved_at(after_writes(store, decision_writes(keys, allow)), key)
            == saved_at(store, key),
{
    lemma_after_decision(store, keys, allow, key);
}

/// A query finds what was answered to a request: where its name stands for one of the
/// request's kinds, the page is told the answer.
pub proof fn law_query_finds_answer(
    store: Map<KeyView, bool>,
    app: Seq<char>,
    origin: Seq<char>,
    request: PermissionRequest,
    allow: bool,
    known: Seq<Seq<char>>,
    name: Seq<char>,
)
    requires
        stored_kind(known, Some(name)) matches Some(kind) && requested_kinds(request).contains(
            kind,
        ),
    ensures
        query_key(app, known, Some(name), Some(origin)) matches Some(key) && saved_at(
            after_writes(
                store,
                decision_writes(keys_of(app, origin, requested_kinds(request)), allow),
            ),
            key,
        ) == Some(allow),
{
    let kinds = requested_kinds(request);
    let keys = keys_of(app, origin, kinds);
    let key = query_key(app, known, Some(name), Some(origin)).unwrap();
    let i = choose|i: int| 0 <= i < kinds.len() && kinds[i] == key.kind;
    assert(keys[i] == key);
    lemma_after_decision(store, keys, allow, key);
}

/// A request is allowed without asking only where every one of its kinds was allowed, and
/// denied without asking only where every kind was decided and one was denied.
pub proof fn law_settled_by_all_kinds(decisions: Seq<Option<bool>>)
    ensures
        settled(decisions) == Some(true) <==> forall|i: int|
            0 <= i < decisions.len() ==> #[trigger] decisions[i] == Some(true),
        settled(decisions) == Some(false) <==> (forall|i: int|
            0 <= i < decisions.len() ==> #[trigger] decisions[i] is Some) && (exists|i: int|
            0 <= i < decisions.len() && #[trigger] decisions[i] == Some(false)),
{
    if forall|i: int| 0 <= i < decisions.len() ==> #[trigger] decisions[i] is Some {
        if settled(decisions) == Some(false) {
            let i = choose|i: int| 0 <= i < decisions.len() && decisions[i] != Some(true);
            assert(decisions[i] == Some(false));
        }
    }
}

/// A query's kind is always a known one where the microphone and the camera are known.
pub proof fn law_stored_kind_known(known: Seq<Seq<char>>, name: Option<Seq<char>>)
    requires
        known.contains("microphone"@),
        known.contains("camera"@),
    ensures
        stored_kind(known, name) matches Some(kind) ==> known.contains(kind),
{
}

/// A known kind that mentions neither audio nor video is stored under itself. A name that
/// mentions audio stands for the microphone, one that mentions video but not audio for the
/// camera, and any other name for nothing.
pub proof fn law_kind_of_name(known: Seq<Seq<char>>, name: Seq<char>)
    ensures
        ({
            let audio = text::contains_text(name, "audio"@);
            let video = text::contains_text(name, "video"@);
            &&& audio ==> stored_kind(known, Some(name)) == Some("microphone"@)
            &&& video && !audio ==> stored_kind(known, Some(name)) == Some("camera"@)
            &&& known.contains(name) && !audio && !video ==> stored_kind(known, Some(name))
                == Some(name)
            &&& !known.contains(name) && !audio && !video ==> stored_kind(known, Some(name)) is None
        }),
        stored_kind(known, None) is None,
{
}

/// Where a name mentions audio or video, it does not matter what stands around the word or
/// which kinds are known.
pub proof fn law_mention_anywhere(
    known: Seq<Seq<char>>,
    other: Seq<Seq<char>>,
    front: Seq<char>,
    back: Seq<char>,
)
    ensures
        stored_kind(known, Some(front + "audio"@ + back)) == Some("microphone"@),
        stored_kind(known, Some(front + "video"@ + back)) == stored_kind(
            other,
            Some(front + "video"@ + back),
        ),
        stored_kind(known, Some(front + "video"@ + back)) is Some,
{
    text::lemma_split_occurs(front, "audio"@, back);
    text::lemma_split_occurs(front, "video"@, back);
}

/// A kind of the table that mentions neither audio nor video is found wherever in the table
/// it stands, and under its own name; a name that the table does not list is not found.
pub proof fn law_table_searched<'a>(
    table: &'a [(&'static str, &'static str)],
    name: Option<&'a str>,
    kind: Option<&'static str>,
)
    requires
        call_ensures(normalize_permission_name, (table, name), kind),
    ensures
        name is None ==> kind is None,
        name matches Some(n) ==> ({
            let audio = exists|front: Seq<char>, back: Seq<char>|
                n@ == #[trigger] (front + "audio"@ + back);
            let video = exists|front: Seq<char>, back: Seq<char>|
                n@ == #[trigger] (front + "video"@ + back);
            let listed = exists|i: int| 0 <= i < table@.len() && (#[trigger] table@[i]).0@ == n@;
            &&& kind is Some <==> audio || video || listed
            &&& kind matches Some(k) ==> k@ == (if audio {
                "microphone"@
            } else if video {
                "camera"@
            } else {
                n@
            })
        }),
{
    if let Some(n) = name {
        text::law_contains_split(n@, "audio"@);
        text::law_contains_split(n@, "video"@);
        let kinds = table_kinds(table@);
        assert(forall|i: int| 0 <= i < table@.len() ==> kinds[i] == (#[trigger] table@[i]).0@);
        if kinds.contains(n@) {
            let i = choose|i: int| 0 <= i < kinds.len() && kinds[i] == n@;
            assert(table@[i].0@ == n@);
        }
        if exists|i: int| 0 <= i < table@.len() && (#[trigger] table@[i]).0@ == n@ {
            let i = choose|i: int| 0 <= i < table@.len() && (#[trigger] table@[i]).0@ == n@;
            assert(kinds[i] == n@);
        }
    }
}

/// A request for media is for the microphone exactly where it is for an audio device and for
/// the camera exactly where it is for a video device, the microphone first; a request of
/// another type is for notifications or for the location exactly where its type says so; and
/// none is for anything else.
pub proof fn law_kinds_of_request(request: &PermissionRequest, kinds: Vec<&'static str>)
    requires
        call_ensures(permission_kinds, (request,), kinds),
    ensures
        *request matches PermissionRequest::UserMedia { audio, video } ==> {
            &&& audio ==> kinds@.len() > 0 && kinds@[0]@ == "microphone"@
            &&& video ==> kinds@.len() > 0 && kinds@[kinds@.len() - 1]@ == "camera"@
            &&& audio && video <==> kinds@.len() == 2
            &&& !audio && !video <==> kinds@.len() == 0
            &&& kinds@.len() <= 2
        },
        *request matches PermissionRequest::Other { class } ==> {
            &&& class@ == "WebKitNotificationPermissionRequest"@ ==> kinds@.len() == 1
                && kinds@[0]@ == "notifications"@
            &&& class@ == "WebKitGeolocationPermissionRequest"@ ==> kinds@.len() == 1
                && kinds@[0]@ == "geolocation"@
            &&& class@ != "WebKitNotificationPermissionRequest"@ && class@
                != "WebKitGeolocationPermissionRequest"@ ==> kinds@.len() == 0
        },
{
    reveal_strlit("WebKitNotificationPermissionRequest");
    reveal_strlit("WebKitGeolocationPermissionRequest");
    assert("WebKitNotificationPermissionRequest"@.len()
        != "WebKitGeolocationPermissionRequest"@.len());
    let names = text::names(kinds@);
    assert(names.len() == kinds@.len());
    assert(forall|i: int| 0 <= i < kinds@.len() ==> names[i] == (#[trigger] kinds@[i])@);
}

/// Asking for the microphone and the camera at once is asking for what two requests for one
/// of them each ask for, one after the other.
pub proof fn law_media_kinds_add_up(audio: bool, video: bool)
    ensures
        requested_kinds(PermissionRequest::UserMedia { audio, video }) == requested_kinds(
            PermissionRequest::UserMedia { audio, video: false },
        ) + requested_kinds(PermissionRequest::UserMedia { audio: false, video }),
        requested_kinds(PermissionRequest::UserMedia { audio: true, video: false })
            == seq!["microphone"@],
        requested_kinds(PermissionRequest::UserMedia { audio: false, video: true })
            == seq!["camera"@],
        requested_kinds(PermissionRequest::UserMedia { audio: false, video: false }).len() == 0,
{
    assert(requested_kinds(PermissionRequest::UserMedia { audio, video }) =~= requested_kinds(
        PermissionRequest::UserMedia { audio, video: false },
    ) + requested_kinds(PermissionRequest::UserMedia { audio: false, video }));
    assert(requested_kinds(PermissionRequest::UserMedia { audio: false, video: true })
        =~= seq!["camera"@]);
}

/// Whatever the type of a request, if it is for anything and its page has an origin, what was
/// decided earlier is looked up first, under the app, that origin and all its kinds. It is
/// refused at once exactly where the page has no origin, and left to the web engine exactly
/// where it is for nothing known.
pub proof fn law_request_looked_up(
    app: Seq<char>,
    request: PermissionRequest,
    origin: Option<Seq<char>>,
)
    ensures
        ({
            let step = first_step(app, request, origin);
            let kinds = requested_kinds(request);
            &&& step is Unhandled <==> kinds.len() == 0
            &&& step is Deny <==> kinds.len() > 0 && origin is None
            &&& kinds.len() > 0 && origin is Some ==> step == (RequestStepView::LookUp {
                app,
                origin: origin.unwrap(),
                kinds,
            })
        }),
{
}

/// The step taken about a request at an origin looks up each of its kinds in order, for this
/// app at this origin; without an origin it is refused, and without a kind it is left alone.
pub proof fn law_step_at_origin(
    id: &str,
    request: &PermissionRequest,
    origin: Option<String>,
    kinds: Vec<&'static str>,
    step: RequestStep,
)
    requires
        call_ensures(permission_kinds, (request,), kinds),
        call_ensures(request_at_origin, (id, request, origin), step),
    ensures
        step is Unhandled <==> kinds@.len() == 0,
        step is Deny <==> kinds@.len() > 0 && origin is None,
        step is LookUp <==> kinds@.len() > 0 && origin is Some,
        step matches RequestStep::LookUp(lookup) ==> {
            &&& lookup.app@ == id@
            &&& lookup.origin@ == origin.unwrap()@
            &&& lookup.kinds@.len() == kinds@.len()
            &&& forall|i: int|
                0 <= i < kinds@.len() ==> (#[trigger] lookup.kinds@[i])@ == kinds@[i]@
        },
{
    law_request_looked_up(id@, *request, text::text_option(origin));
    assert(text::names(kinds@).len() == kinds@.len());
    if let RequestStep::LookUp(lookup) = step {
        assert(text::names(lookup.kinds@).len() == lookup.kinds@.len());
        assert forall|i: int| 0 <= i < kinds@.len() implies (#[trigger] lookup.kinds@[i])@
            == kinds@[i]@ by {
            assert(text::names(lookup.kinds@)[i] == text::names(kinds@)[i]);
        }
    }
}

/// The step taken about a request depends on the page's address through its origin alone, and
/// is the one taken at that origin.
pub proof fn law_step_by_origin_of_page<'a>(
    id: &'a str,
    request: &'a PermissionRequest,
    uri: Option<&'a str>,
    origin: Option<String>,
    kinds: Vec<&'static str>,
    step: RequestStep,
    at_origin: RequestStep,
)
    requires
        call_ensures(page_origin, (uri,), origin),
        call_ensures(permission_kinds, (request,), kinds),
        call_ensures(permission_request, (id, request, uri), step),
        call_ensures(request_at_origin, (id, request, origin), at_origin),
    ensures
        step@ == at_origin@,
        step is Unhandled <==> kinds@.len() == 0,
        step is Deny <==> kinds@.len() > 0 && origin is None,
        step matches RequestStep::LookUp(lookup) ==> {
            &&& lookup.app@ == id@
            &&& lookup.origin@ == origin.unwrap()@
            &&& lookup.kinds@.len() == kinds@.len()
            &&& forall|i: int|
                0 <= i < kinds@.len() ==> (#[trigger] lookup.kinds@[i])@ == kinds@[i]@
        },
{
    law_step_at_origin(id, request, origin, kinds, at_origin);
    if let RequestStep::LookUp(lookup) = step {
        assert(text::names(lookup.kinds@).len() == lookup.kinds@.len());
        assert(text::names(kinds@).len() == kinds@.len());
        assert forall|i: int| 0 <= i < kinds@.len() implies (#[trigger] lookup.kinds@[i])@
            == kinds@[i]@ by {
            assert(text::names(lookup.kinds@)[i] == text::names(kinds@)[i]);
        }
    }
}

/// Only a request for nothing known is reported as not taken care of.
pub proof fn law_known_requests_handled(
    id: &str,
    request: &PermissionRequest,
    origin: Option<String>,
    kinds: Vec<&'static str>,
    step: RequestStep,
    handled: bool,
)
    requires
        call_ensures(permission_kinds, (request,), kinds),
        call_ensures(request_at_origin, (id, request, origin), step),
        call_ensures(RequestStep::handled, (&step,), handled),
    ensures
        handled <==> kinds@.len() > 0,
{
    law_step_at_origin(id, request, origin, kinds, step);
}

/// A key is made for each kind, in order, under the app and the origin of the request.
pub proof fn law_keys_of_lookup(lookup: &PermissionLookup, keys: Vec<PermissionKey>)
    requires
        call_ensures(PermissionLookup::keys, (lookup,), keys),
    ensures
        keys@.len() == lookup.kinds@.len(),
        forall|i: int|
            0 <= i < keys@.len() ==> (#[trigger] keys@[i]).app@ == lookup.app@ && keys@[i].origin@
                == lookup.origin@ && keys@[i].kind@ == lookup.kinds@[i]@,
{
    let views = key_views(keys@);
    assert(views.len() == keys@.len());
    assert forall|i: int| 0 <= i < keys@.len() implies (#[trigger] keys@[i]).app@ == lookup.app@
        && keys@[i].origin@ == lookup.origin@ && keys@[i].kind@ == lookup.kinds@[i]@ by {
        assert(views[i] == keys@[i]@);
        assert(views[i] == lookup.key_list()[i]);
    }
}

/// An answer allows exactly where it is "allow", and one and the same decision is written for
/// each kind, in order, under the app and the origin of the request.
pub proof fn law_answer_written_for_each_kind(
    lookup: &PermissionLookup,
    response: &str,
    answer: PromptAnswer,
)
    requires
        call_ensures(PermissionLookup::answer, (lookup, response), answer),
    ensures
        answer.allow <==> response@ == "allow"@,
        answer.writes@.len() == lookup.kinds@.len(),
        forall|i: int|
            0 <= i < answer.writes@.len() ==> {
                &&& (#[trigger] answer.writes@[i]).allow == answer.allow
                &&& answer.writes@[i].key.app@ == lookup.app@
                &&& answer.writes@[i].key.origin@ == lookup.origin@
                &&& answer.writes@[i].key.kind@ == lookup.kinds@[i]@
            },
{
    let views = write_views(answer.writes@);
    assert(views.len() == answer.writes@.len());
    assert forall|i: int| 0 <= i < answer.writes@.len() implies {
        &&& (#[trigger] answer.writes@[i]).allow == answer.allow
        &&& answer.writes@[i].key.app@ == lookup.app@
        &&& answer.writes@[i].key.origin@ == lookup.origin@
        &&& answer.writes@[i].key.kind@ == lookup.kinds@[i]@
    } by {
        assert(views[i] == (answer.writes@[i].key@, answer.writes@[i].allow));
        assert(views[i] == (lookup.key_list()[i], answer.allow));
    }
}

/// What earlier decisions settle: nothing while one is missing; otherwise the request is
/// allowed exactly where none of them denied.
pub proof fn law_settled_request(decisions: &Vec<Option<bool>>, outcome: Option<bool>)
    requires
        call_ensures(settle_request, (decisions,), outcome),
    ensures
        outcome is None <==> decisions@.contains(None),
        outcome == Some(false) <==> !decisions@.contains(None) && decisions@.contains(Some(false)),
        outcome == Some(true) <==> !decisions@.contains(None) && !decisions@.contains(Some(false)),
{
    law_settled_by_all_kinds(decisions@);
    let all = decisions@;
    if all.contains(None) {
        let i = choose|i: int| 0 <= i < all.len() && all[i] == None::<bool>;
        assert(!(all[i] is Some));
        assert(all[i] != Some(true));
    } else {
        assert forall|i: int| 0 <= i < all.len() implies #[trigger] all[i] is Some by {
            assert(all.contains(all[i]));
        }
        if all.contains(Some(false)) {
            let i = choose|i: int| 0 <= i < all.len() && all[i] == Some(false);
            assert(all[i] == Some(false));
        } else {
            assert forall|i: int| 0 <= i < all.len() implies #[trigger] all[i] == Some(true) by {
                assert(all.contains(all[i]));
            }
        }
    }
}

/// An answer lasts: after a request was looked up and answered, and the answer written to the
/// store, the next request for the same at the same origin is looked up again and settled as
/// it was answered, whatever the store held before.
pub proof fn law_answered_request_is_not_asked_again<'a>(
    store: Map<KeyView, bool>,
    id: &'a str,
    request: &'a PermissionRequest,
    first_origin: Option<String>,
    lookup: PermissionLookup,
    response: &'a str,
    answer: PromptAnswer,
    next_origin: Option<String>,
    next: RequestStep,
    keys: Vec<PermissionKey>,
    decisions: &'a Vec<Option<bool>>,
    outcome: Option<bool>,
)
    requires
        call_ensures(request_at_origin, (id, request, first_origin), RequestStep::LookUp(lookup)),
        call_ensures(PermissionLookup::answer, (&lookup, response), answer),
        text::text_option(next_origin) == text::text_option(first_origin),
        call_ensures(request_at_origin, (id, request, next_origin), next),
        next matches RequestStep::LookUp(again) ==> call_ensures(
            PermissionLookup::keys,
            (&again,),
            keys,
        ),
        decisions@ == saved(after_writes(store, write_views(answer.writes@)), key_views(keys@)),
        call_ensures(settle_request, (decisions,), outcome),
    ensures
        next is LookUp,
        outcome == Some(response@ == "allow"@),
{
    assert(next@ == RequestStep::LookUp(lookup)@);
    let again = next->LookUp_0;
    assert(again.key_list() == lookup.key_list());
    assert(key_views(keys@) == lookup.key_list());
    assert(lookup.key_list().len() > 0) by {
        assert(text::names(lookup.kinds@).len() > 0);
    }
    law_answer_settles_next_request(store, lookup.key_list(), answer.allow);
}

/// A request for something at a known origin is never refused out of hand: where all its
/// decisions are saved and agree they settle it, and where none is saved the user is asked.
pub proof fn law_saved_decision_applied<'a>(
    allow: bool,
    id: &'a str,
    request: &'a PermissionRequest,
    origin: String,
    kinds: Vec<&'static str>,
    step: RequestStep,
    keys: Vec<PermissionKey>,
    decisions: &'a Vec<Option<bool>>,
    outcome: Option<bool>,
)
    requires
        call_ensures(permission_kinds, (request,), kinds),
        kinds@.len() > 0,
        call_ensures(request_at_origin, (id, request, Some(origin)), step),
        step matches RequestStep::LookUp(lookup) ==> call_ensures(
            PermissionLookup::keys,
            (&lookup,),
            keys,
        ),
        decisions@.len() == keys@.len(),
        call_ensures(settle_request, (decisions,), outcome),
    ensures
        step is LookUp,
        keys@.len() == kinds@.len(),
        (forall|i: int| 0 <= i < keys@.len() ==> #[trigger] decisions@[i] == Some(allow))
            ==> outcome == Some(allow),
        (forall|i: int| 0 <= i < keys@.len() ==> #[trigger] decisions@[i] is None)
            ==> outcome is None,
{
    law_step_at_origin(id, request, Some(origin), kinds, step);
    law_keys_of_lookup(&step->LookUp_0, keys);
    law_settled_request(decisions, outcome);
    if forall|i: int| 0 <= i < keys@.len() ==> #[trigger] decisions@[i] == Some(allow) {
        assert(decisions@[0] == Some(allow));
        assert(decisions@.contains(decisions@[0]));
        assert(!decisions@.contains(None));
    }
    if forall|i: int| 0 <= i < keys@.len() ==> #[trigger] decisions@[i] is None {
        assert(decisions@[0] is None);
        assert(decisions@.contains(decisions@[0]));
    }
}

/// The question names the app and lists all labels: one label stands alone, and each further
/// one follows after a comma. An app without a title is named by nothing.
pub proof fn law_heading_lists_labels(
    title: Option<Seq<char>>,
    label: Seq<char>,
    labels: Seq<Seq<char>>,
)
    requires
        labels.len() > 0,
    ensures
        prompt_heading(None, labels) == prompt_heading(Some(Seq::empty()), labels),
        title matches Some(t) ==> prompt_heading(title, seq![label]) == "Allow "@ + t
            + " to use "@ + label + "?"@,
        prompt_heading(title, labels).len() > 0,
        prompt_heading(title, labels.push(label)) == prompt_heading(title, labels).drop_last()
            + ", "@ + label + "?"@,
{
    reveal_strlit("?");
    text::law_joined(label, labels, seq![label], ", "@);
    assert(labels.push(label) =~= labels + seq![label]);
    let shown = match title {
        Some(t) => t,
        None => Seq::empty(),
    };
    let front = "Allow "@ + shown + " to use "@;
    let heading = prompt_heading(title, labels);
    assert(heading == front + text::joined(labels, ", "@) + "?"@);
    assert(heading.drop_last() =~= front + text::joined(labels, ", "@));
    assert(prompt_heading(title, labels.push(label)) =~= heading.drop_last() + ", "@ + label
        + "?"@);
}

/// The user is asked in the name of the app about the origin of the page, may answer "deny"
/// or "allow", and the answer given by default is the one that allows while the one shown as
/// destructive is one that denies.
pub proof fn law_prompt<'a>(
    lookup: &'a PermissionLookup,
    title: Option<String>,
    labels: &'a Vec<String>,
    prompt: Prompt,
    by_default: PromptAnswer,
    destructive: PromptAnswer,
)
    requires
        call_ensures(PermissionLookup::prompt, (lookup, title, labels), prompt),
        call_ensures(PermissionLookup::answer, (lookup, prompt.default), by_default),
        call_ensures(PermissionLookup::answer, (lookup, prompt.destructive), destructive),
    ensures
        prompt.body@ == lookup.origin@,
        prompt.heading@ == prompt_heading(text::text_option(title), text::texts(labels@)),
        by_default.allow,
        !destructive.allow,
        prompt.responses@.len() == 2,
        prompt.responses@[0].0@ == prompt.destructive@ && prompt.responses@[0].1@ == "Deny"@,
        prompt.responses@[1].0@ == prompt.default@ && prompt.responses@[1].1@ == "Allow"@,
{
    reveal_strlit("deny");
    reveal_strlit("allow");
    assert("deny"@.len() != "allow"@.len());
}

/// A query is answered from the decision under the app, the page's origin and the kind that
/// the name stands for, and only where there is such a kind and an origin.
pub proof fn law_query_asks_for_its_kind<'a>(
    id: &'a str,
    table: &'a [(&'static str, &'static str)],
    name: Option<&'a str>,
    origin: Option<String>,
    kind: Option<&'static str>,
    key: Option<PermissionKey>,
)
    requires
        call_ensures(normalize_permission_name, (table, name), kind),
        call_ensures(query_at_origin, (id, table, name, origin), key),
    ensures
        key is Some <==> kind is Some && origin is Some,
        key matches Some(k) ==> k.app@ == id@ && k.origin@ == origin.unwrap()@ && k.kind@
            == kind.unwrap()@,
{
}

/// A query by a page asks for the key at the page's origin.
pub proof fn law_query_by_origin_of_page<'a>(
    id: &'a str,
    table: &'a [(&'static str, &'static str)],
    name: Option<&'a str>,
    uri: Option<&'a str>,
    origin: Option<String>,
    kind: Option<&'static str>,
    key: Option<PermissionKey>,
)
    requires
        call_ensures(normalize_permission_name, (table, name), kind),
        call_ensures(page_origin, (uri,), origin),
        call_ensures(query_permission_state, (id, table, name, uri), key),
    ensures
        key is Some <==> kind is Some && origin is Some,
        key matches Some(k) ==> k.app@ == id@ && k.origin@ == origin.unwrap()@ && k.kind@
            == kind.unwrap()@,
{
}

/// A page is told that something is granted exactly where a saved decision allows it, that it
/// is denied exactly where one denies it, and nothing where none is saved.
pub proof fn law_page_told_saved_decision(saved: Option<bool>, state: Option<PermissionState>)
    requires
        call_ensures(answer_query, (saved,), state),
    ensures
        state == Some(PermissionState::Granted) <==> saved == Some(true),
        state == Some(PermissionState::Denied) <==> saved == Some(false),
        state is None <==> saved is None,
{
}

/// A page that was allowed the microphone is told so whenever it asks about audio, and one
/// that was denied it is told that; the same holds of the camera and video.
pub proof fn law_media_answer_told<'a>(
    store: Map<KeyView, bool>,
    id: &'a str,
    origin: String,
    audio: bool,
    video: bool,
    lookup: PermissionLookup,
    response: &'a str,
    answer: PromptAnswer,
    table: &'a [(&'static str, &'static str)],
    name: &'a str,
    key: Option<PermissionKey>,
)
    requires
        call_ensures(
            request_at_origin,
            (id, &PermissionRequest::UserMedia { audio, video }, Some(origin)),
            RequestStep::LookUp(lookup),
        ),
        call_ensures(PermissionLookup::answer, (&lookup, response), answer),
        call_ensures(query_at_origin, (id, table, Some(name), Some(origin)), key),
        (audio && text::contains_text(name@, "audio"@)) || (video && text::contains_text(
            name@,
            "video"@,
        ) && !text::contains_text(name@, "audio"@)),
    ensures
        key is Some,
        saved_at(after_writes(store, write_views(answer.writes@)), key.unwrap()@) == Some(
            response@ == "allow"@,
        ),
{
    let request = PermissionRequest::UserMedia { audio, video };
    let known = table_kinds(table@);
    let kind = stored_kind(known, Some(name@)).unwrap();
    assert(requested_kinds(request).contains(kind)) by {
        let kinds = requested_kinds(request);
        assert(kinds[0] == kind || kinds[kinds.len() - 1] == kind);
    }
    assert(RequestStep::LookUp(lookup)@ == first_step(id@, request, Some(origin@)));
    assert(lookup.key_list() == keys_of(id@, origin@, requested_kinds(request)));
    law_query_finds_answer(store, id@, origin@, request, answer.allow, known, name@);
}

} // verus!
