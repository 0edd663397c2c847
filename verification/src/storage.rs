//! Where an app's cookies, data and cache are kept.

use vstd::prelude::*;
use vstd::string::*;

use crate::text::chars_of;

verus! {

/// A path with one more component, by the rules of Unix paths: an absolute component takes
/// the path's place, and one slash separates the two.
pub open spec fn path_join(base: Seq<char>, component: Seq<char>) -> Seq<char> {
    if component.len() > 0 && component.first() == '/' {
        component
    } else if base.len() == 0 || base.last() == '/' {
        base + component
    } else {
        base + "/"@ + component
    }
}

/// A path with one more component.
pub fn join_path(base: &str, component: &str) -> (path: String)
    ensures
        path@ == path_join(base@, component@),
{
    let base_chars: Vec<char> = chars_of(base);
    let component_chars: Vec<char> = chars_of(component);
    if component_chars.len() > 0 && component_chars[0] == '/' {
        return component.to_owned();
    }
    let mut path: String = base.to_owned();
    if base_chars.len() > 0 && base_chars[base_chars.len() - 1] != '/' {
        path.append("/");
    }
    path.append(component);
    path
}

/// The directories and files of one app.
pub struct StorageLayout {
    /// The base directory of the app's data.
    pub data_dir: String,
    /// The directory of the web engine's cache.
    pub cache_dir: String,
    /// The directory of the web engine's data.
    pub session_dir: String,
    /// The file that cookies are stored in.
    pub cookie_file: String,
}

/// What `StorageLayout` holds, as mathematical values.
pub struct LayoutView {
    pub data_dir: Seq<char>,
    pub cache_dir: Seq<char>,
    pub session_dir: Seq<char>,
    pub cookie_file: Seq<char>,
}

impl View for StorageLayout {
    type V = LayoutView;

    open spec fn view(&self) -> LayoutView {
        LayoutView {
            data_dir: self.data_dir@,
            cache_dir: self.cache_dir@,
            session_dir: self.session_dir@,
            cookie_file: self.cookie_file@,
        }
    }
}

/// The base directory of one app below a directory of the user.
pub open spec fn app_dir(root: Seq<char>, application: Seq<char>, id: Seq<char>) -> Seq<char> {
    path_join(path_join(root, application), id)
}

/// The directories and files of one app, below the user's data and cache directories.
pub open spec fn layout_of(
    data_root: Seq<char>,
    cache_root: Seq<char>,
    application: Seq<char>,
    id: Seq<char>,
) -> LayoutView {
    LayoutView {
        data_dir: app_dir(data_root, application, id),
        cache_dir: app_dir(cache_root, application, id),
        session_dir: path_join(app_dir(data_root, application, id), "data"@),
        cookie_file: path_join(app_dir(data_root, application, id), "cookie"@),
    }
}

/// The base app directories where the web engine's cache, data and cookies are stored.
pub fn storage_layout(data_root: &str, cache_root: &str, application: &str, id: &str) -> (layout:
    StorageLayout)
    ensures
        layout@ == layout_of(data_root@, cache_root@, application@, id@),
{
    let data_app: String = join_path(data_root, application);
    let cache_app: String = join_path(cache_root, application);
    let data_dir: String = join_path(data_app.as_str(), id);
    let cache_dir: String = join_path(cache_app.as_str(), id);
    let session_dir: String = join_path(data_dir.as_str(), "data");
    let cookie_file: String = join_path(data_dir.as_str(), "cookie");
    StorageLayout { data_dir, cache_dir, session_dir, cookie_file }
}

/// Whether a text names one entry of a directory: it is not empty, holds no slash, and is
/// neither the directory itself nor the one above it.
pub open spec fn is_entry_name(name: Seq<char>) -> bool {
    &&& name.len() > 0
    &&& !name.contains('/')
    &&& name != "."@
    &&& name != ".."@
}

/// Different apps are kept apart: where ids are names of directory entries, no two apps
/// share a directory or a cookie file.
pub proof fn law_apps_stored_apart(
    data_root: Seq<char>,
    cache_root: Seq<char>,
    application: Seq<char>,
    left: Seq<char>,
    right: Seq<char>,
)
    requires
        is_entry_name(left),
        is_entry_name(right),
        left != right,
    ensures
        ({
            let l = layout_of(data_root, cache_root, application, left);
            let r = layout_of(data_root, cache_root, application, right);
            &&& l.data_dir != r.data_dir
            &&& l.cache_dir != r.cache_dir
            &&& l.session_dir != r.session_dir
            &&& l.cookie_file != r.cookie_file
        }),
{
    reveal_strlit("data");
    reveal_strlit("cookie");
    let data = path_join(data_root, application);
    let cache = path_join(cache_root, application);
    lemma_entries_apart(data, left, right, "data"@);
    lemma_entries_apart(data, left, right, "cookie"@);
    lemma_entries_apart(cache, left, right, "data"@);
}

/// A directory entry can be told from a path that ends in it, and from one that goes on
/// below it with a relative component.
proof fn lemma_entries_apart(
    base: Seq<char>,
    left: Seq<char>,
    right: Seq<char>,
    below: Seq<char>,
)
    requires
        is_entry_name(left),
        is_entry_name(right),
        left != right,
        below.len() > 0,
        below.first() != '/',
    ensures
        path_join(base, left) != path_join(base, right),
        path_join(path_join(base, left), below) != path_join(path_join(base, right), below),
{
    let front = if base.len() == 0 || base.last() == '/' {
        base
    } else {
        base + "/"@
    };
    let l = path_join(base, left);
    let r = path_join(base, right);
    assert(left.contains(left.first()) && left.contains(left.last()));
    assert(right.contains(right.first()) && right.contains(right.last()));
    assert(l == front + left);
    assert(r == front + right);
    assert(l.skip(front.len() as int) =~= left);
    assert(r.skip(front.len() as int) =~= right);
    let tail = "/"@ + below;
    assert(l.last() == left.last() && r.last() == right.last());
    let lb = path_join(l, below);
    let rb = path_join(r, below);
    assert(lb =~= l + tail);
    assert(rb =~= r + tail);
    assert(lb.take(lb.len() - tail.len()) =~= l);
    assert(rb.take(rb.len() - tail.len()) =~= r);
}

/// A relative component goes below the path, after exactly one slash however the path ends;
/// an absolute one takes the path's place.
pub proof fn law_component_goes_below(base: &str, component: &str, path: String)
    requires
        call_ensures(join_path, (base, component), path),
    ensures
        component@.len() > 0 && component@[0] == '/' ==> path@ == component@,
        !(component@.len() > 0 && component@[0] == '/') ==> {
            &&& base@.len() == 0 ==> path@ == component@
            &&& base@.len() > 0 && base@.last() != '/' ==> path@ == base@ + "/"@ + component@
            &&& base@.len() > 0 && base@.last() == '/' ==> path@ == base@ + component@
        },
{
    assert(Seq::<char>::empty() + component@ =~= component@);
    if base@.len() == 0 {
        assert(base@ =~= Seq::<char>::empty());
    }
}

/// A slash at the end of a path that is not empty makes no difference to what is joined.
pub proof fn law_trailing_slash_ignored(base: Seq<char>, component: Seq<char>)
    requires
        base.len() > 0,
        base.last() != '/',
    ensures
        path_join(base + "/"@, component) == path_join(base, component),
{
    reveal_strlit("/");
    assert((base + "/"@).last() == '/');
}

/// An app's data lies below the user's data directory, its cache below the user's cache
/// directory, each in a directory of the program and in that one of the app; session data and
/// cookies lie in the app's data directory, under these names.
pub proof fn law_layout_below_roots(
    data_root: &str,
    cache_root: &str,
    application: &str,
    id: &str,
    layout: StorageLayout,
)
    requires
        call_ensures(storage_layout, (data_root, cache_root, application, id), layout),
        is_entry_name(application@),
        is_entry_name(id@),
        data_root@.len() > 0 && data_root@.last() != '/',
        cache_root@.len() > 0 && cache_root@.last() != '/',
    ensures
        layout.data_dir@ == data_root@ + "/"@ + application@ + "/"@ + id@,
        layout.cache_dir@ == cache_root@ + "/"@ + application@ + "/"@ + id@,
        layout.session_dir@ == layout.data_dir@ + "/data"@,
        layout.cookie_file@ == layout.data_dir@ + "/cookie"@,
{
    reveal_strlit("/");
    reveal_strlit("data");
    reveal_strlit("cookie");
    reveal_strlit("/data");
    reveal_strlit("/cookie");
    assert(application@.contains(application@.first()));
    assert(application@.contains(application@.last()));
    assert(id@.contains(id@.first()));
    assert(id@.contains(id@.last()));
    let data = data_root@ + "/"@ + application@;
    let cache = cache_root@ + "/"@ + application@;
    assert(data.last() == application@.last());
    assert(cache.last() == application@.last());
    assert(layout.data_dir@.last() == id@.last());
    assert("/"@ + "data"@ =~= "/data"@);
    assert("/"@ + "cookie"@ =~= "/cookie"@);
    assert(layout.session_dir@ =~= layout.data_dir@ + "/data"@);
    assert(layout.cookie_file@ =~= layout.data_dir@ + "/cookie"@);
}

/// Whatever the roots and names, the two roots play the same part: with roots exchanged the
/// data directory and the cache directory are exchanged; and what lies in the data directory
/// is joined to it, so that it follows the data root and never the cache root.
pub proof fn law_roots_exchanged(
    left: Seq<char>,
    right: Seq<char>,
    application: Seq<char>,
    id: Seq<char>,
)
    ensures
        ({
            let layout = layout_of(left, right, application, id);
            let exchanged = layout_of(right, left, application, id);
            &&& layout.data_dir == exchanged.cache_dir
            &&& layout.cache_dir == exchanged.data_dir
            &&& layout.data_dir == path_join(path_join(left, application), id)
            &&& layout.session_dir == path_join(layout.data_dir, "data"@)
            &&& layout.cookie_file == path_join(layout.data_dir, "cookie"@)
        }),
{
}

} // verus!
