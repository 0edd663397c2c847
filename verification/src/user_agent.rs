//! What a page is told about the browser: the user agent, and the scripts that run
//! before the page's own.

use vstd::prelude::*;
use vstd::string::*;

use crate::text;
use crate::text::{cut_before, find_text, skip_chars};

verus! {

/// Stock Linux Chromium agent. WebKitGTK's own default claims to be Safari on macOS, which
/// sites like WhatsApp Web reject ("browser not supported") and gate calling behind.
pub const DEFAULT_USER_AGENT: &'static str = "Mozilla/5.0 (X11; Linux x86_64) AppleWebKit/537.36 (KHTML, like Gecko) Chrome/151.0.0.0 Safari/537.36";

/// The Chromium version that is claimed where the user agent names none.
pub const DEFAULT_CHROME_MAJOR: &'static str = "151";

/// What stands in a user agent before the Chromium version.
pub const CHROME_MARK: &'static str = "Chrome/";

/// Defines navigator.userAgentData (Client Hints), which WebKitGTK does not implement and
/// without which Chromium-only web apps refuse to work: the script up to the version.
pub const CLIENT_HINTS_HEAD: &'static str = r#"(function() {
    if (navigator.userAgentData) return;
    var v = '"#;

/// The rest of the Client Hints script, from the version on.
pub const CLIENT_HINTS_TAIL: &'static str = r#"';
    var brands = [
        { brand: 'Not_A Brand', version: '8' },
        { brand: 'Chromium', version: v },
        { brand: 'Google Chrome', version: v }
    ];
    var data = {
        brands: brands,
        mobile: false,
        platform: 'Linux',
        toJSON: function() {
            return { brands: brands, mobile: false, platform: 'Linux' };
        },
        getHighEntropyValues: function(hints) {
            return Promise.resolve({
                architecture: 'x86',
                bitness: '64',
                model: '',
                platformVersion: '13.0.0',
                uaFullVersion: v + '.0.0.0',
                fullVersionList: brands,
                wow64: false
            });
        }
    };
    Object.defineProperty(Navigator.prototype, 'userAgentData', {
        get: function() { return data; },
        configurable: true
    });
})();
"#;

/// Makes navigator.mediaDevices available inside Web Workers.
pub const WORKER_SHIM: &'static str = r#"
// WebKitGTK does not expose navigator.mediaDevices inside Web Workers, so
// Chromium-only apps (e.g. WhatsApp Web) that probe cameras from a worker
// conclude there is no camera. Two-part fix:
//  1. Prefix every JavaScript Blob with a bridge that defines
//     navigator.mediaDevices and forwards calls to the main thread over
//     postMessage (covers classic and module blob workers).
//  2. Wrap Worker() so same-origin URL workers get the same bridge and so
//     RPC replies are routed back into each worker instance.
(function() {
    if (typeof Worker === 'undefined') return;
    if (typeof navigator === 'undefined' || !navigator.mediaDevices ||
        typeof navigator.mediaDevices.enumerateDevices !== 'function') return;

    var BRIDGE = [
        "(function () {",
        "  if (typeof navigator === 'undefined') return;",
        "  if (navigator.mediaDevices && typeof navigator.mediaDevices.enumerateDevices === 'function' &&",
        "      typeof navigator.mediaDevices.getUserMedia === 'function') return;",
        "  var seq = 0, pending = {};",
        "  function call(method, args) {",
        "    return new Promise(function (resolve, reject) {",
        "      var id = ++seq;",
        "      pending[id] = { resolve: resolve, reject: reject };",
        "      self.postMessage({ __spiderMediaRPC: true, id: id, method: method, args: args });",
        "    });",
        "  }",
        "  self.addEventListener('message', function (e) {",
        "    var d = e && e.data;",
        "    if (!d || d.__spiderMediaRPCResult !== true) return;",
        "    var p = pending[d.id];",
        "    if (!p) return;",
        "    delete pending[d.id];",
        "    function mkStream(desc) {",
        "      var ts = (desc.tracks || []).map(function (t) {",
        "        return {",
        "          id: t.id, kind: t.kind, label: t.label, readyState: t.readyState,",
        "          muted: t.muted, enabled: true,",
        "          getSettings: function () { return t.settings || {}; },",
        "          getCapabilities: function () { return {}; },",
        "          stop: function () {",
        "            self.postMessage({ __spiderMediaStop: true, trackId: t.id });",
        "          }",
        "        };",
        "      });",
        "      return {",
        "        active: true,",
        "        id: desc.id || 'spider',",
        "        getTracks: function () { return ts.slice(); },",
        "        getVideoTracks: function () { return ts.filter(function (t) { return t.kind === 'video'; }); },",
        "        getAudioTracks: function () { return ts.filter(function (t) { return t.kind === 'audio'; }); },",
        "        getTrackById: function (i) { return ts.filter(function (t) { return t.id === i; })[0] || null; },",
        "        addEventListener: function () {}, removeEventListener: function () {},",
        "        dispatchEvent: function () { return false; }",
        "      };",
        "    }",
        "    if (d.error) { var err = new Error(d.error.message || ''); err.name = d.error.name || 'Error'; p.reject(err); }",
        "    else if (d.result && d.result.__spiderMediaStream) p.resolve(mkStream(d.result));",
        "    else p.resolve(d.result);",
        "  });",
        "  Object.defineProperty(self.navigator, 'mediaDevices', { value: {",
        "    enumerateDevices: function () { return call('enumerateDevices', []); },",
        "    getUserMedia: function (c) { return call('getUserMedia', [c]); },",
        "    getSupportedConstraints: function () { return {}; },",
        "    ondevicechange: null",
        "  }, configurable: true });",
        "})();"
    ].join('\n');

    var streamRefs = {};
    function cloneForWorker(res) {
        try {
            if (typeof MediaStream !== 'undefined' && res instanceof MediaStream) {
                var id = 's' + Math.random().toString(36).slice(2);
                streamRefs[id] = res;
                return { __spiderMediaStream: true, id: id,
                    tracks: res.getTracks().map(function (t) {
                        return { id: t.id, kind: t.kind, label: t.label,
                            readyState: t.readyState, muted: t.muted,
                            settings: (t.getSettings && t.getSettings()) || {} };
                    }) };
            }
            if (Array.isArray(res)) return res.map(function (d) {
                return { deviceId: d.deviceId, groupId: d.groupId,
                    kind: d.kind, label: d.label };
            });
            return res;
        } catch (e) { return null; }
    }

    function attachRPC(worker) {
        try {
            worker.addEventListener('message', function (ev) {
                var d = ev && ev.data;
                if (d && d.__spiderMediaStop === true) {
                    Object.keys(streamRefs).forEach(function (k) {
                        streamRefs[k].getTracks().forEach(function (t) {
                            if (t.id === d.trackId) { t.stop(); delete streamRefs[k]; }
                        });
                    });
                    return;
                }
                if (!d || d.__spiderMediaRPC !== true) return;
                var fn = navigator.mediaDevices[d.method];
                if (typeof fn !== 'function') {
                    worker.postMessage({ __spiderMediaRPCResult: true, id: d.id,
                        error: { name: 'NotSupportedError', message: String(d.method) + ' unavailable' } });
                    return;
                }
                fn.apply(navigator.mediaDevices, d.args || []).then(function (res) {
                    worker.postMessage({ __spiderMediaRPCResult: true, id: d.id, result: cloneForWorker(res) });
                }).catch(function (err) {
                    worker.postMessage({ __spiderMediaRPCResult: true, id: d.id,
                        error: { name: err && err.name || 'Error', message: err && err.message || '' } });
                });
            });
        } catch (e) {}
        return worker;
    }

    // 1) Prefix JavaScript blobs (covers blob workers, classic and module)
    if (typeof Blob === 'function') {
        var OrigBlob = Blob;
        var SpiderBlob = function (chunks, opts) {
            var t = (opts && opts.type) || '';
            var isArrayLike = chunks && typeof chunks.length === 'number' &&
                !(chunks instanceof ArrayBuffer) &&
                !(typeof ArrayBuffer !== 'undefined' && ArrayBuffer.isView && ArrayBuffer.isView(chunks));
            if (/javascript/i.test(t) && isArrayLike) {
                var parts = [BRIDGE];
                for (var i = 0; i < chunks.length; i++) parts.push(chunks[i]);
                return new OrigBlob(parts, opts);
            }
            return new OrigBlob(chunks, opts);
        };
        SpiderBlob.prototype = OrigBlob.prototype;
        try { window.Blob = SpiderBlob; } catch (e) {}
    }

    // 2) Wrap Worker so RPC replies reach each worker instance. URL workers
    //    are passed through untouched (no re-hosting: it breaks relative
    //    imports); blob workers were already prefixed above.
    var OrigWorker = Worker;
    var SpiderWorker = function (url, options) {
        return attachRPC(new OrigWorker(url, options));
    };
    SpiderWorker.prototype = OrigWorker.prototype;
    try { window.Worker = SpiderWorker; } catch (e) {}

    // Make the wrappers indistinguishable from natives for code that
    // inspects fn.toString()/fn.name before booting.
    function disguise(fn, name) {
        try {
            Object.defineProperty(fn, 'name', { value: name });
            var src = 'function ' + name + '() { [native code] }';
            Object.defineProperty(fn, 'toString', { value: function () { return src; } });
        } catch (e) {}
    }
    try { disguise(SpiderBlob, 'Blob'); } catch (e) {}
    try { disguise(SpiderWorker, 'Worker'); } catch (e) {}
})();
"#;

/// The user agent that an application goes by: its own, or else the default.
pub open spec fn agent_in_use(own: Option<Seq<char>>) -> Seq<char> {
    match own {
        Some(agent) => agent,
        None => DEFAULT_USER_AGENT@,
    }
}

/// The Chromium version of a user agent: what follows the first mark, up to the next mark
/// or the first dot. A user agent without the mark has the default version.
pub open spec fn chrome_version(agent: Seq<char>) -> Seq<char> {
    match text::position(agent, CHROME_MARK@) {
        Some(at) => text::before(
            text::before(agent.skip(at + CHROME_MARK@.len()), CHROME_MARK@),
            "."@,
        ),
        None => DEFAULT_CHROME_MAJOR@,
    }
}

/// The Client Hints script for a Chromium version.
pub open spec fn client_hints(version: Seq<char>) -> Seq<char> {
    CLIENT_HINTS_HEAD@ + version + CLIENT_HINTS_TAIL@
}

/// What is run at document start for a user agent.
pub open spec fn start_script(agent: Seq<char>, worker_bridge: bool) -> Seq<char> {
    if worker_bridge {
        client_hints(chrome_version(agent)) + "\n"@ + WORKER_SHIM@
    } else {
        client_hints(chrome_version(agent))
    }
}

/// The user agent that an application goes by: its own, or else the default.
pub fn effective_user_agent(own: &Option<String>) -> (agent: String)
    ensures
        agent@ == agent_in_use(text::text_option(*own)),
{
    match own {
        Some(agent) => agent.clone(),
        None => DEFAULT_USER_AGENT.to_owned(),
    }
}

/// The major Chromium version that a user agent names.
pub fn chrome_major(agent: &str) -> (version: String)
    ensures
        version@ == chrome_version(agent@),
{
    match find_text(agent, CHROME_MARK) {
        Some(at) => {
            proof {
                reveal_strlit("Chrome/");
            }
            let length: usize = agent.unicode_len();
            assert(at + 7 <= length);
            let rest: String = skip_chars(agent, at + 7);
            let part: String = cut_before(rest.as_str(), CHROME_MARK);
            cut_before(part.as_str(), ".")
        },
        None => DEFAULT_CHROME_MAJOR.to_owned(),
    }
}

/// The script that shims navigator.userAgentData with a Chromium version.
pub fn ua_ch_shim(version: &str) -> (script: String)
    ensures
        script@ == client_hints(version@),
{
    let mut script: String = CLIENT_HINTS_HEAD.to_owned();
    script.append(version);
    script.append(CLIENT_HINTS_TAIL);
    script
}

/// The script that runs at document start in every frame. Without the worker bridge it
/// holds the Client Hints alone.
pub fn document_start_script(agent: &str, worker_bridge: bool) -> (script: String)
    ensures
        script@ == start_script(agent@, worker_bridge),
{
    let version: String = chrome_major(agent);
    let mut script: String = ua_ch_shim(version.as_str());
    if worker_bridge {
        script.append("\n");
        script.append(WORKER_SHIM);
    }
    script
}

/// A pattern does not stand in a text where the text holds, within its reach, a character
/// that the pattern has not.
proof fn lemma_no_overlap(whole: Seq<char>, pattern: Seq<char>, at: int, hole: int)
    requires
        at <= hole < at + pattern.len(),
        0 <= hole < whole.len(),
        whole[hole] != pattern[hole - at],
    ensures
        !text::occurs_at(whole, pattern, at),
{
    if text::occurs_at(whole, pattern, at) {
        assert(whole.subrange(at, at + pattern.len())[hole - at] == whole[hole]);
    }
}

/// The text before a mark is what stood in front of it, if the mark stands nowhere earlier.
proof fn lemma_before(front: Seq<char>, mark: Seq<char>, rest: Seq<char>)
    requires
        forall|i: int| i < front.len() ==> !#[trigger] text::occurs_at(
            front + mark + rest,
            mark,
            i,
        ),
    ensures
        text::position(front + mark + rest, mark) == Some(front.len() as int),
        text::before(front + mark + rest, mark) == front,
        (front + mark + rest).skip((front + mark).len() as int) == rest,
{
    let whole = front + mark + rest;
    assert(whole.subrange(front.len() as int, (front + mark).len() as int) =~= mark);
    assert(text::first_at(whole, mark, front.len() as int));
    text::lemma_position(whole, mark, front.len() as int);
    assert(whole.take(front.len() as int) =~= front);
    assert(whole.skip((front + mark).len() as int) =~= rest);
}

/// A version is read back from a user agent that states it between the mark and a dot,
/// whatever stands before and after.
pub proof fn law_version_read_back(front: Seq<char>, version: Seq<char>, rest: Seq<char>)
    requires
        !text::contains_text(front, CHROME_MARK@),
        !text::contains_text(version, CHROME_MARK@),
        !version.contains('.'),
    ensures
        chrome_version(front + CHROME_MARK@ + (version + "."@ + rest)) == version,
{
    reveal_strlit("Chrome/");
    reveal_strlit(".");
    let mark = CHROME_MARK@;
    let after = version + "."@ + rest;
    lemma_mark_first(front, after);
    lemma_before(front, mark, after);
    let part = text::before(after, mark);
    if text::contains_text(after, mark) {
        let any = choose|i: int| text::occurs_at(after, mark, i);
        text::lemma_first_exists(after, mark, any);
        let at = text::position(after, mark).unwrap();
        if at <= version.len() {
            if at + mark.len() <= version.len() {
                assert(after.subrange(at, at + mark.len()) =~= version.subrange(
                    at,
                    at + mark.len(),
                ));
                assert(text::occurs_at(version, mark, at));
            } else {
                assert(after[version.len() as int] == '.');
                lemma_no_overlap(after, mark, at, version.len() as int);
            }
        }
        assert(part =~= version + "."@ + rest.take(at - version.len() - 1));
        lemma_before_dot(version, rest.take(at - version.len() - 1));
    } else {
        lemma_before_dot(version, rest);
    }
}

/// The version that is claimed never holds a dot.
pub proof fn law_version_without_dot(agent: Seq<char>)
    ensures
        !chrome_version(agent).contains('.'),
{
    reveal_strlit(".");
    reveal_strlit("151");
    match text::position(agent, CHROME_MARK@) {
        Some(at) => {
            let part = text::before(agent.skip(at + CHROME_MARK@.len()), CHROME_MARK@);
            let version = text::before(part, "."@);
            if version.contains('.') {
                let i = choose|i: int| 0 <= i < version.len() && version[i] == '.';
                if text::contains_text(part, "."@) {
                    let any = choose|k: int| text::occurs_at(part, "."@, k);
                    text::lemma_first_exists(part, "."@, any);
                    assert(version[i] == part[i]);
                }
                assert(part.subrange(i, i + 1) =~= "."@);
                assert(text::occurs_at(part, "."@, i));
            }
        },
        None => {},
    }
}

/// The text before the first dot, where the front holds none.
proof fn lemma_before_dot(front: Seq<char>, rest: Seq<char>)
    requires
        !front.contains('.'),
    ensures
        text::before(front + "."@ + rest, "."@) == front,
{
    reveal_strlit(".");
    let whole = front + "."@ + rest;
    assert forall|i: int| i < front.len() implies !#[trigger] text::occurs_at(whole, "."@, i) by {
        if 0 <= i {
            assert(whole[i] == front[i]);
            lemma_no_overlap(whole, "."@, i, i);
        }
    }
    lemma_before(front, "."@, rest);
}

/// An app goes by its own user agent, letter for letter, and without one by that of a stock
/// Linux Chromium.
pub proof fn law_own_agent_used(own: &Option<String>, agent: String)
    requires
        call_ensures(effective_user_agent, (own,), agent),
    ensures
        own is Some ==> agent@ == own.unwrap()@,
        own is None ==> agent@
            == "Mozilla/5.0 (X11; Linux x86_64) AppleWebKit/537.36 (KHTML, like Gecko) Chrome/151.0.0.0 Safari/537.36"@,
{
}

/// The version of a user agent is what directly follows its first "Chrome/", as far as
/// neither a dot nor another "Chrome/" comes; a user agent without that mark counts as
/// version 151.
pub proof fn law_version_after_first_mark(agent: &str, version: String)
    requires
        call_ensures(chrome_major, (agent,), version),
    ensures
        !text::contains_text(agent@, "Chrome/"@) ==> version@ == "151"@,
        forall|front: Seq<char>, rest: Seq<char>|
            agent@ == #[trigger] (front + "Chrome/"@ + rest) && !text::contains_text(
                front,
                "Chrome/"@,
            ) ==> {
                &&& version@.len() <= rest.len()
                &&& rest.take(version@.len() as int) == version@
                &&& !version@.contains('.')
                &&& !text::contains_text(version@, "Chrome/"@)
                &&& rest == version@ || rest[version@.len() as int] == '.' || text::occurs_at(
                    rest,
                    "Chrome/"@,
                    version@.len() as int,
                )
            },
{
    assert forall|front: Seq<char>, rest: Seq<char>|
        agent@ == #[trigger] (front + "Chrome/"@ + rest) && !text::contains_text(
            front,
            "Chrome/"@,
        ) implies {
        &&& version@.len() <= rest.len()
        &&& rest.take(version@.len() as int) == version@
        &&& !version@.contains('.')
        &&& !text::contains_text(version@, "Chrome/"@)
        &&& rest == version@ || rest[version@.len() as int] == '.' || text::occurs_at(
            rest,
            "Chrome/"@,
            version@.len() as int,
        )
    } by {
        lemma_version_follows(front, rest);
    }
}

/// What the version of a user agent is, where the user agent is cut at its first mark.
proof fn lemma_version_follows(front: Seq<char>, rest: Seq<char>)
    requires
        !text::contains_text(front, "Chrome/"@),
    ensures
        ({
            let version = chrome_version(front + "Chrome/"@ + rest);
            &&& version.len() <= rest.len()
            &&& rest.take(version.len() as int) == version
            &&& !version.contains('.')
            &&& !text::contains_text(version, "Chrome/"@)
            &&& rest == version || rest[version.len() as int] == '.' || text::occurs_at(
                rest,
                "Chrome/"@,
                version.len() as int,
            )
        }),
{
    reveal_strlit("Chrome/");
    reveal_strlit(".");
    let mark = "Chrome/"@;
    let whole = front + mark + rest;
    lemma_mark_first(front, rest);
    lemma_before(front, mark, rest);
    assert(whole.skip((front.len() + mark.len()) as int) =~= rest);
    let part = text::before(rest, mark);
    let version = text::before(part, "."@);
    assert(chrome_version(whole) == version);
    law_version_without_dot(whole);
    text::law_before_first_mark(rest, mark);
    text::law_before_first_mark(part, "."@);
    if text::contains_text(rest, mark) {
        let after = choose|after: Seq<char>| rest == #[trigger] (part + mark + after);
        assert(rest.take(part.len() as int) =~= part);
        text::lemma_split_occurs(part, mark, after);
    } else {
        assert(rest.take(part.len() as int) =~= part);
    }
    if text::contains_text(part, "."@) {
        let after = choose|after: Seq<char>| part == #[trigger] (version + "."@ + after);
        assert(part.take(version.len() as int) =~= version);
        assert(part[version.len() as int] == '.');
        assert(rest[version.len() as int] == part[version.len() as int]);
    } else {
        assert(part.take(version.len() as int) =~= version);
    }
    assert(rest.take(version.len() as int) =~= part.take(version.len() as int));
    if text::contains_text(version, mark) {
        let at = choose|at: int| text::occurs_at(version, mark, at);
        assert(rest.subrange(at, at + mark.len()) =~= version.subrange(at, at + mark.len()));
        let early = rest.take(at);
        let late = rest.skip(at + mark.len());
        assert(rest =~= early + rest.subrange(at, at + mark.len()) + late);
        assert(rest == early + mark + late);
        text::lemma_split_occurs(early, mark, late);
        assert(part.len() <= early.len());
    }
}

/// A mark that follows a text without it stands nowhere earlier.
proof fn lemma_mark_first(front: Seq<char>, rest: Seq<char>)
    requires
        !text::contains_text(front, "Chrome/"@),
    ensures
        forall|i: int|
            i < front.len() ==> !#[trigger] text::occurs_at(
                front + "Chrome/"@ + rest,
                "Chrome/"@,
                i,
            ),
{
    reveal_strlit("Chrome/");
    let mark = "Chrome/"@;
    let whole = front + mark + rest;
    assert forall|i: int| i < front.len() implies !#[trigger] text::occurs_at(whole, mark, i) by {
        if 0 <= i && i + mark.len() <= front.len() {
            assert(whole.subrange(i, i + mark.len()) =~= front.subrange(i, i + mark.len()));
            assert(!text::occurs_at(front, mark, i));
        } else if 0 <= i {
            assert(whole[front.len() as int] == 'C');
            lemma_no_overlap(whole, mark, i, front.len() as int);
        }
    }
}

/// The script that a page is served states the version it was made for, right where its
/// variable is set, and is otherwise the same for every version.
pub proof fn law_hints_state_version(
    version: &str,
    script: String,
    other: &str,
    other_script: String,
)
    requires
        call_ensures(ua_ch_shim, (version,), script),
        call_ensures(ua_ch_shim, (other,), other_script),
    ensures
        exists|front: Seq<char>, back: Seq<char>|
            #![trigger front + back]
            script@ == front + "var v = '"@ + version@ + back && other_script@ == front
                + "var v = '"@ + other@ + back,
{
    reveal_strlit("(function() {\n    if (navigator.userAgentData) return;\n    var v = '");
    reveal_strlit("var v = '");
    let head = CLIENT_HINTS_HEAD@;
    let at = head.len() - "var v = '"@.len();
    let front = head.take(at);
    let back = CLIENT_HINTS_TAIL@;
    assert(head =~= front + "var v = '"@);
    let marked = front + back;
    assert(script@ == front + "var v = '"@ + version@ + back);
    assert(other_script@ == front + "var v = '"@ + other@ + back);
}

/// At document start a page is served the Client Hints for the version of the user agent, and
/// with the worker bridge the bridge after them on a new line, and nothing more.
pub proof fn law_start_script_parts(
    agent: &str,
    worker_bridge: bool,
    version: String,
    as_str: &str,
    hints: String,
    script: String,
)
    requires
        call_ensures(chrome_major, (agent,), version),
        as_str@ == version@,
        call_ensures(ua_ch_shim, (as_str,), hints),
        call_ensures(document_start_script, (agent, worker_bridge), script),
    ensures
        worker_bridge ==> script@ == hints@ + "\n"@ + WORKER_SHIM@,
        !worker_bridge ==> script@ == hints@,
{
}

/// What stands in the rest of the Client Hints script stands in the script for every version.
proof fn lemma_in_every_script(version: Seq<char>, part: Seq<char>, at: int)
    requires
        text::occurs_at(CLIENT_HINTS_TAIL@, part, at),
    ensures
        text::contains_text(client_hints(version), part),
{
    let front = CLIENT_HINTS_HEAD@ + version;
    let script = client_hints(version);
    assert(script.subrange(front.len() + at, front.len() + at + part.len())
        =~= CLIENT_HINTS_TAIL@.subrange(at, at + part.len()));
    assert(text::occurs_at(script, part, front.len() + at));
}

/// Whatever the version, a page is told that the browser is that version of Chromium and of
/// Google Chrome, on a 64-bit Linux desktop.
pub proof fn law_hints_tell_chromium_on_linux(version: &str, script: String)
    requires
        call_ensures(ua_ch_shim, (version,), script),
    ensures
        text::contains_text(script@, "{ brand: 'Not_A Brand', version: '8' }"@),
        text::contains_text(script@, "{ brand: 'Chromium', version: v }"@),
        text::contains_text(script@, "{ brand: 'Google Chrome', version: v }"@),
        text::contains_text(script@, "mobile: false,"@),
        text::contains_text(script@, "platform: 'Linux',"@),
        text::contains_text(script@, "return { brands: brands, mobile: false, platform: 'Linux' };"@),
        text::contains_text(script@, "architecture: 'x86'"@),
        text::contains_text(script@, "bitness: '64'"@),
        text::contains_text(script@, "model: ''"@),
        text::contains_text(script@, "platformVersion: '13.0.0'"@),
        text::contains_text(script@, "uaFullVersion: v + '.0.0.0'"@),
        text::contains_text(script@, "fullVersionList: brands"@),
        text::contains_text(script@, "wow64: false"@),
        text::contains_text(script@, "Object.defineProperty(Navigator.prototype, 'userAgentData', {"@),
        text::contains_text(script@, "get: function() { return data; }"@),
{
    reveal_strlit(
        r#"';
    var brands = [
        { brand: 'Not_A Brand', version: '8' },
        { brand: 'Chromium', version: v },
        { brand: 'Google Chrome', version: v }
    ];
    var data = {
        brands: brands,
        mobile: false,
        platform: 'Linux',
        toJSON: function() {
            return { brands: brands, mobile: false, platform: 'Linux' };
        },
        getHighEntropyValues: function(hints) {
            return Promise.resolve({
                architecture: 'x86',
                bitness: '64',
                model: '',
                platformVersion: '13.0.0',
                uaFullVersion: v + '.0.0.0',
                fullVersionList: brands,
                wow64: false
            });
        }
    };
    Object.defineProperty(Navigator.prototype, 'userAgentData', {
        get: function() { return data; },
        configurable: true
    });
})();
"#,
    );
    let tail = CLIENT_HINTS_TAIL@;
    reveal_strlit("{ brand: 'Not_A Brand', version: '8' }");
    assert(tail.subrange(30, 68) =~= "{ brand: 'Not_A Brand', version: '8' }"@);
    lemma_in_every_script(version@, "{ brand: 'Not_A Brand', version: '8' }"@, 30);
    reveal_strlit("{ brand: 'Chromium', version: v }");
    assert(tail.subrange(78, 111) =~= "{ brand: 'Chromium', version: v }"@);
    lemma_in_every_script(version@, "{ brand: 'Chromium', version: v }"@, 78);
    reveal_strlit("{ brand: 'Google Chrome', version: v }");
    assert(tail.subrange(121, 159) =~= "{ brand: 'Google Chrome', version: v }"@);
    lemma_in_every_script(version@, "{ brand: 'Google Chrome', version: v }"@, 121);
    reveal_strlit("mobile: false,");
    assert(tail.subrange(216, 230) =~= "mobile: false,"@);
    lemma_in_every_script(version@, "mobile: false,"@, 216);
    reveal_strlit("platform: 'Linux',");
    assert(tail.subrange(239, 257) =~= "platform: 'Linux',"@);
    lemma_in_every_script(version@, "platform: 'Linux',"@, 239);
    reveal_strlit("return { brands: brands, mobile: false, platform: 'Linux' };");
    assert(tail.subrange(299, 359) =~= "return { brands: brands, mobile: false, platform: 'Linux' };"@);
    lemma_in_every_script(version@, "return { brands: brands, mobile: false, platform: 'Linux' };"@, 299);
    reveal_strlit("architecture: 'x86'");
    assert(tail.subrange(472, 491) =~= "architecture: 'x86'"@);
    lemma_in_every_script(version@, "architecture: 'x86'"@, 472);
    reveal_strlit("bitness: '64'");
    assert(tail.subrange(509, 522) =~= "bitness: '64'"@);
    lemma_in_every_script(version@, "bitness: '64'"@, 509);
    reveal_strlit("model: ''");
    assert(tail.subrange(540, 549) =~= "model: ''"@);
    lemma_in_every_script(version@, "model: ''"@, 540);
    reveal_strlit("platformVersion: '13.0.0'");
    assert(tail.subrange(567, 592) =~= "platformVersion: '13.0.0'"@);
    lemma_in_every_script(version@, "platformVersion: '13.0.0'"@, 567);
    reveal_strlit("uaFullVersion: v + '.0.0.0'");
    assert(tail.subrange(610, 637) =~= "uaFullVersion: v + '.0.0.0'"@);
    lemma_in_every_script(version@, "uaFullVersion: v + '.0.0.0'"@, 610);
    reveal_strlit("fullVersionList: brands");
    assert(tail.subrange(655, 678) =~= "fullVersionList: brands"@);
    lemma_in_every_script(version@, "fullVersionList: brands"@, 655);
    reveal_strlit("wow64: false");
    assert(tail.subrange(696, 708) =~= "wow64: false"@);
    lemma_in_every_script(version@, "wow64: false"@, 696);
    reveal_strlit("Object.defineProperty(Navigator.prototype, 'userAgentData', {");
    assert(tail.subrange(746, 807) =~= "Object.defineProperty(Navigator.prototype, 'userAgentData', {"@);
    lemma_in_every_script(version@, "Object.defineProperty(Navigator.prototype, 'userAgentData', {"@, 746);
    reveal_strlit("get: function() { return data; }");
    assert(tail.subrange(816, 848) =~= "get: function() { return data; }"@);
    lemma_in_every_script(version@, "get: function() { return data; }"@, 816);
}

} // verus!
