use spider_window::user_agent::{
    chrome_major, document_start_script, effective_user_agent, ua_ch_shim, DEFAULT_USER_AGENT,
    WORKER_SHIM,
};

#[test]
fn agent_in_use() {
    assert_eq!(effective_user_agent(&None), DEFAULT_USER_AGENT);
    assert_eq!(
        effective_user_agent(&Some("Agent/1".to_string())),
        "Agent/1"
    );
    assert_eq!(
        DEFAULT_USER_AGENT,
        "Mozilla/5.0 (X11; Linux x86_64) AppleWebKit/537.36 (KHTML, like Gecko) Chrome/151.0.0.0 Safari/537.36"
    );
}

#[test]
fn chromium_version() {
    assert_eq!(chrome_major(DEFAULT_USER_AGENT), "151");
    assert_eq!(chrome_major("Mozilla/5.0 Chrome/120.0.1 Safari/537.36"), "120");
    assert_eq!(chrome_major("Mozilla/5.0 (Macintosh) Safari/605.1.15"), "151");
    assert_eq!(chrome_major(""), "151");
    assert_eq!(chrome_major("Chrome/"), "");
    assert_eq!(chrome_major("Chrome/99"), "99");
    assert_eq!(chrome_major("Chrome/99 Safari"), "99 Safari");
    assert_eq!(chrome_major("Chrome/1Chrome/2.0"), "1");
    assert_eq!(chrome_major("Chrome/.5"), "");
    assert_eq!(chrome_major("HeadlessChrome/7.1"), "7");
    assert_eq!(chrome_major("ChromeChrome/8.1"), "8");
}

#[test]
fn client_hints_script() {
    let script = ua_ch_shim("120");
    let start = "(function() {\n    if (navigator.userAgentData) return;\n    var v = '120';\n    var brands = [\n        { brand: 'Not_A Brand', version: '8' },\n";
    assert!(script.starts_with(start));
    assert!(script.ends_with("        configurable: true\n    });\n})();\n"));
    assert!(script.contains("            return { brands: brands, mobile: false, platform: 'Linux' };\n        },\n"));
    assert!(script.contains("                wow64: false\n            });\n        }\n    };\n"));
    assert!(!script.contains("{{"));
    assert!(!script.contains("}}"));
}

#[test]
fn start_script() {
    let agent = "X Chrome/120.0";
    let plain = document_start_script(agent, false);
    assert_eq!(plain, ua_ch_shim("120"));
    let bridged = document_start_script(agent, true);
    assert_eq!(bridged, format!("{}\n{}", plain, WORKER_SHIM));
    assert!(WORKER_SHIM.starts_with("\n// WebKitGTK does not expose navigator.mediaDevices"));
    assert!(WORKER_SHIM.ends_with("disguise(SpiderWorker, 'Worker'); } catch (e) {}\n})();\n"));
    assert!(WORKER_SHIM.contains("].join('\\n');"));
}
