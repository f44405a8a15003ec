use teyvat_shell::address::{BIRTHDAY_ADDRESS, GAME_RECORD_ADDRESS, HOME_ADDRESS, SIGN_IN_ADDRESS};
use teyvat_shell::context::{AppContext, ShellError, CLIENT_LABEL, MAIN_LABEL};
use teyvat_shell::controller::{client_build_failed, create_mhy_client, open_client_window};
use teyvat_shell::menu::create_mhy_menu;
use teyvat_shell::window::{Geometry, WindowState};

const BASE: Geometry = Geometry { width: 400, height: 800 };
const ACTIVITY: Geometry = Geometry { width: 1280, height: 720 };

fn open(handle: &mut AppContext, func: &str, url: &str) -> Option<WindowState> {
    create_mhy_client(handle, func.to_string(), url.to_string()).unwrap().map(|plan| plan.window)
}

#[test]
fn sign_in_request_opens_the_sign_in_page() {
    let mut handle = AppContext::new(BASE);
    let plan = create_mhy_client(&mut handle, "sign_in".to_string(), String::new())
        .unwrap()
        .unwrap();
    assert_eq!(plan.window.label, "mhy_client");
    assert_eq!(plan.window.url, SIGN_IN_ADDRESS);
    assert_eq!(plan.window.geometry, BASE);
    assert!(!plan.window.always_on_top);
    assert_eq!(plan.menu, create_mhy_menu());
    assert_eq!(handle.windows.get(CLIENT_LABEL), Some(&plan.window));
    assert_eq!(handle.windows.len(), 1);
}

#[test]
fn birthday_request_opens_the_birthday_page_enlarged() {
    let mut handle = AppContext::new(BASE);
    let window = open(&mut handle, "birthday", "").unwrap();
    assert_eq!(window.url, BIRTHDAY_ADDRESS);
    assert_eq!(window.geometry, ACTIVITY);
}

#[test]
fn game_record_and_unknown_requests_open_their_pages() {
    let mut handle = AppContext::new(BASE);
    assert_eq!(open(&mut handle, "game_record", "").unwrap().url, GAME_RECORD_ADDRESS);
    let mut handle = AppContext::new(BASE);
    let window = open(&mut handle, "", "").unwrap();
    assert_eq!(window.url, HOME_ADDRESS);
    assert_eq!(window.geometry, BASE);
    let mut handle = AppContext::new(BASE);
    let window = open(&mut handle, "web_act", "").unwrap();
    assert_eq!(window.url, HOME_ADDRESS);
    assert_eq!(window.geometry, ACTIVITY);
}

#[test]
fn explicit_birthday_address_is_enlarged_without_a_function() {
    let mut handle = AppContext::new(BASE);
    let url = "https://webstatic.mihoyo.com/ys/event/e20220303-birthday/index.html?x=1";
    let window = open(&mut handle, "", url).unwrap();
    assert_eq!(window.url, url);
    assert_eq!(window.geometry, ACTIVITY);
}

#[test]
fn explicit_address_wins_over_the_function() {
    let mut handle = AppContext::new(BASE);
    let window = open(&mut handle, "sign_in", "https://example.com/page?a=1").unwrap();
    assert_eq!(window.url, "https://example.com/page?a=1");
    assert_eq!(window.geometry, BASE);
}

#[test]
fn address_is_recorded_as_the_parser_writes_it() {
    let mut handle = AppContext::new(BASE);
    let window = open(&mut handle, "", "HTTPS://EXAMPLE.com").unwrap();
    assert_eq!(window.url, "https://example.com/");
    assert_eq!(handle.windows.get(CLIENT_LABEL).unwrap().url, "https://example.com/");
    let mut handle = AppContext::new(BASE);
    let window = open(&mut handle, "", "https://example.com/a b").unwrap();
    assert_eq!(window.url, "https://example.com/a%20b");
}

#[test]
fn second_request_is_absorbed() {
    let mut handle = AppContext::new(BASE);
    let first = open(&mut handle, "sign_in", "").unwrap();
    let second = create_mhy_client(&mut handle, "sign_in".to_string(), String::new());
    assert_eq!(second, Ok(None));
    assert_eq!(handle.windows.len(), 1);
    assert_eq!(handle.windows.count(CLIENT_LABEL), 1);
    assert_eq!(handle.windows.get(CLIENT_LABEL), Some(&first));
    assert_eq!(first.url, SIGN_IN_ADDRESS);
}

#[test]
fn absorbed_request_leaves_address_and_size() {
    let mut handle = AppContext::new(BASE);
    let first = open(&mut handle, "sign_in", "").unwrap();
    assert_eq!(open(&mut handle, "birthday", ""), None);
    assert_eq!(open(&mut handle, "", "https://example.com/"), None);
    let kept = handle.windows.get(CLIENT_LABEL).unwrap();
    assert_eq!(kept, &first);
    assert_eq!(kept.geometry, BASE);
    assert_eq!(kept.url, SIGN_IN_ADDRESS);
}

#[test]
fn absorbed_request_does_not_unpin() {
    let mut handle = AppContext::new(BASE);
    open(&mut handle, "sign_in", "");
    handle.windows.set_always_on_top(CLIENT_LABEL, true);
    assert_eq!(open(&mut handle, "sign_in", ""), None);
    assert!(handle.windows.get(CLIENT_LABEL).unwrap().always_on_top);
}

#[test]
fn at_most_one_client_after_many_requests() {
    let mut handle = AppContext::new(BASE);
    handle.windows.create_if_absent(WindowState::new(MAIN_LABEL, "tauri://localhost", BASE));
    let requests = [
        ("", "no address"),
        ("birthday", ""),
        ("sign_in", ""),
        ("", "https://example.com/"),
        ("game_record", "::"),
        ("web_act", ""),
    ];
    assert_eq!(handle.windows.count(CLIENT_LABEL), 0);
    for (func, url) in requests {
        let _ = create_mhy_client(&mut handle, func.to_string(), url.to_string());
        assert!(handle.windows.count(CLIENT_LABEL) <= 1);
    }
    assert_eq!(handle.windows.count(CLIENT_LABEL), 1);
    assert_eq!(handle.windows.len(), 2);
    assert_eq!(handle.windows.get(CLIENT_LABEL).unwrap().url, BIRTHDAY_ADDRESS);
}

#[test]
fn malformed_address_is_refused() {
    let mut handle = AppContext::new(BASE);
    for url in ["not an address", "/relative/path", "http://", "https://exa mple.com/", "::"] {
        let r = create_mhy_client(&mut handle, "sign_in".to_string(), url.to_string());
        assert_eq!(r, Err(ShellError::MalformedAddress), "{:?}", url);
        assert_eq!(handle.windows.len(), 0);
    }
}

#[test]
fn malformed_address_is_refused_before_reuse() {
    let mut handle = AppContext::new(BASE);
    let first = open(&mut handle, "sign_in", "").unwrap();
    let r = create_mhy_client(&mut handle, String::new(), "no address".to_string());
    assert_eq!(r, Err(ShellError::MalformedAddress));
    assert_eq!(handle.windows.get(CLIENT_LABEL), Some(&first));
}

#[test]
fn open_client_window_takes_the_address_as_given() {
    let mut handle = AppContext::new(BASE);
    let plan = open_client_window(&mut handle, "birthday", "", "about:blank".to_string()).unwrap();
    assert_eq!(plan.window, WindowState {
        label: "mhy_client".to_string(),
        url: "about:blank".to_string(),
        geometry: ACTIVITY,
        always_on_top: false,
    });
    assert_eq!(plan.menu.len(), 3);
    assert!(open_client_window(&mut handle, "", "", "other".to_string()).is_none());
    assert_eq!(handle.windows.get(CLIENT_LABEL).unwrap().url, "about:blank");
}

#[test]
fn failed_build_withdraws_the_record() {
    let mut handle = AppContext::new(BASE);
    handle.windows.create_if_absent(WindowState::new(MAIN_LABEL, "tauri://localhost", BASE));
    open(&mut handle, "sign_in", "").unwrap();
    assert_eq!(client_build_failed(&mut handle), ShellError::ConstructionFailed);
    assert!(!handle.windows.contains(CLIENT_LABEL));
    assert!(handle.windows.contains(MAIN_LABEL));
    let again = open(&mut handle, "birthday", "").unwrap();
    assert_eq!(again.url, BIRTHDAY_ADDRESS);
}

#[test]
fn requests_leave_the_flags_alone() {
    let mut handle = AppContext::new(BASE);
    open(&mut handle, "sign_in", "");
    assert!(!handle.gate.is_initialized());
    assert!(!handle.gate.is_registered());
    assert_eq!(handle.client_base, BASE);
}

#[test]
fn error_messages() {
    assert_eq!(ShellError::MalformedAddress.message(), "the address is not a valid address");
    assert_eq!(ShellError::WindowMissing.message(), "the mhy_client window is not open");
    assert_eq!(ShellError::ConstructionFailed.message(), "failed to create mhy_client");
}
