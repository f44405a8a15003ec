use teyvat_shell::cascade::{close_requested, ClosePlan};
use teyvat_shell::context::{AppContext, CLIENT_LABEL, DEV_LABEL, MAIN_LABEL, SUB_LABEL};
use teyvat_shell::controller::create_mhy_client;
use teyvat_shell::window::{Geometry, WindowState};

const BASE: Geometry = Geometry { width: 400, height: 800 };

fn shell(labels: &[&str]) -> AppContext {
    let mut handle = AppContext::new(BASE);
    for label in labels {
        handle.windows.create_if_absent(WindowState::new(label, "tauri://localhost", BASE));
    }
    handle
}

fn plan(labels: &[&str]) -> ClosePlan {
    ClosePlan { prevent_default: true, close: labels.iter().map(|l| l.to_string()).collect() }
}

#[test]
fn labels_of_the_cascade() {
    assert_eq!(MAIN_LABEL, "TeyvatGuide");
    assert_eq!(SUB_LABEL, "Sub_window");
    assert_eq!(DEV_LABEL, "Dev_JSON");
    assert_eq!(CLIENT_LABEL, "mhy_client");
}

#[test]
fn main_window_takes_open_dependents_with_it() {
    let mut handle = shell(&[MAIN_LABEL, DEV_LABEL]);
    create_mhy_client(&mut handle, "sign_in".to_string(), String::new()).unwrap();
    let got = close_requested(&mut handle, MAIN_LABEL);
    assert_eq!(got, plan(&["Dev_JSON", "mhy_client", "TeyvatGuide"]));
    assert!(!handle.windows.contains(CLIENT_LABEL));
    assert!(!handle.windows.contains(DEV_LABEL));
    assert!(!handle.windows.contains(MAIN_LABEL));
    assert!(!handle.windows.contains(SUB_LABEL));
    assert_eq!(handle.windows.len(), 0);
}

#[test]
fn dependents_close_in_their_fixed_order() {
    let mut handle = shell(&[CLIENT_LABEL, DEV_LABEL, MAIN_LABEL, SUB_LABEL]);
    let got = close_requested(&mut handle, MAIN_LABEL);
    assert_eq!(got, plan(&["Sub_window", "Dev_JSON", "mhy_client", "TeyvatGuide"]));
    assert_eq!(handle.windows.len(), 0);
}

#[test]
fn main_window_alone_closes_alone() {
    let mut handle = shell(&[MAIN_LABEL]);
    assert_eq!(close_requested(&mut handle, MAIN_LABEL), plan(&["TeyvatGuide"]));
    assert_eq!(handle.windows.len(), 0);
}

#[test]
fn cascade_leaves_other_windows_open() {
    let mut handle = shell(&["notes", MAIN_LABEL, SUB_LABEL, "help"]);
    handle.windows.set_always_on_top("help", true);
    let got = close_requested(&mut handle, MAIN_LABEL);
    assert_eq!(got, plan(&["Sub_window", "TeyvatGuide"]));
    assert_eq!(handle.windows.len(), 2);
    assert!(handle.windows.contains("notes"));
    assert!(handle.windows.get("help").unwrap().always_on_top);
}

#[test]
fn other_window_closes_without_a_cascade() {
    let mut handle = shell(&[MAIN_LABEL, SUB_LABEL, DEV_LABEL, CLIENT_LABEL]);
    let got = close_requested(&mut handle, CLIENT_LABEL);
    assert_eq!(got, plan(&["mhy_client"]));
    assert!(got.prevent_default);
    assert!(!handle.windows.contains(CLIENT_LABEL));
    assert!(handle.windows.contains(MAIN_LABEL));
    assert!(handle.windows.contains(SUB_LABEL));
    assert!(handle.windows.contains(DEV_LABEL));
    let got = close_requested(&mut handle, SUB_LABEL);
    assert_eq!(got, plan(&["Sub_window"]));
    assert_eq!(handle.windows.len(), 2);
}

#[test]
fn window_that_is_not_on_record_is_still_closed() {
    let mut handle = shell(&[MAIN_LABEL]);
    assert_eq!(close_requested(&mut handle, "popup"), plan(&["popup"]));
    assert_eq!(handle.windows.len(), 1);
    let mut empty = AppContext::new(BASE);
    assert_eq!(close_requested(&mut empty, MAIN_LABEL), plan(&["TeyvatGuide"]));
}

#[test]
fn client_can_be_opened_again_after_it_closed() {
    let mut handle = shell(&[MAIN_LABEL]);
    create_mhy_client(&mut handle, "sign_in".to_string(), String::new()).unwrap();
    close_requested(&mut handle, CLIENT_LABEL);
    let again = create_mhy_client(&mut handle, "birthday".to_string(), String::new()).unwrap();
    assert!(again.is_some());
    assert_eq!(handle.windows.count(CLIENT_LABEL), 1);
}

#[test]
fn close_requests_leave_the_flags_alone() {
    let mut handle = shell(&[MAIN_LABEL]);
    handle.gate.initialize();
    close_requested(&mut handle, MAIN_LABEL);
    assert!(handle.gate.is_initialized());
    assert!(!handle.gate.is_registered());
    assert_eq!(handle.client_base, BASE);
}
