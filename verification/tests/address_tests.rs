use teyvat_shell::address::{
    get_mhy_client_url, resolve_geometry, resolve_target, ACTIVITY_HEIGHT, ACTIVITY_WIDTH,
    BIRTHDAY_ADDRESS, BIRTHDAY_PREFIX, GAME_RECORD_ADDRESS, HOME_ADDRESS, SIGN_IN_ADDRESS,
};
use teyvat_shell::window::Geometry;

const BASE: Geometry = Geometry { width: 400, height: 800 };
const ACTIVITY: Geometry = Geometry { width: 1280, height: 720 };

#[test]
fn sign_in_resolves_to_the_sign_in_page() {
    assert_eq!(
        get_mhy_client_url("sign_in".to_string()),
        "https://webstatic.mihoyo.com/bbs/event/signin-ys/index.html?act_id=e202009291139501"
    );
}

#[test]
fn game_record_resolves_to_the_overview_page() {
    assert_eq!(
        get_mhy_client_url("game_record".to_string()),
        "https://webstatic.mihoyo.com/app/community-game-records/index.html?bbs_presentation_style=fullscreen"
    );
}

#[test]
fn birthday_resolves_to_the_birthday_page() {
    assert_eq!(
        get_mhy_client_url("birthday".to_string()),
        "https://webstatic.mihoyo.com/ys/event/e20220303-birthday/index.html?activity_id=20220301153521"
    );
}

#[test]
fn unknown_and_empty_functions_resolve_to_the_home_page() {
    assert_eq!(get_mhy_client_url(String::new()), "https://bbs.mihoyo.com/ys/");
    assert_eq!(get_mhy_client_url("web_act".to_string()), "https://bbs.mihoyo.com/ys/");
    assert_eq!(get_mhy_client_url("Sign_in".to_string()), "https://bbs.mihoyo.com/ys/");
    assert_eq!(get_mhy_client_url("sign_in ".to_string()), "https://bbs.mihoyo.com/ys/");
}

#[test]
fn address_constants_hold_the_table() {
    assert_eq!(HOME_ADDRESS, get_mhy_client_url("none".to_string()));
    assert_eq!(SIGN_IN_ADDRESS, get_mhy_client_url("sign_in".to_string()));
    assert_eq!(GAME_RECORD_ADDRESS, get_mhy_client_url("game_record".to_string()));
    assert_eq!(BIRTHDAY_ADDRESS, get_mhy_client_url("birthday".to_string()));
    assert!(BIRTHDAY_ADDRESS.starts_with(BIRTHDAY_PREFIX));
}

#[test]
fn table_addresses_are_in_normal_form() {
    for address in [HOME_ADDRESS, SIGN_IN_ADDRESS, GAME_RECORD_ADDRESS, BIRTHDAY_ADDRESS] {
        assert_eq!(url::Url::parse(address).unwrap().as_str(), address);
    }
}

#[test]
fn explicit_address_takes_precedence() {
    assert_eq!(resolve_target("sign_in", "https://example.com/x"), "https://example.com/x");
    assert_eq!(resolve_target("", "not an address"), "not an address");
}

#[test]
fn empty_address_falls_back_to_the_function() {
    assert_eq!(resolve_target("sign_in", ""), SIGN_IN_ADDRESS);
    assert_eq!(resolve_target("", ""), HOME_ADDRESS);
}

#[test]
fn birthday_and_web_act_get_the_activity_size() {
    assert_eq!(resolve_geometry("birthday", "", BASE), ACTIVITY);
    assert_eq!(resolve_geometry("web_act", "", BASE), ACTIVITY);
    assert_eq!(resolve_geometry("web_act", "https://example.com/", BASE), ACTIVITY);
    assert_eq!(ACTIVITY_WIDTH, 1280);
    assert_eq!(ACTIVITY_HEIGHT, 720);
}

#[test]
fn birthday_prefix_gets_the_activity_size_without_a_function() {
    let url = "https://webstatic.mihoyo.com/ys/event/e20220303-birthday/index.html?x=1";
    assert_eq!(resolve_geometry("", url, BASE), ACTIVITY);
    assert_eq!(resolve_geometry("sign_in", BIRTHDAY_PREFIX, BASE), ACTIVITY);
}

#[test]
fn other_requests_keep_the_configured_size() {
    assert_eq!(resolve_geometry("sign_in", "", BASE), BASE);
    assert_eq!(resolve_geometry("game_record", "", BASE), BASE);
    assert_eq!(resolve_geometry("", "", BASE), BASE);
    let near = "https://webstatic.mihoyo.com/ys/event/e20220303-birthday/index.htm";
    assert_eq!(resolve_geometry("", near, BASE), BASE);
    let inside = "x https://webstatic.mihoyo.com/ys/event/e20220303-birthday/index.html";
    assert_eq!(resolve_geometry("", inside, BASE), BASE);
}
