//! Which address and which size a request for the secondary window gets.

use vstd::prelude::*;
use crate::text::{starts_with, text_eq};
use crate::window::Geometry;

verus! {

/// The community home page: the target where no function is recognised.
pub const HOME_ADDRESS: &'static str = "https://bbs.mihoyo.com/ys/";

/// The daily sign-in event page.
pub const SIGN_IN_ADDRESS: &'static str =
    "https://webstatic.mihoyo.com/bbs/event/signin-ys/index.html?act_id=e202009291139501";

/// The game-record overview page.
pub const GAME_RECORD_ADDRESS: &'static str =
    "https://webstatic.mihoyo.com/app/community-game-records/index.html?bbs_presentation_style=fullscreen";

/// The birthday event page.
pub const BIRTHDAY_ADDRESS: &'static str =
    "https://webstatic.mihoyo.com/ys/event/e20220303-birthday/index.html?activity_id=20220301153521";

/// Addresses that begin with this belong to the birthday event.
pub const BIRTHDAY_PREFIX: &'static str =
    "https://webstatic.mihoyo.com/ys/event/e20220303-birthday/index.html";

/// The width of a window that shows an activity page.
pub const ACTIVITY_WIDTH: u32 = 1280;

/// The height of a window that shows an activity page.
pub const ACTIVITY_HEIGHT: u32 = 720;

/// The size of a window that shows an activity page.
pub open spec fn activity_geometry() -> Geometry {
    Geometry { width: ACTIVITY_WIDTH, height: ACTIVITY_HEIGHT }
}

/// The address that a function name stands for.
pub open spec fn function_address(func: Seq<char>) -> Seq<char> {
    if func == "sign_in"@ {
        SIGN_IN_ADDRESS@
    } else if func == "game_record"@ {
        GAME_RECORD_ADDRESS@
    } else if func == "birthday"@ {
        BIRTHDAY_ADDRESS@
    } else {
        HOME_ADDRESS@
    }
}

/// The address that a request asks for: the explicit one where there is
/// one, else the one that the function name stands for.
pub open spec fn target_address(func: Seq<char>, url: Seq<char>) -> Seq<char> {
    if url.len() != 0 {
        url
    } else {
        function_address(func)
    }
}

/// Whether a request asks for an activity page.
pub open spec fn is_activity(func: Seq<char>, url: Seq<char>) -> bool {
    func == "birthday"@ || func == "web_act"@ || BIRTHDAY_PREFIX@.is_prefix_of(url)
}

/// The size that a request's window gets: the activity size for an activity
/// page, else the size that the configuration gives.
pub open spec fn target_geometry(func: Seq<char>, url: Seq<char>, base: Geometry) -> Geometry {
    if is_activity(func, url) {
        activity_geometry()
    } else {
        base
    }
}

/// The entry address of the secondary window for a function name.
pub fn get_mhy_client_url(func: String) -> (address: String)
    ensures
        address@ == function_address(func@),
{
    let name = func.as_str();
    if text_eq(name, "sign_in") {
        SIGN_IN_ADDRESS.to_owned()
    } else if text_eq(name, "game_record") {
        GAME_RECORD_ADDRESS.to_owned()
    } else if text_eq(name, "birthday") {
        BIRTHDAY_ADDRESS.to_owned()
    } else {
        HOME_ADDRESS.to_owned()
    }
}

/// The address that a request asks for, before it is parsed.
pub fn resolve_target(func: &str, url: &str) -> (address: String)
    ensures
        address@ == target_address(func@, url@),
{
    if !url.is_empty() {
        url.to_owned()
    } else {
        get_mhy_client_url(func.to_owned())
    }
}

/// The size of the window that a request asks for.
pub fn resolve_geometry(func: &str, url: &str, base: Geometry) -> (geometry: Geometry)
    ensures
        geometry == target_geometry(func@, url@, base),
{
    if text_eq(func, "birthday") || text_eq(func, "web_act") || starts_with(url, BIRTHDAY_PREFIX) {
        Geometry { width: ACTIVITY_WIDTH, height: ACTIVITY_HEIGHT }
    } else {
        base
    }
}

} // verus!
