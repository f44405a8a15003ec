//! Opening the secondary window: at most one is open at any time, and a
//! request that finds one open is absorbed.

use vstd::prelude::*;
use crate::address::{resolve_geometry, resolve_target, target_address, target_geometry};
use crate::context::{AppContext, ShellError, CLIENT_LABEL};
use crate::menu::{create_mhy_menu, entry_views, menu_entries, MenuEntry, MenuEntryView};
use crate::registry::{count_label, distinct_labels, has_label, index_of, with_window};
use crate::registry::without_label;
use crate::registry::{lemma_count_at_most_one, lemma_index_unique, lemma_with_window};
use crate::window::{Geometry, WindowState, WindowView};

verus! {

/// The error of `url::Url::parse`, carried as it comes.
#[verifier::external_type_specification]
#[verifier::external_body]
pub struct ExParseError(url::ParseError);

/// What `url::Url::parse` makes of `raw`: the address in its normal form,
/// or nothing where `raw` is no absolute address.
pub uninterp spec fn parsed_address(raw: Seq<char>) -> Option<Seq<char>>;

/// Parses an address with `url::Url::parse` and returns it as text.
///
/// Trusted: the result is the parser's, which depends on `raw` alone; an
/// error stands for an address that the parser refuses.
#[verifier::external_body]
fn parse_address(raw: &str) -> (r: Result<String, url::ParseError>)
    ensures
        match r {
            Ok(address) => parsed_address(raw@) == Some(address@),
            Err(_) => parsed_address(raw@) is None,
        },
{
    url::Url::parse(raw).map(String::from)
}

/// What the host needs to build the secondary window.
#[derive(Clone, Debug, PartialEq, Eq)]
pub struct WindowPlan {
    /// The window as it is recorded.
    pub window: WindowState,
    /// The entries of its context menu.
    pub menu: Vec<MenuEntry>,
}

/// The value of a [`WindowPlan`].
pub struct WindowPlanView {
    pub window: WindowView,
    pub menu: Seq<MenuEntryView>,
}

impl View for WindowPlan {
    type V = WindowPlanView;

    open spec fn view(&self) -> WindowPlanView {
        WindowPlanView { window: self.window@, menu: entry_views(self.menu@) }
    }
}

/// One request for the secondary window: a function name and an explicit
/// address, either of which may be empty.
pub struct LaunchView {
    pub func: Seq<char>,
    pub url: Seq<char>,
}

/// The secondary window that a request asks for, given its parsed address.
pub open spec fn client_window(req: LaunchView, base: Geometry, address: Seq<char>) -> WindowView {
    WindowView {
        label: CLIENT_LABEL@,
        url: address,
        geometry: target_geometry(req.func, req.url, base),
        always_on_top: false,
    }
}

/// The open windows after a request: unchanged where the address is
/// refused or a secondary window is open, else with the new window.
pub open spec fn after_open(ws: Seq<WindowView>, base: Geometry, req: LaunchView) -> Seq<
    WindowView,
> {
    match parsed_address(target_address(req.func, req.url)) {
        None => ws,
        Some(address) => with_window(ws, client_window(req, base, address)),
    }
}

/// The open windows after a run of requests.
pub open spec fn after_opens(ws: Seq<WindowView>, base: Geometry, reqs: Seq<LaunchView>) -> Seq<
    WindowView,
>
    decreases reqs.len(),
{
    if reqs.len() == 0 {
        ws
    } else {
        after_open(after_opens(ws, base, reqs.drop_last()), base, reqs.last())
    }
}

/// After any run of requests the labels are still distinct, and so there is
/// no secondary window or exactly one.
pub proof fn lemma_at_most_one_client(ws: Seq<WindowView>, base: Geometry, reqs: Seq<LaunchView>)
    requires
        distinct_labels(ws),
    ensures
        distinct_labels(after_opens(ws, base, reqs)),
        count_label(after_opens(ws, base, reqs), CLIENT_LABEL@) <= 1,
    decreases reqs.len(),
{
    if reqs.len() > 0 {
        let before = after_opens(ws, base, reqs.drop_last());
        lemma_at_most_one_client(ws, base, reqs.drop_last());
        match parsed_address(target_address(reqs.last().func, reqs.last().url)) {
            None => {},
            Some(address) => {
                lemma_with_window(before, client_window(reqs.last(), base, address));
            },
        }
    }
    lemma_count_at_most_one(after_opens(ws, base, reqs), CLIENT_LABEL@);
}

/// A request that finds the secondary window open changes nothing.
pub proof fn lemma_reuse_changes_nothing(ws: Seq<WindowView>, base: Geometry, req: LaunchView)
    requires
        has_label(ws, CLIENT_LABEL@),
    ensures
        after_open(ws, base, req) == ws,
{
}

/// Two requests in a row, the first with a valid address: afterwards one
/// secondary window is open, it is the one that stood after the first
/// request, and the second request changed nothing. Where none was open
/// before, it shows the first request's address in the first request's
/// size.
pub proof fn lemma_open_twice(
    ws: Seq<WindowView>,
    base: Geometry,
    first: LaunchView,
    second: LaunchView,
)
    requires
        distinct_labels(ws),
        parsed_address(target_address(first.func, first.url)) is Some,
    ensures
        after_open(after_open(ws, base, first), base, second) == after_open(ws, base, first),
        count_label(after_open(ws, base, first), CLIENT_LABEL@) == 1,
        !has_label(ws, CLIENT_LABEL@) ==> after_open(ws, base, first)[index_of(
            after_open(ws, base, first),
            CLIENT_LABEL@,
        )] == client_window(
            first,
            base,
            parsed_address(target_address(first.func, first.url))->0,
        ),
{
    let address = parsed_address(target_address(first.func, first.url))->0;
    let once = after_open(ws, base, first);
    lemma_with_window(ws, client_window(first, base, address));
    lemma_count_at_most_one(once, CLIENT_LABEL@);
    if !has_label(ws, CLIENT_LABEL@) {
        lemma_index_unique(once, ws.len() as int);
    }
}

/// Opens the secondary window on an address that has been parsed, unless
/// one is open: then the request is dropped and the open window is left as
/// it is. Returns what the host is to build, or nothing for a dropped
/// request.
pub fn open_client_window(
    handle: &mut AppContext,
    func: &str,
    url: &str,
    address: String,
) -> (plan: Option<WindowPlan>)
    ensures
        final(handle).windows@ == with_window(
            old(handle).windows@,
            client_window((LaunchView { func: func@, url: url@ }), old(handle).client_base, address@),
        ),
        plan.is_some() == !has_label(old(handle).windows@, CLIENT_LABEL@),
        plan.is_some() ==> plan.unwrap()@ == (WindowPlanView {
            window: client_window(
                (LaunchView { func: func@, url: url@ }),
                old(handle).client_base,
                address@,
            ),
            menu: menu_entries(),
        }),
        final(handle).gate == old(handle).gate,
        final(handle).client_base == old(handle).client_base,
{
    let geometry = resolve_geometry(func, url, handle.client_base);
    let window = WindowState::new(CLIENT_LABEL, address.as_str(), geometry);
    let recorded = window.duplicate();
    if handle.windows.create_if_absent(recorded) {
        Some(WindowPlan { window, menu: create_mhy_menu() })
    } else {
        None
    }
}

/// Takes a request for the secondary window: `func` names one of the known
/// pages, `url` is an explicit address that takes precedence where it is
/// not empty.
///
/// The address is refused where it does not parse. Else the window is
/// recorded and returned for the host to build, unless a secondary window
/// is open: then nothing is returned and nothing changes.
pub fn create_mhy_client(handle: &mut AppContext, func: String, url: String) -> (r: Result<
    Option<WindowPlan>,
    ShellError,
>)
    ensures
        final(handle).windows@ == after_open(
            old(handle).windows@,
            old(handle).client_base,
            (LaunchView { func: func@, url: url@ }),
        ),
        final(handle).gate == old(handle).gate,
        final(handle).client_base == old(handle).client_base,
        match parsed_address(target_address(func@, url@)) {
            None => r == Err::<Option<WindowPlan>, ShellError>(ShellError::MalformedAddress),
            Some(address) => r is Ok && r->Ok_0.is_some() == !has_label(
                old(handle).windows@,
                CLIENT_LABEL@,
            ) && (r->Ok_0.is_some() ==> r->Ok_0.unwrap()@ == (WindowPlanView {
                window: client_window(
                    (LaunchView { func: func@, url: url@ }),
                    old(handle).client_base,
                    address,
                ),
                menu: menu_entries(),
            })),
        },
{
    let raw = resolve_target(func.as_str(), url.as_str());
    match parse_address(raw.as_str()) {
        Err(_) => Err(ShellError::MalformedAddress),
        Ok(address) => Ok(open_client_window(handle, func.as_str(), url.as_str(), address)),
    }
}

/// Takes the host's report that it could not build the secondary window.
/// The record of the window is withdrawn, so that a later request can open
/// one, and the error to show is returned. Nothing else changes.
pub fn client_build_failed(handle: &mut AppContext) -> (error: ShellError)
    ensures
        error == ShellError::ConstructionFailed,
        final(handle).windows@ == without_label(old(handle).windows@, CLIENT_LABEL@),
        final(handle).gate == old(handle).gate,
        final(handle).client_base == old(handle).client_base,
{
    handle.windows.remove(CLIENT_LABEL);
    ShellError::ConstructionFailed
}

} // verus!
