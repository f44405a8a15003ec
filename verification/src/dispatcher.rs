//! What a click on the secondary window's context menu does.

use vstd::prelude::*;
use crate::context::{AppContext, ShellError, CLIENT_LABEL};
use crate::menu::{menu_action_of, parse_menu_action, MenuAction, PAGE_EVENT, PAGE_METHOD};
use crate::registry::{distinct_labels, has_label, index_of, lemma_with_top, with_top};
use crate::registry::lemma_index_unique;
use crate::window::WindowView;

verus! {

/// How the secondary window reports the page it shows: as an event to the
/// whole application whose payload holds a tag under `method` and the
/// address of the page under `payload`.
#[derive(Clone, Copy, Debug, PartialEq, Eq)]
pub struct PageReport {
    /// The name of the event.
    pub event: &'static str,
    /// The tag that the payload carries.
    pub method: &'static str,
}

/// The value of a [`PageReport`].
pub struct PageReportView {
    pub event: Seq<char>,
    pub method: Seq<char>,
}

impl View for PageReport {
    type V = PageReportView;

    open spec fn view(&self) -> PageReportView {
        PageReportView { event: self.event@, method: self.method@ }
    }
}

/// What the host is to do after a click.
#[derive(Clone, Copy, Debug, PartialEq, Eq)]
pub enum MenuEffect {
    /// Set the always-on-top attribute of the secondary window.
    SetAlwaysOnTop(bool),
    /// Have the secondary window report the address it shows, once and
    /// without waiting for it.
    ReportLocation(PageReport),
    /// Nothing: the identifier is none of the menu's.
    Ignored,
}

/// The value of a [`MenuEffect`].
pub enum MenuEffectView {
    SetAlwaysOnTop(bool),
    ReportLocation(PageReportView),
    Ignored,
}

impl View for MenuEffect {
    type V = MenuEffectView;

    open spec fn view(&self) -> MenuEffectView {
        match self {
            MenuEffect::SetAlwaysOnTop(flag) => MenuEffectView::SetAlwaysOnTop(*flag),
            MenuEffect::ReportLocation(report) => MenuEffectView::ReportLocation(report@),
            MenuEffect::Ignored => MenuEffectView::Ignored,
        }
    }
}

/// The report that the third entry of the menu asks for.
pub open spec fn page_report() -> PageReportView {
    PageReportView { event: PAGE_EVENT@, method: PAGE_METHOD@ }
}

/// What a click that reports `id` comes to, given the open windows.
pub open spec fn dispatch_outcome(ws: Seq<WindowView>, id: Seq<char>) -> Result<
    MenuEffectView,
    ShellError,
> {
    match menu_action_of(id) {
        None => Ok(MenuEffectView::Ignored),
        Some(action) => if !has_label(ws, CLIENT_LABEL@) {
            Err(ShellError::WindowMissing)
        } else {
            match action {
                MenuAction::Pin => Ok(MenuEffectView::SetAlwaysOnTop(true)),
                MenuAction::Unpin => Ok(MenuEffectView::SetAlwaysOnTop(false)),
                MenuAction::OpenCurrentPage => Ok(MenuEffectView::ReportLocation(page_report())),
            }
        },
    }
}

/// The open windows after a click that reports `id`.
pub open spec fn after_dispatch(ws: Seq<WindowView>, id: Seq<char>) -> Seq<WindowView> {
    match menu_action_of(id) {
        Some(MenuAction::Pin) => with_top(ws, CLIENT_LABEL@, true),
        Some(MenuAction::Unpin) => with_top(ws, CLIENT_LABEL@, false),
        _ => ws,
    }
}

/// A click changes no window but the secondary one: every other window,
/// the main window among them, keeps its place and its always-on-top
/// attribute, and no window appears or goes.
pub proof fn lemma_menu_isolation(ws: Seq<WindowView>, id: Seq<char>)
    requires
        distinct_labels(ws),
    ensures
        distinct_labels(after_dispatch(ws, id)),
        after_dispatch(ws, id).len() == ws.len(),
        forall|i: int|
            0 <= i < ws.len() && ws[i].label != CLIENT_LABEL@ ==> #[trigger] after_dispatch(
                ws,
                id,
            )[i] == ws[i],
        forall|l: Seq<char>| has_label(after_dispatch(ws, id), l) == has_label(ws, l),
        forall|l: Seq<char>|
            l != CLIENT_LABEL@ && has_label(ws, l) ==> after_dispatch(ws, id)[index_of(
                after_dispatch(ws, id),
                l,
            )] == ws[index_of(ws, l)],
{
    let out = after_dispatch(ws, id);
    lemma_with_top(ws, CLIENT_LABEL@, true);
    lemma_with_top(ws, CLIENT_LABEL@, false);
    assert forall|l: Seq<char>| l != CLIENT_LABEL@ && has_label(ws, l) implies out[index_of(
        out,
        l,
    )] == ws[index_of(ws, l)] by {
        let k = index_of(ws, l);
        assert(out[k].label == l);
        lemma_index_unique(out, k);
    }
}

/// Takes a click on the context menu that reports `id`.
///
/// An identifier that the menu does not define is ignored. The three that
/// it defines need the secondary window open. Pinning and unpinning set its
/// always-on-top attribute in the record and tell the host to do the same;
/// the third tells the host to have the window report its address, and
/// under which event and tag.
pub fn dispatch_menu_event(handle: &mut AppContext, id: &str) -> (r: Result<
    MenuEffect,
    ShellError,
>)
    ensures
        match r {
            Ok(effect) => dispatch_outcome(old(handle).windows@, id@) == Ok::<
                MenuEffectView,
                ShellError,
            >(effect@),
            Err(error) => dispatch_outcome(old(handle).windows@, id@) == Err::<
                MenuEffectView,
                ShellError,
            >(error),
        },
        r is Ok ==> final(handle).windows@ == after_dispatch(old(handle).windows@, id@),
        r is Err ==> final(handle).windows@ == old(handle).windows@,
        final(handle).gate == old(handle).gate,
        final(handle).client_base == old(handle).client_base,
{
    match parse_menu_action(id) {
        None => Ok(MenuEffect::Ignored),
        Some(action) => {
            if !handle.windows.contains(CLIENT_LABEL) {
                return Err(ShellError::WindowMissing);
            }
            match action {
                MenuAction::Pin => {
                    handle.windows.set_always_on_top(CLIENT_LABEL, true);
                    Ok(MenuEffect::SetAlwaysOnTop(true))
                },
                MenuAction::Unpin => {
                    handle.windows.set_always_on_top(CLIENT_LABEL, false);
                    Ok(MenuEffect::SetAlwaysOnTop(false))
                },
                MenuAction::OpenCurrentPage => Ok(
                    MenuEffect::ReportLocation(
                        PageReport { event: PAGE_EVENT, method: PAGE_METHOD },
                    ),
                ),
            }
        },
    }
}

} // verus!
