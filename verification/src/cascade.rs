//! Closing windows: the main window takes its dependent windows with it.

use vstd::prelude::*;
use crate::context::{AppContext, CLIENT_LABEL, DEV_LABEL, MAIN_LABEL, SUB_LABEL};
use crate::registry::{distinct_labels, has_label, index_of, lemma_without_label, without_label};
use crate::registry::WindowRegistry;
use crate::text::text_eq;
use crate::window::WindowView;

verus! {

/// What the host is to do with a request to close a window.
#[derive(Clone, Debug, PartialEq, Eq)]
pub struct ClosePlan {
    /// Whether to suppress what the system would do by itself: always.
    pub prevent_default: bool,
    /// The labels of the windows to close, in this order.
    pub close: Vec<String>,
}

/// The texts of a list of labels.
pub open spec fn label_views(labels: Seq<String>) -> Seq<Seq<char>> {
    Seq::new(labels.len(), |i: int| labels[i]@)
}

/// `label` where a window is open under it, else nothing.
pub open spec fn present(ws: Seq<WindowView>, label: Seq<char>) -> Seq<Seq<char>> {
    if has_label(ws, label) {
        seq![label]
    } else {
        Seq::empty()
    }
}

/// The windows to close when the window under `label` is asked to close:
/// for the main window its open dependents first, in their fixed order; in
/// every case the window itself last.
pub open spec fn close_order(ws: Seq<WindowView>, label: Seq<char>) -> Seq<Seq<char>> {
    if label == MAIN_LABEL@ {
        present(ws, SUB_LABEL@) + present(ws, DEV_LABEL@) + present(ws, CLIENT_LABEL@) + seq![
            label,
        ]
    } else {
        seq![label]
    }
}

/// The open windows after the window under `label` was asked to close.
pub open spec fn after_close(ws: Seq<WindowView>, label: Seq<char>) -> Seq<WindowView> {
    if label == MAIN_LABEL@ {
        without_label(
            without_label(
                without_label(without_label(ws, SUB_LABEL@), DEV_LABEL@),
                CLIENT_LABEL@,
            ),
            label,
        )
    } else {
        without_label(ws, label)
    }
}

/// One of the labels that go when the main window closes.
pub open spec fn in_cascade(label: Seq<char>) -> bool {
    label == MAIN_LABEL@ || label == SUB_LABEL@ || label == DEV_LABEL@ || label == CLIENT_LABEL@
}

/// The four labels of the cascade differ from one another.
pub proof fn lemma_cascade_labels_differ()
    ensures
        MAIN_LABEL@ != SUB_LABEL@,
        MAIN_LABEL@ != DEV_LABEL@,
        MAIN_LABEL@ != CLIENT_LABEL@,
        SUB_LABEL@ != DEV_LABEL@,
        SUB_LABEL@ != CLIENT_LABEL@,
        DEV_LABEL@ != CLIENT_LABEL@,
{
    reveal_strlit("TeyvatGuide");
    reveal_strlit("Sub_window");
    reveal_strlit("Dev_JSON");
    reveal_strlit("mhy_client");
    assert(MAIN_LABEL@.len() == 11);
    assert(SUB_LABEL@.len() == 10);
    assert(DEV_LABEL@.len() == 8);
    assert(CLIENT_LABEL@.len() == 10);
    assert(SUB_LABEL@[0] == 'S');
    assert(CLIENT_LABEL@[0] == 'm');
}

/// Closing the main window is complete: afterwards neither it nor any of
/// its dependents is open, whichever of them were open before, and every
/// other window is open as before. The windows to close are the open ones
/// among the dependents, and the main window comes last.
pub proof fn lemma_cascade_complete(ws: Seq<WindowView>)
    requires
        distinct_labels(ws),
    ensures
        distinct_labels(after_close(ws, MAIN_LABEL@)),
        forall|l: Seq<char>| in_cascade(l) ==> !has_label(after_close(ws, MAIN_LABEL@), l),
        forall|l: Seq<char>|
            !in_cascade(l) ==> has_label(after_close(ws, MAIN_LABEL@), l) == has_label(ws, l),
        forall|l: Seq<char>|
            !in_cascade(l) && has_label(ws, l) ==> after_close(ws, MAIN_LABEL@)[index_of(
                after_close(ws, MAIN_LABEL@),
                l,
            )] == ws[index_of(ws, l)],
        close_order(ws, MAIN_LABEL@).last() == MAIN_LABEL@,
        forall|l: Seq<char>|
            l == SUB_LABEL@ || l == DEV_LABEL@ || l == CLIENT_LABEL@ ==> close_order(
                ws,
                MAIN_LABEL@,
            ).contains(l) == has_label(ws, l),
{
    lemma_cascade_labels_differ();
    let a = without_label(ws, SUB_LABEL@);
    let b = without_label(a, DEV_LABEL@);
    let c = without_label(b, CLIENT_LABEL@);
    let d = without_label(c, MAIN_LABEL@);
    lemma_without_label(ws, SUB_LABEL@);
    lemma_without_label(a, DEV_LABEL@);
    lemma_without_label(b, CLIENT_LABEL@);
    lemma_without_label(c, MAIN_LABEL@);
    assert(d == after_close(ws, MAIN_LABEL@));
    let order = close_order(ws, MAIN_LABEL@);
    let deps = present(ws, SUB_LABEL@) + present(ws, DEV_LABEL@) + present(ws, CLIENT_LABEL@);
    assert(order == deps + seq![MAIN_LABEL@]);
    assert(order[order.len() - 1] == MAIN_LABEL@);
    assert forall|l: Seq<char>|
        l == SUB_LABEL@ || l == DEV_LABEL@ || l == CLIENT_LABEL@ implies order.contains(l)
        == has_label(ws, l) by {
        let s = present(ws, SUB_LABEL@);
        let v = present(ws, DEV_LABEL@);
        let m = present(ws, CLIENT_LABEL@);
        if has_label(ws, l) {
            let k: int = if l == SUB_LABEL@ {
                0
            } else if l == DEV_LABEL@ {
                s.len() as int
            } else {
                (s.len() + v.len()) as int
            };
            assert(order[k] == l);
        }
        if order.contains(l) {
            let k = choose|k: int| 0 <= k < order.len() && order[k] == l;
            assert(order[k] == l);
            if !has_label(ws, l) {
                if k < s.len() {
                    assert(order[k] == SUB_LABEL@);
                } else if k < s.len() + v.len() {
                    assert(order[k] == DEV_LABEL@);
                } else if k < s.len() + v.len() + m.len() {
                    assert(order[k] == CLIENT_LABEL@);
                } else {
                    assert(order[k] == MAIN_LABEL@);
                }
            }
        }
    }
}

/// Takes the window under `label` out of the record, and notes the label
/// for closing where a window was open under it.
fn close_if_open(windows: &mut WindowRegistry, label: &str, close: &mut Vec<String>)
    ensures
        final(windows)@ == without_label(old(windows)@, label@),
        label_views(final(close)@) == label_views(old(close)@) + present(old(windows)@, label@),
{
    let ghost noted = label_views(close@);
    if windows.remove(label).is_some() {
        close.push(label.to_owned());
        assert(label_views(close@) =~= noted + seq![label@]);
    } else {
        assert(label_views(close@) =~= noted + Seq::<Seq<char>>::empty());
    }
}

/// Takes a request to close the window under `label`.
///
/// What the system would do by itself is always suppressed. For the main
/// window the dependents that are open are closed first, in their fixed
/// order; one that is not open is passed over. The window itself is closed
/// last, whether or not it is on record.
pub fn close_requested(handle: &mut AppContext, label: &str) -> (plan: ClosePlan)
    ensures
        plan.prevent_default,
        label_views(plan.close@) == close_order(old(handle).windows@, label@),
        final(handle).windows@ == after_close(old(handle).windows@, label@),
        final(handle).gate == old(handle).gate,
        final(handle).client_base == old(handle).client_base,
{
    let ghost before = handle.windows@;
    let mut close: Vec<String> = Vec::new();
    assert(label_views(close@) =~= Seq::<Seq<char>>::empty());
    if text_eq(label, MAIN_LABEL) {
        proof {
            use_type_invariant(&handle.windows);
            lemma_cascade_labels_differ();
            let a = without_label(before, SUB_LABEL@);
            let b = without_label(a, DEV_LABEL@);
            lemma_without_label(before, SUB_LABEL@);
            lemma_without_label(a, DEV_LABEL@);
        }
        close_if_open(&mut handle.windows, SUB_LABEL, &mut close);
        close_if_open(&mut handle.windows, DEV_LABEL, &mut close);
        close_if_open(&mut handle.windows, CLIENT_LABEL, &mut close);
    }
    let ghost noted = label_views(close@);
    handle.windows.remove(label);
    close.push(label.to_owned());
    assert(label_views(close@) =~= noted + seq![label@]);
    ClosePlan { prevent_default: true, close }
}

} // verus!
