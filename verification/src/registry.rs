//! The table of open windows, keyed by label.
//!
//! The table never holds two windows under one label. Its value is the
//! sequence of its windows in the order in which they were opened.

use vstd::prelude::*;
use crate::text::text_eq;
use crate::window::{WindowState, WindowView};

verus! {

/// Some window in `ws` carries `label`.
pub open spec fn has_label(ws: Seq<WindowView>, label: Seq<char>) -> bool {
    exists|i: int| 0 <= i < ws.len() && (#[trigger] ws[i]).label == label
}

/// The place of a window that carries `label`, where there is one.
pub open spec fn index_of(ws: Seq<WindowView>, label: Seq<char>) -> int {
    choose|i: int| 0 <= i < ws.len() && (#[trigger] ws[i]).label == label
}

/// No two windows of `ws` share a label.
pub open spec fn distinct_labels(ws: Seq<WindowView>) -> bool {
    forall|i: int, j: int|
        0 <= i < j < ws.len() ==> (#[trigger] ws[i]).label != (#[trigger] ws[j]).label
}

/// How many windows of `ws` carry `label`.
pub open spec fn count_label(ws: Seq<WindowView>, label: Seq<char>) -> nat
    decreases ws.len(),
{
    if ws.len() == 0 {
        0
    } else {
        count_label(ws.drop_last(), label) + if ws.last().label == label {
            1nat
        } else {
            0nat
        }
    }
}

/// `ws` with `w` added at the end, unless its label is taken.
pub open spec fn with_window(ws: Seq<WindowView>, w: WindowView) -> Seq<WindowView> {
    if has_label(ws, w.label) {
        ws
    } else {
        ws.push(w)
    }
}

/// `ws` without the window that carries `label`.
pub open spec fn without_label(ws: Seq<WindowView>, label: Seq<char>) -> Seq<WindowView> {
    if has_label(ws, label) {
        ws.remove(index_of(ws, label))
    } else {
        ws
    }
}

/// `ws` with the always-on-top attribute of the window that carries `label`
/// set to `flag`.
pub open spec fn with_top(ws: Seq<WindowView>, label: Seq<char>, flag: bool) -> Seq<WindowView> {
    if has_label(ws, label) {
        let i = index_of(ws, label);
        ws.update(i, WindowView { always_on_top: flag, ..ws[i] })
    } else {
        ws
    }
}

/// With distinct labels, a window's place is determined by its label.
pub proof fn lemma_index_unique(ws: Seq<WindowView>, i: int)
    requires
        distinct_labels(ws),
        0 <= i < ws.len(),
    ensures
        has_label(ws, ws[i].label),
        index_of(ws, ws[i].label) == i,
{
    let k = index_of(ws, ws[i].label);
    assert(0 <= k < ws.len() && ws[k].label == ws[i].label);
    if k < i {
        assert(ws[k].label != ws[i].label);
    }
    if i < k {
        assert(ws[i].label != ws[k].label);
    }
}

/// With distinct labels, a label occurs once if it occurs at all.
pub proof fn lemma_count_at_most_one(ws: Seq<WindowView>, label: Seq<char>)
    requires
        distinct_labels(ws),
    ensures
        count_label(ws, label) == if has_label(ws, label) { 1nat } else { 0nat },
    decreases ws.len(),
{
    if ws.len() > 0 {
        let front = ws.drop_last();
        let n = ws.len() - 1;
        assert(forall|i: int| 0 <= i < front.len() ==> front[i] == ws[i]);
        lemma_count_at_most_one(front, label);
        if has_label(front, label) {
            let k = index_of(front, label);
            assert(ws[k].label == label);
            assert(ws[k].label != ws[n].label);
        } else if has_label(ws, label) {
            let k = index_of(ws, label);
            if k < n {
                assert(front[k].label == label);
            }
        }
        if ws[n].label == label {
            assert(has_label(ws, label));
        }
    }
}

/// Adding a window under a free label keeps the labels distinct.
pub proof fn lemma_with_window(ws: Seq<WindowView>, w: WindowView)
    requires
        distinct_labels(ws),
    ensures
        distinct_labels(with_window(ws, w)),
        has_label(with_window(ws, w), w.label),
        forall|l: Seq<char>| l != w.label ==> has_label(with_window(ws, w), l) == has_label(ws, l),
{
    let out = with_window(ws, w);
    if !has_label(ws, w.label) {
        assert(out[ws.len() as int].label == w.label);
        assert forall|i: int, j: int| 0 <= i < j < out.len() implies out[i].label
            != out[j].label by {
            if j == ws.len() {
                assert(ws[i].label != w.label);
            } else {
                assert(ws[i].label != ws[j].label);
            }
        }
    }
    assert forall|l: Seq<char>| l != w.label implies has_label(out, l) == has_label(ws, l) by {
        if has_label(ws, l) {
            let k = index_of(ws, l);
            assert(out[k].label == l);
        }
        if has_label(out, l) {
            let k = index_of(out, l);
            assert(ws[k].label == l);
        }
    }
}

/// Taking a label out keeps the others, and keeps the labels distinct.
pub proof fn lemma_without_label(ws: Seq<WindowView>, label: Seq<char>)
    requires
        distinct_labels(ws),
    ensures
        distinct_labels(without_label(ws, label)),
        !has_label(without_label(ws, label), label),
        forall|l: Seq<char>|
            l != label ==> has_label(without_label(ws, label), l) == has_label(ws, l),
        forall|l: Seq<char>|
            l != label && has_label(ws, l) ==> without_label(ws, label)[index_of(
                without_label(ws, label),
                l,
            )] == ws[index_of(ws, l)],
{
    let out = without_label(ws, label);
    if has_label(ws, label) {
        let r = index_of(ws, label);
        assert forall|i: int| 0 <= i < out.len() implies out[i] == ws[if i < r {
            i
        } else {
            i + 1
        }] by {}
        assert forall|i: int, j: int| 0 <= i < j < out.len() implies out[i].label
            != out[j].label by {
            let a = if i < r { i } else { i + 1 };
            let b = if j < r { j } else { j + 1 };
            assert(ws[a].label != ws[b].label);
        }
        if has_label(out, label) {
            let k = index_of(out, label);
            let a = if k < r { k } else { k + 1 };
            assert(ws[a].label == label);
            lemma_index_unique(ws, a);
        }
        assert forall|l: Seq<char>| l != label implies has_label(out, l) == has_label(ws, l) by {
            if has_label(ws, l) {
                let k = index_of(ws, l);
                let a = if k < r { k } else { k - 1 };
                assert(out[a].label == l);
            }
            if has_label(out, l) {
                let k = index_of(out, l);
                let a = if k < r { k } else { k + 1 };
                assert(ws[a].label == l);
            }
        }
        assert forall|l: Seq<char>| l != label && has_label(ws, l) implies out[index_of(out, l)]
            == ws[index_of(ws, l)] by {
            let k = index_of(ws, l);
            let a = if k < r { k } else { k - 1 };
            assert(out[a].label == l);
            let m = index_of(out, l);
            let b = if m < r { m } else { m + 1 };
            assert(ws[b].label == l);
            lemma_index_unique(ws, b);
        }
    } else {
        assert(!has_label(out, label));
    }
}

/// Setting the attribute of one window leaves every label and every other
/// window as it was.
pub proof fn lemma_with_top(ws: Seq<WindowView>, label: Seq<char>, flag: bool)
    requires
        distinct_labels(ws),
    ensures
        distinct_labels(with_top(ws, label, flag)),
        with_top(ws, label, flag).len() == ws.len(),
        forall|i: int|
            0 <= i < ws.len() ==> (#[trigger] with_top(ws, label, flag)[i]).label == ws[i].label,
        forall|i: int|
            0 <= i < ws.len() && ws[i].label != label ==> #[trigger] with_top(ws, label, flag)[i]
                == ws[i],
        forall|l: Seq<char>| has_label(with_top(ws, label, flag), l) == has_label(ws, l),
{
    let out = with_top(ws, label, flag);
    assert(out.len() == ws.len());
    assert forall|i: int| 0 <= i < ws.len() implies (#[trigger] out[i]).label == ws[i].label by {}
    assert forall|i: int, j: int| 0 <= i < j < out.len() implies out[i].label
        != out[j].label by {
        assert(ws[i].label != ws[j].label);
    }
    assert forall|l: Seq<char>| has_label(out, l) == has_label(ws, l) by {
        if has_label(ws, l) {
            let k = index_of(ws, l);
            assert(out[k].label == l);
        }
        if has_label(out, l) {
            let k = index_of(out, l);
            assert(ws[k].label == l);
        }
    }
}

/// The open windows of the shell.
pub struct WindowRegistry {
    windows: Vec<WindowState>,
}

impl View for WindowRegistry {
    type V = Seq<WindowView>;

    closed spec fn view(&self) -> Seq<WindowView> {
        Seq::new(self.windows@.len(), |i: int| self.windows@[i]@)
    }
}

impl WindowRegistry {
    /// What holds of every registry: no label is held twice.
    #[verifier::type_invariant]
    pub open spec fn well_formed(&self) -> bool {
        distinct_labels(self@)
    }

    /// A registry without windows.
    pub fn new() -> (r: WindowRegistry)
        ensures
            r@ == Seq::<WindowView>::empty(),
    {
        let r = WindowRegistry { windows: Vec::new() };
        assert(r@ =~= Seq::<WindowView>::empty());
        r
    }

    /// How many windows are open.
    pub fn len(&self) -> (n: usize)
        ensures
            n == self@.len(),
    {
        self.windows.len()
    }

    /// Hands out the windows and leaves the table empty.
    fn take_windows(&mut self) -> (ws: Vec<WindowState>)
        ensures
            ws == old(self).windows,
            final(self).windows@.len() == 0,
    {
        let mut ws: Vec<WindowState> = Vec::new();
        std::mem::swap(&mut self.windows, &mut ws);
        ws
    }

    fn find(&self, label: &str) -> (r: Option<usize>)
        ensures
            match r {
                Some(i) => i < self@.len() && self@[i as int].label == label@ && i == index_of(
                    self@,
                    label@,
                ) && has_label(self@, label@),
                None => !has_label(self@, label@),
            },
    {
        proof {
            use_type_invariant(self);
        }
        let mut i: usize = 0;
        while i < self.windows.len()
            invariant
                i <= self.windows@.len(),
                distinct_labels(self@),
                forall|k: int| 0 <= k < i ==> (#[trigger] self@[k]).label != label@,
            decreases self.windows.len() - i,
        {
            if text_eq(self.windows[i].label.as_str(), label) {
                proof {
                    lemma_index_unique(self@, i as int);
                }
                return Some(i);
            }
            i += 1;
        }
        None
    }

    /// Whether a window is open under `label`.
    pub fn contains(&self, label: &str) -> (r: bool)
        ensures
            r == has_label(self@, label@),
    {
        self.find(label).is_some()
    }

    /// The window that is open under `label`.
    pub fn get(&self, label: &str) -> (r: Option<&WindowState>)
        ensures
            r.is_some() == has_label(self@, label@),
            r.is_some() ==> r.unwrap()@ == self@[index_of(self@, label@)],
    {
        match self.find(label) {
            Some(i) => Some(&self.windows[i]),
            None => None,
        }
    }

    /// How many windows are open under `label`: never more than one.
    pub fn count(&self, label: &str) -> (n: usize)
        ensures
            n == count_label(self@, label@),
            n == if has_label(self@, label@) { 1nat } else { 0nat },
    {
        proof {
            use_type_invariant(self);
            lemma_count_at_most_one(self@, label@);
        }
        if self.contains(label) {
            1
        } else {
            0
        }
    }

    /// Records `window` unless its label is taken, in one step. Returns
    /// whether it was recorded.
    pub fn create_if_absent(&mut self, window: WindowState) -> (created: bool)
        ensures
            created == !has_label(old(self)@, window@.label),
            final(self)@ == with_window(old(self)@, window@),
    {
        proof {
            use_type_invariant(&*self);
            lemma_with_window(self@, window@);
        }
        if self.find(window.label.as_str()).is_some() {
            return false;
        }
        let ghost before = self@;
        let mut ws = self.take_windows();
        ws.push(window);
        assert(Seq::new(ws@.len(), |i: int| ws@[i]@) =~= before.push(window@));
        self.windows = ws;
        true
    }

    /// Takes the window under `label` out of the table and returns it.
    pub fn remove(&mut self, label: &str) -> (r: Option<WindowState>)
        ensures
            final(self)@ == without_label(old(self)@, label@),
            r.is_some() == has_label(old(self)@, label@),
            r.is_some() ==> r.unwrap()@ == old(self)@[index_of(old(self)@, label@)],
    {
        proof {
            use_type_invariant(&*self);
            lemma_without_label(self@, label@);
        }
        match self.find(label) {
            Some(i) => {
                let ghost before = self@;
                let mut ws = self.take_windows();
                let w = ws.remove(i);
                assert(Seq::new(ws@.len(), |i: int| ws@[i]@) =~= before.remove(i as int));
                self.windows = ws;
                Some(w)
            },
            None => None,
        }
    }

    /// Sets the always-on-top attribute of the window under `label`. Returns
    /// whether there is such a window.
    pub fn set_always_on_top(&mut self, label: &str, flag: bool) -> (found: bool)
        ensures
            found == has_label(old(self)@, label@),
            final(self)@ == with_top(old(self)@, label@, flag),
    {
        proof {
            use_type_invariant(&*self);
            lemma_with_top(self@, label@, flag);
        }
        match self.find(label) {
            Some(i) => {
                let ghost before = self@;
                let mut ws = self.take_windows();
                let mut w = ws[i].duplicate();
                w.always_on_top = flag;
                ws.set(i, w);
                assert(Seq::new(ws@.len(), |i: int| ws@[i]@) =~= before.update(
                    i as int,
                    WindowView { always_on_top: flag, ..before[i as int] },
                ));
                self.windows = ws;
                true
            },
            None => false,
        }
    }
}

} // verus!
