//! The panes of the main window: which panes there are and which one has
//! the focus. There is always at least one pane, and the focus is on one of
//! them.
use vstd::prelude::*;

verus! {

/// The panes, by their ids in the order they were opened, and the focused
/// one.
pub struct PanesView {
    pub panes: Seq<u64>,
    pub focused: u64,
}

/// True for the states the panes keep: at least one pane, each once, and the
/// focus on one of them.
pub open spec fn panes_wf(v: PanesView) -> bool {
    &&& v.panes.len() >= 1
    &&& v.panes.contains(v.focused)
    &&& v.panes.no_duplicates()
}

/// The panes of the window.
pub struct Panes {
    panes: Vec<u64>,
    focused: u64,
}

impl View for Panes {
    type V = PanesView;

    closed spec fn view(&self) -> PanesView {
        PanesView { panes: self.panes@, focused: self.focused }
    }
}

/// The position of `pane` among `panes`, if it is there.
fn position(panes: &Vec<u64>, pane: u64) -> (r: Option<usize>)
    ensures
        match r {
            Some(i) => i < panes@.len() && panes@[i as int] == pane,
            None => !panes@.contains(pane),
        },
{
    let mut i: usize = 0;
    while i < panes.len()
        invariant
            i <= panes.len(),
            forall|j: int| 0 <= j < i ==> panes@[j] != pane,
        decreases panes.len() - i,
    {
        if panes[i] == pane {
            return Some(i);
        }
        i = i + 1;
    }
    None
}

impl Panes {
    /// One pane, with the focus.
    pub fn new(first: u64) -> (r: Self)
        ensures
            r@ == (PanesView { panes: seq![first], focused: first }),
            panes_wf(r@),
    {
        let mut panes: Vec<u64> = Vec::new();
        panes.push(first);
        let r = Panes { panes, focused: first };
        assert(r@.panes =~= seq![first]);
        assert(r@.panes[0] == first);
        assert(r@.panes.contains(first));
        r
    }

    /// The focused pane.
    pub fn focused(&self) -> (r: u64)
        ensures
            r == self@.focused,
    {
        self.focused
    }

    /// The panes, in the order they were opened.
    pub fn panes(&self) -> (r: &Vec<u64>)
        ensures
            r@ == self@.panes,
    {
        &self.panes
    }

    /// Closes `pane`, unless it is the last pane or not there; when it had
    /// the focus, the focus moves to the first pane left. Returns whether it
    /// was closed.
    pub fn close(&mut self, pane: u64) -> (r: bool)
        requires
            panes_wf(old(self)@),
        ensures
            panes_wf(final(self)@),
            r == (old(self)@.panes.len() > 1 && old(self)@.panes.contains(pane)),
            r ==> final(self)@.panes == old(self)@.panes.remove(old(self)@.panes.index_of(pane)),
            r ==> final(self)@.focused == (if old(self)@.focused == pane { final(self)@.panes[0] } else { old(self)@.focused }),
            !r ==> final(self)@ == old(self)@,
    {
        if self.panes.len() <= 1 {
            return false;
        }
        match position(&self.panes, pane) {
            None => false,
            Some(i) => {
                let ghost before = self.panes@;
                proof {
                    before.index_of_first_ensures(pane);
                    assert(before.index_of(pane) == i) by {
                        assert(before.no_duplicates());
                        let k = before.index_of(pane);
                        assert(before[k] == pane);
                    }
                }
                self.panes.remove(i);
                proof {
                    let after = self.panes@;
                    assert(after == before.remove(i as int));
                    assert forall|a: int, b: int| 0 <= a < after.len() && 0 <= b < after.len() && a != b
                        implies after[a] != after[b] by {
                        let aa = if a < i { a } else { a + 1 };
                        let bb = if b < i { b } else { b + 1 };
                        assert(after[a] == before[aa] && after[b] == before[bb]);
                    }
                    if self.focused != pane {
                        let k = choose|k: int| 0 <= k < before.len() && before[k] == self.focused;
                        assert(k != i);
                        let kk = if k < i { k } else { k - 1 };
                        assert(after[kk] == self.focused);
                    }
                    assert(after[0] == after[0]);
                }
                if self.focused == pane {
                    self.focused = self.panes[0];
                }
                true
            },
        }
    }

    /// The user clicked into `pane`: it gets the focus.
    pub fn click(&mut self, pane: u64)
        requires
            panes_wf(old(self)@),
            old(self)@.panes.contains(pane),
        ensures
            panes_wf(final(self)@),
            final(self)@ == (PanesView { focused: pane, ..old(self)@ }),
    {
        self.focused = pane;
    }

    /// A pane was split off: the new pane `pane` is added; the focus stays.
    pub fn split(&mut self, pane: u64)
        requires
            panes_wf(old(self)@),
            !old(self)@.panes.contains(pane),
        ensures
            panes_wf(final(self)@),
            final(self)@ == (PanesView { panes: old(self)@.panes.push(pane), ..old(self)@ }),
    {
        let ghost before = self.panes@;
        self.panes.push(pane);
        proof {
            let after = self.panes@;
            assert(after[before.len() as int] == pane);
            let k = choose|k: int| 0 <= k < before.len() && before[k] == self.focused;
            assert(after[k] == self.focused);
        }
    }

    /// A pane was dragged: the focus goes to the first pane.
    pub fn dragged(&mut self)
        requires
            panes_wf(old(self)@),
        ensures
            panes_wf(final(self)@),
            final(self)@ == (PanesView { focused: old(self)@.panes[0], ..old(self)@ }),
    {
        self.focused = self.panes[0];
        proof { assert(self@.panes[0] == self.focused); }
    }
}

} // verus!
