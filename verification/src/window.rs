//! The window opener's decision: focus the window that already carries a
//! label, or have one created.
//!
//! The registry mirrors the set of window labels the shell has built. The
//! shell owns the windows themselves; it asks here what to do with a label
//! and then either focuses the existing window or creates one at the default
//! size and records nothing further — the registry is updated in the same
//! step.

use vstd::prelude::*;

use crate::text::bytes_eq;

verus! {

/// Logical width of a newly created window.
pub const WINDOW_WIDTH: u32 = 1200;

/// Logical height of a newly created window.
pub const WINDOW_HEIGHT: u32 = 800;

/// What the shell must do with the label it asked about.
#[derive(Clone, Copy, PartialEq, Eq, Structural, Debug)]
pub enum WindowAction {
    /// A window with this label exists: bring it to focus.
    FocusExisting,
    /// No window with this label exists: create one with the requested title
    /// and URL at the default size.
    CreateNew,
}

/// A label is known to the registry.
pub open spec fn spec_has_label(labels: Seq<Seq<u8>>, label: Seq<u8>) -> bool {
    exists|i: int| 0 <= i < labels.len() && labels[i] == label
}

/// The registry after one open request: unchanged for a known label, extended
/// by the label otherwise.
pub open spec fn open_labels(labels: Seq<Seq<u8>>, label: Seq<u8>) -> Seq<Seq<u8>> {
    if spec_has_label(labels, label) {
        labels
    } else {
        labels.push(label)
    }
}

/// The action one open request decides on.
pub open spec fn open_action(labels: Seq<Seq<u8>>, label: Seq<u8>) -> WindowAction {
    if spec_has_label(labels, label) {
        WindowAction::FocusExisting
    } else {
        WindowAction::CreateNew
    }
}

/// One label per window the shell has built, in creation order.
pub struct WindowRegistry {
    pub labels: Vec<Vec<u8>>,
}

impl WindowRegistry {
    /// The registered labels.
    pub open spec fn labels_view(self) -> Seq<Seq<u8>> {
        self.labels@.map_values(|l: Vec<u8>| l@)
    }

    /// A registry of no windows.
    pub fn new() -> (r: WindowRegistry)
        ensures
            r.labels_view() == Seq::<Seq<u8>>::empty(),
    {
        let r = WindowRegistry { labels: Vec::new() };
        proof {
            assert(r.labels_view() =~= Seq::<Seq<u8>>::empty());
        }
        r
    }

    /// One open request: a known label keeps the registry as it is and gets
    /// the existing window focused; an unknown one is recorded and gets a
    /// window created.
    pub fn open(&mut self, label: Vec<u8>) -> (r: WindowAction)
        ensures
            r == open_action(old(self).labels_view(), label@),
            final(self).labels_view() == open_labels(old(self).labels_view(), label@),
            spec_has_label(final(self).labels_view(), label@),
    {
        let mut i: usize = 0;
        let n = self.labels.len();
        while i < n
            invariant
                n == self.labels@.len(),
                i <= n,
                forall|k: int| 0 <= k < i ==> self.labels@[k]@ != label@,
            decreases n - i,
        {
            if bytes_eq(&self.labels[i], &label) {
                proof {
                    assert(self.labels_view()[i as int] == label@);
                }
                return WindowAction::FocusExisting;
            }
            i += 1;
        }
        proof {
            assert(forall|k: int|
                0 <= k < self.labels_view().len() ==> self.labels_view()[k] == self.labels@[k]@);
            assert(!spec_has_label(self.labels_view(), label@));
        }
        let ghost before = self.labels_view();
        self.labels.push(label);
        proof {
            let last = self.labels@.len() - 1;
            assert(self.labels_view() =~= before.push(self.labels@[last]@));
            assert(self.labels_view()[last] == self.labels@[last]@);
        }
        WindowAction::CreateNew
    }
}

/// Law: opening the same label twice creates at most one window. After the
/// first open the label is registered, so the second open focuses the
/// existing window and adds no registry entry, whatever the registry held
/// before.
pub proof fn lemma_open_twice(labels: Seq<Seq<u8>>, label: Seq<u8>)
    ensures
        ({
            let once = open_labels(labels, label);
            &&& open_action(once, label) == WindowAction::FocusExisting
            &&& open_labels(once, label) == once
            &&& !spec_has_label(labels, label) ==> open_action(labels, label)
                == WindowAction::CreateNew
        }),
{
    let once = open_labels(labels, label);
    if !spec_has_label(labels, label) {
        assert(once[labels.len() as int] == label);
        assert(spec_has_label(once, label));
    }
}

} // verus!
