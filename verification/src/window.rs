//! The framework's window registry, modelled as plain data: each live window
//! carries the label it is registered under and its displayed title.

use vstd::prelude::*;

verus! {

/// One live window of the application, identified by its label and carrying
/// the title it currently displays.
#[derive(Debug, Clone)]
pub struct Window {
    pub label: String,
    pub title: String,
}

/// The window registry: the framework's lookup facility mapping a window
/// label to its live window, if one exists. Lookups return the first window
/// carrying the requested label.
#[derive(Debug, Clone)]
pub struct WindowRegistry {
    pub windows: Vec<Window>,
}

/// Failure of the framework's title-set operation.
#[derive(Debug)]
pub struct TitleSetError;

/// Some window in `ws` carries `label`.
pub open spec fn has_window(ws: Seq<Window>, label: Seq<char>) -> bool {
    exists|i: int| 0 <= i < ws.len() && #[trigger] ws[i].label@ == label
}

/// `i` is the index of the first window in `ws` carrying `label`.
pub open spec fn is_first_match(ws: Seq<Window>, label: Seq<char>, i: int) -> bool {
    &&& 0 <= i < ws.len()
    &&& ws[i].label@ == label
    &&& forall|j: int| 0 <= j < i ==> #[trigger] ws[j].label@ != label
}

/// At most one index is the first match for a given label.
pub proof fn lemma_first_match_unique(ws: Seq<Window>, label: Seq<char>, i: int, k: int)
    requires
        is_first_match(ws, label, i),
        is_first_match(ws, label, k),
    ensures
        i == k,
{
    if i < k {
        assert(ws[i].label@ != label);
    }
    if k < i {
        assert(ws[k].label@ != label);
    }
}

impl WindowRegistry {
    /// A registry with no windows.
    pub fn new() -> (r: WindowRegistry)
        ensures
            r.windows@.len() == 0,
    {
        WindowRegistry { windows: Vec::new() }
    }

    /// Looks a window up by label: the index of the first window carrying
    /// `label`, or `None` when no window does.
    pub fn find_window(&self, label: &str) -> (r: Option<usize>)
        ensures
            match r {
                Some(i) => is_first_match(self.windows@, label@, i as int),
                None => !has_window(self.windows@, label@),
            },
    {
        let target: String = label.to_owned();
        let n: usize = self.windows.len();
        let mut i: usize = 0;
        while i < n
            invariant
                n == self.windows@.len(),
                0 <= i <= n,
                target@ == label@,
                forall|j: int| 0 <= j < i ==> #[trigger] self.windows@[j].label@ != label@,
            decreases n - i,
        {
            if self.windows[i].label == target {
                return Some(i);
            }
            i = i + 1;
        }
        None
    }

    /// Sets the title of the window at index `i`, through the framework's
    /// title-set operation. That operation can fail; `fault` injects such a
    /// failure, on which the registry is left unchanged and the error is
    /// handed back to the caller to deal with.
    pub fn set_title(&mut self, i: usize, title: &str, fault: bool) -> (r: Result<(), TitleSetError>)
        requires
            i < old(self).windows@.len(),
        ensures
            r is Ok <==> !fault,
            fault ==> final(self).windows@ == old(self).windows@,
            !fault ==> ({
                &&& final(self).windows@.len() == old(self).windows@.len()
                &&& forall|j: int|
                    0 <= j < old(self).windows@.len() && j != i ==> final(self).windows@[j]
                        == old(self).windows@[j]
                &&& final(self).windows@[i as int].label@ == old(self).windows@[i as int].label@
                &&& final(self).windows@[i as int].title@ == title@
            }),
    {
        if fault {
            return Err(TitleSetError);
        }
        self.windows[i].title = title.to_owned();
        Ok(())
    }
}

} // verus!
