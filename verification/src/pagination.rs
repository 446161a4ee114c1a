//! Accumulation of multi-page result sets. Pages arrive one at a time and are
//! appended in arrival order; nothing is deduplicated or dropped — callers are
//! responsible for not re-requesting a page they already hold.

use vstd::prelude::*;
use crate::model::Page;

verus! {

/// A paginated collection as the shared state tracks it: the pages fetched so
/// far, in arrival order, and the index of the page currently shown.
#[derive(Debug, PartialEq, Eq)]
pub struct ScrollableResultPages<T> {
    pub index: usize,
    pub pages: Vec<T>,
}

impl<T> ScrollableResultPages<T> {
    /// The shown index stays inside the page list (and is zero while the
    /// list is empty).
    pub open spec fn wf(self) -> bool {
        if self.pages@.len() == 0 {
            self.index == 0
        } else {
            self.index < self.pages@.len()
        }
    }

    /// An empty collection, holding no pages.
    pub fn new() -> (r: Self)
        ensures
            r.pages@ == Seq::<T>::empty(),
            r.index == 0,
            r.wf(),
    {
        ScrollableResultPages { index: 0, pages: Vec::new() }
    }

    /// Appends one page at the end, preserving everything already
    /// accumulated, and shows the new page.
    pub fn add_page(&mut self, page: T)
        requires
            old(self).wf(),
        ensures
            final(self).pages@ == old(self).pages@.push(page),
            final(self).index == old(self).pages@.len(),
            final(self).wf(),
    {
        self.pages.push(page);
        self.index = self.pages.len() - 1;
    }

    /// The page at `at_index`, or at the shown index when `at_index` is
    /// absent; `None` exactly when that position is out of range.
    pub fn get_results(&self, at_index: Option<usize>) -> (r: Option<&T>)
        ensures
            match r {
                Option::Some(p) => {
                    let k = (if at_index is Some { at_index->0 } else { self.index }) as int;
                    &&& 0 <= k < self.pages@.len()
                    &&& *p == self.pages@[k]
                },
                Option::None => {
                    let k = (if at_index is Some { at_index->0 } else { self.index }) as int;
                    k >= self.pages@.len()
                },
            },
    {
        let k = match at_index {
            Option::Some(i) => i,
            Option::None => self.index,
        };
        if k < self.pages.len() {
            Option::Some(&self.pages[k])
        } else {
            Option::None
        }
    }

    /// Mutable access to the page at `at_index`, or at the shown index when
    /// `at_index` is absent; `None` exactly when that position is out of
    /// range, and then nothing changes.
    pub fn get_mut_results(&mut self, at_index: Option<usize>) -> (r: Option<&mut T>)
        ensures
            match r {
                Option::Some(p) => {
                    let k = (if at_index is Some { at_index->0 } else { old(self).index }) as int;
                    &&& 0 <= k < old(self).pages@.len()
                    &&& *p == old(self).pages@[k]
                    &&& final(self).pages@ == old(self).pages@.update(k, *final(p))
                    &&& final(self).index == old(self).index
                },
                Option::None => {
                    let k = (if at_index is Some { at_index->0 } else { old(self).index }) as int;
                    &&& k >= old(self).pages@.len()
                    &&& *final(self) == *old(self)
                },
            },
    {
        let k = match at_index {
            Option::Some(i) => i,
            Option::None => self.index,
        };
        if k < self.pages.len() {
            Option::Some(&mut self.pages[k])
        } else {
            Option::None
        }
    }
}

/// All items a sequence of pages holds, in arrival order.
pub open spec fn flat_items<T>(pages: Seq<Page<T>>) -> Seq<T>
    decreases pages.len(),
{
    if pages.len() == 0 {
        Seq::empty()
    } else {
        flat_items(pages.drop_last()) + pages.last().items@
    }
}

/// The sum of the page sizes of a sequence of pages.
pub open spec fn total_items<T>(pages: Seq<Page<T>>) -> nat
    decreases pages.len(),
{
    if pages.len() == 0 {
        0
    } else {
        total_items(pages.drop_last()) + pages.last().items@.len()
    }
}

} // verus!
