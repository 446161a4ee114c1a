//! The general properties the library guarantees, stated and proved once,
//! over the same specification functions the public contracts use.

use vstd::prelude::*;
use crate::model::{Page, RepeatState, Route};
use crate::network::next_repeat_spec;
use crate::pagination::{flat_items, total_items};
use crate::state::{current_route_spec, push_route_spec, saved_check_merge, saved_check_prefix};

verus! {

/// Accumulating one more page appends exactly its items at the end: every
/// item already accumulated stays, in order, and the total item count grows
/// by exactly the page's size — nothing is deduplicated or dropped.
pub proof fn lemma_add_page_keeps_items<T>(pages: Seq<Page<T>>, page: Page<T>)
    ensures
        flat_items(pages.push(page)) == flat_items(pages) + page.items@,
        total_items(pages.push(page)) == total_items(pages) + page.items@.len(),
{
    assert(pages.push(page).drop_last() =~= pages);
    assert(pages.push(page).last() == page);
}

/// However many pages have been accumulated, the number of items they hold
/// is the sum of the page sizes.
pub proof fn lemma_flat_items_len<T>(pages: Seq<Page<T>>)
    ensures
        flat_items(pages).len() == total_items(pages),
    decreases pages.len(),
{
    if pages.len() > 0 {
        lemma_flat_items_len(pages.drop_last());
    }
}

/// After a liked-membership merge over pairwise-distinct identifiers, an
/// identifier the check answered is in the liked set exactly when the
/// answer said it is saved.
pub proof fn lemma_saved_check_membership(
    liked: Set<Seq<char>>,
    ids: Seq<Seq<char>>,
    flags: Seq<bool>,
    i: int,
)
    requires
        0 <= i < ids.len(),
        i < flags.len(),
        forall|a: int, b: int| 0 <= a < b < ids.len() ==> ids[a] != ids[b],
    ensures
        saved_check_merge(liked, ids, flags).contains(ids[i]) == flags[i],
{
    lemma_saved_check_prefix_membership(liked, ids, flags, ids.len() as int, i);
}

/// Helper for [`lemma_saved_check_membership`]: the same, for the merge of
/// the first `n` identifiers.
proof fn lemma_saved_check_prefix_membership(
    liked: Set<Seq<char>>,
    ids: Seq<Seq<char>>,
    flags: Seq<bool>,
    n: int,
    i: int,
)
    requires
        0 <= i < n <= ids.len(),
        i < flags.len(),
        forall|a: int, b: int| 0 <= a < b < ids.len() ==> ids[a] != ids[b],
    ensures
        saved_check_prefix(liked, ids, flags, n).contains(ids[i]) == flags[i],
    decreases n,
{
    if n - 1 > i {
        lemma_saved_check_prefix_membership(liked, ids, flags, n - 1, i);
        assert(ids[i] != ids[n - 1]);
    }
}

/// A liked-membership merge touches no identifier outside the checked list:
/// anything else is in the liked set afterwards exactly when it was before.
pub proof fn lemma_saved_check_untouched(
    liked: Set<Seq<char>>,
    ids: Seq<Seq<char>>,
    flags: Seq<bool>,
    x: Seq<char>,
)
    requires
        forall|j: int| 0 <= j < ids.len() ==> ids[j] != x,
    ensures
        saved_check_merge(liked, ids, flags).contains(x) == liked.contains(x),
{
    lemma_saved_check_prefix_untouched(liked, ids, flags, ids.len() as int, x);
}

/// Helper for [`lemma_saved_check_untouched`], over a prefix of the list.
proof fn lemma_saved_check_prefix_untouched(
    liked: Set<Seq<char>>,
    ids: Seq<Seq<char>>,
    flags: Seq<bool>,
    n: int,
    x: Seq<char>,
)
    requires
        n <= ids.len(),
        forall|j: int| 0 <= j < ids.len() ==> ids[j] != x,
    ensures
        saved_check_prefix(liked, ids, flags, n).contains(x) == liked.contains(x),
    decreases n,
{
    if n > 0 {
        lemma_saved_check_prefix_untouched(liked, ids, flags, n - 1, x);
    }
}

/// A navigation push is a no-op when the shown route already is the target
/// route, and otherwise appends exactly one entry.
pub proof fn lemma_push_route_idempotent(routes: Seq<Route>, r: Route)
    ensures
        current_route_spec(routes).id == r.id ==> push_route_spec(routes, r) == routes,
        current_route_spec(routes).id != r.id ==> push_route_spec(routes, r) == routes.push(r)
            && push_route_spec(routes, r).len() == routes.len() + 1,
{
}

/// The repeat rotation steps off to context, context to track, track back
/// to off, and three steps return every state to itself.
pub proof fn lemma_repeat_rotation()
    ensures
        next_repeat_spec(RepeatState::Off) == RepeatState::Context,
        next_repeat_spec(RepeatState::Context) == RepeatState::Track,
        next_repeat_spec(RepeatState::Track) == RepeatState::Off,
        forall|r: RepeatState|
            next_repeat_spec(next_repeat_spec(next_repeat_spec(r))) == r,
{
    assert forall|r: RepeatState|
        next_repeat_spec(next_repeat_spec(next_repeat_spec(r))) == r by {
        match r {
            RepeatState::Off => {},
            RepeatState::Context => {},
            RepeatState::Track => {},
        }
    }
}

} // verus!
