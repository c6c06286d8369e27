//! First-match lookup by id over items in wire order, the one lookup rule every list of
//! identifiable items in this crate follows, with what appending an item does to it.
use crate::artefact::IdentifiableArtefact;
use crate::ident::str_eq;
use vstd::prelude::*;

verus! {

/// The index of the first item at or after `i` whose effective id is `id`, or the length
/// when there is none.
pub open spec fn first_id_index<T: IdentifiableArtefact>(items: Seq<T>, id: Seq<char>, i: int) -> int
    decreases items.len() - i,
{
    if i < 0 || i >= items.len() || items[i].spec_id() == id {
        i
    } else {
        first_id_index(items, id, i + 1)
    }
}

/// The first item whose id is `id`, if any.
pub open spec fn first_with_id<T: IdentifiableArtefact>(items: Seq<T>, id: Seq<char>) -> Option<T> {
    let i = first_id_index(items, id, 0);
    if i < items.len() {
        Some(items[i])
    } else {
        None
    }
}

/// `first_id_index` from `i` lies in `[i, len]`, no item before it has `id`, and the item at
/// it (when it is not the length) has `id`.
pub proof fn lemma_first_id_index<T: IdentifiableArtefact>(items: Seq<T>, id: Seq<char>, i: int)
    requires
        0 <= i <= items.len(),
    ensures
        i <= first_id_index(items, id, i) <= items.len(),
        forall|k: int|
            i <= k < first_id_index(items, id, i) ==> (#[trigger] items[k]).spec_id() != id,
        first_id_index(items, id, i) < items.len() ==> items[first_id_index(
            items,
            id,
            i,
        )].spec_id() == id,
    decreases items.len() - i,
{
    if i < items.len() && items[i].spec_id() != id {
        lemma_first_id_index(items, id, i + 1);
    }
}

/// Appending an item leaves the first match unchanged when there already was one; otherwise
/// the first match is the appended item exactly when its id is `id`.
pub proof fn lemma_first_with_id_push<T: IdentifiableArtefact>(items: Seq<T>, x: T, id: Seq<char>)
    ensures
        first_with_id(items.push(x), id) == (match first_with_id(items, id) {
            Some(y) => Some(y),
            None => if x.spec_id() == id {
                Some(x)
            } else {
                None
            },
        }),
{
    lemma_first_id_index(items, id, 0);
    lemma_first_id_index(items.push(x), id, 0);
    let i = first_id_index(items, id, 0);
    let j = first_id_index(items.push(x), id, 0);
    if i < items.len() {
        assert(items.push(x)[i] == items[i]);
    } else {
        assert(items.push(x)[items.len() as int] == x);
    }
    if j < i {
        assert(items.push(x)[j] == items[j]);
    }
}

/// The first item of `items` whose effective id is `id`, in order.
pub fn find_by_id<'a, T: IdentifiableArtefact>(items: &'a [T], id: &str) -> (r: Option<&'a T>)
    ensures
        match r {
            Some(x) => first_with_id(items@, id@) == Some(*x),
            None => first_with_id(items@, id@) is None,
        },
{
    proof {
        lemma_first_id_index(items@, id@, 0);
    }
    let mut i: usize = 0;
    while i < items.len()
        invariant
            i <= items@.len(),
            first_id_index(items@, id@, 0) == first_id_index(items@, id@, i as int),
        decreases items@.len() - i,
    {
        if str_eq(items[i].id(), id) {
            return Some(&items[i]);
        }
        i = i + 1;
    }
    None
}

} // verus!
