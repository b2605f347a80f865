use vstd::prelude::*;

use crate::repository::{created, deleted, lists, merged, updated};
use crate::task::TaskView;

verus! {

/// After a task is created, any full listing of the store holds exactly one
/// task with its identifier, and that task carries the given title and
/// content; no task held before had that identifier.
pub proof fn listing_after_create(
    before: Map<u128, TaskView>,
    after: Map<u128, TaskView>,
    t: TaskView,
    title: Seq<char>,
    content: Seq<char>,
    listing: Seq<TaskView>,
)
    requires
        created(before, after, t, title, content),
        lists(listing, after),
    ensures
        exists|i: int|
            0 <= i < listing.len() && #[trigger] listing[i] == t && listing[i].title == title
                && listing[i].content == content,
        forall|i: int, j: int|
            0 <= i < listing.len() && 0 <= j < listing.len() && #[trigger] listing[i].id == t.id
                && #[trigger] listing[j].id == t.id ==> i == j,
        forall|k: u128| #[trigger] before.contains_key(k) ==> k != t.id,
{
    assert(after.contains_key(t.id));
    let i = choose|i: int| 0 <= i < listing.len() && #[trigger] listing[i].id == t.id;
    assert(listing[i] == t);
    assert forall|a: int, b: int|
        0 <= a < listing.len() && 0 <= b < listing.len() && #[trigger] listing[a].id == t.id
            && #[trigger] listing[b].id == t.id implies a == b by {
        if a < b {
            assert(listing[a].id != listing[b].id);
        } else if b < a {
            assert(listing[b].id != listing[a].id);
        }
    }
}

/// An update that supplies only a title replaces the title and keeps the
/// content; an update that supplies nothing leaves the task and the store as
/// they were.
pub proof fn partial_update(
    before: Map<u128, TaskView>,
    after: Map<u128, TaskView>,
    id: u128,
    title: Option<Seq<char>>,
    content: Option<Seq<char>>,
    t: TaskView,
)
    requires
        updated(before, after, id, title, content, t),
    ensures
        title matches Some(s) ==> t.title == s,
        title is None ==> t.title == before[id].title,
        content matches Some(s) ==> t.content == s,
        content is None ==> t.content == before[id].content,
        title is None && content is None ==> t == before[id] && after == before,
{
    if title is None && content is None {
        assert(t == before[id]);
        assert(after =~= before);
    }
}

/// After a task is deleted, no full listing of the store holds its identifier.
pub proof fn deleted_task_not_listed(
    before: Map<u128, TaskView>,
    after: Map<u128, TaskView>,
    id: u128,
    t: TaskView,
    listing: Seq<TaskView>,
)
    requires
        deleted(before, after, id, t),
        lists(listing, after),
    ensures
        forall|i: int| 0 <= i < listing.len() ==> #[trigger] listing[i].id != id,
{
    assert forall|i: int| 0 <= i < listing.len() implies #[trigger] listing[i].id != id by {
        assert(after.contains_key(listing[i].id));
    }
}

/// The creation time that a task gets when it is created is the one it still
/// has after a later update, and so is its identifier.
pub proof fn created_at_survives_update(
    m0: Map<u128, TaskView>,
    m1: Map<u128, TaskView>,
    m2: Map<u128, TaskView>,
    t: TaskView,
    title: Seq<char>,
    content: Seq<char>,
    new_title: Option<Seq<char>>,
    new_content: Option<Seq<char>>,
    u: TaskView,
)
    requires
        created(m0, m1, t, title, content),
        updated(m1, m2, t.id, new_title, new_content, u),
    ensures
        u.created_at == t.created_at,
        u.id == t.id,
        m2[t.id].created_at == t.created_at,
{
    assert(m1[t.id] == t);
    assert(u == merged(t, new_title, new_content));
}

/// However many updates of a task follow its creation, each hands back the
/// task with the identifier and creation time it was created with, and the
/// store keeps that creation time. `stores[0]` is the store right after the
/// creation, and update `i` takes `stores[i]` to `stores[i + 1]`.
pub proof fn created_at_survives_updates(
    stores: Seq<Map<u128, TaskView>>,
    t: TaskView,
    titles: Seq<Option<Seq<char>>>,
    contents: Seq<Option<Seq<char>>>,
    results: Seq<TaskView>,
)
    requires
        stores.len() == results.len() + 1,
        titles.len() == results.len(),
        contents.len() == results.len(),
        stores[0].contains_key(t.id),
        stores[0][t.id] == t,
        forall|i: int|
            0 <= i < results.len() ==> updated(
                #[trigger] stores[i],
                stores[i + 1],
                t.id,
                titles[i],
                contents[i],
                results[i],
            ),
    ensures
        forall|i: int|
            0 <= i < results.len() ==> #[trigger] results[i].created_at == t.created_at && results[i].id
                == t.id,
        stores.last().contains_key(t.id),
        stores.last()[t.id].created_at == t.created_at,
    decreases results.len(),
{
    if results.len() > 0 {
        let n = results.len() - 1;
        assert(updated(stores[n], stores[n + 1], t.id, titles[n], contents[n], results[n]));
        created_at_survives_updates(
            stores.drop_last(),
            t,
            titles.drop_last(),
            contents.drop_last(),
            results.drop_last(),
        );
        assert(stores.drop_last().last() == stores[n]);
        assert forall|i: int| 0 <= i < results.len() implies #[trigger] results[i].created_at
            == t.created_at && results[i].id == t.id by {
            if i < n {
                assert(results.drop_last()[i] == results[i]);
            }
        }
    }
}

/// A full listing of a store that holds a single task is that task alone;
/// so it is after the first creation in an empty store.
pub proof fn listing_of_single_task(listing: Seq<TaskView>, t: TaskView)
    requires
        lists(listing, Map::<u128, TaskView>::empty().insert(t.id, t)),
    ensures
        listing == seq![t],
{
    let m = Map::<u128, TaskView>::empty().insert(t.id, t);
    assert(m.contains_key(t.id));
    let i = choose|i: int| 0 <= i < listing.len() && #[trigger] listing[i].id == t.id;
    assert(m.contains_key(listing[i].id));
    if listing.len() > 1 {
        assert(m.contains_key(listing[0].id));
        assert(m.contains_key(listing[1].id));
        assert(listing[0].id != listing[1].id);
    }
    assert(listing =~= seq![t]);
}

/// A full listing of an empty store is empty.
pub proof fn empty_store_lists_nothing(listing: Seq<TaskView>)
    requires
        lists(listing, Map::<u128, TaskView>::empty()),
    ensures
        listing.len() == 0,
{
    if listing.len() > 0 {
        assert(Map::<u128, TaskView>::empty().contains_key(listing[0].id));
    }
}

} // verus!
