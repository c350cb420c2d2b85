//! Laws of the store model and of the client state machine: properties that
//! relate several operations, stated and proved over the same spec functions
//! the executable contracts use.

use vstd::prelude::*;

use crate::repository::{
    apply_update_model, contains_id, create_model, create_time, delete_model, get_model,
    lemma_delete_model_absent, lemma_get_model_absent, lemma_update_model_absent, new_model,
    store_inv, update_model, update_time,
};
use crate::todo::{CreateModel, TodoModel, UpdateModel};
use crate::ui::{
    filter_indices, lemma_filter_indices_all, lemma_filter_indices_props, next_filter, ui_inv,
    ui_step, AppModel, Filter, Key,
};

verus! {

/// Law: after a creation, `get` on the new id answers exactly the created
/// todo — its title and description are the input's, it is pending, and its
/// two timestamps are equal.
pub proof fn lemma_create_then_get(s: Seq<TodoModel>, input: CreateModel, id: u128, now: u64)
    ensures
        ({
            let m = new_model(input, id, create_time(s, now));
            &&& get_model(create_model(s, m), id) == Some(m)
            &&& m.title == input.title
            &&& m.description == input.description
            &&& m.status is Pending
            &&& m.created_at == m.updated_at
        }),
{
    let m = new_model(input, id, create_time(s, now));
    assert(create_model(s, m)[0] == m);
}

/// Law: an id that no todo bears is reported as absence, never as an error:
/// `get` answers `None`, and `update` and `delete` leave every todo as it
/// was.
pub proof fn lemma_absent_id(s: Seq<TodoModel>, id: u128, u: UpdateModel, now: u64)
    requires
        !contains_id(s, id),
    ensures
        get_model(s, id) is None,
        update_model(s, id, u, now) == s,
        delete_model(s, id) == s,
{
    lemma_get_model_absent(s, id);
    lemma_update_model_absent(s, id, u, now);
    lemma_delete_model_absent(s, id);
}

/// Law: an update whose fields are all absent leaves title, description and
/// status exactly as they were and moves `updated_at` — and nothing else —
/// to the update time.
pub proof fn lemma_empty_update(m: TodoModel, now: u64)
    ensures
        ({
            let u = UpdateModel { title: None, description: None, status: None };
            let m2 = apply_update_model(m, u, now);
            &&& m2.id == m.id
            &&& m2.title == m.title
            &&& m2.description == m.description
            &&& m2.status == m.status
            &&& m2.created_at == m.created_at
            &&& m2.updated_at == update_time(m, now)
        }),
{
}

/// Law: after a deletion, `get` on the same id reports absence.
pub proof fn lemma_delete_then_get(s: Seq<TodoModel>, id: u128)
    requires
        store_inv(s),
    ensures
        get_model(delete_model(s, id), id) is None,
    decreases s.len(),
{
    if s.len() == 0 {
    } else if s[0].id == id {
        assert forall|j: int| 0 <= j < s.drop_first().len() implies s.drop_first()[j].id
            != id by {
            assert(s.drop_first()[j] == s[j + 1]);
        }
        lemma_get_model_absent(s.drop_first(), id);
    } else {
        assert forall|i: int, j: int| 0 <= i < j < s.drop_first().len() implies s.drop_first()[i].id
            != s.drop_first()[j].id && s.drop_first()[i].created_at
            >= s.drop_first()[j].created_at by {
            assert(s.drop_first()[i] == s[i + 1]);
            assert(s.drop_first()[j] == s[j + 1]);
        }
        lemma_delete_then_get(s.drop_first(), id);
        assert((seq![s[0]] + delete_model(s.drop_first(), id)).drop_first() =~= delete_model(
            s.drop_first(),
            id,
        ));
    }
}

/// Law: todos created later stand earlier. After three creations at
/// strictly increasing clock readings, none earlier than what the store
/// already holds, the state lists them newest first, ahead of the rest.
pub proof fn lemma_list_ordering(
    s: Seq<TodoModel>,
    i1: CreateModel,
    i2: CreateModel,
    i3: CreateModel,
    id1: u128,
    id2: u128,
    id3: u128,
    t1: u64,
    t2: u64,
    t3: u64,
)
    requires
        s.len() > 0 ==> t1 >= s[0].created_at,
        t1 < t2,
        t2 < t3,
    ensures
        ({
            let s1 = create_model(s, new_model(i1, id1, create_time(s, t1)));
            let s2 = create_model(s1, new_model(i2, id2, create_time(s1, t2)));
            let s3 = create_model(s2, new_model(i3, id3, create_time(s2, t3)));
            &&& create_time(s, t1) == t1
            &&& create_time(s1, t2) == t2
            &&& create_time(s2, t3) == t3
            &&& s3 == seq![
                new_model(i3, id3, t3),
                new_model(i2, id2, t2),
                new_model(i1, id1, t1),
            ] + s
        }),
{
    let s1 = create_model(s, new_model(i1, id1, create_time(s, t1)));
    let s2 = create_model(s1, new_model(i2, id2, create_time(s1, t2)));
    let s3 = create_model(s2, new_model(i3, id3, create_time(s2, t3)));
    assert(s1[0] == new_model(i1, id1, t1));
    assert(s2[0] == new_model(i2, id2, t2));
    assert(s3 =~= seq![new_model(i3, id3, t3), new_model(i2, id2, t2), new_model(i1, id1, t1)]
        + s);
}

/// Law: the filter cycle has period three: `All -> Pending -> Done -> All`.
pub proof fn lemma_filter_cycle(f: Filter)
    ensures
        next_filter(next_filter(next_filter(f))) == f,
        next_filter(f) != f,
{
}

/// Law: cycling the filter while browsing. One press from `All` shows
/// exactly the pending items; after three presses the client is back at
/// `All` with every item visible, the items untouched throughout.
pub proof fn lemma_filter_cycle_steps(m: AppModel)
    requires
        ui_inv(m),
        m.mode is View,
        m.filter is All,
    ensures
        ({
            let m1 = ui_step(m, Key::Char('f')).0;
            let m2 = ui_step(m1, Key::Char('f')).0;
            let m3 = ui_step(m2, Key::Char('f')).0;
            &&& m1.filter is Pending
            &&& m1.filtered == filter_indices(m.items, Filter::Pending)
            &&& forall|k: int|
                0 <= k < m1.filtered.len() ==> {
                    &&& 0 <= #[trigger] m1.filtered[k] < m.items.len()
                    &&& m.items[m1.filtered[k]].status is Pending
                }
            &&& forall|i: int|
                0 <= i < m.items.len() && m.items[i].status is Pending ==> m1.filtered.contains(
                    i,
                )
            &&& m3.filter is All
            &&& m3.items == m.items
            &&& m3.filtered == Seq::new(m.items.len(), |i: int| i)
        }),
{
    lemma_filter_indices_props(m.items, Filter::Pending);
    lemma_filter_indices_all(m.items);
}

} // verus!
