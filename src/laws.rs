//! Properties of the store and the state machine that hold over all states.

use vstd::prelude::*;
use crate::input::{step, to_normal, Key, Outcome};
use crate::store::{add_spec, delete_spec, loaded, toggle_spec, well_formed, AppView, Mode, TaskView};
use crate::text::{is_white_space, trim_of, trim_start_of, trim_end_of};

verus! {

/// The state after adding the `(title, description)` pairs of `items` in order.
pub open spec fn add_all(s: AppView, items: Seq<(Seq<char>, Seq<char>)>) -> AppView
    decreases items.len(),
{
    if items.len() == 0 {
        s
    } else {
        let last = items.last();
        add_spec(add_all(s, items.drop_last()), last.0, last.1)
    }
}

/// Any run of adds keeps the earlier tasks, hands out the ids `next_id`,
/// `next_id + 1`, ... in order, and each new id is above every id before it in
/// the list, so that no two tasks share an id with a new one.
pub proof fn lemma_add_ids_increase(s: AppView, items: Seq<(Seq<char>, Seq<char>)>)
    requires
        well_formed(s),
    ensures
        ({
            let r = add_all(s, items);
            &&& well_formed(r)
            &&& r.tasks.len() == s.tasks.len() + items.len()
            &&& r.tasks.subrange(0, s.tasks.len() as int) == s.tasks
            &&& r.next_id == s.next_id + items.len()
            &&& forall|i: int|
                s.tasks.len() <= i < r.tasks.len() ==> #[trigger] r.tasks[i].id == s.next_id + (i
                    - s.tasks.len())
            &&& forall|i: int, j: int|
                0 <= i < j < r.tasks.len() && s.tasks.len() <= j ==> #[trigger] r.tasks[i].id
                    < #[trigger] r.tasks[j].id
            &&& forall|i: int, j: int|
                0 <= i < r.tasks.len() && 0 <= j < r.tasks.len() && i != j && (s.tasks.len() <= i
                    || s.tasks.len() <= j) ==> #[trigger] r.tasks[i].id != #[trigger] r.tasks[j].id
        }),
    decreases items.len(),
{
    if items.len() > 0 {
        let p = add_all(s, items.drop_last());
        lemma_add_ids_increase(s, items.drop_last());
        let r = add_all(s, items);
        assert(r == add_spec(p, items.last().0, items.last().1));
        assert(r.tasks.subrange(0, s.tasks.len() as int) =~= s.tasks) by {
            assert(p.tasks.subrange(0, s.tasks.len() as int) == s.tasks);
            assert forall|k: int| 0 <= k < s.tasks.len() implies r.tasks[k] == p.tasks[k] by {}
        }
        assert forall|i: int, j: int|
            0 <= i < j < r.tasks.len() && s.tasks.len() <= j implies #[trigger] r.tasks[i].id
            < #[trigger] r.tasks[j].id by {
            if j < p.tasks.len() {
                assert(r.tasks[i] == p.tasks[i]);
                assert(r.tasks[j] == p.tasks[j]);
            } else {
                assert(r.tasks[i] == p.tasks[i]);
                assert(p.tasks[i].id < p.next_id);
            }
        }
        assert forall|i: int, j: int|
            0 <= i < r.tasks.len() && 0 <= j < r.tasks.len() && i != j && (s.tasks.len() <= i
                || s.tasks.len() <= j) implies #[trigger] r.tasks[i].id != #[trigger] r.tasks[j].id by {
            if i < j {
                assert(r.tasks[i].id < r.tasks[j].id);
            } else {
                assert(r.tasks[j].id < r.tasks[i].id);
            }
        }
        assert forall|i: int| 0 <= i < r.tasks.len() implies #[trigger] r.tasks[i].id < r.next_id by {
            if i < p.tasks.len() {
                assert(r.tasks[i] == p.tasks[i]);
            }
        }
    }
}

/// Deleting the selected task when it is the last one leaves the selection on
/// the new last task, if any task is left.
pub proof fn lemma_delete_last_selected(s: AppView)
    requires
        well_formed(s),
        s.tasks.len() > 0,
        s.selected == s.tasks.len() - 1,
    ensures
        delete_spec(s).tasks.len() == s.tasks.len() - 1,
        delete_spec(s).tasks.len() > 0 ==> delete_spec(s).selected == delete_spec(s).tasks.len() - 1,
        well_formed(delete_spec(s)),
{
    let r = delete_spec(s);
    assert forall|i: int| 0 <= i < r.tasks.len() implies #[trigger] r.tasks[i].id < r.next_id by {
        assert(r.tasks[i] == s.tasks[i]);
    }
}

/// Loading a list of tasks keeps it as it is, and the id counter resumes
/// above every id in it.
pub proof fn lemma_load_resumes_above(ts: Seq<TaskView>)
    ensures
        loaded(ts).tasks == ts,
        forall|i: int| 0 <= i < ts.len() ==> #[trigger] ts[i].id < loaded(ts).next_id,
        well_formed(loaded(ts)),
{
    crate::store::lemma_max_id_bounds(ts);
}

/// Toggling the same task twice restores the state, through the store and
/// through the space key in command mode.
pub proof fn lemma_toggle_twice(s: AppView)
    ensures
        toggle_spec(toggle_spec(s)) == s,
        s.mode == Mode::Normal ==> step(step(s, Key::Char(' ')).0, Key::Char(' ')).0 == s,
{
    if s.selected < s.tasks.len() {
        assert(toggle_spec(toggle_spec(s)).tasks =~= s.tasks);
    }
}

/// Escape in a text mode always returns to command mode with an empty buffer,
/// whatever the buffer held, and changes nothing else.
pub proof fn lemma_escape_resets(s: AppView)
    requires
        s.mode != Mode::Normal,
    ensures
        step(s, Key::Esc) == (to_normal(s), Outcome::Continue),
        step(s, Key::Esc).0.mode == Mode::Normal,
        step(s, Key::Esc).0.buffer.len() == 0,
        step(s, Key::Esc).0.tasks == s.tasks,
{
}

/// Text made only of white space trims to nothing.
pub proof fn lemma_blank_trims_empty(t: Seq<char>)
    requires
        forall|i: int| 0 <= i < t.len() ==> is_white_space(#[trigger] t[i]),
    ensures
        trim_of(t).len() == 0,
    decreases t.len(),
{
    if t.len() > 0 {
        assert(is_white_space(t[0]));
        let u = t.drop_first();
        assert forall|i: int| 0 <= i < u.len() implies is_white_space(#[trigger] u[i]) by {
            assert(u[i] == t[i + 1]);
        }
        lemma_blank_trims_empty(u);
        assert(trim_start_of(t) == trim_start_of(u));
    } else {
        assert(trim_start_of(t) == t);
        assert(trim_end_of(t) == t);
    }
}

/// Enter while adding a title whose buffer is blank adds nothing and returns
/// to command mode with an empty buffer.
pub proof fn lemma_blank_title_adds_nothing(s: AppView)
    requires
        s.mode == Mode::AddTitle,
        forall|i: int| 0 <= i < s.buffer.len() ==> is_white_space(#[trigger] s.buffer[i]),
    ensures
        step(s, Key::Enter) == (to_normal(s), Outcome::Continue),
        step(s, Key::Enter).0.tasks == s.tasks,
        step(s, Key::Enter).0.next_id == s.next_id,
{
    lemma_blank_trims_empty(s.buffer);
}

} // verus!
