//! The state of a todo list kept as a view over its events.

use vstd::prelude::*;
use crate::event::Event;

verus! {

/// One todo item.
#[derive(Debug, Clone)]
pub struct Todo {
    pub id: String,
    pub text: String,
    pub done: bool,
    pub created_at: u64,
}

/// The todo list.
#[derive(Debug, Clone)]
pub struct TodoState {
    pub items: Vec<Todo>,
}

impl Default for TodoState {
    fn default() -> (r: TodoState)
        ensures
            r.items@.len() == 0,
    {
        TodoState { items: Vec::new() }
    }
}

/// Relies on `serde_json::Value::get`: the value stored under `key` when
/// `v` is an object that holds one there. What a JSON value holds is not
/// modelled, so nothing is stated of the result.
#[verifier::external_body]
fn json_get<'a>(v: &'a serde_json::Value, key: &str) -> (r: Option<&'a serde_json::Value>) {
    v.get(key)
}

/// Relies on `serde_json::Value::as_str`: the string a JSON value holds, if
/// it is one. Nothing is stated of the result.
pub assume_specification<'a>[ serde_json::Value::as_str ](v: &'a serde_json::Value) -> (r: Option<&'a str>);

/// Relies on `serde_json::Value::as_u64`: the unsigned integer a JSON value
/// holds, if it is one. Nothing is stated of the result.
pub assume_specification[ serde_json::Value::as_u64 ](v: &serde_json::Value) -> (r: Option<u64>);

/// The string stored under `key` in an event payload.
fn data_str(v: &serde_json::Value, key: &str) -> (r: Option<String>) {
    match json_get(v, key) {
        Some(f) => match f.as_str() {
            Some(s) => Some(s.to_owned()),
            None => None,
        },
        None => None,
    }
}

/// The unsigned integer stored under `key` in an event payload.
fn data_u64(v: &serde_json::Value, key: &str) -> (r: Option<u64>) {
    match json_get(v, key) {
        Some(f) => f.as_u64(),
        None => None,
    }
}

/// An item as plain values: id, text, done, creation time.
pub type TodoView = (Seq<char>, Seq<char>, bool, u64);

/// The items as plain values.
pub open spec fn todo_views(items: Seq<Todo>) -> Seq<TodoView> {
    items.map_values(|t: Todo| (t.id@, t.text@, t.done, t.created_at))
}

/// The items after toggling the first one whose id is `id` (unchanged when
/// there is none).
pub open spec fn toggled(items: Seq<TodoView>, id: Seq<char>) -> Seq<TodoView>
    decreases items.len(),
{
    if items.len() == 0 {
        items
    } else if items[0].0 == id {
        items.update(0, (items[0].0, items[0].1, !items[0].2, items[0].3))
    } else {
        seq![items[0]] + toggled(items.drop_first(), id)
    }
}

/// The items whose id is not `id`, in order.
pub open spec fn kept(items: Seq<TodoView>, id: Seq<char>) -> Seq<TodoView>
    decreases items.len(),
{
    if items.len() == 0 {
        items
    } else if items.last().0 != id {
        kept(items.drop_last(), id).push(items.last())
    } else {
        kept(items.drop_last(), id)
    }
}

/// A string field as read from an event, the empty string when missing.
pub open spec fn text_or_empty(s: Option<String>) -> Seq<char> {
    match s {
        Some(t) => t@,
        None => Seq::empty(),
    }
}

/// The todo list after an event of type `kind` whose payload gave `id`,
/// `text` and `created_at` (each absent when missing or of another type):
/// `todo_added` appends an open item (missing strings empty, missing time
/// 0), `todo_toggled` flips the first item with that id, `todo_deleted`
/// drops every item with that id; other types change nothing.
pub open spec fn todo_step(
    items: Seq<TodoView>,
    kind: Seq<char>,
    id: Option<String>,
    text: Option<String>,
    created_at: Option<u64>,
) -> Seq<TodoView> {
    if kind == "todo_added"@ {
        items.push(
            (
                text_or_empty(id),
                text_or_empty(text),
                false,
                match created_at {
                    Some(c) => c,
                    None => 0,
                },
            ),
        )
    } else if kind == "todo_toggled"@ {
        toggled(items, text_or_empty(id))
    } else if kind == "todo_deleted"@ {
        kept(items, text_or_empty(id))
    } else {
        items
    }
}

proof fn lemma_toggled_at(items: Seq<TodoView>, id: Seq<char>, k: int)
    requires
        0 <= k < items.len(),
        items[k].0 == id,
        forall|j: int| 0 <= j < k ==> items[j].0 != id,
    ensures
        toggled(items, id) == items.update(k, (items[k].0, items[k].1, !items[k].2, items[k].3)),
    decreases k,
{
    if k > 0 {
        let rest = items.drop_first();
        assert forall|j: int| 0 <= j < k - 1 implies rest[j].0 != id by {
            assert(rest[j] == items[j + 1]);
        }
        lemma_toggled_at(rest, id, k - 1);
        assert(toggled(items, id) =~= items.update(k, (items[k].0, items[k].1, !items[k].2, items[k].3)));
    }
}

proof fn lemma_toggled_absent(items: Seq<TodoView>, id: Seq<char>)
    requires
        forall|j: int| 0 <= j < items.len() ==> items[j].0 != id,
    ensures
        toggled(items, id) == items,
    decreases items.len(),
{
    if items.len() > 0 {
        let rest = items.drop_first();
        assert forall|j: int| 0 <= j < rest.len() implies rest[j].0 != id by {
            assert(rest[j] == items[j + 1]);
        }
        lemma_toggled_absent(rest, id);
        assert(toggled(items, id) =~= items);
    }
}

fn copy_todo(t: &Todo) -> (r: Todo)
    ensures
        r.id@ == t.id@,
        r.text@ == t.text@,
        r.done == t.done,
        r.created_at == t.created_at,
{
    Todo { id: t.id.clone(), text: t.text.clone(), done: t.done, created_at: t.created_at }
}

/// Applies one todo event, given its type and what its payload held: see
/// `todo_step`.
pub fn todo_apply(
    state: TodoState,
    kind: &str,
    id: Option<String>,
    text: Option<String>,
    created_at: Option<u64>,
) -> (r: TodoState)
    ensures
        todo_views(r.items@) == todo_step(todo_views(state.items@), kind@, id, text, created_at),
{
    let mut items = state.items;
    let ghost before = todo_views(items@);
    let kind = kind.to_owned();
    let id_text = match id {
        Some(s) => s,
        None => String::new(),
    };
    if kind == "todo_added".to_owned() {
        let text = match text {
            Some(s) => s,
            None => String::new(),
        };
        let created_at = match created_at {
            Some(c) => c,
            None => 0,
        };
        items.push(Todo { id: id_text, text, done: false, created_at });
        assert(todo_views(items@) =~= before.push((id_text@, text@, false, created_at)));
    } else if kind == "todo_toggled".to_owned() {
        let mut k: usize = 0;
        while k < items.len() && items[k].id != id_text
            invariant
                k <= items@.len(),
                before == todo_views(items@),
                forall|j: int| 0 <= j < k ==> before[j].0 != id_text@,
            decreases items@.len() - k,
        {
            k = k + 1;
        }
        if k < items.len() {
            let old_item = copy_todo(&items[k]);
            let t = Todo {
                id: old_item.id,
                text: old_item.text,
                done: !old_item.done,
                created_at: old_item.created_at,
            };
            items.set(k, t);
            proof {
                lemma_toggled_at(before, id_text@, k as int);
            }
            assert(todo_views(items@) =~= toggled(before, id_text@));
        } else {
            proof {
                lemma_toggled_absent(before, id_text@);
            }
        }
    } else if kind == "todo_deleted".to_owned() {
        let mut out: Vec<Todo> = Vec::new();
        let mut i: usize = 0;
        while i < items.len()
            invariant
                i <= items@.len(),
                before == todo_views(items@),
                todo_views(out@) == kept(before.take(i as int), id_text@),
            decreases items@.len() - i,
        {
            assert(before.take(i + 1).drop_last() =~= before.take(i as int));
            if items[i].id != id_text {
                let t = copy_todo(&items[i]);
                out.push(t);
                assert(todo_views(out@) =~= kept(before.take(i + 1), id_text@));
            }
            i = i + 1;
        }
        assert(before.take(items@.len() as int) =~= before);
        items = out;
    }
    TodoState { items }
}

/// Folds one todo event into the list, reading `id`, `text` and
/// `created_at` from its payload: the result is `todo_step` for whatever
/// those reads gave.
pub fn todo_reducer(state: TodoState, event: &Event) -> (r: TodoState)
    ensures
        exists|id: Option<String>, text: Option<String>, created_at: Option<u64>|
            todo_views(r.items@) == #[trigger] todo_step(
                todo_views(state.items@),
                event.event_type@,
                id,
                text,
                created_at,
            ),
{
    let id = data_str(&event.data, "id");
    let text = data_str(&event.data, "text");
    let created_at = data_u64(&event.data, "created_at");
    todo_apply(state, event.event_type.as_str(), id, text, created_at)
}

} // verus!
