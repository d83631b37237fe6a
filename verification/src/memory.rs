//! A repository that keeps its records in memory.

use std::collections::HashMap;
use vstd::prelude::*;
use vstd::std_specs::iter::IteratorSpec;
use crate::error::{outcome_view, RepositoryError, RepositoryErrorView};
use crate::model::{views, CreateTodo, Todo, TodoView, UpdateTodo};
use crate::records::{after_delete, after_update, deleted, found, is_table, lists, updated};
use crate::repository::TodoRepositoryTrait;

verus! {

broadcast use vstd::std_specs::hash::group_hash_axioms;

/// What a failed `create` reports when every id is taken.
pub open spec fn no_id_left() -> Seq<char> {
    "no id is left for a new record"@
}

/// What `create` returns on a table of `records`: a record that is not
/// completed, under the number of records plus one.
pub open spec fn created(records: Map<i32, TodoView>, text: Seq<char>) -> Result<
    TodoView,
    RepositoryErrorView,
> {
    if records.len() < i32::MAX {
        Ok(TodoView { id: (records.len() + 1) as i32, text, completed: false })
    } else {
        Err(RepositoryErrorView::Unexpected(no_id_left()))
    }
}

/// The table after `create`. Where the new id is taken already, which can
/// happen only after a deletion, the new record replaces the one stored under
/// it.
pub open spec fn after_create(records: Map<i32, TodoView>, text: Seq<char>) -> Map<i32, TodoView> {
    match created(records, text) {
        Ok(todo) => records.insert(todo.id, todo),
        Err(_) => records,
    }
}

/// The ids of the table are the numbers from one to the number of records,
/// as they are as long as nothing was deleted.
pub open spec fn numbered_from_one(records: Map<i32, TodoView>) -> bool {
    forall|id: i32| records.contains_key(id) <==> 1 <= id <= records.len()
}

/// What `create` returns is what looking up its id gives afterwards. A failed
/// `create` leaves the table as it is.
pub proof fn lemma_created_record_is_found(records: Map<i32, TodoView>, text: Seq<char>)
    ensures
        match created(records, text) {
            Ok(todo) => found(after_create(records, text), todo.id) == Ok::<
                TodoView,
                RepositoryErrorView,
            >(todo),
            Err(_) => after_create(records, text) == records,
        },
{
}

/// `create` turns a table into a table.
pub proof fn lemma_create_keeps_a_table(records: Map<i32, TodoView>, text: Seq<char>)
    requires
        is_table(records),
    ensures
        is_table(after_create(records, text)),
{
}

/// The empty table is a table, and its ids are the numbers from one to the
/// number of records: there are none.
pub proof fn lemma_empty_table_is_numbered_from_one()
    ensures
        is_table(Map::<i32, TodoView>::empty()),
        numbered_from_one(Map::<i32, TodoView>::empty()),
{
}

/// On a table whose ids are the numbers from one to the number of records
/// `create` succeeds with the next number, which no record has yet, with the
/// given text and not completed. It replaces nothing, and the ids are the
/// numbers from one on afterwards, too. So records created one after the
/// other on an empty table get the ids 1, 2, 3 and so on.
pub proof fn lemma_create_numbers_from_one(records: Map<i32, TodoView>, text: Seq<char>)
    requires
        is_table(records),
        numbered_from_one(records),
        records.len() < i32::MAX,
    ensures
        created(records, text) == Ok::<TodoView, RepositoryErrorView>(
            TodoView { id: (records.len() + 1) as i32, text, completed: false },
        ),
        !records.contains_key((records.len() + 1) as i32),
        after_create(records, text).len() == records.len() + 1,
        forall|id: i32|
            records.contains_key(id) ==> found(after_create(records, text), id) == found(
                records,
                id,
            ),
        numbered_from_one(after_create(records, text)),
{
}

/// The table after `create` with each of `texts` in turn on an empty table.
pub open spec fn created_in_turn(texts: Seq<Seq<char>>) -> Map<i32, TodoView>
    decreases texts.len(),
{
    if texts.len() == 0 {
        Map::empty()
    } else {
        after_create(created_in_turn(texts.drop_last()), texts.last())
    }
}

/// Records that are created one after the other on an empty table get the ids
/// 1, 2, 3 and so on: the table then holds as many records as there were
/// texts, and under the id `n` the record with the `n`th text, not completed.
pub proof fn lemma_created_in_turn_counts_from_one(texts: Seq<Seq<char>>)
    requires
        texts.len() <= i32::MAX,
    ensures
        is_table(created_in_turn(texts)),
        numbered_from_one(created_in_turn(texts)),
        created_in_turn(texts).len() == texts.len(),
        forall|n: int|
            1 <= n <= texts.len() ==> #[trigger] found(created_in_turn(texts), n as i32) == Ok::<
                TodoView,
                RepositoryErrorView,
            >(TodoView { id: n as i32, text: texts[n - 1], completed: false }),
    decreases texts.len(),
{
    if texts.len() > 0 {
        let before = created_in_turn(texts.drop_last());
        lemma_created_in_turn_counts_from_one(texts.drop_last());
        lemma_create_numbers_from_one(before, texts.last());
        assert forall|n: int| 1 <= n <= texts.len() implies #[trigger] found(
            created_in_turn(texts),
            n as i32,
        ) == Ok::<TodoView, RepositoryErrorView>(
            TodoView { id: n as i32, text: texts[n - 1], completed: false },
        ) by {
            if n < texts.len() {
                assert(found(before, n as i32) == Ok::<TodoView, RepositoryErrorView>(
                    TodoView { id: n as i32, text: texts.drop_last()[n - 1], completed: false },
                ));
                assert(before.contains_key(n as i32));
            }
        }
    }
}

/// A repository that keeps its records in a hash map from id to record.
///
/// A new record gets the number of records plus one as its id. As long as
/// nothing is deleted the ids are 1, 2, 3 and so on. After a deletion the next
/// id may be one that a record has already, and `create` then replaces that
/// record.
#[derive(Debug)]
pub struct TodoRepositoryForMemory {
    store: HashMap<i32, Todo>,
}

impl View for TodoRepositoryForMemory {
    type V = Map<i32, TodoView>;

    closed spec fn view(&self) -> Map<i32, TodoView> {
        Map::new(
            |id: i32| self.store@.contains_key(id),
            |id: i32|
                TodoView {
                    id,
                    text: self.store@[id].text@,
                    completed: self.store@[id].completed,
                },
        )
    }
}

impl TodoRepositoryForMemory {
    #[verifier::type_invariant]
    spec fn stored_under_own_id(&self) -> bool {
        forall|id: i32| self.store@.contains_key(id) ==> (#[trigger] self.store@[id]).id == id
    }

    /// Takes the map out and leaves an empty one, which meets the invariant
    /// while the map that was taken out changes.
    fn take_store(&mut self) -> (store: HashMap<i32, Todo>)
        ensures
            store@ == old(self).store@,
    {
        let mut store = HashMap::new();
        std::mem::swap(&mut store, &mut self.store);
        store
    }

    /// An empty repository.
    pub fn new() -> (repository: TodoRepositoryForMemory)
        ensures
            repository@ == Map::<i32, TodoView>::empty(),
    {
        let repository = TodoRepositoryForMemory { store: HashMap::new() };
        assert(repository@ =~= Map::<i32, TodoView>::empty());
        repository
    }
}

impl TodoRepositoryTrait for TodoRepositoryForMemory {
    open spec fn records(&self) -> Map<i32, TodoView> {
        self@
    }

    proof fn lemma_records_form_a_table(&self) {
        assert(self@.dom() =~= self.store@.dom());
    }

    fn create(&mut self, payload: CreateTodo) -> (outcome: Result<Todo, RepositoryError>)
        ensures
            outcome_view(outcome) == created(old(self)@, payload.text@),
            final(self)@ == after_create(old(self)@, payload.text@),
    {
        proof {
            use_type_invariant(&*self);
        }
        assert(self@.dom() =~= self.store@.dom());
        let count = self.store.len();
        if count >= i32::MAX as usize {
            return Err(RepositoryError::Unexpected("no id is left for a new record".to_owned()));
        }
        let id = (count + 1) as i32;
        let todo = Todo::new(id, payload.text);
        let mut store = self.take_store();
        store.insert(id, todo.clone());
        self.store = store;
        assert(self@ =~= after_create(old(self)@, payload.text@));
        Ok(todo)
    }

    fn find(&self, id: i32) -> (outcome: Result<Todo, RepositoryError>)
        ensures
            outcome_view(outcome) == found(self@, id),
    {
        proof {
            use_type_invariant(self);
        }
        match self.store.get(&id) {
            Some(todo) => Ok(todo.clone()),
            None => Err(RepositoryError::NotFound(id)),
        }
    }

    fn all(&self) -> (outcome: Result<Vec<Todo>, RepositoryError>)
        ensures
            outcome matches Ok(todos) && lists(self@, views(todos@)),
    {
        proof {
            use_type_invariant(self);
        }
        assert(self@.dom() =~= self.store@.dom());
        let mut todos: Vec<Todo> = Vec::new();
        for entry in entries: self.store.iter()
            invariant
                entries.seq().no_duplicates(),
                todos.len() == entries.index(),
                forall|i: int|
                    0 <= i < todos.len() ==> (#[trigger] todos[i])@ == (*entries.seq()[i].1)@,
        {
            todos.push(entry.1.clone());
        }
        proof {
            let pairs = self.store.iter().remaining();
            let items = views(todos@);
            assert(items.len() == self@.len());
            assert forall|i: int| 0 <= i < items.len() implies self@.contains_key(
                #[trigger] items[i].id,
            ) && self@[items[i].id] == items[i] by {
                assert(self.store@.contains_key(*pairs[i].0));
            }
            assert forall|i: int, j: int| 0 <= i < j < items.len() implies (#[trigger] items[i]).id
                != (#[trigger] items[j]).id by {
                assert(self.store@.contains_key(*pairs[i].0));
                assert(self.store@.contains_key(*pairs[j].0));
                if items[i].id == items[j].id {
                    assert(pairs[i] == pairs[j]);
                }
            }
            assert forall|id: i32| #[trigger] self@.contains_key(id) implies exists|i: int|
                0 <= i < items.len() && #[trigger] items[i] == self@[id] by {
                assert(pairs.contains((&id, &self.store@[id])));
                let i = choose|i: int| 0 <= i < pairs.len() && pairs[i] == (&id, &self.store@[id]);
                assert(items[i] == self@[id]);
            }
        }
        Ok(todos)
    }

    fn update(&mut self, id: i32, payload: UpdateTodo) -> (outcome: Result<Todo, RepositoryError>)
        ensures
            outcome_view(outcome) == updated(old(self)@, id, payload@),
            final(self)@ == after_update(old(self)@, id, payload@),
    {
        proof {
            use_type_invariant(&*self);
        }
        let todo = match self.store.get(&id) {
            Some(existing) => payload.merge_into(existing),
            None => {
                return Err(RepositoryError::NotFound(id));
            },
        };
        let mut store = self.take_store();
        store.insert(id, todo.clone());
        self.store = store;
        assert(self@ =~= after_update(old(self)@, id, payload@));
        Ok(todo)
    }

    fn delete(&mut self, id: i32) -> (outcome: Result<(), RepositoryError>)
        ensures
            outcome_view(outcome) == deleted(old(self)@, id),
            final(self)@ == after_delete(old(self)@, id),
    {
        proof {
            use_type_invariant(&*self);
        }
        let mut store = self.take_store();
        let removed = store.remove(&id);
        self.store = store;
        assert(self@ =~= after_delete(old(self)@, id));
        match removed {
            Some(_) => Ok(()),
            None => Err(RepositoryError::NotFound(id)),
        }
    }
}

} // verus!
