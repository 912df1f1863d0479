use vstd::prelude::*;

use crate::task::{Task, TaskRecV};

verus! {

/// Keyed storage of challenge records by task id, abstracted as a map from
/// id text to record value. Inserts are last-write-wins; lookups are
/// read-only. The surrounding process serialises access (a lock around the
/// whole store suffices, since records are immutable once inserted).
pub struct TaskStore {
    entries: Vec<Task>,
}

impl View for TaskStore {
    type V = Map<Seq<char>, TaskRecV>;

    closed spec fn view(&self) -> Map<Seq<char>, TaskRecV> {
        TaskStore::map_of(self.entries@)
    }
}

impl TaskStore {
    /// The map a sequence of records denotes: later entries shadow earlier
    /// ones with the same id.
    pub closed spec fn map_of(s: Seq<Task>) -> Map<Seq<char>, TaskRecV>
        decreases s.len(),
    {
        if s.len() == 0 {
            Map::empty()
        } else {
            TaskStore::map_of(s.drop_last()).insert(s.last().task.task_id@, s.last()@)
        }
    }

    /// An empty store.
    pub fn new() -> (s: TaskStore)
        ensures
            s@ == Map::<Seq<char>, TaskRecV>::empty(),
    {
        TaskStore { entries: Vec::new() }
    }

    /// Insert the record under its own task id, overwriting any record the
    /// id already maps to.
    pub fn insert(&mut self, rec: Task)
        ensures
            final(self)@ == old(self)@.insert(rec.task.task_id@, rec@),
    {
        self.entries.push(rec);
        proof {
            assert(self.entries@.drop_last() =~= old(self).entries@);
        }
    }

    proof fn lemma_map_of_found(s: Seq<Task>, k: Seq<char>, i: int)
        requires
            0 <= i < s.len(),
            s[i].task.task_id@ == k,
            forall|j: int| i < j < s.len() ==> s[j].task.task_id@ != k,
        ensures
            TaskStore::map_of(s).contains_key(k),
            TaskStore::map_of(s)[k] == s[i]@,
        decreases s.len(),
    {
        if i < s.len() - 1 {
            assert(s.last().task.task_id@ != k);
            assert(forall|j: int|
                i < j < s.drop_last().len() ==> s.drop_last()[j].task.task_id@ != k);
            TaskStore::lemma_map_of_found(s.drop_last(), k, i);
        }
    }

    proof fn lemma_map_of_absent(s: Seq<Task>, k: Seq<char>)
        requires
            forall|j: int| 0 <= j < s.len() ==> s[j].task.task_id@ != k,
        ensures
            !TaskStore::map_of(s).contains_key(k),
        decreases s.len(),
    {
        if s.len() > 0 {
            TaskStore::lemma_map_of_absent(s.drop_last(), k);
        }
    }

    /// Look the id up; absence is an ordinary outcome, not a failure.
    pub fn get(&self, id: &String) -> (r: Option<&Task>)
        ensures
            match r {
                Some(rec) => self@.contains_key(id@) && rec@ == self@[id@],
                None => !self@.contains_key(id@),
            },
    {
        let mut i: usize = self.entries.len();
        while i > 0
            invariant
                i <= self.entries@.len(),
                forall|j: int| i <= j < self.entries@.len() ==> self.entries@[j].task.task_id@ != id@,
            decreases i,
        {
            i = i - 1;
            if self.entries[i].task.task_id == *id {
                proof {
                    TaskStore::lemma_map_of_found(self.entries@, id@, i as int);
                }
                return Some(&self.entries[i]);
            }
        }
        proof {
            TaskStore::lemma_map_of_absent(self.entries@, id@);
        }
        None
    }
}

} // verus!
