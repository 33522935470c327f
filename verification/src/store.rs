use vstd::prelude::*;

use crate::errors::PersistenceError;
use crate::task::{Task, TaskView};

verus! {

/// In-memory task store: the volatile backend of the persistence contract.
///
/// Tasks are kept in insertion order (oldest first), so `list_pending`
/// yields fair, roughly-FIFO scheduling. Identities are handed out from a
/// strictly increasing counter, so an identity is never reused.
pub struct TaskStore {
    tasks: Vec<Task>,
    next_id: u64,
}

impl TaskStore {
    /// The pending task records, oldest first.
    pub closed spec fn tasks(&self) -> Seq<TaskView> {
        self.tasks@.map(|i: int, t: Task| t@)
    }

    /// The identity the next successful insertion will be assigned.
    pub closed spec fn next(&self) -> u64 {
        self.next_id
    }

    /// Well-formedness: identities are nonzero, strictly increasing in
    /// insertion order, and all below the counter. Uniqueness and the
    /// freshness of `next()` follow.
    pub closed spec fn wf(&self) -> bool {
        &&& self.next_id >= 1
        &&& forall|i: int|
            0 <= i < self.tasks@.len() ==> 0 < (#[trigger] self.tasks@[i])@.id < self.next_id
        &&& forall|i: int, j: int|
            0 <= i < j < self.tasks@.len() ==> self.tasks@[i]@.id < self.tasks@[j]@.id
    }

    /// An empty store.
    pub fn new() -> (s: TaskStore)
        ensures
            s.wf(),
            s.tasks() =~= Seq::<TaskView>::empty(),
            s.next() == 1,
    {
        TaskStore { tasks: Vec::new(), next_id: 1 }
    }

    /// An empty store that resumes handing out identities from `next`, as
    /// a durable backend does after a restart once its counter has been
    /// recovered. Counters start at one; a smaller value is raised to it.
    pub fn resume_at(next: u64) -> (s: TaskStore)
        ensures
            s.wf(),
            s.tasks() =~= Seq::<TaskView>::empty(),
            s.next() == if next >= 1 { next } else { 1u64 },
    {
        TaskStore { tasks: Vec::new(), next_id: if next >= 1 { next } else { 1 } }
    }

    /// Every identity present in a well-formed store is below `next()`,
    /// so the identity of the next insertion is previously unused.
    pub proof fn lemma_fresh_identity(&self)
        requires
            self.wf(),
        ensures
            forall|i: int|
                0 <= i < self.tasks().len() ==> (#[trigger] self.tasks()[i]).id < self.next(),
            forall|i: int|
                0 <= i < self.tasks().len() ==> (#[trigger] self.tasks()[i]).id != self.next(),
    {
    }

    /// Persist a task. A task that already carries an identity is refused
    /// and the store is left unchanged; otherwise a fresh identity — one no
    /// present or past record ever had — is assigned and returned, and the
    /// task is appended to the pending list.
    pub fn insert(&mut self, task: Task) -> (r: Result<u64, PersistenceError>)
        requires
            old(self).wf(),
        ensures
            final(self).wf(),
            final(self).next() >= old(self).next(),
            task.id != 0 ==> {
                &&& r matches Err(e) && e == PersistenceError::AlreadyPersisted
                &&& final(self).tasks() == old(self).tasks()
                &&& final(self).next() == old(self).next()
            },
            task.id == 0 && old(self).next() < u64::MAX ==> {
                &&& r matches Ok(id) && id == old(self).next()
                &&& forall|i: int|
                    0 <= i < old(self).tasks().len()
                        ==> (#[trigger] old(self).tasks()[i]).id != old(self).next()
                &&& final(self).tasks() == old(self).tasks().push(
                    TaskView {
                        id: old(self).next(),
                        file_path: task.file_path@,
                        callback_api_url: task.callback_api_url@,
                    },
                )
                &&& final(self).next() == old(self).next() + 1
            },
            task.id == 0 && old(self).next() == u64::MAX ==> {
                &&& r matches Err(e) && e == PersistenceError::StorageFailure
                &&& final(self).tasks() == old(self).tasks()
                &&& final(self).next() == old(self).next()
            },
    {
        if task.id != 0 {
            return Err(PersistenceError::AlreadyPersisted);
        }
        if self.next_id == u64::MAX {
            return Err(PersistenceError::StorageFailure);
        }
        let id = self.next_id;
        let stored = Task { id, file_path: task.file_path, callback_api_url: task.callback_api_url };
        self.tasks.push(stored);
        self.next_id = id + 1;
        proof {
            assert(self.tasks() =~= old(self).tasks().push(
                TaskView {
                    id: old(self).next(),
                    file_path: task.file_path@,
                    callback_api_url: task.callback_api_url@,
                },
            ));
        }
        Ok(id)
    }

    /// All tasks eligible for processing, oldest first: a snapshot of the
    /// pending list in insertion order.
    pub fn list_pending(&self) -> (r: Vec<Task>)
        ensures
            r@.len() == self.tasks().len(),
            forall|i: int| 0 <= i < r@.len() ==> (#[trigger] r@[i])@ == self.tasks()[i],
    {
        let mut out: Vec<Task> = Vec::new();
        let mut i: usize = 0;
        while i < self.tasks.len()
            invariant
                0 <= i <= self.tasks@.len(),
                out@.len() == i,
                forall|k: int| 0 <= k < i ==> (#[trigger] out@[k])@ == self.tasks()[k],
            decreases self.tasks@.len() - i,
        {
            out.push(self.tasks[i].clone());
            i = i + 1;
        }
        out
    }

    /// Delete the task record with the given identity, keeping every other
    /// record in order. Returns whether such a record was present; removal
    /// of an absent identity leaves the store unchanged, and the caller
    /// treats the record as already absent. Afterwards no pending record
    /// carries the identity.
    pub fn remove(&mut self, id: u64) -> (found: bool)
        requires
            old(self).wf(),
        ensures
            final(self).wf(),
            final(self).next() == old(self).next(),
            forall|j: int|
                0 <= j < final(self).tasks().len() ==> (#[trigger] final(self).tasks()[j]).id != id,
            found == exists|i: int|
                0 <= i < old(self).tasks().len() && (#[trigger] old(self).tasks()[i]).id == id,
            found ==> exists|i: int|
                {
                    &&& 0 <= i < old(self).tasks().len()
                    &&& old(self).tasks()[i].id == id
                    &&& final(self).tasks() == old(self).tasks().remove(i)
                },
            !found ==> final(self).tasks() == old(self).tasks(),
    {
        let n = self.tasks.len();
        let mut i: usize = 0;
        while i < n
            invariant
                0 <= i <= n,
                old(self).wf(),
                self.tasks@ == old(self).tasks@,
                self.next_id == old(self).next_id,
                n == self.tasks@.len(),
                forall|k: int| 0 <= k < i ==> (#[trigger] self.tasks@[k])@.id != id,
            decreases n - i,
        {
            if self.tasks[i].id == id {
                let ghost prev = old(self).tasks();
                let ghost ii = i as int;
                self.tasks.remove(i);
                proof {
                    prev.remove_ensures(ii);
                    assert(self.tasks() =~= prev.remove(ii));
                    assert forall|j: int|
                        0 <= j < self.tasks().len() implies (#[trigger] self.tasks()[j]).id != id by {
                        if j < ii {
                            assert(self.tasks()[j] == prev[j]);
                        } else {
                            assert(self.tasks()[j] == prev[j + 1]);
                            assert(prev[ii].id < prev[j + 1].id);
                        }
                    }
                    assert(prev[ii].id == id);
                    assert(self.wf()) by {
                        assert forall|a: int, b: int|
                            0 <= a < b < self.tasks@.len() implies (self.tasks@[a])@.id < (
                            self.tasks@[b])@.id by {
                            if b < ii {
                            } else if a < ii {
                                assert(self.tasks()[b] == prev[b + 1]);
                            } else {
                                assert(self.tasks()[a] == prev[a + 1]);
                                assert(self.tasks()[b] == prev[b + 1]);
                            }
                        }
                    }
                }
                return true;
            }
            i = i + 1;
        }
        false
    }
}

/// A pending record only ever leaves the store through the removal of its
/// own identity. `pre` and `post` are the pending lists around one call of
/// `remove(removed)`, related as its contract states; any record whose
/// identity differs is still present, unchanged, afterwards. In particular
/// a task inserted while a tick is mid-processing survives that tick's
/// completions and appears in the next tick's listing.
pub proof fn lemma_pending_not_lost(
    pre: Seq<TaskView>,
    post: Seq<TaskView>,
    removed: u64,
    k: int,
)
    requires
        post == pre || exists|i: int|
            {
                &&& 0 <= i < pre.len()
                &&& (#[trigger] pre[i]).id == removed
                &&& post == pre.remove(i)
            },
        0 <= k < pre.len(),
        pre[k].id != removed,
    ensures
        exists|q: int| 0 <= q < post.len() && #[trigger] post[q] == pre[k],
{
    if post == pre {
        assert(post[k] == pre[k]);
    } else {
        let i = choose|i: int|
            {
                &&& 0 <= i < pre.len()
                &&& (#[trigger] pre[i]).id == removed
                &&& post == pre.remove(i)
            };
        if k < i {
            assert(post[k] == pre[k]);
        } else {
            assert(post[k - 1] == pre[k]);
        }
    }
}

} // verus!
