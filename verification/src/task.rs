use vstd::prelude::*;

verus! {

/// Mathematical model of a task record.
pub ghost struct TaskView {
    pub id: u64,
    pub file_path: Seq<char>,
    pub callback_api_url: Seq<char>,
}

/// A unit of queued work: a source audio file together with the address
/// that the computed peaks must be delivered to.
///
/// `id == 0` means the task has not been persisted yet; the store assigns
/// a nonzero identity on first successful insertion.
pub struct Task {
    pub id: u64,
    pub file_path: String,
    pub callback_api_url: String,
}

impl View for Task {
    type V = TaskView;

    open spec fn view(&self) -> TaskView {
        TaskView {
            id: self.id,
            file_path: self.file_path@,
            callback_api_url: self.callback_api_url@,
        }
    }
}

impl Task {
    /// A fresh, not-yet-persisted task.
    pub fn new(file_path: String, callback_api_url: String) -> (t: Task)
        ensures
            t.id == 0,
            t.file_path@ == file_path@,
            t.callback_api_url@ == callback_api_url@,
    {
        Task { id: 0, file_path, callback_api_url }
    }
}

impl Clone for Task {
    fn clone(&self) -> (t: Task)
        ensures
            t@ == self@,
    {
        Task {
            id: self.id,
            file_path: self.file_path.clone(),
            callback_api_url: self.callback_api_url.clone(),
        }
    }
}

} // verus!
