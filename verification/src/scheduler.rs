use vstd::prelude::*;

use crate::errors::ExtractionError;
use crate::notify::deliver;
use crate::payload::peaks_payload;
use crate::peaks::decimate;
use crate::store::TaskStore;
use crate::task::Task;

verus! {

/// The outcome of one attempt at a pending task during a tick.
pub enum AttemptOutcome {
    /// The source file could not be read or decoded; the task waits for a
    /// later tick.
    ExtractionFailed,
    /// Peaks were computed but the callback did not accept them; the task
    /// waits for a later tick.
    DeliveryFailed,
    /// The callback accepted the peaks; the task may be completed.
    Delivered,
}

/// One attempt at a pending task: decimate the raw samples that extraction
/// produced, serialize them, and deliver them to the task's callback
/// address in one bounded POST. An extraction failure is reported without
/// any delivery being attempted; otherwise the outcome is that of the
/// single delivery attempt. The task record is not touched here:
/// settlement is a separate step.
pub fn process_task(
    task: &Task,
    extraction: Result<Vec<String>, ExtractionError>,
    stride: usize,
) -> (o: AttemptOutcome)
    requires
        stride >= 1,
        extraction matches Ok(v) ==> v@.len() + stride <= usize::MAX,
    ensures
        (extraction matches Err(_)) <==> o is ExtractionFailed,
{
    match extraction {
        Err(_) => AttemptOutcome::ExtractionFailed,
        Ok(raw) => {
            let peaks = decimate(&raw, stride);
            let body = peaks_payload(&peaks);
            match deliver(task.callback_api_url.as_str(), body.as_str()) {
                Ok(_) => AttemptOutcome::Delivered,
                Err(_) => AttemptOutcome::DeliveryFailed,
            }
        },
    }
}

/// Whether the task's source file is due for deletion: exactly when the
/// result was delivered. The backing file is deleted if and only if the
/// callback accepted the peaks; after any failure it must stay on disk
/// for the retry.
pub fn should_delete_file(outcome: &AttemptOutcome) -> (r: bool)
    ensures
        r <==> outcome is Delivered,
{
    match outcome {
        AttemptOutcome::Delivered => true,
        _ => false,
    }
}

/// Settle a task once its attempt has finished. A delivered task is
/// completed: its record is removed, whether or not the file cleanup
/// succeeded (a cleanup failure is logged by the caller and accepted as
/// lossy). After a failed attempt the store is left exactly as it was —
/// same records, same identities, same fields — so the task is retried on
/// a later tick, and nothing else in that tick is disturbed.
pub fn settle_task(store: &mut TaskStore, id: u64, outcome: &AttemptOutcome) -> (removed: bool)
    requires
        old(store).wf(),
    ensures
        final(store).wf(),
        final(store).next() == old(store).next(),
        !(outcome is Delivered) ==> {
            &&& final(store).tasks() == old(store).tasks()
            &&& !removed
        },
        outcome is Delivered ==> {
            &&& forall|j: int|
                0 <= j < final(store).tasks().len() ==> (#[trigger] final(store).tasks()[j]).id
                    != id
            &&& removed == exists|i: int|
                0 <= i < old(store).tasks().len() && (#[trigger] old(store).tasks()[i]).id == id
            &&& removed ==> exists|i: int|
                {
                    &&& 0 <= i < old(store).tasks().len()
                    &&& old(store).tasks()[i].id == id
                    &&& final(store).tasks() == old(store).tasks().remove(i)
                }
            &&& !removed ==> final(store).tasks() == old(store).tasks()
        },
{
    match outcome {
        AttemptOutcome::Delivered => store.remove(id),
        _ => false,
    }
}

} // verus!
