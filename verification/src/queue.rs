//! The decisions of the batch queue: how many files run at once, what is
//! reported when a file starts, is skipped or loses its worker, how a batch
//! ends, and the slot that holds the running batch's cancellation handle.
//! Spawning, waiting and emitting events run outside the library.
use vstd::prelude::*;
use crate::models::{
    CompressionResult, CompressionStatus, ImageFormat, ImageInfo, ProgressUpdate,
};

verus! {

/// The most files processed at once when the CPU count decides.
pub const MAX_CONCURRENCY: usize = 6;

/// `num_cpus::get()`: the number of CPUs available to this process, which
/// its documentation promises is at least 1. It depends on the machine, so
/// nothing else is stated of it.
#[verifier::external_body]
fn cpu_count() -> (r: usize)
    ensures
        r >= 1,
{
    num_cpus::get()
}

/// The number of files processed at once: the override when one is given,
/// else the CPU count clamped to `1..=6`.
pub open spec fn spec_concurrency_for(override_count: Option<usize>, cpus: usize) -> usize {
    match override_count {
        Some(n) => n,
        None => if cpus < 1 {
            1
        } else if cpus > MAX_CONCURRENCY {
            MAX_CONCURRENCY
        } else {
            cpus
        },
    }
}

pub fn concurrency_for(override_count: Option<usize>, cpus: usize) -> (r: usize)
    ensures
        r == spec_concurrency_for(override_count, cpus),
{
    match override_count {
        Some(n) => n,
        None => if cpus < 1 {
            1
        } else if cpus > MAX_CONCURRENCY {
            MAX_CONCURRENCY
        } else {
            cpus
        },
    }
}

/// The number of files processed at once, asking for the CPU count only when
/// no override is given.
pub fn batch_concurrency(override_count: Option<usize>) -> (r: usize)
    ensures
        override_count matches Some(n) ==> r == n,
        override_count is None ==> 1 <= r <= MAX_CONCURRENCY,
        override_count is None ==> exists|cpus: usize| #![auto] cpus >= 1 && r == spec_concurrency_for(None, cpus),
{
    match override_count {
        Some(n) => n,
        None => {
            let cpus = cpu_count();
            concurrency_for(None, cpus)
        },
    }
}

/// The progress report sent when a worker starts on the item at position
/// `index` (counted from 0) of a batch of `total` items.
pub fn progress_update(index: usize, total: usize, filename: String) -> (r: ProgressUpdate)
    requires
        index < usize::MAX,
    ensures
        r.current_index == index + 1,
        r.total_count == total,
        r.current_filename@ == filename@,
        r.stage@ == "Compressing"@,
{
    ProgressUpdate {
        current_index: index + 1,
        total_count: total,
        current_filename: filename,
        stage: String::from_str("Compressing"),
    }
}

/// `r` reports that `item` was skipped because its batch was cancelled.
pub open spec fn is_skipped_result(r: CompressionResult, item: ImageInfo) -> bool {
    &&& r.id@ == item.id@
    &&& r.status == CompressionStatus::Skipped
    &&& r.input_bytes == item.bytes
    &&& r.output_bytes == 0
    &&& r.saved_bytes == 0
    &&& r.saved_percent_micros == 0
    &&& r.input_width == item.width
    &&& r.input_height == item.height
    &&& r.output_width == 0
    &&& r.output_height == 0
    &&& r.input_format == item.format
    &&& r.output_format == item.format
    &&& r.output_path is None
    &&& r.duration_ms == 0
    &&& r.error matches Some(e) && e@ == "Batch was cancelled."@
    &&& !r.color_profile_preserved
}

/// The result of an item that was not processed because its batch was
/// cancelled.
pub fn skipped_result(item: &ImageInfo) -> (r: CompressionResult)
    ensures
        is_skipped_result(r, *item),
{
    CompressionResult {
        id: item.id.clone(),
        input_bytes: item.bytes,
        output_bytes: 0,
        saved_bytes: 0,
        saved_percent_micros: 0,
        input_width: item.width,
        input_height: item.height,
        output_width: 0,
        output_height: 0,
        input_format: item.format,
        output_format: item.format,
        output_path: None,
        duration_ms: 0,
        status: CompressionStatus::Skipped,
        error: Some(String::from_str("Batch was cancelled.")),
        color_profile_preserved: false,
    }
}

/// What becomes of one item of a batch.
pub enum Dispatch {
    /// The batch was cancelled: the item is reported as skipped.
    Skip(CompressionResult),
    /// The item goes on to be processed.
    Run(ImageInfo),
}

/// Decides what becomes of `item`, given whether its batch has been
/// cancelled. The queue asks this for every item before it waits for a
/// worker slot and again once it holds one, so that once the batch is
/// cancelled every item not yet processed is reported as skipped.
pub fn dispatch(cancelled: bool, item: ImageInfo) -> (r: Dispatch)
    ensures
        cancelled ==> (r matches Dispatch::Skip(res) && is_skipped_result(res, item)),
        !cancelled ==> r == Dispatch::Run(item),
{
    if cancelled {
        Dispatch::Skip(skipped_result(&item))
    } else {
        Dispatch::Run(item)
    }
}

/// The result reported when the worker processing a file panicked; `detail`
/// is the description of the failed join.
pub fn worker_panicked_result(detail: &str) -> (r: CompressionResult)
    ensures
        r.id@ == Seq::<char>::empty(),
        r.status == CompressionStatus::Failed,
        r.input_bytes == 0,
        r.output_bytes == 0,
        r.saved_bytes == 0,
        r.saved_percent_micros == 0,
        r.input_width == 0,
        r.input_height == 0,
        r.output_width == 0,
        r.output_height == 0,
        r.input_format == ImageFormat::Jpg,
        r.output_format == ImageFormat::Jpg,
        r.output_path is None,
        r.duration_ms == 0,
        r.error matches Some(e) && e@ == "Worker thread panicked: "@ + detail@,
        !r.color_profile_preserved,
{
    let mut error = String::from_str("Worker thread panicked: ");
    error.append(detail);
    CompressionResult {
        id: String::new(),
        input_bytes: 0,
        output_bytes: 0,
        saved_bytes: 0,
        saved_percent_micros: 0,
        input_width: 0,
        input_height: 0,
        output_width: 0,
        output_height: 0,
        input_format: ImageFormat::Jpg,
        output_format: ImageFormat::Jpg,
        output_path: None,
        duration_ms: 0,
        status: CompressionStatus::Failed,
        error: Some(error),
        color_profile_preserved: false,
    }
}

/// How a batch ends.
pub enum BatchEnd {
    /// The batch was cancelled; no results are reported.
    Cancelled,
    /// Every file finished; these are their results.
    Completed(Vec<CompressionResult>),
}

/// A cancelled batch ends as cancelled; any other batch reports every result
/// that was collected.
pub fn batch_end(cancelled: bool, results: Vec<CompressionResult>) -> (r: BatchEnd)
    ensures
        cancelled ==> r is Cancelled,
        !cancelled ==> (r matches BatchEnd::Completed(all) && all@ == results@),
{
    if cancelled {
        BatchEnd::Cancelled
    } else {
        BatchEnd::Completed(results)
    }
}

/// The slot holding the cancellation handle of the running batch, if any.
pub struct BatchSlot<T> {
    pub current: Option<T>,
}

impl<T> BatchSlot<T> {
    /// An empty slot: no batch runs.
    pub fn new() -> (r: Self)
        ensures
            r.current is None,
    {
        BatchSlot { current: None }
    }

    /// Takes the running batch's handle out of the slot so that it can be
    /// cancelled; the slot is empty afterwards.
    pub fn take_for_cancel(&mut self) -> (r: Option<T>)
        ensures
            r == old(self).current,
            final(self).current is None,
    {
        let mut taken: Option<T> = None;
        std::mem::swap(&mut taken, &mut self.current);
        taken
    }

    /// Records the handle of a newly started batch.
    pub fn install(&mut self, handle: T)
        ensures
            final(self).current == Some(handle),
    {
        self.current = Some(handle);
    }
}

} // verus!
