use imageforge_lib::models::{CompressionStatus, ImageFormat, ImageInfo};
use imageforge_lib::queue::{
    batch_concurrency, batch_end, concurrency_for, dispatch, progress_update, skipped_result,
    Dispatch,
    worker_panicked_result, BatchEnd, BatchSlot,
};

fn item() -> ImageInfo {
    ImageInfo {
        id: "id-7".to_string(),
        path: "/p/a.png".to_string(),
        filename: "a.png".to_string(),
        format: ImageFormat::Png,
        width: 40,
        height: 30,
        bytes: 1234,
        orientation: None,
        has_alpha: false,
        color_profile: None,
        metadata_available: false,
    }
}

#[test]
fn concurrency_is_clamped_cpu_count_unless_overridden() {
    assert_eq!(concurrency_for(None, 0), 1);
    assert_eq!(concurrency_for(None, 1), 1);
    assert_eq!(concurrency_for(None, 4), 4);
    assert_eq!(concurrency_for(None, 6), 6);
    assert_eq!(concurrency_for(None, 64), 6);
    assert_eq!(concurrency_for(Some(17), 2), 17);
    assert_eq!(batch_concurrency(Some(3)), 3);
    let n = batch_concurrency(None);
    assert!((1..=6).contains(&n));
}

#[test]
fn progress_counts_from_one() {
    let p = progress_update(0, 5, "a.png".to_string());
    assert_eq!(p.current_index, 1);
    assert_eq!(p.total_count, 5);
    assert_eq!(p.current_filename, "a.png");
    assert_eq!(p.stage, "Compressing");
}

#[test]
fn skipped_items_report_the_cancellation() {
    let r = skipped_result(&item());
    assert_eq!(r.status, CompressionStatus::Skipped);
    assert_eq!(r.id, "id-7");
    assert_eq!(r.input_bytes, 1234);
    assert_eq!((r.input_width, r.input_height), (40, 30));
    assert_eq!((r.output_width, r.output_height, r.output_bytes), (0, 0, 0));
    assert_eq!(r.output_format, ImageFormat::Png);
    assert_eq!(r.error.as_deref(), Some("Batch was cancelled."));
    assert!(r.output_path.is_none());
}

#[test]
fn lost_workers_are_failures() {
    let r = worker_panicked_result("task 3 panicked");
    assert_eq!(r.status, CompressionStatus::Failed);
    assert_eq!(r.id, "");
    assert_eq!(r.error.as_deref(), Some("Worker thread panicked: task 3 panicked"));
}

#[test]
fn batches_end_by_cancellation_or_with_all_results() {
    assert!(matches!(batch_end(true, vec![skipped_result(&item())]), BatchEnd::Cancelled));
    match batch_end(false, vec![skipped_result(&item()), skipped_result(&item())]) {
        BatchEnd::Completed(all) => assert_eq!(all.len(), 2),
        BatchEnd::Cancelled => panic!("not cancelled"),
    }
}

#[test]
fn the_slot_holds_only_the_running_batch() {
    let mut slot: BatchSlot<u32> = BatchSlot::new();
    assert_eq!(slot.take_for_cancel(), None);
    slot.install(1);
    assert_eq!(slot.take_for_cancel(), Some(1));
    assert_eq!(slot.current, None);
    slot.install(2);
    slot.install(3);
    assert_eq!(slot.current, Some(3));
}

#[test]
fn cancelled_batches_skip_every_remaining_item() {
    match dispatch(true, item()) {
        Dispatch::Skip(r) => {
            assert_eq!(r.status, CompressionStatus::Skipped);
            assert_eq!(r.error.as_deref(), Some("Batch was cancelled."));
            assert_eq!(r.id, item().id);
            assert!(r.output_path.is_none());
        }
        Dispatch::Run(_) => panic!("a cancelled batch runs nothing"),
    }
    match dispatch(false, item()) {
        Dispatch::Run(it) => assert_eq!(it.id, item().id),
        Dispatch::Skip(_) => panic!("a running batch skips nothing"),
    }
}
