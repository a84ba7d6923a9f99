//! The update's progress reporting and its state machine.

use bytebeam_esp_rs::ota::{
    ota_failure_message, OtaCommand, OtaEvent, OtaFailure, OtaMachine, OtaPhase, OtaProgress,
    ProgressReport,
};

#[test]
fn thousand_bytes_in_hundred_byte_chunks_reports_each_decile() {
    let mut p = OtaProgress::begin(1000);
    let mut reports = Vec::new();
    for _ in 0..10 {
        if let Some(r) = p.record_chunk(100) {
            reports.push(r);
        }
    }
    assert_eq!(reports.len(), 10);
    for (i, r) in reports.iter().enumerate() {
        assert_eq!(r.progress as usize, 10 * (i + 1));
        assert_eq!(r.completed, i == 9);
    }
}

#[test]
fn no_report_inside_a_decile() {
    let mut p = OtaProgress::begin(1000);
    assert_eq!(p.record_chunk(99), None);
    assert_eq!(p.record_chunk(1), Some(ProgressReport { progress: 10, completed: false }));
    assert_eq!(p.record_chunk(1), None);
}

#[test]
fn one_big_chunk_reports_once() {
    let mut p = OtaProgress::begin(1000);
    assert_eq!(p.record_chunk(950), Some(ProgressReport { progress: 95, completed: false }));
    assert_eq!(p.record_chunk(50), Some(ProgressReport { progress: 100, completed: true }));
}

#[test]
fn a_successful_update_switches_the_boot_partition_last() {
    let mut m = OtaMachine::start();
    assert_eq!(m.step(OtaEvent::ConnectOk { content_length: 200 }), OtaCommand::ReadChunk);
    assert_eq!(
        m.step(OtaEvent::ChunkOk { n: 100 }),
        OtaCommand::PublishStatus { progress: 50, completed: false }
    );
    assert!(!m.boot_switched);
    assert_eq!(m.step(OtaEvent::PublishOk), OtaCommand::ReadChunk);
    assert_eq!(
        m.step(OtaEvent::ChunkOk { n: 100 }),
        OtaCommand::PublishStatus { progress: 100, completed: true }
    );
    assert_eq!(m.step(OtaEvent::PublishOk), OtaCommand::Finalize);
    assert!(!m.boot_switched);
    assert_eq!(m.step(OtaEvent::FinalizeOk), OtaCommand::SetBootPartition);
    assert!(!m.boot_switched);
    assert_eq!(m.step(OtaEvent::SetBootOk), OtaCommand::Restart);
    assert!(m.boot_switched);
    assert_eq!(m.phase, OtaPhase::Restarting);
}

#[test]
fn an_empty_image_goes_straight_to_finalize() {
    let mut m = OtaMachine::start();
    assert_eq!(m.step(OtaEvent::ConnectOk { content_length: 0 }), OtaCommand::Finalize);
    assert!(!m.boot_switched);
}

#[test]
fn a_failed_write_reports_failure_and_leaves_the_boot_partition_alone() {
    let mut m = OtaMachine::start();
    m.step(OtaEvent::ConnectOk { content_length: 1000 });
    m.step(OtaEvent::ChunkOk { n: 50 });
    assert_eq!(
        m.step(OtaEvent::ChunkWriteFailed),
        OtaCommand::PublishFailure { progress: 5, failed: OtaFailure::ChunkWrite }
    );
    assert_eq!(m.phase, OtaPhase::PublishingFailure);
    assert_eq!(m.step(OtaEvent::PublishOk), OtaCommand::Abort);
    assert_eq!(m.phase, OtaPhase::Failed);
    assert!(!m.boot_switched);
}

#[test]
fn a_failed_read_reports_failure_and_leaves_the_boot_partition_alone() {
    let mut m = OtaMachine::start();
    m.step(OtaEvent::ConnectOk { content_length: 1000 });
    assert_eq!(
        m.step(OtaEvent::ChunkReadFailed),
        OtaCommand::PublishFailure { progress: 0, failed: OtaFailure::ChunkRead }
    );
    // Even when the failure report itself cannot be published, the update
    // is abandoned with the selector untouched.
    assert_eq!(m.step(OtaEvent::PublishFailed), OtaCommand::Abort);
    assert_eq!(m.phase, OtaPhase::Failed);
    assert!(!m.boot_switched);
}

#[test]
fn failure_messages_name_the_failed_step() {
    assert_eq!(ota_failure_message(OtaFailure::ChunkRead), "failed to read firmware chunk");
    assert_eq!(ota_failure_message(OtaFailure::ChunkWrite), "failed to write firmware chunk");
}

#[test]
fn a_failed_finalize_leaves_the_boot_partition_alone() {
    let mut m = OtaMachine::start();
    m.step(OtaEvent::ConnectOk { content_length: 100 });
    m.step(OtaEvent::ChunkOk { n: 100 });
    m.step(OtaEvent::PublishOk);
    assert_eq!(m.step(OtaEvent::FinalizeFailed), OtaCommand::Abort);
    assert_eq!(m.phase, OtaPhase::Failed);
    assert!(!m.boot_switched);
}

#[test]
fn a_failed_boot_switch_leaves_the_selector_alone() {
    let mut m = OtaMachine::start();
    m.step(OtaEvent::ConnectOk { content_length: 100 });
    m.step(OtaEvent::ChunkOk { n: 100 });
    m.step(OtaEvent::PublishOk);
    m.step(OtaEvent::FinalizeOk);
    assert_eq!(m.step(OtaEvent::SetBootFailed), OtaCommand::Abort);
    assert_eq!(m.phase, OtaPhase::Failed);
    assert!(!m.boot_switched);
}

#[test]
fn a_failed_connect_aborts_before_anything_is_written() {
    let mut m = OtaMachine::start();
    assert_eq!(m.step(OtaEvent::ConnectFailed), OtaCommand::Abort);
    assert_eq!(m.phase, OtaPhase::Failed);
    assert!(!m.boot_switched);
}

#[test]
fn a_failed_status_publish_aborts_the_update() {
    let mut m = OtaMachine::start();
    m.step(OtaEvent::ConnectOk { content_length: 1000 });
    m.step(OtaEvent::ChunkOk { n: 100 });
    assert_eq!(m.step(OtaEvent::PublishFailed), OtaCommand::Abort);
    assert_eq!(m.phase, OtaPhase::Failed);
    assert!(!m.boot_switched);
}

#[test]
fn an_overlong_read_is_refused() {
    let mut m = OtaMachine::start();
    m.step(OtaEvent::ConnectOk { content_length: 100 });
    assert_eq!(m.step(OtaEvent::ChunkOk { n: 101 }), OtaCommand::Abort);
    assert_eq!(m.phase, OtaPhase::Failed);
    assert!(!m.boot_switched);
}
