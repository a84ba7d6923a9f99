//! The over-the-air firmware update: the job carried by the reserved
//! `update_firmware` action, the decile-based progress reporting, and the
//! state machine a download runs through.
//!
//! The embedding program performs each ordered step — the HTTPS read, the
//! flash write, the finalize, the boot-partition switch, the restart — and
//! feeds the outcome back as an event. The machine decides everything else,
//! and it orders the boot-partition switch only after a successful finalize:
//! any failure before that leaves the boot selector untouched, so the device
//! still boots its current firmware. A read or write that fails mid-download
//! has one final `Failed` status report ordered, with the progress so far
//! and an error string naming the failed step, before the update is
//! abandoned.

use crate::action::Action;
use crate::json::{obj_get, obj_lookup, parse_json, spec_parse_json, Json};
use vstd::utf8::encode_utf8;
use vstd::arithmetic::div_mod::{lemma_div_is_ordered, lemma_div_multiples_vanish};
use vstd::arithmetic::mul::lemma_mul_inequality;
use vstd::prelude::*;
use vstd::string::StringSliceAdditionalSpecFns;

verus! {

// ---------------------------------------------------------------------------
// The job
// ---------------------------------------------------------------------------

/// A firmware update job, parsed from the action's payload: where to fetch
/// the image, which version it is, and an advisory content length (the
/// download sizes itself by the response headers, not by this field).
pub struct OtaJob {
    pub url: String,
    pub version: String,
    pub status: bool,
    pub content_length: u64,
}

/// The mathematical value of an [`OtaJob`].
pub struct OtaJobView {
    pub url: Seq<char>,
    pub version: Seq<char>,
    pub status: bool,
    pub content_length: u64,
}

impl View for OtaJob {
    type V = OtaJobView;

    open spec fn view(&self) -> OtaJobView {
        OtaJobView {
            url: self.url@,
            version: self.version@,
            status: self.status,
            content_length: self.content_length,
        }
    }
}

/// The job carried by a decoded payload document, if any: an object whose
/// `url` and `version` are strings, whose `status` is a boolean and whose
/// `content-length` is an unsigned 64-bit integer.
pub open spec fn spec_ota_job_of(j: Json) -> Option<OtaJobView> {
    match j {
        Json::Obj(entries) => match (
            obj_lookup(entries@, "url"@),
            obj_lookup(entries@, "version"@),
            obj_lookup(entries@, "status"@),
            obj_lookup(entries@, "content-length"@),
        ) {
            (
                Some(Json::Str(url)),
                Some(Json::Str(version)),
                Some(Json::Bool(status)),
                Some(Json::UInt(content_length)),
            ) => Some(
                OtaJobView { url: url@, version: version@, status, content_length },
            ),
            _ => None,
        },
        _ => None,
    }
}

/// Decodes a firmware update job from an action's payload. Succeeds exactly
/// on one complete JSON document of the job's shape; on anything else the
/// update is aborted before it starts, and no status is published for it.
pub fn ota_job_from_payload(payload: &str) -> (r: Option<OtaJob>)
    ensures
        match spec_parse_json(payload.spec_bytes()) {
            Some(j) => match r {
                Some(job) => spec_ota_job_of(j) == Some(job@),
                None => spec_ota_job_of(j) is None,
            },
            None => r is None,
        },
{
    let j = match parse_json(payload.as_bytes()) {
        Some(j) => j,
        None => {
            return None;
        },
    };
    let entries = match &j {
        Json::Obj(entries) => entries,
        _ => {
            return None;
        },
    };
    let url = match obj_get(entries, "url") {
        Some(Json::Str(s)) => s.clone(),
        _ => {
            return None;
        },
    };
    let version = match obj_get(entries, "version") {
        Some(Json::Str(s)) => s.clone(),
        _ => {
            return None;
        },
    };
    let status = match obj_get(entries, "status") {
        Some(Json::Bool(b)) => *b,
        _ => {
            return None;
        },
    };
    let content_length = match obj_get(entries, "content-length") {
        Some(Json::UInt(n)) => *n,
        _ => {
            return None;
        },
    };
    Some(OtaJob { url, version, status, content_length })
}

/// The update job one action carries, if any: the action must have a
/// payload, and the payload must decode as a job. On a missing payload or a
/// payload of any other shape there is no job — the handler returns without
/// an update and without a published status.
pub fn ota_job_of_action(action: &Action) -> (r: Option<OtaJob>)
    ensures
        match action@.payload {
            None => r is None,
            Some(payload) => match spec_parse_json(encode_utf8(payload)) {
                Some(j) => match r {
                    Some(job) => spec_ota_job_of(j) == Some(job@),
                    None => spec_ota_job_of(j) is None,
                },
                None => r is None,
            },
        },
{
    match &action.payload {
        None => None,
        Some(payload) => ota_job_from_payload(payload.as_str()),
    }
}

// ---------------------------------------------------------------------------
// Progress reporting
// ---------------------------------------------------------------------------

/// One status report ordered by the download: the percentage read, and
/// whether the image is now complete (the report to send as `Completed`
/// rather than `Progress`).
#[derive(Clone, Copy, PartialEq, Eq, Debug)]
pub struct ProgressReport {
    pub progress: u32,
    pub completed: bool,
}

/// The running tally of one download: how much the response announced, how
/// much has been read and written, and the next decile threshold a report is
/// owed at.
#[derive(Clone, Copy, PartialEq, Eq, Debug)]
pub struct OtaProgress {
    pub content_length: u64,
    pub total_read: u64,
    pub next_decile: u64,
}

impl OtaProgress {
    /// A sound tally: something to download, no more read than announced,
    /// and the threshold counter between its starting value and one past
    /// its last (a report fires only at thresholds one through ten).
    pub open spec fn wf(self) -> bool {
        &&& self.content_length > 0
        &&& self.total_read <= self.content_length
        &&& 1 <= self.next_decile <= 11
    }

    /// A fresh tally for a download of `content_length` bytes.
    pub fn begin(content_length: u64) -> (r: OtaProgress)
        requires
            content_length > 0,
        ensures
            r == (OtaProgress { content_length, total_read: 0, next_decile: 1 }),
            r.wf(),
    {
        OtaProgress { content_length, total_read: 0, next_decile: 1 }
    }

    /// Counts one chunk of `n` bytes read and written, and says whether a
    /// status report is owed: exactly when the tally reaches the next
    /// decile threshold. Each report moves the threshold on by one, so a
    /// download orders at most ten reports however many chunks it takes.
    pub fn record_chunk(&mut self, n: u64) -> (r: Option<ProgressReport>)
        requires
            old(self).wf(),
            old(self).total_read + n <= old(self).content_length,
        ensures
            *final(self) == spec_after_chunk(*old(self), n),
            r == spec_chunk_report(*old(self), n),
            final(self).wf(),
            r is Some ==> old(self).next_decile <= 10 && final(self).next_decile == old(
                self,
            ).next_decile + 1,
            r is None ==> final(self).next_decile == old(self).next_decile,
    {
        proof {
            lemma_mul_inequality(
                old(self).next_decile as int,
                11,
                old(self).content_length as int,
            );
        }
        self.total_read = self.total_read + n;
        let crossed = 10u128 * (self.total_read as u128) >= (self.next_decile as u128) * (
        self.content_length as u128);
        if crossed {
            proof {
                if old(self).next_decile > 10 {
                    lemma_mul_inequality(
                        11,
                        old(self).next_decile as int,
                        old(self).content_length as int,
                    );
                    assert(false);
                }
                lemma_div_is_ordered(
                    100 * self.total_read as int,
                    self.content_length as int * 100,
                    self.content_length as int,
                );
                lemma_div_multiples_vanish(100, self.content_length as int);
            }
            let progress = ((100u128 * (self.total_read as u128)) / (self.content_length
                as u128)) as u32;
            let completed = self.total_read == self.content_length;
            self.next_decile = self.next_decile + 1;
            Some(ProgressReport { progress, completed })
        } else {
            None
        }
    }
}

/// Whether a chunk of `n` more bytes reaches the next decile threshold:
/// when ten times the new tally reaches the threshold's multiple of the
/// content length — that is, when the percentage read reaches ten times the
/// threshold counter.
pub open spec fn spec_crossed(p: OtaProgress, n: u64) -> bool {
    10 * (p.total_read + n) >= p.next_decile * p.content_length
}

/// The tally after a chunk of `n` bytes.
pub open spec fn spec_after_chunk(p: OtaProgress, n: u64) -> OtaProgress
    recommends
        p.total_read + n <= p.content_length,
{
    OtaProgress {
        content_length: p.content_length,
        total_read: (p.total_read + n) as u64,
        next_decile: if spec_crossed(p, n) {
            (p.next_decile + 1) as u64
        } else {
            p.next_decile
        },
    }
}

/// The report a chunk of `n` bytes orders, if any: fired exactly on a
/// crossed threshold, carrying the whole percentage read, and complete
/// exactly when every announced byte has arrived.
pub open spec fn spec_chunk_report(p: OtaProgress, n: u64) -> Option<ProgressReport> {
    if spec_crossed(p, n) {
        Some(
            ProgressReport {
                progress: (100 * (p.total_read + n) / (p.content_length as int)) as u32,
                completed: p.total_read + n == p.content_length,
            },
        )
    } else {
        None
    }
}

// ---------------------------------------------------------------------------
// The update state machine
// ---------------------------------------------------------------------------

/// Where one update stands.
#[derive(Clone, Copy, PartialEq, Eq, Debug)]
pub enum OtaPhase {
    /// Opening the HTTPS request and the flash write.
    Connecting,
    /// Reading chunks and writing them to the inactive partition.
    Downloading,
    /// A status report has been ordered and its outcome is awaited.
    Publishing,
    /// A read or write failed mid-download; the final `Failed` report has
    /// been ordered and the update is abandoned on its outcome, whatever
    /// that outcome is.
    PublishingFailure,
    /// Every announced byte is written; the image is being validated.
    Finalizing,
    /// The validated image is being marked as the next boot target.
    SettingBootPartition,
    /// The boot partition is switched; the device is about to restart.
    Restarting,
    /// The update is over without a new image; the boot selector is as it
    /// was, and the device keeps its current firmware.
    Failed,
}

/// The outcome of the step the machine last ordered.
#[derive(Clone, Copy, PartialEq, Eq, Debug)]
pub enum OtaEvent {
    /// The HTTPS request and the flash write are open; the response headers
    /// announced this many bytes.
    ConnectOk { content_length: u64 },
    ConnectFailed,
    /// One chunk of `n` bytes was read and written.
    ChunkOk { n: u64 },
    ChunkReadFailed,
    ChunkWriteFailed,
    PublishOk,
    PublishFailed,
    FinalizeOk,
    FinalizeFailed,
    SetBootOk,
    SetBootFailed,
}

/// Which download step failed, for the final report's error string.
#[derive(Clone, Copy, PartialEq, Eq, Debug)]
pub enum OtaFailure {
    ChunkRead,
    ChunkWrite,
}

/// What the machine orders next.
#[derive(Clone, Copy, PartialEq, Eq, Debug)]
pub enum OtaCommand {
    /// Read the next chunk and write it to the partition.
    ReadChunk,
    /// Publish a status report for the update's action.
    PublishStatus { progress: u32, completed: bool },
    /// Publish the final `Failed` report for the update's action: the
    /// progress so far, and the error string for the failed step.
    PublishFailure { progress: u32, failed: OtaFailure },
    /// Close the download and validate the written image.
    Finalize,
    /// Mark the written partition as the next boot target.
    SetBootPartition,
    /// Restart the device onto the new firmware.
    Restart,
    /// Abandon the update: close what is open, change nothing else.
    Abort,
}

/// One update run: its phase, its download tally, and whether the boot
/// partition selector has been moved.
#[derive(Clone, Copy, PartialEq, Eq, Debug)]
pub struct OtaMachine {
    pub phase: OtaPhase,
    pub progress: OtaProgress,
    pub boot_switched: bool,
}

impl OtaMachine {
    /// What holds of every reachable state: the boot selector is moved only
    /// in the one phase after everything succeeded, and mid-download the
    /// tally is sound with reports still owed.
    pub open spec fn inv(self) -> bool {
        &&& (self.boot_switched ==> self.phase is Restarting)
        &&& (self.phase is Downloading ==> self.progress.wf() && self.progress.total_read
            < self.progress.content_length && self.progress.next_decile <= 10)
        &&& (self.phase is Publishing ==> self.progress.wf() && (self.progress.total_read
            < self.progress.content_length ==> self.progress.next_decile <= 10))
    }

    /// A fresh machine for one update: connecting, nothing read, the boot
    /// selector untouched.
    pub fn start() -> (r: OtaMachine)
        ensures
            r == (OtaMachine {
                phase: OtaPhase::Connecting,
                progress: OtaProgress { content_length: 0, total_read: 0, next_decile: 1 },
                boot_switched: false,
            }),
            r.inv(),
    {
        OtaMachine {
            phase: OtaPhase::Connecting,
            progress: OtaProgress { content_length: 0, total_read: 0, next_decile: 1 },
            boot_switched: false,
        }
    }

    /// Feeds one outcome in and orders the next step, exactly as
    /// [`spec_ota_step`] says. The boot selector is recorded as moved only
    /// on the success of the boot-partition switch itself.
    pub fn step(&mut self, ev: OtaEvent) -> (cmd: OtaCommand)
        requires
            old(self).inv(),
        ensures
            *final(self) == spec_ota_step(*old(self), ev).0,
            cmd == spec_ota_step(*old(self), ev).1,
            final(self).inv(),
            final(self).boot_switched != old(self).boot_switched ==> old(
                self,
            ).phase is SettingBootPartition && ev is SetBootOk && final(self).boot_switched,
    {
        match (self.phase, ev) {
            (OtaPhase::Connecting, OtaEvent::ConnectOk { content_length }) => {
                if content_length == 0 {
                    self.phase = OtaPhase::Finalizing;
                    OtaCommand::Finalize
                } else {
                    self.phase = OtaPhase::Downloading;
                    self.progress = OtaProgress::begin(content_length);
                    OtaCommand::ReadChunk
                }
            },
            (OtaPhase::Downloading, OtaEvent::ChunkOk { n }) => {
                if n > self.progress.content_length - self.progress.total_read {
                    self.phase = OtaPhase::Failed;
                    OtaCommand::Abort
                } else {
                    proof {
                        lemma_chunk_keeps_inv(self.progress, n);
                    }
                    match self.progress.record_chunk(n) {
                        Some(report) => {
                            self.phase = OtaPhase::Publishing;
                            OtaCommand::PublishStatus {
                                progress: report.progress,
                                completed: report.completed,
                            }
                        },
                        None => OtaCommand::ReadChunk,
                    }
                }
            },
            (OtaPhase::Downloading, OtaEvent::ChunkReadFailed) => {
                let progress = failure_progress(&self.progress);
                self.phase = OtaPhase::PublishingFailure;
                OtaCommand::PublishFailure { progress, failed: OtaFailure::ChunkRead }
            },
            (OtaPhase::Downloading, OtaEvent::ChunkWriteFailed) => {
                let progress = failure_progress(&self.progress);
                self.phase = OtaPhase::PublishingFailure;
                OtaCommand::PublishFailure { progress, failed: OtaFailure::ChunkWrite }
            },
            (OtaPhase::PublishingFailure, _) => {
                self.phase = OtaPhase::Failed;
                OtaCommand::Abort
            },
            (OtaPhase::Publishing, OtaEvent::PublishOk) => {
                if self.progress.total_read == self.progress.content_length {
                    self.phase = OtaPhase::Finalizing;
                    OtaCommand::Finalize
                } else {
                    self.phase = OtaPhase::Downloading;
                    OtaCommand::ReadChunk
                }
            },
            (OtaPhase::Finalizing, OtaEvent::FinalizeOk) => {
                self.phase = OtaPhase::SettingBootPartition;
                OtaCommand::SetBootPartition
            },
            (OtaPhase::SettingBootPartition, OtaEvent::SetBootOk) => {
                self.phase = OtaPhase::Restarting;
                self.boot_switched = true;
                OtaCommand::Restart
            },
            (OtaPhase::Restarting, _) => OtaCommand::Restart,
            _ => {
                self.phase = OtaPhase::Failed;
                OtaCommand::Abort
            },
        }
    }
}

/// The whole percentage a tally stands at.
pub open spec fn spec_failure_progress(p: OtaProgress) -> u32
    recommends
        p.wf(),
{
    (100 * p.total_read / (p.content_length as int)) as u32
}

/// The transition relation of the update: from a state and an outcome to
/// the next state and the next order. A chunk read or write that fails
/// mid-download first has the final `Failed` report ordered; every other
/// failure outcome — and any outcome the phase does not await — abandons
/// the update directly, and once the restart is ordered nothing moves the
/// machine again.
pub open spec fn spec_ota_step(m: OtaMachine, ev: OtaEvent) -> (OtaMachine, OtaCommand) {
    match (m.phase, ev) {
        (OtaPhase::Connecting, OtaEvent::ConnectOk { content_length }) => {
            if content_length == 0 {
                (OtaMachine { phase: OtaPhase::Finalizing, ..m }, OtaCommand::Finalize)
            } else {
                (
                    OtaMachine {
                        phase: OtaPhase::Downloading,
                        progress: OtaProgress { content_length, total_read: 0, next_decile: 1 },
                        boot_switched: m.boot_switched,
                    },
                    OtaCommand::ReadChunk,
                )
            }
        },
        (OtaPhase::Downloading, OtaEvent::ChunkOk { n }) => {
            if m.progress.total_read + n > m.progress.content_length {
                (OtaMachine { phase: OtaPhase::Failed, ..m }, OtaCommand::Abort)
            } else {
                match spec_chunk_report(m.progress, n) {
                    Some(report) => (
                        OtaMachine {
                            phase: OtaPhase::Publishing,
                            progress: spec_after_chunk(m.progress, n),
                            boot_switched: m.boot_switched,
                        },
                        OtaCommand::PublishStatus {
                            progress: report.progress,
                            completed: report.completed,
                        },
                    ),
                    None => (
                        OtaMachine {
                            phase: OtaPhase::Downloading,
                            progress: spec_after_chunk(m.progress, n),
                            boot_switched: m.boot_switched,
                        },
                        OtaCommand::ReadChunk,
                    ),
                }
            }
        },
        (OtaPhase::Downloading, OtaEvent::ChunkReadFailed) => (
            OtaMachine { phase: OtaPhase::PublishingFailure, ..m },
            OtaCommand::PublishFailure {
                progress: spec_failure_progress(m.progress),
                failed: OtaFailure::ChunkRead,
            },
        ),
        (OtaPhase::Downloading, OtaEvent::ChunkWriteFailed) => (
            OtaMachine { phase: OtaPhase::PublishingFailure, ..m },
            OtaCommand::PublishFailure {
                progress: spec_failure_progress(m.progress),
                failed: OtaFailure::ChunkWrite,
            },
        ),
        (OtaPhase::PublishingFailure, _) => (
            OtaMachine { phase: OtaPhase::Failed, ..m },
            OtaCommand::Abort,
        ),
        (OtaPhase::Publishing, OtaEvent::PublishOk) => {
            if m.progress.total_read == m.progress.content_length {
                (OtaMachine { phase: OtaPhase::Finalizing, ..m }, OtaCommand::Finalize)
            } else {
                (OtaMachine { phase: OtaPhase::Downloading, ..m }, OtaCommand::ReadChunk)
            }
        },
        (OtaPhase::Finalizing, OtaEvent::FinalizeOk) => (
            OtaMachine { phase: OtaPhase::SettingBootPartition, ..m },
            OtaCommand::SetBootPartition,
        ),
        (OtaPhase::SettingBootPartition, OtaEvent::SetBootOk) => (
            OtaMachine { phase: OtaPhase::Restarting, boot_switched: true, ..m },
            OtaCommand::Restart,
        ),
        (OtaPhase::Restarting, _) => (m, OtaCommand::Restart),
        _ => (OtaMachine { phase: OtaPhase::Failed, ..m }, OtaCommand::Abort),
    }
}

/// A chunk that fits keeps the download's invariant: the tally stays sound;
/// without a report the download is still short of the image and of the
/// last threshold, and with one the moved threshold is still in range
/// whenever more is left to read.
proof fn lemma_chunk_keeps_inv(p: OtaProgress, n: u64)
    requires
        p.wf(),
        p.total_read < p.content_length,
        p.next_decile <= 10,
        p.total_read + n <= p.content_length,
    ensures
        spec_after_chunk(p, n).wf(),
        spec_chunk_report(p, n) is None ==> p.total_read + n < p.content_length
            && spec_after_chunk(p, n).next_decile <= 10,
        spec_chunk_report(p, n) is Some && p.total_read + n < p.content_length ==> spec_after_chunk(
            p,
            n,
        ).next_decile <= 10,
{
    let len = p.content_length as int;
    let t2 = p.total_read + n;
    let nd = p.next_decile as int;
    assert(spec_crossed(p, n) == (10 * t2 >= nd * len));
    if !spec_crossed(p, n) {
        if t2 == len {
            assert(10 * t2 >= nd * len) by (nonlinear_arith)
                requires
                    t2 == len,
                    1 <= nd <= 10,
                    len > 0,
            ;
            assert(false);
        }
    } else {
        if t2 < len && nd >= 10 {
            assert(10 * t2 < nd * len) by (nonlinear_arith)
                requires
                    t2 < len,
                    nd >= 10,
                    len > 0,
            ;
            assert(false);
        }
    }
}

/// Law: the boot partition selector moves only on the one success outcome
/// of the boot-switch step, which is reached only after a fully verified
/// write. On every failure outcome — a failed connect, read, write, status
/// publish, finalize or boot switch — the selector is left exactly as it
/// was, and before the switch has succeeded no such outcome ever has the
/// switch or a restart ordered.
pub proof fn lemma_boot_partition_safety(pre: OtaMachine, ev: OtaEvent)
    requires
        pre.inv(),
    ensures
        spec_ota_step(pre, ev).0.boot_switched != pre.boot_switched ==> (
        pre.phase is SettingBootPartition && ev is SetBootOk),
        (ev is ConnectFailed || ev is ChunkReadFailed || ev is ChunkWriteFailed
            || ev is PublishFailed || ev is FinalizeFailed || ev is SetBootFailed)
            ==> spec_ota_step(pre, ev).0.boot_switched == pre.boot_switched,
        (ev is ConnectFailed || ev is ChunkReadFailed || ev is ChunkWriteFailed
            || ev is PublishFailed || ev is FinalizeFailed || ev is SetBootFailed) && !(
        pre.phase is Restarting) ==> !(spec_ota_step(pre, ev).1 is SetBootPartition) && !(
        spec_ota_step(pre, ev).1 is Restart),
        !pre.boot_switched && !(pre.phase is SettingBootPartition) ==> !spec_ota_step(
            pre,
            ev,
        ).0.boot_switched,
{
}

/// Law: a chunk read or write that fails mid-download has exactly one final
/// `Failed` report ordered — the progress so far and the failed step — and
/// the very next outcome, whatever it is, abandons the update with the boot
/// selector untouched.
pub proof fn lemma_failure_is_reported(pre: OtaMachine, ev: OtaEvent, outcome: OtaEvent)
    requires
        pre.inv(),
        pre.phase is Downloading,
        ev is ChunkReadFailed || ev is ChunkWriteFailed,
    ensures
        ({
            let (mid, cmd) = spec_ota_step(pre, ev);
            &&& cmd == (OtaCommand::PublishFailure {
                progress: spec_failure_progress(pre.progress),
                failed: if ev is ChunkReadFailed {
                    OtaFailure::ChunkRead
                } else {
                    OtaFailure::ChunkWrite
                },
            })
            &&& mid.phase is PublishingFailure
            &&& spec_ota_step(mid, outcome).0.phase is Failed
            &&& spec_ota_step(mid, outcome).1 is Abort
            &&& !spec_ota_step(mid, outcome).0.boot_switched
        }),
{
}

/// Law: over a download read in equal chunks of one tenth of the image,
/// every chunk yields exactly one report — at ten, twenty, …, one hundred
/// percent read, the last one complete — and each report moves the
/// threshold counter on by exactly one, so none of the ten deciles is
/// reported twice.
pub proof fn lemma_tenth_chunks_report_each_decile(chunk: u64, k: u64)
    requires
        chunk > 0,
        10 * chunk <= u64::MAX,
        1 <= k <= 10,
    ensures
        ({
            let pre = OtaProgress {
                content_length: (10 * chunk) as u64,
                total_read: ((k - 1) * chunk) as u64,
                next_decile: k,
            };
            &&& pre.wf()
            &&& spec_chunk_report(pre, chunk) == Some(
                ProgressReport { progress: (10 * k) as u32, completed: k == 10 },
            )
            &&& spec_after_chunk(pre, chunk).next_decile == k + 1
        }),
{
    let len = 10 * chunk;
    let read = (k - 1) * chunk + chunk;
    assert((k - 1) * chunk + chunk == k * chunk) by (nonlinear_arith);
    assert((k - 1) * chunk <= 9 * chunk) by (nonlinear_arith)
        requires
            1 <= k <= 10,
            chunk > 0,
    ;
    assert(k * chunk <= 10 * chunk) by (nonlinear_arith)
        requires
            k <= 10,
            chunk > 0,
    ;
    assert(10 * (k * chunk) == k * (10 * chunk)) by (nonlinear_arith);
    assert(100 * (k * chunk) == (10 * chunk) * (10 * k)) by (nonlinear_arith);
    lemma_div_multiples_vanish(10 * k, 10 * chunk);
    assert(k * chunk == 10 * chunk <==> k == 10) by (nonlinear_arith)
        requires
            chunk > 0,
            1 <= k <= 10,
    ;
    assert(read == k * chunk);
}

/// The whole percentage a tally stands at, for the final report of a
/// failed download.
fn failure_progress(p: &OtaProgress) -> (r: u32)
    requires
        p.wf(),
    ensures
        r == spec_failure_progress(*p),
{
    proof {
        lemma_div_is_ordered(
            100 * p.total_read as int,
            p.content_length as int * 100,
            p.content_length as int,
        );
        lemma_div_multiples_vanish(100, p.content_length as int);
    }
    ((100u128 * (p.total_read as u128)) / (p.content_length as u128)) as u32
}

/// The error string the final report of a failed download carries.
pub fn ota_failure_message(failed: OtaFailure) -> (r: &'static str)
    ensures
        failed is ChunkRead ==> r@ == "failed to read firmware chunk"@,
        failed is ChunkWrite ==> r@ == "failed to write firmware chunk"@,
{
    match failed {
        OtaFailure::ChunkRead => "failed to read firmware chunk",
        OtaFailure::ChunkWrite => "failed to write firmware chunk",
    }
}

/// The state label of the final report of a failed update.
pub fn failed_state_label() -> (r: &'static str)
    ensures
        r@ == "Failed"@,
{
    "Failed"
}

/// The state label a progress report is published under.
pub fn progress_state_label(completed: bool) -> (r: &'static str)
    ensures
        completed ==> r@ == "Completed"@,
        !completed ==> r@ == "Progress"@,
{
    if completed {
        "Completed"
    } else {
        "Progress"
    }
}

} // verus!
