use vstd::prelude::*;

use crate::checkpoint::{filter_manifest, filter_spec, CheckpointRecord};
use crate::manifest::{entries_view, parse_manifest, parse_manifest_spec, ManifestEntry};
use crate::messages::{
    build_archive_patch_failed, build_fetch_failed, build_invalid_file_name,
    build_package_unreadable, build_patch_not_found, build_patcher_name_unresolved,
    build_temp_file_failed, build_transfer_failed, build_tree_patch_failed, msg_archive_patch_failed,
    msg_fetch_failed, msg_invalid_file_name, msg_package_unreadable, msg_patch_not_found,
    msg_patcher_name_unresolved, msg_temp_file_failed, msg_transfer_failed, msg_tree_patch_failed,
};
use crate::status::{Command, Outcome, StatusEvent};

verus! {

/// Where the engine stands within a run. The phases follow the fixed order
/// fetch, checkpoint load, download, apply; the three apply sub-phases make
/// the between-steps cancellation poll and the package inspection explicit.
pub enum Phase {
    Idle,
    Fetching,
    LoadingCheckpoint,
    Downloading,
    ApplyPolling,
    ApplyOpening,
    ApplyRunning,
    Terminal,
}

/// What the embedding program read from an opened package's header.
pub struct PackageInfo {
    /// The package asks to be merged into a packed resource archive rather
    /// than extracted onto the working directory's file tree.
    pub targets_archive: bool,
    /// The archive name the package declares; empty when it declares none.
    pub declared_archive_name: String,
}

/// Where and how the current package is to be applied.
pub enum ApplyTarget {
    /// Merge into the named archive, mutating it in place or building a
    /// replacement and swapping it in.
    Archive { name: String, in_place: bool },
    /// Extract the package's entries onto the working directory's file tree.
    FileTree,
}

/// Result of retrieving the manifest, as the embedding program saw it.
pub enum FetchOutcome {
    /// Transport succeeded with a success status; the response body.
    Body(String),
    /// The request itself failed; the transport's description.
    TransportFailed(String),
    /// The server answered with a non-success status.
    NotFound,
    /// The response body could not be read as text.
    InvalidBody,
}

/// Result of reading the persisted checkpoint.
pub enum CheckpointLoad {
    /// The checkpoint file's path could not even be resolved.
    PathUnresolved,
    /// The file was read (or was absent/corrupt, which reads as `None`).
    Loaded(Option<CheckpointRecord>),
}

/// Result of downloading one pending entry, racing the cancellation source.
pub enum DownloadOutcome {
    /// The payload is fully downloaded, flushed and rewound to offset 0.
    Completed,
    /// The cancellation source won the race; the partial download is gone.
    Cancelled,
    /// No scoped temporary storage could be opened; the I/O description.
    TempFileFailed(String),
    /// The entry's file name does not resolve against the patch base URL.
    InvalidFileName,
    /// The server answered with a non-success status for this file.
    NotFound,
    /// The transfer failed midway; the transport's description.
    TransferFailed(String),
}

/// What to do while idle: keep waiting, begin the run, or end the routine
/// because the command channel closed.
pub enum IdleStep {
    Wait,
    Begin,
    Exit,
}

pub open spec fn failed_with(o: Option<Outcome>, m: Seq<char>) -> bool {
    match o {
        Option::Some(Outcome::Failed(s)) => s@ == m,
        _ => false,
    }
}

pub open spec fn is_download_progress(r: Option<StatusEvent>, done: int, total: int) -> bool {
    match r {
        Option::Some(StatusEvent::DownloadProgress(d, t)) => d == done && t == total,
        _ => false,
    }
}

pub open spec fn is_apply_progress(r: Option<StatusEvent>, done: int, total: int) -> bool {
    match r {
        Option::Some(StatusEvent::ApplyProgress(d, t)) => d == done && t == total,
        _ => false,
    }
}

/// `t` is the target the configuration and the package header select: the
/// declared archive name when one is given, the configured default name
/// otherwise, under the configured merge strategy — or the plain file tree
/// for a package that does not target an archive.
pub open spec fn target_for(
    info: PackageInfo,
    default_name: Seq<char>,
    in_place: bool,
    t: ApplyTarget,
) -> bool {
    match t {
        ApplyTarget::Archive { name, in_place: ip } => info.targets_archive && ip == in_place
            && name@ == if info.declared_archive_name@.len() > 0 {
            info.declared_archive_name@
        } else {
            default_name
        },
        ApplyTarget::FileTree => !info.targets_archive,
    }
}

pub open spec fn target_set(
    o: Option<ApplyTarget>,
    info: PackageInfo,
    default_name: Seq<char>,
    in_place: bool,
) -> bool {
    match o {
        Option::Some(t) => target_for(info, default_name, in_place, t),
        Option::None => false,
    }
}

/// The fatal message an apply failure carries: it names the archive being
/// patched, or the package file being applied to the file tree.
pub open spec fn apply_failure_message(
    t: ApplyTarget,
    entry_name: Seq<char>,
    detail: Seq<char>,
) -> Seq<char> {
    match t {
        ApplyTarget::Archive { name, .. } => msg_archive_patch_failed(name@, detail),
        ApplyTarget::FileTree => msg_tree_patch_failed(entry_name, detail),
    }
}

pub open spec fn status_matches(o: Option<Outcome>, r: Option<StatusEvent>) -> bool {
    match o {
        Option::Some(Outcome::Ready) => r == Option::Some(StatusEvent::Ready),
        Option::Some(Outcome::Cancelled) => r == Option::Some(StatusEvent::Cancelled),
        Option::Some(Outcome::Failed(m)) => match r {
            Option::Some(StatusEvent::Error(m2)) => m2@ == m@,
            _ => false,
        },
        Option::Some(Outcome::ChannelClosed) => r is None,
        Option::None => false,
    }
}

/// The patch orchestration engine for one run.
///
/// The embedding program performs each outside step (receive a command,
/// fetch, read the checkpoint, download one file under a cancellation race,
/// open and apply one package, persist one checkpoint record) and reports
/// its outcome here; the engine decides everything else and hands back the
/// status events to emit. `pending` is the manifest once fetched, filtered
/// in place when the checkpoint loads; `downloaded` and `applied` count how
/// many of its entries each phase has consumed, strictly in order.
pub struct Pipeline {
    pub phase: Phase,
    pub pending: Vec<ManifestEntry>,
    pub downloaded: usize,
    pub applied: usize,
    pub current_target: Option<ApplyTarget>,
    pub last_checkpoint: Option<CheckpointRecord>,
    pub outcome: Option<Outcome>,
    pub in_place: bool,
    pub default_archive_name: String,
}

impl Pipeline {
    pub open spec fn in_apply_phase(self) -> bool {
        self.phase is ApplyPolling || self.phase is ApplyOpening || self.phase is ApplyRunning
    }

    /// Run-wide invariant: phases never interleave (the apply phase only
    /// exists once every pending entry is downloaded), entries are consumed
    /// strictly in order, and the last persisted checkpoint is exactly the
    /// index of the last entry applied so far.
    pub open spec fn wf(self) -> bool {
        &&& self.downloaded <= self.pending@.len()
        &&& self.applied <= self.downloaded
        &&& (self.phase is Idle || self.phase is Fetching ==> self.pending@.len() == 0)
        &&& (self.phase is Idle || self.phase is Fetching || self.phase is LoadingCheckpoint
            ==> self.downloaded == 0 && self.applied == 0)
        &&& (self.phase is Downloading ==> self.applied == 0)
        &&& (self.in_apply_phase() ==> self.downloaded == self.pending@.len() && self.applied
            < self.pending@.len())
        &&& (self.phase is ApplyRunning ==> self.current_target is Some)
        &&& (self.phase is Idle || self.phase is Fetching || self.phase is LoadingCheckpoint
            || self.phase is Downloading ==> self.current_target is None)
        &&& (self.applied > 0 ==> self.last_checkpoint == Option::Some(
            (CheckpointRecord { last_applied_index: self.pending@[self.applied - 1].index }),
        ))
        &&& (self.applied == 0 ==> self.last_checkpoint is None)
        &&& (self.outcome is Some <==> self.phase is Terminal)
        &&& (self.outcome == Option::Some(Outcome::Ready) ==> self.applied == self.pending@.len())
    }

    pub open spec fn same_config(self, other: Pipeline) -> bool {
        self.in_place == other.in_place && self.default_archive_name == other.default_archive_name
    }

    /// A fresh engine, idle until a start command arrives. `in_place` and
    /// `default_archive_name` are the merge-mode configuration.
    pub fn new(in_place: bool, default_archive_name: String) -> (r: Pipeline)
        ensures
            r.wf(),
            r.phase is Idle,
            r.in_place == in_place,
            r.default_archive_name == default_archive_name,
            r.pending@.len() == 0,
            r.downloaded == 0,
            r.applied == 0,
            r.last_checkpoint is None,
            r.outcome is None,
    {
        Pipeline {
            phase: Phase::Idle,
            pending: Vec::new(),
            downloaded: 0,
            applied: 0,
            current_target: Option::None,
            last_checkpoint: Option::None,
            outcome: Option::None,
            in_place,
            default_archive_name,
        }
    }

    fn fail(&mut self, msg: String)
        requires
            old(self).wf(),
        ensures
            final(self).wf(),
            final(self).phase is Terminal,
            final(self).outcome == Option::Some(Outcome::Failed(msg)),
            final(self).pending == old(self).pending,
            final(self).downloaded == old(self).downloaded,
            final(self).applied == old(self).applied,
            final(self).last_checkpoint == old(self).last_checkpoint,
            final(self).current_target == old(self).current_target,
            final(self).same_config(*old(self)),
    {
        self.phase = Phase::Terminal;
        self.outcome = Option::Some(Outcome::Failed(msg));
    }

    /// While idle, every command but `Start` is discarded; `Start` begins
    /// the run; a closed command channel (`None`) ends the routine without
    /// a terminal status report.
    pub fn on_idle_command(&mut self, cmd: Option<Command>) -> (r: IdleStep)
        requires
            old(self).wf(),
            old(self).phase is Idle,
        ensures
            final(self).wf(),
            final(self).same_config(*old(self)),
            final(self).pending@.len() == 0,
            final(self).downloaded == 0,
            final(self).applied == 0,
            final(self).last_checkpoint is None,
            match cmd {
                Option::None => r == IdleStep::Exit && final(self).phase is Terminal && final(self).outcome == Option::Some(Outcome::ChannelClosed),
                Option::Some(Command::Start) => r == IdleStep::Begin && final(self).phase
                    is Fetching && final(self).outcome is None,
                Option::Some(Command::Cancel) => r == IdleStep::Wait && final(self).phase is Idle
                    && final(self).outcome is None,
            },
    {
        match cmd {
            Option::None => {
                self.phase = Phase::Terminal;
                self.outcome = Option::Some(Outcome::ChannelClosed);
                IdleStep::Exit
            },
            Option::Some(Command::Start) => {
                self.phase = Phase::Fetching;
                IdleStep::Begin
            },
            Option::Some(Command::Cancel) => IdleStep::Wait,
        }
    }

    /// Consumes the manifest retrieval's outcome. A body is parsed into the
    /// pending manifest and the run moves on to the checkpoint load (`r` is
    /// true); any transport, status or body failure is fatal before any
    /// download begins (`r` is false).
    pub fn on_manifest(&mut self, outcome: FetchOutcome) -> (r: bool)
        requires
            old(self).wf(),
            old(self).phase is Fetching,
        ensures
            final(self).wf(),
            final(self).same_config(*old(self)),
            final(self).downloaded == 0,
            final(self).applied == 0,
            final(self).last_checkpoint is None,
            match outcome {
                FetchOutcome::Body(body) => r && final(self).phase is LoadingCheckpoint
                    && entries_view(final(self).pending@) == parse_manifest_spec(body@),
                FetchOutcome::TransportFailed(d) => !r && final(self).phase is Terminal
                    && failed_with(final(self).outcome, msg_fetch_failed(d@)),
                FetchOutcome::NotFound => !r && final(self).phase is Terminal && failed_with(
                    final(self).outcome,
                    msg_fetch_failed("patch list file not found on the remote server"@),
                ),
                FetchOutcome::InvalidBody => !r && final(self).phase is Terminal && failed_with(
                    final(self).outcome,
                    msg_fetch_failed("invalid response body"@),
                ),
            },
    {
        match outcome {
            FetchOutcome::Body(body) => {
                self.pending = parse_manifest(body.as_str());
                self.phase = Phase::LoadingCheckpoint;
                true
            },
            FetchOutcome::TransportFailed(d) => {
                let msg = build_fetch_failed(d.as_str());
                self.fail(msg);
                false
            },
            FetchOutcome::NotFound => {
                let msg = build_fetch_failed("patch list file not found on the remote server");
                self.fail(msg);
                false
            },
            FetchOutcome::InvalidBody => {
                let msg = build_fetch_failed("invalid response body");
                self.fail(msg);
                false
            },
        }
    }

    /// Consumes the checkpoint load. A loaded (or absent) record filters the
    /// pending manifest; the download phase then starts with its initial
    /// progress event. An unresolvable checkpoint path is fatal.
    pub fn on_checkpoint(&mut self, load: CheckpointLoad) -> (r: Option<StatusEvent>)
        requires
            old(self).wf(),
            old(self).phase is LoadingCheckpoint,
        ensures
            final(self).wf(),
            final(self).same_config(*old(self)),
            final(self).applied == 0,
            final(self).last_checkpoint is None,
            match load {
                CheckpointLoad::PathUnresolved => r is None && final(self).phase is Terminal
                    && failed_with(final(self).outcome, msg_patcher_name_unresolved())
                    && final(self).pending == old(self).pending,
                CheckpointLoad::Loaded(cp) => final(self).phase is Downloading && final(self).pending@ == filter_spec(old(self).pending@, cp) && final(self).downloaded == 0
                    && is_download_progress(r, 0, final(self).pending@.len() as int),
            },
    {
        match load {
            CheckpointLoad::PathUnresolved => {
                let msg = build_patcher_name_unresolved();
                self.fail(msg);
                Option::None
            },
            CheckpointLoad::Loaded(cp) => {
                self.pending = filter_manifest(&self.pending, &cp);
                self.phase = Phase::Downloading;
                Option::Some(StatusEvent::DownloadProgress(0, self.pending.len()))
            },
        }
    }

    /// True once every pending entry's payload is downloaded.
    pub fn download_complete(&self) -> (r: bool)
        requires
            self.wf(),
            self.phase is Downloading,
        ensures
            r == (self.downloaded == self.pending@.len()),
    {
        self.downloaded == self.pending.len()
    }

    /// The entry to download next.
    pub fn next_download(&self) -> (r: &ManifestEntry)
        requires
            self.wf(),
            self.phase is Downloading,
            self.downloaded < self.pending@.len(),
        ensures
            *r == self.pending@[self.downloaded as int],
    {
        &self.pending[self.downloaded]
    }

    /// Consumes the outcome of downloading the current entry. Success
    /// advances the cursor and reports progress; cancellation ends the run
    /// with the distinguished `Cancelled` outcome; any failure is fatal with
    /// a message naming the entry's file. Nothing is ever applied, and no
    /// checkpoint is ever issued, while this phase runs.
    pub fn on_download_outcome(&mut self, outcome: DownloadOutcome) -> (r: Option<StatusEvent>)
        requires
            old(self).wf(),
            old(self).phase is Downloading,
            old(self).downloaded < old(self).pending@.len(),
        ensures
            final(self).wf(),
            final(self).same_config(*old(self)),
            final(self).pending == old(self).pending,
            final(self).applied == 0,
            final(self).last_checkpoint is None,
            match outcome {
                DownloadOutcome::Completed => final(self).phase is Downloading && final(self).downloaded == old(self).downloaded + 1 && is_download_progress(
                    r,
                    old(self).downloaded + 1,
                    old(self).pending@.len() as int,
                ),
                DownloadOutcome::Cancelled => r is None && final(self).phase is Terminal && final(self).outcome == Option::Some(Outcome::Cancelled) && final(self).downloaded == old(
                    self,
                ).downloaded,
                DownloadOutcome::TempFileFailed(d) => r is None && final(self).phase is Terminal
                    && failed_with(final(self).outcome, msg_temp_file_failed(d@)),
                DownloadOutcome::InvalidFileName => r is None && final(self).phase is Terminal
                    && failed_with(
                    final(self).outcome,
                    msg_invalid_file_name(
                        old(self).pending@[old(self).downloaded as int].file_name@,
                    ),
                ),
                DownloadOutcome::NotFound => r is None && final(self).phase is Terminal
                    && failed_with(
                    final(self).outcome,
                    msg_patch_not_found(
                        old(self).pending@[old(self).downloaded as int].file_name@,
                    ),
                ),
                DownloadOutcome::TransferFailed(d) => r is None && final(self).phase is Terminal
                    && failed_with(
                    final(self).outcome,
                    msg_transfer_failed(
                        old(self).pending@[old(self).downloaded as int].file_name@,
                        d@,
                    ),
                ),
            },
    {
        match outcome {
            DownloadOutcome::Completed => {
                let total = self.pending.len();
                self.downloaded = self.downloaded + 1;
                Option::Some(StatusEvent::DownloadProgress(self.downloaded, total))
            },
            DownloadOutcome::Cancelled => {
                self.phase = Phase::Terminal;
                self.outcome = Option::Some(Outcome::Cancelled);
                Option::None
            },
            DownloadOutcome::TempFileFailed(d) => {
                let msg = build_temp_file_failed(d.as_str());
                self.fail(msg);
                Option::None
            },
            DownloadOutcome::InvalidFileName => {
                let msg = build_invalid_file_name(
                    self.pending[self.downloaded].file_name.as_str(),
                );
                self.fail(msg);
                Option::None
            },
            DownloadOutcome::NotFound => {
                let msg = build_patch_not_found(self.pending[self.downloaded].file_name.as_str());
                self.fail(msg);
                Option::None
            },
            DownloadOutcome::TransferFailed(d) => {
                let msg = build_transfer_failed(
                    self.pending[self.downloaded].file_name.as_str(),
                    d.as_str(),
                );
                self.fail(msg);
                Option::None
            },
        }
    }

    /// Starts the apply phase once every payload is downloaded, reporting
    /// its initial progress event. With nothing pending the run is already
    /// complete and ends `Ready`.
    pub fn begin_apply(&mut self) -> (r: StatusEvent)
        requires
            old(self).wf(),
            old(self).phase is Downloading,
            old(self).downloaded == old(self).pending@.len(),
        ensures
            final(self).wf(),
            final(self).same_config(*old(self)),
            final(self).pending == old(self).pending,
            final(self).downloaded == old(self).downloaded,
            final(self).applied == 0,
            final(self).last_checkpoint is None,
            is_apply_progress(Option::Some(r), 0, old(self).pending@.len() as int),
            old(self).pending@.len() == 0 ==> final(self).phase is Terminal && final(self).outcome
                == Option::Some(Outcome::Ready),
            old(self).pending@.len() > 0 ==> final(self).phase is ApplyPolling && final(self).outcome is None,
    {
        let total = self.pending.len();
        if total == 0 {
            self.phase = Phase::Terminal;
            self.outcome = Option::Some(Outcome::Ready);
        } else {
            self.phase = Phase::ApplyPolling;
        }
        StatusEvent::ApplyProgress(0, total)
    }

    /// The entry whose package is applied next.
    pub fn next_apply(&self) -> (r: &ManifestEntry)
        requires
            self.wf(),
            self.in_apply_phase(),
        ensures
            *r == self.pending@[self.applied as int],
    {
        &self.pending[self.applied]
    }

    /// Consumes the non-blocking cancellation poll made between apply steps.
    /// A signalled cancellation stops the run before the next package is
    /// even opened: everything applied so far stays committed and
    /// checkpointed, and the outcome is the distinguished `Cancelled`.
    pub fn on_cancel_poll(&mut self, cancelled: bool) -> (r: bool)
        requires
            old(self).wf(),
            old(self).phase is ApplyPolling,
        ensures
            final(self).wf(),
            final(self).same_config(*old(self)),
            final(self).pending == old(self).pending,
            final(self).downloaded == old(self).downloaded,
            final(self).applied == old(self).applied,
            final(self).last_checkpoint == old(self).last_checkpoint,
            cancelled ==> !r && final(self).phase is Terminal && final(self).outcome
                == Option::Some(Outcome::Cancelled),
            !cancelled ==> r && final(self).phase is ApplyOpening && final(self).outcome is None,
    {
        if cancelled {
            self.phase = Phase::Terminal;
            self.outcome = Option::Some(Outcome::Cancelled);
            false
        } else {
            self.phase = Phase::ApplyOpening;
            true
        }
    }

    /// Consumes the current package's header. A readable package selects its
    /// apply target (archive merge under the configured strategy, or the
    /// file tree); an unreadable one is fatal, naming the entry's file.
    pub fn on_package_opened(&mut self, header: Result<PackageInfo, String>) -> (r: bool)
        requires
            old(self).wf(),
            old(self).phase is ApplyOpening,
        ensures
            final(self).wf(),
            final(self).same_config(*old(self)),
            final(self).pending == old(self).pending,
            final(self).downloaded == old(self).downloaded,
            final(self).applied == old(self).applied,
            final(self).last_checkpoint == old(self).last_checkpoint,
            match header {
                Result::Ok(info) => r && final(self).phase is ApplyRunning && target_set(
                    final(self).current_target,
                    info,
                    old(self).default_archive_name@,
                    old(self).in_place,
                ),
                Result::Err(d) => !r && final(self).phase is Terminal && failed_with(
                    final(self).outcome,
                    msg_package_unreadable(
                        old(self).pending@[old(self).applied as int].file_name@,
                        d@,
                    ),
                ),
            },
    {
        match header {
            Result::Ok(info) => {
                let target = if info.targets_archive {
                    let name = if info.declared_archive_name.as_str().is_empty() {
                        self.default_archive_name.clone()
                    } else {
                        info.declared_archive_name
                    };
                    ApplyTarget::Archive { name, in_place: self.in_place }
                } else {
                    ApplyTarget::FileTree
                };
                self.current_target = Option::Some(target);
                self.phase = Phase::ApplyRunning;
                true
            },
            Result::Err(d) => {
                let msg = build_package_unreadable(
                    self.pending[self.applied].file_name.as_str(),
                    d.as_str(),
                );
                self.fail(msg);
                false
            },
        }
    }

    /// The target selected for the package being applied.
    pub fn apply_target(&self) -> (r: &Option<ApplyTarget>)
        ensures
            r == &self.current_target,
    {
        &self.current_target
    }

    /// Consumes the outcome of applying the current package. Success yields
    /// the checkpoint record to persist — exactly this entry's index — and
    /// the progress event to emit, then the run polls for cancellation again
    /// or, after the last entry, ends `Ready`. Failure is fatal, naming the
    /// archive or package; everything applied before stays committed and
    /// checkpointed, and nothing further is attempted.
    pub fn on_apply_result(&mut self, result: Result<(), String>) -> (r: Option<
        (CheckpointRecord, StatusEvent),
    >)
        requires
            old(self).wf(),
            old(self).phase is ApplyRunning,
        ensures
            final(self).wf(),
            final(self).same_config(*old(self)),
            final(self).pending == old(self).pending,
            final(self).downloaded == old(self).downloaded,
            match result {
                Result::Ok(u) => final(self).applied == old(self).applied + 1 && final(self).last_checkpoint == Option::Some(
                    (CheckpointRecord {
                        last_applied_index: old(self).pending@[old(self).applied as int].index,
                    }),
                ) && (match r {
                    Option::Some((rec, ev)) => Option::Some(rec) == final(self).last_checkpoint
                        && is_apply_progress(
                        Option::Some(ev),
                        old(self).applied + 1,
                        old(self).pending@.len() as int,
                    ),
                    Option::None => false,
                }) && (old(self).applied + 1 == old(self).pending@.len() ==> final(self).phase
                    is Terminal && final(self).outcome == Option::Some(Outcome::Ready)) && (old(
                    self,
                ).applied + 1 < old(self).pending@.len() ==> final(self).phase is ApplyPolling
                    && final(self).outcome is None),
                Result::Err(d) => r is None && final(self).applied == old(self).applied && final(self).last_checkpoint == old(self).last_checkpoint && final(self).phase is Terminal
                    && (match old(self).current_target {
                    Option::Some(t) => failed_with(
                        final(self).outcome,
                        apply_failure_message(
                            t,
                            old(self).pending@[old(self).applied as int].file_name@,
                            d@,
                        ),
                    ),
                    Option::None => false,
                }),
            },
    {
        match result {
            Result::Ok(_u) => {
                let entry_index = self.pending[self.applied].index;
                self.applied = self.applied + 1;
                let rec = CheckpointRecord { last_applied_index: entry_index };
                self.last_checkpoint = Option::Some(rec);
                self.current_target = Option::None;
                let ev = StatusEvent::ApplyProgress(self.applied, self.pending.len());
                if self.applied == self.pending.len() {
                    self.phase = Phase::Terminal;
                    self.outcome = Option::Some(Outcome::Ready);
                } else {
                    self.phase = Phase::ApplyPolling;
                }
                Option::Some((rec, ev))
            },
            Result::Err(d) => {
                let msg = match &self.current_target {
                    Option::Some(ApplyTarget::Archive { name, .. }) => build_archive_patch_failed(
                        name.as_str(),
                        d.as_str(),
                    ),
                    Option::Some(ApplyTarget::FileTree) => build_tree_patch_failed(
                        self.pending[self.applied].file_name.as_str(),
                        d.as_str(),
                    ),
                    Option::None => {
                        proof {
                            assert(false);
                        }
                        build_patcher_name_unresolved()
                    },
                };
                self.fail(msg);
                Option::None
            },
        }
    }

    /// Law: a run that ended `Ready` against a whole manifest (one the
    /// checkpoint filter passed through unchanged) leaves a checkpoint that
    /// filters that same manifest to nothing — re-invoking the pipeline
    /// against an unchanged remote manifest downloads and applies zero
    /// patches and reports `Ready` after an empty pass.
    pub proof fn lemma_completed_run_leaves_nothing_pending(self, m: Seq<ManifestEntry>)
        requires
            self.wf(),
            self.outcome == Option::Some(Outcome::Ready),
            self.pending@ == m,
            m.len() > 0,
            forall|i: int, j: int| 0 <= i < j < m.len() ==> m[i].index < m[j].index,
        ensures
            filter_spec(m, self.last_checkpoint) == Seq::<ManifestEntry>::empty(),
    {
        let c = self.last_checkpoint->Some_0;
        assert(c.last_applied_index == m[m.len() - 1].index);
        crate::checkpoint::lemma_rerun_after_completed_run_is_empty(m, c);
    }

    /// True once the run has ended, one way or the other.
    pub fn is_terminal(&self) -> (r: bool)
        ensures
            r == (self.phase is Terminal),
    {
        match self.phase {
            Phase::Terminal => true,
            _ => false,
        }
    }

    /// The single terminal status report of the run: `Ready`, `Cancelled`
    /// or `Error` with the fatal message — or none at all when the command
    /// channel closed before the run began.
    pub fn terminal_status(&self) -> (r: Option<StatusEvent>)
        requires
            self.wf(),
            self.phase is Terminal,
        ensures
            status_matches(self.outcome, r),
    {
        match &self.outcome {
            Option::Some(Outcome::Ready) => Option::Some(StatusEvent::Ready),
            Option::Some(Outcome::Cancelled) => Option::Some(StatusEvent::Cancelled),
            Option::Some(Outcome::Failed(m)) => Option::Some(StatusEvent::Error(m.clone())),
            Option::Some(Outcome::ChannelClosed) => Option::None,
            Option::None => {
                proof {
                    assert(false);
                }
                Option::None
            },
        }
    }
}

} // verus!
