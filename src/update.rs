//! The update pipeline of one request, as a state machine: download, extract,
//! stop, back up, install, set the mode, start.
//!
//! The run decides each action; its driver performs it and reports the outcome.

use vstd::prelude::*;

verus! {

/// How extraction failed.
#[derive(Clone, Copy, Debug, PartialEq, Eq, Structural)]
pub enum ExtractFailure {
    /// The archive is damaged or does not hold the expected member.
    Format,
    /// Reading or writing a file failed.
    Io,
}

/// Which part of installation failed.
#[derive(Clone, Copy, Debug, PartialEq, Eq, Structural)]
pub enum InstallFailure {
    Backup,
    Copy,
    Permissions,
}

/// Every reason an update or a listing can fail.
#[derive(Clone, Copy, Debug, PartialEq, Eq, Structural)]
pub enum UpdateError {
    UnknownCore,
    ReleaseLookupFailed,
    UnsupportedArchitecture,
    AssetNotFound,
    DownloadFailed,
    ExtractionFailed(ExtractFailure),
    InstallFailed(InstallFailure),
    ProcessError,
}

/// How a request ended.
#[derive(Clone, Copy, Debug, PartialEq, Eq, Structural)]
pub enum Completion {
    Success,
    Failure(UpdateError),
}

/// The temporary and installed files an action works on.
#[derive(Clone, Copy, Debug, PartialEq, Eq, Structural)]
pub enum FileRole {
    /// The downloaded archive, written to disk when it is large.
    Spool,
    /// The binary taken out of the archive.
    Extracted,
    /// The installed binary.
    Target,
}

/// What the driver performs next.
#[derive(Clone, Copy, Debug, PartialEq, Eq, Structural)]
pub enum Action {
    /// Fetch the asset through the mirrored downloader.
    Download,
    /// Write the downloaded bytes to the spool file.
    Spool,
    /// Extract the binary, from the spool file or from memory, to the extracted file.
    Extract { from_spool: bool },
    /// Stop the running core through its init script.
    StopCore,
    /// Move the installed binary into the backup directory under a fresh name.
    Backup,
    /// Move the backup made by this run back onto the target.
    Restore,
    /// Rename the extracted binary onto the target.
    Rename,
    /// Copy the extracted binary to a staging file beside the target, then
    /// rename that file onto the target, so the target is never partly written.
    Copy,
    /// Remove a temporary file.
    Remove(FileRole),
    /// Set the executable permission bits on the target.
    MakeExecutable,
    /// Start the core through its init script.
    StartCore,
    /// The request is over, with this result.
    Finish(Completion),
}

/// How the last action went.
#[derive(Clone, Copy, Debug, PartialEq, Eq, Structural)]
pub enum Outcome {
    /// The action succeeded.
    Done,
    /// The download succeeded with this many bytes.
    Downloaded(u64),
    /// The action failed for this reason.
    Failed(UpdateError),
}

/// The step a run is waiting on: each stage is named for the action whose
/// outcome it expects next.
#[derive(Clone, Copy, Debug, PartialEq, Eq, Structural)]
pub enum Stage {
    Downloading,
    Spooling,
    Extracting { spooled: bool },
    DroppingSpool,
    BackingUp,
    Stopping,
    Installing,
    CopyingOver,
    DroppingExtracted,
    SettingMode,
    Starting,
    /// Cleaning up after a failure. The flags name what is still to do, in
    /// this order: put the backup back, remove the spool file, remove the
    /// extracted binary. No later step of the pipeline runs.
    CleaningUp { error: UpdateError, restore: bool, spool: bool, extracted: bool },
    Finished(Completion),
}

/// What an update request has to do, fixed before it starts.
#[derive(Clone, Copy, Debug, PartialEq, Eq, Structural)]
pub struct UpdatePlan {
    /// The core was running when the request arrived.
    pub running: bool,
    /// The request asked for a backup of the installed binary.
    pub backup: bool,
    /// A binary is installed at the target path.
    pub target_exists: bool,
    /// Artifacts above this many bytes are spooled to disk before extraction.
    pub spool_threshold: u64,
}

impl UpdatePlan {
    pub open spec fn needs_backup(self) -> bool {
        self.backup && self.target_exists
    }
}

/// The step after extraction: back up the installed binary if asked and
/// present, before anything is stopped.
pub open spec fn after_extract(plan: UpdatePlan) -> (Stage, Action) {
    if plan.needs_backup() { (Stage::BackingUp, Action::Backup) } else { after_backup(plan) }
}

/// The step after the backup: stop the core if it runs, else install.
pub open spec fn after_backup(plan: UpdatePlan) -> (Stage, Action) {
    if plan.running { (Stage::Stopping, Action::StopCore) } else { (Stage::Installing, Action::Rename) }
}

/// The step after the binary is in place and executable.
pub open spec fn after_install(plan: UpdatePlan) -> (Stage, Action) {
    if plan.running { (Stage::Starting, Action::StartCore) } else { (Stage::Finished(Completion::Success), Action::Finish(Completion::Success)) }
}

/// The next step of a cleanup, or the end with the error.
pub open spec fn cleanup(error: UpdateError, restore: bool, spool: bool, extracted: bool) -> (Stage, Action) {
    if restore {
        (Stage::CleaningUp { error, restore: false, spool, extracted }, Action::Restore)
    } else if spool {
        (Stage::CleaningUp { error, restore: false, spool: false, extracted }, Action::Remove(FileRole::Spool))
    } else if extracted {
        (Stage::CleaningUp { error, restore: false, spool: false, extracted: false }, Action::Remove(FileRole::Extracted))
    } else {
        (Stage::Finished(Completion::Failure(error)), Action::Finish(Completion::Failure(error)))
    }
}

/// The transition table of a run.
pub open spec fn transition(plan: UpdatePlan, st: Stage, o: Outcome) -> (Stage, Action) {
    match st {
        Stage::Downloading => match o {
            Outcome::Failed(e) => (Stage::Finished(Completion::Failure(e)), Action::Finish(Completion::Failure(e))),
            Outcome::Downloaded(n) => if n > plan.spool_threshold {
                (Stage::Spooling, Action::Spool)
            } else {
                (Stage::Extracting { spooled: false }, Action::Extract { from_spool: false })
            },
            Outcome::Done => (Stage::Extracting { spooled: false }, Action::Extract { from_spool: false }),
        },
        Stage::Spooling => match o {
            Outcome::Failed(e) => cleanup(e, false, true, false),
            _ => (Stage::Extracting { spooled: true }, Action::Extract { from_spool: true }),
        },
        Stage::Extracting { spooled } => match o {
            Outcome::Failed(e) => cleanup(e, false, spooled, true),
            _ => if spooled { (Stage::DroppingSpool, Action::Remove(FileRole::Spool)) } else { after_extract(plan) },
        },
        Stage::DroppingSpool => after_extract(plan),
        Stage::BackingUp => match o {
            Outcome::Failed(e) => cleanup(e, false, false, true),
            _ => after_backup(plan),
        },
        Stage::Stopping => match o {
            Outcome::Failed(e) => cleanup(e, plan.needs_backup(), false, true),
            _ => (Stage::Installing, Action::Rename),
        },
        Stage::Installing => match o {
            Outcome::Failed(_) => (Stage::CopyingOver, Action::Copy),
            _ => (Stage::SettingMode, Action::MakeExecutable),
        },
        Stage::CopyingOver => match o {
            Outcome::Failed(e) => cleanup(e, plan.needs_backup(), false, true),
            _ => (Stage::DroppingExtracted, Action::Remove(FileRole::Extracted)),
        },
        Stage::DroppingExtracted => (Stage::SettingMode, Action::MakeExecutable),
        Stage::SettingMode => match o {
            Outcome::Failed(e) => cleanup(e, plan.needs_backup(), false, false),
            _ => after_install(plan),
        },
        Stage::Starting => match o {
            Outcome::Failed(e) => (Stage::Finished(Completion::Failure(e)), Action::Finish(Completion::Failure(e))),
            _ => (Stage::Finished(Completion::Success), Action::Finish(Completion::Success)),
        },
        Stage::CleaningUp { error, restore, spool, extracted } => cleanup(error, restore, spool, extracted),
        Stage::Finished(r) => (Stage::Finished(r), Action::Finish(r)),
    }
}

/// The target is about to be written or has been: from here on the core must
/// be stopped and the old binary backed up.
pub open spec fn touches_target(st: Stage) -> bool {
    st is Installing || st is CopyingOver || st is DroppingExtracted || st is SettingMode || st is Starting
}

/// What a successful action does to the files a run works on: their
/// contents, and whether the target is executable. A rename or copy carries
/// the extracted file's contents and its (non-executable) mode onto the
/// target; a failed action changes nothing.
pub open spec fn apply(files: Map<FileRole, Seq<u8>>, target_executable: bool, a: Action)
    -> (Map<FileRole, Seq<u8>>, bool)
{
    match a {
        Action::Rename => (files.insert(FileRole::Target, files[FileRole::Extracted]).remove(FileRole::Extracted), false),
        Action::Copy => (files.insert(FileRole::Target, files[FileRole::Extracted]), false),
        Action::Remove(role) => (files.remove(role), target_executable),
        Action::MakeExecutable => (files, true),
        _ => (files, target_executable),
    }
}

/// Installation ends with the target holding exactly the extracted binary,
/// executable, on both paths: after a successful rename, and after a rename
/// that failed (across filesystems, say) followed by the copy, the removal
/// of the temporary file and the mode change.
pub proof fn install_leaves_new_binary(plan: UpdatePlan, files: Map<FileRole, Seq<u8>>, executable: bool, e: UpdateError)
    requires
        files.contains_key(FileRole::Extracted),
    ensures
        ({
            let (s1, a1) = transition(plan, Stage::Installing, Outcome::Failed(e));
            let (f1, x1) = apply(files, executable, a1);
            let (s2, a2) = transition(plan, s1, Outcome::Done);
            let (f2, x2) = apply(f1, x1, a2);
            let (s3, a3) = transition(plan, s2, Outcome::Done);
            let (f3, x3) = apply(f2, x2, a3);
            &&& a1 == Action::Copy && a3 == Action::MakeExecutable
            &&& f3.contains_key(FileRole::Target) && f3[FileRole::Target] == files[FileRole::Extracted]
            &&& !f3.contains_key(FileRole::Extracted)
            &&& x3
        }),
        ({
            let (s1, a1) = transition(plan, Stage::Installing, Outcome::Done);
            let (f0, x0) = apply(files, executable, Action::Rename);
            let (f1, x1) = apply(f0, x0, a1);
            &&& a1 == Action::MakeExecutable
            &&& f1.contains_key(FileRole::Target) && f1[FileRole::Target] == files[FileRole::Extracted]
            &&& !f1.contains_key(FileRole::Extracted)
            &&& x1
        }),
{
}

/// When renaming the new binary onto the target fails (another filesystem,
/// say), the binary is copied over the target instead, the temporary copy is
/// removed, and the executable bits are set; on the rename path they are set
/// as well.
pub proof fn rename_failure_falls_back_to_copy(plan: UpdatePlan, e: UpdateError, o: Outcome)
    ensures
        transition(plan, Stage::Installing, Outcome::Failed(e)) == (Stage::CopyingOver, Action::Copy),
        transition(plan, Stage::CopyingOver, Outcome::Done)
            == (Stage::DroppingExtracted, Action::Remove(FileRole::Extracted)),
        transition(plan, Stage::DroppingExtracted, o) == (Stage::SettingMode, Action::MakeExecutable),
        transition(plan, Stage::Installing, Outcome::Done) == (Stage::SettingMode, Action::MakeExecutable),
{
}

/// A step of cleanup that keeps the first error: it puts the backup back,
/// removes a temporary file, or finishes with that error. It never stops or
/// starts the core.
pub open spec fn cleans_up_with(e: UpdateError, next: Stage, a: Action) -> bool {
    ||| next == Stage::Finished(Completion::Failure(e)) && a == Action::Finish(Completion::Failure(e))
    ||| next matches Stage::CleaningUp { error, .. } && error == e && (a is Remove || a == Action::Restore)
}

/// A failure outside the rename step ends the pipeline: no later step runs;
/// what follows only cleans up, and the run finishes with that same error.
pub proof fn failure_short_circuits(plan: UpdatePlan, st: Stage, e: UpdateError)
    requires
        !(st is Installing || st is Finished || st is CleaningUp || st is DroppingSpool || st is DroppingExtracted),
    ensures
        ({
            let (next, a) = transition(plan, st, Outcome::Failed(e));
            cleans_up_with(e, next, a)
        }),
{
}

/// During a cleanup every step keeps the error that started it.
pub proof fn cleanup_keeps_first_error(plan: UpdatePlan, e: UpdateError, restore: bool, spool: bool,
    extracted: bool, o: Outcome)
    ensures
        ({
            let (next, a) = transition(plan, Stage::CleaningUp { error: e, restore, spool, extracted }, o);
            cleans_up_with(e, next, a)
        }),
{
}

/// The backup is taken before the core is stopped, and a failed backup
/// leaves the core and the target alone: the cleanup after it neither
/// restores, nor stops or starts anything; it only removes temporary files.
pub proof fn failed_backup_touches_nothing(plan: UpdatePlan, st: Stage, e: UpdateError, spool: bool,
    extracted: bool, o: Outcome)
    ensures
        transition(plan, Stage::BackingUp, Outcome::Failed(e)) == cleanup(e, false, false, true),
        ({
            let (next, a) = transition(plan, Stage::CleaningUp { error: e, restore: false, spool, extracted }, o);
            &&& (a is Remove || a == Action::Finish(Completion::Failure(e)))
            &&& (next is Finished || next matches Stage::CleaningUp { restore: false, .. })
        }),
        transition(plan, st, o).1 == Action::StopCore ==> !plan.needs_backup() || st == Stage::BackingUp,
{
}

/// When a step after the backup fails (the stop, the copy, or the mode
/// change), the first cleanup step puts the backup back onto the target.
pub proof fn failed_install_restores_backup(plan: UpdatePlan, st: Stage, e: UpdateError)
    requires
        plan.needs_backup(),
        st == Stage::Stopping || st == Stage::CopyingOver || st == Stage::SettingMode,
    ensures
        transition(plan, st, Outcome::Failed(e)).1 == Action::Restore,
{
}

/// The core is stopped only when it was running, and started only when it was
/// running before the update, right after the new binary was made executable.
pub proof fn restart_only_if_running(plan: UpdatePlan, st: Stage, o: Outcome)
    ensures
        transition(plan, st, o).1 == Action::StopCore ==> plan.running,
        transition(plan, st, o).1 == Action::StartCore ==> plan.running && st == Stage::SettingMode,
{
}

/// The actions of a run from stage `st` when the outcomes are `outs`.
pub open spec fn run_trace(plan: UpdatePlan, st: Stage, outs: Seq<Outcome>) -> Seq<Action>
    decreases outs.len(),
{
    if outs.len() == 0 {
        Seq::empty()
    } else {
        let (next, a) = transition(plan, st, outs[0]);
        seq![a] + run_trace(plan, next, outs.drop_first())
    }
}

/// The actions of an update in which every action succeeds, after the
/// download: extraction (spooled first when large), the backup if asked and
/// there is a binary, the stop if the core runs, the rename, the mode, the
/// start if it ran, and success. Stop and start come at most once each.
pub open spec fn planned_actions(plan: UpdatePlan, spooled: bool) -> Seq<Action> {
    (if spooled {
        seq![Action::Spool, Action::Extract { from_spool: true }, Action::Remove(FileRole::Spool)]
    } else {
        seq![Action::Extract { from_spool: false }]
    })
    + (if plan.needs_backup() { seq![Action::Backup] } else { Seq::empty() })
    + (if plan.running { seq![Action::StopCore] } else { Seq::empty() })
    + seq![Action::Rename, Action::MakeExecutable]
    + (if plan.running { seq![Action::StartCore] } else { Seq::empty() })
    + seq![Action::Finish(Completion::Success)]
}

/// A run in which the download brings `n` bytes and every later action
/// succeeds performs exactly the planned actions, in order.
pub proof fn successful_run(plan: UpdatePlan, n: u64)
    ensures
        ({
            let planned = planned_actions(plan, n > plan.spool_threshold);
            let outs = seq![Outcome::Downloaded(n)] + Seq::new((planned.len() - 1) as nat, |i: int| Outcome::Done);
            run_trace(plan, Stage::Downloading, outs) == planned
        }),
{
    let planned = planned_actions(plan, n > plan.spool_threshold);
    let outs = seq![Outcome::Downloaded(n)] + Seq::new((planned.len() - 1) as nat, |i: int| Outcome::Done);
    reveal_with_fuel(run_trace, 11);
    assert(run_trace(plan, Stage::Downloading, outs) =~= planned);
}

/// One update request in progress.
pub struct UpdateRun {
    pub plan: UpdatePlan,
    pub stage: Stage,
    /// The core was stopped by this run.
    pub stopped: bool,
    /// The old binary was moved into the backup directory by this run.
    pub backed_up: bool,
}

impl UpdateRun {
    /// Before the target is touched, a running core has been stopped and a
    /// backup that was asked for has been made; the backup comes before the stop.
    pub open spec fn wf(&self) -> bool {
        &&& touches_target(self.stage) ==> {
            &&& (self.plan.running ==> self.stopped)
            &&& (self.plan.needs_backup() ==> self.backed_up)
        }
        &&& self.stage is Stopping ==> (self.plan.needs_backup() ==> self.backed_up)
        &&& self.stopped ==> (touches_target(self.stage) || self.stage is CleaningUp || self.stage is Finished)
    }

    /// A run at its start; the first action is the download.
    pub fn new(plan: UpdatePlan) -> (r: (UpdateRun, Action))
        ensures
            r.0.wf(),
            r.0.plan == plan,
            r.0.stage == Stage::Downloading,
            !r.0.stopped && !r.0.backed_up,
            r.1 == Action::Download,
    {
        (UpdateRun { plan, stage: Stage::Downloading, stopped: false, backed_up: false }, Action::Download)
    }

    fn after_extract(&mut self) -> (r: Action)
        requires
            !old(self).stopped,
        ensures
            final(self).plan == old(self).plan,
            final(self).backed_up == old(self).backed_up,
            final(self).stopped == old(self).stopped,
            (final(self).stage, r) == after_extract(old(self).plan),
    {
        if self.plan.backup && self.plan.target_exists {
            self.stage = Stage::BackingUp;
            Action::Backup
        } else {
            self.after_backup()
        }
    }

    fn after_backup(&mut self) -> (r: Action)
        ensures
            final(self).plan == old(self).plan,
            final(self).stopped == old(self).stopped,
            final(self).backed_up == old(self).backed_up,
            (final(self).stage, r) == after_backup(old(self).plan),
    {
        if self.plan.running {
            self.stage = Stage::Stopping;
            Action::StopCore
        } else {
            self.stage = Stage::Installing;
            Action::Rename
        }
    }

    fn cleanup(&mut self, error: UpdateError, restore: bool, spool: bool, extracted: bool) -> (r: Action)
        ensures
            final(self).plan == old(self).plan,
            final(self).stopped == old(self).stopped,
            final(self).backed_up == old(self).backed_up,
            (final(self).stage, r) == cleanup(error, restore, spool, extracted),
    {
        if restore {
            self.stage = Stage::CleaningUp { error, restore: false, spool, extracted };
            Action::Restore
        } else if spool {
            self.stage = Stage::CleaningUp { error, restore: false, spool: false, extracted };
            Action::Remove(FileRole::Spool)
        } else if extracted {
            self.stage = Stage::CleaningUp { error, restore: false, spool: false, extracted: false };
            Action::Remove(FileRole::Extracted)
        } else {
            self.stage = Stage::Finished(Completion::Failure(error));
            Action::Finish(Completion::Failure(error))
        }
    }

    fn finish(&mut self, r: Completion) -> (a: Action)
        ensures
            final(self).plan == old(self).plan,
            final(self).stopped == old(self).stopped,
            final(self).backed_up == old(self).backed_up,
            final(self).stage == Stage::Finished(r),
            a == Action::Finish(r),
    {
        self.stage = Stage::Finished(r);
        Action::Finish(r)
    }

    /// Takes the outcome of the last action and returns the next one.
    /// A backup or a stop that succeeds is recorded before the target is touched.
    pub fn advance(&mut self, o: Outcome) -> (r: Action)
        requires
            old(self).wf(),
        ensures
            final(self).wf(),
            final(self).plan == old(self).plan,
            (final(self).stage, r) == transition(old(self).plan, old(self).stage, o),
            (r is Rename || r is Copy) ==> (final(self).plan.running ==> final(self).stopped),
            (r is Rename || r is Copy) ==> (final(self).plan.needs_backup() ==> final(self).backed_up),
            r == Action::StopCore ==> (final(self).plan.needs_backup() ==> final(self).backed_up),
    {
        let plan = self.plan;
        match self.stage {
            Stage::Downloading => match o {
                Outcome::Failed(e) => self.finish(Completion::Failure(e)),
                Outcome::Downloaded(n) => {
                    if n > plan.spool_threshold {
                        self.stage = Stage::Spooling;
                        Action::Spool
                    } else {
                        self.stage = Stage::Extracting { spooled: false };
                        Action::Extract { from_spool: false }
                    }
                },
                Outcome::Done => {
                    self.stage = Stage::Extracting { spooled: false };
                    Action::Extract { from_spool: false }
                },
            },
            Stage::Spooling => match o {
                Outcome::Failed(e) => self.cleanup(e, false, true, false),
                _ => {
                    self.stage = Stage::Extracting { spooled: true };
                    Action::Extract { from_spool: true }
                },
            },
            Stage::Extracting { spooled } => match o {
                Outcome::Failed(e) => self.cleanup(e, false, spooled, true),
                _ => {
                    if spooled {
                        self.stage = Stage::DroppingSpool;
                        Action::Remove(FileRole::Spool)
                    } else {
                        self.after_extract()
                    }
                },
            },
            Stage::DroppingSpool => self.after_extract(),
            Stage::BackingUp => match o {
                Outcome::Failed(e) => self.cleanup(e, false, false, true),
                _ => {
                    self.backed_up = true;
                    self.after_backup()
                },
            },
            Stage::Stopping => match o {
                Outcome::Failed(e) => self.cleanup(e, plan.backup && plan.target_exists, false, true),
                _ => {
                    self.stopped = true;
                    self.stage = Stage::Installing;
                    Action::Rename
                },
            },
            Stage::Installing => match o {
                Outcome::Failed(_) => {
                    self.stage = Stage::CopyingOver;
                    Action::Copy
                },
                _ => {
                    self.stage = Stage::SettingMode;
                    Action::MakeExecutable
                },
            },
            Stage::CopyingOver => match o {
                Outcome::Failed(e) => self.cleanup(e, plan.backup && plan.target_exists, false, true),
                _ => {
                    self.stage = Stage::DroppingExtracted;
                    Action::Remove(FileRole::Extracted)
                },
            },
            Stage::DroppingExtracted => {
                self.stage = Stage::SettingMode;
                Action::MakeExecutable
            },
            Stage::SettingMode => match o {
                Outcome::Failed(e) => self.cleanup(e, plan.backup && plan.target_exists, false, false),
                _ => {
                    if plan.running {
                        self.stage = Stage::Starting;
                        Action::StartCore
                    } else {
                        self.finish(Completion::Success)
                    }
                },
            },
            Stage::Starting => match o {
                Outcome::Failed(e) => self.finish(Completion::Failure(e)),
                _ => self.finish(Completion::Success),
            },
            Stage::CleaningUp { error, restore, spool, extracted } => self.cleanup(error, restore, spool, extracted),
            Stage::Finished(r) => self.finish(r),
        }
    }
}

} // verus!
