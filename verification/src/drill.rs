use vstd::prelude::*;
use vstd::string::*;

use crate::checks::{check_passed, check_passes, CommandResult};
use crate::config::{
    config_refusal, config_valid, validate_config, Check, CheckKind, Config, Error,
};
use crate::text::{debug_quoted, decimal, owned, push_debug_quoted, push_decimal};

verus! {

/// How a drill ended.
#[derive(Debug, Clone, Copy, PartialEq, Eq, Structural)]
pub enum Status {
    Passed,
    Failed,
    CleanupFailed,
}

impl Status {
    /// The exit code of a finished drill: 0 when it passed, 3 when a stage or
    /// check failed, 4 when cleanup failed.
    pub fn exit_code(self) -> (code: u8)
        ensures
            code == match self {
                Status::Passed => 0u8,
                Status::Failed => 3u8,
                Status::CleanupFailed => 4u8,
            },
    {
        match self {
            Status::Passed => 0,
            Status::Failed => 3,
            Status::CleanupFailed => 4,
        }
    }

    /// The word that reports the status to a person.
    pub fn label(self) -> (text: &'static str)
        ensures
            text@ == match self {
                Status::Passed => "PASSED"@,
                Status::Failed => "FAILED"@,
                Status::CleanupFailed => "CLEANUP FAILED"@,
            },
    {
        match self {
            Status::Passed => "PASSED",
            Status::Failed => "FAILED",
            Status::CleanupFailed => "CLEANUP FAILED",
        }
    }
}

/// The record of one lifecycle command: which stage, how it ended, how long.
#[derive(Debug)]
pub struct StageEvidence {
    pub stage: &'static str,
    pub status: &'static str,
    pub duration_ms: u128,
}

/// The record of one recovery check.
#[derive(Debug)]
pub struct CheckEvidence {
    pub name: String,
    pub kind: CheckKind,
    pub status: &'static str,
    pub duration_ms: u128,
}

/// The status word that a stage's record gives a command result.
pub open spec fn stage_status(result: CommandResult) -> Seq<char> {
    if result.timed_out {
        "timed_out"@
    } else if result.success {
        "passed"@
    } else {
        "failed"@
    }
}

/// Records `result` as the evidence of stage `name`.
pub fn stage(name: &'static str, result: &CommandResult) -> (e: StageEvidence)
    ensures
        e.stage@ == name@,
        e.status@ == stage_status(*result),
        e.duration_ms == result.duration_ms,
{
    StageEvidence {
        stage: name,
        status: if result.timed_out {
            "timed_out"
        } else if result.success {
            "passed"
        } else {
            "failed"
        },
        duration_ms: result.duration_ms,
    }
}

// ---------------------------------------------------------------------------
// The drill, step by step
// ---------------------------------------------------------------------------

/// Where a drill stands: the command it runs next, or done.
#[derive(Debug, Clone, Copy, PartialEq, Eq, Structural)]
pub enum DrillPhase {
    Prepare,
    Restore,
    Check(usize),
    Cleanup,
    Complete,
}

/// What the caller does next for the drill.
#[derive(Debug)]
pub enum DrillAction {
    /// Run this command through the shell, with this time limit, and hand the
    /// result to `DrillProgress::record`, or to `DrillProgress::record_unfinished`
    /// when the command could not be started, watched, or was interrupted.
    /// Capture the first `OUTPUT_CAPTURE_LIMIT` bytes of its standard output
    /// when `capture_output` is set; discard it otherwise.
    Run { command: String, timeout_seconds: u64, capture_output: bool },
    /// Hand `CommandResult::skipped()` to `DrillProgress::record` without
    /// running the cleanup command.
    SkipCleanup,
    /// The drill is over.
    Finish,
}

/// A drill under way: the stage it stands at and the evidence so far.
#[derive(Debug)]
pub struct DrillProgress {
    pub phase: DrillPhase,
    pub stages: Vec<StageEvidence>,
    pub checks: Vec<CheckEvidence>,
    pub failed: bool,
    pub should_cleanup: bool,
    pub cleanup_succeeded: bool,
}

/// The phase that follows the restore, or a check, given the checks that are left.
pub open spec fn phase_after_check(config: Config, next: int) -> DrillPhase {
    if next < config.checks@.len() {
        DrillPhase::Check(next as usize)
    } else {
        DrillPhase::Cleanup
    }
}

/// The phase a drill of `config` starts in.
pub open spec fn first_phase(config: Config) -> DrillPhase {
    if config.commands.prepare is Some {
        DrillPhase::Prepare
    } else {
        DrillPhase::Restore
    }
}

/// The neutral id that stands for the `k`-th check (from 0) in evidence:
/// `check-1`, `check-2`, and so on; the check's own name is never recorded.
pub open spec fn check_evidence_id(k: int) -> Seq<char> {
    "check-"@ + decimal((k + 1) as nat)
}

fn check_id(k: usize) -> (id: String)
    requires
        k < usize::MAX,
    ensures
        id@ == check_evidence_id(k as int),
{
    let mut id = owned("check-");
    push_decimal(&mut id, (k as u64) + 1);
    id
}

/// The evidence of `check`, the `k`-th check, whose verdict was `passed`.
pub open spec fn check_evidence_of(
    e: CheckEvidence,
    check: Check,
    k: int,
    passed: bool,
    result: CommandResult,
) -> bool {
    &&& e.name@ == check_evidence_id(k)
    &&& e.kind == check.kind
    &&& e.status@ == (if passed {
        "passed"@
    } else {
        "failed"@
    })
    &&& e.duration_ms == result.duration_ms
}

/// How many more commands a drill of `config` in `phase` asks for, at most.
pub open spec fn steps_left(config: Config, phase: DrillPhase) -> nat {
    match phase {
        DrillPhase::Prepare => config.checks@.len() + 3,
        DrillPhase::Restore => config.checks@.len() + 2,
        DrillPhase::Check(i) => (config.checks@.len() - i + 1) as nat,
        DrillPhase::Cleanup => 1,
        DrillPhase::Complete => 0,
    }
}

/// Whether the command of `phase` went well: its exit for prepare, restore
/// and cleanup, the check's verdict for a check.
pub open spec fn step_ok(config: Config, phase: DrillPhase, result: CommandResult) -> bool {
    match phase {
        DrillPhase::Check(i) => check_passes(config.checks@[i as int], result),
        _ => result.success,
    }
}

/// The phase after `phase` whose command went well (`ok`) or not: a failed
/// prepare or restore goes to cleanup; every check is followed by the next one,
/// whatever its verdict; cleanup ends the drill.
pub open spec fn next_phase(config: Config, phase: DrillPhase, ok: bool) -> DrillPhase {
    match phase {
        DrillPhase::Prepare => if ok {
            DrillPhase::Restore
        } else {
            DrillPhase::Cleanup
        },
        DrillPhase::Restore => if ok {
            phase_after_check(config, 0)
        } else {
            DrillPhase::Cleanup
        },
        DrillPhase::Check(i) => phase_after_check(config, i + 1),
        _ => DrillPhase::Complete,
    }
}

/// How a drill ended, from whether a stage or check failed and whether
/// cleanup succeeded: a failed cleanup outranks a failed stage or check.
pub open spec fn status_of(failed: bool, cleanup_ok: bool) -> Status {
    if !cleanup_ok {
        Status::CleanupFailed
    } else if failed {
        Status::Failed
    } else {
        Status::Passed
    }
}

/// One step of a drill: the next phase, whether a stage or check has failed,
/// and whether cleanup succeeded.
pub open spec fn drill_step(
    config: Config,
    phase: DrillPhase,
    failed: bool,
    cleanup_ok: bool,
    ok: bool,
) -> (DrillPhase, bool, bool) {
    (
        next_phase(config, phase, ok),
        if phase is Cleanup || phase is Complete {
            failed
        } else {
            failed || !ok
        },
        if phase is Cleanup {
            ok
        } else {
            cleanup_ok
        },
    )
}

impl DrillProgress {
    /// The progress is one that a drill of `config` can reach.
    pub open spec fn wf(self, config: Config) -> bool {
        &&& self.phase is Prepare ==> {
            &&& config.commands.prepare is Some
            &&& !self.should_cleanup
            &&& !self.failed
            &&& self.stages@.len() == 0
            &&& self.checks@.len() == 0
        }
        &&& self.phase is Restore ==> !self.failed && self.checks@.len() == 0
        &&& self.phase matches DrillPhase::Check(i) ==> {
            &&& i < config.checks@.len()
            &&& self.should_cleanup
            &&& self.checks@.len() == i
        }
        &&& self.phase is Cleanup ==> self.should_cleanup
        &&& self.phase is Complete ==> self.should_cleanup
        &&& self.checks@.len() <= config.checks@.len()
        &&& forall|k: int|
            0 <= k < self.checks@.len() ==> {
                &&& (#[trigger] self.checks@[k]).name@ == check_evidence_id(k)
                &&& self.checks@[k].kind == config.checks@[k].kind
                &&& (self.checks@[k].status@ == "passed"@ || self.failed)
            }
        &&& (self.phase is Cleanup || self.phase is Complete) && !self.failed
            ==> self.checks@.len() == config.checks@.len()
    }

    /// A drill of `config` that has run nothing yet.
    pub fn new(config: &Config) -> (p: Self)
        ensures
            p.phase == first_phase(*config),
            p.stages@.len() == 0,
            p.checks@.len() == 0,
            !p.failed,
            !p.should_cleanup,
            !p.cleanup_succeeded,
            p.wf(*config),
    {
        DrillProgress {
            phase: if config.commands.prepare.is_some() {
                DrillPhase::Prepare
            } else {
                DrillPhase::Restore
            },
            stages: Vec::new(),
            checks: Vec::new(),
            failed: false,
            should_cleanup: false,
            cleanup_succeeded: false,
        }
    }

    /// What to do next: the command of the current phase, the skipped
    /// cleanup, or nothing more.
    pub fn next_action(&self, config: &Config) -> (a: DrillAction)
        requires
            self.wf(*config),
        ensures
            match self.phase {
                DrillPhase::Prepare => a matches DrillAction::Run {
                    command,
                    timeout_seconds,
                    capture_output,
                } && (config.commands.prepare matches Some(p) && command@ == p@) && timeout_seconds
                    == config.commands.timeout_seconds && !capture_output,
                DrillPhase::Restore => a matches DrillAction::Run {
                    command,
                    timeout_seconds,
                    capture_output,
                } && command@ == config.commands.restore@ && timeout_seconds
                    == config.commands.timeout_seconds && !capture_output,
                DrillPhase::Check(i) => a matches DrillAction::Run {
                    command,
                    timeout_seconds,
                    capture_output,
                } && command@ == config.checks@[i as int].command@ && timeout_seconds
                    == config.checks@[i as int].timeout_seconds && capture_output == (
                config.checks@[i as int].kind is RowCount || config.checks@[i as int].kind is Schema),
                DrillPhase::Cleanup => if self.should_cleanup {
                    a matches DrillAction::Run { command, timeout_seconds, capture_output }
                        && command@ == config.commands.cleanup@ && timeout_seconds
                        == config.commands.timeout_seconds && !capture_output
                } else {
                    a is SkipCleanup
                },
                DrillPhase::Complete => a is Finish,
            },
    {
        match self.phase {
            DrillPhase::Prepare => {
                let command = match &config.commands.prepare {
                    Some(p) => p.clone(),
                    None => String::new(),
                };
                DrillAction::Run {
                    command,
                    timeout_seconds: config.commands.timeout_seconds,
                    capture_output: false,
                }
            },
            DrillPhase::Restore => DrillAction::Run {
                command: config.commands.restore.clone(),
                timeout_seconds: config.commands.timeout_seconds,
                capture_output: false,
            },
            DrillPhase::Check(i) => {
                let capture_output = match config.checks[i].kind {
                    CheckKind::RowCount | CheckKind::Schema => true,
                    _ => false,
                };
                DrillAction::Run {
                    command: config.checks[i].command.clone(),
                    timeout_seconds: config.checks[i].timeout_seconds,
                    capture_output,
                }
            },
            DrillPhase::Cleanup => {
                if self.should_cleanup {
                    DrillAction::Run {
                        command: config.commands.cleanup.clone(),
                        timeout_seconds: config.commands.timeout_seconds,
                        capture_output: false,
                    }
                } else {
                    DrillAction::SkipCleanup
                }
            },
            DrillPhase::Complete => DrillAction::Finish,
        }
    }

    /// Records the result of the command that `next_action` asked for, and
    /// moves to the next phase: a failed prepare or restore goes straight to
    /// cleanup, the checks run one after the other, and cleanup ends the drill.
    pub fn record(&mut self, config: &Config, result: CommandResult)
        requires
            old(self).wf(*config),
            !(old(self).phase is Complete),
        ensures
            final(self).wf(*config),
            steps_left(*config, final(self).phase) < steps_left(*config, old(self).phase),
            final(self).phase is Complete ==> old(self).phase is Cleanup,
            (final(self).phase, final(self).failed, final(self).cleanup_succeeded) == drill_step(
                *config,
                old(self).phase,
                old(self).failed,
                old(self).cleanup_succeeded,
                step_ok(*config, old(self).phase, result),
            ),
            final(self).cleanup_succeeded == if old(self).phase is Cleanup {
                result.success
            } else {
                old(self).cleanup_succeeded
            },
            match old(self).phase {
                DrillPhase::Prepare => {
                    &&& final(self).stages@.len() == old(self).stages@.len() + 1
                    &&& final(self).stages@.drop_last() == old(self).stages@
                    &&& final(self).stages@.last().stage@ == "prepare"@
                    &&& final(self).stages@.last().status@ == stage_status(result)
                    &&& final(self).stages@.last().duration_ms == result.duration_ms
                    &&& final(self).checks@ == old(self).checks@
                    &&& final(self).should_cleanup
                    &&& final(self).failed == (old(self).failed || !result.success)
                    &&& final(self).phase == if result.success {
                        DrillPhase::Restore
                    } else {
                        DrillPhase::Cleanup
                    }
                },
                DrillPhase::Restore => {
                    &&& final(self).stages@.len() == old(self).stages@.len() + 1
                    &&& final(self).stages@.drop_last() == old(self).stages@
                    &&& final(self).stages@.last().stage@ == "restore"@
                    &&& final(self).stages@.last().status@ == stage_status(result)
                    &&& final(self).stages@.last().duration_ms == result.duration_ms
                    &&& final(self).checks@ == old(self).checks@
                    &&& final(self).should_cleanup
                    &&& final(self).failed == (old(self).failed || !result.success)
                    &&& final(self).phase == if result.success {
                        phase_after_check(*config, 0)
                    } else {
                        DrillPhase::Cleanup
                    }
                },
                DrillPhase::Check(i) => {
                    let passed = check_passes(config.checks@[i as int], result);
                    &&& final(self).stages@ == old(self).stages@
                    &&& final(self).checks@.len() == old(self).checks@.len() + 1
                    &&& final(self).checks@.drop_last() == old(self).checks@
                    &&& check_evidence_of(
                        final(self).checks@.last(),
                        config.checks@[i as int],
                        i as int,
                        passed,
                        result,
                    )
                    &&& final(self).should_cleanup == old(self).should_cleanup
                    &&& final(self).failed == (old(self).failed || !passed)
                    &&& final(self).phase == phase_after_check(*config, i + 1)
                },
                DrillPhase::Cleanup => {
                    &&& final(self).stages@.len() == old(self).stages@.len() + 1
                    &&& final(self).stages@.drop_last() == old(self).stages@
                    &&& final(self).stages@.last().stage@ == "cleanup"@
                    &&& final(self).stages@.last().status@ == stage_status(result)
                    &&& final(self).stages@.last().duration_ms == result.duration_ms
                    &&& final(self).checks@ == old(self).checks@
                    &&& final(self).should_cleanup == old(self).should_cleanup
                    &&& final(self).failed == old(self).failed
                    &&& final(self).phase == DrillPhase::Complete
                },
                DrillPhase::Complete => false,
            },
    {
        match self.phase {
            DrillPhase::Prepare => {
                self.should_cleanup = true;
                self.stages.push(stage("prepare", &result));
                if !result.success {
                    self.failed = true;
                    self.phase = DrillPhase::Cleanup;
                } else {
                    self.phase = DrillPhase::Restore;
                }
            },
            DrillPhase::Restore => {
                self.should_cleanup = true;
                self.stages.push(stage("restore", &result));
                if !result.success {
                    self.failed = true;
                    self.phase = DrillPhase::Cleanup;
                } else if config.checks.len() > 0 {
                    self.phase = DrillPhase::Check(0);
                } else {
                    self.phase = DrillPhase::Cleanup;
                }
            },
            DrillPhase::Check(i) => {
                let check = &config.checks[i];
                let passed = check_passed(check, &result);
                let n = config.checks.len();
                assert(i < n);
                self.checks.push(
                    CheckEvidence {
                        name: check_id(i),
                        kind: check.kind,
                        status: if passed {
                            "passed"
                        } else {
                            "failed"
                        },
                        duration_ms: result.duration_ms,
                    },
                );
                if !passed {
                    self.failed = true;
                }
                if i < config.checks.len() - 1 {
                    self.phase = DrillPhase::Check(i + 1);
                } else {
                    self.phase = DrillPhase::Cleanup;
                }
            },
            DrillPhase::Cleanup => {
                self.stages.push(stage("cleanup", &result));
                self.cleanup_succeeded = result.success;
                self.phase = DrillPhase::Complete;
            },
            DrillPhase::Complete => {},
        }
    }

    /// Records that the command that `next_action` asked for did not run to
    /// its end: it could not be started or watched, or the drill was
    /// interrupted. Its stage or check counts as failed, and the drill goes
    /// straight to cleanup, which still runs; when it is cleanup itself that
    /// did not run to its end, the cleanup counts as failed and the drill ends.
    pub fn record_unfinished(&mut self, config: &Config, duration_ms: u128)
        requires
            old(self).wf(*config),
            !(old(self).phase is Complete),
        ensures
            final(self).wf(*config),
            steps_left(*config, final(self).phase) < steps_left(*config, old(self).phase),
            final(self).should_cleanup,
            old(self).phase is Cleanup ==> {
                &&& final(self).phase is Complete
                &&& !final(self).cleanup_succeeded
                &&& final(self).failed == old(self).failed
                &&& final(self).stages@.len() == old(self).stages@.len() + 1
                &&& final(self).stages@.drop_last() == old(self).stages@
                &&& final(self).stages@.last().stage@ == "cleanup"@
                &&& final(self).stages@.last().status@ == "failed"@
                &&& final(self).stages@.last().duration_ms == duration_ms
                &&& final(self).checks@ == old(self).checks@
            },
            !(old(self).phase is Cleanup) ==> {
                &&& final(self).phase is Cleanup
                &&& final(self).failed
                &&& final(self).cleanup_succeeded == old(self).cleanup_succeeded
            },
            (old(self).phase is Prepare || old(self).phase is Restore) ==> {
                &&& final(self).stages@.len() == old(self).stages@.len() + 1
                &&& final(self).stages@.drop_last() == old(self).stages@
                &&& final(self).stages@.last().stage@ == if old(self).phase is Prepare {
                    "prepare"@
                } else {
                    "restore"@
                }
                &&& final(self).stages@.last().status@ == "failed"@
                &&& final(self).stages@.last().duration_ms == duration_ms
                &&& final(self).checks@ == old(self).checks@
            },
            old(self).phase matches DrillPhase::Check(i) ==> {
                &&& final(self).stages@ == old(self).stages@
                &&& final(self).checks@.len() == old(self).checks@.len() + 1
                &&& final(self).checks@.drop_last() == old(self).checks@
                &&& final(self).checks@.last().name@ == check_evidence_id(i as int)
                &&& final(self).checks@.last().kind == config.checks@[i as int].kind
                &&& final(self).checks@.last().status@ == "failed"@
                &&& final(self).checks@.last().duration_ms == duration_ms
            },
    {
        match self.phase {
            DrillPhase::Prepare => {
                self.should_cleanup = true;
                self.stages.push(
                    StageEvidence { stage: "prepare", status: "failed", duration_ms },
                );
                self.failed = true;
                self.phase = DrillPhase::Cleanup;
            },
            DrillPhase::Restore => {
                self.should_cleanup = true;
                self.stages.push(
                    StageEvidence { stage: "restore", status: "failed", duration_ms },
                );
                self.failed = true;
                self.phase = DrillPhase::Cleanup;
            },
            DrillPhase::Check(i) => {
                let n = config.checks.len();
                assert(i < n);
                self.checks.push(
                    CheckEvidence {
                        name: check_id(i),
                        kind: config.checks[i].kind,
                        status: "failed",
                        duration_ms,
                    },
                );
                self.failed = true;
                self.phase = DrillPhase::Cleanup;
            },
            DrillPhase::Cleanup => {
                self.stages.push(
                    StageEvidence { stage: "cleanup", status: "failed", duration_ms },
                );
                self.cleanup_succeeded = false;
                self.phase = DrillPhase::Complete;
            },
            DrillPhase::Complete => {},
        }
    }

    /// How the drill ended: a failed cleanup outranks a failed stage or check.
    pub fn status(&self) -> (s: Status)
        ensures
            s == status_of(self.failed, self.cleanup_succeeded),
    {
        if !self.cleanup_succeeded {
            Status::CleanupFailed
        } else if self.failed {
            Status::Failed
        } else {
            Status::Passed
        }
    }
}

/// A drill that reaches its cleanup phase runs the cleanup command: once the
/// prepare or restore command has run, `next_action` never skips cleanup,
/// whether restore or the checks failed or not.
pub proof fn cleanup_is_never_skipped(config: Config, p: DrillProgress)
    requires
        p.wf(config),
        p.phase is Cleanup,
    ensures
        p.should_cleanup,
{
}

/// A drill that passed ran every configured check, in order, and every one
/// of them passed (its evidence names it by its neutral id), and its cleanup
/// succeeded.
pub proof fn passed_drill_ran_every_check(config: Config, p: DrillProgress)
    requires
        p.wf(config),
        p.phase is Complete,
        p.cleanup_succeeded,
        !p.failed,
    ensures
        p.checks@.len() == config.checks@.len(),
        forall|k: int|
            0 <= k < p.checks@.len() ==> {
                &&& (#[trigger] p.checks@[k]).name@ == check_evidence_id(k)
                &&& p.checks@[k].kind == config.checks@[k].kind
                &&& p.checks@[k].status@ == "passed"@
            },
{
}


// ---------------------------------------------------------------------------
// The order of a whole drill
// ---------------------------------------------------------------------------

/// The phases a drill of `config` passes through from `phase`, and at the end
/// whether a stage or check failed and whether cleanup succeeded, when the
/// commands, one after the other, go well or not as `outcomes` says.
pub open spec fn drill_run(
    config: Config,
    phase: DrillPhase,
    failed: bool,
    cleanup_ok: bool,
    outcomes: Seq<bool>,
) -> (Seq<DrillPhase>, bool, bool)
    decreases outcomes.len(),
{
    if phase is Complete || outcomes.len() == 0 {
        (Seq::empty(), failed, cleanup_ok)
    } else {
        let next = drill_step(config, phase, failed, cleanup_ok, outcomes[0]);
        let rest = drill_run(config, next.0, next.1, next.2, outcomes.drop_first());
        (seq![phase] + rest.0, rest.1, rest.2)
    }
}

/// The checks from the `from`-th up to (not including) the `to`-th, in order.
pub open spec fn check_phases(from: int, to: int) -> Seq<DrillPhase> {
    Seq::new((to - from) as nat, |k: int| DrillPhase::Check((from + k) as usize))
}

/// The order of a drill of `config`: prepare (when there is one); restore,
/// unless prepare failed; every check in the drill file's order, when restore
/// went well; and cleanup, once, last.
pub open spec fn expected_phases(config: Config, outcomes: Seq<bool>) -> Seq<DrillPhase> {
    let prep = config.commands.prepare is Some;
    let at_restore: int = if prep {
        1
    } else {
        0
    };
    let restore_runs = !prep || outcomes[0];
    let checks_run = restore_runs && outcomes[at_restore];
    (if prep {
        seq![DrillPhase::Prepare]
    } else {
        Seq::empty()
    }) + (if restore_runs {
        seq![DrillPhase::Restore]
    } else {
        Seq::empty()
    }) + (if checks_run {
        check_phases(0, config.checks@.len() as int)
    } else {
        Seq::empty()
    }) + seq![DrillPhase::Cleanup]
}

proof fn lemma_run_from_checks(
    config: Config,
    i: int,
    failed: bool,
    cleanup_ok: bool,
    outcomes: Seq<bool>,
)
    requires
        0 <= i <= config.checks@.len(),
        config.checks@.len() < usize::MAX,
        outcomes.len() >= config.checks@.len() - i + 1,
    ensures
        ({
            let n = config.checks@.len() as int;
            let r = drill_run(config, phase_after_check(config, i), failed, cleanup_ok, outcomes);
            &&& r.0 == check_phases(i, n) + seq![DrillPhase::Cleanup]
            &&& r.2 == outcomes[n - i]
            &&& r.1 == (failed || exists|j: int| 0 <= j < n - i && !outcomes[j])
        }),
    decreases config.checks@.len() - i,
{
    let n = config.checks@.len() as int;
    if i == n {
        let after = drill_step(config, DrillPhase::Cleanup, failed, cleanup_ok, outcomes[0]);
        assert(drill_run(config, after.0, after.1, after.2, outcomes.drop_first()).0 == Seq::<
            DrillPhase,
        >::empty());
        assert(check_phases(i, n) + seq![DrillPhase::Cleanup] == seq![DrillPhase::Cleanup]);
    } else {
        let phase = DrillPhase::Check(i as usize);
        let after = drill_step(config, phase, failed, cleanup_ok, outcomes[0]);
        assert(after.0 == phase_after_check(config, i + 1));
        lemma_run_from_checks(config, i + 1, after.1, after.2, outcomes.drop_first());
        let rest = drill_run(config, after.0, after.1, after.2, outcomes.drop_first());
        assert(seq![phase] + (check_phases(i + 1, n) + seq![DrillPhase::Cleanup])
            == check_phases(i, n) + seq![DrillPhase::Cleanup]);
        assert(outcomes.drop_first()[n - i - 1] == outcomes[n - i]);
        if exists|j: int| 0 <= j < n - i - 1 && !outcomes.drop_first()[j] {
            let j = choose|j: int| 0 <= j < n - i - 1 && !outcomes.drop_first()[j];
            assert(!outcomes[j + 1]);
        }
        if exists|j: int| 0 <= j < n - i && !outcomes[j] {
            let j = choose|j: int| 0 <= j < n - i && !outcomes[j];
            if j > 0 {
                assert(!outcomes.drop_first()[j - 1]);
            }
        }
    }
}

/// The order of a whole drill: when its commands go well or not as `outcomes`
/// says, a drill of `config` runs prepare (when there is one), then restore
/// unless prepare failed, then every check in order when restore went well
/// (a failed check does not stop the later ones), then cleanup, once and
/// last. Its cleanup succeeded exactly when the cleanup command went well, and
/// a stage or check failed exactly when some command before cleanup went badly;
/// so it ended CleanupFailed when cleanup went badly, Failed when cleanup went
/// well and an earlier command went badly, and Passed otherwise.
pub proof fn drill_order(config: Config, outcomes: Seq<bool>)
    requires
        config.checks@.len() < usize::MAX,
        outcomes.len() >= config.checks@.len() + 3,
    ensures
        ({
            let run = drill_run(config, first_phase(config), false, false, outcomes);
            let phases = expected_phases(config, outcomes);
            let last = phases.len() - 1;
            &&& run.0 == phases
            &&& phases[last] == DrillPhase::Cleanup
            &&& run.2 == outcomes[last]
            &&& run.1 == exists|j: int| 0 <= j < last && !outcomes[j]
            &&& status_of(run.1, run.2) == if !outcomes[last] {
                Status::CleanupFailed
            } else if exists|j: int| 0 <= j < last && !outcomes[j] {
                Status::Failed
            } else {
                Status::Passed
            }
        }),
{
    let prep = config.commands.prepare is Some;
    let phases = expected_phases(config, outcomes);
    let o1 = outcomes.drop_first();
    let o2 = o1.drop_first();
    if prep {
        let s1 = drill_step(config, DrillPhase::Prepare, false, false, outcomes[0]);
        if !outcomes[0] {
            let s2 = drill_step(config, DrillPhase::Cleanup, s1.1, s1.2, o1[0]);
            let r2 = drill_run(config, s2.0, s2.1, s2.2, o2);
            assert(r2 == (Seq::<DrillPhase>::empty(), true, o1[0]));
            let r1 = drill_run(config, s1.0, s1.1, s1.2, o1);
            assert(r1 == (seq![DrillPhase::Cleanup] + r2.0, r2.1, r2.2));
            assert(phases == seq![DrillPhase::Prepare, DrillPhase::Cleanup]);
            assert(phases.len() == 2);
            assert(seq![DrillPhase::Prepare] + r1.0 == phases);
        } else {
            let s2 = drill_step(config, DrillPhase::Restore, s1.1, s1.2, o1[0]);
            if !o1[0] {
                let s3 = drill_step(config, DrillPhase::Cleanup, s2.1, s2.2, o2[0]);
                let r3 = drill_run(config, s3.0, s3.1, s3.2, o2.drop_first());
                assert(r3 == (Seq::<DrillPhase>::empty(), true, o2[0]));
                let r2 = drill_run(config, s2.0, s2.1, s2.2, o2);
                assert(r2 == (seq![DrillPhase::Cleanup] + r3.0, r3.1, r3.2));
                let r1 = drill_run(config, s1.0, s1.1, s1.2, o1);
                assert(r1 == (seq![DrillPhase::Restore] + r2.0, r2.1, r2.2));
                assert(phases == seq![DrillPhase::Prepare, DrillPhase::Restore, DrillPhase::Cleanup]);
                assert(seq![DrillPhase::Prepare] + r1.0 == phases);
                assert(!outcomes[1]);
                assert(o2[0] == outcomes[2]);
            } else {
                lemma_run_from_checks(config, 0, s2.1, s2.2, o2);
                let r2 = drill_run(config, s2.0, s2.1, s2.2, o2);
                let r1 = drill_run(config, s1.0, s1.1, s1.2, o1);
                assert(r1 == (seq![DrillPhase::Restore] + r2.0, r2.1, r2.2));
                let n = config.checks@.len() as int;
                assert(phases == seq![DrillPhase::Prepare, DrillPhase::Restore] + (check_phases(0, n)
                    + seq![DrillPhase::Cleanup]));
                assert(seq![DrillPhase::Prepare] + r1.0 == phases);
                assert(o2[n] == outcomes[n + 2]);
                if exists|j: int| 0 <= j < n && !o2[j] {
                    let j = choose|j: int| 0 <= j < n && !o2[j];
                    assert(!outcomes[j + 2]);
                }
                if exists|j: int| 0 <= j < n + 2 && !outcomes[j] {
                    let j = choose|j: int| 0 <= j < n + 2 && !outcomes[j];
                    assert(j >= 2);
                    assert(!o2[j - 2]);
                }
            }
        }
    } else {
        let s1 = drill_step(config, DrillPhase::Restore, false, false, outcomes[0]);
        if !outcomes[0] {
            let s2 = drill_step(config, DrillPhase::Cleanup, s1.1, s1.2, o1[0]);
            let r2 = drill_run(config, s2.0, s2.1, s2.2, o2);
            assert(r2 == (Seq::<DrillPhase>::empty(), true, o1[0]));
            let r1 = drill_run(config, s1.0, s1.1, s1.2, o1);
            assert(r1 == (seq![DrillPhase::Cleanup] + r2.0, r2.1, r2.2));
            assert(phases == seq![DrillPhase::Restore, DrillPhase::Cleanup]);
            assert(seq![DrillPhase::Restore] + r1.0 == phases);
        } else {
            lemma_run_from_checks(config, 0, s1.1, s1.2, o1);
            let r1 = drill_run(config, s1.0, s1.1, s1.2, o1);
            let n = config.checks@.len() as int;
            assert(phases == seq![DrillPhase::Restore] + (check_phases(0, n) + seq![
                DrillPhase::Cleanup,
            ]));
            assert(seq![DrillPhase::Restore] + r1.0 == phases);
            assert(o1[n] == outcomes[n + 1]);
            if exists|j: int| 0 <= j < n && !o1[j] {
                let j = choose|j: int| 0 <= j < n && !o1[j];
                assert(!outcomes[j + 1]);
            }
            if exists|j: int| 0 <= j < n + 1 && !outcomes[j] {
                let j = choose|j: int| 0 <= j < n + 1 && !outcomes[j];
                assert(j >= 1);
                assert(!o1[j - 1]);
            }
        }
    }
}

/// The refusal of a confirmation that does not equal the target's id.
pub open spec fn confirmation_refusal(target_id: Seq<char>) -> Seq<char> {
    "confirmation refused: --confirm must exactly equal target.id "@ + debug_quoted(target_id)
}

/// The refusal of a drill whose target another run holds the lock of.
pub open spec fn lock_refusal(target_id: Seq<char>) -> Seq<char> {
    "another drill run holds the lock of target.id "@ + debug_quoted(target_id)
        + "; refusing to start"@
}

/// Admits a drill of `config`: refuses a configuration that breaks a rule,
/// then a confirmation that is not exactly the target's id.
pub fn admit_drill(config: &Config, confirmation: &str) -> (r: Result<(), Error>)
    ensures
        r is Ok <==> config_valid(*config) && confirmation@ == config.target.id@,
        match config_refusal(*config) {
            Some(m) => r matches Err(e) && e matches Error::Config(s) && s@ == m,
            None => confirmation@ != config.target.id@ ==> (r matches Err(e) && e matches Error::Config(
                s,
            ) && s@ == confirmation_refusal(config.target.id@)),
        },
{
    validate_config(config)?;
    let given = owned(confirmation);
    if given != config.target.id {
        let mut s = owned("confirmation refused: --confirm must exactly equal target.id ");
        push_debug_quoted(&mut s, config.target.id.as_str());
        return Err(Error::Config(s));
    }
    Ok(())
}

/// Starts a drill of `config` before any command runs: refuses what
/// `admit_drill` refuses, then a drill whose target's lock this run could not
/// take (`lock_acquired` is false: another run on this host holds it).
pub fn start_drill(config: &Config, confirmation: &str, lock_acquired: bool) -> (r: Result<
    DrillProgress,
    Error,
>)
    ensures
        r is Ok <==> config_valid(*config) && confirmation@ == config.target.id@ && lock_acquired,
        match config_refusal(*config) {
            Some(m) => r matches Err(e) && e matches Error::Config(s) && s@ == m,
            None => if confirmation@ != config.target.id@ {
                r matches Err(e) && e matches Error::Config(s) && s@ == confirmation_refusal(
                    config.target.id@,
                )
            } else {
                !lock_acquired ==> (r matches Err(e) && e matches Error::Config(s) && s@
                    == lock_refusal(config.target.id@))
            },
        },
        r matches Ok(p) ==> {
            &&& p.phase == first_phase(*config)
            &&& p.stages@.len() == 0
            &&& p.checks@.len() == 0
            &&& !p.failed
            &&& !p.should_cleanup
            &&& !p.cleanup_succeeded
            &&& p.wf(*config)
        },
{
    admit_drill(config, confirmation)?;
    if !lock_acquired {
        let mut s = owned("another drill run holds the lock of target.id ");
        push_debug_quoted(&mut s, config.target.id.as_str());
        s.append("; refusing to start");
        return Err(Error::Config(s));
    }
    Ok(DrillProgress::new(config))
}

} // verus!
