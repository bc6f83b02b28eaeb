use vstd::prelude::*;

use crate::child::Error;
use crate::signal::WakeDecision;

verus! {

/// The exit code by which a run asks the supervised loop to run again.
pub const PLEASE_RESTART_EXIT_CODE: i32 = 69;

/// The end of one run of the process, as the supervisor reads its exit code.
#[derive(Debug, Clone, Copy, PartialEq, Eq, Structural)]
pub enum ExitDirective {
    /// A restart was asked for: run the supervised loop again.
    PleaseRestart,
    /// Terminate the process with this code.
    Exit(i32),
}

/// How an exit code is read.
pub open spec fn spec_directive(code: i32) -> ExitDirective {
    if code == PLEASE_RESTART_EXIT_CODE {
        ExitDirective::PleaseRestart
    } else {
        ExitDirective::Exit(code)
    }
}

impl ExitDirective {
    /// Reads an exit code: the reserved restart code asks for another round of
    /// the supervised loop, any other code ends the process with that code.
    pub fn from_code(code: i32) -> (r: ExitDirective)
        ensures
            r == spec_directive(code),
    {
        if code == PLEASE_RESTART_EXIT_CODE {
            ExitDirective::PleaseRestart
        } else {
            ExitDirective::Exit(code)
        }
    }

    /// The exit code that stands for this directive.
    pub fn code(&self) -> (r: i32)
        ensures
            *self is PleaseRestart ==> r == PLEASE_RESTART_EXIT_CODE,
            *self is Exit ==> r == self->Exit_0,
    {
        match self {
            ExitDirective::PleaseRestart => PLEASE_RESTART_EXIT_CODE,
            ExitDirective::Exit(c) => *c,
        }
    }
}

/// The process exit code that the supervised loop ends with, given the exit
/// codes of its rounds in order; `None` while every round asked for a restart.
pub open spec fn spec_loop_exit(codes: Seq<i32>) -> Option<i32>
    decreases codes.len(),
{
    if codes.len() == 0 {
        None
    } else {
        match spec_directive(codes[0]) {
            ExitDirective::Exit(c) => Some(c),
            ExitDirective::PleaseRestart => spec_loop_exit(codes.skip(1)),
        }
    }
}

/// After any number of rounds that asked for a restart, a round that ends
/// with another code `x` ends the process with `x`; the loop goes on exactly
/// while rounds end with the restart code.
pub proof fn lemma_loop_exits_with_first_other_code(n: nat, x: i32)
    requires
        x != PLEASE_RESTART_EXIT_CODE,
    ensures
        spec_loop_exit(Seq::new(n, |i: int| PLEASE_RESTART_EXIT_CODE).push(x)) == Some(x),
        spec_loop_exit(Seq::new(n, |i: int| PLEASE_RESTART_EXIT_CODE)) is None,
    decreases n,
{
    let codes = Seq::new(n, |i: int| PLEASE_RESTART_EXIT_CODE);
    if n > 0 {
        lemma_loop_exits_with_first_other_code((n - 1) as nat, x);
        let rest = Seq::new((n - 1) as nat, |i: int| PLEASE_RESTART_EXIT_CODE);
        assert(codes.push(x).skip(1) =~= rest.push(x));
        assert(codes.skip(1) =~= rest);
    }
}

/// How the process was started.
#[derive(Debug, Clone, Copy, PartialEq, Eq, Structural)]
pub enum RunMode {
    /// Run the application in this process.
    Direct,
    /// Loop, delegating to the latest installed update where there is a newer one.
    Supervised,
}

/// Supervision applies unless a direct run is forced, the binary runs from a
/// development build tree, or it is not the installed binary.
pub fn choose_mode(force_direct: bool, development: bool, same_name: bool) -> (r: RunMode)
    ensures
        r is Supervised <==> (!force_direct && !development && same_name),
{
    if !force_direct && !development && same_name {
        RunMode::Supervised
    } else {
        RunMode::Direct
    }
}

/// Whether any of the arguments is exactly `--force-direct`.
pub fn is_force_direct(args: &Vec<String>) -> (r: bool)
    ensures
        r <==> exists|i: int| 0 <= i < args@.len() && #[trigger] args@[i]@ == "--force-direct"@,
{
    let flag = "--force-direct".to_owned();
    let mut i: usize = 0;
    while i < args.len()
        invariant
            i <= args@.len(),
            flag@ == "--force-direct"@,
            forall|j: int| 0 <= j < i ==> #[trigger] args@[j]@ != "--force-direct"@,
        decreases args@.len() - i,
    {
        if args[i] == flag {
            return true;
        }
        i = i + 1;
    }
    false
}

/// Whether a binary lies at `target/<profile>/<name>`, given the name of the
/// directory two levels above it.
pub fn is_development_layout(grandparent_name: Option<String>) -> (r: bool)
    ensures
        r <==> (grandparent_name is Some && grandparent_name->0@ == "target"@),
{
    proof {
        reveal_strlit("target");
    }
    match grandparent_name {
        Some(name) => name == "target".to_owned(),
        None => false,
    }
}

/// Whether a binary carries the installed name: stem `parity`, extension `exe`.
pub fn has_installed_name(stem: Option<String>, extension: Option<String>) -> (r: bool)
    ensures
        r <==> (stem is Some && stem->0@ == "parity"@ && extension is Some && extension->0@
            == "exe"@),
{
    let stem_ok = match stem {
        Some(s) => s == "parity".to_owned(),
        None => false,
    };
    let ext_ok = match extension {
        Some(e) => e == "exe".to_owned(),
        None => false,
    };
    stem_ok && ext_ok
}

/// Whether the running binary and the latest one are known to differ, given
/// their canonical paths; a path that could not be resolved counts as the same.
pub fn current_binary_not_latest(current: Option<String>, latest: Option<String>) -> (r: bool)
    ensures
        r <==> (current is Some && latest is Some && current->0@ != latest->0@),
{
    match (current, latest) {
        (Some(c), Some(l)) => c != l,
        _ => false,
    }
}

/// What one round of the supervised loop starts with.
#[derive(Debug, Clone, Copy, PartialEq, Eq, Structural)]
pub enum IterationPlan {
    /// Run the latest installed update as a child.
    Delegate,
    /// Run the application in this process.
    Direct,
}

/// A round delegates exactly when an update exists, is not the running
/// binary, and is newer than it.
pub open spec fn spec_plan(have_update: bool, not_latest: bool, newer: bool) -> IterationPlan {
    if have_update && not_latest && newer {
        IterationPlan::Delegate
    } else {
        IterationPlan::Direct
    }
}

/// Decides how a round of the supervised loop starts.
pub fn plan_iteration(have_update: bool, not_latest: bool, newer: bool) -> (r: IterationPlan)
    ensures
        r == spec_plan(have_update, not_latest, newer),
{
    if have_update && not_latest && newer {
        IterationPlan::Delegate
    } else {
        IterationPlan::Direct
    }
}

/// What follows a delegated run.
#[derive(Debug, Clone, Copy, PartialEq, Eq, Structural)]
pub enum AfterDelegation {
    /// The child succeeded: the round ends with this code.
    Finished(i32),
    /// The child failed: run the application in this process instead.
    FallBackDirect,
}

/// A successful child ends the round with code 0; any failure falls back to
/// a direct run.
pub open spec fn spec_after_delegation(res: Result<(), Error>) -> AfterDelegation {
    match res {
        Ok(()) => AfterDelegation::Finished(0),
        Err(_) => AfterDelegation::FallBackDirect,
    }
}

/// Decides what follows a delegated run with result `res`.
pub fn after_delegation(res: &Result<(), Error>) -> (r: AfterDelegation)
    ensures
        r == spec_after_delegation(*res),
{
    match res {
        Ok(()) => AfterDelegation::Finished(0),
        Err(_) => AfterDelegation::FallBackDirect,
    }
}

/// The exit code of one round, given its plan, the result of the child where
/// one was run, and the code of the direct run where one was needed.
pub open spec fn spec_iteration_code(
    plan: IterationPlan,
    child: Result<(), Error>,
    direct_code: i32,
) -> i32 {
    match plan {
        IterationPlan::Direct => direct_code,
        IterationPlan::Delegate => match spec_after_delegation(child) {
            AfterDelegation::Finished(c) => c,
            AfterDelegation::FallBackDirect => direct_code,
        },
    }
}

/// When a round delegates and the child fails, for any reason, the round
/// runs directly and ends with the direct run's code, never the child's.
pub proof fn lemma_failed_delegation_falls_back(
    have_update: bool,
    not_latest: bool,
    newer: bool,
    child: Result<(), Error>,
    direct_code: i32,
)
    requires
        have_update && not_latest && newer,
        child is Err,
    ensures
        spec_plan(have_update, not_latest, newer) == IterationPlan::Delegate,
        spec_after_delegation(child) == AfterDelegation::FallBackDirect,
        spec_iteration_code(spec_plan(have_update, not_latest, newer), child, direct_code)
            == direct_code,
{
}

/// Whether the application may ask the process to restart.
pub fn direct_can_restart(force_can_restart: bool, flag_can_restart: bool) -> (r: bool)
    ensures
        r == (force_can_restart || flag_can_restart),
{
    force_can_restart || flag_can_restart
}

/// How the application of a direct run came to an end.
pub enum DirectOutcome {
    /// It could not be started.
    StartFailed,
    /// It completed at once.
    Completed,
    /// It ran until the restart signal woke the waiter, which decided this.
    Woken(WakeDecision),
}

/// The exit code of a direct run.
pub open spec fn spec_direct_exit_code(outcome: DirectOutcome) -> i32 {
    match outcome {
        DirectOutcome::StartFailed => 1,
        DirectOutcome::Completed => 0,
        DirectOutcome::Woken(WakeDecision::Restart(_)) => PLEASE_RESTART_EXIT_CODE,
        DirectOutcome::Woken(WakeDecision::Shutdown) => 0,
    }
}

/// The exit code of a direct run: 1 where the application failed to start,
/// the restart code where it was asked to restart with a new configuration,
/// and 0 otherwise.
pub fn direct_exit_code(outcome: &DirectOutcome) -> (r: i32)
    ensures
        r == spec_direct_exit_code(*outcome),
{
    match outcome {
        DirectOutcome::StartFailed => 1,
        DirectOutcome::Completed => 0,
        DirectOutcome::Woken(WakeDecision::Restart(_)) => PLEASE_RESTART_EXIT_CODE,
        DirectOutcome::Woken(WakeDecision::Shutdown) => 0,
    }
}

/// The chain the application is configured for.
pub struct ChainSelection {
    /// Whether the test network was asked for.
    pub testnet: bool,
    /// The chain or profile named on the command line.
    pub chain: String,
}

impl ChainSelection {
    /// Applies a pending override: where there is one, the test network flag
    /// is cleared and the override becomes the chain; otherwise nothing changes.
    pub fn apply_override(&mut self, pending: Option<String>)
        ensures
            pending is None ==> final(self).testnet == old(self).testnet && final(self).chain@
                == old(self).chain@,
            pending is Some ==> !final(self).testnet && final(self).chain@ == pending->0@,
    {
        if let Some(chain) = pending {
            self.testnet = false;
            self.chain = chain;
        }
    }
}

} // verus!
