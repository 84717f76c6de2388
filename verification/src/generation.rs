//! The decisions of the generation pipeline: how many modules to generate
//! and what to report, what status a module gets from the verifier's verdict
//! and the outcome of its run, how many workers to start, and where an
//! error case is written.
use vstd::prelude::*;

use crate::Status;

verus! {

/// How often, in generated modules, progress is reported.
pub const REPORT_INTERVAL: u128 = 100;

/// The counts of one generation run, as numbers.
pub struct FrameCounts {
    /// Modules to generate at most (the first one is generated in any case).
    pub limit: int,
    /// Modules generated so far.
    pub generated: int,
    /// Statuses received so far.
    pub received: int,
    pub verification_failures: int,
    pub execution_failures: int,
}

/// The bookkeeping of the producer of modules. Each generated module but the
/// last one has been handed to a worker, and each status received answers
/// one module handed out.
pub struct FrameStats {
    limit: u128,
    generated: u128,
    received: u128,
    verification_failures: u128,
    execution_failures: u128,
}

impl View for FrameStats {
    type V = FrameCounts;

    closed spec fn view(&self) -> FrameCounts {
        FrameCounts {
            limit: self.limit as int,
            generated: self.generated as int,
            received: self.received as int,
            verification_failures: self.verification_failures as int,
            execution_failures: self.execution_failures as int,
        }
    }
}

/// The counts hang together: at least one module is generated and no more
/// than the limit beyond the first; fewer statuses than generated modules
/// have arrived, and each failure was one of them.
pub open spec fn counts_wf(c: FrameCounts) -> bool {
    &&& 1 <= c.generated
    &&& c.generated <= c.limit || c.generated == 1
    &&& 0 <= c.received < c.generated
    &&& 0 <= c.verification_failures
    &&& 0 <= c.execution_failures
    &&& c.verification_failures + c.execution_failures <= c.received
    &&& c.limit <= u128::MAX
}

/// The limit for `num_iters` requested modules, or as many as a `u128` counts.
pub open spec fn spec_iteration_limit(num_iters: Option<u64>) -> int {
    match num_iters {
        Some(n) => n as int,
        None => u128::MAX as int,
    }
}

impl FrameStats {
    pub closed spec fn wf(&self) -> bool {
        counts_wf(self@)
    }

    /// The bookkeeping after the first module is generated.
    pub fn new(num_iters: Option<u64>) -> (r: FrameStats)
        ensures
            r.wf(),
            r@.limit == spec_iteration_limit(num_iters),
            num_iters matches Some(n) ==> r@.limit == n as int,
            num_iters is None ==> r@.limit == u128::MAX as int,
            r@.generated == 1,
            r@.received == 0,
            r@.verification_failures == 0,
            r@.execution_failures == 0,
    {
        let limit: u128 = match num_iters {
            Some(n) => n as u128,
            None => u128::MAX,
        };
        FrameStats {
            limit,
            generated: 1,
            received: 0,
            verification_failures: 0,
            execution_failures: 0,
        }
    }

    /// Whether the current module is to be handed out and another one
    /// generated.
    pub fn wants_more(&self) -> (r: bool)
        requires
            self.wf(),
        ensures
            r == (self@.generated < self@.limit),
    {
        self.generated < self.limit
    }

    /// Counts a newly generated module.
    pub fn module_generated(&mut self)
        requires
            old(self).wf(),
            old(self)@.generated < old(self)@.limit,
        ensures
            final(self).wf(),
            final(self)@ == (FrameCounts { generated: old(self)@.generated + 1, ..old(self)@ }),
    {
        self.generated = self.generated + 1;
    }

    /// Whether a module handed out still awaits its status.
    pub fn awaits_status(&self) -> (r: bool)
        requires
            self.wf(),
        ensures
            r == (self@.received + 1 < self@.generated),
    {
        self.received + 1 < self.generated
    }

    /// Counts a status received from a worker.
    pub fn record(&mut self, status: Status)
        requires
            old(self).wf(),
            old(self)@.received + 1 < old(self)@.generated,
        ensures
            final(self).wf(),
            final(self)@.limit == old(self)@.limit,
            final(self)@.generated == old(self)@.generated,
            final(self)@.received == old(self)@.received + 1,
            final(self)@.verification_failures == old(self)@.verification_failures + (
            if status == Status::VerificationFailure {
                1int
            } else {
                0int
            }),
            final(self)@.execution_failures == old(self)@.execution_failures + (
            if status == Status::ExecutionFailure {
                1int
            } else {
                0int
            }),
    {
        self.received = self.received + 1;
        match status {
            Status::VerificationFailure => {
                self.verification_failures = self.verification_failures + 1;
            },
            Status::ExecutionFailure => {
                self.execution_failures = self.execution_failures + 1;
            },
            Status::Valid => {},
        }
    }

    /// Whether progress is to be reported now: every `REPORT_INTERVAL`
    /// generated modules.
    pub fn report_due(&self) -> (r: bool)
        requires
            self.wf(),
        ensures
            r == (self@.generated % (REPORT_INTERVAL as int) == 0),
    {
        self.generated > 0 && self.generated % REPORT_INTERVAL == 0
    }

    /// Modules generated so far.
    pub fn generated(&self) -> (r: u128)
        requires
            self.wf(),
        ensures
            r == self@.generated,
    {
        self.generated
    }

    /// Modules generated that did not fail verification (as far as known).
    pub fn verified(&self) -> (r: u128)
        requires
            self.wf(),
        ensures
            r == self@.generated - self@.verification_failures,
    {
        self.generated - self.verification_failures
    }

    /// Modules generated that did not fail when run (as far as known).
    pub fn executed(&self) -> (r: u128)
        requires
            self.wf(),
        ensures
            r == self@.generated - self@.execution_failures,
    {
        self.generated - self.execution_failures
    }
}

/// In every state the reported counts lie between 1 and the number of
/// generated modules, and together they exceed it: no module counts as both
/// a verification failure and an execution failure, and the last module
/// generated has not been reported on.
pub proof fn law_reported_counts_bounded(s: FrameStats)
    requires
        s.wf(),
    ensures
        1 <= s@.generated - s@.verification_failures <= s@.generated,
        1 <= s@.generated - s@.execution_failures <= s@.generated,
        (s@.generated - s@.verification_failures) + (s@.generated - s@.execution_failures)
            > s@.generated,
{
}

/// No run generates more modules than were asked for, beyond the first.
pub proof fn law_generation_within_limit(s: FrameStats)
    requires
        s.wf(),
    ensures
        s@.generated <= s@.limit || s@.generated == 1,
{
}


/// The settings that govern what happens to a generated module.
#[derive(Debug, Clone, Copy, PartialEq, Eq, Structural)]
pub struct GenerationSettings {
    /// Whether a module that the bytecode verifier rejects is run anyway.
    pub execute_unverified_module: bool,
    /// Whether modules are run on the VM at all.
    pub run_on_vm: bool,
}

/// How the run of a module on the VM ended.
#[derive(Debug, Clone, Copy, PartialEq, Eq, Structural)]
pub enum ExecutionOutcome {
    /// The entry function returned.
    Completed,
    /// The run stopped on an arithmetic error.
    ArithmeticError,
    /// The run ran out of gas.
    OutOfGas,
    /// The run failed in any other way.
    OtherError,
}

/// What follows the bytecode verifier's verdict on a module.
#[derive(Debug, Clone, Copy, PartialEq, Eq, Structural)]
pub struct VerificationStep {
    /// The module's status if it is not run, or if its run fails in a way
    /// that counts against it.
    pub status: Status,
    /// Whether the module is written out as an error case.
    pub record_error_case: bool,
    /// Whether the module is run on the VM.
    pub run_on_vm: bool,
}

/// What follows the run of a module on the VM.
#[derive(Debug, Clone, Copy, PartialEq, Eq, Structural)]
pub struct ExecutionStep {
    pub status: Status,
    pub record_error_case: bool,
}

/// A module the verifier accepts is run when modules are run at all, and
/// then fails only by its run; one it rejects is written out as an error
/// case and is run only when unverified modules are executed. A module that
/// is kept but not run counts as valid.
pub open spec fn spec_after_verification(settings: GenerationSettings, verified: bool) -> VerificationStep {
    let kept = verified || settings.execute_unverified_module;
    VerificationStep {
        status: if kept && !settings.run_on_vm {
            Status::Valid
        } else if verified {
            Status::ExecutionFailure
        } else {
            Status::VerificationFailure
        },
        record_error_case: !verified,
        run_on_vm: kept && settings.run_on_vm,
    }
}

/// A run that completes, or stops on an arithmetic error or for want of
/// gas, makes the module valid; any other failure keeps the status it had
/// and writes the module out as an error case.
pub open spec fn spec_after_execution(status: Status, outcome: ExecutionOutcome) -> ExecutionStep {
    match outcome {
        ExecutionOutcome::OtherError => ExecutionStep { status, record_error_case: true },
        _ => ExecutionStep { status: Status::Valid, record_error_case: false },
    }
}

/// The step after the bytecode verifier accepted (`verified`) or rejected a
/// module.
pub fn after_verification(settings: GenerationSettings, verified: bool) -> (r: VerificationStep)
    ensures
        r == spec_after_verification(settings, verified),
        r.record_error_case == !verified,
        r.run_on_vm == ((verified || settings.execute_unverified_module) && settings.run_on_vm),
        r.status == Status::Valid ==> (verified || settings.execute_unverified_module)
            && !settings.run_on_vm,
        !verified && !settings.execute_unverified_module ==> r.status
            == Status::VerificationFailure,
{
    let mut status = Status::VerificationFailure;
    let kept = if verified {
        status = Status::ExecutionFailure;
        true
    } else {
        settings.execute_unverified_module
    };
    let run_on_vm = kept && settings.run_on_vm;
    if kept && !settings.run_on_vm {
        status = Status::Valid;
    }
    VerificationStep { status, record_error_case: !verified, run_on_vm }
}

/// The step after a module with status `status` was run with `outcome`.
pub fn after_execution(status: Status, outcome: ExecutionOutcome) -> (r: ExecutionStep)
    ensures
        r == spec_after_execution(status, outcome),
        outcome == ExecutionOutcome::OtherError ==> r.status == status && r.record_error_case,
        outcome != ExecutionOutcome::OtherError ==> r.status == Status::Valid
            && !r.record_error_case,
{
    match outcome {
        ExecutionOutcome::Completed | ExecutionOutcome::ArithmeticError
        | ExecutionOutcome::OutOfGas => ExecutionStep {
            status: Status::Valid,
            record_error_case: false,
        },
        ExecutionOutcome::OtherError => ExecutionStep { status, record_error_case: true },
    }
}

/// Only a module that the verifier rejected counts as a verification
/// failure, and a module that it accepted is never written out before it is
/// run.
pub proof fn law_verification_failure_only_when_rejected(
    settings: GenerationSettings,
    verified: bool,
    outcome: ExecutionOutcome,
)
    ensures
        spec_after_verification(settings, verified).status == Status::VerificationFailure
            ==> !verified,
        verified ==> !spec_after_verification(settings, verified).record_error_case,
        spec_after_verification(settings, verified).run_on_vm ==> spec_after_execution(
            spec_after_verification(settings, verified).status,
            outcome,
        ).status == Status::VerificationFailure ==> !verified,
{
}

/// The status of a module after the verifier's verdict. A rejected module is
/// written out as an error case, and only a rejected one; a module is run
/// exactly when it is kept (accepted, or unverified modules are executed)
/// and modules are run at all. A module counts as valid before any run only
/// when it is kept and not run; a rejected module that is not executed stays
/// a verification failure; a kept module that is run starts as an execution
/// failure if accepted and as a verification failure if rejected.
pub proof fn law_status_after_verification(settings: GenerationSettings, verified: bool)
    ensures
        spec_after_verification(settings, verified).record_error_case == !verified,
        spec_after_verification(settings, verified).run_on_vm == ((verified
            || settings.execute_unverified_module) && settings.run_on_vm),
        spec_after_verification(settings, verified).status == Status::Valid <==> ((verified
            || settings.execute_unverified_module) && !settings.run_on_vm),
        !verified && !settings.execute_unverified_module ==> spec_after_verification(
            settings,
            verified,
        ).status == Status::VerificationFailure,
        verified && settings.run_on_vm ==> spec_after_verification(settings, verified).status
            == Status::ExecutionFailure,
        !verified && settings.run_on_vm ==> spec_after_verification(settings, verified).status
            == Status::VerificationFailure,
{
}

/// The status of a module after its run: a run that completes, or stops on
/// an arithmetic error or for want of gas, makes it valid and writes
/// nothing; any other failure keeps the status it had and writes the module
/// out as an error case.
pub proof fn law_status_after_execution(status: Status, outcome: ExecutionOutcome)
    ensures
        outcome == ExecutionOutcome::OtherError ==> spec_after_execution(status, outcome).status
            == status && spec_after_execution(status, outcome).record_error_case,
        outcome != ExecutionOutcome::OtherError ==> spec_after_execution(status, outcome).status
            == Status::Valid && !spec_after_execution(status, outcome).record_error_case,
{
}

/// The iteration limit is the number of modules requested, or, when none is
/// requested, the largest `u128`.
pub proof fn law_iteration_limit(num_iters: Option<u64>)
    ensures
        num_iters matches Some(n) ==> spec_iteration_limit(num_iters) == n as int,
        num_iters is None ==> spec_iteration_limit(num_iters) == u128::MAX as int,
{
}

/// Calls `num_cpus::get`, the number of logical CPUs available to this
/// process, which its documentation promises is at least 1.
#[verifier::external_body]
fn available_cpus() -> (r: usize)
    ensures
        r >= 1,
{
    num_cpus::get()
}

/// The number of worker threads: the one requested, or else the number
/// `available` of CPUs.
pub open spec fn spec_thread_count(requested: Option<u64>, available: usize) -> usize {
    match requested {
        Some(k) => k as usize,
        None => available,
    }
}

/// The number of worker threads for `requested` when `available` CPUs are
/// at hand. The number must not be zero: a run needs a worker.
pub fn choose_thread_count(requested: Option<u64>, available: usize) -> (r: usize)
    requires
        spec_thread_count(requested, available) > 0,
    ensures
        r == spec_thread_count(requested, available),
        r > 0,
{
    match requested {
        Some(k) => k as usize,
        None => available,
    }
}

/// The number of worker threads: the one requested, else one per CPU. A
/// request must not be for zero workers.
pub fn thread_count(requested: Option<u64>) -> (r: usize)
    requires
        requested matches Some(k) ==> k as usize > 0,
    ensures
        requested is Some ==> r == spec_thread_count(requested, 0),
        r >= 1,
{
    match requested {
        Some(_) => choose_thread_count(requested, 0),
        None => {
            let available = available_cpus();
            choose_thread_count(None, available)
        },
    }
}

/// The decimal digit `d` as a character.
pub open spec fn digit_char(d: int) -> char {
    ((48 + d) as u8) as char
}

/// The decimal notation of `n`, without leading zeros.
pub open spec fn decimal(n: nat) -> Seq<char>
    decreases n,
{
    if n < 10 {
        seq![digit_char(n as int)]
    } else {
        decimal(n / 10).push(digit_char((n % 10) as int))
    }
}

/// Calls `String::push`, which appends `c` to `s`.
#[verifier::external_body]
fn push_char(s: &mut String, c: char)
    ensures
        final(s)@ == old(s)@.push(c),
{
    s.push(c)
}

/// Appends the decimal notation of `n` to `s`.
fn push_decimal(s: &mut String, n: u64)
    ensures
        final(s)@ == old(s)@ + decimal(n as nat),
    decreases n,
{
    if n >= 10 {
        push_decimal(s, n / 10);
    }
    let d: u8 = (n % 10) as u8;
    let c: char = (48u8 + d) as char;
    push_char(s, c);
    proof {
        if n < 10 {
            assert(old(s)@ + decimal(n as nat) =~= old(s)@.push(c));
        } else {
            assert(old(s)@ + decimal(n as nat) =~= (old(s)@ + decimal((n / 10) as nat)).push(c));
        }
    }
}

/// The file that error case `case_id` of worker `tid` is written to, in the
/// directory `path`: `{path}/case{tid}_{case_id}.module`.
pub open spec fn spec_error_case_path(path: Seq<char>, tid: u64, case_id: u64) -> Seq<char> {
    path + "/case"@ + decimal(tid as nat) + "_"@ + decimal(case_id as nat) + ".module"@
}

/// The file that error case `case_id` of worker `tid` is written to.
pub fn error_case_path(path: &str, tid: u64, case_id: u64) -> (r: String)
    ensures
        r@ == spec_error_case_path(path@, tid, case_id),
{
    let mut s = String::from_str(path);
    s.append("/case");
    push_decimal(&mut s, tid);
    s.append("_");
    push_decimal(&mut s, case_id);
    s.append(".module");
    s
}

} // verus!
