//! The launcher's run from start to end as a state machine. The program
//! around the library does the work of each phase and reports how it went;
//! the machine says what to log, whether to tell the host that the addin is
//! done, and which phase comes next.

use crate::journal::{log, log_line, NAME};
use crate::text::{push_text, texts, with_prefix};
use vstd::prelude::*;

verus! {

/// Where the launcher is in its run.
#[derive(Clone, Copy, PartialEq, Eq, Structural, Debug)]
pub enum Phase {
    /// The host runtime is to be initialized.
    Start,
    /// The queue that marks a running instance is to be probed.
    SingletonCheck,
    /// The host is to be asked for its program and data directories.
    DirectoryResolution,
    /// The process environment is to be brought in line with those directories.
    EnvironmentNormalization,
    /// The addin's installation is to be found.
    AddinLocation,
    /// The JVM's options are to be put together.
    JvmOptionAssembly,
    /// The JVM is to be created.
    JvmCreation,
    /// The process arguments are to be handed to the JVM as strings.
    ArgumentMarshaling,
    /// The entry point is to be called.
    EntryPointInvocation,
    /// The run is over but for telling the host.
    Shutdown,
    /// Nothing is left to do.
    Terminal,
}

/// How the work of a phase went.
#[derive(Clone, Copy, PartialEq, Eq, Structural, Debug)]
pub enum Outcome {
    /// The work was done.
    Done,
    /// Another instance of the addin was found running.
    AlreadyRunning,
    /// The work failed.
    Failed,
}

/// What the program has to do on leaving a phase.
pub struct Step {
    /// The lines to write to the host's log, in order.
    pub log: Vec<String>,
    /// Whether to tell the host that the addin is done.
    pub terminate: bool,
    /// The phase to go on with.
    pub next: Phase,
}

/// How far into the run a phase is.
pub open spec fn rank(phase: Phase) -> nat {
    match phase {
        Phase::Start => 0,
        Phase::SingletonCheck => 1,
        Phase::DirectoryResolution => 2,
        Phase::EnvironmentNormalization => 3,
        Phase::AddinLocation => 4,
        Phase::JvmOptionAssembly => 5,
        Phase::JvmCreation => 6,
        Phase::ArgumentMarshaling => 7,
        Phase::EntryPointInvocation => 8,
        Phase::Shutdown => 9,
        Phase::Terminal => 10,
    }
}

/// Whether the work of `phase` can fail without ending the program on the spot.
pub open spec fn can_fail(phase: Phase) -> bool {
    phase == Phase::AddinLocation || phase == Phase::JvmCreation || phase
        == Phase::ArgumentMarshaling || phase == Phase::EntryPointInvocation
}

/// Whether `outcome` is one that the work of `phase` can have. The machine
/// passes over an outcome that is none.
pub open spec fn applies(phase: Phase, outcome: Outcome) -> bool {
    match outcome {
        Outcome::Done => phase != Phase::Terminal,
        Outcome::AlreadyRunning => phase == Phase::SingletonCheck,
        Outcome::Failed => can_fail(phase),
    }
}

/// The phase that follows `phase` where its work was done.
pub open spec fn successor(phase: Phase) -> Phase {
    match phase {
        Phase::Start => Phase::SingletonCheck,
        Phase::SingletonCheck => Phase::DirectoryResolution,
        Phase::DirectoryResolution => Phase::EnvironmentNormalization,
        Phase::EnvironmentNormalization => Phase::AddinLocation,
        Phase::AddinLocation => Phase::JvmOptionAssembly,
        Phase::JvmOptionAssembly => Phase::JvmCreation,
        Phase::JvmCreation => Phase::ArgumentMarshaling,
        Phase::ArgumentMarshaling => Phase::EntryPointInvocation,
        Phase::EntryPointInvocation => Phase::Shutdown,
        Phase::Shutdown => Phase::Terminal,
        Phase::Terminal => Phase::Terminal,
    }
}

/// The phase that follows `phase` where its work went as `outcome` says.
pub open spec fn next_phase(phase: Phase, outcome: Outcome) -> Phase {
    if !applies(phase, outcome) {
        phase
    } else {
        match outcome {
            Outcome::Done => successor(phase),
            Outcome::AlreadyRunning => Phase::Terminal,
            Outcome::Failed => Phase::Shutdown,
        }
    }
}

/// Whether the host is told that the addin is done on leaving `phase` with `outcome`.
pub open spec fn terminates(phase: Phase, outcome: Outcome) -> bool {
    applies(phase, outcome) && next_phase(phase, outcome) == Phase::Terminal
}

/// What is logged when the addin's installation could not be found, for `detail`.
pub open spec fn initializing_failure(detail: Seq<char>) -> Seq<char> {
    "Encountered error initializing "@ + NAME@ + ": "@ + detail
}

/// What is logged when the JVM or the entry point failed, for `detail`.
pub open spec fn running_failure(detail: Seq<char>) -> Seq<char> {
    "Encountered error running "@ + NAME@ + ": "@ + detail
}

/// The lines to log on leaving `phase` with `outcome`; `detail` says what failed.
pub open spec fn step_messages(phase: Phase, outcome: Outcome, detail: Seq<char>) -> Seq<
    Seq<char>,
> {
    if !applies(phase, outcome) {
        Seq::empty()
    } else {
        match outcome {
            Outcome::AlreadyRunning => seq![log_line("Already running"@)],
            Outcome::Failed => if phase == Phase::AddinLocation {
                seq![log_line(initializing_failure(detail))]
            } else {
                seq![log_line(running_failure(detail))]
            },
            Outcome::Done => if phase == Phase::SingletonCheck {
                seq![log_line("Starting..."@)]
            } else if phase == Phase::Shutdown {
                seq![log_line("Shutdown"@)]
            } else {
                Seq::empty()
            },
        }
    }
}

/// The phase a run ends in that starts in `phase` and meets `outcomes` in turn.
pub open spec fn run(phase: Phase, outcomes: Seq<Outcome>) -> Phase
    decreases outcomes.len(),
{
    if outcomes.len() == 0 {
        phase
    } else {
        run(next_phase(phase, outcomes[0]), outcomes.skip(1))
    }
}

/// The phases a run comes through that starts in `phase` and meets `outcomes` in turn.
pub open spec fn visited(phase: Phase, outcomes: Seq<Outcome>) -> Seq<Phase>
    decreases outcomes.len(),
{
    if outcomes.len() == 0 {
        seq![phase]
    } else {
        seq![phase] + visited(next_phase(phase, outcomes[0]), outcomes.skip(1))
    }
}

/// How often the host is told that the addin is done in a run that starts
/// in `phase` and meets `outcomes` in turn.
pub open spec fn terminations(phase: Phase, outcomes: Seq<Outcome>) -> nat
    decreases outcomes.len(),
{
    if outcomes.len() == 0 {
        0
    } else {
        let here: nat = if terminates(phase, outcomes[0]) {
            1
        } else {
            0
        };
        here + terminations(next_phase(phase, outcomes[0]), outcomes.skip(1))
    }
}

/// Whether every outcome of `outcomes` is one that the phase it meets can
/// have, on a run that starts in `phase`.
pub open spec fn all_apply(phase: Phase, outcomes: Seq<Outcome>) -> bool
    decreases outcomes.len(),
{
    outcomes.len() == 0 || (applies(phase, outcomes[0]) && all_apply(
        next_phase(phase, outcomes[0]),
        outcomes.skip(1),
    ))
}

/// The phase a run starts in.
pub fn start() -> (r: Phase)
    ensures
        r == Phase::Start,
{
    Phase::Start
}

fn outcome_applies(phase: Phase, outcome: Outcome) -> (r: bool)
    ensures
        r == applies(phase, outcome),
{
    match outcome {
        Outcome::Done => phase != Phase::Terminal,
        Outcome::AlreadyRunning => phase == Phase::SingletonCheck,
        Outcome::Failed => phase == Phase::AddinLocation || phase == Phase::JvmCreation || phase
            == Phase::ArgumentMarshaling || phase == Phase::EntryPointInvocation,
    }
}

fn phase_after(phase: Phase) -> (r: Phase)
    ensures
        r == successor(phase),
{
    match phase {
        Phase::Start => Phase::SingletonCheck,
        Phase::SingletonCheck => Phase::DirectoryResolution,
        Phase::DirectoryResolution => Phase::EnvironmentNormalization,
        Phase::EnvironmentNormalization => Phase::AddinLocation,
        Phase::AddinLocation => Phase::JvmOptionAssembly,
        Phase::JvmOptionAssembly => Phase::JvmCreation,
        Phase::JvmCreation => Phase::ArgumentMarshaling,
        Phase::ArgumentMarshaling => Phase::EntryPointInvocation,
        Phase::EntryPointInvocation => Phase::Shutdown,
        Phase::Shutdown => Phase::Terminal,
        Phase::Terminal => Phase::Terminal,
    }
}

/// Leaves `phase`, whose work went as `outcome` says; `detail` says what
/// failed, where something did. An outcome that the phase cannot have is
/// passed over: the machine stays where it is and asks for nothing.
pub fn advance(phase: Phase, outcome: Outcome, detail: &str) -> (r: Step)
    ensures
        r.next == next_phase(phase, outcome),
        r.terminate == terminates(phase, outcome),
        texts(r.log@) == step_messages(phase, outcome, detail@),
{
    let mut lines: Vec<String> = Vec::new();
    if !outcome_applies(phase, outcome) {
        assert(texts(lines@) =~= step_messages(phase, outcome, detail@));
        return Step { log: lines, terminate: false, next: phase };
    }
    let next = match outcome {
        Outcome::Done => {
            if phase == Phase::SingletonCheck {
                push_text(&mut lines, log("Starting..."));
            } else if phase == Phase::Shutdown {
                push_text(&mut lines, log("Shutdown"));
            }
            phase_after(phase)
        },
        Outcome::AlreadyRunning => {
            push_text(&mut lines, log("Already running"));
            Phase::Terminal
        },
        Outcome::Failed => {
            let mut msg = if phase == Phase::AddinLocation {
                with_prefix("Encountered error initializing ", NAME)
            } else {
                with_prefix("Encountered error running ", NAME)
            };
            msg.append(": ");
            msg.append(detail);
            push_text(&mut lines, log(msg.as_str()));
            Phase::Shutdown
        },
    };
    assert(texts(lines@) =~= step_messages(phase, outcome, detail@));
    Step { log: lines, terminate: next == Phase::Terminal, next }
}

/// A run never goes back: the phase after an outcome is at least as far
/// into the run as the one before, and further where the outcome applies.
pub proof fn lemma_step_moves_on(phase: Phase, outcome: Outcome)
    ensures
        rank(next_phase(phase, outcome)) >= rank(phase),
        applies(phase, outcome) ==> rank(next_phase(phase, outcome)) > rank(phase),
        !applies(phase, outcome) ==> next_phase(phase, outcome) == phase,
{
}

/// Every phase a run comes through is at least as far into the run as the
/// phase it started in, and the run ends in the last of them.
pub proof fn lemma_run_never_goes_back(phase: Phase, outcomes: Seq<Outcome>)
    ensures
        visited(phase, outcomes).len() == outcomes.len() + 1,
        visited(phase, outcomes).last() == run(phase, outcomes),
        forall|i: int|
            0 <= i <= outcomes.len() ==> rank(#[trigger] visited(phase, outcomes)[i]) >= rank(
                phase,
            ),
    decreases outcomes.len(),
{
    if outcomes.len() > 0 {
        let next = next_phase(phase, outcomes[0]);
        lemma_step_moves_on(phase, outcomes[0]);
        lemma_run_never_goes_back(next, outcomes.skip(1));
        let rest = visited(next, outcomes.skip(1));
        assert forall|i: int| 0 <= i <= outcomes.len() implies rank(
            #[trigger] visited(phase, outcomes)[i],
        ) >= rank(phase) by {
            if i > 0 {
                assert(visited(phase, outcomes)[i] == rest[i - 1]);
            }
        }
    }
}

/// A run gets further with every outcome that applies, so it is over
/// after ten of them at the latest.
pub proof fn lemma_run_ends(phase: Phase, outcomes: Seq<Outcome>)
    requires
        all_apply(phase, outcomes),
    ensures
        rank(run(phase, outcomes)) >= rank(phase) + outcomes.len(),
        outcomes.len() <= rank(Phase::Terminal),
    decreases outcomes.len(),
{
    if outcomes.len() > 0 {
        lemma_run_ends(next_phase(phase, outcomes[0]), outcomes.skip(1));
    }
}

/// On every run the host is told at most once that the addin is done, and
/// a run that has not ended before it starts has told the host exactly if
/// it has ended.
pub proof fn lemma_host_is_told_once(phase: Phase, outcomes: Seq<Outcome>)
    ensures
        terminations(phase, outcomes) <= 1,
        phase == Phase::Terminal ==> terminations(phase, outcomes) == 0 && run(phase, outcomes)
            == Phase::Terminal,
        phase != Phase::Terminal ==> (terminations(phase, outcomes) == 1 <==> run(phase, outcomes)
            == Phase::Terminal),
    decreases outcomes.len(),
{
    if outcomes.len() > 0 {
        lemma_host_is_told_once(next_phase(phase, outcomes[0]), outcomes.skip(1));
    }
}

/// No JVM is created on a run that starts behind the creation of the JVM:
/// not once the run is shutting down, and not once it has ended.
pub proof fn lemma_no_jvm_behind_creation(phase: Phase, outcomes: Seq<Outcome>)
    requires
        rank(phase) > rank(Phase::JvmCreation),
    ensures
        !visited(phase, outcomes).contains(Phase::JvmCreation),
{
    lemma_run_never_goes_back(phase, outcomes);
}

/// Where another instance is found running, the run ends on the spot: one
/// line is logged, the host is told, and whatever is reported afterwards no
/// JVM is created and the host is not told again.
pub proof fn lemma_already_running_ends_run(detail: Seq<char>, later: Seq<Outcome>)
    ensures
        next_phase(Phase::SingletonCheck, Outcome::AlreadyRunning) == Phase::Terminal,
        terminates(Phase::SingletonCheck, Outcome::AlreadyRunning),
        step_messages(Phase::SingletonCheck, Outcome::AlreadyRunning, detail) == seq![
            log_line("Already running"@),
        ],
        !visited(Phase::Terminal, later).contains(Phase::JvmCreation),
        terminations(Phase::Terminal, later) == 0,
{
    lemma_no_jvm_behind_creation(Phase::Terminal, later);
    lemma_host_is_told_once(Phase::Terminal, later);
}

/// Where the addin's installation is not found, the failure is logged and
/// the run goes on to shut down: no JVM is created whatever is reported
/// afterwards, and shutting down logs its line and tells the host.
pub proof fn lemma_missing_addin_shuts_down(detail: Seq<char>, later: Seq<Outcome>)
    ensures
        next_phase(Phase::AddinLocation, Outcome::Failed) == Phase::Shutdown,
        !terminates(Phase::AddinLocation, Outcome::Failed),
        step_messages(Phase::AddinLocation, Outcome::Failed, detail) == seq![
            log_line(initializing_failure(detail)),
        ],
        !visited(Phase::Shutdown, later).contains(Phase::JvmCreation),
        next_phase(Phase::Shutdown, Outcome::Done) == Phase::Terminal,
        terminates(Phase::Shutdown, Outcome::Done),
        step_messages(Phase::Shutdown, Outcome::Done, detail) == seq![log_line("Shutdown"@)],
{
    lemma_no_jvm_behind_creation(Phase::Shutdown, later);
}

/// A run that ends after the singleton check has passed went through
/// shutting down: the only way to the end from there is out of `Shutdown`.
pub proof fn lemma_end_comes_after_shutdown(phase: Phase, outcomes: Seq<Outcome>)
    requires
        rank(Phase::SingletonCheck) < rank(phase) < rank(Phase::Terminal),
        run(phase, outcomes) == Phase::Terminal,
    ensures
        visited(phase, outcomes).contains(Phase::Shutdown),
    decreases outcomes.len(),
{
    if phase == Phase::Shutdown {
        assert(visited(phase, outcomes)[0] == phase);
    } else {
        let next = next_phase(phase, outcomes[0]);
        lemma_end_comes_after_shutdown(next, outcomes.skip(1));
        let rest = visited(next, outcomes.skip(1));
        let k = choose|k: int| 0 <= k < rest.len() && rest[k] == Phase::Shutdown;
        assert(visited(phase, outcomes)[k + 1] == rest[k]);
    }
}

} // verus!
