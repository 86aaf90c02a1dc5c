use rust_addin::lifecycle::{advance, start, Outcome, Phase, Step};

fn lines(step: &Step) -> Vec<&str> {
    step.log.iter().map(|line| line.as_str()).collect()
}

/// Runs the machine from `phase` and counts how often the host is told.
fn run(mut phase: Phase, outcomes: &[Outcome]) -> (Phase, Vec<String>, usize, Vec<Phase>) {
    let mut log = Vec::new();
    let mut told = 0;
    let mut seen = vec![phase];
    for outcome in outcomes {
        let step = advance(phase, *outcome, "it broke");
        log.extend(step.log);
        if step.terminate {
            told += 1;
        }
        phase = step.next;
        seen.push(phase);
    }
    (phase, log, told, seen)
}

#[test]
fn a_run_starts_at_the_start() {
    assert_eq!(start(), Phase::Start);
}

#[test]
fn already_running_ends_the_run_on_the_spot() {
    let first = advance(start(), Outcome::Done, "");
    assert_eq!(first.next, Phase::SingletonCheck);
    assert!(first.log.is_empty());
    assert!(!first.terminate);

    let second = advance(first.next, Outcome::AlreadyRunning, "");
    assert_eq!(lines(&second), vec!["Rust Addin: Already running"]);
    assert!(second.terminate);
    assert_eq!(second.next, Phase::Terminal);
}

#[test]
fn nothing_happens_after_the_end() {
    for outcome in [Outcome::Done, Outcome::AlreadyRunning, Outcome::Failed] {
        let step = advance(Phase::Terminal, outcome, "late");
        assert_eq!(step.next, Phase::Terminal);
        assert!(step.log.is_empty());
        assert!(!step.terminate);
    }
}

#[test]
fn already_running_builds_no_jvm() {
    let (end, log, told, seen) = run(
        start(),
        &[Outcome::Done, Outcome::AlreadyRunning, Outcome::Done, Outcome::Done, Outcome::Done],
    );
    assert_eq!(end, Phase::Terminal);
    assert_eq!(log, vec!["Rust Addin: Already running".to_string()]);
    assert_eq!(told, 1);
    assert!(!seen.contains(&Phase::JvmCreation));
    assert!(!seen.contains(&Phase::Shutdown));
}

#[test]
fn a_free_queue_starts_the_launch() {
    let step = advance(Phase::SingletonCheck, Outcome::Done, "");
    assert_eq!(lines(&step), vec!["Rust Addin: Starting..."]);
    assert!(!step.terminate);
    assert_eq!(step.next, Phase::DirectoryResolution);
}

#[test]
fn the_phases_follow_each_other() {
    let order = [
        Phase::Start,
        Phase::SingletonCheck,
        Phase::DirectoryResolution,
        Phase::EnvironmentNormalization,
        Phase::AddinLocation,
        Phase::JvmOptionAssembly,
        Phase::JvmCreation,
        Phase::ArgumentMarshaling,
        Phase::EntryPointInvocation,
        Phase::Shutdown,
        Phase::Terminal,
    ];
    for pair in order.windows(2) {
        assert_eq!(advance(pair[0], Outcome::Done, "").next, pair[1]);
    }
}

#[test]
fn a_launch_that_succeeds_shuts_down_once() {
    let (end, log, told, seen) = run(start(), &[Outcome::Done; 10]);
    assert_eq!(end, Phase::Terminal);
    assert_eq!(log, vec!["Rust Addin: Starting...".to_string(), "Rust Addin: Shutdown".to_string()]);
    assert_eq!(told, 1);
    assert!(seen.contains(&Phase::JvmCreation));
    assert_eq!(seen.iter().filter(|phase| **phase == Phase::Shutdown).count(), 1);
}

#[test]
fn a_missing_addin_is_logged_and_shuts_down() {
    let step = advance(Phase::AddinLocation, Outcome::Failed, "no such directory");
    assert_eq!(
        lines(&step),
        vec!["Rust Addin: Encountered error initializing Rust Addin: no such directory"]
    );
    assert!(!step.terminate);
    assert_eq!(step.next, Phase::Shutdown);

    let last = advance(step.next, Outcome::Done, "");
    assert_eq!(lines(&last), vec!["Rust Addin: Shutdown"]);
    assert!(last.terminate);
    assert_eq!(last.next, Phase::Terminal);
}

#[test]
fn a_missing_addin_builds_no_jvm() {
    let (end, log, told, seen) = run(
        start(),
        &[
            Outcome::Done,
            Outcome::Done,
            Outcome::Done,
            Outcome::Done,
            Outcome::Failed,
            Outcome::Done,
            Outcome::Done,
        ],
    );
    assert_eq!(end, Phase::Terminal);
    assert_eq!(
        log,
        vec![
            "Rust Addin: Starting...".to_string(),
            "Rust Addin: Encountered error initializing Rust Addin: it broke".to_string(),
            "Rust Addin: Shutdown".to_string(),
        ]
    );
    assert_eq!(told, 1);
    assert!(!seen.contains(&Phase::JvmOptionAssembly));
    assert!(!seen.contains(&Phase::JvmCreation));
}

#[test]
fn a_failure_of_the_jvm_is_logged_and_shuts_down() {
    for phase in [Phase::JvmCreation, Phase::ArgumentMarshaling, Phase::EntryPointInvocation] {
        let step = advance(phase, Outcome::Failed, "Encountered exception initializing JVM");
        assert_eq!(
            lines(&step),
            vec!["Rust Addin: Encountered error running Rust Addin: Encountered exception initializing JVM"]
        );
        assert!(!step.terminate);
        assert_eq!(step.next, Phase::Shutdown);
    }
}

#[test]
fn an_outcome_that_does_not_apply_is_passed_over() {
    for phase in [
        Phase::Start,
        Phase::SingletonCheck,
        Phase::DirectoryResolution,
        Phase::EnvironmentNormalization,
        Phase::JvmOptionAssembly,
        Phase::Shutdown,
    ] {
        let step = advance(phase, Outcome::Failed, "x");
        assert_eq!(step.next, phase);
        assert!(step.log.is_empty());
        assert!(!step.terminate);
    }
    for phase in [Phase::Start, Phase::AddinLocation, Phase::JvmCreation, Phase::Shutdown] {
        let step = advance(phase, Outcome::AlreadyRunning, "x");
        assert_eq!(step.next, phase);
        assert!(step.log.is_empty());
        assert!(!step.terminate);
    }
}

#[test]
fn the_host_is_told_at_most_once_on_any_run() {
    let all = [Outcome::Done, Outcome::AlreadyRunning, Outcome::Failed];
    // every run of six outcomes from every phase
    let phases = [
        Phase::Start,
        Phase::SingletonCheck,
        Phase::DirectoryResolution,
        Phase::EnvironmentNormalization,
        Phase::AddinLocation,
        Phase::JvmOptionAssembly,
        Phase::JvmCreation,
        Phase::ArgumentMarshaling,
        Phase::EntryPointInvocation,
        Phase::Shutdown,
        Phase::Terminal,
    ];
    for phase in phases {
        for code in 0..729usize {
            let mut outcomes = Vec::new();
            let mut rest = code;
            for _ in 0..6 {
                outcomes.push(all[rest % 3]);
                rest /= 3;
            }
            let (end, _, told, _) = run(phase, &outcomes);
            assert!(told <= 1);
            if phase != Phase::Terminal {
                assert_eq!(told == 1, end == Phase::Terminal);
            } else {
                assert_eq!(told, 0);
            }
        }
    }
}
