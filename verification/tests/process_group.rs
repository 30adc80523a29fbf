use fresh_editor::process_group::{
    signal_untracked, Delivery, LocalSignaller, ProcessGroups, ProcessTable, Signal, Signaller,
};
use std::sync::{Arc, Mutex};

#[derive(Debug, Default)]
struct RecordingSignaller {
    calls: Mutex<Vec<(u32, String)>>,
    gone: Vec<u32>,
}

impl Signaller for RecordingSignaller {
    fn signal(&self, leader_pid: u32, signal_name: &str) -> Result<bool, String> {
        self.calls
            .lock()
            .unwrap()
            .push((leader_pid, signal_name.to_string()));
        Ok(!self.gone.contains(&leader_pid))
    }
}

#[test]
fn delayed_signal_and_exit_skip_reused_pid_incarnation() {
    let signaller = Arc::new(RecordingSignaller::default());
    let mut groups = ProcessGroups::new(signaller.clone());
    groups.register(42, "terminal #1");
    let target = groups.entries().to_vec();

    groups.register(42, "terminal #2");
    groups.forget_registration(42, "terminal #1");
    let result = groups.signal_targets("SIGKILL", &target);

    assert!(matches!(result.as_slice(), [(_, Ok(false))]));
    assert!(signaller.calls.lock().unwrap().is_empty());
    assert_eq!(groups.entries()[0].label, "terminal #2");
    assert_ne!(groups.entries()[0].incarnation, target[0].incarnation);
}

#[test]
fn registering_again_for_the_same_owner_changes_nothing() {
    let mut table = ProcessTable::new();
    table.register(7, "terminal #1");
    table.register(7, "terminal #1");
    assert_eq!(table.entries().len(), 1);
    assert_eq!(table.entries()[0].incarnation, 1);
    table.register(7, "lsp:rust");
    assert_eq!(table.entries().len(), 1);
    assert_eq!(table.entries()[0].incarnation, 2);
    assert_eq!(table.entries()[0].label, "lsp:rust");
}

#[test]
fn a_group_that_is_gone_is_dropped_and_not_signalled_again() {
    let signaller = Arc::new(RecordingSignaller {
        calls: Mutex::new(Vec::new()),
        gone: vec![2],
    });
    let mut groups = ProcessGroups::new(signaller.clone());
    groups.register(1, "a");
    groups.register(2, "b");
    groups.register(3, "c");

    let outcomes = groups.signal_all("SIGTERM");
    let answers: Vec<(u32, Result<bool, String>)> = outcomes
        .into_iter()
        .map(|(entry, answer)| (entry.leader_pid, answer))
        .collect();
    assert_eq!(answers, vec![(1, Ok(true)), (2, Ok(false)), (3, Ok(true))]);
    let left: Vec<u32> = groups.entries().iter().map(|e| e.leader_pid).collect();
    assert_eq!(left, vec![1, 3]);

    groups.signal_all("SIGKILL");
    let calls = signaller.calls.lock().unwrap();
    let sent: Vec<(u32, &str)> = calls.iter().map(|(p, s)| (*p, s.as_str())).collect();
    assert_eq!(
        sent,
        vec![
            (1, "SIGTERM"),
            (2, "SIGTERM"),
            (3, "SIGTERM"),
            (1, "SIGKILL"),
            (3, "SIGKILL"),
        ]
    );
}

#[test]
fn another_signaller_takes_over_the_tracked_groups() {
    let first = Arc::new(RecordingSignaller::default());
    let second = Arc::new(RecordingSignaller::default());
    let mut groups = ProcessGroups::new(first.clone());
    groups.register(5, "a");
    groups.set_signaller(second.clone());
    groups.signal_all("SIGHUP");
    assert!(first.calls.lock().unwrap().is_empty());
    assert_eq!(second.calls.lock().unwrap().len(), 1);
    groups.forget(5);
    assert!(groups.entries().is_empty());
}

#[test]
fn local_signals_are_told_apart_by_name() {
    let local = LocalSignaller;
    assert_eq!(local.select_signal("SIGTERM"), Ok(Signal::Term));
    assert_eq!(local.select_signal("SIGKILL"), Ok(Signal::Kill));
    assert_eq!(local.select_signal("SIGINT"), Ok(Signal::Int));
    assert_eq!(local.select_signal("SIGHUP"), Ok(Signal::Hup));
    assert_eq!(
        local.select_signal("SIGWINCH"),
        Err("unsupported signal: SIGWINCH".to_string())
    );
}

#[test]
fn a_failed_delivery_names_the_group_and_the_signal() {
    let local = LocalSignaller;
    assert_eq!(
        local.delivery_outcome(42, "SIGTERM", Delivery::Sent),
        Ok(true)
    );
    assert_eq!(
        local.delivery_outcome(42, "SIGTERM", Delivery::NoSuchGroup),
        Ok(false)
    );
    assert_eq!(
        local.delivery_outcome(
            42,
            "SIGTERM",
            Delivery::Failed("Operation not permitted".to_string())
        ),
        Err("kill(-42, SIGTERM): Operation not permitted".to_string())
    );
}

#[test]
fn the_default_groups_track_nothing() {
    let groups: ProcessGroups<LocalSignaller> = ProcessGroups::default();
    assert!(groups.entries().is_empty());
}

#[derive(Debug)]
struct SilentSignaller;

impl Signaller for SilentSignaller {
    fn signal(&self, _leader_pid: u32, _signal_name: &str) -> Result<bool, String> {
        Err("nobody listens".to_string())
    }
}

#[test]
fn a_signaller_of_another_kind_takes_over() {
    let silent: Arc<dyn Signaller> = Arc::new(SilentSignaller);
    let recording = Arc::new(RecordingSignaller::default());
    let mut groups: ProcessGroups<dyn Signaller> = ProcessGroups::new(silent);
    groups.register(5, "a");
    assert!(matches!(
        groups.signal_all("SIGTERM").as_slice(),
        [(_, Err(e))] if e == "nobody listens"
    ));
    let other: Arc<dyn Signaller> = recording.clone();
    groups.set_signaller(other);
    assert!(matches!(
        groups.signal_all("SIGTERM").as_slice(),
        [(_, Ok(true))]
    ));
    assert_eq!(recording.calls.lock().unwrap().len(), 1);
}

#[test]
fn a_table_signals_what_is_current_and_nothing_else() {
    let signaller = RecordingSignaller {
        calls: Mutex::new(Vec::new()),
        gone: vec![3],
    };
    let mut table = ProcessTable::new();
    table.register(1, "a");
    table.register(2, "b");
    table.register(3, "c");
    let targets = table.snapshot();
    table.register(2, "again");
    let signaller_ref: &dyn Signaller = &signaller;
    let outcomes = table.signal_targets(signaller_ref, "SIGKILL", &targets);
    let answers: Vec<bool> = outcomes
        .iter()
        .map(|(_, answer)| *answer.as_ref().unwrap())
        .collect();
    assert_eq!(answers, [true, false, false]);
    let called: Vec<u32> = signaller
        .calls
        .lock()
        .unwrap()
        .iter()
        .map(|(pid, _)| *pid)
        .collect();
    assert_eq!(called, [1, 3]);
    assert_eq!(table.entries().len(), 2);
}

#[test]
fn groups_that_nothing_tracks_are_signalled_once() {
    let signaller = RecordingSignaller {
        calls: Mutex::new(Vec::new()),
        gone: vec![2],
    };
    let mut table = ProcessTable::new();
    table.register(1, "a");
    table.register(2, "b");
    let outcomes = signal_untracked(&signaller, "SIGKILL", table.entries());
    assert!(matches!(
        outcomes.as_slice(),
        [(_, Ok(true)), (_, Ok(false))]
    ));
    assert_eq!(signaller.calls.lock().unwrap().len(), 2);
    assert_eq!(table.entries().len(), 2);
}
