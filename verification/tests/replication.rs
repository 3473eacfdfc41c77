use std::collections::HashMap;
use xedio::repl_mgr::ReplMgr;
use xedio::primary::{LoopAction, LoopEvent, PrimaryLoop, PrimaryRequest};
use xedio::replication::{
    DataLossAction, ReplicaInfo, ReplicaManager, ReplicaSetConfig, ReplicaSetQuorumMode,
    ReplicaStatus, Role,
};

fn member(id: i64, handle: &str) -> ReplicaInfo<String> {
    ReplicaInfo {
        id,
        role: Role::ActiveSecondary,
        status: ReplicaStatus::Up,
        client: handle.to_string(),
        current_progress: 0,
        catch_up_capability: 0,
        must_catch_up: false,
    }
}

fn config(members: Vec<ReplicaInfo<String>>, write_quorum: usize) -> ReplicaSetConfig<String> {
    ReplicaSetConfig { members, write_quorum }
}

#[test]
fn new_manager_knows_no_replica() {
    let m: ReplicaManager<String> = ReplicaManager::new();
    assert_eq!(m.replica_count(), 0);
    assert!(m.current_ids().is_empty());
    assert!(m.previous_ids().is_empty());
    assert_eq!(m.quorums(), (0, 0));
    let d: ReplicaManager<String> = ReplicaManager::default();
    assert_eq!(d.quorums(), (0, 0));
}

#[test]
fn reconfiguration_keeps_both_sets_and_prefers_current_handles() {
    let mut m = ReplicaManager::new();
    m.update_configuration(
        config(vec![member(1, "a"), member(2, "b"), member(1, "c")], 2),
        config(vec![member(2, "x"), member(3, "y"), member(3, "z")], 3),
    );
    assert_eq!(m.replica_count(), 3);
    assert_eq!(m.handle(1).as_deref(), Some("c"));
    assert_eq!(m.handle(2).as_deref(), Some("b"));
    assert_eq!(m.handle(3).as_deref(), Some("y"));
    assert_eq!(m.handle(4), None);
    assert_eq!(m.current_ids(), vec![1, 2, 1]);
    assert_eq!(m.previous_ids(), vec![2, 3, 3]);
    assert_eq!(m.quorums(), (2, 3));
}

#[test]
fn settling_forgets_the_previous_set() {
    let mut m = ReplicaManager::new();
    m.update_configuration(
        config(vec![member(1, "a")], 1),
        config(vec![member(9, "old")], 1),
    );
    assert_eq!(m.handle(9).as_deref(), Some("old"));
    m.update_current_configuration(config(vec![member(1, "a2"), member(5, "e")], 2));
    assert_eq!(m.replica_count(), 2);
    assert_eq!(m.handle(9), None);
    assert_eq!(m.handle(1).as_deref(), Some("a2"));
    assert!(m.previous_ids().is_empty());
    assert_eq!(m.quorums(), (2, 0));
}

#[test]
fn settling_equals_reconfiguring_from_an_empty_set() {
    let mut settled = ReplicaManager::new();
    settled.update_current_configuration(config(vec![member(1, "a"), member(2, "b")], 2));
    let mut reconfigured = ReplicaManager::new();
    reconfigured.update_configuration(config(vec![member(1, "a"), member(2, "b")], 2), config(vec![], 0));
    for id in 0..4 {
        assert_eq!(settled.handle(id), reconfigured.handle(id));
    }
    assert_eq!(settled.current_ids(), reconfigured.current_ids());
    assert_eq!(settled.previous_ids(), reconfigured.previous_ids());
    assert_eq!(settled.quorums(), reconfigured.quorums());
}

#[test]
fn vocabulary_enums_compare() {
    assert_ne!(DataLossAction::NoChange, DataLossAction::StateChanged);
    assert_ne!(Role::Primary, Role::NoRole);
    assert_ne!(ReplicaSetQuorumMode::All, ReplicaSetQuorumMode::WriteQuorum);
}

#[test]
fn primary_loop_records_successful_builds() {
    let (mut l, first) = PrimaryLoop::new();
    assert!(matches!(first, LoopAction::Receive));
    let a = l.step(LoopEvent::Arrived { request: PrimaryRequest::BuildReplica { replica: 7 } });
    assert!(matches!(a, LoopAction::ReadProgress));
    let a = l.step(LoopEvent::ProgressRead { progress: Ok(42) });
    assert!(matches!(a, LoopAction::Build { replica: 7, up_to_lsn: 42 }));
    let a = l.step(LoopEvent::BuildFinished { outcome: Ok(()) });
    assert!(matches!(a, LoopAction::Reply { answer: Ok(()) }));
    assert_eq!(l.built_up_to(7), Some(42));

    let _ = l.step(LoopEvent::Arrived { request: PrimaryRequest::BuildReplica { replica: 8 } });
    let _ = l.step(LoopEvent::ProgressRead { progress: Ok(50) });
    let a = l.step(LoopEvent::BuildFinished { outcome: Err("copy stream broke".to_string()) });
    match a {
        LoopAction::Reply { answer: Err(e) } => assert_eq!(e, "copy stream broke"),
        _ => panic!("failed build must be answered with its error"),
    }
    assert_eq!(l.built_up_to(8), None);
    assert_eq!(l.built_up_to(7), Some(42));
}

#[test]
fn primary_loop_catch_up_and_demotion() {
    let (mut l, _) = PrimaryLoop::new();
    let a = l.step(LoopEvent::Arrived { request: PrimaryRequest::CatchUpQuorum });
    assert!(matches!(a, LoopAction::ReadProgress));
    let a = l.step(LoopEvent::ProgressRead { progress: Ok(3) });
    assert!(matches!(a, LoopAction::Reply { answer: Ok(()) }));
    let a = l.step(LoopEvent::Arrived { request: PrimaryRequest::DemoteToSecondary });
    assert!(matches!(a, LoopAction::Exit { last_answer: Some(Ok(())), result: Ok(()) }));
}

#[test]
fn primary_loop_stops_on_progress_failure_and_closed_channel() {
    let (mut l, _) = PrimaryLoop::new();
    let _ = l.step(LoopEvent::Arrived { request: PrimaryRequest::BuildReplica { replica: 1 } });
    match l.step(LoopEvent::ProgressRead { progress: Err("state provider gone".to_string()) }) {
        LoopAction::Exit { last_answer: None, result: Err(e) } => assert_eq!(e, "state provider gone"),
        _ => panic!("progress failure must end the loop"),
    }
    let (mut l, _) = PrimaryLoop::new();
    assert!(matches!(l.step(LoopEvent::Closed), LoopAction::Exit { last_answer: None, result: Ok(()) }));
}

#[test]
fn replication_progress_follows_what_was_sent() {
    let mut clients = HashMap::new();
    clients.insert(1i64, Vec::<i64>::new());
    clients.insert(2i64, Vec::<i64>::new());
    let mut mgr = ReplMgr::new(clients);
    assert_eq!(mgr.progress_of(1), None);
    let mut sent = Vec::new();
    for (id, log) in mgr.clients_mut().iter_mut() {
        log.push(7);
        sent.push(*id);
    }
    assert_eq!(mgr.record_replicated(&sent, 7), 7);
    assert_eq!(mgr.progress_of(1), Some(7));
    assert_eq!(mgr.progress_of(2), Some(7));
    assert_eq!(mgr.progress_of(3), None);
    assert_eq!(mgr.clients_mut().get(&1).unwrap(), &vec![7]);
    assert_eq!(mgr.record_replicated(&vec![2], 9), 9);
    assert_eq!(mgr.progress_of(1), Some(7));
    assert_eq!(mgr.progress_of(2), Some(9));
}

#[test]
fn client_ids_name_every_replica_once() {
    let mut clients = HashMap::new();
    clients.insert(3i64, "c".to_string());
    clients.insert(1i64, "a".to_string());
    clients.insert(2i64, "b".to_string());
    let mut mgr = ReplMgr::new(clients);
    let mut ids = mgr.client_ids();
    let targets = ids.clone();
    ids.sort();
    assert_eq!(ids, vec![1, 2, 3]);
    mgr.record_replicated(&targets, 11);
    for id in 1..=3 {
        assert_eq!(mgr.progress_of(id), Some(11));
    }
    let empty: ReplMgr<String> = ReplMgr::new(HashMap::new());
    assert!(empty.client_ids().is_empty());
}
