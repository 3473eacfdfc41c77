use xedio::greeter::{pod_name_or_unknown, MyGreeter};
use xedio::leader::{
    election_start, election_step, lease_request, ElectionAction, ElectionEvent, ElectionPhase,
    LeaderElection, MyLeaderElection, LEASE_TTL_SECS, RENEW_PERIOD_SECS,
};
use xedio::storage::{
    plan_delete, plan_read, plan_write, DeleteAction, ReadAction, WriteAction,
    delete_reply, file_exists, is_valid_filename, list_reply, lock_is_unshared, read_reply,
    write_reply, ListFilesReply,
};

#[test]
fn greeting_and_pod_name() {
    let g = MyGreeter::default();
    assert_eq!(g.say_hello("TestClient"), "Hello TestClient!");
    assert_eq!(g.say_hello(""), "Hello !");
    assert_eq!(g.get_pod_name(Some("xdata-app-0".to_string())), "xdata-app-0");
    assert_eq!(pod_name_or_unknown(None), "unknown");
}

#[test]
fn leadership_flag_starts_false_and_is_shared() {
    let flag = LeaderElection::new();
    assert!(!flag.leading());
    let service = MyLeaderElection::new(flag.clone());
    flag.publish(true);
    let reply = service.is_leader(Some("xdata-app-1".to_string()));
    assert!(reply.is_leader);
    assert_eq!(reply.leader_id, "xdata-app-1");
    flag.publish(false);
    let reply = service.is_leader(None);
    assert!(!reply.is_leader);
    assert_eq!(reply.leader_id, "unknown");
    assert!(!LeaderElection::default().leading());
}

#[test]
fn lease_request_lowercases_the_tag() {
    let req = lease_request("AbC1XyZ");
    assert_eq!(req.holder_id, "shared-lease-abc1xyz");
    assert_eq!(req.namespace, "xedio");
    assert_eq!(req.lease_name, "shared-lease-example");
    assert_eq!(req.lease_ttl_secs, LEASE_TTL_SECS);
    assert_eq!(LEASE_TTL_SECS, 15);
}

#[test]
fn election_loop_renews_sleeps_and_steps_down() {
    let (phase, step) = election_start();
    assert_eq!(phase, ElectionPhase::Renewing);
    assert_eq!(step.action, ElectionAction::Renew);
    let (phase, step) = election_step(phase, ElectionEvent::Renewed { acquired: true });
    assert_eq!(step.publish, Some(true));
    assert_eq!(step.action, ElectionAction::Sleep { secs: RENEW_PERIOD_SECS });
    assert_eq!(RENEW_PERIOD_SECS, 5);
    let (phase, step) = election_step(phase, ElectionEvent::Slept);
    assert_eq!(step.action, ElectionAction::Renew);
    let (phase, step) = election_step(phase, ElectionEvent::RenewFailed);
    assert_eq!(step.publish, None);
    let (phase, step) = election_step(phase, ElectionEvent::Cancelled);
    assert_eq!(phase, ElectionPhase::SteppingDown);
    assert_eq!(step.action, ElectionAction::StepDown);
    let (phase, step) = election_step(phase, ElectionEvent::SteppedDown { ok: true });
    assert_eq!(phase, ElectionPhase::Stopped);
    assert_eq!(step.publish, Some(false));
    assert_eq!(step.action, ElectionAction::Stop);
}

#[test]
fn failed_step_down_keeps_flag() {
    let (phase, _) = election_step(ElectionPhase::Renewing, ElectionEvent::Cancelled);
    let (phase, step) = election_step(phase, ElectionEvent::SteppedDown { ok: false });
    assert_eq!(phase, ElectionPhase::Stopped);
    assert_eq!(step.publish, None);
    let (_, step) = election_step(ElectionPhase::Resting, ElectionEvent::Cancelled);
    assert_eq!(step.action, ElectionAction::StepDown);
}

#[test]
fn file_names_are_validated() {
    assert!(is_valid_filename("test.txt"));
    assert!(is_valid_filename("a.b.c"));
    assert!(is_valid_filename(""));
    assert!(!is_valid_filename(".."));
    assert!(!is_valid_filename("a..b"));
    assert!(!is_valid_filename("dir/file"));
    assert!(!is_valid_filename("/"));
    assert!(is_valid_filename("."));
}

#[test]
fn replies_carry_exact_messages() {
    let r = write_reply("test.txt", Some(Ok(())));
    assert!(r.success);
    assert_eq!(r.message, "File written successfully: test.txt");
    let r = write_reply("test.txt", Some(Err("disk full".to_string())));
    assert!(!r.success);
    assert_eq!(r.message, "Failed to write file: disk full");
    let r = write_reply("../x", None);
    assert!(!r.success);
    assert_eq!(r.message, "Invalid filename");

    let r = read_reply("test.txt", Some(Ok("Hello, Xedio!".to_string())));
    assert!(r.success);
    assert_eq!(r.content, "Hello, Xedio!");
    assert_eq!(r.message, "File read successfully: test.txt");
    let r = read_reply("test.txt", Some(Err("no such file".to_string())));
    assert_eq!(r.content, "");
    assert_eq!(r.message, "Failed to read file: no such file");
    assert_eq!(read_reply("a/b", None).message, "Invalid filename");

    let r = delete_reply("test.txt", Some(Ok(())));
    assert!(r.success);
    assert_eq!(r.message, "File deleted successfully: test.txt");
    assert_eq!(
        delete_reply("test.txt", Some(Err("busy".to_string()))).message,
        "Failed to delete file: busy"
    );
    assert!(!delete_reply("..", None).success);

    let r = list_reply(Ok(vec!["test.txt".to_string()]));
    assert!(r.success);
    assert_eq!(r.filenames, vec!["test.txt".to_string()]);
    assert_eq!(r.message, "Files listed successfully");
    let r = list_reply(Err("denied".to_string()));
    assert!(!r.success);
    assert!(r.filenames.is_empty());
    assert_eq!(r.message, "Failed to list files: denied");
}

#[test]
fn existence_is_read_from_the_listing() {
    let name = "test.txt".to_string();
    let ok = Ok(ListFilesReply { success: true, filenames: vec!["a".to_string(), name.clone()], message: String::new() });
    assert!(file_exists(&ok, &name));
    let missing = Ok(ListFilesReply { success: true, filenames: vec!["a".to_string()], message: String::new() });
    assert!(!file_exists(&missing, &name));
    let failed_listing = Ok(ListFilesReply { success: false, filenames: vec![name.clone()], message: String::new() });
    assert!(!file_exists(&failed_listing, &name));
    assert!(!file_exists(&Err("unavailable".to_string()), &name));
}

#[test]
fn lock_cleanup_threshold() {
    assert!(lock_is_unshared(2));
    assert!(lock_is_unshared(1));
    assert!(!lock_is_unshared(3));
}

#[test]
fn refused_names_never_reach_the_disk() {
    match plan_write("test.txt".to_string(), "Hello, Xedio!".to_string()) {
        Ok(WriteAction { filename, content }) => {
            assert_eq!(filename, "test.txt");
            assert_eq!(content, "Hello, Xedio!");
        }
        Err(_) => panic!("an acceptable name is written"),
    }
    match plan_write("../etc/passwd".to_string(), "x".to_string()) {
        Err(reply) => {
            assert!(!reply.success);
            assert_eq!(reply.message, "Invalid filename");
        }
        Ok(_) => panic!("a traversal must be refused"),
    }
    match plan_read("/etc/passwd".to_string()) {
        Err(reply) => {
            assert!(!reply.success);
            assert_eq!(reply.content, "");
            assert_eq!(reply.message, "Invalid filename");
        }
        Ok(_) => panic!("an absolute path must be refused"),
    }
    assert!(matches!(plan_read("notes".to_string()), Ok(ReadAction { filename }) if filename == "notes"));
    assert!(matches!(plan_delete("a/b".to_string()), Err(reply) if reply.message == "Invalid filename"));
    assert!(matches!(plan_delete("b".to_string()), Ok(DeleteAction { filename }) if filename == "b"));
}

#[test]
fn flag_follows_the_last_lease_outcome_over_a_run() {
    let events = [
        ElectionEvent::Renewed { acquired: true },
        ElectionEvent::Slept,
        ElectionEvent::RenewFailed,
        ElectionEvent::Slept,
        ElectionEvent::Renewed { acquired: false },
        ElectionEvent::Slept,
        ElectionEvent::Renewed { acquired: true },
        ElectionEvent::Cancelled,
        ElectionEvent::SteppedDown { ok: true },
    ];
    let expected_flag = [true, true, true, true, false, false, true, true, false];
    let (mut phase, mut step) = election_start();
    let mut flag = false;
    if let Some(v) = step.publish {
        flag = v;
    }
    for (event, expected) in events.iter().zip(expected_flag) {
        let (next_phase, next_step) = election_step(phase, *event);
        phase = next_phase;
        step = next_step;
        if let Some(v) = step.publish {
            flag = v;
        }
        assert_eq!(flag, expected, "after {event:?}");
    }
    assert_eq!(phase, ElectionPhase::Stopped);
    assert_eq!(step.action, ElectionAction::Stop);
}
