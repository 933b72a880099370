use notebook_checker::engine::{
    Action, EngineRun, Event, HelpRun, Job, ListTask, ListTaskAction, Method, Phase, PlantRun,
    PlantState, RecallRun, RecallState, UsersRun, select_phase,
};
use notebook_checker::fault::Fault;
use notebook_checker::protocol::{banner, help_text};
use notebook_checker::record::NotebookUser;

fn v(s: &[u8]) -> Vec<u8> {
    s.to_vec()
}

fn planted_user(note: &[u8], note_id: &[u8]) -> NotebookUser {
    NotebookUser {
        username: v(b"alice"),
        password: v(b"sup3rs3cret42"),
        note_id: Some(v(note_id)),
        note: Some(v(note)),
        task_chain_id: v(b"tick-7"),
    }
}

fn expect_send(a: Action) -> Vec<u8> {
    match a {
        Action::Send(cmd) => cmd,
        other => panic!("expected a send action, got {:?}", other),
    }
}

#[test]
fn plant_happy_path_stores_only_after_success() {
    let (mut run, a) = PlantRun::start(v(b"tick-7"), v(b"FLAG{abc}"));
    assert!(matches!(a, Action::Connect));

    let reg = expect_send(run.step(Event::Connected(banner())));
    assert!(reg.starts_with(b"reg "));
    assert!(reg.ends_with(b"\n"));

    let log = expect_send(run.step(Event::Response(v(b"User successfully registered"))));
    assert!(log.starts_with(b"log "));

    let set = expect_send(run.step(Event::Response(v(b"Successfully logged in!"))));
    assert_eq!(set, v(b"set FLAG{abc}\n"));

    match run.step(Event::Response(v(b"Note saved! ID is 42!"))) {
        Action::Store(user) => {
            assert_eq!(user.note_id, Some(v(b"42")));
            assert_eq!(user.note, Some(v(b"FLAG{abc}")));
            assert_eq!(user.task_chain_id, v(b"tick-7"));
        }
        other => panic!("expected a store action, got {:?}", other),
    }

    assert!(matches!(run.step(Event::Stored), Action::Finish(Ok(()))));
    assert_eq!(run.st, PlantState::Finished);
}

#[test]
fn plant_aborts_on_rejected_registration() {
    let (mut run, _) = PlantRun::start(v(b"t"), v(b"payload"));
    run.step(Event::Connected(banner()));
    match run.step(Event::Response(v(b"User already exists"))) {
        Action::Finish(Err(Fault::ProtocolFault(m))) => assert_eq!(m, "registration rejected"),
        other => panic!("expected a protocol fault, got {:?}", other),
    }
    assert_eq!(run.st, PlantState::Finished);
}

#[test]
fn plant_rejects_wrong_banner() {
    let (mut run, _) = PlantRun::start(v(b"t"), v(b"payload"));
    match run.step(Event::Connected(v(b"Welcome to the 1337 n0t3b00k?\n> "))) {
        Action::Finish(Err(Fault::ProtocolFault(m))) => assert_eq!(m, "unexpected banner"),
        other => panic!("expected a protocol fault, got {:?}", other),
    }
}

#[test]
fn plant_connect_failure_is_offline() {
    let (mut run, _) = PlantRun::start(v(b"t"), v(b"payload"));
    assert!(matches!(
        run.step(Event::ConnectFailed),
        Action::Finish(Err(Fault::Offline(_)))
    ));
}

#[test]
fn plant_stream_failures_mid_exchange() {
    let (mut run, _) = PlantRun::start(v(b"t"), v(b"p"));
    run.step(Event::Connected(banner()));
    match run.step(Event::StreamEnded) {
        Action::Finish(Err(Fault::ProtocolFault(m))) => assert_eq!(m, "delimiter not found"),
        other => panic!("expected a protocol fault, got {:?}", other),
    }

    let (mut run2, _) = PlantRun::start(v(b"t"), v(b"p"));
    run2.step(Event::Connected(banner()));
    assert!(matches!(
        run2.step(Event::StreamFailed { connection_gone: true }),
        Action::Finish(Err(Fault::Offline(m))) if m == "connection lost"
    ));

    let (mut run3, _) = PlantRun::start(v(b"t"), v(b"p"));
    run3.step(Event::Connected(banner()));
    assert!(matches!(
        run3.step(Event::StreamFailed { connection_gone: false }),
        Action::Finish(Err(Fault::ProtocolFault(m))) if m == "timeout"
    ));
}

#[test]
fn plant_store_failure_is_internal() {
    let (mut run, _) = PlantRun::start(v(b"t"), v(b"p"));
    run.step(Event::Connected(banner()));
    run.step(Event::Response(v(b"User successfully registered")));
    run.step(Event::Response(v(b"Successfully logged in!")));
    run.step(Event::Response(v(b"Note saved! ID is 1!")));
    assert!(matches!(
        run.step(Event::StoreFailed),
        Action::Finish(Err(Fault::InternalFault(m))) if m == "store write failed"
    ));
}

#[test]
fn recall_without_prior_record_is_a_state_fault() {
    let (mut run, a) = RecallRun::start(v(b"never-planted"), true);
    match a {
        Action::Lookup(k) => assert_eq!(k, v(b"never-planted")),
        other => panic!("expected a lookup action, got {:?}", other),
    }
    match run.step(Event::Record(None)) {
        Action::Finish(Err(Fault::StateFault(m))) => assert_eq!(m, "no prior record"),
        other => panic!("expected a state fault, got {:?}", other),
    }
    assert_eq!(run.st, RecallState::Finished);
}

#[test]
fn recall_content_mismatch_is_a_verification_fault() {
    let (mut run, _) = RecallRun::start(v(b"tick-7"), true);
    assert!(matches!(
        run.step(Event::Record(Some(planted_user(b"FLAG{abc}", b"1")))),
        Action::Connect
    ));
    let log = expect_send(run.step(Event::Connected(banner())));
    assert_eq!(log, v(b"log alice sup3rs3cret42\n"));
    let list = expect_send(run.step(Event::Response(v(b"Successfully logged in!"))));
    assert_eq!(list, v(b"list\n"));
    let get = expect_send(run.step(Event::Response(v(b"0: 1"))));
    assert_eq!(get, v(b"get 1\n"));
    match run.step(Event::Response(v(b"FLAG{xyz}"))) {
        Action::Finish(Err(Fault::VerificationFault(m))) => assert_eq!(m, "content mismatch"),
        other => panic!("expected a verification fault, got {:?}", other),
    }
}

#[test]
fn recall_succeeds_on_equal_content() {
    let (mut run, _) = RecallRun::start(v(b"tick-7"), true);
    run.step(Event::Record(Some(planted_user(b"FLAG{abc}", b"1"))));
    run.step(Event::Connected(banner()));
    run.step(Event::Response(v(b"Successfully logged in!")));
    run.step(Event::Response(v(b"0: 1\n1: 2")));
    assert!(matches!(
        run.step(Event::Response(v(b"FLAG{abc}"))),
        Action::Finish(Ok(()))
    ));
}

#[test]
fn recall_missing_listing_entry_is_a_verification_fault() {
    let (mut run, _) = RecallRun::start(v(b"tick-7"), true);
    run.step(Event::Record(Some(planted_user(b"FLAG{abc}", b"9"))));
    run.step(Event::Connected(banner()));
    run.step(Event::Response(v(b"Successfully logged in!")));
    match run.step(Event::Response(v(b"0: 1\n1: 2"))) {
        Action::Finish(Err(Fault::VerificationFault(m))) => {
            assert_eq!(m, "content id missing from listing")
        }
        other => panic!("expected a verification fault, got {:?}", other),
    }
}

#[test]
fn recall_noise_skips_the_listing() {
    let (mut run, _) = RecallRun::start(v(b"tick-7"), false);
    run.step(Event::Record(Some(planted_user(b"sjgorisdr", b"3"))));
    run.step(Event::Connected(banner()));
    let get = expect_send(run.step(Event::Response(v(b"Successfully logged in!"))));
    assert_eq!(get, v(b"get 3\n"));
    assert!(matches!(
        run.step(Event::Response(v(b"sjgorisdr"))),
        Action::Finish(Ok(()))
    ));
}

#[test]
fn recall_incomplete_record_is_a_state_fault() {
    let (mut run, _) = RecallRun::start(v(b"tick-7"), true);
    let mut u = planted_user(b"x", b"1");
    u.note_id = None;
    assert!(matches!(
        run.step(Event::Record(Some(u))),
        Action::Finish(Err(Fault::StateFault(_)))
    ));
}

#[test]
fn recall_store_error_is_internal() {
    let (mut run, _) = RecallRun::start(v(b"tick-7"), true);
    assert!(matches!(
        run.step(Event::LookupFailed),
        Action::Finish(Err(Fault::InternalFault(m))) if m == "store read failed"
    ));
}

#[test]
fn help_exercise_requires_the_exact_text() {
    let (mut run, a) = HelpRun::start(v(b"tick-8"));
    assert!(matches!(a, Action::Connect));
    let first = expect_send(run.step(Event::Connected(banner())));
    if run.authenticated {
        assert!(first.starts_with(b"reg "));
        run.step(Event::Response(v(b"User successfully registered")));
        let help = expect_send(run.step(Event::Response(v(b"Successfully logged in!"))));
        assert_eq!(help, v(b"help\n"));
    } else {
        assert_eq!(first, v(b"help\n"));
    }
    assert!(matches!(
        run.step(Event::Response(help_text())),
        Action::Finish(Ok(()))
    ));
}

#[test]
fn help_mismatch_is_a_verification_fault() {
    let (mut run, _) = HelpRun::start(v(b"tick-8"));
    let first = expect_send(run.step(Event::Connected(banner())));
    if run.authenticated {
        assert!(first.starts_with(b"reg "));
        run.step(Event::Response(v(b"User successfully registered")));
        run.step(Event::Response(v(b"Successfully logged in!")));
    }
    match run.step(Event::Response(v(b"no help for you"))) {
        Action::Finish(Err(Fault::VerificationFault(m))) => assert_eq!(m, "help text mismatch"),
        other => panic!("expected a verification fault, got {:?}", other),
    }
}

#[test]
fn users_exercise_requires_the_name_in_both_listings() {
    let (mut run, _) = UsersRun::start(v(b"tick-9"));
    run.step(Event::Connected(banner()));
    let name = match run.step(Event::Response(v(b"User successfully registered"))) {
        Action::SpawnUserListTasks { username, .. } => username,
        other => panic!("expected the fork action, got {:?}", other),
    };
    let both = Event::UserLists(
        Ok(vec![name.clone(), v(b"someone")]),
        Ok(vec![v(b"someone"), name.clone()]),
    );
    assert!(matches!(run.step(both), Action::Finish(Ok(()))));
}

#[test]
fn users_name_missing_from_unauthenticated_listing_fails() {
    let (mut run, _) = UsersRun::start(v(b"tick-9"));
    run.step(Event::Connected(banner()));
    let name = match run.step(Event::Response(v(b"User successfully registered"))) {
        Action::SpawnUserListTasks { username, .. } => username,
        other => panic!("expected the fork action, got {:?}", other),
    };
    let lists = Event::UserLists(Ok(vec![name.clone()]), Ok(vec![v(b"someone-else")]));
    match run.step(lists) {
        Action::Finish(Err(Fault::VerificationFault(m))) => {
            assert_eq!(m, "registered user missing from listing")
        }
        other => panic!("expected a verification fault, got {:?}", other),
    }
}

#[test]
fn users_subtask_failure_is_surfaced() {
    let (mut run, _) = UsersRun::start(v(b"tick-9"));
    run.step(Event::Connected(banner()));
    run.step(Event::Response(v(b"User successfully registered")));
    let lists = Event::UserLists(
        Err(Fault::ProtocolFault("login rejected")),
        Ok(vec![v(b"x")]),
    );
    assert!(matches!(
        run.step(lists),
        Action::Finish(Err(Fault::ProtocolFault(m))) if m == "login rejected"
    ));
}

#[test]
fn users_join_failure_is_internal() {
    let (mut run, _) = UsersRun::start(v(b"tick-9"));
    run.step(Event::Connected(banner()));
    run.step(Event::Response(v(b"User successfully registered")));
    assert!(matches!(
        run.step(Event::JoinFailed),
        Action::Finish(Err(Fault::InternalFault(m))) if m == "task join failed"
    ));
}

#[test]
fn authenticated_list_task_logs_in_first() {
    let (mut task, a) = ListTask::start_authenticated(v(b"alice42"), v(b"pw"));
    match a {
        ListTaskAction::Send(cmd) => assert_eq!(cmd, v(b"log alice42 pw\n")),
        other => panic!("expected a send action, got {:?}", other),
    }
    match task.step(Event::Response(v(b"Successfully logged in!"))) {
        ListTaskAction::Send(cmd) => assert_eq!(cmd, v(b"user\n")),
        other => panic!("expected a send action, got {:?}", other),
    }
    match task.step(Event::Response(v(b"0: alice42\n1: bob"))) {
        ListTaskAction::Yield(Ok(list)) => assert_eq!(list, vec![v(b"alice42"), v(b"bob")]),
        other => panic!("expected a yield, got {:?}", other),
    }
}

#[test]
fn fresh_list_task_skips_login() {
    let (mut task, a) = ListTask::start_fresh();
    assert!(matches!(a, ListTaskAction::Connect));
    match task.step(Event::Connected(banner())) {
        ListTaskAction::Send(cmd) => assert_eq!(cmd, v(b"user\n")),
        other => panic!("expected a send action, got {:?}", other),
    }
}

#[test]
fn phase_selection_matches_the_method_table() {
    assert!(matches!(select_phase(Method::PutFlag, 0), Ok(Phase::PlantSecret)));
    assert!(matches!(select_phase(Method::GetFlag, 0), Ok(Phase::RecallSecret)));
    assert!(matches!(select_phase(Method::PutNoise, 0), Ok(Phase::PlantNoise)));
    assert!(matches!(select_phase(Method::GetNoise, 0), Ok(Phase::RecallNoise)));
    assert!(matches!(select_phase(Method::Havoc, 0), Ok(Phase::ExerciseHelp)));
    assert!(matches!(select_phase(Method::Havoc, 1), Ok(Phase::ExerciseUsers)));
    assert!(matches!(
        select_phase(Method::PutFlag, 1),
        Err(Fault::InternalFault(m)) if m == "invalid variant"
    ));
    assert!(matches!(
        select_phase(Method::Havoc, 2),
        Err(Fault::InternalFault(_))
    ));
}

#[test]
fn noise_plant_uses_the_filler_payload() {
    let job = Job {
        target_address: v(b"127.0.0.1"),
        correlation_id: v(b"tick-3"),
        phase: Phase::PlantNoise,
        secret: None,
    };
    let (mut run, a) = EngineRun::start(job);
    assert!(matches!(a, Action::Connect));
    run.step(Event::Connected(banner()));
    run.step(Event::Response(v(b"User successfully registered")));
    let set = expect_send(run.step(Event::Response(v(b"Successfully logged in!"))));
    assert_eq!(set, v(b"set sjgorisdr\n"));
    assert!(!run.finished());
}

#[test]
fn secret_plant_job_runs_to_a_stored_record() {
    let job = Job {
        target_address: v(b"127.0.0.1"),
        correlation_id: v(b"tick-5"),
        phase: Phase::PlantSecret,
        secret: Some(v(b"FLAG{xyz}")),
    };
    let (mut run, a) = EngineRun::start(job);
    assert!(matches!(a, Action::Connect));
    run.step(Event::Connected(banner()));
    run.step(Event::Response(v(b"User successfully registered")));
    let set = expect_send(run.step(Event::Response(v(b"Successfully logged in!"))));
    assert_eq!(set, v(b"set FLAG{xyz}\n"));
    match run.step(Event::Response(v(b"Note saved! ID is 7!"))) {
        Action::Store(user) => {
            assert_eq!(user.note, Some(v(b"FLAG{xyz}")));
            assert_eq!(user.note_id, Some(v(b"7")));
        }
        other => panic!("expected a store action, got {:?}", other),
    }
    assert!(matches!(run.step(Event::Stored), Action::Finish(Ok(()))));
    assert!(run.finished());
}

#[test]
fn recall_job_starts_with_a_lookup() {
    let job = Job {
        target_address: v(b"127.0.0.1"),
        correlation_id: v(b"tick-4"),
        phase: Phase::RecallNoise,
        secret: None,
    };
    let (mut run, a) = EngineRun::start(job);
    match a {
        Action::Lookup(k) => assert_eq!(k, v(b"tick-4")),
        other => panic!("expected a lookup action, got {:?}", other),
    }
    assert!(matches!(
        run.step(Event::Record(None)),
        Action::Finish(Err(Fault::StateFault(_)))
    ));
    assert!(run.finished());
}

#[test]
fn generated_identity_is_fresh_and_keyed() {
    let user = NotebookUser::gen_random(v(b"round-12"));
    assert_eq!(user.task_chain_id, v(b"round-12"));
    assert!(user.note.is_none());
    assert!(user.note_id.is_none());
    assert!(user.password.len() >= 12 && user.password.len() < 24);
    assert!(user
        .password
        .iter()
        .all(|b| b.is_ascii_alphanumeric()));
}

#[test]
fn duplicate_copies_every_field() {
    let user = planted_user(b"note", b"17");
    let copy = user.duplicate();
    assert_eq!(copy.username, user.username);
    assert_eq!(copy.password, user.password);
    assert_eq!(copy.note, user.note);
    assert_eq!(copy.note_id, user.note_id);
    assert_eq!(copy.task_chain_id, user.task_chain_id);
}
