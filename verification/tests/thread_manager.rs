use trill_engine::agent::forward_event;
use trill_engine::agent::forward_op;
use trill_engine::agent::spawn_agent;
use trill_engine::agent::spawn_agent_from_existing;
use trill_engine::agent::AppEvent;
use trill_engine::agent::Forward;
use trill_engine::bootstrap::managed_config_path_from_debug_env;
use trill_engine::bootstrap::merge_config_overrides;
use trill_engine::bootstrap::MANAGED_CONFIG_PATH_ENV_VAR;
use trill_engine::codex::StateDbHandle;
use trill_engine::config_types::AskForApproval;
use trill_engine::config_types::SandboxPolicy;
use trill_engine::config_types::SessionSource;
use trill_engine::pipeline::Event;
use trill_engine::pipeline::EventMsg;
use trill_engine::pipeline::Op;
use trill_engine::pipeline::PipelineClosed;
use trill_engine::pipeline::SessionConfiguredEvent;
use trill_engine::pipeline::Submission;
use trill_engine::protocol::ThreadId;
use trill_engine::status::AgentStatus;
use trill_engine::thread_manager::EngineStart;
use trill_engine::thread_manager::InitializationError;
use trill_engine::thread_manager::NewThread;
use trill_engine::thread_manager::ThreadCreatedPoll;
use trill_engine::thread_manager::ThreadManager;
use trill_engine::thread_manager::ThreadNotFound;
use trill_engine::trill_thread::ThreadConfigSnapshot;

fn snapshot(model: &str) -> ThreadConfigSnapshot {
    ThreadConfigSnapshot {
        model: model.to_string(),
        model_provider_id: "openai".to_string(),
        approval_policy: AskForApproval::UnlessTrusted,
        sandbox_policy: SandboxPolicy::DangerFullAccess,
        cwd: std::path::PathBuf::from("/work"),
        reasoning_effort: None,
        personality: None,
        session_source: SessionSource::Unknown,
    }
}

fn engine() -> Result<EngineStart, String> {
    Ok(EngineStart {
        rollout_path: Some(std::path::PathBuf::from("/r.jsonl")),
        state_db: Some(StateDbHandle { id: 1 }),
    })
}

fn id(value: u64) -> ThreadId {
    ThreadId { value }
}

fn start(manager: &mut ThreadManager) -> ThreadId {
    manager.start_thread(snapshot("gpt"), engine()).unwrap().thread_id
}

#[test]
fn start_thread_registers_and_reports() {
    let mut manager = ThreadManager::new(SessionSource::Mcp, 4);
    assert!(manager.can_start_thread());
    let started = manager.start_thread(snapshot("gpt"), engine()).unwrap();
    assert_eq!(
        started,
        NewThread {
            thread_id: id(0),
            session_configured: SessionConfiguredEvent {
                session_id: id(0),
                model: "gpt".to_string(),
                rollout_path: Some(std::path::PathBuf::from("/r.jsonl")),
            },
        }
    );
    assert_eq!(manager.thread_count(), 1);
    let thread = manager.get_thread(id(0)).unwrap();
    assert_eq!(thread.rollout_path(), Some(std::path::PathBuf::from("/r.jsonl")));
    assert_eq!(thread.state_db(), Some(StateDbHandle { id: 1 }));
    assert_eq!(thread.agent_status(), AgentStatus::PendingInit);
    let mut expected = snapshot("gpt");
    expected.session_source = SessionSource::Mcp;
    assert_eq!(thread.config_snapshot(), expected);
    assert_eq!(start(&mut manager), id(1));
    assert_eq!(manager.thread_count(), 2);
}

#[test]
fn failed_start_leaves_no_thread() {
    let mut manager = ThreadManager::new(SessionSource::Cli, 4);
    let mut receiver = manager.subscribe_thread_created();
    let failed = manager.start_thread(snapshot("gpt"), Err("invalid sandbox policy".to_string()));
    assert_eq!(failed, Err(InitializationError { reason: "invalid sandbox policy".to_string() }));
    assert_eq!(manager.thread_count(), 0);
    assert_eq!(manager.get_thread(id(0)).err(), Some(ThreadNotFound { thread_id: id(0) }));
    assert_eq!(manager.poll_thread_created(&mut receiver), ThreadCreatedPoll::Empty);
    // the id was not used up
    assert_eq!(start(&mut manager), id(0));
}

#[test]
fn removed_thread_is_closed_and_id_not_reused() {
    let mut manager = ThreadManager::new(SessionSource::Cli, 4);
    let first = start(&mut manager);
    assert_eq!(manager.emit(first, EventMsg::TaskStarted), Ok(Ok(())));
    let mut thread = manager.remove_thread(first).unwrap();
    assert_eq!(manager.thread_count(), 0);
    assert_eq!(manager.get_thread(first).err(), Some(ThreadNotFound { thread_id: first }));
    assert_eq!(manager.remove_thread(first).err(), Some(ThreadNotFound { thread_id: first }));
    assert_eq!(thread.submit(Op::Interrupt), Err(PipelineClosed));
    assert_eq!(thread.next_event(), Ok(Some(Event { id: String::new(), msg: EventMsg::TaskStarted })));
    assert_eq!(thread.next_event(), Err(PipelineClosed));
    assert_eq!(start(&mut manager), id(1));
}

#[test]
fn threads_are_isolated() {
    let mut manager = ThreadManager::new(SessionSource::Cli, 4);
    let a = start(&mut manager);
    let b = start(&mut manager);
    assert_eq!(manager.submit(a, Op::UserInput { text: "for a".to_string() }), Ok(Ok("0".to_string())));
    assert_eq!(manager.submit(b, Op::Interrupt), Ok(Ok("0".to_string())));
    assert_eq!(
        manager.submit_with_id(b, Submission { id: "x".to_string(), op: Op::Shutdown }),
        Ok(Ok(()))
    );
    assert_eq!(
        manager.next_submission(a),
        Ok(Some(Submission { id: "0".to_string(), op: Op::UserInput { text: "for a".to_string() } }))
    );
    assert_eq!(manager.next_submission(a), Ok(None));
    assert_eq!(manager.emit(a, EventMsg::TaskComplete), Ok(Ok(())));
    assert_eq!(manager.next_event(b), Ok(Ok(None)));
    assert_eq!(
        manager.next_event(a),
        Ok(Ok(Some(Event { id: "0".to_string(), msg: EventMsg::TaskComplete })))
    );
    assert_eq!(manager.set_status(b, AgentStatus::Running), Ok(()));
    assert_eq!(manager.get_thread(a).unwrap().agent_status(), AgentStatus::PendingInit);
    assert_eq!(manager.get_thread(b).unwrap().agent_status(), AgentStatus::Running);
}

#[test]
fn unknown_threads_are_reported() {
    let mut manager = ThreadManager::new(SessionSource::Cli, 4);
    let missing = ThreadNotFound { thread_id: id(9) };
    assert_eq!(manager.submit(id(9), Op::Interrupt), Err(missing));
    assert_eq!(
        manager.submit_with_id(id(9), Submission { id: "x".to_string(), op: Op::Interrupt }),
        Err(missing)
    );
    assert_eq!(manager.next_event(id(9)), Err(missing));
    assert_eq!(manager.next_submission(id(9)), Err(missing));
    assert_eq!(manager.emit(id(9), EventMsg::TaskStarted), Err(missing));
    assert_eq!(manager.set_status(id(9), AgentStatus::Idle), Err(missing));
    assert_eq!(manager.thread_count(), 0);
}

#[test]
fn late_listener_sees_only_later_threads() {
    let mut manager = ThreadManager::new(SessionSource::Cli, 4);
    let mut early = manager.subscribe_thread_created();
    let _ = start(&mut manager);
    let _ = start(&mut manager);
    let mut late = manager.subscribe_thread_created();
    let _ = start(&mut manager);
    assert_eq!(manager.poll_thread_created(&mut early), ThreadCreatedPoll::Created(id(0)));
    assert_eq!(manager.poll_thread_created(&mut early), ThreadCreatedPoll::Created(id(1)));
    assert_eq!(manager.poll_thread_created(&mut early), ThreadCreatedPoll::Created(id(2)));
    assert_eq!(manager.poll_thread_created(&mut early), ThreadCreatedPoll::Empty);
    assert_eq!(manager.poll_thread_created(&mut late), ThreadCreatedPoll::Created(id(2)));
    assert_eq!(manager.poll_thread_created(&mut late), ThreadCreatedPoll::Empty);
    assert_eq!(manager.poll_thread_created(&mut late), ThreadCreatedPoll::Empty);
}

#[test]
fn slow_listener_is_told_what_it_missed() {
    let mut manager = ThreadManager::new(SessionSource::Cli, 2);
    let mut slow = manager.subscribe_thread_created();
    for _ in 0..5 {
        let _ = start(&mut manager);
    }
    assert_eq!(manager.poll_thread_created(&mut slow), ThreadCreatedPoll::Lagged(3));
    assert_eq!(manager.poll_thread_created(&mut slow), ThreadCreatedPoll::Created(id(3)));
    assert_eq!(manager.poll_thread_created(&mut slow), ThreadCreatedPoll::Created(id(4)));
    assert_eq!(manager.poll_thread_created(&mut slow), ThreadCreatedPoll::Empty);
}

#[test]
fn capacity_of_zero_counts_as_one() {
    let mut manager = ThreadManager::new(SessionSource::Cli, 0);
    let mut listener = manager.subscribe_thread_created();
    let _ = start(&mut manager);
    assert_eq!(manager.poll_thread_created(&mut listener), ThreadCreatedPoll::Created(id(0)));
    let _ = start(&mut manager);
    let _ = start(&mut manager);
    assert_eq!(manager.poll_thread_created(&mut listener), ThreadCreatedPoll::Lagged(1));
    assert_eq!(manager.poll_thread_created(&mut listener), ThreadCreatedPoll::Created(id(2)));
}

#[test]
fn spawn_agent_shows_configured_session() {
    let mut manager = ThreadManager::new(SessionSource::Cli, 4);
    let spawned = spawn_agent(&mut manager, snapshot("gpt"), engine());
    assert_eq!(spawned.thread_id, Some(id(0)));
    assert_eq!(
        spawned.events,
        vec![AppEvent::CodexEvent(Event {
            id: String::new(),
            msg: EventMsg::SessionConfigured(SessionConfiguredEvent {
                session_id: id(0),
                model: "gpt".to_string(),
                rollout_path: Some(std::path::PathBuf::from("/r.jsonl")),
            }),
        })]
    );
    assert_eq!(manager.thread_count(), 1);
}

#[test]
fn spawn_agent_reports_failed_start() {
    let mut manager = ThreadManager::new(SessionSource::Cli, 4);
    let spawned = spawn_agent(&mut manager, snapshot("gpt"), Err("no sandbox".to_string()));
    assert_eq!(spawned.thread_id, None);
    assert_eq!(
        spawned.events,
        vec![
            AppEvent::CodexEvent(Event {
                id: String::new(),
                msg: EventMsg::Error { message: "no sandbox".to_string() },
            }),
            AppEvent::FatalExitRequest("Failed to initialize codex: no sandbox".to_string()),
        ]
    );
    assert_eq!(manager.thread_count(), 0);
}

#[test]
fn existing_session_is_shown_first() {
    let session = SessionConfiguredEvent { session_id: id(4), model: "m".to_string(), rollout_path: None };
    assert_eq!(
        spawn_agent_from_existing(session.clone()),
        AppEvent::CodexEvent(Event { id: String::new(), msg: EventMsg::SessionConfigured(session) })
    );
}

#[test]
fn forwarding_stops_when_thread_ends() {
    let mut manager = ThreadManager::new(SessionSource::Cli, 4);
    let thread = start(&mut manager);
    assert!(forward_op(&mut manager, thread, Op::UserInput { text: "hi".to_string() }));
    assert_eq!(forward_event(&mut manager, thread), Forward::Wait);
    let taken = manager.next_submission(thread).unwrap().unwrap();
    assert_eq!(taken.op, Op::UserInput { text: "hi".to_string() });
    assert_eq!(manager.emit(thread, EventMsg::TaskStarted), Ok(Ok(())));
    assert_eq!(
        forward_event(&mut manager, thread),
        Forward::Send(AppEvent::CodexEvent(Event { id: "0".to_string(), msg: EventMsg::TaskStarted }))
    );
    assert!(!forward_op(&mut manager, id(5), Op::Interrupt));
    assert_eq!(forward_event(&mut manager, id(5)), Forward::Stop);
    let _ = manager.remove_thread(thread);
    assert!(!forward_op(&mut manager, thread, Op::Interrupt));
    assert_eq!(forward_event(&mut manager, thread), Forward::Stop);
}

#[test]
fn managed_config_path_needs_debug_build_and_value() {
    assert_eq!(MANAGED_CONFIG_PATH_ENV_VAR, "CODEX_APP_SERVER_MANAGED_CONFIG_PATH");
    assert_eq!(
        managed_config_path_from_debug_env(true, Some("/tmp/managed.toml".to_string())),
        Some("/tmp/managed.toml".to_string())
    );
    assert_eq!(managed_config_path_from_debug_env(true, Some(String::new())), None);
    assert_eq!(managed_config_path_from_debug_env(true, None), None);
    assert_eq!(managed_config_path_from_debug_env(false, Some("/tmp/managed.toml".to_string())), None);
}

#[test]
fn root_overrides_come_first() {
    assert_eq!(
        merge_config_overrides(
            vec!["reasoning_level=xhigh".to_string()],
            vec!["model=a".to_string(), "x=1".to_string()]
        ),
        ["reasoning_level=xhigh", "model=a", "x=1"]
    );
    assert_eq!(merge_config_overrides(vec![], vec![]), Vec::<String>::new());
}
