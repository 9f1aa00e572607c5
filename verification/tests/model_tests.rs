//! Tests for the domain model, the worker and supervisor state, and the
//! configuration types.

use jobqueue::db::DbConfig;
use jobqueue::errors::ActorError;
use jobqueue::events::JobEvent;
use jobqueue::history::history_record;
use jobqueue::ids::{JobId, QueueId};
use jobqueue::job::{Job, JobResult, JobStatus, Priority};
use jobqueue::persistence::StatePersistence;
use jobqueue::queue::{Queue, QueueConfig, QueueState, QueueStats};
use jobqueue::storage::{
    non_empty, object_key, parse_bool_text, S3Config, StorageBackendConfig, StorageConfig,
    StorageKind,
};
use jobqueue::supervisor::SupervisorState;
use jobqueue::worker::{outcome_report, HandlerOutcome, WorkerActorState, WorkerReport};

#[test]
fn job_id_text_round_trip() {
    let id = JobId::new();
    let text = id.text();
    assert_eq!(text.len(), 26);
    assert_eq!(JobId::parse(&text), Ok(id));
}

#[test]
fn job_id_parse_known_values() {
    let id = JobId::parse("01D39ZY06FGSCTVN4T2V9PKHFZ").expect("canonical text parses");
    assert_eq!(id.text(), "01D39ZY06FGSCTVN4T2V9PKHFZ");
    assert!(JobId::parse("not a ulid").is_err());
    assert!(JobId::parse("").is_err());
    assert!(QueueId::parse("01D39ZY06FGSCTVN4T2V9PKHFZ").is_ok());
}

#[test]
fn priority_names_and_ranks() {
    assert_eq!(Priority::from_name("low"), Priority::Low);
    assert_eq!(Priority::from_name("high"), Priority::High);
    assert_eq!(Priority::from_name("critical"), Priority::Critical);
    assert_eq!(Priority::from_name("normal"), Priority::Normal);
    assert_eq!(Priority::from_name("anything else"), Priority::Normal);
    assert!(Priority::Low.rank() < Priority::Normal.rank());
    assert!(Priority::Normal.rank() < Priority::High.rank());
    assert!(Priority::High.rank() < Priority::Critical.rank());
    assert_eq!(Priority::Critical.as_str(), "critical");
}

#[test]
fn status_predicates() {
    let running = JobStatus::Running { started_at: 1, worker_id: "w".to_string() };
    let completed = JobStatus::Completed {
        started_at: 1,
        completed_at: 2,
        result: JobResult::new("ok".to_string()),
    };
    let failed =
        JobStatus::Failed { started_at: 1, failed_at: 2, error: "e".to_string(), attempts: 1 };
    let cancelled = JobStatus::Cancelled { cancelled_at: 2, reason: None };

    assert!(!JobStatus::Pending.is_terminal());
    assert!(!running.is_terminal());
    assert!(completed.is_terminal());
    assert!(failed.is_terminal());
    assert!(cancelled.is_terminal());

    assert!(!JobStatus::Pending.can_retry());
    assert!(!completed.can_retry());
    assert!(failed.can_retry());
    assert!(cancelled.can_retry());

    assert_eq!(JobStatus::Pending.as_str(), "pending");
    assert_eq!(running.as_str(), "running");
    assert_eq!(completed.as_str(), "completed");
    assert_eq!(failed.as_str(), "failed");
    assert_eq!(cancelled.as_str(), "cancelled");
    assert_eq!(JobStatus::Paused.as_str(), "paused");
}

#[test]
fn job_builders() {
    let queue_id = QueueId::new();
    let job = Job::new(queue_id, "echo".to_string(), "{}".to_string())
        .with_priority(Priority::High)
        .with_max_retries(5)
        .with_timeout(60)
        .with_tags(vec!["a".to_string(), "b".to_string()]);
    assert_eq!(job.queue_id, queue_id);
    assert_eq!(job.job_type, "echo");
    assert_eq!(job.payload, "{}");
    assert_eq!(job.priority, Priority::High);
    assert_eq!(job.status, JobStatus::Pending);
    assert_eq!(job.attempts, 0);
    assert_eq!(job.max_retries, 5);
    assert_eq!(job.timeout_secs, 60);
    assert_eq!(job.created_at, job.updated_at);
    assert_eq!(job.tags, vec!["a".to_string(), "b".to_string()]);
}

#[test]
fn queue_defaults_and_predicates() {
    let queue = Queue::new("mail".to_string()).with_description("outbound".to_string());
    assert_eq!(queue.name, "mail");
    assert_eq!(queue.description.as_deref(), Some("outbound"));
    assert_eq!(queue.state, QueueState::Running);
    assert_eq!(queue.config.concurrency, 4);
    assert_eq!(queue.config.default_timeout_secs, 300);
    assert_eq!(queue.config.default_max_retries, 3);
    assert!(queue.is_accepting_jobs());
    assert!(queue.is_processing());

    let paused = Queue { state: QueueState::Paused, ..queue.clone() };
    assert!(!paused.is_accepting_jobs());
    assert!(!paused.is_processing());
    let draining = Queue { state: QueueState::Draining, ..queue };
    assert!(!draining.is_accepting_jobs());
    assert!(draining.is_processing());
    assert_eq!(QueueState::Draining.as_str(), "draining");
    assert_eq!(QueueState::default(), QueueState::Running);
}

#[test]
fn queue_stats_arithmetic() {
    let stats = QueueStats {
        pending: 4,
        running: 2,
        completed: 3,
        failed: 1,
        avg_duration_ms: None,
        throughput_per_min: None,
    };
    assert_eq!(stats.active(), 6);
    assert_eq!(stats.processed(), 4);
    assert_eq!(stats.success_rate(), Some(75));
    let idle = QueueStats::from_counts(0, 0, 0, 0);
    assert_eq!(idle.success_rate(), None);
}

#[test]
fn worker_reports() {
    let job_id = JobId(3);
    let ok = outcome_report(
        job_id,
        "echo",
        HandlerOutcome::Success(JobResult::new("fine".to_string())),
    );
    assert_eq!(
        ok,
        WorkerReport::Completed { job_id, result: JobResult::new("fine".to_string()) }
    );
    let failed = outcome_report(job_id, "echo", HandlerOutcome::Failure("boom".to_string()));
    assert_eq!(failed, WorkerReport::Failed { job_id, error: "boom".to_string() });
    let timed_out = outcome_report(job_id, "echo", HandlerOutcome::TimedOut);
    assert_eq!(timed_out, WorkerReport::Failed { job_id, error: "timeout".to_string() });
    let unroutable = outcome_report(job_id, "transcode", HandlerOutcome::NoHandler);
    assert_eq!(
        unroutable,
        WorkerReport::Failed { job_id, error: "No handler for job type: transcode".to_string() }
    );
}

#[test]
fn worker_state_lifecycle() {
    let queue_id = QueueId(5);
    let mut worker = WorkerActorState::new("worker-1".to_string(), queue_id);
    assert!(worker.is_idle());
    assert!(worker.stop_job("shutdown").is_none());

    let job = Job::new(queue_id, "echo".to_string(), "{}".to_string());
    let job_id = job.id;
    worker.begin_job(job);
    assert!(!worker.is_idle());
    match worker.heartbeat_event(9) {
        JobEvent::WorkerHeartbeat { worker_id, queue_id: qid, current_job, timestamp } => {
            assert_eq!(worker_id, "worker-1");
            assert_eq!(qid, queue_id);
            assert_eq!(current_job, Some(job_id));
            assert_eq!(timestamp, 9);
        }
        other => panic!("unexpected event: {:?}", other),
    }
    match worker.stop_job("rolling restart") {
        Some(WorkerReport::Failed { job_id: id, error }) => {
            assert_eq!(id, job_id);
            assert_eq!(error, "Stopped: rolling restart");
        }
        other => panic!("unexpected report: {:?}", other),
    }
    assert!(worker.is_idle());
    worker.shut_down();
    assert!(!worker.running);
}

#[test]
fn supervisor_registry() {
    let mut sup = SupervisorState::new();
    let a = Queue::new("alpha".to_string());
    let b = Queue::new("beta".to_string());
    sup.register_check(&a).expect("fresh name registers");
    sup.register(a.clone());
    sup.register_check(&b).expect("fresh name registers");
    sup.register(b.clone());

    let dup = Queue::new("alpha".to_string());
    match sup.register_check(&dup) {
        Err(ActorError::Actor(m)) => assert_eq!(m, "queue already registered"),
        other => panic!("duplicate name must be refused: {:?}", other),
    }

    assert!(sup.has_name("alpha"));
    assert!(!sup.has_name("gamma"));
    assert_eq!(sup.get_queue(a.id).as_ref().map(|q| &q.name[..]), Some("alpha"));
    assert!(sup.get_queue(QueueId(0)).is_none());
    assert_eq!(sup.get_queue_by_name("beta").map(|q| q.id), Some(b.id));
    assert!(sup.get_queue_by_name("gamma").is_none());
    assert_eq!(sup.list_queues().len(), 2);

    assert_eq!(sup.next_worker_id(), 1);
    assert_eq!(sup.next_worker_id(), 2);
    assert_eq!(sup.next_worker_id(), 3);

    let removed = sup.remove_queue(a.id).expect("registered queue removes");
    assert_eq!(removed.name, "alpha");
    assert!(sup.remove_queue(a.id).is_none());
    assert_eq!(sup.list_queues().len(), 1);
    assert!(!sup.has_name("alpha"));
}

#[test]
fn persistence_paths() {
    let p = StatePersistence::default_dir();
    assert_eq!(p.base_dir, "./data/queues");
    assert_eq!(p.state_file_path("supervisor"), "./data/queues/supervisor.json");
    assert_eq!(p.temp_file_path("supervisor"), "./data/queues/supervisor.json.tmp");
    let q = StatePersistence::new("/var/lib/state".to_string());
    assert_eq!(q.state_file_path("demo"), "/var/lib/state/demo.json");
}

#[test]
fn db_config_builders() {
    let base = DbConfig::memory();
    assert_eq!(base.endpoint, "mem://");
    assert_eq!(base.namespace, "jobqueue");
    assert_eq!(base.database, "main");
    assert!(base.credentials.is_none());

    let file = DbConfig::file("./data/db".to_string());
    assert_eq!(file.endpoint, "file://./data/db");
    let rocks = DbConfig::rocksdb("/tmp/rocks".to_string());
    assert_eq!(rocks.endpoint, "rocksdb:///tmp/rocks");

    let custom = DbConfig::memory()
        .with_namespace("testing".to_string())
        .with_database("scratch".to_string())
        .with_credentials("root".to_string(), "example-password".to_string());
    assert_eq!(custom.namespace, "testing");
    assert_eq!(custom.database, "scratch");
    assert_eq!(
        custom.credentials,
        Some(("root".to_string(), "example-password".to_string()))
    );
}

#[test]
fn storage_configs() {
    assert_eq!(StorageKind::S3.as_str(), "s3");
    assert_eq!(StorageKind::Filesystem.as_str(), "filesystem");
    assert_eq!(StorageKind::Memory.as_str(), "memory");

    let mem = StorageConfig::memory();
    assert!(matches!(mem.backend, StorageBackendConfig::Memory));
    assert!(mem.prefix.is_none());
    let fs = StorageConfig::filesystem("./data/object_store".to_string());
    match &fs.backend {
        StorageBackendConfig::Filesystem { root } => assert_eq!(root, "./data/object_store"),
        other => panic!("unexpected backend: {:?}", other),
    }
    let s3 = StorageConfig::s3(S3Config {
        bucket: "artifacts".to_string(),
        region: "us-east-1".to_string(),
        endpoint: None,
        allow_http: false,
        access_key_id: None,
        secret_access_key: None,
        session_token: None,
        virtual_hosted_style: false,
    });
    match &s3.backend {
        StorageBackendConfig::S3(cfg) => assert_eq!(cfg.bucket, "artifacts"),
        other => panic!("unexpected backend: {:?}", other),
    }
}

#[test]
fn text_normalisation() {
    assert_eq!(non_empty("  padded  ".to_string()).as_deref(), Some("padded"));
    assert_eq!(non_empty("   ".to_string()), None);
    assert_eq!(non_empty("".to_string()), None);

    assert_eq!(parse_bool_text("1"), Some(true));
    assert_eq!(parse_bool_text(" TRUE "), Some(true));
    assert_eq!(parse_bool_text("Yes"), Some(true));
    assert_eq!(parse_bool_text("y"), Some(true));
    assert_eq!(parse_bool_text("0"), Some(false));
    assert_eq!(parse_bool_text("False"), Some(false));
    assert_eq!(parse_bool_text(" no"), Some(false));
    assert_eq!(parse_bool_text("N"), Some(false));
    assert_eq!(parse_bool_text("maybe"), None);
    assert_eq!(parse_bool_text(""), None);
}

#[test]
fn object_keys() {
    assert_eq!(object_key(&None, "hello.txt").as_deref(), Some("hello.txt"));
    assert_eq!(object_key(&None, "/hello.txt").as_deref(), Some("hello.txt"));
    assert_eq!(object_key(&None, "///"), None);
    assert_eq!(object_key(&None, ""), None);
    let prefix = Some("/example-app/".to_string());
    assert_eq!(object_key(&prefix, "obj.json").as_deref(), Some("example-app/obj.json"));
    let empty_prefix = Some("//".to_string());
    assert_eq!(object_key(&empty_prefix, "obj.json").as_deref(), Some("obj.json"));
}

#[test]
fn history_records() {
    let queue_id = QueueId::new();
    let mut job = Job::new(queue_id, "echo".to_string(), "{}".to_string());
    assert!(history_record(&job).is_none());

    job.status = JobStatus::Cancelled { cancelled_at: 5, reason: Some("why".to_string()) };
    let cancelled = history_record(&job).expect("cancelled is terminal");
    assert_eq!(cancelled.final_status, "cancelled");
    assert_eq!(cancelled.error.as_deref(), Some("why"));
    assert_eq!(cancelled.duration_ms, None);
    assert_eq!(cancelled.job_id, job.id.text());
    assert_eq!(cancelled.queue_id, queue_id.text());

    job.attempts = 0;
    job.status = JobStatus::Completed {
        started_at: 100,
        completed_at: 350,
        result: JobResult::with_output("done".to_string(), "{\"ok\":true}".to_string()),
    };
    let completed = history_record(&job).expect("completed is terminal");
    assert_eq!(completed.final_status, "completed");
    assert_eq!(completed.duration_ms, Some(250));
    assert_eq!(completed.result_summary.as_deref(), Some("done"));
    // A completed job is recorded with at least one attempt.
    assert_eq!(completed.attempts, 1);
}

#[test]
fn event_accessors() {
    let queue_id = QueueId(11);
    let job_id = JobId(12);
    let started = JobEvent::JobStarted {
        job_id,
        queue_id,
        worker_id: "w".to_string(),
        timestamp: 44,
    };
    assert_eq!(started.timestamp(), 44);
    assert_eq!(started.queue_id(), Some(queue_id));
    assert_eq!(started.job_id(), Some(job_id));

    let state_change = JobEvent::QueueStateChanged {
        queue_id,
        old_state: QueueState::Running,
        new_state: QueueState::Paused,
        timestamp: 45,
    };
    assert_eq!(state_change.job_id(), None);
    assert_eq!(state_change.queue_id(), Some(queue_id));

    let heartbeat = JobEvent::WorkerHeartbeat {
        worker_id: "w".to_string(),
        queue_id,
        current_job: None,
        timestamp: 46,
    };
    assert_eq!(heartbeat.job_id(), None);
    assert_eq!(heartbeat.timestamp(), 46);
}

#[test]
fn queue_config_defaults() {
    let config = QueueConfig::default();
    assert_eq!(config.concurrency, 4);
    assert_eq!(config.default_timeout_secs, 300);
    assert_eq!(config.default_max_retries, 3);
    assert_eq!(config.max_queue_size, None);
    assert_eq!(config.rate_limit, None);
}
