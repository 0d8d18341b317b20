use aur_builder::config::{get_image_name, GiteaSettings};
use aur_builder::job::{BuildJob, JobAction, JobEvent, JobPhase};
use aur_builder::orchestrator::{
    classify_wait, container_env, container_name, container_spec, log_line, source_url_for,
    BuildFailure, LogStream, WaitOutcome,
};
use aur_builder::types::{
    BuildTaskTransmissionFormat, EnvironmentVariable, Timestamp, Timestamps, STATUS_UNAVAILABLE,
};

fn task() -> BuildTaskTransmissionFormat {
    BuildTaskTransmissionFormat {
        id: 1,
        name: "foo".to_string(),
        version: "1.0".to_string(),
        source: None,
        subfolder: None,
        options: None,
        env: None,
    }
}

fn gitea() -> GiteaSettings {
    GiteaSettings {
        repo: "https://git.example.org/pkgs".to_string(),
        user: "builder".to_string(),
        token: "SECRET-REDACTED".to_string(),
    }
}

fn stamps() -> Timestamps {
    Timestamps { start: Timestamp { secs: 1, nanos: 0 }, end: Timestamp { secs: 2, nanos: 0 } }
}

#[test]
fn exit_zero_is_success_with_status_zero() {
    let r = classify_wait(WaitOutcome::Exited { status_code: 0 }, task(), vec![], stamps()).unwrap();
    assert!(r.success);
    assert_eq!(r.status_code, 0);
    assert_eq!(r.task.name, "foo");
}

#[test]
fn error_exit_code_is_failure_with_that_code() {
    let r = classify_wait(
        WaitOutcome::ExitError { code: 2 },
        task(),
        vec!["stderr: boom".to_string()],
        stamps(),
    )
    .unwrap();
    assert!(!r.success);
    assert_eq!(r.status_code, 2);
    assert_eq!(r.log_lines, vec!["stderr: boom".to_string()]);
}

#[test]
fn outcome_without_exit_code_is_not_classified() {
    assert_eq!(
        classify_wait(WaitOutcome::RuntimeError, task(), vec![], stamps()).unwrap_err(),
        BuildFailure::WaitFailed
    );
    assert_eq!(
        classify_wait(WaitOutcome::StreamEnded, task(), vec![], stamps()).unwrap_err(),
        BuildFailure::WaitEnded
    );
    assert_eq!(STATUS_UNAVAILABLE, -5);
}

fn start(job_task: BuildTaskTransmissionFormat) -> BuildJob {
    let (job, first) = BuildJob::new(job_task, "img:1".to_string(), gitea());
    match first {
        JobAction::PullImage { image } => assert_eq!(image, "img:1"),
        other => panic!("unexpected {:?}", other),
    }
    job
}

#[test]
fn task_exiting_zero_is_published_then_acknowledged() {
    let mut job = start(task());
    match job.handle(JobEvent::ImagePulled { ok: false }) {
        JobAction::CreateContainer { spec } => {
            assert!(spec.name.starts_with("build-foo-"));
            assert_eq!(spec.image, "img:1");
            assert_eq!(spec.user, "builder");
            assert_eq!(spec.cpu_period, 100000);
            assert_eq!(spec.cpu_quota, 100000);
        }
        other => panic!("unexpected {:?}", other),
    }
    match job.handle(JobEvent::Created { container_id: "c1".to_string() }) {
        JobAction::StartContainer { container_id } => assert_eq!(container_id, "c1"),
        other => panic!("unexpected {:?}", other),
    }
    assert!(matches!(job.handle(JobEvent::Started), JobAction::WatchContainer { .. }));
    let outcome = WaitOutcome::Exited { status_code: 0 };
    assert!(matches!(job.handle(JobEvent::WaitEnded { outcome }), JobAction::FetchLogs { .. }));
    let lines = vec!["stdout: built".to_string()];
    let removal = job.handle(JobEvent::LogsCollected { lines });
    assert!(matches!(removal, JobAction::RemoveContainer { .. }));
    match job.handle(JobEvent::Removed) {
        JobAction::PublishResult { result } => {
            assert_eq!(result.status_code, 0);
            assert!(result.success);
            assert_eq!(result.task.id, 1);
            assert_eq!(result.task.name, "foo");
            assert_eq!(result.task.version, "1.0");
            assert_eq!(result.log_lines, vec!["stdout: built".to_string()]);
        }
        other => panic!("unexpected {:?}", other),
    }
    assert!(matches!(job.handle(JobEvent::Published), JobAction::Ack));
    assert_eq!(job.phase(), JobPhase::Acked);
    assert!(matches!(job.handle(JobEvent::Published), JobAction::Nothing));
}

#[test]
fn runtime_error_is_nacked_after_cleanup() {
    let mut job = start(task());
    job.handle(JobEvent::ImagePulled { ok: true });
    job.handle(JobEvent::Created { container_id: "c2".to_string() });
    job.handle(JobEvent::Started);
    job.handle(JobEvent::WaitEnded { outcome: WaitOutcome::RuntimeError });
    job.handle(JobEvent::LogsCollected { lines: vec![] });
    match job.handle(JobEvent::Removed) {
        JobAction::Nack { failure } => assert_eq!(failure, BuildFailure::WaitFailed),
        other => panic!("unexpected {:?}", other),
    }
    assert_eq!(job.phase(), JobPhase::Nacked);
}

#[test]
fn failed_create_is_nacked_and_nothing_published() {
    let mut job = start(task());
    job.handle(JobEvent::ImagePulled { ok: true });
    match job.handle(JobEvent::CreateFailed) {
        JobAction::Nack { failure } => assert_eq!(failure, BuildFailure::CreateFailed),
        other => panic!("unexpected {:?}", other),
    }
    assert!(matches!(job.handle(JobEvent::Removed), JobAction::Nothing));
    assert_eq!(job.phase(), JobPhase::Nacked);
}

#[test]
fn failed_publish_halts() {
    let mut job = start(task());
    job.handle(JobEvent::ImagePulled { ok: true });
    job.handle(JobEvent::Created { container_id: "c3".to_string() });
    job.handle(JobEvent::Started);
    job.handle(JobEvent::WaitEnded { outcome: WaitOutcome::ExitError { code: 4 } });
    job.handle(JobEvent::LogsCollected { lines: vec![] });
    match job.handle(JobEvent::Removed) {
        JobAction::PublishResult { result } => {
            assert!(!result.success);
            assert_eq!(result.status_code, 4);
        }
        other => panic!("unexpected {:?}", other),
    }
    assert!(matches!(job.handle(JobEvent::PublishFailed), JobAction::Halt));
    assert_eq!(job.phase(), JobPhase::Halted);
}

#[test]
fn source_url_defaults_to_the_aur() {
    assert_eq!(source_url_for(&task()), "https://aur.archlinux.org/foo.git");
    let mut t = task();
    t.source = Some("https://example.org/x.git".to_string());
    assert_eq!(source_url_for(&t), "https://example.org/x.git");
}

#[test]
fn container_name_has_task_name_and_suffix() {
    assert_eq!(container_name("foo", 0), "build-foo-0");
    assert_eq!(container_name("foo", 4294967295), "build-foo-4294967295");
}

#[test]
fn container_environment_lists_settings_then_task_variables() {
    let mut t = task();
    t.subfolder = Some("sub".to_string());
    t.options = Some("-f".to_string());
    t.env = Some(vec![EnvironmentVariable { name: "A".to_string(), value: "1".to_string() }]);
    let env = container_env(&t, &"https://s".to_string(), &gitea());
    assert_eq!(
        env,
        vec![
            "AB_SOURCE=https://s".to_string(),
            "AB_SUBFOLDER=sub".to_string(),
            "AB_GITEA_REPO=https://git.example.org/pkgs".to_string(),
            "AB_GITEA_USER=builder".to_string(),
            "AB_GITEA_TOKEN=SECRET-REDACTED".to_string(),
            "AB_OPTIONS=-f".to_string(),
            "A=1".to_string(),
        ]
    );
    let plain = container_env(&task(), &"u".to_string(), &gitea());
    assert_eq!(plain[1], "AB_SUBFOLDER=");
    assert_eq!(plain[5], "AB_OPTIONS=");
    assert_eq!(plain.len(), 6);
}

#[test]
fn container_spec_uses_default_source() {
    let spec = container_spec(&task(), &"img".to_string(), &gitea(), 17);
    assert_eq!(spec.name, "build-foo-17");
    assert_eq!(spec.env[0], "AB_SOURCE=https://aur.archlinux.org/foo.git");
    assert!(!spec.auto_remove);
}

#[test]
fn log_lines_are_prefixed_by_stream() {
    assert_eq!(log_line(LogStream::StdOut, &b"hi".to_vec()), Some("stdout: hi".to_string()));
    assert_eq!(log_line(LogStream::StdErr, &b"oops".to_vec()), Some("stderr: oops".to_string()));
    assert_eq!(log_line(LogStream::Other, &b"x".to_vec()), None);
    assert_eq!(
        log_line(LogStream::StdOut, &vec![0x66, 0xff]),
        Some("stdout: f\u{fffd}".to_string())
    );
}

#[test]
fn image_name_is_tagged_with_the_version() {
    assert_eq!(
        get_image_name(&None, "0.3.1"),
        "ghcr.io/neferin12/aur-builder-build-container:0.3.1"
    );
    assert_eq!(get_image_name(&Some("my/img".to_string()), "2"), "my/img:2");
}
