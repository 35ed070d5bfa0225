use smcmanager::manifest::{ManifestContent, ManifestContentScripts};
use smcmanager::service::{
    ServiceInformation, ServiceStatus, StartPhase, StartResult, StopPhase, StopResult,
};

fn manifest(
    enable: Option<bool>,
    pre_start: Option<&str>,
    stop: Option<&str>,
    post_stop: Option<&str>,
) -> ManifestContent {
    ManifestContent {
        name: "svc".to_string(),
        enable,
        scripts: ManifestContentScripts {
            health_check: "health.sh".to_string(),
            pre_start: pre_start.map(|s| s.to_string()),
            start: "start.sh".to_string(),
            stop: stop.map(|s| s.to_string()),
            post_stop: post_stop.map(|s| s.to_string()),
        },
        vars: vec![],
    }
}

/// A counting stub executor: walks the start transition, recording every
/// script the machine asks it to spawn and answering with the next planned
/// exit code.
fn run_start(svc: &ServiceInformation, exits: &[i32]) -> (StartResult, Vec<String>) {
    let mut spawned = Vec::new();
    let mut phase = svc.start_begin();
    let mut next = 0;
    loop {
        match svc.start_script(&phase) {
            Some(script) => {
                spawned.push(script);
                let code = exits[next];
                next += 1;
                phase = svc.start_advance(phase, code);
            }
            None => break,
        }
    }
    match phase {
        StartPhase::Done(result) => (result, spawned),
        _ => panic!("start transition did not finish"),
    }
}

/// The same counting stub for the stop transition.
fn run_stop(svc: &ServiceInformation, exits: &[i32]) -> (StopResult, Vec<String>) {
    let mut spawned = Vec::new();
    let mut phase = svc.stop_begin();
    let mut next = 0;
    loop {
        match svc.stop_script(&phase) {
            Some(script) => {
                spawned.push(script);
                let code = exits[next];
                next += 1;
                phase = svc.stop_advance(phase, code);
            }
            None => break,
        }
    }
    match phase {
        StopPhase::Done(result) => (result, spawned),
        _ => panic!("stop transition did not finish"),
    }
}

#[test]
fn fresh_service_is_unknown() {
    let svc = ServiceInformation::new(manifest(Some(true), None, None, None));
    assert_eq!(svc.name, "svc");
    assert_eq!(svc.status, ServiceStatus::Unknown);
}

#[test]
fn disabled_service_reports_disabled_and_spawns_nothing() {
    for enable in [None, Some(false)] {
        let svc = ServiceInformation::new(manifest(enable, None, None, None));
        // The query names no script: the health check is never spawned.
        assert!(svc.status_query().is_none());
        let after = svc.update_status(None);
        assert_eq!(after.status, ServiceStatus::Disabled);
    }
}

#[test]
fn enabled_service_running_on_exit_zero() {
    let svc = ServiceInformation::new(manifest(Some(true), None, None, None));
    assert_eq!(svc.status_query().as_deref(), Some("health.sh"));
    let after = svc.update_status(Some(0));
    assert_eq!(after.status, ServiceStatus::Running);
}

#[test]
fn enabled_service_stopped_on_exit_one() {
    let svc = ServiceInformation::new(manifest(Some(true), None, None, None));
    let after = svc.update_status(Some(1));
    assert_eq!(after.status, ServiceStatus::Stopped);
}

#[test]
fn failing_pre_start_never_invokes_start() {
    let svc = ServiceInformation::new(manifest(Some(true), Some("pre.sh"), None, None));
    let (result, spawned) = run_start(&svc, &[3]);
    assert_eq!(result, StartResult::PreStartFailed(3));
    assert_eq!(spawned, vec!["pre.sh".to_string()]);
    // The start script's spawn counter stays at zero.
    assert_eq!(spawned.iter().filter(|s| *s == "start.sh").count(), 0);
}

#[test]
fn failing_start_without_pre_start() {
    let svc = ServiceInformation::new(manifest(Some(true), None, None, None));
    let (result, spawned) = run_start(&svc, &[5]);
    assert_eq!(result, StartResult::StartFailed(5));
    assert_eq!(spawned, vec!["start.sh".to_string()]);
}

#[test]
fn successful_start_runs_pre_start_then_start() {
    let svc = ServiceInformation::new(manifest(Some(true), Some("pre.sh"), None, None));
    let (result, spawned) = run_start(&svc, &[0, 0]);
    assert_eq!(result, StartResult::Success);
    assert_eq!(spawned, vec!["pre.sh".to_string(), "start.sh".to_string()]);
}

#[test]
fn failing_stop_never_invokes_post_stop() {
    let svc = ServiceInformation::new(manifest(Some(true), None, Some("stop.sh"), Some("post.sh")));
    let (result, spawned) = run_stop(&svc, &[7]);
    assert_eq!(result, StopResult::StopFailed(7));
    assert_eq!(spawned, vec!["stop.sh".to_string()]);
}

#[test]
fn failing_post_stop_after_clean_stop() {
    let svc = ServiceInformation::new(manifest(Some(true), None, Some("stop.sh"), Some("post.sh")));
    let (result, spawned) = run_stop(&svc, &[0, 9]);
    assert_eq!(result, StopResult::PostStopFailed(9));
    assert_eq!(spawned, vec!["stop.sh".to_string(), "post.sh".to_string()]);
}

#[test]
fn stop_with_nothing_configured_succeeds_without_spawning() {
    let svc = ServiceInformation::new(manifest(Some(true), None, None, None));
    let (result, spawned) = run_stop(&svc, &[]);
    assert_eq!(result, StopResult::Success);
    assert_eq!(spawned.len(), 0);
}

#[test]
fn stop_with_only_post_stop_runs_it() {
    let svc = ServiceInformation::new(manifest(Some(true), None, None, Some("post.sh")));
    let (result, spawned) = run_stop(&svc, &[0]);
    assert_eq!(result, StopResult::Success);
    assert_eq!(spawned, vec!["post.sh".to_string()]);
}

#[test]
fn status_names_for_rendering() {
    let mut svc = ServiceInformation::new(manifest(Some(true), None, None, None));
    assert_eq!(svc.status_name(), "Unknown");
    svc.status = ServiceStatus::Running;
    assert_eq!(svc.status_name(), "Running");
    svc.status = ServiceStatus::Stopped;
    assert_eq!(svc.status_name(), "Stopped");
    svc.status = ServiceStatus::Disabled;
    assert_eq!(svc.status_name(), "Disabled");
}
