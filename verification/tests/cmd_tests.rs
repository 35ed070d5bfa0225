use smcmanager::cmd::{delete_outcome, filt_services, pending_services, select_services};
use smcmanager::manifest::{ManifestContent, ManifestContentScripts};
use smcmanager::service::{ServiceInformation, ServiceStatus, StopResult};

fn service(name: &str, status: ServiceStatus) -> ServiceInformation {
    let mut svc = ServiceInformation::new(ManifestContent {
        name: name.to_string(),
        enable: Some(true),
        scripts: ManifestContentScripts {
            health_check: "h".to_string(),
            pre_start: None,
            start: "s".to_string(),
            stop: None,
            post_stop: None,
        },
        vars: vec![],
    });
    svc.status = status;
    svc
}

fn names(services: &[ServiceInformation]) -> Vec<String> {
    services.iter().map(|s| s.name.clone()).collect()
}

#[test]
fn filt_services_keeps_named_in_order() {
    let services = vec![
        service("a", ServiceStatus::Unknown),
        service("b", ServiceStatus::Unknown),
        service("c", ServiceStatus::Unknown),
    ];
    let kept = filt_services(vec!["c".to_string(), "a".to_string()], services);
    assert_eq!(names(&kept), vec!["a".to_string(), "c".to_string()]);
}

#[test]
fn filt_services_with_unknown_names_keeps_nothing() {
    let services = vec![service("a", ServiceStatus::Unknown)];
    let kept = filt_services(vec!["x".to_string()], services);
    assert!(kept.is_empty());
}

#[test]
fn select_services_without_names_takes_all() {
    let services = vec![
        service("a", ServiceStatus::Unknown),
        service("b", ServiceStatus::Unknown),
    ];
    let all = select_services(vec![], services);
    assert_eq!(names(&all), vec!["a".to_string(), "b".to_string()]);
}

#[test]
fn select_services_with_names_filters() {
    let services = vec![
        service("a", ServiceStatus::Unknown),
        service("b", ServiceStatus::Unknown),
    ];
    let some = select_services(vec!["b".to_string()], services);
    assert_eq!(names(&some), vec!["b".to_string()]);
}

#[test]
fn pending_services_drops_running_ones() {
    let services = vec![
        service("a", ServiceStatus::Running),
        service("b", ServiceStatus::Stopped),
        service("c", ServiceStatus::Disabled),
        service("d", ServiceStatus::Unknown),
    ];
    let pending = pending_services(services);
    assert_eq!(
        names(&pending),
        vec!["b".to_string(), "c".to_string(), "d".to_string()]
    );
}

#[test]
fn delete_outcome_not_running_goes_at_once() {
    for status in [
        ServiceStatus::Unknown,
        ServiceStatus::Stopped,
        ServiceStatus::Disabled,
    ] {
        assert_eq!(delete_outcome(status, None), (true, 0));
    }
}

#[test]
fn delete_outcome_running_needs_a_clean_stop() {
    assert_eq!(
        delete_outcome(ServiceStatus::Running, Some(StopResult::Success)),
        (true, 0)
    );
    assert_eq!(
        delete_outcome(ServiceStatus::Running, Some(StopResult::StopFailed(4))),
        (false, 4)
    );
    assert_eq!(
        delete_outcome(ServiceStatus::Running, Some(StopResult::PostStopFailed(6))),
        (false, 6)
    );
}

#[test]
fn delete_outcome_engine_error_is_sentinel() {
    assert_eq!(delete_outcome(ServiceStatus::Running, None), (false, -1));
}
