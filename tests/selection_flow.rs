use kube_forward::error::{KubectlError, MainError};
use kube_forward::kubectl::{
    command_text, contexts, current_context, current_context_args, forward_args, get_contexts_args,
    get_namespaces_args, get_services_args, port_pair, use_context_args, use_context_result,
};
use kube_forward::model::{Metadata, Namespace, Port, Service, ServiceSpec};
use kube_forward::pipeline::{
    build_mapping, check_remote_ports, chosen_remote_ports, local_port_default, plan_context,
    plan_namespace, plan_remote_ports, plan_service, position_of, Choice, RemotePorts,
};
use kube_forward::ports::{PortMap, ServicePorts};
use kube_forward::selection::{DefaultSelections, Selection};
use kube_forward::supervisor::{is_finished, step, SupervisorAction, SupervisorEvent, SupervisorState};

fn namespace(name: &str) -> Namespace {
    Namespace { metadata: Metadata { name: name.to_string() } }
}

fn service(name: &str, ports: &[u16]) -> Service {
    Service {
        metadata: Metadata { name: name.to_string() },
        spec: ServiceSpec { ports: ports.iter().map(|p| Port { port: *p }).collect() },
    }
}

fn strings(items: &[&str]) -> Vec<String> {
    items.iter().map(|s| s.to_string()).collect()
}

fn record_with_api_history() -> DefaultSelections {
    let mut api = PortMap::new();
    api.insert(8080, 9090);
    let mut history = ServicePorts::new();
    history.insert("api".to_string(), api);
    DefaultSelections {
        namespace: Some("dev".to_string()),
        last_service: Some("api".to_string()),
        ports: Some(history),
    }
}

#[test]
fn scenario_dev_api_two_ports() {
    let defaults = Some(DefaultSelections::loaded(Some(record_with_api_history())));
    let namespaces = vec![namespace("dev"), namespace("prod")];
    let preferred_ns = defaults.as_ref().and_then(|d| d.namespace.clone());
    match plan_namespace(&namespaces, &preferred_ns) {
        Ok(Choice::Ask { default }) => assert_eq!(default, Some(0)),
        _ => panic!("namespace stage must offer a chooser"),
    }
    let selection = Selection::from_defaults(&namespaces[0], &defaults);
    assert_eq!(selection.namespace, "dev");

    let services = vec![service("api", &[8080, 9090])];
    let preferred_svc = defaults.as_ref().and_then(|d| d.last_service.clone());
    assert!(matches!(plan_service(&namespaces[0], &services, &preferred_svc), Ok(Choice::Auto)));
    let selection = selection.set_last_service(&services[0]);
    assert_eq!(selection.last_service, "api");

    let history = selection.ports_for(&services[0]);
    let plan = plan_remote_ports(&services[0], &history);
    assert!(matches!(plan, RemotePorts::All));
    let remote = chosen_remote_ports(&plan, &services[0], false);
    assert_eq!(remote, vec![8080, 9090]);

    assert_eq!(local_port_default(&history, 8080), Some(9090));
    assert_eq!(local_port_default(&history, 9090), None);
}

#[test]
fn single_option_is_taken_without_asking() {
    assert!(matches!(plan_context(&strings(&["only"]), &None), Ok(Choice::Auto)));
    assert!(matches!(plan_namespace(&vec![namespace("dev")], &Some("x".to_string())), Ok(Choice::Auto)));
    assert!(matches!(plan_service(&namespace("dev"), &vec![service("api", &[80])], &None), Ok(Choice::Auto)));
}

#[test]
fn empty_option_lists_fail() {
    assert!(matches!(plan_context(&vec![], &None), Err(MainError::NoContext)));
    assert!(matches!(plan_namespace(&vec![], &None), Err(MainError::NoNamespace)));
    match plan_service(&namespace("dev"), &vec![], &None) {
        Err(MainError::NoService(name)) => assert_eq!(name, "dev"),
        _ => panic!("expected NoService"),
    }
}

#[test]
fn chooser_default_is_current_context_or_none() {
    let ctxs = strings(&["a", "b", "c"]);
    assert!(matches!(plan_context(&ctxs, &Some("c".to_string())), Ok(Choice::Ask { default: Some(2) })));
    assert!(matches!(plan_context(&ctxs, &Some("z".to_string())), Ok(Choice::Ask { default: None })));
    assert!(matches!(plan_context(&ctxs, &None), Ok(Choice::Ask { default: None })));
    assert_eq!(position_of(&strings(&["x", "y", "x"]), &"x".to_string()), Some(0));
}

#[test]
fn multi_port_service_takes_all_ports_whatever_the_history() {
    let svc = service("web", &[80, 443, 8443]);
    let history = PortMap::new();
    let plan = plan_remote_ports(&svc, &history);
    assert!(matches!(plan, RemotePorts::All));
    assert_eq!(chosen_remote_ports(&plan, &svc, false), vec![80, 443, 8443]);
}

#[test]
fn single_port_deselected_fails_with_no_ports_and_keeps_choices() {
    let svc = service("api", &[8080]);
    let mut history = PortMap::new();
    history.insert(8080, 18080);
    let plan = plan_remote_ports(&svc, &history);
    assert!(matches!(plan, RemotePorts::Confirm { port: 8080, checked: true }));
    let chosen = chosen_remote_ports(&plan, &svc, false);
    assert!(chosen.is_empty());

    let selection = Selection::from_defaults(&namespace("dev"), &None).set_last_service(&svc);
    match check_remote_ports(&selection, chosen) {
        Err((record, MainError::NoPorts)) => {
            assert_eq!(record.namespace, Some("dev".to_string()));
            assert_eq!(record.last_service, Some("api".to_string()));
        },
        _ => panic!("expected NoPorts"),
    }
    let kept = chosen_remote_ports(&plan, &svc, true);
    assert!(matches!(check_remote_ports(&selection, kept), Ok(v) if v == vec![8080]));
}

#[test]
fn unchecked_single_port_without_history() {
    let svc = service("db", &[5432]);
    let plan = plan_remote_ports(&svc, &PortMap::new());
    assert!(matches!(plan, RemotePorts::Confirm { port: 5432, checked: false }));
}

#[test]
fn missing_or_malformed_file_loads_empty_record() {
    let r = DefaultSelections::loaded(None);
    assert!(r.namespace.is_none() && r.last_service.is_none() && r.ports.is_none());
    let sel = Selection::from_defaults(&namespace("dev"), &Some(r));
    assert!(sel.ports.names().is_empty());
}

#[test]
fn reload_keeps_untouched_services() {
    let mut saved = record_with_api_history();
    let mut worker = PortMap::new();
    worker.insert(7000, 17000);
    saved.ports.as_mut().unwrap().insert("worker".to_string(), worker);

    let defaults = Some(saved);
    let mut sel = Selection::from_defaults(&namespace("dev"), &defaults).set_last_service(&service("api", &[8080]));
    sel.set_ports("api".to_string(), build_mapping(&vec![8080], &vec![1234]));
    let record = sel.record();
    let ports = record.ports.unwrap();
    assert_eq!(ports.get(&"worker".to_string()).unwrap().get(7000), Some(17000));
    assert_eq!(ports.get(&"api".to_string()).unwrap().get(8080), Some(1234));
    assert_eq!(record.namespace, Some("dev".to_string()));
    assert_eq!(record.last_service, Some("api".to_string()));
}

#[test]
fn record_round_trip_without_changes() {
    let defaults = Some(record_with_api_history());
    let sel = Selection::from_defaults(&namespace("dev"), &defaults).set_last_service(&service("api", &[8080]));
    let _ = sel.ports_for(&service("api", &[8080]));
    let again = sel.record();
    assert_eq!(again.namespace, Some("dev".to_string()));
    assert_eq!(again.last_service, Some("api".to_string()));
    let ports = again.ports.unwrap();
    assert_eq!(ports.names(), vec!["api".to_string()]);
    assert_eq!(ports.get(&"api".to_string()).unwrap().remote_ports(), vec![8080]);
    assert_eq!(ports.get(&"api".to_string()).unwrap().get(8080), Some(9090));
}

#[test]
fn ports_for_unknown_service_leaves_history_alone() {
    let sel = Selection::from_defaults(&namespace("dev"), &None).set_last_service(&service("new", &[1]));
    let m = sel.ports_for(&service("new", &[1]));
    assert!(m.remote_ports().is_empty());
    assert!(!sel.ports.contains_key(&"new".to_string()));
    match check_remote_ports(&sel, vec![]) {
        Err((record, MainError::NoPorts)) => {
            assert!(record.ports.unwrap().names().is_empty());
            assert_eq!(record.last_service, Some("new".to_string()));
        },
        _ => panic!("expected NoPorts"),
    }
    let record = Selection::from_defaults(&namespace("dev"), &None).record();
    assert_eq!(record.last_service, None);
}

#[test]
fn later_answer_replaces_earlier_for_same_port() {
    let m = build_mapping(&vec![80, 443, 80], &vec![8000, 8443, 9000]);
    assert_eq!(m.get(80), Some(9000));
    assert_eq!(m.get(443), Some(8443));
    let mut remotes = m.remote_ports();
    remotes.sort();
    assert_eq!(remotes, vec![80, 443]);
}

#[test]
fn command_lines_have_the_tool_shapes() {
    assert_eq!(current_context_args(), strings(&["config", "current-context"]));
    assert_eq!(get_contexts_args(), strings(&["config", "get-contexts", "--output=name"]));
    assert_eq!(use_context_args(&"prod".to_string()), strings(&["config", "use-context", "prod"]));
    assert_eq!(get_namespaces_args(), strings(&["get", "namespaces", "--output=json"]));
    assert_eq!(
        get_services_args(&"dev".to_string()),
        strings(&["--namespace", "dev", "get", "services", "--output=json"])
    );
    let mut ports = PortMap::new();
    ports.insert(8080, 9090);
    ports.insert(65535, 0);
    let args = forward_args(&namespace("dev"), &service("api", &[8080]), &ports);
    assert_eq!(args[..4].to_vec(), strings(&["--namespace", "dev", "port-forward", "service/api"]));
    let mut pairs = args[4..].to_vec();
    pairs.sort();
    assert_eq!(pairs, strings(&["0:65535", "9090:8080"]));
    assert_eq!(port_pair(7, 10), "7:10");
}

#[test]
fn tool_output_is_decoded_and_checked() {
    assert!(matches!(command_text(false, b"x".to_vec()), Err(KubectlError::CommandFailed)));
    assert!(matches!(command_text(true, vec![0xff, 0xfe]), Err(KubectlError::ParseOutput)));
    assert_eq!(command_text(true, b"ok".to_vec()).ok(), Some("ok".to_string()));
    assert_eq!(current_context(true, b"  minikube\n".to_vec()).ok(), Some("minikube".to_string()));
    assert_eq!(
        contexts(true, b"a\nb\n\n".to_vec()).ok(),
        Some(strings(&["a", "b"]))
    );
    assert_eq!(contexts(true, b"".to_vec()).ok(), Some(vec![]));
    assert!(matches!(use_context_result(false), Err(KubectlError::CommandFailed)));
    assert!(use_context_result(true).is_ok());
}

#[test]
fn error_messages() {
    assert_eq!(MainError::NoService("dev".to_string()).message(), "No service found in namespace 'dev'");
    assert_eq!(MainError::NoPorts.message(), "No ports selected");
    assert_eq!(MainError::NoContext.message(), "No context found");
    assert_eq!(MainError::KubectlFailed(KubectlError::CommandFailed).message(), "Command failed");
}

#[test]
fn interrupt_kills_once_and_exits_cleanly() {
    let (s, a) = step(SupervisorState::Idle, SupervisorEvent::Start);
    assert_eq!((s, a), (SupervisorState::Starting, SupervisorAction::Spawn));
    let (s, _) = step(s, SupervisorEvent::Spawned);
    assert_eq!(s, SupervisorState::Running);
    let (s, a) = step(s, SupervisorEvent::Interrupt);
    assert_eq!((s, a), (SupervisorState::Terminating, SupervisorAction::KillAndWait));
    let (s, a) = step(s, SupervisorEvent::Interrupt);
    assert_eq!((s, a), (SupervisorState::Terminating, SupervisorAction::Nothing));
    let (s, a) = step(s, SupervisorEvent::Reaped);
    assert_eq!((s, a), (SupervisorState::Exited, SupervisorAction::AnnounceTermination));
    assert!(is_finished(s));
    let (s, a) = step(s, SupervisorEvent::Interrupt);
    assert_eq!((s, a), (SupervisorState::Exited, SupervisorAction::Nothing));
}

#[test]
fn child_exit_and_spawn_failure_end_the_run() {
    let (s, a) = step(SupervisorState::Running, SupervisorEvent::ChildExited);
    assert_eq!((s, a), (SupervisorState::Exited, SupervisorAction::Finish));
    let (s, a) = step(SupervisorState::Starting, SupervisorEvent::SpawnFailed);
    assert_eq!((s, a), (SupervisorState::Exited, SupervisorAction::ReportFailure));
    assert!(!is_finished(SupervisorState::Running));
}
