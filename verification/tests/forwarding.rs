//! The port-forward supervisor: worker state machines, query construction,
//! skip diagnostics and the broadcaster's wake-up count.

use kleinwuerfel::env::EnvMap;
use kleinwuerfel::kubectl::{
    ForwardSkip, ForwardWorker, WorkerAction, WorkerEvent, WorkerState, active_forward_count,
};
use kleinwuerfel::model::{Configuration, Helmchart};
use kleinwuerfel::orchestrator::Orchestrator;

fn chart(name: &str, ports: Vec<u16>) -> Helmchart {
    Helmchart {
        helm_chart_repo: "r1".to_string(),
        name: name.to_string(),
        ports,
        values: Vec::new(),
    }
}

fn worker(name: &str, ports: Vec<u16>) -> ForwardWorker {
    ForwardWorker::new(&"/usr/bin/kubectl".to_string(), &chart(name, ports))
}

fn strings(args: &[&str]) -> Vec<String> {
    args.iter().map(|a| a.to_string()).collect()
}

fn output(text: &str) -> WorkerEvent {
    WorkerEvent::QueryOutput {
        output: text.to_string(),
    }
}

const NS_FILTER: &str = "jsonpath={.items[?(@.metadata.annotations.meta\\.helm\\.sh/release-name==\"w1\")].metadata.name}";
const NS_FALLBACK_FILTER: &str = "jsonpath={.items[?(@.metadata.annotations.meta\\.helm\\.sh/release-name==\"w1\")].metadata.namespace}";

#[test]
fn empty_port_list_means_no_queries_and_no_children() {
    let mut w = worker("w1", vec![]);
    let action = w.step(&WorkerEvent::Begin);
    assert!(matches!(action, WorkerAction::Done));
    assert!(matches!(w.state, WorkerState::Finished));
    let action = w.step(&WorkerEvent::Begin);
    assert!(matches!(action, WorkerAction::Done));
}

#[test]
fn forwarding_resolves_namespace_then_service_then_spawns() {
    let mut w = worker("w1", vec![8080, 9090]);

    let action = w.step(&WorkerEvent::Begin);
    match action {
        WorkerAction::RunQuery { ref command } => {
            assert_eq!(command.program, "/usr/bin/kubectl");
            assert_eq!(command.args, strings(&["get", "namespaces", "-o", NS_FILTER]));
        }
        _ => panic!("expected the namespace query first"),
    }

    let action = w.step(&output("default"));
    match action {
        WorkerAction::RunQuery { ref command } => {
            assert_eq!(
                command.args,
                strings(&["--namespace", "default", "get", "service", "-o", NS_FILTER])
            );
        }
        _ => panic!("expected the service query"),
    }

    let action = w.step(&output("w1-svc"));
    match action {
        WorkerAction::SpawnForward { ref command } => {
            assert_eq!(
                command.args,
                strings(&[
                    "port-forward",
                    "--namespace",
                    "default",
                    "service/w1-svc",
                    ":8080",
                    ":9090",
                ])
            );
        }
        _ => panic!("expected the forwarding child to be spawned"),
    }
    assert!(matches!(w.state, WorkerState::Forwarding { .. }));
}

#[test]
fn namespace_fallback_reads_namespace_off_services() {
    let mut w = worker("w1", vec![80]);
    w.step(&WorkerEvent::Begin);

    let action = w.step(&output("   \n"));
    match action {
        WorkerAction::RunQuery { ref command } => {
            assert_eq!(
                command.args,
                strings(&["get", "services", "-o", NS_FALLBACK_FILTER])
            );
        }
        _ => panic!("expected the fallback query"),
    }

    let action = w.step(&output("ns-from-svc extra-token"));
    match action {
        WorkerAction::RunQuery { ref command } => {
            assert_eq!(command.args[1], "ns-from-svc");
        }
        _ => panic!("expected the service query in the fallback namespace"),
    }
}

#[test]
fn unresolved_namespace_skips_without_spawning() {
    let mut w = worker("w1", vec![80]);
    w.step(&WorkerEvent::Begin);
    w.step(&output(""));
    let action = w.step(&output(""));
    match action {
        WorkerAction::Skip { ref cause } => assert!(matches!(cause, ForwardSkip::Namespace)),
        _ => panic!("expected the namespace skip"),
    }
    assert!(matches!(w.state, WorkerState::Finished));
}

#[test]
fn unresolved_service_skips_without_spawning() {
    let mut w = worker("w1", vec![80]);
    w.step(&WorkerEvent::Begin);
    w.step(&output("default"));
    let action = w.step(&output(" "));
    match action {
        WorkerAction::Skip { ref cause } => assert!(matches!(cause, ForwardSkip::Service)),
        _ => panic!("expected the service skip"),
    }
    assert!(matches!(w.state, WorkerState::Finished));
}

#[test]
fn unresolved_workload_leaves_others_unaffected() {
    let mut failing = worker("w1", vec![80]);
    failing.step(&WorkerEvent::Begin);
    failing.step(&output(""));
    let action = failing.step(&output(""));
    assert!(matches!(action, WorkerAction::Skip { .. }));

    let mut healthy = worker("w2", vec![80]);
    healthy.step(&WorkerEvent::Begin);
    healthy.step(&output("default"));
    let action = healthy.step(&output("w2-svc"));
    assert!(matches!(action, WorkerAction::SpawnForward { .. }));
}

#[test]
fn interrupt_wakes_each_active_worker_exactly_once() {
    let mut workers = vec![
        worker("w1", vec![80]),
        worker("w2", vec![81]),
        worker("w3", vec![82]),
    ];
    for w in workers.iter_mut() {
        w.step(&WorkerEvent::Begin);
        w.step(&output("default"));
        let action = w.step(&output("svc"));
        assert!(matches!(action, WorkerAction::SpawnForward { .. }));
    }
    assert_eq!(active_forward_count(&workers), 3);

    let mut kills = 0;
    for w in workers.iter_mut() {
        let action = w.step(&WorkerEvent::Cancel);
        assert!(matches!(action, WorkerAction::KillChild));
        kills += 1;
        let action = w.step(&WorkerEvent::Cancel);
        assert!(matches!(action, WorkerAction::Done));
    }
    assert_eq!(kills, 3);
    assert_eq!(active_forward_count(&workers), 0);
}

#[test]
fn supervisor_hands_out_one_worker_per_workload() {
    let config = Configuration {
        minikube: None,
        helm_chart_repo: Some(Vec::new()),
        helmchart: Some(vec![chart("w1", vec![80]), chart("w2", vec![])]),
        default_values: Vec::new(),
    };
    let orchestrator = Orchestrator::new(
        &config,
        &"/usr/bin/minikube".to_string(),
        &"/usr/bin/helm".to_string(),
        &"/usr/bin/kubectl".to_string(),
        &EnvMap::new(),
    );
    let workers = orchestrator.port_forward_all_helmcharts();
    assert_eq!(workers.len(), 2);
    assert_eq!(workers[0].helmchart.name, "w1");
    assert_eq!(workers[1].helmchart.name, "w2");
    assert!(matches!(workers[0].state, WorkerState::Start));
}

#[test]
fn no_configured_workloads_means_no_workers() {
    let config = Configuration {
        minikube: None,
        helm_chart_repo: None,
        helmchart: None,
        default_values: Vec::new(),
    };
    let orchestrator = Orchestrator::new(
        &config,
        &"/usr/bin/minikube".to_string(),
        &"/usr/bin/helm".to_string(),
        &"/usr/bin/kubectl".to_string(),
        &EnvMap::new(),
    );
    assert!(orchestrator.port_forward_all_helmcharts().is_empty());
}
