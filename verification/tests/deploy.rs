//! The deployment pipeline: command construction and the per-workload state
//! machine, including failure isolation.

use kleinwuerfel::env::EnvMap;
use kleinwuerfel::errors::DeployError;
use kleinwuerfel::helm::Helm;
use kleinwuerfel::model::{Configuration, HelmChartRepo, Helmchart, Minikube, ValueEntry};
use kleinwuerfel::orchestrator::{
    DeployAction, DeployEvent, DeployPhase, DeployState, Orchestrator,
};

fn entry(key: &str, value: &str) -> ValueEntry {
    ValueEntry {
        key: key.to_string(),
        value: value.to_string(),
    }
}

fn repo(name: &str, url: &str) -> HelmChartRepo {
    HelmChartRepo {
        name: name.to_string(),
        url: url.to_string(),
        username: None,
        password: None,
    }
}

fn repo_with_credentials(name: &str, url: &str, username: &str, password: &str) -> HelmChartRepo {
    HelmChartRepo {
        name: name.to_string(),
        url: url.to_string(),
        username: Some(username.to_string()),
        password: Some(password.to_string()),
    }
}

fn chart(repo_ref: &str, name: &str, ports: Vec<u16>) -> Helmchart {
    Helmchart {
        helm_chart_repo: repo_ref.to_string(),
        name: name.to_string(),
        ports,
        values: Vec::new(),
    }
}

fn configuration(repos: Vec<HelmChartRepo>, charts: Vec<Helmchart>) -> Configuration {
    Configuration {
        minikube: None,
        helm_chart_repo: Some(repos),
        helmchart: Some(charts),
        default_values: Vec::new(),
    }
}

fn orchestrator(config: &Configuration, env: &EnvMap) -> Orchestrator {
    Orchestrator::new(
        config,
        &"/usr/bin/minikube".to_string(),
        &"/usr/bin/helm".to_string(),
        &"/usr/bin/kubectl".to_string(),
        env,
    )
}

fn strings(args: &[&str]) -> Vec<String> {
    args.iter().map(|a| a.to_string()).collect()
}

#[test]
fn initial_arguments_resolve_both_credentials() {
    let mut env = EnvMap::new();
    env.define("PW".to_string(), "s3cr3t".to_string());
    let helm = Helm::new(
        &repo_with_credentials("r1", "https://x", "alice", "${env.PW}"),
        &Vec::new(),
        &"/usr/bin/helm".to_string(),
        &env,
    );
    let args = helm.initial_arguments().unwrap();
    assert_eq!(args, strings(&["--username", "alice", "--password", "s3cr3t"]));
}

#[test]
fn initial_arguments_empty_without_credentials() {
    let helm = Helm::new(
        &repo("r1", "https://x"),
        &Vec::new(),
        &"/usr/bin/helm".to_string(),
        &EnvMap::new(),
    );
    assert_eq!(helm.initial_arguments().unwrap(), Vec::<String>::new());
}

#[test]
fn login_command_is_skipped_without_credentials() {
    let helm = Helm::new(
        &repo("r1", "https://x"),
        &Vec::new(),
        &"/usr/bin/helm".to_string(),
        &EnvMap::new(),
    );
    assert!(helm.login_command().unwrap().is_none());
}

#[test]
fn login_command_carries_url_and_credentials() {
    let helm = Helm::new(
        &repo_with_credentials("r1", "https://x", "alice", "pw"),
        &Vec::new(),
        &"/usr/bin/helm".to_string(),
        &EnvMap::new(),
    );
    let cmd = helm.login_command().unwrap().unwrap();
    assert_eq!(cmd.program, "/usr/bin/helm");
    assert_eq!(
        cmd.args,
        strings(&["registry", "login", "https://x", "--username", "alice", "--password", "pw"])
    );
}

#[test]
fn register_command_is_exact() {
    let helm = Helm::new(
        &repo("r1", "https://x"),
        &Vec::new(),
        &"/usr/bin/helm".to_string(),
        &EnvMap::new(),
    );
    let cmd = helm.add_repo_command();
    assert_eq!(cmd.program, "/usr/bin/helm");
    assert_eq!(cmd.args, strings(&["repo", "add", "--force-update", "r1", "https://x"]));
}

#[test]
fn upgrade_command_merges_resolves_and_escapes() {
    let mut env = EnvMap::new();
    env.define("TOKEN".to_string(), "t,v".to_string());
    let mut chart_w1 = chart("r1", "w1", vec![]);
    chart_w1.values = vec![entry("b", "z"), entry("c", "${env.TOKEN}")];
    let helm = Helm::new(
        &repo("r1", "https://x"),
        &vec![entry("a", "1"), entry("b", "overridden")],
        &"/usr/bin/helm".to_string(),
        &env,
    );
    let cmd = helm.upgrade_command(&chart_w1).unwrap();
    assert_eq!(
        cmd.args,
        strings(&[
            "upgrade",
            "--install",
            "--wait",
            "--set",
            "a=1",
            "--set",
            "b=z",
            "--set",
            "c=t\\,v",
            "w1",
            "r1/w1",
        ])
    );
}

#[test]
fn upgrade_command_fails_on_unset_value_variable() {
    let mut chart_w1 = chart("r1", "w1", vec![]);
    chart_w1.values = vec![entry("k", "${env.NOPE}")];
    let helm = Helm::new(
        &repo("r1", "https://x"),
        &Vec::new(),
        &"/usr/bin/helm".to_string(),
        &EnvMap::new(),
    );
    match helm.upgrade_command(&chart_w1) {
        Err(DeployError::EnvVarMissing { ref name }) => assert_eq!(name, "NOPE"),
        _ => panic!("expected the missing-variable error"),
    }
}

#[test]
fn credential_less_workload_registers_then_upgrades() {
    let config = configuration(
        vec![repo("r1", "https://x")],
        vec![chart("r1", "w1", vec![8080])],
    );
    let orchestrator = orchestrator(&config, &EnvMap::new());
    let state = orchestrator.deploy_begin();

    let (state, action) = orchestrator.deploy_step(state, &DeployEvent::Proceed);
    match action {
        DeployAction::RunRegister { ref command } => {
            assert_eq!(command.args, strings(&["repo", "add", "--force-update", "r1", "https://x"]));
        }
        _ => panic!("expected the register invocation first"),
    }

    let (state, action) = orchestrator.deploy_step(state, &DeployEvent::CommandDone);
    match action {
        DeployAction::RunUpgrade { ref command } => {
            assert_eq!(
                command.args,
                strings(&["upgrade", "--install", "--wait", "w1", "r1/w1"])
            );
        }
        _ => panic!("expected the upgrade invocation"),
    }

    let (state, action) = orchestrator.deploy_step(state, &DeployEvent::CommandDone);
    match action {
        DeployAction::WorkloadDone { handoff } => assert!(handoff),
        _ => panic!("expected the workload to finish"),
    }
    assert_eq!(state.idx, 1);

    let (_, action) = orchestrator.deploy_step(state, &DeployEvent::Proceed);
    assert!(matches!(action, DeployAction::BatchDone));
}

#[test]
fn auth_failure_skips_only_that_workload() {
    let config = configuration(
        vec![
            repo_with_credentials("r1", "https://registry.example", "alice", "pw"),
            repo("r2", "https://y"),
        ],
        vec![chart("r1", "w1", vec![]), chart("r2", "w2", vec![])],
    );
    let orchestrator = orchestrator(&config, &EnvMap::new());
    let state = orchestrator.deploy_begin();

    let (state, action) = orchestrator.deploy_step(state, &DeployEvent::Proceed);
    assert!(matches!(action, DeployAction::RunLogin { .. }));

    let (state, action) =
        orchestrator.deploy_step(state, &DeployEvent::LoginResult { success: false });
    match action {
        DeployAction::SkipWorkload { ref notice } => {
            assert_eq!(notice.repo_url, "https://registry.example");
            let relogin = notice.relogin.as_ref().unwrap();
            assert_eq!(relogin.scheme, "https");
            assert_eq!(relogin.host, "registry.example");
        }
        _ => panic!("expected the workload to be skipped"),
    }
    assert_eq!(state.idx, 1);
    assert!(matches!(state.phase, DeployPhase::AtWorkload));

    let (_, action) = orchestrator.deploy_step(state, &DeployEvent::Proceed);
    match action {
        DeployAction::RunRegister { ref command } => {
            assert_eq!(command.args, strings(&["repo", "add", "--force-update", "r2", "https://y"]));
        }
        _ => panic!("expected the next workload to proceed"),
    }
}

#[test]
fn successful_login_registers_the_workload() {
    let config = configuration(
        vec![repo_with_credentials("r1", "https://x", "alice", "pw")],
        vec![chart("r1", "w1", vec![])],
    );
    let orchestrator = orchestrator(&config, &EnvMap::new());
    let state = orchestrator.deploy_begin();
    let (state, _) = orchestrator.deploy_step(state, &DeployEvent::Proceed);
    let (_, action) = orchestrator.deploy_step(state, &DeployEvent::LoginResult { success: true });
    assert!(matches!(action, DeployAction::RunRegister { .. }));
}

#[test]
fn undefined_repo_reference_fails_before_any_call() {
    let config = configuration(
        vec![repo("r1", "https://x")],
        vec![chart("undefined", "w1", vec![]), chart("r1", "w2", vec![])],
    );
    let orchestrator = orchestrator(&config, &EnvMap::new());
    let state = orchestrator.deploy_begin();

    let (state, action) = orchestrator.deploy_step(state, &DeployEvent::Proceed);
    match action {
        DeployAction::Fail { ref error } => match error {
            DeployError::ConfigReference { ref repo_ref } => assert_eq!(repo_ref, "undefined"),
            _ => panic!("expected the reference error"),
        },
        _ => panic!("expected the run to fail"),
    }
    assert!(matches!(state.phase, DeployPhase::Halted));

    let (_, action) = orchestrator.deploy_step(state, &DeployEvent::Proceed);
    assert!(matches!(action, DeployAction::BatchDone));
}

#[test]
fn unset_credential_variable_halts_the_run() {
    let config = configuration(
        vec![repo_with_credentials("r1", "https://x", "${env.USER_X}", "pw")],
        vec![chart("r1", "w1", vec![])],
    );
    let orchestrator = orchestrator(&config, &EnvMap::new());
    let state = orchestrator.deploy_begin();
    let (state, action) = orchestrator.deploy_step(state, &DeployEvent::Proceed);
    match action {
        DeployAction::Fail { ref error } => match error {
            DeployError::EnvVarMissing { ref name } => assert_eq!(name, "USER_X"),
            _ => panic!("expected the missing-variable error"),
        },
        _ => panic!("expected the run to fail"),
    }
    assert!(matches!(state.phase, DeployPhase::Halted));
}

#[test]
fn workload_without_ports_is_not_handed_off() {
    let config = configuration(
        vec![repo("r1", "https://x")],
        vec![chart("r1", "w1", vec![])],
    );
    let orchestrator = orchestrator(&config, &EnvMap::new());
    let state = orchestrator.deploy_begin();
    let (state, _) = orchestrator.deploy_step(state, &DeployEvent::Proceed);
    let (state, _) = orchestrator.deploy_step(state, &DeployEvent::CommandDone);
    let (_, action) = orchestrator.deploy_step(state, &DeployEvent::CommandDone);
    match action {
        DeployAction::WorkloadDone { handoff } => assert!(!handoff),
        _ => panic!("expected the workload to finish"),
    }
}

#[test]
fn relogin_hint_for_hostless_url_is_empty_host() {
    let hint = kleinwuerfel::orchestrator::relogin_target("unix:/run/foo.socket").unwrap();
    assert_eq!(hint.scheme, "unix");
    assert_eq!(hint.host, "");
}

#[test]
fn relogin_hint_for_unparseable_url_is_absent() {
    assert!(kleinwuerfel::orchestrator::relogin_target("not a url").is_none());
}

#[test]
fn cluster_bootstrap_uses_defaults_without_settings() {
    let config = configuration(Vec::new(), Vec::new());
    let orchestrator = orchestrator(&config, &EnvMap::new());
    let commands = orchestrator.start();
    assert_eq!(commands.len(), 1);
    assert_eq!(commands[0].program, "/usr/bin/minikube");
    assert_eq!(
        commands[0].args,
        strings(&["start", "--cpus", "4", "--memory", "8192"])
    );
}

#[test]
fn cluster_bootstrap_honours_settings_and_addons() {
    let mut config = configuration(Vec::new(), Vec::new());
    config.minikube = Some(Minikube {
        cpus: Some(2),
        memory: Some(4096),
        addons: vec!["ingress".to_string(), "registry".to_string()],
    });
    let orchestrator = orchestrator(&config, &EnvMap::new());
    let commands = orchestrator.start();
    assert_eq!(commands.len(), 3);
    assert_eq!(
        commands[0].args,
        strings(&["start", "--cpus", "2", "--memory", "4096"])
    );
    assert_eq!(commands[1].args, strings(&["addons", "enable", "ingress"]));
    assert_eq!(commands[2].args, strings(&["addons", "enable", "registry"]));
}

#[test]
fn cleanup_probe_and_listing_are_exact() {
    let config = configuration(Vec::new(), Vec::new());
    let orchestrator = orchestrator(&config, &EnvMap::new());
    assert_eq!(orchestrator.cleanup().args, strings(&["delete"]));
    assert_eq!(orchestrator.is_running().args, strings(&["status"]));
    let listing = orchestrator.list_deployed_helmcharts();
    assert_eq!(listing.program, "/usr/bin/helm");
    assert_eq!(listing.args, strings(&["list"]));
}

#[test]
fn deploy_state_is_plain_data() {
    let state = DeployState {
        idx: 0,
        phase: DeployPhase::AtWorkload,
    };
    let copy = state;
    assert_eq!(copy.idx, 0);
}
