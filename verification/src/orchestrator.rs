//! The deployment pipeline: per-workload sequencing of repository
//! resolution, authentication, registration and upgrade, with per-workload
//! failure isolation, plus the entry points that plan the cluster bootstrap
//! and the port-forward supervision.
//!
//! The pipeline is a state machine.  The unverified shell performs each
//! returned action (running an external command, printing a diagnostic) and
//! feeds the outcome back as the next event; every decision between actions
//! is made — and verified — here.

use vstd::prelude::*;

use crate::CommandSpec;
use crate::env::{EnvEntry, EnvMap};
use crate::errors::DeployError;
use crate::helm::{Helm, spec_login_args, spec_register_args, spec_upgrade_args};
use crate::kubectl::{ForwardWorker, Kubectl, workers_for};
use crate::minikube::{Minikube, spec_addon_args, spec_addons, spec_start_args};
use crate::model::{Configuration, HelmChartRepo, Helmchart, config_eq};
use crate::outside::{parse_scheme_host, scheme_host_of};

verus! {

/// The configured repositories, or none.
pub open spec fn spec_repos(config: Configuration) -> Seq<HelmChartRepo> {
    match config.helm_chart_repo {
        Some(r) => r@,
        None => Seq::empty(),
    }
}

/// The declared workloads, in declaration order, or none.
pub open spec fn spec_charts(config: Configuration) -> Seq<Helmchart> {
    match config.helmchart {
        Some(c) => c@,
        None => Seq::empty(),
    }
}

/// The index of the first repository named `name` at or after `i`.
pub open spec fn spec_find_repo_from(repos: Seq<HelmChartRepo>, name: Seq<char>, i: int) -> Option<
    int,
>
    decreases repos.len() - i,
{
    if i < 0 || i >= repos.len() {
        None
    } else if repos[i].name@ == name {
        Some(i)
    } else {
        spec_find_repo_from(repos, name, i + 1)
    }
}

/// The index of the first repository named `name`, or `None` if the
/// configuration defines no such repository.
pub open spec fn spec_find_repo(repos: Seq<HelmChartRepo>, name: Seq<char>) -> Option<int> {
    spec_find_repo_from(repos, name, 0)
}

/// Finds the first repository named `name`.
pub fn find_repo(repos: &Vec<HelmChartRepo>, name: &String) -> (r: Option<usize>)
    ensures
        match r {
            Some(i) => i < repos@.len() && spec_find_repo(repos@, name@) == Some(i as int),
            None => spec_find_repo(repos@, name@) is None,
        },
{
    let mut i: usize = 0;
    while i < repos.len()
        invariant
            i <= repos@.len(),
            spec_find_repo(repos@, name@) == spec_find_repo_from(repos@, name@, i as int),
        decreases repos@.len() - i,
    {
        if repos[i].name == *name {
            return Some(i);
        }
        i = i + 1;
    }
    None
}

/// Which step of the current workload the pipeline waits on.
#[derive(Clone, Copy)]
pub enum DeployPhase {
    /// Ready to take up the workload at the current index.
    AtWorkload,
    /// The authenticate invocation is out.
    AwaitLogin,
    /// The register invocation is out.
    AwaitRegister,
    /// The upgrade invocation is out.
    AwaitUpgrade,
    /// The batch ended, normally or fatally.
    Halted,
}

/// Where the deployment batch stands: the current workload and the awaited
/// step.
#[derive(Clone, Copy)]
pub struct DeployState {
    pub idx: usize,
    pub phase: DeployPhase,
}

/// What the unverified shell reports back to the pipeline.
pub enum DeployEvent {
    /// Take up the next workload.
    Proceed,
    /// The authenticate invocation finished; `success` is its exit status.
    LoginResult { success: bool },
    /// The register or upgrade invocation finished without a spawn failure.
    CommandDone,
}

/// The probable re-login address re-derived from a repository URL.
pub struct ReloginTarget {
    pub scheme: String,
    pub host: String,
}

/// The diagnostic data of a workload skipped after a failed authentication.
pub struct SkipNotice {
    pub repo_url: String,
    pub relogin: Option<ReloginTarget>,
}

/// What the unverified shell must do next for the batch.
pub enum DeployAction {
    /// Run the authenticate invocation and feed back its exit status.
    RunLogin { command: CommandSpec },
    /// Run the register invocation and feed back its completion.
    RunRegister { command: CommandSpec },
    /// Run the upgrade invocation and feed back its completion.
    RunUpgrade { command: CommandSpec },
    /// Authentication failed: emit the diagnostic and proceed to the next
    /// workload; nothing was registered or upgraded for this one.
    SkipWorkload { notice: SkipNotice },
    /// The workload deployed; `handoff` says whether it declares ports and
    /// so goes to the port-forward supervisor.
    WorkloadDone { handoff: bool },
    /// A fatal error: the batch stops here.
    Fail { error: DeployError },
    /// No workloads are left.
    BatchDone,
}

/// Whether `event` is the kind of event `phase` waits for.
pub open spec fn deploy_event_fits(phase: DeployPhase, event: DeployEvent) -> bool {
    match phase {
        DeployPhase::AtWorkload => event is Proceed,
        DeployPhase::AwaitLogin => event is LoginResult,
        DeployPhase::AwaitRegister => event is CommandDone,
        DeployPhase::AwaitUpgrade => event is CommandDone,
        DeployPhase::Halted => true,
    }
}

/// A state the pipeline can actually be in: the index stays in range, and a
/// step awaited mid-workload has its repository resolved.
pub open spec fn deploy_state_ok(config: Configuration, s: DeployState) -> bool {
    match s.phase {
        DeployPhase::AtWorkload => s.idx <= spec_charts(config).len(),
        DeployPhase::Halted => true,
        _ => s.idx < spec_charts(config).len() && spec_find_repo(
            spec_repos(config),
            spec_charts(config)[s.idx as int].helm_chart_repo@,
        ) is Some,
    }
}

/// Whether `r` records what the URL parse read off the repository URL: the
/// scheme and the host, an absent host standing as the empty string.
pub open spec fn relogin_matches(
    r: Option<ReloginTarget>,
    parsed: Option<(Seq<char>, Option<Seq<char>>)>,
) -> bool {
    match parsed {
        None => r is None,
        Some(p) => r matches Some(t) && t.scheme@ == p.0 && match p.1 {
            Some(h) => t.host@ == h,
            None => t.host@ == Seq::<char>::empty(),
        },
    }
}

/// The probable re-login address read off a repository URL, or `None` when
/// the URL does not parse; an absent host stands as the empty string.
pub fn relogin_target(url: &str) -> (r: Option<ReloginTarget>)
    ensures
        relogin_matches(r, scheme_host_of(url@)),
{
    match parse_scheme_host(url) {
        Some(p) => {
            let (scheme, host_opt) = p;
            let host = match host_opt {
                Some(h) => h,
                None => String::new(),
            };
            Some(ReloginTarget { scheme, host })
        },
        None => None,
    }
}

/// Whether `action` is the register invocation for `repo`.
pub open spec fn is_register_action(
    o: Orchestrator,
    repo: HelmChartRepo,
    action: DeployAction,
) -> bool {
    action matches DeployAction::RunRegister { command } && command.program@
        == o.helm_binary_path@ && command.args_view() == spec_register_args(repo)
}

/// The pipeline's transition relation: how one step turns `pre` into `post`
/// and which action it hands the shell.
///
/// Repository resolution comes first and its failure halts the batch before
/// any invocation; a failed authentication skips exactly the current
/// workload and advances; an unresolvable credential halts; a finished
/// upgrade advances and says whether the workload goes to the supervisor.
pub open spec fn deploy_step_post(
    o: Orchestrator,
    pre: DeployState,
    event: DeployEvent,
    post: DeployState,
    action: DeployAction,
) -> bool {
    let charts = spec_charts(o.configuration);
    let repos = spec_repos(o.configuration);
    match pre.phase {
        DeployPhase::AtWorkload => if pre.idx >= charts.len() {
            post.idx == pre.idx && post.phase is Halted && action is BatchDone
        } else {
            let chart = charts[pre.idx as int];
            match spec_find_repo(repos, chart.helm_chart_repo@) {
                None => {
                    &&& post.idx == pre.idx && post.phase is Halted
                    &&& action matches DeployAction::Fail { error }
                        && error matches DeployError::ConfigReference { repo_ref } && repo_ref@
                        == chart.helm_chart_repo@
                },
                Some(ri) => {
                    let repo = repos[ri];
                    if repo.username is None && repo.password is None {
                        post.idx == pre.idx && post.phase is AwaitRegister && is_register_action(
                            o,
                            repo,
                            action,
                        )
                    } else {
                        match spec_login_args(repo, o.env.entries@) {
                            Err(n) => {
                                &&& post.idx == pre.idx && post.phase is Halted
                                &&& action matches DeployAction::Fail { error }
                                    && error matches DeployError::EnvVarMissing { name } && name@
                                    == n
                            },
                            Ok(largs) => {
                                &&& post.idx == pre.idx && post.phase is AwaitLogin
                                &&& action matches DeployAction::RunLogin { command }
                                    && command.program@ == o.helm_binary_path@
                                    && command.args_view() == largs
                            },
                        }
                    }
                },
            }
        },
        DeployPhase::AwaitLogin => event matches DeployEvent::LoginResult { success } && {
            let chart = charts[pre.idx as int];
            let repo = repos[spec_find_repo(repos, chart.helm_chart_repo@).unwrap()];
            if success {
                post.idx == pre.idx && post.phase is AwaitRegister && is_register_action(
                    o,
                    repo,
                    action,
                )
            } else {
                &&& post.idx == pre.idx + 1 && post.phase is AtWorkload
                &&& action matches DeployAction::SkipWorkload { notice } && notice.repo_url@
                    == repo.url@ && relogin_matches(notice.relogin, scheme_host_of(repo.url@))
            }
        },
        DeployPhase::AwaitRegister => {
            let chart = charts[pre.idx as int];
            match spec_upgrade_args(o.configuration.default_values@, o.env.entries@, chart) {
                Err(n) => {
                    &&& post.idx == pre.idx && post.phase is Halted
                    &&& action matches DeployAction::Fail { error }
                        && error matches DeployError::EnvVarMissing { name } && name@ == n
                },
                Ok(uargs) => {
                    &&& post.idx == pre.idx && post.phase is AwaitUpgrade
                    &&& action matches DeployAction::RunUpgrade { command } && command.program@
                        == o.helm_binary_path@ && command.args_view() == uargs
                },
            }
        },
        DeployPhase::AwaitUpgrade => {
            let chart = charts[pre.idx as int];
            &&& post.idx == pre.idx + 1 && post.phase is AtWorkload
            &&& action matches DeployAction::WorkloadDone { handoff } && handoff == (
            chart.ports@.len() > 0)
        },
        DeployPhase::Halted => post.idx == pre.idx && post.phase is Halted && action is BatchDone,
    }
}

/// A failed authentication is workload-scoped: the step hands back only the
/// skip diagnostic — no register or upgrade invocation — and the pipeline
/// stands at the next workload.  With `lemma_deploy_idx_monotone`, no later
/// step registers or upgrades the skipped workload either.
pub proof fn lemma_auth_failure_skips_workload(
    o: Orchestrator,
    pre: DeployState,
    post: DeployState,
    action: DeployAction,
)
    requires
        deploy_step_post(
            o,
            pre,
            (DeployEvent::LoginResult { success: false }),
            post,
            action,
        ),
        pre.phase is AwaitLogin,
    ensures
        action is SkipWorkload,
        post.idx == pre.idx + 1,
        post.phase is AtWorkload,
{
}

/// The pipeline never returns to an earlier workload, and every invocation
/// it hands out belongs to the workload it currently stands at.
pub proof fn lemma_deploy_idx_monotone(
    o: Orchestrator,
    pre: DeployState,
    event: DeployEvent,
    post: DeployState,
    action: DeployAction,
)
    requires
        deploy_step_post(o, pre, event, post, action),
    ensures
        post.idx >= pre.idx,
        action is RunLogin || action is RunRegister || action is RunUpgrade ==> post.idx
            == pre.idx,
{
}

/// An undefined repository reference halts the run before any external-tool
/// invocation: the step fails with the reference error and hands out no
/// command; by `lemma_halted_stays_halted`, none follows either.
pub proof fn lemma_undefined_repo_halts_before_any_call(
    o: Orchestrator,
    pre: DeployState,
    post: DeployState,
    action: DeployAction,
)
    requires
        deploy_step_post(o, pre, DeployEvent::Proceed, post, action),
        pre.phase is AtWorkload,
        pre.idx < spec_charts(o.configuration).len(),
        spec_find_repo(
            spec_repos(o.configuration),
            spec_charts(o.configuration)[pre.idx as int].helm_chart_repo@,
        ) is None,
    ensures
        action matches DeployAction::Fail { error } && error is ConfigReference,
        post.phase is Halted,
        !(action is RunLogin),
        !(action is RunRegister),
        !(action is RunUpgrade),
{
}

/// A halted pipeline stays halted and hands out no further invocation.
pub proof fn lemma_halted_stays_halted(
    o: Orchestrator,
    pre: DeployState,
    event: DeployEvent,
    post: DeployState,
    action: DeployAction,
)
    requires
        deploy_step_post(o, pre, event, post, action),
        pre.phase is Halted,
    ensures
        post.phase is Halted,
        action is BatchDone,
{
}

/// A run of the pipeline: each triple holds the event fed in, the state
/// after the step, and the action the step handed out.
pub open spec fn deploy_run(
    o: Orchestrator,
    s0: DeployState,
    steps: Seq<(DeployEvent, DeployState, DeployAction)>,
) -> bool
    decreases steps.len(),
{
    steps.len() == 0 || {
        &&& deploy_step_post(o, s0, steps[0].0, steps[0].1, steps[0].2)
        &&& deploy_run(o, steps[0].1, steps.drop_first())
    }
}

/// The state a run stands in just before its step `j`.
pub open spec fn deploy_pre_state(
    s0: DeployState,
    steps: Seq<(DeployEvent, DeployState, DeployAction)>,
    j: int,
) -> DeployState {
    if j <= 0 {
        s0
    } else {
        steps[j - 1].1
    }
}

/// Over a whole run, the pipeline never returns to an earlier workload, and
/// every invocation a step hands out belongs to the workload that step
/// stands at.
pub proof fn lemma_run_idx_monotone(
    o: Orchestrator,
    s0: DeployState,
    steps: Seq<(DeployEvent, DeployState, DeployAction)>,
    j: int,
)
    requires
        deploy_run(o, s0, steps),
        0 <= j < steps.len(),
    ensures
        deploy_pre_state(s0, steps, j).idx >= s0.idx,
        steps[j].1.idx >= deploy_pre_state(s0, steps, j).idx,
        steps[j].2 is RunLogin || steps[j].2 is RunRegister || steps[j].2 is RunUpgrade
            ==> steps[j].1.idx == deploy_pre_state(s0, steps, j).idx,
    decreases j,
{
    if j == 0 {
        lemma_deploy_idx_monotone(o, s0, steps[0].0, steps[0].1, steps[0].2);
    } else {
        lemma_run_idx_monotone(o, steps[0].1, steps.drop_first(), j - 1);
        assert(steps.drop_first()[j - 1] == steps[j]);
        if j > 1 {
            assert(steps.drop_first()[j - 2] == steps[j - 1]);
        }
        lemma_deploy_idx_monotone(o, s0, steps[0].0, steps[0].1, steps[0].2);
    }
}

/// A halted pipeline hands out nothing but the batch's end over any run.
pub proof fn lemma_halted_run_makes_no_calls(
    o: Orchestrator,
    s0: DeployState,
    steps: Seq<(DeployEvent, DeployState, DeployAction)>,
    j: int,
)
    requires
        deploy_run(o, s0, steps),
        s0.phase is Halted,
        0 <= j < steps.len(),
    ensures
        steps[j].2 is BatchDone,
        steps[j].1.phase is Halted,
    decreases j,
{
    lemma_halted_stays_halted(o, s0, steps[0].0, steps[0].1, steps[0].2);
    if j > 0 {
        lemma_halted_run_makes_no_calls(o, steps[0].1, steps.drop_first(), j - 1);
        assert(steps.drop_first()[j - 1] == steps[j]);
    }
}

/// If authentication returns false for the workload the pipeline stands at,
/// that workload is skipped with its diagnostic, the run continues at the
/// next workload, and no later step of the run hands out an invocation for
/// the skipped workload or any earlier one: every later invocation belongs
/// to a workload past it.
pub proof fn lemma_auth_failure_never_revisits(
    o: Orchestrator,
    s0: DeployState,
    steps: Seq<(DeployEvent, DeployState, DeployAction)>,
    j: int,
)
    requires
        deploy_run(o, s0, steps),
        s0.phase is AwaitLogin,
        steps.len() > 0,
        steps[0].0 == (DeployEvent::LoginResult { success: false }),
        1 <= j < steps.len(),
    ensures
        steps[0].2 is SkipWorkload,
        steps[0].1.idx == s0.idx + 1,
        steps[0].1.phase is AtWorkload,
        deploy_pre_state(s0, steps, j).idx > s0.idx,
        steps[j].2 is RunLogin || steps[j].2 is RunRegister || steps[j].2 is RunUpgrade
            ==> steps[j].1.idx > s0.idx,
{
    lemma_auth_failure_skips_workload(o, s0, steps[0].1, steps[0].2);
    lemma_run_idx_monotone(o, steps[0].1, steps.drop_first(), j - 1);
    assert(steps.drop_first()[j - 1] == steps[j]);
    if j > 1 {
        assert(steps.drop_first()[j - 2] == steps[j - 1]);
    }
}

/// If the workload the pipeline stands at references an undefined
/// repository, the run fails at once with the reference error, and no step
/// of the whole run — this one or any later — hands out an external-tool
/// invocation.
pub proof fn lemma_undefined_repo_run_makes_no_calls(
    o: Orchestrator,
    s0: DeployState,
    steps: Seq<(DeployEvent, DeployState, DeployAction)>,
    j: int,
)
    requires
        deploy_run(o, s0, steps),
        s0.phase is AtWorkload,
        s0.idx < spec_charts(o.configuration).len(),
        spec_find_repo(
            spec_repos(o.configuration),
            spec_charts(o.configuration)[s0.idx as int].helm_chart_repo@,
        ) is None,
        steps.len() > 0,
        steps[0].0 is Proceed,
        0 <= j < steps.len(),
    ensures
        steps[0].2 matches DeployAction::Fail { error } && error is ConfigReference,
        !(steps[j].2 is RunLogin),
        !(steps[j].2 is RunRegister),
        !(steps[j].2 is RunUpgrade),
{
    lemma_undefined_repo_halts_before_any_call(o, s0, steps[0].1, steps[0].2);
    if j > 0 {
        lemma_halted_run_makes_no_calls(o, steps[0].1, steps.drop_first(), j - 1);
        assert(steps.drop_first()[j - 1] == steps[j]);
    }
}

/// The orchestrator: the loaded configuration, the external tools' paths,
/// the environment snapshot, and the two tool clients.
pub struct Orchestrator {
    pub configuration: Configuration,
    pub helm_binary_path: String,
    pub env: EnvMap,
    pub minikube: Minikube,
    pub kubectl: Kubectl,
}

impl Orchestrator {
    /// An orchestrator over the given configuration, tool paths and
    /// environment snapshot.
    pub fn new(
        configuration: &Configuration,
        minikube_binary_path: &String,
        helm_binary_path: &String,
        kubectl_binary_path: &String,
        env: &EnvMap,
    ) -> (r: Orchestrator)
        ensures
            config_eq(r.configuration, *configuration),
            r.helm_binary_path@ == helm_binary_path@,
            r.env.entries@ == env.entries@,
            config_eq(r.minikube.configuration, *configuration),
            r.minikube.minikube_binary_path@ == minikube_binary_path@,
            config_eq(r.kubectl.configuration, *configuration),
            r.kubectl.kubectl_binary_path@ == kubectl_binary_path@,
    {
        Orchestrator {
            configuration: configuration.duplicate(),
            helm_binary_path: helm_binary_path.clone(),
            env: env.duplicate(),
            minikube: Minikube::new(configuration, minikube_binary_path),
            kubectl: Kubectl::new(configuration, kubectl_binary_path),
        }
    }

    /// The cluster bootstrap plan: the start invocation, then one
    /// addon-enable invocation per declared addon.
    pub fn start(&self) -> (r: Vec<CommandSpec>)
        ensures
            r@.len() == 1 + spec_addons(self.minikube.configuration.minikube).len(),
            r@[0].program@ == self.minikube.minikube_binary_path@,
            r@[0].args_view() == spec_start_args(self.minikube.configuration.minikube),
            forall|i: int|
                1 <= i < r@.len() ==> {
                    &&& (#[trigger] r@[i]).program@ == self.minikube.minikube_binary_path@
                    &&& r@[i].args_view() == spec_addon_args(
                        spec_addons(self.minikube.configuration.minikube)[i - 1]@,
                    )
                },
    {
        self.minikube.start_commands()
    }

    /// The cluster teardown invocation.
    pub fn cleanup(&self) -> (r: CommandSpec)
        ensures
            r.program@ == self.minikube.minikube_binary_path@,
            r.args_view() == seq!["delete"@],
    {
        self.minikube.cleanup_command()
    }

    /// The cluster liveness probe; its exit status answers whether the
    /// cluster runs.
    pub fn is_running(&self) -> (r: CommandSpec)
        ensures
            r.program@ == self.minikube.minikube_binary_path@,
            r.args_view() == seq!["status"@],
    {
        self.minikube.status_command()
    }

    /// The release listing invocation: `list`.
    pub fn list_deployed_helmcharts(&self) -> (r: CommandSpec)
        ensures
            r.program@ == self.helm_binary_path@,
            r.args_view() == seq!["list"@],
    {
        let mut args: Vec<String> = Vec::new();
        args.push("list".to_owned());
        let r = CommandSpec { program: self.helm_binary_path.clone(), args };
        proof {
            assert(r.args_view() =~= seq!["list"@]);
        }
        r
    }

    /// The batch's initial state: the first workload, nothing awaited.
    pub fn deploy_begin(&self) -> (r: DeployState)
        ensures
            r.idx == 0,
            r.phase is AtWorkload,
            deploy_state_ok(self.configuration, r),
    {
        DeployState { idx: 0, phase: DeployPhase::AtWorkload }
    }

    /// Advances the deployment batch by one event and returns what the shell
    /// must do next.
    pub fn deploy_step(&self, state: DeployState, event: &DeployEvent) -> (r: (
        DeployState,
        DeployAction,
    ))
        requires
            deploy_event_fits(state.phase, *event),
            deploy_state_ok(self.configuration, state),
        ensures
            deploy_step_post(*self, state, *event, r.0, r.1),
            deploy_state_ok(self.configuration, r.0),
    {
        match state.phase {
            DeployPhase::AtWorkload => {
                let charts_len = match &self.configuration.helmchart {
                    Some(c) => c.len(),
                    None => 0,
                };
                assert(charts_len == spec_charts(self.configuration).len());
                if state.idx >= charts_len {
                    return (
                        DeployState { idx: state.idx, phase: DeployPhase::Halted },
                        DeployAction::BatchDone,
                    );
                }
                let chart = match &self.configuration.helmchart {
                    Some(c) => &c[state.idx],
                    None => {
                        return vstd::pervasive::unreached();
                    },
                };
                let found = match &self.configuration.helm_chart_repo {
                    Some(repos) => find_repo(repos, &chart.helm_chart_repo),
                    None => None,
                };
                let ri = match found {
                    Some(ri) => ri,
                    None => {
                        return (
                            DeployState { idx: state.idx, phase: DeployPhase::Halted },
                            DeployAction::Fail {
                                error: DeployError::ConfigReference {
                                    repo_ref: chart.helm_chart_repo.clone(),
                                },
                            },
                        );
                    },
                };
                let repo = match &self.configuration.helm_chart_repo {
                    Some(repos) => &repos[ri],
                    None => {
                        return vstd::pervasive::unreached();
                    },
                };
                let helm = Helm::new(
                    repo,
                    &self.configuration.default_values,
                    &self.helm_binary_path,
                    &self.env,
                );
                match helm.login_command() {
                    Ok(None) => {
                        let command = helm.add_repo_command();
                        (
                            DeployState { idx: state.idx, phase: DeployPhase::AwaitRegister },
                            DeployAction::RunRegister { command },
                        )
                    },
                    Ok(Some(command)) => {
                        (
                            DeployState { idx: state.idx, phase: DeployPhase::AwaitLogin },
                            DeployAction::RunLogin { command },
                        )
                    },
                    Err(error) => {
                        (
                            DeployState { idx: state.idx, phase: DeployPhase::Halted },
                            DeployAction::Fail { error },
                        )
                    },
                }
            },
            DeployPhase::AwaitLogin => {
                let success = match event {
                    DeployEvent::LoginResult { success } => *success,
                    _ => {
                        return vstd::pervasive::unreached();
                    },
                };
                let charts = match &self.configuration.helmchart {
                    Some(c) => c,
                    None => {
                        return vstd::pervasive::unreached();
                    },
                };
                if state.idx >= charts.len() {
                    return vstd::pervasive::unreached();
                }
                let chart = &charts[state.idx];
                let repos = match &self.configuration.helm_chart_repo {
                    Some(repos) => repos,
                    None => {
                        return vstd::pervasive::unreached();
                    },
                };
                let ri = match find_repo(repos, &chart.helm_chart_repo) {
                    Some(ri) => ri,
                    None => {
                        return vstd::pervasive::unreached();
                    },
                };
                let repo = &repos[ri];
                if success {
                    let helm = Helm::new(
                        repo,
                        &self.configuration.default_values,
                        &self.helm_binary_path,
                        &self.env,
                    );
                    let command = helm.add_repo_command();
                    (
                        DeployState { idx: state.idx, phase: DeployPhase::AwaitRegister },
                        DeployAction::RunRegister { command },
                    )
                } else {
                    let notice = SkipNotice {
                        repo_url: repo.url.clone(),
                        relogin: relogin_target(repo.url.as_str()),
                    };
                    (
                        DeployState { idx: state.idx + 1, phase: DeployPhase::AtWorkload },
                        DeployAction::SkipWorkload { notice },
                    )
                }
            },
            DeployPhase::AwaitRegister => {
                let chart = match &self.configuration.helmchart {
                    Some(c) => &c[state.idx],
                    None => {
                        return vstd::pervasive::unreached();
                    },
                };
                let repos = match &self.configuration.helm_chart_repo {
                    Some(repos) => repos,
                    None => {
                        return vstd::pervasive::unreached();
                    },
                };
                let ri = match find_repo(repos, &chart.helm_chart_repo) {
                    Some(ri) => ri,
                    None => {
                        return vstd::pervasive::unreached();
                    },
                };
                let helm = Helm::new(
                    &repos[ri],
                    &self.configuration.default_values,
                    &self.helm_binary_path,
                    &self.env,
                );
                match helm.upgrade_command(chart) {
                    Ok(command) => {
                        (
                            DeployState { idx: state.idx, phase: DeployPhase::AwaitUpgrade },
                            DeployAction::RunUpgrade { command },
                        )
                    },
                    Err(error) => {
                        (
                            DeployState { idx: state.idx, phase: DeployPhase::Halted },
                            DeployAction::Fail { error },
                        )
                    },
                }
            },
            DeployPhase::AwaitUpgrade => {
                let charts = match &self.configuration.helmchart {
                    Some(c) => c,
                    None => {
                        return vstd::pervasive::unreached();
                    },
                };
                if state.idx >= charts.len() {
                    return vstd::pervasive::unreached();
                }
                let chart = &charts[state.idx];
                let handoff = chart.ports.len() > 0;
                (
                    DeployState { idx: state.idx + 1, phase: DeployPhase::AtWorkload },
                    DeployAction::WorkloadDone { handoff },
                )
            },
            DeployPhase::Halted => {
                (DeployState { idx: state.idx, phase: DeployPhase::Halted }, DeployAction::BatchDone)
            },
        }
    }

    /// One fresh forwarding worker per configured workload.
    pub fn port_forward_all_helmcharts(&self) -> (workers: Vec<ForwardWorker>)
        ensures
            match self.kubectl.configuration.helmchart {
                Some(charts) => workers_for(
                    workers@,
                    self.kubectl.kubectl_binary_path@,
                    charts@,
                ),
                None => workers@.len() == 0,
            },
    {
        self.kubectl.port_forward_all_helmcharts()
    }
}

} // verus!
