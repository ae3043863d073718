//! The port-forward side: the cluster-query argument lists, the per-workload
//! forwarding worker as a state machine, and the count of active workers
//! that the cancellation broadcaster must wake.
//!
//! A worker advances through at most three queries (namespace, a service
//! fallback for the namespace, then the service name), spawns one forwarding
//! child for all its declared ports, and blocks until the cancellation
//! wake-up tells it to kill that child.  The unverified shell runs the
//! queries and the child; every decision between them stands here.

use vstd::prelude::*;

use crate::CommandSpec;
use crate::model::{Configuration, Helmchart, chart_eq, config_eq};
use crate::strings::{spec_first_token, first_token, dec_rep, append_decimal, strs_view, concat2,
    concat3};

verus! {

/// The namespace query: all namespaces whose annotation records this
/// release's name.
pub open spec fn spec_namespace_query_args(release: Seq<char>) -> Seq<Seq<char>> {
    seq![
        "get"@,
        "namespaces"@,
        "-o"@,
        "jsonpath={.items[?(@.metadata.annotations.meta\\.helm\\.sh/release-name==\""@ + release
            + "\")].metadata.name}"@,
    ]
}

/// The fallback query: the namespaces read off services annotated with this
/// release's name.
pub open spec fn spec_fallback_query_args(release: Seq<char>) -> Seq<Seq<char>> {
    seq![
        "get"@,
        "services"@,
        "-o"@,
        "jsonpath={.items[?(@.metadata.annotations.meta\\.helm\\.sh/release-name==\""@ + release
            + "\")].metadata.namespace}"@,
    ]
}

/// The service query: the services of `namespace` annotated with this
/// release's name.
pub open spec fn spec_service_query_args(namespace: Seq<char>, release: Seq<char>) -> Seq<
    Seq<char>,
> {
    seq![
        "--namespace"@,
        namespace,
        "get"@,
        "service"@,
        "-o"@,
        "jsonpath={.items[?(@.metadata.annotations.meta\\.helm\\.sh/release-name==\""@ + release
            + "\")].metadata.name}"@,
    ]
}

/// The forwarding child's arguments: one local-to-remote tunnel per declared
/// port against `service/<service>` in `<namespace>`.
pub open spec fn spec_port_forward_args(
    namespace: Seq<char>,
    service: Seq<char>,
    ports: Seq<u16>,
) -> Seq<Seq<char>> {
    seq!["port-forward"@, "--namespace"@, namespace, "service/"@ + service]
        + ports.map_values(|p: u16| ":"@ + dec_rep(p as nat))
}

/// Builds the namespace query.
pub fn namespace_query_command(kubectl_binary_path: &String, release: &String) -> (r: CommandSpec)
    ensures
        r.program@ == kubectl_binary_path@,
        r.args_view() == spec_namespace_query_args(release@),
{
    let mut args: Vec<String> = Vec::new();
    args.push("get".to_owned());
    args.push("namespaces".to_owned());
    args.push("-o".to_owned());
    args.push(
        concat3(
            "jsonpath={.items[?(@.metadata.annotations.meta\\.helm\\.sh/release-name==\"",
            release.as_str(),
            "\")].metadata.name}",
        ),
    );
    let r = CommandSpec { program: kubectl_binary_path.clone(), args };
    proof {
        assert(r.args_view() =~= spec_namespace_query_args(release@));
    }
    r
}

/// Builds the fallback query.
pub fn fallback_query_command(kubectl_binary_path: &String, release: &String) -> (r: CommandSpec)
    ensures
        r.program@ == kubectl_binary_path@,
        r.args_view() == spec_fallback_query_args(release@),
{
    let mut args: Vec<String> = Vec::new();
    args.push("get".to_owned());
    args.push("services".to_owned());
    args.push("-o".to_owned());
    args.push(
        concat3(
            "jsonpath={.items[?(@.metadata.annotations.meta\\.helm\\.sh/release-name==\"",
            release.as_str(),
            "\")].metadata.namespace}",
        ),
    );
    let r = CommandSpec { program: kubectl_binary_path.clone(), args };
    proof {
        assert(r.args_view() =~= spec_fallback_query_args(release@));
    }
    r
}

/// Builds the service query.
pub fn service_query_command(
    kubectl_binary_path: &String,
    namespace: &String,
    release: &String,
) -> (r: CommandSpec)
    ensures
        r.program@ == kubectl_binary_path@,
        r.args_view() == spec_service_query_args(namespace@, release@),
{
    let mut args: Vec<String> = Vec::new();
    args.push("--namespace".to_owned());
    args.push(namespace.clone());
    args.push("get".to_owned());
    args.push("service".to_owned());
    args.push("-o".to_owned());
    args.push(
        concat3(
            "jsonpath={.items[?(@.metadata.annotations.meta\\.helm\\.sh/release-name==\"",
            release.as_str(),
            "\")].metadata.name}",
        ),
    );
    let r = CommandSpec { program: kubectl_binary_path.clone(), args };
    proof {
        assert(r.args_view() =~= spec_service_query_args(namespace@, release@));
    }
    r
}

/// Builds the forwarding child's invocation.
pub fn port_forward_command(
    kubectl_binary_path: &String,
    namespace: &String,
    service: &String,
    ports: &Vec<u16>,
) -> (r: CommandSpec)
    ensures
        r.program@ == kubectl_binary_path@,
        r.args_view() == spec_port_forward_args(namespace@, service@, ports@),
{
    let mut args: Vec<String> = Vec::new();
    args.push("port-forward".to_owned());
    args.push("--namespace".to_owned());
    args.push(namespace.clone());
    args.push(concat2("service/", service.as_str()));
    let ghost fixed = strs_view(args@);
    proof {
        assert(fixed =~= seq![
            "port-forward"@,
            "--namespace"@,
            namespace@,
            "service/"@ + service@,
        ]);
        assert(ports@.take(0).map_values(|p: u16| ":"@ + dec_rep(p as nat)) =~= Seq::<
            Seq<char>,
        >::empty());
        assert(strs_view(args@) =~= fixed + ports@.take(0).map_values(
            |p: u16| ":"@ + dec_rep(p as nat),
        ));
    }
    let mut i: usize = 0;
    while i < ports.len()
        invariant
            i <= ports@.len(),
            strs_view(args@) == fixed + ports@.take(i as int).map_values(
                |p: u16| ":"@ + dec_rep(p as nat),
            ),
        decreases ports@.len() - i,
    {
        let mut port_arg = ":".to_owned();
        append_decimal(&mut port_arg, ports[i] as u64);
        let ghost pa = port_arg@;
        let ghost old_args = args@;
        args.push(port_arg);
        proof {
            assert(pa == ":"@ + dec_rep(ports@[i as int] as nat));
            assert(strs_view(args@) =~= strs_view(old_args).push(pa));
            assert(ports@.take(i as int + 1) =~= ports@.take(i as int).push(ports@[i as int]));
            assert(ports@.take(i as int + 1).map_values(|p: u16| ":"@ + dec_rep(p as nat))
                =~= ports@.take(i as int).map_values(|p: u16| ":"@ + dec_rep(p as nat)).push(
                ":"@ + dec_rep(ports@[i as int] as nat),
            ));
            assert((fixed + ports@.take(i as int).map_values(|p: u16| ":"@ + dec_rep(p as nat)))
                .push(pa) =~= fixed + ports@.take(i as int + 1).map_values(
                |p: u16| ":"@ + dec_rep(p as nat),
            ));
            assert(strs_view(args@) =~= fixed + ports@.take(i as int + 1).map_values(
                |p: u16| ":"@ + dec_rep(p as nat),
            ));
        }
        i = i + 1;
    }
    proof {
        assert(ports@.take(ports@.len() as int) =~= ports@);
    }
    let r = CommandSpec { program: kubectl_binary_path.clone(), args };
    proof {
        assert(r.args_view() =~= spec_port_forward_args(namespace@, service@, ports@));
    }
    r
}

/// Where a forwarding worker stands.
pub enum WorkerState {
    /// Not started yet.
    Start,
    /// The namespace query is out.
    AwaitNamespace,
    /// The fallback query is out.
    AwaitFallback,
    /// The service query inside `namespace` is out.
    AwaitService { namespace: String },
    /// The forwarding child runs; the worker blocks until cancelled.
    Forwarding { namespace: String, service: String },
    /// The worker is done and takes no further action.
    Finished,
}

/// What the unverified shell reports back to a worker.
pub enum WorkerEvent {
    /// The worker is started.
    Begin,
    /// A query finished with this standard output.
    QueryOutput { output: String },
    /// The cancellation wake-up arrived.
    Cancel,
}

/// Which resolution step came up empty.
pub enum ForwardSkip {
    /// No namespace records this release.
    Namespace,
    /// The namespace holds no service recording this release.
    Service,
}

/// What the unverified shell must do next for a worker.
pub enum WorkerAction {
    /// Run this query and feed its standard output back.
    RunQuery { command: CommandSpec },
    /// Spawn this long-lived forwarding child, then wait for cancellation.
    SpawnForward { command: CommandSpec },
    /// Emit a diagnostic; no forwarding for this workload.
    Skip { cause: ForwardSkip },
    /// Kill the forwarding child; the worker is done.
    KillChild,
    /// Nothing to do.
    Done,
}

/// One forwarding worker: a workload, the query tool's path, and where the
/// worker stands.
pub struct ForwardWorker {
    pub kubectl_binary_path: String,
    pub helmchart: Helmchart,
    pub state: WorkerState,
}

/// Whether `event` is the kind of event `state` waits for.
pub open spec fn event_fits(state: WorkerState, event: WorkerEvent) -> bool {
    match state {
        WorkerState::Start => event is Begin,
        WorkerState::AwaitNamespace => event is QueryOutput,
        WorkerState::AwaitFallback => event is QueryOutput,
        WorkerState::AwaitService { .. } => event is QueryOutput,
        WorkerState::Forwarding { .. } => event is Cancel,
        WorkerState::Finished => true,
    }
}

/// The worker transition relation: how one step turns `pre` into `post` and
/// which action it hands the shell.
pub open spec fn worker_step_post(
    pre: ForwardWorker,
    event: WorkerEvent,
    post: ForwardWorker,
    action: WorkerAction,
) -> bool {
    &&& post.kubectl_binary_path@ == pre.kubectl_binary_path@
    &&& post.helmchart == pre.helmchart
    &&& match pre.state {
        WorkerState::Start => if pre.helmchart.ports@.len() == 0 {
            post.state is Finished && action is Done
        } else {
            &&& post.state is AwaitNamespace
            &&& action matches WorkerAction::RunQuery { command }
                && command.program@ == pre.kubectl_binary_path@ && command.args_view()
                == spec_namespace_query_args(pre.helmchart.name@)
        },
        WorkerState::AwaitNamespace => event matches WorkerEvent::QueryOutput { output } && match
            spec_first_token(output@) {
            Some(ns) => {
                &&& post.state matches WorkerState::AwaitService { namespace }
                    && namespace@ == ns
                &&& action matches WorkerAction::RunQuery { command }
                    && command.program@ == pre.kubectl_binary_path@ && command.args_view()
                    == spec_service_query_args(ns, pre.helmchart.name@)
            },
            None => {
                &&& post.state is AwaitFallback
                &&& action matches WorkerAction::RunQuery { command }
                    && command.program@ == pre.kubectl_binary_path@ && command.args_view()
                    == spec_fallback_query_args(pre.helmchart.name@)
            },
        },
        WorkerState::AwaitFallback => event matches WorkerEvent::QueryOutput { output } && match
            spec_first_token(output@) {
            Some(ns) => {
                &&& post.state matches WorkerState::AwaitService { namespace }
                    && namespace@ == ns
                &&& action matches WorkerAction::RunQuery { command }
                    && command.program@ == pre.kubectl_binary_path@ && command.args_view()
                    == spec_service_query_args(ns, pre.helmchart.name@)
            },
            None => {
                &&& post.state is Finished
                &&& action matches WorkerAction::Skip { cause } && cause is Namespace
            },
        },
        WorkerState::AwaitService { namespace } => event matches WorkerEvent::QueryOutput { output }
            && match spec_first_token(output@) {
            Some(svc) => {
                &&& post.state matches WorkerState::Forwarding { namespace: ns, service }
                    && ns@ == namespace@ && service@ == svc
                &&& action matches WorkerAction::SpawnForward { command }
                    && command.program@ == pre.kubectl_binary_path@ && command.args_view()
                    == spec_port_forward_args(namespace@, svc, pre.helmchart.ports@)
            },
            None => {
                &&& post.state is Finished
                &&& action matches WorkerAction::Skip { cause } && cause is Service
            },
        },
        WorkerState::Forwarding { .. } => post.state is Finished && action is KillChild,
        WorkerState::Finished => post.state is Finished && action is Done,
    }
}

impl ForwardWorker {
    /// A worker for `helmchart`, not yet started.
    pub fn new(kubectl_binary_path: &String, helmchart: &Helmchart) -> (r: Self)
        ensures
            r.kubectl_binary_path@ == kubectl_binary_path@,
            r.helmchart.helm_chart_repo == helmchart.helm_chart_repo,
            r.helmchart.name == helmchart.name,
            r.helmchart.ports@ == helmchart.ports@,
            r.helmchart.values@ == helmchart.values@,
            r.state is Start,
    {
        ForwardWorker {
            kubectl_binary_path: kubectl_binary_path.clone(),
            helmchart: helmchart.duplicate(),
            state: WorkerState::Start,
        }
    }

    /// Advances the worker by one event and returns what the shell must do
    /// next.
    pub fn step(&mut self, event: &WorkerEvent) -> (action: WorkerAction)
        requires
            event_fits(old(self).state, *event),
        ensures
            worker_step_post(*old(self), *event, *final(self), action),
    {
        match &self.state {
            WorkerState::Start => {
                if self.helmchart.ports.len() == 0 {
                    self.state = WorkerState::Finished;
                    WorkerAction::Done
                } else {
                    let command = namespace_query_command(
                        &self.kubectl_binary_path,
                        &self.helmchart.name,
                    );
                    self.state = WorkerState::AwaitNamespace;
                    WorkerAction::RunQuery { command }
                }
            },
            WorkerState::AwaitNamespace => {
                let output = match event {
                    WorkerEvent::QueryOutput { output } => output,
                    _ => {
                        return vstd::pervasive::unreached();
                    },
                };
                match first_token(output.as_str()) {
                    Some(namespace) => {
                        let command = service_query_command(
                            &self.kubectl_binary_path,
                            &namespace,
                            &self.helmchart.name,
                        );
                        self.state = WorkerState::AwaitService { namespace };
                        WorkerAction::RunQuery { command }
                    },
                    None => {
                        let command = fallback_query_command(
                            &self.kubectl_binary_path,
                            &self.helmchart.name,
                        );
                        self.state = WorkerState::AwaitFallback;
                        WorkerAction::RunQuery { command }
                    },
                }
            },
            WorkerState::AwaitFallback => {
                let output = match event {
                    WorkerEvent::QueryOutput { output } => output,
                    _ => {
                        return vstd::pervasive::unreached();
                    },
                };
                match first_token(output.as_str()) {
                    Some(namespace) => {
                        let command = service_query_command(
                            &self.kubectl_binary_path,
                            &namespace,
                            &self.helmchart.name,
                        );
                        self.state = WorkerState::AwaitService { namespace };
                        WorkerAction::RunQuery { command }
                    },
                    None => {
                        self.state = WorkerState::Finished;
                        WorkerAction::Skip { cause: ForwardSkip::Namespace }
                    },
                }
            },
            WorkerState::AwaitService { namespace } => {
                let output = match event {
                    WorkerEvent::QueryOutput { output } => output,
                    _ => {
                        return vstd::pervasive::unreached();
                    },
                };
                let namespace = namespace.clone();
                match first_token(output.as_str()) {
                    Some(service) => {
                        let command = port_forward_command(
                            &self.kubectl_binary_path,
                            &namespace,
                            &service,
                            &self.helmchart.ports,
                        );
                        self.state = WorkerState::Forwarding { namespace, service };
                        WorkerAction::SpawnForward { command }
                    },
                    None => {
                        self.state = WorkerState::Finished;
                        WorkerAction::Skip { cause: ForwardSkip::Service }
                    },
                }
            },
            WorkerState::Forwarding { .. } => {
                self.state = WorkerState::Finished;
                WorkerAction::KillChild
            },
            WorkerState::Finished => WorkerAction::Done,
        }
    }
}

/// Whether `workers` is the fresh worker set for `charts`: one not-yet-started
/// worker per workload, in declaration order, all over the same query tool.
pub open spec fn workers_for(
    workers: Seq<ForwardWorker>,
    path: Seq<char>,
    charts: Seq<Helmchart>,
) -> bool {
    &&& workers.len() == charts.len()
    &&& forall|i: int|
        0 <= i < workers.len() ==> {
            &&& (#[trigger] workers[i]).kubectl_binary_path@ == path
            &&& chart_eq(workers[i].helmchart, charts[i])
            &&& workers[i].state is Start
        }
}

/// The supervisor's side of the query tool: it owns the configuration and
/// the tool's path, and hands out one worker per workload.
pub struct Kubectl {
    pub configuration: Configuration,
    pub kubectl_binary_path: String,
}

impl Kubectl {
    /// A supervisor over the given configuration and query-tool path.
    pub fn new(configuration: &Configuration, kubectl_binary_path: &String) -> (r: Self)
        ensures
            config_eq(r.configuration, *configuration),
            r.kubectl_binary_path@ == kubectl_binary_path@,
    {
        Kubectl {
            configuration: configuration.duplicate(),
            kubectl_binary_path: kubectl_binary_path.clone(),
        }
    }

    /// One fresh worker per workload of `helmcharts`, in declaration order.
    pub fn port_forwarding(&self, helmcharts: &Vec<Helmchart>) -> (workers: Vec<ForwardWorker>)
        ensures
            workers_for(workers@, self.kubectl_binary_path@, helmcharts@),
    {
        let mut workers: Vec<ForwardWorker> = Vec::new();
        let mut i: usize = 0;
        while i < helmcharts.len()
            invariant
                i <= helmcharts@.len(),
                workers@.len() == i,
                forall|j: int|
                    0 <= j < i ==> {
                        &&& (#[trigger] workers@[j]).kubectl_binary_path@
                            == self.kubectl_binary_path@
                        &&& chart_eq(workers@[j].helmchart, helmcharts@[j])
                        &&& workers@[j].state is Start
                    },
            decreases helmcharts@.len() - i,
        {
            workers.push(ForwardWorker::new(&self.kubectl_binary_path, &helmcharts[i]));
            i = i + 1;
        }
        workers
    }

    /// One fresh worker per configured workload, or none when the
    /// configuration declares no workloads.
    pub fn port_forward_all_helmcharts(&self) -> (workers: Vec<ForwardWorker>)
        ensures
            match self.configuration.helmchart {
                Some(charts) => workers_for(workers@, self.kubectl_binary_path@, charts@),
                None => workers@.len() == 0,
            },
    {
        match &self.configuration.helmchart {
            Some(charts) => self.port_forwarding(charts),
            None => Vec::new(),
        }
    }
}

/// A run of one worker: each triple holds the event fed in, the worker
/// after the step, and the action the step handed out.
pub open spec fn worker_run(
    w0: ForwardWorker,
    steps: Seq<(WorkerEvent, ForwardWorker, WorkerAction)>,
) -> bool
    decreases steps.len(),
{
    steps.len() == 0 || {
        &&& worker_step_post(w0, steps[0].0, steps[0].1, steps[0].2)
        &&& worker_run(steps[0].1, steps.drop_first())
    }
}

/// For a workload with no declared ports, a worker issues no cluster query
/// and spawns no forwarding child over any run: every step of such a worker
/// hands out nothing to do.
pub proof fn lemma_empty_ports_run_takes_no_action(
    w0: ForwardWorker,
    steps: Seq<(WorkerEvent, ForwardWorker, WorkerAction)>,
    j: int,
)
    requires
        worker_run(w0, steps),
        w0.helmchart.ports@.len() == 0,
        w0.state is Start,
        0 <= j < steps.len(),
    ensures
        steps[j].2 is Done,
        steps[j].1.state is Finished,
    decreases j,
{
    if j == 0 {
        lemma_empty_ports_worker_takes_no_action(w0, steps[0].0, steps[0].1, steps[0].2);
    } else {
        lemma_empty_ports_worker_takes_no_action(w0, steps[0].0, steps[0].1, steps[0].2);
        lemma_empty_ports_finished_run(steps[0].1, steps.drop_first(), j - 1);
        assert(steps.drop_first()[j - 1] == steps[j]);
    }
}

/// The finished-worker form of the same statement, for the induction above.
proof fn lemma_empty_ports_finished_run(
    w0: ForwardWorker,
    steps: Seq<(WorkerEvent, ForwardWorker, WorkerAction)>,
    j: int,
)
    requires
        worker_run(w0, steps),
        w0.state is Finished,
        0 <= j < steps.len(),
    ensures
        steps[j].2 is Done,
        steps[j].1.state is Finished,
    decreases j,
{
    if j == 0 {
        lemma_finished_worker_idle(w0, steps[0].0, steps[0].1, steps[0].2);
    } else {
        lemma_finished_worker_idle(w0, steps[0].0, steps[0].1, steps[0].2);
        lemma_empty_ports_finished_run(steps[0].1, steps.drop_first(), j - 1);
        assert(steps.drop_first()[j - 1] == steps[j]);
    }
}

/// For a workload with no declared ports, the supervisor issues no cluster
/// query and spawns no forwarding child: every step of such a worker only
/// finishes it.  A fresh worker starts in `Start`, and each step below keeps
/// it in `Start` or `Finished`, so this covers every state such a worker
/// can reach.
pub proof fn lemma_empty_ports_worker_takes_no_action(
    pre: ForwardWorker,
    event: WorkerEvent,
    post: ForwardWorker,
    action: WorkerAction,
)
    requires
        worker_step_post(pre, event, post, action),
        pre.helmchart.ports@.len() == 0,
        pre.state is Start || pre.state is Finished,
    ensures
        post.state is Finished,
        post.helmchart.ports@.len() == 0,
        action is Done,
{
}

/// The cancellation wake-up makes a forwarding worker kill exactly its one
/// child and finish.
pub proof fn lemma_cancel_kills_one_child(
    pre: ForwardWorker,
    event: WorkerEvent,
    post: ForwardWorker,
    action: WorkerAction,
)
    requires
        worker_step_post(pre, event, post, action),
        pre.state is Forwarding,
    ensures
        action is KillChild,
        post.state is Finished,
{
}

/// A finished worker stays finished and never kills another child, issues
/// another query or spawns another forwarding child.
pub proof fn lemma_finished_worker_idle(
    pre: ForwardWorker,
    event: WorkerEvent,
    post: ForwardWorker,
    action: WorkerAction,
)
    requires
        worker_step_post(pre, event, post, action),
        pre.state is Finished,
    ensures
        action is Done,
        post.state is Finished,
{
}

/// How many workers currently hold a live forwarding child — the number of
/// wake-ups the cancellation broadcaster owes, one per active worker.
pub open spec fn spec_active_count(workers: Seq<ForwardWorker>) -> int
    decreases workers.len(),
{
    if workers.len() == 0 {
        0
    } else {
        spec_active_count(workers.drop_last()) + (if workers.last().state is Forwarding {
            1int
        } else {
            0int
        })
    }
}

/// Counts the workers whose forwarding child is live.
pub fn active_forward_count(workers: &Vec<ForwardWorker>) -> (r: usize)
    ensures
        r == spec_active_count(workers@),
{
    let mut count: usize = 0;
    let mut i: usize = 0;
    proof {
        assert(workers@.take(0) =~= Seq::<ForwardWorker>::empty());
    }
    while i < workers.len()
        invariant
            i <= workers@.len(),
            count <= i,
            count == spec_active_count(workers@.take(i as int)),
        decreases workers@.len() - i,
    {
        proof {
            assert(workers@.take(i as int + 1).drop_last() =~= workers@.take(i as int));
            assert(workers@.take(i as int + 1).last() == workers@[i as int]);
        }
        match &workers[i].state {
            WorkerState::Forwarding { .. } => {
                count = count + 1;
            },
            _ => {},
        }
        i = i + 1;
    }
    proof {
        assert(workers@.take(workers@.len() as int) =~= workers@);
    }
    count
}

} // verus!
