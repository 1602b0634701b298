//! The resource-dump orchestrator: a state machine that turns a resource
//! selection, and the outcome of each step handed back by the caller, into
//! the next step to perform and, at the end, one verdict.
//!
//! The caller performs each `Action` (topology resolution, a collection, the
//! archiving step) and hands its outcome to `Dump::step`, until `Finish`.
use vstd::prelude::*;
use crate::errors::{
    DumpError, DumpErrorModel, ErrorList, Failure, result_view, verdict_of,
};
use crate::operations::{Category, OutputFormat, Resource, SystemDumpArgs};

verus! {

/// How a selection is dumped: what is collected, and under which policy.
#[derive(Clone, Copy, Debug, PartialEq, Eq, Structural)]
pub enum DumpKind {
    /// Every state category, and logs unless disabled; always archived.
    System { disable_log_collection: bool },
    /// One category scoped by a topology that must resolve; always archived.
    Scoped(Category),
    /// The coordination store; archived unless streamed.
    CoordinationStore { output_format: OutputFormat },
    /// Logs only, with a topology when one resolves; always archived.
    Logs,
}

/// The phase a dump is in.
#[derive(Clone, Copy, Debug, PartialEq, Eq, Structural)]
pub enum Stage {
    Topology,
    Collect,
    Archive,
    Done,
}

/// The next thing the caller is to do for a dump.
#[derive(Debug)]
pub enum Action {
    /// Resolve the topology of a category, rooted at `id`, or of the whole
    /// fleet when `id` is `None`.
    ResolveTopology { category: Category, id: Option<String> },
    /// Collect one category, scoped by the topology just resolved.
    CollectCategory { category: Category },
    /// Collect every state category, and logs unless disabled.
    CollectSystem { disable_log_collection: bool },
    /// Collect logs, filtered by the topology when `with_topology` holds.
    CollectLogs { with_topology: bool },
    /// Collect the coordination store into the given output.
    CollectEtcd { output_format: OutputFormat },
    /// Produce the archive from the working area, then reclaim the area.
    Archive,
    /// Nothing is left to do: the verdict is ready.
    Finish,
}

/// How a selection is dumped.
pub open spec fn kind_of(r: Resource) -> DumpKind {
    match r {
        Resource::System(args) => DumpKind::System {
            disable_log_collection: args.disable_log_collection,
        },
        Resource::Volumes | Resource::Volume { .. } => DumpKind::Scoped(Category::Volume),
        Resource::Pools | Resource::Pool { .. } => DumpKind::Scoped(Category::Pool),
        Resource::Nodes | Resource::Node { .. } => DumpKind::Scoped(Category::Node),
        Resource::Etcd { stdout } => DumpKind::CoordinationStore {
            output_format: if stdout { OutputFormat::Stdout } else { OutputFormat::Tar },
        },
        Resource::Loki => DumpKind::Logs,
    }
}

/// The identifier a selection names, if any.
pub open spec fn scope_id(r: Resource) -> Option<String> {
    match r {
        Resource::Volume { id } => Some(id),
        Resource::Pool { id } => Some(id),
        Resource::Node { id } => Some(id),
        _ => None,
    }
}

/// Whether a dump of this kind starts by resolving a topology.
pub open spec fn needs_topology(k: DumpKind) -> bool {
    k is Scoped || k is Logs
}

/// Whether a dump of this kind streams its content and skips archiving.
pub open spec fn streams(k: DumpKind) -> bool {
    k == (DumpKind::CoordinationStore { output_format: OutputFormat::Stdout })
}

/// The collection performed for a kind (for logs, without a topology).
pub open spec fn collect_action(k: DumpKind) -> Action {
    match k {
        DumpKind::System { disable_log_collection } => Action::CollectSystem {
            disable_log_collection,
        },
        DumpKind::Scoped(c) => Action::CollectCategory { category: c },
        DumpKind::CoordinationStore { output_format } => Action::CollectEtcd { output_format },
        DumpKind::Logs => Action::CollectLogs { with_topology: false },
    }
}

/// The first action of a dump of the selection.
pub open spec fn first_action(r: Resource) -> Action {
    match kind_of(r) {
        DumpKind::Scoped(c) => Action::ResolveTopology { category: c, id: scope_id(r) },
        DumpKind::Logs => Action::ResolveTopology { category: Category::Node, id: None },
        k => collect_action(k),
    }
}

/// What a dump in progress stands for.
pub struct DumpModel {
    pub kind: DumpKind,
    pub stage: Stage,
    /// The failures recorded so far, in the order met.
    pub errors: Seq<Failure>,
    /// The failure that stopped the dump before collection, if any.
    pub fatal: Option<Failure>,
}

/// The states a dump can reach: only a dump that needs a topology waits for
/// one, with nothing recorded yet, and only a scoped dump stops on a fatal
/// failure, with nothing recorded.
pub open spec fn well_formed(m: DumpModel) -> bool {
    &&& m.stage == Stage::Topology ==> needs_topology(m.kind) && m.errors.len() == 0
        && m.fatal is None
    &&& m.fatal is Some ==> m.stage == Stage::Done && m.kind is Scoped && m.errors.len() == 0
}

/// A dump of a given kind before its first action has run.
pub open spec fn start_model(k: DumpKind) -> DumpModel {
    DumpModel {
        kind: k,
        stage: if needs_topology(k) { Stage::Topology } else { Stage::Collect },
        errors: Seq::empty(),
        fatal: None,
    }
}

/// The failures after a step's outcome is recorded.
pub open spec fn recorded(errors: Seq<Failure>, outcome: Result<(), Failure>) -> Seq<Failure> {
    match outcome {
        Ok(()) => errors,
        Err(f) => errors.push(f),
    }
}

/// The policy of the orchestrator: the state after a step's outcome, and the
/// next action.  A failed topology is fatal to a scoped dump and swallowed by
/// a log dump; a failed collection or archiving step is recorded and the dump
/// goes on; archiving follows every collection unless the content streams.
pub open spec fn step_model(m: DumpModel, outcome: Result<(), Failure>) -> (DumpModel, Action) {
    match m.stage {
        Stage::Topology => match m.kind {
            DumpKind::Scoped(c) => match outcome {
                Err(f) => (
                    DumpModel { stage: Stage::Done, fatal: Some(f), ..m },
                    Action::Finish,
                ),
                Ok(()) => (
                    DumpModel { stage: Stage::Collect, ..m },
                    Action::CollectCategory { category: c },
                ),
            },
            DumpKind::Logs => (
                DumpModel { stage: Stage::Collect, ..m },
                Action::CollectLogs { with_topology: outcome is Ok },
            ),
            k => (DumpModel { stage: Stage::Collect, ..m }, collect_action(k)),
        },
        Stage::Collect => if streams(m.kind) {
            (
                DumpModel { stage: Stage::Done, errors: recorded(m.errors, outcome), ..m },
                Action::Finish,
            )
        } else {
            (
                DumpModel { stage: Stage::Archive, errors: recorded(m.errors, outcome), ..m },
                Action::Archive,
            )
        },
        Stage::Archive => (
            DumpModel { stage: Stage::Done, errors: recorded(m.errors, outcome), ..m },
            Action::Finish,
        ),
        Stage::Done => (m, Action::Finish),
    }
}

/// The verdict of a dump: the fatal failure alone when there is one, else
/// success or the composite of what was recorded.
pub open spec fn verdict_model(m: DumpModel) -> Result<(), DumpErrorModel> {
    match m.fatal {
        Some(f) => Err(DumpErrorModel::Failed(f)),
        None => verdict_of(m.errors),
    }
}

/// The state after a sequence of outcomes, and the actions asked for on the way.
pub open spec fn run(m: DumpModel, outcomes: Seq<Result<(), Failure>>) -> (DumpModel, Seq<Action>)
    decreases outcomes.len(),
{
    if outcomes.len() == 0 {
        (m, Seq::empty())
    } else {
        let next = step_model(m, outcomes[0]);
        let rest = run(next.0, outcomes.drop_first());
        (rest.0, seq![next.1] + rest.1)
    }
}

/// A dump in progress.
pub struct Dump {
    kind: DumpKind,
    stage: Stage,
    errors: ErrorList,
    fatal: Option<Failure>,
}

impl View for Dump {
    type V = DumpModel;

    closed spec fn view(&self) -> DumpModel {
        DumpModel { kind: self.kind, stage: self.stage, errors: self.errors@, fatal: self.fatal }
    }
}

impl Dump {
    /// Begins a dump of the selection; returns it with its first action.
    pub fn start(resource: Resource) -> (r: (Dump, Action))
        ensures
            r.0@ == start_model(kind_of(resource)),
            well_formed(r.0@),
            r.1 == first_action(resource),
    {
        let (kind, action) = match resource {
            Resource::System(args) => {
                let d = args.disable_log_collection;
                (
                    DumpKind::System { disable_log_collection: d },
                    Action::CollectSystem { disable_log_collection: d },
                )
            },
            Resource::Volumes => (
                DumpKind::Scoped(Category::Volume),
                Action::ResolveTopology { category: Category::Volume, id: None },
            ),
            Resource::Volume { id } => (
                DumpKind::Scoped(Category::Volume),
                Action::ResolveTopology { category: Category::Volume, id: Some(id) },
            ),
            Resource::Pools => (
                DumpKind::Scoped(Category::Pool),
                Action::ResolveTopology { category: Category::Pool, id: None },
            ),
            Resource::Pool { id } => (
                DumpKind::Scoped(Category::Pool),
                Action::ResolveTopology { category: Category::Pool, id: Some(id) },
            ),
            Resource::Nodes => (
                DumpKind::Scoped(Category::Node),
                Action::ResolveTopology { category: Category::Node, id: None },
            ),
            Resource::Node { id } => (
                DumpKind::Scoped(Category::Node),
                Action::ResolveTopology { category: Category::Node, id: Some(id) },
            ),
            Resource::Etcd { stdout } => {
                let output_format = if stdout {
                    OutputFormat::Stdout
                } else {
                    OutputFormat::Tar
                };
                (DumpKind::CoordinationStore { output_format }, Action::CollectEtcd { output_format })
            },
            Resource::Loki => (
                DumpKind::Logs,
                Action::ResolveTopology { category: Category::Node, id: None },
            ),
        };
        let stage = match kind {
            DumpKind::Scoped(_) | DumpKind::Logs => Stage::Topology,
            _ => Stage::Collect,
        };
        (Dump { kind, stage, errors: ErrorList::new(), fatal: None }, action)
    }

    pub fn kind(&self) -> (r: DumpKind)
        ensures
            r == self@.kind,
    {
        self.kind
    }

    pub fn stage(&self) -> (r: Stage)
        ensures
            r == self@.stage,
    {
        self.stage
    }

    /// Takes the outcome of the last action; returns the next one.
    pub fn step(&mut self, outcome: Result<(), Failure>) -> (r: Action)
        requires
            well_formed(old(self)@),
        ensures
            (final(self)@, r) == step_model(old(self)@, outcome),
            well_formed(final(self)@),
    {
        match self.stage {
            Stage::Topology => match self.kind {
                DumpKind::Scoped(c) => match outcome {
                    Err(f) => {
                        self.stage = Stage::Done;
                        self.fatal = Some(f);
                        Action::Finish
                    },
                    Ok(()) => {
                        self.stage = Stage::Collect;
                        Action::CollectCategory { category: c }
                    },
                },
                DumpKind::Logs => {
                    self.stage = Stage::Collect;
                    Action::CollectLogs { with_topology: outcome.is_ok() }
                },
                DumpKind::System { disable_log_collection } => {
                    self.stage = Stage::Collect;
                    Action::CollectSystem { disable_log_collection }
                },
                DumpKind::CoordinationStore { output_format } => {
                    self.stage = Stage::Collect;
                    Action::CollectEtcd { output_format }
                },
            },
            Stage::Collect => {
                self.record(outcome);
                if self.kind == (DumpKind::CoordinationStore { output_format: OutputFormat::Stdout }) {
                    self.stage = Stage::Done;
                    Action::Finish
                } else {
                    self.stage = Stage::Archive;
                    Action::Archive
                }
            },
            Stage::Archive => {
                self.record(outcome);
                self.stage = Stage::Done;
                Action::Finish
            },
            Stage::Done => Action::Finish,
        }
    }

    fn record(&mut self, outcome: Result<(), Failure>)
        ensures
            final(self)@ == (DumpModel { errors: recorded(old(self)@.errors, outcome), ..old(self)@ }),
    {
        if let Err(f) = outcome {
            self.errors.record(f);
        }
    }

    pub fn is_done(&self) -> (r: bool)
        ensures
            r == (self@.stage == Stage::Done),
    {
        self.stage == Stage::Done
    }

    /// The verdict for what has happened so far; asking again gives the same.
    pub fn verdict(&self) -> (r: Result<(), DumpError>)
        ensures
            result_view(r) == verdict_model(self@),
    {
        match &self.fatal {
            Some(f) => Err(DumpError::Failed(f.duplicate())),
            None => self.errors.finalize(),
        }
    }
}

/// One step of `run`, unfolded.
proof fn lemma_run_step(m: DumpModel, outcomes: Seq<Result<(), Failure>>)
    requires
        outcomes.len() > 0,
    ensures
        run(m, outcomes).0 == run(step_model(m, outcomes[0]).0, outcomes.drop_first()).0,
        run(m, outcomes).1 == seq![step_model(m, outcomes[0]).1] + run(
            step_model(m, outcomes[0]).0,
            outcomes.drop_first(),
        ).1,
{
}

/// Once a dump is done, every further outcome leaves it as it is and asks
/// for nothing but `Finish`.
pub proof fn lemma_done_is_final(m: DumpModel, outcomes: Seq<Result<(), Failure>>)
    requires
        m.stage == Stage::Done,
    ensures
        run(m, outcomes).0 == m,
        forall|i: int| 0 <= i < outcomes.len() ==> #[trigger] run(m, outcomes).1[i] == Action::Finish,
        run(m, outcomes).1.len() == outcomes.len(),
    decreases outcomes.len(),
{
    if outcomes.len() > 0 {
        lemma_done_is_final(m, outcomes.drop_first());
    }
}

/// For a dump scoped by a volume, pool or node topology (one or all), a
/// failed resolution ends the dump: no collection or archiving is asked for
/// afterwards, and the verdict is exactly that failure.
pub proof fn lemma_topology_failure_is_fatal(
    resource: Resource,
    failure: Failure,
    later: Seq<Result<(), Failure>>,
)
    requires
        kind_of(resource) is Scoped,
    ensures
        first_action(resource) is ResolveTopology,
        ({
            let r = run(start_model(kind_of(resource)), seq![Err(failure)] + later);
            &&& forall|i: int| 0 <= i < r.1.len() ==> #[trigger] r.1[i] == Action::Finish
            &&& verdict_model(r.0) == Err::<(), DumpErrorModel>(DumpErrorModel::Failed(failure))
        }),
{
    let outcomes = seq![Err(failure)] + later;
    let m = start_model(kind_of(resource));
    assert(outcomes.drop_first() == later);
    let next = step_model(m, outcomes[0]);
    lemma_done_is_final(next.0, later);
}

/// A whole-system dump whose collection fails and whose archiving succeeds
/// archives anyway and fails with a composite holding that one failure.
pub proof fn lemma_system_collection_failure(disable_log_collection: bool, failure: Failure)
    ensures
        ({
            let k = DumpKind::System { disable_log_collection };
            let r = run(start_model(k), seq![Err(failure), Ok(())]);
            &&& r.1 == seq![Action::Archive, Action::Finish]
            &&& verdict_model(r.0) == Err::<(), DumpErrorModel>(
                DumpErrorModel::MultipleErrors(seq![failure]),
            )
        }),
{
    let k = DumpKind::System { disable_log_collection };
    let m0 = start_model(k);
    let o = seq![Err::<(), Failure>(failure), Ok(())];
    let m1 = step_model(m0, o[0]).0;
    let m2 = step_model(m1, o[1]).0;
    lemma_run_step(m0, o);
    lemma_run_step(m1, o.drop_first());
    assert(o.drop_first().drop_first() =~= Seq::<Result<(), Failure>>::empty());
    assert(m2.errors =~= seq![failure]);
    assert(run(m0, o).1 =~= seq![Action::Archive, Action::Finish]);
}

/// The outcomes that take a dump of this kind through topology resolution
/// successfully, if it has one.
pub open spec fn resolved_prefix(k: DumpKind) -> Seq<Result<(), Failure>> {
    if needs_topology(k) {
        seq![Ok(())]
    } else {
        Seq::empty()
    }
}

/// When both the collection and the archiving step of a dump fail, the
/// verdict is a composite of the two failures, collection's first.
pub proof fn lemma_both_phases_fail(resource: Resource, collection: Failure, archiving: Failure)
    requires
        !streams(kind_of(resource)),
    ensures
        ({
            let k = kind_of(resource);
            let r = run(start_model(k), resolved_prefix(k) + seq![Err(collection), Err(archiving)]);
            verdict_model(r.0) == Err::<(), DumpErrorModel>(
                DumpErrorModel::MultipleErrors(seq![collection, archiving]),
            )
        }),
{
    let k = kind_of(resource);
    let tail = seq![Err::<(), Failure>(collection), Err(archiving)];
    let outcomes = resolved_prefix(k) + tail;
    let m0 = start_model(k);
    let m1 = if needs_topology(k) { step_model(m0, outcomes[0]).0 } else { m0 };
    if needs_topology(k) {
        lemma_run_step(m0, outcomes);
        assert(outcomes.drop_first() =~= tail);
    } else {
        assert(outcomes =~= tail);
    }
    assert(m1.stage == Stage::Collect && m1.errors.len() == 0 && m1.fatal is None);
    let m2 = step_model(m1, tail[0]).0;
    let m3 = step_model(m2, tail[1]).0;
    lemma_run_step(m1, tail);
    lemma_run_step(m2, tail.drop_first());
    assert(tail.drop_first().drop_first() =~= Seq::<Result<(), Failure>>::empty());
    assert(m3.errors =~= seq![collection, archiving]);
}

/// A log dump whose topology does not resolve still collects logs, without
/// a topology filter, and succeeds when collection and archiving do.
pub proof fn lemma_logs_survive_topology_failure(failure: Failure)
    ensures
        first_action(Resource::Loki) is ResolveTopology,
        ({
            let r = run(start_model(DumpKind::Logs), seq![Err(failure), Ok(()), Ok(())]);
            &&& r.1 == seq![
                Action::CollectLogs { with_topology: false },
                Action::Archive,
                Action::Finish,
            ]
            &&& verdict_model(r.0) == Ok::<(), DumpErrorModel>(())
        }),
{
    let o = seq![Err::<(), Failure>(failure), Ok(()), Ok(())];
    let m0 = start_model(DumpKind::Logs);
    let m1 = step_model(m0, o[0]).0;
    let m2 = step_model(m1, o[1]).0;
    lemma_run_step(m0, o);
    lemma_run_step(m1, o.drop_first());
    lemma_run_step(m2, o.drop_first().drop_first());
    assert(o.drop_first().drop_first().drop_first() =~= Seq::<Result<(), Failure>>::empty());
    assert(run(m0, o).1 =~= seq![
        Action::CollectLogs { with_topology: false },
        Action::Archive,
        Action::Finish,
    ]);
}

/// A dump whose content streams never asks for the archiving step, whatever
/// the outcomes.
pub proof fn lemma_streamed_never_archives(m: DumpModel, outcomes: Seq<Result<(), Failure>>)
    requires
        streams(m.kind),
    ensures
        forall|i: int| 0 <= i < run(m, outcomes).1.len() ==> !(#[trigger] run(m, outcomes).1[i] is Archive),
    decreases outcomes.len(),
{
    if outcomes.len() > 0 {
        let next = step_model(m, outcomes[0]);
        lemma_streamed_never_archives(next.0, outcomes.drop_first());
        let r = run(m, outcomes);
        assert forall|i: int| 0 <= i < r.1.len() implies !(#[trigger] r.1[i] is Archive) by {
            if i > 0 {
                assert(r.1[i] == run(next.0, outcomes.drop_first()).1[i - 1]);
            }
        }
    }
}

/// A dump of the coordination store to standard output never archives; one
/// to an archive file asks for the archiving step once collection is over.
pub proof fn lemma_store_archives_unless_streamed(
    outcomes: Seq<Result<(), Failure>>,
    collected: Result<(), Failure>,
)
    ensures
        !(first_action(Resource::Etcd { stdout: true }) is Archive),
        forall|i: int|
            0 <= i < run(start_model(kind_of(Resource::Etcd { stdout: true })), outcomes).1.len()
                ==> !(#[trigger] run(start_model(kind_of(Resource::Etcd { stdout: true })), outcomes).1[i] is Archive),
        run(start_model(kind_of(Resource::Etcd { stdout: false })), seq![collected]).1
            == seq![Action::Archive],
{
    lemma_streamed_never_archives(start_model(kind_of(Resource::Etcd { stdout: true })), outcomes);
    let s = seq![collected];
    lemma_run_step(start_model(kind_of(Resource::Etcd { stdout: false })), s);
    assert(s.drop_first() =~= Seq::<Result<(), Failure>>::empty());
    assert(run(start_model(kind_of(Resource::Etcd { stdout: false })), s).1 =~= seq![Action::Archive]);
}

/// A whole-system dump never asks for a separate log collection, and with
/// log collection disabled, its one collection leaves logs out.
pub proof fn lemma_system_collects_no_separate_logs(m: DumpModel, outcomes: Seq<Result<(), Failure>>)
    requires
        m.kind is System,
    ensures
        forall|i: int| 0 <= i < run(m, outcomes).1.len() ==> !(#[trigger] run(m, outcomes).1[i] is CollectLogs),
        forall|i: int|
            0 <= i < run(m, outcomes).1.len() && #[trigger] run(m, outcomes).1[i] is CollectSystem
                ==> run(m, outcomes).1[i] == (Action::CollectSystem {
                    disable_log_collection: m.kind->disable_log_collection,
                }),
    decreases outcomes.len(),
{
    if outcomes.len() > 0 {
        let next = step_model(m, outcomes[0]);
        lemma_system_collects_no_separate_logs(next.0, outcomes.drop_first());
        let r = run(m, outcomes);
        assert forall|i: int| 0 <= i < r.1.len() implies !(#[trigger] r.1[i] is CollectLogs) by {
            if i > 0 {
                assert(r.1[i] == run(next.0, outcomes.drop_first()).1[i - 1]);
            }
        }
        assert forall|i: int| 0 <= i < r.1.len() && #[trigger] r.1[i] is CollectSystem implies r.1[i]
            == (Action::CollectSystem { disable_log_collection: m.kind->disable_log_collection }) by {
            if i > 0 {
                assert(r.1[i] == run(next.0, outcomes.drop_first()).1[i - 1]);
            }
        }
    }
}

/// A whole-system dump with log collection disabled starts with a collection
/// that leaves logs out, and never asks for logs afterwards.
pub proof fn lemma_system_without_logs(outcomes: Seq<Result<(), Failure>>)
    ensures
        ({
            let resource = Resource::System(SystemDumpArgs { disable_log_collection: true });
            let r = run(start_model(kind_of(resource)), outcomes);
            &&& first_action(resource) == (Action::CollectSystem { disable_log_collection: true })
            &&& forall|i: int| 0 <= i < r.1.len() ==> !(#[trigger] r.1[i] is CollectLogs)
            &&& forall|i: int| 0 <= i < r.1.len() && #[trigger] r.1[i] is CollectSystem
                ==> r.1[i] == (Action::CollectSystem { disable_log_collection: true })
        }),
{
    let resource = Resource::System(SystemDumpArgs { disable_log_collection: true });
    lemma_system_collects_no_separate_logs(start_model(kind_of(resource)), outcomes);
}

} // verus!
