use supportability::dump::{Action, Dump, DumpKind, Stage};
use supportability::errors::{DumpError, Failure, FailureKind};
use supportability::operations::{Category, OutputFormat, Resource, SystemDumpArgs};

fn failure(kind: FailureKind, message: &str) -> Failure {
    Failure::new(kind, message.to_string())
}

/// Runs a dump, handing back the outcomes in turn; returns the first action,
/// the actions asked for afterwards, and the verdict.
fn drive(resource: Resource, outcomes: Vec<Result<(), Failure>>) -> (Action, Vec<Action>, Result<(), DumpError>) {
    let (mut dump, first) = Dump::start(resource);
    let mut actions = Vec::new();
    for outcome in outcomes {
        actions.push(dump.step(outcome));
    }
    let verdict = dump.verdict();
    (first, actions, verdict)
}

#[test]
fn missing_node_is_not_found_and_nothing_is_archived() {
    let (first, actions, verdict) = drive(
        Resource::Node { id: "n1".to_string() },
        vec![Err(failure(FailureKind::NotFound, "node n1 not found"))],
    );
    match first {
        Action::ResolveTopology { category, id } => {
            assert_eq!(category, Category::Node);
            assert_eq!(id, Some("n1".to_string()));
        }
        other => panic!("unexpected first action {other:?}"),
    }
    assert_eq!(actions.len(), 1);
    assert!(matches!(actions[0], Action::Finish));
    match verdict {
        Err(DumpError::Failed(f)) => {
            assert_eq!(f.kind, FailureKind::NotFound);
            assert_eq!(f.message, "node n1 not found");
        }
        other => panic!("unexpected verdict {other:?}"),
    }
}

#[test]
fn topology_failure_stops_every_scoped_dump() {
    let selections = vec![
        Resource::Volumes,
        Resource::Volume { id: "ec4e66fd-3b33-4439-b504-d49aba53da26".to_string() },
        Resource::Pools,
        Resource::Pool { id: "pool-1".to_string() },
        Resource::Nodes,
        Resource::Node { id: "node-1".to_string() },
    ];
    for resource in selections {
        let (first, actions, verdict) = drive(
            resource,
            vec![Err(failure(FailureKind::Connectivity, "unreachable")), Ok(()), Ok(())],
        );
        assert!(matches!(first, Action::ResolveTopology { .. }));
        assert!(actions.iter().all(|a| matches!(a, Action::Finish)));
        assert!(matches!(verdict, Err(DumpError::Failed(ref f)) if f.kind == FailureKind::Connectivity));
    }
}

#[test]
fn empty_volume_set_still_archives_and_succeeds() {
    let (first, actions, verdict) = drive(Resource::Volumes, vec![Ok(()), Ok(()), Ok(())]);
    assert!(matches!(first, Action::ResolveTopology { category: Category::Volume, id: None }));
    assert!(matches!(actions[0], Action::CollectCategory { category: Category::Volume }));
    assert!(matches!(actions[1], Action::Archive));
    assert!(matches!(actions[2], Action::Finish));
    assert!(verdict.is_ok());
}

#[test]
fn system_collection_failure_is_one_entry_composite() {
    let (first, actions, verdict) = drive(
        Resource::System(SystemDumpArgs { disable_log_collection: false }),
        vec![Err(failure(FailureKind::PartialCollection, "pods")), Ok(())],
    );
    assert!(matches!(first, Action::CollectSystem { disable_log_collection: false }));
    assert!(matches!(actions[0], Action::Archive));
    assert!(matches!(actions[1], Action::Finish));
    match verdict {
        Err(DumpError::MultipleErrors(v)) => {
            assert_eq!(v.len(), 1);
            assert_eq!(v[0].kind, FailureKind::PartialCollection);
            assert_eq!(v[0].message, "pods");
        }
        other => panic!("unexpected verdict {other:?}"),
    }
}

#[test]
fn both_phases_failing_keep_their_order() {
    let (_, actions, verdict) = drive(
        Resource::Pool { id: "pool-c".to_string() },
        vec![
            Ok(()),
            Err(failure(FailureKind::PartialCollection, "collect")),
            Err(failure(FailureKind::Archival, "archive")),
        ],
    );
    assert!(matches!(actions[0], Action::CollectCategory { category: Category::Pool }));
    assert!(matches!(actions[1], Action::Archive));
    assert!(matches!(actions[2], Action::Finish));
    match verdict {
        Err(DumpError::MultipleErrors(v)) => {
            assert_eq!(v.len(), 2);
            assert_eq!(v[0].message, "collect");
            assert_eq!(v[0].kind, FailureKind::PartialCollection);
            assert_eq!(v[1].message, "archive");
            assert_eq!(v[1].kind, FailureKind::Archival);
        }
        other => panic!("unexpected verdict {other:?}"),
    }
}

#[test]
fn logs_go_on_without_topology() {
    let (first, actions, verdict) = drive(
        Resource::Loki,
        vec![Err(failure(FailureKind::Connectivity, "no control plane")), Ok(()), Ok(())],
    );
    assert!(matches!(first, Action::ResolveTopology { category: Category::Node, id: None }));
    assert!(matches!(actions[0], Action::CollectLogs { with_topology: false }));
    assert!(matches!(actions[1], Action::Archive));
    assert!(matches!(actions[2], Action::Finish));
    assert!(verdict.is_ok());
}

#[test]
fn logs_use_topology_when_it_resolves() {
    let (_, actions, verdict) = drive(
        Resource::Loki,
        vec![Ok(()), Err(failure(FailureKind::Connectivity, "loki")), Ok(())],
    );
    assert!(matches!(actions[0], Action::CollectLogs { with_topology: true }));
    assert!(matches!(actions[1], Action::Archive));
    assert!(matches!(verdict, Err(DumpError::MultipleErrors(ref v)) if v.len() == 1));
}

#[test]
fn streamed_etcd_never_archives() {
    let (first, actions, verdict) = drive(Resource::Etcd { stdout: true }, vec![Ok(()), Ok(())]);
    assert!(matches!(first, Action::CollectEtcd { output_format: OutputFormat::Stdout }));
    assert!(actions.iter().all(|a| !matches!(a, Action::Archive)));
    assert!(verdict.is_ok());
}

#[test]
fn etcd_to_file_archives() {
    let (first, actions, verdict) = drive(
        Resource::Etcd { stdout: false },
        vec![Err(failure(FailureKind::Connectivity, "etcd")), Ok(())],
    );
    assert!(matches!(first, Action::CollectEtcd { output_format: OutputFormat::Tar }));
    assert!(matches!(actions[0], Action::Archive));
    assert!(matches!(actions[1], Action::Finish));
    assert!(matches!(verdict, Err(DumpError::MultipleErrors(ref v)) if v.len() == 1));
}

#[test]
fn system_without_logs_never_collects_logs() {
    let (first, actions, verdict) = drive(
        Resource::System(SystemDumpArgs { disable_log_collection: true }),
        vec![Ok(()), Ok(())],
    );
    assert!(matches!(first, Action::CollectSystem { disable_log_collection: true }));
    assert!(actions.iter().all(|a| !matches!(a, Action::CollectLogs { .. })));
    assert!(matches!(actions[0], Action::Archive));
    assert!(verdict.is_ok());
}

#[test]
fn same_selection_twice_gives_same_run() {
    let a = drive(Resource::Volume { id: "v".to_string() }, vec![Ok(()), Ok(()), Ok(())]);
    let b = drive(Resource::Volume { id: "v".to_string() }, vec![Ok(()), Ok(()), Ok(())]);
    assert_eq!(format!("{:?}", a), format!("{:?}", b));
}

#[test]
fn verdict_is_stable_and_done_is_final() {
    let (mut dump, _) = Dump::start(Resource::Nodes);
    assert_eq!(dump.stage(), Stage::Topology);
    assert_eq!(dump.kind(), DumpKind::Scoped(Category::Node));
    assert!(matches!(dump.step(Ok(())), Action::CollectCategory { category: Category::Node }));
    assert!(matches!(dump.step(Err(failure(FailureKind::PartialCollection, "x"))), Action::Archive));
    assert!(matches!(dump.step(Ok(())), Action::Finish));
    assert!(dump.is_done());
    assert!(matches!(dump.step(Err(failure(FailureKind::Archival, "late"))), Action::Finish));
    let first = format!("{:?}", dump.verdict());
    let second = format!("{:?}", dump.verdict());
    assert_eq!(first, second);
    assert!(matches!(dump.verdict(), Err(DumpError::MultipleErrors(ref v)) if v.len() == 1));
}

#[test]
fn category_labels() {
    assert_eq!(Category::Volume.label(), "topology/volume");
    assert_eq!(Category::Pool.label(), "topology/pool");
    assert_eq!(Category::Node.label(), "topology/node");
}
