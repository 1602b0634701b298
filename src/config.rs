//! The settings of a dump, and the configuration shared by its collaborators.
use vstd::prelude::*;
use core::time::Duration;
use crate::dump::{Action, Dump, DumpKind, first_action, kind_of, start_model, well_formed};
use crate::operations::{OutputFormat, Resource};

verus! {

/// Settings that every dump command accepts.
#[derive(Debug)]
pub struct SupportArgs {
    /// Bound on each interaction with the other parts of the system.
    pub timeout: Duration,
    /// Logs are collected from this far back.
    pub since: Duration,
    /// Endpoint of the log backend; found from the cluster when absent.
    pub loki_endpoint: Option<String>,
    /// Endpoint of the coordination store; found from the cluster when absent.
    pub etcd_endpoint: Option<String>,
    /// Directory where the archive file is written.
    pub output_directory_path: String,
    /// Namespace of the storage services.
    pub namespace: String,
    /// Path to a kubeconfig file.
    pub kube_config_path: Option<String>,
}

/// A dump command: its settings and the resource selected.
#[derive(Debug)]
pub struct DumpArgs {
    pub args: SupportArgs,
    pub resource: Resource,
}

/// The configuration handed to every collaborator of one dump.
#[derive(Debug)]
pub struct DumpConfig {
    pub output_directory: String,
    pub namespace: String,
    pub loki_uri: Option<String>,
    pub etcd_uri: Option<String>,
    pub since: Duration,
    pub kube_config_path: Option<String>,
    pub timeout: Duration,
    pub output_format: OutputFormat,
}

/// The configuration built from the settings, before any selection applies.
pub open spec fn config_of(args: SupportArgs) -> DumpConfig {
    DumpConfig {
        output_directory: args.output_directory_path,
        namespace: args.namespace,
        loki_uri: args.loki_endpoint,
        etcd_uri: args.etcd_endpoint,
        since: args.since,
        kube_config_path: args.kube_config_path,
        timeout: args.timeout,
        output_format: OutputFormat::Tar,
    }
}

/// Where the content of a dump of this kind goes.
pub open spec fn output_of(k: DumpKind) -> OutputFormat {
    match k {
        DumpKind::CoordinationStore { output_format } => output_format,
        _ => OutputFormat::Tar,
    }
}

impl DumpConfig {
    /// The configuration for the settings, writing an archive file.
    pub fn new(args: SupportArgs) -> (r: DumpConfig)
        ensures
            r == config_of(args),
    {
        DumpConfig {
            output_directory: args.output_directory_path,
            namespace: args.namespace,
            loki_uri: args.loki_endpoint,
            etcd_uri: args.etcd_endpoint,
            since: args.since,
            kube_config_path: args.kube_config_path,
            timeout: args.timeout,
            output_format: OutputFormat::Tar,
        }
    }
}

impl DumpArgs {
    /// Begins the dump the command asks for: its configuration, the dump in
    /// progress and its first action.  Only the coordination store can be
    /// streamed; everything else goes to an archive file.
    pub fn start(self) -> (r: (DumpConfig, Dump, Action))
        ensures
            r.0 == (DumpConfig { output_format: output_of(kind_of(self.resource)), ..config_of(self.args) }),
            r.1@ == start_model(kind_of(self.resource)),
            well_formed(r.1@),
            r.2 == first_action(self.resource),
    {
        let mut config = DumpConfig::new(self.args);
        let (dump, action) = Dump::start(self.resource);
        if let DumpKind::CoordinationStore { output_format } = dump.kind() {
            config.output_format = output_format;
        }
        (config, dump, action)
    }
}

} // verus!
