//! The resource selections that a dump can be asked for.
use vstd::prelude::*;

verus! {

/// Options of a whole-system dump.
#[derive(Clone, Copy, Debug, PartialEq, Eq, Structural)]
pub struct SystemDumpArgs {
    /// Set this to leave logs out of the dump.
    pub disable_log_collection: bool,
}

/// Resources on which a dump can be performed.
#[derive(Debug)]
pub enum Resource {
    /// The entire system: every state category, and logs unless disabled.
    System(SystemDumpArgs),
    /// All volumes and their descendants (replicas, pools, nodes).
    Volumes,
    /// One volume, named by its identifier in textual form, and its descendants.
    Volume { id: String },
    /// All pools and their descendants (nodes).
    Pools,
    /// One pool and its descendants.
    Pool { id: String },
    /// All nodes.
    Nodes,
    /// One node.
    Node { id: String },
    /// The coordination store; `stdout` streams it instead of archiving it.
    Etcd { stdout: bool },
    /// Logs of the product's components, from the log backend.
    Loki,
}

/// The kinds of resource whose dump is scoped by a topology.
#[derive(Clone, Copy, Debug, PartialEq, Eq, Structural)]
pub enum Category {
    Volume,
    Pool,
    Node,
}

/// The text naming a category's section in the bundle.
pub open spec fn category_label(c: Category) -> Seq<char> {
    match c {
        Category::Volume => "topology/volume"@,
        Category::Pool => "topology/pool"@,
        Category::Node => "topology/node"@,
    }
}

impl Category {
    /// The section label under which the category's artifacts are written.
    pub fn label(&self) -> (r: &'static str)
        ensures
            r@ == category_label(*self),
    {
        proof {
            reveal_strlit("topology/volume");
            reveal_strlit("topology/pool");
            reveal_strlit("topology/node");
        }
        match self {
            Category::Volume => "topology/volume",
            Category::Pool => "topology/pool",
            Category::Node => "topology/node",
        }
    }
}

/// Where the collected content of a dump goes.
#[derive(Clone, Copy, Debug, PartialEq, Eq, Structural)]
pub enum OutputFormat {
    /// An archive file under the output directory.
    Tar,
    /// Straight to standard output, with no archive.
    Stdout,
}

} // verus!
