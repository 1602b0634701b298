//! Failures met while dumping, and their aggregation into one verdict.
use vstd::prelude::*;

verus! {

/// The class of a single failure met by one step of a dump.
#[derive(Clone, Copy, Debug, PartialEq, Eq, Structural)]
pub enum FailureKind {
    /// A named resource does not exist in the cluster.
    NotFound,
    /// The control plane, the coordination store or the log backend could
    /// not be reached within the interaction timeout.
    Connectivity,
    /// A category's artifacts could not be written, or only in part.
    PartialCollection,
    /// The archive could not be produced, or the working area not reclaimed.
    Archival,
}

/// One failure, with the description that a collaborator gave of it.
#[derive(Debug)]
pub struct Failure {
    pub kind: FailureKind,
    pub message: String,
}

impl Failure {
    pub fn new(kind: FailureKind, message: String) -> (r: Failure)
        ensures
            r.kind == kind,
            r.message == message,
    {
        Failure { kind, message }
    }

    /// A copy of this failure, equal to it in every field.
    pub fn duplicate(&self) -> (r: Failure)
        ensures
            r == *self,
    {
        Failure { kind: self.kind, message: self.message.clone() }
    }
}

/// The single error that a dump hands back to its caller.
#[derive(Debug)]
pub enum DumpError {
    /// A failure that stopped the dump before anything was collected.
    Failed(Failure),
    /// The failures recorded over the phases of a dump, in the order met.
    MultipleErrors(Vec<Failure>),
}

/// What a `DumpError` states, with the failure list seen as a sequence.
pub enum DumpErrorModel {
    Failed(Failure),
    MultipleErrors(Seq<Failure>),
}

impl View for DumpError {
    type V = DumpErrorModel;

    open spec fn view(&self) -> DumpErrorModel {
        match self {
            DumpError::Failed(f) => DumpErrorModel::Failed(*f),
            DumpError::MultipleErrors(v) => DumpErrorModel::MultipleErrors(v@),
        }
    }
}

/// The model of a dump's result.
pub open spec fn result_view(r: Result<(), DumpError>) -> Result<(), DumpErrorModel> {
    match r {
        Ok(()) => Ok(()),
        Err(e) => Err(e@),
    }
}

/// The verdict owed for the failures recorded: success when there are none,
/// else a composite of all of them, in order.
pub open spec fn verdict_of(errors: Seq<Failure>) -> Result<(), DumpErrorModel> {
    if errors.len() == 0 {
        Ok(())
    } else {
        Err(DumpErrorModel::MultipleErrors(errors))
    }
}

/// An ordered list of the failures met by the phases of one dump.
pub struct ErrorList {
    errors: Vec<Failure>,
}

impl View for ErrorList {
    type V = Seq<Failure>;

    closed spec fn view(&self) -> Seq<Failure> {
        self.errors@
    }
}

impl ErrorList {
    pub fn new() -> (r: ErrorList)
        ensures
            r@ == Seq::<Failure>::empty(),
    {
        ErrorList { errors: Vec::new() }
    }

    /// Appends a failure; never rejects one.
    pub fn record(&mut self, failure: Failure)
        ensures
            final(self)@ == old(self)@.push(failure),
    {
        self.errors.push(failure);
    }

    pub fn is_empty(&self) -> (r: bool)
        ensures
            r == (self@.len() == 0),
    {
        self.errors.len() == 0
    }

    /// The verdict for what was recorded; the list itself is left as it is,
    /// so asking twice gives the same answer.
    pub fn finalize(&self) -> (r: Result<(), DumpError>)
        ensures
            result_view(r) == verdict_of(self@),
    {
        if self.errors.len() == 0 {
            return Ok(());
        }
        let mut copies: Vec<Failure> = Vec::new();
        let mut i: usize = 0;
        while i < self.errors.len()
            invariant
                i <= self.errors@.len(),
                copies@ == self.errors@.subrange(0, i as int),
            decreases self.errors@.len() - i,
        {
            copies.push(self.errors[i].duplicate());
            i = i + 1;
        }
        assert(copies@ == self.errors@);
        Err(DumpError::MultipleErrors(copies))
    }
}

} // verus!
