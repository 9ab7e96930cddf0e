//! What a handler asks of its caller: to send a reply as it stands, or to
//! make one call to the platform's trash facility first.

use vstd::prelude::*;

verus! {

/// What is to be done for a single-path request.
#[derive(Debug, PartialEq, Eq)]
pub enum FileStep {
    /// Answer with this text; the trash facility is not called.
    Reply(String),
    /// Move the entry at this path to the trash.
    Delete(String),
}

/// A [`FileStep`] with its texts as sequences of characters.
pub enum FileStepView {
    Reply(Seq<char>),
    Delete(Seq<char>),
}

impl View for FileStep {
    type V = FileStepView;

    open spec fn view(&self) -> FileStepView {
        match self {
            FileStep::Reply(text) => FileStepView::Reply(text@),
            FileStep::Delete(path) => FileStepView::Delete(path@),
        }
    }
}

/// The one call that a batch request makes, and what to remember for the
/// reply.
#[derive(Debug, PartialEq, Eq)]
pub struct BatchPlan {
    /// The paths to submit together, in request order.
    pub existing: Vec<String>,
    /// The paths left out because they were not found, in request order.
    pub missing: Vec<String>,
}

/// A [`BatchPlan`] with its paths as sequences of characters.
pub struct BatchPlanView {
    pub existing: Seq<Seq<char>>,
    pub missing: Seq<Seq<char>>,
}

impl View for BatchPlan {
    type V = BatchPlanView;

    open spec fn view(&self) -> BatchPlanView {
        BatchPlanView { existing: self.existing.deep_view(), missing: self.missing.deep_view() }
    }
}

/// What is to be done for a batch request.
#[derive(Debug, PartialEq, Eq)]
pub enum BatchStep {
    /// Answer with this text; the trash facility is not called.
    Reply(String),
    /// Move all of `existing` to the trash in one call.
    DeleteAll(BatchPlan),
}

/// A [`BatchStep`] with its texts as sequences of characters.
pub enum BatchStepView {
    Reply(Seq<char>),
    DeleteAll(BatchPlanView),
}

impl View for BatchStep {
    type V = BatchStepView;

    open spec fn view(&self) -> BatchStepView {
        match self {
            BatchStep::Reply(text) => BatchStepView::Reply(text@),
            BatchStep::DeleteAll(plan) => BatchStepView::DeleteAll(plan@),
        }
    }
}

/// What is to be done for a listing request.
#[derive(Debug, PartialEq, Eq)]
pub enum ListStep {
    /// Answer with this text; the trash facility is not called.
    Reply(String),
    /// Ask the trash facility for its contents.
    List,
}

/// A [`ListStep`] with its text as a sequence of characters.
pub enum ListStepView {
    Reply(Seq<char>),
    List,
}

impl View for ListStep {
    type V = ListStepView;

    open spec fn view(&self) -> ListStepView {
        match self {
            ListStep::Reply(text) => ListStepView::Reply(text@),
            ListStep::List => ListStepView::List,
        }
    }
}

} // verus!
