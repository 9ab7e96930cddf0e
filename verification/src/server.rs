//! The three request handlers, each split where the outside world comes in.
//!
//! A handler is first told what was observed of its paths and answers with a
//! step: either the reply, in which case the trash facility is not to be
//! called at all, or the one call to make. Once that call has returned, the
//! matching `after_..` function turns its outcome into the reply. Every reply
//! is a text: a failure of the trash facility is told in words, never raised.

use crate::message::{
    batch_moved_message, delete_all_outcome_text, delete_outcome_text, instructions_text,
    list_failed_message, list_outcome_text, listing_unsupported_text, moved_message,
    no_valid_paths_text, path_missing_message, path_missing_text, trash_contents_message,
    trash_failed_message,
};
use crate::partition::{
    existing_paths, lemma_partition_accounts_for_all, missing_paths, partition_paths,
};
use crate::request::{TrashFileParams, TrashFilesParams};
use crate::step::{
    BatchPlan, BatchPlanView, BatchStep, BatchStepView, FileStep, FileStepView, ListStep,
    ListStepView,
};
use vstd::prelude::*;
use vstd::string::*;

verus! {

/// What the trash facility answered to a delete, its description of a failure
/// as a sequence of characters.
pub open spec fn delete_outcome_view(outcome: Result<(), String>) -> Result<(), Seq<char>> {
    match outcome {
        Ok(_) => Ok(()),
        Err(error) => Err(error@),
    }
}

/// What the trash facility answered to a listing, the names of its items and
/// its description of a failure as sequences of characters.
pub open spec fn list_outcome_view(outcome: Result<Vec<String>, String>) -> Result<
    Seq<Seq<char>>,
    Seq<char>,
> {
    match outcome {
        Ok(names) => Ok(names.deep_view()),
        Err(error) => Err(error@),
    }
}

/// The service: stateless but for what the platform can do, which is fixed
/// when the service is set up and not looked into again per request.
#[derive(Debug, PartialEq, Eq)]
pub struct TrashServer {
    /// Whether the platform's trash facility can list its contents.
    pub listing_supported: bool,
}

impl TrashServer {
    /// A service for a platform that can (`true`) or cannot list its trash.
    pub fn new(listing_supported: bool) -> (server: Self)
        ensures
            server.listing_supported == listing_supported,
    {
        TrashServer { listing_supported }
    }

    /// Handles a single-path request, given whether the path exists. A path
    /// that does not exist is answered at once, without a call; one that
    /// exists is handed to the trash as it was written.
    pub fn trash_file(&self, params: &TrashFileParams, exists: bool) -> (step: FileStep)
        ensures
            !exists ==> step@ == FileStepView::Reply(path_missing_text(params@)),
            exists ==> step@ == FileStepView::Delete(params@),
    {
        if !exists {
            FileStep::Reply(path_missing_message(params.path.as_str()))
        } else {
            FileStep::Delete(params.path.clone())
        }
    }

    /// The reply to a single-path request once the trash facility has answered
    /// the delete of `path`; a failure carries the facility's description.
    pub fn after_delete(&self, path: &str, outcome: &Result<(), String>) -> (text: String)
        ensures
            text@ == delete_outcome_text(path@, delete_outcome_view(*outcome)),
    {
        match outcome {
            Ok(_) => moved_message(path),
            Err(error) => trash_failed_message(error.as_str()),
        }
    }

    /// Handles a batch request, given for each position whether its path
    /// exists (`exists[i]` is about `params.paths[i]`). A batch in which no
    /// path exists is answered at once, without a call; otherwise exactly the
    /// existing paths are submitted, in request order, and every path of the
    /// request is either submitted or remembered as missing.
    pub fn trash_files(&self, params: &TrashFilesParams, exists: &Vec<bool>) -> (step: BatchStep)
        ensures
            existing_paths(params@, exists@).len() == 0 ==> step@ == BatchStepView::Reply(
                no_valid_paths_text(),
            ),
            existing_paths(params@, exists@).len() > 0 ==> step@ == BatchStepView::DeleteAll(
                (BatchPlanView {
                    existing: existing_paths(params@, exists@),
                    missing: missing_paths(params@, exists@),
                }),
            ),
            step@ matches BatchStepView::DeleteAll(plan) ==> plan.existing.len()
                + plan.missing.len() == params@.len(),
    {
        let (existing, missing) = partition_paths(&params.paths, exists);
        proof {
            lemma_partition_accounts_for_all(params@, exists@);
        }
        if existing.len() == 0 {
            BatchStep::Reply(String::from_str("No valid paths to trash"))
        } else {
            BatchStep::DeleteAll(BatchPlan { existing, missing })
        }
    }

    /// The reply to a batch request once the trash facility has answered the
    /// delete of `plan.existing`: on success the number of entries submitted
    /// and the paths skipped, on failure the facility's description alone.
    pub fn after_delete_all(&self, plan: &BatchPlan, outcome: &Result<(), String>) -> (text: String)
        ensures
            text@ == delete_all_outcome_text(
                plan@.existing.len(),
                plan@.missing,
                delete_outcome_view(*outcome),
            ),
    {
        match outcome {
            Ok(_) => batch_moved_message(plan.existing.len(), &plan.missing),
            Err(error) => trash_failed_message(error.as_str()),
        }
    }

    /// Handles a listing request. Where the platform cannot list, the answer
    /// is always the same text and the trash facility is not called.
    pub fn list_trash(&self) -> (step: ListStep)
        ensures
            !self.listing_supported ==> step@ == ListStepView::Reply(listing_unsupported_text()),
            self.listing_supported ==> step@ == ListStepView::List,
    {
        if self.listing_supported {
            ListStep::List
        } else {
            ListStep::Reply(
                String::from_str(
                    "list_trash is not supported on this platform (Linux/Windows only)",
                ),
            )
        }
    }

    /// The reply to a listing request once the trash facility has answered
    /// with the names of its items, in its own order, or with a failure.
    pub fn after_list(&self, outcome: &Result<Vec<String>, String>) -> (text: String)
        ensures
            text@ == list_outcome_text(list_outcome_view(*outcome)),
    {
        match outcome {
            Ok(names) => {
                if names.len() == 0 {
                    String::from_str("Trash is empty")
                } else {
                    trash_contents_message(names)
                }
            },
            Err(error) => list_failed_message(error.as_str()),
        }
    }

    /// What the service says of itself to a client that connects.
    pub fn instructions(&self) -> (text: String)
        ensures
            text@ == instructions_text(),
    {
        String::from_str(
            "Cross-platform trash/recycle bin operations. Safely delete files with recovery option.",
        )
    }
}

} // verus!
