//! The reply texts. Every outcome, success or failure, is told to the client
//! as one line or a few lines of plain text; this module says which.

use crate::text::{decimal, decimal_string, join, join_strings};
use vstd::prelude::*;
use vstd::string::*;

verus! {

/// Reply for a single path that is not there.
pub open spec fn path_missing_text(path: Seq<char>) -> Seq<char> {
    "Path does not exist: "@ + path
}

/// Reply after one entry was moved to the trash.
pub open spec fn moved_text(path: Seq<char>) -> Seq<char> {
    "Moved to trash: "@ + path
}

/// Reply after the trash facility refused a single or a batch delete; `error`
/// is the facility's own description.
pub open spec fn trash_failed_text(error: Seq<char>) -> Seq<char> {
    "Failed to trash: "@ + error
}

/// Reply for a batch in which no path exists.
pub open spec fn no_valid_paths_text() -> Seq<char> {
    "No valid paths to trash"@
}

/// Reply after a batch was moved to the trash: the number of entries that were
/// submitted and, on a second line, the paths that were skipped, if any.
pub open spec fn batch_moved_text(submitted: nat, missing: Seq<Seq<char>>) -> Seq<char> {
    let moved = "Moved "@ + decimal(submitted) + " items to trash"@;
    if missing.len() == 0 {
        moved
    } else {
        moved + "\nSkipped (not found): "@ + join(missing, ", "@)
    }
}

/// Reply for a listing of an empty trash.
pub open spec fn trash_empty_text() -> Seq<char> {
    "Trash is empty"@
}

/// Reply for a listing of a trash that holds `names`: a headline with their
/// number, then one name per line in the order given.
pub open spec fn trash_contents_text(names: Seq<Seq<char>>) -> Seq<char> {
    "Trash contents ("@ + decimal(names.len()) + " items):\n"@ + join(names, "\n"@)
}

/// Reply after the trash facility failed to list its contents.
pub open spec fn list_failed_text(error: Seq<char>) -> Seq<char> {
    "Failed to list trash: "@ + error
}

/// Reply to a listing request where the platform has no listing facility.
pub open spec fn listing_unsupported_text() -> Seq<char> {
    "list_trash is not supported on this platform (Linux/Windows only)"@
}

/// What the service tells a client about itself when they first meet.
pub open spec fn instructions_text() -> Seq<char> {
    "Cross-platform trash/recycle bin operations. Safely delete files with recovery option."@
}

/// The reply that closes a single delete, given what the trash facility
/// answered.
pub open spec fn delete_outcome_text(path: Seq<char>, outcome: Result<(), Seq<char>>) -> Seq<char> {
    match outcome {
        Ok(_) => moved_text(path),
        Err(error) => trash_failed_text(error),
    }
}

/// The reply that closes a batch delete, given what the trash facility
/// answered. A failure is reported by the facility's description alone: the
/// reply does not tell a batch that failed as a whole from one that failed
/// half way.
pub open spec fn delete_all_outcome_text(
    submitted: nat,
    missing: Seq<Seq<char>>,
    outcome: Result<(), Seq<char>>,
) -> Seq<char> {
    match outcome {
        Ok(_) => batch_moved_text(submitted, missing),
        Err(error) => trash_failed_text(error),
    }
}

/// The reply that closes a listing, given what the trash facility answered.
pub open spec fn list_outcome_text(outcome: Result<Seq<Seq<char>>, Seq<char>>) -> Seq<char> {
    match outcome {
        Ok(names) => if names.len() == 0 {
            trash_empty_text()
        } else {
            trash_contents_text(names)
        },
        Err(error) => list_failed_text(error),
    }
}

/// Writes the reply for a single path that is not there.
pub fn path_missing_message(path: &str) -> (text: String)
    ensures
        text@ == path_missing_text(path@),
{
    let mut text = String::from_str("Path does not exist: ");
    text.append(path);
    text
}

/// Writes the reply after one entry was moved to the trash.
pub fn moved_message(path: &str) -> (text: String)
    ensures
        text@ == moved_text(path@),
{
    let mut text = String::from_str("Moved to trash: ");
    text.append(path);
    text
}

/// Writes the reply after the trash facility refused a delete.
pub fn trash_failed_message(error: &str) -> (text: String)
    ensures
        text@ == trash_failed_text(error@),
{
    let mut text = String::from_str("Failed to trash: ");
    text.append(error);
    text
}

/// Writes the reply after a batch of `submitted` entries was moved to the
/// trash while `missing` were left out.
pub fn batch_moved_message(submitted: usize, missing: &Vec<String>) -> (text: String)
    ensures
        text@ == batch_moved_text(submitted as nat, missing.deep_view()),
{
    let mut text = String::from_str("Moved ");
    text.append(decimal_string(submitted).as_str());
    text.append(" items to trash");
    if missing.len() > 0 {
        text.append("\nSkipped (not found): ");
        text.append(join_strings(missing, ", ").as_str());
    }
    text
}

/// Writes the reply for a listing of a trash that holds `names`.
pub fn trash_contents_message(names: &Vec<String>) -> (text: String)
    ensures
        text@ == trash_contents_text(names.deep_view()),
{
    let mut text = String::from_str("Trash contents (");
    text.append(decimal_string(names.len()).as_str());
    text.append(" items):\n");
    text.append(join_strings(names, "\n").as_str());
    text
}

/// Writes the reply after the trash facility failed to list its contents.
pub fn list_failed_message(error: &str) -> (text: String)
    ensures
        text@ == list_failed_text(error@),
{
    let mut text = String::from_str("Failed to list trash: ");
    text.append(error);
    text
}

} // verus!
