//! The handlers on concrete requests: what step each asks for and what reply
//! each outcome gives.

use rmcp_trash::{
    BatchPlan, BatchStep, FileStep, ListStep, TrashFileParams, TrashFilesParams, TrashServer,
};

fn strings(items: &[&str]) -> Vec<String> {
    items.iter().map(|s| s.to_string()).collect()
}

fn batch(paths: &[&str], exists: &[bool]) -> BatchStep {
    let params = TrashFilesParams { paths: strings(paths) };
    TrashServer::new(true).trash_files(&params, &exists.to_vec())
}

fn plan_of(step: BatchStep) -> BatchPlan {
    match step {
        BatchStep::DeleteAll(plan) => plan,
        BatchStep::Reply(text) => panic!("expected a call, got the reply {:?}", text),
    }
}

#[test]
fn single_missing_path_is_answered_without_a_call() {
    let server = TrashServer::new(true);
    for path in ["/no/such/entry", "relative/none", "", "  ", "/tmp/\u{e9}t\u{e9}"] {
        let params = TrashFileParams { path: path.to_string() };
        assert_eq!(
            server.trash_file(&params, false),
            FileStep::Reply(format!("Path does not exist: {}", path))
        );
    }
}

#[test]
fn single_existing_path_is_handed_to_the_trash_as_written() {
    let server = TrashServer::new(false);
    let params = TrashFileParams { path: "./a/../b.txt".to_string() };
    assert_eq!(server.trash_file(&params, true), FileStep::Delete("./a/../b.txt".to_string()));
}

#[test]
fn single_delete_success_text() {
    let server = TrashServer::new(true);
    let params = TrashFileParams { path: "/tmp/x".to_string() };
    let path = match server.trash_file(&params, true) {
        FileStep::Delete(path) => path,
        FileStep::Reply(text) => panic!("expected a call, got the reply {:?}", text),
    };
    assert_eq!(server.after_delete(&path, &Ok(())), "Moved to trash: /tmp/x");
}

#[test]
fn single_delete_failure_text() {
    let server = TrashServer::new(true);
    let outcome = Err("permission denied".to_string());
    assert_eq!(server.after_delete("/tmp/x", &outcome), "Failed to trash: permission denied");
}

#[test]
fn single_delete_failure_with_empty_description() {
    let server = TrashServer::new(true);
    assert_eq!(server.after_delete("/tmp/x", &Err(String::new())), "Failed to trash: ");
}

#[test]
fn batch_without_existing_paths_is_answered_without_a_call() {
    let expected = BatchStep::Reply("No valid paths to trash".to_string());
    assert_eq!(batch(&[], &[]), expected);
    assert_eq!(batch(&["a"], &[false]), expected);
    assert_eq!(batch(&["a", "b", "a"], &[false, false, false]), expected);
}

#[test]
fn batch_submits_exactly_the_existing_paths() {
    let plan = plan_of(batch(&["A", "B", "C"], &[true, false, true]));
    assert_eq!(plan.existing, strings(&["A", "C"]));
    assert_eq!(plan.missing, strings(&["B"]));
    let text = TrashServer::new(true).after_delete_all(&plan, &Ok(()));
    assert_eq!(text, "Moved 2 items to trash\nSkipped (not found): B");
}

#[test]
fn batch_with_nothing_missing_has_no_second_line() {
    let plan = plan_of(batch(&["x", "y", "z"], &[true, true, true]));
    assert_eq!(plan.existing, strings(&["x", "y", "z"]));
    assert!(plan.missing.is_empty());
    let text = TrashServer::new(true).after_delete_all(&plan, &Ok(()));
    assert_eq!(text, "Moved 3 items to trash");
}

#[test]
fn batch_of_one_still_says_items() {
    let plan = plan_of(batch(&["only"], &[true]));
    assert_eq!(TrashServer::new(true).after_delete_all(&plan, &Ok(())), "Moved 1 items to trash");
}

#[test]
fn batch_lists_skipped_paths_in_request_order() {
    let plan = plan_of(batch(&["m1", "e1", "m2", "e2", "m3"], &[false, true, false, true, false]));
    assert_eq!(plan.existing, strings(&["e1", "e2"]));
    assert_eq!(plan.missing, strings(&["m1", "m2", "m3"]));
    let text = TrashServer::new(true).after_delete_all(&plan, &Ok(()));
    assert_eq!(text, "Moved 2 items to trash\nSkipped (not found): m1, m2, m3");
}

#[test]
fn batch_keeps_duplicates_on_both_sides() {
    let paths = ["a", "b", "a", "b", "a"];
    let plan = plan_of(batch(&paths, &[true, false, true, false, true]));
    assert_eq!(plan.existing, strings(&["a", "a", "a"]));
    assert_eq!(plan.missing, strings(&["b", "b"]));
    assert_eq!(plan.existing.len() + plan.missing.len(), paths.len());
    let text = TrashServer::new(true).after_delete_all(&plan, &Ok(()));
    assert_eq!(text, "Moved 3 items to trash\nSkipped (not found): b, b");
}

#[test]
fn batch_position_decides_not_the_path() {
    let plan = plan_of(batch(&["same", "same"], &[false, true]));
    assert_eq!(plan.existing, strings(&["same"]));
    assert_eq!(plan.missing, strings(&["same"]));
}

#[test]
fn batch_counts_add_up_for_every_pattern_of_four() {
    let paths = ["w", "x", "y", "z"];
    for bits in 0u32..16 {
        let exists: Vec<bool> = (0..4).map(|i| bits & (1 << i) != 0).collect();
        match batch(&paths, &exists) {
            BatchStep::Reply(text) => {
                assert_eq!(bits, 0);
                assert_eq!(text, "No valid paths to trash");
            }
            BatchStep::DeleteAll(plan) => {
                assert_eq!(plan.existing.len(), bits.count_ones() as usize);
                assert_eq!(plan.existing.len() + plan.missing.len(), paths.len());
                let mut merged: Vec<String> = Vec::new();
                let (mut e, mut m) = (plan.existing.iter(), plan.missing.iter());
                for flag in &exists {
                    let next = if *flag { e.next() } else { m.next() };
                    merged.push(next.unwrap().clone());
                }
                assert_eq!(merged, strings(&paths));
            }
        }
    }
}

#[test]
fn batch_path_without_observation_counts_as_missing() {
    let plan = plan_of(batch(&["a", "b", "c"], &[true]));
    assert_eq!(plan.existing, strings(&["a"]));
    assert_eq!(plan.missing, strings(&["b", "c"]));
    assert_eq!(batch(&["a", "b"], &[]), BatchStep::Reply("No valid paths to trash".to_string()));
}

#[test]
fn batch_ignores_observations_beyond_the_paths() {
    let plan = plan_of(batch(&["a"], &[true, true, false]));
    assert_eq!(plan.existing, strings(&["a"]));
    assert!(plan.missing.is_empty());
}

#[test]
fn batch_failure_shows_only_the_description() {
    let plan = plan_of(batch(&["A", "B", "C"], &[true, false, true]));
    let outcome = Err("permission denied".to_string());
    let text = TrashServer::new(true).after_delete_all(&plan, &outcome);
    assert_eq!(text, "Failed to trash: permission denied");
}

#[test]
fn batch_skipped_paths_are_reported_as_written() {
    let plan = plan_of(batch(&["", "ok", "a, b", "  spaced "], &[false, true, false, false]));
    let text = TrashServer::new(true).after_delete_all(&plan, &Ok(()));
    assert_eq!(text, "Moved 1 items to trash\nSkipped (not found): , a, b,   spaced ");
}

#[test]
fn listing_unsupported_is_always_the_same_reply() {
    let server = TrashServer::new(false);
    let expected =
        ListStep::Reply("list_trash is not supported on this platform (Linux/Windows only)".to_string());
    assert_eq!(server.list_trash(), expected);
    assert_eq!(server.list_trash(), expected);
    assert_eq!(TrashServer { listing_supported: false }.list_trash(), expected);
}

#[test]
fn listing_supported_asks_the_trash() {
    assert_eq!(TrashServer::new(true).list_trash(), ListStep::List);
}

#[test]
fn listing_of_empty_trash() {
    let server = TrashServer::new(true);
    assert_eq!(server.after_list(&Ok(Vec::new())), "Trash is empty");
}

#[test]
fn listing_of_items_in_given_order() {
    let server = TrashServer::new(true);
    let names = strings(&["zeta.txt", "alpha", "zeta.txt"]);
    assert_eq!(
        server.after_list(&Ok(names)),
        "Trash contents (3 items):\nzeta.txt\nalpha\nzeta.txt"
    );
}

#[test]
fn listing_of_one_item() {
    let server = TrashServer::new(true);
    assert_eq!(server.after_list(&Ok(strings(&["note.md"]))), "Trash contents (1 items):\nnote.md");
}

#[test]
fn listing_of_twelve_items_counts_in_decimal() {
    let server = TrashServer::new(true);
    let names: Vec<String> = (0..12).map(|i| format!("f{}", i)).collect();
    let text = server.after_list(&Ok(names.clone()));
    assert_eq!(text, format!("Trash contents (12 items):\n{}", names.join("\n")));
}

#[test]
fn listing_failure_text() {
    let server = TrashServer::new(true);
    let outcome = Err("trash directory unreadable".to_string());
    assert_eq!(server.after_list(&outcome), "Failed to list trash: trash directory unreadable");
}

#[test]
fn new_records_the_capability() {
    assert!(TrashServer::new(true).listing_supported);
    assert!(!TrashServer::new(false).listing_supported);
}

#[test]
fn instructions_are_fixed() {
    let expected =
        "Cross-platform trash/recycle bin operations. Safely delete files with recovery option.";
    assert_eq!(TrashServer::new(true).instructions(), expected);
    assert_eq!(TrashServer::new(false).instructions(), expected);
}
