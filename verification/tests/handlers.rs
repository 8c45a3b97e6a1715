use host_bridge::augmented_path;
use host_bridge::check_command_result;
use host_bridge::create_symlink_plan;
use host_bridge::get_home_dir;
use host_bridge::get_icloud_candidate;
use host_bridge::home_dir_result;
use host_bridge::icloud_candidate;
use host_bridge::icloud_result;
use host_bridge::join_path;
use host_bridge::parent_dir;
use host_bridge::run_command_result;
use host_bridge::trim_ws;
use host_bridge::write_if_missing_plan;
use host_bridge::LinkAction;
use host_bridge::WriteAction;

#[test]
fn trim_removes_trailing_newline() {
    assert_eq!(trim_ws("/usr/bin/git\n"), "/usr/bin/git");
}

#[test]
fn trim_removes_surrounding_whitespace() {
    assert_eq!(trim_ws("  \t/opt/bin/rg \r\n"), "/opt/bin/rg");
}

#[test]
fn trim_keeps_inner_whitespace() {
    assert_eq!(trim_ws(" a b "), "a b");
}

#[test]
fn trim_of_empty_is_empty() {
    assert_eq!(trim_ws(""), "");
}

#[test]
fn trim_of_all_whitespace_is_empty() {
    assert_eq!(trim_ws(" \t\r\n "), "");
}

#[test]
fn trim_handles_unicode_whitespace() {
    assert_eq!(trim_ws("\u{3000}x\u{a0}"), "x");
}

#[test]
fn parent_of_nested_path() {
    assert_eq!(parent_dir("/a/b/c.txt"), Some("/a/b".to_string()));
}

#[test]
fn parent_of_bare_name_is_none() {
    assert_eq!(parent_dir("c.txt"), None);
}

#[test]
fn parent_of_empty_is_none() {
    assert_eq!(parent_dir(""), None);
}

#[test]
fn parent_under_root_is_root() {
    assert_eq!(parent_dir("/a"), Some("/".to_string()));
}

#[test]
fn parent_of_trailing_separator() {
    assert_eq!(parent_dir("a/b/"), Some("a/b".to_string()));
}

#[test]
fn join_inserts_separator() {
    assert_eq!(join_path("/u/x", "d"), "/u/x/d");
}

#[test]
fn join_keeps_existing_separator() {
    assert_eq!(join_path("/u/x/", "d"), "/u/x/d");
}

#[test]
fn join_onto_empty_base() {
    assert_eq!(join_path("", "d"), "d");
}

#[test]
fn trimming_twice_changes_nothing() {
    let once = trim_ws(" \tdone\n");
    assert_eq!(trim_ws(&once), once);
}

#[test]
fn parent_of_a_joined_path_is_the_base() {
    let joined = join_path("/Users/me/notes", "todo.md");
    assert_eq!(parent_dir(&joined), Some("/Users/me/notes".to_string()));
}

#[test]
fn augmented_path_layout() {
    assert_eq!(
        augmented_path("/Users/me"),
        "/opt/homebrew/bin:/usr/local/bin:/Users/me/.cargo/bin:/Users/me/.local/bin:/usr/bin:/bin:/usr/sbin:/sbin"
    );
}

#[test]
fn check_command_found_trims_output() {
    assert_eq!(
        check_command_result("git", true, "/usr/bin/git\n"),
        Ok("/usr/bin/git".to_string())
    );
}

#[test]
fn check_command_missing_names_command() {
    assert_eq!(
        check_command_result("rg", false, ""),
        Err("rg not found".to_string())
    );
}

#[test]
fn run_command_success_keeps_stdout() {
    assert_eq!(
        run_command_result(true, "hello\n".to_string(), "".to_string()),
        Ok("hello\n".to_string())
    );
}

#[test]
fn run_command_failure_reports_stderr() {
    assert_eq!(
        run_command_result(false, "".to_string(), "boom".to_string()),
        Err("boom".to_string())
    );
}

#[test]
fn run_command_failure_with_silent_process() {
    assert_eq!(
        run_command_result(false, "partial".to_string(), "".to_string()),
        Err("Command failed with no output".to_string())
    );
}

#[test]
fn home_reply_passes_reported_home_through() {
    assert_eq!(
        home_dir_result(Some("/Users/me".to_string())),
        Ok("/Users/me".to_string())
    );
}

#[test]
fn home_reply_when_host_reports_none() {
    assert_eq!(
        home_dir_result(None),
        Err("Could not find home directory".to_string())
    );
}

#[test]
fn home_handler_answers() {
    match get_home_dir() {
        Ok(h) => assert!(!h.is_empty()),
        Err(msg) => assert_eq!(msg, "Could not find home directory"),
    }
}

#[test]
fn icloud_candidate_under_home() {
    assert_eq!(
        icloud_candidate(Some("/Users/me".to_string())),
        Ok("/Users/me/Library/Mobile Documents/com~apple~CloudDocs".to_string())
    );
}

#[test]
fn icloud_candidate_without_home() {
    assert_eq!(icloud_candidate(None), Err("No home dir".to_string()));
}

#[test]
fn icloud_candidate_from_host_ends_with_suffix() {
    match get_icloud_candidate() {
        Ok(p) => assert!(p.ends_with("Library/Mobile Documents/com~apple~CloudDocs")),
        Err(msg) => assert_eq!(msg, "No home dir"),
    }
}

#[test]
fn icloud_present_returns_path() {
    assert_eq!(
        icloud_result("/Users/me/icloud".to_string(), true),
        Ok("/Users/me/icloud".to_string())
    );
}

#[test]
fn icloud_missing_is_an_error() {
    assert_eq!(
        icloud_result("/Users/me/icloud".to_string(), false),
        Err("iCloud Drive not found".to_string())
    );
}

#[test]
fn existing_file_is_not_rewritten() {
    assert!(matches!(
        write_if_missing_plan("/a/b.txt", true),
        WriteAction::Skip
    ));
}

#[test]
fn missing_file_is_written_with_parent() {
    match write_if_missing_plan("/a/b.txt", false) {
        WriteAction::Write { parent } => assert_eq!(parent, Some("/a".to_string())),
        WriteAction::Skip => panic!("expected a write"),
    }
}

#[test]
fn missing_bare_file_needs_no_parent() {
    match write_if_missing_plan("b.txt", false) {
        WriteAction::Write { parent } => assert_eq!(parent, None),
        WriteAction::Skip => panic!("expected a write"),
    }
}

#[test]
fn occupied_link_path_is_skipped() {
    assert_eq!(create_symlink_plan(true), LinkAction::Skip);
}

#[test]
fn free_link_path_is_linked() {
    assert_eq!(create_symlink_plan(false), LinkAction::Link);
}
