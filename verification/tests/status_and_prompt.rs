use promptline::assemble::{output_lines, assemble_prompt, PromptInputs};
use promptline::status::{status_fragment, RepoObservation, StatusEntry};

const GREEN: &str = "\\[\\033[32m\\]";
const RED: &str = "\\[\\033[31m\\]";
const ORANGE: &str = "\\[\\e[38;5;208m\\]";
const RESET: &str = "\\[\\033[0m\\]";

fn entry(conflicted: bool, wt_modified: bool, index_modified: bool, wt_new: bool) -> StatusEntry {
    StatusEntry { conflicted, wt_modified, index_modified, wt_new }
}

#[test]
fn no_repository_gives_empty_fragment() {
    assert_eq!(status_fragment(&RepoObservation::NoRepo), "");
}

#[test]
fn clean_repository_uses_clean_color_without_glyphs() {
    let obs = RepoObservation::Branch { name: "main".to_owned(), entries: vec![] };
    assert_eq!(status_fragment(&obs), format!("|{}main{}|", GREEN, RESET));
}

#[test]
fn mixed_repository_shows_glyphs_in_fixed_order() {
    let obs = RepoObservation::Branch {
        name: "main".to_owned(),
        entries: vec![
            entry(false, false, true, false),
            entry(false, true, false, false),
            entry(false, false, false, true),
        ],
    };
    assert_eq!(
        status_fragment(&obs),
        format!("|{}main\u{270F}\u{FE0F}\u{1F6A7}\u{2753}{}|", ORANGE, RESET)
    );
}

#[test]
fn conflicted_repository_shows_conflict_glyph_first() {
    let obs = RepoObservation::Branch {
        name: "fix".to_owned(),
        entries: vec![entry(true, true, false, false)],
    };
    assert_eq!(
        status_fragment(&obs),
        format!("|{}fix\u{274C}\u{270F}\u{FE0F}{}|", ORANGE, RESET)
    );
}

#[test]
fn untracked_only_repository_is_dirty() {
    let obs = RepoObservation::Branch {
        name: "main".to_owned(),
        entries: vec![entry(false, false, false, true)],
    };
    assert_eq!(status_fragment(&obs), format!("|{}main\u{2753}{}|", ORANGE, RESET));
}

#[test]
fn detached_head_reads_no_branch_in_failure_color() {
    assert_eq!(
        status_fragment(&RepoObservation::Detached),
        format!("|{}NO BRANCH{}|", RED, RESET)
    );
}

#[test]
fn end_to_end_clean_prompt_line() {
    let status = status_fragment(&RepoObservation::Branch {
        name: "main".to_owned(),
        entries: vec![],
    });
    let inputs = PromptInputs {
        exit_code: 0,
        hostname: "box".to_owned(),
        user: "alice".to_owned(),
        resolved_path: "~/proj".to_owned(),
        status_fragment: status,
    };
    let lines = output_lines(&inputs, Some(12));
    assert_eq!(lines.len(), 1);
    assert_eq!(
        lines[0],
        format!(
            "export PS1=\"{}[box\u{1F980}alice]{}(~/proj|{}main{}|)$\"",
            GREEN, RESET, GREEN, RESET
        )
    );
}

#[test]
fn failing_root_prompt_line() {
    let inputs = PromptInputs {
        exit_code: 130,
        hostname: "box".to_owned(),
        user: "root".to_owned(),
        resolved_path: "/srv".to_owned(),
        status_fragment: String::new(),
    };
    let prompt = assemble_prompt(&inputs);
    assert_eq!(
        prompt,
        format!("{}(130)[box\u{1F980}root]{}(/srv)#", RED, RESET)
    );
}

#[test]
fn slow_status_scan_emits_skip_signal_first() {
    let inputs = PromptInputs {
        exit_code: 0,
        hostname: "box".to_owned(),
        user: "alice".to_owned(),
        resolved_path: "~".to_owned(),
        status_fragment: String::new(),
    };
    let lines = output_lines(&inputs, Some(501));
    assert_eq!(lines.len(), 2);
    assert_eq!(lines[0], "export SKIP_GIT_STATUS=\"asd\";");
    assert!(lines[1].starts_with("export PS1=\""));
}

#[test]
fn status_scan_within_budget_emits_no_signal() {
    let inputs = PromptInputs {
        exit_code: 0,
        hostname: "box".to_owned(),
        user: "alice".to_owned(),
        resolved_path: "~".to_owned(),
        status_fragment: String::new(),
    };
    let lines = output_lines(&inputs, Some(500));
    assert_eq!(lines.len(), 1);
    let lines = output_lines(&inputs, None);
    assert_eq!(lines.len(), 1);
}
