use memo_cho::config::Config;
use memo_cho::create::CommandRun;
use memo_cho::edit::{edit_memo, selector_pipeline, EditAction, EditEnd, EditEvent, EditSession};
use memo_cho::error::{ConfigFault, MemoError};

fn config() -> Config {
    Config {
        memo_dir: "/home/alice/notes".to_string(),
        template_path: "/home/alice/notes/template.md".to_string(),
        editor_command: "nvim".to_string(),
        selector_command: Some("fzf".to_string()),
    }
}

const LINE: &str = "ls /home/alice/notes/*.md | fzf | xargs nvim";

#[test]
fn pipeline_lists_selects_and_edits() {
    assert_eq!(selector_pipeline("/home/alice/notes", "fzf", "nvim"), LINE);
    assert_eq!(selector_pipeline("", "", ""), "ls /*.md |  | xargs ");
}

#[test]
fn edit_memo_first_looks_at_the_directory() {
    let session = edit_memo(&config());
    assert_eq!(session.pending(), EditAction::CheckDir { path: "/home/alice/notes".to_string() });
}

#[test]
fn edit_memo_without_the_directory_is_not_found() {
    let session = edit_memo(&config());
    assert_eq!(session.pending(), EditAction::CheckDir { path: "/home/alice/notes".to_string() });
    let session = session.step(EditEvent::DirChecked { exists: false });
    assert_eq!(
        session.pending(),
        EditAction::Finish {
            outcome: Err(MemoError::NotFound { path: "/home/alice/notes".to_string() })
        }
    );
}

#[test]
fn edit_memo_without_directory_and_selector_is_not_found() {
    let bare = Config { selector_command: None, ..config() };
    let session = edit_memo(&bare).step(EditEvent::DirChecked { exists: false });
    assert_eq!(
        session.pending(),
        EditAction::Finish {
            outcome: Err(MemoError::NotFound { path: "/home/alice/notes".to_string() })
        }
    );
}

#[test]
fn edit_memo_runs_the_pipeline_in_an_existing_directory() {
    let session = edit_memo(&config()).step(EditEvent::DirChecked { exists: true });
    assert_eq!(session.pending(), EditAction::RunShell { line: LINE.to_string() });
    let session = session.step(EditEvent::Shell(CommandRun::Exited { code: 0 }));
    assert_eq!(session.pending(), EditAction::Finish { outcome: Ok(EditEnd::Edited) });
}

#[test]
fn edit_memo_without_selector_is_a_config_error() {
    let bare = Config { selector_command: None, ..config() };
    let session = edit_memo(&bare).step(EditEvent::DirChecked { exists: true });
    assert_eq!(
        session.pending(),
        EditAction::Finish {
            outcome: Err(MemoError::Config { fault: ConfigFault::SelectorMissing })
        }
    );
}

#[test]
fn cancelled_selector_is_a_soft_end() {
    for code in [1, 123, 130] {
        let session = edit_memo(&config())
            .step(EditEvent::DirChecked { exists: true })
            .step(EditEvent::Shell(CommandRun::Exited { code }));
        assert_eq!(session.pending(), EditAction::Finish { outcome: Ok(EditEnd::Cancelled { code }) });
    }
}

#[test]
fn shell_that_fails_is_a_process_error() {
    for run in [CommandRun::NotStarted, CommandRun::Killed, CommandRun::Lost] {
        let session = edit_memo(&config())
            .step(EditEvent::DirChecked { exists: true })
            .step(EditEvent::Shell(run));
        assert_eq!(
            session.pending(),
            EditAction::Finish { outcome: Err(MemoError::Process { command: LINE.to_string() }) }
        );
    }
}

#[test]
fn edit_report_that_answers_nothing_pending_changes_nothing() {
    let session = edit_memo(&config()).step(EditEvent::Shell(CommandRun::Exited { code: 0 }));
    assert_eq!(session, edit_memo(&config()));
    let running = edit_memo(&config())
        .step(EditEvent::DirChecked { exists: true })
        .step(EditEvent::DirChecked { exists: false });
    assert_eq!(running, EditSession::Running { line: LINE.to_string() });
}
