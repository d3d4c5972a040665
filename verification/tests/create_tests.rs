use std::collections::HashMap;

use memo_cho::config::Config;
use memo_cho::create::{
    create_memo, CommandRun, MemoAction, MemoCreation, MemoEvent, Stage, TemplateRead,
};
use memo_cho::disk::FileCreation;
use memo_cho::error::MemoError;

fn config() -> Config {
    Config {
        memo_dir: "/home/alice/notes".to_string(),
        template_path: "/home/alice/notes/template.md".to_string(),
        editor_command: "nvim".to_string(),
        selector_command: Some("fzf".to_string()),
    }
}

fn planned(title: &str) -> MemoCreation {
    MemoCreation::plan(&config(), title, "2024-05-17", "2024-05-17 08:30:00")
}

const MEMO: &str = "/home/alice/notes/2024-05-17-Groceries.md";

/// Answers every action of a creation from a map of files, and lets the editor exit cleanly.
fn run_on(files: &mut HashMap<String, String>, mut creation: MemoCreation) -> Result<String, MemoError> {
    loop {
        let event = match creation.pending() {
            MemoAction::Probe { path } => MemoEvent::Probed { exists: files.contains_key(&path) },
            MemoAction::ReadTemplate { path } => MemoEvent::Template(match files.get(&path) {
                Some(text) => TemplateRead::Text(text.clone()),
                None => TemplateRead::Missing,
            }),
            MemoAction::CreateFile { path, content } => {
                if files.contains_key(&path) {
                    MemoEvent::Creation(FileCreation::Exists)
                } else {
                    files.insert(path, content);
                    MemoEvent::Creation(FileCreation::Created)
                }
            }
            MemoAction::LaunchEditor { .. } => MemoEvent::Editor(CommandRun::Exited { code: 0 }),
            MemoAction::Finish { outcome } => return outcome,
        };
        creation = creation.step(event);
    }
}

#[test]
fn plan_starts_by_probing_the_memo_path() {
    let creation = planned("Groceries");
    assert_eq!(creation.stage, Stage::Probing);
    assert_eq!(creation.path, MEMO);
    assert_eq!(creation.template_path, "/home/alice/notes/template.md");
    assert_eq!(creation.editor, "nvim");
    assert_eq!(creation.title, "Groceries");
    assert_eq!(creation.stamp, "2024-05-17 08:30:00");
    assert_eq!(creation.pending(), MemoAction::Probe { path: MEMO.to_string() });
}

#[test]
fn creation_goes_from_probe_to_editor() {
    let creation = planned("Groceries").step(MemoEvent::Probed { exists: false });
    assert_eq!(
        creation.pending(),
        MemoAction::ReadTemplate { path: "/home/alice/notes/template.md".to_string() }
    );
    let creation = creation.step(MemoEvent::Template(TemplateRead::Text(
        "Title: {{ title }}\nDate: {{ date }}".to_string(),
    )));
    assert_eq!(
        creation.pending(),
        MemoAction::CreateFile {
            path: MEMO.to_string(),
            content: "Title: Groceries\nDate: 2024-05-17 08:30:00".to_string(),
        }
    );
    let creation = creation.step(MemoEvent::Creation(FileCreation::Created));
    assert_eq!(
        creation.pending(),
        MemoAction::LaunchEditor { command: "nvim".to_string(), argument: MEMO.to_string() }
    );
    let creation = creation.step(MemoEvent::Editor(CommandRun::Exited { code: 0 }));
    assert_eq!(creation.pending(), MemoAction::Finish { outcome: Ok(MEMO.to_string()) });
}

#[test]
fn existing_memo_is_reported_at_the_probe() {
    let creation = planned("Groceries").step(MemoEvent::Probed { exists: true });
    assert_eq!(
        creation.pending(),
        MemoAction::Finish { outcome: Err(MemoError::AlreadyExists { path: MEMO.to_string() }) }
    );
}

#[test]
fn memo_that_appears_meanwhile_is_reported_at_the_write() {
    let creation = planned("Groceries")
        .step(MemoEvent::Probed { exists: false })
        .step(MemoEvent::Template(TemplateRead::Missing))
        .step(MemoEvent::Creation(FileCreation::Exists));
    assert_eq!(
        creation.pending(),
        MemoAction::Finish { outcome: Err(MemoError::AlreadyExists { path: MEMO.to_string() }) }
    );
}

#[test]
fn missing_template_seeds_the_bare_heading() {
    let creation = planned("Groceries")
        .step(MemoEvent::Probed { exists: false })
        .step(MemoEvent::Template(TemplateRead::Missing));
    assert_eq!(
        creation.pending(),
        MemoAction::CreateFile { path: MEMO.to_string(), content: "# ".to_string() }
    );
}

#[test]
fn empty_template_seeds_the_bare_heading() {
    let creation = planned("Groceries")
        .step(MemoEvent::Probed { exists: false })
        .step(MemoEvent::Template(TemplateRead::Text(String::new())));
    assert_eq!(
        creation.pending(),
        MemoAction::CreateFile { path: MEMO.to_string(), content: "# ".to_string() }
    );
}

#[test]
fn empty_template_path_seeds_the_bare_heading() {
    let bare = Config { template_path: String::new(), ..config() };
    let mut files = HashMap::new();
    let creation = MemoCreation::plan(&bare, "Groceries", "2024-05-17", "2024-05-17 08:30:00");
    assert_eq!(run_on(&mut files, creation), Ok(MEMO.to_string()));
    assert_eq!(files.get(MEMO), Some(&"# ".to_string()));
}

#[test]
fn unreadable_template_is_an_io_error_with_its_path() {
    let creation = planned("Groceries")
        .step(MemoEvent::Probed { exists: false })
        .step(MemoEvent::Template(TemplateRead::Failed));
    assert_eq!(
        creation.pending(),
        MemoAction::Finish {
            outcome: Err(MemoError::Io { path: "/home/alice/notes/template.md".to_string() })
        }
    );
}

#[test]
fn failed_write_is_an_io_error_with_the_memo_path() {
    let creation = planned("Groceries")
        .step(MemoEvent::Probed { exists: false })
        .step(MemoEvent::Template(TemplateRead::Missing))
        .step(MemoEvent::Creation(FileCreation::Failed));
    assert_eq!(
        creation.pending(),
        MemoAction::Finish { outcome: Err(MemoError::Io { path: MEMO.to_string() }) }
    );
}

fn editing() -> MemoCreation {
    planned("Groceries")
        .step(MemoEvent::Probed { exists: false })
        .step(MemoEvent::Template(TemplateRead::Missing))
        .step(MemoEvent::Creation(FileCreation::Created))
}

#[test]
fn editor_that_cannot_start_is_a_process_error() {
    let creation = editing().step(MemoEvent::Editor(CommandRun::NotStarted));
    assert_eq!(
        creation.pending(),
        MemoAction::Finish { outcome: Err(MemoError::Process { command: "nvim".to_string() }) }
    );
}

#[test]
fn editor_that_is_killed_or_lost_is_a_process_error() {
    for run in [CommandRun::Killed, CommandRun::Lost] {
        let creation = editing().step(MemoEvent::Editor(run));
        assert_eq!(
            creation.pending(),
            MemoAction::Finish {
                outcome: Err(MemoError::Process { command: "nvim".to_string() })
            }
        );
    }
}

#[test]
fn editor_that_exits_with_a_code_is_tolerated() {
    for code in [0, 1, 2, 130, -1] {
        let creation = editing().step(MemoEvent::Editor(CommandRun::Exited { code }));
        assert_eq!(creation.pending(), MemoAction::Finish { outcome: Ok(MEMO.to_string()) });
    }
}

#[test]
fn report_that_answers_nothing_pending_changes_nothing() {
    let creation = planned("Groceries").step(MemoEvent::Creation(FileCreation::Created));
    assert_eq!(creation, planned("Groceries"));
    let creation = planned("Groceries").step(MemoEvent::Editor(CommandRun::Exited { code: 0 }));
    assert_eq!(creation, planned("Groceries"));
    let creation = editing().step(MemoEvent::Probed { exists: true });
    assert_eq!(creation, editing());
    let done = editing().step(MemoEvent::Editor(CommandRun::Exited { code: 0 }));
    let still = editing()
        .step(MemoEvent::Editor(CommandRun::Exited { code: 0 }))
        .step(MemoEvent::Probed { exists: true });
    assert_eq!(still, done);
}

#[test]
fn second_memo_of_the_same_title_and_day_is_refused() {
    let mut files = HashMap::new();
    files.insert(
        "/home/alice/notes/template.md".to_string(),
        "# {{ title }}\n{{ date }}\n".to_string(),
    );
    let first = MemoCreation::plan(&config(), "Groceries", "2024-05-17", "2024-05-17 08:30:00");
    assert_eq!(run_on(&mut files, first), Ok(MEMO.to_string()));
    let written = files.get(MEMO).cloned();
    assert_eq!(written, Some("# Groceries\n2024-05-17 08:30:00\n".to_string()));

    let second = MemoCreation::plan(&config(), "Groceries", "2024-05-17", "2024-05-17 21:05:42");
    assert_eq!(
        run_on(&mut files, second),
        Err(MemoError::AlreadyExists { path: MEMO.to_string() })
    );
    assert_eq!(files.get(MEMO).cloned(), written);
    assert_eq!(files.len(), 2);
}

#[test]
fn titles_that_sanitize_alike_collide() {
    let mut files = HashMap::new();
    let first = MemoCreation::plan(&config(), "to do", "2024-05-17", "2024-05-17 08:30:00");
    assert!(run_on(&mut files, first).is_ok());
    let second = MemoCreation::plan(&config(), "to-do", "2024-05-17", "2024-05-17 08:31:00");
    assert_eq!(
        run_on(&mut files, second),
        Err(MemoError::AlreadyExists { path: "/home/alice/notes/2024-05-17-to-do.md".to_string() })
    );
}

#[test]
fn same_title_on_another_day_is_another_memo() {
    let mut files = HashMap::new();
    let first = MemoCreation::plan(&config(), "Groceries", "2024-05-17", "2024-05-17 08:30:00");
    assert!(run_on(&mut files, first).is_ok());
    let second = MemoCreation::plan(&config(), "Groceries", "2024-05-18", "2024-05-18 08:30:00");
    assert_eq!(
        run_on(&mut files, second),
        Ok("/home/alice/notes/2024-05-18-Groceries.md".to_string())
    );
}

fn is_digits(s: &str) -> bool {
    !s.is_empty() && s.chars().all(|c| c.is_ascii_digit())
}

#[test]
fn create_memo_names_the_memo_after_today() {
    let creation = create_memo(&config(), "Groceries");
    assert_eq!(creation.stage, Stage::Probing);
    assert_eq!(creation.title, "Groceries");
    assert_eq!(creation.editor, "nvim");
    assert_eq!(creation.template_path, "/home/alice/notes/template.md");

    let name = creation.path.strip_prefix("/home/alice/notes/").unwrap();
    let date = name.strip_suffix("-Groceries.md").unwrap();
    let parts: Vec<&str> = date.split('-').collect();
    assert_eq!(parts.len(), 3);
    assert!(is_digits(parts[0]) && parts[0].len() == 4);
    assert!(is_digits(parts[1]) && parts[1].len() == 2);
    assert!(is_digits(parts[2]) && parts[2].len() == 2);
}

#[test]
fn create_memo_stamps_the_moment_to_the_second() {
    let creation = create_memo(&config(), "Groceries");
    let (day, time) = creation.stamp.split_once(' ').unwrap();
    assert_eq!(day.len(), 10);
    let clock: Vec<&str> = time.split(':').collect();
    assert_eq!(clock.len(), 3);
    for part in clock {
        assert!(is_digits(part) && part.len() == 2);
    }
    assert!(!creation.stamp.contains('%'));
}
