use kamiya::actions::{ActionError, Actions, ImportOutcome, ProcessError, SettingOutcome};
use kamiya::config::Config;
use kamiya::database::Database;
use kamiya::note::Note;

fn store_with(notes: &[(&str, &str)]) -> Database {
    let mut db = Database::new();
    for (name, content) in notes {
        db.add_note(Note::new(name, content, ""));
    }
    db
}

#[test]
fn take_on_empty_store_generates_first_name() {
    let mut db = Database::new();
    let config = Config::new("Note&i", "nano");
    let mut name = String::new();
    assert_eq!(Actions::take(&mut db, &config, "hello", &mut name, ""), Ok(()));
    assert_eq!(name, "Note1");
    let notes = db.get_notes();
    assert_eq!(notes.len(), 1);
    assert_eq!(notes[0], Note::new("Note1", "hello", ""));
}

#[test]
fn take_with_taken_name_is_refused_without_change() {
    let mut db = store_with(&[("A", "x")]);
    let config = Config::default();
    let before = db.get_notes();
    let mut name = "A".to_string();
    assert_eq!(
        Actions::take(&mut db, &config, "other", &mut name, ""),
        Err(ActionError::DuplicateName)
    );
    assert_eq!(db.get_notes(), before);
    assert_eq!(name, "A");
}

#[test]
fn take_refuses_empty_content_and_bad_template() {
    let mut db = Database::new();
    let mut name = String::new();
    assert_eq!(
        Actions::take(&mut db, &Config::default(), "", &mut name, ""),
        Err(ActionError::EmptyContent)
    );
    let config = Config::new("plain", "nano");
    assert_eq!(
        Actions::take(&mut db, &config, "text", &mut name, ""),
        Err(ActionError::BadTemplate)
    );
    assert_eq!(name, "");
    assert_eq!(db.notes_count(), 0);
    let mut given = "mine".to_string();
    assert_eq!(Actions::take(&mut db, &config, "text", &mut given, "d"), Ok(()));
    assert_eq!(db.get_note("mine").unwrap(), Note::new("mine", "text", "d"));
}

#[test]
fn take_generated_name_may_collide() {
    let mut db = store_with(&[("Note2", "x")]);
    let mut name = String::new();
    assert_eq!(
        Actions::take(&mut db, &Config::default(), "y", &mut name, ""),
        Err(ActionError::DuplicateName)
    );
    assert_eq!(db.notes_count(), 1);
}

#[test]
fn edit_replaces_content_with_editor_result() {
    let mut db = store_with(&[("A", "x")]);
    let config = Config::default();
    let session = Actions::edit(&db, &config, "A").unwrap();
    assert_eq!(session.editor, "nano");
    assert_eq!(session.content, "x");
    assert_eq!(Actions::finish_edit(&mut db, "A", Ok("y".to_string())), Ok(()));
    assert_eq!(db.get_note("A").unwrap().content, "y");
}

#[test]
fn edit_failures() {
    let mut db = store_with(&[("A", "x")]);
    let before = db.get_notes();
    assert_eq!(
        Actions::finish_edit(&mut db, "A", Err(ProcessError::BadExitCode)),
        Err(ActionError::EditorFailed(ProcessError::BadExitCode))
    );
    assert_eq!(db.get_notes(), before);
    let no_editor = Config::new("Note&i", "");
    assert!(matches!(Actions::edit(&db, &no_editor, "A"), Err(ActionError::EditorNotSet)));
    assert!(matches!(Actions::edit(&db, &no_editor, "B"), Err(ActionError::NoteNotFound)));
    assert!(matches!(Actions::edit(&db, &Config::default(), ""), Err(ActionError::EmptyName)));
}

#[test]
fn rm_missing_note_fails_without_change() {
    let mut db = store_with(&[("A", "x")]);
    let before = db.get_notes();
    assert_eq!(Actions::rm(&mut db, "missing"), Err(ActionError::NoteNotFound));
    assert_eq!(db.get_notes(), before);
    assert_eq!(Actions::rm(&mut db, ""), Err(ActionError::EmptyName));
    assert_eq!(Actions::rm(&mut db, "A"), Ok(()));
    assert_eq!(db.notes_count(), 0);
}

#[test]
fn add_uses_file_stem_when_no_name() {
    let mut db = Database::new();
    let mut name = String::new();
    assert_eq!(Actions::add(&mut db, &mut name, "todo", "buy milk"), Ok(()));
    assert_eq!(name, "todo");
    assert_eq!(db.get_note("todo").unwrap(), Note::new("todo", "buy milk", ""));
    let mut again = String::new();
    assert_eq!(
        Actions::add(&mut db, &mut again, "todo", "other"),
        Err(ActionError::DuplicateName)
    );
}

#[test]
fn desc_and_rename_commands() {
    let mut db = store_with(&[("A", "x"), ("B", "y")]);
    assert_eq!(Actions::desc(&mut db, "A", "first"), Ok(()));
    assert_eq!(db.get_note("A").unwrap().description, "first");
    assert_eq!(Actions::desc(&mut db, "Z", "d"), Err(ActionError::NoteNotFound));
    assert_eq!(Actions::desc(&mut db, "", "d"), Err(ActionError::EmptyName));
    assert_eq!(Actions::rename(&mut db, "Z", "C"), Err(ActionError::NoteNotFound));
    assert_eq!(Actions::rename(&mut db, "A", "B"), Err(ActionError::DuplicateName));
    assert_eq!(Actions::rename(&mut db, "A", "C"), Ok(()));
    assert!(db.note_exists("C"));
    assert!(!db.note_exists("A"));
}

#[test]
fn editor_setting() {
    let mut config = Config::default();
    assert_eq!(
        Actions::editor(&mut config, ""),
        Ok(SettingOutcome::Current("nano".to_string()))
    );
    assert_eq!(Actions::editor(&mut config, "vim"), Ok(SettingOutcome::Changed));
    assert_eq!(config.get_editor(), "vim");
    let mut unset = Config::new("Note&i", "");
    assert_eq!(Actions::editor(&mut unset, ""), Err(ActionError::EditorNotSet));
}

#[test]
fn template_setting() {
    let mut config = Config::default();
    assert_eq!(
        Actions::template(&mut config, ""),
        Ok(SettingOutcome::Current("Note&i".to_string()))
    );
    assert_eq!(Actions::template(&mut config, "Memo"), Err(ActionError::BadTemplate));
    assert_eq!(config.get_template(), "Note&i");
    assert_eq!(Actions::template(&mut config, "Memo-&i"), Ok(SettingOutcome::Changed));
    assert_eq!(config.get_template(), "Memo-&i");
    let mut unset = Config::new("", "nano");
    assert_eq!(Actions::template(&mut unset, ""), Err(ActionError::TemplateNotSet));
}

#[test]
fn list_and_search() {
    let empty = Database::new();
    assert!(matches!(Actions::list(&empty), Err(ActionError::EmptyStore)));
    let db = store_with(&[("shopping", "x"), ("work", "y"), ("shop hours", "z")]);
    let listed = Actions::list(&db).unwrap();
    assert_eq!(listed.len(), 3);
    assert_eq!(listed[1].name, "work");
    assert_eq!(Actions::search(&db, "shop"), vec!["shopping", "shop hours"]);
    assert!(Actions::search(&db, "nothing").is_empty());
    assert_eq!(Actions::search(&db, "").len(), 3);
}

#[test]
fn save_and_get_commands() {
    let db = store_with(&[("A", "content of a\n")]);
    let mut filename = String::new();
    assert_eq!(Actions::save(&db, "A", &mut filename), Ok("content of a\n".to_string()));
    assert_eq!(filename, "A.md");
    let mut given = "out.txt".to_string();
    assert_eq!(Actions::save(&db, "A", &mut given), Ok("content of a\n".to_string()));
    assert_eq!(given, "out.txt");
    let mut untouched = String::new();
    assert_eq!(Actions::save(&db, "B", &mut untouched), Err(ActionError::NoteNotFound));
    assert_eq!(untouched, "");
    assert_eq!(Actions::get(&db, "A"), Ok("content of a\n".to_string()));
    assert_eq!(Actions::get(&db, ""), Err(ActionError::EmptyName));
}

#[test]
fn import_policies() {
    let incoming = vec![Note::new("A", "new a", "da"), Note::new("C", "c", "dc")];
    let mut skip = store_with(&[("A", "old a"), ("B", "b")]);
    assert_eq!(
        Actions::import(&mut skip, &incoming, false),
        vec![ImportOutcome::Skipped, ImportOutcome::Added]
    );
    assert_eq!(skip.get_note("A").unwrap().content, "old a");
    assert_eq!(skip.get_note("C").unwrap(), Note::new("C", "c", "dc"));

    let mut replace = store_with(&[("A", "old a"), ("B", "b")]);
    assert_eq!(
        Actions::import(&mut replace, &incoming, true),
        vec![ImportOutcome::Replaced, ImportOutcome::Added]
    );
    assert_eq!(replace.get_note("A").unwrap(), Note::new("A", "new a", "da"));
    let names: Vec<String> = replace.get_notes().into_iter().map(|n| n.name).collect();
    assert_eq!(names, vec!["A", "B", "C"]);

    let mut one = Database::new();
    assert_eq!(Actions::import_note(&mut one, &incoming[0], false), ImportOutcome::Added);
    assert_eq!(Actions::import_note(&mut one, &incoming[0], false), ImportOutcome::Skipped);
}
