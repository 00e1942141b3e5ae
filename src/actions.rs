//! The decisions behind each command of the tool. Every command works on the
//! store and the configuration in memory; reading and writing them, running
//! the editor and printing are left to the caller, which saves the store only
//! after a command succeeded.
use vstd::prelude::*;
use crate::config::{self, Config};
use crate::database::{
    generated_name, has_name, lemma_position, position, unique_names, with_content,
    with_description, with_name, Database, DatabaseError,
};
use crate::note::{Note, NoteView};
use crate::text::{contains, contains_seq, marker};

verus! {

/// How an external editor run can fail.
#[derive(Clone, Copy, Debug, PartialEq, Eq)]
pub enum ProcessError {
    BadExitCode,
    Interrupted,
    ExecutableNotFound,
    Unknown,
}

/// Why a command was refused. A refused command changes nothing.
#[derive(Clone, Copy, Debug, PartialEq, Eq)]
pub enum ActionError {
    NoteNotFound,
    DuplicateName,
    BadTemplate,
    EmptyContent,
    EmptyName,
    EditorNotSet,
    TemplateNotSet,
    EmptyStore,
    EditorFailed(ProcessError),
}

/// What a settings command did.
#[derive(Debug, PartialEq, Eq)]
pub enum SettingOutcome {
    /// Nothing was given: the current value, unchanged.
    Current(String),
    /// The value was replaced.
    Changed,
}

/// What an edit hands to the external editor.
pub struct EditSession {
    pub editor: String,
    pub content: String,
}

/// What became of one imported note.
#[derive(Clone, Copy, Debug, PartialEq, Eq)]
pub enum ImportOutcome {
    Added,
    Replaced,
    Skipped,
}

/// The name a new note gets: the given one, or the template's when none is given.
pub open spec fn chosen_name(s: Seq<NoteView>, template: Seq<char>, name: Seq<char>) -> Seq<char> {
    if name.len() == 0 {
        generated_name(template, s.len())
    } else {
        name
    }
}

/// The store after one imported note: a new name is appended; a known one has
/// its content and description replaced when `replace` holds, else it stays.
pub open spec fn merge_one(s: Seq<NoteView>, n: NoteView, replace: bool) -> Seq<NoteView> {
    if has_name(s, n.name) {
        if replace {
            with_description(
                with_content(s, position(s, n.name), n.content),
                position(s, n.name),
                n.description,
            )
        } else {
            s
        }
    } else {
        s.push(n)
    }
}

/// What happens to one imported note.
pub open spec fn import_outcome(s: Seq<NoteView>, n: NoteView, replace: bool) -> ImportOutcome {
    if has_name(s, n.name) {
        if replace {
            ImportOutcome::Replaced
        } else {
            ImportOutcome::Skipped
        }
    } else {
        ImportOutcome::Added
    }
}

/// The store after importing `ns` one after another.
pub open spec fn merge_all(s: Seq<NoteView>, ns: Seq<NoteView>, replace: bool) -> Seq<NoteView>
    decreases ns.len(),
{
    if ns.len() == 0 {
        s
    } else {
        merge_one(merge_all(s, ns.drop_last(), replace), ns.last(), replace)
    }
}

/// The names of the notes of `s` that contain `pattern`, in order.
pub open spec fn matching_names(s: Seq<NoteView>, pattern: Seq<char>) -> Seq<Seq<char>>
    decreases s.len(),
{
    if s.len() == 0 {
        Seq::empty()
    } else if contains_seq(s.last().name, pattern) {
        matching_names(s.drop_last(), pattern).push(s.last().name)
    } else {
        matching_names(s.drop_last(), pattern)
    }
}

/// The file a note's content is saved to when no file name is given.
pub open spec fn default_file_name(name: Seq<char>) -> Seq<char> {
    name + seq!['.', 'm', 'd']
}

fn is_empty_text(s: &str) -> (r: bool)
    ensures
        r == (s@.len() == 0),
{
    s.unicode_len() == 0
}

proof fn lemma_position_kept(s: Seq<NoteView>, t: Seq<NoteView>, name: Seq<char>)
    requires
        unique_names(s),
        has_name(s, name),
        t.len() == s.len(),
        forall|i: int| 0 <= i < s.len() ==> #[trigger] t[i].name == s[i].name,
    ensures
        unique_names(t),
        has_name(t, name),
        position(t, name) == position(s, name),
{
    let p = position(s, name);
    assert(t[p].name == s[p].name);
    lemma_position(t, p);
}

pub struct Actions;

impl Actions {
    /// Store a new note. An empty `name` is replaced by the name the
    /// configured template generates; on success `name` holds the name used.
    pub fn take(
        database: &mut Database,
        config: &Config,
        content: &str,
        name: &mut String,
        desc: &str,
    ) -> (r: Result<(), ActionError>)
        requires
            old(database).wf(),
        ensures
            final(database).wf(),
            match r {
                Ok(()) => content@.len() > 0 && (old(name)@.len() == 0 ==> contains_seq(
                    config@.name_template,
                    marker(),
                )) && final(name)@ == chosen_name(
                    old(database)@,
                    config@.name_template,
                    old(name)@,
                ) && !has_name(old(database)@, final(name)@) && final(database)@ == old(
                    database,
                )@.push(NoteView { name: final(name)@, content: content@, description: desc@ }),
                Err(e) => *final(database) == *old(database) && *final(name) == *old(name) && (e
                    == ActionError::EmptyContent && content@.len() == 0 || e
                    == ActionError::BadTemplate && content@.len() > 0 && old(name)@.len() == 0
                    && !contains_seq(config@.name_template, marker()) || e
                    == ActionError::DuplicateName && content@.len() > 0 && (old(name)@.len() == 0
                    ==> contains_seq(config@.name_template, marker())) && has_name(
                    old(database)@,
                    chosen_name(old(database)@, config@.name_template, old(name)@),
                )),
            },
    {
        if is_empty_text(content) {
            return Err(ActionError::EmptyContent);
        }
        let chosen: String = if is_empty_text(name.as_str()) {
            let template = config.get_template();
            match database.generate_name(template.as_str()) {
                Ok(generated) => generated,
                Err(_) => {
                    return Err(ActionError::BadTemplate);
                },
            }
        } else {
            name.clone()
        };
        if database.note_exists(chosen.as_str()) {
            return Err(ActionError::DuplicateName);
        }
        database.add_note(Note::new(chosen.as_str(), content, desc));
        *name = chosen;
        Ok(())
    }

    /// Store a file's content as a new note. An empty `name` is replaced by
    /// `file_stem`, the file's name without its extension.
    pub fn add(database: &mut Database, name: &mut String, file_stem: &str, file_content: &str) -> (r:
        Result<(), ActionError>)
        requires
            old(database).wf(),
        ensures
            final(database).wf(),
            match r {
                Ok(()) => final(name)@ == (if old(name)@.len() == 0 {
                    file_stem@
                } else {
                    old(name)@
                }) && !has_name(old(database)@, final(name)@) && final(database)@ == old(
                    database,
                )@.push(
                    NoteView { name: final(name)@, content: file_content@, description: Seq::empty() },
                ),
                Err(e) => e == ActionError::DuplicateName && *final(database) == *old(database)
                    && *final(name) == *old(name) && has_name(
                    old(database)@,
                    if old(name)@.len() == 0 {
                        file_stem@
                    } else {
                        old(name)@
                    },
                ),
            },
    {
        let chosen: String = if is_empty_text(name.as_str()) {
            String::from_str(file_stem)
        } else {
            name.clone()
        };
        if database.note_exists(chosen.as_str()) {
            return Err(ActionError::DuplicateName);
        }
        let empty = String::new();
        database.add_note(Note::new(chosen.as_str(), file_content, empty.as_str()));
        *name = chosen;
        Ok(())
    }

    /// Set the description of the note called `name`.
    pub fn desc(database: &mut Database, name: &str, desc: &str) -> (r: Result<(), ActionError>)
        requires
            old(database).wf(),
        ensures
            final(database).wf(),
            match r {
                Ok(()) => name@.len() > 0 && has_name(old(database)@, name@) && final(database)@
                    == with_description(old(database)@, position(old(database)@, name@), desc@),
                Err(e) => *final(database) == *old(database) && (e == ActionError::EmptyName
                    && name@.len() == 0 || e == ActionError::NoteNotFound && name@.len() > 0
                    && !has_name(old(database)@, name@)),
            },
    {
        if is_empty_text(name) {
            return Err(ActionError::EmptyName);
        }
        match database.set_note_description(name, desc) {
            Ok(()) => Ok(()),
            Err(_) => Err(ActionError::NoteNotFound),
        }
    }

    /// Give the note called `old_name` the name `new_name`.
    pub fn rename(database: &mut Database, old_name: &str, new_name: &str) -> (r: Result<
        (),
        ActionError,
    >)
        requires
            old(database).wf(),
        ensures
            final(database).wf(),
            match r {
                Ok(()) => has_name(old(database)@, old_name@) && (old_name@ == new_name@
                    || !has_name(old(database)@, new_name@)) && final(database)@ == with_name(
                    old(database)@,
                    position(old(database)@, old_name@),
                    new_name@,
                ),
                Err(e) => *final(database) == *old(database) && (e == ActionError::NoteNotFound
                    && !has_name(old(database)@, old_name@) || e == ActionError::DuplicateName
                    && has_name(old(database)@, old_name@) && old_name@ != new_name@ && has_name(
                    old(database)@,
                    new_name@,
                )),
            },
    {
        match database.set_note_name(old_name, new_name) {
            Ok(()) => Ok(()),
            Err(DatabaseError::DuplicateName) => Err(ActionError::DuplicateName),
            Err(_) => Err(ActionError::NoteNotFound),
        }
    }

    /// Show the configured editor when `editor` is empty, else set it.
    pub fn editor(config: &mut Config, editor: &str) -> (r: Result<SettingOutcome, ActionError>)
        ensures
            match r {
                Ok(SettingOutcome::Current(current)) => editor@.len() == 0 && current@
                    == old(config)@.editor && current@.len() > 0 && *final(config) == *old(config),
                Ok(SettingOutcome::Changed) => editor@.len() > 0 && final(config)@ == (
                config::ConfigView { editor: editor@, ..old(config)@ }),
                Err(e) => e == ActionError::EditorNotSet && editor@.len() == 0
                    && old(config)@.editor.len() == 0 && *final(config) == *old(config),
            },
    {
        if is_empty_text(editor) {
            let current = config.get_editor();
            if is_empty_text(current.as_str()) {
                return Err(ActionError::EditorNotSet);
            }
            Ok(SettingOutcome::Current(current))
        } else {
            config.set_editor(editor);
            Ok(SettingOutcome::Changed)
        }
    }

    /// Show the configured name template when `template` is empty, else set
    /// it; a template must hold the `&i` marker.
    pub fn template(config: &mut Config, template: &str) -> (r: Result<SettingOutcome, ActionError>)
        ensures
            match r {
                Ok(SettingOutcome::Current(current)) => template@.len() == 0 && current@
                    == old(config)@.name_template && current@.len() > 0 && *final(config) == *old(
                    config,
                ),
                Ok(SettingOutcome::Changed) => contains_seq(template@, marker()) && final(config)@
                    == (config::ConfigView { name_template: template@, ..old(config)@ }),
                Err(e) => *final(config) == *old(config) && (e == ActionError::TemplateNotSet
                    && template@.len() == 0 && old(config)@.name_template.len() == 0 || e
                    == ActionError::BadTemplate && template@.len() > 0 && !contains_seq(
                    template@,
                    marker(),
                )),
            },
    {
        if is_empty_text(template) {
            let current = config.get_template();
            if is_empty_text(current.as_str()) {
                return Err(ActionError::TemplateNotSet);
            }
            return Ok(SettingOutcome::Current(current));
        }
        let mark = "&i";
        proof {
            reveal_strlit("&i");
        }
        assert(mark@ =~= marker());
        if !contains(template, mark) {
            return Err(ActionError::BadTemplate);
        }
        config.set_template(template);
        Ok(SettingOutcome::Changed)
    }

    /// All notes, in order; refused when there are none.
    pub fn list(database: &Database) -> (r: Result<Vec<Note>, ActionError>)
        ensures
            match r {
                Ok(notes) => database@.len() > 0 && notes@.map_values(|n: Note| n@) == database@,
                Err(e) => e == ActionError::EmptyStore && database@.len() == 0,
            },
    {
        if database.notes_count() == 0 {
            return Err(ActionError::EmptyStore);
        }
        Ok(database.get_notes())
    }

    /// The names of the notes whose name contains `pattern`, in order.
    pub fn search(database: &Database, pattern: &str) -> (r: Vec<String>)
        ensures
            r@.map_values(|s: String| s@) == matching_names(database@, pattern@),
    {
        let notes = database.get_notes();
        let ghost s = database@;
        let n = notes.len();
        let mut found: Vec<String> = Vec::new();
        let mut i: usize = 0;
        assert(s.subrange(0, 0) =~= Seq::<NoteView>::empty());
        while i < n
            invariant
                n == s.len(),
                notes@.map_values(|n: Note| n@) == s,
                i <= n,
                found@.map_values(|s: String| s@) == matching_names(s.subrange(0, i as int), pattern@),
            decreases n - i,
        {
            let ghost before = found@;
            assert(s.subrange(0, i + 1).drop_last() =~= s.subrange(0, i as int));
            assert(s.subrange(0, i + 1).last() == s[i as int]);
            assert(notes@[i as int]@ == s[i as int]);
            if contains(notes[i].name.as_str(), pattern) {
                found.push(notes[i].name.clone());
                assert(found@.map_values(|s: String| s@) =~= before.map_values(|s: String| s@).push(
                    s[i as int].name,
                ));
            }
            i = i + 1;
        }
        assert(s.subrange(0, n as int) =~= s);
        found
    }

    /// The content of the note called `name`, and the file to save it to:
    /// `filename`, or the note's name with `.md` appended when it is empty.
    pub fn save(database: &Database, name: &str, filename: &mut String) -> (r: Result<
        String,
        ActionError,
    >)
        requires
            database.wf(),
        ensures
            match r {
                Ok(content) => name@.len() > 0 && has_name(database@, name@) && content@
                    == database@[position(database@, name@)].content && final(filename)@ == (if old(
                    filename,
                )@.len() == 0 {
                    default_file_name(name@)
                } else {
                    old(filename)@
                }),
                Err(e) => *final(filename) == *old(filename) && (e == ActionError::EmptyName
                    && name@.len() == 0 || e == ActionError::NoteNotFound && name@.len() > 0
                    && !has_name(database@, name@)),
            },
    {
        if is_empty_text(name) {
            return Err(ActionError::EmptyName);
        }
        let note = match database.get_note(name) {
            Ok(note) => note,
            Err(_) => {
                return Err(ActionError::NoteNotFound);
            },
        };
        if is_empty_text(filename.as_str()) {
            let ext = ".md";
            proof {
                reveal_strlit(".md");
            }
            let mut target = String::from_str(name);
            target.append(ext);
            assert(target@ =~= default_file_name(name@));
            *filename = target;
        }
        Ok(note.content)
    }

    /// The content of the note called `name`.
    pub fn get(database: &Database, name: &str) -> (r: Result<String, ActionError>)
        requires
            database.wf(),
        ensures
            match r {
                Ok(content) => name@.len() > 0 && has_name(database@, name@) && content@
                    == database@[position(database@, name@)].content,
                Err(e) => e == ActionError::EmptyName && name@.len() == 0 || e
                    == ActionError::NoteNotFound && name@.len() > 0 && !has_name(database@, name@),
            },
    {
        if is_empty_text(name) {
            return Err(ActionError::EmptyName);
        }
        match database.get_note(name) {
            Ok(note) => Ok(note.content),
            Err(_) => Err(ActionError::NoteNotFound),
        }
    }

    /// Remove the note called `name`.
    pub fn rm(database: &mut Database, name: &str) -> (r: Result<(), ActionError>)
        requires
            old(database).wf(),
        ensures
            final(database).wf(),
            match r {
                Ok(()) => name@.len() > 0 && has_name(old(database)@, name@) && final(database)@
                    == old(database)@.remove(position(old(database)@, name@)),
                Err(e) => *final(database) == *old(database) && (e == ActionError::EmptyName
                    && name@.len() == 0 || e == ActionError::NoteNotFound && name@.len() > 0
                    && !has_name(old(database)@, name@)),
            },
    {
        if is_empty_text(name) {
            return Err(ActionError::EmptyName);
        }
        match database.remove_note(name) {
            Ok(()) => Ok(()),
            Err(_) => Err(ActionError::NoteNotFound),
        }
    }

    /// What the external editor needs to edit the note called `name`: the
    /// configured editor and the note's content.
    pub fn edit(database: &Database, config: &Config, name: &str) -> (r: Result<
        EditSession,
        ActionError,
    >)
        requires
            database.wf(),
        ensures
            match r {
                Ok(session) => name@.len() > 0 && has_name(database@, name@)
                    && config@.editor.len() > 0 && session.editor@ == config@.editor
                    && session.content@ == database@[position(database@, name@)].content,
                Err(e) => e == ActionError::EmptyName && name@.len() == 0 || e
                    == ActionError::NoteNotFound && name@.len() > 0 && !has_name(database@, name@)
                    || e == ActionError::EditorNotSet && name@.len() > 0 && has_name(
                    database@,
                    name@,
                ) && config@.editor.len() == 0,
            },
    {
        if is_empty_text(name) {
            return Err(ActionError::EmptyName);
        }
        let note = match database.get_note(name) {
            Ok(note) => note,
            Err(_) => {
                return Err(ActionError::NoteNotFound);
            },
        };
        let editor = config.get_editor();
        if is_empty_text(editor.as_str()) {
            return Err(ActionError::EditorNotSet);
        }
        Ok(EditSession { editor, content: note.content })
    }

    /// Record what the editor left: the edited text on success, nothing when
    /// the editor failed.
    pub fn finish_edit(database: &mut Database, name: &str, outcome: Result<String, ProcessError>) -> (r:
        Result<(), ActionError>)
        requires
            old(database).wf(),
        ensures
            final(database).wf(),
            match outcome {
                Ok(text) => match r {
                    Ok(()) => has_name(old(database)@, name@) && final(database)@ == with_content(
                        old(database)@,
                        position(old(database)@, name@),
                        text@,
                    ),
                    Err(e) => e == ActionError::NoteNotFound && !has_name(old(database)@, name@)
                        && *final(database) == *old(database),
                },
                Err(p) => r == Err::<(), ActionError>(ActionError::EditorFailed(p))
                    && *final(database) == *old(database),
            },
    {
        match outcome {
            Ok(text) => match database.set_note_content(name, text.as_str()) {
                Ok(()) => Ok(()),
                Err(_) => Err(ActionError::NoteNotFound),
            },
            Err(p) => Err(ActionError::EditorFailed(p)),
        }
    }

    /// Import one note: a new name is added; a known one gets the imported
    /// content and description when `replace` holds, else it is skipped.
    pub fn import_note(database: &mut Database, note: &Note, replace: bool) -> (r: ImportOutcome)
        requires
            old(database).wf(),
        ensures
            final(database).wf(),
            final(database)@ == merge_one(old(database)@, note@, replace),
            r == import_outcome(old(database)@, note@, replace),
    {
        if database.note_exists(note.name.as_str()) {
            if replace {
                let ghost s0 = database@;
                let _ = database.set_note_content(note.name.as_str(), note.content.as_str());
                proof {
                    lemma_position_kept(s0, database@, note.name@);
                }
                let _ = database.set_note_description(
                    note.name.as_str(),
                    note.description.as_str(),
                );
                ImportOutcome::Replaced
            } else {
                ImportOutcome::Skipped
            }
        } else {
            database.add_note(note.duplicate());
            ImportOutcome::Added
        }
    }

    /// Import `incoming` one note after another, with the same policy for
    /// every name already stored.
    pub fn import(database: &mut Database, incoming: &Vec<Note>, replace: bool) -> (r: Vec<
        ImportOutcome,
    >)
        requires
            old(database).wf(),
        ensures
            final(database).wf(),
            final(database)@ == merge_all(
                old(database)@,
                incoming@.map_values(|n: Note| n@),
                replace,
            ),
            r@.len() == incoming@.len(),
            forall|i: int|
                0 <= i < r@.len() ==> r@[i] == import_outcome(
                    merge_all(
                        old(database)@,
                        incoming@.map_values(|n: Note| n@).subrange(0, i),
                        replace,
                    ),
                    incoming@[i]@,
                    replace,
                ),
    {
        let ghost ns = incoming@.map_values(|n: Note| n@);
        let n = incoming.len();
        let mut outcomes: Vec<ImportOutcome> = Vec::new();
        let mut i: usize = 0;
        assert(ns.subrange(0, 0) =~= Seq::<NoteView>::empty());
        while i < n
            invariant
                n == incoming@.len(),
                ns == incoming@.map_values(|n: Note| n@),
                i <= n,
                database.wf(),
                database@ == merge_all(old(database)@, ns.subrange(0, i as int), replace),
                outcomes@.len() == i,
                forall|k: int|
                    0 <= k < i ==> outcomes@[k] == import_outcome(
                        merge_all(old(database)@, ns.subrange(0, k), replace),
                        incoming@[k]@,
                        replace,
                    ),
            decreases n - i,
        {
            assert(ns.subrange(0, i + 1).drop_last() =~= ns.subrange(0, i as int));
            assert(ns.subrange(0, i + 1).last() == incoming@[i as int]@);
            let outcome = Actions::import_note(database, &incoming[i], replace);
            outcomes.push(outcome);
            i = i + 1;
        }
        assert(ns.subrange(0, n as int) =~= ns);
        outcomes
    }
}

} // verus!
