//! The note store: notes in insertion order, no two with the same name.
use vstd::prelude::*;
use crate::note::{Note, NoteView};
use crate::text::{contains, contains_seq, decimal, decimal_string, fill_marker, fill_template, marker};

verus! {

/// No two notes of `s` share a name.
pub open spec fn unique_names(s: Seq<NoteView>) -> bool {
    forall|i: int, j: int|
        0 <= i < s.len() && 0 <= j < s.len() && i != j ==> s[i].name != s[j].name
}

/// Some note of `s` is called `name`.
pub open spec fn has_name(s: Seq<NoteView>, name: Seq<char>) -> bool {
    exists|i: int| 0 <= i < s.len() && s[i].name == name
}

/// The index of the note of `s` called `name` (meaningful when there is one).
pub open spec fn position(s: Seq<NoteView>, name: Seq<char>) -> int {
    choose|i: int| 0 <= i < s.len() && s[i].name == name
}

/// The name that a template gives the next note of a store of `count` notes.
pub open spec fn generated_name(template: Seq<char>, count: nat) -> Seq<char> {
    fill_marker(template, decimal(count + 1))
}

/// `s` with the note at `i` given another name.
pub open spec fn with_name(s: Seq<NoteView>, i: int, name: Seq<char>) -> Seq<NoteView> {
    s.update(i, NoteView { name, ..s[i] })
}

/// `s` with the note at `i` given another content.
pub open spec fn with_content(s: Seq<NoteView>, i: int, content: Seq<char>) -> Seq<NoteView> {
    s.update(i, NoteView { content, ..s[i] })
}

/// `s` with the note at `i` given another description.
pub open spec fn with_description(s: Seq<NoteView>, i: int, description: Seq<char>) -> Seq<
    NoteView,
> {
    s.update(i, NoteView { description, ..s[i] })
}

/// The note at a given index is the only one with its name.
pub proof fn lemma_position(s: Seq<NoteView>, i: int)
    requires
        unique_names(s),
        0 <= i < s.len(),
    ensures
        has_name(s, s[i].name),
        position(s, s[i].name) == i,
{
    assert(0 <= i < s.len() && s[i].name == s[i].name);
}

/// A note found right after it was inserted is the inserted note, field for
/// field: inserting `n` into a well-formed store that lacks its name and then
/// looking up `n`'s name yields `n`.
pub proof fn lemma_insert_then_find(s: Seq<NoteView>, n: NoteView)
    requires
        unique_names(s),
        !has_name(s, n.name),
    ensures
        unique_names(s.push(n)),
        has_name(s.push(n), n.name),
        s.push(n)[position(s.push(n), n.name)] == n,
{
    let t = s.push(n);
    assert forall|i: int, j: int|
        0 <= i < t.len() && 0 <= j < t.len() && i != j implies t[i].name != t[j].name by {
        if i == s.len() as int {
            assert(!(0 <= j < s.len() && s[j].name == n.name));
        } else if j == s.len() as int {
            assert(!(0 <= i < s.len() && s[i].name == n.name));
        } else {
            assert(t[i] == s[i] && t[j] == s[j]);
        }
    }
    lemma_position(t, s.len() as int);
}

/// A name exists right after a note of that name is inserted, and no longer
/// exists right after the note of that name is removed.
pub proof fn lemma_exists_after_insert_and_remove(s: Seq<NoteView>, n: NoteView, name: Seq<char>)
    requires
        unique_names(s),
    ensures
        has_name(s.push(n), n.name),
        has_name(s, name) ==> !has_name(s.remove(position(s, name)), name),
{
    assert(s.push(n)[s.len() as int] == n);
    if has_name(s, name) {
        let p = position(s, name);
        let t = s.remove(p);
        if has_name(t, name) {
            let k = choose|k: int| 0 <= k < t.len() && t[k].name == name;
            let o = if k < p { k } else { k + 1 };
            assert(s[o] == t[k]);
        }
    }
}

/// Listing a well-formed store's notes and building a store from that list
/// gives back the same notes in the same order: the list has unique names, so
/// it is accepted, and it holds exactly the store's notes.
pub proof fn lemma_notes_round_trip(s: Seq<NoteView>, listed: Seq<Note>)
    requires
        unique_names(s),
        listed.map_values(|n: Note| n@) == s,
    ensures
        unique_names(listed.map_values(|n: Note| n@)),
        listed.map_values(|n: Note| n@) == s,
{
}

/// Errors of the store's lookups and of name generation.
#[derive(Debug, PartialEq, Eq)]
pub enum DatabaseError {
    NoteNotFound,
    BadTemplate,
    DuplicateName,
}

/// The collection of notes, in insertion order.
pub struct Database {
    notes: Vec<Note>,
}

impl View for Database {
    type V = Seq<NoteView>;

    closed spec fn view(&self) -> Seq<NoteView> {
        self.notes@.map_values(|n: Note| n@)
    }
}

impl Default for Database {
    fn default() -> (r: Database)
        ensures
            r@ == Seq::<NoteView>::empty(),
            r.wf(),
    {
        Database::new()
    }
}

impl Database {
    /// The store's invariant: names are unique.
    pub open spec fn wf(&self) -> bool {
        unique_names(self@)
    }

    /// An empty store.
    pub fn new() -> (r: Database)
        ensures
            r@ == Seq::<NoteView>::empty(),
            r.wf(),
    {
        let r = Database { notes: Vec::new() };
        assert(r@ =~= Seq::<NoteView>::empty());
        r
    }

    /// A store holding `notes` in their order, refused when two share a name.
    pub fn from_notes(notes: Vec<Note>) -> (r: Result<Database, DatabaseError>)
        ensures
            match r {
                Ok(db) => db.wf() && db@ == notes@.map_values(|n: Note| n@),
                Err(e) => e == DatabaseError::DuplicateName && !unique_names(
                    notes@.map_values(|n: Note| n@),
                ),
            },
    {
        let ghost s = notes@.map_values(|n: Note| n@);
        let n = notes.len();
        let mut i: usize = 0;
        while i < n
            invariant
                n == notes@.len(),
                s == notes@.map_values(|n: Note| n@),
                i <= n,
                forall|a: int, b: int| 0 <= a < i && 0 <= b < n && a != b ==> s[a].name != s[b].name,
            decreases n - i,
        {
            let mut j: usize = 0;
            while j < n
                invariant
                    n == notes@.len(),
                    s == notes@.map_values(|n: Note| n@),
                    i < n,
                    j <= n,
                    forall|a: int, b: int|
                        0 <= a < i && 0 <= b < n && a != b ==> s[a].name != s[b].name,
                    forall|b: int| 0 <= b < j && b != i ==> s[i as int].name != s[b].name,
                decreases n - j,
            {
                if j != i && notes[i].name == notes[j].name {
                    assert(s[i as int].name == s[j as int].name);
                    return Err(DatabaseError::DuplicateName);
                }
                j = j + 1;
            }
            i = i + 1;
        }
        let db = Database { notes };
        assert(db@ == s);
        Ok(db)
    }

    /// Whether a note called `name` is stored.
    pub fn note_exists(&self, name: &str) -> (r: bool)
        ensures
            r == has_name(self@, name@),
    {
        match self.get_note_index(name) {
            Ok(_) => true,
            Err(_) => false,
        }
    }

    /// The index of the first note called `name`.
    pub fn get_note_index(&self, name: &str) -> (r: Result<usize, DatabaseError>)
        ensures
            match r {
                Ok(i) => i < self@.len() && self@[i as int].name == name@ && (self.wf() ==> i
                    == position(self@, name@)),
                Err(e) => e == DatabaseError::NoteNotFound && !has_name(self@, name@),
            },
    {
        let key = String::from_str(name);
        let n = self.notes.len();
        let mut i: usize = 0;
        while i < n
            invariant
                n == self@.len(),
                key@ == name@,
                i <= n,
                forall|k: int| 0 <= k < i ==> self@[k].name != name@,
            decreases n - i,
        {
            if self.notes[i].name == key {
                proof {
                    if self.wf() {
                        lemma_position(self@, i as int);
                    }
                }
                return Ok(i);
            }
            i = i + 1;
        }
        Err(DatabaseError::NoteNotFound)
    }

    /// A copy of the note called `name`.
    pub fn get_note(&self, name: &str) -> (r: Result<Note, DatabaseError>)
        requires
            self.wf(),
        ensures
            match r {
                Ok(note) => has_name(self@, name@) && note@ == self@[position(self@, name@)],
                Err(e) => e == DatabaseError::NoteNotFound && !has_name(self@, name@),
            },
    {
        match self.get_note_index(name) {
            Ok(index) => Ok(self.notes[index].duplicate()),
            Err(e) => Err(e),
        }
    }

    /// A copy of all notes, in order.
    pub fn get_notes(&self) -> (r: Vec<Note>)
        ensures
            r@.map_values(|n: Note| n@) == self@,
    {
        let n = self.notes.len();
        let mut out: Vec<Note> = Vec::new();
        let mut i: usize = 0;
        while i < n
            invariant
                n == self.notes@.len(),
                i <= n,
                out@.len() == i,
                forall|k: int| 0 <= k < i ==> out@[k] == self.notes@[k],
            decreases n - i,
        {
            out.push(self.notes[i].duplicate());
            i = i + 1;
        }
        assert(out@ =~= self.notes@);
        out
    }

    /// How many notes are stored.
    pub fn notes_count(&self) -> (r: usize)
        ensures
            r == self@.len(),
    {
        self.notes.len()
    }

    /// Append `new_note`; its name must not be taken.
    pub fn add_note(&mut self, new_note: Note)
        requires
            old(self).wf(),
            !has_name(old(self)@, new_note.name@),
        ensures
            final(self).wf(),
            final(self)@ == old(self)@.push(new_note@),
    {
        let ghost note_view = new_note@;
        self.notes.push(new_note);
        assert(self@ =~= old(self)@.push(note_view));
        assert forall|i: int, j: int|
            0 <= i < self@.len() && 0 <= j < self@.len() && i != j implies self@[i].name
            != self@[j].name by {
            if i == old(self)@.len() as int {
                assert(old(self)@[j].name == self@[j].name);
            } else if j == old(self)@.len() as int {
                assert(old(self)@[i].name == self@[i].name);
            }
        }
    }

    /// Remove the note called `name`.
    pub fn remove_note(&mut self, name: &str) -> (r: Result<(), DatabaseError>)
        requires
            old(self).wf(),
        ensures
            final(self).wf(),
            match r {
                Ok(()) => has_name(old(self)@, name@) && final(self)@ == old(self)@.remove(
                    position(old(self)@, name@),
                ),
                Err(e) => e == DatabaseError::NoteNotFound && !has_name(old(self)@, name@)
                    && *final(self) == *old(self),
            },
    {
        match self.get_note_index(name) {
            Ok(index) => {
                self.notes.remove(index);
                assert(self@ =~= old(self)@.remove(index as int));
                assert forall|i: int, j: int|
                    0 <= i < self@.len() && 0 <= j < self@.len() && i != j implies self@[i].name
                    != self@[j].name by {
                    let oi = if i < index { i } else { i + 1 };
                    let oj = if j < index { j } else { j + 1 };
                    assert(self@[i] == old(self)@[oi]);
                    assert(self@[j] == old(self)@[oj]);
                }
                Ok(())
            },
            Err(e) => Err(e),
        }
    }

    /// Give the note called `note_name` the name `new_name`; refused when
    /// another note already has that name.
    pub fn set_note_name(&mut self, note_name: &str, new_name: &str) -> (r: Result<
        (),
        DatabaseError,
    >)
        requires
            old(self).wf(),
        ensures
            final(self).wf(),
            match r {
                Ok(()) => has_name(old(self)@, note_name@) && (note_name@ == new_name@ || !has_name(
                    old(self)@,
                    new_name@,
                )) && final(self)@ == with_name(
                    old(self)@,
                    position(old(self)@, note_name@),
                    new_name@,
                ),
                Err(e) => *final(self) == *old(self) && (e == DatabaseError::NoteNotFound && !has_name(
                    old(self)@,
                    note_name@,
                ) || e == DatabaseError::DuplicateName && has_name(old(self)@, note_name@)
                    && note_name@ != new_name@ && has_name(old(self)@, new_name@)),
            },
    {
        match self.get_note_index(note_name) {
            Ok(index) => {
                let same = String::from_str(note_name) == String::from_str(new_name);
                if !same && self.note_exists(new_name) {
                    return Err(DatabaseError::DuplicateName);
                }
                self.notes[index].name = String::from_str(new_name);
                assert(self@ =~= with_name(old(self)@, index as int, new_name@));
                assert forall|i: int, j: int|
                    0 <= i < self@.len() && 0 <= j < self@.len() && i != j implies self@[i].name
                    != self@[j].name by {
                    if i == index as int {
                        if note_name@ != new_name@ {
                            assert(!(0 <= j < old(self)@.len() && old(self)@[j].name == new_name@));
                        }
                    } else if j == index as int {
                        if note_name@ != new_name@ {
                            assert(!(0 <= i < old(self)@.len() && old(self)@[i].name == new_name@));
                        }
                    }
                }
                Ok(())
            },
            Err(e) => Err(e),
        }
    }

    /// Replace the content of the note called `note_name`.
    pub fn set_note_content(&mut self, note_name: &str, new_content: &str) -> (r: Result<
        (),
        DatabaseError,
    >)
        requires
            old(self).wf(),
        ensures
            final(self).wf(),
            match r {
                Ok(()) => has_name(old(self)@, note_name@) && final(self)@ == with_content(
                    old(self)@,
                    position(old(self)@, note_name@),
                    new_content@,
                ),
                Err(e) => e == DatabaseError::NoteNotFound && !has_name(old(self)@, note_name@)
                    && *final(self) == *old(self),
            },
    {
        match self.get_note_index(note_name) {
            Ok(index) => {
                self.notes[index].content = String::from_str(new_content);
                assert(self@ =~= with_content(old(self)@, index as int, new_content@));
                Ok(())
            },
            Err(e) => Err(e),
        }
    }

    /// Replace the description of the note called `note_name`.
    pub fn set_note_description(&mut self, note_name: &str, new_desc: &str) -> (r: Result<
        (),
        DatabaseError,
    >)
        requires
            old(self).wf(),
        ensures
            final(self).wf(),
            match r {
                Ok(()) => has_name(old(self)@, note_name@) && final(self)@ == with_description(
                    old(self)@,
                    position(old(self)@, note_name@),
                    new_desc@,
                ),
                Err(e) => e == DatabaseError::NoteNotFound && !has_name(old(self)@, note_name@)
                    && *final(self) == *old(self),
            },
    {
        match self.get_note_index(note_name) {
            Ok(index) => {
                self.notes[index].description = String::from_str(new_desc);
                assert(self@ =~= with_description(old(self)@, index as int, new_desc@));
                Ok(())
            },
            Err(e) => Err(e),
        }
    }

    /// The name `template` gives the next note: its `&i` markers replaced by
    /// the number of stored notes plus one.
    pub fn generate_name(&self, template: &str) -> (r: Result<String, DatabaseError>)
        ensures
            match r {
                Ok(name) => contains_seq(template@, marker()) && name@ == generated_name(
                    template@,
                    self@.len(),
                ),
                Err(e) => e == DatabaseError::BadTemplate && !contains_seq(template@, marker()),
            },
    {
        let mark = "&i";
        proof {
            reveal_strlit("&i");
        }
        assert(mark@ =~= marker());
        if !contains(template, mark) {
            return Err(DatabaseError::BadTemplate);
        }
        let number = decimal_string(self.notes.len() as u128 + 1);
        Ok(fill_template(template, number.as_str()))
    }
}

} // verus!
