//! A single stored note.
use vstd::prelude::*;

verus! {

/// What a note holds, as character sequences.
pub struct NoteView {
    pub name: Seq<char>,
    pub content: Seq<char>,
    pub description: Seq<char>,
}

/// A named text note with an optional description (empty when absent).
#[derive(Clone, Debug, PartialEq, Eq)]
pub struct Note {
    pub name: String,
    pub content: String,
    pub description: String,
}

impl View for Note {
    type V = NoteView;

    open spec fn view(&self) -> NoteView {
        NoteView { name: self.name@, content: self.content@, description: self.description@ }
    }
}

impl Note {
    /// A note made of the three given texts.
    pub fn new(name: &str, content: &str, description: &str) -> (r: Note)
        ensures
            r@ == (NoteView { name: name@, content: content@, description: description@ }),
    {
        Note {
            name: String::from_str(name),
            content: String::from_str(content),
            description: String::from_str(description),
        }
    }

    /// A field-for-field copy of this note.
    pub fn duplicate(&self) -> (r: Note)
        ensures
            r == *self,
    {
        Note {
            name: self.name.clone(),
            content: self.content.clone(),
            description: self.description.clone(),
        }
    }
}

} // verus!
