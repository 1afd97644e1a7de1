//! The leaf data of a conversation: role-tagged transcript entries.

use vstd::prelude::*;

verus! {

/// The role tag of one transcript line. Fixed, closed set.
#[derive(Clone, Copy, PartialEq, Eq, Structural, Debug)]
pub enum Role {
    System,
    User,
    Assistant,
}

/// One role-tagged line of conversation text, immutable once created.
#[derive(Debug, PartialEq)]
pub struct Entry {
    pub role: Role,
    pub content: String,
}

/// The mathematical value of an `Entry`: its role and its text.
#[verifier::ext_equal]
pub struct EntryV {
    pub role: Role,
    pub content: Seq<char>,
}

impl View for Entry {
    type V = EntryV;

    open spec fn view(&self) -> EntryV {
        EntryV { role: self.role, content: self.content@ }
    }
}

impl Clone for Entry {
    fn clone(&self) -> (r: Self)
        ensures
            r == *self,
    {
        Entry { role: self.role, content: self.content.clone() }
    }
}

/// The abstract entry holding a user's message text.
pub open spec fn user_entry(content: Seq<char>) -> EntryV {
    EntryV { role: Role::User, content }
}

/// The abstract entry holding the model's reply text.
pub open spec fn assistant_entry(content: Seq<char>) -> EntryV {
    EntryV { role: Role::Assistant, content }
}

/// The abstract value of a sequence of concrete entries.
pub open spec fn entries_view(s: Seq<Entry>) -> Seq<EntryV> {
    s.map_values(|e: Entry| e@)
}

} // verus!
