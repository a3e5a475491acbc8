use vstd::prelude::*;

verus! {

/// The one record that the store writes to its file and reads back.
#[derive(Clone, Debug)]
pub struct Note {
    pub id: u32,
    pub title: String,
    pub content: String,
}

impl Note {
    pub fn new(id: u32, title: String, content: String) -> (r: Note)
        ensures
            r.id == id,
            r.title@ == title@,
            r.content@ == content@,
    {
        Note { id, title, content }
    }
}

} // verus!
