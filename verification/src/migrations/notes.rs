//! What a migration reports about the places it changed.

use vstd::prelude::*;

verus! {

/// A change made by a migration: where, and what was moved.
#[derive(Debug, Clone, PartialEq, Eq)]
pub struct MigrationNote {
    pub path: String,
    pub message: String,
}

impl View for MigrationNote {
    type V = (Seq<char>, Seq<char>);

    open spec fn view(&self) -> (Seq<char>, Seq<char>) {
        (self.path@, self.message@)
    }
}

/// The paths held by a list of strings.
pub open spec fn paths_view(v: Seq<String>) -> Seq<Seq<char>> {
    v.map_values(|s: String| s@)
}

/// The `(path, message)` pairs held by a list of notes.
pub open spec fn notes_view(v: Seq<MigrationNote>) -> Seq<(Seq<char>, Seq<char>)> {
    v.map_values(|n: MigrationNote| n@)
}

/// Moves the paths of `src` to the end of `dst`.
pub fn append_paths(dst: &mut Vec<String>, src: Vec<String>)
    ensures
        paths_view(final(dst)@) == paths_view(old(dst)@) + paths_view(src@),
{
    let mut src = src;
    let ghost s0 = src@;
    dst.append(&mut src);
    assert(paths_view(dst@) =~= paths_view(old(dst)@) + paths_view(s0));
}

/// Moves the notes of `src` to the end of `dst`.
pub fn append_notes(dst: &mut Vec<MigrationNote>, src: Vec<MigrationNote>)
    ensures
        notes_view(final(dst)@) == notes_view(old(dst)@) + notes_view(src@),
{
    let mut src = src;
    let ghost s0 = src@;
    dst.append(&mut src);
    assert(notes_view(dst@) =~= notes_view(old(dst)@) + notes_view(s0));
}

/// A note for `path` with `message`.
pub fn note(path: String, message: &str) -> (n: MigrationNote)
    ensures
        n@ == (path@, message@),
{
    MigrationNote { path, message: message.to_owned() }
}

} // verus!
