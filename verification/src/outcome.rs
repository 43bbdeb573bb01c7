//! What the native picker hands back, and the payload made of it.

use vstd::prelude::*;

verus! {

/// The result of one run of the native picker.
#[derive(Clone, Debug, PartialEq, Eq)]
pub enum DialogOutcome {
    /// The user chose one path.
    Single(String),
    /// The user chose several paths, in this order.
    Multiple(Vec<String>),
    /// The user closed the picker without choosing.
    Cancel,
}

/// The mathematical value of a [`DialogOutcome`].
pub enum Selection {
    Single(Seq<char>),
    Multiple(Seq<Seq<char>>),
    Cancel,
}

impl View for DialogOutcome {
    type V = Selection;

    open spec fn view(&self) -> Selection {
        match self {
            DialogOutcome::Single(path) => Selection::Single(path@),
            DialogOutcome::Multiple(paths) => Selection::Multiple(paths.deep_view()),
            DialogOutcome::Cancel => Selection::Cancel,
        }
    }
}

impl Selection {
    /// The chosen paths in order: one for a single choice, all of them for a
    /// multiple choice, none after a cancellation.
    pub open spec fn files(self) -> Seq<Seq<char>> {
        match self {
            Selection::Single(path) => seq![path],
            Selection::Multiple(paths) => paths,
            Selection::Cancel => Seq::empty(),
        }
    }
}

impl DialogOutcome {
    /// Flattens the outcome into the list of chosen paths.
    pub fn into_files(self) -> (files: Vec<String>)
        ensures
            files.deep_view() == self@.files(),
    {
        match self {
            DialogOutcome::Single(path) => {
                let mut files: Vec<String> = Vec::new();
                files.push(path);
                assert(files.deep_view() =~= seq![path@]);
                files
            },
            DialogOutcome::Multiple(paths) => paths,
            DialogOutcome::Cancel => {
                let files: Vec<String> = Vec::new();
                assert(files.deep_view() =~= Seq::<Seq<char>>::empty());
                files
            },
        }
    }
}

/// The key under which a result payload holds its paths.
pub const FILES_KEY: &'static str = "files";

/// The answer to a request that succeeded: a mapping with the one key
/// [`FILES_KEY`], whose value is the list of chosen paths in order.
#[derive(Clone, Debug, PartialEq, Eq)]
pub struct ResultPayload {
    pub files: Vec<String>,
}

impl View for ResultPayload {
    type V = Seq<Seq<char>>;

    open spec fn view(&self) -> Seq<Seq<char>> {
        self.files.deep_view()
    }
}

} // verus!
