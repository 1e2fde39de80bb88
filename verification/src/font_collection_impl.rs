//! Handing the font files of a custom collection to the system, one
//! after the other.

use crate::helpers::E_INVALIDARG;
use vstd::prelude::*;

verus! {

/// Where an enumerator stands among its files.
#[derive(PartialEq, Eq, Structural, Debug, Clone, Copy)]
enum Position {
    BeforeFirst,
    At(usize),
    PastEnd,
}

/// An enumerator over the font files of a custom collection. It starts
/// before the first file; each move takes it one file on, until it has
/// passed the last.
pub struct CustomFontFileEnumeratorImpl<F> {
    font_files: Vec<F>,
    position: Position,
}

impl<F> CustomFontFileEnumeratorImpl<F> {
    /// The files of the collection, in the order in which they are
    /// handed out.
    pub closed spec fn files(&self) -> Seq<F> {
        self.font_files@
    }

    /// The index of the current file: -1 before the first move, the
    /// number of files once the last file has been passed.
    pub closed spec fn index(&self) -> int {
        match self.position {
            Position::BeforeFirst => -1,
            Position::At(i) => i as int,
            Position::PastEnd => self.font_files@.len() as int,
        }
    }

    /// The index never leaves the range from -1 to the number of files.
    pub closed spec fn wf(&self) -> bool {
        self.position matches Position::At(i) ==> i < self.font_files@.len()
    }

    /// Whether the enumerator stands at a file.
    pub open spec fn has_current_file(&self) -> bool {
        0 <= self.index() < self.files().len()
    }

    /// What well-formedness says of the index.
    pub proof fn lemma_index_in_range(&self)
        requires
            self.wf(),
        ensures
            -1 <= self.index() <= self.files().len(),
    {
    }

    /// An enumerator over the given files, standing before the first.
    pub fn new(font_files: Vec<F>) -> (enumerator: Self)
        ensures
            enumerator.wf(),
            enumerator.files() == font_files@,
            enumerator.index() == -1,
    {
        CustomFontFileEnumeratorImpl { font_files, position: Position::BeforeFirst }
    }

    /// Moves to the next file and tells whether there is one. Past the
    /// last file the enumerator stays where it is.
    pub fn move_next(&mut self) -> (has_current_file: bool)
        requires
            old(self).wf(),
        ensures
            final(self).wf(),
            final(self).files() == old(self).files(),
            final(self).index() == index_after_move(old(self).files().len(), old(self).index()),
            has_current_file == final(self).has_current_file(),
    {
        let count = self.font_files.len();
        match self.position {
            Position::BeforeFirst => {
                if count > 0 {
                    self.position = Position::At(0);
                    true
                } else {
                    self.position = Position::PastEnd;
                    false
                }
            },
            Position::At(i) => {
                if i + 1 < count {
                    self.position = Position::At(i + 1);
                    true
                } else {
                    self.position = Position::PastEnd;
                    false
                }
            },
            Position::PastEnd => false,
        }
    }

    /// The file at which the enumerator stands. Before the first move
    /// and past the last file there is none, which is reported as an
    /// invalid argument.
    pub fn current_font_file(&self) -> (file: Result<&F, i32>)
        requires
            self.wf(),
        ensures
            match file {
                Ok(f) => self.has_current_file() && *f == self.files()[self.index()],
                Err(code) => !self.has_current_file() && code == E_INVALIDARG,
            },
    {
        match self.position {
            Position::At(i) => Ok(&self.font_files[i]),
            _ => Err(E_INVALIDARG),
        }
    }
}

/// The index to which one move takes an enumerator over `count` files
/// that stands at `index`: the next index, and past the last file the
/// same.
pub open spec fn index_after_move(count: nat, index: int) -> int {
    if index < count {
        index + 1
    } else {
        index
    }
}

/// The index at which an enumerator over `count` files stands after
/// `moves` moves from where it starts, before the first file.
pub open spec fn index_after_moves(count: nat, moves: nat) -> int
    decreases moves,
{
    if moves == 0 {
        -1
    } else {
        index_after_move(count, index_after_moves(count, (moves - 1) as nat))
    }
}

/// An enumeration hands out each file once, in order, and then ends:
/// after `moves` moves, of which the first `count` each lead to a file,
/// the enumerator stands at the file with index `moves - 1`; after more
/// than `count` moves it stands past the last file and stays there.
pub proof fn lemma_moves_visit_each_file_once(count: nat, moves: nat)
    ensures
        index_after_moves(count, moves) == (if moves <= count {
            moves - 1
        } else {
            count as int
        }),
        0 <= index_after_moves(count, moves) < count <==> 1 <= moves <= count,
    decreases moves,
{
    if moves > 0 {
        lemma_moves_visit_each_file_once(count, (moves - 1) as nat);
    }
}

} // verus!
