//! What is known of a font file once the system has analyzed it.

use vstd::prelude::*;

verus! {

/// The native face-type code of a file that has not been analyzed, or
/// whose kind the system does not know.
pub const FACE_TYPE_UNKNOWN: i32 = 6;

/// What the system found in a font file.
#[derive(PartialEq, Eq, Structural, Debug, Clone, Copy)]
pub struct FontFileAnalysis {
    /// The native face-type code of the faces in the file.
    pub face_type: i32,
    /// The number of faces in the file.
    pub face_count: u32,
}

/// The facts that a font file carries beside its native handle.
#[derive(PartialEq, Eq, Structural, Debug, Clone, Copy)]
pub struct FontFileState {
    data_key: usize,
    face_type: i32,
}

impl FontFileState {
    /// The key of the file as it is stored; zero for a file that was not
    /// made from a buffer.
    pub closed spec fn stored_key(&self) -> usize {
        self.data_key
    }

    /// The native face-type code that the last analysis found.
    pub closed spec fn stored_face_type(&self) -> i32 {
        self.face_type
    }

    /// The state of a file that has not been analyzed. A file on disk
    /// has the key zero.
    pub fn new(data_key: usize) -> (state: Self)
        ensures
            state.stored_key() == data_key,
            state.stored_face_type() == FACE_TYPE_UNKNOWN,
    {
        FontFileState { data_key, face_type: FACE_TYPE_UNKNOWN }
    }

    /// Takes in the outcome of an analysis and gives the number of faces
    /// in the file. A failed analysis counts as no faces and leaves the
    /// state as it was.
    pub fn analyze(&mut self, outcome: Result<FontFileAnalysis, i32>) -> (face_count: u32)
        ensures
            final(self).stored_key() == old(self).stored_key(),
            match outcome {
                Ok(found) => face_count == found.face_count && final(self).stored_face_type()
                    == found.face_type,
                Err(_) => face_count == 0 && final(self).stored_face_type() == old(
                    self,
                ).stored_face_type(),
            },
    {
        match outcome {
            Ok(found) => {
                self.face_type = found.face_type;
                found.face_count
            },
            Err(_) => 0,
        }
    }

    /// Whether a file with this many faces can be used as a font file:
    /// one without faces cannot.
    pub fn is_usable(face_count: u32) -> (usable: bool)
        ensures
            usable == (face_count != 0),
    {
        face_count != 0
    }

    /// The key of the buffer that the file was made from; `None` where
    /// the stored key is zero.
    pub fn data_key(&self) -> (key: Option<usize>)
        ensures
            key == (if self.stored_key() != 0 {
                Some(self.stored_key())
            } else {
                None
            }),
    {
        if self.data_key != 0 {
            Some(self.data_key)
        } else {
            None
        }
    }

    /// The native face-type code that the last analysis found.
    pub fn face_type(&self) -> (code: i32)
        ensures
            code == self.stored_face_type(),
    {
        self.face_type
    }
}

} // verus!
