//! Requests for the room that growing lists need.

use vstd::prelude::*;

verus! {

/// How requests for room are answered.
///
/// The answers of the system depend on the machine. With a fixed answer, every
/// function that asks for room is determined by its other arguments alone.
#[derive(Debug, Clone, Copy, PartialEq, Eq, Structural)]
pub enum Memory {
    /// Ask the system's allocator.
    System,
    /// Grant every request, or refuse every one. Lists that were granted room grow
    /// as they are filled.
    Fixed(bool),
}

impl Memory {
    /// Whether a request may be granted, or may be refused.
    pub open spec fn may(self, granted: bool) -> bool {
        match self {
            Memory::System => true,
            Memory::Fixed(answer) => granted == answer,
        }
    }

    /// Whether requests may be answered as listed.
    pub open spec fn may_answer(self, answers: Seq<bool>) -> bool {
        forall|i: int| 0 <= i < answers.len() ==> self.may(#[trigger] answers[i])
    }

    /// Ask for room for further items, and return whether it was granted. The list
    /// stays as it is.
    pub fn reserve<T>(self, list: &mut Vec<T>, additional: usize) -> (r: bool)
        ensures
            self.may(r),
            final(list)@ == old(list)@,
    {
        match self {
            Memory::System => list.try_reserve(additional).is_ok(),
            Memory::Fixed(answer) => answer,
        }
    }
}

/// How a result relates to the wanted one: an error of its own stands, and a
/// success stands where room for it was granted, or else is the given error.
pub open spec fn answered<T, E>(wanted: Result<T, E>, granted: bool, refusal: E) -> Result<T, E> {
    match wanted {
        Err(error) => Err(error),
        Ok(value) => if granted {
            Ok(value)
        } else {
            Err(refusal)
        },
    }
}

} // verus!
