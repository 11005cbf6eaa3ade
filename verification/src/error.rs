//! The one way in which a read can fail.

use vstd::prelude::*;

verus! {

/// The integer types that can be read.
#[derive(Clone, Copy, Debug, PartialEq, Eq, Structural)]
pub enum IntKind {
    I16,
    I32,
    I64,
    U16,
    U32,
    U64,
}

/// The bytes asked for do not all lie inside the buffer: the read would have
/// begun beyond its end, or too few bytes follow the start index.
#[derive(Clone, Copy, Debug, PartialEq, Eq, Structural)]
pub struct InvalidBuffer {
    /// The type whose read failed.
    pub kind: IntKind,
}

impl InvalidBuffer {
    /// The text of the message that names the read that failed.
    pub open spec fn text(self) -> Seq<char> {
        match self.kind {
            IntKind::I16 => "Failed to read i16. Invalid buffer provided."@,
            IntKind::I32 => "Failed to read i32. Invalid buffer provided."@,
            IntKind::I64 => "Failed to read i64. Invalid buffer provided."@,
            IntKind::U16 => "Failed to read u16. Invalid buffer provided."@,
            IntKind::U32 => "Failed to read u32. Invalid buffer provided."@,
            IntKind::U64 => "Failed to read u64. Invalid buffer provided."@,
        }
    }

    /// Returns the message that names the read that failed.
    pub fn message(&self) -> (text: &'static str)
        ensures
            text@ == self.text(),
    {
        match self.kind {
            IntKind::I16 => "Failed to read i16. Invalid buffer provided.",
            IntKind::I32 => "Failed to read i32. Invalid buffer provided.",
            IntKind::I64 => "Failed to read i64. Invalid buffer provided.",
            IntKind::U16 => "Failed to read u16. Invalid buffer provided.",
            IntKind::U32 => "Failed to read u32. Invalid buffer provided.",
            IntKind::U64 => "Failed to read u64. Invalid buffer provided.",
        }
    }
}

} // verus!
