//! The error reported when an erased value, property or state is converted
//! back to a concrete type it does not belong to. The conversions themselves
//! live with the types they convert; they test the dynamic shape and fail
//! with this error instead of misreading the data.

use vstd::prelude::*;

verus! {

/// The error of a failed downcast: the kind the data actually has, and the
/// kind the caller asked for.
#[derive(Clone, Copy, Debug, PartialEq, Eq)]
pub struct CastError {
    /// The name of the source kind.
    pub src: &'static str,
    /// The name of the requested destination kind.
    pub dst: &'static str,
}

impl CastError {
    /// A human-readable description of the error.
    pub fn message(&self) -> String {
        let mut s = String::from_str("try to downcast `");
        s.append(self.src);
        s.append("` to `");
        s.append(self.dst);
        s.append("`");
        s
    }
}

} // verus!
