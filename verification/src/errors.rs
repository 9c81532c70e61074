//! Error types for parsing the coordinate enumerations and for validating
//! resource locations.

use vstd::prelude::*;

verus! {

/// The error of parsing an [`Axis`](crate::coords::Axis) from a string.
#[derive(Clone, Copy, Debug, PartialEq, Eq, Structural, Default)]
pub struct ParseAxisError;

impl ParseAxisError {
    /// A human-readable description of the error.
    pub fn message(&self) -> &'static str {
        "expects one of \"z\", \"x\", \"y\""
    }
}

/// The error of parsing an [`HAxis`](crate::coords::HAxis) from a string.
#[derive(Clone, Copy, Debug, PartialEq, Eq, Structural, Default)]
pub struct ParseHAxisError;

impl ParseHAxisError {
    /// A human-readable description of the error.
    pub fn message(&self) -> &'static str {
        "expects one of \"z\", \"x\""
    }
}

/// The error of parsing a [`Direction`](crate::coords::Direction) from a
/// string.
#[derive(Clone, Copy, Debug, PartialEq, Eq, Structural, Default)]
pub struct ParseDirectionError;

impl ParseDirectionError {
    /// A human-readable description of the error.
    pub fn message(&self) -> &'static str {
        "expects one of \"south\", \"north\", \"east\", \"west\", \"up\", \"down\""
    }
}

/// The error of parsing an [`HDirection`](crate::coords::HDirection) from a
/// string.
#[derive(Clone, Copy, Debug, PartialEq, Eq, Structural, Default)]
pub struct ParseHDirectionError;

impl ParseHDirectionError {
    /// A human-readable description of the error.
    pub fn message(&self) -> &'static str {
        "expects one of \"south\", \"north\", \"east\", \"west\", \"southeast\", \"southwest\", \"northeast\", \"northwest\""
    }
}

/// The error of building a [`ResLocation`](crate::resource::ResLocation):
/// which part was rejected, and why.
#[derive(Clone, Copy, Debug, PartialEq, Eq, Structural)]
pub enum ResLocationError {
    /// The namespace is empty.
    NamespaceEmpty,
    /// The namespace holds a character outside `[a-z0-9_.-]`.
    NamespaceError,
    /// The path is empty.
    PathEmpty,
    /// The path holds a character outside `[a-z0-9_.-/]`.
    PathError,
}

/// Whether `c` may appear in a resource location namespace: ascii lowercase
/// letters, digits, `_`, `-` and `.`.
pub open spec fn valid_namespace_char(c: char) -> bool {
    ('a' <= c && c <= 'z') || ('0' <= c && c <= '9') || c == '_' || c == '-' || c == '.'
}

/// Whether `c` may appear in a resource location path: every namespace
/// character, and `/`.
pub open spec fn valid_path_char(c: char) -> bool {
    valid_namespace_char(c) || c == '/'
}

/// Whether `s` is a valid resource location namespace: non-empty, with every
/// character in `[a-z0-9_.-]`.
pub open spec fn valid_namespace(s: Seq<char>) -> bool {
    s.len() > 0 && forall|i: int| 0 <= i < s.len() ==> valid_namespace_char(#[trigger] s[i])
}

/// Whether `s` is a valid resource location path: non-empty, with every
/// character in `[a-z0-9_.-/]`.
pub open spec fn valid_path(s: Seq<char>) -> bool {
    s.len() > 0 && forall|i: int| 0 <= i < s.len() ==> valid_path_char(#[trigger] s[i])
}

impl ResLocationError {
    /// Checks a namespace: `Ok` exactly on valid namespaces, and otherwise
    /// the error says whether the namespace was empty or held a bad
    /// character.
    pub fn check_namespace(namespace: &str) -> (r: Result<(), ResLocationError>)
        ensures
            r is Ok <==> valid_namespace(namespace@),
            r == Err::<(), _>(ResLocationError::NamespaceEmpty) <==> namespace@.len() == 0,
            r == Err::<(), _>(ResLocationError::NamespaceError) <==> (namespace@.len() > 0
                && !valid_namespace(namespace@)),
    {
        let n = namespace.unicode_len();
        if n == 0 {
            return Err(ResLocationError::NamespaceEmpty);
        }
        let mut i: usize = 0;
        while i < n
            invariant
                n == namespace@.len(),
                i <= n,
                forall|j: int| 0 <= j < i ==> valid_namespace_char(#[trigger] namespace@[j]),
            decreases n - i,
        {
            let c = namespace.get_char(i);
            if !(('a' <= c && c <= 'z') || ('0' <= c && c <= '9') || c == '_' || c == '-' || c
                == '.') {
                return Err(ResLocationError::NamespaceError);
            }
            i = i + 1;
        }
        Ok(())
    }

    /// Checks a path: `Ok` exactly on valid paths, and otherwise the error
    /// says whether the path was empty or held a bad character.
    pub fn check_path(path: &str) -> (r: Result<(), ResLocationError>)
        ensures
            r is Ok <==> valid_path(path@),
            r == Err::<(), _>(ResLocationError::PathEmpty) <==> path@.len() == 0,
            r == Err::<(), _>(ResLocationError::PathError) <==> (path@.len() > 0 && !valid_path(
                path@,
            )),
    {
        let n = path.unicode_len();
        if n == 0 {
            return Err(ResLocationError::PathEmpty);
        }
        let mut i: usize = 0;
        while i < n
            invariant
                n == path@.len(),
                i <= n,
                forall|j: int| 0 <= j < i ==> valid_path_char(#[trigger] path@[j]),
            decreases n - i,
        {
            let c = path.get_char(i);
            if !(('a' <= c && c <= 'z') || ('0' <= c && c <= '9') || c == '_' || c == '-' || c
                == '.' || c == '/') {
                return Err(ResLocationError::PathError);
            }
            i = i + 1;
        }
        Ok(())
    }

    /// A human-readable description of the error.
    pub fn message(&self) -> &'static str {
        match self {
            ResLocationError::NamespaceEmpty => "the resource location namespace is empty",
            ResLocationError::NamespaceError => "the resource location namespace has non [a-z0-9_.-] char",
            ResLocationError::PathEmpty => "the resource location path is empty",
            ResLocationError::PathError => "the resource location path has non [a-z0-9_.-/] char",
        }
    }
}

} // verus!
