//! Resource locations: the `namespace:path` identifiers that name blocks
//! and other registry entries. Both parts are non-empty and drawn from a
//! small ascii alphabet; see [`crate::errors`] for the exact character
//! sets.

use vstd::prelude::*;

use crate::errors::{valid_namespace, valid_path, ResLocationError};
use crate::text::str_eq;

verus! {

/// The first `':'` in `s`, or `-1` if `s` has none: where a combined
/// location string splits into namespace and path.
pub open spec fn first_colon(s: Seq<char>) -> int
    decreases s.len(),
{
    if s.len() == 0 {
        -1
    } else if s[0] == ':' {
        0
    } else {
        let r = first_colon(s.drop_first());
        if r < 0 {
            -1
        } else {
            r + 1
        }
    }
}

/// `first_colon` finds exactly the first `':'`: if everything below `i` is
/// not a colon, and `i` is either the length or a colon, the split lands at
/// `i`.
proof fn lemma_first_colon_at(s: Seq<char>, i: int)
    requires
        0 <= i <= s.len(),
        forall|j: int| 0 <= j < i ==> s[j] != ':',
        i < s.len() ==> s[i] == ':',
    ensures
        first_colon(s) == if i == s.len() {
            -1int
        } else {
            i
        },
    decreases s.len(),
{
    if s.len() > 0 {
        if i == 0 {
        } else {
            let t = s.drop_first();
            assert(forall|j: int| 0 <= j < t.len() ==> #[trigger] t[j] == s[j + 1]);
            lemma_first_colon_at(t, i - 1);
        }
    }
}

/// The default namespace, `"minecrium"`, is a valid namespace.
proof fn lemma_default_namespace_valid()
    ensures
        valid_namespace("minecrium"@),
{
    reveal_strlit("minecrium");
    let s = "minecrium"@;
    assert(s[0] == 'm' && s[1] == 'i' && s[2] == 'n' && s[3] == 'e' && s[4] == 'c' && s[5] == 'r'
        && s[6] == 'i' && s[7] == 'u' && s[8] == 'm');
    assert forall|i: int| 0 <= i < s.len() implies crate::errors::valid_namespace_char(
        #[trigger] s[i],
    ) by {
        if i == 0 {
        } else if i == 1 {
        } else if i == 2 {
        } else if i == 3 {
        } else if i == 4 {
        } else if i == 5 {
        } else if i == 6 {
        } else if i == 7 {
        } else {
            assert(i == 8);
        }
    }
}

/// A unique identifier of a resource: a namespace and a path, both
/// non-empty, over the ascii alphabets of [`valid_namespace`] and
/// [`valid_path`].
#[derive(Clone, Debug, Hash)]
pub struct ResLocation {
    /// The namespace part.
    namespace: String,
    /// The path part.
    path: String,
}

impl ResLocation {
    /// The namespace part of the location.
    pub closed spec fn spec_namespace(self) -> Seq<char> {
        self.namespace@
    }

    /// The path part of the location.
    pub closed spec fn spec_path(self) -> Seq<char> {
        self.path@
    }

    /// The location's invariant: both parts valid.
    pub open spec fn wf(self) -> bool {
        valid_namespace(self.spec_namespace()) && valid_path(self.spec_path())
    }

    /// The default namespace, used when a location is written without one.
    pub fn default_namespace() -> (r: &'static str)
        ensures
            r@ == "minecrium"@,
            valid_namespace(r@),
    {
        proof {
            lemma_default_namespace_valid();
        }
        "minecrium"
    }

    /// Builds a location from a namespace and a path, rejecting either part
    /// exactly as [`ResLocationError::check_namespace`] and
    /// [`ResLocationError::check_path`] do, namespace first.
    pub fn new(namespace: &str, path: &str) -> (r: Result<ResLocation, ResLocationError>)
        ensures
            r matches Ok(l) ==> l.spec_namespace() == namespace@ && l.spec_path() == path@
                && l.wf(),
            r is Ok <==> valid_namespace(namespace@) && valid_path(path@),
            r == Err::<ResLocation, _>(ResLocationError::NamespaceEmpty) <==> namespace@.len()
                == 0,
            r == Err::<ResLocation, _>(ResLocationError::NamespaceError) <==> (namespace@.len() > 0
                && !valid_namespace(namespace@)),
            r == Err::<ResLocation, _>(ResLocationError::PathEmpty) <==> (valid_namespace(
                namespace@,
            ) && path@.len() == 0),
            r == Err::<ResLocation, _>(ResLocationError::PathError) <==> (valid_namespace(
                namespace@,
            ) && path@.len() > 0 && !valid_path(path@)),
    {
        match ResLocationError::check_namespace(namespace) {
            Err(e) => Err(e),
            Ok(()) => match ResLocationError::check_path(path) {
                Err(e) => Err(e),
                Ok(()) => Ok(
                    ResLocation {
                        namespace: String::from_str(namespace),
                        path: String::from_str(path),
                    },
                ),
            },
        }
    }

    /// Builds a location under the default namespace, rejecting the path
    /// exactly as [`ResLocationError::check_path`] does.
    pub fn with_default_namespace(path: &str) -> (r: Result<ResLocation, ResLocationError>)
        ensures
            r matches Ok(l) ==> l.spec_namespace() == "minecrium"@ && l.spec_path() == path@
                && l.wf(),
            r is Ok <==> valid_path(path@),
            r == Err::<ResLocation, _>(ResLocationError::PathEmpty) <==> path@.len() == 0,
            r == Err::<ResLocation, _>(ResLocationError::PathError) <==> (path@.len() > 0
                && !valid_path(path@)),
    {
        proof {
            lemma_default_namespace_valid();
        }
        Self::new(Self::default_namespace(), path)
    }

    /// Parses a location from its combined `namespace:path` form. The
    /// string splits at its first `':'`; without one, the whole string is a
    /// path under the default namespace. Each part is then checked as in
    /// [`ResLocation::new`].
    pub fn from_str(s: &str) -> (r: Result<ResLocation, ResLocationError>)
        ensures
            ({
                let d = first_colon(s@);
                if d < 0 {
                    &&& (r matches Ok(l) ==> l.spec_namespace() == "minecrium"@ && l.spec_path()
                        == s@ && l.wf())
                    &&& (r is Ok <==> valid_path(s@))
                } else {
                    &&& (r matches Ok(l) ==> l.spec_namespace() == s@.take(d) && l.spec_path()
                        == s@.skip(d + 1) && l.wf())
                    &&& (r is Ok <==> valid_namespace(s@.take(d)) && valid_path(s@.skip(d + 1)))
                }
            }),
    {
        let n = s.unicode_len();
        let mut i: usize = 0;
        while i < n
            invariant
                n == s@.len(),
                i <= n,
                forall|j: int| 0 <= j < i ==> s@[j] != ':',
            decreases n - i,
        {
            if s.get_char(i) == ':' {
                proof {
                    lemma_first_colon_at(s@, i as int);
                }
                let namespace = s.substring_char(0, i);
                let path = s.substring_char(i + 1, n);
                proof {
                    assert(namespace@ == s@.subrange(0, i as int));
                    assert(s@.take(i as int) =~= s@.subrange(0, i as int));
                    assert(s@.skip(i + 1) =~= s@.subrange(i + 1, s@.len() as int));
                }
                return Self::new(namespace, path);
            }
            i = i + 1;
        }
        proof {
            lemma_first_colon_at(s@, n as int);
        }
        Self::with_default_namespace(s)
    }

    /// Returns the location in its combined form, `namespace:path`.
    pub fn as_str(&self) -> (r: String)
        ensures
            r@ == self.spec_namespace() + seq![':'] + self.spec_path(),
    {
        let mut r = self.namespace.clone();
        r.append(":");
        r.append(self.path.as_str());
        proof {
            reveal_strlit(":");
            assert(":"@ =~= seq![':']);
        }
        r
    }

    /// Returns the namespace (`.0`) and the path (`.1`) of the location.
    pub fn as_parts(&self) -> (r: (&str, &str))
        ensures
            r.0@ == self.spec_namespace(),
            r.1@ == self.spec_path(),
    {
        (self.namespace.as_str(), self.path.as_str())
    }

    /// Returns the namespace of the location.
    pub fn namespace(&self) -> (r: &str)
        ensures
            r@ == self.spec_namespace(),
    {
        self.namespace.as_str()
    }

    /// Returns the path of the location.
    pub fn path(&self) -> (r: &str)
        ensures
            r@ == self.spec_path(),
    {
        self.path.as_str()
    }
}

impl PartialEq for ResLocation {
    /// Locations compare by content: same namespace and same path.
    fn eq(&self, other: &Self) -> (r: bool) {
        str_eq(self.namespace.as_str(), other.namespace.as_str()) && str_eq(
            self.path.as_str(),
            other.path.as_str(),
        )
    }
}

impl Eq for ResLocation {

}

impl vstd::std_specs::cmp::PartialEqSpecImpl for ResLocation {
    open spec fn obeys_eq_spec() -> bool {
        true
    }

    open spec fn eq_spec(&self, other: &Self) -> bool {
        self.spec_namespace() == other.spec_namespace() && self.spec_path() == other.spec_path()
    }
}

} // verus!
