//! The closed set of resource classes.

use crate::text::same_text;
use vstd::prelude::*;
use vstd::string::*;

verus! {

/// A resource class: it names a tree of the store, a route prefix and a part
/// of every cache key.
#[derive(Debug, Clone, Copy, PartialEq, Eq, Structural)]
pub enum Resource {
    Avatars,
    Icons,
}

/// The path segment that stands for `resource`.
pub open spec fn resource_name(resource: Resource) -> Seq<char> {
    match resource {
        Resource::Avatars => "avatars"@,
        Resource::Icons => "icons"@,
    }
}

/// The class that a path segment names, if any.
pub open spec fn resource_named(name: Seq<char>) -> Option<Resource> {
    if name == "avatars"@ {
        Some(Resource::Avatars)
    } else if name == "icons"@ {
        Some(Resource::Icons)
    } else {
        None
    }
}

/// Every class, in declaration order.
pub open spec fn all_resources() -> Seq<Resource> {
    seq![Resource::Avatars, Resource::Icons]
}

/// A class is found again under its own name.
pub proof fn lemma_name_round_trip(resource: Resource)
    ensures
        resource_named(resource_name(resource)) == Some(resource),
{
    reveal_strlit("avatars");
    reveal_strlit("icons");
    assert("avatars"@.len() != "icons"@.len());
}

impl Resource {
    /// Whether at most one stored artifact may exist per identifier. Every
    /// class is of that kind.
    pub fn singleton(&self) -> (single: bool)
        ensures
            single,
    {
        match self {
            Resource::Avatars => true,
            Resource::Icons => true,
        }
    }

    /// The stable identifier of the class.
    pub fn as_str(&self) -> (name: &'static str)
        ensures
            name@ == resource_name(*self),
    {
        match self {
            Resource::Avatars => "avatars",
            Resource::Icons => "icons",
        }
    }

    /// The stable identifier of the class, owned.
    pub fn to_string(&self) -> (name: String)
        ensures
            name@ == resource_name(*self),
    {
        String::from_str(self.as_str())
    }

    /// Every class, in declaration order.
    pub fn all() -> (classes: Vec<Resource>)
        ensures
            classes@ == all_resources(),
    {
        let mut classes: Vec<Resource> = Vec::new();
        classes.push(Resource::Avatars);
        classes.push(Resource::Icons);
        assert(classes@ =~= all_resources());
        classes
    }

    /// Resolves a path segment to its class. The match is exact and case
    /// sensitive.
    pub fn try_from(value: &str) -> (found: Result<Resource, String>)
        ensures
            match found {
                Ok(resource) => resource_named(value@) == Some(resource),
                Err(message) => resource_named(value@) is None && message@
                    == "Unknown resource specified"@,
            },
    {
        let classes = Resource::all();
        let mut i: usize = 0;
        while i < classes.len()
            invariant
                classes@ == all_resources(),
                i <= classes.len(),
                forall|k: int| 0 <= k < i ==> resource_name(#[trigger] classes[k]) != value@,
            decreases classes.len() - i,
        {
            let candidate = classes[i];
            if same_text(candidate.as_str(), value) {
                proof {
                    lemma_name_round_trip(candidate);
                }
                return Ok(candidate);
            }
            i = i + 1;
        }
        proof {
            assert(resource_name(classes[0]) != value@);
            assert(resource_name(classes[1]) != value@);
        }
        Err(String::from_str("Unknown resource specified"))
    }
}

} // verus!
