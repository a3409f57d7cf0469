use vstd::prelude::*;

use crate::introspector::{index_of, position_of, Introspector, Position};

verus! {

/// What `typst_utils::hash128` returns for the pair of a location's hash and
/// a variant number.
pub uninterp spec fn variant_hash(id: u128, n: usize) -> u128;

/// Relies on `typst_utils::hash128`: a 128-bit SipHash-1-3 of the pair, which
/// hashes a `usize` as a `u64`, so the result depends on the two numbers
/// alone.
#[verifier::external_body]
fn hash_pair(id: u128, n: usize) -> (r: u128)
    ensures
        r == variant_hash(id, n),
{
    typst_utils::hash128(&(id, n))
}

/// The identity of a piece of document content.
///
/// A location is derived from the content and the path along which it was
/// created, so the same content has the same location in every pass. The
/// number inside carries no order: only equality is meaningful.
#[derive(Debug, Clone, Copy, PartialEq, Eq, Hash, Structural)]
pub struct Location(pub u128);

impl Location {
    /// Creates a location from a unique hash.
    pub fn new(hash: u128) -> (r: Location)
        ensures
            r.0 == hash,
    {
        Location(hash)
    }

    /// The raw hash of this location.
    pub fn hash(self) -> (r: u128)
        ensures
            r == self.0,
    {
        self.0
    }

    /// The location that `variant(n)` produces from this one.
    pub open spec fn variant_spec(self, n: usize) -> Location {
        Location(variant_hash(self.0, n))
    }

    /// A well-known variant of this location: a synthetic location derived
    /// from this one and a number, for example one per bibliography entry.
    pub fn variant(self, n: usize) -> (r: Location)
        ensures
            r == self.variant_spec(n),
    {
        Location(hash_pair(self.0, n))
    }

    /// The 1-based number of the page that this location is on. This is the
    /// physical page, not the value of a page counter.
    pub fn page(self, introspector: &Introspector) -> (r: usize)
        requires
            introspector.wf(),
        ensures
            r == position_of(introspector@, self).page,
            r >= 1,
    {
        introspector.page(self)
    }

    /// The page and the coordinates from the page's top left corner of this
    /// location.
    pub fn position(self, introspector: &Introspector) -> (r: Position)
        ensures
            r == position_of(introspector@, self),
    {
        introspector.position(self)
    }

    /// The page numbering pattern in effect on this location's page.
    pub fn page_numbering(self, introspector: &Introspector) -> (r: Option<String>)
        ensures
            r == match index_of(introspector@, self) {
                Some(i) => introspector@[i].numbering,
                None => None,
            },
    {
        introspector.page_numbering(self)
    }
}

/// Variants are deterministic: the same location and number give the same
/// variant, whenever and however often it is computed.
pub proof fn variant_is_deterministic(loc: Location, n: usize, a: Location, b: Location)
    requires
        a == loc.variant_spec(n),
        b == loc.variant_spec(n),
    ensures
        a == b,
        a.0 == b.0,
{
}

/// A location as the key of an ordered set or map.
///
/// `Location` has no order of its own: comparing hashes says nothing about
/// where content stands in the document. This type orders them anyway, for
/// containers only.
#[derive(Debug, Clone, Copy, PartialEq, Eq, PartialOrd, Ord, Hash, Structural)]
pub struct LocationKey(pub u128);

impl LocationKey {
    /// The key of a location.
    pub fn new(location: Location) -> (r: LocationKey)
        ensures
            r.0 == location.0,
    {
        LocationKey(location.0)
    }
}

/// Content of this kind receives a location and is indexed by the
/// introspector.
pub trait Locatable {
}

/// Content of this kind is indexed for position lookups but hidden from
/// queries.
pub trait Unqueriable: Locatable {
}

/// Content of this kind is marked as tagged in exported files.
pub trait Tagged {
}

} // verus!
