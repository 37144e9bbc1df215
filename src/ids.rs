use vstd::prelude::*;

verus! {

/// An opaque, totally ordered identifier of an entity or of a list of entities.
#[derive(Clone, Copy, Debug, PartialEq, Eq, Structural)]
pub struct GeneratedId {
    raw: u64,
}

/// The smallest raw value a `GeneratedId` can hold.
pub const MIN_RAW_ID: u64 = 0;

/// The largest raw value a `GeneratedId` can hold.
pub const MAX_RAW_ID: u64 = 0xffff_ffff_ffff_ffff;

impl GeneratedId {
    /// The position of the identifier in the total order.
    pub closed spec fn rank(self) -> int {
        self.raw as int
    }

    pub fn from_raw(raw: u64) -> (r: GeneratedId)
        ensures
            r.rank() == raw as int,
    {
        GeneratedId { raw }
    }

    pub fn raw(&self) -> (r: u64)
        ensures
            r as int == self.rank(),
    {
        self.raw
    }

    /// The identifier that sorts before every other.
    pub closed spec fn smallest() -> GeneratedId {
        GeneratedId { raw: MIN_RAW_ID }
    }

    /// The identifier that sorts after every other.
    pub closed spec fn largest() -> GeneratedId {
        GeneratedId { raw: MAX_RAW_ID }
    }

    /// The sentinel that sorts before every other identifier.
    pub fn min_id() -> (r: GeneratedId)
        ensures
            r == GeneratedId::smallest(),
            forall|other: GeneratedId| r.rank() <= #[trigger] other.rank(),
    {
        GeneratedId { raw: MIN_RAW_ID }
    }

    /// The sentinel that sorts after every other identifier.
    pub fn max_id() -> (r: GeneratedId)
        ensures
            r == GeneratedId::largest(),
            forall|other: GeneratedId| #[trigger] other.rank() <= r.rank(),
    {
        GeneratedId { raw: MAX_RAW_ID }
    }
}

/// The key of an element of a list: the list's identifier and the element's own.
#[derive(Clone, Copy, Debug, PartialEq, Eq, Structural)]
pub struct IdTupleGenerated {
    pub list_id: GeneratedId,
    pub element_id: GeneratedId,
}

impl IdTupleGenerated {
    pub fn new(list_id: GeneratedId, element_id: GeneratedId) -> (r: IdTupleGenerated)
        ensures
            r.list_id == list_id,
            r.element_id == element_id,
    {
        IdTupleGenerated { list_id, element_id }
    }
}

} // verus!
