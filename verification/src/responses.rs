//! Generic reusable response wrappers around entities.

use vstd::prelude::*;

verus! {

/// Generic reusable wrapper with an id field around an entity.
pub struct EntityWithId<T> {
    /// The id of the entity
    pub id: u64,
    /// The remaining fields of the entity
    pub entity: T,
}

impl<T> EntityWithId<T> {
    /// Creates a new [`EntityWithId<T>`].
    pub fn new(id: u64, entity: T) -> (r: Self)
        ensures
            r.id == id,
            r.entity == entity,
    {
        Self { id, entity }
    }
}

/// General reusable paginated entity response.
pub struct SeqApiResponse<T> {
    /// The total number of entities available.
    pub total: usize,
    /// The number of entities in this page.
    pub count: usize,
    /// The offset of this page.
    pub offset: usize,
    /// Name of entity type.
    pub entity_name: String,
    /// The entities of this page.
    pub entities: T,
}

impl<T> SeqApiResponse<Vec<T>> {
    /// Creates a new [`SeqApiResponse<T>`].
    ///
    /// It is like an [`ApiResponse<T>`] but with pagination: the count is
    /// always the number of entities in the page.
    pub fn new(entity_name: String, offset: usize, total: usize, entities: Vec<T>) -> (r: Self)
        ensures
            r.total == total,
            r.count == entities@.len(),
            r.offset == offset,
            r.entity_name@ == entity_name@,
            r.entities == entities,
    {
        let count = entities.len();
        Self { total, count, offset, entity_name, entities }
    }
}

/// Generic reusable entity response.
pub struct ApiResponse<T> {
    /// Name of entity type
    pub entity_name: String,
    /// Inner entity stored within the response
    pub entity: T,
}

impl<T> ApiResponse<T> {
    /// Creates a new [`ApiResponse<T>`].
    pub fn new(entity_name: String, entity: T) -> (r: Self)
        ensures
            r.entity_name@ == entity_name@,
            r.entity == entity,
    {
        Self { entity_name, entity }
    }
}

} // verus!
