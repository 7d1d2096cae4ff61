//! The resource, its input, and their mathematical models.
use vstd::prelude::*;

verus! {

/// The two text fields of a resource, as a create or update request carries
/// them. For users they are the user name and the e-mail address; for posts
/// the title and the text. An update replaces both.
#[derive(Clone, Debug, PartialEq, Eq)]
pub struct Fields {
    pub first: String,
    pub second: String,
}

/// What a create request carries: the fields of a resource, without its id.
pub type CreateInput = Fields;

/// What an update request carries: the same shape as a create request.
pub type UpdateInput = Fields;

/// A persisted resource: an id assigned by the store, and its fields.
#[derive(Clone, Debug, PartialEq, Eq)]
pub struct Resource {
    pub id: i64,
    pub fields: Fields,
}

/// The model of `Fields`: the two texts as character sequences.
pub struct FieldValues {
    pub first: Seq<char>,
    pub second: Seq<char>,
}

/// The model of `Resource`: its id and the model of its fields.
pub struct Row {
    pub id: i64,
    pub values: FieldValues,
}

impl View for Fields {
    type V = FieldValues;

    open spec fn view(&self) -> FieldValues {
        FieldValues { first: self.first@, second: self.second@ }
    }
}

impl View for Resource {
    type V = Row;

    open spec fn view(&self) -> Row {
        Row { id: self.id, values: self.fields@ }
    }
}

impl Fields {
    pub fn new(first: String, second: String) -> (r: Fields)
        ensures
            r.first == first,
            r.second == second,
    {
        Fields { first, second }
    }
}

impl Resource {
    /// The resource with the given id and fields.
    pub fn new(id: i64, fields: Fields) -> (r: Resource)
        ensures
            r.id == id,
            r.fields == fields,
    {
        Resource { id, fields }
    }
}

} // verus!

verus! {

/// The collection that a service exposes: users through the SQL gateway of
/// the application, posts through its entity-mapped gateway.
#[derive(Clone, Copy, Debug, PartialEq, Eq, Structural)]
pub enum ResourceKind {
    User,
    Post,
}

impl ResourceKind {
    /// The collection's path segment, as ASCII bytes: `users` or `posts`.
    pub open spec fn spec_segment(self) -> Seq<u8> {
        match self {
            ResourceKind::User => seq![117u8, 115, 101, 114, 115],
            ResourceKind::Post => seq![112u8, 111, 115, 116, 115],
        }
    }

    /// The collection's path segment: `users` or `posts`.
    pub fn segment(self) -> (r: Vec<u8>)
        ensures
            r@ == self.spec_segment(),
    {
        match self {
            ResourceKind::User => vec![117u8, 115, 101, 114, 115],
            ResourceKind::Post => vec![112u8, 111, 115, 116, 115],
        }
    }
}

} // verus!

verus! {

impl Fields {
    /// A copy of the fields.
    pub fn duplicate(&self) -> (r: Fields)
        ensures
            r == *self,
    {
        Fields { first: self.first.clone(), second: self.second.clone() }
    }
}

impl Resource {
    /// A copy of the resource.
    pub fn duplicate(&self) -> (r: Resource)
        ensures
            r == *self,
    {
        Resource { id: self.id, fields: self.fields.duplicate() }
    }
}

} // verus!
