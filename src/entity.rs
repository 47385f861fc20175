//! The four kinds of record that the store holds.
use vstd::prelude::*;

verus! {

/// A member of the household.
#[derive(Clone, Debug)]
pub struct Person {
    pub id: i32,
    pub first_name: String,
    pub last_name: String,
}

/// A directed parent/child relation between two people, keyed by the ordered pair.
#[derive(Clone, Copy, Debug, PartialEq, Eq, Structural)]
pub struct ParentChildLink {
    pub parent_id: i32,
    pub child_id: i32,
}

/// A reward tracker owned by one person. Timestamps are milliseconds since the Unix epoch.
#[derive(Clone, Debug)]
pub struct StarChart {
    pub id: i32,
    pub person_id: i32,
    /// Category label, e.g. "cleaning".
    pub chart_type: String,
    /// Free-text description, also usable as a de-duplication key.
    pub chart_key: String,
    pub star_count: i32,
    pub star_total: i32,
    pub created_at: i64,
    pub updated_at: i64,
}

/// A calendar entry owned by one person; the times are kept as given.
#[derive(Clone, Debug)]
pub struct CalendarEvent {
    pub id: i32,
    pub person_id: i32,
    pub title: String,
    pub start_time: String,
    pub end_time: String,
}

/// Why an operation on the store did not succeed.
#[derive(Clone, Copy, Debug, PartialEq, Eq, Structural)]
pub enum StoreError {
    /// The referenced person or star chart does not exist.
    NotFound,
    /// A person cannot be their own parent.
    InvalidRelation,
    /// The parent/child pair is already recorded.
    DuplicateKey,
    /// Every identifier that a table can hand out is taken.
    StorageFull,
    /// A star count would leave the range of `i32`.
    CountOutOfRange,
}

/// The text that describes each error.
pub open spec fn error_text(e: StoreError) -> Seq<char> {
    match e {
        StoreError::NotFound => "not found"@,
        StoreError::InvalidRelation => "a person cannot be their own parent"@,
        StoreError::DuplicateKey => "the parent-child link already exists"@,
        StoreError::StorageFull => "no identifier is left in the table"@,
        StoreError::CountOutOfRange => "the star count would leave the range of i32"@,
    }
}

impl StoreError {
    /// A short description of the error, for display.
    pub fn message(&self) -> (r: String)
        ensures
            r@ == error_text(*self),
    {
        match self {
            StoreError::NotFound => String::from_str("not found"),
            StoreError::InvalidRelation => String::from_str("a person cannot be their own parent"),
            StoreError::DuplicateKey => String::from_str("the parent-child link already exists"),
            StoreError::StorageFull => String::from_str("no identifier is left in the table"),
            StoreError::CountOutOfRange => String::from_str("the star count would leave the range of i32"),
        }
    }
}

/// A field-by-field copy of a person.
pub fn copy_person(p: &Person) -> (r: Person)
    ensures
        r == *p,
{
    Person { id: p.id, first_name: p.first_name.clone(), last_name: p.last_name.clone() }
}

/// A field-by-field copy of a star chart.
pub fn copy_chart(c: &StarChart) -> (r: StarChart)
    ensures
        r == *c,
{
    StarChart {
        id: c.id,
        person_id: c.person_id,
        chart_type: c.chart_type.clone(),
        chart_key: c.chart_key.clone(),
        star_count: c.star_count,
        star_total: c.star_total,
        created_at: c.created_at,
        updated_at: c.updated_at,
    }
}

} // verus!
