//! Records as a permission-filtered read shows them: every field, the
//! identifier included, is present, absent or denied on its own.

use crate::query::DatabaseValue;
use vstd::prelude::*;

verus! {

/// Represents an organisation tag
#[derive(PartialEq, Eq, PartialOrd, Ord, Clone, Debug)]
pub struct Tag {
    /// The internal ID for the tag
    pub id: DatabaseValue<u64>,
    /// The display name for the tag
    pub name: DatabaseValue<String>,
    /// Has a value if the tag is an alias, otherwise it is a standalone tag
    pub alias: DatabaseValue<u64>,
    /// The user that created the tag
    pub created_by: DatabaseValue<u64>,
}

/// Represents a piece of media, or any other resource, stored as a file in
/// the database. This should be implemented for each form of file you wish
/// to handle separately (image, video, etc. or jpg, png, mp4, avi etc.)
pub trait Media: Sized {
    /// The internal ID for the media
    fn id(&self) -> DatabaseValue<u64>;

    /// The display name of the media
    fn name(&self) -> DatabaseValue<String>;

    /// The user that created the media
    fn created_by(&self) -> DatabaseValue<u64>;

    /// The tags applied to the media
    fn tags(&self) -> DatabaseValue<Vec<u64>>;
}

/// Errors returned when trying to construct a media object
#[derive(Debug, PartialEq, Eq, PartialOrd, Ord, Clone)]
pub enum MediaError<T> {
    /// The media had a recognised property with nonsensical data
    MalformedProperty(MediaProperty<T>),
    /// The media was missing certain required properties
    MissingProperties(Vec<String>),
}

/// A generalised media property stored as key and value.
#[derive(Debug, PartialEq, Eq, PartialOrd, Ord, Clone)]
pub struct MediaProperty<T> {
    pub key: String,
    pub value: T,
}

/// Represents generic media storage.
pub struct GenericMedia {
    /// The internal ID for the media
    pub id: DatabaseValue<u64>,
    /// The display name of the media
    pub name: DatabaseValue<String>,
    /// The user that created the media
    pub created_by: DatabaseValue<u64>,
    /// The tags applied to the media
    pub tags: DatabaseValue<Vec<u64>>,
    /// The form of media represented by this entry
    pub form: DatabaseValue<String>,
}

/// Copies a numeric field in the state it is in.
fn copy_number(field: &DatabaseValue<u64>) -> (copy: DatabaseValue<u64>)
    ensures
        copy == *field,
{
    match field {
        DatabaseValue::Present(number) => DatabaseValue::Present(*number),
        DatabaseValue::Absent => DatabaseValue::Absent,
        DatabaseValue::Unauthorised => DatabaseValue::Unauthorised,
    }
}

/// Copies a text field in the state it is in.
fn copy_text(field: &DatabaseValue<String>) -> (copy: DatabaseValue<String>)
    ensures
        copy@ == field@,
{
    match field {
        DatabaseValue::Present(text) => DatabaseValue::Present(text.clone()),
        DatabaseValue::Absent => DatabaseValue::Absent,
        DatabaseValue::Unauthorised => DatabaseValue::Unauthorised,
    }
}

/// Copies a list of identifiers in the state it is in.
fn copy_ids(field: &DatabaseValue<Vec<u64>>) -> (copy: DatabaseValue<Vec<u64>>)
    ensures
        copy@ == field@,
{
    match field {
        DatabaseValue::Present(ids) => DatabaseValue::Present(ids.clone()),
        DatabaseValue::Absent => DatabaseValue::Absent,
        DatabaseValue::Unauthorised => DatabaseValue::Unauthorised,
    }
}

impl Media for GenericMedia {
    fn id(&self) -> (id: DatabaseValue<u64>)
        ensures
            id == self.id,
    {
        copy_number(&self.id)
    }

    fn name(&self) -> (name: DatabaseValue<String>)
        ensures
            name@ == self.name@,
    {
        copy_text(&self.name)
    }

    fn created_by(&self) -> (created_by: DatabaseValue<u64>)
        ensures
            created_by == self.created_by,
    {
        copy_number(&self.created_by)
    }

    fn tags(&self) -> (tags: DatabaseValue<Vec<u64>>)
        ensures
            tags@ == self.tags@,
    {
        copy_ids(&self.tags)
    }
}

/// Represents a group of tags
#[derive(PartialEq, Eq, PartialOrd, Ord, Clone, Debug)]
pub struct Group {
    /// The internal ID for the group
    pub id: DatabaseValue<u64>,
    /// The display name of the group
    pub name: DatabaseValue<String>,
    /// The tags organised under the group
    pub children: DatabaseValue<Vec<u64>>,
    /// The user that created the group
    pub created_by: DatabaseValue<u64>,
}

/// Represents a group of media
#[derive(PartialEq, Eq, PartialOrd, Ord, Clone, Debug)]
pub struct Collection {
    /// The internal ID for the collection
    pub id: DatabaseValue<u64>,
    /// The display name of the collection
    pub name: DatabaseValue<String>,
    /// The media organised under the collection
    pub children: DatabaseValue<Vec<u64>>,
    /// The user that created the collection
    pub created_by: DatabaseValue<u64>,
}

/// Represents a user's data
#[derive(PartialEq, Eq, PartialOrd, Ord, Clone, Debug)]
pub struct User {
    /// The internal ID for the user
    pub id: DatabaseValue<u64>,
    /// The display name of the user
    pub name: DatabaseValue<String>,
    /// The hash for the user. This should not be provided to the client
    pub password_hash: DatabaseValue<Vec<u8>>,
    /// The permissions for the user as a 64-bit integer
    pub permissions: DatabaseValue<u64>,
}

} // verus!
