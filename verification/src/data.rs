//! The records a catalogue keeps, each with an identifier of its own.
//!
//! A record is a value: once built it does not change, and every field of it
//! is present, absent or denied independently of the others.

use crate::ident::{fresh_record_id, FIRST_FRESH_RECORD_ID, LAST_FRESH_RECORD_ID};
use crate::query::DatabaseValue;
use std::collections::HashSet;
use std::rc::Rc;
use vstd::prelude::*;

verus! {

/// The value of a [`Tag`]: its identifier and the state of each field.
pub struct TagView {
    pub id: u64,
    pub name: DatabaseValue<Seq<char>>,
    pub created_by: DatabaseValue<u64>,
    pub aliases: DatabaseValue<Seq<u64>>,
}

/// Represents an organisational tag
#[derive(PartialEq, Eq, PartialOrd, Ord, Debug, Clone)]
pub struct Tag {
    id: u64,
    name: DatabaseValue<String>,
    created_by: DatabaseValue<u64>,
    aliases: DatabaseValue<Vec<u64>>,
}

impl View for Tag {
    type V = TagView;

    closed spec fn view(&self) -> TagView {
        TagView {
            id: self.id,
            name: self.name@,
            created_by: self.created_by,
            aliases: self.aliases@,
        }
    }
}

impl Tag {
    /// The unique 64-bit identifier for the tag
    pub fn id(&self) -> (id: u64)
        ensures
            id == self@.id,
    {
        self.id
    }

    /// The string name of the tag
    pub fn name(&self) -> (name: &DatabaseValue<String>)
        ensures
            name@ == self@.name,
    {
        &self.name
    }

    /// The id of the user that created this tag
    pub fn created_by(&self) -> (created_by: &DatabaseValue<u64>)
        ensures
            *created_by == self@.created_by,
    {
        &self.created_by
    }

    /// The list of identifiers for the tags this tag is linked to
    pub fn aliases(&self) -> (aliases: &DatabaseValue<Vec<u64>>)
        ensures
            aliases@ == self@.aliases,
    {
        &self.aliases
    }

    /// Builds a tag from what a source shows of it. Each field keeps the
    /// state it is given: present, absent or denied.
    pub fn from_fields(
        id: u64,
        name: DatabaseValue<String>,
        created_by: DatabaseValue<u64>,
        aliases: DatabaseValue<Vec<u64>>,
    ) -> (tag: Tag)
        ensures
            tag@ == (TagView {
                id,
                name: name@,
                created_by,
                aliases: aliases@,
            }),
    {
        Tag { id, name, created_by, aliases }
    }

    /// Creates a new tag with a name and aliases, under a newly drawn
    /// identifier, which lies in the range of fresh record identifiers. Every
    /// field of it is present.
    pub fn new(name: String, created_by: u64, aliases: Vec<u64>) -> (tag: Tag)
        ensures
            FIRST_FRESH_RECORD_ID <= tag@.id <= LAST_FRESH_RECORD_ID,
            tag@.name == DatabaseValue::Present(name@),
            tag@.created_by == DatabaseValue::Present(created_by),
            tag@.aliases == DatabaseValue::Present(aliases@),
    {
        Tag::from_fields(
            fresh_record_id(),
            DatabaseValue::Present(name),
            DatabaseValue::Present(created_by),
            DatabaseValue::Present(aliases),
        )
    }
}

/// The value of a [`Collection`]: its identifier and the state of each field.
pub struct CollectionView {
    pub id: u64,
    pub name: DatabaseValue<Seq<char>>,
    pub created_by: DatabaseValue<u64>,
    pub contained_media: DatabaseValue<Seq<u64>>,
}

/// Represents a group of media (albums, series, comics etc.)
#[derive(PartialEq, Eq, PartialOrd, Ord, Debug, Clone)]
pub struct Collection {
    id: u64,
    name: DatabaseValue<String>,
    created_by: DatabaseValue<u64>,
    contained_media: DatabaseValue<Vec<u64>>,
}

impl View for Collection {
    type V = CollectionView;

    closed spec fn view(&self) -> CollectionView {
        CollectionView {
            id: self.id,
            name: self.name@,
            created_by: self.created_by,
            contained_media: self.contained_media@,
        }
    }
}

impl Collection {
    /// The unique 64-bit identifier for the collection
    pub fn id(&self) -> (id: u64)
        ensures
            id == self@.id,
    {
        self.id
    }

    /// The string name of the collection
    pub fn name(&self) -> (name: &DatabaseValue<String>)
        ensures
            name@ == self@.name,
    {
        &self.name
    }

    /// The id of the user that created this collection
    pub fn created_by(&self) -> (created_by: &DatabaseValue<u64>)
        ensures
            *created_by == self@.created_by,
    {
        &self.created_by
    }

    /// The ordered list of media that this collection represents
    pub fn contained_media(&self) -> (contained_media: &DatabaseValue<Vec<u64>>)
        ensures
            contained_media@ == self@.contained_media,
    {
        &self.contained_media
    }

    /// Builds a collection from what a source shows of it. Each field keeps the
    /// state it is given: present, absent or denied.
    pub fn from_fields(
        id: u64,
        name: DatabaseValue<String>,
        created_by: DatabaseValue<u64>,
        contained_media: DatabaseValue<Vec<u64>>,
    ) -> (collection: Collection)
        ensures
            collection@ == (CollectionView {
                id,
                name: name@,
                created_by,
                contained_media: contained_media@,
            }),
    {
        Collection { id, name, created_by, contained_media }
    }

    /// Creates a new collection with a name and contained media, under a newly drawn
    /// identifier, which lies in the range of fresh record identifiers. Every
    /// field of it is present.
    pub fn new(name: String, created_by: u64, contained_media: Vec<u64>) -> (collection: Collection)
        ensures
            FIRST_FRESH_RECORD_ID <= collection@.id <= LAST_FRESH_RECORD_ID,
            collection@.name == DatabaseValue::Present(name@),
            collection@.created_by == DatabaseValue::Present(created_by),
            collection@.contained_media == DatabaseValue::Present(contained_media@),
    {
        Collection::from_fields(
            fresh_record_id(),
            DatabaseValue::Present(name),
            DatabaseValue::Present(created_by),
            DatabaseValue::Present(contained_media),
        )
    }
}

/// The value of a [`Group`]: its identifier and the state of each field.
pub struct GroupView {
    pub id: u64,
    pub name: DatabaseValue<Seq<char>>,
    pub created_by: DatabaseValue<u64>,
    pub contained_tags: DatabaseValue<Seq<u64>>,
}

/// Represents a group of tags
#[derive(PartialEq, Eq, PartialOrd, Ord, Debug, Clone)]
pub struct Group {
    id: u64,
    name: DatabaseValue<String>,
    created_by: DatabaseValue<u64>,
    contained_tags: DatabaseValue<Vec<u64>>,
}

impl View for Group {
    type V = GroupView;

    closed spec fn view(&self) -> GroupView {
        GroupView {
            id: self.id,
            name: self.name@,
            created_by: self.created_by,
            contained_tags: self.contained_tags@,
        }
    }
}

impl Group {
    /// The unique 64-bit identifier for the group
    pub fn id(&self) -> (id: u64)
        ensures
            id == self@.id,
    {
        self.id
    }

    /// The string name of the group
    pub fn name(&self) -> (name: &DatabaseValue<String>)
        ensures
            name@ == self@.name,
    {
        &self.name
    }

    /// The id of the user that created this group
    pub fn created_by(&self) -> (created_by: &DatabaseValue<u64>)
        ensures
            *created_by == self@.created_by,
    {
        &self.created_by
    }

    /// The list of tags that this group represents
    pub fn contained_tags(&self) -> (contained_tags: &DatabaseValue<Vec<u64>>)
        ensures
            contained_tags@ == self@.contained_tags,
    {
        &self.contained_tags
    }

    /// Builds a group from what a source shows of it. Each field keeps the
    /// state it is given: present, absent or denied.
    pub fn from_fields(
        id: u64,
        name: DatabaseValue<String>,
        created_by: DatabaseValue<u64>,
        contained_tags: DatabaseValue<Vec<u64>>,
    ) -> (group: Group)
        ensures
            group@ == (GroupView {
                id,
                name: name@,
                created_by,
                contained_tags: contained_tags@,
            }),
    {
        Group { id, name, created_by, contained_tags }
    }

    /// Creates a new group with a name and tags, under a newly drawn
    /// identifier, which lies in the range of fresh record identifiers. Every
    /// field of it is present.
    pub fn new(name: String, created_by: u64, contained_tags: Vec<u64>) -> (group: Group)
        ensures
            FIRST_FRESH_RECORD_ID <= group@.id <= LAST_FRESH_RECORD_ID,
            group@.name == DatabaseValue::Present(name@),
            group@.created_by == DatabaseValue::Present(created_by),
            group@.contained_tags == DatabaseValue::Present(contained_tags@),
    {
        Group::from_fields(
            fresh_record_id(),
            DatabaseValue::Present(name),
            DatabaseValue::Present(created_by),
            DatabaseValue::Present(contained_tags),
        )
    }
}

/// Represents a collection of properties to attach to a media object
pub trait MediaProperties {
    fn as_hash_set(&self) -> HashSet<String, String>;

    fn load_hash_set(&mut self, set: HashSet<String, String>);
}

/// The value of a [`Media`]: its identifier and the state of each field.
pub struct MediaView {
    pub id: u64,
    pub custom_properties: DatabaseValue<Rc<dyn MediaProperties>>,
    pub extension: DatabaseValue<Seq<char>>,
    pub created_by: DatabaseValue<u64>,
}

/// Represents a media object
pub struct Media {
    id: u64,
    custom_properties: DatabaseValue<Rc<dyn MediaProperties>>,
    extension: DatabaseValue<String>,
    created_by: DatabaseValue<u64>,
}

impl View for Media {
    type V = MediaView;

    closed spec fn view(&self) -> MediaView {
        MediaView {
            id: self.id,
            custom_properties: self.custom_properties,
            extension: self.extension@,
            created_by: self.created_by,
        }
    }
}

impl Media {
    /// The unique 64-bit identifier for the media
    pub fn id(&self) -> (id: u64)
        ensures
            id == self@.id,
    {
        self.id
    }

    /// The properties that are particular to this kind of media
    pub fn custom_properties(&self) -> (custom_properties: &DatabaseValue<Rc<dyn MediaProperties>>)
        ensures
            *custom_properties == self@.custom_properties,
    {
        &self.custom_properties
    }

    /// The file extension of the media
    pub fn extension(&self) -> (extension: &DatabaseValue<String>)
        ensures
            extension@ == self@.extension,
    {
        &self.extension
    }

    /// The id of the user that created this media
    pub fn created_by(&self) -> (created_by: &DatabaseValue<u64>)
        ensures
            *created_by == self@.created_by,
    {
        &self.created_by
    }

    /// Builds a media from what a source shows of it. Each field keeps the
    /// state it is given: present, absent or denied.
    pub fn from_fields(
        id: u64,
        custom_properties: DatabaseValue<Rc<dyn MediaProperties>>,
        extension: DatabaseValue<String>,
        created_by: DatabaseValue<u64>,
    ) -> (media: Media)
        ensures
            media@ == (MediaView {
                id,
                custom_properties,
                extension: extension@,
                created_by,
            }),
    {
        Media { id, custom_properties, extension, created_by }
    }

    /// Creates a new reference to a file with the extension and creator,
    /// under a newly drawn identifier. The custom properties are present
    /// where some are given and absent otherwise.
    pub fn new(
        extension: String,
        created_by: u64,
        custom_properties: Option<Rc<dyn MediaProperties>>,
    ) -> (media: Media)
        ensures
            FIRST_FRESH_RECORD_ID <= media@.id <= LAST_FRESH_RECORD_ID,
            media@.extension == DatabaseValue::Present(extension@),
            media@.created_by == DatabaseValue::Present(created_by),
            media@.custom_properties == match custom_properties {
                Some(properties) => DatabaseValue::Present(properties),
                None => DatabaseValue::Absent,
            },
    {
        let custom_properties = match custom_properties {
            Some(properties) => DatabaseValue::Present(properties),
            None => DatabaseValue::Absent,
        };
        Media::from_fields(
            fresh_record_id(),
            custom_properties,
            DatabaseValue::Present(extension),
            DatabaseValue::Present(created_by),
        )
    }
}

/// The value of a [`User`]: its identifier and the state of each field.
pub struct UserView {
    pub id: u64,
    pub name: DatabaseValue<Seq<char>>,
    pub passhash: DatabaseValue<Seq<char>>,
}

/// Represents a user
pub struct User {
    id: u64,
    name: DatabaseValue<String>,
    passhash: DatabaseValue<String>,
}

impl View for User {
    type V = UserView;

    closed spec fn view(&self) -> UserView {
        UserView {
            id: self.id,
            name: self.name@,
            passhash: self.passhash@,
        }
    }
}

impl User {
    /// The unique 64-bit identifier for the user
    pub fn id(&self) -> (id: u64)
        ensures
            id == self@.id,
    {
        self.id
    }

    /// The display name of the user
    pub fn name(&self) -> (name: &DatabaseValue<String>)
        ensures
            name@ == self@.name,
    {
        &self.name
    }

    /// The hash of the user's password
    pub fn passhash(&self) -> (passhash: &DatabaseValue<String>)
        ensures
            passhash@ == self@.passhash,
    {
        &self.passhash
    }

    /// Builds a user from what a source shows of it. Each field keeps the
    /// state it is given: present, absent or denied.
    pub fn from_fields(
        id: u64,
        name: DatabaseValue<String>,
        passhash: DatabaseValue<String>,
    ) -> (user: User)
        ensures
            user@ == (UserView {
                id,
                name: name@,
                passhash: passhash@,
            }),
    {
        User { id, name, passhash }
    }

    /// Creates a new user out of their name and secure passhash, under a
    /// newly drawn identifier. Every field of it is present.
    pub fn new(name: String, passhash: String) -> (user: User)
        ensures
            FIRST_FRESH_RECORD_ID <= user@.id <= LAST_FRESH_RECORD_ID,
            user@.name == DatabaseValue::Present(name@),
            user@.passhash == DatabaseValue::Present(passhash@),
    {
        User::from_fields(
            fresh_record_id(),
            DatabaseValue::Present(name),
            DatabaseValue::Present(passhash),
        )
    }
}

} // verus!
