//! The rows of the bookmark store.

use vstd::prelude::*;

verus! {

/// A bookmark row.
#[derive(Debug)]
pub struct Bookmarks {
    /// The row's key.
    pub id: i32,
    /// The address that the bookmark points to.
    pub url: String,
    /// What the user wrote about it.
    pub description: String,
}

impl Clone for Bookmarks {
    fn clone(&self) -> (r: Self)
        ensures
            r == *self,
    {
        Bookmarks { id: self.id, url: self.url.clone(), description: self.description.clone() }
    }
}

/// A tag row.
#[derive(Debug)]
pub struct Tags {
    /// The row's key.
    pub id: i32,
    /// The tag's text.
    pub tag: String,
}

impl Clone for Tags {
    fn clone(&self) -> (r: Self)
        ensures
            r == *self,
    {
        Tags { id: self.id, tag: self.tag.clone() }
    }
}

/// A row that attaches a tag to a bookmark.
#[derive(Debug, Clone, Copy)]
pub struct BookmarkTags {
    /// The row's key.
    pub id: i32,
    /// The key of the bookmark.
    pub bookmark_id: i32,
    /// The key of the tag.
    pub tag_id: i32,
}

} // verus!
