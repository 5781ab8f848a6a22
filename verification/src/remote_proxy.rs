//! The addresses under which a bookmark server answers.

use vstd::prelude::*;
use vstd::string::*;

verus! {

/// The seven addresses of a bookmark server, one for each request.
#[derive(Debug, Clone)]
pub struct Endpoints {
    /// Fetches one bookmark.
    pub bookmark: String,
    /// Lists all bookmarks.
    pub list: String,
    /// Adds a bookmark.
    pub add: String,
    /// Deletes a bookmark.
    pub delete: String,
    /// Replaces a bookmark's description.
    pub update_description: String,
    /// Replaces a bookmark's address.
    pub update_url: String,
    /// Replaces a bookmark's tags.
    pub update_tags: String,
}

fn under(base: &str, name: &str) -> (r: String)
    ensures
        r@ == base@ + name@,
{
    let mut out = base.to_string();
    out.append(name);
    out
}

impl Endpoints {
    /// Whether these are the addresses below `base`: `base` followed by
    /// each request's name.
    pub open spec fn is_under(self, base: Seq<char>) -> bool {
        &&& self.bookmark@ == base + "/bookmark"@
        &&& self.list@ == base + "/list"@
        &&& self.add@ == base + "/add"@
        &&& self.delete@ == base + "/delete"@
        &&& self.update_description@ == base + "/update_description"@
        &&& self.update_url@ == base + "/update_url"@
        &&& self.update_tags@ == base + "/update_tags"@
    }

    /// The addresses below `base`.
    pub fn under(base: &str) -> (r: Endpoints)
        ensures
            r.is_under(base@),
    {
        Endpoints {
            bookmark: under(base, "/bookmark"),
            list: under(base, "/list"),
            add: under(base, "/add"),
            delete: under(base, "/delete"),
            update_description: under(base, "/update_description"),
            update_url: under(base, "/update_url"),
            update_tags: under(base, "/update_tags"),
        }
    }
}

/// A bookmark store behind a server.
#[derive(Debug)]
pub struct RemoteProxy {
    endpoints: Endpoints,
}

impl RemoteProxy {
    /// The addresses that requests go to.
    pub closed spec fn spec_endpoints(&self) -> Endpoints {
        self.endpoints
    }

    /// The store behind the server at `url`.
    pub fn new(url: &str) -> (r: Self)
        ensures
            r.spec_endpoints().is_under(url@),
    {
        Self { endpoints: Endpoints::under(url) }
    }

    /// The addresses that requests go to.
    pub fn endpoints(&self) -> (r: &Endpoints)
        ensures
            *r == self.spec_endpoints(),
    {
        &self.endpoints
    }
}

} // verus!
