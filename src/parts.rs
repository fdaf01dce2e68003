use vstd::prelude::*;

use crate::headers::{after_append, after_set, HeaderList};

verus! {

/// The header name under which a redirect names its target.
pub const LOCATION: &'static str = "Location";

/// What a server function asks of the response it is part of: headers to add,
/// and a status code that overrides the one the response would otherwise get.
#[derive(Debug, Clone)]
pub struct ResponseParts {
    pub headers: HeaderList,
    pub status: Option<u16>,
}

impl Default for ResponseParts {
    fn default() -> (r: ResponseParts)
        ensures
            r.headers@ == Seq::<(Seq<char>, Seq<char>)>::empty(),
            r.status == None::<u16>,
    {
        ResponseParts { headers: HeaderList::new(), status: None }
    }
}

impl ResponseParts {
    /// Inserts a header, replacing any earlier value under the same name. A
    /// name or a value that HTTP does not allow leaves the headers as they were.
    pub fn insert_header(&mut self, key: &str, value: &str)
        ensures
            final(self).headers@ == after_set(old(self).headers@, key@, value@),
            final(self).status == old(self).status,
    {
        self.headers.set(key, value);
    }

    /// Appends a header, leaving any header with the same name in place. A
    /// name or a value that HTTP does not allow leaves the headers as they were.
    pub fn append_header(&mut self, key: &str, value: &str)
        ensures
            final(self).headers@ == after_append(old(self).headers@, key@, value@),
            final(self).status == old(self).status,
    {
        self.headers.append(key, value);
    }

    /// Sets the status code of the response.
    pub fn set_status(&mut self, status: u16)
        ensures
            final(self).headers@ == old(self).headers@,
            final(self).status == Some(status),
    {
        self.status = Some(status);
    }
}

/// Turns the response into a redirect to `path`: status 302 (Found), and a
/// `Location` header with `path` in place of any earlier one. A `path` that
/// HTTP does not allow as a header value leaves the headers as they were.
pub fn redirect(parts: &mut ResponseParts, path: &str)
    ensures
        final(parts).status == Some(302u16),
        final(parts).headers@ == after_set(old(parts).headers@, LOCATION@, path@),
{
    parts.set_status(302);
    parts.insert_header(LOCATION, path);
}

} // verus!
