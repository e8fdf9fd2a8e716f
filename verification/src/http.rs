//! Request and response descriptors: the uniform shapes in which the
//! broker accepts work and returns results.  Header mappings are
//! carried as pair lists whose mapping view lets the last occurrence
//! of a name win (the explicit tie-break for upstream responses that
//! repeat a header name).

use vstd::prelude::*;
use crate::kv::{kv_map, kv_get};

verus! {

/// A request to perform: method, target path, headers (set verbatim),
/// body bytes, and a query string appended to the target after `?`.
#[derive(Debug, Clone)]
pub struct RequestDescriptor {
    pub method: String,
    pub path: String,
    pub header: Vec<(String, String)>,
    pub body: Vec<u8>,
    pub query_string: String,
}

/// The uniform result of a performed request: the numeric status
/// code, the response headers, and the full body bytes.
#[derive(Debug, Clone)]
pub struct ResponseDescriptor {
    pub status_code: u32,
    pub header: Vec<(String, String)>,
    pub body: Vec<u8>,
}

impl ResponseDescriptor {
    /// The header mapping the pair list denotes: last occurrence of a
    /// name wins.
    pub open spec fn header_map(&self) -> Map<Seq<char>, Seq<char>> {
        kv_map(self.header@)
    }

    /// Look up a response header by name, under the last-wins mapping
    /// view.
    pub fn header_value<'a>(&'a self, name: &str) -> (r: Option<&'a String>)
        ensures
            match r {
                Some(v) => self.header_map().contains_key(name@) && v@ == self.header_map()[name@],
                None => !self.header_map().contains_key(name@),
            },
    {
        kv_get(&self.header, name)
    }
}

} // verus!
