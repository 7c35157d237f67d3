//! Configuration for the concrete HTTP binding.  The binding itself —
//! the listen loop, route mounting and the second template compilation
//! pass at the HTTP layer — is outside work; the library holds the
//! configuration it is driven by.

use vstd::prelude::*;

verus! {

/// Configuration of the HTTP server binding backed by the file-based
/// template engine: where its template sources live.
pub struct RocketTeraServer {
    templates_dir: String,
}

impl RocketTeraServer {
    /// A server configuration serving templates from the given
    /// directory.
    pub fn new(templates_dir: String) -> (r: Self)
        ensures
            r.dir_view() == templates_dir@,
    {
        RocketTeraServer { templates_dir }
    }

    /// The configured template directory.
    pub closed spec fn dir_view(&self) -> Seq<char> {
        self.templates_dir@
    }

    /// The directory the server compiles template sources from.
    pub fn templates_dir(&self) -> (r: &String)
        ensures
            r@ == self.dir_view(),
    {
        &self.templates_dir
    }
}

} // verus!
