//! Capsules: declarative route descriptors.  A capsule binds a URI to a
//! template name, carries human-readable metadata, a declared HTTP method
//! and a JSON-like payload.

use crate::json::{JsonValue, JsonView};
use vstd::prelude::*;

verus! {

/// The HTTP methods a capsule can declare.  The dispatcher treats the
/// declared method as descriptive metadata: it is rendered into the
/// context, never used to reject a request.
#[derive(Clone, Copy, Debug, PartialEq, Eq, Structural)]
pub enum Method {
    GET,
    POST,
    PUT,
    DELETE,
}

/// The name of a method, as it is rendered into a context.
pub open spec fn method_view(m: Method) -> Seq<char> {
    match m {
        Method::GET => "GET"@,
        Method::POST => "POST"@,
        Method::PUT => "PUT"@,
        Method::DELETE => "DELETE"@,
    }
}

impl Method {
    /// The upper-case name of the method.
    pub fn as_str(&self) -> (r: &'static str)
        ensures
            r@ == method_view(*self),
    {
        match self {
            Method::GET => "GET",
            Method::POST => "POST",
            Method::PUT => "PUT",
            Method::DELETE => "DELETE",
        }
    }
}

/// The mathematical content of a capsule: its fields as sequences, plus
/// the view of its payload.
#[verifier::ext_equal]
pub struct CapsuleView {
    pub name: Seq<char>,
    pub description: Seq<char>,
    pub uri: Seq<char>,
    pub template: Seq<char>,
    pub method: Method,
    pub data: JsonView,
}

/// One routable content unit: immutable once built, except that the
/// dispatcher swaps `data` for POST-style requests.
#[derive(Debug)]
pub struct Capsule {
    pub template: String,
    pub name: String,
    pub description: String,
    pub uri: String,
    pub method: Method,
    pub data: JsonValue,
}

impl View for Capsule {
    type V = CapsuleView;

    open spec fn view(&self) -> CapsuleView {
        CapsuleView {
            name: self.name@,
            description: self.description@,
            uri: self.uri@,
            template: self.template@,
            method: self.method,
            data: self.data@,
        }
    }
}

impl Capsule {
    /// Builds a capsule from its parts; the payload starts as the empty
    /// object.  Construction cannot fail and validates nothing: callers
    /// must register URIs in the canonical leading-slash form the
    /// dispatcher looks up.
    pub fn new(name: String, description: String, uri: String, template: String, method: Method)
        -> (r: Self)
        ensures
            r@ == (CapsuleView {
                name: name@,
                description: description@,
                uri: uri@,
                template: template@,
                method,
                data: JsonView::Obj(Seq::empty()),
            }),
    {
        Self { name, description, uri, template, method, data: JsonValue::empty_object() }
    }
}

impl Clone for Capsule {
    /// A deep copy whose view is the view of the original.
    fn clone(&self) -> (r: Self)
        ensures
            r@ == self@,
    {
        Self {
            template: self.template.clone(),
            name: self.name.clone(),
            description: self.description.clone(),
            uri: self.uri.clone(),
            method: self.method,
            data: self.data.clone(),
        }
    }
}

} // verus!
