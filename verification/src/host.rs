//! Values as the scripting host hands them over, before any validation.

use vstd::prelude::*;

verus! {

/// A dynamically typed value of the host.
#[derive(Debug, PartialEq, Eq)]
pub enum HostValue {
    /// The host's "no value".
    Nil,
    /// A boolean.
    Bool(bool),
    /// An integer.
    Integer(i64),
    /// A string of text.
    Text(String),
    /// An ordered list of values.
    List(Vec<HostValue>),
    /// A mapping, given as the rows that enumerating it yields, in order.
    /// A well-formed row is a list of two values: the key and the value.
    Mapping(Vec<HostValue>),
    /// Any other object.
    Other,
}

impl HostValue {
    /// The host's notion of truth: everything but `Nil` and `false`.
    pub open spec fn truthy(self) -> bool {
        match self {
            HostValue::Nil => false,
            HostValue::Bool(b) => b,
            _ => true,
        }
    }

    /// Tells whether the host takes this value for true.
    pub fn is_truthy(&self) -> (r: bool)
        ensures
            r == self.truthy(),
    {
        match self {
            HostValue::Nil => false,
            HostValue::Bool(b) => *b,
            _ => true,
        }
    }
}

/// The three options of a call as the host supplied them. A field is `None`
/// where the host's option object has no such key.
#[derive(Debug, PartialEq, Eq)]
pub struct RawOptions {
    pub headers: Option<HostValue>,
    pub body: Option<HostValue>,
    pub read_body: Option<HostValue>,
}

} // verus!
