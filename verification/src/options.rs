//! Validation of the per-call options.

use vstd::prelude::*;
use crate::error::{Failure, RequestError};
use crate::header::{pairs, Header, Pair};
use crate::host::{HostValue, RawOptions};

verus! {

/// The validated options of one call.
#[derive(Clone, Debug, PartialEq, Eq)]
pub struct RequestOptions {
    /// Request headers, in the order they were given.
    pub headers: Vec<Header>,
    /// The request body, if any.
    pub body: Option<String>,
    /// Whether the response body is to be read and returned.
    pub read_body: bool,
}

/// The mathematical value of [`RequestOptions`].
pub struct OptionsModel {
    pub headers: Seq<Pair>,
    pub body: Option<Seq<char>>,
    pub read_body: bool,
}

impl View for RequestOptions {
    type V = OptionsModel;

    open spec fn view(&self) -> OptionsModel {
        OptionsModel {
            headers: pairs(self.headers@),
            body: match self.body {
                Some(b) => Some(b@),
                None => None,
            },
            read_body: self.read_body,
        }
    }
}

/// The options of a call that gives none: no headers, no body, and the
/// response body is read.
pub open spec fn default_options() -> OptionsModel {
    OptionsModel { headers: Seq::empty(), body: None, read_body: true }
}

impl Default for RequestOptions {
    fn default() -> (r: RequestOptions)
        ensures
            r@ == default_options(),
    {
        let r = RequestOptions { headers: Vec::new(), body: None, read_body: true };
        assert(pairs(r.headers@) =~= Seq::empty());
        r
    }
}

/// A row is a header when it is a list of exactly two texts.
pub open spec fn row_is_pair(row: HostValue) -> bool {
    row matches HostValue::List(cells) && cells@.len() == 2 && cells@[0] is Text && cells@[1] is Text
}

/// The name and value that a header row holds.
pub open spec fn row_pair(row: HostValue) -> Pair
    recommends
        row_is_pair(row),
{
    (row->List_0@[0]->Text_0@, row->List_0@[1]->Text_0@)
}

/// The headers that a `headers` option stands for. A missing option, or one
/// that is no mapping, stands for no headers. A mapping stands for its rows,
/// in order, and is refused as a whole if any row is not a pair of texts.
pub open spec fn headers_of(value: Option<HostValue>) -> Result<Seq<Pair>, Failure> {
    match value {
        Some(HostValue::Mapping(rows)) => {
            if forall|i: int| 0 <= i < rows@.len() ==> row_is_pair(#[trigger] rows@[i]) {
                Ok(Seq::new(rows@.len(), |i: int| row_pair(rows@[i])))
            } else {
                Err(Failure::InvalidHeaderEntry)
            }
        },
        _ => Ok(Seq::empty()),
    }
}

/// The body that a `body` option stands for: none if the option is missing,
/// the text if it is one, and a failure for any other value, `Nil` included.
pub open spec fn body_of(value: Option<HostValue>) -> Result<Option<Seq<char>>, Failure> {
    match value {
        None => Ok(None),
        Some(HostValue::Text(t)) => Ok(Some(t@)),
        Some(_) => Err(Failure::InvalidBodyType),
    }
}

/// Whether the response body is to be read: yes unless the option is present
/// and the host takes it for false.
pub open spec fn read_body_of(value: Option<HostValue>) -> bool {
    match value {
        None => true,
        Some(v) => v.truthy(),
    }
}

/// The validated form of the options of a call. The headers are looked at
/// before the body, so a call with both wrong fails on the headers.
pub open spec fn resolved(raw: Option<RawOptions>) -> Result<OptionsModel, Failure> {
    match raw {
        None => Ok(default_options()),
        Some(raw) => match headers_of(raw.headers) {
            Err(f) => Err(f),
            Ok(headers) => match body_of(raw.body) {
                Err(f) => Err(f),
                Ok(body) => Ok(OptionsModel { headers, body, read_body: read_body_of(raw.read_body) }),
            },
        },
    }
}

/// Reads one header row: `Some` exactly when the row is a pair of texts.
pub fn read_row(row: &HostValue) -> (r: Option<Header>)
    ensures
        r is Some <==> row_is_pair(*row),
        r matches Some(h) ==> h@ == row_pair(*row),
{
    match row {
        HostValue::List(cells) => {
            if cells.len() != 2 {
                return None;
            }
            match &cells[0] {
                HostValue::Text(name) => match &cells[1] {
                    HostValue::Text(value) => Some(
                        Header { name: name.clone(), value: value.clone() },
                    ),
                    _ => None,
                },
                _ => None,
            }
        },
        _ => None,
    }
}

/// Reads the `headers` option.
pub fn read_headers(value: &Option<HostValue>) -> (r: Result<Vec<Header>, RequestError>)
    ensures
        match headers_of(*value) {
            Ok(ps) => r matches Ok(hs) && pairs(hs@) == ps,
            Err(f) => r matches Err(e) && e@ == f,
        },
{
    match value {
        Some(HostValue::Mapping(rows)) => {
            let mut out: Vec<Header> = Vec::new();
            let mut i: usize = 0;
            while i < rows.len()
                invariant
                    *value == Some(HostValue::Mapping(*rows)),
                    i <= rows@.len(),
                    out@.len() == i,
                    forall|j: int| 0 <= j < i ==> row_is_pair(#[trigger] rows@[j]),
                    forall|j: int| 0 <= j < i ==> (#[trigger] out@[j])@ == row_pair(rows@[j]),
                decreases rows@.len() - i,
            {
                match read_row(&rows[i]) {
                    Some(h) => out.push(h),
                    None => {
                        assert(!row_is_pair(rows@[i as int]));
                        return Err(RequestError::InvalidHeaderEntry);
                    },
                }
                i += 1;
            }
            assert(pairs(out@) =~= Seq::new(rows@.len(), |i: int| row_pair(rows@[i])));
            Ok(out)
        },
        _ => {
            let out: Vec<Header> = Vec::new();
            assert(pairs(out@) =~= Seq::empty());
            Ok(out)
        },
    }
}

/// Reads the `body` option.
pub fn read_body_text(value: &Option<HostValue>) -> (r: Result<Option<String>, RequestError>)
    ensures
        match body_of(*value) {
            Ok(None) => r matches Ok(None),
            Ok(Some(t)) => r matches Ok(Some(s)) && s@ == t,
            Err(f) => r matches Err(e) && e@ == f,
        },
{
    match value {
        None => Ok(None),
        Some(HostValue::Text(t)) => Ok(Some(t.clone())),
        Some(_) => Err(RequestError::InvalidBodyType),
    }
}

/// Reads the `read_body` option.
pub fn read_body_flag(value: &Option<HostValue>) -> (r: bool)
    ensures
        r == read_body_of(*value),
{
    match value {
        None => true,
        Some(v) => v.is_truthy(),
    }
}

/// Validates the options of a call; `None` stands for a call without options.
pub fn resolve(raw: &Option<RawOptions>) -> (r: Result<RequestOptions, RequestError>)
    ensures
        match resolved(*raw) {
            Ok(m) => r matches Ok(o) && o@ == m,
            Err(f) => r matches Err(e) && e@ == f,
        },
{
    match raw {
        None => Ok(RequestOptions::default()),
        Some(raw) => {
            let headers = match read_headers(&raw.headers) {
                Ok(headers) => headers,
                Err(e) => return Err(e),
            };
            let body = match read_body_text(&raw.body) {
                Ok(body) => body,
                Err(e) => return Err(e),
            };
            Ok(RequestOptions { headers, body, read_body: read_body_flag(&raw.read_body) })
        },
    }
}

} // verus!
