//! Properties of a whole call, proved from the definitions of its steps.

use vstd::prelude::*;
use crate::header::{
    collapsed, lemma_collapsed_distinct, lemma_collapsed_lookup, lookup, names_distinct, pairs,
};
use crate::error::Failure;
use crate::host::{HostValue, RawOptions};
use crate::options::{headers_of, row_is_pair, row_pair};
use crate::request::{planned, RequestModel};
use crate::response::{
    answered, bodiless, completed, BodyOutcome, ResponseHead, SendOutcome, StepModel,
};
use crate::verb::Verb;

verus! {

/// A call whose body is wanted, that is answered and whose body is read,
/// returns the status code that arrived and exactly the bytes that were read.
/// The outcome depends on nothing else, so two calls that are answered alike
/// return alike.
pub proof fn lemma_answer_is_returned(head: ResponseHead, bytes: Vec<u8>)
    ensures
        answered(true, SendOutcome::Answered(head)) == StepModel::ReadBody(bodiless(head)),
        completed(bodiless(head), BodyOutcome::Read(bytes)) matches Ok(response)
            && response.status_code == head.status_code && response.body == Some(bytes@)
            && response.headers == collapsed(pairs(head.headers@)),
{
}

/// A call that does not want the body ends with the answer and returns no
/// body, whatever the server sent.
pub proof fn lemma_unread_body_is_absent(head: ResponseHead)
    ensures
        answered(false, SendOutcome::Answered(head)) matches StepModel::Done(Ok(response))
            && response.body.is_none() && response.status_code == head.status_code,
{
}

/// The headers of a request are the rows of the `headers` option: as many,
/// in the same order, each with the name and the value it was given.
pub proof fn lemma_headers_pass_verbatim(
    verb: Verb,
    url: Seq<char>,
    raw: RawOptions,
    rows: Vec<HostValue>,
)
    requires
        raw.headers == Some(HostValue::Mapping(rows)),
        planned(verb, Ok(url), Some(raw)) is Ok,
    ensures
        planned(verb, Ok(url), Some(raw))->Ok_0.headers.len() == rows@.len(),
        forall|i: int|
            0 <= i < rows@.len() ==> row_is_pair(#[trigger] rows@[i]) && planned(
                verb,
                Ok(url),
                Some(raw),
            )->Ok_0.headers[i] == row_pair(rows@[i]),
{
    assert(headers_of(raw.headers) is Ok);
}

/// The headers of a response hold each name once, and give for every name
/// the value of the last line that the server sent under it; a name is
/// missing only where the server sent no such line.
pub proof fn lemma_response_headers_last_wins(head: ResponseHead, name: Seq<char>)
    ensures
        names_distinct(bodiless(head).headers),
        lookup(bodiless(head).headers, name) == lookup(pairs(head.headers@), name),
{
    lemma_collapsed_distinct(pairs(head.headers@));
    lemma_collapsed_lookup(pairs(head.headers@), name);
}

/// A URL that does not parse fails the call with the parser's message,
/// whatever the verb and the options.
pub proof fn lemma_bad_url_fails_first(verb: Verb, message: Seq<char>, raw: Option<RawOptions>)
    ensures
        planned(verb, Err(message), raw) == Err::<RequestModel, Failure>(Failure::InvalidUrl(message)),
{
}

/// A request that the transport could not deliver fails the call with the
/// transport's message, whether or not the body was wanted.
pub proof fn lemma_transport_failure_ends_call(read_body: bool, message: String)
    ensures
        answered(read_body, SendOutcome::Failed(message)) == StepModel::Done(
            Err(Failure::RequestFailed(message@)),
        ),
{
}

/// With a URL that parses and headers that are in order, a body that is
/// present and no text fails the call.
pub proof fn lemma_body_must_be_text(verb: Verb, url: Seq<char>, raw: RawOptions)
    requires
        headers_of(raw.headers) is Ok,
        raw.body is Some,
        !(raw.body->Some_0 is Text),
    ensures
        planned(verb, Ok(url), Some(raw)) == Err::<RequestModel, Failure>(Failure::InvalidBodyType),
{
}

/// Two calls that want the body and are answered with the same status code
/// and the same bytes return the same status code and the same body.
pub proof fn lemma_same_answer_same_result(
    first: ResponseHead,
    second: ResponseHead,
    first_bytes: Vec<u8>,
    second_bytes: Vec<u8>,
)
    requires
        first.status_code == second.status_code,
        first_bytes@ == second_bytes@,
    ensures
        completed(bodiless(first), BodyOutcome::Read(first_bytes)) matches Ok(a) && completed(
            bodiless(second),
            BodyOutcome::Read(second_bytes),
        ) matches Ok(b) && a.status_code == b.status_code && a.body == b.body,
{
}

} // verus!
