//! Finding schools: the service that knows which server a school is on.

use crate::codec::{member_holds, Decode, Encode};
use crate::error::{Error, ErrorView};
use crate::json::{rendered, JsonValue};
use crate::jsonrpc::{envelope, reply_payload, Call, Client, ErrorCode, Reply};
use crate::operation::Operation;
use crate::params::FindSchoolParams;
use crate::resources::{School, SchoolSearchResult};
use vstd::prelude::*;

verus! {

/// A fresh handle for the school search service.
pub fn get_client() -> (r: Client)
    ensures
        r.url() == "https://mobile.webuntis.com/ms/schoolquery2"@,
        r.last_id() == 0,
{
    Client::new("https://mobile.webuntis.com/ms/schoolquery2")
}

/// Whether `call` is the first call of a fresh handle for the school search
/// service, asking for the schools that match `wanted`.
pub open spec fn is_query(call: Call<SchoolSearchResult>, wanted: JsonValue) -> bool {
    &&& call.id == 1
    &&& call.url@ == "https://mobile.webuntis.com/ms/schoolquery2"@
    &&& call.body@ == rendered(envelope(1, "searchSchool"@, JsonValue::Array(seq![wanted])))
}

fn query(wanted: FindSchoolParams) -> (call: Call<SchoolSearchResult>)
    ensures
        is_query(call, wanted.encoded()),
{
    let mut client = get_client();
    Operation::SearchSchool(wanted).issue(&mut client)
}

/// The request for all schools matching `query`. [`search_answer`] reads
/// the reply.
pub fn search(query: &str) -> (call: Call<SchoolSearchResult>)
    ensures
        is_query(call, JsonValue::Object(seq![("search"@, JsonValue::Text(query@))])),
{
    self::query(FindSchoolParams::Search { search: query })
}

/// The request for the school with the identifier `id`. [`lookup_answer`]
/// reads the reply.
pub fn get_by_id(id: &usize) -> (call: Call<SchoolSearchResult>)
    ensures
        is_query(call, JsonValue::Object(seq![("schoolid"@, JsonValue::Number(Some(*id as i128)))])),
{
    query(FindSchoolParams::ById { schoolid: id })
}

/// The request for the school with the login name `name`.
/// [`lookup_answer`] reads the reply.
pub fn get_by_name(name: &str) -> (call: Call<SchoolSearchResult>)
    ensures
        is_query(call, JsonValue::Object(seq![("schoolname"@, JsonValue::Text(name@))])),
{
    query(FindSchoolParams::ByName { schoolname: name })
}

/// The first school of a list; `NotFound` for an empty list.
pub fn get_first(list: Vec<School>) -> (r: Result<School, Error>)
    ensures
        match r {
            Ok(school) => list@.len() > 0 && school == list@[0],
            Err(e) => list@.len() == 0 && e matches Error::NotFound,
        },
{
    let mut list = list;
    if list.len() == 0 {
        Err(Error::NotFound)
    } else {
        Ok(list.swap_remove(0))
    }
}

/// Whether `r` is `result` with "too many results" taken for an empty
/// list: the schools of a successful search, no school where the server
/// refused to list them all, and every other error as it is.
pub open spec fn caught(result: Result<SchoolSearchResult, Error>, r: Result<Vec<School>, Error>) -> bool {
    match result {
        Ok(found) => r == Ok::<Vec<School>, Error>(found.schools),
        Err(Error::Rpc(e)) => if e.code == ErrorCode::TooManyResults.number() {
            r matches Ok(list) && list@.len() == 0
        } else {
            r matches Err(x) && x == Error::Rpc(e)
        },
        Err(e) => r matches Err(x) && x == e,
    }
}

/// Takes the server's "too many results" for an empty list.
pub fn catch_too_many(result: Result<SchoolSearchResult, Error>) -> (r: Result<Vec<School>, Error>)
    ensures
        caught(result, r),
{
    match result {
        Ok(v) => Ok(v.schools),
        Err(Error::Rpc(err)) => {
            if err.code == -6003 {
                Ok(Vec::new())
            } else {
                Err(Error::Rpc(err))
            }
        },
        Err(err) => Err(err),
    }
}

/// Whether `r` is what a search returns for `outcome`: the schools that
/// the result lists; no school where the server answered "too many
/// results"; otherwise the failure.
pub open spec fn search_reading(outcome: Result<JsonValue, ErrorView>, r: Result<Vec<School>, Error>) -> bool {
    match outcome {
        Ok(result) => if SchoolSearchResult::fits(result) {
            r matches Ok(list) && member_holds(&list, result, "schools"@)
        } else {
            r matches Err(x) && x@ == ErrorView::Decode
        },
        Err(ErrorView::Rpc(e)) => if e.code == ErrorCode::TooManyResults.number() {
            r matches Ok(list) && list@.len() == 0
        } else {
            r matches Err(x) && x@ == ErrorView::Rpc(e)
        },
        Err(e) => r matches Err(x) && x@ == e,
    }
}

/// Whether `r` is what a lookup returns for `outcome`: the first school
/// that the result lists; `NotFound` where it lists none or the server
/// answered "too many results"; otherwise the failure.
pub open spec fn lookup_reading(outcome: Result<JsonValue, ErrorView>, r: Result<School, Error>) -> bool {
    match outcome {
        Ok(result) => if SchoolSearchResult::fits(result) {
            let listed = result.member("schools"@)->0->Array_0;
            if listed.len() == 0 {
                r matches Err(Error::NotFound)
            } else {
                r matches Ok(school) && school.holds(listed[0])
            }
        } else {
            r matches Err(x) && x@ == ErrorView::Decode
        },
        Err(ErrorView::Rpc(e)) => if e.code == ErrorCode::TooManyResults.number() {
            r matches Err(Error::NotFound)
        } else {
            r matches Err(x) && x@ == ErrorView::Rpc(e)
        },
        Err(e) => r matches Err(x) && x@ == e,
    }
}

/// Reads the reply to a [`search`].
pub fn search_answer(call: &Call<SchoolSearchResult>, reply: &Reply) -> (r: Result<Vec<School>, Error>)
    ensures
        search_reading(reply_payload(call.id, reply@), r),
{
    catch_too_many(call.answer(reply))
}

/// Reads the reply to a [`get_by_id`] or a [`get_by_name`].
pub fn lookup_answer(call: &Call<SchoolSearchResult>, reply: &Reply) -> (r: Result<School, Error>)
    ensures
        lookup_reading(reply_payload(call.id, reply@), r),
{
    match catch_too_many(call.answer(reply)) {
        Ok(list) => get_first(list),
        Err(e) => Err(e),
    }
}

/// Where the server answers "too many results", a search returns no
/// school and a lookup returns `NotFound`: the lookup treats the refusal as
/// it treats an empty list.
pub proof fn lemma_too_many_results(
    message: Seq<char>,
    found: Result<Vec<School>, Error>,
    looked_up: Result<School, Error>,
)
    requires
        search_reading(
            Err(ErrorView::Rpc(crate::error::RpcErrorView { code: -6003i64, message })),
            found,
        ),
        lookup_reading(
            Err(ErrorView::Rpc(crate::error::RpcErrorView { code: -6003i64, message })),
            looked_up,
        ),
    ensures
        found matches Ok(list) && list@.len() == 0,
        looked_up matches Err(Error::NotFound),
{
}

/// A lookup returns the school that the result lists first, and `NotFound`
/// where the result lists none.
pub proof fn lemma_lookup_by_count(result: JsonValue, looked_up: Result<School, Error>)
    requires
        SchoolSearchResult::fits(result),
        lookup_reading(Ok(result), looked_up),
    ensures
        result.member("schools"@)->0->Array_0.len() == 0 ==> looked_up matches Err(Error::NotFound),
        result.member("schools"@)->0->Array_0.len() > 0 ==> (looked_up matches Ok(school) && school.holds(
            result.member("schools"@)->0->Array_0[0],
        )),
{
}

} // verus!
