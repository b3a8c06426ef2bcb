//! The catalogue of the service's operations.

use crate::codec::{Decode, Encode};
use crate::json::{rendered, Json, JsonValue};
use crate::jsonrpc::{envelope, Call, Client};
use crate::params::{AuthenticateParams, FindSchoolParams, TimetableParams};
use vstd::prelude::*;

verus! {

/// An operation of the service together with its parameters. The set is
/// closed: what is not listed here cannot be asked for through the typed
/// handles.
#[derive(Debug, Clone, PartialEq, Eq)]
pub enum Operation<'a> {
    Authenticate(AuthenticateParams<'a>),
    LatestImportTime,
    StatusData,
    CurrentSchoolyear,
    Schoolyears,
    Holidays,
    Rooms,
    Classes,
    Subjects,
    Teachers,
    Students,
    Timetable(TimetableParams),
    Departments,
    Logout,
    SearchSchool(FindSchoolParams<'a>),
}

impl<'a> Operation<'a> {
    /// The name of the method on the wire.
    pub open spec fn method(&self) -> Seq<char> {
        match self {
            Operation::Authenticate(_) => "authenticate"@,
            Operation::LatestImportTime => "getLatestImportTime"@,
            Operation::StatusData => "getStatusData"@,
            Operation::CurrentSchoolyear => "getCurrentSchoolyear"@,
            Operation::Schoolyears => "getSchoolyears"@,
            Operation::Holidays => "getHolidays"@,
            Operation::Rooms => "getRooms"@,
            Operation::Classes => "getKlassen"@,
            Operation::Subjects => "getSubjects"@,
            Operation::Teachers => "getTeachers"@,
            Operation::Students => "getStudents"@,
            Operation::Timetable(_) => "getTimetable"@,
            Operation::Departments => "getDepartments"@,
            Operation::Logout => "logout"@,
            Operation::SearchSchool(_) => "searchSchool"@,
        }
    }

    pub fn method_name(&self) -> (r: &'static str)
        ensures
            r@ == self.method(),
    {
        match self {
            Operation::Authenticate(_) => "authenticate",
            Operation::LatestImportTime => "getLatestImportTime",
            Operation::StatusData => "getStatusData",
            Operation::CurrentSchoolyear => "getCurrentSchoolyear",
            Operation::Schoolyears => "getSchoolyears",
            Operation::Holidays => "getHolidays",
            Operation::Rooms => "getRooms",
            Operation::Classes => "getKlassen",
            Operation::Subjects => "getSubjects",
            Operation::Teachers => "getTeachers",
            Operation::Students => "getStudents",
            Operation::Timetable(_) => "getTimetable",
            Operation::Departments => "getDepartments",
            Operation::Logout => "logout",
            Operation::SearchSchool(_) => "searchSchool",
        }
    }

    /// Takes the next id of `client` and builds the request for the
    /// operation.
    pub(crate) fn issue<R: Decode>(&self, client: &mut Client) -> (call: Call<R>)
        requires
            old(client).last_id() < i64::MAX,
        ensures
            final(client).last_id() == old(client).last_id() + 1,
            final(client).url() == old(client).url(),
            call.id == final(client).last_id(),
            call.url@ == old(client).url(),
            call.body@ == rendered(envelope(call.id, self.method(), self.encoded())),
    {
        client.request(self.method_name(), self)
    }
}

/// The parameters of an operation on the wire: those it carries, a school
/// search's in a list of one, and `null` for an operation without any.
impl<'a> Encode for Operation<'a> {
    open spec fn encoded(&self) -> JsonValue {
        match self {
            Operation::Authenticate(params) => params.encoded(),
            Operation::Timetable(params) => params.encoded(),
            Operation::SearchSchool(params) => JsonValue::Array(seq![params.encoded()]),
            _ => JsonValue::Null,
        }
    }

    fn encode(&self) -> (r: Json) {
        match self {
            Operation::Authenticate(params) => params.encode(),
            Operation::Timetable(params) => params.encode(),
            Operation::SearchSchool(params) => {
                let mut list: Vec<Json> = Vec::new();
                list.push(params.encode());
                let r = Json::Array(list);
                proof {
                    r.lemma_array_view();
                    assert(r@->Array_0 =~= seq![params.encoded()]);
                }
                r
            },
            _ => Json::Null,
        }
    }
}

} // verus!
