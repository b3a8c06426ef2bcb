//! The handle of a logged-in user, and the requests it can make.
//!
//! Each operation takes the next id of the handle and returns the [`Call`]
//! to send; [`Call::answer`] turns the reply into the operation's result.

use crate::codec::{Decode, Encode};
use crate::datetime::{date_number, week_begin, week_end, Date, UtcDateTime};
use crate::error::{Error, ErrorView};
use crate::json::{rendered, JsonValue};
use crate::jsonrpc::{self, envelope, reading, reply_payload, Call, Reply};
use crate::operation::Operation;
use crate::params::{AuthenticateParams, TimetableParams};
use crate::resources::{
    Class, Department, ElementType, Holiday, Lesson, Room, School, Schoolyear, Session, StatusData, Student,
    Subject, Teacher,
};
use vstd::prelude::*;

verus! {

/// The URL of the service for a school on a server.
pub open spec fn untis_url(server: Seq<char>, school: Seq<char>) -> Seq<char> {
    "https://"@ + server + "/WebUntis/jsonrpc.do?school="@ + school
}

pub fn make_untis_url(server: &str, school: &str) -> (r: String)
    ensures
        r@ == untis_url(server@, school@),
{
    let mut url = String::from_str("https://");
    url.append(server);
    url.append("/WebUntis/jsonrpc.do?school=");
    url.append(school);
    url
}

/// The parameters of a login as `user` with `password`.
pub open spec fn credentials(user: Seq<char>, password: Seq<char>) -> JsonValue {
    JsonValue::Object(
        seq![
            ("client"@, JsonValue::Text("untis-rs"@)),
            ("user"@, JsonValue::Text(user)),
            ("password"@, JsonValue::Text(password)),
        ],
    )
}

/// The list `["id", "name"]`.
pub open spec fn id_and_name_value() -> JsonValue {
    JsonValue::Array(seq![JsonValue::Text("id"@), JsonValue::Text("name"@)])
}

/// The number of a date on the wire.
pub open spec fn date_value(date: (int, int, int)) -> JsonValue {
    JsonValue::Number(Some(date_number(date.0, date.1, date.2) as i128))
}

/// The parameters that ask for the whole timetable of the element `id` of
/// kind `ty` from `start` to `end`: every optional text shown, and of each
/// class, room, subject and teacher its id and name.
pub open spec fn timetable_query(id: usize, ty: ElementType, start: (int, int, int), end: (int, int, int)) -> JsonValue {
    JsonValue::Object(
        seq![
            (
                "options"@,
                JsonValue::Object(
                    seq![
                        (
                            "element"@,
                            JsonValue::Object(
                                seq![
                                    ("id"@, JsonValue::Number(Some(id as i128))),
                                    ("type"@, JsonValue::Number(Some(ty.number() as i128))),
                                ],
                            ),
                        ),
                        ("startDate"@, date_value(start)),
                        ("endDate"@, date_value(end)),
                        ("showBooking"@, JsonValue::Bool(true)),
                        ("showInfo"@, JsonValue::Bool(true)),
                        ("showSubstText"@, JsonValue::Bool(true)),
                        ("showLsText"@, JsonValue::Bool(true)),
                        ("showLsNumber"@, JsonValue::Bool(true)),
                        ("showStudentgroup"@, JsonValue::Bool(true)),
                        ("klasseFields"@, id_and_name_value()),
                        ("roomFields"@, id_and_name_value()),
                        ("subjectFields"@, id_and_name_value()),
                        ("teacherFields"@, id_and_name_value()),
                    ],
                ),
            ),
        ],
    )
}

/// A login that has been asked for and not yet answered: the handle of a
/// user who is not logged in. It can make no request but the login itself.
pub struct Login {
    rpc_client: jsonrpc::Client,
    call: Call<Session>,
}

/// A logout that has been asked for and not yet answered. It holds the
/// handle of the user, who is logged in until the server says otherwise.
pub struct Logout {
    client: Client,
    call: Call<()>,
}

/// Client for the Untis API: the handle of a logged-in user.
///
/// There is one way to a handle: [`Client::login`] asks for a login, and
/// [`Login::finish`] hands the handle out where the server's reply carries
/// a session.
pub struct Client {
    rpc_client: jsonrpc::Client,
    login: Granted,
}

/// A session together with the login result that it was read from.
struct Granted {
    session: Session,
    result: Ghost<JsonValue>,
}

impl Granted {
    #[verifier::type_invariant]
    spec fn read_from_result(self) -> bool {
        Session::fits(self.result@) && self.session.holds(self.result@)
    }
}

impl Login {
    /// The request that asks for the login.
    pub closed spec fn pending(&self) -> Call<Session> {
        self.call
    }

    pub closed spec fn url(&self) -> Seq<char> {
        self.rpc_client.url()
    }

    #[verifier::type_invariant]
    spec fn first_call(self) -> bool {
        self.rpc_client.last_id() == self.call.id
    }

    /// The request to send.
    pub fn call(&self) -> (r: &Call<Session>)
        ensures
            *r == self.pending(),
    {
        &self.call
    }

    /// Whether `r` is what the login ends in for `outcome`: a handle with
    /// the session that the result describes, or the failure.
    pub open spec fn ends_in(&self, outcome: Result<JsonValue, ErrorView>, r: Result<Client, Error>) -> bool {
        &&& reading::<Session>(
            outcome,
            match r {
                Ok(client) => Ok(client.current_session()),
                Err(e) => Err(e),
            },
        )
        &&& r matches Ok(client) ==> client.url() == self.url() && client.last_id() == self.pending().id
    }

    /// Reads the reply to the login. A reply that carries a session gives
    /// the handle of the logged-in user; every other reply gives the error,
    /// and no handle.
    pub fn finish(self, reply: &Reply) -> (r: Result<Client, Error>)
        ensures
            self.ends_in(reply_payload(self.pending().id, reply@), r),
    {
        proof {
            use_type_invariant(&self);
        }
        let ghost outcome = reply_payload(self.call.id, reply@);
        match self.call.answer(reply) {
            Ok(session) => Ok(
                Client { rpc_client: self.rpc_client, login: Granted { session, result: Ghost(outcome->Ok_0) } },
            ),
            Err(e) => Err(e),
        }
    }
}

impl Client {
    /// The session of the handle.
    pub closed spec fn current_session(&self) -> Session {
        self.login.session
    }

    pub closed spec fn url(&self) -> Seq<char> {
        self.rpc_client.url()
    }

    /// The id of the last request made through this handle.
    pub closed spec fn last_id(&self) -> i64 {
        self.rpc_client.last_id()
    }

    /// Whether the handle can give another id.
    pub open spec fn spec_can_request(&self) -> bool {
        self.last_id() < i64::MAX
    }

    /// Whether `after` and `call` are what this handle turns into and sends
    /// when it asks for `method` with `params`: the call has the next id,
    /// goes to the handle's URL and carries the envelope; the session stays.
    pub open spec fn issues<R>(&self, after: &Client, call: &Call<R>, method: Seq<char>, params: JsonValue) -> bool {
        &&& after.last_id() == self.last_id() + 1
        &&& after.url() == self.url()
        &&& after.current_session() == self.current_session()
        &&& call.id == after.last_id()
        &&& call.url@ == self.url()
        &&& call.body@ == rendered(envelope(call.id, method, params))
    }

    /// Asks for a login on `server` for `school`. [`Login::finish`] reads
    /// the reply.
    pub fn login(server: &str, school: &str, username: &str, password: &str) -> (r: Login)
        ensures
            r.pending().id == 1,
            r.url() == untis_url(server@, school@),
            r.pending().url@ == untis_url(server@, school@),
            r.pending().body@ == rendered(envelope(1, "authenticate"@, credentials(username@, password@))),
    {
        let params = AuthenticateParams { client: "untis-rs", user: username, password };
        let url = make_untis_url(server, school);
        let mut rpc_client = jsonrpc::Client::new(url.as_str());
        let call = Operation::Authenticate(params).issue(&mut rpc_client);
        Login { rpc_client, call }
    }

    /// Returns the active session: the one that the login's reply carried.
    pub fn session(&self) -> (r: &Session)
        ensures
            *r == self.current_session(),
            exists|result: JsonValue| Session::fits(result) && r.holds(result),
    {
        proof {
            use_type_invariant(&self.login);
            assert(Session::fits(self.login.result@) && self.login.session.holds(self.login.result@));
        }
        &self.login.session
    }

    #[verifier::when_used_as_spec(spec_can_request)]
    pub fn can_request(&self) -> (r: bool)
        ensures
            r == self.can_request(),
    {
        self.rpc_client.can_request()
    }

    /// The request for the last time that any timetable of the school was updated.
    pub fn last_update_time(&mut self) -> (call: Call<UtcDateTime>)
        requires
            old(self).can_request(),
        ensures
            old(self).issues(final(self), &call, "getLatestImportTime"@, JsonValue::Null),
    {
        Operation::LatestImportTime.issue(&mut self.rpc_client)
    }

    /// The request for the status data with which a timetable is shown.
    pub fn status_data(&mut self) -> (call: Call<StatusData>)
        requires
            old(self).can_request(),
        ensures
            old(self).issues(final(self), &call, "getStatusData"@, JsonValue::Null),
    {
        Operation::StatusData.issue(&mut self.rpc_client)
    }

    /// The request for the current school year.
    pub fn current_schoolyear(&mut self) -> (call: Call<Schoolyear>)
        requires
            old(self).can_request(),
        ensures
            old(self).issues(final(self), &call, "getCurrentSchoolyear"@, JsonValue::Null),
    {
        Operation::CurrentSchoolyear.issue(&mut self.rpc_client)
    }

    /// The request for the list of all school years.
    pub fn schoolyears(&mut self) -> (call: Call<Vec<Schoolyear>>)
        requires
            old(self).can_request(),
        ensures
            old(self).issues(final(self), &call, "getSchoolyears"@, JsonValue::Null),
    {
        Operation::Schoolyears.issue(&mut self.rpc_client)
    }

    /// The request for the holidays of the current school year.
    pub fn holidays(&mut self) -> (call: Call<Vec<Holiday>>)
        requires
            old(self).can_request(),
        ensures
            old(self).issues(final(self), &call, "getHolidays"@, JsonValue::Null),
    {
        Operation::Holidays.issue(&mut self.rpc_client)
    }

    /// The request for the list of rooms of the school.
    pub fn rooms(&mut self) -> (call: Call<Vec<Room>>)
        requires
            old(self).can_request(),
        ensures
            old(self).issues(final(self), &call, "getRooms"@, JsonValue::Null),
    {
        Operation::Rooms.issue(&mut self.rpc_client)
    }

    /// The request for the list of classes of the school.
    pub fn classes(&mut self) -> (call: Call<Vec<Class>>)
        requires
            old(self).can_request(),
        ensures
            old(self).issues(final(self), &call, "getKlassen"@, JsonValue::Null),
    {
        Operation::Classes.issue(&mut self.rpc_client)
    }

    /// The request for the list of subjects of the school.
    pub fn subjects(&mut self) -> (call: Call<Vec<Subject>>)
        requires
            old(self).can_request(),
        ensures
            old(self).issues(final(self), &call, "getSubjects"@, JsonValue::Null),
    {
        Operation::Subjects.issue(&mut self.rpc_client)
    }

    /// The request for the list of teachers of the school.
    pub fn teachers(&mut self) -> (call: Call<Vec<Teacher>>)
        requires
            old(self).can_request(),
        ensures
            old(self).issues(final(self), &call, "getTeachers"@, JsonValue::Null),
    {
        Operation::Teachers.issue(&mut self.rpc_client)
    }

    /// The request for the list of students of the school.
    pub fn students(&mut self) -> (call: Call<Vec<Student>>)
        requires
            old(self).can_request(),
        ensures
            old(self).issues(final(self), &call, "getStudents"@, JsonValue::Null),
    {
        Operation::Students.issue(&mut self.rpc_client)
    }

    /// The request for the list of departments of the school.
    pub fn departments(&mut self) -> (call: Call<Vec<Department>>)
        requires
            old(self).can_request(),
        ensures
            old(self).issues(final(self), &call, "getDepartments"@, JsonValue::Null),
    {
        Operation::Departments.issue(&mut self.rpc_client)
    }

    /// The request for the timetable of an element between two dates.
    pub fn timetable_between(&mut self, id: &usize, ty: &ElementType, start_date: &Date, end_date: &Date) -> (call:
        Call<Vec<Lesson>>)
        requires
            old(self).can_request(),
        ensures
            old(self).issues(final(self), &call, "getTimetable"@, timetable_query(*id, *ty, start_date@, end_date@)),
    {
        let params = TimetableParams::full(*id, *ty, *start_date, *end_date);
        proof {
            let fields = id_and_name_value()->Array_0;
            assert(params.options.class_fields.encoded()->Array_0 =~= fields);
            assert(params.options.room_fields.encoded()->Array_0 =~= fields);
            assert(params.options.subject_fields.encoded()->Array_0 =~= fields);
            assert(params.options.teacher_fields.encoded()->Array_0 =~= fields);
            assert(params.options.element.encoded() == JsonValue::Object(
                seq![
                    ("id"@, JsonValue::Number(Some(*id as i128))),
                    ("type"@, JsonValue::Number(Some(ty.number() as i128))),
                ],
            ));
            assert(params.encoded() == timetable_query(*id, *ty, start_date@, end_date@));
        }
        Operation::Timetable(params).issue(&mut self.rpc_client)
    }

    /// The request for the user's own timetable between two dates.
    pub fn own_timetable_between(&mut self, start_date: &Date, end_date: &Date) -> (call: Call<Vec<Lesson>>)
        requires
            old(self).can_request(),
        ensures
            old(self).issues(
                final(self),
                &call,
                "getTimetable"@,
                timetable_query(
                    old(self).current_session().person_id,
                    old(self).current_session().person_type,
                    start_date@,
                    end_date@,
                ),
            ),
    {
        let id = self.login.session.person_id;
        let ty = self.login.session.person_type;
        self.timetable_between(&id, &ty, start_date, end_date)
    }

    /// Whether `r` is the request for the timetable of an element for the
    /// week of `date`, Monday to Sunday: no request, and the handle as it
    /// was, where `chrono` has no date for the Monday or the Sunday.
    pub open spec fn issues_week(
        &self,
        after: &Client,
        r: Option<Call<Vec<Lesson>>>,
        id: usize,
        ty: ElementType,
        date: (int, int, int),
    ) -> bool {
        match (week_begin(date), week_end(date)) {
            (Some(monday), Some(sunday)) => r matches Some(call) && self.issues(
                after,
                &call,
                "getTimetable"@,
                timetable_query(id, ty, monday, sunday),
            ),
            _ => r is None && *after == *self,
        }
    }

    /// The request for the timetable of an element for the week that a
    /// given date is in.
    pub fn timetable_for_week(&mut self, id: &usize, ty: &ElementType, date: &Date) -> (r: Option<
        Call<Vec<Lesson>>,
    >)
        requires
            old(self).can_request(),
        ensures
            old(self).issues_week(final(self), r, *id, *ty, date@),
    {
        let monday = date.relative_week_begin()?;
        let sunday = date.relative_week_end()?;
        Some(self.timetable_between(id, ty, &monday, &sunday))
    }

    /// The request for the user's own timetable for the week that a given
    /// date is in.
    pub fn own_timetable_for_week(&mut self, date: &Date) -> (r: Option<Call<Vec<Lesson>>>)
        requires
            old(self).can_request(),
        ensures
            old(self).issues_week(
                final(self),
                r,
                old(self).current_session().person_id,
                old(self).current_session().person_type,
                date@,
            ),
    {
        let monday = date.relative_week_begin()?;
        let sunday = date.relative_week_end()?;
        Some(self.own_timetable_between(&monday, &sunday))
    }

    /// The request for the timetable of an element between now and a given
    /// date. `today` is the day that the caller's clock shows. The two dates
    /// are sent as they are given, also where the end lies before today.
    pub fn timetable_until(&mut self, id: &usize, ty: &ElementType, today: &Date, end_date: &Date) -> (call:
        Call<Vec<Lesson>>)
        requires
            old(self).can_request(),
        ensures
            old(self).issues(final(self), &call, "getTimetable"@, timetable_query(*id, *ty, today@, end_date@)),
    {
        self.timetable_between(id, ty, today, end_date)
    }

    /// The request for the user's own timetable between now and a given
    /// date. `today` is the day that the caller's clock shows.
    pub fn own_timetable_until(&mut self, today: &Date, end_date: &Date) -> (call: Call<Vec<Lesson>>)
        requires
            old(self).can_request(),
        ensures
            old(self).issues(
                final(self),
                &call,
                "getTimetable"@,
                timetable_query(
                    old(self).current_session().person_id,
                    old(self).current_session().person_type,
                    today@,
                    end_date@,
                ),
            ),
    {
        self.own_timetable_between(today, end_date)
    }

    /// The request for the timetable of an element for the current week.
    /// `today` is the day that the caller's clock shows.
    pub fn timetable_current_week(&mut self, id: &usize, ty: &ElementType, today: &Date) -> (r: Option<
        Call<Vec<Lesson>>,
    >)
        requires
            old(self).can_request(),
        ensures
            old(self).issues_week(final(self), r, *id, *ty, today@),
    {
        self.timetable_for_week(id, ty, today)
    }

    /// The request for the user's own timetable for the current week.
    /// `today` is the day that the caller's clock shows.
    pub fn own_timetable_current_week(&mut self, today: &Date) -> (r: Option<Call<Vec<Lesson>>>)
        requires
            old(self).can_request(),
        ensures
            old(self).issues_week(
                final(self),
                r,
                old(self).current_session().person_id,
                old(self).current_session().person_type,
                today@,
            ),
    {
        self.own_timetable_for_week(today)
    }

    /// Asks to end the session. The handle goes into the [`Logout`], which
    /// keeps it until the reply is known: [`Logout::finish`] gives it back
    /// where the server did not end the session.
    pub fn logout(self) -> (r: Logout)
        requires
            self.can_request(),
        ensures
            self.issues(&r.handle(), &r.pending(), "logout"@, JsonValue::Null),
    {
        let mut client = self;
        let call = Operation::Logout.issue(&mut client.rpc_client);
        Logout { client, call }
    }
}

impl Logout {
    /// The request that asks for the logout.
    pub closed spec fn pending(&self) -> Call<()> {
        self.call
    }

    /// The handle that asked, as it is after the request.
    pub closed spec fn handle(&self) -> Client {
        self.client
    }

    /// The request to send.
    pub fn call(&self) -> (r: &Call<()>)
        ensures
            *r == self.pending(),
    {
        &self.call
    }

    /// Whether `r` is what the logout ends in for `outcome`: nothing where
    /// the server answered with an empty result, and then no handle is left;
    /// otherwise the failure together with the handle that asked, which is
    /// still logged in.
    pub open spec fn ends_in(&self, outcome: Result<JsonValue, ErrorView>, r: Result<(), (Client, Error)>) -> bool {
        &&& reading::<()>(
            outcome,
            match r {
                Ok(nothing) => Ok(nothing),
                Err(left) => Err(left.1),
            },
        )
        &&& r matches Err(left) ==> left.0 == self.handle()
    }

    /// Reads the reply to the logout. After a successful logout the handle
    /// is gone, and nothing more can be asked; after a failed one the
    /// handle comes back with the error.
    pub fn finish(self, reply: &Reply) -> (r: Result<(), (Client, Error)>)
        ensures
            self.ends_in(reply_payload(self.pending().id, reply@), r),
    {
        match self.call.answer(reply) {
            Ok(nothing) => Ok(nothing),
            Err(e) => Err((self.client, e)),
        }
    }
}

/// A login whose reply carries a session ends in a handle, and the session
/// of the handle has the four fields of the result: the session's
/// identifier, the person's identifier and kind, and the class.
pub proof fn lemma_login_populates_session(login: Login, result: JsonValue, r: Result<Client, Error>)
    requires
        Session::fits(result),
        login.ends_in(Ok(result), r),
    ensures
        r matches Ok(client) && {
            let session = client.current_session();
            &&& result.text_member("sessionId"@) == Some(session.session_id@)
            &&& result.int_member("personId"@) == Some(session.person_id as i128)
            &&& result.int_member("personType"@) == Some(session.person_type.number() as i128)
            &&& result.int_member("klasseId"@) == Some(session.class_id as i128)
            &&& client.url() == login.url()
            &&& client.last_id() == login.pending().id
        },
{
}

/// A logout ends the session only where the server says so. After a
/// successful logout no handle is left. After a failed one the handle that
/// comes back is the one that asked: it has the session and the URL it had,
/// and the id of the logout is the last it gave.
pub proof fn lemma_failed_logout_keeps_the_session(
    client: Client,
    logout: Logout,
    outcome: Result<JsonValue, ErrorView>,
    r: Result<(), (Client, Error)>,
)
    requires
        client.issues(&logout.handle(), &logout.pending(), "logout"@, JsonValue::Null),
        logout.ends_in(outcome, r),
    ensures
        r is Ok <==> outcome == Ok::<JsonValue, ErrorView>(JsonValue::Null),
        r matches Err(left) ==> {
            &&& left.0.current_session() == client.current_session()
            &&& left.0.url() == client.url()
            &&& left.0.last_id() == logout.pending().id
            &&& left.0.last_id() == client.last_id() + 1
        },
{
}

impl School {
    /// Asks for a login at this school. [`Login::finish`] reads the reply.
    pub fn client_login(&self, username: &str, password: &str) -> (r: Login)
        ensures
            r.pending().id == 1,
            r.url() == untis_url(self.server@, self.login_name@),
            r.pending().url@ == untis_url(self.server@, self.login_name@),
            r.pending().body@ == rendered(envelope(1, "authenticate"@, credentials(username@, password@))),
    {
        Client::login(self.server.as_str(), self.login_name.as_str(), username, password)
    }
}

} // verus!
