//! The parameters that the operations of the service take.

use crate::codec::Encode;
use crate::datetime::{date_number, Date};
use crate::json::{integer, text, Json, JsonValue, ObjectBuilder};
use crate::resources::ElementType;
use vstd::prelude::*;

verus! {

impl<'a> Encode for &'a str {
    open spec fn encoded(&self) -> JsonValue {
        JsonValue::Text(self@)
    }

    fn encode(&self) -> (r: Json) {
        text(self)
    }
}

impl Encode for String {
    open spec fn encoded(&self) -> JsonValue {
        JsonValue::Text(self@)
    }

    fn encode(&self) -> (r: Json) {
        text(self.as_str())
    }
}

impl Encode for bool {
    open spec fn encoded(&self) -> JsonValue {
        JsonValue::Bool(*self)
    }

    fn encode(&self) -> (r: Json) {
        Json::Bool(*self)
    }
}

impl Encode for usize {
    open spec fn encoded(&self) -> JsonValue {
        JsonValue::Number(Some(*self as i128))
    }

    fn encode(&self) -> (r: Json) {
        integer(*self as i128)
    }
}

/// A date is sent as the number `YYYYMMDD`.
impl Encode for Date {
    open spec fn encoded(&self) -> JsonValue {
        JsonValue::Number(Some(date_number(self@.0, self@.1, self@.2) as i128))
    }

    fn encode(&self) -> (r: Json) {
        integer(self.number() as i128)
    }
}

/// A kind of element is sent as its number.
impl Encode for ElementType {
    open spec fn encoded(&self) -> JsonValue {
        JsonValue::Number(Some(self.number() as i128))
    }

    fn encode(&self) -> (r: Json) {
        integer(self.as_number() as i128)
    }
}

/// The parameters of a login.
#[derive(Debug, Clone, Copy, PartialEq, Eq)]
pub struct AuthenticateParams<'a> {
    pub client: &'a str,
    pub user: &'a str,
    pub password: &'a str,
}

impl<'a> Encode for AuthenticateParams<'a> {
    open spec fn encoded(&self) -> JsonValue {
        JsonValue::Object(
            seq![
                ("client"@, self.client.encoded()),
                ("user"@, self.user.encoded()),
                ("password"@, self.password.encoded()),
            ],
        )
    }

    fn encode(&self) -> (r: Json) {
        let r = ObjectBuilder::new()
            .put("client", self.client.encode())
            .put("user", self.user.encode())
            .put("password", self.password.encode())
            .finish();
        assert(r@->Object_0 =~= self.encoded()->Object_0);
        r
    }
}

/// The parameters of a school search: what to look for.
#[derive(Debug, Clone, Copy, PartialEq, Eq)]
pub enum FindSchoolParams<'a> {
    /// Schools whose name or address matches a text.
    Search { search: &'a str },
    /// The school with an identifier.
    ById { schoolid: &'a usize },
    /// The school with a login name.
    ByName { schoolname: &'a str },
}

/// On the wire an object with one member, named after the kind of search.
impl<'a> Encode for FindSchoolParams<'a> {
    open spec fn encoded(&self) -> JsonValue {
        match self {
            FindSchoolParams::Search { search } => JsonValue::Object(seq![("search"@, JsonValue::Text(search@))]),
            FindSchoolParams::ById { schoolid } => JsonValue::Object(
                seq![("schoolid"@, JsonValue::Number(Some(**schoolid as i128)))],
            ),
            FindSchoolParams::ByName { schoolname } => JsonValue::Object(
                seq![("schoolname"@, JsonValue::Text(schoolname@))],
            ),
        }
    }

    fn encode(&self) -> (r: Json) {
        match self {
            FindSchoolParams::Search { search } => ObjectBuilder::new().put("search", text(search)).finish(),
            FindSchoolParams::ById { schoolid } => ObjectBuilder::new().put(
                "schoolid",
                integer(**schoolid as i128),
            ).finish(),
            FindSchoolParams::ByName { schoolname } => ObjectBuilder::new().put(
                "schoolname",
                text(schoolname),
            ).finish(),
        }
    }
}

/// The element whose timetable is asked for.
#[derive(Debug, Clone, Copy, PartialEq, Eq)]
pub struct TimetableParamsElem {
    pub id: usize,
    pub ty: ElementType,
}

impl Encode for TimetableParamsElem {
    open spec fn encoded(&self) -> JsonValue {
        JsonValue::Object(
            seq![
                ("id"@, self.id.encoded()),
                ("type"@, self.ty.encoded()),
            ],
        )
    }

    fn encode(&self) -> (r: Json) {
        let r = ObjectBuilder::new()
            .put("id", self.id.encode())
            .put("type", self.ty.encode())
            .finish();
        assert(r@->Object_0 =~= self.encoded()->Object_0);
        r
    }
}

/// What a timetable request asks for.
#[derive(Debug, Clone, PartialEq, Eq)]
pub struct TimetableParamsOpts {
    pub element: TimetableParamsElem,
    pub start_date: Date,
    pub end_date: Date,
    pub show_booking: bool,
    pub show_info: bool,
    pub show_subst_text: bool,
    pub show_ls_text: bool,
    pub show_ls_number: bool,
    pub show_student_group: bool,
    pub class_fields: Vec<String>,
    pub room_fields: Vec<String>,
    pub subject_fields: Vec<String>,
    pub teacher_fields: Vec<String>,
}

impl Encode for TimetableParamsOpts {
    open spec fn encoded(&self) -> JsonValue {
        JsonValue::Object(
            seq![
                ("element"@, self.element.encoded()),
                ("startDate"@, self.start_date.encoded()),
                ("endDate"@, self.end_date.encoded()),
                ("showBooking"@, self.show_booking.encoded()),
                ("showInfo"@, self.show_info.encoded()),
                ("showSubstText"@, self.show_subst_text.encoded()),
                ("showLsText"@, self.show_ls_text.encoded()),
                ("showLsNumber"@, self.show_ls_number.encoded()),
                ("showStudentgroup"@, self.show_student_group.encoded()),
                ("klasseFields"@, self.class_fields.encoded()),
                ("roomFields"@, self.room_fields.encoded()),
                ("subjectFields"@, self.subject_fields.encoded()),
                ("teacherFields"@, self.teacher_fields.encoded()),
            ],
        )
    }

    fn encode(&self) -> (r: Json) {
        let r = ObjectBuilder::new()
            .put("element", self.element.encode())
            .put("startDate", self.start_date.encode())
            .put("endDate", self.end_date.encode())
            .put("showBooking", self.show_booking.encode())
            .put("showInfo", self.show_info.encode())
            .put("showSubstText", self.show_subst_text.encode())
            .put("showLsText", self.show_ls_text.encode())
            .put("showLsNumber", self.show_ls_number.encode())
            .put("showStudentgroup", self.show_student_group.encode())
            .put("klasseFields", self.class_fields.encode())
            .put("roomFields", self.room_fields.encode())
            .put("subjectFields", self.subject_fields.encode())
            .put("teacherFields", self.teacher_fields.encode())
            .finish();
        assert(r@->Object_0 =~= self.encoded()->Object_0);
        r
    }
}

/// The parameters of a timetable request.
#[derive(Debug, Clone, PartialEq, Eq)]
pub struct TimetableParams {
    pub options: TimetableParamsOpts,
}

impl Encode for TimetableParams {
    open spec fn encoded(&self) -> JsonValue {
        JsonValue::Object(
            seq![
                ("options"@, self.options.encoded()),
            ],
        )
    }

    fn encode(&self) -> (r: Json) {
        let r = ObjectBuilder::new()
            .put("options", self.options.encode())
            .finish();
        assert(r@->Object_0 =~= self.encoded()->Object_0);
        r
    }
}

/// The two fields asked for of each class, room, subject and teacher of a
/// lesson: `id` and `name`.
pub fn id_and_name() -> (r: Vec<String>)
    ensures
        r@.len() == 2,
        r@[0]@ == "id"@,
        r@[1]@ == "name"@,
{
    let mut r: Vec<String> = Vec::new();
    r.push(String::from_str("id"));
    r.push(String::from_str("name"));
    r
}

impl TimetableParams {
    /// Whether these are the parameters for the whole timetable of an
    /// element between two dates: everything shown, and `id` and `name` of
    /// each class, room, subject and teacher.
    pub open spec fn is_full(&self, id: usize, ty: ElementType, start_date: Date, end_date: Date) -> bool {
        &&& self.options.element.id == id
        &&& self.options.element.ty == ty
        &&& self.options.start_date == start_date
        &&& self.options.end_date == end_date
        &&& self.options.show_booking
        &&& self.options.show_info
        &&& self.options.show_subst_text
        &&& self.options.show_ls_text
        &&& self.options.show_ls_number
        &&& self.options.show_student_group
        &&& is_id_and_name(self.options.class_fields@)
        &&& is_id_and_name(self.options.room_fields@)
        &&& is_id_and_name(self.options.subject_fields@)
        &&& is_id_and_name(self.options.teacher_fields@)
    }

    /// The parameters for the whole timetable of an element between two
    /// dates.
    pub fn full(id: usize, ty: ElementType, start_date: Date, end_date: Date) -> (r: TimetableParams)
        ensures
            r.is_full(id, ty, start_date, end_date),
    {
        TimetableParams {
            options: TimetableParamsOpts {
                element: TimetableParamsElem { id, ty },
                start_date,
                end_date,
                show_booking: true,
                show_info: true,
                show_subst_text: true,
                show_ls_text: true,
                show_ls_number: true,
                show_student_group: true,
                class_fields: id_and_name(),
                room_fields: id_and_name(),
                subject_fields: id_and_name(),
                teacher_fields: id_and_name(),
            },
        }
    }
}

pub open spec fn is_id_and_name(fields: Seq<String>) -> bool {
    fields.len() == 2 && fields[0]@ == "id"@ && fields[1]@ == "name"@
}

} // verus!
