//! The values that the operations of the service return.

use crate::codec::{decode_member, decode_optional, member_fits, member_holds, optional_fits, optional_holds, Decode};
use crate::datetime::{Date, Time};
use crate::json::{Json, JsonValue};
use vstd::prelude::*;

verus! {

/// The kinds of element that have a timetable.
#[derive(Debug, Clone, Copy, PartialEq, Eq, Structural, Hash)]
pub enum ElementType {
    Class,
    Teacher,
    Subject,
    Room,
    Student,
}

impl ElementType {
    /// The number that stands for the kind on the wire.
    pub open spec fn number(self) -> int {
        match self {
            ElementType::Class => 1,
            ElementType::Teacher => 2,
            ElementType::Subject => 3,
            ElementType::Room => 4,
            ElementType::Student => 5,
        }
    }

    /// The kind that the number `n` stands for.
    pub open spec fn of_number(n: int) -> Option<ElementType> {
        if n == 1 {
            Some(ElementType::Class)
        } else if n == 2 {
            Some(ElementType::Teacher)
        } else if n == 3 {
            Some(ElementType::Subject)
        } else if n == 4 {
            Some(ElementType::Room)
        } else if n == 5 {
            Some(ElementType::Student)
        } else {
            None
        }
    }

    pub fn as_number(&self) -> (r: i64)
        ensures
            r == self.number(),
            ElementType::of_number(r as int) == Some(*self),
    {
        match self {
            ElementType::Class => 1,
            ElementType::Teacher => 2,
            ElementType::Subject => 3,
            ElementType::Room => 4,
            ElementType::Student => 5,
        }
    }

    pub fn from_number(n: i64) -> (r: Option<ElementType>)
        ensures
            r == ElementType::of_number(n as int),
    {
        if n == 1 {
            Some(ElementType::Class)
        } else if n == 2 {
            Some(ElementType::Teacher)
        } else if n == 3 {
            Some(ElementType::Subject)
        } else if n == 4 {
            Some(ElementType::Room)
        } else if n == 5 {
            Some(ElementType::Student)
        } else {
            None
        }
    }
}

impl Decode for ElementType {
    open spec fn fits(j: JsonValue) -> bool {
        j.as_int() matches Some(n) && ElementType::of_number(n as int) is Some
    }

    open spec fn holds(&self, j: JsonValue) -> bool {
        j.as_int() matches Some(n) && ElementType::of_number(n as int) == Some(*self)
    }

    fn decode(j: &Json) -> (r: Option<Self>) {
        match j {
            Json::Number(Some(n)) => {
                if 1 <= *n && *n <= 5 {
                    ElementType::from_number(*n as i64)
                } else {
                    None
                }
            },
            _ => None,
        }
    }
}

/// What a login gives: the session's identifier, and who is logged in.
#[derive(Debug, Clone, PartialEq, Eq)]
pub struct Session {
    pub session_id: String,
    pub person_id: usize,
    pub person_type: ElementType,
    pub class_id: usize,
}

impl Decode for Session {
    open spec fn fits(j: JsonValue) -> bool {
        &&& member_fits::<String>(j, "sessionId"@)
        &&& member_fits::<usize>(j, "personId"@)
        &&& member_fits::<ElementType>(j, "personType"@)
        &&& member_fits::<usize>(j, "klasseId"@)
    }

    open spec fn holds(&self, j: JsonValue) -> bool {
        &&& member_holds(&self.session_id, j, "sessionId"@)
        &&& member_holds(&self.person_id, j, "personId"@)
        &&& member_holds(&self.person_type, j, "personType"@)
        &&& member_holds(&self.class_id, j, "klasseId"@)
    }

    fn decode(j: &Json) -> (r: Option<Self>) {
        let session_id = decode_member::<String>(j, "sessionId")?;
        let person_id = decode_member::<usize>(j, "personId")?;
        let person_type = decode_member::<ElementType>(j, "personType")?;
        let class_id = decode_member::<usize>(j, "klasseId")?;
        Some(Session { session_id, person_id, person_type, class_id })
    }
}

/// A school as the school search lists it.
#[derive(Debug, Clone, PartialEq, Eq)]
pub struct School {
    pub server: String,
    pub address: String,
    pub display_name: String,
    pub login_name: String,
    pub school_id: usize,
    pub server_url: String,
}

impl Decode for School {
    open spec fn fits(j: JsonValue) -> bool {
        &&& member_fits::<String>(j, "server"@)
        &&& member_fits::<String>(j, "address"@)
        &&& member_fits::<String>(j, "displayName"@)
        &&& member_fits::<String>(j, "loginName"@)
        &&& member_fits::<usize>(j, "schoolId"@)
        &&& member_fits::<String>(j, "serverUrl"@)
    }

    open spec fn holds(&self, j: JsonValue) -> bool {
        &&& member_holds(&self.server, j, "server"@)
        &&& member_holds(&self.address, j, "address"@)
        &&& member_holds(&self.display_name, j, "displayName"@)
        &&& member_holds(&self.login_name, j, "loginName"@)
        &&& member_holds(&self.school_id, j, "schoolId"@)
        &&& member_holds(&self.server_url, j, "serverUrl"@)
    }

    fn decode(j: &Json) -> (r: Option<Self>) {
        let server = decode_member::<String>(j, "server")?;
        let address = decode_member::<String>(j, "address")?;
        let display_name = decode_member::<String>(j, "displayName")?;
        let login_name = decode_member::<String>(j, "loginName")?;
        let school_id = decode_member::<usize>(j, "schoolId")?;
        let server_url = decode_member::<String>(j, "serverUrl")?;
        Some(School { server, address, display_name, login_name, school_id, server_url })
    }
}

/// The answer to a school search.
#[derive(Debug, Clone, PartialEq, Eq)]
pub struct SchoolSearchResult {
    pub size: usize,
    pub schools: Vec<School>,
}

impl Decode for SchoolSearchResult {
    open spec fn fits(j: JsonValue) -> bool {
        &&& member_fits::<usize>(j, "size"@)
        &&& member_fits::<Vec<School>>(j, "schools"@)
    }

    open spec fn holds(&self, j: JsonValue) -> bool {
        &&& member_holds(&self.size, j, "size"@)
        &&& member_holds(&self.schools, j, "schools"@)
    }

    fn decode(j: &Json) -> (r: Option<Self>) {
        let size = decode_member::<usize>(j, "size")?;
        let schools = decode_member::<Vec<School>>(j, "schools")?;
        Some(SchoolSearchResult { size, schools })
    }
}

/// A school year.
#[derive(Debug, Clone, PartialEq, Eq)]
pub struct Schoolyear {
    pub id: usize,
    pub name: String,
    pub start_date: Date,
    pub end_date: Date,
}

impl Decode for Schoolyear {
    open spec fn fits(j: JsonValue) -> bool {
        &&& member_fits::<usize>(j, "id"@)
        &&& member_fits::<String>(j, "name"@)
        &&& member_fits::<Date>(j, "startDate"@)
        &&& member_fits::<Date>(j, "endDate"@)
    }

    open spec fn holds(&self, j: JsonValue) -> bool {
        &&& member_holds(&self.id, j, "id"@)
        &&& member_holds(&self.name, j, "name"@)
        &&& member_holds(&self.start_date, j, "startDate"@)
        &&& member_holds(&self.end_date, j, "endDate"@)
    }

    fn decode(j: &Json) -> (r: Option<Self>) {
        let id = decode_member::<usize>(j, "id")?;
        let name = decode_member::<String>(j, "name")?;
        let start_date = decode_member::<Date>(j, "startDate")?;
        let end_date = decode_member::<Date>(j, "endDate")?;
        Some(Schoolyear { id, name, start_date, end_date })
    }
}

/// A holiday of the current school year.
#[derive(Debug, Clone, PartialEq, Eq)]
pub struct Holiday {
    pub id: usize,
    pub name: String,
    pub long_name: String,
    pub start_date: Date,
    pub end_date: Date,
}

impl Decode for Holiday {
    open spec fn fits(j: JsonValue) -> bool {
        &&& member_fits::<usize>(j, "id"@)
        &&& member_fits::<String>(j, "name"@)
        &&& member_fits::<String>(j, "longName"@)
        &&& member_fits::<Date>(j, "startDate"@)
        &&& member_fits::<Date>(j, "endDate"@)
    }

    open spec fn holds(&self, j: JsonValue) -> bool {
        &&& member_holds(&self.id, j, "id"@)
        &&& member_holds(&self.name, j, "name"@)
        &&& member_holds(&self.long_name, j, "longName"@)
        &&& member_holds(&self.start_date, j, "startDate"@)
        &&& member_holds(&self.end_date, j, "endDate"@)
    }

    fn decode(j: &Json) -> (r: Option<Self>) {
        let id = decode_member::<usize>(j, "id")?;
        let name = decode_member::<String>(j, "name")?;
        let long_name = decode_member::<String>(j, "longName")?;
        let start_date = decode_member::<Date>(j, "startDate")?;
        let end_date = decode_member::<Date>(j, "endDate")?;
        Some(Holiday { id, name, long_name, start_date, end_date })
    }
}

/// A room.
#[derive(Debug, Clone, PartialEq, Eq)]
pub struct Room {
    pub id: usize,
    pub name: String,
    pub long_name: String,
}

impl Decode for Room {
    open spec fn fits(j: JsonValue) -> bool {
        &&& member_fits::<usize>(j, "id"@)
        &&& member_fits::<String>(j, "name"@)
        &&& member_fits::<String>(j, "longName"@)
    }

    open spec fn holds(&self, j: JsonValue) -> bool {
        &&& member_holds(&self.id, j, "id"@)
        &&& member_holds(&self.name, j, "name"@)
        &&& member_holds(&self.long_name, j, "longName"@)
    }

    fn decode(j: &Json) -> (r: Option<Self>) {
        let id = decode_member::<usize>(j, "id")?;
        let name = decode_member::<String>(j, "name")?;
        let long_name = decode_member::<String>(j, "longName")?;
        Some(Room { id, name, long_name })
    }
}

/// A class.
#[derive(Debug, Clone, PartialEq, Eq)]
pub struct Class {
    pub id: usize,
    pub name: String,
    pub long_name: String,
}

impl Decode for Class {
    open spec fn fits(j: JsonValue) -> bool {
        &&& member_fits::<usize>(j, "id"@)
        &&& member_fits::<String>(j, "name"@)
        &&& member_fits::<String>(j, "longName"@)
    }

    open spec fn holds(&self, j: JsonValue) -> bool {
        &&& member_holds(&self.id, j, "id"@)
        &&& member_holds(&self.name, j, "name"@)
        &&& member_holds(&self.long_name, j, "longName"@)
    }

    fn decode(j: &Json) -> (r: Option<Self>) {
        let id = decode_member::<usize>(j, "id")?;
        let name = decode_member::<String>(j, "name")?;
        let long_name = decode_member::<String>(j, "longName")?;
        Some(Class { id, name, long_name })
    }
}

/// A subject.
#[derive(Debug, Clone, PartialEq, Eq)]
pub struct Subject {
    pub id: usize,
    pub name: String,
    pub long_name: String,
}

impl Decode for Subject {
    open spec fn fits(j: JsonValue) -> bool {
        &&& member_fits::<usize>(j, "id"@)
        &&& member_fits::<String>(j, "name"@)
        &&& member_fits::<String>(j, "longName"@)
    }

    open spec fn holds(&self, j: JsonValue) -> bool {
        &&& member_holds(&self.id, j, "id"@)
        &&& member_holds(&self.name, j, "name"@)
        &&& member_holds(&self.long_name, j, "longName"@)
    }

    fn decode(j: &Json) -> (r: Option<Self>) {
        let id = decode_member::<usize>(j, "id")?;
        let name = decode_member::<String>(j, "name")?;
        let long_name = decode_member::<String>(j, "longName")?;
        Some(Subject { id, name, long_name })
    }
}

/// A department.
#[derive(Debug, Clone, PartialEq, Eq)]
pub struct Department {
    pub id: usize,
    pub name: String,
    pub long_name: String,
}

impl Decode for Department {
    open spec fn fits(j: JsonValue) -> bool {
        &&& member_fits::<usize>(j, "id"@)
        &&& member_fits::<String>(j, "name"@)
        &&& member_fits::<String>(j, "longName"@)
    }

    open spec fn holds(&self, j: JsonValue) -> bool {
        &&& member_holds(&self.id, j, "id"@)
        &&& member_holds(&self.name, j, "name"@)
        &&& member_holds(&self.long_name, j, "longName"@)
    }

    fn decode(j: &Json) -> (r: Option<Self>) {
        let id = decode_member::<usize>(j, "id")?;
        let name = decode_member::<String>(j, "name")?;
        let long_name = decode_member::<String>(j, "longName")?;
        Some(Department { id, name, long_name })
    }
}

/// A teacher.
#[derive(Debug, Clone, PartialEq, Eq)]
pub struct Teacher {
    pub id: usize,
    pub name: String,
    pub first_name: String,
    pub last_name: String,
}

impl Decode for Teacher {
    open spec fn fits(j: JsonValue) -> bool {
        &&& member_fits::<usize>(j, "id"@)
        &&& member_fits::<String>(j, "name"@)
        &&& member_fits::<String>(j, "foreName"@)
        &&& member_fits::<String>(j, "longName"@)
    }

    open spec fn holds(&self, j: JsonValue) -> bool {
        &&& member_holds(&self.id, j, "id"@)
        &&& member_holds(&self.name, j, "name"@)
        &&& member_holds(&self.first_name, j, "foreName"@)
        &&& member_holds(&self.last_name, j, "longName"@)
    }

    fn decode(j: &Json) -> (r: Option<Self>) {
        let id = decode_member::<usize>(j, "id")?;
        let name = decode_member::<String>(j, "name")?;
        let first_name = decode_member::<String>(j, "foreName")?;
        let last_name = decode_member::<String>(j, "longName")?;
        Some(Teacher { id, name, first_name, last_name })
    }
}

/// A student.
#[derive(Debug, Clone, PartialEq, Eq)]
pub struct Student {
    pub id: usize,
    pub name: String,
    pub first_name: String,
    pub last_name: String,
    pub gender: Option<String>,
}

impl Decode for Student {
    open spec fn fits(j: JsonValue) -> bool {
        &&& member_fits::<usize>(j, "id"@)
        &&& member_fits::<String>(j, "name"@)
        &&& member_fits::<String>(j, "foreName"@)
        &&& member_fits::<String>(j, "longName"@)
        &&& optional_fits::<String>(j, "gender"@)
    }

    open spec fn holds(&self, j: JsonValue) -> bool {
        &&& member_holds(&self.id, j, "id"@)
        &&& member_holds(&self.name, j, "name"@)
        &&& member_holds(&self.first_name, j, "foreName"@)
        &&& member_holds(&self.last_name, j, "longName"@)
        &&& optional_holds(&self.gender, j, "gender"@)
    }

    fn decode(j: &Json) -> (r: Option<Self>) {
        let id = decode_member::<usize>(j, "id")?;
        let name = decode_member::<String>(j, "name")?;
        let first_name = decode_member::<String>(j, "foreName")?;
        let last_name = decode_member::<String>(j, "longName")?;
        let gender = decode_optional::<String>(j, "gender")?;
        Some(Student { id, name, first_name, last_name, gender })
    }
}

/// A class, teacher, subject or room of a lesson.
#[derive(Debug, Clone, PartialEq, Eq)]
pub struct LessonElement {
    pub id: usize,
    pub name: String,
}

impl Decode for LessonElement {
    open spec fn fits(j: JsonValue) -> bool {
        &&& member_fits::<usize>(j, "id"@)
        &&& member_fits::<String>(j, "name"@)
    }

    open spec fn holds(&self, j: JsonValue) -> bool {
        &&& member_holds(&self.id, j, "id"@)
        &&& member_holds(&self.name, j, "name"@)
    }

    fn decode(j: &Json) -> (r: Option<Self>) {
        let id = decode_member::<usize>(j, "id")?;
        let name = decode_member::<String>(j, "name")?;
        Some(LessonElement { id, name })
    }
}

/// One lesson of a timetable.
#[derive(Debug, Clone, PartialEq, Eq)]
pub struct Lesson {
    pub id: usize,
    pub date: Date,
    pub start_time: Time,
    pub end_time: Time,
    pub classes: Vec<LessonElement>,
    pub teachers: Vec<LessonElement>,
    pub subjects: Vec<LessonElement>,
    pub rooms: Vec<LessonElement>,
    pub code: Option<String>,
    pub info: Option<String>,
    pub subst_text: Option<String>,
    pub lesson_text: Option<String>,
}

impl Decode for Lesson {
    open spec fn fits(j: JsonValue) -> bool {
        &&& member_fits::<usize>(j, "id"@)
        &&& member_fits::<Date>(j, "date"@)
        &&& member_fits::<Time>(j, "startTime"@)
        &&& member_fits::<Time>(j, "endTime"@)
        &&& member_fits::<Vec<LessonElement>>(j, "kl"@)
        &&& member_fits::<Vec<LessonElement>>(j, "te"@)
        &&& member_fits::<Vec<LessonElement>>(j, "su"@)
        &&& member_fits::<Vec<LessonElement>>(j, "ro"@)
        &&& optional_fits::<String>(j, "code"@)
        &&& optional_fits::<String>(j, "info"@)
        &&& optional_fits::<String>(j, "substText"@)
        &&& optional_fits::<String>(j, "lstext"@)
    }

    open spec fn holds(&self, j: JsonValue) -> bool {
        &&& member_holds(&self.id, j, "id"@)
        &&& member_holds(&self.date, j, "date"@)
        &&& member_holds(&self.start_time, j, "startTime"@)
        &&& member_holds(&self.end_time, j, "endTime"@)
        &&& member_holds(&self.classes, j, "kl"@)
        &&& member_holds(&self.teachers, j, "te"@)
        &&& member_holds(&self.subjects, j, "su"@)
        &&& member_holds(&self.rooms, j, "ro"@)
        &&& optional_holds(&self.code, j, "code"@)
        &&& optional_holds(&self.info, j, "info"@)
        &&& optional_holds(&self.subst_text, j, "substText"@)
        &&& optional_holds(&self.lesson_text, j, "lstext"@)
    }

    fn decode(j: &Json) -> (r: Option<Self>) {
        let id = decode_member::<usize>(j, "id")?;
        let date = decode_member::<Date>(j, "date")?;
        let start_time = decode_member::<Time>(j, "startTime")?;
        let end_time = decode_member::<Time>(j, "endTime")?;
        let classes = decode_member::<Vec<LessonElement>>(j, "kl")?;
        let teachers = decode_member::<Vec<LessonElement>>(j, "te")?;
        let subjects = decode_member::<Vec<LessonElement>>(j, "su")?;
        let rooms = decode_member::<Vec<LessonElement>>(j, "ro")?;
        let code = decode_optional::<String>(j, "code")?;
        let info = decode_optional::<String>(j, "info")?;
        let subst_text = decode_optional::<String>(j, "substText")?;
        let lesson_text = decode_optional::<String>(j, "lstext")?;
        Some(Lesson { id, date, start_time, end_time, classes, teachers, subjects, rooms, code, info, subst_text, lesson_text })
    }
}

/// The colours of one lesson type or lesson code.
#[derive(Debug, Clone, PartialEq, Eq)]
pub struct StatusColor {
    pub name: String,
    pub fore_color: String,
    pub back_color: String,
}

/// On the wire an object with one member: the name, and under it the two
/// colours.
impl Decode for StatusColor {
    open spec fn fits(j: JsonValue) -> bool {
        &&& j is Object
        &&& j->Object_0.len() == 1
        &&& member_fits::<String>(j->Object_0[0].1, "foreColor"@)
        &&& member_fits::<String>(j->Object_0[0].1, "backColor"@)
    }

    open spec fn holds(&self, j: JsonValue) -> bool {
        &&& j is Object
        &&& j->Object_0.len() == 1
        &&& self.name@ == j->Object_0[0].0
        &&& member_holds(&self.fore_color, j->Object_0[0].1, "foreColor"@)
        &&& member_holds(&self.back_color, j->Object_0[0].1, "backColor"@)
    }

    fn decode(j: &Json) -> (r: Option<Self>) {
        match j {
            Json::Object(members) => {
                proof {
                    j.lemma_object_view();
                }
                if members.len() != 1 {
                    return None;
                }
                let fore_color = decode_member::<String>(&members[0].1, "foreColor")?;
                let back_color = decode_member::<String>(&members[0].1, "backColor")?;
                Some(StatusColor { name: members[0].0.clone(), fore_color, back_color })
            },
            _ => None,
        }
    }
}

/// The colours in which a timetable is shown.
#[derive(Debug, Clone, PartialEq, Eq)]
pub struct StatusData {
    pub lesson_types: Vec<StatusColor>,
    pub codes: Vec<StatusColor>,
}

impl Decode for StatusData {
    open spec fn fits(j: JsonValue) -> bool {
        &&& member_fits::<Vec<StatusColor>>(j, "lstypes"@)
        &&& member_fits::<Vec<StatusColor>>(j, "codes"@)
    }

    open spec fn holds(&self, j: JsonValue) -> bool {
        &&& member_holds(&self.lesson_types, j, "lstypes"@)
        &&& member_holds(&self.codes, j, "codes"@)
    }

    fn decode(j: &Json) -> (r: Option<Self>) {
        let lesson_types = decode_member::<Vec<StatusColor>>(j, "lstypes")?;
        let codes = decode_member::<Vec<StatusColor>>(j, "codes")?;
        Some(StatusData { lesson_types, codes })
    }
}

} // verus!
