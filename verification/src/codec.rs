//! Typed values to and from JSON.

use crate::json::{Json, JsonValue};
use vstd::prelude::*;

verus! {

/// A value that can be sent as the parameters of a request.
pub trait Encode {
    /// The JSON value that stands for `self` on the wire.
    spec fn encoded(&self) -> JsonValue;

    fn encode(&self) -> (r: Json)
        ensures
            r@ == self.encoded(),
            r@.exact(),
    ;
}

/// A value that can be read from the result of a response.
pub trait Decode: Sized {
    /// Whether `j` has the shape of a value of this type.
    spec fn fits(j: JsonValue) -> bool;

    /// Whether `self` is the value that `j` describes.
    spec fn holds(&self, j: JsonValue) -> bool;

    fn decode(j: &Json) -> (r: Option<Self>)
        ensures
            r is Some <==> Self::fits(j@),
            r matches Some(value) ==> value.holds(j@),
    ;
}

/// No parameters: `null` on the wire.
impl Encode for () {
    open spec fn encoded(&self) -> JsonValue {
        JsonValue::Null
    }

    fn encode(&self) -> (r: Json) {
        Json::Null
    }
}

/// No result: `null` on the wire.
impl Decode for () {
    open spec fn fits(j: JsonValue) -> bool {
        j is Null
    }

    open spec fn holds(&self, j: JsonValue) -> bool {
        j is Null
    }

    fn decode(j: &Json) -> (r: Option<Self>) {
        match j {
            Json::Null => Some(()),
            _ => None,
        }
    }
}

impl Decode for i64 {
    open spec fn fits(j: JsonValue) -> bool {
        j.as_int() matches Some(n) && i64::MIN <= n <= i64::MAX
    }

    open spec fn holds(&self, j: JsonValue) -> bool {
        j.as_int() matches Some(n) && n == *self
    }

    fn decode(j: &Json) -> (r: Option<Self>) {
        match j {
            Json::Number(Some(n)) => {
                if i64::MIN as i128 <= *n && *n <= i64::MAX as i128 {
                    Some(*n as i64)
                } else {
                    None
                }
            },
            _ => None,
        }
    }
}

/// A list is an array whose every item has the shape of `T`.
impl<T: Decode> Decode for Vec<T> {
    open spec fn fits(j: JsonValue) -> bool {
        &&& j is Array
        &&& forall|i: int| 0 <= i < j->Array_0.len() ==> T::fits(#[trigger] j->Array_0[i])
    }

    open spec fn holds(&self, j: JsonValue) -> bool {
        &&& j is Array
        &&& self@.len() == j->Array_0.len()
        &&& forall|i: int| 0 <= i < self@.len() ==> (#[trigger] self@[i]).holds(j->Array_0[i])
    }

    fn decode(j: &Json) -> (r: Option<Self>) {
        match j {
            Json::Array(items) => {
                proof {
                    j.lemma_array_view();
                }
                let mut out: Vec<T> = Vec::new();
                let mut i: usize = 0;
                while i < items.len()
                    invariant
                        i <= items.len(),
                        j@ is Array,
                        j@->Array_0.len() == items@.len(),
                        forall|k: int| 0 <= k < items@.len() ==> #[trigger] j@->Array_0[k] == items@[k]@,
                        out@.len() == i,
                        forall|k: int| 0 <= k < i ==> T::fits(#[trigger] j@->Array_0[k]),
                        forall|k: int| 0 <= k < i ==> (#[trigger] out@[k]).holds(j@->Array_0[k]),
                    decreases items.len() - i,
                {
                    match T::decode(&items[i]) {
                        Some(value) => {
                            out.push(value);
                        },
                        None => {
                            assert(!T::fits(j@->Array_0[i as int]));
                            return None;
                        },
                    }
                    i += 1;
                }
                Some(out)
            },
            _ => None,
        }
    }
}


impl Decode for String {
    open spec fn fits(j: JsonValue) -> bool {
        j is Text
    }

    open spec fn holds(&self, j: JsonValue) -> bool {
        j == JsonValue::Text(self@)
    }

    fn decode(j: &Json) -> (r: Option<Self>) {
        match j {
            Json::Text(s) => Some(s.clone()),
            _ => None,
        }
    }
}

impl Decode for bool {
    open spec fn fits(j: JsonValue) -> bool {
        j is Bool
    }

    open spec fn holds(&self, j: JsonValue) -> bool {
        j == JsonValue::Bool(*self)
    }

    fn decode(j: &Json) -> (r: Option<Self>) {
        match j {
            Json::Bool(b) => Some(*b),
            _ => None,
        }
    }
}

/// An identifier or a count: an integer that is not negative and fits.
impl Decode for usize {
    open spec fn fits(j: JsonValue) -> bool {
        j.as_int() matches Some(n) && 0 <= n <= usize::MAX
    }

    open spec fn holds(&self, j: JsonValue) -> bool {
        j.as_int() matches Some(n) && n == *self
    }

    fn decode(j: &Json) -> (r: Option<Self>) {
        match j {
            Json::Number(Some(n)) => {
                if *n >= 0 && *n <= usize::MAX as i128 {
                    Some(*n as usize)
                } else {
                    None
                }
            },
            _ => None,
        }
    }
}

/// Whether `j` has a member `key` with the shape of a `T`.
pub open spec fn member_fits<T: Decode>(j: JsonValue, key: Seq<char>) -> bool {
    j.member(key) matches Some(v) && T::fits(v)
}

/// Whether `value` is what the member `key` of `j` describes.
pub open spec fn member_holds<T: Decode>(value: &T, j: JsonValue, key: Seq<char>) -> bool {
    j.member(key) matches Some(v) && value.holds(v)
}

/// Reads the member `key` of `j` as a `T`.
pub fn decode_member<T: Decode>(j: &Json, key: &str) -> (r: Option<T>)
    ensures
        r is Some <==> member_fits::<T>(j@, key@),
        r matches Some(value) ==> member_holds(&value, j@, key@),
{
    match j.member(key) {
        Some(v) => T::decode(v),
        None => None,
    }
}

/// Whether the member `key` of `j` is missing, `null`, or has the shape of a
/// `T`.
pub open spec fn optional_fits<T: Decode>(j: JsonValue, key: Seq<char>) -> bool {
    match j.member(key) {
        Some(v) => v is Null || T::fits(v),
        None => true,
    }
}

/// Whether `value` is what the member `key` of `j` describes: nothing where
/// the member is missing or `null`.
pub open spec fn optional_holds<T: Decode>(value: &Option<T>, j: JsonValue, key: Seq<char>) -> bool {
    match j.member(key) {
        Some(v) => if v is Null {
            value is None
        } else {
            value matches Some(inner) && inner.holds(v)
        },
        None => value is None,
    }
}

/// Reads the member `key` of `j` as a `T` that may be left out.
pub fn decode_optional<T: Decode>(j: &Json, key: &str) -> (r: Option<Option<T>>)
    ensures
        r is Some <==> optional_fits::<T>(j@, key@),
        r matches Some(value) ==> optional_holds(&value, j@, key@),
{
    match j.member(key) {
        Some(Json::Null) => Some(None),
        Some(v) => match T::decode(v) {
            Some(inner) => Some(Some(inner)),
            None => None,
        },
        None => Some(None),
    }
}

/// A result that fits a list is read item by item: the list has as many
/// items as the array, and each is what the array's item at its place
/// describes.
pub proof fn lemma_list_is_read_item_by_item<T: Decode>(items: Seq<JsonValue>, list: Vec<T>)
    requires
        list.holds(JsonValue::Array(items)),
    ensures
        list@.len() == items.len(),
        forall|i: int| 0 <= i < items.len() ==> (#[trigger] list@[i]).holds(items[i]),
{
}

/// A list is sent as the array of its items.
impl<T: Encode> Encode for Vec<T> {
    open spec fn encoded(&self) -> JsonValue {
        JsonValue::Array(Seq::new(self@.len(), |i: int| self@[i].encoded()))
    }

    fn encode(&self) -> (r: Json) {
        let mut out: Vec<Json> = Vec::new();
        let mut i: usize = 0;
        while i < self.len()
            invariant
                i <= self.len(),
                out@.len() == i,
                forall|k: int| 0 <= k < i ==> (#[trigger] out@[k])@ == self@[k].encoded(),
                forall|k: int| 0 <= k < i ==> (#[trigger] out@[k])@.exact(),
            decreases self.len() - i,
        {
            out.push(self[i].encode());
            i += 1;
        }
        let r = Json::Array(out);
        proof {
            r.lemma_array_view();
            assert(r@->Array_0 =~= self.encoded()->Array_0);
        }
        r
    }
}

} // verus!
