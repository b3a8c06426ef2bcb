//! JSON values as the library reads them, and the bridge to `serde_json`.

use vstd::prelude::*;

verus! {

/// The mathematical model of a JSON value.
///
/// A number is modelled by the integer it holds when it is one, and by
/// `None` otherwise. An object is the sequence of its members
/// in the order in which the parser's map hands them out.
pub enum JsonValue {
    Null,
    Bool(bool),
    Number(Option<i128>),
    Text(Seq<char>),
    Array(Seq<JsonValue>),
    Object(Seq<(Seq<char>, JsonValue)>),
}

/// A JSON value held by the library. A number that is no integer is held
/// as `Number(None)`: the library neither reads nor writes fractions.
#[derive(Debug, PartialEq, Eq)]
pub enum Json {
    Null,
    Bool(bool),
    Number(Option<i128>),
    Text(String),
    Array(Vec<Json>),
    Object(Vec<(String, Json)>),
}

/// What a [`Json`] stands for.
pub open spec fn value_of(j: Json) -> JsonValue
    decreases j,
{
    match j {
        Json::Null => JsonValue::Null,
        Json::Bool(b) => JsonValue::Bool(b),
        Json::Number(n) => JsonValue::Number(n),
        Json::Text(s) => JsonValue::Text(s@),
        Json::Array(items) => JsonValue::Array(
            Seq::new(items@.len(), |i: int| if 0 <= i < items@.len() { value_of(items@[i]) } else { JsonValue::Null }),
        ),
        Json::Object(members) => JsonValue::Object(
            Seq::new(
                members@.len(),
                |i: int|
                    if 0 <= i < members@.len() {
                        (members@[i].0@, value_of(members@[i].1))
                    } else {
                        (Seq::empty(), JsonValue::Null)
                    },
            ),
        ),
    }
}

impl View for Json {
    type V = JsonValue;

    open spec fn view(&self) -> JsonValue {
        value_of(*self)
    }
}

/// The first member named `key` among `members`, if there is one.
pub open spec fn find_member(members: Seq<(Seq<char>, JsonValue)>, key: Seq<char>) -> Option<JsonValue>
    decreases members.len(),
{
    if members.len() == 0 {
        None
    } else if members[0].0 == key {
        Some(members[0].1)
    } else {
        find_member(members.skip(1), key)
    }
}

impl JsonValue {
    /// The member named `key` of an object; `None` for any other value.
    pub open spec fn member(self, key: Seq<char>) -> Option<JsonValue> {
        match self {
            JsonValue::Object(members) => find_member(members, key),
            _ => None,
        }
    }

    /// The integer held by a number that is one.
    pub open spec fn as_int(self) -> Option<i128> {
        match self {
            JsonValue::Number(n) => n,
            _ => None,
        }
    }

    pub open spec fn as_text(self) -> Option<Seq<char>> {
        match self {
            JsonValue::Text(s) => Some(s),
            _ => None,
        }
    }

    pub open spec fn as_bool(self) -> Option<bool> {
        match self {
            JsonValue::Bool(b) => Some(b),
            _ => None,
        }
    }

    pub open spec fn as_items(self) -> Option<Seq<JsonValue>> {
        match self {
            JsonValue::Array(items) => Some(items),
            _ => None,
        }
    }

    /// The integer held by the member named `key`.
    pub open spec fn int_member(self, key: Seq<char>) -> Option<i128> {
        match self.member(key) {
            Some(v) => v.as_int(),
            None => None,
        }
    }

    /// The text held by the member named `key`.
    pub open spec fn text_member(self, key: Seq<char>) -> Option<Seq<char>> {
        match self.member(key) {
            Some(v) => v.as_text(),
            None => None,
        }
    }

    /// Whether every number in the value is an integer.
    pub open spec fn exact(self) -> bool
        decreases self,
    {
        match self {
            JsonValue::Number(n) => n is Some,
            JsonValue::Array(items) => forall|i: int| 0 <= i < items.len() ==> (#[trigger] items[i]).exact(),
            JsonValue::Object(members) => forall|i: int|
                0 <= i < members.len() ==> (#[trigger] members[i]).1.exact(),
            _ => true,
        }
    }
}

impl Json {
    /// The view of an array is the sequence of its items' views.
    pub proof fn lemma_array_view(self)
        requires
            self is Array,
        ensures
            self@ is Array,
            self@->Array_0.len() == self->Array_0@.len(),
            forall|k: int| 0 <= k < self->Array_0@.len() ==> #[trigger] self@->Array_0[k] == self->Array_0@[k]@,
    {
    }

    /// The view of an object is the sequence of its members' names and views.
    pub proof fn lemma_object_view(self)
        requires
            self is Object,
        ensures
            self@ is Object,
            self@->Object_0.len() == self->Object_0@.len(),
            forall|k: int|
                0 <= k < self->Object_0@.len() ==> #[trigger] self@->Object_0[k] == (
                    self->Object_0@[k].0@,
                    self->Object_0@[k].1@,
                ),
    {
    }

    /// The member named `key`, where this is an object that has one.
    pub fn member(&self, key: &str) -> (r: Option<&Json>)
        ensures
            match r {
                Some(j) => self@.member(key@) == Some(j@),
                None => self@.member(key@) is None,
            },
    {
        match self {
            Json::Object(members) => {
                let wanted = String::from_str(key);
                let mut i: usize = 0;
                proof {
                    self.lemma_object_view();
                    assert(self@->Object_0.skip(0) =~= self@->Object_0);
                }
                while i < members.len()
                    invariant
                        i <= members.len(),
                        wanted@ == key@,
                        self@ is Object,
                        self@->Object_0.len() == members@.len(),
                        forall|k: int|
                            0 <= k < members@.len() ==> #[trigger] self@->Object_0[k] == (
                                members@[k].0@,
                                members@[k].1@,
                            ),
                        find_member(self@->Object_0, key@) == find_member(self@->Object_0.skip(i as int), key@),
                    decreases members.len() - i,
                {
                    proof {
                        let rest = self@->Object_0.skip(i as int);
                        assert(rest[0] == self@->Object_0[i as int]);
                        assert(rest.skip(1) =~= self@->Object_0.skip(i + 1));
                    }
                    if members[i].0 == wanted {
                        return Some(&members[i].1);
                    }
                    i += 1;
                }
                None
            },
            _ => None,
        }
    }

    /// The integer held by the member named `key`.
    pub fn int_member(&self, key: &str) -> (r: Option<i128>)
        ensures
            r == self@.int_member(key@),
    {
        match self.member(key) {
            Some(Json::Number(n)) => *n,
            _ => None,
        }
    }

    /// The text held by the member named `key`.
    pub fn text_member(&self, key: &str) -> (r: Option<&String>)
        ensures
            match r {
                Some(s) => self@.text_member(key@) == Some(s@),
                None => self@.text_member(key@) is None,
            },
    {
        match self.member(key) {
            Some(Json::Text(s)) => Some(s),
            _ => None,
        }
    }
}

/// `serde_json::Value`, the tree that `serde_json` parses a text into.
/// Nothing inside it is visible to the proofs; [`json_of`] names what it
/// holds.
#[verifier::external_type_specification]
#[verifier::external_body]
pub struct ExValue(serde_json::Value);

/// What a `serde_json::Value` holds: the same tree in the model. A number
/// is `Number::as_i128` of it, so a number with a fraction or an exponent is
/// `None`; the members of an object come in the order of `Map::iter`.
pub uninterp spec fn json_of(v: serde_json::Value) -> JsonValue;

/// What `serde_json::from_str` makes of a text: the value it parses to, or
/// `None` where it reports an error.
pub uninterp spec fn parsed(text: Seq<char>) -> Option<JsonValue>;

/// One level of a `serde_json::Value`, with the children still unread.
enum Node<'a> {
    Null,
    Bool(bool),
    Number(Option<i128>),
    Text(&'a String),
    Array(&'a Vec<serde_json::Value>),
    Object(Vec<(&'a String, &'a serde_json::Value)>),
}

impl<'a> Node<'a> {
    /// The value that a node stands for, its children taken by what they
    /// hold.
    spec fn value(self) -> JsonValue {
        match self {
            Node::Null => JsonValue::Null,
            Node::Bool(b) => JsonValue::Bool(b),
            Node::Number(n) => JsonValue::Number(n),
            Node::Text(s) => JsonValue::Text(s@),
            Node::Array(items) => JsonValue::Array(items@.map_values(|c: serde_json::Value| json_of(c))),
            Node::Object(members) => JsonValue::Object(
                members@.map_values(|m: (&String, &serde_json::Value)| (m.0@, json_of(*m.1))),
            ),
        }
    }
}

/// `serde_json::from_str` at type `serde_json::Value`: the value read from
/// `text`, or `None` where the text is not one JSON value.
#[verifier::external_body]
fn parse_value(text: &str) -> (r: Option<serde_json::Value>)
    ensures
        match r {
            Some(v) => parsed(text@) == Some(json_of(v)),
            None => parsed(text@) is None,
        },
{
    serde_json::from_str::<serde_json::Value>(text).ok()
}

/// Tells the variants of `serde_json::Value` apart and hands out what the
/// variant holds; a number through `Number::as_i128`, an object's members
/// through `Map::iter`.
#[verifier::external_body]
fn node_of<'a>(v: &'a serde_json::Value) -> (r: Node<'a>)
    ensures
        r.value() == json_of(*v),
{
    match v {
        serde_json::Value::Null => Node::Null,
        serde_json::Value::Bool(b) => Node::Bool(*b),
        serde_json::Value::Number(n) => Node::Number(n.as_i128()),
        serde_json::Value::String(s) => Node::Text(s),
        serde_json::Value::Array(items) => Node::Array(items),
        serde_json::Value::Object(members) => Node::Object(members.iter().collect()),
    }
}

/// Copies a parsed tree into a [`Json`], level by level.
fn lift(v: &serde_json::Value) -> (r: Json)
    ensures
        r@ == json_of(*v),
    decreases json_of(*v),
{
    match node_of(v) {
        Node::Null => Json::Null,
        Node::Bool(b) => Json::Bool(b),
        Node::Number(n) => Json::Number(n),
        Node::Text(s) => Json::Text(s.clone()),
        Node::Array(items) => {
            let mut out: Vec<Json> = Vec::new();
            let mut i: usize = 0;
            while i < items.len()
                invariant
                    i <= items.len(),
                    json_of(*v) == JsonValue::Array(items@.map_values(|c: serde_json::Value| json_of(c))),
                    out@.len() == i,
                    forall|k: int| 0 <= k < i ==> (#[trigger] out@[k])@ == json_of(items@[k]),
                decreases items.len() - i,
            {
                proof {
                    let children = json_of(*v)->Array_0;
                    assert(children[i as int] == json_of(items@[i as int]));
                    assert(decreases_to!(json_of(*v) => children));
                    assert(decreases_to!(children => children[i as int]));
                }
                let child = lift(&items[i]);
                out.push(child);
                i += 1;
            }
            let r = Json::Array(out);
            assert(r@->Array_0 =~= json_of(*v)->Array_0);
            r
        },
        Node::Object(members) => {
            let mut out: Vec<(String, Json)> = Vec::new();
            let mut i: usize = 0;
            while i < members.len()
                invariant
                    i <= members.len(),
                    json_of(*v) == JsonValue::Object(
                        members@.map_values(|m: (&String, &serde_json::Value)| (m.0@, json_of(*m.1))),
                    ),
                    out@.len() == i,
                    forall|k: int| 0 <= k < i ==> (#[trigger] out@[k]).0@ == members@[k].0@ && out@[k].1@ == json_of(*members@[k].1),
                decreases members.len() - i,
            {
                proof {
                    let listed = json_of(*v)->Object_0;
                    assert(listed[i as int].1 == json_of(*members@[i as int].1));
                    assert(decreases_to!(json_of(*v) => listed));
                    assert(decreases_to!(listed => listed[i as int]));
                    assert(decreases_to!(listed[i as int] => listed[i as int].1));
                }
                let child = lift(members[i].1);
                out.push((members[i].0.clone(), child));
                i += 1;
            }
            let r = Json::Object(out);
            assert(r@->Object_0 =~= json_of(*v)->Object_0);
            r
        },
    }
}

/// Reads `text` as one JSON value; `None` where it is none.
pub fn parse(text: &str) -> (r: Option<Json>)
    ensures
        match r {
            Some(j) => parsed(text@) == Some(j@),
            None => parsed(text@) is None,
        },
{
    match parse_value(text) {
        Some(v) => Some(lift(&v)),
        None => None,
    }
}


/// The character of a decimal digit.
pub open spec fn digit_char(d: nat) -> char {
    if d == 0 {
        '0'
    } else if d == 1 {
        '1'
    } else if d == 2 {
        '2'
    } else if d == 3 {
        '3'
    } else if d == 4 {
        '4'
    } else if d == 5 {
        '5'
    } else if d == 6 {
        '6'
    } else if d == 7 {
        '7'
    } else if d == 8 {
        '8'
    } else {
        '9'
    }
}

/// The decimal digits of a natural number, without leading zeros.
pub open spec fn digits(n: nat) -> Seq<char>
    decreases n,
{
    if n < 10 {
        seq![digit_char(n)]
    } else {
        digits(n / 10).push(digit_char(n % 10))
    }
}

/// The decimal text of an integer: a minus sign where it is negative, then
/// the digits of its magnitude.
pub open spec fn decimal(n: int) -> Seq<char> {
    if n < 0 {
        seq!['-'] + digits((-n) as nat)
    } else {
        digits(n as nat)
    }
}

fn digit_text(d: u128) -> (r: &'static str)
    requires
        d < 10,
    ensures
        r@ == seq![digit_char(d as nat)],
{
    proof {
        reveal_strlit("0");
        reveal_strlit("1");
        reveal_strlit("2");
        reveal_strlit("3");
        reveal_strlit("4");
        reveal_strlit("5");
        reveal_strlit("6");
        reveal_strlit("7");
        reveal_strlit("8");
        reveal_strlit("9");
    }
    let r = if d == 0 {
        "0"
    } else if d == 1 {
        "1"
    } else if d == 2 {
        "2"
    } else if d == 3 {
        "3"
    } else if d == 4 {
        "4"
    } else if d == 5 {
        "5"
    } else if d == 6 {
        "6"
    } else if d == 7 {
        "7"
    } else if d == 8 {
        "8"
    } else {
        "9"
    };
    assert(r@ =~= seq![digit_char(d as nat)]);
    r
}

fn push_digits(out: &mut String, n: u128)
    ensures
        final(out)@ == old(out)@ + digits(n as nat),
    decreases n,
{
    if n >= 10 {
        push_digits(out, n / 10);
    }
    out.append(digit_text(n % 10));
    assert(out@ =~= old(out)@ + digits(n as nat));
}

/// Appends the decimal text of `n` to `out`.
pub fn push_decimal(out: &mut String, n: i128)
    ensures
        final(out)@ == old(out)@ + decimal(n as int),
{
    if n < 0 {
        proof {
            reveal_strlit("-");
        }
        out.append("-");
        let magnitude: u128 = if n == i128::MIN {
            170141183460469231731687303715884105728u128
        } else {
            (-n) as u128
        };
        push_digits(out, magnitude);
        assert(out@ =~= old(out)@ + decimal(n as int));
    } else {
        push_digits(out, n as u128);
    }
}

/// The JSON string literal that `serde_json` writes for a text: the text
/// between double quotes, with the characters escaped that JSON wants
/// escaped.
pub uninterp spec fn quoted(text: Seq<char>) -> Seq<char>;

/// `serde_json::to_string` at type `str`: the JSON string literal for `text`.
#[verifier::external_body]
fn quote(text: &str) -> (r: String)
    ensures
        r@ == quoted(text@),
{
    serde_json::to_string(text).unwrap_or_default()
}

/// The text of the items of an array from index `from` on, each but the
/// first of the whole array after a comma.
pub open spec fn rendered_items(items: Seq<JsonValue>, from: nat) -> Seq<char>
    decreases items, items.len() - from,
{
    if from >= items.len() {
        Seq::empty()
    } else {
        (if from == 0 {
            Seq::empty()
        } else {
            seq![',']
        }) + rendered(items[from as int]) + rendered_items(items, from + 1)
    }
}

/// The text of the members of an object from index `from` on, each as its
/// quoted name, a colon and its value, and each but the first of the whole
/// object after a comma.
pub open spec fn rendered_members(members: Seq<(Seq<char>, JsonValue)>, from: nat) -> Seq<char>
    decreases members, members.len() - from,
{
    if from >= members.len() {
        Seq::empty()
    } else {
        (if from == 0 {
            Seq::empty()
        } else {
            seq![',']
        }) + quoted(members[from as int].0) + seq![':'] + rendered(members[from as int].1)
            + rendered_members(members, from + 1)
    }
}

/// The compact JSON text of a value: no white space, members in the order
/// of the model. Only an exact value has a text of its own: for a number
/// that is no integer the model writes `null`.
pub open spec fn rendered(v: JsonValue) -> Seq<char>
    decreases v, 0nat,
{
    match v {
        JsonValue::Null => "null"@,
        JsonValue::Bool(b) => if b {
            "true"@
        } else {
            "false"@
        },
        JsonValue::Number(n) => match n {
            Some(i) => decimal(i as int),
            None => "null"@,
        },
        JsonValue::Text(s) => quoted(s),
        JsonValue::Array(items) => seq!['['] + rendered_items(items, 0) + seq![']'],
        JsonValue::Object(members) => seq!['{'] + rendered_members(members, 0) + seq!['}'],
    }
}


/// Appends the compact JSON text of `j` to `out`.
pub fn render_into(out: &mut String, j: &Json)
    requires
        j@.exact(),
    ensures
        final(out)@ == old(out)@ + rendered(j@),
    decreases j,
{
    match j {
        Json::Null => {
            out.append("null");
        },
        Json::Bool(b) => {
            if *b {
                out.append("true");
            } else {
                out.append("false");
            }
        },
        Json::Number(n) => {
            match n {
                Some(i) => push_decimal(out, *i),
                None => {
                    out.append("null");
                },
            }
        },
        Json::Text(s) => {
            let literal = quote(s.as_str());
            out.append(literal.as_str());
        },
        Json::Array(items) => {
            proof {
                j.lemma_array_view();
            }
            let ghost all = j@->Array_0;
            let ghost target = old(out)@ + seq!['['] + rendered_items(all, 0);
            proof {
                reveal_strlit("[");
                reveal_strlit("]");
            }
            out.append("[");
            let mut i: usize = 0;
            while i < items.len()
                invariant
                    i <= items.len(),
                    *j == Json::Array(*items),
                    all == j@->Array_0,
                    all.len() == items@.len(),
                    j@.exact(),
                    forall|k: int| 0 <= k < items@.len() ==> #[trigger] all[k] == items@[k]@,
                    target == out@ + rendered_items(all, i as nat),
                decreases items.len() - i,
            {
                let ghost before = out@;
                proof {
                    reveal_strlit(",");
                    reveal_strlit(":");
                }
                if i > 0 {
                    out.append(",");
                }
                let ghost sep: Seq<char> = if i == 0 {
                    Seq::empty()
                } else {
                    seq![',']
                };
                assert(out@ =~= before + sep);
                assert(all[i as int].exact());
                render_into(out, &items[i]);
                assert(rendered_items(all, i as nat) == sep + rendered(all[i as int]) + rendered_items(
                    all,
                    (i + 1) as nat,
                ));
                assert(out@ + rendered_items(all, (i + 1) as nat) =~= before + rendered_items(all, i as nat));
                i += 1;
            }
            out.append("]");
            assert(out@ =~= old(out)@ + rendered(j@));
        },
        Json::Object(members) => {
            proof {
                j.lemma_object_view();
            }
            let ghost all = j@->Object_0;
            let ghost target = old(out)@ + seq!['{'] + rendered_members(all, 0);
            proof {
                reveal_strlit("{");
                reveal_strlit("}");
            }
            out.append("{");
            let mut i: usize = 0;
            while i < members.len()
                invariant
                    i <= members.len(),
                    *j == Json::Object(*members),
                    all == j@->Object_0,
                    all.len() == members@.len(),
                    j@.exact(),
                    forall|k: int|
                        0 <= k < members@.len() ==> #[trigger] all[k] == (members@[k].0@, members@[k].1@),
                    target == out@ + rendered_members(all, i as nat),
                decreases members.len() - i,
            {
                let ghost before = out@;
                proof {
                    reveal_strlit(",");
                    reveal_strlit(":");
                }
                if i > 0 {
                    out.append(",");
                }
                let ghost sep: Seq<char> = if i == 0 {
                    Seq::empty()
                } else {
                    seq![',']
                };
                let name = quote(members[i].0.as_str());
                out.append(name.as_str());
                out.append(":");
                assert(out@ =~= before + sep + quoted(all[i as int].0) + seq![':']);
                assert(all[i as int].1.exact());
                render_into(out, &members[i].1);
                assert(rendered_members(all, i as nat) == sep + quoted(all[i as int].0) + seq![':'] + rendered(
                    all[i as int].1,
                ) + rendered_members(all, (i + 1) as nat));
                assert(out@ + rendered_members(all, (i + 1) as nat) =~= before + rendered_members(all, i as nat));
                i += 1;
            }
            out.append("}");
            assert(out@ =~= old(out)@ + rendered(j@));
        },
    }
}

/// The compact JSON text of `j`.
pub fn render(j: &Json) -> (r: String)
    requires
        j@.exact(),
    ensures
        r@ == rendered(j@),
{
    let mut out = String::new();
    render_into(&mut out, j);
    assert(out@ =~= rendered(j@));
    out
}


/// The members of an object under construction, all of them exact.
pub struct ObjectBuilder {
    members: Vec<(String, Json)>,
}

impl View for ObjectBuilder {
    type V = Seq<(Seq<char>, JsonValue)>;

    closed spec fn view(&self) -> Seq<(Seq<char>, JsonValue)> {
        Json::Object(self.members)@->Object_0
    }
}

impl ObjectBuilder {
    #[verifier::type_invariant]
    spec fn all_exact(self) -> bool {
        Json::Object(self.members)@.exact()
    }

    pub fn new() -> (r: ObjectBuilder)
        ensures
            r@ == Seq::<(Seq<char>, JsonValue)>::empty(),
    {
        let r = ObjectBuilder { members: Vec::new() };
        proof {
            Json::Object(r.members).lemma_object_view();
            assert(Json::Object(r.members)@->Object_0 =~= Seq::empty());
        }
        r
    }

    /// Adds the member `name` with the value `value` after those already
    /// there.
    pub fn put(self, name: &str, value: Json) -> (r: ObjectBuilder)
        requires
            value@.exact(),
        ensures
            r@ == self@.push((name@, value@)),
    {
        proof {
            use_type_invariant(&self);
            Json::Object(self.members).lemma_object_view();
        }
        let mut members = self.members;
        let ghost before = Json::Object(members)@->Object_0;
        members.push((String::from_str(name), value));
        proof {
            Json::Object(members).lemma_object_view();
            let after = Json::Object(members)@->Object_0;
            assert(after =~= before.push((name@, value@)));
            assert forall|i: int| 0 <= i < after.len() implies (#[trigger] after[i]).1.exact() by {
                if i < before.len() {
                    assert(after[i] == before[i]);
                }
            }
        }
        ObjectBuilder { members }
    }

    /// The object with the members that were put, in that order.
    pub fn finish(self) -> (r: Json)
        ensures
            r@ == JsonValue::Object(self@),
            r@.exact(),
    {
        proof {
            use_type_invariant(&self);
            Json::Object(self.members).lemma_object_view();
        }
        Json::Object(self.members)
    }
}

/// The JSON text value for `s`.
pub fn text(s: &str) -> (r: Json)
    ensures
        r@ == JsonValue::Text(s@),
{
    Json::Text(String::from_str(s))
}

/// The JSON number for `n`.
pub fn integer(n: i128) -> (r: Json)
    ensures
        r@ == JsonValue::Number(Some(n)),
{
    Json::Number(Some(n))
}

} // verus!
