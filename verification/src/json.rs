//! The JSON values the SDK reads and writes on the wire.
//!
//! Numbers are carried as their decimal text so that no precision is lost
//! and no floating-point arithmetic is involved. Objects are an ordered list
//! of `(key, value)` members. Contracts speak of the mathematical view
//! [`JsonView`], in which strings are sequences of characters.
use vstd::prelude::*;
use vstd::string::*;

verus! {

/// A JSON value.
#[derive(Debug, PartialEq, Eq, Default)]
pub enum JsonValue {
    /// `null`
    #[default]
    Null,
    /// `true` / `false`
    Bool(bool),
    /// A number, as its decimal text (e.g. `12`, `-0.5`, `1e3`).
    Number(String),
    /// A string.
    Str(String),
    /// An array.
    Array(Vec<JsonValue>),
    /// An object, as its ordered members.
    Object(Vec<(String, JsonValue)>),
}

/// The members of a JSON object.
pub type JsonMap = Vec<(String, JsonValue)>;

/// The mathematical model of a [`JsonValue`].
pub enum JsonView {
    Null,
    Bool(bool),
    Number(Seq<char>),
    Str(Seq<char>),
    Array(Seq<JsonView>),
    Object(Seq<(Seq<char>, JsonView)>),
}

/// The model of a JSON value.
pub open spec fn json_view(v: JsonValue) -> JsonView
    decreases v,
{
    match v {
        JsonValue::Null => JsonView::Null,
        JsonValue::Bool(b) => JsonView::Bool(b),
        JsonValue::Number(n) => JsonView::Number(n@),
        JsonValue::Str(s) => JsonView::Str(s@),
        JsonValue::Array(items) => JsonView::Array(items_view(items@)),
        JsonValue::Object(m) => JsonView::Object(members_view(m@)),
    }
}

/// The models of a sequence of values.
pub open spec fn items_view(items: Seq<JsonValue>) -> Seq<JsonView>
    decreases items,
{
    if items.len() == 0 {
        Seq::empty()
    } else {
        items_view(items.drop_last()).push(json_view(items.last()))
    }
}

/// The models of a sequence of object members.
pub open spec fn members_view(m: Seq<(String, JsonValue)>) -> Seq<(Seq<char>, JsonView)>
    decreases m,
{
    if m.len() == 0 {
        Seq::empty()
    } else {
        members_view(m.drop_last()).push((m.last().0@, json_view(m.last().1)))
    }
}

/// The model of an optional value.
pub open spec fn opt_json_view(v: Option<JsonValue>) -> Option<JsonView> {
    match v {
        Some(x) => Some(json_view(x)),
        None => None,
    }
}

impl View for JsonValue {
    type V = JsonView;

    open spec fn view(&self) -> JsonView {
        json_view(*self)
    }
}

/// `items_view` maps each value to its model.
pub proof fn lemma_items_view(items: Seq<JsonValue>)
    ensures
        items_view(items).len() == items.len(),
        forall|i: int| 0 <= i < items.len() ==> #[trigger] items_view(items)[i] == json_view(items[i]),
    decreases items.len(),
{
    if items.len() > 0 {
        lemma_items_view(items.drop_last());
        assert forall|i: int| 0 <= i < items.len() implies #[trigger] items_view(items)[i] == json_view(items[i]) by {
            if i < items.len() - 1 {
                assert(items.drop_last()[i] == items[i]);
            }
        }
    }
}

/// `members_view` maps each member to its key's text and its value's model.
pub proof fn lemma_members_view(m: Seq<(String, JsonValue)>)
    ensures
        members_view(m).len() == m.len(),
        forall|i: int| 0 <= i < m.len() ==> #[trigger] members_view(m)[i] == (m[i].0@, json_view(m[i].1)),
    decreases m.len(),
{
    if m.len() > 0 {
        lemma_members_view(m.drop_last());
        assert forall|i: int| 0 <= i < m.len() implies #[trigger] members_view(m)[i] == (m[i].0@, json_view(m[i].1)) by {
            if i < m.len() - 1 {
                assert(m.drop_last()[i] == m[i]);
            }
        }
    }
}

/// The value stored under `key` among `members`, searching from the front.
pub open spec fn member(members: Seq<(Seq<char>, JsonView)>, key: Seq<char>) -> Option<JsonView>
    decreases members.len(),
{
    if members.len() == 0 {
        None
    } else if members[0].0 == key {
        Some(members[0].1)
    } else {
        member(members.drop_first(), key)
    }
}

/// The members after setting `key` to `value`: an existing member with that
/// key is replaced in place, otherwise the member is appended.
pub open spec fn set_member(members: Seq<(Seq<char>, JsonView)>, key: Seq<char>, value: JsonView) -> Seq<
    (Seq<char>, JsonView),
>
    decreases members.len(),
{
    if members.len() == 0 {
        seq![(key, value)]
    } else if members[0].0 == key {
        seq![(key, value)] + members.drop_first()
    } else {
        seq![members[0]] + set_member(members.drop_first(), key, value)
    }
}

/// The value under `key` when `v` is an object, `None` otherwise.
pub open spec fn field(v: JsonView, key: Seq<char>) -> Option<JsonView> {
    match v {
        JsonView::Object(m) => member(m, key),
        _ => None,
    }
}

/// `v` with `key` set to `value` when `v` is an object; other values are unchanged.
pub open spec fn set_field(v: JsonView, key: Seq<char>, value: JsonView) -> JsonView {
    match v {
        JsonView::Object(m) => JsonView::Object(set_member(m, key, value)),
        _ => v,
    }
}

/// The text stored under `key`, when `v` is an object holding a JSON string there.
pub open spec fn str_field(v: JsonView, key: Seq<char>) -> Option<Seq<char>> {
    match field(v, key) {
        Some(JsonView::Str(s)) => Some(s),
        _ => None,
    }
}

/// The boolean stored under `key`, when `v` is an object holding one.
pub open spec fn bool_field(v: JsonView, key: Seq<char>) -> Option<bool> {
    match field(v, key) {
        Some(JsonView::Bool(b)) => Some(b),
        _ => None,
    }
}

/// An object with no members.
pub open spec fn empty_object() -> JsonView {
    JsonView::Object(Seq::empty())
}

/// The object whose members are `members`, set in order from an empty object.
pub open spec fn object_of(members: Seq<(Seq<char>, JsonView)>) -> JsonView
    decreases members.len(),
{
    if members.len() == 0 {
        empty_object()
    } else {
        set_field(object_of(members.drop_last()), members.last().0, members.last().1)
    }
}

proof fn lemma_member_skip(members: Seq<(Seq<char>, JsonView)>, key: Seq<char>, i: int)
    requires
        0 <= i <= members.len(),
        forall|j: int| 0 <= j < i ==> (#[trigger] members[j]).0 != key,
    ensures
        member(members, key) == member(members.skip(i), key),
    decreases i,
{
    if i > 0 {
        lemma_member_skip(members.drop_first(), key, i - 1);
        assert(members.drop_first().skip(i - 1) =~= members.skip(i));
    } else {
        assert(members.skip(0) =~= members);
    }
}

/// Law: reading a key back after setting it gives the value that was set,
/// and setting one key leaves every other key's value unchanged.
pub proof fn law_set_then_get(v: JsonView, key: Seq<char>, value: JsonView, other: Seq<char>)
    requires
        v is Object,
    ensures
        field(set_field(v, key, value), key) == Some(value),
        other != key ==> field(set_field(v, key, value), other) == field(v, other),
{
    lemma_set_member_get(v->Object_0, key, value, other);
}

proof fn lemma_set_member_get(members: Seq<(Seq<char>, JsonView)>, key: Seq<char>, value: JsonView, other: Seq<char>)
    ensures
        member(set_member(members, key, value), key) == Some(value),
        other != key ==> member(set_member(members, key, value), other) == member(members, other),
    decreases members.len(),
{
    let r = set_member(members, key, value);
    if members.len() == 0 {
        assert(r[0] == (key, value));
        assert(r.drop_first() =~= Seq::<(Seq<char>, JsonView)>::empty());
    } else if members[0].0 == key {
        assert(r[0] == (key, value));
        assert(r.drop_first() =~= members.drop_first());
        assert(member(r, other) == member(r.drop_first(), other) || other == key);
    } else {
        lemma_set_member_get(members.drop_first(), key, value, other);
        assert(r[0] == members[0]);
        assert(r.drop_first() =~= set_member(members.drop_first(), key, value));
    }
}

/// Compares two strings by their characters.
pub fn str_eq(a: &str, b: &str) -> (r: bool)
    ensures
        r == (a@ == b@),
{
    let n = a.unicode_len();
    if n != b.unicode_len() {
        return false;
    }
    let mut i: usize = 0;
    while i < n
        invariant
            n == a@.len(),
            n == b@.len(),
            i <= n,
            forall|j: int| 0 <= j < i ==> a@[j] == b@[j],
        decreases n - i,
    {
        if a.get_char(i) != b.get_char(i) {
            return false;
        }
        i = i + 1;
    }
    assert(a@ =~= b@);
    true
}

impl JsonValue {
    /// A copy of this value.
    pub fn deep_clone(&self) -> (r: JsonValue)
        ensures
            r@ == self@,
        decreases *self,
    {
        match self {
            JsonValue::Null => JsonValue::Null,
            JsonValue::Bool(b) => JsonValue::Bool(*b),
            JsonValue::Number(n) => JsonValue::Number(n.clone()),
            JsonValue::Str(s) => JsonValue::Str(s.clone()),
            JsonValue::Array(items) => {
                let mut out: Vec<JsonValue> = Vec::new();
                let mut i: usize = 0;
                proof {
                    lemma_items_view(items@);
                }
                while i < items.len()
                    invariant
                        i <= items@.len(),
                        out@.len() == i,
                        forall|j: int| 0 <= j < i ==> (#[trigger] out@[j])@ == items@[j]@,
                        *self == JsonValue::Array(*items),
                    decreases items.len() - i,
                {
                    proof {
                        assert(decreases_to!(*self => self->Array_0));
                        assert(self->Array_0 == *items);
                        assert(decreases_to!(*items => items@[i as int]));
                    }
                    out.push(items[i].deep_clone());
                    i = i + 1;
                }
                proof {
                    lemma_items_view(out@);
                    assert(items_view(out@) =~= items_view(items@));
                }
                JsonValue::Array(out)
            },
            JsonValue::Object(m) => {
                let mut out: Vec<(String, JsonValue)> = Vec::new();
                let mut i: usize = 0;
                proof {
                    lemma_members_view(m@);
                }
                while i < m.len()
                    invariant
                        i <= m@.len(),
                        out@.len() == i,
                        forall|j: int| 0 <= j < i ==> (#[trigger] out@[j]).0@ == m@[j].0@ && out@[j].1@ == m@[j].1@,
                        *self == JsonValue::Object(*m),
                    decreases m.len() - i,
                {
                    proof {
                        assert(decreases_to!(*self => self->Object_0));
                        assert(self->Object_0 == *m);
                        assert(decreases_to!(*m => m@[i as int]));
                        assert(decreases_to!(m@[i as int] => m@[i as int].1));
                    }
                    let k = m[i].0.clone();
                    let v = m[i].1.deep_clone();
                    out.push((k, v));
                    i = i + 1;
                }
                proof {
                    lemma_members_view(out@);
                    assert(members_view(out@) =~= members_view(m@));
                }
                JsonValue::Object(out)
            },
        }
    }

    /// An empty object.
    pub fn object() -> (r: JsonValue)
        ensures
            r@ == empty_object(),
    {
        let r = JsonValue::Object(Vec::new());
        proof {
            assert(members_view(Seq::<(String, JsonValue)>::empty()) =~= Seq::empty());
        }
        r
    }

    /// A JSON string holding `s`.
    pub fn string(s: &str) -> (r: JsonValue)
        ensures
            r@ == JsonView::Str(s@),
    {
        JsonValue::Str(s.to_owned())
    }

    /// The value stored under `key`, when this value is an object holding it.
    pub fn get(&self, key: &str) -> (r: Option<&JsonValue>)
        ensures
            r is Some <==> field(self@, key@) is Some,
            r matches Some(v) ==> field(self@, key@) == Some(v@),
    {
        match self {
            JsonValue::Object(m) => {
                let ghost mv = members_view(m@);
                proof {
                    lemma_members_view(m@);
                    assert(*self == JsonValue::Object(*m));
                    assert(self@ == JsonView::Object(mv));
                }
                let mut i: usize = 0;
                while i < m.len()
                    invariant
                        i <= m@.len(),
                        mv == members_view(m@),
                        mv.len() == m@.len(),
                        forall|j: int| 0 <= j < m@.len() ==> #[trigger] mv[j] == (m@[j].0@, json_view(m@[j].1)),
                        forall|j: int| 0 <= j < i ==> (#[trigger] mv[j]).0 != key@,
                        self@ == JsonView::Object(mv),
                    decreases m.len() - i,
                {
                    if str_eq(m[i].0.as_str(), key) {
                        proof {
                            lemma_member_skip(mv, key@, i as int);
                            assert(mv.skip(i as int)[0] == mv[i as int]);
                        }
                        return Some(&m[i].1);
                    }
                    i = i + 1;
                }
                proof {
                    lemma_member_skip(mv, key@, i as int);
                    assert(mv.skip(i as int).len() == 0);
                }
                None
            },
            _ => None,
        }
    }

    /// The text stored under `key`, when this value is an object holding a
    /// JSON string there.
    pub fn get_str(&self, key: &str) -> (r: Option<String>)
        ensures
            r is Some <==> str_field(self@, key@) is Some,
            r matches Some(s) ==> str_field(self@, key@) == Some(s@),
    {
        match self.get(key) {
            Some(JsonValue::Str(s)) => Some(s.clone()),
            _ => None,
        }
    }

    /// The boolean stored under `key`, when this value is an object holding one.
    pub fn get_bool(&self, key: &str) -> (r: Option<bool>)
        ensures
            r == bool_field(self@, key@),
    {
        match self.get(key) {
            Some(JsonValue::Bool(b)) => Some(*b),
            _ => None,
        }
    }

    /// Sets `key` to `value` when this value is an object; other values are
    /// left unchanged.
    pub fn set(&mut self, key: &str, value: JsonValue)
        ensures
            final(self)@ == set_field(old(self)@, key@, value@),
    {
        if let JsonValue::Object(m) = self {
            let k = key.to_owned();
            set_in_members(m, k, value);
        }
    }
}

/// Sets `key` to `value` among `members`.
pub fn set_in_members(members: &mut Vec<(String, JsonValue)>, key: String, value: JsonValue)
    ensures
        members_view(final(members)@) == set_member(members_view(old(members)@), key@, value@),
{
    let ghost mv = members_view(members@);
    let ghost kv = key@;
    let ghost vv = value@;
    proof {
        lemma_members_view(members@);
    }
    let mut i: usize = 0;
    while i < members.len()
        invariant
            i <= members@.len(),
            members@ == old(members)@,
            mv == members_view(old(members)@),
            mv.len() == members@.len(),
            forall|j: int| 0 <= j < members@.len() ==> #[trigger] mv[j] == (members@[j].0@, json_view(members@[j].1)),
            kv == key@,
            vv == value@,
            forall|j: int| 0 <= j < i ==> (#[trigger] mv[j]).0 != kv,
        decreases members.len() - i,
    {
        if str_eq(members[i].0.as_str(), key.as_str()) {
            proof {
                lemma_set_member_prefix(mv, kv, vv, i as int);
            }
            members.set(i, (key, value));
            proof {
                lemma_members_view(members@);
                assert(members_view(members@) =~= mv.update(i as int, (kv, vv)));
            }
            return;
        }
        i = i + 1;
    }
    proof {
        lemma_set_member_prefix(mv, kv, vv, i as int);
    }
    members.push((key, value));
    proof {
        lemma_members_view(members@);
        assert(members_view(members@) =~= mv.push((kv, vv)));
    }
}

proof fn lemma_set_member_prefix(members: Seq<(Seq<char>, JsonView)>, key: Seq<char>, value: JsonView, i: int)
    requires
        0 <= i <= members.len(),
        forall|j: int| 0 <= j < i ==> (#[trigger] members[j]).0 != key,
    ensures
        i < members.len() && members[i].0 == key ==> set_member(members, key, value) == members.update(i, (key, value)),
        i == members.len() ==> set_member(members, key, value) == members.push((key, value)),
    decreases i,
{
    if i > 0 {
        lemma_set_member_prefix(members.drop_first(), key, value, i - 1);
        if i < members.len() && members[i].0 == key {
            assert(members.drop_first()[i - 1] == members[i]);
            assert(set_member(members, key, value) =~= members.update(i, (key, value)));
        }
        if i == members.len() {
            assert(set_member(members, key, value) =~= members.push((key, value)));
        }
    } else {
        if members.len() > 0 && members[0].0 == key {
            assert(set_member(members, key, value) =~= members.update(0, (key, value)));
        }
        if members.len() == 0 {
            assert(set_member(members, key, value) =~= members.push((key, value)));
        }
    }
}

/// The character of a decimal digit.
pub open spec fn digit_char(d: nat) -> char {
    if d == 0 {
        '0'
    } else if d == 1 {
        '1'
    } else if d == 2 {
        '2'
    } else if d == 3 {
        '3'
    } else if d == 4 {
        '4'
    } else if d == 5 {
        '5'
    } else if d == 6 {
        '6'
    } else if d == 7 {
        '7'
    } else if d == 8 {
        '8'
    } else {
        '9'
    }
}

/// The decimal text of `n`, without leading zeros.
pub open spec fn decimal_text(n: nat) -> Seq<char>
    decreases n,
{
    if n < 10 {
        seq![digit_char(n)]
    } else {
        decimal_text(n / 10).push(digit_char(n % 10))
    }
}

fn digit_str(d: u64) -> (r: &'static str)
    requires
        d < 10,
    ensures
        r@ == seq![digit_char(d as nat)],
{
    proof {
        reveal_strlit("0");
        reveal_strlit("1");
        reveal_strlit("2");
        reveal_strlit("3");
        reveal_strlit("4");
        reveal_strlit("5");
        reveal_strlit("6");
        reveal_strlit("7");
        reveal_strlit("8");
        reveal_strlit("9");
    }
    if d == 0 {
        "0"
    } else if d == 1 {
        "1"
    } else if d == 2 {
        "2"
    } else if d == 3 {
        "3"
    } else if d == 4 {
        "4"
    } else if d == 5 {
        "5"
    } else if d == 6 {
        "6"
    } else if d == 7 {
        "7"
    } else if d == 8 {
        "8"
    } else {
        "9"
    }
}

/// The decimal text of `n`.
pub fn decimal_string(n: u64) -> (r: String)
    ensures
        r@ == decimal_text(n as nat),
    decreases n,
{
    if n < 10 {
        digit_str(n).to_owned()
    } else {
        let mut s = decimal_string(n / 10);
        s.append(digit_str(n % 10));
        s
    }
}

impl JsonValue {
    /// The JSON number `n`.
    pub fn from_u64(n: u64) -> (r: JsonValue)
        ensures
            r@ == JsonView::Number(decimal_text(n as nat)),
    {
        JsonValue::Number(decimal_string(n))
    }
}

/// The compact text that `serde_json` writes for a JSON value.
pub uninterp spec fn serialized_json(v: JsonView) -> Seq<char>;

#[verifier::external_type_specification]
#[verifier::external_body]
pub struct ExSerdeValue(serde_json::Value);

/// Builds the `serde_json` value with the same content (a number whose text
/// `serde_json` cannot read becomes `null`).
#[verifier::external_body]
fn to_serde_value(v: &JsonValue) -> serde_json::Value {
    match v {
        JsonValue::Null => serde_json::Value::Null,
        JsonValue::Bool(b) => serde_json::Value::Bool(*b),
        JsonValue::Number(n) => serde_json::from_str(n).unwrap_or(serde_json::Value::Null),
        JsonValue::Str(s) => serde_json::Value::String(s.clone()),
        JsonValue::Array(items) => serde_json::Value::Array(items.iter().map(to_serde_value).collect()),
        JsonValue::Object(m) => serde_json::Value::Object(
            m.iter().map(|(k, x)| (k.clone(), to_serde_value(x))).collect(),
        ),
    }
}

/// `serde_json::to_string` of the value: its compact JSON text. The text is
/// named [`serialized_json`], a function of the value alone; nothing more is
/// stated of it.
#[verifier::external_body]
pub(crate) fn json_text(v: &JsonValue) -> (r: String)
    ensures
        r@ == serialized_json(v@),
{
    serde_json::to_string(&to_serde_value(v)).unwrap_or_default()
}

/// The message of the error `serde_json::from_value` gives when it reads the
/// value as a `String`.
pub uninterp spec fn string_read_error(v: JsonView) -> Seq<char>;

/// The message of the error `serde_json::from_value` gives when it reads the
/// value as an `i64`.
pub uninterp spec fn i64_read_error(v: JsonView) -> Seq<char>;

/// The message of the error `serde_json::from_value` gives when it reads the
/// value as a `bool`.
pub uninterp spec fn bool_read_error(v: JsonView) -> Seq<char>;

/// `serde_json::from_value::<String>` on the value, for the text of its
/// error: named [`string_read_error`], a function of the value alone. On a
/// value that reads, which callers never pass, the text is empty.
#[verifier::external_body]
pub(crate) fn string_read_error_text(v: &JsonValue) -> (r: String)
    ensures
        r@ == string_read_error(v@),
{
    match serde_json::from_value::<String>(to_serde_value(v)) {
        Ok(_) => String::new(),
        Err(e) => e.to_string(),
    }
}

/// `serde_json::from_value::<i64>` on the value, for the text of its error:
/// named [`i64_read_error`], a function of the value alone. On a value that
/// reads, which callers never pass, the text is empty.
#[verifier::external_body]
pub(crate) fn i64_read_error_text(v: &JsonValue) -> (r: String)
    ensures
        r@ == i64_read_error(v@),
{
    match serde_json::from_value::<i64>(to_serde_value(v)) {
        Ok(_) => String::new(),
        Err(e) => e.to_string(),
    }
}

/// `serde_json::from_value::<bool>` on the value, for the text of its error:
/// named [`bool_read_error`], a function of the value alone. On a value that
/// reads, which callers never pass, the text is empty.
#[verifier::external_body]
pub(crate) fn bool_read_error_text(v: &JsonValue) -> (r: String)
    ensures
        r@ == bool_read_error(v@),
{
    match serde_json::from_value::<bool>(to_serde_value(v)) {
        Ok(_) => String::new(),
        Err(e) => e.to_string(),
    }
}

} // verus!
