//! Typed hooks: reading a `hooks.invoke` input as the input type of the
//! hook's kind, and turning each hook output into its wire object.
//!
//! An input is read as `serde_json` reads it: from a JSON object, whose
//! members are checked in their order (the first that names a field and has
//! the wrong type fails the read) before required fields are looked for in
//! declaration order; or from a JSON array, which lists every field in
//! declaration order and holds no more. An optional text may be `null`, and
//! in an object may be absent; members that no field names are ignored.
use crate::error::{CopilotError, ErrorView};
use crate::json::{empty_object, field, member, members_view, JsonValue, JsonView};
use crate::requests::{
    opt_bool_json, opt_set, opt_text_json, opt_texts_json, set_opt_bool, set_opt_json,
    set_opt_text, set_opt_texts,
};
use crate::session::{i64_of_text, int_text, invalid_hook_input, invalid_hook_input_text, opt_text, parse_i64};
use crate::types::{
    ErrorOccurredHookInput, ErrorOccurredHookOutput, HookKind, PostToolUseHookInput,
    PostToolUseHookOutput, PreToolUseHookInput, PreToolUseHookOutput, SessionEndHookInput,
    SessionEndHookOutput, SessionStartHookInput, SessionStartHookOutput,
    UserPromptSubmittedHookInput, UserPromptSubmittedHookOutput,
};
use vstd::prelude::*;
use vstd::string::*;

verus! {

// =============================================================================
// Reading fields
// =============================================================================

/// The detail of the error for a required field that is absent.
pub open spec fn missing_field_text(key: Seq<char>) -> Seq<char> {
    "missing field `"@ + key + "`"@
}

/// The detail of the error for an array that ends before field number `i`
/// of the type `ty`, which has `n` fields.
pub open spec fn short_array_text(i: int, ty: Seq<char>, n: int) -> Seq<char> {
    "invalid length "@ + crate::json::decimal_text(i as nat) + ", expected struct "@ + ty + " with "@
        + crate::json::decimal_text(n as nat) + " elements"@
}

/// The detail of the error for an array of `len` elements that has more
/// elements than the type has fields.
pub open spec fn long_array_text(len: int) -> Seq<char> {
    "invalid length "@ + crate::json::decimal_text(len as nat) + ", expected fewer elements in array"@
}

/// The first of two failures, if any.
pub open spec fn first_failure(a: Option<Seq<char>>, b: Option<Seq<char>>) -> Option<Seq<char>> {
    match a {
        Some(_) => a,
        None => b,
    }
}

/// The value of field number `i`, named `key`: the member `key` of an
/// object, or element `i` of an array (the fields in declaration order).
pub open spec fn slot(v: JsonView, i: int, key: Seq<char>) -> Option<JsonView> {
    match v {
        JsonView::Array(items) => if 0 <= i < items.len() {
            Some(items[i])
        } else {
            None
        },
        _ => field(v, key),
    }
}

/// Why field number `i` of the type `ty` (with `n` fields) fails when it is
/// not there: in an array every field must be there; in an object only
/// required ones.
pub open spec fn absent_failure(v: JsonView, key: Seq<char>, required: bool, i: int, ty: Seq<char>, n: int) -> Option<Seq<char>> {
    if v is Array {
        Some(short_array_text(i, ty, n))
    } else if required {
        Some(missing_field_text(key))
    } else {
        None
    }
}

/// Why an array with more elements than the type's `n` fields fails.
pub open spec fn extra_failure(v: JsonView, n: int) -> Option<Seq<char>> {
    match v {
        JsonView::Array(items) => if items.len() > n {
            Some(long_array_text(items.len() as int))
        } else {
            None
        },
        _ => None,
    }
}

/// The integer in field `i`, when it is a number that fits an `i64`.
pub open spec fn i64_slot(v: JsonView, i: int, key: Seq<char>) -> Option<i64> {
    match slot(v, i, key) {
        Some(JsonView::Number(t)) => i64_of_text(t),
        _ => None,
    }
}

/// The text in field `i`, when it is a string.
pub open spec fn text_slot(v: JsonView, i: int, key: Seq<char>) -> Option<Seq<char>> {
    match slot(v, i, key) {
        Some(JsonView::Str(s)) => Some(s),
        _ => None,
    }
}

/// The flag in field `i`, when it is a boolean.
pub open spec fn bool_slot(v: JsonView, i: int, key: Seq<char>) -> Option<bool> {
    match slot(v, i, key) {
        Some(JsonView::Bool(b)) => Some(b),
        _ => None,
    }
}

/// Why a required integer field does not read, if it does not.
pub open spec fn i64_failure(v: JsonView, i: int, key: Seq<char>, ty: Seq<char>, n: int) -> Option<Seq<char>> {
    match slot(v, i, key) {
        None => absent_failure(v, key, true, i, ty, n),
        Some(x) => match i64_slot(v, i, key) {
            Some(_) => None,
            None => Some(crate::json::i64_read_error(x)),
        },
    }
}

/// Why a required text field does not read, if it does not.
pub open spec fn text_failure(v: JsonView, i: int, key: Seq<char>, ty: Seq<char>, n: int) -> Option<Seq<char>> {
    match slot(v, i, key) {
        None => absent_failure(v, key, true, i, ty, n),
        Some(JsonView::Str(_)) => None,
        Some(x) => Some(crate::json::string_read_error(x)),
    }
}

/// Why a required flag does not read, if it does not.
pub open spec fn bool_failure(v: JsonView, i: int, key: Seq<char>, ty: Seq<char>, n: int) -> Option<Seq<char>> {
    match slot(v, i, key) {
        None => absent_failure(v, key, true, i, ty, n),
        Some(JsonView::Bool(_)) => None,
        Some(x) => Some(crate::json::bool_read_error(x)),
    }
}

/// Why a required field of any JSON value does not read: only when absent.
pub open spec fn any_failure(v: JsonView, i: int, key: Seq<char>, ty: Seq<char>, n: int) -> Option<Seq<char>> {
    match slot(v, i, key) {
        None => absent_failure(v, key, true, i, ty, n),
        Some(_) => None,
    }
}

/// Why an optional text field does not read: when it is there and neither
/// `null` nor a string, or when it is missing from an array.
pub open spec fn opt_text_failure(v: JsonView, i: int, key: Seq<char>, ty: Seq<char>, n: int) -> Option<Seq<char>> {
    match slot(v, i, key) {
        None => absent_failure(v, key, false, i, ty, n),
        Some(JsonView::Null) => None,
        Some(JsonView::Str(_)) => None,
        Some(x) => Some(crate::json::string_read_error(x)),
    }
}

fn missing_field(key: &str) -> (r: String)
    ensures
        r@ == missing_field_text(key@),
{
    let mut m = "missing field `".to_owned();
    m.append(key);
    m.append("`");
    m
}

fn short_array(i: usize, ty: &str, n: usize) -> (r: String)
    ensures
        r@ == short_array_text(i as int, ty@, n as int),
{
    let mut m = "invalid length ".to_owned();
    let a = crate::json::decimal_string(i as u64);
    m.append(a.as_str());
    m.append(", expected struct ");
    m.append(ty);
    m.append(" with ");
    let b = crate::json::decimal_string(n as u64);
    m.append(b.as_str());
    m.append(" elements");
    m
}

fn absent(v: &JsonValue, key: &str, required: bool, i: usize, ty: &str, n: usize) -> (r: Option<String>)
    ensures
        match r {
            Some(d) => absent_failure(v@, key@, required, i as int, ty@, n as int) == Some(d@),
            None => absent_failure(v@, key@, required, i as int, ty@, n as int) is None,
        },
{
    match v {
        JsonValue::Array(_) => Some(short_array(i, ty, n)),
        _ => if required {
            Some(missing_field(key))
        } else {
            None
        },
    }
}

fn get_slot<'a>(v: &'a JsonValue, i: usize, key: &str) -> (r: Option<&'a JsonValue>)
    ensures
        r is Some <==> slot(v@, i as int, key@) is Some,
        r matches Some(x) ==> slot(v@, i as int, key@) == Some(x@),
{
    match v {
        JsonValue::Array(items) => {
            proof {
                crate::json::lemma_items_view(items@);
            }
            if i < items.len() {
                Some(&items[i])
            } else {
                None
            }
        },
        _ => v.get(key),
    }
}

/// Checks that an array has no more elements than the type's `n` fields.
fn check_extra(v: &JsonValue, n: usize) -> (r: Result<(), String>)
    ensures
        match r {
            Ok(()) => extra_failure(v@, n as int) is None,
            Err(d) => extra_failure(v@, n as int) == Some(d@),
        },
{
    match v {
        JsonValue::Array(items) => {
            proof {
                crate::json::lemma_items_view(items@);
            }
            if items.len() > n {
                let mut m = "invalid length ".to_owned();
                let a = crate::json::decimal_string(items.len() as u64);
                m.append(a.as_str());
                m.append(", expected fewer elements in array");
                Err(m)
            } else {
                Ok(())
            }
        },
        _ => Ok(()),
    }
}

fn read_i64(v: &JsonValue, i: usize, key: &str, ty: &str, count: usize) -> (r: Result<i64, String>)
    ensures
        match r {
            Ok(n) => i64_failure(v@, i as int, key@, ty@, count as int) is None
                && i64_slot(v@, i as int, key@) == Some(n),
            Err(d) => i64_failure(v@, i as int, key@, ty@, count as int) == Some(d@),
        },
{
    match get_slot(v, i, key) {
        None => match absent(v, key, true, i, ty, count) {
            Some(d) => Err(d),
            None => Err(missing_field(key)),
        },
        Some(x) => {
            let parsed = match x {
                JsonValue::Number(t) => parse_i64(t.as_str()),
                _ => None,
            };
            match parsed {
                Some(n) => Ok(n),
                None => Err(crate::json::i64_read_error_text(x)),
            }
        },
    }
}

fn read_text(v: &JsonValue, i: usize, key: &str, ty: &str, count: usize) -> (r: Result<String, String>)
    ensures
        match r {
            Ok(s) => text_failure(v@, i as int, key@, ty@, count as int) is None
                && text_slot(v@, i as int, key@) == Some(s@),
            Err(d) => text_failure(v@, i as int, key@, ty@, count as int) == Some(d@),
        },
{
    match get_slot(v, i, key) {
        None => match absent(v, key, true, i, ty, count) {
            Some(d) => Err(d),
            None => Err(missing_field(key)),
        },
        Some(JsonValue::Str(s)) => Ok(s.clone()),
        Some(x) => Err(crate::json::string_read_error_text(x)),
    }
}

fn read_bool(v: &JsonValue, i: usize, key: &str, ty: &str, count: usize) -> (r: Result<bool, String>)
    ensures
        match r {
            Ok(b) => bool_failure(v@, i as int, key@, ty@, count as int) is None
                && bool_slot(v@, i as int, key@) == Some(b),
            Err(d) => bool_failure(v@, i as int, key@, ty@, count as int) == Some(d@),
        },
{
    match get_slot(v, i, key) {
        None => match absent(v, key, true, i, ty, count) {
            Some(d) => Err(d),
            None => Err(missing_field(key)),
        },
        Some(JsonValue::Bool(b)) => Ok(*b),
        Some(x) => Err(crate::json::bool_read_error_text(x)),
    }
}

fn read_any(v: &JsonValue, i: usize, key: &str, ty: &str, count: usize) -> (r: Result<JsonValue, String>)
    ensures
        match r {
            Ok(x) => any_failure(v@, i as int, key@, ty@, count as int) is None
                && slot(v@, i as int, key@) == Some(x@),
            Err(d) => any_failure(v@, i as int, key@, ty@, count as int) == Some(d@),
        },
{
    match get_slot(v, i, key) {
        None => match absent(v, key, true, i, ty, count) {
            Some(d) => Err(d),
            None => Err(missing_field(key)),
        },
        Some(x) => Ok(x.deep_clone()),
    }
}

fn read_opt_text(v: &JsonValue, i: usize, key: &str, ty: &str, count: usize) -> (r: Result<Option<String>, String>)
    ensures
        match r {
            Ok(s) => opt_text_failure(v@, i as int, key@, ty@, count as int) is None
                && text_slot(v@, i as int, key@) == opt_text(s),
            Err(d) => opt_text_failure(v@, i as int, key@, ty@, count as int) == Some(d@),
        },
{
    match get_slot(v, i, key) {
        None => match absent(v, key, false, i, ty, count) {
            Some(d) => Err(d),
            None => Ok(None),
        },
        Some(JsonValue::Null) => Ok(None),
        Some(JsonValue::Str(s)) => Ok(Some(s.clone())),
        Some(x) => Err(crate::json::string_read_error_text(x)),
    }
}

/// Why a value does not read as an `i64`, if it does not.
pub open spec fn i64_value_failure(x: JsonView) -> Option<Seq<char>> {
    match x {
        JsonView::Number(t) => if i64_of_text(t) is Some {
            None
        } else {
            Some(crate::json::i64_read_error(x))
        },
        _ => Some(crate::json::i64_read_error(x)),
    }
}

/// Why a value does not read as a string, if it does not.
pub open spec fn text_value_failure(x: JsonView) -> Option<Seq<char>> {
    match x {
        JsonView::Str(_) => None,
        _ => Some(crate::json::string_read_error(x)),
    }
}

/// Why a value does not read as a flag, if it does not.
pub open spec fn bool_value_failure(x: JsonView) -> Option<Seq<char>> {
    match x {
        JsonView::Bool(_) => None,
        _ => Some(crate::json::bool_read_error(x)),
    }
}

/// Why a value does not read as an optional string, if it does not.
pub open spec fn opt_text_value_failure(x: JsonView) -> Option<Seq<char>> {
    match x {
        JsonView::Null => None,
        JsonView::Str(_) => None,
        _ => Some(crate::json::string_read_error(x)),
    }
}

/// Why the field `key` of an object is missing, when it is required and not
/// there.
pub open spec fn missing_failure(v: JsonView, key: Seq<char>, required: bool) -> Option<Seq<char>> {
    if required && field(v, key) is None {
        Some(missing_field_text(key))
    } else {
        None
    }
}

/// The model of an optional detail.
pub open spec fn opt_detail(r: Option<String>) -> Option<Seq<char>> {
    match r {
        Some(d) => Some(d@),
        None => None,
    }
}

fn i64_value_check(x: &JsonValue) -> (r: Option<String>)
    ensures
        opt_detail(r) == i64_value_failure(x@),
{
    let parsed = match x {
        JsonValue::Number(t) => parse_i64(t.as_str()),
        _ => None,
    };
    match parsed {
        Some(_) => None,
        None => Some(crate::json::i64_read_error_text(x)),
    }
}

fn text_value_check(x: &JsonValue) -> (r: Option<String>)
    ensures
        opt_detail(r) == text_value_failure(x@),
{
    match x {
        JsonValue::Str(_) => None,
        _ => Some(crate::json::string_read_error_text(x)),
    }
}

fn bool_value_check(x: &JsonValue) -> (r: Option<String>)
    ensures
        opt_detail(r) == bool_value_failure(x@),
{
    match x {
        JsonValue::Bool(_) => None,
        _ => Some(crate::json::bool_read_error_text(x)),
    }
}

fn opt_text_value_check(x: &JsonValue) -> (r: Option<String>)
    ensures
        opt_detail(r) == opt_text_value_failure(x@),
{
    match x {
        JsonValue::Null => None,
        JsonValue::Str(_) => None,
        _ => Some(crate::json::string_read_error_text(x)),
    }
}

/// The model of an optional `i32`.
pub open spec fn opt_i32_json(v: Option<i32>) -> Option<JsonView> {
    match v {
        Some(n) => Some(JsonView::Number(int_text(n as int))),
        None => None,
    }
}

fn i32_json(n: i32) -> (r: JsonValue)
    ensures
        r@ == JsonView::Number(int_text(n as int)),
{
    if n < 0 {
        let m: i64 = n as i64;
        let mag: u64 = (0 - m) as u64;
        let mut t = "-".to_owned();
        proof {
            reveal_strlit("-");
        }
        let d = crate::json::decimal_string(mag);
        t.append(d.as_str());
        proof {
            assert(t@ =~= seq!['-'] + crate::json::decimal_text((-(n as int)) as nat));
        }
        JsonValue::Number(t)
    } else {
        JsonValue::from_u64(n as u64)
    }
}

fn set_opt_i32(p: &mut JsonValue, key: &str, v: Option<i32>)
    ensures
        final(p)@ == opt_set(old(p)@, key@, opt_i32_json(v)),
{
    match v {
        Some(n) => p.set(key, i32_json(n)),
        None => {},
    }
}

// =============================================================================
// Inputs and outputs
// =============================================================================

/// Why a member of a PreToolUseHookInput object fails to read: it names a field and its
/// value does not read as that field.
pub open spec fn pre_tool_use_member_failure(key: Seq<char>, x: JsonView) -> Option<Seq<char>> {
    if key == "timestamp"@ {
        i64_value_failure(x)
    } else if key == "cwd"@ {
        text_value_failure(x)
    } else if key == "toolName"@ {
        text_value_failure(x)
    } else if key == "toolArgs"@ {
        None
    } else {
        None
    }
}

/// The first member of a PreToolUseHookInput object that fails to read, if any.
pub open spec fn pre_tool_use_members_failure(ms: Seq<(Seq<char>, JsonView)>) -> Option<Seq<char>>
    decreases ms.len(),
{
    if ms.len() == 0 {
        None
    } else {
        first_failure(pre_tool_use_member_failure(ms[0].0, ms[0].1), pre_tool_use_members_failure(ms.drop_first()))
    }
}

/// Why `v` does not read as a PreToolUseHookInput, if it does not: for an object, its
/// first member that fails, else its first missing required field; for an
/// array, its first element that fails or is missing, else its length.
pub open spec fn pre_tool_use_input_failure(v: JsonView) -> Option<Seq<char>> {
    match v {
        JsonView::Array(_) => first_failure(i64_failure(v, 0, "timestamp"@, "PreToolUseHookInput"@, 4),
        first_failure(text_failure(v, 1, "cwd"@, "PreToolUseHookInput"@, 4),
        first_failure(text_failure(v, 2, "toolName"@, "PreToolUseHookInput"@, 4),
        first_failure(any_failure(v, 3, "toolArgs"@, "PreToolUseHookInput"@, 4),
        extra_failure(v, 4))))),
        JsonView::Object(ms) => first_failure(
            pre_tool_use_members_failure(ms),
            first_failure(missing_failure(v, "timestamp"@, true),
            first_failure(missing_failure(v, "cwd"@, true),
            first_failure(missing_failure(v, "toolName"@, true),
            first_failure(missing_failure(v, "toolArgs"@, true),
            None)))),
        ),
        _ => first_failure(missing_failure(v, "timestamp"@, true),
        first_failure(missing_failure(v, "cwd"@, true),
        first_failure(missing_failure(v, "toolName"@, true),
        first_failure(missing_failure(v, "toolArgs"@, true),
        None)))),
    }
}

/// `x` holds what `v` gives for each field of a PreToolUseHookInput.
pub open spec fn pre_tool_use_input_read(x: PreToolUseHookInput, v: JsonView) -> bool {
    &&& i64_slot(v, 0, "timestamp"@) == Some(x.timestamp)
    &&& text_slot(v, 1, "cwd"@) == Some(x.cwd@)
    &&& text_slot(v, 2, "toolName"@) == Some(x.tool_name@)
    &&& slot(v, 3, "toolArgs"@) == Some(x.tool_args@)
}

proof fn pre_tool_use_keys_distinct()
    ensures
        "timestamp"@ != "cwd"@,
        "timestamp"@ != "toolName"@,
        "timestamp"@ != "toolArgs"@,
        "cwd"@ != "toolName"@,
        "cwd"@ != "toolArgs"@,
        "toolName"@ != "toolArgs"@,
{
    reveal_strlit("timestamp");
    reveal_strlit("cwd");
    reveal_strlit("toolName");
    reveal_strlit("toolArgs");
    assert("timestamp"@.len() == 9 && "cwd"@.len() == 3);
    assert("timestamp"@.len() == 9 && "toolName"@.len() == 8);
    assert("timestamp"@.len() == 9 && "toolArgs"@.len() == 8);
    assert("cwd"@.len() == 3 && "toolName"@.len() == 8);
    assert("cwd"@.len() == 3 && "toolArgs"@.len() == 8);
    assert("toolName"@[4] != "toolArgs"@[4]);
}

proof fn pre_tool_use_lemma_members(ms: Seq<(Seq<char>, JsonView)>, key: Seq<char>)
    requires
        pre_tool_use_members_failure(ms) is None,
    ensures
        member(ms, key) matches Some(x) ==> pre_tool_use_member_failure(key, x) is None,
    decreases ms.len(),
{
    if ms.len() > 0 && ms[0].0 != key {
        pre_tool_use_lemma_members(ms.drop_first(), key);
    }
}

fn pre_tool_use_member_check(key: &str, x: &JsonValue) -> (r: Option<String>)
    ensures
        opt_detail(r) == pre_tool_use_member_failure(key@, x@),
{
    if crate::json::str_eq(key, "timestamp") {
        i64_value_check(x)
    } else if crate::json::str_eq(key, "cwd") {
        text_value_check(x)
    } else if crate::json::str_eq(key, "toolName") {
        text_value_check(x)
    } else if crate::json::str_eq(key, "toolArgs") {
        None
    } else {
        None
    }
}

fn pre_tool_use_members_check(m: &Vec<(String, JsonValue)>) -> (r: Option<String>)
    ensures
        opt_detail(r) == pre_tool_use_members_failure(members_view(m@)),
{
    let ghost mv = members_view(m@);
    proof {
        crate::json::lemma_members_view(m@);
        assert(mv.skip(0) =~= mv);
    }
    let mut i: usize = 0;
    while i < m.len()
        invariant
            0 <= i <= m.len(),
            mv == members_view(m@),
            mv.len() == m@.len(),
            forall|j: int| 0 <= j < m@.len() ==> #[trigger] mv[j] == (m@[j].0@, m@[j].1@),
            pre_tool_use_members_failure(mv) == pre_tool_use_members_failure(mv.skip(i as int)),
        decreases m.len() - i,
    {
        proof {
            assert(mv.skip(i as int).drop_first() =~= mv.skip(i + 1));
            assert(mv.skip(i as int)[0] == mv[i as int]);
        }
        match pre_tool_use_member_check(m[i].0.as_str(), &m[i].1) {
            Some(d) => return Some(d),
            None => {},
        }
        i = i + 1;
    }
    proof {
        assert(mv.skip(i as int) =~= Seq::<(Seq<char>, JsonView)>::empty());
    }
    None
}

fn pre_tool_use_read_fields(v: &JsonValue) -> (r: Result<PreToolUseHookInput, String>)
    requires
        match v@ {
            JsonView::Object(ms) => pre_tool_use_members_failure(ms) is None,
            _ => true,
        },
    ensures
        match pre_tool_use_input_failure(v@) {
            None => r matches Ok(x) && pre_tool_use_input_read(x, v@),
            Some(d) => r matches Err(e) && e@ == d,
        },
{
    proof {
        pre_tool_use_keys_distinct();
        if let JsonView::Object(ms) = v@ {
            pre_tool_use_lemma_members(ms, "timestamp"@);
            pre_tool_use_lemma_members(ms, "cwd"@);
            pre_tool_use_lemma_members(ms, "toolName"@);
            pre_tool_use_lemma_members(ms, "toolArgs"@);
        }
    }
    let timestamp = match read_i64(v, 0, "timestamp", "PreToolUseHookInput", 4) {
        Ok(x) => x,
        Err(d) => return Err(d),
    };
    let cwd = match read_text(v, 1, "cwd", "PreToolUseHookInput", 4) {
        Ok(x) => x,
        Err(d) => return Err(d),
    };
    let tool_name = match read_text(v, 2, "toolName", "PreToolUseHookInput", 4) {
        Ok(x) => x,
        Err(d) => return Err(d),
    };
    let tool_args = match read_any(v, 3, "toolArgs", "PreToolUseHookInput", 4) {
        Ok(x) => x,
        Err(d) => return Err(d),
    };
    match check_extra(v, 4) {
        Ok(()) => {},
        Err(d) => return Err(d),
    }
    Ok(PreToolUseHookInput { timestamp, cwd, tool_name, tool_args })
}

impl PreToolUseHookInput {
    /// Reads the input from its wire object or array, as `serde_json` reads
    /// it; the error is what `serde_json` reports.
    pub fn from_json(v: &JsonValue) -> (r: Result<Self, String>)
        ensures
            match pre_tool_use_input_failure(v@) {
                None => r matches Ok(x) && pre_tool_use_input_read(x, v@),
                Some(d) => r matches Err(e) && e@ == d,
            },
    {
        match v {
            JsonValue::Object(m) => match pre_tool_use_members_check(m) {
                Some(d) => return Err(d),
                None => {},
            },
            _ => {},
        }
        pre_tool_use_read_fields(v)
    }
}

/// Why a member of a PostToolUseHookInput object fails to read: it names a field and its
/// value does not read as that field.
pub open spec fn post_tool_use_member_failure(key: Seq<char>, x: JsonView) -> Option<Seq<char>> {
    if key == "timestamp"@ {
        i64_value_failure(x)
    } else if key == "cwd"@ {
        text_value_failure(x)
    } else if key == "toolName"@ {
        text_value_failure(x)
    } else if key == "toolArgs"@ {
        None
    } else if key == "toolResult"@ {
        None
    } else {
        None
    }
}

/// The first member of a PostToolUseHookInput object that fails to read, if any.
pub open spec fn post_tool_use_members_failure(ms: Seq<(Seq<char>, JsonView)>) -> Option<Seq<char>>
    decreases ms.len(),
{
    if ms.len() == 0 {
        None
    } else {
        first_failure(post_tool_use_member_failure(ms[0].0, ms[0].1), post_tool_use_members_failure(ms.drop_first()))
    }
}

/// Why `v` does not read as a PostToolUseHookInput, if it does not: for an object, its
/// first member that fails, else its first missing required field; for an
/// array, its first element that fails or is missing, else its length.
pub open spec fn post_tool_use_input_failure(v: JsonView) -> Option<Seq<char>> {
    match v {
        JsonView::Array(_) => first_failure(i64_failure(v, 0, "timestamp"@, "PostToolUseHookInput"@, 5),
        first_failure(text_failure(v, 1, "cwd"@, "PostToolUseHookInput"@, 5),
        first_failure(text_failure(v, 2, "toolName"@, "PostToolUseHookInput"@, 5),
        first_failure(any_failure(v, 3, "toolArgs"@, "PostToolUseHookInput"@, 5),
        first_failure(any_failure(v, 4, "toolResult"@, "PostToolUseHookInput"@, 5),
        extra_failure(v, 5)))))),
        JsonView::Object(ms) => first_failure(
            post_tool_use_members_failure(ms),
            first_failure(missing_failure(v, "timestamp"@, true),
            first_failure(missing_failure(v, "cwd"@, true),
            first_failure(missing_failure(v, "toolName"@, true),
            first_failure(missing_failure(v, "toolArgs"@, true),
            first_failure(missing_failure(v, "toolResult"@, true),
            None))))),
        ),
        _ => first_failure(missing_failure(v, "timestamp"@, true),
        first_failure(missing_failure(v, "cwd"@, true),
        first_failure(missing_failure(v, "toolName"@, true),
        first_failure(missing_failure(v, "toolArgs"@, true),
        first_failure(missing_failure(v, "toolResult"@, true),
        None))))),
    }
}

/// `x` holds what `v` gives for each field of a PostToolUseHookInput.
pub open spec fn post_tool_use_input_read(x: PostToolUseHookInput, v: JsonView) -> bool {
    &&& i64_slot(v, 0, "timestamp"@) == Some(x.timestamp)
    &&& text_slot(v, 1, "cwd"@) == Some(x.cwd@)
    &&& text_slot(v, 2, "toolName"@) == Some(x.tool_name@)
    &&& slot(v, 3, "toolArgs"@) == Some(x.tool_args@)
    &&& slot(v, 4, "toolResult"@) == Some(x.tool_result@)
}

proof fn post_tool_use_keys_distinct()
    ensures
        "timestamp"@ != "cwd"@,
        "timestamp"@ != "toolName"@,
        "timestamp"@ != "toolArgs"@,
        "timestamp"@ != "toolResult"@,
        "cwd"@ != "toolName"@,
        "cwd"@ != "toolArgs"@,
        "cwd"@ != "toolResult"@,
        "toolName"@ != "toolArgs"@,
        "toolName"@ != "toolResult"@,
        "toolArgs"@ != "toolResult"@,
{
    reveal_strlit("timestamp");
    reveal_strlit("cwd");
    reveal_strlit("toolName");
    reveal_strlit("toolArgs");
    reveal_strlit("toolResult");
    assert("timestamp"@.len() == 9 && "cwd"@.len() == 3);
    assert("timestamp"@.len() == 9 && "toolName"@.len() == 8);
    assert("timestamp"@.len() == 9 && "toolArgs"@.len() == 8);
    assert("timestamp"@.len() == 9 && "toolResult"@.len() == 10);
    assert("cwd"@.len() == 3 && "toolName"@.len() == 8);
    assert("cwd"@.len() == 3 && "toolArgs"@.len() == 8);
    assert("cwd"@.len() == 3 && "toolResult"@.len() == 10);
    assert("toolName"@[4] != "toolArgs"@[4]);
    assert("toolName"@.len() == 8 && "toolResult"@.len() == 10);
    assert("toolArgs"@.len() == 8 && "toolResult"@.len() == 10);
}

proof fn post_tool_use_lemma_members(ms: Seq<(Seq<char>, JsonView)>, key: Seq<char>)
    requires
        post_tool_use_members_failure(ms) is None,
    ensures
        member(ms, key) matches Some(x) ==> post_tool_use_member_failure(key, x) is None,
    decreases ms.len(),
{
    if ms.len() > 0 && ms[0].0 != key {
        post_tool_use_lemma_members(ms.drop_first(), key);
    }
}

fn post_tool_use_member_check(key: &str, x: &JsonValue) -> (r: Option<String>)
    ensures
        opt_detail(r) == post_tool_use_member_failure(key@, x@),
{
    if crate::json::str_eq(key, "timestamp") {
        i64_value_check(x)
    } else if crate::json::str_eq(key, "cwd") {
        text_value_check(x)
    } else if crate::json::str_eq(key, "toolName") {
        text_value_check(x)
    } else if crate::json::str_eq(key, "toolArgs") {
        None
    } else if crate::json::str_eq(key, "toolResult") {
        None
    } else {
        None
    }
}

fn post_tool_use_members_check(m: &Vec<(String, JsonValue)>) -> (r: Option<String>)
    ensures
        opt_detail(r) == post_tool_use_members_failure(members_view(m@)),
{
    let ghost mv = members_view(m@);
    proof {
        crate::json::lemma_members_view(m@);
        assert(mv.skip(0) =~= mv);
    }
    let mut i: usize = 0;
    while i < m.len()
        invariant
            0 <= i <= m.len(),
            mv == members_view(m@),
            mv.len() == m@.len(),
            forall|j: int| 0 <= j < m@.len() ==> #[trigger] mv[j] == (m@[j].0@, m@[j].1@),
            post_tool_use_members_failure(mv) == post_tool_use_members_failure(mv.skip(i as int)),
        decreases m.len() - i,
    {
        proof {
            assert(mv.skip(i as int).drop_first() =~= mv.skip(i + 1));
            assert(mv.skip(i as int)[0] == mv[i as int]);
        }
        match post_tool_use_member_check(m[i].0.as_str(), &m[i].1) {
            Some(d) => return Some(d),
            None => {},
        }
        i = i + 1;
    }
    proof {
        assert(mv.skip(i as int) =~= Seq::<(Seq<char>, JsonView)>::empty());
    }
    None
}

fn post_tool_use_read_fields(v: &JsonValue) -> (r: Result<PostToolUseHookInput, String>)
    requires
        match v@ {
            JsonView::Object(ms) => post_tool_use_members_failure(ms) is None,
            _ => true,
        },
    ensures
        match post_tool_use_input_failure(v@) {
            None => r matches Ok(x) && post_tool_use_input_read(x, v@),
            Some(d) => r matches Err(e) && e@ == d,
        },
{
    proof {
        post_tool_use_keys_distinct();
        if let JsonView::Object(ms) = v@ {
            post_tool_use_lemma_members(ms, "timestamp"@);
            post_tool_use_lemma_members(ms, "cwd"@);
            post_tool_use_lemma_members(ms, "toolName"@);
            post_tool_use_lemma_members(ms, "toolArgs"@);
            post_tool_use_lemma_members(ms, "toolResult"@);
        }
    }
    let timestamp = match read_i64(v, 0, "timestamp", "PostToolUseHookInput", 5) {
        Ok(x) => x,
        Err(d) => return Err(d),
    };
    let cwd = match read_text(v, 1, "cwd", "PostToolUseHookInput", 5) {
        Ok(x) => x,
        Err(d) => return Err(d),
    };
    let tool_name = match read_text(v, 2, "toolName", "PostToolUseHookInput", 5) {
        Ok(x) => x,
        Err(d) => return Err(d),
    };
    let tool_args = match read_any(v, 3, "toolArgs", "PostToolUseHookInput", 5) {
        Ok(x) => x,
        Err(d) => return Err(d),
    };
    let tool_result = match read_any(v, 4, "toolResult", "PostToolUseHookInput", 5) {
        Ok(x) => x,
        Err(d) => return Err(d),
    };
    match check_extra(v, 5) {
        Ok(()) => {},
        Err(d) => return Err(d),
    }
    Ok(PostToolUseHookInput { timestamp, cwd, tool_name, tool_args, tool_result })
}

impl PostToolUseHookInput {
    /// Reads the input from its wire object or array, as `serde_json` reads
    /// it; the error is what `serde_json` reports.
    pub fn from_json(v: &JsonValue) -> (r: Result<Self, String>)
        ensures
            match post_tool_use_input_failure(v@) {
                None => r matches Ok(x) && post_tool_use_input_read(x, v@),
                Some(d) => r matches Err(e) && e@ == d,
            },
    {
        match v {
            JsonValue::Object(m) => match post_tool_use_members_check(m) {
                Some(d) => return Err(d),
                None => {},
            },
            _ => {},
        }
        post_tool_use_read_fields(v)
    }
}

/// Why a member of a UserPromptSubmittedHookInput object fails to read: it names a field and its
/// value does not read as that field.
pub open spec fn user_prompt_submitted_member_failure(key: Seq<char>, x: JsonView) -> Option<Seq<char>> {
    if key == "timestamp"@ {
        i64_value_failure(x)
    } else if key == "cwd"@ {
        text_value_failure(x)
    } else if key == "prompt"@ {
        text_value_failure(x)
    } else {
        None
    }
}

/// The first member of a UserPromptSubmittedHookInput object that fails to read, if any.
pub open spec fn user_prompt_submitted_members_failure(ms: Seq<(Seq<char>, JsonView)>) -> Option<Seq<char>>
    decreases ms.len(),
{
    if ms.len() == 0 {
        None
    } else {
        first_failure(user_prompt_submitted_member_failure(ms[0].0, ms[0].1), user_prompt_submitted_members_failure(ms.drop_first()))
    }
}

/// Why `v` does not read as a UserPromptSubmittedHookInput, if it does not: for an object, its
/// first member that fails, else its first missing required field; for an
/// array, its first element that fails or is missing, else its length.
pub open spec fn user_prompt_submitted_input_failure(v: JsonView) -> Option<Seq<char>> {
    match v {
        JsonView::Array(_) => first_failure(i64_failure(v, 0, "timestamp"@, "UserPromptSubmittedHookInput"@, 3),
        first_failure(text_failure(v, 1, "cwd"@, "UserPromptSubmittedHookInput"@, 3),
        first_failure(text_failure(v, 2, "prompt"@, "UserPromptSubmittedHookInput"@, 3),
        extra_failure(v, 3)))),
        JsonView::Object(ms) => first_failure(
            user_prompt_submitted_members_failure(ms),
            first_failure(missing_failure(v, "timestamp"@, true),
            first_failure(missing_failure(v, "cwd"@, true),
            first_failure(missing_failure(v, "prompt"@, true),
            None))),
        ),
        _ => first_failure(missing_failure(v, "timestamp"@, true),
        first_failure(missing_failure(v, "cwd"@, true),
        first_failure(missing_failure(v, "prompt"@, true),
        None))),
    }
}

/// `x` holds what `v` gives for each field of a UserPromptSubmittedHookInput.
pub open spec fn user_prompt_submitted_input_read(x: UserPromptSubmittedHookInput, v: JsonView) -> bool {
    &&& i64_slot(v, 0, "timestamp"@) == Some(x.timestamp)
    &&& text_slot(v, 1, "cwd"@) == Some(x.cwd@)
    &&& text_slot(v, 2, "prompt"@) == Some(x.prompt@)
}

proof fn user_prompt_submitted_keys_distinct()
    ensures
        "timestamp"@ != "cwd"@,
        "timestamp"@ != "prompt"@,
        "cwd"@ != "prompt"@,
{
    reveal_strlit("timestamp");
    reveal_strlit("cwd");
    reveal_strlit("prompt");
    assert("timestamp"@.len() == 9 && "cwd"@.len() == 3);
    assert("timestamp"@.len() == 9 && "prompt"@.len() == 6);
    assert("cwd"@.len() == 3 && "prompt"@.len() == 6);
}

proof fn user_prompt_submitted_lemma_members(ms: Seq<(Seq<char>, JsonView)>, key: Seq<char>)
    requires
        user_prompt_submitted_members_failure(ms) is None,
    ensures
        member(ms, key) matches Some(x) ==> user_prompt_submitted_member_failure(key, x) is None,
    decreases ms.len(),
{
    if ms.len() > 0 && ms[0].0 != key {
        user_prompt_submitted_lemma_members(ms.drop_first(), key);
    }
}

fn user_prompt_submitted_member_check(key: &str, x: &JsonValue) -> (r: Option<String>)
    ensures
        opt_detail(r) == user_prompt_submitted_member_failure(key@, x@),
{
    if crate::json::str_eq(key, "timestamp") {
        i64_value_check(x)
    } else if crate::json::str_eq(key, "cwd") {
        text_value_check(x)
    } else if crate::json::str_eq(key, "prompt") {
        text_value_check(x)
    } else {
        None
    }
}

fn user_prompt_submitted_members_check(m: &Vec<(String, JsonValue)>) -> (r: Option<String>)
    ensures
        opt_detail(r) == user_prompt_submitted_members_failure(members_view(m@)),
{
    let ghost mv = members_view(m@);
    proof {
        crate::json::lemma_members_view(m@);
        assert(mv.skip(0) =~= mv);
    }
    let mut i: usize = 0;
    while i < m.len()
        invariant
            0 <= i <= m.len(),
            mv == members_view(m@),
            mv.len() == m@.len(),
            forall|j: int| 0 <= j < m@.len() ==> #[trigger] mv[j] == (m@[j].0@, m@[j].1@),
            user_prompt_submitted_members_failure(mv) == user_prompt_submitted_members_failure(mv.skip(i as int)),
        decreases m.len() - i,
    {
        proof {
            assert(mv.skip(i as int).drop_first() =~= mv.skip(i + 1));
            assert(mv.skip(i as int)[0] == mv[i as int]);
        }
        match user_prompt_submitted_member_check(m[i].0.as_str(), &m[i].1) {
            Some(d) => return Some(d),
            None => {},
        }
        i = i + 1;
    }
    proof {
        assert(mv.skip(i as int) =~= Seq::<(Seq<char>, JsonView)>::empty());
    }
    None
}

fn user_prompt_submitted_read_fields(v: &JsonValue) -> (r: Result<UserPromptSubmittedHookInput, String>)
    requires
        match v@ {
            JsonView::Object(ms) => user_prompt_submitted_members_failure(ms) is None,
            _ => true,
        },
    ensures
        match user_prompt_submitted_input_failure(v@) {
            None => r matches Ok(x) && user_prompt_submitted_input_read(x, v@),
            Some(d) => r matches Err(e) && e@ == d,
        },
{
    proof {
        user_prompt_submitted_keys_distinct();
        if let JsonView::Object(ms) = v@ {
            user_prompt_submitted_lemma_members(ms, "timestamp"@);
            user_prompt_submitted_lemma_members(ms, "cwd"@);
            user_prompt_submitted_lemma_members(ms, "prompt"@);
        }
    }
    let timestamp = match read_i64(v, 0, "timestamp", "UserPromptSubmittedHookInput", 3) {
        Ok(x) => x,
        Err(d) => return Err(d),
    };
    let cwd = match read_text(v, 1, "cwd", "UserPromptSubmittedHookInput", 3) {
        Ok(x) => x,
        Err(d) => return Err(d),
    };
    let prompt = match read_text(v, 2, "prompt", "UserPromptSubmittedHookInput", 3) {
        Ok(x) => x,
        Err(d) => return Err(d),
    };
    match check_extra(v, 3) {
        Ok(()) => {},
        Err(d) => return Err(d),
    }
    Ok(UserPromptSubmittedHookInput { timestamp, cwd, prompt })
}

impl UserPromptSubmittedHookInput {
    /// Reads the input from its wire object or array, as `serde_json` reads
    /// it; the error is what `serde_json` reports.
    pub fn from_json(v: &JsonValue) -> (r: Result<Self, String>)
        ensures
            match user_prompt_submitted_input_failure(v@) {
                None => r matches Ok(x) && user_prompt_submitted_input_read(x, v@),
                Some(d) => r matches Err(e) && e@ == d,
            },
    {
        match v {
            JsonValue::Object(m) => match user_prompt_submitted_members_check(m) {
                Some(d) => return Err(d),
                None => {},
            },
            _ => {},
        }
        user_prompt_submitted_read_fields(v)
    }
}

/// Why a member of a SessionStartHookInput object fails to read: it names a field and its
/// value does not read as that field.
pub open spec fn session_start_member_failure(key: Seq<char>, x: JsonView) -> Option<Seq<char>> {
    if key == "timestamp"@ {
        i64_value_failure(x)
    } else if key == "cwd"@ {
        text_value_failure(x)
    } else if key == "source"@ {
        text_value_failure(x)
    } else if key == "initialPrompt"@ {
        opt_text_value_failure(x)
    } else {
        None
    }
}

/// The first member of a SessionStartHookInput object that fails to read, if any.
pub open spec fn session_start_members_failure(ms: Seq<(Seq<char>, JsonView)>) -> Option<Seq<char>>
    decreases ms.len(),
{
    if ms.len() == 0 {
        None
    } else {
        first_failure(session_start_member_failure(ms[0].0, ms[0].1), session_start_members_failure(ms.drop_first()))
    }
}

/// Why `v` does not read as a SessionStartHookInput, if it does not: for an object, its
/// first member that fails, else its first missing required field; for an
/// array, its first element that fails or is missing, else its length.
pub open spec fn session_start_input_failure(v: JsonView) -> Option<Seq<char>> {
    match v {
        JsonView::Array(_) => first_failure(i64_failure(v, 0, "timestamp"@, "SessionStartHookInput"@, 4),
        first_failure(text_failure(v, 1, "cwd"@, "SessionStartHookInput"@, 4),
        first_failure(text_failure(v, 2, "source"@, "SessionStartHookInput"@, 4),
        first_failure(opt_text_failure(v, 3, "initialPrompt"@, "SessionStartHookInput"@, 4),
        extra_failure(v, 4))))),
        JsonView::Object(ms) => first_failure(
            session_start_members_failure(ms),
            first_failure(missing_failure(v, "timestamp"@, true),
            first_failure(missing_failure(v, "cwd"@, true),
            first_failure(missing_failure(v, "source"@, true),
            first_failure(missing_failure(v, "initialPrompt"@, false),
            None)))),
        ),
        _ => first_failure(missing_failure(v, "timestamp"@, true),
        first_failure(missing_failure(v, "cwd"@, true),
        first_failure(missing_failure(v, "source"@, true),
        first_failure(missing_failure(v, "initialPrompt"@, false),
        None)))),
    }
}

/// `x` holds what `v` gives for each field of a SessionStartHookInput.
pub open spec fn session_start_input_read(x: SessionStartHookInput, v: JsonView) -> bool {
    &&& i64_slot(v, 0, "timestamp"@) == Some(x.timestamp)
    &&& text_slot(v, 1, "cwd"@) == Some(x.cwd@)
    &&& text_slot(v, 2, "source"@) == Some(x.source@)
    &&& text_slot(v, 3, "initialPrompt"@) == opt_text(x.initial_prompt)
}

proof fn session_start_keys_distinct()
    ensures
        "timestamp"@ != "cwd"@,
        "timestamp"@ != "source"@,
        "timestamp"@ != "initialPrompt"@,
        "cwd"@ != "source"@,
        "cwd"@ != "initialPrompt"@,
        "source"@ != "initialPrompt"@,
{
    reveal_strlit("timestamp");
    reveal_strlit("cwd");
    reveal_strlit("source");
    reveal_strlit("initialPrompt");
    assert("timestamp"@.len() == 9 && "cwd"@.len() == 3);
    assert("timestamp"@.len() == 9 && "source"@.len() == 6);
    assert("timestamp"@.len() == 9 && "initialPrompt"@.len() == 13);
    assert("cwd"@.len() == 3 && "source"@.len() == 6);
    assert("cwd"@.len() == 3 && "initialPrompt"@.len() == 13);
    assert("source"@.len() == 6 && "initialPrompt"@.len() == 13);
}

proof fn session_start_lemma_members(ms: Seq<(Seq<char>, JsonView)>, key: Seq<char>)
    requires
        session_start_members_failure(ms) is None,
    ensures
        member(ms, key) matches Some(x) ==> session_start_member_failure(key, x) is None,
    decreases ms.len(),
{
    if ms.len() > 0 && ms[0].0 != key {
        session_start_lemma_members(ms.drop_first(), key);
    }
}

fn session_start_member_check(key: &str, x: &JsonValue) -> (r: Option<String>)
    ensures
        opt_detail(r) == session_start_member_failure(key@, x@),
{
    if crate::json::str_eq(key, "timestamp") {
        i64_value_check(x)
    } else if crate::json::str_eq(key, "cwd") {
        text_value_check(x)
    } else if crate::json::str_eq(key, "source") {
        text_value_check(x)
    } else if crate::json::str_eq(key, "initialPrompt") {
        opt_text_value_check(x)
    } else {
        None
    }
}

fn session_start_members_check(m: &Vec<(String, JsonValue)>) -> (r: Option<String>)
    ensures
        opt_detail(r) == session_start_members_failure(members_view(m@)),
{
    let ghost mv = members_view(m@);
    proof {
        crate::json::lemma_members_view(m@);
        assert(mv.skip(0) =~= mv);
    }
    let mut i: usize = 0;
    while i < m.len()
        invariant
            0 <= i <= m.len(),
            mv == members_view(m@),
            mv.len() == m@.len(),
            forall|j: int| 0 <= j < m@.len() ==> #[trigger] mv[j] == (m@[j].0@, m@[j].1@),
            session_start_members_failure(mv) == session_start_members_failure(mv.skip(i as int)),
        decreases m.len() - i,
    {
        proof {
            assert(mv.skip(i as int).drop_first() =~= mv.skip(i + 1));
            assert(mv.skip(i as int)[0] == mv[i as int]);
        }
        match session_start_member_check(m[i].0.as_str(), &m[i].1) {
            Some(d) => return Some(d),
            None => {},
        }
        i = i + 1;
    }
    proof {
        assert(mv.skip(i as int) =~= Seq::<(Seq<char>, JsonView)>::empty());
    }
    None
}

fn session_start_read_fields(v: &JsonValue) -> (r: Result<SessionStartHookInput, String>)
    requires
        match v@ {
            JsonView::Object(ms) => session_start_members_failure(ms) is None,
            _ => true,
        },
    ensures
        match session_start_input_failure(v@) {
            None => r matches Ok(x) && session_start_input_read(x, v@),
            Some(d) => r matches Err(e) && e@ == d,
        },
{
    proof {
        session_start_keys_distinct();
        if let JsonView::Object(ms) = v@ {
            session_start_lemma_members(ms, "timestamp"@);
            session_start_lemma_members(ms, "cwd"@);
            session_start_lemma_members(ms, "source"@);
            session_start_lemma_members(ms, "initialPrompt"@);
        }
    }
    let timestamp = match read_i64(v, 0, "timestamp", "SessionStartHookInput", 4) {
        Ok(x) => x,
        Err(d) => return Err(d),
    };
    let cwd = match read_text(v, 1, "cwd", "SessionStartHookInput", 4) {
        Ok(x) => x,
        Err(d) => return Err(d),
    };
    let source = match read_text(v, 2, "source", "SessionStartHookInput", 4) {
        Ok(x) => x,
        Err(d) => return Err(d),
    };
    let initial_prompt = match read_opt_text(v, 3, "initialPrompt", "SessionStartHookInput", 4) {
        Ok(x) => x,
        Err(d) => return Err(d),
    };
    match check_extra(v, 4) {
        Ok(()) => {},
        Err(d) => return Err(d),
    }
    Ok(SessionStartHookInput { timestamp, cwd, source, initial_prompt })
}

impl SessionStartHookInput {
    /// Reads the input from its wire object or array, as `serde_json` reads
    /// it; the error is what `serde_json` reports.
    pub fn from_json(v: &JsonValue) -> (r: Result<Self, String>)
        ensures
            match session_start_input_failure(v@) {
                None => r matches Ok(x) && session_start_input_read(x, v@),
                Some(d) => r matches Err(e) && e@ == d,
            },
    {
        match v {
            JsonValue::Object(m) => match session_start_members_check(m) {
                Some(d) => return Err(d),
                None => {},
            },
            _ => {},
        }
        session_start_read_fields(v)
    }
}

/// Why a member of a SessionEndHookInput object fails to read: it names a field and its
/// value does not read as that field.
pub open spec fn session_end_member_failure(key: Seq<char>, x: JsonView) -> Option<Seq<char>> {
    if key == "timestamp"@ {
        i64_value_failure(x)
    } else if key == "cwd"@ {
        text_value_failure(x)
    } else if key == "reason"@ {
        text_value_failure(x)
    } else if key == "finalMessage"@ {
        opt_text_value_failure(x)
    } else if key == "error"@ {
        opt_text_value_failure(x)
    } else {
        None
    }
}

/// The first member of a SessionEndHookInput object that fails to read, if any.
pub open spec fn session_end_members_failure(ms: Seq<(Seq<char>, JsonView)>) -> Option<Seq<char>>
    decreases ms.len(),
{
    if ms.len() == 0 {
        None
    } else {
        first_failure(session_end_member_failure(ms[0].0, ms[0].1), session_end_members_failure(ms.drop_first()))
    }
}

/// Why `v` does not read as a SessionEndHookInput, if it does not: for an object, its
/// first member that fails, else its first missing required field; for an
/// array, its first element that fails or is missing, else its length.
pub open spec fn session_end_input_failure(v: JsonView) -> Option<Seq<char>> {
    match v {
        JsonView::Array(_) => first_failure(i64_failure(v, 0, "timestamp"@, "SessionEndHookInput"@, 5),
        first_failure(text_failure(v, 1, "cwd"@, "SessionEndHookInput"@, 5),
        first_failure(text_failure(v, 2, "reason"@, "SessionEndHookInput"@, 5),
        first_failure(opt_text_failure(v, 3, "finalMessage"@, "SessionEndHookInput"@, 5),
        first_failure(opt_text_failure(v, 4, "error"@, "SessionEndHookInput"@, 5),
        extra_failure(v, 5)))))),
        JsonView::Object(ms) => first_failure(
            session_end_members_failure(ms),
            first_failure(missing_failure(v, "timestamp"@, true),
            first_failure(missing_failure(v, "cwd"@, true),
            first_failure(missing_failure(v, "reason"@, true),
            first_failure(missing_failure(v, "finalMessage"@, false),
            first_failure(missing_failure(v, "error"@, false),
            None))))),
        ),
        _ => first_failure(missing_failure(v, "timestamp"@, true),
        first_failure(missing_failure(v, "cwd"@, true),
        first_failure(missing_failure(v, "reason"@, true),
        first_failure(missing_failure(v, "finalMessage"@, false),
        first_failure(missing_failure(v, "error"@, false),
        None))))),
    }
}

/// `x` holds what `v` gives for each field of a SessionEndHookInput.
pub open spec fn session_end_input_read(x: SessionEndHookInput, v: JsonView) -> bool {
    &&& i64_slot(v, 0, "timestamp"@) == Some(x.timestamp)
    &&& text_slot(v, 1, "cwd"@) == Some(x.cwd@)
    &&& text_slot(v, 2, "reason"@) == Some(x.reason@)
    &&& text_slot(v, 3, "finalMessage"@) == opt_text(x.final_message)
    &&& text_slot(v, 4, "error"@) == opt_text(x.error)
}

proof fn session_end_keys_distinct()
    ensures
        "timestamp"@ != "cwd"@,
        "timestamp"@ != "reason"@,
        "timestamp"@ != "finalMessage"@,
        "timestamp"@ != "error"@,
        "cwd"@ != "reason"@,
        "cwd"@ != "finalMessage"@,
        "cwd"@ != "error"@,
        "reason"@ != "finalMessage"@,
        "reason"@ != "error"@,
        "finalMessage"@ != "error"@,
{
    reveal_strlit("timestamp");
    reveal_strlit("cwd");
    reveal_strlit("reason");
    reveal_strlit("finalMessage");
    reveal_strlit("error");
    assert("timestamp"@.len() == 9 && "cwd"@.len() == 3);
    assert("timestamp"@.len() == 9 && "reason"@.len() == 6);
    assert("timestamp"@.len() == 9 && "finalMessage"@.len() == 12);
    assert("timestamp"@.len() == 9 && "error"@.len() == 5);
    assert("cwd"@.len() == 3 && "reason"@.len() == 6);
    assert("cwd"@.len() == 3 && "finalMessage"@.len() == 12);
    assert("cwd"@.len() == 3 && "error"@.len() == 5);
    assert("reason"@.len() == 6 && "finalMessage"@.len() == 12);
    assert("reason"@.len() == 6 && "error"@.len() == 5);
    assert("finalMessage"@.len() == 12 && "error"@.len() == 5);
}

proof fn session_end_lemma_members(ms: Seq<(Seq<char>, JsonView)>, key: Seq<char>)
    requires
        session_end_members_failure(ms) is None,
    ensures
        member(ms, key) matches Some(x) ==> session_end_member_failure(key, x) is None,
    decreases ms.len(),
{
    if ms.len() > 0 && ms[0].0 != key {
        session_end_lemma_members(ms.drop_first(), key);
    }
}

fn session_end_member_check(key: &str, x: &JsonValue) -> (r: Option<String>)
    ensures
        opt_detail(r) == session_end_member_failure(key@, x@),
{
    if crate::json::str_eq(key, "timestamp") {
        i64_value_check(x)
    } else if crate::json::str_eq(key, "cwd") {
        text_value_check(x)
    } else if crate::json::str_eq(key, "reason") {
        text_value_check(x)
    } else if crate::json::str_eq(key, "finalMessage") {
        opt_text_value_check(x)
    } else if crate::json::str_eq(key, "error") {
        opt_text_value_check(x)
    } else {
        None
    }
}

fn session_end_members_check(m: &Vec<(String, JsonValue)>) -> (r: Option<String>)
    ensures
        opt_detail(r) == session_end_members_failure(members_view(m@)),
{
    let ghost mv = members_view(m@);
    proof {
        crate::json::lemma_members_view(m@);
        assert(mv.skip(0) =~= mv);
    }
    let mut i: usize = 0;
    while i < m.len()
        invariant
            0 <= i <= m.len(),
            mv == members_view(m@),
            mv.len() == m@.len(),
            forall|j: int| 0 <= j < m@.len() ==> #[trigger] mv[j] == (m@[j].0@, m@[j].1@),
            session_end_members_failure(mv) == session_end_members_failure(mv.skip(i as int)),
        decreases m.len() - i,
    {
        proof {
            assert(mv.skip(i as int).drop_first() =~= mv.skip(i + 1));
            assert(mv.skip(i as int)[0] == mv[i as int]);
        }
        match session_end_member_check(m[i].0.as_str(), &m[i].1) {
            Some(d) => return Some(d),
            None => {},
        }
        i = i + 1;
    }
    proof {
        assert(mv.skip(i as int) =~= Seq::<(Seq<char>, JsonView)>::empty());
    }
    None
}

fn session_end_read_fields(v: &JsonValue) -> (r: Result<SessionEndHookInput, String>)
    requires
        match v@ {
            JsonView::Object(ms) => session_end_members_failure(ms) is None,
            _ => true,
        },
    ensures
        match session_end_input_failure(v@) {
            None => r matches Ok(x) && session_end_input_read(x, v@),
            Some(d) => r matches Err(e) && e@ == d,
        },
{
    proof {
        session_end_keys_distinct();
        if let JsonView::Object(ms) = v@ {
            session_end_lemma_members(ms, "timestamp"@);
            session_end_lemma_members(ms, "cwd"@);
            session_end_lemma_members(ms, "reason"@);
            session_end_lemma_members(ms, "finalMessage"@);
            session_end_lemma_members(ms, "error"@);
        }
    }
    let timestamp = match read_i64(v, 0, "timestamp", "SessionEndHookInput", 5) {
        Ok(x) => x,
        Err(d) => return Err(d),
    };
    let cwd = match read_text(v, 1, "cwd", "SessionEndHookInput", 5) {
        Ok(x) => x,
        Err(d) => return Err(d),
    };
    let reason = match read_text(v, 2, "reason", "SessionEndHookInput", 5) {
        Ok(x) => x,
        Err(d) => return Err(d),
    };
    let final_message = match read_opt_text(v, 3, "finalMessage", "SessionEndHookInput", 5) {
        Ok(x) => x,
        Err(d) => return Err(d),
    };
    let error = match read_opt_text(v, 4, "error", "SessionEndHookInput", 5) {
        Ok(x) => x,
        Err(d) => return Err(d),
    };
    match check_extra(v, 5) {
        Ok(()) => {},
        Err(d) => return Err(d),
    }
    Ok(SessionEndHookInput { timestamp, cwd, reason, final_message, error })
}

impl SessionEndHookInput {
    /// Reads the input from its wire object or array, as `serde_json` reads
    /// it; the error is what `serde_json` reports.
    pub fn from_json(v: &JsonValue) -> (r: Result<Self, String>)
        ensures
            match session_end_input_failure(v@) {
                None => r matches Ok(x) && session_end_input_read(x, v@),
                Some(d) => r matches Err(e) && e@ == d,
            },
    {
        match v {
            JsonValue::Object(m) => match session_end_members_check(m) {
                Some(d) => return Err(d),
                None => {},
            },
            _ => {},
        }
        session_end_read_fields(v)
    }
}

/// Why a member of a ErrorOccurredHookInput object fails to read: it names a field and its
/// value does not read as that field.
pub open spec fn error_occurred_member_failure(key: Seq<char>, x: JsonView) -> Option<Seq<char>> {
    if key == "timestamp"@ {
        i64_value_failure(x)
    } else if key == "cwd"@ {
        text_value_failure(x)
    } else if key == "error"@ {
        text_value_failure(x)
    } else if key == "errorContext"@ {
        text_value_failure(x)
    } else if key == "recoverable"@ {
        bool_value_failure(x)
    } else {
        None
    }
}

/// The first member of a ErrorOccurredHookInput object that fails to read, if any.
pub open spec fn error_occurred_members_failure(ms: Seq<(Seq<char>, JsonView)>) -> Option<Seq<char>>
    decreases ms.len(),
{
    if ms.len() == 0 {
        None
    } else {
        first_failure(error_occurred_member_failure(ms[0].0, ms[0].1), error_occurred_members_failure(ms.drop_first()))
    }
}

/// Why `v` does not read as a ErrorOccurredHookInput, if it does not: for an object, its
/// first member that fails, else its first missing required field; for an
/// array, its first element that fails or is missing, else its length.
pub open spec fn error_occurred_input_failure(v: JsonView) -> Option<Seq<char>> {
    match v {
        JsonView::Array(_) => first_failure(i64_failure(v, 0, "timestamp"@, "ErrorOccurredHookInput"@, 5),
        first_failure(text_failure(v, 1, "cwd"@, "ErrorOccurredHookInput"@, 5),
        first_failure(text_failure(v, 2, "error"@, "ErrorOccurredHookInput"@, 5),
        first_failure(text_failure(v, 3, "errorContext"@, "ErrorOccurredHookInput"@, 5),
        first_failure(bool_failure(v, 4, "recoverable"@, "ErrorOccurredHookInput"@, 5),
        extra_failure(v, 5)))))),
        JsonView::Object(ms) => first_failure(
            error_occurred_members_failure(ms),
            first_failure(missing_failure(v, "timestamp"@, true),
            first_failure(missing_failure(v, "cwd"@, true),
            first_failure(missing_failure(v, "error"@, true),
            first_failure(missing_failure(v, "errorContext"@, true),
            first_failure(missing_failure(v, "recoverable"@, true),
            None))))),
        ),
        _ => first_failure(missing_failure(v, "timestamp"@, true),
        first_failure(missing_failure(v, "cwd"@, true),
        first_failure(missing_failure(v, "error"@, true),
        first_failure(missing_failure(v, "errorContext"@, true),
        first_failure(missing_failure(v, "recoverable"@, true),
        None))))),
    }
}

/// `x` holds what `v` gives for each field of a ErrorOccurredHookInput.
pub open spec fn error_occurred_input_read(x: ErrorOccurredHookInput, v: JsonView) -> bool {
    &&& i64_slot(v, 0, "timestamp"@) == Some(x.timestamp)
    &&& text_slot(v, 1, "cwd"@) == Some(x.cwd@)
    &&& text_slot(v, 2, "error"@) == Some(x.error@)
    &&& text_slot(v, 3, "errorContext"@) == Some(x.error_context@)
    &&& bool_slot(v, 4, "recoverable"@) == Some(x.recoverable)
}

proof fn error_occurred_keys_distinct()
    ensures
        "timestamp"@ != "cwd"@,
        "timestamp"@ != "error"@,
        "timestamp"@ != "errorContext"@,
        "timestamp"@ != "recoverable"@,
        "cwd"@ != "error"@,
        "cwd"@ != "errorContext"@,
        "cwd"@ != "recoverable"@,
        "error"@ != "errorContext"@,
        "error"@ != "recoverable"@,
        "errorContext"@ != "recoverable"@,
{
    reveal_strlit("timestamp");
    reveal_strlit("cwd");
    reveal_strlit("error");
    reveal_strlit("errorContext");
    reveal_strlit("recoverable");
    assert("timestamp"@.len() == 9 && "cwd"@.len() == 3);
    assert("timestamp"@.len() == 9 && "error"@.len() == 5);
    assert("timestamp"@.len() == 9 && "errorContext"@.len() == 12);
    assert("timestamp"@.len() == 9 && "recoverable"@.len() == 11);
    assert("cwd"@.len() == 3 && "error"@.len() == 5);
    assert("cwd"@.len() == 3 && "errorContext"@.len() == 12);
    assert("cwd"@.len() == 3 && "recoverable"@.len() == 11);
    assert("error"@.len() == 5 && "errorContext"@.len() == 12);
    assert("error"@.len() == 5 && "recoverable"@.len() == 11);
    assert("errorContext"@.len() == 12 && "recoverable"@.len() == 11);
}

proof fn error_occurred_lemma_members(ms: Seq<(Seq<char>, JsonView)>, key: Seq<char>)
    requires
        error_occurred_members_failure(ms) is None,
    ensures
        member(ms, key) matches Some(x) ==> error_occurred_member_failure(key, x) is None,
    decreases ms.len(),
{
    if ms.len() > 0 && ms[0].0 != key {
        error_occurred_lemma_members(ms.drop_first(), key);
    }
}

fn error_occurred_member_check(key: &str, x: &JsonValue) -> (r: Option<String>)
    ensures
        opt_detail(r) == error_occurred_member_failure(key@, x@),
{
    if crate::json::str_eq(key, "timestamp") {
        i64_value_check(x)
    } else if crate::json::str_eq(key, "cwd") {
        text_value_check(x)
    } else if crate::json::str_eq(key, "error") {
        text_value_check(x)
    } else if crate::json::str_eq(key, "errorContext") {
        text_value_check(x)
    } else if crate::json::str_eq(key, "recoverable") {
        bool_value_check(x)
    } else {
        None
    }
}

fn error_occurred_members_check(m: &Vec<(String, JsonValue)>) -> (r: Option<String>)
    ensures
        opt_detail(r) == error_occurred_members_failure(members_view(m@)),
{
    let ghost mv = members_view(m@);
    proof {
        crate::json::lemma_members_view(m@);
        assert(mv.skip(0) =~= mv);
    }
    let mut i: usize = 0;
    while i < m.len()
        invariant
            0 <= i <= m.len(),
            mv == members_view(m@),
            mv.len() == m@.len(),
            forall|j: int| 0 <= j < m@.len() ==> #[trigger] mv[j] == (m@[j].0@, m@[j].1@),
            error_occurred_members_failure(mv) == error_occurred_members_failure(mv.skip(i as int)),
        decreases m.len() - i,
    {
        proof {
            assert(mv.skip(i as int).drop_first() =~= mv.skip(i + 1));
            assert(mv.skip(i as int)[0] == mv[i as int]);
        }
        match error_occurred_member_check(m[i].0.as_str(), &m[i].1) {
            Some(d) => return Some(d),
            None => {},
        }
        i = i + 1;
    }
    proof {
        assert(mv.skip(i as int) =~= Seq::<(Seq<char>, JsonView)>::empty());
    }
    None
}

fn error_occurred_read_fields(v: &JsonValue) -> (r: Result<ErrorOccurredHookInput, String>)
    requires
        match v@ {
            JsonView::Object(ms) => error_occurred_members_failure(ms) is None,
            _ => true,
        },
    ensures
        match error_occurred_input_failure(v@) {
            None => r matches Ok(x) && error_occurred_input_read(x, v@),
            Some(d) => r matches Err(e) && e@ == d,
        },
{
    proof {
        error_occurred_keys_distinct();
        if let JsonView::Object(ms) = v@ {
            error_occurred_lemma_members(ms, "timestamp"@);
            error_occurred_lemma_members(ms, "cwd"@);
            error_occurred_lemma_members(ms, "error"@);
            error_occurred_lemma_members(ms, "errorContext"@);
            error_occurred_lemma_members(ms, "recoverable"@);
        }
    }
    let timestamp = match read_i64(v, 0, "timestamp", "ErrorOccurredHookInput", 5) {
        Ok(x) => x,
        Err(d) => return Err(d),
    };
    let cwd = match read_text(v, 1, "cwd", "ErrorOccurredHookInput", 5) {
        Ok(x) => x,
        Err(d) => return Err(d),
    };
    let error = match read_text(v, 2, "error", "ErrorOccurredHookInput", 5) {
        Ok(x) => x,
        Err(d) => return Err(d),
    };
    let error_context = match read_text(v, 3, "errorContext", "ErrorOccurredHookInput", 5) {
        Ok(x) => x,
        Err(d) => return Err(d),
    };
    let recoverable = match read_bool(v, 4, "recoverable", "ErrorOccurredHookInput", 5) {
        Ok(x) => x,
        Err(d) => return Err(d),
    };
    match check_extra(v, 5) {
        Ok(()) => {},
        Err(d) => return Err(d),
    }
    Ok(ErrorOccurredHookInput { timestamp, cwd, error, error_context, recoverable })
}

impl ErrorOccurredHookInput {
    /// Reads the input from its wire object or array, as `serde_json` reads
    /// it; the error is what `serde_json` reports.
    pub fn from_json(v: &JsonValue) -> (r: Result<Self, String>)
        ensures
            match error_occurred_input_failure(v@) {
                None => r matches Ok(x) && error_occurred_input_read(x, v@),
                Some(d) => r matches Err(e) && e@ == d,
            },
    {
        match v {
            JsonValue::Object(m) => match error_occurred_members_check(m) {
                Some(d) => return Err(d),
                None => {},
            },
            _ => {},
        }
        error_occurred_read_fields(v)
    }
}

/// The wire object of a PreToolUseHookOutput: each set field under its camelCase name.
pub open spec fn pre_tool_use_output_wire(o: PreToolUseHookOutput) -> JsonView {
    let p = opt_set(empty_object(), "permissionDecision"@, opt_text_json(o.permission_decision));
    let p = opt_set(p, "permissionDecisionReason"@, opt_text_json(o.permission_decision_reason));
    let p = opt_set(p, "modifiedArgs"@, crate::json::opt_json_view(o.modified_args));
    let p = opt_set(p, "additionalContext"@, opt_text_json(o.additional_context));
    opt_set(p, "suppressOutput"@, opt_bool_json(o.suppress_output))
}

impl PreToolUseHookOutput {
    /// The output's wire object.
    pub fn to_json(&self) -> (r: JsonValue)
        ensures
            r@ == pre_tool_use_output_wire(*self),
    {
        let mut p = JsonValue::object();
        set_opt_text(&mut p, "permissionDecision", &self.permission_decision);
        set_opt_text(&mut p, "permissionDecisionReason", &self.permission_decision_reason);
        set_opt_json(&mut p, "modifiedArgs", &self.modified_args);
        set_opt_text(&mut p, "additionalContext", &self.additional_context);
        set_opt_bool(&mut p, "suppressOutput", self.suppress_output);
        p
    }
}

/// The wire object of a PostToolUseHookOutput: each set field under its camelCase name.
pub open spec fn post_tool_use_output_wire(o: PostToolUseHookOutput) -> JsonView {
    let p = opt_set(empty_object(), "modifiedResult"@, crate::json::opt_json_view(o.modified_result));
    let p = opt_set(p, "additionalContext"@, opt_text_json(o.additional_context));
    opt_set(p, "suppressOutput"@, opt_bool_json(o.suppress_output))
}

impl PostToolUseHookOutput {
    /// The output's wire object.
    pub fn to_json(&self) -> (r: JsonValue)
        ensures
            r@ == post_tool_use_output_wire(*self),
    {
        let mut p = JsonValue::object();
        set_opt_json(&mut p, "modifiedResult", &self.modified_result);
        set_opt_text(&mut p, "additionalContext", &self.additional_context);
        set_opt_bool(&mut p, "suppressOutput", self.suppress_output);
        p
    }
}

/// The wire object of a UserPromptSubmittedHookOutput: each set field under its camelCase name.
pub open spec fn user_prompt_submitted_output_wire(o: UserPromptSubmittedHookOutput) -> JsonView {
    let p = opt_set(empty_object(), "modifiedPrompt"@, opt_text_json(o.modified_prompt));
    let p = opt_set(p, "additionalContext"@, opt_text_json(o.additional_context));
    opt_set(p, "suppressOutput"@, opt_bool_json(o.suppress_output))
}

impl UserPromptSubmittedHookOutput {
    /// The output's wire object.
    pub fn to_json(&self) -> (r: JsonValue)
        ensures
            r@ == user_prompt_submitted_output_wire(*self),
    {
        let mut p = JsonValue::object();
        set_opt_text(&mut p, "modifiedPrompt", &self.modified_prompt);
        set_opt_text(&mut p, "additionalContext", &self.additional_context);
        set_opt_bool(&mut p, "suppressOutput", self.suppress_output);
        p
    }
}

/// The wire object of a SessionStartHookOutput: each set field under its camelCase name.
pub open spec fn session_start_output_wire(o: SessionStartHookOutput) -> JsonView {
    let p = opt_set(empty_object(), "additionalContext"@, opt_text_json(o.additional_context));
    opt_set(p, "modifiedConfig"@, crate::json::opt_json_view(o.modified_config))
}

impl SessionStartHookOutput {
    /// The output's wire object.
    pub fn to_json(&self) -> (r: JsonValue)
        ensures
            r@ == session_start_output_wire(*self),
    {
        let mut p = JsonValue::object();
        set_opt_text(&mut p, "additionalContext", &self.additional_context);
        set_opt_json(&mut p, "modifiedConfig", &self.modified_config);
        p
    }
}

/// The wire object of a SessionEndHookOutput: each set field under its camelCase name.
pub open spec fn session_end_output_wire(o: SessionEndHookOutput) -> JsonView {
    let p = opt_set(empty_object(), "suppressOutput"@, opt_bool_json(o.suppress_output));
    let p = opt_set(p, "cleanupActions"@, opt_texts_json(o.cleanup_actions));
    opt_set(p, "sessionSummary"@, opt_text_json(o.session_summary))
}

impl SessionEndHookOutput {
    /// The output's wire object.
    pub fn to_json(&self) -> (r: JsonValue)
        ensures
            r@ == session_end_output_wire(*self),
    {
        let mut p = JsonValue::object();
        set_opt_bool(&mut p, "suppressOutput", self.suppress_output);
        set_opt_texts(&mut p, "cleanupActions", &self.cleanup_actions);
        set_opt_text(&mut p, "sessionSummary", &self.session_summary);
        p
    }
}

/// The wire object of a ErrorOccurredHookOutput: each set field under its camelCase name.
pub open spec fn error_occurred_output_wire(o: ErrorOccurredHookOutput) -> JsonView {
    let p = opt_set(empty_object(), "suppressOutput"@, opt_bool_json(o.suppress_output));
    let p = opt_set(p, "errorHandling"@, opt_text_json(o.error_handling));
    let p = opt_set(p, "retryCount"@, opt_i32_json(o.retry_count));
    opt_set(p, "userNotification"@, opt_text_json(o.user_notification))
}

impl ErrorOccurredHookOutput {
    /// The output's wire object.
    pub fn to_json(&self) -> (r: JsonValue)
        ensures
            r@ == error_occurred_output_wire(*self),
    {
        let mut p = JsonValue::object();
        set_opt_bool(&mut p, "suppressOutput", self.suppress_output);
        set_opt_text(&mut p, "errorHandling", &self.error_handling);
        set_opt_i32(&mut p, "retryCount", self.retry_count);
        set_opt_text(&mut p, "userNotification", &self.user_notification);
        p
    }
}

/// The input of one hook, of the type its kind reads.
#[derive(Debug)]
pub enum HookInput {
    PreToolUse(PreToolUseHookInput),
    PostToolUse(PostToolUseHookInput),
    UserPromptSubmitted(UserPromptSubmittedHookInput),
    SessionStart(SessionStartHookInput),
    SessionEnd(SessionEndHookInput),
    ErrorOccurred(ErrorOccurredHookInput),
}

/// The kind of hook an input is for.
pub open spec fn hook_input_kind(h: HookInput) -> HookKind {
    match h {
        HookInput::PreToolUse(_) => HookKind::PreToolUse,
        HookInput::PostToolUse(_) => HookKind::PostToolUse,
        HookInput::UserPromptSubmitted(_) => HookKind::UserPromptSubmitted,
        HookInput::SessionStart(_) => HookKind::SessionStart,
        HookInput::SessionEnd(_) => HookKind::SessionEnd,
        HookInput::ErrorOccurred(_) => HookKind::ErrorOccurred,
    }
}

/// `h` holds what `v` gives for each field of its type.
pub open spec fn hook_input_read(h: HookInput, v: JsonView) -> bool {
    match h {
        HookInput::PreToolUse(x) => pre_tool_use_input_read(x, v),
        HookInput::PostToolUse(x) => post_tool_use_input_read(x, v),
        HookInput::UserPromptSubmitted(x) => user_prompt_submitted_input_read(x, v),
        HookInput::SessionStart(x) => session_start_input_read(x, v),
        HookInput::SessionEnd(x) => session_end_input_read(x, v),
        HookInput::ErrorOccurred(x) => error_occurred_input_read(x, v),
    }
}

/// The first field of the input type of hooks of kind `k` that `v` does not
/// give, if any.
pub open spec fn hook_input_failure(k: HookKind, v: JsonView) -> Option<Seq<char>> {
    match k {
        HookKind::PreToolUse => pre_tool_use_input_failure(v),
        HookKind::PostToolUse => post_tool_use_input_failure(v),
        HookKind::UserPromptSubmitted => user_prompt_submitted_input_failure(v),
        HookKind::SessionStart => session_start_input_failure(v),
        HookKind::SessionEnd => session_end_input_failure(v),
        HookKind::ErrorOccurred => error_occurred_input_failure(v),
    }
}

/// Reads a `hooks.invoke` input as the input type of the hook's kind; input
/// that does not read is a protocol error naming the hook.
pub fn read_hook_input(k: HookKind, input: &JsonValue) -> (r: Result<HookInput, CopilotError>)
    ensures
        match hook_input_failure(k, input@) {
            None => r matches Ok(h) && hook_input_kind(h) == k && hook_input_read(h, input@),
            Some(d) => r matches Err(e) && e@ == ErrorView::Protocol(invalid_hook_input_text(k, d)),
        },
{
    let read = match k {
        HookKind::PreToolUse => match PreToolUseHookInput::from_json(input) {
            Ok(x) => Ok(HookInput::PreToolUse(x)),
            Err(d) => Err(d),
        },
        HookKind::PostToolUse => match PostToolUseHookInput::from_json(input) {
            Ok(x) => Ok(HookInput::PostToolUse(x)),
            Err(d) => Err(d),
        },
        HookKind::UserPromptSubmitted => match UserPromptSubmittedHookInput::from_json(input) {
            Ok(x) => Ok(HookInput::UserPromptSubmitted(x)),
            Err(d) => Err(d),
        },
        HookKind::SessionStart => match SessionStartHookInput::from_json(input) {
            Ok(x) => Ok(HookInput::SessionStart(x)),
            Err(d) => Err(d),
        },
        HookKind::SessionEnd => match SessionEndHookInput::from_json(input) {
            Ok(x) => Ok(HookInput::SessionEnd(x)),
            Err(d) => Err(d),
        },
        HookKind::ErrorOccurred => match ErrorOccurredHookInput::from_json(input) {
            Ok(x) => Ok(HookInput::ErrorOccurred(x)),
            Err(d) => Err(d),
        },
    };
    match read {
        Ok(h) => Ok(h),
        Err(d) => Err(invalid_hook_input(k, d.as_str())),
    }
}

/// The output of one hook.
#[derive(Debug)]
pub enum HookOutput {
    PreToolUse(PreToolUseHookOutput),
    PostToolUse(PostToolUseHookOutput),
    UserPromptSubmitted(UserPromptSubmittedHookOutput),
    SessionStart(SessionStartHookOutput),
    SessionEnd(SessionEndHookOutput),
    ErrorOccurred(ErrorOccurredHookOutput),
}

/// The wire object of a hook output.
pub open spec fn hook_output_wire(h: HookOutput) -> JsonView {
    match h {
        HookOutput::PreToolUse(x) => pre_tool_use_output_wire(x),
        HookOutput::PostToolUse(x) => post_tool_use_output_wire(x),
        HookOutput::UserPromptSubmitted(x) => user_prompt_submitted_output_wire(x),
        HookOutput::SessionStart(x) => session_start_output_wire(x),
        HookOutput::SessionEnd(x) => session_end_output_wire(x),
        HookOutput::ErrorOccurred(x) => error_occurred_output_wire(x),
    }
}

impl HookOutput {
    /// The output's wire object, the answer to the `hooks.invoke` callback.
    pub fn to_json(&self) -> (r: JsonValue)
        ensures
            r@ == hook_output_wire(*self),
    {
        match self {
            HookOutput::PreToolUse(x) => x.to_json(),
            HookOutput::PostToolUse(x) => x.to_json(),
            HookOutput::UserPromptSubmitted(x) => x.to_json(),
            HookOutput::SessionStart(x) => x.to_json(),
            HookOutput::SessionEnd(x) => x.to_json(),
            HookOutput::ErrorOccurred(x) => x.to_json(),
        }
    }
}

} // verus!
