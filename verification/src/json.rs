//! The library's model of a JSON document.
//!
//! Every request body the client sends and every response body it reads is
//! a tree of this shape. Numbers are 64-bit integers: every numeric field
//! of the Tetter wire format (timestamps, counters, status codes, rating
//! codes) is integral, and a fractional number in a response is treated as
//! a decode failure. Objects keep their members as a key/value list; a key
//! is looked up by its first occurrence.

use vstd::prelude::*;

verus! {

broadcast use vstd::std_specs::vec::axiom_vec_index_decreases;

/// An executable JSON value.
#[derive(Debug, PartialEq)]
pub enum Json {
    Null,
    Bool(bool),
    Int(i64),
    Str(String),
    Arr(Vec<Json>),
    Obj(Vec<(String, Json)>),
}

/// The mathematical shape of a JSON value; every contract speaks of this.
pub enum JsonV {
    Null,
    Bool(bool),
    Int(int),
    Str(Seq<char>),
    Arr(Seq<JsonV>),
    Obj(Seq<(Seq<char>, JsonV)>),
}

/// The views of an array's elements, from position `i` on.
pub open spec fn arr_view_from(a: Vec<Json>, i: int) -> Seq<JsonV>
    decreases a, a@.len() - i,
{
    if i < 0 || i >= a@.len() {
        Seq::empty()
    } else {
        seq![a[i]@] + arr_view_from(a, i + 1)
    }
}

/// The views of an object's members, from position `i` on.
pub open spec fn obj_view_from(o: Vec<(String, Json)>, i: int) -> Seq<(Seq<char>, JsonV)>
    decreases o, o@.len() - i,
{
    if i < 0 || i >= o@.len() {
        Seq::empty()
    } else {
        seq![(o[i].0@, o[i].1@)] + obj_view_from(o, i + 1)
    }
}

impl View for Json {
    type V = JsonV;

    open spec fn view(&self) -> JsonV
        decreases self, 0int,
    {
        match self {
            Json::Null => JsonV::Null,
            Json::Bool(b) => JsonV::Bool(*b),
            Json::Int(i) => JsonV::Int(*i as int),
            Json::Str(s) => JsonV::Str(s@),
            Json::Arr(a) => JsonV::Arr(arr_view_from(*a, 0)),
            Json::Obj(o) => JsonV::Obj(obj_view_from(*o, 0)),
        }
    }
}

impl DeepView for Json {
    type V = JsonV;

    open spec fn deep_view(&self) -> JsonV {
        self.view()
    }
}

proof fn lemma_arr_view_from(a: Vec<Json>, i: int)
    requires
        0 <= i <= a@.len(),
    ensures
        arr_view_from(a, i).len() == a@.len() - i,
        forall|k: int| 0 <= k < a@.len() - i ==> arr_view_from(a, i)[k] == a@[i + k]@,
    decreases a@.len() - i,
{
    if i < a@.len() {
        lemma_arr_view_from(a, i + 1);
        assert(arr_view_from(a, i) == seq![a@[i]@] + arr_view_from(a, i + 1));
        assert(arr_view_from(a, i).len() == a@.len() - i);
        assert forall|k: int| 0 <= k < a@.len() - i implies arr_view_from(a, i)[k] == a@[i
            + k]@ by {
            if k == 0 {
                assert(arr_view_from(a, i)[0] == a@[i]@);
            } else {
                assert(arr_view_from(a, i)[k] == arr_view_from(a, i + 1)[k - 1]);
            }
        }
    } else {
        assert(arr_view_from(a, i) =~= Seq::empty());
    }
}

proof fn lemma_obj_view_from(o: Vec<(String, Json)>, i: int)
    requires
        0 <= i <= o@.len(),
    ensures
        obj_view_from(o, i).len() == o@.len() - i,
        forall|k: int|
            0 <= k < o@.len() - i ==> obj_view_from(o, i)[k] == (o@[i + k].0@, o@[i + k].1@),
    decreases o@.len() - i,
{
    if i < o@.len() {
        lemma_obj_view_from(o, i + 1);
        assert(obj_view_from(o, i) == seq![(o@[i].0@, o@[i].1@)] + obj_view_from(o, i + 1));
        assert(obj_view_from(o, i).len() == o@.len() - i);
        assert forall|k: int|
            0 <= k < o@.len() - i implies obj_view_from(o, i)[k] == (o@[i + k].0@, o@[i
            + k].1@) by {
            if k == 0 {
                assert(obj_view_from(o, i)[0] == (o@[i].0@, o@[i].1@));
            } else {
                assert(obj_view_from(o, i)[k] == obj_view_from(o, i + 1)[k - 1]);
            }
        }
    } else {
        assert(obj_view_from(o, i) =~= Seq::empty());
    }
}

/// The view of an array value is the element views, in order.
pub proof fn lemma_arr_view(a: Vec<Json>)
    ensures
        Json::Arr(a)@ == JsonV::Arr(a.deep_view()),
{
    lemma_arr_view_from(a, 0);
    assert(arr_view_from(a, 0) =~= a.deep_view());
}

/// The view of an object value pairs each member's key view with its value view.
pub proof fn lemma_obj_view(o: Vec<(String, Json)>)
    ensures
        Json::Obj(o)@ == JsonV::Obj(o.deep_view()),
{
    lemma_obj_view_from(o, 0);
    assert(obj_view_from(o, 0) =~= o.deep_view());
}

#[verifier::external_type_specification]
#[verifier::external_body]
pub struct ExValue(serde_json::Value);

/// What a `serde_json` value holds, read in the library's model: `None`
/// exactly when some number in it does not fit `i64`.
pub uninterp spec fn value_content(v: serde_json::Value) -> Option<JsonV>;

/// What parsing a text as JSON yields in the library's model: `None` when
/// the parse fails or some number in the text does not fit `i64`.
pub uninterp spec fn json_of_text(s: Seq<char>) -> Option<JsonV>;

/// Relies on serde_json::from_str::<Value>: whether the text parses, and the
/// value it parses to, are functions of the text alone.
#[verifier::external_body]
fn value_of_text(s: &str) -> (r: Option<serde_json::Value>)
    ensures
        match r {
            Some(v) => value_content(v) == json_of_text(s@),
            None => json_of_text(s@) is None,
        },
{
    serde_json::from_str::<serde_json::Value>(s).ok()
}

/// Relies on serde_json::Value: its variants mirror the JSON grammar one for
/// one, and Number::as_i64 returns the number exactly when it is a 64-bit
/// integer.
#[verifier::external_body]
fn value_to_json(v: serde_json::Value) -> (r: Option<Json>)
    ensures
        match r {
            Some(j) => value_content(v) == Some(j@),
            None => value_content(v) is None,
        },
{
    match v {
        serde_json::Value::Null => Some(Json::Null),
        serde_json::Value::Bool(b) => Some(Json::Bool(b)),
        serde_json::Value::Number(n) => Some(Json::Int(n.as_i64()?)),
        serde_json::Value::String(s) => Some(Json::Str(s)),
        serde_json::Value::Array(a) => {
            let mut out = Vec::new();
            for x in a { out.push(value_to_json(x)?); }
            Some(Json::Arr(out))
        },
        serde_json::Value::Object(m) => {
            let mut out = Vec::new();
            for (k, x) in m { out.push((k, value_to_json(x)?)); } Some(Json::Obj(out))
        },
    }
}

/// Parses a text as JSON into the library's model of it.
pub fn parse_json(s: &str) -> (r: Option<Json>)
    ensures
        match r {
            Some(j) => json_of_text(s@) == Some(j@),
            None => json_of_text(s@) is None,
        },
{
    match value_of_text(s) {
        Some(v) => value_to_json(v),
        None => None,
    }
}

/// Relies on `str`'s `PartialEq`: `==` on two string slices is true exactly
/// when they hold the same characters.
#[verifier::external_body]
pub(crate) fn str_eq(a: &str, b: &str) -> (r: bool)
    ensures
        r == (a@ == b@),
{
    a == b
}

/// First-match lookup of a key in an object's member list.
pub open spec fn obj_get_v(o: Seq<(Seq<char>, JsonV)>, k: Seq<char>) -> Option<JsonV>
    decreases o.len(),
{
    if o.len() == 0 {
        None
    } else if o[0].0 == k {
        Some(o[0].1)
    } else {
        obj_get_v(o.drop_first(), k)
    }
}

/// Looks a key up in an object's member list, first match wins.
pub fn obj_get<'a>(o: &'a Vec<(String, Json)>, k: &str) -> (r: Option<&'a Json>)
    ensures
        match r {
            Some(j) => obj_get_v(o.deep_view(), k@) == Some(j@) && (decreases_to!(*o => *j)),
            None => obj_get_v(o.deep_view(), k@) is None,
        },
{
    let ghost ov = o.deep_view();
    assert(ov.skip(0) =~= ov);
    for i in 0..o.len()
        invariant
            ov == o.deep_view(),
            ov.len() == o@.len(),
            forall|j: int| 0 <= j < ov.len() ==> ov[j] == (o@[j].0@, o@[j].1.deep_view()),
            obj_get_v(ov, k@) == obj_get_v(ov.skip(i as int), k@),
    {
        assert(ov.skip(i as int)[0] == ov[i as int]);
        if str_eq(o[i].0.as_str(), k) {
            proof {
                assert(decreases_to!(*o => o@[i as int]));
                assert(decreases_to!(o@[i as int] => o@[i as int].1));
            }
            return Some(&o[i].1);
        }
        assert(ov.skip(i as int).drop_first() =~= ov.skip(i + 1));
    }
    assert(ov.skip(o@.len() as int) =~= Seq::<(Seq<char>, JsonV)>::empty());
    None
}

/// What a lookup finds sits inside the object's member list.
pub proof fn lemma_obj_get_smaller(o: Seq<(Seq<char>, JsonV)>, k: Seq<char>)
    ensures
        match obj_get_v(o, k) {
            Some(v) => decreases_to!(o => v),
            None => true,
        },
    decreases o.len(),
{
    broadcast use vstd::seq::axiom_seq_index_decreases;

    if o.len() > 0 {
        if o[0].0 == k {
            assert(decreases_to!(o => o[0]));
            assert(decreases_to!(o[0] => o[0].1));
        } else {
            lemma_obj_get_smaller(o.drop_first(), k);
            vstd::seq::axiom_seq_subrange_decreases(o, 1, o.len() as int);
            assert(decreases_to!(o => o.drop_first()));
        }
    }
}

/// Keys before position `n` that all differ from `k` do not affect lookup.
pub proof fn lemma_obj_get_skip(o: Seq<(Seq<char>, JsonV)>, k: Seq<char>, n: int)
    requires
        0 <= n <= o.len(),
        forall|i: int| 0 <= i < n ==> o[i].0 != k,
    ensures
        obj_get_v(o, k) == obj_get_v(o.skip(n), k),
    decreases n,
{
    if n > 0 {
        assert(o.skip(0) =~= o);
        assert(forall|i: int| 0 <= i < n - 1 ==> o.drop_first()[i].0 == o[i + 1].0);
        lemma_obj_get_skip(o.drop_first(), k, n - 1);
        assert(o.drop_first().skip(n - 1) =~= o.skip(n));
    } else {
        assert(o.skip(0) =~= o);
    }
}

/// A required string member: present and a string, else no reading.
pub open spec fn req_str_v(o: Seq<(Seq<char>, JsonV)>, k: Seq<char>) -> Option<Seq<char>> {
    match obj_get_v(o, k) {
        Some(JsonV::Str(s)) => Some(s),
        _ => None,
    }
}

/// A string member that defaults to empty when absent.
pub open spec fn def_str_v(o: Seq<(Seq<char>, JsonV)>, k: Seq<char>) -> Option<Seq<char>> {
    match obj_get_v(o, k) {
        Some(JsonV::Str(s)) => Some(s),
        None => Some(Seq::empty()),
        _ => None,
    }
}

/// A required integral member.
pub open spec fn req_i64_v(o: Seq<(Seq<char>, JsonV)>, k: Seq<char>) -> Option<int> {
    match obj_get_v(o, k) {
        Some(JsonV::Int(i)) => Some(i),
        _ => None,
    }
}

/// A required integral member that must fit a 32-bit signed integer.
pub open spec fn req_i32_v(o: Seq<(Seq<char>, JsonV)>, k: Seq<char>) -> Option<int> {
    match obj_get_v(o, k) {
        Some(JsonV::Int(i)) => if i32::MIN <= i <= i32::MAX {
            Some(i)
        } else {
            None
        },
        _ => None,
    }
}

/// A required boolean member.
pub open spec fn req_bool_v(o: Seq<(Seq<char>, JsonV)>, k: Seq<char>) -> Option<bool> {
    match obj_get_v(o, k) {
        Some(JsonV::Bool(b)) => Some(b),
        _ => None,
    }
}

/// An optional string member: absent or null reads as nothing there.
pub open spec fn opt_str_v(o: Seq<(Seq<char>, JsonV)>, k: Seq<char>) -> Option<Option<Seq<char>>> {
    match obj_get_v(o, k) {
        Some(JsonV::Str(s)) => Some(Some(s)),
        Some(JsonV::Null) => Some(None),
        None => Some(None),
        _ => None,
    }
}

/// An optional integral member: absent or null reads as nothing there.
pub open spec fn opt_i64_v(o: Seq<(Seq<char>, JsonV)>, k: Seq<char>) -> Option<Option<int>> {
    match obj_get_v(o, k) {
        Some(JsonV::Int(i)) => Some(Some(i)),
        Some(JsonV::Null) => Some(None),
        None => Some(None),
        _ => None,
    }
}

/// An optional 32-bit integral member: absent or null reads as nothing there.
pub open spec fn opt_i32_v(o: Seq<(Seq<char>, JsonV)>, k: Seq<char>) -> Option<Option<int>> {
    match obj_get_v(o, k) {
        Some(JsonV::Int(i)) => if i32::MIN <= i <= i32::MAX {
            Some(Some(i))
        } else {
            None
        },
        Some(JsonV::Null) => Some(None),
        None => Some(None),
        _ => None,
    }
}

/// Reads a required string member.
pub fn get_req_str(o: &Vec<(String, Json)>, k: &str) -> (r: Option<String>)
    ensures
        match r {
            Some(s) => req_str_v(o.deep_view(), k@) == Some(s@),
            None => req_str_v(o.deep_view(), k@) is None,
        },
{
    match obj_get(o, k) {
        Some(Json::Str(s)) => Some(s.clone()),
        _ => None,
    }
}

/// Reads a string member, empty when absent.
pub fn get_def_str(o: &Vec<(String, Json)>, k: &str) -> (r: Option<String>)
    ensures
        match r {
            Some(s) => def_str_v(o.deep_view(), k@) == Some(s@),
            None => def_str_v(o.deep_view(), k@) is None,
        },
{
    match obj_get(o, k) {
        Some(Json::Str(s)) => Some(s.clone()),
        Some(_) => None,
        None => Some(String::new()),
    }
}

/// Reads a required integral member.
pub fn get_req_i64(o: &Vec<(String, Json)>, k: &str) -> (r: Option<i64>)
    ensures
        match r {
            Some(i) => req_i64_v(o.deep_view(), k@) == Some(i as int),
            None => req_i64_v(o.deep_view(), k@) is None,
        },
{
    match obj_get(o, k) {
        Some(Json::Int(i)) => Some(*i),
        _ => None,
    }
}

/// Reads a required 32-bit integral member.
pub fn get_req_i32(o: &Vec<(String, Json)>, k: &str) -> (r: Option<i32>)
    ensures
        match r {
            Some(i) => req_i32_v(o.deep_view(), k@) == Some(i as int),
            None => req_i32_v(o.deep_view(), k@) is None,
        },
{
    match obj_get(o, k) {
        Some(Json::Int(i)) => {
            if i32::MIN as i64 <= *i && *i <= i32::MAX as i64 {
                Some(*i as i32)
            } else {
                None
            }
        },
        _ => None,
    }
}

/// Reads a required boolean member.
pub fn get_req_bool(o: &Vec<(String, Json)>, k: &str) -> (r: Option<bool>)
    ensures
        match r {
            Some(b) => req_bool_v(o.deep_view(), k@) == Some(b),
            None => req_bool_v(o.deep_view(), k@) is None,
        },
{
    match obj_get(o, k) {
        Some(Json::Bool(b)) => Some(*b),
        _ => None,
    }
}

/// Reads an optional string member.
pub fn get_opt_str(o: &Vec<(String, Json)>, k: &str) -> (r: Option<Option<String>>)
    ensures
        match r {
            Some(s) => opt_str_v(o.deep_view(), k@) == Some(s.deep_view()),
            None => opt_str_v(o.deep_view(), k@) is None,
        },
{
    match obj_get(o, k) {
        Some(Json::Str(s)) => Some(Some(s.clone())),
        Some(Json::Null) => Some(None),
        None => Some(None),
        _ => None,
    }
}

/// Reads an optional integral member.
pub fn get_opt_i64(o: &Vec<(String, Json)>, k: &str) -> (r: Option<Option<i64>>)
    ensures
        match r {
            Some(Some(i)) => opt_i64_v(o.deep_view(), k@) == Some(Some(i as int)),
            Some(None) => opt_i64_v(o.deep_view(), k@) == Some(None::<int>),
            None => opt_i64_v(o.deep_view(), k@) is None,
        },
{
    match obj_get(o, k) {
        Some(Json::Int(i)) => Some(Some(*i)),
        Some(Json::Null) => Some(None),
        None => Some(None),
        _ => None,
    }
}

/// Reads an optional 32-bit integral member.
pub fn get_opt_i32(o: &Vec<(String, Json)>, k: &str) -> (r: Option<Option<i32>>)
    ensures
        match r {
            Some(Some(i)) => opt_i32_v(o.deep_view(), k@) == Some(Some(i as int)),
            Some(None) => opt_i32_v(o.deep_view(), k@) == Some(None::<int>),
            None => opt_i32_v(o.deep_view(), k@) is None,
        },
{
    match obj_get(o, k) {
        Some(Json::Int(i)) => {
            if i32::MIN as i64 <= *i && *i <= i32::MAX as i64 {
                Some(Some(*i as i32))
            } else {
                None
            }
        },
        Some(Json::Null) => Some(None),
        None => Some(None),
        _ => None,
    }
}

} // verus!
