//! JSON values: the frames of the signaling server, the commands of the local
//! socket, the payloads of overlay cards and the plugin store.
//!
//! `Json` is the value the client computes with and `JsonView` its model. Text
//! is written and read by `serde_json`; its value type is taken apart and put
//! together one level at a time.
use vstd::prelude::*;
#[allow(unused_imports)]
use vstd::utf8::{decode_utf8, valid_utf8};

use crate::text::same;

verus! {

/// `serde_json::Value`, a JSON tree.
#[verifier::external_type_specification]
#[verifier::external_body]
pub struct ExValue(serde_json::Value);

/// `serde_json::Number`, a JSON number. It is carried along as it is.
#[verifier::external_type_specification]
#[verifier::external_body]
pub struct ExNumber(serde_json::Number);

/// The integer that a `serde_json::Number` holds; nothing for a number with a
/// fraction or an exponent.
pub uninterp spec fn number_int(n: serde_json::Number) -> Option<int>;

/// The tree that a `serde_json::Value` holds.
pub uninterp spec fn value_tree(v: serde_json::Value) -> JsonView;

/// The text that `serde_json::to_string` writes for a tree.
pub uninterp spec fn json_text(t: JsonView) -> Seq<char>;

/// The indented text that `serde_json::to_string_pretty` writes for a tree.
pub uninterp spec fn json_pretty_text(t: JsonView) -> Seq<char>;

/// What `serde_json::from_str` reads from a text: a tree, or the words of its
/// complaint.
pub uninterp spec fn parsed_json(s: Seq<char>) -> Result<JsonView, Seq<char>>;

/// What `serde_json::from_slice` reads from bytes: a tree, or the words of its
/// complaint.
pub uninterp spec fn parsed_bytes(b: Seq<u8>) -> Result<JsonView, Seq<char>>;

/// A JSON tree. The members of an object have no order and distinct names.
pub enum JsonView {
    Null,
    Bool(bool),
    /// A whole number.
    Int(int),
    /// Any other number.
    Real(serde_json::Number),
    Str(Seq<char>),
    Arr(Seq<JsonView>),
    Obj(Map<Seq<char>, JsonView>),
}

/// A number as it stands in a tree.
pub open spec fn number_tree(n: serde_json::Number) -> JsonView {
    match number_int(n) {
        Some(i) => JsonView::Int(i),
        None => JsonView::Real(n),
    }
}

impl JsonView {
    /// The member `key` of an object.
    pub open spec fn get(self, key: Seq<char>) -> Option<JsonView> {
        match self {
            JsonView::Obj(m) => if m.contains_key(key) {
                Some(m[key])
            } else {
                None
            },
            _ => None,
        }
    }

    /// The text, where the value is one.
    pub open spec fn as_str(self) -> Option<Seq<char>> {
        match self {
            JsonView::Str(s) => Some(s),
            _ => None,
        }
    }

    /// The truth value, where the value is one.
    pub open spec fn as_bool(self) -> Option<bool> {
        match self {
            JsonView::Bool(b) => Some(b),
            _ => None,
        }
    }

    /// The items, where the value is an array; none otherwise.
    pub open spec fn items(self) -> Seq<JsonView> {
        match self {
            JsonView::Arr(s) => s,
            _ => Seq::empty(),
        }
    }

    /// The items of the array member `key`; none where there is no such member.
    pub open spec fn items_of(self, key: Seq<char>) -> Seq<JsonView> {
        match self.get(key) {
            Some(v) => v.items(),
            None => Seq::empty(),
        }
    }

    /// The text member `key` of an object.
    pub open spec fn text_member(self, key: Seq<char>) -> Option<Seq<char>> {
        match self.get(key) {
            Some(v) => v.as_str(),
            None => None,
        }
    }

    /// The text member `key`, or `default` where there is none.
    pub open spec fn text_or(self, key: Seq<char>, default: Seq<char>) -> Seq<char> {
        match self.text_member(key) {
            Some(s) => s,
            None => default,
        }
    }

    /// The truth member `key`, or `false` where there is none.
    pub open spec fn flag(self, key: Seq<char>) -> bool {
        match self.get(key) {
            Some(v) => v.as_bool() == Some(true),
            None => false,
        }
    }

    /// The member `key`, or `default` where there is none.
    pub open spec fn member_or(self, key: Seq<char>, default: JsonView) -> JsonView {
        match self.get(key) {
            Some(v) => v,
            None => default,
        }
    }

    /// The object without the member `key`; anything else as it is.
    pub open spec fn without(self, key: Seq<char>) -> JsonView {
        match self {
            JsonView::Obj(m) => JsonView::Obj(m.remove(key)),
            _ => self,
        }
    }

    /// The object with the member `key` set; anything else as it is.
    pub open spec fn put(self, key: Seq<char>, val: JsonView) -> JsonView {
        match self {
            JsonView::Obj(m) => JsonView::Obj(m.insert(key, val)),
            _ => self,
        }
    }

    /// Whether the tree is one that a `serde_json::Value` can hold, with whole
    /// numbers only, and nests no deeper than `depth` arrays and objects.
    pub open spec fn fits(self, depth: nat) -> bool
        decreases depth,
    {
        match self {
            JsonView::Int(i) => i64::MIN <= i <= u64::MAX,
            JsonView::Real(_) => false,
            JsonView::Arr(s) => depth > 0 && forall|i: int|
                0 <= i < s.len() ==> (#[trigger] s[i]).fits((depth - 1) as nat),
            JsonView::Obj(m) => depth > 0 && m.dom().finite() && forall|k: Seq<char>| #[trigger]
                m.contains_key(k) ==> m[k].fits((depth - 1) as nat),
            _ => true,
        }
    }
}

/// An empty object.
pub open spec fn empty_obj() -> JsonView {
    JsonView::Obj(Map::empty())
}

/// A JSON value.
pub enum Json {
    Null,
    Bool(bool),
    Num(serde_json::Number),
    Str(String),
    Arr(Vec<Json>),
    /// The members of an object. Of two members with one name the later one
    /// counts.
    Obj(Vec<(String, Json)>),
}

/// The members of an object, added one after the other.
pub open spec fn members(e: Seq<(String, Json)>) -> Map<Seq<char>, JsonView>
    decreases e,
{
    if e.len() == 0 {
        Map::empty()
    } else {
        members(e.drop_last()).insert(e.last().0@, e.last().1@)
    }
}

impl Json {
    /// The tree of a value.
    pub open spec fn view(self) -> JsonView
        decreases self,
    {
        match self {
            Json::Null => JsonView::Null,
            Json::Bool(b) => JsonView::Bool(b),
            Json::Num(n) => number_tree(n),
            Json::Str(s) => JsonView::Str(s@),
            Json::Arr(v) => JsonView::Arr(
                Seq::new(
                    v@.len(),
                    |i: int|
                        if 0 <= i < v@.len() {
                            v@[i].view()
                        } else {
                            JsonView::Null
                        },
                ),
            ),
            Json::Obj(v) => JsonView::Obj(members(v@)),
        }
    }
}

/// The trees of a list of values.
pub open spec fn trees(v: Seq<Json>) -> Seq<JsonView> {
    Seq::new(v.len(), |i: int| v[i]@)
}

/// The tree of an array.
pub broadcast proof fn array_tree(v: Vec<Json>)
    ensures
        (#[trigger] Json::Arr(v)@) == JsonView::Arr(trees(v@)),
{
    assert(Json::Arr(v)@->Arr_0 =~= trees(v@));
}

/// One more member.
pub proof fn lemma_members_push(e: Seq<(String, Json)>, k: String, v: Json)
    ensures
        members(e.push((k, v))) == members(e).insert(k@, v@),
{
    assert(e.push((k, v)).drop_last() == e);
}

/// Whether no object in a JSON value has two members with one name.
pub open spec fn is_tidy(j: Json) -> bool
    decreases j,
{
    match j {
        Json::Arr(v) => forall|i: int| 0 <= i < v@.len() ==> is_tidy(#[trigger] v@[i]),
        Json::Obj(m) => {
            &&& forall|i: int| 0 <= i < m@.len() ==> is_tidy((#[trigger] m@[i]).1)
            &&& forall|i: int, k: int|
                0 <= i < k < m@.len() ==> (#[trigger] m@[i]).0@ != (#[trigger] m@[k]).0@
        },
        _ => true,
    }
}

/// What a member list says of a name when its last `e.len() - i` members do
/// not have that name.
proof fn lemma_members_skip(e: Seq<(String, Json)>, i: int, k: Seq<char>)
    requires
        0 <= i <= e.len(),
        forall|j: int| i <= j < e.len() ==> (#[trigger] e[j]).0@ != k,
    ensures
        members(e).contains_key(k) == members(e.take(i)).contains_key(k),
        members(e).contains_key(k) ==> members(e)[k] == members(e.take(i))[k],
    decreases e.len() - i,
{
    if i == e.len() {
        assert(e.take(i) == e);
    } else {
        lemma_members_skip(e, i + 1, k);
        assert(e.take(i + 1).drop_last() == e.take(i));
        assert(e.take(i + 1).last() == e[i]);
    }
}

// ---- serde_json ----

/// One level of a `serde_json::Value`.
pub enum JsonNode {
    Null,
    Bool(bool),
    Num(serde_json::Number),
    Str(String),
    Arr(Vec<serde_json::Value>),
    Obj(Vec<(String, serde_json::Value)>),
}

/// The members of an object, added one after the other.
pub open spec fn value_members(e: Seq<(String, serde_json::Value)>) -> Map<Seq<char>, JsonView>
    decreases e.len(),
{
    if e.len() == 0 {
        Map::empty()
    } else {
        value_members(e.drop_last()).insert(e.last().0@, value_tree(e.last().1))
    }
}

/// The tree that one level stands for.
pub open spec fn node_tree(n: JsonNode) -> JsonView {
    match n {
        JsonNode::Null => JsonView::Null,
        JsonNode::Bool(b) => JsonView::Bool(b),
        JsonNode::Num(n) => number_tree(n),
        JsonNode::Str(s) => JsonView::Str(s@),
        JsonNode::Arr(v) => JsonView::Arr(Seq::new(v@.len(), |i: int| value_tree(v@[i]))),
        JsonNode::Obj(v) => JsonView::Obj(value_members(v@)),
    }
}

/// Takes a `serde_json::Value` apart: its variant and what that holds. The
/// members of a `serde_json::Map` have distinct names.
#[verifier::external_body]
fn open_value(v: serde_json::Value) -> (r: JsonNode)
    ensures
        value_tree(v) == node_tree(r),
        r matches JsonNode::Obj(m) ==> forall|i: int, j: int|
            0 <= i < j < m@.len() ==> (#[trigger] m@[i]).0@ != (#[trigger] m@[j]).0@,
{
    match v {
        serde_json::Value::Null => JsonNode::Null,
        serde_json::Value::Bool(b) => JsonNode::Bool(b),
        serde_json::Value::Number(n) => JsonNode::Num(n),
        serde_json::Value::String(s) => JsonNode::Str(s),
        serde_json::Value::Array(a) => JsonNode::Arr(a),
        serde_json::Value::Object(m) => JsonNode::Obj(m.into_iter().collect()),
    }
}

/// Puts a `serde_json::Value` together. A `serde_json::Map` that is collected
/// from pairs keeps the last of two with one name.
#[verifier::external_body]
fn close_value(n: JsonNode) -> (r: serde_json::Value)
    ensures
        value_tree(r) == node_tree(n),
{
    match n {
        JsonNode::Null => serde_json::Value::Null,
        JsonNode::Bool(b) => serde_json::Value::Bool(b),
        JsonNode::Num(n) => serde_json::Value::Number(n),
        JsonNode::Str(s) => serde_json::Value::String(s),
        JsonNode::Arr(a) => serde_json::Value::Array(a),
        JsonNode::Obj(m) => serde_json::Value::Object(m.into_iter().collect()),
    }
}

/// `serde_json::to_string` on a tree, which always succeeds: the keys of a tree
/// are texts and the writer is memory. A `serde_json::Map` keeps its members in
/// the order of their names, so the text depends on the tree alone.
#[verifier::external_body]
fn write_value(v: &serde_json::Value) -> (r: Option<String>)
    ensures
        r is Some,
        r->0@ == json_text(value_tree(*v)),
{
    serde_json::to_string(v).ok()
}

/// `serde_json::to_string_pretty` on a tree, which always succeeds as
/// `to_string` does.
#[verifier::external_body]
fn write_value_pretty(v: &serde_json::Value) -> (r: Option<String>)
    ensures
        r is Some,
        r->0@ == json_pretty_text(value_tree(*v)),
{
    serde_json::to_string_pretty(v).ok()
}

/// `serde_json::from_str` for a tree; the error by its words. A text that was
/// written from a tree of whole numbers, nested less than the reader's limit of
/// 128 levels, is read back as that tree.
#[verifier::external_body]
fn read_value(s: &str) -> (r: Result<serde_json::Value, String>)
    ensures
        match r {
            Ok(v) => parsed_json(s@) == Ok::<JsonView, Seq<char>>(value_tree(v)),
            Err(e) => parsed_json(s@) == Err::<JsonView, Seq<char>>(e@),
        },
        forall|t: JsonView| #[trigger]
            t.fits(127) && (s@ == json_text(t) || s@ == json_pretty_text(t)) ==> r is Ok
                && value_tree(r->Ok_0) == t,
{
    serde_json::from_str::<serde_json::Value>(s).map_err(|e| e.to_string())
}

/// `serde_json::from_slice` for a tree; the error by its words. Bytes that are
/// UTF-8 are read as `from_str` reads their text, and so what was written is read
/// back within the same limits.
#[verifier::external_body]
fn read_bytes(b: &Vec<u8>) -> (r: Result<serde_json::Value, String>)
    ensures
        match r {
            Ok(v) => parsed_bytes(b@) == Ok::<JsonView, Seq<char>>(value_tree(v)),
            Err(e) => parsed_bytes(b@) == Err::<JsonView, Seq<char>>(e@),
        },
        valid_utf8(b@) ==> (match r {
            Ok(v) => parsed_json(decode_utf8(b@)) == Ok::<JsonView, Seq<char>>(value_tree(v)),
            Err(_) => parsed_json(decode_utf8(b@)) is Err,
        }),
        forall|t: JsonView| #[trigger]
            t.fits(127) && valid_utf8(b@) && decode_utf8(b@) == json_text(t) ==> r is Ok
                && value_tree(r->Ok_0) == t,
{
    serde_json::from_slice::<serde_json::Value>(b).map_err(|e| e.to_string())
}

/// `Clone` of a `serde_json::Number` gives the same number.
pub assume_specification[ <serde_json::Number as Clone>::clone ](
    n: &serde_json::Number,
) -> (r: serde_json::Number)
    ensures
        r == *n,
;

/// `serde_json::Number::from` on an `i64` holds that integer.
#[verifier::external_body]
fn number_of(n: i64) -> (r: serde_json::Number)
    ensures
        number_int(r) == Some(n as int),
{
    serde_json::Number::from(n)
}

/// `serde_json::Number::as_i64`: the integer, where the number is one that
/// fits.
#[verifier::external_body]
pub(crate) fn number_as_i64(n: &serde_json::Number) -> (r: Option<i64>)
    ensures
        r == (match number_int(*n) {
            Some(i) => if i64::MIN <= i <= i64::MAX {
                Some(i as i64)
            } else {
                None
            },
            None => None,
        }),
{
    n.as_i64()
}

/// The members of an object are finitely many; with distinct names each keeps
/// its tree.
proof fn lemma_value_members(e: Seq<(String, serde_json::Value)>)
    requires
        forall|i: int, j: int|
            0 <= i < j < e.len() ==> (#[trigger] e[i]).0@ != (#[trigger] e[j]).0@,
    ensures
        value_members(e).dom().finite(),
        forall|i: int|
            #![trigger e[i]]
            0 <= i < e.len() ==> value_members(e).contains_key(e[i].0@) && value_members(
                e,
            )[e[i].0@] == value_tree(e[i].1),
    decreases e.len(),
{
    if e.len() > 0 {
        let front = e.drop_last();
        assert forall|i: int, j: int| 0 <= i < j < front.len() implies (#[trigger] front[i]).0@ != (
        #[trigger] front[j]).0@ by {
            assert(e[i].0@ != e[j].0@);
        }
        lemma_value_members(front);
        assert forall|i: int| #![trigger e[i]] 0 <= i < e.len() implies value_members(
            e,
        ).contains_key(e[i].0@) && value_members(e)[e[i].0@] == value_tree(e[i].1) by {
            if i < e.len() - 1 {
                assert(front[i] == e[i]);
                assert(e[i].0@ != e[e.len() - 1].0@);
            }
        }
    }
}

/// Reads a whole `serde_json::Value`.
fn from_value(v: serde_json::Value) -> (r: Json)
    ensures
        r@ == value_tree(v),
        is_tidy(r),
    decreases value_tree(v),
{
    let ghost tree = value_tree(v);
    match open_value(v) {
        JsonNode::Null => Json::Null,
        JsonNode::Bool(b) => Json::Bool(b),
        JsonNode::Num(n) => Json::Num(n),
        JsonNode::Str(s) => Json::Str(s),
        JsonNode::Arr(mut a) => {
            let ghost whole = a@;
            let mut out: Vec<Json> = Vec::new();
            let n = a.len();
            let mut i: usize = 0;
            while i < n
                invariant
                    i <= n,
                    n == whole.len(),
                    a@ == whole.skip(i as int),
                    tree == JsonView::Arr(Seq::new(whole.len(), |k: int| value_tree(whole[k]))),
                    tree == value_tree(v),
                    out@.len() == i,
                    forall|k: int| 0 <= k < i ==> (#[trigger] out@[k])@ == value_tree(whole[k]),
                    forall|k: int| 0 <= k < i ==> is_tidy(#[trigger] out@[k]),
                decreases n - i,
            {
                assert(whole.skip(i as int)[0] == whole[i as int]);
                assert(tree->Arr_0[i as int] == value_tree(whole[i as int]));
                assert(decreases_to!(tree => tree->Arr_0[i as int]));
                let x = a.remove(0);
                assert(whole.skip(i as int).remove(0) == whole.skip(i + 1));
                out.push(from_value(x));
                i += 1;
            }
            proof {
                array_tree(out);
                assert(trees(out@) =~= tree->Arr_0);
            }
            Json::Arr(out)
        },
        JsonNode::Obj(mut m) => {
            let ghost whole = m@;
            let mut out: Vec<(String, Json)> = Vec::new();
            let n = m.len();
            let mut i: usize = 0;
            proof {
                lemma_value_members(whole);
                assert(whole.take(0) =~= Seq::empty());
            }
            while i < n
                invariant
                    i <= n,
                    n == whole.len(),
                    m@ == whole.skip(i as int),
                    tree == JsonView::Obj(value_members(whole)),
                    tree == value_tree(v),
                    value_members(whole).dom().finite(),
                    forall|k: int|
                        #![trigger whole[k]]
                        0 <= k < whole.len() ==> value_members(whole).contains_key(whole[k].0@)
                            && value_members(whole)[whole[k].0@] == value_tree(whole[k].1),
                    members(out@) == value_members(whole.take(i as int)),
                    out@.len() == i,
                    forall|k: int, l: int|
                        0 <= k < l < whole.len() ==> (#[trigger] whole[k]).0@ != (
                        #[trigger] whole[l]).0@,
                    forall|k: int|
                        0 <= k < i ==> (#[trigger] out@[k]).0@ == whole[k].0@ && is_tidy(
                            out@[k].1,
                        ),
                decreases n - i,
            {
                assert(whole.skip(i as int)[0] == whole[i as int]);
                assert(decreases_to!(tree => tree->Obj_0[whole[i as int].0@]));
                let x = m.remove(0);
                assert(whole.skip(i as int).remove(0) == whole.skip(i + 1));
                let key = x.0;
                let val = from_value(x.1);
                proof {
                    lemma_members_push(out@, key, val);
                    assert(whole.take(i + 1).drop_last() == whole.take(i as int));
                    assert(whole.take(i + 1).last() == whole[i as int]);
                }
                out.push((key, val));
                i += 1;
            }
            assert(whole.take(i as int) == whole);
            Json::Obj(out)
        },
    }
}

/// Makes a whole `serde_json::Value`.
fn to_value(j: &Json) -> (r: serde_json::Value)
    ensures
        value_tree(r) == j@,
    decreases j,
{
    match j {
        Json::Null => close_value(JsonNode::Null),
        Json::Bool(b) => close_value(JsonNode::Bool(*b)),
        Json::Num(n) => close_value(JsonNode::Num(n.clone())),
        Json::Str(s) => close_value(JsonNode::Str(s.clone())),
        Json::Arr(a) => {
            let mut out: Vec<serde_json::Value> = Vec::new();
            let mut i: usize = 0;
            while i < a.len()
                invariant
                    i <= a.len(),
                    *j == Json::Arr(*a),
                    out@.len() == i,
                    forall|k: int| 0 <= k < i ==> value_tree(#[trigger] out@[k]) == a@[k]@,
                decreases a.len() - i,
            {
                assert(decreases_to!(*j => j->Arr_0));
                assert(decreases_to!(j->Arr_0 => j->Arr_0@));
                assert(decreases_to!(a@ => a@[i as int]));
                out.push(to_value(&a[i]));
                i += 1;
            }
            let node = JsonNode::Arr(out);
            proof {
                array_tree(*a);
                assert(node_tree(node)->Arr_0 =~= trees(a@));
            }
            close_value(node)
        },
        Json::Obj(m) => {
            let mut out: Vec<(String, serde_json::Value)> = Vec::new();
            let mut i: usize = 0;
            assert(m@.take(0) =~= Seq::empty());
            while i < m.len()
                invariant
                    i <= m.len(),
                    *j == Json::Obj(*m),
                    value_members(out@) == members(m@.take(i as int)),
                decreases m.len() - i,
            {
                assert(decreases_to!(*j => j->Obj_0));
                assert(decreases_to!(j->Obj_0 => j->Obj_0@));
                assert(decreases_to!(m@ => m@[i as int]));
                assert(decreases_to!(m@[i as int] => m@[i as int].1));
                let val = to_value(&m[i].1);
                let ghost done = out@;
                out.push((m[i].0.clone(), val));
                proof {
                    assert(out@.drop_last() == done);
                    assert(m@.take(i + 1).drop_last() == m@.take(i as int));
                    assert(m@.take(i + 1).last() == m@[i as int]);
                }
                i += 1;
            }
            assert(m@.take(i as int) == m@);
            close_value(JsonNode::Obj(out))
        },
    }
}

impl Clone for Json {
    /// A copy of the whole tree.
    fn clone(&self) -> (r: Json)
        ensures
            r@ == self@,
        decreases self,
    {
        match self {
            Json::Null => Json::Null,
            Json::Bool(b) => Json::Bool(*b),
            Json::Num(n) => Json::Num(n.clone()),
            Json::Str(s) => Json::Str(s.clone()),
            Json::Arr(a) => {
                let mut out: Vec<Json> = Vec::new();
                let mut i: usize = 0;
                while i < a.len()
                    invariant
                        i <= a.len(),
                        *self == Json::Arr(*a),
                        out@.len() == i,
                        forall|k: int| 0 <= k < i ==> (#[trigger] out@[k])@ == a@[k]@,
                    decreases a.len() - i,
                {
                    assert(decreases_to!(*self => self->Arr_0));
                    assert(decreases_to!(self->Arr_0 => self->Arr_0@));
                    assert(decreases_to!(a@ => a@[i as int]));
                    out.push(a[i].clone());
                    i += 1;
                }
                proof {
                    array_tree(*a);
                    array_tree(out);
                    assert(trees(out@) =~= trees(a@));
                }
                Json::Arr(out)
            },
            Json::Obj(m) => {
                let mut out: Vec<(String, Json)> = Vec::new();
                let mut i: usize = 0;
                assert(m@.take(0) =~= Seq::empty());
                while i < m.len()
                    invariant
                        i <= m.len(),
                        *self == Json::Obj(*m),
                        members(out@) == members(m@.take(i as int)),
                    decreases m.len() - i,
                {
                    let key = m[i].0.clone();
                    assert(decreases_to!(*self => self->Obj_0));
                    assert(decreases_to!(self->Obj_0 => self->Obj_0@));
                    assert(decreases_to!(m@ => m@[i as int]));
                    assert(decreases_to!(m@[i as int] => m@[i as int].1));
                    let val = m[i].1.clone();
                    proof {
                        lemma_members_push(out@, key, val);
                        assert(m@.take(i + 1).drop_last() == m@.take(i as int));
                        assert(m@.take(i + 1).last() == m@[i as int]);
                    }
                    out.push((key, val));
                    i += 1;
                }
                assert(m@.take(i as int) == m@);
                Json::Obj(out)
            },
        }
    }
}

impl Json {
    /// A text value.
    pub fn text(s: &str) -> (r: Json)
        ensures
            r@ == JsonView::Str(s@),
    {
        Json::Str(s.to_owned())
    }

    /// A whole number.
    pub fn whole(n: i64) -> (r: Json)
        ensures
            r@ == JsonView::Int(n as int),
    {
        Json::Num(number_of(n))
    }

    /// An empty object.
    pub fn object() -> (r: Json)
        ensures
            r@ == empty_obj(),
            is_tidy(r),
    {
        let none: Vec<(String, Json)> = Vec::new();
        assert(members(none@) == Map::<Seq<char>, JsonView>::empty());
        Json::Obj(none)
    }

    /// A text, or `null` for none.
    pub fn text_or_null(s: &Option<String>) -> (r: Json)
        ensures
            r@ == opt_text(*s),
    {
        match s {
            Some(s) => Json::text(s.as_str()),
            None => Json::Null,
        }
    }

    /// The member `key` of an object.
    pub fn get(&self, key: &str) -> (r: Option<&Json>)
        ensures
            match r {
                Some(v) => self@.get(key@) == Some(v@) && (is_tidy(*self) ==> is_tidy(*v)),
                None => self@.get(key@) is None,
            },
    {
        match self {
            Json::Obj(m) => {
                let mut i: usize = m.len();
                assert(m@.take(i as int) == m@);
                while i > 0
                    invariant
                        i <= m.len(),
                        *self == Json::Obj(*m),
                        forall|k: int| i <= k < m@.len() ==> (#[trigger] m@[k]).0@ != key@,
                    decreases i,
                {
                    if same(m[i - 1].0.as_str(), key) {
                        proof {
                            lemma_members_skip(m@, i as int, key@);
                            assert(m@.take(i as int).last() == m@[i - 1]);
                        }
                        return Some(&m[i - 1].1);
                    }
                    i -= 1;
                }
                proof {
                    lemma_members_skip(m@, 0, key@);
                    assert(m@.take(0) =~= Seq::empty());
                }
                None
            },
            _ => None,
        }
    }

    /// The text, where the value is one.
    pub fn as_str(&self) -> (r: Option<&str>)
        ensures
            match r {
                Some(s) => self@.as_str() == Some(s@),
                None => self@.as_str() is None,
            },
    {
        match self {
            Json::Str(s) => Some(s.as_str()),
            _ => None,
        }
    }

    /// The truth value, where the value is one.
    pub fn as_bool(&self) -> (r: Option<bool>)
        ensures
            r == self@.as_bool(),
    {
        match self {
            Json::Bool(b) => Some(*b),
            _ => None,
        }
    }

    /// The array member `key` of an object, where it has one.
    pub fn array_member(&self, key: &str) -> (r: Option<&Vec<Json>>)
        ensures
            self@.items_of(key@) == (match r {
                Some(v) => trees(v@),
                None => Seq::<JsonView>::empty(),
            }),
    {
        match self.get(key) {
            Some(v) => match v {
                Json::Arr(a) => {
                    proof {
                        array_tree(*a);
                    }
                    Some(a)
                },
                _ => None,
            },
            None => None,
        }
    }

    /// The text member `key` of an object.
    pub fn text_member(&self, key: &str) -> (r: Option<&str>)
        ensures
            match r {
                Some(s) => self@.text_member(key@) == Some(s@),
                None => self@.text_member(key@) is None,
            },
    {
        match self.get(key) {
            Some(v) => v.as_str(),
            None => None,
        }
    }

    /// The text member `key`, or `default` where there is none.
    pub fn text_or(&self, key: &str, default: &str) -> (r: String)
        ensures
            r@ == self@.text_or(key@, default@),
    {
        match self.text_member(key) {
            Some(s) => s.to_owned(),
            None => default.to_owned(),
        }
    }

    /// The truth member `key`, or `false` where there is none.
    pub fn flag(&self, key: &str) -> (r: bool)
        ensures
            r == self@.flag(key@),
    {
        match self.get(key) {
            Some(v) => match v.as_bool() {
                Some(b) => b,
                None => false,
            },
            None => false,
        }
    }

    /// A copy of the member `key`, or `default` where there is none.
    pub fn member_or(&self, key: &str, default: Json) -> (r: Json)
        ensures
            r@ == self@.member_or(key@, default@),
    {
        match self.get(key) {
            Some(v) => v.clone(),
            None => default,
        }
    }

    /// Takes the member `key` out of an object; anything else stays as it is.
    pub fn without(self, key: &str) -> (r: Json)
        ensures
            r@ == self@.without(key@),
    {
        match self {
            Json::Obj(m) => {
                let mut out: Vec<(String, Json)> = Vec::new();
                let mut i: usize = 0;
                assert(m@.take(0) =~= Seq::empty());
                assert(members(out@) =~= members(m@.take(0)).remove(key@));
                while i < m.len()
                    invariant
                        i <= m.len(),
                        members(out@) == members(m@.take(i as int)).remove(key@),
                    decreases m.len() - i,
                {
                    proof {
                        assert(m@.take(i + 1).drop_last() == m@.take(i as int));
                        assert(m@.take(i + 1).last() == m@[i as int]);
                    }
                    let ghost done = members(m@.take(i as int));
                    if !same(m[i].0.as_str(), key) {
                        let name = m[i].0.clone();
                        let val = m[i].1.clone();
                        proof {
                            lemma_members_push(out@, name, val);
                        }
                        out.push((name, val));
                    }
                    assert(members(out@) =~= done.insert(m@[i as int].0@, m@[i as int].1@).remove(
                        key@,
                    ));
                    i += 1;
                }
                assert(m@.take(i as int) == m@);
                Json::Obj(out)
            },
            other => other,
        }
    }

    /// Sets the member `key` of an object; anything else stays as it is.
    pub fn put(self, key: &str, val: Json) -> (r: Json)
        ensures
            r@ == self@.put(key@, val@),
    {
        match self {
            Json::Obj(m) => {
                let mut members = m;
                let name = key.to_owned();
                proof {
                    lemma_members_push(members@, name, val);
                }
                members.push((name, val));
                Json::Obj(members)
            },
            other => other,
        }
    }

    /// The text of a value, on one line.
    pub fn to_text(&self) -> (r: String)
        ensures
            r@ == json_text(self@),
    {
        match write_value(&to_value(self)) {
            Some(s) => s,
            None => String::new(),
        }
    }

    /// The text of a value, indented.
    pub fn to_pretty_text(&self) -> (r: String)
        ensures
            r@ == json_pretty_text(self@),
    {
        match write_value_pretty(&to_value(self)) {
            Some(s) => s,
            None => String::new(),
        }
    }

    /// Reads a value; an error comes by its words. What was written from a tree
    /// of whole numbers with less than 128 levels is read back.
    pub fn parse(s: &str) -> (r: Result<Json, String>)
        ensures
            match r {
                Ok(j) => parsed_json(s@) == Ok::<JsonView, Seq<char>>(j@) && is_tidy(j),
                Err(e) => parsed_json(s@) == Err::<JsonView, Seq<char>>(e@),
            },
            forall|t: JsonView| #[trigger]
                t.fits(127) && (s@ == json_text(t) || s@ == json_pretty_text(t)) ==> r is Ok
                    && r->Ok_0@ == t,
    {
        match read_value(s) {
            Ok(v) => Ok(from_value(v)),
            Err(e) => Err(e),
        }
    }

    /// Reads a value from bytes; an error comes by its words. Bytes that are
    /// UTF-8 are read as their text is.
    pub fn parse_bytes(b: &Vec<u8>) -> (r: Result<Json, String>)
        ensures
            match r {
                Ok(j) => parsed_bytes(b@) == Ok::<JsonView, Seq<char>>(j@) && is_tidy(j),
                Err(e) => parsed_bytes(b@) == Err::<JsonView, Seq<char>>(e@),
            },
            valid_utf8(b@) ==> (match r {
                Ok(j) => parsed_json(decode_utf8(b@)) == Ok::<JsonView, Seq<char>>(j@),
                Err(_) => parsed_json(decode_utf8(b@)) is Err,
            }),
            forall|t: JsonView| #[trigger]
                t.fits(127) && valid_utf8(b@) && decode_utf8(b@) == json_text(t) ==> r is Ok
                    && r->Ok_0@ == t,
    {
        match read_bytes(b) {
            Ok(v) => Ok(from_value(v)),
            Err(e) => Err(e),
        }
    }
}

/// A text, or `null` for none.
pub open spec fn opt_text(s: Option<String>) -> JsonView {
    match s {
        Some(s) => JsonView::Str(s@),
        None => JsonView::Null,
    }
}

/// An object under construction.
pub struct Fields {
    members: Vec<(String, Json)>,
}

impl Fields {
    /// The members so far.
    pub closed spec fn view(self) -> Map<Seq<char>, JsonView> {
        members(self.members@)
    }

    /// No members yet.
    pub fn new() -> (r: Fields)
        ensures
            r@ == Map::<Seq<char>, JsonView>::empty(),
    {
        Fields { members: Vec::new() }
    }

    /// One more member, in place of one with the same name.
    pub fn with(self, key: &str, val: Json) -> (r: Fields)
        ensures
            r@ == self@.insert(key@, val@),
    {
        let mut members = self.members;
        let name = key.to_owned();
        proof {
            lemma_members_push(members@, name, val);
        }
        members.push((name, val));
        Fields { members }
    }

    /// One more text member.
    pub fn with_text(self, key: &str, val: &str) -> (r: Fields)
        ensures
            r@ == self@.insert(key@, JsonView::Str(val@)),
    {
        self.with(key, Json::text(val))
    }

    /// One more truth member.
    pub fn with_bool(self, key: &str, val: bool) -> (r: Fields)
        ensures
            r@ == self@.insert(key@, JsonView::Bool(val)),
    {
        self.with(key, Json::Bool(val))
    }

    /// The finished object.
    pub fn done(self) -> (r: Json)
        ensures
            r@ == JsonView::Obj(self@),
    {
        Json::Obj(self.members)
    }
}

} // verus!
