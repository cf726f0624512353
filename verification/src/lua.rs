//! Values of Lua scripts, and how they become JSON and back.
use vstd::prelude::*;

use crate::json::{number_as_i64, Json};
#[allow(unused_imports)]
use crate::json::{is_tidy, members, number_int, number_tree, trees, JsonView};
use crate::text::to_signed_decimal;
#[allow(unused_imports)]
use crate::text::signed_decimal;

verus! {

/// A value of a Lua script.
pub enum LuaValue {
    Nil,
    Boolean(bool),
    Integer(i64),
    /// A number with a fraction or an exponent, as JSON has it.
    Number(serde_json::Number),
    /// A number that is none: infinite, or not a number.
    NotFinite,
    Str(String),
    /// A string that is no text, with the words of the complaint.
    NotText(String),
    Table(LuaTable),
    /// A function or some other thing that is no data.
    Other,
}

/// A key of a table.
pub enum LuaKey {
    Integer(i64),
    /// Any other number, as it is written.
    Number(String),
    Str(String),
    /// A string that is no text, with the words of the complaint.
    NotText(String),
    Other,
}

/// A table: its pairs in the order in which they are walked, and the length that
/// Lua gives for its list part.
pub struct LuaTable {
    pub len: usize,
    pub pairs: Vec<(LuaKey, LuaValue)>,
}

// ---- from Lua to JSON ----

/// Whether a key is a place of a list with `len` items.
pub open spec fn is_index(k: LuaKey, len: int) -> bool {
    match k {
        LuaKey::Integer(i) => 1 <= i <= len,
        _ => false,
    }
}

/// Whether a table is a list: it has items, and nothing but items.
pub open spec fn is_list(pairs: Seq<(LuaKey, LuaValue)>, len: int) -> bool {
    len > 0 && forall|i: int| 0 <= i < pairs.len() ==> is_index((#[trigger] pairs[i]).0, len)
}

/// The first place of an integer key, or the number of pairs where there is
/// none.
pub open spec fn index_of_key(pairs: Seq<(LuaKey, LuaValue)>, key: int) -> int
    decreases pairs.len(),
{
    if pairs.len() == 0 {
        0
    } else if pairs[0].0 matches LuaKey::Integer(i) && i == key {
        0
    } else {
        1 + index_of_key(pairs.drop_first(), key)
    }
}

/// What a key comes to in an object: a name, nothing for a key that has none, or
/// a complaint.
pub open spec fn key_text(k: LuaKey) -> Result<Option<Seq<char>>, Seq<char>> {
    match k {
        LuaKey::Integer(i) => Ok(Some(signed_decimal(i as int))),
        LuaKey::Number(s) => Ok(Some(s@)),
        LuaKey::Str(s) => Ok(Some(s@)),
        LuaKey::NotText(e) => Err(e@),
        LuaKey::Other => Ok(None),
    }
}

/// The JSON tree of a value, or the first complaint about a string in it.
/// Functions and the like become `null`, as do numbers that are none.
pub open spec fn lua_tree(v: LuaValue) -> Result<JsonView, Seq<char>>
    decreases v, 0nat,
{
    match v {
        LuaValue::Nil => Ok(JsonView::Null),
        LuaValue::Boolean(b) => Ok(JsonView::Bool(b)),
        LuaValue::Integer(i) => Ok(JsonView::Int(i as int)),
        LuaValue::Number(n) => Ok(number_tree(n)),
        LuaValue::NotFinite => Ok(JsonView::Null),
        LuaValue::Str(s) => Ok(JsonView::Str(s@)),
        LuaValue::NotText(e) => Err(e@),
        LuaValue::Table(t) => if is_list(t.pairs@, t.len as int) {
            match list_tree(t.pairs@, t.len as nat) {
                Ok(items) => Ok(JsonView::Arr(items)),
                Err(e) => Err(e),
            }
        } else {
            match object_tree(t.pairs@) {
                Ok(m) => Ok(JsonView::Obj(m)),
                Err(e) => Err(e),
            }
        },
        LuaValue::Other => Ok(JsonView::Null),
    }
}

/// The first `n` items of a list; a place without a pair is `null`.
pub open spec fn list_tree(pairs: Seq<(LuaKey, LuaValue)>, n: nat) -> Result<
    Seq<JsonView>,
    Seq<char>,
>
    decreases pairs, n,
{
    if n == 0 {
        Ok(Seq::empty())
    } else {
        match list_tree(pairs, (n - 1) as nat) {
            Err(e) => Err(e),
            Ok(items) => {
                let i = index_of_key(pairs, n as int);
                if 0 <= i < pairs.len() {
                    match lua_tree(pairs[i].1) {
                        Ok(t) => Ok(items.push(t)),
                        Err(e) => Err(e),
                    }
                } else {
                    Ok(items.push(JsonView::Null))
                }
            },
        }
    }
}

/// The members that pairs make, one after the other.
pub open spec fn object_tree(pairs: Seq<(LuaKey, LuaValue)>) -> Result<
    Map<Seq<char>, JsonView>,
    Seq<char>,
>
    decreases pairs, 0nat,
{
    if pairs.len() == 0 {
        Ok(Map::empty())
    } else {
        match object_tree(pairs.drop_last()) {
            Err(e) => Err(e),
            Ok(m) => match key_text(pairs.last().0) {
                Err(e) => Err(e),
                Ok(None) => Ok(m),
                Ok(Some(k)) => match lua_tree(pairs.last().1) {
                    Ok(t) => Ok(m.insert(k, t)),
                    Err(e) => Err(e),
                },
            },
        }
    }
}

/// The view of a conversion.
pub open spec fn json_view(r: Result<Json, String>) -> Result<JsonView, Seq<char>> {
    match r {
        Ok(j) => Ok(j@),
        Err(e) => Err(e@),
    }
}

/// Says whether a table is a list.
fn list_like(t: &LuaTable) -> (r: bool)
    ensures
        r == is_list(t.pairs@, t.len as int),
{
    if t.len == 0 {
        return false;
    }
    let mut i: usize = 0;
    while i < t.pairs.len()
        invariant
            i <= t.pairs.len(),
            t.len > 0,
            forall|k: int| 0 <= k < i ==> is_index((#[trigger] t.pairs@[k]).0, t.len as int),
        decreases t.pairs.len() - i,
    {
        let fits = match &t.pairs[i].0 {
            LuaKey::Integer(n) => *n >= 1 && *n as u64 <= t.len as u64,
            _ => false,
        };
        if !fits {
            assert(!is_index(t.pairs@[i as int].0, t.len as int));
            return false;
        }
        i += 1;
    }
    true
}

/// Finds the first place of an integer key.
fn find_key(pairs: &Vec<(LuaKey, LuaValue)>, key: u64) -> (r: usize)
    ensures
        r == index_of_key(pairs@, key as int),
        r <= pairs@.len(),
{
    let mut i: usize = 0;
    assert(pairs@.skip(0) == pairs@);
    while i < pairs.len()
        invariant
            i <= pairs.len(),
            index_of_key(pairs@, key as int) == i + index_of_key(
                pairs@.skip(i as int),
                key as int,
            ),
        decreases pairs.len() - i,
    {
        let hit = match &pairs[i].0 {
            LuaKey::Integer(n) => *n >= 0 && *n as u64 == key,
            _ => false,
        };
        assert(pairs@.skip(i as int)[0] == pairs@[i as int]);
        if hit {
            return i;
        }
        assert(pairs@.skip(i as int).drop_first() == pairs@.skip(i + 1));
        i += 1;
    }
    i
}

/// Writes a key as a name.
fn key_name(k: &LuaKey) -> (r: Result<Option<String>, String>)
    ensures
        key_text(*k) == (match r {
            Ok(Some(s)) => Ok::<Option<Seq<char>>, Seq<char>>(Some(s@)),
            Ok(None) => Ok(None),
            Err(e) => Err(e@),
        }),
{
    match k {
        LuaKey::Integer(i) => Ok(Some(to_signed_decimal(*i))),
        LuaKey::Number(s) => Ok(Some(s.clone())),
        LuaKey::Str(s) => Ok(Some(s.clone())),
        LuaKey::NotText(e) => Err(e.clone()),
        LuaKey::Other => Ok(None),
    }
}

/// After an error the rest of a list does not matter.
proof fn lemma_list_error(pairs: Seq<(LuaKey, LuaValue)>, n: nat, m: nat)
    requires
        n <= m,
        list_tree(pairs, n) is Err,
    ensures
        list_tree(pairs, m) == list_tree(pairs, n),
    decreases m - n,
{
    if n < m {
        lemma_list_error(pairs, n, (m - 1) as nat);
    }
}

/// After an error the rest of an object does not matter.
proof fn lemma_object_error(pairs: Seq<(LuaKey, LuaValue)>, i: int)
    requires
        0 <= i <= pairs.len(),
        object_tree(pairs.take(i)) is Err,
    ensures
        object_tree(pairs) == object_tree(pairs.take(i)),
    decreases pairs.len() - i,
{
    if i == pairs.len() {
        assert(pairs.take(i) == pairs);
    } else {
        assert(pairs.take(i + 1).drop_last() == pairs.take(i));
        lemma_object_error(pairs, i + 1);
    }
}

/// Turns a value into JSON.
pub fn lua_to_json(v: &LuaValue) -> (r: Result<Json, String>)
    ensures
        json_view(r) == lua_tree(*v),
    decreases v,
{
    match v {
        LuaValue::Nil => Ok(Json::Null),
        LuaValue::Boolean(b) => Ok(Json::Bool(*b)),
        LuaValue::Integer(i) => Ok(Json::whole(*i)),
        LuaValue::Number(n) => Ok(Json::Num(n.clone())),
        LuaValue::NotFinite => Ok(Json::Null),
        LuaValue::Str(s) => Ok(Json::Str(s.clone())),
        LuaValue::NotText(e) => Err(e.clone()),
        LuaValue::Other => Ok(Json::Null),
        LuaValue::Table(t) => if list_like(t) {
            let mut out: Vec<Json> = Vec::new();
            let mut n: usize = 0;
            assert(trees(out@) =~= Seq::<JsonView>::empty());
            while n < t.len
                invariant
                    n <= t.len,
                    *v == LuaValue::Table(*t),
                    is_list(t.pairs@, t.len as int),
                    list_tree(t.pairs@, n as nat) == Ok::<Seq<JsonView>, Seq<char>>(trees(out@)),
                decreases t.len - n,
            {
                let i = find_key(&t.pairs, n as u64 + 1);
                let ghost done = out@;
                if i < t.pairs.len() {
                    assert(decreases_to!(*v => v->Table_0));
                    assert(decreases_to!(v->Table_0 => v->Table_0.pairs));
                    assert(decreases_to!(t.pairs => t.pairs@));
                    assert(decreases_to!(t.pairs@ => t.pairs@[i as int]));
                    assert(decreases_to!(t.pairs@[i as int] => t.pairs@[i as int].1));
                    match lua_to_json(&t.pairs[i].1) {
                        Ok(j) => {
                            out.push(j);
                        },
                        Err(e) => {
                            proof {
                                lemma_list_error(t.pairs@, (n + 1) as nat, t.len as nat);
                            }
                            return Err(e);
                        },
                    }
                } else {
                    out.push(Json::Null);
                }
                assert(trees(out@) =~= trees(done).push(out@[out@.len() - 1]@));
                n += 1;
            }
            proof {
                crate::json::array_tree(out);
            }
            Ok(Json::Arr(out))
        } else {
            let mut out: Vec<(String, Json)> = Vec::new();
            let mut i: usize = 0;
            assert(t.pairs@.take(0) =~= Seq::empty());
            assert(members(out@) == Map::<Seq<char>, JsonView>::empty());
            while i < t.pairs.len()
                invariant
                    i <= t.pairs.len(),
                    *v == LuaValue::Table(*t),
                    !is_list(t.pairs@, t.len as int),
                    object_tree(t.pairs@.take(i as int)) == Ok::<
                        Map<Seq<char>, JsonView>,
                        Seq<char>,
                    >(members(out@)),
                decreases t.pairs.len() - i,
            {
                proof {
                    assert(t.pairs@.take(i + 1).drop_last() == t.pairs@.take(i as int));
                    assert(t.pairs@.take(i + 1).last() == t.pairs@[i as int]);
                }
                match key_name(&t.pairs[i].0) {
                    Err(e) => {
                        proof {
                            lemma_object_error(t.pairs@, i + 1);
                        }
                        return Err(e);
                    },
                    Ok(None) => {},
                    Ok(Some(k)) => {
                        assert(decreases_to!(*v => v->Table_0));
                        assert(decreases_to!(v->Table_0 => v->Table_0.pairs));
                        assert(decreases_to!(t.pairs => t.pairs@));
                        assert(decreases_to!(t.pairs@ => t.pairs@[i as int]));
                        assert(decreases_to!(t.pairs@[i as int] => t.pairs@[i as int].1));
                        match lua_to_json(&t.pairs[i].1) {
                            Ok(j) => {
                                proof {
                                    crate::json::lemma_members_push(out@, k, j);
                                }
                                out.push((k, j));
                            },
                            Err(e) => {
                                proof {
                                    lemma_object_error(t.pairs@, i + 1);
                                }
                                return Err(e);
                            },
                        }
                    },
                }
                i += 1;
            }
            assert(t.pairs@.take(i as int) == t.pairs@);
            Ok(Json::Obj(out))
        },
    }
}

// ---- from JSON to Lua ----

/// The key of the item at a place of a list, as far as Lua can count.
pub open spec fn index_key(i: int) -> LuaKey {
    if i < i64::MAX {
        LuaKey::Integer((i + 1) as i64)
    } else {
        LuaKey::Other
    }
}

/// Whether a value is the one that a JSON value is made into. A number becomes an
/// integer where it is one that Lua can hold. Lists count from one. A table is
/// made by assigning its pairs in order; to assign `Nil` is to leave the key out.
pub open spec fn is_lua_of(j: Json, v: LuaValue) -> bool
    decreases j,
{
    match j {
        Json::Null => v is Nil,
        Json::Bool(b) => v == LuaValue::Boolean(b),
        Json::Num(n) => match number_int(n) {
            Some(i) if i64::MIN <= i <= i64::MAX => v == LuaValue::Integer(i as i64),
            _ => v == LuaValue::Number(n),
        },
        Json::Str(s) => v matches LuaValue::Str(t) && t@ == s@,
        Json::Arr(a) => v matches LuaValue::Table(t) && t.len == a@.len() && t.pairs@.len()
            == a@.len() && forall|i: int|
            0 <= i < a@.len() ==> (#[trigger] t.pairs@[i]).0 == index_key(i) && is_lua_of(
                a@[i],
                t.pairs@[i].1,
            ),
        Json::Obj(m) => v matches LuaValue::Table(t) && t.len == 0 && t.pairs@.len() == m@.len()
            && forall|i: int|
            0 <= i < m@.len() ==> is_text_key((#[trigger] t.pairs@[i]).0, m@[i].0@) && is_lua_of(
                m@[i].1,
                t.pairs@[i].1,
            ),
    }
}

/// Whether a JSON value survives Lua: no list in it is empty, no `null` stands in
/// a list or an object, and whole numbers fit. A list that fits into memory is
/// never too long to be counted.
pub open spec fn survives(j: Json) -> bool
    decreases j,
{
    match j {
        Json::Num(n) => number_int(n) matches Some(i) ==> i64::MIN <= i <= i64::MAX,
        Json::Arr(v) => 0 < v@.len() <= i64::MAX && forall|i: int|
            0 <= i < v@.len() ==> !((#[trigger] v@[i]) is Null) && survives(v@[i]),
        Json::Obj(m) => forall|i: int|
            0 <= i < m@.len() ==> !((#[trigger] m@[i]).1 is Null) && survives(m@[i].1),
        _ => true,
    }
}

/// Whether a key is an integer.
spec fn is_number_key(k: LuaKey, n: int) -> bool {
    k matches LuaKey::Integer(i) && i == n
}

/// Whether a key is a text.
pub open spec fn is_text_key(k: LuaKey, s: Seq<char>) -> bool {
    k matches LuaKey::Str(t) && t@ == s
}

/// Where the pairs are numbered from one, a key is at its place.
proof fn lemma_numbered(pairs: Seq<(LuaKey, LuaValue)>, from: int, key: int)
    requires
        forall|i: int|
            0 <= i < pairs.len() ==> is_number_key((#[trigger] pairs[i]).0, from + i),
        from <= key < from + pairs.len(),
    ensures
        index_of_key(pairs, key) == key - from,
    decreases pairs.len(),
{
    assert(is_number_key(pairs[0].0, from));
    if key > from {
        let rest = pairs.drop_first();
        assert forall|i: int| 0 <= i < rest.len() implies is_number_key(
            (#[trigger] rest[i]).0,
            from + 1 + i,
        ) by {
            assert(rest[i] == pairs[i + 1]);
        }
        lemma_numbered(rest, from + 1, key);
    }
}

/// A list that was made from a JSON array is read back as that array.
proof fn lemma_list_back(pairs: Seq<(LuaKey, LuaValue)>, items: Seq<JsonView>, n: nat)
    requires
        n <= items.len(),
        pairs.len() == items.len(),
        forall|i: int|
            0 <= i < pairs.len() ==> is_number_key((#[trigger] pairs[i]).0, 1 + i),
        forall|i: int|
            0 <= i < pairs.len() ==> lua_tree((#[trigger] pairs[i]).1) == Ok::<
                JsonView,
                Seq<char>,
            >(items[i]),
    ensures
        list_tree(pairs, n) == Ok::<Seq<JsonView>, Seq<char>>(items.take(n as int)),
    decreases n,
{
    if n == 0 {
        assert(items.take(0) =~= Seq::empty());
    } else {
        lemma_list_back(pairs, items, (n - 1) as nat);
        lemma_numbered(pairs, 1, n as int);
        assert(lua_tree(pairs[n - 1].1) == Ok::<JsonView, Seq<char>>(items[n - 1]));
        assert(items.take(n as int) =~= items.take(n - 1).push(items[n - 1]));
    }
}

/// An object that was made from a JSON object is read back as that object.
proof fn lemma_object_back(pairs: Seq<(LuaKey, LuaValue)>, e: Seq<(String, Json)>)
    requires
        pairs.len() == e.len(),
        forall|i: int|
            0 <= i < pairs.len() ==> is_text_key((#[trigger] pairs[i]).0, e[i].0@),
        forall|i: int|
            0 <= i < pairs.len() ==> lua_tree((#[trigger] pairs[i]).1) == Ok::<
                JsonView,
                Seq<char>,
            >(e[i].1@),
    ensures
        object_tree(pairs) == Ok::<Map<Seq<char>, JsonView>, Seq<char>>(members(e)),
    decreases pairs.len(),
{
    if pairs.len() > 0 {
        let n = pairs.len() - 1;
        assert(pairs[n].0 is Str);
        assert(lua_tree(pairs[n].1) == Ok::<JsonView, Seq<char>>(e[n].1@));
        lemma_object_back(pairs.drop_last(), e.drop_last());
    }
}

/// A JSON value that survives Lua is read back from the value that it is made
/// into.
pub proof fn json_comes_back(j: Json, v: LuaValue)
    requires
        is_lua_of(j, v),
        survives(j),
    ensures
        lua_tree(v) == Ok::<JsonView, Seq<char>>(j@),
    decreases j,
{
    match j {
        Json::Arr(a) => {
            let t = v->Table_0;
            let pairs = t.pairs@;
            crate::json::array_tree(a);
            assert forall|k: int| 0 <= k < pairs.len() implies is_number_key(
                (#[trigger] pairs[k]).0,
                1 + k,
            ) && is_index(pairs[k].0, t.len as int) && lua_tree(pairs[k].1) == Ok::<
                JsonView,
                Seq<char>,
            >(trees(a@)[k]) by {
                assert(pairs[k].0 == index_key(k));
                assert(!(a@[k] is Null) && survives(a@[k]));
                assert(decreases_to!(j => j->Arr_0));
                assert(decreases_to!(j->Arr_0 => j->Arr_0@));
                assert(decreases_to!(a@ => a@[k]));
                json_comes_back(a@[k], pairs[k].1);
            }
            lemma_list_back(pairs, trees(a@), a@.len());
            assert(trees(a@).take(a@.len() as int) =~= trees(a@));
        },
        Json::Obj(m) => {
            let pairs = v->Table_0.pairs@;
            assert forall|k: int| 0 <= k < pairs.len() implies is_text_key(
                (#[trigger] pairs[k]).0,
                m@[k].0@,
            ) && lua_tree(pairs[k].1) == Ok::<JsonView, Seq<char>>(m@[k].1@) by {
                assert(!(m@[k].1 is Null) && survives(m@[k].1));
                assert(decreases_to!(j => j->Obj_0));
                assert(decreases_to!(j->Obj_0 => j->Obj_0@));
                assert(decreases_to!(m@ => m@[k]));
                assert(decreases_to!(m@[k] => m@[k].1));
                json_comes_back(m@[k].1, pairs[k].1);
            }
            lemma_object_back(pairs, m@);
        },
        _ => {},
    }
}

// ---- in whatever order Lua walks ----

/// Whether a value is what a JSON tree is in Lua, in whatever order the pairs of
/// its tables are walked: a list has a pair for every place and no other, an
/// object has one for every member and no other.
pub open spec fn is_walked(t: JsonView, v: LuaValue) -> bool
    decreases v,
{
    match v {
        LuaValue::Nil => t is Null,
        LuaValue::Boolean(b) => t == JsonView::Bool(b),
        LuaValue::Integer(i) => t == JsonView::Int(i as int),
        LuaValue::Number(n) => t == number_tree(n),
        LuaValue::Str(s) => t == JsonView::Str(s@),
        LuaValue::Table(table) => match t {
            JsonView::Arr(items) => {
                &&& table.len == items.len()
                &&& is_list(table.pairs@, table.len as int)
                &&& forall|n: int|
                    1 <= n <= items.len() ==> {
                        let i = #[trigger] index_of_key(table.pairs@, n);
                        0 <= i < table.pairs@.len() && is_walked(items[n - 1], table.pairs@[i].1)
                    }
            },
            JsonView::Obj(m) => {
                &&& table.len == 0
                &&& forall|i: int|
                    0 <= i < table.pairs@.len() ==> is_member(m, (#[trigger] table.pairs@[i]).0)
                        && is_walked(m[name_of(table.pairs@[i].0)], table.pairs@[i].1)
                &&& forall|i: int, k: int|
                    0 <= i < k < table.pairs@.len() ==> name_of((#[trigger] table.pairs@[i]).0)
                        != name_of((#[trigger] table.pairs@[k]).0)
                &&& forall|k: Seq<char>| #[trigger] m.contains_key(k) ==> has_name(table.pairs@, k)
            },
            _ => false,
        },
        _ => false,
    }
}

/// The text of a key.
pub open spec fn name_of(k: LuaKey) -> Seq<char> {
    match k {
        LuaKey::Str(s) => s@,
        _ => Seq::empty(),
    }
}

/// Whether a key is the name of a member.
pub open spec fn is_member(m: Map<Seq<char>, JsonView>, k: LuaKey) -> bool {
    k is Str && m.contains_key(name_of(k))
}

/// Whether there is a pair with a name.
pub open spec fn has_name(pairs: Seq<(LuaKey, LuaValue)>, name: Seq<char>) -> bool {
    exists|i: int| 0 <= i < pairs.len() && is_text_key((#[trigger] pairs[i]).0, name)
}

/// Pairs with distinct names make the members that they name.
proof fn lemma_members_walked(pairs: Seq<(LuaKey, LuaValue)>, m: Map<Seq<char>, JsonView>)
    requires
        forall|i: int|
            0 <= i < pairs.len() ==> (#[trigger] pairs[i]).0 is Str && lua_tree(pairs[i].1) == Ok::<
                JsonView,
                Seq<char>,
            >(m[name_of(pairs[i].0)]),
        forall|i: int, k: int|
            0 <= i < k < pairs.len() ==> name_of((#[trigger] pairs[i]).0) != name_of(
                (#[trigger] pairs[k]).0,
            ),
    ensures
        object_tree(pairs) is Ok,
        forall|k: Seq<char>| #[trigger]
            object_tree(pairs)->Ok_0.contains_key(k) <==> has_name(pairs, k),
        forall|k: Seq<char>| #[trigger]
            object_tree(pairs)->Ok_0.contains_key(k) ==> object_tree(pairs)->Ok_0[k] == m[k],
    decreases pairs.len(),
{
    if pairs.len() > 0 {
        let front = pairs.drop_last();
        let n = pairs.len() - 1;
        assert forall|i: int| 0 <= i < front.len() implies (#[trigger] front[i]).0 is Str
            && lua_tree(front[i].1) == Ok::<JsonView, Seq<char>>(m[name_of(front[i].0)]) by {
            assert(front[i] == pairs[i]);
        }
        assert forall|i: int, k: int| 0 <= i < k < front.len() implies name_of(
            (#[trigger] front[i]).0,
        ) != name_of((#[trigger] front[k]).0) by {
            assert(front[i] == pairs[i] && front[k] == pairs[k]);
        }
        lemma_members_walked(front, m);
        let r = object_tree(pairs)->Ok_0;
        assert(pairs[n].0 is Str);
        assert forall|k: Seq<char>| #[trigger] r.contains_key(k) <==> has_name(pairs, k) by {
            if has_name(front, k) {
                let i = choose|i: int|
                    0 <= i < front.len() && is_text_key((#[trigger] front[i]).0, k);
                assert(pairs[i] == front[i]);
            }
            if k == name_of(pairs[n].0) {
                assert(is_text_key(pairs[n].0, k));
            }
            if has_name(pairs, k) && k != name_of(pairs[n].0) {
                let i = choose|i: int|
                    0 <= i < pairs.len() && is_text_key((#[trigger] pairs[i]).0, k);
                assert(front[i] == pairs[i]);
            }
        }
    }
}

/// The first items of a list that has a pair for every place.
proof fn lemma_items_walked(pairs: Seq<(LuaKey, LuaValue)>, items: Seq<JsonView>, n: nat)
    requires
        n <= items.len(),
        forall|k: int|
            1 <= k <= items.len() ==> {
                let i = #[trigger] index_of_key(pairs, k);
                0 <= i < pairs.len() && lua_tree(pairs[i].1) == Ok::<JsonView, Seq<char>>(
                    items[k - 1],
                )
            },
    ensures
        list_tree(pairs, n) == Ok::<Seq<JsonView>, Seq<char>>(items.take(n as int)),
    decreases n,
{
    if n == 0 {
        assert(items.take(0) =~= Seq::empty());
    } else {
        lemma_items_walked(pairs, items, (n - 1) as nat);
        let i = index_of_key(pairs, n as int);
        assert(items.take(n as int) =~= items.take(n - 1).push(items[n - 1]));
    }
}

/// Whatever the order in which the tables of a value are walked, it is read as
/// the JSON tree that it is.
pub proof fn walked_values_are_read(t: JsonView, v: LuaValue)
    requires
        is_walked(t, v),
    ensures
        lua_tree(v) == Ok::<JsonView, Seq<char>>(t),
    decreases v,
{
    if v is Table {
        let table = v->Table_0;
        let pairs = table.pairs@;
        assert(decreases_to!(v => v->Table_0));
        assert(decreases_to!(v->Table_0 => v->Table_0.pairs));
        assert(decreases_to!(table.pairs => table.pairs@));
        match t {
            JsonView::Arr(items) => {
                assert forall|k: int| 1 <= k <= items.len() implies {
                    let i = #[trigger] index_of_key(pairs, k);
                    0 <= i < pairs.len() && lua_tree(pairs[i].1) == Ok::<JsonView, Seq<char>>(
                        items[k - 1],
                    )
                } by {
                    let i = index_of_key(pairs, k);
                    assert(0 <= i < pairs.len() && is_walked(items[k - 1], pairs[i].1));
                    assert(decreases_to!(pairs => pairs[i]));
                    assert(decreases_to!(pairs[i] => pairs[i].1));
                    walked_values_are_read(items[k - 1], pairs[i].1);
                }
                lemma_items_walked(pairs, items, items.len());
                assert(items.take(items.len() as int) =~= items);
            },
            JsonView::Obj(m) => {
                assert forall|i: int| 0 <= i < pairs.len() implies (#[trigger] pairs[i]).0 is Str
                    && lua_tree(pairs[i].1) == Ok::<JsonView, Seq<char>>(
                    m[name_of(pairs[i].0)],
                ) by {
                    assert(is_member(m, pairs[i].0));
                    assert(decreases_to!(pairs => pairs[i]));
                    assert(decreases_to!(pairs[i] => pairs[i].1));
                    walked_values_are_read(m[name_of(pairs[i].0)], pairs[i].1);
                }
                lemma_members_walked(pairs, m);
                let r = object_tree(pairs)->Ok_0;
                assert forall|k: Seq<char>| #[trigger] r.contains_key(k) implies m.contains_key(
                    k,
                ) by {
                    let i = choose|i: int|
                        0 <= i < pairs.len() && is_text_key((#[trigger] pairs[i]).0, k);
                    assert(is_member(m, pairs[i].0));
                }
                assert(r =~= m);
            },
            _ => {},
        }
    }
}

/// Members with distinct names keep their values.
proof fn lemma_tidy_members(e: Seq<(String, Json)>)
    requires
        forall|i: int, k: int|
            0 <= i < k < e.len() ==> (#[trigger] e[i]).0@ != (#[trigger] e[k]).0@,
    ensures
        forall|i: int|
            0 <= i < e.len() ==> members(e).contains_key((#[trigger] e[i]).0@)
                && members(e)[e[i].0@] == e[i].1@,
        forall|k: Seq<char>| #[trigger]
            members(e).contains_key(k) ==> exists|i: int|
                0 <= i < e.len() && (#[trigger] e[i]).0@ == k,
    decreases e.len(),
{
    if e.len() > 0 {
        let front = e.drop_last();
        let n = e.len() - 1;
        assert forall|i: int, k: int| 0 <= i < k < front.len() implies (#[trigger] front[i]).0@ != (
        #[trigger] front[k]).0@ by {
            assert(front[i] == e[i] && front[k] == e[k]);
        }
        lemma_tidy_members(front);
        assert forall|i: int| 0 <= i < e.len() implies members(e).contains_key(
            (#[trigger] e[i]).0@,
        ) && members(e)[e[i].0@] == e[i].1@ by {
            if i < n {
                assert(front[i] == e[i]);
                assert(e[i].0@ != e[n].0@);
            }
        }
        assert forall|k: Seq<char>| #[trigger] members(e).contains_key(k) implies exists|i: int|
            0 <= i < e.len() && (#[trigger] e[i]).0@ == k by {
            if k == e[n].0@ {
                assert(e[n].0@ == k);
            } else {
                assert(members(front).contains_key(k));
                let i = choose|i: int| 0 <= i < front.len() && (#[trigger] front[i]).0@ == k;
                assert(e[i] == front[i]);
            }
        }
    }
}

/// The value that a JSON value is made into is that JSON value in Lua, and so it
/// is read back in whatever order Lua walks it.
pub proof fn made_values_walk(j: Json, v: LuaValue)
    requires
        is_lua_of(j, v),
        survives(j),
        is_tidy(j),
    ensures
        is_walked(j@, v),
    decreases j,
{
    match j {
        Json::Arr(a) => {
            let t = v->Table_0;
            let pairs = t.pairs@;
            crate::json::array_tree(a);
            assert forall|k: int| 0 <= k < pairs.len() implies is_number_key(
                (#[trigger] pairs[k]).0,
                1 + k,
            ) && is_index(pairs[k].0, t.len as int) && is_walked(a@[k]@, pairs[k].1) by {
                assert(pairs[k].0 == index_key(k));
                assert(!(a@[k] is Null) && survives(a@[k]) && is_tidy(a@[k]));
                assert(decreases_to!(j => j->Arr_0));
                assert(decreases_to!(j->Arr_0 => j->Arr_0@));
                assert(decreases_to!(a@ => a@[k]));
                made_values_walk(a@[k], pairs[k].1);
            }
            assert forall|n: int| 1 <= n <= trees(a@).len() implies {
                let i = #[trigger] index_of_key(pairs, n);
                0 <= i < pairs.len() && is_walked(trees(a@)[n - 1], pairs[i].1)
            } by {
                lemma_numbered(pairs, 1, n);
                assert(is_walked(a@[n - 1]@, pairs[n - 1].1));
            }
        },
        Json::Obj(m) => {
            let pairs = v->Table_0.pairs@;
            let all = members(m@);
            lemma_tidy_members(m@);
            assert forall|i: int| 0 <= i < pairs.len() implies is_member(
                all,
                (#[trigger] pairs[i]).0,
            ) && is_walked(all[name_of(pairs[i].0)], pairs[i].1) by {
                assert(is_text_key(pairs[i].0, m@[i].0@));
                assert(!(m@[i].1 is Null) && survives(m@[i].1) && is_tidy(m@[i].1));
                assert(decreases_to!(j => j->Obj_0));
                assert(decreases_to!(j->Obj_0 => j->Obj_0@));
                assert(decreases_to!(m@ => m@[i]));
                assert(decreases_to!(m@[i] => m@[i].1));
                made_values_walk(m@[i].1, pairs[i].1);
            }
            assert forall|i: int, k: int| 0 <= i < k < pairs.len() implies name_of(
                (#[trigger] pairs[i]).0,
            ) != name_of((#[trigger] pairs[k]).0) by {
                assert(is_text_key(pairs[i].0, m@[i].0@) && is_text_key(pairs[k].0, m@[k].0@));
                assert(m@[i].0@ != m@[k].0@);
            }
            assert forall|k: Seq<char>| #[trigger] all.contains_key(k) implies has_name(
                pairs,
                k,
            ) by {
                let i = choose|i: int| 0 <= i < m@.len() && (#[trigger] m@[i]).0@ == k;
                assert(is_text_key(pairs[i].0, m@[i].0@));
            }
        },
        _ => {},
    }
}

/// Whether a JSON tree survives Lua: no list in it is empty, no `null` stands in a
/// list or an object, and whole numbers fit. A list that fits into memory is
/// never too long to be counted.
pub open spec fn tree_survives(t: JsonView) -> bool
    decreases t,
{
    match t {
        JsonView::Int(i) => i64::MIN <= i <= i64::MAX,
        JsonView::Arr(s) => 0 < s.len() <= i64::MAX && forall|i: int|
            0 <= i < s.len() ==> !((#[trigger] s[i]) is Null) && tree_survives(s[i]),
        JsonView::Obj(m) => m.dom().finite() && forall|k: Seq<char>| #[trigger]
            m.contains_key(k) ==> !(m[k] is Null) && tree_survives(m[k]),
        _ => true,
    }
}

/// A value without a name twice survives Lua where its tree does.
proof fn lemma_survives(j: Json)
    requires
        is_tidy(j),
        tree_survives(j@),
    ensures
        survives(j),
    decreases j,
{
    match j {
        Json::Arr(a) => {
            crate::json::array_tree(a);
            assert forall|i: int| 0 <= i < a@.len() implies !((#[trigger] a@[i]) is Null)
                && survives(a@[i]) by {
                assert(trees(a@)[i] == a@[i]@);
                assert(is_tidy(a@[i]));
                assert(decreases_to!(j => j->Arr_0));
                assert(decreases_to!(j->Arr_0 => j->Arr_0@));
                assert(decreases_to!(a@ => a@[i]));
                lemma_survives(a@[i]);
            }
        },
        Json::Obj(m) => {
            lemma_tidy_members(m@);
            assert forall|i: int| 0 <= i < m@.len() implies !((#[trigger] m@[i]).1 is Null)
                && survives(m@[i].1) by {
                assert(members(m@).contains_key(m@[i].0@));
                assert(is_tidy(m@[i].1));
                assert(decreases_to!(j => j->Obj_0));
                assert(decreases_to!(j->Obj_0 => j->Obj_0@));
                assert(decreases_to!(m@ => m@[i]));
                assert(decreases_to!(m@[i] => m@[i].1));
                lemma_survives(m@[i].1);
            }
        },
        _ => {},
    }
}

/// JSON goes through Lua and back: a tree without `null` and empty lists inside,
/// whose whole numbers fit, is what the value that is made of it is read as, in
/// whatever order Lua walks its tables.
pub proof fn json_goes_through_lua(j: Json, v: LuaValue)
    requires
        is_tidy(j),
        tree_survives(j@),
        is_lua_of(j, v),
    ensures
        lua_tree(v) == Ok::<JsonView, Seq<char>>(j@),
        is_walked(j@, v),
        forall|w: LuaValue| #[trigger]
            is_walked(j@, w) ==> lua_tree(w) == Ok::<JsonView, Seq<char>>(j@),
{
    lemma_survives(j);
    json_comes_back(j, v);
    made_values_walk(j, v);
    assert forall|w: LuaValue| #[trigger] is_walked(j@, w) implies lua_tree(w) == Ok::<
        JsonView,
        Seq<char>,
    >(j@) by {
        walked_values_are_read(j@, w);
    }
}

/// Whether a value is one that a JSON tree is made into.
pub open spec fn is_made_from(t: JsonView, v: LuaValue) -> bool {
    exists|j: Json| #[trigger] is_lua_of(j, v) && is_tidy(j) && j@ == t
}

/// Makes a value for Lua. A value that survives Lua is read back as it was.
pub fn json_to_lua(j: &Json) -> (r: LuaValue)
    ensures
        is_lua_of(*j, r),
        survives(*j) ==> (lua_tree(r) == Ok::<JsonView, Seq<char>>(j@)),
        is_tidy(*j) && tree_survives(j@) ==> (lua_tree(r) == Ok::<JsonView, Seq<char>>(j@)),
{
    let r = make_lua(j);
    proof {
        if survives(*j) {
            json_comes_back(*j, r);
        }
        if is_tidy(*j) && tree_survives(j@) {
            json_goes_through_lua(*j, r);
        }
    }
    r
}

/// Makes a value for Lua.
fn make_lua(j: &Json) -> (r: LuaValue)
    ensures
        is_lua_of(*j, r),
    decreases j,
{
    match j {
        Json::Null => LuaValue::Nil,
        Json::Bool(b) => LuaValue::Boolean(*b),
        Json::Num(n) => match number_as_i64(n) {
            Some(i) => LuaValue::Integer(i),
            None => LuaValue::Number(n.clone()),
        },
        Json::Str(s) => LuaValue::Str(s.clone()),
        Json::Arr(v) => {
            let mut pairs: Vec<(LuaKey, LuaValue)> = Vec::new();
            let mut i: usize = 0;
            while i < v.len()
                invariant
                    i <= v.len(),
                    *j == Json::Arr(*v),
                    pairs@.len() == i,
                    forall|k: int|
                        0 <= k < i ==> (#[trigger] pairs@[k]).0 == index_key(k) && is_lua_of(
                            v@[k],
                            pairs@[k].1,
                        ),
                decreases v.len() - i,
            {
                assert(decreases_to!(*j => j->Arr_0));
                assert(decreases_to!(j->Arr_0 => j->Arr_0@));
                assert(decreases_to!(v@ => v@[i as int]));
                let value = make_lua(&v[i]);
                let key = if (i as u64) < 0x7fff_ffff_ffff_ffff {
                    LuaKey::Integer(i as i64 + 1)
                } else {
                    LuaKey::Other
                };
                pairs.push((key, value));
                i += 1;
            }
            LuaValue::Table(LuaTable { len: v.len(), pairs })
        },
        Json::Obj(m) => {
            let mut pairs: Vec<(LuaKey, LuaValue)> = Vec::new();
            let mut i: usize = 0;
            while i < m.len()
                invariant
                    i <= m.len(),
                    *j == Json::Obj(*m),
                    pairs@.len() == i,
                    forall|k: int|
                        0 <= k < i ==> is_text_key((#[trigger] pairs@[k]).0, m@[k].0@) && is_lua_of(
                            m@[k].1,
                            pairs@[k].1,
                        ),
                decreases m.len() - i,
            {
                assert(decreases_to!(*j => j->Obj_0));
                assert(decreases_to!(j->Obj_0 => j->Obj_0@));
                assert(decreases_to!(m@ => m@[i as int]));
                assert(decreases_to!(m@[i as int] => m@[i as int].1));
                let value = make_lua(&m[i].1);
                pairs.push((LuaKey::Str(m[i].0.clone()), value));
                i += 1;
            }
            LuaValue::Table(LuaTable { len: 0, pairs })
        },
    }
}

} // verus!
