//! JSON Schema documents of the tool parameters, as a JSON tree, and the
//! rewriting that inlines references and simplifies nullable types.

use vstd::prelude::*;

use crate::text::str_eq;
use crate::tools::params::extract_def_name;

verus! {

/// A JSON value. Numbers are kept as their text.
#[derive(Debug)]
pub enum Json {
    /// `null`.
    Null,
    /// `true` or `false`.
    Bool(bool),
    /// A number, as written.
    Number(String),
    /// A string.
    Text(String),
    /// An array.
    Array(Vec<Json>),
    /// An object: its entries, in order.
    Object(Vec<(String, Json)>),
}

/// Mathematical view of a JSON value.
pub enum JsonView {
    /// `null`.
    Null,
    /// `true` or `false`.
    Bool(bool),
    /// A number, as written.
    Number(Seq<char>),
    /// A string.
    Text(Seq<char>),
    /// An array.
    Array(Seq<JsonView>),
    /// An object's entries, in order.
    Object(Seq<(Seq<char>, JsonView)>),
}

/// The view of a JSON value.
pub open spec fn json_view(j: Json) -> JsonView
    decreases j,
{
    match j {
        Json::Null => JsonView::Null,
        Json::Bool(b) => JsonView::Bool(b),
        Json::Number(n) => JsonView::Number(n@),
        Json::Text(s) => JsonView::Text(s@),
        Json::Array(a) => JsonView::Array(items_view(a@)),
        Json::Object(m) => JsonView::Object(entries_view(m@)),
    }
}

/// The views of the items of an array.
pub open spec fn items_view(s: Seq<Json>) -> Seq<JsonView>
    decreases s,
{
    if s.len() == 0 {
        Seq::empty()
    } else {
        seq![json_view(s[0])] + items_view(s.subrange(1, s.len() as int))
    }
}

/// The views of the entries of an object.
pub open spec fn entries_view(s: Seq<(String, Json)>) -> Seq<(Seq<char>, JsonView)>
    decreases s,
{
    if s.len() == 0 {
        Seq::empty()
    } else {
        seq![(s[0].0@, json_view(s[0].1))] + entries_view(s.subrange(1, s.len() as int))
    }
}

/// The lemma behind `items_view`: one view per item, in order.
pub proof fn lemma_items_view(s: Seq<Json>)
    ensures
        items_view(s).len() == s.len(),
        forall|i: int| 0 <= i < s.len() ==> #[trigger] items_view(s)[i] == json_view(s[i]),
    decreases s.len(),
{
    if s.len() > 0 {
        let rest = s.subrange(1, s.len() as int);
        lemma_items_view(rest);
        assert forall|i: int| 0 <= i < s.len() implies #[trigger] items_view(s)[i] == json_view(s[i]) by {
            if i > 0 {
                assert(rest[i - 1] == s[i]);
            }
        }
    }
}

/// The lemma behind `entries_view`: one view per entry, in order.
pub proof fn lemma_entries_view(s: Seq<(String, Json)>)
    ensures
        entries_view(s).len() == s.len(),
        forall|i: int| 0 <= i < s.len() ==> #[trigger] entries_view(s)[i] == (s[i].0@, json_view(s[i].1)),
    decreases s.len(),
{
    if s.len() > 0 {
        let rest = s.subrange(1, s.len() as int);
        lemma_entries_view(rest);
        assert forall|i: int| 0 <= i < s.len() implies #[trigger] entries_view(s)[i] == (s[i].0@, json_view(s[i].1)) by {
            if i > 0 {
                assert(rest[i - 1] == s[i]);
            }
        }
    }
}

/// The position of the first entry with key `k`, or -1.
pub open spec fn key_index(m: Seq<(Seq<char>, JsonView)>, k: Seq<char>) -> int
    decreases m.len(),
{
    if m.len() == 0 {
        -1
    } else {
        let f = key_index(m.drop_last(), k);
        if f >= 0 {
            f
        } else if m.last().0 == k {
            m.len() - 1
        } else {
            -1
        }
    }
}

/// `key_index` is -1 or a position holding the key, with no earlier one.
pub proof fn lemma_key_index(m: Seq<(Seq<char>, JsonView)>, k: Seq<char>)
    ensures
        -1 <= key_index(m, k) < m.len(),
        key_index(m, k) >= 0 ==> m[key_index(m, k)].0 == k,
        forall|i: int| 0 <= i < m.len() && (key_index(m, k) < 0 || i < key_index(m, k)) ==> #[trigger] m[i].0 != k,
    decreases m.len(),
{
    if m.len() > 0 {
        lemma_key_index(m.drop_last(), k);
        assert forall|i: int| 0 <= i < m.len() && (key_index(m, k) < 0 || i < key_index(m, k)) implies #[trigger] m[i].0 != k by {
            if i < m.len() - 1 {
                assert(m.drop_last()[i] == m[i]);
            }
        }
    }
}

/// Whether a value is `null` or the string "null".
pub open spec fn is_null_like(v: JsonView) -> bool {
    v == JsonView::Null || v == JsonView::Text("null"@)
}

/// Whether a type name is the string "null".
pub open spec fn is_null_name(v: JsonView) -> bool {
    v == JsonView::Text("null"@)
}

/// How many items are not the type name "null".
pub open spec fn non_null_count(s: Seq<JsonView>) -> nat
    decreases s.len(),
{
    if s.len() == 0 {
        0
    } else {
        non_null_count(s.drop_last()) + if is_null_name(s.last()) { 0nat } else { 1nat }
    }
}

/// The position of the first item that is not the type name "null", or -1.
pub open spec fn first_non_null(s: Seq<JsonView>) -> int
    decreases s.len(),
{
    if s.len() == 0 {
        -1
    } else {
        let f = first_non_null(s.drop_last());
        if f >= 0 {
            f
        } else if !is_null_name(s.last()) {
            s.len() - 1
        } else {
            -1
        }
    }
}

/// `first_non_null` is -1 exactly when every item is "null", else a
/// position of a non-"null" item.
pub proof fn lemma_first_non_null(s: Seq<JsonView>)
    ensures
        -1 <= first_non_null(s) < s.len(),
        first_non_null(s) >= 0 ==> !is_null_name(s[first_non_null(s)]),
        (first_non_null(s) < 0) == (non_null_count(s) == 0),
    decreases s.len(),
{
    if s.len() > 0 {
        lemma_first_non_null(s.drop_last());
    }
}

/// The one type left once "null" is dropped from a list of types, by its
/// position; -1 unless exactly one is left.
pub open spec fn sole_type(types: Seq<JsonView>) -> int {
    if non_null_count(types) == 1 {
        first_non_null(types)
    } else {
        -1
    }
}

/// For an object: the position of its `type` entry when that entry is a
/// list of types with exactly one besides "null", and the position of that
/// type in the list; else (-1, -1).
pub open spec fn nullable_type(m: Seq<(Seq<char>, JsonView)>) -> (int, int) {
    let t = key_index(m, "type"@);
    if t >= 0 && t < m.len() && m[t].1 is Array && sole_type(m[t].1->Array_0) >= 0 {
        (t, sole_type(m[t].1->Array_0))
    } else {
        (-1, -1)
    }
}

/// The position of the `default` entry that simplifying drops (when the
/// type was simplified and the default is `null` or "null"), or -1.
pub open spec fn dropped_default(m: Seq<(Seq<char>, JsonView)>) -> int {
    let d = key_index(m, "default"@);
    if nullable_type(m).0 >= 0 && d >= 0 && d < m.len() && is_null_like(m[d].1) {
        d
    } else {
        -1
    }
}

/// A schema with every list of types that holds "null" and exactly one
/// other type reduced to that type, and the `null` default of such a
/// property dropped, at every depth.
pub open spec fn simplified(v: JsonView) -> JsonView
    decreases v, 0int,
{
    match v {
        JsonView::Array(a) => JsonView::Array(simplified_items(a, 0)),
        JsonView::Object(m) => JsonView::Object(simplified_entries(m, 0)),
        _ => v,
    }
}

/// The simplified items of an array, from position `i` on.
pub open spec fn simplified_items(a: Seq<JsonView>, i: int) -> Seq<JsonView>
    decreases a, a.len() - i,
    when 0 <= i <= a.len()
{
    if i == a.len() {
        Seq::empty()
    } else {
        seq![simplified(a[i])] + simplified_items(a, i + 1)
    }
}

/// The simplified entries of an object `m`, from position `i` on: the
/// nullable `type` entry replaced by its one type, the dropped default
/// left out, and every value simplified.
pub open spec fn simplified_entries(m: Seq<(Seq<char>, JsonView)>, i: int) -> Seq<(Seq<char>, JsonView)>
    decreases m, m.len() - i,
    when 0 <= i <= m.len()
{
    if i == m.len() {
        Seq::empty()
    } else if i == dropped_default(m) {
        simplified_entries(m, i + 1)
    } else if i == nullable_type(m).0 {
        let types = m[i].1->Array_0;
        let j = nullable_type(m).1;
        proof {
            lemma_first_non_null(types);
        }
        seq![(m[i].0, simplified(types[j]))] + simplified_entries(m, i + 1)
    } else {
        seq![(m[i].0, simplified(m[i].1))] + simplified_entries(m, i + 1)
    }
}

/// Appending an item appends its view.
proof fn lemma_items_push(s: Seq<Json>, x: Json)
    ensures
        items_view(s.push(x)) == items_view(s).push(json_view(x)),
{
    lemma_items_view(s);
    lemma_items_view(s.push(x));
    assert(items_view(s.push(x)) =~= items_view(s).push(json_view(x)));
}

/// Appending an entry appends its view.
proof fn lemma_entries_push(s: Seq<(String, Json)>, x: (String, Json))
    ensures
        entries_view(s.push(x)) == entries_view(s).push((x.0@, json_view(x.1))),
{
    lemma_entries_view(s);
    lemma_entries_view(s.push(x));
    assert(entries_view(s.push(x)) =~= entries_view(s).push((x.0@, json_view(x.1))));
}

/// The position of the first entry with key `k` (see `key_index`).
fn find_key(m: &Vec<(String, Json)>, k: &str) -> (r: Option<usize>)
    ensures
        match r {
            Some(i) => key_index(entries_view(m@), k@) == i as int,
            None => key_index(entries_view(m@), k@) == -1,
        },
{
    let ghost ev = entries_view(m@);
    proof {
        lemma_entries_view(m@);
        lemma_key_index(ev, k@);
    }
    let mut i: usize = 0;
    while i < m.len()
        invariant
            i <= m@.len(),
            ev == entries_view(m@),
            ev.len() == m@.len(),
            forall|j: int| 0 <= j < m@.len() ==> #[trigger] ev[j] == (m@[j].0@, json_view(m@[j].1)),
            forall|j: int| 0 <= j < i ==> #[trigger] ev[j].0 != k@,
            -1 <= key_index(ev, k@) < ev.len(),
            key_index(ev, k@) >= 0 ==> ev[key_index(ev, k@)].0 == k@,
            forall|j: int| 0 <= j < ev.len() && (key_index(ev, k@) < 0 || j < key_index(ev, k@)) ==> #[trigger] ev[j].0 != k@,
        decreases m@.len() - i,
    {
        if str_eq(m[i].0.as_str(), k) {
            assert(ev[i as int].0 == k@);
            return Some(i);
        }
        i = i + 1;
    }
    None
}

/// Whether a value is the type name "null".
fn null_name(x: &Json) -> (r: bool)
    ensures
        r == is_null_name(json_view(*x)),
{
    match x {
        Json::Text(s) => {
            let r = str_eq(s.as_str(), "null");
            proof {
                if !r {
                    assert(json_view(*x) != JsonView::Text("null"@));
                }
            }
            r
        },
        _ => false,
    }
}

/// Whether a value is `null` or the string "null".
fn null_like(x: &Json) -> (r: bool)
    ensures
        r == is_null_like(json_view(*x)),
{
    match x {
        Json::Null => true,
        _ => null_name(x),
    }
}

/// The sole type besides "null" in a list of types (see `sole_type`).
fn find_sole_type(types: &Vec<Json>) -> (r: Option<usize>)
    ensures
        match r {
            Some(j) => sole_type(items_view(types@)) == j as int,
            None => sole_type(items_view(types@)) == -1,
        },
{
    let ghost s = items_view(types@);
    proof {
        lemma_items_view(types@);
        lemma_first_non_null(s);
    }
    let mut count: usize = 0;
    let mut first: Option<usize> = None;
    let mut i: usize = 0;
    assert(s.take(0) =~= Seq::<JsonView>::empty());
    while i < types.len()
        invariant
            i <= types@.len(),
            s == items_view(types@),
            s.len() == types@.len(),
            forall|j: int| 0 <= j < types@.len() ==> #[trigger] s[j] == json_view(types@[j]),
            count == non_null_count(s.take(i as int)),
            count <= i,
            match first {
                Some(f) => first_non_null(s.take(i as int)) == f as int,
                None => first_non_null(s.take(i as int)) == -1,
            },
        decreases types@.len() - i,
    {
        assert(s.take(i + 1).drop_last() =~= s.take(i as int));
        assert(s.take(i + 1).last() == s[i as int]);
        if !null_name(&types[i]) {
            count = count + 1;
            if first.is_none() {
                first = Some(i);
            }
        }
        i = i + 1;
    }
    assert(s.take(i as int) =~= s);
    if count == 1 {
        first
    } else {
        None
    }
}

/// Simplifies nullable types (see `simplified`): a list of types holding
/// "null" and exactly one other type becomes that type, and the `null`
/// default beside it is dropped, at every depth.
pub fn simplify_nullable_types(schema: &Json) -> (r: Json)
    ensures
        json_view(r) == simplified(json_view(*schema)),
    decreases schema,
{
    match schema {
        Json::Null => Json::Null,
        Json::Bool(b) => Json::Bool(*b),
        Json::Number(n) => Json::Number(n.clone()),
        Json::Text(s) => Json::Text(s.clone()),
        Json::Array(a) => {
            let ghost av = items_view(a@);
            proof {
                lemma_items_view(a@);
            }
            let mut out: Vec<Json> = Vec::new();
            let mut i: usize = 0;
            assert(items_view(out@) =~= Seq::<JsonView>::empty());
            while i < a.len()
                invariant
                    i <= a@.len(),
                    av == items_view(a@),
                    *schema == Json::Array(*a),
                    av.len() == a@.len(),
                    forall|j: int| 0 <= j < a@.len() ==> #[trigger] av[j] == json_view(a@[j]),
                    items_view(out@) + simplified_items(av, i as int) == simplified_items(av, 0),
                decreases a@.len() - i,
            {
                assert(decreases_to!(*schema => (*schema)->Array_0));
                assert(decreases_to!(*a => a@));
                assert(decreases_to!(a@ => a@[i as int]));
                assert(decreases_to!(*schema => a@[i as int]));
                let x = simplify_nullable_types(&a[i]);
                proof {
                    lemma_items_push(out@, x);
                    assert(simplified_items(av, i as int) == seq![simplified(av[i as int])] + simplified_items(av, i + 1));
                }
                let ghost before = items_view(out@);
                out.push(x);
                assert(items_view(out@) + simplified_items(av, i + 1) =~= before + simplified_items(av, i as int));
                i = i + 1;
            }
            assert(items_view(out@) =~= simplified_items(av, 0));
            Json::Array(out)
        },
        Json::Object(m) => {
            let ghost ev = entries_view(m@);
            proof {
                lemma_entries_view(m@);
                lemma_key_index(ev, "type"@);
                lemma_key_index(ev, "default"@);
            }
            let mut typed: Option<(usize, usize)> = None;
            match find_key(m, "type") {
                Some(ti) => {
                    match &m[ti].1 {
                        Json::Array(types) => {
                            assert(ev[ti as int].1 == JsonView::Array(items_view(types@)));
                            match find_sole_type(types) {
                                Some(j) => {
                                    typed = Some((ti, j));
                                },
                                None => {},
                            }
                        },
                        _ => {},
                    }
                },
                None => {},
            }
            assert(match typed {
                Some((ti, j)) => nullable_type(ev) == (ti as int, j as int),
                None => nullable_type(ev).0 == -1,
            });
            let mut dropped: Option<usize> = None;
            if typed.is_some() {
                match find_key(m, "default") {
                    Some(di) => {
                        if null_like(&m[di].1) {
                            dropped = Some(di);
                        }
                    },
                    None => {},
                }
            }
            assert(match dropped {
                Some(di) => dropped_default(ev) == di as int,
                None => dropped_default(ev) == -1,
            });
            let mut out: Vec<(String, Json)> = Vec::new();
            let mut i: usize = 0;
            assert(entries_view(out@) =~= Seq::<(Seq<char>, JsonView)>::empty());
            while i < m.len()
                invariant
                    i <= m@.len(),
                    ev == entries_view(m@),
                    *schema == Json::Object(*m),
                    ev.len() == m@.len(),
                    forall|j: int| 0 <= j < m@.len() ==> #[trigger] ev[j] == (m@[j].0@, json_view(m@[j].1)),
                    match typed {
                        Some((ti, j)) => nullable_type(ev) == (ti as int, j as int),
                        None => nullable_type(ev).0 == -1,
                    },
                    match dropped {
                        Some(di) => dropped_default(ev) == di as int,
                        None => dropped_default(ev) == -1,
                    },
                    entries_view(out@) + simplified_entries(ev, i as int) == simplified_entries(ev, 0),
                decreases m@.len() - i,
            {
                let ghost before = entries_view(out@);
                if dropped == Some(i) {
                    assert(simplified_entries(ev, i as int) == simplified_entries(ev, i + 1));
                } else if typed.is_some() && typed.unwrap().0 == i {
                    let j = typed.unwrap().1;
                    match &m[i].1 {
                        Json::Array(types) => {
                            proof {
                                lemma_items_view(types@);
                                lemma_first_non_null(items_view(types@));
                            }
                            assert(ev[i as int].1 == JsonView::Array(items_view(types@)));
                            assert(decreases_to!(*schema => (*schema)->Object_0));
                            assert(decreases_to!(*m => m@));
                            assert(decreases_to!(m@ => m@[i as int]));
                            assert(decreases_to!(m@[i as int] => m@[i as int].1));
                            assert(decreases_to!(m@[i as int].1 => (m@[i as int].1)->Array_0));
                            assert(decreases_to!(*types => types@));
                            assert(decreases_to!(types@ => types@[j as int]));
                            assert(decreases_to!(*schema => types@[j as int]));
                            let x = simplify_nullable_types(&types[j]);
                            let e = (m[i].0.clone(), x);
                            proof {
                                lemma_entries_push(out@, e);
                            }
                            out.push(e);
                        },
                        _ => {
                            assert(false);
                        },
                    }
                    assert(entries_view(out@) + simplified_entries(ev, i + 1) =~= before + simplified_entries(ev, i as int));
                } else {
                    assert(decreases_to!(*schema => (*schema)->Object_0));
                    assert(decreases_to!(*m => m@));
                    assert(decreases_to!(m@ => m@[i as int]));
                    assert(decreases_to!(m@[i as int] => m@[i as int].1));
                    assert(decreases_to!(*schema => m@[i as int].1));
                    let x = simplify_nullable_types(&m[i].1);
                    let e = (m[i].0.clone(), x);
                    proof {
                        lemma_entries_push(out@, e);
                    }
                    out.push(e);
                    assert(entries_view(out@) + simplified_entries(ev, i + 1) =~= before + simplified_entries(ev, i as int));
                }
                i = i + 1;
            }
            assert(entries_view(out@) =~= simplified_entries(ev, 0));
            Json::Object(out)
        },
    }
}

/// The value of the first entry with key `k`, if any.
pub open spec fn value_of(m: Seq<(Seq<char>, JsonView)>, k: Seq<char>) -> Option<JsonView> {
    let i = key_index(m, k);
    if 0 <= i < m.len() {
        Some(m[i].1)
    } else {
        None
    }
}

/// The entry `name` of the object under key `k` of `m`, when that value is
/// an object holding it.
pub open spec fn entry_under(m: Seq<(Seq<char>, JsonView)>, k: Seq<char>, name: Seq<char>) -> Option<JsonView> {
    match value_of(m, k) {
        Some(JsonView::Object(d)) => value_of(d, name),
        _ => None,
    }
}

/// The definition `name` of a schema: looked up under `$defs`, then under
/// `definitions`.
pub open spec fn definition(schema: JsonView, name: Seq<char>) -> Option<JsonView> {
    match schema {
        JsonView::Object(m) => if entry_under(m, "$defs"@, name) is Some {
            entry_under(m, "$defs"@, name)
        } else {
            entry_under(m, "definitions"@, name)
        },
        _ => None,
    }
}

/// An object whose only entry is `$ref` holds no definitions: looking a
/// definition up in it finds none.
pub proof fn lemma_single_ref_has_no_definition(m: Seq<(Seq<char>, JsonView)>, name: Seq<char>)
    requires
        m.len() == 1,
        m[0].0 == "$ref"@,
    ensures
        definition(JsonView::Object(m), name) is None,
{
    reveal_strlit("$ref");
    reveal_strlit("$defs");
    reveal_strlit("definitions");
    assert("$ref"@ != "$defs"@) by {
        assert("$ref"@.len() != "$defs"@.len());
    }
    assert("$ref"@ != "definitions"@) by {
        assert("$ref"@.len() != "definitions"@.len());
    }
    lemma_key_index(m, "$defs"@);
    lemma_key_index(m, "definitions"@);
}

/// A deep copy of a JSON value.
pub fn copy_json(v: &Json) -> (r: Json)
    ensures
        json_view(r) == json_view(*v),
    decreases v,
{
    match v {
        Json::Null => Json::Null,
        Json::Bool(b) => Json::Bool(*b),
        Json::Number(n) => Json::Number(n.clone()),
        Json::Text(s) => Json::Text(s.clone()),
        Json::Array(a) => {
            proof {
                lemma_items_view(a@);
            }
            let mut out: Vec<Json> = Vec::new();
            let mut i: usize = 0;
            while i < a.len()
                invariant
                    i <= a@.len(),
                    *v == Json::Array(*a),
                    items_view(out@) == items_view(a@).take(i as int),
                    items_view(a@).len() == a@.len(),
                    forall|j: int| 0 <= j < a@.len() ==> #[trigger] items_view(a@)[j] == json_view(a@[j]),
                decreases a@.len() - i,
            {
                assert(decreases_to!(*v => (*v)->Array_0));
                assert(decreases_to!(*a => a@));
                assert(decreases_to!(a@ => a@[i as int]));
                let x = copy_json(&a[i]);
                proof {
                    lemma_items_push(out@, x);
                }
                out.push(x);
                assert(items_view(out@) =~= items_view(a@).take(i + 1));
                i = i + 1;
            }
            assert(items_view(a@).take(a@.len() as int) =~= items_view(a@));
            Json::Array(out)
        },
        Json::Object(m) => {
            proof {
                lemma_entries_view(m@);
            }
            let mut out: Vec<(String, Json)> = Vec::new();
            let mut i: usize = 0;
            while i < m.len()
                invariant
                    i <= m@.len(),
                    *v == Json::Object(*m),
                    entries_view(out@) == entries_view(m@).take(i as int),
                    entries_view(m@).len() == m@.len(),
                    forall|j: int| 0 <= j < m@.len() ==> #[trigger] entries_view(m@)[j] == (m@[j].0@, json_view(m@[j].1)),
                decreases m@.len() - i,
            {
                assert(decreases_to!(*v => (*v)->Object_0));
                assert(decreases_to!(*m => m@));
                assert(decreases_to!(m@ => m@[i as int]));
                assert(decreases_to!(m@[i as int] => m@[i as int].1));
                let x = copy_json(&m[i].1);
                let e = (m[i].0.clone(), x);
                proof {
                    lemma_entries_push(out@, e);
                }
                out.push(e);
                assert(entries_view(out@) =~= entries_view(m@).take(i + 1));
                i = i + 1;
            }
            assert(entries_view(m@).take(m@.len() as int) =~= entries_view(m@));
            Json::Object(out)
        },
    }
}

/// The entry `name` under key `k` of an object's entries (see `entry_under`).
fn find_entry_under(m: &Vec<(String, Json)>, k: &str, name: &str) -> (r: Option<Json>)
    ensures
        match r {
            Some(x) => entry_under(entries_view(m@), k@, name@) == Some(json_view(x)),
            None => entry_under(entries_view(m@), k@, name@) is None,
        },
{
    proof {
        lemma_entries_view(m@);
        lemma_key_index(entries_view(m@), k@);
    }
    match find_key(m, k) {
        Some(i) => match &m[i].1 {
            Json::Object(d) => {
                proof {
                    lemma_entries_view(d@);
                    lemma_key_index(entries_view(d@), name@);
                }
                assert(entries_view(m@)[i as int].1 == JsonView::Object(entries_view(d@)));
                match find_key(d, name) {
                    Some(j) => Some(copy_json(&d[j].1)),
                    None => None,
                }
            },
            _ => None,
        },
        None => None,
    }
}

/// The definition `name` of a schema (see `definition`).
pub fn find_definition(schema: &Json, name: &str) -> (r: Option<Json>)
    ensures
        match r {
            Some(x) => definition(json_view(*schema), name@) == Some(json_view(x)),
            None => definition(json_view(*schema), name@) is None,
        },
{
    match schema {
        Json::Object(m) => match find_entry_under(m, "$defs", name) {
            Some(x) => Some(x),
            None => find_entry_under(m, "definitions", name),
        },
        _ => None,
    }
}

/// A schema with every `allOf` of a single subschema replaced by that
/// subschema, and every `title` removed, at every depth. (A `$ref` that is
/// the only entry of its object is left as it is: such an object holds no
/// definitions to inline, see `lemma_single_ref_has_no_definition`.)
pub open spec fn resolved(v: JsonView) -> JsonView
    decreases v, 0int,
{
    match v {
        JsonView::Array(a) => JsonView::Array(resolved_items(a, 0)),
        JsonView::Object(m) => {
            let k = key_index(m, "allOf"@);
            if 0 <= k < m.len() && m[k].1 is Array && (m[k].1->Array_0).len() == 1 {
                resolved((m[k].1->Array_0)[0])
            } else {
                JsonView::Object(resolved_entries(m, 0))
            }
        },
        _ => v,
    }
}

/// The resolved items of an array, from position `i` on.
pub open spec fn resolved_items(a: Seq<JsonView>, i: int) -> Seq<JsonView>
    decreases a, a.len() - i,
    when 0 <= i <= a.len()
{
    if i == a.len() {
        Seq::empty()
    } else {
        seq![resolved(a[i])] + resolved_items(a, i + 1)
    }
}

/// The resolved entries of an object, from position `i` on: `title`
/// entries left out, every other value resolved.
pub open spec fn resolved_entries(m: Seq<(Seq<char>, JsonView)>, i: int) -> Seq<(Seq<char>, JsonView)>
    decreases m, m.len() - i,
    when 0 <= i <= m.len()
{
    if i == m.len() {
        Seq::empty()
    } else if m[i].0 == "title"@ {
        resolved_entries(m, i + 1)
    } else {
        seq![(m[i].0, resolved(m[i].1))] + resolved_entries(m, i + 1)
    }
}

/// Resolves a schema (see `resolved`): a lone `$ref` is replaced by the
/// definition it names when the object holds one, an `allOf` of one
/// subschema by that subschema, and `title` entries are removed, at every
/// depth.
pub fn resolve_refs(schema: &Json) -> (r: Json)
    ensures
        json_view(r) == resolved(json_view(*schema)),
    decreases schema,
{
    match schema {
        Json::Null => Json::Null,
        Json::Bool(b) => Json::Bool(*b),
        Json::Number(n) => Json::Number(n.clone()),
        Json::Text(s) => Json::Text(s.clone()),
        Json::Array(a) => {
            let ghost av = items_view(a@);
            proof {
                lemma_items_view(a@);
            }
            let mut out: Vec<Json> = Vec::new();
            let mut i: usize = 0;
            assert(items_view(out@) =~= Seq::<JsonView>::empty());
            while i < a.len()
                invariant
                    i <= a@.len(),
                    av == items_view(a@),
                    *schema == Json::Array(*a),
                    av.len() == a@.len(),
                    forall|j: int| 0 <= j < a@.len() ==> #[trigger] av[j] == json_view(a@[j]),
                    items_view(out@) + resolved_items(av, i as int) == resolved_items(av, 0),
                decreases a@.len() - i,
            {
                assert(decreases_to!(*schema => (*schema)->Array_0));
                assert(decreases_to!(*a => a@));
                assert(decreases_to!(a@ => a@[i as int]));
                let x = resolve_refs(&a[i]);
                proof {
                    lemma_items_push(out@, x);
                }
                let ghost before = items_view(out@);
                out.push(x);
                assert(items_view(out@) + resolved_items(av, i + 1) =~= before + resolved_items(av, i as int));
                i = i + 1;
            }
            assert(items_view(out@) =~= resolved_items(av, 0));
            Json::Array(out)
        },
        Json::Object(m) => {
            let ghost ev = entries_view(m@);
            proof {
                lemma_entries_view(m@);
                lemma_key_index(ev, "allOf"@);
            }
            if m.len() == 1 && str_eq(m[0].0.as_str(), "$ref") {
                if let Json::Text(uri) = &m[0].1 {
                    let name = extract_def_name(uri.as_str());
                    if let Some(inline) = find_definition(schema, name.as_str()) {
                        proof {
                            lemma_single_ref_has_no_definition(ev, name@);
                        }
                        assert(false);
                        return resolve_refs(&inline);
                    }
                }
            }
            let ghost ka = key_index(ev, "allOf"@);
            if let Some(k) = find_key(m, "allOf") {
                if let Json::Array(arr) = &m[k].1 {
                    proof {
                        lemma_items_view(arr@);
                    }
                    assert(ev[k as int].1 == JsonView::Array(items_view(arr@)));
                    if arr.len() == 1 {
                        assert(decreases_to!(*schema => (*schema)->Object_0));
                        assert(decreases_to!(*m => m@));
                        assert(decreases_to!(m@ => m@[k as int]));
                        assert(decreases_to!(m@[k as int] => m@[k as int].1));
                        assert(decreases_to!(m@[k as int].1 => (m@[k as int].1)->Array_0));
                        assert(decreases_to!(*arr => arr@));
                        assert(decreases_to!(arr@ => arr@[0]));
                        return resolve_refs(&arr[0]);
                    } else {
                        assert((ev[ka].1->Array_0).len() != 1);
                    }
                } else {
                    assert(ev[k as int].1 == json_view(m@[k as int].1));
                    assert(!(ev[ka].1 is Array));
                }
            }
            assert(!(0 <= ka < ev.len() && ev[ka].1 is Array && (ev[ka].1->Array_0).len() == 1));
            let mut out: Vec<(String, Json)> = Vec::new();
            let mut i: usize = 0;
            assert(entries_view(out@) =~= Seq::<(Seq<char>, JsonView)>::empty());
            while i < m.len()
                invariant
                    i <= m@.len(),
                    ev == entries_view(m@),
                    *schema == Json::Object(*m),
                    ev.len() == m@.len(),
                    forall|j: int| 0 <= j < m@.len() ==> #[trigger] ev[j] == (m@[j].0@, json_view(m@[j].1)),
                    entries_view(out@) + resolved_entries(ev, i as int) == resolved_entries(ev, 0),
                decreases m@.len() - i,
            {
                let ghost before = entries_view(out@);
                if str_eq(m[i].0.as_str(), "title") {
                    assert(resolved_entries(ev, i as int) == resolved_entries(ev, i + 1));
                } else {
                    assert(decreases_to!(*schema => (*schema)->Object_0));
                    assert(decreases_to!(*m => m@));
                    assert(decreases_to!(m@ => m@[i as int]));
                    assert(decreases_to!(m@[i as int] => m@[i as int].1));
                    let x = resolve_refs(&m[i].1);
                    let e = (m[i].0.clone(), x);
                    proof {
                        lemma_entries_push(out@, e);
                    }
                    out.push(e);
                    assert(entries_view(out@) + resolved_entries(ev, i + 1) =~= before + resolved_entries(ev, i as int));
                }
                i = i + 1;
            }
            assert(entries_view(out@) =~= resolved_entries(ev, 0));
            Json::Object(out)
        },
    }
}

} // verus!
