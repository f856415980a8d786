//! A JSON document model for protocol messages, with its mathematical view.
use vstd::prelude::*;

verus! {

/// A JSON value as exchanged with the server.
///
/// Integers that fit in an `i64` are held as `Int`; every other JSON number is
/// held as `Number`, by its JSON text.  An `Object` holds its members in order;
/// those built from maps name each key once, while a message read from JSON
/// text keeps its own members as written, a repeated name included.
#[derive(Debug)]
pub enum JsonValue {
    Null,
    Bool(bool),
    Int(i64),
    Number(String),
    Str(String),
    Array(Vec<JsonValue>),
    Object(Vec<(String, JsonValue)>),
}

/// Mathematical view of a [`JsonValue`].
pub enum Json {
    Null,
    Bool(bool),
    Int(int),
    Number(Seq<char>),
    Str(Seq<char>),
    Array(Seq<Json>),
    Object(Seq<(Seq<char>, Json)>),
}

impl JsonValue {
    /// The mathematical value of this JSON value.
    pub open spec fn view(&self) -> Json
        decreases self,
    {
        match self {
            JsonValue::Null => Json::Null,
            JsonValue::Bool(b) => Json::Bool(*b),
            JsonValue::Int(i) => Json::Int(*i as int),
            JsonValue::Number(t) => Json::Number(t@),
            JsonValue::Str(s) => Json::Str(s@),
            JsonValue::Array(items) => Json::Array(view_items(items@)),
            JsonValue::Object(fields) => Json::Object(view_fields(fields@)),
        }
    }
}

/// Views of a sequence of values.
pub open spec fn view_items(items: Seq<JsonValue>) -> Seq<Json>
    decreases items,
{
    if items.len() == 0 {
        Seq::empty()
    } else {
        seq![items[0].view()] + view_items(items.subrange(1, items.len() as int))
    }
}

/// Views of a sequence of object members.
pub open spec fn view_fields(fields: Seq<(String, JsonValue)>) -> Seq<(Seq<char>, Json)>
    decreases fields,
{
    if fields.len() == 0 {
        Seq::empty()
    } else {
        seq![(fields[0].0@, fields[0].1.view())] + view_fields(
            fields.subrange(1, fields.len() as int),
        )
    }
}

/// The first member of `fields` named `key`, if any.
pub open spec fn lookup(fields: Seq<(Seq<char>, Json)>, key: Seq<char>) -> Option<Json>
    decreases fields.len(),
{
    if fields.len() == 0 {
        None
    } else if fields[0].0 == key {
        Some(fields[0].1)
    } else {
        lookup(fields.drop_first(), key)
    }
}

/// `Value::get` with a string key: the member named `key` of an object, and
/// nothing for any other kind of value.
pub open spec fn get(j: Json, key: Seq<char>) -> Option<Json> {
    match j {
        Json::Object(fields) => lookup(fields, key),
        _ => None,
    }
}

/// `Value::as_str` on an optional value.
pub open spec fn as_str(j: Option<Json>) -> Option<Seq<char>> {
    match j {
        Some(Json::Str(s)) => Some(s),
        _ => None,
    }
}

/// `Value::as_i64` on an optional value.
pub open spec fn as_i64(j: Option<Json>) -> Option<int> {
    match j {
        Some(Json::Int(i)) => Some(i),
        _ => None,
    }
}

/// `Value::as_bool` on an optional value.
pub open spec fn as_bool(j: Option<Json>) -> Option<bool> {
    match j {
        Some(Json::Bool(b)) => Some(b),
        _ => None,
    }
}

/// The string field `key` of `j`, as `.get(key).and_then(|v| v.as_str())` finds it.
pub open spec fn str_field(j: Json, key: Seq<char>) -> Option<Seq<char>> {
    as_str(get(j, key))
}

/// Keys of a sequence of members.
pub open spec fn keys_of(fields: Seq<(Seq<char>, Json)>) -> Seq<Seq<char>> {
    fields.map_values(|f: (Seq<char>, Json)| f.0)
}

/// A view of a string member.
pub open spec fn member(key: Seq<char>, value: Json) -> (Seq<char>, Json) {
    (key, value)
}

/// The view of an optional string as JSON (`json!(Option<String>)`).
pub open spec fn opt_str(s: Option<Seq<char>>) -> Json {
    match s {
        Some(t) => Json::Str(t),
        None => Json::Null,
    }
}

/// View of a list of strings as a JSON array.
pub open spec fn str_array(items: Seq<Seq<char>>) -> Json {
    Json::Array(items.map_values(|s: Seq<char>| Json::Str(s)))
}

/// Strings of a vector, as a sequence of views.
pub open spec fn views_of(items: Seq<String>) -> Seq<Seq<char>> {
    items.map_values(|s: String| s@)
}

pub proof fn lemma_view_items_push(items: Seq<JsonValue>, v: JsonValue)
    ensures
        view_items(items.push(v)) == view_items(items).push(v.view()),
    decreases items.len(),
{
    let p = items.push(v);
    if items.len() == 0 {
        assert(p.subrange(1, p.len() as int) =~= Seq::<JsonValue>::empty());
        assert(view_items(Seq::<JsonValue>::empty()) == Seq::<Json>::empty());
        assert(view_items(p) =~= seq![v.view()]);
    } else {
        let rest = items.subrange(1, items.len() as int);
        lemma_view_items_push(rest, v);
        assert(p.subrange(1, p.len() as int) =~= rest.push(v));
        assert(view_items(p) =~= view_items(items).push(v.view()));
    }
}

pub proof fn lemma_view_fields_push(fields: Seq<(String, JsonValue)>, f: (String, JsonValue))
    ensures
        view_fields(fields.push(f)) == view_fields(fields).push((f.0@, f.1.view())),
    decreases fields.len(),
{
    let p = fields.push(f);
    if fields.len() == 0 {
        assert(p.subrange(1, p.len() as int) =~= Seq::<(String, JsonValue)>::empty());
        assert(view_fields(Seq::<(String, JsonValue)>::empty()) == Seq::<(Seq<char>, Json)>::empty());
        assert(view_fields(p) =~= seq![(f.0@, f.1.view())]);
    } else {
        let rest = fields.subrange(1, fields.len() as int);
        lemma_view_fields_push(rest, f);
        assert(p.subrange(1, p.len() as int) =~= rest.push(f));
        assert(view_fields(p) =~= view_fields(fields).push((f.0@, f.1.view())));
    }
}

pub proof fn lemma_view_fields_len(fields: Seq<(String, JsonValue)>)
    ensures
        view_fields(fields).len() == fields.len(),
        forall|i: int|
            0 <= i < fields.len() ==> #[trigger] view_fields(fields)[i] == (
            fields[i].0@,
            fields[i].1.view(),
        ),
    decreases fields.len(),
{
    if fields.len() > 0 {
        let rest = fields.subrange(1, fields.len() as int);
        lemma_view_fields_len(rest);
        assert forall|i: int| 0 <= i < fields.len() implies #[trigger] view_fields(fields)[i] == (
            fields[i].0@,
            fields[i].1.view(),
        ) by {
            if i > 0 {
                assert(view_fields(fields)[i] == view_fields(rest)[i - 1]);
            }
        }
    }
}

pub proof fn lemma_view_items_len(items: Seq<JsonValue>)
    ensures
        view_items(items).len() == items.len(),
        forall|i: int| 0 <= i < items.len() ==> #[trigger] view_items(items)[i] == items[i].view(),
    decreases items.len(),
{
    if items.len() > 0 {
        let rest = items.subrange(1, items.len() as int);
        lemma_view_items_len(rest);
        assert forall|i: int| 0 <= i < items.len() implies #[trigger] view_items(items)[i]
            == items[i].view() by {
            if i > 0 {
                assert(view_items(items)[i] == view_items(rest)[i - 1]);
            }
        }
    }
}

/// No key occurs twice among `fields` (as in a map).
pub open spec fn distinct_keys(fields: Seq<(Seq<char>, Json)>) -> bool {
    forall|i: int, j: int| 0 <= i < j < fields.len() ==> #[trigger] fields[i].0 != #[trigger] fields[j].0
}

/// Keeping some members keeps the keys distinct, and keeps only members
/// that were there.
pub proof fn lemma_filter_distinct_keys(
    fields: Seq<(Seq<char>, Json)>,
    keep: spec_fn((Seq<char>, Json)) -> bool,
)
    requires
        distinct_keys(fields),
    ensures
        distinct_keys(fields.filter(keep)),
        forall|i: int|
            0 <= i < fields.filter(keep).len() ==> exists|k: int|
                0 <= k < fields.len() && #[trigger] fields.filter(keep)[i] == fields[k],
    decreases fields.len(),
{
    reveal_with_fuel(Seq::<_>::filter, 1);
    if fields.len() > 0 {
        let t = fields.drop_last();
        assert(distinct_keys(t)) by {
            assert forall|i: int, j: int| 0 <= i < j < t.len() implies #[trigger] t[i].0
                != #[trigger] t[j].0 by {
                assert(t[i] == fields[i] && t[j] == fields[j]);
            }
        }
        lemma_filter_distinct_keys(t, keep);
        let f = t.filter(keep);
        let last = fields.last();
        let out = fields.filter(keep);
        if keep(last) {
            assert(out == f.push(last));
            assert forall|i: int| 0 <= i < out.len() implies exists|k: int|
                0 <= k < fields.len() && #[trigger] out[i] == fields[k] by {
                if i < f.len() {
                    let k = choose|k: int| 0 <= k < t.len() && f[i] == t[k];
                    assert(out[i] == fields[k]);
                } else {
                    assert(out[i] == fields[fields.len() - 1]);
                }
            }
            assert forall|i: int, j: int| 0 <= i < j < out.len() implies #[trigger] out[i].0
                != #[trigger] out[j].0 by {
                if j < f.len() {
                    assert(out[i] == f[i] && out[j] == f[j]);
                } else {
                    let k = choose|k: int| 0 <= k < t.len() && f[i] == t[k];
                    assert(out[i] == fields[k]);
                    assert(out[j] == fields[fields.len() - 1]);
                }
            }
        } else {
            assert(out == f);
            assert forall|i: int| 0 <= i < out.len() implies exists|k: int|
                0 <= k < fields.len() && #[trigger] out[i] == fields[k] by {
                let k = choose|k: int| 0 <= k < t.len() && f[i] == t[k];
                assert(out[i] == fields[k]);
            }
        }
    }
}

/// Members built from pairs with distinct names have distinct keys.
pub proof fn string_pairs_keys_distinct(pairs: Seq<(String, String)>)
    requires
        forall|i: int, j: int| 0 <= i < j < pairs.len() ==> #[trigger] pairs[i].0@ != #[trigger] pairs[j].0@,
    ensures
        distinct_keys(string_pairs_members(pairs)),
{
    let m = string_pairs_members(pairs);
    assert forall|i: int, j: int| 0 <= i < j < m.len() implies #[trigger] m[i].0 != #[trigger] m[j].0 by {
        assert(m[i].0 == pairs[i].0@ && m[j].0 == pairs[j].0@);
    }
}

/// The view of members with distinct names has distinct keys.
pub proof fn view_fields_keys_distinct(fields: Seq<(String, JsonValue)>)
    requires
        forall|i: int, j: int| 0 <= i < j < fields.len() ==> #[trigger] fields[i].0@ != #[trigger] fields[j].0@,
    ensures
        distinct_keys(view_fields(fields)),
{
    lemma_view_fields_len(fields);
    let m = view_fields(fields);
    assert forall|i: int, j: int| 0 <= i < j < m.len() implies #[trigger] m[i].0 != #[trigger] m[j].0 by {
        assert(m[i].0 == fields[i].0@ && m[j].0 == fields[j].0@);
    }
}

/// Looking a key up in members written one after the other: the first part
/// answers when it has the key, else the second.
pub broadcast proof fn lemma_lookup_append(a: Seq<(Seq<char>, Json)>, b: Seq<(Seq<char>, Json)>, key: Seq<char>)
    ensures
        #[trigger] lookup(a + b, key) == (match lookup(a, key) {
            Some(v) => Some(v),
            None => lookup(b, key),
        }),
    decreases a.len(),
{
    if a.len() == 0 {
        assert(a + b =~= b);
    } else {
        assert((a + b).drop_first() =~= a.drop_first() + b);
        assert((a + b)[0] == a[0]);
        lemma_lookup_append(a.drop_first(), b, key);
    }
}

/// Looking a key up in a single member.
pub broadcast proof fn lemma_lookup_single(k: Seq<char>, v: Json, key: Seq<char>)
    ensures
        #[trigger] lookup(seq![(k, v)], key) == (if k == key {
            Some(v)
        } else {
            None
        }),
{
    let s = seq![(k, v)];
    assert(s.drop_first() =~= Seq::<(Seq<char>, Json)>::empty());
    assert(s[0] == (k, v));
    assert(lookup(s.drop_first(), key) is None);
}

/// Looking a key up in no member.
pub broadcast proof fn lemma_lookup_empty(key: Seq<char>)
    ensures
        #[trigger] lookup(Seq::<(Seq<char>, Json)>::empty(), key) is None,
{
}

/// A member whose key occurs nowhere else is the one `lookup` finds.
pub proof fn lemma_lookup_unique(fields: Seq<(Seq<char>, Json)>, i: int)
    requires
        0 <= i < fields.len(),
        forall|j: int| 0 <= j < i ==> fields[j].0 != fields[i].0,
    ensures
        lookup(fields, fields[i].0) == Some(fields[i].1),
    decreases i,
{
    if i > 0 {
        lemma_lookup_unique(fields.drop_first(), i - 1);
    }
}

/// A key that no member has is not found.
pub proof fn lemma_lookup_absent(fields: Seq<(Seq<char>, Json)>, key: Seq<char>)
    requires
        forall|j: int| 0 <= j < fields.len() ==> fields[j].0 != key,
    ensures
        lookup(fields, key) is None,
    decreases fields.len(),
{
    if fields.len() > 0 {
        lemma_lookup_absent(fields.drop_first(), key);
    }
}

// ---------------------------------------------------------------------------
// Executable operations
// ---------------------------------------------------------------------------

/// A string value made from a literal.
pub fn json_str(s: &str) -> (r: JsonValue)
    ensures
        r@ == Json::Str(s@),
{
    JsonValue::Str(String::from_str(s))
}

/// A string value.
pub fn json_string(s: &String) -> (r: JsonValue)
    ensures
        r@ == Json::Str(s@),
{
    JsonValue::Str(s.clone())
}

/// An array of strings (`json!(Vec<String>)`).
pub fn json_str_array(items: &Vec<String>) -> (r: JsonValue)
    ensures
        r@ == str_array(views_of(items@)),
{
    let mut out: Vec<JsonValue> = Vec::new();
    let mut i: usize = 0;
    while i < items.len()
        invariant
            i <= items@.len(),
            view_items(out@) == views_of(items@.take(i as int)).map_values(
                |s: Seq<char>| Json::Str(s),
            ),
        decreases items.len() - i,
    {
        let v = json_string(&items[i]);
        proof {
            lemma_view_items_push(out@, v);
        }
        out.push(v);
        i = i + 1;
        assert(views_of(items@.take(i as int)).map_values(|s: Seq<char>| Json::Str(s)) =~= views_of(
            items@.take(i - 1),
        ).map_values(|s: Seq<char>| Json::Str(s)).push(Json::Str(items@[i - 1]@)));
    }
    assert(items@.take(items@.len() as int) =~= items@);
    JsonValue::Array(out)
}

/// An empty list of object members.
pub fn no_members() -> (r: Vec<(String, JsonValue)>)
    ensures
        view_fields(r@) == Seq::<(Seq<char>, Json)>::empty(),
        r@.len() == 0,
{
    let r: Vec<(String, JsonValue)> = Vec::new();
    assert(view_fields(r@) =~= Seq::<(Seq<char>, Json)>::empty());
    r
}

/// Appends the member `key: value` to an object's members.
pub fn push_member(fields: &mut Vec<(String, JsonValue)>, key: &str, value: JsonValue)
    ensures
        view_fields(final(fields)@) == view_fields(old(fields)@).push((key@, value@)),
{
    let k = String::from_str(key);
    proof {
        lemma_view_fields_push(old(fields)@, (k, value));
    }
    fields.push((k, value));
}

impl JsonValue {
    /// A copy of this value with the same view.
    #[verifier::loop_isolation(false)]
    pub fn copy(&self) -> (r: JsonValue)
        ensures
            r@ == self@,
        decreases self,
    {
        match self {
            JsonValue::Null => JsonValue::Null,
            JsonValue::Bool(b) => JsonValue::Bool(*b),
            JsonValue::Int(i) => JsonValue::Int(*i),
            JsonValue::Number(t) => JsonValue::Number(t.clone()),
            JsonValue::Str(s) => JsonValue::Str(s.clone()),
            JsonValue::Array(items) => {
                let mut out: Vec<JsonValue> = Vec::new();
                let mut i: usize = 0;
                while i < items.len()
                    invariant
                        i <= items@.len(),
                        view_items(out@) == view_items(items@.take(i as int)),
                    decreases items.len() - i,
                {
                    assert(decreases_to!(*self => *items));
                    assert(decreases_to!(*items => items@));
                    assert(decreases_to!(items@ => items@[i as int]));
                    let v = items[i].copy();
                    proof {
                        lemma_view_items_push(out@, v);
                        lemma_view_items_push(items@.take(i as int), items@[i as int]);
                        assert(items@.take(i + 1) =~= items@.take(i as int).push(items@[i as int]));
                    }
                    out.push(v);
                    i = i + 1;
                }
                assert(items@.take(items@.len() as int) =~= items@);
                JsonValue::Array(out)
            },
            JsonValue::Object(fields) => {
                let mut out: Vec<(String, JsonValue)> = Vec::new();
                let mut i: usize = 0;
                while i < fields.len()
                    invariant
                        i <= fields@.len(),
                        view_fields(out@) == view_fields(fields@.take(i as int)),
                    decreases fields.len() - i,
                {
                    assert(decreases_to!(*self => *fields));
                    assert(decreases_to!(*fields => fields@));
                    assert(decreases_to!(fields@ => fields@[i as int]));
                    assert(decreases_to!(fields@[i as int] => fields@[i as int].1));
                    let v = fields[i].1.copy();
                    let k = fields[i].0.clone();
                    proof {
                        lemma_view_fields_push(out@, (k, v));
                        lemma_view_fields_push(fields@.take(i as int), fields@[i as int]);
                        assert(fields@.take(i + 1) =~= fields@.take(i as int).push(
                            fields@[i as int],
                        ));
                    }
                    out.push((k, v));
                    i = i + 1;
                }
                assert(fields@.take(fields@.len() as int) =~= fields@);
                JsonValue::Object(out)
            },
        }
    }

    /// `Value::get(key)`: the member named `key` of an object.
    #[verifier::loop_isolation(false)]
    pub fn get(&self, key: &str) -> (r: Option<&JsonValue>)
        ensures
            match r {
                Some(v) => get(self@, key@) == Some(v@),
                None => get(self@, key@) is None,
            },
    {
        match self {
            JsonValue::Object(fields) => {
                let ghost vf = view_fields(fields@);
                proof {
                    lemma_view_fields_len(fields@);
                    assert(vf.skip(0) =~= vf);
                }
                let k = String::from_str(key);
                let mut i: usize = 0;
                while i < fields.len()
                    invariant
                        i <= fields@.len(),
                        k@ == key@,
                        vf == view_fields(fields@),
                        vf.len() == fields@.len(),
                        forall|j: int|
                            0 <= j < fields@.len() ==> #[trigger] vf[j] == (
                                fields@[j].0@,
                                fields@[j].1.view(),
                            ),
                        lookup(vf, key@) == lookup(vf.skip(i as int), key@),
                    decreases fields.len() - i,
                {
                    if fields[i].0.eq(&k) {
                        assert(vf.skip(i as int)[0] == vf[i as int]);
                        return Some(&fields[i].1);
                    }
                    assert(vf.skip(i as int).drop_first() =~= vf.skip(i + 1));
                    i = i + 1;
                }
                assert(vf.skip(i as int).len() == 0);
                None
            },
            _ => None,
        }
    }

    /// `Value::as_str`.
    pub fn as_str(&self) -> (r: Option<&String>)
        ensures
            match r {
                Some(s) => as_str(Some(self@)) == Some(s@),
                None => as_str(Some(self@)) is None,
            },
    {
        match self {
            JsonValue::Str(s) => Some(s),
            _ => None,
        }
    }
}

/// `.get(key).and_then(|v| v.as_str())`, copied out.
pub fn get_str(j: &JsonValue, key: &str) -> (r: Option<String>)
    ensures
        match r {
            Some(s) => str_field(j@, key@) == Some(s@),
            None => str_field(j@, key@) is None,
        },
{
    match j.get(key) {
        Some(v) => match v.as_str() {
            Some(s) => Some(s.clone()),
            None => None,
        },
        None => None,
    }
}

/// `.get(key).and_then(|v| v.as_i64())`.
pub fn get_i64(j: &JsonValue, key: &str) -> (r: Option<i64>)
    ensures
        match as_i64(get(j@, key@)) {
            Some(i) => r == Some(i as i64),
            None => r is None,
        },
{
    match j.get(key) {
        Some(JsonValue::Int(i)) => Some(*i),
        _ => None,
    }
}

} // verus!

verus! {

impl Clone for JsonValue {
    fn clone(&self) -> (r: Self)
        ensures
            r@ == self@,
    {
        self.copy()
    }
}

} // verus!

verus! {

/// The member `key: v` when `v` is present, and nothing otherwise.
pub open spec fn opt_member(key: Seq<char>, v: Option<Json>) -> Seq<(Seq<char>, Json)> {
    match v {
        Some(x) => seq![(key, x)],
        None => Seq::empty(),
    }
}

/// An optional string as an optional JSON string.
pub open spec fn opt_str_json(s: Option<String>) -> Option<Json> {
    match s {
        Some(t) => Some(Json::Str(t@)),
        None => None,
    }
}

/// An optional value by its view.
pub open spec fn opt_json(v: Option<JsonValue>) -> Option<Json> {
    match v {
        Some(x) => Some(x@),
        None => None,
    }
}

/// String pairs as the members of an object (a string map in JSON).
pub open spec fn string_pairs_members(pairs: Seq<(String, String)>) -> Seq<(Seq<char>, Json)> {
    pairs.map_values(|kv: (String, String)| (kv.0@, Json::Str(kv.1@)))
}

/// Appends `key: value` when `value` is present.
pub fn push_opt_member(fields: &mut Vec<(String, JsonValue)>, key: &str, value: Option<JsonValue>)
    ensures
        view_fields(final(fields)@) == view_fields(old(fields)@) + opt_member(
            key@,
            opt_json(value),
        ),
{
    match value {
        Some(v) => {
            push_member(fields, key, v);
            assert(view_fields(fields@) =~= view_fields(old(fields)@) + opt_member(
                key@,
                opt_json(value),
            ));
        },
        None => {
            assert(view_fields(fields@) =~= view_fields(old(fields)@) + opt_member(
                key@,
                opt_json(value),
            ));
        },
    }
}

/// Appends `key: "s"` when the string `s` is present.
pub fn push_opt_str(fields: &mut Vec<(String, JsonValue)>, key: &str, s: &Option<String>)
    ensures
        view_fields(final(fields)@) == view_fields(old(fields)@) + opt_member(
            key@,
            opt_str_json(*s),
        ),
{
    let v = match s {
        Some(t) => Some(json_string(t)),
        None => None,
    };
    push_opt_member(fields, key, v);
}

/// A list of string pairs as a JSON object.
pub fn string_pairs_json(pairs: &Vec<(String, String)>) -> (r: JsonValue)
    ensures
        r@ == Json::Object(string_pairs_members(pairs@)),
{
    let mut f = no_members();
    let mut i: usize = 0;
    while i < pairs.len()
        invariant
            i <= pairs@.len(),
            view_fields(f@) == string_pairs_members(pairs@.take(i as int)),
        decreases pairs.len() - i,
    {
        let k = pairs[i].0.clone();
        let v = json_string(&pairs[i].1);
        proof {
            lemma_view_fields_push(f@, (k, v));
        }
        f.push((k, v));
        i = i + 1;
        assert(string_pairs_members(pairs@.take(i as int)) =~= string_pairs_members(
            pairs@.take(i - 1),
        ).push((pairs@[i - 1].0@, Json::Str(pairs@[i - 1].1@))));
    }
    assert(pairs@.take(pairs@.len() as int) =~= pairs@);
    JsonValue::Object(f)
}

/// Copies of a list of values, as a JSON array.
pub fn values_json(items: &Vec<JsonValue>) -> (r: JsonValue)
    ensures
        r@ == Json::Array(view_items(items@)),
{
    let mut out: Vec<JsonValue> = Vec::new();
    let mut i: usize = 0;
    assert(view_items(out@) =~= Seq::<Json>::empty());
    while i < items.len()
        invariant
            i <= items@.len(),
            view_items(out@) == view_items(items@.take(i as int)),
        decreases items.len() - i,
    {
        let v = items[i].copy();
        proof {
            lemma_view_items_push(out@, v);
            lemma_view_items_push(items@.take(i as int), items@[i as int]);
            assert(items@.take(i + 1) =~= items@.take(i as int).push(items@[i as int]));
        }
        out.push(v);
        i = i + 1;
    }
    assert(items@.take(items@.len() as int) =~= items@);
    JsonValue::Array(out)
}

/// Copies of a list of members, as a JSON object.
pub fn members_json(fields: &Vec<(String, JsonValue)>) -> (r: JsonValue)
    ensures
        r@ == Json::Object(view_fields(fields@)),
{
    let mut out = no_members();
    let mut i: usize = 0;
    while i < fields.len()
        invariant
            i <= fields@.len(),
            view_fields(out@) == view_fields(fields@.take(i as int)),
        decreases fields.len() - i,
    {
        let k = fields[i].0.clone();
        let v = fields[i].1.copy();
        proof {
            lemma_view_fields_push(out@, (k, v));
            lemma_view_fields_push(fields@.take(i as int), fields@[i as int]);
            assert(fields@.take(i + 1) =~= fields@.take(i as int).push(fields@[i as int]));
        }
        out.push((k, v));
        i = i + 1;
    }
    assert(fields@.take(fields@.len() as int) =~= fields@);
    JsonValue::Object(out)
}

} // verus!
