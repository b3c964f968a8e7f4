//! The JSON documents that the protocol exchanges, and their mathematical model.
use vstd::prelude::*;
use vstd::string::*;

verus! {

/// A JSON document.
///
/// Integers that fit in `i64` are held as such; every other JSON number is
/// held by its decimal text. Object members keep their order.
#[derive(Debug, PartialEq)]
pub enum JsonValue {
    Null,
    Bool(bool),
    Int(i64),
    Number(String),
    Str(String),
    Array(Vec<JsonValue>),
    Object(Vec<Member>),
}

/// One `key: value` member of a JSON object.
#[derive(Debug, PartialEq)]
pub struct Member {
    pub key: String,
    pub value: JsonValue,
}

/// The mathematical model of a JSON document.
pub enum Json {
    Null,
    Bool(bool),
    Int(int),
    Number(Seq<char>),
    Str(Seq<char>),
    Array(Seq<Json>),
    Object(Seq<(Seq<char>, Json)>),
}

/// The model of a document.
pub open spec fn json_model(v: JsonValue) -> Json
    decreases v,
{
    match v {
        JsonValue::Null => Json::Null,
        JsonValue::Bool(b) => Json::Bool(b),
        JsonValue::Int(i) => Json::Int(i as int),
        JsonValue::Number(t) => Json::Number(t@),
        JsonValue::Str(s) => Json::Str(s@),
        JsonValue::Array(items) => {
            proof { broadcast use vstd::std_specs::vec::axiom_vec_decreases_to_view; }
            Json::Array(items_model(items@))
        },
        JsonValue::Object(members) => {
            proof { broadcast use vstd::std_specs::vec::axiom_vec_decreases_to_view; }
            Json::Object(members_model(members@))
        },
    }
}

/// The models of a sequence of documents.
pub open spec fn items_model(items: Seq<JsonValue>) -> Seq<Json>
    decreases items,
{
    if items.len() == 0 {
        Seq::empty()
    } else {
        items_model(items.drop_last()).push(json_model(items.last()))
    }
}

/// The models of a sequence of object members.
pub open spec fn members_model(members: Seq<Member>) -> Seq<(Seq<char>, Json)>
    decreases members,
{
    if members.len() == 0 {
        Seq::empty()
    } else {
        members_model(members.drop_last()).push(
            (members.last().key@, json_model(members.last().value)),
        )
    }
}

impl Clone for JsonValue {
    /// A deep copy.
    fn clone(&self) -> (r: JsonValue)
        ensures
            r@ == self@,
    {
        self.duplicate()
    }
}

impl View for JsonValue {
    type V = Json;

    open spec fn view(&self) -> Json {
        json_model(*self)
    }
}


/// The value of the first member named `key`, if any.
pub open spec fn lookup_from(members: Seq<(Seq<char>, Json)>, key: Seq<char>, i: int) -> Option<Json>
    decreases members.len() - i,
{
    if i < 0 || i >= members.len() {
        None
    } else if members[i].0 == key {
        Some(members[i].1)
    } else {
        lookup_from(members, key, i + 1)
    }
}

/// The value that an object holds under `key` (the first such member); `None`
/// for a document that is not an object.
pub open spec fn json_get(j: Json, key: Seq<char>) -> Option<Json> {
    match j {
        Json::Object(members) => lookup_from(members, key, 0),
        _ => None,
    }
}

/// The text of a string document.
pub open spec fn json_as_str(j: Option<Json>) -> Option<Seq<char>> {
    match j {
        Some(Json::Str(s)) => Some(s),
        _ => None,
    }
}

/// The text stored as a string under `key`.
pub open spec fn json_get_str(j: Json, key: Seq<char>) -> Option<Seq<char>> {
    json_as_str(json_get(j, key))
}

/// The document reached from `j` by following the object members named `keys`, in order.
pub open spec fn json_path(j: Json, keys: Seq<Seq<char>>) -> Option<Json>
    decreases keys.len(),
{
    if keys.len() == 0 {
        Some(j)
    } else {
        match json_get(j, keys[0]) {
            Some(next) => json_path(next, keys.drop_first()),
            None => None,
        }
    }
}

/// `items_model` maps each document to its model, keeping positions.
pub proof fn lemma_items_model(items: Seq<JsonValue>)
    ensures
        items_model(items).len() == items.len(),
        forall|i: int| 0 <= i < items.len() ==> #[trigger] items_model(items)[i] == json_model(items[i]),
    decreases items.len(),
{
    if items.len() > 0 {
        lemma_items_model(items.drop_last());
    }
}

/// `members_model` maps each member to its key text and value model, keeping positions.
pub proof fn lemma_members_model(members: Seq<Member>)
    ensures
        members_model(members).len() == members.len(),
        forall|i: int| 0 <= i < members.len() ==> #[trigger] members_model(members)[i] == (members[i].key@, json_model(members[i].value)),
    decreases members.len(),
{
    if members.len() > 0 {
        lemma_members_model(members.drop_last());
    }
}

impl Member {
    /// The member `key: value`.
    pub fn new(key: &str, value: JsonValue) -> (m: Member)
        ensures
            m.key@ == key@,
            m.value == value,
    {
        Member { key: String::from_str(key), value }
    }
}

/// An object document made of `members`, in order.
pub fn object(members: Vec<Member>) -> (r: JsonValue)
    ensures
        r@ == Json::Object(members_model(members@)),
        members_model(members@).len() == members@.len(),
        forall|i: int| 0 <= i < members@.len() ==> #[trigger] members_model(members@)[i] == (members@[i].key@, json_model(members@[i].value)),
{
    proof { lemma_members_model(members@); }
    JsonValue::Object(members)
}

/// The empty object.
pub fn object0() -> (r: JsonValue)
    ensures
        r@ == Json::Object(Seq::empty()),
{
    let ms: Vec<Member> = Vec::new();
    proof { lemma_members_model(ms@); }
    let r = object(ms);
    assert(members_model(ms@) =~= Seq::empty());
    r
}

/// The object `{k1: v1}`.
pub fn object1(k1: &str, v1: JsonValue) -> (r: JsonValue)
    ensures
        r@ == Json::Object(seq![(k1@, v1@)]),
{
    let ghost m1 = v1@;
    let ms = vec![Member::new(k1, v1)];
    let r = object(ms);
    assert(members_model(ms@) =~= seq![(k1@, m1)]);
    r
}

/// The object `{k1: v1, k2: v2}`.
pub fn object2(k1: &str, v1: JsonValue, k2: &str, v2: JsonValue) -> (r: JsonValue)
    ensures
        r@ == Json::Object(seq![(k1@, v1@), (k2@, v2@)]),
{
    let ghost (m1, m2) = (v1@, v2@);
    let ms = vec![Member::new(k1, v1), Member::new(k2, v2)];
    let r = object(ms);
    assert(members_model(ms@) =~= seq![(k1@, m1), (k2@, m2)]);
    r
}

/// The object `{k1: v1, k2: v2, k3: v3}`.
pub fn object3(k1: &str, v1: JsonValue, k2: &str, v2: JsonValue, k3: &str, v3: JsonValue) -> (r: JsonValue)
    ensures
        r@ == Json::Object(seq![(k1@, v1@), (k2@, v2@), (k3@, v3@)]),
{
    let ghost (m1, m2, m3) = (v1@, v2@, v3@);
    let ms = vec![Member::new(k1, v1), Member::new(k2, v2), Member::new(k3, v3)];
    let r = object(ms);
    assert(members_model(ms@) =~= seq![(k1@, m1), (k2@, m2), (k3@, m3)]);
    r
}

/// The object `{k1: v1, k2: v2, k3: v3, k4: v4}`.
pub fn object4(
    k1: &str,
    v1: JsonValue,
    k2: &str,
    v2: JsonValue,
    k3: &str,
    v3: JsonValue,
    k4: &str,
    v4: JsonValue,
) -> (r: JsonValue)
    ensures
        r@ == Json::Object(seq![(k1@, v1@), (k2@, v2@), (k3@, v3@), (k4@, v4@)]),
{
    let ghost (m1, m2, m3, m4) = (v1@, v2@, v3@, v4@);
    let ms = vec![Member::new(k1, v1), Member::new(k2, v2), Member::new(k3, v3), Member::new(k4, v4)];
    let r = object(ms);
    assert(members_model(ms@) =~= seq![(k1@, m1), (k2@, m2), (k3@, m3), (k4@, m4)]);
    r
}

/// The object `{k1: v1, k2: v2, k3: v3, k4: v4, k5: v5}`.
pub fn object5(
    k1: &str,
    v1: JsonValue,
    k2: &str,
    v2: JsonValue,
    k3: &str,
    v3: JsonValue,
    k4: &str,
    v4: JsonValue,
    k5: &str,
    v5: JsonValue,
) -> (r: JsonValue)
    ensures
        r@ == Json::Object(seq![(k1@, v1@), (k2@, v2@), (k3@, v3@), (k4@, v4@), (k5@, v5@)]),
{
    let ghost (m1, m2, m3, m4, m5) = (v1@, v2@, v3@, v4@, v5@);
    let ms = vec![
        Member::new(k1, v1),
        Member::new(k2, v2),
        Member::new(k3, v3),
        Member::new(k4, v4),
        Member::new(k5, v5),
    ];
    let r = object(ms);
    assert(members_model(ms@) =~= seq![(k1@, m1), (k2@, m2), (k3@, m3), (k4@, m4), (k5@, m5)]);
    r
}

/// The value of the first of `members` named `key`, if any.
pub fn lookup_member<'a>(members: &'a Vec<Member>, key: &str) -> (r: Option<&'a JsonValue>)
    ensures
        match r {
            Some(v) => lookup_from(members_model(members@), key@, 0) == Some(v@),
            None => lookup_from(members_model(members@), key@, 0) is None,
        },
{
    proof { lemma_members_model(members@); }
    let ghost ms = members_model(members@);
    let n = members.len();
    let mut i: usize = 0;
    while i < n
        invariant
            n == members.len(),
            0 <= i <= n,
            ms == members_model(members@),
            ms.len() == n,
            forall|j: int| 0 <= j < n ==> #[trigger] ms[j] == (members@[j].key@, json_model(members@[j].value)),
            lookup_from(ms, key@, 0) == lookup_from(ms, key@, i as int),
        decreases n - i,
    {
        if crate::text::str_eq(members[i].key.as_str(), key) {
            return Some(&members[i].value);
        }
        i = i + 1;
    }
    None
}

/// The array of `items`, in order.
pub fn array_of(items: Vec<JsonValue>) -> (r: JsonValue)
    ensures
        r@ == Json::Array(items@.map_values(|v: JsonValue| v@)),
{
    proof {
        lemma_items_model(items@);
        assert(items_model(items@) =~= items@.map_values(|v: JsonValue| v@));
    }
    JsonValue::Array(items)
}

/// The array `[v1, v2]`.
pub fn array2(v1: JsonValue, v2: JsonValue) -> (r: JsonValue)
    ensures
        r@ == Json::Array(seq![v1@, v2@]),
{
    let ghost (m1, m2) = (v1@, v2@);
    let items = vec![v1, v2];
    proof {
        lemma_items_model(items@);
        assert(items_model(items@) =~= seq![m1, m2]);
    }
    JsonValue::Array(items)
}

/// The array `[v1, v2, v3]`.
pub fn array3(v1: JsonValue, v2: JsonValue, v3: JsonValue) -> (r: JsonValue)
    ensures
        r@ == Json::Array(seq![v1@, v2@, v3@]),
{
    let ghost (m1, m2, m3) = (v1@, v2@, v3@);
    let items = vec![v1, v2, v3];
    proof {
        lemma_items_model(items@);
        assert(items_model(items@) =~= seq![m1, m2, m3]);
    }
    JsonValue::Array(items)
}

/// The array `[v1, v2, v3, v4]`.
pub fn array4(v1: JsonValue, v2: JsonValue, v3: JsonValue, v4: JsonValue) -> (r: JsonValue)
    ensures
        r@ == Json::Array(seq![v1@, v2@, v3@, v4@]),
{
    let ghost (m1, m2, m3, m4) = (v1@, v2@, v3@, v4@);
    let items = vec![v1, v2, v3, v4];
    proof {
        lemma_items_model(items@);
        assert(items_model(items@) =~= seq![m1, m2, m3, m4]);
    }
    JsonValue::Array(items)
}

impl JsonValue {
    /// A string document holding `s`.
    pub fn string(s: &str) -> (r: JsonValue)
        ensures
            r@ == Json::Str(s@),
    {
        JsonValue::Str(String::from_str(s))
    }

    /// A deep copy.
    pub fn duplicate(&self) -> (r: JsonValue)
        ensures
            r@ == self@,
        decreases self,
    {
        broadcast use vstd::std_specs::vec::group_vec_axioms;
        match self {
            JsonValue::Null => JsonValue::Null,
            JsonValue::Bool(b) => JsonValue::Bool(*b),
            JsonValue::Int(i) => JsonValue::Int(*i),
            JsonValue::Number(t) => JsonValue::Number(t.clone()),
            JsonValue::Str(s) => JsonValue::Str(s.clone()),
            JsonValue::Array(items) => {
                let mut out: Vec<JsonValue> = Vec::new();
                let n = items.len();
                for i in 0..n
                    invariant
                        n == items.len(),
                        *self == JsonValue::Array(*items),
                        out.len() == i,
                        forall|j: int| 0 <= j < i ==> json_model(#[trigger] out@[j]) == json_model(items@[j]),
                {
                    proof {
                        assert(decreases_to!(*self => self->Array_0));
                        assert(decreases_to!(*items => items[i as int]));
                        assert(decreases_to!(*self => items[i as int]));
                    }
                    let d = items[i].duplicate();
                    out.push(d);
                }
                proof {
                    lemma_items_model(out@);
                    lemma_items_model(items@);
                    assert(items_model(out@) =~= items_model(items@));
                }
                JsonValue::Array(out)
            },
            JsonValue::Object(members) => {
                let mut out: Vec<Member> = Vec::new();
                let n = members.len();
                for i in 0..n
                    invariant
                        n == members.len(),
                        *self == JsonValue::Object(*members),
                        out.len() == i,
                        forall|j: int| 0 <= j < i ==> (#[trigger] out@[j]).key@ == members@[j].key@
                            && json_model(out@[j].value) == json_model(members@[j].value),
                {
                    proof {
                        assert(decreases_to!(*self => self->Object_0));
                        assert(decreases_to!(*members => members[i as int]));
                        assert(decreases_to!(members[i as int] => members[i as int].value));
                        assert(decreases_to!(*self => members[i as int].value));
                    }
                    let m = Member { key: members[i].key.clone(), value: members[i].value.duplicate() };
                    out.push(m);
                }
                proof {
                    lemma_members_model(out@);
                    lemma_members_model(members@);
                    assert(members_model(out@) =~= members_model(members@));
                }
                JsonValue::Object(out)
            },
        }
    }

    /// The value of the first member named `key`, if this is an object that has one.
    pub fn get(&self, key: &str) -> (r: Option<&JsonValue>)
        ensures
            match r {
                Some(v) => json_get(self@, key@) == Some(v@),
                None => json_get(self@, key@) is None,
            },
    {
        match self {
            JsonValue::Object(members) => lookup_member(members, key),
            _ => None,
        }
    }

    /// The text, if this is a string document.
    pub fn as_str(&self) -> (r: Option<&str>)
        ensures
            match r {
                Some(s) => self@ == Json::Str(s@),
                None => !(self@ is Str),
            },
    {
        match self {
            JsonValue::Str(s) => Some(s.as_str()),
            _ => None,
        }
    }

    /// The members, if this is an object.
    pub fn as_object(&self) -> (r: Option<&Vec<Member>>)
        ensures
            match r {
                Some(ms) => self@ == Json::Object(members_model(ms@)),
                None => !(self@ is Object),
            },
    {
        match self {
            JsonValue::Object(ms) => Some(ms),
            _ => None,
        }
    }
}

} // verus!
