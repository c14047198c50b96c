//! The JSON values that a DMS configuration is made of, held as plain data.
//!
//! Objects keep their entries in a `Vec` of key/value pairs; looking a key up
//! finds its first entry and inserting a key replaces that entry in place or
//! appends a new one, so a key never occurs twice in an object that was built
//! by insertion.

use vstd::prelude::*;

verus! {

/// A JSON number: an unsigned integer, a negative integer, or any other
/// number kept as its decimal text.
pub enum JsonNumber {
    Unsigned(u64),
    Negative(i64),
    Decimal(String),
}

/// A JSON value.
pub enum JsonValue {
    Null,
    Bool(bool),
    Number(JsonNumber),
    Str(String),
    Array(Vec<JsonValue>),
    Object(Vec<(String, JsonValue)>),
}

/// The mathematical form of a JSON number.
pub enum NumModel {
    Unsigned(u64),
    Negative(i64),
    Decimal(Seq<char>),
}

/// The mathematical form of a JSON value: strings become character
/// sequences, arrays and objects become sequences.
pub enum Json {
    Null,
    Bool(bool),
    Number(NumModel),
    Str(Seq<char>),
    Array(Seq<Json>),
    Object(Seq<(Seq<char>, Json)>),
}

impl JsonNumber {
    pub open spec fn model(self) -> NumModel {
        match self {
            JsonNumber::Unsigned(u) => NumModel::Unsigned(u),
            JsonNumber::Negative(i) => NumModel::Negative(i),
            JsonNumber::Decimal(s) => NumModel::Decimal(s@),
        }
    }
}

/// `i` is the first position of an entry with key `k`.
pub open spec fn is_first_key(es: Seq<(Seq<char>, Json)>, k: Seq<char>, i: int) -> bool {
    &&& 0 <= i < es.len()
    &&& es[i].0 == k
    &&& forall|j: int| 0 <= j < i ==> (#[trigger] es[j]).0 != k
}

/// The position of the first entry with key `k`, or -1 when there is none.
pub open spec fn key_index(es: Seq<(Seq<char>, Json)>, k: Seq<char>) -> int {
    if exists|i: int| is_first_key(es, k, i) {
        choose|i: int| is_first_key(es, k, i)
    } else {
        -1
    }
}

/// The entries after setting key `k` to `v`: the first entry with that key
/// is replaced in place, or a new entry is appended.
pub open spec fn entries_with(es: Seq<(Seq<char>, Json)>, k: Seq<char>, v: Json) -> Seq<
    (Seq<char>, Json),
> {
    if key_index(es, k) >= 0 {
        es.update(key_index(es, k), (k, v))
    } else {
        es.push((k, v))
    }
}

impl Json {
    /// The value under key `k` of an object (`Value::get` with a string key);
    /// nothing for a missing key or a value that is not an object.
    pub open spec fn field(self, k: Seq<char>) -> Option<Json> {
        match self {
            Json::Object(es) => if key_index(es, k) >= 0 {
                Some(es[key_index(es, k)].1)
            } else {
                None
            },
            _ => None,
        }
    }

    /// The object with key `k` set to `v` (`Map::insert`); any other value is
    /// left as it is.
    pub open spec fn with_field(self, k: Seq<char>, v: Json) -> Json {
        match self {
            Json::Object(es) => Json::Object(entries_with(es, k, v)),
            _ => self,
        }
    }

    /// This object with key `k` set to `v` inside its object under key `sec`
    /// (`get_mut(sec)`, `as_object_mut`, `insert`); unchanged when there is
    /// no such inner object.
    pub open spec fn with_in(self, sec: Seq<char>, k: Seq<char>, v: Json) -> Json {
        match self.field(sec) {
            Some(inner) => if inner is Object {
                self.with_field(sec, inner.with_field(k, v))
            } else {
                self
            },
            None => self,
        }
    }

    /// The string inside a string value (`Value::as_str`).
    pub open spec fn str_of(self) -> Option<Seq<char>> {
        match self {
            Json::Str(s) => Some(s),
            _ => None,
        }
    }

    /// The unsigned integer inside a number value (`Value::as_u64`).
    pub open spec fn u64_of(self) -> Option<u64> {
        match self {
            Json::Number(NumModel::Unsigned(u)) => Some(u),
            _ => None,
        }
    }

    /// The boolean inside a boolean value (`Value::as_bool`).
    pub open spec fn bool_of(self) -> Option<bool> {
        match self {
            Json::Bool(b) => Some(b),
            _ => None,
        }
    }

    /// The elements of an array value (`Value::as_array`).
    pub open spec fn array_of(self) -> Option<Seq<Json>> {
        match self {
            Json::Array(a) => Some(a),
            _ => None,
        }
    }
}

/// The lookup law of objects: after setting key `k` to `v`, looking up `k`
/// gives `v`, and looking up any other key gives what it gave before.
pub proof fn law_field_after_insert(j: Json, k: Seq<char>, v: Json, other: Seq<char>)
    requires
        j is Object,
        other != k,
    ensures
        j.with_field(k, v).field(k) == Some(v),
        j.with_field(k, v).field(other) == j.field(other),
{
    let es = j->Object_0;
    let ns = entries_with(es, k, v);
    lemma_key_index(es, k);
    lemma_key_index(es, other);
    let ik = key_index(es, k);
    if ik >= 0 {
        assert(is_first_key(ns, k, ik));
        lemma_first_key_unique(ns, k, ik);
    } else {
        assert(is_first_key(ns, k, es.len() as int));
        lemma_first_key_unique(ns, k, es.len() as int);
    }
    lemma_key_index(ns, other);
    let io = key_index(es, other);
    if io >= 0 {
        assert(is_first_key(ns, other, io));
        lemma_first_key_unique(ns, other, io);
    } else {
        assert forall|i: int| 0 <= i < ns.len() implies (#[trigger] ns[i]).0 != other by {
            if i < es.len() {
                if es[i].0 == other && i != ik {
                    lemma_some_key_has_first(es, other, i);
                }
            }
        }
    }
}

/// The lookup law of objects for every object, key and value at once, so
/// that a chain of insertions can be looked through.
pub proof fn lemma_object_lookups()
    ensures
        forall|j: Json, k: Seq<char>, v: Json|
            j is Object ==> #[trigger] j.with_field(k, v).field(k) == Some(v),
        forall|j: Json, k: Seq<char>, v: Json, o: Seq<char>|
            j is Object && o != k ==> #[trigger] j.with_field(k, v).field(o) == j.field(o),
{
    assert forall|j: Json, k: Seq<char>, v: Json| j is Object implies #[trigger] j.with_field(k, v).field(k)
        == Some(v) by {
        assert(k.push('_').len() != k.len());
        law_field_after_insert(j, k, v, k.push('_'));
    }
    assert forall|j: Json, k: Seq<char>, v: Json, o: Seq<char>| j is Object && o != k implies #[trigger] j.with_field(
        k,
        v,
    ).field(o) == j.field(o) by {
        law_field_after_insert(j, k, v, o);
    }
}

/// In an object given entry by entry, the entry at `i` is what its key
/// looks up, provided no earlier entry has the same key.
pub proof fn lemma_field_at(es: Seq<(Seq<char>, Json)>, i: int)
    requires
        0 <= i < es.len(),
        forall|j: int| 0 <= j < i ==> (#[trigger] es[j]).0 != es[i].0,
    ensures
        Json::Object(es).field(es[i].0) == Some(es[i].1),
{
    assert(is_first_key(es, es[i].0, i));
    lemma_first_key_unique(es, es[i].0, i);
}

proof fn lemma_first_key_unique(es: Seq<(Seq<char>, Json)>, k: Seq<char>, i: int)
    requires
        is_first_key(es, k, i),
    ensures
        key_index(es, k) == i,
{
    let c = choose|c: int| is_first_key(es, k, c);
    assert(is_first_key(es, k, c));
    if c < i {
        assert(es[c].0 != k);
    }
    if i < c {
        assert(es[i].0 != k);
    }
}

proof fn lemma_some_key_has_first(es: Seq<(Seq<char>, Json)>, k: Seq<char>, i: int)
    requires
        0 <= i < es.len(),
        es[i].0 == k,
    ensures
        key_index(es, k) >= 0,
    decreases i,
{
    if forall|j: int| 0 <= j < i ==> (#[trigger] es[j]).0 != k {
        assert(is_first_key(es, k, i));
    } else {
        let j = choose|j: int| 0 <= j < i && (#[trigger] es[j]).0 == k;
        lemma_some_key_has_first(es, k, j);
    }
}

/// What `key_index` means: either the first position of the key, or -1 when
/// no entry has the key.
pub proof fn lemma_key_index(es: Seq<(Seq<char>, Json)>, k: Seq<char>)
    ensures
        key_index(es, k) >= 0 ==> is_first_key(es, k, key_index(es, k)),
        key_index(es, k) < 0 ==> key_index(es, k) == -1 && forall|i: int|
            0 <= i < es.len() ==> (#[trigger] es[i]).0 != k,
{
    if key_index(es, k) < 0 {
        assert forall|i: int| 0 <= i < es.len() implies (#[trigger] es[i]).0 != k by {
            if es[i].0 == k {
                lemma_some_key_has_first(es, k, i);
            }
        }
    }
}

impl JsonValue {
    /// The mathematical form of this value.
    pub open spec fn model(self) -> Json
        decreases self,
    {
        match self {
            JsonValue::Null => Json::Null,
            JsonValue::Bool(b) => Json::Bool(b),
            JsonValue::Number(n) => Json::Number(n.model()),
            JsonValue::Str(s) => Json::Str(s@),
            JsonValue::Array(a) => Json::Array(
                Seq::new(
                    a@.len(),
                    |i: int|
                        if 0 <= i < a@.len() {
                            proof {
                                assert(decreases_to!(a => a@));
                                assert(decreases_to!(a@ => a@[i]));
                            }
                            a@[i].model()
                        } else {
                            Json::Null
                        },
                ),
            ),
            JsonValue::Object(o) => Json::Object(
                Seq::new(
                    o@.len(),
                    |i: int|
                        if 0 <= i < o@.len() {
                            proof {
                                assert(decreases_to!(o => o@));
                                assert(decreases_to!(o@ => o@[i]));
                                assert(decreases_to!(o@[i] => o@[i].1));
                            }
                            (o@[i].0@, o@[i].1.model())
                        } else {
                            (Seq::empty(), Json::Null)
                        },
                ),
            ),
        }
    }

    /// A copy of this value, equal to it in every part.
    pub fn deep_copy(&self) -> (r: JsonValue)
        ensures
            r.model() == self.model(),
        decreases self,
    {
        match self {
            JsonValue::Null => JsonValue::Null,
            JsonValue::Bool(b) => JsonValue::Bool(*b),
            JsonValue::Number(n) => JsonValue::Number(
                match n {
                    JsonNumber::Unsigned(u) => JsonNumber::Unsigned(*u),
                    JsonNumber::Negative(i) => JsonNumber::Negative(*i),
                    JsonNumber::Decimal(s) => JsonNumber::Decimal(s.clone()),
                },
            ),
            JsonValue::Str(s) => JsonValue::Str(s.clone()),
            JsonValue::Array(a) => {
                let mut out: Vec<JsonValue> = Vec::new();
                let mut i: usize = 0;
                while i < a.len()
                    invariant
                        i <= a@.len(),
                        *self == JsonValue::Array(*a),
                        out@.len() == i,
                        forall|j: int| 0 <= j < i ==> (#[trigger] out@[j]).model() == a@[j].model(),
                    decreases a.len() - i,
                {
                    proof {
                        assert((*self)->Array_0 == *a);
                        assert(decreases_to!(*self => (*self)->Array_0));
                        assert(decreases_to!(a => a@));
                        assert(decreases_to!(a@ => a@[i as int]));
                    }
                    let c = a[i].deep_copy();
                    out.push(c);
                    i = i + 1;
                }
                let r = JsonValue::Array(out);
                assert(r.model()->Array_0 =~= self.model()->Array_0);
                r
            },
            JsonValue::Object(o) => {
                let mut out: Vec<(String, JsonValue)> = Vec::new();
                let mut i: usize = 0;
                while i < o.len()
                    invariant
                        i <= o@.len(),
                        *self == JsonValue::Object(*o),
                        out@.len() == i,
                        forall|j: int|
                            0 <= j < i ==> (#[trigger] out@[j]).0@ == o@[j].0@ && out@[j].1.model()
                                == o@[j].1.model(),
                    decreases o.len() - i,
                {
                    proof {
                        assert((*self)->Object_0 == *o);
                        assert(decreases_to!(*self => (*self)->Object_0));
                        assert(decreases_to!(o => o@));
                        assert(decreases_to!(o@ => o@[i as int]));
                        assert(decreases_to!(o@[i as int] => o@[i as int].1));
                    }
                    let v = o[i].1.deep_copy();
                    out.push((o[i].0.clone(), v));
                    i = i + 1;
                }
                let r = JsonValue::Object(out);
                assert(r.model()->Object_0 =~= self.model()->Object_0);
                r
            },
        }
    }

    /// The value under `key` when this is an object (`Value::get`).
    pub fn get(&self, key: &str) -> (r: Option<&JsonValue>)
        ensures
            match r {
                Some(v) => self.model().field(key@) == Some(v.model()),
                None => self.model().field(key@) is None,
            },
    {
        match self {
            JsonValue::Object(o) => {
                let k = String::from_str(key);
                let ghost es = self.model()->Object_0;
                let mut i: usize = 0;
                while i < o.len()
                    invariant
                        i <= o@.len() == es.len(),
                        k@ == key@,
                        es == self.model()->Object_0,
                        self == JsonValue::Object(*o),
                        forall|j: int| 0 <= j < i ==> (#[trigger] es[j]).0 != key@,
                    decreases o.len() - i,
                {
                    if o[i].0 == k {
                        proof {
                            assert(is_first_key(es, key@, i as int));
                            lemma_first_key_unique(es, key@, i as int);
                        }
                        return Some(&o[i].1);
                    }
                    i = i + 1;
                }
                proof {
                    lemma_key_index(es, key@);
                    if key_index(es, key@) >= 0 {
                        let c = key_index(es, key@);
                        assert(es[c].0 == key@);
                    }
                }
                None
            },
            _ => None,
        }
    }

    /// The text of a string value (`Value::as_str`).
    pub fn as_str(&self) -> (r: Option<&str>)
        ensures
            match r {
                Some(s) => self.model().str_of() == Some(s@),
                None => self.model().str_of() is None,
            },
    {
        match self {
            JsonValue::Str(s) => Some(s.as_str()),
            _ => None,
        }
    }

    /// The number of an unsigned integer value (`Value::as_u64`).
    pub fn as_u64(&self) -> (r: Option<u64>)
        ensures
            r == self.model().u64_of(),
    {
        match self {
            JsonValue::Number(JsonNumber::Unsigned(u)) => Some(*u),
            _ => None,
        }
    }

    /// The boolean of a boolean value (`Value::as_bool`).
    pub fn as_bool(&self) -> (r: Option<bool>)
        ensures
            r == self.model().bool_of(),
    {
        match self {
            JsonValue::Bool(b) => Some(*b),
            _ => None,
        }
    }

    /// The elements of an array value (`Value::as_array`).
    pub fn as_array(&self) -> (r: Option<&Vec<JsonValue>>)
        ensures
            match r {
                Some(a) => self.model() == Json::Array(
                    Seq::new(a@.len(), |i: int| a@[i].model()),
                ),
                None => self.model().array_of() is None,
            },
    {
        match self {
            JsonValue::Array(a) => {
                assert(self.model()->Array_0 =~= Seq::new(a@.len(), |i: int| a@[i].model()));
                Some(a)
            },
            _ => None,
        }
    }

    /// Sets `key` to `value` when this is an object (`Map::insert`): the
    /// first entry with that key is replaced in place, or the entry is
    /// appended. Any other value is left unchanged.
    pub fn insert(&mut self, key: String, value: JsonValue)
        ensures
            final(self).model() == old(self).model().with_field(key@, value.model()),
    {
        let mut cur = JsonValue::Null;
        std::mem::swap(self, &mut cur);
        match cur {
            JsonValue::Object(mut o) => {
                let ghost es = old(self).model()->Object_0;
                let ghost old_o = o@;
                assert(forall|j: int| 0 <= j < es.len() ==> (#[trigger] es[j]) == (old_o[j].0@, old_o[j].1.model()));
                let mut i: usize = 0;
                while i < o.len()
                    invariant
                        i <= o@.len() == es.len(),
                        o@ == old_o,
                        old(self).model() == Json::Object(es),
                        forall|j: int| 0 <= j < es.len() ==> (#[trigger] es[j]) == (old_o[j].0@, old_o[j].1.model()),
                        forall|j: int| 0 <= j < i ==> (#[trigger] es[j]).0 != key@,
                    decreases o.len() - i,
                {
                    if o[i].0 == key {
                        proof {
                            assert(is_first_key(es, key@, i as int));
                            lemma_first_key_unique(es, key@, i as int);
                        }
                        let ghost kv = key@;
                        let ghost vm = value.model();
                        o.set(i, (key, value));
                        let r = JsonValue::Object(o);
                        assert(r.model()->Object_0 =~= entries_with(es, kv, vm));
                        *self = r;
                        return;
                    }
                    i = i + 1;
                }
                proof {
                    lemma_key_index(es, key@);
                    if key_index(es, key@) >= 0 {
                        let c = key_index(es, key@);
                        assert(es[c].0 == key@);
                    }
                }
                let ghost kv = key@;
                let ghost vm = value.model();
                o.push((key, value));
                let r = JsonValue::Object(o);
                assert(r.model()->Object_0 =~= entries_with(es, kv, vm));
                *self = r;
            },
            other => {
                *self = other;
            },
        }
    }

    /// Sets `key` to `value` inside the object under `section`, in place; a
    /// missing section, or one that is not an object, leaves this unchanged.
    pub fn insert_in(&mut self, section: &str, key: String, value: JsonValue)
        ensures
            final(self).model() == old(self).model().with_in(section@, key@, value.model()),
    {
        let mut cur = JsonValue::Null;
        std::mem::swap(self, &mut cur);
        match cur {
            JsonValue::Object(mut o) => {
                let sec = String::from_str(section);
                let ghost es = old(self).model()->Object_0;
                let ghost old_o = o@;
                assert(forall|j: int| 0 <= j < es.len() ==> (#[trigger] es[j]) == (old_o[j].0@, old_o[j].1.model()));
                let mut i: usize = 0;
                while i < o.len()
                    invariant
                        i <= o@.len() == es.len(),
                        o@ == old_o,
                        sec@ == section@,
                        old(self).model() == Json::Object(es),
                        forall|j: int| 0 <= j < es.len() ==> (#[trigger] es[j]) == (old_o[j].0@, old_o[j].1.model()),
                        forall|j: int| 0 <= j < i ==> (#[trigger] es[j]).0 != section@,
                    decreases o.len() - i,
                {
                    if o[i].0 == sec {
                        proof {
                            assert(is_first_key(es, section@, i as int));
                            lemma_first_key_unique(es, section@, i as int);
                        }
                        let is_object = match &o[i].1 {
                            JsonValue::Object(_) => true,
                            _ => false,
                        };
                        if is_object {
                            let ghost kv = key@;
                            let ghost vm = value.model();
                            let (k, mut inner) = o.remove(i);
                            let ghost inner_before = inner.model();
                            inner.insert(key, value);
                            o.insert(i, (k, inner));
                            let r = JsonValue::Object(o);
                            assert(r.model()->Object_0 =~= es.update(
                                i as int,
                                (section@, inner_before.with_field(kv, vm)),
                            ));
                            assert(inner_before == es[i as int].1);
                            assert(inner_before is Object);
                            *self = r;
                        } else {
                            let r = JsonValue::Object(o);
                            assert(r.model()->Object_0 =~= es);
                            assert(!(es[i as int].1 is Object));
                            *self = r;
                        }
                        return;
                    }
                    i = i + 1;
                }
                proof {
                    lemma_key_index(es, section@);
                    if key_index(es, section@) >= 0 {
                        let c = key_index(es, section@);
                        assert(es[c].0 == section@);
                    }
                }
                let r = JsonValue::Object(o);
                assert(r.model()->Object_0 =~= es);
                *self = r;
            },
            other => {
                *self = other;
            },
        }
    }
}

} // verus!
