//! Canonical JSON documents.
//!
//! A protocol event travels as a canonical JSON object: a key-to-value
//! document with a deterministic serialization.  The engine edits a handful
//! of keys (`origin`, `origin_server_ts`, `content`, `event_id`, entries of
//! `signatures`) and otherwise carries the document through untouched, so the
//! document itself is held opaquely in [`CanonicalDoc`] while every edit and
//! lookup is specified against its mathematical contents, [`doc_model`].

use vstd::prelude::*;

verus! {

/// The mathematical shape of one canonical JSON value.
pub enum JsonAbs {
    Null,
    Bool(bool),
    Int(int),
    Str(Seq<char>),
    Arr(Seq<JsonAbs>),
    Obj(Map<Seq<char>, JsonAbs>),
}

/// The string a JSON value holds, where it holds one.
pub open spec fn json_str(v: JsonAbs) -> Seq<char> {
    match v {
        JsonAbs::Str(s) => s,
        _ => Seq::empty(),
    }
}

/// The string under a key, where the key holds one.
pub open spec fn str_field(m: Map<Seq<char>, JsonAbs>, k: Seq<char>) -> Option<Seq<char>> {
    if m.contains_key(k) && m[k] is Str {
        Some(json_str(m[k]))
    } else {
        None
    }
}

/// The boolean under a key, where the key holds one.
pub open spec fn bool_field(m: Map<Seq<char>, JsonAbs>, k: Seq<char>) -> Option<bool> {
    if m.contains_key(k) && m[k] is Bool {
        match m[k] {
            JsonAbs::Bool(b) => Some(b),
            _ => None,
        }
    } else {
        None
    }
}

/// A canonical JSON object as `ruma` holds it.  Opaque to the verifier; the
/// trusted accessors below relate every operation to [`doc_model`].
#[verifier::external_body]
pub struct CanonicalDoc {
    pub(crate) obj: ruma::CanonicalJsonObject,
}

/// The contents of a canonical document, key by key.
pub uninterp spec fn doc_model(d: CanonicalDoc) -> Map<Seq<char>, JsonAbs>;

/// The model of one raw canonical JSON value carried through the engine.
pub uninterp spec fn json_model(v: ruma::CanonicalJsonValue) -> JsonAbs;

/// What parsing a string as a canonical JSON object yields, if anything.
pub uninterp spec fn parsed_json_of(raw: Seq<char>) -> Option<Map<Seq<char>, JsonAbs>>;

/// The canonical serialization of a document's contents.
pub uninterp spec fn json_text_of(m: Map<Seq<char>, JsonAbs>) -> Seq<char>;

#[verifier::external_type_specification]
#[verifier::external_body]
pub struct ExCanonicalJsonValue(ruma::CanonicalJsonValue);

/// The contents of a document with no entries.
pub open spec fn empty_doc_model() -> Map<Seq<char>, JsonAbs> {
    Map::empty()
}

impl CanonicalDoc {
    /// Relies on std's `BTreeMap::new`: the new map is empty.
    #[verifier::external_body]
    pub fn new() -> (r: CanonicalDoc)
        ensures
            doc_model(r) == empty_doc_model(),
    {
        CanonicalDoc { obj: ruma::CanonicalJsonObject::new() }
    }

    /// Relies on std's `BTreeMap::clone`: the copy holds the same entries.
    #[verifier::external_body]
    pub fn duplicate(&self) -> (r: CanonicalDoc)
        ensures
            doc_model(r) == doc_model(*self),
    {
        CanonicalDoc { obj: self.obj.clone() }
    }

    /// Relies on std's `BTreeMap::insert`: maps the key to the new value and
    /// leaves every other entry alone.
    #[verifier::external_body]
    pub fn insert_str(&mut self, key: &str, value: &str)
        ensures
            doc_model(*final(self)) == doc_model(*old(self)).insert(
                key@,
                JsonAbs::Str(value@),
            ),
    {
        self.obj.insert(key.to_owned(), ruma::CanonicalJsonValue::String(value.to_owned()));
    }

    /// Relies on std's `BTreeMap::insert`: maps the key to the new value and
    /// leaves every other entry alone.
    #[verifier::external_body]
    pub fn insert_bool(&mut self, key: &str, value: bool)
        ensures
            doc_model(*final(self)) == doc_model(*old(self)).insert(
                key@,
                JsonAbs::Bool(value),
            ),
    {
        self.obj.insert(key.to_owned(), ruma::CanonicalJsonValue::Bool(value));
    }

    /// Relies on std's `BTreeMap::insert`; the value is a canonical JSON
    /// integer, which `js_int::Int` bounds at 2^53 - 1.
    #[verifier::external_body]
    pub fn insert_int(&mut self, key: &str, value: u64)
        requires
            value <= 9007199254740991u64,
        ensures
            doc_model(*final(self)) == doc_model(*old(self)).insert(
                key@,
                JsonAbs::Int(value as int),
            ),
    {
        let i = js_int::Int::try_from(value).expect("value is within the canonical JSON range");
        self.obj.insert(key.to_owned(), ruma::CanonicalJsonValue::Integer(i));
    }

    /// Relies on std's `BTreeMap::insert`: stores a whole sub-object.
    #[verifier::external_body]
    pub fn insert_doc(&mut self, key: &str, value: &CanonicalDoc)
        ensures
            doc_model(*final(self)) == doc_model(*old(self)).insert(
                key@,
                JsonAbs::Obj(doc_model(*value)),
            ),
    {
        self.obj.insert(key.to_owned(), ruma::CanonicalJsonValue::Object(value.obj.clone()));
    }

    /// Relies on std's `BTreeMap::insert`: stores a raw value unchanged.
    #[verifier::external_body]
    pub fn insert_value(&mut self, key: &str, value: ruma::CanonicalJsonValue)
        ensures
            doc_model(*final(self)) == doc_model(*old(self)).insert(key@, json_model(value)),
    {
        self.obj.insert(key.to_owned(), value);
    }

    /// Relies on std's `BTreeMap::remove`: drops the key's entry, if any.
    #[verifier::external_body]
    pub fn remove_key(&mut self, key: &str)
        ensures
            doc_model(*final(self)) == doc_model(*old(self)).remove(key@),
    {
        self.obj.remove(key);
    }

    /// Relies on std's `BTreeMap::contains_key`.
    #[verifier::external_body]
    pub fn contains_key(&self, key: &str) -> (r: bool)
        ensures
            r == doc_model(*self).contains_key(key@),
    {
        self.obj.contains_key(key)
    }

    /// Relies on std's `BTreeMap::get`: the string under the key, if the key
    /// is present and its value is a string.
    #[verifier::external_body]
    pub fn get_str(&self, key: &str) -> (r: Option<String>)
        ensures
            match r {
                Some(s) => doc_model(*self).contains_key(key@) && doc_model(*self)[key@]
                    == JsonAbs::Str(s@),
                None => !(doc_model(*self).contains_key(key@) && doc_model(*self)[key@] is Str),
            },
    {
        match self.obj.get(key) {
            Some(ruma::CanonicalJsonValue::String(s)) => Some(s.clone()),
            _ => None,
        }
    }

    /// Relies on std's `BTreeMap::get`: the boolean under the key, if the key
    /// is present and its value is a boolean.
    #[verifier::external_body]
    pub fn get_bool(&self, key: &str) -> (r: Option<bool>)
        ensures
            match r {
                Some(b) => doc_model(*self).contains_key(key@) && doc_model(*self)[key@]
                    == JsonAbs::Bool(b),
                None => !(doc_model(*self).contains_key(key@) && doc_model(*self)[key@] is Bool),
            },
    {
        match self.obj.get(key) {
            Some(ruma::CanonicalJsonValue::Bool(b)) => Some(*b),
            _ => None,
        }
    }

    /// Relies on std's `BTreeMap::get`: the sub-object under the key, if the
    /// key is present and its value is an object.
    #[verifier::external_body]
    pub fn get_doc(&self, key: &str) -> (r: Option<CanonicalDoc>)
        ensures
            match r {
                Some(d) => doc_model(*self).contains_key(key@) && doc_model(*self)[key@]
                    == JsonAbs::Obj(doc_model(d)),
                None => !(doc_model(*self).contains_key(key@) && doc_model(*self)[key@] is Obj),
            },
    {
        match self.obj.get(key) {
            Some(ruma::CanonicalJsonValue::Object(o)) => Some(CanonicalDoc { obj: o.clone() }),
            _ => None,
        }
    }

    /// Relies on std's `BTreeMap::get`: the elements of the array under the
    /// key, if the key is present and its value is an array.
    #[verifier::external_body]
    pub fn get_array(&self, key: &str) -> (r: Option<Vec<ruma::CanonicalJsonValue>>)
        ensures
            match r {
                Some(v) => doc_model(*self).contains_key(key@) && doc_model(*self)[key@]
                    == JsonAbs::Arr(v@.map_values(|x: ruma::CanonicalJsonValue| json_model(x))),
                None => !(doc_model(*self).contains_key(key@) && doc_model(*self)[key@] is Arr),
            },
    {
        match self.obj.get(key) {
            Some(ruma::CanonicalJsonValue::Array(a)) => Some(a.clone()),
            _ => None,
        }
    }

    /// Relies on std's `BTreeMap::get`: the raw value under the key, if any.
    #[verifier::external_body]
    pub fn get_value(&self, key: &str) -> (r: Option<ruma::CanonicalJsonValue>)
        ensures
            match r {
                Some(v) => doc_model(*self).contains_key(key@) && doc_model(*self)[key@]
                    == json_model(v),
                None => !doc_model(*self).contains_key(key@),
            },
    {
        self.obj.get(key).cloned()
    }

    /// Relies on ruma's `CanonicalJsonValue::as_object`: the document a raw
    /// value holds, if it is an object.
    #[verifier::external_body]
    pub fn value_as_doc(v: &ruma::CanonicalJsonValue) -> (r: Option<CanonicalDoc>)
        ensures
            match r {
                Some(d) => json_model(*v) == JsonAbs::Obj(doc_model(d)),
                None => !(json_model(*v) is Obj),
            },
    {
        match v.as_object() {
            Some(o) => Some(CanonicalDoc { obj: o.clone() }),
            None => None,
        }
    }

    /// Relies on `serde_json::from_str`: parses a string into a canonical
    /// JSON object, rejecting anything that is not one.
    #[verifier::external_body]
    pub fn parse(raw: &str) -> (r: Option<CanonicalDoc>)
        ensures
            match r {
                Some(d) => parsed_json_of(raw@) == Some(doc_model(d)),
                None => parsed_json_of(raw@) is None,
            },
    {
        let obj: ruma::CanonicalJsonObject = serde_json::from_str(raw).ok()?;
        Some(CanonicalDoc { obj })
    }

    /// Relies on `serde_json::to_string` and `serde_json::from_str`:
    /// canonical JSON objects serialize deterministically, keys in order, and
    /// their serialization parses back to the same object (the Serialize and
    /// Deserialize impls of a canonical value are inverse; no float or other
    /// non-canonical value can occur).
    #[verifier::external_body]
    pub fn to_json(&self) -> (r: String)
        ensures
            r@ == json_text_of(doc_model(*self)),
            parsed_json_of(r@) == Some(doc_model(*self)),
    {
        serde_json::to_string(&self.obj).expect("canonical JSON objects always serialize")
    }
}

} // verus!
