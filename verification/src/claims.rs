//! The runtime-claims document: the claims text inside the runtime data is a
//! JSON object holding a sequence of opaque key objects, an opaque
//! vm-configuration subtree, and uppercase-hex user data. It is parsed on
//! demand, never eagerly, and the opaque subtrees are preserved as values but
//! not interpreted.

use vstd::prelude::*;

use crate::error::Error;

verus! {

#[verifier::external_type_specification]
#[verifier::external_body]
pub struct ExJsonValue(serde_json::Value);

#[verifier::external_type_specification]
#[verifier::external_body]
#[verifier::reject_recursive_types(K)]
#[verifier::reject_recursive_types(V)]
pub struct ExJsonMap<K, V>(serde_json::Map<K, V>);

/// Whether text parses as a JSON document, as serde_json judges it.
pub uninterp spec fn json_parses(s: Seq<char>) -> bool;

/// The JSON value that parseable text parses to.
pub uninterp spec fn json_value_of(s: Seq<char>) -> serde_json::Value;

/// The member of a JSON object value under a key, or `None` when the value is
/// no object or has no such member.
pub uninterp spec fn json_member_of(v: serde_json::Value, key: Seq<char>) -> Option<
    serde_json::Value,
>;

/// The member sequence of a JSON array value, or `None` for any other value
/// kind.
pub uninterp spec fn json_array_items(v: serde_json::Value) -> Option<Seq<serde_json::Value>>;

/// The text of a JSON string value, or `None` for any other value kind.
pub uninterp spec fn json_string_text(v: serde_json::Value) -> Option<Seq<char>>;

/// What a JSON object map holds: its members keyed by member name.
pub uninterp spec fn json_map_members(m: serde_json::Map<String, serde_json::Value>) -> Map<
    Seq<char>,
    serde_json::Value,
>;

/// Relies on serde_json's `from_str`: whether text parses as JSON, and to
/// which value, depend on the text alone.
#[verifier::external_body]
fn json_from_text(text: &str) -> (r: Option<serde_json::Value>)
    ensures
        r is Some <==> json_parses(text@),
        r matches Some(v) ==> v == json_value_of(text@),
{
    serde_json::from_str::<serde_json::Value>(text).ok()
}

/// Relies on `Value::get`: the member of a JSON object under a key, `None`
/// when the value is no object or has no such member.
#[verifier::external_body]
fn json_get<'a>(v: &'a serde_json::Value, key: &str) -> (r: Option<&'a serde_json::Value>)
    ensures
        match r {
            Some(m) => json_member_of(*v, key@) == Some(*m),
            None => json_member_of(*v, key@) is None,
        },
{
    v.get(key)
}

/// Relies on `Value::as_array`: the members of a JSON array, cloned, `None`
/// for any other value kind.
#[verifier::external_body]
fn json_as_array(v: &serde_json::Value) -> (r: Option<Vec<serde_json::Value>>)
    ensures
        match r {
            Some(items) => json_array_items(*v) == Some(items@),
            None => json_array_items(*v) is None,
        },
{
    match v.as_array() {
        Some(items) => Some(items.clone()),
        None => None,
    }
}

/// Relies on `Value::as_str`: the text of a JSON string, owned, `None` for
/// any other value kind.
#[verifier::external_body]
fn json_as_string(v: &serde_json::Value) -> (r: Option<String>)
    ensures
        match r {
            Some(t) => json_string_text(*v) == Some(t@),
            None => json_string_text(*v) is None,
        },
{
    match v.as_str() {
        Some(s) => Some(s.to_owned()),
        None => None,
    }
}

/// Relies on `Value::clone`: the derived clone is a deep copy, equal in value
/// to its source.
pub assume_specification[ <serde_json::Value as Clone>::clone ](
    v: &serde_json::Value,
) -> (res: serde_json::Value)
    ensures
        res == *v,
;

/// The member map of an object without members.
pub open spec fn json_no_members() -> Map<Seq<char>, serde_json::Value> {
    Map::empty()
}

/// Relies on `Map::new`: the new object map is empty.
#[verifier::external_body]
fn json_map_new() -> (r: serde_json::Map<String, serde_json::Value>)
    ensures
        json_map_members(r) == json_no_members(),
{
    serde_json::Map::new()
}

/// Relies on `Map::insert`: the map afterwards holds the member under the
/// key, and is otherwise unchanged.
#[verifier::external_body]
fn json_map_insert(
    m: &mut serde_json::Map<String, serde_json::Value>,
    key: &str,
    v: serde_json::Value,
)
    ensures
        json_map_members(*final(m)) == json_map_members(*old(m)).insert(key@, v),
{
    m.insert(key.to_owned(), v);
}

/// Relies on the `Value::Array` constructor: the value is an array holding
/// exactly the given members.
#[verifier::external_body]
fn json_array_value(items: Vec<serde_json::Value>) -> (r: serde_json::Value)
    ensures
        json_array_items(r) == Some(items@),
{
    serde_json::Value::Array(items)
}

/// Relies on the `Value::String` constructor: the value is a string holding
/// exactly the given text.
#[verifier::external_body]
fn json_string_value(text: &str) -> (r: serde_json::Value)
    ensures
        json_string_text(r) == Some(text@),
{
    serde_json::Value::String(text.to_owned())
}

/// Relies on the `Value::Object` constructor and `Value::get`'s lookup on an
/// object: member lookup on the value answers exactly from the map.
#[verifier::external_body]
fn json_object_value(m: serde_json::Map<String, serde_json::Value>) -> (r: serde_json::Value)
    ensures
        forall|k: Seq<char>|
            #[trigger] json_member_of(r, k) == (if json_map_members(m).dom().contains(k) {
                Some(json_map_members(m)[k])
            } else {
                None::<serde_json::Value>
            }),
{
    serde_json::Value::Object(m)
}

/// Relies on serde_json's `to_string` on a `Value`: it cannot fail (every map
/// key of a `Value` is a string), and whenever the produced text parses at
/// all, it parses to an equal value back. The serializer has no nesting
/// limit, the parser does, so the produced text need not parse.
#[verifier::external_body]
fn json_to_text(v: &serde_json::Value) -> (r: Option<String>)
    ensures
        r is Some,
        r matches Some(t) ==> (json_parses(t@) ==> json_value_of(t@) == *v),
{
    serde_json::to_string(v).ok()
}

/// Whether claims text has the document shape: it parses as JSON whose top
/// level is an object with a "keys" array, a "vm-configuration" member of any
/// kind, and a "user-data" string. Extra members are allowed.
pub open spec fn claims_shape_ok(s: Seq<char>) -> bool {
    &&& json_parses(s)
    &&& (json_member_of(json_value_of(s), "keys"@) matches Some(k) && json_array_items(k) is Some)
    &&& json_member_of(json_value_of(s), "vm-configuration"@) is Some
    &&& (json_member_of(json_value_of(s), "user-data"@) matches Some(u) && json_string_text(
        u,
    ) is Some)
}

/// The key sequence of well-shaped claims text.
pub open spec fn claims_keys_of(s: Seq<char>) -> Seq<serde_json::Value> {
    json_array_items(json_member_of(json_value_of(s), "keys"@).unwrap()).unwrap()
}

/// The vm-configuration member of well-shaped claims text.
pub open spec fn claims_vm_config_of(s: Seq<char>) -> serde_json::Value {
    json_member_of(json_value_of(s), "vm-configuration"@).unwrap()
}

/// The user-data text of well-shaped claims text.
pub open spec fn claims_user_data_of(s: Seq<char>) -> Seq<char> {
    json_string_text(json_member_of(json_value_of(s), "user-data"@).unwrap()).unwrap()
}

/// The parsed runtime-claims document.
#[derive(Debug, Clone)]
pub struct HclRuntimeClaims {
    /// vTPM attestation and endorsement public keys in JSON Web Key Set form,
    /// kept as opaque JSON objects in document order.
    pub keys: Vec<serde_json::Value>,
    /// Confidential-VM configuration, kept as an opaque JSON subtree.
    pub vm_configuration: serde_json::Value,
    /// 64-byte uppercase-hex text read from the vTPM.
    pub user_data: String,
}

impl HclRuntimeClaims {
    /// Parses the claims document: it succeeds exactly on text of the
    /// document shape, takes the keys in document order, the vm-configuration
    /// member as it stands, and the user-data text; anything else is a JSON
    /// error.
    pub fn from_string(s: &str) -> (r: Result<Self, Error>)
        ensures
            r is Ok <==> claims_shape_ok(s@),
            r matches Ok(c) ==> c.keys@ == claims_keys_of(s@) && c.vm_configuration
                == claims_vm_config_of(s@) && c.user_data@ == claims_user_data_of(s@),
            r matches Err(e) ==> e == Error::Json,
    {
        let doc = match json_from_text(s) {
            Some(v) => v,
            None => {
                return Err(Error::Json);
            },
        };
        let keys = match json_get(&doc, "keys") {
            Some(v) => match json_as_array(v) {
                Some(items) => items,
                None => {
                    return Err(Error::Json);
                },
            },
            None => {
                return Err(Error::Json);
            },
        };
        let vm_configuration = match json_get(&doc, "vm-configuration") {
            Some(v) => v.clone(),
            None => {
                return Err(Error::Json);
            },
        };
        let user_data = match json_get(&doc, "user-data") {
            Some(v) => match json_as_string(v) {
                Some(t) => t,
                None => {
                    return Err(Error::Json);
                },
            },
            None => {
                return Err(Error::Json);
            },
        };
        Ok(HclRuntimeClaims { keys, vm_configuration, user_data })
    }

    /// Serializes the claims document to JSON text with the same three
    /// members, and checks that the text parses back: parsing it yields the
    /// stored keys (order and values), vm-configuration and user-data, though
    /// not the original whitespace or member order of the opaque subtrees.
    /// Serialization itself cannot fail, but the parser enforces a nesting
    /// limit the serializer does not, so a document built around absurdly
    /// deep opaque subtrees is rejected with a JSON error rather than
    /// returned as text that no parse accepts.
    pub fn to_string(&self) -> (r: Result<String, Error>)
        ensures
            r matches Ok(t) ==> claims_shape_ok(t@) && claims_keys_of(t@) == self.keys@
                && claims_vm_config_of(t@) == self.vm_configuration && claims_user_data_of(t@)
                == self.user_data@,
            r matches Err(e) ==> e == Error::Json,
    {
        let keys_copy = self.keys.clone();
        proof {
            assert forall|i: int| 0 <= i < self.keys@.len() implies keys_copy@[i]
                == self.keys@[i] by {
                assert(cloned::<serde_json::Value>(self.keys[i], keys_copy[i]));
            }
            assert(keys_copy@ =~= self.keys@);
        }
        let arr = json_array_value(keys_copy);
        let ghost arr_g = arr;
        let vm = self.vm_configuration.clone();
        let ghost vm_g = vm;
        let ud = json_string_value(self.user_data.as_str());
        let ghost ud_g = ud;
        let mut m = json_map_new();
        json_map_insert(&mut m, "keys", arr);
        json_map_insert(&mut m, "vm-configuration", vm);
        json_map_insert(&mut m, "user-data", ud);
        let ghost m_g = m;
        let doc = json_object_value(m);
        proof {
            reveal_strlit("keys");
            reveal_strlit("vm-configuration");
            reveal_strlit("user-data");
            assert("keys"@.len() == 4 && "vm-configuration"@.len() == 16 && "user-data"@.len()
                == 9);
            assert("keys"@ != "vm-configuration"@ && "keys"@ != "user-data"@
                && "vm-configuration"@ != "user-data"@);
            assert(json_member_of(doc, "keys"@) == Some(arr_g));
            assert(json_member_of(doc, "vm-configuration"@) == Some(vm_g));
            assert(json_member_of(doc, "user-data"@) == Some(ud_g));
        }
        let text = match json_to_text(&doc) {
            Some(t) => t,
            None => {
                return Err(Error::Json);
            },
        };
        match json_from_text(text.as_str()) {
            Some(_) => Ok(text),
            None => Err(Error::Json),
        }
    }
}

} // verus!

