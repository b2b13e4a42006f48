//! The startup configuration: a JSON object supplied by the host at plugin
//! initialization, with one recognized option, `threads`.
//!
//! The JSON text is parsed by serde_json behind trusted declarations; the
//! reading of the `threads` entry — present or defaulted, required to be a
//! non-negative integer — is verified code.

use vstd::prelude::*;

verus! {

/// The startup configuration for the plugin: the worker-thread count for the
/// task executor, where 0 means "use the implementation default".
#[derive(Debug, PartialEq, Eq, Structural, Clone, Copy)]
pub struct ConfigInit {
    pub threads: usize,
}

/// Why a startup-configuration text was rejected.
#[derive(Debug, PartialEq, Eq, Structural, Clone, Copy)]
pub enum ConfigError {
    /// The text is not well-formed JSON whose top level is an object.
    NotAnObject,
    /// The `threads` entry is present but is not a non-negative integer.
    ThreadsNotUnsigned,
    /// The `threads` entry does not fit the machine's word size.
    ThreadsTooLarge,
}

#[verifier::external_type_specification]
#[verifier::external_body]
pub struct ExValue(serde_json::Value);

#[verifier::external_type_specification]
#[verifier::external_body]
#[verifier::reject_recursive_types(K)]
#[verifier::reject_recursive_types(V)]
pub struct ExMap<K, V>(serde_json::Map<K, V>);

/// Whether serde_json accepts `s` as well-formed JSON whose top level is an
/// object; what the parse yields depends on the text alone.
pub uninterp spec fn json_object_accepts(s: Seq<char>) -> bool;

/// The keys of a parsed configuration object.
pub uninterp spec fn obj_keys(m: serde_json::Map<String, serde_json::Value>) -> Set<Seq<char>>;

/// The entries of a parsed configuration object whose values are non-negative
/// integers representable in 64 bits, each mapped to that integer.
pub uninterp spec fn obj_uints(m: serde_json::Map<String, serde_json::Value>) -> Map<
    Seq<char>,
    u64,
>;

/// What `Value::as_u64` returns for a JSON value: the value as a u64 when it
/// is a non-negative integer in range, and nothing otherwise.
pub uninterp spec fn uint_of(v: serde_json::Value) -> Option<u64>;

/// The keys of the object that `s` parses to; the parse depends on the text
/// alone. Meaningful when `json_object_accepts(s)` holds.
pub uninterp spec fn keys_of_text(s: Seq<char>) -> Set<Seq<char>>;

/// The unsigned-integer entries of the object that `s` parses to, each mapped
/// to its value; the parse depends on the text alone. Meaningful when
/// `json_object_accepts(s)` holds.
pub uninterp spec fn uints_of_text(s: Seq<char>) -> Map<Seq<char>, u64>;

/// Relies on serde_json::from_str for serde_json::Map: the parse succeeds
/// exactly when the text is well-formed JSON with an object at top level,
/// what it yields is a function of the text alone, and every integer entry of
/// the object is an entry of it.
#[verifier::external_body]
fn parse_object(s: &str) -> (r: Option<serde_json::Map<String, serde_json::Value>>)
    ensures
        r is Some <==> json_object_accepts(s@),
        r matches Some(m) ==> obj_keys(m) == keys_of_text(s@) && obj_uints(m) == uints_of_text(
            s@,
        ),
        r matches Some(m) ==> obj_uints(m).dom().subset_of(obj_keys(m)),
{
    serde_json::from_str::<serde_json::Map<String, serde_json::Value>>(s).ok()
}

/// Relies on serde_json::Map::get: returns the value stored under `key`,
/// exactly when the object has that key.
#[verifier::external_body]
fn object_get<'a>(
    m: &'a serde_json::Map<String, serde_json::Value>,
    key: &str,
) -> (r: Option<&'a serde_json::Value>)
    ensures
        r is Some <==> obj_keys(*m).contains(key@),
        r matches Some(v) ==> uint_of(*v) == if obj_uints(*m).dom().contains(key@) {
            Some(obj_uints(*m)[key@])
        } else {
            None::<u64>
        },
{
    m.get(key)
}

/// Relies on serde_json::Value::as_u64: Some exactly when the value is an
/// integer representable as u64.
#[verifier::external_body]
fn value_as_u64(v: &serde_json::Value) -> (r: Option<u64>)
    ensures
        r == uint_of(*v),
{
    v.as_u64()
}

/// What the configuration read yields, given the keys of the parsed object
/// and its unsigned-integer entries: an absent `threads` entry defaults to 0,
/// a present one must be a non-negative integer that fits a usize.
pub open spec fn spec_config_of(keys: Set<Seq<char>>, uints: Map<Seq<char>, u64>) -> Result<
    ConfigInit,
    ConfigError,
> {
    if !keys.contains("threads"@) {
        Ok(ConfigInit { threads: 0 })
    } else if !uints.dom().contains("threads"@) {
        Err(ConfigError::ThreadsNotUnsigned)
    } else if uints["threads"@] > usize::MAX {
        Err(ConfigError::ThreadsTooLarge)
    } else {
        Ok(ConfigInit { threads: uints["threads"@] as usize })
    }
}

/// Read the startup configuration out of a parsed configuration object.
pub fn config_from_object(m: &serde_json::Map<String, serde_json::Value>) -> (r: Result<
    ConfigInit,
    ConfigError,
>)
    ensures
        r == spec_config_of(obj_keys(*m), obj_uints(*m)),
{
    match object_get(m, "threads") {
        None => Ok(ConfigInit { threads: 0 }),
        Some(v) => match value_as_u64(v) {
            None => Err(ConfigError::ThreadsNotUnsigned),
            Some(n) => {
                if n > usize::MAX as u64 {
                    Err(ConfigError::ThreadsTooLarge)
                } else {
                    Ok(ConfigInit { threads: n as usize })
                }
            },
        },
    }
}

/// Parse the startup configuration from the host's JSON text: reject anything
/// but a JSON object as [`ConfigError::NotAnObject`], read its `threads`
/// entry, and default it to 0 when absent — the result is fixed by the text's
/// parsed keys and integer entries.
pub fn config_init_parse(s: &str) -> (r: Result<ConfigInit, ConfigError>)
    ensures
        r == Err::<ConfigInit, ConfigError>(ConfigError::NotAnObject) <==> !json_object_accepts(
            s@,
        ),
        json_object_accepts(s@) ==> r == spec_config_of(keys_of_text(s@), uints_of_text(s@)),
{
    match parse_object(s) {
        None => Err(ConfigError::NotAnObject),
        Some(m) => {
            let r = config_from_object(&m);
            proof {
                assert(r != Err::<ConfigInit, ConfigError>(ConfigError::NotAnObject));
            }
            r
        },
    }
}


} // verus!
