//! The generated interfaces of the authentication and collection providers:
//! for each operation, its port lists, its inputs, and how the inputs are
//! read from a map of encoded values.

use vstd::prelude::*;
use vstd::string::StringExecFns;

pub mod authentication;
pub mod collection;

verus! {

/// A list of ports, each a name with a type.
pub type PortList = Vec<(&'static str, &'static str)>;

/// A list of ports seen as plain values.
pub open spec fn port_list_view(l: PortList) -> Seq<(Seq<char>, Seq<char>)> {
    l@.map_values(|p: (&'static str, &'static str)| (p.0@, p.1@))
}

/// The encoded inputs of an invocation, each under its port name.
pub type InputMap = Vec<(String, Vec<u8>)>;

/// An input map seen as plain values.
pub open spec fn input_map_view(m: InputMap) -> Seq<(Seq<char>, Seq<u8>)> {
    m@.map_values(|e: (String, Vec<u8>)| (e.0@, e.1@))
}

/// The encoded value under `name`: that of the first entry with this name.
pub open spec fn spec_lookup(m: Seq<(Seq<char>, Seq<u8>)>, name: Seq<char>) -> Option<Seq<u8>>
    decreases m.len(),
{
    if m.len() == 0 {
        None
    } else if m[0].0 == name {
        Some(m[0].1)
    } else {
        spec_lookup(m.drop_first(), name)
    }
}

/// Whether no two entries of `m` have the same name, as in a map.
pub open spec fn names_distinct<V>(m: Seq<(Seq<char>, V)>) -> bool {
    forall|i: int, j: int| 0 <= i < j < m.len() ==> m[i].0 != m[j].0
}

/// In a map whose names are distinct, the value under an entry's name is
/// that entry's value, wherever the entry stands.
pub proof fn lemma_lookup_distinct(m: Seq<(Seq<char>, Seq<u8>)>, i: int)
    requires
        names_distinct(m),
        0 <= i < m.len(),
    ensures
        spec_lookup(m, m[i].0) == Some(m[i].1),
    decreases m.len(),
{
    if i > 0 {
        assert(m[0].0 != m[i].0);
        let rest = m.drop_first();
        assert(rest[i - 1] == m[i]);
        assert forall|a: int, b: int| 0 <= a < b < rest.len() implies rest[a].0 != rest[b].0 by {
            assert(rest[a] == m[a + 1] && rest[b] == m[b + 1]);
        }
        lemma_lookup_distinct(rest, i - 1);
    }
}

#[verifier::external_type_specification]
#[verifier::external_body]
pub struct ExCodecError(vino_codec::error::CodecError);

/// Why the inputs of an operation could not be read.
pub enum InputError {
    /// No input was given for the named port.
    MissingInput(String),
    /// The input could not be decoded from MessagePack.
    Codec(vino_codec::error::CodecError),
}

/// The message of the error for the missing input `name`, as the codec
/// words its own error for it.
pub open spec fn missing_input_message(name: Seq<char>) -> Seq<char> {
    "Input data for port '"@ + name + "' missing"@
}

/// Calls `Display` of `vino_codec::error::CodecError` (written by
/// `thiserror`). What it gives depends on the error's contents, which are
/// opaque here, so nothing is stated of it.
#[verifier::external_body]
fn codec_error_text(e: &vino_codec::error::CodecError) -> (s: String) {
    e.to_string()
}

impl InputError {
    /// The error's message: for a missing input, "Input data for port
    /// '<name>' missing"; for a decoding failure, the codec's message.
    pub fn to_string(&self) -> (s: String)
        ensures
            self matches InputError::MissingInput(n) ==> s@ == missing_input_message(n@),
    {
        match self {
            InputError::MissingInput(n) => {
                let s = String::from_str("Input data for port '").concat(n.as_str()).concat("' missing");
                proof {
                    reveal_strlit("Input data for port '");
                    reveal_strlit("' missing");
                }
                s
            },
            InputError::Codec(e) => codec_error_text(e),
        }
    }
}

/// How reading one input failed.
pub enum FieldFailure {
    Missing,
    Undecodable,
}

/// Whether `e` is the error for a read of the input `name` that failed as `f`.
pub open spec fn error_matches(e: InputError, f: FieldFailure, name: Seq<char>) -> bool {
    match f {
        FieldFailure::Missing => e matches InputError::MissingInput(n) && n@ == name,
        FieldFailure::Undecodable => e is Codec,
    }
}

/// The string that MessagePack `bytes` decode to, if they decode to one.
pub uninterp spec fn messagepack_string(bytes: Seq<u8>) -> Option<Seq<char>>;

/// The 32-bit integer that MessagePack `bytes` decode to, if they decode to one.
pub uninterp spec fn messagepack_i32(bytes: Seq<u8>) -> Option<i32>;

/// The list of strings that MessagePack `bytes` decode to, if they decode to one.
pub uninterp spec fn messagepack_string_list(bytes: Seq<u8>) -> Option<Seq<Seq<char>>>;

/// Calls `vino_codec::messagepack::deserialize` for a `String`. Its result
/// depends on the bytes alone; the contract names it and says no more.
#[verifier::external_body]
fn deserialize_string(bytes: &[u8]) -> (r: Result<String, vino_codec::error::CodecError>)
    ensures
        match messagepack_string(bytes@) {
            Some(s) => r matches Ok(v) && v@ == s,
            None => r is Err,
        },
{
    vino_codec::messagepack::deserialize(bytes)
}

/// Calls `vino_codec::messagepack::deserialize` for an `i32`. Its result
/// depends on the bytes alone; the contract names it and says no more.
#[verifier::external_body]
fn deserialize_i32(bytes: &[u8]) -> (r: Result<i32, vino_codec::error::CodecError>)
    ensures
        match messagepack_i32(bytes@) {
            Some(n) => r == Ok::<i32, vino_codec::error::CodecError>(n),
            None => r is Err,
        },
{
    vino_codec::messagepack::deserialize(bytes)
}

/// Calls `vino_codec::messagepack::deserialize` for a `Vec<String>`. Its
/// result depends on the bytes alone; the contract names it and says no more.
#[verifier::external_body]
fn deserialize_string_list(bytes: &[u8]) -> (r: Result<Vec<String>, vino_codec::error::CodecError>)
    ensures
        match messagepack_string_list(bytes@) {
            Some(l) => r matches Ok(v) && v@.map_values(|s: String| s@) == l,
            None => r is Err,
        },
{
    vino_codec::messagepack::deserialize(bytes)
}

/// The string input `name` of `m`, or how reading it fails.
pub open spec fn string_field(m: Seq<(Seq<char>, Seq<u8>)>, name: Seq<char>) -> Result<Seq<char>, FieldFailure> {
    match spec_lookup(m, name) {
        None => Err(FieldFailure::Missing),
        Some(b) => match messagepack_string(b) {
            Some(s) => Ok(s),
            None => Err(FieldFailure::Undecodable),
        },
    }
}

/// The integer input `name` of `m`, or how reading it fails.
pub open spec fn i32_field(m: Seq<(Seq<char>, Seq<u8>)>, name: Seq<char>) -> Result<i32, FieldFailure> {
    match spec_lookup(m, name) {
        None => Err(FieldFailure::Missing),
        Some(b) => match messagepack_i32(b) {
            Some(n) => Ok(n),
            None => Err(FieldFailure::Undecodable),
        },
    }
}

/// The string-list input `name` of `m`, or how reading it fails.
pub open spec fn string_list_field(m: Seq<(Seq<char>, Seq<u8>)>, name: Seq<char>) -> Result<
    Seq<Seq<char>>,
    FieldFailure,
> {
    match spec_lookup(m, name) {
        None => Err(FieldFailure::Missing),
        Some(b) => match messagepack_string_list(b) {
            Some(l) => Ok(l),
            None => Err(FieldFailure::Undecodable),
        },
    }
}

/// The encoded input under `name`: that of the first entry with this name.
pub fn get_input<'a>(map: &'a InputMap, name: &str) -> (r: Option<&'a Vec<u8>>)
    ensures
        match spec_lookup(input_map_view(*map), name@) {
            Some(b) => r matches Some(v) && v@ == b,
            None => r is None,
        },
{
    let n = map.len();
    let mut i: usize = 0;
    let ghost m = input_map_view(*map);
    assert(m.skip(0) =~= m);
    while i < n
        invariant
            n == map@.len(),
            m == input_map_view(*map),
            i <= n,
            spec_lookup(m, name@) == spec_lookup(m.skip(i as int), name@),
        decreases n - i,
    {
        assert(m.skip(i as int)[0] == m[i as int]);
        assert(m.skip(i as int).drop_first() =~= m.skip(i + 1));
        if crate::text::str_eq(map[i].0.as_str(), name) {
            return Some(&map[i].1);
        }
        i = i + 1;
    }
    None
}

/// An input value, decoded.
pub enum InputValue {
    Str(Seq<char>),
    Int(i32),
    StrList(Seq<Seq<char>>),
}

/// The value of the input port `port` (a name with a type: "string", "i32"
/// or "[string]") in `m`, or how reading it fails.
pub open spec fn port_value(m: Seq<(Seq<char>, Seq<u8>)>, port: (Seq<char>, Seq<char>)) -> Result<InputValue, FieldFailure> {
    if port.1 == "i32"@ {
        match i32_field(m, port.0) {
            Ok(n) => Ok(InputValue::Int(n)),
            Err(f) => Err(f),
        }
    } else if port.1 == "[string]"@ {
        match string_list_field(m, port.0) {
            Ok(l) => Ok(InputValue::StrList(l)),
            Err(f) => Err(f),
        }
    } else {
        match string_field(m, port.0) {
            Ok(s) => Ok(InputValue::Str(s)),
            Err(f) => Err(f),
        }
    }
}

/// The values of the input ports `ports` in `m`, read in order; or, at the
/// first port that cannot be read, how it fails and the port's name.
pub open spec fn read_ports(m: Seq<(Seq<char>, Seq<u8>)>, ports: Seq<(Seq<char>, Seq<char>)>) -> Result<
    Seq<InputValue>,
    (FieldFailure, Seq<char>),
>
    decreases ports.len(),
{
    if ports.len() == 0 {
        Ok(Seq::empty())
    } else {
        match port_value(m, ports[0]) {
            Err(f) => Err((f, ports[0].0)),
            Ok(v) => match read_ports(m, ports.drop_first()) {
                Err(e) => Err(e),
                Ok(vs) => Ok(seq![v] + vs),
            },
        }
    }
}

/// The three port types are told apart.
pub proof fn lemma_port_types_distinct()
    ensures
        "string"@ != "i32"@,
        "string"@ != "[string]"@,
        "[string]"@ != "i32"@,
{
    reveal_strlit("string");
    reveal_strlit("i32");
    reveal_strlit("[string]");
    assert("string"@.len() == 6 && "i32"@.len() == 3 && "[string]"@.len() == 8);
}

/// Reads the string input `name` of `map`.
pub fn read_string_input(map: &InputMap, name: &str) -> (r: Result<String, InputError>)
    ensures
        match string_field(input_map_view(*map), name@) {
            Ok(s) => r matches Ok(v) && v@ == s,
            Err(f) => r matches Err(e) && error_matches(e, f, name@),
        },
{
    match get_input(map, name) {
        None => Err(InputError::MissingInput(String::from_str(name))),
        Some(b) => match deserialize_string(b.as_slice()) {
            Ok(s) => Ok(s),
            Err(e) => Err(InputError::Codec(e)),
        },
    }
}

/// Reads the integer input `name` of `map`.
pub fn read_i32_input(map: &InputMap, name: &str) -> (r: Result<i32, InputError>)
    ensures
        match i32_field(input_map_view(*map), name@) {
            Ok(n) => r matches Ok(v) && v == n,
            Err(f) => r matches Err(e) && error_matches(e, f, name@),
        },
{
    match get_input(map, name) {
        None => Err(InputError::MissingInput(String::from_str(name))),
        Some(b) => match deserialize_i32(b.as_slice()) {
            Ok(n) => Ok(n),
            Err(e) => Err(InputError::Codec(e)),
        },
    }
}

/// Reads the string-list input `name` of `map`.
pub fn read_string_list_input(map: &InputMap, name: &str) -> (r: Result<Vec<String>, InputError>)
    ensures
        match string_list_field(input_map_view(*map), name@) {
            Ok(l) => r matches Ok(v) && v@.map_values(|s: String| s@) == l,
            Err(f) => r matches Err(e) && error_matches(e, f, name@),
        },
{
    match get_input(map, name) {
        None => Err(InputError::MissingInput(String::from_str(name))),
        Some(b) => match deserialize_string_list(b.as_slice()) {
            Ok(l) => Ok(l),
            Err(e) => Err(InputError::Codec(e)),
        },
    }
}

} // verus!
