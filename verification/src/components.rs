use vstd::arithmetic::power::{lemma_pow_increases, pow};
use vstd::prelude::*;
use vstd::string::StringExecFns;

use crate::interfaces::{port_list_view, PortList};
use crate::text::{chars_of, str_eq, string_push};

verus! {

/// The fewest bytes a password may have.
pub const MINIMUM_LENGTH: usize = 8;

/// The most bytes a password may have.
pub const MAXIMUM_LENGTH: usize = 512;

/// Why a password was refused.
#[derive(PartialEq, Eq, Structural, Clone, Copy, Debug)]
pub enum LengthError {
    TooShort,
    TooLong,
}

impl LengthError {
    /// The message of the error.
    pub open spec fn spec_message(&self) -> Seq<char> {
        match self {
            LengthError::TooShort => "Needs to be longer than 8 characters"@,
            LengthError::TooLong => "Needs to be shorter than 512 characters"@,
        }
    }

    /// The message of the error.
    pub fn to_string(&self) -> (s: String)
        ensures
            s@ == self.spec_message(),
    {
        match self {
            LengthError::TooShort => String::from_str("Needs to be longer than 8 characters"),
            LengthError::TooLong => String::from_str("Needs to be shorter than 512 characters"),
        }
    }
}

/// Checks the length of a password, counted in UTF-8 bytes: shorter than
/// the minimum or longer than the maximum is refused; otherwise the password
/// is passed on unchanged.
pub fn validate(password: &str) -> (r: Result<String, LengthError>)
    ensures
        password.len() < MINIMUM_LENGTH ==> r == Err::<String, LengthError>(LengthError::TooShort),
        MINIMUM_LENGTH <= password.len() && password.len() > MAXIMUM_LENGTH ==> r == Err::<String, LengthError>(
            LengthError::TooLong,
        ),
        MINIMUM_LENGTH <= password.len() <= MAXIMUM_LENGTH ==> (r matches Ok(s) && s@ == password@),
{
    let n = password.len();
    if n < MINIMUM_LENGTH {
        Err(LengthError::TooShort)
    } else if n > MAXIMUM_LENGTH {
        Err(LengthError::TooLong)
    } else {
        Ok(String::from_str(password))
    }
}

/// The characters of `input` in reverse order.
pub fn reverse(input: &str) -> (r: String)
    ensures
        r@ == input@.reverse(),
{
    let chars = chars_of(input);
    let mut out = String::new();
    let mut i = chars.len();
    while i > 0
        invariant
            i <= chars@.len(),
            chars@ == input@,
            out@ == input@.subrange(i as int, input@.len() as int).reverse(),
        decreases i,
    {
        i = i - 1;
        string_push(&mut out, chars[i]);
        assert(out@ =~= input@.subrange(i as int, input@.len() as int).reverse());
    }
    assert(input@.subrange(0, input@.len() as int) =~= input@);
    out
}

/// Reversing the characters of a string twice gives the string back.
pub proof fn lemma_reverse_twice(s: Seq<char>)
    ensures
        s.reverse().reverse() == s,
{
    assert(s.reverse().reverse() =~= s);
}

/// The upper-case form of a string, as Unicode defines it.
pub uninterp spec fn uppercase_of(s: Seq<char>) -> Seq<char>;

/// Calls `str::to_uppercase` of std, whose result (the Unicode upper-case
/// mapping of each character) depends on the string alone; the contract
/// names it and says no more of it.
#[verifier::external_body]
fn str_to_uppercase(s: &str) -> (r: String)
    ensures
        r@ == uppercase_of(s@),
{
    s.to_uppercase()
}

/// The upper-case form of `input`.
pub fn uppercase(input: &str) -> (r: String)
    ensures
        r@ == uppercase_of(input@),
{
    str_to_uppercase(input)
}

/// What the reverse-uppercase operation sends when its link leads to this
/// module's reverse and uppercase operations: the upper-case form of the
/// input reversed.
pub fn reverse_uppercase(input: &str) -> (r: String)
    ensures
        r@ == uppercase_of(input@.reverse()),
{
    let reversed = reverse(input);
    uppercase(reversed.as_str())
}

/// The outputs of the copy operation: `input`, `times` times (none when
/// `times` is not positive).
pub fn copy(input: &str, times: i8) -> (r: Vec<String>)
    ensures
        r@.len() == (if times > 0 { times as int } else { 0 }),
        forall|i: int| 0 <= i < r@.len() ==> #[trigger] r@[i]@ == input@,
{
    let mut out: Vec<String> = Vec::new();
    let mut k: i8 = 0;
    while k < times
        invariant
            0 <= k,
            times > 0 ==> k <= times,
            times <= 0 ==> k == 0,
            out@.len() == k,
            forall|i: int| 0 <= i < out@.len() ==> #[trigger] out@[i]@ == input@,
        decreases times - k,
    {
        out.push(String::from_str(input));
        k = k + 1;
    }
    out
}

/// The message of a failed integer conversion.
pub open spec fn conversion_error_message() -> Seq<char> {
    "out of range integral type conversion attempted"@
}

/// The number of UTF-8 bytes of `input`, when it fits in 32 bits.
pub fn byte_count(input: &str) -> (r: Result<u32, String>)
    ensures
        input.len() <= u32::MAX ==> r == Ok::<u32, String>(input.len() as u32),
        input.len() > u32::MAX ==> (r matches Err(e) && e@ == conversion_error_message()),
{
    let n = input.len();
    if n <= 4294967295usize {
        Ok(n as u32)
    } else {
        proof {
            reveal_strlit("out of range integral type conversion attempted");
        }
        Err(String::from_str("out of range integral type conversion attempted"))
    }
}

/// The failure reported when a command-line component gets no argument.
pub open spec fn missing_argument_message() -> Seq<char> {
    "No argument passed as first argument"@
}

/// Takes the file name that a command-line component works on: the last
/// argument, removed from `argv`. Fails when there is none.
pub fn take_file_argument(argv: &mut Vec<String>) -> (r: Result<String, String>)
    ensures
        old(argv)@.len() == 0 ==> final(argv)@ == old(argv)@,
        old(argv)@.len() == 0 ==> (r matches Err(e) && e@ == missing_argument_message()),
        old(argv)@.len() > 0 ==> final(argv)@ == old(argv)@.drop_last() && r == Ok::<String, String>(
            old(argv)@.last(),
        ),
{
    match argv.pop() {
        Some(f) => Ok(f),
        None => {
            proof {
                reveal_strlit("No argument passed as first argument");
            }
            Err(String::from_str("No argument passed as first argument"))
        },
    }
}

/// The exit code of the command-line component for the contents of its
/// file: 0 when there is any, 1 when the file is empty.
pub fn exit_code_for_contents(contents: &str) -> (code: u32)
    ensures
        code == (if contents@.len() > 0 { 0u32 } else { 1u32 }),
{
    if !contents.is_empty() {
        0
    } else {
        1
    }
}

/// The sum of two numbers, as the add operation sends it.
pub fn add(left: u64, right: u64) -> (sum: u64)
    requires
        left + right <= u64::MAX,
    ensures
        sum == left + right,
{
    left + right
}

/// What the add operation sends for one pair of input packets: their sum,
/// or, if either is an error, that error (the left one first) after
/// "Error adding numbers: ".
pub fn add_packets(left: Result<u64, String>, right: Result<u64, String>) -> (r: Result<u64, String>)
    requires
        (left, right) matches (Ok(l), Ok(r)) ==> l + r <= u64::MAX,
    ensures
        match (left, right) {
            (Ok(l), Ok(rr)) => r == Ok::<u64, String>((l + rr) as u64),
            (Err(e), _) => r matches Err(m) && m@ == "Error adding numbers: "@ + e@,
            (Ok(_), Err(e)) => r matches Err(m) && m@ == "Error adding numbers: "@ + e@,
        },
{
    proof {
        reveal_strlit("Error adding numbers: ");
    }
    match left {
        Ok(l) => match right {
            Ok(rr) => Ok(self::add(l, rr)),
            Err(e) => Err(String::from_str("Error adding numbers: ").concat(e.as_str())),
        },
        Err(e) => Err(String::from_str("Error adding numbers: ").concat(e.as_str())),
    }
}

/// `input` raised to the power `exponent`, as the power operation sends it.
pub fn power(input: u64, exponent: u32) -> (r: u64)
    requires
        pow(input as int, exponent as nat) <= u64::MAX,
    ensures
        r == pow(input as int, exponent as nat),
{
    let mut r: u64 = 1;
    let mut i: u32 = 0;
    proof {
        reveal(pow);
    }
    while i < exponent
        invariant
            i <= exponent,
            r == pow(input as int, i as nat),
            pow(input as int, exponent as nat) <= u64::MAX,
        decreases exponent - i,
    {
        proof {
            reveal(pow);
            assert(pow(input as int, (i + 1) as nat) == input * pow(input as int, i as nat));
            if input > 0 {
                lemma_pow_increases(input as nat, (i + 1) as nat, exponent as nat);
            }
            assert(r * input == input * r) by (nonlinear_arith);
        }
        r = r * input;
        i = i + 1;
    }
    r
}

/// What the test component sends for an input: the input after "TEST: ".
pub fn test_component(input: &str) -> (r: String)
    ensures
        r@ == "TEST: "@ + input@,
{
    proof {
        reveal_strlit("TEST: ");
    }
    String::from_str("TEST: ").concat(input)
}

/// The error of the collection's `error` operation.
pub open spec fn always_errors_message() -> Seq<char> {
    "Always errors"@
}

/// A native collection with two operations: `error`, which always fails,
/// and `test-component`, which answers "TEST: " followed by its input.
pub struct Collection {}

impl Collection {
    /// Invokes the operation `operation` with the string input `input`;
    /// `None` when the collection has no such operation.
    pub fn invoke(&self, operation: &str, input: &str) -> (r: Option<Result<String, String>>)
        ensures
            operation@ == "error"@ ==> (r matches Some(Err(e)) && e@ == always_errors_message()),
            operation@ == "test-component"@ ==> (r matches Some(Ok(s)) && s@ == "TEST: "@ + input@),
            operation@ != "error"@ && operation@ != "test-component"@ ==> r is None,
    {
        proof {
            reveal_strlit("error");
            reveal_strlit("test-component");
            assert("test-component"@.len() != "error"@.len());
        }
        if str_eq(operation, "error") {
            Some(Err(String::from_str("Always errors")))
        } else if str_eq(operation, "test-component") {
            Some(Ok(test_component(input)))
        } else {
            None
        }
    }
}

/// An operation of a collection with its input and output ports.
pub struct OperationSignature {
    pub name: String,
    pub inputs: PortList,
    pub outputs: PortList,
}

/// A collection's name, version and operations, as it reports them.
pub struct ComponentSignature {
    pub name: Option<String>,
    pub version: String,
    pub operations: Vec<OperationSignature>,
}

/// An operation signature seen as plain values.
pub open spec fn operation_view(o: OperationSignature) -> (Seq<char>, Seq<(Seq<char>, Seq<char>)>, Seq<(Seq<char>, Seq<char>)>) {
    (o.name@, port_list_view(o.inputs), port_list_view(o.outputs))
}

/// The operations of the native test collection: each takes a string
/// `input` and sends a string `output`.
pub open spec fn collection_operations() -> Seq<(Seq<char>, Seq<(Seq<char>, Seq<char>)>, Seq<(Seq<char>, Seq<char>)>)> {
    seq![
        ("error"@, seq![("input"@, "string"@)], seq![("output"@, "string"@)]),
        ("test-component"@, seq![("input"@, "string"@)], seq![("output"@, "string"@)]),
    ]
}

fn string_operation(name: &str) -> (o: OperationSignature)
    ensures
        operation_view(o) == (name@, seq![("input"@, "string"@)], seq![("output"@, "string"@)]),
{
    let o = OperationSignature {
        name: String::from_str(name),
        inputs: vec![("input", "string")],
        outputs: vec![("output", "string")],
    };
    assert(port_list_view(o.inputs) =~= seq![("input"@, "string"@)]);
    assert(port_list_view(o.outputs) =~= seq![("output"@, "string"@)]);
    o
}

impl Collection {
    /// The signature that the collection reports: its name, version 0.1.0
    /// and its two operations.
    pub fn get_list(&self) -> (r: Vec<ComponentSignature>)
        ensures
            r@.len() == 1,
            r@[0].name matches Some(n) && n@ == "test-native-collection"@,
            r@[0].version@ == "0.1.0"@,
            r@[0].operations@.map_values(|o: OperationSignature| operation_view(o)) == collection_operations(),
    {
        let mut ops: Vec<OperationSignature> = Vec::new();
        ops.push(string_operation("error"));
        ops.push(string_operation("test-component"));
        let sig = ComponentSignature {
            name: Some(String::from_str("test-native-collection")),
            version: String::from_str("0.1.0"),
            operations: ops,
        };
        assert(sig.operations@.map_values(|o: OperationSignature| operation_view(o)) =~= collection_operations());
        let mut r: Vec<ComponentSignature> = Vec::new();
        r.push(sig);
        r
    }
}

/// A unit of time.
#[derive(PartialEq, Eq, Structural, Clone, Copy, Debug)]
pub enum Unit {
    Millis,
    Micros,
}

} // verus!

verus! {

/// The response headers of the HTTP handler for a body of `body_len` bytes,
/// in the order they are set.
pub open spec fn http_handler_headers(body_len: nat) -> Seq<(Seq<char>, Seq<Seq<char>>)> {
    seq![
        ("Content-Type"@, seq!["application/json"@]),
        ("Access-Control-Allow-Origin"@, seq!["*"@]),
        ("Content-Length"@, seq![crate::text::decimal(body_len)]),
    ]
}

fn header(name: &str, value: String) -> (h: (String, Vec<String>))
    ensures
        h.0@ == name@,
        h.1@.len() == 1,
        h.1@[0]@ == value@,
{
    let mut values: Vec<String> = Vec::new();
    values.push(value);
    (String::from_str(name), values)
}

/// The response that the HTTP handler sends with a body of `body_len`
/// bytes: version 1.1, status OK, a JSON content type, any origin allowed,
/// and the body's length.
pub fn http_handler_response(body_len: usize) -> (r: crate::http::HttpResponse)
    ensures
        r.version == crate::http::HttpVersion::Http11,
        r.status == crate::http::StatusCode::OkStatus,
        crate::http::value_map_view(r.headers) == http_handler_headers(body_len as nat),
        crate::interfaces::names_distinct(crate::http::value_map_view(r.headers)),
{
    let mut headers: Vec<(String, Vec<String>)> = Vec::new();
    headers.push(header("Content-Type", String::from_str("application/json")));
    headers.push(header("Access-Control-Allow-Origin", String::from_str("*")));
    headers.push(header("Content-Length", crate::text::usize_to_decimal(body_len)));
    let r = crate::http::HttpResponse {
        version: crate::http::HttpVersion::Http11,
        status: crate::http::StatusCode::OkStatus,
        headers,
    };
    assert(crate::http::value_map_view(r.headers)[0].1 =~= seq!["application/json"@]);
    assert(crate::http::value_map_view(r.headers)[1].1 =~= seq!["*"@]);
    assert(crate::http::value_map_view(r.headers)[2].1 =~= seq![crate::text::decimal(body_len as nat)]);
    assert(crate::http::value_map_view(r.headers) =~= http_handler_headers(body_len as nat));
    proof {
        reveal_strlit("Content-Type");
        reveal_strlit("Access-Control-Allow-Origin");
        reveal_strlit("Content-Length");
        assert("Content-Type"@[0] != "Access-Control-Allow-Origin"@[0]);
        assert("Content-Length"@[8] != "Content-Type"@[8]);
        assert("Content-Length"@[0] != "Access-Control-Allow-Origin"@[0]);
    }
    r
}

/// The body that the HTTP handler answers with for a request message:
/// the message with its characters reversed.
pub fn http_handler_message(message: &str) -> (r: String)
    ensures
        r@ == message@.reverse(),
{
    reverse(message)
}

} // verus!
