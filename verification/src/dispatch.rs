use vstd::prelude::*;
use vstd::string::StringExecFns;

use crate::components::{operation_view, OperationSignature};
use crate::interfaces::{port_list_view, PortList};
use crate::text::str_eq;

verus! {

/// `names` joined with `sep` between each two of them.
pub open spec fn seq_join(names: Seq<Seq<char>>, sep: Seq<char>) -> Seq<char>
    decreases names.len(),
{
    if names.len() == 0 {
        Seq::empty()
    } else if names.len() == 1 {
        names[0]
    } else {
        seq_join(names.drop_last(), sep) + sep + names.last()
    }
}

/// Strings seen as their characters.
pub open spec fn names_view(v: Seq<String>) -> Seq<Seq<char>> {
    v.map_values(|s: String| s@)
}

/// The answer to an operation that no component of the dispatcher handles:
/// the operation asked for and the list of the components there are.
#[derive(Debug)]
pub struct ComponentNotFound {
    pub operation: String,
    pub available: String,
}

/// Where a dispatcher sends an operation.
#[derive(PartialEq, Eq, Structural, Clone, Copy, Debug)]
pub enum DispatchTarget {
    /// The component at this position of the dispatcher's list.
    Component(usize),
    /// The batch component, which the native dispatcher also accepts.
    Batch,
}

/// What a native module calls itself when it refuses an operation.
#[derive(PartialEq, Eq, Structural, Clone, Copy, Debug)]
pub enum NativeHost {
    Provider,
    Collection,
}

impl NativeHost {
    /// The word by which the module refers to itself.
    pub open spec fn spec_word(&self) -> Seq<char> {
        match self {
            NativeHost::Provider => "provider"@,
            NativeHost::Collection => "collection"@,
        }
    }
}

/// The message with which a native module refuses the operation `op`.
pub open spec fn native_not_found_message(host: NativeHost, op: Seq<char>) -> Seq<char> {
    "Component not found on this "@ + host.spec_word() + ": "@ + op
}

/// The message with which a native module refuses the operation `op`:
/// "Component not found on this provider: " (or "collection") followed by `op`.
pub fn native_not_found(host: NativeHost, op: &str) -> (m: String)
    ensures
        m@ == native_not_found_message(host, op@),
{
    proof {
        reveal_strlit("Component not found on this provider: ");
        reveal_strlit("Component not found on this collection: ");
        reveal_strlit("provider");
        reveal_strlit("collection");
        reveal_strlit(": ");
        reveal_strlit("Component not found on this ");
    }
    let prefix = match host {
        NativeHost::Provider => String::from_str("Component not found on this provider: "),
        NativeHost::Collection => String::from_str("Component not found on this collection: "),
    };
    let m = prefix.concat(op);
    assert(m@ =~= native_not_found_message(host, op@));
    m
}

/// Routes operations to the components of a module by name.
pub struct ComponentDispatcher {
    components: Vec<String>,
}

impl ComponentDispatcher {
    /// The names of the components, in order.
    pub closed spec fn spec_components(&self) -> Seq<Seq<char>> {
        names_view(self.components@)
    }

    /// A dispatcher for the components named in `components`.
    pub fn new(components: Vec<String>) -> (d: ComponentDispatcher)
        ensures
            d.spec_components() == names_view(components@),
    {
        ComponentDispatcher { components }
    }

    /// The component names joined by ", ", as an error lists them.
    pub fn all_components(&self) -> (s: String)
        ensures
            s@ == seq_join(self.spec_components(), ", "@),
    {
        proof {
            reveal_strlit(", ");
        }
        let mut s = String::new();
        let n = self.components.len();
        let mut i: usize = 0;
        assert(self.spec_components().take(0) =~= Seq::<Seq<char>>::empty());
        while i < n
            invariant
                n == self.components@.len(),
                i <= n,
                s@ == seq_join(self.spec_components().take(i as int), ", "@),
            decreases n - i,
        {
            if i != 0 {
                s.append(", ");
            }
            s.append(self.components[i].as_str());
            assert(self.spec_components().take(i + 1).drop_last() =~= self.spec_components().take(i as int));
            i = i + 1;
        }
        assert(self.spec_components().take(n as int) =~= self.spec_components());
        s
    }

    /// The position of the component named `op`, if any.
    fn find(&self, op: &str) -> (r: Option<usize>)
        ensures
            r matches Some(i) ==> i < self.spec_components().len() && self.spec_components()[i as int] == op@
                && forall|j: int| 0 <= j < i ==> self.spec_components()[j] != op@,
            r is None ==> forall|j: int| 0 <= j < self.spec_components().len() ==> self.spec_components()[j] != op@,
    {
        let n = self.components.len();
        let mut i: usize = 0;
        while i < n
            invariant
                n == self.components@.len(),
                i <= n,
                forall|j: int| 0 <= j < i ==> self.spec_components()[j] != op@,
            decreases n - i,
        {
            if str_eq(self.components[i].as_str(), op) {
                return Some(i);
            }
            i = i + 1;
        }
        None
    }

    /// Routes `op` as a WebAssembly module does: to the first component of
    /// that name, or, if there is none, to an error naming `op` and listing
    /// the components.
    pub fn dispatch(&self, op: &str) -> (r: Result<usize, ComponentNotFound>)
        ensures
            r matches Ok(i) ==> i < self.spec_components().len() && self.spec_components()[i as int] == op@
                && forall|j: int| 0 <= j < i ==> self.spec_components()[j] != op@,
            r matches Err(e) ==> e.operation@ == op@ && e.available@ == seq_join(self.spec_components(), ", "@),
            r is Err <==> forall|j: int| 0 <= j < self.spec_components().len() ==> self.spec_components()[j] != op@,
    {
        match self.find(op) {
            Some(i) => Ok(i),
            None => Err(ComponentNotFound { operation: String::from_str(op), available: self.all_components() }),
        }
    }

    /// Routes `op` as a native module does: like [`Self::dispatch`], except
    /// that `__batch__` names the batch component when no listed component
    /// has that name, and that an operation with no component is refused with
    /// the message of a native module of the kind `host`.
    pub fn dispatch_native(&self, op: &str, host: NativeHost) -> (r: Result<DispatchTarget, String>)
        ensures
            r matches Ok(DispatchTarget::Component(i)) ==> i < self.spec_components().len()
                && self.spec_components()[i as int] == op@ && forall|j: int| 0 <= j < i ==> self.spec_components()[j] != op@,
            r matches Ok(DispatchTarget::Batch) ==> op@ == "__batch__"@ && forall|j: int|
                0 <= j < self.spec_components().len() ==> self.spec_components()[j] != op@,
            r matches Err(m) ==> m@ == native_not_found_message(host, op@),
            r is Err <==> op@ != "__batch__"@ && forall|j: int| 0 <= j < self.spec_components().len() ==> self.spec_components()[j] != op@,
    {
        match self.find(op) {
            Some(i) => Ok(DispatchTarget::Component(i)),
            None => {
                if str_eq(op, "__batch__") {
                    Ok(DispatchTarget::Batch)
                } else {
                    Err(native_not_found(host, op))
                }
            },
        }
    }
}

fn names(list: &[&str]) -> (v: Vec<String>)
    ensures
        v@.len() == list@.len(),
        forall|i: int| 0 <= i < list@.len() ==> #[trigger] v@[i]@ == list@[i]@,
{
    let mut v: Vec<String> = Vec::new();
    let n = list.len();
    let mut i: usize = 0;
    while i < n
        invariant
            n == list@.len(),
            i <= n,
            v@.len() == i,
            forall|j: int| 0 <= j < i ==> #[trigger] v@[j]@ == list@[j]@,
        decreases n - i,
    {
        v.push(String::from_str(list[i]));
        i = i + 1;
    }
    v
}

/// The dispatcher of the waPC test component module.
pub fn wapc_dispatcher() -> (d: ComponentDispatcher)
    ensures
        d.spec_components() == seq!["copy"@, "error"@, "reverse"@, "reverse-uppercase"@, "uppercase"@, "validate"@],
{
    let d = ComponentDispatcher::new(names(&["copy", "error", "reverse", "reverse-uppercase", "uppercase", "validate"]));
    assert(d.spec_components() =~= seq!["copy"@, "error"@, "reverse"@, "reverse-uppercase"@, "uppercase"@, "validate"@]);
    d
}

/// The dispatcher of the WebAssembly test component module.
pub fn wasm_dispatcher() -> (d: ComponentDispatcher)
    ensures
        d.spec_components() == seq!["error"@, "reverse"@, "reverse-uppercase"@, "scratch"@, "uppercase"@, "validate"@],
{
    let d = ComponentDispatcher::new(names(&["error", "reverse", "reverse-uppercase", "scratch", "uppercase", "validate"]));
    assert(d.spec_components() =~= seq!["error"@, "reverse"@, "reverse-uppercase"@, "scratch"@, "uppercase"@, "validate"@]);
    d
}

/// The dispatcher of the command-line test component module.
pub fn main_dispatcher() -> (d: ComponentDispatcher)
    ensures
        d.spec_components() == seq!["main"@],
{
    let d = ComponentDispatcher::new(names(&["main"]));
    assert(d.spec_components() =~= seq!["main"@]);
    d
}

/// The dispatcher of the network test component module.
pub fn network_dispatcher() -> (d: ComponentDispatcher)
    ensures
        d.spec_components() == seq!["byte-count"@, "main"@],
{
    let d = ComponentDispatcher::new(names(&["byte-count", "main"]));
    assert(d.spec_components() =~= seq!["byte-count"@, "main"@]);
    d
}

/// The dispatcher of the WASI test component module.
pub fn wasi_dispatcher() -> (d: ComponentDispatcher)
    ensures
        d.spec_components() == seq!["fs-read"@],
{
    let d = ComponentDispatcher::new(names(&["fs-read"]));
    assert(d.spec_components() =~= seq!["fs-read"@]);
    d
}

/// A named enumeration among a module's types, with each variant's name and number.
pub struct EnumSignature {
    pub name: String,
    pub values: Vec<(String, u32)>,
}

/// An enumeration signature seen as plain values.
pub open spec fn enum_view(e: EnumSignature) -> (Seq<char>, Seq<(Seq<char>, u32)>) {
    (e.name@, e.values@.map_values(|v: (String, u32)| (v.0@, v.1)))
}

/// What a collection says it supports: streaming, state, and its interface version.
pub struct CollectionFeatures {
    pub streaming: bool,
    pub stateful: bool,
    pub version: u32,
}

/// What a native module reports of itself: its name, its features where it
/// is a collection, the signature format and its version, the types it
/// defines, each component with its input and output ports (a port type is
/// written "string", "u32", "u64", "i64", "[string]" or "link"), the
/// well-known interfaces it implements, and the ports of its configuration.
pub struct ProviderSignature {
    pub name: Option<String>,
    pub features: Option<CollectionFeatures>,
    pub format: u32,
    pub version: String,
    pub types: Vec<EnumSignature>,
    pub components: Vec<OperationSignature>,
    pub wellknown: Vec<String>,
    pub config: PortList,
}

/// The parts of a signature that are the same for every test component
/// module: format 1, version 0.0.1, no well-known interfaces and no
/// configuration.
pub open spec fn common_signature(s: ProviderSignature) -> bool {
    &&& s.format == 1
    &&& s.version@ == "0.0.1"@
    &&& s.wellknown@.len() == 0
    &&& s.config@.len() == 0
}

/// The components of a signature seen as plain values.
pub open spec fn components_view(s: ProviderSignature) -> Seq<(Seq<char>, Seq<(Seq<char>, Seq<char>)>, Seq<(Seq<char>, Seq<char>)>)> {
    s.components@.map_values(|o: OperationSignature| operation_view(o))
}

/// The types of a signature seen as plain values.
pub open spec fn types_view(s: ProviderSignature) -> Seq<(Seq<char>, Seq<(Seq<char>, u32)>)> {
    s.types@.map_values(|e: EnumSignature| enum_view(e))
}

fn operation(name: &str, inputs: PortList, outputs: PortList) -> (o: OperationSignature)
    ensures
        operation_view(o) == (name@, port_list_view(inputs), port_list_view(outputs)),
{
    OperationSignature { name: String::from_str(name), inputs, outputs }
}

fn provider(
    name: &str,
    features: Option<CollectionFeatures>,
    types: Vec<EnumSignature>,
    components: Vec<OperationSignature>,
) -> (s: ProviderSignature)
    ensures
        s.name matches Some(n) && n@ == name@,
        s.features == features,
        s.types == types,
        s.components == components,
        common_signature(s),
{
    let config: PortList = Vec::new();
    ProviderSignature {
        name: Some(String::from_str(name)),
        features,
        format: 1,
        version: String::from_str("0.0.1"),
        types,
        components,
        wellknown: Vec::new(),
        config,
    }
}

/// The ports of the network module's components.
pub open spec fn network_components() -> Seq<(Seq<char>, Seq<(Seq<char>, Seq<char>)>, Seq<(Seq<char>, Seq<char>)>)> {
    seq![
        ("byte-count"@, seq![("input"@, "string"@)], seq![("output"@, "u64"@)]),
        ("main"@, seq![("argv"@, "[string]"@), ("network"@, "link"@)], seq![("code"@, "u32"@)]),
    ]
}

/// The signature of the network test component module.
pub fn network_signature() -> (s: ProviderSignature)
    ensures
        s.name matches Some(n) && n@ == "test-main-network-component"@,
        s.features is None,
        common_signature(s),
        types_view(s).len() == 0,
        components_view(s) == network_components(),
{
    let byte_count_in: PortList = vec![("input", "string")];
    let byte_count_out: PortList = vec![("output", "u64")];
    let main_in: PortList = vec![("argv", "[string]"), ("network", "link")];
    let main_out: PortList = vec![("code", "u32")];
    assert(port_list_view(byte_count_in) =~= seq![("input"@, "string"@)]);
    assert(port_list_view(byte_count_out) =~= seq![("output"@, "u64"@)]);
    assert(port_list_view(main_in) =~= seq![("argv"@, "[string]"@), ("network"@, "link"@)]);
    assert(port_list_view(main_out) =~= seq![("code"@, "u32"@)]);
    let mut components: Vec<OperationSignature> = Vec::new();
    components.push(operation("byte-count", byte_count_in, byte_count_out));
    components.push(operation("main", main_in, main_out));
    let s = provider("test-main-network-component", None, Vec::new(), components);
    assert(components_view(s) =~= network_components());
    assert(types_view(s) =~= Seq::empty());
    s
}

/// The ports of the WASI module's components.
pub open spec fn wasi_components() -> Seq<(Seq<char>, Seq<(Seq<char>, Seq<char>)>, Seq<(Seq<char>, Seq<char>)>)> {
    seq![("fs-read"@, seq![("filename"@, "string"@)], seq![("contents"@, "string"@)])]
}

/// The signature of the WASI test component module.
pub fn wasi_signature() -> (s: ProviderSignature)
    ensures
        s.name matches Some(n) && n@ == "test-wasi-component"@,
        s.features is None,
        common_signature(s),
        types_view(s).len() == 0,
        components_view(s) == wasi_components(),
{
    let fs_in: PortList = vec![("filename", "string")];
    let fs_out: PortList = vec![("contents", "string")];
    assert(port_list_view(fs_in) =~= seq![("filename"@, "string"@)]);
    assert(port_list_view(fs_out) =~= seq![("contents"@, "string"@)]);
    let mut components: Vec<OperationSignature> = Vec::new();
    components.push(operation("fs-read", fs_in, fs_out));
    let s = provider("test-wasi-component", None, Vec::new(), components);
    assert(components_view(s) =~= wasi_components());
    assert(types_view(s) =~= Seq::empty());
    s
}

/// A component that takes a string `input` and sends a string `output`.
pub open spec fn string_component(name: Seq<char>) -> (Seq<char>, Seq<(Seq<char>, Seq<char>)>, Seq<(Seq<char>, Seq<char>)>) {
    (name, seq![("input"@, "string"@)], seq![("output"@, "string"@)])
}

/// The ports of the WebAssembly module's components.
pub open spec fn wasm_components() -> Seq<(Seq<char>, Seq<(Seq<char>, Seq<char>)>, Seq<(Seq<char>, Seq<char>)>)> {
    seq![
        string_component("error"@),
        string_component("reverse"@),
        ("reverse-uppercase"@, seq![("input"@, "string"@), ("link"@, "link"@)], seq![("output"@, "string"@)]),
        ("scratch"@, seq![("name"@, "string"@), ("age"@, "i64"@)], seq![("message"@, "string"@), ("age"@, "i64"@)]),
        string_component("uppercase"@),
        string_component("validate"@),
    ]
}

/// The types of the WebAssembly module: the enumeration `Unit` with the
/// variants "0" and "1".
pub open spec fn wasm_types() -> Seq<(Seq<char>, Seq<(Seq<char>, u32)>)> {
    seq![("Unit"@, seq![("0"@, 0u32), ("1"@, 1u32)])]
}

fn string_ports_operation(name: &str) -> (o: OperationSignature)
    ensures
        operation_view(o) == string_component(name@),
{
    let inputs: PortList = vec![("input", "string")];
    let outputs: PortList = vec![("output", "string")];
    assert(port_list_view(inputs) =~= seq![("input"@, "string"@)]);
    assert(port_list_view(outputs) =~= seq![("output"@, "string"@)]);
    operation(name, inputs, outputs)
}

/// The signature of the WebAssembly test component module: a collection
/// that neither streams nor keeps state, at interface version 0.
pub fn wasm_signature() -> (s: ProviderSignature)
    ensures
        s.name matches Some(n) && n@ == "test-component"@,
        s.features matches Some(f) && !f.streaming && !f.stateful && f.version == 0,
        common_signature(s),
        types_view(s) == wasm_types(),
        components_view(s) == wasm_components(),
{
    let ru_in: PortList = vec![("input", "string"), ("link", "link")];
    let ru_out: PortList = vec![("output", "string")];
    let scratch_in: PortList = vec![("name", "string"), ("age", "i64")];
    let scratch_out: PortList = vec![("message", "string"), ("age", "i64")];
    assert(port_list_view(ru_in) =~= seq![("input"@, "string"@), ("link"@, "link"@)]);
    assert(port_list_view(ru_out) =~= seq![("output"@, "string"@)]);
    assert(port_list_view(scratch_in) =~= seq![("name"@, "string"@), ("age"@, "i64"@)]);
    assert(port_list_view(scratch_out) =~= seq![("message"@, "string"@), ("age"@, "i64"@)]);
    let mut components: Vec<OperationSignature> = Vec::new();
    components.push(string_ports_operation("error"));
    components.push(string_ports_operation("reverse"));
    components.push(operation("reverse-uppercase", ru_in, ru_out));
    components.push(operation("scratch", scratch_in, scratch_out));
    components.push(string_ports_operation("uppercase"));
    components.push(string_ports_operation("validate"));
    let mut values: Vec<(String, u32)> = Vec::new();
    values.push((String::from_str("0"), 0));
    values.push((String::from_str("1"), 1));
    let unit = EnumSignature { name: String::from_str("Unit"), values };
    let mut types: Vec<EnumSignature> = Vec::new();
    types.push(unit);
    let features = CollectionFeatures { streaming: false, stateful: false, version: 0 };
    let s = provider("test-component", Some(features), types, components);
    assert(enum_view(s.types@[0]).1 =~= seq![("0"@, 0u32), ("1"@, 1u32)]);
    assert(types_view(s) =~= wasm_types());
    assert(components_view(s) =~= wasm_components());
    s
}

} // verus!
