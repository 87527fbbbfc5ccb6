//! The execution engine: compiles extension bytes into validated, immutable
//! modules whose exported entry point has been located.
use vstd::prelude::*;

verus! {

#[verifier::external_type_specification]
#[verifier::external_body]
pub struct ExEngine(wasmtime::Engine);

#[verifier::external_type_specification]
#[verifier::external_body]
pub struct ExComponent(wasmtime::component::Component);

#[verifier::external_type_specification]
#[verifier::external_body]
pub struct ExComponentExportIndex(wasmtime::component::ComponentExportIndex);

pub assume_specification[ <wasmtime::component::Component as Clone>::clone ](
    component: &wasmtime::component::Component,
) -> wasmtime::component::Component;

/// The interface an extension exports its entry point under.
pub const PROXY_INTERFACE: &'static str = "wit:crossroads/proxy@0.1.0";

/// The name of the parameterless entry point inside that interface.
pub const ENTRY_POINT: &'static str = "handle";

/// Why bytes were not accepted as an extension module.
#[derive(Debug, PartialEq, Eq)]
pub enum CompileError {
    /// The bytes are not a valid component; the text is the engine's reason.
    Malformed(String),
    /// The component does not export the proxy interface.
    MissingInterface,
    /// The proxy interface has no entry point.
    MissingEntryPoint,
    /// The host's capability linkage cannot meet the component's imports
    /// (an unknown interface, or one of another version or type); the text
    /// is the linker's reason.
    UnmetImports(String),
    /// The entry point is not `func() -> resolution`; the text is the type
    /// checker's reason.
    EntryPointType(String),
}

impl CompileError {
    pub open spec fn text(&self) -> Seq<char> {
        match self {
            CompileError::Malformed(reason) => "invalid component: "@ + reason@,
            CompileError::MissingInterface => "the component does not export the proxy interface"@,
            CompileError::MissingEntryPoint => "the proxy interface has no entry point"@,
            CompileError::UnmetImports(reason) => "imports not satisfied: "@ + reason@,
            CompileError::EntryPointType(reason) => "entry point has the wrong type: "@ + reason@,
        }
    }

    /// A description of the error.
    pub fn message(&self) -> (r: String)
        ensures
            r@ == self.text(),
    {
        match self {
            CompileError::Malformed(reason) => String::from_str("invalid component: ").concat(
                reason.as_str(),
            ),
            CompileError::MissingInterface => String::from_str(
                "the component does not export the proxy interface",
            ),
            CompileError::MissingEntryPoint => String::from_str(
                "the proxy interface has no entry point",
            ),
            CompileError::UnmetImports(reason) => String::from_str(
                "imports not satisfied: ",
            ).concat(reason.as_str()),
            CompileError::EntryPointType(reason) => String::from_str(
                "entry point has the wrong type: ",
            ).concat(reason.as_str()),
        }
    }
}

/// Relies on `wasmtime::Engine::new` with the default configuration; the
/// error, if any, as text.
#[verifier::external_body]
fn default_engine() -> (r: Result<wasmtime::Engine, String>) {
    wasmtime::Engine::new(&wasmtime::Config::new()).map_err(|e| e.to_string())
}

/// Whether `wasmtime` (default configuration) validates and compiles
/// `bytes` as a component.
pub uninterp spec fn accepted_component(bytes: Seq<u8>) -> bool;

/// Whether the component compiled from `bytes` exports `name`, at the top
/// level (`instance` is `None`) or inside the exported instance `instance`.
pub uninterp spec fn has_export(bytes: Seq<u8>, instance: Option<Seq<char>>, name: Seq<char>) -> bool;

/// Bytes that make an extension module: a valid component that exports the
/// proxy interface with its entry point.
pub open spec fn is_extension(bytes: Seq<u8>) -> bool {
    &&& accepted_component(bytes)
    &&& has_export(bytes, None, PROXY_INTERFACE@)
    &&& has_export(bytes, Some(PROXY_INTERFACE@), ENTRY_POINT@)
}

/// A compiled component with the results of looking up an exported instance
/// and, inside it, an exported item.
pub type Compiled = (
    wasmtime::component::Component,
    Option<wasmtime::component::ComponentExportIndex>,
    Option<wasmtime::component::ComponentExportIndex>,
);

/// Relies on `wasmtime::component::Component::from_binary` (validates and
/// compiles a component; the error as text), then on
/// `Component::get_export_index` for `interface` at the top level and for
/// `entry` inside it. The second lookup means nothing where the first found
/// no instance.
#[verifier::external_body]
fn compile_component(engine: &wasmtime::Engine, bytes: &[u8], interface: &str, entry: &str) -> (r:
    Result<Compiled, String>)
    ensures
        r is Ok <==> accepted_component(bytes@),
        r matches Ok((_, i, _)) ==> (i is Some <==> has_export(bytes@, None, interface@)),
        r matches Ok((_, i, e)) ==> (i is Some ==> (e is Some <==> has_export(
            bytes@,
            Some(interface@),
            entry@,
        ))),
{
    wasmtime::component::Component::from_binary(engine, bytes).map(|c| {
        let i = c.get_export_index(None, interface);
        let e = c.get_export_index(i.as_ref(), entry);
        (c, i, e)
    }).map_err(|e| e.to_string())
}

/// A compiled extension with its entry point located. It is never changed
/// after compilation; its view is the bytes it was compiled from.
pub struct Module {
    component: wasmtime::component::Component,
    entry: wasmtime::component::ComponentExportIndex,
    source: Ghost<Seq<u8>>,
}

impl View for Module {
    type V = Seq<u8>;

    closed spec fn view(&self) -> Seq<u8> {
        self.source@
    }
}

impl Module {
    #[verifier::type_invariant]
    closed spec fn compiled_from_extension(&self) -> bool {
        is_extension(self.source@)
    }

    /// The compiled component, for instantiation.
    pub fn component(&self) -> &wasmtime::component::Component {
        &self.component
    }

    /// The index of the entry point in the component's exports.
    pub fn entry_point(&self) -> wasmtime::component::ComponentExportIndex {
        self.entry
    }

    /// Another reference to the same compiled module.
    pub fn share(&self) -> (r: Module)
        ensures
            r@ == self@,
    {
        proof {
            use_type_invariant(self);
        }
        Module { component: self.component.clone(), entry: self.entry, source: self.source }
    }
}

/// The process-wide engine. It holds no per-invocation state and is not
/// changed after it is made.
pub struct ExecutionEngine {
    engine: wasmtime::Engine,
}

impl ExecutionEngine {
    /// An engine with the default configuration, or the reason there is none.
    pub fn new() -> (r: Result<ExecutionEngine, String>) {
        match default_engine() {
            Ok(engine) => Ok(ExecutionEngine { engine }),
            Err(e) => Err(e),
        }
    }

    /// The underlying engine, for building the capability linkage.
    pub fn engine(&self) -> &wasmtime::Engine {
        &self.engine
    }

    /// Validates and compiles `bytes`, then checks that the component
    /// exports the proxy interface with its entry point. It succeeds exactly
    /// on extension bytes, and a module it returns is compiled from exactly
    /// `bytes`; otherwise the error names the first check that failed.
    pub fn compile(&self, bytes: &[u8]) -> (r: Result<Module, CompileError>)
        ensures
            r is Ok <==> is_extension(bytes@),
            r matches Ok(m) ==> m@ == bytes@,
            !accepted_component(bytes@) ==> r matches Err(CompileError::Malformed(_)),
            accepted_component(bytes@) && !has_export(bytes@, None, PROXY_INTERFACE@) ==> r == Err::<
                Module,
                CompileError,
            >(CompileError::MissingInterface),
            accepted_component(bytes@) && has_export(bytes@, None, PROXY_INTERFACE@)
                && !has_export(bytes@, Some(PROXY_INTERFACE@), ENTRY_POINT@) ==> r == Err::<
                Module,
                CompileError,
            >(CompileError::MissingEntryPoint),
    {
        let (component, interface, entry) = match compile_component(
            &self.engine,
            bytes,
            PROXY_INTERFACE,
            ENTRY_POINT,
        ) {
            Ok(c) => c,
            Err(e) => return Err(CompileError::Malformed(e)),
        };
        match exports_checked(interface, entry) {
            Ok(entry) => Ok(Module { component, entry, source: Ghost(bytes@) }),
            Err(e) => Err(e),
        }
    }
}

/// What the host's capability linkage found when type-checking a module
/// against it: whether its imports can be met, and whether its entry point
/// has the type of the capability contract. The check is made where the
/// linkage lives; these are its results.
pub struct Linkage {
    pub imports: Result<(), String>,
    pub entry_type: Result<(), String>,
}

/// The module linkage_verdict by a linkage verdict, or the first failure.
pub open spec fn linkage_verdict(
    r: Result<Module, CompileError>,
    module: Seq<u8>,
    linkage: Linkage,
) -> bool {
    match linkage.imports {
        Err(reason) => r == Err::<Module, CompileError>(CompileError::UnmetImports(reason)),
        Ok(_) => match linkage.entry_type {
            Err(reason) => r == Err::<Module, CompileError>(CompileError::EntryPointType(reason)),
            Ok(_) => r matches Ok(m) && m@ == module,
        },
    }
}

/// Accepts a compiled module only where the linkage can meet its imports
/// and its entry point has the contract's type: such a module can be
/// instantiated and called.
pub fn accept_linked(module: Module, linkage: Linkage) -> (r: Result<Module, CompileError>)
    ensures
        linkage_verdict(r, module@, linkage),
        r matches Ok(m) ==> is_extension(m@),
{
    proof {
        use_type_invariant(&module);
    }
    match linkage.imports {
        Err(reason) => Err(CompileError::UnmetImports(reason)),
        Ok(()) => match linkage.entry_type {
            Err(reason) => Err(CompileError::EntryPointType(reason)),
            Ok(()) => Ok(module),
        },
    }
}

/// The verdict on the two export lookups: the entry point's index, or which
/// export is missing. The entry lookup counts only where the interface was
/// found.
pub fn exports_checked(
    interface: Option<wasmtime::component::ComponentExportIndex>,
    entry: Option<wasmtime::component::ComponentExportIndex>,
) -> (r: Result<wasmtime::component::ComponentExportIndex, CompileError>)
    ensures
        interface is None ==> r == Err::<wasmtime::component::ComponentExportIndex, CompileError>(
            CompileError::MissingInterface,
        ),
        interface is Some && entry is None ==> r == Err::<
            wasmtime::component::ComponentExportIndex,
            CompileError,
        >(CompileError::MissingEntryPoint),
        interface is Some && entry is Some ==> r == Ok::<
            wasmtime::component::ComponentExportIndex,
            CompileError,
        >(entry->0),
{
    match interface {
        None => Err(CompileError::MissingInterface),
        Some(_) => match entry {
            None => Err(CompileError::MissingEntryPoint),
            Some(e) => Ok(e),
        },
    }
}

} // verus!
