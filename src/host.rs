use vstd::prelude::*;

use wasmtime::component::{Component, Linker};

use crate::error::{ErrorKind, PluginError};
use crate::registry::Registry;
use crate::runtime::{
    bind_u32, build_engine, call_u32, compile, error_text, export_index, has_wasm_magic,
    instantiate, link, linker_engine, same_engine, Bound, Instantiated, PluginEngine,
};

verus! {

/// Name of the interface that every plugin exports.
pub const INTERFACE_NAME: &'static str = "test";

/// Name of the function, inside that interface, that the host calls.
pub const FUNCTION_NAME: &'static str = "get-number";

/// One loaded plugin: the engine that compiled it, and the instance with its
/// interface function bound, living in the execution state that owns its
/// sandbox. They are made together by `load_component` and never taken apart.
#[verifier::reject_recursive_types(H)]
pub struct ModuleInstance<H> {
    engine: PluginEngine,
    bound: Bound<H>,
}

impl<H> ModuleInstance<H> {
    /// The engine that compiled this plugin.
    pub closed spec fn engine_view(&self) -> PluginEngine {
        self.engine
    }

    /// The engine that compiled this plugin.
    pub fn engine(&self) -> (r: &PluginEngine)
        ensures
            *r == self.engine_view(),
    {
        &self.engine
    }

    /// Calls the plugin's bound `get-number` function; a trap or failure during
    /// the call gives `Invocation`. Only the plugin's execution state is handed
    /// to the call: the engine stays the one that compiled it.
    pub fn invoke(&mut self) -> (r: Result<u32, PluginError>)
        ensures
            r matches Err(e) ==> e.kind == ErrorKind::Invocation,
            final(self).engine_view() == old(self).engine_view(),
    {
        match call_u32(&mut self.bound) {
            Ok(v) => Ok(v),
            Err(e) => Err(failure(ErrorKind::Invocation, &e)),
        }
    }
}

/// What loading a plugin yields from the outcome of each of its steps, taken
/// in the order they run: the error kind of the first step that failed, or
/// `None` when every step succeeded.
pub open spec fn load_verdict(
    compiled: bool,
    engine_matches: bool,
    linked: bool,
    instantiated: bool,
    bound: bool,
) -> Option<ErrorKind> {
    if !compiled {
        Some(ErrorKind::Compile)
    } else if !engine_matches || !linked {
        Some(ErrorKind::Link)
    } else if !instantiated {
        Some(ErrorKind::Instantiation)
    } else if !bound {
        Some(ErrorKind::InterfaceMismatch)
    } else {
        None
    }
}

/// The verdict on a load from the outcome of each step: `compiled` (the binary
/// compiles), `engine_matches` (the linker was built on the same engine),
/// `linked` (all imports resolve), `instantiated` (start-up code ran without a
/// trap), `bound` (the interface function is exported with its type).
pub fn loading_verdict(
    compiled: bool,
    engine_matches: bool,
    linked: bool,
    instantiated: bool,
    bound: bool,
) -> (r: Option<ErrorKind>)
    ensures
        r == load_verdict(compiled, engine_matches, linked, instantiated, bound),
{
    if !compiled {
        Some(ErrorKind::Compile)
    } else if !engine_matches || !linked {
        Some(ErrorKind::Link)
    } else if !instantiated {
        Some(ErrorKind::Instantiation)
    } else if !bound {
        Some(ErrorKind::InterfaceMismatch)
    } else {
        None
    }
}

/// The error for a load whose steps came out as given, with the cause `cause`.
fn load_error(
    compiled: bool,
    engine_matches: bool,
    linked: bool,
    instantiated: bool,
    bound: bool,
    cause: String,
) -> (r: PluginError)
    requires
        load_verdict(compiled, engine_matches, linked, instantiated, bound) is Some,
    ensures
        Some(r.kind) == load_verdict(compiled, engine_matches, linked, instantiated, bound),
{
    match loading_verdict(compiled, engine_matches, linked, instantiated, bound) {
        Some(kind) => PluginError::new(kind, cause),
        None => PluginError::new(ErrorKind::Compile, cause),
    }
}

/// The error of kind `kind` whose cause is the text of `e`.
fn failure(kind: ErrorKind, e: &wasmtime::Error) -> (r: PluginError)
    ensures
        r.kind == kind,
{
    PluginError::new(kind, error_text(e))
}

/// An engine configured for component binaries; `RuntimeInit` when the
/// execution backend cannot be built.
pub fn new_engine() -> (r: Result<PluginEngine, PluginError>)
    ensures
        r matches Err(e) ==> e.kind == ErrorKind::RuntimeInit,
{
    match build_engine() {
        Ok(engine) => Ok(engine),
        Err(e) => Err(failure(ErrorKind::RuntimeInit, &e)),
    }
}

/// Compiles `bytes` on `engine`, checks that `linker` was built on that engine,
/// resolves the imports through it, instantiates the component in a fresh
/// execution state owning the sandbox `host`, and binds the plugin interface.
/// The error is the `load_verdict` of the step that failed; bytes that are not
/// in the WebAssembly binary format give `Compile`. The loaded plugin keeps
/// `engine` as the engine that compiled it.
pub fn load_component<H>(engine: PluginEngine, linker: &Linker<H>, host: H, bytes: &[u8]) -> (r:
    Result<ModuleInstance<H>, PluginError>)
    ensures
        r matches Ok(m) ==> m.engine_view() == engine,
        !has_wasm_magic(bytes@) ==> (r matches Err(e) && e.kind == ErrorKind::Compile),
        r matches Err(e) ==> exists|c: bool, m: bool, l: bool, i: bool, b: bool|
            #[trigger] load_verdict(c, m, l, i, b) == Some(e.kind) && (!has_wasm_magic(bytes@)
                ==> !c),
{
    let component: Component = match compile(&engine, bytes) {
        Ok(c) => c,
        Err(e) => {
            let r = load_error(false, true, true, true, true, error_text(&e));
            assert(load_verdict(false, true, true, true, true) == Some(r.kind));
            return Err(r);
        },
    };
    if !same_engine(engine.engine(), linker_engine(linker)) {
        let r = load_error(
            true,
            false,
            true,
            true,
            true,
            "the linker was built on another engine".to_string(),
        );
        assert(load_verdict(true, false, true, true, true) == Some(r.kind));
        return Err(r);
    }
    let pre = match link(linker, &component) {
        Ok(p) => p,
        Err(e) => {
            let r = load_error(true, true, false, true, true, error_text(&e));
            assert(load_verdict(true, true, false, true, true) == Some(r.kind));
            return Err(r);
        },
    };
    let inner = match instantiate(&engine, &pre, host) {
        Ok(i) => i,
        Err(e) => {
            let r = load_error(true, true, true, false, true, error_text(&e));
            assert(load_verdict(true, true, true, false, true) == Some(r.kind));
            return Err(r);
        },
    };
    let bound = match bind(inner) {
        Ok(b) => b,
        Err(cause) => {
            let r = load_error(true, true, true, true, false, cause);
            assert(load_verdict(true, true, true, true, false) == Some(r.kind));
            return Err(r);
        },
    };
    Ok(ModuleInstance { engine, bound })
}

/// The plugin's `get-number` function bound on `inst`, or the cause why the
/// instance does not export it with that type.
fn bind<H>(inst: Instantiated<H>) -> (r: Result<Bound<H>, String>) {
    let mut inst = inst;
    let iface = match export_index(&mut inst, None, INTERFACE_NAME) {
        Some(i) => i,
        None => return Err("the plugin does not export the expected interface".to_string()),
    };
    let index = match export_index(&mut inst, Some(&iface), FUNCTION_NAME) {
        Some(i) => i,
        None => return Err("the plugin interface lacks the expected function".to_string()),
    };
    match bind_u32(inst, &index) {
        Ok(b) => Ok(b),
        Err(e) => Err(error_text(&e)),
    }
}

/// Calls the plugin registered at `index`: `NotFound` exactly when no entry
/// sits there. Only that entry's execution state may change: every other entry
/// is left as it was, and the called one keeps its engine.
pub fn invoke_by_index<H>(registry: &mut Registry<ModuleInstance<H>>, index: usize) -> (r: Result<
    u32,
    PluginError,
>)
    ensures
        final(registry)@.len() == old(registry)@.len(),
        r matches Err(e) ==> (e.kind == ErrorKind::NotFound <==> index >= old(registry)@.len()),
        r matches Err(e) ==> e.kind == ErrorKind::NotFound || e.kind == ErrorKind::Invocation,
        index >= old(registry)@.len() ==> r is Err && final(registry)@ == old(registry)@,
        index < old(registry)@.len() ==> final(registry)@ == old(registry)@.update(
            index as int,
            final(registry)@[index as int],
        ),
        index < old(registry)@.len() ==> final(registry)@[index as int].engine_view() == old(
            registry,
        )@[index as int].engine_view(),
{
    match registry.entry_mut(index) {
        Ok(entry) => entry.invoke(),
        Err(e) => Err(e),
    }
}

/// Calls the first registered plugin; `NotFound` exactly when the registry is
/// empty. Every entry but the first is left as it was, and the first keeps its
/// engine.
pub fn invoke_first<H>(registry: &mut Registry<ModuleInstance<H>>) -> (r: Result<u32, PluginError>)
    ensures
        final(registry)@.len() == old(registry)@.len(),
        r matches Err(e) ==> (e.kind == ErrorKind::NotFound <==> old(registry)@.len() == 0),
        r matches Err(e) ==> e.kind == ErrorKind::NotFound || e.kind == ErrorKind::Invocation,
        old(registry)@.len() == 0 ==> r is Err && final(registry)@ == old(registry)@,
        old(registry)@.len() > 0 ==> final(registry)@ == old(registry)@.update(
            0,
            final(registry)@[0],
        ),
        old(registry)@.len() > 0 ==> final(registry)@[0].engine_view() == old(
            registry,
        )@[0].engine_view(),
{
    invoke_by_index(registry, 0)
}

} // verus!
