use vstd::prelude::*;

use wasmtime::component::{Component, ComponentExportIndex, Instance, InstancePre, Linker, TypedFunc};
use wasmtime::{Engine, Store};


verus! {

#[verifier::external_type_specification]
#[verifier::external_body]
pub struct ExEngine(wasmtime::Engine);

#[verifier::external_type_specification]
#[verifier::external_body]
#[verifier::reject_recursive_types(T)]
pub struct ExStore<T>(wasmtime::Store<T>);

#[verifier::external_type_specification]
#[verifier::external_body]
#[verifier::reject_recursive_types(T)]
pub struct ExLinker<T>(wasmtime::component::Linker<T>);

#[verifier::external_type_specification]
#[verifier::external_body]
#[verifier::reject_recursive_types(T)]
pub struct ExInstancePre<T>(wasmtime::component::InstancePre<T>);

#[verifier::external_type_specification]
#[verifier::external_body]
pub struct ExComponent(wasmtime::component::Component);

#[verifier::external_type_specification]
#[verifier::external_body]
pub struct ExInstance(wasmtime::component::Instance);

#[verifier::external_type_specification]
#[verifier::external_body]
pub struct ExComponentExportIndex(wasmtime::component::ComponentExportIndex);

#[verifier::external_type_specification]
#[verifier::external_body]
#[verifier::reject_recursive_types(P)]
#[verifier::reject_recursive_types(R)]
pub struct ExTypedFunc<P, R>(wasmtime::component::TypedFunc<P, R>);

#[verifier::external_type_specification]
#[verifier::external_body]
pub struct ExError(wasmtime::Error);

/// Whether `bytes` begin with the WebAssembly magic number `\0asm`, which
/// every binary in the WebAssembly format, component or core module, opens with.
pub open spec fn has_wasm_magic(bytes: Seq<u8>) -> bool {
    bytes.len() >= 4 && bytes[0] == 0x00u8 && bytes[1] == 0x61u8 && bytes[2] == 0x73u8 && bytes[3]
        == 0x6du8
}

/// An engine for component binaries without async support. Its field is
/// hidden from verified code: only `build_engine` makes one, so every store
/// built on it is synchronous, which the synchronous instantiation and call
/// paths of wasmtime require.
#[verifier::external_body]
pub struct PluginEngine {
    engine: Engine,
}

/// A freshly instantiated component together with the store that owns it.
/// Its fields are hidden from verified code: only `instantiate` makes one, so
/// the instance always lives in that store.
#[verifier::external_body]
#[verifier::reject_recursive_types(H)]
pub struct Instantiated<H> {
    store: Store<H>,
    instance: Instance,
}

/// An instantiated component with its interface function bound, all in the
/// store that owns them. Its fields are hidden from verified code: only
/// `bind_u32` makes one, from one `Instantiated`.
#[verifier::external_body]
#[verifier::reject_recursive_types(H)]
pub struct Bound<H> {
    store: Store<H>,
    instance: Instance,
    func: TypedFunc<(), (u32,)>,
}

/// Relies on wasmtime::Config::new, Config::wasm_component_model and
/// Engine::new: an engine for component binaries; async support stays off,
/// its default.
#[verifier::external_body]
pub(crate) fn build_engine() -> (r: Result<PluginEngine, wasmtime::Error>) {
    let mut config = wasmtime::Config::new();
    config.wasm_component_model(true);
    Engine::new(&config).map(|engine| PluginEngine { engine })
}

impl PluginEngine {
    /// The wasmtime engine held, for building a linker on it.
    #[verifier::external_body]
    pub fn engine(&self) -> (r: &Engine) {
        &self.engine
    }

    /// Relies on the derived `Clone` of wasmtime::Engine: another handle to
    /// the same shared engine, for loading one more plugin on it.
    #[verifier::external_body]
    pub fn share(&self) -> (r: PluginEngine) {
        PluginEngine { engine: self.engine.clone() }
    }
}

/// Relies on wasmtime::component::Linker::engine: the engine the linker was built on.
#[verifier::external_body]
pub(crate) fn linker_engine<H>(linker: &Linker<H>) -> (r: &Engine) {
    linker.engine()
}

/// Relies on wasmtime::Engine::same: whether two handles name one engine.
#[verifier::external_body]
pub(crate) fn same_engine(a: &Engine, b: &Engine) -> (r: bool) {
    Engine::same(a, b)
}

/// Relies on wasmtime::component::Component::from_binary: validates and
/// compiles; bytes without the WebAssembly magic number are refused.
#[verifier::external_body]
pub(crate) fn compile(engine: &PluginEngine, bytes: &[u8]) -> (r: Result<Component, wasmtime::Error>)
    ensures
        !has_wasm_magic(bytes@) ==> r is Err,
{
    Component::from_binary(&engine.engine, bytes)
}

/// Relies on wasmtime::component::Linker::instantiate_pre: resolves the
/// component's imports against the linker's definitions.
#[verifier::external_body]
pub(crate) fn link<H>(linker: &Linker<H>, component: &Component) -> (r: Result<
    InstancePre<H>,
    wasmtime::Error,
>) {
    linker.instantiate_pre(component)
}

/// Relies on wasmtime::Store::new and InstancePre::instantiate: a fresh store
/// owning `host`, built on `engine` (so without async support, which
/// `instantiate` asserts), and the component's start-up code run inside it.
#[verifier::external_body]
pub(crate) fn instantiate<H>(engine: &PluginEngine, pre: &InstancePre<H>, host: H) -> (r: Result<
    Instantiated<H>,
    wasmtime::Error,
>) {
    let mut store = Store::new(&engine.engine, host);
    let instance = pre.instantiate(&mut store)?;
    Ok(Instantiated { store, instance })
}

/// Relies on wasmtime::component::Instance::get_export: looks up the export
/// `name`, inside the exported instance `parent` when one is given; an index
/// taken from another component finds nothing.
#[verifier::external_body]
pub(crate) fn export_index<H>(
    inst: &mut Instantiated<H>,
    parent: Option<&ComponentExportIndex>,
    name: &str,
) -> (r: Option<ComponentExportIndex>) {
    inst.instance.get_export(&mut inst.store, parent, name)
}

/// Relies on wasmtime::component::Instance::get_typed_func: the export at
/// `index` as a function without parameters that returns a `u32`, bound in
/// the store that owns the instance; an index of another component is an error.
#[verifier::external_body]
pub(crate) fn bind_u32<H>(inst: Instantiated<H>, index: &ComponentExportIndex) -> (r: Result<
    Bound<H>,
    wasmtime::Error,
>) {
    let Instantiated { mut store, instance } = inst;
    let func = instance.get_typed_func::<(), (u32,)>(&mut store, index)?;
    Ok(Bound { store, instance, func })
}

/// Relies on wasmtime::component::TypedFunc::call and TypedFunc::post_return:
/// runs the bound function in the store that owns it, then releases its
/// results so that it can be called again.
#[verifier::external_body]
pub(crate) fn call_u32<H>(b: &mut Bound<H>) -> (r: Result<u32, wasmtime::Error>) {
    let (value,) = b.func.call(&mut b.store, ())?;
    b.func.post_return(&mut b.store)?;
    Ok(value)
}

/// Relies on anyhow's alternate `Display` of wasmtime::Error: the message
/// followed by its chain of causes.
#[verifier::external_body]
pub(crate) fn error_text(e: &wasmtime::Error) -> (r: String) {
    format!("{:#}", e)
}

} // verus!
