//! The host: a shared region of one page, and a registry of loaded modules
//! that a run asks in order.
use vstd::prelude::*;
use crate::codec::{bincode_plugin, decode_plugin, decode_verdict, opt_view, verdict_payload, Plugin};
use crate::dispatch::{first_present, first_verdict, invoked, lemma_all_absent, lemma_first_verdict_of_absent_prefix, run_outcome, views};
use crate::error::Error;
use crate::frame::{decode_len, frame_from, frame_result, le_u32, FrameError, LEN_SIZE, MEMORY_START};

verus! {

#[verifier::external_type_specification]
#[verifier::external_body]
pub struct ExStore(wasmer::Store);

#[verifier::external_type_specification]
#[verifier::external_body]
pub struct ExMemory(wasmer::Memory);

#[verifier::external_type_specification]
#[verifier::external_body]
pub struct ExModule(wasmer::Module);

#[verifier::external_type_specification]
#[verifier::external_body]
pub struct ExInstance(wasmer::Instance);

#[verifier::external_type_specification]
#[verifier::external_body]
pub struct ExImportObject(wasmer::ImportObject);

#[verifier::external_type_specification]
#[verifier::external_body]
#[verifier::reject_recursive_types(Args)]
#[verifier::reject_recursive_types(Rets)]
pub struct ExNativeFunc<Args, Rets>(wasmer::NativeFunc<Args, Rets>);

#[verifier::external_type_specification]
#[verifier::external_body]
pub struct ExWasiVersion(wasmer_wasi::WasiVersion);

#[verifier::external_type_specification]
#[verifier::external_body]
pub struct ExWasiState(wasmer_wasi::WasiState);

#[verifier::external_type_specification]
#[verifier::external_body]
pub struct ExWasiStateBuilder(wasmer_wasi::WasiStateBuilder);

#[verifier::external_type_specification]
#[verifier::external_body]
pub struct ExWasiEnv(wasmer_wasi::WasiEnv);

#[verifier::external_type_specification]
#[verifier::external_body]
pub struct ExExports(wasmer::Exports);

#[verifier::external_type_specification]
#[verifier::external_body]
pub struct ExFunction(wasmer::Function);

/// Bytes in one page of linear memory.
pub const PAGE_SIZE: usize = 65536;

/// Pages in the shared region.
pub const REGION_PAGES: u32 = 1;

/// The most input bytes that the shared region holds past the mailbox offset.
pub const REGION_CAPACITY: usize = 65535;

/// The name of each module's exported linear memory, and of its two entry points.
pub const MEMORY_EXPORT: &'static str = "memory";
pub const NEW_EXPORT: &'static str = "new";
pub const RUN_EXPORT: &'static str = "run";

/// The import namespace and name under which guests find the accessor.
pub const ACCESSOR_NAMESPACE: &'static str = "env";
pub const ACCESSOR_NAME: &'static str = "host_memory";

/// The program name given to each module's WASI state.
pub const PROGRAM_NAME: &'static str = "wasmer-test";

/// Relies on `Store::default`: a store with the default engine.
#[verifier::external_body]
fn new_store() -> (r: wasmer::Store) {
    wasmer::Store::default()
}

/// Relies on `Memory::new`: a fixed-size, unshared memory of `pages` pages.
#[verifier::external_body]
fn new_memory(store: &wasmer::Store, pages: u32) -> (r: Result<wasmer::Memory, wasmer::MemoryError>) {
    wasmer::Memory::new(store, wasmer::MemoryType::new(pages, None, false))
}

/// Relies on `Module::new`: compiles module bytes.
#[verifier::external_body]
fn compile(store: &wasmer::Store, bytes: &[u8]) -> (r: Result<wasmer::Module, wasmer::CompileError>) {
    wasmer::Module::new(store, bytes)
}

/// Relies on `wasmer_wasi::get_wasi_version`: the WASI ABI the module imports, if any.
#[verifier::external_body]
fn wasi_version(module: &wasmer::Module) -> (r: Option<wasmer_wasi::WasiVersion>) {
    wasmer_wasi::get_wasi_version(module, false)
}

/// Relies on `WasiState::new`: a builder of WASI state for a program of that name.
#[verifier::external_body]
fn wasi_state_builder(program: &str) -> (r: wasmer_wasi::WasiStateBuilder) {
    wasmer_wasi::WasiState::new(program)
}

/// Relies on `WasiStateBuilder::build`: the WASI state the builder describes.
#[verifier::external_body]
fn build_wasi_state(builder: &mut wasmer_wasi::WasiStateBuilder) -> (r: Result<wasmer_wasi::WasiState, wasmer_wasi::WasiStateCreationError>) {
    builder.build()
}

/// Relies on `WasiEnv::new`: an environment holding `state`.
#[verifier::external_body]
fn wasi_env(state: wasmer_wasi::WasiState) -> (r: wasmer_wasi::WasiEnv) {
    wasmer_wasi::WasiEnv::new(state)
}

/// Relies on `wasmer_wasi::generate_import_object_from_env`: the WASI imports
/// of that version, over `env`.
#[verifier::external_body]
fn wasi_imports(store: &wasmer::Store, env: wasmer_wasi::WasiEnv, version: wasmer_wasi::WasiVersion) -> (r: wasmer::ImportObject) {
    wasmer_wasi::generate_import_object_from_env(store, env, version)
}

/// The address of the mailbox in the shared region, handed to guests by the
/// injected accessor.
pub fn host_memory() -> (r: u32)
    ensures
        r == MEMORY_START,
{
    MEMORY_START as u32
}

/// Relies on `Function::new_native`: `host_memory` as a host function.
#[verifier::external_body]
fn accessor_function(store: &wasmer::Store) -> (r: wasmer::Function) {
    wasmer::Function::new_native(store, host_memory)
}

/// Relies on `Exports::new`: an empty namespace.
#[verifier::external_body]
fn new_namespace() -> (r: wasmer::Exports) {
    wasmer::Exports::new()
}

/// Relies on `Exports::insert`: adds `f` to the namespace under `name`.
#[verifier::external_body]
fn insert_function(namespace: &mut wasmer::Exports, name: &str, f: wasmer::Function) {
    namespace.insert(name, f)
}

/// Relies on `ImportObject::register`: adds the namespace under `name`.
#[verifier::external_body]
fn register_namespace(imports: &mut wasmer::ImportObject, name: &str, namespace: wasmer::Exports) {
    imports.register(name, namespace);
}

/// Relies on `Instance::new`: instantiates the module against the imports.
#[verifier::external_body]
fn instantiate(module: &wasmer::Module, imports: &wasmer::ImportObject) -> (r: Result<wasmer::Instance, wasmer::InstantiationError>) {
    wasmer::Instance::new(module, imports)
}

/// Relies on `Exports::get_memory`: the memory the instance exports under `name`.
#[verifier::external_body]
fn exported_memory(instance: &wasmer::Instance, name: &str) -> (r: Result<wasmer::Memory, wasmer::ExportError>) {
    instance.exports.get_memory(name).cloned()
}

/// Relies on `Exports::get_native_function`: the export `new() -> u32`.
#[verifier::external_body]
fn new_export(instance: &wasmer::Instance, name: &str) -> (r: Result<wasmer::NativeFunc<(), u32>, wasmer::ExportError>) {
    instance.exports.get_native_function(name)
}

/// Relies on `Exports::get_native_function`: the export `run(u32, u32, u32) -> u32`.
#[verifier::external_body]
fn run_export(instance: &wasmer::Instance, name: &str) -> (r: Result<wasmer::NativeFunc<(u32, u32, u32), u32>, wasmer::ExportError>) {
    instance.exports.get_native_function(name)
}

/// Relies on `NativeFunc::call` for the export `new`.
#[verifier::external_body]
fn call_new(f: &wasmer::NativeFunc<(), u32>) -> (r: Result<u32, wasmer::RuntimeError>) {
    f.call()
}

/// Relies on `NativeFunc::call` for the export `run`.
#[verifier::external_body]
fn call_run(f: &wasmer::NativeFunc<(u32, u32, u32), u32>, handle: u32, addr: u32, len: u32) -> (r: Result<u32, wasmer::RuntimeError>) {
    f.call(handle, addr, len)
}

/// Relies on `WasmPtr::<u8, Array>::deref`: the `len` bytes at `offset` of the
/// memory, where they lie inside it.
#[verifier::external_body]
fn read_bytes(memory: &wasmer::Memory, offset: u32, len: u32) -> (r: Option<Vec<u8>>)
    ensures
        r matches Some(b) ==> b@.len() == len,
{
    let cells = wasmer::WasmPtr::<u8, wasmer::Array>::new(offset).deref(memory, 0, len)?;
    Some(cells.iter().map(|c| c.get()).collect())
}

/// Relies on `WasmPtr::<u8, Array>::deref`: stores `data` at `offset` of the
/// memory, where it lies inside it; false where it does not.
#[verifier::external_body]
fn write_bytes(memory: &wasmer::Memory, offset: u32, data: &[u8]) -> (r: bool) {
    match wasmer::WasmPtr::<u8, wasmer::Array>::new(offset).deref(memory, 0, data.len() as u32) {
        Some(cells) => {
            cells.iter().zip(data.iter()).for_each(|(c, b)| c.set(*b));
            true
        },
        None => false,
    }
}

/// `r` is the frame that four header bytes `header` and the payload bytes
/// `payload` read after them give, as `frame::frame_result` decides it.
pub open spec fn read_as(header: Seq<u8>, payload: Option<Seq<u8>>, r: Result<Option<Vec<u8>>, Error>) -> bool {
    &&& header.len() == LEN_SIZE
    &&& payload matches Some(p) ==> p.len() == le_u32(header)
    &&& match frame_result(header, payload) {
        Ok(None) => r matches Ok(None),
        Ok(Some(p)) => r matches Ok(Some(q)) && q@ == p,
        Err(_) => r matches Err(Error::InvalidOffset),
    }
}

/// Reads the frame at `addr` of a module's memory: its payload, or `None`
/// for the absent (empty) frame. The header is fetched first; only where it
/// declares a payload are that many bytes fetched after it, and the verified
/// `frame::frame_from` decides on the two. Memory out of bounds is an error.
pub fn read(memory: &wasmer::Memory, addr: u32) -> (r: Result<Option<Vec<u8>>, Error>)
    ensures
        (r matches Err(Error::InvalidOffset)) || exists|h: Seq<u8>, p: Option<Seq<u8>>| #[trigger] read_as(h, p, r),
        r matches Ok(Some(p)) ==> p@.len() > 0,
        r matches Err(e) ==> e is InvalidOffset,
{
    let header = match read_bytes(memory, addr, LEN_SIZE as u32) {
        Some(h) => h,
        None => return Err(Error::InvalidOffset),
    };
    let n = decode_len(header.as_slice());
    let payload = if n == 0 || addr > u32::MAX - LEN_SIZE as u32 {
        None
    } else {
        read_bytes(memory, addr + LEN_SIZE as u32, n)
    };
    let ghost pv: Option<Seq<u8>> = match &payload {
        Some(p) => Some(p@),
        None => None,
    };
    let r = match frame_from(header.as_slice(), payload) {
        Ok(f) => Ok(f),
        Err(FrameError::InvalidOffset) => Err(Error::InvalidOffset),
    };
    assert(read_as(header@, pv, r));
    r
}

/// The length to hand to guests for an input of `len` bytes; refused where the
/// input does not fit in the shared region past the mailbox offset.
pub fn input_len(len: usize) -> (r: Result<u32, Error>)
    ensures
        len <= REGION_CAPACITY ==> r == Ok::<u32, Error>(len as u32),
        len > REGION_CAPACITY ==> (r matches Err(Error::InvalidOffset)),
{
    if len > REGION_CAPACITY {
        Err(Error::InvalidOffset)
    } else {
        Ok(len as u32)
    }
}

/// The verdict carried by a module's response frame: the empty frame is no
/// verdict (the run goes on to the next module), a payload is decoded, and a
/// frame that could not be read stays an error.
pub fn response_verdict(frame: Result<Option<Vec<u8>>, Error>) -> (r: Result<Option<String>, Error>)
    ensures
        frame matches Ok(None) ==> (r matches Ok(None)),
        frame matches Err(Error::InvalidOffset) ==> (r matches Err(Error::InvalidOffset)),
        frame matches Ok(Some(p)) ==> forall|v: Option<Seq<char>>|
            p@.len() > 0 && p@ == #[trigger] verdict_payload(v) ==> (r matches Ok(x) && opt_view(x) == v),
        frame matches Ok(Some(p)) && r is Err ==> (r matches Err(Error::Bincode(_))),
        r matches Err(e) ==> (e is Bincode || (frame matches Err(f) && e == f)),
        r is Ok ==> frame is Ok,
{
    match frame {
        Ok(Some(p)) => decode_verdict(p.as_slice()),
        Ok(None) => Ok(None),
        Err(e) => Err(e),
    }
}

/// The metadata carried by the frame that a module's `new` returned; the empty
/// frame is refused, as is a frame that could not be read.
pub fn metadata(frame: Result<Option<Vec<u8>>, Error>) -> (r: Result<Plugin, Error>)
    ensures
        frame matches Ok(None) ==> (r matches Err(Error::NullPtr)),
        frame matches Err(Error::InvalidOffset) ==> (r matches Err(Error::InvalidOffset)),
        frame matches Ok(Some(p)) ==> forall|a: u32, n: Seq<char>|
            p@ == #[trigger] bincode_plugin(a, n) ==> (r matches Ok(q) && q.address == a && q.name@ == n),
        frame matches Ok(Some(p)) && r is Err ==> (r matches Err(Error::Bincode(_))),
        r is Ok ==> frame is Ok,
{
    match frame {
        Ok(Some(p)) => decode_plugin(p.as_slice()),
        Ok(None) => Err(Error::NullPtr),
        Err(e) => Err(e),
    }
}

/// A loaded module: its instance, its metadata, its own memory and its entry point.
pub struct ModuleInfo {
    instance: wasmer::Instance,
    plugin: Plugin,
    memory: wasmer::Memory,
    run_func: wasmer::NativeFunc<(u32, u32, u32), u32>,
}

/// The host: the shared region and the modules in load order. The registry
/// is private, so load order is the only order in which modules are asked.
pub struct WasiEngine {
    store: wasmer::Store,
    memory: wasmer::Memory,
    modules: Vec<ModuleInfo>,
}

impl WasiEngine {
    /// The metadata of the loaded modules, handle and name, in load order.
    pub closed spec fn entries(&self) -> Seq<(u32, Seq<char>)> {
        self.modules@.map_values(|m: ModuleInfo| (m.plugin.address, m.plugin.name@))
    }

    /// How many modules are loaded.
    pub fn module_count(&self) -> (r: usize)
        ensures
            r == self.entries().len(),
    {
        self.modules.len()
    }

    /// An engine with no modules and a shared region of one page.
    pub fn new() -> (r: Result<Self, Error>)
        ensures
            r matches Ok(e) ==> e.entries().len() == 0,
            r matches Err(e) ==> e is Memory,
    {
        let store = new_store();
        let memory = match new_memory(&store, REGION_PAGES) {
            Ok(m) => m,
            Err(e) => return Err(Error::Memory(e)),
        };
        let r = WasiEngine { store, memory, modules: Vec::new() };
        assert(r.entries() =~= Seq::empty());
        Ok(r)
    }

    /// Compiles and instantiates a module, asks it for its metadata and appends
    /// it to the registry. The modules already loaded keep their place; on any
    /// failure the registry is as it was. A failure of the module's `new`
    /// export, or of reading what it returned, names that entry point and the
    /// place the module would have taken.
    pub fn load_module(&mut self, bytes: &[u8]) -> (r: Result<(), Error>)
        ensures
            r is Ok ==> final(self).entries().len() == old(self).entries().len() + 1
                && final(self).entries().subrange(0, old(self).entries().len() as int) == old(self).entries(),
            r is Err ==> final(self).entries() == old(self).entries(),
            r matches Err(Error::Call { index, entry, .. }) ==> index == old(self).entries().len()
                && (entry@ == NEW_EXPORT@ || entry@ == RUN_EXPORT@),
    {
        let module = match compile(&self.store, bytes) {
            Ok(m) => m,
            Err(e) => return Err(Error::Compile(e)),
        };
        let version = match wasi_version(&module) {
            Some(v) => v,
            None => return Err(Error::WasiSupport("Could not detect WASI ABI in Wasm module".to_owned())),
        };
        let mut builder = wasi_state_builder(PROGRAM_NAME);
        let state = match build_wasi_state(&mut builder) {
            Ok(s) => s,
            Err(e) => return Err(Error::State(e)),
        };
        let mut imports = wasi_imports(&self.store, wasi_env(state), version);
        let mut namespace = new_namespace();
        insert_function(&mut namespace, ACCESSOR_NAME, accessor_function(&self.store));
        register_namespace(&mut imports, ACCESSOR_NAMESPACE, namespace);
        let instance = match instantiate(&module, &imports) {
            Ok(i) => i,
            Err(e) => return Err(Error::Instantiation(e)),
        };
        let memory = match exported_memory(&instance, MEMORY_EXPORT) {
            Ok(m) => m,
            Err(e) => return Err(Error::Export(e)),
        };
        let new_func = match new_export(&instance, NEW_EXPORT) {
            Ok(f) => f,
            Err(e) => return Err(Error::Export(e)),
        };
        let unnamed = String::new();
        let index = self.modules.len();
        let addr = match call_new(&new_func) {
            Ok(a) => a,
            Err(e) => return Err(Error::in_call(index, &unnamed, NEW_EXPORT, Error::Runtime(e))),
        };
        let plugin = match metadata(read(&memory, addr)) {
            Ok(p) => p,
            Err(e) => return Err(Error::in_call(index, &unnamed, NEW_EXPORT, e)),
        };
        let run_func = match run_export(&instance, RUN_EXPORT) {
            Ok(f) => f,
            Err(e) => return Err(Error::in_call(index, &plugin.name, RUN_EXPORT, Error::Export(e))),
        };
        let ghost before = self.modules@;
        self.modules.push(ModuleInfo { instance, plugin, memory, run_func });
        assert(self.modules@.subrange(0, before.len() as int) =~= before);
        assert(self.entries().subrange(0, old(self).entries().len() as int) =~= old(self).entries());
        Ok(())
    }

    /// Writes `data` into the shared region and asks the modules in load
    /// order; the first present verdict is the result, and no module after it
    /// is asked. Input longer than the region is refused before any module runs.
    pub fn run(&self, data: &[u8]) -> (r: Result<Option<String>, Error>)
        ensures
            data@.len() > REGION_CAPACITY ==> (r matches Err(Error::InvalidOffset)),
            r matches Err(Error::Call { index, module, entry, cause }) ==> index < self.entries().len()
                && module@ == self.entries()[index as int].1 && entry@ == RUN_EXPORT@
                && (*cause is Runtime || *cause is InvalidOffset || *cause is Bincode),
    {
        let mut answers: Vec<Option<String>> = Vec::new();
        self.run_recorded(data, &mut answers)
    }

    /// `run`, leaving in `answers` the answer of each module asked, in order
    /// (whatever `answers` held before is dropped). The result is the verdict
    /// that the dispatch rule gives for those answers, and the modules after
    /// the first present answer are not asked. A failing call names its module
    /// and the entry point `run`.
    pub fn run_recorded(&self, data: &[u8], answers: &mut Vec<Option<String>>) -> (r: Result<Option<String>, Error>)
        ensures
            data@.len() > REGION_CAPACITY ==> ((r matches Err(Error::InvalidOffset)) && final(answers)@.len() == 0),
            r matches Ok(v) ==> {
                let seen = views(final(answers)@);
                &&& opt_view(v) == first_verdict(seen)
                &&& run_outcome(seen, self.entries().len(), opt_view(v))
                &&& invoked(seen) == seen.len()
            },
            r matches Err(Error::Call { index, module, entry, cause }) ==> index == final(answers)@.len()
                && index < self.entries().len() && module@ == self.entries()[index as int].1 && entry@ == RUN_EXPORT@
                && (forall|j: int| 0 <= j < final(answers)@.len() ==> (#[trigger] final(answers)@[j]) is None)
                && (*cause is Runtime || *cause is InvalidOffset || *cause is Bincode),
    {
        *answers = Vec::new();
        let len = match input_len(data.len()) {
            Ok(n) => n,
            Err(e) => return Err(e),
        };
        if !write_bytes(&self.memory, MEMORY_START as u32, data) {
            return Err(Error::InvalidOffset);
        }
        let mut stopped = false;
        let mut i: usize = 0;
        while i < self.modules.len() && !stopped
            invariant
                i <= self.modules@.len(),
                data@.len() <= REGION_CAPACITY,
                answers@.len() == i,
                forall|j: int| 0 <= j < answers@.len() - 1 ==> (#[trigger] answers@[j]) is None,
                !stopped ==> forall|j: int| 0 <= j < answers@.len() ==> (#[trigger] answers@[j]) is None,
                stopped ==> i > 0 && answers@[i - 1] is Some,
            decreases self.modules@.len() - i,
        {
            let module = &self.modules[i];
            proof {
                assert(self.entries()[i as int] == (module.plugin.address, module.plugin.name@));
            }
            let addr = match call_run(&module.run_func, module.plugin.address, MEMORY_START as u32, len) {
                Ok(a) => a,
                Err(e) => return Err(Error::in_call(i, &module.plugin.name, RUN_EXPORT, Error::Runtime(e))),
            };
            let verdict = match response_verdict(read(&module.memory, addr)) {
                Ok(v) => v,
                Err(e) => return Err(Error::in_call(i, &module.plugin.name, RUN_EXPORT, e)),
            };
            stopped = verdict.is_some();
            answers.push(verdict);
            i = i + 1;
        }
        let (result, _) = first_present(answers);
        proof {
            let seen = views(answers@);
            if stopped {
                assert forall|j: int| 0 <= j < seen.len() - 1 implies (#[trigger] seen[j]) is None by {
                    assert(answers@[j] is None);
                }
                lemma_first_verdict_of_absent_prefix(seen);
            } else {
                assert forall|j: int| 0 <= j < seen.len() implies (#[trigger] seen[j]) is None by {
                    assert(answers@[j] is None);
                }
                lemma_all_absent(seen);
            }
        }
        Ok(result)
    }
}

} // verus!
