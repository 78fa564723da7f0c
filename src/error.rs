//! The library's error type, on both sides of the boundary.
use vstd::prelude::*;

verus! {

#[verifier::external_type_specification]
#[verifier::external_body]
pub struct ExBincodeErrorKind(bincode::ErrorKind);

#[verifier::external_type_specification]
#[verifier::external_body]
pub struct ExCompileError(wasmer::CompileError);

#[verifier::external_type_specification]
#[verifier::external_body]
pub struct ExExportError(wasmer::ExportError);

#[verifier::external_type_specification]
#[verifier::external_body]
pub struct ExInstantiationError(wasmer::InstantiationError);

#[verifier::external_type_specification]
#[verifier::external_body]
pub struct ExMemoryError(wasmer::MemoryError);

#[verifier::external_type_specification]
#[verifier::external_body]
pub struct ExRuntimeError(wasmer::RuntimeError);

#[verifier::external_type_specification]
#[verifier::external_body]
pub struct ExWasiStateCreationError(wasmer_wasi::WasiStateCreationError);

/// Errors of the host and of the guest runtime.
#[derive(Debug)]
pub enum Error {
    /// An empty frame stood where a value was required, or a guest got the null handle.
    NullPtr,
    /// A guest was handed a handle that names no capability instance.
    UnknownHandle,
    /// A guest's input was not UTF-8 text.
    Utf8,
    /// Free-form error.
    Custom(String),
    /// A frame or a payload does not fit in, or runs past the end of, linear memory.
    InvalidOffset,
    /// A frame's payload could not be encoded or decoded.
    Bincode(Box<bincode::ErrorKind>),
    /// The module's bytes did not compile.
    Compile(wasmer::CompileError),
    /// A required export is missing or has the wrong type.
    Export(wasmer::ExportError),
    /// The module could not be instantiated.
    Instantiation(wasmer::InstantiationError),
    /// The shared region could not be allocated.
    Memory(wasmer::MemoryError),
    /// A guest call trapped.
    Runtime(wasmer::RuntimeError),
    /// The WASI state could not be built.
    State(wasmer_wasi::WasiStateCreationError),
    /// A call into a module failed: the module's place in load order, its
    /// name (empty where its metadata was not read yet), the entry point
    /// called, and what went wrong.
    Call { index: usize, module: String, entry: String, cause: Box<Error> },
    /// The module's WASI ABI could not be detected.
    WasiSupport(String),
}

impl Error {
    /// The error `cause`, raised while calling `entry` of the module at
    /// `index` in load order, named `module`.
    pub fn in_call(index: usize, module: &String, entry: &str, cause: Error) -> (r: Self)
        ensures
            r matches Error::Call { index: i, module: m, entry: e, cause: c } && i == index && m@ == module@
                && e@ == entry@ && *c == cause,
    {
        Error::Call { index, module: module.clone(), entry: entry.to_owned(), cause: Box::new(cause) }
    }

    /// A free-form error.
    pub fn custom(v: String) -> (r: Self)
        ensures
            r matches Error::Custom(s) && s@ == v@,
    {
        Error::Custom(v)
    }
}

} // verus!
