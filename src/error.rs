use vstd::prelude::*;

verus! {

/// The ways a load or a render can fail. Each is reported to the caller of
/// the step that met it; nothing is retried.
#[derive(Clone, Copy, Debug, PartialEq, Eq, Structural)]
pub enum SsrError {
    /// The module type is neither `cjs` nor `esm`.
    UnsupportedModuleType,
    /// The engine could not compile a script or a module.
    CompileFailure,
    /// A module could not be instantiated (it imports something).
    InstantiateFailure,
    /// Running a script or evaluating a module threw or was rejected.
    EvaluateFailure,
    /// The script that names the entry point did not give an object.
    MissingExports,
    /// The module has no export under the entry point's name.
    EntryPointNotFound,
    /// The module's export under the entry point's name is not callable.
    EntryPointNotCallable,
    /// Calling a registered function failed (it threw).
    CallFailure,
    /// A returned promise was rejected, or resolved to null or undefined.
    PromiseRejected,
    /// A function's result could not be turned into a string.
    StringCoercionFailure,
}

} // verus!
