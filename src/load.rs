use vstd::prelude::*;

use crate::error::SsrError;
use crate::registry::Property;

verus! {

/// The two formats a source bundle can come in.
#[derive(Clone, Copy, Debug, PartialEq, Eq, Structural)]
pub enum ModuleType {
    /// A CommonJS or IIFE bundle, written `cjs`.
    CommonJs,
    /// An ES module, written `esm`.
    EsModule,
}

/// The module type that `name` stands for, if any.
pub open spec fn module_type_of(name: Seq<char>) -> Option<ModuleType> {
    if name == "cjs"@ {
        Some(ModuleType::CommonJs)
    } else if name == "esm"@ {
        Some(ModuleType::EsModule)
    } else {
        None
    }
}

/// Reads a module type name: `cjs` or `esm`, and nothing else.
pub fn parse_module_type(name: &str) -> (r: Result<ModuleType, SsrError>)
    ensures
        r == match module_type_of(name@) {
            Some(t) => Ok(t),
            None => Err(SsrError::UnsupportedModuleType),
        },
{
    let n = name.to_owned();
    if n == "cjs".to_owned() {
        Ok(ModuleType::CommonJs)
    } else if n == "esm".to_owned() {
        Ok(ModuleType::EsModule)
    } else {
        Err(SsrError::UnsupportedModuleType)
    }
}

/// A CommonJS bundle wrapped in a factory that takes `require`, `module` and
/// `exports`, and a call of that factory with no arguments, so that none of
/// the three is bound to anything. Run, it runs the bundle's top-level code,
/// which establishes its side effects; the factory's result is discarded.
pub open spec fn factory_code(source: Seq<char>) -> Seq<char> {
    "(function(require, module, exports) {"@ + source + "})()"@
}

/// The bundle followed by an expression that names its entry point; run, it
/// gives the exports object.
pub open spec fn entry_code(source: Seq<char>, entry_point: Seq<char>) -> Seq<char> {
    source + ";"@ + entry_point
}

/// The text of the factory script for a CommonJS bundle.
pub fn factory_script(source: &str) -> (r: String)
    ensures
        r@ == factory_code(source@),
{
    let mut r = String::new();
    r.append("(function(require, module, exports) {");
    r.append(source);
    r.append("})()");
    r
}

/// What running a classic script came to.
#[derive(Clone, Copy, Debug, PartialEq, Eq, Structural)]
pub enum ScriptRun {
    /// The engine could not compile it.
    CompileFailed,
    /// It threw.
    Threw,
    /// It ran to its end.
    Ran,
}

/// What running the factory script means for the load.
pub open spec fn factory_result(run: ScriptRun) -> Result<(), SsrError> {
    match run {
        ScriptRun::CompileFailed => Err(SsrError::CompileFailure),
        ScriptRun::Threw => Err(SsrError::EvaluateFailure),
        ScriptRun::Ran => Ok(()),
    }
}

/// Whether a load goes on after its factory script came to `run`: it does
/// where the script ran, else it fails with the step's error.
pub fn factory_outcome(run: ScriptRun) -> (r: Result<(), SsrError>)
    ensures
        r == factory_result(run),
{
    match run {
        ScriptRun::CompileFailed => Err(SsrError::CompileFailure),
        ScriptRun::Threw => Err(SsrError::EvaluateFailure),
        ScriptRun::Ran => Ok(()),
    }
}

/// The text of the script that gives a CommonJS bundle's exports.
pub fn entry_script(source: &str, entry_point: &str) -> (r: String)
    ensures
        r@ == entry_code(source@, entry_point@),
{
    let mut r = String::new();
    r.append(source);
    r.append(";");
    r.append(entry_point);
    proof {
        assert(r@ =~= entry_code(source@, entry_point@));
    }
    r
}

/// What a load asks of the engine, once the library has decided.
pub enum LoadPlan {
    /// This source is loaded already: nothing is to be done.
    AlreadyLoaded,
    /// Run `factory` as a classic script (reporting to `factory_outcome`),
    /// then compile `script` (reporting to `Ssr::note_compiled`), run it, and
    /// report its value to `Ssr::finish_commonjs`.
    CommonJs { factory: String, script: String },
    /// Compile, instantiate (resolving no import) and evaluate the source as
    /// a module, draining the microtask queue while its evaluation is
    /// pending, and report the outcome, with the entry point's export, to
    /// `Ssr::finish_module`.
    EsModule,
}

/// The value that a CommonJS entry script gave when it ran.
pub enum ScriptValue {
    /// It threw.
    Threw,
    /// It does not convert to an object.
    NotAnObject,
    /// An object with these own enumerable properties, in enumeration order.
    Object(Vec<Property>),
}

/// What compiling, instantiating and evaluating a module came to.
pub enum ModuleOutcome {
    /// The engine could not compile it.
    CompileFailed,
    /// It could not be instantiated (it imports something).
    InstantiateFailed,
    /// Its evaluation threw, or its evaluation's promise was rejected.
    EvaluateFailed,
    /// It was evaluated, and exports this under the entry point's name.
    Evaluated(ModuleExport),
}

/// What an evaluated module exports under the entry point's name.
pub enum ModuleExport {
    /// Nothing.
    Missing,
    /// A value that cannot be called.
    NotCallable,
    /// A function, kept by the host under this handle.
    Function(u64),
}

} // verus!
