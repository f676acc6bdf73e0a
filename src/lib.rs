//! The core of a server-side renderer that embeds a JavaScript engine.
//!
//! The library owns every decision of loading a bundle and rendering it:
//! whether a source is loaded already, what text the engine runs for each
//! format, which exports become render functions and in what order, which
//! compiled scripts the bounded cache keeps, how the outcomes of the calls
//! add up to the output, and which outputs are served from the render cache.
//! The engine stays with the host: it carries out a `LoadPlan` and the calls
//! of a `RenderJob`, and reports what came of them.
pub mod error;
pub mod keyed;
pub mod load;
pub mod registry;
pub mod render;
pub mod render_cache;
pub mod script_cache;
pub mod ssr;

pub use error::SsrError;
pub use load::{
    entry_script, factory_outcome, factory_script, parse_module_type, LoadPlan, ModuleExport,
    ModuleOutcome, ModuleType, ScriptRun, ScriptValue,
};
pub use registry::{FunctionRegistry, Property};
pub use render::{call_piece, CallOutcome, RenderJob};
pub use render_cache::RenderCache;
pub use script_cache::{ScriptCache, SCRIPT_CACHE_CAPACITY};
pub use ssr::{RenderStart, Ssr};
