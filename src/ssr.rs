use vstd::prelude::*;

use crate::error::SsrError;
use crate::keyed::{has_key, with_entry};
use crate::load::{
    entry_code, entry_script, factory_code, factory_script, module_type_of, parse_module_type,
    LoadPlan, ModuleExport, ModuleOutcome, ModuleType, ScriptValue,
};
use crate::registry::{with_exports, FunctionRegistry, Property};
use crate::render::{opt_view, render_key, render_outcome, CallOutcome, RenderJob};
use crate::render_cache::RenderCache;
use crate::script_cache::{stored, touched, ScriptCache, SCRIPT_CACHE_CAPACITY};

verus! {

/// The state of one renderer: what its engine was given and what it made.
/// The engine itself stays with the host, which does what a plan or a step
/// asks and reports back.
pub struct Ssr {
    loaded: Vec<String>,
    functions: FunctionRegistry,
    scripts: ScriptCache,
    renders: RenderCache,
}

/// What a renderer's state stands for.
pub struct SsrView {
    /// The sources loaded with success.
    pub loaded: Set<Seq<char>>,
    /// The registered functions by name, in registration order.
    pub functions: Seq<(Seq<char>, u64)>,
    /// The compiled entry scripts by text, most recently used first.
    pub scripts: Seq<(Seq<char>, u64)>,
    /// The finished renders by key.
    pub renders: Map<Seq<char>, Seq<char>>,
}

impl View for Ssr {
    type V = SsrView;

    closed spec fn view(&self) -> SsrView {
        SsrView {
            loaded: self.loaded@.map_values(|s: String| s@).to_set(),
            functions: self.functions@,
            scripts: self.scripts@,
            renders: self.renders@,
        }
    }
}

/// Whether loading `source` asks nothing of the engine: it was loaded.
pub open spec fn plans_nothing(state: SsrView, source: Seq<char>) -> bool {
    state.loaded.contains(source)
}

/// The output that a render with `params` is served from the cache, if any.
pub open spec fn cached_output(state: SsrView, params: Option<Seq<char>>) -> Option<Seq<char>> {
    if state.renders.contains_key(render_key(params)) {
        Some(state.renders[render_key(params)])
    } else {
        None
    }
}

/// The state after the entry script `script` was compiled, which gave the
/// handle `compiled` (`None`: it did not compile).
pub open spec fn compiled_state(state: SsrView, script: Seq<char>, compiled: Option<u64>) -> SsrView {
    SsrView {
        scripts: match compiled {
            Some(id) => if has_key(state.scripts, script) {
                touched(state.scripts, script)
            } else {
                stored(state.scripts, script, id, SCRIPT_CACHE_CAPACITY as nat)
            },
            None => touched(state.scripts, script),
        },
        ..state
    }
}

/// The state after the CommonJS bundle `source` was loaded, its entry script
/// having given an object with the properties `props`.
pub open spec fn commonjs_loaded(state: SsrView, source: Seq<char>, props: Seq<Property>) -> SsrView {
    SsrView {
        loaded: state.loaded.insert(source),
        functions: with_exports(state.functions, props),
        ..state
    }
}

/// The state after the ES module `source` was loaded, its entry point being
/// the function `f`.
pub open spec fn module_loaded(state: SsrView, source: Seq<char>, f: u64) -> SsrView {
    SsrView {
        loaded: state.loaded.insert(source),
        functions: with_entry(state.functions, "default"@, f),
        ..state
    }
}

/// The state after a render under `key` gave `output`.
pub open spec fn rendered(state: SsrView, key: Seq<char>, output: Seq<char>) -> SsrView {
    SsrView { renders: state.renders.insert(key, output), ..state }
}

/// A loaded source is loaded again without any work of the engine, so its
/// top-level code does not run a second time: a successful load makes
/// `Ssr::begin_load` plan nothing for its source, and no later step undoes
/// that.
pub proof fn loaded_source_plans_nothing(
    state: SsrView,
    source: Seq<char>,
    props: Seq<Property>,
    f: u64,
    other: Seq<char>,
    script: Seq<char>,
    compiled: Option<u64>,
    key: Seq<char>,
    output: Seq<char>,
)
    ensures
        plans_nothing(commonjs_loaded(state, source, props), source),
        plans_nothing(module_loaded(state, source, f), source),
        plans_nothing(state, source) ==> {
            &&& plans_nothing(commonjs_loaded(state, other, props), source)
            &&& plans_nothing(module_loaded(state, other, f), source)
            &&& plans_nothing(compiled_state(state, script, compiled), source)
            &&& plans_nothing(rendered(state, key, output), source)
        },
{
}

/// A render that succeeded is served again, output for output, to every
/// later render with a parameter string of the same key, whatever was loaded
/// or compiled in between: only a render changes what the cache serves, and
/// only under its own key.
pub proof fn rendered_output_is_served_again(
    state: SsrView,
    params: Option<Seq<char>>,
    output: Seq<char>,
    source: Seq<char>,
    props: Seq<Property>,
    f: u64,
    script: Seq<char>,
    compiled: Option<u64>,
    key: Seq<char>,
    other_output: Seq<char>,
)
    ensures
        cached_output(rendered(state, render_key(params), output), params) == Some(output),
        cached_output(commonjs_loaded(state, source, props), params) == cached_output(state, params),
        cached_output(module_loaded(state, source, f), params) == cached_output(state, params),
        cached_output(compiled_state(state, script, compiled), params) == cached_output(
            state,
            params,
        ),
        key != render_key(params) ==> cached_output(rendered(state, key, other_output), params)
            == cached_output(state, params),
{
}

/// The compile cache never holds more than `SCRIPT_CACHE_CAPACITY` scripts:
/// compiling keeps the bound, and no other step touches the cache.
pub proof fn script_cache_stays_bounded(state: SsrView, script: Seq<char>, compiled: Option<u64>)
    requires
        state.scripts.len() <= SCRIPT_CACHE_CAPACITY,
    ensures
        compiled_state(state, script, compiled).scripts.len() <= SCRIPT_CACHE_CAPACITY,
{
    let s = state.scripts;
    if has_key(s, script) {
        let i = choose|i: int| 0 <= i < s.len() && s[i].0 == script;
        assert(touched(s, script).len() == s.len());
    }
}

/// An ES module loaded into a renderer with no functions leaves one
/// function, under `default`: a render calls it, and only it, once.
pub proof fn module_entry_is_the_only_function(f: u64)
    ensures
        with_entry(Seq::<(Seq<char>, u64)>::empty(), "default"@, f) == seq![("default"@, f)],
{
    assert(!has_key(Seq::<(Seq<char>, u64)>::empty(), "default"@));
    assert(Seq::<(Seq<char>, u64)>::empty().push(("default"@, f)) =~= seq![("default"@, f)]);
}

/// What starting a render came to.
pub enum RenderStart {
    /// The output of an earlier render with the same parameters.
    Cached(String),
    /// A render to carry out: call each function that `Ssr::next_function`
    /// names with the job's argument, and record each outcome on the job.
    Run(RenderJob),
}

impl Ssr {
    /// The parts of the state are each well formed.
    pub closed spec fn wf(&self) -> bool {
        &&& self.functions.wf()
        &&& self.scripts.wf()
        &&& self.scripts@.len() <= SCRIPT_CACHE_CAPACITY
        &&& self.renders.wf()
    }

    /// A renderer that has loaded nothing.
    pub fn new() -> (r: Ssr)
        ensures
            r.wf(),
            r@.loaded == Set::<Seq<char>>::empty(),
            r@.functions == Seq::<(Seq<char>, u64)>::empty(),
            r@.scripts == Seq::<(Seq<char>, u64)>::empty(),
            r@.scripts.len() <= SCRIPT_CACHE_CAPACITY,
            r@.renders == Map::<Seq<char>, Seq<char>>::empty(),
    {
        let r = Ssr {
            loaded: Vec::new(),
            functions: FunctionRegistry::new(),
            scripts: ScriptCache::new(),
            renders: RenderCache::new(),
        };
        assert(r@.loaded =~= Set::<Seq<char>>::empty());
        r
    }

    /// Whether `source` was loaded with success.
    pub fn is_loaded(&self, source: &str) -> (r: bool)
        ensures
            r == self@.loaded.contains(source@),
    {
        let ghost s = self.loaded@.map_values(|s: String| s@);
        let wanted = source.to_owned();
        let mut i: usize = 0;
        while i < self.loaded.len()
            invariant
                0 <= i <= self.loaded.len(),
                s == self.loaded@.map_values(|s: String| s@),
                wanted@ == source@,
                forall|j: int| 0 <= j < i ==> s[j] != source@,
            decreases self.loaded.len() - i,
        {
            assert(s[i as int] == self.loaded@[i as int]@);
            if self.loaded[i] == wanted {
                assert(s.contains(source@));
                return true;
            }
            i = i + 1;
        }
        assert(!s.contains(source@));
        false
    }

    /// Decides what loading `source` in the format `module_type` asks of the
    /// engine: nothing where the source is loaded already, else the steps of
    /// its format.
    pub fn begin_load(&self, source: &str, entry_point: &str, module_type: &str) -> (r: Result<
        LoadPlan,
        SsrError,
    >)
        ensures
            plans_nothing(self@, source@) ==> r == Ok::<LoadPlan, SsrError>(LoadPlan::AlreadyLoaded),
            !plans_nothing(self@, source@) ==> match module_type_of(module_type@) {
                None => r == Err::<LoadPlan, SsrError>(SsrError::UnsupportedModuleType),
                Some(ModuleType::EsModule) => r == Ok::<LoadPlan, SsrError>(LoadPlan::EsModule),
                Some(ModuleType::CommonJs) => match r {
                    Ok(LoadPlan::CommonJs { factory, script }) => factory@ == factory_code(source@)
                        && script@ == entry_code(source@, entry_point@),
                    _ => false,
                },
            },
    {
        if self.is_loaded(source) {
            return Ok(LoadPlan::AlreadyLoaded);
        }
        match parse_module_type(module_type) {
            Err(e) => Err(e),
            Ok(ModuleType::EsModule) => Ok(LoadPlan::EsModule),
            Ok(ModuleType::CommonJs) => Ok(
                LoadPlan::CommonJs {
                    factory: factory_script(source),
                    script: entry_script(source, entry_point),
                },
            ),
        }
    }

    /// Takes note of compiling the entry script `script`, which gave the
    /// handle `compiled` (`None`: it did not compile): a use of its cache
    /// entry, and where it had none and the compile succeeded, a new entry.
    /// The script to run is always the fresh one, whose handle is returned.
    pub fn note_compiled(&mut self, script: &str, compiled: Option<u64>) -> (r: Result<u64, SsrError>)
        requires
            old(self).wf(),
        ensures
            final(self).wf(),
            r == match compiled {
                Some(id) => Ok::<u64, SsrError>(id),
                None => Err::<u64, SsrError>(SsrError::CompileFailure),
            },
            final(self)@ == compiled_state(old(self)@, script@, compiled),
            final(self)@.scripts.len() <= SCRIPT_CACHE_CAPACITY,
    {
        let hit = self.scripts.lookup(script);
        match compiled {
            Some(id) => {
                if !hit {
                    self.scripts.store(script.to_owned(), id);
                }
                Ok(id)
            },
            None => Err(SsrError::CompileFailure),
        }
    }

    fn mark_loaded(&mut self, source: &str)
        ensures
            final(self)@.loaded == old(self)@.loaded.insert(source@),
            final(self).functions == old(self).functions,
            final(self).scripts == old(self).scripts,
            final(self).renders == old(self).renders,
    {
        let ghost s = self.loaded@.map_values(|s: String| s@);
        self.loaded.push(source.to_owned());
        assert(self.loaded@.map_values(|s: String| s@) =~= s.push(source@));
        assert forall|x: Seq<char>| #[trigger] s.push(source@).contains(x) == (s.contains(x) || x
            == source@) by {
            if s.push(source@).contains(x) {
                let k = choose|k: int| 0 <= k < s.push(source@).len() && s.push(source@)[k] == x;
                if k < s.len() {
                    assert(s[k] == x);
                }
            }
            if s.contains(x) {
                let k = choose|k: int| 0 <= k < s.len() && s[k] == x;
                assert(s.push(source@)[k] == x);
            }
            if x == source@ {
                assert(s.push(source@)[s.len() as int] == x);
            }
        }
        assert(self@.loaded =~= old(self)@.loaded.insert(source@));
    }

    /// Ends the load of the CommonJS bundle `source`, whose entry script gave
    /// `value`: each callable property of an object is registered under its
    /// name, in order, and the source counts as loaded. A script that threw,
    /// or a value that is no object, fails the load and changes nothing.
    pub fn finish_commonjs(&mut self, source: &str, value: ScriptValue) -> (r: Result<(), SsrError>)
        requires
            old(self).wf(),
        ensures
            final(self).wf(),
            final(self)@.scripts.len() <= SCRIPT_CACHE_CAPACITY,
            match value {
                ScriptValue::Threw => r == Err::<(), SsrError>(SsrError::EvaluateFailure)
                    && final(self)@ == old(self)@,
                ScriptValue::NotAnObject => r == Err::<(), SsrError>(SsrError::MissingExports)
                    && final(self)@ == old(self)@,
                ScriptValue::Object(props) => r == Ok::<(), SsrError>(()) && final(self)@
                    == commonjs_loaded(old(self)@, source@, props@),
            },
    {
        match value {
            ScriptValue::Threw => Err(SsrError::EvaluateFailure),
            ScriptValue::NotAnObject => Err(SsrError::MissingExports),
            ScriptValue::Object(props) => {
                self.functions.register_exports(props);
                self.mark_loaded(source);
                Ok(())
            },
        }
    }

    /// Ends the load of the ES module `source`, which came to `outcome`: where
    /// it was evaluated and exports a function under the entry point's name,
    /// that function is registered under `default`, and the source counts as
    /// loaded. Anything else fails the load with its step's error and changes
    /// nothing.
    pub fn finish_module(&mut self, source: &str, outcome: ModuleOutcome) -> (r: Result<
        (),
        SsrError,
    >)
        requires
            old(self).wf(),
        ensures
            final(self).wf(),
            final(self)@.scripts.len() <= SCRIPT_CACHE_CAPACITY,
            match outcome {
                ModuleOutcome::Evaluated(ModuleExport::Function(f)) => r == Ok::<(), SsrError>(())
                    && final(self)@ == module_loaded(old(self)@, source@, f),
                _ => final(self)@ == old(self)@ && r == Err::<(), SsrError>(
                    match outcome {
                        ModuleOutcome::CompileFailed => SsrError::CompileFailure,
                        ModuleOutcome::InstantiateFailed => SsrError::InstantiateFailure,
                        ModuleOutcome::EvaluateFailed => SsrError::EvaluateFailure,
                        ModuleOutcome::Evaluated(ModuleExport::Missing) => SsrError::EntryPointNotFound,
                        _ => SsrError::EntryPointNotCallable,
                    },
                ),
            },
    {
        match outcome {
            ModuleOutcome::CompileFailed => Err(SsrError::CompileFailure),
            ModuleOutcome::InstantiateFailed => Err(SsrError::InstantiateFailure),
            ModuleOutcome::EvaluateFailed => Err(SsrError::EvaluateFailure),
            ModuleOutcome::Evaluated(ModuleExport::Missing) => Err(SsrError::EntryPointNotFound),
            ModuleOutcome::Evaluated(ModuleExport::NotCallable) => Err(
                SsrError::EntryPointNotCallable,
            ),
            ModuleOutcome::Evaluated(ModuleExport::Function(f)) => {
                self.functions.register("default".to_owned(), f);
                self.mark_loaded(source);
                Ok(())
            },
        }
    }

    /// Starts a render with `params`: the cached output where one is stored
    /// under its key, else a job that calls every registered function with
    /// the parameter string (or undefined).
    pub fn begin_render(&self, params: Option<&str>) -> (r: RenderStart)
        requires
            self.wf(),
        ensures
            match r {
                RenderStart::Cached(out) => cached_output(self@, opt_view(params)) == Some(out@),
                RenderStart::Run(job) => cached_output(self@, opt_view(params)) == None::<Seq<char>>
                    && job.wf() && job@.key == render_key(opt_view(params))
                    && job@.argument == opt_view(params)
                    && job@.outcomes == Seq::<CallOutcome>::empty(),
            },
    {
        let job = RenderJob::new(params);
        match self.renders.lookup(job.key()) {
            Some(out) => RenderStart::Cached(out),
            None => RenderStart::Run(job),
        }
    }

    /// The handle of the function that a render under way calls next: the
    /// registered function after those it called, if any is left.
    pub fn next_function(&self, job: &RenderJob) -> (r: Option<u64>)
        requires
            job.wf(),
        ensures
            r == if job@.outcomes.len() < self@.functions.len() {
                Some(self@.functions[job@.outcomes.len() as int].1)
            } else {
                None::<u64>
            },
    {
        let i = job.position();
        if i < self.functions.len() {
            Some(self.functions.function_at(i))
        } else {
            None
        }
    }

    /// Ends a render that called every registered function with success:
    /// its output, which is stored under its key.
    pub fn finish_render(&mut self, job: RenderJob) -> (r: String)
        requires
            old(self).wf(),
            job.wf(),
            job@.outcomes.len() == old(self)@.functions.len(),
        ensures
            final(self).wf(),
            r@ == job@.output,
            render_outcome(job@.outcomes) == Ok::<Seq<char>, SsrError>(r@),
            final(self)@ == rendered(old(self)@, job@.key, r@),
            final(self)@.scripts.len() <= SCRIPT_CACHE_CAPACITY,
    {
        let (key, output) = job.into_parts();
        self.renders.store(key, output.clone());
        output
    }
}

} // verus!
