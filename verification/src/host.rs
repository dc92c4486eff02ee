//! The execution host: runs one compiled artifact inside an isolated
//! runtime and reports the run's outcome.
//!
//! Every call of [`execute`] builds its own world — a freshly drawn
//! [`ExecutionIdentity`], its own store, its own [`SystemContext`] — so two
//! concurrent runs share no mutable state and never observe each other's
//! memory. Wiring is two-phase: the context is constructed before the
//! module's linear memory exists, and the memory is bound into it strictly
//! after instantiation and strictly before the entry point is invoked.
//!
//! One honest limitation: the system-interface surface this host offers a
//! module is empty. The runtime's POSIX-style companion crate pins an older
//! line of the runtime that the crate registry used here no longer serves,
//! so no system calls are wired into the import surface. A module that
//! imports such an interface fails instantiation
//! ([`SetupFault::Instantiation`]); a self-contained module runs in full
//! isolation. The two-phase wiring and the outcome protocol — including the
//! requested-exit mapping of [`invoke_outcome`] — stand as the host's
//! contract for any surface, and the context records exactly what was bound.

use vstd::prelude::*;

use crate::artifact::Artifact;

verus! {

/// The runtime's compiler configuration, carried opaquely.
#[verifier::external_type_specification]
#[verifier::external_body]
pub struct ExCranelift(wasmer_compiler_cranelift::Cranelift);

/// One run's store: the engine state every runtime object lives in.
#[verifier::external_type_specification]
#[verifier::external_body]
pub struct ExStore(wasmer::Store);

/// A compiled, validated module, carried opaquely.
#[verifier::external_type_specification]
#[verifier::external_body]
pub struct ExModule(wasmer::Module);

/// The import surface a module is instantiated against.
#[verifier::external_type_specification]
#[verifier::external_body]
pub struct ExImports(wasmer::Imports);

/// A live instance of a module, carried opaquely.
#[verifier::external_type_specification]
#[verifier::external_body]
pub struct ExInstance(wasmer::Instance);

/// A handle on an instance's linear memory, carried opaquely.
#[verifier::external_type_specification]
#[verifier::external_body]
pub struct ExMemory(wasmer::Memory);

/// A handle on an instance's exported function, carried opaquely.
#[verifier::external_type_specification]
#[verifier::external_body]
pub struct ExFunction(wasmer::Function);

/// A process-unique token scoping one run's system-interface state. Drawn
/// fresh at the start of every [`execute`] call, never derived from input,
/// discarded when the run ends, and never reused across runs.
#[derive(Debug)]
pub struct ExecutionIdentity {
    pub token: String,
}

impl ExecutionIdentity {
    /// Draw a fresh identity for one run. Its token always has the
    /// 36-character hyphenated form; nothing else is promised of a random
    /// draw.
    pub fn fresh() -> (r: ExecutionIdentity)
        ensures
            r.token@.len() == 36,
    {
        ExecutionIdentity { token: fresh_token() }
    }
}

/// Relies on uuid::Uuid::new_v4 and its rendering: a freshly drawn random
/// identifier in the documented hyphenated form, which is always 36
/// characters. Nothing is assumed of the characters themselves. Aborts only
/// if the operating system's randomness source fails — an environmental
/// failure, like running out of memory.
#[verifier::external_body]
fn fresh_token() -> (r: String)
    ensures
        r@.len() == 36,
{
    uuid::Uuid::new_v4().to_string()
}

/// The system-interface context of one run: the identity that scopes it
/// and, once the module is instantiated, the module's exported linear
/// memory bound into it. With this host's empty import surface (see the
/// module doc) no system call ever reads the bound memory; the context
/// still records, as its contract states, exactly which handle the second
/// wiring phase bound, so a host with a populated surface can rely on it.
pub struct SystemContext {
    identity: ExecutionIdentity,
    memory: Option<wasmer::Memory>,
    wired: bool,
}

impl SystemContext {
    /// Whether the second wiring phase happened: the instantiated module's
    /// exported linear memory — when it has one — stands bound into this
    /// context.
    pub closed spec fn wired(self) -> bool {
        self.wired
    }

    /// The memory handle the second wiring phase bound, when the module
    /// exported one.
    pub closed spec fn bound_memory(self) -> Option<wasmer::Memory> {
        self.memory
    }

    /// The token of the identity this context is scoped to.
    pub closed spec fn identity_token(self) -> Seq<char> {
        self.identity.token@
    }

    /// First wiring phase: a context scoped to `identity`, existing before
    /// the module — and thus its memory — does, with nothing bound yet.
    pub fn new(identity: ExecutionIdentity) -> (r: SystemContext)
        ensures
            !r.wired(),
            r.bound_memory() is None,
            r.identity_token() == identity.token@,
    {
        SystemContext { identity, memory: None, wired: false }
    }

    /// Second wiring phase: bind the instantiated module's exported linear
    /// memory, if it exports one, into the context. Must happen strictly
    /// after instantiation (only then does the memory exist) and strictly
    /// before the entry point is invoked (see [`execute`]). The context
    /// holds exactly the handle it was given; the scoping identity stays.
    pub fn bind_memory(&mut self, memory: Option<wasmer::Memory>)
        ensures
            final(self).wired(),
            final(self).bound_memory() == memory,
            final(self).identity_token() == old(self).identity_token(),
    {
        self.memory = memory;
        self.wired = true;
    }
}

/// Why a run could not be set up, each step of the host with its own
/// distinguishable reason, so callers can tell an environment problem from
/// an artifact problem.
#[derive(Clone, Copy, PartialEq, Eq, Structural, Debug)]
pub enum SetupFault {
    /// The system-interface context could not be constructed.
    Environment,
    /// The artifact's bytes are not a structurally valid module.
    InvalidArtifact,
    /// The module could not be instantiated against the import surface.
    Instantiation,
    /// The instantiated module exports no designated entry point.
    MissingEntryPoint,
}

/// The reported outcome of one run.
#[derive(Debug)]
pub enum ExecutionOutcome {
    /// The entry point ran to completion, or requested this exit code.
    Exited(u32),
    /// A runtime fault inside the module ended the run.
    Trapped(String),
    /// The run never started; the fault names the step that failed.
    SetupFailed(SetupFault, String),
}

/// How the entry point's invocation ended. `Exit` is reported by a runtime
/// whose system-interface surface lets the module request an exit code; a
/// plain completion carries no code. With this host's empty surface (see
/// the module doc) no wrapper ever produces `Exit` — a module here has no
/// call through which to request one — but the outcome protocol and its
/// mapping, [`invoke_outcome`], state the full contract.
#[derive(Debug)]
pub enum InvokeResult {
    Completed,
    Exit(u32),
    Fault(String),
}

/// How an entry point's termination maps to the run's reported outcome: a
/// normal return is exit code zero, an explicitly requested exit keeps its
/// code, and any runtime fault is a trap, terminal for this run.
pub fn invoke_outcome(r: InvokeResult) -> (o: ExecutionOutcome)
    ensures
        r is Completed ==> o == ExecutionOutcome::Exited(0u32),
        r matches InvokeResult::Exit(c) ==> o == ExecutionOutcome::Exited(c),
        r matches InvokeResult::Fault(m) ==> o == ExecutionOutcome::Trapped(m),
{
    match r {
        InvokeResult::Completed => ExecutionOutcome::Exited(0),
        InvokeResult::Exit(c) => ExecutionOutcome::Exited(c),
        InvokeResult::Fault(m) => ExecutionOutcome::Trapped(m),
    }
}

/// Relies on wasmer_compiler_cranelift::Cranelift::default: the compiler's
/// default configuration.
#[verifier::external_body]
fn default_compiler() -> wasmer_compiler_cranelift::Cranelift {
    wasmer_compiler_cranelift::Cranelift::default()
}

/// Relies on wasmer::Store::new: a fresh store owning this run's engine,
/// shared with no other run.
#[verifier::external_body]
fn new_store(compiler: wasmer_compiler_cranelift::Cranelift) -> wasmer::Store {
    wasmer::Store::new(compiler)
}

/// Whether a byte sequence is a structurally valid module that the
/// runtime's loader, under this host's fixed default compiler
/// configuration, accepts. Deliberately given no definition — the module
/// format is the runtime's own — beyond being a function of the bytes
/// alone.
pub uninterp spec fn module_valid(bytes: Seq<u8>) -> bool;

/// Relies on wasmer::Module::new: validates and compiles the bytes, and —
/// under the fixed default compiler configuration every store here is built
/// with — accepts or rejects on the bytes alone; structurally invalid bytes
/// yield a compile error, reported by message, never a panic.
#[verifier::external_body]
fn load_module(store: &wasmer::Store, bytes: &Vec<u8>) -> (r: Result<wasmer::Module, String>)
    ensures
        (r is Ok) <==> module_valid(bytes@),
{
    wasmer::Module::new(store, bytes).map_err(|e| format!("{}", e))
}

/// Relies on wasmer::Imports::new: an import surface with nothing in it.
#[verifier::external_body]
fn empty_imports() -> wasmer::Imports {
    wasmer::Imports::new()
}

/// Relies on wasmer::Instance::new: instantiates the module against the
/// given imports; link and start-section failures yield an error message.
#[verifier::external_body]
fn instantiate(
    store: &mut wasmer::Store,
    module: &wasmer::Module,
    imports: &wasmer::Imports,
) -> Result<wasmer::Instance, String> {
    wasmer::Instance::new(store, module, imports).map_err(|e| format!("{}", e))
}

/// Relies on wasmer::Exports::get_memory: the instance's exported linear
/// memory under the given name, when it exports one.
#[verifier::external_body]
fn exported_memory(instance: &wasmer::Instance, name: &str) -> Option<wasmer::Memory> {
    match instance.exports.get_memory(name) {
        Ok(m) => Some(m.clone()),
        Err(_) => None,
    }
}

/// Relies on wasmer::Exports::get_function: the instance's exported
/// function under the given name, if it exports one.
#[verifier::external_body]
fn exported_function(instance: &wasmer::Instance, name: &str) -> Result<wasmer::Function, String> {
    match instance.exports.get_function(name) {
        Ok(f) => Ok(f.clone()),
        Err(e) => Err(format!("{}", e)),
    }
}

/// Relies on wasmer::Function::call: runs the function with no arguments to
/// completion; a runtime fault comes back as an error carrying a message.
#[verifier::external_body]
fn invoke_entry(store: &mut wasmer::Store, entry: &wasmer::Function) -> InvokeResult {
    match entry.call(store, &[]) {
        Ok(_) => InvokeResult::Completed,
        Err(e) => InvokeResult::Fault(e.message()),
    }
}

/// Invoke the designated entry point. Demands a fully wired context: the
/// module's memory must stand bound — strictly after instantiation, see
/// [`SystemContext::bind_memory`] — before any invocation.
fn run_entry(
    store: &mut wasmer::Store,
    ctx: &SystemContext,
    entry: &wasmer::Function,
) -> InvokeResult
    requires
        ctx.wired(),
{
    invoke_entry(store, entry)
}

/// Run one artifact inside a fresh, isolated runtime and report the
/// outcome. Steps, each with its own failure mapping: draw a fresh
/// identity; construct the system-interface context scoped to it; load the
/// artifact as a module ([`SetupFault::InvalidArtifact`], distinct from any
/// environment fault); instantiate it against an empty import surface
/// ([`SetupFault::Instantiation`]); bind the exported memory `"memory"`,
/// when the module has one, into the context — strictly after
/// instantiation, strictly before invocation; invoke the exported entry
/// point `"_start"` ([`SetupFault::MissingEntryPoint`]) and map its
/// termination through [`invoke_outcome`].
///
/// Nothing here is shared between calls: each run gets its own identity,
/// store, context and memory, so concurrent runs are independent and a trap
/// terminates only its own run.
///
/// What holds of every outcome: this host's context construction cannot
/// fail, so no run reports an environment fault — an artifact problem is
/// thereby always distinguishable from one; the run is rejected as an
/// invalid artifact exactly when the loader refuses the bytes; and a run
/// only ever reaches the entry point — exiting or trapping — on bytes the
/// loader accepts.
pub fn execute(artifact: &Artifact) -> (r: ExecutionOutcome)
    ensures
        !(r matches ExecutionOutcome::SetupFailed(SetupFault::Environment, _)),
        (r matches ExecutionOutcome::SetupFailed(SetupFault::InvalidArtifact, _)) <==> !module_valid(
            artifact@,
        ),
        (r is Exited || r is Trapped) ==> module_valid(artifact@),
{
    let identity = ExecutionIdentity::fresh();
    let mut ctx = SystemContext::new(identity);
    let compiler = default_compiler();
    let mut store = new_store(compiler);
    let module = match load_module(&store, artifact.bytes()) {
        Ok(m) => m,
        Err(msg) => {
            return ExecutionOutcome::SetupFailed(SetupFault::InvalidArtifact, msg);
        },
    };
    let imports = empty_imports();
    let instance = match instantiate(&mut store, &module, &imports) {
        Ok(i) => i,
        Err(msg) => {
            return ExecutionOutcome::SetupFailed(SetupFault::Instantiation, msg);
        },
    };
    let memory = exported_memory(&instance, "memory");
    ctx.bind_memory(memory);
    let entry = match exported_function(&instance, "_start") {
        Ok(f) => f,
        Err(msg) => {
            return ExecutionOutcome::SetupFailed(SetupFault::MissingEntryPoint, msg);
        },
    };
    let result = run_entry(&mut store, &ctx, &entry);
    invoke_outcome(result)
}

} // verus!
