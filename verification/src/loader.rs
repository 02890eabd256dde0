//! Opening a module, resolving its two fixed exports, constructing its
//! plugin object, and tearing everything down in an order that never leaves
//! a reference into unmapped module memory.
//!
//! The outside work — mapping a file into the process, looking a symbol up,
//! calling the constructor — happens at the host's edge; what is verified
//! here is every decision around it: which export is resolved when, which
//! error is reported for which probe outcome, and that the plugin instance
//! dies strictly before its module.

use crate::plugin::{Meta, Plugin};
use vstd::prelude::*;

verus! {

/// The two exports every module must provide, under fixed, host-known
/// symbol names.
#[derive(Clone, Copy, Debug, PartialEq, Eq, Structural)]
pub enum ExportName {
    Identity,
    Constructor,
}

impl ExportName {
    /// The fixed symbol name under which this export is resolved.
    pub fn symbol(&self) -> (r: &'static str)
        ensures
            *self is Identity ==> r@ == "META"@,
            *self is Constructor ==> r@ == "new"@,
    {
        match self {
            ExportName::Identity => "META",
            ExportName::Constructor => "new",
        }
    }
}

/// Why one `open` failed: the path did not resolve to a loadable module, or
/// a required export was absent.
#[derive(Clone, Copy, Debug, PartialEq, Eq, Structural)]
pub enum LoadError {
    Open,
    MissingSymbol(ExportName),
}

/// Owns one opened module. The module can be taken out exactly once, for
/// unloading: afterwards the handle is empty, so unload is attempted at most
/// once per handle.
pub struct LibraryHandle<M> {
    module: Option<M>,
}

impl<M> View for LibraryHandle<M> {
    type V = Option<M>;

    closed spec fn view(&self) -> Option<M> {
        self.module
    }
}

impl<M> LibraryHandle<M> {
    /// Wrap a freshly mapped module.
    pub fn new(module: M) -> (h: Self)
        ensures
            h@ == Some(module),
    {
        LibraryHandle { module: Some(module) }
    }

    /// The handle still owns its module.
    pub open spec fn is_open(&self) -> bool {
        self@ is Some
    }

    /// Surrender the module for unloading. The first call yields it; every
    /// later call yields nothing, so no module is unloaded twice.
    pub fn take(&mut self) -> (r: Option<M>)
        ensures
            r == old(self)@,
            final(self)@ is None,
    {
        self.module.take()
    }
}

/// What mapping one module into the process yielded: the module itself, the
/// identity record found under its fixed export name (if any), and the
/// plugin object its constructor produces (if the constructor export is
/// present).
pub struct ModuleImage<M, P> {
    pub module: M,
    pub identity: Option<Meta>,
    pub constructor: Option<P>,
}

/// One successfully opened plugin: its identity, its constructed instance,
/// and the handle that keeps the module mapped for as long as either lives.
pub struct PluginInstance<M, P> {
    pub meta: Meta,
    pub plugin: P,
    lib: LibraryHandle<M>,
}

impl<M, P: Plugin> PluginInstance<M, P> {
    /// The handle owning this plugin's module.
    pub closed spec fn library(&self) -> LibraryHandle<M> {
        self.lib
    }

    /// The identity record recovered from the module.
    pub closed spec fn identity(&self) -> Meta {
        self.meta
    }

    /// The instance the module's constructor produced.
    pub closed spec fn instance(&self) -> P {
        self.plugin
    }

    /// Open one module: `mapped` is what mapping the file yielded, `None`
    /// when the path did not resolve to a loadable module. The identity
    /// export is required first, the constructor export second, and each
    /// absence is reported by name; on success the identity, the constructed
    /// instance and the module are packaged together.
    pub fn new(mapped: Option<ModuleImage<M, P>>) -> (r: Result<Self, LoadError>)
        ensures
            match r {
                Ok(inst) => {
                    &&& mapped matches Some(img)
                    &&& img.identity == Some(inst.identity())
                    &&& img.constructor == Some(inst.instance())
                    &&& inst.library()@ == Some(img.module)
                },
                Err(LoadError::Open) => mapped is None,
                Err(LoadError::MissingSymbol(which)) => match which {
                    ExportName::Identity => mapped matches Some(img) && img.identity is None,
                    ExportName::Constructor => mapped matches Some(img) && img.identity is Some
                        && img.constructor is None,
                },
            },
    {
        let img = match mapped {
            Some(img) => img,
            None => {
                return Err(LoadError::Open);
            },
        };
        let ModuleImage { module, identity, constructor } = img;
        let meta = match identity {
            Some(meta) => meta,
            None => {
                return Err(LoadError::MissingSymbol(ExportName::Identity));
            },
        };
        let plugin = match constructor {
            Some(plugin) => plugin,
            None => {
                return Err(LoadError::MissingSymbol(ExportName::Constructor));
            },
        };
        Ok(PluginInstance { meta, plugin, lib: LibraryHandle::new(module) })
    }

    /// Begin teardown: the plugin instance (and the identity borrowed from
    /// module memory) is destroyed here, strictly before the module can be
    /// unloaded — the library handle only becomes available once the
    /// instance is gone.
    pub fn close(self) -> (h: LibraryHandle<M>)
        ensures
            h == self.library(),
    {
        let PluginInstance { meta: _meta, plugin: _plugin, lib } = self;
        lib
    }
}

/// Where one module stands on its strictly forward, one-shot path from
/// unopened to closed. `Mapped` and `Ready` refine the opening half:
/// `Mapped` is "in memory, identity not yet resolved", `Opened` is "identity
/// resolved", `Ready` is "constructor resolved, not yet called". `Closing`
/// and `Unloading` refine teardown: instance still live, and instance gone
/// but module still mapped. There is no transition back.
#[derive(Clone, Copy, Debug, PartialEq, Eq, Structural)]
pub enum LoadPhase {
    Unopened,
    Mapped,
    Opened,
    Ready,
    Constructed,
    Closing,
    Unloading,
    Closed,
    Failed(LoadError),
}

/// What the host observed while performing the current action.
#[derive(Clone, Copy, Debug, PartialEq, Eq, Structural)]
pub enum LoadEvent {
    OpenSucceeded,
    OpenFailed,
    IdentityFound,
    IdentityMissing,
    ConstructorFound,
    ConstructorMissing,
    Constructed,
    CloseRequested,
    InstanceDestroyed,
    ModuleUnloaded,
}

/// The outside work the host must perform next in a given phase.
#[derive(Clone, Copy, Debug, PartialEq, Eq, Structural)]
pub enum HostAction {
    OpenModule,
    ResolveIdentity,
    ResolveConstructor,
    Construct,
    RunPlugin,
    DestroyInstance,
    UnloadModule,
    Report(LoadError),
    Done,
}

/// The transition relation: how a phase advances on an event. Failures at
/// any probe move to `Failed` with the error `open` reports; an event that
/// does not belong to the phase changes nothing.
pub open spec fn step_spec(phase: LoadPhase, event: LoadEvent) -> LoadPhase {
    match (phase, event) {
        (LoadPhase::Unopened, LoadEvent::OpenSucceeded) => LoadPhase::Mapped,
        (LoadPhase::Unopened, LoadEvent::OpenFailed) => LoadPhase::Failed(LoadError::Open),
        (LoadPhase::Mapped, LoadEvent::IdentityFound) => LoadPhase::Opened,
        (LoadPhase::Mapped, LoadEvent::IdentityMissing) => LoadPhase::Failed(
            LoadError::MissingSymbol(ExportName::Identity),
        ),
        (LoadPhase::Opened, LoadEvent::ConstructorFound) => LoadPhase::Ready,
        (LoadPhase::Opened, LoadEvent::ConstructorMissing) => LoadPhase::Failed(
            LoadError::MissingSymbol(ExportName::Constructor),
        ),
        (LoadPhase::Ready, LoadEvent::Constructed) => LoadPhase::Constructed,
        (LoadPhase::Constructed, LoadEvent::CloseRequested) => LoadPhase::Closing,
        (LoadPhase::Closing, LoadEvent::InstanceDestroyed) => LoadPhase::Unloading,
        (LoadPhase::Unloading, LoadEvent::ModuleUnloaded) => LoadPhase::Closed,
        _ => phase,
    }
}

/// Advance the machine by one observed event.
pub fn step(phase: LoadPhase, event: LoadEvent) -> (r: LoadPhase)
    ensures
        r == step_spec(phase, event),
{
    match (phase, event) {
        (LoadPhase::Unopened, LoadEvent::OpenSucceeded) => LoadPhase::Mapped,
        (LoadPhase::Unopened, LoadEvent::OpenFailed) => LoadPhase::Failed(LoadError::Open),
        (LoadPhase::Mapped, LoadEvent::IdentityFound) => LoadPhase::Opened,
        (LoadPhase::Mapped, LoadEvent::IdentityMissing) => LoadPhase::Failed(
            LoadError::MissingSymbol(ExportName::Identity),
        ),
        (LoadPhase::Opened, LoadEvent::ConstructorFound) => LoadPhase::Ready,
        (LoadPhase::Opened, LoadEvent::ConstructorMissing) => LoadPhase::Failed(
            LoadError::MissingSymbol(ExportName::Constructor),
        ),
        (LoadPhase::Ready, LoadEvent::Constructed) => LoadPhase::Constructed,
        (LoadPhase::Constructed, LoadEvent::CloseRequested) => LoadPhase::Closing,
        (LoadPhase::Closing, LoadEvent::InstanceDestroyed) => LoadPhase::Unloading,
        (LoadPhase::Unloading, LoadEvent::ModuleUnloaded) => LoadPhase::Closed,
        (phase, _) => phase,
    }
}

/// What the host does in each phase. Teardown mirrors `teardown_plan`: the
/// instance is destroyed in `Closing`, the module unloaded only afterwards,
/// in `Unloading`.
pub open spec fn action_spec(phase: LoadPhase) -> HostAction {
    match phase {
        LoadPhase::Unopened => HostAction::OpenModule,
        LoadPhase::Mapped => HostAction::ResolveIdentity,
        LoadPhase::Opened => HostAction::ResolveConstructor,
        LoadPhase::Ready => HostAction::Construct,
        LoadPhase::Constructed => HostAction::RunPlugin,
        LoadPhase::Closing => HostAction::DestroyInstance,
        LoadPhase::Unloading => HostAction::UnloadModule,
        LoadPhase::Closed => HostAction::Done,
        LoadPhase::Failed(e) => HostAction::Report(e),
    }
}

/// The outside work the host must perform next.
pub fn next_action(phase: &LoadPhase) -> (r: HostAction)
    ensures
        r == action_spec(*phase),
{
    match phase {
        LoadPhase::Unopened => HostAction::OpenModule,
        LoadPhase::Mapped => HostAction::ResolveIdentity,
        LoadPhase::Opened => HostAction::ResolveConstructor,
        LoadPhase::Ready => HostAction::Construct,
        LoadPhase::Constructed => HostAction::RunPlugin,
        LoadPhase::Closing => HostAction::DestroyInstance,
        LoadPhase::Unloading => HostAction::UnloadModule,
        LoadPhase::Closed => HostAction::Done,
        LoadPhase::Failed(e) => HostAction::Report(*e),
    }
}

/// The phase a fresh module is in before anything happened.
pub fn initial_phase() -> (r: LoadPhase)
    ensures
        r == LoadPhase::Unopened,
{
    LoadPhase::Unopened
}

/// The machine after a whole history of events, starting unopened.
pub open spec fn run_spec(events: Seq<LoadEvent>) -> LoadPhase
    decreases events.len(),
{
    if events.len() == 0 {
        LoadPhase::Unopened
    } else {
        step_spec(run_spec(events.drop_last()), events.last())
    }
}

/// The identity record has been resolved in this phase.
pub open spec fn identity_resolved(phase: LoadPhase) -> bool {
    match phase {
        LoadPhase::Unopened | LoadPhase::Mapped | LoadPhase::Failed(_) => false,
        _ => true,
    }
}

/// Identity before constructor: the host is asked to resolve the
/// constructor only in a phase where the identity record has already been
/// resolved.
pub proof fn lemma_identity_before_constructor(phase: LoadPhase)
    requires
        action_spec(phase) == HostAction::ResolveConstructor,
    ensures
        phase == LoadPhase::Opened,
        identity_resolved(phase),
{
}

/// A module whose identity export was never found never gets past identity
/// resolution, whatever else happened: constructor resolution and
/// construction are never requested.
pub proof fn lemma_no_constructor_without_identity(events: Seq<LoadEvent>)
    requires
        forall|i: int| 0 <= i < events.len() ==> events[i] != LoadEvent::IdentityFound,
    ensures
        !identity_resolved(run_spec(events)),
        action_spec(run_spec(events)) != HostAction::ResolveConstructor,
        action_spec(run_spec(events)) != HostAction::Construct,
    decreases events.len(),
{
    if events.len() > 0 {
        lemma_no_constructor_without_identity(events.drop_last());
    }
}

/// Destruction strictly precedes unloading, on the machine's path too: as
/// long as the plugin instance has not been destroyed, the host is never
/// asked to unload the module.
pub proof fn lemma_no_unload_without_destroy(events: Seq<LoadEvent>)
    requires
        forall|i: int| 0 <= i < events.len() ==> events[i] != LoadEvent::InstanceDestroyed,
    ensures
        !(run_spec(events) is Unloading),
        !(run_spec(events) is Closed),
        action_spec(run_spec(events)) != HostAction::UnloadModule,
    decreases events.len(),
{
    if events.len() > 0 {
        lemma_no_unload_without_destroy(events.drop_last());
    }
}

#[verifier::external_type_specification]
#[verifier::external_body]
pub struct ExLibrary(libloading::Library);

/// Relies on libloading's `Library::close`: unloads the module, reporting an
/// OS-level unload failure as an error value rather than a panic. The
/// returned text, if any, is the warning to log.
#[verifier::external_body]
fn close_module(module: libloading::Library) -> (warning: Option<String>) {
    match module.close() {
        Ok(()) => None,
        Err(e) => Some(format!("Failed to close library: {e}")),
    }
}

impl<P: Plugin> PluginInstance<libloading::Library, P> {
    /// Whole-handle teardown for a module the OS loader mapped: destroys the
    /// plugin instance strictly before the module is unloaded, and attempts
    /// the unload exactly once. An unload failure comes back as a warning
    /// for the caller to log; it never propagates and never aborts.
    pub fn shutdown(self) -> (warning: Option<String>) {
        let mut lib = self.close();
        match lib.take() {
            Some(module) => close_module(module),
            None => None,
        }
    }
}

/// The two steps of tearing one plugin down.
#[derive(Clone, Copy, Debug, PartialEq, Eq, Structural)]
pub enum TeardownStep {
    DestroyInstance,
    UnloadModule,
}

/// The fixed teardown order: destroy the instance first (when one was
/// constructed), unload the module last.
pub open spec fn teardown_plan(constructed: bool) -> Seq<TeardownStep> {
    if constructed {
        seq![TeardownStep::DestroyInstance, TeardownStep::UnloadModule]
    } else {
        seq![TeardownStep::UnloadModule]
    }
}

/// The teardown steps for one module, in the order they must run:
/// `constructed` says whether a plugin instance is live. Load-time partial
/// failure (module mapped, nothing constructed) unloads without a destroy
/// step; a constructed plugin is destroyed strictly before its module is
/// unloaded.
pub fn teardown_steps(constructed: bool) -> (r: Vec<TeardownStep>)
    ensures
        r@ == teardown_plan(constructed),
{
    let mut steps: Vec<TeardownStep> = Vec::new();
    if constructed {
        steps.push(TeardownStep::DestroyInstance);
    }
    steps.push(TeardownStep::UnloadModule);
    proof {
        assert(steps@ =~= teardown_plan(constructed));
    }
    steps
}

/// Teardown always destroys the plugin instance strictly before unloading
/// the module, on every exit path: wherever the plan holds both steps, the
/// destroy step comes first.
pub proof fn lemma_destroy_before_unload(constructed: bool, i: int, j: int)
    requires
        0 <= i < teardown_plan(constructed).len(),
        0 <= j < teardown_plan(constructed).len(),
        teardown_plan(constructed)[i] == TeardownStep::DestroyInstance,
        teardown_plan(constructed)[j] == TeardownStep::UnloadModule,
    ensures
        i < j,
{
}

} // verus!
