use vstd::prelude::*;
use crate::bytes::u32_at;
use crate::error::ObsError;
use crate::hook_info::{
    spec_texture_location, texture_location, SharedTextureData, HOOK_INFO_SIZE, SHARED_TEXTURE_DATA_SIZE,
};
use crate::inject::{injection_outcome, injector_arguments, injector_args, outcome_of, InjectHelperError};
use crate::loader::{output_offsets, parse_graphic_offsets, GraphicOffsetsError};
use crate::names::{
    exit_event_name, hook_info_name, init_event_name, keepalive_name, per_process_name, pipe_name,
    ready_event_name, restart_event_name, stop_event_name, texture_mapping_name, texture_name,
};
use crate::offsets::GraphicOffsets;

verus! {

/// An OS or GPU resource a capture holds between calls.
#[derive(Debug, Clone, Copy, PartialEq, Eq, Structural)]
pub enum Resource {
    KeepAliveMutex,
    Pipe,
    RestartEvent,
    StopEvent,
    InitEvent,
    ReadyEvent,
    ExitEvent,
    Device,
    DeviceContext,
    SharedResource,
    FrameSurface,
}

/// What a capture is asked to do; fixed once it is made.
pub struct CaptureConfig {
    pub window_name: String,
    pub frames: u32,
    pub capture_overlays: bool,
}

impl CaptureConfig {
    /// The configuration for the window with this title.
    pub fn new(window_name: &str, capture_overlays: bool) -> (r: CaptureConfig)
        ensures
            r.window_name@ == window_name@,
            r.frames == 0,
            r.capture_overlays == capture_overlays,
    {
        CaptureConfig { window_name: String::from_str(window_name), frames: 0, capture_overlays }
    }
}

/// What a capture has found and which resources it holds.
#[derive(Clone, Copy, Debug, PartialEq, Eq, Structural)]
pub struct Context {
    pub hwnd: usize,
    pub pid: u32,
    pub thread_id: u32,
    pub texture_handle: u32,
    pub keepalive_mutex: bool,
    pub pipe: bool,
    pub hook_restart: bool,
    pub hook_stop: bool,
    pub hook_init: bool,
    pub hook_ready: bool,
    pub hook_exit: bool,
    pub device: bool,
    pub device_context: bool,
    pub resource: bool,
    pub frame_surface: bool,
}

impl Context {
    /// Whether the resource is held.
    pub open spec fn holds(&self, r: Resource) -> bool {
        match r {
            Resource::KeepAliveMutex => self.keepalive_mutex,
            Resource::Pipe => self.pipe,
            Resource::RestartEvent => self.hook_restart,
            Resource::StopEvent => self.hook_stop,
            Resource::InitEvent => self.hook_init,
            Resource::ReadyEvent => self.hook_ready,
            Resource::ExitEvent => self.hook_exit,
            Resource::Device => self.device,
            Resource::DeviceContext => self.device_context,
            Resource::SharedResource => self.resource,
            Resource::FrameSurface => self.frame_surface,
        }
    }

    /// The resources held.
    pub open spec fn held(&self) -> Set<Resource> {
        Set::new(|r: Resource| self.holds(r))
    }

    /// Whether the resource is held.
    pub fn is_held(&self, r: Resource) -> (b: bool)
        ensures
            b == self.holds(r),
    {
        match r {
            Resource::KeepAliveMutex => self.keepalive_mutex,
            Resource::Pipe => self.pipe,
            Resource::RestartEvent => self.hook_restart,
            Resource::StopEvent => self.hook_stop,
            Resource::InitEvent => self.hook_init,
            Resource::ReadyEvent => self.hook_ready,
            Resource::ExitEvent => self.hook_exit,
            Resource::Device => self.device,
            Resource::DeviceContext => self.device_context,
            Resource::SharedResource => self.resource,
            Resource::FrameSurface => self.frame_surface,
        }
    }

    /// The context of a capture that has found nothing and holds nothing.
    pub fn empty() -> (r: Context)
        ensures
            r.hwnd == 0 && r.pid == 0 && r.thread_id == 0 && r.texture_handle == 0,
            r.held() == Set::<Resource>::empty(),
            !r.frame_surface,
    {
        let r = Context {
            hwnd: 0,
            pid: 0,
            thread_id: 0,
            texture_handle: 0,
            keepalive_mutex: false,
            pipe: false,
            hook_restart: false,
            hook_stop: false,
            hook_init: false,
            hook_ready: false,
            hook_exit: false,
            device: false,
            device_context: false,
            resource: false,
            frame_surface: false,
        };
        proof {
            assert(r.held() =~= Set::<Resource>::empty());
        }
        r
    }
}


/// Where the launch sequence stands: the step whose outcome it waits for.
#[derive(Debug, Clone, Copy, PartialEq, Eq, Structural)]
pub enum Stage {
    /// Not launching: never launched, or the last launch failed.
    Dormant,
    Locating,
    CreatingKeepAlive,
    CreatingPipe,
    ProbingHook,
    Injecting,
    OpeningHookInfo,
    LoadingOffsets,
    PublishingHookInfo,
    OpeningEvent(Resource),
    SignallingInit,
    ReadingHookInfo,
    ReadingTexture,
    CreatingDevice,
    OpeningResource,
    /// Launched: frames can be acquired.
    Ready,
}

/// What the environment reports after doing the requested step.
#[derive(Debug)]
pub enum LaunchOutcome {
    /// Start (or restart) the launch sequence.
    Begin,
    /// The window handle, process id and thread id, if the window was found.
    Window(Option<(usize, u32, u32)>),
    /// Whether the requested mutex, pipe, event, device or resource was made.
    Created(bool),
    /// `None` if the event does not exist; else whether signalling it worked.
    EventSignalled(Option<bool>),
    /// The injector's exit code, or why it could not be run.
    InjectorRan(Result<Option<i32>, InjectHelperError>),
    /// Whether the control-block mapping opened; else the OS error code.
    MappingOpened(Result<(), u32>),
    /// The offset-discovery program's output, or why it could not be had.
    OffsetsOutput(Result<String, GraphicOffsetsError>),
    /// The client fields were written into the control block.
    Written,
    /// The bytes of the requested mapping; else the OS error code. Bytes
    /// fewer than the block's layout count as a mapping that could not be
    /// opened, with code 0.
    Block(Result<Vec<u8>, u32>),
}

/// The next step of the launch sequence, for the environment to perform.
#[derive(Debug)]
pub enum LaunchAction {
    /// Find the top-level window with this exact title.
    FindWindow(String),
    /// Create (or open) the named keep-alive mutex and keep it.
    CreateMutex(String),
    /// Create the named diagnostics pipe and start reading it.
    CreatePipe(String),
    /// Open the named restart event; if it exists, signal it.
    SignalExistingHook(String),
    /// Run the injector with these arguments.
    Inject(Vec<String>),
    /// Open the named control-block mapping and keep it for the next steps.
    OpenHookInfo(String),
    /// Run the offset-discovery program and report its output.
    LoadOffsets,
    /// Write the client fields into the open control block.
    WriteHookInfo(GraphicOffsets, bool),
    /// Open the named event and keep it as this resource.
    OpenEvent(Resource, String),
    /// Open the named initialize event and signal it.
    SignalInit(String),
    /// Open the named control-block mapping and report its bytes.
    ReadHookInfo(String),
    /// Open the named texture mapping and report its bytes.
    ReadTexture(String),
    /// Create the GPU device and its context, and keep them.
    CreateDevice,
    /// Open the shared texture with this handle, and keep it.
    OpenSharedResource(u32),
    /// The sequence is over, with this result.
    Finished(Result<(), ObsError>),
}

/// The event opened after `r`, in the order restart, stop, initialize,
/// ready, exit.
pub open spec fn next_event(r: Resource) -> Option<Resource> {
    match r {
        Resource::RestartEvent => Some(Resource::StopEvent),
        Resource::StopEvent => Some(Resource::InitEvent),
        Resource::InitEvent => Some(Resource::ReadyEvent),
        Resource::ReadyEvent => Some(Resource::ExitEvent),
        _ => None,
    }
}

/// The name prefix of an event.
pub open spec fn event_prefix(r: Resource) -> Seq<char> {
    match r {
        Resource::RestartEvent => "CaptureHook_Restart"@,
        Resource::StopEvent => "CaptureHook_Stop"@,
        Resource::InitEvent => "CaptureHook_Initialize"@,
        Resource::ReadyEvent => "CaptureHook_HookReady"@,
        _ => "CaptureHook_Exit"@,
    }
}

/// Whether `r` is one of the five coordination events.
pub open spec fn is_event(r: Resource) -> bool {
    r is RestartEvent || r is StopEvent || r is InitEvent || r is ReadyEvent || r is ExitEvent
}

/// Whether the outcome answers the step the stage waits for.
pub open spec fn answers(stage: Stage, o: LaunchOutcome) -> bool {
    match o {
        LaunchOutcome::Begin => true,
        LaunchOutcome::Window(_) => stage is Locating,
        LaunchOutcome::Created(_) => stage is CreatingKeepAlive || stage is CreatingPipe
            || (stage matches Stage::OpeningEvent(r) && is_event(r)) || stage is CreatingDevice
            || stage is OpeningResource,
        LaunchOutcome::EventSignalled(_) => stage is ProbingHook || stage is SignallingInit,
        LaunchOutcome::InjectorRan(_) => stage is Injecting,
        LaunchOutcome::MappingOpened(_) => stage is OpeningHookInfo,
        LaunchOutcome::OffsetsOutput(_) => stage is LoadingOffsets,
        LaunchOutcome::Written => stage is PublishingHookInfo,
        LaunchOutcome::Block(_) => stage is ReadingHookInfo || stage is ReadingTexture,
    }
}

/// The first thing to acquire once the window is located: the keep-alive
/// mutex, then the pipe, each only if not held yet; then the hook probe.
pub open spec fn acquisition_stage(ctx: Context) -> Stage {
    if !ctx.keepalive_mutex {
        Stage::CreatingKeepAlive
    } else if !ctx.pipe {
        Stage::CreatingPipe
    } else {
        Stage::ProbingHook
    }
}

/// The context after an outcome.
pub open spec fn context_after(stage: Stage, ctx: Context, o: LaunchOutcome) -> Context {
    match o {
        LaunchOutcome::Window(Some((hwnd, pid, thread_id))) => Context { hwnd, pid, thread_id, ..ctx },
        LaunchOutcome::Created(true) => match stage {
            Stage::CreatingKeepAlive => Context { keepalive_mutex: true, ..ctx },
            Stage::CreatingPipe => Context { pipe: true, ..ctx },
            Stage::OpeningEvent(Resource::RestartEvent) => Context { hook_restart: true, ..ctx },
            Stage::OpeningEvent(Resource::StopEvent) => Context { hook_stop: true, ..ctx },
            Stage::OpeningEvent(Resource::InitEvent) => Context { hook_init: true, ..ctx },
            Stage::OpeningEvent(Resource::ReadyEvent) => Context { hook_ready: true, ..ctx },
            Stage::OpeningEvent(Resource::ExitEvent) => Context { hook_exit: true, ..ctx },
            Stage::CreatingDevice => Context { device: true, device_context: true, ..ctx },
            Stage::OpeningResource => Context { resource: true, ..ctx },
            _ => ctx,
        },
        LaunchOutcome::Block(Ok(b)) => if stage is ReadingTexture && b@.len() >= SHARED_TEXTURE_DATA_SIZE {
            Context { texture_handle: u32_at(b@, 0), ..ctx }
        } else {
            ctx
        },
        _ => ctx,
    }
}

/// The stage after an outcome; `Dormant` when the outcome is a failure.
pub open spec fn next_stage(stage: Stage, ctx: Context, o: LaunchOutcome) -> Stage {
    match o {
        LaunchOutcome::Begin => Stage::Locating,
        LaunchOutcome::Window(Some(_)) => acquisition_stage(ctx),
        LaunchOutcome::Window(None) => Stage::Dormant,
        LaunchOutcome::Created(ok) => if !ok {
            Stage::Dormant
        } else {
            match stage {
                Stage::CreatingKeepAlive => if ctx.pipe { Stage::ProbingHook } else { Stage::CreatingPipe },
                Stage::CreatingPipe => Stage::ProbingHook,
                Stage::OpeningEvent(r) => match next_event(r) {
                    Some(n) => Stage::OpeningEvent(n),
                    None => Stage::SignallingInit,
                },
                Stage::CreatingDevice => Stage::OpeningResource,
                _ => Stage::Ready,
            }
        },
        LaunchOutcome::EventSignalled(present) => if stage is ProbingHook {
            if present is Some { Stage::OpeningHookInfo } else { Stage::Injecting }
        } else {
            if present is Some { Stage::ReadingHookInfo } else { Stage::Dormant }
        },
        LaunchOutcome::InjectorRan(r) => if r matches Ok(code) && outcome_of(code) is Ok {
            Stage::OpeningHookInfo
        } else {
            Stage::Dormant
        },
        LaunchOutcome::MappingOpened(r) => if r is Ok { Stage::LoadingOffsets } else { Stage::Dormant },
        LaunchOutcome::OffsetsOutput(r) => if r matches Ok(text) && output_offsets(text@) is Some {
            Stage::PublishingHookInfo
        } else {
            Stage::Dormant
        },
        LaunchOutcome::Written => Stage::OpeningEvent(Resource::RestartEvent),
        LaunchOutcome::Block(r) => if stage is ReadingHookInfo {
            if r matches Ok(b) && b@.len() >= HOOK_INFO_SIZE { Stage::ReadingTexture } else { Stage::Dormant }
        } else {
            if r matches Ok(b) && b@.len() >= SHARED_TEXTURE_DATA_SIZE { Stage::CreatingDevice } else { Stage::Dormant }
        },
    }
}

/// The error a failing outcome is reported as.
pub open spec fn fails_with(stage: Stage, o: LaunchOutcome, e: ObsError) -> bool {
    match o {
        LaunchOutcome::Window(_) => e is ProcessNotFound,
        LaunchOutcome::Created(_) => match stage {
            Stage::CreatingKeepAlive => e is CreateMutex,
            Stage::CreatingPipe => e is CreatePipe,
            Stage::OpeningEvent(_) => e is CreateEvent,
            Stage::CreatingDevice => e is CreateDevice,
            _ => e is OpenSharedResource,
        },
        LaunchOutcome::EventSignalled(_) => e is CreateEvent,
        LaunchOutcome::InjectorRan(Err(x)) => e == ObsError::Inject(x),
        LaunchOutcome::InjectorRan(Ok(code)) => outcome_of(code) matches Err(s)
            && e == ObsError::Inject(InjectHelperError::InjectError(s)),
        LaunchOutcome::MappingOpened(r) => r matches Err(c) && e == ObsError::CreateFileMapping(c),
        LaunchOutcome::OffsetsOutput(Err(x)) => e == ObsError::LoadGraphicOffsets(x),
        LaunchOutcome::OffsetsOutput(Ok(_)) => e matches ObsError::LoadGraphicOffsets(
            GraphicOffsetsError::ParseOutput(_),
        ),
        LaunchOutcome::Block(Err(c)) => e == ObsError::CreateFileMapping(c),
        LaunchOutcome::Block(Ok(_)) => e == ObsError::CreateFileMapping(0),
        _ => false,
    }
}

/// Whether `a` is the request the stage makes.
pub open spec fn requested(a: LaunchAction, stage: Stage, ctx: Context, config: CaptureConfig, o: LaunchOutcome) -> bool {
    match stage {
        Stage::Locating => a matches LaunchAction::FindWindow(t) && t@ == config.window_name@,
        Stage::CreatingKeepAlive => a matches LaunchAction::CreateMutex(n)
            && n@ == per_process_name("CaptureHook_KeepAlive"@, ctx.pid),
        Stage::CreatingPipe => a matches LaunchAction::CreatePipe(n)
            && n@ == per_process_name("CaptureHook_Pipe"@, ctx.pid),
        Stage::ProbingHook => a matches LaunchAction::SignalExistingHook(n)
            && n@ == per_process_name("CaptureHook_Restart"@, ctx.pid),
        Stage::Injecting => a matches LaunchAction::Inject(args) && args@.len() == 3
            && forall|i: int| 0 <= i < 3 ==> #[trigger] args@[i]@ == injector_args(ctx.thread_id, true)[i],
        Stage::OpeningHookInfo => a matches LaunchAction::OpenHookInfo(n)
            && n@ == per_process_name("CaptureHook_HookInfo"@, ctx.pid),
        Stage::LoadingOffsets => a is LoadOffsets,
        Stage::PublishingHookInfo => match (a, o) {
            (LaunchAction::WriteHookInfo(g, overlay), LaunchOutcome::OffsetsOutput(Ok(text))) => {
                &&& overlay == config.capture_overlays
                &&& output_offsets(text@) matches Some(p)
                &&& g.d3d8 == p.d3d8 && g.d3d9 == p.d3d9 && g.dxgi == p.dxgi && g.ddraw.is_zero()
            },
            _ => false,
        },
        Stage::OpeningEvent(r) => a matches LaunchAction::OpenEvent(r2, n) && r2 == r
            && n@ == per_process_name(event_prefix(r), ctx.pid),
        Stage::SignallingInit => a matches LaunchAction::SignalInit(n)
            && n@ == per_process_name("CaptureHook_Initialize"@, ctx.pid),
        Stage::ReadingHookInfo => a matches LaunchAction::ReadHookInfo(n)
            && n@ == per_process_name("CaptureHook_HookInfo"@, ctx.pid),
        Stage::ReadingTexture => match (a, o) {
            (LaunchAction::ReadTexture(n), LaunchOutcome::Block(Ok(b))) =>
                n@ == texture_name(spec_texture_location(b@).0, spec_texture_location(b@).1),
            _ => false,
        },
        Stage::CreatingDevice => a is CreateDevice,
        Stage::OpeningResource => a matches LaunchAction::OpenSharedResource(h) && h == ctx.texture_handle,
        Stage::Ready => a matches LaunchAction::Finished(r) && r is Ok,
        Stage::Dormant => a matches LaunchAction::Finished(r) && r is Err,
    }
}


/// One step of the launch sequence: from capture `c` and outcome `o` to
/// capture `d` and action `a`. Only the context, per `context_after`, and
/// the stage, per `next_stage`, change; a failure is reported as
/// `fails_with` says; otherwise `a` is what the new stage requests.
pub open spec fn launch_post(c: Capture, d: Capture, o: LaunchOutcome, a: LaunchAction) -> bool {
    &&& d.config == c.config
    &&& d.frame_stage == c.frame_stage
    &&& d.maps == c.maps
    &&& d.unmaps == c.unmaps
    &&& d.context == context_after(c.stage, c.context, o)
    &&& d.stage == next_stage(c.stage, c.context, o)
    &&& d.stage is Dormant ==> (a matches LaunchAction::Finished(Err(e)) && fails_with(c.stage, o, e))
    &&& requested(a, d.stage, d.context, c.config, o)
}

/// Where an acquisition of a frame stands.
#[derive(Debug, Clone, Copy, PartialEq, Eq, Structural)]
pub enum FrameStage {
    Idle,
    CheckingRestart,
    Relaunching,
    Unmapping,
    Mapping,
}

/// A capture: its configuration, what it found and holds, and where its
/// launch sequence and frame acquisition stand. `maps` and `unmaps` count
/// the staging surfaces mapped and unmapped so far.
pub struct Capture {
    pub config: CaptureConfig,
    pub context: Context,
    pub stage: Stage,
    pub frame_stage: FrameStage,
    pub maps: Ghost<nat>,
    pub unmaps: Ghost<nat>,
}

/// The name of a coordination event of a process.
fn event_name(r: Resource, pid: u32) -> (n: String)
    requires
        is_event(r),
    ensures
        n@ == per_process_name(event_prefix(r), pid),
{
    match r {
        Resource::RestartEvent => restart_event_name(pid),
        Resource::StopEvent => stop_event_name(pid),
        Resource::InitEvent => init_event_name(pid),
        Resource::ReadyEvent => ready_event_name(pid),
        _ => exit_event_name(pid),
    }
}

impl Capture {
    /// Every staging surface mapped has been unmapped, but for the one held;
    /// one is held while it is being unmapped, and none while a new one is
    /// being mapped.
    pub open spec fn wf(&self) -> bool {
        &&& self.maps@ == self.unmaps@ + if self.context.frame_surface { 1nat } else { 0nat }
        &&& self.frame_stage is Mapping ==> !self.context.frame_surface
        &&& self.frame_stage is Unmapping ==> self.context.frame_surface
    }

    /// A dormant capture of the window with this title, not capturing
    /// overlays: it has found nothing and holds nothing.
    pub fn new(window_name: &str) -> (r: Capture)
        ensures
            r.wf(),
            r.config.window_name@ == window_name@,
            r.config.frames == 0,
            !r.config.capture_overlays,
            r.context.held() == Set::<Resource>::empty(),
            r.stage is Dormant,
            r.frame_stage is Idle,
            r.maps@ == 0 && r.unmaps@ == 0,
    {
        Capture::with_config(CaptureConfig::new(window_name, false))
    }

    /// A dormant capture with this configuration: it has found nothing and
    /// holds nothing.
    pub fn with_config(config: CaptureConfig) -> (r: Capture)
        ensures
            r.wf(),
            r.config == config,
            r.context.held() == Set::<Resource>::empty(),
            r.stage is Dormant,
            r.frame_stage is Idle,
            r.maps@ == 0 && r.unmaps@ == 0,
    {
        Capture {
            config,
            context: Context::empty(),
            stage: Stage::Dormant,
            frame_stage: FrameStage::Idle,
            maps: Ghost(0),
            unmaps: Ghost(0),
        }
    }

    fn fail(&mut self, e: ObsError) -> (a: LaunchAction)
        ensures
            final(self).stage is Dormant,
            final(self).context == old(self).context,
            final(self).config == old(self).config,
            final(self).frame_stage == old(self).frame_stage,
            final(self).maps == old(self).maps,
            final(self).unmaps == old(self).unmaps,
            a == LaunchAction::Finished(Err(e)),
    {
        self.stage = Stage::Dormant;
        LaunchAction::Finished(Err(e))
    }

    fn acquire_next(&mut self) -> (a: LaunchAction)
        ensures
            final(self).stage == acquisition_stage(old(self).context),
            final(self).context == old(self).context,
            final(self).config == old(self).config,
            final(self).frame_stage == old(self).frame_stage,
            final(self).maps == old(self).maps,
            final(self).unmaps == old(self).unmaps,
            forall|o: LaunchOutcome| #[trigger] requested(a, final(self).stage, final(self).context, final(self).config, o),
    {
        if !self.context.keepalive_mutex {
            self.stage = Stage::CreatingKeepAlive;
            LaunchAction::CreateMutex(keepalive_name(self.context.pid))
        } else if !self.context.pipe {
            self.stage = Stage::CreatingPipe;
            LaunchAction::CreatePipe(pipe_name(self.context.pid))
        } else {
            self.stage = Stage::ProbingHook;
            LaunchAction::SignalExistingHook(restart_event_name(self.context.pid))
        }
    }

    /// Decides the next step of the launch sequence from the outcome of the
    /// step before. The sequence locates the window; holds the keep-alive
    /// mutex and the pipe; reuses a present hook or injects one; publishes
    /// the offsets into the control block; opens the five events; signals
    /// initialisation; reads the texture handle; and brings up the GPU. Any
    /// failure ends it; what was acquired stays held until teardown.
    pub fn launch_step(&mut self, outcome: LaunchOutcome) -> (a: LaunchAction)
        requires
            old(self).wf(),
            answers(old(self).stage, outcome),
        ensures
            final(self).wf(),
            launch_post(*old(self), *final(self), outcome, a),
    {
        match outcome {
            LaunchOutcome::Begin => {
                self.stage = Stage::Locating;
                LaunchAction::FindWindow(self.config.window_name.clone())
            },
            LaunchOutcome::Window(found) => self.on_window(found),
            LaunchOutcome::Created(ok) => self.on_created(ok),
            LaunchOutcome::EventSignalled(present) => self.on_event_signalled(present),
            LaunchOutcome::InjectorRan(ran) => self.on_injector(ran),
            LaunchOutcome::MappingOpened(opened) => match opened {
                Ok(()) => {
                    self.stage = Stage::LoadingOffsets;
                    LaunchAction::LoadOffsets
                },
                Err(code) => self.fail(ObsError::CreateFileMapping(code)),
            },
            LaunchOutcome::OffsetsOutput(output) => self.on_offsets(output),
            LaunchOutcome::Written => {
                self.stage = Stage::OpeningEvent(Resource::RestartEvent);
                LaunchAction::OpenEvent(Resource::RestartEvent, restart_event_name(self.context.pid))
            },
            LaunchOutcome::Block(block) => self.on_block(block),
        }
    }

    fn on_window(&mut self, found: Option<(usize, u32, u32)>) -> (a: LaunchAction)
        requires
            old(self).wf(),
            old(self).stage is Locating,
        ensures
            launch_post(*old(self), *final(self), LaunchOutcome::Window(found), a),
    {
        match found {
            Some((hwnd, pid, thread_id)) => {
                self.context.hwnd = hwnd;
                self.context.pid = pid;
                self.context.thread_id = thread_id;
                let a = self.acquire_next();
                assert(requested(a, self.stage, self.context, self.config, LaunchOutcome::Window(found)));
                a
            },
            None => self.fail(ObsError::ProcessNotFound),
        }
    }

    #[verifier::rlimit(60)]
    fn on_created(&mut self, ok: bool) -> (a: LaunchAction)
        requires
            old(self).wf(),
            answers(old(self).stage, LaunchOutcome::Created(ok)),
        ensures
            launch_post(*old(self), *final(self), LaunchOutcome::Created(ok), a),
    {
        let ghost o = LaunchOutcome::Created(ok);
        if !ok {
            let e = match self.stage {
                Stage::CreatingKeepAlive => ObsError::CreateMutex,
                Stage::CreatingPipe => ObsError::CreatePipe,
                Stage::OpeningEvent(_) => ObsError::CreateEvent,
                Stage::CreatingDevice => ObsError::CreateDevice,
                _ => ObsError::OpenSharedResource,
            };
            return self.fail(e);
        }
        match self.stage {
            Stage::CreatingKeepAlive => {
                self.context.keepalive_mutex = true;
                let a = self.acquire_next();
                assert(requested(a, self.stage, self.context, self.config, o));
                a
            },
            Stage::CreatingPipe => {
                self.context.pipe = true;
                self.stage = Stage::ProbingHook;
                LaunchAction::SignalExistingHook(restart_event_name(self.context.pid))
            },
            Stage::OpeningEvent(r) => self.on_event_opened(r),
            Stage::CreatingDevice => {
                self.context.device = true;
                self.context.device_context = true;
                self.stage = Stage::OpeningResource;
                LaunchAction::OpenSharedResource(self.context.texture_handle)
            },
            _ => {
                self.context.resource = true;
                self.stage = Stage::Ready;
                LaunchAction::Finished(Ok(()))
            },
        }
    }

    #[verifier::rlimit(60)]
    fn on_event_opened(&mut self, r: Resource) -> (a: LaunchAction)
        requires
            old(self).wf(),
            old(self).stage == Stage::OpeningEvent(r),
            is_event(r),
        ensures
            launch_post(*old(self), *final(self), LaunchOutcome::Created(true), a),
    {
        match r {
            Resource::RestartEvent => self.context.hook_restart = true,
            Resource::StopEvent => self.context.hook_stop = true,
            Resource::InitEvent => self.context.hook_init = true,
            Resource::ReadyEvent => self.context.hook_ready = true,
            _ => self.context.hook_exit = true,
        }
        let next = match r {
            Resource::RestartEvent => Some(Resource::StopEvent),
            Resource::StopEvent => Some(Resource::InitEvent),
            Resource::InitEvent => Some(Resource::ReadyEvent),
            Resource::ReadyEvent => Some(Resource::ExitEvent),
            _ => None,
        };
        match next {
            Some(n) => {
                self.stage = Stage::OpeningEvent(n);
                LaunchAction::OpenEvent(n, event_name(n, self.context.pid))
            },
            None => {
                self.stage = Stage::SignallingInit;
                LaunchAction::SignalInit(init_event_name(self.context.pid))
            },
        }
    }

    fn on_event_signalled(&mut self, present: Option<bool>) -> (a: LaunchAction)
        requires
            old(self).wf(),
            answers(old(self).stage, LaunchOutcome::EventSignalled(present)),
        ensures
            launch_post(*old(self), *final(self), LaunchOutcome::EventSignalled(present), a),
    {
        if let Stage::ProbingHook = self.stage {
            if present.is_some() {
                self.stage = Stage::OpeningHookInfo;
                LaunchAction::OpenHookInfo(hook_info_name(self.context.pid))
            } else {
                self.stage = Stage::Injecting;
                LaunchAction::Inject(injector_arguments(self.context.thread_id, true))
            }
        } else if present.is_some() {
            self.stage = Stage::ReadingHookInfo;
            LaunchAction::ReadHookInfo(hook_info_name(self.context.pid))
        } else {
            self.fail(ObsError::CreateEvent)
        }
    }

    fn on_injector(&mut self, ran: Result<Option<i32>, InjectHelperError>) -> (a: LaunchAction)
        requires
            old(self).wf(),
            old(self).stage is Injecting,
        ensures
            launch_post(*old(self), *final(self), LaunchOutcome::InjectorRan(ran), a),
    {
        match ran {
            Ok(code) => match injection_outcome(code) {
                Ok(()) => {
                    self.stage = Stage::OpeningHookInfo;
                    LaunchAction::OpenHookInfo(hook_info_name(self.context.pid))
                },
                Err(e) => self.fail(ObsError::Inject(e)),
            },
            Err(e) => self.fail(ObsError::Inject(e)),
        }
    }

    fn on_offsets(&mut self, output: Result<String, GraphicOffsetsError>) -> (a: LaunchAction)
        requires
            old(self).wf(),
            old(self).stage is LoadingOffsets,
        ensures
            launch_post(*old(self), *final(self), LaunchOutcome::OffsetsOutput(output), a),
    {
        match output {
            Ok(text) => match parse_graphic_offsets(text.as_str()) {
                Ok(g) => {
                    self.stage = Stage::PublishingHookInfo;
                    LaunchAction::WriteHookInfo(g, self.config.capture_overlays)
                },
                Err(e) => self.fail(ObsError::LoadGraphicOffsets(e)),
            },
            Err(e) => self.fail(ObsError::LoadGraphicOffsets(e)),
        }
    }

    fn on_block(&mut self, block: Result<Vec<u8>, u32>) -> (a: LaunchAction)
        requires
            old(self).wf(),
            old(self).stage is ReadingHookInfo || old(self).stage is ReadingTexture,
        ensures
            launch_post(*old(self), *final(self), LaunchOutcome::Block(block), a),
    {
        match block {
            Ok(b) => {
                if let Stage::ReadingHookInfo = self.stage {
                    if b.len() >= HOOK_INFO_SIZE {
                        let (window, map_id) = texture_location(b.as_slice());
                        self.stage = Stage::ReadingTexture;
                        LaunchAction::ReadTexture(texture_mapping_name(window, map_id))
                    } else {
                        self.fail(ObsError::CreateFileMapping(0))
                    }
                } else if b.len() >= SHARED_TEXTURE_DATA_SIZE {
                    let data = SharedTextureData::from_bytes(b.as_slice());
                    self.context.texture_handle = data.tex_handle;
                    self.stage = Stage::CreatingDevice;
                    LaunchAction::CreateDevice
                } else {
                    self.fail(ObsError::CreateFileMapping(0))
                }
            },
            Err(code) => self.fail(ObsError::CreateFileMapping(code)),
        }
    }
}


/// What the environment reports during a frame acquisition.
#[derive(Debug)]
pub enum FrameOutcome {
    /// Start acquiring a frame.
    Begin,
    /// Whether the restart event is signalled.
    RestartEvent(bool),
    /// The result of running the launch sequence again.
    Relaunched(Result<(), ObsError>),
    /// The staging surface of the previous frame was unmapped and released.
    Unmapped,
    /// The row pitch in bytes, width and height of the newly mapped staging
    /// surface; or why it could not be made or mapped.
    Mapped(Result<(usize, usize, usize), ObsError>),
}

/// The next step of a frame acquisition.
#[derive(Debug)]
pub enum FrameAction {
    /// Report whether the restart event is signalled.
    CheckRestart,
    /// Run the launch sequence again, then report its result.
    Relaunch,
    /// Unmap and release the staging surface of the previous frame.
    UnmapSurface,
    /// Copy the shared texture to a new staging surface, map it and keep it.
    MapFrame,
    /// The frame is mapped with this row pitch in bytes, width and height.
    Frame(usize, usize, usize),
    /// The acquisition failed.
    Failed(ObsError),
}

/// Whether the outcome answers the step the frame stage waits for.
pub open spec fn frame_answers(stage: FrameStage, o: FrameOutcome) -> bool {
    match o {
        FrameOutcome::Begin => true,
        FrameOutcome::RestartEvent(_) => stage is CheckingRestart,
        FrameOutcome::Relaunched(_) => stage is Relaunching,
        FrameOutcome::Unmapped => stage is Unmapping,
        FrameOutcome::Mapped(_) => stage is Mapping,
    }
}

/// Moving on to mapping a frame: the previous staging surface, if held, is
/// unmapped first.
pub open spec fn goes_to_map(c: Capture, d: Capture, a: FrameAction) -> bool {
    &&& d.context == c.context
    &&& d.maps == c.maps
    &&& d.unmaps == c.unmaps
    &&& if c.context.frame_surface {
        d.frame_stage is Unmapping && a is UnmapSurface
    } else {
        d.frame_stage is Mapping && a is MapFrame
    }
}

/// One step of a frame acquisition: from capture `c` and outcome `o` to
/// capture `d` and action `a`. A missing or signalled restart event makes
/// the capture launch again before it maps; the surface of the previous
/// frame is unmapped before a new one is mapped.
pub open spec fn frame_post(c: Capture, d: Capture, o: FrameOutcome, a: FrameAction) -> bool {
    &&& d.config == c.config
    &&& d.stage == c.stage
    &&& match o {
        FrameOutcome::Begin => {
            &&& d.context == c.context && d.maps == c.maps && d.unmaps == c.unmaps
            &&& if c.context.hook_restart {
                d.frame_stage is CheckingRestart && a is CheckRestart
            } else {
                d.frame_stage is Relaunching && a is Relaunch
            }
        },
        FrameOutcome::RestartEvent(signalled) => if signalled {
            &&& d.context == c.context && d.maps == c.maps && d.unmaps == c.unmaps
            &&& d.frame_stage is Relaunching && a is Relaunch
        } else {
            goes_to_map(c, d, a)
        },
        FrameOutcome::Relaunched(Ok(())) => goes_to_map(c, d, a),
        FrameOutcome::Relaunched(Err(e)) => {
            &&& d.context == c.context && d.maps == c.maps && d.unmaps == c.unmaps
            &&& d.frame_stage is Idle && a == FrameAction::Failed(e)
        },
        FrameOutcome::Unmapped => {
            &&& d.context == Context { frame_surface: false, ..c.context }
            &&& d.maps == c.maps && d.unmaps@ == c.unmaps@ + 1
            &&& d.frame_stage is Mapping && a is MapFrame
        },
        FrameOutcome::Mapped(Ok((pitch, width, height))) => {
            &&& d.context == Context { frame_surface: true, ..c.context }
            &&& d.maps@ == c.maps@ + 1 && d.unmaps == c.unmaps
            &&& d.frame_stage is Idle && a == FrameAction::Frame(pitch, width, height)
        },
        FrameOutcome::Mapped(Err(e)) => {
            &&& d.context == c.context && d.maps == c.maps && d.unmaps == c.unmaps
            &&& d.frame_stage is Idle && a == FrameAction::Failed(e)
        },
    }
}

/// The order in which a capture releases what it holds: the staging surface
/// first, then the rest in the order it was acquired.
pub open spec fn release_order() -> Seq<Resource> {
    seq![
        Resource::FrameSurface,
        Resource::KeepAliveMutex,
        Resource::Pipe,
        Resource::RestartEvent,
        Resource::StopEvent,
        Resource::InitEvent,
        Resource::ReadyEvent,
        Resource::ExitEvent,
        Resource::Device,
        Resource::DeviceContext,
        Resource::SharedResource,
    ]
}

proof fn lemma_push_contains(s: Seq<Resource>, x: Resource, y: Resource)
    ensures
        s.push(x).contains(y) <==> (s.contains(y) || y == x),
{
    if s.push(x).contains(y) && y != x {
        let j = choose|j: int| 0 <= j < s.push(x).len() && s.push(x)[j] == y;
        assert(s[j] == y);
    }
    if y == x {
        assert(s.push(x)[s.len() as int] == x);
    }
    if s.contains(y) {
        let j = choose|j: int| 0 <= j < s.len() && s[j] == y;
        assert(s.push(x)[j] == y);
    }
}

fn all_resources() -> (r: Vec<Resource>)
    ensures
        r@ == release_order(),
{
    let r = vec![
        Resource::FrameSurface,
        Resource::KeepAliveMutex,
        Resource::Pipe,
        Resource::RestartEvent,
        Resource::StopEvent,
        Resource::InitEvent,
        Resource::ReadyEvent,
        Resource::ExitEvent,
        Resource::Device,
        Resource::DeviceContext,
        Resource::SharedResource,
    ];
    proof {
        assert(r@ =~= release_order());
    }
    r
}

impl Capture {
    fn to_map(&mut self) -> (a: FrameAction)
        requires
            old(self).wf(),
        ensures
            final(self).wf(),
            final(self).config == old(self).config,
            final(self).stage == old(self).stage,
            goes_to_map(*old(self), *final(self), a),
    {
        if self.context.frame_surface {
            self.frame_stage = FrameStage::Unmapping;
            FrameAction::UnmapSurface
        } else {
            self.frame_stage = FrameStage::Mapping;
            FrameAction::MapFrame
        }
    }

    /// Decides the next step of a frame acquisition from the outcome of the
    /// step before.
    pub fn frame_step(&mut self, outcome: FrameOutcome) -> (a: FrameAction)
        requires
            old(self).wf(),
            frame_answers(old(self).frame_stage, outcome),
        ensures
            final(self).wf(),
            frame_post(*old(self), *final(self), outcome, a),
    {
        match outcome {
            FrameOutcome::Begin => if self.context.hook_restart {
                self.frame_stage = FrameStage::CheckingRestart;
                FrameAction::CheckRestart
            } else {
                self.frame_stage = FrameStage::Relaunching;
                FrameAction::Relaunch
            },
            FrameOutcome::RestartEvent(signalled) => if signalled {
                self.frame_stage = FrameStage::Relaunching;
                FrameAction::Relaunch
            } else {
                self.to_map()
            },
            FrameOutcome::Relaunched(result) => match result {
                Ok(()) => self.to_map(),
                Err(e) => {
                    self.frame_stage = FrameStage::Idle;
                    FrameAction::Failed(e)
                },
            },
            FrameOutcome::Unmapped => {
                self.context.frame_surface = false;
                self.unmaps = Ghost(self.unmaps@ + 1);
                self.frame_stage = FrameStage::Mapping;
                FrameAction::MapFrame
            },
            FrameOutcome::Mapped(mapped) => match mapped {
                Ok((pitch, width, height)) => {
                    self.context.frame_surface = true;
                    self.maps = Ghost(self.maps@ + 1);
                    self.frame_stage = FrameStage::Idle;
                    FrameAction::Frame(pitch, width, height)
                },
                Err(e) => {
                    self.frame_stage = FrameStage::Idle;
                    FrameAction::Failed(e)
                },
            },
        }
    }

    /// Releases everything the capture holds. Returns what to release, in
    /// order: each held resource once, the staging surface first. Afterwards
    /// nothing is held, and every surface mapped has been unmapped once.
    pub fn teardown(&mut self) -> (r: Vec<Resource>)
        requires
            old(self).wf(),
        ensures
            final(self).wf(),
            forall|x: Resource| r@.contains(x) <==> old(self).context.holds(x),
            r@.no_duplicates(),
            old(self).context.frame_surface ==> r@[0] == Resource::FrameSurface,
            final(self).context.held() == Set::<Resource>::empty(),
            final(self).unmaps@ == old(self).unmaps@ + if old(self).context.frame_surface { 1nat } else { 0nat },
            final(self).maps == old(self).maps,
            final(self).maps@ == final(self).unmaps@,
            final(self).config == old(self).config,
            final(self).stage is Dormant,
            final(self).frame_stage is Idle,
    {
        let all = all_resources();
        let ctx = self.context;
        let mut r: Vec<Resource> = Vec::new();
        let mut i: usize = 0;
        while i < all.len()
            invariant
                all@ == release_order(),
                i <= all@.len(),
                r@.no_duplicates(),
                forall|x: Resource| r@.contains(x) <==> (ctx.holds(x) && all@.subrange(0, i as int).contains(x)),
                ctx.frame_surface && i > 0 ==> r@.len() > 0 && r@[0] == Resource::FrameSurface,
                i == 0 ==> r@.len() == 0,
            decreases all@.len() - i,
        {
            let x = all[i];
            proof {
                assert(all@.subrange(0, i + 1) =~= all@.subrange(0, i as int).push(x));
                assert(!all@.subrange(0, i as int).contains(x));
            }
            let ghost before = r@;
            let held = ctx.is_held(x);
            if held {
                r.push(x);
                proof {
                    assert(!before.contains(x));
                    assert(r@ == before.push(x));
                    assert forall|j: int, k: int| 0 <= j < k < r@.len() implies r@[j] != r@[k] by {
                        if k == r@.len() - 1 {
                            assert(before.contains(r@[j]));
                        }
                    }
                    if before.len() == 0 {
                        assert(r@[0] == x);
                    } else {
                        assert(r@[0] == before[0]);
                    }
                }
            }
            proof {
                if i == 0 {
                    assert(x == Resource::FrameSurface);
                }
                assert forall|y: Resource| #[trigger] r@.contains(y) <==> (ctx.holds(y) && all@.subrange(0, i + 1).contains(y)) by {
                    if held {
                        lemma_push_contains(before, x, y);
                    }
                    lemma_push_contains(all@.subrange(0, i as int), x, y);
                    assert(before.contains(y) <==> (ctx.holds(y) && all@.subrange(0, i as int).contains(y)));
                }
            }
            i = i + 1;
        }
        proof {
            assert(all@.subrange(0, i as int) =~= all@);
            assert forall|x: Resource| all@.contains(x) by {
                match x {
                    Resource::FrameSurface => assert(all@[0] == x),
                    Resource::KeepAliveMutex => assert(all@[1] == x),
                    Resource::Pipe => assert(all@[2] == x),
                    Resource::RestartEvent => assert(all@[3] == x),
                    Resource::StopEvent => assert(all@[4] == x),
                    Resource::InitEvent => assert(all@[5] == x),
                    Resource::ReadyEvent => assert(all@[6] == x),
                    Resource::ExitEvent => assert(all@[7] == x),
                    Resource::Device => assert(all@[8] == x),
                    Resource::DeviceContext => assert(all@[9] == x),
                    Resource::SharedResource => assert(all@[10] == x),
                }
            }
        }
        if self.context.frame_surface {
            self.unmaps = Ghost(self.unmaps@ + 1);
        }
        let Context { hwnd, pid, thread_id, texture_handle, .. } = self.context;
        self.context = Context {
            hwnd,
            pid,
            thread_id,
            texture_handle,
            keepalive_mutex: false,
            pipe: false,
            hook_restart: false,
            hook_stop: false,
            hook_init: false,
            hook_ready: false,
            hook_exit: false,
            device: false,
            device_context: false,
            resource: false,
            frame_surface: false,
        };
        proof {
            assert(self.context.held() =~= Set::<Resource>::empty());
        }
        self.stage = Stage::Dormant;
        self.frame_stage = FrameStage::Idle;
        r
    }
}

} // verus!
