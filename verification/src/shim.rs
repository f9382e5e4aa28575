//! The protocols of the runtime, session by session: what to call next, and
//! what each reply leads to.
//!
//! Every protocol starts with a function that returns a `Step`: either the
//! result, or a call together with the state that takes the reply. The state's
//! `resume` returns the next `Step`. A reply that is not what the pending
//! call returns counts as a failure of that call.
//!
//! A call that blocks, as the one that ends a frame may do until the
//! display is refreshed, blocks whoever performs it. Nothing here sets a
//! time limit, cancels a call, or tries one again.

#![allow(non_snake_case)]

use crate::ffi;
use crate::ffi::dynamic_lib::{LibraryName, Platform, PointerWidth, UnsafeDynamicLibrary};
use crate::ffi::table::{FunctionTable, NativeCall, NativeReply, Step, Symbol, TableLoading};
use crate::Eye;
use crate::OculusError;
use std::rc::Rc;
use vstd::prelude::*;

verus! {

/// A condition after which the process cannot go on: the runtime's state no
/// longer matches what this layer assumes of it. Never an `OculusError`.
#[derive(Clone, Copy, Debug, PartialEq, Eq, Structural)]
pub enum Fatal {
    /// The context flag was already clear when a context was shut down.
    ContextFlagClear,
    /// The runtime refused to undo the rendering configuration.
    RenderingNotReversed,
}

/// The process-wide mark that a runtime context is active. There is one per
/// process, and every operation on it is one indivisible step for whoever
/// holds it exclusively.
#[derive(Debug, PartialEq, Eq)]
pub struct ContextFlag {
    active: bool,
}

impl ContextFlag {
    /// Whether the flag is set.
    pub closed spec fn view(self) -> bool {
        self.active
    }

    /// The flag of a process in which no context has been created.
    pub fn new() -> (flag: ContextFlag)
        ensures
            !flag@,
    {
        ContextFlag { active: false }
    }

    pub fn is_active(&self) -> (active: bool)
        ensures
            active == self@,
    {
        self.active
    }

    /// Sets the flag to `new` if it holds `current`, and returns what it held.
    pub fn compare_and_swap(&mut self, current: bool, new: bool) -> (previous: bool)
        ensures
            previous == old(self)@,
            final(self)@ == if old(self)@ == current {
                new
            } else {
                old(self)@
            },
    {
        let previous = self.active;
        if previous == current {
            self.active = new;
        }
        previous
    }

    /// Sets the flag to `new` and returns what it held.
    pub fn swap(&mut self, new: bool) -> (previous: bool)
        ensures
            previous == old(self)@,
            final(self)@ == new,
    {
        let previous = self.active;
        self.active = new;
        previous
    }
}

pub const PRODUCT_VERSION: &'static str = "0";

pub const MAJOR_VERSION: &'static str = "5";

/// The runtime library this layer is written against, for a platform and a
/// pointer width.
pub fn load_ovr(platform: Platform, width: PointerWidth) -> (library: LibraryName)
    ensures
        library == (LibraryName {
            platform,
            width,
            product: PRODUCT_VERSION,
            major: MAJOR_VERSION,
        }),
{
    LibraryName { platform, width, product: PRODUCT_VERSION, major: MAJOR_VERSION }
}

/// An initialized runtime: the function table of the loaded library. While
/// one exists, the context flag is set.
#[derive(Debug, PartialEq, Eq)]
pub struct Context {
    pub function_table: FunctionTable,
}

/// Where the creation of a context stands.
#[derive(Debug, PartialEq, Eq)]
pub enum Startup {
    /// The library is being loaded.
    Loading,
    /// The entry points are being resolved.
    Resolving(TableLoading),
    /// The runtime is being initialized.
    Initializing(FunctionTable),
    /// The creation has failed and the library is being unloaded.
    Unloading(OculusError),
}

/// Where the shutdown of a context stands.
#[derive(Debug, PartialEq, Eq)]
pub enum Teardown {
    /// The runtime is being shut down, through the function table, which
    /// goes next together with its library.
    ShuttingDown { function_table: FunctionTable },
    /// The function table is gone and its library is being unloaded.
    Unloading { outcome: Result<(), Fatal> },
}

impl Context {
    pub open spec fn new_spec(active: bool, library: LibraryName) -> Step<
        Startup,
        Result<Context, OculusError>,
    > {
        if active {
            Step::Done(Err(OculusError::DuplicateContext))
        } else {
            Step::Call(NativeCall::LoadLibrary { library: Some(library) }, Startup::Loading)
        }
    }

    /// Starts the creation of the process's runtime context.
    ///
    /// If the flag is set, a context is active: the creation fails with
    /// `DuplicateContext` and nothing is touched. Otherwise the flag is set
    /// at once, so that no second creation can start, and the library is to
    /// be loaded.
    pub fn new(flag: &mut ContextFlag, library: LibraryName) -> (step: Step<
        Startup,
        Result<Context, OculusError>,
    >)
        ensures
            step == Context::new_spec(old(flag)@, library),
            final(flag)@,
    {
        let was_active = flag.compare_and_swap(false, true);
        if was_active {
            Step::Done(Err(OculusError::DuplicateContext))
        } else {
            Step::Call(NativeCall::LoadLibrary { library: Some(library) }, Startup::Loading)
        }
    }

    pub fn invoker(&self) -> (table: &FunctionTable)
        ensures
            *table == self.function_table,
    {
        &self.function_table
    }

    pub open spec fn shutdown_spec(self) -> Step<Teardown, Result<(), Fatal>> {
        Step::Call(
            NativeCall::Shutdown,
            Teardown::ShuttingDown { function_table: self.function_table },
        )
    }

    /// Starts the shutdown of the context: the runtime is shut down first.
    /// The context is consumed; its function table lives on until that call
    /// has returned.
    pub fn shutdown(self) -> (step: Step<Teardown, Result<(), Fatal>>)
        ensures
            step == self.shutdown_spec(),
    {
        Step::Call(
            NativeCall::Shutdown,
            Teardown::ShuttingDown { function_table: self.function_table },
        )
    }

    /// Gives up one reference to the context. The holder of the last one
    /// starts the shutdown; for any other there is nothing to do.
    pub fn release(this: Rc<Context>) -> (step: Step<Teardown, Result<(), Fatal>>)
        ensures
            step == this.shutdown_spec() || step == Step::<
                Teardown,
                Result<(), Fatal>,
            >::Done(Ok(())),
    {
        match Rc::try_unwrap(this) {
            Ok(context) => context.shutdown(),
            Err(_) => Step::Done(Ok(())),
        }
    }
}

impl Startup {
    /// What follows the reply to the pending call.
    ///
    /// - Loading: a handle starts the resolution of the entry points; the
    ///   loader's error ends the creation with `RuntimeNotFound`.
    /// - Resolving: as the table's construction goes. A complete table leads
    ///   to the runtime's initialization with default parameters; a failure
    ///   leads to unloading the library.
    /// - Initializing: a successful status ends the creation with the
    ///   context; anything else leads to unloading the library, to fail with
    ///   `SdkError`.
    /// - Unloading: the creation ends with the error that led here.
    pub open spec fn resume_spec(self, reply: NativeReply) -> Step<
        Startup,
        Result<Context, OculusError>,
    > {
        match self {
            Startup::Loading => match reply {
                NativeReply::Loaded(Ok(handle)) => Startup::resolving(
                    FunctionTable::load_spec(UnsafeDynamicLibrary { handle }),
                ),
                NativeReply::Loaded(Err(text)) => Step::Done(
                    Err(OculusError::RuntimeNotFound(text)),
                ),
                _ => Step::Done(Err(OculusError::SdkError("LoadLibrary"))),
            },
            Startup::Resolving(loading) => Startup::resolving(loading.resume_spec(reply)),
            Startup::Initializing(table) => if reply matches NativeReply::Status(status)
                && status > 0 {
                Step::Done(Ok(Context { function_table: table }))
            } else {
                Step::Call(
                    NativeCall::UnloadLibrary { library: table.lib.handle },
                    Startup::Unloading(OculusError::SdkError(Symbol::Initialize.name_spec())),
                )
            },
            Startup::Unloading(error) => Step::Done(Err(error)),
        }
    }

    /// The step of a creation whose table construction stands at `step`.
    pub open spec fn resolving(
        step: Step<TableLoading, Result<FunctionTable, ffi::table::LoadFailure>>,
    ) -> Step<Startup, Result<Context, OculusError>> {
        match step {
            Step::Call(call, loading) => Step::Call(call, Startup::Resolving(loading)),
            Step::Done(Ok(table)) => Step::Call(
                NativeCall::Initialize { params: ffi::ovrInitParams::unset() },
                Startup::Initializing(table),
            ),
            Step::Done(Err((error, lib))) => Step::Call(
                NativeCall::UnloadLibrary { library: lib.handle },
                Startup::Unloading(error),
            ),
        }
    }

    fn after_table(
        step: Step<TableLoading, Result<FunctionTable, ffi::table::LoadFailure>>,
    ) -> (next: Step<Startup, Result<Context, OculusError>>)
        ensures
            next == Startup::resolving(step),
    {
        match step {
            Step::Call(call, loading) => Step::Call(call, Startup::Resolving(loading)),
            Step::Done(Ok(table)) => {
                let params: ffi::ovrInitParams = Default::default();
                Step::Call(NativeCall::Initialize { params }, Startup::Initializing(table))
            },
            Step::Done(Err((error, lib))) => Step::Call(
                NativeCall::UnloadLibrary { library: lib.handle },
                Startup::Unloading(error),
            ),
        }
    }

    /// Takes the reply to the pending call. When the creation ends in an
    /// error the flag is cleared; in every other case it is left as it is.
    pub fn resume(self, flag: &mut ContextFlag, reply: NativeReply) -> (step: Step<
        Startup,
        Result<Context, OculusError>,
    >)
        ensures
            step == self.resume_spec(reply),
            final(flag)@ == (old(flag)@ && !(step matches Step::Done(Err(_)))),
    {
        let step = match self {
            Startup::Loading => match reply {
                NativeReply::Loaded(Ok(handle)) => Startup::after_table(
                    FunctionTable::load(UnsafeDynamicLibrary { handle }),
                ),
                NativeReply::Loaded(Err(text)) => Step::Done(
                    Err(OculusError::RuntimeNotFound(text)),
                ),
                _ => Step::Done(Err(OculusError::SdkError("LoadLibrary"))),
            },
            Startup::Resolving(loading) => Startup::after_table(loading.resume(reply)),
            Startup::Initializing(table) => {
                let initialized = match reply {
                    NativeReply::Status(status) => ffi::ovrSuccess(status),
                    _ => false,
                };
                if initialized {
                    Step::Done(Ok(Context { function_table: table }))
                } else {
                    Step::Call(
                        NativeCall::UnloadLibrary { library: table.lib.handle },
                        Startup::Unloading(OculusError::SdkError(Symbol::Initialize.name())),
                    )
                }
            },
            Startup::Unloading(error) => Step::Done(Err(error)),
        };
        match &step {
            Step::Done(Err(_)) => {
                flag.swap(false);
            },
            _ => {},
        }
        step
    }
}

impl Startup {
    /// The function table the pending call goes through: there is one once
    /// every entry point is resolved.
    pub fn invoker(&self) -> (table: Option<&FunctionTable>)
        ensures
            table == match *self {
                Startup::Initializing(function_table) => Some(&function_table),
                _ => None,
            },
    {
        match self {
            Startup::Initializing(function_table) => Some(function_table),
            _ => None,
        }
    }
}

impl Teardown {
    /// What follows the reply to the pending call, given whether the flag
    /// was set when the runtime had been shut down.
    ///
    /// After the runtime's shutdown the function table is given up and its
    /// library is unloaded, in every case. The shutdown ends in
    /// `ContextFlagClear` if the flag was found clear.
    pub open spec fn resume_spec(self, was_active: bool) -> Step<Teardown, Result<(), Fatal>> {
        match self {
            Teardown::ShuttingDown { function_table } => Step::Call(
                NativeCall::UnloadLibrary { library: function_table.lib.handle },
                Teardown::Unloading {
                    outcome: if was_active {
                        Ok(())
                    } else {
                        Err(Fatal::ContextFlagClear)
                    },
                },
            ),
            Teardown::Unloading { outcome } => Step::Done(outcome),
        }
    }

    /// Takes the reply to the pending call; neither call returns anything,
    /// so whatever `reply` holds is ignored. Once the runtime is shut down
    /// the flag is cleared, in one step with reading it.
    pub fn resume(self, flag: &mut ContextFlag, reply: NativeReply) -> (step: Step<
        Teardown,
        Result<(), Fatal>,
    >)
        ensures
            step == self.resume_spec(old(flag)@),
            final(flag)@ == (old(flag)@ && self is Unloading),
    {
        match self {
            Teardown::ShuttingDown { function_table } => {
                let was_active = flag.swap(false);
                let outcome = if was_active {
                    Ok(())
                } else {
                    Err(Fatal::ContextFlagClear)
                };
                Step::Call(function_table.into_library().close(), Teardown::Unloading { outcome })
            },
            Teardown::Unloading { outcome } => Step::Done(outcome),
        }
    }

    /// The function table the pending call goes through, while there is
    /// one.
    pub fn invoker(&self) -> (table: Option<&FunctionTable>)
        ensures
            table == match *self {
                Teardown::ShuttingDown { function_table } => Some(&function_table),
                Teardown::Unloading { .. } => None,
            },
    {
        match self {
            Teardown::ShuttingDown { function_table } => Some(function_table),
            Teardown::Unloading { .. } => None,
        }
    }
}

/// A call that reports a status and nothing else is pending.
#[derive(Clone, Copy, Debug, PartialEq, Eq, Structural)]
pub struct StatusPending {
    pub entry: Symbol,
}

impl StatusPending {
    /// The call went through exactly if the reply is a successful status;
    /// otherwise it failed, and the error names the entry point.
    pub open spec fn resume_spec(self, reply: NativeReply) -> Step<
        StatusPending,
        Result<(), OculusError>,
    > {
        if reply matches NativeReply::Status(status) && status > 0 {
            Step::Done(Ok(()))
        } else {
            Step::Done(Err(OculusError::SdkError(self.entry.name_spec())))
        }
    }

    pub fn resume(self, reply: NativeReply) -> (step: Step<StatusPending, Result<(), OculusError>>)
        ensures
            step == self.resume_spec(reply),
    {
        let went_through = match reply {
            NativeReply::Status(status) => ffi::ovrSuccess(status),
            _ => false,
        };
        if went_through {
            Step::Done(Ok(()))
        } else {
            Step::Done(Err(OculusError::SdkError(self.entry.name())))
        }
    }
}

/// How a windowing system may know the display of a headset.
#[derive(Clone, Debug, PartialEq, Eq)]
pub enum HmdDisplayId {
    /// A number, on platforms that number their displays.
    Numeric(u32),
    /// A device name, on platforms that name their displays.
    Name(String),
    /// The platform gives displays no identity that could be compared.
    Unavailable,
}

/// The display of a headset: its identity, and where on the desktop it lies.
#[derive(Clone, Debug, PartialEq, Eq)]
pub struct HmdDisplay {
    pub id: HmdDisplayId,
    pub x: i32,
    pub y: i32,
    pub width: u32,
    pub height: u32,
}

/// An open connection to a headset, real or simulated. It keeps its context
/// alive, and it is the one owner of the runtime's session: `close` consumes
/// it and yields the call that destroys the session.
#[derive(Debug, PartialEq, Eq)]
pub struct Session {
    pub session: ffi::ovrSession,
    /// Offset from the head to each eye, left eye first.
    pub eye_offsets: [ffi::ovrVector3f; 2],
    pub desc: ffi::ovrHmdDesc,
    /// The eyes in the order in which the runtime wants them rendered.
    pub render_order: [Eye; 2],
    pub context: Rc<Context>,
}

/// Where the opening of a session stands.
#[derive(Debug, PartialEq, Eq)]
pub enum SessionOpening {
    /// The presence of a headset is being probed.
    Probing { context: Rc<Context> },
    /// The runtime's session is being created.
    Creating { context: Rc<Context> },
    /// The headset's description is being read.
    Describing { context: Rc<Context>, session: ffi::ovrSession },
    /// The left eye's render description is being read.
    MeasuringLeft {
        context: Rc<Context>,
        session: ffi::ovrSession,
        desc: ffi::ovrHmdDesc,
        render_order: [Eye; 2],
    },
    /// The right eye's render description is being read.
    MeasuringRight {
        context: Rc<Context>,
        session: ffi::ovrSession,
        desc: ffi::ovrHmdDesc,
        render_order: [Eye; 2],
        left_offset: ffi::ovrVector3f,
    },
    /// The opening has failed and the runtime's session is being destroyed.
    Destroying { error: OculusError },
}

/// The eyes in the order the runtime reports, if each entry names an eye.
pub open spec fn render_order_spec(order: [u32; 2]) -> Option<[Eye; 2]> {
    match (Eye::from_index_spec(order[0]), Eye::from_index_spec(order[1])) {
        (Some(first), Some(second)) => Some([first, second]),
        _ => None,
    }
}

pub fn render_order(order: &[u32; 2]) -> (eyes: Option<[Eye; 2]>)
    ensures
        eyes == render_order_spec(*order),
{
    match (Eye::from_index(order[0]), Eye::from_index(order[1])) {
        (Some(first), Some(second)) => Some([first, second]),
        _ => None,
    }
}

impl Session {
    pub open spec fn new_spec(require_headset: bool, owning_context: Rc<Context>) -> Step<
        SessionOpening,
        Result<Session, OculusError>,
    > {
        if require_headset {
            Step::Call(
                NativeCall::Detect { timeout_ms: 0 },
                SessionOpening::Probing { context: owning_context },
            )
        } else {
            Step::Call(NativeCall::Create, SessionOpening::Creating { context: owning_context })
        }
    }

    /// Starts the opening of a session. If a headset is required its
    /// presence is probed first, without waiting; if not, the session is
    /// created at once, and the runtime may back it with a simulated headset.
    pub fn new(require_headset: bool, owning_context: Rc<Context>) -> (step: Step<
        SessionOpening,
        Result<Session, OculusError>,
    >)
        ensures
            step == Session::new_spec(require_headset, owning_context),
    {
        if require_headset {
            Step::Call(
                NativeCall::Detect { timeout_ms: 0 },
                SessionOpening::Probing { context: owning_context },
            )
        } else {
            Step::Call(NativeCall::Create, SessionOpening::Creating { context: owning_context })
        }
    }

    /// The call that makes the current pose the origin of tracking. It
    /// returns nothing and nothing is awaited.
    pub fn recenter_pose(&self) -> (call: NativeCall)
        ensures
            call == (NativeCall::RecenterPose { session: self.session }),
    {
        NativeCall::RecenterPose { session: self.session }
    }

    /// The call that dismisses the health and safety warning.
    pub fn dismiss_hsw(&self) -> (call: NativeCall)
        ensures
            call == (NativeCall::DismissHSWDisplay { session: self.session }),
    {
        NativeCall::DismissHSWDisplay { session: self.session }
    }

    /// The call that enables exactly the given capabilities. The runtime
    /// ignores the bits that the application cannot switch; it returns
    /// nothing and nothing is awaited.
    pub fn set_caps(&self, caps: ffi::ovrHmdCaps) -> (call: NativeCall)
        ensures
            call == (NativeCall::SetEnabledCaps { session: self.session, caps: caps@ }),
    {
        NativeCall::SetEnabledCaps { session: self.session, caps: caps.bits() }
    }

    pub open spec fn configure_tracking_spec(self, caps: u32) -> Step<
        StatusPending,
        Result<(), OculusError>,
    > {
        Step::Call(
            NativeCall::ConfigureTracking { session: self.session, supported: caps, required: 0 },
            StatusPending { entry: Symbol::ConfigureTracking },
        )
    }

    /// Reconfigures tracking with the given capabilities as supported and
    /// none as required. The call is made whatever `caps` holds: with the
    /// empty set it asks the runtime for no tracking at all.
    pub fn configure_tracking(&self, caps: ffi::ovrTrackingCaps) -> (step: Step<
        StatusPending,
        Result<(), OculusError>,
    >)
        ensures
            step == self.configure_tracking_spec(caps@),
    {
        Step::Call(
            NativeCall::ConfigureTracking {
                session: self.session,
                supported: caps.bits(),
                required: ffi::ovrTrackingCaps::empty().bits(),
            },
            StatusPending { entry: Symbol::ConfigureTracking },
        )
    }

    /// The native resolution of the headset, as `(width, height)`.
    pub fn resolution(&self) -> (size: (u32, u32))
        ensures
            size.0 == self.desc.Resolution.w as u32,
            size.1 == self.desc.Resolution.h as u32,
    {
        (
            #[verifier::truncate]
            (self.desc.Resolution.w as u32),
            #[verifier::truncate]
            (self.desc.Resolution.h as u32),
        )
    }

    /// Whether the headset is driven directly rather than as a part of the
    /// desktop: the runtime does not report it as extending the desktop.
    pub open spec fn is_direct_spec(self) -> bool {
        self.desc.HmdCaps & ffi::flags::ovrHmdCap_ExtendDesktop == 0
    }

    pub fn is_direct(&self) -> (direct: bool)
        ensures
            direct == self.is_direct_spec(),
    {
        self.desc.HmdCaps & ffi::flags::ovrHmdCap_ExtendDesktop == 0
    }

    /// Whether the runtime backs the session with a simulated headset.
    pub open spec fn is_debug_spec(self) -> bool {
        self.desc.HmdCaps & ffi::flags::ovrHmdCap_DebugDevice != 0
    }

    pub fn is_debug(&self) -> (debug: bool)
        ensures
            debug == self.is_debug_spec(),
    {
        self.desc.HmdCaps & ffi::flags::ovrHmdCap_DebugDevice != 0
    }

    /// The display of the headset as the platform's windowing system knows
    /// it: by device name on Windows, by number on macOS, and with no
    /// identity on Linux.
    pub fn get_display(&self, platform: Platform) -> (display: HmdDisplay)
        ensures
            display.x == self.desc.WindowsPos.x,
            display.y == self.desc.WindowsPos.y,
            display.width == self.desc.Resolution.w as u32,
            display.height == self.desc.Resolution.h as u32,
            match platform {
                Platform::Windows => display.id matches HmdDisplayId::Name(name) && name@
                    == self.desc.DisplayDeviceName@,
                Platform::MacOs => display.id == HmdDisplayId::Numeric(self.desc.DisplayId as u32),
                Platform::Linux => display.id == HmdDisplayId::Unavailable,
            },
    {
        let id = match platform {
            Platform::Windows => HmdDisplayId::Name(self.desc.DisplayDeviceName.clone()),
            Platform::MacOs => HmdDisplayId::Numeric(
                #[verifier::truncate]
                (self.desc.DisplayId as u32),
            ),
            Platform::Linux => HmdDisplayId::Unavailable,
        };
        let (width, height) = self.resolution();
        HmdDisplay { id, x: self.desc.WindowsPos.x, y: self.desc.WindowsPos.y, width, height }
    }

    /// Ends the session: the call that destroys the runtime's session. The
    /// session is consumed, so the call is handed out once.
    pub fn close(self) -> (call: NativeCall)
        ensures
            call == (NativeCall::Destroy { session: self.session }),
    {
        NativeCall::Destroy { session: self.session }
    }
}

impl SessionOpening {
    /// The error of an opening that has to give up a created session.
    pub open spec fn abandon(session: ffi::ovrSession, entry: Symbol) -> Step<
        SessionOpening,
        Result<Session, OculusError>,
    > {
        Step::Call(
            NativeCall::Destroy { session },
            SessionOpening::Destroying { error: OculusError::SdkError(entry.name_spec()) },
        )
    }

    /// What follows the reply to the pending call.
    ///
    /// - Probing: with a headset connected the session is created; with
    ///   none the opening fails with `NoDeviceFound`, and no session has
    ///   been created.
    /// - Creating: a successful status leads to reading the description;
    ///   anything else fails with `SdkError`.
    /// - Describing, measuring: the description must name two eyes in its
    ///   render order; each eye's offset is read with the eye's default
    ///   field of view, left eye first. A reply that does not fit leads to
    ///   destroying the session, to fail with `SdkError`.
    /// - Destroying: the opening ends with the error that led here.
    pub open spec fn resume_spec(self, reply: NativeReply) -> Step<
        SessionOpening,
        Result<Session, OculusError>,
    > {
        match self {
            SessionOpening::Probing { context } => match reply {
                NativeReply::Detected(found) => if found.IsOculusHMDConnected == ffi::ovrTrue {
                    Step::Call(NativeCall::Create, SessionOpening::Creating { context })
                } else {
                    Step::Done(Err(OculusError::NoDeviceFound))
                },
                _ => Step::Done(Err(OculusError::SdkError(Symbol::Detect.name_spec()))),
            },
            SessionOpening::Creating { context } => match reply {
                NativeReply::Created { status, session, luid } => if status > 0 {
                    Step::Call(
                        NativeCall::GetHmdDesc { session },
                        SessionOpening::Describing { context, session },
                    )
                } else {
                    Step::Done(Err(OculusError::SdkError(Symbol::Create.name_spec())))
                },
                _ => Step::Done(Err(OculusError::SdkError(Symbol::Create.name_spec()))),
            },
            SessionOpening::Describing { context, session } => match reply {
                NativeReply::HmdDesc(desc) => match render_order_spec(desc.EyeRenderOrder) {
                    Some(render_order) => Step::Call(
                        NativeCall::GetRenderDesc { session, eye: 0, fov: desc.DefaultEyeFov[0] },
                        SessionOpening::MeasuringLeft { context, session, desc, render_order },
                    ),
                    None => SessionOpening::abandon(session, Symbol::GetHmdDesc),
                },
                _ => SessionOpening::abandon(session, Symbol::GetHmdDesc),
            },
            SessionOpening::MeasuringLeft { context, session, desc, render_order } => match reply {
                NativeReply::RenderDesc(left) => Step::Call(
                    NativeCall::GetRenderDesc { session, eye: 1, fov: desc.DefaultEyeFov[1] },
                    SessionOpening::MeasuringRight {
                        context,
                        session,
                        desc,
                        render_order,
                        left_offset: left.HmdToEyeViewOffset,
                    },
                ),
                _ => SessionOpening::abandon(session, Symbol::GetRenderDesc),
            },
            SessionOpening::MeasuringRight {
                context,
                session,
                desc,
                render_order,
                left_offset,
            } => match reply {
                NativeReply::RenderDesc(right) => Step::Done(
                    Ok(
                        Session {
                            session,
                            eye_offsets: [left_offset, right.HmdToEyeViewOffset],
                            desc,
                            render_order,
                            context,
                        },
                    ),
                ),
                _ => SessionOpening::abandon(session, Symbol::GetRenderDesc),
            },
            SessionOpening::Destroying { error } => Step::Done(Err(error)),
        }
    }

    fn give_up(session: ffi::ovrSession, entry: Symbol) -> (step: Step<
        SessionOpening,
        Result<Session, OculusError>,
    >)
        ensures
            step == SessionOpening::abandon(session, entry),
    {
        Step::Call(
            NativeCall::Destroy { session },
            SessionOpening::Destroying { error: OculusError::SdkError(entry.name()) },
        )
    }

    pub fn resume(self, reply: NativeReply) -> (step: Step<
        SessionOpening,
        Result<Session, OculusError>,
    >)
        ensures
            step == self.resume_spec(reply),
    {
        match self {
            SessionOpening::Probing { context } => match reply {
                NativeReply::Detected(found) => if found.IsOculusHMDConnected == ffi::ovrTrue {
                    Step::Call(NativeCall::Create, SessionOpening::Creating { context })
                } else {
                    Step::Done(Err(OculusError::NoDeviceFound))
                },
                _ => Step::Done(Err(OculusError::SdkError(Symbol::Detect.name()))),
            },
            SessionOpening::Creating { context } => match reply {
                NativeReply::Created { status, session, luid } => if ffi::ovrFailure(status) {
                    Step::Done(Err(OculusError::SdkError(Symbol::Create.name())))
                } else {
                    Step::Call(
                        NativeCall::GetHmdDesc { session },
                        SessionOpening::Describing { context, session },
                    )
                },
                _ => Step::Done(Err(OculusError::SdkError(Symbol::Create.name()))),
            },
            SessionOpening::Describing { context, session } => match reply {
                NativeReply::HmdDesc(desc) => match render_order(&desc.EyeRenderOrder) {
                    Some(render_order) => {
                        let fov = desc.DefaultEyeFov[0];
                        Step::Call(
                            NativeCall::GetRenderDesc { session, eye: 0, fov },
                            SessionOpening::MeasuringLeft { context, session, desc, render_order },
                        )
                    },
                    None => SessionOpening::give_up(session, Symbol::GetHmdDesc),
                },
                _ => SessionOpening::give_up(session, Symbol::GetHmdDesc),
            },
            SessionOpening::MeasuringLeft { context, session, desc, render_order } => match reply {
                NativeReply::RenderDesc(left) => {
                    let fov = desc.DefaultEyeFov[1];
                    Step::Call(
                        NativeCall::GetRenderDesc { session, eye: 1, fov },
                        SessionOpening::MeasuringRight {
                            context,
                            session,
                            desc,
                            render_order,
                            left_offset: left.HmdToEyeViewOffset,
                        },
                    )
                },
                _ => SessionOpening::give_up(session, Symbol::GetRenderDesc),
            },
            SessionOpening::MeasuringRight {
                context,
                session,
                desc,
                render_order,
                left_offset,
            } => match reply {
                NativeReply::RenderDesc(right) => Step::Done(
                    Ok(
                        Session {
                            session,
                            eye_offsets: [left_offset, right.HmdToEyeViewOffset],
                            desc,
                            render_order,
                            context,
                        },
                    ),
                ),
                _ => SessionOpening::give_up(session, Symbol::GetRenderDesc),
            },
            SessionOpening::Destroying { error } => Step::Done(Err(error)),
        }
    }
}

/// A quaternion. The first element of the tuple is the w value, and the
/// array contains x, y, and z values.
pub type Quaternion = (ffi::FloatBits, [ffi::FloatBits; 3]);

/// A 3-dimensional vector, with (in order) x, y, and z components.
pub type Vector3 = [ffi::FloatBits; 3];

/// A 4x4 matrix, by convention in column-major format.
pub type Matrix4 = [[ffi::FloatBits; 4]; 4];

/// Builds the configuration of the runtime's OpenGL renderer.
pub struct GlConfigBuilder {
    pub config: ffi::ovrGLConfig,
}

impl GlConfigBuilder {
    /// A configuration for OpenGL with the given back buffer size and
    /// sample count, and no window.
    pub fn new(w: u32, h: u32, multisample: i32) -> (builder: GlConfigBuilder)
        ensures
            builder.config == (ffi::ovrGLConfig {
                API: ffi::ovrRenderAPI_OpenGL,
                BackBufferSize: ffi::ovrSizei { w: w as i32, h: h as i32 },
                Multisample: multisample,
                Window: 0,
            }),
    {
        GlConfigBuilder {
            config: ffi::ovrGLConfig {
                API: ffi::ovrRenderAPI_OpenGL,
                BackBufferSize: ffi::ovrSizei {
                    w: #[verifier::truncate]
                    (w as i32),
                    h: #[verifier::truncate]
                    (h as i32),
                },
                Multisample: multisample,
                Window: 0,
            },
        }
    }

    /// Names the window to render to. Only the Windows runtime takes one;
    /// on the other platforms the configuration is left as it is.
    pub fn native_window<'a>(&'a mut self, platform: Platform, native_window: usize) -> (builder:
        &'a mut GlConfigBuilder)
        ensures
            builder.config == (ffi::ovrGLConfig {
                Window: if platform == Platform::Windows {
                    native_window
                } else {
                    old(self).config.Window
                },
                ..old(self).config
            }),
            *final(self) == *final(builder),
    {
        match platform {
            Platform::Windows => {
                self.config.Window = native_window;
            },
            _ => {},
        }
        self
    }

    pub fn build(&self) -> (config: ffi::ovrGLConfig)
        ensures
            config == self.config,
    {
        self.config
    }
}

/// An active rendering configuration of a headset, for OpenGL. It gives the
/// metadata needed to prepare framebuffers, and it opens and closes frames,
/// one at a time. What it was configured with never changes.
#[derive(Debug, PartialEq, Eq)]
pub struct RenderContext<'a> {
    eye_texture_sizes: [ffi::ovrSizei; 2],
    fovs: [ffi::ovrFovPort; 2],
    offsets: [ffi::ovrVector3f; 2],
    owning_hmd: &'a Session,
    frame_open: bool,
}

/// What a `RenderContext` holds.
pub struct RenderContextView<'a> {
    /// Suggested texture size for each eye, left eye first.
    pub eye_texture_sizes: [ffi::ovrSizei; 2],
    /// Field of view the runtime granted to each eye.
    pub fovs: [ffi::ovrFovPort; 2],
    /// Offset from the head to each eye.
    pub offsets: [ffi::ovrVector3f; 2],
    pub owning_hmd: &'a Session,
    /// Whether a frame is open.
    pub frame_open: bool,
}

/// Where the configuration of rendering stands.
#[derive(Debug, PartialEq, Eq)]
pub enum RenderSetup<'a> {
    /// The runtime's renderer is being configured.
    Configuring { owning_hmd: &'a Session, native_window: usize },
    /// The headset's display is being attached to the window.
    Attaching { owning_hmd: &'a Session, eye_render_desc: [ffi::ovrEyeRenderDesc; 2] },
    /// The left eye's texture size is being read.
    SizingLeft { owning_hmd: &'a Session, eye_render_desc: [ffi::ovrEyeRenderDesc; 2] },
    /// The right eye's texture size is being read.
    SizingRight {
        owning_hmd: &'a Session,
        eye_render_desc: [ffi::ovrEyeRenderDesc; 2],
        left: ffi::ovrSizei,
    },
}

/// The call for a projection matrix is pending.
#[derive(Clone, Copy, Debug, PartialEq, Eq, Structural)]
pub struct ProjectionPending;

/// The call that undoes the rendering configuration is pending.
#[derive(Clone, Copy, Debug, PartialEq, Eq, Structural)]
pub struct RenderTeardown;

/// The distortion features every rendering configuration asks for.
pub open spec fn distortion_caps_spec() -> u32 {
    ffi::flags::ovrDistortionCap_TimeWarp | ffi::flags::ovrDistortionCap_Overdrive
}

/// The modifiers every projection matrix is derived with: right-handed,
/// with the clip range of OpenGL.
pub open spec fn projection_flags_spec() -> u32 {
    ffi::flags::ovrProjection_RightHanded | ffi::flags::ovrProjection_ClipRangeOpenGL
}

/// The matrix with rows and columns exchanged.
pub open spec fn transposed(m: Matrix4) -> Matrix4 {
    [
        [m[0][0], m[1][0], m[2][0], m[3][0]],
        [m[0][1], m[1][1], m[2][1], m[3][1]],
        [m[0][2], m[1][2], m[2][2], m[3][2]],
        [m[0][3], m[1][3], m[2][3], m[3][3]],
    ]
}

/// The runtime's row-major matrix in column-major format: entry `(i, j)` of
/// the result is entry `(j, i)` of the argument.
pub fn column_major(matrix: &ffi::ovrMatrix4f) -> (m: Matrix4)
    ensures
        m == transposed(matrix.M),
        forall|i: int, j: int| 0 <= i < 4 && 0 <= j < 4 ==> #[trigger] m[i][j] == matrix.M[j][i],
{
    let pm = &matrix.M;
    [
        [pm[0][0], pm[1][0], pm[2][0], pm[3][0]],
        [pm[0][1], pm[1][1], pm[2][1], pm[3][1]],
        [pm[0][2], pm[1][2], pm[2][2], pm[3][2]],
        [pm[0][3], pm[1][3], pm[2][3], pm[3][3]],
    ]
}

/// Exchanging rows and columns twice gives the matrix back.
pub proof fn lemma_transposed_twice(m: Matrix4)
    ensures
        transposed(transposed(m)) == m,
{
    let t = transposed(transposed(m));
    assert forall|i: int| 0 <= i < 4 implies t[i] == m[i] by {
        assert(t[i] =~= m[i]);
    }
    assert(t =~= m);
}

/// What can be created as the rendering context of a headset.
pub trait CreateRenderContext<'a>: Sized {
    /// Where the creation stands between two calls.
    type Setup;

    /// Starts the creation, for rendering to the given target.
    fn new<T: crate::RenderTarget>(owning_hmd: &'a Session, target: &T, platform: Platform) -> Step<
        Self::Setup,
        Result<Self, OculusError>,
    >;
}

impl<'a> CreateRenderContext<'a> for RenderContext<'a> {
    type Setup = RenderSetup<'a>;

    /// Starts the configuration of rendering for a headset, to the given
    /// target: `configure` with what the target reports of itself.
    fn new<T: crate::RenderTarget>(owning_hmd: &'a Session, target: &T, platform: Platform) -> (step:
        Step<RenderSetup<'a>, Result<RenderContext<'a>, OculusError>>)
        ensures
            exists|multisample: u32, native_window: usize|
                step == RenderContext::configure_spec(
                    owning_hmd,
                    multisample,
                    native_window,
                    platform,
                ),
    {
        let multisample = target.get_multisample();
        let native_window = target.get_native_window();
        RenderContext::configure(owning_hmd, multisample, native_window, platform)
    }
}

impl<'a> RenderContext<'a> {
    pub closed spec fn view(self) -> RenderContextView<'a> {
        RenderContextView {
            eye_texture_sizes: self.eye_texture_sizes,
            fovs: self.fovs,
            offsets: self.offsets,
            owning_hmd: self.owning_hmd,
            frame_open: self.frame_open,
        }
    }

    /// The context that holds exactly this.
    pub closed spec fn holding(view: RenderContextView<'a>) -> RenderContext<'a> {
        RenderContext {
            eye_texture_sizes: view.eye_texture_sizes,
            fovs: view.fovs,
            offsets: view.offsets,
            owning_hmd: view.owning_hmd,
            frame_open: view.frame_open,
        }
    }

    /// A context is what it holds, and nothing else.
    pub proof fn lemma_holding(self, view: RenderContextView<'a>)
        ensures
            RenderContext::holding(view)@ == view,
            RenderContext::holding(self@) == self,
    {
    }

    pub open spec fn configure_spec(
        owning_hmd: &'a Session,
        multisample: u32,
        native_window: usize,
        platform: Platform,
    ) -> Step<RenderSetup<'a>, Result<RenderContext<'a>, OculusError>> {
        Step::Call(
            NativeCall::ConfigureRendering {
                session: owning_hmd.session,
                config: Some(
                    ffi::ovrGLConfig {
                        API: ffi::ovrRenderAPI_OpenGL,
                        BackBufferSize: ffi::ovrSizei {
                            w: (owning_hmd.desc.Resolution.w as u32) as i32,
                            h: (owning_hmd.desc.Resolution.h as u32) as i32,
                        },
                        Multisample: multisample as i32,
                        Window: if platform == Platform::Windows {
                            native_window
                        } else {
                            0
                        },
                    },
                ),
                distortion_caps: distortion_caps_spec(),
                fov: owning_hmd.desc.MaxEyeFov,
            },
            RenderSetup::Configuring { owning_hmd, native_window },
        )
    }

    /// Starts the configuration of rendering for a headset, to a window
    /// with the given sample count and native handle.
    ///
    /// The runtime's renderer is configured for OpenGL, with a back buffer
    /// of the headset's resolution, with time warp and overdrive, and with
    /// the widest field of view the headset has for each eye.
    pub fn configure(
        owning_hmd: &'a Session,
        multisample: u32,
        native_window: usize,
        platform: Platform,
    ) -> (step: Step<RenderSetup<'a>, Result<RenderContext<'a>, OculusError>>)
        ensures
            step == RenderContext::configure_spec(owning_hmd, multisample, native_window, platform),
    {
        let (w, h) = owning_hmd.resolution();
        let mut builder = GlConfigBuilder::new(
            w,
            h,
            #[verifier::truncate]
            (multisample as i32),
        );
        let config = builder.native_window(platform, native_window).build();
        proof {
            ffi::flags::lemma_named_flags_are_defined();
        }
        let mut caps = ffi::ovrDistortionCaps::empty();
        caps.insert(ffi::flags::ovrDistortionCap_TimeWarp);
        caps.insert(ffi::flags::ovrDistortionCap_Overdrive);
        assert(caps@ == distortion_caps_spec()) by {
            let t = ffi::flags::ovrDistortionCap_TimeWarp;
            let o = ffi::flags::ovrDistortionCap_Overdrive;
            assert((0u32 | t) | o == t | o) by (bit_vector);
        }
        Step::Call(
            NativeCall::ConfigureRendering {
                session: owning_hmd.session,
                config: Some(config),
                distortion_caps: caps.bits(),
                fov: owning_hmd.desc.MaxEyeFov,
            },
            RenderSetup::Configuring { owning_hmd, native_window },
        )
    }

    /// The call that dismisses the health and safety warning the runtime
    /// displays. It should only be made in response to user input.
    pub fn dismiss_hsw(&self) -> (call: NativeCall)
        ensures
            call == (NativeCall::DismissHSWDisplay { session: self@.owning_hmd.session }),
    {
        self.owning_hmd.dismiss_hsw()
    }

    /// The call that recenters the headset, using the current orientation
    /// and position as the origin.
    pub fn recenter_pose(&self) -> (call: NativeCall)
        ensures
            call == (NativeCall::RecenterPose { session: self@.owning_hmd.session }),
    {
        self.owning_hmd.recenter_pose()
    }

    /// The suggested size of a render target for the given eye, as
    /// `(width, height)`. It is fixed when rendering is configured.
    pub fn target_texture_size(&self, eye: &Eye) -> (size: (u32, u32))
        ensures
            size.0 == self@.eye_texture_sizes[eye.index_spec()].w as u32,
            size.1 == self@.eye_texture_sizes[eye.index_spec()].h as u32,
    {
        let size = match eye {
            Eye::Left => self.eye_texture_sizes[0],
            Eye::Right => self.eye_texture_sizes[1],
        };
        (
            #[verifier::truncate]
            (size.w as u32),
            #[verifier::truncate]
            (size.h as u32),
        )
    }

    pub open spec fn projection_matrix_spec(
        self,
        eye: Eye,
        near_z: ffi::FloatBits,
        far_z: ffi::FloatBits,
    ) -> Step<ProjectionPending, Result<Matrix4, OculusError>> {
        Step::Call(
            NativeCall::Projection {
                fov: self@.fovs[eye.index_spec()],
                znear: near_z,
                zfar: far_z,
                flags: projection_flags_spec(),
            },
            ProjectionPending,
        )
    }

    /// Asks for the projection matrix of the given eye, for its granted
    /// field of view and the given clip planes. The matrix is right-handed,
    /// with an OpenGL clipping range (-w to w).
    pub fn projection_matrix(&self, eye: &Eye, near_z: ffi::FloatBits, far_z: ffi::FloatBits) -> (step:
        Step<ProjectionPending, Result<Matrix4, OculusError>>)
        ensures
            step == self.projection_matrix_spec(*eye, near_z, far_z),
    {
        let fov = match eye {
            Eye::Left => self.fovs[0],
            Eye::Right => self.fovs[1],
        };
        proof {
            ffi::flags::lemma_named_flags_are_defined();
        }
        let mut flags = ffi::ovrProjectionModifier::empty();
        flags.insert(ffi::flags::ovrProjection_RightHanded);
        flags.insert(ffi::flags::ovrProjection_ClipRangeOpenGL);
        assert(flags@ == projection_flags_spec()) by {
            let r = ffi::flags::ovrProjection_RightHanded;
            let c = ffi::flags::ovrProjection_ClipRangeOpenGL;
            assert((0u32 | r) | c == r | c) by (bit_vector);
        }
        Step::Call(
            NativeCall::Projection { fov, znear: near_z, zfar: far_z, flags: flags.bits() },
            ProjectionPending,
        )
    }

    /// Create a texture binding given a pair of OpenGL texture IDs for the
    /// left and right eye, respectively. The left and right textures should
    /// be of the size suggested by `target_texture_size`.
    pub fn create_binding(&self, tex_id_left: u32, tex_id_right: u32) -> (binding: TextureBinding)
        ensures
            binding == TextureBinding::new_spec(
                (self@.eye_texture_sizes[0], tex_id_left),
                (self@.eye_texture_sizes[1], tex_id_right),
            ),
    {
        TextureBinding::new(
            (self.eye_texture_sizes[0], tex_id_left),
            (self.eye_texture_sizes[1], tex_id_right),
        )
    }

    pub open spec fn end_frame_spec(self, frame: Frame) -> (RenderContext<'a>, Option<NativeCall>) {
        if self@.frame_open {
            (
                RenderContext::holding(RenderContextView { frame_open: false, ..self@ }),
                Some(
                    NativeCall::EndFrame {
                        session: self@.owning_hmd.session,
                        poses: frame.poses,
                        textures: frame.textures.textures,
                    },
                ),
            )
        } else {
            (self, None)
        }
    }

    /// Closes the open frame: the call that hands the frame's poses and
    /// textures to the runtime, which then distorts, composes and presents.
    /// With no frame open there is nothing to close and no call.
    pub fn end_frame(&mut self, frame: Frame) -> (call: Option<NativeCall>)
        ensures
            (*final(self), call) == old(self).end_frame_spec(frame),
            final(self)@ == (RenderContextView { frame_open: false, ..old(self)@ }),
    {
        if self.frame_open {
            self.frame_open = false;
            Some(
                NativeCall::EndFrame {
                    session: self.owning_hmd.session,
                    poses: frame.poses,
                    textures: frame.textures.textures,
                },
            )
        } else {
            None
        }
    }

    pub open spec fn close_spec(self) -> Step<RenderTeardown, Result<(), Fatal>> {
        Step::Call(
            NativeCall::ConfigureRendering {
                session: self@.owning_hmd.session,
                config: None,
                distortion_caps: 0,
                fov: self@.owning_hmd.desc.MaxEyeFov,
            },
            RenderTeardown,
        )
    }

    /// Whether a frame is open.
    pub fn has_open_frame(&self) -> (open: bool)
        ensures
            open == self@.frame_open,
    {
        self.frame_open
    }

    /// The field of view the runtime granted to an eye.
    pub fn fov(&self, eye: &Eye) -> (fov: ffi::ovrFovPort)
        ensures
            fov == self@.fovs[eye.index_spec()],
    {
        match eye {
            Eye::Left => self.fovs[0],
            Eye::Right => self.fovs[1],
        }
    }

    /// The offset from the head to an eye.
    pub fn eye_offset(&self, eye: &Eye) -> (offset: ffi::ovrVector3f)
        ensures
            offset == self@.offsets[eye.index_spec()],
    {
        match eye {
            Eye::Left => self.offsets[0],
            Eye::Right => self.offsets[1],
        }
    }

    /// The session of the headset that is rendered to.
    pub fn session(&self) -> (session: &'a Session)
        ensures
            session == self@.owning_hmd,
    {
        self.owning_hmd
    }

    /// Starts undoing the rendering configuration: the runtime's renderer
    /// is configured with no configuration and no distortion feature.
    pub fn close(self) -> (step: Step<RenderTeardown, Result<(), Fatal>>)
        ensures
            step == self.close_spec(),
    {
        Step::Call(
            NativeCall::ConfigureRendering {
                session: self.owning_hmd.session,
                config: None,
                distortion_caps: ffi::ovrDistortionCaps::empty().bits(),
                fov: self.owning_hmd.desc.MaxEyeFov,
            },
            RenderTeardown,
        )
    }
}

impl<'a> RenderSetup<'a> {
    /// The call for the texture size of an eye: for the widest field of
    /// view of that eye, at one texture pixel per display pixel.
    pub open spec fn size_call(owning_hmd: &'a Session, eye: Eye) -> NativeCall {
        NativeCall::GetFovTextureSize {
            session: owning_hmd.session,
            eye: eye.index_spec() as i32,
            fov: owning_hmd.desc.MaxEyeFov[eye.index_spec()],
            pixels_per_display_pixel: ffi::FLOAT_ONE,
        }
    }

    /// What follows the reply to the pending call.
    ///
    /// - Configuring: on success the display is attached to the window if
    ///   the headset is driven directly, and else the texture sizes are
    ///   read; anything else fails with `SdkError`.
    /// - Attaching: on success the texture sizes are read; anything else
    ///   fails with `SdkError`.
    /// - Sizing: the left eye's size is read before the right eye's. The
    ///   context holds the two sizes, and of each eye the field of view and
    ///   the offset that the runtime gave when it was configured. No frame
    ///   is open in it.
    pub open spec fn resume_spec(self, reply: NativeReply) -> Step<
        RenderSetup<'a>,
        Result<RenderContext<'a>, OculusError>,
    > {
        match self {
            RenderSetup::Configuring { owning_hmd, native_window } => match reply {
                NativeReply::RenderingConfigured { status, eye_render_desc } => if status <= 0 {
                    Step::Done(Err(OculusError::SdkError(Symbol::ConfigureRendering.name_spec())))
                } else if owning_hmd.is_direct_spec() {
                    Step::Call(
                        NativeCall::AttachToWindow {
                            session: owning_hmd.session,
                            window: native_window,
                        },
                        RenderSetup::Attaching { owning_hmd, eye_render_desc },
                    )
                } else {
                    Step::Call(
                        RenderSetup::size_call(owning_hmd, Eye::Left),
                        RenderSetup::SizingLeft { owning_hmd, eye_render_desc },
                    )
                },
                _ => Step::Done(
                    Err(OculusError::SdkError(Symbol::ConfigureRendering.name_spec())),
                ),
            },
            RenderSetup::Attaching { owning_hmd, eye_render_desc } => if reply
                matches NativeReply::Status(status) && status > 0 {
                Step::Call(
                    RenderSetup::size_call(owning_hmd, Eye::Left),
                    RenderSetup::SizingLeft { owning_hmd, eye_render_desc },
                )
            } else {
                Step::Done(Err(OculusError::SdkError(Symbol::AttachToWindow.name_spec())))
            },
            RenderSetup::SizingLeft { owning_hmd, eye_render_desc } => match reply {
                NativeReply::TextureSize(left) => Step::Call(
                    RenderSetup::size_call(owning_hmd, Eye::Right),
                    RenderSetup::SizingRight { owning_hmd, eye_render_desc, left },
                ),
                _ => Step::Done(Err(OculusError::SdkError(Symbol::GetFovTextureSize.name_spec()))),
            },
            RenderSetup::SizingRight { owning_hmd, eye_render_desc, left } => match reply {
                NativeReply::TextureSize(right) => Step::Done(
                    Ok(
                        RenderContext::holding(
                            RenderContextView {
                                eye_texture_sizes: [left, right],
                                fovs: [eye_render_desc[0].Fov, eye_render_desc[1].Fov],
                                offsets: [
                                    eye_render_desc[0].HmdToEyeViewOffset,
                                    eye_render_desc[1].HmdToEyeViewOffset,
                                ],
                                owning_hmd,
                                frame_open: false,
                            },
                        ),
                    ),
                ),
                _ => Step::Done(Err(OculusError::SdkError(Symbol::GetFovTextureSize.name_spec()))),
            },
        }
    }

    fn size_request(owning_hmd: &'a Session, eye: Eye) -> (call: NativeCall)
        ensures
            call == RenderSetup::size_call(owning_hmd, eye),
    {
        match eye {
            Eye::Left => NativeCall::GetFovTextureSize {
                session: owning_hmd.session,
                eye: 0,
                fov: owning_hmd.desc.MaxEyeFov[0],
                pixels_per_display_pixel: ffi::FLOAT_ONE,
            },
            Eye::Right => NativeCall::GetFovTextureSize {
                session: owning_hmd.session,
                eye: 1,
                fov: owning_hmd.desc.MaxEyeFov[1],
                pixels_per_display_pixel: ffi::FLOAT_ONE,
            },
        }
    }

    pub fn resume(self, reply: NativeReply) -> (step: Step<
        RenderSetup<'a>,
        Result<RenderContext<'a>, OculusError>,
    >)
        ensures
            step == self.resume_spec(reply),
            step matches Step::Done(Ok(context)) ==> (self matches RenderSetup::SizingRight {
                owning_hmd,
                eye_render_desc,
                left,
            } && reply matches NativeReply::TextureSize(right) && context@ == (RenderContextView {
                eye_texture_sizes: [left, right],
                fovs: [eye_render_desc[0].Fov, eye_render_desc[1].Fov],
                offsets: [
                    eye_render_desc[0].HmdToEyeViewOffset,
                    eye_render_desc[1].HmdToEyeViewOffset,
                ],
                owning_hmd,
                frame_open: false,
            })),
    {
        match self {
            RenderSetup::Configuring { owning_hmd, native_window } => match reply {
                NativeReply::RenderingConfigured { status, eye_render_desc } => {
                    if ffi::ovrFailure(status) {
                        Step::Done(Err(OculusError::SdkError(Symbol::ConfigureRendering.name())))
                    } else if owning_hmd.is_direct() {
                        Step::Call(
                            NativeCall::AttachToWindow {
                                session: owning_hmd.session,
                                window: native_window,
                            },
                            RenderSetup::Attaching { owning_hmd, eye_render_desc },
                        )
                    } else {
                        Step::Call(
                            RenderSetup::size_request(owning_hmd, Eye::Left),
                            RenderSetup::SizingLeft { owning_hmd, eye_render_desc },
                        )
                    }
                },
                _ => Step::Done(Err(OculusError::SdkError(Symbol::ConfigureRendering.name()))),
            },
            RenderSetup::Attaching { owning_hmd, eye_render_desc } => {
                let attached = match reply {
                    NativeReply::Status(status) => ffi::ovrSuccess(status),
                    _ => false,
                };
                if attached {
                    Step::Call(
                        RenderSetup::size_request(owning_hmd, Eye::Left),
                        RenderSetup::SizingLeft { owning_hmd, eye_render_desc },
                    )
                } else {
                    Step::Done(Err(OculusError::SdkError(Symbol::AttachToWindow.name())))
                }
            },
            RenderSetup::SizingLeft { owning_hmd, eye_render_desc } => match reply {
                NativeReply::TextureSize(left) => Step::Call(
                    RenderSetup::size_request(owning_hmd, Eye::Right),
                    RenderSetup::SizingRight { owning_hmd, eye_render_desc, left },
                ),
                _ => Step::Done(Err(OculusError::SdkError(Symbol::GetFovTextureSize.name()))),
            },
            RenderSetup::SizingRight { owning_hmd, eye_render_desc, left } => match reply {
                NativeReply::TextureSize(right) => Step::Done(
                    Ok(
                        RenderContext {
                            eye_texture_sizes: [left, right],
                            fovs: [eye_render_desc[0].Fov, eye_render_desc[1].Fov],
                            offsets: [
                                eye_render_desc[0].HmdToEyeViewOffset,
                                eye_render_desc[1].HmdToEyeViewOffset,
                            ],
                            owning_hmd,
                            frame_open: false,
                        },
                    ),
                ),
                _ => Step::Done(Err(OculusError::SdkError(Symbol::GetFovTextureSize.name()))),
            },
        }
    }
}

impl ProjectionPending {
    /// The runtime's matrix, turned into column-major format; a reply that
    /// is no matrix fails with `SdkError`.
    pub open spec fn resume_spec(self, reply: NativeReply) -> Step<
        ProjectionPending,
        Result<Matrix4, OculusError>,
    > {
        match reply {
            NativeReply::Matrix(matrix) => Step::Done(Ok(transposed(matrix.M))),
            _ => Step::Done(Err(OculusError::SdkError(Symbol::Projection.name_spec()))),
        }
    }

    pub fn resume(self, reply: NativeReply) -> (step: Step<
        ProjectionPending,
        Result<Matrix4, OculusError>,
    >)
        ensures
            step == self.resume_spec(reply),
    {
        match reply {
            NativeReply::Matrix(matrix) => Step::Done(Ok(column_major(&matrix))),
            _ => Step::Done(Err(OculusError::SdkError(Symbol::Projection.name()))),
        }
    }
}

impl RenderTeardown {
    /// The configuration is undone exactly if the reply reports success.
    /// Anything else leaves the runtime in a state this layer cannot
    /// account for: `RenderingNotReversed`.
    pub open spec fn resume_spec(self, reply: NativeReply) -> Step<RenderTeardown, Result<(), Fatal>> {
        if reply.succeeded() && reply is RenderingConfigured {
            Step::Done(Ok(()))
        } else {
            Step::Done(Err(Fatal::RenderingNotReversed))
        }
    }

    pub fn resume(self, reply: NativeReply) -> (step: Step<RenderTeardown, Result<(), Fatal>>)
        ensures
            step == self.resume_spec(reply),
    {
        let undone = match reply {
            NativeReply::RenderingConfigured { status, .. } => ffi::ovrSuccess(status),
            _ => false,
        };
        if undone {
            Step::Done(Ok(()))
        } else {
            Step::Done(Err(Fatal::RenderingNotReversed))
        }
    }
}

/// Texture binding, representing a registered pair of OpenGL textures that
/// should serve as render targets for per-eye viewpoints. The binding
/// describes the textures to the runtime; it does not own them.
#[derive(Clone, Copy, Debug, PartialEq, Eq)]
pub struct TextureBinding {
    /// The descriptors, left eye first.
    pub textures: [ffi::ovrGLTexture; 2],
}

/// The descriptor of an OpenGL texture of the given size and name, whose
/// viewport is the whole texture.
pub open spec fn texture_struct_spec(size: ffi::ovrSizei, id: u32) -> ffi::ovrGLTexture {
    ffi::ovrGLTexture {
        Header: ffi::ovrTextureHeader {
            API: ffi::ovrRenderAPI_OpenGL,
            TextureSize: size,
            RenderViewport: ffi::ovrRecti { Pos: ffi::ovrVector2i { x: 0, y: 0 }, Size: size },
        },
        TexId: id,
    }
}

fn texture_struct(size: ffi::ovrSizei, id: u32) -> (texture: ffi::ovrGLTexture)
    ensures
        texture == texture_struct_spec(size, id),
{
    let viewport = ffi::ovrRecti { Pos: ffi::ovrVector2i { x: 0i32, y: 0i32 }, Size: size };
    let mut texture: ffi::ovrGLTexture = Default::default();
    texture.Header.API = ffi::ovrRenderAPI_OpenGL;
    texture.Header.TextureSize = size;
    texture.Header.RenderViewport = viewport;
    texture.TexId = id;
    texture
}

impl TextureBinding {
    pub open spec fn new_spec(
        left_pair: (ffi::ovrSizei, u32),
        right_pair: (ffi::ovrSizei, u32),
    ) -> TextureBinding {
        TextureBinding {
            textures: [
                texture_struct_spec(left_pair.0, left_pair.1),
                texture_struct_spec(right_pair.0, right_pair.1),
            ],
        }
    }

    /// The binding of a left and a right texture, each given by its size
    /// and its OpenGL name. No call is made: the runtime sees the binding
    /// when a frame is closed with it.
    pub fn new(left_pair: (ffi::ovrSizei, u32), right_pair: (ffi::ovrSizei, u32)) -> (binding:
        TextureBinding)
        ensures
            binding == TextureBinding::new_spec(left_pair, right_pair),
    {
        TextureBinding {
            textures: [
                texture_struct(left_pair.0, left_pair.1),
                texture_struct(right_pair.0, right_pair.1),
            ],
        }
    }

    /// The size of the texture bound to an eye.
    pub fn texture_size(&self, eye: &Eye) -> (size: ffi::ovrSizei)
        ensures
            size == self.textures[eye.index_spec()].Header.TextureSize,
    {
        match eye {
            Eye::Left => self.textures[0].Header.TextureSize,
            Eye::Right => self.textures[1].Header.TextureSize,
        }
    }

    /// The part of an eye's texture that is rendered to.
    pub fn viewport(&self, eye: &Eye) -> (viewport: ffi::ovrRecti)
        ensures
            viewport == self.textures[eye.index_spec()].Header.RenderViewport,
    {
        match eye {
            Eye::Left => self.textures[0].Header.RenderViewport,
            Eye::Right => self.textures[1].Header.RenderViewport,
        }
    }

    /// The OpenGL name of the texture bound to an eye.
    pub fn texture_id(&self, eye: &Eye) -> (id: u32)
        ensures
            id == self.textures[eye.index_spec()].TexId,
    {
        match eye {
            Eye::Left => self.textures[0].TexId,
            Eye::Right => self.textures[1].TexId,
        }
    }
}

/// What is bound is what is read back: for each eye the texture has the
/// size and the name it was bound with, and its viewport starts at the
/// origin and has the size of the texture.
pub proof fn lemma_binding_round_trip(
    left_pair: (ffi::ovrSizei, u32),
    right_pair: (ffi::ovrSizei, u32),
    eye: Eye,
)
    ensures
        ({
            let binding = TextureBinding::new_spec(left_pair, right_pair);
            let pair = if eye == Eye::Left {
                left_pair
            } else {
                right_pair
            };
            let texture = binding.textures[eye.index_spec()];
            &&& texture.Header.TextureSize == pair.0
            &&& texture.Header.RenderViewport.Size == pair.0
            &&& texture.Header.RenderViewport.Pos == (ffi::ovrVector2i { x: 0, y: 0 })
            &&& texture.TexId == pair.1
            &&& texture.Header.API == ffi::ovrRenderAPI_OpenGL
        }),
{
}

/// A single eye's pose for a frame.
#[derive(Clone, Copy, Debug, PartialEq, Eq)]
pub struct FrameEyePose {
    pub eye: Eye,
    pub orientation: Quaternion,
    pub position: Vector3,
}

/// A single frame. All OpenGL rendering to both eyes' frame buffers should
/// happen while the frame is open, that is, until it is handed to
/// `RenderContext::end_frame`.
#[derive(Debug, PartialEq, Eq)]
pub struct Frame<'a> {
    /// The pose of each eye, left eye first.
    pub poses: [ffi::ovrPosef; 2],
    pub textures: &'a TextureBinding,
    /// The eyes in the order in which they should be rendered.
    pub render_order: [Eye; 2],
}

/// Where the opening of a frame stands.
#[derive(Debug, PartialEq, Eq)]
pub enum FrameOpening<'a> {
    /// The runtime is being told that a frame begins.
    Beginning {
        session: ffi::ovrSession,
        offsets: [ffi::ovrVector3f; 2],
        render_order: [Eye; 2],
        textures: &'a TextureBinding,
    },
    /// The eye poses are being read.
    Posing { render_order: [Eye; 2], textures: &'a TextureBinding },
}

/// The pose of one eye as a frame reports it: the eye, the orientation
/// with w first, and the position.
pub open spec fn eye_pose_spec(eye: Eye, pose: ffi::ovrPosef) -> FrameEyePose {
    FrameEyePose {
        eye,
        orientation: (
            pose.Orientation.w,
            [pose.Orientation.x, pose.Orientation.y, pose.Orientation.z],
        ),
        position: [pose.Position.x, pose.Position.y, pose.Position.z],
    }
}

fn eye_pose(eye: Eye, pose: &ffi::ovrPosef) -> (eye_pose: FrameEyePose)
    ensures
        eye_pose == eye_pose_spec(eye, *pose),
{
    let position = pose.Position;
    let orientation = pose.Orientation;
    FrameEyePose {
        eye,
        orientation: (orientation.w, [orientation.x, orientation.y, orientation.z]),
        position: [position.x, position.y, position.z],
    }
}

impl<'a> Frame<'a> {
    pub open spec fn new_spec<'b>(
        owning_context: RenderContext<'b>,
        texture_binding: &'a TextureBinding,
    ) -> (RenderContext<'b>, Step<FrameOpening<'a>, Result<Frame<'a>, OculusError>>) {
        if owning_context@.frame_open {
            (owning_context, Step::Done(Err(OculusError::FrameInProgress)))
        } else {
            (
                RenderContext::holding(RenderContextView { frame_open: true, ..owning_context@ }),
                Step::Call(
                    NativeCall::BeginFrame {
                        session: owning_context@.owning_hmd.session,
                        frame_index: 0,
                    },
                    FrameOpening::Beginning {
                        session: owning_context@.owning_hmd.session,
                        offsets: owning_context@.offsets,
                        render_order: owning_context@.owning_hmd.render_order,
                        textures: texture_binding,
                    },
                ),
            )
        }
    }

    /// Start a frame.
    ///
    /// While a frame is open no other can be started: the attempt fails
    /// with `FrameInProgress`, makes no call, and leaves the context and
    /// the open frame as they are. Otherwise the context counts the frame
    /// as open from now on, and the runtime is to be told that it begins.
    pub fn new(owning_context: &mut RenderContext, texture_binding: &'a TextureBinding) -> (step:
        Step<FrameOpening<'a>, Result<Frame<'a>, OculusError>>)
        ensures
            (*final(owning_context), step) == Frame::new_spec(
                *old(owning_context),
                texture_binding,
            ),
            final(owning_context)@ == (RenderContextView {
                frame_open: true,
                ..old(owning_context)@
            }),
    {
        if owning_context.frame_open {
            Step::Done(Err(OculusError::FrameInProgress))
        } else {
            owning_context.frame_open = true;
            Step::Call(
                NativeCall::BeginFrame {
                    session: owning_context.owning_hmd.session,
                    frame_index: 0,
                },
                FrameOpening::Beginning {
                    session: owning_context.owning_hmd.session,
                    offsets: owning_context.offsets,
                    render_order: owning_context.owning_hmd.render_order,
                    textures: texture_binding,
                },
            )
        }
    }

    /// The poses of the frame, first eye to render first.
    pub open spec fn eye_poses_spec(self) -> Seq<FrameEyePose> {
        seq![
            eye_pose_spec(self.render_order[0], self.poses[self.render_order[0].index_spec()]),
            eye_pose_spec(self.render_order[1], self.poses[self.render_order[1].index_spec()]),
        ]
    }

    /// Get the list of eye poses that should be drawn for this frame. These
    /// are returned in the suggested rendering order, which need not start
    /// with the left eye.
    pub fn eye_poses(&self) -> (poses: Vec<FrameEyePose>)
        ensures
            poses@ == self.eye_poses_spec(),
    {
        let mut poses = Vec::<FrameEyePose>::with_capacity(2);
        let mut i: usize = 0;
        while i < 2
            invariant
                i <= 2,
                poses@.len() == i,
                forall|k: int|
                    0 <= k < i ==> poses@[k] == eye_pose_spec(
                        self.render_order[k],
                        self.poses[self.render_order[k].index_spec()],
                    ),
            decreases 2 - i,
        {
            let eye = self.render_order[i];
            poses.push(eye_pose(eye, &self.poses[eye.index()]));
            i += 1;
        }
        assert(poses@ =~= self.eye_poses_spec());
        poses
    }
}

impl<'a> FrameOpening<'a> {
    /// What follows the reply to the pending call. Beginning a frame
    /// returns nothing, and the poses are read next, for frame 0 and the
    /// context's eye offsets. The frame holds the poses the runtime gave;
    /// where it gave none, each pose is left at zero.
    pub open spec fn resume_spec(self, reply: NativeReply) -> Step<
        FrameOpening<'a>,
        Result<Frame<'a>, OculusError>,
    > {
        match self {
            FrameOpening::Beginning { session, offsets, render_order, textures } => Step::Call(
                NativeCall::GetEyePoses { session, frame_index: 0, offsets },
                FrameOpening::Posing { render_order, textures },
            ),
            FrameOpening::Posing { render_order, textures } => Step::Done(
                Ok(
                    Frame {
                        poses: match reply {
                            NativeReply::EyePoses(poses) => poses,
                            _ => [ffi::ovrPosef::zero(), ffi::ovrPosef::zero()],
                        },
                        textures,
                        render_order,
                    },
                ),
            ),
        }
    }

    pub fn resume(self, reply: NativeReply) -> (step: Step<
        FrameOpening<'a>,
        Result<Frame<'a>, OculusError>,
    >)
        ensures
            step == self.resume_spec(reply),
    {
        match self {
            FrameOpening::Beginning { session, offsets, render_order, textures } => Step::Call(
                NativeCall::GetEyePoses { session, frame_index: 0, offsets },
                FrameOpening::Posing { render_order, textures },
            ),
            FrameOpening::Posing { render_order, textures } => {
                let poses: [ffi::ovrPosef; 2] = match reply {
                    NativeReply::EyePoses(poses) => poses,
                    _ => [Default::default(), Default::default()],
                };
                Step::Done(Ok(Frame { poses, textures, render_order }))
            },
        }
    }
}

/// What rendering one eye takes: the size of its texture and its field of
/// view.
#[derive(Clone, Copy, Debug, PartialEq, Eq, Structural)]
pub struct EyeRenderDetails {
    pub width: i32,
    pub height: i32,
    pub fov: ffi::ovrFovPort,
}

/// Where reading an eye's render details stands.
#[derive(Clone, Copy, Debug, PartialEq, Eq)]
pub enum EyeMeasuring {
    /// The headset's description is being read.
    Describing { session: ffi::ovrSession, eye: Eye, pixels_per_display_pixel: ffi::FloatBits },
    /// The texture size is being read, for this field of view.
    Sizing { fov: ffi::ovrFovPort },
}

impl EyeRenderDetails {
    pub open spec fn for_eye_spec(
        session: &Session,
        eye: Eye,
        pixels_per_display_pixel: ffi::FloatBits,
    ) -> Step<EyeMeasuring, Result<EyeRenderDetails, OculusError>> {
        Step::Call(
            NativeCall::GetHmdDesc { session: session.session },
            EyeMeasuring::Describing { session: session.session, eye, pixels_per_display_pixel },
        )
    }

    /// Starts reading what rendering the given eye takes, at the given
    /// density of texture pixels per display pixel.
    pub fn for_eye(session: &Session, eye: Eye, pixels_per_display_pixel: ffi::FloatBits) -> (step:
        Step<EyeMeasuring, Result<EyeRenderDetails, OculusError>>)
        ensures
            step == EyeRenderDetails::for_eye_spec(session, eye, pixels_per_display_pixel),
    {
        Step::Call(
            NativeCall::GetHmdDesc { session: session.session },
            EyeMeasuring::Describing { session: session.session, eye, pixels_per_display_pixel },
        )
    }
}

impl EyeMeasuring {
    /// What follows the reply to the pending call: the texture size is
    /// asked for the eye's default field of view as the description gives
    /// it, and the details hold that size and that field of view. A reply
    /// that does not fit fails with `SdkError`.
    pub open spec fn resume_spec(self, reply: NativeReply) -> Step<
        EyeMeasuring,
        Result<EyeRenderDetails, OculusError>,
    > {
        match self {
            EyeMeasuring::Describing { session, eye, pixels_per_display_pixel } => match reply {
                NativeReply::HmdDesc(desc) => Step::Call(
                    NativeCall::GetFovTextureSize {
                        session,
                        eye: eye.index_spec() as i32,
                        fov: desc.DefaultEyeFov[eye.index_spec()],
                        pixels_per_display_pixel,
                    },
                    EyeMeasuring::Sizing { fov: desc.DefaultEyeFov[eye.index_spec()] },
                ),
                _ => Step::Done(Err(OculusError::SdkError(Symbol::GetHmdDesc.name_spec()))),
            },
            EyeMeasuring::Sizing { fov } => match reply {
                NativeReply::TextureSize(size) => Step::Done(
                    Ok(EyeRenderDetails { width: size.w, height: size.h, fov }),
                ),
                _ => Step::Done(Err(OculusError::SdkError(Symbol::GetFovTextureSize.name_spec()))),
            },
        }
    }

    pub fn resume(self, reply: NativeReply) -> (step: Step<
        EyeMeasuring,
        Result<EyeRenderDetails, OculusError>,
    >)
        ensures
            step == self.resume_spec(reply),
    {
        match self {
            EyeMeasuring::Describing { session, eye, pixels_per_display_pixel } => match reply {
                NativeReply::HmdDesc(desc) => {
                    let (index, fov) = match eye {
                        Eye::Left => (0i32, desc.DefaultEyeFov[0]),
                        Eye::Right => (1i32, desc.DefaultEyeFov[1]),
                    };
                    Step::Call(
                        NativeCall::GetFovTextureSize {
                            session,
                            eye: index,
                            fov,
                            pixels_per_display_pixel,
                        },
                        EyeMeasuring::Sizing { fov },
                    )
                },
                _ => Step::Done(Err(OculusError::SdkError(Symbol::GetHmdDesc.name()))),
            },
            EyeMeasuring::Sizing { fov } => match reply {
                NativeReply::TextureSize(size) => Step::Done(
                    Ok(EyeRenderDetails { width: size.w, height: size.h, fov }),
                ),
                _ => Step::Done(Err(OculusError::SdkError(Symbol::GetFovTextureSize.name()))),
            },
        }
    }
}

/// A ring of textures that the runtime owns and the caller renders to, one
/// after the other. The ring is never empty and the current position lies
/// in it. `close` consumes the set and yields the call that destroys it.
#[derive(Debug, PartialEq, Eq)]
pub struct SwapTextureSet<'a> {
    texture_set: usize,
    textures: Vec<u32>,
    current_index: usize,
    session: &'a Session,
}

/// What a `SwapTextureSet` holds.
pub struct SwapTextureSetView {
    /// The address of the runtime's set.
    pub texture_set: usize,
    /// The OpenGL names of the textures, in ring order.
    pub textures: Seq<u32>,
    /// The ring position of the current texture.
    pub current_index: int,
    /// The session the set belongs to.
    pub session: ffi::ovrSession,
}

/// Where the creation of a texture set stands.
#[derive(Debug, PartialEq, Eq)]
pub enum SwapTextureSetOpening<'a> {
    /// The runtime's set is being created.
    Creating { session: &'a Session },
    /// The runtime created a set that cannot be used, and it is being
    /// destroyed.
    Discarding,
}

/// Whether a ring of textures with a current position is one to render to:
/// it has a texture, and the position lies in it.
pub open spec fn usable_ring(textures: Seq<u32>, current: i32) -> bool {
    0 <= current < textures.len()
}

impl<'a> SwapTextureSet<'a> {
    #[verifier::type_invariant]
    spec fn ring_holds_current(self) -> bool {
        self.current_index < self.textures@.len()
    }

    pub closed spec fn view(self) -> SwapTextureSetView {
        SwapTextureSetView {
            texture_set: self.texture_set,
            textures: self.textures@,
            current_index: self.current_index as int,
            session: self.session.session,
        }
    }

    /// The set of a session, with the ring as the runtime created it.
    pub closed spec fn created(
        session: &'a Session,
        texture_set: usize,
        textures: Vec<u32>,
        current: i32,
    ) -> SwapTextureSet<'a> {
        SwapTextureSet { texture_set, textures, current_index: current as usize, session }
    }

    /// A created set holds what it was created with.
    pub proof fn lemma_created_view(
        session: &'a Session,
        texture_set: usize,
        textures: Vec<u32>,
        current: i32,
    )
        requires
            0 <= current,
        ensures
            SwapTextureSet::created(session, texture_set, textures, current)@ == (
            SwapTextureSetView {
                texture_set,
                textures: textures@,
                current_index: current as int,
                session: session.session,
            }),
    {
    }

    pub open spec fn new_spec(session: &'a Session, width: i32, height: i32) -> Step<
        SwapTextureSetOpening<'a>,
        Result<SwapTextureSet<'a>, OculusError>,
    > {
        Step::Call(
            NativeCall::CreateSwapTextureSetGL {
                session: session.session,
                format: 0x8C43,
                width,
                height,
            },
            SwapTextureSetOpening::Creating { session },
        )
    }

    /// Starts the creation of a texture set of the given size for a
    /// session, in the sRGB format with alpha.
    pub fn new(session: &'a Session, width: i32, height: i32) -> (step: Step<
        SwapTextureSetOpening<'a>,
        Result<SwapTextureSet<'a>, OculusError>,
    >)
        ensures
            step == SwapTextureSet::new_spec(session, width, height),
    {
        Step::Call(
            NativeCall::CreateSwapTextureSetGL {
                session: session.session,
                format: ffi::srgb_alpha_format(),
                width,
                height,
            },
            SwapTextureSetOpening::Creating { session },
        )
    }

    /// Moves on to the next texture of the ring, the first one after the
    /// last, and returns its OpenGL name.
    pub fn advance(&mut self) -> (id: u32)
        ensures
            final(self)@ == old(self)@.advanced(1),
            0 <= final(self)@.current_index < final(self)@.textures.len(),
            id == final(self)@.textures[final(self)@.current_index],
    {
        proof {
            use_type_invariant(&*self);
        }
        let len = self.textures.len();
        let next = if self.current_index + 1 < len {
            self.current_index + 1
        } else {
            0
        };
        assert(next == (self.current_index + 1) % (self.textures@.len() as int)) by {
            let c = self.current_index as int;
            let n = self.textures@.len() as int;
            if c + 1 < n {
                vstd::arithmetic::div_mod::lemma_small_mod((c + 1) as nat, n as nat);
            } else {
                vstd::arithmetic::div_mod::lemma_mod_self_0(n);
            }
        }
        self.current_index = next;
        self.textures[next]
    }

    /// The OpenGL name of the current texture.
    pub fn current(&self) -> (id: u32)
        ensures
            0 <= self@.current_index < self@.textures.len(),
            id == self@.textures[self@.current_index],
    {
        proof {
            use_type_invariant(self);
        }
        self.textures[self.current_index]
    }

    /// The ring position of the current texture, as the runtime is to
    /// read it after a frame is submitted.
    pub fn current_index(&self) -> (index: usize)
        ensures
            index == self@.current_index,
            index < self@.textures.len(),
    {
        proof {
            use_type_invariant(self);
        }
        self.current_index
    }

    /// The address of the runtime's set.
    pub fn texture_set(&self) -> (address: usize)
        ensures
            address == self@.texture_set,
    {
        self.texture_set
    }

    /// Ends the set: the call that destroys the runtime's set. The set is
    /// consumed, so the call is handed out once.
    pub fn close(self) -> (call: NativeCall)
        ensures
            call == (NativeCall::DestroySwapTextureSet {
                session: self@.session,
                texture_set: self@.texture_set,
            }),
    {
        NativeCall::DestroySwapTextureSet {
            session: self.session.session,
            texture_set: self.texture_set,
        }
    }
}

impl SwapTextureSetView {
    /// What the set holds after moving on `steps` times.
    pub open spec fn advanced(self, steps: nat) -> SwapTextureSetView {
        SwapTextureSetView {
            current_index: (self.current_index + steps) % (self.textures.len() as int),
            ..self
        }
    }
}

/// The textures of a set form a ring: moving on as many times as the set
/// has textures leads back to where it started, and moving on in two
/// stretches is moving on by their sum.
pub proof fn lemma_ring(set: SwapTextureSetView, first: nat, second: nat)
    requires
        0 <= set.current_index < set.textures.len(),
    ensures
        set.advanced(0) == set,
        set.advanced(set.textures.len()) == set,
        set.advanced(first).advanced(second) == set.advanced(first + second),
        0 <= set.advanced(first).current_index < set.textures.len(),
{
    let n = set.textures.len() as int;
    let c = set.current_index;
    vstd::arithmetic::div_mod::lemma_small_mod(c as nat, n as nat);
    vstd::arithmetic::div_mod::lemma_mod_multiples_vanish(1, c, n);
    vstd::arithmetic::div_mod::lemma_mod_pos_bound(c + first, n);
    vstd::arithmetic::div_mod::lemma_add_mod_noop(c + first, second as int, n);
    vstd::arithmetic::div_mod::lemma_add_mod_noop((c + first) % n, second as int, n);
    vstd::arithmetic::div_mod::lemma_mod_twice(c + first, n);
}

impl<'a> SwapTextureSetOpening<'a> {
    /// What follows the reply to the pending call.
    ///
    /// A successful creation of a usable ring ends with the set. A
    /// successful creation of a ring that is empty, or whose position lies
    /// outside it, leads to destroying the runtime's set, to fail with
    /// `SdkError`. Anything else fails with `SdkError` at once.
    pub open spec fn resume_spec(self, reply: NativeReply) -> Step<
        SwapTextureSetOpening<'a>,
        Result<SwapTextureSet<'a>, OculusError>,
    > {
        match self {
            SwapTextureSetOpening::Creating { session } => match reply {
                NativeReply::SwapTextureSet { status, texture_set, textures, current } => {
                    if status <= 0 {
                        Step::Done(
                            Err(OculusError::SdkError(Symbol::CreateSwapTextureSetGL.name_spec())),
                        )
                    } else if usable_ring(textures@, current) {
                        Step::Done(
                            Ok(SwapTextureSet::created(session, texture_set, textures, current)),
                        )
                    } else {
                        Step::Call(
                            NativeCall::DestroySwapTextureSet {
                                session: session.session,
                                texture_set,
                            },
                            SwapTextureSetOpening::Discarding,
                        )
                    }
                },
                _ => Step::Done(
                    Err(OculusError::SdkError(Symbol::CreateSwapTextureSetGL.name_spec())),
                ),
            },
            SwapTextureSetOpening::Discarding => Step::Done(
                Err(OculusError::SdkError(Symbol::CreateSwapTextureSetGL.name_spec())),
            ),
        }
    }

    pub fn resume(self, reply: NativeReply) -> (step: Step<
        SwapTextureSetOpening<'a>,
        Result<SwapTextureSet<'a>, OculusError>,
    >)
        ensures
            step == self.resume_spec(reply),
            step matches Step::Done(Ok(set)) ==> (self matches SwapTextureSetOpening::Creating {
                session,
            } && reply matches NativeReply::SwapTextureSet { status, texture_set, textures, current }
                && set@ == (SwapTextureSetView {
                texture_set,
                textures: textures@,
                current_index: current as int,
                session: session.session,
            })),
    {
        match self {
            SwapTextureSetOpening::Creating { session } => match reply {
                NativeReply::SwapTextureSet { status, texture_set, textures, current } => {
                    if ffi::ovrFailure(status) {
                        Step::Done(Err(OculusError::SdkError(Symbol::CreateSwapTextureSetGL.name())))
                    } else if 0 <= current && (current as usize) < textures.len() {
                        Step::Done(
                            Ok(
                                SwapTextureSet {
                                    texture_set,
                                    textures,
                                    current_index: current as usize,
                                    session,
                                },
                            ),
                        )
                    } else {
                        Step::Call(
                            NativeCall::DestroySwapTextureSet {
                                session: session.session,
                                texture_set,
                            },
                            SwapTextureSetOpening::Discarding,
                        )
                    }
                },
                _ => Step::Done(Err(OculusError::SdkError(Symbol::CreateSwapTextureSetGL.name()))),
            },
            SwapTextureSetOpening::Discarding => Step::Done(
                Err(OculusError::SdkError(Symbol::CreateSwapTextureSetGL.name())),
            ),
        }
    }
}

/// The poses of one frame as the runtime predicts them for the time the
/// frame will be displayed.
#[derive(Clone, Copy, Debug, PartialEq, Eq)]
pub struct TrackedFrame {
    pub predicted_time: ffi::DoubleBits,
    /// The pose of the left and of the right eye.
    pub eye_poses: (ffi::ovrPosef, ffi::ovrPosef),
}

/// Where the prediction of a frame's poses stands.
#[derive(Clone, Copy, Debug, PartialEq, Eq)]
pub enum TrackedFrameOpening {
    /// The display time of the frame is being read.
    Timing { session: ffi::ovrSession, eye_offsets: [ffi::ovrVector3f; 2] },
    /// The tracking state at that time is being read.
    Tracking { predicted_time: ffi::DoubleBits, eye_offsets: [ffi::ovrVector3f; 2] },
    /// The eye poses are being derived from the head pose.
    Posing { predicted_time: ffi::DoubleBits },
}

impl TrackedFrame {
    pub open spec fn new_spec(
        session: &Session,
        eye_offsets: [ffi::ovrVector3f; 2],
        frame_index: i64,
    ) -> Step<TrackedFrameOpening, Result<TrackedFrame, OculusError>> {
        Step::Call(
            NativeCall::GetPredictedDisplayTime { session: session.session, frame_index },
            TrackedFrameOpening::Timing { session: session.session, eye_offsets },
        )
    }

    /// Starts predicting the eye poses of the frame with the given index.
    pub fn new(session: &Session, eye_offsets: [ffi::ovrVector3f; 2], frame_index: i64) -> (step:
        Step<TrackedFrameOpening, Result<TrackedFrame, OculusError>>)
        ensures
            step == TrackedFrame::new_spec(session, eye_offsets, frame_index),
    {
        Step::Call(
            NativeCall::GetPredictedDisplayTime { session: session.session, frame_index },
            TrackedFrameOpening::Timing { session: session.session, eye_offsets },
        )
    }

    /// The pose of an eye.
    pub fn eye_pose(&self, eye: &Eye) -> (pose: ffi::ovrPosef)
        ensures
            pose == if *eye == Eye::Left {
                self.eye_poses.0
            } else {
                self.eye_poses.1
            },
    {
        match eye {
            Eye::Left => self.eye_poses.0,
            Eye::Right => self.eye_poses.1,
        }
    }
}

impl TrackedFrameOpening {
    /// What follows the reply to the pending call: the tracking state is
    /// read for the predicted display time, marking the latency; the eye
    /// poses are derived from the head pose of that state and the eye
    /// offsets. A reply that does not fit fails with `SdkError`.
    pub open spec fn resume_spec(self, reply: NativeReply) -> Step<
        TrackedFrameOpening,
        Result<TrackedFrame, OculusError>,
    > {
        match self {
            TrackedFrameOpening::Timing { session, eye_offsets } => match reply {
                NativeReply::DisplayTime(predicted_time) => Step::Call(
                    NativeCall::GetTrackingState {
                        session,
                        abs_time: predicted_time,
                        latency_marker: ffi::ovrTrue,
                    },
                    TrackedFrameOpening::Tracking { predicted_time, eye_offsets },
                ),
                _ => Step::Done(
                    Err(OculusError::SdkError(Symbol::GetPredictedDisplayTime.name_spec())),
                ),
            },
            TrackedFrameOpening::Tracking { predicted_time, eye_offsets } => match reply {
                NativeReply::TrackingState(state) => Step::Call(
                    NativeCall::CalcEyePoses {
                        head_pose: state.HeadPose.ThePose,
                        offsets: eye_offsets,
                    },
                    TrackedFrameOpening::Posing { predicted_time },
                ),
                _ => Step::Done(Err(OculusError::SdkError(Symbol::GetTrackingState.name_spec()))),
            },
            TrackedFrameOpening::Posing { predicted_time } => match reply {
                NativeReply::EyePoses(poses) => Step::Done(
                    Ok(TrackedFrame { predicted_time, eye_poses: (poses[0], poses[1]) }),
                ),
                _ => Step::Done(Err(OculusError::SdkError(Symbol::CalcEyePoses.name_spec()))),
            },
        }
    }

    pub fn resume(self, reply: NativeReply) -> (step: Step<
        TrackedFrameOpening,
        Result<TrackedFrame, OculusError>,
    >)
        ensures
            step == self.resume_spec(reply),
    {
        match self {
            TrackedFrameOpening::Timing { session, eye_offsets } => match reply {
                NativeReply::DisplayTime(predicted_time) => Step::Call(
                    NativeCall::GetTrackingState {
                        session,
                        abs_time: predicted_time,
                        latency_marker: ffi::ovrTrue,
                    },
                    TrackedFrameOpening::Tracking { predicted_time, eye_offsets },
                ),
                _ => Step::Done(Err(OculusError::SdkError(Symbol::GetPredictedDisplayTime.name()))),
            },
            TrackedFrameOpening::Tracking { predicted_time, eye_offsets } => match reply {
                NativeReply::TrackingState(state) => Step::Call(
                    NativeCall::CalcEyePoses {
                        head_pose: state.HeadPose.ThePose,
                        offsets: eye_offsets,
                    },
                    TrackedFrameOpening::Posing { predicted_time },
                ),
                _ => Step::Done(Err(OculusError::SdkError(Symbol::GetTrackingState.name()))),
            },
            TrackedFrameOpening::Posing { predicted_time } => match reply {
                NativeReply::EyePoses(poses) => Step::Done(
                    Ok(TrackedFrame { predicted_time, eye_poses: (poses[0], poses[1]) }),
                ),
                _ => Step::Done(Err(OculusError::SdkError(Symbol::CalcEyePoses.name()))),
            },
        }
    }
}

/// A compositor layer that shows one texture set per eye, each with the
/// eye's default field of view.
#[derive(Debug, PartialEq, Eq)]
pub struct Layer<'a> {
    /// The texture set of the left and of the right eye.
    pub texture_sets: (SwapTextureSet<'a>, SwapTextureSet<'a>),
    pub layer: ffi::ovrLayerEyeFov,
    pub session: &'a Session,
}

/// Where the creation of a layer stands.
#[derive(Debug, PartialEq, Eq)]
pub enum LayerOpening<'a> {
    /// The left eye's render details are being read.
    MeasuringLeft { session: &'a Session, measuring: EyeMeasuring },
    /// The right eye's render details are being read.
    MeasuringRight { session: &'a Session, left: EyeRenderDetails, measuring: EyeMeasuring },
    /// The left eye's texture set is being created.
    CreatingLeft {
        session: &'a Session,
        details: (EyeRenderDetails, EyeRenderDetails),
        creating: SwapTextureSetOpening<'a>,
    },
    /// The right eye's texture set is being created.
    CreatingRight {
        session: &'a Session,
        details: (EyeRenderDetails, EyeRenderDetails),
        left: SwapTextureSet<'a>,
        creating: SwapTextureSetOpening<'a>,
    },
    /// The creation has failed and the left eye's texture set is being
    /// destroyed.
    Discarding { error: OculusError },
}

/// The viewport every layer starts with: the unit rectangle at the origin.
pub open spec fn full_rect() -> ffi::ovrRecti {
    ffi::ovrRecti { Pos: ffi::ovrVector2i { x: 0, y: 0 }, Size: ffi::ovrSizei { w: 1, h: 1 } }
}

impl<'a> Layer<'a> {
    /// The layer made of two texture sets and the render details of their
    /// eyes: an eye-field-of-view layer with no flag set, that names the two
    /// sets, shows each in the full viewport with its eye's field of view,
    /// and has all poses and the sample time at zero.
    pub open spec fn assembled(
        session: &'a Session,
        details: (EyeRenderDetails, EyeRenderDetails),
        left: SwapTextureSet<'a>,
        right: SwapTextureSet<'a>,
    ) -> Layer<'a> {
        Layer {
            texture_sets: (left, right),
            layer: ffi::ovrLayerEyeFov {
                Header: ffi::ovrLayerHeader { Type: ffi::ovrLayerType_EyeFov, Flags: 0 },
                ColorTexture: [left@.texture_set, right@.texture_set],
                Viewport: [full_rect(), full_rect()],
                Fov: [details.0.fov, details.1.fov],
                RenderPose: [ffi::ovrPosef::zero(), ffi::ovrPosef::zero()],
                SensorSampleTime: 0,
            },
            session,
        }
    }

    pub open spec fn new_spec(session: &'a Session) -> Step<
        LayerOpening<'a>,
        Result<Layer<'a>, OculusError>,
    > {
        LayerOpening::measuring_left(
            session,
            EyeRenderDetails::for_eye_spec(session, Eye::Left, ffi::FLOAT_ONE),
        )
    }

    /// Starts the creation of a layer for a session. Each eye is measured
    /// at one texture pixel per display pixel, the left eye first; then a
    /// texture set of the measured size is created for each eye.
    pub fn new(session: &'a Session) -> (step: Step<LayerOpening<'a>, Result<Layer<'a>, OculusError>>)
        ensures
            step == Layer::new_spec(session),
    {
        LayerOpening::after_left_details(
            session,
            EyeRenderDetails::for_eye(session, Eye::Left, ffi::FLOAT_ONE),
        )
    }

    /// Prepares an eye for a frame: the eye's texture set moves on to its
    /// next texture, whose OpenGL name is returned for rendering, and the
    /// layer takes the frame's pose of that eye as the pose it is rendered
    /// with. The other eye is left as it is.
    pub fn advance_for_frame(&mut self, eye: &Eye, frame: &TrackedFrame) -> (id: u32)
        ensures
            final(self).session == old(self).session,
            final(self).layer == (ffi::ovrLayerEyeFov {
                RenderPose: if *eye == Eye::Left {
                    [frame.eye_poses.0, old(self).layer.RenderPose[1]]
                } else {
                    [old(self).layer.RenderPose[0], frame.eye_poses.1]
                },
                ..old(self).layer
            }),
            ({
                let before = if *eye == Eye::Left {
                    old(self).texture_sets.0
                } else {
                    old(self).texture_sets.1
                };
                let after = if *eye == Eye::Left {
                    final(self).texture_sets.0
                } else {
                    final(self).texture_sets.1
                };
                &&& after@ == before@.advanced(1)
                &&& 0 <= after@.current_index < after@.textures.len()
                &&& id == after@.textures[after@.current_index]
            }),
            *eye == Eye::Left ==> final(self).texture_sets.1 == old(self).texture_sets.1,
            *eye == Eye::Right ==> final(self).texture_sets.0 == old(self).texture_sets.0,
    {
        match eye {
            Eye::Left => {
                let id = self.texture_sets.0.advance();
                let poses = [frame.eye_poses.0, self.layer.RenderPose[1]];
                self.layer.RenderPose = poses;
                id
            },
            Eye::Right => {
                let id = self.texture_sets.1.advance();
                let poses = [self.layer.RenderPose[0], frame.eye_poses.1];
                self.layer.RenderPose = poses;
                id
            },
        }
    }

    /// Ends the layer: the calls that destroy its two texture sets, the
    /// left eye's first.
    pub fn close(self) -> (calls: [NativeCall; 2])
        ensures
            calls[0] == (NativeCall::DestroySwapTextureSet {
                session: self.texture_sets.0@.session,
                texture_set: self.texture_sets.0@.texture_set,
            }),
            calls[1] == (NativeCall::DestroySwapTextureSet {
                session: self.texture_sets.1@.session,
                texture_set: self.texture_sets.1@.texture_set,
            }),
    {
        let Layer { texture_sets, layer, session } = self;
        let (left, right) = texture_sets;
        [left.close(), right.close()]
    }
}

impl<'a> LayerOpening<'a> {
    /// The step of a creation whose left eye's measuring stands at `step`.
    pub open spec fn measuring_left(
        session: &'a Session,
        step: Step<EyeMeasuring, Result<EyeRenderDetails, OculusError>>,
    ) -> Step<LayerOpening<'a>, Result<Layer<'a>, OculusError>> {
        match step {
            Step::Call(call, measuring) => Step::Call(
                call,
                LayerOpening::MeasuringLeft { session, measuring },
            ),
            Step::Done(Ok(left)) => LayerOpening::measuring_right(
                session,
                left,
                EyeRenderDetails::for_eye_spec(session, Eye::Right, ffi::FLOAT_ONE),
            ),
            Step::Done(Err(error)) => Step::Done(Err(error)),
        }
    }

    /// The step of a creation whose right eye's measuring stands at `step`.
    pub open spec fn measuring_right(
        session: &'a Session,
        left: EyeRenderDetails,
        step: Step<EyeMeasuring, Result<EyeRenderDetails, OculusError>>,
    ) -> Step<LayerOpening<'a>, Result<Layer<'a>, OculusError>> {
        match step {
            Step::Call(call, measuring) => Step::Call(
                call,
                LayerOpening::MeasuringRight { session, left, measuring },
            ),
            Step::Done(Ok(right)) => LayerOpening::creating_left(
                session,
                (left, right),
                SwapTextureSet::new_spec(session, left.width, left.height),
            ),
            Step::Done(Err(error)) => Step::Done(Err(error)),
        }
    }

    /// The step of a creation whose left texture set stands at `step`.
    pub open spec fn creating_left(
        session: &'a Session,
        details: (EyeRenderDetails, EyeRenderDetails),
        step: Step<SwapTextureSetOpening<'a>, Result<SwapTextureSet<'a>, OculusError>>,
    ) -> Step<LayerOpening<'a>, Result<Layer<'a>, OculusError>> {
        match step {
            Step::Call(call, creating) => Step::Call(
                call,
                LayerOpening::CreatingLeft { session, details, creating },
            ),
            Step::Done(Ok(left)) => LayerOpening::creating_right(
                session,
                details,
                left,
                SwapTextureSet::new_spec(session, details.1.width, details.1.height),
            ),
            Step::Done(Err(error)) => Step::Done(Err(error)),
        }
    }

    /// The step of a creation whose right texture set stands at `step`. If
    /// the right set cannot be had, the left one is destroyed before the
    /// creation fails.
    pub open spec fn creating_right(
        session: &'a Session,
        details: (EyeRenderDetails, EyeRenderDetails),
        left: SwapTextureSet<'a>,
        step: Step<SwapTextureSetOpening<'a>, Result<SwapTextureSet<'a>, OculusError>>,
    ) -> Step<LayerOpening<'a>, Result<Layer<'a>, OculusError>> {
        match step {
            Step::Call(call, creating) => Step::Call(
                call,
                LayerOpening::CreatingRight { session, details, left, creating },
            ),
            Step::Done(Ok(right)) => Step::Done(
                Ok(Layer::assembled(session, details, left, right)),
            ),
            Step::Done(Err(error)) => Step::Call(
                NativeCall::DestroySwapTextureSet {
                    session: left@.session,
                    texture_set: left@.texture_set,
                },
                LayerOpening::Discarding { error },
            ),
        }
    }

    /// What follows the reply to the pending call: the reply goes to the
    /// part of the creation that is under way, and the creation moves on
    /// to the next part as soon as that one is done.
    pub open spec fn resume_spec(self, reply: NativeReply) -> Step<
        LayerOpening<'a>,
        Result<Layer<'a>, OculusError>,
    > {
        match self {
            LayerOpening::MeasuringLeft { session, measuring } => LayerOpening::measuring_left(
                session,
                measuring.resume_spec(reply),
            ),
            LayerOpening::MeasuringRight {
                session,
                left,
                measuring,
            } => LayerOpening::measuring_right(session, left, measuring.resume_spec(reply)),
            LayerOpening::CreatingLeft {
                session,
                details,
                creating,
            } => LayerOpening::creating_left(session, details, creating.resume_spec(reply)),
            LayerOpening::CreatingRight {
                session,
                details,
                left,
                creating,
            } => LayerOpening::creating_right(session, details, left, creating.resume_spec(reply)),
            LayerOpening::Discarding { error } => Step::Done(Err(error)),
        }
    }

    fn after_left_details(
        session: &'a Session,
        step: Step<EyeMeasuring, Result<EyeRenderDetails, OculusError>>,
    ) -> (next: Step<LayerOpening<'a>, Result<Layer<'a>, OculusError>>)
        ensures
            next == LayerOpening::measuring_left(session, step),
    {
        match step {
            Step::Call(call, measuring) => Step::Call(
                call,
                LayerOpening::MeasuringLeft { session, measuring },
            ),
            Step::Done(Ok(left)) => LayerOpening::after_right_details(
                session,
                left,
                EyeRenderDetails::for_eye(session, Eye::Right, ffi::FLOAT_ONE),
            ),
            Step::Done(Err(error)) => Step::Done(Err(error)),
        }
    }

    fn after_right_details(
        session: &'a Session,
        left: EyeRenderDetails,
        step: Step<EyeMeasuring, Result<EyeRenderDetails, OculusError>>,
    ) -> (next: Step<LayerOpening<'a>, Result<Layer<'a>, OculusError>>)
        ensures
            next == LayerOpening::measuring_right(session, left, step),
    {
        match step {
            Step::Call(call, measuring) => Step::Call(
                call,
                LayerOpening::MeasuringRight { session, left, measuring },
            ),
            Step::Done(Ok(right)) => LayerOpening::after_left_set(
                session,
                (left, right),
                SwapTextureSet::new(session, left.width, left.height),
            ),
            Step::Done(Err(error)) => Step::Done(Err(error)),
        }
    }

    fn after_left_set(
        session: &'a Session,
        details: (EyeRenderDetails, EyeRenderDetails),
        step: Step<SwapTextureSetOpening<'a>, Result<SwapTextureSet<'a>, OculusError>>,
    ) -> (next: Step<LayerOpening<'a>, Result<Layer<'a>, OculusError>>)
        ensures
            next == LayerOpening::creating_left(session, details, step),
    {
        match step {
            Step::Call(call, creating) => Step::Call(
                call,
                LayerOpening::CreatingLeft { session, details, creating },
            ),
            Step::Done(Ok(left)) => LayerOpening::after_right_set(
                session,
                details,
                left,
                SwapTextureSet::new(session, details.1.width, details.1.height),
            ),
            Step::Done(Err(error)) => Step::Done(Err(error)),
        }
    }

    fn after_right_set(
        session: &'a Session,
        details: (EyeRenderDetails, EyeRenderDetails),
        left: SwapTextureSet<'a>,
        step: Step<SwapTextureSetOpening<'a>, Result<SwapTextureSet<'a>, OculusError>>,
    ) -> (next: Step<LayerOpening<'a>, Result<Layer<'a>, OculusError>>)
        ensures
            next == LayerOpening::creating_right(session, details, left, step),
    {
        match step {
            Step::Call(call, creating) => Step::Call(
                call,
                LayerOpening::CreatingRight { session, details, left, creating },
            ),
            Step::Done(Ok(right)) => {
                let full_rect = ffi::ovrRecti {
                    Pos: ffi::ovrVector2i { x: 0, y: 0 },
                    Size: ffi::ovrSizei { w: 1, h: 1 },
                };
                let layer = ffi::ovrLayerEyeFov {
                    Header: ffi::ovrLayerHeader {
                        Type: ffi::ovrLayerType_EyeFov,
                        Flags: ffi::ovrLayerFlags::empty().bits(),
                    },
                    ColorTexture: [left.texture_set(), right.texture_set()],
                    Viewport: [full_rect, full_rect],
                    Fov: [details.0.fov, details.1.fov],
                    RenderPose: [Default::default(), Default::default()],
                    SensorSampleTime: 0,
                };
                Step::Done(Ok(Layer { texture_sets: (left, right), layer, session }))
            },
            Step::Done(Err(error)) => Step::Call(left.close(), LayerOpening::Discarding { error }),
        }
    }

    pub fn resume(self, reply: NativeReply) -> (step: Step<
        LayerOpening<'a>,
        Result<Layer<'a>, OculusError>,
    >)
        ensures
            step == self.resume_spec(reply),
    {
        match self {
            LayerOpening::MeasuringLeft {
                session,
                measuring,
            } => LayerOpening::after_left_details(session, measuring.resume(reply)),
            LayerOpening::MeasuringRight {
                session,
                left,
                measuring,
            } => LayerOpening::after_right_details(session, left, measuring.resume(reply)),
            LayerOpening::CreatingLeft {
                session,
                details,
                creating,
            } => LayerOpening::after_left_set(session, details, creating.resume(reply)),
            LayerOpening::CreatingRight {
                session,
                details,
                left,
                creating,
            } => LayerOpening::after_right_set(session, details, left, creating.resume(reply)),
            LayerOpening::Discarding { error } => Step::Done(Err(error)),
        }
    }
}

/// Where the creation of a layer ends up when the calls from `step` on are
/// answered with `replies`, one after the other, for as long as there is a
/// call and a reply.
pub open spec fn run_layer<'a>(
    step: Step<LayerOpening<'a>, Result<Layer<'a>, OculusError>>,
    replies: Seq<NativeReply>,
) -> Step<LayerOpening<'a>, Result<Layer<'a>, OculusError>>
    decreases replies.len(),
{
    match step {
        Step::Done(_) => step,
        Step::Call(_, state) => if replies.len() == 0 {
            step
        } else {
            run_layer(state.resume_spec(replies[0]), replies.drop_first())
        },
    }
}

/// When a layer is created.
///
/// Each eye is measured with its default field of view as the runtime
/// describes the headset at that moment. If the runtime then creates a
/// usable texture set for each eye, the layer is made of the two sets and
/// the two measurements. If it creates one for the left eye and refuses
/// the one for the right eye, the left eye's set is destroyed and the
/// creation fails with `SdkError`.
pub proof fn lemma_layer_creation(
    session: &Session,
    left_desc: ffi::ovrHmdDesc,
    left_size: ffi::ovrSizei,
    right_desc: ffi::ovrHmdDesc,
    right_size: ffi::ovrSizei,
    left_set: usize,
    left_textures: Vec<u32>,
    left_current: i32,
    right_status: ffi::ovrResult,
    right_set: usize,
    right_textures: Vec<u32>,
    right_current: i32,
)
    requires
        usable_ring(left_textures@, left_current),
    ensures
        ({
            let measured = seq![
                NativeReply::HmdDesc(left_desc),
                NativeReply::TextureSize(left_size),
                NativeReply::HmdDesc(right_desc),
                NativeReply::TextureSize(right_size),
                NativeReply::SwapTextureSet {
                    status: 1,
                    texture_set: left_set,
                    textures: left_textures,
                    current: left_current,
                },
                NativeReply::SwapTextureSet {
                    status: right_status,
                    texture_set: right_set,
                    textures: right_textures,
                    current: right_current,
                },
            ];
            let details = (
                EyeRenderDetails {
                    width: left_size.w,
                    height: left_size.h,
                    fov: left_desc.DefaultEyeFov[0],
                },
                EyeRenderDetails {
                    width: right_size.w,
                    height: right_size.h,
                    fov: right_desc.DefaultEyeFov[1],
                },
            );
            let left = SwapTextureSet::created(session, left_set, left_textures, left_current);
            let right = SwapTextureSet::created(session, right_set, right_textures, right_current);
            &&& right_status > 0 && usable_ring(right_textures@, right_current) ==> run_layer(
                Layer::new_spec(session),
                measured,
            ) == Step::<LayerOpening, Result<Layer, OculusError>>::Done(
                Ok(Layer::assembled(session, details, left, right)),
            )
            &&& right_status <= 0 ==> run_layer(Layer::new_spec(session), measured) == Step::<
                LayerOpening,
                Result<Layer, OculusError>,
            >::Call(
                NativeCall::DestroySwapTextureSet {
                    session: session.session,
                    texture_set: left_set,
                },
                LayerOpening::Discarding {
                    error: OculusError::SdkError(Symbol::CreateSwapTextureSetGL.name_spec()),
                },
            )
        }),
{
    reveal_with_fuel(run_layer, 8);
    let r0 = NativeReply::HmdDesc(left_desc);
    let r1 = NativeReply::TextureSize(left_size);
    let r2 = NativeReply::HmdDesc(right_desc);
    let r3 = NativeReply::TextureSize(right_size);
    let r4 = NativeReply::SwapTextureSet {
        status: 1,
        texture_set: left_set,
        textures: left_textures,
        current: left_current,
    };
    let r5 = NativeReply::SwapTextureSet {
        status: right_status,
        texture_set: right_set,
        textures: right_textures,
        current: right_current,
    };
    assert(seq![r0, r1, r2, r3, r4, r5].drop_first() =~= seq![r1, r2, r3, r4, r5]);
    assert(seq![r1, r2, r3, r4, r5].drop_first() =~= seq![r2, r3, r4, r5]);
    assert(seq![r2, r3, r4, r5].drop_first() =~= seq![r3, r4, r5]);
    assert(seq![r3, r4, r5].drop_first() =~= seq![r4, r5]);
    assert(seq![r4, r5].drop_first() =~= seq![r5]);
    assert(seq![r5].drop_first() =~= Seq::<NativeReply>::empty());
    SwapTextureSet::lemma_created_view(session, left_set, left_textures, left_current);
}

/// Where the configuration of rendering ends up when the calls from `step`
/// on are answered with `replies`, one after the other, for as long as
/// there is a call and a reply.
pub open spec fn run_setup<'a>(
    step: Step<RenderSetup<'a>, Result<RenderContext<'a>, OculusError>>,
    replies: Seq<NativeReply>,
) -> Step<RenderSetup<'a>, Result<RenderContext<'a>, OculusError>>
    decreases replies.len(),
{
    match step {
        Step::Done(_) => step,
        Step::Call(_, state) => if replies.len() == 0 {
            step
        } else {
            run_setup(state.resume_spec(replies[0]), replies.drop_first())
        },
    }
}

/// When rendering is configured.
///
/// A configuration that the runtime refuses fails with `SdkError`. For a
/// headset that is driven directly the display is then attached to the
/// window, and a refusal fails with `SdkError` as well; for any other
/// headset no attachment is asked for. After that the two texture sizes
/// are read, and the context holds them, with the fields of view and the
/// eye offsets the runtime gave on configuration, and with no frame open.
pub proof fn lemma_rendering_setup(
    owning_hmd: &Session,
    multisample: u32,
    native_window: usize,
    platform: Platform,
    status: ffi::ovrResult,
    eye_render_desc: [ffi::ovrEyeRenderDesc; 2],
    attached: ffi::ovrResult,
    left: ffi::ovrSizei,
    right: ffi::ovrSizei,
)
    ensures
        ({
            let start = RenderContext::configure_spec(
                owning_hmd,
                multisample,
                native_window,
                platform,
            );
            let configured = NativeReply::RenderingConfigured { status, eye_render_desc };
            let sizes = seq![NativeReply::TextureSize(left), NativeReply::TextureSize(right)];
            let context = RenderContext::holding(
                RenderContextView {
                    eye_texture_sizes: [left, right],
                    fovs: [eye_render_desc[0].Fov, eye_render_desc[1].Fov],
                    offsets: [
                        eye_render_desc[0].HmdToEyeViewOffset,
                        eye_render_desc[1].HmdToEyeViewOffset,
                    ],
                    owning_hmd,
                    frame_open: false,
                },
            );
            &&& status <= 0 ==> run_setup(start, seq![configured]) == Step::<
                RenderSetup,
                Result<RenderContext, OculusError>,
            >::Done(Err(OculusError::SdkError(Symbol::ConfigureRendering.name_spec())))
            &&& status > 0 && !owning_hmd.is_direct_spec() ==> run_setup(
                start,
                seq![configured] + sizes,
            ) == Step::<RenderSetup, Result<RenderContext, OculusError>>::Done(Ok(context))
            &&& status > 0 && owning_hmd.is_direct_spec() && attached <= 0 ==> run_setup(
                start,
                seq![configured, NativeReply::Status(attached)],
            ) == Step::<RenderSetup, Result<RenderContext, OculusError>>::Done(
                Err(OculusError::SdkError(Symbol::AttachToWindow.name_spec())),
            )
            &&& status > 0 && owning_hmd.is_direct_spec() && attached > 0 ==> run_setup(
                start,
                seq![configured, NativeReply::Status(attached)] + sizes,
            ) == Step::<RenderSetup, Result<RenderContext, OculusError>>::Done(Ok(context))
        }),
{
    reveal_with_fuel(run_setup, 6);
    let configured = NativeReply::RenderingConfigured { status, eye_render_desc };
    let attach = NativeReply::Status(attached);
    let l = NativeReply::TextureSize(left);
    let r = NativeReply::TextureSize(right);
    let sizes = seq![l, r];
    assert(seq![configured].drop_first() =~= Seq::<NativeReply>::empty());
    assert((seq![configured] + sizes).drop_first() =~= sizes);
    assert(sizes.drop_first() =~= seq![r]);
    assert(seq![r].drop_first() =~= Seq::<NativeReply>::empty());
    assert(seq![configured, attach].drop_first() =~= seq![attach]);
    assert(seq![attach].drop_first() =~= Seq::<NativeReply>::empty());
    assert((seq![configured, attach] + sizes).drop_first() =~= seq![attach] + sizes);
    assert((seq![attach] + sizes).drop_first() =~= sizes);
    assert((seq![configured] + sizes)[0] == configured);
    assert((seq![configured, attach] + sizes)[0] == configured);
    assert((seq![attach] + sizes)[0] == attach);
}

/// At most one frame is open in a rendering context.
///
/// In a context with no frame open a frame can be started, and the context
/// then counts it as open. While it does, another start is refused with
/// `FrameInProgress` and changes nothing. Closing the frame hands it to the
/// runtime and brings the context back to where it was, so that the next
/// frame can be started.
pub proof fn lemma_one_frame_at_a_time(
    context: RenderContext,
    first: &TextureBinding,
    second: &TextureBinding,
    frame: Frame,
)
    requires
        !context@.frame_open,
    ensures
        ({
            let (opened, started) = Frame::new_spec(context, first);
            let (still, refused) = Frame::new_spec(opened, second);
            let (closed, submitted) = still.end_frame_spec(frame);
            &&& started is Call
            &&& opened@.frame_open
            &&& refused == Step::<FrameOpening, Result<Frame, OculusError>>::Done(
                Err(OculusError::FrameInProgress),
            )
            &&& still == opened
            &&& submitted is Some
            &&& closed == context
            &&& Frame::new_spec(closed, second).1 is Call
        }),
{
}

/// What a rendering context suggests as texture sizes, and the fields of
/// view and eye offsets it was configured with, stay as they are when a
/// frame is started, refused or closed.
pub proof fn lemma_configuration_is_stable(
    context: RenderContext,
    binding: &TextureBinding,
    frame: Frame,
)
    ensures
        Frame::new_spec(context, binding).0@.eye_texture_sizes == context@.eye_texture_sizes,
        Frame::new_spec(context, binding).0@.fovs == context@.fovs,
        Frame::new_spec(context, binding).0@.offsets == context@.offsets,
        Frame::new_spec(context, binding).0@.owning_hmd == context@.owning_hmd,
        context.end_frame_spec(frame).0@.eye_texture_sizes == context@.eye_texture_sizes,
        context.end_frame_spec(frame).0@.fovs == context@.fovs,
        context.end_frame_spec(frame).0@.offsets == context@.offsets,
        context.end_frame_spec(frame).0@.owning_hmd == context@.owning_hmd,
{
}

/// The projection of an eye depends on the eye only through its field of
/// view: two eyes with the same field of view, in the same context or in
/// two, under whichever labels, lead to the same call for the same clip
/// planes, and what is made of the runtime's answer does not look at the
/// eye at all.
pub proof fn lemma_projection_ignores_eye_labels(
    one: RenderContext,
    one_eye: Eye,
    other: RenderContext,
    other_eye: Eye,
    near_z: ffi::FloatBits,
    far_z: ffi::FloatBits,
)
    requires
        one@.fovs[one_eye.index_spec()] == other@.fovs[other_eye.index_spec()],
    ensures
        one.projection_matrix_spec(one_eye, near_z, far_z) == other.projection_matrix_spec(
            other_eye,
            near_z,
            far_z,
        ),
{
}

/// Where the opening of a session ends up when the calls from `step` on are
/// answered with `replies`, one after the other, for as long as there is a
/// call and a reply.
pub open spec fn run_opening(
    step: Step<SessionOpening, Result<Session, OculusError>>,
    replies: Seq<NativeReply>,
) -> Step<SessionOpening, Result<Session, OculusError>>
    decreases replies.len(),
{
    match step {
        Step::Done(_) => step,
        Step::Call(_, state) => if replies.len() == 0 {
            step
        } else {
            run_opening(state.resume_spec(replies[0]), replies.drop_first())
        },
    }
}

/// When a session is opened.
///
/// If a headset is required and the probe finds none, the opening fails
/// with `NoDeviceFound` on the probe's answer: the runtime is never asked
/// to create a session, so there is none to give back.
///
/// If no headset is required the runtime is asked to create the session at
/// once, whatever is connected. Then, and after a probe that has found a
/// headset, a successful creation and a description that names two eyes
/// lead to a session: it has the handle the runtime gave, the description,
/// the eyes in the runtime's render order, and of each eye the offset the
/// runtime reported for it.
pub proof fn lemma_session_opening(
    context: Rc<Context>,
    found: ffi::ovrDetectResult,
    status: ffi::ovrResult,
    session: ffi::ovrSession,
    luid: ffi::ovrGraphicsLuid,
    desc: ffi::ovrHmdDesc,
    left: ffi::ovrEyeRenderDesc,
    right: ffi::ovrEyeRenderDesc,
)
    ensures
        Session::new_spec(true, context) matches Step::Call(call, _) && call == (
        NativeCall::Detect { timeout_ms: 0 }),
        Session::new_spec(false, context) matches Step::Call(call, _) && call
            == NativeCall::Create,
        found.IsOculusHMDConnected != ffi::ovrTrue ==> run_opening(
            Session::new_spec(true, context),
            seq![NativeReply::Detected(found)],
        ) == Step::<SessionOpening, Result<Session, OculusError>>::Done(
            Err(OculusError::NoDeviceFound),
        ),
        status > 0 && render_order_spec(desc.EyeRenderOrder) is Some ==> {
            let opened = Step::<SessionOpening, Result<Session, OculusError>>::Done(
                Ok(
                    Session {
                        session,
                        eye_offsets: [left.HmdToEyeViewOffset, right.HmdToEyeViewOffset],
                        desc,
                        render_order: render_order_spec(desc.EyeRenderOrder)->Some_0,
                        context,
                    },
                ),
            );
            let replies = seq![
                NativeReply::Created { status, session, luid },
                NativeReply::HmdDesc(desc),
                NativeReply::RenderDesc(left),
                NativeReply::RenderDesc(right),
            ];
            &&& run_opening(Session::new_spec(false, context), replies) == opened
            &&& found.IsOculusHMDConnected == ffi::ovrTrue ==> run_opening(
                Session::new_spec(true, context),
                seq![NativeReply::Detected(found)] + replies,
            ) == opened
        },
{
    reveal_with_fuel(run_opening, 6);
    if found.IsOculusHMDConnected != ffi::ovrTrue {
        let probe = seq![NativeReply::Detected(found)];
        assert(probe.drop_first().len() == 0);
    }
    if status > 0 && render_order_spec(desc.EyeRenderOrder) is Some {
        let r0 = NativeReply::Created { status, session, luid };
        let r1 = NativeReply::HmdDesc(desc);
        let r2 = NativeReply::RenderDesc(left);
        let r3 = NativeReply::RenderDesc(right);
        let replies = seq![r0, r1, r2, r3];
        assert(replies.drop_first() =~= seq![r1, r2, r3]);
        assert(seq![r1, r2, r3].drop_first() =~= seq![r2, r3]);
        assert(seq![r2, r3].drop_first() =~= seq![r3]);
        assert(seq![r3].drop_first() =~= Seq::<NativeReply>::empty());
        if found.IsOculusHMDConnected == ffi::ovrTrue {
            let probed = seq![NativeReply::Detected(found)] + replies;
            assert(probed.drop_first() =~= replies);
        }
    }
}

/// Where a creation and the flag end up when the calls from `step` on are
/// answered with `replies`, one after the other, for as long as there is a
/// call and a reply.
pub open spec fn run_startup(
    step: Step<Startup, Result<Context, OculusError>>,
    active: bool,
    replies: Seq<NativeReply>,
) -> (Step<Startup, Result<Context, OculusError>>, bool)
    decreases replies.len(),
{
    match step {
        Step::Done(_) => (step, active),
        Step::Call(_, state) => if replies.len() == 0 {
            (step, active)
        } else {
            let next = state.resume_spec(replies[0]);
            run_startup(
                next,
                active && !(next matches Step::Done(Err(_))),
                replies.drop_first(),
            )
        },
    }
}

/// Where a shutdown and the flag end up when the calls from `step` on have
/// returned, `turns` of them at most.
pub open spec fn run_teardown(step: Step<Teardown, Result<(), Fatal>>, active: bool, turns: nat) -> (
    Step<Teardown, Result<(), Fatal>>,
    bool,
)
    decreases turns,
{
    match step {
        Step::Done(_) => (step, active),
        Step::Call(_, state) => if turns == 0 {
            (step, active)
        } else {
            run_teardown(
                state.resume_spec(active),
                active && state is Unloading,
                (turns - 1) as nat,
            )
        },
    }
}

/// However a creation that has claimed the flag goes on, the flag is set
/// for as long as it runs and after it has produced a context, and clear
/// after it has failed.
pub proof fn lemma_flag_follows_creation(
    step: Step<Startup, Result<Context, OculusError>>,
    replies: Seq<NativeReply>,
)
    requires
        !(step matches Step::Done(Err(_))),
    ensures
        run_startup(step, true, replies).1 == !(run_startup(step, true, replies).0 matches Step::Done(
            Err(_),
        )),
    decreases replies.len(),
{
    match step {
        Step::Done(_) => {},
        Step::Call(_, state) => {
            if replies.len() > 0 {
                let next = state.resume_spec(replies[0]);
                if next matches Step::Done(Err(_)) {
                    assert(run_startup(next, false, replies.drop_first()) == (next, false));
                } else {
                    lemma_flag_follows_creation(next, replies.drop_first());
                }
            }
        },
    }
}

/// What a loader that answers each lookup with the matching entry of
/// `answers` replies, one reply for each lookup.
pub open spec fn resolved_replies(answers: ffi::table::Resolutions) -> Seq<NativeReply> {
    Seq::new(answers.len(), |i: int| NativeReply::Resolved(answers[i]))
}

proof fn lemma_startup_resolves(
    state: TableLoading,
    call: NativeCall,
    answers: ffi::table::Resolutions,
    rest: Seq<NativeReply>,
)
    requires
        state.resolved < ffi::table::SYMBOL_COUNT,
        answers.len() == ffi::table::SYMBOL_COUNT - state.resolved,
        forall|i: int| 0 <= i < answers.len() ==> (#[trigger] answers[i]) is Ok,
    ensures
        run_startup(
            Step::Call(call, Startup::Resolving(state)),
            true,
            resolved_replies(answers) + rest,
        ) == run_startup(
            Startup::resolving(ffi::table::run_load(Step::Call(call, state), answers)),
            true,
            rest,
        ),
    decreases answers.len(),
{
    let replies = resolved_replies(answers) + rest;
    assert(replies[0] == NativeReply::Resolved(answers[0]));
    assert(answers[0] is Ok);
    let inner = state.resume_spec(NativeReply::Resolved(answers[0]));
    let later = answers.drop_first();
    assert(replies.drop_first() =~= resolved_replies(later) + rest);
    assert(ffi::table::run_load(Step::Call(call, state), answers) == ffi::table::run_load(
        inner,
        later,
    ));
    if state.resolved + 1 < ffi::table::SYMBOL_COUNT {
        assert forall|i: int| 0 <= i < later.len() implies (#[trigger] later[i]) is Ok by {
            assert(answers[i + 1] is Ok);
        }
        lemma_startup_resolves(inner->Call_1, inner->Call_0, later, rest);
    } else {
        assert(later.len() == 0);
        assert(resolved_replies(later) + rest =~= rest);
        assert(ffi::table::run_load(inner, later) == inner);
    }
}

/// When a context is created.
///
/// If the flag is clear, the library loads, every entry point resolves and
/// the runtime's initialization reports success, the creation produces a
/// context and leaves the flag set. The context's function table holds the
/// library's handle and the resolved addresses in table order.
pub proof fn lemma_creation_succeeds(
    library: LibraryName,
    handle: usize,
    answers: ffi::table::Resolutions,
    status: ffi::ovrResult,
)
    requires
        answers.len() == ffi::table::SYMBOL_COUNT,
        forall|i: int| 0 <= i < answers.len() ==> (#[trigger] answers[i]) is Ok,
        status > 0,
    ensures
        ({
            let end = run_startup(
                Context::new_spec(false, library),
                true,
                seq![NativeReply::Loaded(Ok(handle))] + resolved_replies(answers)
                    + seq![NativeReply::Status(status)],
            );
            &&& end.1
            &&& end.0 matches Step::Done(Ok(context))
            &&& context.function_table.lib.handle == handle
            &&& forall|i: int|
                0 <= i < ffi::table::SYMBOL_COUNT ==> #[trigger] context.function_table.ptrs[i]
                    == answers[i]->Ok_0
        }),
{
    let first = NativeReply::Loaded(Ok(handle));
    let last = seq![NativeReply::Status(status)];
    let replies = seq![first] + resolved_replies(answers) + last;
    let lib = UnsafeDynamicLibrary { handle };
    let loading = FunctionTable::load_spec(lib);
    assert(replies[0] == first);
    assert(replies.drop_first() =~= resolved_replies(answers) + last);
    assert(Startup::Loading.resume_spec(first) == Startup::resolving(loading));
    assert(run_startup(Context::new_spec(false, library), true, replies) == run_startup(
        Startup::resolving(loading),
        true,
        resolved_replies(answers) + last,
    ));
    lemma_startup_resolves(loading->Call_1, loading->Call_0, answers, last);
    ffi::table::lemma_load_is_all_or_nothing(lib, answers);
    let loaded = ffi::table::run_load(loading, answers);
    let table = loaded->Done_0->Ok_0;
    assert(last.drop_first().len() == 0);
    reveal_with_fuel(run_startup, 3);
}

/// One context per process.
///
/// A creation that finds the flag set fails with `DuplicateContext` and
/// leaves the flag set. A creation that finds it clear goes on to load the
/// library, and leaves the flag set exactly if it produces a context. The
/// shutdown of a context clears the flag and ends well if the flag was set,
/// so that the next creation is not refused.
pub proof fn lemma_one_context_per_process(
    library: LibraryName,
    replies: Seq<NativeReply>,
    context: Context,
)
    ensures
        Context::new_spec(true, library) == Step::<Startup, Result<Context, OculusError>>::Done(
            Err(OculusError::DuplicateContext),
        ),
        Context::new_spec(false, library) is Call,
        run_startup(Context::new_spec(false, library), true, replies).1 == !(run_startup(
            Context::new_spec(false, library),
            true,
            replies,
        ).0 matches Step::Done(Err(_))),
        run_teardown(context.shutdown_spec(), true, 2) == (
            Step::<Teardown, Result<(), Fatal>>::Done(Ok(())),
            false,
        ),
        run_teardown(context.shutdown_spec(), false, 2) == (
            Step::<Teardown, Result<(), Fatal>>::Done(Err(Fatal::ContextFlagClear)),
            false,
        ),
{
    lemma_flag_follows_creation(Context::new_spec(false, library), replies);
    reveal_with_fuel(run_teardown, 3);
}

} // verus!
