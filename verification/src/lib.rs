//! Verified core of a binding layer for the Oculus runtime: capability sets,
//! ABI layouts, the function table, and the context, session and rendering
//! protocols, each stated as a contract over plain values.
//!
//! Nothing in this crate calls into the runtime. A protocol hands out the
//! next `NativeCall` to perform and takes the `NativeReply` that came back;
//! the caller owns the loaded library and performs the calls.

#![allow(non_snake_case)]

pub mod ffi;
pub mod render;
pub mod shim;
pub mod target;

use crate::ffi::dynamic_lib::{LibraryName, Platform};
use crate::ffi::flags::FlagKind;
use crate::ffi::flags::{
    ovrHmdCap_DisplayOff, ovrHmdCap_DynamicPrediction, ovrHmdCap_LowPersistence,
    ovrHmdCap_NoMirrorToWindow, ovrHmdCap_NoVSync, ovrTrackingCap_MagYawCorrection,
    ovrTrackingCap_Orientation, ovrTrackingCap_Position,
};
use crate::ffi::table::{NativeCall, NativeReply, Step};
use crate::shim::{ContextFlag, CreateRenderContext, SessionOpening, StatusPending};
use std::rc::Rc;
use vstd::prelude::*;

pub use crate::shim::HmdDisplay;
pub use crate::shim::HmdDisplayId;

verus! {

/// Error produced while interacting with a wrapped Oculus device.
#[derive(Clone, Debug, PartialEq, Eq)]
pub enum OculusError {
    /// The runtime library could not be located or loaded, with the loader's
    /// text. This probably means a supported version of the runtime is not
    /// installed.
    RuntimeNotFound(String),
    /// An expected entry point is missing from the loaded library, with the
    /// loader's text: the installed runtime has another ABI version.
    SymbolNotFound(String),
    /// A call into the runtime reported failure. The runtime gives no further
    /// detail; the string names the entry point that was called.
    SdkError(&'static str),
    /// Only one `Context` can be active at a time per process. This error
    /// occurs when attempting to create a second `Context` while a `Context`
    /// is already active.
    DuplicateContext,
    /// A headset was required and none is connected.
    NoDeviceFound,
    /// A frame was requested while the previous one is still open.
    FrameInProgress,
}

impl OculusError {
    /// What the error says of itself: the loader's text where it carries
    /// one, the name of the entry point followed by ` failed` for a failed
    /// call, and a fixed sentence otherwise.
    pub open spec fn message_spec(self) -> Seq<char> {
        match self {
            OculusError::RuntimeNotFound(description) => description@,
            OculusError::SymbolNotFound(description) => description@,
            OculusError::SdkError(operation) => operation@ + " failed"@,
            OculusError::DuplicateContext => "Context creation failed because another Context is already active in this process"@,
            OculusError::NoDeviceFound => "No headset is connected"@,
            OculusError::FrameInProgress => "A frame is already open"@,
        }
    }

    pub fn message(&self) -> (text: String)
        ensures
            text@ == self.message_spec(),
    {
        match self {
            OculusError::RuntimeNotFound(description) => description.clone(),
            OculusError::SymbolNotFound(description) => description.clone(),
            OculusError::SdkError(operation) => {
                let mut text = String::from_str(operation);
                text.append(" failed");
                text
            },
            OculusError::DuplicateContext => String::from_str(
                "Context creation failed because another Context is already active in this process",
            ),
            OculusError::NoDeviceFound => String::from_str("No headset is connected"),
            OculusError::FrameInProgress => String::from_str("A frame is already open"),
        }
    }
}

/// One of the two eyes. The left eye has index 0, the right eye index 1.
#[derive(Clone, Copy, Debug, PartialEq, Eq, Structural)]
pub enum Eye {
    Left,
    Right,
}

impl Eye {
    /// The index the runtime knows the eye by.
    pub open spec fn index_spec(self) -> int {
        match self {
            Eye::Left => 0,
            Eye::Right => 1,
        }
    }

    /// The eye with the given index: 0 is the left eye, 1 the right eye, and
    /// no other index names an eye.
    pub open spec fn from_index_spec(index: u32) -> Option<Eye> {
        if index == 0 {
            Some(Eye::Left)
        } else if index == 1 {
            Some(Eye::Right)
        } else {
            None
        }
    }

    pub fn index(&self) -> (i: usize)
        ensures
            i == self.index_spec(),
    {
        match self {
            Eye::Left => 0,
            Eye::Right => 1,
        }
    }

    pub fn from_index(index: u32) -> (eye: Option<Eye>)
        ensures
            eye == Eye::from_index_spec(index),
    {
        if index == 0 {
            Some(Eye::Left)
        } else if index == 1 {
            Some(Eye::Right)
        } else {
            None
        }
    }
}

/// A target window to bind headset rendering to.
pub trait RenderTarget {
    /// Number of samples used for MSAA.
    fn get_multisample(&self) -> u32;

    /// The address of the native window handle for this window, zero for
    /// none. It need not be set on any platform except Windows. The handle
    /// must stay valid for as long as anything renders to this target.
    fn get_native_window(&self) -> usize;
}

/// Oculus SDK context. Ensures the Oculus SDK has been initialized properly,
/// and serves as a factory for builders that give access to the HMD.
#[derive(Debug, PartialEq, Eq)]
pub struct Context {
    pub shim_context: Rc<shim::Context>,
}

/// Where the creation of a `Context` stands.
#[derive(Debug, PartialEq, Eq)]
pub struct ContextOpening {
    pub startup: shim::Startup,
}

impl Context {
    /// The step of a creation whose startup stands at `step`.
    pub open spec fn opening(step: Step<shim::Startup, Result<shim::Context, OculusError>>) -> Step<
        ContextOpening,
        Result<Context, OculusError>,
    > {
        match step {
            Step::Call(call, startup) => Step::Call(call, ContextOpening { startup }),
            Step::Done(Ok(context)) => Step::Done(Ok(Context { shim_context: Rc::new(context) })),
            Step::Done(Err(error)) => Step::Done(Err(error)),
        }
    }

    fn after_startup(step: Step<shim::Startup, Result<shim::Context, OculusError>>) -> (next: Step<
        ContextOpening,
        Result<Context, OculusError>,
    >)
        ensures
            next == Context::opening(step),
    {
        match step {
            Step::Call(call, startup) => Step::Call(call, ContextOpening { startup }),
            Step::Done(Ok(context)) => Step::Done(Ok(Context { shim_context: Rc::new(context) })),
            Step::Done(Err(error)) => Step::Done(Err(error)),
        }
    }

    /// Starts the creation of a new Oculus SDK context, from the given
    /// runtime library.
    ///
    /// # Failure
    ///
    /// Only one `Context` can be active per process. If the flag is set, a
    /// `Context` is already active, and this fails with
    /// `Err(OculusError::DuplicateContext)`. Otherwise the flag is set from
    /// now on. Note that `Hmd`s hold an internal reference to their
    /// associated context.
    pub fn new(flag: &mut ContextFlag, library: LibraryName) -> (step: Step<
        ContextOpening,
        Result<Context, OculusError>,
    >)
        ensures
            step == Context::opening(shim::Context::new_spec(old(flag)@, library)),
            final(flag)@,
    {
        Context::after_startup(shim::Context::new(flag, library))
    }

    /// Create a builder for an HMD: low persistence and dynamic prediction
    /// are on, nothing is tracked, and a headset is required.
    pub fn build_hmd(&self) -> (builder: HmdBuilder)
        ensures
            builder@ == (HmdBuilderView {
                caps: ovrHmdCap_LowPersistence | ovrHmdCap_DynamicPrediction,
                track_caps: 0,
                allow_debug: false,
                owning_context: self.shim_context,
            }),
    {
        HmdBuilder::new(self.shim_context.clone())
    }

    /// Gives up the context. The shutdown of the runtime starts if no `Hmd`
    /// holds on to it any more; otherwise there is nothing to do yet.
    pub fn release(self) -> (step: Step<shim::Teardown, Result<(), shim::Fatal>>)
        ensures
            step == self.shim_context.shutdown_spec() || step == Step::<
                shim::Teardown,
                Result<(), shim::Fatal>,
            >::Done(Ok(())),
    {
        shim::Context::release(self.shim_context)
    }
}

impl ContextOpening {
    /// The function table the pending call goes through: there is one once
    /// every entry point is resolved.
    pub fn invoker(&self) -> (table: Option<&ffi::table::FunctionTable>)
        ensures
            table == match self.startup {
                shim::Startup::Initializing(function_table) => Some(&function_table),
                _ => None,
            },
    {
        self.startup.invoker()
    }

    /// Takes the reply to the pending call, as the startup does. When the
    /// creation ends in an error the flag is cleared; in every other case
    /// it is left as it is.
    pub fn resume(self, flag: &mut ContextFlag, reply: NativeReply) -> (step: Step<
        ContextOpening,
        Result<Context, OculusError>,
    >)
        ensures
            step == Context::opening(self.startup.resume_spec(reply)),
            final(flag)@ == (old(flag)@ && !(step matches Step::Done(Err(_)))),
    {
        Context::after_startup(self.startup.resume(flag, reply))
    }
}

/// Options for specifying the enabled tracking capabilities of a headset.
#[derive(Debug, PartialEq, Eq)]
pub struct TrackingOptions {
    track_caps: ffi::ovrTrackingCaps,
}

impl TrackingOptions {
    /// The bits of the enabled tracking capabilities.
    pub closed spec fn view(self) -> u32 {
        self.track_caps@
    }

    /// `TrackingOptions` with no tracking options enabled.
    pub fn new() -> (options: TrackingOptions)
        ensures
            options@ == 0,
    {
        TrackingOptions { track_caps: ffi::ovrTrackingCaps::empty() }
    }

    /// `TrackingOptions` with all supported tracking options enabled:
    /// orientation, yaw drift correction and position.
    pub fn with_all() -> (options: TrackingOptions)
        ensures
            options@ == ovrTrackingCap_Orientation | ovrTrackingCap_MagYawCorrection
                | ovrTrackingCap_Position,
    {
        proof {
            ffi::flags::lemma_named_flags_are_defined();
        }
        let mut track_caps = ffi::ovrTrackingCaps::empty();
        track_caps.insert(ovrTrackingCap_Orientation);
        track_caps.insert(ovrTrackingCap_MagYawCorrection);
        track_caps.insert(ovrTrackingCap_Position);
        assert(track_caps@ == ovrTrackingCap_Orientation | ovrTrackingCap_MagYawCorrection
            | ovrTrackingCap_Position) by {
            let o = ovrTrackingCap_Orientation;
            let m = ovrTrackingCap_MagYawCorrection;
            let p = ovrTrackingCap_Position;
            assert(((0u32 | o) | m) | p == o | m | p) by (bit_vector);
        }
        TrackingOptions { track_caps }
    }

    /// Enable tracking of head position.
    pub fn position<'f>(&'f mut self) -> (options: &'f mut TrackingOptions)
        ensures
            options@ == old(self)@ | ovrTrackingCap_Position,
            *final(self) == *final(options),
    {
        proof {
            ffi::flags::lemma_named_flags_are_defined();
        }
        self.track_caps.insert(ovrTrackingCap_Position);
        self
    }

    /// Enable tracking of head orientation.
    pub fn orientation<'f>(&'f mut self) -> (options: &'f mut TrackingOptions)
        ensures
            options@ == old(self)@ | ovrTrackingCap_Orientation,
            *final(self) == *final(options),
    {
        proof {
            ffi::flags::lemma_named_flags_are_defined();
        }
        self.track_caps.insert(ovrTrackingCap_Orientation);
        self
    }

    /// Enable yaw drift correction.
    pub fn mag_yaw_correct<'f>(&'f mut self) -> (options: &'f mut TrackingOptions)
        ensures
            options@ == old(self)@ | ovrTrackingCap_MagYawCorrection,
            *final(self) == *final(options),
    {
        proof {
            ffi::flags::lemma_named_flags_are_defined();
        }
        self.track_caps.insert(ovrTrackingCap_MagYawCorrection);
        self
    }

    /// The bits of the enabled tracking capabilities.
    pub fn bits(&self) -> (bits: u32)
        ensures
            bits == self@,
    {
        self.track_caps.bits()
    }
}

/// Builder to construct an HMD. Allows the configuration of HMD settings
/// and tracking capabilities.
#[derive(Debug, PartialEq, Eq)]
pub struct HmdBuilder {
    caps: ffi::ovrHmdCaps,
    track_caps: ffi::ovrTrackingCaps,
    allow_debug: bool,
    owning_context: Rc<shim::Context>,
}

/// What an `HmdBuilder` holds.
pub struct HmdBuilderView {
    /// The bits of the capabilities to enable.
    pub caps: u32,
    /// The bits of the tracking capabilities to enable.
    pub track_caps: u32,
    /// Whether a simulated headset will do.
    pub allow_debug: bool,
    pub owning_context: Rc<shim::Context>,
}

impl HmdBuilder {
    pub closed spec fn view(self) -> HmdBuilderView {
        HmdBuilderView {
            caps: self.caps@,
            track_caps: self.track_caps@,
            allow_debug: self.allow_debug,
            owning_context: self.owning_context,
        }
    }

    fn new(owning_context: Rc<shim::Context>) -> (builder: HmdBuilder)
        ensures
            builder@ == (HmdBuilderView {
                caps: ovrHmdCap_LowPersistence | ovrHmdCap_DynamicPrediction,
                track_caps: 0,
                allow_debug: false,
                owning_context,
            }),
    {
        proof {
            ffi::flags::lemma_named_flags_are_defined();
        }
        let mut default_caps = ffi::ovrHmdCaps::empty();
        default_caps.insert(ovrHmdCap_LowPersistence);
        default_caps.insert(ovrHmdCap_DynamicPrediction);
        assert(default_caps@ == ovrHmdCap_LowPersistence | ovrHmdCap_DynamicPrediction) by {
            let l = ovrHmdCap_LowPersistence;
            let d = ovrHmdCap_DynamicPrediction;
            assert((0u32 | l) | d == l | d) by (bit_vector);
        }
        HmdBuilder {
            caps: default_caps,
            track_caps: ffi::ovrTrackingCaps::empty(),
            allow_debug: false,
            owning_context,
        }
    }

    /// Disables mirroring of HMD output to the attached window. This may
    /// improve rendering performance slightly.
    pub fn no_mirror<'f>(&'f mut self) -> (builder: &'f mut HmdBuilder)
        ensures
            builder@ == (HmdBuilderView {
                caps: old(self)@.caps | ovrHmdCap_NoMirrorToWindow,
                ..old(self)@
            }),
            *final(self) == *final(builder),
    {
        proof {
            ffi::flags::lemma_named_flags_are_defined();
        }
        self.caps.insert(ovrHmdCap_NoMirrorToWindow);
        self
    }

    /// Turns off HMD screen and output (only if the HMD is not in Direct
    /// display mode).
    pub fn no_display<'f>(&'f mut self) -> (builder: &'f mut HmdBuilder)
        ensures
            builder@ == (HmdBuilderView {
                caps: old(self)@.caps | ovrHmdCap_DisplayOff,
                ..old(self)@
            }),
            *final(self) == *final(builder),
    {
        proof {
            ffi::flags::lemma_named_flags_are_defined();
        }
        self.caps.insert(ovrHmdCap_DisplayOff);
        self
    }

    /// Disable low persistence.
    pub fn no_low_persistence<'f>(&'f mut self) -> (builder: &'f mut HmdBuilder)
        ensures
            builder@ == (HmdBuilderView {
                caps: old(self)@.caps & !ovrHmdCap_LowPersistence,
                ..old(self)@
            }),
            *final(self) == *final(builder),
    {
        self.caps.remove(ovrHmdCap_LowPersistence);
        self
    }

    /// Disable dynamic adjustment of tracking prediction based on
    /// internally measured latency.
    pub fn no_dynamic_prediction<'f>(&'f mut self) -> (builder: &'f mut HmdBuilder)
        ensures
            builder@ == (HmdBuilderView {
                caps: old(self)@.caps & !ovrHmdCap_DynamicPrediction,
                ..old(self)@
            }),
            *final(self) == *final(builder),
    {
        self.caps.remove(ovrHmdCap_DynamicPrediction);
        self
    }

    /// Disable VSync.
    pub fn no_vsync<'f>(&'f mut self) -> (builder: &'f mut HmdBuilder)
        ensures
            builder@ == (HmdBuilderView { caps: old(self)@.caps | ovrHmdCap_NoVSync, ..old(self)@ }),
            *final(self) == *final(builder),
    {
        proof {
            ffi::flags::lemma_named_flags_are_defined();
        }
        self.caps.insert(ovrHmdCap_NoVSync);
        self
    }

    /// Enable tracking with the specified tracking options, in place of
    /// whatever was to be tracked before.
    pub fn track<'f>(&'f mut self, tracking_options: &TrackingOptions) -> (builder:
        &'f mut HmdBuilder)
        ensures
            builder@ == (HmdBuilderView { track_caps: tracking_options@, ..old(self)@ }),
            *final(self) == *final(builder),
    {
        self.track_caps = tracking_options.track_caps;
        self
    }

    /// Allow creation of a dummy "debug" HMD if no other HMD is found.
    pub fn allow_debug<'f>(&'f mut self) -> (builder: &'f mut HmdBuilder)
        ensures
            builder@ == (HmdBuilderView { allow_debug: true, ..old(self)@ }),
            *final(self) == *final(builder),
    {
        self.allow_debug = true;
        self
    }

    /// Starts building the HMD instance. This will begin tracking if
    /// tracking is enabled.
    pub fn build(&self) -> (step: Step<HmdOpening, Result<Hmd, OculusError>>)
        ensures
            step == Hmd::new_spec(
                self@.caps,
                self@.track_caps,
                self@.allow_debug,
                self@.owning_context,
            ),
    {
        Hmd::new(self.caps, self.track_caps, self.allow_debug, self.owning_context.clone())
    }
}

/// An initialized HMD.
#[derive(Debug, PartialEq, Eq)]
pub struct Hmd {
    pub shim_hmd: shim::Session,
}

/// Where the building of an `Hmd` stands. Capabilities are held by their
/// bits.
#[derive(Debug, PartialEq, Eq)]
pub enum HmdOpening {
    /// The session is being opened.
    Opening { opening: SessionOpening, caps: u32, track_caps: u32 },
    /// The capabilities are being enabled.
    SettingCaps { session: shim::Session, track_caps: u32 },
    /// Tracking is being configured.
    Tracking { session: shim::Session, pending: StatusPending },
    /// The building has failed and the session is being destroyed.
    Destroying { error: OculusError },
}

impl Hmd {
    /// The step of a building whose session stands at `step`: once the
    /// session is open, its capabilities are enabled.
    pub open spec fn opening(
        step: Step<SessionOpening, Result<shim::Session, OculusError>>,
        caps: u32,
        track_caps: u32,
    ) -> Step<HmdOpening, Result<Hmd, OculusError>> {
        match step {
            Step::Call(call, opening) => Step::Call(
                call,
                HmdOpening::Opening { opening, caps, track_caps },
            ),
            Step::Done(Ok(session)) => Step::Call(
                NativeCall::SetEnabledCaps { session: session.session, caps },
                HmdOpening::SettingCaps { session, track_caps },
            ),
            Step::Done(Err(error)) => Step::Done(Err(error)),
        }
    }

    /// The step of a building whose tracking configuration stands at
    /// `step`: if tracking cannot be configured, the session is destroyed
    /// before the building fails.
    pub open spec fn tracking(
        session: shim::Session,
        step: Step<StatusPending, Result<(), OculusError>>,
    ) -> Step<HmdOpening, Result<Hmd, OculusError>> {
        match step {
            Step::Call(call, pending) => Step::Call(call, HmdOpening::Tracking { session, pending }),
            Step::Done(Ok(())) => Step::Done(Ok(Hmd { shim_hmd: session })),
            Step::Done(Err(error)) => Step::Call(
                NativeCall::Destroy { session: session.session },
                HmdOpening::Destroying { error },
            ),
        }
    }

    pub open spec fn new_spec(
        caps: u32,
        track_caps: u32,
        allow_debug: bool,
        owning_context: Rc<shim::Context>,
    ) -> Step<HmdOpening, Result<Hmd, OculusError>> {
        Hmd::opening(shim::Session::new_spec(!allow_debug, owning_context), caps, track_caps)
    }

    fn new(
        caps: ffi::ovrHmdCaps,
        track_caps: ffi::ovrTrackingCaps,
        allow_debug: bool,
        owning_context: Rc<shim::Context>,
    ) -> (step: Step<HmdOpening, Result<Hmd, OculusError>>)
        ensures
            step == Hmd::new_spec(caps@, track_caps@, allow_debug, owning_context),
    {
        Hmd::after_session(
            shim::Session::new(!allow_debug, owning_context),
            caps.bits(),
            track_caps.bits(),
        )
    }

    fn after_session(
        step: Step<SessionOpening, Result<shim::Session, OculusError>>,
        caps: u32,
        track_caps: u32,
    ) -> (next: Step<HmdOpening, Result<Hmd, OculusError>>)
        ensures
            next == Hmd::opening(step, caps, track_caps),
    {
        match step {
            Step::Call(call, opening) => Step::Call(
                call,
                HmdOpening::Opening { opening, caps, track_caps },
            ),
            Step::Done(Ok(session)) => Step::Call(
                NativeCall::SetEnabledCaps { session: session.session, caps },
                HmdOpening::SettingCaps { session, track_caps },
            ),
            Step::Done(Err(error)) => Step::Done(Err(error)),
        }
    }

    fn after_tracking(
        session: shim::Session,
        step: Step<StatusPending, Result<(), OculusError>>,
    ) -> (next: Step<HmdOpening, Result<Hmd, OculusError>>)
        ensures
            next == Hmd::tracking(session, step),
    {
        match step {
            Step::Call(call, pending) => Step::Call(call, HmdOpening::Tracking { session, pending }),
            Step::Done(Ok(())) => Step::Done(Ok(Hmd { shim_hmd: session })),
            Step::Done(Err(error)) => Step::Call(
                session.close(),
                HmdOpening::Destroying { error },
            ),
        }
    }

    /// Starts the configuration of rendering to the given target; see
    /// `RenderContext::new`.
    pub fn render_to<'a, T: RenderTarget>(&'a self, target: &'a T, platform: Platform) -> (step:
        Step<shim::RenderSetup<'a>, Result<render::RenderContext<'a>, OculusError>>)
        ensures
            exists|multisample: u32, native_window: usize|
                step == shim::RenderContext::configure_spec(
                    &self.shim_hmd,
                    multisample,
                    native_window,
                    platform,
                ),
    {
        render::RenderContext::new(&self.shim_hmd, target, platform)
    }

    /// Returns a `(width, height)` pair representing the native resolution
    /// of the HMD.
    pub fn resolution(&self) -> (size: (u32, u32))
        ensures
            size.0 == self.shim_hmd.desc.Resolution.w as u32,
            size.1 == self.shim_hmd.desc.Resolution.h as u32,
    {
        self.shim_hmd.resolution()
    }

    /// Return details about the display representing this headset, as the
    /// given platform's windowing system knows it.
    pub fn get_display(&self, platform: Platform) -> (display: HmdDisplay)
        ensures
            display.x == self.shim_hmd.desc.WindowsPos.x,
            display.y == self.shim_hmd.desc.WindowsPos.y,
            display.width == self.shim_hmd.desc.Resolution.w as u32,
            display.height == self.shim_hmd.desc.Resolution.h as u32,
            match platform {
                Platform::Windows => display.id matches HmdDisplayId::Name(name) && name@
                    == self.shim_hmd.desc.DisplayDeviceName@,
                Platform::MacOs => display.id == HmdDisplayId::Numeric(
                    self.shim_hmd.desc.DisplayId as u32,
                ),
                Platform::Linux => display.id == HmdDisplayId::Unavailable,
            },
    {
        self.shim_hmd.get_display(platform)
    }

    /// Whether the runtime backs this HMD with a simulated headset.
    pub fn is_debug(&self) -> (debug: bool)
        ensures
            debug == self.shim_hmd.is_debug_spec(),
    {
        self.shim_hmd.is_debug()
    }

    /// Ends the HMD: the call that destroys its session.
    pub fn close(self) -> (call: NativeCall)
        ensures
            call == (NativeCall::Destroy { session: self.shim_hmd.session }),
    {
        self.shim_hmd.close()
    }
}

impl HmdOpening {
    /// What follows the reply to the pending call.
    ///
    /// - Opening: as the session's opening goes.
    /// - SettingCaps: the call returns nothing. If no tracking capability
    ///   is asked for, the HMD is built, and no call is made to configure
    ///   tracking; otherwise tracking is configured. Bits that name no
    ///   tracking capability count for nothing.
    /// - Tracking: on success the HMD is built; else the session is
    ///   destroyed, to fail with `SdkError`.
    /// - Destroying: the building ends with the error that led here.
    pub open spec fn resume_spec(self, reply: NativeReply) -> Step<
        HmdOpening,
        Result<Hmd, OculusError>,
    > {
        match self {
            HmdOpening::Opening { opening, caps, track_caps } => Hmd::opening(
                opening.resume_spec(reply),
                caps,
                track_caps,
            ),
            HmdOpening::SettingCaps { session, track_caps } => if track_caps
                & ffi::flags::TrackingCapKind::mask() == 0 {
                Step::Done(Ok(Hmd { shim_hmd: session }))
            } else {
                Hmd::tracking(
                    session,
                    session.configure_tracking_spec(
                        track_caps & ffi::flags::TrackingCapKind::mask(),
                    ),
                )
            },
            HmdOpening::Tracking { session, pending } => Hmd::tracking(
                session,
                pending.resume_spec(reply),
            ),
            HmdOpening::Destroying { error } => Step::Done(Err(error)),
        }
    }

    pub fn resume(self, reply: NativeReply) -> (step: Step<HmdOpening, Result<Hmd, OculusError>>)
        ensures
            step == self.resume_spec(reply),
    {
        match self {
            HmdOpening::Opening { opening, caps, track_caps } => Hmd::after_session(
                opening.resume(reply),
                caps,
                track_caps,
            ),
            HmdOpening::SettingCaps { session, track_caps } => {
                let track_caps = ffi::ovrTrackingCaps::from_bits_truncate(track_caps);
                if !track_caps.is_empty() {
                    let configuring = session.configure_tracking(track_caps);
                    Hmd::after_tracking(session, configuring)
                } else {
                    Step::Done(Ok(Hmd { shim_hmd: session }))
                }
            },
            HmdOpening::Tracking { session, pending } => Hmd::after_tracking(
                session,
                pending.resume(reply),
            ),
            HmdOpening::Destroying { error } => Step::Done(Err(error)),
        }
    }
}

} // verus!
