//! The function table: the fixed list of entry points resolved from the
//! runtime library, and the calls made through them, as values.
//!
//! Nothing here performs a call. A `NativeCall` says which entry point is to
//! be invoked with which arguments; whoever holds the resolved pointers
//! performs it and hands back the matching `NativeReply`.

#![allow(non_camel_case_types, non_snake_case)]

use crate::ffi::dynamic_lib::{LibraryName, UnsafeDynamicLibrary};
use crate::OculusError;
use crate::ffi::{
    ovrBool, ovrDetectResult, ovrEyeRenderDesc, ovrFovPort, ovrGLConfig, ovrGLTexture,
    ovrGraphicsLuid, ovrHmdDesc, ovrInitParams, ovrMatrix4f, ovrPosef, ovrResult, ovrSession,
    ovrSizei, ovrTrackingState, ovrVector3f, DoubleBits, FloatBits,
};
use vstd::prelude::*;

verus! {

/// An entry point of the runtime library.
#[derive(Clone, Copy, Debug, PartialEq, Eq, Structural)]
pub enum Symbol {
    Detect,
    Initialize,
    Shutdown,
    Create,
    Destroy,
    GetHmdDesc,
    ConfigureTracking,
    RecenterPose,
    GetFovTextureSize,
    GetRenderDesc,
    CreateMirrorTextureGL,
    DestroyMirrorTexture,
    CreateSwapTextureSetGL,
    DestroySwapTextureSet,
    GetPredictedDisplayTime,
    GetTrackingState,
    CalcEyePoses,
    SubmitFrame,
    Projection,
    SetEnabledCaps,
    ConfigureRendering,
    AttachToWindow,
    BeginFrame,
    GetEyePoses,
    EndFrame,
    DismissHSWDisplay,
}

/// How many entry points the table holds.
pub const SYMBOL_COUNT: usize = 26;

impl Symbol {
    /// The position of the entry point in the table.
    pub open spec fn index_spec(self) -> nat {
        match self {
            Symbol::Detect => 0,
            Symbol::Initialize => 1,
            Symbol::Shutdown => 2,
            Symbol::Create => 3,
            Symbol::Destroy => 4,
            Symbol::GetHmdDesc => 5,
            Symbol::ConfigureTracking => 6,
            Symbol::RecenterPose => 7,
            Symbol::GetFovTextureSize => 8,
            Symbol::GetRenderDesc => 9,
            Symbol::CreateMirrorTextureGL => 10,
            Symbol::DestroyMirrorTexture => 11,
            Symbol::CreateSwapTextureSetGL => 12,
            Symbol::DestroySwapTextureSet => 13,
            Symbol::GetPredictedDisplayTime => 14,
            Symbol::GetTrackingState => 15,
            Symbol::CalcEyePoses => 16,
            Symbol::SubmitFrame => 17,
            Symbol::Projection => 18,
            Symbol::SetEnabledCaps => 19,
            Symbol::ConfigureRendering => 20,
            Symbol::AttachToWindow => 21,
            Symbol::BeginFrame => 22,
            Symbol::GetEyePoses => 23,
            Symbol::EndFrame => 24,
            Symbol::DismissHSWDisplay => 25,
        }
    }

    /// The exported name of the entry point.
    pub open spec fn name_spec(self) -> &'static str {
        match self {
            Symbol::Detect => "ovr_Detect",
            Symbol::Initialize => "ovr_Initialize",
            Symbol::Shutdown => "ovr_Shutdown",
            Symbol::Create => "ovr_Create",
            Symbol::Destroy => "ovr_Destroy",
            Symbol::GetHmdDesc => "ovr_GetHmdDesc",
            Symbol::ConfigureTracking => "ovr_ConfigureTracking",
            Symbol::RecenterPose => "ovr_RecenterPose",
            Symbol::GetFovTextureSize => "ovr_GetFovTextureSize",
            Symbol::GetRenderDesc => "ovr_GetRenderDesc",
            Symbol::CreateMirrorTextureGL => "ovr_CreateMirrorTextureGL",
            Symbol::DestroyMirrorTexture => "ovr_DestroyMirrorTexture",
            Symbol::CreateSwapTextureSetGL => "ovr_CreateSwapTextureSetGL",
            Symbol::DestroySwapTextureSet => "ovr_DestroySwapTextureSet",
            Symbol::GetPredictedDisplayTime => "ovr_GetPredictedDisplayTime",
            Symbol::GetTrackingState => "ovr_GetTrackingState",
            Symbol::CalcEyePoses => "ovr_CalcEyePoses",
            Symbol::SubmitFrame => "ovr_SubmitFrame",
            Symbol::Projection => "ovrMatrix4f_Projection",
            Symbol::SetEnabledCaps => "ovrHmd_SetEnabledCaps",
            Symbol::ConfigureRendering => "ovrHmd_ConfigureRendering",
            Symbol::AttachToWindow => "ovrHmd_AttachToWindow",
            Symbol::BeginFrame => "ovrHmd_BeginFrame",
            Symbol::GetEyePoses => "ovrHmd_GetEyePoses",
            Symbol::EndFrame => "ovrHmd_EndFrame",
            Symbol::DismissHSWDisplay => "ovrHmd_DismissHSWDisplay",
        }
    }

    /// The entry point at a position of the table.
    pub open spec fn at_spec(index: nat) -> Symbol {
        if index == 0 {
            Symbol::Detect
        } else if index == 1 {
            Symbol::Initialize
        } else if index == 2 {
            Symbol::Shutdown
        } else if index == 3 {
            Symbol::Create
        } else if index == 4 {
            Symbol::Destroy
        } else if index == 5 {
            Symbol::GetHmdDesc
        } else if index == 6 {
            Symbol::ConfigureTracking
        } else if index == 7 {
            Symbol::RecenterPose
        } else if index == 8 {
            Symbol::GetFovTextureSize
        } else if index == 9 {
            Symbol::GetRenderDesc
        } else if index == 10 {
            Symbol::CreateMirrorTextureGL
        } else if index == 11 {
            Symbol::DestroyMirrorTexture
        } else if index == 12 {
            Symbol::CreateSwapTextureSetGL
        } else if index == 13 {
            Symbol::DestroySwapTextureSet
        } else if index == 14 {
            Symbol::GetPredictedDisplayTime
        } else if index == 15 {
            Symbol::GetTrackingState
        } else if index == 16 {
            Symbol::CalcEyePoses
        } else if index == 17 {
            Symbol::SubmitFrame
        } else if index == 18 {
            Symbol::Projection
        } else if index == 19 {
            Symbol::SetEnabledCaps
        } else if index == 20 {
            Symbol::ConfigureRendering
        } else if index == 21 {
            Symbol::AttachToWindow
        } else if index == 22 {
            Symbol::BeginFrame
        } else if index == 23 {
            Symbol::GetEyePoses
        } else if index == 24 {
            Symbol::EndFrame
        } else {
            Symbol::DismissHSWDisplay
        }
    }

    pub fn index(&self) -> (i: usize)
        ensures
            i == self.index_spec(),
            i < SYMBOL_COUNT,
    {
        match self {
            Symbol::Detect => 0,
            Symbol::Initialize => 1,
            Symbol::Shutdown => 2,
            Symbol::Create => 3,
            Symbol::Destroy => 4,
            Symbol::GetHmdDesc => 5,
            Symbol::ConfigureTracking => 6,
            Symbol::RecenterPose => 7,
            Symbol::GetFovTextureSize => 8,
            Symbol::GetRenderDesc => 9,
            Symbol::CreateMirrorTextureGL => 10,
            Symbol::DestroyMirrorTexture => 11,
            Symbol::CreateSwapTextureSetGL => 12,
            Symbol::DestroySwapTextureSet => 13,
            Symbol::GetPredictedDisplayTime => 14,
            Symbol::GetTrackingState => 15,
            Symbol::CalcEyePoses => 16,
            Symbol::SubmitFrame => 17,
            Symbol::Projection => 18,
            Symbol::SetEnabledCaps => 19,
            Symbol::ConfigureRendering => 20,
            Symbol::AttachToWindow => 21,
            Symbol::BeginFrame => 22,
            Symbol::GetEyePoses => 23,
            Symbol::EndFrame => 24,
            Symbol::DismissHSWDisplay => 25,
        }
    }

    pub fn name(&self) -> (n: &'static str)
        ensures
            n == self.name_spec(),
    {
        match self {
            Symbol::Detect => "ovr_Detect",
            Symbol::Initialize => "ovr_Initialize",
            Symbol::Shutdown => "ovr_Shutdown",
            Symbol::Create => "ovr_Create",
            Symbol::Destroy => "ovr_Destroy",
            Symbol::GetHmdDesc => "ovr_GetHmdDesc",
            Symbol::ConfigureTracking => "ovr_ConfigureTracking",
            Symbol::RecenterPose => "ovr_RecenterPose",
            Symbol::GetFovTextureSize => "ovr_GetFovTextureSize",
            Symbol::GetRenderDesc => "ovr_GetRenderDesc",
            Symbol::CreateMirrorTextureGL => "ovr_CreateMirrorTextureGL",
            Symbol::DestroyMirrorTexture => "ovr_DestroyMirrorTexture",
            Symbol::CreateSwapTextureSetGL => "ovr_CreateSwapTextureSetGL",
            Symbol::DestroySwapTextureSet => "ovr_DestroySwapTextureSet",
            Symbol::GetPredictedDisplayTime => "ovr_GetPredictedDisplayTime",
            Symbol::GetTrackingState => "ovr_GetTrackingState",
            Symbol::CalcEyePoses => "ovr_CalcEyePoses",
            Symbol::SubmitFrame => "ovr_SubmitFrame",
            Symbol::Projection => "ovrMatrix4f_Projection",
            Symbol::SetEnabledCaps => "ovrHmd_SetEnabledCaps",
            Symbol::ConfigureRendering => "ovrHmd_ConfigureRendering",
            Symbol::AttachToWindow => "ovrHmd_AttachToWindow",
            Symbol::BeginFrame => "ovrHmd_BeginFrame",
            Symbol::GetEyePoses => "ovrHmd_GetEyePoses",
            Symbol::EndFrame => "ovrHmd_EndFrame",
            Symbol::DismissHSWDisplay => "ovrHmd_DismissHSWDisplay",
        }
    }

    /// The entry point at a position of the table, if there is one.
    pub fn at(index: usize) -> (s: Option<Symbol>)
        ensures
            index < SYMBOL_COUNT ==> s == Some(Symbol::at_spec(index as nat)),
            index >= SYMBOL_COUNT ==> s is None,
    {
        if index == 0 {
            Some(Symbol::Detect)
        } else if index == 1 {
            Some(Symbol::Initialize)
        } else if index == 2 {
            Some(Symbol::Shutdown)
        } else if index == 3 {
            Some(Symbol::Create)
        } else if index == 4 {
            Some(Symbol::Destroy)
        } else if index == 5 {
            Some(Symbol::GetHmdDesc)
        } else if index == 6 {
            Some(Symbol::ConfigureTracking)
        } else if index == 7 {
            Some(Symbol::RecenterPose)
        } else if index == 8 {
            Some(Symbol::GetFovTextureSize)
        } else if index == 9 {
            Some(Symbol::GetRenderDesc)
        } else if index == 10 {
            Some(Symbol::CreateMirrorTextureGL)
        } else if index == 11 {
            Some(Symbol::DestroyMirrorTexture)
        } else if index == 12 {
            Some(Symbol::CreateSwapTextureSetGL)
        } else if index == 13 {
            Some(Symbol::DestroySwapTextureSet)
        } else if index == 14 {
            Some(Symbol::GetPredictedDisplayTime)
        } else if index == 15 {
            Some(Symbol::GetTrackingState)
        } else if index == 16 {
            Some(Symbol::CalcEyePoses)
        } else if index == 17 {
            Some(Symbol::SubmitFrame)
        } else if index == 18 {
            Some(Symbol::Projection)
        } else if index == 19 {
            Some(Symbol::SetEnabledCaps)
        } else if index == 20 {
            Some(Symbol::ConfigureRendering)
        } else if index == 21 {
            Some(Symbol::AttachToWindow)
        } else if index == 22 {
            Some(Symbol::BeginFrame)
        } else if index == 23 {
            Some(Symbol::GetEyePoses)
        } else if index == 24 {
            Some(Symbol::EndFrame)
        } else if index == 25 {
            Some(Symbol::DismissHSWDisplay)
        } else {
            None
        }
    }
}

/// Positions and entry points correspond one to one: the table has one slot
/// for each entry point and no two entry points share a slot.
pub proof fn lemma_symbol_positions(s: Symbol, index: nat)
    ensures
        s.index_spec() < SYMBOL_COUNT,
        Symbol::at_spec(s.index_spec()) == s,
        index < SYMBOL_COUNT ==> Symbol::at_spec(index).index_spec() == index,
{
}

} // verus!

verus! {

/// A request to the platform: to the dynamic loader, or through an entry
/// point of the function table.
///
/// Sessions, libraries, texture sets and windows are named by the address of
/// their native object.
#[allow(inconsistent_fields)]
#[derive(Clone, Copy, Debug, PartialEq, Eq)]
pub enum NativeCall {
    /// Load the runtime library, or with `None` open the process itself.
    LoadLibrary { library: Option<LibraryName> },
    /// Look up an entry point in a loaded library.
    ResolveSymbol { library: usize, symbol: Symbol },
    /// Unload a library. Every pointer resolved from it dies with it.
    UnloadLibrary { library: usize },
    Detect { timeout_ms: i32 },
    Initialize { params: ovrInitParams },
    Shutdown,
    Create,
    Destroy { session: ovrSession },
    GetHmdDesc { session: ovrSession },
    SetEnabledCaps { session: ovrSession, caps: u32 },
    ConfigureTracking { session: ovrSession, supported: u32, required: u32 },
    RecenterPose { session: ovrSession },
    DismissHSWDisplay { session: ovrSession },
    GetFovTextureSize {
        session: ovrSession,
        eye: i32,
        fov: ovrFovPort,
        pixels_per_display_pixel: FloatBits,
    },
    GetRenderDesc { session: ovrSession, eye: i32, fov: ovrFovPort },
    CreateSwapTextureSetGL { session: ovrSession, format: u32, width: i32, height: i32 },
    DestroySwapTextureSet { session: ovrSession, texture_set: usize },
    GetPredictedDisplayTime { session: ovrSession, frame_index: i64 },
    GetTrackingState { session: ovrSession, abs_time: DoubleBits, latency_marker: ovrBool },
    CalcEyePoses { head_pose: ovrPosef, offsets: [ovrVector3f; 2] },
    Projection { fov: ovrFovPort, znear: FloatBits, zfar: FloatBits, flags: u32 },
    /// With `None` for the configuration, the runtime's renderer is shut down.
    ConfigureRendering {
        session: ovrSession,
        config: Option<ovrGLConfig>,
        distortion_caps: u32,
        fov: [ovrFovPort; 2],
    },
    AttachToWindow { session: ovrSession, window: usize },
    BeginFrame { session: ovrSession, frame_index: u32 },
    GetEyePoses { session: ovrSession, frame_index: u32, offsets: [ovrVector3f; 2] },
    EndFrame { session: ovrSession, poses: [ovrPosef; 2], textures: [ovrGLTexture; 2] },
}

/// What came back from a `NativeCall`.
#[derive(Debug, PartialEq, Eq)]
pub enum NativeReply {
    /// The call returns nothing.
    Nothing,
    /// The handle of the loaded library, or the loader's error text.
    Loaded(Result<usize, String>),
    /// The address of the entry point, or the loader's error text.
    Resolved(Result<usize, String>),
    /// A status code, or a native boolean widened to one.
    Status(ovrResult),
    Detected(ovrDetectResult),
    Created { status: ovrResult, session: ovrSession, luid: ovrGraphicsLuid },
    HmdDesc(ovrHmdDesc),
    TextureSize(ovrSizei),
    RenderDesc(ovrEyeRenderDesc),
    /// The new texture set's address, the GL names of its textures in ring
    /// order, and the ring position the runtime starts at.
    SwapTextureSet { status: ovrResult, texture_set: usize, textures: Vec<u32>, current: i32 },
    DisplayTime(DoubleBits),
    TrackingState(ovrTrackingState),
    EyePoses([ovrPosef; 2]),
    Matrix(ovrMatrix4f),
    RenderingConfigured { status: ovrResult, eye_render_desc: [ovrEyeRenderDesc; 2] },
}

/// One turn of a protocol with the platform: either a call to perform, with
/// the state that takes its reply, or the protocol's result.
#[derive(Debug, PartialEq, Eq)]
pub enum Step<S, T> {
    Call(NativeCall, S),
    Done(T),
}

impl NativeCall {
    /// The entry point a call goes through; `None` for the requests that do
    /// not go through the function table.
    pub open spec fn entry_spec(self) -> Option<Symbol> {
        match self {
            NativeCall::LoadLibrary { .. } => None,
            NativeCall::ResolveSymbol { .. } => None,
            NativeCall::UnloadLibrary { .. } => None,
            NativeCall::Detect { .. } => Some(Symbol::Detect),
            NativeCall::Initialize { .. } => Some(Symbol::Initialize),
            NativeCall::Shutdown => Some(Symbol::Shutdown),
            NativeCall::Create => Some(Symbol::Create),
            NativeCall::Destroy { .. } => Some(Symbol::Destroy),
            NativeCall::GetHmdDesc { .. } => Some(Symbol::GetHmdDesc),
            NativeCall::SetEnabledCaps { .. } => Some(Symbol::SetEnabledCaps),
            NativeCall::ConfigureTracking { .. } => Some(Symbol::ConfigureTracking),
            NativeCall::RecenterPose { .. } => Some(Symbol::RecenterPose),
            NativeCall::DismissHSWDisplay { .. } => Some(Symbol::DismissHSWDisplay),
            NativeCall::GetFovTextureSize { .. } => Some(Symbol::GetFovTextureSize),
            NativeCall::GetRenderDesc { .. } => Some(Symbol::GetRenderDesc),
            NativeCall::CreateSwapTextureSetGL { .. } => Some(Symbol::CreateSwapTextureSetGL),
            NativeCall::DestroySwapTextureSet { .. } => Some(Symbol::DestroySwapTextureSet),
            NativeCall::GetPredictedDisplayTime { .. } => Some(Symbol::GetPredictedDisplayTime),
            NativeCall::GetTrackingState { .. } => Some(Symbol::GetTrackingState),
            NativeCall::CalcEyePoses { .. } => Some(Symbol::CalcEyePoses),
            NativeCall::Projection { .. } => Some(Symbol::Projection),
            NativeCall::ConfigureRendering { .. } => Some(Symbol::ConfigureRendering),
            NativeCall::AttachToWindow { .. } => Some(Symbol::AttachToWindow),
            NativeCall::BeginFrame { .. } => Some(Symbol::BeginFrame),
            NativeCall::GetEyePoses { .. } => Some(Symbol::GetEyePoses),
            NativeCall::EndFrame { .. } => Some(Symbol::EndFrame),
        }
    }

    pub fn entry(&self) -> (s: Option<Symbol>)
        ensures
            s == self.entry_spec(),
    {
        match self {
            NativeCall::LoadLibrary { .. } => None,
            NativeCall::ResolveSymbol { .. } => None,
            NativeCall::UnloadLibrary { .. } => None,
            NativeCall::Detect { .. } => Some(Symbol::Detect),
            NativeCall::Initialize { .. } => Some(Symbol::Initialize),
            NativeCall::Shutdown => Some(Symbol::Shutdown),
            NativeCall::Create => Some(Symbol::Create),
            NativeCall::Destroy { .. } => Some(Symbol::Destroy),
            NativeCall::GetHmdDesc { .. } => Some(Symbol::GetHmdDesc),
            NativeCall::SetEnabledCaps { .. } => Some(Symbol::SetEnabledCaps),
            NativeCall::ConfigureTracking { .. } => Some(Symbol::ConfigureTracking),
            NativeCall::RecenterPose { .. } => Some(Symbol::RecenterPose),
            NativeCall::DismissHSWDisplay { .. } => Some(Symbol::DismissHSWDisplay),
            NativeCall::GetFovTextureSize { .. } => Some(Symbol::GetFovTextureSize),
            NativeCall::GetRenderDesc { .. } => Some(Symbol::GetRenderDesc),
            NativeCall::CreateSwapTextureSetGL { .. } => Some(Symbol::CreateSwapTextureSetGL),
            NativeCall::DestroySwapTextureSet { .. } => Some(Symbol::DestroySwapTextureSet),
            NativeCall::GetPredictedDisplayTime { .. } => Some(Symbol::GetPredictedDisplayTime),
            NativeCall::GetTrackingState { .. } => Some(Symbol::GetTrackingState),
            NativeCall::CalcEyePoses { .. } => Some(Symbol::CalcEyePoses),
            NativeCall::Projection { .. } => Some(Symbol::Projection),
            NativeCall::ConfigureRendering { .. } => Some(Symbol::ConfigureRendering),
            NativeCall::AttachToWindow { .. } => Some(Symbol::AttachToWindow),
            NativeCall::BeginFrame { .. } => Some(Symbol::BeginFrame),
            NativeCall::GetEyePoses { .. } => Some(Symbol::GetEyePoses),
            NativeCall::EndFrame { .. } => Some(Symbol::EndFrame),
        }
    }
}

impl NativeReply {
    /// The status a reply carries, for the calls that report one.
    pub open spec fn status_spec(self) -> Option<ovrResult> {
        match self {
            NativeReply::Status(status) => Some(status),
            NativeReply::Created { status, .. } => Some(status),
            NativeReply::SwapTextureSet { status, .. } => Some(status),
            NativeReply::RenderingConfigured { status, .. } => Some(status),
            _ => None,
        }
    }

    /// Whether the reply reports that the call went through: it carries a
    /// status, and the status is a success.
    pub open spec fn succeeded(self) -> bool {
        self.status_spec() matches Some(status) && status > 0
    }

    pub fn status(&self) -> (s: Option<ovrResult>)
        ensures
            s == self.status_spec(),
    {
        match self {
            NativeReply::Status(status) => Some(*status),
            NativeReply::Created { status, .. } => Some(*status),
            NativeReply::SwapTextureSet { status, .. } => Some(*status),
            NativeReply::RenderingConfigured { status, .. } => Some(*status),
            _ => None,
        }
    }
}

/// The resolved entry points of a loaded runtime library, in table order.
/// The table owns the library: unloading goes through `into_library`, after
/// which the table, and with it every pointer, is gone.
#[derive(Debug, PartialEq, Eq)]
pub struct FunctionTable {
    pub ptrs: [usize; 26],
    pub lib: UnsafeDynamicLibrary,
}

/// A function table under construction: the library, the entry points
/// resolved so far, and how many they are. Slots past `resolved` hold zero.
#[derive(Debug, PartialEq, Eq)]
pub struct TableLoading {
    pub ptrs: [usize; 26],
    pub resolved: usize,
    pub lib: UnsafeDynamicLibrary,
}

/// Why a function table could not be built, with the library handed back so
/// that it can be unloaded.
pub type LoadFailure = (OculusError, UnsafeDynamicLibrary);

impl FunctionTable {
    pub fn pointer(&self, symbol: Symbol) -> (address: usize)
        ensures
            address == self.ptrs[symbol.index_spec() as int],
    {
        self.ptrs[symbol.index()]
    }

    /// Gives up the table for its library, which can then be unloaded.
    pub fn into_library(self) -> (lib: UnsafeDynamicLibrary)
        ensures
            lib == self.lib,
    {
        self.lib
    }

    pub open spec fn load_spec(lib: UnsafeDynamicLibrary) -> Step<
        TableLoading,
        Result<FunctionTable, LoadFailure>,
    > {
        Step::Call(
            NativeCall::ResolveSymbol { library: lib.handle, symbol: Symbol::Detect },
            TableLoading { ptrs: no_pointers(), resolved: 0, lib },
        )
    }

    /// Starts resolving every entry point from `lib`, eagerly and in table
    /// order: the first request is for the first entry point.
    pub fn load(lib: UnsafeDynamicLibrary) -> (step: Step<
        TableLoading,
        Result<FunctionTable, LoadFailure>,
    >)
        ensures
            step == FunctionTable::load_spec(lib),
    {
        let ptrs = [0usize;26];
        proof {
            vstd::array::axiom_spec_array_fill_for_copy_type::<usize, 26>(0usize);
            assert(ptrs =~= no_pointers());
        }
        Step::Call(
            NativeCall::ResolveSymbol { library: lib.handle, symbol: Symbol::Detect },
            TableLoading { ptrs, resolved: 0, lib },
        )
    }
}

/// A table with no entry point resolved: every slot is zero.
pub open spec fn no_pointers() -> [usize; 26] {
    vstd::array::spec_array_fill_for_copy_type::<usize, 26>(0usize)
}

impl TableLoading {
    /// What follows the reply to the pending request.
    ///
    /// - An address fills the next slot. If that was the last slot the table
    ///   is complete; otherwise the next entry point is requested.
    /// - The loader's error ends the construction with `SymbolNotFound`,
    ///   carrying the loader's text: no partial table is ever produced.
    /// - Any other reply ends it with `SdkError` naming the entry point.
    pub open spec fn resume_spec(self, reply: NativeReply) -> Step<
        TableLoading,
        Result<FunctionTable, LoadFailure>,
    > {
        match reply {
            NativeReply::Resolved(Ok(address)) => {
                if self.resolved + 1 < SYMBOL_COUNT {
                    Step::Call(
                        NativeCall::ResolveSymbol {
                            library: self.lib.handle,
                            symbol: Symbol::at_spec((self.resolved + 1) as nat),
                        },
                        TableLoading {
                            ptrs: vstd::array::spec_array_update(
                                self.ptrs,
                                self.resolved as int,
                                address,
                            ),
                            resolved: (self.resolved + 1) as usize,
                            lib: self.lib,
                        },
                    )
                } else if self.resolved < SYMBOL_COUNT {
                    Step::Done(
                        Ok(
                            FunctionTable {
                                ptrs: vstd::array::spec_array_update(
                                    self.ptrs,
                                    self.resolved as int,
                                    address,
                                ),
                                lib: self.lib,
                            },
                        ),
                    )
                } else {
                    Step::Done(Ok(FunctionTable { ptrs: self.ptrs, lib: self.lib }))
                }
            },
            NativeReply::Resolved(Err(text)) => Step::Done(
                Err((OculusError::SymbolNotFound(text), self.lib)),
            ),
            _ => Step::Done(
                Err(
                    (
                        OculusError::SdkError(Symbol::at_spec(self.resolved as nat).name_spec()),
                        self.lib,
                    ),
                ),
            ),
        }
    }

    pub fn resume(self, reply: NativeReply) -> (step: Step<
        TableLoading,
        Result<FunctionTable, LoadFailure>,
    >)
        ensures
            step == self.resume_spec(reply),
    {
        let TableLoading { ptrs, resolved, lib } = self;
        match reply {
            NativeReply::Resolved(Ok(address)) => {
                if resolved < SYMBOL_COUNT - 1 {
                    let mut ptrs = ptrs;
                    ptrs[resolved] = address;
                    let next = Symbol::at(resolved + 1);
                    match next {
                        Some(symbol) => Step::Call(
                            NativeCall::ResolveSymbol { library: lib.handle, symbol },
                            TableLoading { ptrs, resolved: resolved + 1, lib },
                        ),
                        None => Step::Done(Ok(FunctionTable { ptrs, lib })),
                    }
                } else if resolved < SYMBOL_COUNT {
                    let mut ptrs = ptrs;
                    ptrs[resolved] = address;
                    Step::Done(Ok(FunctionTable { ptrs, lib }))
                } else {
                    Step::Done(Ok(FunctionTable { ptrs, lib }))
                }
            },
            NativeReply::Resolved(Err(text)) => Step::Done(
                Err((OculusError::SymbolNotFound(text), lib)),
            ),
            _ => {
                let name = match Symbol::at(resolved) {
                    Some(symbol) => symbol.name(),
                    None => Symbol::DismissHSWDisplay.name(),
                };
                Step::Done(Err((OculusError::SdkError(name), lib)))
            },
        }
    }
}

/// What the loader answered to each request of a table's construction, in
/// the order of the requests.
pub type Resolutions = Seq<Result<usize, String>>;

/// Where a construction ends up when the loader answers the requests from
/// `step` on with `answers`, one after the other, for as long as there is a
/// request and an answer.
pub open spec fn run_load(
    step: Step<TableLoading, Result<FunctionTable, LoadFailure>>,
    answers: Resolutions,
) -> Step<TableLoading, Result<FunctionTable, LoadFailure>>
    decreases answers.len(),
{
    match step {
        Step::Done(_) => step,
        Step::Call(_, state) => if answers.len() == 0 {
            step
        } else {
            run_load(
                state.resume_spec(NativeReply::Resolved(answers[0])),
                answers.drop_first(),
            )
        },
    }
}

proof fn lemma_run_load_from(state: TableLoading, call: NativeCall, answers: Resolutions)
    requires
        state.resolved < SYMBOL_COUNT,
        answers.len() >= SYMBOL_COUNT - state.resolved,
    ensures
        (forall|i: int| 0 <= i < SYMBOL_COUNT - state.resolved ==> (#[trigger] answers[i]) is Ok)
            ==> (run_load(Step::Call(call, state), answers) matches Step::Done(Ok(table))
            && table.lib == state.lib && (forall|i: int|
            0 <= i < state.resolved ==> table.ptrs[i] == state.ptrs[i]) && (forall|i: int|
            0 <= i < SYMBOL_COUNT - state.resolved ==> #[trigger] table.ptrs[state.resolved + i]
                == answers[i]->Ok_0)),
        forall|k: int|
            0 <= k < SYMBOL_COUNT - state.resolved && (#[trigger] answers[k]) is Err && (forall|
                i: int,
            |
                0 <= i < k ==> (#[trigger] answers[i]) is Ok) ==> run_load(
                Step::Call(call, state),
                answers,
            ) == Step::<TableLoading, Result<FunctionTable, LoadFailure>>::Done(
                Err((OculusError::SymbolNotFound(answers[k]->Err_0), state.lib)),
            ),
    decreases SYMBOL_COUNT - state.resolved,
{
    broadcast use vstd::array::axiom_spec_array_update;
    broadcast use vstd::array::lemma_array_index;
    broadcast use vstd::array::array_len_matches_n;

    let next = state.resume_spec(NativeReply::Resolved(answers[0]));
    let rest = answers.drop_first();
    assert(run_load(Step::Call(call, state), answers) == run_load(next, rest));
    match answers[0] {
        Err(text) => {
            assert(run_load(next, rest) == next);
            assert forall|k: int|
                0 <= k < SYMBOL_COUNT - state.resolved && (#[trigger] answers[k]) is Err && (forall|
                    i: int,
                |
                    0 <= i < k ==> (#[trigger] answers[i]) is Ok) implies k == 0 by {
                if k > 0 {
                    assert(answers[0] is Ok);
                }
            }
        },
        Ok(address) => {
            let filled = vstd::array::spec_array_update(state.ptrs, state.resolved as int, address);
            assert(filled@ == state.ptrs@.update(state.resolved as int, address));
            assert(forall|i: int| 0 <= i < 26 ==> filled[i] == filled@[i]);
            assert(forall|i: int| 0 <= i < 26 ==> state.ptrs[i] == state.ptrs@[i]);
            if state.resolved + 1 < SYMBOL_COUNT {
                let after = next->Call_1;
                lemma_run_load_from(after, next->Call_0, rest);
                assert(forall|i: int| 0 <= i < rest.len() ==> rest[i] == answers[i + 1]);
                if forall|i: int|
                    0 <= i < SYMBOL_COUNT - state.resolved ==> (#[trigger] answers[i]) is Ok {
                    assert forall|i: int| 0 <= i < SYMBOL_COUNT - after.resolved implies (
                    #[trigger] rest[i]) is Ok by {
                        assert(answers[i + 1] is Ok);
                    }
                    let table = run_load(next, rest)->Done_0->Ok_0;
                    assert forall|i: int| 0 <= i < SYMBOL_COUNT - state.resolved implies #[trigger]
                    table.ptrs[state.resolved + i] == answers[i]->Ok_0 by {
                        if i == 0 {
                            assert(table.ptrs[state.resolved as int] == after.ptrs[state.resolved as int]);
                        } else {
                            assert(table.ptrs[after.resolved + (i - 1)] == rest[i - 1]->Ok_0);
                        }
                    }
                }
                assert forall|k: int|
                    0 <= k < SYMBOL_COUNT - state.resolved && (#[trigger] answers[k]) is Err && (
                    forall|i: int| 0 <= i < k ==> (#[trigger] answers[i]) is Ok) implies run_load(
                    Step::Call(call, state),
                    answers,
                ) == Step::<TableLoading, Result<FunctionTable, LoadFailure>>::Done(
                    Err((OculusError::SymbolNotFound(answers[k]->Err_0), state.lib)),
                ) by {
                    assert(k > 0);
                    assert(rest[k - 1] is Err);
                    assert forall|i: int| 0 <= i < k - 1 implies (#[trigger] rest[i]) is Ok by {
                        assert(answers[i + 1] is Ok);
                    }
                }
            } else {
                assert(run_load(next, rest) == next);
                assert forall|k: int|
                    0 <= k < SYMBOL_COUNT - state.resolved && (#[trigger] answers[k]) is Err
                    implies false by {
                    assert(k == 0);
                }
            }
        },
    }
}

/// A table is built if and only if every entry point resolves, and then it
/// holds the resolved addresses in table order. Otherwise the construction
/// ends at the first entry point that does not resolve, with that lookup's
/// error text, and hands the library back.
pub proof fn lemma_load_is_all_or_nothing(lib: UnsafeDynamicLibrary, answers: Resolutions)
    requires
        answers.len() >= SYMBOL_COUNT,
    ensures
        (forall|i: int| 0 <= i < SYMBOL_COUNT ==> (#[trigger] answers[i]) is Ok) ==> (run_load(
            FunctionTable::load_spec(lib),
            answers,
        ) matches Step::Done(Ok(table)) && table.lib == lib && (forall|i: int|
            0 <= i < SYMBOL_COUNT ==> #[trigger] table.ptrs[i] == answers[i]->Ok_0)),
        forall|k: int|
            0 <= k < SYMBOL_COUNT && (#[trigger] answers[k]) is Err && (forall|i: int|
                0 <= i < k ==> (#[trigger] answers[i]) is Ok) ==> run_load(
                FunctionTable::load_spec(lib),
                answers,
            ) == Step::<TableLoading, Result<FunctionTable, LoadFailure>>::Done(
                Err((OculusError::SymbolNotFound(answers[k]->Err_0), lib)),
            ),
{
    let start = FunctionTable::load_spec(lib);
    lemma_run_load_from(start->Call_1, start->Call_0, answers);
    if forall|i: int| 0 <= i < SYMBOL_COUNT ==> (#[trigger] answers[i]) is Ok {
        let table = run_load(start, answers)->Done_0->Ok_0;
        assert forall|i: int| 0 <= i < SYMBOL_COUNT implies #[trigger] table.ptrs[i]
            == answers[i]->Ok_0 by {
            assert(table.ptrs[0 + i] == answers[i]->Ok_0);
        }
    }
}

} // verus!
