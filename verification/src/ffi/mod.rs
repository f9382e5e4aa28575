//! Value types, status codes and the call vocabulary exchanged with the
//! native runtime.
//!
//! Everything here is a plain value. Floating-point quantities are carried as
//! their IEEE-754 bit patterns (`FloatBits`, `DoubleBits`): this layer moves
//! them between the runtime and the caller and never computes on them.
//! Native pointers are carried as address-sized integers.

#![allow(dead_code, non_upper_case_globals, non_camel_case_types, non_snake_case)]

pub mod dynamic_lib;
pub mod flags;
pub mod layout;
pub mod table;

use vstd::prelude::*;

pub use crate::ffi::dynamic_lib::UnsafeDynamicLibrary;
pub use crate::ffi::flags::{
    ovrDistortionCaps, ovrHmdCaps, ovrInitFlags, ovrLayerFlags, ovrProjectionModifier,
    ovrTrackingCaps,
};

verus! {

/// Native boolean: one byte, zero for false.
pub type ovrBool = u8;

pub const ovrFalse: ovrBool = 0;

pub const ovrTrue: ovrBool = 1;

/// Native status code.
pub type ovrResult = i32;

pub const ovrSuccess_Unqualified: ovrResult = 0;

pub const ovrSuccess_NotVisible: ovrResult = 1000;

pub const ovrSuccess_HMDFirmwareMismatch: ovrResult = 4100;

pub const ovrSuccess_TrackerFirmwareMismatch: ovrResult = 4101;

pub const ovrSuccess_ControllerFirmwareMismatch: ovrResult = 4104;

/// Whether a status code reports success: exactly the positive codes. A
/// native boolean widened to a status code is a success when it is true.
pub fn ovrSuccess(r: ovrResult) -> (ok: bool)
    ensures
        ok == (r > 0),
{
    r > 0
}

/// Whether a status code is the plain success code, with no qualification.
pub fn ovrUnqualifiedSuccess(r: ovrResult) -> (ok: bool)
    ensures
        ok == (r == ovrSuccess_Unqualified),
{
    r == ovrSuccess_Unqualified
}

/// Whether a status code reports failure: the negation of `ovrSuccess`.
pub fn ovrFailure(r: ovrResult) -> (failed: bool)
    ensures
        failed == (r <= 0),
{
    !ovrSuccess(r)
}

/// A single-precision value, as its bit pattern.
pub type FloatBits = u32;

/// A double-precision value, as its bit pattern.
pub type DoubleBits = u64;

/// The bit pattern of 0.0.
pub const FLOAT_ZERO: FloatBits = 0;

/// The bit pattern of 1.0.
pub const FLOAT_ONE: FloatBits = 0x3F80_0000;

/// The runtime's own state behind a session. Never inspected on this side.
#[derive(Debug)]
pub struct ovrHmdStruct;

/// The address of the runtime's session state; zero is no session.
pub type ovrSession = usize;

#[derive(Clone, Copy, Debug, PartialEq, Eq, Structural)]
pub struct ovrFovPort {
    pub UpTan: FloatBits,
    pub DownTan: FloatBits,
    pub LeftTan: FloatBits,
    pub RightTan: FloatBits,
}

#[derive(Clone, Copy, Debug, PartialEq, Eq, Structural)]
pub struct ovrSizei {
    pub w: i32,
    pub h: i32,
}

#[derive(Clone, Copy, Debug, PartialEq, Eq, Structural)]
pub struct ovrVector2i {
    pub x: i32,
    pub y: i32,
}

#[derive(Clone, Copy, Debug, PartialEq, Eq, Structural)]
pub struct ovrRecti {
    pub Pos: ovrVector2i,
    pub Size: ovrSizei,
}

#[derive(Clone, Copy, Debug, PartialEq, Eq, Structural)]
pub struct ovrVector2f {
    pub x: FloatBits,
    pub y: FloatBits,
}

#[derive(Clone, Copy, Debug, PartialEq, Eq, Structural)]
pub struct ovrVector3f {
    pub x: FloatBits,
    pub y: FloatBits,
    pub z: FloatBits,
}

/// A 4x4 matrix in the runtime's row-major order.
#[derive(Clone, Copy, Debug, PartialEq, Eq)]
pub struct ovrMatrix4f {
    pub M: [[FloatBits; 4]; 4],
}

#[derive(Clone, Copy, Debug, PartialEq, Eq, Structural)]
pub struct ovrQuatf {
    pub x: FloatBits,
    pub y: FloatBits,
    pub z: FloatBits,
    pub w: FloatBits,
}

#[derive(Clone, Copy, Debug, PartialEq, Eq, Structural)]
pub struct ovrPosef {
    pub Orientation: ovrQuatf,
    pub Position: ovrVector3f,
}

#[derive(Clone, Copy, Debug, PartialEq, Eq, Structural)]
pub struct ovrPoseStatef {
    pub ThePose: ovrPosef,
    pub AngularVelocity: ovrVector3f,
    pub LinearVelocity: ovrVector3f,
    pub AngularAcceleration: ovrVector3f,
    pub LinearAcceleration: ovrVector3f,
    pub TimeInSeconds: DoubleBits,
}

/// Parameters of runtime initialization. `LogCallback` is the address of a
/// native callback, zero for none.
#[derive(Clone, Copy, Debug, PartialEq, Eq, Structural)]
pub struct ovrInitParams {
    pub Flags: u32,
    pub RequestedMinorVersion: u32,
    pub LogCallback: usize,
    pub UserData: usize,
    pub ConnectionTimeoutMS: u32,
}

#[derive(Clone, Copy, Debug, PartialEq, Eq, Structural)]
pub struct ovrDetectResult {
    pub IsOculusServiceRunning: ovrBool,
    pub IsOculusHMDConnected: ovrBool,
}

pub type ovrHmdType = i32;

pub const ovrHmd_None: ovrHmdType = 0;

pub const ovrHmd_DK1: ovrHmdType = 3;

pub const ovrHmd_DKHD: ovrHmdType = 4;

pub const ovrHmd_DK2: ovrHmdType = 6;

pub const ovrHmd_CB: ovrHmdType = 8;

pub const ovrHmd_Other: ovrHmdType = 9;

pub const ovrHmd_E3_2015: ovrHmdType = 10;

pub const ovrHmd_ES06: ovrHmdType = 11;

pub const ovrHmd_ES09: ovrHmdType = 12;

/// What the runtime reports of a headset, as far as this layer reads it.
/// Capability fields hold raw bits as the runtime gave them.
#[derive(Clone, Debug, PartialEq, Eq)]
pub struct ovrHmdDesc {
    pub Type: ovrHmdType,
    pub HmdCaps: u32,
    pub TrackingCaps: u32,
    pub DistortionCaps: u32,
    pub DefaultEyeFov: [ovrFovPort; 2],
    pub MaxEyeFov: [ovrFovPort; 2],
    pub EyeRenderOrder: [u32; 2],
    pub Resolution: ovrSizei,
    pub WindowsPos: ovrVector2i,
    pub DisplayDeviceName: String,
    pub DisplayId: i32,
}

#[derive(Clone, Copy, Debug, PartialEq, Eq)]
pub struct ovrGraphicsLuid {
    pub Reserved: [u8; 8],
}

pub type ovrRenderAPIType = u32;

pub const ovrRenderAPI_None: ovrRenderAPIType = 0;

pub const ovrRenderAPI_OpenGL: ovrRenderAPIType = 1;

pub const ovrRenderAPI_Android_GLES: ovrRenderAPIType = 2;

pub const ovrRenderAPI_D3D11: ovrRenderAPIType = 5;

pub const ovrRenderAPI_Count: ovrRenderAPIType = 4;

#[derive(Clone, Copy, Debug, PartialEq, Eq, Structural)]
pub struct ovrTextureHeader {
    pub API: ovrRenderAPIType,
    pub TextureSize: ovrSizei,
    pub RenderViewport: ovrRecti,
}

/// The OpenGL variant of the runtime's texture descriptor. The native union
/// is padded to the size of its largest variant; `layout` accounts for it.
#[derive(Clone, Copy, Debug, PartialEq, Eq, Structural)]
pub struct ovrGLTexture {
    pub Header: ovrTextureHeader,
    pub TexId: u32,
}

/// Header of the configuration handed to the runtime's renderer.
#[derive(Clone, Copy, Debug, PartialEq, Eq, Structural)]
pub struct ovrGLConfig {
    pub API: ovrRenderAPIType,
    pub BackBufferSize: ovrSizei,
    pub Multisample: i32,
    /// Address of the native window; zero where the platform needs none.
    pub Window: usize,
}

/// A ring of runtime-owned textures. `Textures` is the address of the ring.
#[derive(Clone, Copy, Debug, PartialEq, Eq, Structural)]
pub struct ovrSwapTextureSet {
    pub Textures: usize,
    pub TextureCount: i32,
    pub CurrentIndex: i32,
}

#[derive(Clone, Copy, Debug, PartialEq, Eq, Structural)]
pub struct ovrEyeRenderDesc {
    pub Eye: u32,
    pub Fov: ovrFovPort,
    pub DistortedViewport: ovrRecti,
    pub PixelsPerTanAngleAtCenter: ovrVector2f,
    pub HmdToEyeViewOffset: ovrVector3f,
}

/// Tracking state, as far as this layer reads it.
#[derive(Clone, Copy, Debug, PartialEq, Eq, Structural)]
pub struct ovrTrackingState {
    pub HeadPose: ovrPoseStatef,
    pub CameraPose: ovrPosef,
    pub LeveledCameraPose: ovrPosef,
    pub StatusFlags: u32,
    pub LastCameraFrameCounter: u32,
}

#[derive(Clone, Copy, Debug, PartialEq, Eq)]
pub struct ovrViewScaleDesc {
    pub HmdToEyeViewOffset: [ovrVector3f; 2],
    pub HmdSpaceToWorldScaleInMeters: FloatBits,
}

pub type ovrLayerType = i32;

pub const ovrLayerType_Disabled: ovrLayerType = 0;

pub const ovrLayerType_EyeFov: ovrLayerType = 1;

pub const ovrLayerType_EyeFovDepth: ovrLayerType = 2;

pub const ovrLayerType_Quad: ovrLayerType = 3;

pub const ovrLayerType_EyeMatrix: ovrLayerType = 5;

pub const ovrLayerType_Direct: ovrLayerType = 6;

/// Header of a compositor layer. `Flags` holds raw `ovrLayerFlags` bits.
#[derive(Clone, Copy, Debug, PartialEq, Eq, Structural)]
pub struct ovrLayerHeader {
    pub Type: ovrLayerType,
    pub Flags: u32,
}

/// A layer that shows one texture set per eye. `ColorTexture` holds the
/// addresses of the two runtime-owned sets.
#[derive(Clone, Copy, Debug, PartialEq, Eq)]
pub struct ovrLayerEyeFov {
    pub Header: ovrLayerHeader,
    pub ColorTexture: [usize; 2],
    pub Viewport: [ovrRecti; 2],
    pub Fov: [ovrFovPort; 2],
    pub RenderPose: [ovrPosef; 2],
    pub SensorSampleTime: DoubleBits,
}

impl Default for ovrSizei {
    fn default() -> (s: ovrSizei)
        ensures
            s == (ovrSizei { w: 0, h: 0 }),
    {
        ovrSizei { w: 0, h: 0 }
    }
}

impl Default for ovrVector2i {
    fn default() -> (v: ovrVector2i)
        ensures
            v == (ovrVector2i { x: 0, y: 0 }),
    {
        ovrVector2i { x: 0, y: 0 }
    }
}

impl Default for ovrRecti {
    fn default() -> (r: ovrRecti)
        ensures
            r == (ovrRecti { Pos: ovrVector2i { x: 0, y: 0 }, Size: ovrSizei { w: 0, h: 0 } }),
    {
        ovrRecti { Pos: ovrVector2i { x: 0, y: 0 }, Size: ovrSizei { w: 0, h: 0 } }
    }
}

impl Default for ovrVector3f {
    fn default() -> (v: ovrVector3f)
        ensures
            v == (ovrVector3f { x: FLOAT_ZERO, y: FLOAT_ZERO, z: FLOAT_ZERO }),
    {
        ovrVector3f { x: FLOAT_ZERO, y: FLOAT_ZERO, z: FLOAT_ZERO }
    }
}

impl Default for ovrQuatf {
    fn default() -> (q: ovrQuatf)
        ensures
            q == (ovrQuatf { x: FLOAT_ZERO, y: FLOAT_ZERO, z: FLOAT_ZERO, w: FLOAT_ZERO }),
    {
        ovrQuatf { x: FLOAT_ZERO, y: FLOAT_ZERO, z: FLOAT_ZERO, w: FLOAT_ZERO }
    }
}

impl ovrPosef {
    /// The pose whose every component is zero.
    pub open spec fn zero() -> ovrPosef {
        ovrPosef {
            Orientation: ovrQuatf { x: FLOAT_ZERO, y: FLOAT_ZERO, z: FLOAT_ZERO, w: FLOAT_ZERO },
            Position: ovrVector3f { x: FLOAT_ZERO, y: FLOAT_ZERO, z: FLOAT_ZERO },
        }
    }
}

impl Default for ovrPosef {
    fn default() -> (p: ovrPosef)
        ensures
            p == ovrPosef::zero(),
    {
        ovrPosef {
            Orientation: ovrQuatf { x: FLOAT_ZERO, y: FLOAT_ZERO, z: FLOAT_ZERO, w: FLOAT_ZERO },
            Position: ovrVector3f { x: FLOAT_ZERO, y: FLOAT_ZERO, z: FLOAT_ZERO },
        }
    }
}

impl ovrMatrix4f {
    /// Entry `(row, col)` of the identity matrix.
    pub open spec fn identity_entry(row: int, col: int) -> FloatBits {
        if row == col {
            FLOAT_ONE
        } else {
            FLOAT_ZERO
        }
    }
}

impl Default for ovrMatrix4f {
    /// The identity matrix, not the all-zero one.
    fn default() -> (m: ovrMatrix4f)
        ensures
            forall|row: int, col: int|
                0 <= row < 4 && 0 <= col < 4 ==> #[trigger] m.M[row][col]
                    == ovrMatrix4f::identity_entry(row, col),
    {
        ovrMatrix4f {
            M: [
                [FLOAT_ONE, FLOAT_ZERO, FLOAT_ZERO, FLOAT_ZERO],
                [FLOAT_ZERO, FLOAT_ONE, FLOAT_ZERO, FLOAT_ZERO],
                [FLOAT_ZERO, FLOAT_ZERO, FLOAT_ONE, FLOAT_ZERO],
                [FLOAT_ZERO, FLOAT_ZERO, FLOAT_ZERO, FLOAT_ONE],
            ],
        }
    }
}

impl ovrInitParams {
    /// No flags, no requested version, no callback, no user data, and the
    /// runtime's own connection timeout.
    pub open spec fn unset() -> ovrInitParams {
        ovrInitParams {
            Flags: 0,
            RequestedMinorVersion: 0,
            LogCallback: 0,
            UserData: 0,
            ConnectionTimeoutMS: 0,
        }
    }
}

impl Default for ovrInitParams {
    fn default() -> (p: ovrInitParams)
        ensures
            p == ovrInitParams::unset(),
    {
        ovrInitParams {
            Flags: 0,
            RequestedMinorVersion: 0,
            LogCallback: 0,
            UserData: 0,
            ConnectionTimeoutMS: 0,
        }
    }
}

impl ovrGLTexture {
    /// The descriptor whose every field is zero: no API, no size, no texture.
    pub open spec fn zeroed() -> ovrGLTexture {
        ovrGLTexture {
            Header: ovrTextureHeader {
                API: ovrRenderAPI_None,
                TextureSize: ovrSizei { w: 0, h: 0 },
                RenderViewport: ovrRecti {
                    Pos: ovrVector2i { x: 0, y: 0 },
                    Size: ovrSizei { w: 0, h: 0 },
                },
            },
            TexId: 0,
        }
    }
}

impl Default for ovrGLTexture {
    fn default() -> (t: ovrGLTexture)
        ensures
            t == ovrGLTexture::zeroed(),
    {
        ovrGLTexture {
            Header: ovrTextureHeader {
                API: ovrRenderAPI_None,
                TextureSize: ovrSizei { w: 0, h: 0 },
                RenderViewport: ovrRecti {
                    Pos: ovrVector2i { x: 0, y: 0 },
                    Size: ovrSizei { w: 0, h: 0 },
                },
            },
            TexId: 0,
        }
    }
}

impl ovrGLConfig {
    /// The configuration whose every field is zero.
    pub open spec fn zeroed() -> ovrGLConfig {
        ovrGLConfig {
            API: ovrRenderAPI_None,
            BackBufferSize: ovrSizei { w: 0, h: 0 },
            Multisample: 0,
            Window: 0,
        }
    }
}

impl Default for ovrGLConfig {
    fn default() -> (c: ovrGLConfig)
        ensures
            c == ovrGLConfig::zeroed(),
    {
        ovrGLConfig {
            API: ovrRenderAPI_None,
            BackBufferSize: ovrSizei { w: 0, h: 0 },
            Multisample: 0,
            Window: 0,
        }
    }
}

/// The sized sRGB colour format with alpha that swap textures are created
/// with. Reads `gl::SRGB8_ALPHA8`; the contract claims its registry value.
#[verifier::external_body]
pub(crate) fn srgb_alpha_format() -> (format: u32)
    ensures
        format == 0x8C43,
{
    gl::SRGB8_ALPHA8
}

} // verus!
