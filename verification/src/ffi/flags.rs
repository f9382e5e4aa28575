//! Capability sets: fixed enumerations of named bits combined by bitwise OR.
//!
//! A set never holds a bit that its family does not define. Raw bits coming
//! from outside are either rejected (`from_bits`) or stripped of undefined
//! bits (`from_bits_truncate`, `insert`), never stored as they are.

#![allow(non_upper_case_globals, non_camel_case_types)]

use core::marker::PhantomData;
use vstd::prelude::*;

verus! {

/// The bits that one family of flags defines.
pub trait FlagKind: Sized {
    /// Every bit this family defines, OR-ed together.
    spec fn mask() -> u32;

    fn mask_bits() -> (m: u32)
        ensures
            m == Self::mask(),
    ;
}

/// A set of flags of family `K`.
#[derive(Debug, PartialEq, Eq)]
pub struct FlagSet<K: FlagKind> {
    bits: u32,
    kind: PhantomData<K>,
}

impl<K: FlagKind> Clone for FlagSet<K> {
    fn clone(&self) -> (s: Self)
        ensures
            s@ == self@,
    {
        proof {
            use_type_invariant(self);
        }
        FlagSet { bits: self.bits, kind: PhantomData }
    }
}

impl<K: FlagKind> Copy for FlagSet<K> {

}

impl<K: FlagKind> FlagSet<K> {
    #[verifier::type_invariant]
    spec fn defined_only(self) -> bool {
        self.bits & !K::mask() == 0
    }

    /// The raw bits of the set.
    pub closed spec fn view(self) -> u32 {
        self.bits
    }

    /// Whether every bit of `flags` is in the set.
    pub open spec fn has(self, flags: u32) -> bool {
        self@ & flags == flags
    }

    /// The set with no flag.
    pub fn empty() -> (s: Self)
        ensures
            s@ == 0,
    {
        let ghost m = K::mask();
        assert(0u32 & !m == 0) by (bit_vector);
        FlagSet { bits: 0, kind: PhantomData }
    }

    /// The set with every flag the family defines.
    pub fn all() -> (s: Self)
        ensures
            s@ == K::mask(),
    {
        let m = K::mask_bits();
        assert(m & !m == 0) by (bit_vector);
        FlagSet { bits: m, kind: PhantomData }
    }

    /// The raw bits; none lies outside the family's mask.
    pub fn bits(&self) -> (b: u32)
        ensures
            b == self@,
            b & !K::mask() == 0,
    {
        proof {
            use_type_invariant(self);
        }
        self.bits
    }

    /// The set with exactly these bits, or `None` if one of them is undefined.
    pub fn from_bits(bits: u32) -> (s: Option<Self>)
        ensures
            bits & !K::mask() == 0 ==> (s matches Some(set) && set@ == bits),
            bits & !K::mask() != 0 ==> s is None,
    {
        let m = K::mask_bits();
        if bits & !m == 0 {
            Some(FlagSet { bits, kind: PhantomData })
        } else {
            None
        }
    }

    /// The set with the defined bits among these; undefined bits are dropped.
    pub fn from_bits_truncate(bits: u32) -> (s: Self)
        ensures
            s@ == bits & K::mask(),
    {
        let m = K::mask_bits();
        assert((bits & m) & !m == 0) by (bit_vector);
        FlagSet { bits: bits & m, kind: PhantomData }
    }

    pub fn is_empty(&self) -> (e: bool)
        ensures
            e == (self@ == 0),
    {
        self.bits == 0
    }

    /// Whether every bit of `flags` is in the set.
    pub fn contains(&self, flags: u32) -> (c: bool)
        ensures
            c == self.has(flags),
    {
        self.bits & flags == flags
    }

    /// Adds the defined bits among `flags`.
    pub fn insert(&mut self, flags: u32)
        ensures
            final(self)@ == old(self)@ | (flags & K::mask()),
    {
        proof {
            use_type_invariant(&*self);
        }
        let m = K::mask_bits();
        let before = self.bits;
        assert((before | (flags & m)) & !m == 0) by (bit_vector)
            requires
                before & !m == 0,
        ;
        self.bits = before | (flags & m);
    }

    /// Removes every bit of `flags`.
    pub fn remove(&mut self, flags: u32)
        ensures
            final(self)@ == old(self)@ & !flags,
    {
        proof {
            use_type_invariant(&*self);
        }
        let before = self.bits;
        let ghost m = K::mask();
        assert((before & !flags) & !m == 0) by (bit_vector)
            requires
                before & !m == 0,
        ;
        self.bits = before & !flags;
    }

    /// The flags that are in either set.
    pub fn union(self, other: Self) -> (s: Self)
        ensures
            s@ == self@ | other@,
    {
        proof {
            use_type_invariant(self);
            use_type_invariant(other);
        }
        let a = self.bits;
        let b = other.bits;
        let ghost m = K::mask();
        assert((a | b) & !m == 0) by (bit_vector)
            requires
                a & !m == 0,
                b & !m == 0,
        ;
        FlagSet { bits: a | b, kind: PhantomData }
    }
}

/// Inserting flags the family defines makes the set contain them, and keeps
/// what it held.
pub proof fn lemma_insert_contains(before: u32, flags: u32, mask: u32)
    by (bit_vector)
    requires
        flags & !mask == 0,
    ensures
        (before | (flags & mask)) & flags == flags,
        (before | (flags & mask)) & before == before,
        before & flags == flags ==> (before | (flags & mask)) == before,
{
}

/// Removing flags leaves none of them in the set, and adds nothing.
pub proof fn lemma_remove_excludes(before: u32, flags: u32)
    by (bit_vector)
    ensures
        (before & !flags) & flags == 0,
        (before & !flags) | before == before,
        before & flags == 0 ==> (before & !flags) == before,
{
}

/// Inserting and then removing the same flags ends without them, whatever the
/// set held; removing and then inserting ends with them.
pub proof fn lemma_insert_remove(before: u32, flags: u32, mask: u32)
    by (bit_vector)
    requires
        flags & !mask == 0,
    ensures
        ((before | (flags & mask)) & !flags) == (before & !flags),
        ((before & !flags) | (flags & mask)) == (before | flags),
{
}

#[derive(Clone, Copy, Debug, PartialEq, Eq)]
pub struct InitFlagKind;

#[derive(Clone, Copy, Debug, PartialEq, Eq)]
pub struct HmdCapKind;

#[derive(Clone, Copy, Debug, PartialEq, Eq)]
pub struct TrackingCapKind;

#[derive(Clone, Copy, Debug, PartialEq, Eq)]
pub struct DistortionCapKind;

#[derive(Clone, Copy, Debug, PartialEq, Eq)]
pub struct LayerFlagKind;

#[derive(Clone, Copy, Debug, PartialEq, Eq)]
pub struct ProjectionModifierKind;

impl FlagKind for InitFlagKind {
    open spec fn mask() -> u32 {
        0x0000_0005
    }

    fn mask_bits() -> (m: u32) {
        0x0000_0005
    }
}

impl FlagKind for HmdCapKind {
    open spec fn mask() -> u32 {
        0x32DF
    }

    fn mask_bits() -> (m: u32) {
        0x32DF
    }
}

impl FlagKind for TrackingCapKind {
    open spec fn mask() -> u32 {
        0x0170
    }

    fn mask_bits() -> (m: u32) {
        0x0170
    }
}

impl FlagKind for DistortionCapKind {
    open spec fn mask() -> u32 {
        0x01FA
    }

    fn mask_bits() -> (m: u32) {
        0x01FA
    }
}

impl FlagKind for LayerFlagKind {
    open spec fn mask() -> u32 {
        0x07
    }

    fn mask_bits() -> (m: u32) {
        0x07
    }
}

impl FlagKind for ProjectionModifierKind {
    open spec fn mask() -> u32 {
        0x0F
    }

    fn mask_bits() -> (m: u32) {
        0x0F
    }
}

/// Flags for runtime initialization.
pub type ovrInitFlags = FlagSet<InitFlagKind>;

pub const ovrInit_Debug: u32 = 0x0000_0001;

pub const ovrInit_RequestVersion: u32 = 0x0000_0004;

/// Capabilities of a headset. Those under `ovrHmdCap_Writable_Mask` can be
/// switched by the application; the others are reported by the runtime.
pub type ovrHmdCaps = FlagSet<HmdCapKind>;

pub const ovrHmdCap_Present: u32 = 0x0001;

pub const ovrHmdCap_Available: u32 = 0x0002;

pub const ovrHmdCap_Captured: u32 = 0x0004;

pub const ovrHmdCap_ExtendDesktop: u32 = 0x0008;

pub const ovrHmdCap_DebugDevice: u32 = 0x0010;

pub const ovrHmdCap_DisplayOff: u32 = 0x0040;

pub const ovrHmdCap_LowPersistence: u32 = 0x0080;

pub const ovrHmdCap_DynamicPrediction: u32 = 0x0200;

pub const ovrHmdCap_NoVSync: u32 = 0x1000;

pub const ovrHmdCap_NoMirrorToWindow: u32 = 0x2000;

pub const ovrHmdCap_Writable_Mask: u32 = 0x32C0;

pub const ovrHmdCap_Service_Mask: u32 = 0x22C0;

/// Tracking capabilities of a headset.
pub type ovrTrackingCaps = FlagSet<TrackingCapKind>;

pub const ovrTrackingCap_Orientation: u32 = 0x0010;

pub const ovrTrackingCap_MagYawCorrection: u32 = 0x0020;

pub const ovrTrackingCap_Position: u32 = 0x0040;

pub const ovrTrackingCap_Idle: u32 = 0x0100;

/// Distortion features requested when rendering is configured.
pub type ovrDistortionCaps = FlagSet<DistortionCapKind>;

pub const ovrDistortionCap_TimeWarp: u32 = 0x02;

pub const ovrDistortionCap_Vignette: u32 = 0x08;

pub const ovrDistortionCap_NoRestore: u32 = 0x10;

pub const ovrDistortionCap_FlipInput: u32 = 0x20;

pub const ovrDistortionCap_SRGB: u32 = 0x40;

pub const ovrDistortionCap_Overdrive: u32 = 0x80;

pub const ovrDistortionCap_HqDistortion: u32 = 0x100;

/// Flags of a compositor layer.
pub type ovrLayerFlags = FlagSet<LayerFlagKind>;

pub const ovrLayerFlag_HighQuality: u32 = 0x01;

pub const ovrLayerFlag_TextureOriginAtBottomLeft: u32 = 0x02;

pub const ovrLayerFlag_HeadLocked: u32 = 0x04;

/// Modifiers of the projection matrix the runtime derives.
pub type ovrProjectionModifier = FlagSet<ProjectionModifierKind>;

pub const ovrProjection_None: u32 = 0x00;

pub const ovrProjection_RightHanded: u32 = 0x01;

pub const ovrProjection_FarLessThanNear: u32 = 0x02;

pub const ovrProjection_FarClipAtInfinity: u32 = 0x04;

pub const ovrProjection_ClipRangeOpenGL: u32 = 0x08;

/// Every named flag is one its family defines: masking it changes nothing.
pub proof fn lemma_named_flags_are_defined()
    by (bit_vector)
    ensures
        ovrInit_Debug & 0x0000_0005 == ovrInit_Debug,
        ovrInit_RequestVersion & 0x0000_0005 == ovrInit_RequestVersion,
        ovrHmdCap_Present & 0x32DF == ovrHmdCap_Present,
        ovrHmdCap_Available & 0x32DF == ovrHmdCap_Available,
        ovrHmdCap_Captured & 0x32DF == ovrHmdCap_Captured,
        ovrHmdCap_ExtendDesktop & 0x32DF == ovrHmdCap_ExtendDesktop,
        ovrHmdCap_DebugDevice & 0x32DF == ovrHmdCap_DebugDevice,
        ovrHmdCap_DisplayOff & 0x32DF == ovrHmdCap_DisplayOff,
        ovrHmdCap_LowPersistence & 0x32DF == ovrHmdCap_LowPersistence,
        ovrHmdCap_DynamicPrediction & 0x32DF == ovrHmdCap_DynamicPrediction,
        ovrHmdCap_NoVSync & 0x32DF == ovrHmdCap_NoVSync,
        ovrHmdCap_NoMirrorToWindow & 0x32DF == ovrHmdCap_NoMirrorToWindow,
        ovrHmdCap_Writable_Mask & 0x32DF == ovrHmdCap_Writable_Mask,
        ovrHmdCap_Service_Mask & 0x32DF == ovrHmdCap_Service_Mask,
        ovrTrackingCap_Orientation & 0x0170 == ovrTrackingCap_Orientation,
        ovrTrackingCap_MagYawCorrection & 0x0170 == ovrTrackingCap_MagYawCorrection,
        ovrTrackingCap_Position & 0x0170 == ovrTrackingCap_Position,
        ovrTrackingCap_Idle & 0x0170 == ovrTrackingCap_Idle,
        ovrDistortionCap_TimeWarp & 0x01FA == ovrDistortionCap_TimeWarp,
        ovrDistortionCap_Vignette & 0x01FA == ovrDistortionCap_Vignette,
        ovrDistortionCap_NoRestore & 0x01FA == ovrDistortionCap_NoRestore,
        ovrDistortionCap_FlipInput & 0x01FA == ovrDistortionCap_FlipInput,
        ovrDistortionCap_SRGB & 0x01FA == ovrDistortionCap_SRGB,
        ovrDistortionCap_Overdrive & 0x01FA == ovrDistortionCap_Overdrive,
        ovrDistortionCap_HqDistortion & 0x01FA == ovrDistortionCap_HqDistortion,
        ovrLayerFlag_HighQuality & 0x07 == ovrLayerFlag_HighQuality,
        ovrLayerFlag_TextureOriginAtBottomLeft & 0x07 == ovrLayerFlag_TextureOriginAtBottomLeft,
        ovrLayerFlag_HeadLocked & 0x07 == ovrLayerFlag_HeadLocked,
        ovrProjection_None & 0x0F == ovrProjection_None,
        ovrProjection_RightHanded & 0x0F == ovrProjection_RightHanded,
        ovrProjection_FarLessThanNear & 0x0F == ovrProjection_FarLessThanNear,
        ovrProjection_FarClipAtInfinity & 0x0F == ovrProjection_FarClipAtInfinity,
        ovrProjection_ClipRangeOpenGL & 0x0F == ovrProjection_ClipRangeOpenGL,
{
}

/// The bits the application can switch are the five switches, and the
/// service acts on all of them but vertical sync.
pub proof fn lemma_writable_caps()
    by (bit_vector)
    ensures
        ovrHmdCap_Writable_Mask == ovrHmdCap_NoMirrorToWindow | ovrHmdCap_DisplayOff
            | ovrHmdCap_LowPersistence | ovrHmdCap_DynamicPrediction | ovrHmdCap_NoVSync,
        ovrHmdCap_Service_Mask == ovrHmdCap_Writable_Mask & !ovrHmdCap_NoVSync,
{
}

} // verus!
