//! The binary layout of the structs exchanged with the runtime.
//!
//! A struct is laid out as a C compiler does it: each field at the least
//! offset behind the previous field that its alignment divides, and the
//! size rounded up to the alignment of the struct. The structs of the
//! runtime's interface declare their padding as fields of their own, so
//! that no padding is left to the compiler; `layout_of` shows it for each
//! of them, on 32-bit and on 64-bit targets.

#![allow(non_camel_case_types)]

use crate::ffi::dynamic_lib::PointerWidth;
use vstd::arithmetic::div_mod::{lemma_fundamental_div_mod, lemma_mod_multiples_basic};
use vstd::prelude::*;

verus! {

/// The least multiple of `align` that is not below `n`.
#[verifier::opaque]
pub open spec fn round_up(n: nat, align: nat) -> nat {
    if n % align == 0 {
        n
    } else {
        (n + (align - n % align)) as nat
    }
}

/// What a struct layout holds.
pub struct LayoutView {
    /// The offset of each field, in declaration order.
    pub offsets: Seq<nat>,
    /// The size of each field.
    pub sizes: Seq<nat>,
    /// Where the last field ends.
    pub end: nat,
    /// The alignment of the struct: the largest alignment of a field.
    pub align: nat,
    /// The bytes between fields that belong to no field.
    pub gaps: nat,
}

impl LayoutView {
    /// The layout of a struct with no field.
    pub open spec fn start() -> LayoutView {
        LayoutView { offsets: Seq::empty(), sizes: Seq::empty(), end: 0, align: 1, gaps: 0 }
    }

    /// The layout with one more field, of the given size and alignment.
    pub open spec fn with_field(self, size: nat, align: nat) -> LayoutView {
        LayoutView {
            offsets: self.offsets.push(round_up(self.end, align)),
            sizes: self.sizes.push(size),
            end: round_up(self.end, align) + size,
            align: if align > self.align {
                align
            } else {
                self.align
            },
            gaps: self.gaps + (round_up(self.end, align) - self.end) as nat,
        }
    }

    /// The size of the struct.
    pub open spec fn size(self) -> nat {
        round_up(self.end, self.align)
    }

    /// The bytes of the struct that belong to no field: those between
    /// fields and those behind the last one.
    pub open spec fn implicit_padding(self) -> nat {
        (self.gaps + (self.size() - self.end)) as nat
    }

    /// Every field lies at a multiple of an alignment no larger than the
    /// struct's, fields follow each other without overlap, and the last one
    /// ends where the layout says.
    pub open spec fn well_formed(self) -> bool {
        &&& self.align >= 1
        &&& self.offsets.len() == self.sizes.len()
        &&& forall|i: int|
            0 <= i < self.offsets.len() ==> #[trigger] self.offsets[i] + self.sizes[i] <= if i + 1
                < self.offsets.len() {
                self.offsets[i + 1]
            } else {
                self.end
            }
        &&& self.gaps <= self.end
    }
}

/// Rounding up gives a multiple of the alignment that is not below the
/// number and less than one alignment above it.
pub proof fn lemma_round_up(n: nat, align: nat)
    requires
        align >= 1,
    ensures
        round_up(n, align) % align == 0,
        n <= round_up(n, align) < n + align,
{
    reveal(round_up);
    let a = align as int;
    let q = (n as int) / a;
    let r = (n as int) % a;
    lemma_fundamental_div_mod(n as int, a);
    assert(0 <= r < a) by {
        vstd::arithmetic::div_mod::lemma_mod_pos_bound(n as int, a);
    }
    if r != 0 {
        assert(n + (a - r) == a * (q + 1)) by (nonlinear_arith)
            requires
                n == a * q + r,
        ;
        lemma_mod_multiples_basic(q + 1, a);
        assert((a * (q + 1)) % a == 0) by {
            assert(a * (q + 1) == (q + 1) * a) by (nonlinear_arith);
        }
    }
}

/// No multiple of the alignment lies between a number and what it is
/// rounded up to.
pub proof fn lemma_round_up_is_least(n: nat, align: nat, m: nat)
    requires
        align >= 1,
        m >= n,
        m % align == 0,
    ensures
        m >= round_up(n, align),
{
    reveal(round_up);
    let a = align as int;
    let q = (n as int) / a;
    let r = (n as int) % a;
    lemma_fundamental_div_mod(n as int, a);
    assert(0 <= r < a) by {
        vstd::arithmetic::div_mod::lemma_mod_pos_bound(n as int, a);
    }
    if r != 0 {
        let k = (m as int) / a;
        lemma_fundamental_div_mod(m as int, a);
        assert(m == a * k);
        assert(k > q) by (nonlinear_arith)
            requires
                a * k >= a * q + r,
                r > 0,
                a >= 1,
        ;
        assert(a * k >= a * (q + 1)) by (nonlinear_arith)
            requires
                k >= q + 1,
                a >= 1,
        ;
        assert(n + (a - r) == a * (q + 1)) by (nonlinear_arith)
            requires
                n == a * q + r,
        ;
    }
}

/// A multiple of the alignment is rounded up to itself.
pub proof fn lemma_aligned(n: nat, align: nat, q: nat)
    requires
        align >= 1,
        n == q * align,
    ensures
        round_up(n, align) == n,
{
    reveal(round_up);
    lemma_mod_multiples_basic(q as int, align as int);
}

/// One more field keeps a layout well formed. The field lies at a multiple
/// of its alignment, at the least one behind the previous field.
pub proof fn lemma_with_field(layout: LayoutView, size: nat, align: nat)
    requires
        layout.well_formed(),
        align >= 1,
    ensures
        layout.with_field(size, align).well_formed(),
        layout.with_field(size, align).offsets.last() % align == 0,
        layout.end <= layout.with_field(size, align).offsets.last() < layout.end + align,
        forall|i: int|
            0 <= i < layout.offsets.len() ==> layout.with_field(size, align).offsets[i]
                == layout.offsets[i],
{
    lemma_round_up(layout.end, align);
    let next = layout.with_field(size, align);
    assert forall|i: int| 0 <= i < next.offsets.len() implies #[trigger] next.offsets[i]
        + next.sizes[i] <= if i + 1 < next.offsets.len() {
        next.offsets[i + 1]
    } else {
        next.end
    } by {
        if i < layout.offsets.len() {
            assert(layout.offsets[i] + layout.sizes[i] <= if i + 1 < layout.offsets.len() {
                layout.offsets[i + 1]
            } else {
                layout.end
            });
        }
    }
}

/// The size of a struct is a multiple of its alignment, the least one that
/// holds every field.
pub proof fn lemma_size(layout: LayoutView)
    requires
        layout.well_formed(),
    ensures
        layout.size() % layout.align == 0,
        layout.end <= layout.size() < layout.end + layout.align,
{
    lemma_round_up(layout.end, layout.align);
}

/// The layout of a struct, built field by field.
#[derive(Debug, PartialEq, Eq)]
pub struct StructLayout {
    offsets: Vec<usize>,
    sizes: Vec<usize>,
    end: usize,
    align: usize,
    gaps: usize,
}

impl StructLayout {
    #[verifier::type_invariant]
    spec fn built(self) -> bool {
        self@.well_formed()
    }

    pub closed spec fn view(self) -> LayoutView {
        LayoutView {
            offsets: self.offsets@.map_values(|o: usize| o as nat),
            sizes: self.sizes@.map_values(|s: usize| s as nat),
            end: self.end as nat,
            align: self.align as nat,
            gaps: self.gaps as nat,
        }
    }

    /// The layout of a struct with no field.
    pub fn new() -> (layout: StructLayout)
        ensures
            layout@ == LayoutView::start(),
    {
        let layout = StructLayout {
            offsets: Vec::new(),
            sizes: Vec::new(),
            end: 0,
            align: 1,
            gaps: 0,
        };
        assert(layout@.offsets =~= Seq::empty());
        assert(layout@.sizes =~= Seq::empty());
        layout
    }

    /// Adds a field of the given size and alignment.
    pub fn field(self, size: usize, align: usize) -> (layout: StructLayout)
        requires
            align >= 1,
            self@.end + align + size <= usize::MAX,
        ensures
            layout@ == self@.with_field(size as nat, align as nat),
            self@.end + size <= layout@.end < self@.end + align + size,
    {
        proof {
            use_type_invariant(&self);
            lemma_with_field(self@, size as nat, align as nat);
            reveal(round_up);
        }
        let ghost before = self@;
        let StructLayout { mut offsets, mut sizes, end, align: struct_align, gaps } = self;
        let rest = end % align;
        let offset = if rest == 0 {
            end
        } else {
            end + (align - rest)
        };
        offsets.push(offset);
        sizes.push(size);
        proof {
            let next = before.with_field(size as nat, align as nat);
            assert(offsets@.map_values(|o: usize| o as nat) =~= next.offsets);
            assert(sizes@.map_values(|s: usize| s as nat) =~= next.sizes);
        }
        let layout = StructLayout {
            offsets,
            sizes,
            end: offset + size,
            align: if align > struct_align {
                align
            } else {
                struct_align
            },
            gaps: gaps + (offset - end),
        };
        layout
    }

    /// Adds a field that is a struct of the given layout.
    pub fn nest(self, inner: &StructLayout) -> (layout: StructLayout)
        requires
            self@.end + inner@.end + 2 * inner@.align <= usize::MAX,
        ensures
            layout@ == self@.with_field(inner@.size(), inner@.align),
            self@.end + inner@.end <= layout@.end < self@.end + inner@.end + 2 * inner@.align,
    {
        proof {
            use_type_invariant(inner);
        }
        let size = inner.size();
        let align = inner.align();
        self.field(size, align)
    }

    /// The size of the struct in bytes.
    pub fn size(&self) -> (size: usize)
        requires
            self@.end + self@.align <= usize::MAX,
        ensures
            size == self@.size(),
            self@.end <= size < self@.end + self@.align,
    {
        proof {
            use_type_invariant(self);
            reveal(round_up);
        }
        let rest = self.end % self.align;
        if rest == 0 {
            self.end
        } else {
            self.end + (self.align - rest)
        }
    }

    /// The alignment of the struct in bytes.
    pub fn align(&self) -> (align: usize)
        ensures
            align == self@.align,
            align >= 1,
    {
        proof {
            use_type_invariant(self);
        }
        self.align
    }

    /// How many fields the struct has.
    pub fn field_count(&self) -> (count: usize)
        ensures
            count == self@.offsets.len(),
    {
        self.offsets.len()
    }

    /// The offset of a field, by its position in the declaration; `None`
    /// if the struct has no such field.
    pub fn offset(&self, field: usize) -> (offset: Option<usize>)
        ensures
            offset == if field < self@.offsets.len() {
                Some(self@.offsets[field as int] as usize)
            } else {
                None
            },
    {
        if field < self.offsets.len() {
            Some(self.offsets[field])
        } else {
            None
        }
    }

    /// Adds a field that is an array of structs of the given layout.
    pub fn nest_array(self, inner: &StructLayout, count: usize) -> (layout: StructLayout)
        requires
            self@.end + inner@.align + count * (inner@.end + inner@.align) <= usize::MAX,
            inner@.end + inner@.align <= usize::MAX,
        ensures
            layout@ == self@.with_field((count * inner@.size()) as nat, inner@.align),
            self@.end + count * inner@.end <= layout@.end < self@.end + inner@.align + count * (
            inner@.end + inner@.align),
    {
        proof {
            use_type_invariant(inner);
        }
        let size = inner.size();
        let align = inner.align();
        assert(count * inner@.end <= count * size <= count * (inner@.end + inner@.align))
            by (nonlinear_arith)
            requires
                inner@.end <= size <= inner@.end + inner@.align,
        ;
        self.field(count * size, align)
    }

    /// The bytes of the struct that belong to no field.
    pub fn implicit_padding(&self) -> (padding: usize)
        requires
            self@.end + self@.align <= usize::MAX,
        ensures
            padding == self@.implicit_padding(),
    {
        proof {
            use_type_invariant(self);
            lemma_size(self@);
        }
        self.gaps + (self.size() - self.end)
    }
}

impl PointerWidth {
    /// The size of a pointer in bytes.
    pub open spec fn bytes_spec(self) -> nat {
        match self {
            PointerWidth::Bits32 => 4,
            PointerWidth::Bits64 => 8,
        }
    }

    pub fn bytes(&self) -> (bytes: usize)
        ensures
            bytes == self.bytes_spec(),
    {
        match self {
            PointerWidth::Bits32 => 4,
            PointerWidth::Bits64 => 8,
        }
    }
}

/// The structs of the runtime's interface.
#[derive(Clone, Copy, Debug, PartialEq, Eq, Structural)]
pub enum AbiStruct {
    /// `ovrSizei`.
    Sizei,
    /// `ovrVector2i`.
    Vector2i,
    /// `ovrRecti`.
    Recti,
    /// `ovrVector2f`.
    Vector2f,
    /// `ovrVector3f`.
    Vector3f,
    /// `ovrQuatf`.
    Quatf,
    /// `ovrFovPort`.
    FovPort,
    /// `ovrMatrix4f`.
    Matrix4f,
    /// `ovrPosef`.
    Posef,
    /// `ovrPoseStatef`.
    PoseStatef,
    /// `ovrInitParams`.
    InitParams,
    /// `ovrDetectResult`.
    DetectResult,
    /// `ovrHmdDesc`.
    HmdDesc,
    /// `ovrGraphicsLuid`.
    GraphicsLuid,
    /// `ovrTextureHeader`, without a viewport.
    TextureHeader,
    /// `ovrTextureHeader` as the runtime of major version 5 has it: with the
    /// render viewport.
    TextureHeaderLegacy,
    /// `ovrGLTexture`, the OpenGL variant of `ovrTexture`.
    GLTexture,
    /// `ovrGLTexture` over the header of major version 5.
    GLTextureLegacy,
    /// `ovrTexture`, the runtime's own declaration: the header and eight
    /// pointer-sized words of platform data.
    Texture,
    /// `ovrTexture` over the header of major version 5.
    TextureLegacy,
    /// `ovrSwapTextureSet`.
    SwapTextureSet,
    /// `ovrEyeRenderDesc`.
    EyeRenderDesc,
    /// `ovrViewScaleDesc`.
    ViewScaleDesc,
    /// `ovrLayerHeader`.
    LayerHeader,
    /// `ovrLayerEyeFov`.
    LayerEyeFov,
}

/// The offset of each field of a struct, in declaration order, padding
/// fields among them.
pub open spec fn expected_offsets(kind: AbiStruct, width: PointerWidth) -> Seq<nat> {
    match kind {
        AbiStruct::Sizei => seq![0, 4],
        AbiStruct::Vector2i => seq![0, 4],
        AbiStruct::Recti => seq![0, 8],
        AbiStruct::Vector2f => seq![0, 4],
        AbiStruct::Vector3f => seq![0, 4, 8],
        AbiStruct::Quatf => seq![0, 4, 8, 12],
        AbiStruct::FovPort => seq![0, 4, 8, 12],
        AbiStruct::Matrix4f => seq![0],
        AbiStruct::Posef => seq![0, 16],
        AbiStruct::PoseStatef => seq![0, 28, 40, 52, 64, 76, 80],
        AbiStruct::InitParams => match width {
            PointerWidth::Bits32 => seq![0, 4, 8, 12, 16],
            PointerWidth::Bits64 => seq![0, 4, 8, 16, 24, 28],
        },
        AbiStruct::DetectResult => seq![0, 1],
        AbiStruct::HmdDesc => match width {
            PointerWidth::Bits32 => seq![0, 4, 68, 132, 134, 136, 160, 162, 164, 168, 172, 176, 180, 184, 188, 192, 196, 228, 260, 268],
            PointerWidth::Bits64 => seq![0, 4, 8, 72, 136, 138, 140, 164, 166, 168, 172, 176, 180, 184, 188, 192, 196, 200, 232, 264, 272, 276],
        },
        AbiStruct::GraphicsLuid => seq![0],
        AbiStruct::TextureHeader => seq![0, 4],
        AbiStruct::TextureHeaderLegacy => seq![0, 4, 12],
        AbiStruct::GLTexture => match width {
            PointerWidth::Bits32 => seq![0, 12, 16],
            PointerWidth::Bits64 => seq![0, 12, 16, 24],
        },
        AbiStruct::GLTextureLegacy => match width {
            PointerWidth::Bits32 => seq![0, 28, 32],
            PointerWidth::Bits64 => seq![0, 28, 32, 40],
        },
        AbiStruct::Texture => match width {
            PointerWidth::Bits32 => seq![0, 12],
            PointerWidth::Bits64 => seq![0, 12, 16],
        },
        AbiStruct::TextureLegacy => match width {
            PointerWidth::Bits32 => seq![0, 28],
            PointerWidth::Bits64 => seq![0, 28, 32],
        },
        AbiStruct::SwapTextureSet => match width {
            PointerWidth::Bits32 => seq![0, 4, 8],
            PointerWidth::Bits64 => seq![0, 8, 12],
        },
        AbiStruct::EyeRenderDesc => seq![0, 4, 20, 36, 44],
        AbiStruct::ViewScaleDesc => seq![0, 24],
        AbiStruct::LayerHeader => seq![0, 4],
        AbiStruct::LayerEyeFov => match width {
            PointerWidth::Bits32 => seq![0, 8, 16, 48, 80, 136],
            PointerWidth::Bits64 => seq![0, 8, 24, 56, 88, 144],
        },
    }
}

/// The size of a struct in bytes.
pub open spec fn expected_size(kind: AbiStruct, width: PointerWidth) -> nat {
    match kind {
        AbiStruct::Sizei => 8,
        AbiStruct::Vector2i => 8,
        AbiStruct::Recti => 16,
        AbiStruct::Vector2f => 8,
        AbiStruct::Vector3f => 12,
        AbiStruct::Quatf => 16,
        AbiStruct::FovPort => 16,
        AbiStruct::Matrix4f => 64,
        AbiStruct::Posef => 28,
        AbiStruct::PoseStatef => 88,
        AbiStruct::InitParams => match width {
            PointerWidth::Bits32 => 20,
            PointerWidth::Bits64 => 32,
        },
        AbiStruct::DetectResult => 2,
        AbiStruct::HmdDesc => match width {
            PointerWidth::Bits32 => 272,
            PointerWidth::Bits64 => 280,
        },
        AbiStruct::GraphicsLuid => 8,
        AbiStruct::TextureHeader => 12,
        AbiStruct::TextureHeaderLegacy => 28,
        AbiStruct::GLTexture => match width {
            PointerWidth::Bits32 => 44,
            PointerWidth::Bits64 => 80,
        },
        AbiStruct::GLTextureLegacy => match width {
            PointerWidth::Bits32 => 60,
            PointerWidth::Bits64 => 96,
        },
        AbiStruct::Texture => match width {
            PointerWidth::Bits32 => 44,
            PointerWidth::Bits64 => 80,
        },
        AbiStruct::TextureLegacy => match width {
            PointerWidth::Bits32 => 60,
            PointerWidth::Bits64 => 96,
        },
        AbiStruct::SwapTextureSet => match width {
            PointerWidth::Bits32 => 12,
            PointerWidth::Bits64 => 16,
        },
        AbiStruct::EyeRenderDesc => 56,
        AbiStruct::ViewScaleDesc => 28,
        AbiStruct::LayerHeader => 8,
        AbiStruct::LayerEyeFov => match width {
            PointerWidth::Bits32 => 144,
            PointerWidth::Bits64 => 152,
        },
    }
}

/// The alignment of a struct in bytes, where every scalar is aligned to
/// its size.
pub open spec fn expected_align(kind: AbiStruct, width: PointerWidth) -> nat {
    match kind {
        AbiStruct::Sizei => 4,
        AbiStruct::Vector2i => 4,
        AbiStruct::Recti => 4,
        AbiStruct::Vector2f => 4,
        AbiStruct::Vector3f => 4,
        AbiStruct::Quatf => 4,
        AbiStruct::FovPort => 4,
        AbiStruct::Matrix4f => 4,
        AbiStruct::Posef => 4,
        AbiStruct::PoseStatef => 8,
        AbiStruct::InitParams => match width {
            PointerWidth::Bits32 => 4,
            PointerWidth::Bits64 => 8,
        },
        AbiStruct::DetectResult => 1,
        AbiStruct::HmdDesc => 4,
        AbiStruct::GraphicsLuid => 1,
        AbiStruct::TextureHeader => 4,
        AbiStruct::TextureHeaderLegacy => 4,
        AbiStruct::GLTexture => match width {
            PointerWidth::Bits32 => 4,
            PointerWidth::Bits64 => 8,
        },
        AbiStruct::GLTextureLegacy => match width {
            PointerWidth::Bits32 => 4,
            PointerWidth::Bits64 => 8,
        },
        AbiStruct::Texture => match width {
            PointerWidth::Bits32 => 4,
            PointerWidth::Bits64 => 8,
        },
        AbiStruct::TextureLegacy => match width {
            PointerWidth::Bits32 => 4,
            PointerWidth::Bits64 => 8,
        },
        AbiStruct::SwapTextureSet => match width {
            PointerWidth::Bits32 => 4,
            PointerWidth::Bits64 => 8,
        },
        AbiStruct::EyeRenderDesc => 4,
        AbiStruct::ViewScaleDesc => 4,
        AbiStruct::LayerHeader => 4,
        AbiStruct::LayerEyeFov => 8,
    }
}

/// Whether a layout is the expected one of a struct: every field lies where
/// it is expected, the struct has the expected size and alignment, and all
/// of it belongs to its fields.
pub open spec fn describes(layout: LayoutView, kind: AbiStruct, width: PointerWidth) -> bool {
    &&& layout.offsets == expected_offsets(kind, width)
    &&& layout.end == expected_size(kind, width)
    &&& layout.size() == expected_size(kind, width)
    &&& layout.align == expected_align(kind, width)
    &&& layout.implicit_padding() == 0
}

fn sizei(width: PointerWidth) -> (layout: StructLayout)
    ensures
        describes(layout@, AbiStruct::Sizei, width),
{
    let layout = StructLayout::new();
    // w
    proof {
        lemma_aligned(0, 4, 0);
    }
    let layout = layout.field(4, 4);
    // h
    proof {
        lemma_aligned(4, 4, 1);
    }
    let layout = layout.field(4, 4);
    proof {
        lemma_aligned(8, 4, 2);
        assert(layout@.offsets =~= expected_offsets(AbiStruct::Sizei, width));
    }
    layout
}

fn vector2i(width: PointerWidth) -> (layout: StructLayout)
    ensures
        describes(layout@, AbiStruct::Vector2i, width),
{
    let layout = StructLayout::new();
    // x
    proof {
        lemma_aligned(0, 4, 0);
    }
    let layout = layout.field(4, 4);
    // y
    proof {
        lemma_aligned(4, 4, 1);
    }
    let layout = layout.field(4, 4);
    proof {
        lemma_aligned(8, 4, 2);
        assert(layout@.offsets =~= expected_offsets(AbiStruct::Vector2i, width));
    }
    layout
}

fn recti(width: PointerWidth) -> (layout: StructLayout)
    ensures
        describes(layout@, AbiStruct::Recti, width),
{
    proof {
        assert(expected_size(AbiStruct::Vector2i, width) == 8);
        assert(expected_align(AbiStruct::Vector2i, width) == 4);
        assert(expected_size(AbiStruct::Sizei, width) == 8);
        assert(expected_align(AbiStruct::Sizei, width) == 4);
    }
    let layout = StructLayout::new();
    // Pos
    proof {
        lemma_aligned(0, 4, 0);
    }
    let layout = layout.field(8, 4);
    // Size
    proof {
        lemma_aligned(8, 4, 2);
    }
    let layout = layout.field(8, 4);
    proof {
        lemma_aligned(16, 4, 4);
        assert(layout@.offsets =~= expected_offsets(AbiStruct::Recti, width));
    }
    layout
}

fn vector2f(width: PointerWidth) -> (layout: StructLayout)
    ensures
        describes(layout@, AbiStruct::Vector2f, width),
{
    let layout = StructLayout::new();
    // x
    proof {
        lemma_aligned(0, 4, 0);
    }
    let layout = layout.field(4, 4);
    // y
    proof {
        lemma_aligned(4, 4, 1);
    }
    let layout = layout.field(4, 4);
    proof {
        lemma_aligned(8, 4, 2);
        assert(layout@.offsets =~= expected_offsets(AbiStruct::Vector2f, width));
    }
    layout
}

fn vector3f(width: PointerWidth) -> (layout: StructLayout)
    ensures
        describes(layout@, AbiStruct::Vector3f, width),
{
    let layout = StructLayout::new();
    // x
    proof {
        lemma_aligned(0, 4, 0);
    }
    let layout = layout.field(4, 4);
    // y
    proof {
        lemma_aligned(4, 4, 1);
    }
    let layout = layout.field(4, 4);
    // z
    proof {
        lemma_aligned(8, 4, 2);
    }
    let layout = layout.field(4, 4);
    proof {
        lemma_aligned(12, 4, 3);
        assert(layout@.offsets =~= expected_offsets(AbiStruct::Vector3f, width));
    }
    layout
}

fn quatf(width: PointerWidth) -> (layout: StructLayout)
    ensures
        describes(layout@, AbiStruct::Quatf, width),
{
    let layout = StructLayout::new();
    // x
    proof {
        lemma_aligned(0, 4, 0);
    }
    let layout = layout.field(4, 4);
    // y
    proof {
        lemma_aligned(4, 4, 1);
    }
    let layout = layout.field(4, 4);
    // z
    proof {
        lemma_aligned(8, 4, 2);
    }
    let layout = layout.field(4, 4);
    // w
    proof {
        lemma_aligned(12, 4, 3);
    }
    let layout = layout.field(4, 4);
    proof {
        lemma_aligned(16, 4, 4);
        assert(layout@.offsets =~= expected_offsets(AbiStruct::Quatf, width));
    }
    layout
}

fn fov_port(width: PointerWidth) -> (layout: StructLayout)
    ensures
        describes(layout@, AbiStruct::FovPort, width),
{
    let layout = StructLayout::new();
    // UpTan
    proof {
        lemma_aligned(0, 4, 0);
    }
    let layout = layout.field(4, 4);
    // DownTan
    proof {
        lemma_aligned(4, 4, 1);
    }
    let layout = layout.field(4, 4);
    // LeftTan
    proof {
        lemma_aligned(8, 4, 2);
    }
    let layout = layout.field(4, 4);
    // RightTan
    proof {
        lemma_aligned(12, 4, 3);
    }
    let layout = layout.field(4, 4);
    proof {
        lemma_aligned(16, 4, 4);
        assert(layout@.offsets =~= expected_offsets(AbiStruct::FovPort, width));
    }
    layout
}

fn matrix4f(width: PointerWidth) -> (layout: StructLayout)
    ensures
        describes(layout@, AbiStruct::Matrix4f, width),
{
    let layout = StructLayout::new();
    // M
    proof {
        lemma_aligned(0, 4, 0);
    }
    let layout = layout.field(64, 4);
    proof {
        lemma_aligned(64, 4, 16);
        assert(layout@.offsets =~= expected_offsets(AbiStruct::Matrix4f, width));
    }
    layout
}

fn posef(width: PointerWidth) -> (layout: StructLayout)
    ensures
        describes(layout@, AbiStruct::Posef, width),
{
    proof {
        assert(expected_size(AbiStruct::Quatf, width) == 16);
        assert(expected_align(AbiStruct::Quatf, width) == 4);
        assert(expected_size(AbiStruct::Vector3f, width) == 12);
        assert(expected_align(AbiStruct::Vector3f, width) == 4);
    }
    let layout = StructLayout::new();
    // Orientation
    proof {
        lemma_aligned(0, 4, 0);
    }
    let layout = layout.field(16, 4);
    // Position
    proof {
        lemma_aligned(16, 4, 4);
    }
    let layout = layout.field(12, 4);
    proof {
        lemma_aligned(28, 4, 7);
        assert(layout@.offsets =~= expected_offsets(AbiStruct::Posef, width));
    }
    layout
}

fn pose_statef(width: PointerWidth) -> (layout: StructLayout)
    ensures
        describes(layout@, AbiStruct::PoseStatef, width),
{
    proof {
        assert(expected_size(AbiStruct::Posef, width) == 28);
        assert(expected_align(AbiStruct::Posef, width) == 4);
        assert(expected_size(AbiStruct::Vector3f, width) == 12);
        assert(expected_align(AbiStruct::Vector3f, width) == 4);
    }
    let layout = StructLayout::new();
    // ThePose
    proof {
        lemma_aligned(0, 4, 0);
    }
    let layout = layout.field(28, 4);
    // AngularVelocity
    proof {
        lemma_aligned(28, 4, 7);
    }
    let layout = layout.field(12, 4);
    // LinearVelocity
    proof {
        lemma_aligned(40, 4, 10);
    }
    let layout = layout.field(12, 4);
    // AngularAcceleration
    proof {
        lemma_aligned(52, 4, 13);
    }
    let layout = layout.field(12, 4);
    // LinearAcceleration
    proof {
        lemma_aligned(64, 4, 16);
    }
    let layout = layout.field(12, 4);
    // explicit padding
    proof {
        lemma_aligned(76, 1, 76);
    }
    let layout = layout.field(4, 1);
    // TimeInSeconds
    proof {
        lemma_aligned(80, 8, 10);
    }
    let layout = layout.field(8, 8);
    proof {
        lemma_aligned(88, 8, 11);
        assert(layout@.offsets =~= expected_offsets(AbiStruct::PoseStatef, width));
    }
    layout
}

fn init_params(width: PointerWidth) -> (layout: StructLayout)
    ensures
        describes(layout@, AbiStruct::InitParams, width),
{
    match width {
        PointerWidth::Bits32 => {
            let layout = StructLayout::new();
            // Flags
            proof {
                lemma_aligned(0, 4, 0);
            }
            let layout = layout.field(4, 4);
            // RequestedMinorVersion
            proof {
                lemma_aligned(4, 4, 1);
            }
            let layout = layout.field(4, 4);
            // LogCallback
            proof {
                lemma_aligned(8, 4, 2);
            }
            let layout = layout.field(4, 4);
            // UserData
            proof {
                lemma_aligned(12, 4, 3);
            }
            let layout = layout.field(4, 4);
            // ConnectionTimeoutMS
            proof {
                lemma_aligned(16, 4, 4);
            }
            let layout = layout.field(4, 4);
            proof {
                lemma_aligned(20, 4, 5);
                assert(layout@.offsets =~= expected_offsets(AbiStruct::InitParams, PointerWidth::Bits32));
            }
            layout
        },
        PointerWidth::Bits64 => {
            let layout = StructLayout::new();
            // Flags
            proof {
                lemma_aligned(0, 4, 0);
            }
            let layout = layout.field(4, 4);
            // RequestedMinorVersion
            proof {
                lemma_aligned(4, 4, 1);
            }
            let layout = layout.field(4, 4);
            // LogCallback
            proof {
                lemma_aligned(8, 8, 1);
            }
            let layout = layout.field(8, 8);
            // UserData
            proof {
                lemma_aligned(16, 8, 2);
            }
            let layout = layout.field(8, 8);
            // ConnectionTimeoutMS
            proof {
                lemma_aligned(24, 4, 6);
            }
            let layout = layout.field(4, 4);
            // explicit padding
            proof {
                lemma_aligned(28, 1, 28);
            }
            let layout = layout.field(4, 1);
            proof {
                lemma_aligned(32, 8, 4);
                assert(layout@.offsets =~= expected_offsets(AbiStruct::InitParams, PointerWidth::Bits64));
            }
            layout
        },
    }
}

fn detect_result(width: PointerWidth) -> (layout: StructLayout)
    ensures
        describes(layout@, AbiStruct::DetectResult, width),
{
    let layout = StructLayout::new();
    // IsOculusServiceRunning
    proof {
        lemma_aligned(0, 1, 0);
    }
    let layout = layout.field(1, 1);
    // IsOculusHMDConnected
    proof {
        lemma_aligned(1, 1, 1);
    }
    let layout = layout.field(1, 1);
    proof {
        lemma_aligned(2, 1, 2);
        assert(layout@.offsets =~= expected_offsets(AbiStruct::DetectResult, width));
    }
    layout
}

fn hmd_desc(width: PointerWidth) -> (layout: StructLayout)
    ensures
        describes(layout@, AbiStruct::HmdDesc, width),
{
    match width {
        PointerWidth::Bits32 => hmd_desc_32(),
        PointerWidth::Bits64 => hmd_desc_64(),
    }
}

fn hmd_desc_32() -> (layout: StructLayout)
    ensures
        describes(layout@, AbiStruct::HmdDesc, PointerWidth::Bits32),
{
    proof {
        assert(expected_size(AbiStruct::FovPort, PointerWidth::Bits32) == 16);
        assert(expected_align(AbiStruct::FovPort, PointerWidth::Bits32) == 4);
        assert(expected_size(AbiStruct::Sizei, PointerWidth::Bits32) == 8);
        assert(expected_align(AbiStruct::Sizei, PointerWidth::Bits32) == 4);
    }
    let layout = StructLayout::new();
    // Type
    proof {
        lemma_aligned(0, 4, 0);
    }
    let layout = layout.field(4, 4);
    // ProductName
    proof {
        lemma_aligned(4, 1, 4);
    }
    let layout = layout.field(64, 1);
    // Manufacturer
    proof {
        lemma_aligned(68, 1, 68);
    }
    let layout = layout.field(64, 1);
    // VendorId
    proof {
        lemma_aligned(132, 2, 66);
    }
    let layout = layout.field(2, 2);
    // ProductId
    proof {
        lemma_aligned(134, 2, 67);
    }
    let layout = layout.field(2, 2);
    // SerialNumber
    proof {
        lemma_aligned(136, 1, 136);
    }
    let layout = layout.field(24, 1);
    // FirmwareMajor
    proof {
        lemma_aligned(160, 2, 80);
    }
    let layout = layout.field(2, 2);
    // FirmwareMinor
    proof {
        lemma_aligned(162, 2, 81);
    }
    let layout = layout.field(2, 2);
    // CameraFrustumHFovInRadians
    proof {
        lemma_aligned(164, 4, 41);
    }
    let layout = layout.field(4, 4);
    // CameraFrustumVFovInRadians
    proof {
        lemma_aligned(168, 4, 42);
    }
    let layout = layout.field(4, 4);
    // CameraFrustumNearZInMeters
    proof {
        lemma_aligned(172, 4, 43);
    }
    let layout = layout.field(4, 4);
    // CameraFrustumFarZInMeters
    proof {
        lemma_aligned(176, 4, 44);
    }
    let layout = layout.field(4, 4);
    // AvailableHmdCaps
    proof {
        lemma_aligned(180, 4, 45);
    }
    let layout = layout.field(4, 4);
    // DefaultHmdCaps
    proof {
        lemma_aligned(184, 4, 46);
    }
    let layout = layout.field(4, 4);
    // AvailableTrackingCaps
    proof {
        lemma_aligned(188, 4, 47);
    }
    let layout = layout.field(4, 4);
    // DefaultTrackingCaps
    proof {
        lemma_aligned(192, 4, 48);
    }
    let layout = layout.field(4, 4);
    // DefaultEyeFov
    proof {
        lemma_aligned(196, 4, 49);
    }
    let layout = layout.field(32, 4);
    // MaxEyeFov
    proof {
        lemma_aligned(228, 4, 57);
    }
    let layout = layout.field(32, 4);
    // Resolution
    proof {
        lemma_aligned(260, 4, 65);
    }
    let layout = layout.field(8, 4);
    // DisplayRefreshRate
    proof {
        lemma_aligned(268, 4, 67);
    }
    let layout = layout.field(4, 4);
    proof {
        lemma_aligned(272, 4, 68);
        assert(layout@.offsets =~= expected_offsets(AbiStruct::HmdDesc, PointerWidth::Bits32));
    }
    layout
}

fn hmd_desc_64() -> (layout: StructLayout)
    ensures
        describes(layout@, AbiStruct::HmdDesc, PointerWidth::Bits64),
{
    proof {
        assert(expected_size(AbiStruct::FovPort, PointerWidth::Bits64) == 16);
        assert(expected_align(AbiStruct::FovPort, PointerWidth::Bits64) == 4);
        assert(expected_size(AbiStruct::Sizei, PointerWidth::Bits64) == 8);
        assert(expected_align(AbiStruct::Sizei, PointerWidth::Bits64) == 4);
    }
    let layout = StructLayout::new();
    // Type
    proof {
        lemma_aligned(0, 4, 0);
    }
    let layout = layout.field(4, 4);
    // explicit padding
    proof {
        lemma_aligned(4, 1, 4);
    }
    let layout = layout.field(4, 1);
    // ProductName
    proof {
        lemma_aligned(8, 1, 8);
    }
    let layout = layout.field(64, 1);
    // Manufacturer
    proof {
        lemma_aligned(72, 1, 72);
    }
    let layout = layout.field(64, 1);
    // VendorId
    proof {
        lemma_aligned(136, 2, 68);
    }
    let layout = layout.field(2, 2);
    // ProductId
    proof {
        lemma_aligned(138, 2, 69);
    }
    let layout = layout.field(2, 2);
    // SerialNumber
    proof {
        lemma_aligned(140, 1, 140);
    }
    let layout = layout.field(24, 1);
    // FirmwareMajor
    proof {
        lemma_aligned(164, 2, 82);
    }
    let layout = layout.field(2, 2);
    // FirmwareMinor
    proof {
        lemma_aligned(166, 2, 83);
    }
    let layout = layout.field(2, 2);
    // CameraFrustumHFovInRadians
    proof {
        lemma_aligned(168, 4, 42);
    }
    let layout = layout.field(4, 4);
    // CameraFrustumVFovInRadians
    proof {
        lemma_aligned(172, 4, 43);
    }
    let layout = layout.field(4, 4);
    // CameraFrustumNearZInMeters
    proof {
        lemma_aligned(176, 4, 44);
    }
    let layout = layout.field(4, 4);
    // CameraFrustumFarZInMeters
    proof {
        lemma_aligned(180, 4, 45);
    }
    let layout = layout.field(4, 4);
    // AvailableHmdCaps
    proof {
        lemma_aligned(184, 4, 46);
    }
    let layout = layout.field(4, 4);
    // DefaultHmdCaps
    proof {
        lemma_aligned(188, 4, 47);
    }
    let layout = layout.field(4, 4);
    // AvailableTrackingCaps
    proof {
        lemma_aligned(192, 4, 48);
    }
    let layout = layout.field(4, 4);
    // DefaultTrackingCaps
    proof {
        lemma_aligned(196, 4, 49);
    }
    let layout = layout.field(4, 4);
    // DefaultEyeFov
    proof {
        lemma_aligned(200, 4, 50);
    }
    let layout = layout.field(32, 4);
    // MaxEyeFov
    proof {
        lemma_aligned(232, 4, 58);
    }
    let layout = layout.field(32, 4);
    // Resolution
    proof {
        lemma_aligned(264, 4, 66);
    }
    let layout = layout.field(8, 4);
    // DisplayRefreshRate
    proof {
        lemma_aligned(272, 4, 68);
    }
    let layout = layout.field(4, 4);
    // explicit padding
    proof {
        lemma_aligned(276, 1, 276);
    }
    let layout = layout.field(4, 1);
    proof {
        lemma_aligned(280, 4, 70);
        assert(layout@.offsets =~= expected_offsets(AbiStruct::HmdDesc, PointerWidth::Bits64));
    }
    layout
}

fn graphics_luid(width: PointerWidth) -> (layout: StructLayout)
    ensures
        describes(layout@, AbiStruct::GraphicsLuid, width),
{
    let layout = StructLayout::new();
    // Reserved
    proof {
        lemma_aligned(0, 1, 0);
    }
    let layout = layout.field(8, 1);
    proof {
        lemma_aligned(8, 1, 8);
        assert(layout@.offsets =~= expected_offsets(AbiStruct::GraphicsLuid, width));
    }
    layout
}

fn texture_header(width: PointerWidth) -> (layout: StructLayout)
    ensures
        describes(layout@, AbiStruct::TextureHeader, width),
{
    proof {
        assert(expected_size(AbiStruct::Sizei, width) == 8);
        assert(expected_align(AbiStruct::Sizei, width) == 4);
    }
    let layout = StructLayout::new();
    // API
    proof {
        lemma_aligned(0, 4, 0);
    }
    let layout = layout.field(4, 4);
    // TextureSize
    proof {
        lemma_aligned(4, 4, 1);
    }
    let layout = layout.field(8, 4);
    proof {
        lemma_aligned(12, 4, 3);
        assert(layout@.offsets =~= expected_offsets(AbiStruct::TextureHeader, width));
    }
    layout
}

fn texture_header_legacy(width: PointerWidth) -> (layout: StructLayout)
    ensures
        describes(layout@, AbiStruct::TextureHeaderLegacy, width),
{
    proof {
        assert(expected_size(AbiStruct::Sizei, width) == 8);
        assert(expected_align(AbiStruct::Sizei, width) == 4);
        assert(expected_size(AbiStruct::Recti, width) == 16);
        assert(expected_align(AbiStruct::Recti, width) == 4);
    }
    let layout = StructLayout::new();
    // API
    proof {
        lemma_aligned(0, 4, 0);
    }
    let layout = layout.field(4, 4);
    // TextureSize
    proof {
        lemma_aligned(4, 4, 1);
    }
    let layout = layout.field(8, 4);
    // RenderViewport
    proof {
        lemma_aligned(12, 4, 3);
    }
    let layout = layout.field(16, 4);
    proof {
        lemma_aligned(28, 4, 7);
        assert(layout@.offsets =~= expected_offsets(AbiStruct::TextureHeaderLegacy, width));
    }
    layout
}

fn gl_texture(width: PointerWidth) -> (layout: StructLayout)
    ensures
        describes(layout@, AbiStruct::GLTexture, width),
{
    proof {
        assert(expected_size(AbiStruct::TextureHeader, width) == 12);
        assert(expected_align(AbiStruct::TextureHeader, width) == 4);
    }
    match width {
        PointerWidth::Bits32 => {
            let layout = StructLayout::new();
            // Header
            proof {
                lemma_aligned(0, 4, 0);
            }
            let layout = layout.field(12, 4);
            // TexId
            proof {
                lemma_aligned(12, 4, 3);
            }
            let layout = layout.field(4, 4);
            // explicit padding
            proof {
                lemma_aligned(16, 4, 4);
            }
            let layout = layout.field(28, 4);
            proof {
                lemma_aligned(44, 4, 11);
                assert(layout@.offsets =~= expected_offsets(AbiStruct::GLTexture, PointerWidth::Bits32));
            }
            layout
        },
        PointerWidth::Bits64 => {
            let layout = StructLayout::new();
            // Header
            proof {
                lemma_aligned(0, 4, 0);
            }
            let layout = layout.field(12, 4);
            // TexId
            proof {
                lemma_aligned(12, 4, 3);
            }
            let layout = layout.field(4, 4);
            // explicit padding
            proof {
                lemma_aligned(16, 8, 2);
            }
            let layout = layout.field(8, 8);
            // explicit padding
            proof {
                lemma_aligned(24, 8, 3);
            }
            let layout = layout.field(56, 8);
            proof {
                lemma_aligned(80, 8, 10);
                assert(layout@.offsets =~= expected_offsets(AbiStruct::GLTexture, PointerWidth::Bits64));
            }
            layout
        },
    }
}

fn gl_texture_legacy(width: PointerWidth) -> (layout: StructLayout)
    ensures
        describes(layout@, AbiStruct::GLTextureLegacy, width),
{
    proof {
        assert(expected_size(AbiStruct::TextureHeaderLegacy, width) == 28);
        assert(expected_align(AbiStruct::TextureHeaderLegacy, width) == 4);
    }
    match width {
        PointerWidth::Bits32 => {
            let layout = StructLayout::new();
            // Header
            proof {
                lemma_aligned(0, 4, 0);
            }
            let layout = layout.field(28, 4);
            // TexId
            proof {
                lemma_aligned(28, 4, 7);
            }
            let layout = layout.field(4, 4);
            // explicit padding
            proof {
                lemma_aligned(32, 4, 8);
            }
            let layout = layout.field(28, 4);
            proof {
                lemma_aligned(60, 4, 15);
                assert(layout@.offsets =~= expected_offsets(AbiStruct::GLTextureLegacy, PointerWidth::Bits32));
            }
            layout
        },
        PointerWidth::Bits64 => {
            let layout = StructLayout::new();
            // Header
            proof {
                lemma_aligned(0, 4, 0);
            }
            let layout = layout.field(28, 4);
            // TexId
            proof {
                lemma_aligned(28, 4, 7);
            }
            let layout = layout.field(4, 4);
            // explicit padding
            proof {
                lemma_aligned(32, 8, 4);
            }
            let layout = layout.field(8, 8);
            // explicit padding
            proof {
                lemma_aligned(40, 8, 5);
            }
            let layout = layout.field(56, 8);
            proof {
                lemma_aligned(96, 8, 12);
                assert(layout@.offsets =~= expected_offsets(AbiStruct::GLTextureLegacy, PointerWidth::Bits64));
            }
            layout
        },
    }
}

fn texture(width: PointerWidth) -> (layout: StructLayout)
    ensures
        describes(layout@, AbiStruct::Texture, width),
{
    proof {
        assert(expected_size(AbiStruct::TextureHeader, width) == 12);
        assert(expected_align(AbiStruct::TextureHeader, width) == 4);
    }
    match width {
        PointerWidth::Bits32 => {
            let layout = StructLayout::new();
            // Header
            proof {
                lemma_aligned(0, 4, 0);
            }
            let layout = layout.field(12, 4);
            // PlatformData
            proof {
                lemma_aligned(12, 4, 3);
            }
            let layout = layout.field(32, 4);
            proof {
                lemma_aligned(44, 4, 11);
                assert(layout@.offsets =~= expected_offsets(AbiStruct::Texture, PointerWidth::Bits32));
            }
            layout
        },
        PointerWidth::Bits64 => {
            let layout = StructLayout::new();
            // Header
            proof {
                lemma_aligned(0, 4, 0);
            }
            let layout = layout.field(12, 4);
            // explicit padding
            proof {
                lemma_aligned(12, 1, 12);
            }
            let layout = layout.field(4, 1);
            // PlatformData
            proof {
                lemma_aligned(16, 8, 2);
            }
            let layout = layout.field(64, 8);
            proof {
                lemma_aligned(80, 8, 10);
                assert(layout@.offsets =~= expected_offsets(AbiStruct::Texture, PointerWidth::Bits64));
            }
            layout
        },
    }
}

fn texture_legacy(width: PointerWidth) -> (layout: StructLayout)
    ensures
        describes(layout@, AbiStruct::TextureLegacy, width),
{
    proof {
        assert(expected_size(AbiStruct::TextureHeaderLegacy, width) == 28);
        assert(expected_align(AbiStruct::TextureHeaderLegacy, width) == 4);
    }
    match width {
        PointerWidth::Bits32 => {
            let layout = StructLayout::new();
            // Header
            proof {
                lemma_aligned(0, 4, 0);
            }
            let layout = layout.field(28, 4);
            // PlatformData
            proof {
                lemma_aligned(28, 4, 7);
            }
            let layout = layout.field(32, 4);
            proof {
                lemma_aligned(60, 4, 15);
                assert(layout@.offsets =~= expected_offsets(AbiStruct::TextureLegacy, PointerWidth::Bits32));
            }
            layout
        },
        PointerWidth::Bits64 => {
            let layout = StructLayout::new();
            // Header
            proof {
                lemma_aligned(0, 4, 0);
            }
            let layout = layout.field(28, 4);
            // explicit padding
            proof {
                lemma_aligned(28, 1, 28);
            }
            let layout = layout.field(4, 1);
            // PlatformData
            proof {
                lemma_aligned(32, 8, 4);
            }
            let layout = layout.field(64, 8);
            proof {
                lemma_aligned(96, 8, 12);
                assert(layout@.offsets =~= expected_offsets(AbiStruct::TextureLegacy, PointerWidth::Bits64));
            }
            layout
        },
    }
}

fn swap_texture_set(width: PointerWidth) -> (layout: StructLayout)
    ensures
        describes(layout@, AbiStruct::SwapTextureSet, width),
{
    match width {
        PointerWidth::Bits32 => {
            let layout = StructLayout::new();
            // Textures
            proof {
                lemma_aligned(0, 4, 0);
            }
            let layout = layout.field(4, 4);
            // TextureCount
            proof {
                lemma_aligned(4, 4, 1);
            }
            let layout = layout.field(4, 4);
            // CurrentIndex
            proof {
                lemma_aligned(8, 4, 2);
            }
            let layout = layout.field(4, 4);
            proof {
                lemma_aligned(12, 4, 3);
                assert(layout@.offsets =~= expected_offsets(AbiStruct::SwapTextureSet, PointerWidth::Bits32));
            }
            layout
        },
        PointerWidth::Bits64 => {
            let layout = StructLayout::new();
            // Textures
            proof {
                lemma_aligned(0, 8, 0);
            }
            let layout = layout.field(8, 8);
            // TextureCount
            proof {
                lemma_aligned(8, 4, 2);
            }
            let layout = layout.field(4, 4);
            // CurrentIndex
            proof {
                lemma_aligned(12, 4, 3);
            }
            let layout = layout.field(4, 4);
            proof {
                lemma_aligned(16, 8, 2);
                assert(layout@.offsets =~= expected_offsets(AbiStruct::SwapTextureSet, PointerWidth::Bits64));
            }
            layout
        },
    }
}

fn eye_render_desc(width: PointerWidth) -> (layout: StructLayout)
    ensures
        describes(layout@, AbiStruct::EyeRenderDesc, width),
{
    proof {
        assert(expected_size(AbiStruct::FovPort, width) == 16);
        assert(expected_align(AbiStruct::FovPort, width) == 4);
        assert(expected_size(AbiStruct::Recti, width) == 16);
        assert(expected_align(AbiStruct::Recti, width) == 4);
        assert(expected_size(AbiStruct::Vector2f, width) == 8);
        assert(expected_align(AbiStruct::Vector2f, width) == 4);
        assert(expected_size(AbiStruct::Vector3f, width) == 12);
        assert(expected_align(AbiStruct::Vector3f, width) == 4);
    }
    let layout = StructLayout::new();
    // Eye
    proof {
        lemma_aligned(0, 4, 0);
    }
    let layout = layout.field(4, 4);
    // Fov
    proof {
        lemma_aligned(4, 4, 1);
    }
    let layout = layout.field(16, 4);
    // DistortedViewport
    proof {
        lemma_aligned(20, 4, 5);
    }
    let layout = layout.field(16, 4);
    // PixelsPerTanAngleAtCenter
    proof {
        lemma_aligned(36, 4, 9);
    }
    let layout = layout.field(8, 4);
    // HmdToEyeViewOffset
    proof {
        lemma_aligned(44, 4, 11);
    }
    let layout = layout.field(12, 4);
    proof {
        lemma_aligned(56, 4, 14);
        assert(layout@.offsets =~= expected_offsets(AbiStruct::EyeRenderDesc, width));
    }
    layout
}

fn view_scale_desc(width: PointerWidth) -> (layout: StructLayout)
    ensures
        describes(layout@, AbiStruct::ViewScaleDesc, width),
{
    proof {
        assert(expected_size(AbiStruct::Vector3f, width) == 12);
        assert(expected_align(AbiStruct::Vector3f, width) == 4);
    }
    let layout = StructLayout::new();
    // HmdToEyeViewOffset
    proof {
        lemma_aligned(0, 4, 0);
    }
    let layout = layout.field(24, 4);
    // HmdSpaceToWorldScaleInMeters
    proof {
        lemma_aligned(24, 4, 6);
    }
    let layout = layout.field(4, 4);
    proof {
        lemma_aligned(28, 4, 7);
        assert(layout@.offsets =~= expected_offsets(AbiStruct::ViewScaleDesc, width));
    }
    layout
}

fn layer_header(width: PointerWidth) -> (layout: StructLayout)
    ensures
        describes(layout@, AbiStruct::LayerHeader, width),
{
    let layout = StructLayout::new();
    // Type
    proof {
        lemma_aligned(0, 4, 0);
    }
    let layout = layout.field(4, 4);
    // Flags
    proof {
        lemma_aligned(4, 4, 1);
    }
    let layout = layout.field(4, 4);
    proof {
        lemma_aligned(8, 4, 2);
        assert(layout@.offsets =~= expected_offsets(AbiStruct::LayerHeader, width));
    }
    layout
}

fn layer_eye_fov(width: PointerWidth) -> (layout: StructLayout)
    ensures
        describes(layout@, AbiStruct::LayerEyeFov, width),
{
    proof {
        assert(expected_size(AbiStruct::LayerHeader, width) == 8);
        assert(expected_align(AbiStruct::LayerHeader, width) == 4);
        assert(expected_size(AbiStruct::Recti, width) == 16);
        assert(expected_align(AbiStruct::Recti, width) == 4);
        assert(expected_size(AbiStruct::FovPort, width) == 16);
        assert(expected_align(AbiStruct::FovPort, width) == 4);
        assert(expected_size(AbiStruct::Posef, width) == 28);
        assert(expected_align(AbiStruct::Posef, width) == 4);
    }
    match width {
        PointerWidth::Bits32 => {
            let layout = StructLayout::new();
            // Header
            proof {
                lemma_aligned(0, 4, 0);
            }
            let layout = layout.field(8, 4);
            // ColorTexture
            proof {
                lemma_aligned(8, 4, 2);
            }
            let layout = layout.field(8, 4);
            // Viewport
            proof {
                lemma_aligned(16, 4, 4);
            }
            let layout = layout.field(32, 4);
            // Fov
            proof {
                lemma_aligned(48, 4, 12);
            }
            let layout = layout.field(32, 4);
            // RenderPose
            proof {
                lemma_aligned(80, 4, 20);
            }
            let layout = layout.field(56, 4);
            // SensorSampleTime
            proof {
                lemma_aligned(136, 8, 17);
            }
            let layout = layout.field(8, 8);
            proof {
                lemma_aligned(144, 8, 18);
                assert(layout@.offsets =~= expected_offsets(AbiStruct::LayerEyeFov, PointerWidth::Bits32));
            }
            layout
        },
        PointerWidth::Bits64 => {
            let layout = StructLayout::new();
            // Header
            proof {
                lemma_aligned(0, 4, 0);
            }
            let layout = layout.field(8, 4);
            // ColorTexture
            proof {
                lemma_aligned(8, 8, 1);
            }
            let layout = layout.field(16, 8);
            // Viewport
            proof {
                lemma_aligned(24, 4, 6);
            }
            let layout = layout.field(32, 4);
            // Fov
            proof {
                lemma_aligned(56, 4, 14);
            }
            let layout = layout.field(32, 4);
            // RenderPose
            proof {
                lemma_aligned(88, 4, 22);
            }
            let layout = layout.field(56, 4);
            // SensorSampleTime
            proof {
                lemma_aligned(144, 8, 18);
            }
            let layout = layout.field(8, 8);
            proof {
                lemma_aligned(152, 8, 19);
                assert(layout@.offsets =~= expected_offsets(AbiStruct::LayerEyeFov, PointerWidth::Bits64));
            }
            layout
        },
    }
}

/// The layout of a struct of the runtime's interface on a target of the
/// given pointer width, as its declaration with explicit padding gives it.
pub fn layout_of(kind: AbiStruct, width: PointerWidth) -> (layout: StructLayout)
    ensures
        describes(layout@, kind, width),
{
    match kind {
        AbiStruct::Sizei => sizei(width),
        AbiStruct::Vector2i => vector2i(width),
        AbiStruct::Recti => recti(width),
        AbiStruct::Vector2f => vector2f(width),
        AbiStruct::Vector3f => vector3f(width),
        AbiStruct::Quatf => quatf(width),
        AbiStruct::FovPort => fov_port(width),
        AbiStruct::Matrix4f => matrix4f(width),
        AbiStruct::Posef => posef(width),
        AbiStruct::PoseStatef => pose_statef(width),
        AbiStruct::InitParams => init_params(width),
        AbiStruct::DetectResult => detect_result(width),
        AbiStruct::HmdDesc => hmd_desc(width),
        AbiStruct::GraphicsLuid => graphics_luid(width),
        AbiStruct::TextureHeader => texture_header(width),
        AbiStruct::TextureHeaderLegacy => texture_header_legacy(width),
        AbiStruct::GLTexture => gl_texture(width),
        AbiStruct::GLTextureLegacy => gl_texture_legacy(width),
        AbiStruct::Texture => texture(width),
        AbiStruct::TextureLegacy => texture_legacy(width),
        AbiStruct::SwapTextureSet => swap_texture_set(width),
        AbiStruct::EyeRenderDesc => eye_render_desc(width),
        AbiStruct::ViewScaleDesc => view_scale_desc(width),
        AbiStruct::LayerHeader => layer_header(width),
        AbiStruct::LayerEyeFov => layer_eye_fov(width),
    }
}

/// The OpenGL variant of the texture descriptor is as large as the
/// runtime's own declaration of the descriptor, whose platform data it
/// stands for.
pub proof fn lemma_gl_texture_fills_texture(width: PointerWidth)
    ensures
        expected_size(AbiStruct::GLTexture, width) == expected_size(AbiStruct::Texture, width),
        expected_size(AbiStruct::GLTextureLegacy, width) == expected_size(
            AbiStruct::TextureLegacy,
            width,
        ),
{
}

} // verus!
