use rovr::ffi::dynamic_lib::PointerWidth;
use rovr::ffi::layout::{layout_of, AbiStruct, StructLayout};

const BOTH: [PointerWidth; 2] = [PointerWidth::Bits32, PointerWidth::Bits64];

fn offsets(layout: &StructLayout) -> Vec<usize> {
    (0..layout.field_count()).map(|i| layout.offset(i).unwrap()).collect()
}

fn check(kind: AbiStruct, width: PointerWidth, expected: &[usize], size: usize, align: usize) {
    let layout = layout_of(kind, width);
    assert_eq!(offsets(&layout), expected, "{:?} {:?}", kind, width);
    assert_eq!(layout.size(), size, "{:?} {:?}", kind, width);
    assert_eq!(layout.align(), align, "{:?} {:?}", kind, width);
    assert_eq!(layout.implicit_padding(), 0, "{:?} {:?}", kind, width);
    assert_eq!(layout.offset(expected.len()), None);
}

#[test]
fn empty_struct_has_no_size() {
    let layout = StructLayout::new();
    assert_eq!(layout.size(), 0);
    assert_eq!(layout.align(), 1);
    assert_eq!(layout.field_count(), 0);
    assert_eq!(layout.offset(0), None);
    assert_eq!(layout.implicit_padding(), 0);
}

#[test]
fn fields_are_aligned_and_the_size_is_rounded_up() {
    let layout = StructLayout::new().field(1, 1).field(4, 4).field(2, 2).field(8, 8).field(1, 1);
    assert_eq!(offsets(&layout), vec![0, 4, 8, 16, 24]);
    assert_eq!(layout.size(), 32);
    assert_eq!(layout.align(), 8);
    assert_eq!(layout.implicit_padding(), 3 + 6 + 7);
}

#[test]
fn field_without_size_takes_no_room() {
    let layout = StructLayout::new().field(3, 1).field(0, 4).field(1, 1);
    assert_eq!(offsets(&layout), vec![0, 4, 4]);
    assert_eq!(layout.size(), 8);
    assert_eq!(layout.implicit_padding(), 4);
}

#[test]
fn nested_structs_bring_their_size_and_alignment() {
    let inner = StructLayout::new().field(8, 8).field(1, 1);
    assert_eq!(inner.size(), 16);
    let outer = StructLayout::new().field(1, 1).nest(&inner).field(2, 2);
    assert_eq!(offsets(&outer), vec![0, 8, 24]);
    assert_eq!(outer.size(), 32);
    assert_eq!(outer.align(), 8);
    let arrays = StructLayout::new().field(4, 4).nest_array(&inner, 3);
    assert_eq!(offsets(&arrays), vec![0, 8]);
    assert_eq!(arrays.size(), 56);
}

#[test]
fn vectors_and_rectangles() {
    for width in BOTH {
        check(AbiStruct::Sizei, width, &[0, 4], 8, 4);
        check(AbiStruct::Vector2i, width, &[0, 4], 8, 4);
        check(AbiStruct::Recti, width, &[0, 8], 16, 4);
        check(AbiStruct::Vector2f, width, &[0, 4], 8, 4);
        check(AbiStruct::Vector3f, width, &[0, 4, 8], 12, 4);
        check(AbiStruct::Quatf, width, &[0, 4, 8, 12], 16, 4);
        check(AbiStruct::FovPort, width, &[0, 4, 8, 12], 16, 4);
        check(AbiStruct::Matrix4f, width, &[0], 64, 4);
        check(AbiStruct::Posef, width, &[0, 16], 28, 4);
    }
}

#[test]
fn pose_state_pads_before_its_time() {
    for width in BOTH {
        check(AbiStruct::PoseStatef, width, &[0, 28, 40, 52, 64, 76, 80], 88, 8);
    }
}

#[test]
fn init_params_per_width() {
    check(AbiStruct::InitParams, PointerWidth::Bits32, &[0, 4, 8, 12, 16], 20, 4);
    check(AbiStruct::InitParams, PointerWidth::Bits64, &[0, 4, 8, 16, 24, 28], 32, 8);
}

#[test]
fn small_structs() {
    for width in BOTH {
        check(AbiStruct::DetectResult, width, &[0, 1], 2, 1);
        check(AbiStruct::GraphicsLuid, width, &[0], 8, 1);
        check(AbiStruct::LayerHeader, width, &[0, 4], 8, 4);
        check(AbiStruct::ViewScaleDesc, width, &[0, 24], 28, 4);
        check(AbiStruct::EyeRenderDesc, width, &[0, 4, 20, 36, 44], 56, 4);
    }
}

#[test]
fn hmd_desc_per_width() {
    check(
        AbiStruct::HmdDesc,
        PointerWidth::Bits32,
        &[0, 4, 68, 132, 134, 136, 160, 162, 164, 168, 172, 176, 180, 184, 188, 192, 196, 228, 260, 268],
        272,
        4,
    );
    check(
        AbiStruct::HmdDesc,
        PointerWidth::Bits64,
        &[
            0, 4, 8, 72, 136, 138, 140, 164, 166, 168, 172, 176, 180, 184, 188, 192, 196, 200, 232,
            264, 272, 276,
        ],
        280,
        4,
    );
}

#[test]
fn texture_headers_of_both_versions() {
    for width in BOTH {
        check(AbiStruct::TextureHeader, width, &[0, 4], 12, 4);
        check(AbiStruct::TextureHeaderLegacy, width, &[0, 4, 12], 28, 4);
    }
}

#[test]
fn gl_texture_is_as_large_as_the_union() {
    check(AbiStruct::GLTextureLegacy, PointerWidth::Bits64, &[0, 28, 32, 40], 96, 8);
    check(AbiStruct::GLTextureLegacy, PointerWidth::Bits32, &[0, 28, 32], 60, 4);
    check(AbiStruct::TextureLegacy, PointerWidth::Bits64, &[0, 28, 32], 96, 8);
    check(AbiStruct::TextureLegacy, PointerWidth::Bits32, &[0, 28], 60, 4);
    check(AbiStruct::GLTexture, PointerWidth::Bits64, &[0, 12, 16, 24], 80, 8);
    check(AbiStruct::GLTexture, PointerWidth::Bits32, &[0, 12, 16], 44, 4);
    check(AbiStruct::Texture, PointerWidth::Bits64, &[0, 12, 16], 80, 8);
    check(AbiStruct::Texture, PointerWidth::Bits32, &[0, 12], 44, 4);
    for width in BOTH {
        assert_eq!(
            layout_of(AbiStruct::GLTexture, width).size(),
            layout_of(AbiStruct::Texture, width).size()
        );
        assert_eq!(
            layout_of(AbiStruct::GLTextureLegacy, width).size(),
            layout_of(AbiStruct::TextureLegacy, width).size()
        );
    }
}

#[test]
fn swap_texture_set_per_width() {
    check(AbiStruct::SwapTextureSet, PointerWidth::Bits32, &[0, 4, 8], 12, 4);
    check(AbiStruct::SwapTextureSet, PointerWidth::Bits64, &[0, 8, 12], 16, 8);
}

#[test]
fn layer_eye_fov_per_width() {
    check(AbiStruct::LayerEyeFov, PointerWidth::Bits32, &[0, 8, 16, 48, 80, 136], 144, 8);
    check(AbiStruct::LayerEyeFov, PointerWidth::Bits64, &[0, 8, 24, 56, 88, 144], 152, 8);
}
