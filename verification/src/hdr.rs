//! HDR mastering metadata, as the host sends it and as the decoder takes it.

use vstd::prelude::*;

verus! {

/// Mastering metadata of the stream's content, as the host sends it.
#[derive(Clone, Copy, Debug, PartialEq, Eq)]
pub struct HdrMeta {
    /// Chromaticities in the order green, blue, red, each as x and y.
    pub display_primaries: [[u16; 2]; 3],
    pub white_point: [u16; 2],
    pub max_display_mastering_luminance: u32,
    pub min_display_mastering_luminance: u32,
    pub max_cll: u16,
    pub max_fall: u16,
}

/// The stream's colour description, in the code points of its bitstream.
#[derive(Clone, Copy, Debug, PartialEq, Eq, Structural)]
pub struct ColorInfo {
    pub primaries: u8,
    pub transfer: u8,
    pub matrix: u8,
}

/// Mastering metadata in the layout of `NDL_DirectVideoSetHDRInfo`.
#[derive(Clone, Copy, Debug, PartialEq, Eq, Structural)]
pub struct HdrInfo {
    pub display_primaries_x0: u32,
    pub display_primaries_y0: u32,
    pub display_primaries_x1: u32,
    pub display_primaries_y1: u32,
    pub display_primaries_x2: u32,
    pub display_primaries_y2: u32,
    pub white_point_x: u32,
    pub white_point_y: u32,
    pub max_display_mastering_luminance: u32,
    pub min_display_mastering_luminance: u32,
    pub max_content_light_level: u32,
    pub max_pic_average_light_level: u32,
    pub transfer_characteristics: u32,
    pub color_primaries: u32,
    pub matrix_coeffs: u32,
    /// What every reserved element holds.
    pub reserved: u8,
}

/// `info` carries exactly what `meta` and `color` say; what is reserved is zero.
pub open spec fn describes(info: HdrInfo, meta: HdrMeta, color: ColorInfo) -> bool {
    &&& info.display_primaries_x0 == meta.display_primaries@[0]@[0]
    &&& info.display_primaries_y0 == meta.display_primaries@[0]@[1]
    &&& info.display_primaries_x1 == meta.display_primaries@[1]@[0]
    &&& info.display_primaries_y1 == meta.display_primaries@[1]@[1]
    &&& info.display_primaries_x2 == meta.display_primaries@[2]@[0]
    &&& info.display_primaries_y2 == meta.display_primaries@[2]@[1]
    &&& info.white_point_x == meta.white_point@[0]
    &&& info.white_point_y == meta.white_point@[1]
    &&& info.max_display_mastering_luminance == meta.max_display_mastering_luminance
    &&& info.min_display_mastering_luminance == meta.min_display_mastering_luminance
    &&& info.max_content_light_level == meta.max_cll
    &&& info.max_pic_average_light_level == meta.max_fall
    &&& info.transfer_characteristics == color.transfer
    &&& info.color_primaries == color.primaries
    &&& info.matrix_coeffs == color.matrix
    &&& info.reserved == 0
}

/// The decoder's form of `meta` and `color`.
pub fn hdr_info(meta: &HdrMeta, color: &ColorInfo) -> (info: HdrInfo)
    ensures
        describes(info, *meta, *color),
{
    let g = meta.display_primaries[0];
    let b = meta.display_primaries[1];
    let r = meta.display_primaries[2];
    HdrInfo {
        display_primaries_x0: u32::from(g[0]),
        display_primaries_y0: u32::from(g[1]),
        display_primaries_x1: u32::from(b[0]),
        display_primaries_y1: u32::from(b[1]),
        display_primaries_x2: u32::from(r[0]),
        display_primaries_y2: u32::from(r[1]),
        white_point_x: u32::from(meta.white_point[0]),
        white_point_y: u32::from(meta.white_point[1]),
        max_display_mastering_luminance: meta.max_display_mastering_luminance,
        min_display_mastering_luminance: meta.min_display_mastering_luminance,
        max_content_light_level: u32::from(meta.max_cll),
        max_pic_average_light_level: u32::from(meta.max_fall),
        transfer_characteristics: u32::from(color.transfer),
        color_primaries: u32::from(color.primaries),
        matrix_coeffs: u32::from(color.matrix),
        reserved: 0,
    }
}

/// The six chromaticities stand in the order in which the metadata has them, x before y, and
/// metadata and colour can be read back from the decoder's form.
pub proof fn law_layout(info: HdrInfo, meta: HdrMeta, color: ColorInfo)
    requires
        describes(info, meta, color),
    ensures
        ({
            let laid_out = seq![
                info.display_primaries_x0,
                info.display_primaries_y0,
                info.display_primaries_x1,
                info.display_primaries_y1,
                info.display_primaries_x2,
                info.display_primaries_y2,
            ];
            forall|k: int, axis: int|
                0 <= k < 3 && 0 <= axis < 2 ==> laid_out[2 * k + axis]
                    == #[trigger] meta.display_primaries@[k]@[axis]
        }),
        ({
            let laid_out = seq![info.white_point_x, info.white_point_y];
            forall|axis: int|
                0 <= axis < 2 ==> laid_out[axis] == #[trigger] meta.white_point@[axis]
        }),
        color == (ColorInfo {
            primaries: info.color_primaries as u8,
            transfer: info.transfer_characteristics as u8,
            matrix: info.matrix_coeffs as u8,
        }),
        meta.max_display_mastering_luminance == info.max_display_mastering_luminance,
        meta.min_display_mastering_luminance == info.min_display_mastering_luminance,
        meta.max_cll == info.max_content_light_level,
        meta.max_fall == info.max_pic_average_light_level,
        info.reserved == 0,
{
    assert forall|k: int, axis: int| 0 <= k < 3 && 0 <= axis < 2 implies seq![
        info.display_primaries_x0,
        info.display_primaries_y0,
        info.display_primaries_x1,
        info.display_primaries_y1,
        info.display_primaries_x2,
        info.display_primaries_y2,
    ][2 * k + axis] == #[trigger] meta.display_primaries@[k]@[axis] by {
        assert(k == 0 || k == 1 || k == 2);
        assert(axis == 0 || axis == 1);
    }
    assert forall|axis: int| 0 <= axis < 2 implies seq![info.white_point_x, info.white_point_y][axis]
        == #[trigger] meta.white_point@[axis] by {
        assert(axis == 0 || axis == 1);
    }
}

} // verus!
