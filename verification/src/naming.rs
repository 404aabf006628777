//! Naming tables: the recognized codec profile identifiers and pixel-format
//! codes, with their human-readable names.
//!
//! A codec profile is identified by a 128-bit value and a pixel format by a
//! 32-bit packed code (an enumerated constant or a four-character code).
//! The prober reports only on identifiers present in these tables; the
//! report falls back to a raw display for values absent from them.

use vstd::prelude::*;

verus! {

/// 128-bit value identifying a decode profile.
pub type CodecId = u128;

/// 32-bit packed pixel-format code.
pub type FormatCode = u32;

pub const MODE_AV1_VLD_12BIT_PROFILE2: CodecId = 0x17127009_a00f_4ce1_994e_bf4081f6f3f0;
pub const MODE_AV1_VLD_12BIT_PROFILE2_420: CodecId = 0x2d80bed6_9cac_4835_9e91_327bbc4f9ee8;
pub const MODE_AV1_VLD_PROFILE0: CodecId = 0xb8be4ccb_cf53_46ba_8d59_d6b8a6da5d2a;
pub const MODE_AV1_VLD_PROFILE1: CodecId = 0x6936ff0f_45b1_4163_9cc1_646ef6946108;
pub const MODE_AV1_VLD_PROFILE2: CodecId = 0x0c5f2aa1_e541_4089_bb7b_98110a19d7c8;
pub const MODE_H261_A: CodecId = 0x1b81be01_a0c7_11d3_b984_00c04f2e73c5;
pub const MODE_H261_B: CodecId = 0x1b81be02_a0c7_11d3_b984_00c04f2e73c5;
pub const MODE_H263_A: CodecId = 0x1b81be03_a0c7_11d3_b984_00c04f2e73c5;
pub const MODE_H263_B: CodecId = 0x1b81be04_a0c7_11d3_b984_00c04f2e73c5;
pub const MODE_H263_C: CodecId = 0x1b81be05_a0c7_11d3_b984_00c04f2e73c5;
pub const MODE_H263_D: CodecId = 0x1b81be06_a0c7_11d3_b984_00c04f2e73c5;
pub const MODE_H263_E: CodecId = 0x1b81be07_a0c7_11d3_b984_00c04f2e73c5;
pub const MODE_H263_F: CodecId = 0x1b81be08_a0c7_11d3_b984_00c04f2e73c5;
pub const MODE_H264_A: CodecId = 0x1b81be64_a0c7_11d3_b984_00c04f2e73c5;
pub const MODE_H264_B: CodecId = 0x1b81be65_a0c7_11d3_b984_00c04f2e73c5;
pub const MODE_H264_C: CodecId = 0x1b81be66_a0c7_11d3_b984_00c04f2e73c5;
pub const MODE_H264_D: CodecId = 0x1b81be67_a0c7_11d3_b984_00c04f2e73c5;
pub const MODE_H264_E: CodecId = 0x1b81be68_a0c7_11d3_b984_00c04f2e73c5;
pub const MODE_H264_F: CodecId = 0x1b81be69_a0c7_11d3_b984_00c04f2e73c5;
pub const MODE_H264_VLD_MULTIVIEW_NOFGT: CodecId = 0x705b9d82_76cf_49d6_b7e6_ac8872db013c;
pub const MODE_H264_VLD_STEREO_NOFGT: CodecId = 0xf9aaccbb_c2b6_4cfc_8779_5707b1760552;
pub const MODE_H264_VLD_STEREO_PROGRESSIVE_NOFGT: CodecId =
    0xd79be8da_0cf1_4c81_b82a_69a4e236f43d;
pub const MODE_H264_VLD_WITHFMOASO_NOFGT: CodecId = 0xd5f04ff9_3418_45d8_9561_32a76aae2ddd;
pub const MODE_HEVC_VLD_MAIN: CodecId = 0x5b11d51b_2f4c_4452_bcc3_09f2a1160cc0;
pub const MODE_HEVC_VLD_MAIN10: CodecId = 0x107af0e0_ef1a_4d19_aba8_67a163073d13;
pub const MODE_MPEG1_A: CodecId = 0x1b81be09_a0c7_11d3_b984_00c04f2e73c5;
pub const MODE_MPEG1_VLD: CodecId = 0x6f3ec719_3735_42cc_8063_65cc3cb36616;
pub const MODE_MPEG2_A: CodecId = 0x1b81be0a_a0c7_11d3_b984_00c04f2e73c5;
pub const MODE_MPEG2_B: CodecId = 0x1b81be0b_a0c7_11d3_b984_00c04f2e73c5;
pub const MODE_MPEG2_C: CodecId = 0x1b81be0c_a0c7_11d3_b984_00c04f2e73c5;
pub const MODE_MPEG2_D: CodecId = 0x1b81be0d_a0c7_11d3_b984_00c04f2e73c5;
pub const MODE_MPEG2AND1_VLD: CodecId = 0x86695f12_340e_4f04_9fd3_9253dd327460;
pub const MODE_MPEG4PT2_VLD_ADVSIMPLE_GMC: CodecId = 0xab998b5b_4258_44a9_9feb_94e597a6baae;
pub const MODE_MPEG4PT2_VLD_ADVSIMPLE_NOGMC: CodecId = 0xed418a9f_010d_4eda_9ae3_9a65358d8d2e;
pub const MODE_MPEG4PT2_VLD_SIMPLE: CodecId = 0xefd64d74_c9e8_41d7_a5e9_e9b0e39fa319;
pub const MODE_NONE: CodecId = 0x1b81be00_a0c7_11d3_b984_00c04f2e73c5;
pub const MODE_VC1_A: CodecId = 0x1b81bea0_a0c7_11d3_b984_00c04f2e73c5;
pub const MODE_VC1_B: CodecId = 0x1b81bea1_a0c7_11d3_b984_00c04f2e73c5;
pub const MODE_VC1_C: CodecId = 0x1b81bea2_a0c7_11d3_b984_00c04f2e73c5;
pub const MODE_VC1_D: CodecId = 0x1b81bea3_a0c7_11d3_b984_00c04f2e73c5;
pub const MODE_VC1_D2010: CodecId = 0x1b81bea4_a0c7_11d3_b984_00c04f2e73c5;
pub const MODE_VP8_VLD: CodecId = 0x90b899ea_3a62_4705_88b3_8df04b2744e7;
pub const MODE_VP9_VLD_10BIT_PROFILE2: CodecId = 0xa4c749ef_6ecf_48aa_8448_50a7a1165ff7;
pub const MODE_VP9_VLD_PROFILE0: CodecId = 0x463707f8_a1d0_4585_876d_83aa6d60b89e;
pub const MODE_WMV8_A: CodecId = 0x1b81be80_a0c7_11d3_b984_00c04f2e73c5;
pub const MODE_WMV8_B: CodecId = 0x1b81be81_a0c7_11d3_b984_00c04f2e73c5;
pub const MODE_WMV9_A: CodecId = 0x1b81be90_a0c7_11d3_b984_00c04f2e73c5;
pub const MODE_WMV9_B: CodecId = 0x1b81be91_a0c7_11d3_b984_00c04f2e73c5;
pub const MODE_WMV9_C: CodecId = 0x1b81be94_a0c7_11d3_b984_00c04f2e73c5;

/// A codec identifier is recognized when it stands in the codec naming
/// table; the prober reports only on recognized profiles.
pub open spec fn recognized_codec(id: CodecId) -> bool {
    ||| id == MODE_AV1_VLD_12BIT_PROFILE2
    ||| id == MODE_AV1_VLD_12BIT_PROFILE2_420
    ||| id == MODE_AV1_VLD_PROFILE0
    ||| id == MODE_AV1_VLD_PROFILE1
    ||| id == MODE_AV1_VLD_PROFILE2
    ||| id == MODE_H261_A
    ||| id == MODE_H261_B
    ||| id == MODE_H263_A
    ||| id == MODE_H263_B
    ||| id == MODE_H263_C
    ||| id == MODE_H263_D
    ||| id == MODE_H263_E
    ||| id == MODE_H263_F
    ||| id == MODE_H264_A
    ||| id == MODE_H264_B
    ||| id == MODE_H264_C
    ||| id == MODE_H264_D
    ||| id == MODE_H264_E
    ||| id == MODE_H264_F
    ||| id == MODE_H264_VLD_MULTIVIEW_NOFGT
    ||| id == MODE_H264_VLD_STEREO_NOFGT
    ||| id == MODE_H264_VLD_STEREO_PROGRESSIVE_NOFGT
    ||| id == MODE_H264_VLD_WITHFMOASO_NOFGT
    ||| id == MODE_HEVC_VLD_MAIN
    ||| id == MODE_HEVC_VLD_MAIN10
    ||| id == MODE_MPEG1_A
    ||| id == MODE_MPEG1_VLD
    ||| id == MODE_MPEG2_A
    ||| id == MODE_MPEG2_B
    ||| id == MODE_MPEG2_C
    ||| id == MODE_MPEG2_D
    ||| id == MODE_MPEG2AND1_VLD
    ||| id == MODE_MPEG4PT2_VLD_ADVSIMPLE_GMC
    ||| id == MODE_MPEG4PT2_VLD_ADVSIMPLE_NOGMC
    ||| id == MODE_MPEG4PT2_VLD_SIMPLE
    ||| id == MODE_NONE
    ||| id == MODE_VC1_A
    ||| id == MODE_VC1_B
    ||| id == MODE_VC1_C
    ||| id == MODE_VC1_D
    ||| id == MODE_VC1_D2010
    ||| id == MODE_VP8_VLD
    ||| id == MODE_VP9_VLD_10BIT_PROFILE2
    ||| id == MODE_VP9_VLD_PROFILE0
    ||| id == MODE_WMV8_A
    ||| id == MODE_WMV8_B
    ||| id == MODE_WMV9_A
    ||| id == MODE_WMV9_B
    ||| id == MODE_WMV9_C
}

/// Looks a codec identifier up in the naming table: a name comes back
/// exactly for the recognized identifiers.
pub fn codec_name(id: CodecId) -> (r: Option<&'static str>)
    ensures
        r is Some <==> recognized_codec(id),
{
    if id == MODE_AV1_VLD_12BIT_PROFILE2 {
        Some("DXVA_ModeAV1_VLD_12bit_Profile2")
    } else if id == MODE_AV1_VLD_12BIT_PROFILE2_420 {
        Some("DXVA_ModeAV1_VLD_12bit_Profile2_420")
    } else if id == MODE_AV1_VLD_PROFILE0 {
        Some("DXVA_ModeAV1_VLD_Profile0")
    } else if id == MODE_AV1_VLD_PROFILE1 {
        Some("DXVA_ModeAV1_VLD_Profile1")
    } else if id == MODE_AV1_VLD_PROFILE2 {
        Some("DXVA_ModeAV1_VLD_Profile2")
    } else if id == MODE_H261_A {
        Some("DXVA_ModeH261_A")
    } else if id == MODE_H261_B {
        Some("DXVA_ModeH261_B")
    } else if id == MODE_H263_A {
        Some("DXVA_ModeH263_A")
    } else if id == MODE_H263_B {
        Some("DXVA_ModeH263_B")
    } else if id == MODE_H263_C {
        Some("DXVA_ModeH263_C")
    } else if id == MODE_H263_D {
        Some("DXVA_ModeH263_D")
    } else if id == MODE_H263_E {
        Some("DXVA_ModeH263_E")
    } else if id == MODE_H263_F {
        Some("DXVA_ModeH263_F")
    } else if id == MODE_H264_A {
        Some("DXVA_ModeH264_A")
    } else if id == MODE_H264_B {
        Some("DXVA_ModeH264_B")
    } else if id == MODE_H264_C {
        Some("DXVA_ModeH264_C")
    } else if id == MODE_H264_D {
        Some("DXVA_ModeH264_D")
    } else if id == MODE_H264_E {
        Some("DXVA_ModeH264_E")
    } else if id == MODE_H264_F {
        Some("DXVA_ModeH264_F")
    } else if id == MODE_H264_VLD_MULTIVIEW_NOFGT {
        Some("DXVA_ModeH264_VLD_Multiview_NoFGT")
    } else if id == MODE_H264_VLD_STEREO_NOFGT {
        Some("DXVA_ModeH264_VLD_Stereo_NoFGT")
    } else if id == MODE_H264_VLD_STEREO_PROGRESSIVE_NOFGT {
        Some("DXVA_ModeH264_VLD_Stereo_Progressive_NoFGT")
    } else if id == MODE_H264_VLD_WITHFMOASO_NOFGT {
        Some("DXVA_ModeH264_VLD_WithFMOASO_NoFGT")
    } else if id == MODE_HEVC_VLD_MAIN {
        Some("DXVA_ModeHEVC_VLD_Main")
    } else if id == MODE_HEVC_VLD_MAIN10 {
        Some("DXVA_ModeHEVC_VLD_Main10")
    } else if id == MODE_MPEG1_A {
        Some("DXVA_ModeMPEG1_A")
    } else if id == MODE_MPEG1_VLD {
        Some("DXVA_ModeMPEG1_VLD")
    } else if id == MODE_MPEG2_A {
        Some("DXVA_ModeMPEG2_A")
    } else if id == MODE_MPEG2_B {
        Some("DXVA_ModeMPEG2_B")
    } else if id == MODE_MPEG2_C {
        Some("DXVA_ModeMPEG2_C")
    } else if id == MODE_MPEG2_D {
        Some("DXVA_ModeMPEG2_D")
    } else if id == MODE_MPEG2AND1_VLD {
        Some("DXVA_ModeMPEG2and1_VLD")
    } else if id == MODE_MPEG4PT2_VLD_ADVSIMPLE_GMC {
        Some("DXVA_ModeMPEG4pt2_VLD_AdvSimple_GMC")
    } else if id == MODE_MPEG4PT2_VLD_ADVSIMPLE_NOGMC {
        Some("DXVA_ModeMPEG4pt2_VLD_AdvSimple_NoGMC")
    } else if id == MODE_MPEG4PT2_VLD_SIMPLE {
        Some("DXVA_ModeMPEG4pt2_VLD_Simple")
    } else if id == MODE_NONE {
        Some("DXVA_ModeNone")
    } else if id == MODE_VC1_A {
        Some("DXVA_ModeVC1_A")
    } else if id == MODE_VC1_B {
        Some("DXVA_ModeVC1_B")
    } else if id == MODE_VC1_C {
        Some("DXVA_ModeVC1_C")
    } else if id == MODE_VC1_D {
        Some("DXVA_ModeVC1_D")
    } else if id == MODE_VC1_D2010 {
        Some("DXVA_ModeVC1_D2010")
    } else if id == MODE_VP8_VLD {
        Some("DXVA_ModeVP8_VLD")
    } else if id == MODE_VP9_VLD_10BIT_PROFILE2 {
        Some("DXVA_ModeVP9_VLD_10bit_Profile2")
    } else if id == MODE_VP9_VLD_PROFILE0 {
        Some("DXVA_ModeVP9_VLD_Profile0")
    } else if id == MODE_WMV8_A {
        Some("DXVA_ModeWMV8_A")
    } else if id == MODE_WMV8_B {
        Some("DXVA_ModeWMV8_B")
    } else if id == MODE_WMV9_A {
        Some("DXVA_ModeWMV9_A")
    } else if id == MODE_WMV9_B {
        Some("DXVA_ModeWMV9_B")
    } else if id == MODE_WMV9_C {
        Some("DXVA_ModeWMV9_C")
    } else {
        None
    }
}

pub const FMT_NV12: FormatCode = 0x3231564E;
pub const FMT_P010: FormatCode = 0x30313050;
pub const FMT_A1: FormatCode = 118;
pub const FMT_A1R5G5B5: FormatCode = 25;
pub const FMT_A2B10G10R10: FormatCode = 31;
pub const FMT_A2B10G10R10_XR_BIAS: FormatCode = 119;
pub const FMT_A2R10G10B10: FormatCode = 35;
pub const FMT_A2W10V10U10: FormatCode = 67;
pub const FMT_A4L4: FormatCode = 52;
pub const FMT_A4R4G4B4: FormatCode = 26;
pub const FMT_A8: FormatCode = 28;
pub const FMT_A8B8G8R8: FormatCode = 32;
pub const FMT_A8L8: FormatCode = 51;
pub const FMT_A8P8: FormatCode = 40;
pub const FMT_A8R3G3B2: FormatCode = 29;
pub const FMT_A8R8G8B8: FormatCode = 21;
pub const FMT_A16B16G16R16: FormatCode = 36;
pub const FMT_A16B16G16R16F: FormatCode = 113;
pub const FMT_A32B32G32R32F: FormatCode = 116;
pub const FMT_BINARYBUFFER: FormatCode = 199;
pub const FMT_CXV8U8: FormatCode = 117;
pub const FMT_D15S1: FormatCode = 73;
pub const FMT_D16: FormatCode = 80;
pub const FMT_D16_LOCKABLE: FormatCode = 70;
pub const FMT_D24FS8: FormatCode = 83;
pub const FMT_D24S8: FormatCode = 75;
pub const FMT_D24X4S4: FormatCode = 79;
pub const FMT_D24X8: FormatCode = 77;
pub const FMT_D32: FormatCode = 71;
pub const FMT_D32F_LOCKABLE: FormatCode = 82;
pub const FMT_D32_LOCKABLE: FormatCode = 84;
pub const FMT_DXT1: FormatCode = 0x31545844;
pub const FMT_DXT2: FormatCode = 0x32545844;
pub const FMT_DXT3: FormatCode = 0x33545844;
pub const FMT_DXT4: FormatCode = 0x34545844;
pub const FMT_DXT5: FormatCode = 0x35545844;
pub const FMT_G8R8_G8B8: FormatCode = 0x42475247;
pub const FMT_G16R16: FormatCode = 34;
pub const FMT_G16R16F: FormatCode = 112;
pub const FMT_G32R32F: FormatCode = 115;
pub const FMT_INDEX16: FormatCode = 101;
pub const FMT_INDEX32: FormatCode = 102;
pub const FMT_L6V5U5: FormatCode = 61;
pub const FMT_L8: FormatCode = 50;
pub const FMT_L16: FormatCode = 81;
pub const FMT_MULTI2_ARGB8: FormatCode = 0x3154454D;
pub const FMT_P8: FormatCode = 41;
pub const FMT_Q8W8V8U8: FormatCode = 63;
pub const FMT_Q16W16V16U16: FormatCode = 110;
pub const FMT_R3G3B2: FormatCode = 27;
pub const FMT_R5G6B5: FormatCode = 23;
pub const FMT_R8G8B8: FormatCode = 20;
pub const FMT_R8G8_B8G8: FormatCode = 0x47424752;
pub const FMT_R16F: FormatCode = 111;
pub const FMT_R32F: FormatCode = 114;
pub const FMT_S8_LOCKABLE: FormatCode = 85;
pub const FMT_UNKNOWN: FormatCode = 0;
pub const FMT_UYVY: FormatCode = 0x59565955;
pub const FMT_V8U8: FormatCode = 60;
pub const FMT_V16U16: FormatCode = 64;
pub const FMT_VERTEXDATA: FormatCode = 100;
pub const FMT_X1R5G5B5: FormatCode = 24;
pub const FMT_X4R4G4B4: FormatCode = 30;
pub const FMT_X8B8G8R8: FormatCode = 33;
pub const FMT_X8L8V8U8: FormatCode = 62;
pub const FMT_X8R8G8B8: FormatCode = 22;
pub const FMT_YUY2: FormatCode = 0x32595559;

/// A pixel-format code is recognized when it stands in the format naming
/// table.
pub open spec fn recognized_format(code: FormatCode) -> bool {
    ||| code == FMT_NV12
    ||| code == FMT_P010
    ||| code == FMT_A1
    ||| code == FMT_A1R5G5B5
    ||| code == FMT_A2B10G10R10
    ||| code == FMT_A2B10G10R10_XR_BIAS
    ||| code == FMT_A2R10G10B10
    ||| code == FMT_A2W10V10U10
    ||| code == FMT_A4L4
    ||| code == FMT_A4R4G4B4
    ||| code == FMT_A8
    ||| code == FMT_A8B8G8R8
    ||| code == FMT_A8L8
    ||| code == FMT_A8P8
    ||| code == FMT_A8R3G3B2
    ||| code == FMT_A8R8G8B8
    ||| code == FMT_A16B16G16R16
    ||| code == FMT_A16B16G16R16F
    ||| code == FMT_A32B32G32R32F
    ||| code == FMT_BINARYBUFFER
    ||| code == FMT_CXV8U8
    ||| code == FMT_D15S1
    ||| code == FMT_D16
    ||| code == FMT_D16_LOCKABLE
    ||| code == FMT_D24FS8
    ||| code == FMT_D24S8
    ||| code == FMT_D24X4S4
    ||| code == FMT_D24X8
    ||| code == FMT_D32
    ||| code == FMT_D32F_LOCKABLE
    ||| code == FMT_D32_LOCKABLE
    ||| code == FMT_DXT1
    ||| code == FMT_DXT2
    ||| code == FMT_DXT3
    ||| code == FMT_DXT4
    ||| code == FMT_DXT5
    ||| code == FMT_G8R8_G8B8
    ||| code == FMT_G16R16
    ||| code == FMT_G16R16F
    ||| code == FMT_G32R32F
    ||| code == FMT_INDEX16
    ||| code == FMT_INDEX32
    ||| code == FMT_L6V5U5
    ||| code == FMT_L8
    ||| code == FMT_L16
    ||| code == FMT_MULTI2_ARGB8
    ||| code == FMT_P8
    ||| code == FMT_Q8W8V8U8
    ||| code == FMT_Q16W16V16U16
    ||| code == FMT_R3G3B2
    ||| code == FMT_R5G6B5
    ||| code == FMT_R8G8B8
    ||| code == FMT_R8G8_B8G8
    ||| code == FMT_R16F
    ||| code == FMT_R32F
    ||| code == FMT_S8_LOCKABLE
    ||| code == FMT_UNKNOWN
    ||| code == FMT_UYVY
    ||| code == FMT_V8U8
    ||| code == FMT_V16U16
    ||| code == FMT_VERTEXDATA
    ||| code == FMT_X1R5G5B5
    ||| code == FMT_X4R4G4B4
    ||| code == FMT_X8B8G8R8
    ||| code == FMT_X8L8V8U8
    ||| code == FMT_X8R8G8B8
    ||| code == FMT_YUY2
}

/// Looks a pixel-format code up in the naming table: a name comes back
/// exactly for the recognized codes.
pub fn format_name(code: FormatCode) -> (r: Option<&'static str>)
    ensures
        r is Some <==> recognized_format(code),
{
    if code == FMT_NV12 {
        Some("D3DFMT_NV12")
    } else if code == FMT_P010 {
        Some("D3DFMT_P010")
    } else if code == FMT_A1 {
        Some("D3DFMT_A1")
    } else if code == FMT_A1R5G5B5 {
        Some("D3DFMT_A1R5G5B5")
    } else if code == FMT_A2B10G10R10 {
        Some("D3DFMT_A2B10G10R10")
    } else if code == FMT_A2B10G10R10_XR_BIAS {
        Some("D3DFMT_A2B10G10R10_XR_BIAS")
    } else if code == FMT_A2R10G10B10 {
        Some("D3DFMT_A2R10G10B10")
    } else if code == FMT_A2W10V10U10 {
        Some("D3DFMT_A2W10V10U10")
    } else if code == FMT_A4L4 {
        Some("D3DFMT_A4L4")
    } else if code == FMT_A4R4G4B4 {
        Some("D3DFMT_A4R4G4B4")
    } else if code == FMT_A8 {
        Some("D3DFMT_A8")
    } else if code == FMT_A8B8G8R8 {
        Some("D3DFMT_A8B8G8R8")
    } else if code == FMT_A8L8 {
        Some("D3DFMT_A8L8")
    } else if code == FMT_A8P8 {
        Some("D3DFMT_A8P8")
    } else if code == FMT_A8R3G3B2 {
        Some("D3DFMT_A8R3G3B2")
    } else if code == FMT_A8R8G8B8 {
        Some("D3DFMT_A8R8G8B8")
    } else if code == FMT_A16B16G16R16 {
        Some("D3DFMT_A16B16G16R16")
    } else if code == FMT_A16B16G16R16F {
        Some("D3DFMT_A16B16G16R16F")
    } else if code == FMT_A32B32G32R32F {
        Some("D3DFMT_A32B32G32R32F")
    } else if code == FMT_BINARYBUFFER {
        Some("D3DFMT_BINARYBUFFER")
    } else if code == FMT_CXV8U8 {
        Some("D3DFMT_CxV8U8")
    } else if code == FMT_D15S1 {
        Some("D3DFMT_D15S1")
    } else if code == FMT_D16 {
        Some("D3DFMT_D16")
    } else if code == FMT_D16_LOCKABLE {
        Some("D3DFMT_D16_LOCKABLE")
    } else if code == FMT_D24FS8 {
        Some("D3DFMT_D24FS8")
    } else if code == FMT_D24S8 {
        Some("D3DFMT_D24S8")
    } else if code == FMT_D24X4S4 {
        Some("D3DFMT_D24X4S4")
    } else if code == FMT_D24X8 {
        Some("D3DFMT_D24X8")
    } else if code == FMT_D32 {
        Some("D3DFMT_D32")
    } else if code == FMT_D32F_LOCKABLE {
        Some("D3DFMT_D32F_LOCKABLE")
    } else if code == FMT_D32_LOCKABLE {
        Some("D3DFMT_D32_LOCKABLE")
    } else if code == FMT_DXT1 {
        Some("D3DFMT_DXT1")
    } else if code == FMT_DXT2 {
        Some("D3DFMT_DXT2")
    } else if code == FMT_DXT3 {
        Some("D3DFMT_DXT3")
    } else if code == FMT_DXT4 {
        Some("D3DFMT_DXT4")
    } else if code == FMT_DXT5 {
        Some("D3DFMT_DXT5")
    } else if code == FMT_G8R8_G8B8 {
        Some("D3DFMT_G8R8_G8B8")
    } else if code == FMT_G16R16 {
        Some("D3DFMT_G16R16")
    } else if code == FMT_G16R16F {
        Some("D3DFMT_G16R16F")
    } else if code == FMT_G32R32F {
        Some("D3DFMT_G32R32F")
    } else if code == FMT_INDEX16 {
        Some("D3DFMT_INDEX16")
    } else if code == FMT_INDEX32 {
        Some("D3DFMT_INDEX32")
    } else if code == FMT_L6V5U5 {
        Some("D3DFMT_L6V5U5")
    } else if code == FMT_L8 {
        Some("D3DFMT_L8")
    } else if code == FMT_L16 {
        Some("D3DFMT_L16")
    } else if code == FMT_MULTI2_ARGB8 {
        Some("D3DFMT_MULTI2_ARGB8")
    } else if code == FMT_P8 {
        Some("D3DFMT_P8")
    } else if code == FMT_Q8W8V8U8 {
        Some("D3DFMT_Q8W8V8U8")
    } else if code == FMT_Q16W16V16U16 {
        Some("D3DFMT_Q16W16V16U16")
    } else if code == FMT_R3G3B2 {
        Some("D3DFMT_R3G3B2")
    } else if code == FMT_R5G6B5 {
        Some("D3DFMT_R5G6B5")
    } else if code == FMT_R8G8B8 {
        Some("D3DFMT_R8G8B8")
    } else if code == FMT_R8G8_B8G8 {
        Some("D3DFMT_R8G8_B8G8")
    } else if code == FMT_R16F {
        Some("D3DFMT_R16F")
    } else if code == FMT_R32F {
        Some("D3DFMT_R32F")
    } else if code == FMT_S8_LOCKABLE {
        Some("D3DFMT_S8_LOCKABLE")
    } else if code == FMT_UNKNOWN {
        Some("D3DFMT_UNKNOWN")
    } else if code == FMT_UYVY {
        Some("D3DFMT_UYVY")
    } else if code == FMT_V8U8 {
        Some("D3DFMT_V8U8")
    } else if code == FMT_V16U16 {
        Some("D3DFMT_V16U16")
    } else if code == FMT_VERTEXDATA {
        Some("D3DFMT_VERTEXDATA")
    } else if code == FMT_X1R5G5B5 {
        Some("D3DFMT_X1R5G5B5")
    } else if code == FMT_X4R4G4B4 {
        Some("D3DFMT_X4R4G4B4")
    } else if code == FMT_X8B8G8R8 {
        Some("D3DFMT_X8B8G8R8")
    } else if code == FMT_X8L8V8U8 {
        Some("D3DFMT_X8L8V8U8")
    } else if code == FMT_X8R8G8B8 {
        Some("D3DFMT_X8R8G8B8")
    } else if code == FMT_YUY2 {
        Some("D3DFMT_YUY2")
    } else {
        None
    }
}

} // verus!
