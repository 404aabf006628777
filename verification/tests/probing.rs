use dxva_probe::config::DecoderConfig;
use dxva_probe::config::SURFACE_POOL_COUNT;
use dxva_probe::config::TILE_GRANULARITY;
use dxva_probe::config::round_up_to_multiple_of;
use dxva_probe::config::select_configuration;
use dxva_probe::config::surface_dimensions;
use dxva_probe::naming;
use dxva_probe::probe::CodecFormats;
use dxva_probe::probe::ProbeRequest;
use dxva_probe::probe::ProbeStatus;
use dxva_probe::probe::prepare_triple;
use dxva_probe::probe::probe_plan;
use dxva_probe::probe::probe_resolutions;
use dxva_probe::probe::recognized_codecs;
use dxva_probe::probe::record_outcomes;

fn configs(modes: &[u32]) -> Vec<DecoderConfig> {
    modes
        .iter()
        .map(|&m| DecoderConfig {
            bitstream_raw_mode: m,
        })
        .collect()
}

#[test]
fn rounding_matches_tile_alignment() {
    assert_eq!(round_up_to_multiple_of(1920, 128), 1920);
    assert_eq!(round_up_to_multiple_of(1080, 128), 1152);
    assert_eq!(round_up_to_multiple_of(3840, 128), 3840);
    assert_eq!(round_up_to_multiple_of(2160, 128), 2176);
    assert_eq!(round_up_to_multiple_of(0, 128), 0);
    assert_eq!(round_up_to_multiple_of(1, 128), 128);
    assert_eq!(round_up_to_multiple_of(129, 128), 256);
    assert_eq!(round_up_to_multiple_of(7, 1), 7);
}

#[test]
fn surface_dimensions_round_both_axes() {
    assert_eq!(surface_dimensions(1920, 1080), (1920, 1152));
    assert_eq!(surface_dimensions(3840, 2160), (3840, 2176));
    assert_eq!(TILE_GRANULARITY, 128);
}

#[test]
fn selection_prefers_last_qualifying_configuration() {
    // raw-bitstream modes [0, 1, 0, 2, 0]: the entry with mode 2 wins, being
    // the last qualifying one in enumeration order — not the first.
    let list = configs(&[0, 1, 0, 2, 0]);
    assert_eq!(select_configuration(&list), Some(3));
    assert_eq!(list[3].bitstream_raw_mode, 2);
}

#[test]
fn selection_takes_last_even_among_equals() {
    assert_eq!(select_configuration(&configs(&[1, 1, 1])), Some(2));
    assert_eq!(select_configuration(&configs(&[2, 1])), Some(1));
}

#[test]
fn selection_fails_without_usable_mode() {
    assert_eq!(select_configuration(&configs(&[])), None);
    assert_eq!(select_configuration(&configs(&[0, 0, 3])), None);
}

#[test]
fn prepare_triple_selects_and_rounds() {
    let req = ProbeRequest {
        codec: naming::MODE_H264_E,
        format: naming::FMT_NV12,
        width: 1920,
        height: 1080,
    };
    let settings = prepare_triple(&req, &configs(&[0, 1, 0, 2, 0])).unwrap();
    assert_eq!(settings.selected_config, 3);
    assert_eq!(settings.surface_width, 1920);
    assert_eq!(settings.surface_height, 1152);
    assert_eq!(settings.surface_count, SURFACE_POOL_COUNT);
    assert_eq!(settings.surface_count, 20);
}

#[test]
fn prepare_triple_reports_missing_configuration() {
    let req = ProbeRequest {
        codec: naming::MODE_H264_E,
        format: naming::FMT_NV12,
        width: 3840,
        height: 2160,
    };
    let err = prepare_triple(&req, &configs(&[0, 0])).unwrap_err();
    assert_eq!(err, ProbeStatus::NoUsableConfiguration);
}

#[test]
fn unknown_codecs_are_skipped() {
    let reported = vec![
        0xdeadbeef_u128,
        naming::MODE_H264_E,
        0,
        naming::MODE_HEVC_VLD_MAIN,
    ];
    let kept = recognized_codecs(&reported);
    assert_eq!(kept, vec![naming::MODE_H264_E, naming::MODE_HEVC_VLD_MAIN]);
}

#[test]
fn naming_tables_answer_membership() {
    assert_eq!(naming::codec_name(naming::MODE_H264_E), Some("DXVA_ModeH264_E"));
    assert_eq!(
        naming::codec_name(naming::MODE_AV1_VLD_PROFILE0),
        Some("DXVA_ModeAV1_VLD_Profile0")
    );
    assert_eq!(naming::codec_name(0x1234), None);
    assert_eq!(naming::format_name(naming::FMT_NV12), Some("D3DFMT_NV12"));
    assert_eq!(naming::format_name(21), Some("D3DFMT_A8R8G8B8"));
    assert_eq!(naming::format_name(0xffff_ffff), None);
}

#[test]
fn fourcc_format_codes_match_packing() {
    // Four-character codes pack little-endian: "NV12" reads N, V, 1, 2.
    assert_eq!(naming::FMT_NV12, u32::from_le_bytes(*b"NV12"));
    assert_eq!(naming::FMT_P010, u32::from_le_bytes(*b"P010"));
    assert_eq!(naming::FMT_YUY2, u32::from_le_bytes(*b"YUY2"));
    assert_eq!(naming::FMT_UYVY, u32::from_le_bytes(*b"UYVY"));
}

#[test]
fn resolutions_are_hd_and_uhd() {
    assert_eq!(probe_resolutions(), vec![(1920, 1080), (3840, 2160)]);
}

fn two_codec_menu() -> Vec<CodecFormats> {
    // codec A supports format X; codec B supports formats Y and Z.
    vec![
        CodecFormats {
            codec: naming::MODE_H264_E,
            formats: vec![naming::FMT_NV12],
        },
        CodecFormats {
            codec: naming::MODE_HEVC_VLD_MAIN,
            formats: vec![naming::FMT_NV12, naming::FMT_P010],
        },
    ]
}

#[test]
fn plan_is_the_ordered_cross_product() {
    let plan = probe_plan(&two_codec_menu(), &probe_resolutions());
    // 1 format x 2 resolutions + 2 formats x 2 resolutions = 6 outcomes.
    assert_eq!(plan.len(), 6);
    let expect = |codec, format, width, height| ProbeRequest {
        codec,
        format,
        width,
        height,
    };
    assert_eq!(
        plan,
        vec![
            expect(naming::MODE_H264_E, naming::FMT_NV12, 1920, 1080),
            expect(naming::MODE_H264_E, naming::FMT_NV12, 3840, 2160),
            expect(naming::MODE_HEVC_VLD_MAIN, naming::FMT_NV12, 1920, 1080),
            expect(naming::MODE_HEVC_VLD_MAIN, naming::FMT_NV12, 3840, 2160),
            expect(naming::MODE_HEVC_VLD_MAIN, naming::FMT_P010, 1920, 1080),
            expect(naming::MODE_HEVC_VLD_MAIN, naming::FMT_P010, 3840, 2160),
        ]
    );
}

#[test]
fn codec_without_formats_yields_no_rows() {
    let menu = vec![
        CodecFormats {
            codec: naming::MODE_VP9_VLD_PROFILE0,
            formats: vec![],
        },
        CodecFormats {
            codec: naming::MODE_H264_E,
            formats: vec![naming::FMT_NV12],
        },
    ];
    let plan = probe_plan(&menu, &probe_resolutions());
    assert_eq!(plan.len(), 2);
    assert!(plan.iter().all(|r| r.codec == naming::MODE_H264_E));
}

#[test]
fn probing_twice_gives_identical_outcomes() {
    let menu = two_codec_menu();
    let resolutions = probe_resolutions();
    let statuses = vec![
        ProbeStatus::Success,
        ProbeStatus::NoUsableConfiguration,
        ProbeStatus::Success,
        ProbeStatus::DriverRejected(String::from("E_FAIL")),
        ProbeStatus::Success,
        ProbeStatus::Success,
    ];
    let first = record_outcomes(&probe_plan(&menu, &resolutions), statuses.clone());
    let second = record_outcomes(&probe_plan(&menu, &resolutions), statuses);
    assert_eq!(first, second);
}

#[test]
fn one_failing_triple_leaves_the_others_alone() {
    let plan = probe_plan(&two_codec_menu(), &probe_resolutions());
    let all_good = vec![ProbeStatus::Success; 6];
    let mut one_bad = all_good.clone();
    one_bad[2] = ProbeStatus::DriverRejected(String::from("E_OUTOFMEMORY"));
    let good_outcomes = record_outcomes(&plan, all_good);
    let mixed_outcomes = record_outcomes(&plan, one_bad);
    for i in 0..6 {
        if i == 2 {
            assert_eq!(
                mixed_outcomes[i].status,
                ProbeStatus::DriverRejected(String::from("E_OUTOFMEMORY"))
            );
        } else {
            assert_eq!(mixed_outcomes[i], good_outcomes[i]);
        }
    }
}

#[test]
fn outcomes_carry_their_triple() {
    let plan = probe_plan(&two_codec_menu(), &probe_resolutions());
    let statuses = vec![ProbeStatus::Success; 6];
    let outcomes = record_outcomes(&plan, statuses);
    assert_eq!(outcomes.len(), plan.len());
    for (outcome, request) in outcomes.iter().zip(plan.iter()) {
        assert_eq!(outcome.codec, request.codec);
        assert_eq!(outcome.format, request.format);
        assert_eq!(outcome.width, request.width);
        assert_eq!(outcome.height, request.height);
        assert_eq!(outcome.status, ProbeStatus::Success);
    }
}
