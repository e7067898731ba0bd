//! `seq_parameter_set_data()` (7.3.2.1.1).
use vstd::prelude::*;
use crate::syntax::{
    ev_begin, ev_end, ev_end_for, ev_end_if, ev_fixed, ev_flag, ev_for, ev_if, ev_iter, ev_se,
    ev_ue, in_block, lemma_closed_opened, nesting, opened, tv, well_nested, Block, EventView,
    FieldValue, SyntaxLog, Term,
};
use vstd::seq_lib::lemma_concat_associative;
use vstd::arithmetic::power2::{lemma2_to64, pow2};
use crate::scaling::{describe_matrix_entries, matrix_iters};
use crate::text::{around, idx1, indexed1, number_between};
use crate::vui::{describe_vui, u, vui_events, only_if, VuiParameters};
use crate::SpsDescribe;

verus! {

/// A sequence-level scaling matrix: the `nextScale` values of each present
/// list (see [`crate::scaling`]), six 4x4 lists, then two or six 8x8 lists.
pub struct SeqScalingMatrix {
    pub scaling_lists4x4: Vec<Option<Vec<u8>>>,
    pub scaling_lists8x8: Vec<Option<Vec<u8>>>,
}

pub struct ChromaInfo {
    pub chroma_format_idc: u32,
    pub separate_colour_plane_flag: bool,
    pub bit_depth_luma_minus8: u8,
    pub bit_depth_chroma_minus8: u8,
    pub qpprime_y_zero_transform_bypass_flag: bool,
    pub scaling_matrix: Option<SeqScalingMatrix>,
}

pub enum PicOrderCntType {
    TypeZero { log2_max_pic_order_cnt_lsb_minus4: u8 },
    TypeOne {
        delta_pic_order_always_zero_flag: bool,
        offset_for_non_ref_pic: i32,
        offset_for_top_to_bottom_field: i32,
        offsets_for_ref_frame: Vec<i32>,
    },
    TypeTwo,
}

pub enum FrameMbsFlags {
    Frames,
    Fields { mb_adaptive_frame_field_flag: bool },
}

pub struct FrameCropping {
    pub left_offset: u32,
    pub right_offset: u32,
    pub top_offset: u32,
    pub bottom_offset: u32,
}

/// A sequence parameter set. `constraint_flags` is the byte that holds
/// `constraint_set0_flag` (most significant bit) to `constraint_set5_flag`
/// and `reserved_zero_2bits` (the two least significant bits).
pub struct SeqParameterSet {
    pub profile_idc: u8,
    pub constraint_flags: u8,
    pub level_idc: u8,
    pub seq_parameter_set_id: u8,
    pub chroma_info: ChromaInfo,
    pub log2_max_frame_num_minus4: u8,
    pub pic_order_cnt: PicOrderCntType,
    pub max_num_ref_frames: u32,
    pub gaps_in_frame_num_value_allowed_flag: bool,
    pub pic_width_in_mbs_minus1: u32,
    pub pic_height_in_map_units_minus1: u32,
    pub frame_mbs_flags: FrameMbsFlags,
    pub direct_8x8_inference_flag: bool,
    pub frame_cropping: Option<FrameCropping>,
    pub vui_parameters: Option<VuiParameters>,
}

/// The profiles whose SPS carries the chroma format, bit depths and
/// sequence scaling matrix.
pub open spec fn profile_has_chroma_info(profile_idc: u8) -> bool {
    profile_idc == 100 || profile_idc == 110 || profile_idc == 122 || profile_idc == 244
        || profile_idc == 44 || profile_idc == 83 || profile_idc == 86 || profile_idc == 118
        || profile_idc == 128 || profile_idc == 134 || profile_idc == 135 || profile_idc == 138
        || profile_idc == 139
}

/// Whether the profile carries chroma information, as `h264_reader` decides it
/// with `ProfileIdc::has_chroma_info`; its source matches `profile_idc`
/// against exactly the thirteen values of [`profile_has_chroma_info`].
#[verifier::external_body]
fn has_chroma_info(profile_idc: u8) -> (r: bool)
    ensures
        r == profile_has_chroma_info(profile_idc),
{
    h264_reader::nal::sps::ProfileIdc::from(profile_idc).has_chroma_info()
}

pub const PROFILE_CONDITION: &'static str = "profile_idc == 100 || profile_idc == 110 || profile_idc == 122 || profile_idc == 244 || profile_idc == 44 || profile_idc == 83 || profile_idc == 86 || profile_idc == 118 || profile_idc == 128 || profile_idc == 138 || profile_idc == 139 || profile_idc == 134 || profile_idc == 135";

/// `constraint_set{i}_flag`: bit `7 - i` of the constraint byte.
pub open spec fn constraint_flag(cf: u8, i: nat) -> bool {
    (cf >> ((7 - i) as u8)) & 1u8 == 1u8
}

pub open spec fn constraint_iters(cf: u8, n: nat) -> Seq<EventView>
    decreases n,
{
    if n == 0 {
        Seq::empty()
    } else {
        constraint_iters(cf, (n - 1) as nat).push(
            ev_flag(around("constraint_set"@, (n - 1) as nat, "_flag"@), constraint_flag(cf, (n - 1) as nat)),
        )
    }
}

/// The constraint flags that the SPS description shows are the top six bits
/// of the constraint byte, most significant first: `constraint_set{i}_flag`,
/// the field right after the element, `profile_idc` and the `i` flags before
/// it, is set exactly when bit `7 - i` of the byte is.
pub proof fn lemma_constraint_flags_are_top_bits(sps: SeqParameterSet, i: nat)
    requires
        i < 6,
    ensures
        sps_events(sps)[2 + i as int] == ev_flag(
            around("constraint_set"@, i, "_flag"@),
            (sps.constraint_flags as int / (pow2((7 - i) as nat) as int)) % 2 == 1,
        ),
{
    let cf = sps.constraint_flags;
    lemma2_to64();
    reveal_with_fuel(constraint_iters, 7);
    let ci = constraint_iters(cf, 6);
    assert(ci.len() == 6);
    assert(ci[i as int] == ev_flag(around("constraint_set"@, i, "_flag"@), constraint_flag(cf, i)));
    if i == 0 {
        assert(((cf >> 7u8) & 1u8 == 1u8) == ((cf / 128) % 2 == 1)) by (bit_vector);
    } else if i == 1 {
        assert(((cf >> 6u8) & 1u8 == 1u8) == ((cf / 64) % 2 == 1)) by (bit_vector);
    } else if i == 2 {
        assert(((cf >> 5u8) & 1u8 == 1u8) == ((cf / 32) % 2 == 1)) by (bit_vector);
    } else if i == 3 {
        assert(((cf >> 4u8) & 1u8 == 1u8) == ((cf / 16) % 2 == 1)) by (bit_vector);
    } else if i == 4 {
        assert(((cf >> 3u8) & 1u8 == 1u8) == ((cf / 8) % 2 == 1)) by (bit_vector);
    } else {
        assert(((cf >> 2u8) & 1u8 == 1u8) == ((cf / 4) % 2 == 1)) by (bit_vector);
    }
    let head = sps_head(sps);
    assert(head[2 + i as int] == ci[i as int]);
    assert(sps_events(sps)[2 + i as int] == head[2 + i as int]);
}

/// Each plain field of the SPS is shown with that field's own value: the
/// profile, the two reserved bits (the byte's two lowest bits), the level, the
/// id, the frame number width, the reference frame count, the picture size in
/// macroblocks and map units, and the frame and inference flags.
pub proof fn lemma_sps_fields_carry_their_values(sps: SeqParameterSet)
    ensures
        sps_events(sps).contains(ev_fixed("profile_idc"@, 8, u(sps.profile_idc as int))),
        sps_events(sps).contains(
            ev_fixed("reserved_zero_2bits"@, 2, u(sps.constraint_flags as int % 4)),
        ),
        sps_events(sps).contains(ev_fixed("level_idc"@, 8, u(sps.level_idc as int))),
        sps_events(sps).contains(ev_ue("seq_parameter_set_id"@, sps.seq_parameter_set_id as u64)),
        sps_events(sps).contains(
            ev_ue("log2_max_frame_num_minus4"@, sps.log2_max_frame_num_minus4 as u64),
        ),
        sps_events(sps).contains(ev_ue("max_num_ref_frames"@, sps.max_num_ref_frames as u64)),
        sps_events(sps).contains(
            ev_flag(
                "gaps_in_frame_num_value_allowed_flag"@,
                sps.gaps_in_frame_num_value_allowed_flag,
            ),
        ),
        sps_events(sps).contains(
            ev_ue("pic_width_in_mbs_minus1"@, sps.pic_width_in_mbs_minus1 as u64),
        ),
        sps_events(sps).contains(
            ev_ue("pic_height_in_map_units_minus1"@, sps.pic_height_in_map_units_minus1 as u64),
        ),
        sps_events(sps).contains(
            ev_flag("frame_mbs_only_flag"@, sps.frame_mbs_flags is Frames),
        ),
        sps_events(sps).contains(
            ev_flag("direct_8x8_inference_flag"@, sps.direct_8x8_inference_flag),
        ),
{
    let cf = sps.constraint_flags;
    assert(cf & 3u8 == cf % 4) by (bit_vector);
    reveal_with_fuel(constraint_iters, 7);
    let head = sps_head(sps);
    let cb = chroma_block(sps);
    let lf = seq![ev_ue("log2_max_frame_num_minus4"@, sps.log2_max_frame_num_minus4 as u64)];
    let poc = poc_events(sps.pic_order_cnt);
    let fb = frame_block(sps);
    let tail = crop_block(sps.frame_cropping) + vui_block(sps.vui_parameters) + seq![ev_end()];
    let evs = sps_events(sps);
    assert(evs =~= head + cb + lf + poc + fb + tail);
    assert(constraint_iters(cf, 6).len() == 6);
    assert(evs[1] == head[1]);
    assert(evs[8] == head[8]);
    assert(evs[9] == head[9]);
    assert(evs[10] == head[10]);
    let a: int = head.len() + cb.len() as int;
    assert(evs[a] == lf[0]);
    let b: int = a + 1 + poc.len() as int;
    assert(evs[b] == fb[0]);
    assert(evs[b + 1] == fb[1]);
    assert(evs[b + 2] == fb[2]);
    assert(evs[b + 3] == fb[3]);
    assert(evs[b + 4] == fb[4]);
    let last: int = fb.len() as int - 1;
    assert(evs[b + last] == fb[last]);
}

/// From the start of the element to `seq_parameter_set_id`.
pub open spec fn sps_head(sps: SeqParameterSet) -> Seq<EventView> {
    seq![
        ev_begin("seq_parameter_set_data"@),
        ev_fixed("profile_idc"@, 8, u(sps.profile_idc as int)),
    ] + constraint_iters(sps.constraint_flags, 6) + seq![
        ev_fixed("reserved_zero_2bits"@, 2, u((sps.constraint_flags & 3u8) as int)),
        ev_fixed("level_idc"@, 8, u(sps.level_idc as int)),
        ev_ue("seq_parameter_set_id"@, sps.seq_parameter_set_id as u64),
    ]
}

fn describe_sps_head(log: &mut SyntaxLog, sps: &SeqParameterSet)
    ensures
        final(log)@ == old(log)@ + sps_head(*sps),
        nesting(final(log)@) == opened(nesting(old(log)@), Block::Element),
{
    let ghost base = log@;
    log.begin_element("seq_parameter_set_data");
    log.fixed("profile_idc", 8, FieldValue::Unsigned(sps.profile_idc as u64));
    let ghost start = log@;
    let cf = sps.constraint_flags;
    let mut i: u8 = 0;
    while i < 6
        invariant
            nesting(log@) == nesting(start),
            i <= 6,
            cf == sps.constraint_flags,
            log@ == start + constraint_iters(cf, i as nat),
        decreases 6 - i,
    {
        let flag = (cf >> (7 - i)) & 1 == 1;
        log.flag_named(number_between("constraint_set", i as u64, "_flag"), flag);
        assert(log@ =~= start + constraint_iters(cf, (i + 1) as nat));
        i = i + 1;
    }
    log.fixed("reserved_zero_2bits", 2, FieldValue::Unsigned((cf & 3) as u64));
    log.fixed("level_idc", 8, FieldValue::Unsigned(sps.level_idc as u64));
    log.ue("seq_parameter_set_id", sps.seq_parameter_set_id as u64);
    assert(final(log)@ =~= old(log)@ + sps_head(*sps));
}

/// The loop over the lists of a sequence scaling matrix: 8 lists, or 12 for
/// 4:4:4.
pub open spec fn seq_matrix_events(m: SeqScalingMatrix, cfi: u32) -> Seq<EventView> {
    let count: nat = if cfi != 3 {
        8
    } else {
        12
    };
    let header = if cfi != 3 {
        "i = 0; i < 8; i++"@
    } else {
        "i = 0; i < 12; i++"@
    };
    seq![ev_for(header, seq![tv("chroma_format_idc"@, u(cfi as int))])] + matrix_iters(
        "seq_scaling_list_present_flag"@,
        m.scaling_lists4x4@,
        m.scaling_lists8x8@,
        count,
    ) + seq![ev_end_for()]
}

fn describe_seq_scaling_matrix(log: &mut SyntaxLog, m: &SeqScalingMatrix, cfi: u32)
    ensures
        final(log)@ == old(log)@ + seq_matrix_events(*m, cfi),
        nesting(final(log)@) == nesting(old(log)@),
{
    let count: u32 = if cfi != 3 {
        8
    } else {
        12
    };
    let header = if cfi != 3 {
        "i = 0; i < 8; i++"
    } else {
        "i = 0; i < 12; i++"
    };
    log.begin_for1(header, Term::new("chroma_format_idc", FieldValue::Unsigned(cfi as u64)));
    describe_matrix_entries(
        log,
        "seq_scaling_list_present_flag",
        &m.scaling_lists4x4,
        &m.scaling_lists8x8,
        count,
    );
    log.end_for();
    assert(final(log)@ =~= old(log)@ + seq_matrix_events(*m, cfi));
}

/// The fields of the chroma information block.
pub open spec fn chroma_info_events(ci: ChromaInfo) -> Seq<EventView> {
    let cfi = ci.chroma_format_idc;
    seq![
        ev_ue("chroma_format_idc"@, cfi as u64),
        ev_if("chroma_format_idc == 3"@, seq![tv("chroma_format_idc"@, u(cfi as int))], cfi == 3),
    ] + only_if(cfi == 3, seq![ev_flag("separate_colour_plane_flag"@, ci.separate_colour_plane_flag)])
        + seq![
        ev_end_if(),
        ev_ue("bit_depth_luma_minus8"@, ci.bit_depth_luma_minus8 as u64),
        ev_ue("bit_depth_chroma_minus8"@, ci.bit_depth_chroma_minus8 as u64),
        ev_flag(
            "qpprime_y_zero_transform_bypass_flag"@,
            ci.qpprime_y_zero_transform_bypass_flag,
        ),
        ev_flag("seq_scaling_matrix_present_flag"@, ci.scaling_matrix is Some),
        ev_if("seq_scaling_matrix_present_flag"@, seq![], ci.scaling_matrix is Some),
    ] + (match ci.scaling_matrix {
        Some(m) => seq_matrix_events(m, cfi),
        None => Seq::empty(),
    }) + seq![ev_end_if()]
}

fn describe_chroma_info(log: &mut SyntaxLog, info: &ChromaInfo)
    ensures
        final(log)@ == old(log)@ + chroma_info_events(*info),
        nesting(final(log)@) == nesting(old(log)@),
{
    let chroma_format_idc = info.chroma_format_idc;
    log.ue("chroma_format_idc", chroma_format_idc as u64);
    let is_444 = chroma_format_idc == 3;
    log.begin_if1(
        "chroma_format_idc == 3",
        Term::new("chroma_format_idc", FieldValue::Unsigned(chroma_format_idc as u64)),
        is_444,
    );
    if is_444 {
        log.flag("separate_colour_plane_flag", info.separate_colour_plane_flag);
    }
    log.end_if();
    log.ue("bit_depth_luma_minus8", info.bit_depth_luma_minus8 as u64);
    log.ue("bit_depth_chroma_minus8", info.bit_depth_chroma_minus8 as u64);
    log.flag("qpprime_y_zero_transform_bypass_flag", info.qpprime_y_zero_transform_bypass_flag);
    let has_scaling = info.scaling_matrix.is_some();
    log.flag("seq_scaling_matrix_present_flag", has_scaling);
    log.begin_if("seq_scaling_matrix_present_flag", has_scaling);
    if let Some(matrix) = &info.scaling_matrix {
        describe_seq_scaling_matrix(log, matrix, chroma_format_idc);
    }
    log.end_if();
    assert(final(log)@ =~= old(log)@ + chroma_info_events(*info));
}

/// The chroma block: its condition on `profile_idc` and, when it holds, the
/// chroma information.
pub open spec fn chroma_block(sps: SeqParameterSet) -> Seq<EventView> {
    let has = profile_has_chroma_info(sps.profile_idc);
    seq![
        ev_if(
            PROFILE_CONDITION@,
            seq![tv("profile_idc"@, u(sps.profile_idc as int))],
            has,
        ),
    ] + only_if(has, chroma_info_events(sps.chroma_info)) + seq![ev_end_if()]
}

fn describe_chroma_block(log: &mut SyntaxLog, sps: &SeqParameterSet)
    ensures
        final(log)@ == old(log)@ + chroma_block(*sps),
        nesting(final(log)@) == nesting(old(log)@),
{
    let has_chroma = has_chroma_info(sps.profile_idc);
    log.begin_if1(
        PROFILE_CONDITION,
        Term::new("profile_idc", FieldValue::Unsigned(sps.profile_idc as u64)),
        has_chroma,
    );
    if has_chroma {
        describe_chroma_info(log, &sps.chroma_info);
    }
    log.end_if();
    assert(final(log)@ =~= old(log)@ + chroma_block(*sps));
}

/// `pic_order_cnt_type` as a number.
pub open spec fn poc_type(poc: PicOrderCntType) -> u32 {
    match poc {
        PicOrderCntType::TypeZero { .. } => 0,
        PicOrderCntType::TypeOne { .. } => 1,
        PicOrderCntType::TypeTwo => 2,
    }
}

pub fn pic_order_cnt_type(poc: &PicOrderCntType) -> (t: u32)
    ensures
        t == poc_type(*poc),
{
    match poc {
        PicOrderCntType::TypeZero { .. } => 0,
        PicOrderCntType::TypeOne { .. } => 1,
        PicOrderCntType::TypeTwo => 2,
    }
}

pub open spec fn offset_iters(offsets: Seq<i32>, n: nat) -> Seq<EventView>
    decreases n,
{
    if n == 0 {
        Seq::empty()
    } else {
        offset_iters(offsets, (n - 1) as nat) + seq![
            ev_iter("i"@, (n - 1) as nat),
            ev_se(idx1("offset_for_ref_frame"@, (n - 1) as nat), offsets[n - 1] as i64),
        ]
    }
}

/// `pic_order_cnt_type` and the fields that depend on it.
pub open spec fn poc_events(poc: PicOrderCntType) -> Seq<EventView> {
    let t = poc_type(poc);
    seq![
        ev_ue("pic_order_cnt_type"@, t as u64),
        ev_if("pic_order_cnt_type == 0"@, seq![tv("pic_order_cnt_type"@, u(t as int))], t == 0),
    ] + (match poc {
        PicOrderCntType::TypeZero { log2_max_pic_order_cnt_lsb_minus4 } => seq![
            ev_ue("log2_max_pic_order_cnt_lsb_minus4"@, log2_max_pic_order_cnt_lsb_minus4 as u64),
        ],
        _ => Seq::empty(),
    }) + seq![ev_else_if_plain("pic_order_cnt_type == 1"@, t == 1)] + (match poc {
        PicOrderCntType::TypeOne {
            delta_pic_order_always_zero_flag,
            offset_for_non_ref_pic,
            offset_for_top_to_bottom_field,
            offsets_for_ref_frame,
        } => {
            let n = offsets_for_ref_frame@.len();
            let num = (n as u32) as u64;
            seq![
                ev_flag("delta_pic_order_always_zero_flag"@, delta_pic_order_always_zero_flag),
                ev_se("offset_for_non_ref_pic"@, offset_for_non_ref_pic as i64),
                ev_se("offset_for_top_to_bottom_field"@, offset_for_top_to_bottom_field as i64),
                ev_ue("num_ref_frames_in_pic_order_cnt_cycle"@, num),
                ev_for(
                    "i = 0; i < num_ref_frames_in_pic_order_cnt_cycle; i++"@,
                    seq![tv("num_ref_frames_in_pic_order_cnt_cycle"@, FieldValue::Unsigned(num))],
                ),
            ] + offset_iters(offsets_for_ref_frame@, n) + seq![ev_end_for()]
        },
        _ => Seq::empty(),
    }) + seq![ev_end_if()]
}

pub open spec fn ev_else_if_plain(condition: Seq<char>, taken: bool) -> EventView {
    crate::syntax::ev_else_if(condition, seq![], taken)
}

fn describe_offsets(log: &mut SyntaxLog, offsets: &Vec<i32>)
    requires
        in_block(old(log)@, Block::Loop),
    ensures
        final(log)@ == old(log)@ + offset_iters(offsets@, offsets@.len()),
        nesting(final(log)@) == nesting(old(log)@),
{
    let ghost start = log@;
    let mut i: usize = 0;
    while i < offsets.len()
        invariant
            nesting(log@) == nesting(start),
            in_block(start, Block::Loop),
            i <= offsets@.len(),
            log@ == start + offset_iters(offsets@, i as nat),
        decreases offsets.len() - i,
    {
        log.for_iteration("i", i as u64);
        log.se_named(indexed1("offset_for_ref_frame", i as u64), offsets[i] as i64);
        assert(log@ =~= start + offset_iters(offsets@, (i + 1) as nat));
        i = i + 1;
    }
}

fn describe_pic_order_cnt(log: &mut SyntaxLog, poc: &PicOrderCntType)
    ensures
        final(log)@ == old(log)@ + poc_events(*poc),
        nesting(final(log)@) == nesting(old(log)@),
{
    let t = pic_order_cnt_type(poc);
    log.ue("pic_order_cnt_type", t as u64);
    log.begin_if1(
        "pic_order_cnt_type == 0",
        Term::new("pic_order_cnt_type", FieldValue::Unsigned(t as u64)),
        t == 0,
    );
    if let PicOrderCntType::TypeZero { log2_max_pic_order_cnt_lsb_minus4 } = poc {
        log.ue("log2_max_pic_order_cnt_lsb_minus4", *log2_max_pic_order_cnt_lsb_minus4 as u64);
    }
    log.begin_else_if("pic_order_cnt_type == 1", t == 1);
    let ghost mid = log@;
    if let PicOrderCntType::TypeOne {
        delta_pic_order_always_zero_flag,
        offset_for_non_ref_pic,
        offset_for_top_to_bottom_field,
        offsets_for_ref_frame,
    } = poc {
        log.flag("delta_pic_order_always_zero_flag", *delta_pic_order_always_zero_flag);
        log.se("offset_for_non_ref_pic", *offset_for_non_ref_pic as i64);
        log.se("offset_for_top_to_bottom_field", *offset_for_top_to_bottom_field as i64);
        let num_ref = offsets_for_ref_frame.len() as u32;
        log.ue("num_ref_frames_in_pic_order_cnt_cycle", num_ref as u64);
        log.begin_for1(
            "i = 0; i < num_ref_frames_in_pic_order_cnt_cycle; i++",
            Term::new("num_ref_frames_in_pic_order_cnt_cycle", FieldValue::Unsigned(num_ref as u64)),
        );
        describe_offsets(log, offsets_for_ref_frame);
        log.end_for();
    }
    log.end_if();
    assert(final(log)@ =~= old(log)@ + poc_events(*poc));
}

/// From `max_num_ref_frames` to `direct_8x8_inference_flag`.
pub open spec fn frame_block(sps: SeqParameterSet) -> Seq<EventView> {
    let fmo = sps.frame_mbs_flags is Frames;
    seq![
        ev_ue("max_num_ref_frames"@, sps.max_num_ref_frames as u64),
        ev_flag(
            "gaps_in_frame_num_value_allowed_flag"@,
            sps.gaps_in_frame_num_value_allowed_flag,
        ),
        ev_ue("pic_width_in_mbs_minus1"@, sps.pic_width_in_mbs_minus1 as u64),
        ev_ue("pic_height_in_map_units_minus1"@, sps.pic_height_in_map_units_minus1 as u64),
        ev_flag("frame_mbs_only_flag"@, fmo),
        ev_if("!frame_mbs_only_flag"@, seq![tv("frame_mbs_only_flag"@, FieldValue::Bool(fmo))], !fmo),
    ] + (match sps.frame_mbs_flags {
        FrameMbsFlags::Fields { mb_adaptive_frame_field_flag } => seq![
            ev_flag("mb_adaptive_frame_field_flag"@, mb_adaptive_frame_field_flag),
        ],
        FrameMbsFlags::Frames => Seq::empty(),
    }) + seq![ev_end_if(), ev_flag("direct_8x8_inference_flag"@, sps.direct_8x8_inference_flag)]
}

fn describe_frame_block(log: &mut SyntaxLog, sps: &SeqParameterSet)
    ensures
        final(log)@ == old(log)@ + frame_block(*sps),
        nesting(final(log)@) == nesting(old(log)@),
{
    log.ue("max_num_ref_frames", sps.max_num_ref_frames as u64);
    log.flag("gaps_in_frame_num_value_allowed_flag", sps.gaps_in_frame_num_value_allowed_flag);
    log.ue("pic_width_in_mbs_minus1", sps.pic_width_in_mbs_minus1 as u64);
    log.ue("pic_height_in_map_units_minus1", sps.pic_height_in_map_units_minus1 as u64);
    let frame_mbs_only = match sps.frame_mbs_flags {
        FrameMbsFlags::Frames => true,
        FrameMbsFlags::Fields { .. } => false,
    };
    log.flag("frame_mbs_only_flag", frame_mbs_only);
    log.begin_if1(
        "!frame_mbs_only_flag",
        Term::new("frame_mbs_only_flag", FieldValue::Bool(frame_mbs_only)),
        !frame_mbs_only,
    );
    if let FrameMbsFlags::Fields { mb_adaptive_frame_field_flag } = &sps.frame_mbs_flags {
        log.flag("mb_adaptive_frame_field_flag", *mb_adaptive_frame_field_flag);
    }
    log.end_if();
    log.flag("direct_8x8_inference_flag", sps.direct_8x8_inference_flag);
    assert(final(log)@ =~= old(log)@ + frame_block(*sps));
}

/// `frame_cropping_flag` and the offsets when it is set.
pub open spec fn crop_block(c: Option<FrameCropping>) -> Seq<EventView> {
    seq![
        ev_flag("frame_cropping_flag"@, c is Some),
        ev_if("frame_cropping_flag"@, seq![], c is Some),
    ] + (match c {
        Some(crop) => seq![
            ev_ue("frame_crop_left_offset"@, crop.left_offset as u64),
            ev_ue("frame_crop_right_offset"@, crop.right_offset as u64),
            ev_ue("frame_crop_top_offset"@, crop.top_offset as u64),
            ev_ue("frame_crop_bottom_offset"@, crop.bottom_offset as u64),
        ],
        None => Seq::empty(),
    }) + seq![ev_end_if()]
}

fn describe_crop_block(log: &mut SyntaxLog, c: &Option<FrameCropping>)
    ensures
        final(log)@ == old(log)@ + crop_block(*c),
        nesting(final(log)@) == nesting(old(log)@),
{
    let cropping = c.is_some();
    log.flag("frame_cropping_flag", cropping);
    log.begin_if("frame_cropping_flag", cropping);
    if let Some(crop) = c {
        log.ue("frame_crop_left_offset", crop.left_offset as u64);
        log.ue("frame_crop_right_offset", crop.right_offset as u64);
        log.ue("frame_crop_top_offset", crop.top_offset as u64);
        log.ue("frame_crop_bottom_offset", crop.bottom_offset as u64);
    }
    log.end_if();
    assert(final(log)@ =~= old(log)@ + crop_block(*c));
}

/// `vui_parameters_present_flag` and the VUI when it is set.
pub open spec fn vui_block(v: Option<VuiParameters>) -> Seq<EventView> {
    seq![
        ev_flag("vui_parameters_present_flag"@, v is Some),
        ev_if("vui_parameters_present_flag"@, seq![], v is Some),
    ] + (match v {
        Some(vui) => vui_events(vui),
        None => Seq::empty(),
    }) + seq![ev_end_if()]
}

fn describe_vui_block(log: &mut SyntaxLog, v: &Option<VuiParameters>)
    ensures
        final(log)@ == old(log)@ + vui_block(*v),
        nesting(final(log)@) == nesting(old(log)@),
{
    let has_vui = v.is_some();
    log.flag("vui_parameters_present_flag", has_vui);
    log.begin_if("vui_parameters_present_flag", has_vui);
    if let Some(vui) = v {
        describe_vui(log, vui);
    }
    log.end_if();
    assert(final(log)@ =~= old(log)@ + vui_block(*v));
}

/// The events of `seq_parameter_set_data()`.
pub open spec fn sps_events(sps: SeqParameterSet) -> Seq<EventView> {
    sps_head(sps) + chroma_block(sps) + seq![
        ev_ue("log2_max_frame_num_minus4"@, sps.log2_max_frame_num_minus4 as u64),
    ] + poc_events(sps.pic_order_cnt) + frame_block(sps) + crop_block(sps.frame_cropping)
        + vui_block(sps.vui_parameters) + seq![ev_end()]
}

pub fn describe_sps(log: &mut SyntaxLog, sps: &SeqParameterSet)
    ensures
        final(log)@ == old(log)@ + sps_events(*sps),
        nesting(final(log)@) == nesting(old(log)@),
{
    let ghost base = log@;
    describe_sps_head(log, sps);
    let ghost mut acc = sps_head(*sps);
    describe_chroma_block(log, sps);
    proof {
        lemma_concat_associative(base, acc, chroma_block(*sps));
        acc = acc + chroma_block(*sps);
    }
    log.ue("log2_max_frame_num_minus4", sps.log2_max_frame_num_minus4 as u64);
    proof {
        let blk = seq![ev_ue("log2_max_frame_num_minus4"@, sps.log2_max_frame_num_minus4 as u64)];
        lemma_concat_associative(base, acc, blk);
        acc = acc + blk;
    }
    describe_pic_order_cnt(log, &sps.pic_order_cnt);
    proof {
        lemma_concat_associative(base, acc, poc_events(sps.pic_order_cnt));
        acc = acc + poc_events(sps.pic_order_cnt);
    }
    describe_frame_block(log, sps);
    proof {
        lemma_concat_associative(base, acc, frame_block(*sps));
        acc = acc + frame_block(*sps);
    }
    describe_crop_block(log, &sps.frame_cropping);
    proof {
        lemma_concat_associative(base, acc, crop_block(sps.frame_cropping));
        acc = acc + crop_block(sps.frame_cropping);
    }
    describe_vui_block(log, &sps.vui_parameters);
    proof {
        lemma_concat_associative(base, acc, vui_block(sps.vui_parameters));
        acc = acc + vui_block(sps.vui_parameters);
    }
    log.end_element();
    proof {
        lemma_concat_associative(base, acc, seq![ev_end()]);
        acc = acc + seq![ev_end()];
    }
    assert(acc == sps_events(*sps));
    proof {
        lemma_closed_opened(nesting(old(log)@), Block::Element);
    }
}

impl<'a> SpsDescribe<'a> {
    /// The events of `seq_parameter_set_data()` for this SPS.
    pub fn describe(&self) -> (log: SyntaxLog)
        ensures
            log@ == sps_events(*self.0),
            well_nested(log@),
    {
        let mut log = SyntaxLog::new();
        describe_sps(&mut log, self.0);
        assert(log@ =~= sps_events(*self.0));
        log
    }
}

} // verus!
