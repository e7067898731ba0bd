//! `pic_parameter_set_rbsp()` (7.3.2.2).
use vstd::prelude::*;
use crate::syntax::{
    ev_begin, ev_comment, ev_else_if, ev_end, ev_end_for, ev_end_if, ev_fixed, ev_flag, ev_for,
    ev_if, ev_iter, ev_se, ev_ue, in_block, lemma_closed_opened, nesting, opened, tv, well_nested,
    Block, EventView, FieldValue, SyntaxLog, Term,
};
use vstd::seq_lib::lemma_concat_associative;
use crate::bits::{ceil_log2, ceil_log2_u64};
use crate::scaling::{describe_matrix_entries, matrix_iters};
use crate::sps::SeqParameterSet;
use crate::text::{idx1, indexed1};
use crate::vui::{count_minus1, minus1, u};
use crate::PpsDescribe;

verus! {

pub enum SliceGroupChangeType {
    BoxOut,
    RasterScan,
    WipeOut,
}

/// The slice group map of a PPS with more than one slice group. For map
/// type 2 only the number of rectangles is held: their coordinates are not
/// shown.
pub enum SliceGroup {
    Interleaved { run_length_minus1: Vec<u32> },
    Dispersed { num_slice_groups_minus1: u32 },
    ForegroundAndLeftover { rectangle_count: usize },
    Changing {
        change_type: SliceGroupChangeType,
        num_slice_groups_minus1: u32,
        slice_group_change_direction_flag: bool,
        slice_group_change_rate_minus1: u32,
    },
    ExplicitAssignment { num_slice_groups_minus1: u32, slice_group_id: Vec<u32> },
}

/// A picture-level scaling matrix: six 4x4 lists, and the 8x8 lists when
/// `transform_8x8_mode_flag` is set.
pub struct PicScalingMatrix {
    pub scaling_lists4x4: Vec<Option<Vec<u8>>>,
    pub scaling_lists8x8: Option<Vec<Option<Vec<u8>>>>,
}

/// The fields after `more_rbsp_data()`.
pub struct PicParameterSetExtra {
    pub transform_8x8_mode_flag: bool,
    pub pic_scaling_matrix: Option<PicScalingMatrix>,
    pub second_chroma_qp_index_offset: i32,
}

pub struct PicParameterSet {
    pub pic_parameter_set_id: u8,
    pub seq_parameter_set_id: u8,
    pub entropy_coding_mode_flag: bool,
    pub bottom_field_pic_order_in_frame_present_flag: bool,
    pub slice_groups: Option<SliceGroup>,
    pub num_ref_idx_l0_default_active_minus1: u32,
    pub num_ref_idx_l1_default_active_minus1: u32,
    pub weighted_pred_flag: bool,
    pub weighted_bipred_idc: u8,
    pub pic_init_qp_minus26: i32,
    pub pic_init_qs_minus26: i32,
    pub chroma_qp_index_offset: i32,
    pub deblocking_filter_control_present_flag: bool,
    pub constrained_intra_pred_flag: bool,
    pub redundant_pic_cnt_present_flag: bool,
    pub extension: Option<PicParameterSetExtra>,
}

/// `num_slice_groups_minus1` as the slice group map gives it.
pub open spec fn sg_num_minus1(sg: SliceGroup) -> u32 {
    match sg {
        SliceGroup::Interleaved { run_length_minus1 } => count_minus1(run_length_minus1@.len()),
        SliceGroup::Dispersed { num_slice_groups_minus1 } => num_slice_groups_minus1,
        SliceGroup::ForegroundAndLeftover { rectangle_count } => rectangle_count as u32,
        SliceGroup::Changing { num_slice_groups_minus1, .. } => num_slice_groups_minus1,
        SliceGroup::ExplicitAssignment { num_slice_groups_minus1, .. } => num_slice_groups_minus1,
    }
}

pub fn slice_group_num_minus1(sg: &SliceGroup) -> (n: u32)
    ensures
        n == sg_num_minus1(*sg),
{
    match sg {
        SliceGroup::Interleaved { run_length_minus1 } => minus1(run_length_minus1.len()),
        SliceGroup::Dispersed { num_slice_groups_minus1 } => *num_slice_groups_minus1,
        SliceGroup::ForegroundAndLeftover { rectangle_count } => *rectangle_count as u32,
        SliceGroup::Changing { num_slice_groups_minus1, .. } => *num_slice_groups_minus1,
        SliceGroup::ExplicitAssignment { num_slice_groups_minus1, .. } => *num_slice_groups_minus1,
    }
}

/// `slice_group_map_type`, 0 to 6.
pub open spec fn sg_map_type(sg: SliceGroup) -> u32 {
    match sg {
        SliceGroup::Interleaved { .. } => 0,
        SliceGroup::Dispersed { .. } => 1,
        SliceGroup::ForegroundAndLeftover { .. } => 2,
        SliceGroup::Changing { change_type, .. } => match change_type {
            SliceGroupChangeType::BoxOut => 3,
            SliceGroupChangeType::RasterScan => 4,
            SliceGroupChangeType::WipeOut => 5,
        },
        SliceGroup::ExplicitAssignment { .. } => 6,
    }
}

fn slice_group_map_type(sg: &SliceGroup) -> (t: u32)
    ensures
        t == sg_map_type(*sg),
{
    match sg {
        SliceGroup::Interleaved { .. } => 0,
        SliceGroup::Dispersed { .. } => 1,
        SliceGroup::ForegroundAndLeftover { .. } => 2,
        SliceGroup::Changing { change_type, .. } => match change_type {
            SliceGroupChangeType::BoxOut => 3,
            SliceGroupChangeType::RasterScan => 4,
            SliceGroupChangeType::WipeOut => 5,
        },
        SliceGroup::ExplicitAssignment { .. } => 6,
    }
}

pub open spec fn run_length_iters(rl: Seq<u32>, n: nat) -> Seq<EventView>
    decreases n,
{
    if n == 0 {
        Seq::empty()
    } else {
        run_length_iters(rl, (n - 1) as nat) + seq![
            ev_iter("iGroup"@, (n - 1) as nat),
            ev_ue(idx1("run_length_minus1"@, (n - 1) as nat), rl[n - 1] as u64),
        ]
    }
}

/// The comment that stands for rectangle `i`, whose coordinates are not shown.
pub open spec fn rect_comment(i: nat) -> Seq<char> {
    idx1("top_left"@, i) + " and "@ + idx1("bottom_right"@, i) + " (values not accessible)"@
}

pub open spec fn rect_iters(n: nat) -> Seq<EventView>
    decreases n,
{
    if n == 0 {
        Seq::empty()
    } else {
        rect_iters((n - 1) as nat) + seq![
            ev_iter("iGroup"@, (n - 1) as nat),
            ev_comment(rect_comment((n - 1) as nat)),
        ]
    }
}

pub open spec fn group_id_iters(ids: Seq<u32>, bits: u32, n: nat) -> Seq<EventView>
    decreases n,
{
    if n == 0 {
        Seq::empty()
    } else {
        group_id_iters(ids, bits, (n - 1) as nat) + seq![
            ev_iter("i"@, (n - 1) as nat),
            ev_fixed(idx1("slice_group_id"@, (n - 1) as nat), bits, u(ids[n - 1] as int)),
        ]
    }
}

/// The width of `slice_group_id`: `Ceil(Log2(num_slice_groups_minus1 + 1))`.
pub open spec fn slice_group_id_bits(n: u32) -> u32 {
    ceil_log2((n + 1) as nat) as u32
}

/// The run lengths of an interleaved map.
pub open spec fn sg_interleaved_block(sg: SliceGroup, n: u32) -> Seq<EventView> {
    match sg {
        SliceGroup::Interleaved { run_length_minus1 } => seq![
            ev_for(
                "iGroup = 0; iGroup <= num_slice_groups_minus1; iGroup++"@,
                seq![tv("num_slice_groups_minus1"@, u(n as int))],
            ),
        ] + run_length_iters(run_length_minus1@, run_length_minus1@.len()) + seq![ev_end_for()],
        _ => Seq::empty(),
    }
}

/// The rectangles of a foreground-and-leftover map.
pub open spec fn sg_rect_block(sg: SliceGroup, n: u32) -> Seq<EventView> {
    match sg {
        SliceGroup::ForegroundAndLeftover { rectangle_count } => seq![
            ev_for(
                "iGroup = 0; iGroup < num_slice_groups_minus1; iGroup++"@,
                seq![tv("num_slice_groups_minus1"@, u(n as int))],
            ),
        ] + rect_iters(rectangle_count as nat) + seq![ev_end_for()],
        _ => Seq::empty(),
    }
}

/// The fields of a changing map.
pub open spec fn sg_changing_fields(sg: SliceGroup) -> Seq<EventView> {
    match sg {
        SliceGroup::Changing {
            slice_group_change_direction_flag,
            slice_group_change_rate_minus1,
            ..
        } => seq![
            ev_flag("slice_group_change_direction_flag"@, slice_group_change_direction_flag),
            ev_ue("slice_group_change_rate_minus1"@, slice_group_change_rate_minus1 as u64),
        ],
        _ => Seq::empty(),
    }
}

/// The slice group ids of an explicit map.
pub open spec fn sg_explicit_block(sg: SliceGroup, n: u32) -> Seq<EventView> {
    match sg {
        SliceGroup::ExplicitAssignment { slice_group_id, .. } => {
            let size_minus1 = count_minus1(slice_group_id@.len());
            seq![
                ev_ue("pic_size_in_map_units_minus1"@, size_minus1 as u64),
                ev_for(
                    "i = 0; i <= pic_size_in_map_units_minus1; i++"@,
                    seq![tv("pic_size_in_map_units_minus1"@, u(size_minus1 as int))],
                ),
            ] + group_id_iters(slice_group_id@, slice_group_id_bits(n), slice_group_id@.len())
                + seq![ev_end_for()]
        },
        _ => Seq::empty(),
    }
}

/// The slice group map block of `pic_parameter_set_rbsp()`.
pub open spec fn slice_groups_events(sg: SliceGroup, n: u32) -> Seq<EventView> {
    let t = sg_map_type(sg);
    seq![
        ev_ue("slice_group_map_type"@, t as u64),
        ev_if("slice_group_map_type == 0"@, seq![tv("slice_group_map_type"@, u(t as int))], t == 0),
    ] + sg_interleaved_block(sg, n) + seq![
        ev_else_if("slice_group_map_type == 2"@, seq![], t == 2),
    ] + sg_rect_block(sg, n) + seq![
        ev_else_if(
            "slice_group_map_type == 3 || slice_group_map_type == 4 || slice_group_map_type == 5"@,
            seq![],
            3 <= t <= 5,
        ),
    ] + sg_changing_fields(sg) + seq![ev_else_if("slice_group_map_type == 6"@, seq![], t == 6)]
        + sg_explicit_block(sg, n) + seq![ev_end_if()]
}

fn describe_run_lengths(log: &mut SyntaxLog, rl: &Vec<u32>)
    requires
        in_block(old(log)@, Block::Loop),
    ensures
        final(log)@ == old(log)@ + run_length_iters(rl@, rl@.len()),
        nesting(final(log)@) == nesting(old(log)@),
{
    let ghost start = log@;
    let mut i: usize = 0;
    while i < rl.len()
        invariant
            nesting(log@) == nesting(start),
            in_block(start, Block::Loop),
            i <= rl@.len(),
            log@ == start + run_length_iters(rl@, i as nat),
        decreases rl.len() - i,
    {
        log.for_iteration("iGroup", i as u64);
        log.ue_named(indexed1("run_length_minus1", i as u64), rl[i] as u64);
        assert(log@ =~= start + run_length_iters(rl@, (i + 1) as nat));
        i = i + 1;
    }
}

fn rectangle_comment(i: u64) -> (s: String)
    ensures
        s@ == rect_comment(i as nat),
{
    let mut s = indexed1("top_left", i);
    s.append(" and ");
    let b = indexed1("bottom_right", i);
    s.append(b.as_str());
    s.append(" (values not accessible)");
    s
}

fn describe_rectangles(log: &mut SyntaxLog, count: usize)
    requires
        in_block(old(log)@, Block::Loop),
    ensures
        final(log)@ == old(log)@ + rect_iters(count as nat),
        nesting(final(log)@) == nesting(old(log)@),
{
    let ghost start = log@;
    let mut i: usize = 0;
    while i < count
        invariant
            nesting(log@) == nesting(start),
            in_block(start, Block::Loop),
            i <= count,
            log@ == start + rect_iters(i as nat),
        decreases count - i,
    {
        log.for_iteration("iGroup", i as u64);
        log.comment(rectangle_comment(i as u64));
        assert(log@ =~= start + rect_iters((i + 1) as nat));
        i = i + 1;
    }
}

fn describe_group_ids(log: &mut SyntaxLog, ids: &Vec<u32>, bits: u32)
    requires
        in_block(old(log)@, Block::Loop),
    ensures
        final(log)@ == old(log)@ + group_id_iters(ids@, bits, ids@.len()),
        nesting(final(log)@) == nesting(old(log)@),
{
    let ghost start = log@;
    let mut i: usize = 0;
    while i < ids.len()
        invariant
            nesting(log@) == nesting(start),
            in_block(start, Block::Loop),
            i <= ids@.len(),
            log@ == start + group_id_iters(ids@, bits, i as nat),
        decreases ids.len() - i,
    {
        log.for_iteration("i", i as u64);
        log.fixed_named(indexed1("slice_group_id", i as u64), bits, FieldValue::Unsigned(ids[i] as u64));
        assert(log@ =~= start + group_id_iters(ids@, bits, (i + 1) as nat));
        i = i + 1;
    }
}

fn describe_sg_interleaved(log: &mut SyntaxLog, sg: &SliceGroup, num_sg_minus1: u32)
    ensures
        final(log)@ == old(log)@ + sg_interleaved_block(*sg, num_sg_minus1),
        nesting(final(log)@) == nesting(old(log)@),
{
    if let SliceGroup::Interleaved { run_length_minus1 } = sg {
        log.begin_for1(
            "iGroup = 0; iGroup <= num_slice_groups_minus1; iGroup++",
            Term::new("num_slice_groups_minus1", FieldValue::Unsigned(num_sg_minus1 as u64)),
        );
        describe_run_lengths(log, run_length_minus1);
        log.end_for();
        proof {
            lemma_closed_opened(nesting(old(log)@), Block::Loop);
        }
    }
    assert(final(log)@ =~= old(log)@ + sg_interleaved_block(*sg, num_sg_minus1));
}

fn describe_sg_rectangles(log: &mut SyntaxLog, sg: &SliceGroup, num_sg_minus1: u32)
    ensures
        final(log)@ == old(log)@ + sg_rect_block(*sg, num_sg_minus1),
        nesting(final(log)@) == nesting(old(log)@),
{
    if let SliceGroup::ForegroundAndLeftover { rectangle_count } = sg {
        log.begin_for1(
            "iGroup = 0; iGroup < num_slice_groups_minus1; iGroup++",
            Term::new("num_slice_groups_minus1", FieldValue::Unsigned(num_sg_minus1 as u64)),
        );
        describe_rectangles(log, *rectangle_count);
        log.end_for();
        proof {
            lemma_closed_opened(nesting(old(log)@), Block::Loop);
        }
    }
    assert(final(log)@ =~= old(log)@ + sg_rect_block(*sg, num_sg_minus1));
}

fn describe_sg_explicit(log: &mut SyntaxLog, sg: &SliceGroup, num_sg_minus1: u32)
    ensures
        final(log)@ == old(log)@ + sg_explicit_block(*sg, num_sg_minus1),
        nesting(final(log)@) == nesting(old(log)@),
{
    if let SliceGroup::ExplicitAssignment { slice_group_id, .. } = sg {
        let pic_size_minus1 = minus1(slice_group_id.len());
        log.ue("pic_size_in_map_units_minus1", pic_size_minus1 as u64);
        let bits = ceil_log2_u64(num_sg_minus1 as u64 + 1);
        log.begin_for1(
            "i = 0; i <= pic_size_in_map_units_minus1; i++",
            Term::new("pic_size_in_map_units_minus1", FieldValue::Unsigned(pic_size_minus1 as u64)),
        );
        describe_group_ids(log, slice_group_id, bits);
        log.end_for();
        proof {
            lemma_closed_opened(nesting(old(log)@), Block::Loop);
        }
    }
    assert(final(log)@ =~= old(log)@ + sg_explicit_block(*sg, num_sg_minus1));
}

/// Describes the slice group map of a PPS with `num_sg_minus1 + 1` slice groups.
pub fn describe_slice_groups(log: &mut SyntaxLog, sg: &SliceGroup, num_sg_minus1: u32)
    ensures
        final(log)@ == old(log)@ + slice_groups_events(*sg, num_sg_minus1),
        nesting(final(log)@) == nesting(old(log)@),
{
    let ghost base = log@;
    let map_type = slice_group_map_type(sg);
    log.ue("slice_group_map_type", map_type as u64);
    log.begin_if1(
        "slice_group_map_type == 0",
        Term::new("slice_group_map_type", FieldValue::Unsigned(map_type as u64)),
        map_type == 0,
    );
    let ghost a = log@;
    describe_sg_interleaved(log, sg, num_sg_minus1);
    let ghost b = log@;
    log.begin_else_if("slice_group_map_type == 2", map_type == 2);
    let ghost c = log@;
    describe_sg_rectangles(log, sg, num_sg_minus1);
    let ghost d = log@;
    log.begin_else_if(
        "slice_group_map_type == 3 || slice_group_map_type == 4 || slice_group_map_type == 5",
        3 <= map_type && map_type <= 5,
    );
    if let SliceGroup::Changing {
        slice_group_change_direction_flag,
        slice_group_change_rate_minus1,
        ..
    } = sg {
        log.flag("slice_group_change_direction_flag", *slice_group_change_direction_flag);
        log.ue("slice_group_change_rate_minus1", *slice_group_change_rate_minus1 as u64);
    }
    let ghost e = log@;
    log.begin_else_if("slice_group_map_type == 6", map_type == 6);
    let ghost f = log@;
    describe_sg_explicit(log, sg, num_sg_minus1);
    let ghost g = log@;
    log.end_if();
    proof {
        let t = sg_map_type(*sg);
        let n = num_sg_minus1;
        assert(a =~= base + seq![
            ev_ue("slice_group_map_type"@, t as u64),
            ev_if("slice_group_map_type == 0"@, seq![tv("slice_group_map_type"@, u(t as int))], t == 0),
        ]);
        assert(e =~= d + seq![
            ev_else_if(
                "slice_group_map_type == 3 || slice_group_map_type == 4 || slice_group_map_type == 5"@,
                seq![],
                3 <= t <= 5,
            ),
        ] + sg_changing_fields(*sg));
        assert(log@ =~= base + slice_groups_events(*sg, num_sg_minus1));
        lemma_closed_opened(nesting(base), Block::Conditional);
    }
}

/// The number of lists in a picture scaling matrix loop:
/// `6 + ((chroma_format_idc != 3) ? 2 : 6) * transform_8x8_mode_flag`.
pub open spec fn pic_matrix_count(cfi: u32, transform_8x8_mode_flag: bool) -> u32 {
    if transform_8x8_mode_flag {
        if cfi == 3 {
            12
        } else {
            8
        }
    } else {
        6
    }
}

pub open spec fn pic_lists8x8(psm: PicScalingMatrix) -> Seq<Option<Vec<u8>>> {
    match psm.scaling_lists8x8 {
        Some(v) => v@,
        None => Seq::empty(),
    }
}

pub open spec fn pic_matrix_events(psm: PicScalingMatrix, cfi: u32, t8: bool) -> Seq<EventView> {
    let total = pic_matrix_count(cfi, t8);
    seq![
        ev_for(
            "i = 0; i < 6 + ((chroma_format_idc != 3) ? 2 : 6) * transform_8x8_mode_flag; i++"@,
            seq![tv("total"@, u(total as int))],
        ),
    ] + matrix_iters(
        "pic_scaling_list_present_flag"@,
        psm.scaling_lists4x4@,
        pic_lists8x8(psm),
        total as nat,
    ) + seq![ev_end_for()]
}

fn describe_pic_scaling_matrix(
    log: &mut SyntaxLog,
    psm: &PicScalingMatrix,
    sps: &SeqParameterSet,
    transform_8x8_mode_flag: bool,
)
    ensures
        final(log)@ == old(log)@ + pic_matrix_events(
            *psm,
            sps.chroma_info.chroma_format_idc,
            transform_8x8_mode_flag,
        ),
        nesting(final(log)@) == nesting(old(log)@),
{
    let extra_8x8: u32 = if transform_8x8_mode_flag {
        if sps.chroma_info.chroma_format_idc == 3 {
            6
        } else {
            2
        }
    } else {
        0
    };
    let total = 6 + extra_8x8;
    log.begin_for1(
        "i = 0; i < 6 + ((chroma_format_idc != 3) ? 2 : 6) * transform_8x8_mode_flag; i++",
        Term::new("total", FieldValue::Unsigned(total as u64)),
    );
    let no_lists: Vec<Option<Vec<u8>>> = Vec::new();
    let lists8x8 = match &psm.scaling_lists8x8 {
        Some(v) => v,
        None => &no_lists,
    };
    assert(lists8x8@ =~= pic_lists8x8(*psm));
    describe_matrix_entries(
        log,
        "pic_scaling_list_present_flag",
        &psm.scaling_lists4x4,
        lists8x8,
        total,
    );
    log.end_for();
    assert(final(log)@ =~= old(log)@ + pic_matrix_events(
        *psm,
        sps.chroma_info.chroma_format_idc,
        transform_8x8_mode_flag,
    ));
}

/// The block after `more_rbsp_data()`.
pub open spec fn extension_events(ext: PicParameterSetExtra, cfi: u32) -> Seq<EventView> {
    seq![
        ev_flag("transform_8x8_mode_flag"@, ext.transform_8x8_mode_flag),
        ev_flag("pic_scaling_matrix_present_flag"@, ext.pic_scaling_matrix is Some),
        ev_if("pic_scaling_matrix_present_flag"@, seq![], ext.pic_scaling_matrix is Some),
    ] + (match ext.pic_scaling_matrix {
        Some(psm) => pic_matrix_events(psm, cfi, ext.transform_8x8_mode_flag),
        None => Seq::empty(),
    }) + seq![
        ev_end_if(),
        ev_se("second_chroma_qp_index_offset"@, ext.second_chroma_qp_index_offset as i64),
    ]
}

fn describe_extension(log: &mut SyntaxLog, ext: &PicParameterSetExtra, sps: &SeqParameterSet)
    ensures
        final(log)@ == old(log)@ + extension_events(*ext, sps.chroma_info.chroma_format_idc),
        nesting(final(log)@) == nesting(old(log)@),
{
    log.flag("transform_8x8_mode_flag", ext.transform_8x8_mode_flag);
    let has_scaling = ext.pic_scaling_matrix.is_some();
    log.flag("pic_scaling_matrix_present_flag", has_scaling);
    log.begin_if("pic_scaling_matrix_present_flag", has_scaling);
    if let Some(psm) = &ext.pic_scaling_matrix {
        describe_pic_scaling_matrix(log, psm, sps, ext.transform_8x8_mode_flag);
    }
    log.end_if();
    log.se("second_chroma_qp_index_offset", ext.second_chroma_qp_index_offset as i64);
    assert(final(log)@ =~= old(log)@ + extension_events(*ext, sps.chroma_info.chroma_format_idc));
}

/// `num_slice_groups_minus1`: 0 without a slice group map.
pub open spec fn pps_num_sg_minus1(pps: PicParameterSet) -> u32 {
    match pps.slice_groups {
        Some(sg) => sg_num_minus1(sg),
        None => 0,
    }
}

/// From the start of the element to the slice group block.
pub open spec fn pps_head(pps: PicParameterSet) -> Seq<EventView> {
    let n = pps_num_sg_minus1(pps);
    seq![
        ev_begin("pic_parameter_set_rbsp"@),
        ev_ue("pic_parameter_set_id"@, pps.pic_parameter_set_id as u64),
        ev_ue("seq_parameter_set_id"@, pps.seq_parameter_set_id as u64),
        ev_flag("entropy_coding_mode_flag"@, pps.entropy_coding_mode_flag),
        ev_flag(
            "bottom_field_pic_order_in_frame_present_flag"@,
            pps.bottom_field_pic_order_in_frame_present_flag,
        ),
        ev_ue("num_slice_groups_minus1"@, n as u64),
        ev_if("num_slice_groups_minus1 > 0"@, seq![tv("num_slice_groups_minus1"@, u(n as int))], n > 0),
    ] + (match pps.slice_groups {
        Some(sg) => slice_groups_events(sg, n),
        None => Seq::empty(),
    }) + seq![ev_end_if()]
}

/// From `num_ref_idx_l0_default_active_minus1` to `redundant_pic_cnt_present_flag`.
pub open spec fn pps_body(pps: PicParameterSet) -> Seq<EventView> {
    seq![
        ev_ue(
            "num_ref_idx_l0_default_active_minus1"@,
            pps.num_ref_idx_l0_default_active_minus1 as u64,
        ),
        ev_ue(
            "num_ref_idx_l1_default_active_minus1"@,
            pps.num_ref_idx_l1_default_active_minus1 as u64,
        ),
        ev_flag("weighted_pred_flag"@, pps.weighted_pred_flag),
        ev_fixed("weighted_bipred_idc"@, 2, u(pps.weighted_bipred_idc as int)),
        ev_se("pic_init_qp_minus26"@, pps.pic_init_qp_minus26 as i64),
        ev_se("pic_init_qs_minus26"@, pps.pic_init_qs_minus26 as i64),
        ev_se("chroma_qp_index_offset"@, pps.chroma_qp_index_offset as i64),
        ev_flag(
            "deblocking_filter_control_present_flag"@,
            pps.deblocking_filter_control_present_flag,
        ),
        ev_flag("constrained_intra_pred_flag"@, pps.constrained_intra_pred_flag),
        ev_flag("redundant_pic_cnt_present_flag"@, pps.redundant_pic_cnt_present_flag),
    ]
}

/// Each field of the PPS between the slice group map and its extension is
/// shown with that field's own value: in particular the list 1 default count
/// carries `num_ref_idx_l1_default_active_minus1`, whatever the list 0 count is.
pub proof fn lemma_pps_fields_carry_their_values(pps: PicParameterSet, sps: SeqParameterSet)
    ensures
        pps_events(pps, sps).contains(
            ev_ue(
                "num_ref_idx_l0_default_active_minus1"@,
                pps.num_ref_idx_l0_default_active_minus1 as u64,
            ),
        ),
        pps_events(pps, sps).contains(
            ev_ue(
                "num_ref_idx_l1_default_active_minus1"@,
                pps.num_ref_idx_l1_default_active_minus1 as u64,
            ),
        ),
        pps_events(pps, sps).contains(ev_flag("weighted_pred_flag"@, pps.weighted_pred_flag)),
        pps_events(pps, sps).contains(
            ev_fixed("weighted_bipred_idc"@, 2, FieldValue::Unsigned(pps.weighted_bipred_idc as u64)),
        ),
        pps_events(pps, sps).contains(ev_se("pic_init_qp_minus26"@, pps.pic_init_qp_minus26 as i64)),
        pps_events(pps, sps).contains(ev_se("pic_init_qs_minus26"@, pps.pic_init_qs_minus26 as i64)),
        pps_events(pps, sps).contains(
            ev_se("chroma_qp_index_offset"@, pps.chroma_qp_index_offset as i64),
        ),
{
    let h = pps_head(pps);
    let b = pps_body(pps);
    let evs = pps_events(pps, sps);
    let rest = seq![ev_if("more_rbsp_data()"@, seq![], pps.extension is Some)]
        + pps_extension_events(pps, sps) + seq![ev_end_if(), ev_end()];
    assert(evs =~= h + b + rest);
    assert(evs[h.len() as int] == b[0]);
    assert(evs[h.len() as int + 1] == b[1]);
    assert(evs[h.len() as int + 2] == b[2]);
    assert(evs[h.len() as int + 3] == b[3]);
    assert(evs[h.len() as int + 4] == b[4]);
    assert(evs[h.len() as int + 5] == b[5]);
    assert(evs[h.len() as int + 6] == b[6]);
}

/// The events of `pic_parameter_set_rbsp()`; the SPS gives `chroma_format_idc`.
pub open spec fn pps_events(pps: PicParameterSet, sps: SeqParameterSet) -> Seq<EventView> {
    pps_head(pps) + pps_body(pps) + seq![
        ev_if("more_rbsp_data()"@, seq![], pps.extension is Some),
    ] + pps_extension_events(pps, sps) + seq![ev_end_if(), ev_end()]
}

/// The extension block's fields, when the PPS has them.
pub open spec fn pps_extension_events(pps: PicParameterSet, sps: SeqParameterSet) -> Seq<EventView> {
    match pps.extension {
        Some(ext) => extension_events(ext, sps.chroma_info.chroma_format_idc),
        None => Seq::empty(),
    }
}

fn describe_pps_head(log: &mut SyntaxLog, pps: &PicParameterSet)
    ensures
        final(log)@ == old(log)@ + pps_head(*pps),
        nesting(final(log)@) == opened(nesting(old(log)@), Block::Element),
{
    log.begin_element("pic_parameter_set_rbsp");
    log.ue("pic_parameter_set_id", pps.pic_parameter_set_id as u64);
    log.ue("seq_parameter_set_id", pps.seq_parameter_set_id as u64);
    log.flag("entropy_coding_mode_flag", pps.entropy_coding_mode_flag);
    log.flag(
        "bottom_field_pic_order_in_frame_present_flag",
        pps.bottom_field_pic_order_in_frame_present_flag,
    );
    let num_sg_minus1 = match &pps.slice_groups {
        Some(sg) => slice_group_num_minus1(sg),
        None => 0,
    };
    log.ue("num_slice_groups_minus1", num_sg_minus1 as u64);
    log.begin_if1(
        "num_slice_groups_minus1 > 0",
        Term::new("num_slice_groups_minus1", FieldValue::Unsigned(num_sg_minus1 as u64)),
        num_sg_minus1 > 0,
    );
    if let Some(sg) = &pps.slice_groups {
        describe_slice_groups(log, sg, num_sg_minus1);
    }
    log.end_if();
    assert(final(log)@ =~= old(log)@ + pps_head(*pps));
}

fn describe_pps_body(log: &mut SyntaxLog, pps: &PicParameterSet)
    ensures
        final(log)@ == old(log)@ + pps_body(*pps),
        nesting(final(log)@) == nesting(old(log)@),
{
    log.ue("num_ref_idx_l0_default_active_minus1", pps.num_ref_idx_l0_default_active_minus1 as u64);
    log.ue("num_ref_idx_l1_default_active_minus1", pps.num_ref_idx_l1_default_active_minus1 as u64);
    log.flag("weighted_pred_flag", pps.weighted_pred_flag);
    log.fixed("weighted_bipred_idc", 2, FieldValue::Unsigned(pps.weighted_bipred_idc as u64));
    log.se("pic_init_qp_minus26", pps.pic_init_qp_minus26 as i64);
    log.se("pic_init_qs_minus26", pps.pic_init_qs_minus26 as i64);
    log.se("chroma_qp_index_offset", pps.chroma_qp_index_offset as i64);
    log.flag("deblocking_filter_control_present_flag", pps.deblocking_filter_control_present_flag);
    log.flag("constrained_intra_pred_flag", pps.constrained_intra_pred_flag);
    log.flag("redundant_pic_cnt_present_flag", pps.redundant_pic_cnt_present_flag);
    assert(final(log)@ =~= old(log)@ + pps_body(*pps));
}

pub fn describe_pps(log: &mut SyntaxLog, pps: &PicParameterSet, sps: &SeqParameterSet)
    ensures
        final(log)@ == old(log)@ + pps_events(*pps, *sps),
        nesting(final(log)@) == nesting(old(log)@),
{
    let ghost base = log@;
    describe_pps_head(log, pps);
    describe_pps_body(log, pps);
    proof {
        lemma_concat_associative(base, pps_head(*pps), pps_body(*pps));
    }
    let ghost mut acc = pps_head(*pps) + pps_body(*pps);
    let has_ext = pps.extension.is_some();
    log.begin_if("more_rbsp_data()", has_ext);
    proof {
        let blk = seq![ev_if("more_rbsp_data()"@, seq![], pps.extension is Some)];
        lemma_concat_associative(base, acc, blk);
        acc = acc + blk;
    }
    let ghost before_ext = log@;
    if let Some(ext) = &pps.extension {
        describe_extension(log, ext, sps);
    }
    let ghost ext_events = pps_extension_events(*pps, *sps);
    proof {
        assert(log@ =~= before_ext + ext_events);
        lemma_concat_associative(base, acc, ext_events);
        acc = acc + ext_events;
    }
    log.end_if();
    log.end_element();
    proof {
        let blk = seq![ev_end_if(), ev_end()];
        assert(log@ =~= (base + acc) + blk);
        lemma_concat_associative(base, acc, blk);
        acc = acc + blk;
    }
    assert(acc == pps_events(*pps, *sps));
    proof {
        lemma_closed_opened(nesting(old(log)@), Block::Element);
    }
}

impl<'a> PpsDescribe<'a> {
    /// The events of `pic_parameter_set_rbsp()` for this PPS.
    pub fn describe(&self) -> (log: SyntaxLog)
        ensures
            log@ == pps_events(*self.pps, *self.sps),
            well_nested(log@),
    {
        let mut log = SyntaxLog::new();
        describe_pps(&mut log, self.pps, self.sps);
        assert(log@ =~= pps_events(*self.pps, *self.sps));
        log
    }
}

} // verus!
