//! The slice header model and its helper tables: slice types, reference
//! picture list modification, prediction weight table and decoded reference
//! picture marking.
use vstd::prelude::*;
use crate::sps::SeqParameterSet;
use crate::syntax::{
    closed, ev_begin, ev_do, ev_do_iter, ev_else, ev_else_if, ev_end, ev_end_do, ev_end_for,
    ev_end_if, ev_flag, ev_for, ev_if, ev_iter, ev_se, ev_ue, in_block, lemma_closed_opened,
    nesting, opened, tv, Block, EventView, FieldValue, SyntaxLog, Term,
};
use crate::text::{idx1, idx2, indexed1, indexed2};
use crate::vui::{count_minus1, minus1, u};
use vstd::seq_lib::lemma_concat_associative;

verus! {

#[derive(Clone, Copy, PartialEq, Eq, Structural)]
pub enum SliceFamily {
    P,
    B,
    I,
    SP,
    SI,
}

#[derive(Clone, Copy, PartialEq, Eq, Structural)]
pub enum SliceExclusive {
    /// All slices of the picture have the same type (`slice_type` 5 to 9).
    Exclusive,
    NonExclusive,
}

pub struct SliceType {
    pub family: SliceFamily,
    pub exclusive: SliceExclusive,
}

pub enum ColourPlane {
    Y,
    Cb,
    Cr,
}

pub enum Field {
    Top,
    Bottom,
}

pub enum FieldPic {
    Frame,
    Field(Field),
}

pub enum PicOrderCountLsb {
    Frame(u32),
    FieldsAbsolute { pic_order_cnt_lsb: u32, delta_pic_order_cnt_bottom: i32 },
    FieldsDelta([i32; 2]),
}

pub enum NumRefIdxActive {
    P { num_ref_idx_l0_active_minus1: u32 },
    B { num_ref_idx_l0_active_minus1: u32, num_ref_idx_l1_active_minus1: u32 },
}

pub enum ModificationOfPicNums {
    Subtract(u32),
    Add(u32),
    LongTermRef(u32),
    SubtractViewIdx(u32),
    AddViewIdx(u32),
}

pub enum RefPicListModifications {
    I,
    P { ref_pic_list_modification_l0: Vec<ModificationOfPicNums> },
    B {
        ref_pic_list_modification_l0: Vec<ModificationOfPicNums>,
        ref_pic_list_modification_l1: Vec<ModificationOfPicNums>,
    },
}

pub struct PredWeight {
    pub weight: i32,
    pub offset: i32,
}

pub struct PredWeightTable {
    pub luma_log2_weight_denom: u32,
    pub chroma_log2_weight_denom: Option<u32>,
    pub luma_weights: Vec<Option<PredWeight>>,
    pub chroma_weights: Vec<Vec<PredWeight>>,
    pub luma_weights_l1: Vec<Option<PredWeight>>,
    pub chroma_weights_l1: Vec<Vec<PredWeight>>,
}

pub enum MemoryManagementControlOperation {
    ShortTermUnusedForRef { difference_of_pic_nums_minus1: u32 },
    LongTermUnusedForRef { long_term_pic_num: u32 },
    ShortTermUsedForLongTerm { difference_of_pic_nums_minus1: u32, long_term_frame_idx: u32 },
    MaxUsedLongTermFrameRef { max_long_term_frame_idx_plus1: u32 },
    AllRefPicturesUnused,
    CurrentUsedForLongTerm { long_term_frame_idx: u32 },
}

pub enum DecRefPicMarking {
    Idr { no_output_of_prior_pics_flag: bool, long_term_reference_flag: bool },
    SlidingWindow,
    Adaptive(Vec<MemoryManagementControlOperation>),
}

/// A slice header. `slice_qs` is `QSY`, from which `slice_qs_delta` is recovered.
pub struct SliceHeader {
    pub first_mb_in_slice: u32,
    pub slice_type: SliceType,
    pub colour_plane: Option<ColourPlane>,
    pub frame_num: u16,
    pub field_pic: FieldPic,
    pub idr_pic_id: Option<u32>,
    pub pic_order_cnt_lsb: Option<PicOrderCountLsb>,
    pub redundant_pic_cnt: Option<u32>,
    pub direct_spatial_mv_pred_flag: Option<bool>,
    pub num_ref_idx_active: Option<NumRefIdxActive>,
    pub ref_pic_list_modification: Option<RefPicListModifications>,
    pub pred_weight_table: Option<PredWeightTable>,
    pub dec_ref_pic_marking: Option<DecRefPicMarking>,
    pub cabac_init_idc: Option<u32>,
    pub slice_qp_delta: i32,
    pub sp_for_switch_flag: Option<bool>,
    pub slice_qs: Option<u32>,
    pub disable_deblocking_filter_idc: u8,
    pub slice_alpha_c0_offset_div2: Option<i32>,
    pub slice_beta_offset_div2: Option<i32>,
    pub slice_group_change_cycle: Option<u32>,
}

// ---- slice types ----
/// The base code of a slice family: P 0, B 1, I 2, SP 3, SI 4.
pub open spec fn family_code(f: SliceFamily) -> u32 {
    match f {
        SliceFamily::P => 0,
        SliceFamily::B => 1,
        SliceFamily::I => 2,
        SliceFamily::SP => 3,
        SliceFamily::SI => 4,
    }
}

/// `slice_type`: the family's code, plus 5 when exclusive.
pub open spec fn slice_type_code(f: SliceFamily, e: SliceExclusive) -> u32 {
    match e {
        SliceExclusive::NonExclusive => family_code(f),
        SliceExclusive::Exclusive => (family_code(f) + 5) as u32,
    }
}

pub fn slice_type_to_u32(family: &SliceFamily, exclusive: &SliceExclusive) -> (v: u32)
    ensures
        v == slice_type_code(*family, *exclusive),
        v % 5 == family_code(*family),
        (v >= 5) == (*exclusive == SliceExclusive::Exclusive),
        v < 10,
{
    let base = match family {
        SliceFamily::P => 0,
        SliceFamily::B => 1,
        SliceFamily::I => 2,
        SliceFamily::SP => 3,
        SliceFamily::SI => 4,
    };
    match exclusive {
        SliceExclusive::NonExclusive => base,
        SliceExclusive::Exclusive => base + 5,
    }
}

/// Different slice types have different codes.
pub proof fn lemma_slice_type_code_injective(
    f1: SliceFamily,
    e1: SliceExclusive,
    f2: SliceFamily,
    e2: SliceExclusive,
)
    requires
        slice_type_code(f1, e1) == slice_type_code(f2, e2),
    ensures
        f1 == f2,
        e1 == e2,
{
}

/// The name of a slice family.
pub open spec fn family_name(f: SliceFamily) -> Seq<char> {
    match f {
        SliceFamily::P => "P"@,
        SliceFamily::B => "B"@,
        SliceFamily::I => "I"@,
        SliceFamily::SP => "SP"@,
        SliceFamily::SI => "SI"@,
    }
}

pub fn slice_type_name(family: &SliceFamily) -> (s: &'static str)
    ensures
        s@ == family_name(*family),
{
    match family {
        SliceFamily::P => "P",
        SliceFamily::B => "B",
        SliceFamily::I => "I",
        SliceFamily::SP => "SP",
        SliceFamily::SI => "SI",
    }
}

// ---- ref_pic_list_modification() ----
/// `modification_of_pic_nums_idc` of an operation.
pub open spec fn mod_idc(m: ModificationOfPicNums) -> u32 {
    match m {
        ModificationOfPicNums::Subtract(_) => 0,
        ModificationOfPicNums::Add(_) => 1,
        ModificationOfPicNums::LongTermRef(_) => 2,
        ModificationOfPicNums::SubtractViewIdx(_) => 4,
        ModificationOfPicNums::AddViewIdx(_) => 5,
    }
}

/// The value that follows `modification_of_pic_nums_idc`.
pub open spec fn mod_value(m: ModificationOfPicNums) -> u32 {
    match m {
        ModificationOfPicNums::Subtract(v) => v,
        ModificationOfPicNums::Add(v) => v,
        ModificationOfPicNums::LongTermRef(v) => v,
        ModificationOfPicNums::SubtractViewIdx(v) => v,
        ModificationOfPicNums::AddViewIdx(v) => v,
    }
}

/// One iteration of the `ref_pic_list_modification` do-while loop.
pub open spec fn mod_iter_events(m: ModificationOfPicNums, i: nat) -> Seq<EventView> {
    let idc = mod_idc(m);
    let v = mod_value(m) as u64;
    seq![
        ev_do_iter(i),
        ev_ue("modification_of_pic_nums_idc"@, idc as u64),
        ev_if(
            "modification_of_pic_nums_idc == 0 || modification_of_pic_nums_idc == 1"@,
            seq![],
            idc <= 1,
        ),
    ] + (if idc <= 1 {
        seq![ev_ue("abs_diff_pic_num_minus1"@, v)]
    } else {
        Seq::empty()
    }) + seq![ev_else_if("modification_of_pic_nums_idc == 2"@, seq![], idc == 2)] + (if idc == 2 {
        seq![ev_ue("long_term_pic_num"@, v)]
    } else {
        Seq::empty()
    }) + seq![
        ev_else_if(
            "modification_of_pic_nums_idc == 4 || modification_of_pic_nums_idc == 5"@,
            seq![],
            idc == 4 || idc == 5,
        ),
    ] + (if idc == 4 || idc == 5 {
        seq![ev_ue("abs_diff_view_idx_minus1"@, v)]
    } else {
        Seq::empty()
    }) + seq![ev_end_if()]
}

pub open spec fn mod_iters(ms: Seq<ModificationOfPicNums>, n: nat) -> Seq<EventView>
    decreases n,
{
    if n == 0 {
        Seq::empty()
    } else {
        mod_iters(ms, (n - 1) as nat) + mod_iter_events(ms[n - 1], (n - 1) as nat)
    }
}

/// The do-while loop of modification operations, closed by the terminating
/// `modification_of_pic_nums_idc` 3.
pub open spec fn mod_loop_events(ms: Seq<ModificationOfPicNums>) -> Seq<EventView> {
    seq![ev_do()] + mod_iters(ms, ms.len()) + seq![
        ev_do_iter(ms.len()),
        ev_ue("modification_of_pic_nums_idc"@, 3),
        ev_end_do("modification_of_pic_nums_idc != 3"@),
    ]
}

fn describe_modification(log: &mut SyntaxLog, m: &ModificationOfPicNums, i: u64)
    requires
        in_block(old(log)@, Block::DoWhile),
    ensures
        final(log)@ == old(log)@ + mod_iter_events(*m, i as nat),
        nesting(final(log)@) == nesting(old(log)@),
{
    log.do_while_iteration(i);
    let (idc, field_name, field_val): (u32, &str, u32) = match m {
        ModificationOfPicNums::Subtract(v) => (0u32, "abs_diff_pic_num_minus1", *v),
        ModificationOfPicNums::Add(v) => (1, "abs_diff_pic_num_minus1", *v),
        ModificationOfPicNums::LongTermRef(v) => (2, "long_term_pic_num", *v),
        ModificationOfPicNums::SubtractViewIdx(v) => (4, "abs_diff_view_idx_minus1", *v),
        ModificationOfPicNums::AddViewIdx(v) => (5, "abs_diff_view_idx_minus1", *v),
    };
    log.ue("modification_of_pic_nums_idc", idc as u64);
    let is_01 = idc <= 1;
    log.begin_if("modification_of_pic_nums_idc == 0 || modification_of_pic_nums_idc == 1", is_01);
    if is_01 {
        log.ue("abs_diff_pic_num_minus1", field_val as u64);
    }
    let is_2 = idc == 2;
    log.begin_else_if("modification_of_pic_nums_idc == 2", is_2);
    if is_2 {
        log.ue(field_name, field_val as u64);
    }
    let is_45 = idc == 4 || idc == 5;
    log.begin_else_if("modification_of_pic_nums_idc == 4 || modification_of_pic_nums_idc == 5", is_45);
    if is_45 {
        log.ue("abs_diff_view_idx_minus1", field_val as u64);
    }
    log.end_if();
    assert(final(log)@ =~= old(log)@ + mod_iter_events(*m, i as nat));
}

fn describe_modification_loop(log: &mut SyntaxLog, mods: &Vec<ModificationOfPicNums>)
    ensures
        final(log)@ == old(log)@ + mod_loop_events(mods@),
        nesting(final(log)@) == nesting(old(log)@),
{
    log.begin_do_while();
    let ghost start = log@;
    let mut i: usize = 0;
    while i < mods.len()
        invariant
            nesting(log@) == nesting(start),
            in_block(start, Block::DoWhile),
            i <= mods@.len(),
            log@ == start + mod_iters(mods@, i as nat),
        decreases mods.len() - i,
    {
        describe_modification(log, &mods[i], i as u64);
        proof {
            vstd::seq_lib::lemma_concat_associative(
                start,
                mod_iters(mods@, i as nat),
                mod_iter_events(mods@[i as int], i as nat),
            );
        }
        i = i + 1;
    }
    log.do_while_iteration(mods.len() as u64);
    log.ue("modification_of_pic_nums_idc", 3);
    log.end_do_while("modification_of_pic_nums_idc != 3");
    assert(final(log)@ =~= old(log)@ + mod_loop_events(mods@));
}

pub open spec fn is_i_or_si(f: SliceFamily) -> bool {
    f == SliceFamily::I || f == SliceFamily::SI
}

/// The list-0 operations, if the modification has any list 0.
pub open spec fn rplm_l0(r: RefPicListModifications) -> Option<Seq<ModificationOfPicNums>> {
    match r {
        RefPicListModifications::P { ref_pic_list_modification_l0 } => Some(
            ref_pic_list_modification_l0@,
        ),
        RefPicListModifications::B { ref_pic_list_modification_l0, .. } => Some(
            ref_pic_list_modification_l0@,
        ),
        RefPicListModifications::I => None,
    }
}

/// Whether the list-0 modification flag is set: list 0 has operations.
pub open spec fn rplm_l0_flag(r: RefPicListModifications) -> bool {
    match rplm_l0(r) {
        Some(ms) => ms.len() > 0,
        None => false,
    }
}

/// The list-0 part, shown for slices other than I and SI.
pub open spec fn rplm_l0_block(r: RefPicListModifications) -> Seq<EventView> {
    let l0_flag = rplm_l0_flag(r);
    seq![
        ev_flag("ref_pic_list_modification_flag_l0"@, l0_flag),
        ev_if("ref_pic_list_modification_flag_l0"@, seq![], l0_flag),
    ] + (if l0_flag {
        mod_loop_events(rplm_l0(r)->0)
    } else {
        Seq::empty()
    }) + seq![ev_end_if()]
}

/// The list-1 part, present for B modifications.
pub open spec fn rplm_l1_block(r: RefPicListModifications) -> Seq<EventView> {
    match r {
        RefPicListModifications::B { ref_pic_list_modification_l1, .. } => {
            let l1_flag = ref_pic_list_modification_l1@.len() > 0;
            seq![
                ev_flag("ref_pic_list_modification_flag_l1"@, l1_flag),
                ev_if("ref_pic_list_modification_flag_l1"@, seq![], l1_flag),
            ] + (if l1_flag {
                mod_loop_events(ref_pic_list_modification_l1@)
            } else {
                Seq::empty()
            }) + seq![ev_end_if()]
        },
        _ => Seq::empty(),
    }
}

/// The events of `ref_pic_list_modification()`.
pub open spec fn rplm_events(r: RefPicListModifications, f: SliceFamily, st: u32) -> Seq<EventView> {
    let not_i_si = !is_i_or_si(f);
    seq![
        ev_begin("ref_pic_list_modification"@),
        ev_if(
            "slice_type % 5 != 2 && slice_type % 5 != 4"@,
            seq![tv("slice_type"@, u(st as int))],
            not_i_si,
        ),
    ] + (if not_i_si {
        rplm_l0_block(r)
    } else {
        Seq::empty()
    }) + seq![
        ev_end_if(),
        ev_if("slice_type % 5 == 1"@, seq![tv("slice_type"@, u(st as int))], f == SliceFamily::B),
    ] + rplm_l1_block(r) + seq![ev_end_if(), ev_end()]
}

fn describe_rplm_l0(log: &mut SyntaxLog, rplm: &RefPicListModifications, shown: bool)
    ensures
        final(log)@ == old(log)@ + (if shown {
            rplm_l0_block(*rplm)
        } else {
            Seq::empty()
        }),
        nesting(final(log)@) == nesting(old(log)@),
{
    if shown {
        let (l0_mods, l0_flag): (Option<&Vec<ModificationOfPicNums>>, bool) = match rplm {
            RefPicListModifications::P { ref_pic_list_modification_l0 } => (
                Some(ref_pic_list_modification_l0),
                ref_pic_list_modification_l0.len() > 0,
            ),
            RefPicListModifications::B { ref_pic_list_modification_l0, .. } => (
                Some(ref_pic_list_modification_l0),
                ref_pic_list_modification_l0.len() > 0,
            ),
            RefPicListModifications::I => (None, false),
        };
        log.flag("ref_pic_list_modification_flag_l0", l0_flag);
        log.begin_if("ref_pic_list_modification_flag_l0", l0_flag);
        if let Some(mods) = l0_mods {
            if l0_flag {
                describe_modification_loop(log, mods);
            }
        }
        log.end_if();
        assert(final(log)@ =~= old(log)@ + rplm_l0_block(*rplm));
    } else {
        assert(final(log)@ =~= old(log)@ + Seq::<EventView>::empty());
    }
}

fn describe_rplm_l1(log: &mut SyntaxLog, rplm: &RefPicListModifications)
    ensures
        final(log)@ == old(log)@ + rplm_l1_block(*rplm),
        nesting(final(log)@) == nesting(old(log)@),
{
    if let RefPicListModifications::B { ref_pic_list_modification_l1, .. } = rplm {
        let l1_flag = ref_pic_list_modification_l1.len() > 0;
        log.flag("ref_pic_list_modification_flag_l1", l1_flag);
        log.begin_if("ref_pic_list_modification_flag_l1", l1_flag);
        if l1_flag {
            describe_modification_loop(log, ref_pic_list_modification_l1);
        }
        log.end_if();
    }
    assert(final(log)@ =~= old(log)@ + rplm_l1_block(*rplm));
}

pub fn describe_ref_pic_list_modification(
    log: &mut SyntaxLog,
    rplm: &RefPicListModifications,
    family: &SliceFamily,
    slice_type_val: u32,
)
    ensures
        final(log)@ == old(log)@ + rplm_events(*rplm, *family, slice_type_val),
        nesting(final(log)@) == nesting(old(log)@),
{
    let ghost base = log@;
    log.begin_element("ref_pic_list_modification");
    let is_not_i_si = !(*family == SliceFamily::I || *family == SliceFamily::SI);
    log.begin_if1(
        "slice_type % 5 != 2 && slice_type % 5 != 4",
        Term::new("slice_type", FieldValue::Unsigned(slice_type_val as u64)),
        is_not_i_si,
    );
    let ghost mut acc = seq![
        ev_begin("ref_pic_list_modification"@),
        ev_if(
            "slice_type % 5 != 2 && slice_type % 5 != 4"@,
            seq![tv("slice_type"@, u(slice_type_val as int))],
            is_not_i_si,
        ),
    ];
    assert(log@ =~= base + acc);
    describe_rplm_l0(log, rplm, is_not_i_si);
    proof {
        let blk = if is_not_i_si {
            rplm_l0_block(*rplm)
        } else {
            Seq::empty()
        };
        lemma_concat_associative(base, acc, blk);
        acc = acc + blk;
    }
    log.end_if();
    let is_b = *family == SliceFamily::B;
    log.begin_if1(
        "slice_type % 5 == 1",
        Term::new("slice_type", FieldValue::Unsigned(slice_type_val as u64)),
        is_b,
    );
    proof {
        let blk = seq![
            ev_end_if(),
            ev_if("slice_type % 5 == 1"@, seq![tv("slice_type"@, u(slice_type_val as int))], is_b),
        ];
        assert(log@ =~= (base + acc) + blk);
        lemma_concat_associative(base, acc, blk);
        acc = acc + blk;
    }
    describe_rplm_l1(log, rplm);
    proof {
        lemma_concat_associative(base, acc, rplm_l1_block(*rplm));
        acc = acc + rplm_l1_block(*rplm);
    }
    log.end_if();
    log.end_element();
    proof {
        let blk = seq![ev_end_if(), ev_end()];
        assert(log@ =~= (base + acc) + blk);
        lemma_concat_associative(base, acc, blk);
        acc = acc + blk;
    }
    assert(acc == rplm_events(*rplm, *family, slice_type_val));
}

// ---- dec_ref_pic_marking() ----
/// `memory_management_control_operation` of an operation.
pub open spec fn mmco_code(op: MemoryManagementControlOperation) -> u32 {
    match op {
        MemoryManagementControlOperation::ShortTermUnusedForRef { .. } => 1,
        MemoryManagementControlOperation::LongTermUnusedForRef { .. } => 2,
        MemoryManagementControlOperation::ShortTermUsedForLongTerm { .. } => 3,
        MemoryManagementControlOperation::MaxUsedLongTermFrameRef { .. } => 4,
        MemoryManagementControlOperation::AllRefPicturesUnused => 5,
        MemoryManagementControlOperation::CurrentUsedForLongTerm { .. } => 6,
    }
}

/// The fields that follow the operation code.
pub open spec fn mmco_fields(op: MemoryManagementControlOperation) -> Seq<EventView> {
    match op {
        MemoryManagementControlOperation::ShortTermUnusedForRef { difference_of_pic_nums_minus1 } =>
            seq![ev_ue("difference_of_pic_nums_minus1"@, difference_of_pic_nums_minus1 as u64)],
        MemoryManagementControlOperation::LongTermUnusedForRef { long_term_pic_num } => seq![
            ev_ue("long_term_pic_num"@, long_term_pic_num as u64),
        ],
        MemoryManagementControlOperation::ShortTermUsedForLongTerm {
            difference_of_pic_nums_minus1,
            long_term_frame_idx,
        } => seq![
            ev_ue("difference_of_pic_nums_minus1"@, difference_of_pic_nums_minus1 as u64),
            ev_ue("long_term_frame_idx"@, long_term_frame_idx as u64),
        ],
        MemoryManagementControlOperation::MaxUsedLongTermFrameRef {
            max_long_term_frame_idx_plus1,
        } => seq![ev_ue("max_long_term_frame_idx_plus1"@, max_long_term_frame_idx_plus1 as u64)],
        MemoryManagementControlOperation::AllRefPicturesUnused => Seq::empty(),
        MemoryManagementControlOperation::CurrentUsedForLongTerm { long_term_frame_idx } => seq![
            ev_ue("long_term_frame_idx"@, long_term_frame_idx as u64),
        ],
    }
}

pub open spec fn mmco_iter_events(op: MemoryManagementControlOperation, i: nat) -> Seq<EventView> {
    seq![
        ev_do_iter(i),
        ev_ue("memory_management_control_operation"@, mmco_code(op) as u64),
    ] + mmco_fields(op)
}

pub open spec fn mmco_iters(ops: Seq<MemoryManagementControlOperation>, n: nat) -> Seq<EventView>
    decreases n,
{
    if n == 0 {
        Seq::empty()
    } else {
        mmco_iters(ops, (n - 1) as nat) + mmco_iter_events(ops[n - 1], (n - 1) as nat)
    }
}

/// The do-while loop of operations, closed by the terminating operation 0.
pub open spec fn mmco_loop_events(ops: Seq<MemoryManagementControlOperation>) -> Seq<EventView> {
    seq![ev_do()] + mmco_iters(ops, ops.len()) + seq![
        ev_do_iter(ops.len()),
        ev_ue("memory_management_control_operation"@, 0),
        ev_end_do("memory_management_control_operation != 0"@),
    ]
}

fn describe_mmco(log: &mut SyntaxLog, op: &MemoryManagementControlOperation, i: u64)
    requires
        in_block(old(log)@, Block::DoWhile),
    ensures
        final(log)@ == old(log)@ + mmco_iter_events(*op, i as nat),
        nesting(final(log)@) == nesting(old(log)@),
{
    log.do_while_iteration(i);
    match op {
        MemoryManagementControlOperation::ShortTermUnusedForRef { difference_of_pic_nums_minus1 } => {
            log.ue("memory_management_control_operation", 1);
            log.ue("difference_of_pic_nums_minus1", *difference_of_pic_nums_minus1 as u64);
        },
        MemoryManagementControlOperation::LongTermUnusedForRef { long_term_pic_num } => {
            log.ue("memory_management_control_operation", 2);
            log.ue("long_term_pic_num", *long_term_pic_num as u64);
        },
        MemoryManagementControlOperation::ShortTermUsedForLongTerm {
            difference_of_pic_nums_minus1,
            long_term_frame_idx,
        } => {
            log.ue("memory_management_control_operation", 3);
            log.ue("difference_of_pic_nums_minus1", *difference_of_pic_nums_minus1 as u64);
            log.ue("long_term_frame_idx", *long_term_frame_idx as u64);
        },
        MemoryManagementControlOperation::MaxUsedLongTermFrameRef {
            max_long_term_frame_idx_plus1,
        } => {
            log.ue("memory_management_control_operation", 4);
            log.ue("max_long_term_frame_idx_plus1", *max_long_term_frame_idx_plus1 as u64);
        },
        MemoryManagementControlOperation::AllRefPicturesUnused => {
            log.ue("memory_management_control_operation", 5);
        },
        MemoryManagementControlOperation::CurrentUsedForLongTerm { long_term_frame_idx } => {
            log.ue("memory_management_control_operation", 6);
            log.ue("long_term_frame_idx", *long_term_frame_idx as u64);
        },
    }
    assert(final(log)@ =~= old(log)@ + mmco_iter_events(*op, i as nat));
}

fn describe_mmco_loop(log: &mut SyntaxLog, ops: &Vec<MemoryManagementControlOperation>)
    ensures
        final(log)@ == old(log)@ + mmco_loop_events(ops@),
        nesting(final(log)@) == nesting(old(log)@),
{
    log.begin_do_while();
    let ghost start = log@;
    let mut i: usize = 0;
    while i < ops.len()
        invariant
            nesting(log@) == nesting(start),
            in_block(start, Block::DoWhile),
            i <= ops@.len(),
            log@ == start + mmco_iters(ops@, i as nat),
        decreases ops.len() - i,
    {
        describe_mmco(log, &ops[i], i as u64);
        proof {
            vstd::seq_lib::lemma_concat_associative(
                start,
                mmco_iters(ops@, i as nat),
                mmco_iter_events(ops@[i as int], i as nat),
            );
        }
        i = i + 1;
    }
    log.do_while_iteration(ops.len() as u64);
    log.ue("memory_management_control_operation", 0);
    log.end_do_while("memory_management_control_operation != 0");
    assert(final(log)@ =~= old(log)@ + mmco_loop_events(ops@));
}

/// The events of `dec_ref_pic_marking()`.
pub open spec fn drpm_events(d: DecRefPicMarking) -> Seq<EventView> {
    let is_idr = d is Idr;
    seq![
        ev_begin("dec_ref_pic_marking"@),
        ev_if("IdrPicFlag"@, seq![tv("IdrPicFlag"@, FieldValue::Bool(is_idr))], is_idr),
    ] + (match d {
        DecRefPicMarking::Idr { no_output_of_prior_pics_flag, long_term_reference_flag } => seq![
            ev_flag("no_output_of_prior_pics_flag"@, no_output_of_prior_pics_flag),
            ev_flag("long_term_reference_flag"@, long_term_reference_flag),
        ],
        _ => Seq::empty(),
    }) + seq![ev_else(!is_idr)] + (match d {
        DecRefPicMarking::SlidingWindow => seq![
            ev_flag("adaptive_ref_pic_marking_mode_flag"@, false),
        ],
        DecRefPicMarking::Adaptive(ops) => seq![
            ev_flag("adaptive_ref_pic_marking_mode_flag"@, true),
            ev_if("adaptive_ref_pic_marking_mode_flag"@, seq![], true),
        ] + mmco_loop_events(ops@) + seq![ev_end_if()],
        DecRefPicMarking::Idr { .. } => Seq::empty(),
    }) + seq![ev_end_if(), ev_end()]
}

pub fn describe_dec_ref_pic_marking(log: &mut SyntaxLog, drpm: &DecRefPicMarking)
    ensures
        final(log)@ == old(log)@ + drpm_events(*drpm),
        nesting(final(log)@) == nesting(old(log)@),
{
    log.begin_element("dec_ref_pic_marking");
    let is_idr = match drpm {
        DecRefPicMarking::Idr { .. } => true,
        _ => false,
    };
    log.begin_if1("IdrPicFlag", Term::new("IdrPicFlag", FieldValue::Bool(is_idr)), is_idr);
    if let DecRefPicMarking::Idr { no_output_of_prior_pics_flag, long_term_reference_flag } = drpm {
        log.flag("no_output_of_prior_pics_flag", *no_output_of_prior_pics_flag);
        log.flag("long_term_reference_flag", *long_term_reference_flag);
    }
    log.begin_else(!is_idr);
    match drpm {
        DecRefPicMarking::SlidingWindow => {
            log.flag("adaptive_ref_pic_marking_mode_flag", false);
        },
        DecRefPicMarking::Adaptive(ops) => {
            log.flag("adaptive_ref_pic_marking_mode_flag", true);
            log.begin_if("adaptive_ref_pic_marking_mode_flag", true);
            describe_mmco_loop(log, ops);
            log.end_if();
        },
        DecRefPicMarking::Idr { .. } => {},
    }
    log.end_if();
    log.end_element();
    assert(final(log)@ =~= old(log)@ + drpm_events(*drpm));
}

// ---- pred_weight_table() ----
/// `ChromaArrayType` as the prediction weight table reads it: 0 when the
/// colour planes are coded separately, else `chroma_format_idc`.
pub open spec fn pwt_chroma_array_type(sps: SeqParameterSet) -> u32 {
    if sps.chroma_info.separate_colour_plane_flag {
        0
    } else {
        sps.chroma_info.chroma_format_idc
    }
}

/// The field names of list 0 or list 1: flag, weight and offset, for luma
/// (`kind` 0 to 2) and chroma (`kind` 3 to 5).
pub open spec fn pwt_name(l1: bool, kind: nat) -> Seq<char> {
    if !l1 {
        if kind == 0 {
            "luma_weight_l0_flag"@
        } else if kind == 1 {
            "luma_weight_l0"@
        } else if kind == 2 {
            "luma_offset_l0"@
        } else if kind == 3 {
            "chroma_weight_l0_flag"@
        } else if kind == 4 {
            "chroma_weight_l0"@
        } else {
            "chroma_offset_l0"@
        }
    } else {
        if kind == 0 {
            "luma_weight_l1_flag"@
        } else if kind == 1 {
            "luma_weight_l1"@
        } else if kind == 2 {
            "luma_offset_l1"@
        } else if kind == 3 {
            "chroma_weight_l1_flag"@
        } else if kind == 4 {
            "chroma_weight_l1"@
        } else {
            "chroma_offset_l1"@
        }
    }
}

fn pwt_name_str(l1: bool, kind: u8) -> (s: &'static str)
    ensures
        s@ == pwt_name(l1, kind as nat),
{
    if !l1 {
        if kind == 0 {
            "luma_weight_l0_flag"
        } else if kind == 1 {
            "luma_weight_l0"
        } else if kind == 2 {
            "luma_offset_l0"
        } else if kind == 3 {
            "chroma_weight_l0_flag"
        } else if kind == 4 {
            "chroma_weight_l0"
        } else {
            "chroma_offset_l0"
        }
    } else {
        if kind == 0 {
            "luma_weight_l1_flag"
        } else if kind == 1 {
            "luma_weight_l1"
        } else if kind == 2 {
            "luma_offset_l1"
        } else if kind == 3 {
            "chroma_weight_l1_flag"
        } else if kind == 4 {
            "chroma_weight_l1"
        } else {
            "chroma_offset_l1"
        }
    }
}

pub open spec fn chroma_pair_iters(l1: bool, i: nat, ws: Seq<PredWeight>, n: nat) -> Seq<EventView>
    decreases n,
{
    if n == 0 {
        Seq::empty()
    } else {
        chroma_pair_iters(l1, i, ws, (n - 1) as nat) + seq![
            ev_se(idx2(pwt_name(l1, 4), i, (n - 1) as nat), ws[n - 1].weight as i64),
            ev_se(idx2(pwt_name(l1, 5), i, (n - 1) as nat), ws[n - 1].offset as i64),
        ]
    }
}

/// The chroma weights of entry `i`, if the table has an entry there.
pub open spec fn chroma_at(cws: Seq<Vec<PredWeight>>, i: int) -> Option<Seq<PredWeight>> {
    if 0 <= i < cws.len() {
        Some(cws[i]@)
    } else {
        None
    }
}

/// The luma part of iteration `i` of a weight loop.
pub open spec fn luma_item_events(l1: bool, lw: Option<PredWeight>, i: nat) -> Seq<EventView> {
    seq![
        ev_iter("i"@, i),
        ev_flag(pwt_name(l1, 0), lw is Some),
        ev_if(pwt_name(l1, 0), seq![], lw is Some),
    ] + (match lw {
        Some(pw) => seq![
            ev_se(idx1(pwt_name(l1, 1), i), pw.weight as i64),
            ev_se(idx1(pwt_name(l1, 2), i), pw.offset as i64),
        ],
        None => Seq::empty(),
    }) + seq![ev_end_if()]
}

/// The chroma part of iteration `i` of a weight loop, when `ChromaArrayType != 0`.
pub open spec fn chroma_item_events(
    l1: bool,
    cw: Option<Seq<PredWeight>>,
    i: nat,
    cat: u32,
) -> Seq<EventView> {
    let has_cw = match cw {
        Some(ws) => ws.len() > 0,
        None => false,
    };
    seq![
        ev_if("ChromaArrayType != 0"@, seq![tv("ChromaArrayType"@, u(cat as int))], true),
        ev_flag(pwt_name(l1, 3), has_cw),
        ev_if(pwt_name(l1, 3), seq![], has_cw),
    ] + (match cw {
        Some(ws) => chroma_pair_iters(l1, i, ws, ws.len()),
        None => Seq::empty(),
    }) + seq![ev_end_if(), ev_end_if()]
}

/// Iteration `i` of a weight loop.
pub open spec fn weight_item_events(
    l1: bool,
    lw: Option<PredWeight>,
    cw: Option<Seq<PredWeight>>,
    i: nat,
    has_chroma: bool,
    cat: u32,
) -> Seq<EventView> {
    luma_item_events(l1, lw, i) + (if has_chroma {
        chroma_item_events(l1, cw, i, cat)
    } else {
        Seq::empty()
    })
}

pub open spec fn weight_iters(
    l1: bool,
    lws: Seq<Option<PredWeight>>,
    cws: Seq<Vec<PredWeight>>,
    has_chroma: bool,
    cat: u32,
    n: nat,
) -> Seq<EventView>
    decreases n,
{
    if n == 0 {
        Seq::empty()
    } else {
        weight_iters(l1, lws, cws, has_chroma, cat, (n - 1) as nat) + weight_item_events(
            l1,
            lws[n - 1],
            chroma_at(cws, n - 1),
            (n - 1) as nat,
            has_chroma,
            cat,
        )
    }
}

fn describe_chroma_pairs(log: &mut SyntaxLog, l1: bool, i: u64, ws: &Vec<PredWeight>)
    ensures
        final(log)@ == old(log)@ + chroma_pair_iters(l1, i as nat, ws@, ws@.len()),
        nesting(final(log)@) == nesting(old(log)@),
{
    let ghost start = log@;
    let mut j: usize = 0;
    while j < ws.len()
        invariant
            nesting(log@) == nesting(start),
            j <= ws@.len(),
            log@ == start + chroma_pair_iters(l1, i as nat, ws@, j as nat),
        decreases ws.len() - j,
    {
        log.se_named(indexed2(pwt_name_str(l1, 4), i, j as u64), ws[j].weight as i64);
        log.se_named(indexed2(pwt_name_str(l1, 5), i, j as u64), ws[j].offset as i64);
        assert(log@ =~= start + chroma_pair_iters(l1, i as nat, ws@, (j + 1) as nat));
        j = j + 1;
    }
}

fn describe_luma_item(log: &mut SyntaxLog, l1: bool, lw: &Option<PredWeight>, i: usize)
    requires
        in_block(old(log)@, Block::Loop),
    ensures
        final(log)@ == old(log)@ + luma_item_events(l1, *lw, i as nat),
        nesting(final(log)@) == nesting(old(log)@),
{
    log.for_iteration("i", i as u64);
    let has_luma = lw.is_some();
    log.flag(pwt_name_str(l1, 0), has_luma);
    log.begin_if(pwt_name_str(l1, 0), has_luma);
    if let Some(pw) = lw {
        log.se_named(indexed1(pwt_name_str(l1, 1), i as u64), pw.weight as i64);
        log.se_named(indexed1(pwt_name_str(l1, 2), i as u64), pw.offset as i64);
    }
    log.end_if();
    assert(final(log)@ =~= old(log)@ + luma_item_events(l1, *lw, i as nat));
}

fn describe_chroma_item(
    log: &mut SyntaxLog,
    l1: bool,
    cws: &Vec<Vec<PredWeight>>,
    i: usize,
    cat: u32,
)
    ensures
        final(log)@ == old(log)@ + chroma_item_events(l1, chroma_at(cws@, i as int), i as nat, cat),
        nesting(final(log)@) == nesting(old(log)@),
{
    let cw: Option<&Vec<PredWeight>> = if i < cws.len() {
        Some(&cws[i])
    } else {
        None
    };
    let has_cw = match cw {
        Some(v) => v.len() > 0,
        None => false,
    };
    log.begin_if1(
        "ChromaArrayType != 0",
        Term::new("ChromaArrayType", FieldValue::Unsigned(cat as u64)),
        true,
    );
    log.flag(pwt_name_str(l1, 3), has_cw);
    log.begin_if(pwt_name_str(l1, 3), has_cw);
    let ghost mid = log@;
    if let Some(weights) = cw {
        describe_chroma_pairs(log, l1, i as u64, weights);
    }
    log.end_if();
    log.end_if();
    assert(final(log)@ =~= old(log)@ + chroma_item_events(
        l1,
        chroma_at(cws@, i as int),
        i as nat,
        cat,
    ));
}

fn describe_weight_item(
    log: &mut SyntaxLog,
    l1: bool,
    lw: &Option<PredWeight>,
    cws: &Vec<Vec<PredWeight>>,
    i: usize,
    has_chroma: bool,
    cat: u32,
)
    requires
        in_block(old(log)@, Block::Loop),
    ensures
        final(log)@ == old(log)@ + weight_item_events(
            l1,
            *lw,
            chroma_at(cws@, i as int),
            i as nat,
            has_chroma,
            cat,
        ),
        nesting(final(log)@) == nesting(old(log)@),
{
    let ghost start = log@;
    describe_luma_item(log, l1, lw, i);
    if has_chroma {
        describe_chroma_item(log, l1, cws, i, cat);
        proof {
            vstd::seq_lib::lemma_concat_associative(
                start,
                luma_item_events(l1, *lw, i as nat),
                chroma_item_events(l1, chroma_at(cws@, i as int), i as nat, cat),
            );
        }
    } else {
        assert(log@ =~= start + weight_item_events(
            l1,
            *lw,
            chroma_at(cws@, i as int),
            i as nat,
            has_chroma,
            cat,
        ));
    }
}

fn describe_weight_list(
    log: &mut SyntaxLog,
    l1: bool,
    lws: &Vec<Option<PredWeight>>,
    cws: &Vec<Vec<PredWeight>>,
    has_chroma: bool,
    cat: u32,
)
    requires
        in_block(old(log)@, Block::Loop),
    ensures
        final(log)@ == old(log)@ + weight_iters(l1, lws@, cws@, has_chroma, cat, lws@.len()),
        nesting(final(log)@) == nesting(old(log)@),
{
    let ghost start = log@;
    let mut i: usize = 0;
    while i < lws.len()
        invariant
            nesting(log@) == nesting(start),
            in_block(start, Block::Loop),
            i <= lws@.len(),
            log@ == start + weight_iters(l1, lws@, cws@, has_chroma, cat, i as nat),
        decreases lws.len() - i,
    {
        describe_weight_item(log, l1, &lws[i], cws, i, has_chroma, cat);
        proof {
            vstd::seq_lib::lemma_concat_associative(
                start,
                weight_iters(l1, lws@, cws@, has_chroma, cat, i as nat),
                weight_item_events(
                    l1,
                    lws@[i as int],
                    chroma_at(cws@, i as int),
                    i as nat,
                    has_chroma,
                    cat,
                ),
            );
        }
        i = i + 1;
    }
}

/// The opening of `pred_weight_table()`, up to the `for` of list 0.
pub open spec fn pwt_head_events(pwt: PredWeightTable, cat: u32) -> Seq<EventView> {
    seq![
        ev_begin("pred_weight_table"@),
        ev_ue("luma_log2_weight_denom"@, pwt.luma_log2_weight_denom as u64),
        ev_if("ChromaArrayType != 0"@, seq![tv("ChromaArrayType"@, u(cat as int))], cat != 0),
    ] + (match pwt.chroma_log2_weight_denom {
        Some(v) => seq![ev_ue("chroma_log2_weight_denom"@, v as u64)],
        None => Seq::empty(),
    }) + seq![
        ev_end_if(),
        ev_for(
            "i = 0; i <= num_ref_idx_l0_active_minus1; i++"@,
            seq![
                tv(
                    "num_ref_idx_l0_active_minus1"@,
                    u(count_minus1(pwt.luma_weights@.len()) as int),
                ),
            ],
        ),
    ]
}

/// The list 1 part of `pred_weight_table()`, from the end of the list 0 loop.
pub open spec fn pwt_l1_events(
    pwt: PredWeightTable,
    is_b: bool,
    cat: u32,
    st: u32,
) -> Seq<EventView> {
    let n_l1 = pwt.luma_weights_l1@.len();
    seq![
        ev_end_for(),
        ev_if("slice_type % 5 == 1"@, seq![tv("slice_type"@, u(st as int))], is_b),
    ] + (if is_b && n_l1 > 0 {
        seq![
            ev_for(
                "i = 0; i <= num_ref_idx_l1_active_minus1; i++"@,
                seq![tv("num_ref_idx_l1_active_minus1"@, u(count_minus1(n_l1) as int))],
            ),
        ] + weight_iters(
            true,
            pwt.luma_weights_l1@,
            pwt.chroma_weights_l1@,
            cat != 0,
            cat,
            n_l1,
        ) + seq![ev_end_for()]
    } else {
        Seq::empty()
    }) + seq![ev_end_if(), ev_end()]
}

/// The events of `pred_weight_table()`.
pub open spec fn pwt_events(
    pwt: PredWeightTable,
    f: SliceFamily,
    sps: SeqParameterSet,
    st: u32,
) -> Seq<EventView> {
    let cat = pwt_chroma_array_type(sps);
    pwt_head_events(pwt, cat) + weight_iters(
        false,
        pwt.luma_weights@,
        pwt.chroma_weights@,
        cat != 0,
        cat,
        pwt.luma_weights@.len(),
    ) + pwt_l1_events(pwt, f == SliceFamily::B, cat, st)
}

fn describe_pwt_head(log: &mut SyntaxLog, pwt: &PredWeightTable, cat: u32)
    ensures
        final(log)@ == old(log)@ + pwt_head_events(*pwt, cat),
        nesting(final(log)@) == opened(opened(nesting(old(log)@), Block::Element), Block::Loop),
{
    log.begin_element("pred_weight_table");
    let has_chroma = cat != 0;
    log.ue("luma_log2_weight_denom", pwt.luma_log2_weight_denom as u64);
    log.begin_if1(
        "ChromaArrayType != 0",
        Term::new("ChromaArrayType", FieldValue::Unsigned(cat as u64)),
        has_chroma,
    );
    if let Some(v) = pwt.chroma_log2_weight_denom {
        log.ue("chroma_log2_weight_denom", v as u64);
    }
    log.end_if();
    let num_l0 = pwt.luma_weights.len();
    log.begin_for1(
        "i = 0; i <= num_ref_idx_l0_active_minus1; i++",
        Term::new("num_ref_idx_l0_active_minus1", FieldValue::Unsigned(minus1(num_l0) as u64)),
    );
    assert(final(log)@ =~= old(log)@ + pwt_head_events(*pwt, cat));
}

fn describe_pwt_l1(log: &mut SyntaxLog, pwt: &PredWeightTable, is_b: bool, cat: u32, st: u32)
    ensures
        final(log)@ == old(log)@ + pwt_l1_events(*pwt, is_b, cat, st),
        nesting(final(log)@) == closed(closed(nesting(old(log)@), Block::Loop), Block::Element),
{
    log.end_for();
    log.begin_if1(
        "slice_type % 5 == 1",
        Term::new("slice_type", FieldValue::Unsigned(st as u64)),
        is_b,
    );
    let ghost mid = log@;
    if is_b && pwt.luma_weights_l1.len() > 0 {
        let num_l1 = pwt.luma_weights_l1.len();
        log.begin_for1(
            "i = 0; i <= num_ref_idx_l1_active_minus1; i++",
            Term::new("num_ref_idx_l1_active_minus1", FieldValue::Unsigned(minus1(num_l1) as u64)),
        );
        describe_weight_list(
            log,
            true,
            &pwt.luma_weights_l1,
            &pwt.chroma_weights_l1,
            cat != 0,
            cat,
        );
        log.end_for();
    }
    log.end_if();
    log.end_element();
    assert(final(log)@ =~= old(log)@ + pwt_l1_events(*pwt, is_b, cat, st));
}

/// Describes `pred_weight_table()`: with `ChromaArrayType` taken from `sps`,
/// the events of `pwt_events` are appended to the log.
pub fn describe_pred_weight_table(
    log: &mut SyntaxLog,
    pwt: &PredWeightTable,
    family: &SliceFamily,
    sps: &SeqParameterSet,
    slice_type_val: u32,
)
    ensures
        final(log)@ == old(log)@ + pwt_events(*pwt, *family, *sps, slice_type_val),
        nesting(final(log)@) == nesting(old(log)@),
{
    let cat: u32 = if sps.chroma_info.separate_colour_plane_flag {
        0
    } else {
        sps.chroma_info.chroma_format_idc
    };
    let ghost start = log@;
    describe_pwt_head(log, pwt, cat);
    let ghost a = log@;
    describe_weight_list(log, false, &pwt.luma_weights, &pwt.chroma_weights, cat != 0, cat);
    let ghost b = log@;
    let is_b = *family == SliceFamily::B;
    describe_pwt_l1(log, pwt, is_b, cat, slice_type_val);
    proof {
        let h = pwt_head_events(*pwt, cat);
        let w = weight_iters(
            false,
            pwt.luma_weights@,
            pwt.chroma_weights@,
            cat != 0,
            cat,
            pwt.luma_weights@.len(),
        );
        let t = pwt_l1_events(*pwt, is_b, cat, slice_type_val);
        vstd::seq_lib::lemma_concat_associative(start, h, w);
        vstd::seq_lib::lemma_concat_associative(start, h + w, t);
    }
    proof {
        lemma_closed_opened(opened(nesting(old(log)@), Block::Element), Block::Loop);
        lemma_closed_opened(nesting(old(log)@), Block::Element);
    }
}

} // verus!
