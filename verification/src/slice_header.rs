//! `slice_header()` (7.3.3): the fields of the header, in order, with the
//! conditions of the syntax table annotated by the values that decide them.
use vstd::prelude::*;
use crate::syntax::{
    ev_begin, ev_else_if, ev_end, ev_end_if, ev_fixed, ev_flag, ev_if, ev_se, ev_ue, if_block,
    lemma_closed_opened, nesting, opened, tv, well_nested, Block, EventView, FieldValue, SyntaxLog,
    Term, TermView,
};
use vstd::seq_lib::lemma_concat_associative;
use crate::bits::{change_cycle_bits, slice_group_change_cycle_bits};
use crate::pps::{PicParameterSet, SliceGroup};
use crate::slice::{
    describe_dec_ref_pic_marking, describe_pred_weight_table, describe_ref_pic_list_modification,
    drpm_events, family_name, pwt_events, rplm_events, slice_type_code, slice_type_name,
    slice_type_to_u32, ColourPlane, Field, FieldPic, NumRefIdxActive, PicOrderCountLsb,
    SliceExclusive, SliceFamily, SliceHeader,
};
use crate::sps::{pic_order_cnt_type, poc_type, FrameMbsFlags, PicOrderCntType, SeqParameterSet};
use crate::vui::u;
use crate::SliceHeaderDescribe;

verus! {

/// `slice_type` of the header.
pub open spec fn header_slice_type(h: SliceHeader) -> u32 {
    slice_type_code(h.slice_type.family, h.slice_type.exclusive)
}

/// The annotation `slice_type: <value>`.
pub open spec fn slice_type_term(st: u32) -> Seq<TermView> {
    seq![tv("slice_type"@, u(st as int))]
}

/// `colour_plane_id`: Y 0, Cb 1, Cr 2.
pub open spec fn colour_plane_id(cp: ColourPlane) -> u64 {
    match cp {
        ColourPlane::Y => 0,
        ColourPlane::Cb => 1,
        ColourPlane::Cr => 2,
    }
}

/// From the start of the element to `pic_parameter_set_id`.
pub open spec fn sh_head(h: SliceHeader, pps: PicParameterSet) -> Seq<EventView> {
    seq![
        ev_begin("slice_header"@),
        ev_ue("first_mb_in_slice"@, h.first_mb_in_slice as u64),
        EventView::VariableLengthField {
            name: "slice_type"@,
            descriptor: "ue(v)"@,
            value: FieldValue::Unsigned(header_slice_type(h) as u64),
            comment: Some(family_name(h.slice_type.family)),
        },
        ev_ue("pic_parameter_set_id"@, pps.pic_parameter_set_id as u64),
    ]
}

/// `colour_plane_id`, under `separate_colour_plane_flag == 1`, then `frame_num`.
pub open spec fn sh_plane_and_frame_num(h: SliceHeader, sps: SeqParameterSet) -> Seq<EventView> {
    let sep = sps.chroma_info.separate_colour_plane_flag;
    if_block(
        "separate_colour_plane_flag == 1"@,
        seq![tv("separate_colour_plane_flag"@, FieldValue::Bool(sep))],
        sep,
        match h.colour_plane {
            Some(cp) => seq![ev_fixed("colour_plane_id"@, 2, u(colour_plane_id(cp) as int))],
            None => Seq::empty(),
        },
    ) + seq![
        ev_fixed(
            "frame_num"@,
            (sps.log2_max_frame_num_minus4 + 4) as u32,
            u(h.frame_num as int),
        ),
    ]
}

/// `field_pic_flag` and `bottom_field_flag`, under `!frame_mbs_only_flag`.
pub open spec fn sh_field_block(h: SliceHeader, sps: SeqParameterSet) -> Seq<EventView> {
    let fields = sps.frame_mbs_flags is Fields;
    let field_pic = h.field_pic is Field;
    if_block(
        "!frame_mbs_only_flag"@,
        seq![tv("frame_mbs_only_flag"@, FieldValue::Bool(!fields))],
        fields,
        if fields {
            seq![ev_flag("field_pic_flag"@, field_pic)] + if_block(
                "field_pic_flag"@,
                seq![],
                field_pic,
                match h.field_pic {
                    FieldPic::Field(f) => seq![ev_flag("bottom_field_flag"@, f is Bottom)],
                    FieldPic::Frame => Seq::empty(),
                },
            )
        } else {
            Seq::empty()
        },
    )
}

/// `idr_pic_id`, under `IdrPicFlag`.
pub open spec fn sh_idr_block(h: SliceHeader) -> Seq<EventView> {
    let is_idr = h.idr_pic_id is Some;
    if_block(
        "IdrPicFlag"@,
        seq![tv("IdrPicFlag"@, FieldValue::Bool(is_idr))],
        is_idr,
        match h.idr_pic_id {
            Some(id) => seq![ev_ue("idr_pic_id"@, id as u64)],
            None => Seq::empty(),
        },
    )
}

/// The `if` that guards the bottom field's count.
pub open spec fn bottom_field_if(h: SliceHeader, pps: PicParameterSet) -> EventView {
    ev_if(
        "bottom_field_pic_order_in_frame_present_flag && !field_pic_flag"@,
        seq![
            tv(
                "bottom_field_pic_order_in_frame_present_flag"@,
                FieldValue::Bool(pps.bottom_field_pic_order_in_frame_present_flag),
            ),
            tv("field_pic_flag"@, FieldValue::Bool(h.field_pic is Field)),
        ],
        true,
    )
}

/// The fields of the `pic_order_cnt_type == 0` branch.
pub open spec fn poc_type0_fields(
    h: SliceHeader,
    sps: SeqParameterSet,
    pps: PicParameterSet,
) -> Seq<EventView> {
    match sps.pic_order_cnt {
        PicOrderCntType::TypeZero { log2_max_pic_order_cnt_lsb_minus4 } => {
            let bits = (log2_max_pic_order_cnt_lsb_minus4 + 4) as u32;
            match h.pic_order_cnt_lsb {
                Some(PicOrderCountLsb::Frame(v)) => seq![
                    ev_fixed("pic_order_cnt_lsb"@, bits, u(v as int)),
                ],
                Some(
                    PicOrderCountLsb::FieldsAbsolute { pic_order_cnt_lsb, delta_pic_order_cnt_bottom },
                ) => seq![
                    ev_fixed("pic_order_cnt_lsb"@, bits, u(pic_order_cnt_lsb as int)),
                    bottom_field_if(h, pps),
                    ev_se("delta_pic_order_cnt_bottom"@, delta_pic_order_cnt_bottom as i64),
                    ev_end_if(),
                ],
                _ => Seq::empty(),
            }
        },
        _ => Seq::empty(),
    }
}

/// `delta_pic_order_always_zero_flag` as the condition reads it: set only
/// for type 1 with the flag set.
pub open spec fn always_zero(poc: PicOrderCntType) -> bool {
    match poc {
        PicOrderCntType::TypeOne { delta_pic_order_always_zero_flag, .. } => delta_pic_order_always_zero_flag,
        _ => false,
    }
}

/// The fields of the `pic_order_cnt_type == 1` branch, when it is taken.
pub open spec fn poc_type1_fields(h: SliceHeader, pps: PicParameterSet) -> Seq<EventView> {
    match h.pic_order_cnt_lsb {
        Some(PicOrderCountLsb::FieldsDelta(d)) => seq![
            ev_se("delta_pic_order_cnt[0]"@, d@[0] as i64),
        ] + (if pps.bottom_field_pic_order_in_frame_present_flag && h.field_pic is Frame {
            seq![
                bottom_field_if(h, pps),
                ev_se("delta_pic_order_cnt[1]"@, d@[1] as i64),
                ev_end_if(),
            ]
        } else {
            Seq::empty()
        }),
        _ => Seq::empty(),
    }
}

/// The picture order count fields of the header.
pub open spec fn poc_fields_events(
    h: SliceHeader,
    sps: SeqParameterSet,
    pps: PicParameterSet,
) -> Seq<EventView> {
    let t = poc_type(sps.pic_order_cnt);
    let z = always_zero(sps.pic_order_cnt);
    let t1 = t == 1 && !z;
    seq![ev_if("pic_order_cnt_type == 0"@, seq![tv("pic_order_cnt_type"@, u(t as int))], t == 0)]
        + poc_type0_fields(h, sps, pps) + seq![
        ev_else_if(
            "pic_order_cnt_type == 1 && !delta_pic_order_always_zero_flag"@,
            seq![tv("delta_pic_order_always_zero_flag"@, FieldValue::Bool(z))],
            t1,
        ),
    ] + (if t1 {
        poc_type1_fields(h, pps)
    } else {
        Seq::empty()
    }) + seq![ev_end_if()]
}

/// `redundant_pic_cnt`, then `direct_spatial_mv_pred_flag`.
pub open spec fn sh_redundant_direct(h: SliceHeader, pps: PicParameterSet) -> Seq<EventView> {
    let st = header_slice_type(h);
    let r = pps.redundant_pic_cnt_present_flag;
    if_block(
        "redundant_pic_cnt_present_flag"@,
        seq![tv("redundant_pic_cnt_present_flag"@, FieldValue::Bool(r))],
        r,
        match h.redundant_pic_cnt {
            Some(v) => seq![ev_ue("redundant_pic_cnt"@, v as u64)],
            None => Seq::empty(),
        },
    ) + if_block(
        "slice_type == B"@,
        slice_type_term(st),
        h.slice_type.family == SliceFamily::B,
        match h.direct_spatial_mv_pred_flag {
            Some(v) => seq![ev_flag("direct_spatial_mv_pred_flag"@, v)],
            None => Seq::empty(),
        },
    )
}

pub open spec fn is_p_sp_b(f: SliceFamily) -> bool {
    f == SliceFamily::P || f == SliceFamily::SP || f == SliceFamily::B
}

/// `num_ref_idx_active_override_flag` and the counts it brings.
pub open spec fn sh_num_ref_idx(h: SliceHeader) -> Seq<EventView> {
    let shown = is_p_sp_b(h.slice_type.family);
    let ov = h.num_ref_idx_active is Some;
    if_block(
        "slice_type == P || slice_type == SP || slice_type == B"@,
        slice_type_term(header_slice_type(h)),
        shown,
        if shown {
            seq![ev_flag("num_ref_idx_active_override_flag"@, ov)] + if_block(
                "num_ref_idx_active_override_flag"@,
                seq![],
                ov,
                match h.num_ref_idx_active {
                    Some(NumRefIdxActive::P { num_ref_idx_l0_active_minus1 }) => seq![
                        ev_ue("num_ref_idx_l0_active_minus1"@, num_ref_idx_l0_active_minus1 as u64),
                    ],
                    Some(
                        NumRefIdxActive::B { num_ref_idx_l0_active_minus1, num_ref_idx_l1_active_minus1 },
                    ) => seq![
                        ev_ue("num_ref_idx_l0_active_minus1"@, num_ref_idx_l0_active_minus1 as u64),
                        ev_ue("num_ref_idx_l1_active_minus1"@, num_ref_idx_l1_active_minus1 as u64),
                    ],
                    None => Seq::empty(),
                },
            )
        } else {
            Seq::empty()
        },
    )
}

/// Whether the syntax table reads `pred_weight_table()`.
pub open spec fn needs_pwt(f: SliceFamily, pps: PicParameterSet) -> bool {
    (pps.weighted_pred_flag && (f == SliceFamily::P || f == SliceFamily::SP)) || (
    pps.weighted_bipred_idc == 1 && f == SliceFamily::B)
}

/// `ref_pic_list_modification()` where the header has one, then the
/// conditional `pred_weight_table()`.
pub open spec fn sh_rplm_pwt(
    h: SliceHeader,
    sps: SeqParameterSet,
    pps: PicParameterSet,
) -> Seq<EventView> {
    let st = header_slice_type(h);
    let f = h.slice_type.family;
    (match h.ref_pic_list_modification {
        Some(r) => rplm_events(r, f, st),
        None => Seq::empty(),
    }) + if_block(
        "(weighted_pred_flag && (slice_type == P || slice_type == SP)) || (weighted_bipred_idc == 1 && slice_type == B)"@,
        seq![
            tv("weighted_pred_flag"@, FieldValue::Bool(pps.weighted_pred_flag)),
            tv("weighted_bipred_idc"@, u(pps.weighted_bipred_idc as int)),
            tv("slice_type"@, u(st as int)),
        ],
        needs_pwt(f, pps),
        match h.pred_weight_table {
            Some(p) => pwt_events(p, f, sps, st),
            None => Seq::empty(),
        },
    )
}

/// `dec_ref_pic_marking()` under `nal_ref_idc != 0`. The header does not
/// keep `nal_ref_idc`; the annotation shows 1 where the marking is present.
pub open spec fn sh_drpm(h: SliceHeader) -> Seq<EventView> {
    let has = h.dec_ref_pic_marking is Some;
    if_block(
        "nal_ref_idc != 0"@,
        seq![tv("nal_ref_idc"@, u(if has { 1int } else { 0int }))],
        has,
        match h.dec_ref_pic_marking {
            Some(d) => drpm_events(d),
            None => Seq::empty(),
        },
    )
}

/// `cabac_init_idc`, then `slice_qp_delta`.
pub open spec fn sh_cabac_qp(h: SliceHeader, pps: PicParameterSet) -> Seq<EventView> {
    let f = h.slice_type.family;
    let e = pps.entropy_coding_mode_flag;
    if_block(
        "entropy_coding_mode_flag && slice_type != I && slice_type != SI"@,
        seq![
            tv("entropy_coding_mode_flag"@, FieldValue::Bool(e)),
            tv("slice_type"@, u(header_slice_type(h) as int)),
        ],
        e && !(f == SliceFamily::I || f == SliceFamily::SI),
        match h.cabac_init_idc {
            Some(v) => seq![ev_ue("cabac_init_idc"@, v as u64)],
            None => Seq::empty(),
        },
    ) + seq![ev_se("slice_qp_delta"@, h.slice_qp_delta as i64)]
}

/// `slice_qs_delta` recovered from `QSY`: `QSY - 26 - pic_init_qs_minus26`.
pub open spec fn slice_qs_delta(qs_y: u32, pic_init_qs_minus26: i32) -> int {
    qs_y - 26 - pic_init_qs_minus26
}

/// `sp_for_switch_flag` and `slice_qs_delta`, under `slice_type == SP || slice_type == SI`.
pub open spec fn sh_sp_si(h: SliceHeader, pps: PicParameterSet) -> Seq<EventView> {
    let f = h.slice_type.family;
    let st = header_slice_type(h);
    let shown = f == SliceFamily::SP || f == SliceFamily::SI;
    if_block(
        "slice_type == SP || slice_type == SI"@,
        slice_type_term(st),
        shown,
        if shown {
            if_block(
                "slice_type == SP"@,
                slice_type_term(st),
                f == SliceFamily::SP,
                match h.sp_for_switch_flag {
                    Some(v) => seq![ev_flag("sp_for_switch_flag"@, v)],
                    None => Seq::empty(),
                },
            ) + match h.slice_qs {
                Some(q) => seq![
                    ev_se("slice_qs_delta"@, slice_qs_delta(q, pps.pic_init_qs_minus26) as i64),
                ],
                None => Seq::empty(),
            }
        } else {
            Seq::empty()
        },
    )
}

/// The deblocking filter fields, under `deblocking_filter_control_present_flag`.
pub open spec fn sh_deblock(h: SliceHeader, pps: PicParameterSet) -> Seq<EventView> {
    let d = pps.deblocking_filter_control_present_flag;
    let idc = h.disable_deblocking_filter_idc;
    if_block(
        "deblocking_filter_control_present_flag"@,
        seq![tv("deblocking_filter_control_present_flag"@, FieldValue::Bool(d))],
        d,
        if d {
            seq![ev_ue("disable_deblocking_filter_idc"@, idc as u64)] + if_block(
                "disable_deblocking_filter_idc != 1"@,
                seq![tv("disable_deblocking_filter_idc"@, u(idc as int))],
                idc != 1,
                (match h.slice_alpha_c0_offset_div2 {
                    Some(a) => seq![ev_se("slice_alpha_c0_offset_div2"@, a as i64)],
                    None => Seq::empty(),
                }) + (match h.slice_beta_offset_div2 {
                    Some(b) => seq![ev_se("slice_beta_offset_div2"@, b as i64)],
                    None => Seq::empty(),
                }),
            )
        } else {
            Seq::empty()
        },
    )
}

/// `PicSizeInMapUnits = PicWidthInMbs * PicHeightInMapUnits`.
pub open spec fn pic_size_in_map_units(sps: SeqParameterSet) -> nat {
    ((sps.pic_width_in_mbs_minus1 + 1) * (sps.pic_height_in_map_units_minus1 + 1)) as nat
}

/// The slice group change rate of the PPS, when its map type changes over time.
pub open spec fn change_rate_minus1(pps: PicParameterSet) -> Option<u32> {
    match pps.slice_groups {
        Some(SliceGroup::Changing { slice_group_change_rate_minus1, .. }) => Some(
            slice_group_change_rate_minus1,
        ),
        _ => None,
    }
}

/// `slice_group_change_cycle`, shown where the PPS has a changing slice
/// group map and the header has a cycle. Its width is
/// `Ceil(Log2(PicSizeInMapUnits ÷ SliceGroupChangeRate + 1))`.
pub open spec fn sh_change_cycle(
    h: SliceHeader,
    sps: SeqParameterSet,
    pps: PicParameterSet,
) -> Seq<EventView> {
    match (change_rate_minus1(pps), h.slice_group_change_cycle) {
        (Some(r), Some(c)) => seq![
            ev_fixed(
                "slice_group_change_cycle"@,
                change_cycle_bits(pic_size_in_map_units(sps), (r + 1) as nat) as u32,
                u(c as int),
            ),
        ],
        _ => Seq::empty(),
    }
}

/// The events of `slice_header()`.
pub open spec fn slice_header_events(
    h: SliceHeader,
    sps: SeqParameterSet,
    pps: PicParameterSet,
) -> Seq<EventView> {
    sh_head(h, pps) + sh_plane_and_frame_num(h, sps) + sh_field_block(h, sps) + sh_idr_block(h)
        + poc_fields_events(h, sps, pps) + sh_redundant_direct(h, pps) + sh_num_ref_idx(h)
        + sh_rplm_pwt(h, sps, pps) + sh_drpm(h) + sh_cabac_qp(h, pps) + sh_sp_si(h, pps)
        + sh_deblock(h, pps) + sh_change_cycle(h, sps, pps) + seq![ev_end()]
}

/// The plain fields of a slice header are shown with their own values:
/// `first_mb_in_slice`; `slice_type` as `0..=4` for P, B, I, SP, SI, plus 5 when
/// all slices of the picture share the type, with the family's name as the
/// comment; the PPS id; `frame_num` in `log2_max_frame_num_minus4 + 4` bits;
/// and `slice_qp_delta`. `IdrPicFlag` is taken exactly when the header holds
/// an `idr_pic_id`, and `cabac_init_idc`'s condition exactly for CABAC in a
/// slice other than I and SI.
pub proof fn lemma_slice_header_fields(h: SliceHeader, sps: SeqParameterSet, pps: PicParameterSet)
    ensures
        slice_header_events(h, sps, pps).contains(
            ev_ue("first_mb_in_slice"@, h.first_mb_in_slice as u64),
        ),
        slice_header_events(h, sps, pps).contains(
            EventView::VariableLengthField {
                name: "slice_type"@,
                descriptor: "ue(v)"@,
                value: FieldValue::Unsigned(
                    ((match h.slice_type.family {
                        SliceFamily::P => 0u64,
                        SliceFamily::B => 1u64,
                        SliceFamily::I => 2u64,
                        SliceFamily::SP => 3u64,
                        SliceFamily::SI => 4u64,
                    }) + (if h.slice_type.exclusive == SliceExclusive::Exclusive {
                        5u64
                    } else {
                        0u64
                    })) as u64,
                ),
                comment: Some(
                    match h.slice_type.family {
                        SliceFamily::P => "P"@,
                        SliceFamily::B => "B"@,
                        SliceFamily::I => "I"@,
                        SliceFamily::SP => "SP"@,
                        SliceFamily::SI => "SI"@,
                    },
                ),
            },
        ),
        slice_header_events(h, sps, pps).contains(
            ev_ue("pic_parameter_set_id"@, pps.pic_parameter_set_id as u64),
        ),
        slice_header_events(h, sps, pps).contains(
            ev_fixed(
                "frame_num"@,
                (sps.log2_max_frame_num_minus4 + 4) as u32,
                FieldValue::Unsigned(h.frame_num as u64),
            ),
        ),
        slice_header_events(h, sps, pps).contains(
            ev_se("slice_qp_delta"@, h.slice_qp_delta as i64),
        ),
        exists|i: int|
            0 <= i < slice_header_events(h, sps, pps).len() && (#[trigger] slice_header_events(
                h,
                sps,
                pps,
            )[i] matches EventView::BeginIf { condition, taken, .. } && condition == "IdrPicFlag"@
                && taken == (h.idr_pic_id is Some)),
        exists|i: int|
            0 <= i < slice_header_events(h, sps, pps).len() && (#[trigger] slice_header_events(
                h,
                sps,
                pps,
            )[i] matches EventView::BeginIf { condition, taken, .. } && condition
                == "entropy_coding_mode_flag && slice_type != I && slice_type != SI"@ && taken == (
            pps.entropy_coding_mode_flag && h.slice_type.family != SliceFamily::I
                && h.slice_type.family != SliceFamily::SI)),
{
    let hd = sh_head(h, pps);
    let pf = sh_plane_and_frame_num(h, sps);
    let fb = sh_field_block(h, sps);
    let idr = sh_idr_block(h);
    let mid = poc_fields_events(h, sps, pps) + sh_redundant_direct(h, pps) + sh_num_ref_idx(h)
        + sh_rplm_pwt(h, sps, pps) + sh_drpm(h);
    let cq = sh_cabac_qp(h, pps);
    let tail = sh_sp_si(h, pps) + sh_deblock(h, pps) + sh_change_cycle(h, sps, pps) + seq![
        ev_end(),
    ];
    let evs = slice_header_events(h, sps, pps);
    assert(evs =~= hd + pf + fb + idr + mid + cq + tail);
    assert(evs[1] == hd[1]);
    assert(evs[2] == hd[2]);
    assert(evs[3] == hd[3]);
    let a: int = 4 + pf.len() as int;
    assert(evs[a - 1] == pf[pf.len() - 1]);
    let b: int = a + fb.len() as int;
    assert(evs[b] == idr[0]);
    let c: int = b + idr.len() as int + mid.len() as int;
    assert(evs[c] == cq[0]);
    assert(evs[c + cq.len() - 1] == cq[cq.len() - 1]);
}

/// The condition before `pred_weight_table()` is taken exactly for explicit
/// weighted prediction: `weighted_pred_flag` in a P or SP slice, or
/// `weighted_bipred_idc == 1` in a B slice. Default (0) and implicit (2)
/// bi-prediction leave it not taken.
pub proof fn lemma_pred_weight_table_condition(
    h: SliceHeader,
    sps: SeqParameterSet,
    pps: PicParameterSet,
)
    ensures
        exists|i: int|
            0 <= i < slice_header_events(h, sps, pps).len() && (#[trigger] slice_header_events(
                h,
                sps,
                pps,
            )[i] matches EventView::BeginIf { condition, taken, .. } && condition
                == "(weighted_pred_flag && (slice_type == P || slice_type == SP)) || (weighted_bipred_idc == 1 && slice_type == B)"@
                && taken == ((pps.weighted_pred_flag && (h.slice_type.family == SliceFamily::P
                || h.slice_type.family == SliceFamily::SP)) || (pps.weighted_bipred_idc == 1
                && h.slice_type.family == SliceFamily::B))),
{
    let pre = sh_head(h, pps) + sh_plane_and_frame_num(h, sps) + sh_field_block(h, sps)
        + sh_idr_block(h) + poc_fields_events(h, sps, pps) + sh_redundant_direct(h, pps)
        + sh_num_ref_idx(h);
    let f = h.slice_type.family;
    let st = header_slice_type(h);
    let r = match h.ref_pic_list_modification {
        Some(r) => rplm_events(r, f, st),
        None => Seq::empty(),
    };
    let mid = sh_rplm_pwt(h, sps, pps);
    let rest = sh_drpm(h) + sh_cabac_qp(h, pps) + sh_sp_si(h, pps) + sh_deblock(h, pps)
        + sh_change_cycle(h, sps, pps) + seq![ev_end()];
    let evs = slice_header_events(h, sps, pps);
    assert(evs =~= pre + mid + rest);
    let k: int = pre.len() + r.len() as int;
    assert(mid[r.len() as int] matches EventView::BeginIf { .. });
    assert(evs[k] == mid[r.len() as int]);
}

/// In an SP or SI slice whose header holds `QSY`, the description shows
/// `slice_qs_delta` with the value from which 7.4.3 derives `QSY` again:
/// `26 + pic_init_qs_minus26 + slice_qs_delta == QSY`.
pub proof fn lemma_slice_qs_delta_gives_back_qs(
    h: SliceHeader,
    sps: SeqParameterSet,
    pps: PicParameterSet,
)
    requires
        h.slice_type.family == SliceFamily::SP || h.slice_type.family == SliceFamily::SI,
        h.slice_qs is Some,
    ensures
        exists|i: int, d: i64|
            #![trigger slice_header_events(h, sps, pps)[i], ev_se("slice_qs_delta"@, d)]
            0 <= i < slice_header_events(h, sps, pps).len()
                && slice_header_events(h, sps, pps)[i] == ev_se("slice_qs_delta"@, d)
                && 26 + pps.pic_init_qs_minus26 + d == h.slice_qs->0,
{
    let q = h.slice_qs->0;
    let d = slice_qs_delta(q, pps.pic_init_qs_minus26);
    let pre = sh_head(h, pps) + sh_plane_and_frame_num(h, sps) + sh_field_block(h, sps)
        + sh_idr_block(h) + poc_fields_events(h, sps, pps) + sh_redundant_direct(h, pps)
        + sh_num_ref_idx(h) + sh_rplm_pwt(h, sps, pps) + sh_drpm(h) + sh_cabac_qp(h, pps);
    let sp = sh_sp_si(h, pps);
    let st = header_slice_type(h);
    let inner = if_block(
        "slice_type == SP"@,
        slice_type_term(st),
        h.slice_type.family == SliceFamily::SP,
        match h.sp_for_switch_flag {
            Some(v) => seq![ev_flag("sp_for_switch_flag"@, v)],
            None => Seq::empty(),
        },
    );
    let body = inner + seq![ev_se("slice_qs_delta"@, d as i64)];
    assert(sp == seq![ev_if("slice_type == SP || slice_type == SI"@, slice_type_term(st), true)]
        + body + seq![ev_end_if()]);
    let k: int = 1 + inner.len() as int;
    assert(sp[k] == ev_se("slice_qs_delta"@, d as i64));
    let rest = sh_deblock(h, pps) + sh_change_cycle(h, sps, pps) + seq![ev_end()];
    let evs = slice_header_events(h, sps, pps);
    assert(evs =~= pre + sp + rest);
    assert(evs[pre.len() as int + k] == sp[k]);
    assert(26 + pps.pic_init_qs_minus26 + (d as i64) == q);
}

/// What describing the header needs: where the slice group change cycle is
/// shown, `PicSizeInMapUnits` and `slice_group_change_rate_minus1 + 1` fit in
/// `u32`, as they do for every parameter set that the parser accepts.
pub open spec fn slice_header_describable(
    h: SliceHeader,
    sps: SeqParameterSet,
    pps: PicParameterSet,
) -> bool {
    match (change_rate_minus1(pps), h.slice_group_change_cycle) {
        (Some(r), Some(_)) => pic_size_in_map_units(sps) <= u32::MAX && r < u32::MAX,
        _ => true,
    }
}

fn describe_sh_head(log: &mut SyntaxLog, h: &SliceHeader, pps: &PicParameterSet, st: u32)
    requires
        st == header_slice_type(*h),
    ensures
        final(log)@ == old(log)@ + sh_head(*h, *pps),
        nesting(final(log)@) == opened(nesting(old(log)@), Block::Element),
{
    log.begin_element("slice_header");
    log.ue("first_mb_in_slice", h.first_mb_in_slice as u64);
    log.variable_field(
        "slice_type",
        "ue(v)",
        FieldValue::Unsigned(st as u64),
        Some(String::from_str(slice_type_name(&h.slice_type.family))),
    );
    log.ue("pic_parameter_set_id", pps.pic_parameter_set_id as u64);
    assert(final(log)@ =~= old(log)@ + sh_head(*h, *pps));
}

fn describe_plane_and_frame_num(log: &mut SyntaxLog, h: &SliceHeader, sps: &SeqParameterSet)
    ensures
        final(log)@ == old(log)@ + sh_plane_and_frame_num(*h, *sps),
        nesting(final(log)@) == nesting(old(log)@),
{
    let sep = sps.chroma_info.separate_colour_plane_flag;
    log.begin_if1(
        "separate_colour_plane_flag == 1",
        Term::new("separate_colour_plane_flag", FieldValue::Bool(sep)),
        sep,
    );
    if let Some(cp) = &h.colour_plane {
        let id: u64 = match cp {
            ColourPlane::Y => 0,
            ColourPlane::Cb => 1,
            ColourPlane::Cr => 2,
        };
        log.fixed("colour_plane_id", 2, FieldValue::Unsigned(id));
    }
    log.end_if();
    let frame_num_bits = sps.log2_max_frame_num_minus4 as u32 + 4;
    log.fixed("frame_num", frame_num_bits, FieldValue::Unsigned(h.frame_num as u64));
    assert(final(log)@ =~= old(log)@ + sh_plane_and_frame_num(*h, *sps));
}

fn describe_field_block(log: &mut SyntaxLog, h: &SliceHeader, sps: &SeqParameterSet)
    ensures
        final(log)@ == old(log)@ + sh_field_block(*h, *sps),
        nesting(final(log)@) == nesting(old(log)@),
{
    let fields = match sps.frame_mbs_flags {
        FrameMbsFlags::Fields { .. } => true,
        FrameMbsFlags::Frames => false,
    };
    log.begin_if1(
        "!frame_mbs_only_flag",
        Term::new("frame_mbs_only_flag", FieldValue::Bool(!fields)),
        fields,
    );
    if fields {
        let field_pic = match h.field_pic {
            FieldPic::Field(_) => true,
            FieldPic::Frame => false,
        };
        log.flag("field_pic_flag", field_pic);
        log.begin_if("field_pic_flag", field_pic);
        if let FieldPic::Field(field) = &h.field_pic {
            let bottom = match field {
                Field::Bottom => true,
                Field::Top => false,
            };
            log.flag("bottom_field_flag", bottom);
        }
        log.end_if();
    }
    log.end_if();
    assert(final(log)@ =~= old(log)@ + sh_field_block(*h, *sps));
}

fn describe_idr_block(log: &mut SyntaxLog, h: &SliceHeader)
    ensures
        final(log)@ == old(log)@ + sh_idr_block(*h),
        nesting(final(log)@) == nesting(old(log)@),
{
    let is_idr = h.idr_pic_id.is_some();
    log.begin_if1("IdrPicFlag", Term::new("IdrPicFlag", FieldValue::Bool(is_idr)), is_idr);
    if let Some(id) = h.idr_pic_id {
        log.ue("idr_pic_id", id as u64);
    }
    log.end_if();
    assert(final(log)@ =~= old(log)@ + sh_idr_block(*h));
}

fn describe_bottom_field_if(log: &mut SyntaxLog, h: &SliceHeader, pps: &PicParameterSet)
    ensures
        final(log)@ == old(log)@.push(bottom_field_if(*h, *pps)),
        nesting(final(log)@) == opened(nesting(old(log)@), Block::Conditional),
{
    let field_pic = match h.field_pic {
        FieldPic::Field(_) => true,
        FieldPic::Frame => false,
    };
    log.begin_if2(
        "bottom_field_pic_order_in_frame_present_flag && !field_pic_flag",
        Term::new(
            "bottom_field_pic_order_in_frame_present_flag",
            FieldValue::Bool(pps.bottom_field_pic_order_in_frame_present_flag),
        ),
        Term::new("field_pic_flag", FieldValue::Bool(field_pic)),
        true,
    );
}

fn describe_poc_type0(
    log: &mut SyntaxLog,
    h: &SliceHeader,
    sps: &SeqParameterSet,
    pps: &PicParameterSet,
)
    ensures
        final(log)@ == old(log)@ + poc_type0_fields(*h, *sps, *pps),
        nesting(final(log)@) == nesting(old(log)@),
{
    if let PicOrderCntType::TypeZero { log2_max_pic_order_cnt_lsb_minus4 } = &sps.pic_order_cnt {
        let bits = *log2_max_pic_order_cnt_lsb_minus4 as u32 + 4;
        match &h.pic_order_cnt_lsb {
            Some(PicOrderCountLsb::Frame(v)) => {
                log.fixed("pic_order_cnt_lsb", bits, FieldValue::Unsigned(*v as u64));
            },
            Some(
                PicOrderCountLsb::FieldsAbsolute { pic_order_cnt_lsb, delta_pic_order_cnt_bottom },
            ) => {
                log.fixed("pic_order_cnt_lsb", bits, FieldValue::Unsigned(*pic_order_cnt_lsb as u64));
                describe_bottom_field_if(log, h, pps);
                log.se("delta_pic_order_cnt_bottom", *delta_pic_order_cnt_bottom as i64);
                log.end_if();
            },
            _ => {},
        }
    }
    assert(final(log)@ =~= old(log)@ + poc_type0_fields(*h, *sps, *pps));
    proof {
        lemma_closed_opened(nesting(old(log)@), Block::Conditional);
    }
}

fn describe_poc_type1(log: &mut SyntaxLog, h: &SliceHeader, pps: &PicParameterSet)
    ensures
        final(log)@ == old(log)@ + poc_type1_fields(*h, *pps),
        nesting(final(log)@) == nesting(old(log)@),
{
    if let Some(PicOrderCountLsb::FieldsDelta(deltas)) = &h.pic_order_cnt_lsb {
        log.se("delta_pic_order_cnt[0]", deltas[0] as i64);
        let is_frame = match h.field_pic {
            FieldPic::Frame => true,
            FieldPic::Field(_) => false,
        };
        if pps.bottom_field_pic_order_in_frame_present_flag && is_frame {
            describe_bottom_field_if(log, h, pps);
            log.se("delta_pic_order_cnt[1]", deltas[1] as i64);
            log.end_if();
        }
    }
    assert(final(log)@ =~= old(log)@ + poc_type1_fields(*h, *pps));
    proof {
        lemma_closed_opened(nesting(old(log)@), Block::Conditional);
    }
}

/// Describes the picture order count fields of a slice header.
pub fn describe_pic_order_cnt_fields(
    log: &mut SyntaxLog,
    h: &SliceHeader,
    sps: &SeqParameterSet,
    pps: &PicParameterSet,
)
    ensures
        final(log)@ == old(log)@ + poc_fields_events(*h, *sps, *pps),
        nesting(final(log)@) == nesting(old(log)@),
{
    let ghost base = log@;
    let t = pic_order_cnt_type(&sps.pic_order_cnt);
    log.begin_if1(
        "pic_order_cnt_type == 0",
        Term::new("pic_order_cnt_type", FieldValue::Unsigned(t as u64)),
        t == 0,
    );
    let ghost a = log@;
    describe_poc_type0(log, h, sps, pps);
    let ghost b = log@;
    let z = match &sps.pic_order_cnt {
        PicOrderCntType::TypeOne { delta_pic_order_always_zero_flag, .. } => *delta_pic_order_always_zero_flag,
        _ => false,
    };
    let t1 = t == 1 && !z;
    log.begin_else_if1(
        "pic_order_cnt_type == 1 && !delta_pic_order_always_zero_flag",
        Term::new("delta_pic_order_always_zero_flag", FieldValue::Bool(z)),
        t1,
    );
    let ghost c = log@;
    if t1 {
        describe_poc_type1(log, h, pps);
    }
    let ghost d = log@;
    log.end_if();
    proof {
        let e0 = seq![
            ev_if(
                "pic_order_cnt_type == 0"@,
                seq![tv("pic_order_cnt_type"@, u(t as int))],
                t == 0,
            ),
        ];
        let e1 = poc_type0_fields(*h, *sps, *pps);
        let e2 = seq![
            ev_else_if(
                "pic_order_cnt_type == 1 && !delta_pic_order_always_zero_flag"@,
                seq![tv("delta_pic_order_always_zero_flag"@, FieldValue::Bool(z))],
                t1,
            ),
        ];
        let e3 = if t1 {
            poc_type1_fields(*h, *pps)
        } else {
            Seq::empty()
        };
        assert(a =~= base + e0);
        assert(c =~= b.push(e2[0]));
        assert(d =~= c + e3);
        assert(log@ =~= base + e0 + e1 + e2 + e3 + seq![ev_end_if()]);
    }
}

fn describe_redundant_direct(log: &mut SyntaxLog, h: &SliceHeader, pps: &PicParameterSet, st: u32)
    requires
        st == header_slice_type(*h),
    ensures
        final(log)@ == old(log)@ + sh_redundant_direct(*h, *pps),
        nesting(final(log)@) == nesting(old(log)@),
{
    let r = pps.redundant_pic_cnt_present_flag;
    log.begin_if1(
        "redundant_pic_cnt_present_flag",
        Term::new("redundant_pic_cnt_present_flag", FieldValue::Bool(r)),
        r,
    );
    if let Some(v) = h.redundant_pic_cnt {
        log.ue("redundant_pic_cnt", v as u64);
    }
    log.end_if();
    let is_b = h.slice_type.family == SliceFamily::B;
    log.begin_if1("slice_type == B", Term::new("slice_type", FieldValue::Unsigned(st as u64)), is_b);
    if let Some(v) = h.direct_spatial_mv_pred_flag {
        log.flag("direct_spatial_mv_pred_flag", v);
    }
    log.end_if();
    assert(final(log)@ =~= old(log)@ + sh_redundant_direct(*h, *pps));
}

fn describe_num_ref_idx(log: &mut SyntaxLog, h: &SliceHeader, st: u32)
    requires
        st == header_slice_type(*h),
    ensures
        final(log)@ == old(log)@ + sh_num_ref_idx(*h),
        nesting(final(log)@) == nesting(old(log)@),
{
    let f = h.slice_type.family;
    let shown = f == SliceFamily::P || f == SliceFamily::SP || f == SliceFamily::B;
    log.begin_if1(
        "slice_type == P || slice_type == SP || slice_type == B",
        Term::new("slice_type", FieldValue::Unsigned(st as u64)),
        shown,
    );
    if shown {
        let ov = h.num_ref_idx_active.is_some();
        log.flag("num_ref_idx_active_override_flag", ov);
        log.begin_if("num_ref_idx_active_override_flag", ov);
        match &h.num_ref_idx_active {
            Some(NumRefIdxActive::P { num_ref_idx_l0_active_minus1 }) => {
                log.ue("num_ref_idx_l0_active_minus1", *num_ref_idx_l0_active_minus1 as u64);
            },
            Some(
                NumRefIdxActive::B { num_ref_idx_l0_active_minus1, num_ref_idx_l1_active_minus1 },
            ) => {
                log.ue("num_ref_idx_l0_active_minus1", *num_ref_idx_l0_active_minus1 as u64);
                log.ue("num_ref_idx_l1_active_minus1", *num_ref_idx_l1_active_minus1 as u64);
            },
            None => {},
        }
        log.end_if();
    }
    log.end_if();
    assert(final(log)@ =~= old(log)@ + sh_num_ref_idx(*h));
}

fn describe_rplm_pwt(
    log: &mut SyntaxLog,
    h: &SliceHeader,
    sps: &SeqParameterSet,
    pps: &PicParameterSet,
    st: u32,
)
    requires
        st == header_slice_type(*h),
    ensures
        final(log)@ == old(log)@ + sh_rplm_pwt(*h, *sps, *pps),
        nesting(final(log)@) == nesting(old(log)@),
{
    let ghost base = log@;
    let f = h.slice_type.family;
    if let Some(rplm) = &h.ref_pic_list_modification {
        describe_ref_pic_list_modification(log, rplm, &f, st);
    }
    let ghost a = log@;
    let need = (pps.weighted_pred_flag && (f == SliceFamily::P || f == SliceFamily::SP)) || (
    pps.weighted_bipred_idc == 1 && f == SliceFamily::B);
    log.begin_if3(
        "(weighted_pred_flag && (slice_type == P || slice_type == SP)) || (weighted_bipred_idc == 1 && slice_type == B)",
        Term::new("weighted_pred_flag", FieldValue::Bool(pps.weighted_pred_flag)),
        Term::new("weighted_bipred_idc", FieldValue::Unsigned(pps.weighted_bipred_idc as u64)),
        Term::new("slice_type", FieldValue::Unsigned(st as u64)),
        need,
    );
    let ghost b = log@;
    if let Some(pwt) = &h.pred_weight_table {
        describe_pred_weight_table(log, pwt, &f, sps, st);
    }
    let ghost c = log@;
    log.end_if();
    proof {
        let r = match &h.ref_pic_list_modification {
            Some(r) => rplm_events(*r, f, st),
            None => Seq::empty(),
        };
        let p = match &h.pred_weight_table {
            Some(p) => pwt_events(*p, f, *sps, st),
            None => Seq::empty(),
        };
        assert(a =~= base + r);
        assert(c =~= b + p);
        assert(log@ =~= base + sh_rplm_pwt(*h, *sps, *pps));
    }
}

fn describe_drpm_block(log: &mut SyntaxLog, h: &SliceHeader)
    ensures
        final(log)@ == old(log)@ + sh_drpm(*h),
        nesting(final(log)@) == nesting(old(log)@),
{
    let has = h.dec_ref_pic_marking.is_some();
    let shown: u64 = if has {
        1
    } else {
        0
    };
    log.begin_if1("nal_ref_idc != 0", Term::new("nal_ref_idc", FieldValue::Unsigned(shown)), has);
    let ghost a = log@;
    if let Some(drpm) = &h.dec_ref_pic_marking {
        describe_dec_ref_pic_marking(log, drpm);
    }
    let ghost b = log@;
    log.end_if();
    proof {
        let d = match &h.dec_ref_pic_marking {
            Some(d) => drpm_events(*d),
            None => Seq::empty(),
        };
        assert(b =~= a + d);
        assert(log@ =~= old(log)@ + sh_drpm(*h));
    }
}

fn describe_cabac_qp(log: &mut SyntaxLog, h: &SliceHeader, pps: &PicParameterSet, st: u32)
    requires
        st == header_slice_type(*h),
    ensures
        final(log)@ == old(log)@ + sh_cabac_qp(*h, *pps),
        nesting(final(log)@) == nesting(old(log)@),
{
    let f = h.slice_type.family;
    let e = pps.entropy_coding_mode_flag;
    let need = e && !(f == SliceFamily::I || f == SliceFamily::SI);
    log.begin_if2(
        "entropy_coding_mode_flag && slice_type != I && slice_type != SI",
        Term::new("entropy_coding_mode_flag", FieldValue::Bool(e)),
        Term::new("slice_type", FieldValue::Unsigned(st as u64)),
        need,
    );
    if let Some(v) = h.cabac_init_idc {
        log.ue("cabac_init_idc", v as u64);
    }
    log.end_if();
    log.se("slice_qp_delta", h.slice_qp_delta as i64);
    assert(final(log)@ =~= old(log)@ + sh_cabac_qp(*h, *pps));
}

fn describe_sp_si(log: &mut SyntaxLog, h: &SliceHeader, pps: &PicParameterSet, st: u32)
    requires
        st == header_slice_type(*h),
    ensures
        final(log)@ == old(log)@ + sh_sp_si(*h, *pps),
        nesting(final(log)@) == nesting(old(log)@),
{
    let f = h.slice_type.family;
    let shown = f == SliceFamily::SP || f == SliceFamily::SI;
    log.begin_if1(
        "slice_type == SP || slice_type == SI",
        Term::new("slice_type", FieldValue::Unsigned(st as u64)),
        shown,
    );
    if shown {
        let is_sp = f == SliceFamily::SP;
        log.begin_if1(
            "slice_type == SP",
            Term::new("slice_type", FieldValue::Unsigned(st as u64)),
            is_sp,
        );
        if let Some(v) = h.sp_for_switch_flag {
            log.flag("sp_for_switch_flag", v);
        }
        log.end_if();
        if let Some(qs_y) = h.slice_qs {
            let delta: i64 = qs_y as i64 - 26 - pps.pic_init_qs_minus26 as i64;
            log.se("slice_qs_delta", delta);
        }
    }
    log.end_if();
    assert(final(log)@ =~= old(log)@ + sh_sp_si(*h, *pps));
}

fn describe_deblock(log: &mut SyntaxLog, h: &SliceHeader, pps: &PicParameterSet)
    ensures
        final(log)@ == old(log)@ + sh_deblock(*h, *pps),
        nesting(final(log)@) == nesting(old(log)@),
{
    let d = pps.deblocking_filter_control_present_flag;
    log.begin_if1(
        "deblocking_filter_control_present_flag",
        Term::new("deblocking_filter_control_present_flag", FieldValue::Bool(d)),
        d,
    );
    if d {
        let idc = h.disable_deblocking_filter_idc;
        log.ue("disable_deblocking_filter_idc", idc as u64);
        log.begin_if1(
            "disable_deblocking_filter_idc != 1",
            Term::new("disable_deblocking_filter_idc", FieldValue::Unsigned(idc as u64)),
            idc != 1,
        );
        if let Some(alpha) = h.slice_alpha_c0_offset_div2 {
            log.se("slice_alpha_c0_offset_div2", alpha as i64);
        }
        if let Some(beta) = h.slice_beta_offset_div2 {
            log.se("slice_beta_offset_div2", beta as i64);
        }
        log.end_if();
    }
    log.end_if();
    assert(final(log)@ =~= old(log)@ + sh_deblock(*h, *pps));
}

fn describe_change_cycle(
    log: &mut SyntaxLog,
    h: &SliceHeader,
    sps: &SeqParameterSet,
    pps: &PicParameterSet,
)
    requires
        slice_header_describable(*h, *sps, *pps),
    ensures
        final(log)@ == old(log)@ + sh_change_cycle(*h, *sps, *pps),
        nesting(final(log)@) == nesting(old(log)@),
{
    if let Some(SliceGroup::Changing { slice_group_change_rate_minus1, .. }) = &pps.slice_groups {
        if let Some(cycle) = h.slice_group_change_cycle {
            let width = sps.pic_width_in_mbs_minus1 as u64 + 1;
            let height = sps.pic_height_in_map_units_minus1 as u64 + 1;
            assert(width * height == pic_size_in_map_units(*sps));
            let pic_size = width * height;
            let rate = *slice_group_change_rate_minus1 as u64 + 1;
            let bits = slice_group_change_cycle_bits(pic_size, rate);
            log.fixed("slice_group_change_cycle", bits, FieldValue::Unsigned(cycle as u64));
        }
    }
    assert(final(log)@ =~= old(log)@ + sh_change_cycle(*h, *sps, *pps));
}

/// Appends the events of `slice_header()` to the log.
pub fn describe_slice_header(
    log: &mut SyntaxLog,
    h: &SliceHeader,
    sps: &SeqParameterSet,
    pps: &PicParameterSet,
)
    requires
        slice_header_describable(*h, *sps, *pps),
    ensures
        final(log)@ == old(log)@ + slice_header_events(*h, *sps, *pps),
        nesting(final(log)@) == nesting(old(log)@),
{
    let ghost base = log@;
    let st = slice_type_to_u32(&h.slice_type.family, &h.slice_type.exclusive);
    describe_sh_head(log, h, pps, st);
    let ghost mut acc = sh_head(*h, *pps);
    describe_plane_and_frame_num(log, h, sps);
    proof {
        lemma_concat_associative(base, acc, sh_plane_and_frame_num(*h, *sps));
        acc = acc + sh_plane_and_frame_num(*h, *sps);
    }
    describe_field_block(log, h, sps);
    proof {
        lemma_concat_associative(base, acc, sh_field_block(*h, *sps));
        acc = acc + sh_field_block(*h, *sps);
    }
    describe_idr_block(log, h);
    proof {
        lemma_concat_associative(base, acc, sh_idr_block(*h));
        acc = acc + sh_idr_block(*h);
    }
    describe_pic_order_cnt_fields(log, h, sps, pps);
    proof {
        lemma_concat_associative(base, acc, poc_fields_events(*h, *sps, *pps));
        acc = acc + poc_fields_events(*h, *sps, *pps);
    }
    describe_redundant_direct(log, h, pps, st);
    proof {
        lemma_concat_associative(base, acc, sh_redundant_direct(*h, *pps));
        acc = acc + sh_redundant_direct(*h, *pps);
    }
    describe_num_ref_idx(log, h, st);
    proof {
        lemma_concat_associative(base, acc, sh_num_ref_idx(*h));
        acc = acc + sh_num_ref_idx(*h);
    }
    describe_rplm_pwt(log, h, sps, pps, st);
    proof {
        lemma_concat_associative(base, acc, sh_rplm_pwt(*h, *sps, *pps));
        acc = acc + sh_rplm_pwt(*h, *sps, *pps);
    }
    describe_drpm_block(log, h);
    proof {
        lemma_concat_associative(base, acc, sh_drpm(*h));
        acc = acc + sh_drpm(*h);
    }
    describe_cabac_qp(log, h, pps, st);
    proof {
        lemma_concat_associative(base, acc, sh_cabac_qp(*h, *pps));
        acc = acc + sh_cabac_qp(*h, *pps);
    }
    describe_sp_si(log, h, pps, st);
    proof {
        lemma_concat_associative(base, acc, sh_sp_si(*h, *pps));
        acc = acc + sh_sp_si(*h, *pps);
    }
    describe_deblock(log, h, pps);
    proof {
        lemma_concat_associative(base, acc, sh_deblock(*h, *pps));
        acc = acc + sh_deblock(*h, *pps);
    }
    describe_change_cycle(log, h, sps, pps);
    proof {
        lemma_concat_associative(base, acc, sh_change_cycle(*h, *sps, *pps));
        acc = acc + sh_change_cycle(*h, *sps, *pps);
    }
    log.end_element();
    proof {
        lemma_concat_associative(base, acc, seq![ev_end()]);
        acc = acc + seq![ev_end()];
    }
    assert(acc == slice_header_events(*h, *sps, *pps));
    proof {
        lemma_closed_opened(nesting(old(log)@), Block::Element);
    }
}

impl<'a> SliceHeaderDescribe<'a> {
    /// The events of `slice_header()` for this header, read with its SPS and PPS.
    pub fn describe(&self) -> (log: SyntaxLog)
        requires
            slice_header_describable(*self.header, *self.sps, *self.pps),
        ensures
            log@ == slice_header_events(*self.header, *self.sps, *self.pps),
            well_nested(log@),
    {
        let mut log = SyntaxLog::new();
        describe_slice_header(&mut log, self.header, self.sps, self.pps);
        assert(log@ =~= slice_header_events(*self.header, *self.sps, *self.pps));
        log
    }
}

} // verus!
