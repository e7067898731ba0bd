//! `vui_parameters()` (E.1.1) and `hrd_parameters()` (E.1.2).
use vstd::prelude::*;
use crate::syntax::{
    ev_begin, ev_end, ev_end_for, ev_end_if, ev_fixed, ev_flag, ev_for, ev_if, ev_iter, ev_ue,
    in_block, nesting, tv, Block, EventView, FieldValue, SyntaxLog, Term,
};
use crate::text::{idx1, indexed1};
use vstd::seq_lib::lemma_concat_associative;

verus! {

/// `aspect_ratio_idc`, with `sar_width` and `sar_height` when it is `Extended_SAR`.
pub struct AspectRatioInfo {
    pub aspect_ratio_idc: u8,
    pub extended: Option<(u16, u16)>,
}

/// `overscan_info_present_flag` and `overscan_appropriate_flag` together.
pub enum OverscanAppropriate {
    Unspecified,
    Appropriate,
    Inappropriate,
}

pub struct ColourDescription {
    pub colour_primaries: u8,
    pub transfer_characteristics: u8,
    pub matrix_coefficients: u8,
}

pub struct VideoSignalType {
    pub video_format: u8,
    pub video_full_range_flag: bool,
    pub colour_description: Option<ColourDescription>,
}

pub struct ChromaLocInfo {
    pub chroma_sample_loc_type_top_field: u32,
    pub chroma_sample_loc_type_bottom_field: u32,
}

pub struct TimingInfo {
    pub num_units_in_tick: u32,
    pub time_scale: u32,
    pub fixed_frame_rate_flag: bool,
}

pub struct CpbSpec {
    pub bit_rate_value_minus1: u32,
    pub cpb_size_value_minus1: u32,
    pub cbr_flag: bool,
}

pub struct HrdParameters {
    pub bit_rate_scale: u8,
    pub cpb_size_scale: u8,
    pub cpb_specs: Vec<CpbSpec>,
    pub initial_cpb_removal_delay_length_minus1: u8,
    pub cpb_removal_delay_length_minus1: u8,
    pub dpb_output_delay_length_minus1: u8,
    pub time_offset_length: u8,
}

pub struct BitstreamRestrictions {
    pub motion_vectors_over_pic_boundaries_flag: bool,
    pub max_bytes_per_pic_denom: u32,
    pub max_bits_per_mb_denom: u32,
    pub log2_max_mv_length_horizontal: u32,
    pub log2_max_mv_length_vertical: u32,
    pub max_num_reorder_frames: u32,
    pub max_dec_frame_buffering: u32,
}

pub struct VuiParameters {
    pub aspect_ratio_info: Option<AspectRatioInfo>,
    pub overscan_appropriate: OverscanAppropriate,
    pub video_signal_type: Option<VideoSignalType>,
    pub chroma_loc_info: Option<ChromaLocInfo>,
    pub timing_info: Option<TimingInfo>,
    pub nal_hrd_parameters: Option<HrdParameters>,
    pub vcl_hrd_parameters: Option<HrdParameters>,
    pub low_delay_hrd_flag: Option<bool>,
    pub pic_struct_present_flag: bool,
    pub bitstream_restrictions: Option<BitstreamRestrictions>,
}

/// `n - 1`, or 0 for an empty list: the `*_minus1` count of a list of `n` entries.
pub open spec fn count_minus1(n: nat) -> u32 {
    (if n == 0 {
        0
    } else {
        n - 1
    }) as u32
}

pub fn minus1(n: usize) -> (r: u32)
    ensures
        r == count_minus1(n as nat),
{
    (if n == 0 {
        0
    } else {
        n - 1
    }) as u32
}

pub open spec fn u(v: int) -> FieldValue {
    FieldValue::Unsigned(v as u64)
}

pub open spec fn only_if(c: bool, s: Seq<EventView>) -> Seq<EventView> {
    if c {
        s
    } else {
        Seq::empty()
    }
}

// ---- hrd_parameters() ----
pub open spec fn cpb_iter_events(c: CpbSpec, i: nat) -> Seq<EventView> {
    seq![
        ev_iter("SchedSelIdx"@, i),
        ev_ue(idx1("bit_rate_value_minus1"@, i), c.bit_rate_value_minus1 as u64),
        ev_ue(idx1("cpb_size_value_minus1"@, i), c.cpb_size_value_minus1 as u64),
        ev_flag(idx1("cbr_flag"@, i), c.cbr_flag),
    ]
}

pub open spec fn cpb_iters(cs: Seq<CpbSpec>, n: nat) -> Seq<EventView>
    decreases n,
{
    if n == 0 {
        Seq::empty()
    } else {
        cpb_iters(cs, (n - 1) as nat) + cpb_iter_events(cs[n - 1], (n - 1) as nat)
    }
}

/// The events of `hrd_parameters()`.
pub open spec fn hrd_events(h: HrdParameters) -> Seq<EventView> {
    let cnt = count_minus1(h.cpb_specs@.len());
    seq![
        ev_begin("hrd_parameters"@),
        ev_ue("cpb_cnt_minus1"@, cnt as u64),
        ev_fixed("bit_rate_scale"@, 4, u(h.bit_rate_scale as int)),
        ev_fixed("cpb_size_scale"@, 4, u(h.cpb_size_scale as int)),
        ev_for(
            "SchedSelIdx = 0; SchedSelIdx <= cpb_cnt_minus1; SchedSelIdx++"@,
            seq![tv("cpb_cnt_minus1"@, u(cnt as int))],
        ),
    ] + cpb_iters(h.cpb_specs@, h.cpb_specs@.len()) + seq![
        ev_end_for(),
        ev_fixed(
            "initial_cpb_removal_delay_length_minus1"@,
            5,
            u(h.initial_cpb_removal_delay_length_minus1 as int),
        ),
        ev_fixed("cpb_removal_delay_length_minus1"@, 5, u(h.cpb_removal_delay_length_minus1 as int)),
        ev_fixed("dpb_output_delay_length_minus1"@, 5, u(h.dpb_output_delay_length_minus1 as int)),
        ev_fixed("time_offset_length"@, 5, u(h.time_offset_length as int)),
        ev_end(),
    ]
}

pub fn describe_hrd(log: &mut SyntaxLog, hrd: &HrdParameters)
    ensures
        final(log)@ == old(log)@ + hrd_events(*hrd),
        nesting(final(log)@) == nesting(old(log)@),
{
    let cpb_cnt_minus1 = minus1(hrd.cpb_specs.len());
    log.begin_element("hrd_parameters");
    log.ue("cpb_cnt_minus1", cpb_cnt_minus1 as u64);
    log.fixed("bit_rate_scale", 4, FieldValue::Unsigned(hrd.bit_rate_scale as u64));
    log.fixed("cpb_size_scale", 4, FieldValue::Unsigned(hrd.cpb_size_scale as u64));
    log.begin_for1(
        "SchedSelIdx = 0; SchedSelIdx <= cpb_cnt_minus1; SchedSelIdx++",
        Term::new("cpb_cnt_minus1", FieldValue::Unsigned(cpb_cnt_minus1 as u64)),
    );
    let ghost start = log@;
    let mut i: usize = 0;
    while i < hrd.cpb_specs.len()
        invariant
            nesting(log@) == nesting(start),
            in_block(start, Block::Loop),
            i <= hrd.cpb_specs@.len(),
            log@ == start + cpb_iters(hrd.cpb_specs@, i as nat),
        decreases hrd.cpb_specs.len() - i,
    {
        let ghost before = log@;
        let cpb = &hrd.cpb_specs[i];
        log.for_iteration("SchedSelIdx", i as u64);
        log.ue_named(indexed1("bit_rate_value_minus1", i as u64), cpb.bit_rate_value_minus1 as u64);
        log.ue_named(indexed1("cpb_size_value_minus1", i as u64), cpb.cpb_size_value_minus1 as u64);
        log.flag_named(indexed1("cbr_flag", i as u64), cpb.cbr_flag);
        proof {
            assert(log@ =~= before + cpb_iter_events(hrd.cpb_specs@[i as int], i as nat));
            vstd::seq_lib::lemma_concat_associative(
                start,
                cpb_iters(hrd.cpb_specs@, i as nat),
                cpb_iter_events(hrd.cpb_specs@[i as int], i as nat),
            );
        }
        i = i + 1;
    }
    log.end_for();
    log.fixed(
        "initial_cpb_removal_delay_length_minus1",
        5,
        FieldValue::Unsigned(hrd.initial_cpb_removal_delay_length_minus1 as u64),
    );
    log.fixed(
        "cpb_removal_delay_length_minus1",
        5,
        FieldValue::Unsigned(hrd.cpb_removal_delay_length_minus1 as u64),
    );
    log.fixed(
        "dpb_output_delay_length_minus1",
        5,
        FieldValue::Unsigned(hrd.dpb_output_delay_length_minus1 as u64),
    );
    log.fixed("time_offset_length", 5, FieldValue::Unsigned(hrd.time_offset_length as u64));
    log.end_element();
    assert(final(log)@ =~= old(log)@ + hrd_events(*hrd));
}

// ---- timing information, shared with the MVC VUI extension ----
/// The fields of a present `timing_info`.
pub open spec fn timing_fields(t: TimingInfo) -> Seq<EventView> {
    seq![
        ev_fixed("num_units_in_tick"@, 32, u(t.num_units_in_tick as int)),
        ev_fixed("time_scale"@, 32, u(t.time_scale as int)),
        ev_flag("fixed_frame_rate_flag"@, t.fixed_frame_rate_flag),
    ]
}

/// `timing_info_present_flag` and the conditional block that follows it.
pub open spec fn timing_block(t: Option<TimingInfo>) -> Seq<EventView> {
    seq![
        ev_flag("timing_info_present_flag"@, t is Some),
        ev_if("timing_info_present_flag"@, seq![], t is Some),
    ] + (match t {
        Some(ti) => timing_fields(ti),
        None => Seq::empty(),
    }) + seq![ev_end_if()]
}

pub fn describe_timing_block(log: &mut SyntaxLog, t: &Option<TimingInfo>)
    ensures
        final(log)@ == old(log)@ + timing_block(*t),
        nesting(final(log)@) == nesting(old(log)@),
{
    let has_timing = t.is_some();
    log.flag("timing_info_present_flag", has_timing);
    log.begin_if("timing_info_present_flag", has_timing);
    if let Some(ti) = t {
        log.fixed("num_units_in_tick", 32, FieldValue::Unsigned(ti.num_units_in_tick as u64));
        log.fixed("time_scale", 32, FieldValue::Unsigned(ti.time_scale as u64));
        log.flag("fixed_frame_rate_flag", ti.fixed_frame_rate_flag);
    }
    log.end_if();
    assert(final(log)@ =~= old(log)@ + timing_block(*t));
}

/// A `*_hrd_parameters_present_flag` and the conditional `hrd_parameters()`.
pub open spec fn hrd_block(flag: Seq<char>, h: Option<HrdParameters>) -> Seq<EventView> {
    seq![ev_flag(flag, h is Some), ev_if(flag, seq![], h is Some)] + (match h {
        Some(hrd) => hrd_events(hrd),
        None => Seq::empty(),
    }) + seq![ev_end_if()]
}

pub fn describe_hrd_block(log: &mut SyntaxLog, flag: &str, h: &Option<HrdParameters>)
    ensures
        final(log)@ == old(log)@ + hrd_block(flag@, *h),
        nesting(final(log)@) == nesting(old(log)@),
{
    let present = h.is_some();
    log.flag(flag, present);
    log.begin_if(flag, present);
    if let Some(hrd) = h {
        describe_hrd(log, hrd);
    }
    log.end_if();
    assert(final(log)@ =~= old(log)@ + hrd_block(flag@, *h));
}

/// The `if (nal_hrd_parameters_present_flag || vcl_hrd_parameters_present_flag)`
/// block with the low-delay flag under the given name.
pub open spec fn low_delay_block(
    name: Seq<char>,
    has_nal: bool,
    has_vcl: bool,
    low_delay: Option<bool>,
) -> Seq<EventView> {
    seq![
        ev_if(
            "nal_hrd_parameters_present_flag || vcl_hrd_parameters_present_flag"@,
            seq![
                tv("nal_hrd_parameters_present_flag"@, FieldValue::Bool(has_nal)),
                tv("vcl_hrd_parameters_present_flag"@, FieldValue::Bool(has_vcl)),
            ],
            has_nal || has_vcl,
        ),
    ] + (match low_delay {
        Some(b) => seq![ev_flag(name, b)],
        None => Seq::empty(),
    }) + seq![ev_end_if()]
}

pub fn describe_low_delay_block(
    log: &mut SyntaxLog,
    name: &str,
    has_nal: bool,
    has_vcl: bool,
    low_delay: Option<bool>,
)
    ensures
        final(log)@ == old(log)@ + low_delay_block(name@, has_nal, has_vcl, low_delay),
        nesting(final(log)@) == nesting(old(log)@),
{
    log.begin_if2(
        "nal_hrd_parameters_present_flag || vcl_hrd_parameters_present_flag",
        Term::new("nal_hrd_parameters_present_flag", FieldValue::Bool(has_nal)),
        Term::new("vcl_hrd_parameters_present_flag", FieldValue::Bool(has_vcl)),
        has_nal || has_vcl,
    );
    if let Some(b) = low_delay {
        log.flag(name, b);
    }
    log.end_if();
    assert(final(log)@ =~= old(log)@ + low_delay_block(name@, has_nal, has_vcl, low_delay));
}

// ---- vui_parameters() ----
pub open spec fn aspect_block(a: Option<AspectRatioInfo>) -> Seq<EventView> {
    seq![
        ev_flag("aspect_ratio_info_present_flag"@, a is Some),
        ev_if("aspect_ratio_info_present_flag"@, seq![], a is Some),
    ] + (match a {
        Some(ari) => seq![
            ev_fixed("aspect_ratio_idc"@, 8, u(ari.aspect_ratio_idc as int)),
            ev_if(
                "aspect_ratio_idc == Extended_SAR"@,
                seq![tv("aspect_ratio_idc"@, u(ari.aspect_ratio_idc as int))],
                ari.extended is Some,
            ),
        ] + (match ari.extended {
            Some((w, h)) => seq![
                ev_fixed("sar_width"@, 16, u(w as int)),
                ev_fixed("sar_height"@, 16, u(h as int)),
            ],
            None => Seq::empty(),
        }) + seq![ev_end_if()],
        None => Seq::empty(),
    }) + seq![ev_end_if()]
}

fn describe_aspect_block(log: &mut SyntaxLog, a: &Option<AspectRatioInfo>)
    ensures
        final(log)@ == old(log)@ + aspect_block(*a),
        nesting(final(log)@) == nesting(old(log)@),
{
    let has_aspect = a.is_some();
    log.flag("aspect_ratio_info_present_flag", has_aspect);
    log.begin_if("aspect_ratio_info_present_flag", has_aspect);
    if let Some(ari) = a {
        let idc = ari.aspect_ratio_idc;
        log.fixed("aspect_ratio_idc", 8, FieldValue::Unsigned(idc as u64));
        let is_extended = ari.extended.is_some();
        log.begin_if1(
            "aspect_ratio_idc == Extended_SAR",
            Term::new("aspect_ratio_idc", FieldValue::Unsigned(idc as u64)),
            is_extended,
        );
        if let Some((sar_w, sar_h)) = ari.extended {
            log.fixed("sar_width", 16, FieldValue::Unsigned(sar_w as u64));
            log.fixed("sar_height", 16, FieldValue::Unsigned(sar_h as u64));
        }
        log.end_if();
    }
    log.end_if();
    assert(final(log)@ =~= old(log)@ + aspect_block(*a));
}

pub open spec fn overscan_block(o: OverscanAppropriate) -> Seq<EventView> {
    let present = !(o is Unspecified);
    seq![
        ev_flag("overscan_info_present_flag"@, present),
        ev_if("overscan_info_present_flag"@, seq![], present),
    ] + only_if(present, seq![ev_flag("overscan_appropriate_flag"@, o is Appropriate)]) + seq![
        ev_end_if(),
    ]
}

fn describe_overscan_block(log: &mut SyntaxLog, o: &OverscanAppropriate)
    ensures
        final(log)@ == old(log)@ + overscan_block(*o),
        nesting(final(log)@) == nesting(old(log)@),
{
    let has_overscan = match o {
        OverscanAppropriate::Unspecified => false,
        _ => true,
    };
    log.flag("overscan_info_present_flag", has_overscan);
    log.begin_if("overscan_info_present_flag", has_overscan);
    if has_overscan {
        let appropriate = match o {
            OverscanAppropriate::Appropriate => true,
            _ => false,
        };
        log.flag("overscan_appropriate_flag", appropriate);
    }
    log.end_if();
    assert(final(log)@ =~= old(log)@ + overscan_block(*o));
}

pub open spec fn video_signal_block(v: Option<VideoSignalType>) -> Seq<EventView> {
    seq![
        ev_flag("video_signal_type_present_flag"@, v is Some),
        ev_if("video_signal_type_present_flag"@, seq![], v is Some),
    ] + (match v {
        Some(vst) => seq![
            ev_fixed("video_format"@, 3, u(vst.video_format as int)),
            ev_flag("video_full_range_flag"@, vst.video_full_range_flag),
            ev_flag("colour_description_present_flag"@, vst.colour_description is Some),
            ev_if("colour_description_present_flag"@, seq![], vst.colour_description is Some),
        ] + (match vst.colour_description {
            Some(cd) => seq![
                ev_fixed("colour_primaries"@, 8, u(cd.colour_primaries as int)),
                ev_fixed("transfer_characteristics"@, 8, u(cd.transfer_characteristics as int)),
                ev_fixed("matrix_coefficients"@, 8, u(cd.matrix_coefficients as int)),
            ],
            None => Seq::empty(),
        }) + seq![ev_end_if()],
        None => Seq::empty(),
    }) + seq![ev_end_if()]
}

fn describe_video_signal_block(log: &mut SyntaxLog, v: &Option<VideoSignalType>)
    ensures
        final(log)@ == old(log)@ + video_signal_block(*v),
        nesting(final(log)@) == nesting(old(log)@),
{
    let has_vst = v.is_some();
    log.flag("video_signal_type_present_flag", has_vst);
    log.begin_if("video_signal_type_present_flag", has_vst);
    if let Some(vst) = v {
        log.fixed("video_format", 3, FieldValue::Unsigned(vst.video_format as u64));
        log.flag("video_full_range_flag", vst.video_full_range_flag);
        let has_colour = vst.colour_description.is_some();
        log.flag("colour_description_present_flag", has_colour);
        log.begin_if("colour_description_present_flag", has_colour);
        if let Some(cd) = &vst.colour_description {
            log.fixed("colour_primaries", 8, FieldValue::Unsigned(cd.colour_primaries as u64));
            log.fixed(
                "transfer_characteristics",
                8,
                FieldValue::Unsigned(cd.transfer_characteristics as u64),
            );
            log.fixed("matrix_coefficients", 8, FieldValue::Unsigned(cd.matrix_coefficients as u64));
        }
        log.end_if();
    }
    log.end_if();
    assert(final(log)@ =~= old(log)@ + video_signal_block(*v));
}

pub open spec fn chroma_loc_block(c: Option<ChromaLocInfo>) -> Seq<EventView> {
    seq![
        ev_flag("chroma_loc_info_present_flag"@, c is Some),
        ev_if("chroma_loc_info_present_flag"@, seq![], c is Some),
    ] + (match c {
        Some(cli) => seq![
            ev_ue("chroma_sample_loc_type_top_field"@, cli.chroma_sample_loc_type_top_field as u64),
            ev_ue(
                "chroma_sample_loc_type_bottom_field"@,
                cli.chroma_sample_loc_type_bottom_field as u64,
            ),
        ],
        None => Seq::empty(),
    }) + seq![ev_end_if()]
}

fn describe_chroma_loc_block(log: &mut SyntaxLog, c: &Option<ChromaLocInfo>)
    ensures
        final(log)@ == old(log)@ + chroma_loc_block(*c),
        nesting(final(log)@) == nesting(old(log)@),
{
    let has_chroma_loc = c.is_some();
    log.flag("chroma_loc_info_present_flag", has_chroma_loc);
    log.begin_if("chroma_loc_info_present_flag", has_chroma_loc);
    if let Some(cli) = c {
        log.ue("chroma_sample_loc_type_top_field", cli.chroma_sample_loc_type_top_field as u64);
        log.ue(
            "chroma_sample_loc_type_bottom_field",
            cli.chroma_sample_loc_type_bottom_field as u64,
        );
    }
    log.end_if();
    assert(final(log)@ =~= old(log)@ + chroma_loc_block(*c));
}

pub open spec fn restriction_block(b: Option<BitstreamRestrictions>) -> Seq<EventView> {
    seq![
        ev_flag("bitstream_restriction_flag"@, b is Some),
        ev_if("bitstream_restriction_flag"@, seq![], b is Some),
    ] + (match b {
        Some(br) => seq![
            ev_flag(
                "motion_vectors_over_pic_boundaries_flag"@,
                br.motion_vectors_over_pic_boundaries_flag,
            ),
            ev_ue("max_bytes_per_pic_denom"@, br.max_bytes_per_pic_denom as u64),
            ev_ue("max_bits_per_mb_denom"@, br.max_bits_per_mb_denom as u64),
            ev_ue("log2_max_mv_length_horizontal"@, br.log2_max_mv_length_horizontal as u64),
            ev_ue("log2_max_mv_length_vertical"@, br.log2_max_mv_length_vertical as u64),
            ev_ue("max_num_reorder_frames"@, br.max_num_reorder_frames as u64),
            ev_ue("max_dec_frame_buffering"@, br.max_dec_frame_buffering as u64),
        ],
        None => Seq::empty(),
    }) + seq![ev_end_if()]
}

fn describe_restriction_block(log: &mut SyntaxLog, b: &Option<BitstreamRestrictions>)
    ensures
        final(log)@ == old(log)@ + restriction_block(*b),
        nesting(final(log)@) == nesting(old(log)@),
{
    let has_bsr = b.is_some();
    log.flag("bitstream_restriction_flag", has_bsr);
    log.begin_if("bitstream_restriction_flag", has_bsr);
    if let Some(br) = b {
        log.flag(
            "motion_vectors_over_pic_boundaries_flag",
            br.motion_vectors_over_pic_boundaries_flag,
        );
        log.ue("max_bytes_per_pic_denom", br.max_bytes_per_pic_denom as u64);
        log.ue("max_bits_per_mb_denom", br.max_bits_per_mb_denom as u64);
        log.ue("log2_max_mv_length_horizontal", br.log2_max_mv_length_horizontal as u64);
        log.ue("log2_max_mv_length_vertical", br.log2_max_mv_length_vertical as u64);
        log.ue("max_num_reorder_frames", br.max_num_reorder_frames as u64);
        log.ue("max_dec_frame_buffering", br.max_dec_frame_buffering as u64);
    }
    log.end_if();
    assert(final(log)@ =~= old(log)@ + restriction_block(*b));
}

/// The events of `vui_parameters()`.
pub open spec fn vui_events(v: VuiParameters) -> Seq<EventView> {
    seq![ev_begin("vui_parameters"@)] + aspect_block(v.aspect_ratio_info) + overscan_block(
        v.overscan_appropriate,
    ) + video_signal_block(v.video_signal_type) + chroma_loc_block(v.chroma_loc_info)
        + timing_block(v.timing_info) + hrd_block(
        "nal_hrd_parameters_present_flag"@,
        v.nal_hrd_parameters,
    ) + hrd_block("vcl_hrd_parameters_present_flag"@, v.vcl_hrd_parameters) + low_delay_block(
        "low_delay_hrd_flag"@,
        v.nal_hrd_parameters is Some,
        v.vcl_hrd_parameters is Some,
        v.low_delay_hrd_flag,
    ) + seq![ev_flag("pic_struct_present_flag"@, v.pic_struct_present_flag)] + restriction_block(
        v.bitstream_restrictions,
    ) + seq![ev_end()]
}

pub fn describe_vui(log: &mut SyntaxLog, vui: &VuiParameters)
    ensures
        final(log)@ == old(log)@ + vui_events(*vui),
        nesting(final(log)@) == nesting(old(log)@),
{
    let ghost base = log@;
    log.begin_element("vui_parameters");
    let ghost mut acc = seq![ev_begin("vui_parameters"@)];
    assert(log@ =~= base + acc);
    describe_aspect_block(log, &vui.aspect_ratio_info);
    proof {
        lemma_concat_associative(base, acc, aspect_block(vui.aspect_ratio_info));
        acc = acc + aspect_block(vui.aspect_ratio_info);
    }
    describe_overscan_block(log, &vui.overscan_appropriate);
    proof {
        lemma_concat_associative(base, acc, overscan_block(vui.overscan_appropriate));
        acc = acc + overscan_block(vui.overscan_appropriate);
    }
    describe_video_signal_block(log, &vui.video_signal_type);
    proof {
        lemma_concat_associative(base, acc, video_signal_block(vui.video_signal_type));
        acc = acc + video_signal_block(vui.video_signal_type);
    }
    describe_chroma_loc_block(log, &vui.chroma_loc_info);
    proof {
        lemma_concat_associative(base, acc, chroma_loc_block(vui.chroma_loc_info));
        acc = acc + chroma_loc_block(vui.chroma_loc_info);
    }
    describe_timing_block(log, &vui.timing_info);
    proof {
        lemma_concat_associative(base, acc, timing_block(vui.timing_info));
        acc = acc + timing_block(vui.timing_info);
    }
    describe_hrd_block(log, "nal_hrd_parameters_present_flag", &vui.nal_hrd_parameters);
    proof {
        let blk = hrd_block("nal_hrd_parameters_present_flag"@, vui.nal_hrd_parameters);
        lemma_concat_associative(base, acc, blk);
        acc = acc + blk;
    }
    describe_hrd_block(log, "vcl_hrd_parameters_present_flag", &vui.vcl_hrd_parameters);
    proof {
        let blk = hrd_block("vcl_hrd_parameters_present_flag"@, vui.vcl_hrd_parameters);
        lemma_concat_associative(base, acc, blk);
        acc = acc + blk;
    }
    describe_low_delay_block(
        log,
        "low_delay_hrd_flag",
        vui.nal_hrd_parameters.is_some(),
        vui.vcl_hrd_parameters.is_some(),
        vui.low_delay_hrd_flag,
    );
    proof {
        let blk = low_delay_block(
            "low_delay_hrd_flag"@,
            vui.nal_hrd_parameters is Some,
            vui.vcl_hrd_parameters is Some,
            vui.low_delay_hrd_flag,
        );
        lemma_concat_associative(base, acc, blk);
        acc = acc + blk;
    }
    log.flag("pic_struct_present_flag", vui.pic_struct_present_flag);
    proof {
        let blk = seq![ev_flag("pic_struct_present_flag"@, vui.pic_struct_present_flag)];
        lemma_concat_associative(base, acc, blk);
        acc = acc + blk;
    }
    describe_restriction_block(log, &vui.bitstream_restrictions);
    proof {
        lemma_concat_associative(base, acc, restriction_block(vui.bitstream_restrictions));
        acc = acc + restriction_block(vui.bitstream_restrictions);
    }
    log.end_element();
    proof {
        lemma_concat_associative(base, acc, seq![ev_end()]);
        acc = acc + seq![ev_end()];
    }
    assert(acc == vui_events(*vui));
}

} // verus!
