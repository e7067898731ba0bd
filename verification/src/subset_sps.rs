//! `subset_seq_parameter_set_rbsp()` (7.3.2.1.3): the base SPS, then the SVC
//! (F.7.3.2.1.4) or MVC (G.7.3.2.1.4) extension and the MVC VUI extension
//! (G.14.1).
use vstd::prelude::*;
use crate::syntax::{
    closed, ev_begin, ev_comment, ev_end, ev_end_for, ev_fixed, ev_flag, ev_for, ev_iter, ev_se,
    ev_ue, if_block, in_block, lemma_closed_opened, lemma_contains_concat, nesting, opened, tv, well_nested, Block,
    EventView, FieldValue, SyntaxLog, Term,
};
use vstd::seq_lib::lemma_concat_associative;
use crate::sps::{describe_sps, sps_events, SeqParameterSet};
use crate::text::{around, enclose, idx1, idx2, idx3, indexed1, indexed2, indexed3, number_between};
use crate::vui::{
    count_minus1, describe_hrd_block, describe_low_delay_block, describe_timing_block, hrd_block,
    low_delay_block, minus1, only_if, timing_block, u, HrdParameters, TimingInfo,
};
use crate::SubsetSpsDescribe;

verus! {

pub struct SvcSpsExtension {
    pub inter_layer_deblocking_filter_control_present_flag: bool,
    pub extended_spatial_scalability_idc: u8,
    pub chroma_phase_x_plus1_flag: bool,
    pub chroma_phase_y_plus1: u8,
    pub seq_ref_layer_chroma_phase_x_plus1_flag: bool,
    pub seq_ref_layer_chroma_phase_y_plus1: u8,
    pub seq_scaled_ref_layer_left_offset: i32,
    pub seq_scaled_ref_layer_top_offset: i32,
    pub seq_scaled_ref_layer_right_offset: i32,
    pub seq_scaled_ref_layer_bottom_offset: i32,
    pub seq_tcoeff_level_prediction_flag: bool,
    pub adaptive_tcoeff_level_prediction_flag: bool,
    pub slice_header_restriction_flag: bool,
    pub svc_vui_parameters_present_flag: bool,
}

/// A view of the MVC extension, with its inter-view references.
pub struct MvcView {
    pub view_id: u16,
    pub anchor_refs_l0: Vec<u16>,
    pub anchor_refs_l1: Vec<u16>,
    pub non_anchor_refs_l0: Vec<u16>,
    pub non_anchor_refs_l1: Vec<u16>,
}

pub struct MvcApplicableOp {
    pub temporal_id: u8,
    pub num_target_views_minus1: u16,
    pub target_view_ids: Vec<u16>,
    pub num_views_minus1: u16,
}

pub struct MvcLevelValue {
    pub level_idc: u8,
    pub applicable_ops: Vec<MvcApplicableOp>,
}

pub struct MvcSpsExtension {
    pub views: Vec<MvcView>,
    pub level_values: Vec<MvcLevelValue>,
}

/// An operation point of the MVC VUI extension.
pub struct MvcVuiOp {
    pub temporal_id: u8,
    pub target_output_view_ids: Vec<u16>,
    pub timing_info: Option<TimingInfo>,
    pub nal_hrd_parameters: Option<HrdParameters>,
    pub vcl_hrd_parameters: Option<HrdParameters>,
    pub low_delay_hrd_flag: Option<bool>,
    pub pic_struct_present_flag: bool,
}

pub struct MvcVuiParametersExtension {
    pub ops: Vec<MvcVuiOp>,
}

/// The profile-dependent extension of a subset SPS. The MVCD extension is
/// not parsed.
pub enum SubsetSpsExtension {
    Svc(SvcSpsExtension),
    Mvc { ext: MvcSpsExtension, mvc_vui_parameters: Option<MvcVuiParametersExtension> },
    Mvcd,
}

pub struct SubsetSps {
    pub sps: SeqParameterSet,
    pub extension: Option<SubsetSpsExtension>,
    pub additional_extension2_flag: bool,
}

// ---- seq_parameter_set_svc_extension() ----
/// `ChromaArrayType` of the base SPS, as a byte: 0 when the colour planes are
/// coded separately, else `chroma_format_idc` (taken modulo 256).
pub open spec fn svc_chroma_array_type(sps: SeqParameterSet) -> u8 {
    if sps.chroma_info.separate_colour_plane_flag {
        0
    } else {
        sps.chroma_info.chroma_format_idc as u8
    }
}

pub open spec fn cat_term(cat: u8) -> Seq<crate::syntax::TermView> {
    seq![tv("ChromaArrayType"@, u(cat as int))]
}

/// The chroma phase fields, each under its `ChromaArrayType` condition.
pub open spec fn chroma_phase_events(
    cat: u8,
    x_name: Seq<char>,
    x: bool,
    y_name: Seq<char>,
    y: u8,
) -> Seq<EventView> {
    let c12 = cat == 1 || cat == 2;
    let c1 = cat == 1;
    if_block(
        "ChromaArrayType == 1 || ChromaArrayType == 2"@,
        cat_term(cat),
        c12,
        only_if(c12, seq![ev_flag(x_name, x)]),
    ) + if_block(
        "ChromaArrayType == 1"@,
        cat_term(cat),
        c1,
        only_if(c1, seq![ev_fixed(y_name, 2, u(y as int))]),
    )
}

/// The fields under `extended_spatial_scalability_idc == 1`.
pub open spec fn svc_ess_fields(svc: SvcSpsExtension, cat: u8) -> Seq<EventView> {
    chroma_phase_events(
        cat,
        "seq_ref_layer_chroma_phase_x_plus1_flag"@,
        svc.seq_ref_layer_chroma_phase_x_plus1_flag,
        "seq_ref_layer_chroma_phase_y_plus1"@,
        svc.seq_ref_layer_chroma_phase_y_plus1,
    ) + seq![
        ev_se("seq_scaled_ref_layer_left_offset"@, svc.seq_scaled_ref_layer_left_offset as i64),
        ev_se("seq_scaled_ref_layer_top_offset"@, svc.seq_scaled_ref_layer_top_offset as i64),
        ev_se("seq_scaled_ref_layer_right_offset"@, svc.seq_scaled_ref_layer_right_offset as i64),
        ev_se("seq_scaled_ref_layer_bottom_offset"@, svc.seq_scaled_ref_layer_bottom_offset as i64),
    ]
}

/// The SVC extension up to the chroma phase fields.
pub open spec fn svc_head(svc: SvcSpsExtension, cat: u8) -> Seq<EventView> {
    seq![
        ev_begin("seq_parameter_set_svc_extension"@),
        ev_flag(
            "inter_layer_deblocking_filter_control_present_flag"@,
            svc.inter_layer_deblocking_filter_control_present_flag,
        ),
        ev_fixed("extended_spatial_scalability_idc"@, 2, u(svc.extended_spatial_scalability_idc as int)),
    ] + chroma_phase_events(
        cat,
        "chroma_phase_x_plus1_flag"@,
        svc.chroma_phase_x_plus1_flag,
        "chroma_phase_y_plus1"@,
        svc.chroma_phase_y_plus1,
    )
}

/// The block under `extended_spatial_scalability_idc == 1`.
pub open spec fn svc_ess_block(svc: SvcSpsExtension, cat: u8) -> Seq<EventView> {
    let ess = svc.extended_spatial_scalability_idc;
    if_block(
        "extended_spatial_scalability_idc == 1"@,
        seq![tv("extended_spatial_scalability_idc"@, u(ess as int))],
        ess == 1,
        only_if(ess == 1, svc_ess_fields(svc, cat)),
    )
}

/// The SVC extension from `seq_tcoeff_level_prediction_flag` to its end.
pub open spec fn svc_tail(svc: SvcSpsExtension) -> Seq<EventView> {
    let t = svc.seq_tcoeff_level_prediction_flag;
    seq![ev_flag("seq_tcoeff_level_prediction_flag"@, t)] + if_block(
        "seq_tcoeff_level_prediction_flag"@,
        seq![tv("seq_tcoeff_level_prediction_flag"@, FieldValue::Bool(t))],
        t,
        only_if(t, seq![ev_flag("adaptive_tcoeff_level_prediction_flag"@, svc.adaptive_tcoeff_level_prediction_flag)]),
    ) + seq![
        ev_flag("slice_header_restriction_flag"@, svc.slice_header_restriction_flag),
        ev_end(),
    ]
}

/// The events of `seq_parameter_set_svc_extension()`.
pub open spec fn svc_events(svc: SvcSpsExtension, sps: SeqParameterSet) -> Seq<EventView> {
    let cat = svc_chroma_array_type(sps);
    svc_head(svc, cat) + svc_ess_block(svc, cat) + svc_tail(svc)
}

fn describe_chroma_phase(
    log: &mut SyntaxLog,
    cat: u8,
    x_name: &str,
    x: bool,
    y_name: &str,
    y: u8,
)
    ensures
        final(log)@ == old(log)@ + chroma_phase_events(cat, x_name@, x, y_name@, y),
        nesting(final(log)@) == nesting(old(log)@),
{
    let c12 = cat == 1 || cat == 2;
    let c1 = cat == 1;
    log.begin_if1(
        "ChromaArrayType == 1 || ChromaArrayType == 2",
        Term::new("ChromaArrayType", FieldValue::Unsigned(cat as u64)),
        c12,
    );
    if c12 {
        log.flag(x_name, x);
    }
    log.end_if();
    log.begin_if1(
        "ChromaArrayType == 1",
        Term::new("ChromaArrayType", FieldValue::Unsigned(cat as u64)),
        c1,
    );
    if c1 {
        log.fixed(y_name, 2, FieldValue::Unsigned(y as u64));
    }
    log.end_if();
    assert(final(log)@ =~= old(log)@ + chroma_phase_events(cat, x_name@, x, y_name@, y));
}

fn describe_svc_ess_fields(log: &mut SyntaxLog, svc: &SvcSpsExtension, cat: u8)
    ensures
        final(log)@ == old(log)@ + svc_ess_fields(*svc, cat),
        nesting(final(log)@) == nesting(old(log)@),
{
    describe_chroma_phase(
        log,
        cat,
        "seq_ref_layer_chroma_phase_x_plus1_flag",
        svc.seq_ref_layer_chroma_phase_x_plus1_flag,
        "seq_ref_layer_chroma_phase_y_plus1",
        svc.seq_ref_layer_chroma_phase_y_plus1,
    );
    log.se("seq_scaled_ref_layer_left_offset", svc.seq_scaled_ref_layer_left_offset as i64);
    log.se("seq_scaled_ref_layer_top_offset", svc.seq_scaled_ref_layer_top_offset as i64);
    log.se("seq_scaled_ref_layer_right_offset", svc.seq_scaled_ref_layer_right_offset as i64);
    log.se("seq_scaled_ref_layer_bottom_offset", svc.seq_scaled_ref_layer_bottom_offset as i64);
    assert(final(log)@ =~= old(log)@ + svc_ess_fields(*svc, cat));
}

fn describe_svc_head(log: &mut SyntaxLog, svc: &SvcSpsExtension, cat: u8)
    ensures
        final(log)@ == old(log)@ + svc_head(*svc, cat),
        nesting(final(log)@) == opened(nesting(old(log)@), Block::Element),
{
    let ghost base = log@;
    log.begin_element("seq_parameter_set_svc_extension");
    log.flag(
        "inter_layer_deblocking_filter_control_present_flag",
        svc.inter_layer_deblocking_filter_control_present_flag,
    );
    log.fixed(
        "extended_spatial_scalability_idc",
        2,
        FieldValue::Unsigned(svc.extended_spatial_scalability_idc as u64),
    );
    let ghost a = log@;
    describe_chroma_phase(
        log,
        cat,
        "chroma_phase_x_plus1_flag",
        svc.chroma_phase_x_plus1_flag,
        "chroma_phase_y_plus1",
        svc.chroma_phase_y_plus1,
    );
    assert(log@ =~= base + svc_head(*svc, cat));
}

fn describe_svc_ess_block(log: &mut SyntaxLog, svc: &SvcSpsExtension, cat: u8)
    ensures
        final(log)@ == old(log)@ + svc_ess_block(*svc, cat),
        nesting(final(log)@) == nesting(old(log)@),
{
    let ghost base = log@;
    let ess = svc.extended_spatial_scalability_idc;
    log.begin_if1(
        "extended_spatial_scalability_idc == 1",
        Term::new("extended_spatial_scalability_idc", FieldValue::Unsigned(ess as u64)),
        ess == 1,
    );
    let ghost a = log@;
    if ess == 1 {
        describe_svc_ess_fields(log, svc, cat);
    }
    let ghost b = log@;
    log.end_if();
    assert(b =~= a + only_if(ess == 1, svc_ess_fields(*svc, cat)));
    assert(log@ =~= base + svc_ess_block(*svc, cat));
}

fn describe_svc_tail(log: &mut SyntaxLog, svc: &SvcSpsExtension)
    ensures
        final(log)@ == old(log)@ + svc_tail(*svc),
        nesting(final(log)@) == closed(nesting(old(log)@), Block::Element),
{
    let t = svc.seq_tcoeff_level_prediction_flag;
    log.flag("seq_tcoeff_level_prediction_flag", t);
    log.begin_if1(
        "seq_tcoeff_level_prediction_flag",
        Term::new("seq_tcoeff_level_prediction_flag", FieldValue::Bool(t)),
        t,
    );
    if t {
        log.flag(
            "adaptive_tcoeff_level_prediction_flag",
            svc.adaptive_tcoeff_level_prediction_flag,
        );
    }
    log.end_if();
    log.flag("slice_header_restriction_flag", svc.slice_header_restriction_flag);
    log.end_element();
    assert(final(log)@ =~= old(log)@ + svc_tail(*svc));
}

/// Appends the events of `seq_parameter_set_svc_extension()`; the base SPS
/// gives `ChromaArrayType`.
pub fn describe_svc_extension(log: &mut SyntaxLog, svc: &SvcSpsExtension, sps: &SeqParameterSet)
    ensures
        final(log)@ == old(log)@ + svc_events(*svc, *sps),
        nesting(final(log)@) == nesting(old(log)@),
{
    let ghost base = log@;
    let cat: u8 = if sps.chroma_info.separate_colour_plane_flag {
        0
    } else {
        sps.chroma_info.chroma_format_idc as u8
    };
    describe_svc_head(log, svc, cat);
    describe_svc_ess_block(log, svc, cat);
    describe_svc_tail(log, svc);
    proof {
        lemma_concat_associative(base, svc_head(*svc, cat), svc_ess_block(*svc, cat));
        lemma_concat_associative(
            base,
            svc_head(*svc, cat) + svc_ess_block(*svc, cat),
            svc_tail(*svc),
        );
    }
    proof {
        lemma_closed_opened(nesting(old(log)@), Block::Element);
    }
}

// ---- seq_parameter_set_mvc_extension() ----
/// `view_id[i]` for the first `n` views.
pub open spec fn view_id_iters(vs: Seq<MvcView>, n: nat) -> Seq<EventView>
    decreases n,
{
    if n == 0 {
        Seq::empty()
    } else {
        view_id_iters(vs, (n - 1) as nat) + seq![
            ev_iter("i"@, (n - 1) as nat),
            ev_ue(idx1("view_id"@, (n - 1) as nat), vs[n - 1].view_id as u64),
        ]
    }
}

/// The references of a view: anchor or non-anchor, list 0 or list 1.
pub open spec fn view_refs(v: MvcView, anchor: bool, l1: bool) -> Seq<u16> {
    if anchor {
        if l1 {
            v.anchor_refs_l1@
        } else {
            v.anchor_refs_l0@
        }
    } else {
        if l1 {
            v.non_anchor_refs_l1@
        } else {
            v.non_anchor_refs_l0@
        }
    }
}

/// The name of a reference count: `num_anchor_refs_l0` and its kin.
pub open spec fn ref_count_name(anchor: bool, l1: bool) -> Seq<char> {
    if anchor {
        if l1 {
            "num_anchor_refs_l1"@
        } else {
            "num_anchor_refs_l0"@
        }
    } else {
        if l1 {
            "num_non_anchor_refs_l1"@
        } else {
            "num_non_anchor_refs_l0"@
        }
    }
}

/// The name of a reference: `anchor_ref_l0` and its kin.
pub open spec fn ref_item_name(anchor: bool, l1: bool) -> Seq<char> {
    if anchor {
        if l1 {
            "anchor_ref_l1"@
        } else {
            "anchor_ref_l0"@
        }
    } else {
        if l1 {
            "non_anchor_ref_l1"@
        } else {
            "non_anchor_ref_l0"@
        }
    }
}

fn ref_count_name_str(anchor: bool, l1: bool) -> (s: &'static str)
    ensures
        s@ == ref_count_name(anchor, l1),
{
    if anchor {
        if l1 {
            "num_anchor_refs_l1"
        } else {
            "num_anchor_refs_l0"
        }
    } else {
        if l1 {
            "num_non_anchor_refs_l1"
        } else {
            "num_non_anchor_refs_l0"
        }
    }
}

fn ref_item_name_str(anchor: bool, l1: bool) -> (s: &'static str)
    ensures
        s@ == ref_item_name(anchor, l1),
{
    if anchor {
        if l1 {
            "anchor_ref_l1"
        } else {
            "anchor_ref_l0"
        }
    } else {
        if l1 {
            "non_anchor_ref_l1"
        } else {
            "non_anchor_ref_l0"
        }
    }
}

/// The first `n` references of view `i`, as iterations of `j`.
pub open spec fn ref_iters(item: Seq<char>, i: nat, refs: Seq<u16>, n: nat) -> Seq<EventView>
    decreases n,
{
    if n == 0 {
        Seq::empty()
    } else {
        ref_iters(item, i, refs, (n - 1) as nat) + seq![
            ev_iter("j"@, (n - 1) as nat),
            ev_ue(idx2(item, i, (n - 1) as nat), refs[n - 1] as u64),
        ]
    }
}

/// The count of one reference list of view `i`, and its loop where the list
/// is not empty.
pub open spec fn ref_list_events(anchor: bool, l1: bool, i: nat, refs: Seq<u16>) -> Seq<EventView> {
    let count = ref_count_name(anchor, l1);
    seq![ev_ue(idx1(count, i), refs.len() as u64)] + (if refs.len() > 0 {
        seq![
            ev_for(
                "j = 0; j < "@ + idx1(count, i) + "; j++"@,
                seq![tv(idx1(count, i), u(refs.len() as int))],
            ),
        ] + ref_iters(ref_item_name(anchor, l1), i, refs, refs.len()) + seq![ev_end_for()]
    } else {
        Seq::empty()
    })
}

/// Iteration `i` of an anchor or non-anchor reference loop.
pub open spec fn ref_view_iter(v: MvcView, anchor: bool, i: nat) -> Seq<EventView> {
    seq![ev_iter("i"@, i)] + ref_list_events(anchor, false, i, view_refs(v, anchor, false))
        + ref_list_events(anchor, true, i, view_refs(v, anchor, true))
}

/// Iterations 1 to `n - 1` of an anchor or non-anchor reference loop.
pub open spec fn ref_view_iters(vs: Seq<MvcView>, anchor: bool, n: nat) -> Seq<EventView>
    decreases n,
{
    if n <= 1 {
        Seq::empty()
    } else {
        ref_view_iters(vs, anchor, (n - 1) as nat) + ref_view_iter(vs[n - 1], anchor, (n - 1) as nat)
    }
}

/// An anchor or non-anchor reference loop over the views from 1 on.
pub open spec fn ref_loop_events(vs: Seq<MvcView>, anchor: bool) -> Seq<EventView> {
    seq![
        ev_for(
            "i = 1; i <= num_views_minus1; i++"@,
            seq![tv("num_views_minus1"@, u(count_minus1(vs.len()) as int))],
        ),
    ] + ref_view_iters(vs, anchor, vs.len()) + seq![ev_end_for()]
}

proof fn lemma_ref_iters_show(item: Seq<char>, i: nat, refs: Seq<u16>, n: nat, j: int)
    requires
        0 <= j < n <= refs.len(),
    ensures
        ref_iters(item, i, refs, n).contains(ev_ue(idx2(item, i, j as nat), refs[j] as u64)),
    decreases n,
{
    let x = ev_ue(idx2(item, i, j as nat), refs[j] as u64);
    let last = seq![
        ev_iter("j"@, (n - 1) as nat),
        ev_ue(idx2(item, i, (n - 1) as nat), refs[n - 1] as u64),
    ];
    if j < n - 1 {
        lemma_ref_iters_show(item, i, refs, (n - 1) as nat, j);
    } else {
        assert(last[1] == x);
    }
    lemma_contains_concat(ref_iters(item, i, refs, (n - 1) as nat), last, x);
}

/// The count and the references of one list of view `i`, as its reference
/// loop iteration shows them.
proof fn lemma_ref_list_show(v: MvcView, anchor: bool, l1: bool, i: nat, j: int)
    ensures
        ref_view_iter(v, anchor, i).contains(
            ev_ue(idx1(ref_count_name(anchor, l1), i), view_refs(v, anchor, l1).len() as u64),
        ),
        0 <= j < view_refs(v, anchor, l1).len() ==> ref_view_iter(v, anchor, i).contains(
            ev_ue(idx2(ref_item_name(anchor, l1), i, j as nat), view_refs(v, anchor, l1)[j] as u64),
        ),
{
    let refs = view_refs(v, anchor, l1);
    let list = ref_list_events(anchor, l1, i, refs);
    let count = ev_ue(idx1(ref_count_name(anchor, l1), i), refs.len() as u64);
    assert(list[0] == count);
    assert(list.contains(count));
    if 0 <= j < refs.len() {
        let item = ev_ue(idx2(ref_item_name(anchor, l1), i, j as nat), refs[j] as u64);
        let iters = ref_iters(ref_item_name(anchor, l1), i, refs, refs.len());
        lemma_ref_iters_show(ref_item_name(anchor, l1), i, refs, refs.len(), j);
        let open_for = seq![
            ev_ue(idx1(ref_count_name(anchor, l1), i), refs.len() as u64),
            ev_for(
                "j = 0; j < "@ + idx1(ref_count_name(anchor, l1), i) + "; j++"@,
                seq![tv(idx1(ref_count_name(anchor, l1), i), u(refs.len() as int))],
            ),
        ];
        lemma_contains_concat(open_for, iters, item);
        lemma_contains_concat(open_for + iters, seq![ev_end_for()], item);
        assert(list =~= open_for + iters + seq![ev_end_for()]);
    }
    let first = seq![ev_iter("i"@, i)];
    let l0 = ref_list_events(anchor, false, i, view_refs(v, anchor, false));
    let l1s = ref_list_events(anchor, true, i, view_refs(v, anchor, true));
    assert(ref_view_iter(v, anchor, i) =~= first + l0 + l1s);
    if 0 <= j < refs.len() {
        let item = ev_ue(
            idx2(ref_item_name(anchor, l1), i, j as nat),
            view_refs(v, anchor, l1)[j] as u64,
        );
        lemma_contains_concat(first, l0, item);
        lemma_contains_concat(first + l0, l1s, item);
    }
    lemma_contains_concat(first, l0, count);
    lemma_contains_concat(first + l0, l1s, count);
}

proof fn lemma_ref_view_iters_show(vs: Seq<MvcView>, anchor: bool, n: nat, i: int, x: EventView)
    requires
        1 <= i < n <= vs.len(),
        ref_view_iter(vs[i], anchor, i as nat).contains(x),
    ensures
        ref_view_iters(vs, anchor, n).contains(x),
    decreases n,
{
    if i < n - 1 {
        lemma_ref_view_iters_show(vs, anchor, (n - 1) as nat, i, x);
    }
    lemma_contains_concat(
        ref_view_iters(vs, anchor, (n - 1) as nat),
        ref_view_iter(vs[n - 1], anchor, (n - 1) as nat),
        x,
    );
}

/// One list of view `i` as the MVC extension shows it.
proof fn lemma_mvc_shows_list(ext: MvcSpsExtension, anchor: bool, l1: bool, i: int, j: int)
    requires
        1 <= i < ext.views@.len(),
    ensures
        mvc_events(ext).contains(
            ev_ue(
                idx1(ref_count_name(anchor, l1), i as nat),
                view_refs(ext.views@[i], anchor, l1).len() as u64,
            ),
        ),
        0 <= j < view_refs(ext.views@[i], anchor, l1).len() ==> mvc_events(ext).contains(
            ev_ue(
                idx2(ref_item_name(anchor, l1), i as nat, j as nat),
                view_refs(ext.views@[i], anchor, l1)[j] as u64,
            ),
        ),
{
    let vs = ext.views@;
    let v = vs[i];
    let count = ev_ue(idx1(ref_count_name(anchor, l1), i as nat), view_refs(v, anchor, l1).len() as u64);
    let views_part = mvc_views_events(vs);
    let la = ref_loop_events(vs, true);
    let ln = ref_loop_events(vs, false);
    let lv = mvc_levels_events(ext.level_values@);
    let open_loop = seq![
        ev_for(
            "i = 1; i <= num_views_minus1; i++"@,
            seq![tv("num_views_minus1"@, u(count_minus1(vs.len()) as int))],
        ),
    ];
    lemma_ref_list_show(v, anchor, l1, i as nat, j);
    let mut xs: Seq<EventView> = seq![count];
    if 0 <= j < view_refs(v, anchor, l1).len() {
        xs = xs.push(
            ev_ue(
                idx2(ref_item_name(anchor, l1), i as nat, j as nat),
                view_refs(v, anchor, l1)[j] as u64,
            ),
        );
    }
    assert forall|k: int| 0 <= k < xs.len() implies mvc_events(ext).contains(#[trigger] xs[k]) by {
        let x = xs[k];
        lemma_ref_view_iters_show(vs, anchor, vs.len(), i, x);
        let loop_events = ref_loop_events(vs, anchor);
        assert(loop_events =~= open_loop + ref_view_iters(vs, anchor, vs.len()) + seq![ev_end_for()]);
        lemma_contains_concat(open_loop, ref_view_iters(vs, anchor, vs.len()), x);
        lemma_contains_concat(open_loop + ref_view_iters(vs, anchor, vs.len()), seq![ev_end_for()], x);
        lemma_contains_concat(views_part, la, x);
        lemma_contains_concat(views_part + la, ln, x);
        lemma_contains_concat(views_part + la + ln, lv, x);
        lemma_contains_concat(views_part + la + ln + lv, seq![ev_end()], x);
    }
    assert(xs[0] == count);
    if 0 <= j < view_refs(v, anchor, l1).len() {
        assert(xs[1] == ev_ue(
            idx2(ref_item_name(anchor, l1), i as nat, j as nat),
            view_refs(v, anchor, l1)[j] as u64,
        ));
    }
}

proof fn lemma_view_id_iters_show(vs: Seq<MvcView>, n: nat, i: int)
    requires
        0 <= i < n <= vs.len(),
    ensures
        view_id_iters(vs, n).contains(ev_ue(idx1("view_id"@, i as nat), vs[i].view_id as u64)),
    decreases n,
{
    let x = ev_ue(idx1("view_id"@, i as nat), vs[i].view_id as u64);
    let last = seq![
        ev_iter("i"@, (n - 1) as nat),
        ev_ue(idx1("view_id"@, (n - 1) as nat), vs[n - 1].view_id as u64),
    ];
    if i < n - 1 {
        lemma_view_id_iters_show(vs, (n - 1) as nat, i);
    } else {
        assert(last[1] == x);
    }
    lemma_contains_concat(view_id_iters(vs, (n - 1) as nat), last, x);
}

/// The MVC extension shows `view_id[i]` with the id of view `i`, for every view.
pub proof fn lemma_mvc_view_ids_shown(ext: MvcSpsExtension, i: int)
    requires
        0 <= i < ext.views@.len(),
    ensures
        mvc_events(ext).contains(
            ev_ue(idx1("view_id"@, i as nat), ext.views@[i].view_id as u64),
        ),
{
    let vs = ext.views@;
    let x = ev_ue(idx1("view_id"@, i as nat), vs[i].view_id as u64);
    let m1 = count_minus1(vs.len());
    let open_part = seq![
        ev_begin("seq_parameter_set_mvc_extension"@),
        ev_ue("num_views_minus1"@, m1 as u64),
        ev_for("i = 0; i <= num_views_minus1; i++"@, seq![tv("num_views_minus1"@, u(m1 as int))]),
    ];
    lemma_view_id_iters_show(vs, vs.len(), i);
    lemma_contains_concat(open_part, view_id_iters(vs, vs.len()), x);
    lemma_contains_concat(open_part + view_id_iters(vs, vs.len()), seq![ev_end_for()], x);
    let views_part = mvc_views_events(vs);
    assert(views_part =~= open_part + view_id_iters(vs, vs.len()) + seq![ev_end_for()]);
    let rest = ref_loop_events(vs, true) + ref_loop_events(vs, false) + mvc_levels_events(
        ext.level_values@,
    ) + seq![ev_end()];
    assert(mvc_events(ext) =~= views_part + rest);
    lemma_contains_concat(views_part, rest, x);
}

/// The MVC extension shows, for every view `i` from 1 on, each of its four
/// reference lists with that list's own length and entries: the anchor counts
/// and references come from the anchor lists, the non-anchor ones from the
/// non-anchor lists.
pub proof fn lemma_mvc_reference_lists_shown(ext: MvcSpsExtension, i: int, j: int)
    requires
        1 <= i < ext.views@.len(),
    ensures
        mvc_events(ext).contains(
            ev_ue(idx1("num_anchor_refs_l0"@, i as nat), ext.views@[i].anchor_refs_l0@.len() as u64),
        ),
        mvc_events(ext).contains(
            ev_ue(idx1("num_anchor_refs_l1"@, i as nat), ext.views@[i].anchor_refs_l1@.len() as u64),
        ),
        mvc_events(ext).contains(
            ev_ue(
                idx1("num_non_anchor_refs_l0"@, i as nat),
                ext.views@[i].non_anchor_refs_l0@.len() as u64,
            ),
        ),
        mvc_events(ext).contains(
            ev_ue(
                idx1("num_non_anchor_refs_l1"@, i as nat),
                ext.views@[i].non_anchor_refs_l1@.len() as u64,
            ),
        ),
        0 <= j < ext.views@[i].anchor_refs_l0@.len() ==> mvc_events(ext).contains(
            ev_ue(idx2("anchor_ref_l0"@, i as nat, j as nat), ext.views@[i].anchor_refs_l0@[j] as u64),
        ),
        0 <= j < ext.views@[i].anchor_refs_l1@.len() ==> mvc_events(ext).contains(
            ev_ue(idx2("anchor_ref_l1"@, i as nat, j as nat), ext.views@[i].anchor_refs_l1@[j] as u64),
        ),
        0 <= j < ext.views@[i].non_anchor_refs_l0@.len() ==> mvc_events(ext).contains(
            ev_ue(
                idx2("non_anchor_ref_l0"@, i as nat, j as nat),
                ext.views@[i].non_anchor_refs_l0@[j] as u64,
            ),
        ),
        0 <= j < ext.views@[i].non_anchor_refs_l1@.len() ==> mvc_events(ext).contains(
            ev_ue(
                idx2("non_anchor_ref_l1"@, i as nat, j as nat),
                ext.views@[i].non_anchor_refs_l1@[j] as u64,
            ),
        ),
{
    lemma_mvc_shows_list(ext, true, false, i, j);
    lemma_mvc_shows_list(ext, true, true, i, j);
    lemma_mvc_shows_list(ext, false, false, i, j);
    lemma_mvc_shows_list(ext, false, true, i, j);
}

/// `applicable_op_target_view_id[i][j][k]` for the first `n` target views.
pub open spec fn target_view_iters(i: nat, j: nat, ids: Seq<u16>, n: nat) -> Seq<EventView>
    decreases n,
{
    if n == 0 {
        Seq::empty()
    } else {
        target_view_iters(i, j, ids, (n - 1) as nat) + seq![
            ev_iter("k"@, (n - 1) as nat),
            ev_ue(idx3("applicable_op_target_view_id"@, i, j, (n - 1) as nat), ids[n - 1] as u64),
        ]
    }
}

/// Iteration `j` of the applicable operation points of level value `i`.
pub open spec fn op_iter(op: MvcApplicableOp, i: nat, j: nat) -> Seq<EventView> {
    let tvm1 = idx2("applicable_op_num_target_views_minus1"@, i, j);
    seq![
        ev_iter("j"@, j),
        ev_fixed(idx2("applicable_op_temporal_id"@, i, j), 3, u(op.temporal_id as int)),
        ev_ue(tvm1, op.num_target_views_minus1 as u64),
        ev_for(
            "k = 0; k <= "@ + tvm1 + "; k++"@,
            seq![tv(tvm1, u(op.num_target_views_minus1 as int))],
        ),
    ] + target_view_iters(i, j, op.target_view_ids@, op.target_view_ids@.len()) + seq![
        ev_end_for(),
        ev_ue(idx2("applicable_op_num_views_minus1"@, i, j), op.num_views_minus1 as u64),
    ]
}

pub open spec fn op_iters(i: nat, ops: Seq<MvcApplicableOp>, n: nat) -> Seq<EventView>
    decreases n,
{
    if n == 0 {
        Seq::empty()
    } else {
        op_iters(i, ops, (n - 1) as nat) + op_iter(ops[n - 1], i, (n - 1) as nat)
    }
}

/// Iteration `i` of the level value loop.
pub open spec fn level_iter(lv: MvcLevelValue, i: nat) -> Seq<EventView> {
    let n = lv.applicable_ops@.len();
    let m1 = idx1("num_applicable_ops_minus1"@, i);
    seq![
        ev_iter("i"@, i),
        ev_fixed(idx1("level_idc"@, i), 8, u(lv.level_idc as int)),
        ev_ue(m1, count_minus1(n) as u64),
        ev_for("j = 0; j <= "@ + m1 + "; j++"@, seq![tv(m1, u(count_minus1(n) as int))]),
    ] + op_iters(i, lv.applicable_ops@, n) + seq![ev_end_for()]
}

pub open spec fn level_iters(lvs: Seq<MvcLevelValue>, n: nat) -> Seq<EventView>
    decreases n,
{
    if n == 0 {
        Seq::empty()
    } else {
        level_iters(lvs, (n - 1) as nat) + level_iter(lvs[n - 1], (n - 1) as nat)
    }
}

/// The views part: `num_views_minus1` and the `view_id` loop.
pub open spec fn mvc_views_events(vs: Seq<MvcView>) -> Seq<EventView> {
    let m1 = count_minus1(vs.len());
    seq![
        ev_begin("seq_parameter_set_mvc_extension"@),
        ev_ue("num_views_minus1"@, m1 as u64),
        ev_for("i = 0; i <= num_views_minus1; i++"@, seq![tv("num_views_minus1"@, u(m1 as int))]),
    ] + view_id_iters(vs, vs.len()) + seq![ev_end_for()]
}

/// The level values part.
pub open spec fn mvc_levels_events(lvs: Seq<MvcLevelValue>) -> Seq<EventView> {
    let m1 = count_minus1(lvs.len());
    seq![
        ev_ue("num_level_values_signalled_minus1"@, m1 as u64),
        ev_for(
            "i = 0; i <= num_level_values_signalled_minus1; i++"@,
            seq![tv("num_level_values_signalled_minus1"@, u(m1 as int))],
        ),
    ] + level_iters(lvs, lvs.len()) + seq![ev_end_for()]
}

/// The events of `seq_parameter_set_mvc_extension()`.
pub open spec fn mvc_events(ext: MvcSpsExtension) -> Seq<EventView> {
    mvc_views_events(ext.views@) + ref_loop_events(ext.views@, true) + ref_loop_events(
        ext.views@,
        false,
    ) + mvc_levels_events(ext.level_values@) + seq![ev_end()]
}

fn describe_view_ids(log: &mut SyntaxLog, views: &Vec<MvcView>)
    ensures
        final(log)@ == old(log)@ + mvc_views_events(views@),
        nesting(final(log)@) == opened(nesting(old(log)@), Block::Element),
{
    let ghost base = log@;
    let m1 = minus1(views.len());
    log.begin_element("seq_parameter_set_mvc_extension");
    log.ue("num_views_minus1", m1 as u64);
    log.begin_for1(
        "i = 0; i <= num_views_minus1; i++",
        Term::new("num_views_minus1", FieldValue::Unsigned(m1 as u64)),
    );
    let ghost start = log@;
    let mut i: usize = 0;
    while i < views.len()
        invariant
            nesting(log@) == nesting(start),
            in_block(start, Block::Loop),
            i <= views@.len(),
            log@ == start + view_id_iters(views@, i as nat),
        decreases views.len() - i,
    {
        log.for_iteration("i", i as u64);
        log.ue_named(indexed1("view_id", i as u64), views[i].view_id as u64);
        assert(log@ =~= start + view_id_iters(views@, (i + 1) as nat));
        i = i + 1;
    }
    log.end_for();
    assert(log@ =~= base + mvc_views_events(views@));
}

fn describe_ref_list(log: &mut SyntaxLog, anchor: bool, l1: bool, i: u64, refs: &Vec<u16>)
    ensures
        final(log)@ == old(log)@ + ref_list_events(anchor, l1, i as nat, refs@),
        nesting(final(log)@) == nesting(old(log)@),
{
    let ghost base = log@;
    let count = ref_count_name_str(anchor, l1);
    log.ue_named(indexed1(count, i), refs.len() as u64);
    let ghost a = log@;
    if refs.len() > 0 {
        log.begin_for1_named(
            enclose("j = 0; j < ", indexed1(count, i), "; j++"),
            Term::named(indexed1(count, i), FieldValue::Unsigned(refs.len() as u64)),
        );
        let ghost start = log@;
        let item = ref_item_name_str(anchor, l1);
        let mut j: usize = 0;
        while j < refs.len()
            invariant
                nesting(log@) == nesting(start),
                in_block(start, Block::Loop),
                j <= refs@.len(),
                item@ == ref_item_name(anchor, l1),
                log@ == start + ref_iters(item@, i as nat, refs@, j as nat),
            decreases refs.len() - j,
        {
            log.for_iteration("j", j as u64);
            log.ue_named(indexed2(item, i, j as u64), refs[j] as u64);
            assert(log@ =~= start + ref_iters(item@, i as nat, refs@, (j + 1) as nat));
            j = j + 1;
        }
        log.end_for();
    }
    assert(log@ =~= base + ref_list_events(anchor, l1, i as nat, refs@));
}

fn describe_ref_view(log: &mut SyntaxLog, v: &MvcView, anchor: bool, i: u64)
    requires
        in_block(old(log)@, Block::Loop),
    ensures
        final(log)@ == old(log)@ + ref_view_iter(*v, anchor, i as nat),
        nesting(final(log)@) == nesting(old(log)@),
{
    let ghost base = log@;
    log.for_iteration("i", i as u64);
    let ghost a = log@;
    let (refs_l0, refs_l1) = if anchor {
        (&v.anchor_refs_l0, &v.anchor_refs_l1)
    } else {
        (&v.non_anchor_refs_l0, &v.non_anchor_refs_l1)
    };
    describe_ref_list(log, anchor, false, i, refs_l0);
    let ghost b = log@;
    describe_ref_list(log, anchor, true, i, refs_l1);
    proof {
        let e0 = ref_list_events(anchor, false, i as nat, view_refs(*v, anchor, false));
        let e1 = ref_list_events(anchor, true, i as nat, view_refs(*v, anchor, true));
        assert(b =~= a + e0);
        assert(log@ =~= base + ref_view_iter(*v, anchor, i as nat));
    }
}

fn describe_ref_loop(log: &mut SyntaxLog, views: &Vec<MvcView>, anchor: bool)
    ensures
        final(log)@ == old(log)@ + ref_loop_events(views@, anchor),
        nesting(final(log)@) == nesting(old(log)@),
{
    let ghost base = log@;
    let m1 = minus1(views.len());
    log.begin_for1(
        "i = 1; i <= num_views_minus1; i++",
        Term::new("num_views_minus1", FieldValue::Unsigned(m1 as u64)),
    );
    let ghost start = log@;
    let mut i: usize = 1;
    while i < views.len()
        invariant
            nesting(log@) == nesting(start),
            in_block(start, Block::Loop),
            1 <= i,
            i <= views@.len() || i == 1,
            log@ == start + ref_view_iters(views@, anchor, i as nat),
        decreases views.len() - i,
    {
        describe_ref_view(log, &views[i], anchor, i as u64);
        proof {
            lemma_concat_associative(
                start,
                ref_view_iters(views@, anchor, i as nat),
                ref_view_iter(views@[i as int], anchor, i as nat),
            );
        }
        i = i + 1;
    }
    assert(ref_view_iters(views@, anchor, i as nat) == ref_view_iters(
        views@,
        anchor,
        views@.len(),
    ));
    log.end_for();
    assert(log@ =~= base + ref_loop_events(views@, anchor));
}

fn describe_applicable_op(log: &mut SyntaxLog, op: &MvcApplicableOp, i: u64, j: u64)
    requires
        in_block(old(log)@, Block::Loop),
    ensures
        final(log)@ == old(log)@ + op_iter(*op, i as nat, j as nat),
        nesting(final(log)@) == nesting(old(log)@),
{
    let ghost base = log@;
    log.for_iteration("j", j);
    log.fixed_named(
        indexed2("applicable_op_temporal_id", i, j),
        3,
        FieldValue::Unsigned(op.temporal_id as u64),
    );
    log.ue_named(
        indexed2("applicable_op_num_target_views_minus1", i, j),
        op.num_target_views_minus1 as u64,
    );
    log.begin_for1_named(
        enclose("k = 0; k <= ", indexed2("applicable_op_num_target_views_minus1", i, j), "; k++"),
        Term::named(
            indexed2("applicable_op_num_target_views_minus1", i, j),
            FieldValue::Unsigned(op.num_target_views_minus1 as u64),
        ),
    );
    let ghost start = log@;
    let ids = &op.target_view_ids;
    let mut k: usize = 0;
    while k < ids.len()
        invariant
            nesting(log@) == nesting(start),
            in_block(start, Block::Loop),
            k <= ids@.len(),
            log@ == start + target_view_iters(i as nat, j as nat, ids@, k as nat),
        decreases ids.len() - k,
    {
        log.for_iteration("k", k as u64);
        log.ue_named(indexed3("applicable_op_target_view_id", i, j, k as u64), ids[k] as u64);
        assert(log@ =~= start + target_view_iters(i as nat, j as nat, ids@, (k + 1) as nat));
        k = k + 1;
    }
    log.end_for();
    log.ue_named(indexed2("applicable_op_num_views_minus1", i, j), op.num_views_minus1 as u64);
    assert(log@ =~= base + op_iter(*op, i as nat, j as nat));
}

fn describe_level_value(log: &mut SyntaxLog, lv: &MvcLevelValue, i: u64)
    requires
        in_block(old(log)@, Block::Loop),
    ensures
        final(log)@ == old(log)@ + level_iter(*lv, i as nat),
        nesting(final(log)@) == nesting(old(log)@),
{
    let ghost base = log@;
    let ops = &lv.applicable_ops;
    let m1 = minus1(ops.len());
    log.for_iteration("i", i);
    log.fixed_named(indexed1("level_idc", i), 8, FieldValue::Unsigned(lv.level_idc as u64));
    log.ue_named(indexed1("num_applicable_ops_minus1", i), m1 as u64);
    log.begin_for1_named(
        enclose("j = 0; j <= ", indexed1("num_applicable_ops_minus1", i), "; j++"),
        Term::named(indexed1("num_applicable_ops_minus1", i), FieldValue::Unsigned(m1 as u64)),
    );
    let ghost start = log@;
    let mut j: usize = 0;
    while j < ops.len()
        invariant
            nesting(log@) == nesting(start),
            in_block(start, Block::Loop),
            j <= ops@.len(),
            log@ == start + op_iters(i as nat, ops@, j as nat),
        decreases ops.len() - j,
    {
        describe_applicable_op(log, &ops[j], i, j as u64);
        proof {
            lemma_concat_associative(
                start,
                op_iters(i as nat, ops@, j as nat),
                op_iter(ops@[j as int], i as nat, j as nat),
            );
        }
        j = j + 1;
    }
    log.end_for();
    assert(log@ =~= base + level_iter(*lv, i as nat));
}

fn describe_level_values(log: &mut SyntaxLog, lvs: &Vec<MvcLevelValue>)
    ensures
        final(log)@ == old(log)@ + mvc_levels_events(lvs@),
        nesting(final(log)@) == nesting(old(log)@),
{
    let ghost base = log@;
    let m1 = minus1(lvs.len());
    log.ue("num_level_values_signalled_minus1", m1 as u64);
    log.begin_for1(
        "i = 0; i <= num_level_values_signalled_minus1; i++",
        Term::new("num_level_values_signalled_minus1", FieldValue::Unsigned(m1 as u64)),
    );
    let ghost start = log@;
    let mut i: usize = 0;
    while i < lvs.len()
        invariant
            nesting(log@) == nesting(start),
            in_block(start, Block::Loop),
            i <= lvs@.len(),
            log@ == start + level_iters(lvs@, i as nat),
        decreases lvs.len() - i,
    {
        describe_level_value(log, &lvs[i], i as u64);
        proof {
            lemma_concat_associative(
                start,
                level_iters(lvs@, i as nat),
                level_iter(lvs@[i as int], i as nat),
            );
        }
        i = i + 1;
    }
    log.end_for();
    assert(log@ =~= base + mvc_levels_events(lvs@));
}

/// Appends the events of `seq_parameter_set_mvc_extension()`.
pub fn describe_mvc_extension(log: &mut SyntaxLog, ext: &MvcSpsExtension)
    ensures
        final(log)@ == old(log)@ + mvc_events(*ext),
        nesting(final(log)@) == nesting(old(log)@),
{
    let ghost base = log@;
    describe_view_ids(log, &ext.views);
    let ghost a = log@;
    describe_ref_loop(log, &ext.views, true);
    let ghost b = log@;
    describe_ref_loop(log, &ext.views, false);
    let ghost c = log@;
    describe_level_values(log, &ext.level_values);
    let ghost d = log@;
    log.end_element();
    proof {
        let e0 = mvc_views_events(ext.views@);
        let e1 = ref_loop_events(ext.views@, true);
        let e2 = ref_loop_events(ext.views@, false);
        let e3 = mvc_levels_events(ext.level_values@);
        lemma_concat_associative(base, e0, e1);
        lemma_concat_associative(base, e0 + e1, e2);
        lemma_concat_associative(base, e0 + e1 + e2, e3);
        assert(log@ =~= base + mvc_events(*ext));
    }
    proof {
        lemma_closed_opened(nesting(old(log)@), Block::Element);
    }
}

// ---- mvc_vui_parameters_extension() ----
/// `vui_mvc_view_id[i][j]` for the first `n` target output views.
pub open spec fn output_view_iters(i: nat, ids: Seq<u16>, n: nat) -> Seq<EventView>
    decreases n,
{
    if n == 0 {
        Seq::empty()
    } else {
        output_view_iters(i, ids, (n - 1) as nat) + seq![
            ev_iter("j"@, (n - 1) as nat),
            ev_ue(idx2("vui_mvc_view_id"@, i, (n - 1) as nat), ids[n - 1] as u64),
        ]
    }
}

/// The temporal id and the target output views of operation point `i`.
pub open spec fn vui_op_views(op: MvcVuiOp, i: nat) -> Seq<EventView> {
    let ids = op.target_output_view_ids@;
    let m1 = idx1("vui_mvc_num_target_output_views_minus1"@, i);
    seq![
        ev_iter("i"@, i),
        ev_fixed(idx1("vui_mvc_temporal_id"@, i), 3, u(op.temporal_id as int)),
        ev_ue(m1, count_minus1(ids.len()) as u64),
        ev_for("j = 0; j <= "@ + m1 + "; j++"@, seq![tv(m1, u(count_minus1(ids.len()) as int))]),
    ] + output_view_iters(i, ids, ids.len()) + seq![ev_end_for()]
}

/// The timing and HRD part of an operation point.
pub open spec fn vui_op_timing(op: MvcVuiOp) -> Seq<EventView> {
    timing_block(op.timing_info) + hrd_block(
        "nal_hrd_parameters_present_flag"@,
        op.nal_hrd_parameters,
    ) + hrd_block("vcl_hrd_parameters_present_flag"@, op.vcl_hrd_parameters) + low_delay_block(
        "vui_mvc_low_delay_hrd_flag"@,
        op.nal_hrd_parameters is Some,
        op.vcl_hrd_parameters is Some,
        op.low_delay_hrd_flag,
    ) + seq![ev_flag("vui_mvc_pic_struct_present_flag"@, op.pic_struct_present_flag)]
}

/// Iteration `i` of the operation point loop.
pub open spec fn vui_op_iter(op: MvcVuiOp, i: nat) -> Seq<EventView> {
    vui_op_views(op, i) + vui_op_timing(op)
}

pub open spec fn vui_op_iters(ops: Seq<MvcVuiOp>, n: nat) -> Seq<EventView>
    decreases n,
{
    if n == 0 {
        Seq::empty()
    } else {
        vui_op_iters(ops, (n - 1) as nat) + vui_op_iter(ops[n - 1], (n - 1) as nat)
    }
}

/// The events of `mvc_vui_parameters_extension()`.
pub open spec fn mvc_vui_events(vui: MvcVuiParametersExtension) -> Seq<EventView> {
    let m1 = count_minus1(vui.ops@.len());
    seq![
        ev_begin("mvc_vui_parameters_extension"@),
        ev_ue("vui_mvc_num_ops_minus1"@, m1 as u64),
        ev_for(
            "i = 0; i <= vui_mvc_num_ops_minus1; i++"@,
            seq![tv("vui_mvc_num_ops_minus1"@, u(m1 as int))],
        ),
    ] + vui_op_iters(vui.ops@, vui.ops@.len()) + seq![ev_end_for(), ev_end()]
}

fn describe_vui_op_views(log: &mut SyntaxLog, op: &MvcVuiOp, i: u64)
    requires
        in_block(old(log)@, Block::Loop),
    ensures
        final(log)@ == old(log)@ + vui_op_views(*op, i as nat),
        nesting(final(log)@) == nesting(old(log)@),
{
    let ghost base = log@;
    let ids = &op.target_output_view_ids;
    let m1 = minus1(ids.len());
    log.for_iteration("i", i);
    log.fixed_named(indexed1("vui_mvc_temporal_id", i), 3, FieldValue::Unsigned(op.temporal_id as u64));
    log.ue_named(indexed1("vui_mvc_num_target_output_views_minus1", i), m1 as u64);
    log.begin_for1_named(
        enclose("j = 0; j <= ", indexed1("vui_mvc_num_target_output_views_minus1", i), "; j++"),
        Term::named(
            indexed1("vui_mvc_num_target_output_views_minus1", i),
            FieldValue::Unsigned(m1 as u64),
        ),
    );
    let ghost start = log@;
    let mut j: usize = 0;
    while j < ids.len()
        invariant
            nesting(log@) == nesting(start),
            in_block(start, Block::Loop),
            j <= ids@.len(),
            log@ == start + output_view_iters(i as nat, ids@, j as nat),
        decreases ids.len() - j,
    {
        log.for_iteration("j", j as u64);
        log.ue_named(indexed2("vui_mvc_view_id", i, j as u64), ids[j] as u64);
        assert(log@ =~= start + output_view_iters(i as nat, ids@, (j + 1) as nat));
        j = j + 1;
    }
    log.end_for();
    assert(log@ =~= base + vui_op_views(*op, i as nat));
}

fn describe_vui_op_timing(log: &mut SyntaxLog, op: &MvcVuiOp)
    ensures
        final(log)@ == old(log)@ + vui_op_timing(*op),
        nesting(final(log)@) == nesting(old(log)@),
{
    let ghost base = log@;
    describe_timing_block(log, &op.timing_info);
    let ghost a = log@;
    describe_hrd_block(log, "nal_hrd_parameters_present_flag", &op.nal_hrd_parameters);
    let ghost b = log@;
    describe_hrd_block(log, "vcl_hrd_parameters_present_flag", &op.vcl_hrd_parameters);
    let ghost c = log@;
    describe_low_delay_block(
        log,
        "vui_mvc_low_delay_hrd_flag",
        op.nal_hrd_parameters.is_some(),
        op.vcl_hrd_parameters.is_some(),
        op.low_delay_hrd_flag,
    );
    let ghost d = log@;
    log.flag("vui_mvc_pic_struct_present_flag", op.pic_struct_present_flag);
    proof {
        let e0 = timing_block(op.timing_info);
        let e1 = hrd_block("nal_hrd_parameters_present_flag"@, op.nal_hrd_parameters);
        let e2 = hrd_block("vcl_hrd_parameters_present_flag"@, op.vcl_hrd_parameters);
        let e3 = low_delay_block(
            "vui_mvc_low_delay_hrd_flag"@,
            op.nal_hrd_parameters is Some,
            op.vcl_hrd_parameters is Some,
            op.low_delay_hrd_flag,
        );
        lemma_concat_associative(base, e0, e1);
        lemma_concat_associative(base, e0 + e1, e2);
        lemma_concat_associative(base, e0 + e1 + e2, e3);
        assert(log@ =~= base + vui_op_timing(*op));
    }
}

/// Appends the events of `mvc_vui_parameters_extension()`.
pub fn describe_mvc_vui_parameters_extension(log: &mut SyntaxLog, vui: &MvcVuiParametersExtension)
    ensures
        final(log)@ == old(log)@ + mvc_vui_events(*vui),
        nesting(final(log)@) == nesting(old(log)@),
{
    let ghost base = log@;
    let ops = &vui.ops;
    let m1 = minus1(ops.len());
    log.begin_element("mvc_vui_parameters_extension");
    log.ue("vui_mvc_num_ops_minus1", m1 as u64);
    log.begin_for1(
        "i = 0; i <= vui_mvc_num_ops_minus1; i++",
        Term::new("vui_mvc_num_ops_minus1", FieldValue::Unsigned(m1 as u64)),
    );
    let ghost start = log@;
    let mut i: usize = 0;
    while i < ops.len()
        invariant
            nesting(log@) == nesting(start),
            in_block(start, Block::Loop),
            i <= ops@.len(),
            log@ == start + vui_op_iters(ops@, i as nat),
        decreases ops.len() - i,
    {
        let ghost before = log@;
        describe_vui_op_views(log, &ops[i], i as u64);
        describe_vui_op_timing(log, &ops[i]);
        proof {
            let v = vui_op_views(ops@[i as int], i as nat);
            let t = vui_op_timing(ops@[i as int]);
            lemma_concat_associative(before, v, t);
            lemma_concat_associative(start, vui_op_iters(ops@, i as nat), v + t);
        }
        i = i + 1;
    }
    log.end_for();
    log.end_element();
    assert(log@ =~= base + mvc_vui_events(*vui));
}

// ---- subset_seq_parameter_set_rbsp() ----
/// `bit_equal_to_one`, coded `f(1)`.
pub open spec fn ev_bit_equal_to_one() -> EventView {
    EventView::FixedWidthField {
        name: "bit_equal_to_one"@,
        bits: 1,
        descriptor: "f(1)"@,
        value: FieldValue::Unsigned(1),
        comment: None,
    }
}

/// `mvc_vui_parameters_present_flag` and the conditional
/// `mvc_vui_parameters_extension()`.
pub open spec fn mvc_vui_block(p: Option<MvcVuiParametersExtension>) -> Seq<EventView> {
    seq![ev_flag("mvc_vui_parameters_present_flag"@, p is Some)] + if_block(
        "mvc_vui_parameters_present_flag"@,
        seq![],
        p is Some,
        match p {
            Some(v) => mvc_vui_events(v),
            None => Seq::empty(),
        },
    )
}

/// The events of the profile-dependent extension: for SVC the extension
/// element followed by `svc_vui_parameters_present_flag`; for MVC and MVCD
/// `bit_equal_to_one` before the extension.
pub open spec fn subset_extension_events(
    ext: Option<SubsetSpsExtension>,
    sps: SeqParameterSet,
) -> Seq<EventView> {
    match ext {
        Some(SubsetSpsExtension::Svc(svc)) => svc_events(svc, sps) + seq![
            ev_flag("svc_vui_parameters_present_flag"@, svc.svc_vui_parameters_present_flag),
        ],
        Some(SubsetSpsExtension::Mvc { ext, mvc_vui_parameters }) => seq![ev_bit_equal_to_one()]
            + mvc_events(ext) + mvc_vui_block(mvc_vui_parameters),
        Some(SubsetSpsExtension::Mvcd) => seq![
            ev_bit_equal_to_one(),
            ev_comment(
                around(
                    "seq_parameter_set_mvcd_extension (profile_idc="@,
                    sps.profile_idc as nat,
                    ", not parsed)"@,
                ),
            ),
        ],
        None => Seq::empty(),
    }
}

/// The events of `subset_seq_parameter_set_rbsp()`: the base SPS nested in
/// the element, the extension, then `additional_extension2_flag`.
pub open spec fn subset_sps_events(s: SubsetSps) -> Seq<EventView> {
    seq![ev_begin("subset_seq_parameter_set_rbsp"@)] + sps_events(s.sps)
        + subset_extension_events(s.extension, s.sps) + seq![
        ev_flag("additional_extension2_flag"@, s.additional_extension2_flag),
        ev_end(),
    ]
}

/// The description of a subset SPS holds, right after its opening, the
/// description of its base SPS exactly as [`crate::SpsDescribe`] gives it.
pub proof fn lemma_subset_sps_embeds_base_sps(s: SubsetSps)
    ensures
        subset_sps_events(s).subrange(1, 1 + sps_events(s.sps).len() as int) == sps_events(s.sps),
        subset_sps_events(s)[0] == ev_begin("subset_seq_parameter_set_rbsp"@),
{
    let b = sps_events(s.sps);
    let whole = subset_sps_events(s);
    assert(whole.subrange(1, 1 + b.len() as int) =~= b);
}

/// In the description of an SVC subset SPS the SVC extension element starts
/// right after the base SPS, and `svc_vui_parameters_present_flag` follows
/// right after that element.
pub proof fn lemma_svc_subset_sps_layout(s: SubsetSps, svc: SvcSpsExtension)
    requires
        s.extension == Some(SubsetSpsExtension::Svc(svc)),
    ensures
        subset_sps_events(s)[1 + sps_events(s.sps).len() as int] == ev_begin(
            "seq_parameter_set_svc_extension"@,
        ),
        subset_sps_events(s)[1 + sps_events(s.sps).len() as int + svc_events(svc, s.sps).len() as int]
            == ev_flag("svc_vui_parameters_present_flag"@, svc.svc_vui_parameters_present_flag),
{
    let b = sps_events(s.sps);
    let e = svc_events(svc, s.sps);
    let cat = svc_chroma_array_type(s.sps);
    assert(e[0] == svc_head(svc, cat)[0]);
    let whole = subset_sps_events(s);
    assert(whole =~= seq![ev_begin("subset_seq_parameter_set_rbsp"@)] + b + e + seq![
        ev_flag("svc_vui_parameters_present_flag"@, svc.svc_vui_parameters_present_flag),
        ev_flag("additional_extension2_flag"@, s.additional_extension2_flag),
        ev_end(),
    ]);
}

fn describe_bit_equal_to_one(log: &mut SyntaxLog)
    ensures
        final(log)@ == old(log)@.push(ev_bit_equal_to_one()),
        nesting(final(log)@) == nesting(old(log)@),
{
    log.fixed_field("bit_equal_to_one", 1, "f(1)", FieldValue::Unsigned(1), None);
}

fn describe_mvc_parts(
    log: &mut SyntaxLog,
    ext: &MvcSpsExtension,
    mvc_vui_parameters: &Option<MvcVuiParametersExtension>,
)
    ensures
        final(log)@ == old(log)@ + mvc_events(*ext) + mvc_vui_block(*mvc_vui_parameters),
        nesting(final(log)@) == nesting(old(log)@),
{
    let ghost base = log@;
    describe_mvc_extension(log, ext);
    let ghost a = log@;
    let has = mvc_vui_parameters.is_some();
    log.flag("mvc_vui_parameters_present_flag", has);
    log.begin_if("mvc_vui_parameters_present_flag", has);
    let ghost b = log@;
    if let Some(vui) = mvc_vui_parameters {
        describe_mvc_vui_parameters_extension(log, vui);
    }
    let ghost c = log@;
    log.end_if();
    proof {
        let v = match mvc_vui_parameters {
            Some(v) => mvc_vui_events(*v),
            None => Seq::empty(),
        };
        assert(c =~= b + v);
        assert(log@ =~= base + mvc_events(*ext) + mvc_vui_block(*mvc_vui_parameters));
    }
}

fn describe_subset_extension(
    log: &mut SyntaxLog,
    ext: &Option<SubsetSpsExtension>,
    sps: &SeqParameterSet,
)
    ensures
        final(log)@ == old(log)@ + subset_extension_events(*ext, *sps),
        nesting(final(log)@) == nesting(old(log)@),
{
    let ghost base = log@;
    match ext {
        Some(SubsetSpsExtension::Svc(svc)) => {
            describe_svc_extension(log, svc, sps);
            log.flag("svc_vui_parameters_present_flag", svc.svc_vui_parameters_present_flag);
        },
        Some(SubsetSpsExtension::Mvc { ext, mvc_vui_parameters }) => {
            describe_bit_equal_to_one(log);
            describe_mvc_parts(log, ext, mvc_vui_parameters);
        },
        Some(SubsetSpsExtension::Mvcd) => {
            describe_bit_equal_to_one(log);
            log.comment(
                number_between(
                    "seq_parameter_set_mvcd_extension (profile_idc=",
                    sps.profile_idc as u64,
                    ", not parsed)",
                ),
            );
        },
        None => {},
    }
    assert(log@ =~= base + subset_extension_events(*ext, *sps));
}

impl<'a> SubsetSpsDescribe<'a> {
    /// The events of `subset_seq_parameter_set_rbsp()` for this subset SPS.
    pub fn describe(&self) -> (log: SyntaxLog)
        ensures
            log@ == subset_sps_events(*self.0),
            well_nested(log@),
    {
        let subset = self.0;
        let mut log = SyntaxLog::new();
        log.begin_element("subset_seq_parameter_set_rbsp");
        let ghost a = log@;
        describe_sps(&mut log, &subset.sps);
        let ghost b = log@;
        describe_subset_extension(&mut log, &subset.extension, &subset.sps);
        let ghost c = log@;
        log.flag("additional_extension2_flag", subset.additional_extension2_flag);
        log.end_element();
        proof {
            let e0 = sps_events(subset.sps);
            let e1 = subset_extension_events(subset.extension, subset.sps);
            assert(b =~= a + e0);
            assert(c =~= b + e1);
            assert(log@ =~= subset_sps_events(*self.0));
        }
        proof {
            lemma_closed_opened(Some(Seq::empty()), Block::Element);
        }
        log
    }
}

} // verus!
