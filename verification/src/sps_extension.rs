//! `seq_parameter_set_extension_rbsp()` (7.3.2.1.2).
use vstd::prelude::*;
use crate::syntax::{
    ev_begin, ev_end, ev_fixed, ev_flag, ev_ue, if_block, lemma_closed_opened, tv, well_nested,
    Block, EventView, FieldValue, SyntaxLog, Term,
};
use crate::vui::u;
use crate::SpsExtensionDescribe;

verus! {

/// The auxiliary picture format, present when `aux_format_idc != 0`.
pub struct AuxFormatInfo {
    pub bit_depth_aux_minus8: u8,
    pub alpha_incr_flag: bool,
    pub alpha_opaque_value: u32,
    pub alpha_transparent_value: u32,
}

pub struct SeqParameterSetExtension {
    pub seq_parameter_set_id: u8,
    pub aux_format_idc: u32,
    pub aux_format_info: Option<AuxFormatInfo>,
    pub additional_extension_flag: bool,
}

/// The width of the alpha values: `bit_depth_aux_minus8 + 9` bits.
pub open spec fn alpha_bits(aux: AuxFormatInfo) -> u32 {
    (aux.bit_depth_aux_minus8 + 9) as u32
}

/// The fields of the auxiliary format.
pub open spec fn aux_format_events(aux: AuxFormatInfo) -> Seq<EventView> {
    seq![
        ev_ue("bit_depth_aux_minus8"@, aux.bit_depth_aux_minus8 as u64),
        ev_flag("alpha_incr_flag"@, aux.alpha_incr_flag),
        ev_fixed("alpha_opaque_value"@, alpha_bits(aux), u(aux.alpha_opaque_value as int)),
        ev_fixed("alpha_transparent_value"@, alpha_bits(aux), u(aux.alpha_transparent_value as int)),
    ]
}

/// The events of `seq_parameter_set_extension_rbsp()`.
pub open spec fn sps_extension_events(ext: SeqParameterSetExtension) -> Seq<EventView> {
    seq![
        ev_begin("seq_parameter_set_extension_rbsp"@),
        ev_ue("seq_parameter_set_id"@, ext.seq_parameter_set_id as u64),
        ev_ue("aux_format_idc"@, ext.aux_format_idc as u64),
    ] + if_block(
        "aux_format_idc != 0"@,
        seq![tv("aux_format_idc"@, u(ext.aux_format_idc as int))],
        ext.aux_format_idc != 0,
        match ext.aux_format_info {
            Some(aux) => aux_format_events(aux),
            None => Seq::empty(),
        },
    ) + seq![ev_flag("additional_extension_flag"@, ext.additional_extension_flag), ev_end()]
}

impl<'a> SpsExtensionDescribe<'a> {
    /// The events of `seq_parameter_set_extension_rbsp()` for this extension.
    pub fn describe(&self) -> (log: SyntaxLog)
        ensures
            log@ == sps_extension_events(*self.0),
            well_nested(log@),
    {
        let ext = self.0;
        let mut log = SyntaxLog::new();
        log.begin_element("seq_parameter_set_extension_rbsp");
        log.ue("seq_parameter_set_id", ext.seq_parameter_set_id as u64);
        log.ue("aux_format_idc", ext.aux_format_idc as u64);
        let has_aux = ext.aux_format_idc != 0;
        log.begin_if1(
            "aux_format_idc != 0",
            Term::new("aux_format_idc", FieldValue::Unsigned(ext.aux_format_idc as u64)),
            has_aux,
        );
        if let Some(aux) = &ext.aux_format_info {
            log.ue("bit_depth_aux_minus8", aux.bit_depth_aux_minus8 as u64);
            log.flag("alpha_incr_flag", aux.alpha_incr_flag);
            let bits = aux.bit_depth_aux_minus8 as u32 + 9;
            log.fixed("alpha_opaque_value", bits, FieldValue::Unsigned(aux.alpha_opaque_value as u64));
            log.fixed(
                "alpha_transparent_value",
                bits,
                FieldValue::Unsigned(aux.alpha_transparent_value as u64),
            );
        }
        log.end_if();
        log.flag("additional_extension_flag", ext.additional_extension_flag);
        log.end_element();
        assert(log@ =~= sps_extension_events(*self.0));
        proof {
            lemma_closed_opened(Some(seq![Block::Element]), Block::Conditional);
            lemma_closed_opened(Some(Seq::empty()), Block::Element);
        }
        log
    }
}

} // verus!
