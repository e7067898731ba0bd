//! Syntax-table descriptions of parsed H.264 structures.
//!
//! Each `*Describe` wrapper turns a parsed structure (access unit delimiter,
//! sequence and picture parameter sets, slice header, SEI payload, SPS
//! extension, subset SPS) into the ordered events of its syntax table in
//! ISO/IEC 14496-10, as a [`syntax::SyntaxLog`]. A syntax writer replays the
//! events to render the table.
pub mod aud;
pub mod bits;
pub mod pps;
pub mod scaling;
pub mod sei;
pub mod slice;
pub mod slice_header;
pub mod sps;
pub mod sps_extension;
pub mod subset_sps;
pub mod syntax;
pub mod text;
pub mod vui;

use vstd::prelude::*;

verus! {

/// Describes an access unit delimiter, `access_unit_delimiter_rbsp()` (7.3.2.4).
pub struct AudDescribe<'a>(pub &'a aud::AccessUnitDelimiter);

/// Describes a sequence parameter set, `seq_parameter_set_data()` (7.3.2.1.1).
pub struct SpsDescribe<'a>(pub &'a sps::SeqParameterSet);

/// Describes a picture parameter set, `pic_parameter_set_rbsp()` (7.3.2.2). The
/// SPS gives `chroma_format_idc`, which sets the size of the scaling matrix.
pub struct PpsDescribe<'a> {
    pub pps: &'a pps::PicParameterSet,
    pub sps: &'a sps::SeqParameterSet,
}

/// Describes a slice header, `slice_header()` (7.3.3). The SPS and PPS decide
/// the conditionals throughout the header.
pub struct SliceHeaderDescribe<'a> {
    pub header: &'a slice::SliceHeader,
    pub sps: &'a sps::SeqParameterSet,
    pub pps: &'a pps::PicParameterSet,
}

/// Describes an SEI payload: its type and size, and a hex dump of its bytes.
pub struct SeiPayloadDescribe<'a> {
    pub payload_type: sei::HeaderType,
    pub payload: &'a [u8],
}

/// Describes a sequence parameter set extension,
/// `seq_parameter_set_extension_rbsp()` (7.3.2.1.2).
pub struct SpsExtensionDescribe<'a>(pub &'a sps_extension::SeqParameterSetExtension);

/// Describes a subset SPS, `subset_seq_parameter_set_rbsp()` (7.3.2.1.3).
pub struct SubsetSpsDescribe<'a>(pub &'a subset_sps::SubsetSps);

} // verus!
