//! SEI payloads: the payload type, its size, and the payload bytes as a hex dump.
use vstd::prelude::*;
use crate::syntax::{
    ev_begin, ev_end, ev_raw, ev_ue, lemma_closed_opened, well_nested, Block, EventView, FieldValue,
    SyntaxLog,
};
use crate::text::{around, number_between};
use crate::SeiPayloadDescribe;

verus! {

/// The type of an SEI message (Annex D), with the numeric `payloadType`
/// of each named type; other values are reserved.
#[derive(Clone, Copy, Debug, PartialEq, Eq, Structural)]
pub enum HeaderType {
    BufferingPeriod,
    PicTiming,
    PanScanRect,
    FillerPayload,
    UserDataRegisteredItuTT35,
    UserDataUnregistered,
    RecoveryPoint,
    DecRefPicMarkingRepetition,
    SparePic,
    SceneInfo,
    SubSeqInfo,
    SubSeqLayerCharacteristics,
    SubSeqCharacteristics,
    FullFrameFreeze,
    FullFrameFreezeRelease,
    FullFrameSnapshot,
    ProgressiveRefinementSegmentStart,
    ProgressiveRefinementSegmentEnd,
    MotionConstrainedSliceGroupSet,
    FilmGrainCharacteristics,
    DeblockingFilterDisplayPreference,
    StereoVideoInfo,
    PostFilterHint,
    ToneMappingInfo,
    ScalabilityInfo,
    SubPicScalableLayer,
    NonRequiredLayerRep,
    PriorityLayerInfo,
    LayersNotPresent,
    LayerDependencyChange,
    ScalableNesting,
    BaseLayerTemporalHrd,
    QualityLayerIntegrityCheck,
    RedundantPicProperty,
    Tl0DepRepIndex,
    TlSwitchingPoint,
    ParallelDecodingInfo,
    MvcScalableNesting,
    ViewScalabilityInfo,
    MultiviewSceneInfo,
    MultiviewAcquisitionInfo,
    NonRequiredViewComponent,
    ViewDependencyChange,
    OperationPointsNotPresent,
    BaseViewTemporalHrd,
    FramePackingArrangement,
    MultiviewViewPosition,
    DisplayOrientation,
    MvcdScalableNesting,
    MvcdViewScalabilityInfo,
    DepthRepresentationInfo,
    ThreeDimensionalReferenceDisplaysInfo,
    DepthTiming,
    DepthSamplingInfo,
    ConstrainedDepthParameterSetIdentifier,
    GreenMetadata,
    MasteringDisplayColourVolume,
    ColourRemappingInfo,
    AlternativeTransferCharacteristics,
    AlternativeDepthInfo,
    ReservedSeiMessage(u32),
}

/// The `payloadType` of an SEI message type.
pub open spec fn payload_type_id(ht: HeaderType) -> u32 {
    match ht {
        HeaderType::BufferingPeriod => 0,
        HeaderType::PicTiming => 1,
        HeaderType::PanScanRect => 2,
        HeaderType::FillerPayload => 3,
        HeaderType::UserDataRegisteredItuTT35 => 4,
        HeaderType::UserDataUnregistered => 5,
        HeaderType::RecoveryPoint => 6,
        HeaderType::DecRefPicMarkingRepetition => 7,
        HeaderType::SparePic => 8,
        HeaderType::SceneInfo => 9,
        HeaderType::SubSeqInfo => 10,
        HeaderType::SubSeqLayerCharacteristics => 11,
        HeaderType::SubSeqCharacteristics => 12,
        HeaderType::FullFrameFreeze => 13,
        HeaderType::FullFrameFreezeRelease => 14,
        HeaderType::FullFrameSnapshot => 15,
        HeaderType::ProgressiveRefinementSegmentStart => 16,
        HeaderType::ProgressiveRefinementSegmentEnd => 17,
        HeaderType::MotionConstrainedSliceGroupSet => 18,
        HeaderType::FilmGrainCharacteristics => 19,
        HeaderType::DeblockingFilterDisplayPreference => 20,
        HeaderType::StereoVideoInfo => 21,
        HeaderType::PostFilterHint => 22,
        HeaderType::ToneMappingInfo => 23,
        HeaderType::ScalabilityInfo => 24,
        HeaderType::SubPicScalableLayer => 25,
        HeaderType::NonRequiredLayerRep => 26,
        HeaderType::PriorityLayerInfo => 27,
        HeaderType::LayersNotPresent => 28,
        HeaderType::LayerDependencyChange => 29,
        HeaderType::ScalableNesting => 30,
        HeaderType::BaseLayerTemporalHrd => 31,
        HeaderType::QualityLayerIntegrityCheck => 32,
        HeaderType::RedundantPicProperty => 33,
        HeaderType::Tl0DepRepIndex => 34,
        HeaderType::TlSwitchingPoint => 35,
        HeaderType::ParallelDecodingInfo => 36,
        HeaderType::MvcScalableNesting => 37,
        HeaderType::ViewScalabilityInfo => 38,
        HeaderType::MultiviewSceneInfo => 39,
        HeaderType::MultiviewAcquisitionInfo => 40,
        HeaderType::NonRequiredViewComponent => 41,
        HeaderType::ViewDependencyChange => 42,
        HeaderType::OperationPointsNotPresent => 43,
        HeaderType::BaseViewTemporalHrd => 44,
        HeaderType::FramePackingArrangement => 45,
        HeaderType::MultiviewViewPosition => 46,
        HeaderType::DisplayOrientation => 47,
        HeaderType::MvcdScalableNesting => 48,
        HeaderType::MvcdViewScalabilityInfo => 49,
        HeaderType::DepthRepresentationInfo => 50,
        HeaderType::ThreeDimensionalReferenceDisplaysInfo => 51,
        HeaderType::DepthTiming => 52,
        HeaderType::DepthSamplingInfo => 53,
        HeaderType::ConstrainedDepthParameterSetIdentifier => 54,
        HeaderType::GreenMetadata => 56,
        HeaderType::MasteringDisplayColourVolume => 137,
        HeaderType::ColourRemappingInfo => 142,
        HeaderType::AlternativeTransferCharacteristics => 147,
        HeaderType::AlternativeDepthInfo => 188,
        HeaderType::ReservedSeiMessage(id) => id,
    }
}

/// The name of an SEI message type: the variant's name, and for a reserved
/// type `ReservedSeiMessage(<payloadType>)`.
pub open spec fn payload_type_name(ht: HeaderType) -> Seq<char> {
    match ht {
        HeaderType::BufferingPeriod => "BufferingPeriod"@,
        HeaderType::PicTiming => "PicTiming"@,
        HeaderType::PanScanRect => "PanScanRect"@,
        HeaderType::FillerPayload => "FillerPayload"@,
        HeaderType::UserDataRegisteredItuTT35 => "UserDataRegisteredItuTT35"@,
        HeaderType::UserDataUnregistered => "UserDataUnregistered"@,
        HeaderType::RecoveryPoint => "RecoveryPoint"@,
        HeaderType::DecRefPicMarkingRepetition => "DecRefPicMarkingRepetition"@,
        HeaderType::SparePic => "SparePic"@,
        HeaderType::SceneInfo => "SceneInfo"@,
        HeaderType::SubSeqInfo => "SubSeqInfo"@,
        HeaderType::SubSeqLayerCharacteristics => "SubSeqLayerCharacteristics"@,
        HeaderType::SubSeqCharacteristics => "SubSeqCharacteristics"@,
        HeaderType::FullFrameFreeze => "FullFrameFreeze"@,
        HeaderType::FullFrameFreezeRelease => "FullFrameFreezeRelease"@,
        HeaderType::FullFrameSnapshot => "FullFrameSnapshot"@,
        HeaderType::ProgressiveRefinementSegmentStart => "ProgressiveRefinementSegmentStart"@,
        HeaderType::ProgressiveRefinementSegmentEnd => "ProgressiveRefinementSegmentEnd"@,
        HeaderType::MotionConstrainedSliceGroupSet => "MotionConstrainedSliceGroupSet"@,
        HeaderType::FilmGrainCharacteristics => "FilmGrainCharacteristics"@,
        HeaderType::DeblockingFilterDisplayPreference => "DeblockingFilterDisplayPreference"@,
        HeaderType::StereoVideoInfo => "StereoVideoInfo"@,
        HeaderType::PostFilterHint => "PostFilterHint"@,
        HeaderType::ToneMappingInfo => "ToneMappingInfo"@,
        HeaderType::ScalabilityInfo => "ScalabilityInfo"@,
        HeaderType::SubPicScalableLayer => "SubPicScalableLayer"@,
        HeaderType::NonRequiredLayerRep => "NonRequiredLayerRep"@,
        HeaderType::PriorityLayerInfo => "PriorityLayerInfo"@,
        HeaderType::LayersNotPresent => "LayersNotPresent"@,
        HeaderType::LayerDependencyChange => "LayerDependencyChange"@,
        HeaderType::ScalableNesting => "ScalableNesting"@,
        HeaderType::BaseLayerTemporalHrd => "BaseLayerTemporalHrd"@,
        HeaderType::QualityLayerIntegrityCheck => "QualityLayerIntegrityCheck"@,
        HeaderType::RedundantPicProperty => "RedundantPicProperty"@,
        HeaderType::Tl0DepRepIndex => "Tl0DepRepIndex"@,
        HeaderType::TlSwitchingPoint => "TlSwitchingPoint"@,
        HeaderType::ParallelDecodingInfo => "ParallelDecodingInfo"@,
        HeaderType::MvcScalableNesting => "MvcScalableNesting"@,
        HeaderType::ViewScalabilityInfo => "ViewScalabilityInfo"@,
        HeaderType::MultiviewSceneInfo => "MultiviewSceneInfo"@,
        HeaderType::MultiviewAcquisitionInfo => "MultiviewAcquisitionInfo"@,
        HeaderType::NonRequiredViewComponent => "NonRequiredViewComponent"@,
        HeaderType::ViewDependencyChange => "ViewDependencyChange"@,
        HeaderType::OperationPointsNotPresent => "OperationPointsNotPresent"@,
        HeaderType::BaseViewTemporalHrd => "BaseViewTemporalHrd"@,
        HeaderType::FramePackingArrangement => "FramePackingArrangement"@,
        HeaderType::MultiviewViewPosition => "MultiviewViewPosition"@,
        HeaderType::DisplayOrientation => "DisplayOrientation"@,
        HeaderType::MvcdScalableNesting => "MvcdScalableNesting"@,
        HeaderType::MvcdViewScalabilityInfo => "MvcdViewScalabilityInfo"@,
        HeaderType::DepthRepresentationInfo => "DepthRepresentationInfo"@,
        HeaderType::ThreeDimensionalReferenceDisplaysInfo => "ThreeDimensionalReferenceDisplaysInfo"@,
        HeaderType::DepthTiming => "DepthTiming"@,
        HeaderType::DepthSamplingInfo => "DepthSamplingInfo"@,
        HeaderType::ConstrainedDepthParameterSetIdentifier => "ConstrainedDepthParameterSetIdentifier"@,
        HeaderType::GreenMetadata => "GreenMetadata"@,
        HeaderType::MasteringDisplayColourVolume => "MasteringDisplayColourVolume"@,
        HeaderType::ColourRemappingInfo => "ColourRemappingInfo"@,
        HeaderType::AlternativeTransferCharacteristics => "AlternativeTransferCharacteristics"@,
        HeaderType::AlternativeDepthInfo => "AlternativeDepthInfo"@,
        HeaderType::ReservedSeiMessage(id) => around("ReservedSeiMessage("@, id as nat, ")"@),
    }
}

/// The message type that Annex D assigns to a `payloadType` number; numbers
/// that it leaves unassigned are reserved.
pub open spec fn annex_d_type(id: u32) -> HeaderType {
    match id {
        0 => HeaderType::BufferingPeriod,
        1 => HeaderType::PicTiming,
        2 => HeaderType::PanScanRect,
        3 => HeaderType::FillerPayload,
        4 => HeaderType::UserDataRegisteredItuTT35,
        5 => HeaderType::UserDataUnregistered,
        6 => HeaderType::RecoveryPoint,
        7 => HeaderType::DecRefPicMarkingRepetition,
        8 => HeaderType::SparePic,
        9 => HeaderType::SceneInfo,
        10 => HeaderType::SubSeqInfo,
        11 => HeaderType::SubSeqLayerCharacteristics,
        12 => HeaderType::SubSeqCharacteristics,
        13 => HeaderType::FullFrameFreeze,
        14 => HeaderType::FullFrameFreezeRelease,
        15 => HeaderType::FullFrameSnapshot,
        16 => HeaderType::ProgressiveRefinementSegmentStart,
        17 => HeaderType::ProgressiveRefinementSegmentEnd,
        18 => HeaderType::MotionConstrainedSliceGroupSet,
        19 => HeaderType::FilmGrainCharacteristics,
        20 => HeaderType::DeblockingFilterDisplayPreference,
        21 => HeaderType::StereoVideoInfo,
        22 => HeaderType::PostFilterHint,
        23 => HeaderType::ToneMappingInfo,
        24 => HeaderType::ScalabilityInfo,
        25 => HeaderType::SubPicScalableLayer,
        26 => HeaderType::NonRequiredLayerRep,
        27 => HeaderType::PriorityLayerInfo,
        28 => HeaderType::LayersNotPresent,
        29 => HeaderType::LayerDependencyChange,
        30 => HeaderType::ScalableNesting,
        31 => HeaderType::BaseLayerTemporalHrd,
        32 => HeaderType::QualityLayerIntegrityCheck,
        33 => HeaderType::RedundantPicProperty,
        34 => HeaderType::Tl0DepRepIndex,
        35 => HeaderType::TlSwitchingPoint,
        36 => HeaderType::ParallelDecodingInfo,
        37 => HeaderType::MvcScalableNesting,
        38 => HeaderType::ViewScalabilityInfo,
        39 => HeaderType::MultiviewSceneInfo,
        40 => HeaderType::MultiviewAcquisitionInfo,
        41 => HeaderType::NonRequiredViewComponent,
        42 => HeaderType::ViewDependencyChange,
        43 => HeaderType::OperationPointsNotPresent,
        44 => HeaderType::BaseViewTemporalHrd,
        45 => HeaderType::FramePackingArrangement,
        46 => HeaderType::MultiviewViewPosition,
        47 => HeaderType::DisplayOrientation,
        48 => HeaderType::MvcdScalableNesting,
        49 => HeaderType::MvcdViewScalabilityInfo,
        50 => HeaderType::DepthRepresentationInfo,
        51 => HeaderType::ThreeDimensionalReferenceDisplaysInfo,
        52 => HeaderType::DepthTiming,
        53 => HeaderType::DepthSamplingInfo,
        54 => HeaderType::ConstrainedDepthParameterSetIdentifier,
        56 => HeaderType::GreenMetadata,
        137 => HeaderType::MasteringDisplayColourVolume,
        142 => HeaderType::ColourRemappingInfo,
        147 => HeaderType::AlternativeTransferCharacteristics,
        188 => HeaderType::AlternativeDepthInfo,
        _ => HeaderType::ReservedSeiMessage(id),
    }
}

/// The `payloadType` shown for a message type is the number that Annex D
/// assigns to it: reading the number back gives the same type, so distinct
/// types get distinct numbers. Every number is the `payloadType` of the type
/// that Annex D assigns to it.
pub proof fn lemma_payload_type_id_is_annex_d_number(t: HeaderType, id: u32)
    ensures
        payload_type_id(annex_d_type(id)) == id,
        !(t is ReservedSeiMessage) ==> annex_d_type(payload_type_id(t)) == t,
        annex_d_type(payload_type_id(t)) is ReservedSeiMessage ==> t is ReservedSeiMessage,
{
}

/// Distinct named message types have distinct `payloadType` numbers.
pub proof fn lemma_payload_type_ids_distinct(a: HeaderType, b: HeaderType)
    requires
        !(a is ReservedSeiMessage),
        !(b is ReservedSeiMessage),
        a != b,
    ensures
        payload_type_id(a) != payload_type_id(b),
{
    lemma_payload_type_id_is_annex_d_number(a, 0);
    lemma_payload_type_id_is_annex_d_number(b, 0);
}

pub fn header_type_id(ht: HeaderType) -> (id: u32)
    ensures
        id == payload_type_id(ht),
{
    match ht {
        HeaderType::BufferingPeriod => 0,
        HeaderType::PicTiming => 1,
        HeaderType::PanScanRect => 2,
        HeaderType::FillerPayload => 3,
        HeaderType::UserDataRegisteredItuTT35 => 4,
        HeaderType::UserDataUnregistered => 5,
        HeaderType::RecoveryPoint => 6,
        HeaderType::DecRefPicMarkingRepetition => 7,
        HeaderType::SparePic => 8,
        HeaderType::SceneInfo => 9,
        HeaderType::SubSeqInfo => 10,
        HeaderType::SubSeqLayerCharacteristics => 11,
        HeaderType::SubSeqCharacteristics => 12,
        HeaderType::FullFrameFreeze => 13,
        HeaderType::FullFrameFreezeRelease => 14,
        HeaderType::FullFrameSnapshot => 15,
        HeaderType::ProgressiveRefinementSegmentStart => 16,
        HeaderType::ProgressiveRefinementSegmentEnd => 17,
        HeaderType::MotionConstrainedSliceGroupSet => 18,
        HeaderType::FilmGrainCharacteristics => 19,
        HeaderType::DeblockingFilterDisplayPreference => 20,
        HeaderType::StereoVideoInfo => 21,
        HeaderType::PostFilterHint => 22,
        HeaderType::ToneMappingInfo => 23,
        HeaderType::ScalabilityInfo => 24,
        HeaderType::SubPicScalableLayer => 25,
        HeaderType::NonRequiredLayerRep => 26,
        HeaderType::PriorityLayerInfo => 27,
        HeaderType::LayersNotPresent => 28,
        HeaderType::LayerDependencyChange => 29,
        HeaderType::ScalableNesting => 30,
        HeaderType::BaseLayerTemporalHrd => 31,
        HeaderType::QualityLayerIntegrityCheck => 32,
        HeaderType::RedundantPicProperty => 33,
        HeaderType::Tl0DepRepIndex => 34,
        HeaderType::TlSwitchingPoint => 35,
        HeaderType::ParallelDecodingInfo => 36,
        HeaderType::MvcScalableNesting => 37,
        HeaderType::ViewScalabilityInfo => 38,
        HeaderType::MultiviewSceneInfo => 39,
        HeaderType::MultiviewAcquisitionInfo => 40,
        HeaderType::NonRequiredViewComponent => 41,
        HeaderType::ViewDependencyChange => 42,
        HeaderType::OperationPointsNotPresent => 43,
        HeaderType::BaseViewTemporalHrd => 44,
        HeaderType::FramePackingArrangement => 45,
        HeaderType::MultiviewViewPosition => 46,
        HeaderType::DisplayOrientation => 47,
        HeaderType::MvcdScalableNesting => 48,
        HeaderType::MvcdViewScalabilityInfo => 49,
        HeaderType::DepthRepresentationInfo => 50,
        HeaderType::ThreeDimensionalReferenceDisplaysInfo => 51,
        HeaderType::DepthTiming => 52,
        HeaderType::DepthSamplingInfo => 53,
        HeaderType::ConstrainedDepthParameterSetIdentifier => 54,
        HeaderType::GreenMetadata => 56,
        HeaderType::MasteringDisplayColourVolume => 137,
        HeaderType::ColourRemappingInfo => 142,
        HeaderType::AlternativeTransferCharacteristics => 147,
        HeaderType::AlternativeDepthInfo => 188,
        HeaderType::ReservedSeiMessage(id) => id,
    }
}

pub fn header_type_name(ht: HeaderType) -> (s: String)
    ensures
        s@ == payload_type_name(ht),
{
    match ht {
        HeaderType::BufferingPeriod => String::from_str("BufferingPeriod"),
        HeaderType::PicTiming => String::from_str("PicTiming"),
        HeaderType::PanScanRect => String::from_str("PanScanRect"),
        HeaderType::FillerPayload => String::from_str("FillerPayload"),
        HeaderType::UserDataRegisteredItuTT35 => String::from_str("UserDataRegisteredItuTT35"),
        HeaderType::UserDataUnregistered => String::from_str("UserDataUnregistered"),
        HeaderType::RecoveryPoint => String::from_str("RecoveryPoint"),
        HeaderType::DecRefPicMarkingRepetition => String::from_str("DecRefPicMarkingRepetition"),
        HeaderType::SparePic => String::from_str("SparePic"),
        HeaderType::SceneInfo => String::from_str("SceneInfo"),
        HeaderType::SubSeqInfo => String::from_str("SubSeqInfo"),
        HeaderType::SubSeqLayerCharacteristics => String::from_str("SubSeqLayerCharacteristics"),
        HeaderType::SubSeqCharacteristics => String::from_str("SubSeqCharacteristics"),
        HeaderType::FullFrameFreeze => String::from_str("FullFrameFreeze"),
        HeaderType::FullFrameFreezeRelease => String::from_str("FullFrameFreezeRelease"),
        HeaderType::FullFrameSnapshot => String::from_str("FullFrameSnapshot"),
        HeaderType::ProgressiveRefinementSegmentStart => String::from_str("ProgressiveRefinementSegmentStart"),
        HeaderType::ProgressiveRefinementSegmentEnd => String::from_str("ProgressiveRefinementSegmentEnd"),
        HeaderType::MotionConstrainedSliceGroupSet => String::from_str("MotionConstrainedSliceGroupSet"),
        HeaderType::FilmGrainCharacteristics => String::from_str("FilmGrainCharacteristics"),
        HeaderType::DeblockingFilterDisplayPreference => String::from_str("DeblockingFilterDisplayPreference"),
        HeaderType::StereoVideoInfo => String::from_str("StereoVideoInfo"),
        HeaderType::PostFilterHint => String::from_str("PostFilterHint"),
        HeaderType::ToneMappingInfo => String::from_str("ToneMappingInfo"),
        HeaderType::ScalabilityInfo => String::from_str("ScalabilityInfo"),
        HeaderType::SubPicScalableLayer => String::from_str("SubPicScalableLayer"),
        HeaderType::NonRequiredLayerRep => String::from_str("NonRequiredLayerRep"),
        HeaderType::PriorityLayerInfo => String::from_str("PriorityLayerInfo"),
        HeaderType::LayersNotPresent => String::from_str("LayersNotPresent"),
        HeaderType::LayerDependencyChange => String::from_str("LayerDependencyChange"),
        HeaderType::ScalableNesting => String::from_str("ScalableNesting"),
        HeaderType::BaseLayerTemporalHrd => String::from_str("BaseLayerTemporalHrd"),
        HeaderType::QualityLayerIntegrityCheck => String::from_str("QualityLayerIntegrityCheck"),
        HeaderType::RedundantPicProperty => String::from_str("RedundantPicProperty"),
        HeaderType::Tl0DepRepIndex => String::from_str("Tl0DepRepIndex"),
        HeaderType::TlSwitchingPoint => String::from_str("TlSwitchingPoint"),
        HeaderType::ParallelDecodingInfo => String::from_str("ParallelDecodingInfo"),
        HeaderType::MvcScalableNesting => String::from_str("MvcScalableNesting"),
        HeaderType::ViewScalabilityInfo => String::from_str("ViewScalabilityInfo"),
        HeaderType::MultiviewSceneInfo => String::from_str("MultiviewSceneInfo"),
        HeaderType::MultiviewAcquisitionInfo => String::from_str("MultiviewAcquisitionInfo"),
        HeaderType::NonRequiredViewComponent => String::from_str("NonRequiredViewComponent"),
        HeaderType::ViewDependencyChange => String::from_str("ViewDependencyChange"),
        HeaderType::OperationPointsNotPresent => String::from_str("OperationPointsNotPresent"),
        HeaderType::BaseViewTemporalHrd => String::from_str("BaseViewTemporalHrd"),
        HeaderType::FramePackingArrangement => String::from_str("FramePackingArrangement"),
        HeaderType::MultiviewViewPosition => String::from_str("MultiviewViewPosition"),
        HeaderType::DisplayOrientation => String::from_str("DisplayOrientation"),
        HeaderType::MvcdScalableNesting => String::from_str("MvcdScalableNesting"),
        HeaderType::MvcdViewScalabilityInfo => String::from_str("MvcdViewScalabilityInfo"),
        HeaderType::DepthRepresentationInfo => String::from_str("DepthRepresentationInfo"),
        HeaderType::ThreeDimensionalReferenceDisplaysInfo => String::from_str("ThreeDimensionalReferenceDisplaysInfo"),
        HeaderType::DepthTiming => String::from_str("DepthTiming"),
        HeaderType::DepthSamplingInfo => String::from_str("DepthSamplingInfo"),
        HeaderType::ConstrainedDepthParameterSetIdentifier => String::from_str("ConstrainedDepthParameterSetIdentifier"),
        HeaderType::GreenMetadata => String::from_str("GreenMetadata"),
        HeaderType::MasteringDisplayColourVolume => String::from_str("MasteringDisplayColourVolume"),
        HeaderType::ColourRemappingInfo => String::from_str("ColourRemappingInfo"),
        HeaderType::AlternativeTransferCharacteristics => String::from_str("AlternativeTransferCharacteristics"),
        HeaderType::AlternativeDepthInfo => String::from_str("AlternativeDepthInfo"),
        HeaderType::ReservedSeiMessage(id) => number_between("ReservedSeiMessage(", id as u64, ")"),
    }
}

/// The events of an SEI payload: its type, with the type's name as the
/// comment, its size, and its bytes where there are any.
pub open spec fn sei_payload_events(ht: HeaderType, payload: Seq<u8>) -> Seq<EventView> {
    seq![
        ev_begin("sei_payload"@),
        EventView::VariableLengthField {
            name: "payloadType"@,
            descriptor: "ue(v)"@,
            value: FieldValue::Unsigned(payload_type_id(ht) as u64),
            comment: Some(payload_type_name(ht)),
        },
        ev_ue("payloadSize"@, payload.len() as u64),
    ] + (if payload.len() > 0 {
        seq![ev_raw(payload)]
    } else {
        Seq::empty()
    }) + seq![ev_end()]
}

/// An SEI payload description shows the payload's type with its name, its
/// size as the number of payload bytes, and exactly those bytes; an empty
/// payload has no hex dump.
pub proof fn lemma_sei_payload_shown(ht: HeaderType, payload: Seq<u8>)
    ensures
        sei_payload_events(ht, payload)[1] == (EventView::VariableLengthField {
            name: "payloadType"@,
            descriptor: "ue(v)"@,
            value: FieldValue::Unsigned(payload_type_id(ht) as u64),
            comment: Some(payload_type_name(ht)),
        }),
        sei_payload_events(ht, payload)[2] == ev_ue("payloadSize"@, payload.len() as u64),
        payload.len() > 0 ==> sei_payload_events(ht, payload)[3] == ev_raw(payload),
        payload.len() == 0 ==> sei_payload_events(ht, payload).len() == 4,
{
}

impl<'a> SeiPayloadDescribe<'a> {
    /// The events of this SEI payload.
    pub fn describe(&self) -> (log: SyntaxLog)
        ensures
            log@ == sei_payload_events(self.payload_type, self.payload@),
            well_nested(log@),
    {
        let mut log = SyntaxLog::new();
        log.begin_element("sei_payload");
        log.variable_field(
            "payloadType",
            "ue(v)",
            FieldValue::Unsigned(header_type_id(self.payload_type) as u64),
            Some(header_type_name(self.payload_type)),
        );
        log.ue("payloadSize", self.payload.len() as u64);
        if self.payload.len() > 0 {
            log.raw_bytes(vstd::slice::slice_to_vec(self.payload));
        }
        log.end_element();
        assert(log@ =~= sei_payload_events(self.payload_type, self.payload@));
        proof {
            lemma_closed_opened(Some(Seq::empty()), Block::Element);
        }
        log
    }
}

} // verus!
