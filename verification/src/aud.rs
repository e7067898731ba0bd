//! `access_unit_delimiter_rbsp()` (7.3.2.4).
use vstd::prelude::*;
use crate::syntax::{
    ev_begin, ev_end, ev_fixed, lemma_closed_opened, well_nested, Block, EventView, FieldValue,
    SyntaxLog,
};
use crate::AudDescribe;

verus! {

/// An access unit delimiter: the `primary_pic_type` code, 0 to 7.
pub struct AccessUnitDelimiter {
    pub primary_pic_type: u8,
}

/// The events of `access_unit_delimiter_rbsp()`.
pub open spec fn aud_events(aud: AccessUnitDelimiter) -> Seq<EventView> {
    seq![
        ev_begin("access_unit_delimiter_rbsp"@),
        ev_fixed("primary_pic_type"@, 3, FieldValue::Unsigned(aud.primary_pic_type as u64)),
        ev_end(),
    ]
}

impl<'a> AudDescribe<'a> {
    pub fn describe(&self) -> (log: SyntaxLog)
        ensures
            log@ == aud_events(*self.0),
            well_nested(log@),
    {
        let mut log = SyntaxLog::new();
        log.begin_element("access_unit_delimiter_rbsp");
        log.fixed("primary_pic_type", 3, FieldValue::Unsigned(self.0.primary_pic_type as u64));
        log.end_element();
        proof {
            lemma_closed_opened(Some(Seq::empty()), Block::Element);
        }
        log
    }
}

} // verus!
