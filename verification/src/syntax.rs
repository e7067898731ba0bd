//! The syntax-table events that a description is made of, and the log that
//! collects them in order.
//!
//! Each event stands for one call on a syntax writer: opening or closing a
//! syntax element, a field line, a branch of a conditional, a loop and its
//! iterations, a comment or a hex dump.
use vstd::prelude::*;
use crate::text::{u_desc, u_descriptor};

verus! {

/// How the value of a field or of an annotated term is shown.
#[derive(Clone, Copy, Debug, PartialEq, Eq, Structural)]
pub enum FieldValue {
    Unsigned(u64),
    Signed(i64),
    Bool(bool),
}

/// A `name: value` annotation on a condition or loop header.
pub struct Term {
    pub name: String,
    pub value: FieldValue,
}

/// One call on a syntax writer.
pub enum SyntaxEvent {
    BeginElement { name: String, params: Option<String> },
    EndElement,
    FixedWidthField {
        name: String,
        bits: u32,
        descriptor: String,
        value: FieldValue,
        comment: Option<String>,
    },
    VariableLengthField {
        name: String,
        descriptor: String,
        value: FieldValue,
        comment: Option<String>,
    },
    RawBytes { data: Vec<u8> },
    BeginIf { condition: String, terms: Vec<Term>, taken: bool },
    BeginElseIf { condition: String, terms: Vec<Term>, taken: bool },
    BeginElse { taken: bool },
    EndIf,
    BeginFor { header: String, terms: Vec<Term> },
    ForIteration { variable: String, index: u64 },
    EndFor,
    BeginDoWhile,
    DoWhileIteration { index: u64 },
    EndDoWhile { condition: String },
    Comment { text: String },
}

/// The mathematical value of a [`Term`].
pub struct TermView {
    pub name: Seq<char>,
    pub value: FieldValue,
}

/// The mathematical value of a [`SyntaxEvent`]: texts as character
/// sequences, byte buffers as byte sequences.
pub enum EventView {
    BeginElement { name: Seq<char>, params: Option<Seq<char>> },
    EndElement,
    FixedWidthField {
        name: Seq<char>,
        bits: u32,
        descriptor: Seq<char>,
        value: FieldValue,
        comment: Option<Seq<char>>,
    },
    VariableLengthField {
        name: Seq<char>,
        descriptor: Seq<char>,
        value: FieldValue,
        comment: Option<Seq<char>>,
    },
    RawBytes { data: Seq<u8> },
    BeginIf { condition: Seq<char>, terms: Seq<TermView>, taken: bool },
    BeginElseIf { condition: Seq<char>, terms: Seq<TermView>, taken: bool },
    BeginElse { taken: bool },
    EndIf,
    BeginFor { header: Seq<char>, terms: Seq<TermView> },
    ForIteration { variable: Seq<char>, index: u64 },
    EndFor,
    BeginDoWhile,
    DoWhileIteration { index: u64 },
    EndDoWhile { condition: Seq<char> },
    Comment { text: Seq<char> },
}

impl View for Term {
    type V = TermView;

    open spec fn view(&self) -> TermView {
        TermView { name: self.name@, value: self.value }
    }
}

pub open spec fn opt_text(t: Option<String>) -> Option<Seq<char>> {
    match t {
        Some(s) => Some(s@),
        None => None,
    }
}

pub open spec fn terms_view(ts: Vec<Term>) -> Seq<TermView> {
    ts@.map_values(|t: Term| t@)
}

impl View for SyntaxEvent {
    type V = EventView;

    open spec fn view(&self) -> EventView {
        match self {
            SyntaxEvent::BeginElement { name, params } => EventView::BeginElement {
                name: name@,
                params: opt_text(*params),
            },
            SyntaxEvent::EndElement => EventView::EndElement,
            SyntaxEvent::FixedWidthField { name, bits, descriptor, value, comment } =>
                EventView::FixedWidthField {
                name: name@,
                bits: *bits,
                descriptor: descriptor@,
                value: *value,
                comment: opt_text(*comment),
            },
            SyntaxEvent::VariableLengthField { name, descriptor, value, comment } =>
                EventView::VariableLengthField {
                name: name@,
                descriptor: descriptor@,
                value: *value,
                comment: opt_text(*comment),
            },
            SyntaxEvent::RawBytes { data } => EventView::RawBytes { data: data@ },
            SyntaxEvent::BeginIf { condition, terms, taken } => EventView::BeginIf {
                condition: condition@,
                terms: terms_view(*terms),
                taken: *taken,
            },
            SyntaxEvent::BeginElseIf { condition, terms, taken } => EventView::BeginElseIf {
                condition: condition@,
                terms: terms_view(*terms),
                taken: *taken,
            },
            SyntaxEvent::BeginElse { taken } => EventView::BeginElse { taken: *taken },
            SyntaxEvent::EndIf => EventView::EndIf,
            SyntaxEvent::BeginFor { header, terms } => EventView::BeginFor {
                header: header@,
                terms: terms_view(*terms),
            },
            SyntaxEvent::ForIteration { variable, index } => EventView::ForIteration {
                variable: variable@,
                index: *index,
            },
            SyntaxEvent::EndFor => EventView::EndFor,
            SyntaxEvent::BeginDoWhile => EventView::BeginDoWhile,
            SyntaxEvent::DoWhileIteration { index } => EventView::DoWhileIteration {
                index: *index,
            },
            SyntaxEvent::EndDoWhile { condition } => EventView::EndDoWhile {
                condition: condition@,
            },
            SyntaxEvent::Comment { text } => EventView::Comment { text: text@ },
        }
    }
}

// ---- constructors of event values, used by the specifications ----
pub open spec fn tv(name: Seq<char>, value: FieldValue) -> TermView {
    TermView { name, value }
}

pub open spec fn ev_begin(name: Seq<char>) -> EventView {
    EventView::BeginElement { name, params: None }
}

pub open spec fn ev_begin_params(name: Seq<char>, params: Seq<char>) -> EventView {
    EventView::BeginElement { name, params: Some(params) }
}

pub open spec fn ev_end() -> EventView {
    EventView::EndElement
}

/// A fixed-width field with descriptor `u(bits)`.
pub open spec fn ev_fixed(name: Seq<char>, bits: u32, value: FieldValue) -> EventView {
    EventView::FixedWidthField { name, bits, descriptor: u_desc(bits), value, comment: None }
}

/// A one-bit flag, `u(1)`.
pub open spec fn ev_flag(name: Seq<char>, b: bool) -> EventView {
    ev_fixed(name, 1, FieldValue::Bool(b))
}

/// A field coded `ue(v)`.
pub open spec fn ev_ue(name: Seq<char>, v: u64) -> EventView {
    EventView::VariableLengthField {
        name,
        descriptor: "ue(v)"@,
        value: FieldValue::Unsigned(v),
        comment: None,
    }
}

/// A field coded `se(v)`.
pub open spec fn ev_se(name: Seq<char>, v: i64) -> EventView {
    EventView::VariableLengthField {
        name,
        descriptor: "se(v)"@,
        value: FieldValue::Signed(v),
        comment: None,
    }
}

pub open spec fn ev_if(condition: Seq<char>, terms: Seq<TermView>, taken: bool) -> EventView {
    EventView::BeginIf { condition, terms, taken }
}

pub open spec fn ev_else_if(condition: Seq<char>, terms: Seq<TermView>, taken: bool) -> EventView {
    EventView::BeginElseIf { condition, terms, taken }
}

pub open spec fn ev_else(taken: bool) -> EventView {
    EventView::BeginElse { taken }
}

pub open spec fn ev_end_if() -> EventView {
    EventView::EndIf
}

/// A conditional with one branch: its `if`, the events of `body`, and the `end if`.
pub open spec fn if_block(
    condition: Seq<char>,
    terms: Seq<TermView>,
    taken: bool,
    body: Seq<EventView>,
) -> Seq<EventView> {
    seq![ev_if(condition, terms, taken)] + body + seq![ev_end_if()]
}

pub open spec fn ev_for(header: Seq<char>, terms: Seq<TermView>) -> EventView {
    EventView::BeginFor { header, terms }
}

pub open spec fn ev_iter(variable: Seq<char>, index: nat) -> EventView {
    EventView::ForIteration { variable, index: index as u64 }
}

pub open spec fn ev_end_for() -> EventView {
    EventView::EndFor
}

pub open spec fn ev_do() -> EventView {
    EventView::BeginDoWhile
}

pub open spec fn ev_do_iter(index: nat) -> EventView {
    EventView::DoWhileIteration { index: index as u64 }
}

pub open spec fn ev_end_do(condition: Seq<char>) -> EventView {
    EventView::EndDoWhile { condition }
}

pub open spec fn ev_comment(text: Seq<char>) -> EventView {
    EventView::Comment { text }
}

pub open spec fn ev_raw(data: Seq<u8>) -> EventView {
    EventView::RawBytes { data }
}

/// A block of the syntax table that stays open until its closing event.
#[derive(PartialEq, Eq, Structural)]
pub enum Block {
    Element,
    Conditional,
    Loop,
    DoWhile,
}

/// `stack` after `k` is closed: `None` unless `k` is the innermost open block.
pub open spec fn close(stack: Seq<Block>, k: Block) -> Option<Seq<Block>> {
    if stack.len() > 0 && stack.last() == k {
        Some(stack.drop_last())
    } else {
        None
    }
}

/// `stack` again, if `k` is the innermost open block: how an `else`, an `else
/// if` or an iteration continues the block it belongs to.
pub open spec fn within(stack: Seq<Block>, k: Block) -> Option<Seq<Block>> {
    if stack.len() > 0 && stack.last() == k {
        Some(stack)
    } else {
        None
    }
}

/// The open blocks after one more event, from those before it; `None` once an
/// event has closed or continued a block that was not the innermost open one.
pub open spec fn step(stack: Option<Seq<Block>>, e: EventView) -> Option<Seq<Block>> {
    match stack {
        None => None,
        Some(st) => match e {
            EventView::BeginElement { .. } => Some(st.push(Block::Element)),
            EventView::EndElement => close(st, Block::Element),
            EventView::BeginIf { .. } => Some(st.push(Block::Conditional)),
            EventView::BeginElseIf { .. } => within(st, Block::Conditional),
            EventView::BeginElse { .. } => within(st, Block::Conditional),
            EventView::EndIf => close(st, Block::Conditional),
            EventView::BeginFor { .. } => Some(st.push(Block::Loop)),
            EventView::ForIteration { .. } => within(st, Block::Loop),
            EventView::EndFor => close(st, Block::Loop),
            EventView::BeginDoWhile => Some(st.push(Block::DoWhile)),
            EventView::DoWhileIteration { .. } => within(st, Block::DoWhile),
            EventView::EndDoWhile { .. } => close(st, Block::DoWhile),
            _ => Some(st),
        },
    }
}

/// The blocks that a sequence of events leaves open, innermost last, or
/// `None` if it closes or continues a block out of turn.
pub open spec fn nesting(s: Seq<EventView>) -> Option<Seq<Block>>
    decreases s.len(),
{
    if s.len() == 0 {
        Some(Seq::empty())
    } else {
        step(nesting(s.drop_last()), s.last())
    }
}

/// The open blocks `n` with a `k` opened inside them.
pub open spec fn opened(n: Option<Seq<Block>>, k: Block) -> Option<Seq<Block>> {
    match n {
        Some(st) => Some(st.push(k)),
        None => None,
    }
}

/// The open blocks `n` with their innermost block, a `k`, closed.
pub open spec fn closed(n: Option<Seq<Block>>, k: Block) -> Option<Seq<Block>> {
    match n {
        Some(st) => close(st, k),
        None => None,
    }
}

/// Closing the block just opened gives back the blocks open before it.
pub proof fn lemma_closed_opened(n: Option<Seq<Block>>, k: Block)
    ensures
        closed(opened(n, k), k) == n,
{
    if let Some(st) = n {
        assert(st.push(k).drop_last() =~= st);
    }
}

/// Every block that the events open is closed, innermost first, and every
/// `else`, `else if` and iteration stands in the block it belongs to.
pub open spec fn well_nested(s: Seq<EventView>) -> bool {
    nesting(s) == Some(Seq::<Block>::empty())
}

/// Unless `s` already fails to nest, the innermost block open after it is a `k`.
pub open spec fn in_block(s: Seq<EventView>, k: Block) -> bool {
    match nesting(s) {
        Some(st) => st.len() > 0 && st.last() == k,
        None => true,
    }
}

/// An event of either part of a concatenation is an event of the whole.
pub proof fn lemma_contains_concat(a: Seq<EventView>, b: Seq<EventView>, x: EventView)
    ensures
        a.contains(x) ==> (a + b).contains(x),
        b.contains(x) ==> (a + b).contains(x),
{
    if a.contains(x) {
        let i = choose|i: int| 0 <= i < a.len() && a[i] == x;
        assert((a + b)[i] == x);
    }
    if b.contains(x) {
        let j = choose|j: int| 0 <= j < b.len() && b[j] == x;
        assert((a + b)[a.len() + j] == x);
    }
}

/// The events of a description, in the order in which a writer receives them.
pub struct SyntaxLog {
    pub events: Vec<SyntaxEvent>,
}

impl View for SyntaxLog {
    type V = Seq<EventView>;

    open spec fn view(&self) -> Seq<EventView> {
        self.events@.map_values(|e: SyntaxEvent| e@)
    }
}

impl Term {
    pub fn new(name: &str, value: FieldValue) -> (t: Term)
        ensures
            t@ == tv(name@, value),
    {
        Term { name: String::from_str(name), value }
    }

    pub fn named(name: String, value: FieldValue) -> (t: Term)
        ensures
            t@ == tv(name@, value),
    {
        Term { name, value }
    }
}

fn one_term(a: Term) -> (v: Vec<Term>)
    ensures
        terms_view(v) == seq![a@],
{
    let v = vec![a];
    assert(terms_view(v) =~= seq![a@]);
    v
}

fn two_terms(a: Term, b: Term) -> (v: Vec<Term>)
    ensures
        terms_view(v) == seq![a@, b@],
{
    let v = vec![a, b];
    assert(terms_view(v) =~= seq![a@, b@]);
    v
}

fn three_terms(a: Term, b: Term, c: Term) -> (v: Vec<Term>)
    ensures
        terms_view(v) == seq![a@, b@, c@],
{
    let v = vec![a, b, c];
    assert(terms_view(v) =~= seq![a@, b@, c@]);
    v
}

fn no_terms() -> (v: Vec<Term>)
    ensures
        terms_view(v) == Seq::<TermView>::empty(),
{
    let v: Vec<Term> = Vec::new();
    assert(terms_view(v) =~= Seq::<TermView>::empty());
    v
}

impl SyntaxLog {
    pub fn new() -> (log: SyntaxLog)
        ensures
            log@ == Seq::<EventView>::empty(),
            nesting(log@) == Some(Seq::<Block>::empty()),
    {
        let log = SyntaxLog { events: Vec::new() };
        assert(log@ =~= Seq::<EventView>::empty());
        log
    }

    pub fn push(&mut self, e: SyntaxEvent)
        ensures
            final(self)@ == old(self)@.push(e@),
            nesting(final(self)@) == step(nesting(old(self)@), e@),
    {
        self.events.push(e);
        assert(self@ =~= old(self)@.push(e@));
        assert(self@.drop_last() =~= old(self)@);
    }

    pub fn begin_element(&mut self, name: &str)
        ensures
            final(self)@ == old(self)@.push(ev_begin(name@)),
            nesting(final(self)@) == step(nesting(old(self)@), ev_begin(name@)),
    {
        self.push(SyntaxEvent::BeginElement { name: String::from_str(name), params: None });
    }

    pub fn begin_element_params(&mut self, name: &str, params: String)
        ensures
            final(self)@ == old(self)@.push(ev_begin_params(name@, params@)),
            nesting(final(self)@) == step(nesting(old(self)@), ev_begin_params(name@, params@)),
    {
        self.push(SyntaxEvent::BeginElement { name: String::from_str(name), params: Some(params) });
    }

    pub fn end_element(&mut self)
        ensures
            final(self)@ == old(self)@.push(ev_end()),
            nesting(final(self)@) == step(nesting(old(self)@), ev_end()),
    {
        self.push(SyntaxEvent::EndElement);
    }

    /// A fixed-width field with descriptor `u(bits)`.
    pub fn fixed_named(&mut self, name: String, bits: u32, value: FieldValue)
        ensures
            final(self)@ == old(self)@.push(ev_fixed(name@, bits, value)),
            nesting(final(self)@) == nesting(old(self)@),
    {
        let descriptor = u_descriptor(bits);
        self.push(SyntaxEvent::FixedWidthField { name, bits, descriptor, value, comment: None });
    }

    pub fn fixed(&mut self, name: &str, bits: u32, value: FieldValue)
        ensures
            final(self)@ == old(self)@.push(ev_fixed(name@, bits, value)),
            nesting(final(self)@) == nesting(old(self)@),
    {
        self.fixed_named(String::from_str(name), bits, value);
    }

    /// A fixed-width field with its own descriptor and comment.
    pub fn fixed_field(
        &mut self,
        name: &str,
        bits: u32,
        descriptor: &str,
        value: FieldValue,
        comment: Option<String>,
    )
        ensures
            final(self)@ == old(self)@.push(
                EventView::FixedWidthField {
                    name: name@,
                    bits,
                    descriptor: descriptor@,
                    value,
                    comment: opt_text(comment),
                },
            ),
            nesting(final(self)@) == nesting(old(self)@),
    {
        self.push(
            SyntaxEvent::FixedWidthField {
                name: String::from_str(name),
                bits,
                descriptor: String::from_str(descriptor),
                value,
                comment,
            },
        );
    }

    pub fn flag(&mut self, name: &str, b: bool)
        ensures
            final(self)@ == old(self)@.push(ev_flag(name@, b)),
            nesting(final(self)@) == nesting(old(self)@),
    {
        self.fixed(name, 1, FieldValue::Bool(b));
    }

    pub fn flag_named(&mut self, name: String, b: bool)
        ensures
            final(self)@ == old(self)@.push(ev_flag(name@, b)),
            nesting(final(self)@) == nesting(old(self)@),
    {
        self.fixed_named(name, 1, FieldValue::Bool(b));
    }

    pub fn ue_named(&mut self, name: String, v: u64)
        ensures
            final(self)@ == old(self)@.push(ev_ue(name@, v)),
            nesting(final(self)@) == nesting(old(self)@),
    {
        self.push(
            SyntaxEvent::VariableLengthField {
                name,
                descriptor: String::from_str("ue(v)"),
                value: FieldValue::Unsigned(v),
                comment: None,
            },
        );
    }

    pub fn ue(&mut self, name: &str, v: u64)
        ensures
            final(self)@ == old(self)@.push(ev_ue(name@, v)),
            nesting(final(self)@) == nesting(old(self)@),
    {
        self.ue_named(String::from_str(name), v);
    }

    pub fn se_named(&mut self, name: String, v: i64)
        ensures
            final(self)@ == old(self)@.push(ev_se(name@, v)),
            nesting(final(self)@) == nesting(old(self)@),
    {
        self.push(
            SyntaxEvent::VariableLengthField {
                name,
                descriptor: String::from_str("se(v)"),
                value: FieldValue::Signed(v),
                comment: None,
            },
        );
    }

    pub fn se(&mut self, name: &str, v: i64)
        ensures
            final(self)@ == old(self)@.push(ev_se(name@, v)),
            nesting(final(self)@) == nesting(old(self)@),
    {
        self.se_named(String::from_str(name), v);
    }

    /// A variable-length field with its own descriptor and comment.
    pub fn variable_field(
        &mut self,
        name: &str,
        descriptor: &str,
        value: FieldValue,
        comment: Option<String>,
    )
        ensures
            final(self)@ == old(self)@.push(
                EventView::VariableLengthField {
                    name: name@,
                    descriptor: descriptor@,
                    value,
                    comment: opt_text(comment),
                },
            ),
            nesting(final(self)@) == nesting(old(self)@),
    {
        self.push(
            SyntaxEvent::VariableLengthField {
                name: String::from_str(name),
                descriptor: String::from_str(descriptor),
                value,
                comment,
            },
        );
    }

    pub fn raw_bytes(&mut self, data: Vec<u8>)
        ensures
            final(self)@ == old(self)@.push(ev_raw(data@)),
            nesting(final(self)@) == nesting(old(self)@),
    {
        self.push(SyntaxEvent::RawBytes { data });
    }

    pub fn begin_if(&mut self, condition: &str, taken: bool)
        ensures
            final(self)@ == old(self)@.push(ev_if(condition@, seq![], taken)),
            nesting(final(self)@) == step(nesting(old(self)@), ev_if(condition@, seq![], taken)),
    {
        let terms = no_terms();
        self.push(SyntaxEvent::BeginIf { condition: String::from_str(condition), terms, taken });
    }

    pub fn begin_if_named(&mut self, condition: String, taken: bool)
        ensures
            final(self)@ == old(self)@.push(ev_if(condition@, seq![], taken)),
            nesting(final(self)@) == step(nesting(old(self)@), ev_if(condition@, seq![], taken)),
    {
        let terms = no_terms();
        self.push(SyntaxEvent::BeginIf { condition, terms, taken });
    }

    pub fn begin_if1(&mut self, condition: &str, t1: Term, taken: bool)
        ensures
            final(self)@ == old(self)@.push(ev_if(condition@, seq![t1@], taken)),
            nesting(final(self)@) == step(nesting(old(self)@), ev_if(condition@, seq![t1@], taken)),
    {
        let terms = one_term(t1);
        self.push(SyntaxEvent::BeginIf { condition: String::from_str(condition), terms, taken });
    }

    pub fn begin_if2(&mut self, condition: &str, t1: Term, t2: Term, taken: bool)
        ensures
            final(self)@ == old(self)@.push(ev_if(condition@, seq![t1@, t2@], taken)),
            nesting(final(self)@) == step(nesting(old(self)@), ev_if(condition@, seq![t1@, t2@], taken)),
    {
        let terms = two_terms(t1, t2);
        self.push(SyntaxEvent::BeginIf { condition: String::from_str(condition), terms, taken });
    }

    pub fn begin_if3(&mut self, condition: &str, t1: Term, t2: Term, t3: Term, taken: bool)
        ensures
            final(self)@ == old(self)@.push(ev_if(condition@, seq![t1@, t2@, t3@], taken)),
            nesting(final(self)@) == step(nesting(old(self)@), ev_if(condition@, seq![t1@, t2@, t3@], taken)),
    {
        let terms = three_terms(t1, t2, t3);
        self.push(SyntaxEvent::BeginIf { condition: String::from_str(condition), terms, taken });
    }

    pub fn begin_else_if(&mut self, condition: &str, taken: bool)
        ensures
            final(self)@ == old(self)@.push(ev_else_if(condition@, seq![], taken)),
            nesting(final(self)@) == step(nesting(old(self)@), ev_else_if(condition@, seq![], taken)),
    {
        let terms = no_terms();
        self.push(
            SyntaxEvent::BeginElseIf { condition: String::from_str(condition), terms, taken },
        );
    }

    pub fn begin_else_if1(&mut self, condition: &str, t1: Term, taken: bool)
        ensures
            final(self)@ == old(self)@.push(ev_else_if(condition@, seq![t1@], taken)),
            nesting(final(self)@) == step(nesting(old(self)@), ev_else_if(condition@, seq![t1@], taken)),
    {
        let terms = one_term(t1);
        self.push(
            SyntaxEvent::BeginElseIf { condition: String::from_str(condition), terms, taken },
        );
    }

    pub fn begin_else(&mut self, taken: bool)
        ensures
            final(self)@ == old(self)@.push(ev_else(taken)),
            nesting(final(self)@) == step(nesting(old(self)@), ev_else(taken)),
    {
        self.push(SyntaxEvent::BeginElse { taken });
    }

    pub fn end_if(&mut self)
        ensures
            final(self)@ == old(self)@.push(ev_end_if()),
            nesting(final(self)@) == step(nesting(old(self)@), ev_end_if()),
    {
        self.push(SyntaxEvent::EndIf);
    }

    pub fn begin_for(&mut self, header: &str)
        ensures
            final(self)@ == old(self)@.push(ev_for(header@, seq![])),
            nesting(final(self)@) == step(nesting(old(self)@), ev_for(header@, seq![])),
    {
        let terms = no_terms();
        self.push(SyntaxEvent::BeginFor { header: String::from_str(header), terms });
    }

    pub fn begin_for_named(&mut self, header: String)
        ensures
            final(self)@ == old(self)@.push(ev_for(header@, seq![])),
            nesting(final(self)@) == step(nesting(old(self)@), ev_for(header@, seq![])),
    {
        let terms = no_terms();
        self.push(SyntaxEvent::BeginFor { header, terms });
    }

    pub fn begin_for1(&mut self, header: &str, t1: Term)
        ensures
            final(self)@ == old(self)@.push(ev_for(header@, seq![t1@])),
            nesting(final(self)@) == step(nesting(old(self)@), ev_for(header@, seq![t1@])),
    {
        let terms = one_term(t1);
        self.push(SyntaxEvent::BeginFor { header: String::from_str(header), terms });
    }

    pub fn begin_for1_named(&mut self, header: String, t1: Term)
        ensures
            final(self)@ == old(self)@.push(ev_for(header@, seq![t1@])),
            nesting(final(self)@) == step(nesting(old(self)@), ev_for(header@, seq![t1@])),
    {
        let terms = one_term(t1);
        self.push(SyntaxEvent::BeginFor { header, terms });
    }

    pub fn for_iteration(&mut self, variable: &str, index: u64)
        ensures
            final(self)@ == old(self)@.push(ev_iter(variable@, index as nat)),
            nesting(final(self)@) == step(nesting(old(self)@), ev_iter(variable@, index as nat)),
    {
        self.push(SyntaxEvent::ForIteration { variable: String::from_str(variable), index });
    }

    pub fn end_for(&mut self)
        ensures
            final(self)@ == old(self)@.push(ev_end_for()),
            nesting(final(self)@) == step(nesting(old(self)@), ev_end_for()),
    {
        self.push(SyntaxEvent::EndFor);
    }

    pub fn begin_do_while(&mut self)
        ensures
            final(self)@ == old(self)@.push(ev_do()),
            nesting(final(self)@) == step(nesting(old(self)@), ev_do()),
    {
        self.push(SyntaxEvent::BeginDoWhile);
    }

    pub fn do_while_iteration(&mut self, index: u64)
        ensures
            final(self)@ == old(self)@.push(ev_do_iter(index as nat)),
            nesting(final(self)@) == step(nesting(old(self)@), ev_do_iter(index as nat)),
    {
        self.push(SyntaxEvent::DoWhileIteration { index });
    }

    pub fn end_do_while(&mut self, condition: &str)
        ensures
            final(self)@ == old(self)@.push(ev_end_do(condition@)),
            nesting(final(self)@) == step(nesting(old(self)@), ev_end_do(condition@)),
    {
        self.push(SyntaxEvent::EndDoWhile { condition: String::from_str(condition) });
    }

    pub fn comment(&mut self, text: String)
        ensures
            final(self)@ == old(self)@.push(ev_comment(text@)),
            nesting(final(self)@) == nesting(old(self)@),
    {
        self.push(SyntaxEvent::Comment { text });
    }
}

} // verus!
