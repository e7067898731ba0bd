//! Scaling lists, `scaling_list()` (7.3.2.1.1.1), shared by the sequence and
//! picture parameter sets.
//!
//! A scaling list is held as its `nextScale` values, one per position: the
//! value of `nextScale` after the position was read. A `0` at position `j`
//! means that the list froze there (every later position holds `0` too); a
//! `0` at position 0 means that the default scaling matrix is used.
use vstd::prelude::*;
use crate::syntax::{
    ev_begin_params, ev_end, ev_end_for, ev_end_if, ev_flag, ev_for, ev_if, ev_iter, ev_se,
    in_block, nesting, tv, Block, EventView, FieldValue, SyntaxLog, Term,
};
use crate::text::{around, dec, idx1, indexed1, number_between, push_decimal};

verus! {

/// `lastScale` before position `j`: 8 at the start, else the previous value.
pub open spec fn prev_scale(ns: Seq<u8>, j: int) -> int {
    if j == 0 {
        8
    } else {
        ns[j - 1] as int
    }
}

/// Brings a difference of two scale values into the range of `delta_scale`,
/// `-128..=127`, keeping it modulo 256.
pub open spec fn wrap_delta(x: int) -> int {
    if x > 127 {
        x - 256
    } else if x < -128 {
        x + 256
    } else {
        x
    }
}

/// The `delta_scale` that takes `lastScale` to the value at position `j`.
pub open spec fn scaling_delta(ns: Seq<u8>, j: int) -> int {
    wrap_delta(ns[j] - prev_scale(ns, j))
}

/// Position `j` is read from the bitstream: the list has not frozen before it.
pub open spec fn reads(ns: Seq<u8>, j: int) -> bool {
    forall|k: int| 0 <= k < j ==> ns[k] != 0
}

/// The number of positions that carry a `delta_scale`: up to and including
/// the first `0`, or the whole list when it holds none.
pub open spec fn delta_count(ns: Seq<u8>, n: nat) -> bool {
    &&& n <= ns.len()
    &&& forall|j: int| 0 <= j < n ==> reads(ns, j)
    &&& n == ns.len() || (n >= 1 && ns[n - 1] == 0)
}

/// The decoding rule of `scaling_list()`:
/// `nextScale = (lastScale + delta_scale + 256) % 256`, and `lastScale`
/// takes the new value. Gives the `nextScale` after each delta.
pub open spec fn decode_scales(deltas: Seq<i32>, last: int) -> Seq<int>
    decreases deltas.len(),
{
    if deltas.len() == 0 {
        Seq::empty()
    } else {
        let next = (last + deltas[0] + 256) % 256;
        seq![next] + decode_scales(deltas.drop_first(), next)
    }
}

proof fn lemma_wrap_delta(target: int, last: int)
    requires
        0 <= target <= 255,
        0 <= last <= 255,
    ensures
        -128 <= wrap_delta(target - last) <= 127,
        (last + wrap_delta(target - last) + 256) % 256 == target,
{
}

/// Computes the `delta_scale` values that reproduce the given scaling list:
/// one per position, up to and including the position where the list froze.
pub fn compute_scaling_deltas(values: &[u8]) -> (deltas: Vec<i32>)
    ensures
        delta_count(values@, deltas.len() as nat),
        forall|j: int| 0 <= j < deltas.len() ==> deltas[j] == scaling_delta(values@, j),
        forall|j: int| 0 <= j < deltas.len() ==> -128 <= #[trigger] deltas[j] <= 127,
        forall|j: int|
            0 <= j < deltas.len() ==> (prev_scale(values@, j) + #[trigger] deltas[j] + 256) % 256
                == values@[j],
{
    let mut deltas: Vec<i32> = Vec::new();
    let mut last_scale: i32 = 8;
    let mut j: usize = 0;
    while j < values.len()
        invariant
            j <= values.len(),
            deltas.len() == j,
            reads(values@, j as int),
            last_scale == prev_scale(values@, j as int),
            1 <= last_scale <= 255,
            forall|k: int| 0 <= k < j ==> deltas[k] == scaling_delta(values@, k),
            forall|k: int| 0 <= k < j ==> -128 <= #[trigger] deltas[k] <= 127,
            forall|k: int|
                0 <= k < j ==> (prev_scale(values@, k) + #[trigger] deltas[k] + 256) % 256
                    == values@[k],
        decreases values.len() - j,
    {
        let target = values[j] as i32;
        let mut delta = target - last_scale;
        // Normalize to [-128, 127]
        if delta > 127 {
            delta = delta - 256;
        }
        if delta < -128 {
            delta = delta + 256;
        }
        proof {
            lemma_wrap_delta(target as int, last_scale as int);
        }
        assert(delta == scaling_delta(values@, j as int));
        deltas.push(delta);
        let next_scale = (last_scale + delta + 256) % 256;
        j = j + 1;
        if next_scale == 0 {
            assert(delta_count(values@, deltas.len() as nat));
            return deltas;
        }
        last_scale = next_scale;
        assert(reads(values@, j as int)) by {
            assert forall|k: int| 0 <= k < j implies values@[k] != 0 by {
                if k < j - 1 {
                    assert(reads(values@, (j - 1) as int));
                }
            }
        }
    }
    assert forall|k: int| 0 <= k < deltas.len() implies reads(values@, k) by {
        assert(reads(values@, j as int));
    }
    deltas
}

proof fn lemma_decode_from(ns: Seq<u8>, deltas: Seq<i32>, start: int)
    requires
        0 <= start <= deltas.len(),
        deltas.len() <= ns.len(),
        forall|j: int|
            0 <= j < deltas.len() ==> (prev_scale(ns, j) + #[trigger] deltas[j] + 256) % 256
                == ns[j],
    ensures
        decode_scales(deltas.skip(start), prev_scale(ns, start)) =~= ns.subrange(
            start,
            deltas.len() as int,
        ).map_values(|b: u8| b as int),
    decreases deltas.len() - start,
{
    if start < deltas.len() {
        lemma_decode_from(ns, deltas, start + 1);
        let rest = deltas.skip(start);
        assert(rest.drop_first() =~= deltas.skip(start + 1));
        assert(rest[0] == deltas[start]);
        let next = (prev_scale(ns, start) + rest[0] + 256) % 256;
        assert(next == ns[start] as int);
        assert(prev_scale(ns, start + 1) == ns[start] as int);
    }
}

/// Decoding the computed deltas with the rule of `scaling_list()` gives back
/// the list, position by position, up to the point where it froze.
pub proof fn lemma_scaling_deltas_reproduce_list(values: Seq<u8>, deltas: Seq<i32>)
    requires
        delta_count(values, deltas.len() as nat),
        forall|j: int| 0 <= j < deltas.len() ==> deltas[j] == scaling_delta(values, j),
    ensures
        decode_scales(deltas, 8) == values.take(deltas.len() as int).map_values(|b: u8| b as int),
{
    assert forall|j: int|
        0 <= j < deltas.len() implies (prev_scale(values, j) + #[trigger] deltas[j] + 256) % 256
        == values[j] by {
        lemma_wrap_delta(values[j] as int, prev_scale(values, j));
        if j > 0 {
            assert(reads(values, j));
            assert(values[j - 1] != 0);
        }
    }
    lemma_decode_from(values, deltas, 0);
    assert(deltas.skip(0) =~= deltas);
    assert(values.subrange(0, deltas.len() as int) =~= values.take(deltas.len() as int));
}


/// `nextScale` before position `j` is read: `lastScale` while the list has
/// not frozen, 0 after.
pub open spec fn next_before(ns: Seq<u8>, j: int) -> int {
    if reads(ns, j) {
        prev_scale(ns, j)
    } else {
        0
    }
}

/// The loop header `j = 0; j < size; j++`.
pub open spec fn scaling_loop_header(size: nat) -> Seq<char> {
    around("j = 0; j < "@, size, "; j++"@)
}

/// The events of position `j` of a scaling list that does not use the default.
pub open spec fn scaling_iter_events(ns: Seq<u8>, j: int) -> Seq<EventView> {
    let next = next_before(ns, j);
    if reads(ns, j) {
        seq![
            ev_iter("j"@, j as nat),
            ev_if("nextScale != 0"@, seq![tv("nextScale"@, FieldValue::Signed(next as i64))], true),
            ev_se("delta_scale"@, scaling_delta(ns, j) as i64),
            ev_end_if(),
        ]
    } else {
        seq![
            ev_iter("j"@, j as nat),
            ev_if("nextScale != 0"@, seq![tv("nextScale"@, FieldValue::Signed(0i64))], false),
            ev_end_if(),
        ]
    }
}

/// The events of the first `n` positions.
pub open spec fn scaling_iters(ns: Seq<u8>, n: nat) -> Seq<EventView>
    decreases n,
{
    if n == 0 {
        Seq::empty()
    } else {
        scaling_iters(ns, (n - 1) as nat) + scaling_iter_events(ns, n - 1)
    }
}

/// The events of the body of `scaling_list()`. A list whose first value is 0
/// signals the default matrix with a single `delta_scale` of -8.
pub open spec fn scaling_body_events(ns: Seq<u8>, size: nat) -> Seq<EventView> {
    if ns.len() > 0 && ns[0] == 0 {
        seq![
            ev_for(scaling_loop_header(size), seq![]),
            ev_iter("j"@, 0),
            ev_if("nextScale != 0"@, seq![], true),
            EventView::VariableLengthField {
                name: "delta_scale"@,
                descriptor: "se(v)"@,
                value: FieldValue::Signed(-8i64),
                comment: Some("useDefaultScalingMatrixFlag = 1"@),
            },
            ev_end_if(),
            ev_end_for(),
        ]
    } else {
        seq![ev_for(scaling_loop_header(size), seq![])] + scaling_iters(ns, ns.len()) + seq![
            ev_end_for(),
        ]
    }
}

/// The parameters `ScalingList4x4[i], 16, UseDefaultScalingMatrix4x4Flag[i]`.
pub open spec fn params_4x4(i: nat) -> Seq<char> {
    around("ScalingList4x4["@, i, "], 16, UseDefaultScalingMatrix4x4Flag["@) + dec(i) + "]"@
}

/// The parameters `ScalingList8x8[i], 64, UseDefaultScalingMatrix8x8Flag[i]`.
pub open spec fn params_8x8(i: nat) -> Seq<char> {
    around("ScalingList8x8["@, i, "], 64, UseDefaultScalingMatrix8x8Flag["@) + dec(i) + "]"@
}

/// The events of `scaling_list(ScalingList4x4[index], ...)`.
pub open spec fn scaling_list_4x4_events(ns: Seq<u8>, index: nat) -> Seq<EventView> {
    seq![ev_begin_params("scaling_list"@, params_4x4(index))] + scaling_body_events(ns, 16) + seq![
        ev_end(),
    ]
}

/// The events of `scaling_list(ScalingList8x8[index - 6], ...)`, for the
/// overall list index `index` (6 and up).
pub open spec fn scaling_list_8x8_events(ns: Seq<u8>, index: nat) -> Seq<EventView> {
    seq![ev_begin_params("scaling_list"@, params_8x8((index - 6) as nat))] + scaling_body_events(
        ns,
        64,
    ) + seq![ev_end()]
}

proof fn lemma_reads_step(ns: Seq<u8>, j: int)
    requires
        0 <= j < ns.len(),
        reads(ns, j),
        ns[j] != 0,
    ensures
        reads(ns, j + 1),
{
    assert forall|k: int| 0 <= k < j + 1 implies ns[k] != 0 by {
        if k < j {
            assert(reads(ns, j));
        }
    }
}

/// Position `j` of a scaling list that is read throughout: `nextScale` is the
/// previous value (8 at the first position), the branch is taken, and
/// `delta_scale` is `deltas[j]`.
pub open spec fn read_position_events(ns: Seq<u8>, deltas: Seq<i32>, j: int) -> Seq<EventView> {
    seq![
        ev_iter("j"@, j as nat),
        ev_if(
            "nextScale != 0"@,
            seq![tv("nextScale"@, FieldValue::Signed(prev_scale(ns, j) as i64))],
            true,
        ),
        ev_se("delta_scale"@, deltas[j] as i64),
        ev_end_if(),
    ]
}

/// The first `n` positions of a scaling list that is read throughout.
pub open spec fn read_positions(ns: Seq<u8>, deltas: Seq<i32>, n: nat) -> Seq<EventView>
    decreases n,
{
    if n == 0 {
        Seq::empty()
    } else {
        read_positions(ns, deltas, (n - 1) as nat) + read_position_events(ns, deltas, n - 1)
    }
}

proof fn lemma_read_positions(ns: Seq<u8>, deltas: Seq<i32>, n: nat)
    requires
        n <= ns.len(),
        n <= deltas.len(),
        forall|j: int| 0 <= j < ns.len() ==> ns[j] != 0,
        forall|j: int| 0 <= j < deltas.len() ==> deltas[j] == scaling_delta(ns, j),
    ensures
        scaling_iters(ns, n) == read_positions(ns, deltas, n),
    decreases n,
{
    if n > 0 {
        lemma_read_positions(ns, deltas, (n - 1) as nat);
        let j = n - 1;
        assert(reads(ns, j));
        assert(scaling_iter_events(ns, j) =~= read_position_events(ns, deltas, j));
    }
}

/// For a scaling list that holds no 0 (it never freezes and does not use the
/// default matrix), the body of `scaling_list()` is its loop in which every
/// position `j` is read: `nextScale` shows the previous value (8 at the first
/// position) and `delta_scale` the `j`-th delta that
/// [`compute_scaling_deltas`] gives for the list.
pub proof fn lemma_scaling_list_body_of_full_list(ns: Seq<u8>, deltas: Seq<i32>, size: nat)
    requires
        forall|j: int| 0 <= j < ns.len() ==> ns[j] != 0,
        delta_count(ns, deltas.len() as nat),
        forall|j: int| 0 <= j < deltas.len() ==> deltas[j] == scaling_delta(ns, j),
    ensures
        deltas.len() == ns.len(),
        scaling_body_events(ns, size) == seq![ev_for(scaling_loop_header(size), seq![])]
            + read_positions(ns, deltas, ns.len()) + seq![ev_end_for()],
{
    if deltas.len() < ns.len() {
        assert(ns[deltas.len() - 1] == 0);
    }
    lemma_read_positions(ns, deltas, ns.len());
}

pub fn describe_scaling_list_body(log: &mut SyntaxLog, ns: &Vec<u8>, size: u64)
    ensures
        final(log)@ == old(log)@ + scaling_body_events(ns@, size as nat),
        nesting(final(log)@) == nesting(old(log)@),
{
    let header = number_between("j = 0; j < ", size, "; j++");
    if ns.len() > 0 && ns[0] == 0 {
        log.begin_for_named(header);
        log.for_iteration("j", 0);
        log.begin_if("nextScale != 0", true);
        log.variable_field(
            "delta_scale",
            "se(v)",
            FieldValue::Signed(-8),
            Some(String::from_str("useDefaultScalingMatrixFlag = 1")),
        );
        log.end_if();
        log.end_for();
        assert(final(log)@ =~= old(log)@ + scaling_body_events(ns@, size as nat));
        return ;
    }
    let deltas = compute_scaling_deltas(ns.as_slice());
    log.begin_for_named(header);
    let ghost start = log@;
    let mut next_scale: i32 = 8;
    let mut j: usize = 0;
    while j < ns.len()
        invariant
            nesting(log@) == nesting(start),
            in_block(start, Block::Loop),
            j <= ns.len(),
            delta_count(ns@, deltas.len() as nat),
            forall|k: int| 0 <= k < deltas.len() ==> deltas[k] == scaling_delta(ns@, k),
            forall|k: int| 0 <= k < deltas.len() ==> -128 <= #[trigger] deltas[k] <= 127,
            forall|k: int|
                0 <= k < deltas.len() ==> (prev_scale(ns@, k) + #[trigger] deltas[k] + 256) % 256
                    == ns@[k],
            next_scale == next_before(ns@, j as int),
            log@ == start + scaling_iters(ns@, j as nat),
        decreases ns.len() - j,
    {
        let ghost before = log@;
        log.for_iteration("j", j as u64);
        let reading = next_scale != 0;
        assert(reading == reads(ns@, j as int)) by {
            if reads(ns@, j as int) && j > 0 {
                assert(ns@[j - 1] != 0);
            }
        }
        log.begin_if1("nextScale != 0", Term::new("nextScale", FieldValue::Signed(next_scale as i64)), reading);
        if reading {
            assert(j < deltas.len()) by {
                if j >= deltas.len() {
                    assert(ns@[deltas.len() - 1] == 0);
                }
            }
            let delta = deltas[j];
            log.se("delta_scale", delta as i64);
            let last_scale: i32 = if j == 0 { 8 } else { ns[j - 1] as i32 };
            next_scale = (last_scale + delta + 256) % 256;
            proof {
                if ns@[j as int] != 0 {
                    lemma_reads_step(ns@, j as int);
                }
            }
        }
        log.end_if();
        proof {
            assert(log@ =~= before + scaling_iter_events(ns@, j as int));
            vstd::seq_lib::lemma_concat_associative(start, scaling_iters(ns@, j as nat), scaling_iter_events(ns@, j as int));
        }
        j = j + 1;
    }
    log.end_for();
    assert(final(log)@ =~= old(log)@ + scaling_body_events(ns@, size as nat));
}

pub fn describe_scaling_list_4x4(log: &mut SyntaxLog, ns: &Vec<u8>, index: u32)
    ensures
        final(log)@ == old(log)@ + scaling_list_4x4_events(ns@, index as nat),
        nesting(final(log)@) == nesting(old(log)@),
{
    let mut params = number_between("ScalingList4x4[", index as u64, "], 16, UseDefaultScalingMatrix4x4Flag[");
    push_decimal(&mut params, index as u64);
    params.append("]");
    log.begin_element_params("scaling_list", params);
    describe_scaling_list_body(log, ns, 16);
    log.end_element();
    assert(final(log)@ =~= old(log)@ + scaling_list_4x4_events(ns@, index as nat));
}

pub fn describe_scaling_list_8x8(log: &mut SyntaxLog, ns: &Vec<u8>, index: u32)
    requires
        index >= 6,
    ensures
        final(log)@ == old(log)@ + scaling_list_8x8_events(ns@, index as nat),
        nesting(final(log)@) == nesting(old(log)@),
{
    let idx8 = index - 6;
    let mut params = number_between("ScalingList8x8[", idx8 as u64, "], 64, UseDefaultScalingMatrix8x8Flag[");
    push_decimal(&mut params, idx8 as u64);
    params.append("]");
    log.begin_element_params("scaling_list", params);
    describe_scaling_list_body(log, ns, 64);
    log.end_element();
    assert(final(log)@ =~= old(log)@ + scaling_list_8x8_events(ns@, index as nat));
}


/// The list at position `i`, if there is one and it is present.
pub open spec fn list_at(lists: Seq<Option<Vec<u8>>>, i: int) -> Option<Seq<u8>> {
    if 0 <= i < lists.len() {
        match lists[i] {
            Some(l) => Some(l@),
            None => None,
        }
    } else {
        None
    }
}

/// The list that iteration `i` of a scaling-matrix loop reads: 4x4 lists
/// first, then 8x8 lists.
pub open spec fn matrix_list(l4: Seq<Option<Vec<u8>>>, l8: Seq<Option<Vec<u8>>>, i: nat) -> Option<
    Seq<u8>,
> {
    if i < 6 {
        list_at(l4, i as int)
    } else {
        list_at(l8, i - 6)
    }
}

/// Iteration `i` of a scaling-matrix loop: the `*_scaling_list_present_flag[i]`
/// field and, when the list is present, its `scaling_list()`.
pub open spec fn matrix_item_events(
    prefix: Seq<char>,
    l4: Seq<Option<Vec<u8>>>,
    l8: Seq<Option<Vec<u8>>>,
    i: nat,
) -> Seq<EventView> {
    let name = idx1(prefix, i);
    let list = matrix_list(l4, l8, i);
    seq![ev_iter("i"@, i), ev_flag(name, list is Some), ev_if(name, seq![], list is Some)] + (
    match list {
        Some(ns) => if i < 6 {
            scaling_list_4x4_events(ns, i)
        } else {
            scaling_list_8x8_events(ns, i)
        },
        None => Seq::empty(),
    }) + seq![ev_end_if()]
}

pub open spec fn matrix_iters(
    prefix: Seq<char>,
    l4: Seq<Option<Vec<u8>>>,
    l8: Seq<Option<Vec<u8>>>,
    n: nat,
) -> Seq<EventView>
    decreases n,
{
    if n == 0 {
        Seq::empty()
    } else {
        matrix_iters(prefix, l4, l8, (n - 1) as nat) + matrix_item_events(
            prefix,
            l4,
            l8,
            (n - 1) as nat,
        )
    }
}

fn matrix_item(
    log: &mut SyntaxLog,
    prefix: &str,
    l4: &Vec<Option<Vec<u8>>>,
    l8: &Vec<Option<Vec<u8>>>,
    i: u32,
)
    requires
        in_block(old(log)@, Block::Loop),
    ensures
        final(log)@ == old(log)@ + matrix_item_events(prefix@, l4@, l8@, i as nat),
        nesting(final(log)@) == nesting(old(log)@),
{
    log.for_iteration("i", i as u64);
    let list: Option<&Vec<u8>> = if i < 6 {
        if (i as usize) < l4.len() {
            match &l4[i as usize] {
                Some(l) => Some(l),
                None => None,
            }
        } else {
            None
        }
    } else {
        let idx = (i - 6) as usize;
        if idx < l8.len() {
            match &l8[idx] {
                Some(l) => Some(l),
                None => None,
            }
        } else {
            None
        }
    };
    let present = list.is_some();
    log.flag_named(indexed1(prefix, i as u64), present);
    log.begin_if_named(indexed1(prefix, i as u64), present);
    if let Some(l) = list {
        if i < 6 {
            describe_scaling_list_4x4(log, l, i);
        } else {
            describe_scaling_list_8x8(log, l, i);
        }
    }
    log.end_if();
    assert(final(log)@ =~= old(log)@ + matrix_item_events(prefix@, l4@, l8@, i as nat));
}

/// Emits iterations `0..count` of a scaling-matrix loop.
pub fn describe_matrix_entries(
    log: &mut SyntaxLog,
    prefix: &str,
    l4: &Vec<Option<Vec<u8>>>,
    l8: &Vec<Option<Vec<u8>>>,
    count: u32,
)
    requires
        in_block(old(log)@, Block::Loop),
    ensures
        final(log)@ == old(log)@ + matrix_iters(prefix@, l4@, l8@, count as nat),
        nesting(final(log)@) == nesting(old(log)@),
{
    let ghost start = log@;
    let mut i: u32 = 0;
    assert(log@ =~= start + matrix_iters(prefix@, l4@, l8@, 0));
    while i < count
        invariant
            nesting(log@) == nesting(start),
            in_block(start, Block::Loop),
            i <= count,
            log@ == start + matrix_iters(prefix@, l4@, l8@, i as nat),
        decreases count - i,
    {
        matrix_item(log, prefix, l4, l8, i);
        proof {
            vstd::seq_lib::lemma_concat_associative(
                start,
                matrix_iters(prefix@, l4@, l8@, i as nat),
                matrix_item_events(prefix@, l4@, l8@, i as nat),
            );
        }
        i = i + 1;
    }
}

} // verus!
