use vstd::prelude::*;
use crate::bytes::{Endian, byte_at, encode, significance};
use crate::deferred::{Rule, value_of, value_within};
use crate::dump::{
    DumpSection, List, MiscStream, Stream, SynthMinidump, entry_slots, header_slots, location_slots, misc_fields, misc_flags,
};
use crate::format::{MD_HEADER_SIGNATURE, MD_MISCINFO_FLAGS1_PROCESS_ID};
use crate::section::{Section, Slot, closed_rules, contents_of, lit_slots, ref_slots, slot_value, spliced_rules};

verus! {

proof fn lemma_ref_slots_resolve(rules: Seq<Rule>, id: usize, w: nat, e: Endian, v: u64)
    requires
        value_of(rules, id as int) == Some(v),
        w <= 8,
    ensures
        forall|j: int| 0 <= j < w ==> #[trigger] slot_value(rules, ref_slots(id, w, e)[j]) == Some(encode(v as nat, w, e)[j]),
{
    assert forall|j: int| 0 <= j < w implies #[trigger] slot_value(rules, ref_slots(id, w, e)[j]) == Some(encode(v as nat, w, e)[j]) by {
        let sig = significance(e, w, j as nat);
        assert(sig < w);
        assert(ref_slots(id, w, e)[j] == Slot::Ref(id, sig as u8));
    }
}

proof fn lemma_byte_of_zero(i: nat)
    ensures
        byte_at(0, i) == 0,
    decreases i,
{
    if i > 0 {
        lemma_byte_of_zero((i - 1) as nat);
    }
}

/// The seven deferred values of the writer `d` are distinct entries of
/// `rules`; the body starts at 0 and the stream count, the directory offset
/// and the directory's start and size are still unbound.
pub open spec fn frame_ok(d: SynthMinidump, rules: Seq<Rule>) -> bool {
    let ids = seq![
        d.flags.id,
        d.stream_count_label.id,
        d.stream_directory_rva.id,
        d.section.start.id,
        d.section.final_size.id,
        d.stream_directory.start.id,
        d.stream_directory.final_size.id,
    ];
    &&& forall|i: int, j: int| 0 <= i < j < 7 ==> ids[i] != ids[j]
    &&& forall|i: int| 0 <= i < 7 ==> ids[i] < rules.len()
    &&& rules[d.section.start.id as int] == Rule::Const(0)
    &&& rules[d.stream_count_label.id as int] == Rule::Unbound
    &&& rules[d.stream_directory_rva.id as int] == Rule::Unbound
    &&& rules[d.stream_directory.start.id as int] == Rule::Unbound
    &&& rules[d.stream_directory.final_size.id as int] == Rule::Unbound
}

/// `id` is not one of the writer's own deferred values.
pub open spec fn outside_frame(d: SynthMinidump, id: usize) -> bool {
    &&& id != d.flags.id
    &&& id != d.stream_count_label.id
    &&& id != d.stream_directory_rva.id
    &&& id != d.section.start.id
    &&& id != d.section.final_size.id
    &&& id != d.stream_directory.start.id
    &&& id != d.stream_directory.final_size.id
}

proof fn lemma_frame_ids(d: SynthMinidump, rules: Seq<Rule>)
    requires
        frame_ok(d, rules),
    ensures
        d.flags.id != d.stream_count_label.id,
        d.flags.id != d.stream_directory_rva.id,
        d.flags.id != d.section.start.id,
        d.flags.id != d.section.final_size.id,
        d.flags.id != d.stream_directory.start.id,
        d.flags.id != d.stream_directory.final_size.id,
        d.stream_count_label.id != d.stream_directory_rva.id,
        d.stream_count_label.id != d.section.start.id,
        d.stream_count_label.id != d.section.final_size.id,
        d.stream_count_label.id != d.stream_directory.start.id,
        d.stream_count_label.id != d.stream_directory.final_size.id,
        d.stream_directory_rva.id != d.section.start.id,
        d.stream_directory_rva.id != d.section.final_size.id,
        d.stream_directory_rva.id != d.stream_directory.start.id,
        d.stream_directory_rva.id != d.stream_directory.final_size.id,
        d.section.start.id != d.section.final_size.id,
        d.section.start.id != d.stream_directory.start.id,
        d.section.start.id != d.stream_directory.final_size.id,
        d.section.final_size.id != d.stream_directory.start.id,
        d.section.final_size.id != d.stream_directory.final_size.id,
        d.stream_directory.start.id != d.stream_directory.final_size.id,
        d.flags.id < rules.len(),
        d.stream_count_label.id < rules.len(),
        d.stream_directory_rva.id < rules.len(),
        d.section.start.id < rules.len(),
        d.section.final_size.id < rules.len(),
        d.stream_directory.start.id < rules.len(),
        d.stream_directory.final_size.id < rules.len(),
{
    let ids = seq![
        d.flags.id,
        d.stream_count_label.id,
        d.stream_directory_rva.id,
        d.section.start.id,
        d.section.final_size.id,
        d.stream_directory.start.id,
        d.stream_directory.final_size.id,
    ];
    assert(ids[0] != ids[1] && ids[0] != ids[2] && ids[0] != ids[3] && ids[0] != ids[4] && ids[0] != ids[5] && ids[0] != ids[6]);
    assert(ids[1] != ids[2] && ids[1] != ids[3] && ids[1] != ids[4] && ids[1] != ids[5] && ids[1] != ids[6]);
    assert(ids[2] != ids[3] && ids[2] != ids[4] && ids[2] != ids[5] && ids[2] != ids[6]);
    assert(ids[3] != ids[4] && ids[3] != ids[5] && ids[3] != ids[6]);
    assert(ids[4] != ids[5] && ids[4] != ids[6]);
    assert(ids[5] != ids[6]);
    assert(ids[0] < rules.len() && ids[1] < rules.len() && ids[2] < rules.len() && ids[3] < rules.len());
    assert(ids[4] < rules.len() && ids[5] < rules.len() && ids[6] < rules.len());
}

/// The writer binds only its own deferred values when it finishes: every
/// other entry of the table stays as it was.
proof fn lemma_final_rules_outside(d: SynthMinidump, rules: Seq<Rule>, id: usize)
    requires
        frame_ok(d, rules),
        outside_frame(d, id),
        id < rules.len(),
    ensures
        d.final_rules(rules)[id as int] == rules[id as int],
        d.final_rules(rules).len() == rules.len(),
{
}

/// With no stream added, the stream count resolves to 0, the directory is
/// empty and its offset resolves to the end of the body.
pub proof fn law_no_streams(d: SynthMinidump, rules: Seq<Rule>)
    requires
        frame_ok(d, rules),
        d.stream_count == 0,
        d.stream_directory.slots@.len() == 0,
    ensures
        value_of(d.final_rules(rules), d.stream_count_label.id as int) == Some(0u64),
        value_of(d.final_rules(rules), d.stream_directory_rva.id as int) == Some(d.section.slots@.len() as u64),
        d.finished_slots() == d.section.slots@,
        d.finished(rules) matches Some(b) ==> b.len() == d.section.slots@.len(),
{
    lemma_frame_ids(d, rules);
    assert(d.finished_slots() == d.section.slots@);
    let f = d.final_rules(rules);
    assert(f[d.section.start.id as int] == Rule::Const(0));
    assert(f[d.stream_directory_rva.id as int] == Rule::Offset(d.section.start.id, d.section.slots@.len() as u64));
    assert(f[d.stream_count_label.id as int] == Rule::Const(0));
    assert(value_within(f, d.section.start.id as int, (f.len() - 1) as nat) == Some(0u64));
}

/// Finishing sets the flags to 0 when they were never set.
pub proof fn law_flags_default_to_zero(d: SynthMinidump, rules: Seq<Rule>)
    requires
        frame_ok(d, rules),
        rules[d.flags.id as int] == Rule::Unbound,
    ensures
        value_of(d.final_rules(rules), d.flags.id as int) == Some(0u64),
{
    lemma_frame_ids(d, rules);
}

/// A flags value that was set is kept when the dump is finished.
pub proof fn law_flags_kept(d: SynthMinidump, rules: Seq<Rule>, f: u64)
    requires
        frame_ok(d, rules),
        rules[d.flags.id as int] == Rule::Const(f),
    ensures
        value_of(d.final_rules(rules), d.flags.id as int) == Some(f),
{
    lemma_frame_ids(d, rules);
}

/// Any other deferred value that is still unbound when the dump is finished,
/// and that a byte of the body refers to, makes `finish` fail.
pub proof fn law_other_unbound_value_fails(d: SynthMinidump, rules: Seq<Rule>, k: int)
    requires
        frame_ok(d, rules),
        0 <= k < d.section.slots@.len(),
        d.section.slots@[k] matches Slot::Ref(id, _) && outside_frame(d, id) && id < rules.len()
            && rules[id as int] == Rule::Unbound,
    ensures
        d.finished(rules) is None,
{
    lemma_frame_ids(d, rules);
    let f = d.final_rules(rules);
    let slots = d.finished_slots();
    if let Slot::Ref(id, _) = d.section.slots@[k] {
        lemma_final_rules_outside(d, rules, id);
    }
    assert(slots[k] == d.section.slots@[k]);
    assert(slot_value(f, slots[k]) is None);
    assert(!(forall|i: int| 0 <= i < slots.len() ==> (#[trigger] slot_value(f, slots[i])).is_some()));
}

/// A finished header that nothing was added to holds the signature in its
/// first four bytes and the flags in its last eight, in the writer's byte order.
pub proof fn law_header_signature_and_flags(d: SynthMinidump, before: Seq<Rule>, f: u64)
    requires
        d.fresh(before.len()),
    ensures
        ({
            let rules = before + seq![Rule::Const(f), Rule::Unbound, Rule::Unbound, Rule::Const(0), Rule::Unbound, Rule::Unbound, Rule::Unbound];
            &&& d.finished(rules) is Some
            &&& d.finished(rules).unwrap().len() == 32
            &&& d.finished(rules).unwrap().subrange(0, 4) == encode(MD_HEADER_SIGNATURE as nat, 4, d.section.endian)
            &&& d.finished(rules).unwrap().subrange(24, 32) == encode(f as nat, 8, d.section.endian)
        }),
{
    let n: int = before.len() as int;
    let e = d.section.endian;
    let rules = before + seq![Rule::Const(f), Rule::Unbound, Rule::Unbound, Rule::Const(0), Rule::Unbound, Rule::Unbound, Rule::Unbound];
    let slots = d.finished_slots();
    assert(slots == header_slots(e, (n + 1) as usize, (n + 2) as usize, n as usize));
    let fr = d.final_rules(rules);
    assert(fr[n] == Rule::Const(f));
    assert(fr[n + 1] == Rule::Const(0));
    assert(fr[n + 2] == Rule::Offset((n + 3) as usize, 32));
    assert(fr[n + 3] == Rule::Const(0));
    assert(fr.len() == n + 7);
    assert(value_within(fr, n + 3, (fr.len() - 1) as nat) == Some(0u64));
    assert(value_of(fr, n) == Some(f));
    assert(value_of(fr, n + 1) == Some(0u64));
    assert(value_of(fr, n + 2) == Some(32u64));
    lemma_ref_slots_resolve(fr, (n + 1) as usize, 4, e, 0);
    lemma_ref_slots_resolve(fr, (n + 2) as usize, 4, e, 32);
    lemma_ref_slots_resolve(fr, n as usize, 8, e, f);
    assert(slots.len() == 32);
    assert forall|k: int| 0 <= k < slots.len() implies (#[trigger] slot_value(fr, slots[k])).is_some() by {
        if 8 <= k < 12 {
            assert(slots[k] == ref_slots((n + 1) as usize, 4, e)[k - 8]);
        } else if 12 <= k < 16 {
            assert(slots[k] == ref_slots((n + 2) as usize, 4, e)[k - 12]);
        } else if 24 <= k {
            assert(slots[k] == ref_slots(n as usize, 8, e)[k - 24]);
        }
    }
    let b = d.finished(rules).unwrap();
    assert forall|k: int| 0 <= k < 4 implies b.subrange(0, 4)[k] == encode(MD_HEADER_SIGNATURE as nat, 4, e)[k] by {
        assert(slots[k] == lit_slots(encode(MD_HEADER_SIGNATURE as nat, 4, e))[k]);
    }
    assert forall|k: int| 0 <= k < 8 implies b.subrange(24, 32)[k] == encode(f as nat, 8, e)[k] by {
        assert(slots[24 + k] == ref_slots(n as usize, 8, e)[k]);
    }
    assert(b.subrange(0, 4) == encode(MD_HEADER_SIGNATURE as nat, 4, e));
    assert(b.subrange(24, 32) == encode(f as nat, 8, e));
}

/// Citing a unit of size `size` at offset `offset` into an empty section
/// yields exactly eight bytes: the size in four bytes, then the offset in
/// four bytes, in the section's byte order.
pub proof fn law_cite_location<U: DumpSection>(u: U, s: Section, c: Section, rules: Seq<Rule>, size: u64, offset: u64)
    requires
        s.slots@.len() == 0,
        c.slots@ == s.slots@ + location_slots(u.size_view().id, u.start_view().id, s.endian),
        c.endian == s.endian,
        c.start == s.start,
        c.final_size == s.final_size,
        value_of(closed_rules(rules, c.start, c.final_size, 8), u.size_view().id as int) == Some(size),
        value_of(closed_rules(rules, c.start, c.final_size, 8), u.start_view().id as int) == Some(offset),
    ensures
        c.contents(rules) == Some(encode(size as nat, 4, s.endian) + encode(offset as nat, 4, s.endian)),
{
    let e = s.endian;
    let cr = closed_rules(rules, c.start, c.final_size, 8);
    let want = encode(size as nat, 4, e) + encode(offset as nat, 4, e);
    lemma_ref_slots_resolve(cr, u.size_view().id, 4, e, size);
    lemma_ref_slots_resolve(cr, u.start_view().id, 4, e, offset);
    assert(c.slots@.len() == 8);
    assert forall|k: int| 0 <= k < 8 implies #[trigger] slot_value(cr, c.slots@[k]) == Some(want[k]) by {
        if k < 4 {
            assert(c.slots@[k] == ref_slots(u.size_view().id, 4, e)[k]);
        } else {
            assert(c.slots@[k] == ref_slots(u.start_view().id, 4, e)[k - 4]);
        }
    }
    assert(c.contents(rules) == Some(want));
}

/// Citing a unit whose size is still unbound, and is none of the target's
/// own deferred values, leaves the target unable to finish.
pub proof fn law_cite_unbound_fails<U: DumpSection>(u: U, s: Section, c: Section, rules: Seq<Rule>)
    requires
        c.slots@ == s.slots@ + location_slots(u.size_view().id, u.start_view().id, s.endian),
        c.start == s.start,
        c.final_size == s.final_size,
        u.size_view().id < rules.len(),
        rules[u.size_view().id as int] == Rule::Unbound,
        u.size_view() != c.start,
        u.size_view() != c.final_size,
    ensures
        c.contents(rules) is None,
{
    let cr = closed_rules(rules, c.start, c.final_size, c.slots@.len());
    let k = s.slots@.len() as int;
    assert(c.slots@[k] == ref_slots(u.size_view().id, 4, s.endian)[0]);
    assert(cr[u.size_view().id as int] == Rule::Unbound);
    assert(slot_value(cr, c.slots@[k]) is None);
    assert(!(forall|i: int| 0 <= i < c.slots@.len() ==> (#[trigger] slot_value(cr, c.slots@[i])).is_some()));
}

/// A miscellaneous information record with only the process id set has
/// exactly the process id bit in its flags, the id in the id field, and
/// zero in every byte of the process times.
pub proof fn law_misc_process_id_only(m: MiscStream, pid: u32)
    requires
        m.process_id == Some(pid),
        m.process_create_time is None,
    ensures
        misc_flags(m.process_id, m.process_create_time) == MD_MISCINFO_FLAGS1_PROCESS_ID,
        misc_fields(m.process_id, m.process_create_time, m.section.endian).subrange(4, 8)
            == encode(pid as nat, 4, m.section.endian),
        forall|k: int| 8 <= k < 20 ==> #[trigger] misc_fields(m.process_id, m.process_create_time, m.section.endian)[k] == 0,
{
    let e = m.section.endian;
    let f = misc_fields(m.process_id, m.process_create_time, e);
    assert(f.subrange(4, 8) == encode(pid as nat, 4, e));
    assert forall|k: int| 8 <= k < 20 implies #[trigger] f[k] == 0 by {
        let j = (k - 8) % 4;
        assert(encode(0, 4, e)[j] == byte_at(0, significance(e, 4, j as nat)));
        lemma_byte_of_zero(significance(e, 4, j as nat));
    }
}

/// An empty list becomes a four-byte zero count and nothing else.
pub proof fn law_empty_list<T: DumpSection>(l: List<T>, rules: Seq<Rule>)
    requires
        l.count == 0,
        l.section.slots@ == ref_slots(l.count_label.id, 4, l.section.endian),
        l.count_label.id < rules.len(),
        rules[l.count_label.id as int] == Rule::Unbound,
        l.count_label != l.section.start,
        l.count_label != l.section.final_size,
    ensures
        contents_of(closed_rules(l.rules_into(rules), l.section.start, l.section.final_size, 4), l.slots_view())
            == Some(encode(0, 4, l.section.endian)),
{
    let e = l.section.endian;
    let cr = closed_rules(l.rules_into(rules), l.section.start, l.section.final_size, 4);
    assert(cr[l.count_label.id as int] == Rule::Const(0));
    assert(value_of(cr, l.count_label.id as int) == Some(0u64));
    lemma_ref_slots_resolve(cr, l.count_label.id, 4, e, 0);
    let want = encode(0, 4, e);
    assert forall|k: int| 0 <= k < 4 implies #[trigger] slot_value(cr, l.slots_view()[k]) == Some(want[k]) by {}
    assert(contents_of(cr, l.slots_view()) == Some(want));
}

/// `d1` and `rules1` are `d0` and `rules0` after `add_stream` of `u`.
pub open spec fn stream_added<T: Stream>(d0: SynthMinidump, rules0: Seq<Rule>, u: T, d1: SynthMinidump, rules1: Seq<Rule>) -> bool {
    &&& d1.same_frame(d0)
    &&& d1.section.slots@ == d0.section.slots@ + u.slots_view()
    &&& d1.stream_directory.slots@ == d0.stream_directory.slots@ + entry_slots(
        u.type_tag(),
        u.size_view().id,
        u.start_view().id,
        d0.stream_directory.endian,
    )
    &&& d1.stream_directory.endian == d0.stream_directory.endian
    &&& d1.stream_directory.start == d0.stream_directory.start
    &&& d1.stream_directory.final_size == d0.stream_directory.final_size
    &&& d1.stream_count == d0.stream_count + 1
    &&& u.rules_into(rules0).len() == rules0.len()
    &&& rules1 == spliced_rules(
        u.rules_into(rules0),
        d0.section.start,
        d0.section.slots@.len() as u64,
        u.start_view(),
        u.size_view(),
        u.slots_view().len(),
    )
}

/// `u`'s start and size are unbound entries of `rules`, distinct from each
/// other and from the writer's own deferred values.
pub open spec fn placeable<T: Stream>(d: SynthMinidump, u: T, rules: Seq<Rule>) -> bool {
    &&& u.start_view().id < rules.len()
    &&& u.size_view().id < rules.len()
    &&& u.start_view() != u.size_view()
    &&& rules[u.start_view().id as int] == Rule::Unbound
    &&& rules[u.size_view().id as int] == Rule::Unbound
    &&& outside_frame(d, u.start_view().id)
    &&& outside_frame(d, u.size_view().id)
}

/// Adding a stream whose start and size are unbound binds them to where it
/// lands and to its length.
proof fn lemma_stream_placed<T: Stream>(d0: SynthMinidump, r0: Seq<Rule>, u: T, d1: SynthMinidump, r1: Seq<Rule>)
    requires
        stream_added(d0, r0, u, d1, r1),
        placeable(d0, u, u.rules_into(r0)),
    ensures
        r1[u.start_view().id as int] == Rule::Offset(d0.section.start.id, d0.section.slots@.len() as u64),
        r1[u.size_view().id as int] == Rule::Const(u.slots_view().len() as u64),
{
}

/// After two streams are added to a writer with none, the stream count
/// resolves to 2, the directory holds one entry per stream in the order
/// added, the streams' bytes follow each other in the body, and each entry's
/// offset and size resolve to where the stream stands and to its length.
pub proof fn law_two_streams<T1: Stream, T2: Stream>(
    d0: SynthMinidump,
    r0: Seq<Rule>,
    u1: T1,
    d1: SynthMinidump,
    r1: Seq<Rule>,
    u2: T2,
    d2: SynthMinidump,
    r2: Seq<Rule>,
)
    requires
        frame_ok(d0, r0),
        d0.stream_count == 0,
        d0.stream_directory.slots@.len() == 0,
        stream_added(d0, r0, u1, d1, r1),
        stream_added(d1, r1, u2, d2, r2),
        placeable(d0, u1, u1.rules_into(r0)),
        placeable(d1, u2, u2.rules_into(r1)),
        frame_ok(d2, r2),
        r2[u1.start_view().id as int] == r1[u1.start_view().id as int],
        r2[u1.size_view().id as int] == r1[u1.size_view().id as int],
    ensures
        value_of(d2.final_rules(r2), d2.stream_count_label.id as int) == Some(2u64),
        d2.section.slots@ == d0.section.slots@ + u1.slots_view() + u2.slots_view(),
        d2.finished_slots() == d2.section.slots@
            + entry_slots(u1.type_tag(), u1.size_view().id, u1.start_view().id, d0.stream_directory.endian)
            + entry_slots(u2.type_tag(), u2.size_view().id, u2.start_view().id, d0.stream_directory.endian),
        value_of(d2.final_rules(r2), u1.start_view().id as int) == Some(d0.section.slots@.len() as u64),
        value_of(d2.final_rules(r2), u2.start_view().id as int) == Some(d1.section.slots@.len() as u64),
        value_of(d2.final_rules(r2), u1.size_view().id as int) == Some(u1.slots_view().len() as u64),
        value_of(d2.final_rules(r2), u2.size_view().id as int) == Some(u2.slots_view().len() as u64),
{
    lemma_frame_ids(d2, r2);
    lemma_stream_placed(d0, r0, u1, d1, r1);
    lemma_stream_placed(d1, r1, u2, d2, r2);
    assert(d2.finished_slots() == d2.section.slots@
        + entry_slots(u1.type_tag(), u1.size_view().id, u1.start_view().id, d0.stream_directory.endian)
        + entry_slots(u2.type_tag(), u2.size_view().id, u2.start_view().id, d0.stream_directory.endian));
    let f = d2.final_rules(r2);
    let st = d2.section.start.id;
    lemma_final_rules_outside(d2, r2, u1.start_view().id);
    lemma_final_rules_outside(d2, r2, u2.start_view().id);
    lemma_final_rules_outside(d2, r2, u1.size_view().id);
    lemma_final_rules_outside(d2, r2, u2.size_view().id);
    assert(f[st as int] == Rule::Const(0));
    assert(f[d2.stream_count_label.id as int] == Rule::Const(2));
    assert(f.len() >= 2);
    assert(value_within(f, st as int, (f.len() - 1) as nat) == Some(0u64));
}

/// Whatever was added to the writer, a finished dump starts with the
/// signature and holds in bytes 24 to 32 the flags that were set, or 0 when
/// they never were.
pub proof fn law_header_after_adds(d: SynthMinidump, rules: Seq<Rule>, f: u64)
    requires
        frame_ok(d, rules),
        rules[d.flags.id as int] == Rule::Const(f) || (rules[d.flags.id as int] == Rule::Unbound && f == 0),
        d.section.slots@.len() >= 32,
        d.section.slots@.subrange(0, 32) == header_slots(
            d.section.endian,
            d.stream_count_label.id,
            d.stream_directory_rva.id,
            d.flags.id,
        ),
    ensures
        d.finished(rules) matches Some(b) ==> b.subrange(0, 4) == encode(MD_HEADER_SIGNATURE as nat, 4, d.section.endian)
            && b.subrange(24, 32) == encode(f as nat, 8, d.section.endian),
{
    lemma_frame_ids(d, rules);
    let e = d.section.endian;
    let fr = d.final_rules(rules);
    let slots = d.finished_slots();
    let head = header_slots(e, d.stream_count_label.id, d.stream_directory_rva.id, d.flags.id);
    assert(value_of(fr, d.flags.id as int) == Some(f));
    lemma_ref_slots_resolve(fr, d.flags.id, 8, e, f);
    if let Some(b) = d.finished(rules) {
        assert forall|k: int| 0 <= k < 4 implies b.subrange(0, 4)[k] == encode(MD_HEADER_SIGNATURE as nat, 4, e)[k] by {
            assert(slots[k] == head[k]);
            assert(head[k] == lit_slots(encode(MD_HEADER_SIGNATURE as nat, 4, e))[k]);
        }
        assert forall|k: int| 0 <= k < 8 implies b.subrange(24, 32)[k] == encode(f as nat, 8, e)[k] by {
            assert(slots[24 + k] == head[24 + k]);
            assert(head[24 + k] == ref_slots(d.flags.id, 8, e)[k]);
        }
        assert(b.subrange(0, 4) == encode(MD_HEADER_SIGNATURE as nat, 4, e));
        assert(b.subrange(24, 32) == encode(f as nat, 8, e));
    }
}

/// With no stream added, a finished dump holds a stream count of 0 and a
/// directory offset equal to its own length, which is the body's.
pub proof fn law_no_streams_bytes(d: SynthMinidump, rules: Seq<Rule>)
    requires
        frame_ok(d, rules),
        d.stream_count == 0,
        d.stream_directory.slots@.len() == 0,
        d.section.slots@.len() >= 32,
        d.section.slots@.subrange(0, 32) == header_slots(
            d.section.endian,
            d.stream_count_label.id,
            d.stream_directory_rva.id,
            d.flags.id,
        ),
    ensures
        d.finished(rules) matches Some(b) ==> b.len() == d.section.slots@.len()
            && b.subrange(8, 12) == encode(0, 4, d.section.endian)
            && b.subrange(12, 16) == encode(d.section.slots@.len() as u64 as nat, 4, d.section.endian),
{
    law_no_streams(d, rules);
    let e = d.section.endian;
    let fr = d.final_rules(rules);
    let slots = d.finished_slots();
    let len = d.section.slots@.len() as u64;
    let head = header_slots(e, d.stream_count_label.id, d.stream_directory_rva.id, d.flags.id);
    lemma_ref_slots_resolve(fr, d.stream_count_label.id, 4, e, 0);
    lemma_ref_slots_resolve(fr, d.stream_directory_rva.id, 4, e, len);
    if let Some(b) = d.finished(rules) {
        assert forall|k: int| 0 <= k < 4 implies b.subrange(8, 12)[k] == encode(0, 4, e)[k] by {
            assert(slots[8 + k] == head[8 + k]);
            assert(head[8 + k] == ref_slots(d.stream_count_label.id, 4, e)[k]);
        }
        assert forall|k: int| 0 <= k < 4 implies b.subrange(12, 16)[k] == encode(len as nat, 4, e)[k] by {
            assert(slots[12 + k] == head[12 + k]);
            assert(head[12 + k] == ref_slots(d.stream_directory_rva.id, 4, e)[k]);
        }
        assert(b.subrange(8, 12) == encode(0, 4, e));
        assert(b.subrange(12, 16) == encode(len as nat, 4, e));
    }
}

} // verus!
