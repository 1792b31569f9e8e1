use vstd::prelude::*;
use crate::bytes::{Endian, byte_at, byte_of, encode, significance, significance_of};
use crate::deferred::{Label, Labels, Rule, bind_unbound, resolve, value_of};

verus! {

/// One byte of a section: a literal, or a byte of a deferred value.
#[derive(Clone, Copy, Debug, PartialEq, Eq, Structural)]
pub enum Slot {
    Lit(u8),
    /// Byte `.1` (from the least significant) of deferred value `.0`.
    Ref(usize, u8),
}

/// An append-only byte buffer whose bytes may refer to deferred values of
/// the build's [`Labels`]; `start` stands for its offset in the file and
/// `final_size` for its length.
pub struct Section {
    pub endian: Endian,
    pub slots: Vec<Slot>,
    pub start: Label,
    pub final_size: Label,
}

pub open spec fn lit_slots(b: Seq<u8>) -> Seq<Slot> {
    Seq::new(b.len(), |k: int| Slot::Lit(b[k]))
}

/// The slots of a `w`-byte reference to deferred value `id` in byte order `e`.
pub open spec fn ref_slots(id: usize, w: nat, e: Endian) -> Seq<Slot> {
    Seq::new(w, |j: int| Slot::Ref(id, significance(e, w, j as nat) as u8))
}

pub open spec fn slot_value(rules: Seq<Rule>, s: Slot) -> Option<u8> {
    match s {
        Slot::Lit(b) => Some(b),
        Slot::Ref(id, i) => match value_of(rules, id as int) {
            Some(v) => Some(byte_at(v as nat, i as nat)),
            None => None,
        },
    }
}

/// The bytes of `slots` under `rules`, or `None` when one of them refers to a
/// deferred value that does not resolve.
pub open spec fn contents_of(rules: Seq<Rule>, slots: Seq<Slot>) -> Option<Seq<u8>> {
    if forall|k: int| 0 <= k < slots.len() ==> (#[trigger] slot_value(rules, slots[k])).is_some() {
        Some(Seq::new(slots.len(), |k: int| slot_value(rules, slots[k]).unwrap()))
    } else {
        None
    }
}

/// The table once a section is finished on its own: its start bound to 0 and
/// its final size to its length, unless those were bound before.
pub open spec fn closed_rules(rules: Seq<Rule>, start: Label, final_size: Label, len: nat) -> Seq<Rule> {
    bind_unbound(bind_unbound(rules, start.id as int, Rule::Const(0)), final_size.id as int, Rule::Const(len as u64))
}

/// The table once `child`, of `len` bytes, is spliced at byte `off` of a
/// section starting at `start`: the child's start is bound to that position
/// and its final size to its length, unless those were bound before.
pub open spec fn spliced_rules(rules: Seq<Rule>, start: Label, off: u64, child_start: Label, child_size: Label, len: nat) -> Seq<Rule> {
    bind_unbound(
        bind_unbound(rules, child_start.id as int, Rule::Offset(start.id, off)),
        child_size.id as int,
        Rule::Const(len as u64),
    )
}

impl Section {
    /// The bytes that `get_contents` produces against `rules`.
    pub open spec fn contents(&self, rules: Seq<Rule>) -> Option<Seq<u8>> {
        contents_of(closed_rules(rules, self.start, self.final_size, self.slots@.len()), self.slots@)
    }

    /// An empty section with byte order `endian`, with two new deferred
    /// values for its start and its final size.
    pub fn with_endian(labels: &mut Labels, endian: Endian) -> (r: Section)
        ensures
            r.endian == endian,
            r.slots@ == Seq::<Slot>::empty(),
            r.start.id == old(labels).rules@.len(),
            r.final_size.id == old(labels).rules@.len() + 1,
            final(labels).rules@ == old(labels).rules@.push(Rule::Unbound).push(Rule::Unbound),
    {
        let start = labels.new_label();
        let final_size = labels.new_label();
        Section { endian, slots: Vec::new(), start, final_size }
    }

    /// The number of bytes written so far.
    pub fn size(&self) -> (r: usize)
        ensures
            r == self.slots@.len(),
    {
        self.slots.len()
    }

    /// The deferred value for this section's offset in the file.
    pub fn start(&self) -> (r: Label)
        ensures
            r == self.start,
    {
        self.start
    }

    /// The deferred value for this section's final size.
    pub fn final_size(&self) -> (r: Label)
        ensures
            r == self.final_size,
    {
        self.final_size
    }

    /// Appends the `w` bytes of `v` in this section's byte order.
    fn push_int(&mut self, v: u64, w: u8)
        requires
            w <= 8,
        ensures
            final(self).slots@ == old(self).slots@ + lit_slots(encode(v as nat, w as nat, old(self).endian)),
            final(self).endian == old(self).endian,
            final(self).start == old(self).start,
            final(self).final_size == old(self).final_size,
    {
        let ghost want = lit_slots(encode(v as nat, w as nat, old(self).endian));
        let mut j: u8 = 0;
        while j < w
            invariant
                j <= w,
                w <= 8,
                self.endian == old(self).endian,
                self.start == old(self).start,
                self.final_size == old(self).final_size,
                want == lit_slots(encode(v as nat, w as nat, old(self).endian)),
                self.slots@ == old(self).slots@ + want.subrange(0, j as int),
            decreases w - j,
        {
            let i = significance_of(self.endian, w, j);
            let b = byte_of(v, i);
            self.slots.push(Slot::Lit(b));
            j = j + 1;
            assert(want.subrange(0, j as int) == want.subrange(0, j - 1).push(Slot::Lit(b)));
        }
        assert(want.subrange(0, w as int) == want);
    }

    /// Appends a `w`-byte reference to deferred value `id` in this section's byte order.
    fn push_ref(&mut self, id: usize, w: u8)
        requires
            w <= 8,
        ensures
            final(self).slots@ == old(self).slots@ + ref_slots(id, w as nat, old(self).endian),
            final(self).endian == old(self).endian,
            final(self).start == old(self).start,
            final(self).final_size == old(self).final_size,
    {
        let ghost want = ref_slots(id, w as nat, old(self).endian);
        let mut j: u8 = 0;
        while j < w
            invariant
                j <= w,
                w <= 8,
                self.endian == old(self).endian,
                self.start == old(self).start,
                self.final_size == old(self).final_size,
                want == ref_slots(id, w as nat, old(self).endian),
                self.slots@ == old(self).slots@ + want.subrange(0, j as int),
            decreases w - j,
        {
            let i = significance_of(self.endian, w, j);
            self.slots.push(Slot::Ref(id, i));
            j = j + 1;
            assert(want.subrange(0, j as int) == want.subrange(0, j - 1).push(Slot::Ref(id, i)));
        }
        assert(want.subrange(0, w as int) == want);
    }

    /// Appends `v` as one byte.
    pub fn d8(self, v: u8) -> (r: Section)
        ensures
            r.slots@ == self.slots@ + lit_slots(encode(v as nat, 1, self.endian)),
            r.endian == self.endian,
            r.start == self.start,
            r.final_size == self.final_size,
    {
        let mut s = self;
        s.push_int(v as u64, 1);
        s
    }

    /// Appends `v` as two bytes in this section's byte order.
    pub fn d16(self, v: u16) -> (r: Section)
        ensures
            r.slots@ == self.slots@ + lit_slots(encode(v as nat, 2, self.endian)),
            r.endian == self.endian,
            r.start == self.start,
            r.final_size == self.final_size,
    {
        let mut s = self;
        s.push_int(v as u64, 2);
        s
    }

    /// Appends `v` as four bytes in this section's byte order.
    pub fn d32(self, v: u32) -> (r: Section)
        ensures
            r.slots@ == self.slots@ + lit_slots(encode(v as nat, 4, self.endian)),
            r.endian == self.endian,
            r.start == self.start,
            r.final_size == self.final_size,
    {
        let mut s = self;
        s.push_int(v as u64, 4);
        s
    }

    /// Appends `v` as eight bytes in this section's byte order.
    pub fn d64(self, v: u64) -> (r: Section)
        ensures
            r.slots@ == self.slots@ + lit_slots(encode(v as nat, 8, self.endian)),
            r.endian == self.endian,
            r.start == self.start,
            r.final_size == self.final_size,
    {
        let mut s = self;
        s.push_int(v, 8);
        s
    }

    /// Appends the low four bytes of deferred value `label`, resolved at the end.
    pub fn d32_label(self, label: Label) -> (r: Section)
        ensures
            r.slots@ == self.slots@ + ref_slots(label.id, 4, self.endian),
            r.endian == self.endian,
            r.start == self.start,
            r.final_size == self.final_size,
    {
        let mut s = self;
        s.push_ref(label.id, 4);
        s
    }

    /// Appends the eight bytes of deferred value `label`, resolved at the end.
    pub fn d64_label(self, label: Label) -> (r: Section)
        ensures
            r.slots@ == self.slots@ + ref_slots(label.id, 8, self.endian),
            r.endian == self.endian,
            r.start == self.start,
            r.final_size == self.final_size,
    {
        let mut s = self;
        s.push_ref(label.id, 8);
        s
    }

    /// Appends the bytes of `b` as they are.
    pub fn append_bytes(self, b: &[u8]) -> (r: Section)
        ensures
            r.slots@ == self.slots@ + lit_slots(b@),
            r.endian == self.endian,
            r.start == self.start,
            r.final_size == self.final_size,
    {
        let mut s = self;
        let mut j: usize = 0;
        while j < b.len()
            invariant
                j <= b@.len(),
                s.endian == self.endian,
                s.start == self.start,
                s.final_size == self.final_size,
                s.slots@ == self.slots@ + lit_slots(b@).subrange(0, j as int),
            decreases b@.len() - j,
        {
            s.slots.push(Slot::Lit(b[j]));
            j = j + 1;
            assert(lit_slots(b@).subrange(0, j as int) == lit_slots(b@).subrange(0, j - 1).push(Slot::Lit(b@[j - 1])));
        }
        assert(lit_slots(b@).subrange(0, b@.len() as int) == lit_slots(b@));
        s
    }

    /// Appends `n` copies of `byte`.
    pub fn append_repeated(self, byte: u8, n: usize) -> (r: Section)
        ensures
            r.slots@ == self.slots@ + Seq::new(n as nat, |k: int| Slot::Lit(byte)),
            r.endian == self.endian,
            r.start == self.start,
            r.final_size == self.final_size,
    {
        let ghost want = Seq::new(n as nat, |k: int| Slot::Lit(byte));
        let mut s = self;
        let mut j: usize = 0;
        while j < n
            invariant
                j <= n,
                s.endian == self.endian,
                s.start == self.start,
                s.final_size == self.final_size,
                want == Seq::new(n as nat, |k: int| Slot::Lit(byte)),
                s.slots@ == self.slots@ + want.subrange(0, j as int),
            decreases n - j,
        {
            s.slots.push(Slot::Lit(byte));
            j = j + 1;
            assert(want.subrange(0, j as int) == want.subrange(0, j - 1).push(Slot::Lit(byte)));
        }
        assert(want.subrange(0, n as int) == want);
        s
    }

    /// Binds `label` to the current write position: this section's start plus
    /// the number of bytes written so far, unless it is bound already.
    pub fn mark(self, labels: &mut Labels, label: Label) -> (r: Section)
        ensures
            r.slots@ == self.slots@,
            r.endian == self.endian,
            r.start == self.start,
            r.final_size == self.final_size,
            final(labels).rules@ == bind_unbound(
                old(labels).rules@,
                label.id as int,
                Rule::Offset(self.start.id, self.slots@.len() as u64),
            ),
    {
        let off = self.slots.len() as u64;
        labels.bind(label.id, Rule::Offset(self.start.id, off));
        self
    }

    /// Splices `child` in at the current position: its start is bound to this
    /// position and its final size to its length, unless they were bound before.
    pub fn append_section(self, labels: &mut Labels, child: Section) -> (r: Section)
        ensures
            r.slots@ == self.slots@ + child.slots@,
            r.endian == self.endian,
            r.start == self.start,
            r.final_size == self.final_size,
            final(labels).rules@ == spliced_rules(
                old(labels).rules@,
                self.start,
                self.slots@.len() as u64,
                child.start,
                child.final_size,
                child.slots@.len(),
            ),
    {
        let off = self.slots.len() as u64;
        let len = child.slots.len() as u64;
        labels.bind(child.start.id, Rule::Offset(self.start.id, off));
        labels.bind(child.final_size.id, Rule::Const(len));
        let mut s = self;
        let mut j: usize = 0;
        while j < child.slots.len()
            invariant
                j <= child.slots@.len(),
                s.endian == self.endian,
                s.start == self.start,
                s.final_size == self.final_size,
                s.slots@ == self.slots@ + child.slots@.subrange(0, j as int),
            decreases child.slots@.len() - j,
        {
            s.slots.push(child.slots[j]);
            j = j + 1;
            assert(child.slots@.subrange(0, j as int) == child.slots@.subrange(0, j - 1).push(child.slots@[j - 1]));
        }
        assert(child.slots@.subrange(0, child.slots@.len() as int) == child.slots@);
        s
    }

    /// Finishes the section on its own: binds its start to 0 and its final
    /// size to its length where they are unbound, then resolves every byte.
    /// Fails when a byte refers to a deferred value that does not resolve.
    pub fn get_contents(self, labels: &mut Labels) -> (r: Option<Vec<u8>>)
        ensures
            final(labels).rules@ == closed_rules(old(labels).rules@, self.start, self.final_size, self.slots@.len()),
            match r {
                Some(v) => self.contents(old(labels).rules@) == Some(v@),
                None => self.contents(old(labels).rules@) is None,
            },
    {
        let ghost rules = closed_rules(old(labels).rules@, self.start, self.final_size, self.slots@.len());
        let len = self.slots.len() as u64;
        labels.bind(self.start.id, Rule::Const(0));
        labels.bind(self.final_size.id, Rule::Const(len));
        let mut out: Vec<u8> = Vec::new();
        let mut k: usize = 0;
        while k < self.slots.len()
            invariant
                k <= self.slots@.len(),
                labels.rules@ == rules,
                rules == closed_rules(old(labels).rules@, self.start, self.final_size, self.slots@.len()),
                out@.len() == k,
                forall|i: int| 0 <= i < k ==> #[trigger] slot_value(rules, self.slots@[i]) == Some(out@[i]),
            decreases self.slots@.len() - k,
        {
            let b = match self.slots[k] {
                Slot::Lit(b) => b,
                Slot::Ref(id, i) => match resolve(&labels.rules, id) {
                    Some(v) => byte_of(v, i),
                    None => {
                        assert(slot_value(rules, self.slots@[k as int]) is None);
                        assert(!(forall|i: int| 0 <= i < self.slots@.len() ==> (#[trigger] slot_value(rules, self.slots@[i])).is_some()));
                        return None;
                    },
                },
            };
            out.push(b);
            k = k + 1;
        }
        assert(forall|i: int| 0 <= i < self.slots@.len() ==> (#[trigger] slot_value(rules, self.slots@[i])).is_some());
        assert(out@ == Seq::new(self.slots@.len(), |i: int| slot_value(rules, self.slots@[i]).unwrap()));
        Some(out)
    }
}

} // verus!
