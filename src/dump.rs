use vstd::prelude::*;
use crate::bytes::{Endian, encode};
use crate::deferred::{Label, Labels, Rule, bind_unbound};
use crate::format::{
    HEADER_TIME_DATE_STAMP, MD_HEADER_SIGNATURE, MD_HEADER_VERSION, MD_MISCINFO_FLAGS1_PROCESS_ID,
    MD_MISCINFO_FLAGS1_PROCESS_TIMES, MD_MISCINFO_SIZE, MD_MISC_INFO_STREAM,
};
use crate::section::{Section, Slot, closed_rules, contents_of, lit_slots, ref_slots, spliced_rules};
use crate::text::{encode_utf16le, utf16le_of};

verus! {

/// The slots of a location descriptor: the size, then the offset, four bytes each.
pub open spec fn location_slots(size: usize, offset: usize, e: Endian) -> Seq<Slot> {
    ref_slots(size, 4, e) + ref_slots(offset, 4, e)
}

/// The slots of a stream directory entry: the type, then the location descriptor.
pub open spec fn entry_slots(stream_type: u32, size: usize, offset: usize, e: Endian) -> Seq<Slot> {
    lit_slots(encode(stream_type as nat, 4, e)) + location_slots(size, offset, e)
}

/// A block of data that can be placed in a minidump.
pub trait DumpSection: Sized {
    /// The bytes of the section this unit becomes.
    spec fn slots_view(&self) -> Seq<Slot>;

    /// The byte order of the section this unit becomes.
    spec fn endian_view(&self) -> Endian;

    /// The deferred value for this unit's offset in the file.
    spec fn start_view(&self) -> Label;

    /// The deferred value for this unit's size in bytes.
    spec fn size_view(&self) -> Label;

    /// The table once this unit has become a section.
    spec fn rules_into(&self, rules: Seq<Rule>) -> Seq<Rule>;

    /// The section that this unit becomes.
    fn into_section(self, labels: &mut Labels) -> (r: Section)
        ensures
            r.slots@ == self.slots_view(),
            r.endian == self.endian_view(),
            r.start == self.start_view(),
            r.final_size == self.size_view(),
            final(labels).rules@ == self.rules_into(old(labels).rules@),
            final(labels).rules@.len() == old(labels).rules@.len(),
    ;

    /// The deferred value for this unit's offset in the file.
    fn file_offset(&self) -> (r: Label)
        ensures
            r == self.start_view(),
    ;

    /// The deferred value for this unit's size in bytes.
    fn file_size(&self) -> (r: Label)
        ensures
            r == self.size_view(),
    ;

    /// Appends to `section` a location descriptor referring to this unit:
    /// its size, then its offset, resolved when `section` is finished.
    fn cite_location_in(&self, section: Section) -> (r: Section)
        ensures
            r.slots@ == section.slots@ + location_slots(self.size_view().id, self.start_view().id, section.endian),
            r.endian == section.endian,
            r.start == section.start,
            r.final_size == section.final_size,
    {
        let size = self.file_size();
        let offset = self.file_offset();
        let r = section.d32_label(size).d32_label(offset);
        assert(r.slots@ == section.slots@ + location_slots(size.id, offset.id, section.endian));
        r
    }
}

/// A unit that is listed in the stream directory.
pub trait Stream: DumpSection {
    spec fn type_tag(&self) -> u32;

    /// The stream type, used in the stream directory.
    fn stream_type(&self) -> (r: u32)
        ensures
            r == self.type_tag(),
    ;

    /// Appends to `section` a directory entry referring to this stream.
    fn cite_stream_in(&self, section: Section) -> (r: Section)
        ensures
            r.slots@ == section.slots@ + entry_slots(self.type_tag(), self.size_view().id, self.start_view().id, section.endian),
            r.endian == section.endian,
            r.start == section.start,
            r.final_size == section.final_size,
    {
        let t = self.stream_type();
        let s = section.d32(t);
        let r = self.cite_location_in(s);
        assert(r.slots@ == section.slots@ + entry_slots(t, self.size_view().id, self.start_view().id, section.endian));
        r
    }
}

impl DumpSection for Section {
    open spec fn slots_view(&self) -> Seq<Slot> {
        self.slots@
    }

    open spec fn endian_view(&self) -> Endian {
        self.endian
    }

    open spec fn start_view(&self) -> Label {
        self.start
    }

    open spec fn size_view(&self) -> Label {
        self.final_size
    }

    open spec fn rules_into(&self, rules: Seq<Rule>) -> Seq<Rule> {
        rules
    }

    fn into_section(self, labels: &mut Labels) -> (r: Section) {
        self
    }

    fn file_offset(&self) -> (r: Label) {
        self.start
    }

    fn file_size(&self) -> (r: Label) {
        self.final_size
    }
}

/// A stream of arbitrary data.
pub struct SimpleStream {
    /// The stream type.
    pub stream_type: u32,
    /// The stream's contents.
    pub section: Section,
}

impl DumpSection for SimpleStream {
    open spec fn slots_view(&self) -> Seq<Slot> {
        self.section.slots@
    }

    open spec fn endian_view(&self) -> Endian {
        self.section.endian
    }

    open spec fn start_view(&self) -> Label {
        self.section.start
    }

    open spec fn size_view(&self) -> Label {
        self.section.final_size
    }

    open spec fn rules_into(&self, rules: Seq<Rule>) -> Seq<Rule> {
        rules
    }

    fn into_section(self, labels: &mut Labels) -> (r: Section) {
        self.section
    }

    fn file_offset(&self) -> (r: Label) {
        self.section.start
    }

    fn file_size(&self) -> (r: Label) {
        self.section.final_size
    }
}

impl Stream for SimpleStream {
    open spec fn type_tag(&self) -> u32 {
        self.stream_type
    }

    fn stream_type(&self) -> (r: u32) {
        self.stream_type
    }
}

/// A stream holding an entry count followed by the entries.
pub struct List<T: DumpSection> {
    /// The stream type.
    pub stream_type: u32,
    /// The stream's contents: the count, then the entries in the order added.
    pub section: Section,
    /// The number of entries.
    pub count: u32,
    /// The number of entries, as a deferred value.
    pub count_label: Label,
    pub entries: core::marker::PhantomData<T>,
}

impl<T: DumpSection> List<T> {
    /// An empty list of stream type `stream_type` with byte order `endian`.
    pub fn new(labels: &mut Labels, stream_type: u32, endian: Endian) -> (r: List<T>)
        ensures
            r.stream_type == stream_type,
            r.count == 0,
            r.section.endian == endian,
            r.section.start.id == old(labels).rules@.len(),
            r.section.final_size.id == old(labels).rules@.len() + 1,
            r.count_label.id == old(labels).rules@.len() + 2,
            r.section.slots@ == ref_slots(r.count_label.id, 4, endian),
            final(labels).rules@ == old(labels).rules@ + seq![Rule::Unbound, Rule::Unbound, Rule::Unbound],
    {
        let section = Section::with_endian(labels, endian);
        let count_label = labels.new_label();
        let section = section.d32_label(count_label);
        assert(section.slots@ == ref_slots(count_label.id, 4, endian));
        List { stream_type, section, count: 0, count_label, entries: core::marker::PhantomData }
    }

    /// Appends `entry` and counts it.
    pub fn add(self, labels: &mut Labels, entry: T) -> (r: List<T>)
        requires
            self.count < u32::MAX,
        ensures
            r.stream_type == self.stream_type,
            r.count == self.count + 1,
            r.count_label == self.count_label,
            r.section.endian == self.section.endian,
            r.section.start == self.section.start,
            r.section.final_size == self.section.final_size,
            r.section.slots@ == self.section.slots@ + entry.slots_view(),
            final(labels).rules@ == spliced_rules(
                entry.rules_into(old(labels).rules@),
                self.section.start,
                self.section.slots@.len() as u64,
                entry.start_view(),
                entry.size_view(),
                entry.slots_view().len(),
            ),
    {
        let child = entry.into_section(labels);
        let section = self.section.append_section(labels, child);
        List {
            stream_type: self.stream_type,
            section,
            count: self.count + 1,
            count_label: self.count_label,
            entries: core::marker::PhantomData,
        }
    }
}

impl<T: DumpSection> DumpSection for List<T> {
    open spec fn slots_view(&self) -> Seq<Slot> {
        self.section.slots@
    }

    open spec fn endian_view(&self) -> Endian {
        self.section.endian
    }

    open spec fn start_view(&self) -> Label {
        self.section.start
    }

    open spec fn size_view(&self) -> Label {
        self.section.final_size
    }

    /// The count is bound to the number of entries.
    open spec fn rules_into(&self, rules: Seq<Rule>) -> Seq<Rule> {
        bind_unbound(rules, self.count_label.id as int, Rule::Const(self.count as u64))
    }

    fn into_section(self, labels: &mut Labels) -> (r: Section) {
        labels.set_const(self.count_label, self.count as u64);
        self.section
    }

    fn file_offset(&self) -> (r: Label) {
        self.section.start
    }

    fn file_size(&self) -> (r: Label) {
        self.section.final_size
    }
}

impl<T: DumpSection> Stream for List<T> {
    open spec fn type_tag(&self) -> u32 {
        self.stream_type
    }

    fn stream_type(&self) -> (r: u32) {
        self.stream_type
    }
}

/// The section of a string whose encoded form is `b`: its byte length in
/// four bytes, then the bytes.
pub open spec fn string_slots(b: Seq<u8>, e: Endian) -> Seq<Slot> {
    lit_slots(encode(b.len() as u32 as nat, 4, e)) + lit_slots(b)
}

/// A string in the UTF-16 little-endian form, preceded by its length in bytes.
pub struct DumpString {
    pub section: Section,
}

impl DumpString {
    /// The string for `s`, with the length written in byte order `endian`.
    pub fn new(labels: &mut Labels, s: &str, endian: Endian) -> (r: DumpString)
        ensures
            r.section.endian == endian,
            r.section.slots@ == string_slots(utf16le_of(s@), endian),
            r.section.start.id == old(labels).rules@.len(),
            r.section.final_size.id == old(labels).rules@.len() + 1,
            final(labels).rules@ == old(labels).rules@.push(Rule::Unbound).push(Rule::Unbound),
    {
        match encode_utf16le(s) {
            Some(b) => DumpString::from_encoded(labels, &b, endian),
            None => DumpString::from_encoded(labels, &[], endian),
        }
    }

    /// The string whose encoded form is `b`, with the length written in byte order `endian`.
    pub fn from_encoded(labels: &mut Labels, b: &[u8], endian: Endian) -> (r: DumpString)
        ensures
            r.section.endian == endian,
            r.section.slots@ == string_slots(b@, endian),
            r.section.start.id == old(labels).rules@.len(),
            r.section.final_size.id == old(labels).rules@.len() + 1,
            final(labels).rules@ == old(labels).rules@.push(Rule::Unbound).push(Rule::Unbound),
    {
        let section = Section::with_endian(labels, endian).d32(b.len() as u32).append_bytes(b);
        DumpString { section }
    }
}

impl DumpSection for DumpString {
    open spec fn slots_view(&self) -> Seq<Slot> {
        self.section.slots@
    }

    open spec fn endian_view(&self) -> Endian {
        self.section.endian
    }

    open spec fn start_view(&self) -> Label {
        self.section.start
    }

    open spec fn size_view(&self) -> Label {
        self.section.final_size
    }

    open spec fn rules_into(&self, rules: Seq<Rule>) -> Seq<Rule> {
        rules
    }

    fn into_section(self, labels: &mut Labels) -> (r: Section) {
        self.section
    }

    fn file_offset(&self) -> (r: Label) {
        self.section.start
    }

    fn file_size(&self) -> (r: Label) {
        self.section.final_size
    }
}

/// The flags of a miscellaneous information record: one bit for each field present.
pub open spec fn misc_flags(process_id: Option<u32>, process_create_time: Option<u32>) -> u32 {
    ((if process_id is Some { MD_MISCINFO_FLAGS1_PROCESS_ID } else { 0 })
        + (if process_create_time is Some { MD_MISCINFO_FLAGS1_PROCESS_TIMES } else { 0 })) as u32
}

pub open spec fn or_zero(v: Option<u32>) -> u32 {
    match v {
        Some(x) => x,
        None => 0,
    }
}

/// The fields written after the declared size: the flags, the process id,
/// then the creation, user and kernel times (absent ones as zero).
pub open spec fn misc_fields(process_id: Option<u32>, process_create_time: Option<u32>, e: Endian) -> Seq<u8> {
    encode(misc_flags(process_id, process_create_time) as nat, 4, e)
        + encode(or_zero(process_id) as nat, 4, e)
        + encode(or_zero(process_create_time) as nat, 4, e)
        + encode(0, 4, e)
        + encode(0, 4, e)
}

/// The number of zero bytes that bring `len` bytes up to `pad_to_size`.
pub open spec fn padding(len: nat, pad_to_size: Option<usize>) -> nat {
    match pad_to_size {
        Some(size) => if size > len { (size - len) as nat } else { 0 },
        None => 0,
    }
}

/// A miscellaneous information stream.
///
/// Its declared size is that of the record with no optional field set, and
/// stays so when padding makes the stream longer.
pub struct MiscStream {
    /// The stream's contents: the declared size.
    pub section: Section,
    pub process_id: Option<u32>,
    pub process_create_time: Option<u32>,
    /// Pad the stream with zero bytes up to this size.
    pub pad_to_size: Option<usize>,
}

impl MiscStream {
    /// A record with byte order `endian` and no optional field set.
    pub fn new(labels: &mut Labels, endian: Endian) -> (r: MiscStream)
        ensures
            r.section.endian == endian,
            r.section.slots@ == lit_slots(encode(MD_MISCINFO_SIZE as nat, 4, endian)),
            r.section.start.id == old(labels).rules@.len(),
            r.section.final_size.id == old(labels).rules@.len() + 1,
            final(labels).rules@ == old(labels).rules@.push(Rule::Unbound).push(Rule::Unbound),
            r.process_id is None,
            r.process_create_time is None,
            r.pad_to_size is None,
    {
        let section = Section::with_endian(labels, endian).d32(MD_MISCINFO_SIZE);
        MiscStream { section, process_id: None, process_create_time: None, pad_to_size: None }
    }
}

impl DumpSection for MiscStream {
    open spec fn slots_view(&self) -> Seq<Slot> {
        let fields = misc_fields(self.process_id, self.process_create_time, self.section.endian);
        let len = self.section.slots@.len() + fields.len();
        self.section.slots@ + lit_slots(fields) + Seq::new(padding(len, self.pad_to_size), |k: int| Slot::Lit(0))
    }

    open spec fn endian_view(&self) -> Endian {
        self.section.endian
    }

    open spec fn start_view(&self) -> Label {
        self.section.start
    }

    open spec fn size_view(&self) -> Label {
        self.section.final_size
    }

    open spec fn rules_into(&self, rules: Seq<Rule>) -> Seq<Rule> {
        rules
    }

    fn into_section(self, labels: &mut Labels) -> (r: Section) {
        let MiscStream { section, process_id, process_create_time, pad_to_size } = self;
        let mut flags: u32 = 0;
        let pid = match process_id {
            Some(p) => {
                flags = flags + MD_MISCINFO_FLAGS1_PROCESS_ID;
                p
            },
            None => 0,
        };
        let time = match process_create_time {
            Some(t) => {
                flags = flags + MD_MISCINFO_FLAGS1_PROCESS_TIMES;
                t
            },
            None => 0,
        };
        let e = section.endian;
        let section = section.d32(flags).d32(pid).d32(time).d32(0).d32(0);
        let ghost fields = misc_fields(process_id, process_create_time, e);
        assert(section.slots@ == self.section.slots@ + lit_slots(fields));
        let len = section.size();
        match pad_to_size {
            Some(size) => if size > len {
                section.append_repeated(0, size - len)
            } else {
                section
            },
            None => section,
        }
    }

    fn file_offset(&self) -> (r: Label) {
        self.section.start
    }

    fn file_size(&self) -> (r: Label) {
        self.section.final_size
    }
}

impl Stream for MiscStream {
    open spec fn type_tag(&self) -> u32 {
        MD_MISC_INFO_STREAM
    }

    fn stream_type(&self) -> (r: u32) {
        MD_MISC_INFO_STREAM
    }
}

/// The slots of the header as the assembler writes it, with the stream count,
/// directory offset and flags deferred.
pub open spec fn header_slots(e: Endian, count: usize, rva: usize, flags: usize) -> Seq<Slot> {
    lit_slots(encode(MD_HEADER_SIGNATURE as nat, 4, e))
        + lit_slots(encode(MD_HEADER_VERSION as nat, 4, e))
        + ref_slots(count, 4, e)
        + ref_slots(rva, 4, e)
        + lit_slots(encode(0, 4, e))
        + lit_slots(encode(HEADER_TIME_DATE_STAMP as nat, 4, e))
        + ref_slots(flags, 8, e)
}

/// A writer of synthetic minidumps.
pub struct SynthMinidump {
    /// The minidump contents so far: the header, then the units in the order added.
    pub section: Section,
    /// The minidump flags, for the header.
    pub flags: Label,
    /// The number of streams.
    pub stream_count: u32,
    /// The number of streams, as a deferred value for the header.
    pub stream_count_label: Label,
    /// The directory's file offset, for the header.
    pub stream_directory_rva: Label,
    /// The stream directory, one entry per stream in the order added.
    pub stream_directory: Section,
}

impl SynthMinidump {
    /// The header's labels and the directory are those of `d`.
    pub open spec fn same_frame(&self, d: SynthMinidump) -> bool {
        &&& self.section.endian == d.section.endian
        &&& self.section.start == d.section.start
        &&& self.section.final_size == d.section.final_size
        &&& self.flags == d.flags
        &&& self.stream_count_label == d.stream_count_label
        &&& self.stream_directory_rva == d.stream_directory_rva
    }

    /// The table once `finish` has bound the header's deferred values (flags
    /// 0 if never set, the stream count, the directory offset) and spliced the
    /// directory behind the body.
    pub open spec fn finished_rules(&self, rules: Seq<Rule>) -> Seq<Rule> {
        let len = self.section.slots@.len() as u64;
        let r0 = bind_unbound(rules, self.flags.id as int, Rule::Const(0));
        let r1 = bind_unbound(r0, self.stream_count_label.id as int, Rule::Const(self.stream_count as u64));
        let r2 = bind_unbound(r1, self.stream_directory_rva.id as int, Rule::Offset(self.section.start.id, len));
        spliced_rules(
            r2,
            self.section.start,
            len,
            self.stream_directory.start,
            self.stream_directory.final_size,
            self.stream_directory.slots@.len(),
        )
    }

    /// The bytes of the finished dump: body, then the stream directory.
    pub open spec fn finished_slots(&self) -> Seq<Slot> {
        self.section.slots@ + self.stream_directory.slots@
    }

    /// The table against which `finish` resolves the bytes.
    pub open spec fn final_rules(&self, rules: Seq<Rule>) -> Seq<Rule> {
        closed_rules(self.finished_rules(rules), self.section.start, self.section.final_size, self.finished_slots().len())
    }

    /// What `finish` produces from the table `rules`.
    pub open spec fn finished(&self, rules: Seq<Rule>) -> Option<Seq<u8>> {
        contents_of(self.final_rules(rules), self.finished_slots())
    }

    /// A writer with little-endian byte order.
    pub fn new(labels: &mut Labels) -> (r: SynthMinidump)
        ensures
            r.section.endian == Endian::Little,
            r.fresh(old(labels).rules@.len()),
            final(labels).rules@ == old(labels).rules@ + fresh_rules(),
    {
        SynthMinidump::with_endian(labels, Endian::Little)
    }

    /// The writer's deferred values are the seven created after `n` others,
    /// the header is written and nothing was added.
    pub open spec fn fresh(&self, n: nat) -> bool {
        &&& self.flags.id == n
        &&& self.stream_count_label.id == n + 1
        &&& self.stream_directory_rva.id == n + 2
        &&& self.section.start.id == n + 3
        &&& self.section.final_size.id == n + 4
        &&& self.stream_directory.start.id == n + 5
        &&& self.stream_directory.final_size.id == n + 6
        &&& self.section.slots@ == header_slots(self.section.endian, (n + 1) as usize, (n + 2) as usize, n as usize)
        &&& self.stream_directory.slots@ == Seq::<Slot>::empty()
        &&& self.stream_directory.endian == self.section.endian
        &&& self.stream_count == 0
    }

    /// A writer with byte order `endian`, holding the header with its stream
    /// count, directory offset and flags deferred.
    pub fn with_endian(labels: &mut Labels, endian: Endian) -> (r: SynthMinidump)
        ensures
            r.section.endian == endian,
            r.fresh(old(labels).rules@.len()),
            final(labels).rules@ == old(labels).rules@ + fresh_rules(),
    {
        let flags = labels.new_label();
        let stream_count_label = labels.new_label();
        let stream_directory_rva = labels.new_label();
        let section = Section::with_endian(labels, endian)
            .d32(MD_HEADER_SIGNATURE)
            .d32(MD_HEADER_VERSION)
            .d32_label(stream_count_label)
            .d32_label(stream_directory_rva)
            .d32(0)
            .d32(HEADER_TIME_DATE_STAMP)
            .d64_label(flags);
        labels.set_const(section.start, 0);
        let stream_directory = Section::with_endian(labels, endian);
        let r = SynthMinidump { section, flags, stream_count: 0, stream_count_label, stream_directory_rva, stream_directory };
        assert(r.section.slots@ == header_slots(endian, stream_count_label.id, stream_directory_rva.id, flags.id));
        assert(labels.rules@ == old(labels).rules@ + fresh_rules());
        r
    }

    /// Sets the minidump flags to `flags`. The flags are set at most once: a
    /// second call is rejected and leaves them as they were.
    pub fn flags(self, labels: &mut Labels, flags: u64) -> (r: SynthMinidump)
        ensures
            r.same_frame(self),
            r.section.slots@ == self.section.slots@,
            r.stream_directory == self.stream_directory,
            r.stream_count == self.stream_count,
            final(labels).rules@ == bind_unbound(old(labels).rules@, self.flags.id as int, Rule::Const(flags)),
    {
        labels.set_const(self.flags, flags);
        self
    }

    /// Appends `unit` to the body; its offset is bound to where it lands.
    pub fn add<T: DumpSection>(self, labels: &mut Labels, unit: T) -> (r: SynthMinidump)
        ensures
            r.same_frame(self),
            r.section.slots@ == self.section.slots@ + unit.slots_view(),
            r.stream_directory == self.stream_directory,
            r.stream_count == self.stream_count,
            final(labels).rules@ == spliced_rules(
                unit.rules_into(old(labels).rules@),
                self.section.start,
                self.section.slots@.len() as u64,
                unit.start_view(),
                unit.size_view(),
                unit.slots_view().len(),
            ),
    {
        let child = unit.into_section(labels);
        let SynthMinidump { section, flags, stream_count, stream_count_label, stream_directory_rva, stream_directory } = self;
        let section = section.append_section(labels, child);
        SynthMinidump { section, flags, stream_count, stream_count_label, stream_directory_rva, stream_directory }
    }

    /// Appends `stream` to the body and lists it in the stream directory.
    pub fn add_stream<T: Stream>(self, labels: &mut Labels, stream: T) -> (r: SynthMinidump)
        requires
            self.stream_count < u32::MAX,
        ensures
            r.same_frame(self),
            r.section.slots@ == self.section.slots@ + stream.slots_view(),
            r.stream_directory.slots@ == self.stream_directory.slots@ + entry_slots(
                stream.type_tag(),
                stream.size_view().id,
                stream.start_view().id,
                self.stream_directory.endian,
            ),
            r.stream_directory.endian == self.stream_directory.endian,
            r.stream_directory.start == self.stream_directory.start,
            r.stream_directory.final_size == self.stream_directory.final_size,
            r.stream_count == self.stream_count + 1,
            final(labels).rules@ == spliced_rules(
                stream.rules_into(old(labels).rules@),
                self.section.start,
                self.section.slots@.len() as u64,
                stream.start_view(),
                stream.size_view(),
                stream.slots_view().len(),
            ),
    {
        let SynthMinidump { section, flags, stream_count, stream_count_label, stream_directory_rva, stream_directory } = self;
        let stream_directory = stream.cite_stream_in(stream_directory);
        let d = SynthMinidump {
            section,
            flags,
            stream_count: stream_count + 1,
            stream_count_label,
            stream_directory_rva,
            stream_directory,
        };
        d.add(labels, stream)
    }

    /// Finishes the minidump: sets the flags to 0 if they were never set and
    /// the stream count, then appends the stream directory behind the body,
    /// with its offset in the header. Fails when any byte refers to a
    /// deferred value that does not resolve.
    pub fn finish(self, labels: &mut Labels) -> (r: Option<Vec<u8>>)
        ensures
            final(labels).rules@ == self.final_rules(old(labels).rules@),
            match r {
                Some(v) => self.finished(old(labels).rules@) == Some(v@),
                None => self.finished(old(labels).rules@) is None,
            },
    {
        labels.set_const(self.flags, 0);
        labels.set_const(self.stream_count_label, self.stream_count as u64);
        let section = self.section.mark(labels, self.stream_directory_rva);
        let section = section.append_section(labels, self.stream_directory);
        section.get_contents(labels)
    }
}

/// The seven deferred values a new writer creates: the flags, the stream
/// count, the directory offset, the body's start (bound to 0) and size, and
/// the directory's start and size.
pub open spec fn fresh_rules() -> Seq<Rule> {
    seq![Rule::Unbound, Rule::Unbound, Rule::Unbound, Rule::Const(0), Rule::Unbound, Rule::Unbound, Rule::Unbound]
}

} // verus!
