use synth_minidump::bytes::{Endian, byte_of};
use synth_minidump::deferred::Labels;
use synth_minidump::dump::{DumpSection, DumpString, List, MiscStream, SimpleStream, Stream, SynthMinidump};
use synth_minidump::section::Section;

#[test]
fn flags_default_to_zero() {
    let mut l = Labels::new();
    let bytes = SynthMinidump::with_endian(&mut l, Endian::Little).finish(&mut l).unwrap();
    assert_eq!(bytes.len(), 32);
    assert_eq!(&bytes[24..32], &[0, 0, 0, 0, 0, 0, 0, 0]);
}

#[test]
fn flags_are_set_once() {
    let mut l = Labels::new();
    let bytes = SynthMinidump::new(&mut l).flags(&mut l, 7).flags(&mut l, 9).finish(&mut l).unwrap();
    assert_eq!(&bytes[24..32], &[7, 0, 0, 0, 0, 0, 0, 0]);
}

#[test]
fn no_streams_directory_at_end_of_body() {
    let mut l = Labels::new();
    let d = SynthMinidump::new(&mut l);
    let body = Section::with_endian(&mut l, Endian::Little).append_bytes(&[1, 2, 3]);
    let bytes = d.add(&mut l, body).finish(&mut l).unwrap();
    assert_eq!(bytes.len(), 35);
    assert_eq!(&bytes[8..12], &[0, 0, 0, 0]);
    assert_eq!(&bytes[12..16], &[35, 0, 0, 0]);
    assert_eq!(&bytes[32..], &[1, 2, 3]);
}

#[test]
fn two_streams_in_directory_order() {
    let mut l = Labels::new();
    let a = SimpleStream { stream_type: 5, section: Section::with_endian(&mut l, Endian::Little).d16(0xbeef) };
    let b = SimpleStream { stream_type: 6, section: Section::with_endian(&mut l, Endian::Little).d8(0x42) };
    let bytes = SynthMinidump::new(&mut l).add_stream(&mut l, a).add_stream(&mut l, b).finish(&mut l).unwrap();
    assert_eq!(&bytes[8..12], &[2, 0, 0, 0]);
    assert_eq!(&bytes[12..16], &[35, 0, 0, 0]);
    assert_eq!(&bytes[32..35], &[0xef, 0xbe, 0x42]);
    assert_eq!(
        &bytes[35..],
        &[5, 0, 0, 0, 2, 0, 0, 0, 32, 0, 0, 0, 6, 0, 0, 0, 1, 0, 0, 0, 34, 0, 0, 0]
    );
}

#[test]
fn unbound_value_fails() {
    let mut l = Labels::new();
    let d = SynthMinidump::new(&mut l);
    let x = l.new_label();
    let s = Section::with_endian(&mut l, Endian::Little).d32_label(x);
    assert_eq!(d.add(&mut l, s).finish(&mut l), None);
}

#[test]
fn citing_an_unplaced_unit_fails() {
    let mut l = Labels::new();
    let unit = Section::with_endian(&mut l, Endian::Little).d8(1);
    let target = Section::with_endian(&mut l, Endian::Little);
    let target = unit.cite_location_in(target);
    assert_eq!(target.get_contents(&mut l), None);
}

#[test]
fn citing_a_sibling_unit() {
    let mut l = Labels::new();
    let d = SynthMinidump::new(&mut l);
    let s = DumpString::new(&mut l, "hi", Endian::Little);
    let pointer = Section::with_endian(&mut l, Endian::Little);
    let pointer = s.cite_location_in(pointer);
    let bytes = d.add(&mut l, pointer).add(&mut l, s).finish(&mut l).unwrap();
    assert_eq!(&bytes[32..40], &[8, 0, 0, 0, 40, 0, 0, 0]);
    assert_eq!(&bytes[40..], &[4, 0, 0, 0, b'h', 0, b'i', 0]);
}

#[test]
fn late_binding_resolves() {
    let mut l = Labels::new();
    let x = l.new_label();
    let s = Section::with_endian(&mut l, Endian::Big).d16(0x0102).d32_label(x);
    assert!(l.set_const(x, 0x0a0b0c0d));
    assert!(!l.set_const(x, 1));
    assert_eq!(l.value(x), Some(0x0a0b0c0d));
    assert_eq!(s.get_contents(&mut l).unwrap(), vec![1, 2, 0x0a, 0x0b, 0x0c, 0x0d]);
}

#[test]
fn label_arithmetic() {
    let mut l = Labels::new();
    let a = l.new_label();
    let b = l.new_label();
    let sum = l.label_sum(a, b);
    let diff = l.label_diff(a, b);
    let s = Section::with_endian(&mut l, Endian::Little).d8(0).d32_label(sum).d32_label(diff);
    l.set_const(a, 10);
    l.set_const(b, 3);
    assert_eq!(s.get_contents(&mut l).unwrap(), vec![0, 13, 0, 0, 0, 7, 0, 0, 0]);
}

#[test]
fn cyclic_values_fail() {
    let mut l = Labels::new();
    let a = l.new_label();
    let b = l.label_sum(a, a);
    l.bind(a.id, synth_minidump::deferred::Rule::Offset(b.id, 1));
    assert_eq!(l.value(a), None);
}

#[test]
fn mark_and_sizes() {
    let mut l = Labels::new();
    let s = Section::with_endian(&mut l, Endian::Little);
    let here = l.new_label();
    let size = s.final_size();
    let s = s.d32_label(size).d16(0).mark(&mut l, here).d64_label(here);
    assert_eq!(
        s.get_contents(&mut l).unwrap(),
        vec![14, 0, 0, 0, 0, 0, 6, 0, 0, 0, 0, 0, 0, 0]
    );
}

#[test]
fn nested_section_offsets_rebase() {
    let mut l = Labels::new();
    let outer = Section::with_endian(&mut l, Endian::Little).d16(0);
    let inner = Section::with_endian(&mut l, Endian::Little);
    let here = l.new_label();
    let inner = inner.d8(9).mark(&mut l, here).d32_label(here);
    let outer = outer.append_section(&mut l, inner);
    assert_eq!(outer.get_contents(&mut l).unwrap(), vec![0, 0, 9, 3, 0, 0, 0]);
}

#[test]
fn dump_string_lengths() {
    let mut l = Labels::new();
    let s = DumpString::new(&mut l, "hello", Endian::Little);
    let s = s.into_section(&mut l);
    assert_eq!(
        s.get_contents(&mut l).unwrap(),
        vec![10, 0, 0, 0, b'h', 0, b'e', 0, b'l', 0, b'l', 0, b'o', 0]
    );
    let big = DumpString::from_encoded(&mut l, &[1, 2], Endian::Big).into_section(&mut l);
    assert_eq!(big.get_contents(&mut l).unwrap(), vec![0, 0, 0, 2, 1, 2]);
    let empty = DumpString::new(&mut l, "", Endian::Little).into_section(&mut l);
    assert_eq!(empty.get_contents(&mut l).unwrap(), vec![0, 0, 0, 0]);
}

#[test]
fn misc_with_process_id_only() {
    let mut l = Labels::new();
    let mut m = MiscStream::new(&mut l, Endian::Little);
    m.process_id = Some(0x1234);
    assert_eq!(m.stream_type(), 15);
    let s = m.into_section(&mut l);
    assert_eq!(
        s.get_contents(&mut l).unwrap(),
        vec![24, 0, 0, 0, 1, 0, 0, 0, 0x34, 0x12, 0, 0, 0, 0, 0, 0, 0, 0, 0, 0, 0, 0, 0, 0]
    );
}

#[test]
fn misc_with_time_and_padding() {
    let mut l = Labels::new();
    let mut m = MiscStream::new(&mut l, Endian::Big);
    m.process_create_time = Some(0x01020304);
    m.pad_to_size = Some(28);
    let bytes = m.into_section(&mut l).get_contents(&mut l).unwrap();
    assert_eq!(bytes.len(), 28);
    assert_eq!(&bytes[0..12], &[0, 0, 0, 24, 0, 0, 0, 2, 0, 0, 0, 0]);
    assert_eq!(&bytes[12..16], &[1, 2, 3, 4]);
    assert_eq!(&bytes[16..], &[0; 12]);
}

#[test]
fn bytes_of_integers() {
    assert_eq!(byte_of(0x0102030405060708, 0), 8);
    assert_eq!(byte_of(0x0102030405060708, 7), 1);
}

#[test]
fn nested_lists() {
    let mut l = Labels::new();
    let inner = List::new(&mut l, 1, Endian::Little);
    let x = DumpString::new(&mut l, "x", Endian::Little);
    let inner = inner.add(&mut l, x);
    let outer = List::new(&mut l, 2, Endian::Little).add(&mut l, inner);
    let empty = List::<DumpString>::new(&mut l, 3, Endian::Little);
    let outer = outer.add(&mut l, empty);
    assert_eq!(
        outer.into_section(&mut l).get_contents(&mut l).unwrap(),
        vec![2, 0, 0, 0, 1, 0, 0, 0, 2, 0, 0, 0, b'x', 0, 0, 0, 0, 0]
    );
}

#[test]
fn list_stream_in_dump() {
    let mut l = Labels::new();
    let d = SynthMinidump::new(&mut l);
    let list = List::new(&mut l, 0x77, Endian::Little);
    let a = DumpString::new(&mut l, "a", Endian::Little);
    let list = list.add(&mut l, a);
    let b = DumpString::new(&mut l, "b", Endian::Little);
    let list = list.add(&mut l, b);
    let bytes = d.add_stream(&mut l, list).finish(&mut l).unwrap();
    assert_eq!(&bytes[8..16], &[1, 0, 0, 0, 48, 0, 0, 0]);
    assert_eq!(&bytes[32..36], &[2, 0, 0, 0]);
    assert_eq!(&bytes[48..], &[0x77, 0, 0, 0, 16, 0, 0, 0, 32, 0, 0, 0]);
}

#[test]
fn padded_misc_stream_declares_unpadded_size() {
    let mut l = Labels::new();
    let d = SynthMinidump::new(&mut l);
    let mut m = MiscStream::new(&mut l, Endian::Little);
    m.process_id = Some(7);
    m.pad_to_size = Some(32);
    let bytes = d.add_stream(&mut l, m).finish(&mut l).unwrap();
    assert_eq!(bytes.len(), 32 + 32 + 12);
    assert_eq!(&bytes[32..40], &[24, 0, 0, 0, 1, 0, 0, 0]);
    assert_eq!(&bytes[64..], &[15, 0, 0, 0, 32, 0, 0, 0, 32, 0, 0, 0]);
}
