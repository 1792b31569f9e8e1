use synth_minidump::bytes::Endian;
use synth_minidump::deferred::Labels;
use synth_minidump::dump::{DumpSection, DumpString, List, MiscStream, SimpleStream, SynthMinidump};
use synth_minidump::format::MD_HEADER_SIZE;
use synth_minidump::section::Section;

#[test]
fn test_dump_header() {
    let mut labels = Labels::new();
    let dump = SynthMinidump::with_endian(&mut labels, Endian::Little).flags(&mut labels, 0x9f738b33685cc84c);
    assert_eq!(
        dump.finish(&mut labels).unwrap(),
        vec![
            0x4d, 0x44, 0x4d, 0x50, // signature
            0x93, 0xa7, 0x00, 0x00, // version
            0, 0, 0, 0, // stream count
            0x20, 0, 0, 0, // directory RVA
            0, 0, 0, 0, // checksum
            0x3d, 0xe1, 0x44, 0x4b, // time_date_stamp
            0x4c, 0xc8, 0x5c, 0x68, // flags
            0x33, 0x8b, 0x73, 0x9f,
        ]
    );
}

#[test]
fn test_dump_header_bigendian() {
    let mut labels = Labels::new();
    let dump = SynthMinidump::with_endian(&mut labels, Endian::Big).flags(&mut labels, 0x9f738b33685cc84c);
    assert_eq!(
        dump.finish(&mut labels).unwrap(),
        vec![
            0x50, 0x4d, 0x44, 0x4d, // signature
            0x00, 0x00, 0xa7, 0x93, // version
            0, 0, 0, 0, // stream count
            0, 0, 0, 0x20, // directory RVA
            0, 0, 0, 0, // checksum
            0x4b, 0x44, 0xe1, 0x3d, // time_date_stamp
            0x9f, 0x73, 0x8b, 0x33, // flags
            0x68, 0x5c, 0xc8, 0x4c,
        ]
    );
}

#[test]
fn test_section_cite() {
    let mut labels = Labels::new();
    let s1 = Section::with_endian(&mut labels, Endian::Little).append_repeated(0, 0x0a);
    labels.set_const(s1.start(), 0xff00ee11);
    let s2 = Section::with_endian(&mut labels, Endian::Little);
    let s2 = s1.cite_location_in(s2);
    s1.get_contents(&mut labels).unwrap();
    assert_eq!(
        s2.get_contents(&mut labels).unwrap(),
        vec![0x0a, 0, 0, 0, 0x11, 0xee, 0x00, 0xff]
    );
}

#[test]
fn test_dump_string() {
    let mut labels = Labels::new();
    let dump = SynthMinidump::with_endian(&mut labels, Endian::Little);
    let s = DumpString::new(&mut labels, "hello", Endian::Little);
    let contents = dump.add(&mut labels, s).finish(&mut labels).unwrap();
    // Skip over the header
    assert_eq!(
        &contents[MD_HEADER_SIZE..],
        &[0xa, 0x0, 0x0, 0x0, // length
          b'h', 0x0, b'e', 0x0, b'l', 0x0, b'l', 0x0, b'o', 0x0]
    );
}

#[test]
fn test_list() {
    // Empty list
    let mut labels = Labels::new();
    let list = List::<DumpString>::new(&mut labels, 0x11223344, Endian::Little);
    assert_eq!(list.into_section(&mut labels).get_contents(&mut labels).unwrap(), vec![0, 0, 0, 0]);
    let list = List::new(&mut labels, 0x11223344, Endian::Little);
    let a = DumpString::new(&mut labels, "a", Endian::Little);
    let list = list.add(&mut labels, a);
    let b = DumpString::new(&mut labels, "b", Endian::Little);
    let list = list.add(&mut labels, b);
    assert_eq!(
        list.into_section(&mut labels).get_contents(&mut labels).unwrap(),
        vec![
            2, 0, 0, 0, // entry count
            // first entry
            0x2, 0x0, 0x0, 0x0, // length
            b'a', 0x0,
            // second entry
            0x2, 0x0, 0x0, 0x0, // length
            b'b', 0x0,
        ]
    );
}

#[test]
fn test_simple_stream() {
    let mut labels = Labels::new();
    let section = Section::with_endian(&mut labels, Endian::Little).d32(0x55667788);
    let stream_rva = MD_HEADER_SIZE as u8;
    let directory_rva = stream_rva + section.size() as u8;
    let dump = SynthMinidump::with_endian(&mut labels, Endian::Little)
        .flags(&mut labels, 0x9f738b33685cc84c)
        .add_stream(&mut labels, SimpleStream { stream_type: 0x11223344, section: section });
    assert_eq!(
        dump.finish(&mut labels).unwrap(),
        vec![
            0x4d, 0x44, 0x4d, 0x50, // signature
            0x93, 0xa7, 0x00, 0x00, // version
            1, 0, 0, 0, // stream count
            directory_rva, 0, 0, 0, // directory RVA
            0, 0, 0, 0, // checksum
            0x3d, 0xe1, 0x44, 0x4b, // time_date_stamp
            0x4c, 0xc8, 0x5c, 0x68, // flags
            0x33, 0x8b, 0x73, 0x9f,
            // Stream contents
            0x88, 0x77, 0x66, 0x55,
            // Stream directory
            0x44, 0x33, 0x22, 0x11, // stream type
            4, 0, 0, 0, // size
            stream_rva, 0, 0, 0, // rva
        ]
    );
}

#[test]
fn test_simple_stream_bigendian() {
    let mut labels = Labels::new();
    let section = Section::with_endian(&mut labels, Endian::Big).d32(0x55667788);
    let stream_rva = MD_HEADER_SIZE as u8;
    let directory_rva = stream_rva + section.size() as u8;
    let dump = SynthMinidump::with_endian(&mut labels, Endian::Big)
        .flags(&mut labels, 0x9f738b33685cc84c)
        .add_stream(&mut labels, SimpleStream { stream_type: 0x11223344, section: section });
    assert_eq!(
        dump.finish(&mut labels).unwrap(),
        vec![
            0x50, 0x4d, 0x44, 0x4d, // signature
            0x00, 0x00, 0xa7, 0x93, // version
            0, 0, 0, 1, // stream count
            0, 0, 0, directory_rva, // directory RVA
            0, 0, 0, 0, // checksum
            0x4b, 0x44, 0xe1, 0x3d, // time_date_stamp
            0x9f, 0x73, 0x8b, 0x33, // flags
            0x68, 0x5c, 0xc8, 0x4c,
            // Stream contents
            0x55, 0x66, 0x77, 0x88,
            // Stream directory
            0x11, 0x22, 0x33, 0x44, // stream type
            0, 0, 0, 4, // size
            0, 0, 0, stream_rva, // rva
        ]
    );
}
