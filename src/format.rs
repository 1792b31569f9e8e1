use vstd::prelude::*;

verus! {

/// "MDMP", the signature at the start of every minidump.
pub const MD_HEADER_SIGNATURE: u32 = 0x504d444d;
/// The format version in the header.
pub const MD_HEADER_VERSION: u32 = 0x0000a793;
/// The time stamp written into synthetic headers.
pub const HEADER_TIME_DATE_STAMP: u32 = 1262805309;
/// The size of the header in bytes.
pub const MD_HEADER_SIZE: usize = 32;
/// The stream type of the miscellaneous information stream.
pub const MD_MISC_INFO_STREAM: u32 = 15;
/// The size of the first version of the miscellaneous information record.
pub const MD_MISCINFO_SIZE: u32 = 24;
/// Set in the record's flags when the process id is present.
pub const MD_MISCINFO_FLAGS1_PROCESS_ID: u32 = 0x1;
/// Set in the record's flags when the process times are present.
pub const MD_MISCINFO_FLAGS1_PROCESS_TIMES: u32 = 0x2;

} // verus!
