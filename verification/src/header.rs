//! The header of a Mini-ELF object file.

use crate::bytes::{le_value, read_u16_le, read_u32_le};
use vstd::prelude::*;

verus! {

/// The magic number of the file header: the bytes `45 4c 46 00`.
pub const HEADER_MAGIC: u32 = 0x464c45;

/// Number of bytes that the file header takes.
pub const HEADER_SIZE: u64 = 16;

/// The file header: six 16-bit fields and the magic number, all
/// little-endian, at the start of the file.
#[derive(Clone, Copy, Debug, PartialEq, Eq)]
pub struct ElfHdr {
    pub version: u16,
    pub entry: u16,
    pub phdr_start: u16,
    pub num_phdr: u16,
    pub symtab: u16,
    pub strtab: u16,
    pub magic: u32,
}

/// The header that the sixteen bytes from `pos` on spell.
pub open spec fn header_at(bytes: Seq<u8>, pos: int) -> ElfHdr {
    ElfHdr {
        version: le_value(bytes, pos, 2) as u16,
        entry: le_value(bytes, pos + 2, 2) as u16,
        phdr_start: le_value(bytes, pos + 4, 2) as u16,
        num_phdr: le_value(bytes, pos + 6, 2) as u16,
        symtab: le_value(bytes, pos + 8, 2) as u16,
        strtab: le_value(bytes, pos + 10, 2) as u16,
        magic: le_value(bytes, pos + 12, 4) as u32,
    }
}

/// The file's header: the one at its start, if the file is long enough to
/// hold it and it carries the magic number.
pub open spec fn header_of(bytes: Seq<u8>) -> Option<ElfHdr> {
    if bytes.len() >= HEADER_SIZE && header_at(bytes, 0).magic == HEADER_MAGIC {
        Some(header_at(bytes, 0))
    } else {
        None
    }
}

/// Reads the header at the start of a file.
pub fn read_header(bytes: &[u8]) -> (hdr: Option<ElfHdr>)
    ensures
        hdr == header_of(bytes@),
{
    let version: u16 = match read_u16_le(bytes, 0) {
        Ok(v) => v,
        Err(_) => return None,
    };
    let entry: u16 = match read_u16_le(bytes, 2) {
        Ok(v) => v,
        Err(_) => return None,
    };
    let phdr_start: u16 = match read_u16_le(bytes, 4) {
        Ok(v) => v,
        Err(_) => return None,
    };
    let num_phdr: u16 = match read_u16_le(bytes, 6) {
        Ok(v) => v,
        Err(_) => return None,
    };
    let symtab: u16 = match read_u16_le(bytes, 8) {
        Ok(v) => v,
        Err(_) => return None,
    };
    let strtab: u16 = match read_u16_le(bytes, 10) {
        Ok(v) => v,
        Err(_) => return None,
    };
    let magic: u32 = match read_u32_le(bytes, 12) {
        Ok(v) => v,
        Err(_) => return None,
    };
    let hdr = ElfHdr { version, entry, phdr_start, num_phdr, symtab, strtab, magic };

    if hdr.magic != HEADER_MAGIC {
        return None;
    }
    Some(hdr)
}

} // verus!
