//! The segment table of a Mini-ELF object file, and the loading of its
//! segments into the address space.

use crate::bytes::{le_value, read_u16_le, read_u32_le};
use crate::failure::Failure;
use vstd::prelude::*;

verus! {

/// The magic number of a segment's header.
pub const PHDR_MAGIC: u32 = 0xdeadbeef;

/// Number of bytes that a segment's header takes.
pub const PHDR_SIZE: u64 = 20;

/// A segment's header: where its bytes lie in the file, how many they are,
/// the address that they are loaded at, its kind and its permissions, then
/// the magic number; all little-endian.
#[derive(Clone, Copy, Debug, PartialEq, Eq)]
pub struct ElfPhdr {
    pub offset: u32,
    pub size: u32,
    pub vaddr: u32,
    pub ptype: u16,
    pub flags: u16,
    pub magic: u32,
}

/// The segment header that the twenty bytes from `pos` on spell.
pub open spec fn phdr_at(bytes: Seq<u8>, pos: int) -> ElfPhdr {
    ElfPhdr {
        offset: le_value(bytes, pos, 4) as u32,
        size: le_value(bytes, pos + 4, 4) as u32,
        vaddr: le_value(bytes, pos + 8, 4) as u32,
        ptype: le_value(bytes, pos + 12, 2) as u16,
        flags: le_value(bytes, pos + 14, 2) as u16,
        magic: le_value(bytes, pos + 16, 4) as u32,
    }
}

/// What reading a segment header at `offset` gives: the header there, if
/// the file holds twenty bytes from `offset` on and they end in the magic
/// number.
pub open spec fn phdr_of(bytes: Seq<u8>, offset: u16) -> Result<ElfPhdr, Failure> {
    if offset + PHDR_SIZE > bytes.len() {
        Err(Failure::Truncated)
    } else if phdr_at(bytes, offset as int).magic != PHDR_MAGIC {
        Err(Failure::BadMagic)
    } else {
        Ok(phdr_at(bytes, offset as int))
    }
}

/// Reads the segment header at `offset` in a file.
pub fn read_phdr(bytes: &[u8], offset: u16) -> (phdr: Result<ElfPhdr, Failure>)
    ensures
        phdr == phdr_of(bytes@, offset),
{
    let pos: u64 = offset as u64;
    let offset: u32 = match read_u32_le(bytes, pos) {
        Ok(v) => v,
        Err(_) => return Err(Failure::Truncated),
    };
    let size: u32 = match read_u32_le(bytes, pos + 4) {
        Ok(v) => v,
        Err(_) => return Err(Failure::Truncated),
    };
    let vaddr: u32 = match read_u32_le(bytes, pos + 8) {
        Ok(v) => v,
        Err(_) => return Err(Failure::Truncated),
    };
    let ptype: u16 = match read_u16_le(bytes, pos + 12) {
        Ok(v) => v,
        Err(_) => return Err(Failure::Truncated),
    };
    let flags: u16 = match read_u16_le(bytes, pos + 14) {
        Ok(v) => v,
        Err(_) => return Err(Failure::Truncated),
    };
    let magic: u32 = match read_u32_le(bytes, pos + 16) {
        Ok(v) => v,
        Err(_) => return Err(Failure::Truncated),
    };
    let phdr = ElfPhdr { offset, size, vaddr, ptype, flags, magic };
    if phdr.magic != PHDR_MAGIC {
        return Err(Failure::BadMagic);
    }

    Ok(phdr)
}

/// The address space after `count` bytes of the file, from `offset` on, were
/// copied to the addresses from `vaddr` on. Bytes that would go past the end
/// of the address space are not copied.
pub open spec fn loaded(mem: Seq<u8>, bytes: Seq<u8>, offset: int, vaddr: int, count: int) -> Seq<
    u8,
> {
    Seq::new(
        mem.len(),
        |a: int|
            if vaddr <= a < vaddr + count {
                bytes[offset + a - vaddr]
            } else {
                mem[a]
            },
    )
}

/// Whether the file holds all the bytes of a segment. A segment without
/// bytes asks nothing of the file.
pub open spec fn segment_in_file(bytes: Seq<u8>, phdr: ElfPhdr) -> bool {
    phdr.size == 0 || phdr.offset + phdr.size <= bytes.len()
}

/// Whether all of a segment's addresses lie in the address space. A segment
/// without bytes has no address.
pub open spec fn segment_in_memory(mem: Seq<u8>, phdr: ElfPhdr) -> bool {
    phdr.size == 0 || phdr.vaddr + phdr.size <= mem.len()
}

/// The first address of a segment that lies outside the address space, for
/// a segment that does not fit.
pub open spec fn first_address_outside(mem: Seq<u8>, phdr: ElfPhdr) -> u64 {
    if phdr.vaddr >= mem.len() {
        phdr.vaddr as u64
    } else {
        mem.len() as u64
    }
}

/// Copies a segment's bytes from the file into the address space.
///
/// Fails with `Truncated`, and copies nothing, where the file does not hold
/// all of the segment's bytes. Fails with `MemAccess` and the first address
/// that lies outside where the segment does not fit into the address space;
/// the bytes before that address have been copied by then.
pub fn load_segment(bytes: &[u8], memory: &mut [u8], phdr: &ElfPhdr) -> (r: Result<(), Failure>)
    ensures
        final(memory)@.len() == old(memory)@.len(),
        r == (if !segment_in_file(bytes@, *phdr) {
            Err(Failure::Truncated)
        } else if !segment_in_memory(old(memory)@, *phdr) {
            Err(Failure::MemAccess(first_address_outside(old(memory)@, *phdr)))
        } else {
            Ok(())
        }),
        final(memory)@ == (if segment_in_file(bytes@, *phdr) {
            loaded(old(memory)@, bytes@, phdr.offset as int, phdr.vaddr as int, phdr.size as int)
        } else {
            old(memory)@
        }),
{
    let size: u64 = phdr.size as u64;
    let offset: u64 = phdr.offset as u64;
    let vaddr: u64 = phdr.vaddr as u64;
    let file_len: u64 = bytes.len() as u64;
    let mem_len: u64 = memory.len() as u64;
    if size > 0 && offset + size > file_len {
        return Err(Failure::Truncated);
    }
    let mut i: u64 = 0;
    while i < size
        invariant
            i <= size,
            size == phdr.size,
            offset == phdr.offset,
            vaddr == phdr.vaddr,
            size == 0 || offset + size <= bytes@.len(),
            mem_len == memory@.len(),
            memory@.len() == old(memory)@.len(),
            vaddr + i <= mem_len || i == 0,
            memory@ == loaded(old(memory)@, bytes@, offset as int, vaddr as int, i as int),
        decreases size - i,
    {
        let addr: u64 = vaddr + i;
        if addr >= mem_len {
            assert(memory@ =~= loaded(
                old(memory)@,
                bytes@,
                offset as int,
                vaddr as int,
                size as int,
            ));
            return Err(Failure::MemAccess(addr));
        }
        memory[addr as usize] = bytes[(offset + i) as usize];
        i += 1;
        assert(memory@ =~= loaded(old(memory)@, bytes@, offset as int, vaddr as int, i as int));
    }
    Ok(())
}

/// The kind of a segment that holds data.
pub const PTYPE_DATA: u16 = 0;

/// The kind of a segment that holds code.
pub const PTYPE_CODE: u16 = 1;

/// The permissions of a data segment that holds strings: it can be read,
/// and neither written nor executed.
pub const FLAGS_RODATA: u16 = 4;

/// How a segment is listed.
#[derive(Clone, Copy, Debug, PartialEq, Eq, Structural)]
pub enum Kind {
    /// As instructions.
    Code,
    /// As 64-bit numbers.
    Data,
    /// As zero-terminated strings.
    Rodata,
    /// Not at all.
    Hidden,
}

/// How a segment of this kind and with these permissions is listed: a code
/// segment as instructions, a data segment as strings if its permissions
/// are those of read-only data and as numbers if not, and any other segment
/// not at all.
pub open spec fn kind_of(phdr: ElfPhdr) -> Kind {
    if phdr.ptype == PTYPE_CODE {
        Kind::Code
    } else if phdr.ptype != PTYPE_DATA {
        Kind::Hidden
    } else if phdr.flags == FLAGS_RODATA {
        Kind::Rodata
    } else {
        Kind::Data
    }
}

impl ElfPhdr {
    /// How the segment is listed.
    pub fn kind(&self) -> (kind: Kind)
        ensures
            kind == kind_of(*self),
    {
        if self.ptype == PTYPE_CODE {
            Kind::Code
        } else if self.ptype != PTYPE_DATA {
            Kind::Hidden
        } else if self.flags == FLAGS_RODATA {
            Kind::Rodata
        } else {
            Kind::Data
        }
    }
}

} // verus!
