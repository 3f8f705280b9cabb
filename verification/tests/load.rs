use y86disas::failure::Failure;
use y86disas::header::{read_header, ElfHdr, HEADER_MAGIC};
use y86disas::load::{load_segment, read_phdr, ElfPhdr, Kind, PHDR_MAGIC};
use y86disas::MEMSIZE;

const HEADER: [u8; 16] = [
    0x01, 0x00, 0x00, 0x01, 0x10, 0x00, 0x02, 0x00, 0x34, 0x12, 0xCD, 0xAB, 0x45, 0x4C, 0x46, 0x00,
];

const PHDR: [u8; 20] = [
    0x38, 0x00, 0x00, 0x00, 0x0D, 0x00, 0x00, 0x00, 0x00, 0x01, 0x00, 0x00, 0x01, 0x00, 0x05, 0x00,
    0xEF, 0xBE, 0xAD, 0xDE,
];

#[test]
fn header_is_little_endian() {
    assert_eq!(
        read_header(&HEADER),
        Some(ElfHdr {
            version: 1,
            entry: 0x100,
            phdr_start: 16,
            num_phdr: 2,
            symtab: 0x1234,
            strtab: 0xABCD,
            magic: 0x464c45,
        })
    );
    assert_eq!(HEADER_MAGIC, 0x464c45);
}

#[test]
fn header_ignores_what_follows() {
    let mut file = HEADER.to_vec();
    file.extend_from_slice(&[0xFF; 40]);
    assert_eq!(read_header(&file), read_header(&HEADER));
    assert!(read_header(&file).is_some());
}

#[test]
fn short_file_has_no_header() {
    for len in 0..16 {
        assert_eq!(read_header(&HEADER[..len]), None);
    }
}

#[test]
fn header_needs_its_magic_number() {
    for at in 12..16 {
        let mut file = HEADER;
        file[at] ^= 1;
        assert_eq!(read_header(&file), None);
    }
    let mut file = HEADER;
    file[0] ^= 1;
    assert!(read_header(&file).is_some());
}

#[test]
fn segment_header_is_little_endian() {
    let mut file = vec![0u8; 16];
    file.extend_from_slice(&PHDR);
    assert_eq!(
        read_phdr(&file, 16),
        Ok(ElfPhdr {
            offset: 0x38,
            size: 13,
            vaddr: 0x100,
            ptype: 1,
            flags: 5,
            magic: 0xdeadbeef,
        })
    );
    assert_eq!(PHDR_MAGIC, 0xdeadbeef);
    assert_eq!(read_phdr(&PHDR, 0), read_phdr(&file, 16));
}

#[test]
fn segment_header_cut_off() {
    let mut file = vec![0u8; 16];
    file.extend_from_slice(&PHDR);
    assert_eq!(read_phdr(&file, 17), Err(Failure::Truncated));
    assert_eq!(read_phdr(&file[..35], 16), Err(Failure::Truncated));
    assert_eq!(read_phdr(&file, 36), Err(Failure::Truncated));
    assert_eq!(read_phdr(&file, 65535), Err(Failure::Truncated));
    assert_eq!(read_phdr(&[], 0), Err(Failure::Truncated));
}

#[test]
fn segment_header_needs_its_magic_number() {
    let mut file = PHDR;
    file[19] = 0xDF;
    assert_eq!(read_phdr(&file, 0), Err(Failure::BadMagic));
    assert_eq!(read_phdr(&[0u8; 20], 0), Err(Failure::BadMagic));
}

fn segment(offset: u32, size: u32, vaddr: u32) -> ElfPhdr {
    ElfPhdr { offset, size, vaddr, ptype: 1, flags: 5, magic: 0xdeadbeef }
}

#[test]
fn segment_is_copied_to_its_address() {
    let file: Vec<u8> = (0..64u8).collect();
    let mut memory = vec![0xAAu8; MEMSIZE as usize];
    assert_eq!(load_segment(&file, &mut memory, &segment(10, 5, 0x100)), Ok(()));
    let mut expected = vec![0xAAu8; 4096];
    expected[0x100..0x105].copy_from_slice(&[10, 11, 12, 13, 14]);
    assert_eq!(memory, expected);

    // up to the last byte of both
    assert_eq!(load_segment(&file, &mut memory, &segment(60, 4, 4092)), Ok(()));
    expected[4092..].copy_from_slice(&[60, 61, 62, 63]);
    assert_eq!(memory, expected);
}

#[test]
fn segment_without_bytes() {
    let mut memory = vec![1u8; 16];
    assert_eq!(load_segment(&[], &mut memory, &segment(500, 0, 9000)), Ok(()));
    assert_eq!(memory, vec![1u8; 16]);
}

#[test]
fn segment_cut_off_in_the_file() {
    let file = [1u8, 2, 3, 4];
    let mut memory = vec![0u8; 16];
    assert_eq!(load_segment(&file, &mut memory, &segment(2, 3, 0)), Err(Failure::Truncated));
    assert_eq!(load_segment(&file, &mut memory, &segment(4, 1, 0)), Err(Failure::Truncated));
    assert_eq!(
        load_segment(&file, &mut memory, &segment(u32::MAX, u32::MAX, 0)),
        Err(Failure::Truncated)
    );
    assert_eq!(memory, vec![0u8; 16]);
}

#[test]
fn segment_past_the_address_space() {
    let file = [1u8, 2, 3, 4];
    let mut memory = vec![0u8; 16];
    assert_eq!(
        load_segment(&file, &mut memory, &segment(0, 4, 14)),
        Err(Failure::MemAccess(16))
    );
    // the bytes before the end have been copied
    let mut expected = vec![0u8; 16];
    expected[14] = 1;
    expected[15] = 2;
    assert_eq!(memory, expected);

    assert_eq!(
        load_segment(&file, &mut memory, &segment(0, 4, 16)),
        Err(Failure::MemAccess(16))
    );
    assert_eq!(
        load_segment(&file, &mut memory, &segment(0, 1, 70000)),
        Err(Failure::MemAccess(70000))
    );
    assert_eq!(memory, expected);
}

#[test]
fn kinds_of_segments() {
    let phdr = |ptype: u16, flags: u16| ElfPhdr {
        offset: 0,
        size: 0,
        vaddr: 0,
        ptype,
        flags,
        magic: 0xdeadbeef,
    };
    assert_eq!(phdr(1, 5).kind(), Kind::Code);
    assert_eq!(phdr(1, 4).kind(), Kind::Code);
    assert_eq!(phdr(0, 4).kind(), Kind::Rodata);
    assert_eq!(phdr(0, 6).kind(), Kind::Data);
    assert_eq!(phdr(0, 0).kind(), Kind::Data);
    assert_eq!(phdr(0, 5).kind(), Kind::Data);
    assert_eq!(phdr(2, 6).kind(), Kind::Hidden);
    assert_eq!(phdr(2, 4).kind(), Kind::Hidden);
    assert_eq!(phdr(7, 4).kind(), Kind::Hidden);
}
