use nes::cartridge::{parse_ines_header, Cartridge, MapperType, Mirroring};
use nes::error::EmuError;

fn image(mapper: u8, prg_banks: u8, chr_banks: u8, flags6_low: u8) -> Vec<u8> {
    let mut file = vec![0x4E, 0x45, 0x53, 0x1A, prg_banks, chr_banks];
    file.push(((mapper & 0x0F) << 4) | flags6_low);
    file.push(mapper & 0xF0);
    file.extend_from_slice(&[0u8; 8]);
    for i in 0..prg_banks as usize * 0x4000 {
        file.push((i % 251) as u8);
    }
    for i in 0..chr_banks as usize * 0x2000 {
        file.push((i % 241) as u8);
    }
    file
}

fn rejection(file: &[u8]) -> EmuError {
    match Cartridge::new(file) {
        Ok(_) => panic!("the image was accepted"),
        Err(e) => e,
    }
}

#[test]
fn splits_program_and_character_memory() {
    let file = image(1, 2, 1, 1);
    let cartridge = Cartridge::new(&file).unwrap();
    assert_eq!(cartridge.mapper_type, MapperType::MMC1);
    assert_eq!(cartridge.mirroring, Mirroring::Vertical);
    let prg = cartridge.prg_rom.unwrap();
    let chr = cartridge.chr_rom.unwrap();
    assert_eq!(prg.len(), 0x8000);
    assert_eq!(chr.len(), 0x2000);
    assert_eq!(&prg[..], &file[16..16 + 0x8000]);
    assert_eq!(&chr[..], &file[16 + 0x8000..16 + 0x8000 + 0x2000]);
}

#[test]
fn header_fields_are_taken_in_order() {
    let mut file = image(0, 1, 1, 0);
    file[8] = 1;
    file[9] = 7;
    file[10] = 9;
    let header = parse_ines_header(&file[..16]).unwrap();
    assert_eq!(header.magic, [0x4E, 0x45, 0x53, 0x1A]);
    assert_eq!(header.prg_rom_size, 1);
    assert_eq!(header.chr_rom_size, 1);
    assert_eq!(header.flags6, 0);
    assert_eq!(header.flags7, 0);
    assert_eq!(header.flags8, 1);
    assert_eq!(header.flags9, 7);
    assert_eq!(header.flags10, 9);
    assert_eq!(header.unused, [0; 5]);
}

#[test]
fn header_without_signature_is_refused() {
    let mut file = image(0, 1, 1, 0);
    file[3] = 0x1B;
    assert!(matches!(parse_ines_header(&file[..16]), Err(EmuError::BadRomMagic)));
}

#[test]
fn every_supported_mapper_is_recognised() {
    let kinds = [
        (0u8, MapperType::Nrom),
        (1, MapperType::MMC1),
        (2, MapperType::Uxrom),
        (3, MapperType::Cnrom),
        (4, MapperType::MMC3),
        (7, MapperType::Axrom),
    ];
    for (number, kind) in kinds {
        let cartridge = Cartridge::new(&image(number, 1, 1, 0)).unwrap();
        assert_eq!(cartridge.mapper_type, kind);
    }
}

#[test]
fn unsupported_mappers_are_refused_with_their_number() {
    assert_eq!(rejection(&image(5, 1, 1, 0)), EmuError::UnsupportedMapper(5));
    assert_eq!(rejection(&image(6, 1, 1, 0)), EmuError::UnsupportedMapper(6));
    assert_eq!(rejection(&image(0x42, 1, 1, 0)), EmuError::UnsupportedMapper(0x42));
    assert_eq!(rejection(&image(0xF1, 1, 1, 0)), EmuError::UnsupportedMapper(0xF1));
}

#[test]
fn bad_signature_is_refused() {
    let mut file = image(0, 1, 1, 0);
    file[0] = 0x4D;
    assert_eq!(rejection(&file), EmuError::BadRomMagic);
}

#[test]
fn trainer_is_refused() {
    assert_eq!(rejection(&image(0, 1, 1, 0b0100)), EmuError::TrainerUnsupported);
}

#[test]
fn format_version_two_and_later_is_refused() {
    let mut file = image(0, 1, 1, 0);
    file[7] |= 0b1000;
    assert_eq!(rejection(&file), EmuError::UnsupportedInesVersion);
    file[7] |= 0b1100;
    assert_eq!(rejection(&file), EmuError::UnsupportedInesVersion);
    file[7] = 0b0100;
    assert!(Cartridge::new(&file).is_ok());
}

#[test]
fn more_than_eight_kib_of_work_ram_is_refused() {
    let mut file = image(0, 1, 1, 0);
    file[8] = 1;
    assert!(Cartridge::new(&file).is_ok());
    file[8] = 2;
    assert_eq!(rejection(&file), EmuError::PrgRamTooBig);
}

#[test]
fn short_images_are_refused() {
    let file = image(0, 1, 1, 0);
    assert_eq!(rejection(&file[..10]), EmuError::TruncatedRom);
    assert_eq!(rejection(&file[..file.len() - 1]), EmuError::TruncatedRom);
    assert_eq!(rejection(&[]), EmuError::TruncatedRom);
}

#[test]
fn the_first_failing_check_decides() {
    let mut file = image(5, 1, 1, 0b0100);
    file[8] = 3;
    assert_eq!(rejection(&file), EmuError::PrgRamTooBig);
    file[8] = 0;
    assert_eq!(rejection(&file), EmuError::TrainerUnsupported);
    file[6] &= !0b0100;
    assert_eq!(rejection(&file), EmuError::UnsupportedMapper(5));
}

#[test]
fn name_table_arrangement_follows_the_header() {
    assert_eq!(Cartridge::new(&image(0, 1, 1, 0)).unwrap().mirroring, Mirroring::Horizontal);
    assert_eq!(Cartridge::new(&image(0, 1, 1, 1)).unwrap().mirroring, Mirroring::Vertical);
    assert_eq!(Cartridge::new(&image(0, 1, 1, 0b1000)).unwrap().mirroring, Mirroring::FourScreen);
    assert_eq!(Cartridge::new(&image(0, 1, 1, 0b1001)).unwrap().mirroring, Mirroring::FourScreen);
    assert_eq!(Cartridge::new(&image(7, 2, 0, 0)).unwrap().mirroring, Mirroring::SingleScreen);
    assert_eq!(Cartridge::new(&image(7, 2, 0, 1)).unwrap().mirroring, Mirroring::Vertical);
}

#[test]
fn program_size_must_suit_the_mapper() {
    assert!(Cartridge::new(&image(0, 1, 1, 0)).unwrap().is_loadable(false));
    assert!(Cartridge::new(&image(0, 2, 1, 0)).unwrap().is_loadable(false));
    assert!(!Cartridge::new(&image(0, 3, 1, 0)).unwrap().is_loadable(false));
    assert!(!Cartridge::new(&image(0, 0, 1, 0)).unwrap().is_loadable(false));
    assert!(Cartridge::new(&image(1, 8, 1, 0)).unwrap().is_loadable(false));
    assert!(!Cartridge::new(&image(2, 0, 1, 0)).unwrap().is_loadable(false));
    assert!(Cartridge::new(&image(7, 0, 0, 0)).unwrap().is_loadable(false));
    assert!(Cartridge::new(&image(0, 0, 1, 0)).unwrap().is_loadable(true));
    assert!(!Cartridge::new(&image(0, 3, 1, 0)).unwrap().is_loadable(true));
}
