use rustsdlretro_core::zip_rom::{
    extract_zip_to_memory, find_rom_entry, get_zip_rom_name, has_zip_magic, is_zip, temp_rom_name_parts,
};
use std::io::Write;

fn make_zip(entries: &[(&str, &[u8])]) -> Vec<u8> {
    let mut w = zip::ZipWriter::new(std::io::Cursor::new(Vec::new()));
    let opts = zip::write::SimpleFileOptions::default().compression_method(zip::CompressionMethod::Stored);
    for (name, data) in entries {
        w.start_file(*name, opts).unwrap();
        w.write_all(data).unwrap();
    }
    w.finish().unwrap().into_inner()
}

#[test]
fn test_is_zip_by_extension() {
    assert!(is_zip("game.zip", None));
    assert!(!is_zip("game.sfc", None));
    assert!(!is_zip("/path/to/rom.nes", None));
}

#[test]
fn zip_extension_in_any_case_and_by_signature() {
    assert!(is_zip("GAME.ZIP", None));
    assert!(is_zip("game.bin", Some(b"PK\x03\x04rest")));
    assert!(!is_zip("game.bin", Some(b"PK")));
    assert!(!is_zip("game.bin", Some(b"NES\x1a")));
    assert!(has_zip_magic(b"PK\x05\x06"));
    assert!(!has_zip_magic(b"KP\x03\x04"));
}

#[test]
fn rom_name_is_file_stem() {
    assert_eq!(get_zip_rom_name("/roms/mario.zip"), "mario");
    assert_eq!(get_zip_rom_name("zelda"), "zelda");
    assert_eq!(get_zip_rom_name(""), "Game");
}

#[test]
fn largest_rom_entry_is_chosen() {
    let big = vec![1u8; 100];
    let data = make_zip(&[("readme.txt", b"0123456789"), ("game.NES", b"small"), ("big.sfc", &big)]);
    assert_eq!(find_rom_entry(&data), Ok(Some(("big.sfc".to_string(), 2))));
    let (rom, name) = extract_zip_to_memory(&data).unwrap();
    assert_eq!(name, "big.sfc");
    assert_eq!(rom, big);
}

#[test]
fn single_rom_entry_and_case_of_extension() {
    let data = make_zip(&[("notes.txt", b"hello"), ("Sonic.MD", b"segadata")]);
    assert_eq!(find_rom_entry(&data), Ok(Some(("Sonic.MD".to_string(), 1))));
    let (rom, name) = extract_zip_to_memory(&data).unwrap();
    assert_eq!(name, "Sonic.MD");
    assert_eq!(rom, b"segadata".to_vec());
}

#[test]
fn equal_sizes_keep_first_rom() {
    let data = make_zip(&[("a.gb", b"1234"), ("b.gba", b"5678")]);
    assert_eq!(find_rom_entry(&data), Ok(Some(("a.gb".to_string(), 0))));
}

#[test]
fn archive_without_rom_is_refused() {
    let data = make_zip(&[("readme.txt", b"nothing here")]);
    assert_eq!(find_rom_entry(&data), Ok(None));
    assert_eq!(extract_zip_to_memory(&data), Err("No ROM file found in ZIP archive".to_string()));
}

#[test]
fn not_a_zip_is_refused() {
    assert_eq!(extract_zip_to_memory(b"NES\x1a0000"), Err("Not a valid ZIP file".to_string()));
    assert_eq!(extract_zip_to_memory(b"PK"), Err("Not a valid ZIP file".to_string()));
    let err = extract_zip_to_memory(b"PK\x03\x04garbage-that-is-no-archive").unwrap_err();
    assert!(err.starts_with("Invalid ZIP archive: "));
    assert!(find_rom_entry(b"PK\x03\x04garbage").is_err());
}

#[test]
fn empty_rom_is_refused() {
    let data = make_zip(&[("empty.nes", b"")]);
    assert_eq!(extract_zip_to_memory(&data), Err("Extracted ROM file is empty".to_string()));
}

#[test]
fn temp_names_keep_stem_and_extension() {
    assert_eq!(temp_rom_name_parts("mario.nes"), ("mario".to_string(), "nes".to_string()));
    assert_eq!(temp_rom_name_parts("roms/game.v1.sfc"), ("game.v1".to_string(), "sfc".to_string()));
    assert_eq!(temp_rom_name_parts("README"), ("README".to_string(), "rom".to_string()));
    assert_eq!(temp_rom_name_parts(""), ("extracted_rom".to_string(), "rom".to_string()));
}

#[test]
fn path_parts_agree_with_std() {
    let paths = [
        "", ".", "..", "/", "./", "a", "a.b", "a.b.c", ".bashrc", ".a.b", "a.", "dir/", "dir/.", "dir/./",
        "dir/..", "/x/y.zip", "x//y.tar.gz/", "./rom.nes", "a/.hidden", "..rom", "a..b", "a/b/../c.sfc",
    ];
    for p in paths {
        let std_path = std::path::Path::new(p);
        let stem = std_path.file_stem().map(|s| s.to_string_lossy().into_owned());
        let ext = std_path.extension().map(|s| s.to_string_lossy().into_owned());
        let (s, e) = temp_rom_name_parts(p);
        assert_eq!(s, stem.clone().unwrap_or_else(|| "extracted_rom".to_string()), "stem of {:?}", p);
        assert_eq!(e, ext.unwrap_or_else(|| "rom".to_string()), "extension of {:?}", p);
        assert_eq!(get_zip_rom_name(p), stem.unwrap_or_else(|| "Game".to_string()), "name of {:?}", p);
    }
}
