use lib1337patch::{F1337Patch, HexPatch, PatchFileError};

fn strings(lines: &[&str]) -> Vec<String> {
    lines.iter().map(|l| l.to_string()).collect()
}

#[test]
fn test_f1337patch_new() {
    let f1337path = F1337Patch::new("test.exe".to_string());

    assert_eq!(f1337path.target_filename, "test.exe");
    assert_eq!(f1337path.patches.len(), 0);
}

#[test]
fn test_check_patch_line_format_wrong_format() {
    let lines = vec![
        "0000000000AF0200:13->3",
        "000000AF0200:13->32",
        "0000000000AF020089:13->3A",
        "0000000000AF0200:13->ZA",
        "0000000000AF02KK:13->3A",
    ];

    for line in lines {
        let wrong_format = F1337Patch::check_patch_line_format(&line.to_string()).unwrap_err();
        assert_eq!(wrong_format, PatchFileError::WrongFormat);
    }
}

#[test]
fn test_get_filename_wrong_format() {
    let wrong_format = F1337Patch::get_filename("test.exe".to_string()).unwrap_err();

    assert_eq!(wrong_format, PatchFileError::WrongFormat);
}

#[test]
fn full_parse_keeps_order() {
    let lines = strings(&["0000000000AF0200:13->37", "0000000000AF0206:37->37"]);
    let f1337path = F1337Patch::from_lines(">test.exe\n".to_string(), &lines).unwrap();

    assert_eq!(f1337path.target_filename, "test.exe");
    assert_eq!(f1337path.patches.len(), 2);
    let expected = vec![
        HexPatch::new(0xAF0200, 0x13, 0x37),
        HexPatch::new(0xAF0206, 0x37, 0x37),
    ];
    assert_eq!(expected, f1337path.patches);
}

#[test]
fn header_only_gives_no_patches() {
    let f1337path = F1337Patch::from_lines(">test.exe\n".to_string(), &Vec::new()).unwrap();
    assert_eq!(f1337path.target_filename, "test.exe");
    assert!(f1337path.patches.is_empty());
}

#[test]
fn header_without_marker_is_refused_by_parse() {
    let err = F1337Patch::from_lines("test.exe\n".to_string(), &Vec::new()).unwrap_err();
    assert_eq!(err, PatchFileError::WrongFormat);
}

#[test]
fn parse_stops_at_malformed_line() {
    let lines = strings(&[
        "0000000000AF0200:13->37",
        "0000000000AF0200:13-37",
        "0000000000AF0206:37->37",
    ]);
    let err = F1337Patch::from_lines(">test.exe\n".to_string(), &lines).unwrap_err();
    assert_eq!(err, PatchFileError::WrongFormat);
}

#[test]
fn parsing_twice_gives_equal_results() {
    let lines = strings(&["0000000000AF0200:13->37", "00000000000000ff:00->aB"]);
    let a = F1337Patch::from_lines(">prog.bin\r\n".to_string(), &lines).unwrap();
    let b = F1337Patch::from_lines(">prog.bin\r\n".to_string(), &lines).unwrap();
    assert_eq!(a.target_filename, b.target_filename);
    assert_eq!(a.patches, b.patches);
    assert_eq!(a.target_filename, "prog.bin");
    assert_eq!(a.patches[1], HexPatch::new(0xFF, 0x00, 0xAB));
}

#[test]
fn header_extraction() {
    assert_eq!(F1337Patch::get_filename(">test.exe\n".to_string()).unwrap(), "test.exe");
    assert_eq!(F1337Patch::get_filename(">test.exe\r\n".to_string()).unwrap(), "test.exe");
    assert_eq!(F1337Patch::get_filename(">test.exe".to_string()).unwrap(), "test.exe");
    assert_eq!(F1337Patch::get_filename(">my file.exe\n".to_string()).unwrap(), "my file.exe");
}

#[test]
fn empty_filename_is_accepted() {
    assert_eq!(F1337Patch::get_filename(">\n".to_string()).unwrap(), "");
    assert_eq!(F1337Patch::get_filename(">".to_string()).unwrap(), "");
}

#[test]
fn empty_header_is_refused() {
    let err = F1337Patch::get_filename(String::new()).unwrap_err();
    assert_eq!(err, PatchFileError::WrongFormat);
}

#[test]
fn line_length_boundary() {
    // 22 and 24 characters: one short, one long.
    let short = "0000000000AF0200:13->3".to_string();
    let long = "0000000000AF0200:13->377".to_string();
    assert_eq!(short.len(), 22);
    assert_eq!(long.len(), 24);
    assert_eq!(F1337Patch::check_patch_line_format(&short), Err(PatchFileError::WrongFormat));
    assert_eq!(F1337Patch::check_patch_line_format(&long), Err(PatchFileError::WrongFormat));
    assert_eq!(F1337Patch::check_patch_line_format(&String::new()), Err(PatchFileError::WrongFormat));
}

#[test]
fn separators_must_stand_in_place() {
    for line in ["0000000000AF0200;13->37", "0000000000AF0200:13=>37", "0000000000AF0200:13-<37", "0000000000AF020:013->37"] {
        assert_eq!(line.len(), 23);
        assert_eq!(F1337Patch::check_patch_line_format(&line.to_string()), Err(PatchFileError::WrongFormat));
    }
}

#[test]
fn every_field_must_be_hex() {
    for line in ["0000000000AF020G:13->37", "0000000000AF0200:1G->37", "0000000000AF0200:13->3G", "+000000000AF0200:13->37", "0000000000AF0200:+3->37"] {
        assert_eq!(F1337Patch::check_patch_line_format(&line.to_string()), Err(PatchFileError::WrongFormat));
    }
}

#[test]
fn non_ascii_line_is_refused() {
    let line = "0000000000AF02é:13->37".to_string();
    assert_eq!(F1337Patch::check_patch_line_format(&line), Err(PatchFileError::WrongFormat));
}

#[test]
fn well_formed_lines_pass_in_either_case() {
    for line in ["0000000000AF0200:13->37", "ffffffffffffffff:ab->Cd", "0123456789abcdef:00->FF"] {
        assert_eq!(F1337Patch::check_patch_line_format(&line.to_string()), Ok(()));
    }
}

#[test]
fn decoding_reads_each_field() {
    let patch = F1337Patch::get_hex_patch_from_line(&"0123456789abcdef:a5->5A".to_string()).unwrap();
    assert_eq!(patch.target_address, 0x0123456789ABCDEF);
    assert_eq!(patch.old, 0xA5);
    assert_eq!(patch.new, 0x5A);
    let top = F1337Patch::get_hex_patch_from_line(&"FFFFFFFFFFFFFFFF:FF->00".to_string()).unwrap();
    assert_eq!(top, HexPatch::new(u64::MAX, 0xFF, 0x00));
}

#[test]
fn canonical_line_of_a_patch() {
    assert_eq!(HexPatch::new(0xAF0200, 0x13, 0x37).to_line(), "0000000000AF0200:13->37");
    assert_eq!(HexPatch::new(0, 0, 0).to_line(), "0000000000000000:00->00");
    assert_eq!(HexPatch::new(u64::MAX, 0xab, 0x0c).to_line(), "FFFFFFFFFFFFFFFF:AB->0C");
}

#[test]
fn round_trip_through_text() {
    let patches = [
        HexPatch::new(0xAF0200, 0x13, 0x37),
        HexPatch::new(0, 0, 0),
        HexPatch::new(u64::MAX, 0xFF, 0xFF),
        HexPatch::new(0x0123456789ABCDEF, 0x42, 0x42),
    ];
    for p in patches {
        let line = p.to_line();
        assert_eq!(F1337Patch::check_patch_line_format(&line), Ok(()));
        assert_eq!(F1337Patch::get_hex_patch_from_line(&line).unwrap(), p);
    }
}

#[test]
fn construction_keeps_call_order() {
    let mut f = F1337Patch::new("game.exe".to_string());
    let added = vec![
        HexPatch::new(0x10, 1, 2),
        HexPatch::new(0x08, 3, 3),
        HexPatch::new(0x10, 1, 2),
    ];
    for p in added.iter() {
        f.add_patch(HexPatch::new(p.target_address, p.old, p.new));
    }
    assert_eq!(f.target_filename, "game.exe");
    assert_eq!(f.patches.len(), 3);
    assert_eq!(f.patches, added);
}

#[test]
fn push_line_appends_or_leaves_unchanged() {
    let mut f = F1337Patch::new("a".to_string());
    assert_eq!(f.push_line(&"0000000000000001:02->03".to_string()), Ok(()));
    assert_eq!(f.push_line(&"0000000000000001:02->0".to_string()), Err(PatchFileError::WrongFormat));
    assert_eq!(f.patches, vec![HexPatch::new(1, 2, 3)]);
    assert_eq!(f.target_filename, "a");
}

#[test]
fn conversion_error_wraps_the_parse_error() {
    let cause = u8::from_str_radix("1FF", 16).unwrap_err();
    let err = PatchFileError::from(cause.clone());
    assert_eq!(err, PatchFileError::ConvertionError(cause));
    assert_ne!(err, PatchFileError::WrongFormat);
}

#[test]
fn read_errors_compare_by_kind() {
    let a = PatchFileError::ReadError(std::io::ErrorKind::NotFound);
    assert_eq!(a, PatchFileError::ReadError(std::io::ErrorKind::NotFound));
    assert_ne!(a, PatchFileError::ReadError(std::io::ErrorKind::PermissionDenied));
    assert_ne!(a, PatchFileError::WrongFormat);
}
