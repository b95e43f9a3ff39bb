use fat_folder_discovery::file_utils::format_size;
use fat_folder_discovery::file_utils::get_file_icon;
use fat_folder_discovery::strings::u64_to_decimal;

#[test]
fn formats_plain_byte_counts() {
    assert_eq!(format_size(0), "0 B");
    assert_eq!(format_size(1), "1 B");
    assert_eq!(format_size(512), "512 B");
    assert_eq!(format_size(1023), "1023 B");
}

#[test]
fn formats_kilobytes_with_one_decimal() {
    assert_eq!(format_size(1024), "1.0 KB");
    assert_eq!(format_size(1536), "1.5 KB");
    assert_eq!(format_size(1048575), "1024.0 KB");
}

#[test]
fn formats_larger_units() {
    assert_eq!(format_size(1048576), "1.0 MB");
    assert_eq!(format_size(1572864), "1.5 MB");
    assert_eq!(format_size(1073741824), "1.0 GB");
    assert_eq!(format_size(5 * 1073741824 + 512 * 1048576), "5.5 GB");
    assert_eq!(format_size(1099511627776), "1.0 TB");
}

#[test]
fn formats_the_largest_count() {
    assert_eq!(format_size(u64::MAX), "16777216.0 TB");
}

#[test]
fn renders_decimals() {
    assert_eq!(u64_to_decimal(0), "0");
    assert_eq!(u64_to_decimal(7), "7");
    assert_eq!(u64_to_decimal(10), "10");
    assert_eq!(u64_to_decimal(90210), "90210");
    assert_eq!(u64_to_decimal(u64::MAX), "18446744073709551615");
}

#[test]
fn picks_icons_by_extension() {
    assert_eq!(get_file_icon("notes.txt"), "\u{1F4C4}");
    assert_eq!(get_file_icon("README.md"), "\u{1F4C4}");
    assert_eq!(get_file_icon("photo.JPG"), "\u{1F5BC}\u{FE0F}");
    assert_eq!(get_file_icon("C:\\media\\clip.Mp4"), "\u{1F3AC}");
    assert_eq!(get_file_icon("song.flac"), "\u{1F3B5}");
    assert_eq!(get_file_icon("bundle.tar.gz"), "\u{1F4E6}");
    assert_eq!(get_file_icon("setup.exe"), "\u{2699}\u{FE0F}");
    assert_eq!(get_file_icon("book.pdf"), "\u{1F4D5}");
    assert_eq!(get_file_icon("essay.docx"), "\u{1F4D8}");
    assert_eq!(get_file_icon("sheet.xlsx"), "\u{1F4D7}");
    assert_eq!(get_file_icon("deck.pptx"), "\u{1F4D9}");
    assert_eq!(get_file_icon("page.html"), "\u{1F310}");
}

#[test]
fn unknown_or_missing_extensions_get_default_icon() {
    assert_eq!(get_file_icon("archive"), "\u{1F4C4}");
    assert_eq!(get_file_icon(".bashrc"), "\u{1F4C4}");
    assert_eq!(get_file_icon("trailing."), "\u{1F4C4}");
    assert_eq!(get_file_icon("C:\\dir.d\\file"), "\u{1F4C4}");
    assert_eq!(get_file_icon("data.xyz"), "\u{1F4C4}");
    assert_eq!(get_file_icon(""), "\u{1F4C4}");
}
