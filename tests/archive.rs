use std::io::Write;
use xkeen_ui::archive::{extract_in_memory, format_of, ArchiveFormat};
use xkeen_ui::update::ExtractFailure;

fn zip_with(entries: &[(&str, &[u8])]) -> Vec<u8> {
    let mut w = zip::ZipWriter::new(std::io::Cursor::new(Vec::new()));
    for (name, data) in entries {
        w.start_file(*name, zip::write::SimpleFileOptions::default()).unwrap();
        w.write_all(data).unwrap();
    }
    w.finish().unwrap().into_inner()
}

fn gzip_of(data: &[u8]) -> Vec<u8> {
    let mut e = flate2::write::GzEncoder::new(Vec::new(), flate2::Compression::default());
    e.write_all(data).unwrap();
    e.finish().unwrap()
}

#[test]
fn format_follows_the_extension() {
    assert_eq!(format_of("Xray-linux-mips32.zip"), ArchiveFormat::Zip);
    assert_eq!(format_of("mihomo-linux-arm64-v1.gz"), ArchiveFormat::Gzip);
    assert_eq!(format_of("zip"), ArchiveFormat::Gzip);
}

#[test]
fn zip_member_is_found_by_exact_name() {
    let data = zip_with(&[("README.md", b"docs"), ("xray", b"\x7fELF binary")]);
    let out = extract_in_memory(&data, ArchiveFormat::Zip, "xray").unwrap();
    assert_eq!(out, b"\x7fELF binary".to_vec());
}

#[test]
fn missing_zip_member_is_a_format_failure() {
    let data = zip_with(&[("xray.exe", b"x")]);
    assert_eq!(extract_in_memory(&data, ArchiveFormat::Zip, "xray"), Err(ExtractFailure::Format));
}

#[test]
fn gzip_payload_is_decompressed() {
    let data = gzip_of(b"mihomo binary bytes");
    let out = extract_in_memory(&data, ArchiveFormat::Gzip, "mihomo").unwrap();
    assert_eq!(out, b"mihomo binary bytes".to_vec());
}

#[test]
fn garbage_is_no_archive() {
    let data = b"<html>not found</html>".to_vec();
    assert_eq!(extract_in_memory(&data, ArchiveFormat::Gzip, "mihomo"), Err(ExtractFailure::Format));
    assert_eq!(extract_in_memory(&data, ArchiveFormat::Zip, "xray"), Err(ExtractFailure::Format));
}
