//! Taking the core's binary out of a downloaded archive held in memory.

use vstd::prelude::*;
use crate::text::{ends_with, is_suffix_of};
use crate::update::ExtractFailure;

verus! {

/// The containers release assets come in.
#[derive(Clone, Copy, Debug, PartialEq, Eq, Structural)]
pub enum ArchiveFormat {
    Zip,
    Gzip,
}

/// An asset whose name ends in `.zip` is a zip archive; any other is gzip.
pub open spec fn format_spec(file_name: Seq<char>) -> ArchiveFormat {
    if is_suffix_of(".zip"@, file_name) { ArchiveFormat::Zip } else { ArchiveFormat::Gzip }
}

pub fn format_of(file_name: &str) -> (r: ArchiveFormat)
    ensures
        r == format_spec(file_name@),
{
    if ends_with(file_name, ".zip") { ArchiveFormat::Zip } else { ArchiveFormat::Gzip }
}

/// The payload of the first gzip member of `data`, or `None` where `data` is
/// no valid gzip stream.
pub uninterp spec fn gunzip_of(data: Seq<u8>) -> Option<Seq<u8>>;

/// The contents of the entry called `name` in the zip archive `data`, or
/// `None` where the archive is unreadable or holds no such entry.
pub uninterp spec fn zip_member_of(data: Seq<u8>, name: Seq<char>) -> Option<Seq<u8>>;

/// Why a zip entry could not be read.
#[derive(Clone, Copy, Debug, PartialEq, Eq, Structural)]
pub enum ZipMiss {
    /// The archive has no entry of that name.
    Missing,
    /// The archive or the entry could not be decoded.
    Corrupt,
}

/// Relies on flate2's `read::GzDecoder` read to its end: it decodes the first
/// gzip member of an in-memory buffer, which depends on the bytes alone.
#[verifier::external_body]
fn gunzip(data: &[u8]) -> (r: Option<Vec<u8>>)
    ensures
        match r {
            Some(v) => gunzip_of(data@) == Some(v@),
            None => gunzip_of(data@) is None,
        },
{
    let mut out = Vec::new();
    match std::io::Read::read_to_end(&mut flate2::read::GzDecoder::new(data), &mut out) {
        Ok(_) => Some(out),
        Err(_) => None,
    }
}

/// Relies on zip's `ZipArchive::new` over an in-memory cursor, then
/// `ZipArchive::by_name` read to its end: the entry of that exact name, which
/// depends on the bytes and the name alone. `FileNotFound` tells a missing
/// entry apart from the other errors.
#[verifier::external_body]
fn unzip_member(data: &[u8], name: &str) -> (r: Result<Vec<u8>, ZipMiss>)
    ensures
        match r {
            Ok(v) => zip_member_of(data@, name@) == Some(v@),
            Err(_) => zip_member_of(data@, name@) is None,
        },
{
    let mut arc = zip::ZipArchive::new(std::io::Cursor::new(data)).map_err(|_| ZipMiss::Corrupt)?;
    let mut entry = match arc.by_name(name) {
        Ok(e) => e,
        Err(zip::result::ZipError::FileNotFound) => return Err(ZipMiss::Missing),
        Err(_) => return Err(ZipMiss::Corrupt),
    };
    let mut out = Vec::new();
    std::io::Read::read_to_end(&mut entry, &mut out).map_err(|_| ZipMiss::Corrupt)?;
    Ok(out)
}

/// The binary held by an archive in memory: the entry named `member` of a
/// zip archive, or the payload of a gzip stream. A damaged archive or a
/// missing entry is a format failure.
pub fn extract_in_memory(data: &Vec<u8>, format: ArchiveFormat, member: &str) -> (r: Result<Vec<u8>, ExtractFailure>)
    ensures
        match format {
            ArchiveFormat::Zip => match r {
                Ok(v) => zip_member_of(data@, member@) == Some(v@),
                Err(e) => e == ExtractFailure::Format && zip_member_of(data@, member@) is None,
            },
            ArchiveFormat::Gzip => match r {
                Ok(v) => gunzip_of(data@) == Some(v@),
                Err(e) => e == ExtractFailure::Format && gunzip_of(data@) is None,
            },
        },
{
    match format {
        ArchiveFormat::Zip => match unzip_member(data.as_slice(), member) {
            Ok(v) => Ok(v),
            Err(_) => Err(ExtractFailure::Format),
        },
        ArchiveFormat::Gzip => match gunzip(data.as_slice()) {
            Some(v) => Ok(v),
            None => Err(ExtractFailure::Format),
        },
    }
}

} // verus!
