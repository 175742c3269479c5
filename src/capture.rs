use crate::dates::{extension_of, has_extension, path_extension, two_letters, utf8_of};
use std::io::Read;
use vstd::prelude::*;

verus! {

/// How a capture file is stored.
#[derive(Clone, Copy, Debug, PartialEq, Eq, Structural)]
pub enum CaptureFormat {
    /// A raw packet capture (`.pcap`).
    Pcap,
    /// A gzip-compressed packet capture (`.gz`).
    Gzip,
}

/// Why a capture cannot be loaded.
#[derive(Clone, Copy, Debug, PartialEq, Eq, Structural)]
pub enum LoadPcapError {
    NoFileExtension,
    WrongFileExtension,
    /// The gzip stream is malformed.
    DeflateError,
}

/// The format a capture file's name announces.
pub open spec fn format_of(file: Seq<u8>) -> Result<CaptureFormat, LoadPcapError> {
    match extension_of(file) {
        None => Err(LoadPcapError::NoFileExtension),
        Some(e) => if e == seq!['p' as u8, 'c' as u8, 'a' as u8, 'p' as u8] {
            Ok(CaptureFormat::Pcap)
        } else if e == two_letters('g', 'z') {
            Ok(CaptureFormat::Gzip)
        } else {
            Err(LoadPcapError::WrongFileExtension)
        },
    }
}

/// Picks the capture format from the file name's extension.
pub fn capture_format(file: &str) -> (r: Result<CaptureFormat, LoadPcapError>)
    ensures
        r == format_of(utf8_of(file@)),
{
    let pcap_array: [u8; 4] = ['p' as u8, 'c' as u8, 'a' as u8, 'p' as u8];
    let gz_array: [u8; 2] = ['g' as u8, 'z' as u8];
    let pcap = pcap_array.as_slice();
    let gz = gz_array.as_slice();
    proof {
        broadcast use vstd::array::group_array_axioms;
        assert(pcap@ =~= seq!['p' as u8, 'c' as u8, 'a' as u8, 'p' as u8]);
        assert(gz@ =~= two_letters('g', 'z'));
    }
    match path_extension(file) {
        Some(e) => {
            if has_extension(&e, pcap) {
                Ok(CaptureFormat::Pcap)
            } else if has_extension(&e, gz) {
                Ok(CaptureFormat::Gzip)
            } else {
                Err(LoadPcapError::WrongFileExtension)
            }
        },
        None => Err(LoadPcapError::NoFileExtension),
    }
}

/// The bytes that the gzip stream `data` decompresses to, if it is well formed.
pub uninterp spec fn gunzip_of(data: Seq<u8>) -> Option<Seq<u8>>;

/// Relies on flate2's `read::GzDecoder`, read to its end.
#[verifier::external_body]
fn gunzip(data: &[u8]) -> (r: Option<Vec<u8>>)
    ensures
        match gunzip_of(data@) {
            Some(out) => r matches Some(v) && v@ == out,
            None => r is None,
        },
{
    let mut out = Vec::new();
    match flate2::read::GzDecoder::new(data).read_to_end(&mut out) {
        Ok(_) => Some(out),
        Err(_) => None,
    }
}

/// The raw capture held in `data`, stored in `format`: as it is, or
/// decompressed.
pub fn capture_bytes(format: CaptureFormat, data: Vec<u8>) -> (r: Result<Vec<u8>, LoadPcapError>)
    ensures
        match format {
            CaptureFormat::Pcap => r matches Ok(v) && v@ == data@,
            CaptureFormat::Gzip => match gunzip_of(data@) {
                Some(out) => r matches Ok(v) && v@ == out,
                None => r == Err::<Vec<u8>, LoadPcapError>(LoadPcapError::DeflateError),
            },
        },
{
    match format {
        CaptureFormat::Pcap => Ok(data),
        CaptureFormat::Gzip => match gunzip(data.as_slice()) {
            Some(out) => Ok(out),
            None => Err(LoadPcapError::DeflateError),
        },
    }
}

} // verus!
