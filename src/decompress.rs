//! Archives and compressed diffs: where their contents go, and decoding xz.

use vstd::prelude::*;

use crate::error::Error;
use crate::paths::{strip_ext_spec, strip_extension};

verus! {

/// The text that the xz stream `data` decodes to, when it decodes to UTF-8
/// text.
pub uninterp spec fn xz_text(data: Seq<u8>) -> Option<Seq<char>>;

/// Relies on `xz2::read::XzDecoder` (read to the end as a string): decodes
/// one xz stream; fails on a corrupt stream or on text that is not UTF-8.
#[verifier::external_body]
fn decode_xz(data: &Vec<u8>) -> (r: Option<String>)
    ensures
        match r {
            Some(t) => xz_text(data@) == Some(t@),
            None => xz_text(data@) is None,
        },
{
    let mut text = String::new();
    let mut decoder = xz2::read::XzDecoder::new(data.as_slice());
    match std::io::Read::read_to_string(&mut decoder, &mut text) {
        Ok(_) => Some(text),
        Err(_) => None,
    }
}

/// The diff that the compressed patch `data`, read from `path`, holds.
pub fn xz(data: &Vec<u8>, path: &str) -> (r: Result<String, Error>)
    ensures
        match r {
            Ok(t) => xz_text(data@) == Some(t@),
            Err(Error::FailedToDecodeXz { path: p }) => xz_text(data@) is None && p@ == path@,
            Err(_) => false,
        },
{
    match decode_xz(data) {
        Some(t) => Ok(t),
        None => Err(Error::FailedToDecodeXz { path: String::from_str(path) }),
    }
}

/// Where the decompressed form of `path` goes: `path` without its
/// extension (`patch-5.4.1.xz` gives `patch-5.4.1`).
pub fn decompressed_path(path: &str) -> (r: String)
    ensures
        r@ == strip_ext_spec(path@),
{
    strip_extension(path)
}

/// The directory that extracting the archive `path` in place yields:
/// `path` without its two extensions (`linux-5.4.tar.xz` gives `linux-5.4`).
pub fn untar_dir(path: &str) -> (r: String)
    ensures
        r@ == strip_ext_spec(strip_ext_spec(path@)),
{
    let once = strip_extension(path);
    strip_extension(once.as_str())
}

/// Whether extracting `archive` yields `expected`.
pub fn check_untar(archive: &str, expected: &str) -> (r: Result<(), Error>)
    ensures
        match r {
            Ok(()) => strip_ext_spec(strip_ext_spec(archive@)) == expected@,
            Err(Error::UnexpectedUntar { arch, dir }) => strip_ext_spec(strip_ext_spec(archive@))
                != expected@ && arch@ == archive@ && dir@ == expected@,
            Err(_) => false,
        },
{
    let dir = untar_dir(archive);
    let want = String::from_str(expected);
    if dir == want {
        Ok(())
    } else {
        Err(Error::UnexpectedUntar { arch: String::from_str(archive), dir: want })
    }
}

} // verus!
