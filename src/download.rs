//! What the answers of an upstream server mean.

use vstd::prelude::*;

use crate::decompress::untar_dir;
use crate::engine::Action;
use crate::error::Error;
use crate::paths::{join_path, join_spec, strip_ext_spec};
use crate::urls::{url_last, url_last_segment};

verus! {

/// A response code that reports the requested file as present: 200, or 226
/// from FTP-style mirrors.
pub open spec fn code_ok(code: u32) -> bool {
    code == 200 || code == 226
}

/// Whether a probe answered with `code` reports an update. A 404, and any
/// other code, reports none.
pub fn probe_found(code: u32) -> (r: bool)
    ensures
        r == code_ok(code),
{
    code == 200 || code == 226
}

/// The outcome of a download of `url` that ended with `code`.
pub fn download_result(url: &str, code: u32) -> (r: Result<(), Error>)
    ensures
        match r {
            Ok(()) => code_ok(code),
            Err(Error::DownloadError { code: c, url: u }) => !code_ok(code) && c == code && u@
                == url@,
            Err(_) => false,
        },
{
    if code == 200 || code == 226 {
        Ok(())
    } else {
        Err(Error::DownloadError { code, url: String::from_str(url) })
    }
}


/// The plan `r` for fetching the archive at `url` into `in_dir` so that
/// it extracts to `expected`.
pub open spec fn unpack_plan_spec(
    url: Seq<char>,
    in_dir: Seq<char>,
    expected: Seq<char>,
    r: Result<Vec<Action>, Error>,
) -> bool {
    match url_last_segment(url) {
        None => r matches Err(Error::URLExtractError { url: u }) && u@ == url,
        Some(seg) => {
            let tar = join_spec(in_dir, seg);
            if strip_ext_spec(strip_ext_spec(tar)) == expected {
                r matches Ok(plan) && plan@.len() == 3 && (plan@[0] matches Action::CreateDir {
                    path,
                } && path@ == in_dir) && (plan@[1] matches Action::Download { url: u, path }
                    && u@ == url && path@ == tar) && (plan@[2] matches Action::Untar {
                    archive,
                    dir,
                } && archive@ == tar && dir@ == expected)
            } else {
                r matches Err(Error::UnexpectedUntar { arch, dir }) && arch@ == tar && dir@
                    == expected
            }
        },
    }
}

/// What downloading the archive at `url` into `in_dir` and extracting it
/// takes, in order: creating `in_dir`, downloading the archive (named after
/// the last component of `url`), and extracting it, which must yield
/// `expected_dir`.
pub fn to_unpacked_dir(url: &str, in_dir: &str, expected_dir: &str) -> (r: Result<Vec<Action>, Error>)
    ensures
        unpack_plan_spec(url@, in_dir@, expected_dir@, r),
{
    let name = url_last(url)?;
    let tar = join_path(in_dir, name.as_str());
    let dir = untar_dir(tar.as_str());
    let want = String::from_str(expected_dir);
    if dir != want {
        return Err(Error::UnexpectedUntar { arch: tar, dir: want });
    }
    let mut plan: Vec<Action> = Vec::new();
    plan.push(Action::CreateDir { path: String::from_str(in_dir) });
    plan.push(Action::Download { url: String::from_str(url), path: tar.clone() });
    plan.push(Action::Untar { archive: tar, dir: want });
    Ok(plan)
}

} // verus!
