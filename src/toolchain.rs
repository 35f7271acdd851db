//! The cross-compilation toolchain: where its archive comes from and lands.

use vstd::prelude::*;

use crate::config::Config;
use crate::download::{to_unpacked_dir, unpack_plan_spec};
use crate::engine::Action;
use crate::error::Error;
use crate::paths::{join_path, join_spec, strip_ext_spec};
use crate::decompress::untar_dir;
use crate::urls::{parse_url, url_last, url_last_segment, url_parsed};

verus! {

/// A toolchain, fetched once into the download directory.
pub struct Toolchain {
    /// The full cross-compile prefix, inside the extracted toolchain.
    pub cross_compile: String,
    pub url: String,
    /// Where the toolchain is extracted.
    pub target_dir: String,
    pub download_dir: String,
    /// Where its archive is downloaded.
    pub archive: String,
}

/// The toolchain of `config`: its archive is named after the last
/// component of its URL, and extracts to that name without extensions.
pub fn new(config: &Config) -> (r: Result<Toolchain, Error>)
    ensures
        match url_parsed(config.toolchain.url@) {
            None => r == Err::<Toolchain, Error>(Error::InvalidToolchainURL),
            Some(u) => match url_last_segment(u) {
                None => r matches Err(Error::URLExtractError { .. }),
                Some(seg) => r matches Ok(t) && {
                    &&& t.url@ == u
                    &&& t.download_dir@ == config.download_dir@
                    &&& t.archive@ == join_spec(config.download_dir@, seg)
                    &&& t.target_dir@ == strip_ext_spec(strip_ext_spec(t.archive@))
                    &&& t.cross_compile@ == join_spec(t.target_dir@, config.toolchain.cross_compile@)
                },
            },
        },
{
    let url = match parse_url(config.toolchain.url.as_str()) {
        Ok(u) => u,
        Err(_) => return Err(Error::InvalidToolchainURL),
    };
    let name = url_last(url.as_str())?;
    let archive = join_path(config.download_dir.as_str(), name.as_str());
    let target_dir = untar_dir(archive.as_str());
    let cross_compile = join_path(target_dir.as_str(), config.toolchain.cross_compile.as_str());
    Ok(Toolchain { cross_compile, url, target_dir, download_dir: config.download_dir.clone(), archive })
}

impl Toolchain {
    /// What fetching the toolchain takes, in order: nothing when its
    /// directory exists, else downloading and extracting its archive.
    pub fn fetch(&self, target_dir_exists: bool) -> (r: Result<Vec<Action>, Error>)
        ensures
            target_dir_exists ==> (r matches Ok(plan) && plan@.len() == 0),
            !target_dir_exists ==> unpack_plan_spec(
                self.url@,
                self.download_dir@,
                self.target_dir@,
                r,
            ),
    {
        if target_dir_exists {
            Ok(Vec::new())
        } else {
            to_unpacked_dir(self.url.as_str(), self.download_dir.as_str(), self.target_dir.as_str())
        }
    }
}

} // verus!
