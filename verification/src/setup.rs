//! The decisions of the fetcher-binary installation and update check: which
//! release asset fits this platform, and whether the published version
//! differs from the installed one. The release download, the file writes and
//! the version query are the caller's I/O.

use vstd::prelude::*;
use vstd::string::{StrSliceExecFns, StringExecFns};

use crate::progress::{trim_of, trim_str};

verus! {

/// One downloadable file of a release.
#[derive(Debug, Clone)]
pub struct Asset {
    pub name: String,
    pub browser_download_url: String,
}

/// A published release: its version tag and its files.
#[derive(Debug, Clone)]
pub struct Release {
    pub tag_name: String,
    pub assets: Vec<Asset>,
}

/// The release file this platform runs.
pub fn asset_name(windows: bool) -> (r: String)
    ensures
        r@ == if windows { "yt-dlp.exe"@ } else { "yt-dlp_linux"@ },
{
    if windows {
        "yt-dlp.exe".to_owned()
    } else {
        "yt-dlp_linux".to_owned()
    }
}

/// The first asset with the given name, scanning from `k`.
pub open spec fn find_asset_from(assets: Seq<Asset>, name: Seq<char>, k: int) -> Option<int>
    decreases assets.len() - k,
        when 0 <= k <= assets.len()
{
    if k >= assets.len() {
        None
    } else if assets[k].name@ == name {
        Some(k)
    } else {
        find_asset_from(assets, name, k + 1)
    }
}

/// The download URL of the first release file with the given name, if any.
#[verifier::loop_isolation(false)]
pub fn select_asset(release: &Release, name: &str) -> (r: Option<String>)
    ensures
        match find_asset_from(release.assets@, name@, 0) {
            Some(i) => r matches Some(url) && url@ == release.assets@[i].browser_download_url@,
            None => r is None,
        },
{
    let name_owned = name.to_owned();
    let n = release.assets.len();
    let mut k: usize = 0;
    while k < n
        invariant
            k <= n == release.assets@.len(),
            find_asset_from(release.assets@, name@, 0)
                == find_asset_from(release.assets@, name@, k as int),
        decreases n - k,
    {
        if release.assets[k].name == name_owned {
            assert(find_asset_from(release.assets@, name@, k as int) == Some(k as int));
            return Some(release.assets[k].browser_download_url.clone());
        }
        assert(find_asset_from(release.assets@, name@, k as int)
            == find_asset_from(release.assets@, name@, k + 1));
        k = k + 1;
    }
    None
}

/// Decide the update check from the locally reported version text and the
/// published tag: an unreadable local version is an error; a differing
/// published version is offered; a matching one means up to date.
pub fn chk_update_decision(local_raw: &str, remote_raw: &str)
    -> (r: Result<Option<String>, String>)
    ensures
        trim_of(local_raw@).len() == 0
            ==> (r matches Err(e) && e@ == "could not read local version"@),
        trim_of(local_raw@).len() > 0 ==> {
            if trim_of(local_raw@) == trim_of(remote_raw@) {
                r matches Ok(o) && o is None
            } else {
                r matches Ok(o) && (o matches Some(v) && v@ == trim_of(remote_raw@))
            }
        },
{
    let local = trim_str(local_raw);
    if local.as_str().is_empty() {
        return Err("could not read local version".to_owned());
    }
    let remote = trim_str(remote_raw);
    if remote == local {
        Ok(None)
    } else {
        Ok(Some(remote))
    }
}

} // verus!
