//! The fixed file locations under the platform directories. The caller asks
//! the platform for its data, audio and home directories and for whether the
//! managed fetcher binary exists; the paths themselves are computed here.

use vstd::prelude::*;
use vstd::string::{StrSliceExecFns, StringExecFns};

use crate::progress::trim_of;
use crate::progress::trim_str;

verus! {

/// The application's own directory under the platform data directory.
pub fn data_dir(platform_data: &str) -> (r: String)
    ensures
        r@ == platform_data@.add("/music-downloader"@),
{
    let mut out = platform_data.to_owned();
    out.append("/music-downloader");
    out
}

/// Where the managed fetcher binary is kept.
pub fn ytdlp_path(data_dir: &str) -> (r: String)
    ensures
        r@ == data_dir@.add("/yt-dlp"@),
{
    let mut out = data_dir.to_owned();
    out.append("/yt-dlp");
    out
}

/// Which fetcher binary to run: the managed one where it exists, the one on
/// the search path otherwise.
pub fn ytdlp_bin(managed_path: &str, managed_exists: bool) -> (r: String)
    ensures
        r@ == if managed_exists { managed_path@ } else { "yt-dlp"@ },
{
    if managed_exists {
        managed_path.to_owned()
    } else {
        "yt-dlp".to_owned()
    }
}

/// Where the account tokens are kept.
pub fn spotify_tokens_path(data_dir: &str) -> (r: String)
    ensures
        r@ == data_dir@.add("/spotify_tokens.json"@),
{
    let mut out = data_dir.to_owned();
    out.append("/spotify_tokens.json");
    out
}

/// Where the client identifier is kept.
pub fn client_id_path(data_dir: &str) -> (r: String)
    ensures
        r@ == data_dir@.add("/spotify_client_id"@),
{
    let mut out = data_dir.to_owned();
    out.append("/spotify_client_id");
    out
}

/// The download directory used when the platform names no audio directory:
/// `Music` under the home directory.
pub fn dl_dir_fallback(home: &str) -> (r: String)
    ensures
        r@ == home@.add("/Music"@),
{
    let mut out = home.to_owned();
    out.append("/Music");
    out
}

/// A stored client identifier, trimmed; an empty one counts as absent.
pub fn normalize_client_id(raw: &str) -> (r: Option<String>)
    ensures
        trim_of(raw@).len() == 0 ==> r is None,
        trim_of(raw@).len() > 0 ==> (r matches Some(id) && id@ == trim_of(raw@)),
{
    let t = trim_str(raw);
    if t.as_str().is_empty() {
        None
    } else {
        Some(t)
    }
}

} // verus!
