//! The commands a caller can run, as plain option values, and the
//! parsing of the resize argument.

use vstd::prelude::*;

use crate::text::{parse_u32, spec_all_digits, spec_dec_val};

verus! {

/// Options for listing every uploaded asset id of a project.
#[derive(Clone, Debug)]
pub struct AssetListOptions {
    pub project_path: Option<String>,
    pub output: String,
}

/// Options for building the cache map of a project.
#[derive(Clone, Debug)]
pub struct CreateCacheMapOptions {
    pub project_path: Option<String>,
    pub cache_dir: String,
    pub index_file: String,
}

/// Options for downloading a single image.
#[derive(Clone, Debug)]
pub struct DownloadImageOptions {
    pub asset_id: u64,
    pub output: String,
}

/// Options for uploading a single image.
#[derive(Clone, Debug)]
pub struct UploadImageOptions {
    pub path: String,
    pub name: String,
    pub description: String,
    pub user_id: Option<u64>,
    pub group_id: Option<u64>,
    pub resize: Option<(u32, u32)>,
}

/// Options for syncing a whole project.
#[derive(Clone, Debug)]
pub struct SyncOptions {
    pub project_path: Option<String>,
}

/// One invocation of the tool.
#[derive(Clone, Debug)]
pub enum Command {
    UploadImage(UploadImageOptions),
    Sync(SyncOptions),
    CreateCacheMap(CreateCacheMapOptions),
    AssetList(AssetListOptions),
    DownloadImage(DownloadImageOptions),
}

/// The first position at or after `from` holding the character `c`.
pub open spec fn spec_find_char(s: Seq<char>, c: char, from: int) -> Option<int>
    recommends
        0 <= from,
    decreases s.len() - from,
{
    if from < 0 || from >= s.len() {
        None
    } else if s[from] == c {
        Some(from)
    } else {
        spec_find_char(s, c, from + 1)
    }
}

/// Whether a character sequence is a valid `u32` of decimal digits.
pub open spec fn spec_is_u32(s: Seq<char>) -> bool {
    s.len() > 0 && spec_all_digits(s) && spec_dec_val(s) <= u32::MAX
}

/// Parses a `WxH` dimension argument.
///
/// The string splits at its first `x`; both sides must be decimal `u32`
/// values. Anything else — no `x`, an empty side, other characters, or a
/// value out of range — is rejected with a message.
pub fn parse_resize_var(env: &str) -> (r: Result<(u32, u32), String>)
    ensures
        match spec_find_char(env@, 'x', 0) {
            None => r is Err,
            Some(i) => {
                let left = env@.take(i);
                let right = env@.skip(i + 1);
                if spec_is_u32(left) && spec_is_u32(right) {
                    r == Ok::<_, String>(
                        (spec_dec_val(left) as u32, spec_dec_val(right) as u32),
                    )
                } else {
                    r is Err
                }
            },
        },
        r matches Err(m) ==> m@
            == "invalid dimensions passed - please pass your dimensions in the WxH format (e.g. 100x100, 200x200, etc)"@,
{
    let n = env.unicode_len();
    let mut i: usize = 0;
    while i < n && env.get_char(i) != 'x'
        invariant
            n == env@.len(),
            0 <= i <= n,
            spec_find_char(env@, 'x', 0) == spec_find_char(env@, 'x', i as int),
        decreases n - i,
    {
        i = i + 1;
    }
    if i >= n {
        return Err(resize_error_message());
    }
    let left = env.substring_char(0, i);
    let right = env.substring_char(i + 1, n);
    proof {
        assert(left@ =~= env@.take(i as int));
        assert(right@ =~= env@.skip(i + 1));
    }
    let w = match parse_u32(left) {
        Some(w) => w,
        None => {
            return Err(resize_error_message());
        },
    };
    let h = match parse_u32(right) {
        Some(h) => h,
        None => {
            return Err(resize_error_message());
        },
    };
    Ok((w, h))
}

/// The message a bad resize argument is rejected with.
fn resize_error_message() -> (r: String)
    ensures
        r@ == "invalid dimensions passed - please pass your dimensions in the WxH format (e.g. 100x100, 200x200, etc)"@,
{
    let mut s = String::new();
    s.append(
        "invalid dimensions passed - please pass your dimensions in the WxH format (e.g. 100x100, 200x200, etc)",
    );
    proof {
        assert(s@
            =~= "invalid dimensions passed - please pass your dimensions in the WxH format (e.g. 100x100, 200x200, etc)"@);
    }
    s
}

} // verus!
