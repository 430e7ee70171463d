//! Locating, reporting and installing the two tools the downloader relies on:
//! yt-dlp (the downloader) and ffmpeg (audio extraction and stream merging).
//!
//! Resolution order for each tool: an explicit user override, then a copy the
//! application manages itself, then anything already on the system `PATH`.

use vstd::prelude::*;

use crate::platform::{ffmpeg_plan, ffmpeg_sources, source_views, ytdlp_source, ytdlp_url, FfSource, Target};
use crate::text::{
    ascii_lower, ascii_lower_chars, chars_of, has_suffix, is_blank, same_chars, slice, string_of,
    str_is_blank, str_trim, trim, ends_with,
};

verus! {

// ---------------------------------------------------------------------------
// Archive entries
// ---------------------------------------------------------------------------

/// A path separator in archive entry names.
pub open spec fn is_sep(c: char) -> bool {
    c == '/' || c == '\\'
}

/// The position of the last path separator in `s`.
pub open spec fn last_sep(s: Seq<char>) -> Option<int>
    decreases s.len(),
{
    if s.len() == 0 {
        None
    } else if is_sep(s.last()) {
        Some(s.len() - 1)
    } else {
        last_sep(s.drop_last())
    }
}

/// The last component of an entry name (all of it when there is no separator).
pub open spec fn base_name(s: Seq<char>) -> Seq<char> {
    match last_sep(s) {
        Some(i) => s.skip(i + 1),
        None => s,
    }
}

/// The name without a trailing ".exe".
pub open spec fn exe_stem(s: Seq<char>) -> Seq<char> {
    if has_suffix(s, ".exe"@) {
        s.take(s.len() - 4)
    } else {
        s
    }
}

/// If an archive entry is `ffmpeg`/`ffprobe` (any nesting, any letter case,
/// optional `.exe`), the bare file name it should be written out as.
pub open spec fn wanted_name(entry: Seq<char>) -> Option<Seq<char>> {
    let base = base_name(entry);
    let stem = exe_stem(ascii_lower(base));
    if base.len() > 0 && (stem == "ffmpeg"@ || stem == "ffprobe"@) {
        Some(base)
    } else {
        None
    }
}

proof fn lemma_last_sep(s: Seq<char>)
    ensures
        last_sep(s) matches Some(i) ==> 0 <= i < s.len() && is_sep(s[i]),
    decreases s.len(),
{
    if s.len() > 0 && !is_sep(s.last()) {
        lemma_last_sep(s.drop_last());
    }
}

/// If an archive entry is `ffmpeg`/`ffprobe` (any nesting, optional `.exe`),
/// return the bare filename it should be written out as.
pub fn wanted_binary(entry_name: &str) -> (r: Option<String>)
    ensures
        match r {
            Some(s) => wanted_name(entry_name@) == Some(s@),
            None => wanted_name(entry_name@) is None,
        },
{
    let name = chars_of(entry_name);
    let mut b = name.len();
    assert(name@.take(b as int) =~= name@);
    while b > 0 && !(name[b - 1] == '/' || name[b - 1] == '\\')
        invariant
            b <= name.len(),
            last_sep(name@) == last_sep(name@.take(b as int)),
        decreases b,
    {
        assert(name@.take(b as int).drop_last() =~= name@.take(b - 1));
        b -= 1;
    }
    proof {
        lemma_last_sep(name@);
        if b > 0 {
            assert(name@.take(b as int).last() == name@[b - 1]);
        }
    }
    let base = slice(&name, b, name.len());
    assert(base@ =~= base_name(name@));
    if base.len() == 0 {
        return None;
    }
    let lower = ascii_lower_chars(&base);
    let exe = chars_of(".exe");
    proof {
        reveal_strlit(".exe");
    }
    let stem = if ends_with(&lower, &exe) {
        slice(&lower, 0, lower.len() - 4)
    } else {
        lower
    };
    assert(stem@ =~= exe_stem(ascii_lower(base@)));
    if same_chars(&stem, &chars_of("ffmpeg")) || same_chars(&stem, &chars_of("ffprobe")) {
        Some(string_of(&base))
    } else {
        None
    }
}

// ---------------------------------------------------------------------------
// Resolution
// ---------------------------------------------------------------------------

/// Where a tool was found.
#[derive(Clone, Copy, PartialEq, Eq, Structural, Debug)]
pub enum ToolSource {
    /// The path the user set.
    Custom,
    /// The copy the application downloaded into its own folder.
    Managed,
    /// A copy on the system `PATH`.
    System,
}

/// The name the UI shows for a source.
pub open spec fn source_label(s: ToolSource) -> Seq<char> {
    match s {
        ToolSource::Custom => "custom"@,
        ToolSource::Managed => "managed"@,
        ToolSource::System => "system"@,
    }
}

impl ToolSource {
    /// The name the UI shows for this source.
    pub fn label(&self) -> (r: String)
        ensures
            r@ == source_label(*self),
    {
        match self {
            ToolSource::Custom => "custom".to_string(),
            ToolSource::Managed => "managed".to_string(),
            ToolSource::System => "system".to_string(),
        }
    }
}

/// The path a user override names: the setting trimmed, or none if blank.
pub fn custom_path(setting: &str) -> (r: Option<String>)
    ensures
        match r {
            Some(p) => !is_blank(setting@) && p@ == trim(setting@),
            None => is_blank(setting@),
        },
{
    if str_is_blank(setting) {
        None
    } else {
        Some(str_trim(setting))
    }
}

/// Pick a tool from what was found at each place, in resolution order: the
/// user's override, then the managed copy, then the system `PATH`.
pub fn choose_tool<P>(custom: Option<P>, managed: Option<P>, system: Option<P>) -> (r: Option<
    (P, ToolSource),
>)
    ensures
        r == match custom {
            Some(p) => Some((p, ToolSource::Custom)),
            None => match managed {
                Some(p) => Some((p, ToolSource::Managed)),
                None => match system {
                    Some(p) => Some((p, ToolSource::System)),
                    None => None,
                },
            },
        },
{
    match custom {
        Some(p) => Some((p, ToolSource::Custom)),
        None => match managed {
            Some(p) => Some((p, ToolSource::Managed)),
            None => match system {
                Some(p) => Some((p, ToolSource::System)),
                None => None,
            },
        },
    }
}

/// The file names to look for in each `PATH` folder: the bare name, and on
/// Windows also the name with ".exe".
pub fn search_names(name: &str, target: Target) -> (r: Vec<String>)
    ensures
        r@.map_values(|s: String| s@) == if target.os == crate::platform::Os::Windows {
            seq![name@, name@ + ".exe"@]
        } else {
            seq![name@]
        },
{
    let mut r: Vec<String> = Vec::new();
    r.push(name.to_string());
    if target.os == crate::platform::Os::Windows {
        r.push(crate::text::join2(name, ".exe"));
    }
    assert(r@.map_values(|s: String| s@) =~= if target.os == crate::platform::Os::Windows {
        seq![name@, name@ + ".exe"@]
    } else {
        seq![name@]
    });
    r
}

/// The name an archive entry is written out as carries no folder, is the end
/// of the entry's name, and is an ffmpeg or ffprobe executable.
pub proof fn wanted_name_is_bare(entry: Seq<char>)
    ensures
        wanted_name(entry) matches Some(out) ==> {
            &&& out.len() > 0
            &&& has_suffix(entry, out)
            &&& forall|i: int| 0 <= i < out.len() ==> !is_sep(out[i])
            &&& exe_stem(ascii_lower(out)) == "ffmpeg"@ || exe_stem(ascii_lower(out)) == "ffprobe"@
        },
{
    lemma_last_sep(entry);
    lemma_no_sep_after_last(entry);
    if let Some(i) = last_sep(entry) {
        assert(entry.skip(entry.len() - entry.skip(i + 1).len()) =~= entry.skip(i + 1));
    } else {
        assert(entry.skip(0) =~= entry);
    }
}

/// Nothing after the last separator is a separator.
proof fn lemma_no_sep_after_last(s: Seq<char>)
    ensures
        forall|k: int| 0 <= k < base_name(s).len() ==> !is_sep(#[trigger] base_name(s)[k]),
    decreases s.len(),
{
    if s.len() > 0 && !is_sep(s.last()) {
        lemma_no_sep_after_last(s.drop_last());
        lemma_last_sep(s.drop_last());
        let t = s.drop_last();
        assert(last_sep(s) == last_sep(t));
        match last_sep(t) {
            Some(i) => {
                assert(base_name(s) =~= base_name(t).push(s.last()));
            },
            None => {
                assert(base_name(s) =~= base_name(t).push(s.last()));
            },
        }
        assert forall|k: int| 0 <= k < base_name(s).len() implies !is_sep(#[trigger] base_name(s)[k]) by {
            if k < base_name(s).len() - 1 {
                assert(base_name(s)[k] == base_name(t)[k]);
            }
        }
    }
}

// ---------------------------------------------------------------------------
// Status
// ---------------------------------------------------------------------------

/// Snapshot of which tools are available, reported to the UI.
pub struct BinStatus {
    pub ytdlp_ready: bool,
    pub ffmpeg_ready: bool,
    pub ytdlp_version: String,
    pub ytdlp_source: String,
    pub ffmpeg_source: String,
}

/// What a quick run of a tool printed: its output trimmed, if it succeeded.
pub fn captured_output(success: bool, stdout: &str) -> (r: Option<String>)
    ensures
        match r {
            Some(s) => success && s@ == trim(stdout@),
            None => !success,
        },
{
    if success {
        Some(str_trim(stdout))
    } else {
        None
    }
}

/// Report which tools are present and ready to use. `ytdlp` is where yt-dlp
/// was found with what its `--version` run printed, `ffmpeg` is where ffmpeg
/// was found with whether its `-version` run succeeded.
pub fn status(ytdlp: Option<(ToolSource, Option<String>)>, ffmpeg: Option<(ToolSource, bool)>) -> (s:
    BinStatus)
    ensures
        ({
            let version = match ytdlp {
                Some((_, Some(v))) => v@,
                _ => Seq::<char>::empty(),
            };
            let ffmpeg_ok = match ffmpeg {
                Some((_, ok)) => ok,
                None => false,
            };
            &&& s.ytdlp_version@ == version
            &&& s.ytdlp_ready == (version.len() > 0)
            &&& s.ytdlp_source@ == match ytdlp {
                Some((src, _)) => source_label(src),
                None => "none"@,
            }
            &&& s.ffmpeg_ready == ffmpeg_ok
            &&& s.ffmpeg_source@ == match ffmpeg {
                Some((src, true)) => source_label(src),
                _ => "none"@,
            }
        }),
{
    let (ytdlp_version, ytdlp_source) = match ytdlp {
        Some((src, out)) => (
            match out {
                Some(v) => v,
                None => String::new(),
            },
            src.label(),
        ),
        None => (String::new(), "none".to_string()),
    };
    let (ffmpeg_ready, ffmpeg_source) = match ffmpeg {
        Some((src, ok)) => (ok, src.label()),
        None => (false, "none".to_string()),
    };
    BinStatus {
        ytdlp_ready: !ytdlp_version.as_str().is_empty(),
        ffmpeg_ready,
        ytdlp_version,
        ytdlp_source,
        ffmpeg_source: if ffmpeg_ready {
            ffmpeg_source
        } else {
            "none".to_string()
        },
    }
}

// ---------------------------------------------------------------------------
// Installation
// ---------------------------------------------------------------------------

/// What an installation run fetches.
pub struct InstallPlan {
    /// Where to download yt-dlp from, if it is to be (re)installed.
    pub ytdlp: Option<String>,
    /// The ffmpeg archives to download and unpack, in order.
    pub ffmpeg: Vec<FfSource>,
}

/// Decide what to download: a tool is fetched when `force` asks for fresh
/// copies or when it was not found anywhere.
pub fn install_plan(force: bool, ytdlp_found: bool, ffmpeg_found: bool, target: Target) -> (p:
    InstallPlan)
    ensures
        match p.ytdlp {
            Some(u) => (force || !ytdlp_found) && u@ == ytdlp_source(target),
            None => !(force || !ytdlp_found),
        },
        source_views(p.ffmpeg@) == if force || !ffmpeg_found {
            ffmpeg_plan(target)
        } else {
            Seq::empty()
        },
{
    let ytdlp = if force || !ytdlp_found {
        Some(ytdlp_url(target))
    } else {
        None
    };
    let ffmpeg = if force || !ffmpeg_found {
        ffmpeg_sources(target)
    } else {
        let v: Vec<FfSource> = Vec::new();
        assert(source_views(v@) =~= Seq::empty());
        v
    };
    InstallPlan { ytdlp, ffmpeg }
}

} // verus!
