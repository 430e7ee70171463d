//! User preferences and the rules that keep them within their allowed ranges.

use vstd::prelude::*;

use crate::text::{chars_of, is_blank, same_chars, trim_chars};

verus! {

/// User-facing preferences.
pub struct Settings {
    /// Folder downloads are saved into.
    pub download_dir: String,
    /// "video" or "audio": which mode the UI defaults to.
    pub default_mode: String,
    /// Max video height: "best", "2160", "1440", "1080", "720", "480", "360".
    pub video_quality: String,
    /// Audio container/codec: "mp3", "m4a", "opus", "wav", "flac".
    pub audio_format: String,
    /// How many downloads may run at once (1-8).
    pub concurrent: usize,
    /// Write title/artist/etc. metadata into the file.
    pub embed_metadata: bool,
    /// Embed the thumbnail as cover art (audio only).
    pub embed_thumbnail: bool,
    /// Reveal the file in the file manager when a download finishes.
    pub open_when_done: bool,
    /// Hide to the tray instead of quitting when the window is closed.
    pub close_to_tray: bool,
    /// Optional explicit path to a yt-dlp binary (overrides auto-detection).
    pub ytdlp_path: String,
    /// Optional explicit path to an ffmpeg binary or its containing folder.
    pub ffmpeg_path: String,
}

/// The mathematical content of [`Settings`].
pub struct SettingsView {
    pub download_dir: Seq<char>,
    pub default_mode: Seq<char>,
    pub video_quality: Seq<char>,
    pub audio_format: Seq<char>,
    pub concurrent: usize,
    pub embed_metadata: bool,
    pub embed_thumbnail: bool,
    pub open_when_done: bool,
    pub close_to_tray: bool,
    pub ytdlp_path: Seq<char>,
    pub ffmpeg_path: Seq<char>,
}

impl View for Settings {
    type V = SettingsView;

    open spec fn view(&self) -> SettingsView {
        SettingsView {
            download_dir: self.download_dir@,
            default_mode: self.default_mode@,
            video_quality: self.video_quality@,
            audio_format: self.audio_format@,
            concurrent: self.concurrent,
            embed_metadata: self.embed_metadata,
            embed_thumbnail: self.embed_thumbnail,
            open_when_done: self.open_when_done,
            close_to_tray: self.close_to_tray,
            ytdlp_path: self.ytdlp_path@,
            ffmpeg_path: self.ffmpeg_path@,
        }
    }
}

/// The settings a fresh installation starts with.
pub open spec fn default_settings() -> SettingsView {
    SettingsView {
        download_dir: Seq::empty(),
        default_mode: "video"@,
        video_quality: "1080"@,
        audio_format: "mp3"@,
        concurrent: 3,
        embed_metadata: true,
        embed_thumbnail: true,
        open_when_done: false,
        close_to_tray: true,
        ytdlp_path: Seq::empty(),
        ffmpeg_path: Seq::empty(),
    }
}

/// `n` clamped into `lo..=hi`.
pub open spec fn clamp(n: int, lo: int, hi: int) -> int {
    if n < lo {
        lo
    } else if n > hi {
        hi
    } else {
        n
    }
}

/// The settings after [`Settings::normalize`]: a blank download folder is
/// replaced by `fallback_dir`, any mode but "audio" becomes "video", and the
/// concurrency is clamped into 1..=8.
pub open spec fn normalized(s: SettingsView, fallback_dir: Seq<char>) -> SettingsView {
    SettingsView {
        download_dir: if is_blank(s.download_dir) {
            fallback_dir
        } else {
            s.download_dir
        },
        default_mode: if s.default_mode == "audio"@ {
            "audio"@
        } else {
            "video"@
        },
        concurrent: clamp(s.concurrent as int, 1, 8) as usize,
        ..s
    }
}

impl Default for Settings {
    fn default() -> (s: Self)
        ensures
            s@ == default_settings(),
    {
        Settings {
            download_dir: String::new(),
            default_mode: "video".to_string(),
            video_quality: "1080".to_string(),
            audio_format: "mp3".to_string(),
            concurrent: 3,
            embed_metadata: true,
            embed_thumbnail: true,
            open_when_done: false,
            close_to_tray: true,
            ytdlp_path: String::new(),
            ffmpeg_path: String::new(),
        }
    }
}

impl Settings {
    /// Clamp values that came from disk or from the UI into their allowed
    /// ranges. `fallback_dir` is the folder used when none is set.
    pub fn normalize(&mut self, fallback_dir: String)
        ensures
            final(self)@ == normalized(old(self)@, fallback_dir@),
    {
        let dir = chars_of(self.download_dir.as_str());
        if trim_chars(&dir).len() == 0 {
            self.download_dir = fallback_dir;
        }
        let audio = chars_of("audio");
        if !same_chars(&chars_of(self.default_mode.as_str()), &audio) {
            self.default_mode = "video".to_string();
        }
        self.concurrent = if self.concurrent < 1 {
            1
        } else if self.concurrent > 8 {
            8
        } else {
            self.concurrent
        };
    }
}

impl Settings {
    /// How many downloads may run at once: the setting clamped into 1..=8.
    pub fn download_slots(&self) -> (n: usize)
        ensures
            n as int == clamp(self.concurrent as int, 1, 8),
            1 <= n <= 8,
    {
        if self.concurrent < 1 {
            1
        } else if self.concurrent > 8 {
            8
        } else {
            self.concurrent
        }
    }
}

/// Normalizing touches only the download folder, the default mode and the
/// concurrency; every other setting keeps its value.
pub proof fn normalize_keeps_other_fields(s: SettingsView, fallback_dir: Seq<char>)
    ensures
        normalized(s, fallback_dir).video_quality == s.video_quality,
        normalized(s, fallback_dir).audio_format == s.audio_format,
        normalized(s, fallback_dir).embed_metadata == s.embed_metadata,
        normalized(s, fallback_dir).embed_thumbnail == s.embed_thumbnail,
        normalized(s, fallback_dir).open_when_done == s.open_when_done,
        normalized(s, fallback_dir).close_to_tray == s.close_to_tray,
        normalized(s, fallback_dir).ytdlp_path == s.ytdlp_path,
        normalized(s, fallback_dir).ffmpeg_path == s.ffmpeg_path,
{
}

/// The defaults are the documented ones: videos up to 1080 lines, mp3
/// audio, three downloads at once, metadata and thumbnails embedded,
/// closing to the tray, nothing opened when done, no folder or tool paths
/// set yet.
pub proof fn defaults_documented()
    ensures
        default_settings().default_mode == "video"@,
        default_settings().video_quality == "1080"@,
        default_settings().audio_format == "mp3"@,
        default_settings().concurrent == 3,
        1 <= default_settings().concurrent <= 8,
        default_settings().embed_metadata && default_settings().embed_thumbnail,
        !default_settings().open_when_done && default_settings().close_to_tray,
        default_settings().download_dir.len() == 0,
        default_settings().ytdlp_path.len() == 0 && default_settings().ffmpeg_path.len() == 0,
{
}

/// Normalizing twice changes nothing more than normalizing once.
pub proof fn normalize_idempotent(s: SettingsView, fallback_dir: Seq<char>)
    ensures
        normalized(normalized(s, fallback_dir), fallback_dir) == normalized(s, fallback_dir),
{
}

/// After normalizing, the concurrency is within 1..=8, the mode is "video" or
/// "audio", and the download folder is the old one unless that was blank.
pub proof fn normalized_in_range(s: SettingsView, fallback_dir: Seq<char>)
    ensures
        1 <= normalized(s, fallback_dir).concurrent <= 8,
        normalized(s, fallback_dir).default_mode == "video"@ || normalized(
            s,
            fallback_dir,
        ).default_mode == "audio"@,
        !is_blank(s.download_dir) ==> normalized(s, fallback_dir).download_dir == s.download_dir,
        !is_blank(fallback_dir) ==> !is_blank(normalized(s, fallback_dir).download_dir),
{
}

/// The defaults are already normal, whatever folder is offered as fallback
/// once a folder is set.
pub proof fn defaults_are_normal(fallback_dir: Seq<char>)
    ensures
        normalized(default_settings(), fallback_dir) == (SettingsView {
            download_dir: fallback_dir,
            ..default_settings()
        }),
{
    assert(is_blank(Seq::<char>::empty()));
}

} // verus!
