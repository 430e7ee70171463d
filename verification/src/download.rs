//! The download engine's decisions: how a request becomes a yt-dlp command
//! line, how yt-dlp's output lines update a job, and how a job ends.

use vstd::prelude::*;

use crate::settings::{Settings, SettingsView};
use crate::job::{opt_text, queued_job, queued_view, JobCore};
use crate::text::{
    chars_of, concat, decimal, decimal_chars, has_prefix, is_blank, join2, starts_with, str_eq,
    str_is_blank, str_trim, string_of, to_upper, trim, upper_case,
};

verus! {

/// What the UI sends to start a download.
pub struct DownloadRequest {
    pub url: String,
    pub mode: String,
    pub quality: String,
    pub audio_format: String,
}

/// The mathematical content of a [`DownloadRequest`].
pub struct RequestView {
    pub url: Seq<char>,
    pub mode: Seq<char>,
    pub quality: Seq<char>,
    pub audio_format: Seq<char>,
}

impl View for DownloadRequest {
    type V = RequestView;

    open spec fn view(&self) -> RequestView {
        RequestView {
            url: self.url@,
            mode: self.mode@,
            quality: self.quality@,
            audio_format: self.audio_format@,
        }
    }
}

/// yt-dlp prints one of these lines per progress tick (see `--progress-template`).
pub const PROGRESS_TEMPLATE: &'static str = "download:[PROG]%(progress.downloaded_bytes)s|%(progress.total_bytes)s|%(progress.total_bytes_estimate)s|%(progress.speed)s|%(progress.eta)s";

/// The output file name pattern handed to yt-dlp.
pub const OUTPUT_TEMPLATE: &'static str = "%(title).200B [%(id)s].%(ext)s";

/// The request's own value unless it is blank, else the setting.
pub open spec fn chosen(requested: Seq<char>, setting: Seq<char>) -> Seq<char> {
    if is_blank(requested) {
        setting
    } else {
        requested
    }
}

/// Audio formats that can carry an embedded thumbnail.
pub open spec fn takes_thumbnail(fmt: Seq<char>) -> bool {
    fmt == "mp3"@ || fmt == "m4a"@ || fmt == "flac"@
}

/// The audio format a request ends up with.
pub open spec fn audio_format_of(req: RequestView, settings: SettingsView) -> Seq<char> {
    chosen(req.audio_format, settings.audio_format)
}

/// The video quality a request ends up with.
pub open spec fn quality_of(req: RequestView, settings: SettingsView) -> Seq<char> {
    chosen(req.quality, settings.video_quality)
}

/// yt-dlp's format selector for a maximum height `q` ("best": no limit).
pub open spec fn video_selector(q: Seq<char>) -> Seq<char> {
    if q == "best"@ {
        "bv*+ba/b"@
    } else {
        "bv*[height<="@ + q + "]+ba/b[height<="@ + q + "]/b[height<="@ + q + "]/b"@
    }
}

/// The options every download starts with.
pub open spec fn base_args(ffmpeg_dir: Seq<char>, download_dir: Seq<char>) -> Seq<Seq<char>> {
    seq![
        "--newline"@,
        "--no-playlist"@,
        "--ignore-config"@,
        "--no-mtime"@,
        "--progress-template"@,
        PROGRESS_TEMPLATE@,
        "--ffmpeg-location"@,
        ffmpeg_dir,
        "-P"@,
        download_dir,
        "-o"@,
        OUTPUT_TEMPLATE@,
        "--windows-filenames"@,
    ]
}

/// The options that depend on the mode (audio extraction or video download).
pub open spec fn mode_args(req: RequestView, settings: SettingsView) -> Seq<Seq<char>> {
    if req.mode == "audio"@ {
        let fmt = audio_format_of(req, settings);
        seq!["-f"@, "ba/b"@, "-x"@, "--audio-format"@, fmt, "--audio-quality"@, "0"@] + if settings.embed_thumbnail
            && takes_thumbnail(fmt) {
            seq!["--embed-thumbnail"@]
        } else {
            Seq::empty()
        }
    } else {
        seq!["-f"@, video_selector(quality_of(req, settings)), "--merge-output-format"@, "mp4"@]
    }
}

/// The complete yt-dlp argument list for a request; the link comes last.
pub open spec fn download_args(
    req: RequestView,
    settings: SettingsView,
    ffmpeg_dir: Seq<char>,
    download_dir: Seq<char>,
) -> Seq<Seq<char>> {
    base_args(ffmpeg_dir, download_dir) + (if settings.embed_metadata {
        seq!["--embed-metadata"@]
    } else {
        Seq::empty()
    }) + mode_args(req, settings) + seq![req.url]
}

/// The short human label shown for a job.
pub open spec fn download_label(req: RequestView, settings: SettingsView) -> Seq<char> {
    if req.mode == "audio"@ {
        "Audio \u{2022} "@ + upper_case(audio_format_of(req, settings))
    } else if quality_of(req, settings) == "best"@ {
        "Video \u{2022} best"@
    } else {
        "Video \u{2022} "@ + quality_of(req, settings) + "p"@
    }
}

/// The texts of a list of strings.
pub open spec fn texts(v: Seq<String>) -> Seq<Seq<char>> {
    v.map_values(|s: String| s@)
}

fn push_text(args: &mut Vec<String>, s: String)
    ensures
        texts(final(args)@) == texts(old(args)@).push(s@),
{
    args.push(s);
    assert(texts(args@) =~= texts(old(args)@).push(s@));
}

/// Build the yt-dlp argument list and a short human label for the UI.
pub fn build_args(
    req: &DownloadRequest,
    settings: &Settings,
    ffmpeg_dir: &str,
    download_dir: &str,
) -> (r: (Vec<String>, String))
    ensures
        texts(r.0@) == download_args(req@, settings@, ffmpeg_dir@, download_dir@),
        r.1@ == download_label(req@, settings@),
{
    let mut args: Vec<String> = Vec::new();
    push_text(&mut args, "--newline".to_string());
    push_text(&mut args, "--no-playlist".to_string());
    push_text(&mut args, "--ignore-config".to_string());
    push_text(&mut args, "--no-mtime".to_string());
    push_text(&mut args, "--progress-template".to_string());
    push_text(&mut args, PROGRESS_TEMPLATE.to_string());
    push_text(&mut args, "--ffmpeg-location".to_string());
    push_text(&mut args, ffmpeg_dir.to_string());
    push_text(&mut args, "-P".to_string());
    push_text(&mut args, download_dir.to_string());
    push_text(&mut args, "-o".to_string());
    push_text(&mut args, OUTPUT_TEMPLATE.to_string());
    push_text(&mut args, "--windows-filenames".to_string());
    assert(texts(args@) =~= base_args(ffmpeg_dir@, download_dir@));
    if settings.embed_metadata {
        push_text(&mut args, "--embed-metadata".to_string());
    }
    let ghost head = texts(args@);
    let label;
    if str_eq(req.mode.as_str(), "audio") {
        let fmt = if str_is_blank(req.audio_format.as_str()) {
            settings.audio_format.clone()
        } else {
            req.audio_format.clone()
        };
        push_text(&mut args, "-f".to_string());
        push_text(&mut args, "ba/b".to_string());
        push_text(&mut args, "-x".to_string());
        push_text(&mut args, "--audio-format".to_string());
        push_text(&mut args, fmt.clone());
        push_text(&mut args, "--audio-quality".to_string());
        push_text(&mut args, "0".to_string());
        let f = fmt.as_str();
        if settings.embed_thumbnail && (str_eq(f, "mp3") || str_eq(f, "m4a") || str_eq(f, "flac")) {
            push_text(&mut args, "--embed-thumbnail".to_string());
        }
        label = join2("Audio \u{2022} ", to_upper(f).as_str());
    } else {
        let q = if str_is_blank(req.quality.as_str()) {
            settings.video_quality.clone()
        } else {
            req.quality.clone()
        };
        let best = str_eq(q.as_str(), "best");
        let fmt = if best {
            "bv*+ba/b".to_string()
        } else {
            let mut f = "bv*[height<=".to_string();
            f.append(q.as_str());
            f.append("]+ba/b[height<=");
            f.append(q.as_str());
            f.append("]/b[height<=");
            f.append(q.as_str());
            f.append("]/b");
            f
        };
        push_text(&mut args, "-f".to_string());
        push_text(&mut args, fmt);
        push_text(&mut args, "--merge-output-format".to_string());
        push_text(&mut args, "mp4".to_string());
        label = if best {
            "Video \u{2022} best".to_string()
        } else {
            let mut l = "Video \u{2022} ".to_string();
            l.append(q.as_str());
            l.append("p");
            l
        };
    }
    assert(texts(args@).subrange(0, head.len() as int) == head);
    push_text(&mut args, req.url.clone());
    assert(texts(args@) =~= download_args(req@, settings@, ffmpeg_dir@, download_dir@));
    (args, label)
}


/// Whatever the request and settings, the link is the last argument, the
/// first is "--newline", playlists and user configuration are always ignored,
/// and metadata is embedded exactly when the settings ask for it.
pub proof fn download_args_shape(
    req: RequestView,
    settings: SettingsView,
    ffmpeg_dir: Seq<char>,
    download_dir: Seq<char>,
)
    ensures
        ({
            let a = download_args(req, settings, ffmpeg_dir, download_dir);
            &&& a.len() > 13
            &&& a.last() == req.url
            &&& a[0] == "--newline"@
            &&& a[1] == "--no-playlist"@
            &&& a[2] == "--ignore-config"@
            &&& a[7] == ffmpeg_dir
            &&& a[9] == download_dir
            &&& (a[13] == "--embed-metadata"@ <==> settings.embed_metadata)
        }),
{
    reveal_strlit("--embed-metadata");
    reveal_strlit("-f");
    let b = base_args(ffmpeg_dir, download_dir);
    let m: Seq<Seq<char>> = if settings.embed_metadata {
        seq!["--embed-metadata"@]
    } else {
        Seq::empty()
    };
    let md = mode_args(req, settings);
    let a = download_args(req, settings, ffmpeg_dir, download_dir);
    assert(a == b + m + md + seq![req.url]);
    assert(md.len() >= 4);
    assert(md[0] == "-f"@);
    assert((b + m + md)[13] == (m + md)[0]);
    assert(a[13] == (b + m + md)[13]);
}

/// An audio request extracts audio in the chosen format; a video request
/// merges into mp4 with the chosen quality's format selector.
pub proof fn download_args_mode(
    req: RequestView,
    settings: SettingsView,
    ffmpeg_dir: Seq<char>,
    download_dir: Seq<char>,
)
    ensures
        ({
            let a = download_args(req, settings, ffmpeg_dir, download_dir);
            let k: int = if settings.embed_metadata {
                14
            } else {
                13
            };
            &&& a[k] == "-f"@
            &&& req.mode == "audio"@ ==> a[k + 2] == "-x"@ && a[k + 4] == audio_format_of(
                req,
                settings,
            )
            &&& req.mode != "audio"@ ==> a[k + 1] == video_selector(quality_of(req, settings))
                && a[k + 3] == "mp4"@
        }),
{
}

/// Thumbnails are embedded only into audio files, and into exactly those
/// whose format can carry one when the settings ask for it.
pub proof fn thumbnails_only_for_audio(req: RequestView, settings: SettingsView)
    ensures
        req.mode != "audio"@ ==> !mode_args(req, settings).contains("--embed-thumbnail"@),
        req.mode == "audio"@ ==> {
            let m = mode_args(req, settings);
            &&& (m.len() == 8 <==> settings.embed_thumbnail && takes_thumbnail(
                audio_format_of(req, settings),
            ))
            &&& m.len() == 8 ==> m[7] == "--embed-thumbnail"@
        },
{
    reveal_strlit("--embed-thumbnail");
    reveal_strlit("-f");
    reveal_strlit("--merge-output-format");
    reveal_strlit("mp4");
    reveal_strlit("bv*+ba/b");
    reveal_strlit("bv*[height<=");
    let m = mode_args(req, settings);
    if req.mode != "audio"@ && m.contains("--embed-thumbnail"@) {
        let i = choose|i: int| 0 <= i < m.len() && m[i] == "--embed-thumbnail"@;
        assert(m.len() == 4);
        assert("--embed-thumbnail"@[0] == '-');
        if i == 0 {
            assert(m[0].len() == 2);
        } else if i == 1 {
            let q = quality_of(req, settings);
            let h = "bv*[height<="@;
            if q != "best"@ {
                assert(video_selector(q) == h + (q + ("]+ba/b[height<="@ + (q + ("]/b[height<="@
                    + (q + "]/b"@))))));
                assert(video_selector(q)[0] == h[0]);
            }
            assert(video_selector(q)[0] == 'b');
        } else if i == 2 {
            assert(m[2].len() == 21);
        } else {
            assert(m[3].len() == 3);
        }
    }
}

/// For an audio request, the option before the link is "--embed-thumbnail"
/// exactly when the settings ask for thumbnails and the chosen format (the
/// request's own unless blank, else the setting) is mp3, m4a or flac; and the
/// chosen format is what "--audio-format" is given.
pub proof fn audio_thumbnail_formats(
    req: RequestView,
    settings: SettingsView,
    ffmpeg_dir: Seq<char>,
    download_dir: Seq<char>,
)
    requires
        req.mode == "audio"@,
    ensures
        ({
            let a = download_args(req, settings, ffmpeg_dir, download_dir);
            let fmt = if is_blank(req.audio_format) {
                settings.audio_format
            } else {
                req.audio_format
            };
            let k: int = if settings.embed_metadata {
                14
            } else {
                13
            };
            &&& a[k + 3] == "--audio-format"@
            &&& a[k + 4] == fmt
            &&& (a[a.len() - 2] == "--embed-thumbnail"@ <==> (settings.embed_thumbnail && (fmt
                == "mp3"@ || fmt == "m4a"@ || fmt == "flac"@)))
        }),
{
    reveal_strlit("--embed-thumbnail");
    reveal_strlit("0");
    let b = base_args(ffmpeg_dir, download_dir);
    let m: Seq<Seq<char>> = if settings.embed_metadata {
        seq!["--embed-metadata"@]
    } else {
        Seq::empty()
    };
    let md = mode_args(req, settings);
    let a = download_args(req, settings, ffmpeg_dir, download_dir);
    assert(a == b + m + md + seq![req.url]);
    assert(a[a.len() - 2] == md[md.len() - 1]);
    let k: int = if settings.embed_metadata {
        14
    } else {
        13
    };
    assert(a[k + 3] == md[3]);
    assert(a[k + 4] == md[4]);
}

/// A video request asks for the best streams when its quality (the request's
/// own unless blank, else the setting) is "best", and otherwise limits every
/// alternative of the format selector to that height; it always merges into
/// mp4.
pub proof fn video_quality_selector(
    req: RequestView,
    settings: SettingsView,
    ffmpeg_dir: Seq<char>,
    download_dir: Seq<char>,
)
    requires
        req.mode != "audio"@,
    ensures
        ({
            let a = download_args(req, settings, ffmpeg_dir, download_dir);
            let q = if is_blank(req.quality) {
                settings.video_quality
            } else {
                req.quality
            };
            let k: int = if settings.embed_metadata {
                14
            } else {
                13
            };
            let lim = "[height<="@ + q + "]"@;
            &&& a[k] == "-f"@
            &&& q == "best"@ ==> a[k + 1] == "bv*+ba/b"@
            &&& q != "best"@ ==> a[k + 1] == "bv*"@ + lim + "+ba/b"@ + lim + "/b"@ + lim + "/b"@
            &&& a[k + 2] == "--merge-output-format"@
            &&& a[k + 3] == "mp4"@
            &&& a.len() == k + 5
        }),
{
    reveal_strlit("bv*");
    reveal_strlit("[height<=");
    reveal_strlit("]");
    reveal_strlit("+ba/b");
    reveal_strlit("/b");
    reveal_strlit("bv*[height<=");
    reveal_strlit("]+ba/b[height<=");
    reveal_strlit("]/b[height<=");
    reveal_strlit("]/b");
    let q = quality_of(req, settings);
    let lim = "[height<="@ + q + "]"@;
    if q != "best"@ {
        assert(video_selector(q) =~= "bv*"@ + lim + "+ba/b"@ + lim + "/b"@ + lim + "/b"@);
    }
    let b = base_args(ffmpeg_dir, download_dir);
    let m: Seq<Seq<char>> = if settings.embed_metadata {
        seq!["--embed-metadata"@]
    } else {
        Seq::empty()
    };
    let md = mode_args(req, settings);
    assert(download_args(req, settings, ffmpeg_dir, download_dir) == b + m + md + seq![req.url]);
}

/// Only http(s) links are accepted: a link passes exactly when its text
/// starts with "http://" or "https://".
pub proof fn only_web_links(url: Seq<char>)
    ensures
        is_web_link(url) <==> (url.len() >= 7 && url.take(7) == "http://"@) || (url.len() >= 8
            && url.take(8) == "https://"@),
{
    reveal_strlit("http://");
    reveal_strlit("https://");
}

// ---------------------------------------------------------------------------
// Starting a download
// ---------------------------------------------------------------------------

/// A link the downloader accepts: an http(s) address.
pub open spec fn is_web_link(url: Seq<char>) -> bool {
    has_prefix(url, "http://"@) || has_prefix(url, "https://"@)
}

/// The message for a link that is not an http(s) address.
pub open spec fn bad_link_message() -> Seq<char> {
    "Please paste a valid http(s) link."@
}

/// Accept only http(s) links.
pub fn require_web_link(url: &str) -> (r: Result<(), String>)
    ensures
        match r {
            Ok(()) => is_web_link(url@),
            Err(e) => !is_web_link(url@) && e@ == bad_link_message(),
        },
{
    let u = chars_of(url);
    if starts_with(&u, &chars_of("http://")) || starts_with(&u, &chars_of("https://")) {
        Ok(())
    } else {
        Err("Please paste a valid http(s) link.".to_string())
    }
}

/// The link of a new download: the request's link trimmed, if it is an
/// http(s) address.
pub fn start_link(req: &DownloadRequest) -> (r: Result<String, String>)
    ensures
        match r {
            Ok(u) => is_web_link(trim(req.url@)) && u@ == trim(req.url@),
            Err(e) => !is_web_link(trim(req.url@)) && e@ == bad_link_message(),
        },
{
    let url = str_trim(req.url.as_str());
    match require_web_link(url.as_str()) {
        Ok(()) => Ok(url),
        Err(e) => Err(e),
    }
}

/// The yt-dlp arguments and the queued job for a download of `req` whose
/// link is `url` (see [`start_link`]) and whose id is `id`.
pub fn plan_job(
    req: &DownloadRequest,
    url: String,
    settings: &Settings,
    ffmpeg_dir: &str,
    id: String,
) -> (r: (Vec<String>, JobCore))
    ensures
        ({
            let rq = RequestView { url: url@, ..req@ };
            &&& texts(r.0@) == download_args(rq, settings@, ffmpeg_dir@, settings@.download_dir)
            &&& r.1@ == queued_view(id@, url@, req@.mode, download_label(rq, settings@))
        }),
{
    let rq = DownloadRequest {
        url: url.clone(),
        mode: req.mode.clone(),
        quality: req.quality.clone(),
        audio_format: req.audio_format.clone(),
    };
    let (args, label) = build_args(&rq, settings, ffmpeg_dir, settings.download_dir.as_str());
    let job = queued_job(id, url, req.mode.clone(), label);
    (args, job)
}

// ---------------------------------------------------------------------------
// Job ids
// ---------------------------------------------------------------------------

/// Hands out job ids: the time in milliseconds and a running counter.
pub struct IdGen {
    pub next: u64,
}

/// The id made from a time stamp and a counter value.
pub open spec fn job_id(millis: nat, n: nat) -> Seq<char> {
    decimal(millis) + "-"@ + decimal(n)
}

impl IdGen {
    /// A counter that starts at zero.
    pub fn new() -> (g: IdGen)
        ensures
            g.next == 0,
    {
        IdGen { next: 0 }
    }

    /// A fresh job id for the time `now_millis` (milliseconds since the Unix
    /// epoch); the counter moves on by one, wrapping around at its maximum.
    pub fn gen_id(&mut self, now_millis: u128) -> (id: String)
        ensures
            id@ == job_id(now_millis as nat, old(self).next as nat),
            final(self).next == old(self).next.wrapping_add(1),
    {
        let n = self.next;
        self.next = n.wrapping_add(1);
        let r = concat(&concat(&decimal_chars(now_millis), &chars_of("-")), &decimal_chars(n as u128));
        string_of(&r)
    }
}

/// A decimal representation never contains a dash.
pub proof fn lemma_decimal_no_dash(n: nat)
    ensures
        forall|i: int| 0 <= i < decimal(n).len() ==> decimal(n)[i] != '-',
        decimal(n).len() >= 1,
    decreases n,
{
    if n >= 10 {
        lemma_decimal_no_dash(n / 10);
    }
}

/// Distinct numbers have distinct decimal representations.
pub proof fn lemma_decimal_injective(a: nat, b: nat)
    requires
        decimal(a) == decimal(b),
    ensures
        a == b,
    decreases a,
{
    lemma_decimal_no_dash(a / 10);
    lemma_decimal_no_dash(b / 10);
    if a < 10 && b < 10 {
        assert(decimal(a)[0] == decimal(b)[0]);
        assert(decimal(a)[0] == crate::text::digit(a));
        assert(decimal(b)[0] == crate::text::digit(b));
        assert(crate::text::digit(a) as u32 == 48 + a);
        assert(crate::text::digit(b) as u32 == 48 + b);
        assert(a == b);
    } else if a < 10 {
        assert(decimal(b).len() == decimal(b / 10).len() + 1);
        assert(a == b);
    } else if b < 10 {
        assert(decimal(a).len() == decimal(a / 10).len() + 1);
        assert(a == b);
    } else {
        assert(decimal(a).last() == decimal(b).last());
        assert(decimal(a).last() == crate::text::digit(a % 10));
        assert(decimal(b).last() == crate::text::digit(b % 10));
        assert(crate::text::digit(a % 10) as u32 == 48 + a % 10);
        assert(crate::text::digit(b % 10) as u32 == 48 + b % 10);
        assert(decimal(a).drop_last() =~= decimal(a / 10));
        assert(decimal(b).drop_last() =~= decimal(b / 10));
        lemma_decimal_injective(a / 10, b / 10);
        assert(a == 10 * (a / 10) + a % 10);
        assert(b == 10 * (b / 10) + b % 10);
    }
}

/// The counter can be read back from an id: it is what follows the last dash.
proof fn lemma_job_id_suffix(millis: nat, n: nat)
    ensures
        crate::text::rfind_char(job_id(millis, n), '-') == Some(decimal(millis).len() as int),
        job_id(millis, n).skip(decimal(millis).len() + 1int) == decimal(n),
{
    reveal_strlit("-");
    let id = job_id(millis, n);
    let k = decimal(millis).len();
    lemma_decimal_no_dash(n);
    assert(id.skip(k + 1int) =~= decimal(n));
    lemma_rfind_past(id, '-', k as int);
}

/// If no `c` follows position `k` and `s[k]` is `c`, the last `c` is at `k`.
proof fn lemma_rfind_past(s: Seq<char>, c: char, k: int)
    requires
        0 <= k < s.len(),
        s[k] == c,
        forall|i: int| k < i < s.len() ==> s[i] != c,
    ensures
        crate::text::rfind_char(s, c) == Some(k),
    decreases s.len(),
{
    if s.last() != c {
        assert forall|i: int| k < i < s.drop_last().len() implies s.drop_last()[i] != c by {
            assert(s.drop_last()[i] == s[i]);
        }
        lemma_rfind_past(s.drop_last(), c, k);
    }
}

/// Ids made with different counter values differ, whatever the times: the
/// ids of jobs started fewer than 2^64 ids apart never collide.
pub proof fn job_ids_distinct(t1: nat, n1: nat, t2: nat, n2: nat)
    requires
        n1 != n2,
    ensures
        job_id(t1, n1) != job_id(t2, n2),
{
    lemma_job_id_suffix(t1, n1);
    lemma_job_id_suffix(t2, n2);
    if job_id(t1, n1) == job_id(t2, n2) {
        lemma_decimal_injective(n1, n2);
    }
}


// ---------------------------------------------------------------------------
// Probing a link
// ---------------------------------------------------------------------------

/// `s` is strictly decreasing.
pub open spec fn strictly_decreasing(s: Seq<u64>) -> bool {
    forall|i: int, j: int| 0 <= i < j < s.len() ==> s[i] > s[j]
}

/// The video heights offered for a link: the positive heights of its formats,
/// each once, highest first.
pub fn offered_heights(heights: &Vec<u64>) -> (r: Vec<u64>)
    ensures
        strictly_decreasing(r@),
        forall|x: u64| r@.contains(x) <==> (x > 0 && heights@.contains(x)),
{
    let mut r: Vec<u64> = Vec::new();
    let mut i: usize = 0;
    while i < heights.len()
        invariant
            i <= heights.len(),
            strictly_decreasing(r@),
            forall|x: u64| r@.contains(x) <==> (x > 0 && heights@.take(i as int).contains(x)),
        decreases heights.len() - i,
    {
        let h = heights[i];
        assert(heights@.take(i + 1) =~= heights@.take(i as int).push(h));
        proof {
            lemma_push_contains(heights@.take(i as int), h);
        }
        let ghost r0 = r@;
        if h > 0 {
            let mut p: usize = 0;
            while p < r.len() && r[p] > h
                invariant
                    p <= r.len(),
                    forall|k: int| 0 <= k < p ==> r@[k] > h,
                decreases r.len() - p,
            {
                p += 1;
            }
            if p < r.len() && r[p] == h {
                assert(r@.contains(h));
            } else {
                let ghost before = r@;
                r.insert(p, h);
                assert(r@ =~= before.take(p as int).push(h) + before.skip(p as int));
                assert forall|a: int, b: int| 0 <= a < b < r@.len() implies r@[a] > r@[b] by {
                    if b < p {
                        assert(r@[a] == before[a] && r@[b] == before[b]);
                    } else if b == p {
                        assert(r@[a] == before[a]);
                    } else if a < p {
                        assert(r@[a] == before[a] && r@[b] == before[b - 1]);
                        assert(before[p as int] < h);
                        if b - 1 > p {
                            assert(before[p as int] > before[b - 1]);
                        }
                    } else if a == p {
                        assert(r@[b] == before[b - 1]);
                        assert(before[p as int] < h);
                        if b - 1 > p {
                            assert(before[p as int] > before[b - 1]);
                        }
                    } else {
                        assert(r@[a] == before[a - 1] && r@[b] == before[b - 1]);
                    }
                }
                assert forall|x: u64| r@.contains(x) <==> (before.contains(x) || x == h) by {
                    if r@.contains(x) {
                        let k = choose|k: int| 0 <= k < r@.len() && r@[k] == x;
                        if k < p {
                            assert(before[k] == x);
                        } else if k > p {
                            assert(before[k - 1] == x);
                        }
                    }
                    if before.contains(x) {
                        let k = choose|k: int| 0 <= k < before.len() && before[k] == x;
                        if k < p {
                            assert(r@[k] == x);
                        } else {
                            assert(r@[k + 1] == x);
                        }
                    }
                    if x == h {
                        assert(r@[p as int] == h);
                    }
                }
            }
        }
        assert forall|x: u64| r@.contains(x) <==> (x > 0 && heights@.take(i + 1).contains(x)) by {
            assert(r@.contains(x) <==> (r0.contains(x) || (h > 0 && x == h)));
            assert(r0.contains(x) <==> (x > 0 && heights@.take(i as int).contains(x)));
        }
        i += 1;
    }
    assert(heights@.take(heights.len() as int) =~= heights@);
    r
}

/// What a sequence holds after a push.
proof fn lemma_push_contains(s: Seq<u64>, v: u64)
    ensures
        forall|x: u64| s.push(v).contains(x) <==> (s.contains(x) || x == v),
{
    assert forall|x: u64| s.push(v).contains(x) <==> (s.contains(x) || x == v) by {
        if s.push(v).contains(x) {
            let k = choose|k: int| 0 <= k < s.push(v).len() && s.push(v)[k] == x;
            if k < s.len() {
                assert(s[k] == x);
            }
        }
        if s.contains(x) {
            let k = choose|k: int| 0 <= k < s.len() && s[k] == x;
            assert(s.push(v)[k] == x);
        }
        if x == v {
            assert(s.push(v)[s.len() as int] == x);
        }
    }
}

/// What probing a link tells the UI (its duration aside).
pub struct ProbeSummary {
    pub title: String,
    pub thumbnail: String,
    pub uploader: String,
    pub heights: Vec<u64>,
}

/// The text of an optional string; empty when absent.
pub open spec fn text_or_empty(o: Option<String>) -> Seq<char> {
    match o {
        Some(s) => s@,
        None => Seq::empty(),
    }
}

/// Put together what yt-dlp reported about a link: missing texts become
/// empty, the uploader falls back to the channel, and the heights are those
/// of [`offered_heights`].
pub fn summarize_probe(
    title: Option<String>,
    thumbnail: Option<String>,
    uploader: Option<String>,
    channel: Option<String>,
    heights: &Vec<u64>,
) -> (p: ProbeSummary)
    ensures
        p.title@ == text_or_empty(title),
        p.thumbnail@ == text_or_empty(thumbnail),
        p.uploader@ == match uploader {
            Some(u) => u@,
            None => text_or_empty(channel),
        },
        strictly_decreasing(p.heights@),
        forall|x: u64| p.heights@.contains(x) <==> (x > 0 && heights@.contains(x)),
{
    ProbeSummary {
        title: match title {
            Some(t) => t,
            None => String::new(),
        },
        thumbnail: match thumbnail {
            Some(t) => t,
            None => String::new(),
        },
        uploader: match uploader {
            Some(u) => u,
            None => match channel {
                Some(c) => c,
                None => String::new(),
            },
        },
        heights: offered_heights(heights),
    }
}


/// The yt-dlp arguments that describe a link as one JSON document without
/// downloading it.
pub open spec fn probe_arg_list(url: Seq<char>) -> Seq<Seq<char>> {
    seq!["--ignore-config"@, "--no-playlist"@, "--no-warnings"@, "--dump-single-json"@, url]
}

/// The yt-dlp arguments for probing `url`.
pub fn probe_args(url: &str) -> (r: Vec<String>)
    ensures
        texts(r@) == probe_arg_list(url@),
{
    let mut r: Vec<String> = Vec::new();
    push_text(&mut r, "--ignore-config".to_string());
    push_text(&mut r, "--no-playlist".to_string());
    push_text(&mut r, "--no-warnings".to_string());
    push_text(&mut r, "--dump-single-json".to_string());
    push_text(&mut r, url.to_string());
    assert(texts(r@) =~= probe_arg_list(url@));
    r
}

/// What yt-dlp's JSON description of a link holds, as far as the UI uses it
/// (its duration aside).
pub struct ProbeFields {
    pub title: Option<String>,
    pub thumbnail: Option<String>,
    pub uploader: Option<String>,
    pub channel: Option<String>,
    /// The height of each entry of "formats", in order.
    pub heights: Vec<Option<u64>>,
}

/// What `serde_json` reads from yt-dlp's `--dump-single-json` output `out`:
/// the "title", "thumbnail", "uploader" and "channel" strings (absent when
/// missing or not strings), and for each entry of the "formats" array its
/// "height" as an unsigned integer (absent when missing or not one; no
/// entries when there is no such array). None when `out` is not JSON.
pub uninterp spec fn probe_json(out: Seq<u8>) -> Option<
    (Option<Seq<char>>, Option<Seq<char>>, Option<Seq<char>>, Option<Seq<char>>, Seq<Option<u64>>),
>;

/// `serde_json::from_slice` into a `serde_json::Value`, then its
/// `as_str`/`as_array`/`as_u64` readings of the fields the UI uses.
#[verifier::external_body]
fn decode_probe_json(out: &Vec<u8>) -> (r: Result<ProbeFields, String>)
    ensures
        match r {
            Ok(f) => probe_json(out@) == Some(
                (
                    opt_text(f.title),
                    opt_text(f.thumbnail),
                    opt_text(f.uploader),
                    opt_text(f.channel),
                    f.heights@,
                ),
            ),
            Err(_) => probe_json(out@) is None,
        },
{
    let v: serde_json::Value = serde_json::from_slice(out).map_err(|e| e.to_string())?;
    let text = |key: &str| v[key].as_str().map(|s| s.to_string());
    let heights = match v["formats"].as_array() {
        Some(fs) => fs.iter().map(|f| f["height"].as_u64()).collect(),
        None => Vec::new(),
    };
    Ok(ProbeFields {
        title: text("title"),
        thumbnail: text("thumbnail"),
        uploader: text("uploader"),
        channel: text("channel"),
        heights,
    })
}

/// An optional text, empty when absent.
pub open spec fn or_empty(o: Option<Seq<char>>) -> Seq<char> {
    match o {
        Some(s) => s,
        None => Seq::empty(),
    }
}

/// The heights that are present.
fn present_heights(hs: &Vec<Option<u64>>) -> (r: Vec<u64>)
    ensures
        forall|x: u64| r@.contains(x) <==> hs@.contains(Some(x)),
{
    let mut r: Vec<u64> = Vec::new();
    let mut i: usize = 0;
    while i < hs.len()
        invariant
            i <= hs.len(),
            forall|x: u64| r@.contains(x) <==> hs@.take(i as int).contains(Some(x)),
        decreases hs.len() - i,
    {
        let ghost r0 = r@;
        assert(hs@.take(i + 1) =~= hs@.take(i as int).push(hs@[i as int]));
        if let Some(h) = hs[i] {
            r.push(h);
        }
        assert forall|x: u64| r@.contains(x) <==> hs@.take(i + 1).contains(Some(x)) by {
            let t = hs@.take(i as int);
            let u = hs@.take(i + 1);
            if u.contains(Some(x)) {
                let k = choose|k: int| 0 <= k < u.len() && u[k] == Some(x);
                if k < i {
                    assert(t[k] == Some(x));
                } else {
                    assert(r@[r@.len() - 1] == x);
                }
            }
            if t.contains(Some(x)) {
                let k = choose|k: int| 0 <= k < t.len() && t[k] == Some(x);
                assert(u[k] == Some(x));
            }
            if r@.contains(x) {
                let k = choose|k: int| 0 <= k < r@.len() && r@[k] == x;
                if k < r0.len() {
                    assert(r0[k] == x);
                } else {
                    assert(u[i as int] == Some(x));
                }
            }
            if r0.contains(x) {
                let k = choose|k: int| 0 <= k < r0.len() && r0[k] == x;
                assert(r@[k] == x);
            }
        }
        i += 1;
    }
    assert(hs@.take(hs.len() as int) =~= hs@);
    r
}

/// What probing a link reports, from yt-dlp's JSON output: missing texts are
/// empty, the uploader falls back to the channel, and the heights are the
/// positive ones of the formats, each once, highest first. An output that is
/// not JSON is an error.
pub fn probe_summary(out: &Vec<u8>) -> (r: Result<ProbeSummary, String>)
    ensures
        match r {
            Ok(p) => probe_json(out@) matches Some((title, thumbnail, uploader, channel, hs)) && {
                &&& p.title@ == or_empty(title)
                &&& p.thumbnail@ == or_empty(thumbnail)
                &&& p.uploader@ == match uploader {
                    Some(u) => u,
                    None => or_empty(channel),
                }
                &&& strictly_decreasing(p.heights@)
                &&& forall|x: u64| p.heights@.contains(x) <==> (x > 0 && hs.contains(Some(x)))
            },
            Err(_) => probe_json(out@) is None,
        },
{
    let f = match decode_probe_json(out) {
        Ok(f) => f,
        Err(e) => return Err(e),
    };
    let ghost fields = (
        opt_text(f.title),
        opt_text(f.thumbnail),
        opt_text(f.uploader),
        opt_text(f.channel),
        f.heights@,
    );
    let heights = present_heights(&f.heights);
    let p = summarize_probe(f.title, f.thumbnail, f.uploader, f.channel, &heights);
    assert(probe_json(out@) == Some(fields));
    assert(p.title@ == or_empty(fields.0));
    assert(p.thumbnail@ == or_empty(fields.1));
    assert forall|x: u64| p.heights@.contains(x) <==> (x > 0 && fields.4.contains(Some(x))) by {
        assert(heights@.contains(x) <==> fields.4.contains(Some(x)));
    }
    Ok(p)
}

} // verus!
