//! A download job's visible state and how yt-dlp's output lines change it.
//!
//! The percentage shown for a job is a floating-point number and is kept by
//! the caller; everything else about a job is held and updated here.

use vstd::prelude::*;

use crate::text::{
    chars_of, contains, contains_seq, join2, find, find_seq, has_prefix, rfind_char, rfind_char_in,
    slice, split_char, split_on, starts_with, str_eq, string_of, trim, trim_chars,
};

verus! {

/// A single download's state, as shown in the UI (all but its percentage).
pub struct JobCore {
    pub id: String,
    pub url: String,
    pub mode: String,
    pub format: String,
    pub title: String,
    pub status: String,
    pub speed: String,
    pub eta: String,
    pub size: String,
    pub filepath: String,
    pub error: String,
}

/// The mathematical content of a [`JobCore`].
pub struct JobView {
    pub id: Seq<char>,
    pub url: Seq<char>,
    pub mode: Seq<char>,
    pub format: Seq<char>,
    pub title: Seq<char>,
    pub status: Seq<char>,
    pub speed: Seq<char>,
    pub eta: Seq<char>,
    pub size: Seq<char>,
    pub filepath: Seq<char>,
    pub error: Seq<char>,
}

impl View for JobCore {
    type V = JobView;

    open spec fn view(&self) -> JobView {
        JobView {
            id: self.id@,
            url: self.url@,
            mode: self.mode@,
            format: self.format@,
            title: self.title@,
            status: self.status@,
            speed: self.speed@,
            eta: self.eta@,
            size: self.size@,
            filepath: self.filepath@,
            error: self.error@,
        }
    }
}

/// The texts of the numeric fields of one progress line, each trimmed and
/// absent when yt-dlp reported no value.
pub struct ProgressFields {
    pub downloaded: Option<String>,
    pub total: Option<String>,
    pub estimate: Option<String>,
    pub speed: Option<String>,
    pub eta: Option<String>,
}

/// What an output line did to a job, beyond the fields set here.
pub enum LineEffect {
    /// Nothing: the UI need not be refreshed.
    Ignored,
    /// A progress tick; the caller turns these numbers into the percentage,
    /// size, speed and time-left texts.
    Progress(ProgressFields),
    /// A post-processing phase began; the job counts as fully downloaded.
    Processing,
    /// The output file's path became known.
    PathFound,
}

/// The mathematical content of a [`LineEffect`].
pub enum EffectView {
    Ignored,
    Progress(
        Option<Seq<char>>,
        Option<Seq<char>>,
        Option<Seq<char>>,
        Option<Seq<char>>,
        Option<Seq<char>>,
    ),
    Processing,
    PathFound,
}

/// The text of an optional string.
pub open spec fn opt_text(o: Option<String>) -> Option<Seq<char>> {
    match o {
        Some(s) => Some(s@),
        None => None,
    }
}

impl View for LineEffect {
    type V = EffectView;

    open spec fn view(&self) -> EffectView {
        match self {
            LineEffect::Ignored => EffectView::Ignored,
            LineEffect::Progress(f) => EffectView::Progress(
                opt_text(f.downloaded),
                opt_text(f.total),
                opt_text(f.estimate),
                opt_text(f.speed),
                opt_text(f.eta),
            ),
            LineEffect::Processing => EffectView::Processing,
            LineEffect::PathFound => EffectView::PathFound,
        }
    }
}

/// A numeric field's text: trimmed, and absent when empty or a "no value"
/// marker ("NA", "None", "N/A").
pub open spec fn num_text(f: Seq<char>) -> Option<Seq<char>> {
    let t = trim(f);
    if t.len() == 0 || t == "NA"@ || t == "None"@ || t == "N/A"@ {
        None
    } else {
        Some(t)
    }
}

/// The `k`-th field of a progress line, if there is one with a value.
pub open spec fn field_text(parts: Seq<Seq<char>>, k: int) -> Option<Seq<char>> {
    if 0 <= k < parts.len() {
        num_text(parts[k])
    } else {
        None
    }
}

/// The marker yt-dlp's progress lines start with (see the progress template).
pub open spec fn prog_marker() -> Seq<char> {
    "[PROG]"@
}

/// Lines of post-processing phases (merging, audio extraction, metadata, ...).
pub open spec fn is_post_process(line: Seq<char>) -> bool {
    ||| contains(line, "[Merger]"@)
    ||| contains(line, "[ExtractAudio]"@)
    ||| contains(line, "[VideoConvertor]"@)
    ||| contains(line, "[VideoRemuxer]"@)
    ||| contains(line, "[Metadata]"@)
    ||| contains(line, "[ThumbnailsConvertor]"@)
    ||| contains(line, "[EmbedThumbnail]"@)
    ||| contains(line, "[Fixup"@)
}

/// The text that introduces the merged file's path.
pub open spec fn merge_marker() -> Seq<char> {
    "Merging formats into \""@
}

/// The merged file's path in a merger line: what follows the marker, up to
/// the last double quote.
pub open spec fn merged_path(line: Seq<char>) -> Option<Seq<char>> {
    match find(line, merge_marker()) {
        Some(i) => {
            let rest = line.skip(i + merge_marker().len());
            match rfind_char(rest, '"') {
                Some(e) => Some(rest.take(e)),
                None => None,
            }
        },
        None => None,
    }
}

/// The path after "Destination:" in a line, trimmed.
pub open spec fn destination(line: Seq<char>) -> Option<Seq<char>> {
    match find(line, "Destination:"@) {
        Some(i) => Some(trim(line.skip(i + 12))),
        None => None,
    }
}

/// Post-processing steps that write the final media file under a new name
/// (reported on a "Destination:" line).
pub open spec fn converts_media(line: Seq<char>) -> bool {
    ||| contains(line, "[ExtractAudio]"@)
    ||| contains(line, "[VideoConvertor]"@)
    ||| contains(line, "[VideoRemuxer]"@)
}

/// The path of the file a post-processing line produces: the merged file, or
/// the converted file's destination (so that "open when done" reveals the
/// finished file, not an intermediate one yt-dlp deletes).
pub open spec fn output_path(line: Seq<char>) -> Option<Seq<char>> {
    match merged_path(line) {
        Some(p) => Some(p),
        None => if converts_media(line) {
            match destination(line) {
                Some(p) => if p.len() > 0 {
                    Some(p)
                } else {
                    None
                },
                None => None,
            }
        } else {
            None
        },
    }
}

/// How one output line changes a job (its title aside) and what it reports.
pub open spec fn line_step(j: JobView, line: Seq<char>) -> (JobView, EffectView) {
    if has_prefix(line, prog_marker()) {
        let parts = split_char(line.skip(6), '|');
        (
            JobView {
                status: if j.status == "processing"@ {
                    j.status
                } else {
                    "downloading"@
                },
                ..j
            },
            EffectView::Progress(
                field_text(parts, 0),
                field_text(parts, 1),
                field_text(parts, 2),
                field_text(parts, 3),
                field_text(parts, 4),
            ),
        )
    } else if is_post_process(line) {
        (
            JobView {
                status: "processing"@,
                speed: Seq::empty(),
                eta: Seq::empty(),
                filepath: match output_path(line) {
                    Some(p) => p,
                    None => j.filepath,
                },
                ..j
            },
            EffectView::Processing,
        )
    } else {
        match destination(line) {
            Some(p) => if p.len() > 0 {
                (JobView { filepath: p, ..j }, EffectView::PathFound)
            } else {
                (j, EffectView::Ignored)
            },
            None => (j, EffectView::Ignored),
        }
    }
}

/// Whether a line gives an untitled job its title (from the file's name).
pub open spec fn retitles(j: JobView, line: Seq<char>) -> bool {
    line_step(j, line).1 is PathFound && j.title.len() == 0
}

/// A path whose reading is the same on every platform: it holds no
/// backslash (a separator on Windows only), no colon (which ends a Windows
/// drive prefix such as "C:"), and does not start with two slashes (which
/// Windows reads as the start of a "//server/share" or "//?/" prefix). Such
/// a path has no prefix anywhere, and '/' is its only separator.
pub open spec fn is_portable_path(p: Seq<char>) -> bool {
    &&& !p.contains('\\')
    &&& !p.contains(':')
    &&& !(p.len() >= 2 && p[0] == '/' && p[1] == '/')
}

/// The last component of a path split at '/', skipping the empty and "."
/// pieces that path normalization drops.
pub open spec fn last_component(parts: Seq<Seq<char>>) -> Option<Seq<char>>
    decreases parts.len(),
{
    if parts.len() == 0 {
        None
    } else if parts.last().len() == 0 || parts.last() == "."@ {
        last_component(parts.drop_last())
    } else {
        Some(parts.last())
    }
}

/// The file name of a portable path (`Path::file_name`): its last component,
/// none if there is none or it is "..".
pub open spec fn portable_file_name(p: Seq<char>) -> Option<Seq<char>> {
    match last_component(split_char(p, '/')) {
        Some(c) => if c == ".."@ {
            None
        } else {
            Some(c)
        },
        None => None,
    }
}

/// A file name without its extension: what precedes the last '.', unless
/// that dot is the first character.
pub open spec fn name_stem(n: Seq<char>) -> Seq<char> {
    match rfind_char(n, '.') {
        Some(i) => if i > 0 {
            n.take(i)
        } else {
            n
        },
        None => n,
    }
}

/// The stem of a portable path (`Path::file_stem`).
pub open spec fn portable_file_stem(p: Seq<char>) -> Option<Seq<char>> {
    match portable_file_name(p) {
        Some(n) => Some(name_stem(n)),
        None => None,
    }
}

/// What [`file_stem`] returns for `path`: a part of it, and for a portable
/// path exactly its stem (empty when it has no file name).
pub open spec fn stem_of(stem: Seq<char>, path: Seq<char>) -> bool {
    &&& contains(path, stem)
    &&& is_portable_path(path) ==> stem == match portable_file_stem(path) {
        Some(s) => s,
        None => Seq::<char>::empty(),
    }
}

/// `std::path::Path::file_stem`, then `OsStr::to_string_lossy` (lossless on
/// a path made from text). The stem is a slice of the path. Portable paths
/// (see [`is_portable_path`]) have no prefix and only '/' as separator on
/// every platform, so for them the stem is as the `Path` documentation gives
/// it; other paths are read by the platform's own rules, which this contract
/// leaves open.
#[verifier::external_body]
fn path_file_stem(path: &str) -> (r: Option<String>)
    ensures
        r matches Some(s) ==> contains(path@, s@),
        is_portable_path(path@) ==> opt_text(r) == portable_file_stem(path@),
{
    match std::path::Path::new(path).file_stem() {
        Some(s) => Some(s.to_string_lossy().to_string()),
        None => None,
    }
}

/// The file name of `path` without its extension; empty when it has none.
/// Paths that are not portable (see [`is_portable_path`]) are read by the
/// platform's own rules, so for them only that the result is a part of
/// `path` is stated.
pub fn file_stem(path: &str) -> (r: String)
    ensures
        stem_of(r@, path@),
{
    match path_file_stem(path) {
        Some(s) => s,
        None => {
            assert(path@.subrange(0, 0) =~= Seq::<char>::empty());
            assert(crate::text::occurs_at(path@, Seq::<char>::empty(), 0));
            String::new()
        },
    }
}

/// The text of a numeric field (see [`num_text`]).
fn field_at(parts: &Vec<Vec<char>>, k: usize) -> (r: Option<String>)
    ensures
        opt_text(r) == field_text(crate::text::views(parts@), k as int),
{
    if k >= parts.len() {
        return None;
    }
    let t = trim_chars(&parts[k]);
    let ts = string_of(&t);
    let s = ts.as_str();
    if t.len() == 0 || str_eq(s, "NA") || str_eq(s, "None") || str_eq(s, "N/A") {
        None
    } else {
        Some(ts)
    }
}

fn has(l: &Vec<char>, p: &str) -> (b: bool)
    ensures
        b == contains(l@, p@),
{
    contains_seq(l, &chars_of(p))
}

/// Update `job` from a single line of yt-dlp output and say what else the
/// line reports. Only a progress line moves the status to "downloading", and
/// never back from "processing". The job's file path follows the file that
/// will be left at the end: the download's destination, then the merged file
/// or the destination of an audio extraction or video conversion. An
/// untitled job takes the stem of the first destination as its title.
pub fn handle_line(job: &mut JobCore, line: &str) -> (eff: LineEffect)
    ensures
        ({
            let (j, e) = line_step(old(job)@, line@);
            &&& eff@ == e
            &&& final(job)@ == JobView { title: final(job)@.title, ..j }
            &&& if retitles(old(job)@, line@) {
                stem_of(final(job)@.title, j.filepath)
            } else {
                final(job)@.title == old(job)@.title
            }
        }),
{
    let l = chars_of(line);
    let prog = chars_of("[PROG]");
    proof {
        reveal_strlit("[PROG]");
    }
    if starts_with(&l, &prog) {
        let rest = slice(&l, 6, l.len());
        assert(rest@ =~= line@.skip(6));
        let parts = split_on(&rest, '|');
        let fields = ProgressFields {
            downloaded: field_at(&parts, 0),
            total: field_at(&parts, 1),
            estimate: field_at(&parts, 2),
            speed: field_at(&parts, 3),
            eta: field_at(&parts, 4),
        };
        if !str_eq(job.status.as_str(), "processing") {
            job.status = "downloading".to_string();
        }
        return LineEffect::Progress(fields);
    }
    if has(&l, "[Merger]") || has(&l, "[ExtractAudio]") || has(&l, "[VideoConvertor]") || has(
        &l,
        "[VideoRemuxer]",
    ) || has(&l, "[Metadata]") || has(&l, "[ThumbnailsConvertor]") || has(&l, "[EmbedThumbnail]")
        || has(&l, "[Fixup") {
        job.status = "processing".to_string();
        job.speed = String::new();
        job.eta = String::new();
        let mut found = false;
        let marker = chars_of("Merging formats into \"");
        if let Some(idx) = find_seq(&l, &marker) {
            proof {
                crate::text::lemma_find_from(l@, marker@, 0);
            }
            let rest = slice(&l, idx + marker.len(), l.len());
            assert(rest@ =~= line@.skip(idx + merge_marker().len()));
            if let Some(end) = rfind_char_in(&rest, '"') {
                proof {
                    lemma_rfind_char_in_range(rest@, '"');
                }
                let p = slice(&rest, 0, end);
                assert(p@ =~= rest@.take(end as int));
                job.filepath = string_of(&p);
                found = true;
            }
        }
        if !found && (has(&l, "[ExtractAudio]") || has(&l, "[VideoConvertor]") || has(
            &l,
            "[VideoRemuxer]",
        )) {
            if let Some(path) = destination_of(&l) {
                job.filepath = string_of(&path);
            }
        }
        return LineEffect::Processing;
    }
    if let Some(path) = destination_of(&l) {
        job.filepath = string_of(&path);
        if job.title.as_str().is_empty() {
            job.title = file_stem(job.filepath.as_str());
        }
        return LineEffect::PathFound;
    }
    LineEffect::Ignored
}

/// The non-empty path after "Destination:" in a line, if there is one.
fn destination_of(l: &Vec<char>) -> (r: Option<Vec<char>>)
    ensures
        match r {
            Some(p) => destination(l@) == Some(p@) && p@.len() > 0,
            None => destination(l@) matches Some(p) ==> p.len() == 0,
        },
{
    let dest = chars_of("Destination:");
    proof {
        reveal_strlit("Destination:");
    }
    if let Some(idx) = find_seq(l, &dest) {
        proof {
            crate::text::lemma_find_from(l@, dest@, 0);
        }
        assert(dest@.len() == 12);
        assert(idx + dest.len() <= l.len());
        let after = slice(l, idx + dest.len(), l.len());
        assert(after@ =~= l@.skip(idx + 12));
        let path = trim_chars(&after);
        if path.len() > 0 {
            return Some(path);
        }
    }
    None
}

/// How often, at most, a running job's progress is pushed to the UI.
pub const REFRESH_EVERY_MS: u128 = 180;

/// Whether to push a job to the UI after a line with effect `eff`, when
/// `since_refresh_ms` have passed since the last push.
pub fn refresh_due(eff: &LineEffect, since_refresh_ms: u128) -> (b: bool)
    ensures
        b == (!(eff@ is Ignored) && since_refresh_ms >= REFRESH_EVERY_MS),
{
    match eff {
        LineEffect::Ignored => false,
        _ => since_refresh_ms >= REFRESH_EVERY_MS,
    }
}

/// A progress line never takes a job out of post-processing, and always
/// leaves a job "downloading" otherwise.
pub proof fn progress_keeps_processing(j: JobView, line: Seq<char>)
    requires
        has_prefix(line, "[PROG]"@),
    ensures
        line_step(j, line).0.status == if j.status == "processing"@ {
            "processing"@
        } else {
            "downloading"@
        },
        line_step(j, line).0.filepath == j.filepath,
        line_step(j, line).1 is Progress,
{
}

/// Only progress lines, post-processing lines and destination lines change a
/// job; every other line leaves it as it was.
pub proof fn other_lines_change_nothing(j: JobView, line: Seq<char>)
    requires
        line_step(j, line).1 is Ignored,
    ensures
        line_step(j, line).0 == j,
        !retitles(j, line),
{
}

/// Post-processing shows no speed or time left, and a job that already has a
/// title keeps it whatever line comes.
pub proof fn post_processing_clears_rates(j: JobView, line: Seq<char>)
    requires
        !has_prefix(line, "[PROG]"@),
        is_post_process(line),
    ensures
        line_step(j, line).0.status == "processing"@,
        line_step(j, line).0.speed.len() == 0,
        line_step(j, line).0.eta.len() == 0,
        j.title.len() > 0 ==> !retitles(j, line),
{
}

/// Any line carrying one of yt-dlp's post-processor tags (and not a progress
/// line) puts the job into post-processing: status "processing", no speed or
/// time left, and a report that the UI shows it complete.
pub proof fn post_processor_tags_mean_processing(j: JobView, line: Seq<char>)
    requires
        !has_prefix(line, "[PROG]"@),
        contains(line, "[Merger]"@) || contains(line, "[ExtractAudio]"@) || contains(
            line,
            "[VideoConvertor]"@,
        ) || contains(line, "[VideoRemuxer]"@) || contains(line, "[Metadata]"@) || contains(
            line,
            "[ThumbnailsConvertor]"@,
        ) || contains(line, "[EmbedThumbnail]"@) || contains(line, "[Fixup"@),
    ensures
        line_step(j, line).0.status == "processing"@,
        line_step(j, line).0.speed.len() == 0,
        line_step(j, line).0.eta.len() == 0,
        line_step(j, line).1 is Processing,
{
}

/// A plain output line that names a destination ("Destination:" followed by a
/// non-blank path) records that path, trimmed, as the job's file and reports
/// it; a job that already has a title keeps it.
pub proof fn destination_lines_set_the_file(j: JobView, line: Seq<char>, i: int)
    requires
        !has_prefix(line, "[PROG]"@),
        !is_post_process(line),
        find(line, "Destination:"@) == Some(i),
        trim(line.skip(i + 12)).len() > 0,
    ensures
        line_step(j, line).0.filepath == trim(line.skip(i + 12)),
        line_step(j, line).0.status == j.status,
        line_step(j, line).1 is PathFound,
        j.title.len() > 0 ==> !retitles(j, line),
{
}

/// After merging, the job's file is the merged file: the text between
/// "Merging formats into \"" and the line's last double quote.
pub proof fn merged_file_becomes_the_file(j: JobView, line: Seq<char>, i: int, e: int)
    requires
        !has_prefix(line, "[PROG]"@),
        contains(line, "[Merger]"@),
        find(line, "Merging formats into \""@) == Some(i),
        rfind_char(line.skip(i + 22), '"') == Some(e),
    ensures
        line_step(j, line).0.filepath == line.skip(i + 22).take(e),
        line_step(j, line).0.status == "processing"@,
{
    reveal_strlit("Merging formats into \"");
}

/// After an audio extraction or a conversion, the job's file is the
/// converted file named on the line's "Destination:", when no merge is named.
pub proof fn converted_file_becomes_the_file(j: JobView, line: Seq<char>, i: int)
    requires
        !has_prefix(line, "[PROG]"@),
        contains(line, "[ExtractAudio]"@) || contains(line, "[VideoConvertor]"@) || contains(
            line,
            "[VideoRemuxer]"@,
        ),
        find(line, "Merging formats into \""@) is None,
        find(line, "Destination:"@) == Some(i),
        trim(line.skip(i + 12)).len() > 0,
    ensures
        line_step(j, line).0.filepath == trim(line.skip(i + 12)),
        line_step(j, line).0.status == "processing"@,
{
}

/// A progress field has no value when it is blank or one of yt-dlp's "no
/// value" markers ("NA", "None", "N/A"); otherwise its value is its trimmed
/// text.
pub proof fn missing_numbers(f: Seq<char>)
    ensures
        num_text(f) is None <==> (trim(f).len() == 0 || trim(f) == "NA"@ || trim(f) == "None"@
            || trim(f) == "N/A"@),
        num_text(f) matches Some(t) ==> t == trim(f) && t.len() > 0,
{
}

/// `rfind_char` only reports positions inside the text.
pub proof fn lemma_rfind_char_in_range(s: Seq<char>, c: char)
    ensures
        rfind_char(s, c) matches Some(i) ==> 0 <= i < s.len() && s[i] == c,
    decreases s.len(),
{
    if s.len() > 0 && s.last() != c {
        lemma_rfind_char_in_range(s.drop_last(), c);
    }
}


// ---------------------------------------------------------------------------
// Error messages
// ---------------------------------------------------------------------------

/// `s` without any number of leading copies of `p` (`str::trim_start_matches`).
pub open spec fn strip_all_prefix(s: Seq<char>, p: Seq<char>) -> Seq<char>
    decreases s.len(),
{
    if p.len() > 0 && has_prefix(s, p) {
        strip_all_prefix(s.skip(p.len() as int), p)
    } else {
        s
    }
}

/// The last of `ls` that contains `p`.
pub open spec fn last_containing(ls: Seq<Seq<char>>, p: Seq<char>) -> Option<int>
    decreases ls.len(),
{
    if ls.len() == 0 {
        None
    } else if contains(ls.last(), p) {
        Some(ls.len() - 1)
    } else {
        last_containing(ls.drop_last(), p)
    }
}

/// The last of `ls` that is not blank.
pub open spec fn last_nonblank(ls: Seq<Seq<char>>) -> Option<int>
    decreases ls.len(),
{
    if ls.len() == 0 {
        None
    } else if trim(ls.last()).len() > 0 {
        Some(ls.len() - 1)
    } else {
        last_nonblank(ls.drop_last())
    }
}

/// The message reported for a failed run, from the tail of yt-dlp's error
/// output: the last line mentioning "ERROR" without the "ERROR:" tag, else
/// the last non-blank line, else a generic message.
pub open spec fn error_message(tail: Seq<char>) -> Seq<char> {
    let ls = crate::text::lines(tail);
    match last_containing(ls, "ERROR"@) {
        Some(i) => trim(strip_all_prefix(trim(ls[i]), "ERROR:"@)),
        None => match last_nonblank(ls) {
            Some(i) => trim(ls[i]),
            None => "Download failed."@,
        },
    }
}

fn strip_all_prefix_chars(s: &Vec<char>, p: &Vec<char>) -> (r: Vec<char>)
    ensures
        r@ == strip_all_prefix(s@, p@),
{
    if p.len() == 0 {
        return slice(s, 0, s.len());
    }
    let mut a: usize = 0;
    assert(s@.skip(0) =~= s@);
    while p.len() <= s.len() - a && crate::text::matches_at(s, p, a)
        invariant
            p.len() > 0,
            a <= s.len(),
            strip_all_prefix(s@, p@) == strip_all_prefix(s@.skip(a as int), p@),
        decreases s.len() - a,
    {
        assert(s@.skip(a as int).take(p.len() as int) =~= s@.subrange(a as int, a + p.len()));
        assert(s@.skip(a as int).skip(p.len() as int) =~= s@.skip(a + p.len()));
        a += p.len();
    }
    proof {
        if p.len() <= s.len() - a {
            assert(s@.skip(a as int).take(p.len() as int) =~= s@.subrange(
                a as int,
                a + p.len(),
            ));
        }
    }
    let r = slice(s, a, s.len());
    assert(r@ =~= s@.skip(a as int));
    r
}

/// The error message to show for a failed download (see [`error_message`]).
pub fn last_error(tail: &str) -> (r: String)
    ensures
        r@ == error_message(tail@),
{
    let t = chars_of(tail);
    let ls = crate::text::lines_of(&t);
    let ghost lv = crate::text::views(ls@);
    let error = chars_of("ERROR");
    let mut n = ls.len();
    assert(lv.take(n as int) =~= lv);
    while n > 0
        invariant
            n <= ls.len(),
            lv == crate::text::views(ls@),
            lv == crate::text::lines(tail@),
            error@ == "ERROR"@,
            last_containing(lv, "ERROR"@) == last_containing(lv.take(n as int), "ERROR"@),
        decreases n,
    {
        assert(lv[n - 1] == ls@[n - 1]@);
        if contains_seq(&ls[n - 1], &error) {
            assert(lv.take(n as int).last() == lv[n - 1]);
            assert(last_containing(lv, "ERROR"@) == Some(n - 1));
            let tag = chars_of("ERROR:");
            let r = trim_chars(&strip_all_prefix_chars(&trim_chars(&ls[n - 1]), &tag));
            assert(r@ == trim(strip_all_prefix(trim(lv[n - 1]), "ERROR:"@)));
            return string_of(&r);
        }
        assert(lv.take(n as int).drop_last() =~= lv.take(n - 1));
        n -= 1;
    }
    assert(last_containing(lv, "ERROR"@) is None);
    let mut m = ls.len();
    assert(lv.take(m as int) =~= lv);
    while m > 0
        invariant
            m <= ls.len(),
            lv == crate::text::views(ls@),
            lv == crate::text::lines(tail@),
            last_nonblank(lv) == last_nonblank(lv.take(m as int)),
            last_containing(lv, "ERROR"@) is None,
        decreases m,
    {
        assert(lv[m - 1] == ls@[m - 1]@);
        let line = trim_chars(&ls[m - 1]);
        if line.len() > 0 {
            assert(lv.take(m as int).last() == lv[m - 1]);
            assert(last_nonblank(lv) == Some(m - 1));
            return string_of(&line);
        }
        assert(lv.take(m as int).drop_last() =~= lv.take(m - 1));
        m -= 1;
    }
    "Download failed.".to_string()
}


// ---------------------------------------------------------------------------
// A job's life
// ---------------------------------------------------------------------------

/// What a job looks like when it is first queued.
pub open spec fn queued_view(id: Seq<char>, url: Seq<char>, mode: Seq<char>, label: Seq<char>) -> JobView {
    JobView {
        id,
        url,
        mode,
        format: label,
        title: Seq::empty(),
        status: "queued"@,
        speed: Seq::empty(),
        eta: Seq::empty(),
        size: Seq::empty(),
        filepath: Seq::empty(),
        error: Seq::empty(),
    }
}

/// A freshly queued job.
pub fn queued_job(id: String, url: String, mode: String, label: String) -> (j: JobCore)
    ensures
        j@ == queued_view(id@, url@, mode@, label@),
{
    JobCore {
        id,
        url,
        mode,
        format: label,
        title: String::new(),
        status: "queued".to_string(),
        speed: String::new(),
        eta: String::new(),
        size: String::new(),
        filepath: String::new(),
        error: String::new(),
    }
}

/// The job was canceled before it got a download slot.
pub fn mark_canceled(job: &mut JobCore)
    ensures
        final(job)@ == (JobView { status: "canceled"@, ..old(job)@ }),
{
    job.status = "canceled".to_string();
}

/// The job got its slot and yt-dlp is being started.
pub fn mark_running(job: &mut JobCore)
    ensures
        final(job)@ == (JobView { status: "downloading"@, ..old(job)@ }),
{
    job.status = "downloading".to_string();
}

/// yt-dlp could not be started; `reason` says why.
pub fn mark_spawn_failed(job: &mut JobCore, reason: &str)
    ensures
        final(job)@ == (JobView {
            status: "error"@,
            error: "Could not start yt-dlp: "@ + reason@,
            ..old(job)@
        }),
{
    job.status = "error".to_string();
    job.error = join2("Could not start yt-dlp: ", reason);
}

/// What the caller does once a job has ended.
pub struct Finish {
    /// The job is complete: show it at 100%.
    pub complete: bool,
    /// Reveal this file in the file manager.
    pub reveal: Option<String>,
}

/// How a run that has ended changes the job (its title aside): canceled,
/// done, or failed with the message taken from yt-dlp's error output.
pub open spec fn finish_step(j: JobView, canceled: bool, exit_ok: bool, err_tail: Seq<char>) -> JobView {
    if canceled {
        JobView { status: "canceled"@, speed: Seq::empty(), eta: Seq::empty(), ..j }
    } else if exit_ok {
        JobView { status: "done"@, speed: Seq::empty(), eta: Seq::empty(), ..j }
    } else {
        JobView { status: "error"@, error: error_message(err_tail), ..j }
    }
}

/// Settle a job whose yt-dlp run has ended. A successful run gets a title
/// from its file if it had none, and its file is revealed when the user asked
/// for that and the path is known.
pub fn finish_job(
    job: &mut JobCore,
    canceled: bool,
    exit_ok: bool,
    err_tail: &str,
    open_when_done: bool,
) -> (f: Finish)
    ensures
        ({
            let j = finish_step(old(job)@, canceled, exit_ok, err_tail@);
            &&& final(job)@ == JobView { title: final(job)@.title, ..j }
            &&& if !canceled && exit_ok && old(job)@.title.len() == 0 {
                stem_of(final(job)@.title, old(job)@.filepath)
            } else {
                final(job)@.title == old(job)@.title
            }
            &&& f.complete == (!canceled && exit_ok)
            &&& opt_text(f.reveal) == if !canceled && exit_ok && open_when_done
                && old(job)@.filepath.len() > 0 {
                Some(old(job)@.filepath)
            } else {
                None
            }
        }),
{
    if canceled {
        job.status = "canceled".to_string();
        job.speed = String::new();
        job.eta = String::new();
        Finish { complete: false, reveal: None }
    } else if exit_ok {
        job.status = "done".to_string();
        job.speed = String::new();
        job.eta = String::new();
        if job.title.as_str().is_empty() {
            job.title = file_stem(job.filepath.as_str());
        }
        let reveal = if open_when_done && !job.filepath.as_str().is_empty() {
            Some(job.filepath.clone())
        } else {
            None
        };
        Finish { complete: true, reveal }
    } else {
        job.status = "error".to_string();
        job.error = last_error(err_tail);
        Finish { complete: false, reveal: None }
    }
}

/// Every ended job is canceled, done or failed; a done job shows no rates, and
/// only a done job can have its file revealed.
#[verifier::spinoff_prover]
pub proof fn finished_jobs_settle(j: JobView, canceled: bool, exit_ok: bool, err_tail: Seq<char>)
    ensures
        ({
            let f = finish_step(j, canceled, exit_ok, err_tail);
            &&& f.status == "canceled"@ || f.status == "done"@ || f.status == "error"@
            &&& f.status == "done"@ ==> f.speed.len() == 0 && f.eta.len() == 0
            &&& (canceled ==> f.status == "canceled"@)
            &&& f.filepath == j.filepath
        }),
{
    reveal_strlit("done");
    reveal_strlit("error");
    reveal_strlit("canceled");
}

/// The statuses a job can show.
pub open spec fn known_status(s: Seq<char>) -> bool {
    ||| s == "queued"@
    ||| s == "downloading"@
    ||| s == "processing"@
    ||| s == "canceled"@
    ||| s == "done"@
    ||| s == "error"@
}

/// A job only ever shows one of the known statuses: it starts queued, and
/// output lines and the end of the run keep it among them.
pub proof fn statuses_stay_known(
    j: JobView,
    line: Seq<char>,
    canceled: bool,
    exit_ok: bool,
    err_tail: Seq<char>,
    id: Seq<char>,
    url: Seq<char>,
    mode: Seq<char>,
    label: Seq<char>,
)
    ensures
        known_status(queued_view(id, url, mode, label).status),
        known_status(j.status) ==> known_status(line_step(j, line).0.status),
        known_status(finish_step(j, canceled, exit_ok, err_tail).status),
{
}

/// The statuses a job ends in.
pub open spec fn is_final_status(s: Seq<char>) -> bool {
    s == "done"@ || s == "error"@ || s == "canceled"@
}

/// Whether status `b` may directly follow status `a` in a job's life: a
/// queued job starts downloading or is canceled; a downloading job keeps
/// downloading, moves on to post-processing, or ends; a post-processing job
/// stays so or ends; nothing follows an end.
pub open spec fn may_follow(a: Seq<char>, b: Seq<char>) -> bool {
    if a == "queued"@ {
        b == "downloading"@ || b == "canceled"@
    } else if a == "downloading"@ {
        b == "downloading"@ || b == "processing"@ || is_final_status(b)
    } else if a == "processing"@ {
        b == "processing"@ || is_final_status(b)
    } else {
        false
    }
}

/// Every step of a job's life keeps the order queued, then downloading, then
/// post-processing, then exactly one final status: starting ([`mark_running`])
/// or canceling a queued job ([`mark_canceled`]), a failed start
/// ([`mark_spawn_failed`]), each output line ([`handle_line`]) and the end of
/// the run ([`finish_job`]); and no step leads on from a final status.
pub proof fn status_order(
    j: JobView,
    line: Seq<char>,
    canceled: bool,
    exit_ok: bool,
    err_tail: Seq<char>,
    b: Seq<char>,
)
    ensures
        may_follow("queued"@, "downloading"@),
        may_follow("queued"@, "canceled"@),
        may_follow("downloading"@, "error"@),
        j.status == "downloading"@ || j.status == "processing"@ ==> {
            &&& may_follow(j.status, line_step(j, line).0.status)
            &&& may_follow(j.status, finish_step(j, canceled, exit_ok, err_tail).status)
            &&& is_final_status(finish_step(j, canceled, exit_ok, err_tail).status)
        },
        is_final_status(j.status) ==> !may_follow(j.status, b),
{
    reveal_strlit("queued");
    reveal_strlit("downloading");
    reveal_strlit("processing");
    reveal_strlit("done");
    reveal_strlit("error");
    reveal_strlit("canceled");
    assert("queued"@.len() == 6 && "downloading"@.len() == 11 && "processing"@.len() == 10);
    assert("done"@.len() == 4 && "error"@.len() == 5 && "canceled"@.len() == 8);
    if j.status == "downloading"@ || j.status == "processing"@ {
        progress_or_other(j, line);
    }
}

/// An output line leaves a running job downloading or post-processing.
proof fn progress_or_other(j: JobView, line: Seq<char>)
    requires
        j.status == "downloading"@ || j.status == "processing"@,
    ensures
        line_step(j, line).0.status == j.status || line_step(j, line).0.status == "processing"@,
{
}

/// How much of yt-dlp's error output is kept, in bytes.
pub const ERR_KEEP: usize = 8000;

/// Keep one more line of yt-dlp's error output, unless enough is kept already.
pub fn keep_err_line(buf: &mut String, line: &str)
    ensures
        final(buf)@ == if (vstd::utf8::encode_utf8(old(buf)@).len() as usize) < ERR_KEEP {
            old(buf)@ + line@ + "\n"@
        } else {
            old(buf)@
        },
{
    if buf.as_str().len() < ERR_KEEP {
        buf.append(line);
        buf.append("\n");
    }
}

/// The time left as the UI shows it: "h:mm:ss" from one hour on, else "mm:ss".
pub open spec fn eta_view(total: nat) -> Seq<char> {
    let h = total / 3600;
    let m = (total % 3600) / 60;
    let s = total % 60;
    if h > 0 {
        crate::text::decimal(h) + ":"@ + crate::text::decimal2(m) + ":"@ + crate::text::decimal2(s)
    } else {
        crate::text::decimal2(m) + ":"@ + crate::text::decimal2(s)
    }
}

/// The time-left text for `total` whole seconds.
pub fn eta_text(total: u64) -> (r: String)
    ensures
        r@ == eta_view(total as nat),
{
    let h = total / 3600;
    let m = (total % 3600) / 60;
    let s = total % 60;
    let colon = chars_of(":");
    let tail = crate::text::concat(
        &crate::text::concat(&crate::text::decimal2_chars(m as u128), &colon),
        &crate::text::decimal2_chars(s as u128),
    );
    if h > 0 {
        let head = crate::text::concat(&crate::text::decimal_chars(h as u128), &colon);
        let r = crate::text::concat(&head, &tail);
        assert(r@ =~= eta_view(total as nat));
        string_of(&r)
    } else {
        assert(tail@ =~= eta_view(total as nat));
        string_of(&tail)
    }
}

} // verus!
