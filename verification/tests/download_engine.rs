use takit::download::{
    build_args, offered_heights, plan_job, probe_args, probe_summary, require_web_link, start_link, summarize_probe,
    DownloadRequest, IdGen, OUTPUT_TEMPLATE, PROGRESS_TEMPLATE,
};
use takit::job::{
    eta_text, file_stem, finish_job, handle_line, keep_err_line, last_error, mark_canceled,
    mark_running, mark_spawn_failed, queued_job, refresh_due, JobCore, LineEffect,
};
use takit::settings::Settings;

fn s(v: &str) -> String {
    v.to_string()
}

fn req(url: &str, mode: &str, quality: &str, audio: &str) -> DownloadRequest {
    DownloadRequest { url: s(url), mode: s(mode), quality: s(quality), audio_format: s(audio) }
}

fn base(ff: &str, dl: &str) -> Vec<String> {
    vec![
        s("--newline"),
        s("--no-playlist"),
        s("--ignore-config"),
        s("--no-mtime"),
        s("--progress-template"),
        s(PROGRESS_TEMPLATE),
        s("--ffmpeg-location"),
        s(ff),
        s("-P"),
        s(dl),
        s("-o"),
        s(OUTPUT_TEMPLATE),
        s("--windows-filenames"),
    ]
}

fn job() -> JobCore {
    queued_job(s("1-0"), s("https://x.test/v"), s("video"), s("Video • 1080p"))
}

#[test]
fn video_args_with_height_limit() {
    let st = Settings::default();
    let (args, label) = build_args(&req("https://a.b/c", "video", "720", ""), &st, "/ff", "/dl");
    let mut want = base("/ff", "/dl");
    want.push(s("--embed-metadata"));
    want.extend([
        s("-f"),
        s("bv*[height<=720]+ba/b[height<=720]/b[height<=720]/b"),
        s("--merge-output-format"),
        s("mp4"),
        s("https://a.b/c"),
    ]);
    assert_eq!(args, want);
    assert_eq!(label, "Video • 720p");
}

#[test]
fn video_best_and_blank_quality_falls_back() {
    let mut st = Settings::default();
    st.embed_metadata = false;
    st.video_quality = s("best");
    let (args, label) = build_args(&req("https://a.b/c", "video", "  ", ""), &st, "/ff", "/dl");
    let mut want = base("/ff", "/dl");
    want.extend([s("-f"), s("bv*+ba/b"), s("--merge-output-format"), s("mp4"), s("https://a.b/c")]);
    assert_eq!(args, want);
    assert_eq!(label, "Video • best");
}

#[test]
fn audio_args_embed_thumbnail_for_mp3() {
    let st = Settings::default();
    let (args, label) = build_args(&req("https://a.b/c", "audio", "", ""), &st, "/ff", "/dl");
    let mut want = base("/ff", "/dl");
    want.push(s("--embed-metadata"));
    want.extend([
        s("-f"),
        s("ba/b"),
        s("-x"),
        s("--audio-format"),
        s("mp3"),
        s("--audio-quality"),
        s("0"),
        s("--embed-thumbnail"),
        s("https://a.b/c"),
    ]);
    assert_eq!(args, want);
    assert_eq!(label, "Audio • MP3");
}

#[test]
fn audio_opus_gets_no_thumbnail() {
    let st = Settings::default();
    let (args, label) = build_args(&req("https://a.b/c", "audio", "", "opus"), &st, "/ff", "/dl");
    assert!(!args.contains(&s("--embed-thumbnail")));
    assert_eq!(args[args.len() - 4], "opus");
    assert_eq!(label, "Audio • OPUS");
    let (_, label2) = build_args(&req("https://a.b/c", "audio", "", "straße"), &st, "/ff", "/dl");
    assert_eq!(label2, "Audio • STRASSE");
}

#[test]
fn links_must_be_http() {
    assert!(require_web_link("https://x").is_ok());
    assert!(require_web_link("http://x").is_ok());
    assert_eq!(require_web_link(" https://x").unwrap_err(), "Please paste a valid http(s) link.");
    assert_eq!(require_web_link("ftp://x").unwrap_err(), "Please paste a valid http(s) link.");
    assert_eq!(start_link(&req("  https://x/y \n", "video", "", "")).unwrap(), "https://x/y");
    assert!(start_link(&req("x", "video", "", "")).is_err());
}

#[test]
fn plan_job_queues_with_trimmed_link() {
    let mut st = Settings::default();
    st.download_dir = s("/dl");
    let r = req(" https://x/y ", "audio", "", "flac");
    let url = start_link(&r).unwrap();
    let (args, job) = plan_job(&r, url, &st, "/ff", s("9-1"));
    assert_eq!(args.last().unwrap(), "https://x/y");
    assert_eq!(args[9], "/dl");
    assert_eq!(job.id, "9-1");
    assert_eq!(job.url, "https://x/y");
    assert_eq!(job.mode, "audio");
    assert_eq!(job.format, "Audio • FLAC");
    assert_eq!(job.status, "queued");
    assert_eq!(job.title, "");
}

#[test]
fn job_ids_count_up() {
    let mut g = IdGen::new();
    let a = g.gen_id(1700000000123);
    let b = g.gen_id(1700000000123);
    assert_eq!(a, "1700000000123-0");
    assert_eq!(b, "1700000000123-1");
    assert_ne!(a, b);
    let mut w = IdGen { next: u64::MAX };
    assert_eq!(w.gen_id(5), format!("5-{}", u64::MAX));
    assert_eq!(w.next, 0);
}

#[test]
fn heights_are_unique_descending_positive() {
    assert_eq!(offered_heights(&vec![720, 0, 1080, 360, 720, 2160, 0]), vec![2160, 1080, 720, 360]);
    assert!(offered_heights(&vec![0, 0]).is_empty());
    assert!(offered_heights(&vec![]).is_empty());
}

#[test]
fn probe_summary_falls_back_to_channel() {
    let p = summarize_probe(Some(s("T")), None, None, Some(s("chan")), &vec![480, 480]);
    assert_eq!(p.title, "T");
    assert_eq!(p.thumbnail, "");
    assert_eq!(p.uploader, "chan");
    assert_eq!(p.heights, vec![480]);
    let q = summarize_probe(None, Some(s("th")), Some(s("up")), Some(s("chan")), &vec![]);
    assert_eq!(q.uploader, "up");
    assert_eq!(q.title, "");
}

#[test]
fn progress_line_reports_fields() {
    let mut j = job();
    let eff = handle_line(&mut j, "[PROG]1024| NA |2048.5|512.0|None");
    match eff {
        LineEffect::Progress(f) => {
            assert_eq!(f.downloaded.as_deref(), Some("1024"));
            assert_eq!(f.total, None);
            assert_eq!(f.estimate.as_deref(), Some("2048.5"));
            assert_eq!(f.speed.as_deref(), Some("512.0"));
            assert_eq!(f.eta, None);
        },
        _ => panic!("expected progress"),
    }
    assert_eq!(j.status, "downloading");
    let eff2 = handle_line(&mut j, "[PROG]5");
    match eff2 {
        LineEffect::Progress(f) => {
            assert_eq!(f.downloaded.as_deref(), Some("5"));
            assert!(f.total.is_none() && f.estimate.is_none() && f.speed.is_none() && f.eta.is_none());
        },
        _ => panic!("expected progress"),
    }
}

#[test]
fn processing_is_not_undone_by_progress() {
    let mut j = job();
    j.speed = s("1 MB/s");
    j.eta = s("00:10");
    let eff = handle_line(&mut j, "[Merger] Merging formats into \"/dl/My \"Film\" [x].mp4\"");
    assert!(matches!(eff, LineEffect::Processing));
    assert_eq!(j.status, "processing");
    assert_eq!(j.filepath, "/dl/My \"Film\" [x].mp4");
    assert_eq!(j.speed, "");
    assert_eq!(j.eta, "");
    handle_line(&mut j, "[PROG]1|2|3|4|5");
    assert_eq!(j.status, "processing");
    let eff = handle_line(&mut j, "[FixupM3u8] Fixing container");
    assert!(matches!(eff, LineEffect::Processing));
}

#[test]
fn destination_sets_path_and_title() {
    let mut j = job();
    let eff = handle_line(&mut j, "[download] Destination: /dl/My Video [abc].f137.mp4  ");
    assert!(matches!(eff, LineEffect::PathFound));
    assert_eq!(j.filepath, "/dl/My Video [abc].f137.mp4");
    assert_eq!(j.title, "My Video [abc].f137");
    handle_line(&mut j, "[download] Destination: /dl/other.m4a");
    assert_eq!(j.filepath, "/dl/other.m4a");
    assert_eq!(j.title, "My Video [abc].f137");
    let eff = handle_line(&mut j, "[download] Destination:   ");
    assert!(matches!(eff, LineEffect::Ignored));
    let eff = handle_line(&mut j, "[youtube] abc: Downloading webpage");
    assert!(matches!(eff, LineEffect::Ignored));
    assert_eq!(j.filepath, "/dl/other.m4a");
}

#[test]
fn stems_of_paths() {
    assert_eq!(file_stem("/a/b/clip.mp4"), "clip");
    assert_eq!(file_stem("/a/b/.hidden"), ".hidden");
    assert_eq!(file_stem(""), "");
    for p in [
        "/a/b/clip.mp4",
        "a/b/.hidden",
        ".a.b",
        "foo.",
        "a/b/",
        "a/./b.c/.",
        "a/..",
        "/",
        ".",
        "./x.y",
        "",
        "x/y/archive.tar.gz",
        "...",
        "//dl//My Video [abc].f137.mp4",
    ] {
        let want = std::path::Path::new(p)
            .file_stem()
            .map(|s| s.to_string_lossy().to_string())
            .unwrap_or_default();
        assert_eq!(file_stem(p), want, "{p}");
    }
}

#[test]
fn extracted_audio_is_the_revealed_file() {
    let mut j = job();
    handle_line(&mut j, "[download] Destination: /dl/Song [id].webm");
    assert_eq!(j.title, "Song [id]");
    let eff = handle_line(&mut j, "[ExtractAudio] Destination: /dl/Song [id].mp3");
    assert!(matches!(eff, LineEffect::Processing));
    assert_eq!(j.filepath, "/dl/Song [id].mp3");
    handle_line(&mut j, "[EmbedThumbnail] ffmpeg: Adding thumbnail to \"/dl/Song [id].mp3\"");
    handle_line(&mut j, "[ThumbnailsConvertor] Converting thumbnail; Destination: /dl/Song [id].jpg");
    assert_eq!(j.filepath, "/dl/Song [id].mp3");
    let f = finish_job(&mut j, false, true, "", true);
    assert_eq!(f.reveal.as_deref(), Some("/dl/Song [id].mp3"));
    assert_eq!(j.title, "Song [id]");
}

#[test]
fn probe_output_is_summarized() {
    let out = br#"{"title":"Clip","thumbnail":"https://i/t.jpg","channel":"Chan","duration":12.5,
        "formats":[{"height":720},{"height":null},{"height":"x"},{"height":1080},{"height":0},{},{"height":720}]}"#;
    let p = probe_summary(&out.to_vec()).unwrap();
    assert_eq!(p.title, "Clip");
    assert_eq!(p.thumbnail, "https://i/t.jpg");
    assert_eq!(p.uploader, "Chan");
    assert_eq!(p.heights, vec![1080, 720]);
    let q = probe_summary(&br#"{"uploader":"U","channel":"C"}"#.to_vec()).unwrap();
    assert_eq!(q.uploader, "U");
    assert_eq!(q.title, "");
    assert!(q.heights.is_empty());
    assert!(probe_summary(&b"not json".to_vec()).is_err());
}

#[test]
fn errors_prefer_error_lines() {
    assert_eq!(last_error("WARNING: x\nERROR: [youtube] abc: Video unavailable\nmore\n"), "[youtube] abc: Video unavailable");
    assert_eq!(last_error("  ERROR:ERROR: twice "), "twice");
    assert_eq!(last_error("first\nlast line  \n\n   \n"), "last line");
    assert_eq!(last_error(""), "Download failed.");
    assert_eq!(last_error("\n \n"), "Download failed.");
    assert_eq!(last_error("ERROR: a\nERROR: b"), "b");
}

#[test]
fn finishing_jobs() {
    let mut j = job();
    j.speed = s("x");
    j.eta = s("y");
    let f = finish_job(&mut j, true, true, "", true);
    assert_eq!(j.status, "canceled");
    assert_eq!((j.speed.as_str(), j.eta.as_str()), ("", ""));
    assert!(!f.complete && f.reveal.is_none());

    let mut d = job();
    d.filepath = s("/dl/song.mp3");
    let f = finish_job(&mut d, false, true, "", true);
    assert_eq!(d.status, "done");
    assert_eq!(d.title, "song");
    assert!(f.complete);
    assert_eq!(f.reveal.as_deref(), Some("/dl/song.mp3"));

    let mut n = job();
    let f = finish_job(&mut n, false, true, "", true);
    assert!(f.complete && f.reveal.is_none());

    let mut e = job();
    let f = finish_job(&mut e, false, false, "ERROR: boom\n", false);
    assert_eq!(e.status, "error");
    assert_eq!(e.error, "boom");
    assert!(!f.complete);
}

#[test]
fn job_marks() {
    let mut j = job();
    mark_running(&mut j);
    assert_eq!(j.status, "downloading");
    mark_canceled(&mut j);
    assert_eq!(j.status, "canceled");
    mark_spawn_failed(&mut j, "No such file");
    assert_eq!(j.status, "error");
    assert_eq!(j.error, "Could not start yt-dlp: No such file");
}

#[test]
fn eta_texts() {
    assert_eq!(eta_text(0), "00:00");
    assert_eq!(eta_text(59), "00:59");
    assert_eq!(eta_text(61), "01:01");
    assert_eq!(eta_text(3599), "59:59");
    assert_eq!(eta_text(3600), "1:00:00");
    assert_eq!(eta_text(3725), "1:02:05");
    assert_eq!(eta_text(360000), "100:00:00");
}

#[test]
fn error_output_is_capped() {
    let mut buf = String::new();
    keep_err_line(&mut buf, "a");
    keep_err_line(&mut buf, "b");
    assert_eq!(buf, "a\nb\n");
    let mut big = "x".repeat(8000);
    keep_err_line(&mut big, "more");
    assert_eq!(big.len(), 8000);
    let mut near = "x".repeat(7999);
    keep_err_line(&mut near, "more");
    assert_eq!(near.len(), 8004);
}

#[test]
fn refresh_throttle() {
    assert!(!refresh_due(&LineEffect::Ignored, 1000));
    assert!(!refresh_due(&LineEffect::PathFound, 179));
    assert!(refresh_due(&LineEffect::PathFound, 180));
    assert!(refresh_due(&LineEffect::Processing, 500));
}

#[test]
fn probe_arguments() {
    assert_eq!(
        probe_args("https://x/y"),
        vec!["--ignore-config", "--no-playlist", "--no-warnings", "--dump-single-json", "https://x/y"]
    );
}

#[test]
fn job_statuses_follow_their_order() {
    let mut j = job();
    let mut seen = vec![j.status.clone()];
    mark_running(&mut j);
    seen.push(j.status.clone());
    for line in ["[PROG]1|10|NA|1|1", "[download] Destination: /dl/a.webm", "[ExtractAudio] Destination: /dl/a.mp3", "[PROG]10|10|NA|1|0"] {
        handle_line(&mut j, line);
        seen.push(j.status.clone());
    }
    finish_job(&mut j, false, true, "", false);
    seen.push(j.status.clone());
    assert_eq!(seen, vec!["queued", "downloading", "downloading", "downloading", "processing", "processing", "done"]);

    let mut q = job();
    mark_canceled(&mut q);
    assert_eq!(q.status, "canceled");
}
