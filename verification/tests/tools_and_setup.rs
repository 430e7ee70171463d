use takit::platform::{exe_name, ffmpeg_sources, ytdlp_url, ArchiveKind, Arch, Os, Target};
use takit::setup::{setup_event, Transfer};
use takit::tools::{
    captured_output, choose_tool, custom_path, install_plan, search_names, status, wanted_binary,
    ToolSource,
};

const WIN: Target = Target { os: Os::Windows, arch: Arch::Other };
const WIN_ARM: Target = Target { os: Os::Windows, arch: Arch::Aarch64 };
const MAC: Target = Target { os: Os::MacOs, arch: Arch::Aarch64 };
const LINUX: Target = Target { os: Os::Other, arch: Arch::Other };
const LINUX_ARM: Target = Target { os: Os::Other, arch: Arch::Aarch64 };

#[test]
fn exe_names_per_platform() {
    assert_eq!(exe_name("yt-dlp", WIN), "yt-dlp.exe");
    assert_eq!(exe_name("ffmpeg", LINUX), "ffmpeg");
    assert_eq!(exe_name("ffmpeg", MAC), "ffmpeg");
}

#[test]
fn ytdlp_sources_per_platform() {
    let p = "https://github.com/yt-dlp/yt-dlp/releases/latest/download/";
    assert_eq!(ytdlp_url(WIN), format!("{p}yt-dlp.exe"));
    assert_eq!(ytdlp_url(WIN_ARM), format!("{p}yt-dlp_arm64.exe"));
    assert_eq!(ytdlp_url(MAC), format!("{p}yt-dlp_macos"));
    assert_eq!(ytdlp_url(LINUX), format!("{p}yt-dlp_linux"));
    assert_eq!(ytdlp_url(LINUX_ARM), format!("{p}yt-dlp_linux_aarch64"));
}

#[test]
fn ffmpeg_sources_per_platform() {
    let w = ffmpeg_sources(WIN);
    assert_eq!(w.len(), 1);
    assert_eq!(w[0].url, "https://www.gyan.dev/ffmpeg/builds/ffmpeg-release-essentials.zip");
    assert_eq!(w[0].kind, ArchiveKind::Zip);
    let m = ffmpeg_sources(MAC);
    assert_eq!(m.len(), 2);
    assert_eq!(m[1].url, "https://evermeet.cx/ffmpeg/getrelease/ffprobe/zip");
    let l = ffmpeg_sources(LINUX);
    assert_eq!(l[0].kind, ArchiveKind::TarXz);
    assert!(l[0].url.ends_with("ffmpeg-release-amd64-static.tar.xz"));
    assert!(ffmpeg_sources(LINUX_ARM)[0].url.ends_with("ffmpeg-release-arm64-static.tar.xz"));
}

#[test]
fn wanted_binaries() {
    assert_eq!(wanted_binary("ffmpeg-7.0-amd64-static/ffmpeg").as_deref(), Some("ffmpeg"));
    assert_eq!(wanted_binary("ffmpeg-7.0-essentials_build\\bin\\FFPROBE.EXE").as_deref(), Some("FFPROBE.EXE"));
    assert_eq!(wanted_binary("ffprobe").as_deref(), Some("ffprobe"));
    assert_eq!(wanted_binary("a/b/ffmpeg.exe").as_deref(), Some("ffmpeg.exe"));
    assert_eq!(wanted_binary("ffmpeg/"), None);
    assert_eq!(wanted_binary("bin/ffplay.exe"), None);
    assert_eq!(wanted_binary("ffmpeg.txt"), None);
    assert_eq!(wanted_binary(""), None);
}

#[test]
fn resolution_order() {
    assert_eq!(choose_tool(Some(1), Some(2), Some(3)), Some((1, ToolSource::Custom)));
    assert_eq!(choose_tool(None, Some(2), Some(3)), Some((2, ToolSource::Managed)));
    assert_eq!(choose_tool(None, None, Some(3)), Some((3, ToolSource::System)));
    assert_eq!(choose_tool::<u8>(None, None, None), None);
    assert_eq!(custom_path("  /opt/yt-dlp \n").as_deref(), Some("/opt/yt-dlp"));
    assert_eq!(custom_path(" \t"), None);
    assert_eq!(ToolSource::Managed.label(), "managed");
}

#[test]
fn search_names_per_platform() {
    assert_eq!(search_names("yt-dlp", WIN), vec!["yt-dlp".to_string(), "yt-dlp.exe".to_string()]);
    assert_eq!(search_names("yt-dlp", LINUX), vec!["yt-dlp".to_string()]);
}

#[test]
fn status_reports() {
    let s = status(Some((ToolSource::Managed, Some("2024.08.06".to_string()))), Some((ToolSource::System, true)));
    assert!(s.ytdlp_ready && s.ffmpeg_ready);
    assert_eq!(s.ytdlp_version, "2024.08.06");
    assert_eq!(s.ytdlp_source, "managed");
    assert_eq!(s.ffmpeg_source, "system");

    let t = status(Some((ToolSource::Custom, None)), Some((ToolSource::Custom, false)));
    assert!(!t.ytdlp_ready && !t.ffmpeg_ready);
    assert_eq!(t.ytdlp_source, "custom");
    assert_eq!(t.ffmpeg_source, "none");

    let u = status(None, None);
    assert_eq!((u.ytdlp_source.as_str(), u.ffmpeg_source.as_str(), u.ytdlp_version.as_str()), ("none", "none", ""));
}

#[test]
fn captured_output_trims() {
    assert_eq!(captured_output(true, " 2024.01.01\n").as_deref(), Some("2024.01.01"));
    assert_eq!(captured_output(false, "x"), None);
}

#[test]
fn install_plans() {
    let p = install_plan(false, true, true, LINUX);
    assert!(p.ytdlp.is_none() && p.ffmpeg.is_empty());
    let q = install_plan(false, false, true, MAC);
    assert_eq!(q.ytdlp.as_deref(), Some("https://github.com/yt-dlp/yt-dlp/releases/latest/download/yt-dlp_macos"));
    assert!(q.ffmpeg.is_empty());
    let r = install_plan(true, true, true, MAC);
    assert!(r.ytdlp.is_some());
    assert_eq!(r.ffmpeg.len(), 2);
}

#[test]
fn transfer_counts() {
    let mut t = Transfer::new(Some(1000));
    assert_eq!(t.add_chunk(100, 10), None);
    assert_eq!(t.add_chunk(200, 150), Some((300, 1000)));
    assert_eq!(t.finished(), (300, 1000));
    let mut u = Transfer::new(None);
    u.add_chunk(50, 0);
    assert_eq!(u.finished(), (50, 50));
    let e = setup_event("yt-dlp", "download", "Downloading…", 1, 2);
    assert_eq!((e.component.as_str(), e.phase.as_str(), e.message.as_str(), e.downloaded, e.total), ("yt-dlp", "download", "Downloading…", 1, 2));
}
