//! The platform a build runs on, and the download sources chosen for it.

use vstd::prelude::*;

use crate::text::join2;

verus! {

/// Operating system families that pick different tool builds.
#[derive(Clone, Copy, PartialEq, Eq, Structural, Debug)]
pub enum Os {
    Windows,
    MacOs,
    /// Linux and every other system.
    Other,
}

/// Processor architectures that pick different tool builds.
#[derive(Clone, Copy, PartialEq, Eq, Structural, Debug)]
pub enum Arch {
    Aarch64,
    Other,
}

/// The platform the application was built for.
#[derive(Clone, Copy, PartialEq, Eq, Structural, Debug)]
pub struct Target {
    pub os: Os,
    pub arch: Arch,
}

/// How a downloaded ffmpeg archive is packed.
#[derive(Clone, Copy, PartialEq, Eq, Structural, Debug)]
pub enum ArchiveKind {
    Zip,
    TarXz,
}

/// Where to fetch (part of) ffmpeg from.
pub struct FfSource {
    pub url: String,
    pub kind: ArchiveKind,
}

/// The executable's file name for a tool called `base`.
pub open spec fn exe_file(base: Seq<char>, t: Target) -> Seq<char> {
    if t.os == Os::Windows {
        base + ".exe"@
    } else {
        base
    }
}

/// Platform-correct executable filename (adds `.exe` on Windows).
pub fn exe_name(base: &str, target: Target) -> (r: String)
    ensures
        r@ == exe_file(base@, target),
{
    if target.os == Os::Windows {
        join2(base, ".exe")
    } else {
        base.to_string()
    }
}

/// Executables are named after their tool; on Windows, and only there, with
/// ".exe" added.
pub proof fn exe_names(base: Seq<char>, t: Target)
    ensures
        t.os == Os::Windows ==> exe_file(base, t).len() == base.len() + 4 && exe_file(base, t).take(
            base.len() as int,
        ) == base && exe_file(base, t).skip(base.len() as int) == ".exe"@,
        t.os != Os::Windows ==> exe_file(base, t) == base,
{
    if t.os == Os::Windows {
        reveal_strlit(".exe");
        assert(exe_file(base, t).take(base.len() as int) =~= base);
        assert(exe_file(base, t).skip(base.len() as int) =~= ".exe"@);
    }
}

/// yt-dlp is always fetched from its latest GitHub release, and the Windows
/// builds are ".exe" files.
pub proof fn ytdlp_from_latest_release(t: Target)
    ensures
        crate::text::has_prefix(
            ytdlp_source(t),
            "https://github.com/yt-dlp/yt-dlp/releases/latest/download/yt-dlp"@,
        ),
        t.os == Os::Windows <==> crate::text::has_suffix(ytdlp_source(t), ".exe"@),
{
    reveal_strlit("https://github.com/yt-dlp/yt-dlp/releases/latest/download/yt-dlp");
    reveal_strlit(".exe");
    reveal_strlit("https://github.com/yt-dlp/yt-dlp/releases/latest/download/yt-dlp_arm64.exe");
    reveal_strlit("https://github.com/yt-dlp/yt-dlp/releases/latest/download/yt-dlp.exe");
    reveal_strlit("https://github.com/yt-dlp/yt-dlp/releases/latest/download/yt-dlp_macos");
    reveal_strlit("https://github.com/yt-dlp/yt-dlp/releases/latest/download/yt-dlp_linux_aarch64");
    reveal_strlit("https://github.com/yt-dlp/yt-dlp/releases/latest/download/yt-dlp_linux");
    let u = ytdlp_source(t);
    assert(u.take(64) =~= "https://github.com/yt-dlp/yt-dlp/releases/latest/download/yt-dlp"@);
    lemma_suffix_last(u, ".exe"@);
    if t.os == Os::Windows {
        assert(u.skip(u.len() - 4) =~= ".exe"@);
    }
}

/// The yt-dlp release asset for a platform.
pub open spec fn ytdlp_source(t: Target) -> Seq<char> {
    if t.os == Os::Windows {
        if t.arch == Arch::Aarch64 {
            "https://github.com/yt-dlp/yt-dlp/releases/latest/download/yt-dlp_arm64.exe"@
        } else {
            "https://github.com/yt-dlp/yt-dlp/releases/latest/download/yt-dlp.exe"@
        }
    } else if t.os == Os::MacOs {
        "https://github.com/yt-dlp/yt-dlp/releases/latest/download/yt-dlp_macos"@
    } else if t.arch == Arch::Aarch64 {
        "https://github.com/yt-dlp/yt-dlp/releases/latest/download/yt-dlp_linux_aarch64"@
    } else {
        "https://github.com/yt-dlp/yt-dlp/releases/latest/download/yt-dlp_linux"@
    }
}

/// Where to download yt-dlp from.
pub fn ytdlp_url(target: Target) -> (r: String)
    ensures
        r@ == ytdlp_source(target),
{
    if target.os == Os::Windows {
        if target.arch == Arch::Aarch64 {
            "https://github.com/yt-dlp/yt-dlp/releases/latest/download/yt-dlp_arm64.exe".to_string()
        } else {
            "https://github.com/yt-dlp/yt-dlp/releases/latest/download/yt-dlp.exe".to_string()
        }
    } else if target.os == Os::MacOs {
        "https://github.com/yt-dlp/yt-dlp/releases/latest/download/yt-dlp_macos".to_string()
    } else if target.arch == Arch::Aarch64 {
        "https://github.com/yt-dlp/yt-dlp/releases/latest/download/yt-dlp_linux_aarch64".to_string()
    } else {
        "https://github.com/yt-dlp/yt-dlp/releases/latest/download/yt-dlp_linux".to_string()
    }
}

/// The ffmpeg archives for a platform, as (address, packing) pairs.
pub open spec fn ffmpeg_plan(t: Target) -> Seq<(Seq<char>, ArchiveKind)> {
    if t.os == Os::Windows {
        seq![("https://www.gyan.dev/ffmpeg/builds/ffmpeg-release-essentials.zip"@, ArchiveKind::Zip)]
    } else if t.os == Os::MacOs {
        seq![
            ("https://evermeet.cx/ffmpeg/getrelease/ffmpeg/zip"@, ArchiveKind::Zip),
            ("https://evermeet.cx/ffmpeg/getrelease/ffprobe/zip"@, ArchiveKind::Zip),
        ]
    } else if t.arch == Arch::Aarch64 {
        seq![
            (
                "https://johnvansickle.com/ffmpeg/releases/ffmpeg-release-arm64-static.tar.xz"@,
                ArchiveKind::TarXz,
            ),
        ]
    } else {
        seq![
            (
                "https://johnvansickle.com/ffmpeg/releases/ffmpeg-release-amd64-static.tar.xz"@,
                ArchiveKind::TarXz,
            ),
        ]
    }
}

/// Each ffmpeg source is unpacked by what its address names: addresses
/// ending in "/zip" or ".zip" are zip archives, those ending in ".tar.xz" are
/// tar.xz archives. macOS gets two zip archives (ffmpeg and ffprobe), Windows
/// one zip archive, other systems one tar.xz archive.
pub proof fn ffmpeg_sources_match_their_packing(t: Target)
    ensures
        forall|i: int|
            0 <= i < ffmpeg_plan(t).len() ==> {
                &&& (crate::text::has_suffix(ffmpeg_plan(t)[i].0, "/zip"@)
                    || crate::text::has_suffix(ffmpeg_plan(t)[i].0, ".zip"@)) ==> ffmpeg_plan(
                    t,
                )[i].1 == ArchiveKind::Zip
                &&& crate::text::has_suffix(ffmpeg_plan(t)[i].0, ".tar.xz"@) ==> ffmpeg_plan(
                    t,
                )[i].1 == ArchiveKind::TarXz
            },
        t.os == Os::MacOs ==> ffmpeg_plan(t).len() == 2 && ffmpeg_plan(t)[0].1 == ArchiveKind::Zip
            && ffmpeg_plan(t)[1].1 == ArchiveKind::Zip,
        t.os == Os::Windows ==> ffmpeg_plan(t).len() == 1 && ffmpeg_plan(t)[0].1
            == ArchiveKind::Zip,
        t.os == Os::Other ==> ffmpeg_plan(t).len() == 1 && ffmpeg_plan(t)[0].1
            == ArchiveKind::TarXz,
{
    reveal_strlit("/zip");
    reveal_strlit(".zip");
    reveal_strlit(".tar.xz");
    reveal_strlit("https://www.gyan.dev/ffmpeg/builds/ffmpeg-release-essentials.zip");
    reveal_strlit("https://evermeet.cx/ffmpeg/getrelease/ffmpeg/zip");
    reveal_strlit("https://evermeet.cx/ffmpeg/getrelease/ffprobe/zip");
    reveal_strlit("https://johnvansickle.com/ffmpeg/releases/ffmpeg-release-arm64-static.tar.xz");
    reveal_strlit("https://johnvansickle.com/ffmpeg/releases/ffmpeg-release-amd64-static.tar.xz");
    let plan = ffmpeg_plan(t);
    assert forall|i: int| 0 <= i < plan.len() implies {
        &&& (crate::text::has_suffix(plan[i].0, "/zip"@) || crate::text::has_suffix(
            plan[i].0,
            ".zip"@,
        )) ==> plan[i].1 == ArchiveKind::Zip
        &&& crate::text::has_suffix(plan[i].0, ".tar.xz"@) ==> plan[i].1 == ArchiveKind::TarXz
    } by {
        let u = plan[i].0;
        lemma_suffix_last(u, "/zip"@);
        lemma_suffix_last(u, ".zip"@);
        lemma_suffix_last(u, ".tar.xz"@);
        assert(u.len() > 0);
        if plan[i].1 == ArchiveKind::Zip {
            assert(u[u.len() - 1] == 'p');
        } else {
            assert(u[u.len() - 1] == 'z');
        }
    }
}

/// A text with suffix `p` ends with `p`'s last character.
proof fn lemma_suffix_last(s: Seq<char>, p: Seq<char>)
    ensures
        crate::text::has_suffix(s, p) && p.len() > 0 ==> s[s.len() - 1] == p[p.len() - 1],
{
    if crate::text::has_suffix(s, p) && p.len() > 0 {
        assert(s.skip(s.len() - p.len())[p.len() - 1] == s[s.len() - 1]);
    }
}

/// The (address, packing) pairs of a list of sources.
pub open spec fn source_views(v: Seq<FfSource>) -> Seq<(Seq<char>, ArchiveKind)> {
    v.map_values(|s: FfSource| (s.url@, s.kind))
}

fn source(url: &str, kind: ArchiveKind) -> (s: FfSource)
    ensures
        s.url@ == url@,
        s.kind == kind,
{
    FfSource { url: url.to_string(), kind }
}

/// Where to download ffmpeg (and, on macOS, ffprobe) from.
pub fn ffmpeg_sources(target: Target) -> (r: Vec<FfSource>)
    ensures
        source_views(r@) == ffmpeg_plan(target),
{
    let mut v: Vec<FfSource> = Vec::new();
    if target.os == Os::Windows {
        v.push(
            source("https://www.gyan.dev/ffmpeg/builds/ffmpeg-release-essentials.zip", ArchiveKind::Zip),
        );
    } else if target.os == Os::MacOs {
        v.push(source("https://evermeet.cx/ffmpeg/getrelease/ffmpeg/zip", ArchiveKind::Zip));
        v.push(source("https://evermeet.cx/ffmpeg/getrelease/ffprobe/zip", ArchiveKind::Zip));
    } else if target.arch == Arch::Aarch64 {
        v.push(
            source(
                "https://johnvansickle.com/ffmpeg/releases/ffmpeg-release-arm64-static.tar.xz",
                ArchiveKind::TarXz,
            ),
        );
    } else {
        v.push(
            source(
                "https://johnvansickle.com/ffmpeg/releases/ffmpeg-release-amd64-static.tar.xz",
                ArchiveKind::TarXz,
            ),
        );
    }
    assert(source_views(v@) =~= ffmpeg_plan(target));
    v
}

} // verus!
