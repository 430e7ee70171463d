use std::io::Write;

use takit::archive::{extract_archive, extract_tar_xz, extract_zip};
use takit::platform::ArchiveKind;

fn zip_of(entries: &[(&str, Option<&[u8]>)]) -> Vec<u8> {
    let mut w = zip::ZipWriter::new(std::io::Cursor::new(Vec::new()));
    let opts = zip::write::SimpleFileOptions::default();
    for (name, data) in entries {
        match data {
            Some(d) => {
                w.start_file(*name, opts).unwrap();
                w.write_all(d).unwrap();
            },
            None => {
                w.add_directory(*name, opts).unwrap();
            },
        }
    }
    w.finish().unwrap().into_inner()
}

fn tar_xz_of(entries: &[(&str, &[u8])]) -> Vec<u8> {
    let mut b = tar::Builder::new(Vec::new());
    for (name, data) in entries {
        let mut h = tar::Header::new_gnu();
        h.set_size(data.len() as u64);
        h.set_mode(0o755);
        h.set_cksum();
        b.append_data(&mut h, name, *data).unwrap();
    }
    let raw = b.into_inner().unwrap();
    let mut out = Vec::new();
    lzma_rs::xz_compress(&mut std::io::Cursor::new(raw), &mut out).unwrap();
    out
}

#[test]
fn zip_keeps_only_ffmpeg_binaries() {
    let bytes = zip_of(&[
        ("ffmpeg-7.0-essentials_build/", None),
        ("ffmpeg-7.0-essentials_build/bin/ffmpeg.exe", Some(b"FF")),
        ("ffmpeg-7.0-essentials_build/bin/ffplay.exe", Some(b"PLAY")),
        ("ffmpeg-7.0-essentials_build/bin/ffprobe.exe", Some(b"PROBE")),
        ("ffmpeg-7.0-essentials_build/README.txt", Some(b"read me")),
    ]);
    let x = extract_zip(&bytes);
    assert!(x.outcome.is_ok());
    assert_eq!(
        x.files,
        vec![("ffmpeg.exe".to_string(), b"FF".to_vec()), ("ffprobe.exe".to_string(), b"PROBE".to_vec())]
    );
    let y = extract_archive(&bytes, ArchiveKind::Zip);
    assert_eq!(y.files.len(), 2);
}

#[test]
fn zip_without_ffmpeg_is_an_error() {
    let bytes = zip_of(&[("notes.txt", Some(b"x"))]);
    let x = extract_zip(&bytes);
    assert!(x.files.is_empty());
    assert_eq!(x.outcome.unwrap_err(), "no ffmpeg binary found in archive");
}

#[test]
fn unreadable_zip_is_an_error() {
    let x = extract_zip(&b"definitely not a zip".to_vec());
    assert!(x.files.is_empty());
    let e = x.outcome.unwrap_err();
    assert_ne!(e, "no ffmpeg binary found in archive");
}

#[test]
fn tar_xz_keeps_only_ffmpeg_binaries() {
    let bytes = tar_xz_of(&[
        ("ffmpeg-7.0-amd64-static/ffmpeg", b"ELF-ffmpeg"),
        ("ffmpeg-7.0-amd64-static/GPLv3.txt", b"license"),
        ("ffmpeg-7.0-amd64-static/ffprobe", b"ELF-ffprobe"),
    ]);
    let x = extract_tar_xz(&bytes);
    assert!(x.outcome.is_ok());
    assert_eq!(
        x.files,
        vec![("ffmpeg".to_string(), b"ELF-ffmpeg".to_vec()), ("ffprobe".to_string(), b"ELF-ffprobe".to_vec())]
    );
    let y = extract_archive(&bytes, ArchiveKind::TarXz);
    assert_eq!(y.files, x.files);
}

#[test]
fn tar_xz_without_ffmpeg_is_an_error() {
    let bytes = tar_xz_of(&[("x/readme", b"hello")]);
    let x = extract_tar_xz(&bytes);
    assert!(x.files.is_empty());
    assert_eq!(x.outcome.unwrap_err(), "no ffmpeg binary found in archive");
}

#[test]
fn bad_xz_is_an_xz_error() {
    let x = extract_tar_xz(&b"not xz".to_vec());
    assert!(x.files.is_empty());
    assert!(x.outcome.unwrap_err().starts_with("xz error: "));
}

#[test]
fn truncated_tar_is_an_error() {
    let mut b = tar::Builder::new(Vec::new());
    let data = vec![7u8; 2000];
    let mut h = tar::Header::new_gnu();
    h.set_size(data.len() as u64);
    h.set_cksum();
    b.append_data(&mut h, "x/readme", &data[..]).unwrap();
    let mut raw = b.into_inner().unwrap();
    raw.truncate(512 + 600);
    let mut bytes = Vec::new();
    lzma_rs::xz_compress(&mut std::io::Cursor::new(raw), &mut bytes).unwrap();
    let x = extract_tar_xz(&bytes);
    assert!(x.files.is_empty());
    assert!(x.outcome.is_err());
    assert_ne!(x.outcome.unwrap_err(), "no ffmpeg binary found in archive");
}
