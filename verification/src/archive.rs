//! Picking the ffmpeg/ffprobe executables out of a downloaded archive.
//!
//! The archive formats are read by the `zip`, `lzma-rs` and `tar` crates; what
//! each read gives back depends on the archive's bytes alone, and is named
//! below. Which entries are kept, in which order, and when extraction fails,
//! is decided and proved here.

use vstd::prelude::*;

use crate::platform::ArchiveKind;
use crate::tools::{exe_stem, is_sep, wanted_binary, wanted_name, wanted_name_is_bare};
use crate::text::ascii_lower;

verus! {

// ---------------------------------------------------------------------------
// What the archive readers report
// ---------------------------------------------------------------------------

/// How many entries the zip archive in `bytes` lists; none if `zip` cannot
/// read its central directory.
pub uninterp spec fn zip_entry_count(bytes: Seq<u8>) -> Option<nat>;

/// Whether entry `i` of the zip archive in `bytes` is a plain file (neither a
/// directory nor a symbolic link); none if the entry cannot be opened.
pub uninterp spec fn zip_file_flag(bytes: Seq<u8>, i: nat) -> Option<bool>;

/// The name of entry `i` of the zip archive in `bytes`; none if it cannot be
/// opened or its name cannot be decoded.
pub uninterp spec fn zip_entry_name(bytes: Seq<u8>, i: nat) -> Option<Seq<char>>;

/// The unpacked contents of entry `i` of the zip archive in `bytes`; none if
/// it cannot be opened or read to its end.
pub uninterp spec fn zip_entry_data(bytes: Seq<u8>, i: nat) -> Option<Seq<u8>>;

/// The XZ stream in `bytes`, decompressed; none if it is not a valid stream.
pub uninterp spec fn xz_decoded(bytes: Seq<u8>) -> Option<Seq<u8>>;

/// What iterating the tar archive in `bytes` yields as its `k`-th item: the
/// entry's path (raw bytes read as UTF-8, invalid sequences replaced), `Err`
/// if the archive or that entry cannot be read, `Ok(None)` if the iteration
/// ended before it (past the last entry, or after an entry that could not be
/// read).
pub uninterp spec fn tar_entry(bytes: Seq<u8>, k: nat) -> Result<Option<Seq<char>>, ()>;

/// The contents of entry `k` of the tar archive in `bytes`; none if it cannot
/// be read.
pub uninterp spec fn tar_entry_data(bytes: Seq<u8>, k: nat) -> Option<Seq<u8>>;

/// `ZipArchive::new` over the bytes, then `ZipArchive::len`.
#[verifier::external_body]
fn zip_len(bytes: &Vec<u8>) -> (r: Result<usize, String>)
    ensures
        match r {
            Ok(n) => zip_entry_count(bytes@) == Some(n as nat),
            Err(_) => zip_entry_count(bytes@) is None,
        },
{
    let a = zip::ZipArchive::new(std::io::Cursor::new(bytes.as_slice())).map_err(
        |e| e.to_string(),
    )?;
    Ok(a.len())
}

/// `ZipArchive::by_index`, then `ZipFile::is_file`.
#[verifier::external_body]
fn zip_is_file(bytes: &Vec<u8>, i: usize) -> (r: Result<bool, String>)
    ensures
        match r {
            Ok(b) => zip_file_flag(bytes@, i as nat) == Some(b),
            Err(_) => zip_file_flag(bytes@, i as nat) is None,
        },
{
    let mut a = zip::ZipArchive::new(std::io::Cursor::new(bytes.as_slice())).map_err(
        |e| e.to_string(),
    )?;
    let f = a.by_index(i).map_err(|e| e.to_string())?;
    Ok(f.is_file())
}

/// `ZipArchive::by_index`, then `ZipFile::name`.
#[verifier::external_body]
fn zip_name(bytes: &Vec<u8>, i: usize) -> (r: Result<String, String>)
    ensures
        match r {
            Ok(s) => zip_entry_name(bytes@, i as nat) == Some(s@),
            Err(_) => zip_entry_name(bytes@, i as nat) is None,
        },
{
    let mut a = zip::ZipArchive::new(std::io::Cursor::new(bytes.as_slice())).map_err(
        |e| e.to_string(),
    )?;
    let f = a.by_index(i).map_err(|e| e.to_string())?;
    let name = f.name().map_err(|e| e.to_string())?;
    Ok(name.to_string())
}

/// `ZipArchive::by_index`, then reading the entry to its end.
#[verifier::external_body]
fn zip_data(bytes: &Vec<u8>, i: usize) -> (r: Result<Vec<u8>, String>)
    ensures
        match r {
            Ok(d) => zip_entry_data(bytes@, i as nat) == Some(d@),
            Err(_) => zip_entry_data(bytes@, i as nat) is None,
        },
{
    let mut a = zip::ZipArchive::new(std::io::Cursor::new(bytes.as_slice())).map_err(
        |e| e.to_string(),
    )?;
    let mut f = a.by_index(i).map_err(|e| e.to_string())?;
    let mut out: Vec<u8> = Vec::new();
    std::io::Read::read_to_end(&mut f, &mut out).map_err(|e| e.to_string())?;
    Ok(out)
}

/// `lzma_rs::xz_decompress`; the error is its `Debug` text.
#[verifier::external_body]
fn xz_unpack(bytes: &Vec<u8>) -> (r: Result<Vec<u8>, String>)
    ensures
        match r {
            Ok(d) => xz_decoded(bytes@) == Some(d@),
            Err(_) => xz_decoded(bytes@) is None,
        },
{
    let mut input = std::io::Cursor::new(bytes.as_slice());
    let mut out: Vec<u8> = Vec::new();
    lzma_rs::xz_decompress(&mut input, &mut out).map_err(|e| format!("{e:?}"))?;
    Ok(out)
}

/// `tar::Archive::entries`, then `Iterator::nth`, then the entry's
/// `path_bytes` read as UTF-8 with invalid sequences replaced. (On Unix this
/// is what `Entry::path` gives; tar.xz archives are only fetched there.)
#[verifier::external_body]
fn tar_name(bytes: &Vec<u8>, k: usize) -> (r: Result<Option<String>, String>)
    ensures
        match r {
            Ok(Some(s)) => tar_entry(bytes@, k as nat) == Ok::<Option<Seq<char>>, ()>(Some(s@)),
            Ok(None) => tar_entry(bytes@, k as nat) == Ok::<Option<Seq<char>>, ()>(None),
            Err(_) => tar_entry(bytes@, k as nat) is Err,
        },
{
    let mut archive = tar::Archive::new(std::io::Cursor::new(bytes.as_slice()));
    let mut entries = archive.entries().map_err(|e| e.to_string())?;
    match entries.nth(k) {
        None => Ok(None),
        Some(Err(e)) => Err(e.to_string()),
        Some(Ok(entry)) => Ok(Some(String::from_utf8_lossy(&entry.path_bytes()).to_string())),
    }
}

/// `tar::Archive::entries`, then `Iterator::nth`, then reading the
/// entry to its end.
#[verifier::external_body]
fn tar_data(bytes: &Vec<u8>, k: usize) -> (r: Result<Vec<u8>, String>)
    ensures
        match r {
            Ok(d) => tar_entry_data(bytes@, k as nat) == Some(d@),
            Err(_) => tar_entry_data(bytes@, k as nat) is None,
        },
{
    let mut archive = tar::Archive::new(std::io::Cursor::new(bytes.as_slice()));
    let mut entries = archive.entries().map_err(|e| e.to_string())?;
    match entries.nth(k) {
        Some(Ok(mut entry)) => {
            let mut out: Vec<u8> = Vec::new();
            std::io::Read::read_to_end(&mut entry, &mut out).map_err(|e| e.to_string())?;
            Ok(out)
        },
        Some(Err(e)) => Err(e.to_string()),
        None => Err(String::new()),
    }
}


// ---------------------------------------------------------------------------
// Extraction
// ---------------------------------------------------------------------------

/// The executables taken out of an archive, and how extraction ended. When a
/// read fails part-way, the executables found before it are still listed.
pub struct Extraction {
    /// (file name to write, contents), in archive order.
    pub files: Vec<(String, Vec<u8>)>,
    pub outcome: Result<(), String>,
}

/// The (name, contents) values of extracted files.
pub open spec fn file_views(v: Seq<(String, Vec<u8>)>) -> Seq<(Seq<char>, Seq<u8>)> {
    v.map_values(|f: (String, Vec<u8>)| (f.0@, f.1@))
}

/// The message when an archive holds no ffmpeg executable.
pub open spec fn none_found_message() -> Seq<char> {
    "no ffmpeg binary found in archive"@
}

/// Walking zip entries `i..n`: the executables picked, and whether every read
/// succeeded (the walk stops at the first failed read).
pub open spec fn zip_walk(bytes: Seq<u8>, i: nat, n: nat) -> (Seq<(Seq<char>, Seq<u8>)>, bool)
    decreases n - i,
{
    if i >= n {
        (Seq::empty(), true)
    } else {
        match zip_file_flag(bytes, i) {
            None => (Seq::empty(), false),
            Some(false) => zip_walk(bytes, i + 1, n),
            Some(true) => match zip_entry_name(bytes, i) {
                None => (Seq::empty(), false),
                Some(name) => match wanted_name(name) {
                    None => zip_walk(bytes, i + 1, n),
                    Some(out) => match zip_entry_data(bytes, i) {
                        None => (Seq::empty(), false),
                        Some(d) => {
                            let rest = zip_walk(bytes, i + 1, n);
                            (seq![(out, d)] + rest.0, rest.1)
                        },
                    },
                },
            },
        }
    }
}

/// Walking tar entries from `k` on: the executables picked, and whether every
/// read succeeded. The walk stops at entry `bytes.len()`: every entry takes a
/// header of 512 bytes, so an archive holds fewer entries than bytes.
pub open spec fn tar_walk(bytes: Seq<u8>, k: nat) -> (Seq<(Seq<char>, Seq<u8>)>, bool)
    decreases bytes.len() - k,
{
    if k >= bytes.len() {
        (Seq::empty(), true)
    } else {
        match tar_entry(bytes, k) {
            Err(_) => (Seq::empty(), false),
            Ok(None) => (Seq::empty(), true),
            Ok(Some(name)) => match wanted_name(name) {
                None => tar_walk(bytes, k + 1),
                Some(out) => match tar_entry_data(bytes, k) {
                    None => (Seq::empty(), false),
                    Some(d) => {
                        let rest = tar_walk(bytes, k + 1);
                        (seq![(out, d)] + rest.0, rest.1)
                    },
                },
            },
        }
    }
}

/// How a finished walk ends: failed reads are errors, and so is finding no
/// executable at all.
pub open spec fn walk_outcome_ok(w: (Seq<(Seq<char>, Seq<u8>)>, bool)) -> bool {
    w.1 && w.0.len() > 0
}

/// What extraction states about an archive, given the result of its walk
/// (`None` when the archive could not be opened at all).
pub open spec fn extraction_matches(x: Extraction, walk: Option<(Seq<(Seq<char>, Seq<u8>)>, bool)>) -> bool {
    match walk {
        None => file_views(x.files@).len() == 0 && x.outcome is Err,
        Some(w) => {
            &&& file_views(x.files@) == w.0
            &&& if !w.1 {
                x.outcome is Err
            } else if w.0.len() == 0 {
                x.outcome matches Err(e) && e@ == none_found_message()
            } else {
                x.outcome is Ok
            }
        },
    }
}


/// An extraction that succeeded produced at least one executable.
pub proof fn successful_extraction_has_files(x: Extraction, walk: Option<(Seq<(Seq<char>, Seq<u8>)>, bool)>)
    requires
        extraction_matches(x, walk),
        x.outcome is Ok,
    ensures
        file_views(x.files@).len() > 0,
{
}

/// A name to write an executable out as: no folder part, and an ffmpeg or
/// ffprobe executable whatever the letter case or ".exe".
pub open spec fn is_bare_executable(n: Seq<char>) -> bool {
    &&& n.len() > 0
    &&& forall|k: int| 0 <= k < n.len() ==> !is_sep(n[k])
    &&& exe_stem(ascii_lower(n)) == "ffmpeg"@ || exe_stem(ascii_lower(n)) == "ffprobe"@
}

/// Every extracted file has a bare executable name.
pub open spec fn all_bare(fs: Seq<(Seq<char>, Seq<u8>)>) -> bool {
    forall|i: int| 0 <= i < fs.len() ==> is_bare_executable(#[trigger] fs[i].0)
}

proof fn lemma_prepend_bare(out: Seq<char>, d: Seq<u8>, rest: Seq<(Seq<char>, Seq<u8>)>)
    requires
        is_bare_executable(out),
        all_bare(rest),
    ensures
        all_bare(seq![(out, d)] + rest),
{
    let fs = seq![(out, d)] + rest;
    assert forall|i: int| 0 <= i < fs.len() implies is_bare_executable(#[trigger] fs[i].0) by {
        if i > 0 {
            assert(fs[i] == rest[i - 1]);
        }
    }
}

proof fn lemma_push_bare(fs: Seq<(Seq<char>, Seq<u8>)>, out: Seq<char>, d: Seq<u8>)
    requires
        all_bare(fs),
        is_bare_executable(out),
    ensures
        all_bare(fs.push((out, d))),
{
    assert forall|i: int| 0 <= i < fs.push((out, d)).len() implies is_bare_executable(
        #[trigger] fs.push((out, d))[i].0,
    ) by {
        if i < fs.len() {
            assert(fs.push((out, d))[i] == fs[i]);
        }
    }
}

/// A zip archive yields only files with bare ffmpeg/ffprobe names.
pub proof fn zip_names_are_bare(bytes: Seq<u8>, i: nat, n: nat)
    ensures
        all_bare(zip_walk(bytes, i, n).0),
    decreases n - i,
{
    if i < n {
        zip_names_are_bare(bytes, i + 1, n);
        if let Some(true) = zip_file_flag(bytes, i) {
            if let Some(name) = zip_entry_name(bytes, i) {
                wanted_name_is_bare(name);
                if let Some(out) = wanted_name(name) {
                    if let Some(d) = zip_entry_data(bytes, i) {
                        lemma_prepend_bare(out, d, zip_walk(bytes, i + 1, n).0);
                    }
                }
            }
        }
    }
}

/// A tar archive yields only files with bare ffmpeg/ffprobe names.
pub proof fn tar_names_are_bare(bytes: Seq<u8>, k: nat)
    ensures
        all_bare(tar_walk(bytes, k).0),
    decreases bytes.len() - k,
{
    if k < bytes.len() {
        tar_names_are_bare(bytes, k + 1);
        if let Ok(Some(name)) = tar_entry(bytes, k) {
            wanted_name_is_bare(name);
            if let Some(out) = wanted_name(name) {
                if let Some(d) = tar_entry_data(bytes, k) {
                    lemma_prepend_bare(out, d, tar_walk(bytes, k + 1).0);
                }
            }
        }
    }
}

fn push_file(files: &mut Vec<(String, Vec<u8>)>, name: String, data: Vec<u8>)
    ensures
        file_views(final(files)@) == file_views(old(files)@).push((name@, data@)),
{
    files.push((name, data));
    assert(file_views(files@) =~= file_views(old(files)@).push((name@, data@)));
}

/// A completed walk: an error if nothing was found.
fn walk_done(files: Vec<(String, Vec<u8>)>) -> (x: Extraction)
    ensures
        file_views(x.files@) == file_views(files@),
        if file_views(files@).len() == 0 {
            x.outcome matches Err(e) && e@ == none_found_message()
        } else {
            x.outcome is Ok
        },
{
    if files.len() == 0 {
        Extraction { files, outcome: Err("no ffmpeg binary found in archive".to_string()) }
    } else {
        Extraction { files, outcome: Ok(()) }
    }
}

/// A walk stopped by a failed read.
fn walk_failed(files: Vec<(String, Vec<u8>)>, e: String) -> (x: Extraction)
    ensures
        file_views(x.files@) == file_views(files@),
        x.outcome matches Err(m) && m == e,
{
    Extraction { files, outcome: Err(e) }
}

/// The ffmpeg/ffprobe executables in a zip archive.
pub fn extract_zip(bytes: &Vec<u8>) -> (x: Extraction)
    ensures
        all_bare(file_views(x.files@)),
        extraction_matches(
            x,
            match zip_entry_count(bytes@) {
                Some(n) => Some(zip_walk(bytes@, 0, n)),
                None => None,
            },
        ),
{
    let n = match zip_len(bytes) {
        Ok(n) => n,
        Err(e) => {
            let x = walk_failed(Vec::new(), e);
            assert(file_views(x.files@) =~= Seq::empty());
            return x;
        },
    };
    let mut files: Vec<(String, Vec<u8>)> = Vec::new();
    let mut i: usize = 0;
    assert(file_views(files@) + zip_walk(bytes@, 0, n as nat).0 =~= zip_walk(bytes@, 0, n as nat).0);
    while i < n
        invariant
            i <= n,
            zip_entry_count(bytes@) == Some(n as nat),
            all_bare(file_views(files@)),
            zip_walk(bytes@, 0, n as nat) == (
                file_views(files@) + zip_walk(bytes@, i as nat, n as nat).0,
                zip_walk(bytes@, i as nat, n as nat).1,
            ),
        decreases n - i,
    {
        let ghost before = file_views(files@);
        match zip_is_file(bytes, i) {
            Err(e) => {
                assert(before + Seq::empty() =~= before);
                return walk_failed(files, e);
            },
            Ok(false) => {},
            Ok(true) => match zip_name(bytes, i) {
                Err(e) => {
                    assert(before + Seq::empty() =~= before);
                    return walk_failed(files, e);
                },
                Ok(name) => match wanted_binary(name.as_str()) {
                    None => {},
                    Some(out) => match zip_data(bytes, i) {
                        Err(e) => {
                            assert(before + Seq::empty() =~= before);
                            return walk_failed(files, e);
                        },
                        Ok(d) => {
                            let ghost item = (out@, d@);
                            proof {
                                wanted_name_is_bare(name@);
                                lemma_push_bare(before, out@, d@);
                            }
                            push_file(&mut files, out, d);
                            assert(before + (seq![item] + zip_walk(bytes@, i as nat + 1, n as nat).0)
                                =~= file_views(files@) + zip_walk(bytes@, i as nat + 1, n as nat).0);
                        },
                    },
                },
            },
        }
        i += 1;
    }
    assert(file_views(files@) + Seq::empty() =~= file_views(files@));
    walk_done(files)
}

/// The message for an XZ stream that cannot be decompressed.
pub open spec fn is_xz_error(e: Seq<char>) -> bool {
    crate::text::has_prefix(e, "xz error: "@)
}

/// The ffmpeg/ffprobe executables in an XZ-compressed tar archive.
pub fn extract_tar_xz(bytes: &Vec<u8>) -> (x: Extraction)
    ensures
        all_bare(file_views(x.files@)),
        match xz_decoded(bytes@) {
            Some(t) => extraction_matches(x, Some(tar_walk(t, 0))),
            None => file_views(x.files@).len() == 0 && (x.outcome matches Err(e) && is_xz_error(e@)),
        },
{
    let tar_bytes = match xz_unpack(bytes) {
        Ok(t) => t,
        Err(e) => {
            let msg = crate::text::join2("xz error: ", e.as_str());
            proof {
                reveal_strlit("xz error: ");
                assert(msg@.take(10) =~= "xz error: "@);
            }
            let x = walk_failed(Vec::new(), msg);
            assert(file_views(x.files@) =~= Seq::empty());
            return x;
        },
    };
    let mut files: Vec<(String, Vec<u8>)> = Vec::new();
    let mut k: usize = 0;
    assert(file_views(files@) + tar_walk(tar_bytes@, 0).0 =~= tar_walk(tar_bytes@, 0).0);
    while k < tar_bytes.len()
        invariant
            k <= tar_bytes.len(),
            xz_decoded(bytes@) == Some(tar_bytes@),
            all_bare(file_views(files@)),
            tar_walk(tar_bytes@, 0) == (
                file_views(files@) + tar_walk(tar_bytes@, k as nat).0,
                tar_walk(tar_bytes@, k as nat).1,
            ),
        decreases tar_bytes.len() - k,
    {
        let ghost before = file_views(files@);
        match tar_name(&tar_bytes, k) {
            Err(e) => {
                assert(before + Seq::empty() =~= before);
                return walk_failed(files, e);
            },
            Ok(None) => {
                assert(before + Seq::empty() =~= before);
                return walk_done(files);
            },
            Ok(Some(name)) => match wanted_binary(name.as_str()) {
                None => {},
                Some(out) => match tar_data(&tar_bytes, k) {
                    Err(e) => {
                        assert(before + Seq::empty() =~= before);
                        return walk_failed(files, e);
                    },
                    Ok(d) => {
                        let ghost item = (out@, d@);
                        proof {
                            wanted_name_is_bare(name@);
                            lemma_push_bare(before, out@, d@);
                        }
                        push_file(&mut files, out, d);
                        assert(before + (seq![item] + tar_walk(tar_bytes@, k as nat + 1).0)
                            =~= file_views(files@) + tar_walk(tar_bytes@, k as nat + 1).0);
                    },
                },
            },
        }
        k += 1;
    }
    assert(file_views(files@) + Seq::empty() =~= file_views(files@));
    walk_done(files)
}

/// The ffmpeg/ffprobe executables in a downloaded archive of the given kind.
pub fn extract_archive(bytes: &Vec<u8>, kind: ArchiveKind) -> (x: Extraction)
    ensures
        all_bare(file_views(x.files@)),
        kind == ArchiveKind::Zip ==> extraction_matches(
            x,
            match zip_entry_count(bytes@) {
                Some(n) => Some(zip_walk(bytes@, 0, n)),
                None => None,
            },
        ),
        kind == ArchiveKind::TarXz ==> match xz_decoded(bytes@) {
            Some(t) => extraction_matches(x, Some(tar_walk(t, 0))),
            None => file_views(x.files@).len() == 0 && (x.outcome matches Err(e) && is_xz_error(e@)),
        },
{
    match kind {
        ArchiveKind::Zip => extract_zip(bytes),
        ArchiveKind::TarXz => extract_tar_xz(bytes),
    }
}

} // verus!
