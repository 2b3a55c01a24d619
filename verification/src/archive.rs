//! Auxiliary-file archives: a base64-encoded ZIP of relative paths.
//!
//! The engine decodes the archive, walks its entries, refuses path traversal
//! (names containing `..` or starting at the root) and symbolic links, skips
//! directory entries, and hands back the regular files as plain path/bytes
//! pairs for the caller to materialize in the working directory.
//!
//! Decoding and ZIP parsing are done by outside crates behind trusted
//! wrappers; everything from the entry walk on is verified.

use vstd::prelude::*;
use vstd::string::StrSliceExecFns;
use crate::types::EngineError;

verus! {

#[verifier::external_type_specification]
#[verifier::external_body]
#[verifier::reject_recursive_types(R)]
pub struct ExZipArchive<R>(zip::ZipArchive<R>);

#[verifier::external_type_specification]
#[verifier::external_body]
#[verifier::reject_recursive_types(T)]
pub struct ExCursor<T>(std::io::Cursor<T>);

/// What base64 decoding of the standard alphabet yields: `None` when the
/// text is not valid base64, else the decoded bytes. A pure function of the
/// input text.
pub uninterp spec fn base64_decoded(s: Seq<char>) -> Option<Seq<u8>>;

/// The entry list a ZIP archive's central directory parses to: `None` when
/// the bytes are not a well-formed archive, else one model per entry, in
/// archive order: its name, whether it is a directory, whether it is a
/// symbolic link, whether it reads cleanly (it can be opened and, for a
/// regular file, its bytes decompress without error), and its decompressed
/// bytes. Reading is deterministic in the archive bytes, so all of this is a
/// pure function of them; the bytes of an unreadable entry are unspecified.
pub uninterp spec fn zip_parsed(data: Seq<u8>) -> Option<
    Seq<(Seq<char>, bool, bool, bool, Seq<u8>)>,
>;

/// The entry models held by an opened archive value.
pub uninterp spec fn zip_entries(a: zip::ZipArchive<std::io::Cursor<Vec<u8>>>) -> Seq<
    (Seq<char>, bool, bool, bool, Seq<u8>),
>;

/// Relies on base64's `Engine::decode` with the standard-alphabet engine:
/// the result is a pure function of the input text.
#[verifier::external_body]
fn base64_decode(s: &str) -> (res: Option<Vec<u8>>)
    ensures
        res is Some <==> base64_decoded(s@) is Some,
        res is Some ==> res->0@ == base64_decoded(s@)->0,
{
    match base64::Engine::decode(&base64::engine::general_purpose::STANDARD, s) {
        Ok(v) => Some(v),
        Err(_) => None,
    }
}

/// Relies on zip's `ZipArchive::new`: parsing the central directory is a
/// pure function of the archive bytes, and the opened value holds the parsed
/// entries.
#[verifier::external_body]
fn zip_open(data: Vec<u8>) -> (res: Option<zip::ZipArchive<std::io::Cursor<Vec<u8>>>>)
    ensures
        res is Some <==> zip_parsed(data@) is Some,
        res is Some ==> zip_entries(res->0) == zip_parsed(data@)->0,
{
    match zip::ZipArchive::new(std::io::Cursor::new(data)) {
        Ok(a) => Some(a),
        Err(_) => None,
    }
}

/// Relies on zip's `ZipArchive::len`: the number of entries in the archive.
#[verifier::external_body]
fn zip_len(a: &zip::ZipArchive<std::io::Cursor<Vec<u8>>>) -> (res: usize)
    ensures
        res == zip_entries(*a).len(),
{
    a.len()
}

/// One archive entry, as plain values.
#[derive(Debug)]
pub struct ArchiveEntry {
    pub name: String,
    pub is_dir: bool,
    pub is_symlink: bool,
    pub data: Vec<u8>,
}

/// Relies on zip's `ZipArchive::by_index`: reads entry `i`'s name, kind and
/// (for a regular file) decompressed bytes. Reading succeeds exactly on the
/// readable entries — both opening and decompressing are deterministic in
/// the archive bytes — and it never changes the archive's contents.
#[verifier::external_body]
fn zip_entry(a: &mut zip::ZipArchive<std::io::Cursor<Vec<u8>>>, i: usize) -> (res: Option<
    ArchiveEntry,
>)
    ensures
        zip_entries(*final(a)) == zip_entries(*old(a)),
        i >= zip_entries(*old(a)).len() ==> res is None,
        i < zip_entries(*old(a)).len() ==> {
            let e = zip_entries(*old(a))[i as int];
            if e.3 {
                &&& res is Some
                &&& res->0.name@ == e.0
                &&& res->0.is_dir == e.1
                &&& res->0.is_symlink == e.2
                &&& (!res->0.is_dir ==> res->0.data@ == e.4)
            } else {
                res is None
            }
        },
{
    let mut f = match a.by_index(i) {
        Ok(f) => f,
        Err(_) => return None,
    };
    let is_dir = f.is_dir();
    let is_symlink = f.is_symlink();
    let mut data = Vec::new();
    if !is_dir {
        if std::io::Read::read_to_end(&mut f, &mut data).is_err() {
            return None;
        }
    }
    let name = f.name().to_string();
    Some(ArchiveEntry { name, is_dir, is_symlink, data })
}

/// A name that is safe to join under the working directory: non-empty, not
/// absolute, and free of `..`.
pub open spec fn safe_entry_name(name: Seq<char>) -> bool {
    &&& name.len() > 0
    &&& name[0] != '/'
    &&& forall|i: int| 0 <= i < name.len() - 1 ==> !(name[i] == '.' && #[trigger] name[i + 1] == '.')
}

/// Check a name for path traversal: rejects the empty name, absolute paths
/// and any name containing `..`.
pub fn is_safe_entry_name(name: &str) -> (res: bool)
    ensures
        res == safe_entry_name(name@),
{
    let n = name.unicode_len();
    if n == 0 {
        return false;
    }
    if name.get_char(0) == '/' {
        return false;
    }
    let mut i: usize = 0;
    while i + 1 < n
        invariant
            n == name@.len(),
            0 <= i < n,
            forall|j: int| 0 <= j < i ==> !(name@[j] == '.' && #[trigger] name@[j + 1] == '.'),
        decreases n - i,
    {
        if name.get_char(i) == '.' && name.get_char(i + 1) == '.' {
            return false;
        }
        i = i + 1;
    }
    true
}

/// A regular file to materialize in the working directory.
#[derive(Debug)]
pub struct ArchiveFile {
    /// Relative path under the working directory.
    pub path: String,
    pub data: Vec<u8>,
}

/// Whether every entry of an archive is acceptable: safe names throughout
/// and no symbolic links.
pub open spec fn entries_ok(es: Seq<(Seq<char>, bool, bool, bool, Seq<u8>)>) -> bool {
    forall|i: int|
        0 <= i < es.len() ==> safe_entry_name((#[trigger] es[i]).0) && !es[i].2
}

/// Whether every entry of an archive reads cleanly.
pub open spec fn entries_readable(es: Seq<(Seq<char>, bool, bool, bool, Seq<u8>)>) -> bool {
    forall|i: int| 0 <= i < es.len() ==> (#[trigger] es[i]).3
}

/// A usable auxiliary archive: the text decodes as base64, the bytes parse
/// as a ZIP, and every entry reads cleanly, carries a safe name and is not a
/// symbolic link. Extraction succeeds exactly on these.
pub open spec fn archive_ok(encoded: Seq<char>) -> bool {
    &&& base64_decoded(encoded) is Some
    &&& zip_parsed(base64_decoded(encoded)->0) is Some
    &&& entries_ok(zip_parsed(base64_decoded(encoded)->0)->0)
    &&& entries_readable(zip_parsed(base64_decoded(encoded)->0)->0)
}

/// The regular files among the entries, in archive order, as path/bytes
/// pairs; directory entries contribute nothing.
pub open spec fn files_of(es: Seq<(Seq<char>, bool, bool, bool, Seq<u8>)>) -> Seq<
    (Seq<char>, Seq<u8>),
>
    decreases es.len(),
{
    if es.len() == 0 {
        Seq::empty()
    } else {
        let rest = files_of(es.drop_last());
        let e = es.last();
        if e.1 {
            rest
        } else {
            rest.push((e.0, e.4))
        }
    }
}

/// Whether a list of files matches the path/bytes pairs of a model.
pub open spec fn files_match(files: Seq<ArchiveFile>, models: Seq<(Seq<char>, Seq<u8>)>) -> bool {
    &&& files.len() == models.len()
    &&& forall|i: int|
        0 <= i < files.len() ==> (#[trigger] files[i]).path@ == models[i].0 && files[i].data@
            == models[i].1
}

/// Decode and validate an auxiliary archive, returning the regular files to
/// materialize. Succeeds exactly on usable archives; fails with `BadArchive`
/// when the text is not base64, the bytes are not a ZIP, an entry cannot be
/// read, or an entry is a symbolic link or carries an unsafe name.
pub fn extract_archive(encoded: &str) -> (res: Result<Vec<ArchiveFile>, EngineError>)
    ensures
        res is Ok <==> archive_ok(encoded@),
        res is Err ==> res->Err_0 == EngineError::BadArchive,
        res is Ok ==> files_match(
            res->Ok_0@,
            files_of(zip_parsed(base64_decoded(encoded@)->0)->0),
        ),
{
    let data = match base64_decode(encoded) {
        Some(d) => d,
        None => {
            return Err(EngineError::BadArchive);
        },
    };
    let mut archive = match zip_open(data) {
        Some(a) => a,
        None => {
            return Err(EngineError::BadArchive);
        },
    };
    let ghost entries = zip_entries(archive);
    let n = zip_len(&archive);
    let mut files: Vec<ArchiveFile> = Vec::new();
    let mut i: usize = 0;
    while i < n
        invariant
            n == entries.len(),
            0 <= i <= n,
            zip_entries(archive) == entries,
            entries == zip_parsed(base64_decoded(encoded@)->0)->0,
            base64_decoded(encoded@) is Some,
            zip_parsed(base64_decoded(encoded@)->0) is Some,
            forall|j: int|
                0 <= j < i ==> safe_entry_name((#[trigger] entries[j]).0) && !entries[j].2
                    && entries[j].3,
            files_match(files@, files_of(entries.take(i as int))),
        decreases n - i,
    {
        let entry = match zip_entry(&mut archive, i) {
            Some(e) => e,
            None => {
                return Err(EngineError::BadArchive);
            },
        };
        if entry.is_symlink || !is_safe_entry_name(entry.name.as_str()) {
            return Err(EngineError::BadArchive);
        }
        proof {
            assert(entries.take(i + 1).drop_last() =~= entries.take(i as int));
            assert(entries.take(i + 1).last() == entries[i as int]);
        }
        if !entry.is_dir {
            files.push(ArchiveFile { path: entry.name, data: entry.data });
        }
        i = i + 1;
    }
    proof {
        assert(entries.take(n as int) =~= entries);
    }
    Ok(files)
}

} // verus!
