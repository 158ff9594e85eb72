use vstd::prelude::*;

use crate::path::{joined, string_path};

verus! {

#[verifier::external_type_specification]
#[verifier::external_body]
#[verifier::reject_recursive_types(T)]
pub struct ExCursor<T>(std::io::Cursor<T>);

#[verifier::external_type_specification]
#[verifier::external_body]
#[verifier::reject_recursive_types(R)]
pub struct ExZipArchive<R>(zip::ZipArchive<R>);

#[verifier::external_type_specification]
#[verifier::external_body]
pub struct ExZipError(zip::result::ZipError);

/// An archive read from bytes held in memory.
pub type MemoryArchive = zip::ZipArchive<std::io::Cursor<Vec<u8>>>;

/// The entries of an opened archive, in their order. An entry that can be
/// read is its name with the components of special meaning removed, its
/// expanded contents, and whether it stands for a directory; one that cannot
/// be read (damaged, or locked by a password) is `None`.
pub uninterp spec fn archive_entries(a: MemoryArchive) -> Seq<Option<(Seq<char>, Seq<u8>, bool)>>;

/// Whether the archive parser accepts the bytes as an archive.
pub uninterp spec fn zip_opens(bytes: Seq<u8>) -> bool;

/// The entries that the archive parser finds in the bytes of an archive.
pub uninterp spec fn zip_entries(bytes: Seq<u8>) -> Seq<Option<(Seq<char>, Seq<u8>, bool)>>;

/// A relative name: it holds no NUL and starts with no separator.
pub open spec fn relative_name(name: Seq<char>) -> bool {
    &&& !name.contains('\0')
    &&& (name.len() == 0 || (name[0] != '/' && name[0] != '\\'))
}

/// Relies on `zip::ZipArchive::new`: whether bytes open as an archive depends
/// on the bytes alone, and an archive opened from them holds the entries that
/// they describe.
#[verifier::external_body]
fn open_archive(bytes: Vec<u8>) -> (r: Result<MemoryArchive, zip::result::ZipError>)
    ensures
        r is Ok <==> zip_opens(bytes@),
        r matches Ok(a) ==> archive_entries(a) == zip_entries(bytes@),
{
    zip::ZipArchive::new(std::io::Cursor::new(bytes))
}

/// Relies on `zip::ZipArchive::len`: the number of entries.
#[verifier::external_body]
fn entry_count(a: &MemoryArchive) -> (r: usize)
    ensures
        r == archive_entries(*a).len(),
{
    a.len()
}

/// Relies on `zip::ZipArchive::by_index_decrypt`, with an empty password
/// (dropped for an entry that is not encrypted): the entry at `i`, by its
/// mangled name, its contents read to the end, and `is_dir`. A refused
/// password comes back as `None` rather than a panic. The mangled name is cut
/// at its first NUL and keeps only normal path components, so it is
/// relative. Reading leaves the entries as they are.
#[verifier::external_body]
fn read_entry(a: &mut MemoryArchive, i: usize) -> (r: Result<
    Option<(String, Vec<u8>, bool)>,
    zip::result::ZipError,
>)
    requires
        i < archive_entries(*old(a)).len(),
    ensures
        archive_entries(*final(a)) == archive_entries(*old(a)),
        (r matches Ok(Some(_))) <==> archive_entries(*old(a))[i as int] is Some,
        r matches Ok(Some((name, contents, directory))) ==> archive_entries(*old(a))[i as int]
            == Some((name@, contents@, directory)) && relative_name(name@),
{
    let mut file = match a.by_index_decrypt(i, b"")? {
        Ok(file) => file,
        Err(_) => return Ok(None),
    };
    let name = file.mangled_name().display().to_string();
    let directory = file.is_dir();
    let mut contents: Vec<u8> = Vec::new();
    std::io::Read::read_to_end(&mut file, &mut contents)?;
    Ok(Some((name, contents, directory)))
}

/// A file or directory to create when an archive is expanded.
pub struct Extracted {
    pub path: String,
    pub contents: Vec<u8>,
    /// The entry stands for a directory: create it, with no contents.
    pub directory: bool,
}

/// Why an archive could not be expanded in full.
#[derive(Debug)]
pub enum ArchiveError {
    /// The bytes are not a readable archive.
    Open(zip::result::ZipError),
    /// The entry at this index could not be read.
    Entry(usize, zip::result::ZipError),
    /// The entry at this index is locked by a password.
    Locked(usize),
}

/// What expanding an archive gives: the entries read, in order, up to the
/// first that failed, and that failure if there was one.
pub struct Expansion {
    pub files: Vec<Extracted>,
    pub failure: Option<ArchiveError>,
}

/// `f` is what expanding `entry` into `dir` creates.
pub open spec fn extracted_from(f: Extracted, dir: Seq<char>, entry: Option<(Seq<char>, Seq<u8>, bool)>) -> bool {
    entry matches Some((name, contents, directory)) && f.path@ == joined(dir, name) && f.contents@
        == contents && f.directory == directory
}

/// Expands the archive `bytes` into the directory `dir`: one file or
/// directory for each entry, in order, at the entry's name under `dir`,
/// holding exactly the entry's contents, under a relative name. Unreadable bytes give no entries
/// and an `Open` failure; otherwise the entries are read in order up to the
/// first that cannot be read, whose index the failure names.
pub fn expand(bytes: Vec<u8>, dir: &str) -> (r: Expansion)
    ensures
        !zip_opens(bytes@) ==> r.files@.len() == 0 && r.failure matches Some(ArchiveError::Open(_)),
        zip_opens(bytes@) ==> {
            let entries = zip_entries(bytes@);
            let k = r.files@.len() as int;
            &&& k <= entries.len()
            &&& forall|i: int|
                0 <= i < k ==> extracted_from(#[trigger] r.files@[i], dir@, entries[i])
                    && relative_name(entries[i]->Some_0.0)
            &&& k == entries.len() ==> r.failure is None
            &&& k < entries.len() ==> entries[k] is None && (r.failure matches Some(
                ArchiveError::Entry(j, _),
            ) && j == k || r.failure == Some(ArchiveError::Locked(k as usize)))
        },
{
    let ghost whole = bytes@;
    let mut files: Vec<Extracted> = Vec::new();
    let mut archive = match open_archive(bytes) {
        Ok(a) => a,
        Err(e) => return Expansion { files, failure: Some(ArchiveError::Open(e)) },
    };
    let n = entry_count(&archive);
    let mut i: usize = 0;
    while i < n
        invariant
            whole == bytes@,
            zip_opens(whole),
            n == zip_entries(whole).len(),
            archive_entries(archive) == zip_entries(whole),
            i <= n,
            files@.len() == i,
            forall|k: int|
                0 <= k < i ==> extracted_from(#[trigger] files@[k], dir@, zip_entries(whole)[k])
                    && relative_name(zip_entries(whole)[k]->Some_0.0),
        decreases n - i,
    {
        match read_entry(&mut archive, i) {
            Ok(Some((name, contents, directory))) => {
                let path = string_path(dir, name.as_str());
                files.push(Extracted { path, contents, directory });
            },
            Ok(None) => return Expansion { files, failure: Some(ArchiveError::Locked(i)) },
            Err(e) => return Expansion { files, failure: Some(ArchiveError::Entry(i, e)) },
        }
        i = i + 1;
    }
    Expansion { files, failure: None }
}

} // verus!
