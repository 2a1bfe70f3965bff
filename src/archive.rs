use vstd::prelude::*;
use crate::codec::Compression;
use crate::error::InstallError;
use crate::format::{classify, Extension};
use crate::installer::{tar_compression, tar_reader_for};
use crate::matcher::{first_where, lemma_first_where};
use crate::text::extension_of;

verus! {

/// How a whole archive is unpacked.
#[derive(Clone, Copy, Debug, PartialEq, Eq, Structural)]
pub enum ArchiveKind {
    /// A tar stream under the given compression.
    Tarball(Compression),
    Zip,
}

/// One entry directly under the install root after unpacking.
#[derive(Clone, Debug)]
pub struct RootEntry {
    /// Its path relative to the install root.
    pub name: String,
    /// It is a regular file.
    pub is_file: bool,
}

/// Unpacks a whole archive into a directory.
#[derive(Clone, Debug)]
pub struct ArchiveInstaller {
    pub install_root: String,
}

/// An entry that settles the flattening question on its own: a file, or a path without a
/// component.
pub open spec fn settles(e: RootEntry) -> bool {
    e.is_file || e.name@.len() == 0
}

/// How an archive of the given kind is unpacked; only tarballs and zip archives are.
pub open spec fn archive_kind_of(path: Seq<char>) -> Result<ArchiveKind, InstallError> {
    match classify(path) {
        Some(e) => if e.spec_is_tarball() {
            match tar_compression(extension_of(path)) {
                Ok(c) => Ok(ArchiveKind::Tarball(c)),
                Err(err) => Err(err),
            }
        } else if e == Extension::Zip {
            Ok(ArchiveKind::Zip)
        } else {
            Err(InstallError::NotAnArchive)
        },
        None => Err(InstallError::NotAnArchive),
    }
}

/// Whether the install root's only content is one directory to collapse: no entry is a file,
/// and the first components of all entries form a set of exactly one name. An entry without
/// a path component, or a root without entries (an empty set of first components), is an
/// error.
pub open spec fn flatten_spec(entries: Seq<RootEntry>) -> Result<bool, InstallError> {
    match first_where(entries, |e: RootEntry| settles(e), 0) {
        Some(i) => if entries[i].is_file {
            Ok(false)
        } else {
            Err(InstallError::EmptyArchive)
        },
        None => if entries.len() == 0 {
            Err(InstallError::EmptyArchive)
        } else {
            Ok(forall|j: int| 0 <= j < entries.len() ==> (#[trigger] entries[j]).name@ == entries[0].name@)
        },
    }
}

impl ArchiveInstaller {
    /// An installer that unpacks into `install_path`.
    pub fn new(install_path: String) -> (r: ArchiveInstaller)
        ensures
            r.install_root == install_path,
    {
        ArchiveInstaller { install_root: install_path }
    }

    /// How the asset at `path` is unpacked whole.
    pub fn extract_entire_archive(&self, path: &str) -> (r: Result<ArchiveKind, InstallError>)
        ensures
            r == archive_kind_of(path@),
    {
        match Extension::from_path(path) {
            Some(e) => {
                if e.is_tarball() {
                    match self.extract_entire_tarball(path) {
                        Ok(c) => Ok(ArchiveKind::Tarball(c)),
                        Err(err) => Err(err),
                    }
                } else if matches!(e, Extension::Zip) {
                    Ok(ArchiveKind::Zip)
                } else {
                    Err(InstallError::NotAnArchive)
                }
            },
            None => Err(InstallError::NotAnArchive),
        }
    }

    /// The compression to strip before unpacking the tarball at `path`.
    pub fn extract_entire_tarball(&self, path: &str) -> (r: Result<Compression, InstallError>)
        ensures
            r == tar_compression(extension_of(path@)),
    {
        tar_reader_for(path)
    }

    /// Whether to move the content of the single top-level directory up into the install root.
    pub fn should_move_up_one_dir(&self, entries: &Vec<RootEntry>) -> (r: Result<bool, InstallError>)
        ensures
            r == flatten_spec(entries@),
    {
        let mut i: usize = 0;
        let mut one_name = true;
        while i < entries.len()
            invariant
                i <= entries@.len(),
                forall|j: int| 0 <= j < i ==> !settles(#[trigger] entries@[j]),
                one_name == forall|j: int| 0 <= j < i ==> (#[trigger] entries@[j]).name@ == entries@[0].name@,
            decreases entries.len() - i,
        {
            let e = &entries[i];
            if e.is_file {
                proof {
                    crate::matcher::lemma_first_where_is(entries@, |e: RootEntry| settles(e), i as int);
                }
                return Ok(false);
            }
            if e.name.unicode_len() == 0 {
                proof {
                    crate::matcher::lemma_first_where_is(entries@, |e: RootEntry| settles(e), i as int);
                }
                return Err(InstallError::EmptyArchive);
            }
            if !crate::text::same_text(e.name.as_str(), entries[0].name.as_str()) {
                one_name = false;
            }
            i = i + 1;
        }
        proof {
            lemma_first_where(entries@, |e: RootEntry| settles(e), 0);
        }
        if entries.len() == 0 {
            return Err(InstallError::EmptyArchive);
        }
        Ok(one_name)
    }
}

/// An archive with a file at its root is never flattened, even when that file is the only
/// entry and so the only first component.
pub proof fn lemma_root_file_blocks_flattening(entries: Seq<RootEntry>, i: int)
    requires
        0 <= i < entries.len(),
        entries[i].is_file,
        forall|j: int| 0 <= j < entries.len() ==> (#[trigger] entries[j]).name@.len() > 0,
    ensures
        flatten_spec(entries) == Ok::<bool, InstallError>(false),
{
    lemma_first_where(entries, |e: RootEntry| settles(e), 0);
}

/// An install root holding one directory alone is flattened.
pub proof fn lemma_single_directory_flattened(entries: Seq<RootEntry>)
    requires
        entries.len() == 1,
        !entries[0].is_file,
        entries[0].name@.len() > 0,
    ensures
        flatten_spec(entries) == Ok::<bool, InstallError>(true),
{
    lemma_first_where(entries, |e: RootEntry| settles(e), 0);
}

/// Two different top-level names mean the archive has no common directory: it is never
/// flattened.
pub proof fn lemma_two_top_names_not_flattened(entries: Seq<RootEntry>, i: int, k: int)
    requires
        0 <= i < entries.len(),
        0 <= k < entries.len(),
        entries[i].name@ != entries[k].name@,
        forall|j: int| 0 <= j < entries.len() ==> (#[trigger] entries[j]).name@.len() > 0,
    ensures
        flatten_spec(entries) == Ok::<bool, InstallError>(false),
{
    lemma_first_where(entries, |e: RootEntry| settles(e), 0);
}
} // verus!
