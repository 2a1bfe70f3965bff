use vstd::prelude::*;
use crate::codec::{
    decode, decoded, listing_view, parser_safe, tar_listing_of, tar_parser_safe, tar_member_of, zip_listing_of,
    zip_member_of, Compression,
};
use crate::error::InstallError;
use crate::format::{classify, Extension};
use crate::matcher::ExeInstaller;
use crate::text::{extension_of, path_extension, same_text};

verus! {

/// The permissions an installed executable gets where the file system has Unix modes.
pub const INSTALLED_MODE: u32 = 0o755;

/// The compression a kind's suffix names, if any.
pub open spec fn compression_of(e: Extension) -> Option<Compression> {
    match e {
        Extension::Tar => Some(Compression::Plain),
        Extension::TarBz | Extension::TarBz2 | Extension::Tbz | Extension::Tbz2 | Extension::Bz
        | Extension::Bz2 => Some(Compression::Bzip2),
        Extension::TarGz | Extension::Tgz | Extension::Gz => Some(Compression::Gzip),
        Extension::TarXz | Extension::Txz | Extension::Xz => Some(Compression::Xz),
        _ => None,
    }
}

/// The compression to strip from a tarball whose path has the given extension: a path
/// without an extension is a plain tarball, an extension that names no compressor an error.
pub open spec fn tar_compression(ext: Option<Seq<char>>) -> Result<Compression, InstallError> {
    match ext {
        None => Ok(Compression::Plain),
        Some(e) => if e == "tar"@ {
            Ok(Compression::Plain)
        } else if e == "bz"@ || e == "tbz"@ || e == "bz2"@ || e == "tbz2"@ {
            Ok(Compression::Bzip2)
        } else if e == "gz"@ || e == "tgz"@ {
            Ok(Compression::Gzip)
        } else if e == "xz"@ || e == "txz"@ {
            Ok(Compression::Xz)
        } else {
            Err(InstallError::UnsupportedCompression)
        },
    }
}

/// The suffix an installed file takes from the name it came from, where that suffix is kept.
pub open spec fn preserved_of(name: Seq<char>) -> Option<Extension> {
    match classify(name) {
        Some(e) => if e.spec_preserved() {
            Some(e)
        } else {
            None
        },
        None => None,
    }
}

/// The file to install: its content, and the suffix its destination takes (`None`: the
/// destination keeps the name it was given).
#[derive(Clone, Debug)]
pub struct Executable {
    pub bytes: Vec<u8>,
    pub extension: Option<Extension>,
}

/// The plain values of an outcome.
pub open spec fn outcome_view(r: Result<Executable, InstallError>) -> Result<(Seq<u8>, Option<Extension>), InstallError> {
    match r {
        Ok(x) => Ok((x.bytes@, x.extension)),
        Err(e) => Err(e),
    }
}

/// The compression a kind's suffix names, if any.
pub fn compression(e: Extension) -> (r: Option<Compression>)
    ensures
        r == compression_of(e),
{
    match e {
        Extension::Tar => Some(Compression::Plain),
        Extension::TarBz | Extension::TarBz2 | Extension::Tbz | Extension::Tbz2 | Extension::Bz
        | Extension::Bz2 => Some(Compression::Bzip2),
        Extension::TarGz | Extension::Tgz | Extension::Gz => Some(Compression::Gzip),
        Extension::TarXz | Extension::Txz | Extension::Xz => Some(Compression::Xz),
        _ => None,
    }
}

/// Picks the compression to strip from the tarball at `path`, by the path's extension.
pub fn tar_reader_for(path: &str) -> (r: Result<Compression, InstallError>)
    ensures
        r == tar_compression(extension_of(path@)),
{
    let ext = match path_extension(path) {
        Some(e) => e,
        None => return Ok(Compression::Plain),
    };
    let e = ext.as_str();
    if same_text(e, "tar") {
        Ok(Compression::Plain)
    } else if same_text(e, "bz") || same_text(e, "tbz") || same_text(e, "bz2") || same_text(e, "tbz2") {
        Ok(Compression::Bzip2)
    } else if same_text(e, "gz") || same_text(e, "tgz") {
        Ok(Compression::Gzip)
    } else if same_text(e, "xz") || same_text(e, "txz") {
        Ok(Compression::Xz)
    } else {
        Err(InstallError::UnsupportedCompression)
    }
}

/// The suffix an installed file takes from the name it came from.
pub fn preserved_extension(name: &str) -> (r: Option<Extension>)
    ensures
        r == preserved_of(name@),
{
    match Extension::from_path(name) {
        Some(e) => if e.should_preserve_extension_on_install() {
            Some(e)
        } else {
            None
        },
        None => None,
    }
}

impl ExeInstaller {
    /// The permissions to give an installed executable: `0o755` where the file system has Unix
    /// modes, none elsewhere.
    pub fn chmod_executable(unix_modes: bool) -> (r: Option<u32>)
        ensures
            r == if unix_modes { Some(INSTALLED_MODE) } else { None },
    {
        if unix_modes {
            Some(INSTALLED_MODE)
        } else {
            None
        }
    }

    /// What installing from a decoded tar stream gives.
    /// A stream the tar parser cannot walk safely (see `parser_safe`) is refused as unreadable.
    pub open spec fn from_tar_spec(self, data: Seq<u8>) -> Result<(Seq<u8>, Option<Extension>), InstallError> {
        if !parser_safe(data) {
            Err(InstallError::UnreadableArchive)
        } else {
            self.from_listed_tar_spec(data)
        }
    }

    /// What installing from a decoded tar stream the parser can take gives.
    pub open spec fn from_listed_tar_spec(self, data: Seq<u8>) -> Result<(Seq<u8>, Option<Extension>), InstallError> {
        let l = tar_listing_of(data);
        match self.pick_spec(l.0, l.1, true) {
            Err(e) => Err(e),
            Ok(i) => match tar_member_of(data, i) {
                None => Err(InstallError::UnreadableArchive),
                Some(b) => Ok((b, preserved_of(l.0[i].0->0))),
            },
        }
    }

    /// What installing from a zip archive gives.
    pub open spec fn from_zip_spec(self, data: Seq<u8>) -> Result<(Seq<u8>, Option<Extension>), InstallError> {
        let l = zip_listing_of(data);
        match self.pick_spec(l.0, l.1, false) {
            Err(e) => Err(e),
            Ok(i) => match zip_member_of(data, i) {
                None => Err(InstallError::UnreadableArchive),
                Some(b) => Ok((b, preserved_of(l.0[i].0->0))),
            },
        }
    }

    /// What installing an asset with the given path and content gives: for a tarball, the
    /// member that matches; for a bare compressed stream, its content; for a zip archive, the
    /// member that matches; for anything else, the asset itself.
    pub open spec fn extract_spec(self, path: Seq<char>, asset: Seq<u8>) -> Result<(Seq<u8>, Option<Extension>), InstallError> {
        match classify(path) {
            Some(e) => if e.spec_is_tarball() {
                match tar_compression(extension_of(path)) {
                    Err(err) => Err(err),
                    Ok(c) => match decoded(asset, c) {
                        None => Err(InstallError::CorruptStream),
                        Some(data) => self.from_tar_spec(data),
                    },
                }
            } else if e == Extension::Zip {
                self.from_zip_spec(asset)
            } else if compression_of(e) is Some {
                match decoded(asset, compression_of(e)->0) {
                    None => Err(InstallError::CorruptStream),
                    Some(data) => Ok((data, None)),
                }
            } else {
                Ok((asset, preserved_of(path)))
            },
            None => Ok((asset, None)),
        }
    }

    /// Installs from a tarball of the given kind: strips its compression, lists it, picks the
    /// member to install, then reads that member by its position.
    pub fn extract_executable_from_tarball(&self, path: &str, asset: &Vec<u8>) -> (r:
        Result<Executable, InstallError>)
        ensures
            outcome_view(r) == match tar_compression(extension_of(path@)) {
                Err(e) => Err(e),
                Ok(c) => match decoded(asset@, c) {
                    None => Err(InstallError::CorruptStream),
                    Some(data) => self.from_tar_spec(data),
                },
            },
    {
        let c = match tar_reader_for(path) {
            Ok(c) => c,
            Err(e) => return Err(e),
        };
        let data = match decode(asset, c) {
            Some(d) => d,
            None => return Err(InstallError::CorruptStream),
        };
        if !tar_parser_safe(&data) {
            return Err(InstallError::UnreadableArchive);
        }
        let (listing, complete) = crate::codec::tar_listing(&data);
        let idx = match self.pick(&listing, complete, true) {
            Ok(i) => i,
            Err(e) => return Err(e),
        };
        proof {
            self.lemma_best_match_has_path(listing_view(listing@), true);
        }
        let bytes = match crate::codec::tar_member(&data, idx) {
            Some(b) => b,
            None => return Err(InstallError::UnreadableArchive),
        };
        let extension = match &listing[idx].path {
            Some(p) => preserved_extension(p.as_str()),
            None => None,
        };
        Ok(Executable { bytes, extension })
    }

    /// Installs from a zip archive: lists it, picks the member to install, reads it.
    pub fn extract_executable_from_zip(&self, asset: &Vec<u8>) -> (r: Result<Executable, InstallError>)
        ensures
            outcome_view(r) == self.from_zip_spec(asset@),
    {
        let (listing, complete) = crate::codec::zip_listing(asset);
        let idx = match self.pick(&listing, complete, false) {
            Ok(i) => i,
            Err(e) => return Err(e),
        };
        proof {
            self.lemma_best_match_has_path(listing_view(listing@), false);
        }
        let bytes = match crate::codec::zip_member(asset, idx) {
            Some(b) => b,
            None => return Err(InstallError::UnreadableArchive),
        };
        let extension = match &listing[idx].path {
            Some(p) => preserved_extension(p.as_str()),
            None => None,
        };
        Ok(Executable { bytes, extension })
    }

    /// Installs a bare compressed stream: its whole content is the executable.
    pub fn decompress_executable(&self, asset: &Vec<u8>, compression: Compression) -> (r: Result<
        Executable,
        InstallError,
    >)
        ensures
            outcome_view(r) == match decoded(asset@, compression) {
                None => Err(InstallError::CorruptStream),
                Some(data) => Ok((data, None::<Extension>)),
            },
    {
        match decode(asset, compression) {
            Some(bytes) => Ok(Executable { bytes, extension: None }),
            None => Err(InstallError::CorruptStream),
        }
    }

    /// Installs the asset as it is, keeping its suffix where that suffix is kept.
    pub fn copy_executable(&self, path: &str, asset: &Vec<u8>) -> (r: Executable)
        ensures
            r.bytes@ == asset@,
            r.extension == preserved_of(path@),
    {
        let bytes = asset.clone();
        assert(bytes@ =~= asset@);
        Executable { bytes, extension: preserved_extension(path) }
    }

    /// What to install from an asset with the given path and content.
    pub fn extract_executable(&self, path: &str, asset: &Vec<u8>) -> (r: Result<Executable, InstallError>)
        ensures
            outcome_view(r) == self.extract_spec(path@, asset@),
    {
        match Extension::from_path(path) {
            Some(e) => {
                if e.is_tarball() {
                    self.extract_executable_from_tarball(path, asset)
                } else if matches!(e, Extension::Zip) {
                    self.extract_executable_from_zip(asset)
                } else {
                    match compression(e) {
                        Some(c) => self.decompress_executable(asset, c),
                        None => Ok(self.copy_executable(path, asset)),
                    }
                }
            },
            None => {
                let bytes = asset.clone();
                assert(bytes@ =~= asset@);
                Ok(Executable { bytes, extension: None })
            },
        }
    }
    /// A self-contained `.pyz` asset is installed as it is, whatever the platform, and its
    /// destination takes the `.pyz` suffix.
    pub proof fn lemma_pyz_installed_verbatim(self, path: Seq<char>, asset: Seq<u8>)
        requires
            classify(path) == Some(Extension::Pyz),
        ensures
            self.extract_spec(path, asset) == Ok::<(Seq<u8>, Option<Extension>), InstallError>((asset, Some(Extension::Pyz))),
    {
    }

    /// A bare compressed stream is decoded whole: no member is looked for, so no missing
    /// match can be reported.
    pub proof fn lemma_bare_stream_skips_matching(self, path: Seq<char>, asset: Seq<u8>)
        requires
            classify(path) matches Some(e) && (e == Extension::Bz || e == Extension::Bz2
                || e == Extension::Gz || e == Extension::Xz),
        ensures
            self.extract_spec(path, asset) != Err::<(Seq<u8>, Option<Extension>), InstallError>(InstallError::NoMatchingEntry),
            self.extract_spec(path, asset) == match decoded(asset, compression_of(classify(path)->0)->0) {
                None => Err(InstallError::CorruptStream),
                Some(data) => Ok((data, None::<Extension>)),
            },
    {
    }
}

} // verus!
