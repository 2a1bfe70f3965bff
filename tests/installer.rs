use std::io::Write;
use ubi::archive::{ArchiveInstaller, ArchiveKind, RootEntry};
use ubi::codec::{ArchiveEntry, Compression};
use ubi::error::InstallError;
use ubi::format::Extension;
use ubi::installer::{tar_reader_for, Executable};
use ubi::matcher::ExeInstaller;

fn tarball(members: &[(&str, u32, &[u8])]) -> Vec<u8> {
    let mut builder = binstall_tar::Builder::new(Vec::new());
    for (path, mode, data) in members {
        let mut header = binstall_tar::Header::new_gnu();
        header.set_size(data.len() as u64);
        header.set_mode(*mode);
        header.set_cksum();
        builder.append_data(&mut header, path, *data).unwrap();
    }
    builder.into_inner().unwrap()
}

fn gzip(data: &[u8]) -> Vec<u8> {
    let mut enc = flate2::write::GzEncoder::new(Vec::new(), flate2::Compression::default());
    enc.write_all(data).unwrap();
    enc.finish().unwrap()
}

fn bzip(data: &[u8]) -> Vec<u8> {
    let mut enc = bzip2::write::BzEncoder::new(Vec::new(), bzip2::Compression::default());
    enc.write_all(data).unwrap();
    enc.finish().unwrap()
}

fn xz(data: &[u8]) -> Vec<u8> {
    let mut enc = xz2::write::XzEncoder::new(Vec::new(), 6);
    enc.write_all(data).unwrap();
    enc.finish().unwrap()
}

fn zip_archive(members: &[(&str, &[u8])]) -> Vec<u8> {
    let mut w = zip::ZipWriter::new(std::io::Cursor::new(Vec::new()));
    for (name, data) in members {
        w.start_file(*name, zip::write::SimpleFileOptions::default()).unwrap();
        w.write_all(data).unwrap();
    }
    w.finish().unwrap().into_inner()
}

fn entry(path: &str, is_file: bool, mode: Option<u32>) -> ArchiveEntry {
    ArchiveEntry { path: Some(path.to_string()), is_file, mode }
}

fn root(name: &str, is_file: bool) -> RootEntry {
    RootEntry { name: name.to_string(), is_file }
}

fn install(stem: &str, is_windows: bool, path: &str, asset: &[u8]) -> Result<Executable, InstallError> {
    ExeInstaller::new(stem.to_string(), is_windows).extract_executable(path, &asset.to_vec())
}

// The archive `project-with-one-file.tar.gz` holds the single file `project` at its root. The
// library decides how it is unpacked and whether the unpacked root is flattened; writing the
// tree is the application's file-system work, so the root is given as the directory listing
// that unpacking leaves.
#[test]
fn archive_installer_one_file_in_archive_root() {
    for install_root in ["tmp/project", "tmp/subdir/project"] {
        let installer = ArchiveInstaller::new(install_root.to_string());
        assert_eq!(
            installer.extract_entire_archive("test-data/project-with-one-file.tar.gz"),
            Ok(ArchiveKind::Tarball(Compression::Gzip))
        );
        assert_eq!(installer.should_move_up_one_dir(&vec![root("project", true)]), Ok(false));
    }
}

// The archive `no-shared-root.tar.gz` holds `bin/project` and `README.md`: its unpacked root
// lists the directory `bin` and the file `README.md`, in either order.
#[test]
fn archive_installer_no_root_path() {
    for install_root in ["tmp/project", "tmp/subdir/project"] {
        let installer = ArchiveInstaller::new(install_root.to_string());
        assert_eq!(
            installer.extract_entire_archive("test-data/no-shared-root.tar.gz"),
            Ok(ArchiveKind::Tarball(Compression::Gzip))
        );
        let children = vec![root("bin", false), root("README.md", true)];
        assert_eq!(installer.should_move_up_one_dir(&children), Ok(false));
        let children = vec![root("README.md", true), root("bin", false)];
        assert_eq!(installer.should_move_up_one_dir(&children), Ok(false));
    }
}

#[test]
fn classifies_every_suffix() {
    let table = [
        ("project.AppImage", Some(Extension::AppImage)),
        ("project.bat", Some(Extension::Bat)),
        ("project.bz", Some(Extension::Bz)),
        ("project.bz2", Some(Extension::Bz2)),
        ("project.exe", Some(Extension::Exe)),
        ("project.gz", Some(Extension::Gz)),
        ("project.pyz", Some(Extension::Pyz)),
        ("project.tar", Some(Extension::Tar)),
        ("project.tar.bz", Some(Extension::TarBz)),
        ("project.tar.bz2", Some(Extension::TarBz2)),
        ("project.tar.gz", Some(Extension::TarGz)),
        ("project.tar.xz", Some(Extension::TarXz)),
        ("project.tbz", Some(Extension::Tbz)),
        ("project.tbz2", Some(Extension::Tbz2)),
        ("project.tgz", Some(Extension::Tgz)),
        ("project.txz", Some(Extension::Txz)),
        ("project.xz", Some(Extension::Xz)),
        ("project.zip", Some(Extension::Zip)),
        ("project", None),
        ("project.1", None),
        ("project.TAR.GZ", None),
    ];
    for (name, want) in table {
        assert_eq!(Extension::from_path(name), want, "{name}");
        assert_eq!(Extension::from_path(name), Extension::from_path(name));
    }
}

#[test]
fn compound_suffix_is_not_its_tail() {
    assert_eq!(Extension::from_path("dir/project-1.0.tar.gz"), Some(Extension::TarGz));
    assert_ne!(Extension::from_path("dir/project-1.0.tar.gz"), Some(Extension::Gz));
    assert_eq!(Extension::from_path("x.tar.bz2"), Some(Extension::TarBz2));
}

#[test]
fn suffix_texts() {
    assert_eq!(Extension::TarGz.extension(), ".tar.gz");
    assert_eq!(Extension::TarGz.extension_without_dot(), "tar.gz");
    assert_eq!(Extension::AppImage.extension_without_dot(), "AppImage");
    assert_eq!(Extension::all().len(), 18);
    let windows: Vec<Extension> = Extension::all().into_iter().filter(|e| e.is_windows_only()).collect();
    assert_eq!(windows, vec![Extension::Bat, Extension::Exe]);
    assert!(Extension::Pyz.should_preserve_extension_on_install());
    assert!(!Extension::Zip.should_preserve_extension_on_install());
}

#[test]
fn windows_matcher_lists_windows_suffixes() {
    assert_eq!(ExeInstaller::new("project".to_string(), true).extensions, vec![Extension::Bat, Extension::Exe]);
    assert!(ExeInstaller::new("project".to_string(), false).extensions.is_empty());
}

#[test]
fn exact_and_partial_names() {
    let unix = ExeInstaller::new("project".to_string(), false);
    assert!(unix.archive_member_is_exact_match("project"));
    assert!(!unix.archive_member_is_exact_match("project.exe"));
    assert!(unix.archive_member_is_partial_match("project-with-stuff"));
    assert!(!unix.archive_member_is_partial_match("Project"));

    let win = ExeInstaller::new("Project".to_string(), true);
    assert!(win.archive_member_is_exact_match("project.exe"));
    assert!(win.archive_member_is_exact_match("project.bat"));
    assert!(win.archive_member_is_exact_match("Project.exe"));
    assert!(win.archive_member_is_exact_match("PROJECT.bat"));
    assert!(!win.archive_member_is_exact_match("project.EXE"));
    assert!(!win.archive_member_is_exact_match("project"));
    assert!(!win.archive_member_is_exact_match("projects.exe"));
    assert!(win.archive_member_is_partial_match("Project-with-stuff.EXE"));
    assert!(!win.archive_member_is_partial_match("Project-with-stuff"));
    assert!(!win.archive_member_is_partial_match("project-with-stuff.exe"));
}

#[test]
fn expected_name_patterns() {
    assert_eq!(ExeInstaller::new("project".to_string(), false).could_not_find_archive_matches_error(), "project*");
    assert_eq!(
        ExeInstaller::new("project".to_string(), true).could_not_find_archive_matches_error(),
        "project*.bat project*.exe"
    );
}

#[test]
fn exact_match_wins_over_earlier_partial() {
    let m = ExeInstaller::new("project".to_string(), false);
    let entries = vec![
        entry("dir/project-helper", true, Some(0o755)),
        entry("dir", false, Some(0o755)),
        entry("dir/project", true, Some(0o644)),
        entry("dir/project-other", true, Some(0o755)),
    ];
    assert_eq!(m.best_match_from_tarball(&entries), Some(2));
    assert_eq!(m.best_match_from_zip_archive(&entries), Some(2));
}

#[test]
fn unmarked_partial_match_is_passed_over() {
    let m = ExeInstaller::new("project".to_string(), false);
    let entries = vec![
        entry("project-docs", true, Some(0o644)),
        entry("project-bin", true, Some(0o755)),
    ];
    assert_eq!(m.best_match_from_tarball(&entries), Some(1));
    let only_unmarked = vec![entry("project-docs", true, Some(0o644)), entry("project-x", true, None)];
    assert_eq!(m.best_match_from_tarball(&only_unmarked), None);
    assert_eq!(m.best_match_from_zip_archive(&only_unmarked), Some(0));
}

#[test]
fn windows_ignores_modes() {
    let m = ExeInstaller::new("project".to_string(), true);
    let entries = vec![entry("project-docs.txt", true, Some(0o755)), entry("project-with-stuff.exe", true, Some(0))];
    assert_eq!(m.best_match_from_tarball(&entries), Some(1));
    let no_modes = vec![entry("project-docs.txt", true, None), entry("project-with-stuff.exe", true, None)];
    assert_eq!(m.best_match_from_tarball(&no_modes), Some(1));
}

#[test]
fn partial_match_found_alone() {
    let m = ExeInstaller::new("project".to_string(), false);
    let entries = vec![entry("project-with-stuff", true, Some(0o755))];
    assert_eq!(m.best_match_from_tarball(&entries), Some(0));
    let data = gzip(&tarball(&[("project-with-stuff", 0o755, b"foo")]));
    let got = install("project", false, "project-with-partial-match.tar.gz", &data).unwrap();
    assert_eq!(got.bytes, b"foo".to_vec());
}

#[test]
fn installs_member_of_each_tarball_kind() {
    let tar = tarball(&[("project-1.0/README.md", 0o644, b"readme"), ("project-1.0/bin/project", 0o755, b"foo")]);
    let cases = [
        ("project.tar", tar.clone()),
        ("project.tar.gz", gzip(&tar)),
        ("project.tgz", gzip(&tar)),
        ("project.tar.bz2", bzip(&tar)),
        ("project.tar.bz", bzip(&tar)),
        ("project.tar.xz", xz(&tar)),
    ];
    for (name, data) in cases {
        let got = install("project", false, name, &data).unwrap();
        assert_eq!(got.bytes, b"foo".to_vec(), "{name}");
        assert_eq!(got.extension, None);
    }
}

#[test]
fn windows_tarball_keeps_exe_suffix() {
    let data = gzip(&tarball(&[("project.exe", 0, b"foo")]));
    let got = install("project", true, "windows-project-exe.tar.gz", &data).unwrap();
    assert_eq!(got.bytes, b"foo".to_vec());
    assert_eq!(got.extension, Some(Extension::Exe));
}

#[test]
fn installs_member_of_zip() {
    let data = zip_archive(&[("README.md", b"readme"), ("bin/project.bat", b"foo")]);
    let got = install("project", true, "windows-project-bat.zip", &data).unwrap();
    assert_eq!(got.bytes, b"foo".to_vec());
    assert_eq!(got.extension, Some(Extension::Bat));
    let data = zip_archive(&[("project-with-stuff", b"bar")]);
    assert_eq!(install("project", false, "project.zip", &data).unwrap().bytes, b"bar".to_vec());
}

#[test]
fn pyz_is_copied_verbatim() {
    let asset = b"#!/usr/bin/env python3\nprint(1)\n".to_vec();
    for is_windows in [false, true] {
        let got = install("project", is_windows, "test-data/project.pyz", &asset).unwrap();
        assert_eq!(got.bytes.len(), asset.len());
        assert_eq!(got.bytes, asset);
        assert_eq!(got.extension, Some(Extension::Pyz));
    }
    assert_eq!(ExeInstaller::chmod_executable(true), Some(0o755));
    assert_eq!(ExeInstaller::chmod_executable(false), None);
}

#[test]
fn unknown_asset_is_copied() {
    let got = install("project", false, "test-data/project", b"abc").unwrap();
    assert_eq!(got.bytes, b"abc".to_vec());
    assert_eq!(got.extension, None);
    let got = install("project", false, "project.zst", b"abc").unwrap();
    assert_eq!(got.extension, None);
}

#[test]
fn bare_streams_are_decoded_without_matching() {
    let got = install("project", false, "project.gz", &gzip(b"foo")).unwrap();
    assert_eq!(got.bytes, b"foo".to_vec());
    assert_eq!(got.extension, None);
    assert_eq!(install("nothing-like-it", false, "project.bz2", &bzip(b"foo")).unwrap().bytes, b"foo".to_vec());
    assert_eq!(install("project", false, "project.xz", &xz(b"foo")).unwrap().bytes, b"foo".to_vec());
}

#[test]
fn missing_member_is_reported() {
    let data = gzip(&tarball(&[("other", 0o755, b"foo"), ("project-docs", 0o644, b"x")]));
    assert_eq!(install("project", false, "project.tar.gz", &data).unwrap_err(), InstallError::NoMatchingEntry);
}

#[test]
fn corrupt_inputs_are_reported() {
    assert_eq!(install("project", false, "project.gz", b"not gzip").unwrap_err(), InstallError::CorruptStream);
    assert_eq!(install("project", false, "project.tar.gz", b"not gzip").unwrap_err(), InstallError::CorruptStream);
    assert_eq!(install("project", false, "project.zip", b"not zip").unwrap_err(), InstallError::UnreadableArchive);
}

#[test]
fn archive_kinds() {
    let a = ArchiveInstaller::new("root".to_string());
    assert_eq!(a.extract_entire_archive("p.zip"), Ok(ArchiveKind::Zip));
    assert_eq!(a.extract_entire_archive("p.tar"), Ok(ArchiveKind::Tarball(Compression::Plain)));
    assert_eq!(a.extract_entire_archive("p.tbz2"), Ok(ArchiveKind::Tarball(Compression::Bzip2)));
    assert_eq!(a.extract_entire_archive("p.txz"), Ok(ArchiveKind::Tarball(Compression::Xz)));
    assert_eq!(a.extract_entire_archive("p.exe"), Err(InstallError::NotAnArchive));
    assert_eq!(a.extract_entire_archive("p"), Err(InstallError::NotAnArchive));
    assert_eq!(tar_reader_for("p.zip"), Err(InstallError::UnsupportedCompression));
    assert_eq!(tar_reader_for("p.tar.zst"), Err(InstallError::UnsupportedCompression));
    assert_eq!(tar_reader_for("dir/p"), Ok(Compression::Plain));
    assert_eq!(tar_reader_for("p.tbz2"), Ok(Compression::Bzip2));
    assert_eq!(tar_reader_for("p.tar.xz"), Ok(Compression::Xz));
    assert_eq!(a.extract_entire_tarball("x.tgz"), Ok(Compression::Gzip));
}

#[test]
fn single_top_directory_is_flattened() {
    let a = ArchiveInstaller::new("root".to_string());
    assert_eq!(a.should_move_up_one_dir(&vec![root("project-x86_64-linux", false)]), Ok(true));
    assert_eq!(a.should_move_up_one_dir(&vec![root("bin", false), root("share", false)]), Ok(false));
    assert_eq!(a.should_move_up_one_dir(&vec![]), Err(InstallError::EmptyArchive));
    assert_eq!(a.should_move_up_one_dir(&vec![root("", false)]), Err(InstallError::EmptyArchive));
}

fn typed_tarball(members: &[(&str, binstall_tar::EntryType, u32, &[u8])]) -> Vec<u8> {
    let mut builder = binstall_tar::Builder::new(Vec::new());
    for (path, kind, mode, data) in members {
        let mut header = binstall_tar::Header::new_gnu();
        header.set_entry_type(*kind);
        header.set_size(data.len() as u64);
        header.set_mode(*mode);
        header.set_cksum();
        builder.append_data(&mut header, path, *data).unwrap();
    }
    builder.into_inner().unwrap()
}

#[test]
fn sparse_key_in_member_data_is_installed() {
    let data = gzip(&tarball(&[("project", 0o755, b"GNU.sparse.major=1")]));
    let got = install("project", false, "project.tar.gz", &data).unwrap();
    assert_eq!(got.bytes, b"GNU.sparse.major=1".to_vec());
}

#[test]
fn pax_sparse_header_is_refused() {
    let regular = binstall_tar::EntryType::Regular;
    let pax = binstall_tar::EntryType::XHeader;
    let data = typed_tarball(&[
        ("PaxHeaders/project", pax, 0o644, b"22 GNU.sparse.major=1\n"),
        ("project", regular, 0o755, b"foo"),
    ]);
    assert_eq!(install("project", false, "project.tar", &data).unwrap_err(), InstallError::UnreadableArchive);
    let data = typed_tarball(&[
        ("PaxHeaders/project", pax, 0o644, b"12 size=100\n"),
        ("project", regular, 0o755, b"foo"),
    ]);
    assert_eq!(install("project", false, "project.tar", &data).unwrap_err(), InstallError::UnreadableArchive);
    let data = typed_tarball(&[
        ("PaxHeaders/project", pax, 0o644, b"16 path=project\n"),
        ("project", regular, 0o755, b"foo"),
    ]);
    assert_eq!(install("project", false, "project.tar", &data).unwrap().bytes, b"foo".to_vec());
}

#[test]
fn gnu_sparse_member_is_refused() {
    let data = typed_tarball(&[
        ("project", binstall_tar::EntryType::Regular, 0o755, b"foo"),
        ("other", binstall_tar::EntryType::GNUSparse, 0o644, b"bar"),
    ]);
    assert_eq!(install("project", false, "project.tar", &data).unwrap_err(), InstallError::UnreadableArchive);
}

#[test]
fn exact_match_wins_before_unreadable_member() {
    let mut data = zip_archive(&[("project", b"foo"), ("project-extra", b"bar")]);
    let second = data.windows(4).enumerate().filter(|(_, w)| *w == b"PK\x01\x02").nth(1).unwrap().0;
    data[second + 10] = 0xff;
    let got = install("project", false, "project.zip", &data).unwrap();
    assert_eq!(got.bytes, b"foo".to_vec());
    let mut data = zip_archive(&[("project-extra", b"bar"), ("project", b"foo")]);
    let second = data.windows(4).enumerate().filter(|(_, w)| *w == b"PK\x01\x02").nth(1).unwrap().0;
    data[second + 10] = 0xff;
    assert_eq!(install("project", false, "project.zip", &data).unwrap_err(), InstallError::UnreadableArchive);
}

#[test]
fn windows_exact_match_ignores_stem_case() {
    let data = zip_archive(&[("Project.EXE.txt", b"no"), ("PROJECT.exe", b"foo")]);
    let got = install("project", true, "windows-project-exe.zip", &data).unwrap();
    assert_eq!(got.bytes, b"foo".to_vec());
    assert_eq!(got.extension, Some(Extension::Exe));
}
