use vstd::prelude::*;

verus! {

/// The compression wrapped around a stream.
#[derive(Clone, Copy, Debug, PartialEq, Eq, Structural)]
pub enum Compression {
    Plain,
    Bzip2,
    Gzip,
    Xz,
}

/// One member of an archive as its listing shows it.
#[derive(Clone, Debug)]
pub struct ArchiveEntry {
    /// The member's path inside the archive; `None` where it is not valid text.
    pub path: Option<String>,
    /// The member is a regular file.
    pub is_file: bool,
    /// The Unix permission bits the archive records, where it records and can read them.
    pub mode: Option<u32>,
}

/// The plain values of an entry: its path, whether it is a file, its mode.
pub type EntryView = (Option<Seq<char>>, bool, Option<u32>);

/// The plain values an entry holds.
pub open spec fn entry_view(e: ArchiveEntry) -> EntryView {
    (
        match e.path {
            Some(p) => Some(p@),
            None => None,
        },
        e.is_file,
        e.mode,
    )
}

/// The plain values a listing holds.
pub open spec fn listing_view(v: Seq<ArchiveEntry>) -> Seq<EntryView> {
    v.map_values(|e: ArchiveEntry| entry_view(e))
}

/// One header of a tar stream as the raw walk shows it.
#[derive(Clone, Debug)]
pub struct RawMember {
    /// The header's type byte.
    pub kind: u8,
    /// The data the header carries.
    pub data: Vec<u8>,
}

/// The plain values of a raw walk.
pub open spec fn opt_raw(r: Option<Vec<RawMember>>) -> Option<Seq<(u8, Seq<u8>)>> {
    match r {
        Some(v) => Some(v@.map_values(|m: RawMember| (m.kind, m.data@))),
        None => None,
    }
}

/// The bytes an optional buffer holds.
pub open spec fn opt_bytes(r: Option<Vec<u8>>) -> Option<Seq<u8>> {
    match r {
        Some(v) => Some(v@),
        None => None,
    }
}

/// The plain values of a listing and whether it is complete.
pub open spec fn listing_result(r: (Vec<ArchiveEntry>, bool)) -> (Seq<EntryView>, bool) {
    (listing_view(r.0@), r.1)
}

/// What a bzip2 decoder yields for a stream: its content, or `None` where the stream is corrupt.
pub uninterp spec fn bunzip_of(b: Seq<u8>) -> Option<Seq<u8>>;

/// What a gzip decoder yields for a stream: its content, or `None` where the stream is corrupt.
pub uninterp spec fn gunzip_of(b: Seq<u8>) -> Option<Seq<u8>>;

/// What an xz decoder yields for a stream: its content, or `None` where the stream is corrupt.
pub uninterp spec fn unxz_of(b: Seq<u8>) -> Option<Seq<u8>>;

/// The members a tar archive lists, in stored order, up to the first that cannot be read;
/// and whether the listing reached the archive's end.
pub uninterp spec fn tar_listing_of(b: Seq<u8>) -> (Seq<EntryView>, bool);

/// Every header of a tar stream, walked raw (no long names, extensions or sparse maps applied),
/// each with its type byte and the data it carries; `None` where the walk fails.
pub uninterp spec fn tar_raw_of(b: Seq<u8>) -> Option<Seq<(u8, Seq<u8>)>>;

/// The content of the tar member at an index, or `None` where it cannot be read.
pub uninterp spec fn tar_member_of(b: Seq<u8>, index: int) -> Option<Seq<u8>>;

/// The members a zip archive lists, in stored order, up to the first that cannot be read;
/// and whether the listing reached the archive's end.
pub uninterp spec fn zip_listing_of(b: Seq<u8>) -> (Seq<EntryView>, bool);

/// The content of the zip member at an index, or `None` where it cannot be read.
pub uninterp spec fn zip_member_of(b: Seq<u8>, index: int) -> Option<Seq<u8>>;

/// Relies on `bzip2::read::BzDecoder`: read to its end, it yields the decompressed stream.
#[verifier::external_body]
pub(crate) fn bunzip(b: &Vec<u8>) -> (r: Option<Vec<u8>>)
    ensures
        opt_bytes(r) == bunzip_of(b@),
{
    let mut out = Vec::new();
    std::io::Read::read_to_end(&mut bzip2::read::BzDecoder::new(b.as_slice()), &mut out).ok()?;
    Some(out)
}

/// Relies on `flate2::read::GzDecoder`: read to its end, it yields the decompressed stream.
#[verifier::external_body]
pub(crate) fn gunzip(b: &Vec<u8>) -> (r: Option<Vec<u8>>)
    ensures
        opt_bytes(r) == gunzip_of(b@),
{
    let mut out = Vec::new();
    std::io::Read::read_to_end(&mut flate2::read::GzDecoder::new(b.as_slice()), &mut out).ok()?;
    Some(out)
}

/// Relies on `xz2::read::XzDecoder`: read to its end, it yields the decompressed stream.
#[verifier::external_body]
pub(crate) fn unxz(b: &Vec<u8>) -> (r: Option<Vec<u8>>)
    ensures
        opt_bytes(r) == unxz_of(b@),
{
    let mut out = Vec::new();
    std::io::Read::read_to_end(&mut xz2::read::XzDecoder::new(b.as_slice()), &mut out).ok()?;
    Some(out)
}

/// Relies on `binstall_tar::Entries::raw`: a raw walk applies no sparse map, long name or
/// extension, advances by checked arithmetic, and gives each header with its data.
#[verifier::external_body]
pub(crate) fn tar_raw_members(b: &Vec<u8>) -> (r: Option<Vec<RawMember>>)
    ensures
        opt_raw(r) == tar_raw_of(b@),
{
    let mut arch = binstall_tar::Archive::new(b.as_slice());
    let mut out = Vec::new();
    for e in arch.entries().ok()?.raw(true) {
        let mut e = e.ok()?;
        let kind = e.header().entry_type().as_byte();
        let mut data = Vec::new();
        std::io::Read::read_to_end(&mut e, &mut data).ok()?;
        out.push(RawMember { kind, data });
    }
    Some(out)
}

/// Relies on `binstall_tar::Archive::entries`: the members in stored order, each with its
/// path (`None` where it is not valid text), whether its header marks a regular file, and the
/// header's mode where it can be read. The walk stops at the first header or path that cannot
/// be read, and the flag says whether it reached the end instead. The
/// walk panics on some malformed sparse members (unchecked arithmetic in
/// `parse_sparse_header`): `requires` leaves out every stream with a sparse member, and every
/// stream where a PAX `size` record could make this walk differ from the raw one.
#[verifier::external_body]
pub(crate) fn tar_listing(b: &Vec<u8>) -> (r: (Vec<ArchiveEntry>, bool))
    requires
        parser_safe(b@),
    ensures
        listing_result(r) == tar_listing_of(b@),
{
    let mut arch = binstall_tar::Archive::new(b.as_slice());
    let mut out = Vec::new();
    let Ok(entries) = arch.entries() else { return (out, false) };
    for e in entries {
        let Ok(e) = e else { return (out, false) };
        let Ok(p) = e.path() else { return (out, false) };
        let h = e.header();
        out.push(ArchiveEntry { path: p.to_str().map(String::from), is_file: h.entry_type().is_file(), mode: h.mode().ok() });
    }
    (out, true)
}

/// Relies on `binstall_tar::Archive::entries`: the content of the member at `index`. The same
/// walk as `tar_listing`, so the same streams are left out.
#[verifier::external_body]
pub(crate) fn tar_member(b: &Vec<u8>, index: usize) -> (r: Option<Vec<u8>>)
    requires
        parser_safe(b@),
    ensures
        opt_bytes(r) == tar_member_of(b@, index as int),
{
    let mut arch = binstall_tar::Archive::new(b.as_slice());
    let mut e = arch.entries().ok()?.nth(index)?.ok()?;
    let mut out = Vec::new();
    std::io::Read::read_to_end(&mut e, &mut out).ok()?;
    Some(out)
}

/// Relies on `zip::ZipArchive::by_index`: the members in stored order, each with its name,
/// whether it is a file, and the Unix mode it records. The walk stops at the first member
/// that cannot be opened, and the flag says whether it reached the end instead.
#[verifier::external_body]
pub(crate) fn zip_listing(b: &Vec<u8>) -> (r: (Vec<ArchiveEntry>, bool))
    ensures
        listing_result(r) == zip_listing_of(b@),
{
    let mut out = Vec::new();
    let Ok(mut zip) = zip::ZipArchive::new(std::io::Cursor::new(b.as_slice())) else { return (out, false) };
    for i in 0..zip.len() {
        let Ok(zf) = zip.by_index(i) else { return (out, false) };
        out.push(ArchiveEntry { path: Some(zf.name().to_string()), is_file: zf.is_file(), mode: zf.unix_mode() });
    }
    (out, true)
}

/// Relies on `zip::ZipArchive::by_index`: the content of the member at `index`.
#[verifier::external_body]
pub(crate) fn zip_member(b: &Vec<u8>, index: usize) -> (r: Option<Vec<u8>>)
    ensures
        opt_bytes(r) == zip_member_of(b@, index as int),
{
    let mut zip = zip::ZipArchive::new(std::io::Cursor::new(b.as_slice())).ok()?;
    let mut zf = zip.by_index(index).ok()?;
    let mut out = Vec::new();
    std::io::Read::read_to_end(&mut zf, &mut out).ok()?;
    Some(out)
}

/// The PAX record key that marks a sparse tar member: `GNU.sparse.major`.
pub open spec fn pax_sparse_key() -> Seq<u8> {
    seq![71u8, 78, 85, 46, 115, 112, 97, 114, 115, 101, 46, 109, 97, 106, 111, 114]
}

/// The start of a PAX `size` record, which overrides the size a header gives: ` size=`.
pub open spec fn pax_size_key() -> Seq<u8> {
    seq![32u8, 115, 105, 122, 101, 61]
}

/// A raw tar member the parser mishandles, or whose size it may read otherwise than the raw
/// walk does: a GNU sparse member (type `S`), or a PAX extension header (type `x`) that
/// holds the sparse key or a `size` record.
pub open spec fn member_unsafe(m: (u8, Seq<u8>)) -> bool {
    m.0 == 83u8 || (m.0 == 120u8 && (contains_bytes(m.1, pax_sparse_key()) || contains_bytes(
        m.1,
        pax_size_key(),
    )))
}

/// The tar parser can walk the stream: its raw walk succeeds and meets no member it
/// mishandles.
pub open spec fn parser_safe(b: Seq<u8>) -> bool {
    tar_raw_of(b) is Some && raw_safe(tar_raw_of(b)->0)
}

/// No member of a raw walk is one the parser mishandles.
pub open spec fn raw_safe(ms: Seq<(u8, Seq<u8>)>) -> bool {
    forall|i: int| 0 <= i < ms.len() ==> !member_unsafe(#[trigger] ms[i])
}

/// `key` occurs in `s` at `i`.
pub open spec fn occurs_at(s: Seq<u8>, key: Seq<u8>, i: int) -> bool {
    0 <= i && i + key.len() <= s.len() && s.subrange(i, i + key.len()) == key
}

/// `key` occurs somewhere in `s`.
pub open spec fn contains_bytes(s: Seq<u8>, key: Seq<u8>) -> bool {
    exists|i: int| occurs_at(s, key, i)
}

/// `key` occurs somewhere in `data`.
pub fn contains_key(data: &Vec<u8>, key: &Vec<u8>) -> (r: bool)
    ensures
        r == contains_bytes(data@, key@),
{
    let k = key.len();
    if data.len() < k {
        proof {
            assert forall|i: int| !occurs_at(data@, key@, i) by {}
        }
        return false;
    }
    let mut i: usize = 0;
    while i <= data.len() - k
        invariant
            k == key@.len(),
            k <= data@.len(),
            i <= data@.len() - k + 1,
            forall|p: int| 0 <= p < i ==> !occurs_at(data@, key@, p),
        decreases data.len() - k + 1 - i,
    {
        let mut j: usize = 0;
        let mut matched = true;
        while j < k
            invariant
                k == key@.len(),
                i + k <= data.len(),
                j <= k,
                matched == forall|q: int| 0 <= q < j ==> data@[i + q] == key@[q],
            decreases k - j,
        {
            if data[i + j] != key[j] {
                matched = false;
            }
            j = j + 1;
        }
        if matched {
            assert(data@.subrange(i as int, i + k) =~= key@);
            assert(occurs_at(data@, key@, i as int));
            return true;
        }
        proof {
            if occurs_at(data@, key@, i as int) {
                assert forall|q: int| 0 <= q < k implies data@[i + q] == key@[q] by {
                    assert(data@.subrange(i as int, i + k)[q] == data@[i + q]);
                }
            }
        }
        i = i + 1;
    }
    proof {
        assert forall|p: int| !occurs_at(data@, key@, p) by {
            if 0 <= p && p + k <= data@.len() {
                assert(p < i);
            }
        }
    }
    false
}

/// Whether the tar parser can walk the stream.
pub fn tar_parser_safe(data: &Vec<u8>) -> (r: bool)
    ensures
        r == parser_safe(data@),
{
    let members = match tar_raw_members(data) {
        Some(m) => m,
        None => return false,
    };
    let ghost ms = tar_raw_of(data@)->0;
    let sparse: Vec<u8> = vec![71u8, 78, 85, 46, 115, 112, 97, 114, 115, 101, 46, 109, 97, 106, 111, 114];
    let size: Vec<u8> = vec![32u8, 115, 105, 122, 101, 61];
    assert(sparse@ =~= pax_sparse_key());
    assert(size@ =~= pax_size_key());
    let mut i: usize = 0;
    while i < members.len()
        invariant
            ms == members@.map_values(|m: RawMember| (m.kind, m.data@)),
            tar_raw_of(data@) == Some(ms),
            sparse@ == pax_sparse_key(),
            size@ == pax_size_key(),
            i <= members@.len(),
            forall|j: int| 0 <= j < i ==> !member_unsafe(#[trigger] ms[j]),
        decreases members.len() - i,
    {
        let m = &members[i];
        assert(ms[i as int] == (m.kind, m.data@));
        if m.kind == 83u8 {
            assert(member_unsafe(ms[i as int]));
            return false;
        }
        if m.kind == 120u8 && (contains_key(&m.data, &sparse) || contains_key(&m.data, &size)) {
            assert(member_unsafe(ms[i as int]));
            return false;
        }
        i = i + 1;
    }
    true
}

/// A stream with the given compression removed.
pub open spec fn decoded(b: Seq<u8>, c: Compression) -> Option<Seq<u8>> {
    match c {
        Compression::Plain => Some(b),
        Compression::Bzip2 => bunzip_of(b),
        Compression::Gzip => gunzip_of(b),
        Compression::Xz => unxz_of(b),
    }
}

/// Removes the compression from a stream held in memory; `None` where it is corrupt.
pub fn decode(data: &Vec<u8>, compression: Compression) -> (r: Option<Vec<u8>>)
    ensures
        opt_bytes(r) == decoded(data@, compression),
{
    match compression {
        Compression::Plain => {
            let r = data.clone();
            assert(r@ =~= data@);
            Some(r)
        },
        Compression::Bzip2 => bunzip(data),
        Compression::Gzip => gunzip(data),
        Compression::Xz => unxz(data),
    }
}

} // verus!
