use vstd::prelude::*;

verus! {

/// The container or compression kind of an asset, named by its file-name suffix.
#[derive(Clone, Copy, Debug, PartialEq, Eq, Structural)]
pub enum Extension {
    AppImage,
    Bat,
    Bz,
    Bz2,
    Exe,
    Gz,
    Pyz,
    Tar,
    TarBz,
    TarBz2,
    TarGz,
    TarXz,
    Tbz,
    Tbz2,
    Tgz,
    Txz,
    Xz,
    Zip,
}

/// Every kind, in declaration order.
pub open spec fn all_extensions() -> Seq<Extension> {
    seq![
        Extension::AppImage, Extension::Bat, Extension::Bz, Extension::Bz2, Extension::Exe,
        Extension::Gz, Extension::Pyz, Extension::Tar, Extension::TarBz, Extension::TarBz2,
        Extension::TarGz, Extension::TarXz, Extension::Tbz, Extension::Tbz2, Extension::Tgz, Extension::Txz,
        Extension::Xz, Extension::Zip,
    ]
}

/// `suffix` ends `s`.
pub open spec fn has_suffix(s: Seq<char>, suffix: Seq<char>) -> bool {
    suffix.len() <= s.len() && s.subrange(s.len() - suffix.len(), s.len() as int) == suffix
}

/// `prefix` begins `s`.
pub open spec fn has_prefix(s: Seq<char>, prefix: Seq<char>) -> bool {
    prefix.len() <= s.len() && s.subrange(0, prefix.len() as int) == prefix
}

impl Extension {
    /// The suffix, with its leading dot.
    pub open spec fn suffix(self) -> Seq<char> {
        match self {
            Extension::AppImage => seq!['.', 'A', 'p', 'p', 'I', 'm', 'a', 'g', 'e'],
            Extension::Bat => seq!['.', 'b', 'a', 't'],
            Extension::Bz => seq!['.', 'b', 'z'],
            Extension::Bz2 => seq!['.', 'b', 'z', '2'],
            Extension::Exe => seq!['.', 'e', 'x', 'e'],
            Extension::Gz => seq!['.', 'g', 'z'],
            Extension::Pyz => seq!['.', 'p', 'y', 'z'],
            Extension::Tar => seq!['.', 't', 'a', 'r'],
            Extension::TarBz => seq!['.', 't', 'a', 'r', '.', 'b', 'z'],
            Extension::TarBz2 => seq!['.', 't', 'a', 'r', '.', 'b', 'z', '2'],
            Extension::TarGz => seq!['.', 't', 'a', 'r', '.', 'g', 'z'],
            Extension::TarXz => seq!['.', 't', 'a', 'r', '.', 'x', 'z'],
            Extension::Tbz => seq!['.', 't', 'b', 'z'],
            Extension::Tbz2 => seq!['.', 't', 'b', 'z', '2'],
            Extension::Tgz => seq!['.', 't', 'g', 'z'],
            Extension::Txz => seq!['.', 't', 'x', 'z'],
            Extension::Xz => seq!['.', 'x', 'z'],
            Extension::Zip => seq!['.', 'z', 'i', 'p'],
        }
    }

    /// Kinds that only make sense on Windows.
    pub open spec fn spec_is_windows_only(self) -> bool {
        self == Extension::Bat || self == Extension::Exe
    }

    /// Kinds whose suffix the installed file keeps.
    pub open spec fn spec_preserved(self) -> bool {
        self == Extension::AppImage || self == Extension::Bat || self == Extension::Exe
            || self == Extension::Pyz
    }

    /// The kind lists a tar archive, compressed or not.
    pub open spec fn spec_is_tarball(self) -> bool {
        self == Extension::Tar || self == Extension::TarBz || self == Extension::TarBz2
            || self == Extension::TarGz || self == Extension::TarXz || self == Extension::Tbz || self == Extension::Tbz2
            || self == Extension::Tgz || self == Extension::Txz
    }

    /// Every kind, in declaration order.
    pub fn all() -> (r: Vec<Extension>)
        ensures
            r@ == all_extensions(),
    {
        let r = vec![
            Extension::AppImage, Extension::Bat, Extension::Bz, Extension::Bz2, Extension::Exe,
            Extension::Gz, Extension::Pyz, Extension::Tar, Extension::TarBz, Extension::TarBz2,
            Extension::TarGz, Extension::TarXz, Extension::Tbz, Extension::Tbz2, Extension::Tgz, Extension::Txz,
            Extension::Xz, Extension::Zip,
        ];
        assert(r@ =~= all_extensions());
        r
    }

    /// The suffix, with its leading dot.
    pub fn extension(&self) -> (r: &'static str)
        ensures
            r@ == self.suffix(),
    {
        match self {
            Extension::AppImage => {
                proof { reveal_strlit(".AppImage"); }
                let r = ".AppImage";
                assert(r@ =~= self.suffix());
                r
            },
            Extension::Bat => {
                proof { reveal_strlit(".bat"); }
                let r = ".bat";
                assert(r@ =~= self.suffix());
                r
            },
            Extension::Bz => {
                proof { reveal_strlit(".bz"); }
                let r = ".bz";
                assert(r@ =~= self.suffix());
                r
            },
            Extension::Bz2 => {
                proof { reveal_strlit(".bz2"); }
                let r = ".bz2";
                assert(r@ =~= self.suffix());
                r
            },
            Extension::Exe => {
                proof { reveal_strlit(".exe"); }
                let r = ".exe";
                assert(r@ =~= self.suffix());
                r
            },
            Extension::Gz => {
                proof { reveal_strlit(".gz"); }
                let r = ".gz";
                assert(r@ =~= self.suffix());
                r
            },
            Extension::Pyz => {
                proof { reveal_strlit(".pyz"); }
                let r = ".pyz";
                assert(r@ =~= self.suffix());
                r
            },
            Extension::Tar => {
                proof { reveal_strlit(".tar"); }
                let r = ".tar";
                assert(r@ =~= self.suffix());
                r
            },
            Extension::TarBz => {
                proof { reveal_strlit(".tar.bz"); }
                let r = ".tar.bz";
                assert(r@ =~= self.suffix());
                r
            },
            Extension::TarBz2 => {
                proof { reveal_strlit(".tar.bz2"); }
                let r = ".tar.bz2";
                assert(r@ =~= self.suffix());
                r
            },
            Extension::TarGz => {
                proof { reveal_strlit(".tar.gz"); }
                let r = ".tar.gz";
                assert(r@ =~= self.suffix());
                r
            },
            Extension::TarXz => {
                proof { reveal_strlit(".tar.xz"); }
                let r = ".tar.xz";
                assert(r@ =~= self.suffix());
                r
            },
            Extension::Tbz => {
                proof { reveal_strlit(".tbz"); }
                let r = ".tbz";
                assert(r@ =~= self.suffix());
                r
            },
            Extension::Tbz2 => {
                proof { reveal_strlit(".tbz2"); }
                let r = ".tbz2";
                assert(r@ =~= self.suffix());
                r
            },
            Extension::Tgz => {
                proof { reveal_strlit(".tgz"); }
                let r = ".tgz";
                assert(r@ =~= self.suffix());
                r
            },
            Extension::Txz => {
                proof { reveal_strlit(".txz"); }
                let r = ".txz";
                assert(r@ =~= self.suffix());
                r
            },
            Extension::Xz => {
                proof { reveal_strlit(".xz"); }
                let r = ".xz";
                assert(r@ =~= self.suffix());
                r
            },
            Extension::Zip => {
                proof { reveal_strlit(".zip"); }
                let r = ".zip";
                assert(r@ =~= self.suffix());
                r
            },
        }
    }

    /// The suffix without its leading dot, as a path's extension is written.
    pub fn extension_without_dot(&self) -> (r: &'static str)
        ensures
            r@ == self.suffix().drop_first(),
    {
        match self {
            Extension::AppImage => {
                proof { reveal_strlit("AppImage"); }
                let r = "AppImage";
                assert(r@ =~= self.suffix().drop_first());
                r
            },
            Extension::Bat => {
                proof { reveal_strlit("bat"); }
                let r = "bat";
                assert(r@ =~= self.suffix().drop_first());
                r
            },
            Extension::Bz => {
                proof { reveal_strlit("bz"); }
                let r = "bz";
                assert(r@ =~= self.suffix().drop_first());
                r
            },
            Extension::Bz2 => {
                proof { reveal_strlit("bz2"); }
                let r = "bz2";
                assert(r@ =~= self.suffix().drop_first());
                r
            },
            Extension::Exe => {
                proof { reveal_strlit("exe"); }
                let r = "exe";
                assert(r@ =~= self.suffix().drop_first());
                r
            },
            Extension::Gz => {
                proof { reveal_strlit("gz"); }
                let r = "gz";
                assert(r@ =~= self.suffix().drop_first());
                r
            },
            Extension::Pyz => {
                proof { reveal_strlit("pyz"); }
                let r = "pyz";
                assert(r@ =~= self.suffix().drop_first());
                r
            },
            Extension::Tar => {
                proof { reveal_strlit("tar"); }
                let r = "tar";
                assert(r@ =~= self.suffix().drop_first());
                r
            },
            Extension::TarBz => {
                proof { reveal_strlit("tar.bz"); }
                let r = "tar.bz";
                assert(r@ =~= self.suffix().drop_first());
                r
            },
            Extension::TarBz2 => {
                proof { reveal_strlit("tar.bz2"); }
                let r = "tar.bz2";
                assert(r@ =~= self.suffix().drop_first());
                r
            },
            Extension::TarGz => {
                proof { reveal_strlit("tar.gz"); }
                let r = "tar.gz";
                assert(r@ =~= self.suffix().drop_first());
                r
            },
            Extension::TarXz => {
                proof { reveal_strlit("tar.xz"); }
                let r = "tar.xz";
                assert(r@ =~= self.suffix().drop_first());
                r
            },
            Extension::Tbz => {
                proof { reveal_strlit("tbz"); }
                let r = "tbz";
                assert(r@ =~= self.suffix().drop_first());
                r
            },
            Extension::Tbz2 => {
                proof { reveal_strlit("tbz2"); }
                let r = "tbz2";
                assert(r@ =~= self.suffix().drop_first());
                r
            },
            Extension::Tgz => {
                proof { reveal_strlit("tgz"); }
                let r = "tgz";
                assert(r@ =~= self.suffix().drop_first());
                r
            },
            Extension::Txz => {
                proof { reveal_strlit("txz"); }
                let r = "txz";
                assert(r@ =~= self.suffix().drop_first());
                r
            },
            Extension::Xz => {
                proof { reveal_strlit("xz"); }
                let r = "xz";
                assert(r@ =~= self.suffix().drop_first());
                r
            },
            Extension::Zip => {
                proof { reveal_strlit("zip"); }
                let r = "zip";
                assert(r@ =~= self.suffix().drop_first());
                r
            },
        }
    }

    /// Only meaningful on Windows: `.bat` and `.exe`.
    pub fn is_windows_only(&self) -> (r: bool)
        ensures
            r == self.spec_is_windows_only(),
    {
        matches!(self, Extension::Bat | Extension::Exe)
    }

    /// An installed executable keeps this suffix: `.AppImage`, `.bat`, `.exe`, `.pyz`.
    pub fn should_preserve_extension_on_install(&self) -> (r: bool)
        ensures
            r == self.spec_preserved(),
    {
        matches!(self, Extension::AppImage | Extension::Bat | Extension::Exe | Extension::Pyz)
    }

    /// The kind lists a tar archive, compressed or not.
    pub fn is_tarball(&self) -> (r: bool)
        ensures
            r == self.spec_is_tarball(),
    {
        matches!(
            self,
            Extension::Tar | Extension::TarBz | Extension::TarBz2 | Extension::TarGz
                | Extension::TarXz | Extension::Tbz | Extension::Tbz2 | Extension::Tgz | Extension::Txz
        )
    }

    /// The position of the kind in `all_extensions`.
    pub open spec fn ordinal(self) -> int {
        match self {
            Extension::AppImage => 0,
            Extension::Bat => 1,
            Extension::Bz => 2,
            Extension::Bz2 => 3,
            Extension::Exe => 4,
            Extension::Gz => 5,
            Extension::Pyz => 6,
            Extension::Tar => 7,
            Extension::TarBz => 8,
            Extension::TarBz2 => 9,
            Extension::TarGz => 10,
            Extension::TarXz => 11,
            Extension::Tbz => 12,
            Extension::Tbz2 => 13,
            Extension::Tgz => 14,
            Extension::Txz => 15,
            Extension::Xz => 16,
            Extension::Zip => 17,
        }
    }

    /// The kind with the longest suffix that ends `path`, or `None` when no suffix does.
    pub fn from_path(path: &str) -> (r: Option<Extension>)
        ensures
            is_classification(path@, r),
            r == classify(path@),
    {
        let all = Extension::all();
        let mut best: Option<Extension> = None;
        let mut best_len: usize = 0;
        let mut i: usize = 0;
        while i < all.len()
            invariant
                all@ == all_extensions(),
                i <= all.len(),
                match best {
                    Some(e) => has_suffix(path@, e.suffix()) && best_len == e.suffix().len()
                        && forall|j: int| 0 <= j < i && has_suffix(path@, all@[j].suffix())
                            ==> all@[j].suffix().len() <= e.suffix().len(),
                    None => forall|j: int| 0 <= j < i ==> !has_suffix(path@, all@[j].suffix()),
                },
            decreases all.len() - i,
        {
            let e = all[i];
            let s = e.extension();
            let len = s.unicode_len();
            if ends_with(path, s) && (best.is_none() || len > best_len) {
                best = Some(e);
                best_len = len;
            }
            i = i + 1;
        }
        proof {
            assert forall|f: Extension| has_suffix(path@, f.suffix()) implies
                (match best { Some(e) => f.suffix().len() <= e.suffix().len(), None => false }) by {
                assert(all@[f.ordinal()] == f);
            }
            lemma_classification_unique(path@, best, classify(path@));
        }
        best
    }
}

/// `r` names the kind with the longest suffix that ends `name`; `None` when no suffix does.
pub open spec fn is_classification(name: Seq<char>, r: Option<Extension>) -> bool {
    match r {
        Some(e) => has_suffix(name, e.suffix()) && forall|f: Extension|
            has_suffix(name, f.suffix()) ==> f.suffix().len() <= e.suffix().len(),
        None => forall|f: Extension| !has_suffix(name, f.suffix()),
    }
}

/// The classification of a name.
pub open spec fn classify(name: Seq<char>) -> Option<Extension> {
    choose|r: Option<Extension>| is_classification(name, r)
}

/// No two kinds share a suffix.
pub proof fn lemma_suffix_injective(e1: Extension, e2: Extension)
    requires
        e1.suffix() == e2.suffix(),
    ensures
        e1 == e2,
{
    let (a, b) = (e1.suffix(), e2.suffix());
    assert(a.len() == b.len());
    assert(a[1] == b[1]);
    assert(a[2] == b[2]);
    if a.len() > 5 {
        assert(a[5] == b[5]);
    }
}

/// A name has one classification at most: the kind with the longest matching suffix is unique.
pub proof fn lemma_classification_unique(name: Seq<char>, r1: Option<Extension>, r2: Option<Extension>)
    requires
        is_classification(name, r1),
    ensures
        is_classification(name, r2) ==> r1 == r2,
        classify(name) == r1,
{
    if is_classification(name, r2) {
        match (r1, r2) {
            (Some(e1), Some(e2)) => {
                assert(e1.suffix() =~= e2.suffix());
                lemma_suffix_injective(e1, e2);
            },
            (Some(e1), None) => {},
            (None, Some(e2)) => {},
            (None, None) => {},
        }
    }
    let c = classify(name);
    assert(is_classification(name, c));
    match (r1, c) {
        (Some(e1), Some(e2)) => {
            assert(e1.suffix() =~= e2.suffix());
            lemma_suffix_injective(e1, e2);
        },
        _ => {},
    }
}

/// `suffix` ends `s`.
pub fn ends_with(s: &str, suffix: &str) -> (r: bool)
    ensures
        r == has_suffix(s@, suffix@),
{
    let n = s.unicode_len();
    let m = suffix.unicode_len();
    if m > n {
        return false;
    }
    let mut i: usize = 0;
    while i < m
        invariant
            n == s@.len(),
            m == suffix@.len(),
            m <= n,
            i <= m,
            forall|j: int| 0 <= j < i ==> s@[n - m + j] == suffix@[j],
        decreases m - i,
    {
        if s.get_char(n - m + i) != suffix.get_char(i) {
            assert(s@.subrange(n - m, n as int)[i as int] != suffix@[i as int]);
            return false;
        }
        i = i + 1;
    }
    assert(s@.subrange(n - m, n as int) =~= suffix@);
    true
}

/// `prefix` begins `s`.
pub fn starts_with(s: &str, prefix: &str) -> (r: bool)
    ensures
        r == has_prefix(s@, prefix@),
{
    let n = s.unicode_len();
    let m = prefix.unicode_len();
    if m > n {
        return false;
    }
    let mut i: usize = 0;
    while i < m
        invariant
            n == s@.len(),
            m == prefix@.len(),
            m <= n,
            i <= m,
            forall|j: int| 0 <= j < i ==> s@[j] == prefix@[j],
        decreases m - i,
    {
        if s.get_char(i) != prefix.get_char(i) {
            assert(s@.subrange(0, m as int)[i as int] != prefix@[i as int]);
            return false;
        }
        i = i + 1;
    }
    assert(s@.subrange(0, m as int) =~= prefix@);
    true
}

/// A name ending in a compound tarball suffix (`.tar.gz` and its kin) is classified by that
/// suffix, never by the shorter compression suffix it ends with.
pub proof fn lemma_compound_suffix_wins(name: Seq<char>, e: Extension)
    requires
        e == Extension::TarBz || e == Extension::TarBz2 || e == Extension::TarGz
            || e == Extension::TarXz,
        has_suffix(name, e.suffix()),
    ensures
        classify(name) == Some(e),
{
    let n = name.len();
    assert forall|f: Extension| has_suffix(name, f.suffix()) implies f.suffix().len() <= e.suffix().len() by {
        let k = f.suffix().len();
        if k > e.suffix().len() {
            assert(name.subrange(n - k, n as int)[k - 1] == name[n - 1]);
            assert(name.subrange(n - e.suffix().len(), n as int)[e.suffix().len() - 1] == name[n - 1]);
        }
    }
    lemma_classification_unique(name, Some(e), Some(e));
}
} // verus!
