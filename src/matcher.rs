use vstd::prelude::*;
use crate::codec::{entry_view, listing_view, ArchiveEntry, EntryView};
use crate::error::InstallError;
use crate::format::{has_prefix, has_suffix, Extension};
use crate::text::{file_name_of, lower_of};

verus! {

/// The Windows-only kinds, in declaration order.
pub open spec fn windows_extensions() -> Seq<Extension> {
    seq![Extension::Bat, Extension::Exe]
}

/// The permission bits that mark a file executable for someone.
pub const EXECUTABLE_BITS: u32 = 0o111;

/// The index of the first element from `from` on that satisfies `p`.
pub open spec fn first_where<T>(s: Seq<T>, p: spec_fn(T) -> bool, from: int) -> Option<int>
    decreases s.len() - from,
{
    if from < 0 || from >= s.len() {
        None
    } else if p(s[from]) {
        Some(from)
    } else {
        first_where(s, p, from + 1)
    }
}

/// What `first_where` finds: an element satisfying `p` with none before it, or none at all.
pub proof fn lemma_first_where<T>(s: Seq<T>, p: spec_fn(T) -> bool, from: int)
    requires
        0 <= from,
    ensures
        match first_where(s, p, from) {
            Some(i) => from <= i < s.len() && p(s[i]) && forall|j: int| from <= j < i ==> !p(s[j]),
            None => forall|j: int| from <= j < s.len() ==> !p(s[j]),
        },
    decreases s.len() - from,
{
    if from < s.len() && !p(s[from]) {
        lemma_first_where(s, p, from + 1);
    }
}

/// `i` is the first index satisfying `p`, so `first_where` finds it.
pub proof fn lemma_first_where_is<T>(s: Seq<T>, p: spec_fn(T) -> bool, i: int)
    requires
        0 <= i < s.len(),
        p(s[i]),
        forall|j: int| 0 <= j < i ==> !p(s[j]),
    ensures
        first_where(s, p, 0) == Some(i),
{
    lemma_first_where(s, p, 0);
    if let Some(k) = first_where(s, p, 0) {
        if k > i {
            assert(!p(s[i]));
        }
    }
}

/// The base name of an entry's path, where it has one.
pub open spec fn entry_base(e: EntryView) -> Option<Seq<char>> {
    match e.0 {
        Some(p) => file_name_of(p),
        None => None,
    }
}

/// The entry's recorded mode grants execution to someone.
pub open spec fn has_exec_bit(e: EntryView) -> bool {
    match e.2 {
        Some(m) => m & EXECUTABLE_BITS != 0,
        None => false,
    }
}

/// Picks the executable named by a stem out of an archive's members.
#[derive(Clone, Debug)]
pub struct ExeInstaller {
    pub exe_file_stem: String,
    pub is_windows: bool,
    /// The suffixes an executable carries on the target: the Windows-only kinds, or none.
    pub extensions: Vec<Extension>,
}

impl ExeInstaller {
    /// The suffix list agrees with the platform.
    pub open spec fn wf(self) -> bool {
        self.extensions@ == if self.is_windows { windows_extensions() } else { Seq::empty() }
    }

    /// `name` is the executable itself: the stem verbatim, or on Windows a name that ends in
    /// one of the Windows-only suffixes and whose part before it is the stem, ignoring case.
    pub open spec fn spec_exact(self, name: Seq<char>) -> bool {
        if self.extensions@.len() == 0 {
            name == self.exe_file_stem@
        } else {
            exists|k: int| 0 <= k < self.extensions@.len() && #[trigger] has_suffix(name, self.extensions@[k].suffix())
                && lower_of(name.subrange(0, name.len() - self.extensions@[k].suffix().len()))
                    == lower_of(self.exe_file_stem@)
        }
    }

    /// `name` begins with the stem and, on Windows, ends (ignoring case) in a Windows-only suffix.
    pub open spec fn spec_partial(self, name: Seq<char>) -> bool {
        has_prefix(name, self.exe_file_stem@) && (self.extensions@.len() == 0 || exists|k: int|
            0 <= k < self.extensions@.len() && has_suffix(lower_of(name), self.extensions@[k].suffix()))
    }

    /// A file entry whose base name is an exact match.
    pub open spec fn entry_is_exact(self, e: EntryView) -> bool {
        e.1 && entry_base(e) is Some && self.spec_exact(entry_base(e)->0)
    }

    /// A file entry whose base name is a partial match and which may be run: where the
    /// archive's modes count (`check_mode`) and the target is not Windows, its mode must
    /// grant execution.
    pub open spec fn entry_is_candidate(self, e: EntryView, check_mode: bool) -> bool {
        e.1 && entry_base(e) is Some && self.spec_partial(entry_base(e)->0)
            && (!check_mode || self.is_windows || has_exec_bit(e))
    }

    /// Holds of an exact match.
    pub open spec fn exact_pred(self) -> spec_fn(EntryView) -> bool {
        |e: EntryView| self.entry_is_exact(e)
    }

    /// Holds of a candidate for a partial match.
    pub open spec fn candidate_pred(self, check_mode: bool) -> spec_fn(EntryView) -> bool {
        |e: EntryView| self.entry_is_candidate(e, check_mode)
    }

    /// The entry to install: the first exact match, else the first candidate, else none.
    pub open spec fn best_match_spec(self, entries: Seq<EntryView>, check_mode: bool) -> Option<int> {
        match first_where(entries, self.exact_pred(), 0) {
            Some(i) => Some(i),
            None => first_where(entries, self.candidate_pred(check_mode), 0),
        }
    }

    /// The entry to install from a listing that may stop short of the archive's end: an exact
    /// match wins as soon as it is listed; anything else needs the whole listing, and a
    /// listing cut short is then unreadable.
    pub open spec fn pick_spec(self, entries: Seq<EntryView>, complete: bool, check_mode: bool) -> Result<int, InstallError> {
        match self.best_match_spec(entries, check_mode) {
            Some(i) => if self.entry_is_exact(entries[i]) || complete {
                Ok(i)
            } else {
                Err(InstallError::UnreadableArchive)
            },
            None => if complete {
                Err(InstallError::NoMatchingEntry)
            } else {
                Err(InstallError::UnreadableArchive)
            },
        }
    }

    /// One pattern of the names looked for: the stem, a wildcard, and the `k`th suffix.
    pub open spec fn pattern(self, k: int) -> Seq<char> {
        self.exe_file_stem@ + seq!['*'] + self.extensions@[k].suffix()
    }

    /// The first `n` patterns, separated by spaces.
    pub open spec fn patterns_upto(self, n: int) -> Seq<char>
        decreases n,
    {
        if n <= 0 {
            Seq::empty()
        } else if n == 1 {
            self.pattern(0)
        } else {
            self.patterns_upto(n - 1) + seq![' '] + self.pattern(n - 1)
        }
    }

    /// The names looked for, as a diagnostic shows them: `stem*`, or one `stem*suffix` per suffix.
    pub open spec fn expected_names(self) -> Seq<char> {
        if self.extensions@.len() == 0 {
            self.exe_file_stem@ + seq!['*']
        } else {
            self.patterns_upto(self.extensions@.len() as int)
        }
    }

    /// A matcher for `exe` on the given platform.
    pub fn new(exe: String, is_windows: bool) -> (r: ExeInstaller)
        ensures
            r.wf(),
            r.exe_file_stem == exe,
            r.is_windows == is_windows,
    {
        let mut extensions: Vec<Extension> = Vec::new();
        if is_windows {
            let all = Extension::all();
            let mut i: usize = 0;
            while i < all.len()
                invariant
                    all@ == crate::format::all_extensions(),
                    i <= all.len(),
                    extensions@ == if i <= 1 {
                        Seq::empty()
                    } else if i <= 4 {
                        seq![Extension::Bat]
                    } else {
                        windows_extensions()
                    },
                decreases all.len() - i,
            {
                if all[i].is_windows_only() {
                    extensions.push(all[i]);
                }
                i = i + 1;
            }
        }
        ExeInstaller { exe_file_stem: exe, is_windows, extensions }
    }

    /// `file_name` is an exact match for the executable.
    pub fn archive_member_is_exact_match(&self, file_name: &str) -> (r: bool)
        ensures
            r == self.spec_exact(file_name@),
    {
        if self.extensions.len() == 0 {
            return crate::text::same_text(file_name, self.exe_file_stem.as_str());
        }
        let lower_stem = crate::text::lowercase(self.exe_file_stem.as_str());
        let n = file_name.unicode_len();
        let mut k: usize = 0;
        while k < self.extensions.len()
            invariant
                k <= self.extensions@.len(),
                n == file_name@.len(),
                lower_stem@ == lower_of(self.exe_file_stem@),
                forall|j: int| 0 <= j < k ==> !(#[trigger] has_suffix(file_name@, self.extensions@[j].suffix())
                    && lower_of(file_name@.subrange(0, file_name@.len() - self.extensions@[j].suffix().len()))
                    == lower_of(self.exe_file_stem@)),
            decreases self.extensions.len() - k,
        {
            let ext = self.extensions[k].extension();
            if crate::format::ends_with(file_name, ext) {
                let m = ext.unicode_len();
                let lower_part = crate::text::lowercase(file_name.substring_char(0, n - m));
                if crate::text::same_text(lower_part.as_str(), lower_stem.as_str()) {
                    assert(has_suffix(file_name@, self.extensions@[k as int].suffix()));
                    return true;
                }
            }
            k = k + 1;
        }
        false
    }

    /// `file_name` is a partial match for the executable.
    pub fn archive_member_is_partial_match(&self, file_name: &str) -> (r: bool)
        ensures
            r == self.spec_partial(file_name@),
    {
        if !crate::format::starts_with(file_name, self.exe_file_stem.as_str()) {
            return false;
        }
        if self.extensions.len() == 0 {
            return true;
        }
        let lower = crate::text::lowercase(file_name);
        let mut k: usize = 0;
        while k < self.extensions.len()
            invariant
                k <= self.extensions@.len(),
                lower@ == lower_of(file_name@),
                has_prefix(file_name@, self.exe_file_stem@),
                self.extensions@.len() > 0,
                forall|j: int| 0 <= j < k ==> !has_suffix(lower@, self.extensions@[j].suffix()),
            decreases self.extensions.len() - k,
        {
            if crate::format::ends_with(lower.as_str(), self.extensions[k].extension()) {
                assert(has_suffix(lower_of(file_name@), self.extensions@[k as int].suffix()));
                return true;
            }
            k = k + 1;
        }
        false
    }

    /// The position of the entry to install, where the archive's modes count (`check_mode`)
    /// or not.
    fn best_match(&self, entries: &Vec<ArchiveEntry>, check_mode: bool) -> (r: Option<usize>)
        ensures
            match r {
                Some(i) => self.best_match_spec(listing_view(entries@), check_mode) == Some(i as int),
                None => self.best_match_spec(listing_view(entries@), check_mode) is None,
            },
    {
        let ghost v = listing_view(entries@);
        let mut cand: Option<usize> = None;
        let mut i: usize = 0;
        while i < entries.len()
            invariant
                v == listing_view(entries@),
                i <= entries@.len(),
                forall|j: int| 0 <= j < i ==> !self.entry_is_exact(#[trigger] v[j]),
                match cand {
                    Some(c) => c < i && self.entry_is_candidate(v[c as int], check_mode) && forall|j: int|
                        0 <= j < c ==> !self.entry_is_candidate(#[trigger] v[j], check_mode),
                    None => forall|j: int| 0 <= j < i ==> !self.entry_is_candidate(#[trigger] v[j], check_mode),
                },
            decreases entries.len() - i,
        {
            let e = &entries[i];
            assert(v[i as int] == entry_view(*e));
            if e.is_file {
                if let Some(p) = &e.path {
                    if let Some(name) = crate::text::file_name(p.as_str()) {
                        if self.archive_member_is_exact_match(name.as_str()) {
                            proof {
                                lemma_first_where_is(v, self.exact_pred(), i as int);
                            }
                            return Some(i);
                        }
                        if cand.is_none() && self.archive_member_is_partial_match(name.as_str()) {
                            let runnable = match e.mode {
                                Some(m) => m & EXECUTABLE_BITS != 0,
                                None => false,
                            };
                            if !check_mode || self.is_windows || runnable {
                                cand = Some(i);
                            }
                        }
                    }
                }
            }
            i = i + 1;
        }
        proof {
            lemma_first_where(v, self.exact_pred(), 0);
            lemma_first_where(v, self.candidate_pred(check_mode), 0);
            if let Some(c) = cand {
                lemma_first_where_is(v, self.candidate_pred(check_mode), c as int);
            }
        }
        cand
    }

    /// The member of a tar listing to install; the modes the archive records count.
    pub fn best_match_from_tarball(&self, entries: &Vec<ArchiveEntry>) -> (r: Option<usize>)
        ensures
            match r {
                Some(i) => self.best_match_spec(listing_view(entries@), true) == Some(i as int),
                None => self.best_match_spec(listing_view(entries@), true) is None,
            },
    {
        self.best_match(entries, true)
    }

    /// The member of a zip listing to install; zip archives carry no reliable modes.
    pub fn best_match_from_zip_archive(&self, entries: &Vec<ArchiveEntry>) -> (r: Option<usize>)
        ensures
            match r {
                Some(i) => self.best_match_spec(listing_view(entries@), false) == Some(i as int),
                None => self.best_match_spec(listing_view(entries@), false) is None,
            },
    {
        self.best_match(entries, false)
    }

    /// The names looked for, for a diagnostic when no member matches.
    pub fn could_not_find_archive_matches_error(&self) -> (r: String)
        ensures
            r@ == self.expected_names(),
    {
        proof {
            reveal_strlit("*");
            reveal_strlit(" ");
            assert("*"@ =~= seq!['*']);
            assert(" "@ =~= seq![' ']);
        }
        if self.extensions.len() == 0 {
            let r = String::from_str(self.exe_file_stem.as_str()).concat("*");
            assert(r@ =~= self.expected_names());
            return r;
        }
        let mut out = String::from_str(self.exe_file_stem.as_str()).concat("*").concat(
            self.extensions[0].extension(),
        );
        assert(out@ =~= self.patterns_upto(1));
        let mut k: usize = 1;
        while k < self.extensions.len()
            invariant
                1 <= k <= self.extensions@.len(),
                out@ == self.patterns_upto(k as int),
                "*"@ == seq!['*'],
                " "@ == seq![' '],
            decreases self.extensions.len() - k,
        {
            out = out.concat(" ").concat(self.exe_file_stem.as_str()).concat("*").concat(
                self.extensions[k].extension(),
            );
            assert(self.patterns_upto(k + 1) == self.patterns_upto(k as int) + seq![' '] + self.pattern(
                k as int,
            ));
            assert(out@ =~= self.patterns_upto(k + 1));
            k = k + 1;
        }
        out
    }

    /// The entry picked is a file with a path.
    pub proof fn lemma_best_match_has_path(self, entries: Seq<EntryView>, check_mode: bool)
        ensures
            match self.best_match_spec(entries, check_mode) {
                Some(i) => 0 <= i < entries.len() && entries[i].1 && entries[i].0 is Some,
                None => true,
            },
    {
        lemma_first_where(entries, self.exact_pred(), 0);
        lemma_first_where(entries, self.candidate_pred(check_mode), 0);
    }

    /// An exact match wins over every partial match, wherever the archive stores it: when
    /// some entry is an exact match, the entry picked is an exact match stored no later.
    pub proof fn lemma_exact_match_wins(self, entries: Seq<EntryView>, check_mode: bool, j: int)
        requires
            0 <= j < entries.len(),
            self.entry_is_exact(entries[j]),
        ensures
            self.best_match_spec(entries, check_mode) matches Some(i) && i <= j
                && self.entry_is_exact(entries[i]),
    {
        lemma_first_where(entries, self.exact_pred(), 0);
    }

    /// Off Windows, with a tarball's modes counting, a partial match whose mode grants no
    /// execution is never picked; and a partial match whose mode does is enough for a pick.
    pub proof fn lemma_partial_match_needs_exec_bit(self, entries: Seq<EntryView>, j: int)
        requires
            !self.is_windows,
        ensures
            match self.best_match_spec(entries, true) {
                Some(i) => self.entry_is_exact(entries[i]) || has_exec_bit(entries[i]),
                None => true,
            },
            0 <= j < entries.len() && entries[j].1 && entry_base(entries[j]) is Some
                && self.spec_partial(entry_base(entries[j])->0) && has_exec_bit(entries[j])
                ==> self.best_match_spec(entries, true) is Some,
    {
        lemma_first_where(entries, self.exact_pred(), 0);
        lemma_first_where(entries, self.candidate_pred(true), 0);
        if 0 <= j < entries.len() && entries[j].1 && entry_base(entries[j]) is Some
            && self.spec_partial(entry_base(entries[j])->0) && has_exec_bit(entries[j]) {
            assert(self.candidate_pred(true)(entries[j]));
        }
    }

    /// On Windows the modes an archive records play no part: two listings that differ in
    /// modes alone give the same pick, and it is the pick made with modes ignored.
    pub proof fn lemma_windows_ignores_modes(self, a: Seq<EntryView>, b: Seq<EntryView>)
        requires
            self.is_windows,
            a.len() == b.len(),
            forall|i: int| 0 <= i < a.len() ==> (#[trigger] a[i]).0 == b[i].0 && a[i].1 == b[i].1,
        ensures
            self.best_match_spec(a, true) == self.best_match_spec(b, true),
            self.best_match_spec(a, true) == self.best_match_spec(a, false),
    {
        lemma_first_where_agree(a, b, self.exact_pred(), self.exact_pred(), 0);
        lemma_first_where_agree(a, b, self.candidate_pred(true), self.candidate_pred(true), 0);
        lemma_first_where_agree(a, a, self.candidate_pred(true), self.candidate_pred(false), 0);
    }
}

/// Two sequences whose elements agree on two predicates, position by position, have their
/// first satisfying element at the same place.
pub proof fn lemma_first_where_agree<T>(
    s1: Seq<T>,
    s2: Seq<T>,
    p1: spec_fn(T) -> bool,
    p2: spec_fn(T) -> bool,
    from: int,
)
    requires
        s1.len() == s2.len(),
        forall|i: int| 0 <= i < s1.len() ==> p1(#[trigger] s1[i]) == p2(s2[i]),
    ensures
        first_where(s1, p1, from) == first_where(s2, p2, from),
    decreases s1.len() - from,
{
    if 0 <= from < s1.len() {
        lemma_first_where_agree(s1, s2, p1, p2, from + 1);
    }
}

impl ExeInstaller {
    /// The entry is a file whose base name is an exact match.
    pub fn entry_is_exact_match(&self, e: &ArchiveEntry) -> (r: bool)
        ensures
            r == self.entry_is_exact(entry_view(*e)),
    {
        if !e.is_file {
            return false;
        }
        match &e.path {
            Some(p) => match crate::text::file_name(p.as_str()) {
                Some(n) => self.archive_member_is_exact_match(n.as_str()),
                None => false,
            },
            None => false,
        }
    }

    /// The position of the entry to install from a listing that may stop short.
    pub(crate) fn pick(&self, entries: &Vec<ArchiveEntry>, complete: bool, check_mode: bool) -> (r: Result<
        usize,
        InstallError,
    >)
        ensures
            match r {
                Ok(i) => self.pick_spec(listing_view(entries@), complete, check_mode) == Ok::<int, InstallError>(i as int),
                Err(e) => self.pick_spec(listing_view(entries@), complete, check_mode) == Err::<int, InstallError>(e),
            },
    {
        match self.best_match(entries, check_mode) {
            Some(i) => {
                proof {
                    self.lemma_best_match_has_path(listing_view(entries@), check_mode);
                }
                assert(listing_view(entries@)[i as int] == entry_view(entries@[i as int]));
                if complete || self.entry_is_exact_match(&entries[i]) {
                    Ok(i)
                } else {
                    Err(InstallError::UnreadableArchive)
                }
            },
            None => if complete {
                Err(InstallError::NoMatchingEntry)
            } else {
                Err(InstallError::UnreadableArchive)
            },
        }
    }
}

} // verus!
