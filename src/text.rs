use vstd::prelude::*;

verus! {

/// What `str::to_lowercase` makes of a string.
pub uninterp spec fn lower_of(s: Seq<char>) -> Seq<char>;

/// What `Path::file_name` gives for a path: its last component, if it has one.
pub uninterp spec fn file_name_of(p: Seq<char>) -> Option<Seq<char>>;

/// What `Path::extension` gives for a path: the text after the last dot of its file name.
pub uninterp spec fn extension_of(p: Seq<char>) -> Option<Seq<char>>;

/// Relies on `std::path::Path::extension`: the extension of the path's file name, if it has
/// one. A part of a `str` path is itself valid text.
#[verifier::external_body]
pub(crate) fn path_extension(path: &str) -> (r: Option<String>)
    ensures
        match r {
            Some(e) => extension_of(path@) == Some(e@),
            None => extension_of(path@) is None,
        },
{
    Some(std::path::Path::new(path).extension()?.to_str()?.to_string())
}

/// Relies on `str::to_lowercase`: the result depends on the characters alone.
#[verifier::external_body]
pub(crate) fn lowercase(s: &str) -> (r: String)
    ensures
        r@ == lower_of(s@),
{
    s.to_lowercase()
}

/// Relies on `std::path::Path::file_name`: the last component of the path, if there is one.
/// A component of a `str` path is itself valid text.
#[verifier::external_body]
pub(crate) fn file_name(path: &str) -> (r: Option<String>)
    ensures
        match r {
            Some(n) => file_name_of(path@) == Some(n@),
            None => file_name_of(path@) is None,
        },
{
    Some(std::path::Path::new(path).file_name()?.to_str()?.to_string())
}

/// Two strings hold the same characters.
pub fn same_text(a: &str, b: &str) -> (r: bool)
    ensures
        r == (a@ == b@),
{
    let eq = crate::format::starts_with(a, b) && a.unicode_len() == b.unicode_len();
    proof {
        if a@.len() == b@.len() && b@.len() <= a@.len() {
            assert(a@.subrange(0, b@.len() as int) =~= a@);
        }
    }
    eq
}

} // verus!
