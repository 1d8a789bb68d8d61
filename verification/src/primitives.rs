//! Standard-library and outside-crate operations: the trusted wrappers, with the
//! contracts that the rest of the library relies on, and the character list of a
//! text.

use vstd::prelude::*;
use sha1::Digest;
use crate::text::{ascii_lower, ascii_upper, is_ascii_char, is_ascii_upper, texts};

verus! {

/// The characters of `s`, in order.
pub fn str_chars(s: &str) -> (r: Vec<char>)
    ensures
        r@ == s@,
{
    broadcast use vstd::string::axiom_spec_iter;
    let mut v: Vec<char> = Vec::new();
    for c in it: s.chars()
        invariant
            it.seq() == s@,
            v@ == it.seq().take(it.index() as int),
    {
        v.push(c);
        assert(v@ =~= it.seq().take(it.index() + 1));
    }
    assert(v@ =~= s@);
    v
}

/// Calls `String::push`: the character `c` is added at the end of `s`.
#[verifier::external_body]
pub fn string_push(s: &mut String, c: char)
    ensures
        final(s)@ == old(s)@.push(c),
{
    s.push(c);
}

// ---------------------------------------------------------------------------
// Unicode case mappings of `char` and `str`
// ---------------------------------------------------------------------------

/// The first character of the Unicode lowercase mapping of `c` (`c.to_lowercase().next()`).
pub uninterp spec fn lower_first(c: char) -> char;

/// The first character of the Unicode uppercase mapping of `c` (`c.to_uppercase().next()`).
pub uninterp spec fn upper_first(c: char) -> char;

/// The Unicode `Uppercase` property of `c` (`char::is_uppercase`).
pub uninterp spec fn is_upper(c: char) -> bool;

/// The full Unicode lowercase mapping of `c` (`char::to_lowercase`, collected).
pub uninterp spec fn char_lowercase(c: char) -> Seq<char>;

/// The Unicode lowercase form of the text `s` (`str::to_lowercase`).
pub uninterp spec fn str_lowercase(s: Seq<char>) -> Seq<char>;

/// Calls `char::to_lowercase` and takes its first character, which always exists.
/// States that the result is the named mapping, and that on ASCII characters it is
/// the ASCII lowercase mapping, as the `char` documentation describes.
#[verifier::external_body]
pub fn lower_first_char(c: char) -> (r: char)
    ensures
        r == lower_first(c),
        is_ascii_char(c) ==> r == ascii_lower(c),
{
    c.to_lowercase().next().unwrap()
}

/// Calls `char::to_uppercase` and takes its first character, which always exists.
/// States that the result is the named mapping, and that on ASCII characters it is
/// the ASCII uppercase mapping.
#[verifier::external_body]
pub fn upper_first_char(c: char) -> (r: char)
    ensures
        r == upper_first(c),
        is_ascii_char(c) ==> r == ascii_upper(c),
{
    c.to_uppercase().next().unwrap()
}

/// Calls `char::is_uppercase`.  States that the result is the named property, which
/// on ASCII characters holds exactly of `'A'..='Z'`.
#[verifier::external_body]
pub fn is_uppercase_char(c: char) -> (r: bool)
    ensures
        r == is_upper(c),
        is_ascii_char(c) ==> (r <==> is_ascii_upper(c)),
{
    c.is_uppercase()
}

/// Calls `char::to_lowercase` and collects all of its characters.  On an ASCII
/// character the mapping is the single ASCII lowercase character.
#[verifier::external_body]
pub fn char_to_lowercase(c: char) -> (r: String)
    ensures
        r@ == char_lowercase(c),
        is_ascii_char(c) ==> r@ == seq![ascii_lower(c)],
{
    c.to_lowercase().collect()
}

/// Calls `str::to_lowercase`.  On ASCII text the result lowercases each character
/// by the ASCII mapping.
#[verifier::external_body]
pub fn str_to_lowercase(s: &str) -> (r: String)
    ensures
        r@ == str_lowercase(s@),
        (forall|i: int| 0 <= i < s@.len() ==> is_ascii_char(#[trigger] s@[i])) ==> r@ == s@.map_values(
            |c: char| ascii_lower(c),
        ),
{
    s.to_lowercase()
}

// ---------------------------------------------------------------------------
// Paths (`std::path::Path`)
// ---------------------------------------------------------------------------

/// The file stem of the path `p` (`Path::file_stem`).
pub uninterp spec fn file_stem_of(p: Seq<char>) -> Option<Seq<char>>;

/// The parent of the path `p` (`Path::parent`).
pub uninterp spec fn parent_of(p: Seq<char>) -> Option<Seq<char>>;

/// The file name of the path `p` (`Path::file_name`).
pub uninterp spec fn file_name_of(p: Seq<char>) -> Option<Seq<char>>;

/// The path `base` joined with the relative path `name` (`Path::join`).
pub uninterp spec fn joined_path(base: Seq<char>, name: Seq<char>) -> Seq<char>;

/// Calls `Path::file_stem` on `p`. As `Path::file_stem` documents, the path has a
/// stem exactly when it has a file name.
#[verifier::external_body]
pub fn path_file_stem(p: &str) -> (r: Option<String>)
    ensures
        match r {
            Some(x) => file_stem_of(p@) == Some(x@),
            None => file_stem_of(p@) is None,
        },
        r is Some <==> file_name_of(p@) is Some,
{
    match std::path::Path::new(p).file_stem() {
        Some(x) => Some(x.to_string_lossy().into_owned()),
        None => None,
    }
}

/// Calls `Path::parent` on `p`.
#[verifier::external_body]
pub fn path_parent(p: &str) -> (r: Option<String>)
    ensures
        match r {
            Some(x) => parent_of(p@) == Some(x@),
            None => parent_of(p@) is None,
        },
{
    match std::path::Path::new(p).parent() {
        Some(x) => Some(x.to_string_lossy().into_owned()),
        None => None,
    }
}

/// Calls `Path::file_name` on `p`.
#[verifier::external_body]
pub fn path_file_name(p: &str) -> (r: Option<String>)
    ensures
        match r {
            Some(x) => file_name_of(p@) == Some(x@),
            None => file_name_of(p@) is None,
        },
{
    match std::path::Path::new(p).file_name() {
        Some(x) => Some(x.to_string_lossy().into_owned()),
        None => None,
    }
}

/// Calls `Path::join` on `base` with `name`.
#[verifier::external_body]
pub fn path_join(base: &str, name: &str) -> (r: String)
    ensures
        r@ == joined_path(base@, name@),
{
    std::path::Path::new(base).join(name).to_string_lossy().into_owned()
}

/// The extension of the path `p` (`Path::extension`).
pub uninterp spec fn extension_of(p: Seq<char>) -> Option<Seq<char>>;

/// Calls `Path::extension` on `p`.
#[verifier::external_body]
pub fn path_extension(p: &str) -> (r: Option<String>)
    ensures
        match r {
            Some(x) => extension_of(p@) == Some(x@),
            None => extension_of(p@) is None,
        },
{
    match std::path::Path::new(p).extension() {
        Some(x) => Some(x.to_string_lossy().into_owned()),
        None => None,
    }
}

/// The path `a` equals the path `b` (`Path`'s `==`, which compares components).
pub uninterp spec fn same_path(a: Seq<char>, b: Seq<char>) -> bool;

/// Compares the paths `a` and `b` with `Path`'s `==`. Equal texts are equal
/// paths (`Path`'s `==` is an equivalence, as `Eq` on `Path` documents).
#[verifier::external_body]
pub fn path_eq(a: &str, b: &str) -> (r: bool)
    ensures
        r == same_path(a@, b@),
        a@ == b@ ==> r,
{
    std::path::Path::new(a) == std::path::Path::new(b)
}

/// The components of the path `p` as text (`Path::components`, each taken by
/// `Component::as_os_str`).
pub uninterp spec fn components_of(p: Seq<char>) -> Seq<Seq<char>>;

/// Calls `Path::components` on `p` and collects the text of each component.
#[verifier::external_body]
pub fn path_components(p: &str) -> (r: Vec<String>)
    ensures
        texts(r@) == components_of(p@),
{
    std::path::Path::new(p).components().map(|c| c.as_os_str().to_string_lossy().into_owned()).collect()
}

// ---------------------------------------------------------------------------
// SHA-1 (`sha1` crate)
// ---------------------------------------------------------------------------

/// The SHA-1 digest of `data`.
pub uninterp spec fn sha1_of(data: Seq<u8>) -> Seq<u8>;

/// Hashes `data` with `sha1::Sha1` (`new`, `update`, `finalize`). The digest is
/// 20 bytes long, as the crate documents (`Output` is a `[u8; 20]`).
#[verifier::external_body]
pub fn sha1_digest(data: &[u8]) -> (r: Vec<u8>)
    ensures
        r@ == sha1_of(data@),
        r@.len() == 20,
{
    let mut hasher = <sha1::Sha1 as Digest>::new();
    hasher.update(data);
    hasher.finalize().to_vec()
}

} // verus!
