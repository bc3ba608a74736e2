use vstd::prelude::*;

verus! {

/// The stem of the last component of a path (its file name without the
/// extension), as `std::path::Path::file_stem` gives it.
pub uninterp spec fn path_stem(p: Seq<char>) -> Option<Seq<char>>;

/// `s` with every `from` replaced by `to`.
pub open spec fn spec_replace_char(s: Seq<char>, from: char, to: char) -> Seq<char> {
    Seq::new(s.len(), |i: int| if s[i] == from { to } else { s[i] })
}

/// The name shown for a font whose path has the stem `stem`: the stem with
/// underscores and dashes turned into spaces, or "Unknown" when there is none.
pub open spec fn spec_name_of_stem(stem: Option<Seq<char>>) -> Seq<char> {
    match stem {
        Some(t) => spec_replace_char(spec_replace_char(t, '_', ' '), '-', ' '),
        None => "Unknown"@,
    }
}

/// The name shown for the font file at path `p`.
pub open spec fn spec_display_name(p: Seq<char>) -> Seq<char> {
    spec_name_of_stem(path_stem(p))
}

/// Relies on `std::path::Path::file_stem`, for the stem of a font file's path.
#[verifier::external_body]
fn file_stem(path: &String) -> (r: Option<String>)
    ensures
        match r {
            Some(t) => path_stem(path@) == Some(t@),
            None => path_stem(path@) is None,
        },
{
    std::path::Path::new(path.as_str()).file_stem().and_then(|s| s.to_str()).map(|s| s.to_string())
}

/// Relies on `str::replace` with a `char` pattern: every occurrence of `from`
/// is replaced by `to`, and nothing else changes.
#[verifier::external_body]
fn replace_char(s: &String, from: char, to: char) -> (r: String)
    ensures
        r@ == spec_replace_char(s@, from, to),
{
    s.replace(from, &to.to_string())
}

/// The name shown for a font whose path has the stem `stem`.
pub fn display_name_of_stem(stem: Option<String>) -> (r: String)
    ensures
        r@ == spec_name_of_stem(
            match stem {
                Some(t) => Some(t@),
                None => None,
            },
        ),
{
    match stem {
        Some(t) => {
            let spaced = replace_char(&t, '_', ' ');
            replace_char(&spaced, '-', ' ')
        },
        None => String::from_str("Unknown"),
    }
}

/// The name shown for the font file at `path`.
pub fn font_display_name(path: &String) -> (r: String)
    ensures
        r@ == spec_display_name(path@),
{
    display_name_of_stem(file_stem(path))
}

} // verus!
