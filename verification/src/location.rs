//! Repository locations: the name that a location gives its repository.

use crate::error::Error;
use crate::path::{after_last, final_component, final_component_of, is_skipped, last_index_of};
use crate::template::text_of;
use vstd::prelude::*;
use vstd::string::*;

verus! {

/// `url::ParseError`, the reason for which a text is no absolute URL.
#[verifier::external_type_specification]
#[verifier::external_body]
pub struct ExParseError(url::ParseError);

/// The path of the absolute URL that `input` is; `None` where `input` is no
/// absolute URL.
pub uninterp spec fn url_path(input: Seq<char>) -> Option<Seq<char>>;

/// `url::Url::parse`, followed by `Url::path` on the URL that was parsed: the
/// path of the URL, or the error with which parsing failed.
#[verifier::external_body]
fn parse_path(input: &str) -> (parsed: Result<String, url::ParseError>)
    ensures
        match parsed {
            Ok(path) => url_path(input@) == Some(path@),
            Err(_) => url_path(input@) is None,
        },
{
    match url::Url::parse(input) {
        Ok(url) => Ok(url.path().to_string()),
        Err(error) => Err(error),
    }
}

/// A file name without its extension: what stands before the last `.`. A
/// name without a `.`, or with none but a leading one, is its own stem.
pub open spec fn stem_of(name: Seq<char>) -> Seq<char> {
    let dot = last_index_of(name, '.');
    if dot <= 0 {
        name
    } else {
        name.subrange(0, dot)
    }
}

/// `name` names an entry of a directory: it is not empty, not `.`, and not
/// the parent directory `..`.
pub open spec fn names_entry(name: Seq<char>) -> bool {
    !is_skipped(name) && !(name.len() == 2 && name[0] == '.' && name[1] == '.')
}

/// The stem of the file that `path` ends in, if it ends in one.
pub open spec fn file_stem_of(path: Seq<char>) -> Option<Seq<char>> {
    let name = final_component_of(path);
    if names_entry(name) {
        Some(stem_of(name))
    } else {
        None
    }
}

/// The base name that a parsed location has: the stem of the file that its
/// path ends in.
pub open spec fn base_name_of(path: Option<Seq<char>>) -> Option<Seq<char>> {
    match path {
        Some(path) => file_stem_of(path),
        None => None,
    }
}

/// The stem of the file that `path` ends in, if it ends in one.
pub fn file_stem(path: &str) -> (stem: Option<String>)
    ensures
        text_of(stem) == file_stem_of(path@),
{
    let name = final_component(path);
    let len = name.as_str().unicode_len();
    if len == 0 {
        return None;
    }
    let first = name.as_str().get_char(0);
    if len == 1 && first == '.' {
        return None;
    }
    if len == 2 && first == '.' && name.as_str().get_char(1) == '.' {
        return None;
    }
    assert(name@.subrange(0, len as int) =~= name@);
    let after = after_last(name.as_str(), len, '.');
    if after <= 1 {
        Some(name)
    } else {
        Some(String::from_str(name.as_str().substring_char(0, after - 1)))
    }
}

/// The name of the repository at `url`: the stem of the last segment of the
/// URL's path. A text that is no absolute URL, or whose path ends in no file
/// name, is a malformed location.
pub fn base_name(url: &str) -> (name: Result<String, Error>)
    ensures
        match name {
            Ok(name) => base_name_of(url_path(url@)) == Some(name@),
            Err(error) => error == Error::MalformedLocation && base_name_of(url_path(url@))
                is None,
        },
{
    match parse_path(url) {
        Ok(path) => match file_stem(path.as_str()) {
            Some(stem) => Ok(stem),
            None => Err(Error::MalformedLocation),
        },
        Err(_) => Err(Error::MalformedLocation),
    }
}

} // verus!
