//! Object-store path helpers: the lowercase form of a path and the check on a
//! single path part (agent and user names become path parts).
use vstd::prelude::*;
use crate::text::{ascii_lower, has_char, str_eq, str_has_char, to_ascii_lowercase, to_owned_string};

verus! {

/// The text of the object-store path that `object_store::path::Path::from`
/// builds from the given text.
pub uninterp spec fn object_store_path(s: Seq<char>) -> Seq<char>;

/// Normalizes a text into an object-store path.
/// Trusted: calls `object_store::path::Path::from(&str)` (split on `/`, percent-encode
/// each part, drop empty parts, join with `/`) and returns its text; the contract only
/// names that result, as a function of the input text alone.
#[verifier::external_body]
fn object_path_text(s: &str) -> (r: String)
    ensures
        r@ == object_store_path(s@),
{
    let p = object_store::path::Path::from(s);
    let t: &str = p.as_ref();
    t.to_string()
}

/// Errors of the path helpers.
#[derive(Debug)]
pub enum PathError {
    /// The part is empty, holds the delimiter `/`, or is changed by normalization.
    InvalidPathPart(String),
}


impl PathError {
    /// The message of the error: "invalid path part: " and the part.
    pub fn message(&self) -> (r: String)
        ensures
            match self {
                PathError::InvalidPathPart(p) => r@ == "invalid path part: "@ + p@,
            },
    {
        match self {
            PathError::InvalidPathPart(p) => {
                let mut r = "invalid path part: ".to_string();
                r.append(p.as_str());
                r
            },
        }
    }
}

/// The path whose text is the ASCII lowercase of the given path text.
pub fn path_lowercase(path: &str) -> (r: String)
    ensures
        r@ == object_store_path(ascii_lower(path@)),
{
    let lower = to_ascii_lowercase(path);
    object_path_text(lower.as_str())
}

/// The whole specification of a valid path part: not empty, free of `/`, and
/// left unchanged by object-store normalization.
pub open spec fn valid_path_part(part: Seq<char>) -> bool {
    &&& part.len() > 0
    &&& !has_char(part, '/')
    &&& object_store_path(part) == part
}

/// Validates a path part so that it does not contain the path delimiter.
/// Agent names and user names are validated with it.
pub fn validate_path_part(part: &str) -> (r: Result<(), PathError>)
    ensures
        r is Ok <==> valid_path_part(part@),
        r matches Err(PathError::InvalidPathPart(p)) ==> p@ == part@,
{
    if part.is_empty() || str_has_char(part, '/') {
        return Err(PathError::InvalidPathPart(to_owned_string(part)));
    }
    let normalized = object_path_text(part);
    if !str_eq(normalized.as_str(), part) {
        return Err(PathError::InvalidPathPart(to_owned_string(part)));
    }
    Ok(())
}

} // verus!
