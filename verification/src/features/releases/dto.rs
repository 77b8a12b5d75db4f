//! What the release commands report, as plain records, and the reading of
//! the URL that `gh release create` prints.
use vstd::prelude::*;
use crate::engine::error::{AppError, ErrorCode, upstream_view};
use crate::text::{owned, trim, trimmed};

verus! {

broadcast use vstd::string::group_string_axioms;


#[derive(Debug, Clone, PartialEq, Eq)]
pub struct ReleaseSummary {
    pub tag_name: String,
    pub name: Option<String>,
    pub is_draft: bool,
    pub is_prerelease: bool,
    pub published_at: Option<String>,
    pub created_at: String,
    pub is_latest: bool,
}

#[derive(Debug, Clone, PartialEq, Eq)]
pub struct ReleaseCreated {
    pub tag_name: String,
    pub url: String,
}


/// What reading the output of `gh release create` gives: the trimmed output
/// is the release's URL.
pub open spec fn release_created_result(tag_name: Seq<char>, payload: Seq<char>, r: Result<
    ReleaseCreated,
    AppError,
>) -> bool {
    if trim(payload).len() == 0 {
        r matches Err(e) && e.is(upstream_view("release create output was empty"@))
    } else {
        r matches Ok(c) && c.tag_name@ == tag_name && c.url@ == trim(payload)
    }
}

/// `release_created_result` for one tag, as a relation to hand to a command's
/// outcome.
pub open spec fn release_created_parse(tag_name: Seq<char>) -> spec_fn(
    Seq<char>,
    Result<ReleaseCreated, AppError>,
) -> bool {
    |out: Seq<char>, r: Result<ReleaseCreated, AppError>| release_created_result(tag_name, out, r)
}

/// Reads the release that `gh release create` printed the URL of.
pub fn parse_release_created_output(tag_name: &str, payload: &str) -> (r: Result<
    ReleaseCreated,
    AppError,
>)
    ensures
        release_created_result(tag_name@, payload@, r),
{
    let url = trimmed(payload);
    if url.unicode_len() == 0 {
        return Err(AppError::new(ErrorCode::UpstreamError, "release create output was empty", false));
    }
    Ok(ReleaseCreated { tag_name: owned(tag_name), url })
}

} // verus!
