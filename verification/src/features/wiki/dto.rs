//! What the wiki commands report, as a plain record.
use vstd::prelude::*;
use crate::text::{chars_of, concat, string_from_chars};

verus! {

broadcast use vstd::string::group_string_axioms;

#[derive(Debug, Clone, PartialEq, Eq)]
pub struct WikiInfo {
    pub has_wiki: bool,
    pub html_url: String,
    pub wiki_url: String,
}

/// The text without the `/` characters it ends with (`trim_end_matches('/')`).
pub open spec fn trim_trailing_slashes(s: Seq<char>) -> Seq<char>
    decreases s.len(),
{
    if s.len() > 0 && s.last() == '/' {
        trim_trailing_slashes(s.drop_last())
    } else {
        s
    }
}

/// The address of a repository's wiki: its page address, without trailing
/// slashes, followed by `/wiki`.
pub open spec fn wiki_url_of(html_url: Seq<char>) -> Seq<char> {
    trim_trailing_slashes(html_url) + "/wiki"@
}

/// The wiki of a repository, from whether it is enabled and the repository's
/// page address.
pub fn wiki_info_from(has_wiki: bool, html_url: String) -> (w: WikiInfo)
    ensures
        w.has_wiki == has_wiki,
        w.html_url@ == html_url@,
        w.wiki_url@ == wiki_url_of(html_url@),
{
    let v = chars_of(html_url.as_str());
    let mut end = v.len();
    assert(v@.subrange(0, end as int) =~= v@);
    while end > 0 && v[end - 1] == '/'
        invariant
            end <= v@.len(),
            trim_trailing_slashes(v@.subrange(0, end as int)) == trim_trailing_slashes(v@),
        decreases end,
    {
        let ghost p = v@.subrange(0, end as int);
        assert(p.drop_last() =~= v@.subrange(0, end - 1));
        end = end - 1;
    }
    let base = string_from_chars(&v, 0, end);
    assert(trim_trailing_slashes(base@) == base@);
    let wiki_url = concat(base.as_str(), "/wiki");
    WikiInfo { has_wiki, html_url, wiki_url }
}

} // verus!
