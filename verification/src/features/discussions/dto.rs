//! What the discussion commands report, as plain records, and the choice of
//! the ids a new discussion is created with.
use vstd::prelude::*;
use crate::engine::error::{AppError, ErrorCode, ErrorView, error_view};
use crate::text::{concat3, owned};

verus! {

broadcast use vstd::string::group_string_axioms;

#[derive(Debug, Clone, PartialEq, Eq)]
pub struct DiscussionCategory {
    pub id: String,
    pub name: String,
    pub slug: String,
    pub is_answerable: Option<bool>,
}

#[derive(Debug, Clone, PartialEq, Eq)]
pub struct DiscussionSummary {
    pub id: String,
    pub number: u64,
    pub title: String,
    pub url: String,
    pub locked: Option<bool>,
    pub is_answered: Option<bool>,
    pub category: Option<String>,
    pub author: Option<String>,
}

#[derive(Debug, Clone, PartialEq, Eq)]
pub struct DiscussionCreated {
    pub number: u64,
    pub url: String,
}

#[derive(Debug, Clone, PartialEq, Eq)]
pub struct DiscussionResolvedIds {
    pub repository_id: String,
    pub category_id: String,
}

/// A repository as the id resolution query reports it: its id and its
/// discussion categories.
#[derive(Debug, Clone, PartialEq, Eq)]
pub struct ResolvedRepository {
    pub id: String,
    pub categories: Vec<DiscussionCategory>,
}

/// The position of the first category with the slug, if any.
pub open spec fn first_with_slug(categories: Seq<DiscussionCategory>, slug: Seq<char>) -> Option<int> {
    if exists|i: int| 0 <= i < categories.len() && (#[trigger] categories[i]).slug@ == slug {
        let i = choose|i: int|
            0 <= i < categories.len() && (#[trigger] categories[i]).slug@ == slug && forall|j: int|
                0 <= j < i ==> (#[trigger] categories[j]).slug@ != slug;
        Some(i)
    } else {
        None
    }
}

/// A not-found error with the given message.
pub open spec fn not_found_view(message: Seq<char>) -> ErrorView {
    error_view(ErrorCode::NotFound, message, false)
}

/// What resolving the ids gives: the repository's id and that of the first
/// category with the slug; not found when the repository is missing or has
/// no such category.
pub open spec fn resolved_ids_result(
    repository: Option<ResolvedRepository>,
    slug: Seq<char>,
    r: Result<DiscussionResolvedIds, AppError>,
) -> bool {
    match repository {
        None => r matches Err(e) && e.is(
            not_found_view("repository not found while resolving discussion ids"@),
        ),
        Some(repo) => match first_with_slug(repo.categories@, slug) {
            None => r matches Err(e) && e.is(
                not_found_view("discussion category `"@ + slug + "` not found"@),
            ),
            Some(i) => r matches Ok(ids) && ids.repository_id@ == repo.id@ && ids.category_id@
                == repo.categories@[i].id@,
        },
    }
}

/// Picks the ids that a discussion in the category `category_slug` is created
/// with, from the repository that the resolution query reported.
pub fn resolve_category_ids(repository: Option<ResolvedRepository>, category_slug: &str) -> (r:
    Result<DiscussionResolvedIds, AppError>)
    ensures
        resolved_ids_result(repository, category_slug@, r),
{
    let repo = match repository {
        Some(repo) => repo,
        None => {
            return Err(
                AppError::new(
                    ErrorCode::NotFound,
                    "repository not found while resolving discussion ids",
                    false,
                ),
            );
        },
    };
    let slug = owned(category_slug);
    let mut i: usize = 0;
    while i < repo.categories.len()
        invariant
            i <= repo.categories@.len(),
            slug@ == category_slug@,
            repository == Some(repo),
            forall|j: int| 0 <= j < i ==> (#[trigger] repo.categories@[j]).slug@ != slug@,
        decreases repo.categories@.len() - i,
    {
        if repo.categories[i].slug == slug {
            proof {
                let k = i as int;
                let cats = repo.categories@;
                assert(0 <= k < cats.len() && (#[trigger] cats[k]).slug@ == category_slug@ && forall|j: int|
                    0 <= j < k ==> (#[trigger] cats[j]).slug@ != category_slug@);
                let c = choose|c: int|
                    0 <= c < cats.len() && (#[trigger] cats[c]).slug@ == category_slug@ && forall|j: int|
                        0 <= j < c ==> (#[trigger] cats[j]).slug@ != category_slug@;
                if c < k {
                    assert(cats[c].slug@ != category_slug@);
                } else if c > k {
                    assert(cats[k].slug@ != category_slug@);
                }
                assert(first_with_slug(cats, category_slug@) == Some(k));
            }
            let category_id = repo.categories[i].id.clone();
            return Ok(DiscussionResolvedIds { repository_id: repo.id, category_id });
        }
        i = i + 1;
    }
    let message = concat3("discussion category `", category_slug, "` not found");
    Err(AppError::new(ErrorCode::NotFound, message.as_str(), false))
}

/// A discussion as the GraphQL API reports it: its category and author are
/// nested records.
#[derive(Debug, Clone, PartialEq, Eq)]
pub struct DiscussionNode {
    pub id: String,
    pub number: u64,
    pub title: String,
    pub url: String,
    pub locked: Option<bool>,
    pub is_answered: Option<bool>,
    pub category_name: Option<Option<String>>,
    pub author_login: Option<Option<String>>,
}

/// A nested optional name, flattened.
pub open spec fn flat<T>(o: Option<Option<T>>) -> Option<T> {
    match o {
        Some(inner) => inner,
        None => None,
    }
}

/// The summary of a discussion node.
pub open spec fn discussion_spec(n: DiscussionNode) -> DiscussionSummary {
    DiscussionSummary {
        id: n.id,
        number: n.number,
        title: n.title,
        url: n.url,
        locked: n.locked,
        is_answered: n.is_answered,
        category: flat(n.category_name),
        author: flat(n.author_login),
    }
}

/// The summary of a discussion node.
pub fn map_discussion(n: DiscussionNode) -> (d: DiscussionSummary)
    ensures
        d == discussion_spec(n),
{
    let category = match n.category_name {
        Some(inner) => inner,
        None => None,
    };
    let author = match n.author_login {
        Some(inner) => inner,
        None => None,
    };
    DiscussionSummary {
        id: n.id,
        number: n.number,
        title: n.title,
        url: n.url,
        locked: n.locked,
        is_answered: n.is_answered,
        category,
        author,
    }
}

/// The summaries of the discussions of a repository, in order (none when the
/// repository is missing).
pub fn map_discussions(nodes: Option<Vec<DiscussionNode>>) -> (r: Vec<DiscussionSummary>)
    ensures
        match nodes {
            None => r@.len() == 0,
            Some(ns) => r@ == ns@.map_values(|n: DiscussionNode| discussion_spec(n)),
        },
{
    let mut r: Vec<DiscussionSummary> = Vec::new();
    let mut rest = match nodes {
        Some(ns) => ns,
        None => {
            return r;
        },
    };
    let ghost all = rest@;
    let ghost mut i: int = 0;
    while rest.len() > 0
        invariant
            0 <= i <= all.len(),
            rest@ == all.subrange(i, all.len() as int),
            r@ == all.subrange(0, i).map_values(|n: DiscussionNode| discussion_spec(n)),
        decreases rest@.len(),
    {
        let ghost before = r@;
        let n = rest.remove(0);
        assert(n == all[i]);
        r.push(map_discussion(n));
        assert(all.subrange(0, i + 1).map_values(|n: DiscussionNode| discussion_spec(n)) =~= before.push(
            discussion_spec(all[i]),
        ));
        proof {
            i = i + 1;
        }
        assert(rest@ =~= all.subrange(i, all.len() as int));
    }
    assert(all.subrange(0, all.len() as int) =~= all);
    r
}

} // verus!
