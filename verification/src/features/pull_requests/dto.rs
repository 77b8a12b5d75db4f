//! What the pull request commands report, as plain records, and how the
//! comment and review-thread responses of the GitHub API map onto them.
use vstd::prelude::*;
use crate::text::owned;

verus! {

#[derive(Debug, Clone, PartialEq, Eq)]
pub struct PullRequestAuthor {
    pub login: String,
}

#[derive(Debug, Clone, PartialEq, Eq)]
pub struct PullRequestLabel {
    pub name: String,
}

#[derive(Debug, Clone, PartialEq, Eq)]
pub struct PullRequestAssignee {
    pub login: String,
}

#[derive(Debug, Clone, PartialEq, Eq)]
pub struct PullRequestCreated {
    pub number: u64,
    pub url: String,
    pub state: String,
}

#[derive(Debug, Clone, PartialEq, Eq)]
pub enum PullRequestCommentKind {
    IssueComment,
    ReviewComment,
}

#[derive(Debug, Clone, PartialEq, Eq)]
pub struct PullRequestComment {
    pub id: Option<u64>,
    pub kind: PullRequestCommentKind,
    pub body: String,
    pub created_at: String,
    pub author: Option<PullRequestAuthor>,
    pub url: Option<String>,
    pub reply_to_comment_id: Option<u64>,
    pub path: Option<String>,
    pub line: Option<u64>,
    pub side: Option<String>,
    pub commit_id: Option<String>,
}

#[derive(Debug, Clone, PartialEq, Eq)]
pub struct PullRequestReviewThread {
    pub thread_id: String,
    pub is_resolved: bool,
    pub is_outdated: bool,
    pub path: Option<String>,
    pub line: Option<u64>,
    pub comments: Vec<PullRequestComment>,
}

#[derive(Debug, Clone, PartialEq, Eq)]
pub struct PullRequestDiffFile {
    pub filename: String,
    pub status: String,
    pub additions: u64,
    pub deletions: u64,
    pub changes: u64,
    pub blob_url: Option<String>,
    pub raw_url: Option<String>,
    pub patch: Option<String>,
}

#[derive(Debug, Clone, PartialEq, Eq)]
pub struct PullRequestRawDiff {
    pub text: String,
}


/// The raw diff of a pull request: the command's output as it is.
pub fn parse_pull_request_raw_diff(payload: &str) -> (d: PullRequestRawDiff)
    ensures
        d.text@ == payload@,
{
    PullRequestRawDiff { text: owned(payload) }
}

/// A user as the API reports one.
#[derive(Debug, Clone, PartialEq, Eq)]
pub struct ApiUser {
    pub login: Option<String>,
}

/// An issue comment of a pull request, as the REST API reports it.
#[derive(Debug, Clone, PartialEq, Eq)]
pub struct IssueCommentResponse {
    pub id: u64,
    pub body: String,
    pub created_at: String,
    pub user: Option<ApiUser>,
    pub html_url: Option<String>,
    pub url: Option<String>,
}

/// A review comment of a pull request, as the REST API reports it.
#[derive(Debug, Clone, PartialEq, Eq)]
pub struct ReviewCommentResponse {
    pub id: u64,
    pub body: String,
    pub created_at: String,
    pub user: Option<ApiUser>,
    pub html_url: Option<String>,
    pub url: Option<String>,
    pub in_reply_to_id: Option<u64>,
    pub path: Option<String>,
    pub line: Option<u64>,
    pub side: Option<String>,
    pub commit_id: Option<String>,
}

/// A review thread, as the GraphQL API reports it.
#[derive(Debug, Clone, PartialEq, Eq)]
pub struct ReviewThreadNode {
    pub id: String,
    pub is_resolved: bool,
    pub is_outdated: bool,
    pub path: Option<String>,
    pub line: Option<u64>,
    pub comments: Vec<ReviewThreadCommentNode>,
}

/// A comment of a review thread, as the GraphQL API reports it.
#[derive(Debug, Clone, PartialEq, Eq)]
pub struct ReviewThreadCommentNode {
    pub database_id: Option<u64>,
    pub body: String,
    pub created_at: String,
    pub author: Option<ApiUser>,
    pub reply_to: Option<ReviewThreadReplyTo>,
    pub path: Option<String>,
    pub line: Option<u64>,
    pub diff_side: Option<String>,
    pub commit: Option<ReviewThreadCommit>,
    pub original_commit: Option<ReviewThreadCommit>,
}

#[derive(Debug, Clone, Copy, PartialEq, Eq)]
pub struct ReviewThreadReplyTo {
    pub database_id: Option<u64>,
}

#[derive(Debug, Clone, PartialEq, Eq)]
pub struct ReviewThreadCommit {
    pub oid: Option<String>,
}

/// The first of two optional values that is present.
pub open spec fn either<T>(a: Option<T>, b: Option<T>) -> Option<T> {
    if a is Some {
        a
    } else {
        b
    }
}

/// The author a user names: one with a login.
pub open spec fn author_spec(user: Option<ApiUser>) -> Option<PullRequestAuthor> {
    match user {
        Some(u) => match u.login {
            Some(login) => Some(PullRequestAuthor { login }),
            None => None,
        },
        None => None,
    }
}

/// The author a user names.
pub fn map_author(user: Option<ApiUser>) -> (a: Option<PullRequestAuthor>)
    ensures
        a == author_spec(user),
        a is Some <==> (user is Some && user->0.login is Some),
        a is Some ==> a->0.login == user->0.login->0,
{
    match user {
        Some(u) => match u.login {
            Some(login) => Some(PullRequestAuthor { login }),
            None => None,
        },
        None => None,
    }
}

/// An issue comment as a pull request comment: the page URL, else the API URL.
pub open spec fn issue_comment_spec(v: IssueCommentResponse) -> PullRequestComment {
    PullRequestComment {
        id: Some(v.id),
        kind: PullRequestCommentKind::IssueComment,
        body: v.body,
        created_at: v.created_at,
        author: author_spec(v.user),
        url: either(v.html_url, v.url),
        reply_to_comment_id: None,
        path: None,
        line: None,
        side: None,
        commit_id: None,
    }
}

/// An issue comment links to its page: the mapped comment's `url` is the
/// response's `html_url` when it has one, and its API `url` only otherwise.
/// The same holds of every comment of a mapped list, position by position.
pub proof fn lemma_issue_comment_links_to_page(values: Seq<IssueCommentResponse>, k: int)
    requires
        0 <= k < values.len(),
    ensures
        values[k].html_url is Some ==> values.map_values(
            |v: IssueCommentResponse| issue_comment_spec(v),
        )[k].url == values[k].html_url,
        values[k].html_url is None ==> values.map_values(
            |v: IssueCommentResponse| issue_comment_spec(v),
        )[k].url == values[k].url,
{
}

/// An issue comment as a pull request comment.
pub fn map_issue_comment(value: IssueCommentResponse) -> (c: PullRequestComment)
    ensures
        c == issue_comment_spec(value),
        value.html_url is Some ==> c.url == value.html_url,
        value.html_url is None ==> c.url == value.url,
        c.id == Some(value.id),
        c.kind == PullRequestCommentKind::IssueComment,
        c.body == value.body,
        c.created_at == value.created_at,
        c.author == author_spec(value.user),
        c.reply_to_comment_id is None && c.path is None && c.line is None && c.side is None
            && c.commit_id is None,
{
    let url = match value.html_url {
        Some(u) => Some(u),
        None => value.url,
    };
    PullRequestComment {
        id: Some(value.id),
        kind: PullRequestCommentKind::IssueComment,
        body: value.body,
        created_at: value.created_at,
        author: map_author(value.user),
        url,
        reply_to_comment_id: None,
        path: None,
        line: None,
        side: None,
        commit_id: None,
    }
}

/// A review comment as a pull request comment.
pub open spec fn review_comment_spec(v: ReviewCommentResponse) -> PullRequestComment {
    PullRequestComment {
        id: Some(v.id),
        kind: PullRequestCommentKind::ReviewComment,
        body: v.body,
        created_at: v.created_at,
        author: author_spec(v.user),
        url: either(v.html_url, v.url),
        reply_to_comment_id: v.in_reply_to_id,
        path: v.path,
        line: v.line,
        side: v.side,
        commit_id: v.commit_id,
    }
}

/// A review comment links to its page as well: the mapped comment's `url` is
/// the response's `html_url` when it has one, and its API `url` only
/// otherwise; it keeps the commit, path, line and side it was made on.
pub proof fn lemma_review_comment_links_to_page(values: Seq<ReviewCommentResponse>, k: int)
    requires
        0 <= k < values.len(),
    ensures
        ({
            let c = values.map_values(|v: ReviewCommentResponse| review_comment_spec(v))[k];
            &&& values[k].html_url is Some ==> c.url == values[k].html_url
            &&& values[k].html_url is None ==> c.url == values[k].url
            &&& c.commit_id == values[k].commit_id
            &&& c.reply_to_comment_id == values[k].in_reply_to_id
            &&& c.path == values[k].path && c.line == values[k].line && c.side == values[k].side
        }),
{
}

/// A review comment as a pull request comment.
pub fn map_review_comment(value: ReviewCommentResponse) -> (c: PullRequestComment)
    ensures
        c == review_comment_spec(value),
        value.html_url is Some ==> c.url == value.html_url,
        value.html_url is None ==> c.url == value.url,
        c.id == Some(value.id),
        c.kind == PullRequestCommentKind::ReviewComment,
        c.body == value.body,
        c.created_at == value.created_at,
        c.author == author_spec(value.user),
        c.reply_to_comment_id == value.in_reply_to_id,
        c.path == value.path && c.line == value.line && c.side == value.side,
        c.commit_id == value.commit_id,
{
    let url = match value.html_url {
        Some(u) => Some(u),
        None => value.url,
    };
    PullRequestComment {
        id: Some(value.id),
        kind: PullRequestCommentKind::ReviewComment,
        body: value.body,
        created_at: value.created_at,
        author: map_author(value.user),
        url,
        reply_to_comment_id: value.in_reply_to_id,
        path: value.path,
        line: value.line,
        side: value.side,
        commit_id: value.commit_id,
    }
}

/// The object id of an optional commit.
pub open spec fn commit_oid(c: Option<ReviewThreadCommit>) -> Option<String> {
    match c {
        Some(x) => x.oid,
        None => None,
    }
}

/// A comment of a review thread as a pull request comment: the commit it is
/// on, else the one it was first made on.
pub open spec fn thread_comment_spec(v: ReviewThreadCommentNode) -> PullRequestComment {
    PullRequestComment {
        id: v.database_id,
        kind: PullRequestCommentKind::ReviewComment,
        body: v.body,
        created_at: v.created_at,
        author: author_spec(v.author),
        url: None,
        reply_to_comment_id: match v.reply_to {
            Some(r) => r.database_id,
            None => None,
        },
        path: v.path,
        line: v.line,
        side: v.diff_side,
        commit_id: either(commit_oid(v.commit), commit_oid(v.original_commit)),
    }
}

/// A review-thread comment is placed on the commit it is on now: the mapped
/// `commit_id` is the oid of its `commit` when that has one, and the oid of
/// its `original_commit` only otherwise. The same holds of every comment of a
/// mapped thread, position by position.
pub proof fn lemma_thread_comment_on_current_commit(
    comments: Seq<ReviewThreadCommentNode>,
    k: int,
    oid: String,
)
    requires
        0 <= k < comments.len(),
    ensures
        (comments[k].commit matches Some(c) && c.oid == Some(oid)) ==> comments.map_values(
            |c: ReviewThreadCommentNode| thread_comment_spec(c),
        )[k].commit_id == Some(oid),
        !(comments[k].commit matches Some(c) && c.oid is Some) ==> comments.map_values(
            |c: ReviewThreadCommentNode| thread_comment_spec(c),
        )[k].commit_id == commit_oid(comments[k].original_commit),
{
}

/// A comment of a review thread as a pull request comment.
pub fn map_thread_comment(value: ReviewThreadCommentNode) -> (c: PullRequestComment)
    ensures
        c == thread_comment_spec(value),
        commit_oid(value.commit) is Some ==> c.commit_id == commit_oid(value.commit),
        commit_oid(value.commit) is None ==> c.commit_id == commit_oid(value.original_commit),
        c.id == value.database_id,
        c.kind == PullRequestCommentKind::ReviewComment,
        c.body == value.body,
        c.created_at == value.created_at,
        c.author == author_spec(value.author),
        c.url is None,
        c.reply_to_comment_id == (match value.reply_to {
            Some(r) => r.database_id,
            None => None,
        }),
        c.path == value.path && c.line == value.line && c.side == value.diff_side,
{
    let commit = match value.commit {
        Some(x) => x.oid,
        None => None,
    };
    let commit_id = match commit {
        Some(oid) => Some(oid),
        None => match value.original_commit {
            Some(x) => x.oid,
            None => None,
        },
    };
    let reply_to_comment_id = match value.reply_to {
        Some(r) => r.database_id,
        None => None,
    };
    PullRequestComment {
        id: value.database_id,
        kind: PullRequestCommentKind::ReviewComment,
        body: value.body,
        created_at: value.created_at,
        author: map_author(value.author),
        url: None,
        reply_to_comment_id,
        path: value.path,
        line: value.line,
        side: value.diff_side,
        commit_id,
    }
}

/// The issue comments of a pull request, in order.
pub fn map_issue_comments(values: Vec<IssueCommentResponse>) -> (r: Vec<PullRequestComment>)
    ensures
        r@ == values@.map_values(|v: IssueCommentResponse| issue_comment_spec(v)),
{
    let mut r: Vec<PullRequestComment> = Vec::new();
    let mut rest = values;
    let ghost all = rest@;
    let ghost mut i: int = 0;
    while rest.len() > 0
        invariant
            0 <= i <= all.len(),
            rest@ == all.subrange(i, all.len() as int),
            r@ == all.subrange(0, i).map_values(|v: IssueCommentResponse| issue_comment_spec(v)),
        decreases rest@.len(),
    {
        let ghost before = r@;
        let v = rest.remove(0);
        assert(v == all[i]);
        r.push(map_issue_comment(v));
        assert(all.subrange(0, i + 1).map_values(|v: IssueCommentResponse| issue_comment_spec(v))
            =~= before.push(issue_comment_spec(all[i])));
        proof {
            i = i + 1;
        }
        assert(rest@ =~= all.subrange(i, all.len() as int));
    }
    assert(all.subrange(0, all.len() as int) =~= all);
    r
}

/// The review comments of a pull request, in order.
pub fn map_review_comments(values: Vec<ReviewCommentResponse>) -> (r: Vec<PullRequestComment>)
    ensures
        r@ == values@.map_values(|v: ReviewCommentResponse| review_comment_spec(v)),
{
    let mut r: Vec<PullRequestComment> = Vec::new();
    let mut rest = values;
    let ghost all = rest@;
    let ghost mut i: int = 0;
    while rest.len() > 0
        invariant
            0 <= i <= all.len(),
            rest@ == all.subrange(i, all.len() as int),
            r@ == all.subrange(0, i).map_values(|v: ReviewCommentResponse| review_comment_spec(v)),
        decreases rest@.len(),
    {
        let ghost before = r@;
        let v = rest.remove(0);
        assert(v == all[i]);
        r.push(map_review_comment(v));
        assert(all.subrange(0, i + 1).map_values(|v: ReviewCommentResponse| review_comment_spec(v))
            =~= before.push(review_comment_spec(all[i])));
        proof {
            i = i + 1;
        }
        assert(rest@ =~= all.subrange(i, all.len() as int));
    }
    assert(all.subrange(0, all.len() as int) =~= all);
    r
}

/// The comments of a review thread, in order.
pub fn map_thread_comments(values: Vec<ReviewThreadCommentNode>) -> (r: Vec<PullRequestComment>)
    ensures
        r@ == values@.map_values(|v: ReviewThreadCommentNode| thread_comment_spec(v)),
{
    let mut r: Vec<PullRequestComment> = Vec::new();
    let mut rest = values;
    let ghost all = rest@;
    let ghost mut i: int = 0;
    while rest.len() > 0
        invariant
            0 <= i <= all.len(),
            rest@ == all.subrange(i, all.len() as int),
            r@ == all.subrange(0, i).map_values(|v: ReviewThreadCommentNode| thread_comment_spec(v)),
        decreases rest@.len(),
    {
        let ghost before = r@;
        let v = rest.remove(0);
        assert(v == all[i]);
        r.push(map_thread_comment(v));
        assert(all.subrange(0, i + 1).map_values(|v: ReviewThreadCommentNode| thread_comment_spec(v))
            =~= before.push(thread_comment_spec(all[i])));
        proof {
            i = i + 1;
        }
        assert(rest@ =~= all.subrange(i, all.len() as int));
    }
    assert(all.subrange(0, all.len() as int) =~= all);
    r
}

/// The review threads of a pull request, as the review-thread query reports
/// them (`None` when the repository or the pull request is missing, which
/// gives no threads).
pub fn map_review_threads(threads: Option<Vec<ReviewThreadNode>>) -> (r: Vec<PullRequestReviewThread>)
    ensures
        match threads {
            None => r@.len() == 0,
            Some(ts) => r@.len() == ts@.len() && forall|k: int|
                0 <= k < ts@.len() ==> {
                    let t = #[trigger] ts@[k];
                    &&& r@[k].thread_id == t.id
                    &&& r@[k].is_resolved == t.is_resolved
                    &&& r@[k].is_outdated == t.is_outdated
                    &&& r@[k].path == t.path
                    &&& r@[k].line == t.line
                    &&& r@[k].comments@ == t.comments@.map_values(
                        |c: ReviewThreadCommentNode| thread_comment_spec(c),
                    )
                },
        },
{
    let mut r: Vec<PullRequestReviewThread> = Vec::new();
    let mut rest = match threads {
        Some(ts) => ts,
        None => {
            return r;
        },
    };
    let ghost all = rest@;
    let ghost mut i: int = 0;
    while rest.len() > 0
        invariant
            0 <= i <= all.len(),
            rest@ == all.subrange(i, all.len() as int),
            r@.len() == i,
            forall|k: int|
                0 <= k < i ==> {
                    let t = #[trigger] all[k];
                    &&& r@[k].thread_id == t.id
                    &&& r@[k].is_resolved == t.is_resolved
                    &&& r@[k].is_outdated == t.is_outdated
                    &&& r@[k].path == t.path
                    &&& r@[k].line == t.line
                    &&& r@[k].comments@ == t.comments@.map_values(
                        |c: ReviewThreadCommentNode| thread_comment_spec(c),
                    )
                },
        decreases rest@.len(),
    {
        let t = rest.remove(0);
        assert(t == all[i]);
        let comments = map_thread_comments(t.comments);
        r.push(
            PullRequestReviewThread {
                thread_id: t.id,
                is_resolved: t.is_resolved,
                is_outdated: t.is_outdated,
                path: t.path,
                line: t.line,
                comments,
            },
        );
        proof {
            i = i + 1;
        }
        assert(rest@ =~= all.subrange(i, all.len() as int));
    }
    r
}

} // verus!
