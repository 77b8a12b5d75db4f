//! What the issue commands report, as plain records, and the reading of the
//! URL that `gh issue create` prints.
use vstd::prelude::*;
use crate::engine::error::{AppError, ErrorCode, upstream_view};
use crate::json::{
    JsonValue, as_items, as_text, as_u64, clean_text, clean_text_of, field, field_of, get, get_of,
    is_object, json_text_reading, opt_value, parse_json_text, text_of, u64_of,
};
use crate::text::{
    chars_of, concat, last_segment, last_segment_of, owned, parse_u64, parse_u64_text, trim, trimmed,
};

verus! {

broadcast use vstd::string::group_string_axioms;

#[derive(Debug, Clone, PartialEq, Eq)]
pub struct IssueAuthor {
    pub login: String,
}

#[derive(Debug, Clone, PartialEq, Eq)]
pub struct IssueLabel {
    pub name: String,
}

#[derive(Debug, Clone, PartialEq, Eq)]
pub struct IssueAssignee {
    pub login: String,
}

#[derive(Debug, Clone, PartialEq, Eq)]
pub struct IssueSummary {
    pub number: u64,
    pub title: String,
    pub state: String,
    pub url: String,
    pub author: Option<IssueAuthor>,
    pub labels: Option<Vec<IssueLabel>>,
    pub assignees: Option<Vec<IssueAssignee>>,
    pub updated_at: Option<String>,
}

/// The issue that `gh issue create` reported.
#[derive(Debug, Clone, PartialEq, Eq)]
pub struct IssueCreated {
    pub number: u64,
    pub url: String,
    pub state: String,
}

#[derive(Debug, Clone, PartialEq, Eq)]
pub struct IssueCommentDetail {
    pub id: Option<u64>,
    pub body: String,
    pub created_at: Option<String>,
    pub author: Option<IssueAuthor>,
    pub url: Option<String>,
}

#[derive(Debug, Clone, PartialEq, Eq)]
pub struct IssueDetail {
    pub number: u64,
    pub title: String,
    pub state: String,
    pub url: String,
    pub body: String,
    pub author: Option<IssueAuthor>,
    pub labels: Option<Vec<IssueLabel>>,
    pub assignees: Option<Vec<IssueAssignee>>,
    pub updated_at: Option<String>,
    pub comments: Vec<IssueCommentDetail>,
}

/// What reading the output of `gh issue create` gives: the trimmed output is
/// the new issue's URL, whose last path segment is its number; the issue is
/// open.
pub open spec fn issue_created_result(payload: Seq<char>, r: Result<IssueCreated, AppError>) -> bool {
    let url = trim(payload);
    if url.len() == 0 {
        r matches Err(e) && e.is(upstream_view("issue create output was empty"@))
    } else {
        match parse_u64_text(last_segment(url)) {
            Some(n) => r matches Ok(c) && c.number == n && c.url@ == url && c.state@ == "OPEN"@,
            None => r matches Err(e) && e.is(
                upstream_view("failed to parse issue number from URL: "@ + url),
            ),
        }
    }
}

/// `issue_created_result` as a relation to hand to a command's outcome.
pub open spec fn issue_created_parse() -> spec_fn(Seq<char>, Result<IssueCreated, AppError>) -> bool {
    |out: Seq<char>, r: Result<IssueCreated, AppError>| issue_created_result(out, r)
}

/// Reads the issue that `gh issue create` printed the URL of.
pub fn parse_issue_created_output(payload: &str) -> (r: Result<IssueCreated, AppError>)
    ensures
        issue_created_result(payload@, r),
{
    let url = trimmed(payload);
    if url.unicode_len() == 0 {
        return Err(AppError::new(ErrorCode::UpstreamError, "issue create output was empty", false));
    }
    let chars = chars_of(url.as_str());
    let segment = last_segment_of(&chars);
    match parse_u64(segment.as_str()) {
        Some(number) => Ok(IssueCreated { number, url, state: crate::text::owned("OPEN") }),
        None => {
            let message = concat("failed to parse issue number from URL: ", url.as_str());
            Err(AppError::new(ErrorCode::UpstreamError, message.as_str(), false))
        },
    }
}

/// The first of two optional values that is present.
pub open spec fn first_some<T>(a: Option<T>, b: Option<T>) -> Option<T> {
    if a is Some {
        a
    } else {
        b
    }
}

/// The login of an author object: its `login`, else its `name`, trimmed and
/// not empty.
pub open spec fn author_login(v: Option<JsonValue>) -> Option<Seq<char>> {
    if is_object(v) {
        let raw = match as_text(field_of(v, "login"@)) {
            Some(s) => Some(s),
            None => as_text(field_of(v, "name"@)),
        };
        match raw {
            Some(s) => if trim(s).len() > 0 {
                Some(trim(s))
            } else {
                None
            },
            None => None,
        }
    } else {
        None
    }
}

/// The login of an author is its `login` text, trimmed, whatever its `name`
/// holds; the `name` stands in only when the author has no `login` text.
pub proof fn lemma_author_login_comes_first(v: JsonValue, login: String, name: String)
    requires
        v is Object,
    ensures
        field(v, "login"@) == Some(JsonValue::Str(login)) && trim(login@).len() > 0
            ==> author_login(Some(v)) == Some(trim(login@)),
        field(v, "login"@) == Some(JsonValue::Str(login)) && trim(login@).len() == 0
            ==> author_login(Some(v)) is None,
        !(field(v, "login"@) matches Some(JsonValue::Str(_))) && field(v, "name"@) == Some(
            JsonValue::Str(name),
        ) && trim(name@).len() > 0 ==> author_login(Some(v)) == Some(trim(name@)),
{
}

/// The names that the entries hold under `key`, skipping entries without one.
pub open spec fn named_entries(items: Seq<JsonValue>, key: Seq<char>) -> Seq<Seq<char>>
    decreases items.len(),
{
    if items.len() == 0 {
        Seq::empty()
    } else {
        named_entries(items.drop_last(), key) + match clean_text(field(items.last(), key)) {
            Some(n) => seq![n],
            None => Seq::empty(),
        }
    }
}

/// The names of an array of entries: nothing when the value is no array or
/// no entry has a name.
pub open spec fn named_list(v: Option<JsonValue>, key: Seq<char>) -> Option<Seq<Seq<char>>> {
    match as_items(v) {
        None => None,
        Some(items) => if named_entries(items, key).len() == 0 {
            None
        } else {
            Some(named_entries(items, key))
        },
    }
}

/// What a comment says.
pub struct CommentView {
    pub id: Option<u64>,
    pub body: Seq<char>,
    pub created_at: Option<Seq<char>>,
    pub author: Option<Seq<char>>,
    pub url: Option<Seq<char>>,
}

/// The login of an optional author.
pub open spec fn author_text(a: Option<IssueAuthor>) -> Option<Seq<char>> {
    match a {
        Some(x) => Some(x.login@),
        None => None,
    }
}

/// The text of an optional string.
pub open spec fn opt_string(o: Option<String>) -> Option<Seq<char>> {
    match o {
        Some(s) => Some(s@),
        None => None,
    }
}

impl View for IssueCommentDetail {
    type V = CommentView;

    open spec fn view(&self) -> CommentView {
        CommentView {
            id: self.id,
            body: self.body@,
            created_at: opt_string(self.created_at),
            author: author_text(self.author),
            url: opt_string(self.url),
        }
    }
}

/// The comment an entry of the comment list describes: entries that are not
/// objects, and comments whose trimmed body is empty, are skipped.
pub open spec fn comment_of(e: JsonValue) -> Option<CommentView> {
    let body = trim(
        match as_text(field(e, "body"@)) {
            Some(s) => s,
            None => Seq::empty(),
        },
    );
    if !is_object(Some(e)) || body.len() == 0 {
        None
    } else {
        Some(
            CommentView {
                id: first_some(as_u64(field(e, "id"@)), as_u64(field(e, "databaseId"@))),
                body,
                created_at: first_some(
                    clean_text(field(e, "createdAt"@)),
                    clean_text(field(e, "created_at"@)),
                ),
                author: first_some(
                    author_login(field(e, "author"@)),
                    author_login(field(e, "user"@)),
                ),
                url: first_some(clean_text(field(e, "url"@)), clean_text(field(e, "html_url"@))),
            },
        )
    }
}

/// A comment entry is kept when it is an object with a non-blank body, which
/// it keeps trimmed. Each of its other fields comes from the first of two
/// spellings that gives one: `id` before `databaseId`, `createdAt` before
/// `created_at`, `author` before `user`, `url` before `html_url`; the second is
/// read only when the first gives nothing.
pub proof fn lemma_comment_fields_prefer_first(e: JsonValue, body: String)
    ensures
        !(e is Object) ==> comment_of(e) is None,
        e is Object && field(e, "body"@) == Some(JsonValue::Str(body)) && trim(body@).len() > 0
            ==> comment_of(e) is Some && comment_of(e)->0.body == trim(body@),
        e is Object && field(e, "body"@) == Some(JsonValue::Str(body)) && trim(body@).len() == 0
            ==> comment_of(e) is None,
        comment_of(e) is Some ==> ({
            let c = comment_of(e)->0;
            &&& as_u64(field(e, "id"@)) is Some ==> c.id == as_u64(field(e, "id"@))
            &&& as_u64(field(e, "id"@)) is None ==> c.id == as_u64(field(e, "databaseId"@))
            &&& clean_text(field(e, "createdAt"@)) is Some ==> c.created_at == clean_text(
                field(e, "createdAt"@),
            )
            &&& clean_text(field(e, "createdAt"@)) is None ==> c.created_at == clean_text(
                field(e, "created_at"@),
            )
            &&& author_login(field(e, "author"@)) is Some ==> c.author == author_login(
                field(e, "author"@),
            )
            &&& author_login(field(e, "author"@)) is None ==> c.author == author_login(
                field(e, "user"@),
            )
            &&& clean_text(field(e, "url"@)) is Some ==> c.url == clean_text(field(e, "url"@))
            &&& clean_text(field(e, "url"@)) is None ==> c.url == clean_text(
                field(e, "html_url"@),
            )
        }),
{
}

/// The comments of a list of entries.
pub open spec fn comments_of(items: Seq<JsonValue>) -> Seq<CommentView>
    decreases items.len(),
{
    if items.len() == 0 {
        Seq::empty()
    } else {
        comments_of(items.drop_last()) + match comment_of(items.last()) {
            Some(c) => seq![c],
            None => Seq::empty(),
        }
    }
}

/// The entries of the `comments` member: an array, or an object's `nodes`
/// array; nothing otherwise.
pub open spec fn comment_entries(v: Option<JsonValue>) -> Seq<JsonValue> {
    match as_items(v) {
        Some(items) => items,
        None => match as_items(field_of(v, "nodes"@)) {
            Some(items) => items,
            None => Seq::empty(),
        },
    }
}

/// The names of a list of labels.
pub open spec fn label_names(labels: Option<Vec<IssueLabel>>) -> Option<Seq<Seq<char>>> {
    match labels {
        Some(v) => Some(v@.map_values(|l: IssueLabel| l.name@)),
        None => None,
    }
}

/// The logins of a list of assignees.
pub open spec fn assignee_logins(assignees: Option<Vec<IssueAssignee>>) -> Option<Seq<Seq<char>>> {
    match assignees {
        Some(v) => Some(v@.map_values(|a: IssueAssignee| a.login@)),
        None => None,
    }
}

/// What reading an issue detail object gives: the number, title, state and
/// URL are required; the body defaults to empty; author, labels, assignees,
/// update time and comments are read where present.
pub open spec fn issue_detail_result(v: JsonValue, r: Result<IssueDetail, AppError>) -> bool {
    if !is_object(Some(v)) {
        r matches Err(e) && e.is(upstream_view("issue detail payload must be a JSON object"@))
    } else if as_u64(field(v, "number"@)) is None {
        r matches Err(e) && e.is(upstream_view("issue detail payload missing number"@))
    } else if clean_text(field(v, "title"@)) is None {
        r matches Err(e) && e.is(upstream_view("issue detail payload missing title"@))
    } else if clean_text(field(v, "state"@)) is None {
        r matches Err(e) && e.is(upstream_view("issue detail payload missing state"@))
    } else if clean_text(field(v, "url"@)) is None {
        r matches Err(e) && e.is(upstream_view("issue detail payload missing url"@))
    } else {
        r matches Ok(d) && {
            &&& Some(d.number) == as_u64(field(v, "number"@))
            &&& Some(d.title@) == clean_text(field(v, "title"@))
            &&& Some(d.state@) == clean_text(field(v, "state"@))
            &&& Some(d.url@) == clean_text(field(v, "url"@))
            &&& d.body@ == match clean_text(field(v, "body"@)) {
                Some(b) => b,
                None => Seq::empty(),
            }
            &&& author_text(d.author) == author_login(field(v, "author"@))
            &&& label_names(d.labels) == named_list(field(v, "labels"@), "name"@)
            &&& assignee_logins(d.assignees) == named_list(field(v, "assignees"@), "login"@)
            &&& opt_string(d.updated_at) == clean_text(field(v, "updatedAt"@))
            &&& d.comments@.map_values(|c: IssueCommentDetail| c@) == comments_of(
                comment_entries(field(v, "comments"@)),
            )
        }
    }
}

/// The author an author object names.
pub fn parse_author(v: Option<&JsonValue>) -> (r: Option<IssueAuthor>)
    ensures
        author_text(r) == author_login(opt_value(v)),
        ({
            let login = as_text(field_of(opt_value(v), "login"@));
            is_object(opt_value(v)) && login is Some && trim(login->0).len() > 0 ==> r is Some
                && r->0.login@ == trim(login->0)
        }),
{
    match v {
        Some(JsonValue::Object(_)) => {
            let raw = match text_of(get_of(v, "login")) {
                Some(s) => Some(s),
                None => text_of(get_of(v, "name")),
            };
            match raw {
                Some(s) => {
                    let t = trimmed(s);
                    if t.unicode_len() > 0 {
                        Some(IssueAuthor { login: t })
                    } else {
                        None
                    }
                },
                None => None,
            }
        },
        _ => None,
    }
}

/// The names that the entries of an array hold under `key`.
fn names_from(v: Option<&JsonValue>, key: &str) -> (r: Option<Vec<String>>)
    ensures
        match r {
            Some(names) => named_list(opt_value(v), key@) == Some(names@.map_values(|s: String| s@)),
            None => named_list(opt_value(v), key@) is None,
        },
{
    match v {
        Some(JsonValue::Array(items)) => {
            let mut names: Vec<String> = Vec::new();
            let mut i: usize = 0;
            while i < items.len()
                invariant
                    i <= items@.len(),
                    names@.map_values(|s: String| s@) == named_entries(items@.subrange(0, i as int), key@),
                decreases items@.len() - i,
            {
                let ghost before = names@;
                let ghost prefix = items@.subrange(0, i + 1);
                assert(prefix.drop_last() =~= items@.subrange(0, i as int));
                match clean_text_of(get(&items[i], key)) {
                    Some(n) => {
                        names.push(n);
                        assert(names@.map_values(|s: String| s@) =~= before.map_values(
                            |s: String| s@,
                        ) + seq![names@.last()@]);
                    },
                    None => {
                        assert(names@.map_values(|s: String| s@) =~= before.map_values(
                            |s: String| s@,
                        ) + Seq::<Seq<char>>::empty());
                    },
                }
                i = i + 1;
            }
            assert(items@.subrange(0, items@.len() as int) =~= items@);
            if names.len() == 0 {
                None
            } else {
                Some(names)
            }
        },
        _ => None,
    }
}

/// The labels of a label array.
pub fn parse_labels(v: Option<&JsonValue>) -> (r: Option<Vec<IssueLabel>>)
    ensures
        label_names(r) == named_list(opt_value(v), "name"@),
{
    match names_from(v, "name") {
        None => None,
        Some(names) => {
            let mut labels: Vec<IssueLabel> = Vec::new();
            let mut i: usize = 0;
            while i < names.len()
                invariant
                    i <= names@.len(),
                    labels@.map_values(|l: IssueLabel| l.name@) == names@.subrange(0, i as int).map_values(
                        |s: String| s@,
                    ),
                decreases names@.len() - i,
            {
                let ghost before = labels@;
                labels.push(IssueLabel { name: owned(names[i].as_str()) });
                assert(labels@.map_values(|l: IssueLabel| l.name@) =~= before.map_values(|l: IssueLabel| l.name@).push(names@[i as int]@));
                assert(names@.subrange(0, i + 1).map_values(|s: String| s@) =~= names@.subrange(
                    0,
                    i as int,
                ).map_values(|s: String| s@).push(names@[i as int]@));
                i = i + 1;
            }
            assert(names@.subrange(0, names@.len() as int) =~= names@);
            Some(labels)
        },
    }
}

/// The assignees of an assignee array.
pub fn parse_assignees(v: Option<&JsonValue>) -> (r: Option<Vec<IssueAssignee>>)
    ensures
        assignee_logins(r) == named_list(opt_value(v), "login"@),
{
    match names_from(v, "login") {
        None => None,
        Some(names) => {
            let mut people: Vec<IssueAssignee> = Vec::new();
            let mut i: usize = 0;
            while i < names.len()
                invariant
                    i <= names@.len(),
                    people@.map_values(|a: IssueAssignee| a.login@) == names@.subrange(0, i as int).map_values(
                        |s: String| s@,
                    ),
                decreases names@.len() - i,
            {
                let ghost before = people@;
                people.push(IssueAssignee { login: owned(names[i].as_str()) });
                assert(people@.map_values(|a: IssueAssignee| a.login@) =~= before.map_values(|a: IssueAssignee| a.login@).push(names@[i as int]@));
                assert(names@.subrange(0, i + 1).map_values(|s: String| s@) =~= names@.subrange(
                    0,
                    i as int,
                ).map_values(|s: String| s@).push(names@[i as int]@));
                i = i + 1;
            }
            assert(names@.subrange(0, names@.len() as int) =~= names@);
            Some(people)
        },
    }
}

/// The comment an entry describes, if it is one.
fn comment_from(e: &JsonValue) -> (r: Option<IssueCommentDetail>)
    ensures
        match r {
            Some(c) => comment_of(*e) == Some(c@),
            None => comment_of(*e) is None,
        },
{
    let body = match text_of(get(e, "body")) {
        Some(s) => trimmed(s),
        None => {
            let t = trimmed("");
            proof {
                reveal_strlit("");
            }
            t
        },
    };
    match e {
        JsonValue::Object(_) => {},
        _ => {
            return None;
        },
    }
    if body.unicode_len() == 0 {
        return None;
    }
    let id = match u64_of(get(e, "id")) {
        Some(n) => Some(n),
        None => u64_of(get(e, "databaseId")),
    };
    let created_at = match clean_text_of(get(e, "createdAt")) {
        Some(t) => Some(t),
        None => clean_text_of(get(e, "created_at")),
    };
    let author = match parse_author(get(e, "author")) {
        Some(a) => Some(a),
        None => parse_author(get(e, "user")),
    };
    let url = match clean_text_of(get(e, "url")) {
        Some(t) => Some(t),
        None => clean_text_of(get(e, "html_url")),
    };
    Some(IssueCommentDetail { id, body, created_at, author, url })
}

/// The comments of the `comments` member.
fn parse_comments(v: Option<&JsonValue>) -> (r: Vec<IssueCommentDetail>)
    ensures
        r@.map_values(|c: IssueCommentDetail| c@) == comments_of(comment_entries(opt_value(v))),
{
    let items: &Vec<JsonValue> = match v {
        Some(JsonValue::Array(items)) => items,
        _ => match get_of(v, "nodes") {
            Some(JsonValue::Array(items)) => items,
            _ => {
                let r: Vec<IssueCommentDetail> = Vec::new();
                assert(r@.map_values(|c: IssueCommentDetail| c@) =~= Seq::<CommentView>::empty());
                return r;
            },
        },
    };
    assert(items@ == comment_entries(opt_value(v)));
    let mut comments: Vec<IssueCommentDetail> = Vec::new();
    let mut i: usize = 0;
    while i < items.len()
        invariant
            i <= items@.len(),
            comments@.map_values(|c: IssueCommentDetail| c@) == comments_of(items@.subrange(0, i as int)),
        decreases items@.len() - i,
    {
        let ghost before = comments@;
        let ghost prefix = items@.subrange(0, i + 1);
        assert(prefix.drop_last() =~= items@.subrange(0, i as int));
        match comment_from(&items[i]) {
            Some(c) => {
                comments.push(c);
                assert(comments@.map_values(|c: IssueCommentDetail| c@) =~= before.map_values(
                    |c: IssueCommentDetail| c@,
                ) + seq![comments@.last()@]);
            },
            None => {
                assert(comments@.map_values(|c: IssueCommentDetail| c@) =~= before.map_values(
                    |c: IssueCommentDetail| c@,
                ) + Seq::<CommentView>::empty());
            },
        }
        i = i + 1;
    }
    assert(items@.subrange(0, items@.len() as int) =~= items@);
    comments
}

/// Reads the detail of an issue from the JSON that `gh issue view` prints.
pub fn issue_detail_from_json(v: &JsonValue) -> (r: Result<IssueDetail, AppError>)
    ensures
        issue_detail_result(*v, r),
{
    match v {
        JsonValue::Object(_) => {},
        _ => {
            return Err(
                AppError::new(ErrorCode::UpstreamError, "issue detail payload must be a JSON object", false),
            );
        },
    }
    let number = match u64_of(get(v, "number")) {
        Some(n) => n,
        None => {
            return Err(
                AppError::new(ErrorCode::UpstreamError, "issue detail payload missing number", false),
            );
        },
    };
    let title = match clean_text_of(get(v, "title")) {
        Some(t) => t,
        None => {
            return Err(AppError::new(ErrorCode::UpstreamError, "issue detail payload missing title", false));
        },
    };
    let state = match clean_text_of(get(v, "state")) {
        Some(t) => t,
        None => {
            return Err(AppError::new(ErrorCode::UpstreamError, "issue detail payload missing state", false));
        },
    };
    let url = match clean_text_of(get(v, "url")) {
        Some(t) => t,
        None => {
            return Err(AppError::new(ErrorCode::UpstreamError, "issue detail payload missing url", false));
        },
    };
    let body = match clean_text_of(get(v, "body")) {
        Some(t) => t,
        None => String::new(),
    };
    let author = parse_author(get(v, "author"));
    let labels = parse_labels(get(v, "labels"));
    let assignees = parse_assignees(get(v, "assignees"));
    let updated_at = clean_text_of(get(v, "updatedAt"));
    let comments = parse_comments(get(v, "comments"));
    Ok(IssueDetail { number, title, state, url, body, author, labels, assignees, updated_at, comments })
}

/// What reading the text of an issue detail gives.
pub open spec fn issue_detail_text_result(payload: Seq<char>, r: Result<IssueDetail, AppError>) -> bool {
    match json_text_reading(payload) {
        Err(m) => r matches Err(e) && e.is(upstream_view("failed to parse issue detail payload: "@ + m)),
        Ok(v) => issue_detail_result(v, r),
    }
}

/// `issue_detail_text_result` as a relation.
pub open spec fn issue_detail_parse() -> spec_fn(Seq<char>, Result<IssueDetail, AppError>) -> bool {
    |out: Seq<char>, r: Result<IssueDetail, AppError>| issue_detail_text_result(out, r)
}

/// Reads the detail of an issue from the text that `gh issue view --json`
/// prints: text that is not JSON is an upstream error quoting the parse error;
/// JSON is read as `issue_detail_result` says.
pub fn parse_issue_detail(payload: &str) -> (r: Result<IssueDetail, AppError>)
    ensures
        issue_detail_text_result(payload@, r),
{
    match parse_json_text(payload) {
        Ok(v) => issue_detail_from_json(&v),
        Err(m) => {
            let message = concat("failed to parse issue detail payload: ", m.as_str());
            Err(AppError::new(ErrorCode::UpstreamError, message.as_str(), false))
        },
    }
}

} // verus!
