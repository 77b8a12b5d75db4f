//! The state of the `gh` login, read from the text that `gh auth status`
//! prints, and the organizations of the signed-in account.
use vstd::prelude::*;
use crate::engine::command_registry::texts;
use crate::engine::error::{AppError, ErrorCode, upstream_view};
use crate::text::{
    blank, chars_of, contains_chars, contains_seq, find, find_chars, find_from, has_char, is_blank,
    lemma_split_on_len, lemma_split_on_push, lower, lower_chars, occurs_at, owned, split_on,
    starts_with, starts_with_chars, string_of_chars, strip_char, strip_char_chars, sub_chars,
    trim, trim_chars,
};

verus! {

broadcast use vstd::string::group_string_axioms;

#[derive(Debug, Clone, PartialEq, Eq)]
pub struct GhAuthStatus {
    pub host: String,
    pub logged_in: bool,
    pub account: Option<String>,
    pub active_account: Option<bool>,
    pub git_protocol: Option<String>,
    pub token_scopes: Vec<String>,
}

#[derive(Debug, Clone, PartialEq, Eq)]
pub struct GhOrganization {
    pub login: String,
    pub name: Option<String>,
}

/// What a login status says, over plain texts.
pub struct AuthStateView {
    pub host: Seq<char>,
    pub logged_in: bool,
    pub account: Option<Seq<char>>,
    pub active_account: Option<bool>,
    pub git_protocol: Option<Seq<char>>,
    pub token_scopes: Seq<Seq<char>>,
}

/// The text of an optional string.
pub open spec fn opt_text(o: Option<String>) -> Option<Seq<char>> {
    match o {
        Some(s) => Some(s@),
        None => None,
    }
}

impl View for GhAuthStatus {
    type V = AuthStateView;

    open spec fn view(&self) -> AuthStateView {
        AuthStateView {
            host: self.host@,
            logged_in: self.logged_in,
            account: opt_text(self.account),
            active_account: self.active_account,
            git_protocol: opt_text(self.git_protocol),
            token_scopes: texts(self.token_scopes@),
        }
    }
}

/// Signed out of `host`, with nothing else known.
pub open spec fn logged_out_view(host: Seq<char>) -> AuthStateView {
    AuthStateView {
        host,
        logged_in: false,
        account: None,
        active_account: None,
        git_protocol: None,
        token_scopes: Seq::empty(),
    }
}

impl GhAuthStatus {
    pub fn logged_out_default(host: &str) -> (s: Self)
        ensures
            s@ == logged_out_view(host@),
    {
        let s = GhAuthStatus {
            host: owned(host),
            logged_in: false,
            account: None,
            active_account: None,
            git_protocol: None,
            token_scopes: Vec::new(),
        };
        assert(texts(s.token_scopes@) =~= Seq::<Seq<char>>::empty());
        s
    }
}

/// The text starts with the character.
pub open spec fn starts_with_char(t: Seq<char>, c: char) -> bool {
    t.len() > 0 && t[0] == c
}

/// A line that names the host: no list marker in front, a dot and no space.
pub open spec fn is_host_line(t: Seq<char>) -> bool {
    &&& !starts_with_char(t, '-')
    &&& !starts_with_char(t, '\u{2713}')
    &&& !starts_with_char(t, '!')
    &&& !starts_with_char(t, 'x')
    &&& t.contains('.')
    &&& !t.contains(' ')
}

/// The end of the account name: the first space, else the first `(`, else
/// the end of the text.
pub open spec fn account_end(acc: Seq<char>) -> int {
    match find(acc, " "@) {
        Some(e) => e,
        None => match find(acc, "("@) {
            Some(e) => e,
            None => acc.len() as int,
        },
    }
}

/// The account that a "Logged in to {host} account {name} ..." line names,
/// the marker starting at `i`, when the name is not blank.
pub open spec fn logged_in_account(t: Seq<char>, i: int) -> Option<Seq<char>> {
    let seg = t.subrange(i + "Logged in to "@.len(), t.len() as int);
    match find(seg, " account "@) {
        None => None,
        Some(a) => {
            let acc = seg.subrange(a + " account "@.len(), seg.len() as int);
            let v = trim(acc.subrange(0, account_end(acc)));
            if v.len() > 0 {
                Some(v)
            } else {
                None
            }
        },
    }
}

/// A token scope as the status lists it, without blanks and quotes around it.
pub open spec fn scope_text(p: Seq<char>) -> Seq<char> {
    strip_char(strip_char(trim(p), '\''), '"')
}

/// The scopes of the comma-separated pieces, those that are not empty.
pub open spec fn scopes_of(pieces: Seq<Seq<char>>) -> Seq<Seq<char>>
    decreases pieces.len(),
{
    if pieces.len() == 0 {
        Seq::empty()
    } else if scope_text(pieces.last()).len() > 0 {
        scopes_of(pieces.drop_last()).push(scope_text(pieces.last()))
    } else {
        scopes_of(pieces.drop_last())
    }
}

/// `true` and `false` read as booleans, anything else as nothing.
pub open spec fn bool_word(v: Seq<char>) -> Option<bool> {
    if v == "true"@ {
        Some(true)
    } else if v == "false"@ {
        Some(false)
    } else {
        None
    }
}

/// The text after a prefix of `t`.
pub open spec fn after(t: Seq<char>, prefix: Seq<char>) -> Seq<char> {
    t.subrange(prefix.len() as int, t.len() as int)
}

/// What one line of the status output changes, the line trimmed: a host
/// line names the host; a "Logged in to" line names the account and marks
/// the login; the "- Active account:", "- Git operations protocol:" and
/// "- Token scopes:" entries set those fields; a line saying "not logged"
/// marks the logout. Other lines change nothing.
pub open spec fn status_step(st: AuthStateView, line: Seq<char>) -> AuthStateView {
    let t = trim(line);
    if t.len() == 0 {
        st
    } else if is_host_line(t) {
        AuthStateView { host: t, ..st }
    } else if find(t, "Logged in to "@) is Some {
        match logged_in_account(t, find(t, "Logged in to "@).unwrap()) {
            Some(a) => AuthStateView { account: Some(a), logged_in: true, ..st },
            None => st,
        }
    } else if starts_with(t, "- Active account:"@) {
        AuthStateView {
            active_account: bool_word(lower(trim(after(t, "- Active account:"@)))),
            ..st
        }
    } else if starts_with(t, "- Git operations protocol:"@) {
        if trim(after(t, "- Git operations protocol:"@)).len() > 0 {
            AuthStateView {
                git_protocol: Some(trim(after(t, "- Git operations protocol:"@))),
                ..st
            }
        } else {
            st
        }
    } else if starts_with(t, "- Token scopes:"@) {
        AuthStateView { token_scopes: scopes_of(split_on(after(t, "- Token scopes:"@), ',')), ..st }
    } else if contains_seq(t, "not logged"@) {
        AuthStateView { logged_in: false, ..st }
    } else {
        st
    }
}

/// The status after reading the lines in order, from signed out of
/// github.com.
pub open spec fn status_of_lines(lines: Seq<Seq<char>>) -> AuthStateView
    decreases lines.len(),
{
    if lines.len() == 0 {
        logged_out_view("github.com"@)
    } else {
        status_step(status_of_lines(lines.drop_last()), lines.last())
    }
}

/// What reading the status output gives: an error for a blank output, else
/// the status after its lines (split at line feeds; a carriage return before
/// a line feed is trimmed with the rest of the line).
pub open spec fn auth_status_result(payload: Seq<char>, r: Result<GhAuthStatus, AppError>) -> bool {
    if is_blank(payload) {
        r matches Err(e) && e.is(
            upstream_view("failed to parse gh auth status payload: empty output"@),
        )
    } else {
        r matches Ok(s) && s@ == status_of_lines(split_on(payload, '\n'))
    }
}

/// A position that `find_from` reports is an occurrence.
pub proof fn lemma_find_from_occurs(s: Seq<char>, sub: Seq<char>, i: int)
    ensures
        find_from(s, sub, i) matches Some(k) ==> occurs_at(s, sub, k),
    decreases s.len() + 1 - i,
{
    if !(i < 0 || i + sub.len() > s.len()) && !occurs_at(s, sub, i) {
        lemma_find_from_occurs(s, sub, i + 1);
    }
}

/// The scopes of a "- Token scopes:" entry.
fn scopes_in(rest: &Vec<char>) -> (r: Vec<String>)
    ensures
        texts(r@) == scopes_of(split_on(rest@, ',')),
{
    let n = rest.len();
    let mut scopes: Vec<String> = Vec::new();
    let mut start: usize = 0;
    let mut i: usize = 0;
    proof {
        assert(rest@.subrange(0, 0) =~= Seq::<char>::empty());
        assert(texts(scopes@) =~= Seq::<Seq<char>>::empty());
    }
    while i < n
        invariant
            start <= i <= n,
            n == rest@.len(),
            split_on(rest@.subrange(0, i as int), ',').len() >= 1,
            texts(scopes@) == scopes_of(split_on(rest@.subrange(0, i as int), ',').drop_last()),
            split_on(rest@.subrange(0, i as int), ',').last() == rest@.subrange(start as int, i as int),
        decreases n - i,
    {
        let ghost before = split_on(rest@.subrange(0, i as int), ',');
        proof {
            lemma_split_on_push(rest@.subrange(0, i as int), rest@[i as int], ',');
            assert(rest@.subrange(0, i + 1) =~= rest@.subrange(0, i as int).push(rest@[i as int]));
        }
        if rest[i] == ',' {
            let piece = sub_chars(rest, start, i);
            let ghost prev = texts(scopes@);
            push_scope(&mut scopes, &piece);
            proof {
                let after_split = split_on(rest@.subrange(0, i + 1), ',');
                assert(after_split.drop_last() =~= before);
                assert(before =~= before.drop_last().push(before.last()));
            }
            start = i + 1;
            assert(split_on(rest@.subrange(0, i + 1), ',').last() =~= rest@.subrange(start as int, i + 1));
        } else {
            proof {
                let after_split = split_on(rest@.subrange(0, i + 1), ',');
                assert(after_split.drop_last() =~= before.drop_last());
                assert(after_split.last() =~= rest@.subrange(start as int, i + 1));
            }
        }
        i = i + 1;
    }
    let piece = sub_chars(rest, start, n);
    push_scope(&mut scopes, &piece);
    proof {
        let all = split_on(rest@.subrange(0, n as int), ',');
        assert(all =~= all.drop_last().push(all.last()));
        assert(rest@.subrange(0, n as int) =~= rest@);
    }
    scopes
}

/// Appends the scope a piece names, when it is not empty.
fn push_scope(scopes: &mut Vec<String>, piece: &Vec<char>)
    ensures
        texts(final(scopes)@) == if scope_text(piece@).len() > 0 {
            texts(old(scopes)@).push(scope_text(piece@))
        } else {
            texts(old(scopes)@)
        },
{
    let t = trim_chars(piece);
    let a = strip_char_chars(&t, '\'');
    let b = strip_char_chars(&a, '"');
    if b.len() > 0 {
        let ghost before = texts(scopes@);
        scopes.push(string_of_chars(&b));
        assert(texts(scopes@) =~= before.push(scope_text(piece@)));
    }
}

/// The account named by a line holding "Logged in to " at `i`.
fn account_in(t: &Vec<char>, i: usize) -> (r: Option<String>)
    requires
        occurs_at(t@, "Logged in to "@, i as int),
    ensures
        opt_text(r) == logged_in_account(t@, i as int),
{
    let marker = chars_of("Logged in to ");
    let seg = sub_chars(t, i + marker.len(), t.len());
    let key = chars_of(" account ");
    match find_chars(&seg, &key) {
        None => None,
        Some(a) => {
            proof {
                lemma_find_from_occurs(seg@, key@, 0);
            }
            let acc = sub_chars(&seg, a + key.len(), seg.len());
            let space = chars_of(" ");
            let paren = chars_of("(");
            let end = match find_chars(&acc, &space) {
                Some(e) => {
                    proof {
                        lemma_find_from_occurs(acc@, space@, 0);
                    }
                    e
                },
                None => match find_chars(&acc, &paren) {
                    Some(e) => {
                        proof {
                            lemma_find_from_occurs(acc@, paren@, 0);
                        }
                        e
                    },
                    None => acc.len(),
                },
            };
            assert(end as int == account_end(acc@));
            let head = sub_chars(&acc, 0, end);
            let v = trim_chars(&head);
            if v.len() > 0 {
                Some(string_of_chars(&v))
            } else {
                None
            }
        },
    }
}

/// Applies one line of the status output.
fn apply_status_line(status: &mut GhAuthStatus, line: &Vec<char>)
    ensures
        final(status)@ == status_step(old(status)@, line@),
{
    let t = trim_chars(line);
    if t.len() == 0 {
        return;
    }
    let first = t[0];
    if first != '-' && first != '\u{2713}' && first != '!' && first != 'x' && has_char(&t, '.')
        && !has_char(&t, ' ') {
        status.host = string_of_chars(&t);
        return;
    }
    let marker = chars_of("Logged in to ");
    match find_chars(&t, &marker) {
        Some(i) => {
            proof {
                lemma_find_from_occurs(t@, marker@, 0);
            }
            match account_in(&t, i) {
                Some(a) => {
                    status.account = Some(a);
                    status.logged_in = true;
                },
                None => {},
            }
            return;
        },
        None => {},
    }
    let active = chars_of("- Active account:");
    if starts_with_chars(&t, &active) {
        let rest = sub_chars(&t, active.len(), t.len());
        let value = trim_chars(&rest);
        let lowered = lower_chars(&value);
        let word = string_of_chars(&lowered);
        status.active_account = if word == owned("true") {
            Some(true)
        } else if word == owned("false") {
            Some(false)
        } else {
            None
        };
        return;
    }
    let protocol = chars_of("- Git operations protocol:");
    if starts_with_chars(&t, &protocol) {
        let rest = sub_chars(&t, protocol.len(), t.len());
        let value = trim_chars(&rest);
        if value.len() > 0 {
            status.git_protocol = Some(string_of_chars(&value));
        }
        return;
    }
    let scopes = chars_of("- Token scopes:");
    if starts_with_chars(&t, &scopes) {
        let rest = sub_chars(&t, scopes.len(), t.len());
        status.token_scopes = scopes_in(&rest);
        return;
    }
    let logged_out = chars_of("not logged");
    if contains_chars(&t, &logged_out) {
        status.logged_in = false;
    }
}

/// Reads the output of `gh auth status`.
pub fn parse_gh_auth_status(payload: &str) -> (r: Result<GhAuthStatus, AppError>)
    ensures
        auth_status_result(payload@, r),
{
    if blank(payload) {
        return Err(
            AppError::new(
                ErrorCode::UpstreamError,
                "failed to parse gh auth status payload: empty output",
                false,
            ),
        );
    }
    let chars = chars_of(payload);
    let n = chars.len();
    let mut status = GhAuthStatus::logged_out_default("github.com");
    let mut start: usize = 0;
    let mut i: usize = 0;
    proof {
        assert(chars@.subrange(0, 0) =~= Seq::<char>::empty());
    }
    while i < n
        invariant
            start <= i <= n,
            n == chars@.len(),
            split_on(chars@.subrange(0, i as int), '\n').len() >= 1,
            status@ == status_of_lines(split_on(chars@.subrange(0, i as int), '\n').drop_last()),
            split_on(chars@.subrange(0, i as int), '\n').last() == chars@.subrange(start as int, i as int),
        decreases n - i,
    {
        let ghost before = split_on(chars@.subrange(0, i as int), '\n');
        proof {
            lemma_split_on_push(chars@.subrange(0, i as int), chars@[i as int], '\n');
            assert(chars@.subrange(0, i + 1) =~= chars@.subrange(0, i as int).push(chars@[i as int]));
        }
        if chars[i] == '\n' {
            let line = sub_chars(&chars, start, i);
            apply_status_line(&mut status, &line);
            proof {
                let after_split = split_on(chars@.subrange(0, i + 1), '\n');
                assert(after_split.drop_last() =~= before);
                assert(before =~= before.drop_last().push(before.last()));
            }
            start = i + 1;
            assert(split_on(chars@.subrange(0, i + 1), '\n').last() =~= chars@.subrange(start as int, i + 1));
        } else {
            proof {
                let after_split = split_on(chars@.subrange(0, i + 1), '\n');
                assert(after_split.drop_last() =~= before.drop_last());
                assert(after_split.last() =~= chars@.subrange(start as int, i + 1));
            }
        }
        i = i + 1;
    }
    let line = sub_chars(&chars, start, n);
    apply_status_line(&mut status, &line);
    proof {
        let all = split_on(chars@.subrange(0, n as int), '\n');
        assert(all =~= all.drop_last().push(all.last()));
        assert(chars@.subrange(0, n as int) =~= chars@);
    }
    Ok(status)
}

} // verus!
