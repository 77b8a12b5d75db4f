//! The keywords that the front end's payloads carry (a visibility, a review
//! event, a merge method, ...), read leniently: surrounding white space is
//! ignored and letters may be of either case. An unknown keyword is a
//! validation error that quotes it.
use vstd::prelude::*;
use crate::engine::error::{AppError, validation_view};
use crate::features::issues::service::CloseReason;
use crate::features::pull_requests::service::{MergeMethod, ReviewEvent};
use crate::features::repositories::service::RepositoryVisibility;
use crate::features::settings::service::{CollaboratorPermission, SecretApp, WebhookContentType};
use crate::text::{chars_equal, concat, string_of_chars, token, token_of};

verus! {

/// The visibility a keyword names.
pub open spec fn visibility_named(t: Seq<char>) -> Option<RepositoryVisibility> {
    if t == "public"@ {
        Some(RepositoryVisibility::Public)
    } else if t == "private"@ {
        Some(RepositoryVisibility::Private)
    } else if t == "internal"@ {
        Some(RepositoryVisibility::Internal)
    } else {
        None
    }
}

/// Reads an optional visibility; no value is no visibility.
pub fn parse_repo_visibility(value: Option<String>) -> (r: Result<
    Option<RepositoryVisibility>,
    AppError,
>)
    ensures
        match value {
            None => r matches Ok(v) && v is None,
            Some(raw) => match visibility_named(token(raw@)) {
                Some(vis) => r matches Ok(v) && v == Some(vis),
                None => r matches Err(e) && e.is(validation_view("invalid visibility: "@ + raw@)),
            },
        },
{
    match value {
        None => Ok(None),
        Some(raw) => {
            let t = token_of(raw.as_str());
            if chars_equal(&t, "public") {
                Ok(Some(RepositoryVisibility::Public))
            } else if chars_equal(&t, "private") {
                Ok(Some(RepositoryVisibility::Private))
            } else if chars_equal(&t, "internal") {
                Ok(Some(RepositoryVisibility::Internal))
            } else {
                let message = concat("invalid visibility: ", raw.as_str());
                Err(AppError::validation(message.as_str()))
            }
        },
    }
}

/// The text with each underscore and space written as a hyphen.
pub open spec fn hyphenated(t: Seq<char>) -> Seq<char> {
    t.map_values(|c: char| if c == '_' || c == ' ' { '-' } else { c })
}

/// The review event a keyword names; the two words of a request for changes
/// may be joined by an underscore, a hyphen or a space.
pub open spec fn review_event_named(t: Seq<char>) -> Option<ReviewEvent> {
    if t == "approve"@ {
        Some(ReviewEvent::Approve)
    } else if hyphenated(t) == "request-changes"@ {
        Some(ReviewEvent::RequestChanges)
    } else if t == "comment"@ {
        Some(ReviewEvent::Comment)
    } else {
        None
    }
}

pub fn parse_review_event(value: &str) -> (r: Result<ReviewEvent, AppError>)
    ensures
        match review_event_named(token(value@)) {
            Some(ev) => r == Ok::<ReviewEvent, AppError>(ev),
            None => r matches Err(e) && e.is(validation_view("invalid review event: "@ + value@)),
        },
{
    let t = token_of(value);
    if chars_equal(&t, "approve") {
        Ok(ReviewEvent::Approve)
    } else if chars_equal(&hyphenated_chars(&t), "request-changes") {
        Ok(ReviewEvent::RequestChanges)
    } else if chars_equal(&t, "comment") {
        Ok(ReviewEvent::Comment)
    } else {
        let message = concat("invalid review event: ", value);
        Err(AppError::validation(message.as_str()))
    }
}

/// The characters with each underscore and space written as a hyphen.
pub fn hyphenated_chars(v: &Vec<char>) -> (r: Vec<char>)
    ensures
        r@ == hyphenated(v@),
{
    let mut r: Vec<char> = Vec::new();
    let mut i: usize = 0;
    while i < v.len()
        invariant
            i <= v@.len(),
            r@ == hyphenated(v@.subrange(0, i as int)),
        decreases v@.len() - i,
    {
        let c = v[i];
        if c == '_' || c == ' ' {
            r.push('-');
        } else {
            r.push(c);
        }
        proof {
            assert(hyphenated(v@.subrange(0, i + 1)) =~= hyphenated(v@.subrange(0, i as int)).push(
                r@.last(),
            ));
        }
        i = i + 1;
    }
    assert(v@.subrange(0, v@.len() as int) =~= v@);
    r
}

/// The merge method a keyword names.
pub open spec fn merge_method_named(t: Seq<char>) -> Option<MergeMethod> {
    if t == "merge"@ {
        Some(MergeMethod::Merge)
    } else if t == "squash"@ {
        Some(MergeMethod::Squash)
    } else if t == "rebase"@ {
        Some(MergeMethod::Rebase)
    } else {
        None
    }
}

pub fn parse_merge_method(value: &str) -> (r: Result<MergeMethod, AppError>)
    ensures
        match merge_method_named(token(value@)) {
            Some(m) => r == Ok::<MergeMethod, AppError>(m),
            None => r matches Err(e) && e.is(validation_view("invalid merge method: "@ + value@)),
        },
{
    let t = token_of(value);
    if chars_equal(&t, "merge") {
        Ok(MergeMethod::Merge)
    } else if chars_equal(&t, "squash") {
        Ok(MergeMethod::Squash)
    } else if chars_equal(&t, "rebase") {
        Ok(MergeMethod::Rebase)
    } else {
        let message = concat("invalid merge method: ", value);
        Err(AppError::validation(message.as_str()))
    }
}

/// The reason for closing an issue that a keyword names; "not planned" may be
/// written with a space, an underscore or a hyphen.
pub open spec fn close_reason_named(t: Seq<char>) -> Option<CloseReason> {
    if t == "completed"@ {
        Some(CloseReason::Completed)
    } else if t == "not planned"@ || t == "not_planned"@ || t == "not-planned"@ {
        Some(CloseReason::NotPlanned)
    } else {
        None
    }
}

/// Reads an optional reason for closing an issue; no value is no reason.
pub fn parse_issue_close_reason(value: Option<String>) -> (r: Result<Option<CloseReason>, AppError>)
    ensures
        match value {
            None => r matches Ok(v) && v is None,
            Some(raw) => match close_reason_named(token(raw@)) {
                Some(reason) => r matches Ok(v) && v == Some(reason),
                None => r matches Err(e) && e.is(
                    validation_view("invalid issue close reason: "@ + raw@),
                ),
            },
        },
{
    match value {
        None => Ok(None),
        Some(raw) => {
            let t = token_of(raw.as_str());
            if chars_equal(&t, "completed") {
                Ok(Some(CloseReason::Completed))
            } else if chars_equal(&t, "not planned") || chars_equal(&t, "not_planned")
                || chars_equal(&t, "not-planned") {
                Ok(Some(CloseReason::NotPlanned))
            } else {
                let message = concat("invalid issue close reason: ", raw.as_str());
                Err(AppError::validation(message.as_str()))
            }
        },
    }
}

/// The collaborator permission a keyword names.
pub open spec fn collaborator_permission_named(t: Seq<char>) -> Option<CollaboratorPermission> {
    if t == "pull"@ {
        Some(CollaboratorPermission::Pull)
    } else if t == "push"@ {
        Some(CollaboratorPermission::Push)
    } else if t == "admin"@ {
        Some(CollaboratorPermission::Admin)
    } else if t == "maintain"@ {
        Some(CollaboratorPermission::Maintain)
    } else if t == "triage"@ {
        Some(CollaboratorPermission::Triage)
    } else {
        None
    }
}

pub fn parse_collaborator_permission(value: &str) -> (r: Result<CollaboratorPermission, AppError>)
    ensures
        match collaborator_permission_named(token(value@)) {
            Some(p) => r == Ok::<CollaboratorPermission, AppError>(p),
            None => r matches Err(e) && e.is(
                validation_view("invalid collaborator permission: "@ + value@),
            ),
        },
{
    let t = token_of(value);
    if chars_equal(&t, "pull") {
        Ok(CollaboratorPermission::Pull)
    } else if chars_equal(&t, "push") {
        Ok(CollaboratorPermission::Push)
    } else if chars_equal(&t, "admin") {
        Ok(CollaboratorPermission::Admin)
    } else if chars_equal(&t, "maintain") {
        Ok(CollaboratorPermission::Maintain)
    } else if chars_equal(&t, "triage") {
        Ok(CollaboratorPermission::Triage)
    } else {
        let message = concat("invalid collaborator permission: ", value);
        Err(AppError::validation(message.as_str()))
    }
}

/// The application a secret belongs to that a keyword names.
pub open spec fn secret_app_named(t: Seq<char>) -> Option<SecretApp> {
    if t == "actions"@ {
        Some(SecretApp::Actions)
    } else if t == "dependabot"@ {
        Some(SecretApp::Dependabot)
    } else if t == "codespaces"@ {
        Some(SecretApp::Codespaces)
    } else {
        None
    }
}

/// Reads an optional secret application; no value is none.
pub fn parse_secret_app(value: Option<String>) -> (r: Result<Option<SecretApp>, AppError>)
    ensures
        match value {
            None => r matches Ok(v) && v is None,
            Some(raw) => match secret_app_named(token(raw@)) {
                Some(app) => r matches Ok(v) && v == Some(app),
                None => r matches Err(e) && e.is(validation_view("invalid secret app: "@ + raw@)),
            },
        },
{
    match value {
        None => Ok(None),
        Some(raw) => {
            let t = token_of(raw.as_str());
            if chars_equal(&t, "actions") {
                Ok(Some(SecretApp::Actions))
            } else if chars_equal(&t, "dependabot") {
                Ok(Some(SecretApp::Dependabot))
            } else if chars_equal(&t, "codespaces") {
                Ok(Some(SecretApp::Codespaces))
            } else {
                let message = concat("invalid secret app: ", raw.as_str());
                Err(AppError::validation(message.as_str()))
            }
        },
    }
}

/// The webhook content type a keyword names.
pub open spec fn content_type_named(t: Seq<char>) -> Option<WebhookContentType> {
    if t == "json"@ {
        Some(WebhookContentType::Json)
    } else if t == "form"@ {
        Some(WebhookContentType::Form)
    } else {
        None
    }
}

/// Reads an optional webhook content type; no value is JSON. The error quotes
/// the keyword as read, trimmed and lower-cased.
pub fn parse_webhook_content_type(value: Option<String>) -> (r: Result<WebhookContentType, AppError>)
    ensures
        match value {
            None => r == Ok::<WebhookContentType, AppError>(WebhookContentType::Json),
            Some(raw) => match content_type_named(token(raw@)) {
                Some(c) => r == Ok::<WebhookContentType, AppError>(c),
                None => r matches Err(e) && e.is(
                    validation_view("invalid webhook content_type: "@ + token(raw@)),
                ),
            },
        },
{
    match value {
        None => Ok(WebhookContentType::Json),
        Some(raw) => {
            let t = token_of(raw.as_str());
            if chars_equal(&t, "json") {
                Ok(WebhookContentType::Json)
            } else if chars_equal(&t, "form") {
                Ok(WebhookContentType::Form)
            } else {
                let read = string_of_chars(&t);
                let message = concat("invalid webhook content_type: ", read.as_str());
                Err(AppError::validation(message.as_str()))
            }
        },
    }
}

/// Whether a setting's value switches a flag on: "1", "true" or "yes", read
/// leniently. An absent setting leaves it off.
pub open spec fn flag_value_on(value: Option<Seq<char>>) -> bool {
    match value {
        None => false,
        Some(raw) => {
            let t = token(raw);
            t == "1"@ || t == "true"@ || t == "yes"@
        },
    }
}

pub fn flag_enabled(value: Option<String>) -> (b: bool)
    ensures
        b == flag_value_on(
            match value {
                None => None,
                Some(raw) => Some(raw@),
            },
        ),
{
    match value {
        None => false,
        Some(raw) => {
            let t = token_of(raw.as_str());
            chars_equal(&t, "1") || chars_equal(&t, "true") || chars_equal(&t, "yes")
        },
    }
}

} // verus!
