//! What the project commands report, as plain records.
use vstd::prelude::*;

verus! {

#[derive(Debug, Clone, PartialEq, Eq)]
pub struct ProjectSummary {
    pub id: String,
    pub title: String,
    pub url: String,
    pub closed: bool,
}

#[derive(Debug, Clone, PartialEq, Eq)]
pub struct ProjectItemSummary {
    pub id: String,
    pub content_type: Option<String>,
    pub content_title: Option<String>,
    pub content_url: Option<String>,
}

#[derive(Debug, Clone, PartialEq, Eq)]
pub struct AddedProjectItem {
    pub item_id: String,
}

/// What a project item holds, as the GraphQL API reports it.
#[derive(Debug, Clone, PartialEq, Eq)]
pub struct ProjectItemContent {
    pub typename: Option<String>,
    pub title: Option<String>,
    pub url: Option<String>,
}

/// A project item as the GraphQL API reports it.
#[derive(Debug, Clone, PartialEq, Eq)]
pub struct ProjectItemNode {
    pub id: String,
    pub content: Option<ProjectItemContent>,
}

/// The summary of a project item: the kind, title and address of what it
/// holds, each where present.
pub open spec fn item_spec(n: ProjectItemNode) -> ProjectItemSummary {
    ProjectItemSummary {
        id: n.id,
        content_type: match n.content {
            Some(c) => c.typename,
            None => None,
        },
        content_title: match n.content {
            Some(c) => c.title,
            None => None,
        },
        content_url: match n.content {
            Some(c) => c.url,
            None => None,
        },
    }
}

/// The summary of a project item.
pub fn map_project_item(n: ProjectItemNode) -> (s: ProjectItemSummary)
    ensures
        s == item_spec(n),
{
    match n.content {
        Some(c) => ProjectItemSummary {
            id: n.id,
            content_type: c.typename,
            content_title: c.title,
            content_url: c.url,
        },
        None => ProjectItemSummary { id: n.id, content_type: None, content_title: None, content_url: None },
    }
}

/// The summaries of the items of a project, in order (none when the
/// repository or the project is missing).
pub fn map_project_items(nodes: Option<Vec<ProjectItemNode>>) -> (r: Vec<ProjectItemSummary>)
    ensures
        match nodes {
            None => r@.len() == 0,
            Some(ns) => r@ == ns@.map_values(|n: ProjectItemNode| item_spec(n)),
        },
{
    let mut r: Vec<ProjectItemSummary> = Vec::new();
    let mut rest = match nodes {
        Some(ns) => ns,
        None => {
            return r;
        },
    };
    let ghost all = rest@;
    let ghost mut i: int = 0;
    while rest.len() > 0
        invariant
            0 <= i <= all.len(),
            rest@ == all.subrange(i, all.len() as int),
            r@ == all.subrange(0, i).map_values(|n: ProjectItemNode| item_spec(n)),
        decreases rest@.len(),
    {
        let ghost before = r@;
        let n = rest.remove(0);
        assert(n == all[i]);
        r.push(map_project_item(n));
        assert(all.subrange(0, i + 1).map_values(|n: ProjectItemNode| item_spec(n)) =~= before.push(
            item_spec(all[i]),
        ));
        proof {
            i = i + 1;
        }
        assert(rest@ =~= all.subrange(i, all.len() as int));
    }
    assert(all.subrange(0, all.len() as int) =~= all);
    r
}

} // verus!
