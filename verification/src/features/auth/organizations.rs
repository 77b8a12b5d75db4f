//! The organizations of the signed-in account, as the front end lists them:
//! logins and names trimmed, entries without a login dropped, sorted by login
//! (stably), and a login that repeats the one before it, up to ASCII case,
//! dropped.
use vstd::prelude::*;
use super::dto::{GhOrganization, opt_text};
use crate::text::{chars_of, lower, lower_chars, string_of_chars, trim, trim_chars};

verus! {

broadcast use vstd::string::group_string_axioms;

/// An organization over plain texts: its login and, where set, its name.
pub type OrgEntry = (Seq<char>, Option<Seq<char>>);

/// An organization's entry.
pub open spec fn org_entry(o: GhOrganization) -> OrgEntry {
    (o.login@, opt_text(o.name))
}

/// The entries of a list of organizations.
pub open spec fn org_entries(s: Seq<GhOrganization>) -> Seq<OrgEntry> {
    s.map_values(|o: GhOrganization| org_entry(o))
}

/// An entry with its login and name trimmed; none where the login is blank,
/// and no name where the name is blank.
pub open spec fn cleaned_entry(e: OrgEntry) -> Option<OrgEntry> {
    let login = trim(e.0);
    if login.len() == 0 {
        None
    } else {
        Some(
            (
                login,
                match e.1 {
                    Some(n) => if trim(n).len() == 0 {
                        None
                    } else {
                        Some(trim(n))
                    },
                    None => None,
                },
            ),
        )
    }
}

/// The cleaned entries, in their order.
pub open spec fn cleaned(s: Seq<OrgEntry>) -> Seq<OrgEntry>
    decreases s.len(),
{
    if s.len() == 0 {
        Seq::empty()
    } else {
        let c = cleaned(s.drop_last());
        match cleaned_entry(s.last()) {
            Some(e) => c.push(e),
            None => c,
        }
    }
}

/// Whether text `a` sorts strictly before text `b`: character by character by
/// code point, a proper prefix first. (For UTF-8 strings this is the order of
/// their bytes, that of `String`'s `Ord`.)
pub open spec fn text_less(a: Seq<char>, b: Seq<char>) -> bool
    decreases a.len(),
{
    if b.len() == 0 {
        false
    } else if a.len() == 0 {
        true
    } else if a[0] != b[0] {
        a[0] < b[0]
    } else {
        text_less(a.drop_first(), b.drop_first())
    }
}

/// Where a stable insertion puts an entry with `login` into `s`: before the
/// first entry whose login sorts after it.
pub open spec fn insert_position(s: Seq<OrgEntry>, login: Seq<char>) -> int
    decreases s.len(),
{
    if s.len() == 0 {
        0
    } else if text_less(login, s[0].0) {
        0
    } else {
        1 + insert_position(s.drop_first(), login)
    }
}

/// The entries sorted by login, stably: entries with equal logins keep their
/// order.
pub open spec fn sorted_by_login(s: Seq<OrgEntry>) -> Seq<OrgEntry>
    decreases s.len(),
{
    if s.len() == 0 {
        Seq::empty()
    } else {
        let t = sorted_by_login(s.drop_last());
        t.insert(insert_position(t, s.last().0), s.last())
    }
}

/// Logins equal up to ASCII case.
pub open spec fn same_login(a: Seq<char>, b: Seq<char>) -> bool {
    lower(a) == lower(b)
}

/// The entries without those whose login equals, up to ASCII case, that of the
/// last entry kept before them.
pub open spec fn dedup_logins(s: Seq<OrgEntry>) -> Seq<OrgEntry>
    decreases s.len(),
{
    if s.len() == 0 {
        Seq::empty()
    } else {
        let d = dedup_logins(s.drop_last());
        if d.len() > 0 && same_login(d.last().0, s.last().0) {
            d
        } else {
            d.push(s.last())
        }
    }
}

/// The organizations as listed, from the entries the API reported.
pub open spec fn organizations_of(s: Seq<OrgEntry>) -> Seq<OrgEntry> {
    dedup_logins(sorted_by_login(cleaned(s)))
}

/// No login of `s` sorts before that of an entry ahead of it.
pub open spec fn sorted_logins(s: Seq<OrgEntry>) -> bool {
    forall|i: int, j: int| 0 <= i < j < s.len() ==> !text_less(#[trigger] s[j].0, #[trigger] s[i].0)
}

/// No text sorts before itself.
pub proof fn lemma_text_less_irreflexive(a: Seq<char>)
    ensures
        !text_less(a, a),
    decreases a.len(),
{
    if a.len() > 0 {
        lemma_text_less_irreflexive(a.drop_first());
    }
}

/// The order of texts is transitive.
pub proof fn lemma_text_less_transitive(a: Seq<char>, b: Seq<char>, c: Seq<char>)
    requires
        text_less(a, b),
        text_less(b, c),
    ensures
        text_less(a, c),
    decreases a.len(),
{
    if a.len() > 0 && b.len() > 0 && c.len() > 0 && a[0] == b[0] && b[0] == c[0] {
        lemma_text_less_transitive(a.drop_first(), b.drop_first(), c.drop_first());
    }
}

/// The insertion point follows every entry that does not sort after the login
/// and precedes the first that does.
proof fn lemma_insert_position(t: Seq<OrgEntry>, login: Seq<char>)
    ensures
        0 <= insert_position(t, login) <= t.len(),
        forall|i: int| 0 <= i < insert_position(t, login) ==> !text_less(login, #[trigger] t[i].0),
        insert_position(t, login) < t.len() ==> text_less(login, t[insert_position(t, login)].0),
    decreases t.len(),
{
    if t.len() > 0 && !text_less(login, t[0].0) {
        let rest = t.drop_first();
        lemma_insert_position(rest, login);
        assert forall|i: int| 0 <= i < insert_position(t, login) implies !text_less(
            login,
            #[trigger] t[i].0,
        ) by {
            if i > 0 {
                assert(t[i] == rest[i - 1]);
            }
        }
    }
}

/// Whether every entry of `u` is an entry of `s`.
pub open spec fn entries_within(u: Seq<OrgEntry>, s: Seq<OrgEntry>) -> bool {
    forall|k: int| 0 <= k < u.len() ==> s.contains(#[trigger] u[k])
}

/// Sorting keeps the logins in order and brings in no entry.
proof fn lemma_sorted_by_login(s: Seq<OrgEntry>)
    ensures
        sorted_logins(sorted_by_login(s)),
        entries_within(sorted_by_login(s), s),
    decreases s.len(),
{
    if s.len() > 0 {
        let init = s.drop_last();
        let x = s.last();
        let t = sorted_by_login(init);
        lemma_sorted_by_login(init);
        lemma_insert_position(t, x.0);
        let p = insert_position(t, x.0);
        let u = t.insert(p, x);
        assert(u == sorted_by_login(s));
        assert forall|i: int, j: int| 0 <= i < j < u.len() implies !text_less(
            #[trigger] u[j].0,
            #[trigger] u[i].0,
        ) by {
            if i < p && j == p {
                assert(u[i] == t[i]);
            } else if i == p && j > p {
                assert(u[j] == t[j - 1]);
                if text_less(u[j].0, x.0) {
                    if p < j - 1 {
                        assert(!text_less(t[j - 1].0, t[p].0));
                    } else {
                        lemma_text_less_irreflexive(t[p].0);
                    }
                    lemma_text_less_transitive(u[j].0, x.0, t[p].0);
                }
            } else if j < p {
                assert(u[i] == t[i] && u[j] == t[j]);
            } else if i < p {
                assert(u[i] == t[i] && u[j] == t[j - 1]);
            } else {
                assert(u[i] == t[i - 1] && u[j] == t[j - 1]);
            }
        }
        assert forall|k: int| 0 <= k < u.len() implies s.contains(#[trigger] u[k]) by {
            if k == p {
                assert(s[s.len() - 1] == u[k]);
            } else {
                let m = if k < p { k } else { k - 1 };
                assert(u[k] == t[m]);
                assert(init.contains(t[m]));
                let w = choose|w: int| 0 <= w < init.len() && init[w] == t[m];
                assert(s[w] == u[k]);
            }
        }
    }
}

/// Dropping repeated logins keeps the order, leaves no two neighbours with
/// the same login up to case, and brings in no entry.
proof fn lemma_dedup_logins(s: Seq<OrgEntry>)
    ensures
        sorted_logins(s) ==> sorted_logins(dedup_logins(s)),
        forall|i: int|
            0 <= i < dedup_logins(s).len() - 1 ==> !same_login(
                #[trigger] dedup_logins(s)[i].0,
                dedup_logins(s)[i + 1].0,
            ),
        entries_within(dedup_logins(s), s),
    decreases s.len(),
{
    if s.len() > 0 {
        let init = s.drop_last();
        let d = dedup_logins(init);
        lemma_dedup_logins(init);
        assert forall|k: int| 0 <= k < d.len() implies s.contains(#[trigger] d[k]) by {
            assert(init.contains(d[k]));
            let w = choose|w: int| 0 <= w < init.len() && init[w] == d[k];
            assert(s[w] == d[k]);
        }
        if !(d.len() > 0 && same_login(d.last().0, s.last().0)) {
            let u = d.push(s.last());
            assert(u == dedup_logins(s));
            assert(s[s.len() - 1] == u[d.len() as int]);
            if sorted_logins(s) {
                assert(sorted_logins(init)) by {
                    assert forall|i: int, j: int| 0 <= i < j < init.len() implies !text_less(
                        #[trigger] init[j].0,
                        #[trigger] init[i].0,
                    ) by {
                        assert(init[i] == s[i] && init[j] == s[j]);
                    }
                }
                assert forall|i: int, j: int| 0 <= i < j < u.len() implies !text_less(
                    #[trigger] u[j].0,
                    #[trigger] u[i].0,
                ) by {
                    if j == d.len() {
                        assert(init.contains(d[i]));
                        let w = choose|w: int| 0 <= w < init.len() && init[w] == d[i];
                        assert(s[w] == u[i]);
                        assert(s[s.len() - 1] == u[j]);
                    } else {
                        assert(u[i] == d[i] && u[j] == d[j]);
                    }
                }
            }
            assert forall|i: int| 0 <= i < u.len() - 1 implies !same_login(
                #[trigger] u[i].0,
                u[i + 1].0,
            ) by {
                if i + 1 < d.len() {
                    assert(u[i] == d[i] && u[i + 1] == d[i + 1]);
                }
            }
        }
    }
}

/// Every cleaned entry has a login.
proof fn lemma_cleaned_logins(s: Seq<OrgEntry>)
    ensures
        forall|k: int| 0 <= k < cleaned(s).len() ==> (#[trigger] cleaned(s)[k]).0.len() > 0,
    decreases s.len(),
{
    if s.len() > 0 {
        let init = cleaned(s.drop_last());
        lemma_cleaned_logins(s.drop_last());
        match cleaned_entry(s.last()) {
            Some(e) => {
                assert forall|k: int| 0 <= k < cleaned(s).len() implies (#[trigger] cleaned(
                    s,
                )[k]).0.len() > 0 by {
                    if k < init.len() {
                        assert(cleaned(s)[k] == init[k]);
                    }
                }
            },
            None => {},
        }
    }
}

/// The organizations come out sorted by login, every login present, no login
/// equal, up to ASCII case, to the one listed before it, and each of them a
/// cleaned entry of the input.
pub proof fn lemma_organizations_sorted_and_distinct(s: Seq<OrgEntry>)
    ensures
        sorted_logins(organizations_of(s)),
        forall|i: int|
            0 <= i < organizations_of(s).len() - 1 ==> !same_login(
                #[trigger] organizations_of(s)[i].0,
                organizations_of(s)[i + 1].0,
            ),
        forall|k: int|
            0 <= k < organizations_of(s).len() ==> (#[trigger] organizations_of(s)[k]).0.len() > 0,
        entries_within(organizations_of(s), cleaned(s)),
{
    let c = cleaned(s);
    let t = sorted_by_login(c);
    let r = organizations_of(s);
    lemma_cleaned_logins(s);
    lemma_sorted_by_login(c);
    lemma_dedup_logins(t);
    assert forall|k: int| 0 <= k < r.len() implies (#[trigger] r[k]).0.len() > 0 by {
        assert(t.contains(r[k]));
        let w = choose|w: int| 0 <= w < t.len() && t[w] == r[k];
        assert(c.contains(t[w]));
        let v = choose|v: int| 0 <= v < c.len() && c[v] == t[w];
        assert(c[v].0.len() > 0);
    }
    assert forall|k: int| 0 <= k < r.len() implies c.contains(#[trigger] r[k]) by {
        assert(t.contains(r[k]));
        let w = choose|w: int| 0 <= w < t.len() && t[w] == r[k];
        assert(c.contains(t[w]));
    }
}

/// Two different texts are ordered one way or the other.
pub proof fn lemma_text_less_total(a: Seq<char>, b: Seq<char>)
    requires
        a != b,
    ensures
        text_less(a, b) || text_less(b, a),
    decreases a.len(),
{
    if a.len() > 0 && b.len() > 0 && a[0] == b[0] {
        if a.drop_first() == b.drop_first() {
            assert(a =~= seq![a[0]] + a.drop_first());
            assert(b =~= seq![b[0]] + b.drop_first());
        }
        lemma_text_less_total(a.drop_first(), b.drop_first());
    } else if a.len() > 0 && b.len() > 0 {
        assert(a[0] < b[0] || b[0] < a[0]);
    } else if a.len() == 0 && b.len() == 0 {
        assert(a =~= b);
    }
}

/// Sorting keeps every entry.
proof fn lemma_sorted_keeps(s: Seq<OrgEntry>)
    ensures
        forall|k: int| 0 <= k < s.len() ==> sorted_by_login(s).contains(#[trigger] s[k]),
    decreases s.len(),
{
    if s.len() > 0 {
        let init = s.drop_last();
        let x = s.last();
        let t = sorted_by_login(init);
        lemma_sorted_keeps(init);
        lemma_insert_position(t, x.0);
        let p = insert_position(t, x.0);
        let u = t.insert(p, x);
        assert(u == sorted_by_login(s));
        assert forall|k: int| 0 <= k < s.len() implies u.contains(#[trigger] s[k]) by {
            if k == s.len() - 1 {
                assert(u[p] == x);
            } else {
                assert(init[k] == s[k]);
                assert(t.contains(init[k]));
                let w = choose|w: int| 0 <= w < t.len() && t[w] == init[k];
                if w < p {
                    assert(u[w] == t[w]);
                } else {
                    assert(u[w + 1] == t[w]);
                }
            }
        }
    }
}

/// Every entry has one with the same login, up to case, among those kept.
proof fn lemma_dedup_covers(s: Seq<OrgEntry>)
    ensures
        forall|k: int|
            0 <= k < s.len() ==> exists|i: int|
                0 <= i < dedup_logins(s).len() && same_login(
                    #[trigger] dedup_logins(s)[i].0,
                    (#[trigger] s[k]).0,
                ),
    decreases s.len(),
{
    if s.len() > 0 {
        let init = s.drop_last();
        let d = dedup_logins(init);
        let r = dedup_logins(s);
        lemma_dedup_covers(init);
        assert(forall|i: int| 0 <= i < d.len() ==> #[trigger] r[i] == d[i]) by {
            if !(d.len() > 0 && same_login(d.last().0, s.last().0)) {
                assert(r == d.push(s.last()));
            }
        }
        assert forall|k: int| 0 <= k < s.len() implies exists|i: int|
            0 <= i < r.len() && same_login(#[trigger] r[i].0, (#[trigger] s[k]).0) by {
            if k == s.len() - 1 {
                if d.len() > 0 && same_login(d.last().0, s.last().0) {
                    let w = d.len() - 1;
                    assert(r[w] == d.last());
                    assert(0 <= w < r.len() && same_login(r[w].0, s[k].0));
                } else {
                    let w = d.len() as int;
                    assert(r[w] == s.last());
                    assert(0 <= w < r.len() && same_login(r[w].0, s[k].0));
                }
            } else {
                assert(init[k] == s[k]);
                let i = choose|i: int| 0 <= i < d.len() && same_login(#[trigger] d[i].0, init[k].0);
                assert(r[i] == d[i]);
                assert(0 <= i < r.len() && same_login(r[i].0, s[k].0));
            }
        }
    }
}

/// The listed organizations have pairwise different logins, and every login
/// of the cleaned input is listed, up to ASCII case.
pub proof fn lemma_organizations_distinct_and_complete(s: Seq<OrgEntry>)
    ensures
        forall|i: int, j: int|
            0 <= i < j < organizations_of(s).len() ==> (#[trigger] organizations_of(s)[i]).0
                != (#[trigger] organizations_of(s)[j]).0,
        forall|k: int|
            0 <= k < cleaned(s).len() ==> exists|i: int|
                0 <= i < organizations_of(s).len() && same_login(
                    #[trigger] organizations_of(s)[i].0,
                    (#[trigger] cleaned(s)[k]).0,
                ),
{
    let c = cleaned(s);
    let t = sorted_by_login(c);
    let r = organizations_of(s);
    lemma_organizations_sorted_and_distinct(s);
    assert forall|i: int, j: int| 0 <= i < j < r.len() implies (#[trigger] r[i]).0 != (
    #[trigger] r[j]).0 by {
        if r[i].0 == r[j].0 {
            if j > i + 1 {
                assert(!text_less(r[i + 1].0, r[i].0));
                assert(!text_less(r[j].0, r[i + 1].0));
                if r[i + 1].0 != r[i].0 {
                    lemma_text_less_total(r[i + 1].0, r[i].0);
                }
            }
            assert(same_login(r[i].0, r[i + 1].0));
        }
    }
    lemma_sorted_keeps(c);
    lemma_dedup_covers(t);
    assert forall|k: int| 0 <= k < c.len() implies exists|i: int|
        0 <= i < r.len() && same_login(#[trigger] r[i].0, (#[trigger] c[k]).0) by {
        assert(t.contains(c[k]));
        let w = choose|w: int| 0 <= w < t.len() && t[w] == c[k];
        let i = choose|i: int| 0 <= i < r.len() && same_login(r[i].0, t[w].0);
    }
}

/// Whether the characters `a` and `b` are the same.
pub fn same_chars(a: &Vec<char>, b: &Vec<char>) -> (r: bool)
    ensures
        r == (a@ == b@),
{
    if a.len() != b.len() {
        return false;
    }
    let mut i: usize = 0;
    while i < a.len()
        invariant
            a@.len() == b@.len(),
            i <= a@.len(),
            forall|j: int| 0 <= j < i ==> a@[j] == b@[j],
        decreases a@.len() - i,
    {
        if a[i] != b[i] {
            return false;
        }
        i = i + 1;
    }
    assert(a@ =~= b@);
    true
}

/// Whether `a` sorts strictly before `b`.
pub fn chars_less(a: &Vec<char>, b: &Vec<char>) -> (r: bool)
    ensures
        r == text_less(a@, b@),
{
    let mut i: usize = 0;
    assert(a@.subrange(0, a@.len() as int) =~= a@);
    assert(b@.subrange(0, b@.len() as int) =~= b@);
    while i < a.len() && i < b.len()
        invariant
            i <= a@.len(),
            i <= b@.len(),
            text_less(a@, b@) == text_less(
                a@.subrange(i as int, a@.len() as int),
                b@.subrange(i as int, b@.len() as int),
            ),
        decreases a@.len() - i,
    {
        let x = a[i];
        let y = b[i];
        if x != y {
            return x < y;
        }
        proof {
            let sa = a@.subrange(i as int, a@.len() as int);
            let sb = b@.subrange(i as int, b@.len() as int);
            assert(sa.drop_first() =~= a@.subrange(i + 1, a@.len() as int));
            assert(sb.drop_first() =~= b@.subrange(i + 1, b@.len() as int));
        }
        i = i + 1;
    }
    i < b.len()
}

/// The cleaned form of one organization, if its login is not blank.
pub fn clean_organization(o: &GhOrganization) -> (r: Option<GhOrganization>)
    ensures
        match r {
            Some(c) => cleaned_entry(org_entry(*o)) == Some(org_entry(c)),
            None => cleaned_entry(org_entry(*o)) is None,
        },
{
    let login = trim_chars(&chars_of(o.login.as_str()));
    if login.len() == 0 {
        return None;
    }
    let name = match &o.name {
        Some(n) => {
            let t = trim_chars(&chars_of(n.as_str()));
            if t.len() == 0 {
                None
            } else {
                Some(string_of_chars(&t))
            }
        },
        None => None,
    };
    Some(GhOrganization { login: string_of_chars(&login), name })
}

/// A copy of an organization.
fn copy_organization(o: &GhOrganization) -> (c: GhOrganization)
    ensures
        org_entry(c) == org_entry(*o),
{
    let name = match &o.name {
        Some(n) => Some(n.clone()),
        None => None,
    };
    GhOrganization { login: o.login.clone(), name }
}

/// The position at which `login` goes into the sorted list `v`.
fn insertion_point(v: &Vec<GhOrganization>, login: &Vec<char>) -> (p: usize)
    ensures
        p as int == insert_position(org_entries(v@), login@),
        p <= v@.len(),
{
    let ghost s = org_entries(v@);
    let mut j: usize = 0;
    assert(s.subrange(0, s.len() as int) =~= s);
    while j < v.len()
        invariant
            s == org_entries(v@),
            j <= v@.len(),
            insert_position(s, login@) == j + insert_position(
                s.subrange(j as int, s.len() as int),
                login@,
            ),
        decreases v@.len() - j,
    {
        let other = chars_of(v[j].login.as_str());
        proof {
            let rest = s.subrange(j as int, s.len() as int);
            assert(rest[0] == s[j as int]);
            assert(rest.drop_first() =~= s.subrange(j + 1, s.len() as int));
        }
        if chars_less(login, &other) {
            return j;
        }
        j = j + 1;
    }
    proof {
        assert(s.subrange(j as int, s.len() as int).len() == 0);
    }
    j
}

/// The organizations as listed: cleaned, sorted by login, and without a login
/// that repeats, up to ASCII case, the one kept before it.
pub fn normalize_organizations(raw: Vec<GhOrganization>) -> (r: Vec<GhOrganization>)
    ensures
        org_entries(r@) == organizations_of(org_entries(raw@)),
{
    let ghost entries = org_entries(raw@);
    let mut sorted: Vec<GhOrganization> = Vec::new();
    let mut i: usize = 0;
    while i < raw.len()
        invariant
            entries == org_entries(raw@),
            i <= raw@.len(),
            org_entries(sorted@) == sorted_by_login(cleaned(entries.subrange(0, i as int))),
        decreases raw@.len() - i,
    {
        proof {
            assert(entries.subrange(0, i + 1).drop_last() =~= entries.subrange(0, i as int));
            assert(entries.subrange(0, i + 1).last() == org_entry(raw@[i as int]));
        }
        match clean_organization(&raw[i]) {
            Some(c) => {
                let login = chars_of(c.login.as_str());
                let p = insertion_point(&sorted, &login);
                let ghost before = org_entries(sorted@);
                sorted.insert(p, c);
                proof {
                    assert(org_entries(sorted@) =~= before.insert(p as int, org_entry(c)));
                    assert(cleaned(entries.subrange(0, i + 1)) == cleaned(
                        entries.subrange(0, i as int),
                    ).push(org_entry(c)));
                    let cl = cleaned(entries.subrange(0, i + 1));
                    assert(cl.drop_last() =~= cleaned(entries.subrange(0, i as int)));
                }
            },
            None => {
                proof {
                    assert(cleaned(entries.subrange(0, i + 1)) == cleaned(
                        entries.subrange(0, i as int),
                    ));
                }
            },
        }
        i = i + 1;
    }
    proof {
        assert(entries.subrange(0, i as int) =~= entries);
    }
    let ghost sorted_entries = org_entries(sorted@);
    let mut kept: Vec<GhOrganization> = Vec::new();
    let mut last_key: Vec<char> = Vec::new();
    let mut k: usize = 0;
    while k < sorted.len()
        invariant
            sorted_entries == org_entries(sorted@),
            k <= sorted@.len(),
            org_entries(kept@) == dedup_logins(sorted_entries.subrange(0, k as int)),
            kept@.len() > 0 ==> last_key@ == lower(kept@.last().login@),
        decreases sorted@.len() - k,
    {
        let o = copy_organization(&sorted[k]);
        let key = lower_chars(&chars_of(o.login.as_str()));
        proof {
            assert(sorted_entries.subrange(0, k + 1).drop_last() =~= sorted_entries.subrange(
                0,
                k as int,
            ));
            assert(sorted_entries.subrange(0, k + 1).last() == org_entry(sorted@[k as int]));
        }
        if kept.len() > 0 && same_chars(&last_key, &key) {
            proof {
                let d = dedup_logins(sorted_entries.subrange(0, k as int));
                assert(d.last() == org_entry(kept@.last()));
            }
        } else {
            let ghost before = org_entries(kept@);
            kept.push(o);
            last_key = key;
            proof {
                assert(org_entries(kept@) =~= before.push(org_entry(sorted@[k as int])));
            }
        }
        k = k + 1;
    }
    proof {
        assert(sorted_entries.subrange(0, k as int) =~= sorted_entries);
    }
    kept
}

} // verus!
