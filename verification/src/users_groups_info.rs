//! The users-and-groups probe: local accounts, local groups, and each
//! group's members, folded from the membership relation's rows. Member
//! names are cut out of structured reference paths.

use vstd::prelude::*;
use crate::text::{chars_string, first_match, find_sub, last_match, lemma_first_match_at, rfind_sub, str_chars, subvec};
use crate::value::{bool_or, get_bool_or, get_string_or_empty, str_field, str_or_empty, Record};

verus! {

/// One local account.
pub struct LocalUser {
    /// The account's name.
    pub name: String,
    /// Whether the account is disabled.
    pub disabled: bool,
    /// The account's description.
    pub description: String,
}

/// One local group.
pub struct LocalGroup {
    /// The group's name.
    pub name: String,
    /// The group's description.
    pub description: String,
    /// The members folded from the membership rows, in row order.
    pub members: Vec<String>,
}

/// The users-and-groups category.
pub struct UsersGroupsInfo {
    /// The local accounts, in source order.
    pub users: Vec<LocalUser>,
    /// The local groups, in source order.
    pub groups: Vec<LocalGroup>,
}

/// The fields of one account, at the specification level.
pub struct UserFields {
    /// Name text.
    pub name: Seq<char>,
    /// Disabled flag.
    pub disabled: bool,
    /// Description text.
    pub description: Seq<char>,
}

/// The fields of one group, at the specification level.
pub struct GroupFields {
    /// Name text.
    pub name: Seq<char>,
    /// Description text.
    pub description: Seq<char>,
    /// Member names.
    pub members: Seq<Seq<char>>,
}

impl LocalUser {
    /// The account's fields as sequences.
    pub open spec fn view_fields(self) -> UserFields {
        UserFields { name: self.name@, disabled: self.disabled, description: self.description@ }
    }
}

impl LocalGroup {
    /// The group's fields as sequences.
    pub open spec fn view_fields(self) -> GroupFields {
        GroupFields {
            name: self.name@,
            description: self.description@,
            members: self.members@.map_values(|s: String| s@),
        }
    }
}

/// What cutting a name out of a reference path yields: the text between
/// the last `Name="` marker and the next quote, or empty when either is
/// missing.
pub open spec fn name_of_path(path: Seq<char>) -> Seq<char> {
    let marker = "Name=\""@;
    match last_match(path, marker) {
        Some(i) => {
            let rest = path.subrange(i + marker.len() as int, path.len() as int);
            match first_match(rest, seq!['"']) {
                Some(e) => rest.subrange(0, e),
                None => Seq::<char>::empty(),
            }
        },
        None => Seq::<char>::empty(),
    }
}

/// Cuts the account or group name out of a structured reference path.
pub fn extract_name(wmi_path: &str) -> (r: String)
    ensures
        r@ == name_of_path(wmi_path@),
{
    let path = str_chars(wmi_path);
    let marker = str_chars("Name=\"");
    match rfind_sub(&path, &marker) {
        Some(i) => {
            let plen = path.len();
            let rest = subvec(&path, i + marker.len(), plen);
            let mut quote: Vec<char> = Vec::new();
            quote.push('"');
            proof {
                assert(quote@ =~= seq!['"']);
            }
            match find_sub(&rest, &quote) {
                Some(e) => {
                    proof {
                        lemma_first_match_at(rest@, quote@, 0);
                    }
                    let piece = subvec(&rest, 0, e);
                    chars_string(&piece)
                },
                None => String::new(),
            }
        },
        None => String::new(),
    }
}

/// One member name put under its group: an existing group's list grows at
/// the end; a new group goes to the end of the table.
pub open spec fn add_member(
    t: Seq<(Seq<char>, Seq<Seq<char>>)>,
    g: Seq<char>,
    p: Seq<char>,
) -> Seq<(Seq<char>, Seq<Seq<char>>)>
    decreases t.len(),
{
    if t.len() == 0 {
        seq![(g, seq![p])]
    } else if t[0].0 == g {
        seq![(t[0].0, t[0].1.push(p))] + t.drop_first()
    } else {
        seq![t[0]] + add_member(t.drop_first(), g, p)
    }
}

/// The group-to-members table the membership rows fold into: a row counts
/// when both references are present, string-tagged, and carry a name.
pub open spec fn member_table(rows: Seq<Record>) -> Seq<(Seq<char>, Seq<Seq<char>>)>
    decreases rows.len(),
{
    if rows.len() == 0 {
        Seq::<(Seq<char>, Seq<Seq<char>>)>::empty()
    } else {
        let prev = member_table(rows.drop_last());
        match (
            str_field(rows.last(), "GroupComponent"@),
            str_field(rows.last(), "PartComponent"@),
        ) {
            (Some(gr), Some(pr)) => {
                let g = name_of_path(gr);
                let p = name_of_path(pr);
                if g.len() > 0 && p.len() > 0 {
                    add_member(prev, g, p)
                } else {
                    prev
                }
            },
            _ => prev,
        }
    }
}

/// First-match lookup of a group's members.
pub open spec fn members_assoc(t: Seq<(Seq<char>, Seq<Seq<char>>)>, g: Seq<char>) -> Option<
    Seq<Seq<char>>,
>
    decreases t.len(),
{
    if t.len() == 0 {
        None
    } else if t[0].0 == g {
        Some(t[0].1)
    } else {
        members_assoc(t.drop_first(), g)
    }
}

/// One group's member list, as held.
pub struct GroupMembers {
    /// The group's name.
    pub name: String,
    /// The member names, in fold order.
    pub members: Vec<String>,
}

/// The pairs a member table stands for.
pub open spec fn member_pairs(t: Seq<GroupMembers>) -> Seq<(Seq<char>, Seq<Seq<char>>)> {
    t.map_values(|e: GroupMembers| (e.name@, e.members@.map_values(|s: String| s@)))
}

/// Where the scan stopped is where the recursive fold acts.
proof fn lemma_add_member_at(
    t: Seq<(Seq<char>, Seq<Seq<char>>)>,
    g: Seq<char>,
    p: Seq<char>,
    pos: int,
)
    requires
        0 <= pos <= t.len(),
        forall|j: int| 0 <= j < pos ==> (#[trigger] t[j]).0 != g,
    ensures
        pos < t.len() && t[pos].0 == g ==> add_member(t, g, p) == t.update(
            pos,
            (t[pos].0, t[pos].1.push(p)),
        ),
        pos == t.len() ==> add_member(t, g, p) == t.push((g, seq![p])),
    decreases pos,
{
    if pos == 0 {
        if t.len() == 0 {
            assert(add_member(t, g, p) =~= t.push((g, seq![p])));
        } else if t[0].0 == g {
            assert(add_member(t, g, p) =~= t.update(0, (t[0].0, t[0].1.push(p))));
        }
    } else {
        let rest = t.drop_first();
        assert(forall|j: int| 0 <= j < pos - 1 ==> (#[trigger] rest[j]).0 != g) by {
            assert(forall|j: int| 0 <= j < pos - 1 ==> rest[j] == t[j + 1]);
        }
        lemma_add_member_at(rest, g, p, pos - 1);
        if pos < t.len() && t[pos].0 == g {
            assert(rest[pos - 1] == t[pos]);
            assert(add_member(t, g, p) =~= t.update(pos, (t[pos].0, t[pos].1.push(p))));
        } else if pos == t.len() {
            assert(add_member(t, g, p) =~= t.push((g, seq![p])));
        }
    }
}

/// Puts one member under its group in the held table.
fn add_member_exec(t: &mut Vec<GroupMembers>, g: String, p: String)
    ensures
        member_pairs(final(t)@) == add_member(member_pairs(old(t)@), g@, p@),
{
    let n = t.len();
    let mut pos: usize = 0;
    while pos < n
        invariant
            pos <= n,
            n == t@.len(),
            t@ == old(t)@,
            forall|j: int| 0 <= j < pos ==> (#[trigger] member_pairs(t@)[j]).0 != g@,
        decreases n - pos,
    {
        proof {
            assert(member_pairs(t@)[pos as int].0 == t@[pos as int].name@);
        }
        if crate::text::str_eq_str(t[pos].name.as_str(), g.as_str()) {
            proof {
                lemma_add_member_at(member_pairs(t@), g@, p@, pos as int);
            }
            let ghost before = t@;
            let slot = &mut t[pos];
            slot.members.push(p);
            proof {
                assert(t@[pos as int].members@.map_values(|s: String| s@) =~= before[
                    pos as int
                ].members@.map_values(|s: String| s@).push(p@));
                assert(member_pairs(t@) =~= member_pairs(before).update(
                    pos as int,
                    (
                        member_pairs(before)[pos as int].0,
                        member_pairs(before)[pos as int].1.push(p@),
                    ),
                ));
            }
            return ;
        }
        pos = pos + 1;
    }
    proof {
        lemma_add_member_at(member_pairs(t@), g@, p@, pos as int);
    }
    let ghost before = t@;
    let mut members: Vec<String> = Vec::new();
    members.push(p);
    t.push(GroupMembers { name: g, members });
    proof {
        assert(t@.last().members@.map_values(|s: String| s@) =~= seq![p@]);
        assert(member_pairs(t@) =~= member_pairs(before).push((g@, seq![p@])));
    }
}

/// Folds the membership rows into the group-to-members table.
pub fn build_member_table(rows: &Vec<Record>) -> (r: Vec<GroupMembers>)
    ensures
        member_pairs(r@) == member_table(rows@),
{
    let n = rows.len();
    let mut t: Vec<GroupMembers> = Vec::new();
    let mut i: usize = 0;
    proof {
        assert(member_pairs(t@) =~= member_table(rows@.subrange(0, 0)));
    }
    while i < n
        invariant
            i <= n,
            n == rows@.len(),
            member_pairs(t@) == member_table(rows@.subrange(0, i as int)),
        decreases n - i,
    {
        let ghost done_next = rows@.subrange(0, i + 1 as int);
        proof {
            assert(done_next.drop_last() =~= rows@.subrange(0, i as int));
            assert(done_next.last() == rows@[i as int]);
        }
        let row = &rows[i];
        match (row.get_string("GroupComponent"), row.get_string("PartComponent")) {
            (Ok(group_ref), Ok(part_ref)) => {
                let g = extract_name(group_ref.as_str());
                let p = extract_name(part_ref.as_str());
                if g.as_str().unicode_len() > 0 && p.as_str().unicode_len() > 0 {
                    add_member_exec(&mut t, g, p);
                }
            },
            _ => (),
        }
        i = i + 1;
    }
    proof {
        assert(rows@.subrange(0, n as int) =~= rows@);
    }
    t
}

/// The fields one account row normalizes to.
pub open spec fn user_fields(row: Record) -> UserFields {
    UserFields {
        name: str_or_empty(row, "Name"@),
        disabled: bool_or(row, "Disabled"@, false),
        description: str_or_empty(row, "Description"@),
    }
}

/// The fields one group row normalizes to, given the member table.
pub open spec fn group_fields(row: Record, t: Seq<(Seq<char>, Seq<Seq<char>>)>) -> GroupFields {
    let name = str_or_empty(row, "Name"@);
    GroupFields {
        name: name,
        description: str_or_empty(row, "Description"@),
        members: match members_assoc(t, name) {
            Some(ms) => ms,
            None => Seq::<Seq<char>>::empty(),
        },
    }
}

/// Looks a group's members up in the held table.
fn members_get(t: &Vec<GroupMembers>, g: &str) -> (r: Vec<String>)
    ensures
        r@.map_values(|s: String| s@) == (match members_assoc(member_pairs(t@), g@) {
            Some(ms) => ms,
            None => Seq::<Seq<char>>::empty(),
        }),
{
    let n = t.len();
    let mut i: usize = 0;
    proof {
        assert(member_pairs(t@).subrange(0, n as int) =~= member_pairs(t@));
    }
    while i < n
        invariant
            i <= n,
            n == t@.len(),
            members_assoc(member_pairs(t@), g@) == members_assoc(
                member_pairs(t@).subrange(i as int, n as int),
                g@,
            ),
        decreases n - i,
    {
        let ghost rest = member_pairs(t@).subrange(i as int, n as int);
        proof {
            assert(rest[0] == member_pairs(t@)[i as int]);
            assert(rest.drop_first() =~= member_pairs(t@).subrange(i + 1 as int, n as int));
        }
        if crate::text::str_eq_str(t[i].name.as_str(), g) {
            let ms = clone_strings(&t[i].members);
            return ms;
        }
        i = i + 1;
    }
    let empty: Vec<String> = Vec::new();
    proof {
        assert(empty@.map_values(|s: String| s@) =~= Seq::<Seq<char>>::empty());
    }
    empty
}

/// Copies a vector of strings.
fn clone_strings(v: &Vec<String>) -> (r: Vec<String>)
    ensures
        r@.map_values(|s: String| s@) == v@.map_values(|s: String| s@),
{
    let n = v.len();
    let mut r: Vec<String> = Vec::new();
    let mut i: usize = 0;
    while i < n
        invariant
            i <= n,
            n == v@.len(),
            r@.len() == i,
            forall|k: int| 0 <= k < i ==> #[trigger] r@[k]@ == v@[k]@,
        decreases n - i,
    {
        r.push(v[i].clone());
        i = i + 1;
    }
    proof {
        assert(r@.map_values(|s: String| s@) =~= v@.map_values(|s: String| s@));
    }
    r
}

impl UsersGroupsInfo {
    /// Normalizes the account rows and the group rows, attaching to each
    /// group the members folded from the membership rows.
    pub fn build(user_rows: &Vec<Record>, group_rows: &Vec<Record>, member_rows: &Vec<Record>) -> (r:
        UsersGroupsInfo)
        ensures
            r.users@.len() == user_rows@.len(),
            forall|i: int|
                0 <= i < user_rows@.len() ==> (#[trigger] r.users@[i]).view_fields() == user_fields(
                    user_rows@[i],
                ),
            r.groups@.len() == group_rows@.len(),
            forall|i: int|
                0 <= i < group_rows@.len() ==> (#[trigger] r.groups@[i]).view_fields()
                    == group_fields(group_rows@[i], member_table(member_rows@)),
    {
        let n = user_rows.len();
        let mut users: Vec<LocalUser> = Vec::new();
        let mut i: usize = 0;
        while i < n
            invariant
                i <= n,
                n == user_rows@.len(),
                users@.len() == i,
                forall|k: int|
                    0 <= k < i ==> (#[trigger] users@[k]).view_fields() == user_fields(
                        user_rows@[k],
                    ),
            decreases n - i,
        {
            let row = &user_rows[i];
            let user = LocalUser {
                name: get_string_or_empty(row, "Name"),
                disabled: get_bool_or(row, "Disabled", false),
                description: get_string_or_empty(row, "Description"),
            };
            users.push(user);
            i = i + 1;
        }
        let table = build_member_table(member_rows);
        let m = group_rows.len();
        let mut groups: Vec<LocalGroup> = Vec::new();
        let mut j: usize = 0;
        while j < m
            invariant
                j <= m,
                m == group_rows@.len(),
                member_pairs(table@) == member_table(member_rows@),
                groups@.len() == j,
                forall|k: int|
                    0 <= k < j ==> (#[trigger] groups@[k]).view_fields() == group_fields(
                        group_rows@[k],
                        member_table(member_rows@),
                    ),
            decreases m - j,
        {
            let row = &group_rows[j];
            let name = get_string_or_empty(row, "Name");
            let members = members_get(&table, name.as_str());
            let group = LocalGroup {
                name,
                description: get_string_or_empty(row, "Description"),
                members,
            };
            groups.push(group);
            j = j + 1;
        }
        UsersGroupsInfo { users, groups }
    }
}

} // verus!
