//! Roles of a guild, and the find-or-create decision for a named role.

use vstd::prelude::*;

verus! {

/// Colour given to a role that is created for a cohort.
pub const DEFAULT_ROLE_COLOUR: u32 = 16744330;

/// A role as the platform reports it.
#[derive(Debug, PartialEq, Eq)]
pub struct Role {
    /// Identifier assigned by the platform.
    pub id: u64,
    /// Display name, the key by which roles are looked up.
    pub name: String,
    /// Cosmetic colour.
    pub colour: u32,
}

/// Mathematical value of a [`Role`].
pub struct RoleView {
    pub id: u64,
    pub name: Seq<char>,
    pub colour: u32,
}

impl View for Role {
    type V = RoleView;

    open spec fn view(&self) -> RoleView {
        RoleView { id: self.id, name: self.name@, colour: self.colour }
    }
}

impl Clone for Role {
    fn clone(&self) -> (copy: Self)
        ensures
            copy == *self,
    {
        Role { id: self.id, name: self.name.clone(), colour: self.colour }
    }
}

/// The values of a list of roles, in order.
pub open spec fn role_views(roles: Seq<Role>) -> Seq<RoleView> {
    roles.map_values(|role: Role| role@)
}

/// Name of the default role that every member of a guild holds.
pub open spec fn everyone_name() -> Seq<char> {
    "@everyone"@
}

/// Whether `i` is the position of the first role named exactly `name`.
/// Names are compared character by character, so case matters.
pub open spec fn is_first_named(roles: Seq<RoleView>, name: Seq<char>, i: int) -> bool {
    &&& 0 <= i < roles.len()
    &&& roles[i].name == name
    &&& forall|j: int| 0 <= j < i ==> (#[trigger] roles[j]).name != name
}

/// Whether some role is named exactly `name`.
pub open spec fn has_role_named(roles: Seq<RoleView>, name: Seq<char>) -> bool {
    exists|i: int| 0 <= i < roles.len() && (#[trigger] roles[i]).name == name
}

/// The first role named exactly `name`, if there is one.
pub open spec fn find_role(roles: Seq<RoleView>, name: Seq<char>) -> Option<RoleView> {
    if exists|i: int| is_first_named(roles, name, i) {
        Some(roles[choose|i: int| is_first_named(roles, name, i)])
    } else {
        None
    }
}

/// A position that holds the first role of a name fixes what `find_role`
/// returns.
pub proof fn lemma_find_role_at(roles: Seq<RoleView>, name: Seq<char>, i: int)
    requires
        is_first_named(roles, name, i),
    ensures
        find_role(roles, name) == Some(roles[i]),
{
    let k = choose|k: int| is_first_named(roles, name, k);
    assert(is_first_named(roles, name, k));
    if k < i {
        assert(roles[k].name != name);
    }
    if i < k {
        assert(roles[i].name != name);
    }
}

/// Where no role carries the name, `find_role` returns nothing.
pub proof fn lemma_find_role_absent(roles: Seq<RoleView>, name: Seq<char>)
    requires
        forall|j: int| 0 <= j < roles.len() ==> (#[trigger] roles[j]).name != name,
    ensures
        find_role(roles, name) is None,
        !has_role_named(roles, name),
{
    if exists|i: int| is_first_named(roles, name, i) {
        let k = choose|k: int| is_first_named(roles, name, k);
        assert(roles[k].name != name);
    }
}

/// `find_role` finds a role exactly when one carries the name, and what it
/// finds is a role of the list with that name.
pub proof fn lemma_find_role_sound(roles: Seq<RoleView>, name: Seq<char>)
    ensures
        find_role(roles, name) is Some <==> has_role_named(roles, name),
        find_role(roles, name) matches Some(role) ==> role.name == name && roles.contains(role),
{
    if has_role_named(roles, name) {
        let i = choose|i: int| 0 <= i < roles.len() && (#[trigger] roles[i]).name == name;
        let k = lemma_first_named_exists(roles, name, i);
        lemma_find_role_at(roles, name, k);
    }
    if exists|i: int| is_first_named(roles, name, i) {
        let k = choose|k: int| is_first_named(roles, name, k);
        assert(roles[k].name == name);
    }
}

/// Below any position that carries the name there is a first one.
proof fn lemma_first_named_exists(roles: Seq<RoleView>, name: Seq<char>, i: int) -> (k: int)
    requires
        0 <= i < roles.len(),
        roles[i].name == name,
    ensures
        is_first_named(roles, name, k),
        k <= i,
    decreases i,
{
    if exists|j: int| 0 <= j < i && (#[trigger] roles[j]).name == name {
        let j = choose|j: int| 0 <= j < i && (#[trigger] roles[j]).name == name;
        lemma_first_named_exists(roles, name, j)
    } else {
        i
    }
}

/// Looks a role up by exact, case-sensitive name. Where several roles share
/// the name, the first in the list is returned.
pub fn role_by_name<'a>(roles: &'a Vec<Role>, name: &str) -> (found: Option<&'a Role>)
    ensures
        found matches Some(role) ==> find_role(role_views(roles@), name@) == Some(role@),
        found is None ==> find_role(role_views(roles@), name@) is None,
        found is Some <==> has_role_named(role_views(roles@), name@),
{
    let wanted: String = name.to_owned();
    let mut i: usize = 0;
    while i < roles.len()
        invariant
            i <= roles.len(),
            wanted@ == name@,
            forall|j: int| 0 <= j < i ==> (#[trigger] role_views(roles@)[j]).name != name@,
        decreases roles.len() - i,
    {
        if roles[i].name == wanted {
            proof {
                assert(role_views(roles@)[i as int] == roles@[i as int]@);
                lemma_find_role_at(role_views(roles@), name@, i as int);
                lemma_find_role_sound(role_views(roles@), name@);
            }
            return Some(&roles[i]);
        }
        proof {
            assert(role_views(roles@)[i as int] == roles@[i as int]@);
        }
        i += 1;
    }
    proof {
        lemma_find_role_absent(role_views(roles@), name@);
    }
    None
}

/// Finds the guild's default role, the one named `@everyone`.
pub fn get_everyone_role(roles: &Vec<Role>) -> (found: Option<Role>)
    ensures
        found matches Some(role) ==> find_role(role_views(roles@), everyone_name()) == Some(role@),
        found is None ==> find_role(role_views(roles@), everyone_name()) is None,
        found is Some <==> has_role_named(role_views(roles@), everyone_name()),
{
    match role_by_name(roles, "@everyone") {
        Some(role) => Some(role.clone()),
        None => None,
    }
}

/// What resolving a named role asks for.
#[derive(Debug, PartialEq, Eq)]
pub enum RoleResolution {
    /// A role of that name exists and is reused unchanged.
    Existing { role: Role },
    /// No role has that name: one is to be created.
    Create { name: String, colour: u32 },
}

/// Mathematical value of a [`RoleResolution`].
pub enum RoleResolutionView {
    Existing { role: RoleView },
    Create { name: Seq<char>, colour: u32 },
}

impl View for RoleResolution {
    type V = RoleResolutionView;

    open spec fn view(&self) -> RoleResolutionView {
        match self {
            RoleResolution::Existing { role } => RoleResolutionView::Existing { role: role@ },
            RoleResolution::Create { name, colour } => RoleResolutionView::Create {
                name: name@,
                colour: *colour,
            },
        }
    }
}

/// The find-or-create rule: reuse the first role of that name, or ask for a
/// new one with that name and the given colour.
pub open spec fn resolution(
    roles: Seq<RoleView>,
    name: Seq<char>,
    default_colour: u32,
) -> RoleResolutionView {
    match find_role(roles, name) {
        Some(role) => RoleResolutionView::Existing { role },
        None => RoleResolutionView::Create { name, colour: default_colour },
    }
}

/// Resolves a role by name among the guild's roles: an existing role is
/// returned unchanged, and only where none has the name is a creation asked
/// for.
pub fn resolve_role(roles: &Vec<Role>, name: &str, default_colour: u32) -> (resolved:
    RoleResolution)
    ensures
        resolved@ == resolution(role_views(roles@), name@, default_colour),
        resolved is Existing <==> has_role_named(role_views(roles@), name@),
{
    match role_by_name(roles, name) {
        Some(role) => RoleResolution::Existing { role: role.clone() },
        None => RoleResolution::Create { name: name.to_owned(), colour: default_colour },
    }
}

/// The guild's roles once a resolution has been carried out: unchanged where
/// a role was reused, one role longer where `created` was made.
pub open spec fn roles_after(
    roles: Seq<RoleView>,
    resolved: RoleResolutionView,
    created: RoleView,
) -> Seq<RoleView> {
    match resolved {
        RoleResolutionView::Existing { .. } => roles,
        RoleResolutionView::Create { .. } => roles.push(created),
    }
}

/// The role that a resolution ends with: the one reused, or `created`.
pub open spec fn resolved_role(resolved: RoleResolutionView, created: RoleView) -> RoleView {
    match resolved {
        RoleResolutionView::Existing { role } => role,
        RoleResolutionView::Create { .. } => created,
    }
}

/// Resolving is idempotent. Resolve a name once and let the platform carry
/// out what was asked, creating `created` under the requested name where a
/// creation was asked for. Resolving the same name again then asks for no
/// creation and yields the role of the first time, with the same identifier.
pub proof fn resolve_role_idempotent(
    roles: Seq<RoleView>,
    name: Seq<char>,
    default_colour: u32,
    created: RoleView,
)
    requires
        created.name == name,
    ensures
        ({
            let first = resolution(roles, name, default_colour);
            let second = resolution(roles_after(roles, first, created), name, default_colour);
            &&& second is Existing
            &&& second == RoleResolutionView::Existing { role: resolved_role(first, created) }
            &&& resolved_role(second, created).id == resolved_role(first, created).id
        }),
{
    lemma_find_role_sound(roles, name);
    if find_role(roles, name) is None {
        let after = roles.push(created);
        assert forall|j: int| 0 <= j < roles.len() implies (#[trigger] after[j]).name != name by {
            assert(after[j] == roles[j]);
            assert(roles[j].name != name);
        }
        assert(after[roles.len() as int] == created);
        assert(is_first_named(after, name, roles.len() as int));
        lemma_find_role_at(after, name, roles.len() as int);
    }
}

} // verus!
