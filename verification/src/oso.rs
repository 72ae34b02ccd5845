use vstd::prelude::*;

use crate::db::models::role::has_role;
use crate::db::models::role::Role;
use crate::db::models::user::AuthUser;
use crate::db::models::user::User;

verus! {

/// The actions a request can ask to perform on a resource.
#[derive(Clone, Copy, Debug, PartialEq, Eq, Structural)]
pub enum OsoAction {
    Create,
    Read,
    Update,
    Delete,
}

/// The lower-case wire name of an action.
pub open spec fn action_label_spec(a: OsoAction) -> Seq<char> {
    match a {
        OsoAction::Create => "create"@,
        OsoAction::Read => "read"@,
        OsoAction::Update => "update"@,
        OsoAction::Delete => "delete"@,
    }
}

impl OsoAction {
    /// The lower-case wire name of the action.
    pub fn label(&self) -> (s: &'static str)
        ensures
            s@ == action_label_spec(*self),
    {
        match self {
            OsoAction::Create => "create",
            OsoAction::Read => "read",
            OsoAction::Update => "update",
            OsoAction::Delete => "delete",
        }
    }
}

/// A resource subject to authorization. Every resource kind exposes exactly
/// one ownership attribute: the identity key of the owning user.
pub trait OwnedResource {
    /// The owning user's identity key.
    spec fn owner_key_spec(&self) -> i32;

    /// Reads the owning user's identity key.
    fn owner_key(&self) -> (k: i32)
        ensures
            k == self.owner_key_spec(),
    ;
}

impl OwnedResource for User {
    open spec fn owner_key_spec(&self) -> i32 {
        self.id
    }

    fn owner_key(&self) -> (k: i32)
        ensures
            k == self.owner_key_spec(),
    {
        self.id
    }
}

/// The policy engine: an immutable rule set evaluated over the closed
/// enumeration of resource kinds. Each field records that one rule of the
/// set has been loaded.
pub struct OsoArc {
    /// The admin-override rule: an admin actor may perform every action on
    /// every resource.
    pub admin_rule: bool,
    /// The ownership rule: an actor may perform every action on a resource
    /// whose ownership key equals the actor's identity key.
    pub owner_rule: bool,
}

impl OsoArc {
    /// Both rules of the required rule set are loaded.
    pub open spec fn rules_loaded(&self) -> bool {
        self.admin_rule && self.owner_rule
    }
}

/// The decision of the rule set for an actor, an action and the ownership
/// key of a resource. Rules are tried in order, first match wins, default
/// deny; no rule distinguishes actions, so the decision is the same for
/// every action.
pub open spec fn policy_allows(
    rules: OsoArc,
    actor: AuthUser,
    action: OsoAction,
    owner_key: i32,
) -> bool {
    ||| (rules.admin_rule && actor.is_admin())
    ||| (rules.owner_rule && actor.id == owner_key)
}

impl OsoArc {
    /// Decides whether `actor` may perform `action` on `resource`. A pure
    /// function of its three inputs: the decision depends only on the
    /// actor's identity key and roles and on the resource's ownership key.
    pub fn is_allowed<Resource: OwnedResource>(
        &self,
        actor: AuthUser,
        action: OsoAction,
        resource: Resource,
    ) -> (r: bool)
        ensures
            r == policy_allows(*self, actor, action, resource.owner_key_spec()),
    {
        if self.admin_rule && has_role(&actor.roles, Role::Admin) {
            true
        } else {
            self.owner_rule && actor.id == resource.owner_key()
        }
    }
}

/// Builds the policy engine with the full rule set loaded. The rule set is
/// the closed enumeration of resource kinds (user, address, session,
/// booking), each contributing its ownership key through `OwnedResource`,
/// plus the admin override.
pub fn register_polar_classes() -> (o: OsoArc)
    ensures
        o.rules_loaded(),
{
    OsoArc { admin_rule: true, owner_rule: true }
}

/// The decision depends on the resource only through its ownership key: a
/// zero-valued placeholder carrying the key is decided exactly as a real
/// row with the same owner, for every action. Creation checks therefore run
/// against a placeholder before the row exists.
pub proof fn lemma_placeholder_equivalence<P: OwnedResource, R: OwnedResource>(
    rules: OsoArc,
    actor: AuthUser,
    action: OsoAction,
    placeholder: P,
    real_row: R,
)
    requires
        placeholder.owner_key_spec() == real_row.owner_key_spec(),
    ensures
        policy_allows(rules, actor, action, placeholder.owner_key_spec())
            == policy_allows(rules, actor, action, real_row.owner_key_spec()),
{
}

/// A non-admin actor is denied every action on every resource it does not
/// own, whatever rules are loaded.
pub proof fn lemma_non_admin_denied(
    rules: OsoArc,
    actor: AuthUser,
    action: OsoAction,
    owner_key: i32,
)
    requires
        !actor.is_admin(),
        actor.id != owner_key,
    ensures
        !policy_allows(rules, actor, action, owner_key),
{
}

/// Ownership grants every action: an actor is allowed every action on a
/// resource whose ownership key equals its identity key.
pub proof fn lemma_owner_allowed(
    rules: OsoArc,
    actor: AuthUser,
    action: OsoAction,
    owner_key: i32,
)
    requires
        rules.rules_loaded(),
        actor.id == owner_key,
    ensures
        policy_allows(rules, actor, action, owner_key),
{
}

/// The admin override grants every action on every resource, whoever owns
/// it.
pub proof fn lemma_admin_allowed(
    rules: OsoArc,
    actor: AuthUser,
    action: OsoAction,
    owner_key: i32,
)
    requires
        rules.rules_loaded(),
        actor.is_admin(),
    ensures
        policy_allows(rules, actor, action, owner_key),
{
}

} // verus!
