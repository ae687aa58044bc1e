//! Idempotent provisioning of the one root administrative identity.
//!
//! Several nodes may bootstrap the same cluster at once; each reads the
//! root identity and, when the read fails or finds nothing, attempts to
//! create it. The store is the final arbiter of uniqueness: a creation
//! attempt that loses the race is swallowed, so duplicate attempts are
//! expected and harmless (at-most-one-matters, not at-most-one-attempt).

use vstd::prelude::*;

verus! {

/// The privilege level of a stored identity.
#[derive(Clone, Copy, PartialEq, Eq, Structural, Debug)]
pub enum UserRole {
    Root,
    Member,
}

/// A stored identity record.
pub struct User {
    pub name: String,
    pub password: String,
    pub role: UserRole,
    pub salt: String,
}

/// The abstract content of a `User`.
pub struct UserView {
    pub name: Seq<char>,
    pub password: Seq<char>,
    pub role: UserRole,
    pub salt: Seq<char>,
}

impl View for User {
    type V = UserView;

    open spec fn view(&self) -> UserView {
        UserView {
            name: self.name@,
            password: self.password@,
            role: self.role,
            salt: self.salt@,
        }
    }
}

/// The root-identity slot of the shared metadata store: at most one root
/// identity ever exists, and the store enforces that on concurrent
/// creation attempts.
pub struct IdentityStore {
    root: Option<User>,
}

/// What one `ensure_root_identity` call leaves in the store: an existing
/// root identity is kept untouched, an empty slot is filled.
pub open spec fn ensure_spec(s: Option<UserView>, desired: UserView) -> Option<UserView> {
    if s is Some {
        s
    } else {
        Some(desired)
    }
}

/// The root identity `ensure_root_identity` provisions from a name and
/// password: role `Root`, empty salt.
pub open spec fn root_user_view(name: Seq<char>, password: Seq<char>) -> UserView {
    UserView { name: name, password: password, role: UserRole::Root, salt: Seq::empty() }
}

impl IdentityStore {
    /// The stored root identity, if any.
    pub closed spec fn view(&self) -> Option<UserView> {
        match self.root {
            Some(u) => Some(u@),
            None => None,
        }
    }

    /// A store holding no identity yet.
    pub fn new() -> (s: Self)
        ensures
            s@ == Option::<UserView>::None,
    {
        IdentityStore { root: None }
    }

    /// Whether a root identity exists.
    pub fn has_root(&self) -> (r: bool)
        ensures
            r == (self@ is Some),
    {
        self.root.is_some()
    }

    /// Read access to the stored root identity.
    pub fn root(&self) -> (r: Option<&User>)
        ensures
            match r {
                Some(u) => self@ == Some(u@),
                None => self@ is None,
            },
    {
        self.root.as_ref()
    }

    /// A creation attempt, arbitrated by the store: it succeeds only on an
    /// empty slot; against an existing identity it is a no-op, which is how
    /// a losing node's duplicate attempt is absorbed.
    fn try_create(&mut self, user: User)
        ensures
            final(self)@ == ensure_spec(old(self)@, user@),
    {
        if self.root.is_none() {
            self.root = Some(user);
        }
    }
}

/// Ensures exactly one root administrative identity exists. The current
/// identity is read first; when the read fails transiently (`read_error`)
/// or finds nothing, a creation attempt follows, whose failure against a
/// concurrent winner is swallowed rather than propagated. The call never
/// fails, and the outcome does not depend on the transient read error: an
/// existing identity is never replaced, a missing one is always created.
pub fn ensure_root_identity(
    store: &mut IdentityStore,
    read_error: bool,
    desired_username: String,
    desired_password: String,
) -> (r: Result<(), crate::domain::BootstrapError>)
    ensures
        r is Ok,
        final(store)@ == ensure_spec(
            old(store)@,
            root_user_view(desired_username@, desired_password@),
        ),
        final(store)@ is Some,
{
    let found = !read_error && store.has_root();
    if !found {
        store.try_create(
            User {
                name: desired_username,
                password: desired_password,
                role: UserRole::Root,
                salt: String::new(),
            },
        );
    }
    Ok(())
}

/// Idempotent root bootstrap law: two provisioning rounds — from the same
/// node or from two racing nodes, each with any transient read outcome —
/// leave exactly one stored root identity, and the second round changes
/// nothing: the first round's winner stays.
pub proof fn lemma_root_bootstrap_idempotent(
    s: Option<UserView>,
    first: UserView,
    second: UserView,
)
    ensures
        ensure_spec(ensure_spec(s, first), second) == ensure_spec(s, first),
        ensure_spec(s, first) is Some,
{
}

} // verus!
