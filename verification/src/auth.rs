//! The authorization engine: a requirement tree is decided for a principal,
//! from what a session has looked up so far.
//!
//! Deciding never waits. Where a decision needs the principal's user record
//! or a membership that the session does not hold yet, the engine names the
//! lookup; the caller performs it, records the answer in the session and asks
//! again. A session keeps every answer, so nothing is looked up twice.

use vstd::prelude::*;
use vstd::string::*;
use crate::types::Uuid;
use crate::types::auth::{ClientAccessClaims, FederationClaims};
use crate::types::server::{ServerMember, ServerRole};
use crate::types::user::{parse_subject_spec, User, UserRef, UserRole};

verus! {

/// A verified client access token.
#[derive(Clone, Debug, PartialEq, Eq)]
pub struct ClientAuth {
    pub claims: ClientAccessClaims,
}

/// A verified federation token.
#[derive(Clone, Debug, PartialEq, Eq)]
pub struct FederationAuth {
    pub claims: FederationClaims,
}

/// Who makes a request.
#[derive(Clone, Debug, PartialEq, Eq)]
pub enum Principal {
    Client(ClientAuth),
    Federation(FederationAuth),
}

/// What a principal must satisfy.
#[derive(Debug, PartialEq, Eq)]
pub enum Requirement {
    /// Grants.
    Always,
    /// Denies.
    Never,
    /// The principal is a client.
    Client,
    /// The principal is a client whose user has the role admin on this host.
    HostAdmin,
    /// The principal is a client whose subject is this user.
    User(UserRef),
    /// The principal's user is a member of this server.
    ServerMember(Uuid),
    /// The principal's user is an admin of this server.
    ServerAdmin(Uuid),
    /// The principal is a peer host acting for this user.
    FederatedUser(UserRef),
    /// Either of the two.
    Or(Box<Requirement>, Box<Requirement>),
    /// The requirement, or a host admin.
    OrAdmin(Box<Requirement>),
    /// The requirement, and the principal is a client.
    ClientOnly(Box<Requirement>),
    /// The requirement, and the principal is a peer host.
    FederatedOnly(Box<Requirement>),
}

/// The answer of one membership lookup, kept in a session.
#[derive(Debug, PartialEq, Eq)]
pub struct MembershipLookup {
    pub server_id: Uuid,
    pub member: Option<ServerMember>,
}

/// The state of one authorized request: who acts, and what was looked up.
#[derive(Debug, PartialEq, Eq)]
pub struct Session {
    /// The user who acts: a client's subject, or the user a peer acts for.
    pub user_ref: Option<UserRef>,
    /// The federation claims, where the principal is a peer host.
    pub federation: Option<FederationClaims>,
    /// The user record of `user_ref`, once looked up; `Some(None)` where the
    /// store holds none.
    pub user: Option<Option<User>>,
    /// The memberships of `user_ref` looked up so far, oldest first.
    pub memberships: Vec<MembershipLookup>,
}

/// What the engine answers.
#[derive(Debug, PartialEq, Eq)]
pub enum AuthStep {
    /// The requirement is met.
    Granted,
    /// The requirement is not met, with a one-line reason.
    Denied(String),
    /// The user record of this reference must be looked up first.
    NeedUser(UserRef),
    /// The membership of this user in this server must be looked up first.
    NeedMembership { server_id: Uuid, user_ref: UserRef },
}

/// The answer of the engine as a value of the model.
pub enum Decision {
    Granted,
    Denied(Seq<char>),
    NeedUser,
    NeedMembership(Uuid),
}

/// What is true of the principal's user in the store.
pub struct AuthFacts {
    /// The role of the user's record, where there is a record.
    pub user_role: Option<UserRole>,
    /// The servers that the user is a member of, each with the role.
    pub member_roles: Map<Uuid, ServerRole>,
}

/// The role that a membership lookup found.
pub open spec fn role_found(member: Option<ServerMember>) -> Option<ServerRole> {
    match member {
        Some(m) => Some(m.role),
        None => None,
    }
}

/// The answer that the lookups `ms` hold for `server_id`: that of the oldest
/// lookup of this server, `None` where it was never looked up.
pub open spec fn cached_membership(ms: Seq<MembershipLookup>, server_id: Uuid) -> Option<
    Option<ServerRole>,
>
    decreases ms.len(),
{
    if ms.len() == 0 {
        None
    } else if ms[0].server_id == server_id {
        Some(role_found(ms[0].member))
    } else {
        cached_membership(ms.drop_first(), server_id)
    }
}

/// The role that a user lookup found.
pub open spec fn user_role_found(user: Option<User>) -> Option<UserRole> {
    match user {
        Some(u) => Some(u.role),
        None => None,
    }
}

pub open spec fn reason_never() -> Seq<char> {
    "This operation is not permitted"@
}

pub open spec fn reason_client() -> Seq<char> {
    "Client credentials required"@
}

pub open spec fn reason_federation() -> Seq<char> {
    "Federation credentials required"@
}

pub open spec fn reason_host_admin() -> Seq<char> {
    "Host admin privileges required"@
}

pub open spec fn reason_user() -> Seq<char> {
    "Not the user this operation is for"@
}

pub open spec fn reason_member() -> Seq<char> {
    "Not a member of this server"@
}

pub open spec fn reason_server_admin() -> Seq<char> {
    "Server admin privileges required"@
}

pub open spec fn reason_federated_user() -> Seq<char> {
    "Not the user this federation request is delegated for"@
}

impl Session {
    /// Whether the principal is a client.
    pub open spec fn is_client(&self) -> bool {
        self.federation.is_none()
    }

    /// The acting user, as text.
    pub open spec fn acting_user(&self) -> Option<(Seq<char>, Seq<char>)> {
        match self.user_ref {
            Some(u) => Some(u@),
            None => None,
        }
    }

    /// Whether everything that this session has looked up is as `facts` say.
    pub open spec fn agrees_with(&self, facts: AuthFacts) -> bool {
        &&& self.user.is_some() ==> user_role_found(self.user.unwrap()) == facts.user_role
        &&& forall|s: Uuid| #[trigger]
            cached_membership(self.memberships@, s).is_some() ==> cached_membership(
                self.memberships@,
                s,
            ).unwrap() == (if facts.member_roles.dom().contains(s) {
                Some(facts.member_roles[s])
            } else {
                None
            })
    }

    /// The session of `principal`, with nothing looked up. A client acts as
    /// the user that its subject names; a peer acts for the user in its
    /// claims, if there is one.
    pub fn new(principal: Principal) -> (r: Self)
        ensures
            r.user.is_none(),
            r.memberships@.len() == 0,
            match principal {
                Principal::Client(auth) => {
                    &&& r.federation.is_none()
                    &&& r.acting_user() == parse_subject_spec(auth.claims.sub@)
                },
                Principal::Federation(auth) => {
                    &&& r.federation == Some(auth.claims)
                    &&& r.user_ref == auth.claims.user_ref
                },
            },
    {
        match principal {
            Principal::Client(auth) => Session {
                user_ref: UserRef::parse_subject(auth.claims.sub.as_str()),
                federation: None,
                user: None,
                memberships: Vec::new(),
            },
            Principal::Federation(auth) => {
                let user_ref = match &auth.claims.user_ref {
                    Some(u) => Some(u.clone()),
                    None => None,
                };
                Session {
                    user_ref,
                    federation: Some(auth.claims),
                    user: None,
                    memberships: Vec::new(),
                }
            },
        }
    }

    /// Keeps the answer of the user lookup. A first answer stays.
    pub fn record_user(&mut self, user: Option<User>)
        ensures
            final(self).user == (if old(self).user.is_some() {
                old(self).user
            } else {
                Some(user)
            }),
            final(self).user_ref == old(self).user_ref,
            final(self).federation == old(self).federation,
            final(self).memberships == old(self).memberships,
    {
        if self.user.is_none() {
            self.user = Some(user);
        }
    }

    /// Keeps the answer of a membership lookup. A first answer for a server stays.
    pub fn record_membership(&mut self, server_id: Uuid, member: Option<ServerMember>)
        ensures
            final(self).memberships@ == old(self).memberships@.push(
                MembershipLookup { server_id, member },
            ),
            final(self).user == old(self).user,
            final(self).user_ref == old(self).user_ref,
            final(self).federation == old(self).federation,
            cached_membership(final(self).memberships@, server_id) == (if cached_membership(
                old(self).memberships@,
                server_id,
            ).is_some() {
                cached_membership(old(self).memberships@, server_id)
            } else {
                Some(role_found(member))
            }),
            forall|s: Uuid|
                s != server_id ==> cached_membership(final(self).memberships@, s)
                    == cached_membership(old(self).memberships@, s),
    {
        proof {
            lemma_cached_membership_push(self.memberships@, MembershipLookup { server_id, member });
        }
        self.memberships.push(MembershipLookup { server_id, member });
    }

    /// The answer that this session holds for `server_id`, if it was looked up.
    pub fn membership(&self, server_id: Uuid) -> (r: Option<&Option<ServerMember>>)
        ensures
            match r {
                Some(m) => cached_membership(self.memberships@, server_id) == Some(role_found(*m)),
                None => cached_membership(self.memberships@, server_id).is_none(),
            },
    {
        let mut i: usize = 0;
        assert(self.memberships@.skip(0) =~= self.memberships@);
        while i < self.memberships.len()
            invariant
                i <= self.memberships.len(),
                cached_membership(self.memberships@, server_id) == cached_membership(
                    self.memberships@.skip(i as int),
                    server_id,
                ),
            decreases self.memberships.len() - i,
        {
            if self.memberships[i].server_id == server_id {
                return Some(&self.memberships[i].member);
            }
            assert(self.memberships@.skip(i as int).drop_first() =~= self.memberships@.skip(
                i as int + 1,
            ));
            i = i + 1;
        }
        None
    }

    /// The user record of the acting user, if it was looked up.
    pub fn lookup_user(&self) -> (r: Option<&Option<User>>)
        ensures
            match r {
                Some(u) => self.user == Some(*u),
                None => self.user.is_none(),
            },
    {
        match &self.user {
            Some(u) => Some(u),
            None => None,
        }
    }
}

/// A lookup added at the end answers for its server only where no older
/// lookup does, and changes no other answer.
pub proof fn lemma_cached_membership_push(ms: Seq<MembershipLookup>, entry: MembershipLookup)
    ensures
        forall|s: Uuid|
            #[trigger] cached_membership(ms.push(entry), s) == (if cached_membership(
                ms,
                s,
            ).is_some() {
                cached_membership(ms, s)
            } else if s == entry.server_id {
                Some(role_found(entry.member))
            } else {
                None
            }),
    decreases ms.len(),
{
    let p = ms.push(entry);
    if ms.len() > 0 {
        lemma_cached_membership_push(ms.drop_first(), entry);
    }
    assert forall|s: Uuid|
        #[trigger] cached_membership(p, s) == (if cached_membership(ms, s).is_some() {
            cached_membership(ms, s)
        } else if s == entry.server_id {
            Some(role_found(entry.member))
        } else {
            None
        }) by {
        if ms.len() == 0 {
            assert(p.drop_first() =~= ms);
        } else {
            assert(p.drop_first() =~= ms.drop_first().push(entry));
        }
    }
}

/// What the engine decides on `req` for the principal of `session`, from
/// what the session holds. The first branch of a choice that is met decides;
/// a later branch is looked at only once the earlier one is denied.
pub open spec fn decide(req: Requirement, session: Session) -> Decision
    decreases req,
{
    match req {
        Requirement::Always => Decision::Granted,
        Requirement::Never => Decision::Denied(reason_never()),
        Requirement::Client => if session.is_client() {
            Decision::Granted
        } else {
            Decision::Denied(reason_client())
        },
        Requirement::HostAdmin => decide_host_admin(session),
        Requirement::User(u) => if session.is_client() && session.acting_user() == Some(u@) {
            Decision::Granted
        } else {
            Decision::Denied(reason_user())
        },
        Requirement::ServerMember(s) => if session.user_ref.is_none() {
            Decision::Denied(reason_member())
        } else {
            match cached_membership(session.memberships@, s) {
                None => Decision::NeedMembership(s),
                Some(Some(_)) => Decision::Granted,
                Some(None) => Decision::Denied(reason_member()),
            }
        },
        Requirement::ServerAdmin(s) => if session.user_ref.is_none() {
            Decision::Denied(reason_server_admin())
        } else {
            match cached_membership(session.memberships@, s) {
                None => Decision::NeedMembership(s),
                Some(Some(ServerRole::Admin)) => Decision::Granted,
                Some(_) => Decision::Denied(reason_server_admin()),
            }
        },
        Requirement::FederatedUser(u) => if !session.is_client() && session.acting_user() == Some(
            u@,
        ) {
            Decision::Granted
        } else {
            Decision::Denied(reason_federated_user())
        },
        Requirement::Or(a, b) => match decide(*a, session) {
            Decision::Denied(_) => decide(*b, session),
            other => other,
        },
        Requirement::OrAdmin(r) => match decide(*r, session) {
            Decision::Denied(_) => decide_host_admin(session),
            other => other,
        },
        Requirement::ClientOnly(r) => if session.is_client() {
            decide(*r, session)
        } else {
            Decision::Denied(reason_client())
        },
        Requirement::FederatedOnly(r) => if !session.is_client() {
            decide(*r, session)
        } else {
            Decision::Denied(reason_federation())
        },
    }
}

/// What the engine decides on `HostAdmin`.
pub open spec fn decide_host_admin(session: Session) -> Decision {
    if !session.is_client() || session.user_ref.is_none() {
        Decision::Denied(reason_host_admin())
    } else {
        match session.user {
            None => Decision::NeedUser,
            Some(Some(u)) => if u.role == UserRole::Admin {
                Decision::Granted
            } else {
                Decision::Denied(reason_host_admin())
            },
            Some(None) => Decision::Denied(reason_host_admin()),
        }
    }
}

/// Whether `req` holds of a principal, given the facts of the store.
pub open spec fn holds(
    req: Requirement,
    is_client: bool,
    user: Option<(Seq<char>, Seq<char>)>,
    facts: AuthFacts,
) -> bool
    decreases req,
{
    match req {
        Requirement::Always => true,
        Requirement::Never => false,
        Requirement::Client => is_client,
        Requirement::HostAdmin => holds_host_admin(is_client, user, facts),
        Requirement::User(u) => is_client && user == Some(u@),
        Requirement::ServerMember(s) => user.is_some() && facts.member_roles.dom().contains(s),
        Requirement::ServerAdmin(s) => user.is_some() && facts.member_roles.dom().contains(s)
            && facts.member_roles[s] == ServerRole::Admin,
        Requirement::FederatedUser(u) => !is_client && user == Some(u@),
        Requirement::Or(a, b) => holds(*a, is_client, user, facts) || holds(
            *b,
            is_client,
            user,
            facts,
        ),
        Requirement::OrAdmin(r) => holds(*r, is_client, user, facts) || holds_host_admin(
            is_client,
            user,
            facts,
        ),
        Requirement::ClientOnly(r) => is_client && holds(*r, is_client, user, facts),
        Requirement::FederatedOnly(r) => !is_client && holds(*r, is_client, user, facts),
    }
}

/// Whether the principal is a client whose user record has the role admin.
pub open spec fn holds_host_admin(
    is_client: bool,
    user: Option<(Seq<char>, Seq<char>)>,
    facts: AuthFacts,
) -> bool {
    is_client && user.is_some() && facts.user_role == Some(UserRole::Admin)
}

/// The answer as a value of the model.
pub open spec fn decision_of(step: AuthStep) -> Decision {
    match step {
        AuthStep::Granted => Decision::Granted,
        AuthStep::Denied(reason) => Decision::Denied(reason@),
        AuthStep::NeedUser(_) => Decision::NeedUser,
        AuthStep::NeedMembership { server_id, user_ref } => Decision::NeedMembership(server_id),
    }
}

/// The reference that a lookup is to be made for: the acting user.
pub open spec fn lookup_subject(step: AuthStep) -> Option<UserRef> {
    match step {
        AuthStep::NeedUser(u) => Some(u),
        AuthStep::NeedMembership { server_id, user_ref } => Some(user_ref),
        _ => None,
    }
}

/// The rule for clients that `base` makes: `base` or a host admin, for
/// clients only.
pub open spec fn client_rule(base: Requirement) -> Requirement {
    Requirement::ClientOnly(Box::new(Requirement::OrAdmin(Box::new(base))))
}

/// The rule for peer hosts that `base` makes: `base`, for peer hosts only.
pub open spec fn federated_rule(base: Requirement) -> Requirement {
    Requirement::FederatedOnly(Box::new(base))
}

impl Requirement {
    /// This requirement, or a host admin.
    pub fn or_admin(self) -> (r: Self)
        ensures
            r == Requirement::OrAdmin(Box::new(self)),
    {
        Requirement::OrAdmin(Box::new(self))
    }

    /// This requirement, for clients only.
    pub fn client_only(self) -> (r: Self)
        ensures
            r == Requirement::ClientOnly(Box::new(self)),
    {
        Requirement::ClientOnly(Box::new(self))
    }

    /// This requirement, for peer hosts only.
    pub fn federated_only(self) -> (r: Self)
        ensures
            r == Requirement::FederatedOnly(Box::new(self)),
    {
        Requirement::FederatedOnly(Box::new(self))
    }

    /// This requirement or `other`; this one is tried first.
    pub fn or(self, other: Self) -> (r: Self)
        ensures
            r == Requirement::Or(Box::new(self), Box::new(other)),
    {
        Requirement::Or(Box::new(self), Box::new(other))
    }
}

fn check_host_admin(session: &Session) -> (r: AuthStep)
    ensures
        decision_of(r) == decide_host_admin(*session),
        lookup_subject(r).is_some() ==> lookup_subject(r) == session.user_ref,
{
    if session.federation.is_some() {
        return AuthStep::Denied(String::from_str("Host admin privileges required"));
    }
    match &session.user_ref {
        None => AuthStep::Denied(String::from_str("Host admin privileges required")),
        Some(user_ref) => match &session.user {
            None => AuthStep::NeedUser(user_ref.clone()),
            Some(Some(u)) => match u.role {
                UserRole::Admin => AuthStep::Granted,
                UserRole::User => AuthStep::Denied(
                    String::from_str("Host admin privileges required"),
                ),
            },
            Some(None) => AuthStep::Denied(String::from_str("Host admin privileges required")),
        },
    }
}

fn is_acting_user(session: &Session, user_ref: &UserRef) -> (r: bool)
    ensures
        r == (session.acting_user() == Some(user_ref@)),
{
    match &session.user_ref {
        Some(u) => u == user_ref,
        None => false,
    }
}

/// Decides `requirement` for the principal of `session`, or names the lookup
/// that the decision needs next.
pub fn authorize(session: &Session, requirement: &Requirement) -> (r: AuthStep)
    ensures
        decision_of(r) == decide(*requirement, *session),
        lookup_subject(r).is_some() ==> lookup_subject(r) == session.user_ref,
    decreases requirement,
{
    match requirement {
        Requirement::Always => AuthStep::Granted,
        Requirement::Never => AuthStep::Denied(String::from_str("This operation is not permitted")),
        Requirement::Client => if session.federation.is_none() {
            AuthStep::Granted
        } else {
            AuthStep::Denied(String::from_str("Client credentials required"))
        },
        Requirement::HostAdmin => check_host_admin(session),
        Requirement::User(u) => if session.federation.is_none() && is_acting_user(session, u) {
            AuthStep::Granted
        } else {
            AuthStep::Denied(String::from_str("Not the user this operation is for"))
        },
        Requirement::ServerMember(s) => match &session.user_ref {
            None => AuthStep::Denied(String::from_str("Not a member of this server")),
            Some(user_ref) => match session.membership(*s) {
                None => AuthStep::NeedMembership { server_id: *s, user_ref: user_ref.clone() },
                Some(Some(_)) => AuthStep::Granted,
                Some(None) => AuthStep::Denied(String::from_str("Not a member of this server")),
            },
        },
        Requirement::ServerAdmin(s) => match &session.user_ref {
            None => AuthStep::Denied(String::from_str("Server admin privileges required")),
            Some(user_ref) => match session.membership(*s) {
                None => AuthStep::NeedMembership { server_id: *s, user_ref: user_ref.clone() },
                Some(Some(m)) => match m.role {
                    ServerRole::Admin => AuthStep::Granted,
                    ServerRole::Member => AuthStep::Denied(
                        String::from_str("Server admin privileges required"),
                    ),
                },
                Some(None) => AuthStep::Denied(
                    String::from_str("Server admin privileges required"),
                ),
            },
        },
        Requirement::FederatedUser(u) => if session.federation.is_some() && is_acting_user(
            session,
            u,
        ) {
            AuthStep::Granted
        } else {
            AuthStep::Denied(
                String::from_str("Not the user this federation request is delegated for"),
            )
        },
        Requirement::Or(a, b) => match authorize(session, a) {
            AuthStep::Denied(_) => authorize(session, b),
            other => other,
        },
        Requirement::OrAdmin(inner) => match authorize(session, inner) {
            AuthStep::Denied(_) => check_host_admin(session),
            other => other,
        },
        Requirement::ClientOnly(inner) => if session.federation.is_none() {
            authorize(session, inner)
        } else {
            AuthStep::Denied(String::from_str("Client credentials required"))
        },
        Requirement::FederatedOnly(inner) => if session.federation.is_some() {
            authorize(session, inner)
        } else {
            AuthStep::Denied(String::from_str("Federation credentials required"))
        },
    }
}

/// The engine grants only what holds and denies only what does not hold,
/// whatever part of the facts the session has looked up; and it asks for a
/// lookup only where the session does not hold the answer.
pub proof fn lemma_decide_is_sound(req: Requirement, session: Session, facts: AuthFacts)
    requires
        session.agrees_with(facts),
    ensures
        decide(req, session) is Granted ==> holds(
            req,
            session.is_client(),
            session.acting_user(),
            facts,
        ),
        decide(req, session) is Denied ==> !holds(
            req,
            session.is_client(),
            session.acting_user(),
            facts,
        ),
        decide(req, session) is NeedUser ==> session.user.is_none(),
        decide(req, session) matches Decision::NeedMembership(s) ==> cached_membership(
            session.memberships@,
            s,
        ).is_none(),
    decreases req,
{
    match req {
        Requirement::ServerMember(s) => {
        },
        Requirement::ServerAdmin(s) => {
        },
        Requirement::Or(a, b) => {
            lemma_decide_is_sound(*a, session, facts);
            lemma_decide_is_sound(*b, session, facts);
        },
        Requirement::OrAdmin(r) => {
            lemma_decide_is_sound(*r, session, facts);
        },
        Requirement::ClientOnly(r) => {
            lemma_decide_is_sound(*r, session, facts);
        },
        Requirement::FederatedOnly(r) => {
            lemma_decide_is_sound(*r, session, facts);
        },
        _ => {},
    }
}

} // verus!
