//! Threads of the Anda Nexus: their members (controllers, managers,
//! participants), visibility and status, the permissions these give, and the
//! membership changes that the thread API performs.
use vstd::prelude::*;
use crate::text::{decimal, u64_text};
use crate::thread_info::UpdateThreadInfo;
use crate::principal::{
    Principal, contains_principal, contains_key, dedup_principals, pview, kview, eview, is_pset,
    is_pmap, intersects, without_principals, without_keys, insert_missing_keys,
};

verus! {

/// A 12-byte unique identifier.
#[derive(Debug, Clone, Copy)]
pub struct Xid(pub [u8; 12]);

impl Xid {
    /// The empty identifier: twelve zero bytes.
    pub fn empty() -> (x: Xid)
        ensures
            forall|i: int| 0 <= i < 12 ==> x.0@[i] == 0,
    {
        Xid([0u8; 12])
    }

    /// Whether all twelve bytes are zero.
    pub fn is_empty(&self) -> (b: bool)
        ensures
            b == (forall|i: int| 0 <= i < 12 ==> self.0@[i] == 0),
    {
        let mut i: usize = 0;
        while i < 12
            invariant
                i <= 12,
                forall|k: int| 0 <= k < i ==> self.0@[k] == 0,
            decreases 12 - i,
        {
            if self.0[i] != 0 {
                return false;
            }
            i = i + 1;
        }
        true
    }
}

/// Who may read a thread.
#[derive(Debug, Clone, Copy, PartialEq, Eq, Structural)]
pub enum ThreadVisibility {
    Private,
    Protected,
    Public,
}

/// Whether a thread is in use.
#[derive(Debug, Clone, Copy, PartialEq, Eq, Structural)]
pub enum ThreadStatus {
    Active,
    Suspended,
    Unavailable,
}

/// The kinds of access to a thread.
#[derive(Debug, Clone, Copy, PartialEq, Eq, Structural)]
pub enum ThreadPermission {
    Read,
    Write,
    Manage,
    Control,
}

/// The lowercase name of a visibility.
pub open spec fn visibility_name(v: ThreadVisibility) -> Seq<char> {
    match v {
        ThreadVisibility::Private => "private"@,
        ThreadVisibility::Protected => "protected"@,
        ThreadVisibility::Public => "public"@,
    }
}

/// The lowercase name of a status.
pub open spec fn status_name(s: ThreadStatus) -> Seq<char> {
    match s {
        ThreadStatus::Active => "active"@,
        ThreadStatus::Suspended => "suspended"@,
        ThreadStatus::Unavailable => "unavailable"@,
    }
}

impl ThreadVisibility {
    /// The default visibility.
    pub fn default_value() -> (v: ThreadVisibility)
        ensures
            v == ThreadVisibility::Private,
    {
        ThreadVisibility::Private
    }

    /// The lowercase name: "private", "protected" or "public".
    pub fn to_string(&self) -> (s: String)
        ensures
            s@ == visibility_name(*self),
    {
        match self {
            ThreadVisibility::Private => "private".to_owned(),
            ThreadVisibility::Protected => "protected".to_owned(),
            ThreadVisibility::Public => "public".to_owned(),
        }
    }
}

impl ThreadStatus {
    /// The default status.
    pub fn default_value() -> (s: ThreadStatus)
        ensures
            s == ThreadStatus::Active,
    {
        ThreadStatus::Active
    }

    /// The lowercase name: "active", "suspended" or "unavailable".
    pub fn to_string(&self) -> (s: String)
        ensures
            s@ == status_name(*self),
    {
        match self {
            ThreadStatus::Active => "active".to_owned(),
            ThreadStatus::Suspended => "suspended".to_owned(),
            ThreadStatus::Unavailable => "unavailable".to_owned(),
        }
    }
}

/// A conversation thread.
#[derive(Debug)]
pub struct Thread {
    /// The identifier in the "threads" collection.
    pub _id: u64,
    pub id: Xid,
    pub name: String,
    pub language: String,
    pub image: String,
    pub tags: Vec<String>,
    pub description: Option<String>,
    pub visibility: ThreadVisibility,
    pub status: ThreadStatus,
    pub max_participants: u64,
    /// A set: no principal twice.
    pub controllers: Vec<Principal>,
    /// A set: no principal twice.
    pub managers: Vec<Principal>,
    /// A map from participant to a number: no participant twice.
    pub participants: Vec<(Principal, u64)>,
    pub created_at: u64,
    pub updated_at: u64,
}

/// The summary of a thread kept in memory.
#[derive(Debug)]
pub struct ThreadState {
    pub visibility: ThreadVisibility,
    pub status: ThreadStatus,
    pub updated_at: u64,
    pub participants: u64,
    pub max_participants: u64,
    pub latest_message_by: Option<Principal>,
    pub latest_message_id: u64,
    pub latest_message_at: u64,
}

/// The membership invariant of a thread: the three collections hold no
/// duplicates, there is at least one controller, and every controller and
/// every manager is a participant.
pub open spec fn thread_wf(t: Thread) -> bool {
    &&& is_pset(t.controllers@)
    &&& is_pset(t.managers@)
    &&& is_pmap(t.participants@)
    &&& t.controllers@.len() > 0
    &&& members(t.controllers@).subset_of(participant_keys(t.participants@))
    &&& members(t.managers@).subset_of(participant_keys(t.participants@))
}

/// Whether `user` has `permission` on thread `t`.
pub open spec fn spec_has_permission(t: Thread, user: Seq<u8>, permission: ThreadPermission) -> bool {
    match permission {
        ThreadPermission::Read => t.status == ThreadStatus::Active && (t.visibility
            == ThreadVisibility::Public || kview(t.participants@).contains(user)),
        ThreadPermission::Write => t.status == ThreadStatus::Active && kview(
            t.participants@,
        ).contains(user),
        ThreadPermission::Manage => pview(t.controllers@).contains(user) || pview(
            t.managers@,
        ).contains(user),
        ThreadPermission::Control => pview(t.controllers@).contains(user),
    }
}


/// Reading or writing a thread needs it active, for every user: no user,
/// not even its controller, reads or writes a suspended, archived or
/// unavailable thread; a private thread is read only by its participants.
pub proof fn inactive_threads_closed(t: Thread, user: Seq<u8>)
    ensures
        spec_has_permission(t, user, ThreadPermission::Read) ==> t.status == ThreadStatus::Active,
        spec_has_permission(t, user, ThreadPermission::Write) ==> t.status == ThreadStatus::Active,
        spec_has_permission(t, user, ThreadPermission::Read) && t.visibility != ThreadVisibility::Public
            ==> kview(t.participants@).contains(user),
{
}


/// Managing a thread needs a controller or a manager, and controlling it a
/// controller, whatever the thread's status; a participant who is neither
/// can do neither.
pub proof fn managing_needs_membership(t: Thread, user: Seq<u8>)
    ensures
        spec_has_permission(t, user, ThreadPermission::Control) <==> pview(t.controllers@).contains(user),
        spec_has_permission(t, user, ThreadPermission::Manage) <==> pview(t.controllers@).contains(user)
            || pview(t.managers@).contains(user),
        spec_has_permission(t, user, ThreadPermission::Write) <==> t.status == ThreadStatus::Active
            && kview(t.participants@).contains(user),
        t.status == ThreadStatus::Active && t.visibility == ThreadVisibility::Public ==> spec_has_permission(
            t,
            user,
            ThreadPermission::Read,
        ),
{
}

impl Thread {
    /// Whether `user` has `permission` on this thread: reading needs an active
    /// thread that is public or that the user participates in; writing needs an
    /// active thread that the user participates in; managing needs a controller
    /// or a manager; controlling needs a controller.
    pub fn has_permission(&self, user: &Principal, permission: ThreadPermission) -> (b: bool)
        ensures
            b == spec_has_permission(*self, user@, permission),
            (permission == ThreadPermission::Read || permission == ThreadPermission::Write) && b
                ==> self.status == ThreadStatus::Active,
            permission == ThreadPermission::Read && b ==> self.visibility == ThreadVisibility::Public
                || kview(self.participants@).contains(user@),
            permission == ThreadPermission::Write && b ==> kview(self.participants@).contains(user@),
    {
        match permission {
            ThreadPermission::Read => {
                self.status == ThreadStatus::Active && (self.visibility == ThreadVisibility::Public
                    || contains_key(&self.participants, user))
            },
            ThreadPermission::Write => {
                self.status == ThreadStatus::Active && contains_key(&self.participants, user)
            },
            ThreadPermission::Manage => {
                contains_principal(&self.controllers, user) || contains_principal(
                    &self.managers,
                    user,
                )
            },
            ThreadPermission::Control => contains_principal(&self.controllers, user),
        }
    }

    /// The in-memory summary of this thread, with no latest message.
    pub fn to_state(&self) -> (s: ThreadState)
        ensures
            s.visibility == self.visibility,
            s.status == self.status,
            s.updated_at == self.updated_at,
            s.participants == self.participants@.len(),
            s.max_participants == self.max_participants,
            s.latest_message_by is None,
            s.latest_message_id == 0,
            s.latest_message_at == 0,
    {
        ThreadState {
            visibility: self.visibility,
            status: self.status,
            updated_at: self.updated_at,
            participants: self.participants.len() as u64,
            max_participants: self.max_participants,
            latest_message_by: None,
            latest_message_id: 0,
            latest_message_at: 0,
        }
    }
}

/// Permissions are ordered: whoever may control a thread may manage it, and
/// whoever may write to a thread may read it.
pub proof fn permission_hierarchy(t: Thread, user: Seq<u8>)
    ensures
        spec_has_permission(t, user, ThreadPermission::Control) ==> spec_has_permission(
            t,
            user,
            ThreadPermission::Manage,
        ),
        spec_has_permission(t, user, ThreadPermission::Write) ==> spec_has_permission(
            t,
            user,
            ThreadPermission::Read,
        ),
{
}

/// In a well-formed thread every manager of an active thread may write to it.
pub proof fn managers_of_active_threads_write(t: Thread, user: Seq<u8>)
    requires
        thread_wf(t),
        t.status == ThreadStatus::Active,
        spec_has_permission(t, user, ThreadPermission::Manage),
    ensures
        spec_has_permission(t, user, ThreadPermission::Write),
{
    if pview(t.controllers@).contains(user) {
        assert(members(t.controllers@).contains(user));
    } else {
        assert(members(t.managers@).contains(user));
    }
    assert(participant_keys(t.participants@).contains(user));
}


/// A user who quit a thread (it is no longer among its controllers, managers
/// and participants) can no longer write to it, manage it or control it.
pub proof fn quitter_loses_access(before: Thread, after: Thread, user: Seq<u8>)
    requires
        members(after.controllers@) == members(before.controllers@).remove(user),
        members(after.managers@) == members(before.managers@).remove(user),
        participant_keys(after.participants@) == participant_keys(before.participants@).remove(user),
    ensures
        !spec_has_permission(after, user, ThreadPermission::Write),
        !spec_has_permission(after, user, ThreadPermission::Manage),
        !spec_has_permission(after, user, ThreadPermission::Control),
{
    assert(!members(after.controllers@).contains(user));
    assert(!members(after.managers@).contains(user));
    assert(!participant_keys(after.participants@).contains(user));
}

/// Participants removed from a thread can no longer write to it, and those
/// added to an active thread can.
pub proof fn participants_changed_access(before: Thread, after: Thread, set: Set<Seq<u8>>, user: Seq<u8>)
    requires
        after.status == ThreadStatus::Active,
        set.contains(user),
    ensures
        participant_keys(after.participants@) == participant_keys(before.participants@).difference(set)
            ==> !spec_has_permission(after, user, ThreadPermission::Write),
        participant_keys(after.participants@) == participant_keys(before.participants@).union(set)
            ==> spec_has_permission(after, user, ThreadPermission::Write),
{
    if participant_keys(after.participants@) == participant_keys(before.participants@).difference(set) {
        assert(!participant_keys(after.participants@).contains(user));
    }
    if participant_keys(after.participants@) == participant_keys(before.participants@).union(set) {
        assert(participant_keys(after.participants@).contains(user));
    }
}

/// Errors of the thread and message API.
#[derive(Debug, PartialEq, Eq, Structural)]
pub enum NexusError {
    /// The caller is anonymous.
    Unauthenticated,
    /// "Controllers cannot be empty".
    ControllersEmpty,
    /// "Controllers cannot be more than 5".
    ControllersTooMany,
    /// "Managers cannot be empty".
    ManagersEmpty,
    /// "Managers cannot be more than 5".
    ManagersTooMany,
    /// "Participants cannot be empty".
    ParticipantsEmpty,
    /// "Thread {id} not found".
    ThreadNotFound(u64),
    /// "Thread {id} is not active".
    ThreadNotActive(u64),
    /// "Thread {id} is unavailable".
    ThreadUnavailable(u64),
    /// "Exceed max participants limit: {max}".
    ExceedMaxParticipants(u64),
    /// The user lacks the permission on the thread with the given id.
    PermissionDenied(ThreadPermission, u64),
    /// "Cannot remove controllers from participants".
    CannotRemoveControllers,
    /// "Cannot remove managers from participants".
    CannotRemoveManagers,
    /// The user is not a participant of the thread with the given id.
    NotParticipant(u64),
    /// "Cannot quit thread as the last controller".
    LastController,
    /// "Can only delete the latest message".
    OnlyLatestMessage,
    /// The user did not write the message (message id, thread id).
    NotMessageAuthor(u64, u64),
    /// "Reply to message {id} not found".
    ReplyNotFound(u64),
}


/// The verb a permission is named by in error messages.
pub open spec fn permission_verb(p: ThreadPermission) -> Seq<char> {
    match p {
        ThreadPermission::Read => "access"@,
        ThreadPermission::Write => "write"@,
        ThreadPermission::Manage => "manage"@,
        ThreadPermission::Control => "control"@,
    }
}

/// The message of an error, `user` being the text of the user concerned.
pub open spec fn nexus_error_message(e: NexusError, user: Seq<char>) -> Seq<char> {
    match e {
        NexusError::Unauthenticated => "unauthenticated"@,
        NexusError::ControllersEmpty => "Controllers cannot be empty"@,
        NexusError::ControllersTooMany => "Controllers cannot be more than 5"@,
        NexusError::ManagersEmpty => "Managers cannot be empty"@,
        NexusError::ManagersTooMany => "Managers cannot be more than 5"@,
        NexusError::ParticipantsEmpty => "Participants cannot be empty"@,
        NexusError::ThreadNotFound(id) => "Thread "@ + decimal(id as nat) + " not found"@,
        NexusError::ThreadNotActive(id) => "Thread "@ + decimal(id as nat) + " is not active"@,
        NexusError::ThreadUnavailable(id) => "Thread "@ + decimal(id as nat) + " is unavailable"@,
        NexusError::ExceedMaxParticipants(m) => "Exceed max participants limit: "@ + decimal(m as nat),
        NexusError::PermissionDenied(p, id) => "User "@ + user + " does not have permission to "@
            + permission_verb(p) + " thread "@ + decimal(id as nat),
        NexusError::CannotRemoveControllers => "Cannot remove controllers from participants"@,
        NexusError::CannotRemoveManagers => "Cannot remove managers from participants"@,
        NexusError::NotParticipant(id) => "User "@ + user + " is not a participant of thread "@ + decimal(
            id as nat,
        ),
        NexusError::LastController => "Cannot quit thread as the last controller"@,
        NexusError::OnlyLatestMessage => "Can only delete the latest message"@,
        NexusError::NotMessageAuthor(m, id) => "User "@ + user + " does not have permission to delete message "@
            + decimal(m as nat) + " in thread "@ + decimal(id as nat),
        NexusError::ReplyNotFound(m) => "Reply to message "@ + decimal(m as nat) + " not found"@,
    }
}

fn str_of(s: &str) -> (r: String)
    ensures
        r@ == s@,
{
    s.to_string()
}

fn num_text(prefix: &str, n: u64, suffix: &str) -> (r: String)
    ensures
        r@ == prefix@ + decimal(n as nat) + suffix@,
{
    let mut r = prefix.to_string();
    let t = u64_text(n);
    r.append(t.as_str());
    r.append(suffix);
    r
}

impl NexusError {
    /// The message of the error, `user` being the text of the user concerned
    /// (the principal's text, which the caller has).
    pub fn message(&self, user: &str) -> (r: String)
        ensures
            r@ == nexus_error_message(*self, user@),
    {
        proof {
            reveal_strlit("");
        }
        match self {
            NexusError::Unauthenticated => str_of("unauthenticated"),
            NexusError::ControllersEmpty => str_of("Controllers cannot be empty"),
            NexusError::ControllersTooMany => str_of("Controllers cannot be more than 5"),
            NexusError::ManagersEmpty => str_of("Managers cannot be empty"),
            NexusError::ManagersTooMany => str_of("Managers cannot be more than 5"),
            NexusError::ParticipantsEmpty => str_of("Participants cannot be empty"),
            NexusError::ThreadNotFound(id) => num_text("Thread ", *id, " not found"),
            NexusError::ThreadNotActive(id) => num_text("Thread ", *id, " is not active"),
            NexusError::ThreadUnavailable(id) => num_text("Thread ", *id, " is unavailable"),
            NexusError::ExceedMaxParticipants(m) => {
                let r = num_text("Exceed max participants limit: ", *m, "");
                assert(r@ =~= "Exceed max participants limit: "@ + decimal(*m as nat));
                r
            },
            NexusError::PermissionDenied(p, id) => {
                let mut r = str_of("User ");
                r.append(user);
                r.append(" does not have permission to ");
                let verb = match p {
                    ThreadPermission::Read => "access",
                    ThreadPermission::Write => "write",
                    ThreadPermission::Manage => "manage",
                    ThreadPermission::Control => "control",
                };
                r.append(verb);
                let t = num_text(" thread ", *id, "");
                r.append(t.as_str());
                assert(r@ =~= nexus_error_message(*self, user@));
                r
            },
            NexusError::CannotRemoveControllers => str_of("Cannot remove controllers from participants"),
            NexusError::CannotRemoveManagers => str_of("Cannot remove managers from participants"),
            NexusError::NotParticipant(id) => {
                let mut r = str_of("User ");
                r.append(user);
                let t = num_text(" is not a participant of thread ", *id, "");
                r.append(t.as_str());
                assert(r@ =~= nexus_error_message(*self, user@));
                r
            },
            NexusError::LastController => str_of("Cannot quit thread as the last controller"),
            NexusError::OnlyLatestMessage => str_of("Can only delete the latest message"),
            NexusError::NotMessageAuthor(m, id) => {
                let mut r = str_of("User ");
                r.append(user);
                let t = num_text(" does not have permission to delete message ", *m, " in thread ");
                r.append(t.as_str());
                let u = u64_text(*id);
                r.append(u.as_str());
                assert(r@ =~= nexus_error_message(*self, user@));
                r
            },
            NexusError::ReplyNotFound(m) => num_text("Reply to message ", *m, " not found"),
        }
    }
}

/// The most controllers, and the most managers, a thread can have.
pub const MAX_MEMBERS: usize = 5;

/// The set of principals held by a vector.
pub open spec fn members(v: Seq<Principal>) -> Set<Seq<u8>> {
    pview(v).to_set()
}

/// The set of participants of a participant table.
pub open spec fn participant_keys(v: Seq<(Principal, u64)>) -> Set<Seq<u8>> {
    kview(v).to_set()
}

/// The (participant, number) pairs of a participant table.
pub open spec fn participant_entries(v: Seq<(Principal, u64)>) -> Set<(Seq<u8>, u64)> {
    eview(v).to_set()
}

/// Which member list of a thread an update replaces.
#[derive(Debug, Clone, Copy, PartialEq, Eq, Structural)]
pub enum MemberRole {
    Controllers,
    Managers,
}

/// The error for an empty member list of the given role.
pub open spec fn empty_members_error(role: MemberRole) -> NexusError {
    match role {
        MemberRole::Controllers => NexusError::ControllersEmpty,
        MemberRole::Managers => NexusError::ManagersEmpty,
    }
}

/// The error for a member list of the given role with more than five principals.
pub open spec fn too_many_members_error(role: MemberRole) -> NexusError {
    match role {
        MemberRole::Controllers => NexusError::ControllersTooMany,
        MemberRole::Managers => NexusError::ManagersTooMany,
    }
}

/// The fields of a thread that membership changes leave as they are.
pub open spec fn same_info(a: Thread, b: Thread) -> bool {
    &&& a._id == b._id
    &&& a.id == b.id
    &&& a.name == b.name
    &&& a.language == b.language
    &&& a.image == b.image
    &&& a.tags == b.tags
    &&& a.description == b.description
    &&& a.visibility == b.visibility
    &&& a.status == b.status
    &&& a.max_participants == b.max_participants
    &&& a.created_at == b.created_at
}

/// A vector without duplicates holds as many principals as its set.
proof fn lemma_pset_len(v: Seq<Principal>)
    requires
        is_pset(v),
    ensures
        members(v).len() == v.len(),
{
    pview(v).unique_seq_to_set();
}

/// Two vectors with the same principals have the same set.
proof fn lemma_same_members(a: Seq<Principal>, b: Seq<Principal>)
    requires
        forall|x: Seq<u8>| pview(a).contains(x) <==> pview(b).contains(x),
    ensures
        members(a) == members(b),
{
    assert(members(a) =~= members(b));
}

/// The new member list of the given role, each principal once: refused when
/// empty or when it names more than five principals.
pub fn validate_members(input: &Vec<Principal>, role: MemberRole) -> (r: Result<Vec<Principal>, NexusError>)
    ensures
        r is Ok <==> 0 < members(input@).len() <= 5,
        r matches Ok(set) ==> is_pset(set@) && members(set@) == members(input@),
        r matches Err(e) ==> (members(input@).len() == 0 && e == empty_members_error(role)) || (
        members(input@).len() > 5 && e == too_many_members_error(role)),
{
    let set = dedup_principals(input);
    proof {
        lemma_pset_len(set@);
        lemma_same_members(set@, input@);
    }
    if set.len() == 0 {
        return match role {
            MemberRole::Controllers => Err(NexusError::ControllersEmpty),
            MemberRole::Managers => Err(NexusError::ManagersEmpty),
        };
    }
    if set.len() > MAX_MEMBERS {
        return match role {
            MemberRole::Controllers => Err(NexusError::ControllersTooMany),
            MemberRole::Managers => Err(NexusError::ManagersTooMany),
        };
    }
    Ok(set)
}

/// The participants to add or remove, each once: refused when empty.
pub fn validate_participants(input: &Vec<Principal>) -> (r: Result<Vec<Principal>, NexusError>)
    ensures
        r is Ok <==> members(input@).len() > 0,
        r matches Ok(set) ==> is_pset(set@) && members(set@) == members(input@) && set@.len()
            == members(input@).len(),
        r matches Err(e) ==> e == NexusError::ParticipantsEmpty,
{
    let set = dedup_principals(input);
    proof {
        lemma_pset_len(set@);
        lemma_same_members(set@, input@);
    }
    if set.len() == 0 {
        return Err(NexusError::ParticipantsEmpty);
    }
    Ok(set)
}

/// Replaces the controllers or the managers of a fetched thread, as its
/// controller asks: every new member becomes a participant (with 0 where it
/// was not one), and the thread is stamped with `now`.
pub fn update_thread_members(
    thread: Thread,
    user: &Principal,
    set: Vec<Principal>,
    role: MemberRole,
    now: u64,
) -> (r: Result<Thread, NexusError>)
    requires
        is_pset(set@),
        set@.len() > 0,
    ensures
        r is Ok <==> spec_has_permission(thread, user@, ThreadPermission::Control),
        r matches Err(e) ==> e == NexusError::PermissionDenied(ThreadPermission::Control, thread._id),
        r matches Ok(t) ==> {
            &&& same_info(thread, t)
            &&& t.updated_at == now
            &&& role == MemberRole::Controllers ==> t.controllers == set && t.managers
                == thread.managers
            &&& role == MemberRole::Managers ==> t.managers == set && t.controllers
                == thread.controllers
            &&& participant_keys(t.participants@) == participant_keys(thread.participants@).union(
                members(set@),
            )
            &&& participant_entries(thread.participants@).subset_of(
                participant_entries(t.participants@),
            )
            &&& forall|e: (Seq<u8>, u64)| #[trigger]
                participant_entries(t.participants@).contains(e) ==> participant_entries(
                    thread.participants@,
                ).contains(e) || e.1 == 0
        },
        thread_wf(thread) && r is Ok ==> thread_wf(r->Ok_0),
{
    if !thread.has_permission(user, ThreadPermission::Control) {
        return Err(NexusError::PermissionDenied(ThreadPermission::Control, thread._id));
    }
    let ghost old_t = thread;
    let mut t = thread;
    insert_missing_keys(&mut t.participants, &set);
    match role {
        MemberRole::Controllers => {
            t.controllers = set;
        },
        MemberRole::Managers => {
            t.managers = set;
        },
    }
    t.updated_at = now;
    proof {
        assert(participant_keys(t.participants@) =~= participant_keys(old_t.participants@).union(
            members(set@),
        ));
        assert(participant_entries(old_t.participants@).subset_of(
            participant_entries(t.participants@),
        ));
    }
    Ok(t)
}

/// Adds participants to a fetched thread, as its controller or manager asks;
/// participants already there keep their numbers, new ones get 0.
pub fn add_thread_participants(thread: Thread, user: &Principal, set: &Vec<Principal>, now: u64) -> (r: Result<Thread, NexusError>)
    ensures
        r is Ok <==> spec_has_permission(thread, user@, ThreadPermission::Manage),
        r matches Err(e) ==> e == NexusError::PermissionDenied(ThreadPermission::Manage, thread._id),
        r matches Ok(t) ==> {
            &&& same_info(thread, t)
            &&& t.updated_at == now
            &&& t.controllers == thread.controllers
            &&& t.managers == thread.managers
            &&& participant_keys(t.participants@) == participant_keys(thread.participants@).union(
                members(set@),
            )
            &&& participant_entries(thread.participants@).subset_of(
                participant_entries(t.participants@),
            )
            &&& forall|e: (Seq<u8>, u64)| #[trigger]
                participant_entries(t.participants@).contains(e) ==> participant_entries(
                    thread.participants@,
                ).contains(e) || e.1 == 0
        },
        thread_wf(thread) && r is Ok ==> thread_wf(r->Ok_0),
{
    if !thread.has_permission(user, ThreadPermission::Manage) {
        return Err(NexusError::PermissionDenied(ThreadPermission::Manage, thread._id));
    }
    let ghost old_t = thread;
    let mut t = thread;
    insert_missing_keys(&mut t.participants, set);
    t.updated_at = now;
    proof {
        assert(participant_keys(t.participants@) =~= participant_keys(old_t.participants@).union(
            members(set@),
        ));
        assert(participant_entries(old_t.participants@).subset_of(
            participant_entries(t.participants@),
        ));
    }
    Ok(t)
}

/// Removes participants from a fetched thread, as its controller or manager
/// asks; controllers and managers cannot be removed.
pub fn remove_thread_participants(thread: Thread, user: &Principal, set: &Vec<Principal>, now: u64) -> (r: Result<Thread, NexusError>)
    ensures
        !spec_has_permission(thread, user@, ThreadPermission::Manage) ==> r == Err::<Thread, NexusError>(
            NexusError::PermissionDenied(ThreadPermission::Manage, thread._id),
        ),
        spec_has_permission(thread, user@, ThreadPermission::Manage) && !members(
            thread.controllers@,
        ).disjoint(members(set@)) ==> r == Err::<Thread, NexusError>(
            NexusError::CannotRemoveControllers,
        ),
        spec_has_permission(thread, user@, ThreadPermission::Manage) && members(
            thread.controllers@,
        ).disjoint(members(set@)) && !members(thread.managers@).disjoint(members(set@)) ==> r
            == Err::<Thread, NexusError>(NexusError::CannotRemoveManagers),
        r is Ok <==> spec_has_permission(thread, user@, ThreadPermission::Manage) && members(
            thread.controllers@,
        ).disjoint(members(set@)) && members(thread.managers@).disjoint(members(set@)),
        r matches Ok(t) ==> {
            &&& same_info(thread, t)
            &&& t.updated_at == now
            &&& t.controllers == thread.controllers
            &&& t.managers == thread.managers
            &&& participant_entries(t.participants@) == participant_entries(
                thread.participants@,
            ).filter(|e: (Seq<u8>, u64)| !members(set@).contains(e.0))
            &&& participant_keys(t.participants@) == participant_keys(thread.participants@).difference(
                members(set@),
            )
        },
        thread_wf(thread) && r is Ok ==> thread_wf(r->Ok_0),
{
    if !thread.has_permission(user, ThreadPermission::Manage) {
        return Err(NexusError::PermissionDenied(ThreadPermission::Manage, thread._id));
    }
    if intersects(&thread.controllers, set) {
        proof {
            let x = choose|x: Seq<u8>| pview(thread.controllers@).contains(x) && pview(set@).contains(x);
            assert(members(thread.controllers@).contains(x) && members(set@).contains(x));
        }
        return Err(NexusError::CannotRemoveControllers);
    }
    if intersects(&thread.managers, set) {
        proof {
            let x = choose|x: Seq<u8>| pview(thread.managers@).contains(x) && pview(set@).contains(x);
            assert(members(thread.managers@).contains(x) && members(set@).contains(x));
        }
        return Err(NexusError::CannotRemoveManagers);
    }
    let ghost old_t = thread;
    let mut t = thread;
    t.participants = without_keys(&t.participants, set);
    t.updated_at = now;
    proof {
        assert(members(old_t.controllers@).disjoint(members(set@)));
        assert(members(old_t.managers@).disjoint(members(set@)));
        assert(participant_entries(t.participants@) =~= participant_entries(
            old_t.participants@,
        ).filter(|e: (Seq<u8>, u64)| !members(set@).contains(e.0)));
        assert(participant_keys(t.participants@) =~= participant_keys(old_t.participants@).difference(
            members(set@),
        ));
    }
    Ok(t)
}


/// Fails with `PermissionDenied` unless `user` has `permission` on the thread.
pub fn require_permission(thread: &Thread, user: &Principal, permission: ThreadPermission) -> (r: Result<(), NexusError>)
    ensures
        r is Ok <==> spec_has_permission(*thread, user@, permission),
        r matches Err(e) ==> e == NexusError::PermissionDenied(permission, thread._id),
{
    if thread.has_permission(user, permission) {
        Ok(())
    } else {
        Err(NexusError::PermissionDenied(permission, thread._id))
    }
}

/// A new thread owned by `owner`: the owner is its only controller, manager
/// and participant (with 0); it is private, active, untagged, and limited to
/// 0 participants until a system call raises the limit.
pub fn new_thread(id: Xid, owner: &Principal, name: String, description: Option<String>, now: u64) -> (t: Thread)
    ensures
        t._id == 0,
        t.id == id,
        t.name == name,
        t.language@.len() == 0,
        t.image@.len() == 0,
        t.tags@.len() == 0,
        t.description == description,
        t.visibility == ThreadVisibility::Private,
        t.status == ThreadStatus::Active,
        t.max_participants == 0,
        pview(t.controllers@) == seq![owner@],
        pview(t.managers@) == seq![owner@],
        eview(t.participants@) == seq![(owner@, 0u64)],
        t.created_at == now,
        t.updated_at == now,
        thread_wf(t),
{
    let mut controllers: Vec<Principal> = Vec::new();
    controllers.push(owner.copy());
    let mut managers: Vec<Principal> = Vec::new();
    managers.push(owner.copy());
    let mut participants: Vec<(Principal, u64)> = Vec::new();
    participants.push((owner.copy(), 0u64));
    let t = Thread {
        _id: 0,
        id,
        name,
        language: String::new(),
        image: String::new(),
        tags: Vec::new(),
        description,
        visibility: ThreadVisibility::Private,
        status: ThreadStatus::Active,
        max_participants: 0,
        controllers,
        managers,
        participants,
        created_at: now,
        updated_at: now,
    };
    proof {
        assert(pview(t.controllers@) =~= seq![owner@]);
        assert(pview(t.managers@) =~= seq![owner@]);
        assert(eview(t.participants@) =~= seq![(owner@, 0u64)]);
        assert(kview(t.participants@) =~= seq![owner@]);
        assert(members(t.controllers@) =~= participant_keys(t.participants@));
        assert(members(t.managers@) =~= participant_keys(t.participants@));
    }
    t
}

/// `user` leaves a fetched thread: it stops being a controller, a manager and
/// a participant. A non-participant is refused, and so is the last controller.
pub fn quit_thread(thread: Thread, user: &Principal, now: u64) -> (r: Result<Thread, NexusError>)
    ensures
        !participant_keys(thread.participants@).contains(user@) ==> r == Err::<Thread, NexusError>(
            NexusError::NotParticipant(thread._id),
        ),
        participant_keys(thread.participants@).contains(user@) && members(
            thread.controllers@,
        ).contains(user@) && members(thread.controllers@).remove(user@).len() == 0 ==> r == Err::<
            Thread,
            NexusError,
        >(NexusError::LastController),
        r is Ok <==> participant_keys(thread.participants@).contains(user@) && !(members(
            thread.controllers@,
        ).contains(user@) && members(thread.controllers@).remove(user@).len() == 0),
        r matches Ok(t) ==> {
            &&& same_info(thread, t)
            &&& t.updated_at == now
            &&& members(t.controllers@) == members(thread.controllers@).remove(user@)
            &&& members(t.managers@) == members(thread.managers@).remove(user@)
            &&& participant_keys(t.participants@) == participant_keys(thread.participants@).remove(
                user@,
            )
            &&& participant_entries(t.participants@) == participant_entries(
                thread.participants@,
            ).filter(|e: (Seq<u8>, u64)| e.0 != user@)
        },
        thread_wf(thread) && r is Ok ==> thread_wf(r->Ok_0),
{
    if !contains_key(&thread.participants, user) {
        return Err(NexusError::NotParticipant(thread._id));
    }
    let mut me: Vec<Principal> = Vec::new();
    me.push(user.copy());
    assert(pview(me@) =~= seq![user@]);
    assert forall|x: Seq<u8>| pview(me@).contains(x) <==> x == user@ by {
        if x == user@ {
            assert(pview(me@)[0] == x);
        }
    }
    let controllers = without_principals(&thread.controllers, &me);
    let managers = without_principals(&thread.managers, &me);
    let participants = without_keys(&thread.participants, &me);
    proof {
        assert(members(controllers@) =~= members(thread.controllers@).remove(user@));
        assert(members(managers@) =~= members(thread.managers@).remove(user@));
        assert(participant_keys(participants@) =~= participant_keys(thread.participants@).remove(
            user@,
        ));
        assert(participant_entries(participants@) =~= participant_entries(
            thread.participants@,
        ).filter(|e: (Seq<u8>, u64)| e.0 != user@));
    }
    if contains_principal(&thread.controllers, user) && controllers.len() == 0 {
        proof {
            assert(members(controllers@) =~= Set::<Seq<u8>>::empty());
        }
        return Err(NexusError::LastController);
    }
    proof {
        if members(thread.controllers@).contains(user@) {
            assert(controllers@.len() > 0);
            let x = pview(controllers@)[0];
            assert(members(controllers@).contains(x));
        }
        if is_pset(thread.controllers@) && thread.controllers@.len() > 0 && !members(thread.controllers@).contains(user@) {
            assert(members(controllers@) =~= members(thread.controllers@));
            assert(controllers@.len() > 0) by {
                let x = pview(thread.controllers@)[0];
                assert(members(thread.controllers@).contains(x));
                if controllers@.len() == 0 {
                    assert(!pview(controllers@).contains(x));
                }
            }
        }
    }
    let mut t = thread;
    t.controllers = controllers;
    t.managers = managers;
    t.participants = participants;
    t.updated_at = now;
    Ok(t)
}

/// The requests of the thread API.
pub enum ThreadToolArgs {
    /// Create a thread owned by the caller.
    Create { name: String, description: Option<String> },
    /// Update a thread's descriptive information.
    Update { thread_id: u64, input: UpdateThreadInfo },
    /// Replace a thread's controllers.
    UpdateControllers { thread_id: u64, user_ids: Vec<Principal> },
    /// Replace a thread's managers.
    UpdateManagers { thread_id: u64, user_ids: Vec<Principal> },
    /// Add participants to a thread.
    AddParticipants { thread_id: u64, user_ids: Vec<Principal> },
    /// Remove participants from a thread.
    RemoveParticipants { thread_id: u64, user_ids: Vec<Principal> },
    /// Quit a thread.
    Quit { thread_id: u64 },
    /// Delete a thread.
    Delete { thread_id: u64 },
    /// Get a thread.
    Get { thread_id: u64 },
    /// List the caller's threads; `cursor` continues a previous page and
    /// `limit` defaults to 100.
    ListMy { cursor: Option<String>, limit: Option<usize> },
    /// List public threads; `limit` defaults to 100.
    ListPublic { limit: Option<usize> },
    /// The states of all the caller's threads.
    FetchMyThreadsState,
    /// The states of the given public threads.
    FetchPublicThreadsState { thread_ids: Vec<u64> },
}

/// The requests of the message API.
pub enum MessageToolArgs {
    /// Add a message to a thread, in reply to a message when `reply_to` is set.
    Add { thread_id: u64, message: String, reply_to: Option<u64> },
    /// Get a message of a thread.
    Get { thread_id: u64, message_id: u64 },
    /// List a thread's messages, newest first; `cursor` is the id of the
    /// oldest message of the previous page.
    List { thread_id: u64, cursor: Option<String>, limit: Option<usize> },
    /// Delete the latest message of a thread (only its author may).
    Delete { thread_id: u64, message_id: u64 },
}

/// The request of the resource API: a resource of a thread.
pub struct GetResourceToolArgs {
    pub thread_id: u64,
    pub resource_id: u64,
}

/// The name of the collection of a thread's messages: "{id}_messages".
pub fn thread_message_collection_name(id: u64) -> (r: String)
    ensures
        r@ == decimal(id as nat) + "_messages"@,
{
    let mut r = u64_text(id);
    r.append("_messages");
    r
}

/// The name of the collection of a thread's resources: "{id}_resources".
pub fn thread_resource_collection_name(id: u64) -> (r: String)
    ensures
        r@ == decimal(id as nat) + "_resources"@,
{
    let mut r = u64_text(id);
    r.append("_resources");
    r
}

} // verus!
