//! Access to an engine (its controller, managers and visibility) and the
//! state of each user: subscription, credit, features, status and counters.
use vstd::prelude::*;
use crate::principal::{Principal, anonymous_bytes, principal_eq, contains_principal, pview};
use crate::text::{decimal, u64_text};

verus! {

/// Who can use the engine.
#[derive(Debug, Clone, Copy, PartialEq, Eq, Structural)]
pub enum Visibility {
    /// Only the controller and the managers.
    Private,
    /// The controller, the managers, and users with permission.
    Protected,
    /// Anyone.
    Public,
}

impl Visibility {
    /// The number of this visibility: 0 private, 1 protected, 2 public.
    pub fn to_u8(&self) -> (n: u8)
        ensures
            n == match *self {
                Visibility::Private => 0u8,
                Visibility::Protected => 1u8,
                Visibility::Public => 2u8,
            },
    {
        match self {
            Visibility::Private => 0,
            Visibility::Protected => 1,
            Visibility::Public => 2,
        }
    }
}

/// Errors of the management of an engine and of its users' states.
#[derive(Debug, PartialEq, Eq, Structural)]
pub enum ManagementError {
    /// "anonymous caller not allowed".
    AnonymousNotAllowed,
    /// "caller is not allowed".
    CallerNotAllowed,
    /// "caller does not have permission".
    NoPermission,
    /// "expiry is too short".
    ExpiryTooShort,
    /// "tier {tier} is too high".
    TierTooHigh(u8),
    /// "invalid status {status}".
    InvalidStatus(i8),
    /// "user_id is required".
    UserIdRequired,
    /// "resources are not supported".
    ResourcesNotSupported,
    /// "anonymous user is not allowed".
    AnonymousUserNotAllowed,
}



/// A banned or suspended user (negative status) has no permission, whatever
/// the subscription or credit; a permitted caller is the user, with an
/// unexpired subscription or an unexpired, non-empty credit.
pub proof fn negative_status_denies(s: UserState, caller: Seq<u8>, now_ms: u64)
    ensures
        s.status < 0 ==> !spec_user_has_permission(s, caller, now_ms),
        spec_user_has_permission(s, caller, now_ms) ==> caller == s.user@ && s.status >= 0 && (
        s.subscription_expiry > now_ms || (s.credit_expiry > now_ms && s.credit_balance > 0)),
{
}

/// The decimal text of an integer, with a minus sign when it is negative.
pub open spec fn signed_decimal(i: int) -> Seq<char> {
    if i < 0 {
        "-"@ + decimal((-i) as nat)
    } else {
        decimal(i as nat)
    }
}

/// The message of an error.
pub open spec fn management_error_message(e: ManagementError) -> Seq<char> {
    match e {
        ManagementError::AnonymousNotAllowed => "anonymous caller not allowed"@,
        ManagementError::CallerNotAllowed => "caller is not allowed"@,
        ManagementError::NoPermission => "caller does not have permission"@,
        ManagementError::ExpiryTooShort => "expiry is too short"@,
        ManagementError::TierTooHigh(t) => "tier "@ + decimal(t as nat) + " is too high"@,
        ManagementError::InvalidStatus(st) => "invalid status "@ + signed_decimal(st as int),
        ManagementError::UserIdRequired => "user_id is required"@,
        ManagementError::ResourcesNotSupported => "resources are not supported"@,
        ManagementError::AnonymousUserNotAllowed => "anonymous user is not allowed"@,
    }
}

impl ManagementError {
    /// The message of the error.
    pub fn message(&self) -> (r: String)
        ensures
            r@ == management_error_message(*self),
    {
        match self {
            ManagementError::AnonymousNotAllowed => "anonymous caller not allowed".to_string(),
            ManagementError::CallerNotAllowed => "caller is not allowed".to_string(),
            ManagementError::NoPermission => "caller does not have permission".to_string(),
            ManagementError::ExpiryTooShort => "expiry is too short".to_string(),
            ManagementError::TierTooHigh(t) => {
                let mut r = "tier ".to_string();
                let n = u64_text(*t as u64);
                r.append(n.as_str());
                r.append(" is too high");
                r
            },
            ManagementError::InvalidStatus(st) => {
                let mut r = "invalid status ".to_string();
                if *st < 0 {
                    r.append("-");
                    let n = u64_text((0 - (*st as i64)) as u64);
                    r.append(n.as_str());
                    assert(r@ =~= management_error_message(*self));
                } else {
                    let n = u64_text(*st as u64);
                    r.append(n.as_str());
                }
                r
            },
            ManagementError::UserIdRequired => "user_id is required".to_string(),
            ManagementError::ResourcesNotSupported => "resources are not supported".to_string(),
            ManagementError::AnonymousUserNotAllowed => "anonymous user is not allowed".to_string(),
        }
    }
}

/// The management of an engine: its controller, its managers and its visibility.
#[derive(Debug)]
pub struct Management {
    pub controller: Principal,
    /// A set: no principal twice.
    pub managers: Vec<Principal>,
    pub visibility: Visibility,
}

/// Builds the management of an engine.
#[derive(Debug)]
pub struct ManagementBuilder {
    pub visibility: Visibility,
    pub controller: Principal,
    pub managers: Vec<Principal>,
}

impl ManagementBuilder {
    /// A builder with the given visibility and controller, and no managers.
    pub fn new(visibility: Visibility, controller: Principal) -> (b: ManagementBuilder)
        ensures
            b.visibility == visibility,
            b.controller == controller,
            b.managers@.len() == 0,
    {
        ManagementBuilder { visibility, controller, managers: Vec::new() }
    }

    /// Sets the managers.
    pub fn with_managers(self, managers: Vec<Principal>) -> (b: ManagementBuilder)
        ensures
            b.visibility == self.visibility,
            b.controller == self.controller,
            b.managers == managers,
    {
        let mut b = self;
        b.managers = managers;
        b
    }

    /// The management.
    pub fn build(self) -> (m: Management)
        ensures
            m.visibility == self.visibility,
            m.controller == self.controller,
            m.managers == self.managers,
    {
        Management { controller: self.controller, managers: self.managers, visibility: self.visibility }
    }
}

/// The caller is the engine's controller or one of its managers.
pub open spec fn spec_is_manager(m: Management, caller: Seq<u8>) -> bool {
    caller == m.controller@ || pview(m.managers@).contains(caller)
}

impl Management {
    /// Whether the caller is the controller.
    pub fn is_controller(&self, caller: &Principal) -> (b: bool)
        ensures
            b == (caller@ == self.controller@),
    {
        principal_eq(caller, &self.controller)
    }

    /// Whether the caller is the controller or a manager.
    pub fn is_manager(&self, caller: &Principal) -> (b: bool)
        ensures
            b == spec_is_manager(*self, caller@),
    {
        principal_eq(caller, &self.controller) || contains_principal(&self.managers, caller)
    }

    /// The engine's visibility, for a caller that may use it: only a public
    /// engine admits the anonymous caller, and a private one admits only its
    /// controller and managers.
    pub fn try_get_visibility(&self, caller: &Principal) -> (r: Result<Visibility, ManagementError>)
        ensures
            self.visibility != Visibility::Public && caller@ == anonymous_bytes() ==> r == Err::<
                Visibility,
                ManagementError,
            >(ManagementError::AnonymousNotAllowed),
            !(self.visibility != Visibility::Public && caller@ == anonymous_bytes())
                && self.visibility == Visibility::Private && !spec_is_manager(*self, caller@) ==> r
                == Err::<Visibility, ManagementError>(ManagementError::CallerNotAllowed),
            r is Ok <==> !(self.visibility != Visibility::Public && caller@ == anonymous_bytes())
                && !(self.visibility == Visibility::Private && !spec_is_manager(*self, caller@)),
            r matches Ok(v) ==> v == self.visibility,
    {
        if self.visibility != Visibility::Public && caller.is_anonymous() {
            return Err(ManagementError::AnonymousNotAllowed);
        }
        if self.visibility == Visibility::Private && !self.is_manager(caller) {
            return Err(ManagementError::CallerNotAllowed);
        }
        Ok(self.visibility)
    }
}

/// The state of a user of the engine.
#[derive(Debug)]
pub struct UserState {
    pub user: Principal,
    /// -2: banned, -1: suspended, 0: active.
    pub status: i8,
    /// 0: free, 1: premium, 2: enterprise.
    pub subscription_tier: u8,
    /// When the subscription expires, in Unix milliseconds.
    pub subscription_expiry: u64,
    pub credit_balance: u64,
    /// When the credit expires, in Unix milliseconds.
    pub credit_expiry: u64,
    /// The features the user has access to (a set, in increasing order).
    pub features: Vec<String>,
    /// When the user last accessed the engine, in Unix milliseconds.
    pub last_access: u64,
    pub agent_requests: u64,
    pub tool_requests: u64,
    pub credit_consumed: u64,
}

/// A user's state, with the operations that change it.
#[derive(Debug)]
pub struct UserStateWrapper {
    pub state: UserState,
}

/// Two user states agree on everything but the given numbers, which the
/// caller states itself.
pub open spec fn same_user_state_but_counts(a: UserState, b: UserState) -> bool {
    &&& a.user == b.user
    &&& a.status == b.status
    &&& a.subscription_tier == b.subscription_tier
    &&& a.subscription_expiry == b.subscription_expiry
    &&& a.features == b.features
    &&& a.credit_consumed == b.credit_consumed
}

/// The user may use the engine at `now`: the state is the user's, the user is
/// not banned or suspended, and either the subscription or an unexpired,
/// positive credit covers `now`.
pub open spec fn spec_user_has_permission(s: UserState, caller: Seq<u8>, now_ms: u64) -> bool {
    s.user@ == caller && s.status >= 0 && (s.subscription_expiry > now_ms || (s.credit_expiry
        > now_ms && s.credit_balance > 0))
}

impl UserStateWrapper {
    /// The state of a new user: active, free, without credit or features.
    pub fn new(user: Principal) -> (w: UserStateWrapper)
        ensures
            w.state.user == user,
            w.state.status == 0,
            w.state.subscription_tier == 0,
            w.state.subscription_expiry == 0,
            w.state.credit_balance == 0,
            w.state.credit_expiry == 0,
            w.state.features@.len() == 0,
            w.state.last_access == 0,
            w.state.agent_requests == 0,
            w.state.tool_requests == 0,
            w.state.credit_consumed == 0,
    {
        UserStateWrapper {
            state: UserState {
                user,
                status: 0,
                subscription_tier: 0,
                subscription_expiry: 0,
                credit_balance: 0,
                credit_expiry: 0,
                features: Vec::new(),
                last_access: 0,
                agent_requests: 0,
                tool_requests: 0,
                credit_consumed: 0,
            },
        }
    }

    /// The subscription tier and expiry.
    pub fn subscription(&self) -> (r: (u8, u64))
        ensures
            r == (self.state.subscription_tier, self.state.subscription_expiry),
    {
        (self.state.subscription_tier, self.state.subscription_expiry)
    }

    /// The credit balance and expiry.
    pub fn credit(&self) -> (r: (u64, u64))
        ensures
            r == (self.state.credit_balance, self.state.credit_expiry),
    {
        (self.state.credit_balance, self.state.credit_expiry)
    }

    /// Whether the caller may use the engine at `now_ms`.
    pub fn has_permission(&self, caller: &Principal, now_ms: u64) -> (b: bool)
        ensures
            b == spec_user_has_permission(self.state, caller@, now_ms),
            self.state.status < 0 ==> !b,
            b ==> caller@ == self.state.user@,
            b ==> self.state.subscription_expiry > now_ms || (self.state.credit_expiry > now_ms
                && self.state.credit_balance > 0),
    {
        principal_eq(&self.state.user, caller) && self.state.status >= 0 && (
        self.state.subscription_expiry > now_ms || (self.state.credit_expiry > now_ms
            && self.state.credit_balance > 0))
    }

    /// Takes `credit` from an unexpired balance that covers it; otherwise
    /// changes nothing and returns false.
    pub fn consume_credit(&mut self, credit: u64, now_ms: u64) -> (ok: bool)
        ensures
            ok == (old(self).state.credit_expiry > now_ms && old(self).state.credit_balance >= credit),
            ok ==> final(self).state.credit_balance == old(self).state.credit_balance - credit,
            !ok ==> final(self).state.credit_balance == old(self).state.credit_balance,
            final(self).state.credit_expiry == old(self).state.credit_expiry,
            final(self).state.last_access == old(self).state.last_access,
            final(self).state.agent_requests == old(self).state.agent_requests,
            final(self).state.tool_requests == old(self).state.tool_requests,
            same_user_state_but_counts(old(self).state, final(self).state),
    {
        if self.state.credit_expiry > now_ms && self.state.credit_balance >= credit {
            self.state.credit_balance = self.state.credit_balance - credit;
            true
        } else {
            false
        }
    }

    /// Counts an agent request (saturating) made at `now_ms`.
    pub fn increment_agent_requests(&mut self, now_ms: u64)
        ensures
            final(self).state.agent_requests == (if old(self).state.agent_requests == u64::MAX {
                u64::MAX
            } else {
                (old(self).state.agent_requests + 1) as u64
            }),
            final(self).state.last_access == now_ms,
            final(self).state.tool_requests == old(self).state.tool_requests,
            final(self).state.credit_balance == old(self).state.credit_balance,
            final(self).state.credit_expiry == old(self).state.credit_expiry,
            same_user_state_but_counts(old(self).state, final(self).state),
    {
        self.state.agent_requests = self.state.agent_requests.saturating_add(1);
        self.state.last_access = now_ms;
    }

    /// Counts a tool request (saturating) made at `now_ms`.
    pub fn increment_tool_requests(&mut self, now_ms: u64)
        ensures
            final(self).state.tool_requests == (if old(self).state.tool_requests == u64::MAX {
                u64::MAX
            } else {
                (old(self).state.tool_requests + 1) as u64
            }),
            final(self).state.last_access == now_ms,
            final(self).state.agent_requests == old(self).state.agent_requests,
            final(self).state.credit_balance == old(self).state.credit_balance,
            final(self).state.credit_expiry == old(self).state.credit_expiry,
            same_user_state_but_counts(old(self).state, final(self).state),
    {
        self.state.tool_requests = self.state.tool_requests.saturating_add(1);
        self.state.last_access = now_ms;
    }

    /// Adds `credit` to the balance (saturating) and sets its expiry.
    pub fn topup_credit(&mut self, credit: u64, expiry_ms: u64)
        ensures
            final(self).state.credit_balance == topped_up(old(self).state.credit_balance, credit),
            final(self).state.credit_expiry == expiry_ms,
            final(self).state.last_access == old(self).state.last_access,
            final(self).state.agent_requests == old(self).state.agent_requests,
            final(self).state.tool_requests == old(self).state.tool_requests,
            same_user_state_but_counts(old(self).state, final(self).state),
    {
        self.state.credit_balance = self.state.credit_balance.saturating_add(credit);
        self.state.credit_expiry = expiry_ms;
    }

    /// Sets the subscription tier and expiry.
    pub fn update_subscription(&mut self, tier: u8, expiry_ms: u64)
        ensures
            final(self).state.subscription_tier == tier,
            final(self).state.subscription_expiry == expiry_ms,
            final(self).state.user == old(self).state.user,
            final(self).state.status == old(self).state.status,
            final(self).state.credit_balance == old(self).state.credit_balance,
            final(self).state.credit_expiry == old(self).state.credit_expiry,
            final(self).state.features == old(self).state.features,
    {
        self.state.subscription_tier = tier;
        self.state.subscription_expiry = expiry_ms;
    }

    /// Replaces the features.
    pub fn update_features(&mut self, features: Vec<String>)
        ensures
            final(self).state.features == features,
            final(self).state.user == old(self).state.user,
            final(self).state.status == old(self).state.status,
            final(self).state.credit_balance == old(self).state.credit_balance,
            final(self).state.subscription_expiry == old(self).state.subscription_expiry,
    {
        self.state.features = features;
    }

    /// Sets the status.
    pub fn update_status(&mut self, status: i8)
        ensures
            final(self).state.status == status,
            final(self).state.user == old(self).state.user,
            final(self).state.credit_balance == old(self).state.credit_balance,
            final(self).state.subscription_expiry == old(self).state.subscription_expiry,
            final(self).state.features == old(self).state.features,
    {
        self.state.status = status;
    }
}

/// The balance after topping up `credit`: the sum, saturating at `u64::MAX`.
pub open spec fn topped_up(balance: u64, credit: u64) -> u64 {
    if balance + credit > u64::MAX {
        u64::MAX
    } else {
        (balance + credit) as u64
    }
}

/// Credit topped up with an expiry after `now` can be consumed at `now`
/// (`consume_credit` succeeds on the topped-up state), and consuming it leaves
/// the balance there was before, unless the top-up saturated.
pub proof fn topup_then_consume(before: UserState, topped: UserState, credit: u64, expiry: u64, now: u64)
    requires
        topped.credit_balance == topped_up(before.credit_balance, credit),
        topped.credit_expiry == expiry,
        expiry > now,
    ensures
        topped.credit_expiry > now && topped.credit_balance >= credit,
        before.credit_balance + credit <= u64::MAX ==> topped.credit_balance - credit
            == before.credit_balance,
{
}

/// A request of the user-state tool.
#[derive(Debug)]
pub enum UserStateToolArgs {
    GetUserState { user: String },
    TopupCredit { user: String, credit: u64, expiry: u64 },
    UpdateSubscription { user: String, tier: u8, expiry: u64 },
    UpdateFeatures { user: String, features: Vec<String> },
    UpdateStatus { user: String, status: i8 },
    DeleteUserState { user: String },
}

/// A day in milliseconds: the shortest a credit or a subscription may last.
pub const DAY_MS: u64 = 86_400_000;

/// The objection to the arguments of a user-state request at `now_ms`, if
/// any: an expiry less than a day ahead, a tier above 10, a status outside
/// -2..=0.
pub open spec fn spec_args_problem(args: UserStateToolArgs, now_ms: u64) -> Option<ManagementError> {
    match args {
        UserStateToolArgs::TopupCredit { expiry, .. } => if expiry < now_ms + DAY_MS {
            Some(ManagementError::ExpiryTooShort)
        } else {
            None
        },
        UserStateToolArgs::UpdateSubscription { tier, expiry, .. } => if expiry < now_ms + DAY_MS {
            Some(ManagementError::ExpiryTooShort)
        } else if tier > 10 {
            Some(ManagementError::TierTooHigh(tier))
        } else {
            None
        },
        UserStateToolArgs::UpdateStatus { status, .. } => if !(-2 <= status && status <= 0) {
            Some(ManagementError::InvalidStatus(status))
        } else {
            None
        },
        _ => None,
    }
}


/// A user-state request is refused for an expiry less than a day ahead, a
/// tier above 10 or a status outside -2..=0, with that objection; a
/// request to read or delete a state, or to set features, is never refused.
pub proof fn user_state_args_law(args: UserStateToolArgs, now_ms: u64)
    ensures
        args matches UserStateToolArgs::TopupCredit { expiry, .. } ==> (spec_args_problem(args, now_ms)
            is Some <==> expiry < now_ms + DAY_MS),
        args matches UserStateToolArgs::UpdateSubscription { tier, expiry, .. } ==> (spec_args_problem(
            args,
            now_ms,
        ) is None <==> expiry >= now_ms + DAY_MS && tier <= 10),
        args matches UserStateToolArgs::UpdateSubscription { tier, expiry, .. } ==> (expiry >= now_ms + DAY_MS
            && tier > 10 ==> spec_args_problem(args, now_ms) == Some(ManagementError::TierTooHigh(tier))),
        args matches UserStateToolArgs::UpdateStatus { status, .. } ==> (spec_args_problem(args, now_ms)
            is None <==> -2 <= status <= 0),
        args matches UserStateToolArgs::UpdateStatus { status, .. } ==> (!(-2 <= status <= 0)
            ==> spec_args_problem(args, now_ms) == Some(ManagementError::InvalidStatus(status))),
        args is GetUserState || args is UpdateFeatures || args is DeleteUserState ==> spec_args_problem(
            args,
            now_ms,
        ) is None,
{
}

/// Checks the arguments of a user-state request at `now_ms`.
pub fn check_user_state_args(args: &UserStateToolArgs, now_ms: u64) -> (r: Result<(), ManagementError>)
    requires
        now_ms + DAY_MS <= u64::MAX,
    ensures
        match r {
            Ok(_) => spec_args_problem(*args, now_ms) is None,
            Err(e) => spec_args_problem(*args, now_ms) == Some(e),
        },
{
    let min_expiry = now_ms + DAY_MS;
    match args {
        UserStateToolArgs::TopupCredit { expiry, .. } => {
            if *expiry < min_expiry {
                return Err(ManagementError::ExpiryTooShort);
            }
            Ok(())
        },
        UserStateToolArgs::UpdateSubscription { tier, expiry, .. } => {
            if *expiry < min_expiry {
                return Err(ManagementError::ExpiryTooShort);
            }
            if *tier > 10 {
                return Err(ManagementError::TierTooHigh(*tier));
            }
            Ok(())
        },
        UserStateToolArgs::UpdateStatus { status, .. } => {
            if !(-2 <= *status && *status <= 0) {
                return Err(ManagementError::InvalidStatus(*status));
            }
            Ok(())
        },
        _ => Ok(()),
    }
}

/// Who may make a user-state request: anyone may read their own state; every
/// other request needs the engine's controller or a manager.
pub fn check_user_state_access(args: &UserStateToolArgs, caller_is_manager: bool, caller_is_user: bool) -> (r: Result<(), ManagementError>)
    ensures
        r is Ok <==> caller_is_manager || (args is GetUserState && caller_is_user),
        r matches Err(e) ==> e == ManagementError::NoPermission,
{
    let ok = match args {
        UserStateToolArgs::GetUserState { .. } => caller_is_manager || caller_is_user,
        _ => caller_is_manager,
    };
    if ok {
        Ok(())
    } else {
        Err(ManagementError::NoPermission)
    }
}

/// The checks of a thread-metadata request before its method: it takes no
/// resources, and the anonymous caller is refused.
pub fn check_thread_meta_call(has_resources: bool, caller: &Principal) -> (r: Result<(), ManagementError>)
    ensures
        has_resources ==> r == Err::<(), ManagementError>(ManagementError::ResourcesNotSupported),
        !has_resources && caller@ == anonymous_bytes() ==> r == Err::<(), ManagementError>(
            ManagementError::AnonymousUserNotAllowed,
        ),
        r is Ok <==> !has_resources && caller@ != anonymous_bytes(),
{
    if has_resources {
        return Err(ManagementError::ResourcesNotSupported);
    }
    if caller.is_anonymous() {
        return Err(ManagementError::AnonymousUserNotAllowed);
    }
    Ok(())
}

/// A request of the thread-metadata tool.
#[derive(Debug)]
pub struct ThreadMetaToolArgs {
    pub method: ThreadMetaToolMethod,
    /// The thread id, e.g. "9z4e2mr0ui3e8a215n4g".
    pub thread_id: String,
    /// The user id, for adding or removing a participant.
    pub user_id: Option<String>,
}

/// The methods of the thread-metadata tool.
#[derive(Debug, Clone, Copy, PartialEq, Eq, Structural)]
pub enum ThreadMetaToolMethod {
    GetThreadMeta,
    DeleteThreadMeta,
    AddParticipant,
    RemoveParticipant,
}

/// The user a participant change names: adding and removing a participant
/// need a user id.
pub fn required_user_id(args: &ThreadMetaToolArgs) -> (r: Result<Option<String>, ManagementError>)
    ensures
        (args.method == ThreadMetaToolMethod::AddParticipant || args.method
            == ThreadMetaToolMethod::RemoveParticipant) && args.user_id is None ==> r == Err::<
            Option<String>,
            ManagementError,
        >(ManagementError::UserIdRequired),
        (args.method == ThreadMetaToolMethod::AddParticipant || args.method
            == ThreadMetaToolMethod::RemoveParticipant) && args.user_id is Some ==> (r matches Ok(
            Some(v),
        ) && v@ == args.user_id.unwrap()@),
        !(args.method == ThreadMetaToolMethod::AddParticipant || args.method
            == ThreadMetaToolMethod::RemoveParticipant) ==> r matches Ok(None),
{
    match args.method {
        ThreadMetaToolMethod::AddParticipant | ThreadMetaToolMethod::RemoveParticipant => {
            match &args.user_id {
                Some(u) => Ok(Some(u.clone())),
                None => Err(ManagementError::UserIdRequired),
            }
        },
        _ => Ok(None),
    }
}

} // verus!
