use vstd::prelude::*;
use crate::conversation::{trim_str, trimmed};
use crate::dispatch::StoreLookup;
use crate::minting::{fresh_id, now_millis};

verus! {

/// A team as the store holds it; `created_at` in milliseconds since the epoch.
pub struct Team {
    pub team_id: String,
    pub name: String,
    pub owner_id: String,
    pub description: Option<String>,
    pub created_at: i64,
}

/// A user's membership of a team, with its role.
pub struct UserTeam {
    pub user_id: String,
    pub team_id: String,
    pub role: String,
    pub joined_at: i64,
}

/// An invitation to join a team.
pub struct TeamInvitation {
    pub invitation_id: String,
    pub team_id: String,
    pub invitee_id: String,
    pub inviter_id: String,
    pub status: String,
    pub sent_at: i64,
    pub responded_at: Option<i64>,
}

/// A user as team listings show it.
pub struct UserSummary {
    pub id: String,
    pub email: String,
    pub username: Option<String>,
}

/// One line of a team's member list: an accepted member or a pending invitee.
pub struct TeamMemberInfo {
    pub user_id: String,
    pub email: String,
    pub username: Option<String>,
    pub status: String,
    pub invitation_id: Option<String>,
}

/// A pending invitation as its invitee sees it.
pub struct InvitationDisplay {
    pub invitation_id: String,
    pub team_id: String,
    pub team_name: String,
    pub inviter_username: String,
}

/// A request to create a team.
pub struct CreateTeamRequest {
    pub name: String,
    pub description: String,
}

/// A request to invite a user, named by id, email or username.
pub struct InviteRequest {
    pub invitee_id: String,
}

/// An invitee's answer to an invitation.
pub struct RespondInvitationRequest {
    pub invitation_id: String,
}

/// A request to rename a team, and perhaps to hand it to a new owner.
pub struct UpdateTeamRequest {
    pub name: String,
    pub new_owner_id: Option<String>,
}

/// A request to remove a member from a team.
pub struct RemoveTeamMemberRequest {
    pub team_id: String,
    pub user_id: String,
}

/// A request to withdraw some of a team's invitations.
pub struct DeleteInvitationsRequest {
    pub team_id: String,
    pub invitation_ids: Vec<String>,
}

/// The stored texts of roles, invitation states and placeholders.
pub const ADMIN_ROLE: &'static str = "admin";
pub const MEMBER_ROLE: &'static str = "member";

/// A user's role within a team.
#[derive(Debug, Clone, Copy, PartialEq, Eq, Structural)]
pub enum UserTeamRole {
    Admin,
    Member,
}

/// The text under which a role is stored.
pub open spec fn role_text(role: UserTeamRole) -> Seq<char> {
    match role {
        UserTeamRole::Admin => ADMIN_ROLE@,
        UserTeamRole::Member => MEMBER_ROLE@,
    }
}

impl UserTeamRole {
    /// The text under which this role is stored.
    pub fn as_text(&self) -> (r: String)
        ensures
            r@ == role_text(*self),
    {
        match self {
            UserTeamRole::Admin => ADMIN_ROLE.to_string(),
            UserTeamRole::Member => MEMBER_ROLE.to_string(),
        }
    }
}
pub const PENDING: &'static str = "pending";
pub const ACCEPTED: &'static str = "accepted";
pub const UNKNOWN_TEAM: &'static str = "Unknown Team";
pub const UNKNOWN_INVITER: &'static str = "Unknown Inviter";

/// Why a team operation was refused.
#[derive(Debug, Clone, Copy, PartialEq, Eq, Structural)]
pub enum TeamError {
    NotMember,
    NotAdmin,
    NotOwner,
    NotInvitee,
    OtherUsersInvitations,
    TeamNotFound,
    InvitationNotFound,
    MemberNotFound,
    InviteeNotFound,
    AlreadyMember,
    AlreadyInvited,
    InvitationNotPending,
    NewOwnerNotMember,
    StoreFailure,
}

/// The HTTP status that reports `e`.
pub open spec fn team_status_of(e: TeamError) -> u16 {
    match e {
        TeamError::NotMember | TeamError::NotAdmin | TeamError::NotOwner | TeamError::NotInvitee
        | TeamError::OtherUsersInvitations => 401,
        TeamError::TeamNotFound | TeamError::InvitationNotFound | TeamError::MemberNotFound => 404,
        TeamError::InviteeNotFound | TeamError::AlreadyMember | TeamError::AlreadyInvited
        | TeamError::InvitationNotPending | TeamError::NewOwnerNotMember => 400,
        TeamError::StoreFailure => 500,
    }
}

impl TeamError {
    /// The HTTP status that reports this error.
    pub fn status_code(&self) -> (r: u16)
        ensures
            r == team_status_of(*self),
    {
        match self {
            TeamError::NotMember | TeamError::NotAdmin | TeamError::NotOwner
            | TeamError::NotInvitee | TeamError::OtherUsersInvitations => 401,
            TeamError::TeamNotFound | TeamError::InvitationNotFound
            | TeamError::MemberNotFound => 404,
            TeamError::InviteeNotFound | TeamError::AlreadyMember | TeamError::AlreadyInvited
            | TeamError::InvitationNotPending | TeamError::NewOwnerNotMember => 400,
            TeamError::StoreFailure => 500,
        }
    }
}

fn copy_string(s: &String) -> (r: String)
    ensures
        r@ == s@,
{
    s.clone()
}

fn copy_opt(s: &Option<String>) -> (r: Option<String>)
    ensures
        r == *s,
{
    match s {
        Some(v) => Some(v.clone()),
        None => None,
    }
}

/// A new team owned by `owner_id`, and the owner's admin membership of it.
pub fn new_team(team_id: String, request: &CreateTeamRequest, owner_id: &String, now: i64) -> (r: (
    Team,
    UserTeam,
))
    ensures
        r.0.team_id == team_id,
        r.0.name@ == request.name@,
        r.0.owner_id@ == owner_id@,
        r.0.description == Some(request.description),
        r.0.created_at == now,
        r.1.user_id@ == owner_id@,
        r.1.team_id@ == team_id@,
        r.1.role@ == ADMIN_ROLE@,
        r.1.joined_at == now,
{
    let membership = UserTeam {
        user_id: copy_string(owner_id),
        team_id: copy_string(&team_id),
        role: UserTeamRole::Admin.as_text(),
        joined_at: now,
    };
    let team = Team {
        team_id,
        name: copy_string(&request.name),
        owner_id: copy_string(owner_id),
        description: Some(request.description.clone()),
        created_at: now,
    };
    (team, membership)
}

/// Decides an invitation from what the store showed, checked in order: the
/// requester must be an admin of the team, the invitee must resolve to a user,
/// and must be neither a member nor already invited. On success, the id of the
/// user to invite.
pub fn check_invite(
    requester_is_admin: bool,
    resolved_invitee: Option<String>,
    invitee_is_member: bool,
    invitation_pending: bool,
) -> (r: Result<String, TeamError>)
    ensures
        !requester_is_admin ==> r == Err::<String, TeamError>(TeamError::NotAdmin),
        requester_is_admin && resolved_invitee is None ==> r == Err::<String, TeamError>(
            TeamError::InviteeNotFound,
        ),
        requester_is_admin && resolved_invitee is Some && invitee_is_member ==> r == Err::<
            String,
            TeamError,
        >(TeamError::AlreadyMember),
        requester_is_admin && resolved_invitee is Some && !invitee_is_member && invitation_pending
            ==> r == Err::<String, TeamError>(TeamError::AlreadyInvited),
        requester_is_admin && resolved_invitee is Some && !invitee_is_member && !invitation_pending
            ==> r == Ok::<String, TeamError>(resolved_invitee->Some_0),
{
    if !requester_is_admin {
        return Err(TeamError::NotAdmin);
    }
    match resolved_invitee {
        None => Err(TeamError::InviteeNotFound),
        Some(id) => {
            if invitee_is_member {
                Err(TeamError::AlreadyMember)
            } else if invitation_pending {
                Err(TeamError::AlreadyInvited)
            } else {
                Ok(id)
            }
        },
    }
}

/// A pending invitation from `inviter_id` for `invitee_id` to `team_id`.
pub fn new_invitation(
    invitation_id: String,
    team_id: &String,
    invitee_id: String,
    inviter_id: &String,
    now: i64,
) -> (r: TeamInvitation)
    ensures
        r.invitation_id == invitation_id,
        r.team_id@ == team_id@,
        r.invitee_id == invitee_id,
        r.inviter_id@ == inviter_id@,
        r.status@ == PENDING@,
        r.sent_at == now,
        r.responded_at is None,
{
    TeamInvitation {
        invitation_id,
        team_id: copy_string(team_id),
        invitee_id,
        inviter_id: copy_string(inviter_id),
        status: PENDING.to_string(),
        sent_at: now,
        responded_at: None,
    }
}

/// Whether `current_user` may answer the invitation the store returned: it must
/// exist, be addressed to that user, and still be pending.
pub fn check_response(current_user: &String, invitation: &StoreLookup<TeamInvitation>) -> (r: Result<
    (),
    TeamError,
>)
    ensures
        match invitation {
            StoreLookup::Found(inv) => if inv.invitee_id@ != current_user@ {
                r == Err::<(), TeamError>(TeamError::NotInvitee)
            } else if inv.status@ != PENDING@ {
                r == Err::<(), TeamError>(TeamError::InvitationNotPending)
            } else {
                r is Ok
            },
            StoreLookup::Absent => r == Err::<(), TeamError>(TeamError::InvitationNotFound),
            StoreLookup::Failed => r == Err::<(), TeamError>(TeamError::StoreFailure),
        },
{
    match invitation {
        StoreLookup::Found(inv) => {
            if inv.invitee_id != *current_user {
                Err(TeamError::NotInvitee)
            } else if inv.status != PENDING.to_string() {
                Err(TeamError::InvitationNotPending)
            } else {
                Ok(())
            }
        },
        StoreLookup::Absent => Err(TeamError::InvitationNotFound),
        StoreLookup::Failed => Err(TeamError::StoreFailure),
    }
}

/// The membership that accepting an invitation to `team_id` gives `user_id`.
pub fn accepted_membership(user_id: &String, team_id: &String, now: i64) -> (r: UserTeam)
    ensures
        r.user_id@ == user_id@,
        r.team_id@ == team_id@,
        r.role@ == MEMBER_ROLE@,
        r.joined_at == now,
{
    UserTeam {
        user_id: copy_string(user_id),
        team_id: copy_string(team_id),
        role: UserTeamRole::Member.as_text(),
        joined_at: now,
    }
}

/// Whether `current_user` owns the team the store returned: the test before a
/// team is changed or deleted.
pub fn check_owner(current_user: &String, team: &StoreLookup<Team>) -> (r: Result<(), TeamError>)
    ensures
        match team {
            StoreLookup::Found(t) => if t.owner_id@ == current_user@ {
                r is Ok
            } else {
                r == Err::<(), TeamError>(TeamError::NotOwner)
            },
            StoreLookup::Absent => r == Err::<(), TeamError>(TeamError::TeamNotFound),
            StoreLookup::Failed => r == Err::<(), TeamError>(TeamError::StoreFailure),
        },
{
    match team {
        StoreLookup::Found(t) => {
            if t.owner_id == *current_user {
                Ok(())
            } else {
                Err(TeamError::NotOwner)
            }
        },
        StoreLookup::Absent => Err(TeamError::TeamNotFound),
        StoreLookup::Failed => Err(TeamError::StoreFailure),
    }
}

/// The owner a team update installs: `None` keeps the current owner. A new
/// owner other than the requester must already be a member.
pub fn new_owner_for(
    current_user: &String,
    request: &UpdateTeamRequest,
    new_owner_is_member: bool,
) -> (r: Result<Option<String>, TeamError>)
    ensures
        match request.new_owner_id {
            None => r == Ok::<Option<String>, TeamError>(None),
            Some(o) => if o@ == current_user@ {
                r == Ok::<Option<String>, TeamError>(None)
            } else if new_owner_is_member {
                r == Ok::<Option<String>, TeamError>(Some(o))
            } else {
                r == Err::<Option<String>, TeamError>(TeamError::NewOwnerNotMember)
            },
        },
{
    match &request.new_owner_id {
        None => Ok(None),
        Some(o) => {
            if *o == *current_user {
                Ok(None)
            } else if new_owner_is_member {
                Ok(Some(o.clone()))
            } else {
                Err(TeamError::NewOwnerNotMember)
            }
        },
    }
}

/// The outcome of removing a member, from whether the requester is an admin
/// and how many memberships the store deleted.
pub fn removal_outcome(requester_is_admin: bool, deleted: u64) -> (r: Result<(), TeamError>)
    ensures
        !requester_is_admin ==> r == Err::<(), TeamError>(TeamError::NotAdmin),
        requester_is_admin && deleted == 1 ==> r is Ok,
        requester_is_admin && deleted != 1 ==> r == Err::<(), TeamError>(TeamError::MemberNotFound),
{
    if !requester_is_admin {
        Err(TeamError::NotAdmin)
    } else if deleted == 1 {
        Ok(())
    } else {
        Err(TeamError::MemberNotFound)
    }
}

/// A user may list only their own invitations; both ids are compared with
/// surrounding white space removed.
pub fn check_own_invitations(current_user: &String, requested_user: &String) -> (r: Result<
    (),
    TeamError,
>)
    ensures
        r is Ok <==> trimmed(current_user@) == trimmed(requested_user@),
        r is Err ==> r == Err::<(), TeamError>(TeamError::OtherUsersInvitations),
{
    let a = trim_str(current_user.as_str()).to_string();
    let b = trim_str(requested_user.as_str()).to_string();
    if a == b {
        Ok(())
    } else {
        Err(TeamError::OtherUsersInvitations)
    }
}

/// How `invitation` shows to its invitee, given the team's name and the
/// inviter's username when the store has them.
pub fn invitation_display(
    invitation: &TeamInvitation,
    team_name: &Option<String>,
    inviter_username: &Option<String>,
) -> (r: InvitationDisplay)
    ensures
        r.invitation_id@ == invitation.invitation_id@,
        r.team_id@ == invitation.team_id@,
        r.team_name@ == match team_name {
            Some(n) => n@,
            None => UNKNOWN_TEAM@,
        },
        r.inviter_username@ == match inviter_username {
            Some(n) => n@,
            None => UNKNOWN_INVITER@,
        },
{
    InvitationDisplay {
        invitation_id: copy_string(&invitation.invitation_id),
        team_id: copy_string(&invitation.team_id),
        team_name: match team_name {
            Some(n) => copy_string(n),
            None => UNKNOWN_TEAM.to_string(),
        },
        inviter_username: match inviter_username {
            Some(n) => copy_string(n),
            None => UNKNOWN_INVITER.to_string(),
        },
    }
}

/// The member-list line of an accepted member, given the user record when the
/// store has one; without it the id stands in for the email.
pub fn accepted_member_info(user_id: &String, user: &Option<UserSummary>) -> (r: TeamMemberInfo)
    ensures
        r.user_id@ == user_id@,
        r.status@ == ACCEPTED@,
        r.invitation_id is None,
        match user {
            Some(u) => r.email@ == u.email@ && r.username == u.username,
            None => r.email@ == user_id@ && r.username is None,
        },
{
    let (email, username) = match user {
        Some(u) => (copy_string(&u.email), copy_opt(&u.username)),
        None => (copy_string(user_id), None),
    };
    TeamMemberInfo {
        user_id: copy_string(user_id),
        email,
        username,
        status: ACCEPTED.to_string(),
        invitation_id: None,
    }
}

/// The member-list line of a pending invitee, given the user it resolved to,
/// if any. A user found by object id keeps the invitation's id; one found by
/// email or username shows the user's own id; with no user, the raw invitee
/// text stands for both email and username.
pub fn pending_member_info(
    invitation: &TeamInvitation,
    user: &Option<UserSummary>,
    found_by_object_id: bool,
) -> (r: TeamMemberInfo)
    ensures
        r.status@ == PENDING@,
        r.invitation_id == Some(invitation.invitation_id),
        match user {
            Some(u) => {
                &&& r.user_id@ == if found_by_object_id {
                    invitation.invitee_id@
                } else {
                    u.id@
                }
                &&& r.email@ == u.email@
                &&& r.username == u.username
            },
            None => {
                &&& r.user_id@.len() == 0
                &&& r.email@ == invitation.invitee_id@
                &&& r.username matches Some(n) && n@ == invitation.invitee_id@
            },
        },
{
    let (user_id, email, username) = match user {
        Some(u) => (
            if found_by_object_id {
                copy_string(&invitation.invitee_id)
            } else {
                copy_string(&u.id)
            },
            copy_string(&u.email),
            copy_opt(&u.username),
        ),
        None => (
            String::new(),
            copy_string(&invitation.invitee_id),
            Some(copy_string(&invitation.invitee_id)),
        ),
    };
    TeamMemberInfo {
        user_id,
        email,
        username,
        status: PENDING.to_string(),
        invitation_id: Some(invitation.invitation_id.clone()),
    }
}

/// Opens a team for `owner_id` under a freshly minted id and the current time.
pub fn open_team(request: &CreateTeamRequest, owner_id: &String) -> (r: (Team, UserTeam))
    ensures
        r.0.team_id@.len() == 36,
        r.0.name@ == request.name@,
        r.0.owner_id@ == owner_id@,
        r.0.description == Some(request.description),
        r.0.created_at == r.1.joined_at,
        r.1.user_id@ == owner_id@,
        r.1.team_id@ == r.0.team_id@,
        r.1.role@ == ADMIN_ROLE@,
{
    let id = fresh_id();
    let now = now_millis();
    new_team(id, request, owner_id, now)
}

/// A pending invitation under a freshly minted id, sent now.
pub fn open_invitation(team_id: &String, invitee_id: String, inviter_id: &String) -> (r: TeamInvitation)
    ensures
        r.invitation_id@.len() == 36,
        r.team_id@ == team_id@,
        r.invitee_id == invitee_id,
        r.inviter_id@ == inviter_id@,
        r.status@ == PENDING@,
        r.responded_at is None,
{
    let id = fresh_id();
    let now = now_millis();
    new_invitation(id, team_id, invitee_id, inviter_id, now)
}

/// Whether the membership the store returned lets its user act on the team:
/// any membership when `admin_only` is off, an admin one when it is on.
pub fn check_membership(membership: &StoreLookup<UserTeam>, admin_only: bool) -> (r: Result<
    (),
    TeamError,
>)
    ensures
        match membership {
            StoreLookup::Found(m) => if !admin_only || m.role@ == ADMIN_ROLE@ {
                r is Ok
            } else {
                r == Err::<(), TeamError>(TeamError::NotAdmin)
            },
            StoreLookup::Absent => r == Err::<(), TeamError>(
                if admin_only {
                    TeamError::NotAdmin
                } else {
                    TeamError::NotMember
                },
            ),
            StoreLookup::Failed => r == Err::<(), TeamError>(TeamError::StoreFailure),
        },
{
    match membership {
        StoreLookup::Found(m) => {
            if !admin_only || m.role == ADMIN_ROLE.to_string() {
                Ok(())
            } else {
                Err(TeamError::NotAdmin)
            }
        },
        StoreLookup::Absent => {
            if admin_only {
                Err(TeamError::NotAdmin)
            } else {
                Err(TeamError::NotMember)
            }
        },
        StoreLookup::Failed => Err(TeamError::StoreFailure),
    }
}

} // verus!
