use chat_delivery::auth::{authenticate, bearer_token, user_id_from_query, AuthOutcome, Claims};
use chat_delivery::config::{Config, ConfigError};
use chat_delivery::conversation::{
    check_removal, RemovalError, contains_member, new_conversation, open_conversation, Conversation, ConversationError,
    CreateChatRequest,
};
use chat_delivery::dispatch::StoreLookup;
use chat_delivery::teams::{
    accepted_member_info, accepted_membership, check_invite, check_own_invitations, check_owner,
    check_response, invitation_display, new_invitation, new_owner_for, new_team,
    pending_member_info, removal_outcome, CreateTeamRequest, Team, TeamError, TeamInvitation,
    UpdateTeamRequest, UserSummary, UserTeamRole,
};

fn s(x: &str) -> String {
    x.to_string()
}

fn request(participants: &[&str], name: Option<&str>) -> CreateChatRequest {
    CreateChatRequest {
        team_id: s("t1"),
        participants: participants.iter().map(|p| s(p)).collect(),
        group_name: name.map(s),
        message: s("Chat initiated."),
    }
}

#[test]
fn direct_conversation_has_no_group_name() {
    let c = new_conversation(s("c1"), &request(&["u1", "u2"], Some("x")), 42).ok().unwrap();
    assert_eq!(c.id_chat, "c1");
    assert!(!c.is_group);
    assert_eq!(c.group_name, None);
    assert_eq!(c.created_at, 42);
    assert_eq!(c.last_message_at, 42);
}

#[test]
fn group_conversation_names() {
    let c = new_conversation(s("g"), &request(&["a", "b", "c"], Some("Team")), 1).ok().unwrap();
    assert!(c.is_group);
    assert_eq!(c.group_name, Some(s("Team")));
    let c = new_conversation(s("g"), &request(&["a", "b", "c"], Some("   ")), 1).ok().unwrap();
    assert_eq!(c.group_name, Some(s("Unnamed Group")));
    let c = new_conversation(s("g"), &request(&["a", "b", "c"], None), 1).ok().unwrap();
    assert_eq!(c.group_name, Some(s("Unnamed Group")));
}

#[test]
fn conversation_participants_must_be_present_and_distinct() {
    assert!(matches!(
        new_conversation(s("c"), &request(&[], None), 1),
        Err(ConversationError::NoParticipants)
    ));
    assert!(matches!(
        new_conversation(s("c"), &request(&["a", "b", "a"], None), 1),
        Err(ConversationError::DuplicateParticipant)
    ));
    let c = open_conversation(&request(&["a", "b"], None)).ok().unwrap();
    assert_eq!(c.id_chat.len(), 36);
}

#[test]
fn last_activity_only_moves_forward() {
    let mut c: Conversation = new_conversation(s("c"), &request(&["a", "b"], None), 100).ok().unwrap();
    c.record_activity(50);
    assert_eq!(c.last_message_at, 100);
    c.record_activity(150);
    assert_eq!(c.last_message_at, 150);
    assert!(c.is_participant(&s("a")));
    assert!(!c.is_participant(&s("z")));
    assert!(contains_member(&c.participants, &s("b")));
}

#[test]
fn upgrade_query_names_the_user() {
    assert_eq!(user_id_from_query(&s("userId=u1")), "u1");
    assert_eq!(user_id_from_query(&s("x=1&userId=u2&y=3")), "u2");
    assert_eq!(user_id_from_query(&s("userId=a&userId=b")), "b");
    assert_eq!(user_id_from_query(&s("")), "Anonymous");
    assert_eq!(user_id_from_query(&s("user=u1")), "Anonymous");
    assert_eq!(user_id_from_query(&s("userId=")), "");
}

#[test]
fn bearer_header_gives_its_token() {
    assert_eq!(bearer_token(&s("Bearer abc")), Some(s("abc")));
    assert_eq!(bearer_token(&s("Bearer   abc  ")), Some(s("abc")));
    assert_eq!(bearer_token(&s("Bearer Bearer t")), Some(s("t")));
    assert_eq!(bearer_token(&s("Basic abc")), None);
    assert_eq!(bearer_token(&s("Bearer")), None);
}

#[test]
fn authentication_outcomes() {
    assert!(matches!(authenticate(&None, &s("k")), AuthOutcome::Anonymous));
    assert!(matches!(authenticate(&Some(s("Basic x")), &s("k")), AuthOutcome::Anonymous));
    assert!(matches!(authenticate(&Some(s("Bearer not-a-token")), &s("k")), AuthOutcome::Rejected));
}

#[test]
fn claims_last_a_day() {
    let c = Claims::for_user(&s("u1"), 1_000);
    assert_eq!(c.sub, "u1");
    assert_eq!(c.exp, 1_000 + 86_400);
}

#[test]
fn config_defaults_and_requirements() {
    let c = Config::resolve(Some(s("mongodb://x")), None, Some(s("k")), None, None, Some(s("aws")), None)
        .ok()
        .unwrap();
    assert_eq!(c.database_name, "chat_db");
    assert_eq!(c.ai_local_endpoint, "http://localhost:9000");
    assert!(c.ai_use_local);
    let c = Config::resolve(
        Some(s("m")),
        Some(s("db")),
        Some(s("k")),
        Some(s("t")),
        Some(s("local")),
        Some(s("aws")),
        Some(s("false")),
    )
    .ok()
    .unwrap();
    assert_eq!(c.database_name, "db");
    assert_eq!(c.default_team_id, Some(s("t")));
    assert!(!c.ai_use_local);
    let c = Config::resolve(Some(s("m")), None, Some(s("k")), None, None, Some(s("aws")), Some(s("nope")))
        .ok()
        .unwrap();
    assert!(c.ai_use_local);
    assert!(matches!(
        Config::resolve(None, None, Some(s("k")), None, None, Some(s("a")), None),
        Err(ConfigError::MissingMongoUri)
    ));
    assert!(matches!(
        Config::resolve(Some(s("m")), None, None, None, None, Some(s("a")), None),
        Err(ConfigError::MissingJwtSecret)
    ));
    assert!(matches!(
        Config::resolve(Some(s("m")), None, Some(s("k")), None, None, None, None),
        Err(ConfigError::MissingAiAwsEndpoint)
    ));
}

fn invitation(invitee: &str, status: &str) -> TeamInvitation {
    TeamInvitation {
        invitation_id: s("i1"),
        team_id: s("t1"),
        invitee_id: s(invitee),
        inviter_id: s("boss"),
        status: s(status),
        sent_at: 1,
        responded_at: None,
    }
}

#[test]
fn team_creation_makes_the_owner_admin() {
    let req = CreateTeamRequest { name: s("Core"), description: s("d") };
    let (team, membership) = new_team(s("t1"), &req, &s("u1"), 5);
    assert_eq!(team.owner_id, "u1");
    assert_eq!(team.description, Some(s("d")));
    assert_eq!(membership.role, "admin");
    assert_eq!(membership.team_id, "t1");
}

#[test]
fn invite_checks_in_order() {
    assert_eq!(check_invite(false, Some(s("u")), false, false), Err(TeamError::NotAdmin));
    assert_eq!(check_invite(true, None, false, false), Err(TeamError::InviteeNotFound));
    assert_eq!(check_invite(true, Some(s("u")), true, true), Err(TeamError::AlreadyMember));
    assert_eq!(check_invite(true, Some(s("u")), false, true), Err(TeamError::AlreadyInvited));
    assert_eq!(check_invite(true, Some(s("u")), false, false), Ok(s("u")));
    let inv = new_invitation(s("i9"), &s("t1"), s("u"), &s("boss"), 3);
    assert_eq!(inv.status, "pending");
    assert_eq!(inv.responded_at, None);
}

#[test]
fn answering_an_invitation() {
    assert_eq!(check_response(&s("u"), &StoreLookup::Found(invitation("u", "pending"))), Ok(()));
    assert_eq!(
        check_response(&s("v"), &StoreLookup::Found(invitation("u", "pending"))),
        Err(TeamError::NotInvitee)
    );
    assert_eq!(
        check_response(&s("u"), &StoreLookup::Found(invitation("u", "accepted"))),
        Err(TeamError::InvitationNotPending)
    );
    assert_eq!(check_response(&s("u"), &StoreLookup::Absent), Err(TeamError::InvitationNotFound));
    assert_eq!(TeamError::InvitationNotFound.status_code(), 404);
    assert_eq!(accepted_membership(&s("u"), &s("t1"), 2).role, "member");
}

#[test]
fn team_owner_rules() {
    let team = Team { team_id: s("t1"), name: s("n"), owner_id: s("o"), description: None, created_at: 0 };
    assert_eq!(check_owner(&s("o"), &StoreLookup::Found(team)), Ok(()));
    let team = Team { team_id: s("t1"), name: s("n"), owner_id: s("o"), description: None, created_at: 0 };
    assert_eq!(check_owner(&s("x"), &StoreLookup::Found(team)), Err(TeamError::NotOwner));
    assert_eq!(check_owner(&s("x"), &StoreLookup::Absent), Err(TeamError::TeamNotFound));
    let req = UpdateTeamRequest { name: s("n"), new_owner_id: Some(s("p")) };
    assert_eq!(new_owner_for(&s("o"), &req, true), Ok(Some(s("p"))));
    assert_eq!(new_owner_for(&s("o"), &req, false), Err(TeamError::NewOwnerNotMember));
    assert_eq!(new_owner_for(&s("p"), &req, false), Ok(None));
    assert_eq!(removal_outcome(true, 1), Ok(()));
    assert_eq!(removal_outcome(true, 0), Err(TeamError::MemberNotFound));
    assert_eq!(removal_outcome(false, 1), Err(TeamError::NotAdmin));
}

#[test]
fn invitation_listings() {
    assert_eq!(check_own_invitations(&s(" u1 "), &s("u1")), Ok(()));
    assert_eq!(check_own_invitations(&s("u1"), &s("u2")), Err(TeamError::OtherUsersInvitations));
    let d = invitation_display(&invitation("u", "pending"), &None, &Some(s("boss")));
    assert_eq!(d.team_name, "Unknown Team");
    assert_eq!(d.inviter_username, "boss");
    let user = UserSummary { id: s("abc"), email: s("a@x"), username: Some(s("al")) };
    let m = accepted_member_info(&s("abc"), &Some(user));
    assert_eq!(m.email, "a@x");
    assert_eq!(m.status, "accepted");
    let m = accepted_member_info(&s("abc"), &None);
    assert_eq!(m.email, "abc");
    let m = pending_member_info(&invitation("bob@x", "pending"), &None, false);
    assert_eq!(m.user_id, "");
    assert_eq!(m.username, Some(s("bob@x")));
    assert_eq!(m.invitation_id, Some(s("i1")));
    let user = UserSummary { id: s("u7"), email: s("bob@x"), username: None };
    let m = pending_member_info(&invitation("bob@x", "pending"), &Some(user), false);
    assert_eq!(m.user_id, "u7");
}

#[test]
fn roles_are_stored_as_text() {
    assert_eq!(UserTeamRole::Admin.as_text(), "admin");
    assert_eq!(UserTeamRole::Member.as_text(), "member");
}

#[test]
fn deleting_a_conversation_needs_a_participant() {
    let c = new_conversation(s("c1"), &request(&["u1", "u2"], None), 1).ok().unwrap();
    let found = StoreLookup::Found(c);
    assert_eq!(check_removal(&Some(s("u1")), &found), Ok(()));
    assert_eq!(check_removal(&Some(s("u3")), &found), Err(RemovalError::NotParticipant));
    assert_eq!(check_removal(&None, &found), Err(RemovalError::Unauthenticated));
    assert_eq!(check_removal(&Some(s("u1")), &StoreLookup::Absent), Err(RemovalError::ConversationAbsent));
    assert_eq!(check_removal(&Some(s("u1")), &StoreLookup::Failed), Err(RemovalError::StoreUnavailable));
    assert_eq!(RemovalError::NotParticipant.status_code(), 401);
    assert_eq!(RemovalError::ConversationAbsent.status_code(), 404);
    assert_eq!(RemovalError::StoreUnavailable.status_code(), 500);
}

#[test]
fn opened_conversation_keeps_the_naming_rules() {
    let c = open_conversation(&request(&["a", "b", "c"], Some(" "))).ok().unwrap();
    assert_eq!(c.group_name, Some(s("Unnamed Group")));
    assert_eq!(c.created_at, c.last_message_at);
    let c = open_conversation(&request(&["a", "b"], Some("x"))).ok().unwrap();
    assert_eq!(c.group_name, None);
}
