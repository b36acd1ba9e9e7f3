use anda::access::{
    check_caller, check_latest_message, check_message_author, check_participant, check_reader,
    check_reply,
};
use anda::nexus::{
    MemberRole, NexusError, Thread, ThreadPermission, ThreadState, ThreadStatus, ThreadVisibility,
    Xid, add_thread_participants, new_thread, quit_thread, remove_thread_participants,
    require_permission, update_thread_members, validate_members, validate_participants,
};
use anda::paging::{messages_page, my_threads_page, next_messages_cursor, page_limit, sort_ids};
use anda::principal::Principal;
use anda::registry::ThreadRegistry;
use anda::thread_info::{UpdateThreadInfo, update_thread};

fn user(n: u8) -> Principal {
    Principal::from_slice(&[n, 1, 2])
}

fn thread_of(owner: &Principal) -> Thread {
    new_thread(Xid::empty(), owner, "Test Thread".to_string(), None, 100)
}

fn keys(t: &Thread) -> Vec<Vec<u8>> {
    t.participants.iter().map(|(p, _)| p.bytes.clone()).collect()
}

fn state(visibility: ThreadVisibility, status: ThreadStatus, updated_at: u64) -> ThreadState {
    ThreadState {
        visibility,
        status,
        updated_at,
        participants: 1,
        max_participants: 3,
        latest_message_by: None,
        latest_message_id: 0,
        latest_message_at: 0,
    }
}

#[test]
fn test_thread_status() {
    let owner = user(1);
    let thread = thread_of(&owner);
    assert_eq!(thread.name, "Test Thread");
    let rt = ThreadStatus::Active.to_string();
    assert_eq!(rt, "active");
    assert_eq!(thread.status, ThreadStatus::Active);
}

#[test]
fn status_and_visibility_names() {
    assert_eq!(ThreadStatus::Suspended.to_string(), "suspended");
    assert_eq!(ThreadStatus::Unavailable.to_string(), "unavailable");
    assert_eq!(ThreadVisibility::Public.to_string(), "public");
    assert_eq!(ThreadVisibility::default_value().to_string(), "private");
}

#[test]
fn new_thread_belongs_to_its_owner() {
    let owner = user(1);
    let t = thread_of(&owner);
    assert_eq!(t.controllers.len(), 1);
    assert_eq!(t.managers.len(), 1);
    assert_eq!(keys(&t), vec![owner.bytes.clone()]);
    assert_eq!(t.visibility, ThreadVisibility::Private);
    assert_eq!((t.created_at, t.updated_at), (100, 100));
}

#[test]
fn permissions_follow_roles() {
    let owner = user(1);
    let other = user(2);
    let t = thread_of(&owner);
    for p in [ThreadPermission::Read, ThreadPermission::Write, ThreadPermission::Manage, ThreadPermission::Control] {
        assert!(t.has_permission(&owner, p));
        assert!(!t.has_permission(&other, p));
    }
    assert_eq!(
        require_permission(&t, &other, ThreadPermission::Read),
        Err(NexusError::PermissionDenied(ThreadPermission::Read, 0))
    );
    let mut public = thread_of(&owner);
    public.visibility = ThreadVisibility::Public;
    assert!(public.has_permission(&other, ThreadPermission::Read));
    assert!(!public.has_permission(&other, ThreadPermission::Write));
    public.status = ThreadStatus::Suspended;
    assert!(!public.has_permission(&other, ThreadPermission::Read));
    assert!(!public.has_permission(&owner, ThreadPermission::Write));
    assert!(public.has_permission(&owner, ThreadPermission::Manage));
}

#[test]
fn members_are_deduplicated_and_bounded() {
    let v = vec![user(1), user(2), user(1)];
    let set = validate_members(&v, MemberRole::Managers).unwrap();
    assert_eq!(set.len(), 2);
    assert_eq!(validate_members(&vec![], MemberRole::Controllers).err(), Some(NexusError::ControllersEmpty));
    assert_eq!(validate_members(&vec![], MemberRole::Managers).err(), Some(NexusError::ManagersEmpty));
    let many: Vec<Principal> = (1..=6).map(user).collect();
    assert_eq!(validate_members(&many, MemberRole::Controllers).err(), Some(NexusError::ControllersTooMany));
    assert_eq!(validate_members(&many, MemberRole::Managers).err(), Some(NexusError::ManagersTooMany));
    assert_eq!(validate_participants(&vec![]).err(), Some(NexusError::ParticipantsEmpty));
    assert_eq!(validate_participants(&many).unwrap().len(), 6);
}

#[test]
fn controllers_update_needs_control() {
    let owner = user(1);
    let t = thread_of(&owner);
    let set = validate_members(&vec![user(2), user(3)], MemberRole::Managers).unwrap();
    let t = update_thread_members(t, &owner, set, MemberRole::Managers, 200).unwrap();
    assert_eq!(t.managers.len(), 2);
    assert_eq!(t.controllers.len(), 1);
    assert_eq!(t.participants.len(), 3);
    assert_eq!(t.updated_at, 200);
    let set = validate_members(&vec![user(2)], MemberRole::Controllers).unwrap();
    let r = update_thread_members(t, &user(2), set, MemberRole::Controllers, 300);
    assert_eq!(r.err(), Some(NexusError::PermissionDenied(ThreadPermission::Control, 0)));
}

#[test]
fn participants_added_and_removed() {
    let owner = user(1);
    let t = thread_of(&owner);
    let t = add_thread_participants(t, &owner, &vec![user(4), user(5), user(4)], 200).unwrap();
    assert_eq!(t.participants.len(), 3);
    assert!(t.has_permission(&user(4), ThreadPermission::Write));
    let t = remove_thread_participants(t, &owner, &vec![user(4)], 300).unwrap();
    assert_eq!(keys(&t), vec![owner.bytes.clone(), user(5).bytes]);
    assert!(!t.has_permission(&user(4), ThreadPermission::Write));
    assert!(t.has_permission(&user(5), ThreadPermission::Write));
    let r = remove_thread_participants(t, &owner, &vec![owner.copy()], 400);
    assert_eq!(r.err(), Some(NexusError::CannotRemoveControllers));
    let t = thread_of(&owner);
    let r = add_thread_participants(t, &user(9), &vec![user(4)], 200);
    assert_eq!(r.err(), Some(NexusError::PermissionDenied(ThreadPermission::Manage, 0)));
}

#[test]
fn quitting_keeps_a_controller() {
    let owner = user(1);
    let t = thread_of(&owner);
    assert_eq!(quit_thread(t, &owner, 5).err(), Some(NexusError::LastController));
    let t = thread_of(&owner);
    assert_eq!(quit_thread(t, &user(2), 5).err(), Some(NexusError::NotParticipant(0)));
    let t = thread_of(&owner);
    let set = validate_members(&vec![owner.copy(), user(2)], MemberRole::Controllers).unwrap();
    let t = update_thread_members(t, &owner, set, MemberRole::Controllers, 10).unwrap();
    let t = quit_thread(t, &owner, 20).unwrap();
    for p in [ThreadPermission::Write, ThreadPermission::Manage, ThreadPermission::Control] {
        assert!(!t.has_permission(&owner, p));
    }
    assert_eq!(t.controllers.len(), 1);
    assert_eq!(t.controllers[0].bytes, user(2).bytes);
    assert!(t.managers.is_empty());
    assert_eq!(keys(&t), vec![user(2).bytes]);
    assert_eq!(t.updated_at, 20);
}

#[test]
fn thread_info_is_validated_and_normalized() {
    let mut info = UpdateThreadInfo {
        name: Some("  My thread ".to_string()),
        language: Some("en".to_string()),
        image: Some("https://example.com/a.png".to_string()),
        tags: None,
        description: None,
        visibility: None,
    };
    assert_eq!(info.validate_and_normalize(), Ok(()));
    assert_eq!(info.name.as_deref(), Some("My thread"));
    assert_eq!(info.language.as_deref(), Some("English"));

    let mut info = UpdateThreadInfo {
        name: Some("   ".to_string()),
        language: None,
        image: None,
        tags: None,
        description: None,
        visibility: None,
    };
    assert_eq!(info.validate_and_normalize(), Err("Thread name cannot be empty".to_string()));

    let mut info = UpdateThreadInfo {
        name: Some("x".repeat(129)),
        language: None,
        image: None,
        tags: None,
        description: None,
        visibility: None,
    };
    assert_eq!(info.validate_and_normalize(), Err("Thread name is too long".to_string()));

    let mut info = UpdateThreadInfo {
        name: None,
        language: Some("xx1".to_string()),
        image: None,
        tags: None,
        description: None,
        visibility: None,
    };
    assert_eq!(
        info.validate_and_normalize(),
        Err("Invalid language code: 'xx1' is not a valid ISO 639-1 or 639-3 code.".to_string())
    );

    let mut info = UpdateThreadInfo {
        name: None,
        language: None,
        image: Some("not a url".to_string()),
        tags: None,
        description: None,
        visibility: None,
    };
    assert_eq!(
        info.validate_and_normalize(),
        Err("Thread image URL is invalid: relative URL without a base".to_string())
    );

    let mut info = UpdateThreadInfo {
        name: None,
        language: None,
        image: Some(format!("https://example.com/{}", "a".repeat(250))),
        tags: None,
        description: None,
        visibility: None,
    };
    assert_eq!(info.validate_and_normalize(), Err("Thread image URL is too long".to_string()));
}

#[test]
fn update_thread_applies_the_set_fields() {
    let owner = user(1);
    let t = thread_of(&owner);
    let input = UpdateThreadInfo {
        name: Some("New".to_string()),
        language: None,
        image: None,
        tags: Some(vec!["a".to_string()]),
        description: None,
        visibility: Some(ThreadVisibility::Public),
    };
    let t = update_thread(t, &owner, input, 9).unwrap();
    assert_eq!(t.name, "New");
    assert_eq!(t.tags, vec!["a".to_string()]);
    assert_eq!(t.visibility, ThreadVisibility::Public);
    assert_eq!(t.updated_at, 9);
    let input = UpdateThreadInfo {
        name: None,
        language: None,
        image: None,
        tags: None,
        description: None,
        visibility: None,
    };
    let r = update_thread(t, &user(3), input, 10);
    assert_eq!(r.err(), Some(NexusError::PermissionDenied(ThreadPermission::Manage, 0)));
}

#[test]
fn registry_lists_public_threads_newest_first() {
    let mut reg = ThreadRegistry::new();
    reg.insert(1, state(ThreadVisibility::Public, ThreadStatus::Active, 10));
    reg.insert(2, state(ThreadVisibility::Private, ThreadStatus::Active, 50));
    reg.insert(3, state(ThreadVisibility::Protected, ThreadStatus::Active, 30));
    reg.insert(4, state(ThreadVisibility::Public, ThreadStatus::Suspended, 40));
    reg.insert(5, state(ThreadVisibility::Public, ThreadStatus::Active, 30));
    assert_eq!(reg.public_thread_ids(10), vec![3, 5, 1]);
    assert_eq!(reg.public_thread_ids(2), vec![3, 5]);
    assert_eq!(reg.public_thread_ids(0), Vec::<u64>::new());
}

#[test]
fn registry_checks() {
    let mut reg = ThreadRegistry::new();
    reg.insert(1, state(ThreadVisibility::Public, ThreadStatus::Active, 10));
    reg.insert(2, state(ThreadVisibility::Private, ThreadStatus::Unavailable, 10));
    assert_eq!(reg.check_thread_state(1), Ok(ThreadVisibility::Public));
    assert_eq!(reg.check_thread_state(2), Err(NexusError::ThreadNotActive(2)));
    assert_eq!(reg.check_thread_state(7), Err(NexusError::ThreadNotFound(7)));
    assert_eq!(reg.check_available(2), Err(NexusError::ThreadUnavailable(2)));
    assert_eq!(reg.check_available(1), Ok(()));
    assert_eq!(reg.check_capacity(1, 2), Ok(()));
    assert_eq!(reg.check_capacity(1, 3), Err(NexusError::ExceedMaxParticipants(3)));
    assert_eq!(reg.check_capacity(2, 0), Err(NexusError::ThreadNotActive(2)));
    assert_eq!(reg.latest_message_id(1), 0);
    reg.record_latest_message(1, Some(user(1)), 42, 99);
    assert_eq!(reg.latest_message_id(1), 42);
    reg.remove(1);
    assert_eq!(reg.check_available(1), Err(NexusError::ThreadNotFound(1)));
}

#[test]
fn pages_of_ids() {
    assert_eq!(page_limit(None), 100);
    assert_eq!(page_limit(Some(5)), 5);
    assert_eq!(page_limit(Some(5000)), 1000);
    assert_eq!(sort_ids(&vec![5, 1, 3]), vec![1, 3, 5]);
    let (page, next) = my_threads_page(&vec![9, 2, 7, 4], 0, 2);
    assert_eq!(page, vec![9, 2]);
    assert_eq!(next, Some(2));
    let (page, next) = my_threads_page(&vec![9, 2, 7, 4], 3, 5);
    assert_eq!(page, vec![4, 7, 9]);
    assert_eq!(next, None);
    assert_eq!(messages_page(&vec![1, 2, 3, 4, 5], 0, 2), vec![4, 5]);
    assert_eq!(messages_page(&vec![1, 2, 3, 4, 5], 4, 2), vec![2, 3]);
    assert_eq!(messages_page(&vec![1, 2, 3, 4, 5], 2, 10), vec![1]);
    assert_eq!(next_messages_cursor(&vec![2, 3], 2), Some(2));
    assert_eq!(next_messages_cursor(&vec![2], 2), None);
}

#[test]
fn access_checks() {
    assert_eq!(check_caller(&Principal::anonymous()), Err(NexusError::Unauthenticated));
    assert_eq!(check_caller(&user(1)), Ok(()));
    assert_eq!(check_participant(&vec![1, 2], 2), Ok(()));
    assert_eq!(check_participant(&vec![1, 2], 3), Err(NexusError::NotParticipant(3)));
    assert_eq!(check_reader(&vec![], 3, ThreadVisibility::Public), Ok(()));
    assert_eq!(check_reader(&vec![], 3, ThreadVisibility::Protected), Err(NexusError::NotParticipant(3)));
    assert_eq!(check_latest_message(5, Some(5)), Ok(()));
    assert_eq!(check_latest_message(4, Some(5)), Err(NexusError::OnlyLatestMessage));
    assert_eq!(check_latest_message(0, None), Ok(()));
    assert_eq!(check_message_author(&Some(user(1)), &user(1), 5, 7), Ok(()));
    assert_eq!(check_message_author(&Some(user(1)), &user(2), 5, 7), Err(NexusError::NotMessageAuthor(5, 7)));
    assert_eq!(check_message_author(&None, &user(2), 5, 7), Err(NexusError::NotMessageAuthor(5, 7)));
    assert_eq!(check_reply(0, false), Ok(()));
    assert_eq!(check_reply(3, false), Err(NexusError::ReplyNotFound(3)));
    assert_eq!(check_reply(3, true), Ok(()));
}

#[test]
fn pages_continue_where_they_ended() {
    let ids = vec![1u64, 2, 3, 4, 5];
    let (p1, c1) = my_threads_page(&ids, 0, 2);
    assert_eq!((p1, c1), (vec![1, 2], Some(2)));
    let (p2, c2) = my_threads_page(&ids, 2, 2);
    assert_eq!((p2, c2), (vec![3, 4], Some(4)));
    let (p3, c3) = my_threads_page(&ids, 4, 2);
    assert_eq!((p3, c3), (vec![5], None));

    let m1 = messages_page(&ids, 0, 2);
    assert_eq!(m1, vec![4, 5]);
    let c = next_messages_cursor(&m1, 2).unwrap();
    let m2 = messages_page(&ids, c, 2);
    assert_eq!(m2, vec![2, 3]);
    let c = next_messages_cursor(&m2, 2).unwrap();
    let m3 = messages_page(&ids, c, 2);
    assert_eq!(m3, vec![1]);
    assert_eq!(next_messages_cursor(&m3, 2), None);
}

#[test]
fn nexus_error_messages() {
    assert_eq!(NexusError::ThreadNotFound(7).message("u"), "Thread 7 not found");
    assert_eq!(NexusError::Unauthenticated.message("u"), "unauthenticated");
    assert_eq!(NexusError::ExceedMaxParticipants(100).message("u"), "Exceed max participants limit: 100");
    assert_eq!(
        NexusError::PermissionDenied(ThreadPermission::Manage, 3).message("aaaaa-aa"),
        "User aaaaa-aa does not have permission to manage thread 3"
    );
    assert_eq!(
        NexusError::PermissionDenied(ThreadPermission::Read, 3).message("aaaaa-aa"),
        "User aaaaa-aa does not have permission to access thread 3"
    );
    assert_eq!(NexusError::NotParticipant(9).message("bob"), "User bob is not a participant of thread 9");
    assert_eq!(
        NexusError::NotMessageAuthor(5, 9).message("bob"),
        "User bob does not have permission to delete message 5 in thread 9"
    );
    assert_eq!(NexusError::ReplyNotFound(4).message("bob"), "Reply to message 4 not found");
    assert_eq!(NexusError::LastController.message("bob"), "Cannot quit thread as the last controller");
}
