//! Who may call the thread and message APIs, read a thread's messages and
//! resources, write to it, and delete a message.
use vstd::prelude::*;
use crate::principal::{Principal, anonymous_bytes};
use crate::nexus::{NexusError, ThreadVisibility};
use crate::registry::opt_pview;

verus! {

/// The APIs refuse the anonymous caller.
pub fn check_caller(caller: &Principal) -> (r: Result<(), NexusError>)
    ensures
        r is Ok <==> caller@ != anonymous_bytes(),
        r matches Err(e) ==> e == NexusError::Unauthenticated,
{
    if caller.is_anonymous() {
        Err(NexusError::Unauthenticated)
    } else {
        Ok(())
    }
}

/// Whether `id` is among `ids`.
fn contains_id(ids: &Vec<u64>, id: u64) -> (r: bool)
    ensures
        r == ids@.contains(id),
{
    let mut i: usize = 0;
    while i < ids.len()
        invariant
            i <= ids.len(),
            forall|k: int| 0 <= k < i ==> ids@[k] != id,
        decreases ids.len() - i,
    {
        if ids[i] == id {
            return true;
        }
        i = i + 1;
    }
    false
}

/// Writing to a thread (adding or deleting a message) needs the caller to
/// participate in it; `my_thread_ids` are the threads the caller participates in.
pub fn check_participant(my_thread_ids: &Vec<u64>, thread_id: u64) -> (r: Result<(), NexusError>)
    ensures
        r is Ok <==> my_thread_ids@.contains(thread_id),
        r matches Err(e) ==> e == NexusError::NotParticipant(thread_id),
{
    if contains_id(my_thread_ids, thread_id) {
        Ok(())
    } else {
        Err(NexusError::NotParticipant(thread_id))
    }
}

/// Reading a thread's messages or resources needs the caller to participate
/// in it, unless the thread is public.
pub fn check_reader(my_thread_ids: &Vec<u64>, thread_id: u64, visibility: ThreadVisibility) -> (r: Result<(), NexusError>)
    ensures
        r is Ok <==> my_thread_ids@.contains(thread_id) || visibility == ThreadVisibility::Public,
        r matches Err(e) ==> e == NexusError::NotParticipant(thread_id),
{
    if contains_id(my_thread_ids, thread_id) || visibility == ThreadVisibility::Public {
        Ok(())
    } else {
        Err(NexusError::NotParticipant(thread_id))
    }
}

/// Only the latest message of a thread can be deleted; `latest` is the id of
/// the latest message of its collection, if any.
pub fn check_latest_message(message_id: u64, latest: Option<u64>) -> (r: Result<(), NexusError>)
    ensures
        r is Ok <==> message_id == (match latest {
            Some(l) => l,
            None => 0u64,
        }),
        r matches Err(e) ==> e == NexusError::OnlyLatestMessage,
{
    let l = match latest {
        Some(l) => l,
        None => 0,
    };
    if message_id != l {
        Err(NexusError::OnlyLatestMessage)
    } else {
        Ok(())
    }
}

/// Only its author can delete a message.
pub fn check_message_author(author: &Option<Principal>, user: &Principal, message_id: u64, thread_id: u64) -> (r: Result<(), NexusError>)
    ensures
        r is Ok <==> opt_pview(*author) == Some(user@),
        r matches Err(e) ==> e == NexusError::NotMessageAuthor(message_id, thread_id),
{
    match author {
        Some(a) => {
            if crate::principal::principal_eq(a, user) {
                Ok(())
            } else {
                Err(NexusError::NotMessageAuthor(message_id, thread_id))
            }
        },
        None => Err(NexusError::NotMessageAuthor(message_id, thread_id)),
    }
}

/// A reply must name a message of the thread; `reply_to` 0 is no reply, and
/// `target_exists` tells whether the collection holds message `reply_to`.
pub fn check_reply(reply_to: u64, target_exists: bool) -> (r: Result<(), NexusError>)
    ensures
        r is Ok <==> reply_to == 0 || target_exists,
        r matches Err(e) ==> e == NexusError::ReplyNotFound(reply_to),
{
    if reply_to > 0 && !target_exists {
        Err(NexusError::ReplyNotFound(reply_to))
    } else {
        Ok(())
    }
}

} // verus!
