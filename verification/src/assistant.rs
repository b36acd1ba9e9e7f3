//! The decisions of the assistant agent around a conversation: which of the
//! user's earlier conversations fit into the prompt, and where a conversation
//! stands after each round of completion.
use vstd::prelude::*;
use crate::management::ManagementError;
use crate::principal::{Principal, anonymous_bytes};

verus! {

/// Where a conversation with the assistant stands.
#[derive(Debug, PartialEq, Eq, Structural)]
pub enum ConversationStatus {
    Submitted,
    Working,
    Completed,
    Canceled,
    Failed,
}

/// `a - b`, or 0 where `b` is larger.
pub open spec fn saturating_sub(a: int, b: int) -> int {
    if a > b {
        a - b
    } else {
        0
    }
}

/// The size left of the history of `total` bytes once the first `k`
/// conversations, of the given sizes, are left out.
pub open spec fn size_left(total: int, sizes: Seq<usize>, k: int) -> int
    decreases k,
{
    if k <= 0 {
        total
    } else {
        saturating_sub(size_left(total, sizes, k - 1), sizes[k - 1] as int)
    }
}

/// How many of the oldest conversations to leave out of the history: the
/// fewest that bring its size (`total` bytes, `sizes` those of each
/// conversation, oldest first) to at most `max`, or all of them.
pub fn history_cut(total: usize, sizes: &Vec<usize>, max: usize) -> (k: usize)
    ensures
        k <= sizes@.len(),
        size_left(total as int, sizes@, k as int) <= max || k == sizes@.len(),
        forall|j: int| 0 <= j < k ==> size_left(total as int, sizes@, j) > max,
{
    let mut left = total;
    let mut k: usize = 0;
    while left > max && k < sizes.len()
        invariant
            k <= sizes@.len(),
            left as int == size_left(total as int, sizes@, k as int),
            forall|j: int| 0 <= j < k ==> size_left(total as int, sizes@, j) > max,
        decreases sizes@.len() - k,
    {
        left = left.saturating_sub(sizes[k]);
        k = k + 1;
    }
    k
}

/// The status of a conversation after a round of completion: completed when
/// the completion is done, failed when the round failed, working otherwise;
/// a conversation that was canceled meanwhile (`canceled`) and is not
/// finished stays canceled.
pub open spec fn round_status_spec(done: bool, failed: bool, canceled: bool) -> ConversationStatus {
    let s = if done {
        ConversationStatus::Completed
    } else if failed {
        ConversationStatus::Failed
    } else {
        ConversationStatus::Working
    };
    if canceled && (s == ConversationStatus::Submitted || s == ConversationStatus::Working) {
        ConversationStatus::Canceled
    } else {
        s
    }
}

/// The status of a conversation after a round of completion, and whether
/// the conversation stops there (when it is canceled or failed).
pub fn round_status(done: bool, failed: bool, canceled: bool) -> (r: (ConversationStatus, bool))
    ensures
        r.0 == round_status_spec(done, failed, canceled),
        r.1 == (r.0 == ConversationStatus::Canceled || r.0 == ConversationStatus::Failed),
{
    let s = if done {
        ConversationStatus::Completed
    } else if failed {
        ConversationStatus::Failed
    } else {
        ConversationStatus::Working
    };
    let s = match s {
        ConversationStatus::Submitted | ConversationStatus::Working => {
            if canceled {
                ConversationStatus::Canceled
            } else {
                s
            }
        },
        _ => s,
    };
    let stop = match s {
        ConversationStatus::Canceled | ConversationStatus::Failed => true,
        _ => false,
    };
    (s, stop)
}

/// The hour a conversation falls in, from its creation time in milliseconds.
pub fn conversation_period(created_at_ms: u64) -> (p: u64)
    ensures
        p == created_at_ms / 3600 / 1000,
{
    created_at_ms / 3600 / 1000
}

/// The assistant refuses the anonymous caller ("anonymous caller not allowed").
pub fn check_assistant_caller(caller: &Principal) -> (r: Result<(), ManagementError>)
    ensures
        r is Ok <==> caller@ != anonymous_bytes(),
        r is Err ==> r == Err::<(), ManagementError>(ManagementError::AnonymousNotAllowed),
{
    if caller.is_anonymous() {
        Err(ManagementError::AnonymousNotAllowed)
    } else {
        Ok(())
    }
}

/// Why a round of completion could not be recorded.
#[derive(Debug, PartialEq, Eq, Structural)]
pub enum RoundError {
    /// "No response message in the first round of completion".
    NoFirstResponse,
}

/// Each of the messages with the same time.
pub open spec fn stamped<T>(ms: Seq<T>, at: u64) -> Seq<(T, u64)> {
    ms.map_values(|m: T| (m, at))
}

/// The messages of a conversation after a round of completion, each with
/// its time. After the first round the full history of the completion
/// replaces the pending prompt: all but its last message at the
/// conversation's creation, the last one (the response) at `now_ms`. After a
/// later round, the part of the history past the messages already kept is
/// added at `now_ms`. A failure message, where there is one, follows at
/// `now_ms`.
pub open spec fn round_messages_spec<T>(
    stored: Seq<(T, u64)>,
    history: Seq<T>,
    first_round: bool,
    created_at: u64,
    now_ms: u64,
    failure: Option<T>,
) -> Seq<(T, u64)> {
    let base = if first_round {
        stamped(history.drop_last(), created_at) + seq![(history.last(), now_ms)]
    } else {
        stored + stamped(history.skip(stored.len() as int), now_ms)
    };
    match failure {
        Some(f) => base.push((f, now_ms)),
        None => base,
    }
}

/// Records a round of completion in the conversation's messages (see
/// `round_messages_spec`); a first round without any message fails, and
/// nothing changes.
pub fn record_round<T>(
    stored: &mut Vec<(T, u64)>,
    history: Vec<T>,
    first_round: bool,
    created_at: u64,
    now_ms: u64,
    failure: Option<T>,
) -> (r: Result<(), RoundError>)
    requires
        !first_round ==> old(stored)@.len() <= history@.len(),
    ensures
        r is Err <==> first_round && history@.len() == 0,
        r is Err ==> r == Err::<(), RoundError>(RoundError::NoFirstResponse) && final(stored)@ == old(stored)@,
        r is Ok ==> final(stored)@ == round_messages_spec(
            old(stored)@,
            history@,
            first_round,
            created_at,
            now_ms,
            failure,
        ),
{
    let ghost old_stored = stored@;
    let ghost h = history@;
    if first_round {
        if history.len() == 0 {
            return Err(RoundError::NoFirstResponse);
        }
        let mut fresh: Vec<(T, u64)> = Vec::new();
        let n = history.len();
        let mut k: usize = 0;
        for m in it: history.into_iter()
            invariant
                it.seq() == h,
                n == h.len(),
                n > 0,
                k == it.index(),
                fresh@.len() == k,
                forall|j: int| #![trigger fresh@[j]] 0 <= j < k ==> fresh@[j] == (h[j], if j == n - 1 {
                    now_ms
                } else {
                    created_at
                }),
        {
            let at = if k + 1 == n {
                now_ms
            } else {
                created_at
            };
            fresh.push((m, at));
            k = k + 1;
        }
        match failure {
            Some(f) => fresh.push((f, now_ms)),
            None => {},
        }
        *stored = fresh;
        proof {
            let base = stamped(h.drop_last(), created_at) + seq![(h.last(), now_ms)];
            assert(base.len() == n);
            assert forall|j: int| 0 <= j < n implies #[trigger] base[j] == (h[j], if j == n - 1 {
                now_ms
            } else {
                created_at
            }) by {
                if j < n - 1 {
                    assert(base[j] == stamped(h.drop_last(), created_at)[j]);
                }
            }
            assert(stored@ =~= round_messages_spec(old_stored, h, first_round, created_at, now_ms, failure));
        }
    } else {
        let skip = stored.len();
        let hl = history.len();
        let mut k: usize = 0;
        for m in it: history.into_iter()
            invariant
                it.seq() == h,
                skip == old_stored.len(),
                skip <= h.len(),
                k == it.index(),
                k <= h.len(),
                hl == h.len(),
                stored@ == old_stored + stamped(h.skip(skip as int).take(if k >= skip { (k - skip) as int } else { 0 }), now_ms),
        {
            if k >= skip {
                proof {
                    assert(h.skip(skip as int).take((k + 1 - skip) as int) =~= h.skip(skip as int).take((k - skip) as int).push(m));
                }
                stored.push((m, now_ms));
                proof {
                    assert(stamped(h.skip(skip as int).take((k + 1 - skip) as int), now_ms) =~= stamped(
                        h.skip(skip as int).take((k - skip) as int),
                        now_ms,
                    ).push((m, now_ms)));
                }
            }
            k = k + 1;
        }
        proof {
            assert(h.skip(skip as int).take((h.len() - skip) as int) =~= h.skip(skip as int));
        }
        match failure {
            Some(f) => stored.push((f, now_ms)),
            None => {},
        }
        proof {
            assert(stored@ =~= round_messages_spec(old_stored, h, first_round, created_at, now_ms, failure));
        }
    }
    Ok(())
}

} // verus!
