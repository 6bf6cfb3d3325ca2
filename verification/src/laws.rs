//! The laws the gateway lives by, stated once and proved from the contracts
//! the operations carry.

use vstd::prelude::*;

use crate::error::ApiError;
use crate::gateway::privileged_outcome;
use crate::registry::{seq_contains_id, seq_ids_unique};
use crate::session::Meta;
use crate::types::DaemonState;

verus! {

/// Without a prior successful `auth` a privileged operation yields
/// `Unauthenticated`, whatever the channel's state and whatever its own
/// result would have been — so no command is ever dispatched for it.
pub proof fn lemma_unauthenticated_call_rejected<T>(channel_open: bool, ok: T)
    ensures
        privileged_outcome(false, channel_open, ok) == Err::<T, ApiError>(
            ApiError::Unauthenticated,
        ),
{
}

/// After an `auth` with the correct secret — which leaves the connection's
/// flag equal to the comparison's outcome — a privileged call on the same
/// connection is let through: with the channel up it yields the operation's
/// own result.
pub proof fn lemma_correct_secret_enables_privileged<T>(
    meta: Meta,
    provided: Seq<char>,
    secret: Seq<char>,
    ok: T,
)
    requires
        meta.is_authenticated() == (provided == secret),
        provided == secret,
    ensures
        privileged_outcome(meta.is_authenticated(), true, ok) == Ok::<T, ApiError>(ok),
{
}

/// After an `auth` with a wrong secret the connection's flag is false and a
/// privileged call still fails with `Unauthenticated`.
pub proof fn lemma_wrong_secret_keeps_gate_shut<T>(
    meta: Meta,
    provided: Seq<char>,
    secret: Seq<char>,
    channel_open: bool,
    ok: T,
)
    requires
        meta.is_authenticated() == (provided == secret),
        provided != secret,
    ensures
        !meta.is_authenticated(),
        privileged_outcome(meta.is_authenticated(), channel_open, ok) == Err::<T, ApiError>(
            ApiError::Unauthenticated,
        ),
{
}

/// When the command channel's consuming end is gone, a privileged call by an
/// authenticated connection fails with `ChannelClosed` instead of hanging.
pub proof fn lemma_closed_channel_fails_privileged<T>(ok: T)
    ensures
        privileged_outcome(true, false, ok) == Err::<T, ApiError>(ApiError::ChannelClosed),
{
}

/// Two live subscriptions of one topic never share an identifier: the
/// identifier a subscribe returns is unique among the topic's live
/// subscribers.
pub proof fn lemma_live_subscription_ids_distinct(subs: Seq<(u128, u64)>, i: int, j: int)
    requires
        seq_ids_unique(subs),
        0 <= i < subs.len(),
        0 <= j < subs.len(),
        i != j,
    ensures
        subs[i].0 != subs[j].0,
{
}

/// Once a subscription is removed, no entry of the topic carries its
/// identifier any more, so a subsequent broadcast — which delivers along the
/// topic's entries — delivers nothing to it.
pub proof fn lemma_removed_subscription_gets_nothing(
    pre: Seq<(u128, u64)>,
    post: Seq<(u128, u64)>,
    id: u128,
    i: int,
)
    requires
        seq_ids_unique(pre),
        0 <= i < pre.len(),
        pre[i].0 == id,
        post == pre.remove(i),
    ensures
        !seq_contains_id(post, id),
{
    assert forall|k: int| 0 <= k < post.len() implies post[k].0 != id by {
        if k < i {
            assert(post[k] == pre[k]);
        } else {
            assert(post[k] == pre[k + 1]);
        }
    }
}

/// A `new_state` broadcast reaches every subscriber registered at call
/// time: the delivery list a broadcast returns pairs each live entry's sink
/// with the broadcast value.
pub proof fn lemma_broadcast_reaches_registered(
    subs: Seq<(u128, u64)>,
    deliveries: Seq<(u64, DaemonState)>,
    value: DaemonState,
    k: int,
)
    requires
        deliveries.len() == subs.len(),
        forall|j: int| 0 <= j < deliveries.len() ==> deliveries[j] == (subs[j].1, value),
        0 <= k < subs.len(),
    ensures
        deliveries[k] == (subs[k].1, value),
{
}

/// A subscriber registered after one broadcast is among the entries any
/// later broadcast delivers along: it receives every subsequent value.
pub proof fn lemma_late_subscriber_receives_later_broadcasts(
    pre: Seq<(u128, u64)>,
    post: Seq<(u128, u64)>,
    id: u128,
    sink: u64,
    deliveries: Seq<(u64, DaemonState)>,
    value: DaemonState,
)
    requires
        post == pre.push((id, sink)),
        deliveries.len() == post.len(),
        forall|j: int| 0 <= j < deliveries.len() ==> deliveries[j] == (post[j].1, value),
    ensures
        deliveries[post.len() - 1] == (sink, value),
{
    assert(post[post.len() - 1] == (id, sink));
}

} // verus!
