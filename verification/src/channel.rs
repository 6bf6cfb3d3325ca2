//! The command bridge: commands for the tunnel service's serialized control
//! loop, and the channel that carries them there.

use vstd::prelude::*;

use crate::error::ApiError;
use crate::types::{AccountToken, RelayEndpoint, TargetState};

verus! {

/// Handle of a delivery slot: a single-use, single-value cell the tunnel
/// service writes the result of one command into exactly once. The gateway
/// mints one per command that expects a reply; the transport layer pairs the
/// handle with the caller's pending call.
pub type SlotId = u64;

/// A command executed inside the tunnel service's serialized control loop.
/// Every variant that expects a reply carries the delivery slot it is to be
/// answered through.
#[derive(Clone, PartialEq, Eq, Debug)]
pub enum TunnelCommand {
    /// Change the target state.
    SetTargetState(TargetState),
    /// Request the current daemon state.
    GetState(SlotId),
    /// Request the metadata of an account.
    GetAccountData(SlotId, AccountToken),
    /// Set which account token to use for subsequent connection attempts.
    SetAccount(SlotId, Option<AccountToken>),
    /// Request the account token currently in use.
    GetAccount(SlotId),
    /// Set a custom relay, or revert to the default relay list.
    SetCustomRelay(SlotId, Option<RelayEndpoint>),
}

/// The channel into the tunnel service: the commands sent and not yet
/// consumed, whether the consuming end is still there, and the counter the
/// delivery-slot handles are minted from.
///
/// Sending never retries and never blocks: when the consuming end is gone
/// the send fails at once with `ChannelClosed`, and the channel is left
/// unchanged.
pub struct CommandChannel {
    queue: Vec<TunnelCommand>,
    open: bool,
    next_slot: u64,
}

impl CommandChannel {
    /// The commands sent and not yet consumed, oldest first.
    pub closed spec fn queue(&self) -> Seq<TunnelCommand> {
        self.queue@
    }

    /// Whether the consuming end is still there.
    pub closed spec fn is_open(&self) -> bool {
        self.open
    }

    /// The handle the next delivery slot will get.
    pub closed spec fn next_slot(&self) -> u64 {
        self.next_slot
    }

    /// A fresh, open, empty channel.
    pub fn new() -> (ch: CommandChannel)
        ensures
            ch.queue() == Seq::<TunnelCommand>::empty(),
            ch.is_open(),
            ch.next_slot() == 0,
    {
        CommandChannel { queue: Vec::new(), open: true, next_slot: 0 }
    }

    /// Whether the consuming end is still there.
    pub fn open(&self) -> (open: bool)
        ensures
            open == self.is_open(),
    {
        self.open
    }

    /// Mints the handle of a fresh delivery slot.
    pub fn mint_slot(&mut self) -> (slot: SlotId)
        ensures
            slot == old(self).next_slot(),
            final(self).next_slot() == u64_wrapping_increment(old(self).next_slot()),
            final(self).queue() == old(self).queue(),
            final(self).is_open() == old(self).is_open(),
    {
        let slot = self.next_slot;
        self.next_slot = self.next_slot.wrapping_add(1);
        slot
    }

    /// Sends `command` towards the tunnel service. Fails immediately with
    /// `ChannelClosed`, leaving the channel unchanged, when the consuming
    /// end is gone; delivery is at-most-once and never retried.
    pub fn send(&mut self, command: TunnelCommand) -> (r: Result<(), ApiError>)
        ensures
            final(self).is_open() == old(self).is_open(),
            final(self).next_slot() == old(self).next_slot(),
            old(self).is_open() ==> r == Ok::<(), ApiError>(())
                && final(self).queue() == old(self).queue().push(command),
            !old(self).is_open() ==> r == Err::<(), ApiError>(ApiError::ChannelClosed)
                && final(self).queue() == old(self).queue(),
    {
        if self.open {
            self.queue.push(command);
            Ok(())
        } else {
            Err(ApiError::ChannelClosed)
        }
    }

    /// Models the tunnel service going away: after this, every send fails.
    pub fn close(&mut self)
        ensures
            !final(self).is_open(),
            final(self).queue() == old(self).queue(),
            final(self).next_slot() == old(self).next_slot(),
    {
        self.open = false;
    }

    /// The tunnel service consuming the oldest pending command, if any.
    pub fn pop_command(&mut self) -> (r: Option<TunnelCommand>)
        ensures
            final(self).is_open() == old(self).is_open(),
            final(self).next_slot() == old(self).next_slot(),
            old(self).queue().len() == 0 ==> r is None
                && final(self).queue() == old(self).queue(),
            old(self).queue().len() > 0 ==> r == Some(old(self).queue()[0])
                && final(self).queue() == old(self).queue().drop_first(),
    {
        if self.queue.len() == 0 {
            None
        } else {
            let command = self.queue.remove(0);
            proof {
                assert(self.queue@ =~= old(self).queue().drop_first());
            }
            Some(command)
        }
    }
}

/// The successor of a slot counter, wrapping at the top of `u64`.
pub open spec fn u64_wrapping_increment(n: u64) -> u64 {
    if n == u64::MAX {
        0
    } else {
        (n + 1) as u64
    }
}

} // verus!
