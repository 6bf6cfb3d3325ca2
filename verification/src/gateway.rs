//! The management gateway: the operations exposed to control clients, each
//! paired with its authentication requirement, the command it dispatches,
//! and the translation of its outcome.

use vstd::prelude::*;

use crate::channel::{CommandChannel, SlotId, TunnelCommand, u64_wrapping_increment};
use crate::error::{map_rpc_error, spec_map_rpc_error, ApiError, UpstreamError};
use crate::registry::{seq_contains_id, SubscriberMap};
use crate::session::Meta;
use crate::types::{
    AccountData, AccountToken, CountryCode, DaemonState, IpAddress, Location, RelayEndpoint,
    TargetState,
};

verus! {

/// The live subscriber sets of the two event topics, one independent map
/// per topic.
pub struct ActiveSubscriptions {
    /// Subscribers of the `new_state` topic.
    pub new_state_subscriptions: SubscriberMap,
    /// Subscribers of the `error` topic.
    pub error_subscriptions: SubscriberMap,
}

impl ActiveSubscriptions {
    /// Both topics' identifier sets are well formed.
    pub open spec fn wf(&self) -> bool {
        self.new_state_subscriptions.wf() && self.error_subscriptions.wf()
    }

    /// No subscribers at all.
    pub fn new() -> (subs: ActiveSubscriptions)
        ensures
            subs.wf(),
            subs.new_state_subscriptions@ == Seq::<(u128, u64)>::empty(),
            subs.error_subscriptions@ == Seq::<(u128, u64)>::empty(),
    {
        ActiveSubscriptions {
            new_state_subscriptions: SubscriberMap::new(),
            error_subscriptions: SubscriberMap::new(),
        }
    }
}

/// A handle for broadcasting events to the subscribers of the management
/// interface. Broadcasting works from a snapshot of the subscriber set taken
/// at call time, so delivery itself never holds the registry: the methods
/// return the deliveries to perform, one per subscriber registered when the
/// call was made, and the transport layer pushes them out independently.
/// A failed push to one sink affects neither the other deliveries nor the
/// registry.
pub struct EventBroadcaster {
    /// The subscriber sets the broadcasts fan out to.
    pub subscriptions: ActiveSubscriptions,
}

impl EventBroadcaster {
    /// Both topics' subscriber maps are well formed.
    pub open spec fn wf(&self) -> bool {
        self.subscriptions.wf()
    }

    /// The deliveries of a `new_state` event: every subscriber registered at
    /// call time receives `new_state`, in registration order.
    pub fn notify_new_state(&self, new_state: DaemonState) -> (deliveries: Vec<(u64, DaemonState)>)
        ensures
            deliveries@.len() == self.subscriptions.new_state_subscriptions@.len(),
            forall|k: int|
                0 <= k < deliveries@.len() ==> deliveries@[k] == (
                    self.subscriptions.new_state_subscriptions@[k].1,
                    new_state,
                ),
    {
        let sinks = self.subscriptions.new_state_subscriptions.sinks();
        let n: usize = sinks.len();
        let mut deliveries: Vec<(u64, DaemonState)> = Vec::new();
        let mut i: usize = 0;
        while i < n
            invariant
                i <= n,
                n == sinks@.len(),
                sinks@.len() == self.subscriptions.new_state_subscriptions@.len(),
                forall|k: int|
                    0 <= k < sinks@.len() ==> sinks@[k]
                        == self.subscriptions.new_state_subscriptions@[k].1,
                deliveries@.len() == i,
                forall|k: int|
                    0 <= k < i ==> deliveries@[k] == (
                        self.subscriptions.new_state_subscriptions@[k].1,
                        new_state,
                    ),
            decreases n - i,
        {
            deliveries.push((sinks[i], new_state));
            i = i + 1;
        }
        deliveries
    }

    /// The deliveries of an `error` event: every subscriber of the `error`
    /// topic registered at call time receives a copy of `error_chain`, the
    /// ordered list of error cause strings, outermost first.
    pub fn notify_error(&self, error_chain: &Vec<String>) -> (deliveries: Vec<(u64, Vec<String>)>)
        ensures
            deliveries@.len() == self.subscriptions.error_subscriptions@.len(),
            forall|k: int|
                0 <= k < deliveries@.len() ==> deliveries@[k].0
                    == self.subscriptions.error_subscriptions@[k].1 && deliveries@[k].1@
                    == error_chain@,
    {
        let sinks = self.subscriptions.error_subscriptions.sinks();
        let n: usize = sinks.len();
        let mut deliveries: Vec<(u64, Vec<String>)> = Vec::new();
        let mut i: usize = 0;
        while i < n
            invariant
                i <= n,
                n == sinks@.len(),
                sinks@.len() == self.subscriptions.error_subscriptions@.len(),
                forall|k: int|
                    0 <= k < sinks@.len() ==> sinks@[k]
                        == self.subscriptions.error_subscriptions@[k].1,
                deliveries@.len() == i,
                forall|k: int|
                    0 <= k < i ==> deliveries@[k].0 == self.subscriptions.error_subscriptions@[k].1
                        && deliveries@[k].1@ == error_chain@,
            decreases n - i,
        {
            deliveries.push((sinks[i], clone_error_chain(error_chain)));
            i = i + 1;
        }
        deliveries
    }
}

/// A copy of an error cause chain, string for string.
fn clone_error_chain(chain: &Vec<String>) -> (copy: Vec<String>)
    ensures
        copy@ == chain@,
{
    let n: usize = chain.len();
    let mut copy: Vec<String> = Vec::new();
    let mut i: usize = 0;
    while i < n
        invariant
            i <= n,
            n == chain@.len(),
            copy@.len() == i,
            forall|k: int| 0 <= k < i ==> copy@[k] == chain@[k],
        decreases n - i,
    {
        copy.push(chain[i].clone());
        i = i + 1;
    }
    proof {
        assert(copy@ =~= chain@);
    }
    copy
}

/// The outcome every privileged operation owes its caller before any
/// downstream work: `Unauthenticated` without a prior successful `auth`,
/// `ChannelClosed` when the command channel's consuming end is gone, and
/// only otherwise the operation's own result.
pub open spec fn privileged_outcome<T>(authenticated: bool, channel_open: bool, ok: T) -> Result<
    T,
    ApiError,
> {
    if !authenticated {
        Err(ApiError::Unauthenticated)
    } else if !channel_open {
        Err(ApiError::ChannelClosed)
    } else {
        Ok(ok)
    }
}

/// The management interface: per-operation validation and dispatch. It owns
/// the subscriber sets, the command channel into the tunnel service, and the
/// shared secret connections authenticate against.
pub struct ManagementInterface {
    broadcaster: EventBroadcaster,
    channel: CommandChannel,
    shared_secret: String,
}

impl ManagementInterface {
    /// The shared secret connections must present to `auth`.
    pub closed spec fn secret(&self) -> Seq<char> {
        self.shared_secret@
    }

    /// The live `new_state` subscriptions.
    pub closed spec fn new_state_subs(&self) -> Seq<(u128, u64)> {
        self.broadcaster.subscriptions.new_state_subscriptions@
    }

    /// The live `error` subscriptions.
    pub closed spec fn error_subs(&self) -> Seq<(u128, u64)> {
        self.broadcaster.subscriptions.error_subscriptions@
    }

    /// The commands sent to the tunnel service and not yet consumed.
    pub closed spec fn queue(&self) -> Seq<TunnelCommand> {
        self.channel.queue()
    }

    /// Whether the tunnel service's end of the command channel is alive.
    pub closed spec fn channel_open(&self) -> bool {
        self.channel.is_open()
    }

    /// The handle the next delivery slot will get.
    pub closed spec fn next_slot(&self) -> u64 {
        self.channel.next_slot()
    }

    /// Subscription identifiers are unique per topic.
    pub open spec fn wf(&self) -> bool {
        seq_ids_unique_both(self.new_state_subs(), self.error_subs())
    }

    /// A fresh gateway: no subscribers, an open and empty command channel,
    /// and `shared_secret` as the configured secret.
    pub fn new(shared_secret: String) -> (mi: ManagementInterface)
        ensures
            mi.wf(),
            mi.secret() == shared_secret@,
            mi.new_state_subs() == Seq::<(u128, u64)>::empty(),
            mi.error_subs() == Seq::<(u128, u64)>::empty(),
            mi.queue() == Seq::<TunnelCommand>::empty(),
            mi.channel_open(),
            mi.next_slot() == 0,
    {
        ManagementInterface {
            broadcaster: EventBroadcaster { subscriptions: ActiveSubscriptions::new() },
            channel: CommandChannel::new(),
            shared_secret,
        }
    }

    /// The broadcast handle over this gateway's subscriber sets.
    pub fn event_broadcaster(&self) -> (broadcaster: &EventBroadcaster)
        ensures
            broadcaster.subscriptions.new_state_subscriptions@ == self.new_state_subs(),
            broadcaster.subscriptions.error_subscriptions@ == self.error_subs(),
    {
        &self.broadcaster
    }

    /// Authenticates a connection: compares the presented secret against the
    /// configured one, sets the connection's flag to the outcome — the one
    /// operation that ever writes the flag — and reports failure as an
    /// internal error.
    pub fn auth(&self, meta: &mut Meta, shared_secret: String) -> (r: Result<(), ApiError>)
        ensures
            final(meta).spec_sink() == old(meta).spec_sink(),
            final(meta).is_authenticated() == (shared_secret@ == self.secret()),
            shared_secret@ == self.secret() ==> r == Ok::<(), ApiError>(()),
            shared_secret@ != self.secret() ==> r == Err::<(), ApiError>(ApiError::Internal),
    {
        let authenticated: bool = shared_secret == self.shared_secret;
        meta.set_authenticated(authenticated);
        if authenticated {
            Ok(())
        } else {
            Err(ApiError::Internal)
        }
    }

    /// Passes exactly when the connection is authenticated. Every privileged
    /// operation calls this before any side effect; unprivileged ones never
    /// do.
    pub fn check_auth(&self, meta: &Meta) -> (r: Result<(), ApiError>)
        ensures
            meta.is_authenticated() ==> r == Ok::<(), ApiError>(()),
            !meta.is_authenticated() ==> r == Err::<(), ApiError>(ApiError::Unauthenticated),
    {
        meta.check_auth()
    }

    /// Sends a command to the tunnel service. Fails immediately with
    /// `ChannelClosed`, and changes nothing, when the consuming end is gone;
    /// the send is never retried.
    pub fn send_command_to_daemon(&mut self, command: TunnelCommand) -> (r: Result<(), ApiError>)
        ensures
            final(self).secret() == old(self).secret(),
            final(self).new_state_subs() == old(self).new_state_subs(),
            final(self).error_subs() == old(self).error_subs(),
            final(self).channel_open() == old(self).channel_open(),
            final(self).next_slot() == old(self).next_slot(),
            old(self).channel_open() ==> r == Ok::<(), ApiError>(())
                && final(self).queue() == old(self).queue().push(command),
            !old(self).channel_open() ==> r == Err::<(), ApiError>(ApiError::ChannelClosed)
                && final(self).queue() == old(self).queue(),
    {
        self.channel.send(command)
    }

    /// Models the tunnel service tearing down its end of the command
    /// channel.
    pub fn close_channel(&mut self)
        ensures
            !final(self).channel_open(),
            final(self).secret() == old(self).secret(),
            final(self).new_state_subs() == old(self).new_state_subs(),
            final(self).error_subs() == old(self).error_subs(),
            final(self).queue() == old(self).queue(),
            final(self).next_slot() == old(self).next_slot(),
    {
        self.channel.close()
    }

    /// The tunnel service consuming the oldest pending command, if any.
    pub fn pop_command(&mut self) -> (r: Option<TunnelCommand>)
        ensures
            final(self).secret() == old(self).secret(),
            final(self).new_state_subs() == old(self).new_state_subs(),
            final(self).error_subs() == old(self).error_subs(),
            final(self).channel_open() == old(self).channel_open(),
            final(self).next_slot() == old(self).next_slot(),
            old(self).queue().len() == 0 ==> r is None
                && final(self).queue() == old(self).queue(),
            old(self).queue().len() > 0 ==> r == Some(old(self).queue()[0])
                && final(self).queue() == old(self).queue().drop_first(),
    {
        self.channel.pop_command()
    }
}

impl ManagementInterface {
    /// Requests the metadata of the account `account_token` from the tunnel
    /// service, which consults the account backend on the caller's behalf;
    /// privileged. Returns the delivery slot the answer will arrive through;
    /// `resolve_account_data` turns that slot's outcome into the caller's
    /// result.
    pub fn get_account_data(&mut self, meta: &Meta, account_token: AccountToken) -> (r: Result<
        SlotId,
        ApiError,
    >)
        requires
            old(self).wf(),
        ensures
            final(self).wf(),
            final(self).secret() == old(self).secret(),
            final(self).new_state_subs() == old(self).new_state_subs(),
            final(self).error_subs() == old(self).error_subs(),
            final(self).channel_open() == old(self).channel_open(),
            r == privileged_outcome(
                meta.is_authenticated(),
                old(self).channel_open(),
                old(self).next_slot(),
            ),
            meta.is_authenticated() && old(self).channel_open() ==> final(self).queue() == old(
                self,
            ).queue().push(TunnelCommand::GetAccountData(old(self).next_slot(), account_token))
                && final(self).next_slot() == u64_wrapping_increment(old(self).next_slot()),
            !(meta.is_authenticated() && old(self).channel_open()) ==> *final(self) == *old(self),
    {
        if let Err(denied) = self.check_auth(meta) {
            return Err(denied);
        }
        if !self.channel.open() {
            return Err(ApiError::ChannelClosed);
        }
        let slot = self.channel.mint_slot();
        match self.send_command_to_daemon(TunnelCommand::GetAccountData(slot, account_token)) {
            Ok(()) => Ok(slot),
            Err(failed) => Err(failed),
        }
    }

    /// The available countries; unprivileged, and currently an empty
    /// mapping.
    pub fn get_countries(&self) -> (r: Result<Vec<(CountryCode, String)>, ApiError>)
        ensures
            (match r {
                Ok(countries) => countries@.len() == 0,
                Err(_) => false,
            }),
    {
        Ok(Vec::new())
    }

    /// Sets which account to connect with, or unsets it; privileged.
    pub fn set_account(&mut self, meta: &Meta, account_token: Option<AccountToken>) -> (r: Result<
        SlotId,
        ApiError,
    >)
        requires
            old(self).wf(),
        ensures
            final(self).wf(),
            final(self).secret() == old(self).secret(),
            final(self).new_state_subs() == old(self).new_state_subs(),
            final(self).error_subs() == old(self).error_subs(),
            final(self).channel_open() == old(self).channel_open(),
            r == privileged_outcome(
                meta.is_authenticated(),
                old(self).channel_open(),
                old(self).next_slot(),
            ),
            meta.is_authenticated() && old(self).channel_open() ==> final(self).queue() == old(
                self,
            ).queue().push(TunnelCommand::SetAccount(old(self).next_slot(), account_token))
                && final(self).next_slot() == u64_wrapping_increment(old(self).next_slot()),
            !(meta.is_authenticated() && old(self).channel_open()) ==> *final(self) == *old(self),
    {
        if let Err(denied) = self.check_auth(meta) {
            return Err(denied);
        }
        if !self.channel.open() {
            return Err(ApiError::ChannelClosed);
        }
        let slot = self.channel.mint_slot();
        match self.send_command_to_daemon(TunnelCommand::SetAccount(slot, account_token)) {
            Ok(()) => Ok(slot),
            Err(failed) => Err(failed),
        }
    }

    /// Requests the account token currently in use; privileged.
    pub fn get_account(&mut self, meta: &Meta) -> (r: Result<SlotId, ApiError>)
        requires
            old(self).wf(),
        ensures
            final(self).wf(),
            final(self).secret() == old(self).secret(),
            final(self).new_state_subs() == old(self).new_state_subs(),
            final(self).error_subs() == old(self).error_subs(),
            final(self).channel_open() == old(self).channel_open(),
            r == privileged_outcome(
                meta.is_authenticated(),
                old(self).channel_open(),
                old(self).next_slot(),
            ),
            meta.is_authenticated() && old(self).channel_open() ==> final(self).queue() == old(
                self,
            ).queue().push(TunnelCommand::GetAccount(old(self).next_slot()))
                && final(self).next_slot() == u64_wrapping_increment(old(self).next_slot()),
            !(meta.is_authenticated() && old(self).channel_open()) ==> *final(self) == *old(self),
    {
        if let Err(denied) = self.check_auth(meta) {
            return Err(denied);
        }
        if !self.channel.open() {
            return Err(ApiError::ChannelClosed);
        }
        let slot = self.channel.mint_slot();
        match self.send_command_to_daemon(TunnelCommand::GetAccount(slot)) {
            Ok(()) => Ok(slot),
            Err(failed) => Err(failed),
        }
    }

    /// Sets a custom relay to connect through instead of the default relay
    /// list; privileged.
    pub fn set_custom_relay(&mut self, meta: &Meta, custom_relay: RelayEndpoint) -> (r: Result<
        SlotId,
        ApiError,
    >)
        requires
            old(self).wf(),
        ensures
            final(self).wf(),
            final(self).secret() == old(self).secret(),
            final(self).new_state_subs() == old(self).new_state_subs(),
            final(self).error_subs() == old(self).error_subs(),
            final(self).channel_open() == old(self).channel_open(),
            r == privileged_outcome(
                meta.is_authenticated(),
                old(self).channel_open(),
                old(self).next_slot(),
            ),
            meta.is_authenticated() && old(self).channel_open() ==> final(self).queue() == old(
                self,
            ).queue().push(
                TunnelCommand::SetCustomRelay(old(self).next_slot(), Some(custom_relay)),
            ) && final(self).next_slot() == u64_wrapping_increment(old(self).next_slot()),
            !(meta.is_authenticated() && old(self).channel_open()) ==> *final(self) == *old(self),
    {
        if let Err(denied) = self.check_auth(meta) {
            return Err(denied);
        }
        if !self.channel.open() {
            return Err(ApiError::ChannelClosed);
        }
        let slot = self.channel.mint_slot();
        match self.send_command_to_daemon(
            TunnelCommand::SetCustomRelay(slot, Some(custom_relay)),
        ) {
            Ok(()) => Ok(slot),
            Err(failed) => Err(failed),
        }
    }

    /// Unsets the custom relay, reverting to the default relay list;
    /// privileged.
    pub fn remove_custom_relay(&mut self, meta: &Meta) -> (r: Result<SlotId, ApiError>)
        requires
            old(self).wf(),
        ensures
            final(self).wf(),
            final(self).secret() == old(self).secret(),
            final(self).new_state_subs() == old(self).new_state_subs(),
            final(self).error_subs() == old(self).error_subs(),
            final(self).channel_open() == old(self).channel_open(),
            r == privileged_outcome(
                meta.is_authenticated(),
                old(self).channel_open(),
                old(self).next_slot(),
            ),
            meta.is_authenticated() && old(self).channel_open() ==> final(self).queue() == old(
                self,
            ).queue().push(TunnelCommand::SetCustomRelay(old(self).next_slot(), None))
                && final(self).next_slot() == u64_wrapping_increment(old(self).next_slot()),
            !(meta.is_authenticated() && old(self).channel_open()) ==> *final(self) == *old(self),
    {
        if let Err(denied) = self.check_auth(meta) {
            return Err(denied);
        }
        if !self.channel.open() {
            return Err(ApiError::ChannelClosed);
        }
        let slot = self.channel.mint_slot();
        match self.send_command_to_daemon(TunnelCommand::SetCustomRelay(slot, None)) {
            Ok(()) => Ok(slot),
            Err(failed) => Err(failed),
        }
    }

    /// Whether to establish a tunnel automatically on start; privileged.
    /// Currently acknowledged without dispatching any command.
    pub fn set_autoconnect(&mut self, meta: &Meta, _autoconnect: bool) -> (r: Result<(), ApiError>)
        requires
            old(self).wf(),
        ensures
            final(self).wf(),
            *final(self) == *old(self),
            meta.is_authenticated() ==> r == Ok::<(), ApiError>(()),
            !meta.is_authenticated() ==> r == Err::<(), ApiError>(ApiError::Unauthenticated),
    {
        if let Err(denied) = self.check_auth(meta) {
            return Err(denied);
        }
        Ok(())
    }

    /// Asks the tunnel service to secure the tunnel; privileged. Exactly one
    /// set-target-state command towards `Secured` is dispatched; the
    /// acknowledgment is independent of the tunnel ever reaching that state.
    pub fn connect(&mut self, meta: &Meta) -> (r: Result<(), ApiError>)
        requires
            old(self).wf(),
        ensures
            final(self).wf(),
            final(self).secret() == old(self).secret(),
            final(self).new_state_subs() == old(self).new_state_subs(),
            final(self).error_subs() == old(self).error_subs(),
            final(self).channel_open() == old(self).channel_open(),
            final(self).next_slot() == old(self).next_slot(),
            r == privileged_outcome(meta.is_authenticated(), old(self).channel_open(), ()),
            meta.is_authenticated() && old(self).channel_open() ==> final(self).queue() == old(
                self,
            ).queue().push(TunnelCommand::SetTargetState(TargetState::Secured)),
            !(meta.is_authenticated() && old(self).channel_open()) ==> *final(self) == *old(self),
    {
        if let Err(denied) = self.check_auth(meta) {
            return Err(denied);
        }
        if !self.channel.open() {
            return Err(ApiError::ChannelClosed);
        }
        self.send_command_to_daemon(TunnelCommand::SetTargetState(TargetState::Secured))
    }

    /// Asks the tunnel service to take the tunnel down; privileged. Exactly
    /// one set-target-state command towards `Unsecured` is dispatched.
    pub fn disconnect(&mut self, meta: &Meta) -> (r: Result<(), ApiError>)
        requires
            old(self).wf(),
        ensures
            final(self).wf(),
            final(self).secret() == old(self).secret(),
            final(self).new_state_subs() == old(self).new_state_subs(),
            final(self).error_subs() == old(self).error_subs(),
            final(self).channel_open() == old(self).channel_open(),
            final(self).next_slot() == old(self).next_slot(),
            r == privileged_outcome(meta.is_authenticated(), old(self).channel_open(), ()),
            meta.is_authenticated() && old(self).channel_open() ==> final(self).queue() == old(
                self,
            ).queue().push(TunnelCommand::SetTargetState(TargetState::Unsecured)),
            !(meta.is_authenticated() && old(self).channel_open()) ==> *final(self) == *old(self),
    {
        if let Err(denied) = self.check_auth(meta) {
            return Err(denied);
        }
        if !self.channel.open() {
            return Err(ApiError::ChannelClosed);
        }
        self.send_command_to_daemon(TunnelCommand::SetTargetState(TargetState::Unsecured))
    }

    /// Requests the current daemon state; privileged.
    pub fn get_state(&mut self, meta: &Meta) -> (r: Result<SlotId, ApiError>)
        requires
            old(self).wf(),
        ensures
            final(self).wf(),
            final(self).secret() == old(self).secret(),
            final(self).new_state_subs() == old(self).new_state_subs(),
            final(self).error_subs() == old(self).error_subs(),
            final(self).channel_open() == old(self).channel_open(),
            r == privileged_outcome(
                meta.is_authenticated(),
                old(self).channel_open(),
                old(self).next_slot(),
            ),
            meta.is_authenticated() && old(self).channel_open() ==> final(self).queue() == old(
                self,
            ).queue().push(TunnelCommand::GetState(old(self).next_slot()))
                && final(self).next_slot() == u64_wrapping_increment(old(self).next_slot()),
            !(meta.is_authenticated() && old(self).channel_open()) ==> *final(self) == *old(self),
    {
        if let Err(denied) = self.check_auth(meta) {
            return Err(denied);
        }
        if !self.channel.open() {
            return Err(ApiError::ChannelClosed);
        }
        let slot = self.channel.mint_slot();
        match self.send_command_to_daemon(TunnelCommand::GetState(slot)) {
            Ok(()) => Ok(slot),
            Err(failed) => Err(failed),
        }
    }

    /// The current public IP of this computer; unprivileged, a stub.
    pub fn get_ip(&self) -> (r: Result<IpAddress, ApiError>)
        ensures
            (match r {
                Ok(ip) => ip.octets@ == seq![1u8, 2u8, 3u8, 4u8],
                Err(_) => false,
            }),
    {
        let ip = IpAddress { octets: [1, 2, 3, 4] };
        proof {
            assert(ip.octets@ =~= seq![1u8, 2u8, 3u8, 4u8]);
        }
        Ok(ip)
    }

    /// The current location as perceived by the public internet;
    /// unprivileged, a stub.
    pub fn get_location(&self) -> (r: Result<Location, ApiError>)
        ensures
            (match r {
                Ok(location) => location.latitude == 1 && location.longitude == 2
                    && location.country@ == "narnia"@ && location.city@ == "Le city"@,
                Err(_) => false,
            }),
    {
        Ok(
            Location {
                latitude: 1,
                longitude: 2,
                country: String::from_str("narnia"),
                city: String::from_str("Le city"),
            },
        )
    }

    /// Subscribes the connection's sink to the `new_state` topic under a
    /// fresh identifier. An unauthenticated attempt is silently rejected:
    /// nothing is registered and nothing is reported back, since the
    /// protocol's subscribe primitive is one-directional.
    pub fn new_state_subscribe(&mut self, meta: &Meta) -> (r: Option<u128>)
        requires
            old(self).wf(),
        ensures
            final(self).wf(),
            final(self).secret() == old(self).secret(),
            final(self).error_subs() == old(self).error_subs(),
            final(self).queue() == old(self).queue(),
            final(self).channel_open() == old(self).channel_open(),
            final(self).next_slot() == old(self).next_slot(),
            !meta.is_authenticated() ==> r is None && *final(self) == *old(self),
            meta.is_authenticated() ==> (r matches Some(id) && !seq_contains_id(
                old(self).new_state_subs(),
                id,
            ) && final(self).new_state_subs() == old(self).new_state_subs().push(
                (id, meta.spec_sink()),
            )),
    {
        if self.check_auth(meta).is_err() {
            return None;
        }
        let id = self.broadcaster.subscriptions.new_state_subscriptions.subscribe(meta.sink());
        Some(id)
    }

    /// Removes the `new_state` subscription `id`; fails with
    /// `InvalidSubscription`, changing nothing, when no such subscription is
    /// live.
    pub fn new_state_unsubscribe(&mut self, id: u128) -> (r: Result<(), ApiError>)
        requires
            old(self).wf(),
        ensures
            final(self).wf(),
            final(self).secret() == old(self).secret(),
            final(self).error_subs() == old(self).error_subs(),
            final(self).queue() == old(self).queue(),
            final(self).channel_open() == old(self).channel_open(),
            final(self).next_slot() == old(self).next_slot(),
            !seq_contains_id(old(self).new_state_subs(), id) ==> r == Err::<(), ApiError>(
                ApiError::InvalidSubscription,
            ) && *final(self) == *old(self),
            seq_contains_id(old(self).new_state_subs(), id) ==> r == Ok::<(), ApiError>(())
                && !seq_contains_id(final(self).new_state_subs(), id) && (exists|i: int|
                0 <= i < old(self).new_state_subs().len() && old(self).new_state_subs()[i].0 == id
                    && final(self).new_state_subs() == old(self).new_state_subs().remove(i)),
    {
        if self.broadcaster.subscriptions.new_state_subscriptions.unsubscribe(id) {
            Ok(())
        } else {
            Err(ApiError::InvalidSubscription)
        }
    }

    /// Subscribes the connection's sink to the `error` topic under a fresh
    /// identifier; an unauthenticated attempt is silently rejected.
    pub fn error_subscribe(&mut self, meta: &Meta) -> (r: Option<u128>)
        requires
            old(self).wf(),
        ensures
            final(self).wf(),
            final(self).secret() == old(self).secret(),
            final(self).new_state_subs() == old(self).new_state_subs(),
            final(self).queue() == old(self).queue(),
            final(self).channel_open() == old(self).channel_open(),
            final(self).next_slot() == old(self).next_slot(),
            !meta.is_authenticated() ==> r is None && *final(self) == *old(self),
            meta.is_authenticated() ==> (r matches Some(id) && !seq_contains_id(
                old(self).error_subs(),
                id,
            ) && final(self).error_subs() == old(self).error_subs().push(
                (id, meta.spec_sink()),
            )),
    {
        if self.check_auth(meta).is_err() {
            return None;
        }
        let id = self.broadcaster.subscriptions.error_subscriptions.subscribe(meta.sink());
        Some(id)
    }

    /// Removes the `error` subscription `id`; fails with
    /// `InvalidSubscription`, changing nothing, when no such subscription is
    /// live.
    pub fn error_unsubscribe(&mut self, id: u128) -> (r: Result<(), ApiError>)
        requires
            old(self).wf(),
        ensures
            final(self).wf(),
            final(self).secret() == old(self).secret(),
            final(self).new_state_subs() == old(self).new_state_subs(),
            final(self).queue() == old(self).queue(),
            final(self).channel_open() == old(self).channel_open(),
            final(self).next_slot() == old(self).next_slot(),
            !seq_contains_id(old(self).error_subs(), id) ==> r == Err::<(), ApiError>(
                ApiError::InvalidSubscription,
            ) && *final(self) == *old(self),
            seq_contains_id(old(self).error_subs(), id) ==> r == Ok::<(), ApiError>(())
                && !seq_contains_id(final(self).error_subs(), id) && (exists|i: int|
                0 <= i < old(self).error_subs().len() && old(self).error_subs()[i].0 == id
                    && final(self).error_subs() == old(self).error_subs().remove(i)),
    {
        if self.broadcaster.subscriptions.error_subscriptions.unsubscribe(id) {
            Ok(())
        } else {
            Err(ApiError::InvalidSubscription)
        }
    }
}

/// Identifier uniqueness of both topics' subscription sets.
pub open spec fn seq_ids_unique_both(new_state: Seq<(u128, u64)>, error: Seq<(u128, u64)>) -> bool {
    crate::registry::seq_ids_unique(new_state) && crate::registry::seq_ids_unique(error)
}

/// Resolves a pending call from its delivery slot's outcome: the value the
/// tunnel service fulfilled the slot with, or `ChannelClosed` when the slot
/// was dropped without ever being fulfilled — a pending call never hangs
/// forever.
pub fn resolve_reply<T>(outcome: Option<T>) -> (r: Result<T, ApiError>)
    ensures
        (match outcome {
            Some(reply) => r == Ok::<T, ApiError>(reply),
            None => r == Err::<T, ApiError>(ApiError::ChannelClosed),
        }),
{
    match outcome {
        Some(reply) => Ok(reply),
        None => Err(ApiError::ChannelClosed),
    }
}

/// Resolves a pending `get_account_data` call: an abandoned slot means
/// `ChannelClosed`; a fulfilled slot carries the account backend's own
/// answer, whose failure is translated for the caller.
pub fn resolve_account_data(outcome: Option<Result<AccountData, UpstreamError>>) -> (r: Result<
    AccountData,
    ApiError,
>)
    ensures
        (match outcome {
            None => r == Err::<AccountData, ApiError>(ApiError::ChannelClosed),
            Some(Ok(data)) => r == Ok::<AccountData, ApiError>(data),
            Some(Err(upstream)) => r == Err::<AccountData, ApiError>(
                spec_map_rpc_error(upstream),
            ),
        }),
{
    match outcome {
        None => Err(ApiError::ChannelClosed),
        Some(Ok(data)) => Ok(data),
        Some(Err(upstream)) => Err(map_rpc_error(upstream)),
    }
}

} // verus!
