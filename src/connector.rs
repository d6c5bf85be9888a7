use vstd::prelude::*;
use crate::callbacks::CallbackList;
use crate::config::SentinelConfig;
use crate::errors::OdinSentinelError;
use crate::keyed::{lookup, with_entry};
use crate::sentinel::{PayloadTypes, SentinelUpdate};
use crate::store::{store_wf, updated_with, SentinelStore};
use crate::text::spec_decimal;
use crate::ws::{get_next_msg_id, WsCmd};

verus! {

/// Where the connector stands.
#[derive(Debug, Clone, Copy, PartialEq, Eq, Structural)]
pub enum ConnectorPhase {
    /// not started
    Created,
    /// the bootstrap task is running
    Bootstrapping,
    /// the bootstrap failed; nothing more happens
    Failed,
    /// a store is present, the websocket is being opened
    Connecting,
    /// a store is present and the websocket is open
    Streaming,
    /// a store is present, without a websocket
    Initialized,
    /// stopped
    Terminated,
}

/// What to do with a received record before it is stored.
#[derive(Debug, Clone, Copy, PartialEq, Eq, Structural)]
pub enum RecordPlan {
    /// no sentinel has the record's device id: drop it
    UnknownDevice,
    /// store it; hand a copy to the update subscribers if `to_update`, and
    /// its JSON form to the JSON subscribers if `to_json`
    Deliver { to_update: bool, to_json: bool },
}

/// What to do about an error that reached the connector.
#[derive(Debug, Clone, Copy, PartialEq, Eq, Structural)]
pub enum ErrorAction {
    /// the websocket ended: release it, its read task and the ping timer
    CloseWebsocket,
    /// the bootstrap failed; nothing more happens
    BootstrapFailed,
    /// log it and go on
    Ignore,
}

/// The errors that end a websocket session.
pub open spec fn ends_websocket(e: OdinSentinelError) -> bool {
    e is WsClosedError || e is WsError || e is WsProtocolError
}

/// What to do after a store arrived.
#[derive(Debug)]
pub struct StoreActions {
    /// fire the init callbacks
    pub fire_init: bool,
    /// open a websocket that joins these device ids
    pub connect_to: Option<Vec<String>>,
}

/// A request to register an init subscriber.
#[derive(Debug)]
pub struct AddInitCallback<A> {
    pub id: String,
    pub action: A,
}

/// A request to register an update subscriber.
#[derive(Debug)]
pub struct AddUpdateCallback<A> {
    pub id: String,
    pub action: A,
}

/// A request to register a JSON update subscriber.
#[derive(Debug)]
pub struct AddJsonUpdateCallback<A> {
    pub id: String,
    pub action: A,
}

/// A request for one snapshot of the store in JSON, handed to the action.
#[derive(Debug)]
pub struct TriggerJsonSnapshot<A>(pub A);

/// The connector's state: the store, the subscriber lists and the state of
/// the websocket and its ping timer. `I`, `U` and `J` are the actions of the
/// init, update and JSON update subscribers.
pub struct SentinelConnector<P: PayloadTypes, I, U, J> {
    config: SentinelConfig,
    sentinels: SentinelStore<P>,
    phase: ConnectorPhase,
    initialized: bool,
    ping_timer: bool,
    ping_msg_id: u64,
    init_callbacks: CallbackList<I>,
    update_callbacks: CallbackList<U>,
    json_update_callbacks: CallbackList<J>,
}

impl<P: PayloadTypes, I, U, J> SentinelConnector<P, I, U, J> {
    pub closed spec fn spec_config(&self) -> SentinelConfig {
        self.config
    }

    pub closed spec fn spec_store(&self) -> Seq<(Seq<char>, crate::sentinel::Sentinel<P>)> {
        self.sentinels@
    }

    pub closed spec fn spec_phase(&self) -> ConnectorPhase {
        self.phase
    }

    /// Whether the init callbacks have fired.
    pub closed spec fn spec_initialized(&self) -> bool {
        self.initialized
    }

    /// Whether the ping timer runs.
    pub closed spec fn spec_ping_timer(&self) -> bool {
        self.ping_timer
    }

    /// The id of the last ping sent.
    pub closed spec fn spec_ping_msg_id(&self) -> u64 {
        self.ping_msg_id
    }

    pub closed spec fn spec_init_callbacks(&self) -> Seq<(Seq<char>, I)> {
        self.init_callbacks@
    }

    pub closed spec fn spec_update_callbacks(&self) -> Seq<(Seq<char>, U)> {
        self.update_callbacks@
    }

    pub closed spec fn spec_json_update_callbacks(&self) -> Seq<(Seq<char>, J)> {
        self.json_update_callbacks@
    }

    /// `self` and `other` agree on all but the phase, the store, the timer and the ping ids.
    pub open spec fn same_subscribers(&self, other: &Self) -> bool {
        &&& self.spec_config() == other.spec_config()
        &&& self.spec_init_callbacks() == other.spec_init_callbacks()
        &&& self.spec_update_callbacks() == other.spec_update_callbacks()
        &&& self.spec_json_update_callbacks() == other.spec_json_update_callbacks()
        &&& self.spec_initialized() == other.spec_initialized()
    }

    /// `self` and `other` agree on everything but the subscriber lists.
    pub open spec fn same_state(&self, other: &Self) -> bool {
        &&& self.spec_config() == other.spec_config()
        &&& self.spec_store() == other.spec_store()
        &&& self.spec_phase() == other.spec_phase()
        &&& self.spec_initialized() == other.spec_initialized()
        &&& self.spec_ping_timer() == other.spec_ping_timer()
        &&& self.spec_ping_msg_id() == other.spec_ping_msg_id()
    }

    /// The plan for a record of device `device_id`.
    pub open spec fn plan_for(&self, device_id: Seq<char>) -> RecordPlan {
        if lookup(self.spec_store(), device_id) is None {
            RecordPlan::UnknownDevice
        } else {
            RecordPlan::Deliver {
                to_update: self.spec_update_callbacks().len() > 0,
                to_json: self.spec_json_update_callbacks().len() > 0,
            }
        }
    }

    /// `next` is `self` after a store arrived, and `fire_init` tells whether
    /// the init callbacks fire.
    pub open spec fn store_step(&self, next: &Self, fire_init: bool) -> bool {
        &&& fire_init == !self.spec_initialized()
        &&& next.spec_initialized()
        &&& next.spec_init_callbacks() == self.spec_init_callbacks()
    }

    /// Whether a ping tick sends a ping.
    pub open spec fn pings(&self) -> bool {
        &&& self.spec_phase() == ConnectorPhase::Streaming
        &&& self.spec_ping_timer()
        &&& self.spec_config().ping_interval is Some
        &&& self.spec_ping_msg_id() < u64::MAX
    }

    /// A connector with an empty store and no subscribers.
    pub fn new(config: SentinelConfig) -> (r: Self)
        ensures
            r.spec_config() == config,
            r.spec_store().len() == 0,
            r.spec_phase() == ConnectorPhase::Created,
            !r.spec_initialized(),
            !r.spec_ping_timer(),
            r.spec_ping_msg_id() == 0,
            r.spec_init_callbacks().len() == 0,
            r.spec_update_callbacks().len() == 0,
            r.spec_json_update_callbacks().len() == 0,
    {
        SentinelConnector {
            config,
            sentinels: SentinelStore::new(),
            phase: ConnectorPhase::Created,
            initialized: false,
            ping_timer: false,
            ping_msg_id: 0,
            init_callbacks: CallbackList::new(),
            update_callbacks: CallbackList::new(),
            json_update_callbacks: CallbackList::new(),
        }
    }

    /// Starts the connector. Returns whether the bootstrap task is to be
    /// spawned, which is the case only for a connector not started before.
    pub fn start(&mut self) -> (r: bool)
        ensures
            r == (old(self).spec_phase() == ConnectorPhase::Created),
            final(self).spec_phase() == if r {
                ConnectorPhase::Bootstrapping
            } else {
                old(self).spec_phase()
            },
            final(self).same_subscribers(old(self)),
            final(self).spec_store() == old(self).spec_store(),
            final(self).spec_ping_timer() == old(self).spec_ping_timer(),
            final(self).spec_ping_msg_id() == old(self).spec_ping_msg_id(),
    {
        if self.phase == ConnectorPhase::Created {
            self.phase = ConnectorPhase::Bootstrapping;
            true
        } else {
            false
        }
    }

    /// The bootstrap task failed.
    pub fn bootstrap_failed(&mut self)
        ensures
            final(self).spec_phase() == if old(self).spec_phase() == ConnectorPhase::Bootstrapping {
                ConnectorPhase::Failed
            } else {
                old(self).spec_phase()
            },
            final(self).same_subscribers(old(self)),
            final(self).spec_store() == old(self).spec_store(),
            final(self).spec_ping_timer() == old(self).spec_ping_timer(),
            final(self).spec_ping_msg_id() == old(self).spec_ping_msg_id(),
    {
        if self.phase == ConnectorPhase::Bootstrapping {
            self.phase = ConnectorPhase::Failed;
        }
    }

    /// Registers an init subscriber. One registered after the init callbacks
    /// fired is not called.
    pub fn add_init_callback(&mut self, id: String, action: I)
        ensures
            final(self).spec_init_callbacks() == with_entry(old(self).spec_init_callbacks(), id@, action),
            final(self).spec_update_callbacks() == old(self).spec_update_callbacks(),
            final(self).spec_json_update_callbacks() == old(self).spec_json_update_callbacks(),
            final(self).same_state(old(self)),
    {
        self.init_callbacks.add(id, action);
    }

    /// Registers an update subscriber.
    pub fn add_update_callback(&mut self, id: String, action: U)
        ensures
            final(self).spec_update_callbacks() == with_entry(old(self).spec_update_callbacks(), id@, action),
            final(self).spec_init_callbacks() == old(self).spec_init_callbacks(),
            final(self).spec_json_update_callbacks() == old(self).spec_json_update_callbacks(),
            final(self).same_state(old(self)),
    {
        self.update_callbacks.add(id, action);
    }

    /// Registers a JSON update subscriber.
    pub fn add_json_update_callback(&mut self, id: String, action: J)
        ensures
            final(self).spec_json_update_callbacks() == with_entry(
                old(self).spec_json_update_callbacks(),
                id@,
                action,
            ),
            final(self).spec_init_callbacks() == old(self).spec_init_callbacks(),
            final(self).spec_update_callbacks() == old(self).spec_update_callbacks(),
            final(self).same_state(old(self)),
    {
        self.json_update_callbacks.add(id, action);
    }

    /// Takes the store the bootstrap produced. The init callbacks are to fire
    /// if they have not fired before; a websocket is to be opened for the
    /// store's devices if there are any and none is open or being opened.
    pub fn set_sentinels(&mut self, sentinels: SentinelStore<P>) -> (r: StoreActions)
        ensures
            final(self).spec_store() == sentinels@,
            old(self).store_step(final(self), r.fire_init),
            final(self).spec_config() == old(self).spec_config(),
            final(self).spec_init_callbacks() == old(self).spec_init_callbacks(),
            final(self).spec_update_callbacks() == old(self).spec_update_callbacks(),
            final(self).spec_json_update_callbacks() == old(self).spec_json_update_callbacks(),
            final(self).spec_ping_timer() == old(self).spec_ping_timer(),
            final(self).spec_ping_msg_id() == old(self).spec_ping_msg_id(),
            r.connect_to is Some <==> (sentinels@.len() > 0 && old(self).spec_phase()
                != ConnectorPhase::Connecting && old(self).spec_phase() != ConnectorPhase::Streaming
                && old(self).spec_phase() != ConnectorPhase::Terminated),
            r.connect_to is Some ==> r.connect_to->Some_0@.map_values(|s: String| s@)
                == sentinels@.map_values(|e: (Seq<char>, crate::sentinel::Sentinel<P>)| e.0),
            final(self).spec_phase() == if r.connect_to is Some {
                ConnectorPhase::Connecting
            } else if old(self).spec_phase() == ConnectorPhase::Connecting || old(self).spec_phase()
                == ConnectorPhase::Streaming || old(self).spec_phase() == ConnectorPhase::Terminated {
                old(self).spec_phase()
            } else {
                ConnectorPhase::Initialized
            },
    {
        self.sentinels = sentinels;
        let fire_init = !self.initialized;
        self.initialized = true;
        let busy = self.phase == ConnectorPhase::Connecting || self.phase == ConnectorPhase::Streaming
            || self.phase == ConnectorPhase::Terminated;
        if !busy && self.sentinels.len() > 0 {
            self.phase = ConnectorPhase::Connecting;
            StoreActions { fire_init, connect_to: Some(self.sentinels.get_device_ids()) }
        } else {
            if !busy {
                self.phase = ConnectorPhase::Initialized;
            }
            StoreActions { fire_init, connect_to: None }
        }
    }

    /// The websocket requested by `set_sentinels` is open. Returns the ping
    /// interval if the ping timer is to be started. If no websocket was being
    /// opened nothing changes, and the new websocket is to be closed.
    pub fn websocket_opened(&mut self) -> (r: Option<u64>)
        ensures
            old(self).spec_phase() == ConnectorPhase::Connecting ==> {
                &&& final(self).spec_phase() == ConnectorPhase::Streaming
                &&& r == old(self).spec_config().ping_interval
                &&& final(self).spec_ping_timer() == r is Some
            },
            old(self).spec_phase() != ConnectorPhase::Connecting ==> {
                &&& final(self).spec_phase() == old(self).spec_phase()
                &&& r is None
                &&& final(self).spec_ping_timer() == old(self).spec_ping_timer()
            },
            final(self).same_subscribers(old(self)),
            final(self).spec_store() == old(self).spec_store(),
            final(self).spec_ping_msg_id() == old(self).spec_ping_msg_id(),
    {
        if self.phase == ConnectorPhase::Connecting {
            self.phase = ConnectorPhase::Streaming;
            self.ping_timer = self.config.ping_interval.is_some();
            self.config.ping_interval
        } else {
            None
        }
    }

    /// Whether a websocket is open.
    pub fn is_streaming(&self) -> (r: bool)
        ensures
            r == (self.spec_phase() == ConnectorPhase::Streaming),
    {
        self.phase == ConnectorPhase::Streaming
    }

    /// Opening the websocket failed: the connector stays initialized without a stream.
    pub fn websocket_failed(&mut self)
        ensures
            final(self).spec_phase() == if old(self).spec_phase() == ConnectorPhase::Connecting {
                ConnectorPhase::Initialized
            } else {
                old(self).spec_phase()
            },
            final(self).same_subscribers(old(self)),
            final(self).spec_store() == old(self).spec_store(),
            final(self).spec_ping_timer() == old(self).spec_ping_timer(),
            final(self).spec_ping_msg_id() == old(self).spec_ping_msg_id(),
    {
        if self.phase == ConnectorPhase::Connecting {
            self.phase = ConnectorPhase::Initialized;
        }
    }

    /// What to do with a record of device `device_id`: the JSON form is
    /// wanted only if there are JSON subscribers, a copy only if there are
    /// update subscribers.
    pub fn record_plan(&self, device_id: &String) -> (r: RecordPlan)
        ensures
            r == self.plan_for(device_id@),
    {
        match self.sentinels.get(device_id) {
            None => RecordPlan::UnknownDevice,
            Some(_) => RecordPlan::Deliver {
                to_update: !self.update_callbacks.is_empty(),
                to_json: !self.json_update_callbacks.is_empty(),
            },
        }
    }

    /// Keeps a received record in the store, with the configured history
    /// bound. A record of an unknown device leaves the store unchanged and
    /// gives `NoSuchDeviceError`. Returns whether the record is kept.
    pub fn store_record(&mut self, u: SentinelUpdate<P>) -> (r: Result<bool, OdinSentinelError>)
        ensures
            lookup(old(self).spec_store(), u.spec_device_id()) is None <==> r is Err,
            r is Err ==> r->Err_0 is NoSuchDeviceError && final(self).spec_store() == old(
                self,
            ).spec_store(),
            r is Ok ==> updated_with(
                old(self).spec_store(),
                final(self).spec_store(),
                u,
                old(self).spec_config().max_history as nat,
            ),
            store_wf(old(self).spec_store(), old(self).spec_config().max_history as nat) ==> store_wf(
                final(self).spec_store(),
                old(self).spec_config().max_history as nat,
            ),
            final(self).same_subscribers(old(self)),
            final(self).spec_phase() == old(self).spec_phase(),
            final(self).spec_ping_timer() == old(self).spec_ping_timer(),
            final(self).spec_ping_msg_id() == old(self).spec_ping_msg_id(),
    {
        let max_history = self.config.max_history;
        self.sentinels.update(u, max_history)
    }

    /// The timer ticked at `now` (epoch milliseconds): the ping to send, if
    /// the timer runs on an open websocket.
    pub fn ping_tick(&mut self, now: u64) -> (r: Option<WsCmd>)
        ensures
            r is Some <==> old(self).pings(),
            old(self).spec_config().ping_interval is None ==> r is None,
            r is Some ==> {
                &&& r->Some_0 is Ping
                &&& r->Some_0->Ping_request_time == now
                &&& r->Some_0->Ping_message_id@ == spec_decimal(final(self).spec_ping_msg_id() as nat)
                &&& final(self).spec_ping_msg_id() == old(self).spec_ping_msg_id() + 1
            },
            r is None ==> final(self).spec_ping_msg_id() == old(self).spec_ping_msg_id(),
            final(self).same_subscribers(old(self)),
            final(self).spec_store() == old(self).spec_store(),
            final(self).spec_phase() == old(self).spec_phase(),
            final(self).spec_ping_timer() == old(self).spec_ping_timer(),
    {
        if self.phase == ConnectorPhase::Streaming && self.ping_timer && self.config.ping_interval.is_some()
            && self.ping_msg_id < u64::MAX {
            let message_id = get_next_msg_id(&mut self.ping_msg_id);
            Some(WsCmd::Ping { request_time: now, message_id })
        } else {
            None
        }
    }

    /// The websocket closed or failed: the websocket, its read task and the
    /// ping timer are to be released. The connector stays alive without a
    /// stream and does not reconnect.
    pub fn websocket_closed(&mut self)
        ensures
            final(self).spec_phase() == if old(self).spec_phase() == ConnectorPhase::Connecting
                || old(self).spec_phase() == ConnectorPhase::Streaming {
                ConnectorPhase::Initialized
            } else {
                old(self).spec_phase()
            },
            !final(self).spec_ping_timer(),
            final(self).same_subscribers(old(self)),
            final(self).spec_store() == old(self).spec_store(),
            final(self).spec_ping_msg_id() == old(self).spec_ping_msg_id(),
    {
        if self.phase == ConnectorPhase::Connecting || self.phase == ConnectorPhase::Streaming {
            self.phase = ConnectorPhase::Initialized;
        }
        self.ping_timer = false;
    }

    /// Handles an error that reached the connector: one that ends the
    /// websocket releases it and leaves the connector without a stream;
    /// another one during the bootstrap fails the bootstrap; any other one
    /// changes nothing.
    pub fn handle_error(&mut self, e: &OdinSentinelError) -> (r: ErrorAction)
        ensures
            ends_websocket(*e) ==> {
                &&& r == ErrorAction::CloseWebsocket
                &&& final(self).spec_phase() == if old(self).spec_phase() == ConnectorPhase::Connecting
                    || old(self).spec_phase() == ConnectorPhase::Streaming {
                    ConnectorPhase::Initialized
                } else {
                    old(self).spec_phase()
                }
                &&& !final(self).spec_ping_timer()
            },
            !ends_websocket(*e) && old(self).spec_phase() == ConnectorPhase::Bootstrapping ==> {
                &&& r == ErrorAction::BootstrapFailed
                &&& final(self).spec_phase() == ConnectorPhase::Failed
                &&& final(self).spec_ping_timer() == old(self).spec_ping_timer()
            },
            !ends_websocket(*e) && old(self).spec_phase() != ConnectorPhase::Bootstrapping ==> {
                &&& r == ErrorAction::Ignore
                &&& final(self).spec_phase() == old(self).spec_phase()
                &&& final(self).spec_ping_timer() == old(self).spec_ping_timer()
            },
            final(self).same_subscribers(old(self)),
            final(self).spec_store() == old(self).spec_store(),
            final(self).spec_ping_msg_id() == old(self).spec_ping_msg_id(),
    {
        let closes = match e {
            OdinSentinelError::WsClosedError => true,
            OdinSentinelError::WsError(_) => true,
            OdinSentinelError::WsProtocolError(_) => true,
            _ => false,
        };
        if closes {
            self.websocket_closed();
            ErrorAction::CloseWebsocket
        } else if self.phase == ConnectorPhase::Bootstrapping {
            self.bootstrap_failed();
            ErrorAction::BootstrapFailed
        } else {
            ErrorAction::Ignore
        }
    }

    /// Stops the connector: the websocket, its read task and the ping timer
    /// are to be released.
    pub fn terminate(&mut self)
        ensures
            final(self).spec_phase() == ConnectorPhase::Terminated,
            !final(self).spec_ping_timer(),
            final(self).same_subscribers(old(self)),
            final(self).spec_store() == old(self).spec_store(),
            final(self).spec_ping_msg_id() == old(self).spec_ping_msg_id(),
    {
        self.phase = ConnectorPhase::Terminated;
        self.ping_timer = false;
    }

    pub fn phase(&self) -> (r: ConnectorPhase)
        ensures
            r == self.spec_phase(),
    {
        self.phase
    }

    pub fn config(&self) -> (r: &SentinelConfig)
        ensures
            *r == self.spec_config(),
    {
        &self.config
    }

    pub fn sentinels(&self) -> (r: &SentinelStore<P>)
        ensures
            r@ == self.spec_store(),
    {
        &self.sentinels
    }

    pub fn init_callbacks(&self) -> (r: &CallbackList<I>)
        ensures
            r@ == self.spec_init_callbacks(),
    {
        &self.init_callbacks
    }

    pub fn update_callbacks(&self) -> (r: &CallbackList<U>)
        ensures
            r@ == self.spec_update_callbacks(),
    {
        &self.update_callbacks
    }

    pub fn json_update_callbacks(&self) -> (r: &CallbackList<J>)
        ensures
            r@ == self.spec_json_update_callbacks(),
    {
        &self.json_update_callbacks
    }

    /// Without subscribers a record is neither copied nor turned into JSON,
    /// and this lasts through every later handler that keeps the subscriber
    /// lists (all but the `add_*_callback` ones): a connector `later` reached
    /// that way from `self` plans no conversion for any record either.
    pub proof fn lemma_no_subscribers_no_conversion(&self, later: &Self, device_id: Seq<char>)
        requires
            self.spec_update_callbacks().len() == 0,
            self.spec_json_update_callbacks().len() == 0,
            later.same_subscribers(self),
        ensures
            self.plan_for(device_id) == RecordPlan::UnknownDevice || self.plan_for(device_id)
                == (RecordPlan::Deliver { to_update: false, to_json: false }),
            later.plan_for(device_id) == RecordPlan::UnknownDevice || later.plan_for(device_id)
                == (RecordPlan::Deliver { to_update: false, to_json: false }),
    {
    }

    /// The init callbacks fire exactly once: the first store fires the
    /// subscribers registered before it, and a later store, reached through
    /// handlers that keep the fired mark, fires none.
    pub proof fn lemma_init_fires_once(
        first: &Self,
        after_first: &Self,
        fired_first: bool,
        second: &Self,
        after_second: &Self,
        fired_second: bool,
    )
        requires
            !first.spec_initialized(),
            first.store_step(after_first, fired_first),
            second.spec_initialized() == after_first.spec_initialized(),
            second.store_step(after_second, fired_second),
        ensures
            fired_first,
            after_first.spec_init_callbacks() == first.spec_init_callbacks(),
            !fired_second,
    {
    }
}

} // verus!
