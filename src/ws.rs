use vstd::prelude::*;
use crate::capability::SensorCapability;
use crate::clock::now_epoch_millis;
use crate::errors::OdinSentinelError;
use crate::text::{clone_strings, decimal_string, spec_decimal};
use vstd::string::StringExecFns;

verus! {

/// Frames the server sends on the websocket, tagged by their event name.
#[derive(Debug, Clone, PartialEq)]
pub enum WsMsg {
    Connected { message: String },
    Join { device_ids: Vec<String>, message_id: String },
    Record { device_id: String, sensor_no: u32, rec_type: SensorCapability },
    Pong { request_time: u64, response_time: u64, message_id: String },
    /// `result` is empty when the frame has none
    TriggerAlert { device_ids: Vec<String>, message_id: String, result: String },
    Error { message: String },
}

/// Commands the connector sends on the websocket, tagged by their event name.
#[derive(Debug, Clone, PartialEq)]
pub enum WsCmd {
    /// `request_time` is in milliseconds since the Unix epoch
    Ping { request_time: u64, message_id: String },
    TriggerAlert { device_ids: Vec<String>, message_id: String },
    SwitchLights { device_ids: Vec<String>, light_type: String, state: String, message_id: String },
    SwitchValve { device_ids: Vec<String>, state: String, message_id: String },
}

impl WsMsg {
    pub open spec fn spec_event(&self) -> Seq<char> {
        match self {
            WsMsg::Connected { .. } => "connected"@,
            WsMsg::Join { .. } => "join"@,
            WsMsg::Record { .. } => "record"@,
            WsMsg::Pong { .. } => "pong"@,
            WsMsg::TriggerAlert { .. } => "trigger-alert"@,
            WsMsg::Error { .. } => "error"@,
        }
    }

    /// The wire name of the frame's event.
    pub fn event(&self) -> (r: &'static str)
        ensures
            r@ == self.spec_event(),
    {
        match self {
            WsMsg::Connected { .. } => "connected",
            WsMsg::Join { .. } => "join",
            WsMsg::Record { .. } => "record",
            WsMsg::Pong { .. } => "pong",
            WsMsg::TriggerAlert { .. } => "trigger-alert",
            WsMsg::Error { .. } => "error",
        }
    }
}

impl WsCmd {
    pub open spec fn spec_event(&self) -> Seq<char> {
        match self {
            WsCmd::Ping { .. } => "ping"@,
            WsCmd::TriggerAlert { .. } => "trigger-alert"@,
            WsCmd::SwitchLights { .. } => "switch-lights"@,
            WsCmd::SwitchValve { .. } => "switch-valve"@,
        }
    }

    /// The wire name of the command's event.
    pub fn event(&self) -> (r: &'static str)
        ensures
            r@ == self.spec_event(),
    {
        match self {
            WsCmd::Ping { .. } => "ping",
            WsCmd::TriggerAlert { .. } => "trigger-alert",
            WsCmd::SwitchLights { .. } => "switch-lights",
            WsCmd::SwitchValve { .. } => "switch-valve",
        }
    }

    /// A ping sent at `request_time` (epoch milliseconds).
    pub fn ping(request_time: u64, message_id: String) -> (r: WsCmd)
        ensures
            r == (WsCmd::Ping { request_time, message_id }),
    {
        WsCmd::Ping { request_time, message_id }
    }

    /// A ping stamped with the current time.
    pub fn new_ping(msg_id: &str) -> (r: WsCmd)
        ensures
            r is Ping,
            r->Ping_message_id@ == msg_id@,
    {
        let request_time = now_epoch_millis();
        WsCmd::Ping { request_time, message_id: String::from_str(msg_id) }
    }
}

/// Advances the message counter and renders its new value, the id of the
/// next message.
pub fn get_next_msg_id(msg_id: &mut u64) -> (r: String)
    requires
        *old(msg_id) < u64::MAX,
    ensures
        *final(msg_id) == *old(msg_id) + 1,
        r@ == spec_decimal(*final(msg_id) as nat),
{
    *msg_id = *msg_id + 1;
    decimal_string(*msg_id)
}

/// Where a websocket session stands.
#[derive(Debug, Clone, Copy, PartialEq, Eq, Structural)]
pub enum SessionPhase {
    /// waiting for the server's `connected` frame
    AwaitConnected,
    /// join sent, waiting for the server's `join` frame
    AwaitJoin,
    /// reading notifications
    Reading,
    /// ended by a protocol error or by the server closing the stream
    Closed,
}

/// What the session asks its driver to do after a frame.
#[derive(Debug, Clone, PartialEq)]
pub enum SessionAction {
    /// send this frame
    Send(WsMsg),
    /// fetch the latest record of this device, sensor and capability
    FetchRecord { device_id: String, sensor_no: u32, capability: SensorCapability },
    /// nothing to do; read the next frame
    Continue,
    /// the session ended with this error
    Fail(OdinSentinelError),
}

/// The client side of the websocket protocol: expect `connected`, send
/// `join`, expect `join`, then turn `record` notifications into fetches.
#[derive(Debug)]
pub struct WsSession {
    pub phase: SessionPhase,
    pub device_ids: Vec<String>,
    /// id of the last message sent
    pub msg_id: u64,
    /// time of the last pong, in epoch milliseconds
    pub last_recv_epoch: u64,
}

/// The message of the error for a frame that the protocol does not allow.
pub open spec fn unexpected_text(expected: Seq<char>, got: WsMsg) -> Seq<char> {
    "expected '"@ + expected + "' message, got '"@ + got.spec_event() + "'"@
}

/// The error for a frame that the protocol does not allow.
fn unexpected(expected: &str, got: &WsMsg) -> (r: OdinSentinelError)
    ensures
        r is WsProtocolError,
        r->WsProtocolError_0@ == unexpected_text(expected@, *got),
{
    let mut s = String::from_str("expected '");
    s.append(expected);
    s.append("' message, got '");
    s.append(got.event());
    s.append("'");
    OdinSentinelError::WsProtocolError(s)
}

impl WsSession {
    /// A session that will join `device_ids`.
    pub fn new(device_ids: Vec<String>) -> (r: Self)
        ensures
            r.phase == SessionPhase::AwaitConnected,
            r.device_ids == device_ids,
            r.msg_id == 0,
            r.last_recv_epoch == 0,
    {
        WsSession { phase: SessionPhase::AwaitConnected, device_ids, msg_id: 0, last_recv_epoch: 0 }
    }

    /// Handles a frame received at `now` (epoch milliseconds).
    pub fn on_message(&mut self, msg: WsMsg, now: u64) -> (r: SessionAction)
        ensures
            final(self).device_ids == old(self).device_ids,
            old(self).phase == SessionPhase::AwaitConnected && msg is Connected && old(self).msg_id
                < u64::MAX ==> {
                &&& final(self).phase == SessionPhase::AwaitJoin
                &&& final(self).msg_id == old(self).msg_id + 1
                &&& r is Send
                &&& r->Send_0 is Join
                &&& r->Send_0->Join_device_ids@ == old(self).device_ids@
                &&& r->Send_0->Join_message_id@ == spec_decimal(final(self).msg_id as nat)
            },
            old(self).phase == SessionPhase::AwaitConnected && msg is Connected && old(self).msg_id
                == u64::MAX ==> {
                &&& final(self).phase == SessionPhase::Closed
                &&& r is Fail
                &&& r->Fail_0 is OpFailed
            },
            old(self).phase == SessionPhase::AwaitConnected && !(msg is Connected) ==> {
                &&& final(self).phase == SessionPhase::Closed
                &&& r is Fail
                &&& r->Fail_0 is WsProtocolError
                &&& r->Fail_0->WsProtocolError_0@ == unexpected_text("connected"@, msg)
            },
            old(self).phase == SessionPhase::AwaitJoin && msg is Join ==> {
                &&& final(self).phase == SessionPhase::Reading
                &&& r == SessionAction::Continue
            },
            old(self).phase == SessionPhase::AwaitJoin && !(msg is Join) ==> {
                &&& final(self).phase == SessionPhase::Closed
                &&& r is Fail
                &&& r->Fail_0 is WsProtocolError
                &&& r->Fail_0->WsProtocolError_0@ == unexpected_text("join"@, msg)
            },
            old(self).phase == SessionPhase::Reading ==> {
                &&& final(self).phase == SessionPhase::Reading
                &&& final(self).msg_id == old(self).msg_id
                &&& match msg {
                    WsMsg::Record { device_id, sensor_no, rec_type } => r == (
                    SessionAction::FetchRecord { device_id, sensor_no, capability: rec_type }),
                    WsMsg::Pong { .. } => r == SessionAction::Continue && final(self).last_recv_epoch
                        == now,
                    _ => r == SessionAction::Continue && final(self).last_recv_epoch
                        == old(self).last_recv_epoch,
                }
            },
            old(self).phase == SessionPhase::Closed ==> *final(self) == *old(self) && r
                == SessionAction::Continue,
    {
        match self.phase {
            SessionPhase::AwaitConnected => {
                if let WsMsg::Connected { .. } = msg {
                    if self.msg_id == u64::MAX {
                        self.phase = SessionPhase::Closed;
                        return SessionAction::Fail(OdinSentinelError::OpFailed(
                            String::from_str("message ids exhausted"),
                        ));
                    }
                    let message_id = get_next_msg_id(&mut self.msg_id);
                    self.phase = SessionPhase::AwaitJoin;
                    SessionAction::Send(WsMsg::Join { device_ids: clone_strings(&self.device_ids), message_id })
                } else {
                    self.phase = SessionPhase::Closed;
                    SessionAction::Fail(unexpected("connected", &msg))
                }
            },
            SessionPhase::AwaitJoin => {
                if let WsMsg::Join { .. } = msg {
                    self.phase = SessionPhase::Reading;
                    SessionAction::Continue
                } else {
                    self.phase = SessionPhase::Closed;
                    SessionAction::Fail(unexpected("join", &msg))
                }
            },
            SessionPhase::Reading => {
                match msg {
                    WsMsg::Record { device_id, sensor_no, rec_type } => SessionAction::FetchRecord {
                        device_id,
                        sensor_no,
                        capability: rec_type,
                    },
                    WsMsg::Pong { .. } => {
                        self.last_recv_epoch = now;
                        SessionAction::Continue
                    },
                    _ => SessionAction::Continue,
                }
            },
            SessionPhase::Closed => SessionAction::Continue,
        }
    }

    /// Handles the end of the stream: the session is closed and the
    /// connector is told with `WsClosedError`.
    pub fn on_closed(&mut self) -> (r: OdinSentinelError)
        ensures
            final(self).phase == SessionPhase::Closed,
            final(self).device_ids == old(self).device_ids,
            r == OdinSentinelError::WsClosedError,
    {
        self.phase = SessionPhase::Closed;
        OdinSentinelError::WsClosedError
    }
}

} // verus!
