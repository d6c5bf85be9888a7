//! Connector library for live multi-sensor telemetry of field devices ("sentinels").
//!
//! The library holds the verified core:
//! - `records`, `capability`: the data model of devices, sensors and records;
//! - `history`: bounded newest-first record histories (`sort_in_record`);
//! - `sentinel`, `store`: the per-device histories of every capability and the
//!   store of all devices, in insertion order;
//! - `callbacks`, `keyed`: subscriber lists by id;
//! - `json`, `codec`, `frames`, `snapshot`: the wire format of REST responses,
//!   records, websocket frames and store snapshots;
//! - `http`: request URIs and the bootstrap's query plan;
//! - `ws`: the websocket session protocol, `clock`: the current time;
//! - `connector`: the connector state machine.
//!
//! Transport (HTTP, websocket I/O, timers, JSON text) is performed by the
//! embedding program, which feeds events into these state machines and carries
//! out the actions they return.

pub mod errors;
pub mod capability;
pub mod records;
pub mod history;
pub mod text;
pub mod clock;
pub mod sentinel;
pub mod keyed;
pub mod store;
pub mod callbacks;
pub mod config;
pub mod ws;
pub mod connector;
pub mod http;
pub mod json;
pub mod codec;
pub mod frames;
pub mod snapshot;

pub use errors::{no_data, op_failed, OdinSentinelError, Result};
pub use capability::{CapabilityProvider, SensorCapability};
pub use records::{
    Device, DeviceList, ImageData, RecordId, RecordList, SensorData, SensorList, SensorRecord,
    ValveData, VocData,
};
pub use history::{sort_in_record, sort_in_records};
pub use sentinel::{PayloadJson, PayloadTypes, RecordBatch, Sentinel, SentinelUpdate};
pub use store::SentinelStore;
pub use callbacks::CallbackList;
pub use config::SentinelConfig;
pub use ws::{get_next_msg_id, SessionAction, SessionPhase, WsCmd, WsMsg, WsSession};
pub use connector::{
    AddInitCallback, AddJsonUpdateCallback, AddUpdateCallback, ConnectorPhase, ErrorAction, RecordPlan,
    SentinelConnector, StoreActions, TriggerJsonSnapshot,
};
