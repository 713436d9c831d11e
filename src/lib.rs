//! Decision core of a bridge from Joy-Con motion controllers to a full-body
//! tracking receiver: the device registry, the connection state machine
//! against the receiver, the packets it owes the receiver, and the worker
//! that ties them together. Clocks, sockets, channels and the floating-point
//! sensor fusion live with the caller, which hands this crate plain values.
pub mod device;
pub mod link;
pub mod packet;
pub mod worker;

pub use device::{
    ChannelInfo, Device, JoyconData, JoyconDesign, JoyconDesignType, JoyconDeviceInfo, Registration, Registry,
};
pub use link::{Link, KEEPALIVE_TIMEOUT_MS, RETRY_INTERVAL_MS};
pub use packet::{handshake, sensor_info, Packet, FIRMWARE_NAME};
pub use worker::{DeviceStatus, Dispatch, Worker};
