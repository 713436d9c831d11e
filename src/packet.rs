use vstd::prelude::*;

verus! {

/// The firmware name that the handshake gives the receiver.
pub const FIRMWARE_NAME: &'static str = "slimevr-wrangler";

/// The outbound packets whose fields are all fixed by the protocol state: the
/// handshake that opens a session with the receiver, and the sensor-info
/// packet that announces one tracker slot. Their binary encoding belongs to
/// the caller's codec; the field values here are the ones to encode.
#[derive(Debug)]
pub enum Packet {
    Handshake {
        packet_id: u64,
        board: i32,
        imu: i32,
        mcu_type: i32,
        imu_info: (i32, i32, i32),
        build: i32,
        firmware: String,
        mac_address: [u8; 6],
    },
    SensorInfo { packet_id: u64, sensor_id: u8, sensor_status: u8, sensor_type: u8 },
}

/// The fixed hardware address that the handshake reports.
pub open spec fn handshake_mac() -> Seq<u8> {
    seq![0x00u8, 0x0Fu8, 0x00u8, 0x0Fu8, 0x00u8, 0x0Fu8]
}

/// Whether `p` is the handshake packet: every number zero, this bridge's
/// firmware name, and the fixed hardware address.
pub open spec fn is_handshake(p: Packet) -> bool {
    match p {
        Packet::Handshake { packet_id, board, imu, mcu_type, imu_info, build, firmware, mac_address } => {
            &&& packet_id == 0 && board == 0 && imu == 0 && mcu_type == 0 && build == 0
            &&& imu_info == (0i32, 0i32, 0i32)
            &&& firmware@ == FIRMWARE_NAME@
            &&& mac_address@ == handshake_mac()
        },
        _ => false,
    }
}

/// The sensor-info packet that announces sensor `sensor_id` as present.
pub open spec fn spec_sensor_info(sensor_id: u8) -> Packet {
    Packet::SensorInfo { packet_id: 0, sensor_id, sensor_status: 1, sensor_type: 0 }
}

/// The handshake packet.
pub fn handshake() -> (r: Packet)
    ensures
        is_handshake(r),
{
    Packet::Handshake {
        packet_id: 0,
        board: 0,
        imu: 0,
        mcu_type: 0,
        imu_info: (0, 0, 0),
        build: 0,
        firmware: FIRMWARE_NAME.to_owned(),
        mac_address: [0x00, 0x0F, 0x00, 0x0F, 0x00, 0x0F],
    }
}

/// The sensor-info packet for `sensor_id`.
pub fn sensor_info(sensor_id: u8) -> (r: Packet)
    ensures
        r == spec_sensor_info(sensor_id),
{
    Packet::SensorInfo { packet_id: 0, sensor_id, sensor_status: 1, sensor_type: 0 }
}

} // verus!
