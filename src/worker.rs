use vstd::prelude::*;

use crate::device::{has_serial, id_at, id_of, ChannelInfo, JoyconDesign, Registration, Registry};
use crate::link::Link;
use crate::packet::{handshake, is_handshake, sensor_info, spec_sensor_info, Packet};

verus! {

/// What the caller owes the outside world after one controller message.
#[derive(Debug)]
pub enum Dispatch<A> {
    /// A serial seen for the first time got `sensor_id`: start its fusion
    /// state and send `packet` to the receiver now.
    Announce { sensor_id: u8, packet: Packet },
    /// A known serial came back: restart its fusion state; it keeps `sensor_id`.
    Reset { sensor_id: u8 },
    /// Feed the frames to the fusion state of sensor `sensor_id`, then send
    /// its rotation and, after it, its acceleration.
    Sample { sensor_id: u8, imu_data: [A; 3] },
    /// Data from a serial that never announced itself: nothing to do.
    Dropped,
}

/// One controller as the status snapshot shows it. Orientation and mount
/// rotation are added by the caller, who holds the fusion state and the
/// configuration.
#[derive(Debug, Clone)]
pub struct DeviceStatus {
    pub serial_number: String,
    pub design: JoyconDesign,
    pub sensor_id: u8,
    pub connected: bool,
}

/// The state that one worker loop owns: the registry of controllers and the
/// connection to the receiver.
pub struct Worker {
    pub registry: Registry,
    pub link: Link,
}

impl Worker {
    pub open spec fn wf(&self) -> bool {
        self.registry.wf()
    }

    /// A worker with no controllers, not connected, started at `now`.
    pub fn new(now: u64) -> (r: Worker)
        ensures
            r.wf(),
            r.registry@.len() == 0,
            r.link == Link::spec_new(now),
    {
        Worker { registry: Registry::new(), link: Link::new(now) }
    }

    /// While the receiver is not connected and the retry interval has passed,
    /// the handshake followed by one sensor-info packet per controller in
    /// ascending sensor-id order; otherwise nothing.
    pub fn retry_handshake(&mut self, now: u64) -> (r: Vec<Packet>)
        requires
            old(self).wf(),
        ensures
            final(self).registry == old(self).registry,
            old(self).link.spec_handshake_due(now) ==> {
                &&& final(self).link == old(self).link.spec_record_handshake(now)
                &&& r@.len() == old(self).registry@.len() + 1
                &&& is_handshake(r@[0])
                &&& forall|i: int|
                    0 <= i < old(self).registry@.len() ==> #[trigger] r@[i + 1] == spec_sensor_info(
                        old(self).registry@[i].id,
                    )
            },
            !old(self).link.spec_handshake_due(now) ==> final(self).link == old(self).link
                && r@.len() == 0,
    {
        let mut out: Vec<Packet> = Vec::new();
        if !self.link.handshake_due(now) {
            return out;
        }
        self.link.record_handshake(now);
        out.push(handshake());
        let devices = self.registry.devices();
        let mut i: usize = 0;
        while i < devices.len()
            invariant
                i <= devices@.len(),
                devices@ == self.registry@,
                out@.len() == i + 1,
                is_handshake(out@[0]),
                forall|j: int| 0 <= j < i ==> #[trigger] out@[j + 1] == spec_sensor_info(devices@[j].id),
            decreases devices.len() - i,
        {
            out.push(sensor_info(devices[i].id));
            i = i + 1;
        }
        out
    }

    /// Takes in one datagram from the receiver. Any datagram marks the
    /// receiver connected; a ping restarts the keep-alive timer and comes
    /// back, byte for byte, as the reply to send.
    pub fn receive(&mut self, now: u64, payload: Vec<u8>, is_ping: bool) -> (r: Option<Vec<u8>>)
        ensures
            final(self).registry == old(self).registry,
            final(self).link == old(self).link.spec_on_datagram(now, is_ping),
            is_ping ==> (r matches Some(reply) && reply@ == payload@),
            !is_ping ==> r is None,
    {
        self.link.on_datagram(now, is_ping);
        if is_ping {
            Some(payload)
        } else {
            None
        }
    }

    /// Drops the connection once a whole keep-alive timeout passed without a ping.
    pub fn check_keepalive(&mut self, now: u64)
        ensures
            final(self).registry == old(self).registry,
            final(self).link == old(self).link.spec_expire(now),
    {
        self.link.expire(now);
    }

    /// Applies one controller message to the registry and says what is owed
    /// for it.
    pub fn handle_message<A>(&mut self, msg: ChannelInfo<A>) -> (r: Dispatch<A>)
        requires
            old(self).wf(),
        ensures
            final(self).wf(),
            final(self).link == old(self).link,
            match msg {
                ChannelInfo::Connected(info) => {
                    &&& final(self).registry@ == Registry::spec_register(old(self).registry@, info)
                    &&& has_serial(old(self).registry@, info.serial_number@) ==> r == (Dispatch::<A>::Reset {
                        sensor_id: id_of(old(self).registry@, info.serial_number@).unwrap(),
                    })
                    &&& !has_serial(old(self).registry@, info.serial_number@) ==> r == (Dispatch::<A>::Announce {
                        sensor_id: id_at(old(self).registry@.len() as int),
                        packet: spec_sensor_info(id_at(old(self).registry@.len() as int)),
                    })
                },
                ChannelInfo::Data(data) => {
                    &&& final(self).registry@ == old(self).registry@
                    &&& id_of(old(self).registry@, data.serial_number@) matches Some(id) ==> r == (Dispatch::Sample {
                        sensor_id: id,
                        imu_data: data.imu_data,
                    })
                    &&& id_of(old(self).registry@, data.serial_number@) is None ==> r == Dispatch::<A>::Dropped
                },
            },
    {
        match msg {
            ChannelInfo::Connected(info) => match self.registry.register(info) {
                Registration::New { sensor_id } => Dispatch::Announce { sensor_id, packet: sensor_info(sensor_id) },
                Registration::Known { sensor_id } => Dispatch::Reset { sensor_id },
            },
            ChannelInfo::Data(data) => match self.registry.lookup(&data.serial_number) {
                Some(sensor_id) => Dispatch::Sample { sensor_id, imu_data: data.imu_data },
                None => Dispatch::Dropped,
            },
        }
    }

    /// The snapshot of every controller in ascending sensor-id order, each
    /// with the connection flag of the receiver.
    pub fn status(&self) -> (r: Vec<DeviceStatus>)
        ensures
            r@.len() == self.registry@.len(),
            forall|i: int|
                0 <= i < r@.len() ==> {
                    &&& (#[trigger] r@[i]).serial_number@ == self.registry@[i].serial_number@
                    &&& r@[i].design == self.registry@[i].design
                    &&& r@[i].sensor_id == self.registry@[i].id
                    &&& r@[i].connected == self.link.connected
                },
    {
        let devices = self.registry.devices();
        let mut out: Vec<DeviceStatus> = Vec::new();
        let mut i: usize = 0;
        while i < devices.len()
            invariant
                i <= devices@.len(),
                devices@ == self.registry@,
                out@.len() == i,
                forall|j: int|
                    0 <= j < i ==> {
                        &&& (#[trigger] out@[j]).serial_number@ == devices@[j].serial_number@
                        &&& out@[j].design == devices@[j].design
                        &&& out@[j].sensor_id == devices@[j].id
                        &&& out@[j].connected == self.link.connected
                    },
            decreases devices.len() - i,
        {
            let d = &devices[i];
            out.push(DeviceStatus {
                serial_number: d.serial_number.clone(),
                design: d.design.duplicate(),
                sensor_id: d.id,
                connected: self.link.connected,
            });
            i = i + 1;
        }
        out
    }
}

} // verus!
