use vstd::prelude::*;

verus! {

/// Which hand a controller is made for.
#[derive(Debug, Clone, Copy, PartialEq, Eq, Structural)]
pub enum JoyconDesignType {
    Left,
    Right,
}

/// How a controller looks: its body colour and its kind.
#[derive(Debug, Clone)]
pub struct JoyconDesign {
    pub color: String,
    pub design_type: JoyconDesignType,
}

impl JoyconDesign {
    /// A copy of the design.
    pub fn duplicate(&self) -> (r: JoyconDesign)
        ensures
            r == *self,
    {
        JoyconDesign { color: self.color.clone(), design_type: self.design_type }
    }
}

/// A controller that appeared or appeared again.
#[derive(Debug, Clone)]
pub struct JoyconDeviceInfo {
    pub serial_number: String,
    pub design: JoyconDesign,
}

/// One fused update from a controller: three raw axis frames of type `A`,
/// which this crate carries through without reading.
#[derive(Debug, Clone)]
pub struct JoyconData<A> {
    pub serial_number: String,
    pub imu_data: [A; 3],
}

/// A message from the producers of controller events.
#[derive(Debug, Clone)]
pub enum ChannelInfo<A> {
    Connected(JoyconDeviceInfo),
    Data(JoyconData<A>),
}

impl<A> ChannelInfo<A> {
    pub open spec fn spec_serial(&self) -> Seq<char> {
        match self {
            ChannelInfo::Connected(info) => info.serial_number@,
            ChannelInfo::Data(data) => data.serial_number@,
        }
    }

    /// The serial number of the controller that the message is about.
    pub fn serial_number(&self) -> (r: &String)
        ensures
            r@ == self.spec_serial(),
    {
        match self {
            ChannelInfo::Connected(info) => &info.serial_number,
            ChannelInfo::Data(data) => &data.serial_number,
        }
    }
}

/// A registered controller and the sensor id it was given.
#[derive(Debug, Clone)]
pub struct Device {
    pub serial_number: String,
    pub design: JoyconDesign,
    pub id: u8,
}

/// The sensor id owed to the device registered at position `i`: its position,
/// on the one byte that the wire gives a sensor id.
pub open spec fn id_at(i: int) -> u8 {
    (i % 256) as u8
}

/// Whether some device in `devs` has the serial `s`.
pub open spec fn has_serial(devs: Seq<Device>, s: Seq<char>) -> bool {
    exists|i: int| 0 <= i < devs.len() && #[trigger] devs[i].serial_number@ == s
}

/// The sensor id that `devs` gives the serial `s`, if it holds it.
pub open spec fn id_of(devs: Seq<Device>, s: Seq<char>) -> Option<u8> {
    if has_serial(devs, s) {
        let i = choose|i: int| 0 <= i < devs.len() && #[trigger] devs[i].serial_number@ == s;
        Some(devs[i].id)
    } else {
        None
    }
}

/// What registering a controller did.
#[derive(Debug, Clone, Copy, PartialEq, Eq, Structural)]
pub enum Registration {
    /// The serial was new and was given this sensor id.
    New { sensor_id: u8 },
    /// The serial was known already and keeps this sensor id.
    Known { sensor_id: u8 },
}

/// The registered controllers, in the order in which they were first seen.
pub struct Registry {
    devices: Vec<Device>,
}

impl View for Registry {
    type V = Seq<Device>;

    closed spec fn view(&self) -> Seq<Device> {
        self.devices@
    }
}

impl Registry {
    /// Each device holds its position's sensor id, and no serial appears twice.
    pub open spec fn wf(&self) -> bool {
        &&& forall|i: int| 0 <= i < self@.len() ==> #[trigger] self@[i].id == id_at(i)
        &&& forall|i: int, j: int|
            0 <= i < self@.len() && 0 <= j < self@.len() && i != j
                ==> #[trigger] self@[i].serial_number@ != #[trigger] self@[j].serial_number@
    }

    /// The devices after registering `info` on `devs`: unchanged when the
    /// serial is known, else one more at the end.
    pub open spec fn spec_register(devs: Seq<Device>, info: JoyconDeviceInfo) -> Seq<Device> {
        if has_serial(devs, info.serial_number@) {
            devs
        } else {
            devs.push(Device { serial_number: info.serial_number, design: info.design, id: id_at(devs.len() as int) })
        }
    }

    pub fn new() -> (r: Registry)
        ensures
            r.wf(),
            r@ == Seq::<Device>::empty(),
    {
        Registry { devices: Vec::new() }
    }

    pub fn len(&self) -> (r: usize)
        ensures
            r == self@.len(),
    {
        self.devices.len()
    }

    /// The devices in ascending order of sensor id.
    pub fn devices(&self) -> (r: &Vec<Device>)
        ensures
            r@ == self@,
    {
        &self.devices
    }

    /// Where the device with serial `serial` stands, if it is registered.
    pub fn position(&self, serial: &String) -> (r: Option<usize>)
        requires
            self.wf(),
        ensures
            r is None <==> !has_serial(self@, serial@),
            r matches Some(i) ==> i < self@.len() && self@[i as int].serial_number@ == serial@
                && id_of(self@, serial@) == Some(self@[i as int].id),
    {
        let mut i: usize = 0;
        while i < self.devices.len()
            invariant
                i <= self@.len(),
                self@ == self.devices@,
                self.wf(),
                forall|j: int| 0 <= j < i ==> #[trigger] self@[j].serial_number@ != serial@,
            decreases self.devices.len() - i,
        {
            if self.devices[i].serial_number == *serial {
                assert(has_serial(self@, serial@));
                let ghost k = choose|k: int|
                    0 <= k < self@.len() && #[trigger] self@[k].serial_number@ == serial@;
                assert(self@[k].serial_number@ == self@[i as int].serial_number@);
                assert(k == i as int);
                return Some(i);
            }
            i = i + 1;
        }
        None
    }

    /// The sensor id of the device with serial `serial`, if it is registered.
    pub fn lookup(&self, serial: &String) -> (r: Option<u8>)
        requires
            self.wf(),
        ensures
            r == id_of(self@, serial@),
    {
        match self.position(serial) {
            Some(i) => Some(self.devices[i].id),
            None => None,
        }
    }

    /// Registers a controller. A serial seen for the first time is added at
    /// the end with the registry's size as its sensor id; a known one keeps
    /// its place, its id and its design.
    pub fn register(&mut self, info: JoyconDeviceInfo) -> (r: Registration)
        requires
            old(self).wf(),
        ensures
            final(self).wf(),
            final(self)@ == Registry::spec_register(old(self)@, info),
            has_serial(old(self)@, info.serial_number@) ==> r == (Registration::Known {
                sensor_id: id_of(old(self)@, info.serial_number@).unwrap(),
            }),
            !has_serial(old(self)@, info.serial_number@) ==> r == (Registration::New {
                sensor_id: id_at(old(self)@.len() as int),
            }),
    {
        match self.lookup(&info.serial_number) {
            Some(id) => Registration::Known { sensor_id: id },
            None => {
                let n = self.devices.len();
                let id = (n % 256) as u8;
                let ghost s = info.serial_number@;
                self.devices.push(Device { serial_number: info.serial_number, design: info.design, id });
                assert forall|i: int, j: int|
                    0 <= i < self@.len() && 0 <= j < self@.len() && i != j
                        implies #[trigger] self@[i].serial_number@ != #[trigger] self@[j].serial_number@ by {
                    if i == n as int {
                        assert(self@[j] == old(self)@[j]);
                    } else if j == n as int {
                        assert(self@[i] == old(self)@[i]);
                    }
                }
                Registration::New { sensor_id: id }
            }
        }
    }
}

/// Sensor ids follow the order in which distinct serials were first seen:
/// the device at position `i` has id `i`, so while no more than 256 devices
/// are registered the ids rise strictly from 0.
pub proof fn lemma_ids_in_first_seen_order(r: Registry, i: int, j: int)
    requires
        r.wf(),
        0 <= i < j < r@.len(),
        r@.len() <= 256,
    ensures
        r@[i].id == i,
        r@[i].id < r@[j].id,
{
}

/// Registering a serial that is known already leaves every device, and so
/// every sensor id, as it was.
pub proof fn lemma_reconnect_keeps_id(r: Registry, info: JoyconDeviceInfo)
    requires
        r.wf(),
        has_serial(r@, info.serial_number@),
    ensures
        Registry::spec_register(r@, info) == r@,
        id_of(Registry::spec_register(r@, info), info.serial_number@) == id_of(r@, info.serial_number@),
{
}

/// The distinct serials of `ss`, each where it first occurs.
pub open spec fn first_seen(ss: Seq<Seq<char>>) -> Seq<Seq<char>>
    decreases ss.len(),
{
    if ss.len() == 0 {
        Seq::empty()
    } else {
        let prev = first_seen(ss.drop_last());
        if prev.contains(ss.last()) {
            prev
        } else {
            prev.push(ss.last())
        }
    }
}

/// The devices that registering `infos` in order, on an empty registry, yields.
pub open spec fn registered(infos: Seq<JoyconDeviceInfo>) -> Seq<Device>
    decreases infos.len(),
{
    if infos.len() == 0 {
        Seq::empty()
    } else {
        Registry::spec_register(registered(infos.drop_last()), infos.last())
    }
}

pub open spec fn serials_of(devs: Seq<Device>) -> Seq<Seq<char>> {
    devs.map_values(|d: Device| d.serial_number@)
}

/// Registering any sequence of controllers on an empty registry gives one
/// device per distinct serial, in the order in which the serials were first
/// seen, and the device at position `i` has sensor id `i` (on one byte).
pub proof fn lemma_registration_sequence(infos: Seq<JoyconDeviceInfo>)
    ensures
        serials_of(registered(infos)) == first_seen(infos.map_values(|d: JoyconDeviceInfo| d.serial_number@)),
        forall|i: int| 0 <= i < registered(infos).len() ==> #[trigger] registered(infos)[i].id == id_at(i),
    decreases infos.len(),
{
    if infos.len() > 0 {
        let prefix = infos.drop_last();
        lemma_registration_sequence(prefix);
        let devs = registered(prefix);
        let ss = infos.map_values(|d: JoyconDeviceInfo| d.serial_number@);
        assert(ss.drop_last() == prefix.map_values(|d: JoyconDeviceInfo| d.serial_number@));
        let s = infos.last().serial_number@;
        assert(ss.last() == s);
        let seen = first_seen(ss.drop_last());
        assert(serials_of(devs) == seen);
        if has_serial(devs, s) {
            let i = choose|i: int| 0 <= i < devs.len() && #[trigger] devs[i].serial_number@ == s;
            assert(seen[i] == s);
        } else {
            assert(!seen.contains(s)) by {
                if seen.contains(s) {
                    let k = choose|k: int| 0 <= k < seen.len() && seen[k] == s;
                    assert(devs[k].serial_number@ == s);
                }
            }
            assert(serials_of(registered(infos)) == seen.push(s));
        }
    }
}

} // verus!
