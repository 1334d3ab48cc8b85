//! The values that cross the wireless link: the battery service that the
//! device offers, and the wire layouts of what it reads from the host.

use crate::interface::TimeOfDay;
use vstd::prelude::*;
use vstd::slice::slice_subrange;
use vstd::std_specs::convert::FromSpecImpl;

verus! {

/// The battery service of the device: one level that the host can read and
/// be notified of.
pub struct BatteryService {
    cccd_handle: u16,
    notifications_enabled: bool,
}

/// The battery service, as plain values.
pub struct BatteryServiceModel {
    /// The handle of the attribute by which the host subscribes.
    pub cccd_handle: u16,
    /// Whether the host asked for notifications, as far as it has said.
    pub notifications_enabled: bool,
}

/// The low bit of the first byte of a subscription write.
pub open spec fn subscription_flag(data: Seq<u8>) -> bool {
    data[0] % 2 == 1
}

impl BatteryServiceModel {
    /// Whether a write is a subscription write to this service.
    pub open spec fn accepts(self, handle: u16, data: Seq<u8>) -> bool {
        handle == self.cccd_handle && data.len() > 0
    }

    /// The service after a write to the attribute `handle`.
    pub open spec fn written(self, handle: u16, data: Seq<u8>) -> BatteryServiceModel {
        if self.accepts(handle, data) {
            BatteryServiceModel { notifications_enabled: subscription_flag(data), ..self }
        } else {
            self
        }
    }
}

impl View for BatteryService {
    type V = BatteryServiceModel;

    closed spec fn view(&self) -> BatteryServiceModel {
        BatteryServiceModel {
            cccd_handle: self.cccd_handle,
            notifications_enabled: self.notifications_enabled,
        }
    }
}

impl BatteryService {
    /// The service as registered, with the handle that the link layer gave
    /// to its subscription attribute. No host has subscribed yet.
    pub fn new(cccd_handle: u16) -> (service: BatteryService)
        ensures
            service@ == (BatteryServiceModel { cccd_handle, notifications_enabled: false }),
    {
        BatteryService { cccd_handle, notifications_enabled: false }
    }

    /// Takes a write of the host. A write to the subscription attribute
    /// records its low bit and returns it; any other write changes nothing.
    pub fn on_write(&mut self, handle: u16, data: &[u8]) -> (recorded: Option<bool>)
        ensures
            final(self)@ == old(self)@.written(handle, data@),
            recorded == if old(self)@.accepts(handle, data@) {
                Some(subscription_flag(data@))
            } else {
                None
            },
    {
        if handle == self.cccd_handle && data.len() > 0 {
            let first = data[0];
            assert((first & 0x01 != 0) == (first % 2 == 1)) by (bit_vector);
            let enabled = (first & 0x01) != 0;
            self.notifications_enabled = enabled;
            Some(enabled)
        } else {
            None
        }
    }

    /// Whether the host asked for notifications of the battery level.
    pub fn notifications_enabled(&self) -> (enabled: bool)
        ensures
            enabled == self@.notifications_enabled,
    {
        self.notifications_enabled
    }
}

/// The services that the device offers to the host.
pub struct Server {
    bas: BatteryService,
}

impl View for Server {
    type V = BatteryServiceModel;

    closed spec fn view(&self) -> BatteryServiceModel {
        self.bas@
    }
}

impl Server {
    /// A server that offers the battery service.
    pub fn new(bas: BatteryService) -> (server: Server)
        ensures
            server@ == bas@,
    {
        Server { bas }
    }

    /// Takes a write of the host and hands it to the battery service. No
    /// write leads to an event for the application.
    pub fn on_write(&mut self, handle: u16, data: &[u8]) -> (event: Option<()>)
        ensures
            final(self)@ == old(self)@.written(handle, data@),
            event is None,
    {
        let _ = self.bas.on_write(handle, data);
        None
    }

    /// The battery service.
    pub fn battery_service(&self) -> (bas: &BatteryService)
        ensures
            bas@ == self@,
    {
        &self.bas
    }
}

/// The value of an attribute as it is written or notified: up to 512 bytes.
#[derive(Clone, Copy, Debug)]
pub struct MyVec {
    data: [u8; 512],
    len: usize,
}

impl View for MyVec {
    type V = Seq<u8>;

    closed spec fn view(&self) -> Seq<u8> {
        self.data@.take(self.len as int)
    }
}

impl MyVec {
    /// Smallest size of a value on the wire.
    pub const MIN_SIZE: usize = 1;

    /// Largest size of a value on the wire.
    pub const MAX_SIZE: usize = 512;

    /// The length is within the buffer.
    pub closed spec fn wf(&self) -> bool {
        self.len <= 512
    }

    /// The value that holds the bytes of `data`.
    pub fn from_gatt(data: &[u8]) -> (value: MyVec)
        requires
            data@.len() <= 512,
        ensures
            value.wf(),
            value@ == data@,
    {
        let mut saved_data = [0u8; 512];
        let mut i: usize = 0;
        while i < data.len()
            invariant
                i <= data@.len() <= 512,
                forall|j: int| 0 <= j < i ==> saved_data@[j] == data@[j],
            decreases data@.len() - i,
        {
            saved_data[i] = data[i];
            i += 1;
        }
        let value = MyVec { data: saved_data, len: data.len() };
        assert(value@ =~= data@);
        value
    }

    /// The bytes of the value.
    pub fn to_gatt(&self) -> (bytes: &[u8])
        requires
            self.wf(),
        ensures
            bytes@ == self@,
    {
        slice_subrange(self.data.as_slice(), 0, self.len)
    }
}

/// The time that the host reports: a record of ten bytes. The fields are
/// kept as the host sent them.
#[derive(Clone, Copy, Debug, PartialEq, Eq, Structural)]
pub struct CurrentTime {
    pub year: u16,
    pub month: u8,
    pub day: u8,
    pub hours: u8,
    pub minutes: u8,
    pub seconds: u8,
    pub day_of_week: u8,
    pub fractions_256: u8,
    pub adjust_reason: u8,
}

/// Size in bytes of the time record on the wire.
pub const CURRENT_TIME_SIZE: usize = 10;

impl CurrentTime {
    /// The record that ten bytes on the wire stand for: the year in two
    /// bytes, low byte first, then one byte for each other field.
    pub open spec fn decoded(data: Seq<u8>) -> CurrentTime {
        CurrentTime {
            year: (data[0] + 256 * data[1]) as u16,
            month: data[2],
            day: data[3],
            hours: data[4],
            minutes: data[5],
            seconds: data[6],
            day_of_week: data[7],
            fractions_256: data[8],
            adjust_reason: data[9],
        }
    }

    /// The record whose fields are all zero.
    pub open spec fn zero() -> CurrentTime {
        CurrentTime {
            year: 0,
            month: 0,
            day: 0,
            hours: 0,
            minutes: 0,
            seconds: 0,
            day_of_week: 0,
            fractions_256: 0,
            adjust_reason: 0,
        }
    }

    /// The time of day of the record.
    pub open spec fn time_of_day(self) -> TimeOfDay {
        TimeOfDay { hours: self.hours, minutes: self.minutes, seconds: self.seconds }
    }

    /// Reads the record from its bytes on the wire.
    pub fn from_gatt(data: &[u8]) -> (time: CurrentTime)
        requires
            data@.len() >= CURRENT_TIME_SIZE,
        ensures
            time == CurrentTime::decoded(data@),
    {
        CurrentTime {
            year: data[0] as u16 + 256 * (data[1] as u16),
            month: data[2],
            day: data[3],
            hours: data[4],
            minutes: data[5],
            seconds: data[6],
            day_of_week: data[7],
            fractions_256: data[8],
            adjust_reason: data[9],
        }
    }

    /// Reads the record from a value of the link, where the value has the
    /// size of a record.
    pub fn try_from_gatt(data: &[u8]) -> (time: Option<CurrentTime>)
        ensures
            time == if data@.len() == CURRENT_TIME_SIZE {
                Some(CurrentTime::decoded(data@))
            } else {
                None
            },
    {
        if data.len() == CURRENT_TIME_SIZE {
            Some(CurrentTime::from_gatt(data))
        } else {
            None
        }
    }
}

impl Default for CurrentTime {
    /// The record of all zeros.
    fn default() -> (time: CurrentTime)
        ensures
            time == CurrentTime::zero(),
    {
        CurrentTime {
            year: 0,
            month: 0,
            day: 0,
            hours: 0,
            minutes: 0,
            seconds: 0,
            day_of_week: 0,
            fractions_256: 0,
            adjust_reason: 0,
        }
    }
}

impl From<CurrentTime> for TimeOfDay {
    fn from(value: CurrentTime) -> (time: TimeOfDay) {
        TimeOfDay { hours: value.hours, minutes: value.minutes, seconds: value.seconds }
    }
}

impl FromSpecImpl<CurrentTime> for TimeOfDay {
    open spec fn obeys_from_spec() -> bool {
        true
    }

    open spec fn from_spec(value: CurrentTime) -> TimeOfDay {
        value.time_of_day()
    }
}

} // verus!
