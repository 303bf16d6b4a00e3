use vstd::prelude::*;

use crate::device::StateSnapshot;
use crate::error::Error;
use crate::home::{Home, RoomEntry};
use crate::room::DeviceEntry;

verus! {

/// One line of a home-wide report: the outcome of querying one device,
/// keyed by its room's name and its own name. A failed query is recorded
/// here instead of aborting the report.
#[derive(Debug, PartialEq, Eq)]
pub struct ReportEntry {
    pub room_name: String,
    pub device_name: String,
    pub state: Result<StateSnapshot, Error>,
}

/// A home-wide status report: one entry per device, room by room.
#[derive(Debug, PartialEq, Eq)]
pub struct Report {
    pub entries: Vec<ReportEntry>,
}

/// What one report entry says, over views.
pub open spec fn entry_view(e: ReportEntry) -> (Seq<char>, Seq<char>, Result<StateSnapshot, Error>) {
    (e.room_name@, e.device_name@, e.state)
}

/// What a sequence of report entries says, over views.
pub open spec fn entries_view(s: Seq<ReportEntry>) -> Seq<
    (Seq<char>, Seq<char>, Result<StateSnapshot, Error>),
>
    decreases s.len(),
{
    if s.len() == 0 {
        Seq::empty()
    } else {
        entries_view(s.drop_last()).push(entry_view(s.last()))
    }
}

/// What a whole report says, over views.
pub open spec fn report_view(r: Report) -> Seq<(Seq<char>, Seq<char>, Result<StateSnapshot, Error>)> {
    entries_view(r.entries@)
}

/// The line one device contributes to the report of the room named
/// `room_name`: the device's name and the outcome its state query would
/// have.
pub open spec fn device_line(room_name: Seq<char>, e: DeviceEntry) -> (
    Seq<char>,
    Seq<char>,
    Result<StateSnapshot, Error>,
) {
    (room_name, e.name@, e.device.state_outcome())
}

/// The lines a room's devices contribute to a report, one per device, in
/// order.
pub open spec fn room_report(room_name: Seq<char>, devices: Seq<DeviceEntry>) -> Seq<
    (Seq<char>, Seq<char>, Result<StateSnapshot, Error>),
>
    decreases devices.len(),
{
    if devices.len() == 0 {
        Seq::empty()
    } else {
        room_report(room_name, devices.drop_last()).push(device_line(room_name, devices.last()))
    }
}

/// The lines of a whole home's report: every room's contribution, in room
/// order.
pub open spec fn home_report(rooms: Seq<RoomEntry>) -> Seq<
    (Seq<char>, Seq<char>, Result<StateSnapshot, Error>),
>
    decreases rooms.len(),
{
    if rooms.len() == 0 {
        Seq::empty()
    } else {
        home_report(rooms.drop_last()) + room_report(
            rooms.last().name@,
            rooms.last().room.devices@,
        )
    }
}

impl Report {
    /// The report's entries, to read it out.
    pub fn entries(&self) -> (r: &Vec<ReportEntry>)
        ensures
            r == &self.entries,
    {
        &self.entries
    }
}

impl Home {
    /// Builds the home-wide status report: for every room, for every
    /// device, the outcome of querying that device's state, failures
    /// recorded entry by entry rather than propagated.
    #[verifier::loop_isolation(false)]
    pub fn state(&self) -> (r: Report)
        ensures
            report_view(r) == home_report(self.rooms@),
    {
        let mut entries: Vec<ReportEntry> = Vec::new();
        let rooms_len = self.rooms.len();
        let mut i: usize = 0;
        while i < rooms_len
            invariant
                i <= rooms_len,
                rooms_len == self.rooms@.len(),
                entries_view(entries@) == home_report(self.rooms@.take(i as int)),
            decreases rooms_len - i,
        {
            let room_entry = &self.rooms[i];
            let devices_len = room_entry.room.devices.len();
            let mut j: usize = 0;
            while j < devices_len
                invariant
                    j <= devices_len,
                    i < rooms_len,
                    rooms_len == self.rooms@.len(),
                    devices_len == room_entry.room.devices@.len(),
                    room_entry == &self.rooms@[i as int],
                    entries_view(entries@) == home_report(self.rooms@.take(i as int))
                        + room_report(
                        room_entry.name@,
                        room_entry.room.devices@.take(j as int),
                    ),
                decreases devices_len - j,
            {
                let device_entry = &room_entry.room.devices[j];
                let outcome = device_entry.device.state();
                let line = ReportEntry {
                    room_name: room_entry.name.clone(),
                    device_name: device_entry.name.clone(),
                    state: outcome,
                };
                let ghost pre = entries@;
                entries.push(line);
                proof {
                    let devs = room_entry.room.devices@;
                    assert(entries@.drop_last() =~= pre);
                    assert(entries@.last() == line);
                    assert(entry_view(line) == device_line(room_entry.name@, devs[j as int]));
                    assert(devs.take(j + 1).drop_last() =~= devs.take(j as int));
                    assert(devs.take(j + 1).last() == devs[j as int]);
                    assert(entries_view(entries@) == home_report(self.rooms@.take(i as int))
                        + room_report(room_entry.name@, devs.take(j + 1)));
                }
                j += 1;
            }
            proof {
                let devs = room_entry.room.devices@;
                assert(devs.take(devices_len as int) =~= devs);
                let upto = self.rooms@.take(i + 1);
                assert(upto.drop_last() =~= self.rooms@.take(i as int));
                assert(upto.last() == self.rooms@[i as int]);
                assert(home_report(upto) == home_report(self.rooms@.take(i as int)) + room_report(
                    room_entry.name@,
                    devs,
                ));
            }
            i += 1;
        }
        proof {
            assert(self.rooms@.take(rooms_len as int) =~= self.rooms@);
        }
        Report { entries }
    }
}

/// A report holds one line for every device of every room: its length is
/// the sum of the room sizes, and no device-level failure shortens it.
pub proof fn lemma_report_is_total(rooms: Seq<RoomEntry>)
    ensures
        home_report(rooms).len() == total_devices(rooms),
    decreases rooms.len(),
{
    if rooms.len() > 0 {
        lemma_report_is_total(rooms.drop_last());
        lemma_room_report_len(rooms.last().name@, rooms.last().room.devices@);
    }
}

/// A room's contribution has one line per device.
pub proof fn lemma_room_report_len(room_name: Seq<char>, devices: Seq<DeviceEntry>)
    ensures
        room_report(room_name, devices).len() == devices.len(),
    decreases devices.len(),
{
    if devices.len() > 0 {
        lemma_room_report_len(room_name, devices.drop_last());
    }
}

/// How many devices a sequence of rooms holds in all.
pub open spec fn total_devices(rooms: Seq<RoomEntry>) -> nat
    decreases rooms.len(),
{
    if rooms.len() == 0 {
        0
    } else {
        total_devices(rooms.drop_last()) + rooms.last().room.devices@.len()
    }
}

} // verus!
