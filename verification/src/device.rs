//! Choosing the MIDI device to listen to.

use vstd::prelude::*;

verus! {

/// What the MIDI transport tells about one of its devices.
#[derive(Clone, Copy, Debug, PartialEq, Eq, Structural)]
pub struct DeviceEntry {
    /// The id under which the transport opens the device.
    pub id: i32,
    /// Whether events can be read from the device.
    pub input: bool,
}

/// The position of the first device in `devices` that can be read from,
/// or the number of devices where there is none.
pub open spec fn first_input_position(devices: Seq<DeviceEntry>) -> int
    decreases devices.len(),
{
    if devices.len() == 0 {
        0
    } else if devices[0].input {
        0
    } else {
        1 + first_input_position(devices.drop_first())
    }
}

/// The device to listen to: the first in `devices` that can be read from.
pub open spec fn chosen_input(devices: Seq<DeviceEntry>) -> Option<i32> {
    let position = first_input_position(devices);
    if position < devices.len() {
        Some(devices[position].id)
    } else {
        None
    }
}

/// The first input position is within reach, names an input device where
/// it is below the number of devices, and has no input device before it.
pub proof fn first_input_position_is_first(devices: Seq<DeviceEntry>)
    ensures
        0 <= first_input_position(devices) <= devices.len(),
        first_input_position(devices) < devices.len() ==> devices[first_input_position(
            devices,
        )].input,
        forall|i: int| 0 <= i < first_input_position(devices) ==> !(#[trigger] devices[i]).input,
    decreases devices.len(),
{
    if devices.len() > 0 && !devices[0].input {
        let rest = devices.drop_first();
        first_input_position_is_first(rest);
        assert forall|i: int| 0 <= i < first_input_position(devices) implies !(
        #[trigger] devices[i]).input by {
            if i > 0 {
                assert(devices[i] == rest[i - 1]);
            }
        }
    }
}

/// A position that names an input device and has none before it is the
/// first input position.
pub proof fn first_input_position_is_unique(devices: Seq<DeviceEntry>, position: int)
    requires
        0 <= position <= devices.len(),
        position < devices.len() ==> devices[position].input,
        forall|i: int| 0 <= i < position ==> !(#[trigger] devices[i]).input,
    ensures
        first_input_position(devices) == position,
{
    first_input_position_is_first(devices);
    let first = first_input_position(devices);
    if first < position {
        assert(!devices[first].input);
    } else if position < first {
        assert(!devices[position].input);
    }
}

/// Picks the device to listen to: the id of the first entry that can be
/// read from, or nothing where no entry can.
pub fn select_input(devices: &[DeviceEntry]) -> (chosen: Option<i32>)
    ensures
        chosen == chosen_input(devices@),
        chosen is None <==> forall|i: int| 0 <= i < devices@.len() ==> !(#[trigger] devices@[i]).input,
{
    let count = devices.len();
    let mut index: usize = 0;
    while index < count
        invariant
            count == devices@.len(),
            index <= count,
            forall|i: int| 0 <= i < index ==> !(#[trigger] devices@[i]).input,
        decreases count - index,
    {
        if devices[index].input {
            proof {
                first_input_position_is_unique(devices@, index as int);
            }
            return Some(devices[index].id);
        }
        index += 1;
    }
    proof {
        first_input_position_is_unique(devices@, count as int);
    }
    None
}

} // verus!
