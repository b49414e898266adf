//! Choices of the appearance page that come from the system: the monitor
//! list and the light or dark theme.
use crate::media::strings_view;
use crate::text::{decimal_spec, push_decimal, str_eq};
use vstd::prelude::*;

verus! {

/// An active display adapter output: its device name and, when the system
/// could tell, its friendly monitor name.
#[derive(Debug)]
pub struct DisplayDevice {
    pub name: String,
    pub friendly: Option<String>,
}

/// The name shown for a monitor: its friendly name when it has a non-empty
/// one, its device name otherwise.
pub open spec fn device_label(d: DisplayDevice) -> Seq<char> {
    match d.friendly {
        Some(f) => if f@.len() > 0 { f@ } else { d.name@ },
        None => d.name@,
    }
}

/// The monitor choices: "Display n: name" for the n-th active monitor,
/// counting from one, or a single "Primary" when none was found.
pub open spec fn monitor_labels_spec(devices: Seq<DisplayDevice>) -> Seq<Seq<char>> {
    if devices.len() == 0 {
        seq!["Primary"@]
    } else {
        Seq::new(
            devices.len(),
            |i: int| "Display "@ + decimal_spec((i + 1) as nat) + ": "@ + device_label(devices[i]),
        )
    }
}

/// Builds the monitor choices from the active monitors, in system order.
pub fn monitor_labels(devices: &Vec<DisplayDevice>) -> (labels: Vec<String>)
    ensures
        strings_view(labels@) == monitor_labels_spec(devices@),
{
    let mut labels: Vec<String> = Vec::new();
    if devices.len() == 0 {
        labels.push("Primary".to_owned());
        proof {
            reveal_strlit("Primary");
        }
        assert(strings_view(labels@) =~= monitor_labels_spec(devices@));
        return labels;
    }
    let mut i: usize = 0;
    while i < devices.len()
        invariant
            i <= devices@.len(),
            devices@.len() > 0,
            strings_view(labels@) == monitor_labels_spec(devices@).take(i as int),
        decreases devices@.len() - i,
    {
        let device = &devices[i];
        let mut label = "Display ".to_owned();
        push_decimal(&mut label, (i + 1) as u64);
        label.append(": ");
        match &device.friendly {
            Some(friendly) => {
                if friendly.as_str().is_empty() {
                    label.append(device.name.as_str());
                } else {
                    label.append(friendly.as_str());
                }
            },
            None => label.append(device.name.as_str()),
        }
        proof {
            reveal_strlit("Display ");
            reveal_strlit(": ");
        }
        let ghost before = labels@;
        labels.push(label);
        assert(strings_view(labels@) =~= strings_view(before).push(labels@[i as int]@));
        assert(strings_view(labels@) =~= monitor_labels_spec(devices@).take(i + 1));
        i += 1;
    }
    assert(monitor_labels_spec(devices@).take(devices@.len() as int) =~= monitor_labels_spec(devices@));
    labels
}

/// Each active monitor is offered as "Display n: " and a name: its friendly
/// name when the system gave a non-empty one, its device name otherwise,
/// also when the friendly name could not be read. A monitor with a device
/// name is thus never offered without a name.
pub proof fn lemma_monitor_label_names_monitor(devices: Seq<DisplayDevice>, i: int)
    requires
        0 <= i < devices.len(),
    ensures
        ({
            let prefix = "Display "@ + decimal_spec((i + 1) as nat) + ": "@;
            let label = monitor_labels_spec(devices)[i];
            let d = devices[i];
            &&& monitor_labels_spec(devices).len() == devices.len()
            &&& d.friendly is None ==> label == prefix + d.name@
            &&& d.friendly matches Some(f) ==> if f@.len() > 0 {
                label == prefix + f@
            } else {
                label == prefix + d.name@
            }
            &&& d.name@.len() > 0 ==> label.len() > prefix.len()
        }),
{
}

/// The settings theme: "light" and "dark" force it; anything else follows
/// the window's system theme, dark when there is no window.
pub fn theme_is_light(setting: &str, system_light: Option<bool>) -> (light: bool)
    ensures
        light == if setting@ == "light"@ {
            true
        } else if setting@ == "dark"@ {
            false
        } else {
            system_light == Some(true)
        },
{
    if str_eq(setting, "light") {
        true
    } else if str_eq(setting, "dark") {
        false
    } else {
        match system_light {
            Some(light) => light,
            None => false,
        }
    }
}

/// Takes a snapshot only when its revision differs from the last one taken;
/// answers whether it was new.
pub fn accept_revision(last: &mut u64, revision: u64) -> (fresh: bool)
    ensures
        fresh == (revision != *old(last)),
        *final(last) == revision,
{
    if revision == *last {
        return false;
    }
    *last = revision;
    true
}

/// The periodic monitor check moves the island when the target monitor's
/// size or position changed and the monitor has an area.
pub fn monitor_moved(
    current_size: (u32, u32),
    current_pos: (i32, i32),
    known_size: (u32, u32),
    known_pos: (i32, i32),
) -> (moved: bool)
    ensures
        moved == ((current_size != known_size || current_pos != known_pos) && current_size.0 > 0
            && current_size.1 > 0),
{
    let changed = current_size.0 != known_size.0 || current_size.1 != known_size.1
        || current_pos.0 != known_pos.0 || current_pos.1 != known_pos.1;
    changed && current_size.0 > 0 && current_size.1 > 0
}

} // verus!
