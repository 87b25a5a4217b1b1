//! Bot runtime for a cloud messaging platform: command parsing, device
//! provisioning decisions and the realtime transport's state machine.

pub mod adaptive_card;
pub mod error;
pub mod parser;
pub mod service;
pub mod types;
pub mod utils;
pub mod websocket;

use crate::error::WebexClientError;
use crate::types::{Device, DeviceDetails, DevicesDetails};
use crate::utils::str_eq;
use vstd::prelude::*;

verus! {

/// The name under which the runtime registers its device.
pub open spec fn client_name() -> Seq<char> {
    "rust-spark-client"@
}

/// Whether `i` is the position of the first device called `name`.
pub open spec fn is_first_named(devices: Seq<DeviceDetails>, name: Seq<char>, i: int) -> bool {
    &&& 0 <= i < devices.len()
    &&& devices[i].name@ == name
    &&& forall|j: int| 0 <= j < i ==> (#[trigger] devices[j]).name@ != name
}

/// The first device called `name`, by exact match of the name.
pub open spec fn find_named(devices: Seq<DeviceDetails>, name: Seq<char>) -> Option<DeviceDetails>
    decreases devices.len(),
{
    if devices.len() == 0 {
        None
    } else if devices[0].name@ == name {
        Some(devices[0])
    } else {
        find_named(devices.drop_first(), name)
    }
}

/// `find_named` gives the device at the first position that carries the
/// name, and nothing exactly where no device carries it.
pub proof fn lemma_find_named(devices: Seq<DeviceDetails>, name: Seq<char>)
    ensures
        forall|i: int| #[trigger]
            is_first_named(devices, name, i) ==> find_named(devices, name) == Some(devices[i]),
        find_named(devices, name) matches Some(device) ==> exists|i: int| #[trigger]
            is_first_named(devices, name, i) && devices[i] == device,
        find_named(devices, name) is None <==> forall|j: int|
            0 <= j < devices.len() ==> (#[trigger] devices[j]).name@ != name,
    decreases devices.len(),
{
    if devices.len() == 0 {
    } else if devices[0].name@ == name {
        assert(is_first_named(devices, name, 0));
        assert forall|i: int| #[trigger] is_first_named(devices, name, i) implies find_named(
            devices,
            name,
        ) == Some(devices[i]) by {
            if i != 0 {
                assert(devices[0].name@ != name);
            }
        }
    } else {
        let rest = devices.drop_first();
        lemma_find_named(rest, name);
        assert forall|i: int| #[trigger] is_first_named(devices, name, i) implies find_named(
            devices,
            name,
        ) == Some(devices[i]) by {
            assert(i > 0);
            assert(rest[i - 1] == devices[i]);
            assert forall|j: int| 0 <= j < i - 1 implies (#[trigger] rest[j]).name@ != name by {
                assert(rest[j] == devices[j + 1]);
            }
            assert(is_first_named(rest, name, i - 1));
        }
        if find_named(devices, name) is Some {
            let k = choose|k: int| #[trigger]
                is_first_named(rest, name, k) && rest[k] == find_named(rest, name)->0;
            assert forall|j: int| 0 <= j < k + 1 implies (#[trigger] devices[j]).name@ != name by {
                if j > 0 {
                    assert(rest[j - 1] == devices[j]);
                }
            }
            assert(devices[k + 1] == rest[k]);
            assert(is_first_named(devices, name, k + 1));
        } else {
            assert forall|j: int| 0 <= j < devices.len() implies (#[trigger] devices[j]).name@
                != name by {
                if j > 0 {
                    assert(rest[j - 1] == devices[j]);
                }
            }
        }
        if forall|j: int| 0 <= j < devices.len() ==> (#[trigger] devices[j]).name@ != name {
            assert forall|j: int| 0 <= j < rest.len() implies (#[trigger] rest[j]).name@
                != name by {
                assert(rest[j] == devices[j + 1]);
            }
        }
    }
}

/// Whether a resolution asks the cloud for its devices first: it does unless
/// the caller says no.
pub open spec fn lists_devices(check_existing: Option<bool>) -> bool {
    check_existing != Some(false)
}

/// Whether `device` is the fixed descriptor that the runtime registers.
pub open spec fn is_descriptor(device: Device) -> bool {
    &&& device.device_name@ == "rust-websocket-client"@
    &&& device.device_type@ == "DESKTOP"@
    &&& device.localized_model@ == "rust"@
    &&& device.model@ == "rust"@
    &&& device.name@ == client_name()
    &&& device.system_name@ == "rust-spark-client"@
    &&& device.system_version@ == "0.1"@
    &&& device.web_socket_url is None
}

/// The device that a resolution takes from the cloud's answer to the request
/// for its devices: the first one that carries the client's name, where the
/// devices were asked for and listed.
pub open spec fn existing_device(
    check_existing: Option<bool>,
    devices: Option<Seq<DeviceDetails>>,
) -> Option<DeviceDetails> {
    match devices {
        Some(list) if lists_devices(check_existing) => find_named(list, client_name()),
        _ => None,
    }
}

/// The record that a resolution ends with: the existing device or, where
/// there is none, what the creation gave.
pub open spec fn resolution(
    check_existing: Option<bool>,
    devices: Option<Seq<DeviceDetails>>,
    created: Option<DeviceDetails>,
) -> Result<DeviceDetails, WebexClientError> {
    match existing_device(check_existing, devices) {
        Some(device) => Ok(device),
        None => match created {
            Some(device) => Ok(device),
            None => Err(WebexClientError::CreationError),
        },
    }
}

/// The devices of a list as a mathematical value.
pub open spec fn devices_view(devices: Option<DevicesDetails>) -> Option<Seq<DeviceDetails>> {
    match devices {
        Some(list) => Some(list.devices@),
        None => None,
    }
}

/// The first step of a device resolution.
#[derive(Debug, Clone, PartialEq, Eq)]
pub enum DeviceLookup {
    /// The cloud knows the device: this is its record.
    Existing(DeviceDetails),
    /// The device is to be created from this descriptor.
    Create(Device),
}

/// The client of the messaging API for one bearer credential.
#[derive(Debug, Clone, PartialEq, Eq)]
pub struct WebexClient {
    pub bearer_token: String,
}

impl WebexClient {
    /// A client for the credential `token`.
    pub fn new(token: &str) -> (r: WebexClient)
        ensures
            r.bearer_token@ == token@,
    {
        WebexClient { bearer_token: token.to_owned() }
    }

    /// The fixed descriptor that the runtime registers its device with.
    pub fn device_descriptor() -> (r: Device)
        ensures
            is_descriptor(r),
    {
        Device {
            device_name: "rust-websocket-client".to_owned(),
            device_type: "DESKTOP".to_owned(),
            localized_model: "rust".to_owned(),
            model: "rust".to_owned(),
            name: "rust-spark-client".to_owned(),
            system_name: "rust-spark-client".to_owned(),
            system_version: "0.1".to_owned(),
            web_socket_url: None,
        }
    }

    /// Whether a resolution asks the cloud for its devices first. Without a
    /// word from the caller it does.
    pub fn checks_existing(check_existing: Option<bool>) -> (r: bool)
        ensures
            r == lists_devices(check_existing),
    {
        match check_existing {
            Some(wanted) => wanted,
            None => true,
        }
    }

    /// The position of the first device called `name`.
    pub fn find_device(devices: &Vec<DeviceDetails>, name: &str) -> (r: Option<usize>)
        ensures
            match r {
                Some(i) => is_first_named(devices@, name@, i as int) && find_named(devices@, name@)
                    == Some(devices@[i as int]),
                None => find_named(devices@, name@) is None,
            },
    {
        proof {
            lemma_find_named(devices@, name@);
        }
        let mut i: usize = 0;
        while i < devices.len()
            invariant
                i <= devices.len(),
                forall|j: int| 0 <= j < i ==> (#[trigger] devices@[j]).name@ != name@,
            decreases devices.len() - i,
        {
            if str_eq(devices[i].name.as_str(), name) {
                proof {
                    lemma_find_named(devices@, name@);
                    assert(is_first_named(devices@, name@, i as int));
                }
                return Some(i);
            }
            i = i + 1;
        }
        None
    }

    /// The first step of a device resolution, from what the cloud answered to
    /// the request for its devices (`None` where they were not asked for or
    /// not listed). The first device that carries the client's name is the
    /// one; where there is none, the device is to be created from the fixed
    /// descriptor.
    pub fn get_device_info(check_existing: Option<bool>, devices: Option<DevicesDetails>) -> (r:
        DeviceLookup)
        ensures
            match existing_device(check_existing, devices_view(devices)) {
                Some(device) => r == DeviceLookup::Existing(device),
                None => r matches DeviceLookup::Create(descriptor) && is_descriptor(descriptor),
            },
    {
        if Self::checks_existing(check_existing) {
            match devices {
                Some(list) => {
                    let mut items = list.devices;
                    match Self::find_device(&items, "rust-spark-client") {
                        Some(i) => {
                            let device = items.remove(i);
                            return DeviceLookup::Existing(device);
                        },
                        None => {},
                    }
                },
                None => {},
            }
        }
        DeviceLookup::Create(Self::device_descriptor())
    }

    /// The end of a device resolution that had to create the device, from
    /// what the cloud answered to the creation: the new record, or the
    /// failure where there is none.
    pub fn device_created(new_device: Option<DeviceDetails>) -> (r: Result<
        DeviceDetails,
        WebexClientError,
    >)
        ensures
            r == match new_device {
                Some(device) => Ok::<DeviceDetails, WebexClientError>(device),
                None => Err::<DeviceDetails, WebexClientError>(WebexClientError::CreationError),
            },
    {
        match new_device {
            Some(device) => Ok(device),
            None => Err(WebexClientError::CreationError),
        }
    }
}

/// The cloud's list after a resolution: as it was where the device was found
/// or nothing was created, with the new record at position `at` where the
/// resolution created it.
pub open spec fn devices_after(
    check_existing: Option<bool>,
    devices: Seq<DeviceDetails>,
    created: Option<DeviceDetails>,
    at: int,
) -> Seq<DeviceDetails> {
    match (existing_device(check_existing, Some(devices)), created) {
        (None, Some(device)) => devices.insert(at, device),
        _ => devices,
    }
}

/// Resolving twice gives the same record. After a resolution that looked at
/// the cloud's list and ended with a record, a second resolution against the
/// list as the first one left it finds that record there, so that it ends
/// with the same record and creates nothing, whatever a creation would give.
/// This holds of a cloud that registers a new device under the name that the
/// descriptor asks for.
pub proof fn law_device_resolution_is_idempotent(
    check_existing: Option<bool>,
    devices: Seq<DeviceDetails>,
    created: Option<DeviceDetails>,
    at: int,
    again: Option<DeviceDetails>,
)
    requires
        lists_devices(check_existing),
        created matches Some(device) ==> device.name@ == client_name(),
        0 <= at <= devices.len(),
    ensures
        ({
            let after = devices_after(check_existing, devices, created, at);
            resolution(check_existing, Some(devices), created) matches Ok(record) ==> {
                &&& existing_device(check_existing, Some(after)) == Some(record)
                &&& resolution(check_existing, Some(after), again) == Ok::<
                    DeviceDetails,
                    WebexClientError,
                >(record)
            }
        }),
{
    let after = devices_after(check_existing, devices, created, at);
    lemma_find_named(devices, client_name());
    lemma_find_named(after, client_name());
    if find_named(devices, client_name()) is None && created is Some {
        assert forall|j: int| 0 <= j < at implies (#[trigger] after[j]).name@ != client_name() by {
            assert(after[j] == devices[j]);
        }
        assert(after[at] == created->0);
        assert(is_first_named(after, client_name(), at));
    }
}

} // verus!
