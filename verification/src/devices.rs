//! The device table, the manager that answers questions about it, and the
//! rules by which host devices become candidate ports.

use crate::drivers;
use crate::drivers::{Port, PortType, PortView};
use crate::gpsbabel::{GpsBabel, GpsBabelView};
use std::sync::Arc;
use vstd::prelude::*;
use vstd::string::StrSliceExecFns;

verus! {

/// Device static capability.
#[derive(Clone, Copy, Debug, PartialEq, Eq, Structural)]
pub struct Capability {
    /// The log can be erased as part of a download.
    pub can_erase: bool,
    /// The log can be erased without downloading it.
    pub can_erase_only: bool,
    pub can_log_enable: bool,
    pub can_shutoff: bool,
}

impl Capability {
    /// The capability of a model that nothing is known of: it can do nothing.
    pub open spec fn none() -> Capability {
        Capability {
            can_erase: false,
            can_erase_only: false,
            can_log_enable: false,
            can_shutoff: false,
        }
    }
}

impl Default for Capability {
    fn default() -> (capability: Capability)
        ensures
            capability == Capability::none(),
    {
        Capability {
            can_erase: false,
            can_erase_only: false,
            can_log_enable: false,
            can_shutoff: false,
        }
    }
}

/// Describe a device.
#[derive(Clone, Debug)]
pub struct Desc {
    pub id: String,
    pub label: String,
    pub cap: Capability,
    /// The id of the driver that handles the device.
    pub driver: String,
}

pub struct DescView {
    pub id: Seq<char>,
    pub label: Seq<char>,
    pub cap: Capability,
    pub driver: Seq<char>,
}

impl View for Desc {
    type V = DescView;

    open spec fn view(&self) -> DescView {
        DescView { id: self.id@, label: self.label@, cap: self.cap, driver: self.driver@ }
    }
}

impl DeepView for Desc {
    type V = DescView;

    open spec fn deep_view(&self) -> DescView {
        self@
    }
}

/// The subsystem of the host's serial devices.
pub const SERIAL_SUBSYSTEM: &'static str = "tty";

/// The property in which the host keeps the bus a device sits on.
pub const BUS_PROPERTY: &'static str = "ID_BUS";

/// The property in which the host keeps vendor and model as its database has
/// them.
pub const MODEL_PROPERTY: &'static str = "ID_MODEL_FROM_DATABASE";

/// What the host knows of one of its devices, as far as port discovery
/// looks at it.
#[derive(Debug)]
pub struct HostDevice {
    /// The subsystem the device belongs to, such as `tty`.
    pub subsystem: String,
    /// The name the system gave the device, such as `ttyUSB0`.
    pub sysname: String,
    /// Path of the device node.
    pub devnode: String,
    /// The value of `BUS_PROPERTY`, where the device has the property.
    pub bus: Option<String>,
    /// The value of `MODEL_PROPERTY`, where the device has the property.
    pub model: Option<String>,
}

pub struct HostDeviceView {
    pub subsystem: Seq<char>,
    pub sysname: Seq<char>,
    pub devnode: Seq<char>,
    pub bus: Option<Seq<char>>,
    pub model: Option<Seq<char>>,
}

impl View for HostDevice {
    type V = HostDeviceView;

    open spec fn view(&self) -> HostDeviceView {
        HostDeviceView {
            subsystem: self.subsystem@,
            sysname: self.sysname@,
            devnode: self.devnode@,
            bus: self.bus.deep_view(),
            model: self.model.deep_view(),
        }
    }
}

impl DeepView for HostDevice {
    type V = HostDeviceView;

    open spec fn deep_view(&self) -> HostDeviceView {
        self@
    }
}

/// Whether a system name is `rfcomm` followed by exactly one digit.
pub open spec fn is_rfcomm_name(name: Seq<char>) -> bool {
    &&& name.len() == 7
    &&& name.subrange(0, 6) == "rfcomm"@
    &&& '0' <= name[6] <= '9'
}

/// What to ask the host's device enumeration for in the pass for a port type.
#[derive(Debug)]
pub struct Query {
    /// The subsystem to enumerate.
    pub subsystem: &'static str,
    /// A property and the value it must have, where one is asked for.
    pub property: Option<(&'static str, &'static str)>,
    /// The pattern that the system name must match, where one is asked for.
    pub sysname: Option<&'static str>,
}

pub struct QueryView {
    pub subsystem: Seq<char>,
    pub property: Option<(Seq<char>, Seq<char>)>,
    pub sysname: Option<Seq<char>>,
}

impl View for Query {
    type V = QueryView;

    open spec fn view(&self) -> QueryView {
        QueryView {
            subsystem: self.subsystem@,
            property: self.property.deep_view(),
            sysname: self.sysname.deep_view(),
        }
    }
}

impl DeepView for Query {
    type V = QueryView;

    open spec fn deep_view(&self) -> QueryView {
        self@
    }
}

impl PortType {
    /// What the pass for this port type asks the host for: the serial
    /// devices on the USB bus, or the serial devices named `rfcomm` and one
    /// digit. For `NoPort` there is nothing to ask, and no pass to make.
    pub open spec fn query_of(self) -> Option<QueryView> {
        match self {
            PortType::NoPort => None,
            PortType::UsbSerial => Some(
                QueryView {
                    subsystem: "tty"@,
                    property: Some(("ID_BUS"@, "usb"@)),
                    sysname: None,
                },
            ),
            PortType::RfComm => Some(
                QueryView { subsystem: "tty"@, property: None, sysname: Some("rfcomm[0-9]"@) },
            ),
        }
    }

    /// What the pass for this port type asks the host for. Of what the host
    /// answers, `list_ports` keeps the devices that the port type `admits`.
    pub fn query(&self) -> (query: Option<Query>)
        ensures
            query.deep_view() == self.query_of(),
    {
        match self {
            PortType::NoPort => None,
            PortType::UsbSerial => Some(
                Query {
                    subsystem: SERIAL_SUBSYSTEM,
                    property: Some((BUS_PROPERTY, "usb")),
                    sysname: None,
                },
            ),
            PortType::RfComm => Some(
                Query { subsystem: SERIAL_SUBSYSTEM, property: None, sysname: Some("rfcomm[0-9]") },
            ),
        }
    }

    /// Whether a host device is of this port type. Both real port types are
    /// serial devices: a USB serial port sits on the USB bus, a Bluetooth
    /// serial port is known by its name. `NoPort` admits nothing.
    pub open spec fn admits(self, device: HostDeviceView) -> bool {
        match self {
            PortType::NoPort => false,
            PortType::UsbSerial => device.subsystem == "tty"@ && device.bus == Some("usb"@),
            PortType::RfComm => device.subsystem == "tty"@ && is_rfcomm_name(device.sysname),
        }
    }
}

/// The label of a device whose model the host does not know, before it is
/// put into the language of the user.
pub const UNKNOWN_LABEL: &'static str = "(Unknown)";

/// The port that a host device is listed as. Its label is the host's word for
/// the model, or `unknown` where the host has none.
pub open spec fn port_of(device: HostDeviceView, unknown: Seq<char>) -> PortView {
    PortView {
        id: device.sysname,
        label: match device.model {
            Some(model) => model,
            None => unknown,
        },
        path: device.devnode,
    }
}

/// The port of a host device if the port type admits it.
pub open spec fn port_for(port_type: PortType, device: HostDeviceView, unknown: Seq<char>) -> Option<
    PortView,
> {
    if port_type.admits(device) {
        Some(port_of(device, unknown))
    } else {
        None
    }
}

/// The ports that one pass contributes: those of the devices it found that
/// the port type admits, in the order found. A pass that failed, which is
/// `None`, contributes nothing.
pub open spec fn ports_of_pass(
    port_type: PortType,
    scan: Option<Seq<HostDeviceView>>,
    unknown: Seq<char>,
) -> Seq<PortView> {
    match scan {
        None => Seq::empty(),
        Some(devices) => devices.filter_map(|d: HostDeviceView| port_for(port_type, d, unknown)),
    }
}

/// What pass number `pass` found. A pass without a scan counts as failed.
pub open spec fn scan_of(scans: Seq<Option<Seq<HostDeviceView>>>, pass: int) -> Option<
    Seq<HostDeviceView>,
> {
    if 0 <= pass < scans.len() {
        scans[pass]
    } else {
        None
    }
}

/// The ports listed for a sequence of port types, pass `i` being the scan
/// made for port type `i`: what each pass contributes, one after the other
/// in the order asked. Nothing is left out for being there twice.
pub open spec fn listed_ports(
    port_types: Seq<PortType>,
    scans: Seq<Option<Seq<HostDeviceView>>>,
    unknown: Seq<char>,
) -> Seq<PortView>
    decreases port_types.len(),
{
    if port_types.len() == 0 {
        Seq::empty()
    } else {
        listed_ports(port_types.drop_last(), scans, unknown) + ports_of_pass(
            port_types.last(),
            scan_of(scans, port_types.len() - 1),
            unknown,
        )
    }
}

/// Whether `i` is the first place at which `key` stands in `ids`.
pub open spec fn first_at(ids: Seq<Seq<char>>, key: Seq<char>, i: int) -> bool {
    &&& 0 <= i < ids.len()
    &&& ids[i] == key
    &&& forall|j: int| 0 <= j < i ==> ids[j] != key
}

/// The first place at which `key` stands in `ids`, if it stands there at all.
pub open spec fn first_position(ids: Seq<Seq<char>>, key: Seq<char>) -> Option<int> {
    if exists|i: int| first_at(ids, key, i) {
        Some(choose|i: int| first_at(ids, key, i))
    } else {
        None
    }
}

/// A key has one first place at most, and `first_position` gives it.
pub proof fn lemma_first_position_found(ids: Seq<Seq<char>>, key: Seq<char>, i: int)
    requires
        first_at(ids, key, i),
    ensures
        first_position(ids, key) == Some(i),
{
    let k = choose|k: int| first_at(ids, key, k);
    assert(first_at(ids, key, k));
    if k < i {
        assert(ids[k] != key);
    }
    if i < k {
        assert(ids[i] != key);
    }
}

/// A key has a first place exactly if it stands in the sequence.
pub proof fn lemma_first_position_known(ids: Seq<Seq<char>>, key: Seq<char>)
    ensures
        first_position(ids, key) is Some <==> ids.contains(key),
    decreases ids.len(),
{
    if ids.contains(key) {
        let i = choose|i: int| 0 <= i < ids.len() && ids[i] == key;
        let front = ids.take(i);
        lemma_first_position_known(front, key);
        if front.contains(key) {
            let k = first_position(front, key)->0;
            assert(first_at(front, key, k));
            assert forall|j: int| 0 <= j < k implies ids[j] != key by {
                assert(front[j] != key);
            }
            assert(ids[k] == front[k]);
            assert(first_at(ids, key, k));
        } else {
            assert forall|j: int| 0 <= j < i implies ids[j] != key by {
                assert(front[j] == ids[j]);
            }
            assert(first_at(ids, key, i));
        }
    } else {
        if exists|i: int| first_at(ids, key, i) {
            let i = choose|i: int| first_at(ids, key, i);
            assert(ids[i] == key);
        }
    }
}

/// Whether a driver id names a device that the `gpsbabel` tool handles.
pub open spec fn is_gpsbabel_driver(id: Seq<char>) -> bool {
    ||| id == "baroiq"@
    ||| id == "dg-100"@
    ||| id == "dg-200"@
    ||| id == "navilink"@
    ||| id == "m241"@
    ||| id == "mtk"@
}

/// Whether two texts are the same.
fn same_text(a: &str, b: &str) -> (same: bool)
    ensures
        same == (a@ == b@),
{
    a.to_owned() == b.to_owned()
}

/// The device manager. Where the magic happens.
pub struct Manager {
    model: Option<String>,
    port: Option<String>,
    devices: Vec<Desc>,
    drivers: Vec<drivers::Desc>,
    device_filter: Option<Vec<PortType>>,
}

pub struct ManagerView {
    /// The selected model, if any.
    pub model: Option<Seq<char>>,
    /// The selected port, if any.
    pub port: Option<Seq<char>>,
    /// The device table, in the order it was loaded in.
    pub devices: Seq<DescView>,
    /// The driver table, in the order it was loaded in.
    pub drivers: Seq<drivers::DescView>,
    /// The port types of the selected model.
    pub device_filter: Option<Seq<PortType>>,
}

impl ManagerView {
    /// The ids of the device table, in table order.
    pub open spec fn device_ids(self) -> Seq<Seq<char>> {
        Seq::new(self.devices.len(), |i: int| self.devices[i].id)
    }

    /// The ids of the driver table, in table order.
    pub open spec fn driver_ids(self) -> Seq<Seq<char>> {
        Seq::new(self.drivers.len(), |i: int| self.drivers[i].id)
    }

    /// The first descriptor of the model `model`.
    pub open spec fn find_device(self, model: Seq<char>) -> Option<DescView> {
        match first_position(self.device_ids(), model) {
            Some(i) => Some(self.devices[i]),
            None => None,
        }
    }

    /// The first descriptor of the driver `id`.
    pub open spec fn find_driver(self, id: Seq<char>) -> Option<drivers::DescView> {
        match first_position(self.driver_ids(), id) {
            Some(i) => Some(self.drivers[i]),
            None => None,
        }
    }

    /// The capability of a model, if the model has a name and is listed.
    pub open spec fn device_capability(self, model: Seq<char>) -> Option<Capability> {
        if model.len() == 0 {
            None
        } else {
            match self.find_device(model) {
                Some(device) => Some(device.cap),
                None => None,
            }
        }
    }

    /// The capability of a model; that of a model that is not listed, or has
    /// no name, is to do nothing.
    pub open spec fn capability_for(self, model: Seq<char>) -> Capability {
        match self.device_capability(model) {
            Some(capability) => capability,
            None => Capability::none(),
        }
    }

    /// The port types to scan for a model: those of the driver that the
    /// model's descriptor names. Where the model is not listed, or names a
    /// driver that is not, it is `NoPort` alone, which matches nothing.
    pub open spec fn port_types_for(self, model: Seq<char>) -> Seq<PortType> {
        match self.find_device(model) {
            Some(device) => match self.find_driver(device.driver) {
                Some(driver) => driver.ports,
                None => seq![PortType::NoPort],
            },
            None => seq![PortType::NoPort],
        }
    }

    /// The driver for the current selection. There is one only when a model
    /// and a port are both selected, the model is listed, and its driver is
    /// one that the `gpsbabel` tool handles.
    pub open spec fn device(self) -> Option<GpsBabelView> {
        match (self.model, self.port) {
            (Some(model), Some(port)) => match self.find_device(model) {
                Some(device) => if is_gpsbabel_driver(device.driver) {
                    Some(GpsBabelView { device_id: device.driver, port, cap: device.cap })
                } else {
                    None
                },
                None => None,
            },
            _ => None,
        }
    }

    /// The manager after a model was selected.
    pub open spec fn with_model(self, model: Seq<char>) -> ManagerView {
        ManagerView {
            model: Some(model),
            device_filter: Some(self.port_types_for(model)),
            ..self
        }
    }

    /// The manager after a port was selected.
    pub open spec fn with_port(self, port: Seq<char>) -> ManagerView {
        ManagerView { port: Some(port), ..self }
    }

    /// The manager with nothing selected.
    pub open spec fn cleared(self) -> ManagerView {
        ManagerView { model: None, port: None, device_filter: None, ..self }
    }
}

/// A model that is not listed, or has no name, can do nothing.
pub proof fn lemma_unknown_model_can_do_nothing(manager: ManagerView, model: Seq<char>)
    requires
        model.len() == 0 || !manager.device_ids().contains(model),
    ensures
        manager.device_capability(model) is None,
        manager.capability_for(model) == Capability::none(),
{
    lemma_first_position_known(manager.device_ids(), model);
}

/// A model that is not listed is scanned for with `NoPort` alone, and so is
/// one whose driver is not listed.
pub proof fn lemma_unknown_model_matches_nothing(manager: ManagerView, model: Seq<char>)
    requires
        !manager.device_ids().contains(model) || (manager.find_device(model) matches Some(device)
            && !manager.driver_ids().contains(device.driver)),
    ensures
        manager.port_types_for(model) == seq![PortType::NoPort],
{
    lemma_first_position_known(manager.device_ids(), model);
    match manager.find_device(model) {
        Some(device) => {
            lemma_first_position_known(manager.driver_ids(), device.driver);
        },
        None => {},
    }
}

/// `NoPort` lists nothing, whatever the host holds.
pub proof fn lemma_no_port_lists_nothing(scan: Option<Seq<HostDeviceView>>, unknown: Seq<char>)
    ensures
        ports_of_pass(PortType::NoPort, scan, unknown) == Seq::<PortView>::empty(),
    decreases
            match scan {
                Some(devices) => devices.len(),
                None => 0,
            },
{
    match scan {
        Some(devices) => {
            if devices.len() > 0 {
                lemma_no_port_lists_nothing(Some(devices.drop_last()), unknown);
            }
        },
        None => {},
    }
}

/// No port is listed for a model that is not in the table, whatever the host
/// holds.
pub proof fn lemma_unknown_model_has_no_ports(
    manager: ManagerView,
    model: Seq<char>,
    scans: Seq<Option<Seq<HostDeviceView>>>,
    unknown: Seq<char>,
)
    requires
        !manager.device_ids().contains(model),
    ensures
        listed_ports(manager.port_types_for(model), scans, unknown) == Seq::<PortView>::empty(),
{
    lemma_unknown_model_matches_nothing(manager, model);
    let port_types = seq![PortType::NoPort];
    assert(port_types.drop_last() =~= Seq::<PortType>::empty());
    assert(listed_ports(port_types.drop_last(), scans, unknown) =~= Seq::<PortView>::empty());
    lemma_no_port_lists_nothing(scan_of(scans, 0), unknown);
    assert(listed_ports(port_types, scans, unknown) =~= Seq::<PortView>::empty());
}

/// Every model of the table is found under its id, and what is found is the
/// first descriptor of that id. Where no id stands twice in the table, that
/// is the descriptor itself.
pub proof fn lemma_listed_model_is_found(manager: ManagerView, i: int)
    requires
        0 <= i < manager.devices.len(),
    ensures
        manager.find_device(manager.devices[i].id) matches Some(device) && device.id
            == manager.devices[i].id,
        manager.device_ids().no_duplicates() ==> manager.find_device(manager.devices[i].id)
            == Some(manager.devices[i]),
{
    let ids = manager.device_ids();
    let key = manager.devices[i].id;
    assert(ids[i] == key);
    lemma_first_position_known(ids, key);
    let k = first_position(ids, key)->0;
    assert(first_at(ids, key, k));
    if ids.no_duplicates() && k != i {
        assert(ids[k] != ids[i]);
    }
}

impl View for Manager {
    type V = ManagerView;

    closed spec fn view(&self) -> ManagerView {
        ManagerView {
            model: self.model.deep_view(),
            port: self.port.deep_view(),
            devices: self.devices.deep_view(),
            drivers: self.drivers.deep_view(),
            device_filter: match self.device_filter {
                Some(filter) => Some(filter@),
                None => None,
            },
        }
    }
}

/// A copy of a list of port types.
fn copy_port_types(port_types: &Vec<PortType>) -> (copy: Vec<PortType>)
    ensures
        copy@ == port_types@,
{
    let mut copy: Vec<PortType> = Vec::new();
    let mut i: usize = 0;
    while i < port_types.len()
        invariant
            i <= port_types.len(),
            copy@ == port_types@.take(i as int),
        decreases port_types.len() - i,
    {
        copy.push(port_types[i]);
        assert(port_types@.take(i + 1) =~= port_types@.take(i as int).push(port_types@[i as int]));
        i += 1;
    }
    assert(port_types@.take(port_types@.len() as int) =~= port_types@);
    copy
}

/// Whether a system name is `rfcomm` followed by exactly one digit.
fn names_rfcomm(name: &str) -> (matches: bool)
    ensures
        matches == is_rfcomm_name(name@),
{
    if name.unicode_len() != 7 {
        return false;
    }
    let digit = name.get_char(6);
    same_text(name.substring_char(0, 6), "rfcomm") && '0' <= digit && digit <= '9'
}

/// Whether a port type admits a host device.
pub fn port_type_admits(port_type: PortType, device: &HostDevice) -> (admitted: bool)
    ensures
        admitted == port_type.admits(device@),
{
    match port_type {
        PortType::NoPort => false,
        PortType::UsbSerial => {
            let on_usb = match &device.bus {
                Some(bus) => same_text(bus.as_str(), "usb"),
                None => false,
            };
            same_text(device.subsystem.as_str(), SERIAL_SUBSYSTEM) && on_usb
        },
        PortType::RfComm => {
            same_text(device.subsystem.as_str(), SERIAL_SUBSYSTEM) && names_rfcomm(
                device.sysname.as_str(),
            )
        },
    }
}

/// Adds to `ports` what one pass contributes.
fn list_pass(port_type: PortType, devices: &Vec<HostDevice>, unknown: &str, ports: &mut Vec<Port>)
    ensures
        final(ports).deep_view() == old(ports).deep_view() + ports_of_pass(
            port_type,
            Some(devices.deep_view()),
            unknown@,
        ),
{
    let ghost before = ports.deep_view();
    let ghost found = devices.deep_view();
    let ghost pick = |d: HostDeviceView| port_for(port_type, d, unknown@);
    let mut i: usize = 0;
    assert(found.take(0).filter_map(pick) =~= Seq::<PortView>::empty());
    assert(ports.deep_view() =~= before + found.take(0).filter_map(pick));
    while i < devices.len()
        invariant
            i <= devices.len(),
            found == devices.deep_view(),
            pick == |d: HostDeviceView| port_for(port_type, d, unknown@),
            ports.deep_view() == before + found.take(i as int).filter_map(pick),
        decreases devices.len() - i,
    {
        let device = &devices[i];
        let ghost sofar = ports.deep_view();
        proof {
            found.lemma_filter_map_take_succ(pick, i as int);
            assert(found[i as int] == device@);
        }
        if port_type_admits(port_type, device) {
            let label = match &device.model {
                Some(model) => model.clone(),
                None => unknown.to_owned(),
            };
            let port = Port { id: device.sysname.clone(), label, path: device.devnode.clone() };
            assert(port@ == port_of(device@, unknown@));
            ports.push(port);
            assert(ports.deep_view() =~= sofar.push(port_of(device@, unknown@)));
            assert(ports.deep_view() =~= before + found.take(i + 1).filter_map(pick));
        } else {
            assert(ports.deep_view() =~= before + found.take(i + 1).filter_map(pick));
        }
        i += 1;
    }
    assert(found.take(found.len() as int) =~= found);
}

impl Manager {
    /// A manager of the given tables, with nothing selected.
    pub fn new(devices: Vec<Desc>, drivers: Vec<drivers::Desc>) -> (manager: Manager)
        ensures
            manager@ == (ManagerView {
                model: None,
                port: None,
                devices: devices.deep_view(),
                drivers: drivers.deep_view(),
                device_filter: None,
            }),
    {
        Manager { model: None, port: None, devices, drivers, device_filter: None }
    }

    fn listen_for_devices(&mut self, port_type: Vec<PortType>)
        ensures
            final(self)@ == (ManagerView { device_filter: Some(port_type@), ..old(self)@ }),
    {
        self.device_filter = Some(port_type);
    }

    /// Select a model. The port types of its driver become the device filter.
    pub fn set_model(&mut self, model: &str)
        ensures
            final(self)@ == old(self)@.with_model(model@),
    {
        let port_filter = self.get_port_filter_for_model(model);
        self.model = Some(model.to_owned());
        self.listen_for_devices(port_filter);
    }

    /// Select a port.
    pub fn set_port(&mut self, port: &str)
        ensures
            final(self)@ == old(self)@.with_port(port@),
    {
        self.port = Some(port.to_owned());
    }

    /// Forget the selected model and port.
    pub fn clear_selection(&mut self)
        ensures
            final(self)@ == old(self)@.cleared(),
    {
        self.model = None;
        self.port = None;
        self.device_filter = None;
    }

    /// The device table, in the order it was loaded in.
    pub fn devices_desc(&self) -> (devices: &Vec<Desc>)
        ensures
            devices.deep_view() == self@.devices,
    {
        &self.devices
    }

    /// The port types of the selected model, once one was selected.
    pub fn device_filter(&self) -> (filter: &Option<Vec<PortType>>)
        ensures
            match *filter {
                Some(port_types) => self@.device_filter == Some(port_types@),
                None => self@.device_filter is None,
            },
    {
        &self.device_filter
    }

    /// The place of the first descriptor of a model in the device table.
    fn device_position(&self, model: &String) -> (found: Option<usize>)
        ensures
            match found {
                Some(i) => first_position(self@.device_ids(), model@) == Some(i as int),
                None => first_position(self@.device_ids(), model@) is None,
            },
    {
        let ghost ids = self@.device_ids();
        let mut i: usize = 0;
        while i < self.devices.len()
            invariant
                i <= self.devices.len(),
                ids == self@.device_ids(),
                ids.len() == self.devices.len(),
                forall|j: int| 0 <= j < i ==> ids[j] != model@,
            decreases self.devices.len() - i,
        {
            assert(ids[i as int] == self.devices[i as int].id@);
            if self.devices[i].id == *model {
                proof {
                    lemma_first_position_found(ids, model@, i as int);
                }
                return Some(i);
            }
            i += 1;
        }
        proof {
            if exists|k: int| first_at(ids, model@, k) {
                let k = choose|k: int| first_at(ids, model@, k);
                assert(ids[k] != model@);
            }
        }
        None
    }

    /// The place of the first descriptor of a driver in the driver table.
    fn driver_position(&self, id: &String) -> (found: Option<usize>)
        ensures
            match found {
                Some(i) => first_position(self@.driver_ids(), id@) == Some(i as int),
                None => first_position(self@.driver_ids(), id@) is None,
            },
    {
        let ghost ids = self@.driver_ids();
        let mut i: usize = 0;
        while i < self.drivers.len()
            invariant
                i <= self.drivers.len(),
                ids == self@.driver_ids(),
                ids.len() == self.drivers.len(),
                forall|j: int| 0 <= j < i ==> ids[j] != id@,
            decreases self.drivers.len() - i,
        {
            assert(ids[i as int] == self.drivers[i as int].id@);
            if self.drivers[i].id == *id {
                proof {
                    lemma_first_position_found(ids, id@, i as int);
                }
                return Some(i);
            }
            i += 1;
        }
        proof {
            if exists|k: int| first_at(ids, id@, k) {
                let k = choose|k: int| first_at(ids, id@, k);
                assert(ids[k] != id@);
            }
        }
        None
    }

    /// The capability of a model, or `None` if the model has no name or is
    /// not listed.
    pub fn device_capability(&self, model: &str) -> (capability: Option<Capability>)
        ensures
            capability == self@.device_capability(model@),
            model@.len() == 0 || !self@.device_ids().contains(model@) ==> capability is None,
    {
        proof {
            lemma_first_position_known(self@.device_ids(), model@);
        }
        if model.is_empty() {
            return None;
        }
        let key = model.to_owned();
        match self.device_position(&key) {
            Some(i) => Some(self.devices[i].cap),
            None => None,
        }
    }

    /// The capability of a model. This never fails: a model that has no name
    /// or is not listed can do nothing.
    pub fn capability_for(&self, model: &str) -> (capability: Capability)
        ensures
            capability == self@.capability_for(model@),
            model@.len() == 0 || !self@.device_ids().contains(model@) ==> capability
                == Capability::none(),
    {
        match self.device_capability(model) {
            Some(capability) => capability,
            None => Capability::default(),
        }
    }

    /// The port types to scan for a model: those of the driver that owns it,
    /// or `NoPort` alone where the model or its driver is not listed.
    pub fn get_port_filter_for_model(&self, model: &str) -> (filter: Vec<PortType>)
        ensures
            filter@ == self@.port_types_for(model@),
            !self@.device_ids().contains(model@) ==> filter@ == seq![PortType::NoPort],
    {
        proof {
            lemma_first_position_known(self@.device_ids(), model@);
        }
        let key = model.to_owned();
        let mut nothing: Vec<PortType> = Vec::new();
        nothing.push(PortType::NoPort);
        assert(nothing@ =~= seq![PortType::NoPort]);
        match self.device_position(&key) {
            Some(i) => match self.driver_position(&self.devices[i].driver) {
                Some(j) => copy_port_types(&self.drivers[j].ports),
                None => nothing,
            },
            None => nothing,
        }
    }

    /// The candidate ports for a list of port types. `scans[i]` is what the
    /// enumeration pass for `port_filters[i]` found on the host, or `None` if
    /// that pass failed; a failed pass, like one that was not made, adds no
    /// port and leaves the others alone. `unknown` labels the devices whose
    /// model the host does not know.
    pub fn list_ports(
        port_filters: &Vec<PortType>,
        scans: &Vec<Option<Vec<HostDevice>>>,
        unknown: &str,
    ) -> (ports: Vec<Port>)
        ensures
            ports.deep_view() == listed_ports(port_filters@, scans.deep_view(), unknown@),
    {
        let mut ports: Vec<Port> = Vec::new();
        let mut i: usize = 0;
        assert(ports.deep_view() =~= Seq::<PortView>::empty());
        assert(port_filters@.take(0) =~= Seq::<PortType>::empty());
        while i < port_filters.len()
            invariant
                i <= port_filters.len(),
                ports.deep_view() == listed_ports(
                    port_filters@.take(i as int),
                    scans.deep_view(),
                    unknown@,
                ),
            decreases port_filters.len() - i,
        {
            proof {
                let next = port_filters@.take(i + 1);
                assert(next.drop_last() =~= port_filters@.take(i as int));
                assert(next.last() == port_filters@[i as int]);
            }
            if i < scans.len() {
                assert(scan_of(scans.deep_view(), i as int) == scans@[i as int].deep_view());
                match &scans[i] {
                    Some(devices) => {
                        list_pass(port_filters[i], devices, unknown, &mut ports);
                    },
                    None => {
                        assert(ports.deep_view() + Seq::<PortView>::empty() =~= ports.deep_view());
                    },
                }
            } else {
                assert(ports.deep_view() + Seq::<PortView>::empty() =~= ports.deep_view());
            }
            i += 1;
        }
        assert(port_filters@.take(port_filters@.len() as int) =~= port_filters@);
        ports
    }

    /// The candidate ports for a model, from one scan for each of the port
    /// types that `get_port_filter_for_model` gives for it.
    pub fn get_ports_for_model(
        &self,
        model: &str,
        scans: &Vec<Option<Vec<HostDevice>>>,
        unknown: &str,
    ) -> (ports: Option<Vec<Port>>)
        ensures
            ports matches Some(list) && list.deep_view() == listed_ports(
                self@.port_types_for(model@),
                scans.deep_view(),
                unknown@,
            ),
    {
        let port_filter = self.get_port_filter_for_model(model);
        Some(Self::list_ports(&port_filter, scans, unknown))
    }

    /// Get a driver for the device from the current manager. There is none
    /// unless a model and a port are both selected.
    pub fn get_device(&self) -> (device: Option<Arc<GpsBabel>>)
        ensures
            device.deep_view() == self@.device(),
            self@.model is None || self@.port is None ==> device is None,
    {
        let model = match &self.model {
            Some(model) => model,
            None => {
                return None;
            },
        };
        let (capability, driver_id) = match self.device_position(model) {
            Some(i) => (self.devices[i].cap, self.devices[i].driver.clone()),
            None => {
                return None;
            },
        };
        let id = driver_id.as_str();
        if same_text(id, "baroiq") || same_text(id, "dg-100") || same_text(id, "dg-200")
            || same_text(id, "navilink") || same_text(id, "m241") || same_text(id, "mtk") {
            match &self.port {
                Some(port) => Some(Arc::new(GpsBabel::new(driver_id, port.as_str(), capability))),
                None => None,
            }
        } else {
            None
        }
    }
}

} // verus!
