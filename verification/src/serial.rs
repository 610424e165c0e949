//! State of the serial connection panel: the ports on offer, the selected
//! port, the link settings, and the two flags that tell the rest of the
//! application what the user asked for.

use crate::flag::FlagReader;
use crate::flag::SharedFlag;
use crate::settings::DataBits;
use crate::settings::FlowControl;
use crate::settings::Parity;
use crate::settings::PortSettings;
use crate::settings::PortSettingsView;
use crate::settings::SettingsReader;
use crate::settings::SharedSettings;
use crate::settings::StopBits;
use std::sync::atomic::AtomicBool;
use std::sync::Arc;
use std::sync::Mutex;
use vstd::prelude::*;

verus! {

/// How a serial port is attached to the machine.
#[derive(Debug, Clone)]
pub enum PortKind {
    /// Attached over USB; the device may name its product.
    Usb { product: Option<String> },
    Pci,
    Bluetooth,
    Unknown,
}

/// One serial port as a scan of the machine reports it.
#[derive(Debug, Clone)]
pub struct PortInfo {
    pub name: String,
    pub kind: PortKind,
}

impl PortInfo {
    /// The list entry of a USB port: its name and its product, `Unknown`
    /// for a device that names none. Other ports have no entry.
    pub open spec fn spec_entry(&self) -> Option<(Seq<char>, Seq<char>)> {
        match self.kind {
            PortKind::Usb { product: Some(product) } => Some((self.name@, product@)),
            PortKind::Usb { product: None } => Some((self.name@, "Unknown"@)),
            _ => None,
        }
    }

    pub fn entry(&self) -> (entry: Option<(String, String)>)
        ensures
            entry.deep_view() == self.spec_entry(),
    {
        match &self.kind {
            PortKind::Usb { product: Some(product) } => Some((self.name.clone(), product.clone())),
            PortKind::Usb { product: None } => Some((self.name.clone(), "Unknown".to_owned())),
            _ => None,
        }
    }
}

/// The entries of the USB ports among `ports`, in the order of the scan.
pub open spec fn usb_entries(ports: Seq<PortInfo>) -> Seq<(Seq<char>, Seq<char>)>
    decreases ports.len(),
{
    if ports.len() == 0 {
        Seq::empty()
    } else {
        let before = usb_entries(ports.drop_last());
        match ports.last().spec_entry() {
            Some(entry) => before.push(entry),
            None => before,
        }
    }
}

/// The ports that a scan found. A scan that failed found none.
pub open spec fn scanned_ports(scan: Option<Vec<PortInfo>>) -> Seq<PortInfo> {
    match scan {
        Some(ports) => ports@,
        None => Seq::empty(),
    }
}

/// The name of the first entry, or nothing where there is no entry.
pub open spec fn first_name(entries: Seq<(Seq<char>, Seq<char>)>) -> Seq<char> {
    if entries.len() > 0 {
        entries[0].0
    } else {
        Seq::empty()
    }
}

/// Keeps the USB ports of a scan and labels each with its product.
pub fn collect_usb_ports(scanned: &Vec<PortInfo>) -> (list: Vec<(String, String)>)
    ensures
        list.deep_view() == usb_entries(scanned@),
{
    let mut list: Vec<(String, String)> = Vec::new();
    let mut i: usize = 0;
    assert(scanned@.take(0) =~= Seq::empty());
    while i < scanned.len()
        invariant
            i <= scanned.len(),
            list.deep_view() == usb_entries(scanned@.take(i as int)),
        decreases scanned.len() - i,
    {
        let ghost before = list.deep_view();
        assert(scanned@.take(i + 1).drop_last() =~= scanned@.take(i as int));
        match scanned[i].entry() {
            Some(entry) => {
                list.push(entry);
                assert(list.deep_view() =~= before.push(entry.deep_view()));
            },
            None => {},
        }
        i += 1;
    }
    assert(scanned@.take(i as int) =~= scanned@);
    list
}

/// The list that a scan puts on offer: the USB ports it found, and nothing
/// where it failed.
pub fn offered_ports(scan: Option<Vec<PortInfo>>) -> (list: Vec<(String, String)>)
    ensures
        list.deep_view() == usb_entries(scanned_ports(scan)),
{
    match scan {
        Some(scanned) => collect_usb_ports(&scanned),
        None => {
            let list: Vec<(String, String)> = Vec::new();
            assert(list.deep_view() =~= Seq::empty());
            list
        },
    }
}

/// What a serial panel looks like from outside. The two cells are made
/// with the panel and stay with it: no operation of the panel swaps one.
pub struct SerialPortView {
    /// Name and product of each port on offer.
    pub ports: Seq<(Seq<char>, Seq<char>)>,
    /// Name of the selected port.
    pub selected: Seq<char>,
    pub settings: PortSettingsView,
    /// The user asked for the link to be open.
    pub is_open: bool,
    /// Something was edited since the flag was last cleared.
    pub need_update: bool,
    /// The cell that readers of the open flag load.
    pub open_cell: Arc<AtomicBool>,
    /// The locked cell that readers of the settings copy from.
    pub settings_cell: Arc<Mutex<PortSettings>>,
}

impl SerialPortView {
    /// The panel after an edit that asks for `settings`: unchanged where
    /// the settings are the ones it has, else holding them and marked for
    /// an update.
    pub open spec fn edited(self, settings: PortSettingsView) -> SerialPortView {
        if settings == self.settings {
            self
        } else {
            SerialPortView { settings, need_update: true, ..self }
        }
    }
}

/// What the DTR box shows for a stored DTR state.
pub open spec fn dtr_of(stored: Option<bool>) -> bool {
    match stored {
        Some(enabled) => enabled,
        None => false,
    }
}

/// The serial panel.
#[derive(Debug)]
pub struct SerialPort {
    list: Vec<(String, String)>,
    selected: String,
    settings: SharedSettings,
    is_open: SharedFlag,
    need_update: SharedFlag,
}

impl View for SerialPort {
    type V = SerialPortView;

    closed spec fn view(&self) -> SerialPortView {
        SerialPortView {
            ports: self.list.deep_view(),
            selected: self.selected@,
            settings: self.settings@,
            is_open: self.is_open.value(),
            need_update: self.need_update.value(),
            open_cell: self.is_open.cell(),
            settings_cell: self.settings.cell(),
        }
    }
}

impl SerialPort {
    /// A closed panel with default settings that offers the USB ports of
    /// a scan and has the first of them selected. `None` stands for a scan
    /// that failed: the panel then offers no port and has none selected.
    pub fn new(scan: Option<Vec<PortInfo>>) -> (port: SerialPort)
        ensures
            port@.ports == usb_entries(scanned_ports(scan)),
            port@.selected == first_name(usb_entries(scanned_ports(scan))),
            port@.settings == PortSettingsView::initial(),
            !port@.is_open,
            !port@.need_update,
    {
        let list = offered_ports(scan);
        let selected = if list.len() > 0 {
            list[0].0.clone()
        } else {
            String::new()
        };
        SerialPort {
            list,
            selected,
            settings: SharedSettings::new(PortSettings::default()),
            is_open: SharedFlag::new(false),
            need_update: SharedFlag::new(false),
        }
    }

    /// Offers the USB ports of a new scan, and none where the scan failed
    /// (`None`). The selection stays as it is, also where the selected
    /// port is no longer on offer.
    pub fn list_ports(&mut self, scan: Option<Vec<PortInfo>>)
        ensures
            final(self)@ == (SerialPortView {
                ports: usb_entries(scanned_ports(scan)),
                ..old(self)@
            }),
    {
        self.list = offered_ports(scan);
    }

    pub fn set_is_open(&mut self, value: bool)
        ensures
            final(self)@ == (SerialPortView { is_open: value, ..old(self)@ }),
    {
        self.is_open.set(value);
    }

    pub fn get_is_open(&self) -> (value: bool)
        ensures
            value == self@.is_open,
    {
        self.is_open.get()
    }

    pub fn set_need_update(&mut self, value: bool)
        ensures
            final(self)@ == (SerialPortView { need_update: value, ..old(self)@ }),
    {
        self.need_update.set(value);
    }

    pub fn get_need_update(&self) -> (value: bool)
        ensures
            value == self@.need_update,
    {
        self.need_update.get()
    }

    /// Whether the link counts as connected: the user asked for it to be
    /// open.
    pub fn is_connected(&self) -> (connected: bool)
        ensures
            connected == self@.is_open,
    {
        self.is_open.get()
    }

    /// The connect button while closed, the disconnect button while open.
    pub fn toggle_connection(&mut self)
        ensures
            final(self)@ == (SerialPortView { is_open: !old(self)@.is_open, ..old(self)@ }),
    {
        let open = self.is_open.get();
        self.is_open.set(!open);
    }

    /// The ports on offer, each with its name and its product.
    pub fn ports(&self) -> (list: &Vec<(String, String)>)
        ensures
            list.deep_view() == self@.ports,
    {
        &self.list
    }

    pub fn selected(&self) -> (name: &String)
        ensures
            name@ == self@.selected,
    {
        &self.selected
    }

    /// The link settings as last edited.
    pub fn settings(&self) -> (settings: &PortSettings)
        ensures
            settings@ == self@.settings,
    {
        self.settings.get()
    }

    /// A handle through which a background reader copies the settings of
    /// this panel.
    pub fn settings_reader(&self) -> (reader: SettingsReader)
        ensures
            reader.cell() == self@.settings_cell,
    {
        self.settings.reader()
    }

    /// A handle through which a background reader polls the open flag of
    /// this panel.
    pub fn open_reader(&self) -> (reader: FlagReader)
        ensures
            reader.cell() == self@.open_cell,
    {
        self.is_open.reader()
    }

    /// Selects the port named `name`. A selection that differs from the
    /// one before marks the panel for an update.
    pub fn select_port(&mut self, name: String)
        ensures
            name@ == old(self)@.selected ==> final(self)@ == old(self)@,
            name@ != old(self)@.selected ==> final(self)@ == (SerialPortView {
                selected: name@,
                need_update: true,
                ..old(self)@
            }),
    {
        if !(name == self.selected) {
            self.selected = name;
            self.need_update.set(true);
        }
    }

    /// Sets the baud rate. An edit that changes nothing leaves the panel
    /// as it is; one that changes the value stores it under the lock and
    /// marks the panel for an update. The other editors do the same, each
    /// for its own setting.
    pub fn set_baud_rate(&mut self, baud_rate: u32)
        ensures
            final(self)@ == old(self)@.edited(
                PortSettingsView { baud_rate, ..old(self)@.settings },
            ),
    {
        if self.settings.get().baud_rate != baud_rate {
            self.settings.set_baud_rate(baud_rate);
            self.need_update.set(true);
        }
    }

    pub fn set_data_bits(&mut self, data_bits: DataBits)
        ensures
            final(self)@ == old(self)@.edited(
                PortSettingsView { data_bits, ..old(self)@.settings },
            ),
    {
        if self.settings.get().data_bits != data_bits {
            self.settings.set_data_bits(data_bits);
            self.need_update.set(true);
        }
    }

    pub fn set_stop_bits(&mut self, stop_bits: StopBits)
        ensures
            final(self)@ == old(self)@.edited(
                PortSettingsView { stop_bits, ..old(self)@.settings },
            ),
    {
        if self.settings.get().stop_bits != stop_bits {
            self.settings.set_stop_bits(stop_bits);
            self.need_update.set(true);
        }
    }

    pub fn set_parity(&mut self, parity: Parity)
        ensures
            final(self)@ == old(self)@.edited(PortSettingsView { parity, ..old(self)@.settings }),
    {
        if self.settings.get().parity != parity {
            self.settings.set_parity(parity);
            self.need_update.set(true);
        }
    }

    pub fn set_flow_control(&mut self, flow_control: FlowControl)
        ensures
            final(self)@ == old(self)@.edited(
                PortSettingsView { flow_control, ..old(self)@.settings },
            ),
    {
        if self.settings.get().flow_control != flow_control {
            self.settings.set_flow_control(flow_control);
            self.need_update.set(true);
        }
    }

    pub fn set_timeout_ms(&mut self, timeout_ms: u64)
        ensures
            final(self)@ == old(self)@.edited(
                PortSettingsView { timeout_ms, ..old(self)@.settings },
            ),
    {
        if self.settings.get().timeout_ms != timeout_ms {
            self.settings.set_timeout_ms(timeout_ms);
            self.need_update.set(true);
        }
    }

    /// Whether DTR is raised when the device is opened. A panel that was
    /// never told counts as `false`.
    pub fn dtr_enabled(&self) -> (enabled: bool)
        ensures
            enabled == dtr_of(self@.settings.dtr_on_open),
    {
        match self.settings.get().dtr_on_open {
            Some(enabled) => enabled,
            None => false,
        }
    }

    /// Ticks or clears the DTR box. Only a change of what the box shows
    /// is stored.
    pub fn set_dtr(&mut self, enabled: bool)
        ensures
            dtr_of(old(self)@.settings.dtr_on_open) == enabled ==> final(self)@ == old(self)@,
            dtr_of(old(self)@.settings.dtr_on_open) != enabled ==> final(self)@ == (SerialPortView {
                settings: PortSettingsView { dtr_on_open: Some(enabled), ..old(self)@.settings },
                need_update: true,
                ..old(self)@
            }),
    {
        if self.dtr_enabled() != enabled {
            self.settings.set_dtr_on_open(Some(enabled));
            self.need_update.set(true);
        }
    }
}

} // verus!
