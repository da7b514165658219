//! The printed device report.
//!
//! One block per enumerated device — name, address, the three state
//! flags, and the port column — followed by a separator line; or, when
//! the host reported no device at all, a single fixed message.

use vstd::prelude::*;
use crate::hex::{format_address, hex_upper};
use crate::ports::port_view;
use vstd::string::StringExecFns;

verus! {

/// One enumerated device, as plain values: the name already decoded
/// from the host's UTF-16 buffer, the 64-bit hardware address, and the
/// three independent state flags the host stack reports.
pub struct DeviceRecord {
    pub name: String,
    pub address: u64,
    pub connected: bool,
    pub remembered: bool,
    pub authenticated: bool,
}

/// The text a flag prints as: exactly the language's boolean text.
pub open spec fn bool_chars(b: bool) -> Seq<char> {
    if b {
        "true"@
    } else {
        "false"@
    }
}

/// The port column: the resolved port identifier, or the `NONE` sentinel.
pub open spec fn port_chars(p: Option<Seq<char>>) -> Seq<char> {
    match p {
        Option::None => "NONE"@,
        Option::Some(t) => t,
    }
}

/// One device's block of the report, label columns as printed.
pub open spec fn block_of(d: DeviceRecord, port: Option<Seq<char>>) -> Seq<char> {
    "Device name:          <"@ + d.name@ + ">\n"@ + "Address:              <"@ + hex_upper(
        d.address as nat,
    ) + ">\n"@ + "Connected:            <"@ + bool_chars(d.connected) + ">\n"@
        + "Remembered:           <"@ + bool_chars(d.remembered) + ">\n"@
        + "Authenticated:        <"@ + bool_chars(d.authenticated) + ">\n"@
        + "COM Port:             <"@ + port_chars(port) + ">\n"@
        + "---------------------------------------------------------------------------\n"@
}

/// The text a flag prints as.  The printed text matches the flag
/// exactly: `true` if and only if the flag is set.
pub fn bool_text(b: bool) -> (r: String)
    ensures
        r@ == bool_chars(b),
{
    if b {
        "true".to_owned()
    } else {
        "false".to_owned()
    }
}

/// Renders one device's block of the report.
pub fn device_block(d: &DeviceRecord, port: &Option<String>) -> (r: String)
    ensures
        r@ == block_of(*d, port_view(*port)),
{
    let mut s = String::new();
    s.append("Device name:          <");
    s.append(d.name.as_str());
    s.append(">\n");
    s.append("Address:              <");
    let addr = format_address(d.address);
    s.append(addr.as_str());
    s.append(">\n");
    s.append("Connected:            <");
    let c = bool_text(d.connected);
    s.append(c.as_str());
    s.append(">\n");
    s.append("Remembered:           <");
    let m = bool_text(d.remembered);
    s.append(m.as_str());
    s.append(">\n");
    s.append("Authenticated:        <");
    let a = bool_text(d.authenticated);
    s.append(a.as_str());
    s.append(">\n");
    s.append("COM Port:             <");
    match port {
        Option::Some(p) => s.append(p.as_str()),
        Option::None => s.append("NONE"),
    }
    s.append(">\n");
    s.append("---------------------------------------------------------------------------\n");
    proof {
        assert(s@ =~= block_of(*d, port_view(*port)));
    }
    s
}

/// The blocks of all devices from index `i` on, in order.
pub open spec fn blocks_from(
    devices: Seq<DeviceRecord>,
    ports: Seq<Option<String>>,
    i: int,
) -> Seq<char>
    recommends
        devices.len() == ports.len(),
        0 <= i <= devices.len(),
    decreases devices.len() - i when 0 <= i <= devices.len()
{
    if i >= devices.len() {
        Seq::empty()
    } else {
        block_of(devices[i], port_view(ports[i])) + blocks_from(devices, ports, i + 1)
    }
}

/// The whole report: the fixed message when no device was found, else
/// every device's block in order, nothing more.
pub open spec fn report_of(devices: Seq<DeviceRecord>, ports: Seq<Option<String>>) -> Seq<char>
    recommends
        devices.len() == ports.len(),
{
    if devices.len() == 0 {
        "No bluetooth device found.\n"@
    } else {
        blocks_from(devices, ports, 0)
    }
}

/// The fixed message printed when the host reports no device.
pub fn no_device_message() -> (r: String)
    ensures
        r@ == "No bluetooth device found.\n"@,
{
    "No bluetooth device found.\n".to_owned()
}

/// Renders the report for the enumerated devices and their resolved
/// ports, one port entry per device.  With no devices the report is
/// exactly the no-device message: no block, and so no port column, from
/// any lookup appears in it.
pub fn render_report(devices: &Vec<DeviceRecord>, ports: &Vec<Option<String>>) -> (r: String)
    requires
        devices@.len() == ports@.len(),
    ensures
        r@ == report_of(devices@, ports@),
{
    if devices.len() == 0 {
        return no_device_message();
    }
    let mut s = String::new();
    let mut i: usize = 0;
    while i < devices.len()
        invariant
            i <= devices@.len(),
            devices@.len() == ports@.len(),
            s@ + blocks_from(devices@, ports@, i as int) == blocks_from(devices@, ports@, 0),
        decreases devices@.len() - i,
    {
        let b = device_block(&devices[i], &ports[i]);
        let ghost s0 = s@;
        s.append(b.as_str());
        proof {
            assert(s0 + (b@ + blocks_from(devices@, ports@, i + 1)) =~= (s0 + b@) + blocks_from(
                devices@,
                ports@,
                i + 1,
            ));
        }
        i = i + 1;
    }
    proof {
        assert(s@ + blocks_from(devices@, ports@, devices@.len() as int) =~= s@);
    }
    s
}

} // verus!
