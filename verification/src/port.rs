//! Port descriptions.
//!
//! The native library describes the transport a camera is reachable over
//! with an integer tag and two C strings (a display name and a path).  This
//! module holds the typed snapshot of that information and the pure decoding
//! of the tag.

use vstd::prelude::*;

verus! {

/// Port type constants of the native library (`gphoto2-port.h`).
pub const GP_PORT_NONE: i32 = 0;
pub const GP_PORT_SERIAL: i32 = 1;
pub const GP_PORT_USB: i32 = 4;
pub const GP_PORT_DISK: i32 = 8;
pub const GP_PORT_PTPIP: i32 = 16;
pub const GP_PORT_USB_DISK_DIRECT: i32 = 32;
pub const GP_PORT_USB_SCSI: i32 = 64;

/// Types of ports.
#[derive(Debug, PartialEq, Eq, Clone, Copy, Hash, Structural)]
pub enum PortType {
    /// Serial port.
    Serial,
    /// USB port.
    USB,
    /// Disk or local mountpoint.
    Disk,
    /// PTP or IP connection.
    PTPIP,
    /// Direct I/O on a USB mass storage device.
    Direct,
    /// USB mass storage raw SCSI port.
    SCSI,
    /// Unknown port type.
    Other,
}

/// The decoding of a native port type tag.  Tags the taxonomy does not
/// recognize (including the native "none" value) decode as
/// [`PortType::Other`].
pub open spec fn decode_port_type(value: i32) -> PortType {
    if value == GP_PORT_SERIAL {
        PortType::Serial
    } else if value == GP_PORT_USB {
        PortType::USB
    } else if value == GP_PORT_DISK {
        PortType::Disk
    } else if value == GP_PORT_PTPIP {
        PortType::PTPIP
    } else if value == GP_PORT_USB_DISK_DIRECT {
        PortType::Direct
    } else if value == GP_PORT_USB_SCSI {
        PortType::SCSI
    } else {
        PortType::Other
    }
}

/// A structure describing a port: the snapshot of the native port
/// information record for the port a camera is connected to.
pub struct Port {
    port_type: i32,
    name: String,
    path: String,
}

impl Port {
    /// The raw native port type tag.
    pub closed spec fn spec_port_type_value(&self) -> i32 {
        self.port_type
    }

    /// The port's display name.
    pub closed spec fn spec_name(&self) -> Seq<char> {
        self.name@
    }

    /// The port's path.
    pub closed spec fn spec_path(&self) -> Seq<char> {
        self.path@
    }

    /// Returns the type of the port.
    pub fn port_type(&self) -> (r: PortType)
        ensures
            r == decode_port_type(self.spec_port_type_value()),
    {
        let value = self.port_type;
        if value == GP_PORT_SERIAL {
            PortType::Serial
        } else if value == GP_PORT_USB {
            PortType::USB
        } else if value == GP_PORT_DISK {
            PortType::Disk
        } else if value == GP_PORT_PTPIP {
            PortType::PTPIP
        } else if value == GP_PORT_USB_DISK_DIRECT {
            PortType::Direct
        } else if value == GP_PORT_USB_SCSI {
            PortType::SCSI
        } else {
            PortType::Other
        }
    }

    /// Returns the name of the port.
    pub fn name(&self) -> (r: &str)
        ensures
            r@ == self.spec_name(),
    {
        self.name.as_str()
    }

    /// Returns the path of the port.
    pub fn path(&self) -> (r: &str)
        ensures
            r@ == self.spec_path(),
    {
        self.path.as_str()
    }
}

/// Builds a [`Port`] snapshot from the plain values read out of a native
/// port information record.
pub fn from_libgphoto2(port_type: i32, name: String, path: String) -> (r: Port)
    ensures
        r.spec_port_type_value() == port_type,
        r.spec_name() == name@,
        r.spec_path() == path@,
{
    Port { port_type, name, path }
}

} // verus!
