//! Device abilities.
//!
//! The native library reports what a device can do as a record of capability
//! bitmasks, an integer device type and driver status, a zero-terminated
//! array of serial speeds and raw USB identifiers.  This module holds the
//! typed snapshot of that record and the pure decoders that turn each
//! bitmask into a duplicate-free set of tags.  Unrecognized bits are
//! silently ignored for forward compatibility with future capability bits.

use vstd::prelude::*;

use crate::lemmas::{lemma_empty_mask_has_no_bit, lemma_or_keeps_bit, lemma_push_keeps_distinct};
use crate::port::{GP_PORT_DISK, GP_PORT_PTPIP, GP_PORT_SERIAL, GP_PORT_USB, GP_PORT_USB_DISK_DIRECT,
    GP_PORT_USB_SCSI};
use crate::port::PortType;

verus! {

broadcast use vstd::seq_lib::lemma_seq_contains_after_push;

/// Device type constants of the native library (`gphoto2-abilities-list.h`).
pub const GP_DEVICE_STILL_CAMERA: i32 = 0;
pub const GP_DEVICE_AUDIO_PLAYER: i32 = 1;

/// Driver status constants of the native library.
pub const GP_DRIVER_STATUS_PRODUCTION: i32 = 0;
pub const GP_DRIVER_STATUS_TESTING: i32 = 1;
pub const GP_DRIVER_STATUS_EXPERIMENTAL: i32 = 2;
pub const GP_DRIVER_STATUS_DEPRECATED: i32 = 3;

/// Camera operation bits of the native library.
pub const GP_OPERATION_CAPTURE_IMAGE: i32 = 1;
pub const GP_OPERATION_CAPTURE_VIDEO: i32 = 2;
pub const GP_OPERATION_CAPTURE_AUDIO: i32 = 4;
pub const GP_OPERATION_CAPTURE_PREVIEW: i32 = 8;
pub const GP_OPERATION_CONFIG: i32 = 16;
pub const GP_OPERATION_TRIGGER_CAPTURE: i32 = 32;

/// File operation bits of the native library.
pub const GP_FILE_OPERATION_DELETE: i32 = 2;
pub const GP_FILE_OPERATION_PREVIEW: i32 = 8;
pub const GP_FILE_OPERATION_RAW: i32 = 16;
pub const GP_FILE_OPERATION_AUDIO: i32 = 32;
pub const GP_FILE_OPERATION_EXIF: i32 = 64;

/// Folder operation bits of the native library.
pub const GP_FOLDER_OPERATION_DELETE_ALL: i32 = 1;
pub const GP_FOLDER_OPERATION_PUT_FILE: i32 = 2;
pub const GP_FOLDER_OPERATION_MAKE_DIR: i32 = 4;
pub const GP_FOLDER_OPERATION_REMOVE_DIR: i32 = 8;

/// Types of devices.
#[derive(Debug, PartialEq, Eq, Clone, Copy, Hash, Structural)]
pub enum DeviceType {
    /// Still camera.
    Camera,
    /// Audio player.
    Audio,
}

/// Stability of camera driver.
#[derive(Debug, PartialEq, Eq, Clone, Copy, Hash, Structural)]
pub enum DriverStatus {
    /// Driver is production ready.
    Production,
    /// Driver is beta quality.
    Testing,
    /// Driver is alpha quality and might not even work.
    Experimental,
    /// Driver is no longer recommended and will be removed.
    Deprecated,
}

/// Operations that can be performed on a device.
#[derive(Debug, PartialEq, Eq, Clone, Copy, Hash, Structural)]
pub enum CameraOperation {
    /// Camera can be configured.
    Config,
    /// Camera can capture images.
    CaptureImage,
    /// Camera can capture video.
    CaptureVideo,
    /// Camera can capture audio.
    CaptureAudio,
    /// Camera can capture image previews.
    CapturePreview,
    /// Camera can trigger capture and wait for events.
    TriggerCapture,
}

/// Operations that can be performed on files on a device's storage.
#[derive(Debug, PartialEq, Eq, Clone, Copy, Hash, Structural)]
pub enum FileOperation {
    /// Files can be deleted.
    Delete,
    /// Viewfinder content can be previewed.
    Preview,
    /// Raw file data can be retrieved.
    Raw,
    /// Audio data can be retrieved.
    Audio,
    /// EXIF data can be retrieved.
    EXIF,
}

/// Operations that can be performed on folders on a device's storage.
#[derive(Debug, PartialEq, Eq, Clone, Copy, Hash, Structural)]
pub enum FolderOperation {
    /// Deleting all files on the device is supported.
    DeleteAll,
    /// Uploading files to the device is supported.
    PutFile,
    /// Making new directories on the device is supported.
    MakeDirectory,
    /// Removing directories from the device is supported.
    RemoveDirectory,
}

/// The mask bit that announces a supported port type; a tag without a bit
/// (the catch-all tag) maps to no bit.
pub open spec fn port_type_bit(t: PortType) -> i32 {
    match t {
        PortType::Serial => GP_PORT_SERIAL,
        PortType::USB => GP_PORT_USB,
        PortType::Disk => GP_PORT_DISK,
        PortType::PTPIP => GP_PORT_PTPIP,
        PortType::Direct => GP_PORT_USB_DISK_DIRECT,
        PortType::SCSI => GP_PORT_USB_SCSI,
        PortType::Other => 0,
    }
}

/// Whether a port type mask announces the given tag.
pub open spec fn in_port_mask(mask: i32, t: PortType) -> bool {
    port_type_bit(t) != 0 && mask & port_type_bit(t) != 0
}

/// The mask bit of a camera operation tag.
pub open spec fn camera_operation_bit(op: CameraOperation) -> i32 {
    match op {
        CameraOperation::Config => GP_OPERATION_CONFIG,
        CameraOperation::CaptureImage => GP_OPERATION_CAPTURE_IMAGE,
        CameraOperation::CaptureVideo => GP_OPERATION_CAPTURE_VIDEO,
        CameraOperation::CaptureAudio => GP_OPERATION_CAPTURE_AUDIO,
        CameraOperation::CapturePreview => GP_OPERATION_CAPTURE_PREVIEW,
        CameraOperation::TriggerCapture => GP_OPERATION_TRIGGER_CAPTURE,
    }
}

/// Whether a camera operation mask announces the given tag.
pub open spec fn in_camera_operation_mask(mask: i32, op: CameraOperation) -> bool {
    mask & camera_operation_bit(op) != 0
}

/// The mask bit of a file operation tag.
pub open spec fn file_operation_bit(op: FileOperation) -> i32 {
    match op {
        FileOperation::Delete => GP_FILE_OPERATION_DELETE,
        FileOperation::Preview => GP_FILE_OPERATION_PREVIEW,
        FileOperation::Raw => GP_FILE_OPERATION_RAW,
        FileOperation::Audio => GP_FILE_OPERATION_AUDIO,
        FileOperation::EXIF => GP_FILE_OPERATION_EXIF,
    }
}

/// Whether a file operation mask announces the given tag.
pub open spec fn in_file_operation_mask(mask: i32, op: FileOperation) -> bool {
    mask & file_operation_bit(op) != 0
}

/// The mask bit of a folder operation tag.
pub open spec fn folder_operation_bit(op: FolderOperation) -> i32 {
    match op {
        FolderOperation::DeleteAll => GP_FOLDER_OPERATION_DELETE_ALL,
        FolderOperation::PutFile => GP_FOLDER_OPERATION_PUT_FILE,
        FolderOperation::MakeDirectory => GP_FOLDER_OPERATION_MAKE_DIR,
        FolderOperation::RemoveDirectory => GP_FOLDER_OPERATION_REMOVE_DIR,
    }
}

/// Whether a folder operation mask announces the given tag.
pub open spec fn in_folder_operation_mask(mask: i32, op: FolderOperation) -> bool {
    mask & folder_operation_bit(op) != 0
}

/// Describes the abilities of a device: a value snapshot of the native
/// abilities record, copied out field by field.
pub struct Abilities {
    model: String,
    device_type: i32,
    status: i32,
    port: i32,
    speed: Vec<i32>,
    operations: i32,
    file_operations: i32,
    folder_operations: i32,
    usb_vendor: i32,
    usb_product: i32,
    usb_class: i32,
    usb_subclass: i32,
    usb_protocol: i32,
}

impl Abilities {
    /// The model string of the device.
    pub closed spec fn spec_model(&self) -> Seq<char> {
        self.model@
    }

    /// The raw device type value.
    pub closed spec fn spec_device_type(&self) -> i32 {
        self.device_type
    }

    /// The raw driver status value.
    pub closed spec fn spec_status(&self) -> i32 {
        self.status
    }

    /// The raw supported port type mask.
    pub closed spec fn spec_port_mask(&self) -> i32 {
        self.port
    }

    /// The raw serial speed array.
    pub closed spec fn spec_speed(&self) -> Seq<i32> {
        self.speed@
    }

    /// The raw camera operation mask.
    pub closed spec fn spec_operations(&self) -> i32 {
        self.operations
    }

    /// The raw file operation mask.
    pub closed spec fn spec_file_operations(&self) -> i32 {
        self.file_operations
    }

    /// The raw folder operation mask.
    pub closed spec fn spec_folder_operations(&self) -> i32 {
        self.folder_operations
    }

    /// The raw USB vendor identifier.
    pub closed spec fn spec_usb_vendor(&self) -> i32 {
        self.usb_vendor
    }

    /// The raw USB product identifier.
    pub closed spec fn spec_usb_product(&self) -> i32 {
        self.usb_product
    }

    /// The raw USB class value.
    pub closed spec fn spec_usb_class(&self) -> i32 {
        self.usb_class
    }

    /// The raw USB subclass value.
    pub closed spec fn spec_usb_subclass(&self) -> i32 {
        self.usb_subclass
    }

    /// The raw USB protocol value.
    pub closed spec fn spec_usb_protocol(&self) -> i32 {
        self.usb_protocol
    }

    /// Well-formedness: the device type and driver status hold one of the
    /// values the native library defines for them.  The native record types
    /// these two fields as C enums, so a value outside these sets signals a
    /// version mismatch between the binding and the installed library.
    pub open spec fn wf(&self) -> bool {
        &&& (self.spec_device_type() == GP_DEVICE_STILL_CAMERA || self.spec_device_type()
            == GP_DEVICE_AUDIO_PLAYER)
        &&& GP_DRIVER_STATUS_PRODUCTION <= self.spec_status() <= GP_DRIVER_STATUS_DEPRECATED
    }

    /// Returns the type of the device.
    pub fn device_type(&self) -> (r: DeviceType)
        requires
            self.wf(),
        ensures
            r == DeviceType::Camera <==> self.spec_device_type() == GP_DEVICE_STILL_CAMERA,
            r == DeviceType::Audio <==> self.spec_device_type() == GP_DEVICE_AUDIO_PLAYER,
    {
        if self.device_type == GP_DEVICE_STILL_CAMERA {
            DeviceType::Camera
        } else {
            DeviceType::Audio
        }
    }

    /// Returns the name of the camera's model.
    pub fn model(&self) -> (r: &str)
        ensures
            r@ == self.spec_model(),
    {
        self.model.as_str()
    }

    /// Returns the driver's stability status.
    pub fn driver_status(&self) -> (r: DriverStatus)
        requires
            self.wf(),
        ensures
            r == DriverStatus::Production <==> self.spec_status() == GP_DRIVER_STATUS_PRODUCTION,
            r == DriverStatus::Testing <==> self.spec_status() == GP_DRIVER_STATUS_TESTING,
            r == DriverStatus::Experimental <==> self.spec_status()
                == GP_DRIVER_STATUS_EXPERIMENTAL,
            r == DriverStatus::Deprecated <==> self.spec_status() == GP_DRIVER_STATUS_DEPRECATED,
    {
        if self.status == GP_DRIVER_STATUS_PRODUCTION {
            DriverStatus::Production
        } else if self.status == GP_DRIVER_STATUS_TESTING {
            DriverStatus::Testing
        } else if self.status == GP_DRIVER_STATUS_EXPERIMENTAL {
            DriverStatus::Experimental
        } else {
            DriverStatus::Deprecated
        }
    }

    /// Returns the supported port types: one tag for each known bit set in
    /// the port mask, each tag at most once, and nothing else.
    pub fn port_types(&self) -> (r: Vec<PortType>)
        ensures
            forall|t: PortType| r@.contains(t) <==> in_port_mask(self.spec_port_mask(), t),
            r@.no_duplicates(),
            self.spec_port_mask() == 0 ==> r@.len() == 0,
    {
        let mut port_types: Vec<PortType> = Vec::new();

        if self.port & GP_PORT_SERIAL != 0 {
            proof {
                lemma_push_keeps_distinct(port_types@, PortType::Serial);
            }
            port_types.push(PortType::Serial);
        }

        if self.port & GP_PORT_USB != 0 {
            proof {
                lemma_push_keeps_distinct(port_types@, PortType::USB);
            }
            port_types.push(PortType::USB);
        }

        if self.port & GP_PORT_DISK != 0 {
            proof {
                lemma_push_keeps_distinct(port_types@, PortType::Disk);
            }
            port_types.push(PortType::Disk);
        }

        if self.port & GP_PORT_PTPIP != 0 {
            proof {
                lemma_push_keeps_distinct(port_types@, PortType::PTPIP);
            }
            port_types.push(PortType::PTPIP);
        }

        if self.port & GP_PORT_USB_DISK_DIRECT != 0 {
            proof {
                lemma_push_keeps_distinct(port_types@, PortType::Direct);
            }
            port_types.push(PortType::Direct);
        }

        if self.port & GP_PORT_USB_SCSI != 0 {
            proof {
                lemma_push_keeps_distinct(port_types@, PortType::SCSI);
            }
            port_types.push(PortType::SCSI);
        }

        proof {
            lemma_empty_mask_has_no_bit(GP_PORT_SERIAL);
            lemma_empty_mask_has_no_bit(GP_PORT_USB);
            lemma_empty_mask_has_no_bit(GP_PORT_DISK);
            lemma_empty_mask_has_no_bit(GP_PORT_PTPIP);
            lemma_empty_mask_has_no_bit(GP_PORT_USB_DISK_DIRECT);
            lemma_empty_mask_has_no_bit(GP_PORT_USB_SCSI);
        }
        port_types
    }

    /// Returns the supported serial port speeds: the longest prefix of the
    /// speed array before its first zero entry, which terminates the array.
    pub fn speeds(&self) -> (r: Vec<usize>)
        ensures
            r@.len() <= self.spec_speed().len(),
            forall|j: int|
                0 <= j < r@.len() ==> self.spec_speed()[j] != 0 && r@[j] == self.spec_speed()[j]
                    as usize,
            r@.len() < self.spec_speed().len() ==> self.spec_speed()[r@.len() as int] == 0,
    {
        let mut speeds: Vec<usize> = Vec::new();
        let mut i: usize = 0;

        while i < self.speed.len() && self.speed[i] != 0
            invariant
                i == speeds@.len(),
                i <= self.spec_speed().len(),
                forall|j: int|
                    0 <= j < i ==> self.spec_speed()[j] != 0 && speeds@[j] == self.spec_speed()[j]
                        as usize,
            decreases self.spec_speed().len() - i,
        {
            let val = self.speed[i];
            speeds.push(#[verifier::truncate] (val as usize));
            i = i + 1;
        }

        speeds
    }

    /// Returns the camera operations supported by the device: one tag for
    /// each known bit set in the operation mask, each tag at most once, and
    /// nothing else.
    pub fn camera_operations(&self) -> (r: Vec<CameraOperation>)
        ensures
            forall|op: CameraOperation|
                r@.contains(op) <==> in_camera_operation_mask(self.spec_operations(), op),
            r@.no_duplicates(),
            self.spec_operations() == 0 ==> r@.len() == 0,
    {
        let mut operations: Vec<CameraOperation> = Vec::new();

        if self.operations & GP_OPERATION_CONFIG != 0 {
            proof {
                lemma_push_keeps_distinct(operations@, CameraOperation::Config);
            }
            operations.push(CameraOperation::Config);
        }

        if self.operations & GP_OPERATION_CAPTURE_IMAGE != 0 {
            proof {
                lemma_push_keeps_distinct(operations@, CameraOperation::CaptureImage);
            }
            operations.push(CameraOperation::CaptureImage);
        }

        if self.operations & GP_OPERATION_CAPTURE_VIDEO != 0 {
            proof {
                lemma_push_keeps_distinct(operations@, CameraOperation::CaptureVideo);
            }
            operations.push(CameraOperation::CaptureVideo);
        }

        if self.operations & GP_OPERATION_CAPTURE_AUDIO != 0 {
            proof {
                lemma_push_keeps_distinct(operations@, CameraOperation::CaptureAudio);
            }
            operations.push(CameraOperation::CaptureAudio);
        }

        if self.operations & GP_OPERATION_CAPTURE_PREVIEW != 0 {
            proof {
                lemma_push_keeps_distinct(operations@, CameraOperation::CapturePreview);
            }
            operations.push(CameraOperation::CapturePreview);
        }

        if self.operations & GP_OPERATION_TRIGGER_CAPTURE != 0 {
            proof {
                lemma_push_keeps_distinct(operations@, CameraOperation::TriggerCapture);
            }
            operations.push(CameraOperation::TriggerCapture);
        }

        proof {
            lemma_empty_mask_has_no_bit(GP_OPERATION_CONFIG);
            lemma_empty_mask_has_no_bit(GP_OPERATION_CAPTURE_IMAGE);
            lemma_empty_mask_has_no_bit(GP_OPERATION_CAPTURE_VIDEO);
            lemma_empty_mask_has_no_bit(GP_OPERATION_CAPTURE_AUDIO);
            lemma_empty_mask_has_no_bit(GP_OPERATION_CAPTURE_PREVIEW);
            lemma_empty_mask_has_no_bit(GP_OPERATION_TRIGGER_CAPTURE);
        }
        operations
    }

    /// Returns the file operations supported by the device: one tag for each
    /// known bit set in the file operation mask, each tag at most once, and
    /// nothing else.
    pub fn file_operations(&self) -> (r: Vec<FileOperation>)
        ensures
            forall|op: FileOperation|
                r@.contains(op) <==> in_file_operation_mask(self.spec_file_operations(), op),
            r@.no_duplicates(),
            self.spec_file_operations() == 0 ==> r@.len() == 0,
    {
        let mut operations: Vec<FileOperation> = Vec::new();

        if self.file_operations & GP_FILE_OPERATION_DELETE != 0 {
            proof {
                lemma_push_keeps_distinct(operations@, FileOperation::Delete);
            }
            operations.push(FileOperation::Delete);
        }

        if self.file_operations & GP_FILE_OPERATION_PREVIEW != 0 {
            proof {
                lemma_push_keeps_distinct(operations@, FileOperation::Preview);
            }
            operations.push(FileOperation::Preview);
        }

        if self.file_operations & GP_FILE_OPERATION_RAW != 0 {
            proof {
                lemma_push_keeps_distinct(operations@, FileOperation::Raw);
            }
            operations.push(FileOperation::Raw);
        }

        if self.file_operations & GP_FILE_OPERATION_AUDIO != 0 {
            proof {
                lemma_push_keeps_distinct(operations@, FileOperation::Audio);
            }
            operations.push(FileOperation::Audio);
        }

        if self.file_operations & GP_FILE_OPERATION_EXIF != 0 {
            proof {
                lemma_push_keeps_distinct(operations@, FileOperation::EXIF);
            }
            operations.push(FileOperation::EXIF);
        }

        proof {
            lemma_empty_mask_has_no_bit(GP_FILE_OPERATION_DELETE);
            lemma_empty_mask_has_no_bit(GP_FILE_OPERATION_PREVIEW);
            lemma_empty_mask_has_no_bit(GP_FILE_OPERATION_RAW);
            lemma_empty_mask_has_no_bit(GP_FILE_OPERATION_AUDIO);
            lemma_empty_mask_has_no_bit(GP_FILE_OPERATION_EXIF);
        }
        operations
    }

    /// Returns the folder operations supported by the device: one tag for
    /// each known bit set in the folder operation mask, each tag at most
    /// once, and nothing else.
    pub fn folder_operations(&self) -> (r: Vec<FolderOperation>)
        ensures
            forall|op: FolderOperation|
                r@.contains(op) <==> in_folder_operation_mask(self.spec_folder_operations(), op),
            r@.no_duplicates(),
            self.spec_folder_operations() == 0 ==> r@.len() == 0,
    {
        let mut operations: Vec<FolderOperation> = Vec::new();

        if self.folder_operations & GP_FOLDER_OPERATION_DELETE_ALL != 0 {
            proof {
                lemma_push_keeps_distinct(operations@, FolderOperation::DeleteAll);
            }
            operations.push(FolderOperation::DeleteAll);
        }

        if self.folder_operations & GP_FOLDER_OPERATION_PUT_FILE != 0 {
            proof {
                lemma_push_keeps_distinct(operations@, FolderOperation::PutFile);
            }
            operations.push(FolderOperation::PutFile);
        }

        if self.folder_operations & GP_FOLDER_OPERATION_MAKE_DIR != 0 {
            proof {
                lemma_push_keeps_distinct(operations@, FolderOperation::MakeDirectory);
            }
            operations.push(FolderOperation::MakeDirectory);
        }

        if self.folder_operations & GP_FOLDER_OPERATION_REMOVE_DIR != 0 {
            proof {
                lemma_push_keeps_distinct(operations@, FolderOperation::RemoveDirectory);
            }
            operations.push(FolderOperation::RemoveDirectory);
        }

        proof {
            lemma_empty_mask_has_no_bit(GP_FOLDER_OPERATION_DELETE_ALL);
            lemma_empty_mask_has_no_bit(GP_FOLDER_OPERATION_PUT_FILE);
            lemma_empty_mask_has_no_bit(GP_FOLDER_OPERATION_MAKE_DIR);
            lemma_empty_mask_has_no_bit(GP_FOLDER_OPERATION_REMOVE_DIR);
        }
        operations
    }

    /// USB vendor ID: the low 16 bits of the raw value.
    pub fn usb_vendor(&self) -> (r: u16)
        ensures
            r == self.spec_usb_vendor() as u16,
    {
        #[verifier::truncate] (self.usb_vendor as u16)
    }

    /// USB product ID: the low 16 bits of the raw value.
    pub fn usb_product(&self) -> (r: u16)
        ensures
            r == self.spec_usb_product() as u16,
    {
        #[verifier::truncate] (self.usb_product as u16)
    }

    /// USB device class: the low 8 bits of the raw value.
    pub fn usb_class(&self) -> (r: u8)
        ensures
            r == self.spec_usb_class() as u8,
    {
        #[verifier::truncate] (self.usb_class as u8)
    }

    /// USB device subclass: the low 8 bits of the raw value.
    pub fn usb_subclass(&self) -> (r: u8)
        ensures
            r == self.spec_usb_subclass() as u8,
    {
        #[verifier::truncate] (self.usb_subclass as u8)
    }

    /// USB device protocol: the low 8 bits of the raw value.
    pub fn usb_protocol(&self) -> (r: u8)
        ensures
            r == self.spec_usb_protocol() as u8,
    {
        #[verifier::truncate] (self.usb_protocol as u8)
    }
}

/// Builds an [`Abilities`] snapshot from the plain values read out of a
/// native abilities record.  The native record types the device type and
/// driver status as C enums, so their values are required to be in range.
pub fn from_libgphoto2(
    model: String,
    device_type: i32,
    status: i32,
    port: i32,
    speed: Vec<i32>,
    operations: i32,
    file_operations: i32,
    folder_operations: i32,
    usb_vendor: i32,
    usb_product: i32,
    usb_class: i32,
    usb_subclass: i32,
    usb_protocol: i32,
) -> (r: Abilities)
    requires
        device_type == GP_DEVICE_STILL_CAMERA || device_type == GP_DEVICE_AUDIO_PLAYER,
        GP_DRIVER_STATUS_PRODUCTION <= status <= GP_DRIVER_STATUS_DEPRECATED,
    ensures
        r.wf(),
        r.spec_model() == model@,
        r.spec_device_type() == device_type,
        r.spec_status() == status,
        r.spec_port_mask() == port,
        r.spec_speed() == speed@,
        r.spec_operations() == operations,
        r.spec_file_operations() == file_operations,
        r.spec_folder_operations() == folder_operations,
        r.spec_usb_vendor() == usb_vendor,
        r.spec_usb_product() == usb_product,
        r.spec_usb_class() == usb_class,
        r.spec_usb_subclass() == usb_subclass,
        r.spec_usb_protocol() == usb_protocol,
{
    Abilities {
        model,
        device_type,
        status,
        port,
        speed,
        operations,
        file_operations,
        folder_operations,
        usb_vendor,
        usb_product,
        usb_class,
        usb_subclass,
        usb_protocol,
    }
}

/// Law: the port type decoder is monotonic in its mask.  A tag announced by
/// a mask is still announced after any further bits are or-ed in, and the
/// empty mask announces no tag.
pub proof fn lemma_port_mask_monotonic(mask: i32, extra: i32, t: PortType)
    ensures
        in_port_mask(mask, t) ==> in_port_mask(mask | extra, t),
        !in_port_mask(0i32, t),
{
    lemma_or_keeps_bit(mask, extra, port_type_bit(t));
}

/// Law: the camera operation decoder is monotonic in its mask, and the
/// empty mask announces no tag.
pub proof fn lemma_camera_operation_mask_monotonic(mask: i32, extra: i32, op: CameraOperation)
    ensures
        in_camera_operation_mask(mask, op) ==> in_camera_operation_mask(mask | extra, op),
        !in_camera_operation_mask(0i32, op),
{
    lemma_or_keeps_bit(mask, extra, camera_operation_bit(op));
}

/// Law: the file operation decoder is monotonic in its mask, and the empty
/// mask announces no tag.
pub proof fn lemma_file_operation_mask_monotonic(mask: i32, extra: i32, op: FileOperation)
    ensures
        in_file_operation_mask(mask, op) ==> in_file_operation_mask(mask | extra, op),
        !in_file_operation_mask(0i32, op),
{
    lemma_or_keeps_bit(mask, extra, file_operation_bit(op));
}

/// Law: the folder operation decoder is monotonic in its mask, and the
/// empty mask announces no tag.
pub proof fn lemma_folder_operation_mask_monotonic(mask: i32, extra: i32, op: FolderOperation)
    ensures
        in_folder_operation_mask(mask, op) ==> in_folder_operation_mask(mask | extra, op),
        !in_folder_operation_mask(0i32, op),
{
    lemma_or_keeps_bit(mask, extra, folder_operation_bit(op));
}

} // verus!
