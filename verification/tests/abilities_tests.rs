use gphoto::abilities::{self, GP_DEVICE_AUDIO_PLAYER, GP_DEVICE_STILL_CAMERA,
    GP_DRIVER_STATUS_DEPRECATED, GP_DRIVER_STATUS_EXPERIMENTAL, GP_DRIVER_STATUS_PRODUCTION,
    GP_DRIVER_STATUS_TESTING, GP_FILE_OPERATION_AUDIO, GP_FILE_OPERATION_DELETE,
    GP_FILE_OPERATION_EXIF, GP_FILE_OPERATION_PREVIEW, GP_FILE_OPERATION_RAW,
    GP_FOLDER_OPERATION_DELETE_ALL, GP_FOLDER_OPERATION_MAKE_DIR, GP_FOLDER_OPERATION_PUT_FILE,
    GP_FOLDER_OPERATION_REMOVE_DIR, GP_OPERATION_CAPTURE_AUDIO, GP_OPERATION_CAPTURE_IMAGE,
    GP_OPERATION_CAPTURE_PREVIEW, GP_OPERATION_CAPTURE_VIDEO, GP_OPERATION_CONFIG,
    GP_OPERATION_TRIGGER_CAPTURE};
use gphoto::port::{GP_PORT_DISK, GP_PORT_PTPIP, GP_PORT_SERIAL, GP_PORT_USB,
    GP_PORT_USB_DISK_DIRECT, GP_PORT_USB_SCSI};
use gphoto::{Abilities, CameraOperation, DeviceType, DriverStatus, FileOperation, FolderOperation,
    PortType};

fn snapshot(
    device_type: i32,
    status: i32,
    port: i32,
    speed: Vec<i32>,
    operations: i32,
    file_operations: i32,
    folder_operations: i32,
) -> Abilities {
    abilities::from_libgphoto2(
        String::from("Nikon DSC D750"),
        device_type,
        status,
        port,
        speed,
        operations,
        file_operations,
        folder_operations,
        0x04b0,
        0x0437,
        6,
        1,
        1,
    )
}

fn plain(port: i32, operations: i32, file_operations: i32, folder_operations: i32) -> Abilities {
    snapshot(
        GP_DEVICE_STILL_CAMERA,
        GP_DRIVER_STATUS_PRODUCTION,
        port,
        Vec::new(),
        operations,
        file_operations,
        folder_operations,
    )
}

#[test]
fn decodes_both_device_types() {
    let camera = snapshot(GP_DEVICE_STILL_CAMERA, 0, 0, Vec::new(), 0, 0, 0);
    assert_eq!(camera.device_type(), DeviceType::Camera);
    let audio = snapshot(GP_DEVICE_AUDIO_PLAYER, 0, 0, Vec::new(), 0, 0, 0);
    assert_eq!(audio.device_type(), DeviceType::Audio);
}

#[test]
fn decodes_every_driver_status() {
    let cases = [
        (GP_DRIVER_STATUS_PRODUCTION, DriverStatus::Production),
        (GP_DRIVER_STATUS_TESTING, DriverStatus::Testing),
        (GP_DRIVER_STATUS_EXPERIMENTAL, DriverStatus::Experimental),
        (GP_DRIVER_STATUS_DEPRECATED, DriverStatus::Deprecated),
    ];
    for (raw, status) in cases {
        let a = snapshot(GP_DEVICE_STILL_CAMERA, raw, 0, Vec::new(), 0, 0, 0);
        assert_eq!(a.driver_status(), status);
    }
}

#[test]
fn reports_the_model() {
    let a = plain(0, 0, 0, 0);
    assert_eq!(a.model(), "Nikon DSC D750");
}

#[test]
fn empty_port_mask_decodes_to_no_port_types() {
    assert!(plain(0, 0, 0, 0).port_types().is_empty());
}

#[test]
fn each_port_bit_decodes_to_its_tag() {
    let cases = [
        (GP_PORT_SERIAL, PortType::Serial),
        (GP_PORT_USB, PortType::USB),
        (GP_PORT_DISK, PortType::Disk),
        (GP_PORT_PTPIP, PortType::PTPIP),
        (GP_PORT_USB_DISK_DIRECT, PortType::Direct),
        (GP_PORT_USB_SCSI, PortType::SCSI),
    ];
    for (bit, tag) in cases {
        let decoded = plain(bit, 0, 0, 0).port_types();
        assert_eq!(decoded, vec![tag]);
    }
}

#[test]
fn combined_port_mask_decodes_each_set_bit_once() {
    let decoded = plain(GP_PORT_SERIAL | GP_PORT_USB | GP_PORT_USB_SCSI, 0, 0, 0).port_types();
    assert_eq!(decoded.len(), 3);
    assert!(decoded.contains(&PortType::Serial));
    assert!(decoded.contains(&PortType::USB));
    assert!(decoded.contains(&PortType::SCSI));
    assert!(!decoded.contains(&PortType::Disk));
}

#[test]
fn unrecognized_port_bits_are_ignored() {
    let stray = 1 << 20 | 1 << 1 | 1 << 30;
    let decoded = plain(GP_PORT_USB | stray, 0, 0, 0).port_types();
    assert_eq!(decoded, vec![PortType::USB]);
}

#[test]
fn port_mask_decoding_is_monotonic() {
    let base = GP_PORT_SERIAL | GP_PORT_DISK;
    let before = plain(base, 0, 0, 0).port_types();
    let after = plain(base | GP_PORT_PTPIP | 1 << 25, 0, 0, 0).port_types();
    for tag in &before {
        assert!(after.contains(tag));
    }
}

#[test]
fn speeds_stop_at_the_first_zero_entry() {
    let backing = vec![9600, 19200, 0, 57600, 115200];
    let a = snapshot(0, 0, 0, backing, 0, 0, 0);
    assert_eq!(a.speeds(), vec![9600, 19200]);
}

#[test]
fn speeds_of_a_zero_led_array_are_empty() {
    let a = snapshot(0, 0, 0, vec![0, 9600, 19200], 0, 0, 0);
    assert!(a.speeds().is_empty());
}

#[test]
fn speeds_without_a_zero_cover_the_whole_array() {
    let a = snapshot(0, 0, 0, vec![300, 1200, 2400], 0, 0, 0);
    assert_eq!(a.speeds(), vec![300, 1200, 2400]);
}

#[test]
fn each_camera_operation_bit_decodes_to_its_tag() {
    let cases = [
        (GP_OPERATION_CONFIG, CameraOperation::Config),
        (GP_OPERATION_CAPTURE_IMAGE, CameraOperation::CaptureImage),
        (GP_OPERATION_CAPTURE_VIDEO, CameraOperation::CaptureVideo),
        (GP_OPERATION_CAPTURE_AUDIO, CameraOperation::CaptureAudio),
        (GP_OPERATION_CAPTURE_PREVIEW, CameraOperation::CapturePreview),
        (GP_OPERATION_TRIGGER_CAPTURE, CameraOperation::TriggerCapture),
    ];
    for (bit, tag) in cases {
        assert_eq!(plain(0, bit, 0, 0).camera_operations(), vec![tag]);
    }
    assert!(plain(0, 0, 0, 0).camera_operations().is_empty());
}

#[test]
fn camera_operation_decoding_is_monotonic() {
    let base = GP_OPERATION_CAPTURE_IMAGE | GP_OPERATION_CONFIG;
    let before = plain(0, base, 0, 0).camera_operations();
    let after = plain(0, base | GP_OPERATION_CAPTURE_PREVIEW | 1 << 17, 0, 0).camera_operations();
    for tag in &before {
        assert!(after.contains(tag));
    }
    assert!(after.contains(&CameraOperation::CapturePreview));
}

#[test]
fn each_file_operation_bit_decodes_to_its_tag() {
    let cases = [
        (GP_FILE_OPERATION_DELETE, FileOperation::Delete),
        (GP_FILE_OPERATION_PREVIEW, FileOperation::Preview),
        (GP_FILE_OPERATION_RAW, FileOperation::Raw),
        (GP_FILE_OPERATION_AUDIO, FileOperation::Audio),
        (GP_FILE_OPERATION_EXIF, FileOperation::EXIF),
    ];
    for (bit, tag) in cases {
        assert_eq!(plain(0, 0, bit, 0).file_operations(), vec![tag]);
    }
    assert!(plain(0, 0, 0, 0).file_operations().is_empty());
    let unknown_low_bit = 1;
    assert!(plain(0, 0, unknown_low_bit, 0).file_operations().is_empty());
}

#[test]
fn each_folder_operation_bit_decodes_to_its_tag() {
    let cases = [
        (GP_FOLDER_OPERATION_DELETE_ALL, FolderOperation::DeleteAll),
        (GP_FOLDER_OPERATION_PUT_FILE, FolderOperation::PutFile),
        (GP_FOLDER_OPERATION_MAKE_DIR, FolderOperation::MakeDirectory),
        (GP_FOLDER_OPERATION_REMOVE_DIR, FolderOperation::RemoveDirectory),
    ];
    for (bit, tag) in cases {
        assert_eq!(plain(0, 0, 0, bit).folder_operations(), vec![tag]);
    }
    assert!(plain(0, 0, 0, 0).folder_operations().is_empty());
}

#[test]
fn usb_identifiers_keep_their_low_bits() {
    let a = abilities::from_libgphoto2(
        String::new(),
        GP_DEVICE_STILL_CAMERA,
        GP_DRIVER_STATUS_PRODUCTION,
        0,
        Vec::new(),
        0,
        0,
        0,
        0x04b0,
        0x70437,
        0x106,
        2,
        3,
    );
    assert_eq!(a.usb_vendor(), 0x04b0);
    assert_eq!(a.usb_product(), 0x0437);
    assert_eq!(a.usb_class(), 6);
    assert_eq!(a.usb_subclass(), 2);
    assert_eq!(a.usb_protocol(), 3);
}

#[test]
fn detected_camera_reports_known_type_and_operations() {
    // The shape of an autodetected device's abilities: the device type is
    // one of the two known variants and every reported camera operation is
    // one of the six known tags.
    let a = snapshot(
        GP_DEVICE_STILL_CAMERA,
        GP_DRIVER_STATUS_PRODUCTION,
        GP_PORT_USB,
        Vec::new(),
        GP_OPERATION_CAPTURE_IMAGE | GP_OPERATION_TRIGGER_CAPTURE | GP_OPERATION_CONFIG
            | GP_OPERATION_CAPTURE_PREVIEW,
        GP_FILE_OPERATION_DELETE | GP_FILE_OPERATION_PREVIEW,
        GP_FOLDER_OPERATION_MAKE_DIR | GP_FOLDER_OPERATION_REMOVE_DIR
            | GP_FOLDER_OPERATION_PUT_FILE,
    );
    let device_type = a.device_type();
    assert!(matches!(device_type, DeviceType::Camera | DeviceType::Audio));
    let known = [
        CameraOperation::Config,
        CameraOperation::CaptureImage,
        CameraOperation::CaptureVideo,
        CameraOperation::CaptureAudio,
        CameraOperation::CapturePreview,
        CameraOperation::TriggerCapture,
    ];
    let ops = a.camera_operations();
    assert_eq!(ops.len(), 4);
    for op in &ops {
        assert!(known.contains(op));
    }
}

#[test]
fn file_operation_decoding_is_monotonic() {
    let base = GP_FILE_OPERATION_DELETE | GP_FILE_OPERATION_EXIF;
    let before = plain(0, 0, base, 0).file_operations();
    let after = plain(0, 0, base | GP_FILE_OPERATION_RAW | 1 << 12, 0).file_operations();
    for tag in &before {
        assert!(after.contains(tag));
    }
    assert!(after.contains(&FileOperation::Raw));
}

#[test]
fn folder_operation_decoding_is_monotonic() {
    let base = GP_FOLDER_OPERATION_PUT_FILE;
    let before = plain(0, 0, 0, base).folder_operations();
    let after = plain(0, 0, 0, base | GP_FOLDER_OPERATION_DELETE_ALL | 1 << 9).folder_operations();
    for tag in &before {
        assert!(after.contains(tag));
    }
    assert!(after.contains(&FolderOperation::DeleteAll));
}
