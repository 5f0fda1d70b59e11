//! Descriptors of what a camera's driver can do.

use vstd::prelude::*;
use vstd::utf8::decode_utf8;
use vstd::utf8::valid_utf8;

use crate::port::PortType;
use crate::port::GP_PORT_DISK;
use crate::port::GP_PORT_PTPIP;
use crate::port::GP_PORT_SERIAL;
use crate::port::GP_PORT_USB;
use crate::port::GP_PORT_USB_DISK_DIRECT;
use crate::port::GP_PORT_USB_SCSI;
use crate::text::c_text;
use crate::text::c_text_of;
use crate::text::lossy_string;
use crate::text::utf8_lossy;

verus! {

/// Status of a camera's driver.
#[derive(Debug, PartialEq, Eq, Clone, Copy, Hash, Structural)]
pub enum DriverStatus {
    /// The driver is stable and suitable for production use.
    Production,
    /// The driver is being tested.
    Testing,
    /// The driver is experimental.
    Experimental,
    /// The driver should no longer be used.
    Deprecated,
}

/// Types of devices.
#[derive(Debug, PartialEq, Eq, Clone, Copy, Hash, Structural)]
pub enum DeviceType {
    /// A still camera.
    Camera,
    /// An audio player.
    Audio,
}

/// Operations on a camera.
#[derive(Debug, PartialEq, Eq, Clone, Copy, Hash, Structural)]
pub enum CameraOperation {
    /// Capturing images.
    CaptureImage,
    /// Capturing video.
    CaptureVideo,
    /// Capturing audio.
    CaptureAudio,
    /// Capturing previews.
    CapturePreview,
    /// Configuring the camera.
    Config,
    /// Triggering a capture without waiting for it.
    TriggerCapture,
}

/// Operations on a file on a camera.
#[derive(Debug, PartialEq, Eq, Clone, Copy, Hash, Structural)]
pub enum FileOperation {
    /// Deleting the file.
    Delete,
    /// Viewing a preview of the file.
    Preview,
    /// Reading the raw data of the file.
    Raw,
    /// Reading the audio of the file.
    Audio,
    /// Reading the EXIF data of the file.
    Exif,
}

/// Operations on a folder on a camera.
#[derive(Debug, PartialEq, Eq, Clone, Copy, Hash, Structural)]
pub enum FolderOperation {
    /// Deleting all files in the folder.
    DeleteAll,
    /// Putting a file into the folder.
    PutFile,
    /// Making a directory in the folder.
    MakeDir,
    /// Removing a directory from the folder.
    RemoveDir,
}

/// The driver status that a native value stands for, if it stands for one.
pub open spec fn driver_status_of(value: u32) -> Option<DriverStatus> {
    if value == 0 {
        Some(DriverStatus::Production)
    } else if value == 1 {
        Some(DriverStatus::Testing)
    } else if value == 2 {
        Some(DriverStatus::Experimental)
    } else if value == 3 {
        Some(DriverStatus::Deprecated)
    } else {
        None
    }
}

/// The device type that a native value stands for, if it stands for one.
pub open spec fn device_type_of(value: u32) -> Option<DeviceType> {
    if value == 0 {
        Some(DeviceType::Camera)
    } else if value == 1 {
        Some(DeviceType::Audio)
    } else {
        None
    }
}

/// The bit that stands for a port type in the native mask of port types.
/// `Other` has none.
pub open spec fn port_bit(port_type: PortType) -> i32 {
    match port_type {
        PortType::Serial => GP_PORT_SERIAL,
        PortType::USB => GP_PORT_USB,
        PortType::Disk => GP_PORT_DISK,
        PortType::PTPIP => GP_PORT_PTPIP,
        PortType::Direct => GP_PORT_USB_DISK_DIRECT,
        PortType::SCSI => GP_PORT_USB_SCSI,
        PortType::Other => 0,
    }
}

/// The bit that stands for a camera operation in the native mask.
pub open spec fn camera_operation_bit(operation: CameraOperation) -> i32 {
    match operation {
        CameraOperation::CaptureImage => 1,
        CameraOperation::CaptureVideo => 2,
        CameraOperation::CaptureAudio => 4,
        CameraOperation::CapturePreview => 8,
        CameraOperation::Config => 16,
        CameraOperation::TriggerCapture => 32,
    }
}

/// The bit that stands for a file operation in the native mask.
pub open spec fn file_operation_bit(operation: FileOperation) -> i32 {
    match operation {
        FileOperation::Delete => 2,
        FileOperation::Preview => 8,
        FileOperation::Raw => 16,
        FileOperation::Audio => 32,
        FileOperation::Exif => 64,
    }
}

/// The bit that stands for a folder operation in the native mask.
pub open spec fn folder_operation_bit(operation: FolderOperation) -> i32 {
    match operation {
        FolderOperation::DeleteAll => 1,
        FolderOperation::PutFile => 2,
        FolderOperation::MakeDir => 4,
        FolderOperation::RemoveDir => 8,
    }
}

/// Whether the mask `mask` has the bit `bit` set.
pub open spec fn has_bit(mask: i32, bit: i32) -> bool {
    mask & bit != 0
}

/// Describes the abilities of a camera's driver: a copy of what the native
/// layer reported, which does not depend on the camera afterwards.
#[derive(Debug, Clone)]
pub struct Abilities {
    model: Vec<u8>,
    status: u32,
    port: i32,
    operations: i32,
    file_operations: i32,
    folder_operations: i32,
    device_type: u32,
}

/// What an `Abilities` holds, as plain values.
pub ghost struct AbilitiesView {
    pub model: Seq<u8>,
    pub status: u32,
    pub port: i32,
    pub operations: i32,
    pub file_operations: i32,
    pub folder_operations: i32,
    pub device_type: u32,
}

impl View for Abilities {
    type V = AbilitiesView;

    closed spec fn view(&self) -> AbilitiesView {
        AbilitiesView {
            model: self.model@,
            status: self.status,
            port: self.port,
            operations: self.operations,
            file_operations: self.file_operations,
            folder_operations: self.folder_operations,
            device_type: self.device_type,
        }
    }
}

/// The descriptor of a driver's abilities, from the fields of the native
/// record: the buffer with the model's name, the native value of the
/// driver's status, the masks of port types and of camera, file and folder
/// operations, and the native value of the device type.
pub fn from_libgphoto2(
    model: Vec<u8>,
    status: u32,
    port: i32,
    operations: i32,
    file_operations: i32,
    folder_operations: i32,
    device_type: u32,
) -> (abilities: Abilities)
    ensures
        abilities@ == (AbilitiesView {
            model: model@,
            status,
            port,
            operations,
            file_operations,
            folder_operations,
            device_type,
        }),
{
    Abilities { model, status, port, operations, file_operations, folder_operations, device_type }
}

impl Abilities {
    /// Returns the name of the camera's model, decoded leniently.
    pub fn model(&self) -> (s: String)
        ensures
            s@ == utf8_lossy(c_text(self@.model)),
            valid_utf8(c_text(self@.model)) ==> s@ == decode_utf8(c_text(self@.model)),
    {
        let text = c_text_of(self.model.as_slice());
        lossy_string(text.as_slice())
    }

    /// Returns the driver's stability status, if the native value names one.
    pub fn driver_status(&self) -> (status: Option<DriverStatus>)
        ensures
            status == driver_status_of(self@.status),
    {
        let value = self.status;
        if value == 0 {
            Some(DriverStatus::Production)
        } else if value == 1 {
            Some(DriverStatus::Testing)
        } else if value == 2 {
            Some(DriverStatus::Experimental)
        } else if value == 3 {
            Some(DriverStatus::Deprecated)
        } else {
            None
        }
    }

    /// Returns the type of the device, if the native value names one.
    pub fn device_type(&self) -> (device: Option<DeviceType>)
        ensures
            device == device_type_of(self@.device_type),
    {
        let value = self.device_type;
        if value == 0 {
            Some(DeviceType::Camera)
        } else if value == 1 {
            Some(DeviceType::Audio)
        } else {
            None
        }
    }

    /// Whether the camera can be reached through a port of the given type.
    pub fn supports_port(&self, port_type: PortType) -> (supported: bool)
        ensures
            supported == has_bit(self@.port, port_bit(port_type)),
    {
        let bit: i32 = match port_type {
            PortType::Serial => GP_PORT_SERIAL,
            PortType::USB => GP_PORT_USB,
            PortType::Disk => GP_PORT_DISK,
            PortType::PTPIP => GP_PORT_PTPIP,
            PortType::Direct => GP_PORT_USB_DISK_DIRECT,
            PortType::SCSI => GP_PORT_USB_SCSI,
            PortType::Other => 0,
        };
        self.port & bit != 0
    }

    /// Whether the camera supports the given operation.
    pub fn supports(&self, operation: CameraOperation) -> (supported: bool)
        ensures
            supported == has_bit(self@.operations, camera_operation_bit(operation)),
    {
        let bit: i32 = match operation {
            CameraOperation::CaptureImage => 1,
            CameraOperation::CaptureVideo => 2,
            CameraOperation::CaptureAudio => 4,
            CameraOperation::CapturePreview => 8,
            CameraOperation::Config => 16,
            CameraOperation::TriggerCapture => 32,
        };
        self.operations & bit != 0
    }

    /// Whether the camera supports the given operation on its files.
    pub fn supports_file(&self, operation: FileOperation) -> (supported: bool)
        ensures
            supported == has_bit(self@.file_operations, file_operation_bit(operation)),
    {
        let bit: i32 = match operation {
            FileOperation::Delete => 2,
            FileOperation::Preview => 8,
            FileOperation::Raw => 16,
            FileOperation::Audio => 32,
            FileOperation::Exif => 64,
        };
        self.file_operations & bit != 0
    }

    /// Whether the camera supports the given operation on its folders.
    pub fn supports_folder(&self, operation: FolderOperation) -> (supported: bool)
        ensures
            supported == has_bit(self@.folder_operations, folder_operation_bit(operation)),
    {
        let bit: i32 = match operation {
            FolderOperation::DeleteAll => 1,
            FolderOperation::PutFile => 2,
            FolderOperation::MakeDir => 4,
            FolderOperation::RemoveDir => 8,
        };
        self.folder_operations & bit != 0
    }
}

} // verus!
