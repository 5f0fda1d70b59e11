//! Descriptors of the storage that a camera exposes.

use vstd::prelude::*;
use vstd::utf8::decode_utf8;
use vstd::utf8::valid_utf8;

use crate::text::c_text;
use crate::text::c_text_of;
use crate::text::lossy_string;
use crate::text::utf8_lossy;

verus! {

/// The bit of the field mask that says the base directory is set.
pub const GP_STORAGEINFO_BASE: i32 = 1;

/// The bit of the field mask that says the label is set.
pub const GP_STORAGEINFO_LABEL: i32 = 2;

/// The bit of the field mask that says the description is set.
pub const GP_STORAGEINFO_DESCRIPTION: i32 = 4;

/// The bit of the field mask that says the access type is set.
pub const GP_STORAGEINFO_ACCESS: i32 = 8;

/// The bit of the field mask that says the storage type is set.
pub const GP_STORAGEINFO_STORAGETYPE: i32 = 16;

/// The bit of the field mask that says the filesystem type is set.
pub const GP_STORAGEINFO_FILESYSTEMTYPE: i32 = 32;

/// The bit of the field mask that says the capacity is set.
pub const GP_STORAGEINFO_MAXCAPACITY: i32 = 64;

/// The bit of the field mask that says the free space is set.
pub const GP_STORAGEINFO_FREESPACEKBYTES: i32 = 128;

/// The bit of the field mask that says the number of free images is set.
pub const GP_STORAGEINFO_FREESPACEIMAGES: i32 = 256;

/// Types of storage hardware.
#[derive(Debug, PartialEq, Eq, Clone, Copy, Hash, Structural)]
pub enum StorageType {
    /// A type that the native layer does not name.
    Unknown,
    /// Read-only memory that cannot be removed.
    FixedRom,
    /// Read-only memory that can be removed.
    RemovableRom,
    /// Writable memory that cannot be removed.
    FixedRam,
    /// Writable memory that can be removed.
    RemovableRam,
}

/// Types of filesystem hierarchies.
#[derive(Debug, PartialEq, Eq, Clone, Copy, Hash, Structural)]
pub enum FilesystemType {
    /// A layout that the native layer does not name.
    Unknown,
    /// All files in one directory.
    Flat,
    /// Files in a tree of directories.
    Hierarchical,
    /// The camera file system layout (DCIM).
    DCF,
}

/// Types of access to a storage.
#[derive(Debug, PartialEq, Eq, Clone, Copy, Hash, Structural)]
pub enum AccessType {
    /// Files can be read and written.
    ReadWrite,
    /// Files can be read only.
    ReadOnly,
    /// Files can be read and deleted.
    ReadDelete,
}

/// The storage type that a native value stands for.
pub open spec fn storage_type_of(value: u32) -> StorageType {
    if value == 1 {
        StorageType::FixedRom
    } else if value == 2 {
        StorageType::RemovableRom
    } else if value == 3 {
        StorageType::FixedRam
    } else if value == 4 {
        StorageType::RemovableRam
    } else {
        StorageType::Unknown
    }
}

/// The filesystem type that a native value stands for.
pub open spec fn filesystem_type_of(value: u32) -> FilesystemType {
    if value == 1 {
        FilesystemType::Flat
    } else if value == 2 {
        FilesystemType::Hierarchical
    } else if value == 3 {
        FilesystemType::DCF
    } else {
        FilesystemType::Unknown
    }
}

/// The access type that a native value stands for, if it stands for one.
pub open spec fn access_type_of(value: u32) -> Option<AccessType> {
    if value == 0 {
        Some(AccessType::ReadWrite)
    } else if value == 1 {
        Some(AccessType::ReadOnly)
    } else if value == 2 {
        Some(AccessType::ReadDelete)
    } else {
        None
    }
}

/// Whether the field mask `fields` has a bit of `mask` set.
pub open spec fn has_field(fields: i32, mask: i32) -> bool {
    fields & mask != 0
}

/// Structure containing information about a camera's storage: a copy of
/// what the native layer reported, which does not depend on the camera
/// afterwards.
#[derive(Debug, Clone)]
pub struct Storage {
    fields: i32,
    base_dir: Vec<u8>,
    label: Vec<u8>,
    description: Vec<u8>,
    storage_type: u32,
    filesystem_type: u32,
    access: u32,
    capacity_kbytes: u64,
    free_kbytes: u64,
    free_images: u64,
}

/// What a `Storage` holds, as plain values.
pub ghost struct StorageView {
    pub fields: i32,
    pub base_dir: Seq<u8>,
    pub label: Seq<u8>,
    pub description: Seq<u8>,
    pub storage_type: u32,
    pub filesystem_type: u32,
    pub access: u32,
    pub capacity_kbytes: u64,
    pub free_kbytes: u64,
    pub free_images: u64,
}

impl View for Storage {
    type V = StorageView;

    closed spec fn view(&self) -> StorageView {
        StorageView {
            fields: self.fields,
            base_dir: self.base_dir@,
            label: self.label@,
            description: self.description@,
            storage_type: self.storage_type,
            filesystem_type: self.filesystem_type,
            access: self.access,
            capacity_kbytes: self.capacity_kbytes,
            free_kbytes: self.free_kbytes,
            free_images: self.free_images,
        }
    }
}

/// The text in `buffer`, decoded leniently, if `present`.
pub open spec fn optional_text(present: bool, buffer: Seq<u8>) -> Option<Seq<char>> {
    if present {
        Some(utf8_lossy(c_text(buffer)))
    } else {
        None
    }
}

/// The text in `buffer`, decoded as it stands, if `present` and if it is
/// valid UTF-8: what the lenient decoding gives of such text.
pub open spec fn is_exact_text(found: Option<String>, present: bool, buffer: Seq<u8>) -> bool {
    present && valid_utf8(c_text(buffer)) ==> (found matches Some(s) && s@ == decode_utf8(
        c_text(buffer),
    ))
}

/// Whether the optional string `found` is `expected`.
pub open spec fn is_optional_text(found: Option<String>, expected: Option<Seq<char>>) -> bool {
    match expected {
        Some(text) => found matches Some(s) && s@ == text,
        None => found is None,
    }
}

/// The descriptor of a storage, from the fields of the native record: the
/// mask that says which of the others are set, the three text buffers, the
/// three native enumeration values, and the three counts.
pub fn from_libgphoto2(
    fields: i32,
    base_dir: Vec<u8>,
    label: Vec<u8>,
    description: Vec<u8>,
    storage_type: u32,
    filesystem_type: u32,
    access: u32,
    capacity_kbytes: u64,
    free_kbytes: u64,
    free_images: u64,
) -> (storage: Storage)
    ensures
        storage@ == (StorageView {
            fields,
            base_dir: base_dir@,
            label: label@,
            description: description@,
            storage_type,
            filesystem_type,
            access,
            capacity_kbytes,
            free_kbytes,
            free_images,
        }),
{
    Storage {
        fields,
        base_dir,
        label,
        description,
        storage_type,
        filesystem_type,
        access,
        capacity_kbytes,
        free_kbytes,
        free_images,
    }
}

impl Storage {
    /// Whether the native layer set the field that `mask` stands for.
    fn has(&self, mask: i32) -> (present: bool)
        ensures
            present == has_field(self@.fields, mask),
    {
        self.fields & mask != 0
    }

    /// The text in `buffer`, decoded leniently, if the field of `mask` is set.
    fn text(&self, mask: i32, buffer: &[u8]) -> (found: Option<String>)
        ensures
            is_optional_text(found, optional_text(has_field(self@.fields, mask), buffer@)),
            is_exact_text(found, has_field(self@.fields, mask), buffer@),
    {
        if self.has(mask) {
            let text = c_text_of(buffer);
            Some(lossy_string(text.as_slice()))
        } else {
            None
        }
    }

    /// The base directory of the storage, if it is set.
    pub fn base_dir(&self) -> (found: Option<String>)
        ensures
            is_optional_text(
                found,
                optional_text(has_field(self@.fields, GP_STORAGEINFO_BASE), self@.base_dir),
            ),
            is_exact_text(found, has_field(self@.fields, GP_STORAGEINFO_BASE), self@.base_dir),
    {
        self.text(GP_STORAGEINFO_BASE, self.base_dir.as_slice())
    }

    /// The label of the storage, if it is set.
    pub fn label(&self) -> (found: Option<String>)
        ensures
            is_optional_text(
                found,
                optional_text(has_field(self@.fields, GP_STORAGEINFO_LABEL), self@.label),
            ),
            is_exact_text(found, has_field(self@.fields, GP_STORAGEINFO_LABEL), self@.label),
    {
        self.text(GP_STORAGEINFO_LABEL, self.label.as_slice())
    }

    /// The description of the storage, if it is set.
    pub fn description(&self) -> (found: Option<String>)
        ensures
            is_optional_text(
                found,
                optional_text(
                    has_field(self@.fields, GP_STORAGEINFO_DESCRIPTION),
                    self@.description,
                ),
            ),
            is_exact_text(
                found,
                has_field(self@.fields, GP_STORAGEINFO_DESCRIPTION),
                self@.description,
            ),
    {
        self.text(GP_STORAGEINFO_DESCRIPTION, self.description.as_slice())
    }

    /// The type of the storage hardware, if it is set.
    pub fn storage_type(&self) -> (found: Option<StorageType>)
        ensures
            found == if has_field(self@.fields, GP_STORAGEINFO_STORAGETYPE) {
                Some(storage_type_of(self@.storage_type))
            } else {
                None
            },
    {
        if self.has(GP_STORAGEINFO_STORAGETYPE) {
            let value = self.storage_type;
            Some(
                if value == 1 {
                    StorageType::FixedRom
                } else if value == 2 {
                    StorageType::RemovableRom
                } else if value == 3 {
                    StorageType::FixedRam
                } else if value == 4 {
                    StorageType::RemovableRam
                } else {
                    StorageType::Unknown
                },
            )
        } else {
            None
        }
    }

    /// The type of the filesystem on the storage, if it is set.
    pub fn filesystem_type(&self) -> (found: Option<FilesystemType>)
        ensures
            found == if has_field(self@.fields, GP_STORAGEINFO_FILESYSTEMTYPE) {
                Some(filesystem_type_of(self@.filesystem_type))
            } else {
                None
            },
    {
        if self.has(GP_STORAGEINFO_FILESYSTEMTYPE) {
            let value = self.filesystem_type;
            Some(
                if value == 1 {
                    FilesystemType::Flat
                } else if value == 2 {
                    FilesystemType::Hierarchical
                } else if value == 3 {
                    FilesystemType::DCF
                } else {
                    FilesystemType::Unknown
                },
            )
        } else {
            None
        }
    }

    /// The access that the storage allows, if it is set and is a value that
    /// the native layer names.
    pub fn access_type(&self) -> (found: Option<AccessType>)
        ensures
            found == if has_field(self@.fields, GP_STORAGEINFO_ACCESS) {
                access_type_of(self@.access)
            } else {
                None
            },
    {
        if self.has(GP_STORAGEINFO_ACCESS) {
            let value = self.access;
            if value == 0 {
                Some(AccessType::ReadWrite)
            } else if value == 1 {
                Some(AccessType::ReadOnly)
            } else if value == 2 {
                Some(AccessType::ReadDelete)
            } else {
                None
            }
        } else {
            None
        }
    }

    /// The total capacity of the storage in kilobytes, if it is set.
    pub fn capacity_kbytes(&self) -> (found: Option<u64>)
        ensures
            found == if has_field(self@.fields, GP_STORAGEINFO_MAXCAPACITY) {
                Some(self@.capacity_kbytes)
            } else {
                None
            },
    {
        if self.has(GP_STORAGEINFO_MAXCAPACITY) {
            Some(self.capacity_kbytes)
        } else {
            None
        }
    }

    /// The free space of the storage in kilobytes, if it is set.
    pub fn free_kbytes(&self) -> (found: Option<u64>)
        ensures
            found == if has_field(self@.fields, GP_STORAGEINFO_FREESPACEKBYTES) {
                Some(self@.free_kbytes)
            } else {
                None
            },
    {
        if self.has(GP_STORAGEINFO_FREESPACEKBYTES) {
            Some(self.free_kbytes)
        } else {
            None
        }
    }

    /// The number of images that still fit on the storage, if it is set.
    pub fn free_images(&self) -> (found: Option<u64>)
        ensures
            found == if has_field(self@.fields, GP_STORAGEINFO_FREESPACEIMAGES) {
                Some(self@.free_images)
            } else {
                None
            },
    {
        if self.has(GP_STORAGEINFO_FREESPACEIMAGES) {
            Some(self.free_images)
        } else {
            None
        }
    }
}

} // verus!
