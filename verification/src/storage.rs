//! Storage information.
//!
//! The native library reports one record per filesystem on a device.  Every
//! field of the record is independently optional: a per-field presence
//! bitmask says which slots were populated, and a slot whose presence bit is
//! unset holds arbitrary bytes that must never be trusted.  Each accessor
//! checks the mask bit before reading its slot.

use vstd::prelude::*;

verus! {

/// Presence bits of the storage record (`gphoto2-filesys.h`).
pub const GP_STORAGEINFO_BASE: i32 = 1;
pub const GP_STORAGEINFO_LABEL: i32 = 2;
pub const GP_STORAGEINFO_DESCRIPTION: i32 = 4;
pub const GP_STORAGEINFO_ACCESS: i32 = 8;
pub const GP_STORAGEINFO_STORAGETYPE: i32 = 16;
pub const GP_STORAGEINFO_FILESYSTEMTYPE: i32 = 32;
pub const GP_STORAGEINFO_MAXCAPACITY: i32 = 64;
pub const GP_STORAGEINFO_FREESPACEKBYTES: i32 = 128;
pub const GP_STORAGEINFO_FREESPACEIMAGES: i32 = 256;

/// Storage hardware type constants of the native library.
pub const GP_STORAGEINFO_ST_UNKNOWN: i32 = 0;
pub const GP_STORAGEINFO_ST_FIXED_ROM: i32 = 1;
pub const GP_STORAGEINFO_ST_REMOVABLE_ROM: i32 = 2;
pub const GP_STORAGEINFO_ST_FIXED_RAM: i32 = 3;
pub const GP_STORAGEINFO_ST_REMOVABLE_RAM: i32 = 4;

/// Filesystem hierarchy type constants of the native library.
pub const GP_STORAGEINFO_FST_UNDEFINED: i32 = 0;
pub const GP_STORAGEINFO_FST_GENERICFLAT: i32 = 1;
pub const GP_STORAGEINFO_FST_GENERICHIERARCHICAL: i32 = 2;
pub const GP_STORAGEINFO_FST_DCF: i32 = 3;

/// Access permission constants of the native library.
pub const GP_STORAGEINFO_AC_READWRITE: i32 = 0;
pub const GP_STORAGEINFO_AC_READONLY: i32 = 1;
pub const GP_STORAGEINFO_AC_READONLY_WITH_DELETE: i32 = 2;

/// Types of storage hardware.
#[derive(Debug, PartialEq, Eq, Clone, Copy, Structural)]
pub enum StorageType {
    /// A fixed ROM storage.
    FixedRom,
    /// A removable ROM storage.
    RemovableRom,
    /// A fixed RAM storage.
    FixedRam,
    /// A removable RAM storage.
    ///
    /// This includes any kind of removable cards (SD card, CompactFlash,
    /// etc).
    RemoveableRam,
    /// Unknown storage type.
    Unknown,
}

/// Types of filesystem hierarchies.
#[derive(Debug, PartialEq, Eq, Clone, Copy, Structural)]
pub enum FilesystemType {
    /// All files stored in one directory.
    Flat,
    /// Files are stored in a generic tree-like hierarchy.
    Hierarchical,
    /// Files are stored in a DCF-compatible hierarchy.
    ///
    /// Design rule for Camera File system (DCF) is a standard that defines a
    /// directory structure (among other things) for use on digital cameras.
    /// A filesystem that follows the DCF standard will store its media in a
    /// `DCIM` directory.
    DCF,
    /// Filesystem hierarchy is unknown.
    Unknown,
}

/// Types of access permissions.
#[derive(Debug, PartialEq, Eq, Clone, Copy, Structural)]
pub enum AccessType {
    /// Read and write operations are allowed.
    ReadWrite,
    /// Read and delete operations are allowed.
    ReadDelete,
    /// Only read operations are allowed.
    ReadOnly,
}

/// The decoding of a raw storage hardware type value.  Values the taxonomy
/// does not recognize decode as the native catch-all,
/// [`StorageType::Unknown`].
pub open spec fn decode_storage_type(value: i32) -> StorageType {
    if value == GP_STORAGEINFO_ST_FIXED_ROM {
        StorageType::FixedRom
    } else if value == GP_STORAGEINFO_ST_REMOVABLE_ROM {
        StorageType::RemovableRom
    } else if value == GP_STORAGEINFO_ST_FIXED_RAM {
        StorageType::FixedRam
    } else if value == GP_STORAGEINFO_ST_REMOVABLE_RAM {
        StorageType::RemoveableRam
    } else {
        StorageType::Unknown
    }
}

/// The decoding of a raw filesystem hierarchy type value.  Values the
/// taxonomy does not recognize decode as the native catch-all,
/// [`FilesystemType::Unknown`].
pub open spec fn decode_filesystem_type(value: i32) -> FilesystemType {
    if value == GP_STORAGEINFO_FST_GENERICFLAT {
        FilesystemType::Flat
    } else if value == GP_STORAGEINFO_FST_GENERICHIERARCHICAL {
        FilesystemType::Hierarchical
    } else if value == GP_STORAGEINFO_FST_DCF {
        FilesystemType::DCF
    } else {
        FilesystemType::Unknown
    }
}

/// The decoding of a raw access permission value in the range the native
/// library defines for it.
pub open spec fn decode_access_type(value: i32) -> AccessType {
    if value == GP_STORAGEINFO_AC_READWRITE {
        AccessType::ReadWrite
    } else if value == GP_STORAGEINFO_AC_READONLY {
        AccessType::ReadOnly
    } else {
        AccessType::ReadDelete
    }
}

/// Structure containing information about a camera's storage: a value
/// snapshot of one native storage record.
pub struct Storage {
    fields: i32,
    basedir: String,
    label: String,
    description: String,
    storage_type: i32,
    fstype: i32,
    access: i32,
    capacitykbytes: u64,
    freekbytes: u64,
    freeimages: u64,
}

impl Storage {
    /// The raw presence bitmask.
    pub closed spec fn spec_fields(&self) -> i32 {
        self.fields
    }

    /// The raw base directory slot.
    pub closed spec fn spec_basedir(&self) -> Seq<char> {
        self.basedir@
    }

    /// The raw label slot.
    pub closed spec fn spec_label(&self) -> Seq<char> {
        self.label@
    }

    /// The raw description slot.
    pub closed spec fn spec_description(&self) -> Seq<char> {
        self.description@
    }

    /// The raw storage hardware type slot.
    pub closed spec fn spec_storage_type(&self) -> i32 {
        self.storage_type
    }

    /// The raw filesystem hierarchy type slot.
    pub closed spec fn spec_fstype(&self) -> i32 {
        self.fstype
    }

    /// The raw access permission slot.
    pub closed spec fn spec_access(&self) -> i32 {
        self.access
    }

    /// The raw capacity slot.
    pub closed spec fn spec_capacitykbytes(&self) -> u64 {
        self.capacitykbytes
    }

    /// The raw free space slot.
    pub closed spec fn spec_freekbytes(&self) -> u64 {
        self.freekbytes
    }

    /// The raw free image estimate slot.
    pub closed spec fn spec_freeimages(&self) -> u64 {
        self.freeimages
    }

    /// Well-formedness: when the access slot is marked present, it holds one
    /// of the values the native library defines for it.  The native record
    /// types that slot as a C enum, so this mirrors the ABI; slots whose
    /// presence bit is unset may hold anything.
    pub open spec fn wf(&self) -> bool {
        self.spec_fields() & GP_STORAGEINFO_ACCESS != 0
            ==> GP_STORAGEINFO_AC_READWRITE <= self.spec_access()
            <= GP_STORAGEINFO_AC_READONLY_WITH_DELETE
    }

    /// Base directory of the storage, when the record reports one.
    pub fn base_dir(&self) -> (r: Option<&str>)
        ensures
            r is Some <==> self.spec_fields() & GP_STORAGEINFO_BASE != 0,
            r is Some ==> r.unwrap()@ == self.spec_basedir(),
    {
        if self.fields & GP_STORAGEINFO_BASE != 0 {
            Some(self.basedir.as_str())
        } else {
            None
        }
    }

    /// The storage's label, when the record reports one.
    pub fn label(&self) -> (r: Option<&str>)
        ensures
            r is Some <==> self.spec_fields() & GP_STORAGEINFO_LABEL != 0,
            r is Some ==> r.unwrap()@ == self.spec_label(),
    {
        if self.fields & GP_STORAGEINFO_LABEL != 0 {
            Some(self.label.as_str())
        } else {
            None
        }
    }

    /// A description of the storage, when the record reports one.
    pub fn description(&self) -> (r: Option<&str>)
        ensures
            r is Some <==> self.spec_fields() & GP_STORAGEINFO_DESCRIPTION != 0,
            r is Some ==> r.unwrap()@ == self.spec_description(),
    {
        if self.fields & GP_STORAGEINFO_DESCRIPTION != 0 {
            Some(self.description.as_str())
        } else {
            None
        }
    }

    /// The storage's hardware type, when the record reports one.
    pub fn storage_type(&self) -> (r: Option<StorageType>)
        ensures
            r is Some <==> self.spec_fields() & GP_STORAGEINFO_STORAGETYPE != 0,
            r is Some ==> r.unwrap() == decode_storage_type(self.spec_storage_type()),
    {
        if self.fields & GP_STORAGEINFO_STORAGETYPE != 0 {
            Some(
                if self.storage_type == GP_STORAGEINFO_ST_FIXED_ROM {
                    StorageType::FixedRom
                } else if self.storage_type == GP_STORAGEINFO_ST_REMOVABLE_ROM {
                    StorageType::RemovableRom
                } else if self.storage_type == GP_STORAGEINFO_ST_FIXED_RAM {
                    StorageType::FixedRam
                } else if self.storage_type == GP_STORAGEINFO_ST_REMOVABLE_RAM {
                    StorageType::RemoveableRam
                } else {
                    StorageType::Unknown
                },
            )
        } else {
            None
        }
    }

    /// The hierarchy type of the storage's filesystem, when the record
    /// reports one.
    pub fn filesystem_type(&self) -> (r: Option<FilesystemType>)
        ensures
            r is Some <==> self.spec_fields() & GP_STORAGEINFO_FILESYSTEMTYPE != 0,
            r is Some ==> r.unwrap() == decode_filesystem_type(self.spec_fstype()),
    {
        if self.fields & GP_STORAGEINFO_FILESYSTEMTYPE != 0 {
            Some(
                if self.fstype == GP_STORAGEINFO_FST_GENERICFLAT {
                    FilesystemType::Flat
                } else if self.fstype == GP_STORAGEINFO_FST_GENERICHIERARCHICAL {
                    FilesystemType::Hierarchical
                } else if self.fstype == GP_STORAGEINFO_FST_DCF {
                    FilesystemType::DCF
                } else {
                    FilesystemType::Unknown
                },
            )
        } else {
            None
        }
    }

    /// The storage's access permissions, when the record reports them.
    pub fn access_type(&self) -> (r: Option<AccessType>)
        requires
            self.wf(),
        ensures
            r is Some <==> self.spec_fields() & GP_STORAGEINFO_ACCESS != 0,
            r is Some ==> r.unwrap() == decode_access_type(self.spec_access()),
    {
        if self.fields & GP_STORAGEINFO_ACCESS != 0 {
            Some(
                if self.access == GP_STORAGEINFO_AC_READWRITE {
                    AccessType::ReadWrite
                } else if self.access == GP_STORAGEINFO_AC_READONLY {
                    AccessType::ReadOnly
                } else {
                    AccessType::ReadDelete
                },
            )
        } else {
            None
        }
    }

    /// The storage's total capacity in kilobytes, when the record reports
    /// it.
    pub fn capacity_kbytes(&self) -> (r: Option<u64>)
        ensures
            r is Some <==> self.spec_fields() & GP_STORAGEINFO_MAXCAPACITY != 0,
            r is Some ==> r.unwrap() == self.spec_capacitykbytes(),
    {
        if self.fields & GP_STORAGEINFO_MAXCAPACITY != 0 {
            Some(self.capacitykbytes)
        } else {
            None
        }
    }

    /// The storage's free space in kilobytes, when the record reports it.
    pub fn free_kbytes(&self) -> (r: Option<u64>)
        ensures
            r is Some <==> self.spec_fields() & GP_STORAGEINFO_FREESPACEKBYTES != 0,
            r is Some ==> r.unwrap() == self.spec_freekbytes(),
    {
        if self.fields & GP_STORAGEINFO_FREESPACEKBYTES != 0 {
            Some(self.freekbytes)
        } else {
            None
        }
    }

    /// An estimate of the number of images that could fit in the storage's
    /// remaining space, when the record reports one.
    ///
    /// This value is estimated by the camera.
    pub fn free_images(&self) -> (r: Option<u64>)
        ensures
            r is Some <==> self.spec_fields() & GP_STORAGEINFO_FREESPACEIMAGES != 0,
            r is Some ==> r.unwrap() == self.spec_freeimages(),
    {
        if self.fields & GP_STORAGEINFO_FREESPACEIMAGES != 0 {
            Some(self.freeimages)
        } else {
            None
        }
    }

    /// Builds a [`Storage`] snapshot from the plain values read out of one
    /// native storage record.  The native record types the access slot as a C
    /// enum, so its value is required to be in range when marked present.
    pub fn new(
        fields: i32,
        basedir: String,
        label: String,
        description: String,
        storage_type: i32,
        fstype: i32,
        access: i32,
        capacitykbytes: u64,
        freekbytes: u64,
        freeimages: u64,
    ) -> (r: Storage)
        requires
            fields & GP_STORAGEINFO_ACCESS != 0 ==> GP_STORAGEINFO_AC_READWRITE <= access
                <= GP_STORAGEINFO_AC_READONLY_WITH_DELETE,
        ensures
            r.wf(),
            r.spec_fields() == fields,
            r.spec_basedir() == basedir@,
            r.spec_label() == label@,
            r.spec_description() == description@,
            r.spec_storage_type() == storage_type,
            r.spec_fstype() == fstype,
            r.spec_access() == access,
            r.spec_capacitykbytes() == capacitykbytes,
            r.spec_freekbytes() == freekbytes,
            r.spec_freeimages() == freeimages,
    {
        Storage {
            fields,
            basedir,
            label,
            description,
            storage_type,
            fstype,
            access,
            capacitykbytes,
            freekbytes,
            freeimages,
        }
    }
}

} // verus!
