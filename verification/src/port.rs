//! Ports, through which cameras are reached, and the list of the ports that
//! the system offers.

use vstd::prelude::*;
use vstd::string::StringSliceAdditionalSpecFns;
use vstd::utf8::decode_utf8;
use vstd::utf8::valid_utf8;

use crate::camera::Camera;
use crate::error::fails_with;
use crate::error::is_success;
use crate::error::native_error;
use crate::error::Error;
use crate::error::ErrorView;
use crate::error::GP_ERROR_BAD_PARAMETERS;
use crate::error::GP_ERROR_UNKNOWN_PORT;
use crate::pairs::find_first;
use crate::pairs::linear_scan;
use crate::pairs::linear_scan_is_index_of_first;
use crate::pairs::names_of;
use crate::pairs::pairs_view;
use crate::pairs::seconds_of;
use crate::text::has_nul;
use crate::text::lossy_string;
use crate::text::utf8_lossy;

verus! {

/// Types of ports.
#[derive(Debug, PartialEq, Eq, Clone, Copy, Hash, Structural)]
pub enum PortType {
    /// Serial port.
    Serial,
    /// USB port.
    USB,
    /// Disk or local mountpoint.
    Disk,
    /// PTP or IP connection.
    PTPIP,
    /// Direct I/O on a USB mass storage device.
    Direct,
    /// USB mass storage raw SCSI port.
    SCSI,
    /// Unknown port type.
    Other,
}

/// The native tag of a serial port.
pub const GP_PORT_SERIAL: i32 = 1;

/// The native tag of a USB port.
pub const GP_PORT_USB: i32 = 4;

/// The native tag of a disk or local mountpoint.
pub const GP_PORT_DISK: i32 = 8;

/// The native tag of a PTP/IP connection.
pub const GP_PORT_PTPIP: i32 = 16;

/// The native tag of direct I/O on a USB mass storage device.
pub const GP_PORT_USB_DISK_DIRECT: i32 = 32;

/// The native tag of a USB mass storage raw SCSI port.
pub const GP_PORT_USB_SCSI: i32 = 64;

/// The port type that a native tag stands for. A tag that is none of the
/// known ones, the native "none" among them, is `Other`.
pub open spec fn port_type_of(tag: i32) -> PortType {
    if tag == GP_PORT_SERIAL {
        PortType::Serial
    } else if tag == GP_PORT_USB {
        PortType::USB
    } else if tag == GP_PORT_DISK {
        PortType::Disk
    } else if tag == GP_PORT_PTPIP {
        PortType::PTPIP
    } else if tag == GP_PORT_USB_DISK_DIRECT {
        PortType::Direct
    } else if tag == GP_PORT_USB_SCSI {
        PortType::SCSI
    } else {
        PortType::Other
    }
}

/// A structure describing a port.
///
/// A port is a view of what its camera holds: it borrows the camera and
/// cannot outlive it.
#[derive(Debug)]
pub struct Port<'a> {
    camera: &'a Camera,
    tag: i32,
    name: Vec<u8>,
    path: Vec<u8>,
}

/// What a `Port` holds, as plain values.
pub ghost struct PortView {
    pub tag: i32,
    pub name: Seq<u8>,
    pub path: Seq<u8>,
}

impl<'a> View for Port<'a> {
    type V = PortView;

    closed spec fn view(&self) -> PortView {
        PortView { tag: self.tag, name: self.name@, path: self.path@ }
    }
}

impl<'a> Port<'a> {
    /// The camera that this port was read from.
    pub closed spec fn camera(&self) -> Camera {
        *self.camera
    }

    /// Returns the type of the port.
    pub fn port_type(&self) -> (t: PortType)
        ensures
            t == port_type_of(self@.tag),
    {
        let tag = self.tag;
        if tag == GP_PORT_SERIAL {
            PortType::Serial
        } else if tag == GP_PORT_USB {
            PortType::USB
        } else if tag == GP_PORT_DISK {
            PortType::Disk
        } else if tag == GP_PORT_PTPIP {
            PortType::PTPIP
        } else if tag == GP_PORT_USB_DISK_DIRECT {
            PortType::Direct
        } else if tag == GP_PORT_USB_SCSI {
            PortType::SCSI
        } else {
            PortType::Other
        }
    }

    /// Returns the name of the port, decoded leniently.
    pub fn name(&self) -> (s: String)
        ensures
            s@ == utf8_lossy(self@.name),
            valid_utf8(self@.name) ==> s@ == decode_utf8(self@.name),
    {
        lossy_string(self.name.as_slice())
    }

    /// Returns the path of the port, decoded leniently.
    pub fn path(&self) -> (s: String)
        ensures
            s@ == utf8_lossy(self@.path),
            valid_utf8(self@.path) ==> s@ == decode_utf8(self@.path),
    {
        lossy_string(self.path.as_slice())
    }
}

/// The port of `camera`, from what the native layer reported of it: the tag
/// of its type, its name and its path.
pub fn from_libgphoto2<'a>(camera: &'a Camera, tag: i32, name: Vec<u8>, path: Vec<u8>) -> (port: Port<'a>)
    ensures
        port@ == (PortView { tag, name: name@, path: path@ }),
        port.camera() == *camera,
{
    Port { camera, tag, name, path }
}

/// What looking up `name` in `entries` gives: the index of the first entry
/// with exactly that name. A name that holds a NUL byte is refused; a name
/// that no entry has is not found.
pub open spec fn name_lookup(entries: Seq<(Seq<u8>, Seq<u8>)>, name: Seq<u8>) -> Result<
    int,
    ErrorView,
> {
    if name.contains(0u8) {
        Err(native_error(GP_ERROR_BAD_PARAMETERS, None))
    } else {
        match names_of(entries).index_of_first(name) {
            Some(i) => Ok(i),
            None => Err(native_error(GP_ERROR_UNKNOWN_PORT, None)),
        }
    }
}

/// What looking up `path` in `entries` gives, where `pattern_match` is the
/// native layer's answer to the same question, pattern matching included,
/// and `after` what the native list holds after it answered. The first
/// entry with exactly that path wins; only where there is none does the
/// native answer decide. An index that the native layer gives stands if it
/// is a position of its list; one that is not finds nothing.
pub open spec fn path_lookup(
    entries: Seq<(Seq<u8>, Seq<u8>)>,
    path: Seq<u8>,
    pattern_match: i32,
    after: Seq<(Seq<u8>, Seq<u8>)>,
) -> Result<int, ErrorView> {
    if path.contains(0u8) {
        Err(native_error(GP_ERROR_BAD_PARAMETERS, None))
    } else {
        match seconds_of(entries).index_of_first(path) {
            Some(i) => Ok(i),
            None => if !is_success(pattern_match) {
                Err(native_error(pattern_match, None))
            } else if pattern_match < after.len() {
                Ok(pattern_match as int)
            } else {
                Err(native_error(GP_ERROR_UNKNOWN_PORT, None))
            },
        }
    }
}

/// What a list holds after `path` was looked up in it: where the native
/// layer's answer decided, what the native list holds after it answered,
/// which may be an entry more; else what it held before.
pub open spec fn list_after_path_lookup(
    entries: Seq<(Seq<u8>, Seq<u8>)>,
    path: Seq<u8>,
    after: Seq<(Seq<u8>, Seq<u8>)>,
) -> Seq<(Seq<u8>, Seq<u8>)> {
    if path.contains(0u8) || seconds_of(entries).contains(path) {
        entries
    } else {
        after
    }
}

/// Whether the result `r` of a lookup is `expected`.
pub open spec fn is_lookup(r: Result<usize, Error>, expected: Result<int, ErrorView>) -> bool {
    match expected {
        Ok(i) => r matches Ok(found) && found == i,
        Err(e) => fails_with(r, e),
    }
}

/// Looking up a name gives the index that a direct linear scan of the names
/// gives, comparing for exact equality; where the scan finds nothing, the
/// name is not found.
pub proof fn lookup_name_is_linear_scan(entries: Seq<(Seq<u8>, Seq<u8>)>, name: Seq<u8>)
    requires
        !name.contains(0u8),
    ensures
        name_lookup(entries, name) == match linear_scan(names_of(entries), name, 0) {
            Some(i) => Ok::<int, ErrorView>(i),
            None => Err(native_error(GP_ERROR_UNKNOWN_PORT, None)),
        },
{
    linear_scan_is_index_of_first(names_of(entries), name);
}

/// Where an entry has exactly the path that is looked up, the lookup gives
/// the first such entry and leaves the list as it was, whatever the native
/// layer's pattern matching answered.
pub proof fn exact_path_match_wins(
    entries: Seq<(Seq<u8>, Seq<u8>)>,
    path: Seq<u8>,
    pattern_match: i32,
    after: Seq<(Seq<u8>, Seq<u8>)>,
)
    requires
        !path.contains(0u8),
        seconds_of(entries).contains(path),
    ensures
        linear_scan(seconds_of(entries), path, 0) matches Some(i) && path_lookup(
            entries,
            path,
            pattern_match,
            after,
        ) == Ok::<int, ErrorView>(i),
        list_after_path_lookup(entries, path, after) == entries,
{
    linear_scan_is_index_of_first(seconds_of(entries), path);
    seconds_of(entries).index_of_first_ensures(path);
}

/// Only where no entry has exactly the path that is looked up does the
/// native layer's pattern matching decide: its index stands if it is a
/// position of the list that the native layer then holds, and its error is
/// translated.
pub proof fn pattern_match_is_fallback(
    entries: Seq<(Seq<u8>, Seq<u8>)>,
    path: Seq<u8>,
    pattern_match: i32,
    after: Seq<(Seq<u8>, Seq<u8>)>,
)
    requires
        !path.contains(0u8),
        !seconds_of(entries).contains(path),
    ensures
        is_success(pattern_match) && pattern_match < after.len() ==> path_lookup(
            entries,
            path,
            pattern_match,
            after,
        ) == Ok::<int, ErrorView>(pattern_match as int),
        is_success(pattern_match) && pattern_match >= after.len() ==> path_lookup(
            entries,
            path,
            pattern_match,
            after,
        ) == Err::<int, ErrorView>(native_error(GP_ERROR_UNKNOWN_PORT, None)),
        !is_success(pattern_match) ==> path_lookup(entries, path, pattern_match, after) == Err::<
            int,
            ErrorView,
        >(native_error(pattern_match, None)),
        list_after_path_lookup(entries, path, after) == after,
{
    seconds_of(entries).index_of_first_ensures(path);
}

/// The index that a lookup by path gives is a position of the list as it
/// is after the lookup.
pub proof fn path_lookup_gives_a_position(
    entries: Seq<(Seq<u8>, Seq<u8>)>,
    path: Seq<u8>,
    pattern_match: i32,
    after: Seq<(Seq<u8>, Seq<u8>)>,
)
    ensures
        path_lookup(entries, path, pattern_match, after) matches Ok(i) ==> 0 <= i
            < list_after_path_lookup(entries, path, after).len(),
{
    seconds_of(entries).index_of_first_ensures(path);
}

/// A structure representing a list of the ports that the system offers:
/// the name and the path of each, in the order of the native list.
#[derive(Debug)]
pub struct PortList {
    entries: Vec<(Vec<u8>, Vec<u8>)>,
}

impl View for PortList {
    type V = Seq<(Seq<u8>, Seq<u8>)>;

    /// The name and the path of each entry.
    closed spec fn view(&self) -> Seq<(Seq<u8>, Seq<u8>)> {
        pairs_view(self.entries@)
    }
}

impl PortList {
    /// The model of a port list that the native layer was asked to
    /// allocate, with the status code of that call. A new list is empty.
    pub fn new(status: i32) -> (r: Result<PortList, Error>)
        ensures
            is_success(status) ==> (r matches Ok(list) && list@.len() == 0),
            !is_success(status) ==> fails_with(r, native_error(status, None)),
    {
        if status >= 0 {
            Ok(PortList { entries: Vec::new() })
        } else {
            Err(crate::error::from_libgphoto2(status))
        }
    }

    /// Takes over what the native layer found when it searched the system
    /// for ports: `status` is the status code of that search, `probed` the
    /// name and path of each entry that the native list then holds. After a
    /// search that failed the list is as it was.
    pub fn load(&mut self, status: i32, probed: Vec<(Vec<u8>, Vec<u8>)>) -> (r: Result<(), Error>)
        ensures
            is_success(status) ==> r is Ok && final(self)@ == pairs_view(probed@),
            !is_success(status) ==> fails_with(r, native_error(status, None)) && final(self)@
                == old(self)@,
    {
        if status >= 0 {
            self.entries = probed;
            Ok(())
        } else {
            Err(crate::error::from_libgphoto2(status))
        }
    }

    /// Looks for an entry in the list with the exact given name.
    ///
    /// Returns the index of the first such entry or an error.
    pub fn lookup_name(&mut self, name: &str) -> (r: Result<usize, Error>)
        ensures
            is_lookup(r, name_lookup(old(self)@, name.spec_bytes())),
            final(self)@ == old(self)@,
            r matches Ok(i) ==> i < final(self)@.len(),
    {
        let key = name.as_bytes();
        if has_nul(key) {
            return Err(crate::error::from_libgphoto2(GP_ERROR_BAD_PARAMETERS));
        }
        match find_first(&self.entries, key, false) {
            Some(i) => Ok(i),
            None => Err(crate::error::from_libgphoto2(GP_ERROR_UNKNOWN_PORT)),
        }
    }

    /// Looks for an entry in the list with the supplied path. If no exact
    /// match can be found, the answer of the native layer stands, which
    /// matches the path against the patterns of drivers that claim whole
    /// families of ports and may put an entry for the path into its list:
    /// `pattern_match` is the index or the error code that it returned for
    /// the same path, and `after` the name and path of each entry that the
    /// native list holds after that. Where the native answer decides, the
    /// list takes `after` over.
    ///
    /// Returns the index of the entry, which is a position of the list as it
    /// then is, or an error.
    pub fn lookup_path(
        &mut self,
        path: &str,
        pattern_match: i32,
        after: Vec<(Vec<u8>, Vec<u8>)>,
    ) -> (r: Result<usize, Error>)
        ensures
            is_lookup(
                r,
                path_lookup(old(self)@, path.spec_bytes(), pattern_match, pairs_view(after@)),
            ),
            final(self)@ == list_after_path_lookup(
                old(self)@,
                path.spec_bytes(),
                pairs_view(after@),
            ),
            r matches Ok(i) ==> i < final(self)@.len(),
    {
        let key = path.as_bytes();
        if has_nul(key) {
            return Err(crate::error::from_libgphoto2(GP_ERROR_BAD_PARAMETERS));
        }
        proof {
            seconds_of(self@).index_of_first_ensures(key@);
        }
        match find_first(&self.entries, key, true) {
            Some(i) => Ok(i),
            None => {
                self.entries = after;
                if pattern_match < 0 {
                    Err(crate::error::from_libgphoto2(pattern_match))
                } else if (pattern_match as usize) < self.entries.len() {
                    Ok(pattern_match as usize)
                } else {
                    Err(crate::error::from_libgphoto2(GP_ERROR_UNKNOWN_PORT))
                }
            },
        }
    }

    /// Get the amount of entries in the list.
    pub fn len(&mut self) -> (n: usize)
        ensures
            n == old(self)@.len(),
            final(self)@ == old(self)@,
    {
        self.entries.len()
    }
}

} // verus!
