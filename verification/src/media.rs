//! Sinks that the native layer writes captured and downloaded bytes into.

use vstd::prelude::*;

use crate::error::fails_with;
use crate::error::from_libgphoto2;
use crate::error::is_success;
use crate::error::native_error;
use crate::error::Error;
use crate::error::ErrorKind;
use crate::error::ErrorView;
use crate::error::GP_ERROR_BAD_PARAMETERS;
use crate::error::GP_ERROR_FILE_EXISTS;
use crate::error::GP_ERROR_OS_FAILURE;
use crate::text::has_nul;

verus! {

/// What stands behind a sink.
#[derive(Clone, Copy, Debug, PartialEq, Eq, Hash, Structural)]
pub enum Backing {
    /// A buffer in memory that grows as the native layer fills it.
    Memory,
    /// An open file, by its descriptor, which the sink owns.
    Descriptor(i32),
}

/// A trait for types that can store media.
pub trait Media {
    /// What stands behind the sink.
    spec fn backing(&self) -> Backing;

    /// What stands behind the sink.
    fn backed_by(&self) -> (b: Backing)
        ensures
            b == self.backing(),
    ;
}

/// Media stored in a local file or in memory.
#[derive(Debug)]
pub struct FileMedia {
    backing: Backing,
}

impl View for FileMedia {
    type V = Backing;

    closed spec fn view(&self) -> Backing {
        self.backing
    }
}

impl Media for FileMedia {
    open spec fn backing(&self) -> Backing {
        self@
    }

    fn backed_by(&self) -> (b: Backing) {
        self.backing
    }
}

/// What exclusive creation goes by on a platform: the flags that its open
/// call is given, and the error number that the call leaves where the path
/// is occupied.
#[derive(Clone, Copy, Debug, PartialEq, Eq, Hash, Structural)]
pub struct ExclusiveOpen {
    /// The flag that creates the file where there is none.
    pub create: i32,
    /// The flag that makes the call fail where the file is there.
    pub exclusive: i32,
    /// The flag for reading and writing.
    pub read_write: i32,
    /// The three flags joined.
    pub bits: i32,
    /// The error number of a path that is occupied.
    pub occupied: i32,
}

/// The permission bits that a file is created with.
pub const CREATE_MODE: u32 = 0o644;

/// `libc::O_CREAT`, the platform's open flag that creates the file where
/// there is none. Its value differs between platforms, so nothing is stated
/// of it.
#[verifier::external_body]
fn flag_create() -> i32 {
    libc::O_CREAT
}

/// `libc::O_EXCL`, the platform's open flag that, together with the
/// creating flag, makes the call fail where the file is there. Nothing is
/// stated of its value.
#[verifier::external_body]
fn flag_exclusive() -> i32 {
    libc::O_EXCL
}

/// `libc::O_RDWR`, the platform's open flag for reading and writing.
/// Nothing is stated of its value.
#[verifier::external_body]
fn flag_read_write() -> i32 {
    libc::O_RDWR
}

/// `libc::EEXIST`, the error number that the platform's open call leaves
/// where exclusive creation finds the path occupied. Its value differs
/// between platforms, so nothing is stated of it.
#[verifier::external_body]
fn errno_occupied() -> i32 {
    libc::EEXIST
}

/// The open flags that ask for a file to be created for reading and
/// writing, and for the call to fail where the file is there, from the
/// platform's three flags. Every bit of each of the three is set.
pub fn exclusive_flags(create: i32, exclusive: i32, read_write: i32) -> (flags: i32)
    ensures
        flags == create | exclusive | read_write,
        flags & create == create,
        flags & exclusive == exclusive,
        flags & read_write == read_write,
{
    let flags = create | exclusive | read_write;
    assert((create | exclusive | read_write) & create == create) by (bit_vector);
    assert((create | exclusive | read_write) & exclusive == exclusive) by (bit_vector);
    assert((create | exclusive | read_write) & read_write == read_write) by (bit_vector);
    flags
}

/// What `FileMedia::create` goes by on this platform: the platform's flag
/// that creates the file, its flag that makes the creation exclusive, its
/// flag for reading and writing, `bits`, which joins the three and is what
/// the open call is given, and the error number that the call leaves where
/// the path is occupied.
pub fn create_flags() -> (flags: ExclusiveOpen)
    ensures
        flags.bits == flags.create | flags.exclusive | flags.read_write,
        flags.bits & flags.create == flags.create,
        flags.bits & flags.exclusive == flags.exclusive,
        flags.bits & flags.read_write == flags.read_write,
{
    let create = flag_create();
    let exclusive = flag_exclusive();
    let read_write = flag_read_write();
    ExclusiveOpen {
        create,
        exclusive,
        read_write,
        bits: exclusive_flags(create, exclusive, read_write),
        occupied: errno_occupied(),
    }
}

/// The error of an open call that failed: `errno` is the error number
/// that it left, `occupied` the error number that the platform has for a path
/// that is occupied. Only an occupied path is `FileExists`; any other
/// failure is a failure of the operating system.
pub open spec fn open_error(errno: i32, occupied: i32) -> ErrorView {
    if errno == occupied {
        native_error(GP_ERROR_FILE_EXISTS, None)
    } else {
        native_error(GP_ERROR_OS_FAILURE, None)
    }
}

/// Judges what opening a file for exclusive creation gave: `fd` is what the
/// open call returned, `errno` the error number that it left if it failed,
/// and `occupied` the error number that the platform has for a path that is
/// occupied. A descriptor that is not negative is handed on.
pub fn opened(fd: i32, errno: i32, occupied: i32) -> (r: Result<i32, Error>)
    ensures
        fd >= 0 ==> r == Ok::<i32, Error>(fd),
        fd < 0 ==> fails_with(r, open_error(errno, occupied)),
{
    if fd >= 0 {
        Ok(fd)
    } else if errno == occupied {
        Err(from_libgphoto2(GP_ERROR_FILE_EXISTS))
    } else {
        Err(from_libgphoto2(GP_ERROR_OS_FAILURE))
    }
}

/// What creating a sink on disk comes to. `path` is where the file is to
/// be created, `fd` what opening it for exclusive creation returned,
/// `errno` the error number that the open call left if it failed, `occupied`
/// the error number that the platform has for an occupied path, and
/// `status` the status code of the native call that was given the
/// descriptor. Path, open call and native call are consulted in this order.
pub open spec fn create_outcome(path: Seq<u8>, fd: i32, errno: i32, occupied: i32, status: i32) -> Result<
    Backing,
    ErrorView,
> {
    if path.contains(0u8) {
        Err(native_error(GP_ERROR_BAD_PARAMETERS, None))
    } else if fd < 0 {
        Err(open_error(errno, occupied))
    } else if !is_success(status) {
        Err(native_error(status, None))
    } else {
        Ok(Backing::Descriptor(fd))
    }
}

/// Exclusive creation on a path that is occupied always gives `FileExists`
/// and never a sink, whatever the native layer would have made of a
/// descriptor.
pub proof fn occupied_path_is_file_exists(path: Seq<u8>, fd: i32, occupied: i32, status: i32)
    requires
        !path.contains(0u8),
        fd < 0,
    ensures
        create_outcome(path, fd, occupied, occupied, status) matches Err(e) && e.kind
            == ErrorKind::FileExists,
{
}

/// Where the open call fails, creation gives `FileExists` only if the call
/// found the path occupied: every other failure of the call is an
/// `IoFailure` with the code of an operating system failure.
pub proof fn only_an_occupied_path_is_file_exists(
    path: Seq<u8>,
    fd: i32,
    errno: i32,
    occupied: i32,
    status: i32,
)
    requires
        !path.contains(0u8),
        fd < 0,
    ensures
        create_outcome(path, fd, errno, occupied, status) matches Err(e) && (e.kind
            == ErrorKind::FileExists <==> errno == occupied),
        errno != occupied ==> create_outcome(path, fd, errno, occupied, status) == Err::<
            Backing,
            ErrorView,
        >(native_error(GP_ERROR_OS_FAILURE, None)),
        native_error(GP_ERROR_OS_FAILURE, None).kind == ErrorKind::IoFailure,
{
}

/// Whether the result `r` of making a sink is `expected`.
pub open spec fn is_sink(r: Result<FileMedia, Error>, expected: Result<Backing, ErrorView>) -> bool {
    match expected {
        Ok(backing) => r matches Ok(media) && media@ == backing,
        Err(e) => fails_with(r, e),
    }
}

impl FileMedia {
    /// Creates a new file that stores media.
    ///
    /// The file is created on disk by the caller, who opens `path` with
    /// the bits of `create_flags()` and with `CREATE_MODE` unless the path
    /// holds a NUL byte, and hands the descriptor to the native layer
    /// unless it is negative. `fd` is what the open call returned, `errno`
    /// the error number that it left if it failed, `occupied` the error
    /// number that `create_flags()` names for an occupied path, and
    /// `status` the native status code; none is looked at where an earlier
    /// step has failed. The file starts out empty.
    ///
    /// ## Errors
    ///
    /// * `BadParameters` if the path holds a NUL byte.
    /// * `FileExists` if the file is already there.
    /// * `IoFailure` if the file could not be created for another reason.
    /// * The translated status code if the native layer refused the
    ///   descriptor.
    pub fn create(path: &[u8], fd: i32, errno: i32, occupied: i32, status: i32) -> (r: Result<
        FileMedia,
        Error,
    >)
        ensures
            is_sink(r, create_outcome(path@, fd, errno, occupied, status)),
    {
        if has_nul(path) {
            return Err(from_libgphoto2(GP_ERROR_BAD_PARAMETERS));
        }
        match opened(fd, errno, occupied) {
            Ok(fd) => FileMedia::from_descriptor(fd, status),
            Err(e) => Err(e),
        }
    }

    /// Create a new FileMedia to store data in memory, with the status code
    /// of the native call that allocated its buffer.
    pub fn new(status: i32) -> (r: Result<FileMedia, Error>)
        ensures
            is_success(status) ==> (r matches Ok(media) && media@ == Backing::Memory),
            !is_success(status) ==> fails_with(r, native_error(status, None)),
    {
        if status >= 0 {
            Ok(FileMedia { backing: Backing::Memory })
        } else {
            Err(from_libgphoto2(status))
        }
    }

    /// Create a FileMedia from an open descriptor, with the status code of
    /// the native call that was given the descriptor.
    ///
    /// The sink takes ownership of the descriptor. Care must be taken that
    /// the descriptor is not owned by something else that might close it
    /// while this object lives: nothing checks that.
    pub fn from_descriptor(fd: i32, status: i32) -> (r: Result<FileMedia, Error>)
        ensures
            is_success(status) ==> (r matches Ok(media) && media@ == Backing::Descriptor(fd)),
            !is_success(status) ==> fails_with(r, native_error(status, None)),
    {
        if status >= 0 {
            Ok(FileMedia { backing: Backing::Descriptor(fd) })
        } else {
            Err(from_libgphoto2(status))
        }
    }

    /// Retrieve the data from this FileMedia: `status` is the status code of
    /// the native call that was asked for the contents, `view` the bytes
    /// that it pointed to. The data can be used for as long as the sink is
    /// borrowed.
    pub fn data<'a>(&'a self, status: i32, view: &'a [u8]) -> (r: Result<&'a [u8], Error>)
        ensures
            is_success(status) ==> (r matches Ok(bytes) && bytes@ == view@),
            !is_success(status) ==> fails_with(r, native_error(status, None)),
    {
        if status >= 0 {
            Ok(view)
        } else {
            Err(from_libgphoto2(status))
        }
    }
}

} // verus!
