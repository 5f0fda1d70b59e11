//! Cameras, the list of detected cameras, and files on a camera.

use vstd::prelude::*;
use vstd::utf8::decode_utf8;
use vstd::utf8::valid_utf8;

use crate::abilities::Abilities;
use crate::abilities::AbilitiesView;
use crate::context::Context;
use crate::error::fails_with;
use crate::error::from_libgphoto2;
use crate::error::is_success;
use crate::error::native_error;
use crate::error::Error;
use crate::error::ErrorKind;
use crate::error::ErrorView;
use crate::error::GP_ERROR_BAD_PARAMETERS;
use crate::error::GP_ERROR_CORRUPTED_DATA;
use crate::error::GP_ERROR_NOT_SUPPORTED;
use crate::media::Media;
use crate::pairs::pairs_view;
use crate::port::Port;
use crate::port::PortView;
use crate::storage::Storage;
use crate::text::c_text;
use crate::text::c_text_of;
use crate::text::camera_text_to_string;
use crate::text::lossy_string;
use crate::text::utf8_lossy;

verus! {

/// The model of a camera handle: whether it has been bound to a device.
#[derive(Debug)]
pub struct Camera {
    bound: bool,
}

/// What asking a camera for one of its texts comes to: `status` is the
/// status code of the native call, `text` the buffer that it filled, and
/// `pending` the message that was pending on the context. A failure of the
/// call is translated, with the message; text that is not valid UTF-8 is
/// corrupted data; nothing else gives a string.
pub open spec fn text_outcome(status: i32, text: Seq<u8>, pending: Option<Seq<char>>) -> Result<
    Seq<char>,
    ErrorView,
> {
    if !is_success(status) {
        Err(native_error(status, pending))
    } else if !valid_utf8(c_text(text)) {
        Err(native_error(GP_ERROR_CORRUPTED_DATA, None))
    } else {
        Ok(decode_utf8(c_text(text)))
    }
}

/// Whether the result `r` of asking for a text is `expected`.
pub open spec fn is_text(r: Result<String, Error>, expected: Result<Seq<char>, ErrorView>) -> bool {
    match expected {
        Ok(text) => r matches Ok(s) && s@ == text,
        Err(e) => fails_with(r, e),
    }
}

/// A camera with no text of the kind asked for gives `NotSupported`, and
/// text that is not valid UTF-8 gives `CorruptedData`: never a string, be it
/// empty or with characters replaced.
pub proof fn text_is_never_made_up(status: i32, text: Seq<u8>, pending: Option<Seq<char>>)
    ensures
        status == GP_ERROR_NOT_SUPPORTED ==> (text_outcome(status, text, pending) matches Err(e)
            && e.kind == ErrorKind::NotSupported),
        is_success(status) && !valid_utf8(c_text(text)) ==> (text_outcome(status, text, pending)
            matches Err(e) && e.kind == ErrorKind::CorruptedData),
        text_outcome(status, text, pending) is Ok ==> is_success(status) && valid_utf8(
            c_text(text),
        ),
{
}

impl Camera {
    /// Whether the camera has been bound to a physical device.
    pub closed spec fn is_bound(&self) -> bool {
        self.bound
    }

    /// The model of a camera handle that the native layer was asked to
    /// allocate, with the status code of that call. A new camera is not
    /// bound to a device.
    pub fn new(status: i32) -> (r: Result<Camera, Error>)
        ensures
            is_success(status) ==> (r matches Ok(c) && !c.is_bound()),
            !is_success(status) ==> fails_with(r, native_error(status, None)),
    {
        if status >= 0 {
            Ok(Camera { bound: false })
        } else {
            Err(from_libgphoto2(status))
        }
    }

    /// Whether the camera has been bound to a physical device.
    pub fn bound(&self) -> (b: bool)
        ensures
            b == self.is_bound(),
    {
        self.bound
    }

    /// Initialize the camera, with the status code of the native call.
    ///
    /// If this camera has not been set up, the native layer selects the
    /// first one it detects. A camera that could be initialized is bound to
    /// its device; after a failure the camera is as it was.
    pub fn init(&mut self, context: &mut Context, status: i32) -> (r: Result<(), Error>)
        ensures
            final(context)@ is None,
            is_success(status) ==> r is Ok && final(self).is_bound(),
            !is_success(status) ==> fails_with(r, native_error(status, old(context)@)),
            !is_success(status) ==> final(self).is_bound() == old(self).is_bound(),
    {
        match context.translate(status) {
            Ok(()) => {
                self.bound = true;
                Ok(())
            },
            Err(e) => Err(e),
        }
    }

    /// Binds a new camera to the first device that the native layer
    /// detects: `new_status` is the status code of the native call that
    /// allocated the camera, `init_status` that of its initialization. The
    /// context is consulted only where the camera could be allocated.
    pub fn first_detected(context: &mut Context, new_status: i32, init_status: i32) -> (r: Result<
        Camera,
        Error,
    >)
        ensures
            !is_success(new_status) ==> fails_with(r, native_error(new_status, None)),
            !is_success(new_status) ==> final(context)@ == old(context)@,
            is_success(new_status) ==> final(context)@ is None,
            is_success(new_status) && !is_success(init_status) ==> fails_with(
                r,
                native_error(init_status, old(context)@),
            ),
            is_success(new_status) && is_success(init_status) ==> (r matches Ok(camera)
                && camera.is_bound()),
    {
        let mut camera = match Camera::new(new_status) {
            Ok(camera) => camera,
            Err(e) => {
                return Err(e);
            },
        };
        match camera.init(context, init_status) {
            Ok(()) => Ok(camera),
            Err(e) => Err(e),
        }
    }

    /// Return a list of detected cameras.
    ///
    /// `list_status` is the status code of the native call that allocated
    /// the list, `detect_status` that of the detection, and `entries` what
    /// the list then holds, in its order. The 'name' in the returned
    /// CameraList is the name of the camera and the 'value' is the port
    /// where it is attached. The context is consulted only where the list
    /// could be allocated.
    pub fn autodetect(
        context: &mut Context,
        list_status: i32,
        detect_status: i32,
        entries: Vec<(Vec<u8>, Vec<u8>)>,
    ) -> (r: Result<CameraList, Error>)
        ensures
            is_list(r, detected(list_status, detect_status, pairs_view(entries@), old(context)@)),
            !is_success(list_status) ==> final(context)@ == old(context)@,
            is_success(list_status) ==> final(context)@ is None,
    {
        let mut list = match CameraList::new(list_status) {
            Ok(list) => list,
            Err(e) => {
                return Err(e);
            },
        };
        match context.translate(detect_status) {
            Ok(()) => {
                list.entries = entries;
                Ok(list)
            },
            Err(e) => Err(e),
        }
    }

    /// Captures an image, with the status code of the native call and the
    /// two buffers that it filled with the folder and the name of the file
    /// that the camera stored.
    pub fn capture_image(
        &mut self,
        context: &mut Context,
        status: i32,
        folder: &[u8],
        name: &[u8],
    ) -> (r: Result<CameraFile, Error>)
        ensures
            final(context)@ is None,
            final(self).is_bound() == old(self).is_bound(),
            is_success(status) ==> (r matches Ok(file) && file@ == (CameraFileView {
                folder: c_text(folder@),
                name: c_text(name@),
            })),
            !is_success(status) ==> fails_with(r, native_error(status, old(context)@)),
    {
        match context.translate(status) {
            Ok(()) => Ok(CameraFile { folder: c_text_of(folder), name: c_text_of(name) }),
            Err(e) => Err(e),
        }
    }

    /// Downloads a file from the camera, with the status code of the native
    /// call that streamed the file into the destination.
    #[allow(unused_variables)]
    pub fn download<T: Media>(
        &mut self,
        context: &mut Context,
        source: &CameraFile,
        destination: &mut T,
        status: i32,
    ) -> (r: Result<(), Error>)
        ensures
            final(context)@ is None,
            final(self).is_bound() == old(self).is_bound(),
            final(destination).backing() == old(destination).backing(),
            is_success(status) ==> r is Ok,
            !is_success(status) ==> fails_with(r, native_error(status, old(context)@)),
    {
        context.translate(status)
    }

    /// Captures a preview image and stores it in the given destination,
    /// with the status code of the native call.
    #[allow(unused_variables)]
    pub fn capture_preview<T: Media>(
        &mut self,
        context: &mut Context,
        destination: &mut T,
        status: i32,
    ) -> (r: Result<(), Error>)
        ensures
            final(context)@ is None,
            final(self).is_bound() == old(self).is_bound(),
            final(destination).backing() == old(destination).backing(),
            is_success(status) ==> r is Ok,
            !is_success(status) ==> fails_with(r, native_error(status, old(context)@)),
    {
        context.translate(status)
    }

    /// Returns information about the port the camera is connected to, from
    /// what the native layer reported of it: the tag of its type, its name
    /// and its path.
    pub fn port(&self, tag: i32, name: Vec<u8>, path: Vec<u8>) -> (port: Port<'_>)
        ensures
            port@ == (PortView { tag, name: name@, path: path@ }),
            port.camera() == *self,
    {
        crate::port::from_libgphoto2(self, tag, name, path)
    }

    /// Retrieves the camera's abilities, from the fields of the native
    /// record: the buffer with the model's name, the native value of the
    /// driver's status, the masks of port types and of camera, file and
    /// folder operations, and the native value of the device type.
    pub fn abilities(
        &self,
        model: Vec<u8>,
        status: u32,
        port: i32,
        operations: i32,
        file_operations: i32,
        folder_operations: i32,
        device_type: u32,
    ) -> (abilities: Abilities)
        ensures
            abilities@ == (AbilitiesView {
                model: model@,
                status,
                port,
                operations,
                file_operations,
                folder_operations,
                device_type,
            }),
    {
        crate::abilities::from_libgphoto2(
            model,
            status,
            port,
            operations,
            file_operations,
            folder_operations,
            device_type,
        )
    }

    /// Retrieves information about the camera's storage, with the status
    /// code of the native call and the descriptors that it handed out.
    ///
    /// Returns a `Vec` containing one `Storage` for each filesystem on the
    /// device, in the order of the native layer. A device that reports none
    /// gives an empty `Vec`.
    pub fn storage(&mut self, context: &mut Context, status: i32, found: Vec<Storage>) -> (r:
        Result<Vec<Storage>, Error>)
        ensures
            final(context)@ is None,
            final(self).is_bound() == old(self).is_bound(),
            is_success(status) ==> r == Ok::<Vec<Storage>, Error>(found),
            !is_success(status) ==> fails_with(r, native_error(status, old(context)@)),
    {
        match context.translate(status) {
            Ok(()) => Ok(found),
            Err(e) => Err(e),
        }
    }

    /// Returns the camera's summary.
    ///
    /// The summary typically contains non-configurable information about
    /// the camera, such as manufacturer and number of pictures taken.
    /// `status` is the status code of the native call and `text` the buffer
    /// that it filled.
    ///
    /// ## Errors
    ///
    /// * `NotSupported` if there is no summary available for the camera.
    /// * `CorruptedData` if the summary is invalid UTF-8.
    pub fn summary(&mut self, context: &mut Context, status: i32, text: &[u8]) -> (r: Result<
        String,
        Error,
    >)
        ensures
            final(context)@ is None,
            final(self).is_bound() == old(self).is_bound(),
            is_text(r, text_outcome(status, text@, old(context)@)),
    {
        self.text(context, status, text)
    }

    /// Returns the camera's manual.
    ///
    /// The manual contains information about using the camera. `status` is
    /// the status code of the native call and `text` the buffer that it
    /// filled.
    ///
    /// ## Errors
    ///
    /// * `NotSupported` if there is no manual available for the camera.
    /// * `CorruptedData` if the manual is invalid UTF-8.
    pub fn manual(&mut self, context: &mut Context, status: i32, text: &[u8]) -> (r: Result<
        String,
        Error,
    >)
        ensures
            final(context)@ is None,
            final(self).is_bound() == old(self).is_bound(),
            is_text(r, text_outcome(status, text@, old(context)@)),
    {
        self.text(context, status, text)
    }

    /// Returns information about the camera driver.
    ///
    /// This text typically contains information about the driver's author,
    /// acknowledgements, etc. `status` is the status code of the native
    /// call and `text` the buffer that it filled.
    ///
    /// ## Errors
    ///
    /// * `NotSupported` if there is no about text available for the
    ///   camera's driver.
    /// * `CorruptedData` if the text is invalid UTF-8.
    pub fn about_driver(&mut self, context: &mut Context, status: i32, text: &[u8]) -> (r: Result<
        String,
        Error,
    >)
        ensures
            final(context)@ is None,
            final(self).is_bound() == old(self).is_bound(),
            is_text(r, text_outcome(status, text@, old(context)@)),
    {
        self.text(context, status, text)
    }

    /// What the three text operations share: the status code is translated
    /// first, then the text is decoded without loss.
    fn text(&mut self, context: &mut Context, status: i32, text: &[u8]) -> (r: Result<
        String,
        Error,
    >)
        ensures
            final(context)@ is None,
            final(self).is_bound() == old(self).is_bound(),
            is_text(r, text_outcome(status, text@, old(context)@)),
    {
        match context.translate(status) {
            Ok(()) => camera_text_to_string(text),
            Err(e) => Err(e),
        }
    }
}

/// The error of an index that is outside a list: nothing was found, and the
/// code is the one that the native layer reports for such an index.
pub open spec fn out_of_range() -> ErrorView {
    ErrorView { kind: ErrorKind::NotFound, code: GP_ERROR_BAD_PARAMETERS, message: None }
}

/// What asking a list for the name of its `i`th entry gives.
pub open spec fn name_at(entries: Seq<(Seq<u8>, Seq<u8>)>, i: int) -> Result<Seq<u8>, ErrorView> {
    if 0 <= i < entries.len() {
        Ok(entries[i].0)
    } else {
        Err(out_of_range())
    }
}

/// What asking a list for the value of its `i`th entry gives.
pub open spec fn value_at(entries: Seq<(Seq<u8>, Seq<u8>)>, i: int) -> Result<Seq<u8>, ErrorView> {
    if 0 <= i < entries.len() {
        Ok(entries[i].1)
    } else {
        Err(out_of_range())
    }
}

/// The lenient decoding of bytes that were found.
pub open spec fn lossy(found: Result<Seq<u8>, ErrorView>) -> Result<Seq<char>, ErrorView> {
    match found {
        Ok(bytes) => Ok(utf8_lossy(bytes)),
        Err(e) => Err(e),
    }
}

/// Whether the result `r` of asking for bytes is `expected`.
pub open spec fn is_bytes(r: Result<&[u8], Error>, expected: Result<Seq<u8>, ErrorView>) -> bool {
    match expected {
        Ok(bytes) => r matches Ok(found) && found@ == bytes,
        Err(e) => fails_with(r, e),
    }
}

/// Whether the result `r` of detecting cameras is `expected`.
pub open spec fn is_list(
    r: Result<CameraList, Error>,
    expected: Result<Seq<(Seq<u8>, Seq<u8>)>, ErrorView>,
) -> bool {
    match expected {
        Ok(entries) => r matches Ok(list) && list@ == entries,
        Err(e) => fails_with(r, e),
    }
}

/// What detecting cameras comes to: the entries of the list, or the error
/// of the first native call that failed.
pub open spec fn detected(
    list_status: i32,
    detect_status: i32,
    entries: Seq<(Seq<u8>, Seq<u8>)>,
    pending: Option<Seq<char>>,
) -> Result<Seq<(Seq<u8>, Seq<u8>)>, ErrorView> {
    if !is_success(list_status) {
        Err(native_error(list_status, None))
    } else if !is_success(detect_status) {
        Err(native_error(detect_status, pending))
    } else {
        Ok(entries)
    }
}

/// A list that detection produced from N discovered devices has N entries.
/// It gives the name and the value of every entry below N, each as it was
/// discovered, and for index N it reports that nothing was found.
pub proof fn detected_list_is_indexed(
    list_status: i32,
    detect_status: i32,
    entries: Seq<(Seq<u8>, Seq<u8>)>,
    pending: Option<Seq<char>>,
    i: int,
)
    requires
        detected(list_status, detect_status, entries, pending) is Ok,
    ensures
        detected(list_status, detect_status, entries, pending) matches Ok(list) && {
            &&& list.len() == entries.len()
            &&& 0 <= i < entries.len() ==> name_at(list, i) == Ok::<Seq<u8>, ErrorView>(
                entries[i].0,
            ) && value_at(list, i) == Ok::<Seq<u8>, ErrorView>(entries[i].1)
            &&& name_at(list, entries.len() as int) matches Err(e) && e.kind
                == ErrorKind::NotFound
            &&& value_at(list, entries.len() as int) matches Err(e) && e.kind
                == ErrorKind::NotFound
        },
{
}

/// A structure representing a list of cameras connected to the system: the
/// name and the value of each entry, in the order of discovery.
#[derive(Debug)]
pub struct CameraList {
    entries: Vec<(Vec<u8>, Vec<u8>)>,
}

impl View for CameraList {
    type V = Seq<(Seq<u8>, Seq<u8>)>;

    /// The name and the value of each entry.
    closed spec fn view(&self) -> Seq<(Seq<u8>, Seq<u8>)> {
        pairs_view(self.entries@)
    }
}

impl CameraList {
    /// The model of a list that the native layer was asked to allocate,
    /// with the status code of that call. A new list is empty.
    pub fn new(status: i32) -> (r: Result<CameraList, Error>)
        ensures
            is_success(status) ==> (r matches Ok(list) && list@.len() == 0),
            !is_success(status) ==> fails_with(r, native_error(status, None)),
    {
        if status >= 0 {
            Ok(CameraList { entries: Vec::new() })
        } else {
            Err(from_libgphoto2(status))
        }
    }

    /// Get the amount of entries in the list.
    pub fn len(&mut self) -> (n: usize)
        ensures
            n == old(self)@.len(),
            final(self)@ == old(self)@,
    {
        self.entries.len()
    }

    /// Get the name of the ith entry in the list as bytes.
    ///
    /// This version avoids allocating the String and the lossy conversion.
    pub fn name_cstr(&mut self, i: usize) -> (r: Result<&[u8], Error>)
        ensures
            final(self)@ == old(self)@,
            is_bytes(r, name_at(old(self)@, i as int)),
    {
        if i < self.entries.len() {
            Ok(self.entries[i].0.as_slice())
        } else {
            Err(Error::new(ErrorKind::NotFound, GP_ERROR_BAD_PARAMETERS))
        }
    }

    /// Get the name of the ith entry in the list, decoded leniently.
    pub fn name(&mut self, i: usize) -> (r: Result<String, Error>)
        ensures
            final(self)@ == old(self)@,
            is_text(r, lossy(name_at(old(self)@, i as int))),
            i < old(self)@.len() && valid_utf8(old(self)@[i as int].0) ==> (r matches Ok(s) && s@
                == decode_utf8(old(self)@[i as int].0)),
    {
        match self.name_cstr(i) {
            Ok(bytes) => Ok(lossy_string(bytes)),
            Err(e) => Err(e),
        }
    }

    /// Get the value of the ith entry in the list as bytes.
    ///
    /// This version avoids allocating the String and the lossy conversion.
    pub fn value_cstr(&mut self, i: usize) -> (r: Result<&[u8], Error>)
        ensures
            final(self)@ == old(self)@,
            is_bytes(r, value_at(old(self)@, i as int)),
    {
        if i < self.entries.len() {
            Ok(self.entries[i].1.as_slice())
        } else {
            Err(Error::new(ErrorKind::NotFound, GP_ERROR_BAD_PARAMETERS))
        }
    }

    /// Get the value of the ith entry in the list, decoded leniently.
    pub fn value(&mut self, i: usize) -> (r: Result<String, Error>)
        ensures
            final(self)@ == old(self)@,
            is_text(r, lossy(value_at(old(self)@, i as int))),
            i < old(self)@.len() && valid_utf8(old(self)@[i as int].1) ==> (r matches Ok(s) && s@
                == decode_utf8(old(self)@[i as int].1)),
    {
        match self.value_cstr(i) {
            Ok(bytes) => Ok(lossy_string(bytes)),
            Err(e) => Err(e),
        }
    }
}

/// A file stored on a camera's storage: the folder that it is in and its
/// name there.
#[derive(Debug, Clone)]
pub struct CameraFile {
    folder: Vec<u8>,
    name: Vec<u8>,
}

/// What a `CameraFile` holds, as plain values.
pub ghost struct CameraFileView {
    pub folder: Seq<u8>,
    pub name: Seq<u8>,
}

impl View for CameraFile {
    type V = CameraFileView;

    closed spec fn view(&self) -> CameraFileView {
        CameraFileView { folder: self.folder@, name: self.name@ }
    }
}

impl CameraFile {
    /// Returns the directory that the file is stored in, decoded leniently.
    pub fn directory(&self) -> (s: String)
        ensures
            s@ == utf8_lossy(self@.folder),
            valid_utf8(self@.folder) ==> s@ == decode_utf8(self@.folder),
    {
        lossy_string(self.folder.as_slice())
    }

    /// Returns the name of the file without the directory, decoded
    /// leniently.
    pub fn basename(&self) -> (s: String)
        ensures
            s@ == utf8_lossy(self@.name),
            valid_utf8(self@.name) ==> s@ == decode_utf8(self@.name),
    {
        lossy_string(self.name.as_slice())
    }
}

} // verus!
