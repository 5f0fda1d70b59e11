//! The session that native operations report to.

use vstd::prelude::*;
use vstd::utf8::decode_utf8;
use vstd::utf8::valid_utf8;

use crate::error::fails_with;
use crate::error::from_libgphoto2;
use crate::error::is_success;
use crate::error::message_view;
use crate::error::native_error;
use crate::error::Error;
use crate::error::GP_ERROR_NO_MEMORY;
use crate::text::lossy_string;
use crate::text::utf8_lossy;

verus! {

/// The model of a native context: the error message that the native layer
/// reported last and that no failure has carried away yet.
///
/// Every operation that may fail on the device borrows the context mutably
/// for the duration of the call.
#[derive(Debug)]
pub struct Context {
    pending: Option<String>,
}

impl View for Context {
    type V = Option<Seq<char>>;

    /// The pending message, as characters.
    closed spec fn view(&self) -> Option<Seq<char>> {
        message_view(self.pending)
    }
}

impl Context {
    /// The model of a context that the native layer was asked to allocate.
    /// `allocated` says whether it handed one out; where it did not, the
    /// failure is reported as the native layer's out-of-memory code.
    pub fn new(allocated: bool) -> (r: Result<Context, Error>)
        ensures
            allocated ==> (r matches Ok(c) && c@ is None),
            !allocated ==> fails_with(r, native_error(GP_ERROR_NO_MEMORY, None)),
    {
        if allocated {
            Ok(Context { pending: None })
        } else {
            Err(from_libgphoto2(GP_ERROR_NO_MEMORY))
        }
    }

    /// Records an error message that the native layer reported on this
    /// context. It replaces a message that is still pending.
    pub fn record_message(&mut self, text: &[u8])
        ensures
            final(self)@ == Some(utf8_lossy(text@)),
            valid_utf8(text@) ==> final(self)@ == Some(decode_utf8(text@)),
    {
        self.pending = Some(lossy_string(text));
    }

    /// Translates the status code of a native call that was given this
    /// context. A failure carries the pending message away; after a success
    /// no message is pending either.
    pub fn translate(&mut self, status: i32) -> (r: Result<(), Error>)
        ensures
            final(self)@ is None,
            is_success(status) ==> r is Ok,
            !is_success(status) ==> fails_with(r, native_error(status, old(self)@)),
    {
        let message = self.pending.take();
        if status >= 0 {
            Ok(())
        } else {
            Err(from_libgphoto2(status).with_message(message))
        }
    }
}

} // verus!
