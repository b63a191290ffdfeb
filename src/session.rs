//! The library session and the device handles borrowed from it.
//!
//! An `Ovr` exists only after native global initialization succeeded, and
//! devices are created only through one. Each `Hmd` borrows the session it
//! came from, so the session cannot be released while a device of it is still
//! alive, and a handle whose native address is null is never built.
use crate::native::{OvrBool, Recti};
use libc::c_int;
use vstd::prelude::*;

verus! {

/// A live library session.
pub struct Ovr {
    _live: (),
}

/// Whether an enumeration position can name a device at all: it is not
/// negative and fits the native index type.
pub open spec fn index_in_range(index: isize) -> bool {
    0 <= index <= c_int::MAX
}

impl Ovr {
    /// Builds the session from the status that native global initialization
    /// returned: there is a session exactly when it succeeded.
    pub fn initialize(status: OvrBool) -> (r: Option<Ovr>)
        ensures
            r is Some <==> status != 0,
    {
        if status != 0 {
            Some(Ovr { _live: () })
        } else {
            None
        }
    }

    /// The native index to ask for the device at an enumeration position, or
    /// nothing where no device can stand at that position. Nothing is
    /// truncated: a position beyond the native index type is absent.
    pub fn device_index(&self, index: isize) -> (r: Option<c_int>)
        ensures
            index_in_range(index) ==> r == Some(index as c_int),
            !index_in_range(index) ==> r is None,
    {
        if 0 <= index && index <= c_int::MAX as isize {
            Some(index as c_int)
        } else {
            None
        }
    }

    /// Takes ownership of the address that a native create call returned,
    /// by index or by debug model. The null address means that no device was
    /// made.
    pub fn create_hmd(&self, handle: usize) -> (r: Option<Hmd<'_>>)
        ensures
            r is Some <==> handle != 0,
            r matches Some(h) ==> h.addr() == handle,
    {
        if handle != 0 {
            Some(Hmd { session: self, handle })
        } else {
            None
        }
    }
}

/// A device handle: a non-null native address, borrowed from the session
/// that made it.
pub struct Hmd<'a> {
    session: &'a Ovr,
    handle: usize,
}

/// The arguments of the native call that mirrors a device onto a window, in
/// native encoding. An absent rectangle is passed as a null pointer.
pub struct WindowAttach {
    pub hmd: usize,
    pub window: usize,
    pub dest_mirror_rect: Option<[c_int; 4]>,
    pub source_render_target_rect: Option<[c_int; 4]>,
}

/// Whether `w` is the native layout of the optional rectangle `o`.
pub open spec fn laid_out(o: Option<Recti>, w: Option<[c_int; 4]>) -> bool {
    match o {
        Some(rect) => w matches Some(words) && words@ == rect.words(),
        None => w is None,
    }
}

impl<'a> Hmd<'a> {
    #[verifier::type_invariant]
    spec fn non_null(self) -> bool {
        self.handle != 0
    }

    /// The native address of the device.
    pub closed spec fn addr(self) -> usize {
        self.handle
    }

    pub fn handle(&self) -> (r: usize)
        ensures
            r == self.addr(),
            r != 0,
    {
        proof {
            use_type_invariant(self);
        }
        self.handle
    }

    /// Prepares mirroring the device onto a platform window: the destination
    /// rectangle on the window and the source rectangle of the render target
    /// are laid out as the native layer reads them.
    pub fn attach_to_window(
        &self,
        window: usize,
        dest_mirror_rect: Option<Recti>,
        source_render_target_rect: Option<Recti>,
    ) -> (r: WindowAttach)
        ensures
            r.hmd == self.addr(),
            r.hmd != 0,
            r.window == window,
            laid_out(dest_mirror_rect, r.dest_mirror_rect),
            laid_out(source_render_target_rect, r.source_render_target_rect),
    {
        let dest = match dest_mirror_rect {
            Some(rect) => Some(rect.to_words()),
            None => None,
        };
        let source = match source_render_target_rect {
            Some(rect) => Some(rect.to_words()),
            None => None,
        };
        WindowAttach {
            hmd: self.handle(),
            window,
            dest_mirror_rect: dest,
            source_render_target_rect: source,
        }
    }
}

} // verus!
