use vstd::prelude::*;
use crate::controls::{ControlHandle, NwgError};
use crate::platform::{one_more, Request, WindowSystem};

verus! {

/// A hidden top-level window that only sends and receives messages.
#[derive(Clone, Copy, Debug, PartialEq, Eq, Structural)]
pub struct MessageWindow {
    pub handle: ControlHandle,
}

impl Default for MessageWindow {
    fn default() -> (r: MessageWindow)
        ensures
            r.handle is NoHandle,
    {
        MessageWindow { handle: ControlHandle::NoHandle }
    }
}

/// The configuration from which a message window is built; it has none.
#[derive(Clone, Copy, Debug, PartialEq, Eq, Structural)]
pub struct MessageWindowBuilder {}

impl MessageWindow {
    pub fn builder() -> (r: MessageWindowBuilder)
        ensures
            r == (MessageWindowBuilder {}),
    {
        MessageWindowBuilder {}
    }
}

impl MessageWindowBuilder {
    /// Creates the window and binds `out` to it; when creation fails `out` is
    /// left as it was.
    pub fn build<W: WindowSystem>(self, out: &mut MessageWindow, ws: &mut W) -> (r: Result<(), NwgError>)
        ensures
            one_more(old(ws).calls(), final(ws).calls(), Request::CreateMessageWindow),
            final(ws).calls().last().reply.created() matches Ok(h) ==> r is Ok
                && final(out).handle == ControlHandle::Hwnd(h),
            final(ws).calls().last().reply.created() matches Err(e) ==> r == Err::<(), NwgError>(e)
                && *final(out) == *old(out),
    {
        match ws.create_message_window() {
            Ok(h) => {
                out.handle = ControlHandle::Hwnd(h);
                Ok(())
            },
            Err(e) => Err(e),
        }
    }
}

} // verus!
