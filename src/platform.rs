use vstd::prelude::*;
use crate::controls::{ControlHandle, NwgError};
use crate::hooks::BackgroundHook;

verus! {

/// What a control asks of the window system.
#[derive(Clone, Copy, Debug)]
pub enum Request {
    CreateWindow {
        class_name: &'static str,
        forced_flags: u32,
        flags: u32,
        size: (i32, i32),
        position: (i32, i32),
        parent: ControlHandle,
    },
    CreateMessageWindow,
    SendMessage { hwnd: usize, msg: u32, wparam: usize, lparam: isize },
    GetSelection { hwnd: usize },
    GetText { hwnd: usize },
    SetText { hwnd: usize },
    GetStyle { hwnd: usize },
    GetFont { hwnd: usize },
    SetFont { hwnd: usize, font: Option<usize>, redraw: bool },
    GetEnabled { hwnd: usize },
    SetEnabled { hwnd: usize, value: bool },
    GetVisible { hwnd: usize },
    SetVisible { hwnd: usize, value: bool },
    GetSize { hwnd: usize },
    SetSize { hwnd: usize, width: u32, height: u32 },
    GetPosition { hwnd: usize },
    SetPosition { hwnd: usize, x: i32, y: i32 },
    GetFocus { hwnd: usize },
    SetFocus { hwnd: usize },
    GetParent { hwnd: usize },
    IsBitmap { image: usize },
    CreateBrush { color: u32 },
    BindHook { parent_hwnd: usize, key: usize, hook: BackgroundHook },
    UnbindHook { token: usize },
}

/// What the window system answered.
pub enum Reply {
    Done,
    Created(Result<usize, NwgError>),
    Int(isize),
    Bits(u32),
    Flag(bool),
    Pair(u32, u32),
    Point(i32, i32),
    Text(Seq<char>),
    Handle(usize),
}

impl Reply {
    pub open spec fn created(self) -> Result<usize, NwgError> {
        match self {
            Reply::Created(c) => c,
            _ => Err(NwgError::CreationFailed(0)),
        }
    }

    pub open spec fn number(self) -> isize {
        match self {
            Reply::Int(v) => v,
            _ => 0,
        }
    }

    pub open spec fn bits(self) -> u32 {
        match self {
            Reply::Bits(v) => v,
            _ => 0,
        }
    }

    pub open spec fn flag(self) -> bool {
        match self {
            Reply::Flag(v) => v,
            _ => false,
        }
    }

    pub open spec fn pair(self) -> (u32, u32) {
        match self {
            Reply::Pair(a, b) => (a, b),
            _ => (0, 0),
        }
    }

    pub open spec fn point(self) -> (i32, i32) {
        match self {
            Reply::Point(a, b) => (a, b),
            _ => (0, 0),
        }
    }

    pub open spec fn text(self) -> Seq<char> {
        match self {
            Reply::Text(t) => t,
            _ => Seq::empty(),
        }
    }

    pub open spec fn handle(self) -> usize {
        match self {
            Reply::Handle(h) => h,
            _ => 0,
        }
    }
}

/// One exchange with the window system: what was asked, with the text handed
/// over if any, and what it answered.
pub struct NativeCall {
    pub request: Request,
    pub text: Seq<char>,
    pub reply: Reply,
}

/// An exchange that hands over no text.
pub open spec fn call(request: Request, reply: Reply) -> NativeCall {
    NativeCall { request, text: Seq::empty(), reply }
}

/// The requests of a run of exchanges, in order.
pub open spec fn requests(calls: Seq<NativeCall>) -> Seq<Request> {
    calls.map_values(|c: NativeCall| c.request)
}

/// The exchanges that came after `before`, in a log that extends it.
pub open spec fn since(before: Seq<NativeCall>, after: Seq<NativeCall>) -> Seq<NativeCall> {
    after.subrange(before.len() as int, after.len() as int)
}

/// The log `after` is `before` with one more exchange, which asked `request`.
pub open spec fn one_more(before: Seq<NativeCall>, after: Seq<NativeCall>, request: Request) -> bool {
    after.len() > 0 && after == before.push(after.last()) && after.last().request == request
}

/// The first exchange made after `before`, in a log that extends it.
pub open spec fn first_since(before: Seq<NativeCall>, after: Seq<NativeCall>) -> NativeCall {
    after[before.len() as int]
}

/// Recording one more exchange adds its request to the requests.
pub proof fn requests_push(calls: Seq<NativeCall>, c: NativeCall)
    ensures
        requests(calls.push(c)) == requests(calls).push(c.request),
{
    assert(requests(calls.push(c)) =~= requests(calls).push(c.request));
}

/// The native window system that the controls drive. Each operation is one
/// exchange, recorded with its answer in `calls`.
pub trait WindowSystem {
    /// Every exchange made so far, oldest first.
    spec fn calls(&self) -> Seq<NativeCall>;

    /// Creates a child window.
    fn create_window(
        &mut self,
        class_name: &'static str,
        forced_flags: u32,
        flags: u32,
        size: (i32, i32),
        position: (i32, i32),
        parent: ControlHandle,
        text: &str,
    ) -> (r: Result<usize, NwgError>)
        ensures
            final(self).calls() == old(self).calls().push(
                NativeCall {
                    request: Request::CreateWindow { class_name, forced_flags, flags, size, position, parent },
                    text: text@,
                    reply: Reply::Created(r),
                },
            ),
    ;

    /// Creates a window that only dispatches messages.
    fn create_message_window(&mut self) -> (r: Result<usize, NwgError>)
        ensures
            final(self).calls() == old(self).calls().push(call(Request::CreateMessageWindow, Reply::Created(r))),
    ;

    /// Sends a message to a window and returns its answer.
    fn send_message(&mut self, hwnd: usize, msg: u32, wparam: usize, lparam: isize) -> (r: isize)
        ensures
            final(self).calls() == old(self).calls().push(
                call(Request::SendMessage { hwnd, msg, wparam, lparam }, Reply::Int(r)),
            ),
    ;

    /// Asks an edit window for its selection, as start and end offsets.
    fn get_selection(&mut self, hwnd: usize) -> (r: (u32, u32))
        ensures
            final(self).calls() == old(self).calls().push(call(Request::GetSelection { hwnd }, Reply::Pair(r.0, r.1))),
    ;

    fn get_window_text(&mut self, hwnd: usize) -> (r: String)
        ensures
            final(self).calls() == old(self).calls().push(call(Request::GetText { hwnd }, Reply::Text(r@))),
    ;

    fn set_window_text(&mut self, hwnd: usize, text: &str)
        ensures
            final(self).calls() == old(self).calls().push(NativeCall { request: Request::SetText { hwnd }, text: text@, reply: Reply::Done }),
    ;

    fn get_style(&mut self, hwnd: usize) -> (r: u32)
        ensures
            final(self).calls() == old(self).calls().push(call(Request::GetStyle { hwnd }, Reply::Bits(r))),
    ;

    /// The font of a window; 0 where it has none.
    fn get_window_font(&mut self, hwnd: usize) -> (r: usize)
        ensures
            final(self).calls() == old(self).calls().push(call(Request::GetFont { hwnd }, Reply::Handle(r))),
    ;

    fn set_window_font(&mut self, hwnd: usize, font: Option<usize>, redraw: bool)
        ensures
            final(self).calls() == old(self).calls().push(call(Request::SetFont { hwnd, font, redraw }, Reply::Done)),
    ;

    fn get_window_enabled(&mut self, hwnd: usize) -> (r: bool)
        ensures
            final(self).calls() == old(self).calls().push(call(Request::GetEnabled { hwnd }, Reply::Flag(r))),
    ;

    fn set_window_enabled(&mut self, hwnd: usize, value: bool)
        ensures
            final(self).calls() == old(self).calls().push(call(Request::SetEnabled { hwnd, value }, Reply::Done)),
    ;

    fn get_window_visibility(&mut self, hwnd: usize) -> (r: bool)
        ensures
            final(self).calls() == old(self).calls().push(call(Request::GetVisible { hwnd }, Reply::Flag(r))),
    ;

    fn set_window_visibility(&mut self, hwnd: usize, value: bool)
        ensures
            final(self).calls() == old(self).calls().push(call(Request::SetVisible { hwnd, value }, Reply::Done)),
    ;

    fn get_window_size(&mut self, hwnd: usize) -> (r: (u32, u32))
        ensures
            final(self).calls() == old(self).calls().push(call(Request::GetSize { hwnd }, Reply::Pair(r.0, r.1))),
    ;

    fn set_window_size(&mut self, hwnd: usize, width: u32, height: u32)
        ensures
            final(self).calls() == old(self).calls().push(call(Request::SetSize { hwnd, width, height }, Reply::Done)),
    ;

    fn get_window_position(&mut self, hwnd: usize) -> (r: (i32, i32))
        ensures
            final(self).calls() == old(self).calls().push(call(Request::GetPosition { hwnd }, Reply::Point(r.0, r.1))),
    ;

    fn set_window_position(&mut self, hwnd: usize, x: i32, y: i32)
        ensures
            final(self).calls() == old(self).calls().push(call(Request::SetPosition { hwnd, x, y }, Reply::Done)),
    ;

    fn get_focus(&mut self, hwnd: usize) -> (r: bool)
        ensures
            final(self).calls() == old(self).calls().push(call(Request::GetFocus { hwnd }, Reply::Flag(r))),
    ;

    fn set_focus(&mut self, hwnd: usize)
        ensures
            final(self).calls() == old(self).calls().push(call(Request::SetFocus { hwnd }, Reply::Done)),
    ;

    fn get_window_parent(&mut self, hwnd: usize) -> (r: usize)
        ensures
            final(self).calls() == old(self).calls().push(call(Request::GetParent { hwnd }, Reply::Handle(r))),
    ;

    /// Whether an image handle designates a bitmap.
    fn is_bitmap(&mut self, image: usize) -> (r: bool)
        ensures
            final(self).calls() == old(self).calls().push(call(Request::IsBitmap { image }, Reply::Flag(r))),
    ;

    /// Creates a solid brush of a packed RGB colour.
    fn create_solid_brush(&mut self, color: u32) -> (r: usize)
        ensures
            final(self).calls() == old(self).calls().push(call(Request::CreateBrush { color }, Reply::Handle(r))),
    ;

    /// Binds a hook to the messages of `parent`, under the routing key `key`;
    /// returns the token that unbinds it.
    fn bind_hook(&mut self, parent: usize, key: usize, hook: BackgroundHook) -> (r: usize)
        ensures
            final(self).calls() == old(self).calls().push(call(Request::BindHook { parent_hwnd: parent, key, hook }, Reply::Handle(r))),
    ;

    fn unbind_hook(&mut self, token: usize)
        ensures
            final(self).calls() == old(self).calls().push(call(Request::UnbindHook { token }, Reply::Done)),
    ;
}

} // verus!
