use vstd::prelude::*;
use vstd::string::StrSliceExecFns;
use crate::controls::{
    Bitmap, ControlHandle, Font, Icon, NwgError, EM_GETLIMITTEXT, EM_GETMODIFY, EM_LINELENGTH,
    EM_SETLIMITTEXT, EM_SETMODIFY, EM_SETREADONLY, EM_SETSEL, EM_UNDO, ES_READONLY, IMAGE_BITMAP,
    IMAGE_ICON, STM_GETIMAGE, STM_SETIMAGE, WM_CTLCOLORSTATIC, WS_VISIBLE, WS_DISABLED,
};
use crate::hooks::{BackgroundHook, HookEntry, HookRegistry};
use crate::platform::{call, NativeCall, Reply, Request, WindowSystem};

verus! {

/// Error code of a window system asked to act on a window it does not know.
pub const ERROR_INVALID_WINDOW_HANDLE: u32 = 1400;

/// Character limit of an edit window that was never given one.
pub const DEFAULT_TEXT_LIMIT: u32 = 32767;

/// The state of one window of a `VirtualDesktop`.
#[derive(Debug)]
pub struct WindowRecord {
    pub parent: usize,
    pub style: u32,
    pub text: String,
    pub limit: u32,
    pub modified: bool,
    pub selection_start: u32,
    pub selection_end: u32,
    pub font: usize,
    pub bitmap: usize,
    pub icon: usize,
    pub enabled: bool,
    pub visible: bool,
    pub width: u32,
    pub height: u32,
    pub x: i32,
    pub y: i32,
}

impl WindowRecord {
    fn copy(&self) -> WindowRecord {
        WindowRecord {
            parent: self.parent,
            style: self.style,
            text: self.text.clone(),
            limit: self.limit,
            modified: self.modified,
            selection_start: self.selection_start,
            selection_end: self.selection_end,
            font: self.font,
            bitmap: self.bitmap,
            icon: self.icon,
            enabled: self.enabled,
            visible: self.visible,
            width: self.width,
            height: self.height,
            x: self.x,
            y: self.y,
        }
    }
}

/// A window system held in memory: windows, image resources and hooks. Window
/// `h` is the `h`-th window created, counting from one; parent 0 is the
/// desktop itself.
pub struct VirtualDesktop {
    windows: Vec<WindowRecord>,
    bitmaps: Vec<usize>,
    next_resource: usize,
    focus: usize,
    hooks: HookRegistry,
    next_token: usize,
    native_calls: u64,
    log: Ghost<Seq<NativeCall>>,
}

impl VirtualDesktop {
    /// An empty desktop, with nothing asked of it yet.
    pub fn new() -> (r: VirtualDesktop)
        ensures
            r.calls() == Seq::<NativeCall>::empty(),
            r.native_calls_spec() == 0,
    {
        VirtualDesktop {
            windows: Vec::new(),
            bitmaps: Vec::new(),
            next_resource: 1,
            focus: 0,
            hooks: HookRegistry::new(),
            next_token: 1,
            native_calls: 0,
            log: Ghost(Seq::empty()),
        }
    }

    /// The hooks bound, in the order they were bound.
    pub closed spec fn bound_hooks(&self) -> Seq<HookEntry> {
        self.hooks.view()
    }

    pub closed spec fn native_calls_spec(&self) -> u64 {
        self.native_calls
    }

    /// How many exchanges the controls made with this desktop.
    pub fn native_calls(&self) -> (r: u64)
        ensures
            r == self.native_calls_spec(),
    {
        self.native_calls
    }

    /// How many hooks are bound.
    pub fn hook_count(&self) -> (r: usize)
        ensures
            r == self.bound_hooks().len(),
    {
        self.hooks.len()
    }

    fn count_call(&mut self)
        ensures
            final(self).log == old(self).log,
    {
        if self.native_calls < u64::MAX {
            self.native_calls = self.native_calls + 1;
        }
    }

    /// The index of window `hwnd`, if it exists.
    fn slot(&self, hwnd: usize) -> (r: Option<usize>)
        ensures
            r matches Some(i) ==> i < self.windows@.len(),
    {
        if hwnd >= 1 && hwnd <= self.windows.len() {
            Some(hwnd - 1)
        } else {
            None
        }
    }

    fn fresh_resource(&mut self) -> (r: usize)
        ensures
            final(self).log == old(self).log,
            final(self).windows == old(self).windows,
    {
        let r = self.next_resource;
        if self.next_resource < usize::MAX {
            self.next_resource = self.next_resource + 1;
        }
        r
    }

    /// Loads a bitmap owned by the caller.
    pub fn load_bitmap(&mut self) -> (r: Bitmap)
        ensures
            r.owned,
            final(self).calls() == old(self).calls(),
    {
        let h = self.fresh_resource();
        self.bitmaps.push(h);
        Bitmap { handle: h, owned: true }
    }

    /// Loads an icon owned by the caller.
    pub fn load_icon(&mut self) -> (r: Icon)
        ensures
            r.owned,
            final(self).calls() == old(self).calls(),
    {
        let h = self.fresh_resource();
        Icon { handle: h, owned: true }
    }

    /// Loads a font.
    pub fn load_font(&mut self) -> (r: Font)
        ensures
            final(self).calls() == old(self).calls(),
    {
        let h = self.fresh_resource();
        Font { handle: h }
    }

    /// The state of window `hwnd`, if it exists.
    pub fn window(&self, hwnd: usize) -> Option<WindowRecord> {
        match self.slot(hwnd) {
            Some(i) => Some(self.windows[i].copy()),
            None => None,
        }
    }

    /// What the hooks bound to `parent` answer when it is about to paint the
    /// background of `child`.
    pub fn paint_background(&self, parent: usize, child: usize) -> (r: Option<isize>)
        ensures
            r == crate::hooks::dispatch_spec(self.bound_hooks(), parent, WM_CTLCOLORSTATIC, child),
    {
        self.hooks.dispatch(parent, WM_CTLCOLORSTATIC, child)
    }

    fn new_window(&mut self, parent: usize, style: u32, size: (i32, i32), position: (i32, i32), text: &str) -> (r: Result<usize, NwgError>)
        ensures
            final(self).log == old(self).log,
    {
        if self.windows.len() >= usize::MAX - 1 {
            return Err(NwgError::CreationFailed(ERROR_INVALID_WINDOW_HANDLE));
        }
        let record = WindowRecord {
            parent,
            style,
            text: text.to_owned(),
            limit: DEFAULT_TEXT_LIMIT,
            modified: false,
            selection_start: 0,
            selection_end: 0,
            font: 0,
            bitmap: 0,
            icon: 0,
            enabled: style & WS_DISABLED == 0,
            visible: style & WS_VISIBLE != 0,
            width: size.0 as u32,
            height: size.1 as u32,
            x: position.0,
            y: position.1,
        };
        self.windows.push(record);
        Ok(self.windows.len())
    }

    /// Answers a message sent to window index `i`.
    fn deliver(&mut self, i: usize, msg: u32, wparam: usize, lparam: isize) -> (r: isize)
        requires
            i < old(self).windows@.len(),
        ensures
            final(self).log == old(self).log,
    {
        let w = self.windows[i].copy();
        if msg == STM_SETIMAGE {
            let previous: isize;
            if wparam == IMAGE_BITMAP {
                previous = w.bitmap as isize;
                self.windows[i].bitmap = lparam as usize;
                self.windows[i].icon = 0;
            } else if wparam == IMAGE_ICON {
                previous = w.icon as isize;
                self.windows[i].icon = lparam as usize;
                self.windows[i].bitmap = 0;
            } else {
                previous = 0;
            }
            previous
        } else if msg == STM_GETIMAGE {
            if wparam == IMAGE_BITMAP {
                w.bitmap as isize
            } else if wparam == IMAGE_ICON {
                w.icon as isize
            } else {
                0
            }
        } else if msg == EM_GETLIMITTEXT {
            w.limit as isize
        } else if msg == EM_SETLIMITTEXT {
            let limit: u32 = if wparam == 0 || wparam > u32::MAX as usize {
                DEFAULT_TEXT_LIMIT
            } else {
                wparam as u32
            };
            self.windows[i].limit = limit;
            0
        } else if msg == EM_GETMODIFY {
            if w.modified { 1 } else { 0 }
        } else if msg == EM_SETMODIFY {
            self.windows[i].modified = wparam != 0;
            0
        } else if msg == EM_UNDO {
            0
        } else if msg == EM_SETSEL {
            let len = w.text.as_str().unicode_len();
            let start = clamp_offset(wparam, len);
            let end = clamp_offset(lparam as usize, len);
            if start <= end {
                self.windows[i].selection_start = start;
                self.windows[i].selection_end = end;
            } else {
                self.windows[i].selection_start = end;
                self.windows[i].selection_end = start;
            }
            0
        } else if msg == EM_LINELENGTH {
            w.text.as_str().unicode_len() as isize
        } else if msg == EM_SETREADONLY {
            if wparam != 0 {
                self.windows[i].style = w.style | ES_READONLY;
            } else {
                self.windows[i].style = w.style & !ES_READONLY;
            }
            1
        } else {
            0
        }
    }
}

/// A character offset limited to the length of the text; an offset past the
/// end stands for the end.
fn clamp_offset(v: usize, len: usize) -> (r: u32)
    ensures
        v <= len && v <= u32::MAX ==> r == v,
{
    if v <= len && v <= u32::MAX as usize {
        v as u32
    } else if len <= u32::MAX as usize {
        len as u32
    } else {
        u32::MAX
    }
}

impl WindowSystem for VirtualDesktop {
    closed spec fn calls(&self) -> Seq<NativeCall> {
        self.log@
    }

    fn create_window(
        &mut self,
        class_name: &'static str,
        forced_flags: u32,
        flags: u32,
        size: (i32, i32),
        position: (i32, i32),
        parent: ControlHandle,
        text: &str,
    ) -> (r: Result<usize, NwgError>) {
        self.count_call();
        let r = match parent {
            ControlHandle::Hwnd(p) => {
                if self.slot(p).is_some() {
                    self.new_window(p, flags | forced_flags, size, position, text)
                } else {
                    Err(NwgError::CreationFailed(ERROR_INVALID_WINDOW_HANDLE))
                }
            },
            _ => Err(NwgError::CreationFailed(ERROR_INVALID_WINDOW_HANDLE)),
        };
        self.log = Ghost(
            self.log@.push(
                NativeCall {
                    request: Request::CreateWindow { class_name, forced_flags, flags, size, position, parent },
                    text: text@,
                    reply: Reply::Created(r),
                },
            ),
        );
        r
    }

    fn create_message_window(&mut self) -> (r: Result<usize, NwgError>) {
        self.count_call();
        let r = self.new_window(0, 0, (0, 0), (0, 0), "");
        self.log = Ghost(self.log@.push(call(Request::CreateMessageWindow, Reply::Created(r))));
        r
    }

    fn send_message(&mut self, hwnd: usize, msg: u32, wparam: usize, lparam: isize) -> (r: isize) {
        self.count_call();
        let r = match self.slot(hwnd) {
            Some(i) => self.deliver(i, msg, wparam, lparam),
            None => 0,
        };
        self.log = Ghost(self.log@.push(call(Request::SendMessage { hwnd, msg, wparam, lparam }, Reply::Int(r))));
        r
    }

    fn get_selection(&mut self, hwnd: usize) -> (r: (u32, u32)) {
        self.count_call();
        let r = match self.slot(hwnd) {
            Some(i) => (self.windows[i].selection_start, self.windows[i].selection_end),
            None => (0, 0),
        };
        self.log = Ghost(self.log@.push(call(Request::GetSelection { hwnd }, Reply::Pair(r.0, r.1))));
        r
    }

    fn get_window_text(&mut self, hwnd: usize) -> (r: String) {
        self.count_call();
        let r = match self.slot(hwnd) {
            Some(i) => self.windows[i].text.clone(),
            None => String::new(),
        };
        self.log = Ghost(self.log@.push(call(Request::GetText { hwnd }, Reply::Text(r@))));
        r
    }

    fn set_window_text(&mut self, hwnd: usize, text: &str) {
        self.count_call();
        if let Some(i) = self.slot(hwnd) {
            self.windows[i].text = text.to_owned();
            self.windows[i].selection_start = 0;
            self.windows[i].selection_end = 0;
        }
        self.log = Ghost(self.log@.push(NativeCall { request: Request::SetText { hwnd }, text: text@, reply: Reply::Done }));
    }

    fn get_style(&mut self, hwnd: usize) -> (r: u32) {
        self.count_call();
        let r = match self.slot(hwnd) {
            Some(i) => self.windows[i].style,
            None => 0,
        };
        self.log = Ghost(self.log@.push(call(Request::GetStyle { hwnd }, Reply::Bits(r))));
        r
    }

    fn get_window_font(&mut self, hwnd: usize) -> (r: usize) {
        self.count_call();
        let r = match self.slot(hwnd) {
            Some(i) => self.windows[i].font,
            None => 0,
        };
        self.log = Ghost(self.log@.push(call(Request::GetFont { hwnd }, Reply::Handle(r))));
        r
    }

    fn set_window_font(&mut self, hwnd: usize, font: Option<usize>, redraw: bool) {
        self.count_call();
        if let Some(i) = self.slot(hwnd) {
            self.windows[i].font = match font {
                Some(f) => f,
                None => 0,
            };
        }
        self.log = Ghost(self.log@.push(call(Request::SetFont { hwnd, font, redraw }, Reply::Done)));
    }

    fn get_window_enabled(&mut self, hwnd: usize) -> (r: bool) {
        self.count_call();
        let r = match self.slot(hwnd) {
            Some(i) => self.windows[i].enabled,
            None => false,
        };
        self.log = Ghost(self.log@.push(call(Request::GetEnabled { hwnd }, Reply::Flag(r))));
        r
    }

    fn set_window_enabled(&mut self, hwnd: usize, value: bool) {
        self.count_call();
        if let Some(i) = self.slot(hwnd) {
            self.windows[i].enabled = value;
        }
        self.log = Ghost(self.log@.push(call(Request::SetEnabled { hwnd, value }, Reply::Done)));
    }

    fn get_window_visibility(&mut self, hwnd: usize) -> (r: bool) {
        self.count_call();
        let r = match self.slot(hwnd) {
            Some(i) => self.windows[i].visible,
            None => false,
        };
        self.log = Ghost(self.log@.push(call(Request::GetVisible { hwnd }, Reply::Flag(r))));
        r
    }

    fn set_window_visibility(&mut self, hwnd: usize, value: bool) {
        self.count_call();
        if let Some(i) = self.slot(hwnd) {
            self.windows[i].visible = value;
        }
        self.log = Ghost(self.log@.push(call(Request::SetVisible { hwnd, value }, Reply::Done)));
    }

    fn get_window_size(&mut self, hwnd: usize) -> (r: (u32, u32)) {
        self.count_call();
        let r = match self.slot(hwnd) {
            Some(i) => (self.windows[i].width, self.windows[i].height),
            None => (0, 0),
        };
        self.log = Ghost(self.log@.push(call(Request::GetSize { hwnd }, Reply::Pair(r.0, r.1))));
        r
    }

    fn set_window_size(&mut self, hwnd: usize, width: u32, height: u32) {
        self.count_call();
        if let Some(i) = self.slot(hwnd) {
            self.windows[i].width = width;
            self.windows[i].height = height;
        }
        self.log = Ghost(self.log@.push(call(Request::SetSize { hwnd, width, height }, Reply::Done)));
    }

    fn get_window_position(&mut self, hwnd: usize) -> (r: (i32, i32)) {
        self.count_call();
        let r = match self.slot(hwnd) {
            Some(i) => (self.windows[i].x, self.windows[i].y),
            None => (0, 0),
        };
        self.log = Ghost(self.log@.push(call(Request::GetPosition { hwnd }, Reply::Point(r.0, r.1))));
        r
    }

    fn set_window_position(&mut self, hwnd: usize, x: i32, y: i32) {
        self.count_call();
        if let Some(i) = self.slot(hwnd) {
            self.windows[i].x = x;
            self.windows[i].y = y;
        }
        self.log = Ghost(self.log@.push(call(Request::SetPosition { hwnd, x, y }, Reply::Done)));
    }

    fn get_focus(&mut self, hwnd: usize) -> (r: bool) {
        self.count_call();
        let r = hwnd != 0 && self.focus == hwnd;
        self.log = Ghost(self.log@.push(call(Request::GetFocus { hwnd }, Reply::Flag(r))));
        r
    }

    fn set_focus(&mut self, hwnd: usize) {
        self.count_call();
        if self.slot(hwnd).is_some() {
            self.focus = hwnd;
        }
        self.log = Ghost(self.log@.push(call(Request::SetFocus { hwnd }, Reply::Done)));
    }

    fn get_window_parent(&mut self, hwnd: usize) -> (r: usize) {
        self.count_call();
        let r = match self.slot(hwnd) {
            Some(i) => self.windows[i].parent,
            None => 0,
        };
        self.log = Ghost(self.log@.push(call(Request::GetParent { hwnd }, Reply::Handle(r))));
        r
    }

    fn is_bitmap(&mut self, image: usize) -> (r: bool) {
        self.count_call();
        let mut found = false;
        let mut k: usize = 0;
        while k < self.bitmaps.len()
            invariant
                k <= self.bitmaps@.len(),
            decreases self.bitmaps@.len() - k,
        {
            if self.bitmaps[k] == image {
                found = true;
            }
            k = k + 1;
        }
        self.log = Ghost(self.log@.push(call(Request::IsBitmap { image }, Reply::Flag(found))));
        found
    }

    fn create_solid_brush(&mut self, color: u32) -> (r: usize) {
        self.count_call();
        let r = self.fresh_resource();
        self.log = Ghost(self.log@.push(call(Request::CreateBrush { color }, Reply::Handle(r))));
        r
    }

    fn bind_hook(&mut self, parent: usize, key: usize, hook: BackgroundHook) -> (r: usize) {
        self.count_call();
        let token = self.next_token;
        if self.next_token < usize::MAX {
            self.next_token = self.next_token + 1;
        }
        self.hooks.bind(HookEntry { token, parent, key, hook });
        self.log = Ghost(self.log@.push(call(Request::BindHook { parent_hwnd: parent, key, hook }, Reply::Handle(token))));
        token
    }

    fn unbind_hook(&mut self, token: usize) {
        self.count_call();
        self.hooks.unbind(token);
        self.log = Ghost(self.log@.push(call(Request::UnbindHook { token }, Reply::Done)));
    }
}

} // verus!
