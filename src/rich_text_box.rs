use vstd::prelude::*;
use std::ops::Range;
use crate::controls::{
    bound_window, effective_flags, resolve_flags, window_of, ControlHandle, ControlKind, Font,
    NwgError, EM_GETLIMITTEXT, EM_GETMODIFY, EM_LINELENGTH, EM_SETLIMITTEXT, EM_SETMODIFY,
    EM_SETREADONLY, EM_SETSEL, EM_UNDO, ES_AUTOHSCROLL, ES_AUTOVSCROLL, ES_MULTILINE, ES_READONLY,
    WS_BORDER, WS_CHILD, WS_DISABLED, WS_VISIBLE,
};
use crate::platform::{
    first_since, one_more, requests, requests_push, Request, WindowSystem,
};

verus! {

/// The window class of a rich edit control.
pub const RICH_EDIT_CLASS: &'static str = "RICHEDIT50W";

/// Creation flags a caller may choose for a rich text box.
#[derive(Clone, Copy, Debug, PartialEq, Eq, Structural)]
pub struct RichTextBoxFlags {
    pub bits: u32,
}

impl RichTextBoxFlags {
    pub fn empty() -> (r: Self)
        ensures
            r.bits == 0,
    {
        RichTextBoxFlags { bits: 0 }
    }

    /// Scroll vertically while typing.
    pub fn vscroll() -> (r: Self)
        ensures
            r.bits == ES_AUTOVSCROLL,
    {
        RichTextBoxFlags { bits: ES_AUTOVSCROLL }
    }

    /// Scroll horizontally while typing.
    pub fn hscroll() -> (r: Self)
        ensures
            r.bits == ES_AUTOHSCROLL,
    {
        RichTextBoxFlags { bits: ES_AUTOHSCROLL }
    }

    pub fn visible() -> (r: Self)
        ensures
            r.bits == WS_VISIBLE,
    {
        RichTextBoxFlags { bits: WS_VISIBLE }
    }

    pub fn disabled() -> (r: Self)
        ensures
            r.bits == WS_DISABLED,
    {
        RichTextBoxFlags { bits: WS_DISABLED }
    }

    /// The flags of both.
    pub fn union(self, other: Self) -> (r: Self)
        ensures
            r.bits == self.bits | other.bits,
    {
        RichTextBoxFlags { bits: self.bits | other.bits }
    }

    pub fn bits(&self) -> (r: u32)
        ensures
            r == self.bits,
    {
        self.bits
    }
}

/// The flags a rich text box is created with when none are given.
pub open spec fn rich_text_default_flags() -> u32 {
    WS_VISIBLE | ES_AUTOVSCROLL | ES_AUTOHSCROLL
}

/// The flags without which a rich text box does not work.
pub open spec fn rich_text_forced_flags() -> u32 {
    WS_BORDER | WS_CHILD | ES_MULTILINE
}

/// A multi-line rich edit control.
#[derive(Clone, Copy, Debug, PartialEq, Eq, Structural)]
pub struct RichTextBox {
    pub handle: ControlHandle,
}

impl Default for RichTextBox {
    fn default() -> (r: RichTextBox)
        ensures
            r.handle is NoHandle,
    {
        RichTextBox { handle: ControlHandle::NoHandle }
    }
}

/// The configuration from which a rich text box is built.
pub struct RichTextBoxBuilder {
    pub text: String,
    pub size: (i32, i32),
    pub position: (i32, i32),
    pub flags: Option<RichTextBoxFlags>,
    pub limit: usize,
    pub readonly: bool,
    pub font: Option<Font>,
    pub parent: Option<ControlHandle>,
}

impl RichTextBox {
    /// A builder with the defaults: no text, 100 by 25, at the origin, the
    /// default flags, no limit, editable, no font and no parent.
    pub fn builder() -> (r: RichTextBoxBuilder)
        ensures
            r.text@ == Seq::<char>::empty(),
            r.size == (100i32, 25i32),
            r.position == (0i32, 0i32),
            r.flags is None,
            r.limit == 0,
            !r.readonly,
            r.font is None,
            r.parent is None,
    {
        RichTextBoxBuilder {
            text: String::new(),
            size: (100, 25),
            position: (0, 0),
            flags: None,
            limit: 0,
            readonly: false,
            font: None,
            parent: None,
        }
    }

    /// The window class used to create the control.
    pub fn class_name(&self) -> (r: &'static str)
        ensures
            r == RICH_EDIT_CLASS,
    {
        RICH_EDIT_CLASS
    }

    /// The flags used when the builder is given none.
    pub fn flags(&self) -> (r: u32)
        ensures
            r == rich_text_default_flags(),
    {
        WS_VISIBLE | ES_AUTOVSCROLL | ES_AUTOHSCROLL
    }

    /// The flags always added at creation.
    pub fn forced_flags(&self) -> (r: u32)
        ensures
            r == rich_text_forced_flags(),
    {
        WS_BORDER | WS_CHILD | ES_MULTILINE
    }

    /// The font of the control, if it has one.
    pub fn font<W: WindowSystem>(&self, ws: &mut W) -> (r: Result<Option<Font>, NwgError>)
        ensures
            window_of(self.handle) matches Err(e) ==> r == Err::<Option<Font>, NwgError>(e)
                && final(ws).calls() == old(ws).calls(),
            window_of(self.handle) matches Ok(h) ==> one_more(old(ws).calls(), final(ws).calls(), Request::GetFont { hwnd: h })
                && r == Ok::<Option<Font>, NwgError>(
                    if final(ws).calls().last().reply.handle() == 0 {
                        None
                    } else {
                        Some(Font { handle: final(ws).calls().last().reply.handle() })
                    },
                ),
    {
        let h = bound_window(&self.handle)?;
        let f = ws.get_window_font(h);
        if f == 0 {
            Ok(None)
        } else {
            Ok(Some(Font { handle: f }))
        }
    }

    /// Sets the font of the control, or the default font for `None`.
    pub fn set_font<W: WindowSystem>(&self, font: Option<&Font>, ws: &mut W) -> (r: Result<(), NwgError>)
        ensures
            window_of(self.handle) matches Err(e) ==> r == Err::<(), NwgError>(e)
                && final(ws).calls() == old(ws).calls(),
            window_of(self.handle) matches Ok(h) ==> r is Ok && one_more(
                old(ws).calls(),
                final(ws).calls(),
                Request::SetFont {
                    hwnd: h,
                    font: match font {
                        Some(f) => Some(f.handle),
                        None => None,
                    },
                    redraw: true,
                },
            ),
    {
        let h = bound_window(&self.handle)?;
        let f: Option<usize> = match font {
            Some(f) => Some(f.handle),
            None => None,
        };
        ws.set_window_font(h, f, true);
        Ok(())
    }

    /// Sends one message and returns the answer.
    fn message<W: WindowSystem>(&self, msg: u32, wparam: usize, lparam: isize, ws: &mut W) -> (r: Result<isize, NwgError>)
        ensures
            window_of(self.handle) matches Err(e) ==> r == Err::<isize, NwgError>(e)
                && final(ws).calls() == old(ws).calls(),
            window_of(self.handle) matches Ok(h) ==> one_more(
                old(ws).calls(),
                final(ws).calls(),
                Request::SendMessage { hwnd: h, msg, wparam, lparam },
            ) && r == Ok::<isize, NwgError>(final(ws).calls().last().reply.number()),
    {
        let h = bound_window(&self.handle)?;
        Ok(ws.send_message(h, msg, wparam, lparam))
    }

    /// The largest number of characters the control accepts.
    pub fn limit<W: WindowSystem>(&self, ws: &mut W) -> (r: Result<u32, NwgError>)
        ensures
            window_of(self.handle) matches Err(e) ==> r == Err::<u32, NwgError>(e)
                && final(ws).calls() == old(ws).calls(),
            window_of(self.handle) matches Ok(h) ==> one_more(
                old(ws).calls(),
                final(ws).calls(),
                Request::SendMessage { hwnd: h, msg: EM_GETLIMITTEXT, wparam: 0, lparam: 0 },
            ) && r == Ok::<u32, NwgError>(final(ws).calls().last().reply.number() as u32),
    {
        let v = self.message(EM_GETLIMITTEXT, 0, 0, ws)?;
        Ok(v as u32)
    }

    /// Sets the largest number of characters the control accepts.
    pub fn set_limit<W: WindowSystem>(&self, limit: usize, ws: &mut W) -> (r: Result<(), NwgError>)
        ensures
            window_of(self.handle) matches Err(e) ==> r == Err::<(), NwgError>(e)
                && final(ws).calls() == old(ws).calls(),
            window_of(self.handle) matches Ok(h) ==> r is Ok && one_more(
                old(ws).calls(),
                final(ws).calls(),
                Request::SendMessage { hwnd: h, msg: EM_SETLIMITTEXT, wparam: limit, lparam: 0 },
            ),
    {
        self.message(EM_SETLIMITTEXT, limit, 0, ws)?;
        Ok(())
    }

    /// Whether the text was modified since the control was created.
    pub fn modified<W: WindowSystem>(&self, ws: &mut W) -> (r: Result<bool, NwgError>)
        ensures
            window_of(self.handle) matches Err(e) ==> r == Err::<bool, NwgError>(e)
                && final(ws).calls() == old(ws).calls(),
            window_of(self.handle) matches Ok(h) ==> one_more(
                old(ws).calls(),
                final(ws).calls(),
                Request::SendMessage { hwnd: h, msg: EM_GETMODIFY, wparam: 0, lparam: 0 },
            ) && r == Ok::<bool, NwgError>(final(ws).calls().last().reply.number() != 0),
    {
        let v = self.message(EM_GETMODIFY, 0, 0, ws)?;
        Ok(v != 0)
    }

    /// Sets the modified flag.
    pub fn set_modified<W: WindowSystem>(&self, e: bool, ws: &mut W) -> (r: Result<(), NwgError>)
        ensures
            window_of(self.handle) matches Err(x) ==> r == Err::<(), NwgError>(x)
                && final(ws).calls() == old(ws).calls(),
            window_of(self.handle) matches Ok(h) ==> r is Ok && one_more(
                old(ws).calls(),
                final(ws).calls(),
                Request::SendMessage { hwnd: h, msg: EM_SETMODIFY, wparam: if e { 1 } else { 0 }, lparam: 0 },
            ),
    {
        let w: usize = if e { 1 } else { 0 };
        self.message(EM_SETMODIFY, w, 0, ws)?;
        Ok(())
    }

    /// Undoes the last edit.
    pub fn undo<W: WindowSystem>(&self, ws: &mut W) -> (r: Result<(), NwgError>)
        ensures
            window_of(self.handle) matches Err(e) ==> r == Err::<(), NwgError>(e)
                && final(ws).calls() == old(ws).calls(),
            window_of(self.handle) matches Ok(h) ==> r is Ok && one_more(
                old(ws).calls(),
                final(ws).calls(),
                Request::SendMessage { hwnd: h, msg: EM_UNDO, wparam: 0, lparam: 0 },
            ),
    {
        self.message(EM_UNDO, 0, 0, ws)?;
        Ok(())
    }

    /// The selected characters, as the half-open range of their offsets.
    pub fn selection<W: WindowSystem>(&self, ws: &mut W) -> (r: Result<Range<u32>, NwgError>)
        ensures
            window_of(self.handle) matches Err(e) ==> r == Err::<Range<u32>, NwgError>(e)
                && final(ws).calls() == old(ws).calls(),
            window_of(self.handle) matches Ok(h) ==> one_more(old(ws).calls(), final(ws).calls(), Request::GetSelection { hwnd: h })
                && (r matches Ok(s) && s.start == final(ws).calls().last().reply.pair().0
                && s.end == final(ws).calls().last().reply.pair().1),
    {
        let h = bound_window(&self.handle)?;
        let (start, end) = ws.get_selection(h);
        Ok(Range { start, end })
    }

    /// Selects the characters of the half-open range `r`.
    pub fn set_selection<W: WindowSystem>(&self, r: Range<u32>, ws: &mut W) -> (res: Result<(), NwgError>)
        ensures
            window_of(self.handle) matches Err(e) ==> res == Err::<(), NwgError>(e)
                && final(ws).calls() == old(ws).calls(),
            window_of(self.handle) matches Ok(h) ==> res is Ok && one_more(
                old(ws).calls(),
                final(ws).calls(),
                Request::SendMessage { hwnd: h, msg: EM_SETSEL, wparam: r.start as usize, lparam: r.end as isize },
            ),
    {
        self.message(EM_SETSEL, r.start as usize, r.end as isize, ws)?;
        Ok(())
    }

    /// The length of the text, as the control reports it.
    pub fn len<W: WindowSystem>(&self, ws: &mut W) -> (r: Result<u32, NwgError>)
        ensures
            window_of(self.handle) matches Err(e) ==> r == Err::<u32, NwgError>(e)
                && final(ws).calls() == old(ws).calls(),
            window_of(self.handle) matches Ok(h) ==> one_more(
                old(ws).calls(),
                final(ws).calls(),
                Request::SendMessage { hwnd: h, msg: EM_LINELENGTH, wparam: 0, lparam: 0 },
            ) && r == Ok::<u32, NwgError>(final(ws).calls().last().reply.number() as u32),
    {
        let v = self.message(EM_LINELENGTH, 0, 0, ws)?;
        Ok(v as u32)
    }

    /// Whether the text cannot be edited; it can still be copied.
    pub fn readonly<W: WindowSystem>(&self, ws: &mut W) -> (r: Result<bool, NwgError>)
        ensures
            window_of(self.handle) matches Err(e) ==> r == Err::<bool, NwgError>(e)
                && final(ws).calls() == old(ws).calls(),
            window_of(self.handle) matches Ok(h) ==> one_more(old(ws).calls(), final(ws).calls(), Request::GetStyle { hwnd: h })
                && r == Ok::<bool, NwgError>(
                    final(ws).calls().last().reply.bits() & ES_READONLY == ES_READONLY,
                ),
    {
        let h = bound_window(&self.handle)?;
        let style = ws.get_style(h);
        Ok(style & ES_READONLY == ES_READONLY)
    }

    /// Makes the text read-only, or editable again.
    pub fn set_readonly<W: WindowSystem>(&self, r: bool, ws: &mut W) -> (res: Result<(), NwgError>)
        ensures
            window_of(self.handle) matches Err(e) ==> res == Err::<(), NwgError>(e)
                && final(ws).calls() == old(ws).calls(),
            window_of(self.handle) matches Ok(h) ==> res is Ok && one_more(
                old(ws).calls(),
                final(ws).calls(),
                Request::SendMessage { hwnd: h, msg: EM_SETREADONLY, wparam: if r { 1 } else { 0 }, lparam: 0 },
            ),
    {
        let w: usize = if r { 1 } else { 0 };
        self.message(EM_SETREADONLY, w, 0, ws)?;
        Ok(())
    }

    /// Removes all the text.
    pub fn clear<W: WindowSystem>(&self, ws: &mut W) -> (r: Result<(), NwgError>)
        ensures
            window_of(self.handle) matches Err(e) ==> r == Err::<(), NwgError>(e)
                && final(ws).calls() == old(ws).calls(),
            window_of(self.handle) matches Ok(h) ==> r is Ok
                && one_more(old(ws).calls(), final(ws).calls(), Request::SetText { hwnd: h })
                && final(ws).calls().last().text == Seq::<char>::empty(),
    {
        proof {
            reveal_strlit("");
        }
        self.set_text("", ws)
    }

    /// Whether the control has the keyboard focus.
    pub fn focus<W: WindowSystem>(&self, ws: &mut W) -> (r: Result<bool, NwgError>)
        ensures
            window_of(self.handle) matches Err(e) ==> r == Err::<bool, NwgError>(e)
                && final(ws).calls() == old(ws).calls(),
            window_of(self.handle) matches Ok(h) ==> one_more(old(ws).calls(), final(ws).calls(), Request::GetFocus { hwnd: h })
                && r == Ok::<bool, NwgError>(final(ws).calls().last().reply.flag()),
    {
        let h = bound_window(&self.handle)?;
        Ok(ws.get_focus(h))
    }

    /// Gives the control the keyboard focus.
    pub fn set_focus<W: WindowSystem>(&self, ws: &mut W) -> (r: Result<(), NwgError>)
        ensures
            window_of(self.handle) matches Err(e) ==> r == Err::<(), NwgError>(e)
                && final(ws).calls() == old(ws).calls(),
            window_of(self.handle) matches Ok(h) ==> r is Ok
                && one_more(old(ws).calls(), final(ws).calls(), Request::SetFocus { hwnd: h }),
    {
        let h = bound_window(&self.handle)?;
        ws.set_focus(h);
        Ok(())
    }

    /// Whether the user can interact with the control.
    pub fn enabled<W: WindowSystem>(&self, ws: &mut W) -> (r: Result<bool, NwgError>)
        ensures
            window_of(self.handle) matches Err(e) ==> r == Err::<bool, NwgError>(e)
                && final(ws).calls() == old(ws).calls(),
            window_of(self.handle) matches Ok(h) ==> one_more(old(ws).calls(), final(ws).calls(), Request::GetEnabled { hwnd: h })
                && r == Ok::<bool, NwgError>(final(ws).calls().last().reply.flag()),
    {
        let h = bound_window(&self.handle)?;
        Ok(ws.get_window_enabled(h))
    }

    /// Enables or disables the control.
    pub fn set_enabled<W: WindowSystem>(&self, v: bool, ws: &mut W) -> (r: Result<(), NwgError>)
        ensures
            window_of(self.handle) matches Err(e) ==> r == Err::<(), NwgError>(e)
                && final(ws).calls() == old(ws).calls(),
            window_of(self.handle) matches Ok(h) ==> r is Ok
                && one_more(old(ws).calls(), final(ws).calls(), Request::SetEnabled { hwnd: h, value: v }),
    {
        let h = bound_window(&self.handle)?;
        ws.set_window_enabled(h, v);
        Ok(())
    }

    /// Whether the control is shown; true even when it lies outside its
    /// parent's client area.
    pub fn visible<W: WindowSystem>(&self, ws: &mut W) -> (r: Result<bool, NwgError>)
        ensures
            window_of(self.handle) matches Err(e) ==> r == Err::<bool, NwgError>(e)
                && final(ws).calls() == old(ws).calls(),
            window_of(self.handle) matches Ok(h) ==> one_more(old(ws).calls(), final(ws).calls(), Request::GetVisible { hwnd: h })
                && r == Ok::<bool, NwgError>(final(ws).calls().last().reply.flag()),
    {
        let h = bound_window(&self.handle)?;
        Ok(ws.get_window_visibility(h))
    }

    /// Shows or hides the control.
    pub fn set_visible<W: WindowSystem>(&self, v: bool, ws: &mut W) -> (r: Result<(), NwgError>)
        ensures
            window_of(self.handle) matches Err(e) ==> r == Err::<(), NwgError>(e)
                && final(ws).calls() == old(ws).calls(),
            window_of(self.handle) matches Ok(h) ==> r is Ok
                && one_more(old(ws).calls(), final(ws).calls(), Request::SetVisible { hwnd: h, value: v }),
    {
        let h = bound_window(&self.handle)?;
        ws.set_window_visibility(h, v);
        Ok(())
    }

    /// The size of the control in its parent.
    pub fn size<W: WindowSystem>(&self, ws: &mut W) -> (r: Result<(u32, u32), NwgError>)
        ensures
            window_of(self.handle) matches Err(e) ==> r == Err::<(u32, u32), NwgError>(e)
                && final(ws).calls() == old(ws).calls(),
            window_of(self.handle) matches Ok(h) ==> one_more(old(ws).calls(), final(ws).calls(), Request::GetSize { hwnd: h })
                && r == Ok::<(u32, u32), NwgError>(final(ws).calls().last().reply.pair()),
    {
        let h = bound_window(&self.handle)?;
        Ok(ws.get_window_size(h))
    }

    /// Resizes the control.
    pub fn set_size<W: WindowSystem>(&self, x: u32, y: u32, ws: &mut W) -> (r: Result<(), NwgError>)
        ensures
            window_of(self.handle) matches Err(e) ==> r == Err::<(), NwgError>(e)
                && final(ws).calls() == old(ws).calls(),
            window_of(self.handle) matches Ok(h) ==> r is Ok
                && one_more(old(ws).calls(), final(ws).calls(), Request::SetSize { hwnd: h, width: x, height: y }),
    {
        let h = bound_window(&self.handle)?;
        ws.set_window_size(h, x, y);
        Ok(())
    }

    /// The position of the control in its parent.
    pub fn position<W: WindowSystem>(&self, ws: &mut W) -> (r: Result<(i32, i32), NwgError>)
        ensures
            window_of(self.handle) matches Err(e) ==> r == Err::<(i32, i32), NwgError>(e)
                && final(ws).calls() == old(ws).calls(),
            window_of(self.handle) matches Ok(h) ==> one_more(old(ws).calls(), final(ws).calls(), Request::GetPosition { hwnd: h })
                && r == Ok::<(i32, i32), NwgError>(final(ws).calls().last().reply.point()),
    {
        let h = bound_window(&self.handle)?;
        Ok(ws.get_window_position(h))
    }

    /// Moves the control.
    pub fn set_position<W: WindowSystem>(&self, x: i32, y: i32, ws: &mut W) -> (r: Result<(), NwgError>)
        ensures
            window_of(self.handle) matches Err(e) ==> r == Err::<(), NwgError>(e)
                && final(ws).calls() == old(ws).calls(),
            window_of(self.handle) matches Ok(h) ==> r is Ok
                && one_more(old(ws).calls(), final(ws).calls(), Request::SetPosition { hwnd: h, x, y }),
    {
        let h = bound_window(&self.handle)?;
        ws.set_window_position(h, x, y);
        Ok(())
    }

    /// The text of the control.
    pub fn text<W: WindowSystem>(&self, ws: &mut W) -> (r: Result<String, NwgError>)
        ensures
            window_of(self.handle) matches Err(e) ==> (r matches Err(x) && x == e)
                && final(ws).calls() == old(ws).calls(),
            window_of(self.handle) matches Ok(h) ==> one_more(old(ws).calls(), final(ws).calls(), Request::GetText { hwnd: h })
                && (r matches Ok(t) && t@ == final(ws).calls().last().reply.text()),
    {
        let h = bound_window(&self.handle)?;
        Ok(ws.get_window_text(h))
    }

    /// Replaces the text of the control; lines are separated by "\r\n".
    pub fn set_text<W: WindowSystem>(&self, v: &str, ws: &mut W) -> (r: Result<(), NwgError>)
        ensures
            window_of(self.handle) matches Err(e) ==> r == Err::<(), NwgError>(e)
                && final(ws).calls() == old(ws).calls(),
            window_of(self.handle) matches Ok(h) ==> r is Ok
                && one_more(old(ws).calls(), final(ws).calls(), Request::SetText { hwnd: h })
                && final(ws).calls().last().text == v@,
    {
        let h = bound_window(&self.handle)?;
        ws.set_window_text(h, v);
        Ok(())
    }
}

impl RichTextBoxBuilder {
    /// The explicit flags, if any.
    pub open spec fn explicit_flags(&self) -> Option<u32> {
        match self.flags {
            Some(f) => Some(f.bits),
            None => None,
        }
    }

    /// What the builder asks of the window system to create the window.
    pub open spec fn creation(&self, parent: ControlHandle) -> Request {
        Request::CreateWindow {
            class_name: RICH_EDIT_CLASS,
            forced_flags: rich_text_forced_flags(),
            flags: resolve_flags(self.explicit_flags(), rich_text_default_flags(), rich_text_forced_flags()),
            size: self.size,
            position: self.position,
            parent,
        }
    }

    /// What the builder asks, in order, once window `h` exists: the limit if
    /// one was given, then read-only if asked, then the font if one was given.
    pub open spec fn setup(&self, h: usize) -> Seq<Request> {
        (if self.limit > 0 {
            seq![Request::SendMessage { hwnd: h, msg: EM_SETLIMITTEXT, wparam: self.limit, lparam: 0 }]
        } else {
            Seq::empty()
        }) + (if self.readonly {
            seq![Request::SendMessage { hwnd: h, msg: EM_SETREADONLY, wparam: 1, lparam: 0 }]
        } else {
            Seq::empty()
        }) + (match self.font {
            Some(f) => seq![Request::SetFont { hwnd: h, font: Some(f.handle), redraw: true }],
            None => Seq::empty(),
        })
    }

    pub fn flags(self, flags: RichTextBoxFlags) -> (r: RichTextBoxBuilder)
        ensures
            r == (RichTextBoxBuilder { flags: Some(flags), ..self }),
    {
        RichTextBoxBuilder { flags: Some(flags), ..self }
    }

    pub fn text(self, text: &str) -> (r: RichTextBoxBuilder)
        ensures
            r.text@ == text@,
            r.size == self.size,
            r.position == self.position,
            r.flags == self.flags,
            r.limit == self.limit,
            r.readonly == self.readonly,
            r.font == self.font,
            r.parent == self.parent,
    {
        RichTextBoxBuilder { text: text.to_owned(), ..self }
    }

    pub fn size(self, size: (i32, i32)) -> (r: RichTextBoxBuilder)
        ensures
            r == (RichTextBoxBuilder { size, ..self }),
    {
        RichTextBoxBuilder { size, ..self }
    }

    pub fn position(self, pos: (i32, i32)) -> (r: RichTextBoxBuilder)
        ensures
            r == (RichTextBoxBuilder { position: pos, ..self }),
    {
        RichTextBoxBuilder { position: pos, ..self }
    }

    pub fn limit(self, limit: usize) -> (r: RichTextBoxBuilder)
        ensures
            r == (RichTextBoxBuilder { limit, ..self }),
    {
        RichTextBoxBuilder { limit, ..self }
    }

    pub fn readonly(self, read: bool) -> (r: RichTextBoxBuilder)
        ensures
            r == (RichTextBoxBuilder { readonly: read, ..self }),
    {
        RichTextBoxBuilder { readonly: read, ..self }
    }

    pub fn font(self, font: Option<&Font>) -> (r: RichTextBoxBuilder)
        ensures
            r == (RichTextBoxBuilder {
                font: match font {
                    Some(f) => Some(*f),
                    None => None,
                },
                ..self
            }),
    {
        let f: Option<Font> = match font {
            Some(f) => Some(*f),
            None => None,
        };
        RichTextBoxBuilder { font: f, ..self }
    }

    pub fn parent(self, p: ControlHandle) -> (r: RichTextBoxBuilder)
        ensures
            r == (RichTextBoxBuilder { parent: Some(p), ..self }),
    {
        RichTextBoxBuilder { parent: Some(p), ..self }
    }

    /// Creates the window and binds `out` to it, then applies the limit, the
    /// read-only state and the font. Without a parent nothing is asked of the
    /// window system; when creation fails `out` is left as it was.
    pub fn build<W: WindowSystem>(self, out: &mut RichTextBox, ws: &mut W) -> (r: Result<(), NwgError>)
        ensures
            self.parent is None ==> r == Err::<(), NwgError>(NwgError::MissingParent(ControlKind::RichTextBox))
                && final(ws).calls() == old(ws).calls() && *final(out) == *old(out),
            self.parent matches Some(p) ==> final(ws).calls().len() > old(ws).calls().len()
                && first_since(old(ws).calls(), final(ws).calls()).request == self.creation(p)
                && first_since(old(ws).calls(), final(ws).calls()).text == self.text@,
            self.parent is Some ==> (first_since(old(ws).calls(), final(ws).calls()).reply.created() matches Err(e)
                ==> r == Err::<(), NwgError>(e) && final(ws).calls().len() == old(ws).calls().len() + 1
                && *final(out) == *old(out)),
            self.parent is Some ==> (first_since(old(ws).calls(), final(ws).calls()).reply.created() matches Ok(h)
                ==> r is Ok && final(out).handle == ControlHandle::Hwnd(h)
                && requests(final(ws).calls()) == requests(old(ws).calls()).push(self.creation(self.parent.unwrap()))
                    + self.setup(h)),
    {
        let parent = match self.parent {
            Some(p) => p,
            None => {
                return Err(NwgError::no_parent(ControlKind::RichTextBox));
            },
        };
        let explicit: Option<u32> = match self.flags {
            Some(f) => Some(f.bits()),
            None => None,
        };
        let flags = effective_flags(explicit, out.flags(), out.forced_flags());
        let ghost before = ws.calls();
        let created = ws.create_window(
            out.class_name(),
            out.forced_flags(),
            flags,
            self.size,
            self.position,
            parent,
            self.text.as_str(),
        );
        proof {
            requests_push(before, ws.calls().last());
        }
        let h = match created {
            Ok(h) => h,
            Err(e) => {
                return Err(e);
            },
        };
        out.handle = ControlHandle::Hwnd(h);
        let ghost base = requests(ws.calls());
        if self.limit > 0 {
            let ghost l0 = ws.calls();
            let _ = out.set_limit(self.limit, ws);
            proof {
                requests_push(l0, ws.calls().last());
            }
        }
        if self.readonly {
            let ghost l0 = ws.calls();
            let _ = out.set_readonly(true, ws);
            proof {
                requests_push(l0, ws.calls().last());
            }
        }
        if self.font.is_some() {
            let ghost l0 = ws.calls();
            let f = self.font.unwrap();
            let _ = out.set_font(Some(&f), ws);
            proof {
                requests_push(l0, ws.calls().last());
            }
        }
        proof {
            assert(requests(ws.calls()) =~= base + self.setup(h));
        }
        Ok(())
    }
}

} // verus!
