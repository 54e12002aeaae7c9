use vstd::prelude::*;
use crate::controls::{
    bound_window, effective_flags, resolve_flags, rgb, rgb_value, window_of, Bitmap, ControlHandle,
    ControlKind, Icon, NwgError, IMAGE_BITMAP, IMAGE_ICON, SS_BITMAP, SS_CENTERIMAGE, SS_ICON,
    SS_NOTIFY, STM_GETIMAGE, STM_SETIMAGE, WS_CHILD, WS_DISABLED, WS_VISIBLE,
};
use crate::hooks::BackgroundHook;
use crate::platform::{first_since, one_more, requests, requests_push, NativeCall, Request, WindowSystem};

verus! {

/// The window class of a static control.
pub const STATIC_CLASS: &'static str = "STATIC";

/// Creation flags a caller may choose for an image frame.
#[derive(Clone, Copy, Debug, PartialEq, Eq, Structural)]
pub struct ImageFrameFlags {
    pub bits: u32,
}

impl ImageFrameFlags {
    pub fn empty() -> (r: Self)
        ensures
            r.bits == 0,
    {
        ImageFrameFlags { bits: 0 }
    }

    pub fn visible() -> (r: Self)
        ensures
            r.bits == WS_VISIBLE,
    {
        ImageFrameFlags { bits: WS_VISIBLE }
    }

    pub fn disabled() -> (r: Self)
        ensures
            r.bits == WS_DISABLED,
    {
        ImageFrameFlags { bits: WS_DISABLED }
    }

    /// The flags of both.
    pub fn union(self, other: Self) -> (r: Self)
        ensures
            r.bits == self.bits | other.bits,
    {
        ImageFrameFlags { bits: self.bits | other.bits }
    }

    pub fn bits(&self) -> (r: u32)
        ensures
            r == self.bits,
    {
        self.bits
    }
}

/// The flags without which an image frame does not work.
pub open spec fn image_frame_forced_flags() -> u32 {
    WS_CHILD | SS_NOTIFY | SS_CENTERIMAGE
}

/// The content mode of an image frame: bitmap when a bitmap is given, even
/// beside an icon; icon when only an icon is given; bitmap otherwise.
pub open spec fn content_mode(has_bitmap: bool, has_icon: bool) -> u32 {
    if has_bitmap {
        SS_BITMAP
    } else if has_icon {
        SS_ICON
    } else {
        SS_BITMAP
    }
}

/// Computes `content_mode`.
pub fn content_mode_flag(has_bitmap: bool, has_icon: bool) -> (r: u32)
    ensures
        r == content_mode(has_bitmap, has_icon),
{
    if has_bitmap {
        SS_BITMAP
    } else if has_icon {
        SS_ICON
    } else {
        SS_BITMAP
    }
}

/// A control that shows a bitmap or an icon.
pub struct ImageFrame {
    pub handle: ControlHandle,
    /// The token of the attached background-colour hook, if any.
    pub hook: Option<usize>,
}

impl Default for ImageFrame {
    fn default() -> (r: ImageFrame)
        ensures
            r.handle is NoHandle,
            r.hook is None,
    {
        ImageFrame { handle: ControlHandle::NoHandle, hook: None }
    }
}

/// The configuration from which an image frame is built.
#[derive(Clone, Copy, Debug)]
pub struct ImageFrameBuilder {
    pub size: (i32, i32),
    pub position: (i32, i32),
    pub flags: Option<ImageFrameFlags>,
    pub bitmap: Option<Bitmap>,
    pub icon: Option<Icon>,
    pub parent: Option<ControlHandle>,
    pub background_color: Option<[u8; 3]>,
}

/// The message that shows `image` of kind `kind`, or removes the image for
/// `None`.
pub open spec fn set_image_request(h: usize, kind: usize, image: Option<usize>) -> Request {
    Request::SendMessage {
        hwnd: h,
        msg: STM_SETIMAGE,
        wparam: kind,
        lparam: match image {
            Some(i) => i as isize,
            None => 0,
        },
    }
}

/// What attaching a background colour asks, given the parent and the brush
/// that the window system answered.
pub open spec fn hook_requests(h: usize, color: [u8; 3], parent: usize, brush: usize) -> Seq<Request> {
    seq![
        Request::GetParent { hwnd: h },
        Request::CreateBrush { color: rgb_value(color) },
        Request::BindHook { parent_hwnd: parent, key: h, hook: BackgroundHook { child: h, brush } },
    ]
}

impl ImageFrame {
    /// A builder with the defaults: 100 by 100, at the origin, the default
    /// flags, no image, no parent and no background colour.
    pub fn builder() -> (r: ImageFrameBuilder)
        ensures
            r.size == (100i32, 100i32),
            r.position == (0i32, 0i32),
            r.flags is None,
            r.bitmap is None,
            r.icon is None,
            r.parent is None,
            r.background_color is None,
    {
        ImageFrameBuilder {
            size: (100, 100),
            position: (0, 0),
            flags: None,
            bitmap: None,
            icon: None,
            parent: None,
            background_color: None,
        }
    }

    /// Shows a bitmap in place of the current image; `None` removes it.
    pub fn set_bitmap<W: WindowSystem>(&self, image: Option<&Bitmap>, ws: &mut W) -> (r: Result<(), NwgError>)
        ensures
            window_of(self.handle) matches Err(e) ==> r == Err::<(), NwgError>(e)
                && final(ws).calls() == old(ws).calls(),
            window_of(self.handle) matches Ok(h) ==> r is Ok && one_more(
                old(ws).calls(),
                final(ws).calls(),
                set_image_request(h, IMAGE_BITMAP, match image {
                    Some(b) => Some(b.handle),
                    None => None,
                }),
            ),
    {
        let h = bound_window(&self.handle)?;
        let l: isize = match image {
            Some(b) => b.handle as isize,
            None => 0,
        };
        ws.send_message(h, STM_SETIMAGE, IMAGE_BITMAP, l);
        Ok(())
    }

    /// Shows an icon in place of the current image; `None` removes it.
    pub fn set_icon<W: WindowSystem>(&self, image: Option<&Icon>, ws: &mut W) -> (r: Result<(), NwgError>)
        ensures
            window_of(self.handle) matches Err(e) ==> r == Err::<(), NwgError>(e)
                && final(ws).calls() == old(ws).calls(),
            window_of(self.handle) matches Ok(h) ==> r is Ok && one_more(
                old(ws).calls(),
                final(ws).calls(),
                set_image_request(h, IMAGE_ICON, match image {
                    Some(i) => Some(i.handle),
                    None => None,
                }),
            ),
    {
        let h = bound_window(&self.handle)?;
        let l: isize = match image {
            Some(i) => i.handle as isize,
            None => 0,
        };
        ws.send_message(h, STM_SETIMAGE, IMAGE_ICON, l);
        Ok(())
    }

    /// The current image: the bitmap query is asked first, then the icon
    /// query; a non-zero bitmap answer that the window system confirms as a
    /// bitmap is returned in `bitmap`, else a non-zero icon answer in `icon`.
    /// Both are borrowed, and at most one is set.
    pub fn image<W: WindowSystem>(&self, bitmap: &mut Option<Bitmap>, icon: &mut Option<Icon>, ws: &mut W) -> (r: Result<(), NwgError>)
        ensures
            window_of(self.handle) matches Err(e) ==> r == Err::<(), NwgError>(e)
                && final(ws).calls() == old(ws).calls()
                && *final(bitmap) == *old(bitmap) && *final(icon) == *old(icon),
            window_of(self.handle) matches Ok(h) ==> r is Ok
                && final(ws).calls().len() >= old(ws).calls().len() + 2
                && requests(final(ws).calls()) == requests(old(ws).calls()) + image_requests(
                    h,
                    final(ws).calls()[old(ws).calls().len() as int].reply.number(),
                )
                && *final(bitmap) == shown_bitmap(final(ws).calls(), old(ws).calls().len() as int)
                && *final(icon) == shown_icon(final(ws).calls(), old(ws).calls().len() as int),
    {
        let h = bound_window(&self.handle)?;
        let ghost l0 = ws.calls();
        let bitmap_handle = ws.send_message(h, STM_GETIMAGE, IMAGE_BITMAP, 0);
        let ghost l1 = ws.calls();
        let icon_handle = ws.send_message(h, STM_GETIMAGE, IMAGE_ICON, 0);
        let ghost l2 = ws.calls();
        proof {
            requests_push(l0, l1.last());
            requests_push(l1, l2.last());
        }
        *bitmap = None;
        *icon = None;
        let mut is_bmp = false;
        if bitmap_handle != 0 {
            is_bmp = ws.is_bitmap(bitmap_handle as usize);
            proof {
                requests_push(l2, ws.calls().last());
            }
        }
        if bitmap_handle != 0 && is_bmp {
            *bitmap = Some(Bitmap { handle: bitmap_handle as usize, owned: false });
        } else if icon_handle != 0 {
            *icon = Some(Icon { handle: icon_handle as usize, owned: false });
        }
        proof {
            assert(requests(ws.calls()) =~= requests(l0) + image_requests(h, bitmap_handle));
        }
        Ok(())
    }

    /// The window class used to create the control.
    pub fn class_name(&self) -> (r: &'static str)
        ensures
            r == STATIC_CLASS,
    {
        STATIC_CLASS
    }

    /// The flags used when the builder is given none.
    pub fn flags(&self) -> (r: u32)
        ensures
            r == WS_VISIBLE,
    {
        WS_VISIBLE
    }

    /// The flags always added at creation.
    pub fn forced_flags(&self) -> (r: u32)
        ensures
            r == image_frame_forced_flags(),
    {
        WS_CHILD | SS_NOTIFY | SS_CENTERIMAGE
    }

    /// Paints the control's background with colour `c`: creates a brush and
    /// binds a hook to the parent that hands it out for this control only.
    fn hook_background_color<W: WindowSystem>(&mut self, c: [u8; 3], ws: &mut W) -> (r: Result<(), NwgError>)
        ensures
            final(self).handle == old(self).handle,
            window_of(old(self).handle) matches Err(e) ==> r == Err::<(), NwgError>(e)
                && final(ws).calls() == old(ws).calls() && final(self).hook == old(self).hook,
            window_of(old(self).handle) matches Ok(h) ==> r is Ok
                && final(ws).calls().len() == old(ws).calls().len() + 3
                && final(ws).calls().subrange(0, old(ws).calls().len() as int) == old(ws).calls()
                && requests(final(ws).calls()) == requests(old(ws).calls()) + hook_requests(
                    h,
                    c,
                    final(ws).calls()[old(ws).calls().len() as int].reply.handle(),
                    final(ws).calls()[old(ws).calls().len() + 1int].reply.handle(),
                )
                && final(self).hook == Some(final(ws).calls()[old(ws).calls().len() + 2int].reply.handle()),
    {
        let h = bound_window(&self.handle)?;
        let ghost l0 = ws.calls();
        let parent = ws.get_window_parent(h);
        let ghost l1 = ws.calls();
        let brush = ws.create_solid_brush(rgb(c));
        let ghost l2 = ws.calls();
        let token = ws.bind_hook(parent, h, BackgroundHook { child: h, brush });
        proof {
            requests_push(l0, l1.last());
            requests_push(l1, l2.last());
            requests_push(l2, ws.calls().last());
            assert(requests(ws.calls()) =~= requests(l0) + hook_requests(h, c, parent, brush));
            assert(ws.calls().subrange(0, l0.len() as int) =~= l0);
        }
        self.hook = Some(token);
        Ok(())
    }

    /// Tears the control down: unbinds its hook, if it has one. A control
    /// without a hook asks nothing, so a second teardown releases nothing.
    pub fn destroy<W: WindowSystem>(&mut self, ws: &mut W)
        ensures
            final(self).handle == old(self).handle,
            final(self).hook is None,
            old(self).hook is None ==> final(ws).calls() == old(ws).calls(),
            old(self).hook matches Some(t) ==> one_more(old(ws).calls(), final(ws).calls(), Request::UnbindHook { token: t }),
    {
        if let Some(t) = self.hook {
            ws.unbind_hook(t);
        }
        self.hook = None;
    }

    /// Whether the user can interact with the control.
    pub fn enabled<W: WindowSystem>(&self, ws: &mut W) -> (r: Result<bool, NwgError>)
        ensures
            window_of(self.handle) matches Err(e) ==> r == Err::<bool, NwgError>(e)
                && final(ws).calls() == old(ws).calls(),
            window_of(self.handle) matches Ok(h) ==> one_more(old(ws).calls(), final(ws).calls(), Request::GetEnabled { hwnd: h })
                && r == Ok::<bool, NwgError>(final(ws).calls().last().reply.flag()),
    {
        let h = bound_window(&self.handle)?;
        Ok(ws.get_window_enabled(h))
    }

    /// Enables or disables the control.
    pub fn set_enabled<W: WindowSystem>(&self, v: bool, ws: &mut W) -> (r: Result<(), NwgError>)
        ensures
            window_of(self.handle) matches Err(e) ==> r == Err::<(), NwgError>(e)
                && final(ws).calls() == old(ws).calls(),
            window_of(self.handle) matches Ok(h) ==> r is Ok
                && one_more(old(ws).calls(), final(ws).calls(), Request::SetEnabled { hwnd: h, value: v }),
    {
        let h = bound_window(&self.handle)?;
        ws.set_window_enabled(h, v);
        Ok(())
    }

    /// Whether the control is shown; true even when it lies outside its
    /// parent's client area.
    pub fn visible<W: WindowSystem>(&self, ws: &mut W) -> (r: Result<bool, NwgError>)
        ensures
            window_of(self.handle) matches Err(e) ==> r == Err::<bool, NwgError>(e)
                && final(ws).calls() == old(ws).calls(),
            window_of(self.handle) matches Ok(h) ==> one_more(old(ws).calls(), final(ws).calls(), Request::GetVisible { hwnd: h })
                && r == Ok::<bool, NwgError>(final(ws).calls().last().reply.flag()),
    {
        let h = bound_window(&self.handle)?;
        Ok(ws.get_window_visibility(h))
    }

    /// Shows or hides the control.
    pub fn set_visible<W: WindowSystem>(&self, v: bool, ws: &mut W) -> (r: Result<(), NwgError>)
        ensures
            window_of(self.handle) matches Err(e) ==> r == Err::<(), NwgError>(e)
                && final(ws).calls() == old(ws).calls(),
            window_of(self.handle) matches Ok(h) ==> r is Ok
                && one_more(old(ws).calls(), final(ws).calls(), Request::SetVisible { hwnd: h, value: v }),
    {
        let h = bound_window(&self.handle)?;
        ws.set_window_visibility(h, v);
        Ok(())
    }

    /// The size of the control in its parent.
    pub fn size<W: WindowSystem>(&self, ws: &mut W) -> (r: Result<(u32, u32), NwgError>)
        ensures
            window_of(self.handle) matches Err(e) ==> r == Err::<(u32, u32), NwgError>(e)
                && final(ws).calls() == old(ws).calls(),
            window_of(self.handle) matches Ok(h) ==> one_more(old(ws).calls(), final(ws).calls(), Request::GetSize { hwnd: h })
                && r == Ok::<(u32, u32), NwgError>(final(ws).calls().last().reply.pair()),
    {
        let h = bound_window(&self.handle)?;
        Ok(ws.get_window_size(h))
    }

    /// Resizes the control.
    pub fn set_size<W: WindowSystem>(&self, x: u32, y: u32, ws: &mut W) -> (r: Result<(), NwgError>)
        ensures
            window_of(self.handle) matches Err(e) ==> r == Err::<(), NwgError>(e)
                && final(ws).calls() == old(ws).calls(),
            window_of(self.handle) matches Ok(h) ==> r is Ok
                && one_more(old(ws).calls(), final(ws).calls(), Request::SetSize { hwnd: h, width: x, height: y }),
    {
        let h = bound_window(&self.handle)?;
        ws.set_window_size(h, x, y);
        Ok(())
    }

    /// The position of the control in its parent.
    pub fn position<W: WindowSystem>(&self, ws: &mut W) -> (r: Result<(i32, i32), NwgError>)
        ensures
            window_of(self.handle) matches Err(e) ==> r == Err::<(i32, i32), NwgError>(e)
                && final(ws).calls() == old(ws).calls(),
            window_of(self.handle) matches Ok(h) ==> one_more(old(ws).calls(), final(ws).calls(), Request::GetPosition { hwnd: h })
                && r == Ok::<(i32, i32), NwgError>(final(ws).calls().last().reply.point()),
    {
        let h = bound_window(&self.handle)?;
        Ok(ws.get_window_position(h))
    }

    /// Moves the control.
    pub fn set_position<W: WindowSystem>(&self, x: i32, y: i32, ws: &mut W) -> (r: Result<(), NwgError>)
        ensures
            window_of(self.handle) matches Err(e) ==> r == Err::<(), NwgError>(e)
                && final(ws).calls() == old(ws).calls(),
            window_of(self.handle) matches Ok(h) ==> r is Ok
                && one_more(old(ws).calls(), final(ws).calls(), Request::SetPosition { hwnd: h, x, y }),
    {
        let h = bound_window(&self.handle)?;
        ws.set_window_position(h, x, y);
        Ok(())
    }
}

impl ImageFrameBuilder {
    /// The explicit flags, if any.
    pub open spec fn explicit_flags(&self) -> Option<u32> {
        match self.flags {
            Some(f) => Some(f.bits),
            None => None,
        }
    }

    /// The flags the window is created with: the resolved flags with the
    /// content mode of the image that was given.
    pub open spec fn creation_flags(&self) -> u32 {
        resolve_flags(self.explicit_flags(), WS_VISIBLE, image_frame_forced_flags())
            | content_mode(self.bitmap is Some, self.icon is Some)
    }

    /// What the builder asks of the window system to create the window.
    pub open spec fn creation(&self, parent: ControlHandle) -> Request {
        Request::CreateWindow {
            class_name: STATIC_CLASS,
            forced_flags: image_frame_forced_flags(),
            flags: self.creation_flags(),
            size: self.size,
            position: self.position,
            parent,
        }
    }

    /// What the builder asks to show its image once window `h` exists: the
    /// bitmap if one was given, else the icon if one was given.
    pub open spec fn content(&self, h: usize) -> Seq<Request> {
        match self.bitmap {
            Some(b) => seq![set_image_request(h, IMAGE_BITMAP, Some(b.handle))],
            None => match self.icon {
                Some(i) => seq![set_image_request(h, IMAGE_ICON, Some(i.handle))],
                None => Seq::empty(),
            },
        }
    }

    pub fn flags(self, flags: ImageFrameFlags) -> (r: ImageFrameBuilder)
        ensures
            r == (ImageFrameBuilder { flags: Some(flags), ..self }),
    {
        ImageFrameBuilder { flags: Some(flags), ..self }
    }

    pub fn size(self, size: (i32, i32)) -> (r: ImageFrameBuilder)
        ensures
            r == (ImageFrameBuilder { size, ..self }),
    {
        ImageFrameBuilder { size, ..self }
    }

    pub fn position(self, pos: (i32, i32)) -> (r: ImageFrameBuilder)
        ensures
            r == (ImageFrameBuilder { position: pos, ..self }),
    {
        ImageFrameBuilder { position: pos, ..self }
    }

    pub fn bitmap(self, bit: Option<&Bitmap>) -> (r: ImageFrameBuilder)
        ensures
            r == (ImageFrameBuilder {
                bitmap: match bit {
                    Some(b) => Some(*b),
                    None => None,
                },
                ..self
            }),
    {
        let b: Option<Bitmap> = match bit {
            Some(b) => Some(*b),
            None => None,
        };
        ImageFrameBuilder { bitmap: b, ..self }
    }

    pub fn icon(self, ico: Option<&Icon>) -> (r: ImageFrameBuilder)
        ensures
            r == (ImageFrameBuilder {
                icon: match ico {
                    Some(i) => Some(*i),
                    None => None,
                },
                ..self
            }),
    {
        let i: Option<Icon> = match ico {
            Some(i) => Some(*i),
            None => None,
        };
        ImageFrameBuilder { icon: i, ..self }
    }

    pub fn parent(self, p: ControlHandle) -> (r: ImageFrameBuilder)
        ensures
            r == (ImageFrameBuilder { parent: Some(p), ..self }),
    {
        ImageFrameBuilder { parent: Some(p), ..self }
    }

    pub fn background_color(self, color: Option<[u8; 3]>) -> (r: ImageFrameBuilder)
        ensures
            r == (ImageFrameBuilder { background_color: color, ..self }),
    {
        ImageFrameBuilder { background_color: color, ..self }
    }

    /// Creates the window and binds `out` to it, shows the image, then
    /// attaches the background colour. Without a parent nothing is asked of
    /// the window system; when creation fails `out` is left as it was.
    pub fn build<W: WindowSystem>(self, out: &mut ImageFrame, ws: &mut W) -> (r: Result<(), NwgError>)
        ensures
            self.parent is None ==> r == Err::<(), NwgError>(NwgError::MissingParent(ControlKind::ImageFrame))
                && final(ws).calls() == old(ws).calls() && *final(out) == *old(out),
            self.parent matches Some(p) ==> final(ws).calls().len() > old(ws).calls().len()
                && first_since(old(ws).calls(), final(ws).calls()).request == self.creation(p)
                && first_since(old(ws).calls(), final(ws).calls()).text == Seq::<char>::empty(),
            self.parent is Some ==> (first_since(old(ws).calls(), final(ws).calls()).reply.created() matches Err(e)
                ==> r == Err::<(), NwgError>(e) && final(ws).calls().len() == old(ws).calls().len() + 1
                && *final(out) == *old(out)),
            self.parent is Some && self.background_color is None
                ==> (first_since(old(ws).calls(), final(ws).calls()).reply.created() matches Ok(h)
                ==> r is Ok && final(out).handle == ControlHandle::Hwnd(h) && final(out).hook == old(out).hook
                && requests(final(ws).calls()) == requests(old(ws).calls()).push(self.creation(self.parent.unwrap()))
                    + self.content(h)),
            self.parent is Some && self.background_color is Some
                ==> (first_since(old(ws).calls(), final(ws).calls()).reply.created() matches Ok(h)
                ==> r is Ok && final(out).handle == ControlHandle::Hwnd(h)
                && final(ws).calls().len() == old(ws).calls().len() + 1 + self.content(h).len() + 3
                && requests(final(ws).calls()) == requests(old(ws).calls()).push(self.creation(self.parent.unwrap()))
                    + self.content(h) + hook_requests(
                    h,
                    self.background_color.unwrap(),
                    final(ws).calls()[old(ws).calls().len() + 1int + self.content(h).len()].reply.handle(),
                    final(ws).calls()[old(ws).calls().len() + 2int + self.content(h).len()].reply.handle(),
                )
                && final(out).hook == Some(
                    final(ws).calls()[old(ws).calls().len() + 3int + self.content(h).len()].reply.handle(),
                )),
    {
        let parent = match self.parent {
            Some(p) => p,
            None => {
                return Err(NwgError::no_parent(ControlKind::ImageFrame));
            },
        };
        let explicit: Option<u32> = match self.flags {
            Some(f) => Some(f.bits()),
            None => None,
        };
        let flags = effective_flags(explicit, out.flags(), out.forced_flags())
            | content_mode_flag(self.bitmap.is_some(), self.icon.is_some());
        let ghost before = ws.calls();
        let created = ws.create_window(out.class_name(), out.forced_flags(), flags, self.size, self.position, parent, "");
        proof {
            reveal_strlit("");
            requests_push(before, ws.calls().last());
        }
        let h = match created {
            Ok(h) => h,
            Err(e) => {
                return Err(e);
            },
        };
        out.handle = ControlHandle::Hwnd(h);
        let ghost base = requests(ws.calls());
        if self.bitmap.is_some() {
            let ghost l0 = ws.calls();
            let b = self.bitmap.unwrap();
            let _ = out.set_bitmap(Some(&b), ws);
            proof {
                requests_push(l0, ws.calls().last());
            }
        } else if self.icon.is_some() {
            let ghost l0 = ws.calls();
            let i = self.icon.unwrap();
            let _ = out.set_icon(Some(&i), ws);
            proof {
                requests_push(l0, ws.calls().last());
            }
        }
        proof {
            assert(requests(ws.calls()) =~= base + self.content(h));
        }
        if self.background_color.is_some() {
            let ghost l0 = ws.calls();
            let _ = out.hook_background_color(self.background_color.unwrap(), ws);
            proof {
                assert(ws.calls()[before.len() as int] == ws.calls().subrange(0, l0.len() as int)[before.len() as int]);
            }
        }
        Ok(())
    }
}

/// A bitmap given beside an icon wins: the window is created in bitmap mode
/// and the bitmap is the image shown.
pub proof fn bitmap_takes_precedence(b: ImageFrameBuilder, h: usize)
    requires
        b.bitmap is Some,
        b.icon is Some,
    ensures
        b.creation_flags() == resolve_flags(b.explicit_flags(), WS_VISIBLE, image_frame_forced_flags()) | SS_BITMAP,
        b.content(h) == seq![set_image_request(h, IMAGE_BITMAP, Some(b.bitmap.unwrap().handle))],
{
}

/// Whatever flags and image an image frame is given, it is created with all
/// of its forced flags.
pub proof fn creation_keeps_forced_flags(b: ImageFrameBuilder)
    ensures
        b.creation_flags() & image_frame_forced_flags() == image_frame_forced_flags(),
{
    let base = match b.explicit_flags() {
        Some(f) => f,
        None => WS_VISIBLE,
    };
    let forced = image_frame_forced_flags();
    let mode = content_mode(b.bitmap is Some, b.icon is Some);
    assert(((base | forced) | mode) & forced == forced) by (bit_vector);
}

/// What reading the image asks, given the answer to the bitmap query.
pub open spec fn image_requests(h: usize, bitmap_answer: isize) -> Seq<Request> {
    seq![
        Request::SendMessage { hwnd: h, msg: STM_GETIMAGE, wparam: IMAGE_BITMAP, lparam: 0 },
        Request::SendMessage { hwnd: h, msg: STM_GETIMAGE, wparam: IMAGE_ICON, lparam: 0 },
    ] + if bitmap_answer != 0 {
        seq![Request::IsBitmap { image: bitmap_answer as usize }]
    } else {
        Seq::empty()
    }
}

/// The bitmap that reading the image returns, from the exchanges that start
/// at index `at` of `calls`.
pub open spec fn shown_bitmap(calls: Seq<NativeCall>, at: int) -> Option<Bitmap> {
    let b = calls[at].reply.number();
    if b != 0 && calls[at + 2].reply.flag() {
        Some(Bitmap { handle: b as usize, owned: false })
    } else {
        None
    }
}

/// The icon that reading the image returns, from the exchanges that start at
/// index `at` of `calls`.
pub open spec fn shown_icon(calls: Seq<NativeCall>, at: int) -> Option<Icon> {
    let i = calls[at + 1].reply.number();
    if shown_bitmap(calls, at) is None && i != 0 {
        Some(Icon { handle: i as usize, owned: false })
    } else {
        None
    }
}

} // verus!
