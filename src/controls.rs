use vstd::prelude::*;

verus! {

/// Window style: the window is visible.
pub const WS_VISIBLE: u32 = 0x1000_0000;

/// Window style: the window is disabled.
pub const WS_DISABLED: u32 = 0x0800_0000;

/// Window style: the window is a child window.
pub const WS_CHILD: u32 = 0x4000_0000;

/// Window style: the window has a thin border.
pub const WS_BORDER: u32 = 0x0080_0000;

/// Static control style: the control displays an icon.
pub const SS_ICON: u32 = 0x0000_0003;

/// Static control style: the control displays a bitmap.
pub const SS_BITMAP: u32 = 0x0000_000E;

/// Static control style: the control reports clicks to its parent.
pub const SS_NOTIFY: u32 = 0x0000_0100;

/// Static control style: the image is centred in the control.
pub const SS_CENTERIMAGE: u32 = 0x0000_0200;

/// Edit control style: the control holds several lines.
pub const ES_MULTILINE: u32 = 0x0004;

/// Edit control style: scroll vertically while typing.
pub const ES_AUTOVSCROLL: u32 = 0x0040;

/// Edit control style: scroll horizontally while typing.
pub const ES_AUTOHSCROLL: u32 = 0x0080;

/// Edit control style: the text cannot be edited.
pub const ES_READONLY: u32 = 0x0800;

/// Message sent to a parent before it paints the background of a static child.
pub const WM_CTLCOLORSTATIC: u32 = 0x0138;

/// Message: set the image of a static control.
pub const STM_SETIMAGE: u32 = 0x0172;

/// Message: get the image of a static control.
pub const STM_GETIMAGE: u32 = 0x0173;

/// Image kind passed with the image messages: a bitmap.
pub const IMAGE_BITMAP: usize = 0;

/// Image kind passed with the image messages: an icon.
pub const IMAGE_ICON: usize = 1;

/// Message: get the selection of an edit control.
pub const EM_GETSEL: u32 = 0x00B0;

/// Message: set the selection of an edit control.
pub const EM_SETSEL: u32 = 0x00B1;

/// Message: get the modified flag of an edit control.
pub const EM_GETMODIFY: u32 = 0x00B8;

/// Message: set the modified flag of an edit control.
pub const EM_SETMODIFY: u32 = 0x00B9;

/// Message: get the length of a line of an edit control.
pub const EM_LINELENGTH: u32 = 0x00C1;

/// Message: set the character limit of an edit control.
pub const EM_SETLIMITTEXT: u32 = 0x00C5;

/// Message: undo the last edit.
pub const EM_UNDO: u32 = 0x00C7;

/// Message: set or clear the read-only style of an edit control.
pub const EM_SETREADONLY: u32 = 0x00CF;

/// Message: get the character limit of an edit control.
pub const EM_GETLIMITTEXT: u32 = 0x00D5;

/// Identity of a native object: a window, or one of the non-window kinds.
#[derive(Clone, Copy, Debug, PartialEq, Eq, Structural)]
pub enum ControlHandle {
    NoHandle,
    Hwnd(usize),
    Menu(usize, usize),
    Timer(usize, u32),
}

impl ControlHandle {
    pub open spec fn is_blank(self) -> bool {
        self is NoHandle
    }

    /// True while the handle refers to no native object.
    pub fn blank(&self) -> (r: bool)
        ensures
            r == self.is_blank(),
    {
        match self {
            ControlHandle::NoHandle => true,
            _ => false,
        }
    }

    /// The window handle, if this handle is one.
    pub fn hwnd(&self) -> (r: Option<usize>)
        ensures
            r == (match *self {
                ControlHandle::Hwnd(h) => Some(h),
                _ => None::<usize>,
            }),
    {
        match self {
            ControlHandle::Hwnd(h) => Some(*h),
            _ => None,
        }
    }
}

impl Default for ControlHandle {
    fn default() -> (r: ControlHandle)
        ensures
            r is NoHandle,
    {
        ControlHandle::NoHandle
    }
}

/// The kinds of control, as named in errors.
#[derive(Clone, Copy, Debug, PartialEq, Eq, Structural)]
pub enum ControlKind {
    ImageFrame,
    RichTextBox,
    MessageWindow,
}

impl ControlKind {
    pub open spec fn spec_name(self) -> Seq<char> {
        match self {
            ControlKind::ImageFrame => "ImageFrame"@,
            ControlKind::RichTextBox => "RichTextBox"@,
            ControlKind::MessageWindow => "MessageWindow"@,
        }
    }

    /// The name of the control kind.
    pub fn name(&self) -> (r: &'static str)
        ensures
            r@ == self.spec_name(),
    {
        match self {
            ControlKind::ImageFrame => "ImageFrame",
            ControlKind::RichTextBox => "RichTextBox",
            ControlKind::MessageWindow => "MessageWindow",
        }
    }
}

/// Errors of the controls.
#[derive(Clone, Copy, Debug, PartialEq, Eq, Structural)]
pub enum NwgError {
    /// A builder was asked to build a control without a parent.
    MissingParent(ControlKind),
    /// A property of a control was used before the control was built.
    UnboundControl,
    /// The control's handle is bound to something other than a window.
    InvalidHandleKind,
    /// The window system could not create the window; its error code.
    CreationFailed(u32),
}

impl NwgError {
    /// The error for a builder that has no parent.
    pub fn no_parent(kind: ControlKind) -> (r: NwgError)
        ensures
            r == NwgError::MissingParent(kind),
    {
        NwgError::MissingParent(kind)
    }
}

/// What a property operation finds in a control's handle: the window it may
/// act on, or why it may not act.
pub open spec fn window_of(h: ControlHandle) -> Result<usize, NwgError> {
    match h {
        ControlHandle::NoHandle => Err(NwgError::UnboundControl),
        ControlHandle::Hwnd(w) => Ok(w),
        _ => Err(NwgError::InvalidHandleKind),
    }
}

/// The guard that every property operation passes before it touches the
/// window system.
pub fn bound_window(h: &ControlHandle) -> (r: Result<usize, NwgError>)
    ensures
        r == window_of(*h),
{
    if h.blank() {
        return Err(NwgError::UnboundControl);
    }
    match h.hwnd() {
        Some(w) => Ok(w),
        None => Err(NwgError::InvalidHandleKind),
    }
}

/// A bitmap resource. An owned one is released by its owner; a borrowed one
/// never is.
#[derive(Clone, Copy, Debug, PartialEq, Eq, Structural)]
pub struct Bitmap {
    pub handle: usize,
    pub owned: bool,
}

/// An icon resource, owned or borrowed as a `Bitmap` is.
#[derive(Clone, Copy, Debug, PartialEq, Eq, Structural)]
pub struct Icon {
    pub handle: usize,
    pub owned: bool,
}

/// A font resource.
#[derive(Clone, Copy, Debug, PartialEq, Eq, Structural)]
pub struct Font {
    pub handle: usize,
}

/// The creation flags of a control: the explicit ones if given, else the
/// defaults of its kind, with the flags its kind cannot do without.
pub open spec fn resolve_flags(explicit: Option<u32>, defaults: u32, forced: u32) -> u32 {
    (match explicit {
        Some(f) => f,
        None => defaults,
    }) | forced
}

/// Computes `resolve_flags`.
pub fn effective_flags(explicit: Option<u32>, defaults: u32, forced: u32) -> (r: u32)
    ensures
        r == resolve_flags(explicit, defaults, forced),
{
    let base: u32 = match explicit {
        Some(f) => f,
        None => defaults,
    };
    base | forced
}

/// Forced flags survive whatever explicit flags are supplied.
pub proof fn forced_flags_always_present(explicit: Option<u32>, defaults: u32, forced: u32)
    ensures
        resolve_flags(explicit, defaults, forced) & forced == forced,
{
    let base: u32 = match explicit {
        Some(f) => f,
        None => defaults,
    };
    assert((base | forced) & forced == forced) by (bit_vector);
}

/// An RGB colour packed as the window system expects it: red in the low byte.
pub open spec fn rgb_value(c: [u8; 3]) -> u32 {
    (c[0] as int + c[1] as int * 256 + c[2] as int * 65536) as u32
}

/// Packs a colour with `rgb_value`.
pub fn rgb(c: [u8; 3]) -> (r: u32)
    ensures
        r == rgb_value(c),
{
    c[0] as u32 + c[1] as u32 * 256 + c[2] as u32 * 65536
}

} // verus!
