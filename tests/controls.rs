use native_windows_gui::controls::{
    effective_flags, rgb, ControlKind, ES_AUTOHSCROLL, ES_AUTOVSCROLL, ES_MULTILINE, ES_READONLY,
    SS_BITMAP, SS_CENTERIMAGE, SS_ICON, SS_NOTIFY, WS_BORDER, WS_CHILD, WS_DISABLED, WS_VISIBLE,
};
use native_windows_gui::image_frame::content_mode_flag;
use native_windows_gui::{
    BackgroundHook, ControlHandle, HookEntry, HookRegistry, ImageFrame, ImageFrameFlags,
    MessageWindow, NwgError, RichTextBox, RichTextBoxFlags, VirtualDesktop,
};

fn top_window(ws: &mut VirtualDesktop) -> ControlHandle {
    let mut window = MessageWindow::default();
    MessageWindow::builder().build(&mut window, ws).unwrap();
    window.handle
}

#[test]
fn message_window_binds_a_handle() {
    let mut ws = VirtualDesktop::new();
    let mut window = MessageWindow::default();
    assert!(window.handle.blank());
    assert_eq!(MessageWindow::builder().build(&mut window, &mut ws), Ok(()));
    assert_eq!(window.handle, ControlHandle::Hwnd(1));
    assert_eq!(ws.native_calls(), 1);
}

#[test]
fn image_frame_without_parent_is_missing_parent() {
    let mut ws = VirtualDesktop::new();
    let mut frame = ImageFrame::default();
    let r = ImageFrame::builder().build(&mut frame, &mut ws);
    assert_eq!(r, Err(NwgError::MissingParent(ControlKind::ImageFrame)));
    assert!(frame.handle.blank());
    assert_eq!(ws.native_calls(), 0);
}

#[test]
fn rich_text_without_parent_is_missing_parent() {
    let mut ws = VirtualDesktop::new();
    let mut text = RichTextBox::default();
    let r = RichTextBox::builder().text("abc").build(&mut text, &mut ws);
    assert_eq!(r, Err(NwgError::MissingParent(ControlKind::RichTextBox)));
    assert!(text.handle.blank());
    assert_eq!(ws.native_calls(), 0);
}

#[test]
fn missing_parent_names_the_control_kind() {
    assert_eq!(ControlKind::ImageFrame.name(), "ImageFrame");
    assert_eq!(ControlKind::RichTextBox.name(), "RichTextBox");
    assert_eq!(NwgError::no_parent(ControlKind::RichTextBox), NwgError::MissingParent(ControlKind::RichTextBox));
}

#[test]
fn controls_with_parent_are_bound() {
    let mut ws = VirtualDesktop::new();
    let parent = top_window(&mut ws);
    let mut frame = ImageFrame::default();
    assert_eq!(ImageFrame::builder().parent(parent).build(&mut frame, &mut ws), Ok(()));
    assert_eq!(frame.handle, ControlHandle::Hwnd(2));
    assert_eq!(frame.hook, None);
    let mut text = RichTextBox::default();
    assert_eq!(RichTextBox::builder().parent(parent).build(&mut text, &mut ws), Ok(()));
    assert_eq!(text.handle, ControlHandle::Hwnd(3));
    let record = ws.window(3).unwrap();
    assert_eq!(record.parent, 1);
    assert_eq!((record.width, record.height), (100, 25));
}

#[test]
fn creation_failure_leaves_control_unbound() {
    let mut ws = VirtualDesktop::new();
    let mut text = RichTextBox::default();
    let r = RichTextBox::builder().parent(ControlHandle::Hwnd(42)).limit(5).build(&mut text, &mut ws);
    assert_eq!(r, Err(NwgError::CreationFailed(1400)));
    assert!(text.handle.blank());
    assert_eq!(ws.native_calls(), 1);
}

#[test]
fn forced_flags_survive_explicit_flags() {
    let forced = WS_BORDER | WS_CHILD | ES_MULTILINE;
    assert_eq!(effective_flags(Some(0), WS_VISIBLE, forced), forced);
    assert_eq!(effective_flags(Some(WS_DISABLED), WS_VISIBLE, forced), WS_DISABLED | forced);
    assert_eq!(effective_flags(None, WS_VISIBLE, forced), WS_VISIBLE | forced);
    for explicit in [0u32, 1, 0xFFFF_FFFF, WS_VISIBLE, ES_AUTOHSCROLL] {
        assert_eq!(effective_flags(Some(explicit), 0, forced) & forced, forced);
    }
}

#[test]
fn rich_text_style_holds_forced_flags() {
    let mut ws = VirtualDesktop::new();
    let parent = top_window(&mut ws);
    let mut text = RichTextBox::default();
    RichTextBox::builder()
        .flags(RichTextBoxFlags::empty())
        .parent(parent)
        .build(&mut text, &mut ws)
        .unwrap();
    let style = ws.window(2).unwrap().style;
    assert_eq!(style, WS_BORDER | WS_CHILD | ES_MULTILINE);
    assert_eq!(text.flags(), WS_VISIBLE | ES_AUTOVSCROLL | ES_AUTOHSCROLL);
    assert_eq!(text.forced_flags(), WS_BORDER | WS_CHILD | ES_MULTILINE);
    assert_eq!(text.class_name(), "RICHEDIT50W");
}

#[test]
fn image_frame_flags_and_class() {
    let frame = ImageFrame::default();
    assert_eq!(frame.class_name(), "STATIC");
    assert_eq!(frame.flags(), WS_VISIBLE);
    assert_eq!(frame.forced_flags(), WS_CHILD | SS_NOTIFY | SS_CENTERIMAGE);
    assert_eq!(ImageFrameFlags::visible().union(ImageFrameFlags::disabled()).bits(), WS_VISIBLE | WS_DISABLED);
}

#[test]
fn bitmap_wins_over_icon() {
    assert_eq!(content_mode_flag(true, true), SS_BITMAP);
    assert_eq!(content_mode_flag(false, true), SS_ICON);
    assert_eq!(content_mode_flag(false, false), SS_BITMAP);
    let mut ws = VirtualDesktop::new();
    let parent = top_window(&mut ws);
    let bitmap = ws.load_bitmap();
    let icon = ws.load_icon();
    let mut frame = ImageFrame::default();
    ImageFrame::builder()
        .flags(ImageFrameFlags::empty())
        .bitmap(Some(&bitmap))
        .icon(Some(&icon))
        .parent(parent)
        .build(&mut frame, &mut ws)
        .unwrap();
    let record = ws.window(2).unwrap();
    assert_eq!(record.style, WS_CHILD | SS_NOTIFY | SS_CENTERIMAGE | SS_BITMAP);
    assert_eq!(record.bitmap, bitmap.handle);
    assert_eq!(record.icon, 0);
}

#[test]
fn image_reads_back_bitmap_or_icon() {
    let mut ws = VirtualDesktop::new();
    let parent = top_window(&mut ws);
    let bitmap = ws.load_bitmap();
    let icon = ws.load_icon();
    let mut frame = ImageFrame::default();
    ImageFrame::builder().icon(Some(&icon)).parent(parent).build(&mut frame, &mut ws).unwrap();
    let (mut b, mut i) = (None, None);
    frame.image(&mut b, &mut i, &mut ws).unwrap();
    assert_eq!(b, None);
    assert_eq!(i.map(|x| (x.handle, x.owned)), Some((icon.handle, false)));
    frame.set_bitmap(Some(&bitmap), &mut ws).unwrap();
    frame.image(&mut b, &mut i, &mut ws).unwrap();
    assert_eq!(b.map(|x| (x.handle, x.owned)), Some((bitmap.handle, false)));
    assert_eq!(i, None);
    frame.set_bitmap(None, &mut ws).unwrap();
    frame.image(&mut b, &mut i, &mut ws).unwrap();
    assert_eq!((b, i), (None, None));
}

#[test]
fn selection_round_trip() {
    let mut ws = VirtualDesktop::new();
    let parent = top_window(&mut ws);
    let mut text = RichTextBox::default();
    RichTextBox::builder().text("hello world").parent(parent).build(&mut text, &mut ws).unwrap();
    assert_eq!(text.selection(&mut ws).unwrap(), 0..0);
    for r in [1u32..3, 0..11, 4..4, 0..0] {
        text.set_selection(r.clone(), &mut ws).unwrap();
        assert_eq!(text.selection(&mut ws).unwrap(), r);
    }
}

#[test]
fn accessors_before_build_are_unbound() {
    let mut ws = VirtualDesktop::new();
    let text = RichTextBox::default();
    assert_eq!(text.limit(&mut ws), Err(NwgError::UnboundControl));
    assert_eq!(text.set_limit(3, &mut ws), Err(NwgError::UnboundControl));
    assert_eq!(text.text(&mut ws), Err(NwgError::UnboundControl));
    assert_eq!(text.set_text("x", &mut ws), Err(NwgError::UnboundControl));
    assert_eq!(text.selection(&mut ws), Err(NwgError::UnboundControl));
    assert_eq!(text.readonly(&mut ws), Err(NwgError::UnboundControl));
    assert_eq!(text.font(&mut ws), Err(NwgError::UnboundControl));
    assert_eq!(text.clear(&mut ws), Err(NwgError::UnboundControl));
    assert_eq!(text.size(&mut ws), Err(NwgError::UnboundControl));
    let frame = ImageFrame::default();
    assert_eq!(frame.visible(&mut ws), Err(NwgError::UnboundControl));
    assert_eq!(frame.set_position(1, 2, &mut ws), Err(NwgError::UnboundControl));
    let (mut b, mut i) = (None, None);
    assert_eq!(frame.image(&mut b, &mut i, &mut ws), Err(NwgError::UnboundControl));
    assert_eq!(ws.native_calls(), 0);
}

#[test]
fn non_window_handle_is_invalid_kind() {
    let mut ws = VirtualDesktop::new();
    let text = RichTextBox { handle: ControlHandle::Timer(1, 7) };
    assert_eq!(text.undo(&mut ws), Err(NwgError::InvalidHandleKind));
    assert_eq!(ws.native_calls(), 0);
}

#[test]
fn hooks_answer_only_their_own_child() {
    let mut ws = VirtualDesktop::new();
    let parent = top_window(&mut ws);
    let other = top_window(&mut ws);
    let mut a = ImageFrame::default();
    let mut b = ImageFrame::default();
    ImageFrame::builder().parent(parent).background_color(Some([255, 0, 0])).build(&mut a, &mut ws).unwrap();
    ImageFrame::builder().parent(parent).background_color(Some([0, 0, 255])).build(&mut b, &mut ws).unwrap();
    assert_eq!(ws.hook_count(), 2);
    let (ha, hb) = (a.handle.hwnd().unwrap(), b.handle.hwnd().unwrap());
    let brush_a = ws.paint_background(1, ha).unwrap();
    let brush_b = ws.paint_background(1, hb).unwrap();
    assert_ne!(brush_a, brush_b);
    assert_eq!(ws.paint_background(other.hwnd().unwrap(), ha), None);
    assert_eq!(ws.paint_background(1, 99), None);
    assert_eq!(rgb([255, 0, 0]), 0x0000FF);
    assert_eq!(rgb([1, 2, 3]), 0x030201);
}

#[test]
fn registry_dispatch_by_parent_and_child() {
    let mut reg = HookRegistry::new();
    reg.bind(HookEntry { token: 1, parent: 10, key: 20, hook: BackgroundHook { child: 20, brush: 100 } });
    reg.bind(HookEntry { token: 2, parent: 10, key: 21, hook: BackgroundHook { child: 21, brush: 200 } });
    assert_eq!(reg.dispatch(10, 0x0138, 20), Some(100));
    assert_eq!(reg.dispatch(10, 0x0138, 21), Some(200));
    assert_eq!(reg.dispatch(11, 0x0138, 20), None);
    assert_eq!(reg.dispatch(10, 0x000F, 20), None);
    reg.unbind(1);
    assert_eq!(reg.len(), 1);
    assert_eq!(reg.dispatch(10, 0x0138, 20), None);
    assert_eq!(reg.dispatch(10, 0x0138, 21), Some(200));
}

#[test]
fn teardown_releases_hook_once() {
    let mut ws = VirtualDesktop::new();
    let parent = top_window(&mut ws);
    let mut plain = ImageFrame::default();
    ImageFrame::builder().parent(parent).build(&mut plain, &mut ws).unwrap();
    let before = ws.native_calls();
    plain.destroy(&mut ws);
    assert_eq!(ws.native_calls(), before);
    let mut hooked = ImageFrame::default();
    ImageFrame::builder().parent(parent).background_color(Some([1, 2, 3])).build(&mut hooked, &mut ws).unwrap();
    assert_eq!(ws.hook_count(), 1);
    let before = ws.native_calls();
    hooked.destroy(&mut ws);
    assert_eq!(ws.hook_count(), 0);
    assert_eq!(ws.native_calls(), before + 1);
    hooked.destroy(&mut ws);
    assert_eq!(ws.native_calls(), before + 1);
    assert_eq!(hooked.hook, None);
}

#[test]
fn limit_and_text_scenario() {
    let mut ws = VirtualDesktop::new();
    let parent = top_window(&mut ws);
    let mut text = RichTextBox::default();
    RichTextBox::builder().limit(10).text("").parent(parent).build(&mut text, &mut ws).unwrap();
    assert_eq!(text.limit(&mut ws), Ok(10));
    text.set_text("hello\r\nworld", &mut ws).unwrap();
    assert_eq!(text.text(&mut ws).unwrap(), "hello\r\nworld");
    assert_eq!(text.len(&mut ws), Ok(12));
    text.clear(&mut ws).unwrap();
    assert_eq!(text.text(&mut ws).unwrap(), "");
}

#[test]
fn readonly_font_and_modified() {
    let mut ws = VirtualDesktop::new();
    let parent = top_window(&mut ws);
    let font = ws.load_font();
    let mut text = RichTextBox::default();
    RichTextBox::builder().readonly(true).font(Some(&font)).parent(parent).build(&mut text, &mut ws).unwrap();
    assert_eq!(text.readonly(&mut ws), Ok(true));
    assert_eq!(ws.window(2).unwrap().style & ES_READONLY, ES_READONLY);
    assert_eq!(text.font(&mut ws), Ok(Some(font)));
    text.set_readonly(false, &mut ws).unwrap();
    assert_eq!(text.readonly(&mut ws), Ok(false));
    text.set_font(None, &mut ws).unwrap();
    assert_eq!(text.font(&mut ws), Ok(None));
    assert_eq!(text.modified(&mut ws), Ok(false));
    text.set_modified(true, &mut ws).unwrap();
    assert_eq!(text.modified(&mut ws), Ok(true));
    text.undo(&mut ws).unwrap();
}

#[test]
fn window_properties() {
    let mut ws = VirtualDesktop::new();
    let parent = top_window(&mut ws);
    let mut text = RichTextBox::default();
    RichTextBox::builder().size((40, 20)).position((3, -4)).parent(parent).build(&mut text, &mut ws).unwrap();
    assert_eq!(text.size(&mut ws), Ok((40, 20)));
    assert_eq!(text.position(&mut ws), Ok((3, -4)));
    text.set_size(7, 8, &mut ws).unwrap();
    text.set_position(-1, 2, &mut ws).unwrap();
    assert_eq!(text.size(&mut ws), Ok((7, 8)));
    assert_eq!(text.position(&mut ws), Ok((-1, 2)));
    assert_eq!(text.visible(&mut ws), Ok(true));
    text.set_visible(false, &mut ws).unwrap();
    assert_eq!(text.visible(&mut ws), Ok(false));
    assert_eq!(text.enabled(&mut ws), Ok(true));
    text.set_enabled(false, &mut ws).unwrap();
    assert_eq!(text.enabled(&mut ws), Ok(false));
    assert_eq!(text.focus(&mut ws), Ok(false));
    text.set_focus(&mut ws).unwrap();
    assert_eq!(text.focus(&mut ws), Ok(true));
    let mut frame = ImageFrame::default();
    ImageFrame::builder().flags(ImageFrameFlags::disabled()).parent(parent).build(&mut frame, &mut ws).unwrap();
    assert_eq!(frame.enabled(&mut ws), Ok(false));
    assert_eq!(frame.visible(&mut ws), Ok(false));
    assert_eq!(frame.size(&mut ws), Ok((100, 100)));
    frame.set_enabled(true, &mut ws).unwrap();
    frame.set_visible(true, &mut ws).unwrap();
    frame.set_size(5, 6, &mut ws).unwrap();
    assert_eq!(frame.enabled(&mut ws), Ok(true));
    assert_eq!(frame.position(&mut ws), Ok((0, 0)));
}
