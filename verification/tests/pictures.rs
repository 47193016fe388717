use chidescaler_neo::images::{
    flatten_pixels, gui_screenshot_png, icon_of_frame, load_icon, screenshot_file_name, screenshot_frames, PngColor,
    PngFrame, ScreenshotError,
};
use chidescaler_neo::overlay::{
    current_rect, loader, wndproc, OverlayStep, OverlayWindow, HTTRANSPARENT, PARKED_AT, WM_ERASEBKGND, WM_NCHITTEST,
};

#[test]
fn a_screenshot_is_read_back() {
    let pixels = [[1, 2, 3, 4], [5, 6, 7, 8], [9, 10, 11, 12], [13, 14, 15, 255], [0, 0, 0, 0], [255, 1, 2, 3]];
    let bytes = gui_screenshot_png(3, 2, &pixels).unwrap();
    assert_eq!(&bytes[..8], b"\x89PNG\r\n\x1a\n");
    let icon = load_icon(&bytes).unwrap();
    assert_eq!((icon.width, icon.height), (3, 2));
    assert_eq!(icon.rgba, flatten_pixels(&pixels));
    let file = png::Decoder::new(std::io::Cursor::new(bytes.as_slice())).read_info().unwrap();
    assert_eq!(file.info().width, 3);
    assert_eq!(file.info().color_type, png::ColorType::Rgba);
}

#[test]
fn pixels_have_to_fill_the_picture() {
    assert_eq!(gui_screenshot_png(2, 2, &[[0; 4]; 3]), Err(ScreenshotError::PixelCount));
    assert_eq!(gui_screenshot_png(0, 2, &[]), Err(ScreenshotError::Encoding));
}

#[test]
fn what_is_no_picture_makes_no_icon() {
    assert!(load_icon(b"not a picture").is_none());
    let mut gray: Vec<u8> = Vec::new();
    let mut encoder = png::Encoder::new(&mut gray, 1, 1);
    encoder.set_color(png::ColorType::Grayscale);
    encoder.set_depth(png::BitDepth::Eight);
    let mut writer = encoder.write_header().unwrap();
    writer.write_image_data(&[7]).unwrap();
    writer.finish().unwrap();
    assert!(load_icon(&gray).is_none());
}

#[test]
fn an_icon_is_as_long_as_its_frame() {
    let frame = PngFrame { width: 1, height: 1, color: PngColor::Rgba, used: 4, data: vec![1, 2, 3, 4, 9, 9] };
    assert_eq!(icon_of_frame(frame).unwrap().rgba, vec![1, 2, 3, 4]);
    let frame = PngFrame { width: 1, height: 1, color: PngColor::Rgb, used: 3, data: vec![1, 2, 3] };
    assert!(icon_of_frame(frame).is_none());
}

#[test]
fn names_and_pauses_of_screenshots() {
    assert_eq!(screenshot_file_name(1700000000123), "cHiDeScaler-Neo_1700000000123.png");
    assert_eq!(screenshot_frames(None), 5);
    assert_eq!(screenshot_frames(Some(0)), 1);
    assert_eq!(screenshot_frames(Some(999)), 300);
}

#[test]
fn the_overlay_is_shown_and_put_away_in_order() {
    let (mut overlay, steps) = OverlayWindow::new(9, 800, 600);
    assert_eq!(steps, vec![OverlayStep::SetAlpha(0), OverlayStep::SetSwapInterval(0)]);
    assert_eq!((overlay.hwnd(), overlay.size(), overlay.is_visible()), (9, (800, 600), false));
    let steps = overlay.prepare_hidden_for_reveal(false);
    assert_eq!(steps, vec![OverlayStep::SetAlpha(0), OverlayStep::ShowWithoutActivation, OverlayStep::Flush]);
    assert!(overlay.prepare_hidden_for_reveal(false).is_empty());
    let steps = overlay.show(true);
    assert_eq!(
        steps,
        vec![OverlayStep::SetAlpha(0), OverlayStep::Flush, OverlayStep::SetAlpha(255), OverlayStep::Flush]
    );
    assert!(overlay.is_visible());
    assert_eq!(overlay.hide_in_session(), vec![OverlayStep::SetAlpha(0), OverlayStep::Flush]);
    assert!(!overlay.is_visible());
    let steps = overlay.hide_for_stop();
    assert_eq!(
        steps,
        vec![
            OverlayStep::SetAlpha(0),
            OverlayStep::Flush,
            OverlayStep::HideNative,
            OverlayStep::Place { x: PARKED_AT, y: PARKED_AT, w: 1, h: 1, topmost: false },
            OverlayStep::Flush,
        ]
    );
    assert_eq!(overlay.size(), (1, 1));
    assert_eq!(overlay.reposition(1, 2, 3, 4), OverlayStep::Place { x: 1, y: 2, w: 3, h: 4, topmost: false });
    assert_eq!(
        overlay.reposition_v235_topmost(1, 2, 3, 4),
        OverlayStep::Place { x: 1, y: 2, w: 3, h: 4, topmost: true }
    );
    assert_eq!(overlay.front_pixel_bytes(), 48);
    assert_eq!(overlay.blank_hidden_buffers().iter().filter(|s| **s == OverlayStep::SwapBuffers).count(), 2);
    assert_eq!(overlay.flush_compositor(), OverlayStep::Flush);
}

#[test]
fn a_picture_is_centred_on_the_overlay() {
    let (overlay, _) = OverlayWindow::new(9, 800, 600);
    let plan = overlay.present(800, 450, 800, 450);
    assert_eq!((plan.x, plan.y, plan.w, plan.h), (0, 75, 800, 450));
    assert!(plan.clear && plan.nearest);
    let plan = overlay.present(800, 600, 400, 300);
    assert!(!plan.clear && !plan.nearest);
    assert_eq!(current_rect(10, 20, 110, 220), (10, 20, 100, 200));
}

#[test]
fn the_overlay_lets_the_pointer_through() {
    assert_eq!(wndproc(WM_NCHITTEST), Some(HTTRANSPARENT));
    assert_eq!(wndproc(WM_ERASEBKGND), Some(1));
    assert_eq!(wndproc(0), None);
    assert_eq!(loader(Some(3), Some(77)), Some(77));
    assert_eq!(loader(Some(4), Some(77)), Some(4));
    assert_eq!(loader(Some(usize::MAX), None), None);
}
