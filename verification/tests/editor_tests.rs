use lockbook_workspace::canvas::{CanvasSettings, Tool};
use lockbook_workspace::editor::{
    document_text, handles_clipboard_input, place_weak_image, EventPlan, FrameDiff, ImagePlacement, SVGEditor, ToolPanels,
};

const CLEAN: FrameDiff = FrameDiff { is_dirty: false, is_transformed: false };
const DIRTY: FrameDiff = FrameDiff { is_dirty: true, is_transformed: false };
const MOVED: FrameDiff = FrameDiff { is_dirty: true, is_transformed: true };

fn panels() -> ToolPanels {
    ToolPanels { show_tool_controls: true, show_viewport_popover: true }
}

#[test]
fn new_editor_uses_given_or_default_settings() {
    let e = SVGEditor::new(7, Some([1u8; 32]), None);
    assert_eq!(e.open_file, 7);
    assert_eq!(e.open_file_hmac, Some([1u8; 32]));
    assert!(!e.settings.pencil_only_drawing);
    assert!(!e.skip_frame && !e.allow_viewport_changes && !e.has_queued_save_request);
    let e = SVGEditor::new(7, None, Some(CanvasSettings { pencil_only_drawing: true }));
    assert!(e.settings.pencil_only_drawing);
}

#[test]
fn clean_frame_without_changes_asks_nothing() {
    let mut e = SVGEditor::new(1, None, None);
    let mut p = panels();
    assert!(!e.show(&mut p, false, CLEAN).request_save);
    assert!(p.show_tool_controls && p.show_viewport_popover);
}

#[test]
fn dirty_frame_defers_save_to_next_clean_frame() {
    let mut e = SVGEditor::new(1, None, None);
    let mut p = panels();
    assert!(!e.show(&mut p, false, DIRTY).request_save);
    assert!(e.has_queued_save_request);
    assert!(!e.show(&mut p, false, DIRTY).request_save);
    assert!(e.show(&mut p, false, CLEAN).request_save);
    assert!(!e.has_queued_save_request);
    assert!(!e.show(&mut p, false, CLEAN).request_save);
}

#[test]
fn arriving_images_ask_for_a_save_at_once_on_a_clean_frame() {
    let mut e = SVGEditor::new(1, None, None);
    let mut p = panels();
    assert!(e.show(&mut p, true, CLEAN).request_save);
    assert!(!e.show(&mut p, false, CLEAN).request_save);
}

#[test]
fn change_closes_popovers_but_moving_does_not() {
    let mut e = SVGEditor::new(1, None, None);
    let mut p = panels();
    e.show(&mut p, false, MOVED);
    assert!(p.show_tool_controls && p.show_viewport_popover);
    e.show(&mut p, false, DIRTY);
    assert!(!p.show_tool_controls && !p.show_viewport_popover);
}

#[test]
fn disabled_canvas_ignores_input() {
    let mut e = SVGEditor::new(1, None, None);
    e.skip_frame = true;
    assert_eq!(e.process_events(false, Tool::Pen), EventPlan::Ignore);
    assert!(e.skip_frame);
}

#[test]
fn skipped_frame_finishes_path_once() {
    let mut e = SVGEditor::new(1, None, None);
    e.skip_frame = true;
    assert_eq!(e.process_events(true, Tool::Eraser), EventPlan::FinishPath);
    assert!(!e.skip_frame);
    assert_eq!(e.process_events(true, Tool::Eraser), EventPlan::Dispatch(Tool::Eraser));
}

#[test]
fn input_goes_to_active_tool() {
    let mut e = SVGEditor::new(1, None, None);
    for tool in [Tool::Pen, Tool::Highlighter, Tool::Eraser, Tool::Selection] {
        assert_eq!(e.process_events(true, tool), EventPlan::Dispatch(tool));
    }
}

#[test]
fn weak_image_keeps_its_place_when_in_range() {
    assert_eq!(place_weak_image(0, 3), ImagePlacement::InsertAt(0));
    assert_eq!(place_weak_image(2, 3), ImagePlacement::InsertAt(2));
    assert_eq!(place_weak_image(3, 3), ImagePlacement::Append);
    assert_eq!(place_weak_image(10, 0), ImagePlacement::Append);
}

#[test]
fn well_formed_bytes_decode_to_their_text() {
    assert_eq!(document_text("<svg>\u{e9}</svg>".as_bytes()), Some("<svg>\u{e9}</svg>"));
    assert_eq!(document_text(b""), Some(""));
}

#[test]
fn malformed_bytes_give_no_text() {
    assert_eq!(document_text(&[0x3c, 0xff, 0x3e]), None);
    assert_eq!(document_text(&[0xed, 0xa0, 0x80]), None);
    assert_eq!(document_text(&[0xc0, 0xaf]), None);
}

#[test]
fn clipboard_only_on_enabled_canvas() {
    assert!(handles_clipboard_input(true));
    assert!(!handles_clipboard_input(false));
}
