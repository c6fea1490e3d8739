use lockbook_workspace::canvas::{
    is_touch_frame, remember_last_touch, CanvasOp, CanvasSettings, Response, Tool,
};

#[test]
fn default_settings_draw_with_anything() {
    let settings = CanvasSettings::default();
    assert!(!settings.pencil_only_drawing);
}

#[test]
fn canvas_ops_compare_by_variant() {
    assert_eq!(CanvasOp::Idle, CanvasOp::Idle);
    assert_ne!(CanvasOp::PanOrZoom, CanvasOp::BuildingPath);
    assert_ne!(Tool::Pen, Tool::Highlighter);
}

#[test]
fn response_carries_the_save_request() {
    let r = Response { request_save: true };
    assert!(r.request_save);
}

#[test]
fn no_events_is_no_touch() {
    let touches: Vec<Option<(i32, i32)>> = vec![];
    assert!(!is_touch_frame(&touches, false));
    assert_eq!(remember_last_touch(Some((1, 2)), &touches), Some((1, 2)));
    assert_eq!(remember_last_touch(None, &touches), None);
}

#[test]
fn touch_only_platform_always_touches() {
    let touches: Vec<Option<(i32, i32)>> = vec![None];
    assert!(is_touch_frame(&touches, true));
    assert_eq!(remember_last_touch(Some((5, 5)), &touches), Some((5, 5)));
}

#[test]
fn last_of_several_touches_wins() {
    let touches = vec![Some((1, 1)), None, Some((3, 4)), None];
    assert!(is_touch_frame(&touches, false));
    assert_eq!(remember_last_touch(Some((9, 9)), &touches), Some((3, 4)));
    assert_eq!(remember_last_touch(None, &touches), Some((3, 4)));
}

#[test]
fn touch_frame_iff_remembered_touch_changes() {
    let frames: Vec<Vec<Option<(i32, i32)>>> = vec![
        vec![],
        vec![None, None],
        vec![Some((7, 8))],
        vec![None, Some((0, 0))],
    ];
    for touches in frames {
        let touched = is_touch_frame(&touches, false);
        assert_eq!(touched, remember_last_touch(None, &touches).is_some());
        if !touched {
            assert_eq!(remember_last_touch(Some((-1, -1)), &touches), Some((-1, -1)));
        }
    }
}
