//! The canvas editor's own state and the decisions it takes each frame.
//!
//! Drawing, input dispatch to the tools and the document buffer live with the
//! host; what stays here is what the editor decides from plain facts about a
//! frame: which tool gets the input, whether a pending frame skip swallows it,
//! where an image that arrived in the background goes, and when the host is
//! asked to save.

use vstd::prelude::*;
use crate::canvas::{CanvasSettings, Response, Tool};

verus! {


/// The editor state that outlives a frame.
#[derive(Clone, Copy, Debug)]
pub struct SVGEditor {
    /// Id of the open file.
    pub open_file: u128,
    /// Digest of the content as last opened or saved, if known.
    pub open_file_hmac: Option<[u8; 32]>,
    pub settings: CanvasSettings,
    /// The next frame's input only finishes the path being drawn.
    pub skip_frame: bool,
    /// Zooming and panning are allowed (set by the tools).
    pub allow_viewport_changes: bool,
    /// Something changed that has not been saved yet.
    pub has_queued_save_request: bool,
}

/// The toolbar popovers that a change to the drawing closes.
#[derive(Clone, Copy, Debug)]
pub struct ToolPanels {
    pub show_tool_controls: bool,
    pub show_viewport_popover: bool,
}

/// What rendering a frame found.
#[derive(Clone, Copy, Debug)]
pub struct FrameDiff {
    /// Some element was redrawn because it changed.
    pub is_dirty: bool,
    /// The whole drawing was moved or scaled.
    pub is_transformed: bool,
}

/// What becomes of a frame's pointer input. On an enabled canvas the host
/// handles clipboard input before this is decided.
#[derive(Clone, Copy, Debug, PartialEq, Eq, Structural)]
pub enum EventPlan {
    /// The canvas is disabled: the input is left alone.
    Ignore,
    /// The path being drawn is finished and the rest of the input is dropped.
    FinishPath,
    /// The tool gets the input, then the gesture handler.
    Dispatch(Tool),
}

/// Where an image that was loaded in the background joins the drawing.
#[derive(Clone, Copy, Debug, PartialEq, Eq, Structural)]
pub enum ImagePlacement {
    /// On top of every element.
    Append,
    /// At this position in the stacking order, the elements from there on moving up.
    InsertAt(usize),
}

/// The settings an editor opens with.
pub open spec fn settings_or_default(maybe_settings: Option<CanvasSettings>) -> CanvasSettings {
    match maybe_settings {
        Some(s) => s,
        None => CanvasSettings { pencil_only_drawing: false },
    }
}

/// Save bookkeeping of one frame: from whether a save was pending, whether
/// background images arrived and what rendering found, whether a save is
/// pending afterwards and whether the host is asked to save now.
pub open spec fn frame_save_step(pending: bool, new_images: bool, diff: FrameDiff) -> (bool, bool) {
    let queued = pending || new_images || diff.is_dirty;
    let request = queued && !diff.is_dirty;
    (queued && !request, request)
}

/// The frame-skip flag after a frame, and what becomes of the frame's input.
pub open spec fn event_step(skip_frame: bool, ui_enabled: bool, tool: Tool) -> (bool, EventPlan) {
    if !ui_enabled {
        (skip_frame, EventPlan::Ignore)
    } else if skip_frame {
        (false, EventPlan::FinishPath)
    } else {
        (false, EventPlan::Dispatch(tool))
    }
}

impl SVGEditor {
    /// Opens the editor on a file, with the given settings or the defaults.
    pub fn new(open_file: u128, hmac: Option<[u8; 32]>, maybe_settings: Option<CanvasSettings>) -> (editor: SVGEditor)
        ensures
            editor.open_file == open_file,
            editor.open_file_hmac == hmac,
            editor.settings == settings_or_default(maybe_settings),
            maybe_settings matches Some(s) ==> editor.settings == s,
            maybe_settings is None ==> !editor.settings.pencil_only_drawing,
            !editor.skip_frame,
            !editor.allow_viewport_changes,
            !editor.has_queued_save_request,
    {
        let settings = match maybe_settings {
            Some(s) => s,
            None => CanvasSettings::default(),
        };
        SVGEditor {
            open_file,
            open_file_hmac: hmac,
            settings,
            skip_frame: false,
            allow_viewport_changes: false,
            has_queued_save_request: false,
        }
    }

    /// Decides what becomes of this frame's input: nothing while the canvas is
    /// disabled; finishing the current path, once, after a frame skip was
    /// requested; otherwise the active tool's handling.
    pub fn process_events(&mut self, ui_enabled: bool, active_tool: Tool) -> (plan: EventPlan)
        ensures
            (final(self).skip_frame, plan) == event_step(old(self).skip_frame, ui_enabled, active_tool),
            final(self).open_file == old(self).open_file,
            final(self).open_file_hmac == old(self).open_file_hmac,
            final(self).settings == old(self).settings,
            final(self).allow_viewport_changes == old(self).allow_viewport_changes,
            final(self).has_queued_save_request == old(self).has_queued_save_request,
    {
        if !ui_enabled {
            return EventPlan::Ignore;
        }
        if self.skip_frame {
            self.skip_frame = false;
            return EventPlan::FinishPath;
        }
        EventPlan::Dispatch(active_tool)
    }

    /// Ends a frame: queues a save when images arrived or the drawing
    /// changed, closes the tool popovers when the drawing changed other than
    /// by moving it as a whole, and asks for the queued save on the first
    /// frame that redraws nothing.
    pub fn show(&mut self, panels: &mut ToolPanels, new_images: bool, global_diff: FrameDiff) -> (response: Response)
        ensures
            (final(self).has_queued_save_request, response.request_save) == frame_save_step(
                old(self).has_queued_save_request,
                new_images,
                global_diff,
            ),
            global_diff.is_dirty && !global_diff.is_transformed ==> !final(panels).show_tool_controls
                && !final(panels).show_viewport_popover,
            !(global_diff.is_dirty && !global_diff.is_transformed) ==> *final(panels) == *old(panels),
            final(self).open_file == old(self).open_file,
            final(self).open_file_hmac == old(self).open_file_hmac,
            final(self).settings == old(self).settings,
            final(self).skip_frame == old(self).skip_frame,
            final(self).allow_viewport_changes == old(self).allow_viewport_changes,
    {
        if new_images {
            self.has_queued_save_request = true;
        }
        if global_diff.is_dirty {
            self.has_queued_save_request = true;
            if !global_diff.is_transformed {
                panels.show_tool_controls = false;
                panels.show_viewport_popover = false;
            }
        }
        let needs_save_and_frame_is_cheap = if self.has_queued_save_request && !global_diff.is_dirty {
            self.has_queued_save_request = false;
            true
        } else {
            false
        };
        Response { request_save: needs_save_and_frame_is_cheap }
    }
}

/// Clipboard input is handled on a frame whose canvas is enabled.
pub open spec fn spec_handles_clipboard(ui_enabled: bool) -> bool {
    ui_enabled
}

/// Whether this frame's clipboard input is handled: on an enabled canvas, and
/// before the rest of the input is planned.
pub fn handles_clipboard_input(ui_enabled: bool) -> (handle: bool)
    ensures
        handle == spec_handles_clipboard(ui_enabled),
{
    ui_enabled
}

/// `std::str::from_utf8`, with its error dropped. Claimed of it, as its
/// documentation says: it succeeds exactly when the bytes are well-formed
/// UTF-8, and then the text is what the bytes encode.
#[verifier::external_body]
fn str_from_utf8(bytes: &[u8]) -> (text: Option<&str>)
    ensures
        text is Some <==> vstd::utf8::valid_utf8(bytes@),
        text matches Some(t) ==> t@ == vstd::utf8::decode_utf8(bytes@),
{
    std::str::from_utf8(bytes).ok()
}

/// The text of a stored drawing: what its bytes encode, or nothing when they
/// are not well-formed UTF-8 (an editor cannot be opened on such a file).
pub fn document_text(bytes: &[u8]) -> (text: Option<&str>)
    ensures
        text is Some <==> vstd::utf8::valid_utf8(bytes@),
        text matches Some(t) ==> t@ == vstd::utf8::decode_utf8(bytes@),
{
    str_from_utf8(bytes)
}

/// Where an image loaded in the background goes among `element_count`
/// elements: at its recorded stacking position when that lies within the
/// drawing, on top otherwise.
pub fn place_weak_image(z_index: usize, element_count: usize) -> (placement: ImagePlacement)
    ensures
        z_index >= element_count ==> placement == ImagePlacement::Append,
        z_index < element_count ==> placement == ImagePlacement::InsertAt(z_index),
{
    if z_index >= element_count {
        ImagePlacement::Append
    } else {
        ImagePlacement::InsertAt(z_index)
    }
}

/// Law: an editor opens with exactly the settings it is given, and without
/// them draws with anything (not only a pencil).
pub proof fn lemma_settings_as_given(s: CanvasSettings)
    ensures
        settings_or_default(Some(s)) == s,
        !settings_or_default(None).pencil_only_drawing,
{
}

/// Law: a save is only ever requested on a frame that redraws nothing, and
/// nothing that needs saving is forgotten: after a frame either a save is
/// pending or was just requested, whenever one was pending before, images
/// arrived, or the drawing changed; and a save is still pending exactly when
/// the frame was dirty.
pub proof fn lemma_save_requests_on_clean_frames(pending: bool, new_images: bool, diff: FrameDiff)
    ensures
        frame_save_step(pending, new_images, diff).1 ==> !diff.is_dirty,
        frame_save_step(pending, new_images, diff).0 || frame_save_step(pending, new_images, diff).1
            <==> (pending || new_images || diff.is_dirty),
        frame_save_step(pending, new_images, diff).0 == diff.is_dirty,
        !(frame_save_step(pending, new_images, diff).0 && frame_save_step(pending, new_images, diff).1),
{
}

/// Law: after a frame that changed the drawing, the next frame that redraws
/// nothing asks for a save.
pub proof fn lemma_dirty_then_clean_saves(
    pending: bool,
    images1: bool,
    diff1: FrameDiff,
    images2: bool,
    diff2: FrameDiff,
)
    requires
        diff1.is_dirty,
        !diff2.is_dirty,
    ensures
        frame_save_step(frame_save_step(pending, images1, diff1).0, images2, diff2).1,
{
}

/// Law: a change is saved once: after a frame that asked for a save, a frame
/// without new images or changes asks for none.
pub proof fn lemma_no_second_save(
    pending: bool,
    images1: bool,
    diff1: FrameDiff,
    diff2: FrameDiff,
)
    requires
        frame_save_step(pending, images1, diff1).1,
        !diff2.is_dirty,
    ensures
        !frame_save_step(frame_save_step(pending, images1, diff1).0, false, diff2).1,
{
}

/// Law: a requested frame skip finishes the path on the next enabled frame
/// and is then used up: the enabled frame after that goes to the tool.
pub proof fn lemma_skip_frame_used_once(skip_frame: bool, tool1: Tool, tool2: Tool)
    ensures
        event_step(skip_frame, true, tool1).1 == (if skip_frame {
            EventPlan::FinishPath
        } else {
            EventPlan::Dispatch(tool1)
        }),
        event_step(event_step(skip_frame, true, tool1).0, true, tool2).1 == EventPlan::Dispatch(tool2),
{
}

/// Law: clipboard input is handled exactly on the frames whose pointer input
/// is not ignored.
pub proof fn lemma_clipboard_with_input(skip_frame: bool, ui_enabled: bool, tool: Tool)
    ensures
        spec_handles_clipboard(ui_enabled) <==> event_step(skip_frame, ui_enabled, tool).1
            != EventPlan::Ignore,
{
}

/// Law: a disabled frame changes nothing, so a pending skip waits for the
/// next enabled frame.
pub proof fn lemma_disabled_frame_keeps_skip(skip_frame: bool, tool1: Tool, tool2: Tool)
    ensures
        event_step(skip_frame, false, tool1) == (skip_frame, EventPlan::Ignore),
        event_step(event_step(skip_frame, false, tool1).0, true, tool2).1 == event_step(skip_frame, true, tool2).1,
{
}

} // verus!
