//! Plain data shared by the canvas editor, and the facts it reads off a
//! frame's input events.

use vstd::prelude::*;

verus! {

/// User preferences for drawing on the canvas.
#[derive(Clone, Copy, Debug)]
pub struct CanvasSettings {
    /// When set, only a pencil (stylus) draws; fingers pan and zoom.
    pub pencil_only_drawing: bool,
}

impl Default for CanvasSettings {
    fn default() -> (settings: Self)
        ensures
            !settings.pencil_only_drawing,
    {
        CanvasSettings { pencil_only_drawing: false }
    }
}

/// What the canvas is busy with at the moment.
#[derive(Clone, Copy, Debug, PartialEq, Eq, Structural)]
pub enum CanvasOp {
    PanOrZoom,
    BuildingPath,
    Idle,
}

/// What one frame of the editor asks of its host.
#[derive(Clone, Copy, Debug)]
pub struct Response {
    /// The document should be saved now: something changed since the last
    /// save and this frame is cheap (nothing was redrawn as dirty).
    pub request_save: bool,
}

/// The tool that receives pointer input.
#[derive(Clone, Copy, Debug, PartialEq, Eq, Structural)]
pub enum Tool {
    Pen,
    Highlighter,
    Eraser,
    Selection,
}

// A frame's input events are given as a sequence with, for each event, its
// touch position when it is a touch and `None` otherwise.

/// Some event of the frame is a touch.
pub open spec fn has_touch<T>(touches: Seq<Option<T>>) -> bool {
    exists|i: int| 0 <= i < touches.len() && #[trigger] touches[i] is Some
}

/// Index of the last touch event of the frame, if any.
pub open spec fn last_touch<T>(touches: Seq<Option<T>>) -> Option<int>
    decreases touches.len(),
{
    if touches.len() == 0 {
        None
    } else if touches.last() is Some {
        Some(touches.len() - 1)
    } else {
        last_touch(touches.drop_last())
    }
}

/// The touch position remembered after a frame: where its last touch was,
/// when it has one, and otherwise the position remembered before.
pub open spec fn spec_remembered_touch<T>(before: Option<T>, touches: Seq<Option<T>>) -> Option<T> {
    match last_touch(touches) {
        Some(i) => touches[i],
        None => before,
    }
}

/// A frame counts as a touch frame when any of its events is a touch, or
/// always on a platform whose only pointer is a touch screen.
pub fn is_touch_frame<T: Copy>(touches: &Vec<Option<T>>, touch_only_platform: bool) -> (touch: bool)
    ensures
        touch == (touch_only_platform || has_touch(touches@)),
{
    if touch_only_platform {
        return true;
    }
    let mut i: usize = 0;
    while i < touches.len()
        invariant
            i <= touches.len(),
            forall|j: int| 0 <= j < i ==> touches@[j] is None,
        decreases touches.len() - i,
    {
        if touches[i].is_some() {
            return true;
        }
        i = i + 1;
    }
    false
}

/// The touch position remembered across frames, updated by one frame's
/// events: the position of the frame's last touch, or the old one when the
/// frame has no touch.
pub fn remember_last_touch<T: Copy>(before: Option<T>, touches: &Vec<Option<T>>) -> (after: Option<T>)
    ensures
        after == spec_remembered_touch(before, touches@),
        (forall|j: int| 0 <= j < touches@.len() ==> touches@[j] is None) ==> after == before,
        (exists|i: int| 0 <= i < touches@.len() && touches@[i] is Some) ==> exists|i: int|
            0 <= i < touches@.len() && touches@[i] is Some && after == touches@[i] && forall|j: int|
                i < j < touches@.len() ==> touches@[j] is None,
{
    proof {
        lemma_remembered_touch_is_last(before, touches@);
    }
    let mut i: usize = touches.len();
    assert(touches@.take(i as int) =~= touches@);
    while i > 0
        invariant
            i <= touches.len(),
            last_touch(touches@) == last_touch(touches@.take(i as int)),
        decreases i,
    {
        let k: usize = i - 1;
        assert(touches@.take(i as int).drop_last() =~= touches@.take(k as int));
        if touches[k].is_some() {
            proof {
                lemma_last_touch_is_last(touches@);
                assert(touches@[k as int] is Some && forall|j: int|
                    k < j < touches@.len() ==> touches@[j] is None);
            }
            return touches[k];
        }
        i = k;
    }
    proof {
        lemma_last_touch_is_last(touches@);
    }
    before
}

/// What `last_touch` finds is a touch, and no touch follows it.
pub proof fn lemma_last_touch_is_last<T>(touches: Seq<Option<T>>)
    ensures
        match last_touch(touches) {
            Some(i) => 0 <= i < touches.len() && touches[i] is Some && forall|j: int|
                i < j < touches.len() ==> touches[j] is None,
            None => forall|j: int| 0 <= j < touches.len() ==> touches[j] is None,
        },
    decreases touches.len(),
{
    if touches.len() > 0 && touches.last() is None {
        lemma_last_touch_is_last(touches.drop_last());
        assert forall|j: int| 0 <= j < touches.len() - 1 implies touches[j] == touches.drop_last()[j] by {}
    }
}

/// Law: after a frame with no touch the remembered position is the one from
/// before; after a frame with a touch it is the position of a touch of the
/// frame that no other touch follows.
pub proof fn lemma_remembered_touch_is_last<T>(before: Option<T>, touches: Seq<Option<T>>)
    ensures
        (forall|j: int| 0 <= j < touches.len() ==> touches[j] is None) ==> spec_remembered_touch(
            before,
            touches,
        ) == before,
        (exists|i: int| 0 <= i < touches.len() && touches[i] is Some) ==> exists|i: int|
            0 <= i < touches.len() && touches[i] is Some && spec_remembered_touch(before, touches)
                == touches[i] && forall|j: int| i < j < touches.len() ==> touches[j] is None,
{
    lemma_last_touch_is_last(touches);
    match last_touch(touches) {
        Some(i) => {
            assert(touches[i] is Some);
        },
        None => {
            if exists|i: int| 0 <= i < touches.len() && touches[i] is Some {
                let i = choose|i: int| 0 <= i < touches.len() && touches[i] is Some;
                assert(touches[i] is None);
            }
        },
    }
}

/// Law: a frame off a touch-only platform is a touch frame exactly when it
/// changes the remembered touch to one of its own, and a frame without a
/// touch keeps the remembered touch as it was.
pub proof fn lemma_touch_frame_iff_last_touch<T>(before: Option<T>, touches: Seq<Option<T>>)
    ensures
        has_touch(touches) <==> last_touch(touches) is Some,
        !has_touch(touches) ==> spec_remembered_touch(before, touches) == before,
        has_touch(touches) ==> spec_remembered_touch(before, touches) is Some,
{
    lemma_last_touch_is_last(touches);
    if let Some(i) = last_touch(touches) {
        assert(touches[i] is Some);
    }
}

} // verus!
