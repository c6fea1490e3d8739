# lockbook_workspace

Verified decision logic of two parts of Lockbook:

- the SVG canvas editor (`src/canvas.rs`, `src/editor.rs`): which tool gets a
  frame's input, when a requested frame skip finishes the current path, where
  an image loaded in the background joins the drawing, which touch position
  is remembered, and when the host is asked to save;
- the server's create-file endpoint (`src/create_file.rs`): a state machine
  that asks its host for one store operation at a time and decides, from each
  answer, the next operation or the reply to the client.

Each public function states its result exactly; the laws that span calls
(a save is requested once, on a clean frame, after each change; a frame skip
is used up by one enabled frame; the endpoint answers exactly once, commits
only after both writes, and replies what the stores' answers call for) are
proof functions beside the code they speak of.

`app/` holds the egui widget and the async endpoint that perform the drawing
and the store calls and feed their outcomes to the library.
