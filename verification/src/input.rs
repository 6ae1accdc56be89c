use vstd::prelude::*;

verus! {

/// The tool that touches and the pointer act with.
#[derive(Clone, Copy, Debug, PartialEq, Eq, Structural)]
pub enum CanvasTool {
    /// Input goes through the overlay to the windows below.
    Passthrough,
    Pan,
    Brush,
    Select,
    ObjectEraser,
    PixelEraser,
    Insert,
}

/// A key press, as far as shortcuts look at it.
pub enum KeyPress {
    Escape,
    Delete,
    /// A key that produces text, with that text.
    Text(String),
    /// Any other key.
    Other,
}

/// What a key press asks for.
#[derive(Clone, Copy, Debug, PartialEq, Eq, Structural)]
pub enum ShortcutCommand {
    Exit,
    DeleteSelected,
    /// Drop the selection, then undo.
    Undo,
    /// Drop the selection, then redo.
    Redo,
    /// Ask for a file to save the current canvas to.
    OpenSaveDialog,
    SelectTool(CanvasTool),
    Ignore,
}

/// The command for a key press typed with text `text`.
pub open spec fn text_command(text: Seq<char>, ctrl: bool) -> ShortcutCommand {
    if ctrl && text == "z"@ {
        ShortcutCommand::Undo
    } else if ctrl && text == "y"@ {
        ShortcutCommand::Redo
    } else if ctrl && text == "s"@ {
        ShortcutCommand::OpenSaveDialog
    } else if !ctrl && text == "b"@ {
        ShortcutCommand::SelectTool(CanvasTool::Brush)
    } else if !ctrl && text == "v"@ {
        ShortcutCommand::SelectTool(CanvasTool::Select)
    } else if !ctrl && text == "e"@ {
        ShortcutCommand::SelectTool(CanvasTool::ObjectEraser)
    } else {
        ShortcutCommand::Ignore
    }
}

/// The command for a key press. Nothing happens while the user interface
/// takes keyboard input (a text field has focus).
pub open spec fn spec_shortcut_command(key: KeyPress, ctrl: bool, ui_wants_keyboard: bool) -> ShortcutCommand {
    if ui_wants_keyboard {
        ShortcutCommand::Ignore
    } else {
        match key {
            KeyPress::Escape => ShortcutCommand::Exit,
            KeyPress::Delete => ShortcutCommand::DeleteSelected,
            KeyPress::Text(text) => text_command(text@, ctrl),
            KeyPress::Other => ShortcutCommand::Ignore,
        }
    }
}

fn text_is(text: &str, expected: &str) -> (same: bool)
    ensures
        same == (text@ == expected@),
{
    text.to_owned() == expected.to_owned()
}

/// Maps a key press to a command.
pub fn shortcut_command(key: &KeyPress, ctrl: bool, ui_wants_keyboard: bool) -> (command:
    ShortcutCommand)
    ensures
        command == spec_shortcut_command(*key, ctrl, ui_wants_keyboard),
        ui_wants_keyboard ==> command == ShortcutCommand::Ignore,
        !ui_wants_keyboard && *key is Escape ==> command == ShortcutCommand::Exit,
        !ui_wants_keyboard && *key is Delete ==> command == ShortcutCommand::DeleteSelected,
        *key is Other ==> command == ShortcutCommand::Ignore,
        command is Undo ==> (ctrl && (*key matches KeyPress::Text(t) && t@ == "z"@)),
        command is Redo ==> (ctrl && (*key matches KeyPress::Text(t) && t@ == "y"@)),
        command is OpenSaveDialog ==> (ctrl && (*key matches KeyPress::Text(t) && t@ == "s"@)),
        command is SelectTool ==> !ctrl && !ui_wants_keyboard && *key is Text,
{
    if ui_wants_keyboard {
        return ShortcutCommand::Ignore;
    }
    match key {
        KeyPress::Escape => ShortcutCommand::Exit,
        KeyPress::Delete => ShortcutCommand::DeleteSelected,
        KeyPress::Text(text) => {
            let t = text.as_str();
            if ctrl && text_is(t, "z") {
                ShortcutCommand::Undo
            } else if ctrl && text_is(t, "y") {
                ShortcutCommand::Redo
            } else if ctrl && text_is(t, "s") {
                ShortcutCommand::OpenSaveDialog
            } else if !ctrl && text_is(t, "b") {
                ShortcutCommand::SelectTool(CanvasTool::Brush)
            } else if !ctrl && text_is(t, "v") {
                ShortcutCommand::SelectTool(CanvasTool::Select)
            } else if !ctrl && text_is(t, "e") {
                ShortcutCommand::SelectTool(CanvasTool::ObjectEraser)
            } else {
                ShortcutCommand::Ignore
            }
        },
        KeyPress::Other => ShortcutCommand::Ignore,
    }
}

/// Escape and Delete act whatever the modifiers; nothing acts while the
/// interface takes the keyboard; the Ctrl shortcuts need Ctrl and the tool
/// keys need it released.
pub proof fn lemma_shortcut_modifiers(key: KeyPress, ctrl: bool, ui_wants_keyboard: bool, text: String)
    ensures
        ui_wants_keyboard ==> spec_shortcut_command(key, ctrl, ui_wants_keyboard)
            == ShortcutCommand::Ignore,
        !ui_wants_keyboard ==> spec_shortcut_command(KeyPress::Delete, ctrl, ui_wants_keyboard)
            == ShortcutCommand::DeleteSelected,
        !ui_wants_keyboard ==> spec_shortcut_command(KeyPress::Escape, ctrl, ui_wants_keyboard)
            == ShortcutCommand::Exit,
        spec_shortcut_command(KeyPress::Other, ctrl, ui_wants_keyboard) == ShortcutCommand::Ignore,
        !ctrl ==> !(spec_shortcut_command(KeyPress::Text(text), ctrl, ui_wants_keyboard) is Undo
            || spec_shortcut_command(KeyPress::Text(text), ctrl, ui_wants_keyboard) is Redo
            || spec_shortcut_command(KeyPress::Text(text), ctrl, ui_wants_keyboard) is OpenSaveDialog),
        ctrl ==> !(spec_shortcut_command(KeyPress::Text(text), ctrl, ui_wants_keyboard) is SelectTool),
{
}

/// The object that the delete key removes: the selected one, where it is one
/// of the `object_count` objects on the canvas.
pub fn deletable_selection(selected: Option<usize>, object_count: usize) -> (index: Option<usize>)
    ensures
        index == (match selected {
            Some(i) if i < object_count => Some(i),
            _ => None::<usize>,
        }),
{
    match selected {
        Some(i) => if i < object_count {
            Some(i)
        } else {
            None
        },
        None => None,
    }
}

/// The delete key removes the selected object, where it is one of `objects`,
/// and drops the selection; it hands back the index and the object for the
/// history. Without such a selection nothing changes.
pub fn delete_selected_object<O>(objects: &mut Vec<O>, selected: &mut Option<usize>) -> (removed:
    Option<(usize, O)>)
    ensures
        match *old(selected) {
            Some(i) if i < old(objects)@.len() => {
                &&& removed == Some((i, old(objects)@[i as int]))
                &&& final(objects)@ == old(objects)@.remove(i as int)
                &&& *final(selected) is None
            },
            _ => {
                &&& removed is None
                &&& final(objects)@ == old(objects)@
                &&& *final(selected) == *old(selected)
            },
        },
{
    match deletable_selection(*selected, objects.len()) {
        Some(i) => {
            let object = objects.remove(i);
            *selected = None;
            Some((i, object))
        },
        None => None,
    }
}

/// The greatest index whose object is hit, if any.
pub open spec fn topmost(hits: Seq<bool>) -> Option<usize>
    decreases hits.len(),
{
    if hits.len() == 0 {
        None
    } else if hits.last() {
        Some((hits.len() - 1) as usize)
    } else {
        topmost(hits.drop_last())
    }
}

/// The topmost hit is a hit, and no later object is hit.
pub proof fn lemma_topmost_is_last_hit(hits: Seq<bool>)
    requires
        hits.len() <= usize::MAX,
    ensures
        topmost(hits) matches Some(i) ==> i < hits.len() && hits[i as int] && forall|j: int|
            i < j < hits.len() ==> !hits[j],
        topmost(hits) is None ==> forall|j: int| 0 <= j < hits.len() ==> !hits[j],
    decreases hits.len(),
{
    if hits.len() > 0 && !hits.last() {
        lemma_topmost_is_last_hit(hits.drop_last());
        assert forall|j: int| 0 <= j < hits.len() - 1 implies hits.drop_last()[j] == hits[j] by {}
    }
}

/// A touch with the select tool selects the topmost object under it (objects
/// drawn later lie on top); where it hits none, the selection stays as it was.
/// `hits[i]` says whether object `i`'s bounding box holds the touch point.
pub fn select_topmost(previous: Option<usize>, hits: &Vec<bool>) -> (selected: Option<usize>)
    ensures
        selected == (match topmost(hits@) {
            Some(i) => Some(i),
            None => previous,
        }),
        selected != previous ==> (selected matches Some(i) && i < hits@.len() && hits@[i as int]),
{
    let len = hits.len();
    proof {
        lemma_topmost_is_last_hit(hits@);
    }
    let mut i = len;
    proof {
        assert(hits@.take(i as int) =~= hits@);
    }
    while i > 0
        invariant
            i <= hits@.len(),
            topmost(hits@) == topmost(hits@.take(i as int)),
        decreases i,
    {
        let j = i - 1;
        proof {
            assert(hits@.take(i as int).drop_last() == hits@.take(j as int));
        }
        if hits[j] {
            return Some(j);
        }
        i = j;
    }
    previous
}

/// What a new touch starts.
#[derive(Clone, Copy, Debug, PartialEq, Eq, Structural)]
pub enum TouchStart {
    Pan,
    BrushStroke,
    /// Hit-test the objects, then select or drag.
    Select,
    Erase,
    InsertShape,
    Ignore,
}

/// What a new touch starts with `tool`. A second select touch is ignored while
/// another one is selecting; a shape is inserted only from the shape tab with
/// a shape chosen.
pub open spec fn spec_touch_start(
    tool: CanvasTool,
    another_touch_selecting: bool,
    insert_tab_is_shapes: bool,
    shape_chosen: bool,
) -> TouchStart {
    match tool {
        CanvasTool::Pan => TouchStart::Pan,
        CanvasTool::Brush => TouchStart::BrushStroke,
        CanvasTool::Select => if another_touch_selecting {
            TouchStart::Ignore
        } else {
            TouchStart::Select
        },
        CanvasTool::ObjectEraser | CanvasTool::PixelEraser => TouchStart::Erase,
        CanvasTool::Insert => if insert_tab_is_shapes && shape_chosen {
            TouchStart::InsertShape
        } else {
            TouchStart::Ignore
        },
        CanvasTool::Passthrough => TouchStart::Ignore,
    }
}

/// Decides what a new touch starts.
pub fn touch_start(
    tool: CanvasTool,
    another_touch_selecting: bool,
    insert_tab_is_shapes: bool,
    shape_chosen: bool,
) -> (start: TouchStart)
    ensures
        start == spec_touch_start(tool, another_touch_selecting, insert_tab_is_shapes, shape_chosen),
{
    match tool {
        CanvasTool::Pan => TouchStart::Pan,
        CanvasTool::Brush => TouchStart::BrushStroke,
        CanvasTool::Select => if another_touch_selecting {
            TouchStart::Ignore
        } else {
            TouchStart::Select
        },
        CanvasTool::ObjectEraser | CanvasTool::PixelEraser => TouchStart::Erase,
        CanvasTool::Insert => if insert_tab_is_shapes && shape_chosen {
            TouchStart::InsertShape
        } else {
            TouchStart::Ignore
        },
        CanvasTool::Passthrough => TouchStart::Ignore,
    }
}

/// What a moving touch does.
#[derive(Clone, Copy, Debug, PartialEq, Eq, Structural)]
pub enum TouchMove {
    /// Scroll the view by the touch's movement.
    Pan,
    /// Add the point to the touch's stroke.
    ExtendStroke,
    /// Drag the selected object or its handle.
    DragSelection,
    /// Only record where the touch is.
    Track,
    Ignore,
}

/// What a touch that moves does with `tool`.
pub fn touch_move(tool: CanvasTool) -> (step: TouchMove)
    ensures
        step == match tool {
            CanvasTool::Pan => TouchMove::Pan,
            CanvasTool::Brush => TouchMove::ExtendStroke,
            CanvasTool::Select => TouchMove::DragSelection,
            CanvasTool::ObjectEraser | CanvasTool::PixelEraser | CanvasTool::Insert => TouchMove::Track,
            CanvasTool::Passthrough => TouchMove::Ignore,
        },
{
    match tool {
        CanvasTool::Pan => TouchMove::Pan,
        CanvasTool::Brush => TouchMove::ExtendStroke,
        CanvasTool::Select => TouchMove::DragSelection,
        CanvasTool::ObjectEraser | CanvasTool::PixelEraser | CanvasTool::Insert => TouchMove::Track,
        CanvasTool::Passthrough => TouchMove::Ignore,
    }
}

/// What a touch that ends (or is cancelled) does.
#[derive(Clone, Copy, Debug, PartialEq, Eq, Structural)]
pub enum TouchEnd {
    /// Forget the touch.
    Release,
    /// Finish the touch's stroke.
    EndStroke,
    /// Record the finished drag in the history, then forget the touch.
    FinishSelection,
    /// Forget the touch and insert the shape it spanned, if it was inserting one.
    FinishShape,
    Ignore,
}

/// What a touch that ends does with `tool`.
pub fn touch_end(tool: CanvasTool) -> (step: TouchEnd)
    ensures
        step == match tool {
            CanvasTool::Pan | CanvasTool::ObjectEraser | CanvasTool::PixelEraser => TouchEnd::Release,
            CanvasTool::Brush => TouchEnd::EndStroke,
            CanvasTool::Select => TouchEnd::FinishSelection,
            CanvasTool::Insert => TouchEnd::FinishShape,
            CanvasTool::Passthrough => TouchEnd::Ignore,
        },
{
    match tool {
        CanvasTool::Pan | CanvasTool::ObjectEraser | CanvasTool::PixelEraser => TouchEnd::Release,
        CanvasTool::Brush => TouchEnd::EndStroke,
        CanvasTool::Select => TouchEnd::FinishSelection,
        CanvasTool::Insert => TouchEnd::FinishShape,
        CanvasTool::Passthrough => TouchEnd::Ignore,
    }
}

/// What one movement of a selecting touch does to the objects.
#[derive(Clone, Copy, Debug, PartialEq, Eq, Structural)]
pub enum DragStep {
    /// Reshape object `i` by the grabbed handle.
    Transform(usize),
    /// Move object `i` and add the movement to the accumulated drag.
    Move(usize),
    Nothing,
}

/// A selecting touch reshapes the selected object when it grabbed a handle and
/// moves it otherwise; nothing happens without a selection on the canvas.
pub fn drag_step(selected: Option<usize>, object_count: usize, grabbed_handle: bool) -> (step:
    DragStep)
    ensures
        step == match selected {
            Some(i) if i < object_count => if grabbed_handle {
                DragStep::Transform(i)
            } else {
                DragStep::Move(i)
            },
            _ => DragStep::Nothing,
        },
{
    match deletable_selection(selected, object_count) {
        Some(i) => if grabbed_handle {
            DragStep::Transform(i)
        } else {
            DragStep::Move(i)
        },
        None => DragStep::Nothing,
    }
}

/// The history entries a finished select touch records.
#[derive(Clone, Copy, Debug, PartialEq, Eq, Structural)]
pub struct SelectionRecords {
    /// Object whose move by the accumulated drag is recorded.
    pub moved: Option<usize>,
    /// Object whose change from the transform at the start of the drag is recorded.
    pub transformed: Option<usize>,
}

/// A move is recorded for the selected object where the drag moved it; a
/// transform where the touch started on a handle and the selection is one of
/// the `object_count` objects.
pub fn selection_records(
    selected: Option<usize>,
    drag_moved: bool,
    grabbed_handle: bool,
    object_count: usize,
) -> (records: SelectionRecords)
    ensures
        records.moved == (if drag_moved {
            selected
        } else {
            None::<usize>
        }),
        records.transformed == (if grabbed_handle {
            match selected {
                Some(i) if i < object_count => Some(i),
                _ => None::<usize>,
            }
        } else {
            None::<usize>
        }),
{
    let moved = if drag_moved {
        selected
    } else {
        None
    };
    let transformed = if grabbed_handle {
        deletable_selection(selected, object_count)
    } else {
        None
    };
    SelectionRecords { moved, transformed }
}

} // verus!
