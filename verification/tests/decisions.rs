use smartboard::display::{
    fullscreen_target, resolve_dark_mode, FullscreenTarget, ThemeMode, WindowMode,
};
use smartboard::events::FileDialogAction;
use smartboard::frame::{
    cursor_hittest, drop_marked_objects, forward_to_ui, panels_to_show, plan_wait, present_mode_step,
};
use smartboard::input::{
    deletable_selection, delete_selected_object, drag_step, select_topmost, selection_records, shortcut_command,
    touch_end, touch_move, touch_start, CanvasTool, DragStep, KeyPress, ShortcutCommand, TouchEnd,
    TouchMove, TouchStart,
};

#[test]
fn dark_mode_follows_choice_or_system() {
    assert!(resolve_dark_mode(ThemeMode::Dark, Some(false)));
    assert!(!resolve_dark_mode(ThemeMode::Light, Some(true)));
    assert!(resolve_dark_mode(ThemeMode::System, Some(true)));
    assert!(!resolve_dark_mode(ThemeMode::System, Some(false)));
    assert!(resolve_dark_mode(ThemeMode::System, None));
}

#[test]
fn fullscreen_uses_selected_mode_or_first() {
    assert_eq!(fullscreen_target(WindowMode::Windowed, Some(3), 0), FullscreenTarget::Windowed);
    assert_eq!(
        fullscreen_target(WindowMode::BorderlessFullscreen, None, 0),
        FullscreenTarget::Borderless
    );
    assert_eq!(fullscreen_target(WindowMode::Fullscreen, Some(2), 3), FullscreenTarget::Exclusive(2));
    assert_eq!(fullscreen_target(WindowMode::Fullscreen, Some(3), 3), FullscreenTarget::Exclusive(0));
    assert_eq!(fullscreen_target(WindowMode::Fullscreen, None, 1), FullscreenTarget::Exclusive(0));
}

fn text(s: &str) -> KeyPress {
    KeyPress::Text(s.to_string())
}

#[test]
fn shortcuts_with_ctrl() {
    assert_eq!(shortcut_command(&text("z"), true, false), ShortcutCommand::Undo);
    assert_eq!(shortcut_command(&text("y"), true, false), ShortcutCommand::Redo);
    assert_eq!(shortcut_command(&text("s"), true, false), ShortcutCommand::OpenSaveDialog);
    assert_eq!(shortcut_command(&text("b"), true, false), ShortcutCommand::Ignore);
}

#[test]
fn shortcuts_without_ctrl() {
    assert_eq!(
        shortcut_command(&text("b"), false, false),
        ShortcutCommand::SelectTool(CanvasTool::Brush)
    );
    assert_eq!(
        shortcut_command(&text("v"), false, false),
        ShortcutCommand::SelectTool(CanvasTool::Select)
    );
    assert_eq!(
        shortcut_command(&text("e"), false, false),
        ShortcutCommand::SelectTool(CanvasTool::ObjectEraser)
    );
    assert_eq!(shortcut_command(&text("z"), false, false), ShortcutCommand::Ignore);
    assert_eq!(shortcut_command(&text("Z"), true, false), ShortcutCommand::Ignore);
    assert_eq!(shortcut_command(&text("zz"), true, false), ShortcutCommand::Ignore);
    assert_eq!(shortcut_command(&KeyPress::Escape, false, false), ShortcutCommand::Exit);
    assert_eq!(shortcut_command(&KeyPress::Delete, true, false), ShortcutCommand::DeleteSelected);
    assert_eq!(shortcut_command(&KeyPress::Other, true, false), ShortcutCommand::Ignore);
}

#[test]
fn shortcuts_off_while_ui_takes_keyboard() {
    assert_eq!(shortcut_command(&KeyPress::Escape, false, true), ShortcutCommand::Ignore);
    assert_eq!(shortcut_command(&text("z"), true, true), ShortcutCommand::Ignore);
}

#[test]
fn delete_needs_selection_on_canvas() {
    assert_eq!(deletable_selection(Some(2), 3), Some(2));
    assert_eq!(deletable_selection(Some(3), 3), None);
    assert_eq!(deletable_selection(None, 3), None);
}

#[test]
fn select_takes_topmost_hit_or_keeps_selection() {
    assert_eq!(select_topmost(None, &vec![true, false, true, false]), Some(2));
    assert_eq!(select_topmost(Some(1), &vec![false, false]), Some(1));
    assert_eq!(select_topmost(None, &vec![]), None);
    assert_eq!(select_topmost(Some(5), &vec![true]), Some(0));
}

#[test]
fn touch_start_per_tool() {
    assert_eq!(touch_start(CanvasTool::Pan, true, false, false), TouchStart::Pan);
    assert_eq!(touch_start(CanvasTool::Brush, false, false, false), TouchStart::BrushStroke);
    assert_eq!(touch_start(CanvasTool::Select, false, false, false), TouchStart::Select);
    assert_eq!(touch_start(CanvasTool::Select, true, false, false), TouchStart::Ignore);
    assert_eq!(touch_start(CanvasTool::PixelEraser, false, false, false), TouchStart::Erase);
    assert_eq!(touch_start(CanvasTool::ObjectEraser, false, false, false), TouchStart::Erase);
    assert_eq!(touch_start(CanvasTool::Insert, false, true, true), TouchStart::InsertShape);
    assert_eq!(touch_start(CanvasTool::Insert, false, true, false), TouchStart::Ignore);
    assert_eq!(touch_start(CanvasTool::Insert, false, false, true), TouchStart::Ignore);
    assert_eq!(touch_start(CanvasTool::Passthrough, false, true, true), TouchStart::Ignore);
}

#[test]
fn panels_hidden_in_passthrough_and_screenshots() {
    let p = panels_to_show(CanvasTool::Brush, false, true, false);
    assert!(p.welcome && p.toolbar && p.pages_nav && !p.page_manager);
    let p = panels_to_show(CanvasTool::Passthrough, false, true, true);
    assert!(!p.welcome && !p.toolbar && !p.pages_nav && !p.page_manager);
    let p = panels_to_show(CanvasTool::Select, true, true, true);
    assert!(!p.welcome && !p.toolbar && !p.pages_nav && !p.page_manager);
}

#[test]
fn hittest_in_and_after_overlay_mode() {
    let u = cursor_hittest(false, true, CanvasTool::Passthrough);
    assert_eq!(u.set_hittest, Some(false));
    let u = cursor_hittest(true, true, CanvasTool::Brush);
    assert_eq!(u.set_hittest, Some(true));
    assert!(u.overlay_mode_changed);
    let u = cursor_hittest(true, false, CanvasTool::Passthrough);
    assert_eq!(u.set_hittest, Some(true));
    assert!(!u.overlay_mode_changed);
    let u = cursor_hittest(false, false, CanvasTool::Passthrough);
    assert_eq!(u.set_hittest, None);
}

#[test]
fn waiting_after_quit_does_nothing() {
    let w = plan_wait(true, true, true);
    assert!(!w.repaint_helper && !w.redraw);
    let w = plan_wait(false, true, true);
    assert!(w.repaint_helper && w.redraw);
    let w = plan_wait(false, false, true);
    assert!(w.repaint_helper && !w.redraw);
}

#[test]
fn redraw_requests_are_not_ui_input() {
    assert!(!forward_to_ui(false, true));
    assert!(forward_to_ui(true, true));
    assert!(forward_to_ui(false, false));
}

#[test]
fn dialog_actions_compare() {
    assert_ne!(FileDialogAction::Save, FileDialogAction::Load);
    let a = FileDialogAction::Load;
    let b = a;
    assert_eq!(a, b);
}

#[test]
fn touch_move_and_end_per_tool() {
    assert_eq!(touch_move(CanvasTool::Pan), TouchMove::Pan);
    assert_eq!(touch_move(CanvasTool::Brush), TouchMove::ExtendStroke);
    assert_eq!(touch_move(CanvasTool::Select), TouchMove::DragSelection);
    assert_eq!(touch_move(CanvasTool::Insert), TouchMove::Track);
    assert_eq!(touch_move(CanvasTool::PixelEraser), TouchMove::Track);
    assert_eq!(touch_move(CanvasTool::Passthrough), TouchMove::Ignore);
    assert_eq!(touch_end(CanvasTool::Pan), TouchEnd::Release);
    assert_eq!(touch_end(CanvasTool::ObjectEraser), TouchEnd::Release);
    assert_eq!(touch_end(CanvasTool::Brush), TouchEnd::EndStroke);
    assert_eq!(touch_end(CanvasTool::Select), TouchEnd::FinishSelection);
    assert_eq!(touch_end(CanvasTool::Insert), TouchEnd::FinishShape);
    assert_eq!(touch_end(CanvasTool::Passthrough), TouchEnd::Ignore);
}

#[test]
fn drag_moves_or_transforms_selection() {
    assert_eq!(drag_step(Some(1), 2, true), DragStep::Transform(1));
    assert_eq!(drag_step(Some(1), 2, false), DragStep::Move(1));
    assert_eq!(drag_step(Some(2), 2, false), DragStep::Nothing);
    assert_eq!(drag_step(None, 2, true), DragStep::Nothing);
}

#[test]
fn finished_selection_records() {
    let r = selection_records(Some(1), true, true, 3);
    assert_eq!((r.moved, r.transformed), (Some(1), Some(1)));
    let r = selection_records(Some(1), false, false, 3);
    assert_eq!((r.moved, r.transformed), (None, None));
    // a move is recorded even where the selection is gone from the canvas
    let r = selection_records(Some(5), true, true, 3);
    assert_eq!((r.moved, r.transformed), (Some(5), None));
}

#[test]
fn changed_present_mode_is_applied_once() {
    let step = present_mode_step(true);
    assert!(step.apply && !step.present_mode_changed);
    let step = present_mode_step(step.present_mode_changed);
    assert!(!step.apply && !step.present_mode_changed);
}

#[test]
fn marked_objects_leave_the_canvas_in_order() {
    let mut objects = vec!["a", "img1", "b", "img2", "c"];
    drop_marked_objects(&mut objects, &vec![false, true, false, true, false]);
    assert_eq!(objects, vec!["a", "b", "c"]);
    let mut all: Vec<u8> = vec![1, 2];
    drop_marked_objects(&mut all, &vec![true, true]);
    assert!(all.is_empty());
    let mut none: Vec<u8> = vec![];
    drop_marked_objects(&mut none, &vec![]);
    assert!(none.is_empty());
}

#[test]
fn delete_removes_selected_object() {
    let mut objects = vec!['a', 'b', 'c'];
    let mut selected = Some(1);
    assert_eq!(delete_selected_object(&mut objects, &mut selected), Some((1, 'b')));
    assert_eq!(objects, vec!['a', 'c']);
    assert_eq!(selected, None);
    let mut selected = Some(2);
    assert_eq!(delete_selected_object(&mut objects, &mut selected), None);
    assert_eq!(objects, vec!['a', 'c']);
    assert_eq!(selected, Some(2));
}
