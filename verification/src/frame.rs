use crate::input::CanvasTool;
use vstd::prelude::*;

verus! {

/// Which panels a frame draws besides the canvas, which is always drawn.
#[derive(Clone, Copy, Debug, PartialEq, Eq, Structural)]
pub struct PanelPlan {
    pub welcome: bool,
    pub toolbar: bool,
    pub pages_nav: bool,
    pub page_manager: bool,
}

/// Panels are hidden while input passes through the overlay and in the frame
/// that is captured for a screenshot; otherwise the toolbar and the page bar
/// are drawn, and the welcome and page manager windows where they are open.
pub fn panels_to_show(
    tool: CanvasTool,
    screenshot_pending: bool,
    show_welcome_window: bool,
    show_page_management_window: bool,
) -> (plan: PanelPlan)
    ensures
        ({
            let visible = tool != CanvasTool::Passthrough && !screenshot_pending;
            &&& plan.toolbar == visible
            &&& plan.pages_nav == visible
            &&& plan.welcome == (visible && show_welcome_window)
            &&& plan.page_manager == (visible && show_page_management_window)
        }),
{
    let visible = match tool {
        CanvasTool::Passthrough => false,
        _ => !screenshot_pending,
    };
    PanelPlan {
        welcome: visible && show_welcome_window,
        toolbar: visible,
        pages_nav: visible,
        page_manager: visible && show_page_management_window,
    }
}

/// Whether the window takes the pointer after a frame.
#[derive(Clone, Copy, Debug, PartialEq, Eq, Structural)]
pub struct HittestUpdate {
    /// The value to give the window's cursor hit test, if it is to be set.
    pub set_hittest: Option<bool>,
    /// Whether the overlay mode still counts as just changed.
    pub overlay_mode_changed: bool,
}

/// In overlay mode the window takes the pointer unless the passthrough tool
/// is active, and this is set every frame. When overlay mode has just been
/// left, the window takes the pointer again, once.
pub fn cursor_hittest(overlay_mode_changed: bool, is_overlay_mode: bool, tool: CanvasTool) -> (update:
    HittestUpdate)
    ensures
        update.set_hittest == (if is_overlay_mode {
            Some(tool != CanvasTool::Passthrough)
        } else if overlay_mode_changed {
            Some(true)
        } else {
            None::<bool>
        }),
        update.overlay_mode_changed == (overlay_mode_changed && is_overlay_mode),
{
    let mut changed = overlay_mode_changed;
    let mut set_hittest = None;
    if changed && !is_overlay_mode {
        set_hittest = Some(true);
        changed = false;
    }
    if is_overlay_mode {
        let passthrough = match tool {
            CanvasTool::Passthrough => true,
            _ => false,
        };
        set_hittest = Some(!passthrough);
    }
    HittestUpdate { set_hittest, overlay_mode_changed: changed }
}

/// What to do when the event loop is about to wait.
#[derive(Clone, Copy, Debug, PartialEq, Eq, Structural)]
pub struct WaitPlan {
    pub repaint_helper: bool,
    pub redraw: bool,
}

/// Once quitting, nothing; else the helper window gets its repaint, and the
/// main window is redrawn where its renderer exists and the user interface
/// asked for a repaint.
pub fn plan_wait(should_quit: bool, renderer_ready: bool, repaint_requested: bool) -> (plan:
    WaitPlan)
    ensures
        plan.repaint_helper == !should_quit,
        plan.redraw == (!should_quit && renderer_ready && repaint_requested),
{
    if should_quit {
        return WaitPlan { repaint_helper: false, redraw: false };
    }
    WaitPlan { repaint_helper: true, redraw: renderer_ready && repaint_requested }
}

/// A window event goes to the user interface unless it is a redraw request
/// (which is not input, and would make the interface ask for another redraw),
/// or every frame is forced to redraw anyway.
pub fn forward_to_ui(force_redraw_every_frame: bool, is_redraw_request: bool) -> (forward: bool)
    ensures
        forward == (force_redraw_every_frame || !is_redraw_request),
{
    force_redraw_every_frame || !is_redraw_request
}

/// The switch of the presentation mode that a frame carries out.
#[derive(Clone, Copy, Debug, PartialEq, Eq, Structural)]
pub struct PresentModeStep {
    /// Give the surface the configured presentation mode now.
    pub apply: bool,
    /// Whether the mode still counts as changed afterwards.
    pub present_mode_changed: bool,
}

/// A changed presentation mode is applied at the start of the next frame, once.
pub fn present_mode_step(present_mode_changed: bool) -> (step: PresentModeStep)
    ensures
        step.apply == present_mode_changed,
        !step.present_mode_changed,
{
    PresentModeStep { apply: present_mode_changed, present_mode_changed: false }
}

/// The objects whose mark is not set, in their order.
pub open spec fn unmarked<O>(objects: Seq<O>, marked: Seq<bool>) -> Seq<O>
    decreases objects.len(),
{
    if objects.len() == 0 {
        Seq::empty()
    } else {
        (if marked[0] {
            Seq::empty()
        } else {
            seq![objects[0]]
        }) + unmarked(objects.drop_first(), marked.drop_first())
    }
}

/// After a frame, the objects marked for deletion (images the user deleted)
/// leave the canvas; the others stay in their order. `marked[i]` is the mark
/// of object `i`.
pub fn drop_marked_objects<O>(objects: &mut Vec<O>, marked: &Vec<bool>)
    requires
        marked@.len() == old(objects)@.len(),
    ensures
        final(objects)@ == unmarked(old(objects)@, marked@),
        final(objects)@ == Seq::new(old(objects)@.len(), |i: int| (old(objects)@[i], marked@[i])).filter(
            |p: (O, bool)| !p.1,
        ).map_values(|p: (O, bool)| p.0),
{
    let ghost before = objects@;
    let mut i = objects.len();
    proof {
        assert(before.take(i as int) =~= before);
        assert(before.skip(i as int) =~= Seq::<O>::empty());
        assert(before.take(i as int) + unmarked(before.skip(i as int), marked@.skip(i as int)) =~= before);
    }
    while i > 0
        invariant
            i <= before.len(),
            marked@.len() == before.len(),
            objects@ == before.take(i as int) + unmarked(before.skip(i as int), marked@.skip(i as int)),
        decreases i,
    {
        let j = i - 1;
        proof {
            assert(before.skip(j as int).drop_first() =~= before.skip(i as int));
            assert(marked@.skip(j as int).drop_first() =~= marked@.skip(i as int));
            assert(before.skip(j as int)[0] == before[j as int]);
            assert(marked@.skip(j as int)[0] == marked@[j as int]);
        }
        if marked[j] {
            objects.remove(j);
            proof {
                assert(objects@ =~= before.take(j as int) + unmarked(before.skip(j as int), marked@.skip(j as int)));
            }
        } else {
            proof {
                assert(objects@ =~= before.take(j as int) + unmarked(before.skip(j as int), marked@.skip(j as int)));
            }
        }
        i = j;
    }
    proof {
        assert(before.take(0) =~= Seq::<O>::empty());
        assert(before.skip(0) =~= before);
        assert(marked@.skip(0) =~= marked@);
        assert(objects@ =~= unmarked(before, marked@));
        lemma_unmarked_keeps_exactly_unmarked(before, marked@);
    }
}

/// Dropping marked objects keeps, in order, exactly the objects whose own
/// mark is not set: it is the list of (object, mark) pairs filtered on the
/// mark, with the marks taken off.
pub proof fn lemma_unmarked_keeps_exactly_unmarked<O>(objects: Seq<O>, marked: Seq<bool>)
    requires
        objects.len() == marked.len(),
    ensures
        unmarked(objects, marked) == Seq::new(objects.len(), |i: int| (objects[i], marked[i])).filter(
            |p: (O, bool)| !p.1,
        ).map_values(|p: (O, bool)| p.0),
    decreases objects.len(),
{
    let pairs = Seq::new(objects.len(), |i: int| (objects[i], marked[i]));
    let pred = |p: (O, bool)| !p.1;
    let strip = |p: (O, bool)| p.0;
    if objects.len() == 0 {
        reveal_with_fuel(Seq::filter, 1);
        assert(pairs.filter(pred).map_values(strip) =~= Seq::<O>::empty());
    } else {
        let tail_o = objects.drop_first();
        let tail_m = marked.drop_first();
        let tail_pairs = Seq::new(tail_o.len(), |i: int| (tail_o[i], tail_m[i]));
        lemma_unmarked_keeps_exactly_unmarked(tail_o, tail_m);
        let head = seq![pairs[0]];
        assert(pairs =~= head + tail_pairs);
        Seq::filter_distributes_over_add(head, tail_pairs, pred);
        reveal_with_fuel(Seq::filter, 2);
        assert(head.drop_last() =~= Seq::<(O, bool)>::empty());
        if marked[0] {
            assert(head.filter(pred) =~= Seq::<(O, bool)>::empty());
        } else {
            assert(head.filter(pred) =~= head);
        }
        let a = head.filter(pred);
        let b = tail_pairs.filter(pred);
        assert((a + b).map_values(strip) =~= a.map_values(strip) + b.map_values(strip));
        if marked[0] {
            assert(a.map_values(strip) =~= Seq::<O>::empty());
        } else {
            assert(a.map_values(strip) =~= seq![objects[0]]);
        }
    }
}

} // verus!
