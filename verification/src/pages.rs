use std::collections::HashMap;
use vstd::prelude::*;

verus! {

/// One page of the whiteboard: what is drawn on it and its undo history.
pub struct PageState<Canvas, History> {
    pub canvas: Canvas,
    pub history: History,
}

impl<Canvas: Default, History: Default> Default for PageState<Canvas, History> {
    fn default() -> (page: Self)
        ensures
            call_ensures(Canvas::default, (), page.canvas),
            call_ensures(History::default, (), page.history),
    {
        PageState { canvas: Canvas::default(), history: History::default() }
    }
}

/// What the page navigation bar asks for.
pub enum PageAction {
    NoChange,
    Previous,
    Next,
    New,
}

/// The page data of an [`AppState`] as a mathematical value.
#[verifier::ext_equal]
pub struct PageModel<Canvas, History> {
    pub pages: Seq<PageState<Canvas, History>>,
    pub current: int,
    pub canvas: Canvas,
    pub history: History,
}

impl<Canvas, History> PageModel<Canvas, History> {
    /// The current page index names one of the slots.
    pub open spec fn wf(self) -> bool {
        0 <= self.current < self.pages.len()
    }

    /// The pages as the user sees them: the current page is the one being edited.
    pub open spec fn live(self) -> Seq<PageState<Canvas, History>> {
        self.pages.update(self.current, PageState { canvas: self.canvas, history: self.history })
    }

    /// Shows page `i`: the edited page is filed into its slot and the content of
    /// slot `i` becomes the one being edited, its slot keeping what the edited
    /// content was exchanged with.
    pub open spec fn switch(self, i: int) -> Self {
        if i == self.current {
            self
        } else {
            let filed = self.pages.update(
                self.current,
                PageState { canvas: self.canvas, history: self.history },
            );
            PageModel {
                pages: filed.update(i, self.pages[self.current]),
                current: i,
                canvas: self.pages[i].canvas,
                history: self.pages[i].history,
            }
        }
    }

    /// Files the edited page into its slot, appends the page `slot` and edits
    /// `(fresh_canvas, fresh_history)` as the new, last page.
    pub open spec fn add_page(
        self,
        slot: PageState<Canvas, History>,
        fresh_canvas: Canvas,
        fresh_history: History,
    ) -> Self {
        PageModel {
            pages: self.live().push(slot),
            current: self.pages.len() as int,
            canvas: fresh_canvas,
            history: fresh_history,
        }
    }
}

/// The editing state of the whiteboard.
///
/// The page being edited lives in `canvas` and `history`; its slot in `pages`
/// is only brought up to date when another page is shown. The other slots
/// hold the other pages. The type parameters are the representations that the
/// application picks for a canvas, an undo history, a point, a displacement,
/// a transform handle, a transform and an in-progress stroke.
pub struct AppState<Canvas, History, Point, Delta, Handle, Transform, Stroke> {
    pub pages: Vec<PageState<Canvas, History>>,
    pub current_page: usize,
    pub canvas: Canvas,
    pub history: History,
    pub selected_object_index: Option<usize>,
    pub drag_start_pos: Option<Point>,
    pub dragged_handle: Option<Handle>,
    pub drag_move_accumulated_delta: Delta,
    pub drag_original_transform: Option<Transform>,
    pub active_strokes: HashMap<u64, Stroke>,
    pub is_drawing: bool,
    pub show_welcome_window: bool,
}

impl<Canvas, History, Point, Delta, Handle, Transform, Stroke> AppState<
    Canvas,
    History,
    Point,
    Delta,
    Handle,
    Transform,
    Stroke,
> {
    /// The current page index names one of the pages.
    pub open spec fn wf(&self) -> bool {
        self.current_page < self.pages.len()
    }

    /// The page data of this state.
    pub open spec fn model(&self) -> PageModel<Canvas, History> {
        PageModel {
            pages: self.pages@,
            current: self.current_page as int,
            canvas: self.canvas,
            history: self.history,
        }
    }

    /// The pages as the user sees them: the current page is the one being edited.
    pub open spec fn live_pages(&self) -> Seq<PageState<Canvas, History>> {
        self.model().live()
    }

    /// Nothing is selected, dragged or being drawn.
    pub open spec fn interaction_cleared(&self) -> bool where Delta: Default {
        &&& self.selected_object_index is None
        &&& self.drag_start_pos is None
        &&& self.dragged_handle is None
        &&& call_ensures(Delta::default, (), self.drag_move_accumulated_delta)
        &&& self.drag_original_transform is None
        &&& self.active_strokes@ == Map::<u64, Stroke>::empty()
        &&& !self.is_drawing
    }

    /// The page data of two states agree.
    pub open spec fn same_pages(&self, other: &Self) -> bool {
        &&& self.pages@ == other.pages@
        &&& self.current_page == other.current_page
        &&& self.canvas == other.canvas
        &&& self.history == other.history
    }

    /// The selection, drag and stroke fields of two states agree.
    pub open spec fn same_interaction(&self, other: &Self) -> bool {
        &&& self.selected_object_index == other.selected_object_index
        &&& self.drag_start_pos == other.drag_start_pos
        &&& self.dragged_handle == other.dragged_handle
        &&& self.drag_move_accumulated_delta == other.drag_move_accumulated_delta
        &&& self.drag_original_transform == other.drag_original_transform
        &&& self.active_strokes@ == other.active_strokes@
        &&& self.is_drawing == other.is_drawing
    }

    /// The canvas that saving writes: that of slot `i` when a page is named,
    /// else the one being edited.
    pub open spec fn saved_canvas(&self, page_index: Option<usize>) -> Canvas {
        match page_index {
            Some(i) => self.pages@[i as int].canvas,
            None => self.canvas,
        }
    }

    /// Everything but the interaction fields agrees.
    pub open spec fn same_except_interaction(&self, other: &Self) -> bool {
        &&& self.same_pages(other)
        &&& self.show_welcome_window == other.show_welcome_window
    }
}

/// Drops the selection, any drag in progress and any stroke being drawn.
pub fn clear_interaction_state<Canvas, History, Point, Delta: Default, Handle, Transform, Stroke>(
    state: &mut AppState<Canvas, History, Point, Delta, Handle, Transform, Stroke>,
)
    ensures
        final(state).interaction_cleared(),
        final(state).same_except_interaction(old(state)),
{
    state.selected_object_index = None;
    state.drag_start_pos = None;
    state.dragged_handle = None;
    state.drag_move_accumulated_delta = Delta::default();
    state.drag_original_transform = None;
    state.active_strokes.clear();
    state.is_drawing = false;
}

/// Shows page `page_index`: the edited page goes back to its slot and the
/// chosen page's content becomes the one being edited.
pub fn switch_to_page_state<Canvas, History, Point, Delta: Default, Handle, Transform, Stroke>(
    state: &mut AppState<Canvas, History, Point, Delta, Handle, Transform, Stroke>,
    page_index: usize,
)
    requires
        page_index == old(state).current_page || (old(state).wf() && page_index < old(
            state,
        ).pages.len()),
    ensures
        old(state).wf() ==> final(state).wf(),
        final(state).model() == old(state).model().switch(page_index as int),
        page_index == old(state).current_page ==> final(state).same_pages(old(state)),
        old(state).wf() ==> final(state).live_pages() == old(state).live_pages(),
        old(state).wf() ==> final(state).canvas == old(state).live_pages()[page_index as int].canvas,
        old(state).wf() ==> final(state).history == old(state).live_pages()[page_index as int].history,
        final(state).interaction_cleared(),
        final(state).show_welcome_window == old(state).show_welcome_window,
{
    let prev = state.current_page;
    if prev != page_index {
        std::mem::swap(&mut state.canvas, &mut state.pages[prev].canvas);
        std::mem::swap(&mut state.history, &mut state.pages[prev].history);
        state.current_page = page_index;
        std::mem::swap(&mut state.canvas, &mut state.pages[page_index].canvas);
        std::mem::swap(&mut state.history, &mut state.pages[page_index].history);
    }
    clear_interaction_state(state);
    proof {
        if prev != page_index {
            assert(state.pages@ =~= old(state).model().switch(page_index as int).pages);
        }
        if old(state).wf() {
            lemma_switch_keeps_live_pages(old(state).model(), page_index as int);
            lemma_switch_edits_chosen_page(old(state).model(), page_index as int);
        }
    }
}

/// Files the edited page back into its slot, appends an empty page and makes
/// it the one being edited.
pub fn add_new_page_state<
    Canvas: Default,
    History: Default,
    Point,
    Delta: Default,
    Handle,
    Transform,
    Stroke,
>(state: &mut AppState<Canvas, History, Point, Delta, Handle, Transform, Stroke>)
    requires
        old(state).wf(),
    ensures
        final(state).wf(),
        final(state).current_page == old(state).pages.len(),
        final(state).model() == old(state).model().add_page(
            final(state).pages@.last(),
            final(state).canvas,
            final(state).history,
        ),
        final(state).live_pages() == old(state).live_pages().push(
            PageState { canvas: final(state).canvas, history: final(state).history },
        ),
        call_ensures(Canvas::default, (), final(state).pages@.last().canvas),
        call_ensures(History::default, (), final(state).pages@.last().history),
        call_ensures(Canvas::default, (), final(state).canvas),
        call_ensures(History::default, (), final(state).history),
        final(state).interaction_cleared(),
        final(state).show_welcome_window == old(state).show_welcome_window,
{
    let prev = state.current_page;
    let mut canvas = Canvas::default();
    std::mem::swap(&mut canvas, &mut state.canvas);
    state.pages[prev].canvas = canvas;
    let mut history = History::default();
    std::mem::swap(&mut history, &mut state.history);
    state.pages[prev].history = history;
    state.pages.push(PageState::default());
    let new_idx = state.pages.len() - 1;
    state.current_page = new_idx;
    clear_interaction_state(state);
    proof {
        assert(state.pages@ =~= old(state).live_pages().push(state.pages@.last()));
        lemma_add_page_extends_live(
            old(state).model(),
            state.pages@.last(),
            state.canvas,
            state.history,
        );
    }
}

/// Appends a page holding a canvas read from a file, with a fresh history,
/// and makes it the one being edited. The edited page is not filed back into
/// its slot first, so its slot keeps what it held when it was last filed.
pub fn open_loaded_page<
    Canvas: Clone,
    History: Default + Clone,
    Point,
    Delta: Default,
    Handle,
    Transform,
    Stroke,
>(state: &mut AppState<Canvas, History, Point, Delta, Handle, Transform, Stroke>, canvas: Canvas)
    ensures
        final(state).wf(),
        final(state).current_page == old(state).pages.len(),
        final(state).pages.len() == old(state).pages.len() + 1,
        final(state).pages@.drop_last() == old(state).pages@,
        final(state).live_pages().drop_last() == old(state).pages@,
        cloned(canvas, final(state).pages@.last().canvas),
        cloned(final(state).history, final(state).pages@.last().history),
        final(state).canvas == canvas,
        call_ensures(History::default, (), final(state).history),
        final(state).interaction_cleared(),
        !final(state).show_welcome_window,
{
    let page = PageState { canvas, history: History::default() };
    let idx = state.pages.len();
    let copy = PageState { canvas: page.canvas.clone(), history: page.history.clone() };
    state.pages.push(copy);
    state.current_page = idx;
    state.canvas = page.canvas;
    state.history = page.history;
    clear_interaction_state(state);
    state.show_welcome_window = false;
    proof {
        assert(state.live_pages().drop_last() =~= old(state).pages@);
    }
}

/// The canvas to write to a file: that of the page slot `page_index` when one
/// is given, else the one being edited.
pub fn canvas_for_save<'a, Canvas, History, Point, Delta, Handle, Transform, Stroke>(
    state: &'a AppState<Canvas, History, Point, Delta, Handle, Transform, Stroke>,
    page_index: Option<usize>,
) -> (canvas: &'a Canvas)
    requires
        page_index matches Some(i) ==> i < state.pages.len(),
    ensures
        *canvas == state.saved_canvas(page_index),
{
    match page_index {
        Some(i) => &state.pages[i].canvas,
        None => &state.canvas,
    }
}

/// At start-up, the welcome window stays hidden when the user asked not to see it.
pub fn apply_welcome_preference<Canvas, History, Point, Delta, Handle, Transform, Stroke>(
    state: &mut AppState<Canvas, History, Point, Delta, Handle, Transform, Stroke>,
    show_on_start: bool,
)
    ensures
        final(state).show_welcome_window == (old(state).show_welcome_window && show_on_start),
        final(state).same_pages(old(state)),
        final(state).same_interaction(old(state)),
{
    if !show_on_start {
        state.show_welcome_window = false;
    }
}

/// Showing another page never changes the content of any page as the user sees it.
pub proof fn lemma_switch_keeps_live_pages<Canvas, History>(
    book: PageModel<Canvas, History>,
    i: int,
)
    requires
        book.wf(),
        0 <= i < book.pages.len(),
    ensures
        book.switch(i).wf(),
        book.switch(i).live() == book.live(),
{
    if i != book.current {
        assert(book.switch(i).live() =~= book.live());
    }
}

/// After showing page `i`, the content being edited is what the user saw as page `i`.
pub proof fn lemma_switch_edits_chosen_page<Canvas, History>(
    book: PageModel<Canvas, History>,
    i: int,
)
    requires
        book.wf(),
        0 <= i < book.pages.len(),
    ensures
        book.switch(i).current == i,
        book.switch(i).canvas == book.live()[i].canvas,
        book.switch(i).history == book.live()[i].history,
{
}

/// Showing page `i` and then the page shown before gives back exactly the
/// state before: every slot, and the content being edited.
pub proof fn lemma_switch_round_trip<Canvas, History>(book: PageModel<Canvas, History>, i: int)
    requires
        book.wf(),
        0 <= i < book.pages.len(),
    ensures
        book.switch(i).switch(book.current) == book,
{
    if i != book.current {
        assert(book.switch(i).switch(book.current).pages =~= book.pages);
    }
}

/// Showing the page already shown changes nothing.
pub proof fn lemma_switch_to_current_is_identity<Canvas, History>(book: PageModel<Canvas, History>)
    requires
        book.wf(),
    ensures
        book.switch(book.current) == book,
{
}

/// Adding a page keeps every existing page as the user saw it and puts the
/// new content last.
pub proof fn lemma_add_page_extends_live<Canvas, History>(
    book: PageModel<Canvas, History>,
    slot: PageState<Canvas, History>,
    fresh_canvas: Canvas,
    fresh_history: History,
)
    requires
        book.wf(),
    ensures
        book.add_page(slot, fresh_canvas, fresh_history).wf(),
        book.add_page(slot, fresh_canvas, fresh_history).live() == book.live().push(
            PageState { canvas: fresh_canvas, history: fresh_history },
        ),
{
    assert(book.add_page(slot, fresh_canvas, fresh_history).live() =~= book.live().push(
        PageState { canvas: fresh_canvas, history: fresh_history },
    ));
}

/// After adding a page, showing the page that was being edited brings its
/// content back unchanged.
pub proof fn lemma_add_page_then_return<Canvas, History>(
    book: PageModel<Canvas, History>,
    slot: PageState<Canvas, History>,
    fresh_canvas: Canvas,
    fresh_history: History,
)
    requires
        book.wf(),
    ensures
        book.add_page(slot, fresh_canvas, fresh_history).switch(book.current).canvas
            == book.canvas,
        book.add_page(slot, fresh_canvas, fresh_history).switch(book.current).history
            == book.history,
        book.add_page(slot, fresh_canvas, fresh_history).switch(book.current).live()
            == book.live().push(PageState { canvas: fresh_canvas, history: fresh_history }),
{
    lemma_add_page_extends_live(book, slot, fresh_canvas, fresh_history);
    let added = book.add_page(slot, fresh_canvas, fresh_history);
    lemma_switch_keeps_live_pages(added, book.current);
    lemma_switch_edits_chosen_page(added, book.current);
}

/// Saving a named page other than the one being edited writes what the user
/// sees on that page; saving without a page writes the edited page.
pub proof fn lemma_saved_canvas_is_live<Canvas, History, Point, Delta, Handle, Transform, Stroke>(
    state: AppState<Canvas, History, Point, Delta, Handle, Transform, Stroke>,
    page_index: Option<usize>,
)
    requires
        state.wf(),
        page_index matches Some(i) ==> i < state.pages.len() && i != state.current_page,
    ensures
        state.saved_canvas(page_index) == match page_index {
            Some(i) => state.live_pages()[i as int].canvas,
            None => state.live_pages()[state.current_page as int].canvas,
        },
{
}

} // verus!
