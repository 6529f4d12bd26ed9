//! Interaction state of the session view: scrolling of the message
//! viewport, the scrollbar, reasoning blocks folded open or shut, and the
//! sidebar's visibility, focus and selections.
use vstd::prelude::*;
use crate::tui::session_layout::{
    chrome_after_layout, close_button_spec, main_layout_spec, open_button_spec,
    overlay_sidebar_area_spec, place_sidebar_open_button, place_sidebar_overlay, plan_main_layout,
    plan_render_layout, render_layout_spec, MainPaneLayout, SessionRenderLayout,
    SessionSidebarLayout,
};

verus! {

/// Width above which the sidebar docks beside the messages.
pub const SESSION_SIDEBAR_WIDE_THRESHOLD: u16 = 120;

/// Lines scrolled by one mouse wheel step.
pub const MOUSE_SCROLL_LINES: usize = 3;

/// A screen rectangle in cells.
#[derive(Clone, Copy, Debug, PartialEq, Eq, Structural)]
pub struct Rect {
    pub x: u16,
    pub y: u16,
    pub width: u16,
    pub height: u16,
}

#[derive(Clone, Copy, Debug, PartialEq, Eq, Structural)]
pub enum SidebarMode {
    Auto,
    Show,
    Hide,
}

#[derive(Clone, Copy, Debug, PartialEq, Eq, Structural)]
pub struct SidebarLifecycleState {
    pub mode: SidebarMode,
    pub visible: bool,
    pub process_selected: usize,
    pub process_focus: bool,
    pub child_session_selected: usize,
    pub child_session_focus: bool,
}

impl SidebarLifecycleState {
    pub fn new() -> (r: Self)
        ensures
            r.mode == SidebarMode::Auto,
            !r.visible && !r.process_focus && !r.child_session_focus,
            r.process_selected == 0 && r.child_session_selected == 0,
    {
        SidebarLifecycleState {
            mode: SidebarMode::Auto,
            visible: false,
            process_selected: 0,
            process_focus: false,
            child_session_selected: 0,
            child_session_focus: false,
        }
    }
}

/// Whether the sidebar shows at this terminal width.
pub open spec fn sidebar_visible_spec(l: SidebarLifecycleState, width: u16) -> bool {
    match l.mode {
        SidebarMode::Hide => false,
        SidebarMode::Show => true,
        SidebarMode::Auto => width > SESSION_SIDEBAR_WIDE_THRESHOLD || l.visible,
    }
}

pub fn session_sidebar_visible(lifecycle: &SidebarLifecycleState, terminal_width: u16) -> (r: bool)
    ensures
        r == sidebar_visible_spec(*lifecycle, terminal_width),
{
    match lifecycle.mode {
        SidebarMode::Hide => false,
        SidebarMode::Show => true,
        SidebarMode::Auto => terminal_width > SESSION_SIDEBAR_WIDE_THRESHOLD || lifecycle.visible,
    }
}

pub open spec fn point_in_rect_spec(area: Option<Rect>, col: u16, row: u16) -> bool {
    match area {
        None => false,
        Some(a) => {
            let max_x = if a.x + a.width > u16::MAX { u16::MAX as int } else { a.x + a.width };
            let max_y = if a.y + a.height > u16::MAX { u16::MAX as int } else { a.y + a.height };
            col >= a.x && col < max_x && row >= a.y && row < max_y
        },
    }
}

/// Is the cell inside the rectangle (edges saturate at the screen limit)?
pub fn point_in_optional_rect(area: Option<Rect>, col: u16, row: u16) -> (r: bool)
    ensures
        r == point_in_rect_spec(area, col, row),
{
    let a = match area {
        Some(a) => a,
        None => return false,
    };
    let max_x = a.x.saturating_add(a.width);
    let max_y = a.y.saturating_add(a.height);
    col >= a.x && col < max_x && row >= a.y && row < max_y
}

pub open spec fn scrollbar_offset_spec(area: Option<Rect>, row: u16, max_scroll: usize) -> int {
    match area {
        None => 0,
        Some(a) => if max_scroll == 0 || a.height <= 1 {
            0
        } else {
            let top = a.y as int;
            let bottom = if a.y + (a.height - 1) > u16::MAX { u16::MAX as int } else { a.y + (a.height - 1) };
            let clamped = if row < top { top } else if row > bottom { bottom } else { row as int };
            let relative = clamped - top;
            let track = a.height - 1;
            (relative * max_scroll + track / 2) / track
        },
    }
}

/// The scroll offset that a scrollbar row stands for, rounded to nearest.
pub fn map_scrollbar_row_to_offset(area: Option<Rect>, row: u16, max_scroll: usize) -> (r: usize)
    ensures
        r == scrollbar_offset_spec(area, row, max_scroll),
        r <= max_scroll,
{
    let a = match area {
        Some(a) => a,
        None => return 0,
    };
    if max_scroll == 0 || a.height <= 1 {
        return 0;
    }
    let top = a.y;
    let bottom = a.y.saturating_add(a.height - 1);
    let clamped = if row < top { top } else if row > bottom { bottom } else { row };
    let relative = (clamped - top) as u128;
    let track = (a.height - 1) as u128;
    let ms = max_scroll as u128;
    proof {
        let r: int = relative as int;
        let t: int = track as int;
        let m: int = ms as int;
        assert(r * m <= 0xffff * 0xffff_ffff_ffff_ffffint) by (nonlinear_arith)
            requires 0 <= r <= 0xffff, 0 <= m <= 0xffff_ffff_ffff_ffffint;
        assert((r * m + t / 2) / t <= m) by (nonlinear_arith)
            requires 0 <= r <= t, t >= 1, m >= 0;
    }
    let v = (relative * ms + track / 2) / track;
    v as usize
}

// ---------------------------------------------------------------------------
// Viewport and reasoning state
// ---------------------------------------------------------------------------

/// A foldable reasoning block's toggle line.
#[derive(Clone, Debug)]
pub struct ThinkingToggleHit {
    pub line_index: usize,
    pub reasoning_id: String,
}

#[derive(Clone, Copy, Debug, PartialEq, Eq, Structural)]
pub struct SessionMessageViewportState {
    pub scroll_offset: usize,
    pub rendered_line_count: usize,
    pub messages_viewport_height: usize,
    pub render_model_memo_key: Option<u64>,
    pub last_messages_area: Option<Rect>,
    pub last_scrollbar_area: Option<Rect>,
    pub scrollbar_drag_active: bool,
}

impl SessionMessageViewportState {
    pub fn new() -> (r: Self)
        ensures
            r.scroll_offset == 0 && r.rendered_line_count == 0 && r.messages_viewport_height == 0,
            r.render_model_memo_key is None,
            r.last_messages_area is None && r.last_scrollbar_area is None,
            !r.scrollbar_drag_active,
    {
        SessionMessageViewportState {
            scroll_offset: 0,
            rendered_line_count: 0,
            messages_viewport_height: 0,
            render_model_memo_key: None,
            last_messages_area: None,
            last_scrollbar_area: None,
            scrollbar_drag_active: false,
        }
    }
}

/// Reasoning blocks folded open (no id twice) and the toggle lines on screen.
#[derive(Clone, Debug)]
pub struct SessionReasoningState {
    pub expanded: Vec<String>,
    pub toggle_hits: Vec<ThinkingToggleHit>,
}

pub open spec fn ids_view(v: Seq<String>) -> Seq<Seq<char>> {
    v.map_values(|s: String| s@)
}

pub open spec fn no_repeats(v: Seq<Seq<char>>) -> bool {
    forall|i: int, j: int| 0 <= i < j < v.len() ==> v[i] != v[j]
}

impl SessionReasoningState {
    pub open spec fn wf(&self) -> bool {
        no_repeats(ids_view(self.expanded@))
    }

    /// The reasoning ids folded open.
    pub open spec fn expanded_set(&self) -> Set<Seq<char>> {
        ids_view(self.expanded@).to_set()
    }

    pub fn new() -> (r: Self)
        ensures
            r.wf(),
            r.expanded_set() == Set::<Seq<char>>::empty(),
            r.toggle_hits@.len() == 0,
    {
        let r = SessionReasoningState { expanded: Vec::new(), toggle_hits: Vec::new() };
        assert(ids_view(r.expanded@) =~= Seq::<Seq<char>>::empty());
        assert(r.expanded_set() =~= Set::<Seq<char>>::empty());
        r
    }
}

#[derive(Clone, Debug)]
pub enum SessionInteractionAction {
    SetScrollOffset(usize),
    SetScrollbarDrag(bool),
    ToggleReasoning(String),
}

pub open spec fn max_scroll_spec(v: SessionMessageViewportState) -> int {
    if v.rendered_line_count >= v.messages_viewport_height {
        v.rendered_line_count - v.messages_viewport_height
    } else {
        0
    }
}

/// Lines by which the viewport can scroll: content beyond the viewport.
pub fn max_scroll_offset_for_viewport(viewport: &SessionMessageViewportState) -> (r: usize)
    ensures
        r == max_scroll_spec(*viewport),
{
    viewport.rendered_line_count.saturating_sub(viewport.messages_viewport_height)
}

fn remove_id(v: &mut Vec<String>, id: &String) -> (found: bool)
    requires
        no_repeats(ids_view(old(v)@)),
    ensures
        found == ids_view(old(v)@).contains(id@),
        !found ==> final(v)@ == old(v)@,
        no_repeats(ids_view(final(v)@)),
        ids_view(final(v)@).to_set() == ids_view(old(v)@).to_set().remove(id@),
{
    let mut k: usize = 0;
    while k < v.len()
        invariant
            0 <= k <= v@.len(),
            v@ == old(v)@,
            no_repeats(ids_view(old(v)@)),
            forall|j: int| 0 <= j < k ==> v@[j]@ != id@,
        decreases v.len() - k,
    {
        if v[k] == *id {
            let ghost before = ids_view(v@);
            v.remove(k);
            proof {
                assert(ids_view(v@) =~= before.remove(k as int));
                assert(before[k as int] == id@);
                assert(before.contains(id@));
                assert forall|i: int, j: int| 0 <= i < j < ids_view(v@).len() implies ids_view(v@)[i] != ids_view(v@)[j] by {
                    let bi = if i < k { i } else { i + 1 };
                    let bj = if j < k { j } else { j + 1 };
                    assert(ids_view(v@)[i] == before[bi]);
                    assert(ids_view(v@)[j] == before[bj]);
                }
                assert forall|x: Seq<char>| ids_view(v@).contains(x) <==> before.to_set().remove(id@).contains(x) by {
                    if ids_view(v@).contains(x) {
                        let w = choose|w: int| 0 <= w < ids_view(v@).len() && ids_view(v@)[w] == x;
                        if w < k {
                            assert(before[w] == x);
                            assert(before[w] != before[k as int]);
                        } else {
                            assert(before[w + 1] == x);
                            assert(before[w + 1] != before[k as int]);
                        }
                        assert(x != id@);
                    }
                    if before.to_set().remove(id@).contains(x) {
                        let w = choose|w: int| 0 <= w < before.len() && before[w] == x;
                        assert(w != k);
                        if w < k {
                            assert(ids_view(v@)[w] == x);
                        } else {
                            assert(ids_view(v@)[w - 1] == x);
                        }
                    }
                }
                assert(ids_view(v@).to_set() =~= before.to_set().remove(id@));
            }
            return true;
        }
        k = k + 1;
    }
    proof {
        assert(!ids_view(v@).contains(id@)) by {
            if ids_view(v@).contains(id@) {
                let w = choose|w: int| 0 <= w < ids_view(v@).len() && ids_view(v@)[w] == id@;
                assert(v@[w]@ == id@);
            }
        }
        assert(ids_view(v@).to_set() =~= ids_view(v@).to_set().remove(id@));
    }
    false
}

/// Folds a reasoning block open when it is shut, shut when it is open.
pub fn toggle_reasoning(reasoning: &mut SessionReasoningState, id: &String)
    requires
        old(reasoning).wf(),
    ensures
        final(reasoning).wf(),
        final(reasoning).expanded_set() == if old(reasoning).expanded_set().contains(id@) {
            old(reasoning).expanded_set().remove(id@)
        } else {
            old(reasoning).expanded_set().insert(id@)
        },
        final(reasoning).toggle_hits == old(reasoning).toggle_hits,
{
    let ghost before = ids_view(reasoning.expanded@);
    let found = remove_id(&mut reasoning.expanded, id);
    if !found {
        reasoning.expanded.push(id.clone());
        proof {
            assert(ids_view(reasoning.expanded@) =~= before.push(id@));
            assert(ids_view(reasoning.expanded@).to_set() =~= before.to_set().insert(id@)) by {
                assert forall|x: Seq<char>| ids_view(reasoning.expanded@).contains(x) <==> before.to_set().insert(id@).contains(x) by {
                    if ids_view(reasoning.expanded@).contains(x) {
                        let w = choose|w: int| 0 <= w < before.len() + 1 && ids_view(reasoning.expanded@)[w] == x;
                        if w < before.len() {
                            assert(before[w] == x);
                        }
                    }
                    if before.contains(x) {
                        let w = choose|w: int| 0 <= w < before.len() && before[w] == x;
                        assert(ids_view(reasoning.expanded@)[w] == x);
                    }
                    if x == id@ {
                        assert(ids_view(reasoning.expanded@)[before.len() as int] == x);
                    }
                }
            }
        }
    }
}

/// The effect of an interaction on the viewport and reasoning state.
pub fn apply_session_interaction_action(
    viewport: &mut SessionMessageViewportState,
    reasoning: &mut SessionReasoningState,
    action: &SessionInteractionAction,
)
    requires
        old(reasoning).wf(),
    ensures
        final(reasoning).wf(),
        match *action {
            SessionInteractionAction::SetScrollOffset(o) => {
                &&& final(viewport).scroll_offset == if o <= max_scroll_spec(*old(viewport)) {
                    o as int
                } else {
                    max_scroll_spec(*old(viewport))
                }
                &&& *final(viewport) == SessionMessageViewportState {
                    scroll_offset: final(viewport).scroll_offset,
                    ..*old(viewport)
                }
                &&& *final(reasoning) == *old(reasoning)
            },
            SessionInteractionAction::SetScrollbarDrag(b) => {
                &&& *final(viewport) == SessionMessageViewportState {
                    scrollbar_drag_active: b,
                    ..*old(viewport)
                }
                &&& *final(reasoning) == *old(reasoning)
            },
            SessionInteractionAction::ToggleReasoning(id) => {
                &&& *final(viewport) == *old(viewport)
                &&& final(reasoning).toggle_hits == old(reasoning).toggle_hits
                &&& final(reasoning).expanded_set() == if old(reasoning).expanded_set().contains(id@) {
                    old(reasoning).expanded_set().remove(id@)
                } else {
                    old(reasoning).expanded_set().insert(id@)
                }
            },
        },
{
    match action {
        SessionInteractionAction::SetScrollOffset(offset) => {
            let m = max_scroll_offset_for_viewport(viewport);
            viewport.scroll_offset = if *offset <= m { *offset } else { m };
        },
        SessionInteractionAction::SetScrollbarDrag(active) => {
            viewport.scrollbar_drag_active = *active;
        },
        SessionInteractionAction::ToggleReasoning(reasoning_id) => {
            toggle_reasoning(reasoning, reasoning_id);
        },
    }
}


// ---------------------------------------------------------------------------
// The session view
// ---------------------------------------------------------------------------

/// Sidebar chrome recorded by the last render: lifecycle and the clickable
/// areas of the backdrop and the open and close buttons.
#[derive(Clone, Copy, Debug, PartialEq, Eq, Structural)]
pub struct SessionSidebarChromeState {
    pub lifecycle: SidebarLifecycleState,
    pub backdrop_area: Option<Rect>,
    pub close_button_area: Option<Rect>,
    pub open_button_area: Option<Rect>,
    pub last_terminal_width: u16,
}

impl SessionSidebarChromeState {
    pub fn new() -> (r: Self)
        ensures
            r == initial_sidebar_chrome(),
    {
        SessionSidebarChromeState {
            lifecycle: SidebarLifecycleState::new(),
            backdrop_area: None,
            close_button_area: None,
            open_button_area: None,
            last_terminal_width: 0,
        }
    }
}

pub open spec fn initial_lifecycle() -> SidebarLifecycleState {
    SidebarLifecycleState {
        mode: SidebarMode::Auto,
        visible: false,
        process_selected: 0,
        process_focus: false,
        child_session_selected: 0,
        child_session_focus: false,
    }
}

pub open spec fn initial_sidebar_chrome() -> SessionSidebarChromeState {
    SessionSidebarChromeState {
        lifecycle: initial_lifecycle(),
        backdrop_area: None,
        close_button_area: None,
        open_button_area: None,
        last_terminal_width: 0,
    }
}

/// The session view in mathematical terms.
pub struct SessionViewModel {
    pub session_id: Seq<char>,
    pub viewport: SessionMessageViewportState,
    /// Reasoning ids folded open.
    pub expanded: Set<Seq<char>>,
    /// Toggle lines of reasoning blocks on screen.
    pub toggle_hits: Seq<ThinkingToggleHit>,
    pub sidebar: SessionSidebarChromeState,
    /// Interactions applied so far, oldest first, for the render side.
    pub pending: Seq<SessionInteractionAction>,
    pub navigate_child: Option<usize>,
}

/// The session view: interaction state between renders.
pub struct SessionView {
    session_id: String,
    viewport: SessionMessageViewportState,
    reasoning: SessionReasoningState,
    sidebar: SessionSidebarChromeState,
    pending_actions: Vec<SessionInteractionAction>,
    pending_navigate_child: Option<usize>,
}

impl View for SessionView {
    type V = SessionViewModel;

    closed spec fn view(&self) -> SessionViewModel {
        SessionViewModel {
            session_id: self.session_id@,
            viewport: self.viewport,
            expanded: self.reasoning.expanded_set(),
            toggle_hits: self.reasoning.toggle_hits@,
            sidebar: self.sidebar,
            pending: self.pending_actions@,
            navigate_child: self.pending_navigate_child,
        }
    }
}

pub open spec fn toggled(s: Set<Seq<char>>, id: Seq<char>) -> Set<Seq<char>> {
    if s.contains(id) {
        s.remove(id)
    } else {
        s.insert(id)
    }
}

pub open spec fn clamp_offset(v: SessionMessageViewportState, offset: usize) -> usize {
    if offset <= max_scroll_spec(v) {
        offset
    } else {
        max_scroll_spec(v) as usize
    }
}

/// An interaction applied to the model: its effect, and the action queued.
pub open spec fn apply_action(m: SessionViewModel, a: SessionInteractionAction) -> SessionViewModel {
    let applied = match a {
        SessionInteractionAction::SetScrollOffset(o) => SessionViewModel {
            viewport: SessionMessageViewportState { scroll_offset: clamp_offset(m.viewport, o), ..m.viewport },
            ..m
        },
        SessionInteractionAction::SetScrollbarDrag(b) => SessionViewModel {
            viewport: SessionMessageViewportState { scrollbar_drag_active: b, ..m.viewport },
            ..m
        },
        SessionInteractionAction::ToggleReasoning(id) => SessionViewModel {
            expanded: toggled(m.expanded, id@),
            ..m
        },
    };
    SessionViewModel { pending: m.pending.push(a), ..applied }
}

pub open spec fn with_lifecycle(m: SessionViewModel, l: SidebarLifecycleState) -> SessionViewModel {
    SessionViewModel { sidebar: SessionSidebarChromeState { lifecycle: l, ..m.sidebar }, ..m }
}

pub open spec fn initial_viewport() -> SessionMessageViewportState {
    SessionMessageViewportState {
        scroll_offset: 0,
        rendered_line_count: 0,
        messages_viewport_height: 0,
        render_model_memo_key: None,
        last_messages_area: None,
        last_scrollbar_area: None,
        scrollbar_drag_active: false,
    }
}

pub open spec fn with_viewport(m: SessionViewModel, v: SessionMessageViewportState) -> SessionViewModel {
    SessionViewModel { viewport: v, ..m }
}

/// The sidebar chrome after a click on it; none when the click falls on
/// none of its parts.
pub open spec fn chrome_click(s: SessionSidebarChromeState, col: u16, row: u16, in_sidebar: bool) -> Option<SessionSidebarChromeState> {
    let wide = s.last_terminal_width > SESSION_SIDEBAR_WIDE_THRESHOLD;
    if point_in_rect_spec(s.open_button_area, col, row) {
        Some(SessionSidebarChromeState {
            lifecycle: SidebarLifecycleState { mode: SidebarMode::Auto, visible: !wide, ..s.lifecycle },
            open_button_area: None,
            ..s
        })
    } else if point_in_rect_spec(s.close_button_area, col, row) {
        Some(SessionSidebarChromeState {
            lifecycle: SidebarLifecycleState {
                mode: if wide { SidebarMode::Hide } else { s.lifecycle.mode },
                visible: false,
                process_focus: false,
                child_session_focus: false,
                ..s.lifecycle
            },
            close_button_area: None,
            ..s
        })
    } else if point_in_rect_spec(s.backdrop_area, col, row) && !in_sidebar {
        Some(SessionSidebarChromeState {
            lifecycle: SidebarLifecycleState {
                visible: false,
                process_focus: false,
                child_session_focus: false,
                ..s.lifecycle
            },
            backdrop_area: None,
            close_button_area: None,
            ..s
        })
    } else {
        None
    }
}

pub open spec fn with_reasoning(m: SessionViewModel, r: SessionReasoningState) -> SessionViewModel {
    SessionViewModel { expanded: r.expanded_set(), toggle_hits: r.toggle_hits@, ..m }
}

pub open spec fn with_toggle_hits(m: SessionViewModel, h: Seq<ThinkingToggleHit>) -> SessionViewModel {
    SessionViewModel { toggle_hits: h, ..m }
}

pub open spec fn with_sidebar(m: SessionViewModel, s: SessionSidebarChromeState) -> SessionViewModel {
    SessionViewModel { sidebar: s, ..m }
}

pub open spec fn with_pending(m: SessionViewModel, p: Seq<SessionInteractionAction>) -> SessionViewModel {
    SessionViewModel { pending: p, ..m }
}

/// The lifecycle with neither list focused.
pub open spec fn unfocused(l: SidebarLifecycleState) -> SidebarLifecycleState {
    SidebarLifecycleState { process_focus: false, child_session_focus: false, ..l }
}

pub open spec fn sat_sub(a: usize, b: usize) -> usize {
    if a >= b { (a - b) as usize } else { 0 }
}

/// `a + b`, capped at `cap`.
pub open spec fn add_capped(a: usize, b: usize, cap: int) -> usize {
    if a + b <= cap { (a + b) as usize } else { cap as usize }
}

/// The first toggle line at `line`.
pub open spec fn is_first_hit(hits: Seq<ThinkingToggleHit>, line: int, k: int) -> bool {
    &&& 0 <= k < hits.len()
    &&& hits[k].line_index == line
    &&& forall|j: int| 0 <= j < k ==> hits[j].line_index != line
}

pub open spec fn has_hit(hits: Seq<ThinkingToggleHit>, line: int) -> bool {
    exists|k: int| 0 <= k < hits.len() && hits[k].line_index == line
}

/// The content line under a screen row of the message area.
pub open spec fn clicked_line(v: SessionMessageViewportState, row: u16) -> int {
    match v.last_messages_area {
        Some(a) => v.scroll_offset + (row - a.y),
        None => 0,
    }
}

/// The page step: the viewport height less one line, at least one.
pub open spec fn page_step(v: SessionMessageViewportState) -> usize {
    if v.messages_viewport_height <= 2 { 1 } else { (v.messages_viewport_height - 1) as usize }
}

impl SessionView {
    pub closed spec fn wf(&self) -> bool {
        self.reasoning.wf()
    }

    pub fn new(session_id: String) -> (r: Self)
        ensures
            r.wf(),
            r@.session_id == session_id@,
            r@.viewport == initial_viewport(),
            r@.expanded == Set::<Seq<char>>::empty(),
            r@.toggle_hits.len() == 0,
            r@.sidebar == initial_sidebar_chrome(),
            r@.pending.len() == 0,
            r@.navigate_child is None,
    {
        SessionView {
            session_id,
            viewport: SessionMessageViewportState::new(),
            reasoning: SessionReasoningState::new(),
            sidebar: SessionSidebarChromeState::new(),
            pending_actions: Vec::new(),
            pending_navigate_child: None,
        }
    }

    pub fn session_id(&self) -> (r: &str)
        ensures
            r@ == self@.session_id,
    {
        self.session_id.as_str()
    }

    /// Records the viewport that a render produced.
    pub fn update_viewport_state(&mut self, next: SessionMessageViewportState)
        ensures
            final(self).wf() == old(self).wf(),
            final(self)@ == with_viewport(old(self)@, next),
    {
        self.viewport = next;
    }

    /// Takes on the reasoning state that a render settled on.
    pub fn update_reasoning_state(&mut self, next: SessionReasoningState)
        requires
            next.wf(),
        ensures
            final(self).wf(),
            final(self)@ == with_reasoning(old(self)@, next),
    {
        self.reasoning = next;
    }

    /// Records the reasoning toggle lines that a render laid out.
    pub fn update_toggle_hits(&mut self, hits: Vec<ThinkingToggleHit>)
        ensures
            final(self).wf() == old(self).wf(),
            final(self)@ == with_toggle_hits(old(self)@, hits@),
    {
        self.reasoning.toggle_hits = hits;
    }

    /// Records the sidebar chrome that a render laid out.
    pub fn update_sidebar_state(&mut self, next: SessionSidebarChromeState)
        ensures
            final(self).wf() == old(self).wf(),
            final(self)@ == with_sidebar(old(self)@, next),
    {
        self.sidebar = next;
    }

    fn set_lifecycle(&mut self, l: SidebarLifecycleState)
        ensures
            final(self).wf() == old(self).wf(),
            final(self)@ == with_lifecycle(old(self)@, l),
    {
        self.sidebar.lifecycle = l;
    }

    fn max_scroll_offset(&self) -> (r: usize)
        ensures
            r == max_scroll_spec(self@.viewport),
    {
        max_scroll_offset_for_viewport(&self.viewport)
    }

    fn queue_interaction_action(&mut self, action: SessionInteractionAction)
        requires
            old(self).wf(),
        ensures
            final(self).wf(),
            final(self)@ == apply_action(old(self)@, action),
    {
        apply_session_interaction_action(&mut self.viewport, &mut self.reasoning, &action);
        self.pending_actions.push(action);
    }

    /// Drains the interactions applied since the last call, oldest first.
    pub fn take_pending_actions(&mut self) -> (r: Vec<SessionInteractionAction>)
        ensures
            final(self).wf() == old(self).wf(),
            r@ == old(self)@.pending,
            final(self)@ == with_pending(old(self)@, Seq::empty()),
    {
        let mut taken: Vec<SessionInteractionAction> = Vec::new();
        std::mem::swap(&mut taken, &mut self.pending_actions);
        taken
    }

    /// Answers a click on the sidebar's chrome: the open button shows the
    /// sidebar, the close button hides it, and a click on the backdrop
    /// outside the sidebar dismisses it. `in_sidebar` says whether the
    /// point lies in the sidebar's own content, which answers the clicks
    /// that the chrome leaves (false here).
    pub fn handle_sidebar_chrome_click(&mut self, col: u16, row: u16, in_sidebar: bool) -> (r: bool)
        ensures
            final(self).wf() == old(self).wf(),
            match chrome_click(old(self)@.sidebar, col, row, in_sidebar) {
                Some(s) => r && final(self)@ == with_sidebar(old(self)@, s),
                None => !r && final(self)@ == old(self)@,
            },
    {
        let mut next = self.sidebar;
        if point_in_optional_rect(next.open_button_area, col, row) {
            next.lifecycle.mode = SidebarMode::Auto;
            next.lifecycle.visible = self.sidebar.last_terminal_width <= SESSION_SIDEBAR_WIDE_THRESHOLD;
            next.open_button_area = None;
            self.update_sidebar_state(next);
            return true;
        }
        if point_in_optional_rect(next.close_button_area, col, row) {
            if self.sidebar.last_terminal_width > SESSION_SIDEBAR_WIDE_THRESHOLD {
                next.lifecycle.mode = SidebarMode::Hide;
            }
            next.lifecycle.visible = false;
            next.lifecycle.process_focus = false;
            next.lifecycle.child_session_focus = false;
            next.close_button_area = None;
            self.update_sidebar_state(next);
            return true;
        }
        if point_in_optional_rect(next.backdrop_area, col, row) && !in_sidebar {
            next.lifecycle.visible = false;
            next.lifecycle.process_focus = false;
            next.lifecycle.child_session_focus = false;
            next.backdrop_area = None;
            next.close_button_area = None;
            self.update_sidebar_state(next);
            return true;
        }
        false
    }

    /// Drops the sidebar's keyboard focus; tells whether it had any.
    pub fn clear_sidebar_focus(&mut self) -> (had_focus: bool)
        ensures
            final(self).wf() == old(self).wf(),
            had_focus == (old(self)@.sidebar.lifecycle.process_focus
                || old(self)@.sidebar.lifecycle.child_session_focus),
            final(self)@ == with_lifecycle(old(self)@, unfocused(old(self)@.sidebar.lifecycle)),
    {
        let mut next = self.sidebar.lifecycle;
        let had_focus = next.process_focus || next.child_session_focus;
        next.process_focus = false;
        next.child_session_focus = false;
        if had_focus {
            self.set_lifecycle(next);
        }
        had_focus
    }

    pub fn sidebar_process_focus(&self) -> (r: bool)
        ensures
            r == self@.sidebar.lifecycle.process_focus,
    {
        self.sidebar.lifecycle.process_focus
    }

    pub fn sidebar_child_session_focus(&self) -> (r: bool)
        ensures
            r == self@.sidebar.lifecycle.child_session_focus,
    {
        self.sidebar.lifecycle.child_session_focus
    }

    pub fn sidebar_process_selected(&self) -> (r: usize)
        ensures
            r == self@.sidebar.lifecycle.process_selected,
    {
        self.sidebar.lifecycle.process_selected
    }

    pub fn sidebar_child_session_selected(&self) -> (r: usize)
        ensures
            r == self@.sidebar.lifecycle.child_session_selected,
    {
        self.sidebar.lifecycle.child_session_selected
    }

    pub fn move_sidebar_process_selection_up(&mut self)
        ensures
            final(self).wf() == old(self).wf(),
            final(self)@ == with_process_selected(old(self)@, sat_sub(old(self)@.sidebar.lifecycle.process_selected, 1)),
    {
        let mut next = self.sidebar.lifecycle;
        next.process_selected = next.process_selected.saturating_sub(1);
        self.set_lifecycle(next);
    }

    pub fn move_sidebar_process_selection_down(&mut self, count: usize)
        ensures
            final(self).wf() == old(self).wf(),
            final(self)@ == with_process_selected(old(self)@, if count > 0 {
                    add_capped(old(self)@.sidebar.lifecycle.process_selected, 1, count - 1)
                } else {
                    old(self)@.sidebar.lifecycle.process_selected
                }),
    {
        let mut next = self.sidebar.lifecycle;
        if count > 0 {
            next.process_selected = if next.process_selected >= count - 1 {
                count - 1
            } else {
                next.process_selected + 1
            };
        }
        self.set_lifecycle(next);
    }

    pub fn clamp_sidebar_process_selection(&mut self, count: usize)
        ensures
            final(self).wf() == old(self).wf(),
            final(self)@ == with_process_selected(old(self)@, clamp_selection(old(self)@.sidebar.lifecycle.process_selected, count)),
    {
        let mut next = self.sidebar.lifecycle;
        if count == 0 {
            next.process_selected = 0;
        } else if next.process_selected >= count {
            next.process_selected = count - 1;
        }
        self.set_lifecycle(next);
    }

    pub fn move_sidebar_child_session_selection_up(&mut self)
        ensures
            final(self).wf() == old(self).wf(),
            final(self)@ == with_child_selected(old(self)@, sat_sub(old(self)@.sidebar.lifecycle.child_session_selected, 1)),
    {
        let mut next = self.sidebar.lifecycle;
        next.child_session_selected = next.child_session_selected.saturating_sub(1);
        self.set_lifecycle(next);
    }

    pub fn move_sidebar_child_session_selection_down(&mut self, count: usize)
        ensures
            final(self).wf() == old(self).wf(),
            final(self)@ == with_child_selected(old(self)@, if count > 0 {
                    add_capped(old(self)@.sidebar.lifecycle.child_session_selected, 1, count - 1)
                } else {
                    old(self)@.sidebar.lifecycle.child_session_selected
                }),
    {
        let mut next = self.sidebar.lifecycle;
        if count > 0 {
            next.child_session_selected = if next.child_session_selected >= count - 1 {
                count - 1
            } else {
                next.child_session_selected + 1
            };
        }
        self.set_lifecycle(next);
    }

    pub fn clamp_sidebar_child_session_selection(&mut self, count: usize)
        ensures
            final(self).wf() == old(self).wf(),
            final(self)@ == with_child_selected(old(self)@, clamp_selection(old(self)@.sidebar.lifecycle.child_session_selected, count)),
    {
        let mut next = self.sidebar.lifecycle;
        if count == 0 {
            next.child_session_selected = 0;
        } else if next.child_session_selected >= count {
            next.child_session_selected = count - 1;
        }
        self.set_lifecycle(next);
    }

    /// Moves keyboard focus onto the process list, or off it; only while the
    /// sidebar shows. Focus never rests on both lists.
    pub fn toggle_sidebar_process_focus(&mut self, terminal_width: u16) -> (r: bool)
        ensures
            final(self).wf() == old(self).wf(),
            r == sidebar_visible_spec(old(self)@.sidebar.lifecycle, terminal_width),
            !r ==> final(self)@ == old(self)@,
            r ==> final(self)@ == with_lifecycle(old(self)@, focus_process(old(self)@.sidebar.lifecycle)),
    {
        if !session_sidebar_visible(&self.sidebar.lifecycle, terminal_width) {
            return false;
        }
        let mut next = self.sidebar.lifecycle;
        next.process_focus = !next.process_focus;
        if next.process_focus {
            next.child_session_focus = false;
        }
        self.set_lifecycle(next);
        true
    }

    /// Moves keyboard focus onto the child-session list, or off it; only
    /// while the sidebar shows.
    pub fn toggle_sidebar_child_session_focus(&mut self, terminal_width: u16) -> (r: bool)
        ensures
            final(self).wf() == old(self).wf(),
            r == sidebar_visible_spec(old(self)@.sidebar.lifecycle, terminal_width),
            !r ==> final(self)@ == old(self)@,
            r ==> final(self)@ == with_lifecycle(old(self)@, focus_child(old(self)@.sidebar.lifecycle)),
    {
        if !session_sidebar_visible(&self.sidebar.lifecycle, terminal_width) {
            return false;
        }
        let mut next = self.sidebar.lifecycle;
        next.child_session_focus = !next.child_session_focus;
        if next.child_session_focus {
            next.process_focus = false;
        }
        self.set_lifecycle(next);
        true
    }

    pub fn sidebar_visible(&self, terminal_width: u16) -> (r: bool)
        ensures
            r == sidebar_visible_spec(self@.sidebar.lifecycle, terminal_width),
    {
        session_sidebar_visible(&self.sidebar.lifecycle, terminal_width)
    }

    /// Shows the sidebar when hidden, hides it when shown.
    pub fn toggle_sidebar(&mut self, terminal_width: u16)
        ensures
            final(self).wf() == old(self).wf(),
            final(self)@ == with_lifecycle(
                old(self)@,
                toggled_lifecycle(old(self)@.sidebar.lifecycle, terminal_width),
            ),
    {
        let mut next = self.sidebar.lifecycle;
        if session_sidebar_visible(&next, terminal_width) {
            if terminal_width > SESSION_SIDEBAR_WIDE_THRESHOLD {
                next.mode = SidebarMode::Hide;
            }
            next.visible = false;
            next.process_focus = false;
            next.child_session_focus = false;
        } else {
            next.mode = SidebarMode::Auto;
            next.visible = terminal_width <= SESSION_SIDEBAR_WIDE_THRESHOLD;
        }
        self.set_lifecycle(next);
    }

    pub fn take_pending_navigate_child(&mut self) -> (r: Option<usize>)
        ensures
            final(self).wf() == old(self).wf(),
            r == old(self)@.navigate_child,
            final(self)@ == with_navigate_child(old(self)@, None),
    {
        self.pending_navigate_child.take()
    }
}

pub open spec fn with_process_selected(m: SessionViewModel, v: usize) -> SessionViewModel {
    with_lifecycle(m, SidebarLifecycleState { process_selected: v, ..m.sidebar.lifecycle })
}

pub open spec fn with_child_selected(m: SessionViewModel, v: usize) -> SessionViewModel {
    with_lifecycle(m, SidebarLifecycleState { child_session_selected: v, ..m.sidebar.lifecycle })
}

pub open spec fn with_navigate_child(m: SessionViewModel, n: Option<usize>) -> SessionViewModel {
    SessionViewModel { navigate_child: n, ..m }
}

pub open spec fn clamp_selection(selected: usize, count: usize) -> usize {
    if count == 0 {
        0
    } else if selected >= count {
        (count - 1) as usize
    } else {
        selected
    }
}

pub open spec fn focus_process(l: SidebarLifecycleState) -> SidebarLifecycleState {
    if l.process_focus {
        SidebarLifecycleState { process_focus: false, ..l }
    } else {
        SidebarLifecycleState { process_focus: true, child_session_focus: false, ..l }
    }
}

pub open spec fn focus_child(l: SidebarLifecycleState) -> SidebarLifecycleState {
    if l.child_session_focus {
        SidebarLifecycleState { child_session_focus: false, ..l }
    } else {
        SidebarLifecycleState { child_session_focus: true, process_focus: false, ..l }
    }
}

pub open spec fn toggled_lifecycle(l: SidebarLifecycleState, width: u16) -> SidebarLifecycleState {
    if sidebar_visible_spec(l, width) {
        SidebarLifecycleState {
            mode: if width > SESSION_SIDEBAR_WIDE_THRESHOLD { SidebarMode::Hide } else { l.mode },
            visible: false,
            process_focus: false,
            child_session_focus: false,
            ..l
        }
    } else {
        SidebarLifecycleState {
            mode: SidebarMode::Auto,
            visible: width <= SESSION_SIDEBAR_WIDE_THRESHOLD,
            ..l
        }
    }
}

impl SessionView {
    /// Folds open or shut the reasoning block whose toggle line was clicked.
    pub fn handle_click(&mut self, col: u16, row: u16) -> (r: bool)
        requires
            old(self).wf(),
        ensures
            final(self).wf(),
            r == (point_in_rect_spec(old(self)@.viewport.last_messages_area, col, row)
                && clicked_line(old(self)@.viewport, row) < old(self)@.viewport.rendered_line_count
                && has_hit(old(self)@.toggle_hits, clicked_line(old(self)@.viewport, row))),
            !r ==> final(self)@ == old(self)@,
            r ==> exists|k: int|
                is_first_hit(old(self)@.toggle_hits, clicked_line(old(self)@.viewport, row), k)
                && final(self)@ == apply_action(
                    old(self)@,
                    SessionInteractionAction::ToggleReasoning(old(self)@.toggle_hits[k].reasoning_id),
                ),
    {
        if !point_in_optional_rect(self.viewport.last_messages_area, col, row) {
            return false;
        }
        let area = match self.viewport.last_messages_area {
            Some(a) => a,
            None => return false,
        };
        let offset = self.viewport.scroll_offset;
        let delta = (row - area.y) as usize;
        if offset >= self.viewport.rendered_line_count || delta >= self.viewport.rendered_line_count - offset {
            return false;
        }
        let line_index = offset + delta;
        let mut k: usize = 0;
        while k < self.reasoning.toggle_hits.len()
            invariant
                0 <= k <= self.reasoning.toggle_hits@.len(),
                *self == *old(self),
                self.wf(),
                line_index as int == clicked_line(self@.viewport, row),
                point_in_rect_spec(self@.viewport.last_messages_area, col, row),
                line_index < self@.viewport.rendered_line_count,
                forall|j: int| 0 <= j < k ==> self.reasoning.toggle_hits@[j].line_index != line_index,
            decreases self.reasoning.toggle_hits.len() - k,
        {
            if self.reasoning.toggle_hits[k].line_index == line_index {
                let id = self.reasoning.toggle_hits[k].reasoning_id.clone();
                proof {
                    assert(is_first_hit(self@.toggle_hits, line_index as int, k as int));
                    assert(has_hit(self@.toggle_hits, line_index as int));
                }
                self.queue_interaction_action(SessionInteractionAction::ToggleReasoning(id));
                return true;
            }
            k = k + 1;
        }
        proof {
            if has_hit(self@.toggle_hits, line_index as int) {
                let w = choose|w: int| 0 <= w < self@.toggle_hits.len() && self@.toggle_hits[w].line_index == line_index;
                assert(self.reasoning.toggle_hits@[w].line_index != line_index);
            }
        }
        false
    }

    fn scroll_to_scrollbar_row(&mut self, row: u16)
        requires
            old(self).wf(),
        ensures
            final(self).wf(),
            final(self)@ == apply_action(
                old(self)@,
                SessionInteractionAction::SetScrollOffset(scrollbar_offset_spec(
                    old(self)@.viewport.last_scrollbar_area,
                    row,
                    max_scroll_spec(old(self)@.viewport) as usize,
                ) as usize),
            ),
    {
        let max_scroll = self.max_scroll_offset();
        let next = map_scrollbar_row_to_offset(self.viewport.last_scrollbar_area, row, max_scroll);
        self.queue_interaction_action(SessionInteractionAction::SetScrollOffset(next));
    }

    /// A click on the scrollbar starts a drag and jumps to that row.
    pub fn handle_scrollbar_click(&mut self, col: u16, row: u16) -> (r: bool)
        requires
            old(self).wf(),
        ensures
            final(self).wf(),
            r == point_in_rect_spec(old(self)@.viewport.last_scrollbar_area, col, row),
            !r ==> final(self)@ == old(self)@,
            r ==> final(self)@ == scrollbar_jump(old(self)@, row),
    {
        if !point_in_optional_rect(self.viewport.last_scrollbar_area, col, row) {
            return false;
        }
        self.queue_interaction_action(SessionInteractionAction::SetScrollbarDrag(true));
        self.scroll_to_scrollbar_row(row);
        true
    }

    /// While a drag is on, or over the scrollbar, follows the pointer's row.
    pub fn handle_scrollbar_drag(&mut self, col: u16, row: u16) -> (r: bool)
        requires
            old(self).wf(),
        ensures
            final(self).wf(),
            r == (old(self)@.viewport.scrollbar_drag_active
                || point_in_rect_spec(old(self)@.viewport.last_scrollbar_area, col, row)),
            !r ==> final(self)@ == old(self)@,
            r ==> final(self)@ == scrollbar_jump(old(self)@, row),
    {
        if !self.viewport.scrollbar_drag_active
            && !point_in_optional_rect(self.viewport.last_scrollbar_area, col, row) {
            return false;
        }
        self.queue_interaction_action(SessionInteractionAction::SetScrollbarDrag(true));
        self.scroll_to_scrollbar_row(row);
        true
    }

    /// Ends a scrollbar drag; tells whether one was on.
    pub fn stop_scrollbar_drag(&mut self) -> (was_active: bool)
        requires
            old(self).wf(),
        ensures
            final(self).wf(),
            was_active == old(self)@.viewport.scrollbar_drag_active,
            !was_active ==> final(self)@ == old(self)@,
            was_active ==> final(self)@ == apply_action(
                old(self)@,
                SessionInteractionAction::SetScrollbarDrag(false),
            ),
    {
        let was_active = self.viewport.scrollbar_drag_active;
        if was_active {
            self.queue_interaction_action(SessionInteractionAction::SetScrollbarDrag(false));
        }
        was_active
    }

    pub fn scroll_up(&mut self)
        requires
            old(self).wf(),
        ensures
            final(self).wf(),
            old(self)@.viewport.scroll_offset == 0 ==> final(self)@ == old(self)@,
            old(self)@.viewport.scroll_offset > 0 ==> final(self)@ == apply_action(
                old(self)@,
                SessionInteractionAction::SetScrollOffset((old(self)@.viewport.scroll_offset - 1) as usize),
            ),
    {
        if self.viewport.scroll_offset > 0 {
            let next = self.viewport.scroll_offset - 1;
            self.queue_interaction_action(SessionInteractionAction::SetScrollOffset(next));
        }
    }

    pub fn scroll_down(&mut self)
        requires
            old(self).wf(),
        ensures
            final(self).wf(),
            old(self)@.viewport.scroll_offset >= max_scroll_spec(old(self)@.viewport) ==> final(self)@
                == old(self)@,
            old(self)@.viewport.scroll_offset < max_scroll_spec(old(self)@.viewport) ==> final(self)@
                == apply_action(
                old(self)@,
                SessionInteractionAction::SetScrollOffset((old(self)@.viewport.scroll_offset + 1) as usize),
            ),
    {
        let max_scroll = self.max_scroll_offset();
        if self.viewport.scroll_offset < max_scroll {
            let next = self.viewport.scroll_offset + 1;
            self.queue_interaction_action(SessionInteractionAction::SetScrollOffset(next));
        }
    }

    /// Scrolls up by `lines`, at least one.
    pub fn scroll_up_by(&mut self, lines: usize)
        requires
            old(self).wf(),
        ensures
            final(self).wf(),
            final(self)@ == apply_action(
                old(self)@,
                SessionInteractionAction::SetScrollOffset(
                    sat_sub(old(self)@.viewport.scroll_offset, at_least_one(lines)),
                ),
            ),
    {
        let lines = if lines < 1 { 1 } else { lines };
        let next = self.viewport.scroll_offset.saturating_sub(lines);
        self.queue_interaction_action(SessionInteractionAction::SetScrollOffset(next));
    }

    /// Scrolls down by `lines`, at least one, no further than the content.
    pub fn scroll_down_by(&mut self, lines: usize)
        requires
            old(self).wf(),
        ensures
            final(self).wf(),
            final(self)@ == apply_action(
                old(self)@,
                SessionInteractionAction::SetScrollOffset(add_capped(
                    old(self)@.viewport.scroll_offset,
                    at_least_one(lines),
                    max_scroll_spec(old(self)@.viewport),
                )),
            ),
    {
        let lines = if lines < 1 { 1 } else { lines };
        let max_scroll = self.max_scroll_offset();
        let offset = self.viewport.scroll_offset;
        let next = if offset >= max_scroll || lines >= max_scroll - offset {
            max_scroll
        } else {
            offset + lines
        };
        self.queue_interaction_action(SessionInteractionAction::SetScrollOffset(next));
    }

    pub fn scroll_up_mouse(&mut self)
        requires
            old(self).wf(),
        ensures
            final(self).wf(),
            final(self)@ == apply_action(
                old(self)@,
                SessionInteractionAction::SetScrollOffset(
                    sat_sub(old(self)@.viewport.scroll_offset, MOUSE_SCROLL_LINES),
                ),
            ),
    {
        self.scroll_up_by(MOUSE_SCROLL_LINES);
    }

    pub fn scroll_down_mouse(&mut self)
        requires
            old(self).wf(),
        ensures
            final(self).wf(),
            final(self)@ == apply_action(
                old(self)@,
                SessionInteractionAction::SetScrollOffset(add_capped(
                    old(self)@.viewport.scroll_offset,
                    MOUSE_SCROLL_LINES,
                    max_scroll_spec(old(self)@.viewport),
                )),
            ),
    {
        self.scroll_down_by(MOUSE_SCROLL_LINES);
    }

    pub fn scroll_page_up(&mut self)
        requires
            old(self).wf(),
        ensures
            final(self).wf(),
            final(self)@ == apply_action(
                old(self)@,
                SessionInteractionAction::SetScrollOffset(
                    sat_sub(old(self)@.viewport.scroll_offset, page_step(old(self)@.viewport)),
                ),
            ),
    {
        let h = self.viewport.messages_viewport_height;
        let step = if h <= 2 { 1 } else { h - 1 };
        let next = self.viewport.scroll_offset.saturating_sub(step);
        self.queue_interaction_action(SessionInteractionAction::SetScrollOffset(next));
    }

    pub fn scroll_page_down(&mut self)
        requires
            old(self).wf(),
        ensures
            final(self).wf(),
            final(self)@ == apply_action(
                old(self)@,
                SessionInteractionAction::SetScrollOffset(add_capped(
                    old(self)@.viewport.scroll_offset,
                    page_step(old(self)@.viewport),
                    max_scroll_spec(old(self)@.viewport),
                )),
            ),
    {
        let h = self.viewport.messages_viewport_height;
        let step = if h <= 2 { 1 } else { h - 1 };
        let max_scroll = self.max_scroll_offset();
        let offset = self.viewport.scroll_offset;
        let next = if offset >= max_scroll || step >= max_scroll - offset {
            max_scroll
        } else {
            offset + step
        };
        self.queue_interaction_action(SessionInteractionAction::SetScrollOffset(next));
    }

    /// Scrolls to a message: to the first line that the last render gave it
    /// (`first_line`), else to three lines for each message before it
    /// (`position`, its place in the session), never past the content; with
    /// neither, nothing moves.
    pub fn scroll_to_message(&mut self, first_line: Option<usize>, position: Option<usize>)
        requires
            old(self).wf(),
        ensures
            final(self).wf(),
            final(self)@ == match first_line {
                Some(line) => apply_action(
                    old(self)@,
                    SessionInteractionAction::SetScrollOffset(
                        min_to(line as int, max_scroll_spec(old(self)@.viewport)),
                    ),
                ),
                None => match position {
                    Some(p) => apply_action(
                        old(self)@,
                        SessionInteractionAction::SetScrollOffset(
                            min_to(saturating_triple(p), max_scroll_spec(old(self)@.viewport)),
                        ),
                    ),
                    None => old(self)@,
                },
            },
    {
        let max_scroll = self.max_scroll_offset();
        match first_line {
            Some(line) => {
                let next = if line < max_scroll { line } else { max_scroll };
                self.queue_interaction_action(SessionInteractionAction::SetScrollOffset(next));
            },
            None => match position {
                Some(p) => {
                    let lines = match p.checked_mul(3) {
                        Some(v) => v,
                        None => usize::MAX,
                    };
                    let next = if lines < max_scroll { lines } else { max_scroll };
                    self.queue_interaction_action(SessionInteractionAction::SetScrollOffset(next));
                },
                None => {},
            },
        }
    }
}

/// `p * 3`, or the largest `usize` when that overflows.
pub open spec fn saturating_triple(p: usize) -> int {
    if p * 3 <= usize::MAX { p * 3 } else { usize::MAX as int }
}

/// The smaller of `a` and `b`, as an offset.
pub open spec fn min_to(a: int, b: int) -> usize {
    if a < b { a as usize } else { b as usize }
}

pub open spec fn at_least_one(n: usize) -> usize {
    if n < 1 { 1 } else { n }
}

/// A scrollbar press: the drag starts, then the view jumps to the row.
pub open spec fn scrollbar_jump(m: SessionViewModel, row: u16) -> SessionViewModel {
    let dragged = apply_action(m, SessionInteractionAction::SetScrollbarDrag(true));
    apply_action(
        dragged,
        SessionInteractionAction::SetScrollOffset(scrollbar_offset_spec(
            dragged.viewport.last_scrollbar_area,
            row,
            max_scroll_spec(dragged.viewport) as usize,
        ) as usize),
    )
}

/// Setting the scroll offset never leaves it past the content: the offset
/// is at most the rendered lines less the viewport height.
pub proof fn lemma_scroll_offset_clamped(m: SessionViewModel, offset: usize)
    ensures
        ({
            let n = apply_action(m, SessionInteractionAction::SetScrollOffset(offset));
            n.viewport.scroll_offset <= max_scroll_spec(n.viewport)
        }),
{
}

/// Toggling the same reasoning block twice leaves the folded-open set as
/// it was.
pub proof fn lemma_toggle_reasoning_twice(m: SessionViewModel, id: String)
    ensures
        apply_action(
            apply_action(m, SessionInteractionAction::ToggleReasoning(id)),
            SessionInteractionAction::ToggleReasoning(id),
        ).expanded == m.expanded,
{
    let once = toggled(m.expanded, id@);
    assert(toggled(once, id@) =~= m.expanded);
}

/// Scrolling down by `n` lines and back up by `n` returns to the starting
/// offset when the content has room for the whole step.
pub proof fn lemma_scroll_down_then_up(m: SessionViewModel, n: usize)
    requires
        m.viewport.scroll_offset + at_least_one(n) <= max_scroll_spec(m.viewport),
    ensures
        ({
            let down = apply_action(
                m,
                SessionInteractionAction::SetScrollOffset(
                    add_capped(m.viewport.scroll_offset, at_least_one(n), max_scroll_spec(m.viewport)),
                ),
            );
            let up = apply_action(
                down,
                SessionInteractionAction::SetScrollOffset(
                    sat_sub(down.viewport.scroll_offset, at_least_one(n)),
                ),
            );
            up.viewport.scroll_offset == m.viewport.scroll_offset
        }),
{
}

/// Keyboard focus never rests on both sidebar lists after either toggle.
pub proof fn lemma_sidebar_focus_exclusive(l: SidebarLifecycleState)
    ensures
        !(focus_process(l).process_focus && focus_process(l).child_session_focus),
        !(focus_child(l).process_focus && focus_child(l).child_session_focus),
{
}

/// Toggling the sidebar flips whether it shows, except when it is pinned
/// open on a narrow terminal.
pub proof fn lemma_toggle_sidebar_flips_visibility(l: SidebarLifecycleState, width: u16)
    requires
        !(l.mode == SidebarMode::Show && width <= SESSION_SIDEBAR_WIDE_THRESHOLD),
    ensures
        sidebar_visible_spec(toggled_lifecycle(l, width), width) == !sidebar_visible_spec(l, width),
{
}

// ---------------------------------------------------------------------------
// A frame
// ---------------------------------------------------------------------------

/// The chrome once a frame has placed the sidebar: an overlay takes the
/// whole frame as its backdrop and gets its close button; a hidden sidebar
/// gets its open button.
pub open spec fn chrome_after_frame(chrome: SessionSidebarChromeState, area: Rect) -> SessionSidebarChromeState {
    let c = chrome_after_layout(chrome, area);
    match render_layout_spec(chrome, area).sidebar {
        SessionSidebarLayout::Overlay => SessionSidebarChromeState {
            backdrop_area: Some(area),
            close_button_area: Some(close_button_spec(overlay_sidebar_area_spec(area))),
            ..c
        },
        SessionSidebarLayout::Hidden => SessionSidebarChromeState { open_button_area: open_button_spec(area), ..c },
        SessionSidebarLayout::Docked { .. } => c,
    }
}

impl SessionView {
    /// Lays out a frame of the view: where the sidebar goes and its
    /// clickable chrome, and the main pane beside or under it. Gives both
    /// for drawing. `prompt_desired_height` and `prompt_input` are the
    /// prompt's, as for `plan_main_layout`.
    pub fn layout_frame(
        &mut self,
        area: Rect,
        show_header: bool,
        prompt_desired_height: u16,
        prompt_input: &str,
    ) -> (r: (SessionRenderLayout, Option<MainPaneLayout>))
        requires
            area.x + area.width <= u16::MAX,
            area.y + area.height <= u16::MAX,
        ensures
            final(self).wf() == old(self).wf(),
            r.0 == render_layout_spec(old(self)@.sidebar, area),
            r.1 == main_layout_spec(old(self)@.viewport, show_header, r.0.main_area, prompt_desired_height, prompt_input@),
            final(self)@ == with_sidebar(old(self)@, chrome_after_frame(old(self)@.sidebar, area)),
    {
        let mut chrome = self.sidebar;
        let layout = plan_render_layout(&mut chrome, area);
        let main = plan_main_layout(&self.viewport, show_header, layout.main_area, prompt_desired_height, prompt_input);
        match layout.sidebar {
            SessionSidebarLayout::Overlay => {
                let _ = place_sidebar_overlay(&mut chrome, area);
            },
            SessionSidebarLayout::Hidden => {
                place_sidebar_open_button(&mut chrome, area);
            },
            SessionSidebarLayout::Docked { .. } => {},
        }
        self.update_sidebar_state(chrome);
        (layout, main)
    }
}

} // verus!
