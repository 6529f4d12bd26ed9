//! Where the parts of the session view go on the screen: the sidebar and
//! its buttons, and the header, messages, footer and prompt of the main
//! pane.
use vstd::prelude::*;
use crate::text::{blank, is_blank};
use crate::tui::layout::{layout_split, ratatui_split, LayoutConstraint, LayoutDirection};
use crate::tui::session_view::{
    session_sidebar_visible, sidebar_visible_spec, Rect, SessionMessageViewportState,
    SessionSidebarChromeState, SESSION_SIDEBAR_WIDE_THRESHOLD,
};

verus! {

// ---------------------------------------------------------------------------
// Sidebar chrome geometry
// ---------------------------------------------------------------------------

/// Columns of the sidebar.
pub const SIDEBAR_WIDTH: u16 = 42;

/// Columns of the sidebar's close button.
pub const SIDEBAR_CLOSE_BUTTON_WIDTH: u16 = 3;

/// Columns of the button that opens the sidebar.
pub const SIDEBAR_OPEN_BUTTON_WIDTH: u16 = 3;

pub open spec fn min_u16(a: u16, b: u16) -> u16 {
    if a <= b { a } else { b }
}

pub open spec fn sat_sub_u16(a: u16, b: u16) -> u16 {
    if a >= b { (a - b) as u16 } else { 0 }
}

pub open spec fn sat_add_u16(a: u16, b: u16) -> u16 {
    if a + b <= u16::MAX { (a + b) as u16 } else { u16::MAX }
}

/// The overlay sidebar: the right `SIDEBAR_WIDTH` columns of the area (all
/// of it when narrower), full height.
pub open spec fn overlay_sidebar_area_spec(area: Rect) -> Rect {
    Rect {
        x: (area.x + sat_sub_u16(area.width, min_u16(SIDEBAR_WIDTH, area.width))) as u16,
        y: area.y,
        width: min_u16(SIDEBAR_WIDTH, area.width),
        height: area.height,
    }
}

/// The close button: the top right cells of the sidebar.
pub open spec fn close_button_spec(sidebar_area: Rect) -> Rect {
    Rect {
        x: sat_add_u16(sidebar_area.x, sat_sub_u16(sidebar_area.width, SIDEBAR_CLOSE_BUTTON_WIDTH)),
        y: sidebar_area.y,
        width: min_u16(SIDEBAR_CLOSE_BUTTON_WIDTH, sidebar_area.width),
        height: 1,
    }
}

/// The button that opens the sidebar: at the right edge of the area, on
/// its second row (its last when it has one row); none for an empty area.
pub open spec fn open_button_spec(area: Rect) -> Option<Rect> {
    if area.width == 0 || area.height == 0 {
        None
    } else {
        Some(Rect {
            x: sat_add_u16(area.x, sat_sub_u16(area.width, SIDEBAR_OPEN_BUTTON_WIDTH)),
            y: if sat_add_u16(area.y, 1) <= area.y + area.height - 1 {
                sat_add_u16(area.y, 1)
            } else {
                (area.y + area.height - 1) as u16
            },
            width: min_u16(SIDEBAR_OPEN_BUTTON_WIDTH, area.width),
            height: 1,
        })
    }
}

/// The overlay sidebar's area.
pub fn overlay_sidebar_area(area: Rect) -> (r: Rect)
    requires
        area.x + area.width <= u16::MAX,
    ensures
        r == overlay_sidebar_area_spec(area),
{
    let w = if SIDEBAR_WIDTH <= area.width { SIDEBAR_WIDTH } else { area.width };
    Rect { x: area.x + area.width.saturating_sub(w), y: area.y, width: w, height: area.height }
}

/// The close button's area.
pub fn sidebar_close_button_area(sidebar_area: Rect) -> (r: Rect)
    ensures
        r == close_button_spec(sidebar_area),
{
    Rect {
        x: sidebar_area.x.saturating_add(sidebar_area.width.saturating_sub(SIDEBAR_CLOSE_BUTTON_WIDTH)),
        y: sidebar_area.y,
        width: if SIDEBAR_CLOSE_BUTTON_WIDTH <= sidebar_area.width { SIDEBAR_CLOSE_BUTTON_WIDTH } else { sidebar_area.width },
        height: 1,
    }
}

/// The area of the button that opens the sidebar.
pub fn sidebar_open_button_area(area: Rect) -> (r: Option<Rect>)
    requires
        area.y + area.height <= u16::MAX + 1,
    ensures
        r == open_button_spec(area),
{
    if area.width == 0 || area.height == 0 {
        return None;
    }
    let below = area.y.saturating_add(1);
    let last_row = area.y + (area.height - 1);
    Some(Rect {
        x: area.x.saturating_add(area.width.saturating_sub(SIDEBAR_OPEN_BUTTON_WIDTH)),
        y: if below <= last_row { below } else { last_row },
        width: if SIDEBAR_OPEN_BUTTON_WIDTH <= area.width { SIDEBAR_OPEN_BUTTON_WIDTH } else { area.width },
        height: 1,
    })
}

/// How the sidebar takes its place this frame.
#[derive(Clone, Copy, Debug, PartialEq, Eq, Structural)]
pub enum SessionSidebarLayout {
    /// Beside the messages, in its own columns.
    Docked { sidebar_area: Rect },
    /// Over the messages.
    Overlay,
    Hidden,
}

/// The messages' area and the sidebar's place for a frame.
#[derive(Clone, Copy, Debug, PartialEq, Eq, Structural)]
pub struct SessionRenderLayout {
    pub main_area: Rect,
    pub sidebar: SessionSidebarLayout,
}

/// The constraints that split a frame between the messages and a docked
/// sidebar as wide as `sidebar_width`.
pub open spec fn docked_constraints(sidebar_width: u16) -> Seq<LayoutConstraint> {
    seq![LayoutConstraint::Min(0), LayoutConstraint::Length(sidebar_width)]
}

/// Where a frame puts the messages and the sidebar.
pub open spec fn render_layout_spec(chrome: SessionSidebarChromeState, area: Rect) -> SessionRenderLayout {
    let show = sidebar_visible_spec(chrome.lifecycle, area.width);
    if show && area.width > SESSION_SIDEBAR_WIDE_THRESHOLD {
        let pieces = ratatui_split(
            LayoutDirection::Horizontal,
            docked_constraints(min_u16(SIDEBAR_WIDTH, area.width)),
            area,
        );
        SessionRenderLayout { main_area: pieces[0], sidebar: SessionSidebarLayout::Docked { sidebar_area: pieces[1] } }
    } else if show {
        SessionRenderLayout { main_area: area, sidebar: SessionSidebarLayout::Overlay }
    } else {
        SessionRenderLayout { main_area: area, sidebar: SessionSidebarLayout::Hidden }
    }
}

/// The chrome once a frame is laid out: the width recorded, a docked
/// sidebar's close button at its top right, and the clickable areas that
/// the layout has no use for dropped.
pub open spec fn chrome_after_layout(chrome: SessionSidebarChromeState, area: Rect) -> SessionSidebarChromeState {
    let show = sidebar_visible_spec(chrome.lifecycle, area.width);
    let c = SessionSidebarChromeState { last_terminal_width: area.width, ..chrome };
    if show && area.width > SESSION_SIDEBAR_WIDE_THRESHOLD {
        let docked = ratatui_split(
            LayoutDirection::Horizontal,
            docked_constraints(min_u16(SIDEBAR_WIDTH, area.width)),
            area,
        )[1];
        SessionSidebarChromeState {
            open_button_area: None,
            backdrop_area: None,
            close_button_area: Some(close_button_spec(docked)),
            ..c
        }
    } else if show {
        SessionSidebarChromeState { open_button_area: None, ..c }
    } else {
        SessionSidebarChromeState { backdrop_area: None, close_button_area: None, ..c }
    }
}

/// Lays out a frame: a shown sidebar docks on a wide terminal, with its
/// close button at its top right, and overlays on a narrow one. The chrome
/// records the width and drops the clickable areas that this layout has no
/// use for.
pub fn plan_render_layout(chrome: &mut SessionSidebarChromeState, area: Rect) -> (r: SessionRenderLayout)
    ensures
        r == render_layout_spec(*old(chrome), area),
        *final(chrome) == chrome_after_layout(*old(chrome), area),
{
    chrome.last_terminal_width = area.width;
    let show = session_sidebar_visible(&chrome.lifecycle, area.width);
    if show && area.width > SESSION_SIDEBAR_WIDE_THRESHOLD {
        chrome.open_button_area = None;
        chrome.backdrop_area = None;
        chrome.close_button_area = None;
        let w = if SIDEBAR_WIDTH <= area.width { SIDEBAR_WIDTH } else { area.width };
        let mut constraints: Vec<LayoutConstraint> = Vec::new();
        constraints.push(LayoutConstraint::Min(0));
        constraints.push(LayoutConstraint::Length(w));
        assert(constraints@ =~= docked_constraints(w));
        let pieces = layout_split(LayoutDirection::Horizontal, &constraints, area);
        chrome.close_button_area = Some(sidebar_close_button_area(pieces[1]));
        SessionRenderLayout {
            main_area: pieces[0],
            sidebar: SessionSidebarLayout::Docked { sidebar_area: pieces[1] },
        }
    } else if show {
        chrome.open_button_area = None;
        SessionRenderLayout { main_area: area, sidebar: SessionSidebarLayout::Overlay }
    } else {
        chrome.backdrop_area = None;
        chrome.close_button_area = None;
        SessionRenderLayout { main_area: area, sidebar: SessionSidebarLayout::Hidden }
    }
}

/// Places the overlay sidebar over `area`: the whole area becomes the
/// backdrop and the close button sits at the sidebar's top right. Gives the
/// sidebar's area.
pub fn place_sidebar_overlay(chrome: &mut SessionSidebarChromeState, area: Rect) -> (r: Rect)
    requires
        area.x + area.width <= u16::MAX,
    ensures
        r == overlay_sidebar_area_spec(area),
        *final(chrome) == (SessionSidebarChromeState {
            backdrop_area: Some(area),
            close_button_area: Some(close_button_spec(r)),
            ..*old(chrome)
        }),
{
    let sidebar_area = overlay_sidebar_area(area);
    chrome.backdrop_area = Some(area);
    chrome.close_button_area = Some(sidebar_close_button_area(sidebar_area));
    sidebar_area
}

/// Places the button that opens the sidebar at the right edge of `area`;
/// none for an empty area.
pub fn place_sidebar_open_button(chrome: &mut SessionSidebarChromeState, area: Rect)
    requires
        area.y + area.height <= u16::MAX + 1,
    ensures
        *final(chrome) == (SessionSidebarChromeState {
            open_button_area: open_button_spec(area),
            ..*old(chrome)
        }),
{
    chrome.open_button_area = sidebar_open_button_area(area);
}

// ---------------------------------------------------------------------------
// The main pane
// ---------------------------------------------------------------------------

/// Below this width the header takes two rows, else one.
pub const HEADER_NARROW_THRESHOLD: u16 = 80;

/// Where the main pane's parts go, and which of them show.
#[derive(Clone, Copy, Debug, PartialEq, Eq, Structural)]
pub struct MainPaneLayout {
    pub header_area: Rect,
    pub messages_area: Rect,
    pub footer_area: Rect,
    pub prompt_area: Rect,
    pub show_header: bool,
    pub show_prompt: bool,
}

/// The header's rows: one in a wide pane, where its title and context
/// share a line, two in a narrow one.
pub open spec fn header_height(show_header: bool, width: u16) -> u16 {
    if !show_header {
        0
    } else if width < HEADER_NARROW_THRESHOLD {
        2
    } else {
        1
    }
}

/// Whether the prompt shows: when it holds text, or when the messages are
/// scrolled to their end.
pub open spec fn prompt_shown(
    viewport: SessionMessageViewportState,
    rows_for_messages: u16,
    prompt_blank: bool,
) -> bool {
    let viewport_height: usize = if viewport.messages_viewport_height == 0 {
        rows_for_messages as usize
    } else {
        viewport.messages_viewport_height
    };
    let end: int = viewport.scroll_offset + viewport_height;
    let reached: usize = if end <= usize::MAX { end as usize } else { usize::MAX };
    !prompt_blank || reached >= viewport.rendered_line_count
}

/// The vertical constraints of the main pane: header, messages, footer,
/// prompt and what is left.
pub open spec fn main_pane_constraints(
    viewport: SessionMessageViewportState,
    show_header: bool,
    width: u16,
    height: u16,
    prompt_desired_height: u16,
    prompt_blank: bool,
) -> Seq<LayoutConstraint> {
    let hh = header_height(show_header, width);
    let after_header = sat_sub_u16(height, hh);
    let after_footer = sat_sub_u16(after_header, 1);
    let footer = LayoutConstraint::Length(min_u16(1, after_header));
    let desired: u16 = if prompt_desired_height >= 3 { prompt_desired_height } else { 3 };
    let show_prompt = prompt_shown(viewport, after_footer, prompt_blank);
    let prompt_height: u16 = if show_prompt { min_u16(desired, after_footer) } else { 0 };
    if !show_prompt {
        seq![
            LayoutConstraint::Length(hh),
            LayoutConstraint::Min(0),
            footer,
            LayoutConstraint::Length(0),
            LayoutConstraint::Length(0),
        ]
    } else if after_footer <= prompt_height {
        seq![
            LayoutConstraint::Length(hh),
            LayoutConstraint::Min(0),
            footer,
            LayoutConstraint::Length(min_u16(prompt_height, after_footer)),
            LayoutConstraint::Min(0),
        ]
    } else {
        let max_messages = sat_sub_u16(after_footer, prompt_height);
        let lines = viewport.rendered_line_count as u16;
        let at_least_one: u16 = if lines >= 1 { lines } else { 1 };
        seq![
            LayoutConstraint::Length(hh),
            LayoutConstraint::Length(min_u16(at_least_one, max_messages)),
            footer,
            LayoutConstraint::Length(prompt_height),
            LayoutConstraint::Min(0),
        ]
    }
}

/// The main pane's layout over the whole of `area`; none for an empty area.
pub open spec fn main_layout_spec(
    viewport: SessionMessageViewportState,
    show_header: bool,
    area: Rect,
    prompt_desired_height: u16,
    prompt_input: Seq<char>,
) -> Option<MainPaneLayout> {
    if area.width == 0 || area.height == 0 {
        None
    } else {
        let cs = main_pane_constraints(
            viewport,
            show_header,
            area.width,
            area.height,
            prompt_desired_height,
            blank(prompt_input),
        );
        let pieces = ratatui_split(LayoutDirection::Vertical, cs, area);
        let after_footer = sat_sub_u16(sat_sub_u16(area.height, header_height(show_header, area.width)), 1);
        Some(MainPaneLayout {
            header_area: pieces[0],
            messages_area: pieces[1],
            footer_area: pieces[2],
            prompt_area: pieces[3],
            show_header,
            show_prompt: prompt_shown(viewport, after_footer, blank(prompt_input)),
        })
    }
}

/// Lays out the main pane over the whole of its area: none for an empty
/// area. `prompt_desired_height` is the height the prompt asks for at the
/// pane's width; `prompt_input` is its text.
pub fn plan_main_layout(
    viewport: &SessionMessageViewportState,
    show_header: bool,
    area: Rect,
    prompt_desired_height: u16,
    prompt_input: &str,
) -> (r: Option<MainPaneLayout>)
    ensures
        r == main_layout_spec(*viewport, show_header, area, prompt_desired_height, prompt_input@),
{
    if area.width == 0 || area.height == 0 {
        return None;
    }
    let header_height: u16 = if show_header {
        if area.width < HEADER_NARROW_THRESHOLD {
            2
        } else {
            1
        }
    } else {
        0
    };
    let session_footer_height: u16 = 1;
    let desired_prompt_height: u16 = if prompt_desired_height >= 3 { prompt_desired_height } else { 3 };
    let available_after_header = area.height.saturating_sub(header_height);
    let available_after_header_footer = available_after_header.saturating_sub(session_footer_height);
    let prompt_blank = is_blank(prompt_input);
    let viewport_height: usize = if viewport.messages_viewport_height == 0 {
        available_after_header_footer as usize
    } else {
        viewport.messages_viewport_height
    };
    let near_bottom = viewport.scroll_offset.saturating_add(viewport_height) >= viewport.rendered_line_count;
    let show_prompt = !prompt_blank || near_bottom;
    let prompt_height: u16 = if show_prompt {
        if desired_prompt_height <= available_after_header_footer {
            desired_prompt_height
        } else {
            available_after_header_footer
        }
    } else {
        0
    };
    let footer_height = if session_footer_height <= available_after_header {
        session_footer_height
    } else {
        available_after_header
    };
    let mut constraints: Vec<LayoutConstraint> = Vec::new();
    constraints.push(LayoutConstraint::Length(header_height));
    if !show_prompt {
        constraints.push(LayoutConstraint::Min(0));
        constraints.push(LayoutConstraint::Length(footer_height));
        constraints.push(LayoutConstraint::Length(0));
        constraints.push(LayoutConstraint::Length(0));
    } else if available_after_header_footer <= prompt_height {
        constraints.push(LayoutConstraint::Min(0));
        constraints.push(LayoutConstraint::Length(footer_height));
        let p = if prompt_height <= available_after_header_footer {
            prompt_height
        } else {
            available_after_header_footer
        };
        constraints.push(LayoutConstraint::Length(p));
        constraints.push(LayoutConstraint::Min(0));
    } else {
        let max_messages_height = available_after_header_footer.saturating_sub(prompt_height);
        #[verifier::truncate]
        let lines = viewport.rendered_line_count as u16;
        let at_least_one: u16 = if lines >= 1 { lines } else { 1 };
        let desired_messages_height = if at_least_one <= max_messages_height {
            at_least_one
        } else {
            max_messages_height
        };
        constraints.push(LayoutConstraint::Length(desired_messages_height));
        constraints.push(LayoutConstraint::Length(footer_height));
        constraints.push(LayoutConstraint::Length(prompt_height));
        constraints.push(LayoutConstraint::Min(0));
    }
    assert(constraints@ =~= main_pane_constraints(
        *viewport,
        show_header,
        area.width,
        area.height,
        prompt_desired_height,
        prompt_blank,
    ));
    let layout = layout_split(LayoutDirection::Vertical, &constraints, area);
    Some(MainPaneLayout {
        header_area: layout[0],
        messages_area: layout[1],
        footer_area: layout[2],
        prompt_area: layout[3],
        show_header,
        show_prompt,
    })
}

} // verus!
