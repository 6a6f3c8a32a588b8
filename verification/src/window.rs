//! The window the gallery opens: its title, app_id and shell hooks, the widgets a child
//! window is built from, and the page's header dropdowns.
use vstd::prelude::*;
use crate::child_kind::{ChildKind, title_text, app_id_text, arg_text, lemma_app_id_distinct};
use crate::text::ascii_lower;
use crate::text::text_eq;

verus! {

/// The title of the window: the child kind's title, `Gallery` for the gallery.
pub open spec fn window_title_text(kind: Option<ChildKind>) -> Seq<char> {
    match kind {
        Some(k) => title_text(k),
        None => "Gallery"@,
    }
}

/// The app_id of the window: the child kind's app_id, `cce-gallery` for the gallery,
/// with `-noborder` appended when the border is disabled.
pub open spec fn window_app_id_text(kind: Option<ChildKind>, border_enabled: bool) -> Seq<char> {
    let base = match kind {
        Some(k) => app_id_text(k),
        None => "cce-gallery"@,
    };
    if border_enabled {
        base
    } else {
        base + "-noborder"@
    }
}

proof fn lemma_app_id_last(k: ChildKind)
    ensures
        app_id_text(k).len() >= 22,
        app_id_text(k).last() != 'r',
{
    reveal_strlit("cce-status-right-gallery");
    reveal_strlit("cce-gallery-child-");
    reveal_strlit("Floating");
    reveal_strlit("Fullscreen");
    reveal_strlit("Utility");
    reveal_strlit("LayerTop");
    reveal_strlit("LayerOverlay");
    reveal_strlit("LayerBackground");
    reveal_strlit("Ramp");
    reveal_strlit("ColorRamp");
    if k != ChildKind::Status {
        let a = arg_text(k);
        assert(app_id_text(k).last() == ascii_lower(a)[a.len() - 1]);
    }
}

/// Every window the binary can open has its own app_id: two windows share one only
/// when they are the same kind (or both the gallery) with the same border setting, so
/// a compositor rule can target each.
pub proof fn lemma_window_app_id_distinct(
    k1: Option<ChildKind>,
    b1: bool,
    k2: Option<ChildKind>,
    b2: bool,
)
    ensures
        window_app_id_text(k1, b1) == window_app_id_text(k2, b2) ==> k1 == k2 && b1 == b2,
{
    reveal_strlit("cce-gallery");
    reveal_strlit("-noborder");
    let base = |k: Option<ChildKind>|
        match k {
            Some(j) => app_id_text(j),
            None => "cce-gallery"@,
        };
    let a = window_app_id_text(k1, b1);
    let b = window_app_id_text(k2, b2);
    if a == b {
        if let Some(j) = k1 {
            lemma_app_id_last(j);
        }
        if let Some(j) = k2 {
            lemma_app_id_last(j);
        }
        let s = "-noborder"@;
        assert(base(k1).last() != 'r');
        assert(base(k2).last() != 'r');
        if !b1 {
            assert(a.last() == 'r');
        }
        if !b2 {
            assert(b.last() == 'r');
        }
        assert(b1 == b2);
        if !b1 {
            assert(a.take(a.len() - 9) =~= base(k1));
            assert(b.take(b.len() - 9) =~= base(k2));
        }
        assert(base(k1) == base(k2));
        match (k1, k2) {
            (Some(j1), Some(j2)) => {
                lemma_app_id_distinct(j1, j2);
            },
            (None, None) => {},
            _ => {
                assert(base(k1).len() != base(k2).len());
            },
        }
    }
}

/// The window title (also the menu bar's title).
pub fn window_title(kind: Option<ChildKind>) -> (r: String)
    ensures
        r@ == window_title_text(kind),
{
    match kind {
        Some(k) => String::from_str(k.title()),
        None => String::from_str("Gallery"),
    }
}

/// The window's app_id, which compositor rules match on.
pub fn window_app_id(kind: Option<ChildKind>, border_enabled: bool) -> (r: String)
    ensures
        r@ == window_app_id_text(kind, border_enabled),
{
    let mut id = match kind {
        Some(k) => k.app_id(),
        None => String::from_str("cce-gallery"),
    };
    if !border_enabled {
        id.append("-noborder");
    }
    id
}

/// Whether the toplevel asks for fullscreen: only a Fullscreen child does.
pub fn wants_fullscreen(kind: Option<ChildKind>) -> (r: bool)
    ensures
        r == (kind == Some(ChildKind::Fullscreen)),
{
    match kind {
        Some(ChildKind::Fullscreen) => true,
        _ => false,
    }
}

/// Whether the window answers the toolkit's `utility` hook: only a Utility child does.
pub fn is_utility(kind: Option<ChildKind>) -> (r: bool)
    ensures
        r == (kind == Some(ChildKind::Utility)),
{
    match kind {
        Some(ChildKind::Utility) => true,
        _ => false,
    }
}

/// Whether an application message asks the gallery to quit; any other message becomes
/// the status line.
pub fn is_exit_message(msg: &str) -> (r: bool)
    ensures
        r == (msg@ == "exit"@),
{
    text_eq(msg, "exit")
}

/// Whether a tick that changed slot `i` writes the bevel ramp file: only the Ramp
/// editor's ramp (slot 1) does.
pub fn saves_ramp_after_tick(kind: Option<ChildKind>, i: usize) -> (r: bool)
    ensures
        r == (kind == Some(ChildKind::Ramp) && i == 1),
{
    match kind {
        Some(ChildKind::Ramp) => i == 1,
        _ => false,
    }
}

/// The slot focused when a window opens: a Ramp editor starts with its ramp (slot 1)
/// focused, so the keyboard drives it at once; every other window starts with nothing
/// focused.
pub fn initial_focus(kind: Option<ChildKind>) -> (r: Option<usize>)
    ensures
        r == (if kind == Some(ChildKind::Ramp) {
            Some(1usize)
        } else {
            None
        }),
{
    match kind {
        Some(ChildKind::Ramp) => Some(1),
        _ => None,
    }
}

/// A child window's background.
#[derive(Debug, Clone, Copy, PartialEq, Eq, Structural)]
pub enum ChildBackground {
    RootPlate,
    ContentBg,
}

/// A child window's main widget (slot 1).
#[derive(Debug, Clone, Copy, PartialEq, Eq, Structural)]
pub enum ChildMainWidget {
    ColorRampEditor,
    RampEditor,
    Description,
}

/// What a child window's slots 3 and 4 hold.
#[derive(Debug, Clone, Copy, PartialEq, Eq, Structural)]
pub enum ChildAuxWidgets {
    /// Two empty labels, under an editor.
    Labels,
    /// A menu bar and a status bar, in a test window.
    MenuAndStatusBar,
}

/// The widgets a child window is built from.
#[derive(Debug, Clone, Copy, PartialEq, Eq, Structural)]
pub struct ChildPlan {
    pub background: ChildBackground,
    pub main: ChildMainWidget,
    pub aux: ChildAuxWidgets,
}

/// The widgets of a child of kind `kind`: the root plate or the plain content
/// background; the ColorRamp or Ramp editor with two labels under an editor kind, the
/// kind's description with a menu bar and a status bar under any other.
pub fn child_plan(kind: ChildKind, use_root_plate: bool) -> (r: ChildPlan)
    ensures
        r.background == (if use_root_plate {
            ChildBackground::RootPlate
        } else {
            ChildBackground::ContentBg
        }),
        r.main == (match kind {
            ChildKind::ColorRamp => ChildMainWidget::ColorRampEditor,
            ChildKind::Ramp => ChildMainWidget::RampEditor,
            _ => ChildMainWidget::Description,
        }),
        r.aux == (match kind {
            ChildKind::ColorRamp | ChildKind::Ramp => ChildAuxWidgets::Labels,
            _ => ChildAuxWidgets::MenuAndStatusBar,
        }),
{
    let background = if use_root_plate {
        ChildBackground::RootPlate
    } else {
        ChildBackground::ContentBg
    };
    let (main, aux) = match kind {
        ChildKind::ColorRamp => (ChildMainWidget::ColorRampEditor, ChildAuxWidgets::Labels),
        ChildKind::Ramp => (ChildMainWidget::RampEditor, ChildAuxWidgets::Labels),
        _ => (ChildMainWidget::Description, ChildAuxWidgets::MenuAndStatusBar),
    };
    ChildPlan { background, main, aux }
}

/// The number of container layouts the Layout dropdown offers.
pub const LAYOUT_COUNT: usize = 7;

/// The layout the page opens with (Mosaic).
pub const DEFAULT_LAYOUT: usize = 4;

/// The name of each container layout, in dropdown order.
pub open spec fn layout_name_text(i: int) -> Seq<char> {
    if i == 0 {
        "Vertical"@
    } else if i == 1 {
        "Columns"@
    } else if i == 2 {
        "Grid"@
    } else if i == 3 {
        "Adaptive Grid"@
    } else if i == 4 {
        "Mosaic"@
    } else if i == 5 {
        "Reverse Mosaic"@
    } else {
        "Overlay"@
    }
}

/// The dropdown name of layout `i`.
pub fn layout_name(i: usize) -> (r: &'static str)
    requires
        i < LAYOUT_COUNT,
    ensures
        r@ == layout_name_text(i as int),
{
    match i {
        0 => "Vertical",
        1 => "Columns",
        2 => "Grid",
        3 => "Adaptive Grid",
        4 => "Mosaic",
        5 => "Reverse Mosaic",
        _ => "Overlay",
    }
}

/// The layout that runs for the selection `selected`: the selected one where there is
/// one, the default layout otherwise.
pub fn layout_in_use(selected: usize) -> (r: usize)
    ensures
        r < LAYOUT_COUNT,
        r == (if selected < LAYOUT_COUNT {
            selected
        } else {
            DEFAULT_LAYOUT
        }),
{
    if selected < LAYOUT_COUNT {
        selected
    } else {
        DEFAULT_LAYOUT
    }
}

/// What draining the header dropdowns changes.
#[derive(Debug, Clone, Copy, PartialEq, Eq, Structural)]
pub struct HeaderChange {
    /// The new layout selection, when Layout was picked.
    pub layout: Option<usize>,
    /// The new control relief (on for Relief, entry 0), when Style was picked.
    pub relief: Option<bool>,
    /// Whether anything was picked, and the page must be laid out again.
    pub applied: bool,
}

/// The change a pick of the Layout dropdown (entry `layout_value`) and of the Style
/// dropdown (entry `style_value`) makes; an unpicked dropdown changes nothing.
pub fn header_change(
    layout_picked: bool,
    layout_value: i32,
    style_picked: bool,
    style_value: i32,
) -> (r: HeaderChange)
    ensures
        r.layout == (if layout_picked {
            Some(layout_value as usize)
        } else {
            None
        }),
        r.relief == (if style_picked {
            Some(relief_of_entry(style_value))
        } else {
            None
        }),
        r.applied == (layout_picked || style_picked),
{
    let layout = if layout_picked {
        Some(layout_value as usize)
    } else {
        None
    };
    let relief = if style_picked {
        Some(style_value == 0)
    } else {
        None
    };
    HeaderChange { layout, relief, applied: layout_picked || style_picked }
}

/// The Style dropdown entry showing a control relief: Relief (0) when on, Flat (1)
/// when off.
pub open spec fn entry_of_relief(relief: bool) -> i32 {
    if relief {
        0
    } else {
        1
    }
}

/// The control relief a Style dropdown entry sets: on for Relief (0), off for any other.
pub open spec fn relief_of_entry(entry: i32) -> bool {
    entry == 0
}

/// The Style dropdown entry the page opens on for the current control relief.
pub fn style_entry(relief: bool) -> (r: i32)
    ensures
        r == entry_of_relief(relief),
{
    if relief {
        0
    } else {
        1
    }
}

/// The Style dropdown opens on the current relief and picking an entry sets the relief
/// it shows: picking the entry shown for a relief gives that relief back.
pub proof fn lemma_style_round_trip(relief: bool)
    ensures
        relief_of_entry(entry_of_relief(relief)) == relief,
{
}

} // verus!
