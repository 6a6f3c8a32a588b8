//! The gallery's roster of widget slots, addressed by number: which slots are shown,
//! which are exhibits, and which widget a slot number reaches.
use vstd::prelude::*;

verus! {

/// The number of named gallery slots; the variant exhibits follow them.
pub const GALLERY_COUNT: usize = 35;

/// The number of slots of a child window.
pub const CHILD_COUNT: usize = 5;

/// What the roster's visibility filter needs. The gallery shows every slot; a child
/// window shows its menu bar and status bar only when asked to.
#[derive(Debug, Clone, Copy, PartialEq, Eq, Structural)]
pub struct Visibility {
    pub is_child: bool,
    pub use_menubar: bool,
    pub use_statusbar: bool,
}

/// Whether slot `i` is shown: every slot of the gallery; in a child window the
/// background, main widget and Close button (0 to 2), the menu bar (3) when asked
/// for, the status bar (4) when asked for, and nothing else.
pub open spec fn shown(v: Visibility, i: int) -> bool {
    if v.is_child {
        (0 <= i <= 2) || (i == 3 && v.use_menubar) || (i == 4 && v.use_statusbar)
    } else {
        true
    }
}

impl Visibility {
    pub fn is_visible(self, index: usize) -> (r: bool)
        ensures
            r == shown(self, index as int),
    {
        if self.is_child {
            return match index {
                0..=2 => true,
                3 => self.use_menubar,
                4 => self.use_statusbar,
                _ => false,
            };
        }
        true
    }
}

/// The exhibit slots: every named slot but the chrome (0, 1), the header dropdowns
/// (15 Layout, 34 Style) and the lassos (32, 33), and every variant exhibit.
pub open spec fn exhibit_slot(i: int) -> bool {
    (2 <= i <= 14) || (16 <= i <= 31) || i >= GALLERY_COUNT
}

/// The two Group lassos.
pub open spec fn overlay_slot(i: int) -> bool {
    i == 32 || i == 33
}

/// The window chrome: the menu bar and the status bar.
pub open spec fn chrome_slot(i: int) -> bool {
    i == 0 || i == 1
}

/// The header dropdowns: Layout and Style.
pub open spec fn header_slot(i: int) -> bool {
    i == 15 || i == 34
}

/// The exhibits, which `layout_exhibits` lays out under the header row.
pub fn is_exhibit(i: usize) -> (r: bool)
    ensures
        r == exhibit_slot(i as int),
{
    matches!(i, 2..=14 | 16..=31) || i >= GALLERY_COUNT
}

/// The Group lassos: drawn under the exhibit clip like exhibits, laid out by their
/// members rather than by the strategy.
pub fn is_overlay(i: usize) -> (r: bool)
    ensures
        r == overlay_slot(i as int),
{
    matches!(i, 32 | 33)
}

/// Every gallery slot has exactly one role: chrome, header dropdown, exhibit or lasso.
pub proof fn lemma_gallery_slot_roles(i: int)
    requires
        0 <= i,
    ensures
        chrome_slot(i) || header_slot(i) || exhibit_slot(i) || overlay_slot(i),
        !(chrome_slot(i) && header_slot(i)),
        !(chrome_slot(i) && exhibit_slot(i)),
        !(chrome_slot(i) && overlay_slot(i)),
        !(header_slot(i) && exhibit_slot(i)),
        !(header_slot(i) && overlay_slot(i)),
        !(exhibit_slot(i) && overlay_slot(i)),
{
}

/// Whether a slot is drawn under the exhibit area's clip: the exhibits and the lassos
/// of the gallery page; nothing in a child window.
pub fn clips_to_exhibits(is_child: bool, i: usize) -> (r: bool)
    ensures
        r == (!is_child && (exhibit_slot(i as int) || overlay_slot(i as int))),
{
    !is_child && (is_exhibit(i) || is_overlay(i))
}

/// The two roster modes: the gallery page with its variant exhibits after the named
/// slots, or a child window's five slots.
#[derive(Debug, Clone, Copy, PartialEq, Eq, Structural)]
pub enum RosterShape {
    Gallery { extra: usize },
    Child,
}

/// A slot's widget: a named slot, or the variant exhibit at a position in the list of
/// variant exhibits.
#[derive(Debug, Clone, Copy, PartialEq, Eq, Structural)]
pub enum SlotRef {
    Named(usize),
    Extra(usize),
}

/// The number of slots.
pub open spec fn slot_count(r: RosterShape) -> int {
    match r {
        RosterShape::Gallery { extra } => GALLERY_COUNT + extra,
        RosterShape::Child => CHILD_COUNT as int,
    }
}

/// A gallery whose variant exhibits can be counted after the named slots.
pub open spec fn shape_ok(r: RosterShape) -> bool {
    match r {
        RosterShape::Gallery { extra } => extra <= usize::MAX - GALLERY_COUNT,
        RosterShape::Child => true,
    }
}

impl RosterShape {
    /// The number of slots: the named gallery slots plus the variant exhibits, or the
    /// five child slots.
    pub fn len(&self) -> (r: usize)
        requires
            shape_ok(*self),
        ensures
            r == slot_count(*self),
    {
        match self {
            RosterShape::Gallery { extra } => GALLERY_COUNT + *extra,
            RosterShape::Child => CHILD_COUNT,
        }
    }

    /// The widget slot `idx` reaches: a gallery slot past the named ones is a variant
    /// exhibit.
    pub fn slot(&self, idx: usize) -> (r: SlotRef)
        requires
            idx < slot_count(*self),
        ensures
            r == (match *self {
                RosterShape::Gallery { .. } => if idx < GALLERY_COUNT {
                    SlotRef::Named(idx)
                } else {
                    SlotRef::Extra((idx - GALLERY_COUNT) as usize)
                },
                RosterShape::Child => SlotRef::Named(idx),
            }),
    {
        match self {
            RosterShape::Gallery { .. } => if idx < GALLERY_COUNT {
                SlotRef::Named(idx)
            } else {
                SlotRef::Extra(idx - GALLERY_COUNT)
            },
            RosterShape::Child => SlotRef::Named(idx),
        }
    }

    /// The named slot whose widget answers a drag query (`draggable`, `is_dragging`)
    /// for slot `idx`; `None` where the answer is `false` without asking: the variant
    /// exhibits and the lassos never drag.
    pub fn drag_slot(&self, idx: usize) -> (r: Option<usize>)
        requires
            *self == RosterShape::Child ==> idx < CHILD_COUNT,
        ensures
            r == (match *self {
                RosterShape::Gallery { .. } => if idx >= GALLERY_COUNT || overlay_slot(idx as int) {
                    None
                } else {
                    Some(idx)
                },
                RosterShape::Child => Some(idx),
            }),
    {
        match self {
            RosterShape::Gallery { .. } => {
                if idx >= GALLERY_COUNT || is_overlay(idx) {
                    None
                } else {
                    Some(idx)
                }
            },
            RosterShape::Child => Some(idx),
        }
    }

    /// The named slot whose pending click `take_click` drains for slot `idx`; `None`
    /// where nothing is drained: in a child window every slot but Close (2); in the
    /// gallery the lassos and the variant exhibits, which are looked at, not drained.
    pub fn click_slot(&self, idx: usize) -> (r: Option<usize>)
        requires
            *self != RosterShape::Child ==> !chrome_slot(idx as int),
        ensures
            r == (match *self {
                RosterShape::Gallery { .. } => if idx >= GALLERY_COUNT || overlay_slot(idx as int) {
                    None
                } else {
                    Some(idx)
                },
                RosterShape::Child => if idx == 2 {
                    Some(2usize)
                } else {
                    None
                },
            }),
    {
        match self {
            RosterShape::Gallery { .. } => {
                if idx >= GALLERY_COUNT || is_overlay(idx) {
                    None
                } else {
                    Some(idx)
                }
            },
            RosterShape::Child => if idx == 2 {
                Some(2)
            } else {
                None
            },
        }
    }

    /// Whether slot `idx` has a selection to read (`value`): only the gallery's two
    /// header dropdowns do.
    pub fn has_value(&self, idx: usize) -> (r: bool)
        ensures
            r == (*self != RosterShape::Child && header_slot(idx as int)),
    {
        match self {
            RosterShape::Gallery { .. } => idx == 15 || idx == 34,
            RosterShape::Child => false,
        }
    }
}

/// The named exhibits in the order the page lays them out: the top row (Button,
/// ButtonStrip, Checkbox, Toggle), the value controls, the text inputs, the selectors,
/// the bars and indicators, the structure widgets, the canvases and the editor buttons.
pub open spec fn named_exhibit_order() -> Seq<usize> {
    seq![
        2usize, 19, 3, 4, 6, 8, 20, 7, 21, 10, 18, 16, 17, 5, 22, 23, 30, 31, 24, 25, 26, 27, 9, 11,
        28, 29, 13, 12, 14,
    ]
}

/// The exhibits in layout order: the named ones, then the variant exhibits in their
/// own order.
pub open spec fn exhibit_order_of(extra: nat) -> Seq<usize> {
    named_exhibit_order() + Seq::new(extra, |k: int| (GALLERY_COUNT + k) as usize)
}

/// The exhibits of a gallery with `extra` variant exhibits, in the order the page lays
/// them out.
pub fn exhibit_order(extra: usize) -> (r: Vec<usize>)
    requires
        extra <= usize::MAX - GALLERY_COUNT,
    ensures
        r@ == exhibit_order_of(extra as nat),
{
    let mut r: Vec<usize> = vec![
        2, 19, 3, 4, 6, 8, 20, 7, 21, 10, 18, 16, 17, 5, 22, 23, 30, 31, 24, 25, 26, 27, 9, 11, 28,
        29, 13, 12, 14,
    ];
    assert(r@ =~= named_exhibit_order());
    let mut k: usize = 0;
    while k < extra
        invariant
            k <= extra <= usize::MAX - GALLERY_COUNT,
            r@ == named_exhibit_order() + Seq::new(k as nat, |j: int| (GALLERY_COUNT + j) as usize),
        decreases extra - k,
    {
        r.push(GALLERY_COUNT + k);
        k = k + 1;
        assert(r@ =~= named_exhibit_order() + Seq::new(k as nat, |j: int| (GALLERY_COUNT + j) as usize));
    }
    r
}

/// Where named exhibit `i` stands in `named_exhibit_order`.
pub open spec fn named_exhibit_position(i: int) -> int {
    if i == 2 { 0 } else if i == 19 { 1 } else if i == 3 { 2 } else if i == 4 { 3 }
    else if i == 6 { 4 } else if i == 8 { 5 } else if i == 20 { 6 } else if i == 7 { 7 }
    else if i == 21 { 8 } else if i == 10 { 9 } else if i == 18 { 10 } else if i == 16 { 11 }
    else if i == 17 { 12 } else if i == 5 { 13 } else if i == 22 { 14 } else if i == 23 { 15 }
    else if i == 30 { 16 } else if i == 31 { 17 } else if i == 24 { 18 } else if i == 25 { 19 }
    else if i == 26 { 20 } else if i == 27 { 21 } else if i == 9 { 22 } else if i == 11 { 23 }
    else if i == 28 { 24 } else if i == 29 { 25 } else if i == 13 { 26 } else if i == 12 { 27 }
    else { 28 }
}

proof fn lemma_named_exhibit_positions()
    ensures
        named_exhibit_order().len() == 29,
        forall|j: int| 0 <= j < 29 ==> named_exhibit_position(#[trigger] named_exhibit_order()[j] as int) == j,
        forall|j: int| 0 <= j < 29 ==> exhibit_slot(#[trigger] named_exhibit_order()[j] as int)
            && named_exhibit_order()[j] < GALLERY_COUNT,
        forall|i: int| 0 <= i < GALLERY_COUNT && exhibit_slot(i) ==> 0 <= #[trigger] named_exhibit_position(i) < 29
            && named_exhibit_order()[named_exhibit_position(i)] == i,
{
    let s = named_exhibit_order();
    assert(s[0] == 2 && s[1] == 19 && s[2] == 3 && s[3] == 4 && s[4] == 6 && s[5] == 8);
    assert(s[6] == 20 && s[7] == 7 && s[8] == 21 && s[9] == 10 && s[10] == 18 && s[11] == 16);
    assert(s[12] == 17 && s[13] == 5 && s[14] == 22 && s[15] == 23 && s[16] == 30 && s[17] == 31);
    assert(s[18] == 24 && s[19] == 25 && s[20] == 26 && s[21] == 27 && s[22] == 9 && s[23] == 11);
    assert(s[24] == 28 && s[25] == 29 && s[26] == 13 && s[27] == 12 && s[28] == 14);
}

/// The page lays out every exhibit exactly once: the layout order of a gallery with
/// `extra` variant exhibits lists each exhibit slot below its slot count once, and no
/// other slot.
pub proof fn lemma_exhibit_order_complete(extra: nat)
    requires
        extra <= usize::MAX - GALLERY_COUNT,
    ensures
        ({
            let s = exhibit_order_of(extra);
            &&& forall|j: int, k: int| 0 <= j < k < s.len() ==> s[j] != s[k]
            &&& forall|j: int| 0 <= j < s.len() ==> exhibit_slot(s[j] as int) && s[j] < GALLERY_COUNT + extra
            &&& forall|i: int| 0 <= i < GALLERY_COUNT + extra && exhibit_slot(i) ==> s.contains(i as usize)
        }),
{
    lemma_named_exhibit_positions();
    let n = named_exhibit_order();
    let s = exhibit_order_of(extra);
    let e = Seq::new(extra, |k: int| (GALLERY_COUNT + k) as usize);
    assert(s == n + e);
    assert forall|k: int| 0 <= k < extra implies #[trigger] e[k] == GALLERY_COUNT + k by {}
    assert forall|j: int| 0 <= j < s.len() implies exhibit_slot(s[j] as int) && s[j] < GALLERY_COUNT + extra by {
        if j < 29 {
            assert(s[j] == n[j]);
        } else {
            assert(s[j] == e[j - 29]);
        }
    }
    assert forall|j: int, k: int| 0 <= j < k < s.len() implies s[j] != s[k] by {
        if k < 29 {
            assert(s[j] == n[j] && s[k] == n[k]);
            assert(named_exhibit_position(n[j] as int) == j);
            assert(named_exhibit_position(n[k] as int) == k);
        } else if j < 29 {
            assert(s[j] == n[j]);
        } else {
            assert(s[j] == e[j - 29]);
            assert(s[k] == e[k - 29]);
        }
    }
    assert forall|i: int| 0 <= i < GALLERY_COUNT + extra && exhibit_slot(i) implies s.contains(i as usize) by {
        if i < GALLERY_COUNT {
            let p: int = named_exhibit_position(i);
            assert(s[p] == n[p]);
        } else {
            let p: int = 29 + (i - GALLERY_COUNT);
            assert(s[p] == e[i - GALLERY_COUNT]);
            assert(s[p] == i as usize);
        }
    }
}

/// Where an exhibit's content width comes from when it is narrower than the width the
/// strategy lays it out at.
#[derive(Debug, Clone, Copy, PartialEq, Eq, Structural)]
pub enum ContentWidth {
    /// The named StatusDot (slot 23): the dot's own size.
    StatusDot,
    /// A variant exhibit: its own content width, if it has one.
    Extra(usize),
    /// Any other slot: the width it was laid out at.
    LaidOut,
}

/// Where the content width of gallery slot `idx` comes from.
pub fn content_width_source(idx: usize) -> (r: ContentWidth)
    ensures
        r == (if idx == 23 {
            ContentWidth::StatusDot
        } else if idx >= GALLERY_COUNT {
            ContentWidth::Extra((idx - GALLERY_COUNT) as usize)
        } else {
            ContentWidth::LaidOut
        }),
{
    if idx == 23 {
        ContentWidth::StatusDot
    } else if idx >= GALLERY_COUNT {
        ContentWidth::Extra(idx - GALLERY_COUNT)
    } else {
        ContentWidth::LaidOut
    }
}

/// What `apply_layout` does with one slot.
#[derive(Debug, Clone, Copy, PartialEq, Eq, Structural)]
pub enum Placement {
    /// Left alone: being dragged, or a gallery exhibit (laid out by the strategy).
    Skip,
    /// A shown header dropdown: landed at its own preferred height below its label.
    Header,
    /// A shown slot: set to its rect from the positions table.
    Place,
    /// A hidden slot: moved off screen with no size.
    Hide,
}

/// The placement of slot `i` of a roster shown as `vis`.
pub open spec fn placement_of(vis: Visibility, i: int, dragging: bool) -> Placement {
    if dragging {
        Placement::Skip
    } else if !vis.is_child && exhibit_slot(i) {
        Placement::Skip
    } else if shown(vis, i) && header_slot(i) {
        Placement::Header
    } else if shown(vis, i) {
        Placement::Place
    } else {
        Placement::Hide
    }
}

/// How `apply_layout` treats slot `i`.
pub fn placement(vis: Visibility, i: usize, dragging: bool) -> (r: Placement)
    ensures
        r == placement_of(vis, i as int, dragging),
{
    if dragging {
        return Placement::Skip;
    }
    if !vis.is_child && is_exhibit(i) {
        return Placement::Skip;
    }
    let visible = vis.is_visible(i);
    if visible && (i == 15 || i == 34) {
        Placement::Header
    } else if visible {
        Placement::Place
    } else {
        Placement::Hide
    }
}

} // verus!
