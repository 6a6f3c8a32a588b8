//! Which slots an input event is offered to, and in which order. The events themselves
//! are delivered by the toolkit; these lists are what the gallery decides.
use vstd::prelude::*;
use crate::slots::{Visibility, shown, exhibit_slot, is_exhibit};
use crate::child_kind::ChildKind;

verus! {

/// Which slots of the roster an event may reach.
#[derive(Debug, Clone, Copy, PartialEq, Eq, Structural)]
pub enum SlotFilter {
    /// Every shown slot (ticks, pointer moves, releases, popovers).
    Shown,
    /// Every shown slot a pointer at that place can reach: a gallery exhibit only while
    /// the pointer is inside the exhibit viewport (presses, wheel).
    InReach { in_viewport: bool },
    /// Every shown slot but the focused one (the key sweep after the focused slot).
    AllBut { focused: Option<usize> },
}

/// Whether the filter lets slot `i` of a roster shown as `vis` take the event.
pub open spec fn admits(vis: Visibility, f: SlotFilter, i: int) -> bool {
    match f {
        SlotFilter::Shown => shown(vis, i),
        SlotFilter::InReach { in_viewport } => shown(vis, i) && (vis.is_child || !exhibit_slot(i)
            || in_viewport),
        SlotFilter::AllBut { focused } => shown(vis, i) && focused != Some(i as usize),
    }
}

/// `r` lists, in increasing order, exactly the slots below `n` that the filter admits.
pub open spec fn lists_ascending(r: Seq<usize>, vis: Visibility, f: SlotFilter, n: int) -> bool {
    &&& forall|j: int, k: int| 0 <= j < k < r.len() ==> r[j] < r[k]
    &&& forall|j: int| 0 <= j < r.len() ==> r[j] < n && admits(vis, f, r[j] as int)
    &&& forall|i: int| 0 <= i < n && admits(vis, f, i) ==> r.contains(i as usize)
}

/// `r` lists, in decreasing order, exactly the slots below `n` that the filter admits.
pub open spec fn lists_descending(r: Seq<usize>, vis: Visibility, f: SlotFilter, n: int) -> bool {
    &&& forall|j: int, k: int| 0 <= j < k < r.len() ==> r[j] > r[k]
    &&& forall|j: int| 0 <= j < r.len() ==> r[j] < n && admits(vis, f, r[j] as int)
    &&& forall|i: int| 0 <= i < n && admits(vis, f, i) ==> r.contains(i as usize)
}

fn admits_slot(vis: Visibility, f: SlotFilter, i: usize) -> (r: bool)
    ensures
        r == admits(vis, f, i as int),
{
    match f {
        SlotFilter::Shown => vis.is_visible(i),
        SlotFilter::InReach { in_viewport } => vis.is_visible(i) && (vis.is_child || !is_exhibit(i)
            || in_viewport),
        SlotFilter::AllBut { focused } => vis.is_visible(i) && match focused {
            Some(k) => k != i,
            None => true,
        },
    }
}

/// The slots below `len` the filter admits, lowest first.
pub fn slots_where(vis: Visibility, f: SlotFilter, len: usize) -> (r: Vec<usize>)
    ensures
        lists_ascending(r@, vis, f, len as int),
{
    let mut r: Vec<usize> = Vec::new();
    let mut i: usize = 0;
    while i < len
        invariant
            i <= len,
            lists_ascending(r@, vis, f, i as int),
        decreases len - i,
    {
        if admits_slot(vis, f, i) {
            let ghost before = r@;
            r.push(i);
            assert forall|j: int| 0 <= j < i + 1 && admits(vis, f, j) implies r@.contains(
                j as usize,
            ) by {
                if j == i {
                    assert(r@[before.len() as int] == i);
                } else {
                    let k = choose|k: int| 0 <= k < before.len() && before[k] == j as usize;
                    assert(r@[k] == j as usize);
                }
            }
        }
        i = i + 1;
    }
    r
}

/// The slots below `len` the filter admits, highest first: the order in which a press
/// looks for the slot under the pointer, topmost first.
pub fn slots_where_topmost_first(vis: Visibility, f: SlotFilter, len: usize) -> (r: Vec<usize>)
    ensures
        lists_descending(r@, vis, f, len as int),
{
    let mut r: Vec<usize> = Vec::new();
    let mut i: usize = len;
    while i > 0
        invariant
            i <= len,
            forall|j: int, k: int| 0 <= j < k < r@.len() ==> r@[j] > r@[k],
            forall|j: int| 0 <= j < r@.len() ==> i <= r@[j] < len && admits(vis, f, r@[j] as int),
            forall|m: int| i <= m < len && admits(vis, f, m) ==> r@.contains(m as usize),
        decreases i,
    {
        i = i - 1;
        if admits_slot(vis, f, i) {
            let ghost before = r@;
            r.push(i);
            assert forall|m: int| i <= m < len && admits(vis, f, m) implies r@.contains(
                m as usize,
            ) by {
                if m == i {
                    assert(r@[before.len() as int] == i);
                } else {
                    let k = choose|k: int| 0 <= k < before.len() && before[k] == m as usize;
                    assert(r@[k] == m as usize);
                }
            }
        }
    }
    r
}

/// A key goes to each slot at most once: the sweep after the focused slot lists no slot
/// twice and never the focused slot itself.
pub proof fn lemma_key_offered_once(r: Seq<usize>, vis: Visibility, focused: Option<usize>, n: int)
    requires
        lists_ascending(r, vis, SlotFilter::AllBut { focused: focused }, n),
    ensures
        forall|j: int, k: int| 0 <= j < r.len() && 0 <= k < r.len() && j != k ==> r[j] != r[k],
        focused matches Some(f) ==> !r.contains(f),
{
    assert forall|j: int, k: int| 0 <= j < r.len() && 0 <= k < r.len() && j != k implies r[j] != r[k] by {
        if j < k {
            assert(r[j] < r[k]);
        } else {
            assert(r[k] < r[j]);
        }
    }
    if let Some(f) = focused {
        if r.contains(f) {
            let j = choose|j: int| 0 <= j < r.len() && r[j] == f;
            assert(admits(vis, SlotFilter::AllBut { focused: focused }, r[j] as int));
        }
    }
}

/// How a left or other press changes the keyboard focus.
#[derive(Debug, Clone, Copy, PartialEq, Eq, Structural)]
pub struct FocusChange {
    /// The slot to unfocus, if any.
    pub unfocus: Option<usize>,
    /// The slot to focus, if any.
    pub focus: Option<usize>,
    /// The focused slot afterwards.
    pub focused: Option<usize>,
}

/// A left press moves the focus to the slot it lands on: the previously focused slot
/// loses it unless the press lands on it again, and a press on no slot leaves nothing
/// focused. Other buttons leave the focus as it was.
pub open spec fn focus_change_of(left: bool, focused: Option<usize>, clicked: Option<usize>) -> FocusChange {
    if !left {
        FocusChange { unfocus: None, focus: None, focused: focused }
    } else {
        let unfocus = match focused {
            Some(old) => if Some(old) != clicked {
                Some(old)
            } else {
                None
            },
            None => None,
        };
        FocusChange {
            unfocus: unfocus,
            focus: clicked,
            focused: match clicked {
                Some(i) => Some(i),
                None => if unfocus is Some {
                    None
                } else {
                    focused
                },
            },
        }
    }
}

/// The focus change of a press of the left button (`left`) or another one, with
/// `focused` focused before and the press landing on `clicked`.
pub fn focus_after_press(left: bool, focused: Option<usize>, clicked: Option<usize>) -> (r: FocusChange)
    ensures
        r == focus_change_of(left, focused, clicked),
{
    let mut now = focused;
    let mut unfocus: Option<usize> = None;
    if left {
        if let Some(old) = focused {
            let same = match clicked {
                Some(c) => c == old,
                None => false,
            };
            if !same {
                unfocus = Some(old);
                now = None;
            }
        }
    }
    let mut focus: Option<usize> = None;
    if let Some(i) = clicked {
        if left {
            focus = Some(i);
            now = Some(i);
        }
    }
    FocusChange { unfocus, focus, focused: now }
}

/// Whether a key no slot took quits the gallery: an Escape press.
pub fn key_quits(handled: bool, pressed: bool, is_escape: bool) -> (r: bool)
    ensures
        r == (!handled && pressed && is_escape),
{
    !handled && pressed && is_escape
}

/// One step of what a left-button release does once every shown slot has seen it.
#[derive(Debug, Clone, Copy, PartialEq, Eq, Structural)]
pub enum ReleaseStep {
    /// Drain the pending click of a slot; what follows depends on whether it had one.
    TakeClick(usize),
    /// Apply the header dropdowns' picks; what follows depends on whether there was one.
    ApplyHeaders,
    /// Drain the clicks of every slot in `release_drained_slots`, then stop.
    DrainAll,
    /// Quit the window.
    Exit,
    /// Open an editor window of this kind.
    OpenEditor(ChildKind),
    /// Nothing more to do.
    Finish,
}

/// The first step of a left release: a child window looks at its Close button (slot 2);
/// the gallery applies its header dropdowns first.
pub fn release_first(is_child: bool) -> (r: ReleaseStep)
    ensures
        r == (if is_child {
            ReleaseStep::TakeClick(2)
        } else {
            ReleaseStep::ApplyHeaders
        }),
{
    if is_child {
        ReleaseStep::TakeClick(2)
    } else {
        ReleaseStep::ApplyHeaders
    }
}

/// The step after `step`, which found something (`found`: a pending click, a header
/// pick) or not. A clicked Close quits a child window. In the gallery a header pick
/// ends the release; otherwise the Color Ramp button (12) opens the ColorRamp editor,
/// else the Ramp button (14) opens the Ramp editor, else the other slots' clicks are
/// drained.
pub open spec fn release_after_spec(is_child: bool, step: ReleaseStep, found: bool) -> ReleaseStep {
    match step {
        ReleaseStep::TakeClick(i) => if is_child {
            if i == 2 && found {
                ReleaseStep::Exit
            } else {
                ReleaseStep::Finish
            }
        } else if i == 12 {
            if found {
                ReleaseStep::OpenEditor(ChildKind::ColorRamp)
            } else {
                ReleaseStep::TakeClick(14)
            }
        } else if i == 14 {
            if found {
                ReleaseStep::OpenEditor(ChildKind::Ramp)
            } else {
                ReleaseStep::DrainAll
            }
        } else {
            ReleaseStep::Finish
        },
        ReleaseStep::ApplyHeaders => if found {
            ReleaseStep::Finish
        } else {
            ReleaseStep::TakeClick(12)
        },
        _ => ReleaseStep::Finish,
    }
}

/// The next step of a left release.
pub fn release_after(is_child: bool, step: ReleaseStep, found: bool) -> (r: ReleaseStep)
    ensures
        r == release_after_spec(is_child, step, found),
{
    match step {
        ReleaseStep::TakeClick(i) => {
            if is_child {
                if i == 2 && found {
                    ReleaseStep::Exit
                } else {
                    ReleaseStep::Finish
                }
            } else if i == 12 {
                if found {
                    ReleaseStep::OpenEditor(ChildKind::ColorRamp)
                } else {
                    ReleaseStep::TakeClick(14)
                }
            } else if i == 14 {
                if found {
                    ReleaseStep::OpenEditor(ChildKind::Ramp)
                } else {
                    ReleaseStep::DrainAll
                }
            } else {
                ReleaseStep::Finish
            }
        },
        ReleaseStep::ApplyHeaders => if found {
            ReleaseStep::Finish
        } else {
            ReleaseStep::TakeClick(12)
        },
        _ => ReleaseStep::Finish,
    }
}

/// A release always comes to an end: within three steps after its first one it
/// reaches `Finish`, `Exit`, `OpenEditor` or `DrainAll` (which drains and stops),
/// whatever each step finds.
pub proof fn lemma_release_ends(is_child: bool, f1: bool, f2: bool, f3: bool)
    ensures
        ({
            let s0 = if is_child {
                ReleaseStep::TakeClick(2)
            } else {
                ReleaseStep::ApplyHeaders
            };
            let s1 = release_after_spec(is_child, s0, f1);
            let s2 = release_after_spec(is_child, s1, f2);
            let s3 = release_after_spec(is_child, s2, f3);
            let ends = |s: ReleaseStep| s is Finish || s is Exit || s is OpenEditor || s is DrainAll;
            ends(s1) || ends(s2) || ends(s3)
        }),
{
}

/// The gallery slots whose pending clicks a left release drains, once the header
/// dropdowns and the editor buttons have had theirs.
pub fn release_drained_slots() -> (r: Vec<usize>)
    ensures
        r@ == seq![2usize, 3, 4, 6, 7, 8, 9, 10, 11, 16, 17, 18, 19, 20, 21, 25, 26, 27, 28, 29],
{
    vec![2, 3, 4, 6, 7, 8, 9, 10, 11, 16, 17, 18, 19, 20, 21, 25, 26, 27, 28, 29]
}


/// Only the left button moves the keyboard focus. Any other press leaves it as it
/// was. A left press gives the focus to the slot it lands on (or to none), and takes it
/// from the previously focused slot exactly when that is a different one.
pub proof fn lemma_focus_rules(left: bool, focused: Option<usize>, clicked: Option<usize>)
    ensures
        !left ==> focus_change_of(left, focused, clicked) == (FocusChange {
            unfocus: None,
            focus: None,
            focused: focused,
        }),
        left ==> focus_change_of(left, focused, clicked).focused == clicked,
        left ==> focus_change_of(left, focused, clicked).focus == clicked,
        left ==> focus_change_of(left, focused, clicked).unfocus == (if focused is Some && focused
            != clicked {
            focused
        } else {
            None
        }),
{
}

} // verus!
