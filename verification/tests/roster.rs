use cce_gallery::child_kind::ChildKind;
use cce_gallery::dispatch::{
    focus_after_press, key_quits, release_after, release_drained_slots, release_first, slots_where,
    slots_where_topmost_first, FocusChange, ReleaseStep, SlotFilter,
};
use cce_gallery::slots::{
    clips_to_exhibits, content_width_source, exhibit_order, placement, ContentWidth, Placement,
    RosterShape, SlotRef,
};
use cce_gallery::{is_exhibit, is_overlay, Visibility, CHILD_COUNT, GALLERY_COUNT};

const GALLERY: Visibility = Visibility { is_child: false, use_menubar: false, use_statusbar: false };

#[test]
fn the_gallery_shows_every_slot() {
    for i in 0..60 {
        assert!(GALLERY.is_visible(i));
    }
}

#[test]
fn a_child_shows_its_bars_only_when_asked() {
    let bare = Visibility { is_child: true, use_menubar: false, use_statusbar: false };
    let both = Visibility { is_child: true, use_menubar: true, use_statusbar: true };
    let menu = Visibility { is_child: true, use_menubar: true, use_statusbar: false };
    for i in 0..3 {
        assert!(bare.is_visible(i));
    }
    assert!(!bare.is_visible(3) && !bare.is_visible(4));
    assert!(both.is_visible(3) && both.is_visible(4));
    assert!(menu.is_visible(3) && !menu.is_visible(4));
    assert!(!both.is_visible(5));
}

#[test]
fn slot_roles() {
    let exhibits: Vec<usize> = (0..40).filter(|&i| is_exhibit(i)).collect();
    let mut expected: Vec<usize> = (2..=14).chain(16..=31).collect();
    expected.extend(35..40);
    assert_eq!(exhibits, expected);
    assert!(is_overlay(32) && is_overlay(33) && !is_overlay(34) && !is_overlay(31));
    for i in 0..40 {
        let roles = [i <= 1, i == 15 || i == 34, is_exhibit(i), is_overlay(i)];
        assert_eq!(roles.iter().filter(|&&r| r).count(), 1, "slot {i}");
    }
}

#[test]
fn clipping_under_the_exhibit_area() {
    assert!(clips_to_exhibits(false, 2));
    assert!(clips_to_exhibits(false, 33));
    assert!(!clips_to_exhibits(false, 15));
    assert!(!clips_to_exhibits(false, 0));
    assert!(!clips_to_exhibits(true, 2));
}

#[test]
fn roster_lengths() {
    assert_eq!(RosterShape::Gallery { extra: 16 }.len(), GALLERY_COUNT + 16);
    assert_eq!(RosterShape::Gallery { extra: 0 }.len(), 35);
    assert_eq!(RosterShape::Child.len(), CHILD_COUNT);
}

#[test]
fn slot_refs() {
    let g = RosterShape::Gallery { extra: 3 };
    assert_eq!(g.slot(0), SlotRef::Named(0));
    assert_eq!(g.slot(34), SlotRef::Named(34));
    assert_eq!(g.slot(35), SlotRef::Extra(0));
    assert_eq!(g.slot(37), SlotRef::Extra(2));
    assert_eq!(RosterShape::Child.slot(4), SlotRef::Named(4));
}

#[test]
fn drag_queries() {
    let g = RosterShape::Gallery { extra: 3 };
    assert_eq!(g.drag_slot(5), Some(5));
    assert_eq!(g.drag_slot(34), Some(34));
    assert_eq!(g.drag_slot(32), None);
    assert_eq!(g.drag_slot(33), None);
    assert_eq!(g.drag_slot(36), None);
    assert_eq!(RosterShape::Child.drag_slot(3), Some(3));
}

#[test]
fn click_drains() {
    let g = RosterShape::Gallery { extra: 3 };
    assert_eq!(g.click_slot(2), Some(2));
    assert_eq!(g.click_slot(15), Some(15));
    assert_eq!(g.click_slot(34), Some(34));
    assert_eq!(g.click_slot(32), None);
    assert_eq!(g.click_slot(40), None);
    assert_eq!(RosterShape::Child.click_slot(2), Some(2));
    assert_eq!(RosterShape::Child.click_slot(1), None);
    assert_eq!(RosterShape::Child.click_slot(0), None);
}

#[test]
fn only_the_header_dropdowns_have_values() {
    let g = RosterShape::Gallery { extra: 0 };
    assert!(g.has_value(15) && g.has_value(34));
    assert!(!g.has_value(2) && !g.has_value(33));
    assert!(!RosterShape::Child.has_value(15));
}

#[test]
fn placements() {
    let child = Visibility { is_child: true, use_menubar: true, use_statusbar: false };
    assert_eq!(placement(GALLERY, 3, false), Placement::Skip);
    assert_eq!(placement(GALLERY, 40, false), Placement::Skip);
    assert_eq!(placement(GALLERY, 15, false), Placement::Header);
    assert_eq!(placement(GALLERY, 34, false), Placement::Header);
    assert_eq!(placement(GALLERY, 0, false), Placement::Place);
    assert_eq!(placement(GALLERY, 32, false), Placement::Place);
    assert_eq!(placement(GALLERY, 0, true), Placement::Skip);
    assert_eq!(placement(child, 3, false), Placement::Place);
    assert_eq!(placement(child, 4, false), Placement::Hide);
    assert_eq!(placement(child, 2, true), Placement::Skip);
}

#[test]
fn exhibit_layout_order() {
    let order = exhibit_order(2);
    assert_eq!(order.len(), 31);
    assert_eq!(&order[..4], &[2, 19, 3, 4]);
    assert_eq!(&order[29..], &[35, 36]);
    let mut sorted = order.clone();
    sorted.sort();
    let expected: Vec<usize> = (0..37).filter(|&i| is_exhibit(i)).collect();
    assert_eq!(sorted, expected);
}

#[test]
fn content_widths() {
    assert_eq!(content_width_source(23), ContentWidth::StatusDot);
    assert_eq!(content_width_source(35), ContentWidth::Extra(0));
    assert_eq!(content_width_source(40), ContentWidth::Extra(5));
    assert_eq!(content_width_source(2), ContentWidth::LaidOut);
}

#[test]
fn shown_slots_in_order() {
    let child = Visibility { is_child: true, use_menubar: false, use_statusbar: true };
    assert_eq!(slots_where(child, SlotFilter::Shown, 5), vec![0, 1, 2, 4]);
    assert_eq!(slots_where(GALLERY, SlotFilter::Shown, 4), vec![0, 1, 2, 3]);
}

#[test]
fn presses_look_topmost_first() {
    let out = slots_where_topmost_first(GALLERY, SlotFilter::InReach { in_viewport: false }, 37);
    assert_eq!(out, vec![34, 33, 32, 15, 1, 0]);
    let inside = slots_where_topmost_first(GALLERY, SlotFilter::InReach { in_viewport: true }, 37);
    assert_eq!(inside.len(), 37);
    assert_eq!(inside[0], 36);
    let child = Visibility { is_child: true, use_menubar: true, use_statusbar: false };
    assert_eq!(slots_where_topmost_first(child, SlotFilter::InReach { in_viewport: false }, 5), vec![3, 2, 1, 0]);
}

#[test]
fn the_key_sweep_skips_the_focused_slot() {
    let child = Visibility { is_child: true, use_menubar: true, use_statusbar: true };
    assert_eq!(slots_where(child, SlotFilter::AllBut { focused: Some(1) }, 5), vec![0, 2, 3, 4]);
    assert_eq!(slots_where(child, SlotFilter::AllBut { focused: None }, 5), vec![0, 1, 2, 3, 4]);
}

#[test]
fn focus_moves_with_left_presses() {
    assert_eq!(
        focus_after_press(true, Some(3), Some(5)),
        FocusChange { unfocus: Some(3), focus: Some(5), focused: Some(5) }
    );
    assert_eq!(
        focus_after_press(true, Some(3), Some(3)),
        FocusChange { unfocus: None, focus: Some(3), focused: Some(3) }
    );
    assert_eq!(
        focus_after_press(true, Some(3), None),
        FocusChange { unfocus: Some(3), focus: None, focused: None }
    );
    assert_eq!(
        focus_after_press(false, Some(3), Some(5)),
        FocusChange { unfocus: None, focus: None, focused: Some(3) }
    );
    assert_eq!(
        focus_after_press(true, None, Some(7)),
        FocusChange { unfocus: None, focus: Some(7), focused: Some(7) }
    );
}

#[test]
fn escape_quits_only_when_unhandled() {
    assert!(key_quits(false, true, true));
    assert!(!key_quits(true, true, true));
    assert!(!key_quits(false, false, true));
    assert!(!key_quits(false, true, false));
}

#[test]
fn release_drains() {
    let d = release_drained_slots();
    assert_eq!(d.len(), 20);
    assert!(!d.contains(&12) && !d.contains(&14) && !d.contains(&15));
}

#[test]
fn a_child_release_checks_close() {
    let first = release_first(true);
    assert_eq!(first, ReleaseStep::TakeClick(2));
    assert_eq!(release_after(true, first, true), ReleaseStep::Exit);
    assert_eq!(release_after(true, first, false), ReleaseStep::Finish);
}

#[test]
fn a_gallery_release_goes_headers_then_editor_buttons() {
    let first = release_first(false);
    assert_eq!(first, ReleaseStep::ApplyHeaders);
    assert_eq!(release_after(false, first, true), ReleaseStep::Finish);
    let s1 = release_after(false, first, false);
    assert_eq!(s1, ReleaseStep::TakeClick(12));
    assert_eq!(release_after(false, s1, true), ReleaseStep::OpenEditor(ChildKind::ColorRamp));
    let s2 = release_after(false, s1, false);
    assert_eq!(s2, ReleaseStep::TakeClick(14));
    assert_eq!(release_after(false, s2, true), ReleaseStep::OpenEditor(ChildKind::Ramp));
    assert_eq!(release_after(false, s2, false), ReleaseStep::DrainAll);
    assert_eq!(release_after(false, ReleaseStep::DrainAll, true), ReleaseStep::Finish);
}
