use cce_gallery::child_kind::{Anchor, ChildKind, LayerLevel};

const ALL: [ChildKind; 9] = [
    ChildKind::Floating,
    ChildKind::Fullscreen,
    ChildKind::Utility,
    ChildKind::LayerTop,
    ChildKind::LayerOverlay,
    ChildKind::LayerBackground,
    ChildKind::Status,
    ChildKind::Ramp,
    ChildKind::ColorRamp,
];

#[test]
fn from_arg_reads_every_type_name() {
    assert_eq!(ChildKind::from_arg("Floating"), Some(ChildKind::Floating));
    assert_eq!(ChildKind::from_arg("LayerBackground"), Some(ChildKind::LayerBackground));
    assert_eq!(ChildKind::from_arg("ColorRamp"), Some(ChildKind::ColorRamp));
    assert_eq!(ChildKind::from_arg("Status"), Some(ChildKind::Status));
}

#[test]
fn from_arg_refuses_other_text() {
    assert_eq!(ChildKind::from_arg("floating"), None);
    assert_eq!(ChildKind::from_arg(""), None);
    assert_eq!(ChildKind::from_arg("Ramp "), None);
    assert_eq!(ChildKind::from_arg("Popup"), None);
}

#[test]
fn from_arg_of_arg_gives_the_kind_back() {
    for k in ALL {
        assert_eq!(ChildKind::from_arg(k.arg()), Some(k));
    }
}

#[test]
fn titles_of_the_kinds() {
    assert_eq!(ChildKind::LayerTop.title(), "Layer Shell (Top) Surface");
    assert_eq!(ChildKind::Ramp.title(), "Ramp Editor");
    assert_eq!(ChildKind::ColorRamp.title(), "Color Ramp Editor");
    assert_eq!(ChildKind::Status.title(), "Status Segment");
}

#[test]
fn only_the_two_editors_are_editors() {
    for k in ALL {
        let expected = k == ChildKind::Ramp || k == ChildKind::ColorRamp;
        assert_eq!(k.is_editor(), expected);
        assert_eq!(k.child_text().is_empty(), expected);
    }
}

#[test]
fn app_ids_follow_the_type_spelling() {
    assert_eq!(ChildKind::Floating.app_id(), "cce-gallery-child-floating");
    assert_eq!(ChildKind::LayerTop.app_id(), "cce-gallery-child-layertop");
    assert_eq!(ChildKind::ColorRamp.app_id(), "cce-gallery-child-colorramp");
    assert_eq!(ChildKind::Status.app_id(), "cce-status-right-gallery");
    for k in ALL {
        if k != ChildKind::Status {
            assert_eq!(k.app_id(), format!("cce-gallery-child-{}", k.arg().to_lowercase()));
        }
    }
}

#[test]
fn app_ids_are_distinct() {
    for a in ALL {
        for b in ALL {
            assert_eq!(a.app_id() == b.app_id(), a == b);
        }
    }
}

#[test]
fn default_sizes() {
    assert_eq!(ChildKind::Floating.default_size(), (400, 250));
    assert_eq!(ChildKind::Fullscreen.default_size(), (400, 250));
    assert_eq!(ChildKind::Utility.default_size(), (300, 180));
    assert_eq!(ChildKind::LayerOverlay.default_size(), (300, 180));
    assert_eq!(ChildKind::LayerTop.default_size(), (800, 40));
    assert_eq!(ChildKind::LayerBackground.default_size(), (800, 600));
    assert_eq!(ChildKind::Status.default_size(), (140, 24));
    assert_eq!(ChildKind::Ramp.default_size(), (450, 350));
}

#[test]
fn layer_top_takes_an_exclusive_zone_of_its_height() {
    let p = ChildKind::LayerTop.layer(40).unwrap();
    assert_eq!(p.level, LayerLevel::Top);
    assert_eq!(p.anchor, Anchor { top: true, bottom: false, left: true, right: true });
    assert_eq!(p.exclusive_zone, 40);
    assert!(!p.keyboard_interactive);
    assert_eq!(p.margin, (0, 0, 0, 0));
    assert_eq!(p.namespace, "cce-gallery");
}

#[test]
fn layer_overlay_and_background() {
    let o = ChildKind::LayerOverlay.layer(180).unwrap();
    assert_eq!(o.level, LayerLevel::Overlay);
    assert_eq!(o.anchor, Anchor { top: false, bottom: false, left: false, right: false });
    assert_eq!(o.exclusive_zone, 0);
    let b = ChildKind::LayerBackground.layer(600).unwrap();
    assert_eq!(b.level, LayerLevel::Background);
    assert_eq!(b.anchor, Anchor { top: true, bottom: true, left: true, right: true });
    assert_eq!(b.exclusive_zone, -1);
}

#[test]
fn other_kinds_are_not_layer_surfaces() {
    for k in [ChildKind::Floating, ChildKind::Fullscreen, ChildKind::Utility, ChildKind::Status, ChildKind::Ramp, ChildKind::ColorRamp] {
        assert!(k.layer(100).is_none());
    }
}

#[test]
fn child_text_of_a_test_window() {
    assert_eq!(ChildKind::LayerOverlay.child_text(), "An Overlay-layer wlr-layer-shell surface, unanchored.");
    assert_eq!(ChildKind::Floating.child_text(), "A plain xdg_toplevel, mapped Floating by cce.");
}
