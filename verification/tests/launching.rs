use cce_gallery::child_kind::ChildKind;
use cce_gallery::launch::{flag, parse_launch, value, LaunchOptions};
use cce_gallery::spawn_editor;
use cce_gallery::window::{
    child_plan, header_change, initial_focus, is_exit_message, is_utility, layout_in_use,
    layout_name, saves_ramp_after_tick, style_entry, wants_fullscreen, window_app_id,
    window_title, ChildAuxWidgets, ChildBackground, ChildMainWidget, DEFAULT_LAYOUT,
    LAYOUT_COUNT,
};

fn args(list: &[&str]) -> Vec<String> {
    list.iter().map(|s| s.to_string()).collect()
}

fn launch(list: &[&str]) -> LaunchOptions {
    parse_launch(&args(list))
}

#[test]
fn a_plain_launch_is_the_gallery() {
    let o = launch(&["cce-gallery"]);
    assert!(!o.is_child);
    assert!(o.use_root_plate);
    assert!(o.child_kind.is_none());
    assert!(!o.opacity && o.border_enabled && !o.use_menubar && !o.use_statusbar);
    assert!(o.width.is_none() && o.height.is_none() && o.transparency.is_none());
}

#[test]
fn the_gallery_can_drop_its_root_plate() {
    assert!(!launch(&["g", "--no-root-plate"]).use_root_plate);
}

#[test]
fn a_child_without_a_known_type_is_floating() {
    assert_eq!(launch(&["g", "--child"]).child_kind, Some(ChildKind::Floating));
    assert_eq!(launch(&["g", "--child", "--type", "Popup"]).child_kind, Some(ChildKind::Floating));
    assert_eq!(launch(&["g", "--child", "--type"]).child_kind, Some(ChildKind::Floating));
}

#[test]
fn a_child_reads_its_flags() {
    let o = launch(&[
        "g", "--child", "--type", "LayerTop", "--width", "900", "--height", "40", "--opacity",
        "--transparency", "0.5", "--no-border", "--menubar", "--statusbar",
    ]);
    assert!(o.is_child);
    assert!(!o.use_root_plate);
    assert_eq!(o.child_kind, Some(ChildKind::LayerTop));
    assert_eq!(o.width.as_deref(), Some("900"));
    assert_eq!(o.height.as_deref(), Some("40"));
    assert_eq!(o.transparency.as_deref(), Some("0.5"));
    assert!(o.opacity && !o.border_enabled && o.use_menubar && o.use_statusbar);
}

#[test]
fn the_first_occurrence_gives_the_value() {
    let a = args(&["g", "--width", "10", "--width", "20"]);
    assert_eq!(value(&a, "--width").as_deref(), Some("10"));
    assert_eq!(value(&a, "20"), None);
    assert_eq!(value(&a, "--height"), None);
    assert!(flag(&a, "20"));
    assert!(!flag(&a, "--child"));
}

#[test]
fn editors_are_opaque() {
    assert!(launch(&["g", "--child", "--type", "Ramp"]).opacity);
    assert!(launch(&["g", "--child", "--type", "ColorRamp"]).opacity);
    assert!(!launch(&["g", "--child", "--type", "Utility"]).opacity);
}

#[test]
fn spawn_editor_arguments() {
    assert_eq!(
        spawn_editor("ColorRamp"),
        args(&["--child", "--type", "ColorRamp", "--width", "450", "--height", "350", "--root-plate"])
    );
}

#[test]
fn a_spawned_editor_opens_as_that_editor() {
    for (kind, expected) in [("Ramp", ChildKind::Ramp), ("ColorRamp", ChildKind::ColorRamp)] {
        let mut a = vec!["/usr/bin/cce-gallery".to_string()];
        a.extend(spawn_editor(kind));
        let o = parse_launch(&a);
        assert!(o.is_child && o.use_root_plate && o.opacity && o.border_enabled);
        assert_eq!(o.child_kind, Some(expected));
        assert_eq!(o.width.as_deref(), Some("450"));
        assert_eq!(o.height.as_deref(), Some("350"));
        assert!(!o.use_menubar && !o.use_statusbar && o.transparency.is_none());
    }
}

#[test]
fn window_titles_and_app_ids() {
    assert_eq!(window_title(None), "Gallery");
    assert_eq!(window_title(Some(ChildKind::Utility)), "Utility Window");
    assert_eq!(window_app_id(None, true), "cce-gallery");
    assert_eq!(window_app_id(None, false), "cce-gallery-noborder");
    assert_eq!(window_app_id(Some(ChildKind::Fullscreen), false), "cce-gallery-child-fullscreen-noborder");
    assert_eq!(window_app_id(Some(ChildKind::Status), true), "cce-status-right-gallery");
}

#[test]
fn shell_hooks() {
    assert!(wants_fullscreen(Some(ChildKind::Fullscreen)));
    assert!(!wants_fullscreen(Some(ChildKind::Floating)));
    assert!(!wants_fullscreen(None));
    assert!(is_utility(Some(ChildKind::Utility)));
    assert!(!is_utility(None));
}

#[test]
fn messages() {
    assert!(is_exit_message("exit"));
    assert!(!is_exit_message("Exit"));
    assert!(!is_exit_message("exit "));
}

#[test]
fn ramp_saving_and_focus() {
    assert!(saves_ramp_after_tick(Some(ChildKind::Ramp), 1));
    assert!(!saves_ramp_after_tick(Some(ChildKind::Ramp), 2));
    assert!(!saves_ramp_after_tick(Some(ChildKind::ColorRamp), 1));
    assert!(!saves_ramp_after_tick(None, 1));
    assert_eq!(initial_focus(Some(ChildKind::Ramp)), Some(1));
    assert_eq!(initial_focus(Some(ChildKind::ColorRamp)), None);
    assert_eq!(initial_focus(None), None);
}

#[test]
fn child_plans() {
    let p = child_plan(ChildKind::Ramp, true);
    assert_eq!(p.background, ChildBackground::RootPlate);
    assert_eq!(p.main, ChildMainWidget::RampEditor);
    assert_eq!(p.aux, ChildAuxWidgets::Labels);
    let q = child_plan(ChildKind::LayerTop, false);
    assert_eq!(q.background, ChildBackground::ContentBg);
    assert_eq!(q.main, ChildMainWidget::Description);
    assert_eq!(q.aux, ChildAuxWidgets::MenuAndStatusBar);
    assert_eq!(child_plan(ChildKind::ColorRamp, false).main, ChildMainWidget::ColorRampEditor);
}

#[test]
fn layouts() {
    assert_eq!(LAYOUT_COUNT, 7);
    assert_eq!(layout_name(0), "Vertical");
    assert_eq!(layout_name(DEFAULT_LAYOUT), "Mosaic");
    assert_eq!(layout_name(6), "Overlay");
    assert_eq!(layout_in_use(2), 2);
    assert_eq!(layout_in_use(7), DEFAULT_LAYOUT);
    assert_eq!(layout_in_use(usize::MAX), DEFAULT_LAYOUT);
}

#[test]
fn header_dropdown_picks() {
    let none = header_change(false, 3, false, 1);
    assert!(none.layout.is_none() && none.relief.is_none() && !none.applied);
    let layout = header_change(true, 3, false, 1);
    assert_eq!(layout.layout, Some(3));
    assert!(layout.applied);
    let style = header_change(false, 0, true, 1);
    assert_eq!(style.relief, Some(false));
    assert_eq!(header_change(false, 0, true, 0).relief, Some(true));
    assert_eq!(header_change(true, -1, false, 0).layout, Some(usize::MAX));
    for relief in [true, false] {
        assert_eq!(header_change(false, 0, true, style_entry(relief)).relief, Some(relief));
    }
}

#[test]
fn every_window_has_its_own_app_id() {
    let kinds = [
        None,
        Some(ChildKind::Floating),
        Some(ChildKind::Fullscreen),
        Some(ChildKind::Utility),
        Some(ChildKind::LayerTop),
        Some(ChildKind::LayerOverlay),
        Some(ChildKind::LayerBackground),
        Some(ChildKind::Status),
        Some(ChildKind::Ramp),
        Some(ChildKind::ColorRamp),
    ];
    let mut ids = Vec::new();
    for k in kinds {
        for b in [true, false] {
            ids.push(window_app_id(k, b));
        }
    }
    let mut sorted = ids.clone();
    sorted.sort();
    sorted.dedup();
    assert_eq!(sorted.len(), ids.len());
}
