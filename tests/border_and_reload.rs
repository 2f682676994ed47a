use komorebi_config::border::{BorderWindow, InsertAfter};
use komorebi_config::config::{MonitorConfig, StaticConfig, WorkspaceConfig};
use komorebi_config::geometry::Rect;
use komorebi_config::manager::{Behaviour, Layout, Monitor, WindowManager, Workspace};
use komorebi_config::options::{
    DefaultLayout, FocusFollowsMouseImplementation, MoveBehaviour, OperationBehaviour,
    SystemFocusFollowsMouse, WindowContainerBehaviour,
};
use komorebi_config::registry::RuleRegistry;
use komorebi_config::rules::{ApplicationIdentifier, IdWithIdentifier, MatchingStrategy};
use komorebi_config::settings::RuntimeSettings;

fn rect(left: i32, top: i32, right: i32, bottom: i32) -> Rect {
    Rect { left, top, right, bottom }
}

fn behaviour() -> Behaviour {
    Behaviour {
        window_container_behaviour: WindowContainerBehaviour::Create,
        cross_monitor_move_behaviour: MoveBehaviour::Swap,
        unmanaged_window_operation_behaviour: OperationBehaviour::Op,
        resize_delta: 50,
        focus_follows_mouse: None,
        mouse_follows_focus: true,
        work_area_offset: None,
    }
}

fn manager(monitors: usize, workspaces: usize) -> WindowManager {
    let mut ms = Vec::new();
    for _ in 0..monitors {
        let mut m = Monitor::new();
        m.ensure_workspace_count(workspaces);
        ms.push(m);
    }
    WindowManager::new(ms, behaviour())
}

fn exe(id: &str) -> IdWithIdentifier {
    IdWithIdentifier::new(ApplicationIdentifier::Exe, id.to_string(), None)
}

#[test]
fn border_frame_with_negative_offset_expands() {
    let mut settings = RuntimeSettings::new();
    settings.border_width = 8;
    settings.border_offset = -1;
    let mut b = BorderWindow::new(42);
    let p = b.set_position(rect(100, 100, 800, 600), &settings, true).unwrap();
    assert_eq!(p.rect, rect(91, 91, 818, 618));
    assert_eq!(b.rect(), rect(91, 91, 818, 618));
    assert_eq!(p.hwnd, 42);
    assert_eq!(p.insert_after, InsertAfter::NotTopmost);
    assert!(p.flags.show_window && p.flags.no_activate && !p.flags.hide_window);
}

#[test]
fn border_frame_with_positive_offset_shrinks() {
    let mut settings = RuntimeSettings::new();
    settings.border_width = 4;
    settings.border_offset = 6;
    let mut b = BorderWindow::new(1);
    let p = b.set_position(rect(0, 0, 100, 50), &settings, false).unwrap();
    assert_eq!(p.rect, rect(2, 2, 96, 46));
    assert!(!p.flags.show_window && p.flags.no_activate);
}

#[test]
fn border_frame_with_zero_width() {
    let mut settings = RuntimeSettings::new();
    settings.border_width = 0;
    settings.border_offset = 0;
    let mut b = BorderWindow::new(1);
    let p = b.set_position(rect(10, 20, 30, 40), &settings, false).unwrap();
    assert_eq!(p.rect, rect(10, 20, 30, 40));
}

#[test]
fn disabled_border_is_not_moved() {
    let settings = RuntimeSettings::new();
    let mut b = BorderWindow::new(1);
    b.disable();
    assert!(b.set_position(rect(10, 20, 30, 40), &settings, true).is_none());
    assert_eq!(b.rect(), rect(0, 0, 0, 0));
}

#[test]
fn disable_twice_hides_once_and_enable_twice_queries_once() {
    let mut b = BorderWindow::new(7);
    assert!(b.is_enabled());
    assert!(!b.enable());
    let first = b.disable();
    let second = b.disable();
    let p = first.unwrap();
    assert!(p.flags.hide_window);
    assert_eq!(p.insert_after, InsertAfter::Top);
    assert!(second.is_none());
    assert!(!b.is_enabled());
    assert!(b.enable());
    assert!(!b.enable());
    assert!(b.is_enabled());
    assert_eq!(b.hide_window().rect, rect(0, 0, 0, 0));
}

#[test]
fn reload_with_bad_pattern_changes_nothing() {
    let mut settings = RuntimeSettings::new();
    let mut registry = RuleRegistry::new();
    let mut wm = manager(1, 1);
    let mut first = StaticConfig::empty();
    first.border_width = Some(5);
    first.float_rules = Some(vec![exe("keep.exe")]);
    first.reload(&vec![], &mut wm, &mut settings, &mut registry, false).unwrap();
    let mut bad = StaticConfig::empty();
    bad.border_width = Some(20);
    bad.resize_delta = Some(7);
    bad.monitors = Some(vec![MonitorConfig { workspaces: vec![], work_area_offset: None }]);
    bad.manage_rules = Some(vec![IdWithIdentifier::new(ApplicationIdentifier::Title, "(".to_string(), Some(MatchingStrategy::Regex))]);
    assert!(bad.reload(&vec![], &mut wm, &mut settings, &mut registry, false).is_err());
    assert_eq!(settings.border_width, 5);
    assert_eq!(wm.behaviour.resize_delta, 50);
    assert_eq!(registry.float_identifiers.len(), 1);
    assert_eq!(registry.manage_identifiers.len(), 0);
    assert_eq!(wm.monitors[0].workspaces.len(), 1);
}

#[test]
fn postload_creates_and_shows_border_once() {
    let mut settings = RuntimeSettings::new();
    let mut wm = manager(1, 1);
    let mut doc = StaticConfig::empty();
    doc.active_window_border = Some(true);
    let effects = doc.postload(&mut wm, &mut settings, false);
    assert!(effects.create_border);
    assert!(effects.show_border);
    assert!(!effects.hide_border);
    assert!(settings.border_enabled);
    let border = BorderWindow::new(99);
    assert!(border.is_enabled());
    let again = doc.postload(&mut wm, &mut settings, true);
    assert!(!again.create_border);
}

#[test]
fn reload_without_border_disables_it() {
    let mut settings = RuntimeSettings::new();
    let mut registry = RuleRegistry::new();
    let mut wm = manager(2, 1);
    let mut on = StaticConfig::empty();
    on.active_window_border = Some(true);
    on.postload(&mut wm, &mut settings, false);
    let mut border = BorderWindow::new(99);
    let mut off = StaticConfig::empty();
    off.active_window_border = Some(false);
    off.focus_follows_mouse = Some(FocusFollowsMouseImplementation::Windows);
    let effects = off.reload(&vec![], &mut wm, &mut settings, &mut registry, true).unwrap();
    assert!(effects.hide_border && !effects.show_border && !effects.create_border);
    assert_eq!(effects.system_focus_follows_mouse, Some(SystemFocusFollowsMouse::Enable));
    assert_eq!(effects.refocus_monitors, 2);
    assert!(!settings.border_enabled);
    assert!(border.disable().unwrap().flags.hide_window);
    assert!(!border.is_enabled());
}

#[test]
fn preload_fills_behaviour_defaults() {
    let mut settings = RuntimeSettings::new();
    let mut registry = RuleRegistry::new();
    let doc = StaticConfig::empty();
    let (b, ffm) = doc.preload(&vec![], &mut settings, &mut registry).unwrap();
    assert_eq!(b.window_container_behaviour, WindowContainerBehaviour::Create);
    assert_eq!(b.cross_monitor_move_behaviour, MoveBehaviour::Swap);
    assert_eq!(b.unmanaged_window_operation_behaviour, OperationBehaviour::Op);
    assert_eq!(b.resize_delta, 50);
    assert!(b.mouse_follows_focus);
    assert_eq!(b.focus_follows_mouse, None);
    assert_eq!(ffm, SystemFocusFollowsMouse::Disable);
}

#[test]
fn postload_grows_workspaces_and_binds_rules() {
    let mut settings = RuntimeSettings::new();
    let mut wm = manager(1, 1);
    let mut ws0 = WorkspaceConfig::named("one".to_string());
    ws0.layout = Some(DefaultLayout::Columns);
    ws0.container_padding = Some(4);
    ws0.layout_rules = Some(vec![(3, DefaultLayout::Rows)]);
    ws0.workspace_rules = Some(vec![exe("code.exe")]);
    let mut ws1 = WorkspaceConfig::named("two".to_string());
    ws1.initial_workspace_rules = Some(vec![exe("slack.exe")]);
    let mut doc = StaticConfig::empty();
    doc.monitors = Some(vec![
        MonitorConfig { workspaces: vec![ws0, ws1], work_area_offset: Some(rect(1, 2, 3, 4)) },
        MonitorConfig { workspaces: vec![], work_area_offset: None },
    ]);
    let effects = doc.postload(&mut wm, &mut settings, false);
    assert!(!effects.create_border && !effects.show_border);
    assert_eq!(wm.monitors.len(), 1);
    let m = &wm.monitors[0];
    assert_eq!(m.workspaces.len(), 2);
    assert_eq!(m.work_area_offset, Some(rect(1, 2, 3, 4)));
    assert_eq!(m.workspaces[0].name.as_deref(), Some("one"));
    assert!(matches!(m.workspaces[0].layout, Layout::Default(DefaultLayout::Columns)));
    assert!(m.workspaces[0].tile);
    assert!(!m.workspaces[1].tile);
    assert_eq!(m.workspaces[0].container_padding, Some(4));
    assert_eq!(m.workspaces[0].layout_rules.len(), 1);
    assert_eq!(wm.workspace_rules.len(), 2);
    assert_eq!(wm.workspace_rules[0].id, "code.exe");
    assert_eq!((wm.workspace_rules[1].monitor_idx, wm.workspace_rules[1].workspace_idx), (0, 1));
    assert!(wm.workspace_rules[1].initial);
}

#[test]
fn saved_document_lists_a_moved_rule_once() {
    let settings = RuntimeSettings::new();
    let mut wm = manager(1, 2);
    wm.handle_workspace_rules(&"firefox.exe".to_string(), 0, 0, false);
    wm.handle_workspace_rules(&"notes".to_string(), 0, 0, false);
    wm.handle_workspace_rules(&"firefox.exe".to_string(), 0, 1, false);
    assert_eq!(wm.workspace_rules.len(), 2);
    let doc = StaticConfig::from_state(&wm, &settings);
    let monitors = doc.monitors.unwrap();
    let w0 = &monitors[0].workspaces[0];
    let w1 = &monitors[0].workspaces[1];
    assert_eq!(w0.workspace_rules.as_ref().unwrap().len(), 0);
    let r1 = w1.workspace_rules.as_ref().unwrap();
    assert_eq!(r1.len(), 1);
    assert_eq!(r1[0].id, "firefox.exe");
    assert_eq!(r1[0].kind, ApplicationIdentifier::Exe);
    assert!(w0.initial_workspace_rules.is_none());
    assert_eq!(w0.name, "unnamed");
}

#[test]
fn workspace_snapshot_keeps_exe_rules_and_non_default_padding() {
    let settings = RuntimeSettings::new();
    let mut wm = manager(1, 1);
    wm.handle_workspace_rules(&"code.exe".to_string(), 0, 0, true);
    wm.handle_workspace_rules(&"Visual Studio".to_string(), 0, 0, false);
    let mut w = Workspace::new();
    w.container_padding = Some(10);
    w.workspace_padding = Some(3);
    w.layout = Layout::Custom("layout.json".to_string());
    w.layout_rules = vec![(2, Layout::Custom("x".to_string())), (4, Layout::Default(DefaultLayout::UltrawideVerticalStack))];
    let c = WorkspaceConfig::from_workspace(&w, &wm.workspace_rules, &settings);
    assert_eq!(c.container_padding, None);
    assert_eq!(c.workspace_padding, Some(3));
    assert_eq!(c.layout, None);
    assert_eq!(c.layout_rules, Some(vec![(4, DefaultLayout::UltrawideVerticalStack)]));
    assert!(c.workspace_rules.is_none());
    assert_eq!(c.initial_workspace_rules.as_ref().unwrap()[0].id, "code.exe");
    let m = MonitorConfig::from_monitor(&wm.monitors[0], &wm.workspace_rules, &settings);
    assert_eq!(m.workspaces.len(), 1);
}
