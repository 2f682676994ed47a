use vstd::prelude::*;
use crate::geometry::{ActiveWindowBorderColours, Rect, packed_colour};
use crate::options::{
    DefaultLayout, EaseEnum, FocusFollowsMouseImplementation, HidingBehaviour, MoveBehaviour,
    OperationBehaviour, WindowContainerBehaviour,
};
use crate::registry::{ConfigError, RuleRegistry, RuleSets, RuleSetsModel, merge_succeeds, merged_registry};
use crate::rules::{IdWithIdentifier, RuleModel, rules_view};
use crate::settings::{
    RuntimeSettings, SettingsModel, DEFAULT_BORDER_OFFSET, DEFAULT_BORDER_WIDTH, copy_names,
    copy_rects, names_view,
};

verus! {

/// The settings of one workspace.
#[derive(Debug)]
pub struct WorkspaceConfig {
    /// Name
    pub name: String,
    /// Layout (default: BSP)
    pub layout: Option<DefaultLayout>,
    /// Custom layout file (default: None)
    pub custom_layout: Option<String>,
    /// Layouts by window-count threshold (default: None)
    pub layout_rules: Option<Vec<(usize, DefaultLayout)>>,
    /// Custom layout files by window-count threshold (default: None)
    pub custom_layout_rules: Option<Vec<(usize, String)>>,
    /// Container padding (default: global)
    pub container_padding: Option<i32>,
    /// Workspace padding (default: global)
    pub workspace_padding: Option<i32>,
    /// Initial workspace application rules
    pub initial_workspace_rules: Option<Vec<IdWithIdentifier>>,
    /// Permanent workspace application rules
    pub workspace_rules: Option<Vec<IdWithIdentifier>>,
}

/// The settings of one monitor.
#[derive(Debug)]
pub struct MonitorConfig {
    /// Workspace configurations
    pub workspaces: Vec<WorkspaceConfig>,
    /// Monitor-specific work area offset (default: None)
    pub work_area_offset: Option<Rect>,
}

/// Extra handling that an application needs.
#[derive(Clone, Copy, Debug, PartialEq, Eq, Structural)]
pub enum ApplicationOptions {
    ObjectNameChange,
    Layered,
    BorderOverflow,
    TrayAndMultiWindow,
    Force,
}

/// One entry of an application-specific rule file.
#[derive(Debug)]
pub struct ApplicationConfiguration {
    pub name: String,
    pub identifier: IdWithIdentifier,
    pub options: Option<Vec<ApplicationOptions>>,
    pub float_identifiers: Option<Vec<IdWithIdentifier>>,
}

/// The static configuration document.
#[derive(Debug)]
pub struct StaticConfig {
    /// No longer used
    pub invisible_borders: Option<Rect>,
    /// Delta to resize windows by (default 50)
    pub resize_delta: Option<i32>,
    /// Determine what happens when a new window is opened (default: Create)
    pub window_container_behaviour: Option<WindowContainerBehaviour>,
    /// Determine what happens when a window is moved across a monitor boundary (default: Swap)
    pub cross_monitor_move_behaviour: Option<MoveBehaviour>,
    /// Determine what happens when commands are sent while an unmanaged window is in the foreground (default: Op)
    pub unmanaged_window_operation_behaviour: Option<OperationBehaviour>,
    /// Determine focus follows mouse implementation (default: None)
    pub focus_follows_mouse: Option<FocusFollowsMouseImplementation>,
    /// Enable or disable mouse follows focus (default: true)
    pub mouse_follows_focus: Option<bool>,
    /// Path to an application-specific rule file (default: None)
    pub app_specific_configuration_path: Option<String>,
    /// Width of the window border (default: 8)
    pub border_width: Option<i32>,
    /// Offset of the window border (default: -1)
    pub border_offset: Option<i32>,
    /// Display an active window border (default: false)
    pub active_window_border: Option<bool>,
    /// Active window border colours for different container types
    pub active_window_border_colours: Option<ActiveWindowBorderColours>,
    /// Global default workspace padding (default: 10)
    pub default_workspace_padding: Option<i32>,
    /// Global default container padding (default: 10)
    pub default_container_padding: Option<i32>,
    /// Monitor and workspace configurations
    pub monitors: Option<Vec<MonitorConfig>>,
    /// Which signal to use when hiding windows (default: minimize)
    pub window_hiding_behaviour: Option<HidingBehaviour>,
    /// Global work area (space used for tiling) offset (default: None)
    pub global_work_area_offset: Option<Rect>,
    /// Individual window floating rules
    pub float_rules: Option<Vec<IdWithIdentifier>>,
    /// Individual window force-manage rules
    pub manage_rules: Option<Vec<IdWithIdentifier>>,
    /// Identify border overflow applications
    pub border_overflow_applications: Option<Vec<IdWithIdentifier>>,
    /// Identify tray and multi-window applications
    pub tray_and_multi_window_applications: Option<Vec<IdWithIdentifier>>,
    /// Identify applications that have the layered extended window style
    pub layered_applications: Option<Vec<IdWithIdentifier>>,
    /// Identify applications that send a name change event on launch (very rare)
    pub object_name_change_applications: Option<Vec<IdWithIdentifier>>,
    /// Set monitor index preferences
    pub monitor_index_preferences: Option<Vec<(usize, Rect)>>,
    /// Set display index preferences
    pub display_index_preferences: Option<Vec<(usize, String)>>,
    /// Enable or disable animations (default: false)
    pub animation: Option<bool>,
    /// Set the animation ease function (default: Linear)
    pub animation_ease: Option<EaseEnum>,
    /// Set the animation duration in ms (default: 250)
    pub animation_duration: Option<u64>,
}

/// The rules of an optional list, none when it is absent.
pub open spec fn opt_rules(o: Option<Vec<IdWithIdentifier>>) -> Seq<RuleModel> {
    match o {
        Some(v) => rules_view(v@),
        None => Seq::empty(),
    }
}

/// One copy of `r` for each occurrence of `opt` in `os`.
pub open spec fn option_hits(os: Seq<ApplicationOptions>, opt: ApplicationOptions, r: RuleModel) -> Seq<RuleModel>
    decreases os.len(),
{
    if os.len() == 0 {
        Seq::empty()
    } else {
        let rest = option_hits(os.drop_last(), opt, r);
        if os.last() == opt {
            rest.push(r)
        } else {
            rest
        }
    }
}

/// The identifiers that the application entries put under `opt`, in order.
pub open spec fn app_rules(apps: Seq<ApplicationConfiguration>, opt: ApplicationOptions) -> Seq<RuleModel>
    decreases apps.len(),
{
    if apps.len() == 0 {
        Seq::empty()
    } else {
        let e = apps.last();
        let mine = match e.options {
            Some(os) => option_hits(os@, opt, e.identifier@),
            None => Seq::empty(),
        };
        app_rules(apps.drop_last(), opt) + mine
    }
}

/// The floating rules that the application entries list, in order.
pub open spec fn app_float_rules(apps: Seq<ApplicationConfiguration>) -> Seq<RuleModel>
    decreases apps.len(),
{
    if apps.len() == 0 {
        Seq::empty()
    } else {
        app_float_rules(apps.drop_last()) + opt_rules(apps.last().float_identifiers)
    }
}

/// The incoming rules of a document and of its application entries.
pub open spec fn doc_rule_sets(d: StaticConfig, apps: Seq<ApplicationConfiguration>) -> RuleSetsModel {
    RuleSetsModel {
        float: opt_rules(d.float_rules) + app_float_rules(apps),
        manage: opt_rules(d.manage_rules) + app_rules(apps, ApplicationOptions::Force),
        object_name_change: opt_rules(d.object_name_change_applications) + app_rules(
            apps,
            ApplicationOptions::ObjectNameChange,
        ),
        layered: opt_rules(d.layered_applications) + app_rules(apps, ApplicationOptions::Layered),
        border_overflow: opt_rules(d.border_overflow_applications) + app_rules(
            apps,
            ApplicationOptions::BorderOverflow,
        ),
        tray_and_multi_window: opt_rules(d.tray_and_multi_window_applications) + app_rules(
            apps,
            ApplicationOptions::TrayAndMultiWindow,
        ),
    }
}

/// The settings after a document is applied: each field the document sets
/// is overwritten, border width and offset fall back to their defaults.
pub open spec fn applied_settings(s: SettingsModel, d: StaticConfig) -> SettingsModel {
    SettingsModel {
        border_width: match d.border_width {
            Some(w) => w,
            None => DEFAULT_BORDER_WIDTH,
        },
        border_offset: match d.border_offset {
            Some(o) => o,
            None => DEFAULT_BORDER_OFFSET,
        },
        border_colour_single: match d.active_window_border_colours {
            Some(c) => packed_colour(c.single) as u32,
            None => s.border_colour_single,
        },
        border_colour_current: match d.active_window_border_colours {
            Some(c) => packed_colour(c.single) as u32,
            None => s.border_colour_current,
        },
        border_colour_stack: match d.active_window_border_colours {
            Some(c) => packed_colour(c.stack) as u32,
            None => s.border_colour_stack,
        },
        border_colour_monocle: match d.active_window_border_colours {
            Some(c) => packed_colour(c.monocle) as u32,
            None => s.border_colour_monocle,
        },
        border_enabled: s.border_enabled,
        default_container_padding: match d.default_container_padding {
            Some(p) => p,
            None => s.default_container_padding,
        },
        default_workspace_padding: match d.default_workspace_padding {
            Some(p) => p,
            None => s.default_workspace_padding,
        },
        hiding_behaviour: match d.window_hiding_behaviour {
            Some(h) => h,
            None => s.hiding_behaviour,
        },
        monitor_index_preferences: match d.monitor_index_preferences {
            Some(p) => p@,
            None => s.monitor_index_preferences,
        },
        display_index_preferences: match d.display_index_preferences {
            Some(p) => names_view(p@),
            None => s.display_index_preferences,
        },
        animation_enabled: match d.animation {
            Some(a) => a,
            None => s.animation_enabled,
        },
        animation_duration: match d.animation_duration {
            Some(a) => a,
            None => s.animation_duration,
        },
        animation_ease: match d.animation_ease {
            Some(a) => a,
            None => s.animation_ease,
        },
    }
}

/// Appends copies of the rules of an optional list.
fn extend_rules(dst: &mut Vec<IdWithIdentifier>, src: &Option<Vec<IdWithIdentifier>>)
    ensures
        rules_view(final(dst)@) == rules_view(old(dst)@) + opt_rules(*src),
{
    if let Some(v) = src {
        let mut i: usize = 0;
        let ghost base = rules_view(dst@);
        while i < v.len()
            invariant
                i <= v.len(),
                rules_view(dst@) == base + rules_view(v@).subrange(0, i as int),
            decreases v.len() - i,
        {
            let ghost before = dst@;
            let r = v[i].clone();
            dst.push(r);
            assert(rules_view(dst@) =~= base + rules_view(v@).subrange(0, i + 1)) by {
                assert(dst@ == before.push(r));
                assert(rules_view(dst@) =~= rules_view(before).push(r@));
            }
            i = i + 1;
        }
        assert(rules_view(v@).subrange(0, v.len() as int) =~= rules_view(v@));
    } else {
        assert(rules_view(dst@) =~= rules_view(dst@) + Seq::<RuleModel>::empty());
    }
}

/// Appends one copy of `r` for each occurrence of `opt` in `os`.
fn extend_option_hits(dst: &mut Vec<IdWithIdentifier>, os: &Vec<ApplicationOptions>, opt: ApplicationOptions, r: &IdWithIdentifier)
    ensures
        rules_view(final(dst)@) == rules_view(old(dst)@) + option_hits(os@, opt, r@),
{
    let ghost base = rules_view(dst@);
    let mut i: usize = 0;
    assert(os@.subrange(0, 0) =~= Seq::<ApplicationOptions>::empty());
    assert(rules_view(dst@) =~= base + Seq::<RuleModel>::empty());
    while i < os.len()
        invariant
            i <= os.len(),
            rules_view(dst@) == base + option_hits(os@.subrange(0, i as int), opt, r@),
        decreases os.len() - i,
    {
        let ghost next = os@.subrange(0, i + 1);
        assert(next.drop_last() =~= os@.subrange(0, i as int));
        if os[i] == opt {
            let ghost before = dst@;
            let c = r.clone();
            dst.push(c);
            assert(rules_view(dst@) =~= rules_view(before).push(r@)) by {
                assert(dst@ == before.push(c));
            }
        }
        assert(rules_view(dst@) =~= base + option_hits(next, opt, r@));
        i = i + 1;
    }
    assert(os@.subrange(0, os.len() as int) =~= os@);
}

/// Appends, for one application entry, its copies under `opt`.
fn extend_entry(dst: &mut Vec<IdWithIdentifier>, e: &ApplicationConfiguration, opt: ApplicationOptions)
    ensures
        rules_view(final(dst)@) == rules_view(old(dst)@) + match e.options {
            Some(os) => option_hits(os@, opt, e.identifier@),
            None => Seq::empty(),
        },
{
    if let Some(os) = &e.options {
        extend_option_hits(dst, os, opt, &e.identifier);
    } else {
        assert(rules_view(dst@) =~= rules_view(dst@) + Seq::<RuleModel>::empty());
    }
}

impl StaticConfig {
    /// Gathers the incoming rules of this document and of the application
    /// entries into one list per registry list.
    pub fn rule_sets(&self, apps: &Vec<ApplicationConfiguration>) -> (s: RuleSets)
        ensures
            s@ == doc_rule_sets(*self, apps@),
    {
        let mut s = RuleSets::new();
        extend_rules(&mut s.float_rules, &self.float_rules);
        extend_rules(&mut s.manage_rules, &self.manage_rules);
        extend_rules(&mut s.object_name_change_rules, &self.object_name_change_applications);
        extend_rules(&mut s.layered_rules, &self.layered_applications);
        extend_rules(&mut s.border_overflow_rules, &self.border_overflow_applications);
        extend_rules(&mut s.tray_and_multi_window_rules, &self.tray_and_multi_window_applications);
        let ghost s0 = s@;
        let mut i: usize = 0;
        assert(apps@.subrange(0, 0) =~= Seq::<ApplicationConfiguration>::empty());
        assert(s0.float =~= s0.float + app_float_rules(apps@.subrange(0, 0)));
        assert(s0.manage =~= s0.manage + app_rules(apps@.subrange(0, 0), ApplicationOptions::Force));
        assert(s0.object_name_change =~= s0.object_name_change + app_rules(apps@.subrange(0, 0), ApplicationOptions::ObjectNameChange));
        assert(s0.layered =~= s0.layered + app_rules(apps@.subrange(0, 0), ApplicationOptions::Layered));
        assert(s0.border_overflow =~= s0.border_overflow + app_rules(apps@.subrange(0, 0), ApplicationOptions::BorderOverflow));
        assert(s0.tray_and_multi_window =~= s0.tray_and_multi_window + app_rules(apps@.subrange(0, 0), ApplicationOptions::TrayAndMultiWindow));
        while i < apps.len()
            invariant
                i <= apps.len(),
                s@.float == s0.float + app_float_rules(apps@.subrange(0, i as int)),
                s@.manage == s0.manage + app_rules(apps@.subrange(0, i as int), ApplicationOptions::Force),
                s@.object_name_change == s0.object_name_change + app_rules(apps@.subrange(0, i as int), ApplicationOptions::ObjectNameChange),
                s@.layered == s0.layered + app_rules(apps@.subrange(0, i as int), ApplicationOptions::Layered),
                s@.border_overflow == s0.border_overflow + app_rules(apps@.subrange(0, i as int), ApplicationOptions::BorderOverflow),
                s@.tray_and_multi_window == s0.tray_and_multi_window + app_rules(apps@.subrange(0, i as int), ApplicationOptions::TrayAndMultiWindow),
            decreases apps.len() - i,
        {
            let e = &apps[i];
            let ghost next = apps@.subrange(0, i + 1);
            assert(next.drop_last() =~= apps@.subrange(0, i as int));
            assert(next.last() == *e);
            extend_rules(&mut s.float_rules, &e.float_identifiers);
            extend_entry(&mut s.manage_rules, e, ApplicationOptions::Force);
            extend_entry(&mut s.object_name_change_rules, e, ApplicationOptions::ObjectNameChange);
            extend_entry(&mut s.layered_rules, e, ApplicationOptions::Layered);
            extend_entry(&mut s.border_overflow_rules, e, ApplicationOptions::BorderOverflow);
            extend_entry(&mut s.tray_and_multi_window_rules, e, ApplicationOptions::TrayAndMultiWindow);
            assert(s@.float =~= s0.float + app_float_rules(next));
            assert(s@.manage =~= s0.manage + app_rules(next, ApplicationOptions::Force));
            assert(s@.object_name_change =~= s0.object_name_change + app_rules(next, ApplicationOptions::ObjectNameChange));
            assert(s@.layered =~= s0.layered + app_rules(next, ApplicationOptions::Layered));
            assert(s@.border_overflow =~= s0.border_overflow + app_rules(next, ApplicationOptions::BorderOverflow));
            assert(s@.tray_and_multi_window =~= s0.tray_and_multi_window + app_rules(next, ApplicationOptions::TrayAndMultiWindow));
            i = i + 1;
        }
        assert(apps@.subrange(0, apps.len() as int) =~= apps@);
        s
    }

    /// Writes the document's settings into `settings` and merges its rules,
    /// with those of the application entries, into `registry`. When a pattern
    /// does not compile nothing is changed.
    pub fn apply_globals(
        &self,
        apps: &Vec<ApplicationConfiguration>,
        settings: &mut RuntimeSettings,
        registry: &mut RuleRegistry,
    ) -> (res: Result<(), ConfigError>)
        requires
            old(registry).wf(),
        ensures
            final(registry).wf(),
            res is Ok <==> merge_succeeds(old(registry)@, doc_rule_sets(*self, apps@)),
            res is Ok ==> final(registry)@ == merged_registry(old(registry)@, doc_rule_sets(*self, apps@)),
            res is Ok ==> final(settings)@ == applied_settings(old(settings)@, *self),
            res is Err ==> final(registry)@ == old(registry)@,
            res is Err ==> final(settings)@ == old(settings)@,
    {
        let sets = self.rule_sets(apps);
        match registry.merge(&sets) {
            Ok(()) => {},
            Err(e) => {
                return Err(e);
            },
        }
        self.apply_settings(settings);
        Ok(())
    }

    fn apply_colours(&self, settings: &mut RuntimeSettings)
        ensures
            final(settings)@ == (SettingsModel {
                border_colour_single: applied_settings(old(settings)@, *self).border_colour_single,
                border_colour_current: applied_settings(old(settings)@, *self).border_colour_current,
                border_colour_stack: applied_settings(old(settings)@, *self).border_colour_stack,
                border_colour_monocle: applied_settings(old(settings)@, *self).border_colour_monocle,
                ..old(settings)@
            }),
    {
        if let Some(colours) = &self.active_window_border_colours {
            settings.border_colour_single = colours.single.to_u32();
            settings.border_colour_current = colours.single.to_u32();
            settings.border_colour_stack = colours.stack.to_u32();
            settings.border_colour_monocle = colours.monocle.to_u32();
        }
        assert(settings@ =~= (SettingsModel {
                border_colour_single: applied_settings(old(settings)@, *self).border_colour_single,
                border_colour_current: applied_settings(old(settings)@, *self).border_colour_current,
                border_colour_stack: applied_settings(old(settings)@, *self).border_colour_stack,
                border_colour_monocle: applied_settings(old(settings)@, *self).border_colour_monocle,
                ..old(settings)@
            }));
    }

    /// Overwrites each setting that the document holds; border width and
    /// offset take their defaults when it does not.
    pub fn apply_settings(&self, settings: &mut RuntimeSettings)
        ensures
            final(settings)@ == applied_settings(old(settings)@, *self),
    {
        if let Some(p) = &self.monitor_index_preferences {
            settings.monitor_index_preferences = copy_rects(p);
        }
        if let Some(p) = &self.display_index_preferences {
            settings.display_index_preferences = copy_names(p);
        }
        settings.hiding_behaviour = match self.window_hiding_behaviour {
            Some(v) => v,
            None => settings.hiding_behaviour,
        };
        settings.animation_enabled = match self.animation {
            Some(v) => v,
            None => settings.animation_enabled,
        };
        settings.animation_duration = match self.animation_duration {
            Some(v) => v,
            None => settings.animation_duration,
        };
        settings.animation_ease = match self.animation_ease {
            Some(v) => v,
            None => settings.animation_ease,
        };
        settings.default_container_padding = match self.default_container_padding {
            Some(v) => v,
            None => settings.default_container_padding,
        };
        settings.default_workspace_padding = match self.default_workspace_padding {
            Some(v) => v,
            None => settings.default_workspace_padding,
        };
        settings.border_width = match self.border_width {
            Some(w) => w,
            None => DEFAULT_BORDER_WIDTH,
        };
        settings.border_offset = match self.border_offset {
            Some(o) => o,
            None => DEFAULT_BORDER_OFFSET,
        };
        self.apply_colours(settings);
        assert(settings@ =~= applied_settings(old(settings)@, *self));
    }
}


/// A document that leaves border width and offset out gets a width of 8 and
/// an offset of -1.
pub proof fn lemma_border_defaults(s: SettingsModel, d: StaticConfig)
    requires
        d.border_width is None,
        d.border_offset is None,
    ensures
        applied_settings(s, d).border_width == 8,
        applied_settings(s, d).border_offset == -1,
{
}


impl StaticConfig {
    /// A document that sets nothing.
    pub fn empty() -> (d: StaticConfig)
        ensures
            d.invisible_borders is None && d.resize_delta is None && d.window_container_behaviour is None
                && d.cross_monitor_move_behaviour is None && d.unmanaged_window_operation_behaviour is None
                && d.focus_follows_mouse is None && d.mouse_follows_focus is None
                && d.app_specific_configuration_path is None && d.border_width is None
                && d.border_offset is None && d.active_window_border is None
                && d.active_window_border_colours is None && d.default_workspace_padding is None
                && d.default_container_padding is None && d.monitors is None
                && d.window_hiding_behaviour is None && d.global_work_area_offset is None
                && d.float_rules is None && d.manage_rules is None
                && d.border_overflow_applications is None && d.tray_and_multi_window_applications is None
                && d.layered_applications is None && d.object_name_change_applications is None
                && d.monitor_index_preferences is None && d.display_index_preferences is None
                && d.animation is None && d.animation_ease is None && d.animation_duration is None,
    {
        StaticConfig {
            invisible_borders: None,
            resize_delta: None,
            window_container_behaviour: None,
            cross_monitor_move_behaviour: None,
            unmanaged_window_operation_behaviour: None,
            focus_follows_mouse: None,
            mouse_follows_focus: None,
            app_specific_configuration_path: None,
            border_width: None,
            border_offset: None,
            active_window_border: None,
            active_window_border_colours: None,
            default_workspace_padding: None,
            default_container_padding: None,
            monitors: None,
            window_hiding_behaviour: None,
            global_work_area_offset: None,
            float_rules: None,
            manage_rules: None,
            border_overflow_applications: None,
            tray_and_multi_window_applications: None,
            layered_applications: None,
            object_name_change_applications: None,
            monitor_index_preferences: None,
            display_index_preferences: None,
            animation: None,
            animation_ease: None,
            animation_duration: None,
        }
    }
}

impl WorkspaceConfig {
    /// A workspace snapshot that sets only the name.
    pub fn named(name: String) -> (c: WorkspaceConfig)
        ensures
            c.name@ == name@,
            c.layout is None && c.custom_layout is None && c.layout_rules is None
                && c.custom_layout_rules is None && c.container_padding is None
                && c.workspace_padding is None && c.initial_workspace_rules is None
                && c.workspace_rules is None,
    {
        WorkspaceConfig {
            name,
            layout: None,
            custom_layout: None,
            layout_rules: None,
            custom_layout_rules: None,
            container_padding: None,
            workspace_padding: None,
            initial_workspace_rules: None,
            workspace_rules: None,
        }
    }
}

} // verus!
