use vstd::prelude::*;
use crate::config::{MonitorConfig, StaticConfig, WorkspaceConfig};
use crate::geometry::{ActiveWindowBorderColours, Colour, unpacked_colour};
use crate::manager::{
    BindingModel, Layout, LayoutModel, Monitor, WindowManager, Workspace, WorkspaceRule,
    bindings_view, layout_rules_view,
};
use crate::options::DefaultLayout;
use crate::rules::{ApplicationIdentifier, IdWithIdentifier, RuleModel, rules_view};
use crate::settings::RuntimeSettings;

verus! {

/// Whether `s` ends with the three characters `exe`.
pub open spec fn ends_with_exe(s: Seq<char>) -> bool {
    s.len() >= 3 && s.subrange(s.len() - 3, s.len() as int) == seq!['e', 'x', 'e']
}

/// Relies on str::ends_with: whether the text ends with the given suffix.
#[verifier::external_body]
fn has_exe_suffix(s: &str) -> (b: bool)
    ensures
        b == ends_with_exe(s@),
{
    s.ends_with("exe")
}

/// The executable rules recorded by the bindings with the given `initial`
/// flag, in order.
pub open spec fn exe_rules(bs: Seq<BindingModel>, initial: bool) -> Seq<RuleModel>
    decreases bs.len(),
{
    if bs.len() == 0 {
        Seq::empty()
    } else {
        let rest = exe_rules(bs.drop_last(), initial);
        let b = bs.last();
        if ends_with_exe(b.id) && b.initial == initial {
            rest.push(RuleModel { kind: ApplicationIdentifier::Exe, id: b.id, matching_strategy: None })
        } else {
            rest
        }
    }
}

/// Whether some binding puts `id` on a workspace other than `(m, w)`.
pub open spec fn bound_elsewhere(bs: Seq<BindingModel>, id: Seq<char>, m: usize, w: usize) -> bool {
    exists|k: int|
        0 <= k < bs.len() && #[trigger] bs[k].id == id && (bs[k].monitor_idx != m || bs[k].workspace_idx
            != w)
}

/// The rules of `list` that no binding puts on another workspace than `(m, w)`.
pub open spec fn unrelocated(list: Seq<RuleModel>, bs: Seq<BindingModel>, m: usize, w: usize) -> Seq<RuleModel>
    decreases list.len(),
{
    if list.len() == 0 {
        Seq::empty()
    } else {
        let rest = unrelocated(list.drop_last(), bs, m, w);
        if bound_elsewhere(bs, list.last().id, m, w) {
            rest
        } else {
            rest.push(list.last())
        }
    }
}

/// The built-in layout rules among `rs`, in order.
pub open spec fn default_layout_rules(rs: Seq<(usize, LayoutModel)>) -> Seq<(usize, DefaultLayout)>
    decreases rs.len(),
{
    if rs.len() == 0 {
        Seq::empty()
    } else {
        let rest = default_layout_rules(rs.drop_last());
        match rs.last().1 {
            LayoutModel::Default(l) => rest.push((rs.last().0, l)),
            LayoutModel::Custom(_) => rest,
        }
    }
}

/// A padding is written only where it differs from the global default.
pub open spec fn padding_to_save(p: Option<i32>, default: i32) -> Option<i32> {
    match p {
        Some(v) => if v == default {
            None
        } else {
            Some(v)
        },
        None => None,
    }
}

pub open spec fn rules_to_save(bs: Seq<BindingModel>, initial: bool) -> Option<Seq<RuleModel>> {
    if exe_rules(bs, initial).len() == 0 {
        None
    } else {
        Some(exe_rules(bs, initial))
    }
}

pub open spec fn opt_rules_model(o: Option<Vec<IdWithIdentifier>>) -> Option<Seq<RuleModel>> {
    match o {
        Some(v) => Some(rules_view(v@)),
        None => None,
    }
}

/// Whether `c` is the snapshot of workspace `w` with the executable bindings
/// of `bs`.
pub open spec fn is_workspace_snapshot(c: WorkspaceConfig, w: Workspace, bs: Seq<BindingModel>, settings: RuntimeSettings) -> bool {
    &&& c.name@ == match w.name {
        Some(n) => n@,
        None => "unnamed"@,
    }
    &&& c.layout == match w.layout {
        Layout::Default(l) => Some(l),
        Layout::Custom(_) => None,
    }
    &&& c.custom_layout is None
    &&& c.custom_layout_rules is None
    &&& c.layout_rules is Some
    &&& c.layout_rules->0@ == default_layout_rules(layout_rules_view(w.layout_rules@))
    &&& c.container_padding == padding_to_save(w.container_padding, settings.default_container_padding)
    &&& c.workspace_padding == padding_to_save(w.workspace_padding, settings.default_workspace_padding)
    &&& opt_rules_model(c.workspace_rules) == rules_to_save(bs, false)
    &&& opt_rules_model(c.initial_workspace_rules) == rules_to_save(bs, true)
}

fn exe_rules_of(bs: &Vec<WorkspaceRule>, initial: bool) -> (r: Option<Vec<IdWithIdentifier>>)
    ensures
        opt_rules_model(r) == rules_to_save(bindings_view(bs@), initial),
{
    let ghost bv = bindings_view(bs@);
    let mut out: Vec<IdWithIdentifier> = Vec::new();
    let mut i: usize = 0;
    assert(bv.subrange(0, 0) =~= Seq::<BindingModel>::empty());
    while i < bs.len()
        invariant
            i <= bs.len(),
            bv == bindings_view(bs@),
            rules_view(out@) == exe_rules(bv.subrange(0, i as int), initial),
        decreases bs.len() - i,
    {
        let b = &bs[i];
        let ghost next = bv.subrange(0, i + 1);
        assert(next.drop_last() =~= bv.subrange(0, i as int));
        assert(next.last() == b@);
        if b.initial == initial && has_exe_suffix(b.id.as_str()) {
            let ghost before = out@;
            let r = IdWithIdentifier { kind: ApplicationIdentifier::Exe, id: b.id.clone(), matching_strategy: None };
            out.push(r);
            assert(rules_view(out@) =~= rules_view(before).push(r@)) by {
                assert(out@ == before.push(r));
            }
        }
        i = i + 1;
    }
    assert(bv.subrange(0, bs.len() as int) =~= bv);
    if out.len() == 0 {
        None
    } else {
        Some(out)
    }
}

fn default_layout_rules_of(rs: &Vec<(usize, Layout)>) -> (r: Vec<(usize, DefaultLayout)>)
    ensures
        r@ == default_layout_rules(layout_rules_view(rs@)),
{
    let ghost rv = layout_rules_view(rs@);
    let mut out: Vec<(usize, DefaultLayout)> = Vec::new();
    let mut i: usize = 0;
    assert(rv.subrange(0, 0) =~= Seq::<(usize, LayoutModel)>::empty());
    while i < rs.len()
        invariant
            i <= rs.len(),
            rv == layout_rules_view(rs@),
            out@ == default_layout_rules(rv.subrange(0, i as int)),
        decreases rs.len() - i,
    {
        let ghost next = rv.subrange(0, i + 1);
        assert(next.drop_last() =~= rv.subrange(0, i as int));
        match &rs[i].1 {
            Layout::Default(l) => {
                out.push((rs[i].0, *l));
            },
            Layout::Custom(_) => {},
        }
        i = i + 1;
    }
    assert(rv.subrange(0, rs.len() as int) =~= rv);
    out
}

fn padding_of(p: Option<i32>, default: i32) -> (r: Option<i32>)
    ensures
        r == padding_to_save(p, default),
{
    match p {
        Some(v) => if v == default {
            None
        } else {
            Some(v)
        },
        None => None,
    }
}

impl WorkspaceConfig {
    /// The snapshot of a live workspace. It lists as rules every executable
    /// binding of `bindings`; only built-in layouts are written.
    pub fn from_workspace(w: &Workspace, bindings: &Vec<WorkspaceRule>, settings: &RuntimeSettings) -> (c: WorkspaceConfig)
        ensures
            is_workspace_snapshot(c, *w, bindings_view(bindings@), *settings),
    {
        let name = match &w.name {
            Some(n) => n.clone(),
            None => "unnamed".to_owned(),
        };
        let layout = match &w.layout {
            Layout::Default(l) => Some(*l),
            Layout::Custom(_) => None,
        };
        WorkspaceConfig {
            name,
            layout,
            custom_layout: None,
            layout_rules: Some(default_layout_rules_of(&w.layout_rules)),
            custom_layout_rules: None,
            container_padding: padding_of(w.container_padding, settings.default_container_padding),
            workspace_padding: padding_of(w.workspace_padding, settings.default_workspace_padding),
            initial_workspace_rules: exe_rules_of(bindings, true),
            workspace_rules: exe_rules_of(bindings, false),
        }
    }
}

fn is_bound_elsewhere(bs: &Vec<WorkspaceRule>, id: &String, m: usize, w: usize) -> (b: bool)
    ensures
        b == bound_elsewhere(bindings_view(bs@), id@, m, w),
{
    let ghost bv = bindings_view(bs@);
    let mut i: usize = 0;
    while i < bs.len()
        invariant
            i <= bs.len(),
            bv == bindings_view(bs@),
            forall|k: int| 0 <= k < i ==> !(#[trigger] bv[k].id == id@ && (bv[k].monitor_idx != m || bv[k].workspace_idx != w)),
        decreases bs.len() - i,
    {
        if bs[i].id == *id && (bs[i].monitor_idx != m || bs[i].workspace_idx != w) {
            assert(bv[i as int].id == id@);
            return true;
        }
        i = i + 1;
    }
    false
}

/// Drops from `list` the rules whose identifier is bound to another workspace.
fn prune_relocated(list: Option<Vec<IdWithIdentifier>>, bs: &Vec<WorkspaceRule>, m: usize, w: usize) -> (r: Option<Vec<IdWithIdentifier>>)
    ensures
        opt_rules_model(r) == match opt_rules_model(list) {
            Some(l) => Some(unrelocated(l, bindings_view(bs@), m, w)),
            None => None,
        },
{
    match list {
        None => None,
        Some(v) => {
            let ghost lv = rules_view(v@);
            let ghost bv = bindings_view(bs@);
            let mut out: Vec<IdWithIdentifier> = Vec::new();
            let mut i: usize = 0;
            assert(lv.subrange(0, 0) =~= Seq::<RuleModel>::empty());
            while i < v.len()
                invariant
                    i <= v.len(),
                    lv == rules_view(v@),
                    bv == bindings_view(bs@),
                    rules_view(out@) == unrelocated(lv.subrange(0, i as int), bv, m, w),
                decreases v.len() - i,
            {
                let ghost next = lv.subrange(0, i + 1);
                assert(next.drop_last() =~= lv.subrange(0, i as int));
                if !is_bound_elsewhere(bs, &v[i].id, m, w) {
                    let ghost before = out@;
                    let r = v[i].clone();
                    out.push(r);
                    assert(rules_view(out@) =~= rules_view(before).push(r@)) by {
                        assert(out@ == before.push(r));
                    }
                }
                i = i + 1;
            }
            assert(lv.subrange(0, v.len() as int) =~= lv);
            Some(out)
        },
    }
}

/// The rules a saved workspace `(m, w)` lists: the executable bindings with the
/// given flag, less those bound to another workspace.
pub open spec fn saved_rules(bs: Seq<BindingModel>, initial: bool, m: usize, w: usize) -> Option<Seq<RuleModel>> {
    match rules_to_save(bs, initial) {
        Some(l) => Some(unrelocated(l, bs, m, w)),
        None => None,
    }
}

/// Whether `c` is the saved form of workspace `w`, which stands at `(m, j)`.
pub open spec fn is_saved_workspace(
    c: WorkspaceConfig,
    w: Workspace,
    bs: Seq<BindingModel>,
    settings: RuntimeSettings,
    m: usize,
    j: usize,
) -> bool {
    &&& c.name@ == match w.name {
        Some(n) => n@,
        None => "unnamed"@,
    }
    &&& c.layout == match w.layout {
        Layout::Default(l) => Some(l),
        Layout::Custom(_) => None,
    }
    &&& c.custom_layout is None
    &&& c.custom_layout_rules is None
    &&& c.layout_rules is Some
    &&& c.layout_rules->0@ == default_layout_rules(layout_rules_view(w.layout_rules@))
    &&& c.container_padding == padding_to_save(w.container_padding, settings.default_container_padding)
    &&& c.workspace_padding == padding_to_save(w.workspace_padding, settings.default_workspace_padding)
    &&& opt_rules_model(c.workspace_rules) == saved_rules(bs, false, m, j)
    &&& opt_rules_model(c.initial_workspace_rules) == saved_rules(bs, true, m, j)
}

/// Whether `c` is the saved form of monitor `mon`, which stands at `m`.
pub open spec fn is_saved_monitor(c: MonitorConfig, mon: Monitor, bs: Seq<BindingModel>, settings: RuntimeSettings, m: usize) -> bool {
    &&& c.work_area_offset == mon.work_area_offset
    &&& c.workspaces.len() == mon.workspaces.len()
    &&& forall|j: int|
        0 <= j < c.workspaces.len() ==> is_saved_workspace(
            #[trigger] c.workspaces@[j],
            mon.workspaces@[j],
            bs,
            settings,
            m,
            j as usize,
        )
}

/// The saved colour of a container kind: its own, or the single-window one
/// where its own is unset.
pub open spec fn colour_or_single(v: u32, single: u32) -> Colour {
    if v == 0 {
        unpacked_colour(single)
    } else {
        unpacked_colour(v)
    }
}

fn workspace_snapshot_at(w: &Workspace, bs: &Vec<WorkspaceRule>, settings: &RuntimeSettings, m: usize, j: usize) -> (c: WorkspaceConfig)
    ensures
        is_saved_workspace(c, *w, bindings_view(bs@), *settings, m, j),
{
    let c = WorkspaceConfig::from_workspace(w, bs, settings);
    let WorkspaceConfig {
        name,
        layout,
        custom_layout,
        layout_rules,
        custom_layout_rules,
        container_padding,
        workspace_padding,
        initial_workspace_rules,
        workspace_rules,
    } = c;
    WorkspaceConfig {
        name,
        layout,
        custom_layout,
        layout_rules,
        custom_layout_rules,
        container_padding,
        workspace_padding,
        initial_workspace_rules: prune_relocated(initial_workspace_rules, bs, m, j),
        workspace_rules: prune_relocated(workspace_rules, bs, m, j),
    }
}

fn monitor_snapshot_at(mon: &Monitor, bs: &Vec<WorkspaceRule>, settings: &RuntimeSettings, m: usize) -> (c: MonitorConfig)
    ensures
        is_saved_monitor(c, *mon, bindings_view(bs@), *settings, m),
{
    let mut workspaces: Vec<WorkspaceConfig> = Vec::new();
    let mut j: usize = 0;
    while j < mon.workspaces.len()
        invariant
            j <= mon.workspaces.len(),
            workspaces.len() == j,
            forall|k: int|
                0 <= k < j ==> is_saved_workspace(
                    #[trigger] workspaces@[k],
                    mon.workspaces@[k],
                    bindings_view(bs@),
                    *settings,
                    m,
                    k as usize,
                ),
        decreases mon.workspaces.len() - j,
    {
        let c = workspace_snapshot_at(&mon.workspaces[j], bs, settings, m, j);
        workspaces.push(c);
        j = j + 1;
    }
    MonitorConfig { workspaces, work_area_offset: mon.work_area_offset }
}

impl MonitorConfig {
    /// The snapshot of a live monitor: one workspace snapshot for each of its
    /// workspaces, and its work area offset.
    pub fn from_monitor(mon: &Monitor, bindings: &Vec<WorkspaceRule>, settings: &RuntimeSettings) -> (c: MonitorConfig)
        ensures
            c.work_area_offset == mon.work_area_offset,
            c.workspaces.len() == mon.workspaces.len(),
            forall|j: int|
                0 <= j < c.workspaces.len() ==> is_workspace_snapshot(
                    #[trigger] c.workspaces@[j],
                    mon.workspaces@[j],
                    bindings_view(bindings@),
                    *settings,
                ),
    {
        let mut workspaces: Vec<WorkspaceConfig> = Vec::new();
        let mut j: usize = 0;
        while j < mon.workspaces.len()
            invariant
                j <= mon.workspaces.len(),
                workspaces.len() == j,
                forall|k: int|
                    0 <= k < j ==> is_workspace_snapshot(
                        #[trigger] workspaces@[k],
                        mon.workspaces@[k],
                        bindings_view(bindings@),
                        *settings,
                    ),
            decreases mon.workspaces.len() - j,
        {
            let c = WorkspaceConfig::from_workspace(&mon.workspaces[j], bindings, settings);
            workspaces.push(c);
            j = j + 1;
        }
        MonitorConfig { workspaces, work_area_offset: mon.work_area_offset }
    }
}

impl StaticConfig {
    /// The document that describes the live state, for saving. A workspace
    /// lists only the executable rules bound to it; rule lists and the
    /// application rule file are not written.
    pub fn from_state(wm: &WindowManager, settings: &RuntimeSettings) -> (d: StaticConfig)
        ensures
            d.monitors is Some,
            d.monitors->0.len() == wm.monitors.len(),
            forall|i: int|
                0 <= i < wm.monitors.len() ==> is_saved_monitor(
                    #[trigger] d.monitors->0@[i],
                    wm.monitors@[i],
                    wm.bindings(),
                    *settings,
                    i as usize,
                ),
            d.invisible_borders is None,
            d.resize_delta == Some(wm.behaviour.resize_delta),
            d.window_container_behaviour == Some(wm.behaviour.window_container_behaviour),
            d.cross_monitor_move_behaviour == Some(wm.behaviour.cross_monitor_move_behaviour),
            d.unmanaged_window_operation_behaviour == Some(wm.behaviour.unmanaged_window_operation_behaviour),
            d.focus_follows_mouse == wm.behaviour.focus_follows_mouse,
            d.mouse_follows_focus == Some(wm.behaviour.mouse_follows_focus),
            d.app_specific_configuration_path is None,
            d.border_width == Some(settings.border_width),
            d.border_offset == Some(settings.border_offset),
            d.active_window_border == Some(settings.border_enabled),
            settings.border_colour_single == 0 ==> d.active_window_border_colours is None,
            settings.border_colour_single != 0 ==> d.active_window_border_colours == Some(ActiveWindowBorderColours {
                single: unpacked_colour(settings.border_colour_single),
                stack: colour_or_single(settings.border_colour_stack, settings.border_colour_single),
                monocle: colour_or_single(settings.border_colour_monocle, settings.border_colour_single),
            }),
            d.default_workspace_padding == Some(settings.default_workspace_padding),
            d.default_container_padding == Some(settings.default_container_padding),
            d.window_hiding_behaviour == Some(settings.hiding_behaviour),
            d.global_work_area_offset == wm.behaviour.work_area_offset,
            d.float_rules is None,
            d.manage_rules is None,
            d.border_overflow_applications is None,
            d.tray_and_multi_window_applications is None,
            d.layered_applications is None,
            d.object_name_change_applications is None,
            d.monitor_index_preferences is Some,
            d.monitor_index_preferences->0@ == settings.monitor_index_preferences@,
            d.display_index_preferences is Some,
            crate::settings::names_view(d.display_index_preferences->0@) == settings@.display_index_preferences,
            d.animation == Some(settings.animation_enabled),
            d.animation_duration == Some(settings.animation_duration),
            d.animation_ease == Some(settings.animation_ease),
    {
        let mut monitors: Vec<MonitorConfig> = Vec::new();
        let mut i: usize = 0;
        while i < wm.monitors.len()
            invariant
                i <= wm.monitors.len(),
                monitors.len() == i,
                forall|k: int|
                    0 <= k < i ==> is_saved_monitor(
                        #[trigger] monitors@[k],
                        wm.monitors@[k],
                        wm.bindings(),
                        *settings,
                        k as usize,
                    ),
            decreases wm.monitors.len() - i,
        {
            let c = monitor_snapshot_at(&wm.monitors[i], &wm.workspace_rules, settings, i);
            monitors.push(c);
            i = i + 1;
        }
        let single = settings.border_colour_single;
        let border_colours = if single == 0 {
            None
        } else {
            Some(ActiveWindowBorderColours {
                single: Colour::from_u32(single),
                stack: Colour::from_u32(
                    if settings.border_colour_stack == 0 {
                        single
                    } else {
                        settings.border_colour_stack
                    },
                ),
                monocle: Colour::from_u32(
                    if settings.border_colour_monocle == 0 {
                        single
                    } else {
                        settings.border_colour_monocle
                    },
                ),
            })
        };
        let b = wm.behaviour;
        StaticConfig {
            invisible_borders: None,
            resize_delta: Some(b.resize_delta),
            window_container_behaviour: Some(b.window_container_behaviour),
            cross_monitor_move_behaviour: Some(b.cross_monitor_move_behaviour),
            unmanaged_window_operation_behaviour: Some(b.unmanaged_window_operation_behaviour),
            focus_follows_mouse: b.focus_follows_mouse,
            mouse_follows_focus: Some(b.mouse_follows_focus),
            app_specific_configuration_path: None,
            border_width: Some(settings.border_width),
            border_offset: Some(settings.border_offset),
            active_window_border: Some(settings.border_enabled),
            active_window_border_colours: border_colours,
            default_workspace_padding: Some(settings.default_workspace_padding),
            default_container_padding: Some(settings.default_container_padding),
            monitors: Some(monitors),
            window_hiding_behaviour: Some(settings.hiding_behaviour),
            global_work_area_offset: b.work_area_offset,
            float_rules: None,
            manage_rules: None,
            border_overflow_applications: None,
            tray_and_multi_window_applications: None,
            layered_applications: None,
            object_name_change_applications: None,
            monitor_index_preferences: Some(crate::settings::copy_rects(&settings.monitor_index_preferences)),
            display_index_preferences: Some(crate::settings::copy_names(&settings.display_index_preferences)),
            animation: Some(settings.animation_enabled),
            animation_ease: Some(settings.animation_ease),
            animation_duration: Some(settings.animation_duration),
        }
    }
}

/// A rule kept for workspace `(m, w)` is bound to no other workspace.
pub proof fn lemma_unrelocated_members(l: Seq<RuleModel>, bs: Seq<BindingModel>, m: usize, w: usize, x: RuleModel)
    requires
        unrelocated(l, bs, m, w).contains(x),
    ensures
        l.contains(x),
        !bound_elsewhere(bs, x.id, m, w),
    decreases l.len(),
{
    let d = l.drop_last();
    let rest = unrelocated(d, bs, m, w);
    if rest.contains(x) {
        lemma_unrelocated_members(d, bs, m, w, x);
        let k = choose|k: int| 0 <= k < d.len() && d[k] == x;
        assert(l[k] == x);
    } else {
        assert(x == l.last());
        assert(l[l.len() - 1] == x);
    }
}

/// Every executable rule recorded comes from a binding of its identifier.
pub proof fn lemma_exe_rules_bound(bs: Seq<BindingModel>, initial: bool, x: RuleModel)
    requires
        exe_rules(bs, initial).contains(x),
    ensures
        exists|k: int| 0 <= k < bs.len() && #[trigger] bs[k].id == x.id,
    decreases bs.len(),
{
    let d = bs.drop_last();
    if exe_rules(d, initial).contains(x) {
        lemma_exe_rules_bound(d, initial, x);
        let k = choose|k: int| 0 <= k < d.len() && #[trigger] d[k].id == x.id;
        assert(bs[k].id == x.id);
    } else {
        assert(bs[bs.len() - 1].id == x.id);
    }
}

/// In a saved document no application identifier is listed under two
/// different workspaces: a rule moved from one workspace to another appears
/// only where it is now bound.
pub proof fn lemma_saved_rules_not_duplicated(
    bs: Seq<BindingModel>,
    f1: bool,
    m1: usize,
    w1: usize,
    f2: bool,
    m2: usize,
    w2: usize,
    x: RuleModel,
    y: RuleModel,
)
    requires
        m1 != m2 || w1 != w2,
        saved_rules(bs, f1, m1, w1) is Some,
        saved_rules(bs, f2, m2, w2) is Some,
        saved_rules(bs, f1, m1, w1)->0.contains(x),
        saved_rules(bs, f2, m2, w2)->0.contains(y),
    ensures
        x.id != y.id,
{
    lemma_unrelocated_members(exe_rules(bs, f1), bs, m1, w1, x);
    lemma_unrelocated_members(exe_rules(bs, f2), bs, m2, w2, y);
    lemma_exe_rules_bound(bs, f1, x);
    if x.id == y.id {
        let k = choose|k: int| 0 <= k < bs.len() && #[trigger] bs[k].id == x.id;
        assert(bs[k].monitor_idx == m1 && bs[k].workspace_idx == w1);
        assert(bs[k].monitor_idx == m2 && bs[k].workspace_idx == w2);
    }
}

} // verus!
