use vstd::prelude::*;
use crate::config::{
    ApplicationConfiguration, MonitorConfig, StaticConfig, applied_settings, doc_rule_sets, opt_rules,
};
use crate::manager::{
    Behaviour, BindingModel, MonitorModel, WindowManager, applied_monitor, bind_all,
};
use crate::options::{
    MoveBehaviour, OperationBehaviour, SystemFocusFollowsMouse, WindowContainerBehaviour,
    system_ffm_for, system_focus_follows_mouse,
};
use crate::registry::{ConfigError, RuleRegistry, merge_succeeds, merged_registry};
use crate::rules::IdWithIdentifier;
use crate::settings::{RuntimeSettings, SettingsModel};

verus! {

pub const DEFAULT_RESIZE_DELTA: i32 = 50;

/// What the caller must do after a document has been merged into live state.
#[derive(Clone, Copy, Debug, PartialEq, Eq, Structural)]
pub struct LoadEffects {
    /// Create the border overlay.
    pub create_border: bool,
    /// Ask the manager to show the border.
    pub show_border: bool,
    /// Ask the manager to hide the border.
    pub hide_border: bool,
    /// What to do with the system's focus-follows-mouse setting, if anything.
    pub system_focus_follows_mouse: Option<SystemFocusFollowsMouse>,
    /// Re-evaluate the focused workspace of monitors `0..refocus_monitors`.
    pub refocus_monitors: usize,
}

/// The bindings that a list of workspace rules asks for.
pub open spec fn rule_bindings(rules: Option<Vec<IdWithIdentifier>>, i: usize, j: usize, initial: bool) -> Seq<BindingModel> {
    opt_rules(rules).map_values(
        |r: crate::rules::RuleModel| BindingModel { id: r.id, monitor_idx: i, workspace_idx: j, initial },
    )
}

/// The bindings that the workspace snapshots of monitor `i` ask for: for each
/// workspace its permanent rules, then its initial ones.
pub open spec fn workspace_bindings(wss: Seq<crate::config::WorkspaceConfig>, i: usize) -> Seq<BindingModel>
    decreases wss.len(),
{
    if wss.len() == 0 {
        Seq::empty()
    } else {
        let j = (wss.len() - 1) as usize;
        workspace_bindings(wss.drop_last(), i) + rule_bindings(wss.last().workspace_rules, i, j, false)
            + rule_bindings(wss.last().initial_workspace_rules, i, j, true)
    }
}

/// The bindings that a document's monitor snapshots ask for, in order.
pub open spec fn doc_bindings(ms: Seq<MonitorConfig>) -> Seq<BindingModel>
    decreases ms.len(),
{
    if ms.len() == 0 {
        Seq::empty()
    } else {
        doc_bindings(ms.drop_last()) + workspace_bindings(ms.last().workspaces@, (ms.len() - 1) as usize)
    }
}

pub open spec fn doc_monitors(d: StaticConfig) -> Seq<MonitorConfig> {
    match d.monitors {
        Some(v) => v@,
        None => Seq::empty(),
    }
}

/// Live monitors after the snapshots are applied, each to the monitor of its
/// position; monitors without a snapshot stay as they are.
pub open spec fn applied_monitors(ms: Seq<MonitorModel>, cs: Seq<MonitorConfig>) -> Seq<MonitorModel> {
    Seq::new(ms.len(), |i: int| if i < cs.len() { applied_monitor(ms[i], cs[i]) } else { ms[i] })
}

pub open spec fn wants_border(d: StaticConfig) -> bool {
    d.active_window_border == Some(true)
}

pub open spec fn postload_effects(d: StaticConfig, border_exists: bool) -> LoadEffects {
    LoadEffects {
        create_border: wants_border(d) && !border_exists,
        show_border: wants_border(d),
        hide_border: false,
        system_focus_follows_mouse: None,
        refocus_monitors: 0,
    }
}

pub open spec fn reload_effects(d: StaticConfig, border_exists: bool, monitors: usize) -> LoadEffects {
    LoadEffects {
        create_border: wants_border(d) && !border_exists,
        show_border: wants_border(d),
        hide_border: !wants_border(d),
        system_focus_follows_mouse: Some(system_ffm_for(d.focus_follows_mouse)),
        refocus_monitors: monitors,
    }
}

/// The behaviour a new manager starts with.
pub open spec fn initial_behaviour(d: StaticConfig) -> Behaviour {
    Behaviour {
        window_container_behaviour: match d.window_container_behaviour {
            Some(b) => b,
            None => WindowContainerBehaviour::Create,
        },
        cross_monitor_move_behaviour: match d.cross_monitor_move_behaviour {
            Some(b) => b,
            None => MoveBehaviour::Swap,
        },
        unmanaged_window_operation_behaviour: match d.unmanaged_window_operation_behaviour {
            Some(b) => b,
            None => OperationBehaviour::Op,
        },
        resize_delta: match d.resize_delta {
            Some(r) => r,
            None => DEFAULT_RESIZE_DELTA,
        },
        focus_follows_mouse: d.focus_follows_mouse,
        mouse_follows_focus: match d.mouse_follows_focus {
            Some(m) => m,
            None => true,
        },
        work_area_offset: d.global_work_area_offset,
    }
}

/// The behaviour after a reload: what the document sets replaces what was
/// there; focus-follows-mouse and the work area offset are always taken.
pub open spec fn reloaded_behaviour(b: Behaviour, d: StaticConfig) -> Behaviour {
    Behaviour {
        window_container_behaviour: match d.window_container_behaviour {
            Some(v) => v,
            None => b.window_container_behaviour,
        },
        cross_monitor_move_behaviour: match d.cross_monitor_move_behaviour {
            Some(v) => v,
            None => b.cross_monitor_move_behaviour,
        },
        unmanaged_window_operation_behaviour: match d.unmanaged_window_operation_behaviour {
            Some(v) => v,
            None => b.unmanaged_window_operation_behaviour,
        },
        resize_delta: match d.resize_delta {
            Some(v) => v,
            None => b.resize_delta,
        },
        focus_follows_mouse: d.focus_follows_mouse,
        mouse_follows_focus: match d.mouse_follows_focus {
            Some(v) => v,
            None => b.mouse_follows_focus,
        },
        work_area_offset: d.global_work_area_offset,
    }
}

pub proof fn lemma_bind_all_concat(s: Seq<BindingModel>, a: Seq<BindingModel>, b: Seq<BindingModel>)
    ensures
        bind_all(s, a + b) == bind_all(bind_all(s, a), b),
    decreases b.len(),
{
    if b.len() == 0 {
        assert(a + b =~= a);
    } else {
        lemma_bind_all_concat(s, a, b.drop_last());
        assert((a + b).drop_last() =~= a + b.drop_last());
        assert((a + b).last() == b.last());
    }
}

fn bind_rule_list(wm: &mut WindowManager, rules: &Option<Vec<IdWithIdentifier>>, i: usize, j: usize, initial: bool)
    requires
        old(wm).wf(),
    ensures
        final(wm).wf(),
        final(wm).bindings() == bind_all(old(wm).bindings(), rule_bindings(*rules, i, j, initial)),
        final(wm).monitors == old(wm).monitors,
        final(wm).behaviour == old(wm).behaviour,
{
    let ghost b0 = wm.bindings();
    if let Some(v) = rules {
        let ghost target = rule_bindings(*rules, i, j, initial);
        let mut k: usize = 0;
        assert(target.subrange(0, 0) =~= Seq::<BindingModel>::empty());
        while k < v.len()
            invariant
                k <= v.len(),
                wm.wf(),
                target == rule_bindings(*rules, i, j, initial),
                *rules == Some(*v),
                target.len() == v.len(),
                wm.bindings() == bind_all(b0, target.subrange(0, k as int)),
                wm.monitors == old(wm).monitors,
                wm.behaviour == old(wm).behaviour,
            decreases v.len() - k,
        {
            wm.handle_workspace_rules(&v[k].id, i, j, initial);
            let ghost next = target.subrange(0, k + 1);
            assert(next.drop_last() =~= target.subrange(0, k as int));
            assert(next.last() == (BindingModel { id: v@[k as int].id@, monitor_idx: i, workspace_idx: j, initial }));
            k = k + 1;
        }
        assert(target.subrange(0, v.len() as int) =~= target);
    } else {
        assert(rule_bindings(*rules, i, j, initial) =~= Seq::<BindingModel>::empty());
    }
}

fn bind_monitor_rules(wm: &mut WindowManager, c: &MonitorConfig, i: usize)
    requires
        old(wm).wf(),
    ensures
        final(wm).wf(),
        final(wm).bindings() == bind_all(old(wm).bindings(), workspace_bindings(c.workspaces@, i)),
        final(wm).monitors == old(wm).monitors,
        final(wm).behaviour == old(wm).behaviour,
{
    let ghost b0 = wm.bindings();
    let ghost wss = c.workspaces@;
    let mut j: usize = 0;
    assert(wss.subrange(0, 0) =~= Seq::<crate::config::WorkspaceConfig>::empty());
    while j < c.workspaces.len()
        invariant
            j <= c.workspaces.len(),
            wss == c.workspaces@,
            wm.wf(),
            wm.bindings() == bind_all(b0, workspace_bindings(wss.subrange(0, j as int), i)),
            wm.monitors == old(wm).monitors,
            wm.behaviour == old(wm).behaviour,
        decreases c.workspaces.len() - j,
    {
        let ghost prev = workspace_bindings(wss.subrange(0, j as int), i);
        let ws = &c.workspaces[j];
        bind_rule_list(wm, &ws.workspace_rules, i, j, false);
        bind_rule_list(wm, &ws.initial_workspace_rules, i, j, true);
        let ghost next = wss.subrange(0, j + 1);
        assert(next.drop_last() =~= wss.subrange(0, j as int));
        let ghost p = rule_bindings(ws.workspace_rules, i, j, false);
        let ghost q = rule_bindings(ws.initial_workspace_rules, i, j, true);
        proof {
            lemma_bind_all_concat(b0, prev, p);
            lemma_bind_all_concat(b0, prev + p, q);
        }
        j = j + 1;
    }
    assert(wss.subrange(0, wss.len() as int) =~= wss);
}

/// Applies the monitor snapshots to the live monitors and puts the workspace
/// rules of every snapshot in force.
fn apply_monitors(wm: &mut WindowManager, cs: &Vec<MonitorConfig>)
    requires
        old(wm).wf(),
    ensures
        final(wm).wf(),
        final(wm).monitors_model() == applied_monitors(old(wm).monitors_model(), cs@),
        final(wm).bindings() == bind_all(old(wm).bindings(), doc_bindings(cs@)),
        final(wm).behaviour == old(wm).behaviour,
{
    let ghost b0 = wm.bindings();
    let ghost m0 = wm.monitors_model();
    let mut i: usize = 0;
    assert(cs@.subrange(0, 0) =~= Seq::<MonitorConfig>::empty());
    while i < cs.len()
        invariant
            i <= cs.len(),
            wm.wf(),
            wm.monitors.len() == m0.len(),
            forall|k: int| 0 <= k < wm.monitors.len() ==> #[trigger] wm.monitors@[k]@ == (
                if k < i && k < cs.len() { applied_monitor(m0[k], cs@[k]) } else { m0[k] }),
            wm.bindings() == bind_all(b0, doc_bindings(cs@.subrange(0, i as int))),
            wm.behaviour == old(wm).behaviour,
            m0 == old(wm).monitors_model(),
            b0 == old(wm).bindings(),
        decreases cs.len() - i,
    {
        let c = &cs[i];
        if i < wm.monitors.len() {
            wm.monitors[i].apply_config(c);
        }
        let ghost prev = doc_bindings(cs@.subrange(0, i as int));
        bind_monitor_rules(wm, c, i);
        let ghost next = cs@.subrange(0, i + 1);
        assert(next.drop_last() =~= cs@.subrange(0, i as int));
        proof {
            lemma_bind_all_concat(b0, prev, workspace_bindings(c.workspaces@, i));
        }
        i = i + 1;
    }
    assert(cs@.subrange(0, cs.len() as int) =~= cs@);
    assert(wm.monitors_model() =~= applied_monitors(m0, cs@));
}

fn merge_monitors(d: &StaticConfig, wm: &mut WindowManager)
    requires
        old(wm).wf(),
    ensures
        final(wm).wf(),
        final(wm).monitors_model() == applied_monitors(old(wm).monitors_model(), doc_monitors(*d)),
        final(wm).bindings() == bind_all(old(wm).bindings(), doc_bindings(doc_monitors(*d))),
        final(wm).behaviour == old(wm).behaviour,
{
    if let Some(cs) = &d.monitors {
        apply_monitors(wm, cs);
    } else {
        assert(wm.monitors_model() =~= applied_monitors(wm.monitors_model(), Seq::empty()));
    }
}

impl StaticConfig {
    /// Applies the document's globals and gives the behaviour a new manager
    /// starts with, and what to do with the system's focus-follows-mouse
    /// setting. When a pattern does not compile nothing is changed.
    pub fn preload(
        &self,
        apps: &Vec<ApplicationConfiguration>,
        settings: &mut RuntimeSettings,
        registry: &mut RuleRegistry,
    ) -> (res: Result<(Behaviour, SystemFocusFollowsMouse), ConfigError>)
        requires
            old(registry).wf(),
        ensures
            final(registry).wf(),
            res is Ok <==> merge_succeeds(old(registry)@, doc_rule_sets(*self, apps@)),
            res is Ok ==> final(registry)@ == merged_registry(old(registry)@, doc_rule_sets(*self, apps@)),
            res is Ok ==> final(settings)@ == applied_settings(old(settings)@, *self),
            res is Ok ==> res->Ok_0 == (initial_behaviour(*self), system_ffm_for(self.focus_follows_mouse)),
            res is Err ==> final(registry)@ == old(registry)@ && final(settings)@ == old(settings)@,
    {
        match self.apply_globals(apps, settings, registry) {
            Ok(()) => {},
            Err(e) => {
                return Err(e);
            },
        }
        let behaviour = Behaviour {
            window_container_behaviour: match self.window_container_behaviour {
                Some(b) => b,
                None => WindowContainerBehaviour::Create,
            },
            cross_monitor_move_behaviour: match self.cross_monitor_move_behaviour {
                Some(b) => b,
                None => MoveBehaviour::Swap,
            },
            unmanaged_window_operation_behaviour: match self.unmanaged_window_operation_behaviour {
                Some(b) => b,
                None => OperationBehaviour::Op,
            },
            resize_delta: match self.resize_delta {
                Some(r) => r,
                None => DEFAULT_RESIZE_DELTA,
            },
            focus_follows_mouse: self.focus_follows_mouse,
            mouse_follows_focus: match self.mouse_follows_focus {
                Some(m) => m,
                None => true,
            },
            work_area_offset: self.global_work_area_offset,
        };
        Ok((behaviour, system_focus_follows_mouse(self.focus_follows_mouse)))
    }

    /// Merges the monitor and workspace snapshots into a running manager, and
    /// turns the border on when the document asks for it. It never turns the
    /// border off.
    pub fn postload(&self, wm: &mut WindowManager, settings: &mut RuntimeSettings, border_exists: bool) -> (effects: LoadEffects)
        requires
            old(wm).wf(),
        ensures
            final(wm).wf(),
            final(wm).monitors_model() == applied_monitors(old(wm).monitors_model(), doc_monitors(*self)),
            final(wm).bindings() == bind_all(old(wm).bindings(), doc_bindings(doc_monitors(*self))),
            final(wm).behaviour == old(wm).behaviour,
            final(settings)@ == (SettingsModel {
                border_enabled: wants_border(*self) || old(settings).border_enabled,
                ..old(settings)@
            }),
            effects == postload_effects(*self, border_exists),
    {
        merge_monitors(self, wm);
        let wants = match self.active_window_border {
            Some(b) => b,
            None => false,
        };
        if wants {
            settings.border_enabled = true;
        }
        assert(settings@ =~= (SettingsModel {
                border_enabled: wants_border(*self) || old(settings).border_enabled,
                ..old(settings)@
            }));
        LoadEffects {
            create_border: wants && !border_exists,
            show_border: wants,
            hide_border: false,
            system_focus_follows_mouse: None,
            refocus_monitors: 0,
        }
    }

    /// Re-applies a changed document to a running manager: globals and rules
    /// first, so that a pattern that does not compile leaves everything as it
    /// was; then the snapshots, the border, the behaviour, and the monitors
    /// whose focused workspace is to be re-evaluated.
    pub fn reload(
        &self,
        apps: &Vec<ApplicationConfiguration>,
        wm: &mut WindowManager,
        settings: &mut RuntimeSettings,
        registry: &mut RuleRegistry,
        border_exists: bool,
    ) -> (res: Result<LoadEffects, ConfigError>)
        requires
            old(wm).wf(),
            old(registry).wf(),
        ensures
            final(wm).wf(),
            final(registry).wf(),
            res is Ok <==> merge_succeeds(old(registry)@, doc_rule_sets(*self, apps@)),
            res is Err ==> final(registry)@ == old(registry)@,
            res is Err ==> final(settings)@ == old(settings)@,
            res is Err ==> final(wm).monitors_model() == old(wm).monitors_model()
                && final(wm).bindings() == old(wm).bindings()
                && final(wm).behaviour == old(wm).behaviour,
            res is Ok ==> final(registry)@ == merged_registry(old(registry)@, doc_rule_sets(*self, apps@)),
            res is Ok ==> final(settings)@ == (SettingsModel {
                border_enabled: wants_border(*self),
                ..applied_settings(old(settings)@, *self)
            }),
            res is Ok ==> final(wm).monitors_model() == applied_monitors(old(wm).monitors_model(), doc_monitors(*self)),
            res is Ok ==> final(wm).bindings() == bind_all(old(wm).bindings(), doc_bindings(doc_monitors(*self))),
            res is Ok ==> final(wm).behaviour == reloaded_behaviour(old(wm).behaviour, *self),
            res is Ok ==> res->Ok_0 == reload_effects(*self, border_exists, old(wm).monitors.len()),
    {
        match self.apply_globals(apps, settings, registry) {
            Ok(()) => {},
            Err(e) => {
                return Err(e);
            },
        }
        let monitor_count = wm.monitors.len();
        merge_monitors(self, wm);
        let wants = match self.active_window_border {
            Some(b) => b,
            None => false,
        };
        settings.border_enabled = wants;
        let old_b = wm.behaviour;
        wm.behaviour = Behaviour {
            window_container_behaviour: match self.window_container_behaviour {
                Some(v) => v,
                None => old_b.window_container_behaviour,
            },
            cross_monitor_move_behaviour: match self.cross_monitor_move_behaviour {
                Some(v) => v,
                None => old_b.cross_monitor_move_behaviour,
            },
            unmanaged_window_operation_behaviour: match self.unmanaged_window_operation_behaviour {
                Some(v) => v,
                None => old_b.unmanaged_window_operation_behaviour,
            },
            resize_delta: match self.resize_delta {
                Some(v) => v,
                None => old_b.resize_delta,
            },
            focus_follows_mouse: self.focus_follows_mouse,
            mouse_follows_focus: match self.mouse_follows_focus {
                Some(v) => v,
                None => old_b.mouse_follows_focus,
            },
            work_area_offset: self.global_work_area_offset,
        };
        assert(settings@ =~= (SettingsModel {
                border_enabled: wants_border(*self),
                ..applied_settings(old(settings)@, *self)
            }));
        Ok(LoadEffects {
            create_border: wants && !border_exists,
            show_border: wants,
            hide_border: !wants,
            system_focus_follows_mouse: Some(system_focus_follows_mouse(self.focus_follows_mouse)),
            refocus_monitors: monitor_count,
        })
    }
}

} // verus!
