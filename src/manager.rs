use vstd::prelude::*;
use crate::config::{MonitorConfig, WorkspaceConfig};
use crate::geometry::Rect;
use crate::options::{
    DefaultLayout, FocusFollowsMouseImplementation, MoveBehaviour, OperationBehaviour,
    WindowContainerBehaviour,
};

verus! {

/// A workspace layout: built in, or read from a file.
#[derive(Debug)]
pub enum Layout {
    Default(DefaultLayout),
    Custom(String),
}

pub enum LayoutModel {
    Default(DefaultLayout),
    Custom(Seq<char>),
}

impl View for Layout {
    type V = LayoutModel;

    open spec fn view(&self) -> LayoutModel {
        match self {
            Layout::Default(l) => LayoutModel::Default(*l),
            Layout::Custom(p) => LayoutModel::Custom(p@),
        }
    }
}

/// A live workspace.
#[derive(Debug)]
pub struct Workspace {
    pub name: Option<String>,
    pub layout: Layout,
    pub layout_rules: Vec<(usize, Layout)>,
    pub container_padding: Option<i32>,
    pub workspace_padding: Option<i32>,
    pub tile: bool,
}

#[verifier::ext_equal]
pub struct WorkspaceModel {
    pub name: Option<Seq<char>>,
    pub layout: LayoutModel,
    pub layout_rules: Seq<(usize, LayoutModel)>,
    pub container_padding: Option<i32>,
    pub workspace_padding: Option<i32>,
    pub tile: bool,
}

pub open spec fn layout_rules_view(s: Seq<(usize, Layout)>) -> Seq<(usize, LayoutModel)> {
    s.map_values(|p: (usize, Layout)| (p.0, p.1@))
}

impl View for Workspace {
    type V = WorkspaceModel;

    open spec fn view(&self) -> WorkspaceModel {
        WorkspaceModel {
            name: match self.name {
                Some(n) => Some(n@),
                None => None,
            },
            layout: self.layout@,
            layout_rules: layout_rules_view(self.layout_rules@),
            container_padding: self.container_padding,
            workspace_padding: self.workspace_padding,
            tile: self.tile,
        }
    }
}

/// A new workspace: unnamed, tiled with the BSP layout, no rules, global padding.
pub open spec fn fresh_workspace() -> WorkspaceModel {
    WorkspaceModel {
        name: None,
        layout: LayoutModel::Default(DefaultLayout::BSP),
        layout_rules: Seq::empty(),
        container_padding: None,
        workspace_padding: None,
        tile: true,
    }
}

/// The layout rules a workspace snapshot asks for: the built-in ones, then the
/// custom ones.
pub open spec fn snapshot_layout_rules(c: WorkspaceConfig) -> Seq<(usize, LayoutModel)> {
    let d = match c.layout_rules {
        Some(v) => v@.map_values(|p: (usize, DefaultLayout)| (p.0, LayoutModel::Default(p.1))),
        None => Seq::empty(),
    };
    let k = match c.custom_layout_rules {
        Some(v) => v@.map_values(|p: (usize, String)| (p.0, LayoutModel::Custom(p.1@))),
        None => Seq::empty(),
    };
    d + k
}

/// A workspace after a snapshot is loaded into it.
pub open spec fn loaded_workspace(w: WorkspaceModel, c: WorkspaceConfig) -> WorkspaceModel {
    WorkspaceModel {
        name: Some(c.name@),
        layout: match c.custom_layout {
            Some(p) => LayoutModel::Custom(p@),
            None => match c.layout {
                Some(l) => LayoutModel::Default(l),
                None => w.layout,
            },
        },
        layout_rules: snapshot_layout_rules(c),
        container_padding: match c.container_padding {
            Some(p) => Some(p),
            None => w.container_padding,
        },
        workspace_padding: match c.workspace_padding {
            Some(p) => Some(p),
            None => w.workspace_padding,
        },
        tile: c.layout is Some || c.custom_layout is Some,
    }
}

impl Workspace {
    pub fn new() -> (w: Workspace)
        ensures
            w@ == fresh_workspace(),
    {
        let w = Workspace {
            name: None,
            layout: Layout::Default(DefaultLayout::BSP),
            layout_rules: Vec::new(),
            container_padding: None,
            workspace_padding: None,
            tile: true,
        };
        assert(w@ =~= fresh_workspace());
        w
    }

    /// Takes name, layout, layout rules and padding from a snapshot; padding
    /// and layout it leaves out stay as they are.
    pub fn load_static_config(&mut self, c: &WorkspaceConfig)
        ensures
            final(self)@ == loaded_workspace(old(self)@, *c),
    {
        self.name = Some(c.name.clone());
        if let Some(p) = c.container_padding {
            self.container_padding = Some(p);
        }
        if let Some(p) = c.workspace_padding {
            self.workspace_padding = Some(p);
        }
        if let Some(l) = c.layout {
            self.layout = Layout::Default(l);
        }
        if let Some(p) = &c.custom_layout {
            self.layout = Layout::Custom(p.clone());
        }
        self.tile = c.layout.is_some() || c.custom_layout.is_some();
        let mut rules: Vec<(usize, Layout)> = Vec::new();
        let ghost target = snapshot_layout_rules(*c);
        if let Some(v) = &c.layout_rules {
            let mut i: usize = 0;
            while i < v.len()
                invariant
                    i <= v.len(),
                    layout_rules_view(rules@) == v@.map_values(|p: (usize, DefaultLayout)| (p.0, LayoutModel::Default(p.1))).subrange(0, i as int),
                decreases v.len() - i,
            {
                let ghost before = rules@;
                let item = (v[i].0, Layout::Default(v[i].1));
                rules.push(item);
                assert(layout_rules_view(rules@) =~= layout_rules_view(before).push((v@[i as int].0, LayoutModel::Default(v@[i as int].1)))) by {
                    assert(rules@ == before.push(item));
                }
                i = i + 1;
            }
        }
        let ghost d = layout_rules_view(rules@);
        assert(d == match c.layout_rules {
            Some(v) => v@.map_values(|p: (usize, DefaultLayout)| (p.0, LayoutModel::Default(p.1))),
            None => Seq::empty(),
        }) by {
            if let Some(v) = c.layout_rules {
                assert(v@.map_values(|p: (usize, DefaultLayout)| (p.0, LayoutModel::Default(p.1))).subrange(0, v.len() as int)
                    =~= v@.map_values(|p: (usize, DefaultLayout)| (p.0, LayoutModel::Default(p.1))));
            } else {
                assert(d =~= Seq::empty());
            }
        }
        if let Some(v) = &c.custom_layout_rules {
            let mut i: usize = 0;
            while i < v.len()
                invariant
                    i <= v.len(),
                    layout_rules_view(rules@) == d + v@.map_values(|p: (usize, String)| (p.0, LayoutModel::Custom(p.1@))).subrange(0, i as int),
                decreases v.len() - i,
            {
                let ghost before = rules@;
                let item = (v[i].0, Layout::Custom(v[i].1.clone()));
                rules.push(item);
                assert(layout_rules_view(rules@) =~= layout_rules_view(before).push((v@[i as int].0, LayoutModel::Custom(v@[i as int].1@)))) by {
                    assert(rules@ == before.push(item));
                }
                i = i + 1;
            }
            assert(v@.map_values(|p: (usize, String)| (p.0, LayoutModel::Custom(p.1@))).subrange(0, v.len() as int)
                =~= v@.map_values(|p: (usize, String)| (p.0, LayoutModel::Custom(p.1@))));
        } else {
            assert(d =~= d + Seq::empty());
        }
        self.layout_rules = rules;
        assert(self@ =~= loaded_workspace(old(self)@, *c));
    }
}

/// A live monitor.
#[derive(Debug)]
pub struct Monitor {
    pub workspaces: Vec<Workspace>,
    pub work_area_offset: Option<Rect>,
}

#[verifier::ext_equal]
pub struct MonitorModel {
    pub workspaces: Seq<WorkspaceModel>,
    pub work_area_offset: Option<Rect>,
}

pub open spec fn workspaces_view(s: Seq<Workspace>) -> Seq<WorkspaceModel> {
    s.map_values(|w: Workspace| w@)
}

impl View for Monitor {
    type V = MonitorModel;

    open spec fn view(&self) -> MonitorModel {
        MonitorModel { workspaces: workspaces_view(self.workspaces@), work_area_offset: self.work_area_offset }
    }
}

/// `ws` with fresh workspaces added until there are `n`.
pub open spec fn grown(ws: Seq<WorkspaceModel>, n: nat) -> Seq<WorkspaceModel> {
    if n <= ws.len() {
        ws
    } else {
        ws + Seq::new((n - ws.len()) as nat, |k: int| fresh_workspace())
    }
}

/// A monitor after its snapshot is applied: grown to the snapshot's length,
/// its offset taken from the snapshot, and each workspace that the snapshot
/// describes loaded from it.
pub open spec fn applied_monitor(m: MonitorModel, c: MonitorConfig) -> MonitorModel {
    let g = grown(m.workspaces, c.workspaces.len() as nat);
    MonitorModel {
        workspaces: Seq::new(
            g.len(),
            |j: int|
                if j < c.workspaces.len() {
                    loaded_workspace(g[j], c.workspaces@[j])
                } else {
                    g[j]
                },
        ),
        work_area_offset: c.work_area_offset,
    }
}

impl Monitor {
    pub fn new() -> (m: Monitor)
        ensures
            m@.workspaces.len() == 0,
            m@.work_area_offset is None,
    {
        Monitor { workspaces: Vec::new(), work_area_offset: None }
    }

    /// Adds fresh workspaces until there are at least `n`; never removes one.
    pub fn ensure_workspace_count(&mut self, n: usize)
        ensures
            final(self)@ == (MonitorModel { workspaces: grown(old(self)@.workspaces, n as nat), ..old(self)@ }),
    {
        let ghost w0 = workspaces_view(self.workspaces@);
        let ghost len0 = self.workspaces.len();
        while self.workspaces.len() < n
            invariant
                len0 <= self.workspaces.len(),
                n > len0 ==> self.workspaces.len() <= n,
                n <= len0 ==> self.workspaces.len() == len0,
                workspaces_view(self.workspaces@) == w0 + Seq::new((self.workspaces.len() - len0) as nat, |k: int| fresh_workspace()),
                w0.len() == len0,
                w0 == old(self)@.workspaces,
                self.work_area_offset == old(self).work_area_offset,
            decreases n - self.workspaces.len(),
        {
            let ghost before = self.workspaces@;
            let w = Workspace::new();
            self.workspaces.push(w);
            assert(workspaces_view(self.workspaces@) =~= workspaces_view(before).push(fresh_workspace())) by {
                assert(self.workspaces@ == before.push(w));
            }
            assert(workspaces_view(self.workspaces@) =~= w0 + Seq::new((self.workspaces.len() - len0) as nat, |k: int| fresh_workspace()));
        }
        proof {
            if n <= len0 {
                assert(self.workspaces.len() == len0);
                assert(w0 + Seq::new(0, |k: int| fresh_workspace()) =~= w0);
            } else {
                assert(self.workspaces.len() == n);
            }
        }
        assert(workspaces_view(self.workspaces@) =~= grown(w0, n as nat));
        assert(self@ =~= (MonitorModel { workspaces: grown(old(self)@.workspaces, n as nat), ..old(self)@ }));
    }

    /// Applies a monitor snapshot.
    pub fn apply_config(&mut self, c: &MonitorConfig)
        ensures
            final(self)@ == applied_monitor(old(self)@, *c),
    {
        let n = c.workspaces.len();
        self.ensure_workspace_count(n);
        self.work_area_offset = c.work_area_offset;
        let ghost g = workspaces_view(self.workspaces@);
        let mut j: usize = 0;
        while j < n
            invariant
                n == c.workspaces.len(),
                g == grown(old(self)@.workspaces, n as nat),
                self.work_area_offset == c.work_area_offset,
                j <= n,
                g.len() >= n,
                self.workspaces.len() == g.len(),
                forall|k: int| 0 <= k < j ==> #[trigger] self.workspaces@[k]@ == loaded_workspace(g[k], c.workspaces@[k]),
                forall|k: int| j <= k < g.len() ==> #[trigger] self.workspaces@[k]@ == g[k],
            decreases n - j,
        {
            self.workspaces[j].load_static_config(&c.workspaces[j]);
            j = j + 1;
        }
        assert(workspaces_view(self.workspaces@) =~= applied_monitor(old(self)@, *c).workspaces);
        assert(self@ =~= applied_monitor(old(self)@, *c));
    }
}

/// Which workspace an application is bound to.
#[derive(Debug)]
pub struct WorkspaceRule {
    pub id: String,
    pub monitor_idx: usize,
    pub workspace_idx: usize,
    pub initial: bool,
}

pub struct BindingModel {
    pub id: Seq<char>,
    pub monitor_idx: usize,
    pub workspace_idx: usize,
    pub initial: bool,
}

impl View for WorkspaceRule {
    type V = BindingModel;

    open spec fn view(&self) -> BindingModel {
        BindingModel {
            id: self.id@,
            monitor_idx: self.monitor_idx,
            workspace_idx: self.workspace_idx,
            initial: self.initial,
        }
    }
}

pub open spec fn bindings_view(s: Seq<WorkspaceRule>) -> Seq<BindingModel> {
    s.map_values(|b: WorkspaceRule| b@)
}

/// No identifier is bound twice.
pub open spec fn bindings_unique(s: Seq<BindingModel>) -> bool {
    forall|a: int, b: int| 0 <= a < b < s.len() ==> s[a].id != s[b].id
}

/// `s` with `b` in force: it replaces the binding of the same identifier, or is
/// appended when there is none.
pub open spec fn bind(s: Seq<BindingModel>, b: BindingModel) -> Seq<BindingModel> {
    if exists|k: int| 0 <= k < s.len() && s[k].id == b.id {
        s.update(choose|k: int| 0 <= k < s.len() && s[k].id == b.id, b)
    } else {
        s.push(b)
    }
}

/// `s` with each binding of `list` put in force, in order.
pub open spec fn bind_all(s: Seq<BindingModel>, list: Seq<BindingModel>) -> Seq<BindingModel>
    decreases list.len(),
{
    if list.len() == 0 {
        s
    } else {
        bind(bind_all(s, list.drop_last()), list.last())
    }
}

/// Puts `b` in force in `rules`.
pub fn bind_rule(rules: &mut Vec<WorkspaceRule>, b: WorkspaceRule)
    requires
        bindings_unique(bindings_view(old(rules)@)),
    ensures
        bindings_view(final(rules)@) == bind(bindings_view(old(rules)@), b@),
        bindings_unique(bindings_view(final(rules)@)),
{
    let ghost s = bindings_view(rules@);
    let mut i: usize = 0;
    while i < rules.len()
        invariant
            i <= rules.len(),
            s == bindings_view(rules@),
            s == bindings_view(old(rules)@),
            bindings_unique(s),
            forall|k: int| 0 <= k < i ==> rules@[k]@.id != b@.id,
        decreases rules.len() - i,
    {
        if rules[i].id == b.id {
            let ghost bv = b@;
            assert(s[i as int].id == bv.id);
            let ghost c = choose|k: int| 0 <= k < s.len() && s[k].id == bv.id;
            assert(c == i);
            rules[i] = b;
            assert(bindings_view(rules@) =~= s.update(i as int, bv));
            assert(bindings_unique(bindings_view(rules@))) by {
                let t = bindings_view(rules@);
                assert forall|x: int, y: int| 0 <= x < y < t.len() implies t[x].id != t[y].id by {
                    if x == i {
                        assert(s[y].id != s[i as int].id);
                    } else if y == i {
                        assert(s[x].id != s[i as int].id);
                    } else {
                        assert(t[x] == s[x] && t[y] == s[y]);
                    }
                }
            }
            return;
        }
        i = i + 1;
    }
    let ghost bv = b@;
    assert(!exists|k: int| 0 <= k < s.len() && s[k].id == bv.id) by {
        assert forall|k: int| 0 <= k < s.len() implies s[k].id != bv.id by {
            assert(rules@[k]@ == s[k]);
        }
    }
    let ghost before = rules@;
    rules.push(b);
    assert(bindings_view(rules@) =~= s.push(bv)) by {
        assert(rules@ == before.push(b));
    }
}

/// Global window-management behaviour.
#[derive(Clone, Copy, Debug, PartialEq, Eq, Structural)]
pub struct Behaviour {
    pub window_container_behaviour: WindowContainerBehaviour,
    pub cross_monitor_move_behaviour: MoveBehaviour,
    pub unmanaged_window_operation_behaviour: OperationBehaviour,
    pub resize_delta: i32,
    pub focus_follows_mouse: Option<FocusFollowsMouseImplementation>,
    pub mouse_follows_focus: bool,
    pub work_area_offset: Option<Rect>,
}

/// The live state that configuration is merged into.
#[derive(Debug)]
pub struct WindowManager {
    pub monitors: Vec<Monitor>,
    pub workspace_rules: Vec<WorkspaceRule>,
    pub behaviour: Behaviour,
}

pub open spec fn monitors_view(s: Seq<Monitor>) -> Seq<MonitorModel> {
    s.map_values(|m: Monitor| m@)
}

impl WindowManager {
    pub open spec fn wf(&self) -> bool {
        bindings_unique(bindings_view(self.workspace_rules@))
    }

    pub open spec fn monitors_model(&self) -> Seq<MonitorModel> {
        monitors_view(self.monitors@)
    }

    pub open spec fn bindings(&self) -> Seq<BindingModel> {
        bindings_view(self.workspace_rules@)
    }

    pub fn new(monitors: Vec<Monitor>, behaviour: Behaviour) -> (wm: WindowManager)
        ensures
            wm.wf(),
            wm.monitors@ == monitors@,
            wm.bindings().len() == 0,
            wm.behaviour == behaviour,
    {
        let wm = WindowManager { monitors, workspace_rules: Vec::new(), behaviour };
        assert(wm.bindings() =~= Seq::<BindingModel>::empty());
        wm
    }

    /// Binds application `id` to workspace `workspace_idx` of monitor
    /// `monitor_idx`.
    pub fn handle_workspace_rules(&mut self, id: &String, monitor_idx: usize, workspace_idx: usize, initial: bool)
        requires
            old(self).wf(),
        ensures
            final(self).wf(),
            final(self).bindings() == bind(
                old(self).bindings(),
                BindingModel { id: id@, monitor_idx, workspace_idx, initial },
            ),
            final(self).monitors == old(self).monitors,
            final(self).behaviour == old(self).behaviour,
    {
        bind_rule(&mut self.workspace_rules, WorkspaceRule { id: id.clone(), monitor_idx, workspace_idx, initial });
    }
}

} // verus!
