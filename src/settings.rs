use vstd::prelude::*;
use crate::geometry::Rect;
use crate::options::{EaseEnum, HidingBehaviour};

verus! {

pub const DEFAULT_BORDER_WIDTH: i32 = 8;

pub const DEFAULT_BORDER_OFFSET: i32 = -1;

pub const DEFAULT_PADDING: i32 = 10;

pub const DEFAULT_ANIMATION_DURATION: u64 = 250;

/// The settings that every part of the window manager reads.
#[derive(Debug)]
pub struct RuntimeSettings {
    pub border_width: i32,
    pub border_offset: i32,
    pub border_colour_single: u32,
    pub border_colour_current: u32,
    pub border_colour_stack: u32,
    pub border_colour_monocle: u32,
    pub border_enabled: bool,
    pub default_container_padding: i32,
    pub default_workspace_padding: i32,
    pub hiding_behaviour: HidingBehaviour,
    pub monitor_index_preferences: Vec<(usize, Rect)>,
    pub display_index_preferences: Vec<(usize, String)>,
    pub animation_enabled: bool,
    pub animation_duration: u64,
    pub animation_ease: EaseEnum,
}

#[verifier::ext_equal]
pub struct SettingsModel {
    pub border_width: i32,
    pub border_offset: i32,
    pub border_colour_single: u32,
    pub border_colour_current: u32,
    pub border_colour_stack: u32,
    pub border_colour_monocle: u32,
    pub border_enabled: bool,
    pub default_container_padding: i32,
    pub default_workspace_padding: i32,
    pub hiding_behaviour: HidingBehaviour,
    pub monitor_index_preferences: Seq<(usize, Rect)>,
    pub display_index_preferences: Seq<(usize, Seq<char>)>,
    pub animation_enabled: bool,
    pub animation_duration: u64,
    pub animation_ease: EaseEnum,
}

pub open spec fn names_view(s: Seq<(usize, String)>) -> Seq<(usize, Seq<char>)> {
    s.map_values(|p: (usize, String)| (p.0, p.1@))
}

impl View for RuntimeSettings {
    type V = SettingsModel;

    open spec fn view(&self) -> SettingsModel {
        SettingsModel {
            border_width: self.border_width,
            border_offset: self.border_offset,
            border_colour_single: self.border_colour_single,
            border_colour_current: self.border_colour_current,
            border_colour_stack: self.border_colour_stack,
            border_colour_monocle: self.border_colour_monocle,
            border_enabled: self.border_enabled,
            default_container_padding: self.default_container_padding,
            default_workspace_padding: self.default_workspace_padding,
            hiding_behaviour: self.hiding_behaviour,
            monitor_index_preferences: self.monitor_index_preferences@,
            display_index_preferences: names_view(self.display_index_preferences@),
            animation_enabled: self.animation_enabled,
            animation_duration: self.animation_duration,
            animation_ease: self.animation_ease,
        }
    }
}

/// A copy of a list of monitor preferences.
pub fn copy_rects(v: &Vec<(usize, Rect)>) -> (r: Vec<(usize, Rect)>)
    ensures
        r@ == v@,
{
    let mut r: Vec<(usize, Rect)> = Vec::new();
    let mut i: usize = 0;
    while i < v.len()
        invariant
            i <= v.len(),
            r@ == v@.subrange(0, i as int),
        decreases v.len() - i,
    {
        let p = (v[i].0, v[i].1);
        r.push(p);
        assert(r@ =~= v@.subrange(0, i + 1));
        i = i + 1;
    }
    assert(v@.subrange(0, v.len() as int) =~= v@);
    r
}

/// A copy of a list of display preferences.
pub fn copy_names(v: &Vec<(usize, String)>) -> (r: Vec<(usize, String)>)
    ensures
        names_view(r@) == names_view(v@),
{
    let mut r: Vec<(usize, String)> = Vec::new();
    let mut i: usize = 0;
    while i < v.len()
        invariant
            i <= v.len(),
            names_view(r@) == names_view(v@).subrange(0, i as int),
        decreases v.len() - i,
    {
        let name = v[i].1.clone();
        let ghost before = r@;
        r.push((v[i].0, name));
        proof {
            let nv = names_view(v@);
            assert(before.len() == i) by {
                assert(names_view(before).len() == before.len());
            }
            assert(names_view(r@) =~= names_view(v@).subrange(0, i + 1)) by {
                assert(r@ == before.push((v@[i as int].0, name)));
                assert forall|k: int| 0 <= k < i implies names_view(r@)[k] == names_view(before)[k] by {
                    assert(r@[k] == before[k]);
                }
            }
        }
        i = i + 1;
    }
    assert(names_view(v@).subrange(0, v.len() as int) =~= names_view(v@));
    r
}

impl RuntimeSettings {
    /// The settings in force before any configuration is applied.
    pub fn new() -> (s: Self)
        ensures
            s.border_width == DEFAULT_BORDER_WIDTH,
            s.border_offset == DEFAULT_BORDER_OFFSET,
            s.border_colour_single == 0,
            s.border_colour_current == 0,
            s.border_colour_stack == 0,
            s.border_colour_monocle == 0,
            !s.border_enabled,
            s.default_container_padding == DEFAULT_PADDING,
            s.default_workspace_padding == DEFAULT_PADDING,
            s.hiding_behaviour == HidingBehaviour::Minimize,
            s@.monitor_index_preferences.len() == 0,
            s@.display_index_preferences.len() == 0,
            !s.animation_enabled,
            s.animation_duration == DEFAULT_ANIMATION_DURATION,
            s.animation_ease == EaseEnum::Linear,
    {
        RuntimeSettings {
            border_width: DEFAULT_BORDER_WIDTH,
            border_offset: DEFAULT_BORDER_OFFSET,
            border_colour_single: 0,
            border_colour_current: 0,
            border_colour_stack: 0,
            border_colour_monocle: 0,
            border_enabled: false,
            default_container_padding: DEFAULT_PADDING,
            default_workspace_padding: DEFAULT_PADDING,
            hiding_behaviour: HidingBehaviour::Minimize,
            monitor_index_preferences: Vec::new(),
            display_index_preferences: Vec::new(),
            animation_enabled: false,
            animation_duration: DEFAULT_ANIMATION_DURATION,
            animation_ease: EaseEnum::Linear,
        }
    }
}

} // verus!
