//! The layout configuration of the user interface: which component fills
//! which region of the screen.

use vstd::prelude::*;

verus! {

/// The components that a region can show.
#[derive(Debug, Clone, Copy, PartialEq, Eq, Hash, Structural)]
pub enum ComponentType {
    ControlsDrawer,
    DetailsDrawer,
    UserDrawer,
    DrawingToolbar,
    TopLeftHud,
    TopRightHud,
    BottomLeftHud,
    BottomRightHud,
    BentoGrid,
    ChatInputBar,
    ChatHistoryView,
}

/// What one region shows.
#[derive(Debug, Clone, Copy, PartialEq, Eq, Structural)]
pub struct RegionConfig {
    pub component: ComponentType,
}

/// The regions of the layout, each under its name. Where a name occurs more
/// than once, its first entry counts.
#[derive(Debug, Clone, PartialEq, Eq)]
pub struct LayoutConfig {
    pub regions: Vec<(String, RegionConfig)>,
}

/// The configuration of the user interface.
#[derive(Debug, Clone, PartialEq, Eq)]
pub struct UiConfig {
    pub layout: LayoutConfig,
}

impl View for LayoutConfig {
    type V = Seq<(Seq<char>, RegionConfig)>;

    open spec fn view(&self) -> Seq<(Seq<char>, RegionConfig)> {
        Seq::new(self.regions@.len(), |i: int| (self.regions@[i].0@, self.regions@[i].1))
    }
}

impl View for UiConfig {
    type V = Seq<(Seq<char>, RegionConfig)>;

    open spec fn view(&self) -> Seq<(Seq<char>, RegionConfig)> {
        self.layout@
    }
}

/// Whether the entry at `i` is the first under `name`.
pub open spec fn is_first_entry(
    regions: Seq<(Seq<char>, RegionConfig)>,
    name: Seq<char>,
    i: int,
) -> bool {
    &&& 0 <= i < regions.len()
    &&& regions[i].0 == name
    &&& forall|j: int| 0 <= j < i ==> (#[trigger] regions[j]).0 != name
}

/// What the region `name` shows: what its first entry says, if it has one.
pub open spec fn region_spec(regions: Seq<(Seq<char>, RegionConfig)>, name: Seq<char>) -> Option<
    RegionConfig,
> {
    if exists|i: int| is_first_entry(regions, name, i) {
        Some(regions[choose|i: int| is_first_entry(regions, name, i)].1)
    } else {
        None
    }
}

impl LayoutConfig {
    /// What the region `name` shows, if the layout configures it.
    pub fn region(&self, name: &str) -> (region: Option<RegionConfig>)
        ensures
            region == region_spec(self@, name@),
    {
        let wanted = name.to_owned();
        let mut i: usize = 0;
        while i < self.regions.len()
            invariant
                i <= self.regions.len(),
                wanted@ == name@,
                forall|j: int| 0 <= j < i ==> (#[trigger] self@[j]).0 != name@,
            decreases self.regions.len() - i,
        {
            if self.regions[i].0 == wanted {
                proof {
                    assert(self@[i as int].0 == name@);
                    assert(is_first_entry(self@, name@, i as int));
                    let k = choose|k: int| is_first_entry(self@, name@, k);
                    if k < i {
                        assert(self@[k].0 != name@);
                    } else if i < k {
                        assert(self@[i as int].0 != name@);
                    }
                }
                return Some(self.regions[i].1);
            }
            i += 1;
        }
        proof {
            assert forall|k: int| !is_first_entry(self@, name@, k) by {
                if 0 <= k < self@.len() {
                    assert(self@[k].0 != name@);
                }
            }
        }
        None
    }
}

} // verus!
