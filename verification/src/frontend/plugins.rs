//! Plugins: small components of the user interface that are switched on by
//! name, and the registry that keeps those that are.

use vstd::prelude::*;
use vstd::std_specs::cmp::PartialEqSpecImpl;

verus! {

/// What every plugin tells about itself.
pub trait Plugin {
    /// The identifier of the plugin, as a mathematical value.
    spec fn id_spec(&self) -> Seq<char>;

    /// The display name of the plugin, as a mathematical value.
    spec fn name_spec(&self) -> Seq<char>;

    /// The unique identifier of the plugin.
    fn id(&self) -> (id: &'static str)
        ensures
            id@ == self.id_spec(),
    ;

    /// The display name of the plugin.
    fn name(&self) -> (name: &'static str)
        ensures
            name@ == self.name_spec(),
    ;
}

/// Shows the time of day.
#[derive(Debug, Clone, Copy, PartialEq, Eq, Structural)]
pub struct ClockPlugin;

/// Shows the load of the system.
#[derive(Debug, Clone, Copy, PartialEq, Eq, Structural)]
pub struct SystemStatsPlugin;

/// Plays a video.
#[derive(Debug, Clone, Copy, PartialEq, Eq, Structural)]
pub struct VideoPlugin;

/// Shows a map.
#[derive(Debug, Clone, Copy, PartialEq, Eq, Structural)]
pub struct MapPlugin;

impl Plugin for ClockPlugin {
    open spec fn id_spec(&self) -> Seq<char> {
        "clock"@
    }

    open spec fn name_spec(&self) -> Seq<char> {
        "Clock"@
    }

    fn id(&self) -> (id: &'static str) {
        "clock"
    }

    fn name(&self) -> (name: &'static str) {
        "Clock"
    }
}

impl Plugin for SystemStatsPlugin {
    open spec fn id_spec(&self) -> Seq<char> {
        "system-stats"@
    }

    open spec fn name_spec(&self) -> Seq<char> {
        "System Stats"@
    }

    fn id(&self) -> (id: &'static str) {
        "system-stats"
    }

    fn name(&self) -> (name: &'static str) {
        "System Stats"
    }
}

impl Plugin for VideoPlugin {
    open spec fn id_spec(&self) -> Seq<char> {
        "video"@
    }

    open spec fn name_spec(&self) -> Seq<char> {
        "Video"@
    }

    fn id(&self) -> (id: &'static str) {
        "video"
    }

    fn name(&self) -> (name: &'static str) {
        "Video"
    }
}

impl Plugin for MapPlugin {
    open spec fn id_spec(&self) -> Seq<char> {
        "map"@
    }

    open spec fn name_spec(&self) -> Seq<char> {
        "Map"@
    }

    fn id(&self) -> (id: &'static str) {
        "map"
    }

    fn name(&self) -> (name: &'static str) {
        "Map"
    }
}

/// One of the plugins that there are.
#[derive(Debug, Clone, Copy, PartialEq, Eq, Structural)]
pub enum AnyPlugin {
    Clock(ClockPlugin),
    SystemStats(SystemStatsPlugin),
    Video(VideoPlugin),
    Maps(MapPlugin),
}

impl Plugin for AnyPlugin {
    open spec fn id_spec(&self) -> Seq<char> {
        match self {
            AnyPlugin::Clock(plugin) => plugin.id_spec(),
            AnyPlugin::SystemStats(plugin) => plugin.id_spec(),
            AnyPlugin::Video(plugin) => plugin.id_spec(),
            AnyPlugin::Maps(plugin) => plugin.id_spec(),
        }
    }

    open spec fn name_spec(&self) -> Seq<char> {
        match self {
            AnyPlugin::Clock(plugin) => plugin.name_spec(),
            AnyPlugin::SystemStats(plugin) => plugin.name_spec(),
            AnyPlugin::Video(plugin) => plugin.name_spec(),
            AnyPlugin::Maps(plugin) => plugin.name_spec(),
        }
    }

    fn id(&self) -> (id: &'static str) {
        match self {
            AnyPlugin::Clock(plugin) => plugin.id(),
            AnyPlugin::SystemStats(plugin) => plugin.id(),
            AnyPlugin::Video(plugin) => plugin.id(),
            AnyPlugin::Maps(plugin) => plugin.id(),
        }
    }

    fn name(&self) -> (name: &'static str) {
        match self {
            AnyPlugin::Clock(plugin) => plugin.name(),
            AnyPlugin::SystemStats(plugin) => plugin.name(),
            AnyPlugin::Video(plugin) => plugin.name(),
            AnyPlugin::Maps(plugin) => plugin.name(),
        }
    }
}

/// The plugin that is registered under `name`, if there is one.
pub open spec fn plugin_named(name: Seq<char>) -> Option<AnyPlugin> {
    if name == "Clock"@ {
        Some(AnyPlugin::Clock(ClockPlugin))
    } else if name == "SystemStats"@ {
        Some(AnyPlugin::SystemStats(SystemStatsPlugin))
    } else if name == "Video"@ {
        Some(AnyPlugin::Video(VideoPlugin))
    } else if name == "Map"@ {
        Some(AnyPlugin::Maps(MapPlugin))
    } else {
        None
    }
}

/// The identifiers of a list of plugins, in order.
pub open spec fn ids_of(plugins: Seq<AnyPlugin>) -> Seq<Seq<char>> {
    Seq::new(plugins.len(), |i: int| plugins[i].id_spec())
}

/// The plugins that are switched on, in the order in which they were
/// registered.
#[derive(Debug)]
pub struct PluginRegistry {
    plugins: Vec<AnyPlugin>,
}

impl View for PluginRegistry {
    type V = Seq<AnyPlugin>;

    closed spec fn view(&self) -> Seq<AnyPlugin> {
        self.plugins@
    }
}

impl PluginRegistry {
    /// A registry without plugins.
    pub fn new() -> (registry: PluginRegistry)
        ensures
            registry@ == Seq::<AnyPlugin>::empty(),
    {
        PluginRegistry { plugins: Vec::new() }
    }

    /// Registers a plugin, after those that are registered already.
    pub fn register(&mut self, plugin: AnyPlugin)
        ensures
            final(self)@ == old(self)@.push(plugin),
    {
        self.plugins.push(plugin);
    }

    /// Registers the plugin that goes by `name`. A name that no plugin goes
    /// by changes nothing.
    pub fn register_by_name(&mut self, name: &str)
        ensures
            final(self)@ == match plugin_named(name@) {
                Some(plugin) => old(self)@.push(plugin),
                None => old(self)@,
            },
    {
        let name = name.to_owned();
        if name == "Clock".to_owned() {
            self.register(AnyPlugin::Clock(ClockPlugin));
        } else if name == "SystemStats".to_owned() {
            self.register(AnyPlugin::SystemStats(SystemStatsPlugin));
        } else if name == "Video".to_owned() {
            self.register(AnyPlugin::Video(VideoPlugin));
        } else if name == "Map".to_owned() {
            self.register(AnyPlugin::Maps(MapPlugin));
        }
    }

    /// All registered plugins, in the order in which they were registered.
    pub fn get_all(&self) -> (plugins: &[AnyPlugin])
        ensures
            plugins@ == self@,
    {
        self.plugins.as_slice()
    }
}

impl Default for PluginRegistry {
    fn default() -> (registry: PluginRegistry)
        ensures
            registry@ == Seq::<AnyPlugin>::empty(),
    {
        PluginRegistry::new()
    }
}

impl PartialEq for PluginRegistry {
    /// Two registries are equal if their plugins have the same identifiers
    /// in the same order.
    fn eq(&self, other: &Self) -> (equal: bool) {
        if self.plugins.len() != other.plugins.len() {
            assert(ids_of(self@).len() != ids_of(other@).len());
            return false;
        }
        let mut i: usize = 0;
        while i < self.plugins.len()
            invariant
                i <= self.plugins.len(),
                self.plugins.len() == other.plugins.len(),
                forall|k: int| 0 <= k < i ==> (#[trigger] self@[k]).id_spec() == other@[k].id_spec(),
            decreases self.plugins.len() - i,
        {
            let mine = self.plugins[i].id().to_owned();
            let theirs = other.plugins[i].id().to_owned();
            if mine != theirs {
                assert(ids_of(self@)[i as int] != ids_of(other@)[i as int]);
                return false;
            }
            i += 1;
        }
        assert(ids_of(self@) =~= ids_of(other@));
        true
    }
}

impl PartialEqSpecImpl for PluginRegistry {
    open spec fn obeys_eq_spec() -> bool {
        true
    }

    open spec fn eq_spec(&self, other: &Self) -> bool {
        ids_of(self@) == ids_of(other@)
    }
}

} // verus!
