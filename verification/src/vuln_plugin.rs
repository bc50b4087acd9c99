//! Vulnerability-feed plugins and the registry that knows them by name.

use vstd::prelude::*;
use dashmap::DashMap;

verus! {

/// A source of vulnerability records.
pub trait VulnPlugin {
    /// The name under which the plugin registers.
    fn get_name(&self) -> String;

    /// The name shown to people.
    fn get_display_name(&self) -> String;

    /// The home page of the source.
    fn get_link(&self) -> String;
}

/// What the registry keeps of a plugin.
#[derive(Clone, Debug, PartialEq, Eq)]
pub struct PluginInfo {
    pub name: String,
    pub display_name: String,
    pub link: String,
}

/// A plugin's description as three texts: name, display name, link.
pub type PluginInfoView = (Seq<char>, Seq<char>, Seq<char>);

impl View for PluginInfo {
    type V = PluginInfoView;

    open spec fn view(&self) -> PluginInfoView {
        (self.name@, self.display_name@, self.link@)
    }
}

#[verifier::external_type_specification]
#[verifier::external_body]
#[verifier::reject_recursive_types(K)]
#[verifier::reject_recursive_types(V)]
#[verifier::reject_recursive_types(S)]
pub struct ExDashMap<K, V, S>(DashMap<K, V, S>);

/// The map's entries, each value a triple of texts.
pub type Entries = DashMap<String, (String, String, String)>;

/// What a `DashMap` of plugin descriptions holds: each key's text mapped to
/// its value's three texts.
pub uninterp spec fn dashmap_entries(m: Entries) -> Map<Seq<char>, PluginInfoView>;

/// The texts of a triple of strings.
pub open spec fn triple_view(v: (String, String, String)) -> PluginInfoView {
    (v.0@, v.1@, v.2@)
}

/// The texts of a sequence of strings.
pub open spec fn string_views(v: Seq<String>) -> Seq<Seq<char>> {
    v.map_values(|s: String| s@)
}

/// `DashMap::new`: a map with no entries.
#[verifier::external_body]
fn dashmap_new() -> (m: Entries)
    ensures
        dashmap_entries(m).dom() == Set::<Seq<char>>::empty(),
{
    DashMap::new()
}

/// `DashMap::insert`: maps `key` to `value`, replacing the entry that the
/// key had, and returns the value it replaced.
#[verifier::external_body]
fn dashmap_insert(m: &mut Entries, key: String, value: (String, String, String)) -> (r: Option<(String, String, String)>)
    ensures
        dashmap_entries(*final(m)) == dashmap_entries(*old(m)).insert(key@, triple_view(value)),
        r is Some == dashmap_entries(*old(m)).contains_key(key@),
        r matches Some(v) ==> triple_view(v) == dashmap_entries(*old(m))[key@],
{
    m.insert(key, value)
}

/// `DashMap::get`, with the value cloned out of the guard it comes in.
#[verifier::external_body]
fn dashmap_get(m: &Entries, key: &str) -> (r: Option<(String, String, String)>)
    ensures
        r is Some == dashmap_entries(*m).contains_key(key@),
        r matches Some(v) ==> triple_view(v) == dashmap_entries(*m)[key@],
{
    match m.get(key) {
        Some(entry) => Some(entry.value().clone()),
        None => None,
    }
}

/// `DashMap::iter`, each key cloned: every key of the map once, in an order
/// that the map's hashing decides.
#[verifier::external_body]
fn dashmap_keys(m: &Entries) -> (r: Vec<String>)
    ensures
        string_views(r@).to_set() == dashmap_entries(*m).dom(),
        string_views(r@).no_duplicates(),
{
    let mut keys = Vec::new();
    for entry in m.iter() {
        keys.push(entry.key().clone());
    }
    keys
}

/// The plugins known by name.
pub struct PluginRegistry {
    plugins: Entries,
}

impl View for PluginRegistry {
    type V = Map<Seq<char>, PluginInfoView>;

    closed spec fn view(&self) -> Map<Seq<char>, PluginInfoView> {
        dashmap_entries(self.plugins)
    }
}

impl PluginRegistry {
    /// A registry that knows no plugin.
    pub fn new() -> (r: PluginRegistry)
        ensures
            r@.dom() == Set::<Seq<char>>::empty(),
    {
        PluginRegistry { plugins: dashmap_new() }
    }
}

/// Registers `plugin` under `name`, replacing any plugin registered under it.
pub fn register_plugin(registry: &mut PluginRegistry, name: String, plugin: PluginInfo)
    ensures
        final(registry)@ == old(registry)@.insert(name@, plugin@),
{
    let PluginInfo { name: plugin_name, display_name, link } = plugin;
    let _ = dashmap_insert(&mut registry.plugins, name, (plugin_name, display_name, link));
}

/// The plugin registered under `name`, if any.
pub fn get_plugin(registry: &PluginRegistry, name: &str) -> (r: Option<PluginInfo>)
    ensures
        r is Some == registry@.contains_key(name@),
        r matches Some(p) ==> p@ == registry@[name@],
{
    match dashmap_get(&registry.plugins, name) {
        Some((plugin_name, display_name, link)) => Some(PluginInfo { name: plugin_name, display_name, link }),
        None => None,
    }
}

/// The names of all registered plugins, each once.
pub fn list_plugin_names(registry: &PluginRegistry) -> (r: Vec<String>)
    ensures
        string_views(r@).to_set() == registry@.dom(),
        string_views(r@).no_duplicates(),
{
    dashmap_keys(&registry.plugins)
}

/// Registering a plugin makes its name listed, next to every name that was
/// listed before, and no other.
pub proof fn lemma_register_then_list(
    before: Map<Seq<char>, PluginInfoView>,
    name: Seq<char>,
    plugin: PluginInfoView,
    listed: Seq<Seq<char>>,
)
    requires
        listed.to_set() == before.insert(name, plugin).dom(),
    ensures
        listed.contains(name),
        forall|n: Seq<char>| before.contains_key(n) ==> listed.contains(n),
        forall|n: Seq<char>| listed.contains(n) ==> n == name || before.contains_key(n),
{
    assert(listed.to_set().contains(name));
    assert forall|n: Seq<char>| before.contains_key(n) implies listed.contains(n) by {
        assert(listed.to_set().contains(n));
    }
    assert forall|n: Seq<char>| listed.contains(n) implies n == name || before.contains_key(n) by {
        assert(listed.to_set().contains(n));
    }
}

/// Registering under a name that is already taken replaces that plugin and
/// leaves the number of registered plugins unchanged; a new name adds one.
pub proof fn lemma_register_count(before: Map<Seq<char>, PluginInfoView>, name: Seq<char>, plugin: PluginInfoView)
    requires
        before.dom().finite(),
    ensures
        before.insert(name, plugin)[name] == plugin,
        before.contains_key(name) ==> before.insert(name, plugin).dom().len() == before.dom().len(),
        !before.contains_key(name) ==> before.insert(name, plugin).dom().len() == before.dom().len() + 1,
{
}

} // verus!
