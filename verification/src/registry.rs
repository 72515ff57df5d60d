//! The registry of plugins: which ids are registered, and to which plugin
//! each belongs.

use crate::paths::names;
use crate::plugin::Plugin;
use vstd::prelude::*;

verus! {

/// What the registry holds of a registered plugin, besides its id.
pub ghost struct PluginInfo {
    /// The plugin's display name.
    pub name: Seq<char>,
    /// The plugin's description.
    pub description: Seq<char>,
    /// Whether the plugin is switched on.
    pub enabled: bool,
}

/// One registration: what a plugin said of itself when it came.
pub struct RegistryEntry {
    /// The id that the plugin is filed under.
    pub id: String,
    /// The plugin's display name.
    pub name: String,
    /// The plugin's description.
    pub description: String,
    /// Whether the plugin is switched on.
    pub enabled: bool,
}

impl RegistryEntry {
    /// What the entry holds besides the id.
    pub open spec fn info(self) -> PluginInfo {
        PluginInfo { name: self.name@, description: self.description@, enabled: self.enabled }
    }

    /// Asks a plugin for what its entry holds. The four answers are the
    /// plugin's own and nothing is known of them beforehand, so nothing is
    /// promised of the entry: what is done with it is said where it is
    /// filed.
    pub fn of(plugin: &dyn Plugin) -> RegistryEntry {
        RegistryEntry {
            id: plugin.id().to_owned(),
            name: plugin.name().to_owned(),
            description: plugin.description().to_owned(),
            enabled: plugin.is_enabled(),
        }
    }
}

/// Some entry is filed under `id`.
spec fn files(entries: Seq<RegistryEntry>, id: Seq<char>) -> bool {
    exists|i: int| 0 <= i < entries.len() && #[trigger] entries[i].id@ == id
}

/// Where the entry of `id` stands.
spec fn place(entries: Seq<RegistryEntry>, id: Seq<char>) -> int {
    choose|i: int| 0 <= i < entries.len() && #[trigger] entries[i].id@ == id
}

/// No two entries are filed under one id.
spec fn in_order(entries: Seq<RegistryEntry>) -> bool {
    forall|i: int, j: int|
        0 <= i < j < entries.len() ==> #[trigger] entries[i].id@ != #[trigger] entries[j].id@
}

/// The entries as a map from id to plugin.
spec fn as_map(entries: Seq<RegistryEntry>) -> Map<Seq<char>, PluginInfo> {
    Map::new(|id: Seq<char>| files(entries, id), |id: Seq<char>| entries[place(entries, id)].info())
}

/// The ids of the entries, in their order.
spec fn keys(entries: Seq<RegistryEntry>) -> Seq<Seq<char>> {
    Seq::new(entries.len(), |i: int| entries[i].id@)
}

proof fn lemma_place(entries: Seq<RegistryEntry>, i: int)
    requires
        in_order(entries),
        0 <= i < entries.len(),
    ensures
        files(entries, entries[i].id@),
        place(entries, entries[i].id@) == i,
        as_map(entries)[entries[i].id@] == entries[i].info(),
{
    let id = entries[i].id@;
    assert(entries[i].id@ == id);
    let p = place(entries, id);
    assert(0 <= p < entries.len() && entries[p].id@ == id);
    if p < i {
        assert(entries[p].id@ != entries[i].id@);
    } else if i < p {
        assert(entries[i].id@ != entries[p].id@);
    }
}

proof fn lemma_size(entries: Seq<RegistryEntry>)
    requires
        in_order(entries),
    ensures
        as_map(entries).dom() =~= keys(entries).to_set(),
        keys(entries).no_duplicates(),
        as_map(entries).dom().finite(),
        as_map(entries).len() == entries.len(),
{
    let ks = keys(entries);
    assert forall|id: Seq<char>| as_map(entries).dom().contains(id) == ks.to_set().contains(
        id,
    ) by {
        if files(entries, id) {
            let i = place(entries, id);
            assert(ks[i] == id);
        }
        if ks.contains(id) {
            let i = choose|i: int| 0 <= i < ks.len() && ks[i] == id;
            assert(entries[i].id@ == id);
        }
    }
    assert forall|i: int, j: int| 0 <= i < ks.len() && 0 <= j < ks.len() && i != j implies ks[i]
        != ks[j] by {
        if i < j {
            assert(entries[i].id@ != entries[j].id@);
        } else {
            assert(entries[j].id@ != entries[i].id@);
        }
    }
    ks.unique_seq_to_set();
    vstd::seq_lib::seq_to_set_is_finite(ks);
}

proof fn lemma_added(entries: Seq<RegistryEntry>, entry: RegistryEntry)
    requires
        in_order(entries),
        !files(entries, entry.id@),
    ensures
        in_order(entries.push(entry)),
        as_map(entries.push(entry)) =~= as_map(entries).insert(entry.id@, entry.info()),
{
    let after = entries.push(entry);
    assert forall|i: int, j: int| 0 <= i < j < after.len() implies #[trigger] after[i].id@
        != #[trigger] after[j].id@ by {
        if j == entries.len() {
            assert(entries[i].id@ == after[i].id@);
        } else {
            assert(entries[i].id@ != entries[j].id@);
        }
    }
    assert(in_order(after));
    let n = entries.len() as int;
    let target = as_map(entries).insert(entry.id@, entry.info());
    assert forall|id: Seq<char>| #[trigger]
        as_map(after).dom().contains(id) == target.dom().contains(id) by {
        assert(as_map(after).dom().contains(id) == files(after, id));
        assert(target.dom().contains(id) == (id == entry.id@ || files(entries, id)));
        if files(entries, id) {
            let i = place(entries, id);
            assert(after[i].id@ == id);
            assert(files(after, id));
        }
        if id == entry.id@ {
            assert(after[n].id@ == id);
            assert(files(after, id));
        }
        if files(after, id) {
            let i = place(after, id);
            if i < n {
                assert(entries[i].id@ == id);
                assert(files(entries, id));
            } else {
                assert(id == entry.id@);
            }
        }
    }
    assert forall|id: Seq<char>| #[trigger] as_map(after).dom().contains(id) implies as_map(
        after,
    )[id] == as_map(entries).insert(entry.id@, entry.info())[id] by {
        let i = place(after, id);
        assert(files(after, id));
        assert(after[i].id@ == id);
        lemma_place(after, i);
        if i < n {
            assert(entries[i].id@ == id);
            assert(id != entry.id@);
            lemma_place(entries, i);
        }
    }
}

proof fn lemma_replaced(entries: Seq<RegistryEntry>, at: int, entry: RegistryEntry)
    requires
        in_order(entries),
        0 <= at < entries.len(),
        entries[at].id@ == entry.id@,
    ensures
        in_order(entries.update(at, entry)),
        as_map(entries.update(at, entry)) =~= as_map(entries).insert(entry.id@, entry.info()),
{
    let after = entries.update(at, entry);
    assert forall|i: int, j: int| 0 <= i < j < after.len() implies #[trigger] after[i].id@
        != #[trigger] after[j].id@ by {
        assert(entries[i].id@ != entries[j].id@);
    }
    assert(in_order(after));
    assert forall|i: int| 0 <= i < after.len() implies (#[trigger] after[i]).id@
        == entries[i].id@ by {}
    let target = as_map(entries).insert(entry.id@, entry.info());
    assert forall|id: Seq<char>| #[trigger]
        as_map(after).dom().contains(id) == target.dom().contains(id) by {
        assert(as_map(after).dom().contains(id) == files(after, id));
        assert(target.dom().contains(id) == (id == entry.id@ || files(entries, id)));
        if files(entries, id) {
            let i = place(entries, id);
            assert(after[i].id@ == id);
            assert(files(after, id));
        }
        if id == entry.id@ {
            assert(after[at].id@ == id);
            assert(files(after, id));
        }
        if files(after, id) {
            let i = place(after, id);
            assert(after[i].id@ == id);
            assert(entries[i].id@ == id);
            assert(files(entries, id));
        }
    }
    assert forall|id: Seq<char>| #[trigger] as_map(after).dom().contains(id) implies as_map(
        after,
    )[id] == as_map(entries).insert(entry.id@, entry.info())[id] by {
        let i = place(after, id);
        assert(files(after, id));
        assert(after[i].id@ == id);
        lemma_place(after, i);
        lemma_place(entries, i);
    }
}

proof fn lemma_removed(entries: Seq<RegistryEntry>, at: int)
    requires
        in_order(entries),
        0 <= at < entries.len(),
    ensures
        in_order(entries.remove(at)),
        as_map(entries.remove(at)) =~= as_map(entries).remove(entries[at].id@),
{
    let after = entries.remove(at);
    let gone = entries[at].id@;
    assert forall|i: int| 0 <= i < after.len() implies #[trigger] after[i] == entries[if i
        < at {
        i
    } else {
        i + 1
    }] by {}
    assert forall|i: int, j: int| 0 <= i < j < after.len() implies #[trigger] after[i].id@
        != #[trigger] after[j].id@ by {
        let a = if i < at {
            i
        } else {
            i + 1
        };
        let b = if j < at {
            j
        } else {
            j + 1
        };
        assert(after[i] == entries[a]);
        assert(after[j] == entries[b]);
        assert(entries[a].id@ != entries[b].id@);
    }
    assert(in_order(after));
    assert forall|id: Seq<char>| #[trigger]
        as_map(after).dom().contains(id) == as_map(entries).remove(gone).dom().contains(id) by {
        if files(entries, id) && id != gone {
            let i = place(entries, id);
            let a = if i < at {
                i
            } else {
                i - 1
            };
            assert(after[a] == entries[i]);
            assert(after[a].id@ == id);
        }
        if files(after, id) {
            let i = place(after, id);
            let a = if i < at {
                i
            } else {
                i + 1
            };
            assert(after[i] == entries[a]);
            assert(entries[a].id@ == id);
            if a < at {
                assert(entries[a].id@ != entries[at].id@);
            } else {
                assert(entries[at].id@ != entries[a].id@);
            }
        }
    }
    assert forall|id: Seq<char>| #[trigger] as_map(after).dom().contains(id) implies as_map(
        after,
    )[id] == as_map(entries).remove(gone)[id] by {
        let i = place(after, id);
        assert(files(after, id));
        assert(after[i].id@ == id);
        let a = if i < at {
            i
        } else {
            i + 1
        };
        assert(after[i] == entries[a]);
        lemma_place(after, i);
        lemma_place(entries, a);
    }
}

/// How many of the entries are switched on.
spec fn enabled_among(entries: Seq<RegistryEntry>) -> nat
    decreases entries.len(),
{
    if entries.len() == 0 {
        0
    } else {
        enabled_among(entries.drop_last()) + if entries.last().enabled {
            1nat
        } else {
            0nat
        }
    }
}

proof fn lemma_enabled(entries: Seq<RegistryEntry>)
    requires
        in_order(entries),
    ensures
        enabled_ids(as_map(entries)).finite(),
        enabled_ids(as_map(entries)).len() == enabled_among(entries),
        enabled_among(entries) <= entries.len(),
    decreases entries.len(),
{
    lemma_size(entries);
    as_map(entries).dom().lemma_len_filter(|id: Seq<char>| as_map(entries)[id].enabled);
    if entries.len() == 0 {
        assert(enabled_ids(as_map(entries)) =~= Set::<Seq<char>>::empty());
    } else {
        let front = entries.drop_last();
        let last = entries.last();
        assert(front.push(last) =~= entries);
        assert forall|i: int, j: int| 0 <= i < j < front.len() implies #[trigger] front[i].id@
            != #[trigger] front[j].id@ by {
            assert(entries[i].id@ != entries[j].id@);
        }
        if files(front, last.id@) {
            let i = place(front, last.id@);
            assert(entries[i].id@ != entries[entries.len() - 1].id@);
        }
        lemma_added(front, last);
        lemma_enabled(front);
        let before = as_map(front);
        let after = as_map(entries);
        assert(after == before.insert(last.id@, last.info()));
        lemma_size(front);
        assert(!before.dom().contains(last.id@));
        if last.enabled {
            assert(enabled_ids(after) =~= enabled_ids(before).insert(last.id@));
        } else {
            assert(enabled_ids(after) =~= enabled_ids(before));
        }
    }
}

/// The ids under which a plugin that is switched on is registered.
pub open spec fn enabled_ids(plugins: Map<Seq<char>, PluginInfo>) -> Set<Seq<char>> {
    plugins.dom().filter(|id: Seq<char>| plugins[id].enabled)
}

/// What is reported when an id that is not registered is to be removed.
pub open spec fn unknown_plugin_message(id: Seq<char>) -> Seq<char> {
    "Plugin '"@ + id + "' not found"@
}

/// The plugins that the host knows, each under its id.
pub struct PluginRegistry {
    entries: Vec<RegistryEntry>,
}

impl View for PluginRegistry {
    type V = Map<Seq<char>, PluginInfo>;

    /// The registered ids, each with the plugin that is registered under it.
    closed spec fn view(&self) -> Self::V {
        as_map(self.entries@)
    }
}

impl PluginRegistry {
    #[verifier::type_invariant]
    spec fn well_formed(&self) -> bool {
        in_order(self.entries@)
    }

    /// Creates a registry that knows no plugin.
    pub fn new() -> (registry: Self)
        ensures
            registry@ == Map::<Seq<char>, PluginInfo>::empty(),
            registry@.dom().finite(),
    {
        let registry = PluginRegistry { entries: Vec::new() };
        assert(registry@ =~= Map::<Seq<char>, PluginInfo>::empty());
        registry
    }

    /// Where the entry of `id` stands, if there is one.
    fn find(&self, id: &String) -> (at: Option<usize>)
        ensures
            match at {
                Some(i) => i < self.entries@.len() && self.entries@[i as int].id@ == id@,
                None => !files(self.entries@, id@),
            },
    {
        let mut i: usize = 0;
        while i < self.entries.len()
            invariant
                i <= self.entries@.len(),
                forall|j: int| 0 <= j < i ==> (#[trigger] self.entries@[j]).id@ != id@,
            decreases self.entries@.len() - i,
        {
            if self.entries[i].id == *id {
                return Some(i);
            }
            i = i + 1;
        }
        None
    }

    /// Files an entry under its id. An entry that was filed under that id
    /// before is replaced: the last one registered wins.
    pub fn register_entry(&mut self, entry: RegistryEntry)
        ensures
            final(self)@ == old(self)@.insert(entry.id@, entry.info()),
            final(self)@.contains_key(entry.id@),
            final(self)@.dom().finite(),
            final(self)@.len() == old(self)@.len() + if old(self)@.contains_key(entry.id@) {
                0nat
            } else {
                1nat
            },
    {
        proof {
            use_type_invariant(&*self);
            lemma_size(self.entries@);
            law_register(self@, entry.id@, entry.info());
        }
        let found = self.find(&entry.id);
        let mut entries: Vec<RegistryEntry> = Vec::new();
        core::mem::swap(&mut self.entries, &mut entries);
        match found {
            Some(at) => {
                proof {
                    lemma_replaced(entries@, at as int, entry);
                }
                entries.set(at, entry);
            },
            None => {
                proof {
                    lemma_added(entries@, entry);
                }
                entries.push(entry);
            },
        }
        self.entries = entries;
    }

    /// Registers a plugin under the id that it gives. What it says of
    /// itself is asked once, here, and filed as its entry; a plugin that
    /// was registered under that id before is replaced. Registering never
    /// fails.
    pub fn register(&mut self, plugin: Box<dyn Plugin>) -> (r: Result<(), String>)
        ensures
            r is Ok,
            exists|id: Seq<char>, info: PluginInfo| final(self)@ == old(self)@.insert(id, info),
            final(self)@.dom().finite(),
            old(self)@.len() <= final(self)@.len() <= old(self)@.len() + 1,
    {
        let entry = RegistryEntry::of(&*plugin);
        self.register_entry(entry);
        Ok(())
    }

    /// Removes the plugin that is registered under an id. An id that is
    /// not registered is reported, and nothing changes.
    pub fn unregister(&mut self, plugin_id: &str) -> (r: Result<(), String>)
        ensures
            old(self)@.contains_key(plugin_id@) ==> r is Ok && final(self)@ == old(self)@.remove(
                plugin_id@,
            ),
            !old(self)@.contains_key(plugin_id@) ==> final(self)@ == old(self)@ && (r matches Err(
                message,
            ) && message@ == unknown_plugin_message(plugin_id@)),
            !final(self)@.contains_key(plugin_id@),
            final(self)@.dom().finite(),
            final(self)@.len() + if old(self)@.contains_key(plugin_id@) {
                1nat
            } else {
                0nat
            } == old(self)@.len(),
    {
        proof {
            use_type_invariant(&*self);
            lemma_size(self.entries@);
            law_unregister(self@, plugin_id@);
        }
        let id = plugin_id.to_owned();
        match self.find(&id) {
            Some(at) => {
                let mut entries: Vec<RegistryEntry> = Vec::new();
                core::mem::swap(&mut self.entries, &mut entries);
                proof {
                    lemma_removed(entries@, at as int);
                }
                let _ = entries.remove(at);
                self.entries = entries;
                Ok(())
            },
            None => {
                let mut message = "Plugin '".to_owned();
                message.append(plugin_id);
                message.append("' not found");
                Err(message)
            },
        }
    }

    /// The registered ids, each once. Nothing is promised of their order.
    pub fn list_plugins(&self) -> (r: Result<Vec<String>, String>)
        ensures
            r matches Ok(ids) && names(ids@).no_duplicates() && names(ids@).to_set() == self@.dom()
                && ids@.len() == self@.len(),
    {
        proof {
            use_type_invariant(self);
            lemma_size(self.entries@);
        }
        let mut ids: Vec<String> = Vec::new();
        let mut i: usize = 0;
        while i < self.entries.len()
            invariant
                i <= self.entries@.len(),
                ids@.len() == i,
                forall|j: int| 0 <= j < i ==> (#[trigger] ids@[j])@ == self.entries@[j].id@,
            decreases self.entries@.len() - i,
        {
            ids.push(self.entries[i].id.clone());
            i = i + 1;
        }
        assert(names(ids@) =~= keys(self.entries@));
        Ok(ids)
    }

    /// The number of registered plugins.
    pub fn count(&self) -> (r: Result<usize, String>)
        ensures
            r == Ok::<usize, String>(self@.len() as usize),
            self@.dom().finite(),
            self@.len() <= usize::MAX,
    {
        proof {
            use_type_invariant(self);
            lemma_size(self.entries@);
        }
        Ok(self.entries.len())
    }

    /// Tells whether a plugin is registered under an id.
    pub fn has_plugin(&self, plugin_id: &str) -> (b: bool)
        ensures
            b == self@.contains_key(plugin_id@),
    {
        let id = plugin_id.to_owned();
        self.find(&id).is_some()
    }

    /// The number of registered plugins that are switched on.
    pub fn enabled_count(&self) -> (r: Result<usize, String>)
        ensures
            r == Ok::<usize, String>(enabled_ids(self@).len() as usize),
            enabled_ids(self@).len() <= self@.len() <= usize::MAX,
    {
        proof {
            use_type_invariant(self);
            lemma_size(self.entries@);
            lemma_enabled(self.entries@);
        }
        let mut n: usize = 0;
        let mut i: usize = 0;
        while i < self.entries.len()
            invariant
                i <= self.entries@.len(),
                n == enabled_among(self.entries@.take(i as int)),
                n <= i,
            decreases self.entries@.len() - i,
        {
            proof {
                let upto = self.entries@.take(i + 1);
                assert(upto.drop_last() =~= self.entries@.take(i as int));
                assert(upto.last() == self.entries@[i as int]);
            }
            if self.entries[i].enabled {
                n = n + 1;
            }
            i = i + 1;
        }
        assert(self.entries@.take(i as int) =~= self.entries@);
        Ok(n)
    }
}

impl Default for PluginRegistry {
    /// The registry that knows no plugin.
    fn default() -> (registry: Self)
        ensures
            registry@ == Map::<Seq<char>, PluginInfo>::empty(),
    {
        PluginRegistry::new()
    }
}

/// Once a plugin is registered under an id, the id is known and leads to
/// that plugin's entry; every other id is known as before; and the number
/// of plugins has grown by one, or stayed where the id was known already.
pub proof fn law_register(before: Map<Seq<char>, PluginInfo>, id: Seq<char>, info: PluginInfo)
    requires
        before.dom().finite(),
    ensures
        before.insert(id, info).contains_key(id),
        before.insert(id, info)[id] == info,
        forall|other: Seq<char>|
            other != id ==> before.insert(id, info).contains_key(other) == before.contains_key(
                other,
            ),
        before.insert(id, info).dom().finite(),
        before.insert(id, info).len() == before.len() + if before.contains_key(id) {
            0nat
        } else {
            1nat
        },
{
    if before.contains_key(id) {
        assert(before.dom().insert(id) =~= before.dom());
    }
}

/// Once an id is unregistered it is not known any more, and every other
/// id is known as before. Where the id was known, the number of plugins
/// has gone down by one; where it was not, the registry is as it was.
pub proof fn law_unregister(before: Map<Seq<char>, PluginInfo>, id: Seq<char>)
    requires
        before.dom().finite(),
    ensures
        !before.remove(id).contains_key(id),
        forall|other: Seq<char>|
            other != id ==> before.remove(id).contains_key(other) == before.contains_key(other),
        before.remove(id).dom().finite(),
        before.contains_key(id) ==> before.remove(id).len() + 1 == before.len(),
        !before.contains_key(id) ==> before.remove(id) == before,
{
    if !before.contains_key(id) {
        assert(before.remove(id) =~= before);
    }
}

/// Registering a plugin under a fresh id and unregistering it again leaves
/// the registry as it was.
pub proof fn law_register_then_unregister(
    before: Map<Seq<char>, PluginInfo>,
    id: Seq<char>,
    info: PluginInfo,
)
    requires
        !before.contains_key(id),
    ensures
        before.insert(id, info).remove(id) == before,
{
    assert(before.insert(id, info).remove(id) =~= before);
}

/// No plugin that is switched on goes uncounted, and none is counted that
/// is not registered: the plugins that are switched on are among the
/// registered ones.
pub proof fn law_enabled_among_registered(plugins: Map<Seq<char>, PluginInfo>)
    requires
        plugins.dom().finite(),
    ensures
        enabled_ids(plugins).subset_of(plugins.dom()),
        enabled_ids(plugins).finite(),
        enabled_ids(plugins).len() <= plugins.len(),
{
    plugins.dom().lemma_len_filter(|id: Seq<char>| plugins[id].enabled);
}

} // verus!
