//! What the registry asks of a plugin.

use vstd::prelude::*;

verus! {

/// A plugin, as far as the host's registry is concerned: something with an
/// id, a name, a description and an enabled flag. What a plugin searches
/// for or executes is of no concern here.
///
/// Nothing is asked of an implementation: the registry files a plugin
/// under whatever it says of itself at the moment it is registered.
pub trait Plugin: Send + Sync {
    /// The id under which the plugin is registered.
    fn id(&self) -> &str;

    /// The name that the host shows for the plugin.
    fn name(&self) -> &str;

    /// A sentence on what the plugin does.
    fn description(&self) -> &str;

    /// Tells whether the plugin is switched on.
    fn is_enabled(&self) -> bool;
}

/// One answer of a plugin to a query.
#[derive(Debug)]
pub struct PluginResult {
    /// Names the result among those of its plugin.
    pub id: String,
    /// The line that the launcher shows.
    pub title: String,
    /// A second line, where there is one.
    pub subtitle: Option<String>,
    /// How well the result fits the query.
    pub score: u32,
}

/// The second line of the starting point's result for a query.
pub open spec fn searched_for(query: Seq<char>) -> Seq<char> {
    "You searched for: "@ + query
}

/// A starting point for a plugin of one's own.
pub struct MyPlugin {
    id: String,
    name: String,
    description: String,
    enabled: bool,
}

impl Default for MyPlugin {
    /// The plugin `my-plugin`, switched on.
    fn default() -> (plugin: Self)
        ensures
            plugin.id_text() == "my-plugin"@,
            plugin.name_text() == "My Plugin"@,
            plugin.description_text() == "My awesome plugin"@,
            plugin.enabled(),
    {
        MyPlugin {
            id: "my-plugin".to_owned(),
            name: "My Plugin".to_owned(),
            description: "My awesome plugin".to_owned(),
            enabled: true,
        }
    }
}

impl Plugin for MyPlugin {
    fn id(&self) -> (id: &str)
        ensures
            id@ == self.id_text(),
    {
        self.id.as_str()
    }

    fn name(&self) -> (name: &str)
        ensures
            name@ == self.name_text(),
    {
        self.name.as_str()
    }

    fn description(&self) -> (description: &str)
        ensures
            description@ == self.description_text(),
    {
        self.description.as_str()
    }

    fn is_enabled(&self) -> (on: bool)
        ensures
            on == self.enabled(),
    {
        self.enabled
    }
}

impl MyPlugin {
    /// Makes a plugin out of what it is to say of itself.
    pub fn new(id: String, name: String, description: String, enabled: bool) -> (plugin: Self)
        ensures
            plugin.id_text() == id@,
            plugin.name_text() == name@,
            plugin.description_text() == description@,
            plugin.enabled() == enabled,
    {
        MyPlugin { id, name, description, enabled }
    }

    /// The plugin's id.
    pub closed spec fn id_text(&self) -> Seq<char> {
        self.id@
    }

    /// The plugin's display name.
    pub closed spec fn name_text(&self) -> Seq<char> {
        self.name@
    }

    /// The plugin's description.
    pub closed spec fn description_text(&self) -> Seq<char> {
        self.description@
    }

    /// Whether the plugin is switched on.
    pub closed spec fn enabled(&self) -> bool {
        self.enabled
    }

    /// Tells whether the plugin has anything to say to a query: it has to
    /// every query but the empty one.
    pub fn can_handle(&self, query: &str) -> (b: bool)
        ensures
            b == (query@.len() > 0),
    {
        !query.is_empty()
    }

    /// Answers a query with one result, `result-1`, which repeats the
    /// query in its second line and scores 100.
    pub fn match_query(&self, query: &str) -> (results: Vec<PluginResult>)
        ensures
            results@.len() == 1,
            results@[0].id@ == "result-1"@,
            results@[0].title@ == "My Result"@,
            results@[0].subtitle matches Some(line) && line@ == searched_for(query@),
            results@[0].score == 100,
    {
        let mut line = "You searched for: ".to_owned();
        line.append(query);
        let mut results: Vec<PluginResult> = Vec::new();
        results.push(
            PluginResult {
                id: "result-1".to_owned(),
                title: "My Result".to_owned(),
                subtitle: Some(line),
                score: 100,
            },
        );
        results
    }
}

} // verus!
