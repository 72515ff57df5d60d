//! What a plugin may ask of the host: its directories, the files it may
//! keep in them, and the rules that keep it inside them.
//!
//! The library decides and the caller acts. Every function here turns
//! strings that a plugin supplied into an error or into a path below one of
//! the host's roots; the caller creates, reads and writes what the path
//! names.

use crate::config::{decode_config, is_empty_document};
use crate::ident::{
    all_id_chars, cache_key_rejection, classify_cache_key, classify_config_name,
    classify_plugin_id, config_name_rejection, has_separator, is_dot_name,
    law_plugin_id_accepts_alphabet, plugin_id_rejection, Rejection, MAX_PLUGIN_ID_LEN,
};
use crate::paths::{
    is_within, law_cache_key_stays_inside, law_config_file_stays_inside,
    law_plugin_id_stays_inside, law_within_is_transitive, names, path_is_within, resolve,
};
use vstd::prelude::*;

verus! {

/// What a rejected plugin id is reported as.
pub open spec fn plugin_id_message(why: Rejection) -> Seq<char> {
    match why {
        Rejection::Empty => "Plugin ID cannot be empty"@,
        Rejection::TooLong => "Plugin ID too long (max 64 characters)"@,
        Rejection::Traversal => "Plugin ID cannot be '.' or '..'"@,
        Rejection::Separator => "Plugin ID cannot contain path separators"@,
        _ => "Plugin ID can only contain letters, numbers, hyphens, and underscores"@,
    }
}

/// What a rejected cache key is reported as.
pub open spec fn cache_key_message(why: Rejection) -> Seq<char> {
    match why {
        Rejection::Empty => "Cache key cannot be empty"@,
        Rejection::TooLong => "Cache key too long (max 255 characters)"@,
        Rejection::AbsolutePath => "Cache key cannot be an absolute path"@,
        Rejection::Traversal => "Cache key cannot contain path traversal components"@,
        _ => "Cache key cannot contain path separators"@,
    }
}

/// What a rejected configuration name is reported as.
pub open spec fn config_name_message(why: Rejection) -> Seq<char> {
    match why {
        Rejection::Empty => "Config name cannot be empty"@,
        Rejection::TooLong => "Config name too long (max 255 characters)"@,
        Rejection::AbsolutePath => "Config name cannot be an absolute path"@,
        Rejection::Traversal => "Config name cannot contain path traversal components"@,
        Rejection::Separator => "Config name cannot contain path separators"@,
        Rejection::DotEdge => "Config name cannot start or end with a dot"@,
        Rejection::InvalidChar =>
            "Config name can only contain letters, numbers, hyphens, underscores, and dots"@,
    }
}

/// What checking a plugin id gives: nothing, or the report of the first
/// rule that it breaks.
pub open spec fn plugin_id_verdict(s: Seq<char>) -> Result<(), Seq<char>> {
    match plugin_id_rejection(s) {
        None => Ok(()),
        Some(why) => Err(plugin_id_message(why)),
    }
}

/// What checking a cache key gives.
pub open spec fn cache_key_verdict(s: Seq<char>) -> Result<(), Seq<char>> {
    match cache_key_rejection(s) {
        None => Ok(()),
        Some(why) => Err(cache_key_message(why)),
    }
}

/// What checking a configuration name gives.
pub open spec fn config_name_verdict(s: Seq<char>) -> Result<(), Seq<char>> {
    match config_name_rejection(s) {
        None => Ok(()),
        Some(why) => Err(config_name_message(why)),
    }
}

/// A result as contracts speak of it: a path by its names, an error by its
/// text.
pub open spec fn path_view_of(r: Result<Vec<String>, String>) -> Result<Seq<Seq<char>>, Seq<char>> {
    match r {
        Ok(path) => Ok(names(path@)),
        Err(message) => Err(message@),
    }
}

/// A check's result as contracts speak of it.
pub open spec fn verdict_view_of(r: Result<(), String>) -> Result<(), Seq<char>> {
    match r {
        Ok(()) => Ok(()),
        Err(message) => Err(message@),
    }
}

/// The three roots that the host keeps for its plugins.
#[derive(Clone, Copy, Debug, PartialEq, Eq, Structural)]
pub enum RootKind {
    /// Data that a plugin keeps for good.
    Data,
    /// Data that a plugin can make again.
    Cache,
    /// A plugin's settings.
    Config,
}

/// The host's side of the plugin interface.
#[derive(Clone)]
pub struct VoltPluginAPI {
    app_data_dir: String,
}

impl View for VoltPluginAPI {
    type V = Seq<char>;

    /// The application data directory, as the host gave it.
    closed spec fn view(&self) -> Seq<char> {
        self.app_data_dir@
    }
}

impl VoltPluginAPI {
    /// The root of one kind: the application data directory itself for
    /// data, its entries `cache` and `config` for the other two.
    pub open spec fn root(&self, kind: RootKind) -> Seq<Seq<char>> {
        match kind {
            RootKind::Data => seq![self@],
            RootKind::Cache => seq![self@, "cache"@],
            RootKind::Config => seq![self@, "config"@],
        }
    }

    /// The directory of plugin `id` under the root of one kind.
    pub open spec fn dir_of(&self, kind: RootKind, id: Seq<char>) -> Seq<Seq<char>> {
        self.root(kind).push("plugins"@).push(id)
    }

    /// What asking for a plugin's directory gives: the id is checked, then
    /// the directory is named.
    pub open spec fn dir_outcome(&self, kind: RootKind, id: Seq<char>) -> Result<
        Seq<Seq<char>>,
        Seq<char>,
    > {
        match plugin_id_verdict(id) {
            Err(message) => Err(message),
            Ok(()) => Ok(self.dir_of(kind, id)),
        }
    }

    /// What asking for a cache entry's path gives: the key is checked
    /// first, then the plugin id, then the entry is named.
    pub open spec fn cache_path_outcome(&self, id: Seq<char>, key: Seq<char>) -> Result<
        Seq<Seq<char>>,
        Seq<char>,
    > {
        match cache_key_verdict(key) {
            Err(message) => Err(message),
            Ok(()) => match self.dir_outcome(RootKind::Cache, id) {
                Err(message) => Err(message),
                Ok(dir) => Ok(dir.push(key)),
            },
        }
    }

    /// What asking for a configuration file's path gives: the name is
    /// checked first, then the plugin id, then the file `<name>.json` is
    /// named.
    pub open spec fn config_path_outcome(&self, id: Seq<char>, name: Seq<char>) -> Result<
        Seq<Seq<char>>,
        Seq<char>,
    > {
        match config_name_verdict(name) {
            Err(message) => Err(message),
            Ok(()) => match self.dir_outcome(RootKind::Config, id) {
                Err(message) => Err(message),
                Ok(dir) => Ok(dir.push(name + ".json"@)),
            },
        }
    }

    /// Creates the interface for a host whose data lives in `app_data_dir`.
    pub fn new(app_data_dir: String) -> (api: Self)
        ensures
            api@ == app_data_dir@,
    {
        VoltPluginAPI { app_data_dir }
    }

    /// Checks a plugin id: `Ok` for 1 to 64 characters out of ASCII
    /// letters, digits, `-` and `_`, else the first rule that it breaks.
    pub fn validate_plugin_id(plugin_id: &str) -> (r: Result<(), String>)
        ensures
            verdict_view_of(r) == plugin_id_verdict(plugin_id@),
            has_separator(plugin_id@) || is_dot_name(plugin_id@) ==> r is Err,
            1 <= plugin_id@.len() <= MAX_PLUGIN_ID_LEN && all_id_chars(plugin_id@) ==> r is Ok,
    {
        proof {
            if 1 <= plugin_id@.len() <= MAX_PLUGIN_ID_LEN && all_id_chars(plugin_id@) {
                law_plugin_id_accepts_alphabet(plugin_id@);
            }
        }
        match classify_plugin_id(plugin_id) {
            None => Ok(()),
            Some(Rejection::Empty) => Err("Plugin ID cannot be empty".to_owned()),
            Some(Rejection::TooLong) => Err("Plugin ID too long (max 64 characters)".to_owned()),
            Some(Rejection::Traversal) => Err("Plugin ID cannot be '.' or '..'".to_owned()),
            Some(Rejection::Separator) => Err(
                "Plugin ID cannot contain path separators".to_owned(),
            ),
            Some(_) => Err(
                "Plugin ID can only contain letters, numbers, hyphens, and underscores".to_owned(),
            ),
        }
    }

    /// Checks a cache key: `Ok` for 1 to 255 characters that form a single
    /// file name, else the first rule that it breaks.
    pub fn validate_cache_key(cache_key: &str) -> (r: Result<(), String>)
        ensures
            verdict_view_of(r) == cache_key_verdict(cache_key@),
    {
        match classify_cache_key(cache_key) {
            None => Ok(()),
            Some(Rejection::Empty) => Err("Cache key cannot be empty".to_owned()),
            Some(Rejection::TooLong) => Err("Cache key too long (max 255 characters)".to_owned()),
            Some(Rejection::AbsolutePath) => Err(
                "Cache key cannot be an absolute path".to_owned(),
            ),
            Some(Rejection::Traversal) => Err(
                "Cache key cannot contain path traversal components".to_owned(),
            ),
            Some(_) => Err("Cache key cannot contain path separators".to_owned()),
        }
    }

    /// Checks a configuration name: `Ok` for 1 to 255 characters out of
    /// ASCII letters, digits, `-`, `_` and `.`, with no dot at either end,
    /// else the first rule that it breaks.
    pub fn validate_config_name(config_name: &str) -> (r: Result<(), String>)
        ensures
            verdict_view_of(r) == config_name_verdict(config_name@),
    {
        match classify_config_name(config_name) {
            None => Ok(()),
            Some(Rejection::Empty) => Err("Config name cannot be empty".to_owned()),
            Some(Rejection::TooLong) => Err(
                "Config name too long (max 255 characters)".to_owned(),
            ),
            Some(Rejection::AbsolutePath) => Err(
                "Config name cannot be an absolute path".to_owned(),
            ),
            Some(Rejection::Traversal) => Err(
                "Config name cannot contain path traversal components".to_owned(),
            ),
            Some(Rejection::Separator) => Err(
                "Config name cannot contain path separators".to_owned(),
            ),
            Some(Rejection::DotEdge) => Err(
                "Config name cannot start or end with a dot".to_owned(),
            ),
            Some(Rejection::InvalidChar) => Err(
                "Config name can only contain letters, numbers, hyphens, underscores, and dots".to_owned(),
            ),
        }
    }

    /// Names the directory of a plugin under the root of one kind, or
    /// reports why the id is no plugin id. The directory is not touched:
    /// the caller creates it where it is missing.
    pub fn plugin_dir(&self, kind: RootKind, plugin_id: &str) -> (r: Result<Vec<String>, String>)
        ensures
            path_view_of(r) == self.dir_outcome(kind, plugin_id@),
    {
        match Self::validate_plugin_id(plugin_id) {
            Err(message) => Err(message),
            Ok(()) => {
                let mut path: Vec<String> = Vec::new();
                path.push(self.app_data_dir.clone());
                match kind {
                    RootKind::Data => {},
                    RootKind::Cache => path.push("cache".to_owned()),
                    RootKind::Config => path.push("config".to_owned()),
                }
                path.push("plugins".to_owned());
                path.push(plugin_id.to_owned());
                assert(names(path@) =~= self.dir_of(kind, plugin_id@));
                Ok(path)
            },
        }
    }

    /// Names the plugin's data directory, `<app data>/plugins/<id>`.
    pub fn get_plugin_data_dir(&self, plugin_id: &str) -> (r: Result<Vec<String>, String>)
        ensures
            path_view_of(r) == self.dir_outcome(RootKind::Data, plugin_id@),
    {
        self.plugin_dir(RootKind::Data, plugin_id)
    }

    /// Names the plugin's cache directory, `<app data>/cache/plugins/<id>`.
    pub fn get_plugin_cache_dir(&self, plugin_id: &str) -> (r: Result<Vec<String>, String>)
        ensures
            path_view_of(r) == self.dir_outcome(RootKind::Cache, plugin_id@),
    {
        self.plugin_dir(RootKind::Cache, plugin_id)
    }

    /// Names the plugin's configuration directory,
    /// `<app data>/config/plugins/<id>`.
    pub fn get_plugin_config_dir(&self, plugin_id: &str) -> (r: Result<Vec<String>, String>)
        ensures
            path_view_of(r) == self.dir_outcome(RootKind::Config, plugin_id@),
    {
        self.plugin_dir(RootKind::Config, plugin_id)
    }

    /// Names the file of a cache entry, directly inside the plugin's cache
    /// directory, or reports what is wrong with the key or with the id.
    pub fn cache_path(&self, plugin_id: &str, cache_key: &str) -> (r: Result<Vec<String>, String>)
        ensures
            path_view_of(r) == self.cache_path_outcome(plugin_id@, cache_key@),
            r matches Ok(path) ==> names(path@) == resolve(
                self.dir_of(RootKind::Cache, plugin_id@),
                cache_key@,
            ) && is_within(names(path@), self.dir_of(RootKind::Cache, plugin_id@)),
    {
        proof {
            if self.cache_path_outcome(plugin_id@, cache_key@) is Ok {
                law_cache_key_stays_inside(self.dir_of(RootKind::Cache, plugin_id@), cache_key@);
            }
        }
        match Self::validate_cache_key(cache_key) {
            Err(message) => Err(message),
            Ok(()) => match self.plugin_dir(RootKind::Cache, plugin_id) {
                Err(message) => Err(message),
                Ok(dir) => {
                    let mut path = dir;
                    path.push(cache_key.to_owned());
                    assert(names(path@) =~= names(dir@).push(cache_key@));
                    Ok(path)
                },
            },
        }
    }

    /// Names the file of a configuration, `<name>.json` directly inside
    /// the plugin's configuration directory, or reports what is wrong with
    /// the name or with the id.
    pub fn config_path(&self, plugin_id: &str, config_name: &str) -> (r: Result<
        Vec<String>,
        String,
    >)
        ensures
            path_view_of(r) == self.config_path_outcome(plugin_id@, config_name@),
            r matches Ok(path) ==> names(path@) == resolve(
                self.dir_of(RootKind::Config, plugin_id@),
                config_name@ + ".json"@,
            ) && is_within(names(path@), self.dir_of(RootKind::Config, plugin_id@)),
    {
        proof {
            if self.config_path_outcome(plugin_id@, config_name@) is Ok {
                law_config_file_stays_inside(
                    self.dir_of(RootKind::Config, plugin_id@),
                    config_name@,
                );
            }
        }
        match Self::validate_config_name(config_name) {
            Err(message) => Err(message),
            Ok(()) => match self.plugin_dir(RootKind::Config, plugin_id) {
                Err(message) => Err(message),
                Ok(dir) => {
                    let mut path = dir;
                    let mut file = config_name.to_owned();
                    file.append(".json");
                    path.push(file);
                    assert(names(path@) =~= names(dir@).push(config_name@ + ".json"@));
                    Ok(path)
                },
            },
        }
    }

    /// Takes search results from a plugin. Nothing is done with them.
    pub fn add_search_results(&self, _results: Vec<serde_json::Value>) -> (r: Result<(), String>)
        ensures
            r is Ok,
    {
        Ok(())
    }

    /// The version of the host application.
    pub fn get_volt_version(&self) -> (version: &str)
        ensures
            version@ == APP_VERSION@,
    {
        APP_VERSION
    }

    /// The application data directory, as the host gave it.
    pub fn get_app_data_dir(&self) -> (r: Result<String, String>)
        ensures
            r matches Ok(dir) && dir@ == self@,
    {
        Ok(self.app_data_dir.clone())
    }
}

/// A plugin's directory is where following `plugins` and then the id leads
/// from the root, two levels below it.
pub proof fn law_plugin_dir_stays_inside(api: VoltPluginAPI, kind: RootKind, id: Seq<char>)
    requires
        plugin_id_rejection(id) is None,
    ensures
        api.dir_outcome(kind, id) == Ok::<Seq<Seq<char>>, Seq<char>>(
            resolve(api.root(kind).push("plugins"@), id),
        ),
        is_within(api.dir_of(kind, id), api.root(kind)),
{
    let plugins = api.root(kind).push("plugins"@);
    law_plugin_id_stays_inside(plugins, id);
    assert(plugins.subrange(0, api.root(kind).len() as int) =~= api.root(kind));
    law_within_is_transitive(api.dir_of(kind, id), plugins, api.root(kind));
}

/// Whatever a plugin passes as a cache key, the entry that is named for it
/// is where joining the key onto the plugin's cache directory leads, and
/// that is inside the directory and inside the cache root.
pub proof fn law_cache_path_stays_inside(api: VoltPluginAPI, id: Seq<char>, key: Seq<char>)
    requires
        api.cache_path_outcome(id, key) is Ok,
    ensures
        api.cache_path_outcome(id, key)->Ok_0 == resolve(api.dir_of(RootKind::Cache, id), key),
        is_within(api.cache_path_outcome(id, key)->Ok_0, api.dir_of(RootKind::Cache, id)),
        is_within(api.cache_path_outcome(id, key)->Ok_0, api.root(RootKind::Cache)),
{
    let dir = api.dir_of(RootKind::Cache, id);
    law_cache_key_stays_inside(dir, key);
    law_plugin_dir_stays_inside(api, RootKind::Cache, id);
    law_within_is_transitive(dir.push(key), dir, api.root(RootKind::Cache));
}

/// The file that is named for a configuration lies inside the plugin's
/// configuration directory and inside the configuration root.
pub proof fn law_config_path_stays_inside(api: VoltPluginAPI, id: Seq<char>, name: Seq<char>)
    requires
        api.config_path_outcome(id, name) is Ok,
    ensures
        api.config_path_outcome(id, name)->Ok_0 == resolve(
            api.dir_of(RootKind::Config, id),
            name + ".json"@,
        ),
        is_within(api.config_path_outcome(id, name)->Ok_0, api.dir_of(RootKind::Config, id)),
        is_within(api.config_path_outcome(id, name)->Ok_0, api.root(RootKind::Config)),
{
    let dir = api.dir_of(RootKind::Config, id);
    law_config_file_stays_inside(dir, name);
    law_plugin_dir_stays_inside(api, RootKind::Config, id);
    law_within_is_transitive(dir.push(name + ".json"@), dir, api.root(RootKind::Config));
}

/// Nothing is created, read or written for a string that fails its check:
/// a path is named only where the id and the key or name both pass.
pub proof fn law_no_path_without_check(api: VoltPluginAPI, id: Seq<char>, name: Seq<char>)
    ensures
        api.dir_outcome(RootKind::Data, id) is Ok <==> plugin_id_rejection(id) is None,
        api.cache_path_outcome(id, name) is Ok <==> (cache_key_rejection(name) is None
            && plugin_id_rejection(id) is None),
        api.config_path_outcome(id, name) is Ok <==> (config_name_rejection(name) is None
            && plugin_id_rejection(id) is None),
{
}

/// The version that the host reports to its plugins.
pub const APP_VERSION: &'static str = "0.1.0";

/// What is reported when a cache entry that was asked for does not exist.
pub open spec fn not_found_message() -> Seq<char> {
    "Cache entry not found"@
}

/// What is reported when a cache path leads out of the plugin's directory.
pub open spec fn outside_message() -> Seq<char> {
    "Cache path is outside plugin cache directory"@
}

/// What confining a read gives. `target` is the real place of the entry,
/// with every link followed, or `None` where the entry does not exist;
/// `directory` is the real place of the plugin's cache directory.
pub open spec fn read_verdict(target: Option<Seq<Seq<char>>>, directory: Seq<Seq<char>>) -> Result<
    (),
    Seq<char>,
> {
    match target {
        None => Err(not_found_message()),
        Some(place) => if is_within(place, directory) {
            Ok(())
        } else {
            Err(outside_message())
        },
    }
}

/// What is reported when a configuration path leads out of the plugin's
/// directory.
pub open spec fn config_outside_message() -> Seq<char> {
    "Config path is outside plugin config directory"@
}

/// The place that a write is held to: the real place of the entry, with
/// every link followed, where there is an entry already; else the real
/// place of the directory that the new entry goes into.
pub open spec fn write_place(target: Option<Seq<Seq<char>>>, parent: Seq<Seq<char>>) -> Seq<
    Seq<char>,
> {
    match target {
        Some(place) => place,
        None => parent,
    }
}

/// What confining a write to the cache gives. `target` is the real place
/// of the entry, or `None` where no entry exists yet; `parent` is the real
/// place of the directory that the entry is written into; `directory` is
/// the real place of the plugin's cache directory.
pub open spec fn write_verdict(
    target: Option<Seq<Seq<char>>>,
    parent: Seq<Seq<char>>,
    directory: Seq<Seq<char>>,
) -> Result<(), Seq<char>> {
    if is_within(write_place(target, parent), directory) {
        Ok(())
    } else {
        Err(outside_message())
    }
}

/// What confining the save of a configuration gives, with the places as
/// for a write to the cache and the plugin's configuration directory as
/// `directory`.
pub open spec fn config_save_verdict(
    target: Option<Seq<Seq<char>>>,
    parent: Seq<Seq<char>>,
    directory: Seq<Seq<char>>,
) -> Result<(), Seq<char>> {
    if is_within(write_place(target, parent), directory) {
        Ok(())
    } else {
        Err(config_outside_message())
    }
}

/// A place that was handed in, as contracts speak of it.
pub open spec fn place_view_of(place: Option<&Vec<String>>) -> Option<Seq<Seq<char>>> {
    match place {
        Some(path) => Some(names(path@)),
        None => None,
    }
}

/// Decides whether a cache entry may be read. An entry that does not
/// exist is reported as not found; one whose real place is not within the
/// real place of the plugin's cache directory is reported as outside it;
/// any other may be read.
pub fn confine_read(target: Option<&Vec<String>>, directory: &Vec<String>) -> (r: Result<
    (),
    String,
>)
    ensures
        verdict_view_of(r) == read_verdict(place_view_of(target), names(directory@)),
{
    match target {
        None => Err("Cache entry not found".to_owned()),
        Some(place) => {
            if path_is_within(place, directory) {
                Ok(())
            } else {
                Err("Cache path is outside plugin cache directory".to_owned())
            }
        },
    }
}

/// Tells whether a write stays inside `directory`: the entry's real place
/// is looked at where there is an entry, the parent's where there is none.
fn write_stays_within(
    target: Option<&Vec<String>>,
    parent: &Vec<String>,
    directory: &Vec<String>,
) -> (b: bool)
    ensures
        b == is_within(write_place(place_view_of(target), names(parent@)), names(directory@)),
{
    match target {
        Some(place) => path_is_within(place, directory),
        None => path_is_within(parent, directory),
    }
}

/// Decides whether a cache entry may be written. Where an entry exists
/// already, be it a file or a link, its real place is held against the real
/// place of the plugin's cache directory, so that a link that leads outside
/// is not written through. Where none exists yet, the real place of the
/// directory that it goes into is held against it instead.
pub fn confine_write(
    target: Option<&Vec<String>>,
    parent: &Vec<String>,
    directory: &Vec<String>,
) -> (r: Result<(), String>)
    ensures
        verdict_view_of(r) == write_verdict(
            place_view_of(target),
            names(parent@),
            names(directory@),
        ),
{
    if write_stays_within(target, parent, directory) {
        Ok(())
    } else {
        Err("Cache path is outside plugin cache directory".to_owned())
    }
}

/// How the loading of a configuration goes on once its file was looked
/// for.
pub enum ConfigLoad {
    /// There is no file yet: the document is the empty one, and the load
    /// is done.
    Empty(serde_json::Value),
    /// The file lies inside the plugin's configuration directory: it is
    /// to be read, and its content decoded.
    ReadFile,
}

/// Decides how a configuration is loaded. `target` is the real place of
/// the configuration's file, with every link followed, or `None` where
/// there is no file; `directory` is the real place of the plugin's
/// configuration directory. No file gives the empty document; a file
/// inside the directory is to be read; a file whose real place is outside
/// it is reported, and nothing of it is read.
pub fn confine_config_load(target: Option<&Vec<String>>, directory: &Vec<String>) -> (r: Result<
    ConfigLoad,
    String,
>)
    ensures
        match target {
            None => r matches Ok(ConfigLoad::Empty(doc)) && is_empty_document(doc),
            Some(place) => if is_within(names(place@), names(directory@)) {
                r matches Ok(ConfigLoad::ReadFile)
            } else {
                r matches Err(message) && message@ == config_outside_message()
            },
        },
{
    match target {
        None => match decode_config(None) {
            Ok(doc) => Ok(ConfigLoad::Empty(doc)),
            Err(message) => Err(message),
        },
        Some(place) => {
            if path_is_within(place, directory) {
                Ok(ConfigLoad::ReadFile)
            } else {
                Err("Config path is outside plugin config directory".to_owned())
            }
        },
    }
}

/// Decides whether a configuration may be saved, as a write to the cache
/// is decided: by the real place of the file where there is one already,
/// by that of the directory it goes into where there is none.
pub fn confine_config_save(
    target: Option<&Vec<String>>,
    parent: &Vec<String>,
    directory: &Vec<String>,
) -> (r: Result<(), String>)
    ensures
        verdict_view_of(r) == config_save_verdict(
            place_view_of(target),
            names(parent@),
            names(directory@),
        ),
{
    if write_stays_within(target, parent, directory) {
        Ok(())
    } else {
        Err("Config path is outside plugin config directory".to_owned())
    }
}

/// Whatever is written after the decision passed lies inside the plugin's
/// directory: an entry that exists does by its real place, and one that is
/// new does because it is made directly in a directory that lies inside.
pub proof fn law_passed_write_stays_inside(
    target: Option<Seq<Seq<char>>>,
    parent: Seq<Seq<char>>,
    directory: Seq<Seq<char>>,
    name: Seq<char>,
)
    requires
        write_verdict(target, parent, directory) is Ok || config_save_verdict(
            target,
            parent,
            directory,
        ) is Ok,
    ensures
        target matches Some(place) ==> is_within(place, directory),
        target is None ==> is_within(parent.push(name), directory),
{
    if target is None {
        assert(parent.push(name).subrange(0, parent.len() as int) =~= parent);
        law_within_is_transitive(parent.push(name), parent, directory);
    }
}

/// An entry that exists as a link to a place outside the plugin's
/// directory is never written through, wherever the link itself stands.
pub proof fn law_link_outside_is_refused(
    place: Seq<Seq<char>>,
    parent: Seq<Seq<char>>,
    directory: Seq<Seq<char>>,
)
    requires
        !is_within(place, directory),
    ensures
        write_verdict(Some(place), parent, directory) == Err::<(), Seq<char>>(outside_message()),
        config_save_verdict(Some(place), parent, directory) == Err::<(), Seq<char>>(
            config_outside_message(),
        ),
        read_verdict(Some(place), directory) == Err::<(), Seq<char>>(outside_message()),
{
}

/// How grave a plugin's log line is.
#[derive(Debug, Clone, Copy, PartialEq, Eq, Structural)]
pub enum LogLevel {
    /// Informational messages
    Info,
    /// Warning messages
    Warn,
    /// Error messages
    Error,
    /// Debug messages
    Debug,
}

impl LogLevel {
    /// The word that marks a line of this level.
    pub open spec fn label_text(self) -> Seq<char> {
        match self {
            LogLevel::Info => "INFO"@,
            LogLevel::Warn => "WARN"@,
            LogLevel::Error => "ERROR"@,
            LogLevel::Debug => "DEBUG"@,
        }
    }

    /// The word that marks a line of this level.
    pub fn label(&self) -> (word: &str)
        ensures
            word@ == self.label_text(),
    {
        match self {
            LogLevel::Info => "INFO",
            LogLevel::Warn => "WARN",
            LogLevel::Error => "ERROR",
            LogLevel::Debug => "DEBUG",
        }
    }

    /// Errors go to the error stream, every other level to standard output.
    pub fn to_error_stream(&self) -> (b: bool)
        ensures
            b == (*self == LogLevel::Error),
    {
        match self {
            LogLevel::Error => true,
            _ => false,
        }
    }
}

/// A log line: the plugin id in square brackets, the level's word, a colon
/// and the message.
pub open spec fn log_line_text(plugin_id: Seq<char>, level: LogLevel, message: Seq<char>) -> Seq<
    char,
> {
    "["@ + plugin_id + "] "@ + level.label_text() + ": "@ + message
}

/// Writes out the line that logs `message` for a plugin.
pub fn log_line(plugin_id: &str, level: LogLevel, message: &str) -> (line: String)
    ensures
        line@ == log_line_text(plugin_id@, level, message@),
{
    let mut line = "[".to_owned();
    line.append(plugin_id);
    line.append("] ");
    line.append(level.label());
    line.append(": ");
    line.append(message);
    line
}

/// What a plugin may ask to be allowed.
#[derive(Debug, Clone, Copy, PartialEq, Eq, Structural)]
pub enum PluginCapability {
    /// Access to file system
    FileSystem,
    /// Network access
    Network,
    /// Access to system information
    SystemInfo,
    /// Ability to execute commands
    ExecuteCommands,
    /// Access to user's application data
    ApplicationData,
    /// Modify search results
    ModifySearch,
}

impl PluginCapability {
    /// What the user is told that the capability allows.
    pub open spec fn description_text(self) -> Seq<char> {
        match self {
            PluginCapability::FileSystem => "Read and write files on your computer"@,
            PluginCapability::Network => "Access the internet and make network requests"@,
            PluginCapability::SystemInfo => "Read system information (CPU, memory, etc.)"@,
            PluginCapability::ExecuteCommands => "Execute programs and commands"@,
            PluginCapability::ApplicationData => "Access your application data and history"@,
            PluginCapability::ModifySearch => "Modify and add to search results"@,
        }
    }

    /// The capabilities that reach the user's files, network, programs or
    /// history.
    pub open spec fn sensitive(self) -> bool {
        self == PluginCapability::FileSystem || self == PluginCapability::Network || self
            == PluginCapability::ExecuteCommands || self == PluginCapability::ApplicationData
    }

    /// What the user is told that the capability allows.
    pub fn description(&self) -> (text: &str)
        ensures
            text@ == self.description_text(),
    {
        match self {
            PluginCapability::FileSystem => "Read and write files on your computer",
            PluginCapability::Network => "Access the internet and make network requests",
            PluginCapability::SystemInfo => "Read system information (CPU, memory, etc.)",
            PluginCapability::ExecuteCommands => "Execute programs and commands",
            PluginCapability::ApplicationData => "Access your application data and history",
            PluginCapability::ModifySearch => "Modify and add to search results",
        }
    }

    /// Tells whether the capability is a sensitive one.
    pub fn is_sensitive(&self) -> (b: bool)
        ensures
            b == self.sensitive(),
    {
        match self {
            PluginCapability::FileSystem
            | PluginCapability::Network
            | PluginCapability::ExecuteCommands
            | PluginCapability::ApplicationData => true,
            _ => false,
        }
    }
}

} // verus!
