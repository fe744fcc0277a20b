//! The plugin store: its index, the plugins that ship with the application, and how the
//! remote index and the shipped plugins are merged. Fetching and writing files is the
//! caller's part.
use vstd::prelude::*;
use crate::text::{opt_text, copy_opt_text, texts, copy_texts, concat3, trim, trim_str};

verus! {

/// A plugin listed in the store index.
#[derive(Debug, Clone)]
pub struct StorePluginEntry {
    pub id: String,
    pub name: String,
    pub description: String,
    pub version: String,
    pub author: String,
    /// Empty for a plugin that ships with the application.
    pub download_url: String,
    pub content_types: Vec<String>,
    pub downloads: u64,
}

/// The mathematical value of a `StorePluginEntry`.
pub struct StorePluginEntryView {
    pub id: Seq<char>,
    pub name: Seq<char>,
    pub description: Seq<char>,
    pub version: Seq<char>,
    pub author: Seq<char>,
    pub download_url: Seq<char>,
    pub content_types: Seq<Seq<char>>,
    pub downloads: u64,
}

impl View for StorePluginEntry {
    type V = StorePluginEntryView;

    open spec fn view(&self) -> StorePluginEntryView {
        StorePluginEntryView {
            id: self.id@,
            name: self.name@,
            description: self.description@,
            version: self.version@,
            author: self.author@,
            download_url: self.download_url@,
            content_types: texts(self.content_types@),
            downloads: self.downloads,
        }
    }
}

impl StorePluginEntry {
    /// A copy of this value.
    pub fn duplicate(&self) -> (r: StorePluginEntry)
        ensures
            r@ == self@,
    {
        let r = StorePluginEntry {
            id: self.id.clone(),
            name: self.name.clone(),
            description: self.description.clone(),
            version: self.version.clone(),
            author: self.author.clone(),
            download_url: self.download_url.clone(),
            content_types: copy_texts(&self.content_types),
            downloads: self.downloads,
        };
        r
    }
}

/// A copy of a list of `StorePluginEntry` values.
pub fn copy_store_plugin_entry_list(v: &Vec<StorePluginEntry>) -> (r: Vec<StorePluginEntry>)
    ensures
        r@.len() == v@.len(),
        forall|i: int| 0 <= i < v@.len() ==> (#[trigger] r@[i])@ == v@[i]@,
{
    let mut r: Vec<StorePluginEntry> = Vec::new();
    let mut i: usize = 0;
    while i < v.len()
        invariant
            i <= v@.len(),
            r@.len() == i,
            forall|k: int| 0 <= k < i ==> (#[trigger] r@[k])@ == v@[k]@,
        decreases v@.len() - i,
    {
        r.push(v[i].duplicate());
        i = i + 1;
    }
    r
}

/// The store index.
#[derive(Debug, Clone)]
pub struct StoreIndex {
    pub version: String,
    pub plugins: Vec<StorePluginEntry>,
}

/// The mathematical value of a `StoreIndex`.
pub struct StoreIndexView {
    pub version: Seq<char>,
    pub plugins: Seq<StorePluginEntryView>,
}

impl View for StoreIndex {
    type V = StoreIndexView;

    open spec fn view(&self) -> StoreIndexView {
        StoreIndexView {
            version: self.version@,
            plugins: Seq::new(self.plugins@.len(), |i: int| self.plugins@[i]@),
        }
    }
}

impl StoreIndex {
    /// A copy of this value.
    pub fn duplicate(&self) -> (r: StoreIndex)
        ensures
            r@ == self@,
    {
        let r = StoreIndex {
            version: self.version.clone(),
            plugins: copy_store_plugin_entry_list(&self.plugins),
        };
        assert(r@.plugins =~= self@.plugins);
        r
    }
}

/// The address of the community store index.
pub const DEFAULT_STORE_URL: &'static str = "https://raw.githubusercontent.com/clipbrain/plugin-store/main/index.json";

/// The plugin file of the SQL formatter that ships with the application.
pub const BUILTIN_SQL_FORMAT_TOML: &'static str = r#"
[plugin]
id = "sql_format"
name = "SQL Format"
description = "Format and beautify SQL queries with proper indentation and keyword casing."
version = "1.0.0"
author = "ClipBrain"

[trigger]
content_types = ["PlainText", "Code"]

[action]
system_prompt = "You are an expert SQL formatter. Format the given SQL query with proper indentation, uppercase keywords, and consistent style. Only output the formatted SQL, nothing else."
user_prompt = "{{content}}"
output_type = "code"
max_tokens = 4096
temperature = 0.0
"#;

/// The store entry of the SQL formatter that ships with the application.
pub open spec fn sql_format_entry() -> StorePluginEntryView {
    StorePluginEntryView {
        id: "sql_format"@,
        name: "SQL Format"@,
        description: "Format and beautify SQL queries with proper indentation and keyword casing."@,
        version: "1.0.0"@,
        author: "ClipBrain"@,
        download_url: Seq::empty(),
        content_types: seq!["PlainText"@, "Code"@],
        downloads: 0,
    }
}

/// The plugins that ship with the application, in order.
pub open spec fn builtin_entries() -> Seq<StorePluginEntryView> {
    seq![sql_format_entry()]
}

/// The views of the entries in `v`.
pub open spec fn entry_views(v: Seq<StorePluginEntry>) -> Seq<StorePluginEntryView> {
    Seq::new(v.len(), |i: int| v[i]@)
}

/// The plugins that ship with the application, each with its plugin file.
pub fn builtin_plugins() -> (r: Vec<(StorePluginEntry, &'static str)>)
    ensures
        r@.len() == 1,
        r@[0].0@ == sql_format_entry(),
        r@[0].1@ == BUILTIN_SQL_FORMAT_TOML@,
{
    let mut types: Vec<String> = Vec::new();
    types.push("PlainText".to_owned());
    types.push("Code".to_owned());
    let entry = StorePluginEntry {
        id: "sql_format".to_owned(),
        name: "SQL Format".to_owned(),
        description: "Format and beautify SQL queries with proper indentation and keyword casing.".to_owned(),
        version: "1.0.0".to_owned(),
        author: "ClipBrain".to_owned(),
        download_url: String::new(),
        content_types: types,
        downloads: 0,
    };
    assert(entry@.content_types =~= seq!["PlainText"@, "Code"@]);
    let mut r: Vec<(StorePluginEntry, &'static str)> = Vec::new();
    r.push((entry, BUILTIN_SQL_FORMAT_TOML));
    r
}

/// Whether an entry of `s` has the id `id`.
pub open spec fn has_entry_id(s: Seq<StorePluginEntryView>, id: Seq<char>) -> bool {
    exists|i: int| 0 <= i < s.len() && #[trigger] s[i].id == id
}

/// The position of the first entry of `v` with the id `id`.
fn position_of(v: &Vec<StorePluginEntry>, id: &String) -> (r: Option<usize>)
    ensures
        match r {
            Some(i) => i < v@.len() && v@[i as int].id@ == id@
                && forall|j: int| 0 <= j < i ==> #[trigger] entry_views(v@)[j].id != id@,
            None => !has_entry_id(entry_views(v@), id@),
        },
{
    let n = v.len();
    let mut i: usize = 0;
    while i < n
        invariant
            n == v@.len(),
            i <= n,
            forall|j: int| 0 <= j < i ==> #[trigger] entry_views(v@)[j].id != id@,
        decreases n - i,
    {
        if v[i].id == *id {
            return Some(i);
        }
        i = i + 1;
    }
    None
}

/// Whether `plugin_id` names a plugin that ships with the application.
pub fn is_builtin_plugin(plugin_id: &str) -> (r: bool)
    ensures
        r == has_entry_id(builtin_entries(), plugin_id@),
{
    let builtins = builtin_plugins();
    let mut entries: Vec<StorePluginEntry> = Vec::new();
    entries.push(builtins[0].0.duplicate());
    assert(entry_views(entries@) =~= builtin_entries());
    let id = plugin_id.to_owned();
    let found = position_of(&entries, &id);
    proof {
        if let Some(i) = found {
            assert(entry_views(entries@)[i as int].id == plugin_id@);
        }
    }
    found.is_some()
}

/// The store entry and trimmed plugin file of a plugin that ships with the application;
/// "Builtin plugin '<id>' not found" for any other id.
pub fn builtin_plugin_file(plugin_id: &str) -> (r: Result<(StorePluginEntry, String), String>)
    ensures
        match r {
            Ok((e, file)) => plugin_id@ == "sql_format"@ && e@ == sql_format_entry()
                && file@ == trim(BUILTIN_SQL_FORMAT_TOML@),
            Err(m) => plugin_id@ != "sql_format"@ && m@ == "Builtin plugin '"@ + plugin_id@ + "' not found"@,
        },
{
    let builtins = builtin_plugins();
    let id = plugin_id.to_owned();
    if builtins[0].0.id == id {
        let file = trim_str(builtins[0].1);
        Ok((builtins[0].0.duplicate(), file))
    } else {
        Err(concat3("Builtin plugin '", plugin_id, "' not found"))
    }
}

/// The address of the store index.
pub fn store_url() -> (r: String)
    ensures
        r@ == DEFAULT_STORE_URL@,
{
    DEFAULT_STORE_URL.to_owned()
}

/// The remote entries with the shipped plugins that the remote index lacks put in front,
/// each one before those shipped ahead of it.
pub open spec fn merged_plugins(remote: Seq<StorePluginEntryView>, builtins: Seq<StorePluginEntryView>) -> Seq<StorePluginEntryView>
    decreases builtins.len(),
{
    if builtins.len() == 0 {
        remote
    } else {
        let m = merged_plugins(remote, builtins.drop_last());
        if has_entry_id(remote, builtins.last().id) {
            m
        } else {
            seq![builtins.last()] + m
        }
    }
}

/// The store index: version "1", the remote entries, and in front of them the shipped
/// plugins the remote index does not list.
pub fn merge_store_index(remote: Vec<StorePluginEntry>) -> (r: StoreIndex)
    ensures
        r@.version == "1"@,
        r@.plugins == merged_plugins(entry_views(remote@), builtin_entries()),
{
    let listed = copy_store_plugin_entry_list(&remote);
    let ghost rv = entry_views(remote@);
    assert(entry_views(listed@) =~= rv);
    let builtins = builtin_plugins();
    let mut plugins = remote;
    let n = builtins.len();
    let mut i: usize = 0;
    while i < n
        invariant
            n == builtins@.len(),
            n == 1,
            builtins@[0].0@ == sql_format_entry(),
            entry_views(listed@) == rv,
            i <= n,
            entry_views(plugins@) == merged_plugins(rv, builtin_entries().take(i as int)),
        decreases n - i,
    {
        let ghost b = builtin_entries().take(i as int + 1);
        assert(b.drop_last() == builtin_entries().take(i as int));
        assert(b.last() == builtins@[i as int].0@);
        let found = position_of(&listed, &builtins[i].0.id);
        if found.is_none() {
            let ghost before = plugins@;
            plugins.insert(0, builtins[i].0.duplicate());
            assert(entry_views(plugins@) =~= seq![b.last()] + entry_views(before));
        } else {
            let j = found.unwrap();
            assert(rv[j as int].id == b.last().id);
        }
        i = i + 1;
    }
    assert(builtin_entries().take(1) == builtin_entries());
    StoreIndex { version: "1".to_owned(), plugins }
}

/// The first entry of `v` with the id `id`.
pub open spec fn first_entry_with(v: Seq<StorePluginEntryView>, id: Seq<char>, i: int) -> bool {
    0 <= i < v.len() && v[i].id == id && forall|j: int| 0 <= j < i ==> #[trigger] v[j].id != id
}

/// The entry of the index with id `plugin_id` (the first, if several);
/// "Plugin '<id>' not found in store" when there is none.
pub fn find_store_entry(index: &StoreIndex, plugin_id: &str) -> (r: Result<StorePluginEntry, String>)
    ensures
        match r {
            Ok(e) => exists|i: int| first_entry_with(index@.plugins, plugin_id@, i) && #[trigger] index@.plugins[i] == e@,
            Err(m) => !has_entry_id(index@.plugins, plugin_id@) && m@ == "Plugin '"@ + plugin_id@ + "' not found in store"@,
        },
{
    let id = plugin_id.to_owned();
    assert(entry_views(index.plugins@) =~= index@.plugins);
    match position_of(&index.plugins, &id) {
        Some(i) => {
            let e = index.plugins[i].duplicate();
            assert(first_entry_with(index@.plugins, plugin_id@, i as int));
            Ok(e)
        },
        None => Err(concat3("Plugin '", plugin_id, "' not found in store")),
    }
}

/// What uninstalling a plugin removes.
pub enum UninstallTarget {
    /// The plugin's directory.
    Directory,
    /// The plugin's `<id>.toml` file.
    File,
}

/// What to remove for `plugin_id`: its directory when there is one, else its file when there
/// is one; "Plugin '<id>' not found" otherwise.
pub fn uninstall_target(plugin_id: &str, is_directory: bool, file_exists: bool) -> (r: Result<UninstallTarget, String>)
    ensures
        match r {
            Ok(UninstallTarget::Directory) => is_directory,
            Ok(UninstallTarget::File) => !is_directory && file_exists,
            Err(m) => !is_directory && !file_exists && m@ == "Plugin '"@ + plugin_id@ + "' not found"@,
        },
{
    if is_directory {
        Ok(UninstallTarget::Directory)
    } else if file_exists {
        Ok(UninstallTarget::File)
    } else {
        Err(concat3("Plugin '", plugin_id, "' not found"))
    }
}

/// Every shipped plugin is listed in the merged index, whether or not the remote index
/// lists it.
pub proof fn law_builtins_listed(remote: Seq<StorePluginEntryView>, builtins: Seq<StorePluginEntryView>)
    ensures
        forall|i: int| 0 <= i < builtins.len() ==> has_entry_id(merged_plugins(remote, builtins), #[trigger] builtins[i].id),
        forall|i: int| 0 <= i < remote.len() ==> has_entry_id(merged_plugins(remote, builtins), #[trigger] remote[i].id),
    decreases builtins.len(),
{
    if builtins.len() > 0 {
        let prev = builtins.drop_last();
        law_builtins_listed(remote, prev);
        let m = merged_plugins(remote, prev);
        let b = builtins.last();
        let merged = merged_plugins(remote, builtins);
        // Whatever `m` lists, `merged` lists too.
        assert forall|id: Seq<char>| has_entry_id(m, id) implies has_entry_id(merged, id) by {
            let k = choose|k: int| 0 <= k < m.len() && #[trigger] m[k].id == id;
            if !has_entry_id(remote, b.id) {
                assert(merged[k + 1] == m[k]);
            }
        }
        assert forall|i: int| 0 <= i < builtins.len() implies has_entry_id(merged, #[trigger] builtins[i].id) by {
            if i < prev.len() {
                assert(prev[i] == builtins[i]);
                assert(has_entry_id(m, prev[i].id));
            } else if has_entry_id(remote, b.id) {
                let k = choose|k: int| 0 <= k < remote.len() && #[trigger] remote[k].id == b.id;
                assert(has_entry_id(m, remote[k].id));
            } else {
                assert(merged[0] == b);
            }
        }
        assert forall|i: int| 0 <= i < remote.len() implies has_entry_id(merged, #[trigger] remote[i].id) by {
            assert(has_entry_id(m, remote[i].id));
        }
    } else {
        assert forall|i: int| 0 <= i < remote.len() implies has_entry_id(merged_plugins(remote, builtins), #[trigger] remote[i].id) by {
            assert(merged_plugins(remote, builtins)[i] == remote[i]);
        }
    }
}

} // verus!
