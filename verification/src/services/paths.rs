//! Where the manager keeps its files.
//!
//! Every location is derived from the directories that the platform reports,
//! which the caller looks up once and hands in. Paths are text; segments are
//! joined with `/`.

use crate::domain::module::{forbidden_in_part, valid_parts, ModuleUuid};
use crate::text::{chars_of, starts_with, string_of};
use vstd::prelude::*;

verus! {

/// The directories that the platform reports for the current user. Each may
/// be unknown.
#[derive(Debug, Clone)]
pub struct PlatformDirs {
    pub home: Option<String>,
    pub data: Option<String>,
    pub config: Option<String>,
    pub cache: Option<String>,
}

/// `segment` starts at the root.
pub open spec fn is_rooted(segment: Seq<char>) -> bool {
    segment.len() > 0 && segment[0] == '/'
}

/// `base` and `segment` as one path. A segment that starts at the root
/// stands for itself; any other is put after `base`, with a `/` between them
/// unless `base` is empty or ends with one.
pub open spec fn joined(base: Seq<char>, segment: Seq<char>) -> Seq<char> {
    if is_rooted(segment) {
        segment
    } else if base.len() == 0 || base.last() == '/' {
        base + segment
    } else {
        base + seq!['/'] + segment
    }
}

/// A path joined from a base and a segment that does not start at the root
/// begins with the base and ends with the segment.
pub proof fn lemma_joined_starts_with_base(base: Seq<char>, segment: Seq<char>)
    requires
        !is_rooted(segment),
    ensures
        starts_with(joined(base, segment), base),
        crate::text::ends_with(joined(base, segment), segment),
{
    let path = joined(base, segment);
    assert(path.subrange(0, base.len() as int) =~= base);
    assert(path.subrange(path.len() - segment.len(), path.len() as int) =~= segment);
}

/// Joins `segment` to `base`.
pub fn join(base: &str, segment: &str) -> (path: String)
    ensures
        path@ == joined(base@, segment@),
{
    let tail = chars_of(segment);
    if tail.len() > 0 && tail[0] == '/' {
        return segment.to_owned();
    }
    let mut path = chars_of(base);
    let len = path.len();
    if len > 0 && path[len - 1] != '/' {
        path.push('/');
    }
    crate::text::push_chars(&mut path, tail.as_slice());
    assert(path@ =~= joined(base@, segment@));
    string_of(path.as_slice())
}

/// The name of the manager's own directories.
pub open spec fn app_name() -> Seq<char> {
    "waybar-manager"@
}

impl PlatformDirs {
    /// The home directory, or `.` where it is unknown.
    pub open spec fn spec_home(&self) -> Seq<char> {
        match self.home {
            Some(home) => home@,
            None => "."@,
        }
    }

    /// The platform's data directory, or `.local/share` under home.
    pub open spec fn spec_data_root(&self) -> Seq<char> {
        match self.data {
            Some(data) => data@,
            None => joined(self.spec_home(), ".local/share"@),
        }
    }

    /// The platform's configuration directory, or `.config` under home.
    pub open spec fn spec_config_root(&self) -> Seq<char> {
        match self.config {
            Some(config) => config@,
            None => joined(self.spec_home(), ".config"@),
        }
    }

    /// The platform's cache directory, or `.cache` under home.
    pub open spec fn spec_cache_root(&self) -> Seq<char> {
        match self.cache {
            Some(cache) => cache@,
            None => joined(self.spec_home(), ".cache"@),
        }
    }

    /// The directories of a user of whom only the home directory is known.
    pub fn from_home(home: &str) -> (dirs: PlatformDirs)
        ensures
            dirs.home matches Some(h) && h@ == home@,
            dirs.data is None,
            dirs.config is None,
            dirs.cache is None,
    {
        PlatformDirs { home: Some(home.to_owned()), data: None, config: None, cache: None }
    }

    /// The home directory, or `.` where it is unknown.
    fn home(&self) -> (path: String)
        ensures
            path@ == self.spec_home(),
    {
        match &self.home {
            Some(home) => home.clone(),
            None => ".".to_owned(),
        }
    }

    /// `root` where it is known, else `fallback` under home.
    fn root_or(&self, root: &Option<String>, fallback: &str) -> (path: String)
        ensures
            path@ == match *root {
                Some(known) => known@,
                None => joined(self.spec_home(), fallback@),
            },
    {
        match root {
            Some(known) => known.clone(),
            None => {
                let home = self.home();
                join(home.as_str(), fallback)
            },
        }
    }
}

/// The manager's data directory.
pub open spec fn spec_data_dir(dirs: PlatformDirs) -> Seq<char> {
    joined(dirs.spec_data_root(), app_name())
}

/// The manager's configuration directory.
pub open spec fn spec_config_dir(dirs: PlatformDirs) -> Seq<char> {
    joined(dirs.spec_config_root(), app_name())
}

/// The manager's cache directory.
pub open spec fn spec_cache_dir(dirs: PlatformDirs) -> Seq<char> {
    joined(dirs.spec_cache_root(), app_name())
}

/// The bar's own configuration directory.
pub open spec fn spec_waybar_dir(dirs: PlatformDirs) -> Seq<char> {
    joined(dirs.spec_config_root(), "waybar"@)
}

/// The directory under which modules are installed.
pub open spec fn spec_modules_dir(dirs: PlatformDirs) -> Seq<char> {
    joined(spec_data_dir(dirs), "modules"@)
}

/// The directory of the per-module preference files.
pub open spec fn spec_preferences_dir(dirs: PlatformDirs) -> Seq<char> {
    joined(spec_config_dir(dirs), "prefs"@)
}

/// The manager's data directory: `waybar-manager` under the data root.
pub fn data_dir(dirs: &PlatformDirs) -> (path: String)
    ensures
        path@ == spec_data_dir(*dirs),
{
    let root = dirs.root_or(&dirs.data, ".local/share");
    join(root.as_str(), "waybar-manager")
}

/// The manager's configuration directory: `waybar-manager` under the
/// configuration root.
pub fn config_dir(dirs: &PlatformDirs) -> (path: String)
    ensures
        path@ == spec_config_dir(*dirs),
{
    let root = dirs.root_or(&dirs.config, ".config");
    join(root.as_str(), "waybar-manager")
}

/// The bar's configuration directory: `waybar` under the configuration root.
pub fn waybar_config_dir(dirs: &PlatformDirs) -> (path: String)
    ensures
        path@ == spec_waybar_dir(*dirs),
{
    let root = dirs.root_or(&dirs.config, ".config");
    join(root.as_str(), "waybar")
}

/// The directory under which modules are installed.
pub fn modules_dir(dirs: &PlatformDirs) -> (path: String)
    ensures
        path@ == spec_modules_dir(*dirs),
        starts_with(path@, spec_data_dir(*dirs)),
{
    let data = data_dir(dirs);
    proof {
        reveal_strlit("modules");
        lemma_joined_starts_with_base(spec_data_dir(*dirs), "modules"@);
    }
    join(data.as_str(), "modules")
}

/// The manager's cache directory: `waybar-manager` under the cache root.
pub fn cache_dir(dirs: &PlatformDirs) -> (path: String)
    ensures
        path@ == spec_cache_dir(*dirs),
{
    let root = dirs.root_or(&dirs.cache, ".cache");
    join(root.as_str(), "waybar-manager")
}

/// The file that caches the registry index.
pub fn registry_cache_path(dirs: &PlatformDirs) -> (path: String)
    ensures
        path@ == joined(spec_cache_dir(*dirs), "registry.json"@),
{
    let cache = cache_dir(dirs);
    join(cache.as_str(), "registry.json")
}

/// The directory of the per-module preference files.
pub fn preferences_dir(dirs: &PlatformDirs) -> (path: String)
    ensures
        path@ == spec_preferences_dir(*dirs),
        starts_with(path@, spec_config_dir(*dirs)),
{
    let config = config_dir(dirs);
    proof {
        reveal_strlit("prefs");
        lemma_joined_starts_with_base(spec_config_dir(*dirs), "prefs"@);
    }
    join(config.as_str(), "prefs")
}

/// The bar's configuration file.
pub fn waybar_config_path(dirs: &PlatformDirs) -> (path: String)
    ensures
        path@ == joined(spec_waybar_dir(*dirs), "config.jsonc"@),
{
    let waybar = waybar_config_dir(dirs);
    join(waybar.as_str(), "config.jsonc")
}

/// The bar's stylesheet.
pub fn waybar_style_path(dirs: &PlatformDirs) -> (path: String)
    ensures
        path@ == joined(spec_waybar_dir(*dirs), "style.css"@),
{
    let waybar = waybar_config_dir(dirs);
    join(waybar.as_str(), "style.css")
}

/// The directory into which the module `uuid` is installed: the directory
/// named by the identifier, directly under the modules directory.
pub fn module_install_path(dirs: &PlatformDirs, uuid: &ModuleUuid) -> (path: String)
    ensures
        path@ == joined(spec_modules_dir(*dirs), uuid.text()),
        starts_with(path@, spec_modules_dir(*dirs)),
        crate::text::ends_with(path@, uuid.text()),
        !uuid.text().contains('/'),
{
    let modules = modules_dir(dirs);
    let text = uuid.to_string();
    proof {
        lemma_identifier_is_one_segment(uuid.name_text(), uuid.namespace_text());
        lemma_joined_starts_with_base(spec_modules_dir(*dirs), uuid.text());
    }
    join(modules.as_str(), text.as_str())
}

/// The preference file of the module `uuid`: the identifier followed by
/// `.json`, directly under the preferences directory.
pub fn module_preferences_path(dirs: &PlatformDirs, uuid: &ModuleUuid) -> (path: String)
    ensures
        path@ == joined(spec_preferences_dir(*dirs), uuid.text() + ".json"@),
        starts_with(path@, spec_preferences_dir(*dirs)),
        crate::text::ends_with(path@, uuid.text() + ".json"@),
{
    let preferences = preferences_dir(dirs);
    let text = uuid.to_string();
    let file = crate::text::joined_text(text.as_str(), ".json");
    proof {
        lemma_identifier_is_one_segment(uuid.name_text(), uuid.namespace_text());
        assert(file@[0] == uuid.text()[0]);
        lemma_joined_starts_with_base(spec_preferences_dir(*dirs), file@);
    }
    join(preferences.as_str(), file.as_str())
}

/// The text of a valid identifier holds no `/`: it is one path segment, and
/// does not start at the root.
pub proof fn lemma_identifier_is_one_segment(name: Seq<char>, namespace: Seq<char>)
    requires
        valid_parts(name, namespace),
    ensures
        !crate::domain::module::joined(name, namespace).contains('/'),
        !is_rooted(crate::domain::module::joined(name, namespace)),
        crate::domain::module::joined(name, namespace).len() > 0,
{
    let text = crate::domain::module::joined(name, namespace);
    let at = name.len() as int;
    assert forall|i: int| 0 <= i < text.len() implies text[i] != '/' by {
        if i < at {
            assert(text[i] == name[i]);
            assert(!forbidden_in_part(name[i]));
        } else if i > at {
            assert(text[i] == namespace[i - at - 1]);
            assert(!forbidden_in_part(namespace[i - at - 1]));
        } else {
            assert(text[i] == '@');
        }
    }
}

} // verus!
