//! The configuration document: three lists of applications.
//!
//! A configuration is loaded once and passed to whoever needs it. Nothing
//! here changes one after it was built.

use crate::text::str_eq;
use vstd::prelude::*;

verus! {

/// One application of the configuration.
#[derive(Debug, Clone, PartialEq, Eq)]
pub struct AppConfig {
    pub name: String,
    pub image: Option<String>,
    pub version: String,
    pub path: Option<String>,
}

/// The mathematical value of an [`AppConfig`].
pub struct AppModel {
    pub name: Seq<char>,
    pub image: Option<Seq<char>>,
    pub version: Seq<char>,
    pub path: Option<Seq<char>>,
}

impl DeepView for AppConfig {
    type V = AppModel;

    open spec fn deep_view(&self) -> AppModel {
        AppModel {
            name: self.name@,
            image: self.image.deep_view(),
            version: self.version@,
            path: self.path.deep_view(),
        }
    }
}

/// A copy of an optional string.
pub fn copy_optional(text: &Option<String>) -> (out: Option<String>)
    ensures
        out.deep_view() == text.deep_view(),
{
    match text {
        Some(s) => Some(s.clone()),
        None => None,
    }
}

impl AppConfig {
    /// A copy of this application.
    pub fn duplicate(&self) -> (copy: AppConfig)
        ensures
            copy.deep_view() == self.deep_view(),
    {
        AppConfig {
            name: self.name.clone(),
            image: copy_optional(&self.image),
            version: self.version.clone(),
            path: copy_optional(&self.path),
        }
    }
}

/// A copy of a list of applications.
pub fn duplicate_all(apps: &Vec<AppConfig>) -> (copy: Vec<AppConfig>)
    ensures
        copy.deep_view() == apps.deep_view(),
{
    let mut copy: Vec<AppConfig> = Vec::new();
    let mut i: usize = 0;
    while i < apps.len()
        invariant
            i <= apps.len(),
            copy.len() == i,
            forall|k: int| 0 <= k < i ==> copy[k].deep_view() == apps[k].deep_view(),
        decreases apps.len() - i,
    {
        copy.push(apps[i].duplicate());
        i += 1;
    }
    assert(copy.deep_view() =~= apps.deep_view());
    copy
}

/// The first application of `apps` whose name is `name`.
pub open spec fn first_named(apps: Seq<AppModel>, name: Seq<char>) -> Option<AppModel>
    decreases apps.len(),
{
    if apps.len() == 0 {
        None
    } else if apps[0].name == name {
        Some(apps[0])
    } else {
        first_named(apps.drop_first(), name)
    }
}

/// The first application of `apps` whose name is `name`, if there is one.
pub fn find_app<'a>(apps: &'a Vec<AppConfig>, name: &str) -> (found: Option<&'a AppConfig>)
    ensures
        found.deep_view() == first_named(apps.deep_view(), name@),
{
    let ghost all = apps.deep_view();
    let mut i: usize = 0;
    assert(all.skip(0) =~= all);
    while i < apps.len()
        invariant
            i <= apps.len(),
            all == apps.deep_view(),
            all.len() == apps.len(),
            first_named(all, name@) == first_named(all.skip(i as int), name@),
        decreases apps.len() - i,
    {
        assert(all.skip(i as int)[0] == apps[i as int].deep_view());
        if str_eq(apps[i].name.as_str(), name) {
            return Some(&apps[i]);
        }
        assert(all.skip(i as int).drop_first() =~= all.skip(i + 1));
        i += 1;
    }
    None
}

/// The configuration document.
#[derive(Debug, Clone, PartialEq, Eq)]
pub struct Config {
    init: Vec<AppConfig>,
    init_bundle: Vec<AppConfig>,
    shutdown_bundle: Vec<AppConfig>,
}

/// The mathematical value of a [`Config`].
pub struct ConfigModel {
    pub init: Seq<AppModel>,
    pub init_bundle: Seq<AppModel>,
    pub shutdown_bundle: Seq<AppModel>,
}

impl DeepView for Config {
    type V = ConfigModel;

    closed spec fn deep_view(&self) -> ConfigModel {
        ConfigModel {
            init: self.init.deep_view(),
            init_bundle: self.init_bundle.deep_view(),
            shutdown_bundle: self.shutdown_bundle.deep_view(),
        }
    }
}

/// The name under which the container runtime is configured.
pub open spec fn oci_runtime_name() -> Seq<char> {
    "oci-runtime"@
}

/// The runtime binary to use where the configuration names none.
pub open spec fn default_runtime() -> Seq<char> {
    "/usr/bin/crun"@
}

/// The path of `app` if it is there and has one, else `default`.
pub open spec fn path_or(app: Option<AppModel>, default: Seq<char>) -> Seq<char> {
    match app {
        Some(AppModel { path: Some(path), .. }) => path,
        _ => default,
    }
}

impl ConfigModel {
    /// The runtime binary: the path of the role `oci-runtime`, or the
    /// default where the role or its path is missing.
    pub open spec fn runtime_path(self) -> Seq<char> {
        path_or(first_named(self.init, oci_runtime_name()), default_runtime())
    }
}

/// The path of `app` if it is there and has one, else `default`.
pub fn path_or_default(app: Option<&AppConfig>, default: &str) -> (path: String)
    ensures
        path@ == path_or(app.deep_view(), default@),
{
    match app {
        Some(found) => match &found.path {
            Some(path) => path.clone(),
            None => String::from_str(default),
        },
        None => String::from_str(default),
    }
}

impl Config {
    /// The configuration that holds the three lists.
    pub fn new(
        init: Vec<AppConfig>,
        init_bundle: Vec<AppConfig>,
        shutdown_bundle: Vec<AppConfig>,
    ) -> (config: Config)
        ensures
            config.deep_view() == (ConfigModel {
                init: init.deep_view(),
                init_bundle: init_bundle.deep_view(),
                shutdown_bundle: shutdown_bundle.deep_view(),
            }),
    {
        Config { init, init_bundle, shutdown_bundle }
    }

    /// A copy of the configuration. Every read gives the same value.
    pub fn get(&self) -> (copy: Config)
        ensures
            copy.deep_view() == self.deep_view(),
    {
        Config {
            init: duplicate_all(&self.init),
            init_bundle: duplicate_all(&self.init_bundle),
            shutdown_bundle: duplicate_all(&self.shutdown_bundle),
        }
    }

    /// The roles: the container runtime, the container engine.
    pub fn get_init_config(&self) -> (apps: &Vec<AppConfig>)
        ensures
            apps.deep_view() == self.deep_view().init,
    {
        &self.init
    }

    /// The workloads to start at boot, in order.
    pub fn get_init_bundle_config(&self) -> (apps: &Vec<AppConfig>)
        ensures
            apps.deep_view() == self.deep_view().init_bundle,
    {
        &self.init_bundle
    }

    /// The workloads to tear down at shutdown, in order.
    pub fn get_shutdown_bundle_config(&self) -> (apps: &Vec<AppConfig>)
        ensures
            apps.deep_view() == self.deep_view().shutdown_bundle,
    {
        &self.shutdown_bundle
    }

    /// The first role named `oci-runtime`, if the configuration has one.
    pub fn get_oci_runtime(&self) -> (found: Option<&AppConfig>)
        ensures
            found.deep_view() == first_named(self.deep_view().init, oci_runtime_name()),
    {
        find_app(&self.init, "oci-runtime")
    }

    /// The runtime binary that the configuration names, or the default.
    pub fn runtime_path(&self) -> (path: String)
        ensures
            path@ == self.deep_view().runtime_path(),
    {
        path_or_default(self.get_oci_runtime(), "/usr/bin/crun")
    }
}

} // verus!
