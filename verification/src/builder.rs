//! The application builder: the framework's configuration object, assembled
//! once at startup. The launcher registers exactly one plugin (the opener)
//! and installs the startup hook before handing the builder to the run loop.

use vstd::prelude::*;

verus! {

/// The name of the one capability extension the launcher registers. Its
/// internals belong to the framework and are out of scope here: the builder
/// records no more than that it was registered.
pub open spec fn opener_plugin_name() -> Seq<char> {
    "opener"@
}

/// A capability extension to be registered with the builder, known to the
/// launcher only by name.
#[derive(Debug, Clone)]
pub struct Plugin {
    pub name: String,
}

/// The application builder: the plugins registered so far, and whether the
/// startup hook has been installed.
#[derive(Debug, Clone)]
pub struct AppBuilder {
    pub plugins: Vec<Plugin>,
    pub setup_installed: bool,
}

/// The opener plugin with its default initialization.
pub fn opener_plugin() -> (p: Plugin)
    ensures
        p.name@ == opener_plugin_name(),
{
    Plugin { name: "opener".to_owned() }
}

impl Default for AppBuilder {
    /// A builder with default configuration: no plugins, no startup hook.
    fn default() -> (b: AppBuilder)
        ensures
            b.plugins@.len() == 0,
            !b.setup_installed,
    {
        AppBuilder { plugins: Vec::new(), setup_installed: false }
    }
}

impl AppBuilder {
    /// Registers one plugin with the builder.
    pub fn plugin(self, p: Plugin) -> (b: AppBuilder)
        ensures
            b.plugins@ == self.plugins@.push(p),
            b.setup_installed == self.setup_installed,
    {
        let mut plugins = self.plugins;
        plugins.push(p);
        AppBuilder { plugins, setup_installed: self.setup_installed }
    }

    /// Installs the startup hook, to be invoked once by the framework after
    /// its own initialization.
    pub fn setup(self) -> (b: AppBuilder)
        ensures
            b.plugins@ == self.plugins@,
            b.setup_installed,
    {
        AppBuilder { plugins: self.plugins, setup_installed: true }
    }
}

/// Assembles the builder the launcher runs: default configuration, exactly
/// one registered plugin (the opener), and the startup hook installed.
pub fn configure_builder() -> (b: AppBuilder)
    ensures
        b.plugins@.len() == 1,
        b.plugins@[0].name@ == opener_plugin_name(),
        b.setup_installed,
{
    AppBuilder::default().plugin(opener_plugin()).setup()
}

} // verus!
