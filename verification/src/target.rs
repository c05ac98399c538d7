//! The configured targets.

use vstd::prelude::*;
use vstd::string::*;

verus! {

/// One external tool to be ensured present, built and installed.
#[derive(Debug)]
pub struct Target {
    /// Identifier of the target, and the executable that is probed.
    pub name: String,
    /// The argument that makes the executable print its version.
    pub version_command: String,
    /// The required version.
    pub version: String,
    /// Template of the location of a source archive, with a version
    /// placeholder.
    pub mirror: Option<String>,
    /// Location of a source repository.
    pub repo: Option<String>,
    /// Environment variables for the build tool, in order. Carried, and not
    /// read by any operation.
    pub make_env_vars: Vec<(String, String)>,
    /// Whether the build runs a configure step first.
    pub configure: bool,
    /// Whether installing needs elevated privileges. Carried, and not read
    /// by any operation.
    pub sudo_install: bool,
}

/// The configured list of targets.
#[derive(Debug)]
pub struct Config {
    /// The targets, in the order in which they are to be handled.
    pub targets: Vec<Target>,
}

/// What a `Target` holds, as mathematical values.
pub struct TargetView {
    pub name: Seq<char>,
    pub version_command: Seq<char>,
    pub version: Seq<char>,
    pub mirror: Option<Seq<char>>,
    pub repo: Option<Seq<char>>,
    pub make_env_vars: Seq<(Seq<char>, Seq<char>)>,
    pub configure: bool,
    pub sudo_install: bool,
}

/// The text of an optional string.
pub open spec fn text_of(value: Option<String>) -> Option<Seq<char>> {
    match value {
        Some(text) => Some(text@),
        None => None,
    }
}

impl View for Target {
    type V = TargetView;

    open spec fn view(&self) -> TargetView {
        TargetView {
            name: self.name@,
            version_command: self.version_command@,
            version: self.version@,
            mirror: text_of(self.mirror),
            repo: text_of(self.repo),
            make_env_vars: self.make_env_vars@.map_values(
                |pair: (String, String)| (pair.0@, pair.1@),
            ),
            configure: self.configure,
            sudo_install: self.sudo_install,
        }
    }
}

impl View for Config {
    type V = Seq<TargetView>;

    open spec fn view(&self) -> Seq<TargetView> {
        self.targets@.map_values(|target: Target| target@)
    }
}

impl Default for Target {
    /// A target with empty texts, no source, no variables and both flags off.
    fn default() -> (target: Target)
        ensures
            target@ == (TargetView {
                name: Seq::empty(),
                version_command: Seq::empty(),
                version: Seq::empty(),
                mirror: None,
                repo: None,
                make_env_vars: Seq::empty(),
                configure: false,
                sudo_install: false,
            }),
    {
        let target = Target {
            name: String::new(),
            version_command: String::new(),
            version: String::new(),
            mirror: None,
            repo: None,
            make_env_vars: Vec::new(),
            configure: false,
            sudo_install: false,
        };
        assert(target@.make_env_vars =~= Seq::empty());
        target
    }
}

impl Default for Config {
    /// A configuration without targets.
    fn default() -> (config: Config)
        ensures
            config@ == Seq::<TargetView>::empty(),
    {
        let config = Config { targets: Vec::new() };
        assert(config@ =~= Seq::<TargetView>::empty());
        config
    }
}

} // verus!
