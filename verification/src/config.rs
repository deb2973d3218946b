//! How the application is set up.

use vstd::prelude::*;

verus! {

/// How the application was asked to run.
#[derive(Debug, Clone, Copy, PartialEq, Eq, Structural)]
pub struct AppConfig {
    debug: bool,
}

/// The argument that switches debugging on.
pub open spec fn debug_arg() -> Seq<char> {
    "--debug"@
}

/// Some argument, the program's name included, is the debug switch.
pub open spec fn asks_for_debug(args: Seq<String>) -> bool {
    exists|i: int| 0 <= i < args.len() && (#[trigger] args[i])@ == debug_arg()
}

impl Default for AppConfig {
    fn default() -> (config: AppConfig)
        ensures
            !config.spec_is_debug(),
    {
        AppConfig { debug: false }
    }
}

impl AppConfig {
    /// Whether debugging is on.
    pub closed spec fn spec_is_debug(&self) -> bool {
        self.debug
    }

    /// The configuration that a command line asks for: debugging is on
    /// exactly when one of `args` is `--debug`.
    pub fn from_args(args: &Vec<String>) -> (config: AppConfig)
        ensures
            config.is_debug() == asks_for_debug(args@),
    {
        let switch = String::from_str("--debug");
        let mut i: usize = 0;
        while i < args.len()
            invariant
                i <= args.len(),
                switch@ == debug_arg(),
                forall|j: int| 0 <= j < i ==> (#[trigger] args@[j])@ != debug_arg(),
            decreases args.len() - i,
        {
            if args[i] == switch {
                return AppConfig { debug: true };
            }
            i += 1;
        }
        AppConfig { debug: false }
    }

    /// In debug mode the overlay is not put in front of all other windows.
    #[verifier::when_used_as_spec(spec_is_debug)]
    pub fn is_debug(&self) -> (debug: bool)
        ensures
            debug == self.spec_is_debug(),
    {
        self.debug
    }
}

/// Builds an `AppConfig` step by step.
#[derive(Debug, Clone, Copy, PartialEq, Eq, Structural)]
pub struct AppConfigBuilder {
    config: AppConfig,
}

impl AppConfigBuilder {
    /// The configuration that `build` would give now.
    pub closed spec fn current(&self) -> AppConfig {
        self.config
    }

    /// Starts from the default configuration, with debugging off.
    pub fn new() -> (builder: AppConfigBuilder)
        ensures
            !builder.current().is_debug(),
    {
        AppConfigBuilder { config: AppConfig { debug: false } }
    }

    /// Switches debugging on or off.
    pub fn with_debug(self, debug: bool) -> (builder: AppConfigBuilder)
        ensures
            builder.current().is_debug() == debug,
    {
        let mut builder = self;
        builder.config.debug = debug;
        builder
    }

    /// The configuration as it was set up.
    pub fn build(self) -> (config: AppConfig)
        ensures
            config == self.current(),
    {
        self.config
    }
}

} // verus!
