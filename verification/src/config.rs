//! The build configuration: what a Smithy build is run with, and the builder
//! that accumulates it.

use crate::paths::{is_absolute, join, join_spec, lemma_join_absolute};
use vstd::prelude::*;
use vstd::string::*;

pub mod execute;
pub mod render;

verus! {

/// What a [`SmithyBuild`] holds, as plain text and flags.
pub struct BuildConfiguration {
    /// Working directory of the tool's runs.
    pub path: Seq<char>,
    /// Where the tool writes its output.
    pub out_dir: Seq<char>,
    /// The projection to build, if one was chosen.
    pub projection: Option<Seq<char>>,
    /// The single plugin to build, if one was chosen.
    pub plugin: Option<Seq<char>>,
    /// Additional model files and directories, in the order they were added.
    pub models: Seq<Seq<char>>,
    /// Configuration files for the tool, in the order they were added.
    pub configs: Seq<Seq<char>>,
    /// Whether the tool's own discovery of a configuration file is switched
    /// off.
    pub no_config: bool,
    /// Whether coloured output is forced.
    pub force_color: bool,
    /// Whether the tool logs at debug level.
    pub debug: bool,
    /// Whether a formatting pass runs before the build.
    pub format: bool,
    /// Whether output other than diagnostics is suppressed.
    pub quiet: bool,
    /// Whether unknown traits are let through validation.
    pub allow_unknown_traits: bool,
    /// Environment variables for the tool's runs, in the order they were
    /// added.
    pub env: Seq<(Seq<char>, Seq<char>)>,
}

impl BuildConfiguration {
    /// Both paths start at the root.
    pub open spec fn rooted(self) -> bool {
        is_absolute(self.path) && is_absolute(self.out_dir)
    }

    /// The configuration a builder starts from, given the working directory
    /// and the values found for the output base directory and the log level.
    pub open spec fn initial(
        current_dir: Seq<char>,
        out_base: Option<Seq<char>>,
        log_level: Option<Seq<char>>,
    ) -> BuildConfiguration {
        let base = match out_base {
            Some(dir) => dir,
            None => "target"@,
        };
        BuildConfiguration {
            path: current_dir,
            out_dir: join_spec(join_spec(current_dir, base), "smithy"@),
            projection: None,
            plugin: None,
            models: Seq::empty(),
            configs: Seq::empty(),
            no_config: false,
            force_color: true,
            debug: log_level == Some("debug"@),
            format: true,
            quiet: false,
            allow_unknown_traits: false,
            env: Seq::empty(),
        }
    }
}

/// Builder for one run of the Smithy tool. Its two paths are always absolute.
pub struct SmithyBuild {
    path: String,
    out_dir: String,
    projection: Option<String>,
    plugin: Option<String>,
    models: Vec<String>,
    configs: Vec<String>,
    no_config: bool,
    force_color: bool,
    debug: bool,
    format: bool,
    quiet: bool,
    allow_unknown_traits: bool,
    env: Vec<(String, String)>,
}

impl View for SmithyBuild {
    type V = BuildConfiguration;

    closed spec fn view(&self) -> BuildConfiguration {
        BuildConfiguration {
            path: self.path@,
            out_dir: self.out_dir@,
            projection: self.projection.deep_view(),
            plugin: self.plugin.deep_view(),
            models: self.models.deep_view(),
            configs: self.configs.deep_view(),
            no_config: self.no_config,
            force_color: self.force_color,
            debug: self.debug,
            format: self.format,
            quiet: self.quiet,
            allow_unknown_traits: self.allow_unknown_traits,
            env: self.env.deep_view(),
        }
    }
}

impl SmithyBuild {
    #[verifier::type_invariant]
    spec fn well_formed(self) -> bool {
        self@.rooted()
    }

    /// A builder rooted at `current_dir`, which writes to `smithy` under
    /// `out_base` (under `target` where there is none) and logs at debug level
    /// exactly when `log_level` is `debug`.
    pub fn new(current_dir: &str, out_base: Option<&str>, log_level: Option<&str>) -> (build:
        SmithyBuild)
        requires
            is_absolute(current_dir@),
        ensures
            build@ == BuildConfiguration::initial(
                current_dir@,
                out_base.deep_view(),
                log_level.deep_view(),
            ),
            build@.rooted(),
    {
        let base = match out_base {
            Some(dir) => join(current_dir, dir),
            None => join(current_dir, "target"),
        };
        let out_dir = join(base.as_str(), "smithy");
        let debug = match log_level {
            Some(level) => String::from_str(level) == String::from_str("debug"),
            None => false,
        };
        proof {
            lemma_join_absolute(current_dir@, out_base.deep_view().unwrap_or("target"@));
            lemma_join_absolute(base@, "smithy"@);
        }
        let build = SmithyBuild {
            path: String::from_str(current_dir),
            out_dir,
            projection: None,
            plugin: None,
            models: Vec::new(),
            configs: Vec::new(),
            no_config: false,
            force_color: true,
            debug,
            format: true,
            quiet: false,
            allow_unknown_traits: false,
            env: Vec::new(),
        };
        proof {
            assert(build.models.deep_view() =~= Seq::<Seq<char>>::empty());
            assert(build.configs.deep_view() =~= Seq::<Seq<char>>::empty());
            assert(build.env.deep_view() =~= Seq::<(Seq<char>, Seq<char>)>::empty());
        }
        build
    }

    /// Roots the build at `path`, taken relative to `current_dir` unless it
    /// is absolute itself. The output directory stays as it is.
    pub fn path(self, current_dir: &str, path: &str) -> (build: SmithyBuild)
        requires
            is_absolute(current_dir@),
        ensures
            build@ == (BuildConfiguration { path: join_spec(current_dir@, path@), ..self@ }),
            build@.rooted(),
    {
        proof {
            use_type_invariant(&self);
            lemma_join_absolute(current_dir@, path@);
        }
        let mut build = self;
        build.path = join(current_dir, path);
        build
    }

    /// Sets the output directory to `out`, taken relative to the root path
    /// unless it is absolute itself.
    pub fn out_dir(&mut self, out: &str) -> (build: &mut SmithyBuild)
        ensures
            build@ == (BuildConfiguration {
                out_dir: join_spec(old(self)@.path, out@),
                ..old(self)@
            }),
            build@.rooted(),
            *final(self) == *final(build),
    {
        proof {
            use_type_invariant(&*self);
            lemma_join_absolute(self.path@, out@);
        }
        self.out_dir = join(self.path.as_str(), out);
        self
    }

    /// Chooses the projection to build; the tool builds its default one when
    /// none is chosen.
    pub fn projection(&mut self, projection: &str) -> (build: &mut SmithyBuild)
        ensures
            build@ == (BuildConfiguration { projection: Some(projection@), ..old(self)@ }),
            build@.rooted(),
            *final(self) == *final(build),
    {
        proof {
            use_type_invariant(&*self);
        }
        self.projection = Some(String::from_str(projection));
        self
    }

    /// Chooses a single plugin to build; the tool builds all of them when
    /// none is chosen.
    pub fn plugin(&mut self, plugin: &str) -> (build: &mut SmithyBuild)
        ensures
            build@ == (BuildConfiguration { plugin: Some(plugin@), ..old(self)@ }),
            build@.rooted(),
            *final(self) == *final(build),
    {
        proof {
            use_type_invariant(&*self);
        }
        self.plugin = Some(String::from_str(plugin));
        self
    }

    /// Adds a model file or directory, after those added before.
    pub fn model(&mut self, model: &str) -> (build: &mut SmithyBuild)
        ensures
            build@ == (BuildConfiguration {
                models: old(self)@.models.push(model@),
                ..old(self)@
            }),
            build@.rooted(),
            *final(self) == *final(build),
    {
        proof {
            use_type_invariant(&*self);
        }
        let mut models: Vec<String> = Vec::new();
        core::mem::swap(&mut self.models, &mut models);
        let ghost before = models.deep_view();
        models.push(String::from_str(model));
        proof {
            assert(models.deep_view() =~= before.push(model@));
        }
        self.models = models;
        self
    }

    /// Adds a configuration file for the tool, after those added before.
    pub fn config(&mut self, config: &str) -> (build: &mut SmithyBuild)
        ensures
            build@ == (BuildConfiguration {
                configs: old(self)@.configs.push(config@),
                ..old(self)@
            }),
            build@.rooted(),
            *final(self) == *final(build),
    {
        proof {
            use_type_invariant(&*self);
        }
        let mut configs: Vec<String> = Vec::new();
        core::mem::swap(&mut self.configs, &mut configs);
        let ghost before = configs.deep_view();
        configs.push(String::from_str(config));
        proof {
            assert(configs.deep_view() =~= before.push(config@));
        }
        self.configs = configs;
        self
    }

    /// Switches off the tool's own discovery of a configuration file.
    pub fn no_config(&mut self) -> (build: &mut SmithyBuild)
        ensures
            build@ == (BuildConfiguration { no_config: true, ..old(self)@ }),
            build@.rooted(),
            *final(self) == *final(build),
    {
        proof {
            use_type_invariant(&*self);
        }
        self.no_config = true;
        self
    }

    /// Has the tool log at debug level.
    pub fn debug(&mut self) -> (build: &mut SmithyBuild)
        ensures
            build@ == (BuildConfiguration { debug: true, ..old(self)@ }),
            build@.rooted(),
            *final(self) == *final(build),
    {
        proof {
            use_type_invariant(&*self);
        }
        self.debug = true;
        self
    }

    /// Has a formatting pass run before the build.
    pub fn format(&mut self) -> (build: &mut SmithyBuild)
        ensures
            build@ == (BuildConfiguration { format: true, ..old(self)@ }),
            build@.rooted(),
            *final(self) == *final(build),
    {
        proof {
            use_type_invariant(&*self);
        }
        self.format = true;
        self
    }

    /// Suppresses output other than diagnostics.
    pub fn quiet(&mut self) -> (build: &mut SmithyBuild)
        ensures
            build@ == (BuildConfiguration { quiet: true, ..old(self)@ }),
            build@.rooted(),
            *final(self) == *final(build),
    {
        proof {
            use_type_invariant(&*self);
        }
        self.quiet = true;
        self
    }

    /// Lets unknown traits through validation.
    pub fn allow_unknown_traits(&mut self) -> (build: &mut SmithyBuild)
        ensures
            build@ == (BuildConfiguration { allow_unknown_traits: true, ..old(self)@ }),
            build@.rooted(),
            *final(self) == *final(build),
    {
        proof {
            use_type_invariant(&*self);
        }
        self.allow_unknown_traits = true;
        self
    }

    /// Adds an environment variable for the tool's runs, after those added
    /// before. Where a name is added twice, both entries are kept.
    pub fn env(&mut self, key: &str, value: &str) -> (build: &mut SmithyBuild)
        ensures
            build@ == (BuildConfiguration {
                env: old(self)@.env.push((key@, value@)),
                ..old(self)@
            }),
            build@.rooted(),
            *final(self) == *final(build),
    {
        proof {
            use_type_invariant(&*self);
        }
        let mut env: Vec<(String, String)> = Vec::new();
        core::mem::swap(&mut self.env, &mut env);
        let ghost before = env.deep_view();
        env.push((String::from_str(key), String::from_str(value)));
        proof {
            assert(env.deep_view() =~= before.push((key@, value@)));
        }
        self.env = env;
        self
    }
}

} // verus!
