//! The argument renderer: the command lines that a configuration stands for,
//! in the two modes the tool is run in, and the file-watch directives that go
//! with the paths named on them.

use crate::config::{BuildConfiguration, SmithyBuild};
use crate::paths::join;
use crate::paths::join_spec;
use vstd::prelude::*;
use vstd::string::*;

verus! {

/// A switch: on the command line exactly when it is set.
pub open spec fn switch(set: bool, name: Seq<char>) -> Seq<Seq<char>> {
    if set {
        seq![name]
    } else {
        Seq::empty()
    }
}

/// An option and its value: on the command line exactly when a value was
/// chosen.
pub open spec fn valued(name: Seq<char>, value: Option<Seq<char>>) -> Seq<Seq<char>> {
    match value {
        Some(v) => seq![name, v],
        None => Seq::empty(),
    }
}

/// One `--config <file>` pair for each configuration file, in order.
pub open spec fn config_options(configs: Seq<Seq<char>>) -> Seq<Seq<char>> {
    Seq::new(
        2 * configs.len(),
        |i: int|
            if i % 2 == 0 {
                "--config"@
            } else {
                configs[i / 2]
            },
    )
}

impl BuildConfiguration {
    /// The path arguments: the default model directory first, where there is
    /// one, then the added models in the order they were added.
    pub open spec fn path_args(self, default_models: bool) -> Seq<Seq<char>> {
        switch(default_models, "model/"@) + self.models
    }

    /// The switches that both modes share.
    pub open spec fn common_switches(self) -> Seq<Seq<char>> {
        switch(self.debug, "--debug"@) + switch(self.quiet, "--quiet"@)
    }

    /// The tail that both modes share: the common switches, then the paths.
    pub open spec fn common_args(self, default_models: bool) -> Seq<Seq<char>> {
        self.common_switches() + self.path_args(default_models)
    }

    /// The command line of the formatting pass.
    pub open spec fn format_args(self, default_models: bool) -> Seq<Seq<char>> {
        seq!["build"@] + self.common_args(default_models)
    }

    /// The head of the build's command line: the subcommand, the output
    /// directory, then what was chosen of projection, plugin, configuration
    /// files and the three build switches, in this order.
    pub open spec fn build_options(self) -> Seq<Seq<char>> {
        seq!["build"@, "--output"@, self.out_dir]
            + valued("--projection"@, self.projection)
            + valued("--plugin"@, self.plugin)
            + config_options(self.configs)
            + switch(self.no_config, "--no-config"@)
            + switch(self.allow_unknown_traits, "--aut"@)
            + switch(self.force_color, "--force-color"@)
    }

    /// The command line of the build.
    pub open spec fn build_args(self, default_models: bool) -> Seq<Seq<char>> {
        self.build_options() + self.common_args(default_models)
    }
}

/// The directive that asks for a new run of the build script when `watched`
/// changes.
pub open spec fn rerun_directive_spec(watched: Seq<char>) -> Seq<char> {
    "cargo:rerun-if-changed="@ + watched
}

impl BuildConfiguration {
    /// The file-watch directives: one for each path argument, in the order
    /// of the arguments, each naming the path as it stands on the command
    /// line.
    pub open spec fn watch_directives(self, default_models: bool) -> Seq<Seq<char>> {
        self.path_args(default_models).map_values(|path: Seq<char>| rerun_directive_spec(path))
    }
}

/// The directive that asks for a new run of the build script when `watched`
/// changes.
pub fn rerun_directive(watched: &str) -> (line: String)
    ensures
        line@ == rerun_directive_spec(watched@),
{
    let mut line = String::from_str("cargo:rerun-if-changed=");
    line.append(watched);
    line
}

/// Appends a copy of `text` to `args`.
pub(crate) fn push_text(args: &mut Vec<String>, text: &str)
    ensures
        final(args).deep_view() == old(args).deep_view().push(text@),
{
    args.push(String::from_str(text));
}

/// Appends copies of all of `texts` to `args`, in order.
pub(crate) fn push_all(args: &mut Vec<String>, texts: &Vec<String>)
    ensures
        final(args).deep_view() == old(args).deep_view() + texts.deep_view(),
{
    let ghost before = args.deep_view();
    let ghost all = texts.deep_view();
    assert(before + all.take(0) =~= before);
    for i in 0..texts.len()
        invariant
            all == texts.deep_view(),
            args.deep_view() == before + all.take(i as int),
    {
        push_text(args, texts[i].as_str());
        assert(all.take(i + 1) =~= all.take(i as int).push(all[i as int]));
    }
    assert(all.take(texts.len() as int) =~= all);
}

/// Appends the switch `name` to `args` where it is set.
fn push_switch(args: &mut Vec<String>, set: bool, name: &str)
    ensures
        final(args).deep_view() == old(args).deep_view() + switch(set, name@),
{
    if set {
        push_text(args, name);
    }
}

/// Appends the option `name` and its value to `args` where one was chosen.
fn push_valued(args: &mut Vec<String>, name: &str, value: &Option<String>)
    ensures
        final(args).deep_view() == old(args).deep_view() + valued(name@, value.deep_view()),
{
    match value {
        Some(chosen) => {
            push_text(args, name);
            push_text(args, chosen.as_str());
        },
        None => {},
    }
}

/// Appends one `--config <file>` pair to `args` for each of `configs`.
fn push_config_options(args: &mut Vec<String>, configs: &Vec<String>)
    ensures
        final(args).deep_view() == old(args).deep_view() + config_options(configs.deep_view()),
{
    let ghost before = args.deep_view();
    let ghost all = configs.deep_view();
    assert(before + config_options(all.take(0)) =~= before);
    for i in 0..configs.len()
        invariant
            all == configs.deep_view(),
            args.deep_view() == before + config_options(all.take(i as int)),
    {
        push_text(args, "--config");
        push_text(args, configs[i].as_str());
        assert(config_options(all.take(i + 1)) =~= config_options(all.take(i as int)).push(
            "--config"@,
        ).push(all[i as int]));
    }
    assert(all.take(configs.len() as int) =~= all);
}

impl SmithyBuild {
    /// Where the default model directory is looked for: `model` under the
    /// root path.
    pub fn default_model_dir(&self) -> (dir: String)
        ensures
            dir@ == join_spec(self@.path, "model"@),
    {
        join(self.path.as_str(), "model")
    }

    /// The file-watch directives that go with the path arguments.
    /// `default_models` says whether the default model directory exists.
    pub fn watch_directives(&self, default_models: bool) -> (lines: Vec<String>)
        ensures
            lines.deep_view() == self@.watch_directives(default_models),
    {
        let mut lines: Vec<String> = Vec::new();
        if default_models {
            let line = rerun_directive("model/");
            push_text(&mut lines, line.as_str());
        }
        let ghost head = lines.deep_view();
        let ghost watched = self@.models.map_values(|path: Seq<char>| rerun_directive_spec(path));
        assert(head + watched.take(0) =~= head);
        for i in 0..self.models.len()
            invariant
                watched == self@.models.map_values(|path: Seq<char>| rerun_directive_spec(path)),
                lines.deep_view() == head + watched.take(i as int),
        {
            let line = rerun_directive(self.models[i].as_str());
            push_text(&mut lines, line.as_str());
            assert(watched.take(i + 1) =~= watched.take(i as int).push(watched[i as int]));
        }
        assert(watched.take(self.models.len() as int) =~= watched);
        assert(head + watched =~= self@.watch_directives(default_models));
        lines
    }

    /// The tail that both command lines share. `default_models` says whether
    /// the default model directory exists.
    pub fn common_args(&self, default_models: bool) -> (args: Vec<String>)
        ensures
            args.deep_view() == self@.common_args(default_models),
    {
        let mut args: Vec<String> = Vec::new();
        push_switch(&mut args, self.debug, "--debug");
        push_switch(&mut args, self.quiet, "--quiet");
        assert(args.deep_view() =~= self@.common_switches());
        push_switch(&mut args, default_models, "model/");
        push_all(&mut args, &self.models);
        assert(args.deep_view() =~= self@.common_switches() + self@.path_args(default_models));
        args
    }

    /// The command line of the formatting pass: the subcommand and the
    /// common tail.
    pub fn format_args(&self, default_models: bool) -> (args: Vec<String>)
        ensures
            args.deep_view() == self@.format_args(default_models),
    {
        let mut args: Vec<String> = Vec::new();
        push_text(&mut args, "build");
        assert(args.deep_view() =~= seq!["build"@]);
        let common = self.common_args(default_models);
        push_all(&mut args, &common);
        args
    }

    /// The command line of the build.
    pub fn build_args(&self, default_models: bool) -> (args: Vec<String>)
        ensures
            args.deep_view() == self@.build_args(default_models),
    {
        let mut args: Vec<String> = Vec::new();
        push_text(&mut args, "build");
        push_text(&mut args, "--output");
        push_text(&mut args, self.out_dir.as_str());
        assert(args.deep_view() =~= seq!["build"@, "--output"@, self@.out_dir]);
        push_valued(&mut args, "--projection", &self.projection);
        push_valued(&mut args, "--plugin", &self.plugin);
        push_config_options(&mut args, &self.configs);
        push_switch(&mut args, self.no_config, "--no-config");
        push_switch(&mut args, self.allow_unknown_traits, "--aut");
        push_switch(&mut args, self.force_color, "--force-color");
        let common = self.common_args(default_models);
        push_all(&mut args, &common);
        args
    }
}

/// The build's command line starts with the subcommand and goes on with the
/// output directory, before any other option: whatever else is configured,
/// a formatting pass or none.
pub proof fn lemma_output_comes_first(config: BuildConfiguration, default_models: bool)
    ensures
        config.build_args(default_models).len() >= 3,
        config.build_args(default_models)[0] == "build"@,
        config.build_args(default_models)[1] == "--output"@,
        config.build_args(default_models)[2] == config.out_dir,
{
}

/// Both command lines end with the added models, in the order they were
/// added.
pub proof fn lemma_models_in_order(config: BuildConfiguration, default_models: bool)
    ensures
        config.build_args(default_models).len() >= config.models.len(),
        config.build_args(default_models).skip(
            config.build_args(default_models).len() - config.models.len(),
        ) == config.models,
        config.format_args(default_models).len() >= config.models.len(),
        config.format_args(default_models).skip(
            config.format_args(default_models).len() - config.models.len(),
        ) == config.models,
{
    let models = config.models;
    let tail = config.common_switches() + switch(default_models, "model/"@);
    lemma_regroup(config.common_switches(), switch(default_models, "model/"@), models);
    lemma_regroup(config.build_options(), tail, models);
    lemma_regroup(seq!["build"@], tail, models);
    lemma_skip_head(config.build_options() + tail, models);
    lemma_skip_head(seq!["build"@] + tail, models);
}

/// Putting three sequences together does not depend on which two are put
/// together first.
proof fn lemma_regroup(a: Seq<Seq<char>>, b: Seq<Seq<char>>, c: Seq<Seq<char>>)
    ensures
        a + (b + c) == (a + b) + c,
{
    assert(a + (b + c) =~= (a + b) + c);
}

/// What is left of a sequence without its head is its tail.
proof fn lemma_skip_head(head: Seq<Seq<char>>, tail: Seq<Seq<char>>)
    ensures
        (head + tail).len() >= tail.len(),
        (head + tail).skip((head + tail).len() - tail.len()) == tail,
{
    assert((head + tail).skip(head.len() as int) =~= tail);
}

/// Without a default model directory and without added models, neither
/// command line holds a path argument: each ends with the common switches.
pub proof fn lemma_no_path_args(config: BuildConfiguration)
    requires
        config.models.len() == 0,
    ensures
        config.path_args(false) == Seq::<Seq<char>>::empty(),
        config.watch_directives(false) == Seq::<Seq<char>>::empty(),
        config.build_args(false) == config.build_options() + config.common_switches(),
        config.format_args(false) == seq!["build"@] + config.common_switches(),
{
}

/// There is one file-watch directive for each path argument, in the order
/// of the arguments, and it names that argument; the switches get none.
pub proof fn lemma_one_directive_per_path(config: BuildConfiguration, default_models: bool)
    ensures
        config.watch_directives(default_models).len() == config.path_args(default_models).len(),
        forall|i: int|
            0 <= i < config.path_args(default_models).len() ==> #[trigger] config.watch_directives(
                default_models,
            )[i] == rerun_directive_spec(config.path_args(default_models)[i]),
        default_models ==> config.watch_directives(default_models)[0]
            == "cargo:rerun-if-changed=model/"@,
{
    if default_models {
        reveal_strlit("cargo:rerun-if-changed=");
        reveal_strlit("model/");
        reveal_strlit("cargo:rerun-if-changed=model/");
        assert("cargo:rerun-if-changed="@ + "model/"@ =~= "cargo:rerun-if-changed=model/"@);
    }
}

/// With configuration discovery switched off and no configuration file added,
/// the build's command line holds `--no-config` and no `--config`, as long as
/// neither the projection nor the plugin nor a model is itself called
/// `--config`.
pub proof fn lemma_no_config(config: BuildConfiguration, default_models: bool)
    requires
        config.rooted(),
        config.no_config,
        config.configs.len() == 0,
        config.projection != Some("--config"@),
        config.plugin != Some("--config"@),
        !config.models.contains("--config"@),
    ensures
        config.build_args(default_models).contains("--no-config"@),
        !config.build_args(default_models).contains("--config"@),
{
    lemma_option_names_differ();
    let x = "--config"@;
    let head = seq!["build"@, "--output"@, config.out_dir];
    let projection = valued("--projection"@, config.projection);
    let plugin = valued("--plugin"@, config.plugin);
    let files = config_options(config.configs);
    let off = switch(config.no_config, "--no-config"@);
    let aut = switch(config.allow_unknown_traits, "--aut"@);
    let color = switch(config.force_color, "--force-color"@);
    let debug = switch(config.debug, "--debug"@);
    let quiet = switch(config.quiet, "--quiet"@);
    let models = switch(default_models, "model/"@);
    assert(config.out_dir != x) by {
        reveal_strlit("--config");
    }
    assert(!head.contains(x));
    lemma_valued_contains("--projection"@, config.projection, x);
    lemma_valued_contains("--plugin"@, config.plugin, x);
    lemma_switch_contains(config.no_config, "--no-config"@, x);
    lemma_switch_contains(config.no_config, "--no-config"@, "--no-config"@);
    lemma_switch_contains(config.allow_unknown_traits, "--aut"@, x);
    lemma_switch_contains(config.force_color, "--force-color"@, x);
    lemma_switch_contains(config.debug, "--debug"@, x);
    lemma_switch_contains(config.quiet, "--quiet"@, x);
    lemma_switch_contains(default_models, "model/"@, x);
    let to_projection = head + projection;
    let to_plugin = to_projection + plugin;
    let to_files = to_plugin + files;
    let to_off = to_files + off;
    let to_aut = to_off + aut;
    let options = to_aut + color;
    lemma_concat_contains(head, projection, x);
    lemma_concat_contains(to_projection, plugin, x);
    lemma_concat_contains(to_plugin, files, x);
    lemma_concat_contains(to_files, off, x);
    lemma_concat_contains(to_off, aut, x);
    lemma_concat_contains(to_aut, color, x);
    lemma_concat_contains(to_files, off, "--no-config"@);
    lemma_concat_contains(to_off, aut, "--no-config"@);
    lemma_concat_contains(to_aut, color, "--no-config"@);
    lemma_concat_contains(debug, quiet, x);
    lemma_concat_contains(models, config.models, x);
    lemma_concat_contains(debug + quiet, models + config.models, x);
    lemma_concat_contains(options, config.common_args(default_models), x);
    lemma_concat_contains(options, config.common_args(default_models), "--no-config"@);
}

/// The option names are different from `--config`.
proof fn lemma_option_names_differ()
    ensures
        "build"@ != "--config"@,
        "--output"@ != "--config"@,
        "--projection"@ != "--config"@,
        "--plugin"@ != "--config"@,
        "--no-config"@ != "--config"@,
        "--aut"@ != "--config"@,
        "--force-color"@ != "--config"@,
        "--debug"@ != "--config"@,
        "--quiet"@ != "--config"@,
        "model/"@ != "--config"@,
{
    reveal_strlit("--config");
    reveal_strlit("build");
    reveal_strlit("--output");
    reveal_strlit("--projection");
    reveal_strlit("--plugin");
    reveal_strlit("--no-config");
    reveal_strlit("--aut");
    reveal_strlit("--force-color");
    reveal_strlit("--debug");
    reveal_strlit("--quiet");
    reveal_strlit("model/");
    assert("--plugin"@[2] != "--config"@[2]);
}

/// What a concatenation holds is what its two parts hold.
proof fn lemma_concat_contains(a: Seq<Seq<char>>, b: Seq<Seq<char>>, x: Seq<char>)
    ensures
        (a + b).contains(x) <==> a.contains(x) || b.contains(x),
{
    if a.contains(x) {
        let i = choose|i: int| 0 <= i < a.len() && a[i] == x;
        assert((a + b)[i] == x);
    }
    if b.contains(x) {
        let i = choose|i: int| 0 <= i < b.len() && b[i] == x;
        assert((a + b)[a.len() + i] == x);
    }
}

/// A switch holds its name when it is set, and nothing else.
proof fn lemma_switch_contains(set: bool, name: Seq<char>, x: Seq<char>)
    ensures
        switch(set, name).contains(x) <==> set && name == x,
{
    if set {
        assert(switch(set, name)[0] == name);
    }
}

/// An option holds its name and its value when one was chosen, and nothing
/// else.
proof fn lemma_valued_contains(name: Seq<char>, value: Option<Seq<char>>, x: Seq<char>)
    ensures
        valued(name, value).contains(x) <==> value is Some && (name == x || value == Some(x)),
{
    if let Some(v) = value {
        let s = valued(name, value);
        assert(s[0] == name && s[1] == v);
    }
}

} // verus!
