//! What a validation run comes to.
//!
//! The outside is taken as a function from requests to findings. `run` drives
//! the decisions of `ConfigView::step` against it to the end. `validated`
//! says in one piece what validation is: the binaries, then the signing key,
//! then the directories, the first failure ending it. The two agree, and what
//! holds of every validation is proved of `validated`.

use crate::config::ConfigView;
use crate::error::{ConfigError, Directory, Tool};
use crate::validate::{program_name, signing_key_variable, tool_after, RequestView, Stage};
use vstd::prelude::*;

verus! {

/// What is found outside for each request: a text, or nothing.
pub type World = spec_fn(RequestView) -> Option<Seq<char>>;

/// The place of a stage in the order of a run.
pub open spec fn rank(stage: Stage) -> nat {
    match stage {
        Stage::Start => 0,
        Stage::Binary(Tool::PdbCopy) => 1,
        Stage::Binary(Tool::MakeNsis) => 2,
        Stage::Binary(Tool::SevenZip) => 3,
        Stage::Binary(Tool::Pandoc) => 4,
        Stage::KeyVariable => 5,
        Stage::KeyFile => 6,
        Stage::Directory(Directory::Input) => 7,
        Stage::Directory(Directory::Previous) => 8,
        Stage::Passed => 9,
        Stage::Failed(_) => 9,
    }
}

/// The configuration and the stage at which the run ends that stands at
/// `stage` with `finding`, where `world` answers every request.
pub open spec fn run(
    config: ConfigView,
    check_binaries: bool,
    check_paths: bool,
    stage: Stage,
    finding: Option<Seq<char>>,
    world: World,
) -> (ConfigView, Stage)
    decreases 9 - rank(stage),
{
    let (next_config, next_stage) = config.step(check_binaries, check_paths, stage, finding);
    match next_config.request_at(next_stage) {
        Some(request) => run(
            next_config,
            check_binaries,
            check_paths,
            next_stage,
            world(request),
            world,
        ),
        None => (next_config, next_stage),
    }
}

/// Every decision that leaves a request moves the run forward in the order.
pub proof fn lemma_step_advances(
    config: ConfigView,
    check_binaries: bool,
    check_paths: bool,
    stage: Stage,
    finding: Option<Seq<char>>,
)
    ensures
        ({
            let (next_config, next_stage) = config.step(check_binaries, check_paths, stage, finding);
            next_config.request_at(next_stage).is_some() ==> rank(next_stage) > rank(stage)
        }),
{
}

/// The configuration with the binary of `tool` resolved: what is found for
/// its request takes the place of the configured path.
pub open spec fn binary_resolved(config: ConfigView, tool: Tool, world: World) -> Result<
    ConfigView,
    ConfigError,
> {
    match world(config.binary_request(tool)) {
        Some(path) => Ok(config.with_tool_path(tool, path)),
        None => Err(ConfigError::BinaryNotFound(tool)),
    }
}

/// The configuration with the binaries resolved from `tool` on, in the order
/// of the checks. The first that is not found fails.
pub open spec fn binaries_resolved_from(config: ConfigView, tool: Tool, world: World) -> Result<
    ConfigView,
    ConfigError,
>
    decreases 4 - rank(Stage::Binary(tool)),
{
    match binary_resolved(config, tool, world) {
        Ok(resolved) => match tool_after(tool) {
            Some(next) => binaries_resolved_from(resolved, next, world),
            None => Ok(resolved),
        },
        Err(e) => Err(e),
    }
}

/// Whether a signing key is at hand: in the environment, or in the
/// configured file.
pub open spec fn signing_key_at_hand(config: ConfigView, world: World) -> bool {
    world(RequestView::Variable { name: signing_key_variable() }).is_some() || world(
        RequestView::FileExists { path: config.package.updater.private_key },
    ).is_some()
}

/// The configuration with `dir` resolved: its canonical form takes the place
/// of the configured path.
pub open spec fn directory_resolved(config: ConfigView, dir: Directory, world: World) -> Result<
    ConfigView,
    ConfigError,
> {
    match world(RequestView::Canonicalize { path: config.directory(dir) }) {
        Some(path) => Ok(config.with_directory(dir, path)),
        None => Err(ConfigError::DirectoryNotFound(dir)),
    }
}

/// The configuration with the input directory resolved, then the directory
/// of the previous releases. The output directory is left as it is.
pub open spec fn directories_resolved(config: ConfigView, world: World) -> Result<
    ConfigView,
    ConfigError,
> {
    match directory_resolved(config, Directory::Input, world) {
        Ok(resolved) => directory_resolved(resolved, Directory::Previous, world),
        Err(e) => Err(e),
    }
}

/// What comes after the binaries: the signing key, where the manifest is
/// signed, then the directories, where paths are checked.
pub open spec fn validated_after_binaries(config: ConfigView, check_paths: bool, world: World) -> Result<
    ConfigView,
    ConfigError,
> {
    if !config.package.updater.skip_sign && !signing_key_at_hand(config, world) {
        Err(ConfigError::SigningKeyMissing)
    } else if check_paths {
        directories_resolved(config, world)
    } else {
        Ok(config)
    }
}

/// The validated configuration, or the first failure.
///
/// Where binaries are checked, the four tools are resolved in order. Where
/// the manifest is signed, a signing key has to be at hand. Where paths
/// are checked, the input directory and the directory of the previous
/// releases are resolved, in this order.
pub open spec fn validated(
    config: ConfigView,
    check_binaries: bool,
    check_paths: bool,
    world: World,
) -> Result<ConfigView, ConfigError> {
    if check_binaries {
        match binaries_resolved_from(config, Tool::PdbCopy, world) {
            Ok(resolved) => validated_after_binaries(resolved, check_paths, world),
            Err(e) => Err(e),
        }
    } else {
        validated_after_binaries(config, check_paths, world)
    }
}

/// Whether a run that ended with `config` at `stage` came to `outcome`.
pub open spec fn ends_as(end: (ConfigView, Stage), outcome: Result<ConfigView, ConfigError>) -> bool {
    match outcome {
        Ok(config) => end.1 == Stage::Passed && end.0 == config,
        Err(e) => end.1 == Stage::Failed(e),
    }
}

/// A run that stands at a directory ends as the resolution of that directory
/// and of those after it.
proof fn lemma_run_from_directory(
    config: ConfigView,
    check_binaries: bool,
    check_paths: bool,
    dir: Directory,
    world: World,
)
    ensures
        ends_as(
            run(
                config,
                check_binaries,
                check_paths,
                Stage::Directory(dir),
                world(RequestView::Canonicalize { path: config.directory(dir) }),
                world,
            ),
            match dir {
                Directory::Input => directories_resolved(config, world),
                Directory::Previous => directory_resolved(config, Directory::Previous, world),
            },
        ),
    decreases 9 - rank(Stage::Directory(dir)),
{
    let finding = world(RequestView::Canonicalize { path: config.directory(dir) });
    if dir == Directory::Input && finding.is_some() {
        let resolved = config.with_directory(dir, finding.unwrap());
        lemma_run_from_directory(resolved, check_binaries, check_paths, Directory::Previous, world);
    }
}

/// A run that has the signing key behind it ends as the resolution of the
/// directories, where paths are checked, and passes where they are not.
proof fn lemma_run_after_signing_key(
    config: ConfigView,
    check_binaries: bool,
    check_paths: bool,
    stage: Stage,
    finding: Option<Seq<char>>,
    world: World,
)
    requires
        config.step(check_binaries, check_paths, stage, finding) == (
            config,
            ConfigView::after_signing_key(check_paths),
        ),
    ensures
        ends_as(
            run(config, check_binaries, check_paths, stage, finding, world),
            if check_paths {
                directories_resolved(config, world)
            } else {
                Ok(config)
            },
        ),
{
    if check_paths {
        lemma_run_from_directory(config, check_binaries, check_paths, Directory::Input, world);
    }
}

/// A run that has the binaries behind it ends as what comes after them.
proof fn lemma_run_after_binaries(
    before: ConfigView,
    config: ConfigView,
    check_binaries: bool,
    check_paths: bool,
    stage: Stage,
    finding: Option<Seq<char>>,
    world: World,
)
    requires
        before.step(check_binaries, check_paths, stage, finding) == (
            config,
            config.after_binaries(check_paths),
        ),
    ensures
        ends_as(
            run(before, check_binaries, check_paths, stage, finding, world),
            validated_after_binaries(config, check_paths, world),
        ),
{
    if config.package.updater.skip_sign {
        if check_paths {
            lemma_run_from_directory(config, check_binaries, check_paths, Directory::Input, world);
        }
    } else {
        let in_environment = world(RequestView::Variable { name: signing_key_variable() });
        let in_file = world(RequestView::FileExists { path: config.package.updater.private_key });
        if in_environment.is_some() {
            lemma_run_after_signing_key(
                config,
                check_binaries,
                check_paths,
                Stage::KeyVariable,
                in_environment,
                world,
            );
        } else {
            assert(run(config, check_binaries, check_paths, Stage::KeyVariable, in_environment, world)
                == run(config, check_binaries, check_paths, Stage::KeyFile, in_file, world));
            if in_file.is_some() {
                lemma_run_after_signing_key(
                    config,
                    check_binaries,
                    check_paths,
                    Stage::KeyFile,
                    in_file,
                    world,
                );
            }
        }
    }
}

/// A run that stands at the binary of `tool` ends as the resolution of the
/// binaries from `tool` on and what comes after them.
proof fn lemma_run_from_binary(
    config: ConfigView,
    check_binaries: bool,
    check_paths: bool,
    tool: Tool,
    world: World,
)
    ensures
        ends_as(
            run(
                config,
                check_binaries,
                check_paths,
                Stage::Binary(tool),
                world(config.binary_request(tool)),
                world,
            ),
            match binaries_resolved_from(config, tool, world) {
                Ok(resolved) => validated_after_binaries(resolved, check_paths, world),
                Err(e) => Err(e),
            },
        ),
    decreases 4 - rank(Stage::Binary(tool)),
{
    let finding = world(config.binary_request(tool));
    if finding.is_some() {
        let resolved = config.with_tool_path(tool, finding.unwrap());
        match tool_after(tool) {
            Some(next) => {
                lemma_run_from_binary(resolved, check_binaries, check_paths, next, world);
            },
            None => {
                lemma_run_after_binaries(
                    config,
                    resolved,
                    check_binaries,
                    check_paths,
                    Stage::Binary(tool),
                    finding,
                    world,
                );
            },
        }
    }
}

/// A run from the start, in which every request is answered as `world` says,
/// ends as `validated` says: it passes with the validated configuration, or
/// it fails with the first failure.
pub proof fn lemma_run_is_validated(
    config: ConfigView,
    check_binaries: bool,
    check_paths: bool,
    world: World,
)
    ensures
        ends_as(
            run(config, check_binaries, check_paths, Stage::Start, None, world),
            validated(config, check_binaries, check_paths, world),
        ),
{
    if check_binaries {
        lemma_run_from_binary(config, check_binaries, check_paths, Tool::PdbCopy, world);
    } else {
        lemma_run_after_binaries(
            config,
            config,
            check_binaries,
            check_paths,
            Stage::Start,
            None,
            world,
        );
    }
}

/// Whether `earlier` is checked before `later`.
pub open spec fn checked_before(earlier: Tool, later: Tool) -> bool {
    rank(Stage::Binary(earlier)) < rank(Stage::Binary(later))
}

/// Whether two configurations differ at most in the paths of the tools.
pub open spec fn same_but_tools(a: ConfigView, b: ConfigView) -> bool {
    &&& a.env.branch == b.env.branch
    &&& a.env.input_dir == b.env.input_dir
    &&& a.env.output_dir == b.env.output_dir
    &&& a.env.previous_dir == b.env.previous_dir
    &&& a.prepare == b.prepare
    &&& a.generate == b.generate
    &&& a.package == b.package
    &&& a.post == b.post
    &&& a.obs_version == b.obs_version
}

/// Resolving the binaries from `tool` on changes the paths of these tools
/// and nothing else: the path of each is what was found for it, and its
/// request was the one of the configuration before.
proof fn lemma_binaries_resolved_from(config: ConfigView, tool: Tool, world: World)
    ensures
        match binaries_resolved_from(config, tool, world) {
            Ok(resolved) => {
                &&& same_but_tools(resolved, config)
                &&& forall|t: Tool|
                    #![trigger resolved.tool_path(t)]
                    if checked_before(t, tool) {
                        resolved.tool_path(t) == config.tool_path(t)
                    } else {
                        world(config.binary_request(t)) == Some(resolved.tool_path(t))
                    }
            },
            Err(e) => exists|t: Tool|
                {
                    &&& e == ConfigError::BinaryNotFound(t)
                    &&& !checked_before(t, tool)
                    &&& world(#[trigger] config.binary_request(t)).is_none()
                    &&& forall|b: Tool|
                        #![trigger config.binary_request(b)]
                        !checked_before(b, tool) && checked_before(b, t) ==> world(
                            config.binary_request(b),
                        ).is_some()
                },
        },
    decreases 4 - rank(Stage::Binary(tool)),
{
    match binary_resolved(config, tool, world) {
        Ok(first) => {
            assert forall|t: Tool| t != tool implies #[trigger] first.binary_request(t)
                == config.binary_request(t) by {}
            match tool_after(tool) {
                Some(next) => {
                    lemma_binaries_resolved_from(first, next, world);
                },
                None => {},
            }
        },
        Err(_) => {},
    }
}

/// Where binaries are checked and one is not found, validation fails with
/// the first tool in the order of the checks whose binary is not found, and
/// names it.
pub proof fn lemma_first_missing_binary_fails(
    config: ConfigView,
    check_paths: bool,
    tool: Tool,
    world: World,
)
    requires
        world(config.binary_request(tool)).is_none(),
        forall|earlier: Tool|
            #![trigger config.binary_request(earlier)]
            checked_before(earlier, tool) ==> world(config.binary_request(earlier)).is_some(),
    ensures
        validated(config, true, check_paths, world) == Err::<ConfigView, ConfigError>(
            ConfigError::BinaryNotFound(tool),
        ),
{
    lemma_binaries_resolved_from(config, Tool::PdbCopy, world);
    match binaries_resolved_from(config, Tool::PdbCopy, world) {
        Ok(resolved) => {
            assert(world(config.binary_request(tool)) == Some(resolved.tool_path(tool)));
        },
        Err(_) => {},
    }
}

/// Where binaries are checked, a tool without a configured path whose
/// program is not on the search path fails validation and is named, unless
/// a tool that is checked before it fails already.
pub proof fn lemma_unconfigured_tool_not_found(
    config: ConfigView,
    check_paths: bool,
    tool: Tool,
    world: World,
)
    requires
        config.tool_path(tool).len() == 0,
        world(RequestView::SearchPath { program: program_name(tool) }).is_none(),
        forall|earlier: Tool|
            #![trigger config.binary_request(earlier)]
            checked_before(earlier, tool) ==> world(config.binary_request(earlier)).is_some(),
    ensures
        validated(config, true, check_paths, world) == Err::<ConfigView, ConfigError>(
            ConfigError::BinaryNotFound(tool),
        ),
{
    lemma_first_missing_binary_fails(config, check_paths, tool, world);
}

/// A signing key in the environment spares the look at the key file: what
/// validation comes to does not depend on whether the file exists, and it is
/// not the failure for want of a key.
pub proof fn lemma_key_in_environment_spares_file(
    config: ConfigView,
    check_binaries: bool,
    check_paths: bool,
    world: World,
    other: World,
)
    requires
        world(RequestView::Variable { name: signing_key_variable() }).is_some(),
        forall|request: RequestView|
            !(request is FileExists) ==> #[trigger] other(request) == world(request),
    ensures
        validated(config, check_binaries, check_paths, other) == validated(
            config,
            check_binaries,
            check_paths,
            world,
        ),
        validated(config, check_binaries, check_paths, world) != Err::<ConfigView, ConfigError>(
            ConfigError::SigningKeyMissing,
        ),
{
    lemma_binaries_in_both(config, Tool::PdbCopy, world, other);
    lemma_binaries_resolved_from(config, Tool::PdbCopy, world);
    let after = if check_binaries {
        binaries_resolved_from(config, Tool::PdbCopy, world)
    } else {
        Ok(config)
    };
    if after.is_ok() {
        let c = after.unwrap();
        assert(other(RequestView::Canonicalize { path: c.directory(Directory::Input) }) == world(
            RequestView::Canonicalize { path: c.directory(Directory::Input) },
        ));
        if directory_resolved(c, Directory::Input, world).is_ok() {
            let d = directory_resolved(c, Directory::Input, world).unwrap();
            assert(other(RequestView::Canonicalize { path: d.directory(Directory::Previous) })
                == world(RequestView::Canonicalize { path: d.directory(Directory::Previous) }));
        }
    }
}

/// Two worlds that find the same binaries resolve them alike.
proof fn lemma_binaries_in_both(config: ConfigView, tool: Tool, world: World, other: World)
    requires
        forall|request: RequestView|
            !(request is FileExists) ==> #[trigger] other(request) == world(request),
    ensures
        binaries_resolved_from(config, tool, other) == binaries_resolved_from(config, tool, world),
    decreases 4 - rank(Stage::Binary(tool)),
{
    match binary_resolved(config, tool, world) {
        Ok(first) => match tool_after(tool) {
            Some(next) => {
                lemma_binaries_in_both(first, next, world, other);
            },
            None => {},
        },
        Err(_) => {},
    }
}

/// A check that fails before the directories are looked at fails validation
/// in the same way where paths are checked: the first failure wins.
pub proof fn lemma_earlier_failure_wins(
    config: ConfigView,
    check_binaries: bool,
    world: World,
)
    requires
        validated(config, check_binaries, false, world).is_err(),
    ensures
        validated(config, check_binaries, true, world) == validated(
            config,
            check_binaries,
            false,
            world,
        ),
        validated(config, check_binaries, false, world) matches Err(e) ==> !(e is DirectoryNotFound),
{
    if check_binaries {
        lemma_binaries_resolved_from(config, Tool::PdbCopy, world);
    }
}

/// Where paths are checked and the input directory does not exist, validation
/// fails with the input directory, whatever holds of the directory of the
/// previous releases, unless a check before the directories fails already.
pub proof fn lemma_missing_input_directory_fails(
    config: ConfigView,
    check_binaries: bool,
    world: World,
)
    requires
        validated(config, check_binaries, false, world).is_ok(),
        world(RequestView::Canonicalize { path: config.env.input_dir }).is_none(),
    ensures
        validated(config, check_binaries, true, world) == Err::<ConfigView, ConfigError>(
            ConfigError::DirectoryNotFound(Directory::Input),
        ),
{
    if check_binaries {
        lemma_binaries_resolved_from(config, Tool::PdbCopy, world);
    }
}

/// A validation that passes leaves everything as it was but the paths that
/// it resolves. Where binaries are checked, the path of each tool is what
/// was found for it. Where paths are checked, the input directory and the
/// directory of the previous releases are what was found for them. The
/// output directory is never changed.
pub proof fn lemma_validated_paths(
    config: ConfigView,
    check_binaries: bool,
    check_paths: bool,
    world: World,
)
    requires
        validated(config, check_binaries, check_paths, world).is_ok(),
    ensures
        ({
            let valid = validated(config, check_binaries, check_paths, world).unwrap();
            &&& valid.env.branch == config.env.branch
            &&& valid.env.output_dir == config.env.output_dir
            &&& valid.prepare == config.prepare
            &&& valid.generate == config.generate
            &&& valid.package == config.package
            &&& valid.post == config.post
            &&& valid.obs_version == config.obs_version
            &&& forall|tool: Tool|
                #![trigger valid.tool_path(tool)]
                if check_binaries {
                    world(config.binary_request(tool)) == Some(valid.tool_path(tool))
                } else {
                    valid.tool_path(tool) == config.tool_path(tool)
                }
            &&& forall|dir: Directory|
                #![trigger valid.directory(dir)]
                if check_paths {
                    world(RequestView::Canonicalize { path: config.directory(dir) }) == Some(
                        valid.directory(dir),
                    )
                } else {
                    valid.directory(dir) == config.directory(dir)
                }
        }),
{
    if check_binaries {
        lemma_binaries_resolved_from(config, Tool::PdbCopy, world);
        let resolved = binaries_resolved_from(config, Tool::PdbCopy, world).unwrap();
        let valid = validated(config, check_binaries, check_paths, world).unwrap();
        assert forall|tool: Tool| #![trigger valid.tool_path(tool)]
            world(config.binary_request(tool)) == Some(valid.tool_path(tool)) by {
            assert(valid.tool_path(tool) == resolved.tool_path(tool));
        }
    }
}

/// Validating a validated configuration once more changes nothing, in a
/// world that finds each resolved path where it is: the binary of each tool
/// at its resolved path, each of the two directories at its canonical path.
pub proof fn lemma_validated_again(
    config: ConfigView,
    check_binaries: bool,
    check_paths: bool,
    world: World,
)
    requires
        validated(config, check_binaries, check_paths, world).is_ok(),
        ({
            let valid = validated(config, check_binaries, check_paths, world).unwrap();
            &&& forall|tool: Tool|
                world(#[trigger] valid.binary_request(tool)) == Some(valid.tool_path(tool))
            &&& forall|dir: Directory|
                world(RequestView::Canonicalize { path: #[trigger] valid.directory(dir) }) == Some(
                    valid.directory(dir),
                )
        }),
    ensures
        ({
            let valid = validated(config, check_binaries, check_paths, world).unwrap();
            validated(valid, check_binaries, check_paths, world) == Ok::<ConfigView, ConfigError>(
                valid,
            )
        }),
{
    let valid = validated(config, check_binaries, check_paths, world).unwrap();
    lemma_validated_paths(config, check_binaries, check_paths, world);
    if check_binaries {
        lemma_binaries_resolved_from(config, Tool::PdbCopy, world);
        lemma_settled_binaries(valid, Tool::PdbCopy, world);
    }
    if check_paths {
        assert(valid.with_directory(Directory::Input, valid.env.input_dir) == valid);
    }
}

/// Resolving binaries that are found where they are changes nothing.
proof fn lemma_settled_binaries(config: ConfigView, tool: Tool, world: World)
    requires
        forall|t: Tool| world(#[trigger] config.binary_request(t)) == Some(config.tool_path(t)),
    ensures
        binaries_resolved_from(config, tool, world) == Ok::<ConfigView, ConfigError>(config),
    decreases 4 - rank(Stage::Binary(tool)),
{
    match tool_after(tool) {
        Some(next) => {
            lemma_settled_binaries(config, next, world);
        },
        None => {},
    }
}

} // verus!
