//! Validation of a merged configuration against the file system and the
//! environment.
//!
//! The checks run in a fixed order, and the first that fails ends the run:
//! the four tool binaries, the signing key, the two directories. This module
//! looks nothing up itself. `Config::validate` is one decision of a run: it
//! takes the stage at which the run stands and what was found outside for it,
//! brings the finding into the configuration, and names the next stage and
//! what has to be looked up for it. The caller performs the lookup and calls
//! again, until no request is left.

use crate::config::{Config, ConfigView, EnvOptionsView};
use crate::error::{ConfigError, Directory, Tool};
use vstd::prelude::*;

verus! {

/// Something that has to be looked up outside. The answer to each is a text,
/// or nothing where the lookup fails.
#[derive(Debug, Clone, PartialEq, Eq)]
pub enum Request {
    /// Search the executable search path for `program`; the answer is the
    /// absolute path of the executable.
    SearchPath { program: String },
    /// Resolve `path` to the absolute path of an existing file.
    ResolveBinary { path: String },
    /// Read the environment variable `name`; the answer is its value.
    Variable { name: String },
    /// Find out whether a file exists at `path`; the answer is `path`.
    FileExists { path: String },
    /// Resolve `path` to the canonical, absolute path of an existing directory.
    Canonicalize { path: String },
}

/// The view of a `Request`.
pub enum RequestView {
    SearchPath { program: Seq<char> },
    ResolveBinary { path: Seq<char> },
    Variable { name: Seq<char> },
    FileExists { path: Seq<char> },
    Canonicalize { path: Seq<char> },
}

impl View for Request {
    type V = RequestView;

    open spec fn view(&self) -> RequestView {
        match self {
            Request::SearchPath { program } => RequestView::SearchPath { program: program@ },
            Request::ResolveBinary { path } => RequestView::ResolveBinary { path: path@ },
            Request::Variable { name } => RequestView::Variable { name: name@ },
            Request::FileExists { path } => RequestView::FileExists { path: path@ },
            Request::Canonicalize { path } => RequestView::Canonicalize { path: path@ },
        }
    }
}

/// Where a validation run stands.
#[derive(Debug, Clone, Copy, PartialEq, Eq, Structural)]
pub enum Stage {
    /// Nothing has been checked yet.
    Start,
    /// The binary of a tool is being looked up.
    Binary(Tool),
    /// The environment variable that may hold the signing key is being read.
    KeyVariable,
    /// The file that may hold the signing key is being looked up.
    KeyFile,
    /// A directory is being resolved.
    Directory(Directory),
    /// Every check that was asked for has passed.
    Passed,
    /// A check has failed. No later check has run.
    Failed(ConfigError),
}

/// The name of the executable of `tool`, as it is searched for.
pub open spec fn program_name(tool: Tool) -> Seq<char> {
    match tool {
        Tool::SevenZip => "7z"@,
        Tool::MakeNsis => "makensis"@,
        Tool::Pandoc => "pandoc"@,
        Tool::PdbCopy => "pdbcopy"@,
    }
}

/// The name of the environment variable that may hold the signing key.
pub open spec fn signing_key_variable() -> Seq<char> {
    "UPDATER_PRIVATE_KEY"@
}

/// The tool that is checked after `tool`, if any.
pub open spec fn tool_after(tool: Tool) -> Option<Tool> {
    match tool {
        Tool::PdbCopy => Some(Tool::MakeNsis),
        Tool::MakeNsis => Some(Tool::SevenZip),
        Tool::SevenZip => Some(Tool::Pandoc),
        Tool::Pandoc => None,
    }
}

impl ConfigView {
    /// The configured path of `tool`.
    pub open spec fn tool_path(self, tool: Tool) -> Seq<char> {
        match tool {
            Tool::SevenZip => self.env.sevenzip_path,
            Tool::MakeNsis => self.env.makensis_path,
            Tool::Pandoc => self.env.pandoc_path,
            Tool::PdbCopy => self.env.pdbcopy_path,
        }
    }

    /// This configuration with `path` as the path of `tool`.
    pub open spec fn with_tool_path(self, tool: Tool, path: Seq<char>) -> ConfigView {
        ConfigView {
            env: match tool {
                Tool::SevenZip => EnvOptionsView { sevenzip_path: path, ..self.env },
                Tool::MakeNsis => EnvOptionsView { makensis_path: path, ..self.env },
                Tool::Pandoc => EnvOptionsView { pandoc_path: path, ..self.env },
                Tool::PdbCopy => EnvOptionsView { pdbcopy_path: path, ..self.env },
            },
            ..self
        }
    }

    /// The configured path of `dir`.
    pub open spec fn directory(self, dir: Directory) -> Seq<char> {
        match dir {
            Directory::Input => self.env.input_dir,
            Directory::Previous => self.env.previous_dir,
        }
    }

    /// This configuration with `path` as the path of `dir`.
    pub open spec fn with_directory(self, dir: Directory, path: Seq<char>) -> ConfigView {
        ConfigView {
            env: match dir {
                Directory::Input => EnvOptionsView { input_dir: path, ..self.env },
                Directory::Previous => EnvOptionsView { previous_dir: path, ..self.env },
            },
            ..self
        }
    }

    /// What has to be looked up for `tool`: a tool without a configured path
    /// is searched for by its name, a configured path is resolved.
    pub open spec fn binary_request(self, tool: Tool) -> RequestView {
        if self.tool_path(tool).len() == 0 {
            RequestView::SearchPath { program: program_name(tool) }
        } else {
            RequestView::ResolveBinary { path: self.tool_path(tool) }
        }
    }

    /// What has to be looked up at `stage`; nothing before the first check
    /// and after the last.
    pub open spec fn request_at(self, stage: Stage) -> Option<RequestView> {
        match stage {
            Stage::Binary(tool) => Some(self.binary_request(tool)),
            Stage::KeyVariable => Some(RequestView::Variable { name: signing_key_variable() }),
            Stage::KeyFile => Some(
                RequestView::FileExists { path: self.package.updater.private_key },
            ),
            Stage::Directory(dir) => Some(RequestView::Canonicalize { path: self.directory(dir) }),
            Stage::Start | Stage::Passed | Stage::Failed(_) => None,
        }
    }

    /// The stage that follows the signing key: the directories, where paths
    /// are checked. The signing of binaries has nothing to check in between.
    pub open spec fn after_signing_key(check_paths: bool) -> Stage {
        if check_paths {
            Stage::Directory(Directory::Input)
        } else {
            Stage::Passed
        }
    }

    /// The stage that follows the binaries: the signing key, unless the
    /// signing of the manifest is skipped.
    pub open spec fn after_binaries(self, check_paths: bool) -> Stage {
        if !self.package.updater.skip_sign {
            Stage::KeyVariable
        } else {
            Self::after_signing_key(check_paths)
        }
    }

    /// One decision of a validation run: the configuration and the stage that
    /// follow from `stage` and from what was found for its request.
    ///
    /// A binary or directory that was found takes the place of the configured
    /// path, and the next check follows; one that was not found fails the run.
    /// The signing key is looked for in the environment first, and in its file
    /// only where the variable is not set. A run that has ended stays as it is.
    pub open spec fn step(
        self,
        check_binaries: bool,
        check_paths: bool,
        stage: Stage,
        finding: Option<Seq<char>>,
    ) -> (ConfigView, Stage) {
        match stage {
            Stage::Start => if check_binaries {
                (self, Stage::Binary(Tool::PdbCopy))
            } else {
                (self, self.after_binaries(check_paths))
            },
            Stage::Binary(tool) => match finding {
                Some(path) => {
                    let resolved = self.with_tool_path(tool, path);
                    match tool_after(tool) {
                        Some(next) => (resolved, Stage::Binary(next)),
                        None => (resolved, resolved.after_binaries(check_paths)),
                    }
                },
                None => (self, Stage::Failed(ConfigError::BinaryNotFound(tool))),
            },
            Stage::KeyVariable => match finding {
                Some(_) => (self, Self::after_signing_key(check_paths)),
                None => (self, Stage::KeyFile),
            },
            Stage::KeyFile => match finding {
                Some(_) => (self, Self::after_signing_key(check_paths)),
                None => (self, Stage::Failed(ConfigError::SigningKeyMissing)),
            },
            Stage::Directory(dir) => match finding {
                Some(path) => {
                    let resolved = self.with_directory(dir, path);
                    match dir {
                        Directory::Input => (resolved, Stage::Directory(Directory::Previous)),
                        Directory::Previous => (resolved, Stage::Passed),
                    }
                },
                None => (self, Stage::Failed(ConfigError::DirectoryNotFound(dir))),
            },
            Stage::Passed | Stage::Failed(_) => (self, stage),
        }
    }
}

/// The view of what may be a request.
pub open spec fn request_view(request: Option<Request>) -> Option<RequestView> {
    match request {
        Some(r) => Some(r@),
        None => None,
    }
}

impl Tool {
    /// The name of the executable of this tool, as it is searched for.
    pub fn program(&self) -> (name: String)
        ensures
            name@ == program_name(*self),
    {
        match self {
            Tool::SevenZip => "7z".to_owned(),
            Tool::MakeNsis => "makensis".to_owned(),
            Tool::Pandoc => "pandoc".to_owned(),
            Tool::PdbCopy => "pdbcopy".to_owned(),
        }
    }
}

impl Config {
    /// The configured path of `tool`.
    pub fn tool_path(&self, tool: Tool) -> (path: &String)
        ensures
            path@ == self@.tool_path(tool),
    {
        match tool {
            Tool::SevenZip => &self.env.sevenzip_path,
            Tool::MakeNsis => &self.env.makensis_path,
            Tool::Pandoc => &self.env.pandoc_path,
            Tool::PdbCopy => &self.env.pdbcopy_path,
        }
    }

    /// Sets the path of `tool`.
    pub fn set_tool_path(&mut self, tool: Tool, path: String)
        ensures
            final(self)@ == old(self)@.with_tool_path(tool, path@),
    {
        match tool {
            Tool::SevenZip => {
                self.env.sevenzip_path = path;
            },
            Tool::MakeNsis => {
                self.env.makensis_path = path;
            },
            Tool::Pandoc => {
                self.env.pandoc_path = path;
            },
            Tool::PdbCopy => {
                self.env.pdbcopy_path = path;
            },
        }
    }

    /// What has to be looked up at `stage`.
    pub fn request_at(&self, stage: Stage) -> (request: Option<Request>)
        ensures
            request_view(request) == self@.request_at(stage),
    {
        match stage {
            Stage::Binary(tool) => {
                let configured = self.tool_path(tool);
                if configured.as_str().is_empty() {
                    Some(Request::SearchPath { program: tool.program() })
                } else {
                    Some(Request::ResolveBinary { path: configured.clone() })
                }
            },
            Stage::KeyVariable => Some(
                Request::Variable { name: "UPDATER_PRIVATE_KEY".to_owned() },
            ),
            Stage::KeyFile => Some(
                Request::FileExists { path: self.package.updater.private_key.clone() },
            ),
            Stage::Directory(Directory::Input) => Some(
                Request::Canonicalize { path: self.env.input_dir.clone() },
            ),
            Stage::Directory(Directory::Previous) => Some(
                Request::Canonicalize { path: self.env.previous_dir.clone() },
            ),
            _ => None,
        }
    }

    /// The stage that follows the binaries.
    fn after_binaries(&self, check_paths: bool) -> (stage: Stage)
        ensures
            stage == self@.after_binaries(check_paths),
    {
        if !self.package.updater.skip_sign {
            Stage::KeyVariable
        } else {
            after_signing_key(check_paths)
        }
    }

    /// One decision of a validation run.
    ///
    /// Takes the stage at which the run stands and what was found for the
    /// request of that stage: the text, or nothing where the lookup failed.
    /// A run begins at `Stage::Start`, where the finding does not count.
    /// Returns the stage that follows and the request that has to be looked
    /// up for it. No request is left when the run has passed or failed.
    pub fn validate(
        &mut self,
        check_binaries: bool,
        check_paths: bool,
        stage: Stage,
        finding: Option<String>,
    ) -> (next: (Stage, Option<Request>))
        ensures
            (final(self)@, next.0) == old(self)@.step(
                check_binaries,
                check_paths,
                stage,
                finding.deep_view(),
            ),
            request_view(next.1) == final(self)@.request_at(next.0),
            next.1.is_none() <==> next.0 == Stage::Passed || next.0 is Failed,
    {
        let following = match stage {
            Stage::Start => if check_binaries {
                Stage::Binary(Tool::PdbCopy)
            } else {
                self.after_binaries(check_paths)
            },
            Stage::Binary(tool) => match finding {
                Some(path) => {
                    self.set_tool_path(tool, path);
                    match tool {
                        Tool::PdbCopy => Stage::Binary(Tool::MakeNsis),
                        Tool::MakeNsis => Stage::Binary(Tool::SevenZip),
                        Tool::SevenZip => Stage::Binary(Tool::Pandoc),
                        Tool::Pandoc => self.after_binaries(check_paths),
                    }
                },
                None => Stage::Failed(ConfigError::BinaryNotFound(tool)),
            },
            Stage::KeyVariable => match finding {
                Some(_) => after_signing_key(check_paths),
                None => Stage::KeyFile,
            },
            Stage::KeyFile => match finding {
                Some(_) => after_signing_key(check_paths),
                None => Stage::Failed(ConfigError::SigningKeyMissing),
            },
            Stage::Directory(Directory::Input) => match finding {
                Some(path) => {
                    self.env.input_dir = path;
                    Stage::Directory(Directory::Previous)
                },
                None => Stage::Failed(ConfigError::DirectoryNotFound(Directory::Input)),
            },
            Stage::Directory(Directory::Previous) => match finding {
                Some(path) => {
                    self.env.previous_dir = path;
                    Stage::Passed
                },
                None => Stage::Failed(ConfigError::DirectoryNotFound(Directory::Previous)),
            },
            Stage::Passed => Stage::Passed,
            Stage::Failed(e) => Stage::Failed(e),
        };
        let request = self.request_at(following);
        (following, request)
    }
}

/// The stage that follows the signing key.
fn after_signing_key(check_paths: bool) -> (stage: Stage)
    ensures
        stage == ConfigView::after_signing_key(check_paths),
{
    if check_paths {
        Stage::Directory(Directory::Input)
    } else {
        Stage::Passed
    }
}

} // verus!
