//! The configuration of a packaging run, its defaults, and the merge of the
//! command line into it.
//!
//! Every type here has a view: the same record with each text as a sequence
//! of characters. The contracts are stated over the views.

use crate::error::ConfigError;
use crate::version::{canonical, canonical_version, parse_version, version_of};
use vstd::prelude::*;

verus! {

/// The branch that a configuration names where nothing else is said.
pub open spec fn default_branch() -> Seq<char> {
    "stable"@
}

/// The branch that a configuration names where nothing else is said.
pub fn get_default_branch() -> (branch: String)
    ensures
        branch@ == default_branch(),
{
    "stable".to_owned()
}

/// The version that is being packaged.
#[derive(Debug, Clone, PartialEq, Eq)]
pub struct ObsVersion {
    pub version_str: String,
    pub version_major: u8,
    pub version_minor: u8,
    pub version_patch: u8,
    pub beta: u8,
    pub rc: u8,
}

/// The view of an `ObsVersion`.
pub struct ObsVersionView {
    pub version_str: Seq<char>,
    pub version_major: u8,
    pub version_minor: u8,
    pub version_patch: u8,
    pub beta: u8,
    pub rc: u8,
}

impl View for ObsVersion {
    type V = ObsVersionView;

    open spec fn view(&self) -> ObsVersionView {
        ObsVersionView {
            version_str: self.version_str@,
            version_major: self.version_major,
            version_minor: self.version_minor,
            version_patch: self.version_patch,
            beta: self.beta,
            rc: self.rc,
        }
    }
}

impl ObsVersionView {
    /// The version of a configuration that names none: no text, all numbers zero.
    pub open spec fn initial() -> ObsVersionView {
        ObsVersionView {
            version_str: Seq::empty(),
            version_major: 0,
            version_minor: 0,
            version_patch: 0,
            beta: 0,
            rc: 0,
        }
    }
}

impl Default for ObsVersion {
    fn default() -> (r: ObsVersion)
        ensures
            r@ == ObsVersionView::initial(),
    {
        ObsVersion {
            version_str: String::new(),
            version_major: 0,
            version_minor: 0,
            version_patch: 0,
            beta: 0,
            rc: 0,
        }
    }
}

/// Where the build, the earlier releases and the external tools are.
#[derive(Debug, Clone, PartialEq, Eq)]
pub struct EnvOptions {
    pub branch: String,
    pub input_dir: String,
    pub output_dir: String,
    pub previous_dir: String,
    pub sevenzip_path: String,
    pub makensis_path: String,
    pub pandoc_path: String,
    pub pdbcopy_path: String,
}

/// The view of an `EnvOptions`.
pub struct EnvOptionsView {
    pub branch: Seq<char>,
    pub input_dir: Seq<char>,
    pub output_dir: Seq<char>,
    pub previous_dir: Seq<char>,
    pub sevenzip_path: Seq<char>,
    pub makensis_path: Seq<char>,
    pub pandoc_path: Seq<char>,
    pub pdbcopy_path: Seq<char>,
}

impl View for EnvOptions {
    type V = EnvOptionsView;

    open spec fn view(&self) -> EnvOptionsView {
        EnvOptionsView {
            branch: self.branch@,
            input_dir: self.input_dir@,
            output_dir: self.output_dir@,
            previous_dir: self.previous_dir@,
            sevenzip_path: self.sevenzip_path@,
            makensis_path: self.makensis_path@,
            pandoc_path: self.pandoc_path@,
            pdbcopy_path: self.pdbcopy_path@,
        }
    }
}

impl EnvOptionsView {
    /// The default branch, and no directory and no tool path.
    pub open spec fn initial() -> EnvOptionsView {
        EnvOptionsView {
            branch: default_branch(),
            input_dir: Seq::empty(),
            output_dir: Seq::empty(),
            previous_dir: Seq::empty(),
            sevenzip_path: Seq::empty(),
            makensis_path: Seq::empty(),
            pandoc_path: Seq::empty(),
            pdbcopy_path: Seq::empty(),
        }
    }
}

impl Default for EnvOptions {
    fn default() -> (r: EnvOptions)
        ensures
            r@ == EnvOptionsView::initial(),
    {
        EnvOptions {
            branch: get_default_branch(),
            input_dir: String::new(),
            output_dir: String::new(),
            previous_dir: String::new(),
            sevenzip_path: String::new(),
            makensis_path: String::new(),
            pandoc_path: String::new(),
            pdbcopy_path: String::new(),
        }
    }
}

/// Which files are copied from the build, and under which names.
#[derive(Debug, Clone, PartialEq, Eq)]
pub struct CopyOptions {
    pub excludes: Vec<String>,
    pub overrides: Vec<(String, String)>,
}

/// The view of a `CopyOptions`.
pub struct CopyOptionsView {
    pub excludes: Seq<Seq<char>>,
    pub overrides: Seq<(Seq<char>, Seq<char>)>,
}

impl View for CopyOptions {
    type V = CopyOptionsView;

    open spec fn view(&self) -> CopyOptionsView {
        CopyOptionsView {
            excludes: self.excludes.deep_view(),
            overrides: self.overrides.deep_view(),
        }
    }
}

impl CopyOptionsView {
    /// Nothing excluded, nothing renamed.
    pub open spec fn initial() -> CopyOptionsView {
        CopyOptionsView { excludes: Seq::empty(), overrides: Seq::empty() }
    }
}

impl Default for CopyOptions {
    fn default() -> (r: CopyOptions)
        ensures
            r@ == CopyOptionsView::initial(),
    {
        let r = CopyOptions { excludes: Vec::new(), overrides: Vec::new() };
        assert(r@.excludes =~= Seq::empty());
        assert(r@.overrides =~= Seq::empty());
        r
    }
}

/// How the binaries are signed.
#[derive(Debug, Clone, PartialEq, Eq)]
pub struct CodesignOptions {
    pub skip_sign: bool,
    pub sign_name: String,
    pub sign_digest: String,
    pub sign_ts_serv: String,
    pub sign_exts: Vec<String>,
}

/// The view of a `CodesignOptions`.
pub struct CodesignOptionsView {
    pub skip_sign: bool,
    pub sign_name: Seq<char>,
    pub sign_digest: Seq<char>,
    pub sign_ts_serv: Seq<char>,
    pub sign_exts: Seq<Seq<char>>,
}

impl View for CodesignOptions {
    type V = CodesignOptionsView;

    open spec fn view(&self) -> CodesignOptionsView {
        CodesignOptionsView {
            skip_sign: self.skip_sign,
            sign_name: self.sign_name@,
            sign_digest: self.sign_digest@,
            sign_ts_serv: self.sign_ts_serv@,
            sign_exts: self.sign_exts.deep_view(),
        }
    }
}

impl CodesignOptionsView {
    /// Signing is on; identity, digest, timestamp server and extensions are unset.
    pub open spec fn initial() -> CodesignOptionsView {
        CodesignOptionsView {
            skip_sign: false,
            sign_name: Seq::empty(),
            sign_digest: Seq::empty(),
            sign_ts_serv: Seq::empty(),
            sign_exts: Seq::empty(),
        }
    }
}

impl Default for CodesignOptions {
    fn default() -> (r: CodesignOptions)
        ensures
            r@ == CodesignOptionsView::initial(),
    {
        let r = CodesignOptions {
            skip_sign: false,
            sign_name: String::new(),
            sign_digest: String::new(),
            sign_ts_serv: String::new(),
            sign_exts: Vec::new(),
        };
        assert(r@.sign_exts =~= Seq::empty());
        r
    }
}

/// Which files keep their debug symbols.
#[derive(Debug, Clone, PartialEq, Eq)]
pub struct StripPDBOptions {
    pub exclude: Vec<String>,
}

/// The view of a `StripPDBOptions`.
pub struct StripPDBOptionsView {
    pub exclude: Seq<Seq<char>>,
}

impl View for StripPDBOptions {
    type V = StripPDBOptionsView;

    open spec fn view(&self) -> StripPDBOptionsView {
        StripPDBOptionsView { exclude: self.exclude.deep_view() }
    }
}

impl StripPDBOptionsView {
    /// No file is exempt.
    pub open spec fn initial() -> StripPDBOptionsView {
        StripPDBOptionsView { exclude: Seq::empty() }
    }
}

impl Default for StripPDBOptions {
    fn default() -> (r: StripPDBOptions)
        ensures
            r@ == StripPDBOptionsView::initial(),
    {
        let r = StripPDBOptions { exclude: Vec::new() };
        assert(r@.exclude =~= Seq::empty());
        r
    }
}

/// What is done to the build before anything is generated from it.
#[derive(Debug, Clone, PartialEq, Eq)]
pub struct PreparationOptions {
    pub copy: CopyOptions,
    pub codesign: CodesignOptions,
    pub strip_pdbs: StripPDBOptions,
}

/// The view of a `PreparationOptions`.
pub struct PreparationOptionsView {
    pub copy: CopyOptionsView,
    pub codesign: CodesignOptionsView,
    pub strip_pdbs: StripPDBOptionsView,
}

impl View for PreparationOptions {
    type V = PreparationOptionsView;

    open spec fn view(&self) -> PreparationOptionsView {
        PreparationOptionsView {
            copy: self.copy@,
            codesign: self.codesign@,
            strip_pdbs: self.strip_pdbs@,
        }
    }
}

impl PreparationOptionsView {
    /// Each part at its own default.
    pub open spec fn initial() -> PreparationOptionsView {
        PreparationOptionsView {
            copy: CopyOptionsView::initial(),
            codesign: CodesignOptionsView::initial(),
            strip_pdbs: StripPDBOptionsView::initial(),
        }
    }
}

impl Default for PreparationOptions {
    fn default() -> (r: PreparationOptions)
        ensures
            r@ == PreparationOptionsView::initial(),
    {
        PreparationOptions {
            copy: CopyOptions::default(),
            codesign: CodesignOptions::default(),
            strip_pdbs: StripPDBOptions::default(),
        }
    }
}

/// One package of the manifest.
#[derive(Debug, Clone, PartialEq, Eq)]
pub struct ManifestPackageOptions {
    pub name: String,
    pub include_files: Option<Vec<String>>,
}

/// The view of a `ManifestPackageOptions`.
pub struct ManifestPackageOptionsView {
    pub name: Seq<char>,
    pub include_files: Option<Seq<Seq<char>>>,
}

impl View for ManifestPackageOptions {
    type V = ManifestPackageOptionsView;

    open spec fn view(&self) -> ManifestPackageOptionsView {
        ManifestPackageOptionsView {
            name: self.name@,
            include_files: self.include_files.deep_view(),
        }
    }
}

impl ManifestPackageOptionsView {
    /// No name, and no filter on the files.
    pub open spec fn initial() -> ManifestPackageOptionsView {
        ManifestPackageOptionsView { name: Seq::empty(), include_files: None }
    }
}

impl Default for ManifestPackageOptions {
    fn default() -> (r: ManifestPackageOptions)
        ensures
            r@ == ManifestPackageOptionsView::initial(),
    {
        ManifestPackageOptions { name: String::new(), include_files: None }
    }
}

/// What the manifest lists.
#[derive(Debug, Clone, PartialEq, Eq)]
pub struct GenerationOptions {
    pub removed_files: Vec<String>,
    pub packages: Vec<ManifestPackageOptions>,
}

/// The view of a `GenerationOptions`.
pub struct GenerationOptionsView {
    pub removed_files: Seq<Seq<char>>,
    pub packages: Seq<ManifestPackageOptionsView>,
}

impl View for GenerationOptions {
    type V = GenerationOptionsView;

    open spec fn view(&self) -> GenerationOptionsView {
        GenerationOptionsView {
            removed_files: self.removed_files.deep_view(),
            packages: self.packages@.map_values(|p: ManifestPackageOptions| p@),
        }
    }
}

impl GenerationOptionsView {
    /// No removed file and no package.
    pub open spec fn initial() -> GenerationOptionsView {
        GenerationOptionsView { removed_files: Seq::empty(), packages: Seq::empty() }
    }
}

impl Default for GenerationOptions {
    fn default() -> (r: GenerationOptions)
        ensures
            r@ == GenerationOptionsView::initial(),
    {
        let r = GenerationOptions { removed_files: Vec::new(), packages: Vec::new() };
        assert(r@.removed_files =~= Seq::empty());
        assert(r@.packages =~= Seq::empty());
        r
    }
}

/// How the installer is built.
#[derive(Debug, Clone, PartialEq, Eq)]
pub struct InstallerOptions {
    pub nsis_script: String,
    pub name: String,
    pub skip_sign: bool,
}

/// The view of an `InstallerOptions`.
pub struct InstallerOptionsView {
    pub nsis_script: Seq<char>,
    pub name: Seq<char>,
    pub skip_sign: bool,
}

impl View for InstallerOptions {
    type V = InstallerOptionsView;

    open spec fn view(&self) -> InstallerOptionsView {
        InstallerOptionsView {
            nsis_script: self.nsis_script@,
            name: self.name@,
            skip_sign: self.skip_sign,
        }
    }
}

impl InstallerOptionsView {
    /// No script, no product name; the installer is signed.
    pub open spec fn initial() -> InstallerOptionsView {
        InstallerOptionsView { nsis_script: Seq::empty(), name: Seq::empty(), skip_sign: false }
    }
}

impl Default for InstallerOptions {
    fn default() -> (r: InstallerOptions)
        ensures
            r@ == InstallerOptionsView::initial(),
    {
        InstallerOptions { nsis_script: String::new(), name: String::new(), skip_sign: false }
    }
}

/// How the archives are named.
#[derive(Debug, Clone, PartialEq, Eq)]
pub struct ZipOptions {
    pub name: String,
    pub pdb_name: String,
    pub skip_for_prerelease: bool,
}

/// The view of a `ZipOptions`.
pub struct ZipOptionsView {
    pub name: Seq<char>,
    pub pdb_name: Seq<char>,
    pub skip_for_prerelease: bool,
}

impl View for ZipOptions {
    type V = ZipOptionsView;

    open spec fn view(&self) -> ZipOptionsView {
        ZipOptionsView {
            name: self.name@,
            pdb_name: self.pdb_name@,
            skip_for_prerelease: self.skip_for_prerelease,
        }
    }
}

impl ZipOptionsView {
    /// No archive names; archives are made for pre-releases too.
    pub open spec fn initial() -> ZipOptionsView {
        ZipOptionsView { name: Seq::empty(), pdb_name: Seq::empty(), skip_for_prerelease: false }
    }
}

impl Default for ZipOptions {
    fn default() -> (r: ZipOptions)
        ensures
            r@ == ZipOptionsView::initial(),
    {
        ZipOptions { name: String::new(), pdb_name: String::new(), skip_for_prerelease: false }
    }
}

/// What the updater needs: notes, its own binary, the key that signs the
/// manifest, the redistributable.
#[derive(Debug, Clone, PartialEq, Eq)]
pub struct UpdaterOptions {
    pub skip_sign: bool,
    pub notes_files: String,
    pub updater_path: String,
    pub private_key: String,
    pub vc_redist_path: String,
    pub skip_for_prerelease: bool,
}

/// The view of an `UpdaterOptions`.
pub struct UpdaterOptionsView {
    pub skip_sign: bool,
    pub notes_files: Seq<char>,
    pub updater_path: Seq<char>,
    pub private_key: Seq<char>,
    pub vc_redist_path: Seq<char>,
    pub skip_for_prerelease: bool,
}

impl View for UpdaterOptions {
    type V = UpdaterOptionsView;

    open spec fn view(&self) -> UpdaterOptionsView {
        UpdaterOptionsView {
            skip_sign: self.skip_sign,
            notes_files: self.notes_files@,
            updater_path: self.updater_path@,
            private_key: self.private_key@,
            vc_redist_path: self.vc_redist_path@,
            skip_for_prerelease: self.skip_for_prerelease,
        }
    }
}

impl UpdaterOptionsView {
    /// No path is set; the manifest is signed, and pre-releases are not skipped.
    pub open spec fn initial() -> UpdaterOptionsView {
        UpdaterOptionsView {
            skip_sign: false,
            notes_files: Seq::empty(),
            updater_path: Seq::empty(),
            private_key: Seq::empty(),
            vc_redist_path: Seq::empty(),
            skip_for_prerelease: false,
        }
    }
}

impl Default for UpdaterOptions {
    fn default() -> (r: UpdaterOptions)
        ensures
            r@ == UpdaterOptionsView::initial(),
    {
        UpdaterOptions {
            skip_sign: false,
            notes_files: String::new(),
            updater_path: String::new(),
            private_key: String::new(),
            vc_redist_path: String::new(),
            skip_for_prerelease: false,
        }
    }
}

/// What is made from the prepared build.
#[derive(Debug, Clone, PartialEq, Eq)]
pub struct PackageOptions {
    pub installer: InstallerOptions,
    pub zip: ZipOptions,
    pub updater: UpdaterOptions,
}

/// The view of a `PackageOptions`.
pub struct PackageOptionsView {
    pub installer: InstallerOptionsView,
    pub zip: ZipOptionsView,
    pub updater: UpdaterOptionsView,
}

impl View for PackageOptions {
    type V = PackageOptionsView;

    open spec fn view(&self) -> PackageOptionsView {
        PackageOptionsView {
            installer: self.installer@,
            zip: self.zip@,
            updater: self.updater@,
        }
    }
}

impl PackageOptionsView {
    /// Each part at its own default.
    pub open spec fn initial() -> PackageOptionsView {
        PackageOptionsView {
            installer: InstallerOptionsView::initial(),
            zip: ZipOptionsView::initial(),
            updater: UpdaterOptionsView::initial(),
        }
    }
}

impl Default for PackageOptions {
    fn default() -> (r: PackageOptions)
        ensures
            r@ == PackageOptionsView::initial(),
    {
        PackageOptions {
            installer: InstallerOptions::default(),
            zip: ZipOptions::default(),
            updater: UpdaterOptions::default(),
        }
    }
}

/// What happens once the packages are made.
#[derive(Debug, Clone, Copy, PartialEq, Eq, Structural)]
pub struct PostOptions {
    pub move_to_old: bool,
}

impl View for PostOptions {
    type V = PostOptions;

    open spec fn view(&self) -> PostOptions {
        *self
    }
}

impl PostOptions {
    /// The build stays where it is.
    pub open spec fn initial() -> PostOptions {
        PostOptions { move_to_old: false }
    }
}

impl Default for PostOptions {
    fn default() -> (r: PostOptions)
        ensures
            r@ == PostOptions::initial(),
    {
        PostOptions { move_to_old: false }
    }
}

/// The configuration of one packaging run.
#[derive(Debug, Clone, PartialEq, Eq)]
pub struct Config {
    pub env: EnvOptions,
    pub prepare: PreparationOptions,
    pub generate: GenerationOptions,
    pub package: PackageOptions,
    pub post: PostOptions,
    pub obs_version: ObsVersion,
}

/// The view of a `Config`.
pub struct ConfigView {
    pub env: EnvOptionsView,
    pub prepare: PreparationOptionsView,
    pub generate: GenerationOptionsView,
    pub package: PackageOptionsView,
    pub post: PostOptions,
    pub obs_version: ObsVersionView,
}

impl View for Config {
    type V = ConfigView;

    open spec fn view(&self) -> ConfigView {
        ConfigView {
            env: self.env@,
            prepare: self.prepare@,
            generate: self.generate@,
            package: self.package@,
            post: self.post@,
            obs_version: self.obs_version@,
        }
    }
}

impl ConfigView {
    /// The configuration in which every field has its default.
    pub open spec fn initial() -> ConfigView {
        ConfigView {
            env: EnvOptionsView::initial(),
            prepare: PreparationOptionsView::initial(),
            generate: GenerationOptionsView::initial(),
            package: PackageOptionsView::initial(),
            post: PostOptions::initial(),
            obs_version: ObsVersionView::initial(),
        }
    }
}

impl Default for Config {
    fn default() -> (r: Config)
        ensures
            r@ == ConfigView::initial(),
    {
        Config {
            env: EnvOptions::default(),
            prepare: PreparationOptions::default(),
            generate: GenerationOptions::default(),
            package: PackageOptions::default(),
            post: PostOptions::default(),
            obs_version: ObsVersion::default(),
        }
    }
}

/// What the command line says.
#[derive(Debug, Clone, PartialEq, Eq)]
pub struct MainArgs {
    /// Where the configuration file is.
    pub config: String,
    /// The version: `Major.Minor.Patch`, optionally followed by `-beta<N>` or `-rc<N>`.
    pub version: String,
    /// The beta number; takes the place of the one in the version string.
    pub beta: Option<u8>,
    /// The release-candidate number; takes the place of the one in the version string.
    pub rc: Option<u8>,
    /// The branch; takes the place of the configured one.
    pub branch: Option<String>,
    /// The directory of the new build; takes the place of the configured input directory.
    pub new: Option<String>,
    /// The directory of the previous releases; takes the place of the configured one.
    pub old: Option<String>,
    /// The output directory; takes the place of the configured one.
    pub out: Option<String>,
    /// The file that holds the release notes.
    pub note_file: Option<String>,
    /// The file that holds the private key.
    pub private_key: Option<String>,
    /// Make no installer.
    pub skip_installer: bool,
    /// Make no delta patches.
    pub skip_patches: bool,
    /// Sign no binaries.
    pub skip_codesigning: bool,
    /// Sign no manifest.
    pub skip_manifest_signing: bool,
    /// Empty the output directory first.
    pub clear_output: bool,
}

/// The view of a `MainArgs`.
pub struct MainArgsView {
    pub config: Seq<char>,
    pub version: Seq<char>,
    pub beta: Option<u8>,
    pub rc: Option<u8>,
    pub branch: Option<Seq<char>>,
    pub new: Option<Seq<char>>,
    pub old: Option<Seq<char>>,
    pub out: Option<Seq<char>>,
    pub note_file: Option<Seq<char>>,
    pub private_key: Option<Seq<char>>,
    pub skip_installer: bool,
    pub skip_patches: bool,
    pub skip_codesigning: bool,
    pub skip_manifest_signing: bool,
    pub clear_output: bool,
}

impl View for MainArgs {
    type V = MainArgsView;

    open spec fn view(&self) -> MainArgsView {
        MainArgsView {
            config: self.config@,
            version: self.version@,
            beta: self.beta,
            rc: self.rc,
            branch: self.branch.deep_view(),
            new: self.new.deep_view(),
            old: self.old.deep_view(),
            out: self.out.deep_view(),
            note_file: self.note_file.deep_view(),
            private_key: self.private_key.deep_view(),
            skip_installer: self.skip_installer,
            skip_patches: self.skip_patches,
            skip_codesigning: self.skip_codesigning,
            skip_manifest_signing: self.skip_manifest_signing,
            clear_output: self.clear_output,
        }
    }
}

/// `given` where something is given, else `kept`.
pub open spec fn or_kept<T>(given: Option<T>, kept: T) -> T {
    match given {
        Some(value) => value,
        None => kept,
    }
}

impl ConfigView {
    /// This configuration with the version that `text` denotes. A positive
    /// `beta_num` or `rc_num` takes the place of the number in `text`.
    pub open spec fn with_version(self, text: Seq<char>, beta_num: u8, rc_num: u8) -> ConfigView
        recommends
            version_of(text).is_some(),
    {
        let (major, minor, patch, beta, rc) = version_of(text).unwrap();
        ConfigView {
            obs_version: ObsVersionView {
                version_str: canonical(text),
                version_major: major,
                version_minor: minor,
                version_patch: patch,
                beta: if beta_num > 0 {
                    beta_num
                } else {
                    beta
                },
                rc: if rc_num > 0 {
                    rc_num
                } else {
                    rc
                },
            },
            ..self
        }
    }

    /// This configuration with each directory that is given in the place of
    /// the configured one.
    pub open spec fn with_dirs(
        self,
        input: Option<Seq<char>>,
        output: Option<Seq<char>>,
        previous: Option<Seq<char>>,
    ) -> ConfigView {
        ConfigView {
            env: EnvOptionsView {
                input_dir: or_kept(input, self.env.input_dir),
                output_dir: or_kept(output, self.env.output_dir),
                previous_dir: or_kept(previous, self.env.previous_dir),
                ..self.env
            },
            ..self
        }
    }

    /// This configuration with the command line merged into it.
    ///
    /// The version is the one that the command line names. A beta or
    /// release-candidate number given on the command line wins over the one in
    /// the version string, each for itself. Directories and branch are
    /// replaced where the command line gives them. Signing of binaries and
    /// of the installer is skipped as the command line says; the field that
    /// skips the signing of the manifest is the negation of the command
    /// line's flag.
    pub open spec fn with_args(self, args: MainArgsView) -> ConfigView
        recommends
            version_of(args.version).is_some(),
    {
        let (major, minor, patch, beta, rc) = version_of(args.version).unwrap();
        ConfigView {
            env: EnvOptionsView {
                branch: or_kept(args.branch, self.env.branch),
                input_dir: or_kept(args.new, self.env.input_dir),
                output_dir: or_kept(args.out, self.env.output_dir),
                previous_dir: or_kept(args.old, self.env.previous_dir),
                ..self.env
            },
            prepare: PreparationOptionsView {
                codesign: CodesignOptionsView {
                    skip_sign: args.skip_codesigning,
                    ..self.prepare.codesign
                },
                ..self.prepare
            },
            package: PackageOptionsView {
                installer: InstallerOptionsView {
                    skip_sign: args.skip_codesigning,
                    ..self.package.installer
                },
                updater: UpdaterOptionsView {
                    skip_sign: !args.skip_manifest_signing,
                    ..self.package.updater
                },
                ..self.package
            },
            obs_version: ObsVersionView {
                version_str: canonical(args.version),
                version_major: major,
                version_minor: minor,
                version_patch: patch,
                beta: or_kept(args.beta, beta),
                rc: or_kept(args.rc, rc),
            },
            ..self
        }
    }
}

/// What the command line gives wins, field by field. A beta number on the
/// command line takes the place of the one in the version string and leaves
/// the release-candidate number of the string alone, and the other way
/// round; a number that the command line does not give is the one of the
/// string. A branch or directory on the command line takes the place of the
/// configured one; one that is not given stays.
pub proof fn lemma_command_line_wins(config: ConfigView, args: MainArgsView)
    requires
        version_of(args.version).is_some(),
    ensures
        ({
            let merged = config.with_args(args);
            let (major, minor, patch, beta, rc) = version_of(args.version).unwrap();
            &&& merged.obs_version.beta == or_kept(args.beta, beta)
            &&& merged.obs_version.rc == or_kept(args.rc, rc)
            &&& merged.obs_version.version_major == major
            &&& merged.obs_version.version_minor == minor
            &&& merged.obs_version.version_patch == patch
            &&& merged.obs_version.version_str == canonical(args.version)
            &&& merged.env.branch == or_kept(args.branch, config.env.branch)
            &&& merged.env.input_dir == or_kept(args.new, config.env.input_dir)
            &&& merged.env.output_dir == or_kept(args.out, config.env.output_dir)
            &&& merged.env.previous_dir == or_kept(args.old, config.env.previous_dir)
            &&& merged.prepare.codesign.skip_sign == args.skip_codesigning
            &&& merged.package.installer.skip_sign == args.skip_codesigning
            &&& merged.package.updater.skip_sign == !args.skip_manifest_signing
        }),
{
}

/// Merging the command line is setting the version with the numbers of the
/// command line, then the directories, then the branch, then once more each
/// of the two numbers that the command line gives, then the three flags.
pub proof fn lemma_merge_in_steps(config: ConfigView, args: MainArgsView)
    requires
        version_of(args.version).is_some(),
    ensures
        ({
            let placed = config.with_version(
                args.version,
                or_kept(args.beta, 0u8),
                or_kept(args.rc, 0u8),
            ).with_dirs(args.new, args.out, args.old);
            config.with_args(args) == ConfigView {
                env: EnvOptionsView {
                    branch: or_kept(args.branch, placed.env.branch),
                    ..placed.env
                },
                prepare: PreparationOptionsView {
                    codesign: CodesignOptionsView {
                        skip_sign: args.skip_codesigning,
                        ..placed.prepare.codesign
                    },
                    ..placed.prepare
                },
                package: PackageOptionsView {
                    installer: InstallerOptionsView {
                        skip_sign: args.skip_codesigning,
                        ..placed.package.installer
                    },
                    updater: UpdaterOptionsView {
                        skip_sign: !args.skip_manifest_signing,
                        ..placed.package.updater
                    },
                    ..placed.package
                },
                obs_version: ObsVersionView {
                    beta: or_kept(args.beta, placed.obs_version.beta),
                    rc: or_kept(args.rc, placed.obs_version.rc),
                    ..placed.obs_version
                },
                ..placed
            }
        }),
{
}

/// Merging the same command line twice is merging it once.
pub proof fn lemma_merge_twice(config: ConfigView, args: MainArgsView)
    requires
        version_of(args.version).is_some(),
    ensures
        config.with_args(args).with_args(args) == config.with_args(args),
{
}

/// Puts a copy of `given` in the place of `kept`, where something is given.
fn replace_where_given(kept: &mut String, given: &Option<String>)
    ensures
        final(kept)@ == or_kept(given.deep_view(), old(kept)@),
{
    if let Some(text) = given {
        *kept = text.clone();
    }
}

impl Config {
    /// Sets the version from a version string. A positive `beta_num` or
    /// `rc_num` takes the place of the number in the string.
    ///
    /// Fails on what is no version string, and then changes nothing.
    pub fn set_version(&mut self, version_string: &String, beta_num: u8, rc_num: u8) -> (r: Result<
        (),
        ConfigError,
    >)
        ensures
            match r {
                Ok(_) => version_of(version_string@).is_some() && final(self)@ == old(self)@.with_version(
                    version_string@,
                    beta_num,
                    rc_num,
                ),
                Err(e) => version_of(version_string@).is_none() && e
                    == ConfigError::InvalidVersionFormat && *final(self) == *old(self),
            },
    {
        match parse_version(version_string.as_str()) {
            Ok((major, minor, patch, beta, rc)) => {
                self.obs_version.version_str = canonical_version(version_string.as_str());
                self.obs_version.version_major = major;
                self.obs_version.version_minor = minor;
                self.obs_version.version_patch = patch;
                self.obs_version.beta = if beta_num > 0 {
                    beta_num
                } else {
                    beta
                };
                self.obs_version.rc = if rc_num > 0 {
                    rc_num
                } else {
                    rc
                };
                Ok(())
            },
            Err(e) => Err(e),
        }
    }

    /// Replaces each directory that is given.
    pub fn set_dirs(&mut self, input: Option<String>, output: Option<String>, previous: Option<String>)
        ensures
            final(self)@ == old(self)@.with_dirs(
                input.deep_view(),
                output.deep_view(),
                previous.deep_view(),
            ),
    {
        if let Some(input) = input {
            self.env.input_dir = input;
        }
        if let Some(output) = output {
            self.env.output_dir = output;
        }
        if let Some(previous) = previous {
            self.env.previous_dir = previous;
        }
    }

    /// Merges the command line into this configuration.
    ///
    /// Fails where the command line names no version, and then changes nothing.
    pub fn apply_args(&mut self, args: &MainArgs) -> (r: Result<(), ConfigError>)
        ensures
            match r {
                Ok(_) => version_of(args@.version).is_some() && final(self)@ == old(self)@.with_args(args@),
                Err(e) => version_of(args@.version).is_none() && e
                    == ConfigError::InvalidVersionFormat && *final(self) == *old(self),
            },
            r.is_ok() ==> final(self).obs_version.beta == or_kept(
                args.beta,
                version_of(args@.version).unwrap().3,
            ),
            r.is_ok() ==> final(self).obs_version.rc == or_kept(
                args.rc,
                version_of(args@.version).unwrap().4,
            ),
    {
        let beta_num = match args.beta {
            Some(beta) => beta,
            None => 0,
        };
        let rc_num = match args.rc {
            Some(rc) => rc,
            None => 0,
        };
        match self.set_version(&args.version, beta_num, rc_num) {
            Ok(_) => {},
            Err(e) => {
                return Err(e);
            },
        }
        replace_where_given(&mut self.env.input_dir, &args.new);
        replace_where_given(&mut self.env.output_dir, &args.out);
        replace_where_given(&mut self.env.previous_dir, &args.old);
        replace_where_given(&mut self.env.branch, &args.branch);
        if let Some(beta) = args.beta {
            self.obs_version.beta = beta;
        }
        if let Some(rc) = args.rc {
            self.obs_version.rc = rc;
        }
        self.prepare.codesign.skip_sign = args.skip_codesigning;
        self.package.installer.skip_sign = args.skip_codesigning;
        self.package.updater.skip_sign = !args.skip_manifest_signing;
        Ok(())
    }
}

} // verus!
