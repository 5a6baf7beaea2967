use release_config::config::{Config, MainArgs, ManifestPackageOptions};
use release_config::error::ConfigError;

fn args(version: &str) -> MainArgs {
    MainArgs {
        config: String::from("config.toml"),
        version: String::from(version),
        beta: None,
        rc: None,
        branch: None,
        new: None,
        old: None,
        out: None,
        note_file: None,
        private_key: None,
        skip_installer: false,
        skip_patches: false,
        skip_codesigning: false,
        skip_manifest_signing: false,
        clear_output: false,
    }
}

fn loaded() -> Config {
    let mut config = Config::default();
    config.env.branch = String::from("nightly");
    config.env.input_dir = String::from("build/new");
    config.env.output_dir = String::from("build/out");
    config.env.previous_dir = String::from("build/old");
    config.env.sevenzip_path = String::from("tools/7z");
    config.prepare.copy.excludes = vec![String::from("*.log")];
    config.prepare.copy.overrides = vec![(String::from("a"), String::from("b"))];
    config.prepare.codesign.sign_name = String::from("Publisher");
    config.generate.packages = vec![ManifestPackageOptions {
        name: String::from("core"),
        include_files: Some(vec![String::from("bin/*")]),
    }];
    config.package.updater.private_key = String::from("key.pem");
    config.post.move_to_old = true;
    config
}

#[test]
fn set_version_takes_the_numbers_of_the_string() {
    let mut config = loaded();
    assert_eq!(config.set_version(&String::from("1.2.3-beta4"), 0, 0), Ok(()));
    assert_eq!(config.obs_version.version_str, "1.2.3");
    assert_eq!(config.obs_version.version_major, 1);
    assert_eq!(config.obs_version.version_minor, 2);
    assert_eq!(config.obs_version.version_patch, 3);
    assert_eq!(config.obs_version.beta, 4);
    assert_eq!(config.obs_version.rc, 0);
}

#[test]
fn set_version_prefers_positive_numbers() {
    let mut config = loaded();
    assert_eq!(config.set_version(&String::from("1.2.3-beta4"), 7, 0), Ok(()));
    assert_eq!((config.obs_version.beta, config.obs_version.rc), (7, 0));
    assert_eq!(config.set_version(&String::from("1.2.3-beta4"), 0, 9), Ok(()));
    assert_eq!((config.obs_version.beta, config.obs_version.rc), (4, 9));
    assert_eq!(config.set_version(&String::from("1.2.3-rc2"), 6, 5), Ok(()));
    assert_eq!((config.obs_version.beta, config.obs_version.rc), (6, 5));
    assert_eq!(config.set_version(&String::from("1.2.3"), 0, 0), Ok(()));
    assert_eq!((config.obs_version.beta, config.obs_version.rc), (0, 0));
}

#[test]
fn set_version_changes_nothing_else() {
    let mut config = loaded();
    assert_eq!(config.set_version(&String::from("9.8.7-rc6"), 0, 0), Ok(()));
    let mut expected = loaded();
    expected.obs_version.version_str = String::from("9.8.7");
    expected.obs_version.version_major = 9;
    expected.obs_version.version_minor = 8;
    expected.obs_version.version_patch = 7;
    expected.obs_version.rc = 6;
    assert_eq!(config, expected);
}

#[test]
fn set_version_rejects_what_is_no_version() {
    let mut config = loaded();
    assert_eq!(
        config.set_version(&String::from("1.2"), 3, 4),
        Err(ConfigError::InvalidVersionFormat)
    );
    assert_eq!(config, loaded());
}

#[test]
fn set_dirs_replaces_what_is_given() {
    let mut config = loaded();
    config.set_dirs(Some(String::from("in")), None, Some(String::from("prev")));
    assert_eq!(config.env.input_dir, "in");
    assert_eq!(config.env.output_dir, "build/out");
    assert_eq!(config.env.previous_dir, "prev");
    config.set_dirs(None, Some(String::from("out")), None);
    assert_eq!(config.env.input_dir, "in");
    assert_eq!(config.env.output_dir, "out");
    assert_eq!(config.env.previous_dir, "prev");
}

#[test]
fn set_dirs_with_nothing_given_changes_nothing() {
    let mut config = loaded();
    config.set_dirs(None, None, None);
    assert_eq!(config, loaded());
}

#[test]
fn release_candidate_on_the_command_line_leaves_the_beta_of_the_string() {
    let mut config = loaded();
    let mut given = args("1.0.0-beta3");
    given.rc = Some(5);
    assert_eq!(config.apply_args(&given), Ok(()));
    assert_eq!(config.obs_version.version_str, "1.0.0");
    assert_eq!(config.obs_version.beta, 3);
    assert_eq!(config.obs_version.rc, 5);
}

#[test]
fn beta_on_the_command_line_wins_over_the_string() {
    let mut config = loaded();
    let mut given = args("1.0.0-beta3");
    given.beta = Some(8);
    assert_eq!(config.apply_args(&given), Ok(()));
    assert_eq!((config.obs_version.beta, config.obs_version.rc), (8, 0));
}

#[test]
fn zero_on_the_command_line_wins_too() {
    let mut config = loaded();
    let mut given = args("1.0.0-beta3");
    given.beta = Some(0);
    assert_eq!(config.apply_args(&given), Ok(()));
    assert_eq!((config.obs_version.beta, config.obs_version.rc), (0, 0));
    let mut given = args("1.0.0-rc3");
    given.rc = Some(0);
    assert_eq!(config.apply_args(&given), Ok(()));
    assert_eq!((config.obs_version.beta, config.obs_version.rc), (0, 0));
}

#[test]
fn both_numbers_on_the_command_line() {
    let mut config = loaded();
    let mut given = args("1.0.0");
    given.beta = Some(2);
    given.rc = Some(3);
    assert_eq!(config.apply_args(&given), Ok(()));
    assert_eq!((config.obs_version.beta, config.obs_version.rc), (2, 3));
}

#[test]
fn numbers_of_the_string_where_the_command_line_gives_none() {
    let mut config = loaded();
    config.obs_version.beta = 77;
    config.obs_version.rc = 88;
    assert_eq!(config.apply_args(&args("3.4.5-rc6")), Ok(()));
    assert_eq!((config.obs_version.beta, config.obs_version.rc), (0, 6));
    assert_eq!(
        (
            config.obs_version.version_major,
            config.obs_version.version_minor,
            config.obs_version.version_patch
        ),
        (3, 4, 5)
    );
}

#[test]
fn command_line_replaces_directories_and_branch() {
    let mut config = loaded();
    let mut given = args("1.0.0");
    given.new = Some(String::from("cli/new"));
    given.old = Some(String::from("cli/old"));
    given.out = Some(String::from("cli/out"));
    given.branch = Some(String::from("beta"));
    assert_eq!(config.apply_args(&given), Ok(()));
    assert_eq!(config.env.input_dir, "cli/new");
    assert_eq!(config.env.previous_dir, "cli/old");
    assert_eq!(config.env.output_dir, "cli/out");
    assert_eq!(config.env.branch, "beta");
}

#[test]
fn configured_directories_and_branch_stay_where_nothing_is_given() {
    let mut config = loaded();
    assert_eq!(config.apply_args(&args("1.0.0")), Ok(()));
    assert_eq!(config.env.input_dir, "build/new");
    assert_eq!(config.env.previous_dir, "build/old");
    assert_eq!(config.env.output_dir, "build/out");
    assert_eq!(config.env.branch, "nightly");
}

#[test]
fn codesigning_flag_reaches_binaries_and_installer() {
    let mut config = loaded();
    let mut given = args("1.0.0");
    given.skip_codesigning = true;
    assert_eq!(config.apply_args(&given), Ok(()));
    assert!(config.prepare.codesign.skip_sign);
    assert!(config.package.installer.skip_sign);
    given.skip_codesigning = false;
    assert_eq!(config.apply_args(&given), Ok(()));
    assert!(!config.prepare.codesign.skip_sign);
    assert!(!config.package.installer.skip_sign);
}

#[test]
fn manifest_signing_flag_is_negated() {
    let mut config = loaded();
    let mut given = args("1.0.0");
    given.skip_manifest_signing = true;
    assert_eq!(config.apply_args(&given), Ok(()));
    assert!(!config.package.updater.skip_sign);
    given.skip_manifest_signing = false;
    assert_eq!(config.apply_args(&given), Ok(()));
    assert!(config.package.updater.skip_sign);
}

#[test]
fn merge_leaves_the_rest_alone() {
    let mut config = loaded();
    let mut given = args("2.0.0-beta1");
    given.note_file = Some(String::from("notes.rtf"));
    given.private_key = Some(String::from("other.pem"));
    given.skip_installer = true;
    given.skip_patches = true;
    given.clear_output = true;
    assert_eq!(config.apply_args(&given), Ok(()));
    let mut expected = loaded();
    expected.obs_version.version_str = String::from("2.0.0");
    expected.obs_version.version_major = 2;
    expected.obs_version.beta = 1;
    expected.package.updater.skip_sign = true;
    assert_eq!(config, expected);
}

#[test]
fn merge_twice_is_merge_once() {
    let mut given = args("2.1.0-rc4");
    given.beta = Some(1);
    given.new = Some(String::from("x"));
    let mut once = loaded();
    assert_eq!(once.apply_args(&given), Ok(()));
    let mut twice = once.clone();
    assert_eq!(twice.apply_args(&given), Ok(()));
    assert_eq!(once, twice);
}

#[test]
fn merge_rejects_what_is_no_version() {
    let mut config = loaded();
    let mut given = args("1.2.3-gamma1");
    given.new = Some(String::from("cli/new"));
    given.beta = Some(2);
    given.skip_codesigning = true;
    assert_eq!(config.apply_args(&given), Err(ConfigError::InvalidVersionFormat));
    assert_eq!(config, loaded());
}
