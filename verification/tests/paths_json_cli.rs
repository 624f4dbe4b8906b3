use dev_machine::cli::{get_config_root, Command, ExportArgs, SetupArgs, UpgradeArgs};
use dev_machine::error::BootstrapError;
use dev_machine::json::{count_packages, JsonMember, JsonValue};
use dev_machine::utils::paths::{
    appdata_dir_from, git_config_path, git_config_path_from, home_dir, home_dir_from, is_slicable, join,
    powershell_profile_location_from, powershell_profile_path_from, to_wsl_path, vscode_extensions_dir_from,
    vscode_user_dir_from,
};

#[test]
fn join_adds_a_component_with_a_backslash() {
    assert_eq!(join("C:\\cfg", "dotfiles"), "C:\\cfg\\dotfiles");
    assert_eq!(join("C:\\cfg\\", "dotfiles"), "C:\\cfg\\dotfiles");
    assert_eq!(join("C:/cfg/", "config"), "C:/cfg/config");
    assert_eq!(join("", "config"), "config");
    assert_eq!(join("C:", "dotfiles"), "C:dotfiles");
    assert_eq!(join("7:", "dotfiles"), "7:\\dotfiles");
    assert_eq!(join("ab", "c"), "ab\\c");
}

#[test]
fn to_wsl_path_converts_drive_paths() {
    assert_eq!(to_wsl_path("C:\\Users\\dev\\cfg").unwrap(), "/mnt/c/Users/dev/cfg");
    assert_eq!(to_wsl_path("d:\\work").unwrap(), "/mnt/d/work");
    assert_eq!(to_wsl_path("E:").unwrap(), "/mnt/e");
    assert_eq!(to_wsl_path("C:/mixed\\seps").unwrap(), "/mnt/c/mixed/seps");
}

#[test]
fn to_wsl_path_keeps_the_shape_it_promises() {
    let w = to_wsl_path("Z:\\a\\b\\c.txt").unwrap();
    assert!(w.starts_with("/mnt/z"));
    assert!(!w.contains('\\'));
}

#[test]
fn to_wsl_path_refuses_paths_without_a_drive() {
    let e = to_wsl_path("\\\\server\\share").unwrap_err();
    assert_eq!(e, BootstrapError::Path("Cannot convert path to WSL format: \\\\server\\share".to_string()));
    assert_eq!(e.message(), "Path error: Cannot convert path to WSL format: \\\\server\\share");
    assert!(to_wsl_path("relative\\path").is_err());
    assert!(to_wsl_path("").is_err());
}

#[test]
fn slicable_paths() {
    assert!(is_slicable("C:\\x"));
    assert!(is_slicable("é:\\x"));
    assert!(!is_slicable("€:\\x"));
    assert!(is_slicable("€x"));
}

#[test]
fn located_directories() {
    assert_eq!(home_dir_from(Some("C:\\Users\\dev".to_string())).unwrap(), "C:\\Users\\dev");
    assert_eq!(
        home_dir_from(None).unwrap_err(),
        BootstrapError::Path("Could not determine home directory".to_string())
    );
    assert_eq!(
        appdata_dir_from(None).unwrap_err(),
        BootstrapError::Path("Could not determine APPDATA directory".to_string())
    );
    assert_eq!(
        vscode_user_dir_from(Some("C:\\Users\\dev\\AppData\\Roaming".to_string())).unwrap(),
        "C:\\Users\\dev\\AppData\\Roaming\\Code\\User"
    );
    assert_eq!(
        vscode_extensions_dir_from(Some("C:\\Users\\dev".to_string())).unwrap(),
        "C:\\Users\\dev\\.vscode\\extensions"
    );
    assert_eq!(
        powershell_profile_path_from(Some("C:\\Users\\dev\\Documents".to_string())).unwrap(),
        "C:\\Users\\dev\\Documents\\PowerShell\\Microsoft.PowerShell_profile.ps1"
    );
    assert_eq!(
        powershell_profile_path_from(None).unwrap_err(),
        BootstrapError::Path("Could not determine Documents directory".to_string())
    );
    let (dir, file) = powershell_profile_location_from(Some("D:\\Docs".to_string())).unwrap();
    assert_eq!(dir, "D:\\Docs\\PowerShell");
    assert_eq!(file, "D:\\Docs\\PowerShell\\Microsoft.PowerShell_profile.ps1");
    assert_eq!(git_config_path_from(Some("C:\\Users\\dev".to_string())).unwrap(), "C:\\Users\\dev\\.gitconfig");
}

#[test]
fn system_directories_follow_the_home_directory() {
    match home_dir() {
        Ok(home) => assert_eq!(git_config_path().unwrap(), join(&home, ".gitconfig")),
        Err(e) => assert_eq!(e, BootstrapError::Path("Could not determine home directory".to_string())),
    }
}

fn member(key: &str, value: JsonValue) -> JsonMember {
    JsonMember { key: key.to_string(), value }
}

fn source(n: usize) -> JsonValue {
    let packages = (0..n).map(|_| JsonValue::Object(vec![])).collect();
    JsonValue::Object(vec![member("Packages", JsonValue::Array(packages))])
}

#[test]
fn count_packages_sums_the_sources() {
    let doc = JsonValue::Object(vec![
        member("$schema", JsonValue::Str("x".to_string())),
        member("Sources", JsonValue::Array(vec![source(2), source(3), JsonValue::Null])),
    ]);
    assert_eq!(count_packages(&doc), Some(5));
}

#[test]
fn count_packages_without_sources_is_zero() {
    assert_eq!(count_packages(&JsonValue::Object(vec![])), Some(0));
    assert_eq!(count_packages(&JsonValue::Array(vec![])), Some(0));
    let doc = JsonValue::Object(vec![member("Sources", JsonValue::Str("none".to_string()))]);
    assert_eq!(count_packages(&doc), Some(0));
}

#[test]
fn json_lookups() {
    let doc = JsonValue::Object(vec![
        member("name", JsonValue::Str("python".to_string())),
        member("name", JsonValue::Str("second".to_string())),
    ]);
    assert_eq!(doc.get("name").and_then(|v| v.as_str()), Some("python"));
    assert!(doc.get("publisher").is_none());
    assert!(JsonValue::Null.get("name").is_none());
    assert_eq!(JsonValue::Bool(true).as_str(), None);
}

fn setup_args(root: Option<&str>) -> SetupArgs {
    SetupArgs {
        config_root: root.map(|r| r.to_string()),
        minimal: false,
        skip_docker: false,
        skip_wsl: false,
        no_wsl_provision: false,
        dotfiles_repo: None,
        winget: false,
        vscode: false,
        powershell: false,
        git: false,
        wsl: false,
    }
}

#[test]
fn config_root_comes_from_the_command() {
    assert_eq!(get_config_root(&Command::Setup(setup_args(Some("C:\\cfg")))), Some("C:\\cfg".to_string()));
    assert_eq!(get_config_root(&Command::Setup(setup_args(None))), None);
    let export = ExportArgs {
        config_root: Some("D:\\out".to_string()),
        skip_wsl: false,
        wsl_distro: "Ubuntu-24.04".to_string(),
        force: false,
        winget: false,
        vscode: false,
        powershell: false,
        git: false,
        wsl: false,
    };
    assert_eq!(get_config_root(&Command::Export(export)), Some("D:\\out".to_string()));
    let upgrade = UpgradeArgs {
        config_root: None,
        skip_wsl: false,
        wsl_distro: "Ubuntu-24.04".to_string(),
        winget: false,
        vscode: false,
        wsl: false,
    };
    assert_eq!(get_config_root(&Command::Upgrade(upgrade)), None);
}

#[test]
fn to_wsl_path_ignores_the_case_of_the_drive_letter() {
    for rest in ["\\Users\\dev", "", "/x\\y", "\u{e9}t\u{e9}"] {
        let upper = to_wsl_path(&format!("C:{}", rest)).unwrap();
        let lower = to_wsl_path(&format!("c:{}", rest)).unwrap();
        assert_eq!(upper, lower);
        assert!(upper.as_bytes()[5].is_ascii_lowercase());
    }
    assert_eq!(to_wsl_path("1:\\x").unwrap(), "/mnt/1/x");
}
