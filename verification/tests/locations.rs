use pot_config::paths::{get_app_config_dir, get_app_config_file, APPID, CONFIG_FILE};
use std::path::{Path, PathBuf};

fn component_names(path: &Path) -> Vec<String> {
    path.components()
        .map(|c| c.as_os_str().to_string_lossy().into_owned())
        .collect()
}

#[test]
fn app_id_is_the_fixed_identifier() {
    assert_eq!(APPID, "cn.pylogmon.pot");
}

#[test]
fn config_file_name_is_fixed() {
    assert_eq!(CONFIG_FILE, "config.toml");
}

#[test]
fn config_dir_is_named_by_the_app_id() {
    let dir = get_app_config_dir(PathBuf::from("/home/user/.config"));
    assert_eq!(dir, PathBuf::from("/home/user/.config/cn.pylogmon.pot"));
}

#[test]
fn config_file_is_config_toml_in_the_config_dir() {
    let file = get_app_config_file(PathBuf::from("/home/user/.config"));
    assert_eq!(
        file,
        PathBuf::from("/home/user/.config/cn.pylogmon.pot/config.toml")
    );
}

#[test]
fn config_file_lies_directly_in_the_config_dir() {
    let base = PathBuf::from("/srv/settings");
    let dir = get_app_config_dir(base.clone());
    let file = get_app_config_file(base);
    assert_eq!(file.parent(), Some(dir.as_path()));
    assert_eq!(file.file_name().and_then(|n| n.to_str()), Some("config.toml"));
    assert_eq!(dir.file_name().and_then(|n| n.to_str()), Some("cn.pylogmon.pot"));
}

#[test]
fn config_dir_adds_one_component() {
    for base in ["", ".", "/", "relative/dir", "/trailing/slash/", "/a/../b", "/a/./b"] {
        let base = PathBuf::from(base);
        let mut expected = component_names(&base);
        expected.push("cn.pylogmon.pot".to_string());
        let dir = get_app_config_dir(base);
        assert_eq!(component_names(&dir), expected);
    }
}

#[test]
fn config_file_adds_two_components() {
    for base in ["", ".", "/", "relative/dir", "/trailing/slash/", "/a/../b", "/a/./b"] {
        let base = PathBuf::from(base);
        let mut expected = component_names(&base);
        expected.push("cn.pylogmon.pot".to_string());
        expected.push("config.toml".to_string());
        let file = get_app_config_file(base);
        assert_eq!(component_names(&file), expected);
    }
}

#[test]
fn config_file_of_a_relative_platform_dir_stays_relative() {
    let file = get_app_config_file(PathBuf::from("settings"));
    assert!(file.is_relative());
    assert_eq!(file, PathBuf::from("settings/cn.pylogmon.pot/config.toml"));
}

#[test]
fn paths_do_not_depend_on_earlier_calls() {
    let first = get_app_config_file(PathBuf::from("/one"));
    let second = get_app_config_file(PathBuf::from("/two"));
    assert_eq!(first, PathBuf::from("/one/cn.pylogmon.pot/config.toml"));
    assert_eq!(second, PathBuf::from("/two/cn.pylogmon.pot/config.toml"));
}
