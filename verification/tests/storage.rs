use rencfs_desktop::storage::{
    database_url, get_config_dir, get_data_dir, get_dev_data_dir, get_logs_dir, is_debug, join,
    required_dirs, tmp_dir_named, BuildProfile, ProjectDirs,
};

fn dirs() -> ProjectDirs {
    ProjectDirs {
        config_dir: "/home/u/.config/rencfs".to_string(),
        config_local_dir: "/home/u/.config/rencfs-local".to_string(),
        data_local_dir: "/home/u/.local/share/rencfs".to_string(),
    }
}

#[test]
fn debug_profile_is_debug() {
    assert!(is_debug(BuildProfile::Debug));
    assert!(!is_debug(BuildProfile::Release));
}

#[test]
fn dev_data_dir_is_lower_case_with_hyphens() {
    assert_eq!(get_dev_data_dir("Rencfs Desktop"), "/tmp/rencfs-desktop");
    assert_eq!(get_dev_data_dir("app"), "/tmp/app");
    assert_eq!(get_dev_data_dir("A B C"), "/tmp/a-b-c");
}

#[test]
fn tmp_dir_is_under_tmp() {
    assert_eq!(tmp_dir_named("x"), "/tmp/x");
    assert_eq!(tmp_dir_named(""), "/tmp/");
}

#[test]
fn join_adds_one_separator() {
    assert_eq!(join("/a", "logs"), "/a/logs");
    assert_eq!(join("/a/", "logs"), "/a/logs");
    assert_eq!(join("", "logs"), "logs");
    assert_eq!(join("/", "logs"), "/logs");
}

#[test]
fn debug_build_keeps_everything_in_the_dev_dir() {
    let d = dirs();
    assert_eq!(get_config_dir(BuildProfile::Debug, "Rencfs Desktop", &d), "/tmp/rencfs-desktop");
    assert_eq!(get_data_dir(BuildProfile::Debug, "Rencfs Desktop", &d), "/tmp/rencfs-desktop");
    assert_eq!(get_logs_dir(BuildProfile::Debug, "Rencfs Desktop", &d), "/tmp/rencfs-desktop");
}

#[test]
fn release_build_uses_the_platform_dirs() {
    let d = dirs();
    assert_eq!(
        get_config_dir(BuildProfile::Release, "Rencfs Desktop", &d),
        "/home/u/.config/rencfs-local"
    );
    assert_eq!(
        get_data_dir(BuildProfile::Release, "Rencfs Desktop", &d),
        "/home/u/.local/share/rencfs"
    );
    assert_eq!(
        get_logs_dir(BuildProfile::Release, "Rencfs Desktop", &d),
        "/home/u/.local/share/rencfs/logs"
    );
}

#[test]
fn three_directories_are_required() {
    assert_eq!(
        required_dirs(&dirs()),
        vec![
            "/home/u/.config/rencfs".to_string(),
            "/home/u/.local/share/rencfs".to_string(),
            "/home/u/.local/share/rencfs/logs".to_string(),
        ]
    );
}

#[test]
fn database_lies_where_the_environment_says_in_a_debug_build() {
    assert_eq!(
        database_url(BuildProfile::Debug, Some("dev.db".to_string()), "/cfg", "vaults.db"),
        Some("dev.db".to_string())
    );
    assert_eq!(database_url(BuildProfile::Debug, None, "/cfg", "vaults.db"), None);
}

#[test]
fn database_lies_in_the_config_dir_otherwise() {
    assert_eq!(
        database_url(BuildProfile::Release, Some("dev.db".to_string()), "/cfg", "vaults.db"),
        Some("/cfg/vaults.db".to_string())
    );
    assert_eq!(
        database_url(BuildProfile::Release, None, "/cfg/", "vaults.db"),
        Some("/cfg/vaults.db".to_string())
    );
}
