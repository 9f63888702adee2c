use dropbox_dir::{pick_config_path, unix_config_candidates, windows_config_candidates};

#[test]
fn unix_candidate_is_under_home() {
    assert_eq!(
        unix_config_candidates(Some("/home/u")),
        vec!["/home/u/.dropbox/info.json".to_string()]
    );
    assert_eq!(
        unix_config_candidates(Some("/")),
        vec!["/.dropbox/info.json".to_string()]
    );
}

#[test]
fn unknown_home_gives_no_candidate() {
    assert!(unix_config_candidates(None).is_empty());
}

#[test]
fn windows_candidates_roaming_first() {
    let c = windows_config_candidates("C:/Users/u/AppData/Roaming", "C:/Users/u/AppData/Local");
    assert_eq!(
        c,
        vec![
            "C:/Users/u/AppData/Roaming/Dropbox/info.json".to_string(),
            "C:/Users/u/AppData/Local/Dropbox/info.json".to_string(),
        ]
    );
}

#[test]
fn windows_candidates_with_unset_variables() {
    let c = windows_config_candidates("", "");
    assert_eq!(c[0], "Dropbox/info.json");
    assert_eq!(c[1], "Dropbox/info.json");
}

#[test]
fn roaming_file_is_preferred() {
    let c = vec!["roaming".to_string(), "local".to_string()];
    assert_eq!(pick_config_path(&c, &vec![true, true]), Some("roaming".to_string()));
    assert_eq!(pick_config_path(&c, &vec![true, false]), Some("roaming".to_string()));
}

#[test]
fn local_file_is_the_fallback() {
    let c = vec!["roaming".to_string(), "local".to_string()];
    assert_eq!(pick_config_path(&c, &vec![false, true]), Some("local".to_string()));
}

#[test]
fn no_file_means_not_configured() {
    let c = vec!["roaming".to_string(), "local".to_string()];
    assert_eq!(pick_config_path(&c, &vec![false, false]), None);
    assert_eq!(pick_config_path(&Vec::new(), &Vec::new()), None);
}
