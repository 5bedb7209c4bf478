use bambu_launcher::config::{Config, MISSING_VALUE, REPEATED_PROFILE};

#[test]
fn args_empty() {
    let args = vec![String::from("test.exe")];
    let config = Config::new(args).unwrap();
    assert_eq!(config.profile, None);
    assert_eq!(config.others, Vec::<String>::new());
}

#[test]
fn args_only_profile() {
    let args = vec![
        String::from("test.exe"),
        String::from("--profile"),
        String::from("profile"),
    ];
    let config = Config::new(args).unwrap();
    assert_eq!(config.profile, Some(String::from("profile")));
    assert_eq!(config.others, Vec::<String>::new());
}

#[test]
fn args_only_others() {
    let args = vec![String::from("test.exe"), String::from("filename.3mf")];
    let config = Config::new(args).unwrap();
    assert_eq!(config.profile, None);
    assert_eq!(config.others, vec![String::from("filename.3mf")]);
}

#[test]
fn args_profile_others() {
    let args = vec![
        String::from("test.exe"),
        String::from("--profile"),
        String::from("profile"),
        String::from("filename.3mf"),
    ];
    let config = Config::new(args).unwrap();
    assert_eq!(config.profile, Some(String::from("profile")));
    assert_eq!(config.others, vec![String::from("filename.3mf")]);
}

#[test]
fn args_othrers_profile() {
    let args = vec![
        String::from("test.exe"),
        String::from("filename.3mf"),
        String::from("--profile"),
        String::from("profile"),
    ];
    let config = Config::new(args).unwrap();
    assert_eq!(config.profile, Some(String::from("profile")));
    assert_eq!(config.others, vec![String::from("filename.3mf")]);
}

#[test]
#[should_panic(expected = "Value expected for '--profile'.")]
fn args_profile_without_value() {
    let args = vec![String::from("test.exe"), String::from("--profile")];
    Config::new(args).unwrap();
}

#[test]
#[should_panic(expected = "'--profile' option is not allowed more than '1' time(s).")]
fn args_multiple_profile() {
    let args = vec![
        String::from("test.exe"),
        String::from("--profile"),
        String::from("profile1"),
        String::from("--profile"),
        String::from("profile2"),
    ];
    Config::new(args).unwrap();
}

#[test]
fn args_no_program_name() {
    let config = Config::new(Vec::new()).unwrap();
    assert_eq!(config.profile, None);
    assert!(config.others.is_empty());
}

#[test]
fn args_missing_value_error() {
    let args = vec![String::from("a.exe"), String::from("x"), String::from("--profile")];
    assert_eq!(Config::new(args).err(), Some(MISSING_VALUE));
}

#[test]
fn args_repeated_profile_error() {
    let args = vec![
        String::from("a.exe"),
        String::from("--profile"),
        String::from("p"),
        String::from("--profile"),
    ];
    assert_eq!(Config::new(args).err(), Some(REPEATED_PROFILE));
}

#[test]
fn args_flag_as_value() {
    let args = vec![
        String::from("a.exe"),
        String::from("--profile"),
        String::from("--profile"),
        String::from("b"),
    ];
    let config = Config::new(args).unwrap();
    assert_eq!(config.profile, Some(String::from("--profile")));
    assert_eq!(config.others, vec![String::from("b")]);
}
