use trster::config::{Concurrency, Config, Language, RunningMode};
use trster::preferences::{TestPlace, TrstPreferences, TrstPreferencesMessage};

#[test]
fn config_accessors_return_the_fields() {
    let config = Config::new(
        RunningMode::Local {
            in_test_path: "in".to_string(),
            out_test_path: "out".to_string(),
            err_test_path: "err".to_string(),
            compiled_program_path: "prog".to_string(),
        },
        vec!["t1".to_string(), "t2".to_string()],
        Language::Cpp,
        Concurrency::Enabled(3),
    );
    assert_eq!(config.test_names().len(), 2);
    assert_eq!(config.test_names()[0], "t1");
    assert!(matches!(config.concurrency_settings(), Concurrency::Enabled(3)));
    assert!(matches!(config.running_mode(), RunningMode::Local { .. }));
}

#[test]
fn concurrency_slots_default_to_one_when_disabled() {
    assert_eq!(Concurrency::Disabled.slots(), 1);
    assert_eq!(Concurrency::Enabled(4).slots(), 4);
}

#[test]
fn running_mode_names() {
    let local = RunningMode::Local {
        in_test_path: "i".to_string(),
        out_test_path: "o".to_string(),
        err_test_path: "e".to_string(),
        compiled_program_path: "p".to_string(),
    };
    assert_eq!(local.mode_name(), "Local mode");
    let git = RunningMode::GitRepository {
        address: "git://somewhere".to_string(),
    };
    assert_eq!(git.mode_name(), "Git repository mode");
}

#[test]
fn test_place_descriptions() {
    assert_eq!(TestPlace::Local.desc(), "Local instance");
    assert_eq!(TestPlace::Ssh.desc(), "Ssh instance");
}

#[test]
fn preferences_update_changes_only_the_addressed_field() {
    let mut prefs = TrstPreferences::default();
    assert!(!prefs.concurrency);
    assert!(prefs.test_place.is_none());
    assert_eq!(prefs.git_address, "");

    prefs.update(TrstPreferencesMessage::ConcurrencySelected(true));
    assert!(prefs.concurrency);
    assert!(prefs.test_place.is_none());

    prefs.update(TrstPreferencesMessage::TestPlaceSelected(TestPlace::Ssh));
    assert_eq!(prefs.test_place, Some(TestPlace::Ssh));
    assert!(prefs.concurrency);

    prefs.update(TrstPreferencesMessage::GitAddressChange("git://x".to_string()));
    assert_eq!(prefs.git_address, "git://x");
    assert_eq!(prefs.test_place, Some(TestPlace::Ssh));
    assert!(prefs.concurrency);
}
