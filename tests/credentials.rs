use creddock::credentials::{get_default_credentials_path, ConfigError, OsFamily};

#[test]
fn unix_default_path_is_under_home_config() {
    let r = get_default_credentials_path(OsFamily::Unix, Some("/home/ann".to_string()), None);
    assert_eq!(r, Ok("/home/ann/.config/gcloud/application_default_credentials.json".to_string()));
}

#[test]
fn windows_default_path_is_under_appdata() {
    let r = get_default_credentials_path(
        OsFamily::Windows,
        Some("/home/ann".to_string()),
        Some("C:/Users/ann/AppData/Roaming".to_string()),
    );
    assert_eq!(
        r,
        Ok("C:/Users/ann/AppData/Roaming/gcloud/application_default_credentials.json".to_string())
    );
}

#[test]
fn unix_ignores_appdata() {
    let r = get_default_credentials_path(OsFamily::Unix, None, Some("/appdata".to_string()));
    assert_eq!(r, Err(ConfigError::HomeUnset));
}

#[test]
fn windows_without_appdata_fails() {
    let r = get_default_credentials_path(OsFamily::Windows, Some("/home/ann".to_string()), None);
    assert_eq!(r, Err(ConfigError::AppDataUnset));
}

#[test]
fn other_family_is_unsupported() {
    let r = get_default_credentials_path(
        OsFamily::Other,
        Some("/home/ann".to_string()),
        Some("/appdata".to_string()),
    );
    assert_eq!(r, Err(ConfigError::UnsupportedOs));
    assert_eq!(ConfigError::UnsupportedOs.message(), "Unsupported OS");
}

#[test]
fn empty_home_still_gets_the_suffix() {
    let r = get_default_credentials_path(OsFamily::Unix, Some(String::new()), None);
    assert_eq!(r, Ok("/.config/gcloud/application_default_credentials.json".to_string()));
}

#[test]
fn family_names_are_read() {
    assert_eq!(OsFamily::from_name("unix"), OsFamily::Unix);
    assert_eq!(OsFamily::from_name("windows"), OsFamily::Windows);
    assert_eq!(OsFamily::from_name("wasm"), OsFamily::Other);
    assert_eq!(OsFamily::from_name(""), OsFamily::Other);
    assert_eq!(OsFamily::from_name("Unix"), OsFamily::Other);
}
