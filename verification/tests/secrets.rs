use plant_telemetry::secrets::{default_api_url, resolve, secret_url};

#[test]
fn manager_value_wins() {
    let r = resolve(Some(Ok("m".to_string())), Some("e".to_string()), "id", "VAR");
    assert_eq!(r, Ok("m".to_string()));
    let r = resolve(Some(Ok("m".to_string())), None, "id", "VAR");
    assert_eq!(r, Ok("m".to_string()));
}

#[test]
fn environment_is_the_fallback() {
    let r = resolve(Some(Err("down".to_string())), Some("e".to_string()), "id", "VAR");
    assert_eq!(r, Ok("e".to_string()));
    let r = resolve(None, Some("e".to_string()), "id", "VAR");
    assert_eq!(r, Ok("e".to_string()));
}

#[test]
fn missing_everywhere_is_an_error() {
    let want = "Secret 'db-url' not found in Bitwarden and env var 'DATABASE_URL' is not set";
    assert_eq!(resolve(None, None, "db-url", "DATABASE_URL"), Err(want.to_string()));
    assert_eq!(
        resolve(Some(Err("down".to_string())), None, "db-url", "DATABASE_URL"),
        Err(want.to_string())
    );
}

#[test]
fn secret_addresses() {
    assert_eq!(default_api_url(), "https://api.bitwarden.com");
    assert_eq!(secret_url("https://api.bitwarden.com", "abc"), "https://api.bitwarden.com/secrets/abc");
    assert_eq!(secret_url("", ""), "/secrets/");
}
