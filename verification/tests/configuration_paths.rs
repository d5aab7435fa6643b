use whim::configuration::{expand_home, Config, HTTPS_PORT, HTTP_PORT, TLS};

fn home() -> Result<String, String> {
    Ok(String::from("/home/ada"))
}

fn no_home() -> Result<String, String> {
    Err(String::from("environment variable not found"))
}

#[test]
fn ports() {
    assert_eq!(HTTP_PORT, 8000);
    assert_eq!(HTTPS_PORT, 3000);
}

#[test]
fn absolute_path_is_unchanged() {
    assert_eq!(expand_home(String::from("/etc/whim/crt.pem"), home()), Ok(String::from("/etc/whim/crt.pem")));
}

#[test]
fn relative_path_is_unchanged_even_without_home() {
    assert_eq!(expand_home(String::from("certs/crt.pem"), no_home()), Ok(String::from("certs/crt.pem")));
}

#[test]
fn tilde_path_is_under_home() {
    assert_eq!(expand_home(String::from("~/.whim/key.pem"), home()), Ok(String::from("/home/ada/.whim/key.pem")));
}

#[test]
fn tilde_alone_is_home() {
    assert_eq!(expand_home(String::from("~"), home()), Ok(String::from("/home/ada/")));
    assert_eq!(expand_home(String::from("~/"), home()), Ok(String::from("/home/ada/")));
}

#[test]
fn tilde_without_separator_is_not_home() {
    assert_eq!(expand_home(String::from("~ada/key.pem"), home()), Ok(String::from("~ada/key.pem")));
}

#[test]
fn tilde_path_without_home_fails() {
    assert_eq!(expand_home(String::from("~/key.pem"), no_home()), Err(String::from("environment variable not found")));
}

fn config(crt: &str, key: &str) -> Config {
    Config { tls: TLS { crt: crt.to_string(), key: key.to_string(), pass: String::from("pass:secret") } }
}

#[test]
fn config_paths_are_expanded() {
    let c = config("~/crt.pem", "/keys/key.pem").expand_home_paths(home()).ok().unwrap();
    assert_eq!(c.tls.crt, "/home/ada/crt.pem");
    assert_eq!(c.tls.key, "/keys/key.pem");
    assert_eq!(c.tls.pass, "pass:secret");
}

#[test]
fn config_without_tilde_needs_no_home() {
    let c = config("crt.pem", "key.pem").expand_home_paths(no_home()).ok().unwrap();
    assert_eq!(c.tls.crt, "crt.pem");
    assert_eq!(c.tls.key, "key.pem");
}

#[test]
fn config_key_under_home_without_home_fails() {
    match config("/crt.pem", "~/key.pem").expand_home_paths(no_home()) {
        Err(e) => assert_eq!(e, "environment variable not found"),
        Ok(_) => panic!("expected the home directory's error"),
    }
}

#[test]
fn home_with_trailing_separator_is_not_doubled() {
    assert_eq!(expand_home(String::from("~/a/b"), Ok::<String, String>(String::from("/home/u/"))), Ok(String::from("/home/u/a/b")));
}

#[test]
fn expanding_twice_is_expanding_once() {
    let once = expand_home(String::from("~/a/b"), home()).unwrap();
    assert_eq!(once, "/home/ada/a/b");
    assert_eq!(expand_home(once.clone(), home()), Ok(once));
}

#[test]
fn other_users_home_is_not_expanded() {
    assert_eq!(expand_home(String::from("~user/k"), home()), Ok(String::from("~user/k")));
}
