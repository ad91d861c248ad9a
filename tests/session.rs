use std::path::PathBuf;

use cookie_store::CookieStore;
use ogs_notify::config::Config;
use ogs_notify::session::{login_outcome, open_session, persist_session, request_error, OgsError, SessionFile, SessionStart};
use ogs_notify::state::IconState;

const COOKIE_LINE: &str = r#"{"raw_cookie":"sessionid=abc; Path=/; Expires=Tue, 03 Aug 2100 00:38:37 GMT","path":["/",true],"domain":{"HostOnly":"online-go.com"},"expires":{"AtUtc":"2100-08-03T00:38:37Z"}}"#;

fn resumed(r: Result<SessionStart, OgsError>) -> CookieStore {
    match r {
        Ok(SessionStart::Resume(jar)) => jar,
        Ok(SessionStart::Login) => panic!("asked for a login"),
        Err(e) => panic!("failed: {:?}", e),
    }
}

#[test]
fn corrupt_session_file_fails_without_login() {
    let r = open_session(SessionFile::Present(b"{ this is not json".to_vec()));
    assert!(matches!(r, Err(OgsError::CorruptSession)));
}

#[test]
fn missing_session_file_asks_for_login() {
    assert!(matches!(open_session(SessionFile::Missing), Ok(SessionStart::Login)));
}

#[test]
fn unreadable_session_file_is_an_io_error() {
    assert!(matches!(open_session(SessionFile::Unreadable), Err(OgsError::Io)));
}

#[test]
fn empty_session_file_is_an_empty_jar() {
    let jar = resumed(open_session(SessionFile::Present(Vec::new())));
    assert_eq!(jar.iter_any().count(), 0);
}

#[test]
#[allow(deprecated)]
fn saved_session_loads_back_with_its_cookie() {
    let jar = resumed(open_session(SessionFile::Present(COOKIE_LINE.as_bytes().to_vec())));
    assert!(jar.contains_any("online-go.com", "/", "sessionid"));
    let mut saved: Vec<u8> = Vec::new();
    jar.save_json(&mut saved).unwrap();
    let again = resumed(open_session(SessionFile::Present(saved)));
    assert!(again.contains_any("online-go.com", "/", "sessionid"));
    assert_eq!(again.iter_any().count(), 1);
}

#[test]
fn login_refused_is_an_auth_error() {
    assert_eq!(login_outcome(401), Err(OgsError::Auth));
    assert_eq!(login_outcome(500), Err(OgsError::Auth));
    assert_eq!(login_outcome(199), Err(OgsError::Auth));
    assert_eq!(login_outcome(300), Err(OgsError::Auth));
}

#[test]
fn login_accepted_on_200() {
    assert_eq!(login_outcome(200), Ok(()));
    assert_eq!(login_outcome(201), Ok(()));
    assert_eq!(login_outcome(299), Ok(()));
}

#[test]
fn request_errors_are_classified() {
    assert_eq!(request_error(None), OgsError::Network);
    assert_eq!(request_error(Some(401)), OgsError::Auth);
    assert_eq!(request_error(Some(403)), OgsError::Auth);
    assert_eq!(request_error(Some(500)), OgsError::Network);
    assert_eq!(request_error(Some(404)), OgsError::Network);
}

#[test]
fn error_descriptions() {
    assert_eq!(OgsError::Io.describe(), "could not access the session file");
    assert_eq!(OgsError::Auth.describe(), "the server refused the credentials or the session");
    assert_eq!(OgsError::Network.describe(), "the request to the server failed");
    assert_eq!(OgsError::Decode.describe(), "the server's answer could not be decoded");
    assert_eq!(OgsError::CorruptSession.describe(), "the stored session is corrupt");
}

#[test]
fn persisted_session_resumes_without_login() {
    let jar = resumed(open_session(SessionFile::Present(COOKIE_LINE.as_bytes().to_vec())));
    let saved = persist_session(&jar).unwrap();
    assert!(!saved.is_empty());
    let again = resumed(open_session(SessionFile::Present(saved)));
    assert!(again.contains_any("online-go.com", "/", "sessionid"));
}

#[test]
fn persisting_an_empty_jar_gives_no_lines() {
    let jar = resumed(open_session(SessionFile::Present(Vec::new())));
    assert!(persist_session(&jar).unwrap().is_empty());
}

#[test]
fn config_lays_out_the_data_directory() {
    let c = Config::from_data_dir(&PathBuf::from("/data/ogs-notify"));
    assert_eq!(c.cookie_file, PathBuf::from("/data/ogs-notify/cookies.json"));
    assert_eq!(c.icon_dir, PathBuf::from("/data/ogs-notify/icons"));
    assert_eq!(c.check_interval_secs, 60);
    assert_eq!(c.icon_path(IconState::Awaiting), PathBuf::from("/data/ogs-notify/icons/ogs_icon_awaiting.png"));
    assert_eq!(c.icon_path(IconState::Idle), PathBuf::from("/data/ogs-notify/icons/ogs_icon.png"));
}
