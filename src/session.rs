use vstd::prelude::*;

use cookie_store::CookieStore;

verus! {

#[verifier::external_type_specification]
#[verifier::external_body]
pub struct ExCookieStore(cookie_store::CookieStore);

/// The ways in which talking to the server, or keeping the session, can fail.
#[derive(PartialEq, Eq, Structural, Clone, Copy, Debug)]
pub enum OgsError {
    /// The session file could not be read or written.
    Io,
    /// The login was refused, or the session is no longer accepted.
    Auth,
    /// The request did not get through.
    Network,
    /// The server's answer could not be read.
    Decode,
    /// The stored session could not be read back as a cookie jar.
    CorruptSession,
}

/// The line that describes `e`.
pub open spec fn description(e: OgsError) -> Seq<char> {
    match e {
        OgsError::Io => "could not access the session file"@,
        OgsError::Auth => "the server refused the credentials or the session"@,
        OgsError::Network => "the request to the server failed"@,
        OgsError::Decode => "the server's answer could not be decoded"@,
        OgsError::CorruptSession => "the stored session is corrupt"@,
    }
}

impl OgsError {
    /// A line that describes the error.
    pub fn describe(&self) -> (r: &'static str)
        ensures
            r@ == description(*self),
    {
        match self {
            OgsError::Io => "could not access the session file",
            OgsError::Auth => "the server refused the credentials or the session",
            OgsError::Network => "the request to the server failed",
            OgsError::Decode => "the server's answer could not be decoded",
            OgsError::CorruptSession => "the stored session is corrupt",
        }
    }
}

/// What was found at the session file's place.
pub enum SessionFile {
    /// The file exists; these are its bytes.
    Present(Vec<u8>),
    /// There is no file.
    Missing,
    /// The file could not be read for another reason.
    Unreadable,
}

/// How a session begins.
pub enum SessionStart {
    /// A stored cookie jar was read back: no login is needed.
    Resume(CookieStore),
    /// There is no stored session: ask for credentials and log in.
    Login,
}

/// Whether `bytes` reads back as a cookie jar saved one JSON cookie per line.
pub uninterp spec fn cookie_jar_loads(bytes: Seq<u8>) -> bool;

/// Relies on `CookieStore::load_json`: it reads the input line by line, parses each line
/// as one cookie and fails when a line fails, so success depends on the bytes alone, and
/// input without lines is an empty jar.
#[verifier::external_body]
#[allow(deprecated)]
fn load_cookie_jar(bytes: &[u8]) -> (r: Option<CookieStore>)
    ensures
        r.is_some() == cookie_jar_loads(bytes@),
        bytes@.len() == 0 ==> r.is_some(),
{
    CookieStore::load_json(bytes).ok()
}

/// Relies on `CookieStore::save_json`, which writes each unexpired persistent cookie of
/// the jar as one JSON line.
#[verifier::external_body]
#[allow(deprecated)]
fn save_cookie_jar(jar: &CookieStore) -> Option<Vec<u8>> {
    let mut bytes: Vec<u8> = Vec::new();
    jar.save_json(&mut bytes).ok().map(|_| bytes)
}

/// The bytes that keep `jar` as a session file. They are handed out only once they are
/// seen to load back, so a session opened from them is resumed with no login (see
/// `open_session`); a jar that cannot be saved so is an error.
pub fn persist_session(jar: &CookieStore) -> (r: Result<Vec<u8>, OgsError>)
    ensures
        r matches Ok(bytes) ==> cookie_jar_loads(bytes@),
        r matches Err(e) ==> e == OgsError::Io,
{
    match save_cookie_jar(jar) {
        Some(bytes) => match load_cookie_jar(bytes.as_slice()) {
            Some(_) => Ok(bytes),
            None => Err(OgsError::Io),
        },
        None => Err(OgsError::Io),
    }
}

/// Decides how the session begins from what was found at the session file's place: a
/// stored jar is resumed, a missing file asks for a login, an unreadable file or a jar that
/// does not load is an error.
pub fn open_session(file: SessionFile) -> (r: Result<SessionStart, OgsError>)
    ensures
        match file {
            SessionFile::Present(bytes) => if cookie_jar_loads(bytes@) {
                r matches Ok(SessionStart::Resume(_))
            } else {
                r == Err::<SessionStart, OgsError>(OgsError::CorruptSession)
            },
            SessionFile::Missing => r matches Ok(SessionStart::Login),
            SessionFile::Unreadable => r == Err::<SessionStart, OgsError>(OgsError::Io),
        },
{
    match file {
        SessionFile::Present(bytes) => match load_cookie_jar(bytes.as_slice()) {
            Some(jar) => Ok(SessionStart::Resume(jar)),
            None => Err(OgsError::CorruptSession),
        },
        SessionFile::Missing => Ok(SessionStart::Login),
        SessionFile::Unreadable => Err(OgsError::Io),
    }
}

/// Whether `status` is a success status (2xx).
pub open spec fn is_success(status: u16) -> bool {
    200 <= status < 300
}

/// A login succeeds exactly when the server answers with a success status.
pub fn login_outcome(status: u16) -> (r: Result<(), OgsError>)
    ensures
        is_success(status) ==> r == Ok::<(), OgsError>(()),
        !is_success(status) ==> r == Err::<(), OgsError>(OgsError::Auth),
{
    if 200 <= status && status < 300 {
        Ok(())
    } else {
        Err(OgsError::Auth)
    }
}

/// The error for a read that failed: with no status the request did not get through; a
/// status of 401 or 403 means the session is no longer accepted; any other status is a
/// failure of the exchange.
pub fn request_error(status: Option<u16>) -> (r: OgsError)
    ensures
        r == (match status {
            Some(s) => if s == 401 || s == 403 {
                OgsError::Auth
            } else {
                OgsError::Network
            },
            None => OgsError::Network,
        }),
{
    match status {
        Some(s) => if s == 401 || s == 403 {
            OgsError::Auth
        } else {
            OgsError::Network
        },
        None => OgsError::Network,
    }
}

} // verus!
