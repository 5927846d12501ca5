use wise::connection::{RconConnection, Received};
use wise::credentials::RconCredentials;
use wise::error::{IoErrorKind, RconError};
use wise::messages::RconResponse;
use wise::services::connection_pool::{Attempts, ConnectionPool, PoolError, Verdict, MAX_RETRIES};

fn credentials() -> RconCredentials {
    RconCredentials { address: String::from("127.0.0.1:7779"), password: String::from("pw") }
}

fn response(status: i32, body: &str) -> RconResponse {
    RconResponse {
        status_code: status,
        status_message: String::new(),
        version: 2,
        name: String::from("n"),
        content_body: String::from(body),
    }
}

fn logged_in(id: u64) -> RconConnection<()> {
    let mut session = RconConnection::new(id, ());
    session.accept_key(&response(200, "YWJjZA==")).unwrap();
    session.accept_login(&response(200, "tok")).unwrap();
    session
}

#[test]
fn a_returned_session_is_the_next_one_acquired() {
    let mut pool: ConnectionPool<()> = ConnectionPool::new(credentials());
    assert!(pool.get_connection().is_none());
    pool.return_connection(logged_in(41));
    assert_eq!(pool.len(), 1);
    let again = pool.get_connection().unwrap();
    assert_eq!(again.id(), 41);
    assert_eq!(pool.len(), 0);
}

#[test]
fn sessions_are_reused_in_the_order_of_their_return() {
    let mut pool: ConnectionPool<()> = ConnectionPool::new(credentials());
    pool.return_connection(logged_in(1));
    pool.return_connection(logged_in(2));
    pool.return_connection(logged_in(3));
    assert_eq!(pool.get_connection().unwrap().id(), 1);
    pool.return_connection(logged_in(4));
    assert_eq!(pool.get_connection().unwrap().id(), 2);
    assert_eq!(pool.get_connection().unwrap().id(), 3);
    assert_eq!(pool.get_connection().unwrap().id(), 4);
    assert!(pool.get_connection().is_none());
}

#[test]
fn a_session_on_which_a_call_failed_is_not_in_the_pool() {
    let mut pool: ConnectionPool<()> = ConnectionPool::new(credentials());
    pool.return_connection(logged_in(1));
    pool.return_connection(logged_in(2));
    let used = pool.get_connection().unwrap();
    assert_eq!(used.id(), 1);
    let mut attempts = Attempts::new();
    let verdict: Verdict<u8> = pool.settle(&mut attempts, used, Err(RconError::InvalidJson));
    assert_eq!(verdict, Verdict::Retry);
    assert_eq!(attempts.failures, 1);
    assert_eq!(pool.len(), 1);
    assert_eq!(pool.get_connection().unwrap().id(), 2);
    assert!(pool.get_connection().is_none());
}

#[test]
fn a_session_that_served_well_goes_back() {
    let mut pool: ConnectionPool<()> = ConnectionPool::new(credentials());
    let mut attempts = Attempts::new();
    let verdict = pool.settle(&mut attempts, logged_in(5), Ok(17u8));
    assert_eq!(verdict, Verdict::Done(17));
    assert_eq!(attempts.failures, 0);
    assert_eq!(pool.get_connection().unwrap().id(), 5);
}

#[test]
fn the_fifth_failure_in_a_row_is_unrecoverable() {
    let mut pool: ConnectionPool<()> = ConnectionPool::new(credentials());
    let mut attempts = Attempts::new();
    for n in 1..MAX_RETRIES {
        let verdict: Verdict<()> = pool.settle(
            &mut attempts,
            logged_in(n as u64),
            Err(RconError::IoError(IoErrorKind::ConnectionReset)),
        );
        assert_eq!(verdict, Verdict::Retry);
        assert_eq!(attempts.failures, n);
    }
    let verdict: Verdict<()> = pool.settle(&mut attempts, logged_in(9), Err(RconError::TimeOut));
    assert_eq!(verdict, Verdict::GiveUp(PoolError::Unrecoverable(RconError::TimeOut)));
    assert_eq!(attempts.failures, 5);
    assert_eq!(pool.len(), 0);
}

#[test]
fn a_refused_password_surfaces_at_once() {
    let mut pool: ConnectionPool<()> = ConnectionPool::new(credentials());
    let mut attempts = Attempts::new();
    let verdict: Verdict<()> =
        pool.settle(&mut attempts, RconConnection::new(1, ()), Err(RconError::InvalidPassword));
    assert_eq!(verdict, Verdict::GiveUp(PoolError::Unrecoverable(RconError::InvalidPassword)));
    assert_eq!(PoolError::from(RconError::InvalidPassword), PoolError::Unrecoverable(RconError::InvalidPassword));
}

#[test]
fn other_errors_are_recoverable() {
    for e in [
        RconError::IoError(IoErrorKind::ConnectionReset),
        RconError::IoError(IoErrorKind::Other),
        RconError::TimeOut,
        RconError::InvalidData("x"),
        RconError::InvalidJson,
        RconError::ParsingError("log line"),
        RconError::Failure,
    ] {
        assert_eq!(PoolError::from(e), PoolError::Recoverable(e));
    }
}

#[test]
fn a_session_whose_read_timed_out_stays_out_of_the_pool() {
    let mut pool: ConnectionPool<()> = ConnectionPool::new(credentials());
    let mut session = logged_in(1);
    assert_eq!(session.accept_header(Received::TimedOut), Err(RconError::TimeOut));
    pool.return_connection(session);
    assert_eq!(pool.len(), 0);
    assert!(pool.get_connection().is_none());
}

#[test]
fn a_session_that_is_not_logged_in_is_not_kept() {
    let mut pool: ConnectionPool<()> = ConnectionPool::new(credentials());
    pool.return_connection(RconConnection::new(1, ()));
    assert_eq!(pool.len(), 0);
}

#[test]
fn the_pool_keeps_its_credentials() {
    let mut pool: ConnectionPool<()> = ConnectionPool::new(credentials());
    assert_eq!(pool.credentials().password, "pw");
    pool.set_credentials(RconCredentials {
        address: String::from("10.0.0.1:1"),
        password: String::from("other"),
    });
    assert_eq!(pool.credentials().address, "10.0.0.1:1");
}
