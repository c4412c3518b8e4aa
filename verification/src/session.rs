//! Locking the current session and logging in with a personal access token.

use vstd::prelude::*;

verus! {

/// The session subcommands of the command line tool.
#[derive(Debug)]
pub enum SessionCommands {
    /// Lock the current session with a PIN; the session unlocks itself
    /// after `lock_time` seconds.
    Lock { pin: String, lock_time: u32 },
}

/// The shortest time, in seconds, after which a locked session unlocks.
pub const MIN_LOCK_TIME_SECONDS: u32 = 30;

/// The longest time, in seconds, after which a locked session unlocks.
pub const MAX_LOCK_TIME_SECONDS: u32 = 900;

impl SessionCommands {
    /// Checks the arguments of the subcommand: the lock time lies between
    /// `MIN_LOCK_TIME_SECONDS` and `MAX_LOCK_TIME_SECONDS`, both included.
    pub fn validate(&self) -> (r: Result<(), SessionLockError>)
        ensures
            match self {
                SessionCommands::Lock { lock_time, .. } => if MIN_LOCK_TIME_SECONDS <= *lock_time
                    <= MAX_LOCK_TIME_SECONDS {
                    r is Ok
                } else {
                    r == Err::<(), SessionLockError>(SessionLockError::LockTimeOutOfRange)
                },
            },
    {
        match self {
            SessionCommands::Lock { lock_time, .. } => {
                if MIN_LOCK_TIME_SECONDS <= *lock_time && *lock_time <= MAX_LOCK_TIME_SECONDS {
                    Ok(())
                } else {
                    Err(SessionLockError::LockTimeOutOfRange)
                }
            },
        }
    }
}

/// Why the session cannot be locked.
#[derive(Debug, Clone, Copy, PartialEq, Eq)]
pub enum SessionLockError {
    /// Sessions of the SSH agent cannot be locked.
    AgentSession,
    /// The session has no lock configured.
    NoLock,
    /// The lock time lies outside the accepted range.
    LockTimeOutOfRange,
}

impl SessionLockError {
    /// The message shown to the user.
    pub fn message(&self) -> (r: String)
        ensures
            r@ == match self {
                SessionLockError::AgentSession => "Session lock is not available for agent sessions"@,
                SessionLockError::NoLock => "Session has no lock. Create one first with `pass-cli session create-lock`"@,
                SessionLockError::LockTimeOutOfRange => "Lock time must be between 30 and 900 seconds"@,
            },
    {
        match self {
            SessionLockError::AgentSession => String::from_str(
                "Session lock is not available for agent sessions",
            ),
            SessionLockError::NoLock => String::from_str(
                "Session has no lock. Create one first with `pass-cli session create-lock`",
            ),
            SessionLockError::LockTimeOutOfRange => String::from_str(
                "Lock time must be between 30 and 900 seconds",
            ),
        }
    }
}

/// Decides whether the session may be locked now: agent sessions never, and
/// other sessions only once a lock has been configured.
pub fn check_session_lock(is_agent_session: bool, lock_configured: bool) -> (r: Result<(), SessionLockError>)
    ensures
        is_agent_session ==> r == Err::<(), SessionLockError>(SessionLockError::AgentSession),
        !is_agent_session && !lock_configured ==> r == Err::<(), SessionLockError>(
            SessionLockError::NoLock,
        ),
        !is_agent_session && lock_configured ==> r is Ok,
{
    if is_agent_session {
        return Err(SessionLockError::AgentSession);
    }
    if !lock_configured {
        return Err(SessionLockError::NoLock);
    }
    Ok(())
}

/// The line printed after a login with a personal access token.
pub fn login_success_message(token_name: &str) -> (r: String)
    ensures
        r@ == "Successfully logged in as personal access token: "@ + token_name@,
{
    String::from_str("Successfully logged in as personal access token: ").concat(token_name)
}

} // verus!
