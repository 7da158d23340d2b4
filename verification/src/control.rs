use vstd::prelude::*;
use crate::errors::{ClassifiedError, ErrorModel, is_fatal_login_error};
use crate::session::{Credential, cred_result_model};
use crate::throttle::{limit_for, unit_result_model, derive_limit};

verus! {

/// The exit status of a run that ended on a fatal condition: a rejected
/// login, a missing cookie, or a sampling failure.
pub const FATAL_EXIT_CODE: u8 = 1;

/// Where the control loop stands between two events.
pub enum ControlState {
    /// No accepted credential is held; the next step is a login attempt.
    Authenticating,
    /// A credential is held and the poll cycle is running.
    Polling { credential: Credential },
    /// A fatal condition ended the run; `exit_code` is the process status.
    Terminated { exit_code: u8 },
}

/// The mathematical model of a `ControlState`.
pub enum StateModel {
    Authenticating,
    Polling { token: Seq<u8> },
    Terminated { exit_code: u8 },
}

impl View for ControlState {
    type V = StateModel;

    open spec fn view(&self) -> StateModel {
        match self {
            ControlState::Authenticating => StateModel::Authenticating,
            ControlState::Polling { credential } => StateModel::Polling {
                token: credential@,
            },
            ControlState::Terminated { exit_code } => StateModel::Terminated {
                exit_code: *exit_code,
            },
        }
    }
}

/// What the driver of the loop is asked to do next. The driver performs the
/// action and reports the outcome back; the loop itself never touches the
/// network or the clock.
pub enum Action {
    /// Send the login request now.
    Login,
    /// Wait one poll interval, then send the login request.
    WaitThenLogin,
    /// Sample the media server's active-session count now.
    Sample,
    /// Apply `limit` to the torrent client, authenticated with `credential`.
    Apply { credential: Credential, limit: u32 },
    /// Wait one poll interval, then sample again.
    WaitThenSample,
    /// End the process with status `code`.
    Exit { code: u8 },
}

/// The mathematical model of an `Action`.
pub enum ActionModel {
    Login,
    WaitThenLogin,
    Sample,
    Apply { token: Seq<u8>, limit: u32 },
    WaitThenSample,
    Exit { code: u8 },
}

impl View for Action {
    type V = ActionModel;

    open spec fn view(&self) -> ActionModel {
        match self {
            Action::Login => ActionModel::Login,
            Action::WaitThenLogin => ActionModel::WaitThenLogin,
            Action::Sample => ActionModel::Sample,
            Action::Apply { credential, limit } => ActionModel::Apply {
                token: credential@,
                limit: *limit,
            },
            Action::WaitThenSample => ActionModel::WaitThenSample,
            Action::Exit { code } => ActionModel::Exit { code: *code },
        }
    }
}

/// The transition taken on a login result. Success enters the poll cycle and
/// samples at once; a rejected login or a protocol violation ends the run;
/// a transient failure waits one interval and retries the login.
pub open spec fn login_step(r: Result<Seq<u8>, ErrorModel>) -> (StateModel, ActionModel) {
    match r {
        Ok(token) => (StateModel::Polling { token }, ActionModel::Sample),
        Err(e) => if is_fatal_login_error(e) {
            (
                StateModel::Terminated { exit_code: FATAL_EXIT_CODE },
                ActionModel::Exit { code: FATAL_EXIT_CODE },
            )
        } else {
            (StateModel::Authenticating, ActionModel::WaitThenLogin)
        },
    }
}

/// The transition taken on a sample result while polling. A count maps to an
/// apply action with the derived limit and leaves the state unchanged; any
/// sampling failure ends the run.
pub open spec fn sample_step(s: StateModel, r: Result<nat, ErrorModel>) -> (
    StateModel,
    ActionModel,
)
    recommends
        s is Polling,
{
    match r {
        Ok(n) => (s, ActionModel::Apply { token: s->Polling_token, limit: limit_for(n) }),
        Err(_) => (
            StateModel::Terminated { exit_code: FATAL_EXIT_CODE },
            ActionModel::Exit { code: FATAL_EXIT_CODE },
        ),
    }
}

/// The transition taken on an apply result while polling. An auth rejection
/// drops the credential and retries the login at once; every other outcome,
/// success or not, keeps the cycle going after one interval.
pub open spec fn apply_step(s: StateModel, r: Result<(), ErrorModel>) -> (
    StateModel,
    ActionModel,
)
    recommends
        s is Polling,
{
    match r {
        Ok(_) => (s, ActionModel::WaitThenSample),
        Err(e) => if e is AuthRejected {
            (StateModel::Authenticating, ActionModel::Login)
        } else {
            (s, ActionModel::WaitThenSample)
        },
    }
}

/// The session-driven throttling control loop as a state machine. The driver
/// owns the network and the clock; it performs each returned `Action` and
/// feeds the outcome back into the matching `on_*` method.
pub struct Controller {
    state: ControlState,
}

impl View for Controller {
    type V = StateModel;

    closed spec fn view(&self) -> StateModel {
        self.state@
    }
}

impl Controller {
    /// The machine starts unauthenticated, about to attempt a login.
    pub fn new() -> (c: Controller)
        ensures
            c@ is Authenticating,
    {
        Controller { state: ControlState::Authenticating }
    }

    /// The current state, for inspection by the driver.
    pub fn state(&self) -> (s: &ControlState)
        ensures
            s@ == self@,
    {
        &self.state
    }

    /// Feeds in the result of a login attempt.
    pub fn on_login(&mut self, r: Result<Credential, ClassifiedError>) -> (a: Action)
        requires
            old(self)@ is Authenticating,
        ensures
            (final(self)@, a@) == login_step(cred_result_model(r)),
    {
        match r {
            Ok(credential) => {
                self.state = ControlState::Polling { credential };
                Action::Sample
            },
            Err(e) => {
                match e {
                    ClassifiedError::Transient { .. } => Action::WaitThenLogin,
                    _ => {
                        self.state = ControlState::Terminated { exit_code: FATAL_EXIT_CODE };
                        Action::Exit { code: FATAL_EXIT_CODE }
                    },
                }
            },
        }
    }

    /// Feeds in the result of a session-count sample.
    pub fn on_sample(&mut self, r: Result<usize, ClassifiedError>) -> (a: Action)
        requires
            old(self)@ is Polling,
        ensures
            (final(self)@, a@) == sample_step(
                old(self)@,
                match r {
                    Ok(n) => Ok(n as nat),
                    Err(e) => Err(e@),
                },
            ),
    {
        match r {
            Ok(n) => {
                let limit = derive_limit(n);
                let credential = match &self.state {
                    ControlState::Polling { credential } => credential.duplicate(),
                    _ => Credential { token: Vec::new() },
                };
                Action::Apply { credential, limit }
            },
            Err(_) => {
                self.state = ControlState::Terminated { exit_code: FATAL_EXIT_CODE };
                Action::Exit { code: FATAL_EXIT_CODE }
            },
        }
    }

    /// Feeds in the result of an apply-limit call.
    pub fn on_apply(&mut self, r: Result<(), ClassifiedError>) -> (a: Action)
        requires
            old(self)@ is Polling,
        ensures
            (final(self)@, a@) == apply_step(old(self)@, unit_result_model(r)),
    {
        match r {
            Err(ClassifiedError::AuthRejected { .. }) => {
                self.state = ControlState::Authenticating;
                Action::Login
            },
            _ => Action::WaitThenSample,
        }
    }
}

/// A rejected login or a missing cookie ends the run with a non-zero exit
/// status, and the machine demands no further network action: the one action
/// left is to exit.
pub proof fn lemma_fatal_login_terminates(e: ErrorModel)
    requires
        e is AuthRejected || e is ProtocolViolation,
    ensures
        ({
            let (s, a) = login_step(Err(e));
            &&& s matches StateModel::Terminated { exit_code } && exit_code != 0
            &&& a matches ActionModel::Exit { code } && code != 0
        }),
{
}

/// An auth rejection from the apply call sends the loop out of polling and
/// back into authentication, with a fresh login as the immediate next action
/// rather than a retried apply, and it never terminates the process.
pub proof fn lemma_auth_rejection_reauthenticates(s: StateModel, e: ErrorModel)
    requires
        s is Polling,
        e is AuthRejected,
    ensures
        ({
            let (s2, a) = apply_step(s, Err(e));
            &&& s2 is Authenticating
            &&& a is Login
            &&& !(s2 is Terminated)
        }),
{
}

/// Two consecutive poll cycles that observe the same session count issue
/// identical apply actions: the first sample leaves the state unchanged, a
/// completed apply that was not an auth rejection leaves it unchanged again,
/// and the second sample therefore yields the same action as the first.
pub proof fn lemma_reapply_is_idempotent(s: StateModel, n: nat, r: Result<(), ErrorModel>)
    requires
        s is Polling,
        r matches Err(e) ==> !(e is AuthRejected),
    ensures
        ({
            let (s1, a1) = sample_step(s, Ok(n));
            let (s2, _) = apply_step(s1, r);
            let (s3, a3) = sample_step(s2, Ok(n));
            &&& s1 == s
            &&& s2 == s
            &&& s3 == s
            &&& a3 == a1
        }),
{
}

} // verus!
