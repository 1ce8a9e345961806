//! The per-connection session: a state machine from chat commands and login
//! outcomes to a new state and the action that the connection should take.

use vstd::prelude::*;
use vstd::string::StringExecFns;

verus! {

/// The access token and device identifier established by a successful login.
#[derive(Clone, Debug)]
pub struct Credential {
    pub access_token: String,
    pub device_id: String,
}

impl View for Credential {
    type V = (Seq<char>, Seq<char>);

    open spec fn view(&self) -> (Seq<char>, Seq<char>) {
        (self.access_token@, self.device_id@)
    }
}

impl Credential {
    pub fn new(access_token: String, device_id: String) -> (r: Credential)
        ensures
            r@ == (access_token@, device_id@),
    {
        Credential { access_token, device_id }
    }
}

#[derive(PartialEq, Eq, Structural, Clone, Copy, Debug)]
pub enum SessionState {
    Anonymous,
    AwaitingLogin,
    Authenticated,
}

/// A decoded chat command.
#[derive(Clone, Debug)]
pub enum Command {
    /// Stage a secret (a password or login token) for the next login.
    StageSecret(String),
    /// Declare the user's identity, which starts a login.
    DeclareIdentity(String),
    /// Join the given channels.
    Join(String),
    /// Any command that the session does not act on.
    Other,
}

/// Everything that can happen to a session.
pub enum Event {
    Stage(Seq<char>),
    Declare(Seq<char>),
    Join(Seq<char>),
    Other,
    LoginSucceeded(Seq<char>, Seq<char>),
    LoginFailed,
}

impl Command {
    pub open spec fn event(&self) -> Event {
        match self {
            Command::StageSecret(s) => Event::Stage(s@),
            Command::DeclareIdentity(u) => Event::Declare(u@),
            Command::Join(c) => Event::Join(c@),
            Command::Other => Event::Other,
        }
    }
}

/// The event that the outcome of a login call is.
pub open spec fn login_event(result: Result<Credential, crate::error::ClientError>) -> Event {
    match result {
        Ok(c) => Event::LoginSucceeded(c.access_token@, c.device_id@),
        Err(_) => Event::LoginFailed,
    }
}

/// A reply to send on the chat connection.
#[derive(Clone, Debug)]
pub enum Reply {
    LoggedIn { user: String, access_token: String },
    AuthenticationRequired,
    LoginFailed,
    LoginInProgress,
    AlreadyLoggedIn,
}

impl Reply {
    /// The text of the reply as it is sent on the chat connection.
    pub fn text(&self) -> (r: String)
        ensures
            r@ == reply_text(self@),
    {
        match self {
            Reply::LoggedIn { user, access_token } => {
                let mut t = String::from_str("Logged in as ");
                t.append(user.as_str());
                t.append(" using access token ");
                t.append(access_token.as_str());
                t
            },
            Reply::AuthenticationRequired => String::from_str("Authentication required: send PASS before USER"),
            Reply::LoginFailed => String::from_str("Login failed"),
            Reply::LoginInProgress => String::from_str("A login is already in progress"),
            Reply::AlreadyLoggedIn => String::from_str("Already logged in"),
        }
    }
}

pub open spec fn reply_text(r: ReplyModel) -> Seq<char> {
    match r {
        ReplyModel::LoggedIn(user, token) => "Logged in as "@ + user + " using access token "@ + token,
        ReplyModel::AuthenticationRequired => "Authentication required: send PASS before USER"@,
        ReplyModel::LoginFailed => "Login failed"@,
        ReplyModel::LoginInProgress => "A login is already in progress"@,
        ReplyModel::AlreadyLoggedIn => "Already logged in"@,
    }
}

pub enum ReplyModel {
    LoggedIn(Seq<char>, Seq<char>),
    AuthenticationRequired,
    LoginFailed,
    LoginInProgress,
    AlreadyLoggedIn,
}

impl View for Reply {
    type V = ReplyModel;

    open spec fn view(&self) -> ReplyModel {
        match self {
            Reply::LoggedIn { user, access_token } => ReplyModel::LoggedIn(user@, access_token@),
            Reply::AuthenticationRequired => ReplyModel::AuthenticationRequired,
            Reply::LoginFailed => ReplyModel::LoginFailed,
            Reply::LoginInProgress => ReplyModel::LoginInProgress,
            Reply::AlreadyLoggedIn => ReplyModel::AlreadyLoggedIn,
        }
    }
}

/// What the connection has to do after a command.
#[derive(Clone, Debug)]
pub enum Action {
    /// Nothing to send.
    Nothing,
    /// Call the login endpoint with this user and secret, then hand the
    /// outcome to `Session::login_finished`.
    Login { user: String, secret: String },
    /// Forward a join of these channels to the remote API.
    Join(String),
    /// Send this reply.
    Reply(Reply),
}

pub enum ActionModel {
    Nothing,
    Login(Seq<char>, Seq<char>),
    Join(Seq<char>),
    Reply(ReplyModel),
}

impl View for Action {
    type V = ActionModel;

    open spec fn view(&self) -> ActionModel {
        match self {
            Action::Nothing => ActionModel::Nothing,
            Action::Login { user, secret } => ActionModel::Login(user@, secret@),
            Action::Join(c) => ActionModel::Join(c@),
            Action::Reply(r) => ActionModel::Reply(r@),
        }
    }
}

/// The abstract state of a session.
pub struct SessionModel {
    pub state: SessionState,
    /// Who is logging in or logged in.
    pub user: Option<Seq<char>>,
    /// The secret staged for the next login.
    pub pending: Option<Seq<char>>,
    pub credential: Option<(Seq<char>, Seq<char>)>,
}

pub open spec fn initial() -> SessionModel {
    SessionModel { state: SessionState::Anonymous, user: None, pending: None, credential: None }
}

/// How the parts of a session's state fit together.
pub open spec fn consistent(s: SessionModel) -> bool {
    match s.state {
        SessionState::Anonymous => s.user is None && s.credential is None,
        SessionState::AwaitingLogin => s.user is Some && s.pending is None && s.credential is None,
        SessionState::Authenticated => s.user is Some && s.pending is None && s.credential is Some,
    }
}

/// The state after an event.
pub open spec fn step(s: SessionModel, e: Event) -> SessionModel {
    match e {
        Event::Stage(secret) => if s.state == SessionState::Anonymous {
            SessionModel { pending: Some(secret), ..s }
        } else {
            s
        },
        Event::Declare(user) => if s.state == SessionState::Anonymous && s.pending is Some {
            SessionModel { state: SessionState::AwaitingLogin, user: Some(user), pending: None, ..s }
        } else {
            s
        },
        Event::Join(_) | Event::Other => s,
        Event::LoginSucceeded(token, device) => if s.state == SessionState::AwaitingLogin {
            SessionModel {
                state: SessionState::Authenticated,
                credential: Some((token, device)),
                ..s
            }
        } else {
            s
        },
        Event::LoginFailed => if s.state == SessionState::AwaitingLogin {
            SessionModel { state: SessionState::Anonymous, user: None, ..s }
        } else {
            s
        },
    }
}

/// The action that answers a command.
pub open spec fn answer(s: SessionModel, e: Event) -> ActionModel {
    match e {
        Event::Stage(_) => ActionModel::Nothing,
        Event::Declare(user) => match s.state {
            SessionState::Anonymous => match s.pending {
                Some(secret) => ActionModel::Login(user, secret),
                None => ActionModel::Reply(ReplyModel::AuthenticationRequired),
            },
            SessionState::AwaitingLogin => ActionModel::Reply(ReplyModel::LoginInProgress),
            SessionState::Authenticated => ActionModel::Reply(ReplyModel::AlreadyLoggedIn),
        },
        Event::Join(channels) => if s.state == SessionState::Authenticated {
            ActionModel::Join(channels)
        } else {
            ActionModel::Reply(ReplyModel::AuthenticationRequired)
        },
        _ => ActionModel::Nothing,
    }
}

/// The reply to the outcome of a login call, if one was in flight.
pub open spec fn login_reply(s: SessionModel, e: Event) -> Option<ReplyModel> {
    if s.state == SessionState::AwaitingLogin {
        match e {
            Event::LoginSucceeded(token, _) => Some(ReplyModel::LoggedIn(s.user->Some_0, token)),
            _ => Some(ReplyModel::LoginFailed),
        }
    } else {
        None
    }
}

/// The state after a sequence of events, starting from a new session.
pub open spec fn run(events: Seq<Event>) -> SessionModel
    decreases events.len(),
{
    if events.len() == 0 {
        initial()
    } else {
        step(run(events.drop_last()), events.last())
    }
}

/// The state of one chat connection.
pub struct Session {
    state: SessionState,
    user: Option<String>,
    pending_secret: Option<String>,
    credential: Option<Credential>,
}

impl View for Session {
    type V = SessionModel;

    closed spec fn view(&self) -> SessionModel {
        SessionModel {
            state: self.state,
            user: match self.user {
                Some(u) => Some(u@),
                None => None,
            },
            pending: match self.pending_secret {
                Some(p) => Some(p@),
                None => None,
            },
            credential: match self.credential {
                Some(c) => Some(c@),
                None => None,
            },
        }
    }
}

impl Session {
    #[verifier::type_invariant]
    closed spec fn well_formed(&self) -> bool {
        consistent(self@)
    }

    pub fn new() -> (r: Session)
        ensures
            r@ == initial(),
    {
        Session { state: SessionState::Anonymous, user: None, pending_secret: None, credential: None }
    }

    pub fn state(&self) -> (r: SessionState)
        ensures
            r == self@.state,
            consistent(self@),
    {
        proof {
            use_type_invariant(self);
        }
        self.state
    }

    /// The credential, once a login has succeeded.
    pub fn credential(&self) -> (r: Option<&Credential>)
        ensures
            match r {
                Some(c) => self@.credential == Some(c@),
                None => self@.credential is None,
            },
    {
        match &self.credential {
            Some(c) => Some(c),
            None => None,
        }
    }

    /// Handles one chat command.
    pub fn handle_command(&mut self, command: Command) -> (a: Action)
        ensures
            final(self)@ == step(old(self)@, command.event()),
            a@ == answer(old(self)@, command.event()),
            consistent(final(self)@),
    {
        proof {
            use_type_invariant(&*self);
        }
        match command {
            Command::StageSecret(secret) => {
                if self.state == SessionState::Anonymous {
                    self.pending_secret = Some(secret);
                }
                Action::Nothing
            },
            Command::DeclareIdentity(user) => {
                match self.state {
                    SessionState::Anonymous => {
                        let staged = self.pending_secret.clone();
                        match staged {
                            Some(secret) => {
                                *self = Session {
                                    state: SessionState::AwaitingLogin,
                                    user: Some(user.clone()),
                                    pending_secret: None,
                                    credential: None,
                                };
                                Action::Login { user, secret }
                            },
                            None => Action::Reply(Reply::AuthenticationRequired),
                        }
                    },
                    SessionState::AwaitingLogin => Action::Reply(Reply::LoginInProgress),
                    SessionState::Authenticated => Action::Reply(Reply::AlreadyLoggedIn),
                }
            },
            Command::Join(channels) => {
                if self.state == SessionState::Authenticated {
                    Action::Join(channels)
                } else {
                    Action::Reply(Reply::AuthenticationRequired)
                }
            },
            Command::Other => Action::Nothing,
        }
    }

    /// Takes the outcome of the login call that `handle_command` asked for.
    /// Returns `None`, and changes nothing, when no login was in flight.
    pub fn login_finished(&mut self, result: Result<Credential, crate::error::ClientError>) -> (r:
        Option<Reply>)
        ensures
            final(self)@ == step(old(self)@, login_event(result)),
            match r {
                Some(reply) => login_reply(old(self)@, login_event(result)) == Some(reply@),
                None => login_reply(old(self)@, login_event(result)) is None,
            },
            consistent(final(self)@),
    {
        proof {
            use_type_invariant(&*self);
        }
        if self.state != SessionState::AwaitingLogin {
            return None;
        }
        let user = match &self.user {
            Some(u) => u.clone(),
            None => String::new(),
        };
        match result {
            Ok(credential) => {
                let access_token = credential.access_token.clone();
                *self = Session {
                    state: SessionState::Authenticated,
                    user: Some(user.clone()),
                    pending_secret: None,
                    credential: Some(credential),
                };
                Some(Reply::LoggedIn { user, access_token })
            },
            Err(_) => {
                *self = Session {
                    state: SessionState::Anonymous,
                    user: None,
                    pending_secret: None,
                    credential: None,
                };
                Some(Reply::LoginFailed)
            },
        }
    }
}

/// Whether the staged secret of event `i` was used by the login that the
/// identity declared at event `j` started, and that login succeeded at event
/// `k`, with no other event deciding it in between.
pub open spec fn staged_login_succeeded(events: Seq<Event>, i: int, j: int, k: int) -> bool {
    &&& 0 <= i < j < k < events.len()
    &&& events[i] is Stage
    &&& events[j] is Declare
    &&& events[k] is LoginSucceeded
    &&& run(events.take(j)).state == SessionState::Anonymous
    &&& run(events.take(j)).pending == Some(events[i]->Stage_0)
    &&& forall|m: int| j < m <= k ==> (#[trigger] run(events.take(m))).state == SessionState::AwaitingLogin
}

proof fn lemma_run_take(events: Seq<Event>, n: int)
    requires
        0 <= n < events.len(),
    ensures
        run(events.take(n + 1)) == step(run(events.take(n)), events[n]),
{
    assert(events.take(n + 1).drop_last() =~= events.take(n));
    assert(events.take(n + 1).last() == events[n]);
}

proof fn lemma_stays_authenticated(events: Seq<Event>, a: int, b: int)
    requires
        0 <= a <= b <= events.len(),
        run(events.take(a)).state == SessionState::Authenticated,
    ensures
        run(events.take(b)).state == SessionState::Authenticated,
    decreases b - a,
{
    if a < b {
        lemma_run_take(events, a);
        lemma_stays_authenticated(events, a + 1, b);
    }
}

proof fn lemma_success_point(events: Seq<Event>, n: int) -> (k: int)
    requires
        0 <= n <= events.len(),
        run(events.take(n)).state == SessionState::Authenticated,
    ensures
        0 <= k < n,
        run(events.take(k)).state == SessionState::AwaitingLogin,
        events[k] is LoginSucceeded,
    decreases n,
{
    assert(events.take(0) =~= Seq::<Event>::empty());
    lemma_run_take(events, n - 1);
    if run(events.take(n - 1)).state == SessionState::Authenticated {
        lemma_success_point(events, n - 1)
    } else {
        n - 1
    }
}

proof fn lemma_login_start(events: Seq<Event>, k: int) -> (j: int)
    requires
        0 <= k <= events.len(),
        run(events.take(k)).state == SessionState::AwaitingLogin,
    ensures
        0 <= j < k,
        events[j] is Declare,
        run(events.take(j)).state == SessionState::Anonymous,
        run(events.take(j)).pending is Some,
        forall|m: int| j < m <= k ==> (#[trigger] run(events.take(m))).state == SessionState::AwaitingLogin,
    decreases k,
{
    assert(events.take(0) =~= Seq::<Event>::empty());
    lemma_run_take(events, k - 1);
    if run(events.take(k - 1)).state == SessionState::AwaitingLogin {
        lemma_login_start(events, k - 1)
    } else {
        k - 1
    }
}

proof fn lemma_pending_origin(events: Seq<Event>, n: int) -> (i: int)
    requires
        0 <= n <= events.len(),
        run(events.take(n)).pending is Some,
    ensures
        0 <= i < n,
        events[i] == Event::Stage(run(events.take(n)).pending->Some_0),
    decreases n,
{
    assert(events.take(0) =~= Seq::<Event>::empty());
    lemma_run_take(events, n - 1);
    let prev = run(events.take(n - 1));
    match events[n - 1] {
        Event::Stage(secret) => {
            if prev.state == SessionState::Anonymous {
                n - 1
            } else {
                lemma_pending_origin(events, n - 1)
            }
        },
        _ => lemma_pending_origin(events, n - 1),
    }
}

/// A session is authenticated after a sequence of events exactly when some
/// declared identity, preceded by a staged secret, started a login with that
/// secret and that login succeeded.
pub proof fn law_authenticated_iff_staged_login_succeeded(events: Seq<Event>)
    ensures
        run(events).state == SessionState::Authenticated <==> exists|i: int, j: int, k: int|
            staged_login_succeeded(events, i, j, k),
{
    let n = events.len() as int;
    assert(events.take(n) =~= events);
    if run(events).state == SessionState::Authenticated {
        let k = lemma_success_point(events, n);
        let j = lemma_login_start(events, k);
        let i = lemma_pending_origin(events, j);
        assert(staged_login_succeeded(events, i, j, k));
    }
    if exists|i: int, j: int, k: int| staged_login_succeeded(events, i, j, k) {
        let (i, j, k) = choose|i: int, j: int, k: int| staged_login_succeeded(events, i, j, k);
        assert(run(events.take(k)).state == SessionState::AwaitingLogin);
        lemma_run_take(events, k);
        lemma_stays_authenticated(events, k + 1, n);
    }
}

/// The secret staged for a login is used by that login alone: once the login
/// has started, and whether it succeeds or fails, no secret is staged, and declaring an identity again
/// after a failed login, without staging a new secret, asks for
/// authentication and starts no login.
pub proof fn law_secret_used_once(s: SessionModel, user: Seq<char>, again: Seq<char>)
    requires
        consistent(s),
        s.state == SessionState::Anonymous,
        s.pending is Some,
    ensures
        step(s, Event::Declare(user)).pending is None,
        step(step(s, Event::Declare(user)), Event::LoginFailed).pending is None,
        forall|token: Seq<char>, device: Seq<char>|
            (#[trigger] step(step(s, Event::Declare(user)), Event::LoginSucceeded(token, device))).pending is None,
        ({
            let failed = step(step(s, Event::Declare(user)), Event::LoginFailed);
            &&& failed.state == SessionState::Anonymous
            &&& answer(failed, Event::Declare(again)) == ActionModel::Reply(
                ReplyModel::AuthenticationRequired,
            )
            &&& step(failed, Event::Declare(again)) == failed
        }),
{
}

/// Sessions do not share credentials: what a session holds after an event
/// depends on its own state and that event alone, and a successful login
/// stores exactly the access token and device that it returned, so two
/// sessions whose logins return different tokens hold different credentials.
pub proof fn law_own_credential(
    a: SessionModel,
    b: SessionModel,
    token_a: Seq<char>,
    device_a: Seq<char>,
    token_b: Seq<char>,
    device_b: Seq<char>,
)
    requires
        consistent(a),
        consistent(b),
        a.state == SessionState::AwaitingLogin,
        b.state == SessionState::AwaitingLogin,
        token_a != token_b,
    ensures
        step(a, Event::LoginSucceeded(token_a, device_a)).credential == Some((token_a, device_a)),
        step(b, Event::LoginSucceeded(token_b, device_b)).credential == Some((token_b, device_b)),
        step(a, Event::LoginSucceeded(token_a, device_a)).credential != step(
            b,
            Event::LoginSucceeded(token_b, device_b),
        ).credential,
{
}

} // verus!
