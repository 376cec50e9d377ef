//! The session client: one login handshake with the broker, and the
//! connection it runs on.
//!
//! The client does no I/O. [`LoginManager::submit`] and [`Attempt::advance`]
//! return a [`Step`], which says what to do next: send a request and come
//! back with the broker's reply, deliver an outcome, or hand the machine
//! over to the session that the broker has started. The caller performs the
//! step and reports what happened as an [`Event`].
use crate::wire::{
    decode_response, decodes_to, rejected_as, AuthMessageType, ErrorType, FramingError, FramingErrorView, Request,
    RequestView, Response, ResponseView,
};
use vstd::prelude::*;
use vstd::string::*;

verus! {

/// How a login attempt ended, with the text to show.
#[derive(Debug, Clone, PartialEq, Eq)]
pub enum LoginResult {
    /// The handshake ran to a point where the broker had more to say.
    Succuessful(String),
    /// The attempt failed.
    Failure(String),
}

/// The mathematical content of a [`LoginResult`].
pub enum LoginResultView {
    Succuessful(Seq<char>),
    Failure(Seq<char>),
}

impl View for LoginResult {
    type V = LoginResultView;

    open spec fn view(&self) -> LoginResultView {
        match *self {
            LoginResult::Succuessful(text) => LoginResultView::Succuessful(text@),
            LoginResult::Failure(text) => LoginResultView::Failure(text@),
        }
    }
}

/// Why an exchange with the broker did not give what was asked for.
#[derive(Debug, Clone, PartialEq, Eq)]
pub enum SessionError {
    /// The connection could not be opened or used; the text is the cause.
    Connection(String),
    /// A message could not be turned into bytes, or bytes into a message.
    Framing(FramingError),
    /// The broker answered with an error.
    Protocol { error_type: ErrorType, description: String },
    /// The broker answered with a message that has no place at this point.
    UnexpectedResponse,
}

/// The mathematical content of a [`SessionError`].
pub enum SessionErrorView {
    Connection(Seq<char>),
    Framing(FramingErrorView),
    Protocol { error_type: ErrorType, description: Seq<char> },
    UnexpectedResponse,
}

impl View for SessionError {
    type V = SessionErrorView;

    open spec fn view(&self) -> SessionErrorView {
        match *self {
            SessionError::Connection(text) => SessionErrorView::Connection(text@),
            SessionError::Framing(error) => SessionErrorView::Framing(error@),
            SessionError::Protocol { error_type, description } => SessionErrorView::Protocol {
                error_type,
                description: description@,
            },
            SessionError::UnexpectedResponse => SessionErrorView::UnexpectedResponse,
        }
    }
}

impl SessionErrorView {
    /// The text shown for the error. A failed authentication is reported
    /// with a fixed text, whatever the broker wrote; any other error of the
    /// broker is reported with the broker's own description.
    pub open spec fn message(self) -> Seq<char> {
        match self {
            SessionErrorView::Connection(text) => text,
            SessionErrorView::Framing(error) => error.message(),
            SessionErrorView::Protocol { error_type, description } => match error_type {
                ErrorType::AuthError => "Login failed"@,
                ErrorType::Error => description,
            },
            SessionErrorView::UnexpectedResponse => "Unexecpted auth response"@,
        }
    }
}

impl SessionError {
    /// The text shown for the error.
    pub fn message(&self) -> (text: String)
        ensures
            text@ == self@.message(),
    {
        match self {
            SessionError::Connection(text) => text.clone(),
            SessionError::Framing(error) => error.message(),
            SessionError::Protocol { error_type, description } => match error_type {
                ErrorType::AuthError => String::from_str("Login failed"),
                ErrorType::Error => description.clone(),
            },
            SessionError::UnexpectedResponse => String::from_str("Unexecpted auth response"),
        }
    }
}

/// What the caller reports after it has sent a request.
#[derive(Debug, Clone, PartialEq, Eq)]
pub enum Event {
    /// The broker's reply.
    Reply(Response),
    /// The request could not be sent, or no reply could be read.
    Failed(SessionError),
}

/// The mathematical content of an [`Event`].
pub enum EventView {
    Reply(ResponseView),
    Failed(SessionErrorView),
}

impl View for Event {
    type V = EventView;

    open spec fn view(&self) -> EventView {
        match *self {
            Event::Reply(response) => EventView::Reply(response@),
            Event::Failed(error) => EventView::Failed(error@),
        }
    }
}

/// A login attempt that waits for the answer to the request it sent last.
#[derive(Debug, Clone, PartialEq, Eq)]
pub enum Attempt {
    /// `CreateSession` was sent. The password is kept for the next request.
    Created { password: String },
    /// `PostAuthMessageResponse` was sent.
    AwaitingPassword,
    /// `StartSession` was sent.
    Starting,
    /// The attempt has failed and `CancelSession` was sent; `failure` is
    /// the text to deliver once the broker has answered.
    Cancelling { failure: String },
}

/// The mathematical content of an [`Attempt`].
pub enum AttemptView {
    Created { password: Seq<char> },
    AwaitingPassword,
    Starting,
    Cancelling { failure: Seq<char> },
}

impl View for Attempt {
    type V = AttemptView;

    open spec fn view(&self) -> AttemptView {
        match *self {
            Attempt::Created { password } => AttemptView::Created { password: password@ },
            Attempt::AwaitingPassword => AttemptView::AwaitingPassword,
            Attempt::Starting => AttemptView::Starting,
            Attempt::Cancelling { failure } => AttemptView::Cancelling { failure: failure@ },
        }
    }
}

/// What the caller has to do next.
#[derive(Debug, Clone, PartialEq, Eq)]
pub enum Step {
    /// Send the request, read one reply, and hand it to
    /// [`Attempt::advance`] of the attempt given here.
    Send(Request, Attempt),
    /// The attempt is over: deliver its outcome.
    Deliver(LoginResult),
    /// The broker has started the session: end the process with success.
    HandOff,
}

/// The mathematical content of a [`Step`].
pub enum StepView {
    Send(RequestView, AttemptView),
    Deliver(LoginResultView),
    HandOff,
}

impl View for Step {
    type V = StepView;

    open spec fn view(&self) -> StepView {
        match *self {
            Step::Send(request, attempt) => StepView::Send(request@, attempt@),
            Step::Deliver(result) => StepView::Deliver(result@),
            Step::HandOff => StepView::HandOff,
        }
    }
}

/// The command that a started session runs.
pub open spec fn session_command() -> Seq<Seq<char>> {
    seq!["sway"@]
}

/// The text delivered when the broker goes on asking after the password
/// was given: a tag for the place, the broker's message and its kind.
pub open spec fn diagnostic(tag: Seq<char>, text: Seq<char>, kind: AuthMessageType) -> Seq<char> {
    tag + text + " , "@ + kind.spec_name()
}

/// The step that abandons an attempt: `CancelSession` goes out, and
/// `failure` is delivered once it is answered.
pub open spec fn abandon(failure: Seq<char>) -> StepView {
    StepView::Send(RequestView::CancelSession, AttemptView::Cancelling { failure })
}

/// The first step of an attempt: `CreateSession` goes out.
pub open spec fn begin(username: Seq<char>, password: Seq<char>) -> StepView {
    StepView::Send(RequestView::CreateSession { username }, AttemptView::Created { password })
}

impl AttemptView {
    /// The handshake: what follows when an attempt in this state meets
    /// `event`.
    ///
    /// * An event that is no reply ends the attempt with the text of the
    ///   error; nothing more is sent.
    /// * An error reply abandons the attempt, whatever request it answers.
    /// * After `CreateSession`, a notice or complaint abandons the attempt
    ///   with the broker's text; a question or a success lets the password
    ///   go out.
    /// * After the password, a success lets `StartSession` go out; a
    ///   further message of the broker ends the attempt with a diagnostic.
    /// * After `StartSession`, a success hands over to the session; a
    ///   message ends the attempt with a diagnostic.
    /// * While cancelling, any event ends the attempt with the failure that
    ///   caused the cancellation.
    pub open spec fn step(self, event: EventView) -> StepView {
        match self {
            AttemptView::Cancelling { failure } => StepView::Deliver(
                LoginResultView::Failure(failure),
            ),
            _ => match event {
                EventView::Failed(error) => StepView::Deliver(
                    LoginResultView::Failure(error.message()),
                ),
                EventView::Reply(ResponseView::Error { error_type, description }) => abandon(
                    SessionErrorView::Protocol { error_type, description }.message(),
                ),
                EventView::Reply(ResponseView::AuthMessage { auth_message_type, auth_message }) => {
                    match self {
                        AttemptView::Created { password } => match auth_message_type {
                            AuthMessageType::Error | AuthMessageType::Info => abandon(auth_message),
                            _ => StepView::Send(
                                RequestView::PostAuthMessageResponse { response: Some(password) },
                                AttemptView::AwaitingPassword,
                            ),
                        },
                        AttemptView::AwaitingPassword => StepView::Deliver(
                            LoginResultView::Succuessful(
                                diagnostic("2authmsg1: "@, auth_message, auth_message_type),
                            ),
                        ),
                        _ => StepView::Deliver(
                            LoginResultView::Succuessful(
                                diagnostic("2authmsg2: "@, auth_message, auth_message_type),
                            ),
                        ),
                    }
                },
                EventView::Reply(ResponseView::Success) => match self {
                    AttemptView::Created { password } => StepView::Send(
                        RequestView::PostAuthMessageResponse { response: Some(password) },
                        AttemptView::AwaitingPassword,
                    ),
                    AttemptView::AwaitingPassword => StepView::Send(
                        RequestView::StartSession { cmd: session_command() },
                        AttemptView::Starting,
                    ),
                    _ => StepView::HandOff,
                },
            },
        }
    }
}

/// The command that a started session runs.
pub fn default_command() -> (cmd: Vec<String>)
    ensures
        cmd.deep_view() == session_command(),
{
    let mut cmd: Vec<String> = Vec::new();
    cmd.push(String::from_str("sway"));
    assert(cmd.deep_view() =~= session_command());
    cmd
}

/// Builds the text of [`diagnostic`].
fn diagnostic_text(tag: &str, text: &String, kind: AuthMessageType) -> (out: String)
    ensures
        out@ == diagnostic(tag@, text@, kind),
{
    let mut out = String::from_str(tag);
    out.append(text.as_str());
    out.append(" , ");
    out.append(kind.name());
    out
}

/// The step that abandons an attempt with `failure`.
fn abandon_with(failure: String) -> (step: Step)
    ensures
        step@ == abandon(failure@),
{
    Step::Send(Request::CancelSession, Attempt::Cancelling { failure })
}

impl Attempt {
    /// Takes the event that answers the request sent last, and says what to
    /// do next.
    pub fn advance(self, event: Event) -> (step: Step)
        ensures
            step@ == self@.step(event@),
    {
        match self {
            Attempt::Cancelling { failure } => {
                let _ = cancel_outcome(event);
                Step::Deliver(LoginResult::Failure(failure))
            },
            Attempt::Created { password } => match event {
                Event::Failed(error) => Step::Deliver(LoginResult::Failure(error.message())),
                Event::Reply(Response::Error { error_type, description }) => abandon_with(
                    SessionError::Protocol { error_type, description }.message(),
                ),
                Event::Reply(Response::AuthMessage { auth_message_type, auth_message }) => {
                    match auth_message_type {
                        AuthMessageType::Error | AuthMessageType::Info => abandon_with(auth_message),
                        _ => Step::Send(
                            Request::PostAuthMessageResponse { response: Some(password) },
                            Attempt::AwaitingPassword,
                        ),
                    }
                },
                Event::Reply(Response::Success) => Step::Send(
                    Request::PostAuthMessageResponse { response: Some(password) },
                    Attempt::AwaitingPassword,
                ),
            },
            Attempt::AwaitingPassword => match event {
                Event::Failed(error) => Step::Deliver(LoginResult::Failure(error.message())),
                Event::Reply(Response::Error { error_type, description }) => abandon_with(
                    SessionError::Protocol { error_type, description }.message(),
                ),
                Event::Reply(Response::AuthMessage { auth_message_type, auth_message }) => {
                    Step::Deliver(
                        LoginResult::Succuessful(
                            diagnostic_text("2authmsg1: ", &auth_message, auth_message_type),
                        ),
                    )
                },
                Event::Reply(Response::Success) => Step::Send(
                    Request::StartSession { cmd: default_command() },
                    Attempt::Starting,
                ),
            },
            Attempt::Starting => match event {
                Event::Failed(error) => Step::Deliver(LoginResult::Failure(error.message())),
                Event::Reply(Response::Error { error_type, description }) => abandon_with(
                    SessionError::Protocol { error_type, description }.message(),
                ),
                Event::Reply(Response::AuthMessage { auth_message_type, auth_message }) => {
                    Step::Deliver(
                        LoginResult::Succuessful(
                            diagnostic_text("2authmsg2: ", &auth_message, auth_message_type),
                        ),
                    )
                },
                Event::Reply(Response::Success) => Step::HandOff,
            },
        }
    }
}

/// What the answer to `CancelSession` means.
pub open spec fn cancel_verdict(event: EventView) -> Result<Seq<char>, SessionErrorView> {
    match event {
        EventView::Reply(ResponseView::Success) => Ok("cancelled successfully"@),
        EventView::Reply(ResponseView::AuthMessage { .. }) => Err(
            SessionErrorView::UnexpectedResponse,
        ),
        EventView::Reply(ResponseView::Error { error_type, description }) => Err(
            SessionErrorView::Protocol { error_type, description },
        ),
        EventView::Failed(error) => Err(error),
    }
}

/// Classifies the answer to `CancelSession`: a success confirms the
/// cancellation, an error of the broker is passed on, and an authentication
/// message has no place here. The handshake itself cancels as a courtesy
/// and does not act on the verdict.
pub fn cancel_outcome(event: Event) -> (verdict: Result<String, SessionError>)
    ensures
        match verdict {
            Ok(text) => cancel_verdict(event@) == Ok::<Seq<char>, SessionErrorView>(text@),
            Err(error) => cancel_verdict(event@) == Err::<Seq<char>, SessionErrorView>(error@),
        },
{
    match event {
        Event::Reply(Response::Success) => Ok(String::from_str("cancelled successfully")),
        Event::Reply(Response::AuthMessage { .. }) => Err(SessionError::UnexpectedResponse),
        Event::Reply(Response::Error { error_type, description }) => Err(
            SessionError::Protocol { error_type, description },
        ),
        Event::Failed(error) => Err(error),
    }
}

/// The event that a reply frame stands for: the response it holds, or the
/// reason why it holds none.
pub fn receive(frame: &[u8]) -> (event: Event)
    ensures
        match event@ {
            EventView::Reply(response) => decodes_to(frame@, response),
            EventView::Failed(SessionErrorView::Framing(error)) => rejected_as(frame@, error),
            EventView::Failed(_) => false,
        },
{
    match decode_response(frame) {
        Ok(response) => Event::Reply(response),
        Err(error) => Event::Failed(SessionError::Framing(error)),
    }
}

/// The name of the environment variable that tells where the broker
/// listens.
pub fn endpoint_variable() -> (name: &'static str)
    ensures
        name@ == "GREETD_SOCK"@,
{
    "GREETD_SOCK"
}

/// The session client. It owns the connection to the broker, a handle of
/// type `S` that is opened when first needed and kept from then on.
pub struct LoginManager<S> {
    stream: Option<S>,
}

/// The connection that a client holds after it was asked to connect while
/// holding `held`. `configured` says whether it was told where the broker
/// listens, and `opened` is what opening a connection there gave or would
/// have given. A connection that is held is kept; a new one is had only
/// where the place is known and could be opened.
pub open spec fn connected<S, E>(held: Option<S>, configured: bool, opened: Result<S, E>) -> Option<
    S,
> {
    match held {
        Some(handle) => Some(handle),
        None => match opened {
            Ok(handle) if configured => Some(handle),
            _ => None,
        },
    }
}

/// What a client that holds `held` answers when it is asked to connect:
/// the request fails only where nothing is held and either the place of the
/// broker is not known or it could not be opened; in the second case the
/// error carries the text of the cause.
pub open spec fn connect_verdict<S>(
    held: Option<S>,
    configured: bool,
    opened: Result<S, String>,
) -> Result<(), SessionErrorView> {
    match held {
        Some(_) => Ok(()),
        None => if !configured {
            Err(SessionErrorView::Connection("GREETD_SOCK not set"@))
        } else {
            match opened {
                Ok(_) => Ok(()),
                Err(text) => Err(SessionErrorView::Connection(text@)),
            }
        },
    }
}

/// The first step of an attempt by a client that holds `held`: with a
/// connection `CreateSession` goes out, without one the attempt is over.
pub open spec fn first_step<S>(
    held: Option<S>,
    configured: bool,
    opened: Result<S, String>,
    username: Seq<char>,
    password: Seq<char>,
) -> StepView {
    match connect_verdict(held, configured, opened) {
        Ok(()) => begin(username, password),
        Err(error) => StepView::Deliver(LoginResultView::Failure(error.message())),
    }
}

/// The connection of a copy of a client that holds `held`, where
/// `duplicated` is what duplicating that connection gave or would have
/// given: a copy has a connection only where one was held and could be
/// duplicated.
pub open spec fn copied<S, E>(held: Option<S>, duplicated: Result<S, E>) -> Option<S> {
    match held {
        Some(_) => match duplicated {
            Ok(second) => Some(second),
            Err(_) => None,
        },
        None => None,
    }
}

impl<S> LoginManager<S> {
    /// The connection that the client holds, if any.
    pub closed spec fn connection(&self) -> Option<S> {
        self.stream
    }

    /// A client without a connection.
    pub fn new() -> (manager: Self)
        ensures
            manager.connection() is None,
    {
        LoginManager { stream: None }
    }

    /// The connection that the client holds, if any.
    pub fn stream(&self) -> (stream: Option<&S>)
        ensures
            match stream {
                Some(handle) => self.connection() == Some(*handle),
                None => self.connection() is None,
            },
    {
        self.stream.as_ref()
    }

    /// Makes sure that the client holds a connection.
    ///
    /// A connection that is held is kept, and `open` is not called.
    /// Otherwise `endpoint` is where the broker listens: `open` is called
    /// with it, and what it opens is kept. Without an endpoint, or where
    /// `open` fails, the client stays without a connection.
    pub fn connect<F: FnOnce(String) -> Result<S, String>>(
        &mut self,
        endpoint: Option<String>,
        open: F,
    ) -> (verdict: Result<(), SessionError>)
        requires
            old(self).connection() is None ==> (endpoint matches Some(path) ==> open.requires(
                (path,),
            )),
        ensures
            exists|opened: Result<S, String>|
                {
                    &&& old(self).connection() is None ==> (endpoint matches Some(path)
                        ==> open.ensures((path,), opened))
                    &&& final(self).connection() == #[trigger] connected(
                        old(self).connection(),
                        endpoint is Some,
                        opened,
                    )
                    &&& match verdict {
                        Ok(()) => connect_verdict(old(self).connection(), endpoint is Some, opened)
                            is Ok,
                        Err(error) => connect_verdict(
                            old(self).connection(),
                            endpoint is Some,
                            opened,
                        ) == Err::<(), SessionErrorView>(error@),
                    }
                },
    {
        let ghost configured = endpoint is Some;
        if self.stream.is_some() {
            let ghost unused: Result<S, String> = arbitrary();
            assert(self.connection() == connected(
                old(self).connection(),
                configured,
                unused,
            ));
            return Ok(());
        }
        let path = match endpoint {
            Some(path) => path,
            None => {
                let ghost unused: Result<S, String> = arbitrary();
                assert(self.connection() == connected(
                    old(self).connection(),
                    configured,
                    unused,
                ));
                return Err(SessionError::Connection(String::from_str("GREETD_SOCK not set")));
            },
        };
        let opened = open(path);
        let ghost witness = opened;
        match opened {
            Ok(handle) => {
                self.stream = Some(handle);
                assert(self.connection() == connected(
                    old(self).connection(),
                    configured,
                    witness,
                ));
                Ok(())
            },
            Err(text) => {
                assert(self.connection() == connected(
                    old(self).connection(),
                    configured,
                    witness,
                ));
                Err(SessionError::Connection(text))
            },
        }
    }

    /// Starts a login attempt for `username`.
    ///
    /// The attempt needs a connection, which is made as [`connect`] makes
    /// it. With a connection the first step is to send `CreateSession`;
    /// without one the attempt is over, and the failure to deliver is the
    /// text of the connection error.
    ///
    /// [`connect`]: LoginManager::connect
    pub fn submit<F: FnOnce(String) -> Result<S, String>>(
        &mut self,
        username: String,
        password: String,
        endpoint: Option<String>,
        open: F,
    ) -> (step: Step)
        requires
            old(self).connection() is None ==> (endpoint matches Some(path) ==> open.requires(
                (path,),
            )),
        ensures
            exists|opened: Result<S, String>|
                {
                    &&& old(self).connection() is None ==> (endpoint matches Some(path)
                        ==> open.ensures((path,), opened))
                    &&& final(self).connection() == #[trigger] connected(
                        old(self).connection(),
                        endpoint is Some,
                        opened,
                    )
                    &&& step@ == first_step(
                        old(self).connection(),
                        endpoint is Some,
                        opened,
                        username@,
                        password@,
                    )
                },
    {
        match self.connect(endpoint, open) {
            Ok(()) => Step::Send(Request::CreateSession { username }, Attempt::Created { password }),
            Err(error) => Step::Deliver(LoginResult::Failure(error.message())),
        }
    }

    /// A second client for the same broker. `duplicate` makes a second
    /// handle from the one that is held; where it fails, or where no
    /// connection is held, the new client has none.
    pub fn clone_with<E, F: FnOnce(&S) -> Result<S, E>>(&self, duplicate: F) -> (copy: Self)
        requires
            self.connection() matches Some(handle) ==> duplicate.requires((&handle,)),
        ensures
            self.connection() is None ==> copy.connection() is None,
            self.connection() matches Some(handle) ==> exists|duplicated: Result<S, E>|
                #[trigger] duplicate.ensures((&handle,), duplicated) && copy.connection() == copied(
                    self.connection(),
                    duplicated,
                ),
    {
        match &self.stream {
            Some(handle) => {
                let duplicated = duplicate(handle);
                let ghost witness = duplicated;
                match duplicated {
                    Ok(second) => {
                        let copy = LoginManager { stream: Some(second) };
                        assert(copy.connection() == copied(self.connection(), witness));
                        copy
                    },
                    Err(_) => {
                        let copy = LoginManager { stream: None };
                        assert(copy.connection() == copied(self.connection(), witness));
                        copy
                    },
                }
            },
            None => LoginManager { stream: None },
        }
    }
}

/// The requests that go out, in order, when an attempt that stands at
/// `step` meets `events` one after the other: the request of `step` first,
/// and every later request after the event that answers the one before it.
pub open spec fn requests(step: StepView, events: Seq<EventView>) -> Seq<RequestView>
    decreases events.len(),
{
    match step {
        StepView::Send(request, attempt) => if events.len() == 0 {
            seq![request]
        } else {
            seq![request] + requests(attempt.step(events[0]), events.skip(1))
        },
        _ => Seq::empty(),
    }
}

/// Where an attempt that stands at `step` has got to when it has met
/// `events` one after the other. Events that come after the attempt is over
/// change nothing.
pub open spec fn outcome(step: StepView, events: Seq<EventView>) -> StepView
    decreases events.len(),
{
    match step {
        StepView::Send(_, attempt) => if events.len() == 0 {
            step
        } else {
            outcome(attempt.step(events[0]), events.skip(1))
        },
        _ => step,
    }
}

/// Whether `part` occurs in `text` as it stands.
pub open spec fn embeds(text: Seq<char>, part: Seq<char>) -> bool {
    exists|at: int|
        0 <= at <= text.len() - part.len() && #[trigger] text.subrange(at, at + part.len())
            == part
}

/// An attempt sends at most four requests, in a fixed order: `CreateSession`
/// for the user comes first and only there, the password can only follow
/// it directly, `StartSession` can only follow the password directly, and
/// `CancelSession` is the last request of an attempt that sends it.
pub proof fn law_request_order(username: Seq<char>, password: Seq<char>, events: Seq<EventView>)
    ensures
        ({
            let sent = requests(begin(username, password), events);
            &&& 1 <= sent.len() <= 4
            &&& sent.len() <= events.len() + 1
            &&& sent[0] == RequestView::CreateSession { username }
            &&& forall|i: int| 0 < i < sent.len() ==> !(#[trigger] sent[i] is CreateSession)
            &&& forall|i: int|
                0 <= i < sent.len() && #[trigger] sent[i] is PostAuthMessageResponse ==> i == 1
                    && sent[i] == RequestView::PostAuthMessageResponse { response: Some(password) }
            &&& forall|i: int|
                0 <= i < sent.len() && #[trigger] sent[i] is StartSession ==> i == 2 && sent[1]
                    is PostAuthMessageResponse && sent[i] == RequestView::StartSession {
                    cmd: session_command(),
                }
            &&& forall|i: int|
                0 <= i < sent.len() && #[trigger] sent[i] is CancelSession ==> i == sent.len() - 1
        }),
{
    reveal_with_fuel(requests, 6);
}

/// Whether `event` is a reply that refuses the request it answers: an error,
/// whatever the request, or a notice or complaint where the request opened
/// the attempt.
pub open spec fn refuses(event: EventView, opening: bool) -> bool {
    match event {
        EventView::Reply(ResponseView::Error { .. }) => true,
        EventView::Reply(ResponseView::AuthMessage { auth_message_type, .. }) => opening && (
        auth_message_type == AuthMessageType::Error || auth_message_type == AuthMessageType::Info),
        _ => false,
    }
}

/// Whether `event` lets the attempt go on from its opening request to the
/// password: a success, or a question.
pub open spec fn invites_password(event: EventView) -> bool {
    match event {
        EventView::Reply(ResponseView::Success) => true,
        EventView::Reply(ResponseView::AuthMessage { auth_message_type, .. }) => auth_message_type
            == AuthMessageType::Visible || auth_message_type == AuthMessageType::Secret,
        _ => false,
    }
}

/// In every attempt, `StartSession` goes out after an answer if and only if
/// that answer is `Success` and the request it answers carried the
/// password.
pub proof fn law_start_session_iff_password_accepted(
    username: Seq<char>,
    password: Seq<char>,
    events: Seq<EventView>,
)
    ensures
        ({
            let sent = requests(begin(username, password), events);
            forall|i: int|
                0 <= i < sent.len() && i < events.len() ==> ((i + 1 < sent.len() && sent[i + 1]
                    is StartSession) <==> (#[trigger] sent[i] is PostAuthMessageResponse
                    && events[i] == EventView::Reply(ResponseView::Success)))
        }),
{
    reveal_with_fuel(requests, 6);
}

/// In every attempt, `CancelSession` goes out after an answer to a request
/// of the handshake if and only if that answer refuses the request: it is
/// an error, or it is a notice or complaint in answer to `CreateSession`.
/// After any other answer no cancellation is sent, and the answer to the
/// cancellation itself is never followed by a request.
pub proof fn law_cancel_iff_refused(
    username: Seq<char>,
    password: Seq<char>,
    events: Seq<EventView>,
)
    ensures
        ({
            let sent = requests(begin(username, password), events);
            &&& forall|i: int|
                0 <= i < sent.len() && i < events.len() && !(#[trigger] sent[i] is CancelSession)
                    ==> ((i + 1 < sent.len() && sent[i + 1] is CancelSession) <==> refuses(
                    events[i],
                    i == 0,
                ))
            &&& forall|i: int|
                0 <= i < sent.len() && #[trigger] sent[i] is CancelSession ==> i + 1 == sent.len()
        }),
{
    reveal_with_fuel(requests, 6);
}

/// In every attempt, once a request of the handshake is answered with an
/// authentication error, the failure that the attempt ends with is the text
/// "Login failed", whatever the broker described and whatever answers the
/// cancellation: it is pending while the cancellation is unanswered, and
/// delivered as soon as any event answers it.
pub proof fn law_auth_error_reads_login_failed(
    username: Seq<char>,
    password: Seq<char>,
    events: Seq<EventView>,
    i: int,
)
    requires
        0 <= i < events.len(),
        i < requests(begin(username, password), events).len(),
        !(requests(begin(username, password), events)[i] is CancelSession),
        events[i] matches EventView::Reply(
            ResponseView::Error { error_type: ErrorType::AuthError, .. },
        ),
    ensures
        i + 1 == events.len() ==> outcome(begin(username, password), events) == abandon(
            "Login failed"@,
        ),
        i + 1 < events.len() ==> outcome(begin(username, password), events) == StepView::Deliver(
            LoginResultView::Failure("Login failed"@),
        ),
{
    reveal_with_fuel(requests, 6);
    reveal_with_fuel(outcome, 6);
}

/// In every attempt, once a request of the handshake is answered with an
/// error that is no authentication error, the failure that the attempt
/// ends with is the broker's description, letter for letter: it is pending
/// while the cancellation is unanswered, and delivered as soon as any event
/// answers it.
pub proof fn law_generic_error_embeds_description(
    username: Seq<char>,
    password: Seq<char>,
    events: Seq<EventView>,
    i: int,
    description: Seq<char>,
)
    requires
        0 <= i < events.len(),
        i < requests(begin(username, password), events).len(),
        !(requests(begin(username, password), events)[i] is CancelSession),
        events[i] == EventView::Reply(
            ResponseView::Error { error_type: ErrorType::Error, description },
        ),
    ensures
        i + 1 == events.len() ==> outcome(begin(username, password), events) == abandon(
            description,
        ),
        i + 1 < events.len() ==> outcome(begin(username, password), events) == StepView::Deliver(
            LoginResultView::Failure(description),
        ),
        embeds(
            SessionErrorView::Protocol { error_type: ErrorType::Error, description }.message(),
            description,
        ),
{
    reveal_with_fuel(requests, 6);
    reveal_with_fuel(outcome, 6);
    assert(description.subrange(0, 0 + description.len() as int) =~= description);
}

/// An attempt hands over to the started session if and only if the first
/// three answers are an invitation to give the password, a `Success` for
/// the password and a `Success` for `StartSession`.
pub proof fn law_hand_off_iff_all_accepted(
    username: Seq<char>,
    password: Seq<char>,
    events: Seq<EventView>,
)
    ensures
        outcome(begin(username, password), events) is HandOff <==> events.len() >= 3
            && invites_password(events[0]) && events[1] == EventView::Reply(ResponseView::Success)
            && events[2] == EventView::Reply(ResponseView::Success),
{
    reveal_with_fuel(outcome, 6);
}

/// Every attempt is over when four events have answered its requests.
pub proof fn law_attempt_ends(username: Seq<char>, password: Seq<char>, events: Seq<EventView>)
    requires
        events.len() >= 4,
    ensures
        !(outcome(begin(username, password), events) is Send),
{
    reveal_with_fuel(outcome, 6);
}

/// Connecting is idempotent: a client that holds a connection after it was
/// asked to connect holds the same connection after it is asked again, and
/// is told that it is connected, whatever it is told of the broker's place
/// and whatever opening a new connection would give.
pub proof fn law_connect_idempotent<S>(
    held: Option<S>,
    configured: bool,
    opened: Result<S, String>,
    configured_again: bool,
    opened_again: Result<S, String>,
)
    requires
        connected(held, configured, opened) is Some,
    ensures
        connected(connected(held, configured, opened), configured_again, opened_again)
            == connected(held, configured, opened),
        connect_verdict(connected(held, configured, opened), configured_again, opened_again)
            is Ok,
{
}

} // verus!
