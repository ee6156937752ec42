//! The course of one chat-completion call, as a state machine.
//!
//! The library decides, the caller acts: a [`Session`] hands out a
//! [`Command`], the caller carries it out and reports what happened as a
//! [`Signal`], and the session answers with the next command. A call runs
//! through at most three signals (client built, response received, body
//! read) and never goes back to an earlier stage.

use crate::classify::{
    client_failure, client_failure_view, conclude, conclusion, read_failure, read_failure_view,
    transport_failure, transport_failure_view,
};
use crate::error::{ApiError, ApiErrorView};
use crate::json::{json_model, Json};
use crate::request::{
    body_model, build_body, effective_timeout, resolve_timeout, validate_args, validation,
    ChatArgsView, SiliconflowChatArgs,
};
use vstd::prelude::*;

verus! {

/// The address every request is posted to.
pub const ENDPOINT: &'static str = "https://api.siliconflow.cn/v1/chat/completions";

/// What the caller is asked to do next.
#[derive(Debug)]
pub enum Command {
    /// Construct an HTTP client whose total request deadline is
    /// `timeout_ms` milliseconds.
    BuildClient { timeout_ms: u64 },
    /// Post `body` as JSON to `url`, with `bearer` as bearer credential.
    Post { url: String, bearer: String, body: serde_json::Value },
    /// Read the whole response body as text.
    ReadBody,
    /// Stop: the call is over and this is its result.
    Finish { outcome: Result<String, ApiError> },
}

/// What the caller reports back.
#[derive(Debug)]
pub enum Signal {
    /// The client was constructed.
    ClientReady,
    /// The client could not be constructed.
    ClientFailed { detail: String },
    /// A response arrived, with this status.
    Responded { status: u16 },
    /// No response arrived. `timed_out` and `connect` tell whether the
    /// transport called it a timeout or a failure to connect.
    SendFailed { timed_out: bool, connect: bool, detail: String },
    /// The body was read.
    BodyRead { text: String },
    /// The body could not be read as text.
    BodyFailed { detail: String },
}

enum Stage {
    AwaitingClient { args: SiliconflowChatArgs },
    AwaitingResponse,
    AwaitingBody { status: u16 },
    Finished,
}

/// One call in progress. A session can only be made by [`Session::begin`],
/// so one that still holds a request holds a request that passed validation.
pub struct Session {
    stage: Stage,
}

/// The mathematical view of a [`Command`].
pub enum CommandView {
    BuildClient { timeout_ms: u64 },
    Post { url: Seq<char>, bearer: Seq<char>, body: Json },
    ReadBody,
    Finish { outcome: Result<Seq<char>, ApiErrorView> },
}

/// The mathematical view of a [`Signal`].
pub enum SignalView {
    ClientReady,
    ClientFailed { detail: Seq<char> },
    Responded { status: u16 },
    SendFailed { timed_out: bool, connect: bool, detail: Seq<char> },
    BodyRead { text: Seq<char> },
    BodyFailed { detail: Seq<char> },
}

/// The mathematical view of a [`Session`]: the stage it is in and what it
/// remembers there.
pub enum SessionView {
    /// Validated; waiting for the client to be built.
    AwaitingClient { args: ChatArgsView },
    /// Posted; waiting for the response.
    AwaitingResponse,
    /// Got a response with `status`; waiting for its body.
    AwaitingBody { status: u16 },
    /// Over.
    Finished,
}

/// The view of a call's result.
pub open spec fn outcome_view(outcome: Result<String, ApiError>) -> Result<
    Seq<char>,
    ApiErrorView,
> {
    match outcome {
        Ok(body) => Ok(body@),
        Err(e) => Err(e@),
    }
}

impl View for Command {
    type V = CommandView;

    open spec fn view(&self) -> CommandView {
        match self {
            Command::BuildClient { timeout_ms } => CommandView::BuildClient {
                timeout_ms: *timeout_ms,
            },
            Command::Post { url, bearer, body } => CommandView::Post {
                url: url@,
                bearer: bearer@,
                body: json_model(*body),
            },
            Command::ReadBody => CommandView::ReadBody,
            Command::Finish { outcome } => CommandView::Finish { outcome: outcome_view(*outcome) },
        }
    }
}

impl View for Signal {
    type V = SignalView;

    open spec fn view(&self) -> SignalView {
        match self {
            Signal::ClientReady => SignalView::ClientReady,
            Signal::ClientFailed { detail } => SignalView::ClientFailed { detail: detail@ },
            Signal::Responded { status } => SignalView::Responded { status: *status },
            Signal::SendFailed { timed_out, connect, detail } => SignalView::SendFailed {
                timed_out: *timed_out,
                connect: *connect,
                detail: detail@,
            },
            Signal::BodyRead { text } => SignalView::BodyRead { text: text@ },
            Signal::BodyFailed { detail } => SignalView::BodyFailed { detail: detail@ },
        }
    }
}

impl View for Session {
    type V = SessionView;

    closed spec fn view(&self) -> SessionView {
        match self.stage {
            Stage::AwaitingClient { args } => SessionView::AwaitingClient { args: args@ },
            Stage::AwaitingResponse => SessionView::AwaitingResponse,
            Stage::AwaitingBody { status } => SessionView::AwaitingBody { status },
            Stage::Finished => SessionView::Finished,
        }
    }
}

impl SessionView {
    /// Whether the request a session holds, if it holds one, passes
    /// validation. True of every session there is.
    pub open spec fn validated(self) -> bool {
        match self {
            SessionView::AwaitingClient { args } => validation(args) is Ok,
            _ => true,
        }
    }

    /// How far along a session is: 0 before the client is built, 3 when
    /// the call is over.
    pub open spec fn rank(self) -> nat {
        match self {
            SessionView::AwaitingClient { .. } => 0,
            SessionView::AwaitingResponse => 1,
            SessionView::AwaitingBody { .. } => 2,
            SessionView::Finished => 3,
        }
    }
}

impl CommandView {
    /// Whether the command asks for work on the network.
    pub open spec fn touches_network(self) -> bool {
        self is Post || self is ReadBody
    }
}

/// How a call opens. A request that breaks a rule is over at once, with the
/// validation error as its result; any other asks for a client with the
/// request's timeout.
pub open spec fn opening(args: ChatArgsView) -> (SessionView, CommandView) {
    match validation(args) {
        Err(e) => (SessionView::Finished, CommandView::Finish { outcome: Err(e) }),
        Ok(_) => (
            SessionView::AwaitingClient { args },
            CommandView::BuildClient { timeout_ms: effective_timeout(args) },
        ),
    }
}

/// The transition function: the stage and command that follow `signal` in
/// `session`, or `None` where that signal does not belong to that stage.
pub open spec fn next(session: SessionView, signal: SignalView) -> Option<
    (SessionView, CommandView),
> {
    match session {
        SessionView::AwaitingClient { args } => match signal {
            SignalView::ClientReady => Some(
                (
                    SessionView::AwaitingResponse,
                    CommandView::Post {
                        url: ENDPOINT@,
                        bearer: args.api_key,
                        body: body_model(args.model, args.messages, args.max_tokens),
                    },
                ),
            ),
            SignalView::ClientFailed { detail } => Some(
                (
                    SessionView::Finished,
                    CommandView::Finish { outcome: Err(client_failure_view(detail)) },
                ),
            ),
            _ => None,
        },
        SessionView::AwaitingResponse => match signal {
            SignalView::Responded { status } => Some(
                (SessionView::AwaitingBody { status }, CommandView::ReadBody),
            ),
            SignalView::SendFailed { timed_out, connect, detail } => Some(
                (
                    SessionView::Finished,
                    CommandView::Finish {
                        outcome: Err(transport_failure_view(timed_out, connect, detail)),
                    },
                ),
            ),
            _ => None,
        },
        SessionView::AwaitingBody { status } => match signal {
            SignalView::BodyRead { text } => Some(
                (SessionView::Finished, CommandView::Finish { outcome: conclusion(status, text) }),
            ),
            SignalView::BodyFailed { detail } => Some(
                (
                    SessionView::Finished,
                    CommandView::Finish { outcome: Err(read_failure_view(detail)) },
                ),
            ),
            _ => None,
        },
        SessionView::Finished => None,
    }
}

/// What the world outside does to one call: whether a client can be built,
/// what sending brings, and what reading the body brings.
pub struct Surroundings {
    /// `Err` with the reason where no client can be built.
    pub client: Result<(), Seq<char>>,
    /// The status of the response, or `Err` with whether the failure was a
    /// timeout, whether it was a failure to connect, and its description.
    pub send: Result<u16, (bool, bool, Seq<char>)>,
    /// The body text, or `Err` with the reason where it cannot be read.
    pub body: Result<Seq<char>, Seq<char>>,
}

/// The result of a call, said directly: the first thing that goes wrong
/// decides (validation, then the client, then sending, then reading), and
/// where nothing goes wrong the status and the body do.
pub open spec fn call_outcome(args: ChatArgsView, world: Surroundings) -> Result<
    Seq<char>,
    ApiErrorView,
> {
    if validation(args) is Err {
        Err(validation(args)->Err_0)
    } else if world.client is Err {
        Err(client_failure_view(world.client->Err_0))
    } else if world.send is Err {
        Err(transport_failure_view(world.send->Err_0.0, world.send->Err_0.1, world.send->Err_0.2))
    } else if world.body is Err {
        Err(read_failure_view(world.body->Err_0))
    } else {
        conclusion(world.send->Ok_0, world.body->Ok_0)
    }
}

/// The signal an honest caller reports for `command` in `world`.
pub open spec fn report(command: CommandView, world: Surroundings) -> SignalView {
    match command {
        CommandView::BuildClient { .. } => match world.client {
            Ok(_) => SignalView::ClientReady,
            Err(detail) => SignalView::ClientFailed { detail },
        },
        CommandView::Post { .. } => match world.send {
            Ok(status) => SignalView::Responded { status },
            Err(failure) => SignalView::SendFailed {
                timed_out: failure.0,
                connect: failure.1,
                detail: failure.2,
            },
        },
        _ => match world.body {
            Ok(text) => SignalView::BodyRead { text },
            Err(detail) => SignalView::BodyFailed { detail },
        },
    }
}

/// Where a session ends when an honest caller drives it for at most `steps`
/// more signals: the result it finishes with, or `None` if it has not
/// finished by then.
pub open spec fn drive(
    session: SessionView,
    command: CommandView,
    world: Surroundings,
    steps: nat,
) -> Option<Result<Seq<char>, ApiErrorView>>
    decreases steps,
{
    match command {
        CommandView::Finish { outcome } => Some(outcome),
        _ => if steps == 0 {
            None
        } else {
            match next(session, report(command, world)) {
                Some(pair) => drive(pair.0, pair.1, world, (steps - 1) as nat),
                None => None,
            }
        },
    }
}

impl Session {
    #[verifier::type_invariant]
    spec fn holds_valid_request(self) -> bool {
        match self.stage {
            Stage::AwaitingClient { args } => validation(args@) is Ok,
            _ => true,
        }
    }

    /// Opens a call: validates the request and, if it passes, asks for a
    /// client. See [`opening`].
    pub fn begin(args: SiliconflowChatArgs) -> (r: (Session, Command))
        ensures
            (r.0@, r.1@) == opening(args@),
    {
        match validate_args(&args) {
            Err(e) => (Session { stage: Stage::Finished }, Command::Finish { outcome: Err(e) }),
            Ok(_) => {
                let timeout_ms = resolve_timeout(&args);
                (
                    Session { stage: Stage::AwaitingClient { args } },
                    Command::BuildClient { timeout_ms },
                )
            },
        }
    }

    /// Whether the call is over.
    pub fn is_finished(&self) -> (b: bool)
        ensures
            b == (self@ is Finished),
    {
        match self.stage {
            Stage::Finished => true,
            _ => false,
        }
    }

    /// Takes the session one signal further, see [`next`]. A signal that
    /// does not belong to the session's stage gives `None`. Whatever the
    /// session still holds of a request has passed validation.
    pub fn step(self, signal: Signal) -> (r: Option<(Session, Command)>)
        ensures
            match r {
                Some(pair) => next(self@, signal@) == Some((pair.0@, pair.1@)),
                None => next(self@, signal@) is None,
            },
            self@.validated(),
    {
        proof {
            use_type_invariant(&self);
        }
        match self.stage {
            Stage::AwaitingClient { args } => match signal {
                Signal::ClientReady => {
                    let SiliconflowChatArgs { api_key, model, messages, max_tokens, timeout_ms: _ } =
                        args;
                    let body = build_body(model.as_str(), messages, max_tokens);
                    Some(
                        (
                            Session { stage: Stage::AwaitingResponse },
                            Command::Post { url: ENDPOINT.to_owned(), bearer: api_key, body },
                        ),
                    )
                },
                Signal::ClientFailed { detail } => Some(
                    (
                        Session { stage: Stage::Finished },
                        Command::Finish { outcome: Err(client_failure(detail.as_str())) },
                    ),
                ),
                _ => None,
            },
            Stage::AwaitingResponse => match signal {
                Signal::Responded { status } => Some(
                    (Session { stage: Stage::AwaitingBody { status } }, Command::ReadBody),
                ),
                Signal::SendFailed { timed_out, connect, detail } => Some(
                    (
                        Session { stage: Stage::Finished },
                        Command::Finish {
                            outcome: Err(transport_failure(timed_out, connect, detail.as_str())),
                        },
                    ),
                ),
                _ => None,
            },
            Stage::AwaitingBody { status } => match signal {
                Signal::BodyRead { text } => Some(
                    (
                        Session { stage: Stage::Finished },
                        Command::Finish { outcome: conclude(status, text) },
                    ),
                ),
                Signal::BodyFailed { detail } => Some(
                    (
                        Session { stage: Stage::Finished },
                        Command::Finish { outcome: Err(read_failure(detail.as_str())) },
                    ),
                ),
                _ => None,
            },
            Stage::Finished => None,
        }
    }
}

/// A call never goes back: every transition moves to a later stage, so no
/// call takes more than three signals. It issues `Finish` exactly when it
/// moves to the last stage, and it never asks for a second client.
pub proof fn lemma_step_advances(
    session: SessionView,
    signal: SignalView,
    after: SessionView,
    command: CommandView,
)
    requires
        next(session, signal) == Some((after, command)),
    ensures
        session.rank() < after.rank() <= 3,
        command is Finish <==> after is Finished,
        !(command is BuildClient),
{
}

/// A request that fails validation never reaches the network: the call is
/// over as it opens, its result is the validation error, and no signal can
/// draw another command from it.
pub proof fn lemma_invalid_request_never_sent(args: ChatArgsView)
    requires
        validation(args) is Err,
    ensures
        opening(args) == (
            SessionView::Finished,
            CommandView::Finish { outcome: Err(validation(args)->Err_0) },
        ),
        !opening(args).1.touches_network(),
        forall|signal: SignalView| next(SessionView::Finished, signal) is None,
{
}

/// A request that passes validation opens with a client whose timeout is
/// the request's own, or the default of 120000 ms where it names none.
pub proof fn lemma_valid_request_opens(args: ChatArgsView)
    requires
        validation(args) is Ok,
    ensures
        opening(args) == (
            SessionView::AwaitingClient { args },
            CommandView::BuildClient { timeout_ms: effective_timeout(args) },
        ),
        args.timeout_ms is None ==> effective_timeout(args) == 120000,
        args.timeout_ms is Some ==> effective_timeout(args) == args.timeout_ms->0,
{
}

/// Only a validated request is ever posted: a `Post` command comes from a
/// session that waited for its client and holds arguments that passed
/// validation, and it carries those arguments' key and body to the fixed
/// endpoint.
pub proof fn lemma_post_carries_validated_request(
    session: SessionView,
    signal: SignalView,
    after: SessionView,
    command: CommandView,
)
    requires
        session.validated(),
        next(session, signal) == Some((after, command)),
        command is Post,
    ensures
        session is AwaitingClient,
        signal is ClientReady,
        validation(session->args) is Ok,
        command == (CommandView::Post {
            url: ENDPOINT@,
            bearer: session->args.api_key,
            body: body_model(session->args.model, session->args.messages, session->args.max_tokens),
        }),
{
}

/// What ends a call, by the signal that ends it. A failed client and a
/// failed send end in `NetworkError` or `Timeout`, without a status; a
/// timeout is `Timeout` whatever else the transport says. An unreadable body
/// ends in `ParseError` whatever the status was. A body that was read ends
/// in the body itself or in the classified error.
pub proof fn lemma_endings(
    session: SessionView,
    signal: SignalView,
    after: SessionView,
    outcome: Result<Seq<char>, ApiErrorView>,
)
    requires
        next(session, signal) == Some((after, CommandView::Finish { outcome })),
    ensures
        signal is ClientFailed ==> outcome == Err::<Seq<char>, ApiErrorView>(
            client_failure_view(signal->ClientFailed_detail),
        ),
        signal is SendFailed && signal->timed_out ==> outcome == Err::<Seq<char>, ApiErrorView>(
            ApiErrorView::Timeout,
        ),
        signal is SendFailed ==> outcome is Err && (outcome->Err_0 is Timeout
            || outcome->Err_0 is NetworkError),
        signal is BodyFailed ==> outcome is Err && outcome->Err_0 is ParseError,
        signal is BodyRead ==> session is AwaitingBody && outcome == conclusion(
            session->status,
            signal->text,
        ),
{
}

/// The state machine does what a call is meant to do: opened on any
/// request and driven by an honest caller in any surroundings, it finishes
/// within three signals, and with exactly the outcome of [`call_outcome`].
pub proof fn lemma_driven_call_ends_in_outcome(args: ChatArgsView, world: Surroundings)
    ensures
        drive(opening(args).0, opening(args).1, world, 3) == Some(call_outcome(args, world)),
{
    reveal_with_fuel(drive, 4);
}

} // verus!
