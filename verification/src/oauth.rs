//! The OAuth flow coordinator: the state that ties the start of an
//! authorization to its completion.
//!
//! One attempt at most is in flight. Starting replaces it, completing takes it
//! out, refreshing a token leaves it alone. The exchange with the provider over
//! the network is the host's part: the coordinator hands out the request, and
//! the host brings back what the provider answered.

use crate::provider::{default_config, describe, new_client, start_flow};
use vstd::prelude::*;
use vstd::string::StringExecFns;

verus! {

/// What an authorization is asked for.
#[derive(Clone, Copy, Debug, PartialEq, Eq, Structural)]
pub enum FlowMode {
    /// Access through the user's subscription.
    Max,
    /// Creation of an API key in the provider's console.
    Console,
}

/// The mode in which every authorization of this application is started.
pub const FLOW_MODE: FlowMode = FlowMode::Max;

/// What the provider returns when an authorization is started.
#[derive(Clone, Debug, PartialEq, Eq)]
pub struct FlowStart {
    /// The URL that the user opens in a browser.
    pub authorization_url: String,
    /// Anti-forgery token that the provider echoes.
    pub state: String,
    /// PKCE verifier; it is sent only with the code exchange.
    pub verifier: String,
}

pub struct FlowStartView {
    pub authorization_url: Seq<char>,
    pub state: Seq<char>,
    pub verifier: Seq<char>,
}

impl View for FlowStart {
    type V = FlowStartView;

    open spec fn view(&self) -> FlowStartView {
        FlowStartView {
            authorization_url: self.authorization_url@,
            state: self.state@,
            verifier: self.verifier@,
        }
    }
}

/// One authorization in flight.
#[derive(Clone, Debug, PartialEq, Eq)]
pub struct AuthAttempt {
    pub state: String,
    pub verifier: String,
}

/// What the host sends to the provider to exchange a code for tokens.
#[derive(Clone, Debug, PartialEq, Eq)]
pub struct ExchangeRequest {
    pub code: String,
    pub state: String,
    pub verifier: String,
}

pub struct ExchangeRequestView {
    pub code: Seq<char>,
    pub state: Seq<char>,
    pub verifier: Seq<char>,
}

impl View for ExchangeRequest {
    type V = ExchangeRequestView;

    open spec fn view(&self) -> ExchangeRequestView {
        ExchangeRequestView { code: self.code@, state: self.state@, verifier: self.verifier@ }
    }
}

/// What the host sends to the provider to renew a token.
#[derive(Clone, Debug, PartialEq, Eq)]
pub struct RefreshRequest {
    pub refresh_token: String,
}

/// An access token with the token that renews it.
#[derive(Clone, Debug, PartialEq, Eq)]
pub struct TokenPair {
    pub access_token: String,
    pub refresh_token: String,
}

pub struct TokenPairView {
    pub access_token: Seq<char>,
    pub refresh_token: Seq<char>,
}

impl View for TokenPair {
    type V = TokenPairView;

    open spec fn view(&self) -> TokenPairView {
        TokenPairView { access_token: self.access_token@, refresh_token: self.refresh_token@ }
    }
}

/// Why an operation of the coordinator failed.
#[derive(Clone, Debug, PartialEq, Eq)]
pub enum AuthError {
    /// Completion was asked for while no authorization was in flight.
    NoFlowInProgress,
    /// The provider client failed; the text is its description.
    Provider(String),
}

pub enum AuthErrorView {
    NoFlowInProgress,
    Provider(Seq<char>),
}

impl View for AuthError {
    type V = AuthErrorView;

    open spec fn view(&self) -> AuthErrorView {
        match self {
            AuthError::NoFlowInProgress => AuthErrorView::NoFlowInProgress,
            AuthError::Provider(text) => AuthErrorView::Provider(text@),
        }
    }
}

impl AuthErrorView {
    /// The text shown to the caller.
    pub open spec fn message(self) -> Seq<char> {
        match self {
            AuthErrorView::NoFlowInProgress => "No OAuth flow in progress"@,
            AuthErrorView::Provider(text) => text,
        }
    }
}

impl AuthError {
    /// The text shown to the caller.
    pub fn message(&self) -> (text: String)
        ensures
            text@ == self@.message(),
    {
        match self {
            AuthError::NoFlowInProgress => String::from_str("No OAuth flow in progress"),
            AuthError::Provider(text) => text.clone(),
        }
    }
}

/// The coordinator as contracts see it.
pub enum FlowModel {
    /// No authorization is in flight.
    Idle,
    /// An authorization was started and waits for the provider's code.
    AwaitingCode { state: Seq<char>, verifier: Seq<char> },
}

impl FlowModel {
    /// A start that succeeded puts its attempt in place of whatever was
    /// there; one that failed changes nothing.
    pub open spec fn after_start(self, outcome: Result<FlowStartView, AuthErrorView>) -> FlowModel {
        match outcome {
            Ok(flow) => FlowModel::AwaitingCode { state: flow.state, verifier: flow.verifier },
            Err(_) => self,
        }
    }

    /// What a start answers: the URL to open, or the provider's failure.
    pub open spec fn start_answer(
        outcome: Result<FlowStartView, AuthErrorView>,
    ) -> Result<Seq<char>, AuthErrorView> {
        match outcome {
            Ok(flow) => Ok(flow.authorization_url),
            Err(error) => Err(error),
        }
    }

    /// What a completion with `code` answers: the exchange to make, with the
    /// state and verifier of the attempt in flight, or a failure where none is.
    pub open spec fn completion(self, code: Seq<char>) -> Result<
        ExchangeRequestView,
        AuthErrorView,
    > {
        match self {
            FlowModel::AwaitingCode { state, verifier } => Ok(
                ExchangeRequestView { code, state, verifier },
            ),
            FlowModel::Idle => Err(AuthErrorView::NoFlowInProgress),
        }
    }

    /// A completion uses the attempt up, whether or not there was one.
    pub open spec fn after_complete(self) -> FlowModel {
        FlowModel::Idle
    }

    /// A refresh has no part in the attempt.
    pub open spec fn after_refresh(self) -> FlowModel {
        self
    }
}

pub open spec fn start_outcome_view(outcome: Result<FlowStart, AuthError>) -> Result<
    FlowStartView,
    AuthErrorView,
> {
    match outcome {
        Ok(flow) => Ok(flow@),
        Err(error) => Err(error@),
    }
}

pub open spec fn url_answer_view(answer: Result<String, AuthError>) -> Result<
    Seq<char>,
    AuthErrorView,
> {
    match answer {
        Ok(url) => Ok(url@),
        Err(error) => Err(error@),
    }
}

pub open spec fn exchange_answer_view(answer: Result<ExchangeRequest, AuthError>) -> Result<
    ExchangeRequestView,
    AuthErrorView,
> {
    match answer {
        Ok(request) => Ok(request@),
        Err(error) => Err(error@),
    }
}

pub open spec fn token_answer_view(answer: Result<TokenPair, AuthError>) -> Result<
    TokenPairView,
    AuthErrorView,
> {
    match answer {
        Ok(tokens) => Ok(tokens@),
        Err(error) => Err(error@),
    }
}

/// Completion without an authorization in flight fails, whatever the code.
pub proof fn lemma_complete_needs_start(code: Seq<char>)
    ensures
        FlowModel::Idle.completion(code) == Err::<ExchangeRequestView, AuthErrorView>(
            AuthErrorView::NoFlowInProgress,
        ),
        FlowModel::Idle.after_complete() == FlowModel::Idle,
{
}

/// A second start replaces the first: the attempt in flight is the second
/// one, and a completion is paired with the second flow's state and verifier,
/// never with those of the first where they differ.
pub proof fn lemma_restart_replaces(
    before: FlowModel,
    first: FlowStartView,
    second: FlowStartView,
    code: Seq<char>,
)
    ensures
        before.after_start(Ok(first)).after_start(Ok(second)) == (FlowModel::AwaitingCode {
            state: second.state,
            verifier: second.verifier,
        }),
        before.after_start(Ok(first)).after_start(Ok(second)) == before.after_start(Ok(second)),
        before.after_start(Ok(first)).after_start(Ok(second)).completion(code) == Ok::<
            ExchangeRequestView,
            AuthErrorView,
        >(ExchangeRequestView { code, state: second.state, verifier: second.verifier }),
{
}

/// An attempt is good for one completion: the first takes it, and the second
/// fails, whatever its code.
pub proof fn lemma_complete_consumes(
    state: Seq<char>,
    verifier: Seq<char>,
    first_code: Seq<char>,
    second_code: Seq<char>,
)
    ensures
        ({
            let started = FlowModel::AwaitingCode { state, verifier };
            &&& started.completion(first_code) == Ok::<ExchangeRequestView, AuthErrorView>(
                ExchangeRequestView { code: first_code, state, verifier },
            )
            &&& started.after_complete().completion(second_code) == Err::<
                ExchangeRequestView,
                AuthErrorView,
            >(AuthErrorView::NoFlowInProgress)
        }),
{
}

/// The coordinator after `count` refreshes in a row.
pub open spec fn after_refreshes(model: FlowModel, count: nat) -> FlowModel
    decreases count,
{
    if count == 0 {
        model
    } else {
        after_refreshes(model, (count - 1) as nat).after_refresh()
    }
}

/// Refreshes leave the attempt in flight alone, however many there are: a
/// start or a completion that follows them does what it would have done
/// without them.
pub proof fn lemma_refresh_leaves_flow(
    model: FlowModel,
    count: nat,
    outcome: Result<FlowStartView, AuthErrorView>,
    code: Seq<char>,
)
    ensures
        after_refreshes(model, count) == model,
        after_refreshes(model, count).after_start(outcome) == model.after_start(outcome),
        after_refreshes(model, count).completion(code) == model.completion(code),
    decreases count,
{
    if count > 0 {
        lemma_refresh_leaves_flow(model, (count - 1) as nat, outcome, code);
    }
}

/// Owner of the slot that holds the authorization in flight.
pub struct OAuthCoordinator {
    slot: Option<AuthAttempt>,
}

impl View for OAuthCoordinator {
    type V = FlowModel;

    closed spec fn view(&self) -> FlowModel {
        match self.slot {
            Some(attempt) => FlowModel::AwaitingCode {
                state: attempt.state@,
                verifier: attempt.verifier@,
            },
            None => FlowModel::Idle,
        }
    }
}

impl OAuthCoordinator {
    /// A coordinator with no authorization in flight.
    pub fn new() -> (coordinator: OAuthCoordinator)
        ensures
            coordinator@ == FlowModel::Idle,
    {
        OAuthCoordinator { slot: None }
    }

    /// Whether no authorization is in flight.
    pub fn is_idle(&self) -> (idle: bool)
        ensures
            idle == (self@ is Idle),
    {
        self.slot.is_none()
    }

    /// Takes in what the provider client answered to a start. A new flow
    /// replaces the attempt in flight, if there is one, and its URL is the
    /// answer; a failure is passed on and leaves the slot as it was.
    pub fn accept_flow(&mut self, outcome: Result<FlowStart, AuthError>) -> (answer: Result<
        String,
        AuthError,
    >)
        ensures
            final(self)@ == old(self)@.after_start(start_outcome_view(outcome)),
            url_answer_view(answer) == FlowModel::start_answer(start_outcome_view(outcome)),
    {
        match outcome {
            Ok(flow) => {
                self.slot = Some(AuthAttempt { state: flow.state, verifier: flow.verifier });
                Ok(flow.authorization_url)
            },
            Err(error) => Err(error),
        }
    }

    /// Starts an authorization: asks the provider client for a new flow, as
    /// `begin_flow` does, and takes the answer in, as `accept_flow` does. The
    /// provider client draws the state token and the verifier at random, so
    /// the contract says what holds of every answer: with a URL comes an
    /// attempt in flight, and with a failure, which is the provider's, the
    /// slot as it was.
    pub fn start_oauth(&mut self) -> (answer: Result<String, AuthError>)
        ensures
            answer is Ok ==> final(self)@ is AwaitingCode,
            answer matches Err(error) ==> error is Provider && final(self)@ == old(self)@,
    {
        let outcome = begin_flow();
        self.accept_flow(outcome)
    }

    /// Takes the attempt in flight out of the slot and pairs it with the
    /// provider's code. The slot is empty afterwards in every case, so a code
    /// cannot be tried twice against one attempt.
    pub fn complete_oauth(&mut self, code: String) -> (answer: Result<ExchangeRequest, AuthError>)
        ensures
            final(self)@ == old(self)@.after_complete(),
            exchange_answer_view(answer) == old(self)@.completion(code@),
    {
        match self.slot.take() {
            Some(attempt) => Ok(
                ExchangeRequest { code, state: attempt.state, verifier: attempt.verifier },
            ),
            None => Err(AuthError::NoFlowInProgress),
        }
    }

}

/// Asks the provider client for a new flow in the given mode, against the
/// provider's standard configuration. Nothing is sent over the network. A
/// failure of the client comes back with its description.
pub fn request_flow(mode: FlowMode) -> (outcome: Result<FlowStart, AuthError>)
    ensures
        outcome matches Err(error) ==> error is Provider,
{
    match new_client(default_config()) {
        Ok(client) => match start_flow(&client, mode) {
            Ok(flow) => Ok(flow),
            Err(error) => Err(AuthError::Provider(describe(&error))),
        },
        Err(error) => Err(AuthError::Provider(describe(&error))),
    }
}

/// Asks the provider client for a new flow in the mode `FLOW_MODE`. The answer is
/// for `OAuthCoordinator::accept_flow`; a host that guards the coordinator
/// with a lock calls this before it takes the lock.
pub fn begin_flow() -> (outcome: Result<FlowStart, AuthError>)
    ensures
        outcome matches Err(error) ==> error is Provider,
{
    request_flow(FLOW_MODE)
}

/// The request that renews a token. It is made from the token alone: the
/// coordinator is not asked, so the attempt in flight stays as it is.
pub fn refresh_oauth_token(refresh_token: String) -> (request: RefreshRequest)
    ensures
        request.refresh_token@ == refresh_token@,
{
    RefreshRequest { refresh_token }
}

/// What the caller gets after the host has asked the provider for tokens,
/// in an exchange or a refresh: the tokens, or the provider's failure with
/// its description.
pub fn token_answer(outcome: Result<TokenPair, String>) -> (answer: Result<TokenPair, AuthError>)
    ensures
        token_answer_view(answer) == match outcome {
            Ok(tokens) => Ok::<TokenPairView, AuthErrorView>(tokens@),
            Err(text) => Err(AuthErrorView::Provider(text@)),
        },
{
    match outcome {
        Ok(tokens) => Ok(tokens),
        Err(text) => Err(AuthError::Provider(text)),
    }
}

} // verus!
