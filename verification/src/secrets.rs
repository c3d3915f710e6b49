//! Named secrets (e.g. API keys) and the decisions made when they are added
//! to, read from, updated in or removed from the operating system's secret
//! store.
//!
//! The store itself lives outside this library. Each operation here is a
//! small state machine: its start function returns either the operation's
//! result or a [`StoreRequest`] for the store together with the
//! [`SecretTask`] that waits for the answer; [`advance`] takes that task and
//! the store's [`StoreReply`] and returns the next step. A driver performs
//! each request and feeds the reply back until a [`SecretStep::Done`] comes.
//!
//! `Debug` on [`Secret`] prints the value in plaintext: avoid logging
//! secrets where logs may be persisted or exposed.

use crate::passwords::{permits, seeded_rng, Generator};
use vstd::prelude::*;

verus! {

/// A named secret value, e.g. an API key or token.
#[derive(Debug, Clone, PartialEq, Eq)]
pub struct Secret {
    name: String,
    value: String,
}

/// What a [`Secret`] holds, as characters.
pub struct SecretView {
    pub name: Seq<char>,
    pub value: Seq<char>,
}

impl View for Secret {
    type V = SecretView;

    closed spec fn view(&self) -> SecretView {
        SecretView { name: self.name@, value: self.value@ }
    }
}

/// Errors that can occur when interacting with the platform secret store.
#[derive(Debug, Clone, PartialEq, Eq)]
pub enum SecretError {
    /// No secret was found for the given name.
    NotFound,
    /// A secret with the given name already exists.
    AlreadyExists,
    /// The secret value is empty.
    EmptyValue,
    /// The store failed; the message says which operation and why.
    PlatformError(String),
}

/// A [`SecretError`] with its message as characters.
pub enum SecretErrorView {
    NotFound,
    AlreadyExists,
    EmptyValue,
    PlatformError(Seq<char>),
}

impl View for SecretError {
    type V = SecretErrorView;

    open spec fn view(&self) -> SecretErrorView {
        match self {
            SecretError::NotFound => SecretErrorView::NotFound,
            SecretError::AlreadyExists => SecretErrorView::AlreadyExists,
            SecretError::EmptyValue => SecretErrorView::EmptyValue,
            SecretError::PlatformError(m) => SecretErrorView::PlatformError(m@),
        }
    }
}

/// What the secret store is asked to do next.
pub enum StoreRequest {
    /// Look up the value stored under `name`.
    Lookup { name: String },
    /// Store `value` under `name`, replacing what is there.
    Store { name: String, value: String },
    /// Remove what is stored under `name`.
    Clear { name: String },
}

/// A [`StoreRequest`] as characters.
pub enum StoreRequestView {
    Lookup { name: Seq<char> },
    Store { name: Seq<char>, value: Seq<char> },
    Clear { name: Seq<char> },
}

impl View for StoreRequest {
    type V = StoreRequestView;

    open spec fn view(&self) -> StoreRequestView {
        match self {
            StoreRequest::Lookup { name } => StoreRequestView::Lookup { name: name@ },
            StoreRequest::Store { name, value } => StoreRequestView::Store {
                name: name@,
                value: value@,
            },
            StoreRequest::Clear { name } => StoreRequestView::Clear { name: name@ },
        }
    }
}

/// What the secret store answered; an error carries the store's own
/// description of the failure.
pub enum StoreReply {
    /// The value found under the name, if any.
    Lookup(Result<Option<String>, String>),
    /// Whether the value was stored.
    Store(Result<(), String>),
    /// Whether the entry was removed.
    Clear(Result<(), String>),
}

/// The answer to a lookup, as characters.
pub open spec fn lookup_view(r: Result<Option<String>, String>) -> Result<Option<Seq<char>>, Seq<char>> {
    match r {
        Ok(Some(v)) => Ok(Some(v@)),
        Ok(None) => Ok(None),
        Err(e) => Err(e@),
    }
}

/// A [`StoreReply`] as characters.
pub enum StoreReplyView {
    Lookup(Result<Option<Seq<char>>, Seq<char>>),
    Store(Result<(), Seq<char>>),
    Clear(Result<(), Seq<char>>),
}

impl View for StoreReply {
    type V = StoreReplyView;

    open spec fn view(&self) -> StoreReplyView {
        match self {
            StoreReply::Lookup(r) => StoreReplyView::Lookup(lookup_view(*r)),
            StoreReply::Store(Ok(())) => StoreReplyView::Store(Ok(())),
            StoreReply::Store(Err(e)) => StoreReplyView::Store(Err(e@)),
            StoreReply::Clear(Ok(())) => StoreReplyView::Clear(Ok(())),
            StoreReply::Clear(Err(e)) => StoreReplyView::Clear(Err(e@)),
        }
    }
}

/// An operation that waits for the store's answer to its last request.
pub enum SecretTask {
    /// Adding `secret`: waiting to learn whether its name is taken.
    /// `give_back` says whether the operation returns the secret.
    AddCheck { secret: Secret, give_back: bool },
    /// Adding `secret`: waiting for the store to write it.
    AddWrite { secret: Secret, give_back: bool },
    /// Reading the secret called `name`.
    GetRead { name: String },
    /// Removing `name`: waiting to learn whether it exists.
    RemoveCheck { name: String },
    /// Removing `name`: waiting for the store to clear it.
    RemoveClear { name: String },
    /// Updating `secret`: waiting to learn whether it exists. With
    /// `or_add`, a missing secret is added instead.
    UpdateCheck { secret: Secret, or_add: bool },
    /// Updating `secret`: waiting for the store to write it.
    UpdateWrite { secret: Secret, or_add: bool },
}

/// A [`SecretTask`] as characters.
pub enum SecretTaskView {
    AddCheck { secret: SecretView, give_back: bool },
    AddWrite { secret: SecretView, give_back: bool },
    GetRead { name: Seq<char> },
    RemoveCheck { name: Seq<char> },
    RemoveClear { name: Seq<char> },
    UpdateCheck { secret: SecretView, or_add: bool },
    UpdateWrite { secret: SecretView, or_add: bool },
}

impl View for SecretTask {
    type V = SecretTaskView;

    open spec fn view(&self) -> SecretTaskView {
        match self {
            SecretTask::AddCheck { secret, give_back } => SecretTaskView::AddCheck {
                secret: secret@,
                give_back: *give_back,
            },
            SecretTask::AddWrite { secret, give_back } => SecretTaskView::AddWrite {
                secret: secret@,
                give_back: *give_back,
            },
            SecretTask::GetRead { name } => SecretTaskView::GetRead { name: name@ },
            SecretTask::RemoveCheck { name } => SecretTaskView::RemoveCheck { name: name@ },
            SecretTask::RemoveClear { name } => SecretTaskView::RemoveClear { name: name@ },
            SecretTask::UpdateCheck { secret, or_add } => SecretTaskView::UpdateCheck {
                secret: secret@,
                or_add: *or_add,
            },
            SecretTask::UpdateWrite { secret, or_add } => SecretTaskView::UpdateWrite {
                secret: secret@,
                or_add: *or_add,
            },
        }
    }
}

/// The next step of an operation: a request for the store, with the task
/// that waits for its answer, or the operation's result. The result holds
/// the secret for `get` and `create_random`, and nothing for the others.
pub enum SecretStep {
    Ask { task: SecretTask, request: StoreRequest },
    Done(Result<Option<Secret>, SecretError>),
}

/// A [`SecretStep`] as characters.
pub enum SecretStepView {
    Ask { task: SecretTaskView, request: StoreRequestView },
    Done(Result<Option<SecretView>, SecretErrorView>),
}

impl View for SecretStep {
    type V = SecretStepView;

    open spec fn view(&self) -> SecretStepView {
        match self {
            SecretStep::Ask { task, request } => SecretStepView::Ask {
                task: task@,
                request: request@,
            },
            SecretStep::Done(Ok(Some(s))) => SecretStepView::Done(Ok(Some(s@))),
            SecretStep::Done(Ok(None)) => SecretStepView::Done(Ok(None)),
            SecretStep::Done(Err(e)) => SecretStepView::Done(Err(e@)),
        }
    }
}

/// The first step of adding `secret`: an empty value is refused at once;
/// otherwise the store is asked whether the name is taken.
pub open spec fn add_start(secret: SecretView, give_back: bool) -> SecretStepView {
    if secret.value.len() == 0 {
        SecretStepView::Done(Err(SecretErrorView::EmptyValue))
    } else {
        SecretStepView::Ask {
            task: SecretTaskView::AddCheck { secret, give_back },
            request: StoreRequestView::Lookup { name: secret.name },
        }
    }
}

/// The first step of updating `secret` (adding it when missing, with
/// `or_add`): an empty value is refused at once; otherwise the store is
/// asked whether the secret exists.
pub open spec fn update_start(secret: SecretView, or_add: bool) -> SecretStepView {
    if secret.value.len() == 0 {
        SecretStepView::Done(Err(SecretErrorView::EmptyValue))
    } else {
        SecretStepView::Ask {
            task: SecretTaskView::UpdateCheck { secret, or_add },
            request: StoreRequestView::Lookup { name: secret.name },
        }
    }
}

/// What reading `name` gives when the store's lookup answered `r`.
pub open spec fn lookup_outcome(name: Seq<char>, r: Result<Option<Seq<char>>, Seq<char>>) -> Result<
    SecretView,
    SecretErrorView,
> {
    match r {
        Err(e) => Err(SecretErrorView::PlatformError("Failed to get secret: "@ + e)),
        Ok(None) => Err(SecretErrorView::NotFound),
        Ok(Some(v)) => Ok(SecretView { name, value: v }),
    }
}

/// Whether `reply` answers the request that `task` waits on: a lookup for
/// the checks and reads, a store for the writes, a clear for the removal.
pub open spec fn reply_fits(task: SecretTaskView, reply: StoreReplyView) -> bool {
    match task {
        SecretTaskView::AddCheck { .. } => reply is Lookup,
        SecretTaskView::AddWrite { .. } => reply is Store,
        SecretTaskView::GetRead { .. } => reply is Lookup,
        SecretTaskView::RemoveCheck { .. } => reply is Lookup,
        SecretTaskView::RemoveClear { .. } => reply is Clear,
        SecretTaskView::UpdateCheck { .. } => reply is Lookup,
        SecretTaskView::UpdateWrite { .. } => reply is Store,
    }
}

/// The step that follows when `task` gets the fitting `reply`.
pub open spec fn advance_spec(task: SecretTaskView, reply: StoreReplyView) -> SecretStepView {
    match task {
        SecretTaskView::AddCheck { secret, give_back } => match reply {
            StoreReplyView::Lookup(Ok(Some(_))) => SecretStepView::Done(
                Err(SecretErrorView::AlreadyExists),
            ),
            StoreReplyView::Lookup(Err(e)) => SecretStepView::Done(
                Err(SecretErrorView::PlatformError("Failed to get secret: "@ + e)),
            ),
            _ => SecretStepView::Ask {
                task: SecretTaskView::AddWrite { secret, give_back },
                request: StoreRequestView::Store { name: secret.name, value: secret.value },
            },
        },
        SecretTaskView::AddWrite { secret, give_back } => match reply {
            StoreReplyView::Store(Err(e)) => SecretStepView::Done(
                Err(SecretErrorView::PlatformError("Failed to add secret: "@ + e)),
            ),
            _ => SecretStepView::Done(
                Ok(
                    if give_back {
                        Some(secret)
                    } else {
                        None
                    },
                ),
            ),
        },
        SecretTaskView::GetRead { name } => match reply {
            StoreReplyView::Lookup(r) => match lookup_outcome(name, r) {
                Ok(s) => SecretStepView::Done(Ok(Some(s))),
                Err(e) => SecretStepView::Done(Err(e)),
            },
            _ => SecretStepView::Done(Err(SecretErrorView::NotFound)),
        },
        SecretTaskView::RemoveCheck { name } => match reply {
            StoreReplyView::Lookup(r) => match lookup_outcome(name, r) {
                Ok(_) => SecretStepView::Ask {
                    task: SecretTaskView::RemoveClear { name },
                    request: StoreRequestView::Clear { name },
                },
                Err(e) => SecretStepView::Done(Err(e)),
            },
            _ => SecretStepView::Done(Err(SecretErrorView::NotFound)),
        },
        SecretTaskView::RemoveClear { name } => match reply {
            StoreReplyView::Clear(Err(e)) => SecretStepView::Done(
                Err(SecretErrorView::PlatformError("Failed to remove secret: "@ + e)),
            ),
            _ => SecretStepView::Done(Ok(None)),
        },
        SecretTaskView::UpdateCheck { secret, or_add } => match reply {
            StoreReplyView::Lookup(r) => match lookup_outcome(secret.name, r) {
                Ok(_) => SecretStepView::Ask {
                    task: SecretTaskView::UpdateWrite { secret, or_add },
                    request: StoreRequestView::Store { name: secret.name, value: secret.value },
                },
                Err(SecretErrorView::NotFound) => if or_add {
                    add_start(secret, false)
                } else {
                    SecretStepView::Done(Err(SecretErrorView::NotFound))
                },
                Err(e) => SecretStepView::Done(Err(e)),
            },
            _ => SecretStepView::Done(Err(SecretErrorView::NotFound)),
        },
        SecretTaskView::UpdateWrite { secret, or_add } => match reply {
            StoreReplyView::Store(Err(e)) => SecretStepView::Done(
                Err(SecretErrorView::PlatformError("Failed to update secret: "@ + e)),
            ),
            _ => SecretStepView::Done(Ok(None)),
        },
    }
}

impl Secret {
    /// Creates a secret from its name and value. Nothing is written to the
    /// store.
    pub fn new(name: String, value: String) -> (s: Self)
        ensures
            s@ == (SecretView { name: name@, value: value@ }),
    {
        Secret { name, value }
    }

    /// Returns the secret's name.
    pub fn name(&self) -> (r: &str)
        ensures
            r@ == self@.name,
    {
        self.name.as_str()
    }

    /// Returns the secret's value, in plaintext.
    pub fn value(&self) -> (r: &str)
        ensures
            r@ == self@.value,
    {
        self.value.as_str()
    }

    /// A copy of the secret.
    fn duplicate(&self) -> (s: Self)
        ensures
            s@ == self@,
    {
        Secret { name: self.name.clone(), value: self.value.clone() }
    }
}

/// A platform error whose message is `prefix` followed by the store's
/// description `detail`.
fn platform_error(prefix: &str, detail: String) -> (e: SecretError)
    ensures
        e@ == SecretErrorView::PlatformError(prefix@ + detail@),
{
    let mut message = String::from_str(prefix);
    message.append(detail.as_str());
    SecretError::PlatformError(message)
}

/// What reading `name` gives when the store's lookup answered `r`.
fn read_outcome(name: &str, r: Result<Option<String>, String>) -> (out: Result<Secret, SecretError>)
    ensures
        lookup_outcome(name@, lookup_view(r)) == match out {
            Ok(s) => Ok::<SecretView, SecretErrorView>(s@),
            Err(e) => Err(e@),
        },
{
    match r {
        Err(e) => Err(platform_error("Failed to get secret: ", e)),
        Ok(None) => Err(SecretError::NotFound),
        Ok(Some(v)) => Ok(Secret::new(String::from_str(name), v)),
    }
}

/// Starts adding `secret` to the store.
///
/// The operation ends with [`SecretError::EmptyValue`] for an empty value,
/// [`SecretError::AlreadyExists`] when the name is taken, a
/// [`SecretError::PlatformError`] when the lookup or the write fails, and
/// nothing otherwise. It writes only when the lookup found nothing.
pub fn add(secret: &Secret) -> (step: SecretStep)
    ensures
        step@ == add_start(secret@, false),
{
    start_add(secret.duplicate(), false)
}

/// The first step of adding `secret`.
fn start_add(secret: Secret, give_back: bool) -> (step: SecretStep)
    ensures
        step@ == add_start(secret@, give_back),
{
    if secret.value.as_str().is_empty() {
        SecretStep::Done(Err(SecretError::EmptyValue))
    } else {
        let request = StoreRequest::Lookup { name: secret.name.clone() };
        SecretStep::Ask { task: SecretTask::AddCheck { secret, give_back }, request }
    }
}

/// Starts reading the secret called `name` from the store.
///
/// The operation ends with the secret, [`SecretError::NotFound`] when the
/// store holds nothing under `name`, or a [`SecretError::PlatformError`]
/// when the lookup fails.
pub fn get(name: &str) -> (step: SecretStep)
    ensures
        step@ == (SecretStepView::Ask {
            task: SecretTaskView::GetRead { name: name@ },
            request: StoreRequestView::Lookup { name: name@ },
        }),
{
    SecretStep::Ask {
        task: SecretTask::GetRead { name: String::from_str(name) },
        request: StoreRequest::Lookup { name: String::from_str(name) },
    }
}

/// Starts removing the secret called `name` from the store.
///
/// The operation ends with the errors of [`get`] when the secret cannot be
/// read, a [`SecretError::PlatformError`] when the store fails to clear it,
/// and nothing otherwise.
pub fn remove(name: &str) -> (step: SecretStep)
    ensures
        step@ == (SecretStepView::Ask {
            task: SecretTaskView::RemoveCheck { name: name@ },
            request: StoreRequestView::Lookup { name: name@ },
        }),
{
    SecretStep::Ask {
        task: SecretTask::RemoveCheck { name: String::from_str(name) },
        request: StoreRequest::Lookup { name: String::from_str(name) },
    }
}

/// Starts replacing the value of the existing secret named like `secret`.
///
/// The operation ends with [`SecretError::EmptyValue`] for an empty value,
/// the errors of [`get`] when the secret cannot be read (so
/// [`SecretError::NotFound`] when it does not exist), a
/// [`SecretError::PlatformError`] when the store fails to write, and
/// nothing otherwise. It never creates a secret.
pub fn update(secret: &Secret) -> (step: SecretStep)
    ensures
        step@ == update_start(secret@, false),
{
    start_update(secret.duplicate(), false)
}

/// The first step of updating `secret`.
fn start_update(secret: Secret, or_add: bool) -> (step: SecretStep)
    ensures
        step@ == update_start(secret@, or_add),
{
    if secret.value.as_str().is_empty() {
        SecretStep::Done(Err(SecretError::EmptyValue))
    } else {
        let request = StoreRequest::Lookup { name: secret.name.clone() };
        SecretStep::Ask { task: SecretTask::UpdateCheck { secret, or_add }, request }
    }
}

/// Starts updating `secret` if it exists, or adding it if it does not.
///
/// The operation runs as [`update`]; when that would end with
/// [`SecretError::NotFound`], it goes on as [`add`]. Any other error of the
/// update is the result.
pub fn upsert(secret: &Secret) -> (step: SecretStep)
    ensures
        step@ == update_start(secret@, true),
{
    start_update(secret.duplicate(), true)
}

/// Starts storing a new secret called `name` whose value is a random
/// 64-character password drawn from all five character classes.
///
/// The operation runs as [`add`] of that secret and ends with the secret
/// itself, or with the errors of [`add`], most notably
/// [`SecretError::AlreadyExists`] when the name is taken. When the
/// operating system's random source fails, it ends at once with a
/// [`SecretError::PlatformError`] and asks the store nothing.
pub fn create_random(name: &str) -> (step: SecretStep)
    ensures
        step@ == SecretStepView::Done(
            Err(SecretErrorView::PlatformError("Failed to seed the random generator"@)),
        ) || exists|value: Seq<char>|
            {
                &&& value.len() == 64
                &&& forall|i: int| 0 <= i < 64 ==> permits(31, #[trigger] value[i])
                &&& step@ == add_start(SecretView { name: name@, value }, true)
            },
{
    match seeded_rng() {
        Some(mut rng) => create_random_with(name, &mut rng),
        None => {
            let message = String::from_str("Failed to seed the random generator");
            SecretStep::Done(Err(SecretError::PlatformError(message)))
        },
    }
}

/// Starts storing a new secret called `name` whose value is a 64-character
/// password that the seeded generator `rng` draws from all five character
/// classes, as [`create_random`] does once it has seeded one. It always
/// starts as [`add`] of that secret, which begins with a lookup of `name`.
pub fn create_random_with(name: &str, rng: &mut rand::rngs::StdRng) -> (step: SecretStep)
    ensures
        exists|value: Seq<char>|
            {
                &&& value.len() == 64
                &&& forall|i: int| 0 <= i < 64 ==> permits(31, #[trigger] value[i])
                &&& step@ == add_start(SecretView { name: name@, value }, true)
                &&& step@ == SecretStepView::Ask {
                    task: SecretTaskView::AddCheck {
                        secret: SecretView { name: name@, value },
                        give_back: true,
                    },
                    request: StoreRequestView::Lookup { name: name@ },
                }
            },
{
    let generator = Generator::default();
    proof {
        let b: u16 = generator@;
        assert(b & 31 != 0) by (bit_vector)
            requires
                b == 31,
        ;
    }
    let value = generator.generate_with(rng, 64);
    let secret = Secret::new(String::from_str(name), value);
    start_add(secret, true)
}

/// Takes the step that follows when the store answers the request that
/// `task` waits on with `reply`.
pub fn advance(task: SecretTask, reply: StoreReply) -> (step: SecretStep)
    requires
        reply_fits(task@, reply@),
    ensures
        step@ == advance_spec(task@, reply@),
{
    match task {
        SecretTask::AddCheck { secret, give_back } => match reply {
            StoreReply::Lookup(Ok(Some(_))) => SecretStep::Done(Err(SecretError::AlreadyExists)),
            StoreReply::Lookup(Err(e)) => SecretStep::Done(
                Err(platform_error("Failed to get secret: ", e)),
            ),
            _ => {
                let request = StoreRequest::Store {
                    name: secret.name.clone(),
                    value: secret.value.clone(),
                };
                SecretStep::Ask { task: SecretTask::AddWrite { secret, give_back }, request }
            },
        },
        SecretTask::AddWrite { secret, give_back } => match reply {
            StoreReply::Store(Err(e)) => SecretStep::Done(
                Err(platform_error("Failed to add secret: ", e)),
            ),
            _ => {
                if give_back {
                    SecretStep::Done(Ok(Some(secret)))
                } else {
                    SecretStep::Done(Ok(None))
                }
            },
        },
        SecretTask::GetRead { name } => match reply {
            StoreReply::Lookup(r) => match read_outcome(name.as_str(), r) {
                Ok(s) => SecretStep::Done(Ok(Some(s))),
                Err(e) => SecretStep::Done(Err(e)),
            },
            _ => SecretStep::Done(Err(SecretError::NotFound)),
        },
        SecretTask::RemoveCheck { name } => match reply {
            StoreReply::Lookup(r) => match read_outcome(name.as_str(), r) {
                Ok(_) => {
                    let request = StoreRequest::Clear { name: name.clone() };
                    SecretStep::Ask { task: SecretTask::RemoveClear { name }, request }
                },
                Err(e) => SecretStep::Done(Err(e)),
            },
            _ => SecretStep::Done(Err(SecretError::NotFound)),
        },
        SecretTask::RemoveClear { name } => match reply {
            StoreReply::Clear(Err(e)) => SecretStep::Done(
                Err(platform_error("Failed to remove secret: ", e)),
            ),
            _ => SecretStep::Done(Ok(None)),
        },
        SecretTask::UpdateCheck { secret, or_add } => match reply {
            StoreReply::Lookup(r) => match read_outcome(secret.name.as_str(), r) {
                Ok(_) => {
                    let request = StoreRequest::Store {
                        name: secret.name.clone(),
                        value: secret.value.clone(),
                    };
                    SecretStep::Ask { task: SecretTask::UpdateWrite { secret, or_add }, request }
                },
                Err(SecretError::NotFound) => {
                    if or_add {
                        start_add(secret, false)
                    } else {
                        SecretStep::Done(Err(SecretError::NotFound))
                    }
                },
                Err(e) => SecretStep::Done(Err(e)),
            },
            _ => SecretStep::Done(Err(SecretError::NotFound)),
        },
        SecretTask::UpdateWrite { secret, or_add } => match reply {
            StoreReply::Store(Err(e)) => SecretStep::Done(
                Err(platform_error("Failed to update secret: ", e)),
            ),
            _ => SecretStep::Done(Ok(None)),
        },
    }
}

/// Whether `reply` is of the kind that answers `request`.
pub open spec fn answers(request: StoreRequestView, reply: StoreReplyView) -> bool {
    ||| request is Lookup && reply is Lookup
    ||| request is Store && reply is Store
    ||| request is Clear && reply is Clear
}

/// Whether a step that asks the store pairs its task with the request that
/// the task waits on.
pub open spec fn well_paired(step: SecretStepView) -> bool {
    step matches SecretStepView::Ask { task, request } ==> forall|reply: StoreReplyView|
        #![trigger answers(request, reply)]
        answers(request, reply) ==> reply_fits(task, reply)
}

/// A driver that answers each request with a reply of its kind always
/// hands `advance` a reply that fits: every step that an operation starts
/// with, and every step that `advance` returns, pairs its task with the
/// request the task waits on.
pub proof fn law_steps_are_well_paired(
    task: SecretTaskView,
    reply: StoreReplyView,
    secret: SecretView,
    name: Seq<char>,
    flag: bool,
)
    ensures
        well_paired(add_start(secret, flag)),
        well_paired(update_start(secret, flag)),
        well_paired(
            SecretStepView::Ask {
                task: SecretTaskView::GetRead { name },
                request: StoreRequestView::Lookup { name },
            },
        ),
        well_paired(
            SecretStepView::Ask {
                task: SecretTaskView::RemoveCheck { name },
                request: StoreRequestView::Lookup { name },
            },
        ),
        reply_fits(task, reply) ==> well_paired(advance_spec(task, reply)),
{
}

/// How many more requests `task` may still make of the store, its own
/// pending one included.
pub open spec fn requests_left(task: SecretTaskView) -> nat {
    match task {
        SecretTaskView::AddCheck { .. } => 2,
        SecretTaskView::AddWrite { .. } => 1,
        SecretTaskView::GetRead { .. } => 1,
        SecretTaskView::RemoveCheck { .. } => 2,
        SecretTaskView::RemoveClear { .. } => 1,
        SecretTaskView::UpdateCheck { or_add, .. } => if or_add {
            3
        } else {
            2
        },
        SecretTaskView::UpdateWrite { .. } => 1,
    }
}

/// `step` with the update that it waits on, if any, turned into an upsert.
pub open spec fn as_upsert(step: SecretStepView) -> SecretStepView {
    match step {
        SecretStepView::Ask { task: SecretTaskView::UpdateCheck { secret, .. }, request } =>
            SecretStepView::Ask { task: SecretTaskView::UpdateCheck { secret, or_add: true }, request },
        SecretStepView::Ask { task: SecretTaskView::UpdateWrite { secret, .. }, request } =>
            SecretStepView::Ask { task: SecretTaskView::UpdateWrite { secret, or_add: true }, request },
        _ => step,
    }
}

/// Every operation ends: each reply leads to its result or to a task with
/// fewer requests left, and no operation starts with more than three
/// requests left, so none asks the store more than three times.
pub proof fn law_operations_end(task: SecretTaskView, reply: StoreReplyView, secret: SecretView, flag: bool)
    requires
        reply_fits(task, reply),
    ensures
        advance_spec(task, reply) matches SecretStepView::Ask { task: next, .. } ==> requests_left(next)
            < requests_left(task),
        add_start(secret, flag) matches SecretStepView::Ask { task: first, .. } ==> requests_left(first)
            <= 3,
        update_start(secret, flag) matches SecretStepView::Ask { task: first, .. } ==> requests_left(
            first,
        ) <= 3,
{
}

/// An upsert is an update that, where the update would end with
/// `NotFound`, goes on as an add of the same secret; every other step,
/// errors included, is the update's own.
pub proof fn law_upsert_is_update_then_add(secret: SecretView, reply: StoreReplyView)
    ensures
        update_start(secret, true) == as_upsert(update_start(secret, false)),
        reply is Lookup ==> advance_spec(SecretTaskView::UpdateCheck { secret, or_add: true }, reply) == if advance_spec(
            SecretTaskView::UpdateCheck { secret, or_add: false },
            reply,
        ) == SecretStepView::Done(Err(SecretErrorView::NotFound)) {
            add_start(secret, false)
        } else {
            as_upsert(advance_spec(SecretTaskView::UpdateCheck { secret, or_add: false }, reply))
        },
        reply is Store ==> advance_spec(SecretTaskView::UpdateWrite { secret, or_add: true }, reply)
            == advance_spec(SecretTaskView::UpdateWrite { secret, or_add: false }, reply),
{
}

/// A secret with an empty value is refused by add, update and upsert
/// before the store is asked anything.
pub proof fn law_empty_value_refused(secret: SecretView, flag: bool)
    requires
        secret.value.len() == 0,
    ensures
        add_start(secret, flag) == SecretStepView::Done(Err(SecretErrorView::EmptyValue)),
        update_start(secret, flag) == SecretStepView::Done(Err(SecretErrorView::EmptyValue)),
{
}

/// Adding never overwrites: an add asks for a write only when its lookup
/// answered that nothing is stored under the name. When the lookup finds
/// the name taken, the add ends with `AlreadyExists`; when the lookup
/// fails, it ends with the lookup's platform error.
pub proof fn law_add_never_overwrites(
    secret: SecretView,
    flag: bool,
    reply: StoreReplyView,
    found: Seq<char>,
    failure: Seq<char>,
)
    requires
        reply is Lookup,
    ensures
        advance_spec(SecretTaskView::AddCheck { secret, give_back: flag }, reply) is Ask ==> reply
            == StoreReplyView::Lookup(Ok(None)),
        advance_spec(
            SecretTaskView::AddCheck { secret, give_back: flag },
            StoreReplyView::Lookup(Ok(Some(found))),
        ) == SecretStepView::Done(Err(SecretErrorView::AlreadyExists)),
        advance_spec(
            SecretTaskView::AddCheck { secret, give_back: flag },
            StoreReplyView::Lookup(Err(failure)),
        ) == SecretStepView::Done(
            Err(SecretErrorView::PlatformError("Failed to get secret: "@ + failure)),
        ),
{
}

/// Updating never creates: when the lookup finds nothing, a plain update
/// ends with `NotFound` and no write is requested.
pub proof fn law_update_never_creates(secret: SecretView)
    ensures
        advance_spec(SecretTaskView::UpdateCheck { secret, or_add: false }, StoreReplyView::Lookup(Ok(None)))
            == SecretStepView::Done(Err(SecretErrorView::NotFound)),
{
}

/// A read gives back the value the store holds under the name asked for,
/// and `NotFound` when it holds none.
pub proof fn law_read_gives_back_stored_value(name: Seq<char>, value: Seq<char>)
    ensures
        advance_spec(SecretTaskView::GetRead { name }, StoreReplyView::Lookup(Ok(Some(value))))
            == SecretStepView::Done(Ok(Some(SecretView { name, value }))),
        advance_spec(SecretTaskView::GetRead { name }, StoreReplyView::Lookup(Ok(None)))
            == SecretStepView::Done(Err(SecretErrorView::NotFound)),
{
}

/// What an add writes is the secret it was given, under its own name, and
/// an add that gives its secret back (as `create_random` does) returns
/// exactly what was written.
pub proof fn law_add_writes_its_secret(secret: SecretView, flag: bool, reply: StoreReplyView)
    requires
        reply == StoreReplyView::Lookup(Ok(None)),
    ensures
        advance_spec(SecretTaskView::AddCheck { secret, give_back: flag }, reply) == (SecretStepView::Ask {
            task: SecretTaskView::AddWrite { secret, give_back: flag },
            request: StoreRequestView::Store { name: secret.name, value: secret.value },
        }),
        advance_spec(SecretTaskView::AddWrite { secret, give_back: true }, StoreReplyView::Store(Ok(())))
            == SecretStepView::Done(Ok(Some(secret))),
{
}

/// An operation reports success only once the store has done its part: an
/// add or an update only after its write was answered `Ok`, a removal only
/// after its clear was answered `Ok`, and a read only when the lookup found
/// a value, which it then gives back under the name asked for.
pub proof fn law_success_needs_the_store(task: SecretTaskView, reply: StoreReplyView)
    requires
        reply_fits(task, reply),
    ensures
        advance_spec(task, reply) matches SecretStepView::Done(Ok(out)) ==> {
            ||| (task matches SecretTaskView::AddWrite { secret, give_back } && reply
                == StoreReplyView::Store(Ok(())) && out == if give_back {
                Some(secret)
            } else {
                None
            })
            ||| (task is UpdateWrite && reply == StoreReplyView::Store(Ok(())) && out is None)
            ||| (task is RemoveClear && reply == StoreReplyView::Clear(Ok(())) && out is None)
            ||| (task matches SecretTaskView::GetRead { name } && reply matches StoreReplyView::Lookup(
                Ok(Some(v)),
            ) && out == Some(SecretView { name, value: v }))
        },
{
    match reply {
        StoreReplyView::Store(Ok(u)) => {
            assert(u == ());
            assert(reply == StoreReplyView::Store(Ok(())));
        },
        StoreReplyView::Clear(Ok(u)) => {
            assert(u == ());
            assert(reply == StoreReplyView::Clear(Ok(())));
        },
        _ => {},
    }
}

/// Each request an operation makes carries the operation's own data, and
/// comes only where the store's last answer calls for it: an add writes its
/// secret only after the lookup found nothing; an update writes its secret
/// only after the lookup found it, and an upsert goes on to add it only
/// after the lookup found nothing; a removal clears its name only after the
/// lookup found it.
pub proof fn law_requests_carry_the_operation(task: SecretTaskView, reply: StoreReplyView)
    requires
        reply_fits(task, reply),
    ensures
        advance_spec(task, reply) matches SecretStepView::Ask { task: next, request } ==> {
            ||| (task matches SecretTaskView::AddCheck { secret, give_back } && reply
                == StoreReplyView::Lookup(Ok(None)) && next == SecretTaskView::AddWrite {
                secret,
                give_back,
            } && request == StoreRequestView::Store { name: secret.name, value: secret.value })
            ||| (task matches SecretTaskView::UpdateCheck { secret, or_add } && reply matches StoreReplyView::Lookup(
                Ok(Some(_)),
            ) && next == SecretTaskView::UpdateWrite { secret, or_add } && request
                == StoreRequestView::Store { name: secret.name, value: secret.value })
            ||| (task matches SecretTaskView::UpdateCheck { secret, or_add } && or_add && reply
                == StoreReplyView::Lookup(Ok(None)) && next == SecretTaskView::AddCheck {
                secret,
                give_back: false,
            } && request == StoreRequestView::Lookup { name: secret.name })
            ||| (task matches SecretTaskView::RemoveCheck { name } && reply matches StoreReplyView::Lookup(
                Ok(Some(_)),
            ) && next == SecretTaskView::RemoveClear { name } && request
                == StoreRequestView::Clear { name })
        },
{
}

/// When the lookup finds the secret, an update goes on to write exactly its
/// name and new value, whatever value was stored, and a removal goes on to
/// clear exactly its name.
pub proof fn law_found_secret_is_written_or_cleared(
    secret: SecretView,
    or_add: bool,
    name: Seq<char>,
    stored: Seq<char>,
)
    ensures
        advance_spec(
            SecretTaskView::UpdateCheck { secret, or_add },
            StoreReplyView::Lookup(Ok(Some(stored))),
        ) == (SecretStepView::Ask {
            task: SecretTaskView::UpdateWrite { secret, or_add },
            request: StoreRequestView::Store { name: secret.name, value: secret.value },
        }),
        advance_spec(SecretTaskView::RemoveCheck { name }, StoreReplyView::Lookup(Ok(Some(stored))))
            == (SecretStepView::Ask {
            task: SecretTaskView::RemoveClear { name },
            request: StoreRequestView::Clear { name },
        }),
{
}

/// An add or an update of a secret with a value, whatever its length,
/// starts by looking up the secret's name and asks nothing else first.
pub proof fn law_writes_start_with_a_lookup(secret: SecretView, flag: bool)
    requires
        secret.value.len() > 0,
    ensures
        add_start(secret, flag) == (SecretStepView::Ask {
            task: SecretTaskView::AddCheck { secret, give_back: flag },
            request: StoreRequestView::Lookup { name: secret.name },
        }),
        update_start(secret, flag) == (SecretStepView::Ask {
            task: SecretTaskView::UpdateCheck { secret, or_add: flag },
            request: StoreRequestView::Lookup { name: secret.name },
        }),
{
}

} // verus!
