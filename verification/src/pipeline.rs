//! The per-invocation pipeline state machine.
//!
//! Per invocation the pipeline is linear: assume the role, then publish the
//! three credential entries in the fixed order access key id, secret access
//! key, session token; the first failure is terminal, with no compensation
//! for upserts that already took effect. The machine decides; the
//! surrounding binary performs each pending action over the network and
//! feeds the outcome back as an event.
use vstd::prelude::*;

use crate::config::Config;
use crate::creds::Creds;
use crate::creds::CredsView;
use crate::creds::RoleFields;
use crate::creds::RoleFieldsView;
use crate::creds::DEFAULT_SESSION_TIME;
use crate::creds::creds_of;
use crate::creds::fields_complete;
use crate::creds::session_name;
use crate::creds::session_name_spec;
use crate::dict::DictView;
use crate::dict::FastlyDict;
use crate::dict::FastlyDictView;
use crate::dict::UpsertRequest;
use crate::dict::UpsertRequestView;
use crate::dict::dict_after;
use crate::errors::PublishError;
use crate::errors::PublishErrorView;
use crate::errors::RunError;
use crate::errors::RunErrorView;
use crate::errors::STSError;
use crate::errors::STSErrorView;
use crate::errors::StartupError;
use crate::secret::SecretParameter;
use crate::errors::SSMErrorView;

verus! {

/// The key under which the access key id is published.
pub open spec fn access_key_id_key() -> Seq<char> {
    "aws_access_key_id"@
}

/// The key under which the secret access key is published.
pub open spec fn secret_access_key_key() -> Seq<char> {
    "aws_secret_access_key"@
}

/// The key under which the session token is published.
pub open spec fn session_token_key() -> Seq<char> {
    "aws_session_token"@
}

/// The dictionary key of the `i`-th publish step.
pub open spec fn nth_key(i: nat) -> Seq<char> {
    if i == 0 {
        access_key_id_key()
    } else if i == 1 {
        secret_access_key_key()
    } else {
        session_token_key()
    }
}

/// The published value of the `i`-th publish step.
pub open spec fn nth_value(c: CredsView, i: nat) -> Seq<char> {
    if i == 0 {
        c.access_key_id
    } else if i == 1 {
        c.secret_access_key
    } else {
        c.session_token
    }
}

/// The dictionary key of the `i`-th publish step, as a string slice.
pub fn nth_key_str(i: u8) -> (s: &'static str)
    ensures
        s@ == nth_key(i as nat),
{
    if i == 0 {
        "aws_access_key_id"
    } else if i == 1 {
        "aws_secret_access_key"
    } else {
        "aws_session_token"
    }
}

/// The published value of the `i`-th publish step.
pub fn nth_value_string(c: &Creds, i: u8) -> (v: String)
    ensures
        v@ == nth_value(c@, i as nat),
{
    if i == 0 {
        c.aws_access_key_id.clone()
    } else if i == 1 {
        c.aws_secret_access_key.clone()
    } else {
        c.aws_session_token.clone()
    }
}

/// A role-assumption request: the role, the fixed session name, the fixed
/// session duration.
#[derive(Debug, Clone)]
pub struct AssumeRoleRequest {
    pub role_arn: String,
    pub session_name: String,
    pub duration_seconds: u32,
}

/// Mathematical model of an `AssumeRoleRequest`.
#[verifier::ext_equal]
pub struct AssumeRoleRequestView {
    pub role_arn: Seq<char>,
    pub session_name: Seq<char>,
    pub duration_seconds: u32,
}

impl View for AssumeRoleRequest {
    type V = AssumeRoleRequestView;

    open spec fn view(&self) -> AssumeRoleRequestView {
        AssumeRoleRequestView {
            role_arn: self.role_arn@,
            session_name: self.session_name@,
            duration_seconds: self.duration_seconds,
        }
    }
}

/// The pending outside action the machine asks for: one network call.
#[derive(Debug, Clone)]
pub enum StepAction {
    AssumeRole(AssumeRoleRequest),
    Upsert(UpsertRequest),
}

/// Mathematical model of a `StepAction`.
#[verifier::ext_equal]
pub enum StepActionView {
    AssumeRole(AssumeRoleRequestView),
    Upsert(UpsertRequestView),
}

impl View for StepAction {
    type V = StepActionView;

    open spec fn view(&self) -> StepActionView {
        match self {
            StepAction::AssumeRole(r) => StepActionView::AssumeRole(r@),
            StepAction::Upsert(r) => StepActionView::Upsert(r@),
        }
    }
}

/// The outcome of a performed action, fed back into the machine. A provider
/// failure carries its diagnostic message.
#[derive(Debug)]
pub enum StepEvent {
    /// Outcome of a role-assumption call: the optional credential object of
    /// a successful response, or the provider failure.
    RoleAssumed(Result<Option<RoleFields>, String>),
    /// Outcome of an upsert call.
    UpsertDone(Result<(), String>),
}

/// Mathematical model of a `StepEvent`.
#[verifier::ext_equal]
pub enum StepEventView {
    RoleAssumed(Result<Option<RoleFieldsView>, Seq<char>>),
    UpsertDone(Result<(), Seq<char>>),
}

impl View for StepEvent {
    type V = StepEventView;

    open spec fn view(&self) -> StepEventView {
        match self {
            StepEvent::RoleAssumed(outcome) => StepEventView::RoleAssumed(
                match outcome {
                    Ok(Some(f)) => Ok(Some(f@)),
                    Ok(None) => Ok(None),
                    Err(m) => Err(m@),
                },
            ),
            StepEvent::UpsertDone(outcome) => StepEventView::UpsertDone(
                match outcome {
                    Ok(_) => Ok(()),
                    Err(m) => Err(m@),
                },
            ),
        }
    }
}

/// The state of one invocation: not yet started, publishing the `done`-th
/// entry of a validated credential triple, finished, or failed.
#[derive(Debug)]
pub enum RunState {
    Start,
    Publishing { creds: Creds, done: u8 },
    Done,
    Failed(RunError),
}

/// Mathematical model of a `RunState`.
#[verifier::ext_equal]
pub enum RunStateView {
    Start,
    Publishing { creds: CredsView, done: nat },
    Done,
    Failed(RunErrorView),
}

impl View for RunState {
    type V = RunStateView;

    open spec fn view(&self) -> RunStateView {
        match self {
            RunState::Start => RunStateView::Start,
            RunState::Publishing { creds, done } => RunStateView::Publishing {
                creds: creds@,
                done: *done as nat,
            },
            RunState::Done => RunStateView::Done,
            RunState::Failed(e) => RunStateView::Failed(e@),
        }
    }
}

impl RunStateView {
    /// A terminal state accepts no further event and asks for no action.
    pub open spec fn is_terminal(self) -> bool {
        self is Done || self is Failed
    }
}

/// The transition function of the machine. From `Start`, a role-assumption
/// outcome either yields a validated credential triple (entering the
/// publish sequence) or fails the run: a provider failure as such, a
/// response without a complete triple as `InvalidResponse`. While
/// publishing, a successful upsert advances to the next entry (after the
/// third, the run is done) and a failed upsert fails the run. Terminal
/// states, and events that do not answer the pending action, change
/// nothing.
pub open spec fn spec_step(s: RunStateView, e: StepEventView) -> RunStateView {
    match (s, e) {
        (RunStateView::Start, StepEventView::RoleAssumed(outcome)) => match outcome {
            Ok(resp) => match resp {
                Some(f) => if fields_complete(f) {
                    RunStateView::Publishing { creds: creds_of(f), done: 0 }
                } else {
                    RunStateView::Failed(RunErrorView::AssumeRole(STSErrorView::InvalidResponse))
                },
                None => RunStateView::Failed(
                    RunErrorView::AssumeRole(STSErrorView::InvalidResponse),
                ),
            },
            Err(m) => RunStateView::Failed(RunErrorView::AssumeRole(STSErrorView::Provider(m))),
        },
        (RunStateView::Publishing { creds, done }, StepEventView::UpsertDone(outcome)) => match outcome {
            Ok(_) => if done >= 2 {
                RunStateView::Done
            } else {
                RunStateView::Publishing { creds, done: done + 1 }
            },
            Err(m) => RunStateView::Failed(RunErrorView::Publish(PublishErrorView::Provider(m))),
        },
        _ => s,
    }
}

/// The action pending in a state: the role-assumption request from `Start`,
/// the `done`-th upsert while publishing, nothing in a terminal state.
pub open spec fn spec_next_action(o: OrchestratorView, s: RunStateView) -> Option<StepActionView> {
    match s {
        RunStateView::Start => Some(
            StepActionView::AssumeRole(
                AssumeRoleRequestView {
                    role_arn: o.role_arn,
                    session_name: session_name_spec(),
                    duration_seconds: DEFAULT_SESSION_TIME,
                },
            ),
        ),
        RunStateView::Publishing { creds, done } => Some(
            StepActionView::Upsert(
                UpsertRequestView {
                    service_id: o.dict.service_id,
                    dictionary_id: o.dict.dictionary_id,
                    key: nth_key(done),
                    value: nth_value(creds, done),
                    api_token: o.dict.api_key,
                },
            ),
        ),
        RunStateView::Done => None,
        RunStateView::Failed(_) => None,
    }
}

impl RunState {
    /// Feeds one event into the machine.
    pub fn step(self, event: StepEvent) -> (next: RunState)
        ensures
            next@ == spec_step(self@, event@),
    {
        match (self, event) {
            (RunState::Start, StepEvent::RoleAssumed(outcome)) => match outcome {
                Ok(resp) => match Creds::from_response(resp) {
                    Ok(c) => RunState::Publishing { creds: c, done: 0 },
                    Err(e) => RunState::Failed(RunError::AssumeRole(e)),
                },
                Err(m) => RunState::Failed(RunError::AssumeRole(STSError::Provider(m))),
            },
            (RunState::Publishing { creds, done }, StepEvent::UpsertDone(outcome)) => match outcome {
                Ok(_) => if done >= 2 {
                    RunState::Done
                } else {
                    RunState::Publishing { creds, done: done + 1 }
                },
                Err(m) => RunState::Failed(RunError::Publish(PublishError::Provider(m))),
            },
            (other, _) => other,
        }
    }
}

/// The orchestrator: the immutable state resolved once at startup — the
/// role to assume and the publisher bound to its target and API token.
#[derive(Debug)]
pub struct Orchestrator {
    role_arn: String,
    dict: FastlyDict,
}

/// Mathematical model of an `Orchestrator`.
#[verifier::ext_equal]
pub struct OrchestratorView {
    pub role_arn: Seq<char>,
    pub dict: FastlyDictView,
}

impl View for Orchestrator {
    type V = OrchestratorView;

    closed spec fn view(&self) -> OrchestratorView {
        OrchestratorView { role_arn: self.role_arn@, dict: self.dict@ }
    }
}

impl Orchestrator {
    /// Cold-start construction: interprets the one-time fetch of the
    /// dictionary API token and binds the publisher to it. A fetch without a
    /// usable (present, non-empty) value is fatal; no invocation runs.
    /// `token_fetch` is `Err` when the provider call itself failed,
    /// otherwise the optional parameter with its optional value.
    pub fn new(config: Config, token_fetch: Result<Option<Option<String>>, String>) -> (r: Result<
        Orchestrator,
        StartupError,
    >)
        ensures
            match r {
                Ok(o) => {
                    &&& token_fetch matches Ok(Some(Some(t))) && t@.len() > 0
                    &&& o@ == (OrchestratorView {
                        role_arn: config.role_arn@,
                        dict: FastlyDictView {
                            service_id: config.service_id@,
                            dictionary_id: config.dictionary_id@,
                            api_key: token_fetch->Ok_0->0->0@,
                        },
                    })
                },
                Err(e) => e matches StartupError::SecretFetch(se) && match se@ {
                    SSMErrorView::ParameterNotExist => token_fetch matches Ok(None),
                    SSMErrorView::EmptyParameter => token_fetch matches Ok(Some(v)) && (v is None
                        || v->0@.len() == 0),
                    SSMErrorView::Provider(m) => token_fetch matches Err(cause) && m == cause@,
                },
            },
    {
        match SecretParameter::from_fetch(config.token_ssm_name, token_fetch) {
            Err(e) => Err(StartupError::SecretFetch(e)),
            Ok(param) => Ok(
                Orchestrator {
                    role_arn: config.role_arn,
                    dict: FastlyDict::new(
                        config.service_id,
                        config.dictionary_id,
                        param.into_value(),
                    ),
                },
            ),
        }
    }

    /// The state in which every invocation begins.
    pub fn begin(&self) -> (s: RunState)
        ensures
            s@ == RunStateView::Start,
    {
        RunState::Start
    }

    /// The network call pending in `state`, if any: the role-assumption
    /// request from the start state, the next upsert while publishing.
    pub fn next_action(&self, state: &RunState) -> (a: Option<StepAction>)
        ensures
            match a {
                Some(act) => spec_next_action(self@, state@) == Some(act@),
                None => spec_next_action(self@, state@) is None,
            },
    {
        match state {
            RunState::Start => Some(
                StepAction::AssumeRole(
                    AssumeRoleRequest {
                        role_arn: self.role_arn.clone(),
                        session_name: String::from_str(session_name()),
                        duration_seconds: DEFAULT_SESSION_TIME,
                    },
                ),
            ),
            RunState::Publishing { creds, done } => {
                let value = nth_value_string(creds, *done);
                Some(StepAction::Upsert(self.dict.upsert_request(nth_key_str(*done), value.as_str())))
            },
            RunState::Done => None,
            RunState::Failed(_) => None,
        }
    }
}

/// The state after a sequence of events, fed in first to last.
pub open spec fn spec_run(s: RunStateView, events: Seq<StepEventView>) -> RunStateView
    decreases events.len(),
{
    if events.len() == 0 {
        s
    } else {
        spec_run(spec_step(s, events[0]), events.skip(1))
    }
}

/// The upserts that took effect along a sequence of events: exactly those
/// the machine asked for that came back successful, in order.
pub open spec fn applied_upserts(s: RunStateView, events: Seq<StepEventView>) -> Seq<
    (Seq<char>, Seq<char>),
>
    decreases events.len(),
{
    if events.len() == 0 {
        Seq::empty()
    } else {
        let rest = applied_upserts(spec_step(s, events[0]), events.skip(1));
        match (s, events[0]) {
            (RunStateView::Publishing { creds, done }, StepEventView::UpsertDone(outcome)) => match outcome {
                Ok(_) => seq![(nth_key(done), nth_value(creds, done))] + rest,
                Err(_) => rest,
            },
            _ => rest,
        }
    }
}

/// A terminal state absorbs every further event: the state no longer
/// changes and nothing more is written.
pub proof fn lemma_terminal_absorbs(s: RunStateView, events: Seq<StepEventView>)
    requires
        s.is_terminal(),
    ensures
        spec_run(s, events) == s,
        applied_upserts(s, events) == Seq::<(Seq<char>, Seq<char>)>::empty(),
    decreases events.len(),
{
    if events.len() > 0 {
        assert(spec_step(s, events[0]) == s);
        lemma_terminal_absorbs(s, events.skip(1));
    }
}

/// The full event sequence of a run whose every call succeeds, the
/// role-assumption response carrying the credential object `f`.
pub open spec fn all_success_events(f: RoleFieldsView) -> Seq<StepEventView> {
    seq![
        StepEventView::RoleAssumed(Ok(Some(f))),
        StepEventView::UpsertDone(Ok(())),
        StepEventView::UpsertDone(Ok(())),
        StepEventView::UpsertDone(Ok(())),
    ]
}

/// The three publishes of a credential triple, in their fixed order.
pub open spec fn credential_upserts(c: CredsView) -> Seq<(Seq<char>, Seq<char>)> {
    seq![
        (access_key_id_key(), c.access_key_id),
        (secret_access_key_key(), c.secret_access_key),
        (session_token_key(), c.session_token),
    ]
}

/// When the role-assumption response carries a complete credential object
/// and all three upserts succeed, the run is done and exactly the three
/// credential entries were written, in order.
pub proof fn lemma_successful_run(f: RoleFieldsView)
    requires
        fields_complete(f),
    ensures
        spec_run(RunStateView::Start, all_success_events(f)) == RunStateView::Done,
        applied_upserts(RunStateView::Start, all_success_events(f)) == credential_upserts(creds_of(f)),
{
    let c = creds_of(f);
    let e = all_success_events(f);
    let s1 = RunStateView::Publishing { creds: c, done: 0 };
    let s2 = RunStateView::Publishing { creds: c, done: 1 };
    let s3 = RunStateView::Publishing { creds: c, done: 2 };
    let e1 = e.skip(1);
    let e2 = e1.skip(1);
    let e3 = e2.skip(1);
    let e4 = e3.skip(1);
    assert(e1 =~= seq![
        StepEventView::UpsertDone(Ok(())),
        StepEventView::UpsertDone(Ok(())),
        StepEventView::UpsertDone(Ok(())),
    ]);
    assert(e2 =~= seq![StepEventView::UpsertDone(Ok(())), StepEventView::UpsertDone(Ok(()))]);
    assert(e3 =~= seq![StepEventView::UpsertDone(Ok(()))]);
    assert(e4 =~= Seq::<StepEventView>::empty());
    assert(spec_step(RunStateView::Start, e[0]) == s1);
    assert(spec_step(s1, e1[0]) == s2);
    assert(spec_step(s2, e2[0]) == s3);
    assert(spec_step(s3, e3[0]) == RunStateView::Done);
    assert(spec_run(RunStateView::Start, e) == spec_run(s1, e1));
    assert(spec_run(s1, e1) == spec_run(s2, e2));
    assert(spec_run(s2, e2) == spec_run(s3, e3));
    assert(spec_run(s3, e3) == spec_run(RunStateView::Done, e4));
    assert(spec_run(RunStateView::Done, e4) == RunStateView::Done);
    assert(applied_upserts(RunStateView::Done, e4) =~= Seq::<(Seq<char>, Seq<char>)>::empty());
    assert(applied_upserts(s3, e3) =~= seq![(nth_key(2), nth_value(c, 2))]);
    assert(applied_upserts(s2, e2) =~= seq![
        (nth_key(1), nth_value(c, 1)),
        (nth_key(2), nth_value(c, 2)),
    ]);
    assert(applied_upserts(s1, e1) =~= seq![
        (nth_key(0), nth_value(c, 0)),
        (nth_key(1), nth_value(c, 1)),
        (nth_key(2), nth_value(c, 2)),
    ]);
    assert(applied_upserts(RunStateView::Start, e) == applied_upserts(s1, e1));
    assert(applied_upserts(RunStateView::Start, e) =~= credential_upserts(c));
}

/// Order of publication: from the `done`-th publish step of a credential
/// triple, whatever the outcomes, the writes that take effect are exactly
/// the next consecutive credential entries, in their fixed order, without
/// skips and never more than the three.
pub proof fn lemma_publish_order(c: CredsView, done: nat, events: Seq<StepEventView>)
    requires
        done <= 2,
    ensures
        done + applied_upserts(RunStateView::Publishing { creds: c, done }, events).len() <= 3,
        applied_upserts(RunStateView::Publishing { creds: c, done }, events)
            == credential_upserts(c).subrange(
            done as int,
            done + applied_upserts(RunStateView::Publishing { creds: c, done }, events).len()
                as int,
        ),
    decreases events.len(),
{
    let s = RunStateView::Publishing { creds: c, done };
    let all = credential_upserts(c);
    if events.len() == 0 {
        assert(applied_upserts(s, events) =~= all.subrange(done as int, done as int));
    } else {
        let rest = events.skip(1);
        match events[0] {
            StepEventView::UpsertDone(outcome) => match outcome {
                Ok(_) => {
                    assert(all[done as int] == (nth_key(done), nth_value(c, done)));
                    if done >= 2 {
                        lemma_terminal_absorbs(RunStateView::Done, rest);
                        assert(applied_upserts(s, events) =~= all.subrange(2, 3));
                    } else {
                        lemma_publish_order(c, done + 1, rest);
                        let tail = applied_upserts(
                            RunStateView::Publishing { creds: c, done: done + 1 },
                            rest,
                        );
                        assert(applied_upserts(s, events) =~= all.subrange(
                            done as int,
                            (done + 1 + tail.len()) as int,
                        ));
                    }
                },
                Err(_) => {
                    lemma_terminal_absorbs(spec_step(s, events[0]), rest);
                    assert(applied_upserts(s, events) =~= all.subrange(done as int, done as int));
                },
            },
            StepEventView::RoleAssumed(_) => {
                lemma_publish_order(c, done, rest);
                assert(applied_upserts(s, events) == applied_upserts(s, rest));
            },
        }
    }
}

/// A role-assumption response without a complete credential triple fails
/// the run as `InvalidResponse`, and no upsert is attempted: whatever
/// events follow, nothing is ever written.
pub proof fn lemma_invalid_response_aborts(
    o: OrchestratorView,
    resp: Option<RoleFieldsView>,
    rest: Seq<StepEventView>,
)
    requires
        resp is None || !fields_complete(resp->0),
    ensures
        spec_step(RunStateView::Start, StepEventView::RoleAssumed(Ok(resp)))
            == RunStateView::Failed(RunErrorView::AssumeRole(STSErrorView::InvalidResponse)),
        applied_upserts(
            RunStateView::Start,
            seq![StepEventView::RoleAssumed(Ok(resp))] + rest,
        ) == Seq::<(Seq<char>, Seq<char>)>::empty(),
        spec_next_action(
            o,
            RunStateView::Failed(RunErrorView::AssumeRole(STSErrorView::InvalidResponse)),
        ) is None,
{
    let failed = RunStateView::Failed(RunErrorView::AssumeRole(STSErrorView::InvalidResponse));
    let e = seq![StepEventView::RoleAssumed(Ok(resp))] + rest;
    assert(e[0] == StepEventView::RoleAssumed(Ok(resp)));
    assert(e.skip(1) =~= rest);
    assert(spec_step(RunStateView::Start, e[0]) == failed);
    lemma_terminal_absorbs(failed, rest);
    assert(applied_upserts(RunStateView::Start, e) == applied_upserts(failed, rest));
}

/// The event sequence of a run where role assumption and the first two
/// upserts succeed and the third upsert fails with provider cause `cause`.
pub open spec fn third_failure_events(f: RoleFieldsView, cause: Seq<char>) -> Seq<StepEventView> {
    seq![
        StepEventView::RoleAssumed(Ok(Some(f))),
        StepEventView::UpsertDone(Ok(())),
        StepEventView::UpsertDone(Ok(())),
        StepEventView::UpsertDone(Err(cause)),
    ]
}

/// The three published keys are pairwise distinct.
pub proof fn lemma_published_keys_distinct()
    ensures
        access_key_id_key() != secret_access_key_key(),
        access_key_id_key() != session_token_key(),
        secret_access_key_key() != session_token_key(),
{
    reveal_strlit("aws_access_key_id");
    reveal_strlit("aws_secret_access_key");
    reveal_strlit("aws_session_token");
    assert(access_key_id_key().len() == 17);
    assert(secret_access_key_key().len() == 21);
    assert(session_token_key().len() == 17);
    assert(access_key_id_key()[4] == 'a');
    assert(session_token_key()[4] == 's');
}

/// When the third upsert fails, the run reports a publish failure, and the
/// dictionary is left holding the two new values alongside whatever it
/// previously held under the session-token key.
pub proof fn lemma_third_upsert_failure(f: RoleFieldsView, cause: Seq<char>, d: DictView)
    requires
        fields_complete(f),
    ensures
        spec_run(RunStateView::Start, third_failure_events(f, cause)) == RunStateView::Failed(
            RunErrorView::Publish(PublishErrorView::Provider(cause)),
        ),
        applied_upserts(RunStateView::Start, third_failure_events(f, cause))
            == credential_upserts(creds_of(f)).take(2),
        dict_after(d, applied_upserts(RunStateView::Start, third_failure_events(f, cause)))
            == d.insert(access_key_id_key(), creds_of(f).access_key_id).insert(
            secret_access_key_key(),
            creds_of(f).secret_access_key,
        ),
        dict_after(
            d,
            applied_upserts(RunStateView::Start, third_failure_events(f, cause)),
        ).contains_key(session_token_key()) == d.contains_key(session_token_key()),
        d.contains_key(session_token_key()) ==> dict_after(
            d,
            applied_upserts(RunStateView::Start, third_failure_events(f, cause)),
        )[session_token_key()] == d[session_token_key()],
{
    let c = creds_of(f);
    let e = third_failure_events(f, cause);
    let failed = RunStateView::Failed(RunErrorView::Publish(PublishErrorView::Provider(cause)));
    let s1 = RunStateView::Publishing { creds: c, done: 0 };
    let s2 = RunStateView::Publishing { creds: c, done: 1 };
    let s3 = RunStateView::Publishing { creds: c, done: 2 };
    let e1 = e.skip(1);
    let e2 = e1.skip(1);
    let e3 = e2.skip(1);
    let e4 = e3.skip(1);
    assert(e1 =~= seq![
        StepEventView::UpsertDone(Ok(())),
        StepEventView::UpsertDone(Ok(())),
        StepEventView::UpsertDone(Err(cause)),
    ]);
    assert(e2 =~= seq![
        StepEventView::UpsertDone(Ok(())),
        StepEventView::UpsertDone(Err(cause)),
    ]);
    assert(e3 =~= seq![StepEventView::UpsertDone(Err(cause))]);
    assert(e4 =~= Seq::<StepEventView>::empty());
    assert(spec_step(RunStateView::Start, e[0]) == s1);
    assert(spec_step(s1, e1[0]) == s2);
    assert(spec_step(s2, e2[0]) == s3);
    assert(spec_step(s3, e3[0]) == failed);
    assert(spec_run(RunStateView::Start, e) == spec_run(s1, e1));
    assert(spec_run(s1, e1) == spec_run(s2, e2));
    assert(spec_run(s2, e2) == spec_run(s3, e3));
    assert(spec_run(s3, e3) == spec_run(failed, e4));
    assert(spec_run(failed, e4) == failed);
    let applied = applied_upserts(RunStateView::Start, e);
    assert(applied_upserts(failed, e4) =~= Seq::<(Seq<char>, Seq<char>)>::empty());
    assert(applied_upserts(s3, e3) =~= Seq::<(Seq<char>, Seq<char>)>::empty());
    assert(applied_upserts(s2, e2) =~= seq![(nth_key(1), nth_value(c, 1))]);
    assert(applied_upserts(s1, e1) =~= seq![
        (nth_key(0), nth_value(c, 0)),
        (nth_key(1), nth_value(c, 1)),
    ]);
    assert(applied == applied_upserts(s1, e1));
    assert(applied =~= credential_upserts(c).take(2));
    let d1 = d.insert(access_key_id_key(), c.access_key_id);
    let d2 = d1.insert(secret_access_key_key(), c.secret_access_key);
    let t1 = applied.skip(1);
    assert(t1 =~= seq![(nth_key(1), nth_value(c, 1))]);
    assert(applied[0] == (nth_key(0), nth_value(c, 0)));
    assert(dict_after(d, applied) == dict_after(d1, t1));
    assert(t1.skip(1) =~= Seq::<(Seq<char>, Seq<char>)>::empty());
    assert(t1[0] == (nth_key(1), nth_value(c, 1)));
    assert(dict_after(d1, t1) == dict_after(d2, t1.skip(1)));
    assert(dict_after(d2, t1.skip(1)) == d2);
    lemma_published_keys_distinct();
}

} // verus!
