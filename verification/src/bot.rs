//! The driver: executes one named step and decides how the execution ended.

use crate::context::{fresh_context, Context, ContextView};
use crate::error::{StepError, StepErrorView};
use crate::request::{codes_view, Request, RequestView};
use crate::requester::{settings_for, HttpRequester, RequestHandle, RequestHandleView};
use crate::step::{StepManager, Stepable};
use std::sync::Arc;
use std::time::{Duration, Instant};
use vstd::prelude::*;

verus! {

/// `std::time::Instant`, a reading of the monotonic clock; nothing inside it is seen.
#[verifier::external_type_specification]
#[verifier::external_body]
pub struct ExInstant(std::time::Instant);

/// `Instant::now`: a reading of the monotonic clock. Nothing is known of it.
pub assume_specification[ Instant::now ]() -> (now: Instant)
;

/// `Instant::elapsed`: the time since the reading was taken. Nothing is known of it.
pub assume_specification[ Instant::elapsed ](start: &Instant) -> (elapsed: Duration)
;

/// `Duration::as_millis`: the whole milliseconds in the duration.
pub assume_specification[ Duration::as_millis ](duration: &Duration) -> (millis: u128)
;

/// What the transport reports of one request that was sent.
#[derive(Debug, PartialEq, Eq)]
pub enum Reply {
    /// A response arrived; holds its status code.
    Response(u16),
    /// The deadline of the request passed; holds the transport's report.
    TimedOut(String),
    /// The transport failed otherwise; holds its report.
    Failed(String),
}

/// Mathematical model of a [`Reply`].
pub enum ReplyView {
    Response(u16),
    TimedOut(Seq<char>),
    Failed(Seq<char>),
}

impl View for Reply {
    type V = ReplyView;

    open spec fn view(&self) -> ReplyView {
        match self {
            Reply::Response(status) => ReplyView::Response(*status),
            Reply::TimedOut(detail) => ReplyView::TimedOut(detail@),
            Reply::Failed(detail) => ReplyView::Failed(detail@),
        }
    }
}

/// How an execution ended, and with it the hook that the step is owed.
#[derive(Debug, PartialEq, Eq)]
pub enum Outcome {
    /// The response was accepted: `on_success`.
    Success,
    /// The transport failed or the response was rejected: `on_error` with this error.
    Error(StepError),
    /// The deadline passed: `on_timeout`; the caller gets this error.
    Timeout(StepError),
}

/// Mathematical model of an [`Outcome`].
pub enum OutcomeView {
    Success,
    Error(StepErrorView),
    Timeout(StepErrorView),
}

impl View for Outcome {
    type V = OutcomeView;

    open spec fn view(&self) -> OutcomeView {
        match self {
            Outcome::Success => OutcomeView::Success,
            Outcome::Error(error) => OutcomeView::Error(error@),
            Outcome::Timeout(error) => OutcomeView::Timeout(error@),
        }
    }
}

/// The acceptance rule. With an explicit list of accepted codes the status must be one of
/// them; without a list it must lie in the success range, 200 to 299.
pub open spec fn accepted(codes: Option<Seq<u16>>, status: u16) -> bool {
    match codes {
        Some(list) => list.contains(status),
        None => 200 <= status <= 299,
    }
}

/// The codes that a rejection reports as expected: the explicit list, or no code at all.
pub open spec fn expected_codes(codes: Option<Seq<u16>>) -> Seq<u16> {
    match codes {
        Some(list) => list,
        None => Seq::empty(),
    }
}

/// How an execution ends whose request accepts `codes` and whose transport reports
/// `reply`.
pub open spec fn outcome_of(codes: Option<Seq<u16>>, reply: ReplyView) -> OutcomeView {
    match reply {
        ReplyView::Response(status) => if accepted(codes, status) {
            OutcomeView::Success
        } else {
            OutcomeView::Error(
                StepErrorView::StatusCodeNotFound(status as int, expected_codes(codes)),
            )
        },
        ReplyView::TimedOut(detail) => OutcomeView::Timeout(StepErrorView::ReqwestError(detail)),
        ReplyView::Failed(detail) => OutcomeView::Error(StepErrorView::ReqwestError(detail)),
    }
}

/// The context as the driver hands it to a hook: the elapsed time is recorded whatever
/// the reply was, the buffered response is cleared when the execution succeeded, and
/// nothing else is touched.
pub open spec fn settled(context: ContextView, reply: ReplyView, elapsed: u64) -> ContextView {
    ContextView {
        time_elapsed: elapsed,
        response: if outcome_of(context.status_codes, reply) is Success {
            None
        } else {
            context.response
        },
        ..context
    }
}

/// The context that the driver builds for the step `name` around the request that the
/// step asked for.
pub open spec fn started(request: RequestView, name: Seq<char>) -> ContextView {
    ContextView { current_step: Some(name), ..fresh_context(request, settings_for(request)) }
}

/// The context of the step `name` once its request has been taken out to be sent.
pub open spec fn awaiting(request: RequestView, name: Seq<char>) -> ContextView {
    ContextView { request_builder: None, ..started(request, name) }
}

/// What the caller gets for an outcome: the context on success, else the error.
pub open spec fn reported(result: Result<Context, StepError>, outcome: OutcomeView) -> bool {
    match outcome {
        OutcomeView::Success => result is Ok,
        OutcomeView::Error(error) => result matches Err(e) && e@ == error,
        OutcomeView::Timeout(error) => result matches Err(e) && e@ == error,
    }
}

/// A deadline that passed ends in the timeout outcome and in no other; no other reply
/// ends in it.
pub proof fn lemma_timeout_is_isolated(codes: Option<Seq<u16>>, reply: ReplyView)
    ensures
        reply is TimedOut <==> outcome_of(codes, reply) is Timeout,
        reply is TimedOut ==> !(outcome_of(codes, reply) is Error) && !(outcome_of(codes, reply)
            is Success),
{
}

/// Every reply ends in exactly one outcome, and a response ends in success exactly when
/// the acceptance rule holds of its status code.
pub proof fn lemma_acceptance_decides(codes: Option<Seq<u16>>, status: u16)
    ensures
        outcome_of(codes, ReplyView::Response(status)) is Success <==> accepted(codes, status),
        !accepted(codes, status) ==> outcome_of(codes, ReplyView::Response(status))
            == OutcomeView::Error(
            StepErrorView::StatusCodeNotFound(status as int, expected_codes(codes)),
        ),
{
}

/// Whatever the reply, the context that a hook gets holds the elapsed time, and the
/// driver has left the hint for the next step and the name of the step as they were.
pub proof fn lemma_settled_records_time(context: ContextView, reply: ReplyView, elapsed: u64)
    ensures
        settled(context, reply, elapsed).time_elapsed == elapsed,
        settled(context, reply, elapsed).next_step == context.next_step,
        settled(context, reply, elapsed).current_step == context.current_step,
{
}

/// The context of a step that was just begun names that step, holds its request ready to
/// be sent, and has no hint for the next step: the hint is for the hooks to set.
pub proof fn lemma_started_context(
    request: RequestView,
    name: Seq<char>,
    reply: ReplyView,
    elapsed: u64,
)
    ensures
        started(request, name).current_step == Some(name),
        started(request, name).next_step is None,
        started(request, name).request_builder is Some,
        started(request, name).status_codes == request.status_codes,
        settled(started(request, name), reply, elapsed).current_step == Some(name),
        settled(started(request, name), reply, elapsed).next_step is None,
{
}

/// Whether `status` is accepted under `codes`.
pub fn accepts(codes: &Option<Vec<u16>>, status: u16) -> (ok: bool)
    ensures
        ok == accepted(codes_view(*codes), status),
{
    match codes {
        Some(list) => {
            let mut i: usize = 0;
            while i < list.len()
                invariant
                    i <= list.len(),
                    codes_view(*codes) == Some(list@),
                    forall|k: int| 0 <= k < i ==> list[k] != status,
                decreases list.len() - i,
            {
                if list[i] == status {
                    assert(list@[i as int] == status);
                    return true;
                }
                i += 1;
            }
            false
        },
        None => 200 <= status && status <= 299,
    }
}

/// How an execution ends whose request accepts `codes` and whose transport reports
/// `reply`.
pub fn classify(codes: &Option<Vec<u16>>, reply: Reply) -> (outcome: Outcome)
    ensures
        outcome@ == outcome_of(codes_view(*codes), reply@),
{
    match reply {
        Reply::Response(status) => {
            if accepts(codes, status) {
                Outcome::Success
            } else {
                let expected = match codes {
                    Some(list) => list.clone(),
                    None => Vec::new(),
                };
                Outcome::Error(StepError::StatusCodeNotFound(status as i32, expected))
            }
        },
        Reply::TimedOut(detail) => Outcome::Timeout(StepError::ReqwestError(detail)),
        Reply::Failed(detail) => Outcome::Error(StepError::ReqwestError(detail)),
    }
}

impl Context {
    /// Records how the request ended, before any hook runs: stores the elapsed time,
    /// clears the buffered response if the execution succeeded, and says which hook is
    /// owed.
    pub fn settle(&mut self, reply: Reply, elapsed: u64) -> (outcome: Outcome)
        ensures
            outcome@ == outcome_of(old(self)@.status_codes, reply@),
            final(self)@ == settled(old(self)@, reply@, elapsed),
    {
        self.set_time_elapsed(elapsed);
        let outcome = classify(&self.status_codes, reply);
        if let Outcome::Success = outcome {
            self.response = None;
        }
        outcome
    }
}

/// The milliseconds since `start`, cut to 64 bits: the whole milliseconds of the duration
/// that the clock reports as elapsed.
fn millis_since(start: &Instant) -> (cut: u64)
    ensures
        exists|elapsed: Duration, millis: u128|
            #![trigger
                Instant::elapsed.ensures((start,), elapsed),
                Duration::as_millis.ensures((&elapsed,), millis),
            ]
            {
                &&& Instant::elapsed.ensures((start,), elapsed)
                &&& Duration::as_millis.ensures((&elapsed,), millis)
                &&& cut == millis as u64
            },
{
    let elapsed = start.elapsed();
    let millis: u128 = elapsed.as_millis();
    let cut = #[verifier::truncate]
    (millis as u64);
    assert(Instant::elapsed.ensures((start,), elapsed) && Duration::as_millis.ensures(
        (&elapsed,),
        millis,
    ) && cut == millis as u64);
    cut
}

/// Executes steps by name.
#[verifier::reject_recursive_types(S)]
pub struct Bot<S: Stepable> {
    pub steps: StepManager<S>,
}

impl<S: Stepable> Bot<S> {
    /// A driver without steps.
    pub fn new() -> (bot: Self)
        ensures
            bot.steps@ == Map::<Seq<char>, S>::empty(),
    {
        Bot { steps: StepManager::new() }
    }

    /// The context for the execution of `req`: the requester takes the proxy, the user
    /// agent and the compression setting from the request, and the request is ready to be
    /// sent.
    pub fn new_context(req: Request) -> (context: Context)
        ensures
            context@ == fresh_context(req@, settings_for(req@)),
            context.well_formed(),
    {
        let mut http_req = HttpRequester::new();
        let status_codes = req.status_codes();
        http_req.settings.set_proxy(req.proxy());
        http_req.settings.set_user_agent(req.user_agent());
        http_req.settings.set_compression(req.is_compressed());
        let req_builder = http_req.build_request(req.clone());
        Context {
            request: req,
            current_step: None,
            http_requester: http_req,
            request_builder: Some(req_builder),
            response: None,
            next_step: None,
            status_codes,
            time_elapsed: 0,
        }
    }

    /// The step that is registered under `step_name`; `StepNotFound` if there is none.
    pub fn resolve_step(&self, step_name: &String) -> (result: Result<&Arc<S>, StepError>)
        ensures
            match result {
                Ok(step) => {
                    &&& self.steps@.contains_key(step_name@)
                    &&& **step == self.steps@[step_name@]
                },
                Err(error) => {
                    &&& !self.steps@.contains_key(step_name@)
                    &&& error@ == StepErrorView::StepNotFound(step_name@)
                },
            },
    {
        match self.steps.get(step_name.as_str()) {
            Some(step) => Ok(step),
            None => Err(StepError::StepNotFound(step_name.clone())),
        }
    }

    /// Asks `step` for its request and builds the context of its execution under the
    /// name `step_name` around it.
    pub fn open_step(step: &S, step_name: &String) -> (context: Context)
        ensures
            exists|request: Request|
                S::on_request.ensures((step,), request) && context@ == started(
                    request@,
                    step_name@,
                ),
            context.well_formed(),
    {
        let req = step.on_request();
        let mut ctx = Self::new_context(req);
        ctx.current_step = Some(step_name.clone());
        assert(S::on_request.ensures((step,), req) && ctx@ == started(req@, step_name@));
        ctx
    }

    /// The first half of an execution: finds the step `step_name`, asks it for its
    /// request and builds the context around it. Without such a step nothing is asked
    /// of any step and the result is `StepNotFound`.
    pub fn begin_step(&self, step_name: &String) -> (result: Result<(&Arc<S>, Context), StepError>)
        ensures
            match result {
                Ok((step, context)) => {
                    &&& self.steps@.contains_key(step_name@)
                    &&& **step == self.steps@[step_name@]
                    &&& exists|request: Request|
                        S::on_request.ensures((&**step,), request) && context@ == started(
                            request@,
                            step_name@,
                        )
                    &&& context.well_formed()
                },
                Err(error) => {
                    &&& !self.steps@.contains_key(step_name@)
                    &&& error@ == StepErrorView::StepNotFound(step_name@)
                },
            },
    {
        match self.resolve_step(step_name) {
            Ok(step) => {
                let ctx = Self::open_step(step, step_name);
                Ok((step, ctx))
            },
            Err(error) => Err(error),
        }
    }

    /// The second half of an execution: records in `ctx` how the request ended, runs the
    /// one hook of `step` that the outcome asks for, and reports the outcome. The hook
    /// is handed the context as [`settled`] describes it, the error hook with an error
    /// equal to the one reported; on success the caller gets the context as the hook left
    /// it.
    pub fn complete_step(step: &S, ctx: Context, reply: Reply, elapsed: u64) -> (result: Result<
        Context,
        StepError,
    >)
        ensures
            reported(result, outcome_of(ctx@.status_codes, reply@)),
            outcome_of(ctx@.status_codes, reply@) is Success ==> exists|handed: &mut Context|
                {
                    &&& #[trigger] S::on_success.ensures((step, handed), ())
                    &&& (*handed)@ == settled(ctx@, reply@, elapsed)
                    &&& result == Ok::<Context, StepError>(*final(handed))
                },
            outcome_of(ctx@.status_codes, reply@) matches OutcomeView::Error(error) ==> exists|
                handed: &mut Context,
                err: StepError,
            |
                {
                    &&& #[trigger] S::on_error.ensures((step, handed, err), ())
                    &&& (*handed)@ == settled(ctx@, reply@, elapsed)
                    &&& err@ == error
                },
            outcome_of(ctx@.status_codes, reply@) is Timeout ==> exists|handed: &mut Context|
                {
                    &&& #[trigger] S::on_timeout.ensures((step, handed), ())
                    &&& (*handed)@ == settled(ctx@, reply@, elapsed)
                },
    {
        let mut context = ctx;
        match context.settle(reply, elapsed) {
            Outcome::Success => {
                step.on_success(&mut context);
                Ok(context)
            },
            Outcome::Error(error) => {
                step.on_error(&mut context, error.clone());
                Err(error)
            },
            Outcome::Timeout(error) => {
                step.on_timeout(&mut context);
                Err(error)
            },
        }
    }

    /// Executes the step `step_name` once: finds the step, starts the clock, builds the
    /// context, hands the request to `send`, reads the clock, and completes the step with
    /// what `send` reported and the milliseconds that passed: the one
    /// hook that the outcome asks for is handed the context with its request taken out
    /// and the outcome recorded, and on success the caller gets the context as the hook
    /// left it. Without such a step `send` is not called.
    pub fn handle_step<F: FnOnce(RequestHandle) -> Reply>(
        &mut self,
        step_name: String,
        send: F,
    ) -> (result: Result<Context, StepError>)
        requires
            forall|handle: RequestHandle| send.requires((handle,)),
        ensures
            final(self).steps@ == old(self).steps@,
            !old(self).steps@.contains_key(step_name@) ==> (result matches Err(e) && e@
                == StepErrorView::StepNotFound(step_name@)),
            old(self).steps@.contains_key(step_name@) ==> exists|
                request: Request,
                handle: RequestHandle,
                reply: Reply,
                elapsed: u64,
            |
                #![trigger
                    send.ensures((handle,), reply),
                    settled(awaiting(request@, step_name@), reply@, elapsed),
                ]
                {
                    &&& S::on_request.ensures((&old(self).steps@[step_name@],), request)
                    &&& handle@ == (RequestHandleView {
                        request: request@,
                        settings: settings_for(request@),
                    })
                    &&& send.ensures((handle,), reply)
                    &&& exists|start: Instant, gone: Duration, millis: u128|
                        #![trigger
                            Instant::elapsed.ensures((&start,), gone),
                            Duration::as_millis.ensures((&gone,), millis),
                        ]
                        {
                            &&& Instant::now.ensures((), start)
                            &&& Instant::elapsed.ensures((&start,), gone)
                            &&& Duration::as_millis.ensures((&gone,), millis)
                            &&& elapsed == millis as u64
                        }
                    &&& reported(result, outcome_of(request@.status_codes, reply@))
                    &&& outcome_of(request@.status_codes, reply@) is Success ==> exists|
                        handed: &mut Context,
                    |
                        {
                            &&& #[trigger] S::on_success.ensures(
                                (&old(self).steps@[step_name@], handed),
                                (),
                            )
                            &&& (*handed)@ == settled(
                                awaiting(request@, step_name@),
                                reply@,
                                elapsed,
                            )
                            &&& result == Ok::<Context, StepError>(*final(handed))
                        }
                    &&& outcome_of(request@.status_codes, reply@) matches OutcomeView::Error(
                        error,
                    ) ==> exists|handed: &mut Context, err: StepError|
                        {
                            &&& #[trigger] S::on_error.ensures(
                                (&old(self).steps@[step_name@], handed, err),
                                (),
                            )
                            &&& (*handed)@ == settled(
                                awaiting(request@, step_name@),
                                reply@,
                                elapsed,
                            )
                            &&& err@ == error
                        }
                    &&& outcome_of(request@.status_codes, reply@) is Timeout ==> exists|
                        handed: &mut Context,
                    |
                        {
                            &&& #[trigger] S::on_timeout.ensures(
                                (&old(self).steps@[step_name@], handed),
                                (),
                            )
                            &&& (*handed)@ == settled(
                                awaiting(request@, step_name@),
                                reply@,
                                elapsed,
                            )
                        }
                },
    {
        let step = match self.resolve_step(&step_name) {
            Ok(step) => step,
            Err(error) => {
                return Err(error);
            },
        };
        let stop_watch = Instant::now();
        let mut ctx = Self::open_step(step, &step_name);
        let ghost request = choose|request: Request|
            S::on_request.ensures((&**step,), request) && ctx@ == started(request@, step_name@);
        let handle = ctx.take_request_builder().unwrap();
        let ghost sent = handle;
        let reply = send(handle);
        let ghost reported_reply = reply;
        let elapsed = millis_since(&stop_watch);
        assert(ctx@ == awaiting(request@, step_name@));
        let result = Self::complete_step(step, ctx, reply, elapsed);
        proof {
            let shared = &old(self).steps@[step_name@];
            let before = settled(awaiting(request@, step_name@), reported_reply@, elapsed);
            let outcome = outcome_of(request@.status_codes, reported_reply@);
            assert(S::on_request.ensures((shared,), request));
            assert(sent@ == (RequestHandleView {
                request: request@,
                settings: settings_for(request@),
            }));
            assert(send.ensures((sent,), reported_reply));
            assert(Instant::now.ensures((), stop_watch));
            assert(exists|start: Instant, gone: Duration, millis: u128|
                #![trigger
                    Instant::elapsed.ensures((&start,), gone),
                    Duration::as_millis.ensures((&gone,), millis),
                ]
                {
                    &&& Instant::now.ensures((), start)
                    &&& Instant::elapsed.ensures((&start,), gone)
                    &&& Duration::as_millis.ensures((&gone,), millis)
                    &&& elapsed == millis as u64
                });
            assert(reported(result, outcome));
            assert(outcome is Success ==> exists|handed: &mut Context|
                {
                    &&& #[trigger] S::on_success.ensures((shared, handed), ())
                    &&& (*handed)@ == before
                    &&& result == Ok::<Context, StepError>(*final(handed))
                });
            assert(outcome matches OutcomeView::Error(error) ==> exists|
                handed: &mut Context,
                err: StepError,
            |
                {
                    &&& #[trigger] S::on_error.ensures((shared, handed, err), ())
                    &&& (*handed)@ == before
                    &&& err@ == error
                });
            assert(outcome is Timeout ==> exists|handed: &mut Context|
                {
                    &&& #[trigger] S::on_timeout.ensures((shared, handed), ())
                    &&& (*handed)@ == before
                });
        }
        result
    }
}

} // verus!
