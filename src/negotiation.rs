use vstd::prelude::*;
use crate::config::Bypasser;
use crate::extract::{
    form_action, form_action_of, hidden_fields_of, is_recognized_field, pairs_view,
    parse_challenge, puzzle_script_of,
};
use crate::sandbox::{page_program, parse_js};
use crate::target::{submission_url, submission_url_of, url_parts_of};

verus! {

/// Name of the form field that carries the puzzle's answer.
pub const ANSWER_FIELD: &'static str = "jschl_answer";

/// Why a negotiation ended without a credential.
#[derive(Debug, Clone, Copy, PartialEq, Eq, Structural)]
pub enum BypassError {
    /// The fetched page lacks the challenge form, its session cookie, or
    /// the puzzle script.
    MalformedChallengePage,
    /// The scripting engine failed or wrote no text.
    EvaluationFailed,
    /// No submission was answered with a new session cookie.
    MaxRetriesExceeded,
    /// The requested URL has no scheme and domain name to send the answer to.
    InvalidTargetUrl,
}

/// The session cookie and user agent that unlock the protected site.
#[derive(Debug)]
pub struct Credential {
    pub cookie: Vec<u8>,
    pub user_agent: String,
}

/// What the transport got for the challenge request.
pub struct FetchedPage {
    pub html: String,
    /// The URL that the transport reports for the response.
    pub effective_url: String,
    /// The `Set-Cookie` value of the response, if it had one.
    pub cookie: Option<Vec<u8>>,
}

/// The form post that carries the answer.
pub struct Submission {
    pub url: String,
    pub cookie: Vec<u8>,
    pub referer: String,
    pub params: Vec<(String, String)>,
}

#[derive(Debug, Clone, Copy, PartialEq, Eq, Structural)]
pub enum Phase {
    Fetching,
    Evaluating,
    Waiting,
    Submitting,
    Finished,
}

/// What the outside world reports back.
pub enum Event {
    /// The challenge request failed in transport or decoding.
    FetchFailed,
    Fetched(FetchedPage),
    /// The engine's output, or `None` when it failed.
    Evaluated(Option<String>),
    Waited,
    /// The post failed in transport, or its response set no cookie.
    SubmitFailed,
    /// The post's response set this cookie.
    Accepted(Vec<u8>),
}

/// What the outside world is asked to do next.
pub enum Action {
    /// Request the target with the user agent, redirects not followed.
    Fetch,
    /// Run this program and report what it writes.
    Evaluate(String),
    /// Pause for this many seconds.
    Sleep(u8),
    /// Post the submission.
    Submit,
    Done(Result<Credential, BypassError>),
}

/// One negotiation: fetch, extract, evaluate, wait, submit.
pub struct Negotiation {
    target: String,
    user_agent: String,
    wait: u8,
    limit: u32,
    phase: Phase,
    attempts: u32,
    submission: Submission,
}

pub open spec fn empty_submission(s: &Submission) -> bool {
    s.url@.len() == 0 && s.cookie@.len() == 0 && s.referer@.len() == 0 && s.params@.len() == 0
}

/// The scheme and domain name of a target URL, when it has both.
pub open spec fn target_origin(target: Seq<char>) -> Option<(Seq<char>, Seq<char>)> {
    match url_parts_of(target) {
        Some((scheme, Some(domain))) => Some((scheme, domain)),
        _ => None,
    }
}

/// The error that a fetched challenge page ends the negotiation with, if
/// any: a missing form or session cookie, a target without a domain name,
/// or a missing puzzle script, tested in that order.
pub open spec fn fetched_error(target: Seq<char>, page: &FetchedPage) -> Option<BypassError> {
    if form_action_of(page.html@).is_none() || page.cookie.is_none() {
        Some(BypassError::MalformedChallengePage)
    } else if target_origin(target).is_none() {
        Some(BypassError::InvalidTargetUrl)
    } else if page_program(page.html@, target_origin(target).unwrap().1).is_none() {
        Some(BypassError::MalformedChallengePage)
    } else {
        None
    }
}

/// The submission prepared from a well-formed challenge page.
pub open spec fn prepared_submission(target: Seq<char>, page: &FetchedPage, s: &Submission) -> bool {
    let (scheme, domain) = target_origin(target).unwrap();
    &&& s.url@ == submission_url_of(scheme, domain, form_action_of(page.html@).unwrap())
    &&& s.cookie@ == page.cookie.unwrap()@
    &&& s.referer@ == page.effective_url@
    &&& pairs_view(s.params@) == hidden_fields_of(page.html@)
    &&& forall|i: int| 0 <= i < s.params@.len() ==> is_recognized_field(#[trigger] s.params@[i].0@)
}

/// A fetched page without the puzzle script never leads to an evaluation:
/// the negotiation ends with an error, and for a target with a domain name
/// that error is a malformed challenge page.
pub proof fn lemma_missing_puzzle_is_malformed(target: Seq<char>, page: &FetchedPage)
    requires
        puzzle_script_of(page.html@).is_none(),
    ensures
        fetched_error(target, page).is_some(),
        target_origin(target).is_some() ==> fetched_error(target, page) == Some(
            BypassError::MalformedChallengePage,
        ),
{
}

/// One refused submission: the attempt is counted, and the answer is posted
/// again unless that count has reached the limit, which ends the negotiation.
pub open spec fn refused_step(before: Negotiation, after: Negotiation, a: Action) -> bool {
    &&& after.wf()
    &&& after.same_settings(&before)
    &&& after.spec_attempts() == before.spec_attempts() + 1
    &&& after.spec_submission() == before.spec_submission()
    &&& if before.spec_attempts() + 1 >= before.spec_limit() {
        &&& a == Action::Done(Err(BypassError::MaxRetriesExceeded))
        &&& after.spec_phase() == Phase::Finished
    } else {
        &&& a is Submit
        &&& after.spec_phase() == Phase::Submitting
    }
}

/// The state before the `i`-th of a run of refused submissions.
pub open spec fn state_before(first: Negotiation, run: Seq<(Negotiation, Action)>, i: int) -> Negotiation {
    if i == 0 {
        first
    } else {
        run[i - 1].0
    }
}

/// Against a server that refuses every submission, the answer is posted at
/// most `limit` times: the `i`-th refusal (from zero) counts `i + 1`
/// attempts, each refusal before the `limit`-th asks for another post, and
/// the `limit`-th ends the negotiation with `MaxRetriesExceeded`.
pub proof fn lemma_refusals_exhaust_limit(first: Negotiation, run: Seq<(Negotiation, Action)>)
    requires
        first.wf(),
        first.spec_phase() == Phase::Submitting,
        first.spec_attempts() == 0,
        forall|i: int|
            0 <= i < run.len() ==> (#[trigger] state_before(first, run, i)).spec_phase()
                == Phase::Submitting,
        forall|i: int|
            0 <= i < run.len() ==> refused_step(state_before(first, run, i), #[trigger] run[i].0, run[i].1),
    ensures
        run.len() <= first.spec_limit(),
        forall|i: int|
            0 <= i < run.len() ==> (#[trigger] run[i].0).spec_attempts() == i + 1,
        forall|i: int|
            0 <= i < run.len() ==> ((#[trigger] run[i].1 is Submit) <==> i + 1 < first.spec_limit()),
        forall|i: int|
            0 <= i < run.len() && i + 1 == first.spec_limit() ==> #[trigger] run[i].1
                == Action::Done(Err(BypassError::MaxRetriesExceeded)),
{
    assert forall|i: int| 0 <= i < run.len() implies (#[trigger] run[i].0).spec_attempts() == i + 1
        && (run[i].1 is Submit <==> i + 1 < first.spec_limit()) && (i + 1 == first.spec_limit()
        ==> run[i].1 == Action::Done(Err(BypassError::MaxRetriesExceeded))) by {
        lemma_count_along(first, run, i);
        assert(refused_step(state_before(first, run, i), run[i].0, run[i].1));
    }
    assert forall|i: int| 0 <= i < run.len() implies ((#[trigger] run[i].1 is Submit) <==> i + 1
        < first.spec_limit()) by {
        assert(run[i].0.spec_attempts() == i + 1);
    }
    assert forall|i: int| 0 <= i < run.len() && i + 1 == first.spec_limit() implies #[trigger] run[i].1
        == Action::Done(Err(BypassError::MaxRetriesExceeded)) by {
        assert(run[i].0.spec_attempts() == i + 1);
    }
    if run.len() > 0 {
        let last = run.len() - 1;
        lemma_count_along(first, run, last);
        assert(state_before(first, run, last).spec_phase() == Phase::Submitting);
        if last > 0 {
            assert(refused_step(state_before(first, run, last - 1), run[last - 1].0, run[last - 1].1));
        }
    }
}

/// Along a run of refusals, the state before the `k`-th has the settings of
/// the first and has counted `k` attempts.
proof fn lemma_count_along(first: Negotiation, run: Seq<(Negotiation, Action)>, k: int)
    requires
        0 <= k <= run.len(),
        first.spec_attempts() == 0,
        forall|i: int|
            0 <= i < run.len() ==> refused_step(state_before(first, run, i), #[trigger] run[i].0, run[i].1),
    ensures
        state_before(first, run, k).same_settings(&first),
        state_before(first, run, k).spec_attempts() == k,
    decreases k,
{
    if k > 0 {
        lemma_count_along(first, run, k - 1);
        assert(refused_step(state_before(first, run, k - 1), run[k - 1].0, run[k - 1].1));
    }
}

impl Negotiation {
    pub closed spec fn spec_target(&self) -> Seq<char> {
        self.target@
    }

    pub closed spec fn spec_user_agent(&self) -> Seq<char> {
        self.user_agent@
    }

    pub closed spec fn spec_wait(&self) -> u8 {
        self.wait
    }

    /// How many submissions are made at most.
    pub closed spec fn spec_limit(&self) -> u32 {
        self.limit
    }

    pub closed spec fn spec_phase(&self) -> Phase {
        self.phase
    }

    /// Submissions made and refused so far.
    pub closed spec fn spec_attempts(&self) -> u32 {
        self.attempts
    }

    pub closed spec fn spec_submission(&self) -> &Submission {
        &self.submission
    }

    pub closed spec fn wf(&self) -> bool {
        &&& self.limit >= 1
        &&& self.phase == Phase::Submitting ==> self.attempts < self.limit
    }

    /// Whether `event` answers the action of the current phase.
    pub open spec fn spec_expects(&self, event: &Event) -> bool {
        match self.spec_phase() {
            Phase::Fetching => event is FetchFailed || event is Fetched,
            Phase::Evaluating => event is Evaluated,
            Phase::Waiting => event is Waited,
            Phase::Submitting => event is SubmitFailed || event is Accepted,
            Phase::Finished => false,
        }
    }

    pub open spec fn same_settings(&self, other: &Self) -> bool {
        &&& self.spec_target() == other.spec_target()
        &&& self.spec_user_agent() == other.spec_user_agent()
        &&& self.spec_wait() == other.spec_wait()
        &&& self.spec_limit() == other.spec_limit()
    }

    /// Starts a negotiation for `target`, resolving the user agent of
    /// `config`; the first action is the challenge request.
    pub fn start(config: &mut Bypasser, target: &str) -> (r: (Negotiation, Action))
        ensures
            r.0.wf(),
            r.0.spec_phase() == Phase::Fetching,
            r.0.spec_target() == target@,
            r.0.spec_user_agent() == final(config).resolved_user_agent(),
            r.0.spec_wait() == old(config).spec_wait(),
            r.0.spec_limit() == old(config).attempt_limit(),
            empty_submission(r.0.spec_submission()),
            r.1 is Fetch,
            final(config).spec_wait() == old(config).spec_wait(),
            final(config).spec_retry() == old(config).spec_retry(),
            final(config).spec_proxy() == old(config).spec_proxy(),
            final(config).spec_random_ua() == old(config).spec_random_ua(),
            old(config).spec_user_agent().len() > 0 ==> final(config).spec_user_agent()
                == old(config).spec_user_agent(),
            old(config).spec_user_agent().len() == 0 && !old(config).spec_random_ua()
                ==> final(config).spec_user_agent().len() == 0,
            old(config).spec_user_agent().len() == 0 && old(config).spec_random_ua()
                ==> final(config).spec_user_agent().len() > 0,
    {
        let user_agent = config.get_user_agent();
        let retry = config.retry_times();
        let limit: u32 = if retry == 0 { 1 } else { retry };
        let negotiation = Negotiation {
            target: target.to_owned(),
            user_agent,
            wait: config.wait_secs(),
            limit,
            phase: Phase::Fetching,
            attempts: 0,
            submission: Submission {
                url: String::new(),
                cookie: Vec::new(),
                referer: String::new(),
                params: Vec::new(),
            },
        };
        (negotiation, Action::Fetch)
    }

    pub fn target(&self) -> (r: &str)
        ensures
            r@ == self.spec_target(),
    {
        self.target.as_str()
    }

    pub fn user_agent(&self) -> (r: &str)
        ensures
            r@ == self.spec_user_agent(),
    {
        self.user_agent.as_str()
    }

    pub fn phase(&self) -> (r: Phase)
        ensures
            r == self.spec_phase(),
    {
        self.phase
    }

    pub fn attempts(&self) -> (r: u32)
        ensures
            r == self.spec_attempts(),
    {
        self.attempts
    }

    pub fn submission(&self) -> (r: &Submission)
        ensures
            r == self.spec_submission(),
    {
        &self.submission
    }

    pub fn expects(&self, event: &Event) -> (r: bool)
        ensures
            r == self.spec_expects(event),
    {
        match self.phase {
            Phase::Fetching => matches!(event, Event::FetchFailed | Event::Fetched(_)),
            Phase::Evaluating => matches!(event, Event::Evaluated(_)),
            Phase::Waiting => matches!(event, Event::Waited),
            Phase::Submitting => matches!(event, Event::SubmitFailed | Event::Accepted(_)),
            Phase::Finished => false,
        }
    }

    fn finish(&mut self, error: BypassError) -> (a: Action)
        requires
            old(self).wf(),
        ensures
            final(self).wf(),
            final(self).same_settings(old(self)),
            final(self).spec_phase() == Phase::Finished,
            final(self).spec_attempts() == old(self).spec_attempts(),
            final(self).spec_submission() == old(self).spec_submission(),
            a == Action::Done(Err(error)),
    {
        self.phase = Phase::Finished;
        Action::Done(Err(error))
    }
    fn on_fetched(&mut self, page: FetchedPage) -> (a: Action)
        requires
            old(self).wf(),
            old(self).spec_phase() == Phase::Fetching,
        ensures
            final(self).wf(),
            final(self).same_settings(old(self)),
            match fetched_error(old(self).spec_target(), &page) {
                Some(e) => a == Action::Done(Err(e)) && final(self).spec_phase() == Phase::Finished,
                None => {
                    &&& a is Evaluate
                    &&& a->Evaluate_0@ == page_program(
                        page.html@,
                        target_origin(old(self).spec_target()).unwrap().1,
                    ).unwrap()
                    &&& final(self).spec_phase() == Phase::Evaluating
                    &&& prepared_submission(
                        old(self).spec_target(),
                        &page,
                        final(self).spec_submission(),
                    )
                },
            },
    {
        let path = match form_action(page.html.as_str()) {
            Some(p) => p,
            None => return self.finish(BypassError::MalformedChallengePage),
        };
        let cookie = match page.cookie {
            Some(c) => c,
            None => return self.finish(BypassError::MalformedChallengePage),
        };
        let (url, domain) = match submission_url(self.target.as_str(), path.as_str()) {
            Some(r) => r,
            None => return self.finish(BypassError::InvalidTargetUrl),
        };
        let params = parse_challenge(page.html.as_str());
        let program = match parse_js(page.html.as_str(), domain.as_str()) {
            Some(p) => p,
            None => return self.finish(BypassError::MalformedChallengePage),
        };
        self.submission = Submission { url, cookie, referer: page.effective_url, params };
        self.phase = Phase::Evaluating;
        Action::Evaluate(program)
    }

    /// Advances the negotiation by one reported event and says what to do
    /// next. A failed challenge request is repeated without bound; a
    /// refused submission is repeated until the attempt limit is reached.
    pub fn step(&mut self, event: Event) -> (a: Action)
        requires
            old(self).wf(),
            old(self).spec_expects(&event),
        ensures
            final(self).wf(),
            final(self).same_settings(old(self)),
            match event {
                Event::FetchFailed => {
                    &&& a is Fetch
                    &&& final(self).spec_phase() == Phase::Fetching
                },
                Event::Fetched(page) => match fetched_error(old(self).spec_target(), &page) {
                    Some(e) => a == Action::Done(Err(e)) && final(self).spec_phase()
                        == Phase::Finished,
                    None => {
                        &&& a is Evaluate
                        &&& a->Evaluate_0@ == page_program(
                            page.html@,
                            target_origin(old(self).spec_target()).unwrap().1,
                        ).unwrap()
                        &&& final(self).spec_phase() == Phase::Evaluating
                        &&& prepared_submission(
                            old(self).spec_target(),
                            &page,
                            final(self).spec_submission(),
                        )
                    },
                },
                Event::Evaluated(None) => {
                    &&& a == Action::Done(Err(BypassError::EvaluationFailed))
                    &&& final(self).spec_phase() == Phase::Finished
                },
                Event::Evaluated(Some(answer)) => {
                    &&& a == Action::Sleep(old(self).spec_wait())
                    &&& final(self).spec_phase() == Phase::Waiting
                    &&& pairs_view(final(self).spec_submission().params@) == pairs_view(
                        old(self).spec_submission().params@,
                    ).push((ANSWER_FIELD@, answer@))
                    &&& final(self).spec_submission().url == old(self).spec_submission().url
                    &&& final(self).spec_submission().cookie == old(self).spec_submission().cookie
                    &&& final(self).spec_submission().referer == old(self).spec_submission().referer
                },
                Event::Waited => {
                    &&& a is Submit
                    &&& final(self).spec_phase() == Phase::Submitting
                    &&& final(self).spec_attempts() == 0
                    &&& final(self).spec_submission() == old(self).spec_submission()
                },
                Event::Accepted(cookie) => {
                    &&& a is Done
                    &&& a->Done_0 is Ok
                    &&& a->Done_0->Ok_0.cookie@ == cookie@
                    &&& a->Done_0->Ok_0.user_agent@ == old(self).spec_user_agent()
                    &&& final(self).spec_phase() == Phase::Finished
                },
                Event::SubmitFailed => refused_step(*old(self), *final(self), a),
            },
    {
        match event {
            Event::FetchFailed => Action::Fetch,
            Event::Fetched(page) => self.on_fetched(page),
            Event::Evaluated(None) => self.finish(BypassError::EvaluationFailed),
            Event::Evaluated(Some(answer)) => {
                let ghost before = self.submission.params@;
                let field = (ANSWER_FIELD.to_owned(), answer);
                self.submission.params.push(field);
                proof {
                    assert(pairs_view(self.submission.params@) =~= pairs_view(before).push(
                        (ANSWER_FIELD@, field.1@),
                    ));
                }
                self.phase = Phase::Waiting;
                Action::Sleep(self.wait)
            },
            Event::Waited => {
                self.attempts = 0;
                self.phase = Phase::Submitting;
                Action::Submit
            },
            Event::Accepted(cookie) => {
                self.phase = Phase::Finished;
                Action::Done(Ok(Credential { cookie, user_agent: self.user_agent.clone() }))
            },
            Event::SubmitFailed => {
                self.attempts = self.attempts + 1;
                if self.attempts >= self.limit {
                    self.phase = Phase::Finished;
                    Action::Done(Err(BypassError::MaxRetriesExceeded))
                } else {
                    Action::Submit
                }
            },
        }
    }
}

} // verus!
