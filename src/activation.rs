//! The activation sequence as a state machine. Each call takes the reply to
//! the previous action and yields the next action; the caller performs it
//! against the browser session and hands back what came of it.

use vstd::prelude::*;
use crate::catalog::{catalog, catalog_entry, Evasion, CATALOG_LEN};
use crate::render::{bool_literal, json_bool, json_quoted, json_string, render_script, rendered};
use crate::request::ActivationRequest;
use crate::text::{comma_joined, join_with_commas, replace_all, replace_text, trim_text, trimmed, views};

verus! {

/// The evasions that one activation applies, in order: the whole catalog,
/// less the final hairline fix where the request refuses it.
pub open spec fn plan(request: ActivationRequest) -> Seq<Evasion> {
    if request.spec_fix_hairline() {
        catalog()
    } else {
        catalog().drop_last()
    }
}

/// The argument literals that a script evasion is rendered with.
pub open spec fn script_args(request: ActivationRequest, e: Evasion) -> Seq<Seq<char>> {
    match e {
        Evasion::ChromeRuntime => seq![bool_literal(request.spec_run_on_insecure_origins())],
        Evasion::NavigatorLanguages => request.spec_languages().map_values(
            |l: Seq<char>| json_quoted(l),
        ),
        Evasion::NavigatorVendor => seq![json_quoted(request.spec_vendor())],
        Evasion::WebglVendor => seq![
            json_quoted(request.spec_webgl_vendor()),
            json_quoted(request.spec_renderer()),
        ],
        _ => Seq::empty(),
    }
}

/// The user agent sent in the override: "HeadlessChrome" replaced by
/// "Chrome", trimmed, and wrapped in one pair of parentheses.
pub open spec fn user_agent_value(raw: Seq<char>) -> Seq<char> {
    seq!['('] + trimmed(replace_all(raw, "HeadlessChrome"@, "Chrome"@)) + seq![')']
}

/// What became of the previous action.
#[derive(Debug, PartialEq, Eq)]
pub enum Reply {
    /// The text of the template that was asked for.
    Template(String),
    /// The template could not be obtained.
    TemplateUnavailable,
    /// The session carried out the registration or the override.
    Applied,
    /// The user agent that the browser reports of itself.
    Version(String),
    /// The session failed to carry out the command, with its message.
    TransportFailed(String),
}

/// Why an activation stopped. Each names the evasion whose step failed.
#[derive(Debug, PartialEq, Eq)]
pub enum ActivationError {
    /// The template of the evasion could not be obtained.
    TemplateLoad(Evasion),
    /// The session failed to register the script or apply the override.
    Transport(Evasion, String),
    /// The browser's version could not be queried for its user agent.
    VersionQuery(String),
    /// The reply did not answer the action that was asked for.
    UnexpectedReply(Evasion),
}

/// What the caller is to do next.
#[derive(Debug, PartialEq, Eq)]
pub enum Action {
    /// Obtain the template of the evasion.
    LoadTemplate(Evasion),
    /// Register the script body to run at the start of every new document
    /// (`Page.addScriptToEvaluateOnNewDocument`, parameter `source`).
    RegisterScript(Evasion, String),
    /// Ask the browser for its version (`Browser.getVersion`) and reply with
    /// the user agent that it reports.
    QueryVersion,
    /// Override the user agent, accepted languages and platform for all
    /// later requests (`Network.setUserAgentOverride`).
    OverrideUserAgent { user_agent: String, accept_language: String, platform: String },
    /// Every step is applied.
    Finished,
    /// The activation stopped on the error.
    Failed(ActivationError),
}

/// What the state machine waits for.
#[derive(Clone, Copy, Debug, PartialEq, Eq, Structural)]
pub enum Phase {
    /// The template of a script step.
    AwaitTemplate,
    /// The registration of a script step's body.
    AwaitRegistration,
    /// The browser's version, for its user agent.
    AwaitVersion,
    /// The user-agent override.
    AwaitOverride,
    /// Nothing: every step is applied.
    Finished,
    /// Nothing: a step failed.
    Failed,
}

impl ActivationError {
    /// The evasion whose step failed.
    pub open spec fn spec_step(&self) -> Evasion {
        match self {
            ActivationError::TemplateLoad(e) => *e,
            ActivationError::Transport(e, _) => *e,
            ActivationError::VersionQuery(_) => Evasion::UserAgentOverride,
            ActivationError::UnexpectedReply(e) => *e,
        }
    }

    /// The evasion whose step failed.
    pub fn step(&self) -> (r: Evasion)
        ensures
            r == self.spec_step(),
    {
        match self {
            ActivationError::TemplateLoad(e) => *e,
            ActivationError::Transport(e, _) => *e,
            ActivationError::VersionQuery(_) => Evasion::UserAgentOverride,
            ActivationError::UnexpectedReply(e) => *e,
        }
    }

    /// A copy of the error.
    pub fn duplicate(&self) -> (r: ActivationError)
        ensures
            r == *self,
    {
        match self {
            ActivationError::TemplateLoad(e) => ActivationError::TemplateLoad(*e),
            ActivationError::Transport(e, m) => ActivationError::Transport(*e, m.clone()),
            ActivationError::VersionQuery(m) => ActivationError::VersionQuery(m.clone()),
            ActivationError::UnexpectedReply(e) => ActivationError::UnexpectedReply(*e),
        }
    }
}

/// The error that a reply other than the awaited one causes at a step.
pub open spec fn failure(e: Evasion, phase: Phase, reply: Reply) -> ActivationError {
    if phase == Phase::AwaitTemplate && reply is TemplateUnavailable {
        ActivationError::TemplateLoad(e)
    } else if phase == Phase::AwaitVersion && reply is TransportFailed {
        ActivationError::VersionQuery(reply->TransportFailed_0)
    } else if (phase == Phase::AwaitRegistration || phase == Phase::AwaitOverride)
        && reply is TransportFailed {
        ActivationError::Transport(e, reply->TransportFailed_0)
    } else {
        ActivationError::UnexpectedReply(e)
    }
}

/// The state of an activation, as a mathematical value.
pub struct ActivationView {
    pub request: ActivationRequest,
    /// The position in the plan of the step under way.
    pub index: int,
    pub phase: Phase,
    pub error: Option<ActivationError>,
}

impl ActivationView {
    /// The plan holds the step under way; the phase fits the kind of its
    /// evasion; an error is kept exactly when the activation failed, and it
    /// names that step.
    pub open spec fn wf(&self) -> bool {
        let e = plan(self.request)[self.index];
        &&& 0 <= self.index < plan(self.request).len()
        &&& (self.phase == Phase::AwaitTemplate || self.phase == Phase::AwaitRegistration)
            ==> e.spec_is_script()
        &&& (self.phase == Phase::AwaitVersion || self.phase == Phase::AwaitOverride)
            ==> !e.spec_is_script()
        &&& (self.phase == Phase::Failed <==> self.error is Some)
        &&& self.error is Some ==> self.error->0.spec_step() == e
    }
}

/// The action is the protocol override of user agent, accepted languages
/// and platform, with these values.
pub open spec fn is_override(a: Action, user_agent: Seq<char>, request: ActivationRequest) -> bool {
    &&& a is OverrideUserAgent
    &&& a->user_agent@ == user_agent
    &&& a->accept_language@ == comma_joined(request.spec_languages())
    &&& a->platform@ == request.spec_platform()
}

/// The state and action with which the step at position `index` of the plan
/// begins.
pub open spec fn opens(s: ActivationView, index: int, a: Action) -> bool {
    let e = plan(s.request)[index];
    &&& s.index == index
    &&& s.error is None
    &&& if e.spec_is_script() {
        s.phase == Phase::AwaitTemplate && a == Action::LoadTemplate(e)
    } else if s.request.user_agent is Some {
        &&& s.phase == Phase::AwaitOverride
        &&& is_override(a, user_agent_value(s.request.user_agent->0@), s.request)
    } else {
        s.phase == Phase::AwaitVersion && a == Action::QueryVersion
    }
}

/// The step under way is done: the next one begins, or the activation is
/// finished after the last.
pub open spec fn completes(s: ActivationView, t: ActivationView, a: Action) -> bool {
    if s.index + 1 < plan(s.request).len() {
        opens(t, s.index + 1, a)
    } else {
        t.index == s.index && t.phase == Phase::Finished && t.error is None && a == Action::Finished
    }
}

/// The activation stops at the step under way with the error.
pub open spec fn fails(s: ActivationView, t: ActivationView, a: Action, err: ActivationError) -> bool {
    &&& t.index == s.index
    &&& t.phase == Phase::Failed
    &&& t.error == Some(err)
    &&& a == Action::Failed(err)
}

/// One transition: from state `s`, on `reply`, to state `t` with action `a`.
pub open spec fn advances(s: ActivationView, reply: Reply, t: ActivationView, a: Action) -> bool {
    let e = plan(s.request)[s.index];
    &&& t.request == s.request
    &&& match s.phase {
        Phase::Finished => t == s && a == Action::Finished,
        Phase::Failed => t == s && a == Action::Failed(s.error->0),
        Phase::AwaitTemplate => if reply is Template {
            &&& t.index == s.index
            &&& t.phase == Phase::AwaitRegistration
            &&& t.error is None
            &&& a is RegisterScript
            &&& a->RegisterScript_0 == e
            &&& a->RegisterScript_1@ == rendered(
                reply->Template_0@,
                script_args(s.request, e),
            )
        } else {
            fails(s, t, a, failure(e, s.phase, reply))
        },
        Phase::AwaitVersion => if reply is Version {
            &&& t.index == s.index
            &&& t.phase == Phase::AwaitOverride
            &&& t.error is None
            &&& is_override(a, user_agent_value(reply->Version_0@), s.request)
        } else {
            fails(s, t, a, failure(e, s.phase, reply))
        },
        _ => if reply is Applied {
            completes(s, t, a)
        } else {
            fails(s, t, a, failure(e, s.phase, reply))
        },
    }
}

/// One activation of one session, under way.
pub struct Activation {
    request: ActivationRequest,
    index: usize,
    phase: Phase,
    error: Option<ActivationError>,
}

impl View for Activation {
    type V = ActivationView;

    closed spec fn view(&self) -> ActivationView {
        ActivationView {
            request: self.request,
            index: self.index as int,
            phase: self.phase,
            error: self.error,
        }
    }
}

impl Activation {
    #[verifier::type_invariant]
    spec fn well_formed(&self) -> bool {
        self@.wf()
    }
}

/// The number of steps in the plan of a request.
pub fn plan_len(request: &ActivationRequest) -> (n: usize)
    ensures
        n == plan(*request).len(),
{
    if request.fix_hairline() {
        CATALOG_LEN
    } else {
        CATALOG_LEN - 1
    }
}

/// The argument literals of a script evasion, in the order its template
/// expects them.
pub fn script_arguments(request: &ActivationRequest, e: Evasion) -> (r: Vec<String>)
    ensures
        views(r@) == script_args(*request, e),
{
    match e {
        Evasion::ChromeRuntime => {
            let r = vec![json_bool(request.run_on_insecure_origins())];
            assert(views(r@) =~= script_args(*request, e));
            r
        },
        Evasion::NavigatorLanguages => {
            let languages = request.languages();
            let ghost tags = request.spec_languages();
            let mut r: Vec<String> = Vec::new();
            let mut i: usize = 0;
            while i < languages.len()
                invariant
                    i <= languages.len(),
                    views(languages@) == tags,
                    views(r@) =~= tags.take(i as int).map_values(|l: Seq<char>| json_quoted(l)),
                decreases languages.len() - i,
            {
                let ghost before = r@;
                let lit = json_string(languages[i].as_str());
                r.push(lit);
                assert(views(r@) =~= views(before).push(lit@));
                assert(tags.take(i + 1) =~= tags.take(i as int).push(tags[i as int]));
                i = i + 1;
            }
            assert(tags.take(languages.len() as int) =~= tags);
            r
        },
        Evasion::NavigatorVendor => {
            let vendor = request.vendor();
            let r = vec![json_string(vendor.as_str())];
            assert(views(r@) =~= script_args(*request, e));
            r
        },
        Evasion::WebglVendor => {
            let vendor = request.webgl_vendor();
            let renderer = request.renderer();
            let r = vec![json_string(vendor.as_str()), json_string(renderer.as_str())];
            assert(views(r@) =~= script_args(*request, e));
            r
        },
        _ => {
            let r: Vec<String> = Vec::new();
            assert(views(r@) =~= script_args(*request, e));
            r
        },
    }
}

/// The protocol override for a request, with the user agent made from `raw`.
pub fn user_agent_override(request: &ActivationRequest, raw: &str) -> (a: Action)
    ensures
        is_override(a, user_agent_value(raw@), *request),
{
    proof {
        reveal_strlit("HeadlessChrome");
        reveal_strlit("(");
        reveal_strlit(")");
    }
    let replaced = replace_text(raw, "HeadlessChrome", "Chrome");
    let trimmed_ua = trim_text(replaced.as_str());
    let mut user_agent = String::from_str("(");
    user_agent.append(trimmed_ua.as_str());
    user_agent.append(")");
    assert(user_agent@ =~= user_agent_value(raw@));
    let languages = request.languages();
    let accept_language = join_with_commas(&languages);
    Action::OverrideUserAgent { user_agent, accept_language, platform: request.platform() }
}

impl Activation {
    /// The state in which the step at position `index` of the plan begins,
    /// and the action that begins it.
    fn open_step(request: ActivationRequest, index: usize) -> (r: (Activation, Action))
        requires
            index < plan(request).len(),
        ensures
            r.0@.request == request,
            opens(r.0@, index as int, r.1),
    {
        let e = catalog_entry(index);
        assert(plan(request)[index as int] == e);
        if e.is_script() {
            (
                Activation { request, index, phase: Phase::AwaitTemplate, error: None },
                Action::LoadTemplate(e),
            )
        } else {
            match &request.user_agent {
                Some(raw) => {
                    let a = user_agent_override(&request, raw.as_str());
                    (Activation { request, index, phase: Phase::AwaitOverride, error: None }, a)
                },
                None => (
                    Activation { request, index, phase: Phase::AwaitVersion, error: None },
                    Action::QueryVersion,
                ),
            }
        }
    }

    /// The state in which the activation stopped at step `index` with the
    /// error, and the action that reports it.
    fn stop(request: ActivationRequest, index: usize, err: ActivationError) -> (r: (
        Activation,
        Action,
    ))
        requires
            index < plan(request).len(),
            err.spec_step() == plan(request)[index as int],
        ensures
            r.0@.request == request,
            r.0@.index == index,
            r.0@.phase == Phase::Failed,
            r.0@.error == Some(err),
            r.1 == Action::Failed(err),
    {
        let reported = err.duplicate();
        (
            Activation { request, index, phase: Phase::Failed, error: Some(err) },
            Action::Failed(reported),
        )
    }

    /// Starts an activation: the state at the first step and its action.
    pub fn begin(request: ActivationRequest) -> (r: (Activation, Action))
        ensures
            r.0@.wf(),
            r.0@.request == request,
            opens(r.0@, 0, r.1),
    {
        let r = Activation::open_step(request, 0);
        proof { use_type_invariant(&r.0); }
        r
    }

    /// Takes the reply to the previous action: the next state and action.
    pub fn advance(self, reply: Reply) -> (r: (Activation, Action))
        ensures
            r.0@.wf(),
            advances(self@, reply, r.0@, r.1),
    {
        let r = self.transition(reply);
        proof { use_type_invariant(&r.0); }
        r
    }

    fn transition(self, reply: Reply) -> (r: (Activation, Action))
        ensures
            advances(self@, reply, r.0@, r.1),
    {
        proof { use_type_invariant(&self); }
        let Activation { request, index, phase, error } = self;
        let e = catalog_entry(index);
        assert(plan(request)[index as int] == e);
        match phase {
            Phase::Finished => (Activation { request, index, phase, error }, Action::Finished),
            Phase::Failed => {
                let reported = match &error {
                    Some(err) => err.duplicate(),
                    None => ActivationError::UnexpectedReply(e),
                };
                (Activation { request, index, phase, error }, Action::Failed(reported))
            },
            Phase::AwaitTemplate => match reply {
                Reply::Template(template) => {
                    let args = script_arguments(&request, e);
                    let source = render_script(template.as_str(), &args);
                    (
                        Activation { request, index, phase: Phase::AwaitRegistration, error: None },
                        Action::RegisterScript(e, source),
                    )
                },
                Reply::TemplateUnavailable => Activation::stop(
                    request,
                    index,
                    ActivationError::TemplateLoad(e),
                ),
                _ => Activation::stop(request, index, ActivationError::UnexpectedReply(e)),
            },
            Phase::AwaitVersion => match reply {
                Reply::Version(raw) => {
                    let a = user_agent_override(&request, raw.as_str());
                    (Activation { request, index, phase: Phase::AwaitOverride, error: None }, a)
                },
                Reply::TransportFailed(message) => Activation::stop(
                    request,
                    index,
                    ActivationError::VersionQuery(message),
                ),
                _ => Activation::stop(request, index, ActivationError::UnexpectedReply(e)),
            },
            _ => match reply {
                Reply::Applied => {
                    if index + 1 < plan_len(&request) {
                        Activation::open_step(request, index + 1)
                    } else {
                        (
                            Activation { request, index, phase: Phase::Finished, error: None },
                            Action::Finished,
                        )
                    }
                },
                Reply::TransportFailed(message) => Activation::stop(
                    request,
                    index,
                    ActivationError::Transport(e, message),
                ),
                _ => Activation::stop(request, index, ActivationError::UnexpectedReply(e)),
            },
        }
    }
}

/// The evasion that a command action works on; none for `Finished` and
/// `Failed`.
pub open spec fn action_step(a: Action) -> Option<Evasion> {
    match a {
        Action::LoadTemplate(e) => Some(e),
        Action::RegisterScript(e, _) => Some(e),
        Action::QueryVersion => Some(Evasion::UserAgentOverride),
        Action::OverrideUserAgent { .. } => Some(Evasion::UserAgentOverride),
        _ => None,
    }
}

/// Without a user agent in the request, the override carries the one that
/// the browser reported, with "HeadlessChrome" replaced by "Chrome",
/// trimmed, and wrapped in one pair of parentheses; and the step begins by
/// querying it.
pub proof fn lemma_live_user_agent(s: ActivationView, raw: String, t: ActivationView, a: Action)
    requires
        s.wf(),
        s.request.user_agent is None,
        s.phase == Phase::AwaitVersion,
        advances(s, Reply::Version(raw), t, a),
    ensures
        a is OverrideUserAgent,
        a->user_agent@ == seq!['('] + trimmed(replace_all(raw@, "HeadlessChrome"@, "Chrome"@))
            + seq![')'],
{
}

/// The user-agent step opens with a query of the browser's version exactly
/// when the request holds no user agent.
pub proof fn lemma_user_agent_query(s: ActivationView, index: int, a: Action)
    requires
        0 <= index < plan(s.request).len(),
        plan(s.request)[index] == Evasion::UserAgentOverride,
        opens(s, index, a),
    ensures
        (a == Action::QueryVersion) <==> s.request.user_agent is None,
{
}

/// Without a language list in the request, the languages are
/// `["en-US", "en"]` and the accepted-language header is `"en-US,en"`.
pub proof fn lemma_default_languages(request: ActivationRequest)
    requires
        request.languages is None,
    ensures
        request.spec_languages() == seq!["en-US"@, "en"@],
        comma_joined(request.spec_languages()) == "en-US,en"@,
{
    reveal_strlit("en-US");
    reveal_strlit("en");
    reveal_strlit("en-US,en");
    let l = request.spec_languages();
    assert(l.drop_last() =~= seq!["en-US"@]);
    assert(comma_joined(l.drop_last()) == "en-US"@);
    assert(l.last() == "en"@);
    assert(comma_joined(l) == comma_joined(l.drop_last()) + seq![','] + l.last());
    assert(comma_joined(l) =~= "en-US,en"@);
}

/// Without a platform in the request, the platform is the literal `"None"`.
pub proof fn lemma_default_platform(request: ActivationRequest)
    requires
        request.platform is None,
    ensures
        request.spec_platform() == "None"@,
{
}

/// The hairline fix is among the steps unless the request explicitly
/// refuses it.
pub proof fn lemma_hairline_fix_applied(request: ActivationRequest)
    ensures
        plan(request).contains(Evasion::HairlineFix) <==> request.fix_hairline != Some(false),
{
    if request.fix_hairline == Some(false) {
        assert forall|i: int| 0 <= i < plan(request).len() implies plan(request)[i]
            != Evasion::HairlineFix by {
            assert(plan(request)[i] == catalog()[i]);
        }
    } else {
        assert(plan(request)[13] == Evasion::HairlineFix);
    }
}

/// The steps are the catalog in its order, whatever the request holds: all
/// fourteen, or the first thirteen where the hairline fix is refused.
pub proof fn lemma_plan_order(request: ActivationRequest)
    ensures
        plan(request) == catalog().take(plan(request).len() as int),
        plan(request).len() == if request.fix_hairline == Some(false) {
            13int
        } else {
            14int
        },
{
    assert(catalog().take(14) =~= catalog());
    assert(catalog().drop_last() =~= catalog().take(13));
}

/// Each reply moves the activation forward by at most one step of the plan,
/// and every command that it asks for works on the step now under way: the
/// commands come in the order of the plan.
pub proof fn lemma_steps_in_order(s: ActivationView, reply: Reply, t: ActivationView, a: Action)
    requires
        s.wf(),
        advances(s, reply, t, a),
    ensures
        t.index == s.index || t.index == s.index + 1,
        action_step(a) is Some ==> action_step(a)->0 == plan(s.request)[t.index],
{
}

/// Once a step fails, the error names that step, and no later reply leads
/// to another command: the activation stays stopped with the same error.
pub proof fn lemma_fail_fast(
    s: ActivationView,
    reply: Reply,
    t: ActivationView,
    a: Action,
    later: Reply,
    u: ActivationView,
    b: Action,
)
    requires
        s.wf(),
        advances(s, reply, t, a),
        a is Failed,
        advances(t, later, u, b),
    ensures
        a->Failed_0.spec_step() == plan(s.request)[s.index],
        t.index == s.index,
        u == t,
        b == a,
{
}

} // verus!
