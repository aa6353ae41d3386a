use stealth::activation::{Action, Activation, ActivationError, Reply};
use stealth::catalog::{catalog_entry, Evasion};
use stealth::request::ActivationRequest;

const TEMPLATE: &str = "function(...a){}";

/// Runs an activation in which every template loads as `TEMPLATE`, every
/// command succeeds and the browser reports `version`; returns the commands
/// issued and the final action.
fn run(request: ActivationRequest, version: &str) -> (Vec<Action>, Action) {
    let (mut state, mut action) = Activation::begin(request);
    let mut commands = Vec::new();
    for _ in 0..100 {
        let reply = match &action {
            Action::LoadTemplate(_) => Reply::Template(TEMPLATE.to_string()),
            Action::QueryVersion => Reply::Version(version.to_string()),
            Action::RegisterScript(_, _) | Action::OverrideUserAgent { .. } => Reply::Applied,
            Action::Finished | Action::Failed(_) => return (commands, action),
        };
        if !matches!(action, Action::LoadTemplate(_)) {
            commands.push(action);
        }
        let (next, next_action) = state.advance(reply);
        state = next;
        action = next_action;
    }
    panic!("activation did not end");
}

fn steps(commands: &[Action]) -> Vec<Evasion> {
    commands
        .iter()
        .filter_map(|c| match c {
            Action::RegisterScript(e, _) => Some(*e),
            Action::OverrideUserAgent { .. } => Some(Evasion::UserAgentOverride),
            _ => None,
        })
        .collect()
}

fn source_of(commands: &[Action], step: Evasion) -> String {
    for c in commands {
        if let Action::RegisterScript(e, source) = c {
            if *e == step {
                return source.clone();
            }
        }
    }
    panic!("no registration for {:?}", step);
}

fn full_catalog() -> Vec<Evasion> {
    (0..14).map(catalog_entry).collect()
}

#[test]
fn default_activation_overrides_user_agent_from_live_version() {
    let (commands, end) = run(ActivationRequest::new(), "HeadlessChrome/100.0");
    assert_eq!(end, Action::Finished);
    assert!(commands.contains(&Action::QueryVersion));
    let overrides: Vec<&Action> = commands
        .iter()
        .filter(|c| matches!(c, Action::OverrideUserAgent { .. }))
        .collect();
    assert_eq!(overrides.len(), 1);
    assert_eq!(
        *overrides[0],
        Action::OverrideUserAgent {
            user_agent: "(Chrome/100.0)".to_string(),
            accept_language: "en-US,en".to_string(),
            platform: "None".to_string(),
        }
    );
}

#[test]
fn vendor_override_renders_single_literal() {
    let mut request = ActivationRequest::new();
    request.vendor = Some("Acme".to_string());
    let (commands, end) = run(request, "HeadlessChrome/100.0");
    assert_eq!(end, Action::Finished);
    assert_eq!(
        source_of(&commands, Evasion::NavigatorVendor),
        format!("({})(\"Acme\")", TEMPLATE)
    );
    assert_eq!(
        source_of(&commands, Evasion::NavigatorLanguages),
        format!("({})(\"en-US\",\"en\")", TEMPLATE)
    );
    assert_eq!(
        source_of(&commands, Evasion::ChromeRuntime),
        format!("({})(false)", TEMPLATE)
    );
    assert_eq!(
        source_of(&commands, Evasion::WebglVendor),
        format!("({})(\"Intel Inc.\",\"Intel Iris OpenGL Engine\")", TEMPLATE)
    );
    assert_eq!(source_of(&commands, Evasion::Utils), format!("({})()", TEMPLATE));
    assert_eq!(source_of(&commands, Evasion::HairlineFix), format!("({})()", TEMPLATE));
}

#[test]
fn default_vendor_is_google() {
    let (commands, _) = run(ActivationRequest::new(), "Chrome/1");
    assert_eq!(
        source_of(&commands, Evasion::NavigatorVendor),
        format!("({})(\"Google Inc.\")", TEMPLATE)
    );
}

#[test]
fn steps_follow_catalog_order_with_defaults() {
    let (commands, _) = run(ActivationRequest::new(), "Chrome/1");
    assert_eq!(steps(&commands), full_catalog());
    assert_eq!(commands.len(), 15);
}

#[test]
fn steps_follow_catalog_order_with_every_field_given() {
    let request = ActivationRequest {
        user_agent: Some("Mozilla/5.0 HeadlessChrome/99".to_string()),
        languages: Some(vec!["de-DE".to_string(), "de".to_string(), "en".to_string()]),
        vendor: Some("V".to_string()),
        platform: Some("Linux".to_string()),
        webgl_vendor: Some("W".to_string()),
        renderer: Some("R".to_string()),
        fix_hairline: Some(true),
        run_on_insecure_origins: Some(true),
    };
    let (commands, end) = run(request, "unused");
    assert_eq!(end, Action::Finished);
    assert_eq!(steps(&commands), full_catalog());
    assert!(!commands.contains(&Action::QueryVersion));
    assert!(commands.contains(&Action::OverrideUserAgent {
        user_agent: "(Mozilla/5.0 Chrome/99)".to_string(),
        accept_language: "de-DE,de,en".to_string(),
        platform: "Linux".to_string(),
    }));
    assert_eq!(
        source_of(&commands, Evasion::NavigatorLanguages),
        format!("({})(\"de-DE\",\"de\",\"en\")", TEMPLATE)
    );
    assert_eq!(source_of(&commands, Evasion::ChromeRuntime), format!("({})(true)", TEMPLATE));
    assert_eq!(
        source_of(&commands, Evasion::WebglVendor),
        format!("({})(\"W\",\"R\")", TEMPLATE)
    );
}

#[test]
fn hairline_fix_skipped_only_when_refused() {
    let mut refused = ActivationRequest::new();
    refused.fix_hairline = Some(false);
    let (commands, end) = run(refused, "Chrome/1");
    assert_eq!(end, Action::Finished);
    let mut expected = full_catalog();
    expected.pop();
    assert_eq!(steps(&commands), expected);

    let mut asked = ActivationRequest::new();
    asked.fix_hairline = Some(true);
    let (commands, _) = run(asked, "Chrome/1");
    assert_eq!(steps(&commands).last(), Some(&Evasion::HairlineFix));

    let (commands, _) = run(ActivationRequest::new(), "Chrome/1");
    assert_eq!(steps(&commands).last(), Some(&Evasion::HairlineFix));
}

#[test]
fn live_user_agent_is_trimmed_and_wrapped() {
    let (commands, _) = run(ActivationRequest::new(), "  Mozilla HeadlessChrome/120 HeadlessChrome \n");
    assert!(commands.contains(&Action::OverrideUserAgent {
        user_agent: "(Mozilla Chrome/120 Chrome)".to_string(),
        accept_language: "en-US,en".to_string(),
        platform: "None".to_string(),
    }));
}

#[test]
fn vendor_text_is_escaped_as_json() {
    let mut request = ActivationRequest::new();
    request.vendor = Some("a\"b\\c".to_string());
    let (commands, _) = run(request, "Chrome/1");
    assert_eq!(
        source_of(&commands, Evasion::NavigatorVendor),
        format!("({})(\"a\\\"b\\\\c\")", TEMPLATE)
    );
}

/// Drives an activation until it has issued `k` commands successfully, then
/// answers the next one with `failure`.
fn fail_at(k: usize, failure: Reply) -> (Evasion, Action, Activation) {
    let (mut state, mut action) = Activation::begin(ActivationRequest::new());
    let mut done = 0;
    loop {
        let reply = match &action {
            Action::LoadTemplate(_) => Reply::Template(TEMPLATE.to_string()),
            Action::QueryVersion => Reply::Version("Chrome/1".to_string()),
            Action::RegisterScript(_, _) | Action::OverrideUserAgent { .. } => {
                if done == k {
                    break;
                }
                done += 1;
                Reply::Applied
            }
            other => panic!("unexpected end {:?}", other),
        };
        let (next, next_action) = state.advance(reply);
        state = next;
        action = next_action;
    }
    let step = match &action {
        Action::RegisterScript(e, _) => *e,
        _ => Evasion::UserAgentOverride,
    };
    let (state, action) = state.advance(failure);
    (step, action, state)
}

#[test]
fn transport_failure_stops_at_its_step() {
    for k in 0..14 {
        let (step, action, state) = fail_at(k, Reply::TransportFailed("gone".to_string()));
        assert_eq!(step, catalog_entry(k));
        assert_eq!(action, Action::Failed(ActivationError::Transport(step, "gone".to_string())));
        let (state, again) = state.advance(Reply::Applied);
        assert_eq!(again, action);
        let (_, again) = state.advance(Reply::Template(TEMPLATE.to_string()));
        assert_eq!(again, action);
    }
}

#[test]
fn failed_error_names_its_step() {
    let (_, action, _) = fail_at(4, Reply::TransportFailed("x".to_string()));
    match action {
        Action::Failed(err) => assert_eq!(err.step(), Evasion::MediaCodecs),
        other => panic!("expected a failure, got {:?}", other),
    }
}

#[test]
fn missing_template_fails_the_first_step() {
    let (state, action) = Activation::begin(ActivationRequest::new());
    assert_eq!(action, Action::LoadTemplate(Evasion::Utils));
    let (_, action) = state.advance(Reply::TemplateUnavailable);
    assert_eq!(action, Action::Failed(ActivationError::TemplateLoad(Evasion::Utils)));
}

#[test]
fn version_query_failure_is_reported() {
    let (mut state, mut action) = Activation::begin(ActivationRequest::new());
    while action != Action::QueryVersion {
        let reply = match &action {
            Action::LoadTemplate(_) => Reply::Template(TEMPLATE.to_string()),
            _ => Reply::Applied,
        };
        let (next, next_action) = state.advance(reply);
        state = next;
        action = next_action;
    }
    let (_, action) = state.advance(Reply::TransportFailed("no browser".to_string()));
    assert_eq!(
        action,
        Action::Failed(ActivationError::VersionQuery("no browser".to_string()))
    );
}

#[test]
fn reply_that_answers_nothing_asked_fails_the_step() {
    let (state, _) = Activation::begin(ActivationRequest::new());
    let (_, action) = state.advance(Reply::Applied);
    assert_eq!(action, Action::Failed(ActivationError::UnexpectedReply(Evasion::Utils)));
}

#[test]
fn finished_activation_stays_finished() {
    let mut request = ActivationRequest::new();
    request.user_agent = Some("UA".to_string());
    let (mut state, mut action) = Activation::begin(request);
    while action != Action::Finished {
        let reply = match &action {
            Action::LoadTemplate(_) => Reply::Template(TEMPLATE.to_string()),
            _ => Reply::Applied,
        };
        let (next, next_action) = state.advance(reply);
        state = next;
        action = next_action;
    }
    let (_, action) = state.advance(Reply::Applied);
    assert_eq!(action, Action::Finished);
}
