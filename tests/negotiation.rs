use cloudflare_bypasser::negotiation::{
    Action, BypassError, Event, FetchedPage, Negotiation, Phase, ANSWER_FIELD,
};
use cloudflare_bypasser::sandbox::{build_program, parse_js};
use cloudflare_bypasser::target::submission_url;
use cloudflare_bypasser::{Bypasser, DEFAULT_USER_AGENT};

const PUZZLE: &str = "var s,t,o,p,b,r,e,a,k,i,n,g,f, abc={\"x\":+((!+[]+!![]+[]))};\n        g = String.fromCharCode;\n        t = document.createElement('div');\n        t = t.firstChild.href;\n        a = document.getElementById('jschl-answer');\n        a.value = (+abc.x).toFixed(10) + t.length;";

fn page_head() -> String {
    format!(
        "<!DOCTYPE HTML>\n<html lang=\"en-US\">\n<head>\n<script type=\"text/javascript\">\n  (function(){{\n    b(function(){{\n      setTimeout(function(){{\n        {}\n        f.action += location.hash;\n        f.submit();\n      }}, 4000);\n    }}, false);\n  }})();\n</script>\n</head>\n",
        PUZZLE
    )
}

const PAGE_BODY: &str = "<body>\n<form id=\"challenge-form\" action=\"/cdn-cgi/l/chk_jschl\" method=\"get\">\n    <input type=\"hidden\" name=\"r\" value=\"abc123\"/>\n    <input type=\"hidden\" name=\"jschl_vc\" value=\"vc456\"/>\n    <input type=\"hidden\" name=\"pass\" value=\"1600000000.123-xyz\"/>\n    <input type=\"hidden\" id=\"jschl-answer\" name=\"jschl_answer\"/>\n</form>\n<div style=\"display:none;visibility:hidden;\" id=\"cf-dn-abc\">+((!+[]+!![]))</div>\n</body></html>\n";

fn challenge_page() -> String {
    format!("{}{}", page_head(), PAGE_BODY)
}

fn fetched(html: String) -> Event {
    Event::Fetched(FetchedPage {
        html,
        effective_url: "https://example.com/".to_string(),
        cookie: Some(b"__cfduid=d1".to_vec()),
    })
}

fn error_of(action: Action) -> BypassError {
    match action {
        Action::Done(Err(e)) => e,
        _ => panic!("expected a failure"),
    }
}

/// Drives a negotiation up to its first submission.
fn ready_to_submit(config: &mut Bypasser) -> Negotiation {
    let (mut n, first) = Negotiation::start(config, "https://example.com/protected");
    assert!(matches!(first, Action::Fetch));
    assert!(matches!(n.step(fetched(challenge_page())), Action::Evaluate(_)));
    assert!(matches!(n.step(Event::Evaluated(Some("42".to_string()))), Action::Sleep(_)));
    assert!(matches!(n.step(Event::Waited), Action::Submit));
    n
}

/// The form fields that a negotiation prepares from a page with `body`.
fn params_of(body: &str) -> Vec<(String, String)> {
    let mut config = Bypasser::default();
    let (mut n, _) = Negotiation::start(&mut config, "https://example.com/");
    let html = format!("{}{}", page_head(), body);
    assert!(matches!(n.step(fetched(html)), Action::Evaluate(_)));
    n.submission().params.clone()
}

#[test]
fn hidden_fields_in_document_order() {
    let fields = params_of(PAGE_BODY);
    assert_eq!(
        fields,
        vec![
            ("r".to_string(), "abc123".to_string()),
            ("jschl_vc".to_string(), "vc456".to_string()),
            ("pass".to_string(), "1600000000.123-xyz".to_string()),
        ]
    );
    assert_eq!(params_of(PAGE_BODY), fields);
}

#[test]
fn hidden_fields_tolerate_attributes_between_name_and_value() {
    let body = "<form id=\"challenge-form\" action=\"/x\"><input name=\"pass\" type=\"hidden\" value=\"p1\"/><input name=\"other\" value=\"x\"/>";
    assert_eq!(params_of(body), vec![("pass".to_string(), "p1".to_string())]);
}

#[test]
fn hidden_fields_absent_give_empty_list() {
    assert!(params_of("<form id=\"challenge-form\" action=\"/x\">").is_empty());
}

#[test]
fn markup_lookups_on_fixture() {
    let mut config = Bypasser::default();
    let (mut n, _) = Negotiation::start(&mut config, "http://example.com/");
    match n.step(fetched(challenge_page())) {
        Action::Evaluate(program) => {
            assert!(program.contains(PUZZLE));
            assert!(program.contains("\"innerHTML\": \"+((!+[]+!![]))\""));
        }
        _ => panic!("expected an evaluation"),
    }
    assert_eq!(n.submission().url, "http://example.com/cdn-cgi/l/chk_jschl");
}

#[test]
fn program_links_domain_root() {
    let program = build_program("a.value = 1;", "example.com", "lbl");
    assert!(program.contains("href: \"http://example.com/\""));
    assert!(program.contains("{\"innerHTML\": \"lbl\"}"));
    assert!(program.ends_with("a.value = 1;; process.stdout.write(a.value);\n"));
}

#[test]
fn page_program_embeds_script_verbatim() {
    let program = parse_js(&challenge_page(), "example.com").unwrap();
    assert!(program.contains("http://example.com/"));
    assert!(program.contains(PUZZLE));
    assert!(program.contains("\"innerHTML\": \"+((!+[]+!![]))\""));
    assert_eq!(parse_js(PAGE_BODY, "example.com"), None);
}

#[test]
fn page_program_without_label_uses_empty_text() {
    let program = parse_js(&page_head(), "example.com").unwrap();
    assert!(program.contains("{\"innerHTML\": \"\"}"));
}

#[test]
fn submission_url_joins_scheme_domain_and_path() {
    let (url, domain) = submission_url("https://example.com/some/page?q=1", "/cdn-cgi/l/chk_jschl").unwrap();
    assert_eq!(url, "https://example.com/cdn-cgi/l/chk_jschl");
    assert_eq!(domain, "example.com");
    assert_eq!(submission_url("not a url", "/x"), None);
    assert_eq!(submission_url("http://127.0.0.1/", "/x"), None);
}

#[test]
fn end_to_end_answer_and_credential() {
    let mut config = Bypasser::default().user_agent("TestAgent/1.0");
    let mut n = ready_to_submit(&mut config);
    let s = n.submission();
    assert_eq!(s.url, "https://example.com/cdn-cgi/l/chk_jschl");
    assert_eq!(s.cookie, b"__cfduid=d1".to_vec());
    assert_eq!(s.referer, "https://example.com/");
    assert_eq!(s.params.len(), 4);
    assert_eq!(s.params[3], (ANSWER_FIELD.to_string(), "42".to_string()));
    assert_eq!(s.params[3].0, "jschl_answer");
    match n.step(Event::Accepted(b"cf_clearance=abc".to_vec())) {
        Action::Done(Ok(c)) => {
            assert_eq!(c.cookie, b"cf_clearance=abc".to_vec());
            assert_eq!(c.user_agent, "TestAgent/1.0");
        }
        _ => panic!("expected a credential"),
    }
    assert_eq!(n.phase(), Phase::Finished);
}

#[test]
fn evaluator_output_submitted_unchanged() {
    let mut config = Bypasser::default();
    let (mut n, _) = Negotiation::start(&mut config, "https://example.com/");
    match n.step(fetched(challenge_page())) {
        Action::Evaluate(program) => assert!(program.contains("http://example.com/")),
        _ => panic!("expected an evaluation"),
    }
    assert!(matches!(n.step(Event::Evaluated(Some(" 7.5 ".to_string()))), Action::Sleep(3)));
    let last = n.submission().params.last().unwrap().clone();
    assert_eq!(last, ("jschl_answer".to_string(), " 7.5 ".to_string()));
}

#[test]
fn submit_succeeds_on_third_attempt() {
    let mut config = Bypasser::default().retry(3);
    let mut n = ready_to_submit(&mut config);
    assert!(matches!(n.step(Event::SubmitFailed), Action::Submit));
    assert!(matches!(n.step(Event::SubmitFailed), Action::Submit));
    assert_eq!(n.attempts(), 2);
    assert!(matches!(n.step(Event::Accepted(b"cf_clearance=abc".to_vec())), Action::Done(Ok(_))));
}

#[test]
fn submit_gives_up_after_exactly_limit_attempts() {
    let mut config = Bypasser::default().retry(5);
    let mut n = ready_to_submit(&mut config);
    for _ in 0..4 {
        assert!(matches!(n.step(Event::SubmitFailed), Action::Submit));
    }
    assert_eq!(error_of(n.step(Event::SubmitFailed)), BypassError::MaxRetriesExceeded);
    assert_eq!(n.attempts(), 5);
    assert!(!n.expects(&Event::SubmitFailed));
}

#[test]
fn submit_limit_zero_or_one_tries_once() {
    for retry in [0u32, 1] {
        let mut config = Bypasser::default().retry(retry);
        let mut n = ready_to_submit(&mut config);
        assert_eq!(error_of(n.step(Event::SubmitFailed)), BypassError::MaxRetriesExceeded);
        assert_eq!(n.attempts(), 1);
    }
}

#[test]
fn failed_fetch_is_repeated() {
    let mut config = Bypasser::default();
    let (mut n, _) = Negotiation::start(&mut config, "https://example.com/");
    for _ in 0..3 {
        assert!(matches!(n.step(Event::FetchFailed), Action::Fetch));
        assert_eq!(n.phase(), Phase::Fetching);
    }
    assert!(n.expects(&Event::FetchFailed));
    assert!(!n.expects(&Event::Waited));
}

#[test]
fn missing_puzzle_script_is_malformed() {
    let mut config = Bypasser::default();
    let (mut n, _) = Negotiation::start(&mut config, "https://example.com/");
    let html = format!("<html>{}", PAGE_BODY);
    assert_eq!(error_of(n.step(fetched(html))), BypassError::MalformedChallengePage);
    assert_eq!(n.phase(), Phase::Finished);
}

#[test]
fn missing_form_action_is_malformed() {
    let mut config = Bypasser::default();
    let (mut n, _) = Negotiation::start(&mut config, "https://example.com/");
    let html = challenge_page().replace("challenge-form", "other-form");
    assert_eq!(error_of(n.step(fetched(html))), BypassError::MalformedChallengePage);
}

#[test]
fn missing_session_cookie_is_malformed() {
    let mut config = Bypasser::default();
    let (mut n, _) = Negotiation::start(&mut config, "https://example.com/");
    let event = Event::Fetched(FetchedPage {
        html: challenge_page(),
        effective_url: "https://example.com/".to_string(),
        cookie: None,
    });
    assert_eq!(error_of(n.step(event)), BypassError::MalformedChallengePage);
}

#[test]
fn target_without_domain_is_rejected() {
    let mut config = Bypasser::default();
    let (mut n, _) = Negotiation::start(&mut config, "http://127.0.0.1:8080/");
    assert_eq!(error_of(n.step(fetched(challenge_page()))), BypassError::InvalidTargetUrl);
}

#[test]
fn evaluation_failure_ends_negotiation() {
    let mut config = Bypasser::default();
    let (mut n, _) = Negotiation::start(&mut config, "https://example.com/");
    assert!(matches!(n.step(fetched(challenge_page())), Action::Evaluate(_)));
    assert_eq!(error_of(n.step(Event::Evaluated(None))), BypassError::EvaluationFailed);
}

#[test]
fn default_settings_and_user_agent() {
    let mut config = Bypasser::default();
    assert_eq!(config.wait_secs(), 3);
    assert_eq!(config.retry_times(), 1);
    assert_eq!(config.proxy_address(), None);
    assert_eq!(config.get_user_agent(), DEFAULT_USER_AGENT);
}

#[test]
fn builders_set_each_option() {
    let mut config = Bypasser::default()
        .wait(5)
        .retry(30)
        .proxy("http://127.0.0.1:1087")
        .user_agent("Fixed/2.0")
        .random_user_agent(true);
    assert_eq!(config.wait_secs(), 5);
    assert_eq!(config.retry_times(), 30);
    assert_eq!(config.proxy_address(), Some("http://127.0.0.1:1087"));
    assert_eq!(config.get_user_agent(), "Fixed/2.0");
    let (n, _) = Negotiation::start(&mut config, "https://example.com/");
    assert_eq!(n.user_agent(), "Fixed/2.0");
    assert_eq!(n.target(), "https://example.com/");
}

#[test]
fn random_user_agent_is_drawn_and_kept() {
    let mut seen = Vec::new();
    for _ in 0..20 {
        let mut config = Bypasser::default().random_user_agent(true);
        let first = config.get_user_agent();
        assert!(!first.is_empty());
        assert!(first.contains('/'));
        assert_eq!(config.get_user_agent(), first);
        seen.push(first);
    }
    assert!(seen.iter().any(|ua| ua != &seen[0]));
}
