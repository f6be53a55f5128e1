use hackline_gateway::acme::{
    account_contact, challenge_answer, AccountAction, AccountEvent, AccountRun, AcmeAction, AcmeEvent, AcmeRun,
};
use hackline_gateway::config::TlsConfig;

fn cfg(staging: bool) -> TlsConfig {
    TlsConfig {
        acme_domain: Some("gw.example.com".into()),
        acme_email: Some("ops@example.com".into()),
        acme_staging: staging,
        acme_cache_dir: None,
        acme_renew_before_days: 30,
        acme_check_interval_secs: 3600,
        cert_path: None,
        key_path: None,
        self_signed: false,
    }
}

#[test]
fn acme_run_happy_path() {
    let (mut run, a) = AcmeRun::new(&cfg(true), "/c");
    match a {
        AcmeAction::LoadOrCreateAccount { path, directory_url, email } => {
            assert_eq!(path, "/c/account.json");
            assert_eq!(directory_url, "https://acme-staging-v02.api.letsencrypt.org/directory");
            assert_eq!(email, "ops@example.com");
        }
        _ => panic!("account first"),
    }
    match run.step(AcmeEvent::Done) {
        AcmeAction::NewOrder { domain } => assert_eq!(domain, "gw.example.com"),
        _ => panic!("order next"),
    }
    assert!(matches!(run.step(AcmeEvent::Done), AcmeAction::NextAuthorization));
    match run.step(AcmeEvent::Authorization(Some(("tok".into(), "tok.key".into())))) {
        AcmeAction::SetReady { token } => assert_eq!(token, "tok"),
        _ => panic!("ready next"),
    }
    assert!(matches!(run.step(AcmeEvent::Done), AcmeAction::NextAuthorization));
    match run.step(AcmeEvent::AuthorizationsDone) {
        AcmeAction::ServeChallenges { tokens } => assert_eq!(tokens, vec![("tok".to_string(), "tok.key".to_string())]),
        _ => panic!("serve next"),
    }
    assert!(matches!(run.step(AcmeEvent::Done), AcmeAction::PollReady));
    assert!(matches!(run.step(AcmeEvent::Done), AcmeAction::Finalize));
    assert!(matches!(run.step(AcmeEvent::KeyPem("KEY".into())), AcmeAction::PollCertificate));
    assert!(matches!(run.step(AcmeEvent::CertChain("CHAIN".into())), AcmeAction::StopChallengeServer));
    match run.step(AcmeEvent::Done) {
        AcmeAction::WriteCert { path, pem } => {
            assert_eq!(path, "/c/gw.example.com.cert.pem");
            assert_eq!(pem, "CHAIN");
        }
        _ => panic!("write cert next"),
    }
    match run.step(AcmeEvent::Done) {
        AcmeAction::WriteKey { path, pem } => {
            assert_eq!(path, "/c/gw.example.com.key.pem");
            assert_eq!(pem, "KEY");
        }
        _ => panic!("write key next"),
    }
    match run.step(AcmeEvent::Done) {
        AcmeAction::Finish(Ok((c, k))) => {
            assert_eq!(c, "CHAIN");
            assert_eq!(k, "KEY");
        }
        _ => panic!("done"),
    }
    assert!(!run.accepts(&AcmeEvent::Done));
}

fn failure(a: AcmeAction) -> String {
    match a {
        AcmeAction::Finish(Err(e)) => e.message(),
        _ => panic!("expected a failure"),
    }
}

#[test]
fn acme_failures_name_their_step() {
    let (mut run, a) = AcmeRun::new(&cfg(false), "/c");
    match a {
        AcmeAction::LoadOrCreateAccount { directory_url, .. } => {
            assert_eq!(directory_url, "https://acme-v02.api.letsencrypt.org/directory")
        }
        _ => panic!("account first"),
    }
    run.step(AcmeEvent::Done);
    assert_eq!(failure(run.step(AcmeEvent::Failed("boom".into()))), "config: ACME new_order: boom");

    let (mut run, _) = AcmeRun::new(&cfg(false), "/c");
    run.step(AcmeEvent::Done);
    run.step(AcmeEvent::Done);
    assert!(!run.accepts(&AcmeEvent::KeyPem("k".into())));
    assert_eq!(failure(run.step(AcmeEvent::Authorization(None))), "config: ACME: no HTTP-01 challenge offered");

    let (mut run, _) = AcmeRun::new(&cfg(false), "/c");
    assert_eq!(failure(run.step(AcmeEvent::Failed("create ACME account: x".into()))), "config: create ACME account: x");
}

#[test]
fn responder_answers_known_tokens() {
    let tokens = vec![("a".to_string(), "a.1".to_string()), ("b".to_string(), "b.1".to_string()), ("a".to_string(), "a.2".to_string())];
    assert_eq!(challenge_answer(&tokens, "a"), Some("a.2".to_string()));
    assert_eq!(challenge_answer(&tokens, "b"), Some("b.1".to_string()));
    assert_eq!(challenge_answer(&tokens, "c"), None);
}

#[test]
fn account_run_loads_or_creates() {
    assert_eq!(account_contact("ops@example.com"), "mailto:ops@example.com");
    let (mut run, a) = AccountRun::new("/c/account.json".into(), "https://dir".into(), "ops@example.com".into());
    assert!(matches!(a, AccountAction::Builder));
    match run.step(AccountEvent::Done) {
        AccountAction::CheckExists { path } => assert_eq!(path, "/c/account.json"),
        _ => panic!("check next"),
    }
    match run.step(AccountEvent::Exists(false)) {
        AccountAction::Create { contact, directory_url } => {
            assert_eq!(contact, "mailto:ops@example.com");
            assert_eq!(directory_url, "https://dir");
        }
        _ => panic!("create next"),
    }
    assert!(matches!(run.step(AccountEvent::Done), AccountAction::SerializeCredentials));
    assert!(matches!(run.step(AccountEvent::Done), AccountAction::WriteFile { .. }));
    assert!(matches!(run.step(AccountEvent::Done), AccountAction::Finish(Ok(()))));

    let (mut run, _) = AccountRun::new("/p".into(), "https://dir".into(), "e".into());
    run.step(AccountEvent::Done);
    assert!(matches!(run.step(AccountEvent::Exists(true)), AccountAction::ReadFile { .. }));
    assert!(matches!(run.step(AccountEvent::Done), AccountAction::ParseCredentials));
    match run.step(AccountEvent::Failed("eof".into())) {
        AccountAction::Finish(Err(e)) => assert_eq!(e.message(), "config: parse account: eof"),
        _ => panic!("expected a failure"),
    }
}
