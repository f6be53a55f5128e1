//! Obtaining a certificate from Let's Encrypt over ACME with the
//! HTTP-01 challenge. The run opens or creates the account, places an
//! order for the domain, readies the HTTP-01 challenge of every
//! authorization, answers the challenges on port 80, waits for the
//! order, finalizes it, fetches the certificate chain, stops the
//! responder and caches chain and key under the cache directory. Any
//! failure ends the run with a configuration error naming the step.
//!
//! The protocol and file work is done by the serving layer, which
//! performs each action `AcmeRun::step` hands out and reports the
//! outcome as the next event.

use vstd::prelude::*;

use crate::config::TlsConfig;
use crate::error::{GatewayError, GatewayErrorView};
use crate::text::push_str;
use crate::tls::{account_path, cert_paths, joined_path, spec_cert_paths};

verus! {

/// `instant_acme::LetsEncrypt::Staging.url()`, whose source gives the
/// staging directory URL.
#[verifier::external_body]
fn lets_encrypt_staging_url() -> (r: String)
    ensures
        r@ == "https://acme-staging-v02.api.letsencrypt.org/directory"@,
{
    instant_acme::LetsEncrypt::Staging.url().to_owned()
}

/// `instant_acme::LetsEncrypt::Production.url()`, whose source gives
/// the production directory URL.
#[verifier::external_body]
fn lets_encrypt_production_url() -> (r: String)
    ensures
        r@ == "https://acme-v02.api.letsencrypt.org/directory"@,
{
    instant_acme::LetsEncrypt::Production.url().to_owned()
}

/// The ACME directory used: Let's Encrypt staging or production.
pub open spec fn directory_url(staging: bool) -> Seq<char> {
    if staging {
        "https://acme-staging-v02.api.letsencrypt.org/directory"@
    } else {
        "https://acme-v02.api.letsencrypt.org/directory"@
    }
}

/// The contact registered with a new account.
pub fn account_contact(email: &str) -> (r: String)
    ensures
        r@ == "mailto:"@ + email@,
{
    let mut s = "mailto:".to_owned();
    push_str(&mut s, email);
    s
}

/// Where a run is.
#[derive(PartialEq, Eq, Structural)]
pub enum AcmePhase {
    Account,
    PlacingOrder,
    Authorizing,
    SettingReady,
    Serving,
    Polling,
    Finalizing,
    Fetching,
    Stopping,
    WritingCert,
    WritingKey,
    Finished,
}

/// What the serving layer reports after performing an action.
pub enum AcmeEvent {
    /// The action succeeded.
    Done,
    /// The action failed, with the error's text.
    Failed(String),
    /// The next authorization of the order, with its HTTP-01 challenge
    /// (token and key authorization) when it offers one.
    Authorization(Option<(String, String)>),
    /// The order has no further authorization.
    AuthorizationsDone,
    /// The order was finalized; the private key of the certificate.
    KeyPem(String),
    /// The certificate chain was issued.
    CertChain(String),
}

/// What the serving layer is asked to do next.
pub enum AcmeAction {
    /// Load the account cached at `path`, or create one at the
    /// directory with the contact `mailto:<email>` and cache it there.
    LoadOrCreateAccount { path: String, directory_url: String, email: String },
    /// Place an order for the DNS name `domain`.
    NewOrder { domain: String },
    /// Fetch the next authorization of the order.
    NextAuthorization,
    /// Declare the challenge with `token` ready.
    SetReady { token: String },
    /// Answer `/.well-known/acme-challenge/<token>` with the key
    /// authorization, on port 80.
    ServeChallenges { tokens: Vec<(String, String)> },
    PollReady,
    Finalize,
    PollCertificate,
    StopChallengeServer,
    WriteCert { path: String, pem: String },
    WriteKey { path: String, pem: String },
    /// The run is over: the certificate chain and key, or the error.
    Finish(Result<(String, String), GatewayError>),
}

/// One certificate request.
pub struct AcmeRun {
    domain: String,
    cert_file: String,
    key_file: String,
    challenges: Vec<(String, String)>,
    key_pem: String,
    cert_chain: String,
    phase: AcmePhase,
}

/// Token and key authorization pairs by their characters.
pub open spec fn pairs_view(v: Seq<(String, String)>) -> Seq<(Seq<char>, Seq<char>)> {
    v.map_values(|p: (String, String)| (p.0@, p.1@))
}

/// The message a failure reported in `phase` ends the run with; steps
/// whose errors the serving layer words itself keep that text.
pub open spec fn failure_message(phase: AcmePhase, m: Seq<char>) -> Seq<char> {
    match phase {
        AcmePhase::PlacingOrder => "ACME new_order: "@ + m,
        AcmePhase::Authorizing => "ACME authorization: "@ + m,
        AcmePhase::SettingReady => "ACME set_ready: "@ + m,
        AcmePhase::Polling => "ACME poll_ready: "@ + m,
        AcmePhase::Finalizing => "ACME finalize: "@ + m,
        AcmePhase::Fetching => "ACME certificate: "@ + m,
        _ => m,
    }
}

impl AcmeRun {
    /// The domain certified.
    pub closed spec fn domain(&self) -> Seq<char> {
        self.domain@
    }

    /// Where the chain is cached.
    pub closed spec fn cert_file(&self) -> Seq<char> {
        self.cert_file@
    }

    /// Where the key is cached.
    pub closed spec fn key_file(&self) -> Seq<char> {
        self.key_file@
    }

    /// The challenges readied so far, in order.
    pub closed spec fn challenges(&self) -> Seq<(Seq<char>, Seq<char>)> {
        pairs_view(self.challenges@)
    }

    /// The key obtained by finalizing (empty before).
    pub closed spec fn key_pem(&self) -> Seq<char> {
        self.key_pem@
    }

    /// The chain obtained (empty before).
    pub closed spec fn cert_chain(&self) -> Seq<char> {
        self.cert_chain@
    }

    /// Where the run is.
    pub closed spec fn phase(&self) -> AcmePhase {
        self.phase
    }

    /// The events the run can take in its current phase.
    pub open spec fn expects(&self, e: AcmeEvent) -> bool {
        match (self.phase(), e) {
            (AcmePhase::Finished, _) => false,
            (AcmePhase::Authorizing, AcmeEvent::Authorization(_)) => true,
            (AcmePhase::Authorizing, AcmeEvent::AuthorizationsDone) => true,
            (AcmePhase::Authorizing, AcmeEvent::Failed(_)) => true,
            (AcmePhase::Finalizing, AcmeEvent::KeyPem(_)) => true,
            (AcmePhase::Finalizing, AcmeEvent::Failed(_)) => true,
            (AcmePhase::Fetching, AcmeEvent::CertChain(_)) => true,
            (AcmePhase::Fetching, AcmeEvent::Failed(_)) => true,
            (AcmePhase::Stopping, AcmeEvent::Done) => true,
            (AcmePhase::Authorizing, _) | (AcmePhase::Finalizing, _) | (AcmePhase::Fetching, _) | (
                AcmePhase::Stopping,
                _,
            ) => false,
            (_, AcmeEvent::Done) => true,
            (_, AcmeEvent::Failed(_)) => true,
            _ => false,
        }
    }

    /// Whether the run can take `e` now.
    pub fn accepts(&self, e: &AcmeEvent) -> (r: bool)
        ensures
            r == self.expects(*e),
    {
        match (&self.phase, e) {
            (AcmePhase::Finished, _) => false,
            (AcmePhase::Authorizing, AcmeEvent::Authorization(_)) => true,
            (AcmePhase::Authorizing, AcmeEvent::AuthorizationsDone) => true,
            (AcmePhase::Authorizing, AcmeEvent::Failed(_)) => true,
            (AcmePhase::Finalizing, AcmeEvent::KeyPem(_)) => true,
            (AcmePhase::Finalizing, AcmeEvent::Failed(_)) => true,
            (AcmePhase::Fetching, AcmeEvent::CertChain(_)) => true,
            (AcmePhase::Fetching, AcmeEvent::Failed(_)) => true,
            (AcmePhase::Stopping, AcmeEvent::Done) => true,
            (AcmePhase::Authorizing, _) | (AcmePhase::Finalizing, _) | (AcmePhase::Fetching, _) | (
                AcmePhase::Stopping,
                _,
            ) => false,
            (_, AcmeEvent::Done) => true,
            (_, AcmeEvent::Failed(_)) => true,
            _ => false,
        }
    }

    /// A run for the domain of `cfg`, caching under `cache_dir`. It
    /// starts with the account, kept in `account.json` there, at the
    /// staging or production directory as configured.
    pub fn new(cfg: &TlsConfig, cache_dir: &str) -> (r: (AcmeRun, AcmeAction))
        requires
            cfg.acme_domain is Some,
            cfg.acme_email is Some,
        ensures
            r.0.domain() == cfg.acme_domain->0@,
            (r.0.cert_file(), r.0.key_file()) == spec_cert_paths(cache_dir@, cfg.acme_domain->0@),
            r.0.challenges().len() == 0,
            r.0.phase() == AcmePhase::Account,
            r.1 matches AcmeAction::LoadOrCreateAccount { path, directory_url: url, email } && path@ == joined_path(
                cache_dir@,
                "account.json"@,
            ) && url@ == directory_url(cfg.acme_staging) && email@ == cfg.acme_email->0@,
    {
        let domain = match &cfg.acme_domain {
            Some(d) => d.clone(),
            None => String::new(),
        };
        let email = match &cfg.acme_email {
            Some(e) => e.clone(),
            None => String::new(),
        };
        let (cert_file, key_file) = cert_paths(cache_dir, domain.as_str());
        let url = if cfg.acme_staging {
            lets_encrypt_staging_url()
        } else {
            lets_encrypt_production_url()
        };
        let run = AcmeRun {
            domain,
            cert_file,
            key_file,
            challenges: Vec::new(),
            key_pem: String::new(),
            cert_chain: String::new(),
            phase: AcmePhase::Account,
        };
        assert(pairs_view(run.challenges@) =~= Seq::empty());
        (run, AcmeAction::LoadOrCreateAccount { path: account_path(cache_dir), directory_url: url, email })
    }

    fn fail(&mut self, message: String) -> (a: AcmeAction)
        ensures
            final(self).phase() == AcmePhase::Finished,
            a matches AcmeAction::Finish(Err(e)) && e@ == GatewayErrorView::Config(message@),
            final(self).domain == old(self).domain,
            final(self).cert_file == old(self).cert_file,
            final(self).key_file == old(self).key_file,
    {
        self.phase = AcmePhase::Finished;
        AcmeAction::Finish(Err(GatewayError::Config(message)))
    }

    fn prefixed(prefix: &str, m: String) -> (r: String)
        ensures
            r@ == prefix@ + m@,
    {
        let mut s = prefix.to_owned();
        push_str(&mut s, m.as_str());
        s
    }

    /// Takes the outcome of the last action and hands out the next
    /// one. A failure ends the run with the message of its step; an
    /// authorization without an HTTP-01 challenge ends it too. The
    /// responder serves exactly the challenges readied, the chain is
    /// cached only after the responder stopped, and the run succeeds
    /// only after chain and key were both written.
    pub fn step(&mut self, event: AcmeEvent) -> (a: AcmeAction)
        requires
            old(self).expects(event),
        ensures
            final(self).domain() == old(self).domain(),
            final(self).cert_file() == old(self).cert_file(),
            final(self).key_file() == old(self).key_file(),
            event matches AcmeEvent::Failed(m) ==> final(self).phase() == AcmePhase::Finished && (
            a matches AcmeAction::Finish(Err(e)) && e@ == GatewayErrorView::Config(
                failure_message(old(self).phase(), m@),
            )),
            match (old(self).phase(), event) {
                (AcmePhase::Account, AcmeEvent::Done) => {
                    &&& final(self).phase() == AcmePhase::PlacingOrder
                    &&& (a matches AcmeAction::NewOrder { domain } && domain@ == old(self).domain())
                },
                (AcmePhase::PlacingOrder, AcmeEvent::Done) => {
                    &&& final(self).phase() == AcmePhase::Authorizing
                    &&& a is NextAuthorization
                    &&& final(self).challenges() == old(self).challenges()
                },
                (AcmePhase::Authorizing, AcmeEvent::Authorization(Some(ch))) => {
                    &&& final(self).phase() == AcmePhase::SettingReady
                    &&& (a matches AcmeAction::SetReady { token } && token@ == ch.0@)
                    &&& final(self).challenges() == old(self).challenges().push((ch.0@, ch.1@))
                },
                (AcmePhase::Authorizing, AcmeEvent::Authorization(None)) => {
                    &&& final(self).phase() == AcmePhase::Finished
                    &&& (a matches AcmeAction::Finish(Err(e)) && e@ == GatewayErrorView::Config(
                        "ACME: no HTTP-01 challenge offered"@,
                    ))
                },
                (AcmePhase::Authorizing, AcmeEvent::AuthorizationsDone) => {
                    &&& final(self).phase() == AcmePhase::Serving
                    &&& (a matches AcmeAction::ServeChallenges { tokens } && pairs_view(tokens@)
                        == old(self).challenges())
                },
                (AcmePhase::SettingReady, AcmeEvent::Done) => {
                    &&& final(self).phase() == AcmePhase::Authorizing
                    &&& a is NextAuthorization
                    &&& final(self).challenges() == old(self).challenges()
                },
                (AcmePhase::Serving, AcmeEvent::Done) => final(self).phase() == AcmePhase::Polling && a is PollReady,
                (AcmePhase::Polling, AcmeEvent::Done) => final(self).phase() == AcmePhase::Finalizing && a is Finalize,
                (AcmePhase::Finalizing, AcmeEvent::KeyPem(k)) => {
                    &&& final(self).phase() == AcmePhase::Fetching
                    &&& a is PollCertificate
                    &&& final(self).key_pem() == k@
                },
                (AcmePhase::Fetching, AcmeEvent::CertChain(c)) => {
                    &&& final(self).phase() == AcmePhase::Stopping
                    &&& a is StopChallengeServer
                    &&& final(self).cert_chain() == c@
                    &&& final(self).key_pem() == old(self).key_pem()
                },
                (AcmePhase::Stopping, AcmeEvent::Done) => {
                    &&& final(self).phase() == AcmePhase::WritingCert
                    &&& (a matches AcmeAction::WriteCert { path, pem } && path@ == old(self).cert_file() && pem@ == old(
                        self,
                    ).cert_chain())
                    &&& final(self).cert_chain() == old(self).cert_chain()
                    &&& final(self).key_pem() == old(self).key_pem()
                },
                (AcmePhase::WritingCert, AcmeEvent::Done) => {
                    &&& final(self).phase() == AcmePhase::WritingKey
                    &&& (a matches AcmeAction::WriteKey { path, pem } && path@ == old(self).key_file() && pem@ == old(
                        self,
                    ).key_pem())
                    &&& final(self).cert_chain() == old(self).cert_chain()
                    &&& final(self).key_pem() == old(self).key_pem()
                },
                (AcmePhase::WritingKey, AcmeEvent::Done) => {
                    &&& final(self).phase() == AcmePhase::Finished
                    &&& (a matches AcmeAction::Finish(Ok(pair)) && pair.0@ == old(self).cert_chain() && pair.1@
                        == old(self).key_pem())
                },
                _ => true,
            },
    {
        let phase = &self.phase;
        match event {
            AcmeEvent::Failed(m) => {
                let msg = match phase {
                    AcmePhase::PlacingOrder => Self::prefixed("ACME new_order: ", m),
                    AcmePhase::Authorizing => Self::prefixed("ACME authorization: ", m),
                    AcmePhase::SettingReady => Self::prefixed("ACME set_ready: ", m),
                    AcmePhase::Polling => Self::prefixed("ACME poll_ready: ", m),
                    AcmePhase::Finalizing => Self::prefixed("ACME finalize: ", m),
                    AcmePhase::Fetching => Self::prefixed("ACME certificate: ", m),
                    _ => m,
                };
                self.fail(msg)
            },
            AcmeEvent::Authorization(None) => self.fail("ACME: no HTTP-01 challenge offered".to_owned()),
            AcmeEvent::Authorization(Some((token, key_auth))) => {
                let t = token.clone();
                self.challenges.push((token, key_auth));
                self.phase = AcmePhase::SettingReady;
                proof {
                    assert(pairs_view(self.challenges@) =~= pairs_view(old(self).challenges@).push(
                        (t@, key_auth@),
                    ));
                }
                AcmeAction::SetReady { token: t }
            },
            AcmeEvent::AuthorizationsDone => {
                let mut tokens: Vec<(String, String)> = Vec::new();
                std::mem::swap(&mut tokens, &mut self.challenges);
                self.phase = AcmePhase::Serving;
                AcmeAction::ServeChallenges { tokens }
            },
            AcmeEvent::KeyPem(k) => {
                self.key_pem = k;
                self.phase = AcmePhase::Fetching;
                AcmeAction::PollCertificate
            },
            AcmeEvent::CertChain(c) => {
                self.cert_chain = c;
                self.phase = AcmePhase::Stopping;
                AcmeAction::StopChallengeServer
            },
            AcmeEvent::Done => match phase {
                AcmePhase::Account => {
                    self.phase = AcmePhase::PlacingOrder;
                    AcmeAction::NewOrder { domain: self.domain.clone() }
                },
                AcmePhase::PlacingOrder => {
                    self.phase = AcmePhase::Authorizing;
                    AcmeAction::NextAuthorization
                },
                AcmePhase::SettingReady => {
                    self.phase = AcmePhase::Authorizing;
                    AcmeAction::NextAuthorization
                },
                AcmePhase::Serving => {
                    self.phase = AcmePhase::Polling;
                    AcmeAction::PollReady
                },
                AcmePhase::Polling => {
                    self.phase = AcmePhase::Finalizing;
                    AcmeAction::Finalize
                },
                AcmePhase::Stopping => {
                    self.phase = AcmePhase::WritingCert;
                    AcmeAction::WriteCert { path: self.cert_file.clone(), pem: self.cert_chain.clone() }
                },
                AcmePhase::WritingCert => {
                    self.phase = AcmePhase::WritingKey;
                    AcmeAction::WriteKey { path: self.key_file.clone(), pem: self.key_pem.clone() }
                },
                _ => {
                    self.phase = AcmePhase::Finished;
                    AcmeAction::Finish(Ok((self.cert_chain.clone(), self.key_pem.clone())))
                },
            },
        }
    }
}

/// Where opening the ACME account is.
#[derive(PartialEq, Eq, Structural)]
pub enum AccountPhase {
    Building,
    Checking,
    Reading,
    Parsing,
    Loading,
    Creating,
    Serializing,
    Writing,
    Finished,
}

/// What the serving layer reports after performing an account action.
pub enum AccountEvent {
    /// The action succeeded.
    Done,
    /// The action failed, with the error's text.
    Failed(String),
    /// Whether the account file exists.
    Exists(bool),
}

/// What the serving layer is asked to do next for the account.
pub enum AccountAction {
    /// Prepare an account builder.
    Builder,
    /// Check whether the account file exists.
    CheckExists { path: String },
    /// Read the account file.
    ReadFile { path: String },
    /// Parse the credentials read.
    ParseCredentials,
    /// Open the account from the credentials.
    LoadFromCredentials,
    /// Create an account at `directory_url` with the contact given,
    /// agreeing to the terms of service.
    Create { contact: String, directory_url: String },
    /// Serialise the new account's credentials as pretty JSON.
    SerializeCredentials,
    /// Write the credentials to the account file.
    WriteFile { path: String },
    /// The account is open, or the error.
    Finish(Result<(), GatewayError>),
}

/// Opening the ACME account: the cached credentials when the account
/// file exists, else a new account whose credentials are cached.
pub struct AccountRun {
    path: String,
    directory_url: String,
    email: String,
    phase: AccountPhase,
}

/// The message an account failure reported in `phase` ends with; file
/// errors are worded by the serving layer.
pub open spec fn account_failure_message(phase: AccountPhase, m: Seq<char>) -> Seq<char> {
    match phase {
        AccountPhase::Building => "ACME account builder: "@ + m,
        AccountPhase::Parsing => "parse account: "@ + m,
        AccountPhase::Loading => "load ACME account: "@ + m,
        AccountPhase::Creating => "create ACME account: "@ + m,
        AccountPhase::Serializing => "serialize account: "@ + m,
        _ => m,
    }
}

impl AccountRun {
    /// Where the run is.
    pub closed spec fn phase(&self) -> AccountPhase {
        self.phase
    }

    /// The account file.
    pub closed spec fn path(&self) -> Seq<char> {
        self.path@
    }

    /// The ACME directory.
    pub closed spec fn directory(&self) -> Seq<char> {
        self.directory_url@
    }

    /// The contact address.
    pub closed spec fn email(&self) -> Seq<char> {
        self.email@
    }

    /// The events the run can take now.
    pub open spec fn expects(&self, e: AccountEvent) -> bool {
        match (self.phase(), e) {
            (AccountPhase::Finished, _) => false,
            (AccountPhase::Checking, AccountEvent::Exists(_)) => true,
            (AccountPhase::Checking, _) => false,
            (_, AccountEvent::Exists(_)) => false,
            _ => true,
        }
    }

    /// Whether the run can take `e` now.
    pub fn accepts(&self, e: &AccountEvent) -> (r: bool)
        ensures
            r == self.expects(*e),
    {
        match (&self.phase, e) {
            (AccountPhase::Finished, _) => false,
            (AccountPhase::Checking, AccountEvent::Exists(_)) => true,
            (AccountPhase::Checking, _) => false,
            (_, AccountEvent::Exists(_)) => false,
            _ => true,
        }
    }

    /// A run for the account file `path` at `directory_url`, for the
    /// contact `email`; it starts by preparing a builder.
    pub fn new(path: String, directory_url: String, email: String) -> (r: (AccountRun, AccountAction))
        ensures
            r.0.phase() == AccountPhase::Building,
            r.0.path() == path@,
            r.0.directory() == directory_url@,
            r.0.email() == email@,
            r.1 is Builder,
    {
        (AccountRun { path, directory_url, email, phase: AccountPhase::Building }, AccountAction::Builder)
    }

    /// Takes the outcome of the last action and hands out the next one.
    /// An existing file is read, parsed and opened; otherwise an account
    /// is created with the contact `mailto:<email>` and its credentials
    /// written to the file. A failure ends the run with the message of
    /// its step.
    pub fn step(&mut self, event: AccountEvent) -> (a: AccountAction)
        requires
            old(self).expects(event),
        ensures
            final(self).path() == old(self).path(),
            final(self).directory() == old(self).directory(),
            final(self).email() == old(self).email(),
            event matches AccountEvent::Failed(m) ==> final(self).phase() == AccountPhase::Finished && (
            a matches AccountAction::Finish(Err(e)) && e@ == GatewayErrorView::Config(
                account_failure_message(old(self).phase(), m@),
            )),
            match (old(self).phase(), event) {
                (AccountPhase::Building, AccountEvent::Done) => final(self).phase() == AccountPhase::Checking && (
                a matches AccountAction::CheckExists { path } && path@ == old(self).path()),
                (AccountPhase::Checking, AccountEvent::Exists(true)) => final(self).phase() == AccountPhase::Reading
                    && (a matches AccountAction::ReadFile { path } && path@ == old(self).path()),
                (AccountPhase::Checking, AccountEvent::Exists(false)) => final(self).phase()
                    == AccountPhase::Creating && (a matches AccountAction::Create { contact, directory_url } && contact@
                    == "mailto:"@ + old(self).email() && directory_url@ == old(self).directory()),
                (AccountPhase::Reading, AccountEvent::Done) => final(self).phase() == AccountPhase::Parsing
                    && a is ParseCredentials,
                (AccountPhase::Parsing, AccountEvent::Done) => final(self).phase() == AccountPhase::Loading
                    && a is LoadFromCredentials,
                (AccountPhase::Creating, AccountEvent::Done) => final(self).phase() == AccountPhase::Serializing
                    && a is SerializeCredentials,
                (AccountPhase::Serializing, AccountEvent::Done) => final(self).phase() == AccountPhase::Writing && (
                a matches AccountAction::WriteFile { path } && path@ == old(self).path()),
                (AccountPhase::Loading, AccountEvent::Done) => final(self).phase() == AccountPhase::Finished && (
                a matches AccountAction::Finish(res) && res is Ok),
                (AccountPhase::Writing, AccountEvent::Done) => final(self).phase() == AccountPhase::Finished && (
                a matches AccountAction::Finish(res) && res is Ok),
                _ => true,
            },
    {
        match event {
            AccountEvent::Failed(m) => {
                let msg = match &self.phase {
                    AccountPhase::Building => AcmeRun::prefixed("ACME account builder: ", m),
                    AccountPhase::Parsing => AcmeRun::prefixed("parse account: ", m),
                    AccountPhase::Loading => AcmeRun::prefixed("load ACME account: ", m),
                    AccountPhase::Creating => AcmeRun::prefixed("create ACME account: ", m),
                    AccountPhase::Serializing => AcmeRun::prefixed("serialize account: ", m),
                    _ => m,
                };
                self.phase = AccountPhase::Finished;
                AccountAction::Finish(Err(GatewayError::Config(msg)))
            },
            AccountEvent::Exists(found) => {
                if found {
                    self.phase = AccountPhase::Reading;
                    AccountAction::ReadFile { path: self.path.clone() }
                } else {
                    self.phase = AccountPhase::Creating;
                    AccountAction::Create {
                        contact: account_contact(self.email.as_str()),
                        directory_url: self.directory_url.clone(),
                    }
                }
            },
            AccountEvent::Done => match &self.phase {
                AccountPhase::Building => {
                    self.phase = AccountPhase::Checking;
                    AccountAction::CheckExists { path: self.path.clone() }
                },
                AccountPhase::Reading => {
                    self.phase = AccountPhase::Parsing;
                    AccountAction::ParseCredentials
                },
                AccountPhase::Parsing => {
                    self.phase = AccountPhase::Loading;
                    AccountAction::LoadFromCredentials
                },
                AccountPhase::Creating => {
                    self.phase = AccountPhase::Serializing;
                    AccountAction::SerializeCredentials
                },
                AccountPhase::Serializing => {
                    self.phase = AccountPhase::Writing;
                    AccountAction::WriteFile { path: self.path.clone() }
                },
                _ => {
                    self.phase = AccountPhase::Finished;
                    AccountAction::Finish(Ok(()))
                },
            },
        }
    }
}

/// The key authorization served for `token`: that of the last challenge
/// readied with this token, as a map filled in order keeps it.
pub open spec fn answer_for(pairs: Seq<(Seq<char>, Seq<char>)>, token: Seq<char>) -> Option<Seq<char>>
    decreases pairs.len(),
{
    if pairs.len() == 0 {
        None
    } else if pairs.last().0 == token {
        Some(pairs.last().1)
    } else {
        answer_for(pairs.drop_last(), token)
    }
}

/// The responder's answer to `/.well-known/acme-challenge/<token>`:
/// the key authorization when the token is one of the challenges, none
/// (not found) otherwise.
pub fn challenge_answer(tokens: &Vec<(String, String)>, token: &str) -> (r: Option<String>)
    ensures
        crate::text::opt_chars(r) == answer_for(pairs_view(tokens@), token@),
{
    let ghost pv = pairs_view(tokens@);
    let mut i: usize = tokens.len();
    assert(pv.subrange(0, i as int) =~= pv);
    while i > 0
        invariant
            pv == pairs_view(tokens@),
            i <= tokens@.len(),
            answer_for(pv.subrange(0, i as int), token@) == answer_for(pv, token@),
        decreases i,
    {
        let ghost prefix = pv.subrange(0, i as int);
        assert(prefix.last() == pv[i - 1]);
        assert(prefix.drop_last() =~= pv.subrange(0, i - 1));
        if crate::text::str_eq(tokens[i - 1].0.as_str(), token) {
            return Some(tokens[i - 1].1.clone());
        }
        i = i - 1;
    }
    None
}

} // verus!
