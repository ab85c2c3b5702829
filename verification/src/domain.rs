//! Changing how the console of an existing installation is reached.

use crate::args::DomainArgs;
use crate::envfile;
use crate::envfile::EnvFile;
use crate::install;
use crate::install::{AccessMode, InstallPlan, MintPlan, LOOPBACK};
use crate::ops;
use crate::questions::Answer;
use crate::text;
use vstd::prelude::*;

verus! {

/// How the console, and with it a bundled mint, will be reached.
pub struct DomainChange {
    pub access: AccessMode,
    pub console_domain: String,
    pub mint_domain: String,
    pub acme_email: String,
}

/// That a change has these parts.
pub open spec fn changes(
    change: DomainChange,
    access: AccessMode,
    console_domain: Seq<char>,
    mint_domain: Seq<char>,
    acme_email: Seq<char>,
) -> bool {
    &&& change.access == access
    &&& change.console_domain@ == console_domain
    &&& change.mint_domain@ == mint_domain
    &&& change.acme_email@ == acme_email
}

// ---------------------------------------------------------------------------
// what the flags ask for
// ---------------------------------------------------------------------------
pub const PROXY_NEEDS_DOMAIN: &'static str = "--behind-proxy needs --console-domain";

pub const NOTHING_ASKED: &'static str = "pass --console-domain <d>, --plain-http, or --behind-proxy (with --console-domain)";

pub const MINT_NEEDS_DOMAIN: &'static str = "this install bundles a mint — pass --mint-domain <hostname> as well";

pub open spec fn bad_console_domain(domain: Seq<char>) -> Seq<char> {
    "--console-domain "@ + domain + " is not a valid hostname"@
}

/// The access mode that the flags ask for.
pub open spec fn access_of(args: DomainArgs) -> AccessMode {
    if args.behind_proxy {
        AccessMode::BehindProxy
    } else if args.plain_http || text::or_empty(args.console_domain).len() == 0 {
        AccessMode::PlainHttp
    } else {
        AccessMode::DomainTls
    }
}

/// The mint's hostname: the one that was asked for, else the one it has.
pub open spec fn mint_domain_of(args: DomainArgs, env: Seq<Seq<char>>) -> Seq<char> {
    text::or_text(args.mint_domain, ops::value_or(env, "MINT_DOMAIN"@, ""@))
}

pub fn mint_domain_preset(args: &DomainArgs, env: &EnvFile) -> (r: String)
    ensures
        r@ == mint_domain_of(*args, env@),
{
    let current = ops::get_or(env, "MINT_DOMAIN", "");
    text::text_or(&args.mint_domain, current.as_str())
}

/// Why the flags are refused, if they are. `console_ok` and `mint_ok` say
/// whether the two hostnames are valid ones.
pub open spec fn domain_refusal(
    args: DomainArgs,
    env: Seq<Seq<char>>,
    console_ok: bool,
    mint_ok: bool,
) -> Option<Seq<char>> {
    let console = text::or_empty(args.console_domain);
    let mint = mint_domain_of(args, env);
    let access = access_of(args);
    if args.behind_proxy && console.len() == 0 {
        Some(PROXY_NEEDS_DOMAIN@)
    } else if !args.behind_proxy && !args.plain_http && console.len() == 0 {
        Some(NOTHING_ASKED@)
    } else if access != AccessMode::PlainHttp && !console_ok {
        Some(bad_console_domain(console))
    } else if access != AccessMode::PlainHttp && ops::profile_on(env, "mint"@) && mint.len() == 0 {
        Some(MINT_NEEDS_DOMAIN@)
    } else if access != AccessMode::PlainHttp && ops::profile_on(env, "mint"@) && !mint_ok {
        Some(install::bad_mint_domain(mint))
    } else {
        None
    }
}

/// The change that the flags ask for.
pub fn domain_from_flags(args: &DomainArgs, env: &EnvFile, console_ok: bool, mint_ok: bool) -> (r:
    Result<DomainChange, String>)
    ensures
        match r {
            Ok(change) => domain_refusal(*args, env@, console_ok, mint_ok) is None && changes(
                change,
                access_of(*args),
                text::or_empty(args.console_domain),
                if access_of(*args) != AccessMode::PlainHttp && ops::profile_on(env@, "mint"@) {
                    mint_domain_of(*args, env@)
                } else {
                    Seq::empty()
                },
                text::or_text(args.email, ops::value_or(env@, "ACME_EMAIL"@, ""@)),
            ),
            Err(message) => domain_refusal(*args, env@, console_ok, mint_ok) == Some(message@),
        },
{
    let console_domain = text::text_or_empty(&args.console_domain);
    let named: bool = !console_domain.as_str().is_empty();
    if args.behind_proxy && !named {
        return Err(PROXY_NEEDS_DOMAIN.to_owned());
    }
    if !args.behind_proxy && !args.plain_http && !named {
        return Err(NOTHING_ASKED.to_owned());
    }
    let access = if args.behind_proxy {
        AccessMode::BehindProxy
    } else if args.plain_http || !named {
        AccessMode::PlainHttp
    } else {
        AccessMode::DomainTls
    };
    if access != AccessMode::PlainHttp && !console_ok {
        return Err("--console-domain ".to_owned()
            .concat(console_domain.as_str())
            .concat(" is not a valid hostname"));
    }
    let mint_domain = if access != AccessMode::PlainHttp && ops::has_profile(env, "mint") {
        let domain = mint_domain_preset(args, env);
        if domain.as_str().is_empty() {
            return Err(MINT_NEEDS_DOMAIN.to_owned());
        }
        if !mint_ok {
            return Err("--mint-domain ".to_owned()
                .concat(domain.as_str())
                .concat(" is not a valid hostname"));
        }
        domain
    } else {
        String::new()
    };
    let current_email = ops::get_or(env, "ACME_EMAIL", "");
    let acme_email = text::text_or(&args.email, current_email.as_str());
    Ok(DomainChange { access, console_domain, mint_domain, acme_email })
}

// ---------------------------------------------------------------------------
// what the answers ask for
// ---------------------------------------------------------------------------
/// The change that the answers ask for: `chosen` is the access mode that was
/// chosen first, and `settled` the one after the DNS records were looked at. The
/// certificate account is preserved; only a choice of TLS edits it.
pub fn domain_from_answers(
    args: &DomainArgs,
    env: &EnvFile,
    chosen: AccessMode,
    settled: AccessMode,
    console_domain: &str,
    mint_domain: &str,
) -> (r: DomainChange)
    ensures
        changes(
            r,
            settled,
            if chosen == AccessMode::PlainHttp {
                Seq::empty()
            } else {
                console_domain@
            },
            if chosen != AccessMode::PlainHttp && ops::profile_on(env@, "mint"@) {
                mint_domain@
            } else {
                Seq::empty()
            },
            if chosen == AccessMode::DomainTls {
                text::or_text(args.email, ops::value_or(env@, "ACME_EMAIL"@, ""@))
            } else {
                ops::value_or(env@, "ACME_EMAIL"@, ""@)
            },
        ),
{
    let current_email = ops::get_or(env, "ACME_EMAIL", "");
    DomainChange {
        access: settled,
        console_domain: if chosen == AccessMode::PlainHttp {
            String::new()
        } else {
            console_domain.to_owned()
        },
        mint_domain: if chosen != AccessMode::PlainHttp && ops::has_profile(env, "mint") {
            mint_domain.to_owned()
        } else {
            String::new()
        },
        acme_email: if chosen == AccessMode::DomainTls {
            text::text_or(&args.email, current_email.as_str())
        } else {
            current_email
        },
    }
}

/// What is asked next. The hostnames that the flags give are not asked for.
#[derive(Debug, Clone, Copy, PartialEq, Eq, Structural)]
pub enum DomainQuestion {
    /// Prompt: the access mode.
    AskAccess,
    /// Prompt: the console's hostname.
    AskConsoleDomain,
    /// Is a usable hostname for the mint given?
    MintPreset,
    /// Prompt: the mint's hostname.
    AskMintDomain,
    /// Show the records and wait for them; with its own prompts. Answered with
    /// the access mode that is left.
    ConfirmDns,
    /// All is answered.
    Settled,
    /// A prompt was cancelled or did not work.
    Unsettled,
}

#[derive(Debug, Clone, Copy, PartialEq, Eq, Structural)]
pub struct DomainQuestions {
    pub step: DomainQuestion,
    /// Whether the flags give the console's hostname.
    pub console_given: bool,
    pub has_mint: bool,
    /// The access mode that was chosen first.
    pub chosen: AccessMode,
    /// The one after the records were looked at.
    pub settled: AccessMode,
}

pub open spec fn questions_start(console_given: bool, has_mint: bool) -> DomainQuestions {
    DomainQuestions {
        step: DomainQuestion::AskAccess,
        console_given,
        has_mint,
        chosen: AccessMode::PlainHttp,
        settled: AccessMode::PlainHttp,
    }
}

/// With all hostnames: certificates need the records.
pub open spec fn domains_named(q: DomainQuestions) -> DomainQuestions {
    if q.chosen == AccessMode::DomainTls {
        DomainQuestions { step: DomainQuestion::ConfirmDns, ..q }
    } else {
        DomainQuestions { step: DomainQuestion::Settled, ..q }
    }
}

/// With the console's hostname: a bundled mint needs one too.
pub open spec fn console_named(q: DomainQuestions) -> DomainQuestions {
    if q.has_mint {
        DomainQuestions { step: DomainQuestion::MintPreset, ..q }
    } else {
        domains_named(q)
    }
}

/// With an access mode: the console needs a hostname unless it is plain HTTP.
pub open spec fn access_chosen(q: DomainQuestions, access: AccessMode) -> DomainQuestions {
    let known = DomainQuestions { chosen: access, settled: access, ..q };
    if access == AccessMode::PlainHttp {
        DomainQuestions { step: DomainQuestion::Settled, ..known }
    } else if q.console_given {
        console_named(known)
    } else {
        DomainQuestions { step: DomainQuestion::AskConsoleDomain, ..known }
    }
}

pub open spec fn question_next(q: DomainQuestions, answer: Answer) -> DomainQuestions {
    match (q.step, answer) {
        (DomainQuestion::AskAccess, Answer::Access(access)) => access_chosen(q, access),
        (DomainQuestion::AskConsoleDomain, Answer::Yes) => console_named(q),
        (DomainQuestion::MintPreset, Answer::Yes) => domains_named(q),
        (DomainQuestion::MintPreset, Answer::No) => DomainQuestions {
            step: DomainQuestion::AskMintDomain,
            ..q
        },
        (DomainQuestion::AskMintDomain, Answer::Yes) => domains_named(q),
        (DomainQuestion::ConfirmDns, Answer::Access(access)) => if access
            == AccessMode::BehindProxy {
            DomainQuestions { step: DomainQuestion::Unsettled, ..q }
        } else {
            DomainQuestions { step: DomainQuestion::Settled, settled: access, ..q }
        },
        (DomainQuestion::Settled, _) => q,
        _ => DomainQuestions { step: DomainQuestion::Unsettled, ..q },
    }
}

/// Starts the questions; `next` takes them through their steps.
pub fn domain_questions(args: &DomainArgs, env: &EnvFile) -> (r: DomainQuestions)
    ensures
        r == questions_start(
            text::or_empty(args.console_domain).len() > 0,
            ops::profile_on(env@, "mint"@),
        ),
{
    let console_domain = text::text_or_empty(&args.console_domain);
    DomainQuestions {
        step: DomainQuestion::AskAccess,
        console_given: !console_domain.as_str().is_empty(),
        has_mint: ops::has_profile(env, "mint"),
        chosen: AccessMode::PlainHttp,
        settled: AccessMode::PlainHttp,
    }
}

impl DomainQuestions {
    fn with_domains(self) -> (r: Self)
        ensures
            r == domains_named(self),
    {
        if self.chosen == AccessMode::DomainTls {
            DomainQuestions { step: DomainQuestion::ConfirmDns, ..self }
        } else {
            DomainQuestions { step: DomainQuestion::Settled, ..self }
        }
    }

    fn with_console(self) -> (r: Self)
        ensures
            r == console_named(self),
    {
        if self.has_mint {
            DomainQuestions { step: DomainQuestion::MintPreset, ..self }
        } else {
            self.with_domains()
        }
    }

    fn with_access(self, access: AccessMode) -> (r: Self)
        ensures
            r == access_chosen(self, access),
    {
        let known = DomainQuestions { chosen: access, settled: access, ..self };
        if access == AccessMode::PlainHttp {
            DomainQuestions { step: DomainQuestion::Settled, ..known }
        } else if self.console_given {
            known.with_console()
        } else {
            DomainQuestions { step: DomainQuestion::AskConsoleDomain, ..known }
        }
    }

    pub fn next(self, answer: Answer) -> (r: Self)
        ensures
            r == question_next(self, answer),
    {
        match (self.step, answer) {
            (DomainQuestion::AskAccess, Answer::Access(access)) => self.with_access(access),
            (DomainQuestion::AskConsoleDomain, Answer::Yes) => self.with_console(),
            (DomainQuestion::MintPreset, Answer::Yes) => self.with_domains(),
            (DomainQuestion::MintPreset, Answer::No) => DomainQuestions {
                step: DomainQuestion::AskMintDomain,
                ..self
            },
            (DomainQuestion::AskMintDomain, Answer::Yes) => self.with_domains(),
            (DomainQuestion::ConfirmDns, Answer::Access(access)) => if access
                == AccessMode::BehindProxy {
                DomainQuestions { step: DomainQuestion::Unsettled, ..self }
            } else {
                DomainQuestions { step: DomainQuestion::Settled, settled: access, ..self }
            },
            (DomainQuestion::Settled, _) => self,
            _ => DomainQuestions { step: DomainQuestion::Unsettled, ..self },
        }
    }
}

/// What is said of the way the console is reached now.
pub fn current_access(env: &EnvFile) -> (r: String)
    ensures
        r@ == ({
            let domain = ops::value_or(env@, "CONSOLE_DOMAIN"@, ""@);
            if domain.len() == 0 {
                "Currently: plain HTTP (no domain)."@
            } else {
                "Currently: https://"@ + domain
            }
        }),
{
    let domain = ops::get_or(env, "CONSOLE_DOMAIN", "");
    if domain.as_str().is_empty() {
        "Currently: plain HTTP (no domain).".to_owned()
    } else {
        "Currently: https://".to_owned().concat(domain.as_str())
    }
}

/// Which access mode is offered first.
pub fn preferred_access(env: &EnvFile, ports_busy: bool) -> (r: AccessMode)
    ensures
        r == (if ops::value_or(env@, "CONSOLE_DOMAIN"@, ""@).len() == 0 && ports_busy {
            AccessMode::BehindProxy
        } else {
            AccessMode::DomainTls
        }),
{
    let domain = ops::get_or(env, "CONSOLE_DOMAIN", "");
    if domain.as_str().is_empty() && ports_busy {
        AccessMode::BehindProxy
    } else {
        AccessMode::DomainTls
    }
}

// ---------------------------------------------------------------------------
// what is written
// ---------------------------------------------------------------------------
/// The `.env` after a change.
pub open spec fn domain_env(env: Seq<Seq<char>>, change: DomainChange, has_mint: bool) -> Seq<
    Seq<char>,
> {
    let profiles = envfile::with_entry(
        env,
        "COMPOSE_PROFILES"@,
        install::profiles_of(change.access, has_mint),
    );
    let bind = envfile::with_entry(profiles, "BIND_ADDR"@, install::bind_of(change.access));
    let console = envfile::with_entry(bind, "CONSOLE_DOMAIN"@, change.console_domain@);
    let email = envfile::with_entry(console, "ACME_EMAIL"@, change.acme_email@);
    if has_mint {
        envfile::with_entry(
            envfile::with_entry(email, "MINT_DOMAIN"@, change.mint_domain@),
            "MINT_BIND_ADDR"@,
            install::bind_of(change.access),
        )
    } else {
        email
    }
}

/// Writes a change into the `.env`. A bundled mint keeps its profile and gets
/// its hostname carried through every access change.
pub fn apply_domain(env: &mut EnvFile, change: &DomainChange)
    ensures
        final(env)@ == domain_env(old(env)@, *change, ops::profile_on(old(env)@, "mint"@)),
        final(env).location() == old(env).location(),
{
    let has_mint = ops::has_profile(env, "mint");
    env.set("COMPOSE_PROFILES", install::profiles(change.access, has_mint).as_str());
    env.set("BIND_ADDR", install::bind_for(change.access));
    env.set("CONSOLE_DOMAIN", change.console_domain.as_str());
    env.set("ACME_EMAIL", change.acme_email.as_str());
    if has_mint {
        env.set("MINT_DOMAIN", change.mint_domain.as_str());
        env.set("MINT_BIND_ADDR", install::bind_for(change.access));
    }
}

/// Whether the Caddyfile has the mint's site.
pub fn mint_site(change: &DomainChange, has_mint: bool) -> (r: bool)
    ensures
        r == (has_mint && change.access == AccessMode::DomainTls && change.mint_domain@.len() > 0),
{
    has_mint && change.access == AccessMode::DomainTls && !change.mint_domain.as_str().is_empty()
}

/// That a plan says no more than proxy snippets need.
pub open spec fn snippets_for(
    plan: InstallPlan,
    install_dir: Seq<char>,
    console_domain: Seq<char>,
    ui_port: u16,
    mint: Option<(Seq<char>, u16)>,
) -> bool {
    &&& plan.install_dir@ == install_dir
    &&& plan.version@ == Seq::<char>::empty()
    &&& plan.no_pull
    &&& plan.access == AccessMode::BehindProxy
    &&& plan.console_domain@ == console_domain
    &&& plan.acme_email@ == Seq::<char>::empty()
    &&& plan.ui_port == ui_port
    &&& plan.bind_addr@ == LOOPBACK@
    &&& plan.grpc_bind_addr@ == LOOPBACK@
    &&& plan.grpc_port == 50051
    &&& plan.public_ip is None
    &&& plan.admin_password@ == Seq::<char>::empty()
    &&& plan.attach is None
    &&& match (mint, plan.mint) {
        (Some((domain, port)), Some(m)) => {
            &&& m.mint_url@ == "https://"@ + domain
            &&& m.mint_domain@ == domain
            &&& m.mint_port == port
            &&& m.mint_bind_addr@ == LOOPBACK@
            &&& m.mintd_version@ == Seq::<char>::empty()
            &&& m.mnemonic@ == Seq::<char>::empty()
        },
        (None, None) => true,
        _ => false,
    }
}

/// A minimal plan for snippet rendering on an existing install.
pub fn snippet_plan(
    install_dir: &str,
    console_domain: &str,
    ui_port: u16,
    mint: Option<(&str, u16)>,
) -> (r: InstallPlan)
    ensures
        snippets_for(
            r,
            install_dir@,
            console_domain@,
            ui_port,
            match mint {
                Some((domain, port)) => Some((domain@, port)),
                None => None,
            },
        ),
{
    InstallPlan {
        install_dir: install_dir.to_owned(),
        version: String::new(),
        no_pull: true,
        access: AccessMode::BehindProxy,
        console_domain: console_domain.to_owned(),
        acme_email: String::new(),
        ui_port,
        bind_addr: LOOPBACK.to_owned(),
        grpc_bind_addr: LOOPBACK.to_owned(),
        grpc_port: 50051,
        public_ip: None,
        admin_password: String::new(),
        attach: None,
        mint: match mint {
            Some((domain, port)) => Some(
                MintPlan {
                    mint_domain: domain.to_owned(),
                    mint_url: "https://".to_owned().concat(domain),
                    mint_port: port,
                    mint_bind_addr: LOOPBACK.to_owned(),
                    mintd_version: String::new(),
                    mnemonic: String::new(),
                },
            ),
            None => None,
        },
    }
}

/// The snippets of an existing install for a change, from what its `.env` says.
pub fn domain_snippets(env: &EnvFile, install_dir: &str, change: &DomainChange) -> (r: InstallPlan)
    ensures
        snippets_for(
            r,
            install_dir@,
            change.console_domain@,
            ops::port_or(env@, "UI_PORT"@, 9090),
            if ops::profile_on(env@, "mint"@) {
                Some((change.mint_domain@, ops::port_or(env@, "MINT_PORT"@, 3338)))
            } else {
                None
            },
        ),
{
    let ui_port: u16 = ops::get_port(env, "UI_PORT", 9090);
    let mint = if ops::has_profile(env, "mint") {
        Some((change.mint_domain.as_str(), ops::get_port(env, "MINT_PORT", 3338)))
    } else {
        None
    };
    snippet_plan(install_dir, change.console_domain.as_str(), ui_port, mint)
}

pub const MINT_URL_NOTICE: &'static str = "Heads-up: if the mint's hostname changed, its public URL changed too — update the mint URL in the console's Mint tab (and re-issue wallets the new address).";

pub const APPLIED: &'static str = "Access configuration applied.";

pub const NOT_BACK: &'static str = "the console did not come back — check 'mintctl logs processor'";

pub const NOT_BACK_GUIDED: &'static str = "check 'mintctl logs processor'";

/// How long the console has to come back.
pub const HEALTH_BUDGET_SECS: u64 = 120;

/// Recreates what the change concerns, and removes what is no longer wanted.
pub fn up_args() -> (r: Vec<String>)
    ensures
        text::texts(r@) == seq!["up"@, "-d"@, "--remove-orphans"@],
{
    let args = text::words(&["up", "-d", "--remove-orphans"]);
    assert(text::texts(args@) =~= seq!["up"@, "-d"@, "--remove-orphans"@]);
    args
}

// ---------------------------------------------------------------------------
// the steps
// ---------------------------------------------------------------------------
/// What is asked or done next. Each step is answered with yes or no: whether
/// it is so, or whether it worked.
#[derive(Debug, Clone, Copy, PartialEq, Eq, Structural)]
pub enum DomainStep {
    /// Take the installation's operation lock.
    TakeLock,
    /// Read the `.env`.
    ReadEnv,
    /// Settle the change: from the flags, or from the answers. Answered with no
    /// where the flags are refused or a prompt is cancelled.
    Settle,
    SaveEnv,
    /// Put the certificate account into the Caddyfile.
    SetEmail,
    /// Put the mint's site into the Caddyfile, or take it out.
    SetMintSite,
    WriteSnippets,
    BringUp,
    /// Does the console come back?
    AwaitConsole,
    /// Wait for the certificate, whether it comes in time or not.
    AwaitCertificate,
    Done,
    /// Nothing was changed.
    Unchanged,
    /// The `.env` holds the change, and a later step did not work.
    Failed,
}

#[derive(Debug, Clone, Copy, PartialEq, Eq, Structural)]
pub struct DomainRun {
    pub step: DomainStep,
    pub interactive: bool,
    pub access: AccessMode,
}

pub open spec fn domain_start(interactive: bool) -> DomainRun {
    DomainRun { step: DomainStep::TakeLock, interactive, access: AccessMode::PlainHttp }
}

pub open spec fn domain_next(run: DomainRun, yes: bool) -> DomainRun {
    let step = match run.step {
        DomainStep::TakeLock => if yes {
            DomainStep::ReadEnv
        } else {
            DomainStep::Unchanged
        },
        DomainStep::ReadEnv => if yes {
            DomainStep::Settle
        } else {
            DomainStep::Unchanged
        },
        DomainStep::Settle => if yes {
            DomainStep::SaveEnv
        } else {
            DomainStep::Unchanged
        },
        DomainStep::SaveEnv => if yes {
            DomainStep::SetEmail
        } else {
            DomainStep::Unchanged
        },
        DomainStep::SetEmail => if yes {
            DomainStep::SetMintSite
        } else {
            DomainStep::Failed
        },
        DomainStep::SetMintSite => if !yes {
            DomainStep::Failed
        } else if run.access == AccessMode::BehindProxy {
            DomainStep::WriteSnippets
        } else {
            DomainStep::BringUp
        },
        DomainStep::WriteSnippets => if yes {
            DomainStep::BringUp
        } else {
            DomainStep::Failed
        },
        DomainStep::BringUp => if yes {
            DomainStep::AwaitConsole
        } else {
            DomainStep::Failed
        },
        DomainStep::AwaitConsole => if !yes {
            DomainStep::Failed
        } else if run.interactive && run.access == AccessMode::DomainTls {
            DomainStep::AwaitCertificate
        } else {
            DomainStep::Done
        },
        DomainStep::AwaitCertificate => DomainStep::Done,
        DomainStep::Done => DomainStep::Done,
        DomainStep::Unchanged => DomainStep::Unchanged,
        DomainStep::Failed => DomainStep::Failed,
    };
    DomainRun { step, ..run }
}

/// Starts a change; `next` takes it through its steps.
pub fn domain_command(interactive: bool) -> (r: DomainRun)
    ensures
        r == domain_start(interactive),
{
    DomainRun { step: DomainStep::TakeLock, interactive, access: AccessMode::PlainHttp }
}

impl DomainRun {
    /// The change was settled with this access mode.
    pub fn settled(self, access: AccessMode) -> (r: Self)
        ensures
            r == (DomainRun { access, ..self }),
    {
        DomainRun { access, ..self }
    }

    pub fn next(self, yes: bool) -> (r: Self)
        ensures
            r == domain_next(self, yes),
    {
        let run = self;
        let step = match run.step {
            DomainStep::TakeLock => if yes {
                DomainStep::ReadEnv
            } else {
                DomainStep::Unchanged
            },
            DomainStep::ReadEnv => if yes {
                DomainStep::Settle
            } else {
                DomainStep::Unchanged
            },
            DomainStep::Settle => if yes {
                DomainStep::SaveEnv
            } else {
                DomainStep::Unchanged
            },
            DomainStep::SaveEnv => if yes {
                DomainStep::SetEmail
            } else {
                DomainStep::Unchanged
            },
            DomainStep::SetEmail => if yes {
                DomainStep::SetMintSite
            } else {
                DomainStep::Failed
            },
            DomainStep::SetMintSite => if !yes {
                DomainStep::Failed
            } else if run.access == AccessMode::BehindProxy {
                DomainStep::WriteSnippets
            } else {
                DomainStep::BringUp
            },
            DomainStep::WriteSnippets => if yes {
                DomainStep::BringUp
            } else {
                DomainStep::Failed
            },
            DomainStep::BringUp => if yes {
                DomainStep::AwaitConsole
            } else {
                DomainStep::Failed
            },
            DomainStep::AwaitConsole => if !yes {
                DomainStep::Failed
            } else if run.interactive && run.access == AccessMode::DomainTls {
                DomainStep::AwaitCertificate
            } else {
                DomainStep::Done
            },
            DomainStep::AwaitCertificate => DomainStep::Done,
            DomainStep::Done => DomainStep::Done,
            DomainStep::Unchanged => DomainStep::Unchanged,
            DomainStep::Failed => DomainStep::Failed,
        };
        DomainRun { step, ..run }
    }
}

// ---------------------------------------------------------------------------
// laws
// ---------------------------------------------------------------------------
proof fn lemma_domain_keys()
    ensures
        envfile::apart("COMPOSE_PROFILES"@, "BIND_ADDR"@),
        envfile::apart("COMPOSE_PROFILES"@, "CONSOLE_DOMAIN"@),
        envfile::apart("COMPOSE_PROFILES"@, "ACME_EMAIL"@),
        envfile::apart("COMPOSE_PROFILES"@, "MINT_DOMAIN"@),
        envfile::apart("COMPOSE_PROFILES"@, "MINT_BIND_ADDR"@),
        envfile::apart("BIND_ADDR"@, "CONSOLE_DOMAIN"@),
        envfile::apart("BIND_ADDR"@, "ACME_EMAIL"@),
        envfile::apart("BIND_ADDR"@, "MINT_DOMAIN"@),
        envfile::apart("BIND_ADDR"@, "MINT_BIND_ADDR"@),
        envfile::apart("CONSOLE_DOMAIN"@, "ACME_EMAIL"@),
        envfile::apart("CONSOLE_DOMAIN"@, "MINT_DOMAIN"@),
        envfile::apart("CONSOLE_DOMAIN"@, "MINT_BIND_ADDR"@),
        envfile::apart("ACME_EMAIL"@, "MINT_DOMAIN"@),
        envfile::apart("ACME_EMAIL"@, "MINT_BIND_ADDR"@),
        envfile::apart("MINT_DOMAIN"@, "MINT_BIND_ADDR"@),
{
    reveal_strlit("COMPOSE_PROFILES");
    reveal_strlit("BIND_ADDR");
    reveal_strlit("CONSOLE_DOMAIN");
    reveal_strlit("ACME_EMAIL");
    reveal_strlit("MINT_DOMAIN");
    reveal_strlit("MINT_BIND_ADDR");
    assert("COMPOSE_PROFILES"@.len() == 16 && "BIND_ADDR"@.len() == 9 && "CONSOLE_DOMAIN"@.len()
        == 14 && "ACME_EMAIL"@.len() == 10 && "MINT_DOMAIN"@.len() == 11 && "MINT_BIND_ADDR"@.len()
        == 14);
    assert("CONSOLE_DOMAIN"@[0] != "MINT_BIND_ADDR"@[0]);
    envfile::lemma_plain_keys_apart("COMPOSE_PROFILES"@, "BIND_ADDR"@);
    envfile::lemma_plain_keys_apart("COMPOSE_PROFILES"@, "CONSOLE_DOMAIN"@);
    envfile::lemma_plain_keys_apart("COMPOSE_PROFILES"@, "ACME_EMAIL"@);
    envfile::lemma_plain_keys_apart("COMPOSE_PROFILES"@, "MINT_DOMAIN"@);
    envfile::lemma_plain_keys_apart("COMPOSE_PROFILES"@, "MINT_BIND_ADDR"@);
    envfile::lemma_plain_keys_apart("BIND_ADDR"@, "CONSOLE_DOMAIN"@);
    envfile::lemma_plain_keys_apart("BIND_ADDR"@, "ACME_EMAIL"@);
    envfile::lemma_plain_keys_apart("BIND_ADDR"@, "MINT_DOMAIN"@);
    envfile::lemma_plain_keys_apart("BIND_ADDR"@, "MINT_BIND_ADDR"@);
    envfile::lemma_plain_keys_apart("CONSOLE_DOMAIN"@, "ACME_EMAIL"@);
    envfile::lemma_plain_keys_apart("CONSOLE_DOMAIN"@, "MINT_DOMAIN"@);
    envfile::lemma_plain_keys_apart("CONSOLE_DOMAIN"@, "MINT_BIND_ADDR"@);
    envfile::lemma_plain_keys_apart("ACME_EMAIL"@, "MINT_DOMAIN"@);
    envfile::lemma_plain_keys_apart("ACME_EMAIL"@, "MINT_BIND_ADDR"@);
    envfile::lemma_plain_keys_apart("MINT_DOMAIN"@, "MINT_BIND_ADDR"@);
}

/// A key that no part of a change is about keeps its value.
pub proof fn law_change_keeps_other_settings(
    env: Seq<Seq<char>>,
    change: DomainChange,
    has_mint: bool,
    key: Seq<char>,
)
    requires
        envfile::apart("COMPOSE_PROFILES"@, key),
        envfile::apart("BIND_ADDR"@, key),
        envfile::apart("CONSOLE_DOMAIN"@, key),
        envfile::apart("ACME_EMAIL"@, key),
        envfile::apart("MINT_DOMAIN"@, key),
        envfile::apart("MINT_BIND_ADDR"@, key),
    ensures
        envfile::last_value(domain_env(env, change, has_mint), key) == envfile::last_value(
            env,
            key,
        ),
{
    let bind = install::bind_of(change.access);
    let profiles = install::profiles_of(change.access, has_mint);
    let e1 = envfile::with_entry(env, "COMPOSE_PROFILES"@, profiles);
    let e2 = envfile::with_entry(e1, "BIND_ADDR"@, bind);
    let e3 = envfile::with_entry(e2, "CONSOLE_DOMAIN"@, change.console_domain@);
    let e4 = envfile::with_entry(e3, "ACME_EMAIL"@, change.acme_email@);
    let e5 = envfile::with_entry(e4, "MINT_DOMAIN"@, change.mint_domain@);
    envfile::law_set_keeps_other_keys(env, "COMPOSE_PROFILES"@, profiles, key);
    envfile::law_set_keeps_other_keys(e1, "BIND_ADDR"@, bind, key);
    envfile::law_set_keeps_other_keys(e2, "CONSOLE_DOMAIN"@, change.console_domain@, key);
    envfile::law_set_keeps_other_keys(e3, "ACME_EMAIL"@, change.acme_email@, key);
    envfile::law_set_keeps_other_keys(e4, "MINT_DOMAIN"@, change.mint_domain@, key);
    envfile::law_set_keeps_other_keys(e5, "MINT_BIND_ADDR"@, bind, key);
}

/// What a change writes is what is read: the profiles, the bind address, the
/// hostname and the certificate account.
pub proof fn law_change_is_written(env: Seq<Seq<char>>, change: DomainChange, has_mint: bool)
    ensures
        ({
            let next = domain_env(env, change, has_mint);
            let bind = install::bind_of(change.access);
            &&& envfile::last_value(next, "COMPOSE_PROFILES"@) == Some(
                install::profiles_of(change.access, has_mint),
            )
            &&& envfile::last_value(next, "BIND_ADDR"@) == Some(bind)
            &&& envfile::last_value(next, "CONSOLE_DOMAIN"@) == Some(change.console_domain@)
            &&& envfile::last_value(next, "ACME_EMAIL"@) == Some(change.acme_email@)
            &&& has_mint ==> envfile::last_value(next, "MINT_DOMAIN"@) == Some(change.mint_domain@)
            &&& has_mint ==> envfile::last_value(next, "MINT_BIND_ADDR"@) == Some(bind)
        }),
{
    lemma_domain_keys();
    let bind = install::bind_of(change.access);
    let profiles = install::profiles_of(change.access, has_mint);
    let e1 = envfile::with_entry(env, "COMPOSE_PROFILES"@, profiles);
    let e2 = envfile::with_entry(e1, "BIND_ADDR"@, bind);
    let e3 = envfile::with_entry(e2, "CONSOLE_DOMAIN"@, change.console_domain@);
    let e4 = envfile::with_entry(e3, "ACME_EMAIL"@, change.acme_email@);
    let e5 = envfile::with_entry(e4, "MINT_DOMAIN"@, change.mint_domain@);
    envfile::law_get_after_set(env, "COMPOSE_PROFILES"@, profiles);
    envfile::law_get_after_set(e1, "BIND_ADDR"@, bind);
    envfile::law_set_keeps_other_keys(e1, "BIND_ADDR"@, bind, "COMPOSE_PROFILES"@);
    envfile::law_get_after_set(e2, "CONSOLE_DOMAIN"@, change.console_domain@);
    envfile::law_set_keeps_other_keys(e2, "CONSOLE_DOMAIN"@, change.console_domain@, "COMPOSE_PROFILES"@);
    envfile::law_set_keeps_other_keys(e2, "CONSOLE_DOMAIN"@, change.console_domain@, "BIND_ADDR"@);
    envfile::law_get_after_set(e3, "ACME_EMAIL"@, change.acme_email@);
    envfile::law_set_keeps_other_keys(e3, "ACME_EMAIL"@, change.acme_email@, "COMPOSE_PROFILES"@);
    envfile::law_set_keeps_other_keys(e3, "ACME_EMAIL"@, change.acme_email@, "BIND_ADDR"@);
    envfile::law_set_keeps_other_keys(e3, "ACME_EMAIL"@, change.acme_email@, "CONSOLE_DOMAIN"@);
    envfile::law_get_after_set(e4, "MINT_DOMAIN"@, change.mint_domain@);
    envfile::law_set_keeps_other_keys(e4, "MINT_DOMAIN"@, change.mint_domain@, "COMPOSE_PROFILES"@);
    envfile::law_set_keeps_other_keys(e4, "MINT_DOMAIN"@, change.mint_domain@, "BIND_ADDR"@);
    envfile::law_set_keeps_other_keys(e4, "MINT_DOMAIN"@, change.mint_domain@, "CONSOLE_DOMAIN"@);
    envfile::law_set_keeps_other_keys(e4, "MINT_DOMAIN"@, change.mint_domain@, "ACME_EMAIL"@);
    envfile::law_get_after_set(e5, "MINT_BIND_ADDR"@, bind);
    envfile::law_set_keeps_other_keys(e5, "MINT_BIND_ADDR"@, bind, "COMPOSE_PROFILES"@);
    envfile::law_set_keeps_other_keys(e5, "MINT_BIND_ADDR"@, bind, "BIND_ADDR"@);
    envfile::law_set_keeps_other_keys(e5, "MINT_BIND_ADDR"@, bind, "CONSOLE_DOMAIN"@);
    envfile::law_set_keeps_other_keys(e5, "MINT_BIND_ADDR"@, bind, "ACME_EMAIL"@);
    envfile::law_set_keeps_other_keys(e5, "MINT_BIND_ADDR"@, bind, "MINT_DOMAIN"@);
}

/// A bundled mint stays through every access change, none appears, and the
/// bundled Caddy runs exactly with TLS.
pub proof fn law_change_keeps_the_shape(env: Seq<Seq<char>>, change: DomainChange)
    ensures
        ({
            let has_mint = ops::profile_on(env, "mint"@);
            let next = domain_env(env, change, has_mint);
            &&& ops::profile_on(next, "mint"@) == has_mint
            &&& ops::profile_on(next, "tls"@) == (change.access == AccessMode::DomainTls)
        }),
{
    let has_mint = ops::profile_on(env, "mint"@);
    law_change_is_written(env, change, has_mint);
    install::law_profiles_tell_the_shape(change.access, has_mint);
}

/// Where a change stands after these answers, when it was settled with this
/// access mode.
pub open spec fn domain_after(interactive: bool, access: AccessMode, answers: Seq<bool>) -> DomainRun
    decreases answers.len(),
{
    if answers.len() == 0 {
        DomainRun { access, ..domain_start(interactive) }
    } else {
        domain_next(domain_after(interactive, access, answers.drop_last()), answers.last())
    }
}

/// Nothing is written before the change was settled, under the lock: the first
/// three answers were yes.
pub proof fn law_nothing_is_written_unsettled(
    interactive: bool,
    access: AccessMode,
    answers: Seq<bool>,
)
    ensures
        ({
            let step = domain_after(interactive, access, answers).step;
            &&& step is TakeLock ==> answers.len() == 0
            &&& step is ReadEnv ==> answers.len() == 1 && answers[0]
            &&& step is Settle ==> answers.len() == 2 && answers[0] && answers[1]
            &&& !(step is TakeLock || step is ReadEnv || step is Settle || step is Unchanged)
                ==> answers.len() >= 3 && answers[0] && answers[1] && answers[2]
        }),
    decreases answers.len(),
{
    if answers.len() > 0 {
        law_nothing_is_written_unsettled(interactive, access, answers.drop_last());
    }
}

/// Where the questions stand after these answers.
pub open spec fn questions_after(
    console_given: bool,
    has_mint: bool,
    answers: Seq<Answer>,
) -> DomainQuestions
    decreases answers.len(),
{
    if answers.len() == 0 {
        questions_start(console_given, has_mint)
    } else {
        question_next(
            questions_after(console_given, has_mint, answers.drop_last()),
            answers.last(),
        )
    }
}

/// That the questions came by this one, and how it was answered.
pub open spec fn asked(
    console_given: bool,
    has_mint: bool,
    answers: Seq<Answer>,
    step: DomainQuestion,
    answer: Answer,
) -> bool {
    exists|i: int|
        0 <= i < answers.len() && #[trigger] questions_after(
            console_given,
            has_mint,
            answers.take(i),
        ).step == step && answers[i] == answer
}

proof fn lemma_asked(
    console_given: bool,
    has_mint: bool,
    answers: Seq<Answer>,
    step: DomainQuestion,
    answer: Answer,
)
    requires
        answers.len() > 0,
    ensures
        asked(console_given, has_mint, answers.drop_last(), step, answer) || (questions_after(
            console_given,
            has_mint,
            answers.drop_last(),
        ).step == step && answers.last() == answer) ==> asked(
            console_given,
            has_mint,
            answers,
            step,
            answer,
        ),
{
    let before = answers.drop_last();
    assert(answers.take(before.len() as int) =~= before);
    if asked(console_given, has_mint, before, step, answer) {
        let i = choose|i: int|
            0 <= i < before.len() && #[trigger] questions_after(
                console_given,
                has_mint,
                before.take(i),
            ).step == step && before[i] == answer;
        assert(answers.take(i) =~= before.take(i));
    }
}

/// Every hostname that the chosen access mode needs is given or was asked for.
/// TLS is settled on, or given up for plain HTTP, only by what the look at the
/// records came to; any other choice stays as it is.
pub proof fn law_questions_settle_what_was_chosen(
    console_given: bool,
    has_mint: bool,
    answers: Seq<Answer>,
)
    requires
        questions_after(console_given, has_mint, answers).step is Settled,
    ensures
        ({
            let q = questions_after(console_given, has_mint, answers);
            let named = q.chosen != AccessMode::PlainHttp;
            &&& asked(
                console_given,
                has_mint,
                answers,
                DomainQuestion::AskAccess,
                Answer::Access(q.chosen),
            )
            &&& named && !console_given ==> asked(
                console_given,
                has_mint,
                answers,
                DomainQuestion::AskConsoleDomain,
                Answer::Yes,
            )
            &&& named && has_mint ==> asked(
                console_given,
                has_mint,
                answers,
                DomainQuestion::MintPreset,
                Answer::Yes,
            ) || asked(
                console_given,
                has_mint,
                answers,
                DomainQuestion::AskMintDomain,
                Answer::Yes,
            )
            &&& q.chosen == AccessMode::DomainTls ==> q.settled != AccessMode::BehindProxy && asked(
                console_given,
                has_mint,
                answers,
                DomainQuestion::ConfirmDns,
                Answer::Access(q.settled),
            )
            &&& q.chosen != AccessMode::DomainTls ==> q.settled == q.chosen
        }),
{
    lemma_questions(console_given, has_mint, answers);
}

/// Questions behind that for the console's hostname.
spec fn behind_console(step: DomainQuestion) -> bool {
    step is MintPreset || step is AskMintDomain || step is ConfirmDns || step is Settled
}

#[verifier::spinoff_prover]
proof fn lemma_questions(console_given: bool, has_mint: bool, answers: Seq<Answer>)
    ensures
        ({
            let q = questions_after(console_given, has_mint, answers);
            let named = q.chosen != AccessMode::PlainHttp;
            &&& q.console_given == console_given && q.has_mint == has_mint
            &&& !(q.step is AskAccess) && !(q.step is Unsettled) ==> asked(
                console_given,
                has_mint,
                answers,
                DomainQuestion::AskAccess,
                Answer::Access(q.chosen),
            )
            &&& q.step is AskConsoleDomain || q.step is MintPreset || q.step is AskMintDomain
                ==> named
            &&& q.step is MintPreset || q.step is AskMintDomain ==> has_mint
            &&& q.step is ConfirmDns ==> q.chosen == AccessMode::DomainTls
            &&& named && !console_given && behind_console(q.step) ==> asked(
                console_given,
                has_mint,
                answers,
                DomainQuestion::AskConsoleDomain,
                Answer::Yes,
            )
            &&& named && has_mint && (q.step is ConfirmDns || q.step is Settled) ==> asked(
                console_given,
                has_mint,
                answers,
                DomainQuestion::MintPreset,
                Answer::Yes,
            ) || asked(
                console_given,
                has_mint,
                answers,
                DomainQuestion::AskMintDomain,
                Answer::Yes,
            )
            &&& q.step is Settled && q.chosen == AccessMode::DomainTls ==> q.settled
                != AccessMode::BehindProxy && asked(
                console_given,
                has_mint,
                answers,
                DomainQuestion::ConfirmDns,
                Answer::Access(q.settled),
            )
            &&& !(q.step is Settled) || q.chosen != AccessMode::DomainTls ==> q.settled == q.chosen
        }),
    decreases answers.len(),
{
    if answers.len() > 0 {
        let q = questions_after(console_given, has_mint, answers);
        lemma_questions(console_given, has_mint, answers.drop_last());
        lemma_asked(
            console_given,
            has_mint,
            answers,
            DomainQuestion::AskAccess,
            Answer::Access(q.chosen),
        );
        lemma_asked(
            console_given,
            has_mint,
            answers,
            DomainQuestion::AskConsoleDomain,
            Answer::Yes,
        );
        lemma_asked(console_given, has_mint, answers, DomainQuestion::MintPreset, Answer::Yes);
        lemma_asked(console_given, has_mint, answers, DomainQuestion::AskMintDomain, Answer::Yes);
        lemma_asked(
            console_given,
            has_mint,
            answers,
            DomainQuestion::ConfirmDns,
            Answer::Access(q.settled),
        );
    }
}

/// Cancelling any question leaves the change unsettled.
pub proof fn law_every_question_can_be_cancelled(q: DomainQuestions)
    requires
        !(q.step is Settled),
    ensures
        question_next(q, Answer::Cancel).step is Unsettled,
{
}

// ---------------------------------------------------------------------------
// laws of the change
// ---------------------------------------------------------------------------
/// The flags settle how the console is reached: behind the operator's proxy
/// exactly where that was asked for, and by domain and TLS exactly where a
/// hostname was given and neither of the other two was asked for. They are
/// accepted exactly where each hostname that this needs is there and valid.
pub proof fn law_flags_settle_the_change(
    args: DomainArgs,
    env: EnvFile,
    console_ok: bool,
    mint_ok: bool,
    r: Result<DomainChange, String>,
)
    requires
        call_ensures(domain_from_flags, (&args, &env, console_ok, mint_ok), r),
    ensures
        ({
            let named = args.console_domain matches Some(domain) && domain@.len() > 0;
            let has_mint = ops::profile_on(env@, "mint"@);
            let mint = match args.mint_domain {
                Some(domain) => domain@,
                None => match envfile::last_value(env@, "MINT_DOMAIN"@) {
                    Some(domain) => domain,
                    None => Seq::empty(),
                },
            };
            let hidden = args.behind_proxy || !args.plain_http;
            &&& r is Ok <==> (hidden ==> named && console_ok && (has_mint ==> mint.len() > 0
                && mint_ok))
            &&& r matches Ok(change) ==> {
                &&& change.access == AccessMode::BehindProxy <==> args.behind_proxy
                &&& change.access == AccessMode::DomainTls <==> !args.behind_proxy
                    && !args.plain_http
                &&& named ==> change.console_domain@ == args.console_domain->0@
                &&& !named ==> change.console_domain@.len() == 0
                &&& change.access != AccessMode::PlainHttp && has_mint ==> change.mint_domain@
                    == mint
                &&& change.access == AccessMode::PlainHttp || !has_mint ==> change.mint_domain@.len()
                    == 0
                &&& args.email matches Some(email) ==> change.acme_email@ == email@
                &&& args.email is None && envfile::last_value(env@, "ACME_EMAIL"@) is Some
                    ==> change.acme_email@ == envfile::last_value(env@, "ACME_EMAIL"@)->0
            }
        }),
{
    reveal_strlit("");
}

/// What was answered is what changes: the access mode that was settled, and the
/// hostnames unless plain HTTP was chosen. Only a choice of TLS edits the
/// certificate account.
pub proof fn law_answers_settle_the_change(
    args: DomainArgs,
    env: EnvFile,
    chosen: AccessMode,
    settled: AccessMode,
    console_domain: &str,
    mint_domain: &str,
    r: DomainChange,
)
    requires
        call_ensures(
            domain_from_answers,
            (&args, &env, chosen, settled, console_domain, mint_domain),
            r,
        ),
    ensures
        r.access == settled,
        chosen != AccessMode::PlainHttp ==> r.console_domain@ == console_domain@,
        chosen == AccessMode::PlainHttp ==> r.console_domain@.len() == 0 && r.mint_domain@.len()
            == 0,
        chosen != AccessMode::PlainHttp && ops::profile_on(env@, "mint"@) ==> r.mint_domain@
            == mint_domain@,
        !ops::profile_on(env@, "mint"@) ==> r.mint_domain@.len() == 0,
        chosen == AccessMode::DomainTls && args.email is Some ==> r.acme_email@ == args.email->0@,
        (chosen != AccessMode::DomainTls || args.email is None) && envfile::last_value(
            env@,
            "ACME_EMAIL"@,
        ) is Some ==> r.acme_email@ == envfile::last_value(env@, "ACME_EMAIL"@)->0,
{
    reveal_strlit("");
}

/// After a change the console listens on all interfaces exactly in plain HTTP,
/// and so does a bundled mint, whose hostname is carried along; otherwise both
/// listen on loopback.
pub proof fn law_change_settles_the_binding(
    env: Seq<Seq<char>>,
    change: DomainChange,
    has_mint: bool,
)
    ensures
        ({
            let next = domain_env(env, change, has_mint);
            let bind = if change.access == AccessMode::PlainHttp {
                "0.0.0.0"@
            } else {
                "127.0.0.1"@
            };
            &&& envfile::last_value(next, "BIND_ADDR"@) == Some(bind)
            &&& has_mint ==> envfile::last_value(next, "MINT_BIND_ADDR"@) == Some(bind)
            &&& has_mint ==> envfile::last_value(next, "MINT_DOMAIN"@) == Some(change.mint_domain@)
            &&& envfile::last_value(next, "CONSOLE_DOMAIN"@) == Some(change.console_domain@)
            &&& envfile::last_value(next, "ACME_EMAIL"@) == Some(change.acme_email@)
        }),
{
    law_change_is_written(env, change, has_mint);
}

/// From the flags to the file: with the operator's own proxy the bundled Caddy
/// is not started, with a domain it is, and a bundled mint stays what it was.
pub proof fn law_flags_reach_the_file(
    args: DomainArgs,
    env: EnvFile,
    console_ok: bool,
    mint_ok: bool,
    change: DomainChange,
)
    requires
        call_ensures(
            domain_from_flags,
            (&args, &env, console_ok, mint_ok),
            Ok::<DomainChange, String>(change),
        ),
    ensures
        ({
            let next = domain_env(env@, change, ops::profile_on(env@, "mint"@));
            &&& args.behind_proxy ==> !ops::profile_on(next, "tls"@)
            &&& args.plain_http ==> !ops::profile_on(next, "tls"@)
            &&& !args.behind_proxy && !args.plain_http ==> ops::profile_on(next, "tls"@)
            &&& ops::profile_on(next, "mint"@) == ops::profile_on(env@, "mint"@)
        }),
{
    law_flags_settle_the_change(
        args,
        env,
        console_ok,
        mint_ok,
        Ok::<DomainChange, String>(change),
    );
    law_change_keeps_the_shape(env@, change);
}

/// The mint's site is in the Caddyfile exactly with a bundled mint that has a
/// hostname, under TLS.
pub proof fn law_mint_site_needs_tls(change: DomainChange, has_mint: bool, r: bool)
    requires
        call_ensures(mint_site, (&change, has_mint), r),
    ensures
        r ==> has_mint && change.access == AccessMode::DomainTls && change.mint_domain@.len() > 0,
        has_mint && change.access == AccessMode::DomainTls && change.mint_domain@.len() > 0 ==> r,
{
}

/// The snippets are for the hostnames of the change and the ports of the
/// installation: 9090 and 3338 where it names none. There is one for the mint
/// exactly where it is bundled.
pub proof fn law_snippets_fit_the_installation(
    env: EnvFile,
    install_dir: &str,
    change: DomainChange,
    r: InstallPlan,
)
    requires
        call_ensures(domain_snippets, (&env, install_dir, &change), r),
    ensures
        r.install_dir@ == install_dir@,
        r.access == AccessMode::BehindProxy,
        r.console_domain@ == change.console_domain@,
        r.mint is Some <==> ops::profile_on(env@, "mint"@),
        r.mint matches Some(m) ==> m.mint_domain@ == change.mint_domain@,
        envfile::last_value(env@, "UI_PORT"@) is None ==> r.ui_port == 9090,
        envfile::last_value(env@, "UI_PORT"@) matches Some(v) ==> (text::parsed_u16(v) matches Some(
            port,
        ) ==> r.ui_port == port),
        r.mint matches Some(m) ==> (envfile::last_value(env@, "MINT_PORT"@) is None ==> m.mint_port
            == 3338),
        r.mint matches Some(m) ==> (envfile::last_value(env@, "MINT_PORT"@) is Some
            && text::parsed_u16(envfile::last_value(env@, "MINT_PORT"@)->0) is Some ==> Some(
            m.mint_port,
        ) == text::parsed_u16(envfile::last_value(env@, "MINT_PORT"@)->0)),
{
}

/// A change prefers what the console has: its domain, and the operator's proxy
/// only where there is none and the web's ports are taken.
pub proof fn law_preferred_access(env: EnvFile, ports_busy: bool, r: AccessMode)
    requires
        call_ensures(preferred_access, (&env, ports_busy), r),
    ensures
        r != AccessMode::PlainHttp,
        !ports_busy ==> r == AccessMode::DomainTls,
        envfile::last_value(env@, "CONSOLE_DOMAIN"@) matches Some(domain) ==> (domain.len() > 0
            ==> r == AccessMode::DomainTls),
        envfile::last_value(env@, "CONSOLE_DOMAIN"@) is None && ports_busy ==> r
            == AccessMode::BehindProxy,
{
    reveal_strlit("");
}

/// The place of a step in the order of steps.
pub open spec fn domain_rank(step: DomainStep) -> int {
    match step {
        DomainStep::TakeLock => 0,
        DomainStep::ReadEnv => 1,
        DomainStep::Settle => 2,
        DomainStep::SaveEnv => 3,
        DomainStep::SetEmail => 4,
        DomainStep::SetMintSite => 5,
        DomainStep::WriteSnippets => 6,
        DomainStep::BringUp => 7,
        DomainStep::AwaitConsole => 8,
        DomainStep::AwaitCertificate => 9,
        DomainStep::Done => 10,
        DomainStep::Unchanged => -1,
        DomainStep::Failed => -1,
    }
}

/// A yes leads on to the next step, over the snippets except for the operator's
/// own proxy, and over the certificate except where the operator waits for one.
/// A no ends the change: with nothing changed up to the saving of the settings,
/// and as failed behind it. Only the certificate need not come.
pub proof fn law_change_goes_step_by_step(run: DomainRun, yes: bool)
    requires
        run.step is WriteSnippets ==> run.access == AccessMode::BehindProxy,
    ensures
        ({
            let (k, n) = (domain_rank(run.step), domain_rank(domain_next(run, yes).step));
            let next = domain_next(run, yes);
            &&& next.access == run.access && next.interactive == run.interactive
            &&& k == 9 ==> n == 10
            &&& k == 10 ==> n == 10
            &&& 0 <= k < 9 && !yes ==> next.step == (if k <= 3 {
                DomainStep::Unchanged
            } else {
                DomainStep::Failed
            })
            &&& 0 <= k < 9 && yes && k != 5 && k != 8 ==> n == k + 1
            &&& k == 5 && yes ==> (next.step is WriteSnippets <==> run.access
                == AccessMode::BehindProxy)
            &&& k == 5 && yes ==> next.step is WriteSnippets || next.step is BringUp
            &&& k == 8 && yes ==> (next.step is AwaitCertificate <==> run.interactive && run.access
                == AccessMode::DomainTls)
            &&& k == 8 && yes ==> next.step is AwaitCertificate || next.step is Done
            &&& k == -1 ==> next.step == run.step
        }),
{
}

/// What is refused is refused for its reason: a proxy without a hostname, no
/// request at all, a hostname that is none, and a bundled mint without one.
pub proof fn law_why_flags_are_refused(
    args: DomainArgs,
    env: EnvFile,
    console_ok: bool,
    mint_ok: bool,
    message: String,
)
    requires
        call_ensures(
            domain_from_flags,
            (&args, &env, console_ok, mint_ok),
            Err::<DomainChange, String>(message),
        ),
    ensures
        ({
            let named = args.console_domain is Some && args.console_domain->0@.len() > 0;
            &&& args.behind_proxy && !named ==> message@
                == "--behind-proxy needs --console-domain"@
            &&& !args.behind_proxy && !named ==> message@
                == "pass --console-domain <d>, --plain-http, or --behind-proxy (with --console-domain)"@
            &&& named && !console_ok ==> message@ == "--console-domain "@ + args.console_domain->0@
                + " is not a valid hostname"@
            &&& named && console_ok && args.mint_domain is Some && args.mint_domain->0@.len() == 0
                ==> message@
                == "this install bundles a mint — pass --mint-domain <hostname> as well"@
            &&& named && console_ok && args.mint_domain is Some && args.mint_domain->0@.len() > 0
                ==> message@ == "--mint-domain "@ + args.mint_domain->0@
                + " is not a valid hostname"@
        }),
{
}

/// The console's hostname, as far as there is one, is told; the mint's is the
/// one that was asked for, and else the one that it has.
pub proof fn law_what_the_console_has(
    args: DomainArgs,
    env: EnvFile,
    told: String,
    mint: String,
    q: DomainQuestions,
)
    requires
        call_ensures(current_access, (&env,), told),
        call_ensures(mint_domain_preset, (&args, &env), mint),
        call_ensures(domain_questions, (&args, &env), q),
    ensures
        envfile::last_value(env@, "CONSOLE_DOMAIN"@) is None ==> told@
            == "Currently: plain HTTP (no domain)."@,
        envfile::last_value(env@, "CONSOLE_DOMAIN"@) matches Some(domain) ==> (domain.len() > 0
            ==> told@ == "Currently: https://"@ + domain),
        args.mint_domain matches Some(domain) ==> mint@ == domain@,
        args.mint_domain is None ==> (envfile::last_value(env@, "MINT_DOMAIN"@) matches Some(domain)
            ==> mint@ == domain),
        q.step is AskAccess,
        q.console_given <==> args.console_domain is Some && args.console_domain->0@.len() > 0,
        q.has_mint == ops::profile_on(env@, "mint"@),
{
    reveal_strlit("");
}

/// The questions go by what was chosen: plain HTTP needs none further; otherwise
/// the console's hostname is asked for unless it was given, then a bundled
/// mint's unless a usable one was given, and with TLS the records are looked at.
/// What is not answered leaves the change unsettled.
pub proof fn law_questions_go_by_the_choice(q: DomainQuestions, answer: Answer, next: DomainQuestions)
    requires
        call_ensures(DomainQuestions::next, (q, answer), next),
    ensures
        next.console_given == q.console_given && next.has_mint == q.has_mint,
        ({
            let yes = answer == Answer::Yes;
            let looks = |n: DomainQuestions|
                if n.chosen == AccessMode::DomainTls {
                    n.step is ConfirmDns
                } else {
                    n.step is Settled
                };
            match q.step {
                DomainQuestion::AskAccess => match answer {
                    Answer::Access(access) => {
                        &&& next.chosen == access && next.settled == access
                        &&& access == AccessMode::PlainHttp ==> next.step is Settled
                        &&& access != AccessMode::PlainHttp && !q.console_given ==> next.step
                            is AskConsoleDomain
                        &&& access != AccessMode::PlainHttp && q.console_given && q.has_mint
                            ==> next.step is MintPreset
                        &&& access != AccessMode::PlainHttp && q.console_given && !q.has_mint
                            ==> looks(next)
                    },
                    _ => next.step is Unsettled,
                },
                DomainQuestion::AskConsoleDomain => {
                    &&& yes && q.has_mint ==> next.step is MintPreset
                    &&& yes && !q.has_mint ==> looks(next)
                    &&& !yes ==> next.step is Unsettled
                    &&& next.chosen == q.chosen && next.settled == q.settled
                },
                DomainQuestion::MintPreset => {
                    &&& yes ==> looks(next)
                    &&& answer == Answer::No ==> next.step is AskMintDomain
                    &&& next.chosen == q.chosen && next.settled == q.settled
                },
                DomainQuestion::AskMintDomain => {
                    &&& yes ==> looks(next)
                    &&& !yes ==> next.step is Unsettled
                    &&& next.chosen == q.chosen && next.settled == q.settled
                },
                DomainQuestion::ConfirmDns => {
                    &&& next.chosen == q.chosen
                    &&& answer == Answer::Access(AccessMode::DomainTls) ==> next.step is Settled
                        && next.settled == AccessMode::DomainTls
                    &&& answer == Answer::Access(AccessMode::PlainHttp) ==> next.step is Settled
                        && next.settled == AccessMode::PlainHttp
                    &&& !(answer is Access) ==> next.step is Unsettled
                },
                DomainQuestion::Settled => next == q,
                DomainQuestion::Unsettled => next.step is Unsettled,
            }
        }),
{
}

/// A change begins with the lock, and brings the stack up in the background,
/// without services that are no longer there.
pub proof fn law_where_a_change_begins(
    interactive: bool,
    r: DomainRun,
    access: AccessMode,
    settled: DomainRun,
    up: Vec<String>,
)
    requires
        call_ensures(domain_command, (interactive,), r),
        call_ensures(DomainRun::settled, (r, access), settled),
        call_ensures(up_args, (), up),
    ensures
        r.step is TakeLock,
        r.interactive == interactive,
        settled.access == access && settled.step == r.step && settled.interactive == interactive,
        text::texts(up@) == seq!["up"@, "-d"@, "--remove-orphans"@],
{
}

/// Snippets for a proxy are for the hostnames and ports that were given, and for
/// a mint exactly where there is one.
pub proof fn law_snippets_are_for_what_was_given(
    install_dir: &str,
    console_domain: &str,
    ui_port: u16,
    mint_domain: &str,
    mint_port: u16,
    both: InstallPlan,
    one: InstallPlan,
)
    requires
        call_ensures(
            snippet_plan,
            (install_dir, console_domain, ui_port, Some((mint_domain, mint_port))),
            both,
        ),
        call_ensures(snippet_plan, (install_dir, console_domain, ui_port, None), one),
    ensures
        one.mint is None,
        both.mint is Some,
        both.mint->0.mint_domain@ == mint_domain@ && both.mint->0.mint_port == mint_port,
        one.console_domain@ == console_domain@ && both.console_domain@ == console_domain@,
        one.ui_port == ui_port && both.ui_port == ui_port,
        one.install_dir@ == install_dir@ && both.install_dir@ == install_dir@,
        one.access == AccessMode::BehindProxy && both.access == AccessMode::BehindProxy,
{
}

} // verus!
