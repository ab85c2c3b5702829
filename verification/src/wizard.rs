//! The guided installer: its questions, what it takes for an answer, and the
//! plan that the answers make.
//!
//! It runs whenever install has a terminal and no `--yes`; every question has a
//! flag twin, so that automation never lands here. The first substantive
//! question picks the shape: processor and a new bundled mint, or processor
//! only.

use crate::args::InstallArgs;
use crate::install;
use crate::install::{AccessMode, AttachPlan, InstallPlan, ALL_INTERFACES, INTERNAL_GRPC, LOOPBACK};
use crate::mint;
use crate::text;
use vstd::prelude::*;

verus! {

// ---------------------------------------------------------------------------
// what is taken for an answer
// ---------------------------------------------------------------------------
pub const DIRECTORY_HINT: &'static str = "enter a directory path";

pub fn check_directory(value: &str) -> (r: Result<(), &'static str>)
    ensures
        match r {
            Ok(_) => text::trimmed(value@).len() > 0,
            Err(hint) => text::trimmed(value@).len() == 0 && hint@ == DIRECTORY_HINT@,
        },
{
    if text::trim(value).as_str().is_empty() {
        Err(DIRECTORY_HINT)
    } else {
        Ok(())
    }
}

pub const PORT_HINT: &'static str = "enter a port number (1024-65535)";

/// A port that anybody may listen on.
pub open spec fn entered_port(value: Seq<char>) -> Option<u16> {
    match text::parsed_u16(text::trimmed(value)) {
        Some(port) => if port >= 1024 {
            Some(port)
        } else {
            None
        },
        None => None,
    }
}

pub fn check_port(value: &str) -> (r: Result<u16, &'static str>)
    ensures
        match r {
            Ok(port) => entered_port(value@) == Some(port),
            Err(hint) => entered_port(value@) is None && hint@ == PORT_HINT@,
        },
{
    match text::parse_u16(text::trim(value).as_str()) {
        Some(port) => if port >= 1024 {
            Ok(port)
        } else {
            Err(PORT_HINT)
        },
        None => Err(PORT_HINT),
    }
}

/// The port that is offered in place of one that is taken.
pub fn alternative_port(port: u16) -> (r: u16)
    ensures
        r == (if port + 10000 <= u16::MAX {
            port + 10000
        } else {
            u16::MAX as int
        }),
{
    if port <= 55535 {
        port + 10000
    } else {
        u16::MAX
    }
}

/// What is offered in place of a port is taken for an answer.
pub proof fn law_alternative_port_is_accepted(port: u16)
    ensures
        entered_port(
            text::decimal(
                (if port + 10000 <= u16::MAX {
                    port + 10000
                } else {
                    u16::MAX as int
                }) as nat,
            ),
        ) is Some,
{
    let other: u16 = if port + 10000 <= u16::MAX {
        (port + 10000) as u16
    } else {
        u16::MAX
    };
    text::law_port_reads_back(other);
    text::lemma_decimal(other as nat);
    let s = text::decimal(other as nat);
    assert('0' <= s[0] <= '9' && '0' <= s[s.len() - 1] <= '9');
    install::lemma_untrimmed(s);
}

pub const UNIT_HINT: &'static str = "lowercase letters, digits, - and _ only (e.g. \"ora\")";

pub fn check_unit(value: &str) -> (r: Result<(), &'static str>)
    ensures
        match r {
            Ok(_) => mint::checked_unit(value@) is Ok,
            Err(hint) => mint::checked_unit(value@) is Err && hint@ == UNIT_HINT@,
        },
{
    match mint::validate_unit_slug(value) {
        Ok(_) => Ok(()),
        Err(_) => Err(UNIT_HINT),
    }
}

/// What to warn of where a unit means something else to wallets.
pub fn reserved_unit_warning(unit: &str) -> (r: Option<String>)
    ensures
        text::opt(r) == (if mint::reserved_unit(unit@) {
            Some(
                "\""@
                    + unit@
                    + "\" is a unit wallets treat specially — a name that is unambiguously yours avoids confusion."@,
            )
        } else {
            None
        }),
{
    if mint::is_reserved_unit(unit) {
        Some(
            "\"".to_owned()
                .concat(unit)
                .concat("\" is a unit wallets treat specially — a name that is unambiguously yours avoids confusion."),
        )
    } else {
        None
    }
}

pub const CONSOLE_DOMAIN_HINT: &'static str = "enter a bare hostname like console.example.org (no https://, lowercase)";

pub const MINT_DOMAIN_HINT: &'static str = "enter a bare hostname like mint.example.org (no https://, lowercase)";

pub const MINT_DOMAIN_TAKEN: &'static str = "the mint needs its own hostname, different from the console's";

/// `valid` says whether the trimmed answer is a hostname.
pub fn check_console_domain(valid: bool) -> (r: Result<(), &'static str>)
    ensures
        match r {
            Ok(_) => valid,
            Err(hint) => !valid && hint@ == CONSOLE_DOMAIN_HINT@,
        },
{
    if valid {
        Ok(())
    } else {
        Err(CONSOLE_DOMAIN_HINT)
    }
}

pub fn check_mint_domain(value: &str, valid: bool, console_domain: &str) -> (r: Result<
    (),
    &'static str,
>)
    ensures
        match r {
            Ok(_) => valid && text::trimmed(value@) != console_domain@,
            Err(hint) => if valid {
                text::trimmed(value@) == console_domain@ && hint@ == MINT_DOMAIN_TAKEN@
            } else {
                hint@ == MINT_DOMAIN_HINT@
            },
        },
{
    if !valid {
        Err(MINT_DOMAIN_HINT)
    } else if text::same(text::trim(value).as_str(), console_domain) {
        Err(MINT_DOMAIN_TAKEN)
    } else {
        Ok(())
    }
}

/// Whether the console's hostname is already known.
pub fn collect_console_domain(preset: &str) -> (r: bool)
    ensures
        r == (preset@.len() > 0),
{
    !preset.is_empty()
}

/// Whether the mint's hostname is already known: not where it is the console's.
pub fn collect_mint_domain(preset: &str, console_domain: &str) -> (r: bool)
    ensures
        r == (preset@.len() > 0 && preset@ != console_domain@),
{
    !preset.is_empty() && !text::same(preset, console_domain)
}

pub const EMAIL_HINT: &'static str = "enter an email address or leave empty";

/// Nothing, or something with an at sign and without white space.
pub open spec fn email_like(value: Seq<char>) -> bool {
    let v = text::trimmed(value);
    v.len() == 0 || (v.contains('@') && forall|i: int|
        0 <= i < v.len() ==> !text::white(#[trigger] v[i]))
}

pub fn check_email(value: &str) -> (r: Result<(), &'static str>)
    ensures
        match r {
            Ok(_) => email_like(value@),
            Err(hint) => !email_like(value@) && hint@ == EMAIL_HINT@,
        },
{
    let v = text::trim(value);
    let chars = text::to_chars(v.as_str());
    if chars.len() == 0 {
        return Ok(());
    }
    let mut at: bool = false;
    let mut i: usize = 0;
    while i < chars.len()
        invariant
            i <= chars@.len(),
            chars@ == text::trimmed(value@),
            chars@.len() > 0,
            forall|k: int| 0 <= k < i ==> !text::white(#[trigger] chars@[k]),
            at <==> exists|k: int| 0 <= k < i && chars@[k] == '@',
        decreases chars@.len() - i,
    {
        if text::is_white(chars[i]) {
            return Err(EMAIL_HINT);
        }
        if chars[i] == '@' {
            at = true;
        }
        i += 1;
    }
    if at {
        Ok(())
    } else {
        Err(EMAIL_HINT)
    }
}

pub const URL_HINT: &'static str = "enter a full URL, e.g. http://192.168.1.10:3338";

pub open spec fn url_like(value: Seq<char>) -> bool {
    text::begins(text::trimmed(value), "http://"@) || text::begins(
        text::trimmed(value),
        "https://"@,
    )
}

pub fn check_url(value: &str) -> (r: Result<(), &'static str>)
    ensures
        match r {
            Ok(_) => url_like(value@),
            Err(hint) => !url_like(value@) && hint@ == URL_HINT@,
        },
{
    let v = text::trim(value);
    if text::starts_with(v.as_str(), "http://") || text::starts_with(v.as_str(), "https://") {
        Ok(())
    } else {
        Err(URL_HINT)
    }
}

// ---------------------------------------------------------------------------
// what is said and offered
// ---------------------------------------------------------------------------
/// Whether the installation of Docker is offered.
pub fn ensure_docker_interactive(available: bool, root: bool, linux: bool) -> (r: bool)
    ensures
        r == (!available && root && linux),
{
    !available && root && linux
}

pub fn existing_warning(install_dir: &str) -> (r: String)
    ensures
        r@ == "An installation already exists in "@ + install_dir@,
{
    "An installation already exists in ".to_owned().concat(install_dir)
}

pub const NO_PUBLIC_ADDRESS: &'static str = "Public IP: could not detect (offline or LAN-only) — continuing";

/// What is said of the server's public addresses.
pub fn address_line(v4: Option<&str>, v6: Option<&str>) -> (r: String)
    ensures
        r@ == (match (v4, v6) {
            (Some(a), Some(b)) => "Public IP: "@ + a@ + "  (IPv6: "@ + b@ + ")"@,
            (Some(a), None) => "Public IP: "@ + a@,
            (None, Some(b)) => "Public IP: "@ + b@ + " (IPv6 only)"@,
            (None, None) => NO_PUBLIC_ADDRESS@,
        }),
{
    match (v4, v6) {
        (Some(a), Some(b)) => "Public IP: ".to_owned()
            .concat(a)
            .concat("  (IPv6: ")
            .concat(b)
            .concat(")"),
        (Some(a), None) => "Public IP: ".to_owned().concat(a),
        (None, Some(b)) => "Public IP: ".to_owned().concat(b).concat(" (IPv6 only)"),
        (None, None) => NO_PUBLIC_ADDRESS.to_owned(),
    }
}

pub fn port_taken(port: u16, label: &str) -> (r: String)
    ensures
        r@ == "Port "@
            + text::decimal(port as nat)
            + " (for the "@
            + label@
            + ") is already in use."@,
{
    "Port ".to_owned()
        .concat(text::to_decimal(port as u64).as_str())
        .concat(" (for the ")
        .concat(label)
        .concat(") is already in use.")
}

pub fn grpc_exposed(grpc_port: u16) -> (r: String)
    ensures
        r@ == "The payment gRPC (port "@
            + text::decimal(grpc_port as nat)
            + ") carries no authentication.\nRestrict it to your private network with a firewall rule, or\nenable mutual TLS (GRPC_TLS_DIR in .env.example)."@,
{
    "The payment gRPC (port ".to_owned()
        .concat(text::to_decimal(grpc_port as u64).as_str())
        .concat(") carries no authentication.\nRestrict it to your private network with a firewall rule, or\nenable mutual TLS (GRPC_TLS_DIR in .env.example).")
}

/// Where the payment gRPC is bound: loopback with a bundled mint, which dials
/// it over the compose network, else what was asked for, else by where the
/// operator's mint runs.
pub open spec fn grpc_bind_of(
    with_mint: bool,
    asked: Option<Seq<char>>,
    other_machine: bool,
) -> Seq<char> {
    if with_mint {
        LOOPBACK@
    } else {
        match asked {
            Some(addr) => if addr.len() > 0 {
                addr
            } else if other_machine {
                ALL_INTERFACES@
            } else {
                LOOPBACK@
            },
            None => if other_machine {
                ALL_INTERFACES@
            } else {
                LOOPBACK@
            },
        }
    }
}

pub fn grpc_bind(with_mint: bool, asked: &Option<String>, other_machine: bool) -> (r: String)
    ensures
        r@ == grpc_bind_of(with_mint, text::opt(*asked), other_machine),
{
    let by_place = if other_machine {
        ALL_INTERFACES
    } else {
        LOOPBACK
    };
    if with_mint {
        LOOPBACK.to_owned()
    } else {
        match asked {
            Some(addr) => if addr.as_str().is_empty() {
                by_place.to_owned()
            } else {
                addr.clone()
            },
            None => by_place.to_owned(),
        }
    }
}

pub const PORTS_BUSY_INFO: &'static str = "Something on this server already listens on port 80/443 —\nan existing reverse proxy, most likely. The console can run\nbehind it instead of bringing its own.";

/// The words of the question how the server is reached.
pub struct AccessQuestion {
    pub info: Option<&'static str>,
    pub question: &'static str,
    pub tls_label: &'static str,
    pub tls_hint: &'static str,
    pub proxy_label: &'static str,
    pub preferred: AccessMode,
}

pub fn access_question(with_mint: bool, ports_busy: bool) -> (r: AccessQuestion)
    ensures
        r.info is Some <==> ports_busy,
        r.info matches Some(info) ==> info@ == PORTS_BUSY_INFO@,
        r.question@ == (if with_mint {
            "How should operators (and wallets) reach this server?"@
        } else {
            "How should operators reach the console?"@
        }),
        r.tls_label@ == (if ports_busy {
            "Domain with automatic HTTPS (needs ports 80/443)"@
        } else {
            "Domain with automatic HTTPS (recommended)"@
        }),
        r.tls_hint@ == (if with_mint {
            "bundled Caddy obtains certificates for the console and mint hostnames"@
        } else {
            "bundled Caddy obtains certificates for the console hostname"@
        }),
        r.proxy_label@ == (if ports_busy {
            "Behind my own reverse proxy (recommended here)"@
        } else {
            "Behind my own reverse proxy"@
        }),
        r.preferred == (if ports_busy {
            AccessMode::BehindProxy
        } else {
            AccessMode::DomainTls
        }),
{
    AccessQuestion {
        info: if ports_busy {
            Some(PORTS_BUSY_INFO)
        } else {
            None
        },
        question: if with_mint {
            "How should operators (and wallets) reach this server?"
        } else {
            "How should operators reach the console?"
        },
        tls_label: if ports_busy {
            "Domain with automatic HTTPS (needs ports 80/443)"
        } else {
            "Domain with automatic HTTPS (recommended)"
        },
        tls_hint: if with_mint {
            "bundled Caddy obtains certificates for the console and mint hostnames"
        } else {
            "bundled Caddy obtains certificates for the console hostname"
        },
        proxy_label: if ports_busy {
            "Behind my own reverse proxy (recommended here)"
        } else {
            "Behind my own reverse proxy"
        },
        preferred: if ports_busy {
            AccessMode::BehindProxy
        } else {
            AccessMode::DomainTls
        },
    }
}

// ---------------------------------------------------------------------------
// the plan
// ---------------------------------------------------------------------------
/// What was answered about a bundled mint.
pub struct MintAnswers {
    pub unit: String,
    pub mint_domain: String,
    pub mint_port: u16,
    /// The address that wallets use, where it had to be asked for.
    pub entered_url: Option<String>,
}

/// What the questions were answered with, and what the host says.
pub struct Answers {
    pub install_dir: String,
    pub version: String,
    pub access: AccessMode,
    pub console_domain: String,
    pub acme_email: String,
    pub ui_port: u16,
    pub grpc_bind_addr: String,
    pub grpc_port: u16,
    pub public_ip: Option<String>,
    /// A fresh passphrase for the first sign-in.
    pub admin_password: String,
    pub mint: Option<MintAnswers>,
}

/// Whether the address that wallets use has to be asked for.
pub open spec fn url_is_asked(
    mint_url: Option<Seq<char>>,
    access: AccessMode,
    public_ip: Option<Seq<char>>,
) -> bool {
    mint_url is None && access == AccessMode::PlainHttp && public_ip is None
}

/// The wallet-facing URL of the bundled mint.
pub open spec fn wizard_url(args: InstallArgs, answers: Answers, m: MintAnswers) -> Seq<char> {
    if url_is_asked(text::opt(args.mint_url), answers.access, text::opt(answers.public_ip)) {
        install::unslashed(text::trimmed(text::or_empty(m.entered_url)))
    } else {
        install::bundled_url(
            text::opt(args.mint_url),
            answers.access,
            m.mint_domain@,
            text::or_empty(answers.public_ip),
            m.mint_port,
        )
    }
}

/// That a plan is the one that the answers make.
pub open spec fn answers_meet(args: InstallArgs, answers: Answers, plan: InstallPlan) -> bool {
    &&& plan.install_dir@ == answers.install_dir@
    &&& plan.version@ == answers.version@
    &&& plan.no_pull == args.no_pull
    &&& plan.access == answers.access
    &&& plan.console_domain@ == (if answers.access == AccessMode::PlainHttp {
        Seq::empty()
    } else {
        answers.console_domain@
    })
    &&& plan.acme_email@ == answers.acme_email@
    &&& plan.ui_port == answers.ui_port
    &&& plan.bind_addr@ == text::or_text(args.bind, install::bind_of(answers.access))
    &&& plan.grpc_bind_addr@ == answers.grpc_bind_addr@
    &&& plan.grpc_port == answers.grpc_port
    &&& text::opt(plan.public_ip) == text::opt(answers.public_ip)
    &&& plan.admin_password@ == answers.admin_password@
    &&& match (answers.mint, plan.attach, plan.mint) {
        (Some(m), Some(attach), Some(bundled)) => {
            &&& install::attaches(
                attach,
                m.unit@,
                wizard_url(args, answers, m),
                INTERNAL_GRPC@,
            )
            &&& install::bundles(
                bundled,
                answers.access,
                m.mint_domain@,
                wizard_url(args, answers, m),
                m.mint_port,
                text::opt(args.mint_version),
            )
        },
        (None, None, None) => true,
        _ => false,
    }
}

fn render_wizard_url(args: &InstallArgs, answers: &Answers, m: &MintAnswers) -> (r: String)
    ensures
        r@ == wizard_url(*args, *answers, *m),
{
    if args.mint_url.is_none() && answers.access == AccessMode::PlainHttp
        && answers.public_ip.is_none() {
        let entered = text::text_or_empty(&m.entered_url);
        text::trim_end_of(text::trim(entered.as_str()).as_str(), '/')
    } else {
        let host = text::text_or_empty(&answers.public_ip);
        install::render_bundled_url(
            &args.mint_url,
            answers.access,
            m.mint_domain.as_str(),
            host.as_str(),
            m.mint_port,
        )
    }
}

/// The plan that the answers make, with a fresh seed for a bundled mint.
pub fn plan_from_answers(args: &InstallArgs, answers: &Answers) -> (r: InstallPlan)
    ensures
        answers_meet(*args, *answers, r),
{
    let (attach, bundled) = match &answers.mint {
        Some(m) => {
            let mint_url = render_wizard_url(args, answers, m);
            let bundled = install::bundled_mint(
                answers.access,
                m.mint_domain.as_str(),
                mint_url.as_str(),
                m.mint_port,
                &args.mint_version,
            );
            let attach = AttachPlan {
                unit: m.unit.clone(),
                mint_url,
                advertised_grpc: INTERNAL_GRPC.to_owned(),
            };
            (Some(attach), Some(bundled))
        },
        None => (None, None),
    };
    let public_ip = match &answers.public_ip {
        Some(ip) => Some(ip.clone()),
        None => None,
    };
    InstallPlan {
        install_dir: answers.install_dir.clone(),
        version: answers.version.clone(),
        no_pull: args.no_pull,
        access: answers.access,
        console_domain: if answers.access == AccessMode::PlainHttp {
            String::new()
        } else {
            answers.console_domain.clone()
        },
        acme_email: answers.acme_email.clone(),
        ui_port: answers.ui_port,
        bind_addr: text::text_or(&args.bind, install::bind_for(answers.access)),
        grpc_bind_addr: answers.grpc_bind_addr.clone(),
        grpc_port: answers.grpc_port,
        public_ip,
        admin_password: answers.admin_password.clone(),
        attach,
        mint: bundled,
    }
}

/// Answers that were collected by the wizard's rules give a coherent plan: a
/// hostname for the console wherever there is TLS, a different one for the
/// mint, and the payment gRPC on loopback with a bundled mint.
pub proof fn law_answers_give_coherent_plans(
    args: InstallArgs,
    answers: Answers,
    plan: InstallPlan,
)
    requires
        answers_meet(args, answers, plan),
        answers.access != AccessMode::PlainHttp ==> answers.console_domain@.len() > 0,
        answers.mint matches Some(m) ==> answers.grpc_bind_addr@ == LOOPBACK@ && (answers.access
            != AccessMode::PlainHttp ==> m.mint_domain@.len() > 0 && m.mint_domain@
            != answers.console_domain@),
    ensures
        install::coherent(plan),
{
}

/// The wizard's plan is what was answered: the same reach for wallets as with
/// flags, at the mint's own hostname over HTTPS in domain and proxy mode alike,
/// at this server's address in plain HTTP, and else at the address that was given
/// or entered. The mint is attached under it, over the internal link.
pub proof fn law_answers_reach_the_mint(args: InstallArgs, answers: Answers, plan: InstallPlan)
    requires
        call_ensures(plan_from_answers, (&args, &answers), plan),
    ensures
        plan.mint is Some <==> answers.mint is Some,
        plan.attach is Some <==> answers.mint is Some,
        plan.mint matches Some(m) ==> {
            let a = answers.mint->0;
            &&& m.mint_port == a.mint_port
            &&& plan.attach->0.unit@ == a.unit@
            &&& plan.attach->0.mint_url@ == m.mint_url@
            &&& plan.attach->0.advertised_grpc@ == "processor:50051"@
            &&& args.mint_version matches Some(tag) ==> m.mintd_version@ == tag@
            &&& args.mint_version is None ==> m.mintd_version@ == "0.18.0-rc.0"@
            &&& plan.access != AccessMode::PlainHttp ==> m.mint_domain@ == a.mint_domain@
                && m.mint_bind_addr@ == "127.0.0.1"@
            &&& plan.access == AccessMode::PlainHttp ==> m.mint_domain@.len() == 0
                && m.mint_bind_addr@ == "0.0.0.0"@
            &&& args.mint_url matches Some(url) ==> install::bare_of(m.mint_url@, url@)
            &&& args.mint_url is None && (plan.access != AccessMode::PlainHttp
                || answers.public_ip is Some) ==> install::wallets_reach(
                m,
                plan.access,
                answers.public_ip->0@,
            )
            &&& args.mint_url is None && plan.access == AccessMode::PlainHttp && answers.public_ip
                is None && a.entered_url is Some ==> install::bare_of(
                m.mint_url@,
                text::trimmed(a.entered_url->0@),
            )
        },
{
    if let Some(url) = args.mint_url {
        install::lemma_unslashed(url@);
    }
    if let Some(a) = answers.mint {
        install::lemma_unslashed(text::trimmed(text::or_empty(a.entered_url)));
    }
}

/// The rest of the plan is what was answered too.
pub proof fn law_answers_are_kept(args: InstallArgs, answers: Answers, plan: InstallPlan)
    requires
        call_ensures(plan_from_answers, (&args, &answers), plan),
    ensures
        plan.install_dir@ == answers.install_dir@,
        plan.version@ == answers.version@,
        plan.no_pull == args.no_pull,
        plan.access == answers.access,
        plan.access != AccessMode::PlainHttp ==> plan.console_domain@ == answers.console_domain@,
        plan.access == AccessMode::PlainHttp ==> plan.console_domain@.len() == 0,
        plan.acme_email@ == answers.acme_email@,
        plan.ui_port == answers.ui_port,
        plan.grpc_port == answers.grpc_port,
        plan.grpc_bind_addr@ == answers.grpc_bind_addr@,
        plan.admin_password@ == answers.admin_password@,
        text::opt(plan.public_ip) == text::opt(answers.public_ip),
        args.bind matches Some(addr) ==> plan.bind_addr@ == addr@,
        args.bind is None && plan.access == AccessMode::PlainHttp ==> plan.bind_addr@ == "0.0.0.0"@,
        args.bind is None && plan.access != AccessMode::PlainHttp ==> plan.bind_addr@
            == "127.0.0.1"@,
{
}

/// The payment gRPC is published beyond loopback only without a bundled mint, and
/// only where that was asked for or the operator's mint runs elsewhere.
pub proof fn law_grpc_stays_on_loopback(
    with_mint: bool,
    asked: Option<String>,
    other_machine: bool,
    r: String,
)
    requires
        call_ensures(grpc_bind, (with_mint, &asked, other_machine), r),
    ensures
        with_mint ==> r@ == "127.0.0.1"@,
        !with_mint && asked is Some && asked->0@.len() > 0 ==> r@ == asked->0@,
        !with_mint && !(asked is Some && asked->0@.len() > 0) && other_machine ==> r@
            == "0.0.0.0"@,
        !with_mint && !(asked is Some && asked->0@.len() > 0) && !other_machine ==> r@
            == "127.0.0.1"@,
{
}

/// A port is taken for an answer exactly where it is a number that anybody may
/// listen on, and it is that number.
pub proof fn law_entered_ports(port: u16, value: &str, r: Result<u16, &'static str>)
    requires
        value@ == text::decimal(port as nat),
        call_ensures(check_port, (value,), r),
    ensures
        r is Ok <==> port >= 1024,
        r matches Ok(p) ==> p == port,
{
    text::law_port_reads_back(port);
    text::lemma_decimal(port as nat);
    let s = value@;
    assert('0' <= s[0] <= '9' && '0' <= s[s.len() - 1] <= '9');
    install::lemma_untrimmed(s);
}

/// The port that is offered is another one that anybody may listen on.
pub proof fn law_alternative_port_is_another(port: u16, r: u16)
    requires
        call_ensures(alternative_port, (port,), r),
    ensures
        r >= 1024,
        port != 65535 ==> r > port,
{
}

/// The mint's hostname is never the console's, neither as an answer nor as a
/// preset.
pub proof fn law_two_hostnames(
    value: &str,
    valid: bool,
    console_domain: &str,
    checked: Result<(), &'static str>,
    known: bool,
)
    requires
        call_ensures(check_mint_domain, (value, valid, console_domain), checked),
        call_ensures(collect_mint_domain, (value, console_domain), known),
    ensures
        checked is Ok <==> valid && text::trimmed(value@) != console_domain@,
        known <==> value@.len() > 0 && value@ != console_domain@,
{
}

/// An account may be left empty; otherwise it has an at sign and no white space
/// in it. An address names its scheme.
pub proof fn law_accounts_and_addresses(
    value: &str,
    email: Result<(), &'static str>,
    url: Result<(), &'static str>,
)
    requires
        call_ensures(check_email, (value,), email),
        call_ensures(check_url, (value,), url),
    ensures
        text::trimmed(value@).len() == 0 ==> email is Ok && url is Err,
        text::trimmed(value@).len() > 0 && !text::trimmed(value@).contains('@') ==> email is Err,
        forall|i: int|
            0 <= i < text::trimmed(value@).len() && text::white(
                #[trigger] text::trimmed(value@)[i],
            ) ==> email is Err,
        text::trimmed(value@).contains('@') && (forall|i: int|
            0 <= i < text::trimmed(value@).len() ==> !text::white(
                #[trigger] text::trimmed(value@)[i],
            )) ==> email is Ok,
        url is Ok ==> text::begins(text::trimmed(value@), "http"@),
        text::begins(text::trimmed(value@), "http://"@) ==> url is Ok,
        text::begins(text::trimmed(value@), "https://"@) ==> url is Ok,
{
    let v = text::trimmed(value@);
    reveal_strlit("http://");
    reveal_strlit("https://");
    reveal_strlit("http");
    if text::begins(v, "http://"@) {
        assert(v.take(4) =~= "http://"@.take(4));
        assert("http://"@.take(4) =~= "http"@);
        assert forall|i: int| 0 <= i < 4 implies v[i] == "http"@[i] by {
            assert(v.take(7)[i] == v[i]);
        }
        assert(v.take(4) =~= "http"@);
    }
    if text::begins(v, "https://"@) {
        assert forall|i: int| 0 <= i < 4 implies v[i] == "http"@[i] by {
            assert(v.take(8)[i] == v[i]);
        }
        assert(v.take(4) =~= "http"@);
    }
}

/// The offer to install Docker is made exactly to root on Linux without it; the
/// proxy is preferred exactly where the web's ports are taken.
pub proof fn law_what_is_offered(
    available: bool,
    root: bool,
    linux: bool,
    offered: bool,
    with_mint: bool,
    ports_busy: bool,
    question: AccessQuestion,
)
    requires
        call_ensures(ensure_docker_interactive, (available, root, linux), offered),
        call_ensures(access_question, (with_mint, ports_busy), question),
    ensures
        offered <==> root && linux && !available,
        question.preferred == AccessMode::BehindProxy <==> ports_busy,
        question.preferred != AccessMode::PlainHttp,
        question.info is Some <==> ports_busy,
{
}

/// A directory is taken where it holds more than white space, a hostname where
/// it is a valid one, and a unit where the unit rule takes it. A hostname that
/// was given is not asked for.
pub proof fn law_which_entries_are_taken(
    value: &str,
    trimmed: String,
    dir: Result<(), &'static str>,
    unit: Result<(), &'static str>,
    slug: Result<String, String>,
    valid: bool,
    domain: Result<(), &'static str>,
    preset: bool,
)
    requires
        call_ensures(text::trim, (value,), trimmed),
        call_ensures(check_directory, (value,), dir),
        call_ensures(check_unit, (value,), unit),
        call_ensures(mint::validate_unit_slug, (value,), slug),
        call_ensures(check_console_domain, (valid,), domain),
        call_ensures(collect_console_domain, (value,), preset),
    ensures
        dir is Ok <==> trimmed@.len() > 0,
        unit is Ok <==> slug is Ok,
        domain is Ok <==> valid,
        preset <==> value@.len() > 0,
{
}

/// A unit is warned of exactly where it is reserved, and the warning names it.
pub proof fn law_reserved_units_are_warned_of(unit: &str, reserved: bool, r: Option<String>)
    requires
        call_ensures(mint::is_reserved_unit, (unit,), reserved),
        call_ensures(reserved_unit_warning, (unit,), r),
    ensures
        r is Some <==> reserved,
        r matches Some(warning) ==> text::found(warning@, unit@) is Some,
{
    if let Some(warning) = r {
        text::lemma_found_between(
            "\""@,
            unit@,
            "\" is a unit wallets treat specially — a name that is unambiguously yours avoids confusion."@,
        );
    }
}

/// The addresses that were found are shown, a port that is taken is named with
/// what it is for, and so is one that is open without authentication.
pub proof fn law_wizard_tells(
    v4: Option<&str>,
    v6: Option<&str>,
    address: String,
    port: u16,
    label: &str,
    taken: String,
    exposed: String,
    dir: &str,
    existing: String,
)
    requires
        call_ensures(address_line, (v4, v6), address),
        call_ensures(port_taken, (port, label), taken),
        call_ensures(grpc_exposed, (port,), exposed),
        call_ensures(existing_warning, (dir,), existing),
    ensures
        v4 matches Some(a) ==> text::found(address@, a@) is Some,
        v6 matches Some(b) ==> text::found(address@, b@) is Some,
        taken@ == "Port "@ + text::decimal(port as nat) + " (for the "@ + label@
            + ") is already in use."@,
        text::begins(exposed@, "The payment gRPC (port "@ + text::decimal(port as nat)),
        existing@ == "An installation already exists in "@ + dir@,
{
    let none = Seq::<char>::empty();
    match (v4, v6) {
        (Some(a), Some(b)) => {
            let rest = "  (IPv6: "@ + b@ + ")"@;
            assert(address@ =~= "Public IP: "@ + a@ + rest);
            text::lemma_found_between("Public IP: "@, a@, rest);
            let head = "Public IP: "@ + a@ + "  (IPv6: "@;
            assert(address@ =~= head + b@ + ")"@);
            text::lemma_found_between(head, b@, ")"@);
        },
        (Some(a), None) => {
            assert(address@ =~= "Public IP: "@ + a@ + none);
            text::lemma_found_between("Public IP: "@, a@, none);
        },
        (None, Some(b)) => {
            text::lemma_found_between("Public IP: "@, b@, " (IPv6 only)"@);
        },
        (None, None) => {},
    }
    let head = "The payment gRPC (port "@ + text::decimal(port as nat);
    assert(exposed@.take(head.len() as int) =~= head);
}

} // verus!
