//! Plan construction, and what an installation is made of.
//!
//! Two front ends produce the same `InstallPlan`: the guided wizard and the
//! pure-flag path. Two shapes: the processor only, with a mint that is attached
//! now or later, or the processor with a bundled mint that boots fully
//! connected.

use crate::args::InstallArgs;
use crate::compose;
use crate::compose::{CommandLine, Poll, Stack};
use crate::envfile;
use crate::envfile::EnvFile;
use crate::mint;
use crate::mint::{FileWrite, MintFiles};
use crate::paths;
use crate::preflight::PortStatus;
use crate::release;
use crate::release::ArtifactSource;
use crate::settings;
use crate::text;
use vstd::prelude::*;

verus! {

// ---------------------------------------------------------------------------
// the plan
// ---------------------------------------------------------------------------
#[derive(Debug, Clone, Copy, PartialEq, Eq, Structural)]
pub enum AccessMode {
    /// Bundled Caddy terminates TLS for the console domain.
    DomainTls,
    /// No proxy; the console port is exposed directly (LAN / testing).
    PlainHttp,
    /// The operator's own reverse proxy terminates TLS; we bind loopback and
    /// hand them a ready-made proxy snippet.
    BehindProxy,
}

/// The console's Mint-tab attachment pre-seeded at first boot (bundled installs
/// and headless --unit/--mint-url attaches). Lands in .env as the INITIAL_* keys
/// the processor consumes only while no setup.json exists.
pub struct AttachPlan {
    pub unit: String,
    pub mint_url: String,
    /// host[:port] the mint dials to reach this processor.
    pub advertised_grpc: String,
}

/// A bundled mint (compose profile "mint", official cashubtc/mintd image).
pub struct MintPlan {
    /// Public hostname (empty in plain-HTTP mode).
    pub mint_domain: String,
    /// The wallet-facing URL: also the [info].url in the mint's config and the
    /// processor's attached mint URL.
    pub mint_url: String,
    /// Host port for the mint's HTTP API.
    pub mint_port: u16,
    /// 127.0.0.1 behind Caddy/own proxy, 0.0.0.0 in plain-HTTP mode.
    pub mint_bind_addr: String,
    /// cashubtc/mintd image tag (pinned independently of the pecan VERSION).
    pub mintd_version: String,
    /// The mint's BIP39 seed: generated at plan time, written 0600, shown once
    /// in the finish screen.
    pub mnemonic: String,
}

pub struct InstallPlan {
    pub install_dir: String,
    pub version: String,
    pub no_pull: bool,
    pub access: AccessMode,
    pub console_domain: String,
    pub acme_email: String,
    pub ui_port: u16,
    pub bind_addr: String,
    /// Where the payment gRPC is published for the operator's mintd: loopback
    /// for a same-host (or bundled) mintd, 0.0.0.0 (plus operator firewalling
    /// or TLS) for one on another machine.
    pub grpc_bind_addr: String,
    pub grpc_port: u16,
    pub public_ip: Option<String>,
    pub admin_password: String,
    /// First-boot attachment (both shapes; None = attach later in the console).
    pub attach: Option<AttachPlan>,
    /// The bundled mint (None = processor only).
    pub mint: Option<MintPlan>,
}

pub const LOOPBACK: &'static str = "127.0.0.1";

pub const ALL_INTERFACES: &'static str = "0.0.0.0";

/// Where a bundled mint dials the processor: over the compose network.
pub const INTERNAL_GRPC: &'static str = "processor:50051";

/// The compose profiles of an access mode, with or without a bundled mint.
pub open spec fn profiles_of(access: AccessMode, with_mint: bool) -> Seq<char> {
    match (access, with_mint) {
        (AccessMode::DomainTls, true) => "tls,mint"@,
        (AccessMode::DomainTls, false) => "tls"@,
        (_, true) => "mint"@,
        (_, false) => ""@,
    }
}

pub fn profiles(access: AccessMode, with_mint: bool) -> (r: String)
    ensures
        r@ == profiles_of(access, with_mint),
{
    match (access, with_mint) {
        (AccessMode::DomainTls, true) => "tls,mint".to_owned(),
        (AccessMode::DomainTls, false) => "tls".to_owned(),
        (_, true) => "mint".to_owned(),
        (_, false) => "".to_owned(),
    }
}

/// The address that the console and a bundled mint are bound to.
pub open spec fn bind_of(access: AccessMode) -> Seq<char> {
    if access == AccessMode::PlainHttp {
        ALL_INTERFACES@
    } else {
        LOOPBACK@
    }
}

pub fn bind_for(access: AccessMode) -> (r: &'static str)
    ensures
        r@ == bind_of(access),
{
    if access == AccessMode::PlainHttp {
        ALL_INTERFACES
    } else {
        LOOPBACK
    }
}

/// Where the operator console is reached.
pub open spec fn console_url_of(
    access: AccessMode,
    console_domain: Seq<char>,
    public_ip: Option<Seq<char>>,
    ui_port: u16,
) -> Seq<char> {
    match access {
        AccessMode::PlainHttp => {
            let host = match public_ip {
                Some(ip) => ip,
                None => "<server>"@,
            };
            "http://"@ + host + ":"@ + text::decimal(ui_port as nat)
        },
        _ => "https://"@ + console_domain,
    }
}

pub open spec fn endpoint(host: Seq<char>, port: u16) -> Seq<char> {
    host + ":"@ + text::decimal(port as nat)
}

pub fn render_endpoint(host: &str, port: u16) -> (r: String)
    ensures
        r@ == endpoint(host@, port),
{
    host.to_owned().concat(":").concat(text::to_decimal(port as u64).as_str())
}

impl InstallPlan {
    pub open spec fn url(&self) -> Seq<char> {
        console_url_of(
            self.access,
            self.console_domain@,
            text::opt(self.public_ip),
            self.ui_port,
        )
    }

    pub open spec fn grpc(&self) -> Seq<char> {
        endpoint(self.grpc_bind_addr@, self.grpc_port)
    }

    /// The unit of the attachment, empty where nothing is attached.
    pub open spec fn unit(&self) -> Seq<char> {
        match self.attach {
            Some(attach) => attach.unit@,
            None => Seq::empty(),
        }
    }

    /// Whether the Caddyfile has a site for the bundled mint.
    pub open spec fn has_mint_site(&self) -> bool {
        self.access == AccessMode::DomainTls && (self.mint matches Some(m)
            && m.mint_domain@.len() > 0)
    }

    pub fn compose_profiles(&self) -> (r: String)
        ensures
            r@ == profiles_of(self.access, self.mint is Some),
    {
        profiles(self.access, self.mint.is_some())
    }

    /// Whether the Caddyfile carries the mint site block ({$MINT_DOMAIN}).
    pub fn mint_site_enabled(&self) -> (r: bool)
        ensures
            r == self.has_mint_site(),
    {
        match &self.mint {
            Some(m) => self.access == AccessMode::DomainTls && !m.mint_domain.as_str().is_empty(),
            None => false,
        }
    }

    pub fn console_url(&self) -> (r: String)
        ensures
            r@ == self.url(),
    {
        match self.access {
            AccessMode::PlainHttp => {
                let host = text::text_or(&self.public_ip, "<server>");
                "http://".to_owned()
                    .concat(host.as_str())
                    .concat(":")
                    .concat(text::to_decimal(self.ui_port as u64).as_str())
            },
            _ => "https://".to_owned().concat(self.console_domain.as_str()),
        }
    }

    /// The endpoint the operator's mintd connects to, as bound on this host.
    pub fn grpc_endpoint(&self) -> (r: String)
        ensures
            r@ == self.grpc(),
    {
        render_endpoint(self.grpc_bind_addr.as_str(), self.grpc_port)
    }

    /// The unit of the attachment, empty where nothing is attached.
    pub fn attached_unit(&self) -> (r: String)
        ensures
            r@ == self.unit(),
    {
        match &self.attach {
            Some(attach) => attach.unit.clone(),
            None => String::new(),
        }
    }
}

/// Which front end an installation goes through.
#[derive(Debug, Clone, Copy, PartialEq, Eq, Structural)]
pub enum FrontEnd {
    Flags,
    Wizard,
}

/// The wizard runs whenever there is a terminal and no `--yes`.
pub fn run(args: &InstallArgs, have_tty: bool) -> (r: FrontEnd)
    ensures
        r == FrontEnd::Wizard <==> !args.yes && have_tty,
{
    if args.yes || !have_tty {
        FrontEnd::Flags
    } else {
        FrontEnd::Wizard
    }
}

// ---------------------------------------------------------------------------
// the plan that the flags ask for
// ---------------------------------------------------------------------------
/// What the host says: whether the two hostnames are valid ones, its public
/// address, and which ports are taken.
pub struct HostFacts {
    pub console_domain_ok: bool,
    pub mint_domain_ok: bool,
    pub public_ip: Option<String>,
    pub ui_port: PortStatus,
    pub grpc_port: PortStatus,
    pub mint_port: PortStatus,
    pub web_ports_busy: bool,
    /// A fresh passphrase for the first sign-in.
    pub admin_password: String,
}

pub const DEFAULT_MINT_PORT: u16 = 3338;

pub const PROXY_NEEDS_DOMAIN: &'static str = "--behind-proxy needs --console-domain: your proxy's public hostname for the console";

pub const MINT_NEEDS_UNIT: &'static str = "--with-mint needs --unit: the currency unit this install serves";

pub const MINT_NEEDS_DOMAIN: &'static str = "--with-mint needs --mint-domain: the mint's public hostname wallets connect to";

pub const DOMAINS_MUST_DIFFER: &'static str = "--mint-domain must differ from --console-domain — they are two sites";

pub const UNIT_NEEDS_URL: &'static str = "--unit without --with-mint needs --mint-url: the existing mint's public URL";

pub const NO_IP_FOR_GRPC: &'static str = "could not detect this server's public IP for the advertised gRPC endpoint — pass --advertised-grpc <host:port>";

pub const URL_NEEDS_UNIT: &'static str = "--mint-url needs --unit: attaching a mint requires both";

pub const WEB_PORTS_BUSY: &'static str = "ports 80/443 are already in use (an existing reverse proxy, most likely) — re-run with --behind-proxy, or free the ports for the bundled Caddy";

pub open spec fn port_or_default(port: Option<u16>) -> u16 {
    match port {
        Some(p) => p,
        None => DEFAULT_MINT_PORT,
    }
}

/// A text without the slashes at its end.
pub open spec fn unslashed(url: Seq<char>) -> Seq<char> {
    text::right_trimmed(url, |c: char| c == '/')
}

/// The access mode that the flags ask for.
pub open spec fn access_of(args: InstallArgs) -> AccessMode {
    if args.behind_proxy {
        AccessMode::BehindProxy
    } else if args.plain_http || text::or_empty(args.console_domain).len() == 0 {
        AccessMode::PlainHttp
    } else {
        AccessMode::DomainTls
    }
}

pub open spec fn bad_console_domain(domain: Seq<char>) -> Seq<char> {
    "--console-domain "@
        + domain
        + " is not a valid hostname (lowercase labels, dots, no scheme)"@
}

pub open spec fn bad_mint_domain(domain: Seq<char>) -> Seq<char> {
    "--mint-domain "@ + domain + " is not a valid hostname"@
}

pub open spec fn no_ip_for_url(mint_port: u16) -> Seq<char> {
    "could not detect this server's public IP for the mint URL — pass --mint-url http://<address>:"@
        + text::decimal(mint_port as nat)
}

pub open spec fn port_in_use(port: u16, label: Seq<char>, flag: Seq<char>) -> Seq<char> {
    "port "@
        + text::decimal(port as nat)
        + " (for the "@
        + label
        + ") is already in use — pass "@
        + flag
        + " <port>"@
}

/// Why the flags for the console are refused.
pub open spec fn access_refusal(args: InstallArgs, facts: HostFacts) -> Option<Seq<char>> {
    let domain = text::or_empty(args.console_domain);
    if domain.len() > 0 && !facts.console_domain_ok {
        Some(bad_console_domain(domain))
    } else if args.behind_proxy && domain.len() == 0 {
        Some(PROXY_NEEDS_DOMAIN@)
    } else {
        None
    }
}

/// Why the unit is refused.
pub open spec fn unit_flag_refusal(args: InstallArgs) -> Option<Seq<char>> {
    match args.unit {
        Some(raw) => match mint::checked_unit(raw@) {
            Ok(_) => None,
            Err(message) => Some(message),
        },
        None => None,
    }
}

/// Why the flags for a bundled mint are refused.
pub open spec fn bundled_refusal(args: InstallArgs, facts: HostFacts) -> Option<Seq<char>> {
    let domain = text::or_empty(args.mint_domain);
    let access = access_of(args);
    if args.unit is None {
        Some(MINT_NEEDS_UNIT@)
    } else if access != AccessMode::PlainHttp && domain.len() == 0 {
        Some(MINT_NEEDS_DOMAIN@)
    } else if access != AccessMode::PlainHttp && !facts.mint_domain_ok {
        Some(bad_mint_domain(domain))
    } else if access != AccessMode::PlainHttp && domain == text::or_empty(args.console_domain) {
        Some(DOMAINS_MUST_DIFFER@)
    } else if args.mint_url is None && access == AccessMode::PlainHttp && facts.public_ip is None {
        Some(no_ip_for_url(port_or_default(args.mint_port)))
    } else {
        None
    }
}

/// Why the flags for an existing mint are refused.
pub open spec fn attach_refusal(args: InstallArgs, facts: HostFacts) -> Option<Seq<char>> {
    if args.unit is None {
        if args.mint_url is Some {
            Some(URL_NEEDS_UNIT@)
        } else {
            None
        }
    } else if args.mint_url is None {
        Some(UNIT_NEEDS_URL@)
    } else if args.advertised_grpc is None && text::or_text(args.grpc_bind, LOOPBACK@) != LOOPBACK@
        && facts.public_ip is None {
        Some(NO_IP_FOR_GRPC@)
    } else {
        None
    }
}

/// Which port is taken, if one is.
pub open spec fn port_refusal(args: InstallArgs, facts: HostFacts) -> Option<Seq<char>> {
    if facts.ui_port == PortStatus::Busy {
        Some(port_in_use(args.ui_port, "console"@, "--ui-port"@))
    } else if facts.grpc_port == PortStatus::Busy {
        Some(port_in_use(args.grpc_port, "payment gRPC"@, "--grpc-port"@))
    } else if args.with_mint && facts.mint_port == PortStatus::Busy {
        Some(port_in_use(port_or_default(args.mint_port), "mint"@, "--mint-port"@))
    } else if access_of(args) == AccessMode::DomainTls && facts.web_ports_busy {
        Some(WEB_PORTS_BUSY@)
    } else {
        None
    }
}

/// Why the flags are refused, if they are: the first reason in this order.
pub open spec fn plan_refusal(args: InstallArgs, facts: HostFacts) -> Option<Seq<char>> {
    if access_refusal(args, facts) is Some {
        access_refusal(args, facts)
    } else if unit_flag_refusal(args) is Some {
        unit_flag_refusal(args)
    } else if args.with_mint && bundled_refusal(args, facts) is Some {
        bundled_refusal(args, facts)
    } else if !args.with_mint && attach_refusal(args, facts) is Some {
        attach_refusal(args, facts)
    } else {
        port_refusal(args, facts)
    }
}

/// The wallet-facing URL of a bundled mint: the one that was given, and
/// otherwise the one that follows from how the server is reached.
pub open spec fn bundled_url(
    given: Option<Seq<char>>,
    access: AccessMode,
    mint_domain: Seq<char>,
    host: Seq<char>,
    mint_port: u16,
) -> Seq<char> {
    match given {
        Some(url) => unslashed(url),
        None => if access == AccessMode::PlainHttp {
            "http://"@ + host + ":"@ + text::decimal(mint_port as nat)
        } else {
            "https://"@ + mint_domain
        },
    }
}

/// Where an existing mint dials this processor.
pub open spec fn advertised(args: InstallArgs, public_ip: Option<Seq<char>>) -> Seq<char> {
    match args.advertised_grpc {
        Some(given) => given@,
        None => if text::or_text(args.grpc_bind, LOOPBACK@) == LOOPBACK@ {
            endpoint(LOOPBACK@, args.grpc_port)
        } else {
            endpoint(public_ip->0, args.grpc_port)
        },
    }
}

/// That an attachment has these parts.
pub open spec fn attaches(
    attach: AttachPlan,
    unit: Seq<char>,
    mint_url: Seq<char>,
    advertised_grpc: Seq<char>,
) -> bool {
    &&& attach.unit@ == unit
    &&& attach.mint_url@ == mint_url
    &&& attach.advertised_grpc@ == advertised_grpc
}

/// That a bundled mint is the one for this access mode, with this URL.
pub open spec fn bundles(
    mint: MintPlan,
    access: AccessMode,
    mint_domain: Seq<char>,
    mint_url: Seq<char>,
    mint_port: u16,
    version: Option<Seq<char>>,
) -> bool {
    &&& mint.mint_domain@ == (if access == AccessMode::PlainHttp {
        Seq::empty()
    } else {
        mint_domain
    })
    &&& mint.mint_url@ == mint_url
    &&& mint.mint_port == mint_port
    &&& mint.mint_bind_addr@ == bind_of(access)
    &&& mint.mintd_version@ == (match version {
        Some(tag) => tag,
        None => mint::MINTD_DEFAULT_TAG@,
    })
    &&& mint::valid_seed(mint.mnemonic@)
}

/// That a plan is the one that the flags ask for.
pub open spec fn plan_meets(
    args: InstallArgs,
    facts: HostFacts,
    install_dir: Seq<char>,
    version: Seq<char>,
    plan: InstallPlan,
) -> bool {
    let access = access_of(args);
    let ip = text::opt(facts.public_ip);
    let mint_port = port_or_default(args.mint_port);
    let bundled = bundled_url(
        text::opt(args.mint_url),
        access,
        text::or_empty(args.mint_domain),
        text::or_empty(facts.public_ip),
        mint_port,
    );
    &&& plan.install_dir@ == install_dir
    &&& plan.version@ == version
    &&& plan.no_pull == args.no_pull
    &&& plan.access == access
    &&& plan.console_domain@ == (if access == AccessMode::PlainHttp {
        Seq::empty()
    } else {
        text::or_empty(args.console_domain)
    })
    &&& plan.acme_email@ == text::or_empty(args.email)
    &&& plan.ui_port == args.ui_port
    &&& plan.bind_addr@ == text::or_text(args.bind, bind_of(access))
    &&& plan.grpc_bind_addr@ == (if args.with_mint {
        LOOPBACK@
    } else {
        text::or_text(args.grpc_bind, LOOPBACK@)
    })
    &&& plan.grpc_port == args.grpc_port
    &&& text::opt(plan.public_ip) == ip
    &&& plan.admin_password@ == facts.admin_password@
    &&& match plan.attach {
        Some(attach) => {
            &&& args.unit is Some
            &&& mint::checked_unit(args.unit->0@) is Ok
            &&& attaches(
                attach,
                mint::checked_unit(args.unit->0@)->Ok_0,
                if args.with_mint {
                    bundled
                } else {
                    unslashed(text::or_empty(args.mint_url))
                },
                if args.with_mint {
                    INTERNAL_GRPC@
                } else {
                    advertised(args, ip)
                },
            )
        },
        None => !args.with_mint && args.unit is None,
    }
    &&& match plan.mint {
        Some(mint) => args.with_mint && bundles(
            mint,
            access,
            text::or_empty(args.mint_domain),
            bundled,
            mint_port,
            text::opt(args.mint_version),
        ),
        None => !args.with_mint,
    }
}

fn check_access(args: &InstallArgs, facts: &HostFacts) -> (r: Result<AccessMode, String>)
    ensures
        match r {
            Ok(access) => access_refusal(*args, *facts) is None && access == access_of(*args),
            Err(message) => access_refusal(*args, *facts) == Some(message@),
        },
{
    let domain = text::text_or_empty(&args.console_domain);
    let named: bool = !domain.as_str().is_empty();
    if named && !facts.console_domain_ok {
        return Err(
            "--console-domain ".to_owned()
                .concat(domain.as_str())
                .concat(" is not a valid hostname (lowercase labels, dots, no scheme)"),
        );
    }
    if args.behind_proxy {
        if !named {
            return Err(PROXY_NEEDS_DOMAIN.to_owned());
        }
        Ok(AccessMode::BehindProxy)
    } else if args.plain_http || !named {
        Ok(AccessMode::PlainHttp)
    } else {
        Ok(AccessMode::DomainTls)
    }
}

fn check_unit_flag(args: &InstallArgs) -> (r: Result<Option<String>, String>)
    ensures
        match r {
            Ok(Some(unit)) => args.unit is Some && mint::checked_unit(args.unit->0@) == Ok::<
                Seq<char>,
                Seq<char>,
            >(unit@),
            Ok(None) => args.unit is None,
            Err(message) => unit_flag_refusal(*args) == Some(message@),
        },
{
    match &args.unit {
        Some(raw) => match mint::validate_unit_slug(raw.as_str()) {
            Ok(unit) => Ok(Some(unit)),
            Err(message) => Err(message),
        },
        None => Ok(None),
    }
}

fn check_bundled(args: &InstallArgs, facts: &HostFacts, access: AccessMode) -> (r: Result<
    (),
    String,
>)
    requires
        access == access_of(*args),
        args.unit is Some,
    ensures
        match r {
            Ok(_) => bundled_refusal(*args, *facts) is None,
            Err(message) => bundled_refusal(*args, *facts) == Some(message@),
        },
{
    let domain = text::text_or_empty(&args.mint_domain);
    if access != AccessMode::PlainHttp {
        if domain.as_str().is_empty() {
            return Err(MINT_NEEDS_DOMAIN.to_owned());
        }
        if !facts.mint_domain_ok {
            return Err("--mint-domain ".to_owned()
                .concat(domain.as_str())
                .concat(" is not a valid hostname"));
        }
        let console = text::text_or_empty(&args.console_domain);
        if text::same(domain.as_str(), console.as_str()) {
            return Err(DOMAINS_MUST_DIFFER.to_owned());
        }
    } else if args.mint_url.is_none() && facts.public_ip.is_none() {
        let mint_port: u16 = mint_port_of(args.mint_port);
        return Err(
            "could not detect this server's public IP for the mint URL — pass --mint-url http://<address>:".to_owned()
                .concat(text::to_decimal(mint_port as u64).as_str()),
        );
    }
    Ok(())
}

pub fn mint_port_of(port: Option<u16>) -> (r: u16)
    ensures
        r == port_or_default(port),
{
    match port {
        Some(p) => p,
        None => DEFAULT_MINT_PORT,
    }
}

pub fn render_bundled_url(
    given: &Option<String>,
    access: AccessMode,
    mint_domain: &str,
    host: &str,
    mint_port: u16,
) -> (r: String)
    ensures
        r@ == bundled_url(text::opt(*given), access, mint_domain@, host@, mint_port),
{
    match given {
        Some(url) => text::trim_end_of(url.as_str(), '/'),
        None => if access == AccessMode::PlainHttp {
            "http://".to_owned()
                .concat(host)
                .concat(":")
                .concat(text::to_decimal(mint_port as u64).as_str())
        } else {
            "https://".to_owned().concat(mint_domain)
        },
    }
}

/// The bundled mint for an access mode, with a fresh seed.
pub fn bundled_mint(
    access: AccessMode,
    mint_domain: &str,
    mint_url: &str,
    mint_port: u16,
    version: &Option<String>,
) -> (r: MintPlan)
    ensures
        bundles(r, access, mint_domain@, mint_url@, mint_port, text::opt(*version)),
{
    MintPlan {
        mint_domain: if access == AccessMode::PlainHttp {
            String::new()
        } else {
            mint_domain.to_owned()
        },
        mint_url: mint_url.to_owned(),
        mint_port,
        mint_bind_addr: bind_for(access).to_owned(),
        mintd_version: text::text_or(version, mint::MINTD_DEFAULT_TAG),
        mnemonic: mint::generate_mnemonic(),
    }
}

fn check_ports(args: &InstallArgs, facts: &HostFacts, access: AccessMode) -> (r: Result<(), String>)
    requires
        access == access_of(*args),
    ensures
        match r {
            Ok(_) => port_refusal(*args, *facts) is None,
            Err(message) => port_refusal(*args, *facts) == Some(message@),
        },
{
    if facts.ui_port == PortStatus::Busy {
        return Err(render_port_in_use(args.ui_port, "console", "--ui-port"));
    }
    if facts.grpc_port == PortStatus::Busy {
        return Err(render_port_in_use(args.grpc_port, "payment gRPC", "--grpc-port"));
    }
    if args.with_mint && facts.mint_port == PortStatus::Busy {
        return Err(render_port_in_use(mint_port_of(args.mint_port), "mint", "--mint-port"));
    }
    if access == AccessMode::DomainTls && facts.web_ports_busy {
        return Err(WEB_PORTS_BUSY.to_owned());
    }
    Ok(())
}

fn render_port_in_use(port: u16, label: &str, flag: &str) -> (r: String)
    ensures
        r@ == port_in_use(port, label@, flag@),
{
    "port ".to_owned()
        .concat(text::to_decimal(port as u64).as_str())
        .concat(" (for the ")
        .concat(label)
        .concat(") is already in use — pass ")
        .concat(flag)
        .concat(" <port>")
}

/// The attachment of an existing mint.
fn existing_mint(args: &InstallArgs, facts: &HostFacts, unit: String) -> (r: Result<
    AttachPlan,
    String,
>)
    requires
        args.unit is Some,
    ensures
        match r {
            Ok(attach) => attach_refusal(*args, *facts) is None && attaches(
                attach,
                unit@,
                unslashed(text::or_empty(args.mint_url)),
                advertised(*args, text::opt(facts.public_ip)),
            ),
            Err(message) => attach_refusal(*args, *facts) == Some(message@),
        },
{
    let mint_url = match &args.mint_url {
        Some(url) => text::trim_end_of(url.as_str(), '/'),
        None => {
            return Err(UNIT_NEEDS_URL.to_owned());
        },
    };
    let grpc_bind = text::text_or(&args.grpc_bind, LOOPBACK);
    let advertised_grpc = match &args.advertised_grpc {
        Some(given) => given.clone(),
        None => if text::same(grpc_bind.as_str(), LOOPBACK) {
            render_endpoint(LOOPBACK, args.grpc_port)
        } else {
            match &facts.public_ip {
                Some(ip) => render_endpoint(ip.as_str(), args.grpc_port),
                None => {
                    return Err(NO_IP_FOR_GRPC.to_owned());
                },
            }
        },
    };
    Ok(AttachPlan { unit, mint_url, advertised_grpc })
}

/// Resolve the full plan from flags alone (no prompts). Port conflicts are
/// fatal here: headless installs must fail fast with the remedy flag named, not
/// later at `docker compose up`.
pub fn plan_from_flags(
    args: &InstallArgs,
    install_dir: String,
    version: String,
    facts: &HostFacts,
) -> (r: Result<InstallPlan, String>)
    ensures
        match r {
            Ok(plan) => plan_refusal(*args, *facts) is None && plan_meets(
                *args,
                *facts,
                install_dir@,
                version@,
                plan,
            ),
            Err(message) => plan_refusal(*args, *facts) == Some(message@),
        },
{
    let access = match check_access(args, facts) {
        Ok(access) => access,
        Err(message) => {
            return Err(message);
        },
    };
    let unit = match check_unit_flag(args) {
        Ok(unit) => unit,
        Err(message) => {
            return Err(message);
        },
    };
    let (attach, mint) = if args.with_mint {
        let unit = match unit {
            Some(unit) => unit,
            None => {
                return Err(MINT_NEEDS_UNIT.to_owned());
            },
        };
        match check_bundled(args, facts, access) {
            Ok(_) => {},
            Err(message) => {
                return Err(message);
            },
        }
        let mint_domain = text::text_or_empty(&args.mint_domain);
        let host = text::text_or_empty(&facts.public_ip);
        let mint_port: u16 = mint_port_of(args.mint_port);
        let mint_url = render_bundled_url(
            &args.mint_url,
            access,
            mint_domain.as_str(),
            host.as_str(),
            mint_port,
        );
        let mint = bundled_mint(
            access,
            mint_domain.as_str(),
            mint_url.as_str(),
            mint_port,
            &args.mint_version,
        );
        (
            Some(AttachPlan { unit, mint_url, advertised_grpc: INTERNAL_GRPC.to_owned() }),
            Some(mint),
        )
    } else {
        match unit {
            Some(unit) => match existing_mint(args, facts, unit) {
                Ok(attach) => (Some(attach), None),
                Err(message) => {
                    return Err(message);
                },
            },
            None => {
                if args.mint_url.is_some() {
                    return Err(URL_NEEDS_UNIT.to_owned());
                }
                (None, None)
            },
        }
    };
    match check_ports(args, facts, access) {
        Ok(_) => {},
        Err(message) => {
            return Err(message);
        },
    }
    let public_ip = match &facts.public_ip {
        Some(ip) => Some(ip.clone()),
        None => None,
    };
    Ok(
        InstallPlan {
            install_dir,
            version,
            no_pull: args.no_pull,
            access,
            console_domain: if access == AccessMode::PlainHttp {
                String::new()
            } else {
                text::text_or_empty(&args.console_domain)
            },
            acme_email: text::text_or_empty(&args.email),
            ui_port: args.ui_port,
            bind_addr: text::text_or(&args.bind, bind_for(access)),
            grpc_bind_addr: if args.with_mint {
                LOOPBACK.to_owned()
            } else {
                text::text_or(&args.grpc_bind, LOOPBACK)
            },
            grpc_port: args.grpc_port,
            public_ip,
            admin_password: facts.admin_password.clone(),
            attach,
            mint,
        },
    )
}

// ---------------------------------------------------------------------------
// where it goes
// ---------------------------------------------------------------------------
pub open spec fn bad_arch(arch: Seq<char>) -> Seq<char> {
    "unsupported architecture "@ + arch + "; images are published for amd64 and arm64"@
}

pub const MACOS_WARNING: &'static str = "macOS detected — fine for development and testing, not for production.";

pub open spec fn supported_arch(arch: Seq<char>) -> bool {
    arch == "x86_64"@ || arch == "aarch64"@
}

/// Whether this platform is supported, and what to warn of where it is.
pub fn preflight_platform(arch: &str, os: &str) -> (r: Result<Option<&'static str>, String>)
    ensures
        match r {
            Ok(None) => supported_arch(arch@) && os@ == "linux"@,
            Ok(Some(warning)) => supported_arch(arch@) && os@ == "macos"@ && os@ != "linux"@
                && warning@ == MACOS_WARNING@,
            Err(message) => if supported_arch(arch@) {
                os@ != "linux"@ && os@ != "macos"@ && message@ == "unsupported platform: "@ + os@
            } else {
                message@ == bad_arch(arch@)
            },
        },
{
    if !text::same(arch, "x86_64") && !text::same(arch, "aarch64") {
        return Err("unsupported architecture ".to_owned()
            .concat(arch)
            .concat("; images are published for amd64 and arm64"));
    }
    if text::same(os, "linux") {
        Ok(None)
    } else if text::same(os, "macos") {
        Ok(Some(MACOS_WARNING))
    } else {
        Err("unsupported platform: ".to_owned().concat(os))
    }
}

pub const HOME_MISSING: &'static str = "HOME is not set; pass --dir";

pub const HOME_RELATIVE: &'static str = "HOME must be an absolute path; pass --dir";

pub const DIR_EMPTY: &'static str = "--dir cannot be empty";

/// The default directory, or why there is none.
pub open spec fn default_dir(system: bool, home: Option<Seq<char>>) -> Result<Seq<char>, Seq<char>> {
    if system {
        Ok(compose::DEFAULT_LINUX_DIR@)
    } else {
        match home {
            None => Err(HOME_MISSING@),
            Some(dir) => if paths::absolute(dir) {
                Ok(paths::below(dir, "pecan"@))
            } else {
                Err(HOME_RELATIVE@)
            },
        }
    }
}

pub fn default_install_dir(system: bool, user_home: Option<&str>) -> (r: Result<String, String>)
    ensures
        match r {
            Ok(dir) => default_dir(system, text::opt_str(user_home)) == Ok::<Seq<char>, Seq<char>>(
                dir@,
            ),
            Err(message) => default_dir(system, text::opt_str(user_home)) == Err::<
                Seq<char>,
                Seq<char>,
            >(message@),
        },
{
    if system {
        return Ok(compose::DEFAULT_LINUX_DIR.to_owned());
    }
    match user_home {
        None => Err(HOME_MISSING.to_owned()),
        Some(dir) => if paths::is_absolute(dir) {
            Ok(paths::join(dir, "pecan"))
        } else {
            Err(HOME_RELATIVE.to_owned())
        },
    }
}

/// The directory to install into, as an absolute path: the one that was asked
/// for, taken relative to `current`, or the default one.
pub fn resolve_install_dir(
    explicit: Option<&str>,
    system: bool,
    user_home: Option<&str>,
    current: &str,
) -> (r: Result<String, String>)
    ensures
        match (explicit, r) {
            (Some(dir), Ok(path)) => dir@.len() > 0 && path@ == paths::against(dir@, current@),
            (Some(dir), Err(message)) => dir@.len() == 0 && message@ == DIR_EMPTY@,
            (None, Ok(path)) => default_dir(system, text::opt_str(user_home)) == Ok::<
                Seq<char>,
                Seq<char>,
            >(path@),
            (None, Err(message)) => default_dir(system, text::opt_str(user_home)) == Err::<
                Seq<char>,
                Seq<char>,
            >(message@),
        },
{
    match explicit {
        Some(dir) => if dir.is_empty() {
            Err(DIR_EMPTY.to_owned())
        } else {
            Ok(paths::absolutize(dir, current))
        },
        None => default_install_dir(system, user_home),
    }
}

pub open spec fn dir_taken(dir: Seq<char>) -> Seq<char> {
    "an installation already exists in "@
        + dir
        + " — use '"@
        + dir
        + "/mintctl start' to resume a failed install, or '"@
        + dir
        + "/mintctl update' to update. Credentials are in .env; a bundled mint's seed is in mint/mnemonic. For a second instance, pass --dir and different ports."@
}

pub open spec fn dir_has_mint(dir: Seq<char>) -> Seq<char> {
    dir + " contains mint data from an earlier install; recover it before reinstalling"@
}

/// Nothing is installed over existing credentials or mint material.
pub fn guard_fresh_dir(install_dir: &str, env_exists: bool, mint_exists: bool) -> (r: Result<
    (),
    String,
>)
    ensures
        match r {
            Ok(_) => !env_exists && !mint_exists,
            Err(message) => if env_exists {
                message@ == dir_taken(install_dir@)
            } else {
                mint_exists && message@ == dir_has_mint(install_dir@)
            },
        },
{
    if env_exists {
        return Err(
            "an installation already exists in ".to_owned()
                .concat(install_dir)
                .concat(" — use '")
                .concat(install_dir)
                .concat("/mintctl start' to resume a failed install, or '")
                .concat(install_dir)
                .concat("/mintctl update' to update. Credentials are in .env; a bundled mint's seed is in mint/mnemonic. For a second instance, pass --dir and different ports."),
        );
    }
    if mint_exists {
        return Err(
            install_dir.to_owned()
                .concat(" contains mint data from an earlier install; recover it before reinstalling"),
        );
    }
    Ok(())
}

/// What to say when the directory could not be made.
pub fn dir_not_created(install_dir: &str) -> (r: String)
    ensures
        r@ == "cannot create "@ + install_dir@ + " — pass --dir somewhere writable by this user"@,
{
    "cannot create ".to_owned()
        .concat(install_dir)
        .concat(" — pass --dir somewhere writable by this user")
}

/// What to say when no file could be made in the directory.
pub fn dir_not_writable(install_dir: &str) -> (r: String)
    ensures
        r@ == install_dir@ + " is not writable by this user"@,
{
    install_dir.to_owned().concat(" is not writable by this user")
}

// ---------------------------------------------------------------------------
// host ports
// ---------------------------------------------------------------------------
/// The host ports that the services of a plan listen on.
pub open spec fn ports_of(plan: InstallPlan) -> Seq<u16> {
    let services = seq![plan.ui_port, plan.grpc_port] + (match plan.mint {
        Some(m) => seq![m.mint_port],
        None => Seq::empty(),
    });
    if plan.access == AccessMode::DomainTls {
        services + seq![80u16, 443u16]
    } else {
        services
    }
}

pub fn host_ports(plan: &InstallPlan) -> (r: Vec<u16>)
    ensures
        r@ == ports_of(*plan),
{
    let mut ports: Vec<u16> = Vec::new();
    ports.push(plan.ui_port);
    ports.push(plan.grpc_port);
    match &plan.mint {
        Some(m) => ports.push(m.mint_port),
        None => {},
    }
    if plan.access == AccessMode::DomainTls {
        ports.push(80);
        ports.push(443);
    }
    assert(ports@ =~= ports_of(*plan));
    ports
}

pub const PORT_ZERO: &'static str = "host ports must be between 1 and 65535";

pub const PORTS_SHARED: &'static str = "each service needs a distinct host port";

/// Every service has a port of its own, and none is zero.
pub fn check_host_ports(ports: &Vec<u16>) -> (r: Result<(), String>)
    ensures
        match r {
            Ok(_) => !ports@.contains(0) && ports@.no_duplicates(),
            Err(message) => if ports@.contains(0) {
                message@ == PORT_ZERO@
            } else {
                !ports@.no_duplicates() && message@ == PORTS_SHARED@
            },
        },
{
    let mut i: usize = 0;
    while i < ports.len()
        invariant
            i <= ports@.len(),
            forall|k: int| 0 <= k < i ==> #[trigger] ports@[k] != 0,
        decreases ports@.len() - i,
    {
        if ports[i] == 0 {
            assert(ports@.contains(ports@[i as int]));
            return Err(PORT_ZERO.to_owned());
        }
        i += 1;
    }
    assert(!ports@.contains(0));
    let mut i: usize = 0;
    while i < ports.len()
        invariant
            i <= ports@.len(),
            !ports@.contains(0),
            forall|a: int, b: int| 0 <= a < b < i ==> ports@[a] != ports@[b],
        decreases ports@.len() - i,
    {
        let mut j: usize = 0;
        while j < i
            invariant
                j <= i < ports@.len(),
                !ports@.contains(0),
                forall|a: int| 0 <= a < j ==> ports@[a] != ports@[i as int],
            decreases i - j,
        {
            if ports[j] == ports[i] {
                assert(!ports@.no_duplicates());
                return Err(PORTS_SHARED.to_owned());
            }
            j += 1;
        }
        i += 1;
    }
    assert(ports@.no_duplicates());
    Ok(())
}

/// What is checked of a plan under the operation lock, before anything is
/// fetched: the release tag and the ports. The ports come back for the check of
/// what rootless Docker can publish.
pub fn prepare_install(plan: &InstallPlan) -> (r: Result<Vec<u16>, String>)
    ensures
        match r {
            Ok(ports) => {
                &&& release::valid_tag(plan.version@)
                &&& ports@ == ports_of(*plan)
                &&& !ports@.contains(0)
                &&& ports@.no_duplicates()
            },
            Err(message) => if !release::valid_tag(plan.version@) {
                message@ == release::tag_refusal(plan.version@)
            } else if ports_of(*plan).contains(0) {
                message@ == PORT_ZERO@
            } else {
                !ports_of(*plan).no_duplicates() && message@ == PORTS_SHARED@
            },
        },
{
    match release::validate_tag(plan.version.as_str()) {
        Ok(_) => {},
        Err(message) => {
            return Err(message);
        },
    }
    let ports = host_ports(plan);
    match check_host_ports(&ports) {
        Ok(_) => Ok(ports),
        Err(message) => Err(message),
    }
}

/// The bundled mint's image tag is checked before it is written anywhere.
pub fn check_mint_tag(plan: &InstallPlan) -> (r: Result<(), String>)
    ensures
        match (plan.mint, r) {
            (Some(m), Ok(_)) => release::valid_tag(m.mintd_version@),
            (Some(m), Err(message)) => !release::valid_tag(m.mintd_version@) && message@
                == release::tag_refusal(m.mintd_version@),
            (None, Ok(_)) => true,
            (None, Err(_)) => false,
        },
{
    match &plan.mint {
        Some(m) => release::validate_tag(m.mintd_version.as_str()),
        None => Ok(()),
    }
}

// ---------------------------------------------------------------------------
// artifacts
// ---------------------------------------------------------------------------
/// A local checkout where one is given, else a git ref, else the release tag.
pub fn artifact_source(
    artifacts_dir: &Option<String>,
    artifact_ref: &Option<String>,
    version: &str,
) -> (r: ArtifactSource)
    ensures
        match (artifacts_dir, r) {
            (Some(dir), ArtifactSource::Dir(path)) => path@ == dir@,
            (None, ArtifactSource::Ref(git_ref)) => git_ref@ == text::or_text(
                *artifact_ref,
                version@,
            ),
            _ => false,
        },
{
    match artifacts_dir {
        Some(dir) => ArtifactSource::Dir(dir.clone()),
        None => ArtifactSource::Ref(text::text_or(artifact_ref, version)),
    }
}

pub const COMPOSE_FILE: &'static str = "docker-compose.yml";

pub const CADDY_FILE: &'static str = "Caddyfile";

pub const EXAMPLE_FILE: &'static str = ".env.example";

pub const ENV_FILE: &'static str = ".env";

pub const BINARY_FILE: &'static str = "mintctl";

pub const BAD_COMPOSE_FILE: &'static str = "downloaded docker-compose.yml looks wrong; aborting";

/// Whether some line begins with `prefix`.
pub open spec fn some_line_begins(lines: Seq<Seq<char>>, prefix: Seq<char>) -> bool {
    exists|i: int| 0 <= i < lines.len() && text::begins(#[trigger] lines[i], prefix)
}

pub fn any_line_begins(content: &str, prefix: &str) -> (r: bool)
    ensures
        r == some_line_begins(text::lines_of(content@), prefix@),
{
    let lines = text::lines(content);
    let mut i: usize = 0;
    while i < lines.len()
        invariant
            i <= lines@.len(),
            text::texts(lines@) == text::lines_of(content@),
            forall|k: int|
                0 <= k < i ==> !text::begins(#[trigger] text::lines_of(content@)[k], prefix@),
        decreases lines@.len() - i,
    {
        if text::starts_with(lines[i].as_str(), prefix) {
            assert(text::lines_of(content@)[i as int] == lines@[i as int]@);
            return true;
        }
        assert(text::lines_of(content@)[i as int] == lines@[i as int]@);
        i += 1;
    }
    assert(text::lines_of(content@).len() == lines@.len());
    false
}

/// The sanity check of a compose file that was fetched.
pub fn fetch_deploy_artifacts(compose_text: &str) -> (r: Result<(), String>)
    ensures
        match r {
            Ok(_) => some_line_begins(text::lines_of(compose_text@), "services:"@),
            Err(message) => !some_line_begins(text::lines_of(compose_text@), "services:"@)
                && message@ == BAD_COMPOSE_FILE@,
        },
{
    if any_line_begins(compose_text, "services:") {
        Ok(())
    } else {
        Err(BAD_COMPOSE_FILE.to_owned())
    }
}

/// How the pinned release's binary comes into the installation.
#[derive(Debug, Clone, Copy, PartialEq, Eq, Structural)]
pub enum BinarySource {
    /// This binary is copied.
    SelfCopy,
    /// The release asset is downloaded and verified.
    Download,
}

/// Self-copy when we ARE that release (or in offline test rigs); otherwise
/// download and verify the asset, failing closed.
pub fn install_binary(source: &ArtifactSource, version: &str, own: &str) -> (r: BinarySource)
    ensures
        r == BinarySource::SelfCopy <==> own@ == version@ || source is Dir,
{
    let local: bool = match source {
        ArtifactSource::Dir(_) => true,
        ArtifactSource::Ref(_) => false,
    };
    if local || text::same(own, version) {
        BinarySource::SelfCopy
    } else {
        BinarySource::Download
    }
}

pub const BINARY_MODE: u32 = 0o755;

// ---------------------------------------------------------------------------
// configuration files
// ---------------------------------------------------------------------------
/// What is written for a plan, and how the Caddyfile is finished.
pub struct ConfigWrites {
    pub env: FileWrite,
    /// The bundled mint's config and seed.
    pub mint: Option<MintFiles>,
    /// The certificate account for the Caddyfile.
    pub acme_email: String,
    /// Whether the Caddyfile has the mint's site.
    pub mint_site: bool,
    /// Whether server blocks for the operator's own proxy are written.
    pub proxy_snippets: bool,
}

/// The `.env` of a plan, the mint's config and seed when bundled, and what
/// finishes the Caddyfile and the proxy snippets, all in `dir`.
pub fn write_config(plan: &InstallPlan, dir: &str, unix_seconds: i64, seed_exists: bool) -> (r:
    Result<ConfigWrites, String>)
    ensures
        match r {
            Ok(writes) => {
                &&& settings::writes_env(*plan, dir@, unix_seconds, writes.env)
                &&& match (plan.mint, writes.mint) {
                    (Some(m), Some(files)) => !seed_exists && mint::writes_mint_files(
                        dir@,
                        plan.unit(),
                        m.mint_url@,
                        m.mnemonic@,
                        files,
                    ),
                    (None, None) => true,
                    _ => false,
                }
                &&& writes.acme_email@ == plan.acme_email@
                &&& writes.mint_site == plan.has_mint_site()
                &&& writes.proxy_snippets == (plan.access == AccessMode::BehindProxy)
            },
            Err(message) => plan.mint is Some && seed_exists && message@ == mint::seed_refusal(dir@),
        },
{
    let env = settings::write_env(plan, dir, unix_seconds);
    let files = match &plan.mint {
        Some(m) => match mint::write_mint_files(
            dir,
            plan.attached_unit().as_str(),
            m.mint_url.as_str(),
            m.mnemonic.as_str(),
            seed_exists,
        ) {
            Ok(files) => Some(files),
            Err(message) => {
                return Err(message);
            },
        },
        None => None,
    };
    Ok(
        ConfigWrites {
            env,
            mint: files,
            acme_email: plan.acme_email.clone(),
            mint_site: plan.mint_site_enabled(),
            proxy_snippets: plan.access == AccessMode::BehindProxy,
        },
    )
}

pub const CONFIG_REFUSED: &'static str = "invalid deployment configuration; installation was not committed";

/// The check of a staged deployment: it speaks for the final directory while
/// the files are still elsewhere.
pub fn check_staged(stack: &Stack, staging: &str, env: &EnvFile) -> (r: CommandLine)
    ensures
        r.program@ == "docker"@,
        text::texts(r.args@) == compose::compose_args(
            staging@,
            stack.install_dir@,
            compose::recorded_project(env@, stack.install_dir@),
            seq!["config"@, "--quiet"@],
        ),
        r.current_dir@ == stack.install_dir@,
        text::texts(r.env_remove@) == seq!["COMPOSE_PROFILES"@, "COMPOSE_FILE"@]
            + envfile::keys_of(env@),
{
    let args = text::words(&["config", "--quiet"]);
    assert(text::texts(args@) =~= seq!["config"@, "--quiet"@]);
    stack.command_with_files(staging, env, &args)
}

/// The order in which staged files are moved into the installation. The
/// credentials come last.
pub open spec fn commit_order() -> Seq<Seq<char>> {
    seq![
        COMPOSE_FILE@,
        CADDY_FILE@,
        EXAMPLE_FILE@,
        BINARY_FILE@,
        "mint"@,
        "proxy-snippets"@,
        ENV_FILE@,
    ]
}

pub fn committed_files() -> (r: Vec<String>)
    ensures
        text::texts(r@) == commit_order(),
{
    let names = text::words(
        &[
            COMPOSE_FILE,
            CADDY_FILE,
            EXAMPLE_FILE,
            BINARY_FILE,
            "mint",
            "proxy-snippets",
            ENV_FILE,
        ],
    );
    assert(text::texts(names@) =~= commit_order());
    names
}

// ---------------------------------------------------------------------------
// images and services
// ---------------------------------------------------------------------------
pub open spec fn image_reference(version: Seq<char>) -> Seq<char> {
    "ghcr.io/"@ + release::REPO@ + ":"@ + version
}

/// The image that `--no-pull` promises to be there.
pub fn local_image(version: &str) -> (r: String)
    ensures
        r@ == image_reference(version@),
{
    "ghcr.io/".to_owned().concat(release::REPO).concat(":").concat(version)
}

pub open spec fn image_missing(reference: Seq<char>) -> Seq<char> {
    "--no-pull was given, but "@
        + reference
        + " is not in the local docker daemon. Build and tag it first:\n  docker compose build processor\n  docker tag pecan:dev "@
        + reference
        + "\n(or drop --no-pull to pull a published tag)"@
}

/// --no-pull promises the processor image is already in the local daemon:
/// verify that promise up front instead of failing five steps later with
/// compose's registry error.
pub fn ensure_local_image(version: &str, present: bool) -> (r: Result<(), String>)
    ensures
        match r {
            Ok(_) => present,
            Err(message) => !present && message@ == image_missing(image_reference(version@)),
        },
{
    if present {
        return Ok(());
    }
    let reference = local_image(version);
    Err(
        "--no-pull was given, but ".to_owned()
            .concat(reference.as_str())
            .concat(" is not in the local docker daemon. Build and tag it first:\n  docker compose build processor\n  docker tag pecan:dev ")
            .concat(reference.as_str())
            .concat("\n(or drop --no-pull to pull a published tag)"),
    )
}

pub open spec fn pull_failed() -> Seq<char> {
    "image pull failed. If this is a brand-new setup, check that the GHCR package ghcr.io/"@
        + release::REPO@
        + " exists and is public."@
}

pub fn pull_args() -> (r: Vec<String>)
    ensures
        text::texts(r@) == seq!["pull"@, "--quiet"@],
{
    let args = text::words(&["pull", "--quiet"]);
    assert(text::texts(args@) =~= seq!["pull"@, "--quiet"@]);
    args
}

pub fn pull_image(success: bool) -> (r: Result<(), String>)
    ensures
        match r {
            Ok(_) => success,
            Err(message) => !success && message@ == pull_failed(),
        },
{
    if success {
        Ok(())
    } else {
        Err(
            "image pull failed. If this is a brand-new setup, check that the GHCR package ghcr.io/".to_owned()
                .concat(release::REPO)
                .concat(" exists and is public."),
        )
    }
}

/// Runs cdk-mintd's own `config validate` against the rendered import
/// document: template or secret errors surface with upstream's message before
/// anything starts.
pub fn validate_mint_config() -> (r: Vec<String>)
    ensures
        text::texts(r@) == seq![
            "run"@,
            "--rm"@,
            "--no-deps"@,
            "mintd"@,
            "cdk-mintd"@,
            "--work-dir"@,
            "/data"@,
            "config"@,
            "validate"@,
            "--file"@,
            "/config/mint.toml"@,
        ],
{
    let args = text::words(
        &[
            "run",
            "--rm",
            "--no-deps",
            "mintd",
            "cdk-mintd",
            "--work-dir",
            "/data",
            "config",
            "validate",
            "--file",
            "/config/mint.toml",
        ],
    );
    assert(text::texts(args@) =~= seq![
        "run"@,
        "--rm"@,
        "--no-deps"@,
        "mintd"@,
        "cdk-mintd"@,
        "--work-dir"@,
        "/data"@,
        "config"@,
        "validate"@,
        "--file"@,
        "/config/mint.toml"@,
    ]);
    args
}

/// Starts the installed stack, with the images as they are, and waits for it.
pub fn up_args() -> (r: Vec<String>)
    ensures
        text::texts(r@) == seq![
            "up"@,
            "-d"@,
            "--pull"@,
            "never"@,
            "--wait"@,
            "--wait-timeout"@,
            "120"@,
        ],
{
    let args = text::words(&["up", "-d", "--pull", "never", "--wait", "--wait-timeout", "120"]);
    assert(text::texts(args@) =~= seq![
        "up"@,
        "-d"@,
        "--pull"@,
        "never"@,
        "--wait"@,
        "--wait-timeout"@,
        "120"@,
    ]);
    args
}

// ---------------------------------------------------------------------------
// the management command
// ---------------------------------------------------------------------------
/// Whether the link to the management command is to be made: not where it
/// already leads to this installation. An existing command is never replaced,
/// so a second install never silently hijacks another installation's.
pub fn install_cli_symlink(target: &str, existing: Option<&str>) -> (r: bool)
    ensures
        r == !(existing matches Some(e) && paths::same_path(e@, target@)),
{
    match existing {
        Some(e) => !paths::same(e, target),
        None => true,
    }
}

/// Where the link leads: to the binary in the installation.
pub fn cli_target(install_dir: &str) -> (r: String)
    ensures
        r@ == paths::below(install_dir@, BINARY_FILE@),
{
    paths::join(install_dir, BINARY_FILE)
}

/// What to say when the link could not be made.
pub fn cli_link_failed(link: &str) -> (r: String)
    ensures
        r@ == "cannot create "@ + link@ + " (an existing command is kept)"@,
{
    "cannot create ".to_owned().concat(link).concat(" (an existing command is kept)")
}

pub const PATH_HINT: &'static str = "Add $HOME/.local/bin to PATH: export PATH=\"$HOME/.local/bin:$PATH\"";

/// Whether a directory is among those of the search path.
pub open spec fn searched(dirs: Seq<String>, dir: Seq<char>) -> bool {
    exists|k: int| 0 <= k < dirs.len() && paths::same_path(#[trigger] dirs[k]@, dir)
}

/// Whether a directory is on the search path.
pub fn on_path(dirs: &Vec<String>, dir: &str) -> (r: bool)
    ensures
        r == exists|k: int| 0 <= k < dirs@.len() && paths::same_path(#[trigger] dirs@[k]@, dir@),
        r == searched(dirs@, dir@),
{
    let mut i: usize = 0;
    while i < dirs.len()
        invariant
            i <= dirs@.len(),
            forall|k: int| 0 <= k < i ==> !paths::same_path(#[trigger] dirs@[k]@, dir@),
        decreases dirs@.len() - i,
    {
        if paths::same(dirs[i].as_str(), dir) {
            return true;
        }
        i += 1;
    }
    false
}

/// What to note after the link was made.
pub fn cli_linked(link: &str, on_path: bool) -> (r: Vec<String>)
    ensures
        text::texts(r@) == seq!["installed the management CLI as "@ + link@] + (if on_path {
            Seq::empty()
        } else {
            seq![PATH_HINT@]
        }),
{
    broadcast use text::lemma_texts_push;

    let mut notes: Vec<String> = Vec::new();
    notes.push("installed the management CLI as ".to_owned().concat(link));
    if !on_path {
        notes.push(PATH_HINT.to_owned());
    }
    assert(text::texts(notes@) =~= seq!["installed the management CLI as "@ + link@] + (if on_path {
        Seq::empty()
    } else {
        seq![PATH_HINT@]
    }));
    notes
}

/// What to warn of when there is no link: the command still works by its path.
pub fn cli_not_linked(error: &str, install_dir: &str) -> (r: String)
    ensures
        r@ == error@ + "; use "@ + install_dir@ + "/mintctl directly"@,
{
    error.to_owned().concat("; use ").concat(install_dir).concat("/mintctl directly")
}

// ---------------------------------------------------------------------------
// certificates
// ---------------------------------------------------------------------------
/// Wait for an address over verified HTTPS, until certificates are issued and
/// routing works.
pub fn wait_for_tls_url(url: &str, budget_secs: u64) -> (r: Poll)
    ensures
        r.url@ == url@,
        r.timeout_secs == 5,
        r.pause_secs == 3,
        r.budget_secs == budget_secs,
{
    Poll { url: url.to_owned(), timeout_secs: 5, pause_secs: 3, budget_secs }
}

/// The same wait for the console behind its domain.
pub fn wait_for_tls(console_domain: &str, budget_secs: u64) -> (r: Poll)
    ensures
        r.url@ == "https://"@ + console_domain@ + "/healthz"@,
        r.timeout_secs == 5,
        r.pause_secs == 3,
        r.budget_secs == budget_secs,
{
    wait_for_tls_url(
        "https://".to_owned().concat(console_domain).concat("/healthz").as_str(),
        budget_secs,
    )
}

/// The same wait for a bundled mint behind its domain.
pub fn wait_for_mint_tls(mint_domain: &str, budget_secs: u64) -> (r: Poll)
    ensures
        r.url@ == "https://"@ + mint_domain@ + "/v1/info"@,
        r.timeout_secs == 5,
        r.pause_secs == 3,
        r.budget_secs == budget_secs,
{
    wait_for_tls_url(
        "https://".to_owned().concat(mint_domain).concat("/v1/info").as_str(),
        budget_secs,
    )
}

/// The public hostnames of a plan that need certificates.
pub open spec fn tls_domains(plan: InstallPlan) -> Seq<Seq<char>> {
    if plan.access != AccessMode::DomainTls {
        Seq::empty()
    } else {
        match plan.mint {
            Some(m) => if m.mint_domain@.len() > 0 {
                seq![plan.console_domain@, m.mint_domain@]
            } else {
                seq![plan.console_domain@]
            },
            None => seq![plan.console_domain@],
        }
    }
}

/// The hostnames whose DNS a headless install looks at.
pub fn domains_to_check(plan: &InstallPlan) -> (r: Vec<String>)
    ensures
        text::texts(r@) == tls_domains(*plan),
{
    broadcast use text::lemma_texts_push;

    let mut domains: Vec<String> = Vec::new();
    if plan.access == AccessMode::DomainTls {
        domains.push(plan.console_domain.clone());
        match &plan.mint {
            Some(m) => if !m.mint_domain.as_str().is_empty() {
                domains.push(m.mint_domain.clone());
            },
            None => {},
        }
    }
    assert(text::texts(domains@) =~= tls_domains(*plan));
    domains
}

pub open spec fn dns_unconfirmed(domain: Seq<char>) -> Seq<char> {
    "DNS for "@
        + domain
        + " does not resolve to this server yet — certificates will be retried in the background once the record is right"@
}

/// Headless DNS posture: warn, never fail. Caddy retries certificates in the
/// background, and CI installs have no DNS at all. `matches` says whether the
/// record leads to this server, where it could be looked up, and `advisory` what
/// there is to say of its IPv6 record.
pub fn warn_on_unconfirmed_dns(domain: &str, matches: Option<bool>, advisory: Option<String>) -> (r:
    Vec<String>)
    ensures
        text::texts(r@) == (if matches == Some(true) {
            Seq::empty()
        } else {
            seq![dns_unconfirmed(domain@)]
        }) + (match advisory {
            Some(warning) => seq![warning@],
            None => Seq::empty(),
        }),
{
    broadcast use text::lemma_texts_push;

    let ghost asked = advisory;
    let mut warnings: Vec<String> = Vec::new();
    let confirmed: bool = match matches {
        Some(yes) => yes,
        None => false,
    };
    if !confirmed {
        warnings.push(
            "DNS for ".to_owned()
                .concat(domain)
                .concat(" does not resolve to this server yet — certificates will be retried in the background once the record is right"),
        );
    }
    match advisory {
        Some(warning) => warnings.push(warning),
        None => {},
    }
    assert(text::texts(warnings@) =~= (if confirmed {
        Seq::empty()
    } else {
        seq![dns_unconfirmed(domain@)]
    }) + (match asked {
        Some(warning) => seq![warning@],
        None => Seq::empty(),
    }));
    warnings
}

// ---------------------------------------------------------------------------
// laws
// ---------------------------------------------------------------------------
/// What holds of every plan: a bundled mint is attached under its own URL, over
/// the internal link and with the payment gRPC on loopback; plain HTTP has no
/// hostnames and TLS has both, two different ones.
pub open spec fn coherent(plan: InstallPlan) -> bool {
    &&& plan.access == AccessMode::PlainHttp <==> plan.console_domain@.len() == 0
    &&& plan.mint matches Some(m) ==> {
        &&& plan.attach matches Some(a) && a.mint_url@ == m.mint_url@ && a.advertised_grpc@
            == INTERNAL_GRPC@
        &&& plan.grpc_bind_addr@ == LOOPBACK@
        &&& m.mint_bind_addr@ == bind_of(plan.access)
        &&& plan.access == AccessMode::PlainHttp <==> m.mint_domain@.len() == 0
        &&& plan.access != AccessMode::PlainHttp ==> m.mint_domain@ != plan.console_domain@
    }
}

/// The flags give a coherent plan, wherever they give one.
pub proof fn law_flags_give_coherent_plans(
    args: InstallArgs,
    facts: HostFacts,
    install_dir: Seq<char>,
    version: Seq<char>,
    plan: InstallPlan,
)
    requires
        plan_refusal(args, facts) is None,
        plan_meets(args, facts, install_dir, version, plan),
    ensures
        coherent(plan),
{
}

/// The profiles that a plan writes are the ones that its access mode and its
/// shape call for: "tls" with the bundled Caddy, "mint" with a bundled mint.
pub proof fn law_profiles_tell_the_shape(access: AccessMode, with_mint: bool)
    ensures
        names_profile(profiles_of(access, with_mint), "mint"@) == with_mint,
        names_profile(profiles_of(access, with_mint), "tls"@) == (access
            == AccessMode::DomainTls),
{
    reveal_strlit("tls,mint");
    reveal_strlit("tls");
    reveal_strlit("mint");
    reveal_strlit("");
    let both = "tls,mint"@;
    let p = |c: char| text::white(c);
    text::lemma_position_is(both, ',', 3);
    text::lemma_position_is("tls"@, ',', 3);
    text::lemma_position_is("mint"@, ',', 4);
    text::lemma_position_is(""@, ',', 0);
    assert(both.take(3) =~= "tls"@);
    assert(both.skip(4) =~= "mint"@);
    reveal_with_fuel(text::pieces_of, 3);
    assert(text::pieces_of(both, ',') =~= seq!["tls"@, "mint"@]);
    assert(text::pieces_of("tls"@, ',') =~= seq!["tls"@]);
    assert(text::pieces_of("mint"@, ',') =~= seq!["mint"@]);
    assert(text::pieces_of(""@, ',') =~= seq![""@]);
    lemma_untrimmed("tls"@);
    lemma_untrimmed("mint"@);
    lemma_untrimmed(""@);
    assert("tls"@.len() == 3 && "mint"@.len() == 4 && ""@.len() == 0);
    let tls = seq!["tls"@];
    let mint = seq!["mint"@];
    let two = seq!["tls"@, "mint"@];
    assert(tls[0] == "tls"@ && mint[0] == "mint"@ && two[0] == "tls"@ && two[1] == "mint"@);
}

/// A text without white space at its ends is its own trimmed form.
pub proof fn lemma_untrimmed(s: Seq<char>)
    requires
        s.len() > 0 ==> !text::white(s[0]) && !text::white(s.last()),
    ensures
        text::trimmed(s) == s,
{
    let p = |c: char| text::white(c);
    text::lemma_left_trimmed(s, p, 0);
    text::lemma_right_trimmed(s, p, s.len() as int);
    assert(s.skip(0) =~= s);
    assert(s.take(s.len() as int) =~= s);
}

/// Whether a list of compose profiles names one.
pub open spec fn names_profile(profiles: Seq<char>, profile: Seq<char>) -> bool {
    exists|i: int|
        0 <= i < text::pieces_of(profiles, ',').len() && text::trimmed(
            #[trigger] text::pieces_of(profiles, ',')[i],
        ) == profile
}

// ---------------------------------------------------------------------------
// laws of the plan
// ---------------------------------------------------------------------------
/// That one address is another with slashes behind it, and does not itself end
/// in one.
pub open spec fn bare_of(bare: Seq<char>, url: Seq<char>) -> bool {
    &&& bare.len() <= url.len() && url.take(bare.len() as int) == bare
    &&& forall|i: int| bare.len() <= i < url.len() ==> url[i] == '/'
    &&& bare.len() > 0 ==> bare.last() != '/'
}

pub proof fn lemma_unslashed(url: Seq<char>)
    ensures
        bare_of(unslashed(url), url),
    decreases url.len(),
{
    let p = |c: char| c == '/';
    if url.len() > 0 && url.last() == '/' {
        lemma_unslashed(url.drop_last());
        let bare = unslashed(url.drop_last());
        assert(unslashed(url) == bare);
        assert(url.take(bare.len() as int) =~= url.drop_last().take(bare.len() as int));
        assert forall|i: int| bare.len() <= i < url.len() implies url[i] == '/' by {
            if i < url.len() - 1 {
                assert(url.drop_last()[i] == url[i]);
            }
        }
    } else {
        assert(unslashed(url) == url);
        assert(url.take(url.len() as int) =~= url);
    }
}

/// That a bundled mint is reached as it has to be: at its own hostname over
/// HTTPS, unless it is plain HTTP, and then at its own port of this host.
pub open spec fn wallets_reach(m: MintPlan, access: AccessMode, host: Seq<char>) -> bool {
    &&& access != AccessMode::PlainHttp ==> m.mint_url@ == "https://"@ + m.mint_domain@
    &&& access == AccessMode::PlainHttp ==> m.mint_url@ == "http://"@ + host + ":"@
        + text::decimal(m.mint_port as nat)
}

/// The flags settle how the console is reached: behind the operator's proxy
/// exactly where that was asked for, by domain and TLS exactly where a hostname
/// was given and nothing else asked for. The hostname is kept except in plain
/// HTTP, where the console listens on all interfaces unless told otherwise; it
/// listens on loopback in the other modes.
pub proof fn law_flags_settle_the_access(
    args: InstallArgs,
    install_dir: String,
    version: String,
    facts: HostFacts,
    plan: InstallPlan,
)
    requires
        call_ensures(
            plan_from_flags,
            (&args, install_dir, version, &facts),
            Ok::<InstallPlan, String>(plan),
        ),
    ensures
        ({
            let named = args.console_domain matches Some(domain) && domain@.len() > 0;
            &&& plan.access == AccessMode::BehindProxy <==> args.behind_proxy
            &&& plan.access == AccessMode::DomainTls <==> named && !args.behind_proxy
                && !args.plain_http
            &&& plan.access != AccessMode::PlainHttp ==> named && facts.console_domain_ok
                && plan.console_domain@ == args.console_domain->0@
            &&& plan.access == AccessMode::PlainHttp ==> plan.console_domain@.len() == 0
            &&& args.bind matches Some(addr) ==> plan.bind_addr@ == addr@
            &&& args.bind is None && plan.access == AccessMode::PlainHttp ==> plan.bind_addr@
                == "0.0.0.0"@
            &&& args.bind is None && plan.access != AccessMode::PlainHttp ==> plan.bind_addr@
                == "127.0.0.1"@
        }),
{
}

/// What the flags say of the rest is what the plan says: directory, release,
/// ports, account, password and address.
pub proof fn law_flags_are_kept(
    args: InstallArgs,
    install_dir: String,
    version: String,
    facts: HostFacts,
    plan: InstallPlan,
)
    requires
        call_ensures(
            plan_from_flags,
            (&args, install_dir, version, &facts),
            Ok::<InstallPlan, String>(plan),
        ),
    ensures
        plan.install_dir@ == install_dir@,
        plan.version@ == version@,
        plan.no_pull == args.no_pull,
        plan.ui_port == args.ui_port,
        plan.grpc_port == args.grpc_port,
        plan.admin_password@ == facts.admin_password@,
        args.email matches Some(email) ==> plan.acme_email@ == email@,
        args.email is None ==> plan.acme_email@.len() == 0,
        facts.public_ip matches Some(ip) ==> text::opt(plan.public_ip) == Some(ip@),
        facts.public_ip is None ==> plan.public_ip is None,
{
}

/// A mint is bundled exactly where that was asked for. Wallets reach it at its
/// own hostname over HTTPS in domain and proxy mode alike, at this server's
/// address and its port in plain HTTP, and elsewhere only where an address was
/// given. It is attached under that very address and the unit that was asked
/// for, over the internal link, and listens where the console does by default.
pub proof fn law_bundled_mint_is_reached(
    args: InstallArgs,
    install_dir: String,
    version: String,
    facts: HostFacts,
    plan: InstallPlan,
)
    requires
        call_ensures(
            plan_from_flags,
            (&args, install_dir, version, &facts),
            Ok::<InstallPlan, String>(plan),
        ),
    ensures
        plan.mint is Some <==> args.with_mint,
        plan.mint matches Some(m) ==> {
            &&& args.mint_port matches Some(port) ==> m.mint_port == port
            &&& args.mint_port is None ==> m.mint_port == 3338
            &&& args.mint_version matches Some(tag) ==> m.mintd_version@ == tag@
            &&& args.mint_version is None ==> m.mintd_version@ == "0.18.0-rc.0"@
            &&& plan.access != AccessMode::PlainHttp ==> args.mint_domain is Some
                && facts.mint_domain_ok && m.mint_domain@ == args.mint_domain->0@
                && m.mint_domain@.len() > 0 && m.mint_domain@ != plan.console_domain@
                && m.mint_bind_addr@ == "127.0.0.1"@
            &&& plan.access == AccessMode::PlainHttp ==> m.mint_domain@.len() == 0
                && m.mint_bind_addr@ == "0.0.0.0"@
            &&& args.mint_url is None ==> wallets_reach(
                m,
                plan.access,
                if facts.public_ip is Some {
                    facts.public_ip->0@
                } else {
                    Seq::empty()
                },
            )
            &&& args.mint_url is None && plan.access == AccessMode::PlainHttp ==> facts.public_ip
                is Some
            &&& args.mint_url matches Some(url) ==> bare_of(m.mint_url@, url@)
            &&& plan.attach matches Some(a) && a.mint_url@ == m.mint_url@ && a.advertised_grpc@
                == "processor:50051"@
            &&& plan.grpc_bind_addr@ == "127.0.0.1"@
        },
{
    if let Some(url) = args.mint_url {
        lemma_unslashed(url@);
    }
}

/// A mint is attached exactly where one is bundled or a unit was given, and
/// under that unit. An existing mint needs its address, keeps it but for slashes
/// at its end, and dials what was advertised, loopback where the payment gRPC is
/// bound there, and else this server's address.
pub proof fn law_attachment_follows_the_flags(
    args: InstallArgs,
    install_dir: String,
    version: String,
    facts: HostFacts,
    plan: InstallPlan,
)
    requires
        call_ensures(
            plan_from_flags,
            (&args, install_dir, version, &facts),
            Ok::<InstallPlan, String>(plan),
        ),
    ensures
        plan.attach is Some <==> args.with_mint || args.unit is Some,
        plan.attach matches Some(a) ==> args.unit is Some && mint::checked_unit(args.unit->0@)
            == Ok::<Seq<char>, Seq<char>>(a.unit@),
        !args.with_mint ==> {
            &&& args.unit is Some <==> args.mint_url is Some
            &&& args.grpc_bind matches Some(addr) ==> plan.grpc_bind_addr@ == addr@
            &&& args.grpc_bind is None ==> plan.grpc_bind_addr@ == "127.0.0.1"@
        },
        !args.with_mint && plan.attach is Some ==> {
            let a = plan.attach->0;
            let port = ":"@ + text::decimal(plan.grpc_port as nat);
            &&& bare_of(a.mint_url@, args.mint_url->0@)
            &&& args.advertised_grpc matches Some(given) ==> a.advertised_grpc@ == given@
            &&& args.advertised_grpc is None && plan.grpc_bind_addr@ == "127.0.0.1"@
                ==> a.advertised_grpc@ == "127.0.0.1"@ + port
            &&& args.advertised_grpc is None && plan.grpc_bind_addr@ != "127.0.0.1"@
                ==> facts.public_ip is Some && a.advertised_grpc@ == facts.public_ip->0@ + port
        },
{
    if let Some(url) = args.mint_url {
        lemma_unslashed(url@);
    }
    if !args.with_mint && plan.attach is Some {
        let port = ":"@ + text::decimal(plan.grpc_port as nat);
        assert("127.0.0.1"@ + ":"@ + text::decimal(plan.grpc_port as nat) =~= "127.0.0.1"@ + port);
        if let Some(ip) = facts.public_ip {
            assert(ip@ + ":"@ + text::decimal(plan.grpc_port as nat) =~= ip@ + port);
        }
    }
}

/// The flags are accepted exactly where nothing of this is wrong with them and
/// the host.
pub proof fn law_when_flags_are_accepted(
    args: InstallArgs,
    install_dir: String,
    version: String,
    facts: HostFacts,
    r: Result<InstallPlan, String>,
)
    requires
        call_ensures(plan_from_flags, (&args, install_dir, version, &facts), r),
    ensures
        ({
            let named = args.console_domain matches Some(domain) && domain@.len() > 0;
            let plain = !args.behind_proxy && (args.plain_http || !named);
            let tls = !args.behind_proxy && !plain;
            let mint_named = args.mint_domain matches Some(domain) && domain@.len() > 0;
            let elsewhere = args.grpc_bind matches Some(addr) && addr@ != "127.0.0.1"@;
            r is Ok <==> {
                &&& named ==> facts.console_domain_ok
                &&& args.behind_proxy ==> named
                &&& args.unit matches Some(unit) ==> mint::checked_unit(unit@) is Ok
                &&& args.with_mint ==> args.unit is Some
                &&& args.with_mint && !plain ==> mint_named && facts.mint_domain_ok
                    && args.mint_domain->0@ != args.console_domain->0@
                &&& args.with_mint && plain ==> args.mint_url is Some || facts.public_ip is Some
                &&& !args.with_mint ==> (args.unit is Some <==> args.mint_url is Some)
                &&& !args.with_mint && args.unit is Some && elsewhere ==> args.advertised_grpc
                    is Some || facts.public_ip is Some
                &&& facts.ui_port != PortStatus::Busy
                &&& facts.grpc_port != PortStatus::Busy
                &&& args.with_mint ==> facts.mint_port != PortStatus::Busy
                &&& tls ==> !facts.web_ports_busy
            }
        }),
{
    if args.behind_proxy && args.console_domain is None {
        assert(access_refusal(args, facts) is Some);
    }
}

/// A port that is taken is named in the refusal, with the flag that chooses
/// another.
pub proof fn law_taken_port_is_named(args: InstallArgs, facts: HostFacts)
    requires
        access_refusal(args, facts) is None,
        unit_flag_refusal(args) is None,
        args.with_mint ==> bundled_refusal(args, facts) is None,
        !args.with_mint ==> attach_refusal(args, facts) is None,
        facts.ui_port == PortStatus::Busy || facts.grpc_port == PortStatus::Busy || (args.with_mint
            && facts.mint_port == PortStatus::Busy),
    ensures
        plan_refusal(args, facts) is Some,
        ({
            let message = plan_refusal(args, facts)->0;
            ||| facts.ui_port == PortStatus::Busy && text::begins(
                message,
                "port "@ + text::decimal(args.ui_port as nat),
            ) && text::found(message, "--ui-port"@) is Some
            ||| facts.grpc_port == PortStatus::Busy && text::begins(
                message,
                "port "@ + text::decimal(args.grpc_port as nat),
            ) && text::found(message, "--grpc-port"@) is Some
            ||| args.with_mint && facts.mint_port == PortStatus::Busy && text::begins(
                message,
                "port "@ + text::decimal(port_or_default(args.mint_port) as nat),
            ) && text::found(message, "--mint-port"@) is Some
        }),
{
    lemma_port_in_use(args.ui_port, "console"@, "--ui-port"@);
    lemma_port_in_use(args.grpc_port, "payment gRPC"@, "--grpc-port"@);
    lemma_port_in_use(port_or_default(args.mint_port), "mint"@, "--mint-port"@);
}

proof fn lemma_port_in_use(port: u16, label: Seq<char>, flag: Seq<char>)
    ensures
        text::begins(port_in_use(port, label, flag), "port "@ + text::decimal(port as nat)),
        text::found(port_in_use(port, label, flag), flag) is Some,
{
    let message = port_in_use(port, label, flag);
    let head = "port "@ + text::decimal(port as nat);
    assert(message.take(head.len() as int) =~= head);
    let before = "port "@ + text::decimal(port as nat) + " (for the "@ + label
        + ") is already in use — pass "@;
    assert(message =~= before + flag + " <port>"@);
    text::lemma_found_between(before, flag, " <port>"@);
}

/// The console is reached over HTTPS at its hostname, in domain and proxy mode
/// alike, and in plain HTTP at this server's address and its port.
pub proof fn law_console_is_reached(plan: InstallPlan, r: String)
    requires
        call_ensures(InstallPlan::console_url, (&plan,), r),
    ensures
        plan.access != AccessMode::PlainHttp ==> r@ == "https://"@ + plan.console_domain@,
        plan.access == AccessMode::PlainHttp && plan.public_ip is Some ==> r@ == "http://"@
            + plan.public_ip->0@ + ":"@ + text::decimal(plan.ui_port as nat),
{
}

/// A service listens on each port of a plan: the console's and the payment
/// gRPC's always, the mint's with a bundled one, and those of the web exactly
/// with the bundled Caddy.
pub proof fn law_ports_of_a_plan(plan: InstallPlan, r: Vec<u16>, port: u16)
    requires
        call_ensures(host_ports, (&plan,), r),
    ensures
        r@.contains(port) <==> {
            ||| port == plan.ui_port
            ||| port == plan.grpc_port
            ||| plan.mint matches Some(m) && port == m.mint_port
            ||| plan.access == AccessMode::DomainTls && (port == 80 || port == 443)
        },
        r@.len() == 2 + (if plan.mint is Some {
            1int
        } else {
            0
        }) + (if plan.access == AccessMode::DomainTls {
            2int
        } else {
            0
        }),
{
    let n = if plan.mint is Some {
        3int
    } else {
        2
    };
    assert(r@[0] == plan.ui_port);
    assert(r@[1] == plan.grpc_port);
    if let Some(m) = plan.mint {
        assert(r@[2] == m.mint_port);
    }
    if plan.access == AccessMode::DomainTls {
        assert(r@[n] == 80);
        assert(r@[n + 1] == 443);
    }
}

/// A plan is prepared exactly where its release is a valid tag and every service
/// has a port of its own, none of them zero.
pub proof fn law_prepared_plans_have_their_ports(plan: InstallPlan, r: Result<Vec<u16>, String>)
    requires
        call_ensures(prepare_install, (&plan,), r),
    ensures
        r is Ok ==> {
            &&& release::valid_tag(plan.version@)
            &&& plan.ui_port != 0 && plan.grpc_port != 0 && plan.ui_port != plan.grpc_port
            &&& plan.mint matches Some(m) ==> m.mint_port != 0 && m.mint_port != plan.ui_port
                && m.mint_port != plan.grpc_port
            &&& plan.access == AccessMode::DomainTls ==> plan.ui_port != 80 && plan.ui_port != 443
                && plan.grpc_port != 80 && plan.grpc_port != 443
            &&& plan.access == AccessMode::DomainTls && plan.mint is Some ==> plan.mint->0.mint_port
                != 80 && plan.mint->0.mint_port != 443
        },
        r is Err ==> {
            ||| !release::valid_tag(plan.version@)
            ||| plan.ui_port == 0 || plan.grpc_port == 0 || plan.ui_port == plan.grpc_port
            ||| plan.mint matches Some(m) && (m.mint_port == 0 || m.mint_port == plan.ui_port
                || m.mint_port == plan.grpc_port)
            ||| plan.access == AccessMode::DomainTls && (plan.ui_port == 80 || plan.ui_port == 443
                || plan.grpc_port == 80 || plan.grpc_port == 443 || (plan.mint matches Some(m) && (
            m.mint_port == 80 || m.mint_port == 443)))
        },
{
    let ports = ports_of(plan);
    let n = if plan.mint is Some {
        3int
    } else {
        2
    };
    assert(ports[0] == plan.ui_port && ports[1] == plan.grpc_port);
    if plan.access == AccessMode::DomainTls {
        assert(ports[n] == 80 && ports[n + 1] == 443);
    }
    if let Some(m) = plan.mint {
        assert(ports[2] == m.mint_port);
    }
    if r is Ok {
        assert(ports.contains(ports[0]) && ports.contains(ports[1]));
        if plan.mint is Some {
            assert(ports.contains(ports[2]));
        }
    }
}

/// Nothing is installed over credentials or mint material that is there.
pub proof fn law_fresh_directories_only(
    install_dir: &str,
    env_exists: bool,
    mint_exists: bool,
    r: Result<(), String>,
)
    requires
        call_ensures(guard_fresh_dir, (install_dir, env_exists, mint_exists), r),
    ensures
        r is Ok <==> !env_exists && !mint_exists,
{
}

/// The directory that was asked for is taken, and made absolute; without one it
/// is the system's for root and the home's for anybody else.
pub proof fn law_where_it_is_installed(
    explicit: Option<&str>,
    system: bool,
    home: Option<&str>,
    current: &str,
    r: Result<String, String>,
)
    requires
        call_ensures(resolve_install_dir, (explicit, system, home, current), r),
    ensures
        explicit matches Some(dir) ==> (r is Ok <==> dir@.len() > 0),
        explicit matches Some(dir) ==> (r matches Ok(path) ==> (if dir@[0] == '/' {
            path@ == dir@
        } else if current@.len() == 0 || current@.last() == '/' {
            path@ == current@ + dir@
        } else {
            path@ == current@ + seq!['/'] + dir@
        })),
        explicit is None && system ==> (r matches Ok(path) && path@ == "/opt/pecan"@),
        explicit is None && !system ==> (r is Ok <==> (home matches Some(dir) && dir@.len() > 0
            && dir@[0] == '/')),
        explicit is None && !system ==> (r matches Ok(path) ==> path@ == paths::below(
            home->0@,
            "pecan"@,
        )),
{
    if let Some(dir) = explicit {
        assert(current@.push('/') + dir@ =~= current@ + seq!['/'] + dir@);
    }
}

/// A local checkout wins over a git ref, and that over the release; the release's
/// own binary is copied, and any other is downloaded unless a checkout is used.
pub proof fn law_where_artifacts_come_from(
    dir: Option<String>,
    git_ref: Option<String>,
    version: &str,
    own: &str,
    source: ArtifactSource,
    binary: BinarySource,
)
    requires
        call_ensures(artifact_source, (&dir, &git_ref, version), source),
        call_ensures(install_binary, (&source, version, own), binary),
    ensures
        dir matches Some(path) ==> (source matches ArtifactSource::Dir(p) && p@ == path@),
        dir is None && git_ref is Some ==> (source matches ArtifactSource::Ref(r) && r@
            == git_ref->0@),
        dir is None && git_ref is None ==> (source matches ArtifactSource::Ref(r) && r@
            == version@),
        binary == BinarySource::Download <==> dir is None && own@ != version@,
{
}

/// What is written for a plan: the settings always, the mint's files exactly with
/// a bundled mint and never over a seed, the mint's site exactly with TLS, and
/// snippets exactly for the operator's own proxy.
pub proof fn law_what_is_written_for_a_plan(
    plan: InstallPlan,
    dir: &str,
    unix_seconds: i64,
    seed_exists: bool,
    r: Result<ConfigWrites, String>,
)
    requires
        call_ensures(write_config, (&plan, dir, unix_seconds, seed_exists), r),
    ensures
        r is Ok <==> !(plan.mint is Some && seed_exists),
        r matches Ok(writes) ==> {
            &&& writes.env.mode == 0o600
            &&& writes.env.path@ == paths::below(dir@, ".env"@)
            &&& writes.mint is Some <==> plan.mint is Some
            &&& writes.proxy_snippets <==> plan.access == AccessMode::BehindProxy
            &&& writes.mint_site ==> plan.access == AccessMode::DomainTls && plan.mint is Some
            &&& plan.access == AccessMode::DomainTls && plan.mint is Some
                && plan.mint->0.mint_domain@.len() > 0 ==> writes.mint_site
            &&& writes.acme_email@ == plan.acme_email@
            &&& plan.mint matches Some(m) ==> {
                let files = writes.mint->0;
                &&& files.dir_mode == 0o700
                &&& files.config.mode == 0o600
                &&& files.seed.mode == 0o600
                &&& files.seed.exclusive
                &&& files.seed.contents@ == m.mnemonic@
                &&& files.dir@ == paths::below(dir@, "mint"@)
                &&& files.seed.path@ == paths::below(files.dir@, "mnemonic"@)
                &&& files.config.path@ == paths::below(files.dir@, "config.toml"@)
                &&& text::found(files.config.contents@, "url = \""@ + m.mint_url@ + "\"\n"@) is Some
                &&& plan.attach matches Some(a) ==> text::found(
                    files.config.contents@,
                    "supported_units = [\""@ + a.unit@ + "\"]\n"@,
                ) is Some
            }
        },
{
    if let Some(m) = plan.mint {
        mint::law_config_names_unit_and_url(plan.unit(), m.mint_url@);
    }
}

/// Certificates are waited for exactly with TLS: the console's, and that of a
/// bundled mint with a hostname of its own.
pub proof fn law_hostnames_to_check(plan: InstallPlan, r: Vec<String>)
    requires
        call_ensures(domains_to_check, (&plan,), r),
    ensures
        plan.access != AccessMode::DomainTls ==> r@.len() == 0,
        plan.access == AccessMode::DomainTls ==> text::texts(r@)[0] == plan.console_domain@,
        plan.access == AccessMode::DomainTls ==> (r@.len() == 2 <==> (plan.mint matches Some(m)
            && m.mint_domain@.len() > 0)),
        r@.len() <= 2,
        r@.len() == 2 ==> plan.mint is Some && text::texts(r@)[1] == plan.mint->0.mint_domain@,
{
    assert(text::texts(r@).len() == r@.len());
}

/// A platform is taken exactly where images are published for it, and macOS
/// with a warning.
pub proof fn law_platforms(arch: &str, os: &str, r: Result<Option<&'static str>, String>)
    requires
        call_ensures(preflight_platform, (arch, os), r),
    ensures
        r is Ok <==> (arch@ == "x86_64"@ || arch@ == "aarch64"@) && (os@ == "linux"@ || os@
            == "macos"@),
        os@ == "linux"@ ==> r != Ok::<Option<&'static str>, String>(Some(MACOS_WARNING)),
        r matches Ok(Some(_)) ==> os@ == "macos"@,
        r matches Ok(None) ==> os@ == "linux"@,
{
    reveal_strlit("linux");
    reveal_strlit("macos");
    assert("linux"@[0] != "macos"@[0]);
}

/// The wizard runs exactly with a terminal and without `--yes`.
pub proof fn law_front_ends(args: InstallArgs, have_tty: bool, r: FrontEnd)
    requires
        call_ensures(run, (&args, have_tty), r),
    ensures
        args.yes ==> r == FrontEnd::Flags,
        !have_tty ==> r == FrontEnd::Flags,
        !args.yes && have_tty ==> r == FrontEnd::Wizard,
{
}

/// What compose is to run for an installation: images are pulled quietly, and the
/// stack is started with the images that are there, waiting for it.
pub proof fn law_stack_is_started_as_pulled(pull: Vec<String>, up: Vec<String>)
    requires
        call_ensures(pull_args, (), pull),
        call_ensures(up_args, (), up),
    ensures
        text::texts(pull@)[0] == "pull"@,
        ({
            let u = text::texts(up@);
            &&& u[0] == "up"@ && u[1] == "-d"@
            &&& exists|k: int|
                0 <= k < u.len() - 1 && #[trigger] u[k] == "--pull"@ && u[k + 1] == "never"@
            &&& u.contains("--wait"@)
        }),
{
    let u = text::texts(up@);
    assert(u[2] == "--pull"@ && u[3] == "never"@ && u[4] == "--wait"@);
}

/// DNS that is not confirmed is warned of, and so is whatever else there is to
/// say; DNS that is gives no warning of its own.
pub proof fn law_unconfirmed_dns_is_warned_of(
    domain: &str,
    matches: Option<bool>,
    advisory: Option<String>,
    r: Vec<String>,
)
    requires
        call_ensures(warn_on_unconfirmed_dns, (domain, matches, advisory), r),
    ensures
        matches != Some(true) ==> r@.len() > 0 && text::begins(
            text::texts(r@)[0],
            "DNS for "@ + domain@,
        ),
        advisory matches Some(warning) ==> r@.len() > 0 && text::texts(r@).last() == warning@,
        matches == Some(true) && advisory is None ==> r@.len() == 0,
        r@.len() == (if matches == Some(true) {
            0int
        } else {
            1
        }) + (if advisory is Some {
            1int
        } else {
            0
        }),
{
    let s = text::texts(r@);
    assert(s.len() == r@.len());
    let head = "DNS for "@ + domain@;
    if matches != Some(true) {
        assert(s[0].take(head.len() as int) =~= head);
    }
}

/// A plan says of itself what it is: its profiles, the unit that it serves, the
/// mint's site exactly with TLS and a hostname for the mint, and where its
/// payment gRPC is reached.
pub proof fn law_what_a_plan_says(
    plan: InstallPlan,
    profiles: String,
    unit: String,
    site: bool,
    grpc: String,
)
    requires
        call_ensures(InstallPlan::compose_profiles, (&plan,), profiles),
        call_ensures(InstallPlan::attached_unit, (&plan,), unit),
        call_ensures(InstallPlan::mint_site_enabled, (&plan,), site),
        call_ensures(InstallPlan::grpc_endpoint, (&plan,), grpc),
    ensures
        names_profile(profiles@, "tls"@) <==> plan.access == AccessMode::DomainTls,
        names_profile(profiles@, "mint"@) <==> plan.mint is Some,
        plan.attach matches Some(a) ==> unit@ == a.unit@,
        plan.attach is None ==> unit@.len() == 0,
        site <==> plan.access == AccessMode::DomainTls && plan.mint is Some
            && plan.mint->0.mint_domain@.len() > 0,
        grpc@ == plan.grpc_bind_addr@ + ":"@ + text::decimal(plan.grpc_port as nat),
{
    law_profiles_tell_the_shape(plan.access, plan.mint is Some);
}

/// The console listens on all interfaces exactly in plain HTTP, and a bundled
/// mint with it. A mint has the port that was asked for, and 3338 otherwise.
pub proof fn law_what_is_bound(
    access: AccessMode,
    bind: &'static str,
    port: Option<u16>,
    mint_port: u16,
    domain: &str,
    url: &str,
    version: Option<String>,
    m: MintPlan,
)
    requires
        call_ensures(bind_for, (access,), bind),
        call_ensures(mint_port_of, (port,), mint_port),
        call_ensures(bundled_mint, (access, domain, url, mint_port, &version), m),
    ensures
        access == AccessMode::PlainHttp ==> bind@ == "0.0.0.0"@,
        access != AccessMode::PlainHttp ==> bind@ == "127.0.0.1"@,
        port matches Some(p) ==> mint_port == p,
        port is None ==> mint_port == 3338,
        m.mint_bind_addr@ == bind@,
        m.mint_port == mint_port,
        m.mint_url@ == url@,
        access != AccessMode::PlainHttp ==> m.mint_domain@ == domain@,
        access == AccessMode::PlainHttp ==> m.mint_domain@.len() == 0,
        version matches Some(tag) ==> m.mintd_version@ == tag@,
        version is None ==> m.mintd_version@ == "0.18.0-rc.0"@,
        mint::twelve_words(m.mnemonic@),
{
    mint::law_seed_is_twelve_words(m.mnemonic@);
}

/// Ports are accepted exactly where none is zero and no two are the same, and a
/// mint's tag exactly where it is a valid one.
pub proof fn law_which_ports_are_accepted(
    ports: Vec<u16>,
    r: Result<(), String>,
    plan: InstallPlan,
    tag: Result<(), String>,
)
    requires
        call_ensures(check_host_ports, (&ports,), r),
        call_ensures(check_mint_tag, (&plan,), tag),
    ensures
        r is Ok <==> (forall|i: int| 0 <= i < ports@.len() ==> #[trigger] ports@[i] != 0) && (forall|
            i: int,
            j: int,
        |
            0 <= i < j < ports@.len() ==> #[trigger] ports@[i] != #[trigger] ports@[j]),
        plan.mint is None ==> tag is Ok,
        plan.mint matches Some(m) ==> (tag is Ok <==> release::valid_tag(m.mintd_version@)),
{
    if r is Ok {
        assert forall|i: int| 0 <= i < ports@.len() implies #[trigger] ports@[i] != 0 by {
            assert(ports@.contains(ports@[i]));
        }
    }
}

/// A file is taken for a compose file exactly where a line of it begins with
/// `services:`.
pub proof fn law_what_a_compose_file_is(content: &str, r: Result<(), String>)
    requires
        call_ensures(fetch_deploy_artifacts, (content,), r),
    ensures
        r is Ok <==> exists|i: int, rest: Seq<char>|
            0 <= i < text::lines_of(content@).len() && #[trigger] text::lines_of(content@)[i]
                == #[trigger] ("services:"@ + rest),
        r matches Err(message) ==> message@
            == "downloaded docker-compose.yml looks wrong; aborting"@,
{
    let lines = text::lines_of(content@);
    let p = "services:"@;
    assert forall|i: int, rest: Seq<char>|
        0 <= i < lines.len() && #[trigger] lines[i] == #[trigger] (p + rest) implies r is Ok by {
        assert(lines[i].take(p.len() as int) =~= p);
        assert(text::begins(lines[i], p));
    }
    if r is Ok {
        let i = choose|i: int| 0 <= i < lines.len() && text::begins(#[trigger] lines[i], p);
        let rest = lines[i].skip(p.len() as int);
        assert(lines[i] =~= p + rest);
    }
}

/// Staged files are checked where they are staged, as the installation's own
/// project, and committed with the settings last.
pub proof fn law_staged_files_are_checked(
    stack: Stack,
    staging: &str,
    env: EnvFile,
    project: String,
    r: CommandLine,
    files: Vec<String>,
)
    requires
        call_ensures(check_staged, (&stack, staging, &env), r),
        call_ensures(Stack::project, (&stack, &env), project),
        call_ensures(committed_files, (), files),
        staging@.len() > 0,
        staging@.last() != '/',
    ensures
        ({
            let s = text::texts(r.args@);
            &&& r.program@ == "docker"@
            &&& r.current_dir@ == stack.install_dir@
            &&& compose::option_is(s, "-f"@, staging@ + "/docker-compose.yml"@)
            &&& compose::option_is(s, "--env-file"@, staging@ + "/.env"@)
            &&& compose::option_is(s, "--project-directory"@, stack.install_dir@)
            &&& compose::option_is(s, "--project-name"@, project@)
            &&& s.skip(9) == seq!["config"@, "--quiet"@]
        }),
        text::texts(files@) == seq![
            "docker-compose.yml"@,
            "Caddyfile"@,
            ".env.example"@,
            "mintctl"@,
            "mint"@,
            "proxy-snippets"@,
            ".env"@,
        ],
{
    let s = text::texts(r.args@);
    reveal_strlit("docker-compose.yml");
    reveal_strlit("/docker-compose.yml");
    reveal_strlit(".env");
    reveal_strlit("/.env");
    assert(s[2] =~= staging@ + "/docker-compose.yml"@);
    assert(s[4] =~= staging@ + "/.env"@);
    assert(s[1] == "-f"@ && s[3] == "--env-file"@);
    assert(s[5] == "--project-directory"@ && s[6] == stack.install_dir@);
    assert(s[7] == "--project-name"@ && s[8] == project@);
    assert(s.skip(9) =~= seq!["config"@, "--quiet"@]);
}

/// A local image is the release's, and it is refused exactly where it is not
/// there. A pull is well exactly where it succeeded. The mint checks its own
/// configuration in a container of its own, without what it depends on.
pub proof fn law_images_and_checks(
    version: &str,
    present: bool,
    reference: String,
    r: Result<(), String>,
    success: bool,
    pulled: Result<(), String>,
    check: Vec<String>,
)
    requires
        call_ensures(local_image, (version,), reference),
        call_ensures(ensure_local_image, (version, present), r),
        call_ensures(pull_image, (success,), pulled),
        call_ensures(validate_mint_config, (), check),
    ensures
        r is Ok <==> present,
        r matches Err(message) ==> text::found(message@, reference@) is Some,
        reference@ == "ghcr.io/zeugmaster/pecan:"@ + version@,
        pulled is Ok <==> success,
        text::texts(check@).take(4) == seq!["run"@, "--rm"@, "--no-deps"@, "mintd"@],
        text::texts(check@).skip(7) == seq![
            "config"@,
            "validate"@,
            "--file"@,
            "/config/mint.toml"@,
        ],
{
    assert(text::texts(check@).take(4) =~= seq!["run"@, "--rm"@, "--no-deps"@, "mintd"@]);
    assert(text::texts(check@).skip(7) =~= seq![
        "config"@,
        "validate"@,
        "--file"@,
        "/config/mint.toml"@,
    ]);
    reveal_strlit("ghcr.io/");
    reveal_strlit("zeugmaster/pecan");
    reveal_strlit(":");
    reveal_strlit("ghcr.io/zeugmaster/pecan:");
    assert(reference@ =~= "ghcr.io/zeugmaster/pecan:"@ + version@);
    if let Err(message) = r {
        let head = "--no-pull was given, but "@;
        let rest = " is not in the local docker daemon. Build and tag it first:\n  docker compose build processor\n  docker tag pecan:dev "@
            + reference@ + "\n(or drop --no-pull to pull a published tag)"@;
        assert(message@ =~= head + reference@ + rest);
        text::lemma_found_between(head, reference@, rest);
    }
}

/// The command is linked to the installation's own, unless it is already. A
/// directory on the search path counts whatever slash it ends in.
pub proof fn law_command_is_linked(
    install_dir: &str,
    target: String,
    t: &str,
    linked: bool,
    fresh: bool,
    link: &str,
    dirs: Vec<String>,
    dir: &str,
    found: bool,
    told: Vec<String>,
    hint: bool,
)
    requires
        install_dir@.len() > 0,
        install_dir@.last() != '/',
        call_ensures(cli_target, (install_dir,), target),
        t@ == target@,
        call_ensures(install_cli_symlink, (t, Some(t)), linked),
        call_ensures(install_cli_symlink, (t, None), fresh),
        call_ensures(on_path, (&dirs, dir), found),
        call_ensures(cli_linked, (link, hint), told),
    ensures
        target@ == install_dir@ + "/mintctl"@,
        !linked,
        fresh,
        dir@.len() > 0 ==> forall|k: int|
            0 <= k < dirs@.len() && (#[trigger] dirs@[k]@ == dir@ || dirs@[k]@ == dir@.push('/'))
                ==> found,
        dirs@.len() == 0 ==> !found,
        text::texts(told@)[0] == "installed the management CLI as "@ + link@,
        told@.len() == (if hint {
            1int
        } else {
            2
        }),
{
    reveal_strlit("mintctl");
    reveal_strlit("/mintctl");
    assert(target@ =~= install_dir@ + "/mintctl"@);
    assert(text::texts(told@).len() == told@.len());
    if dir@.len() > 0 {
        paths::law_slash_at_the_end(dir@);
        assert forall|k: int|
            0 <= k < dirs@.len() && (#[trigger] dirs@[k]@ == dir@ || dirs@[k]@ == dir@.push('/'))
            implies found by {
            assert(paths::same_path(dirs@[k]@, dir@));
        }
    }
}

/// Certificates are waited for at the hostname that gets them: the console's
/// health, and what the mint says of itself.
pub proof fn law_certificates_are_waited_for(
    domain: &str,
    budget: u64,
    console: Poll,
    mint: Poll,
    url: &str,
    other: Poll,
)
    requires
        call_ensures(wait_for_tls, (domain, budget), console),
        call_ensures(wait_for_mint_tls, (domain, budget), mint),
        call_ensures(wait_for_tls_url, (url, budget), other),
    ensures
        console.url@ == "https://"@ + domain@ + "/healthz"@,
        mint.url@ == "https://"@ + domain@ + "/v1/info"@,
        other.url@ == url@,
        console.budget_secs == budget && mint.budget_secs == budget && other.budget_secs == budget,
        console.timeout_secs == 5 && console.pause_secs == 3,
        mint.timeout_secs == 5 && mint.pause_secs == 3,
        other.timeout_secs == 5 && other.pause_secs == 3,
{
}

/// Flags that are refused are refused for the first thing that is wrong with
/// them: the console's hostname, the unit, what a bundled or an existing mint
/// needs, and then the ports.
pub proof fn law_why_flags_are_refused(
    args: InstallArgs,
    install_dir: String,
    version: String,
    facts: HostFacts,
    message: String,
)
    requires
        call_ensures(
            plan_from_flags,
            (&args, install_dir, version, &facts),
            Err::<InstallPlan, String>(message),
        ),
    ensures
        ({
            let named = args.console_domain is Some && args.console_domain->0@.len() > 0;
            let mint_named = args.mint_domain is Some && args.mint_domain->0@.len() > 0;
            let plain = !args.behind_proxy && (args.plain_http || !named);
            let reached = (named ==> facts.console_domain_ok) && (args.behind_proxy ==> named);
            let measured = args.unit is Some && mint::checked_unit(args.unit->0@) is Ok;
            let elsewhere = args.grpc_bind is Some && args.grpc_bind->0@ != "127.0.0.1"@;
            let bundled = reached && args.with_mint;
            let other = reached && !args.with_mint;
            &&& named && !facts.console_domain_ok ==> message@ == "--console-domain "@
                + args.console_domain->0@
                + " is not a valid hostname (lowercase labels, dots, no scheme)"@
            &&& args.behind_proxy && !named ==> message@
                == "--behind-proxy needs --console-domain: your proxy's public hostname for the console"@
            &&& reached && args.unit is Some && !measured ==> mint::checked_unit(args.unit->0@)
                == Err::<Seq<char>, Seq<char>>(message@)
            &&& bundled && args.unit is None ==> message@
                == "--with-mint needs --unit: the currency unit this install serves"@
            &&& bundled && measured && !plain && !mint_named ==> message@
                == "--with-mint needs --mint-domain: the mint's public hostname wallets connect to"@
            &&& bundled && measured && !plain && mint_named && !facts.mint_domain_ok ==> message@
                == "--mint-domain "@ + args.mint_domain->0@ + " is not a valid hostname"@
            &&& bundled && measured && !plain && mint_named && facts.mint_domain_ok
                && args.mint_domain->0@ == args.console_domain->0@ ==> message@
                == "--mint-domain must differ from --console-domain — they are two sites"@
            &&& bundled && measured && plain && args.mint_url is None && facts.public_ip is None
                ==> message@
                == "could not detect this server's public IP for the mint URL — pass --mint-url http://<address>:"@
                + text::decimal(
                match args.mint_port {
                    Some(port) => port as nat,
                    None => 3338,
                },
            )
            &&& other && measured && args.mint_url is None ==> message@
                == "--unit without --with-mint needs --mint-url: the existing mint's public URL"@
            &&& other && args.unit is None && args.mint_url is Some ==> message@
                == "--mint-url needs --unit: attaching a mint requires both"@
            &&& other && measured && args.mint_url is Some && elsewhere && args.advertised_grpc
                is None && facts.public_ip is None ==> message@
                == "could not detect this server's public IP for the advertised gRPC endpoint — pass --advertised-grpc <host:port>"@
        }),
{
}

/// The refusal of a directory names it, and tells credentials from mint
/// material.
pub proof fn law_why_a_directory_is_refused(
    install_dir: &str,
    mint_exists: bool,
    taken: Result<(), String>,
    mint_only: Result<(), String>,
)
    requires
        call_ensures(guard_fresh_dir, (install_dir, true, mint_exists), taken),
        call_ensures(guard_fresh_dir, (install_dir, false, true), mint_only),
    ensures
        taken is Err && text::begins(
            taken->Err_0@,
            "an installation already exists in "@ + install_dir@,
        ),
        mint_only is Err && mint_only->Err_0@ == install_dir@
            + " contains mint data from an earlier install; recover it before reinstalling"@,
{
    let head = "an installation already exists in "@ + install_dir@;
    assert(taken->Err_0@.take(head.len() as int) =~= head);
}

/// A link that leads to another file of the installation is made anew.
pub proof fn law_other_links_are_replaced(
    install_dir: &str,
    target: String,
    t: &str,
    name: Seq<char>,
    other: &str,
    r: bool,
)
    requires
        install_dir@.len() > 0,
        call_ensures(cli_target, (install_dir,), target),
        t@ == target@,
        paths::plain_name(name),
        other@ == paths::below(install_dir@, name),
        call_ensures(install_cli_symlink, (t, Some(other)), r),
    ensures
        r <==> name != "mintctl"@,
{
    reveal_strlit("mintctl");
    let mine = "mintctl"@;
    assert(mine[0] == 'm');
    paths::lemma_pieces_below(install_dir@, name);
    paths::lemma_pieces_below(install_dir@, mine);
    let names = paths::named(text::pieces_of(install_dir@, '/'));
    assert(names.push(name).last() == name);
    assert(names.push(mine).last() == mine);
}

} // verus!
