//! The guided installer's questions, one after another.
//!
//! Cancelling any prompt ends it without an installation.

use crate::args::InstallArgs;
use crate::install::AccessMode;
use crate::text;
use vstd::prelude::*;

verus! {

/// What the flags already answer.
#[derive(Debug, Clone, Copy, PartialEq, Eq, Structural)]
pub struct WizardFlags {
    pub version: bool,
    pub with_mint: bool,
    pub unit: bool,
    pub grpc_bind: bool,
    pub behind_proxy: bool,
    pub plain_http: bool,
    /// Whether a hostname for the console was given, be it an empty one.
    pub console_domain: bool,
    /// Whether it can be taken as it is.
    pub console_preset: bool,
    pub email: bool,
    pub mint_url: bool,
}

pub open spec fn flags_of(args: InstallArgs) -> WizardFlags {
    WizardFlags {
        version: args.version is Some,
        with_mint: args.with_mint,
        unit: text::or_empty(args.unit).len() > 0,
        grpc_bind: text::or_empty(args.grpc_bind).len() > 0,
        behind_proxy: args.behind_proxy,
        plain_http: args.plain_http,
        console_domain: args.console_domain is Some,
        console_preset: text::or_empty(args.console_domain).len() > 0,
        email: text::or_empty(args.email).len() > 0,
        mint_url: args.mint_url is Some,
    }
}

fn given(value: &Option<String>) -> (r: bool)
    ensures
        r == (text::or_empty(*value).len() > 0),
{
    match value {
        Some(v) => !v.as_str().is_empty(),
        None => false,
    }
}

pub fn flags(args: &InstallArgs) -> (r: WizardFlags)
    ensures
        r == flags_of(*args),
{
    WizardFlags {
        version: args.version.is_some(),
        with_mint: args.with_mint,
        unit: given(&args.unit),
        grpc_bind: given(&args.grpc_bind),
        behind_proxy: args.behind_proxy,
        plain_http: args.plain_http,
        console_domain: args.console_domain.is_some(),
        console_preset: given(&args.console_domain),
        email: given(&args.email),
        mint_url: args.mint_url.is_some(),
    }
}

#[derive(Debug, Clone, Copy, PartialEq, Eq, Structural)]
pub enum PortName {
    Console,
    Grpc,
    Mint,
}

/// What is asked or done next.
#[derive(Debug, Clone, Copy, PartialEq, Eq, Structural)]
pub enum WizardStep {
    /// Is the platform supported?
    CheckPlatform,
    ResolveVersion,
    /// Is Docker missing, and may this user install it?
    OfferDue,
    /// Prompt: install Docker now?
    OfferDocker,
    EnsureDocker { install: bool },
    ResolveDir,
    /// Is there an installation in the directory?
    DirTaken,
    /// Prompt: install a second instance elsewhere?
    AskElsewhere,
    /// Prompt: the directory.
    AskDir,
    /// Is there a public address?
    FindAddress,
    /// Prompt: with a bundled mint?
    AskMint,
    /// Is the port taken?
    PortBusy { port: PortName },
    /// Prompt: another port.
    AskPort { port: PortName },
    /// Prompt: the unit.
    AskUnit,
    /// Is the unit valid?
    CheckUnit,
    /// Prompt: does the operator's mint run on another machine?
    AskMintPlace,
    /// Are ports 80 and 443 taken?
    WebPortsBusy,
    /// Prompt: the access mode.
    AskAccess,
    /// Prompt: the console's hostname.
    AskConsoleDomain,
    /// Is a usable hostname for the mint given?
    MintPreset,
    /// Prompt: the mint's hostname.
    AskMintDomain,
    /// Prompt: the bundled Caddy although its ports are taken?
    AskDespiteBusy,
    /// Prompt: the certificate account.
    AskEmail,
    /// Show the records and wait for them; with its own prompts.
    ConfirmDns,
    /// Prompt: the address that wallets use.
    AskMintUrl,
    /// Prompt: install now?
    ConfirmInstall,
    /// Carry the plan out.
    Execute,
    End(WizardEnd),
}

#[derive(Debug, Clone, Copy, PartialEq, Eq, Structural)]
pub enum WizardEnd {
    Installed,
    /// The installation that is there is kept.
    Kept,
    Cancelled,
    Failed,
}

/// How a step was answered.
#[derive(Debug, Clone, Copy, PartialEq, Eq, Structural)]
pub enum Answer {
    Yes,
    No,
    /// An access mode was chosen.
    Access(AccessMode),
    /// The prompt was cancelled.
    Cancel,
    /// It did not work.
    Fail,
}

#[derive(Debug, Clone, Copy, PartialEq, Eq, Structural)]
pub struct Wizard {
    pub step: WizardStep,
    pub flags: WizardFlags,
    pub with_mint: bool,
    pub ip_known: bool,
    pub other_machine: bool,
    pub busy: bool,
    pub access: AccessMode,
}

pub open spec fn wizard_start(flags: WizardFlags) -> Wizard {
    Wizard {
        step: WizardStep::CheckPlatform,
        flags,
        with_mint: false,
        ip_known: false,
        other_machine: false,
        busy: false,
        access: AccessMode::PlainHttp,
    }
}

/// Whether a step waits for the operator, who may cancel it.
pub open spec fn is_prompt(step: WizardStep) -> bool {
    match step {
        WizardStep::OfferDocker | WizardStep::AskElsewhere | WizardStep::AskDir
        | WizardStep::AskMint | WizardStep::AskPort { .. } | WizardStep::AskUnit
        | WizardStep::AskMintPlace | WizardStep::AskAccess | WizardStep::AskConsoleDomain
        | WizardStep::AskMintDomain | WizardStep::AskDespiteBusy | WizardStep::AskEmail
        | WizardStep::ConfirmDns | WizardStep::AskMintUrl | WizardStep::ConfirmInstall => true,
        _ => false,
    }
}

/// With DNS confirmed or not needed: wallets need an address.
pub open spec fn email_known(w: Wizard) -> Wizard {
    if w.with_mint && !w.flags.mint_url && w.access == AccessMode::PlainHttp && !w.ip_known {
        Wizard { step: WizardStep::AskMintUrl, ..w }
    } else {
        Wizard { step: WizardStep::ConfirmInstall, ..w }
    }
}

/// With the access mode as it stays: certificates have an account.
pub open spec fn ports_settled(w: Wizard) -> Wizard {
    if w.access == AccessMode::DomainTls {
        if w.flags.email {
            Wizard { step: WizardStep::ConfirmDns, ..w }
        } else {
            Wizard { step: WizardStep::AskEmail, ..w }
        }
    } else {
        email_known(w)
    }
}

/// With all hostnames: the bundled Caddy may not get its ports.
pub open spec fn mint_named(w: Wizard) -> Wizard {
    if w.access == AccessMode::DomainTls && w.busy {
        Wizard { step: WizardStep::AskDespiteBusy, ..w }
    } else {
        ports_settled(w)
    }
}

/// With the console's hostname: a bundled mint needs one too.
pub open spec fn console_named(w: Wizard) -> Wizard {
    if w.with_mint {
        Wizard { step: WizardStep::MintPreset, ..w }
    } else {
        mint_named(w)
    }
}

/// With an access mode: the console needs a hostname unless it is plain HTTP.
pub open spec fn access_settled(w: Wizard) -> Wizard {
    if w.access == AccessMode::PlainHttp {
        email_known(w)
    } else if w.flags.console_preset {
        console_named(w)
    } else {
        Wizard { step: WizardStep::AskConsoleDomain, ..w }
    }
}

/// After it is known whether ports 80 and 443 are taken: the flags settle the
/// access mode, or it is asked for.
pub open spec fn web_ports_known(w: Wizard) -> Wizard {
    if w.flags.behind_proxy {
        access_settled(Wizard { access: AccessMode::BehindProxy, ..w })
    } else if w.flags.plain_http {
        access_settled(Wizard { access: AccessMode::PlainHttp, ..w })
    } else if w.flags.console_domain && !w.busy {
        access_settled(Wizard { access: AccessMode::DomainTls, ..w })
    } else {
        Wizard { step: WizardStep::AskAccess, ..w }
    }
}

/// With the ports: the unit of a bundled mint, or where the operator's mint runs.
pub open spec fn ports_known(w: Wizard) -> Wizard {
    if w.with_mint {
        if w.flags.unit {
            Wizard { step: WizardStep::CheckUnit, ..w }
        } else {
            Wizard { step: WizardStep::AskUnit, ..w }
        }
    } else if w.flags.grpc_bind {
        Wizard { step: WizardStep::WebPortsBusy, ..w }
    } else {
        Wizard { step: WizardStep::AskMintPlace, ..w }
    }
}

/// With one port: the next one.
pub open spec fn port_known(w: Wizard, port: PortName) -> Wizard {
    match port {
        PortName::Console => Wizard { step: WizardStep::PortBusy { port: PortName::Grpc }, ..w },
        PortName::Grpc => if w.with_mint {
            Wizard { step: WizardStep::PortBusy { port: PortName::Mint }, ..w }
        } else {
            ports_known(w)
        },
        PortName::Mint => ports_known(w),
    }
}

/// With the shape: the ports are looked at, one by one.
pub open spec fn shape_known(w: Wizard) -> Wizard {
    Wizard { step: WizardStep::PortBusy { port: PortName::Console }, ..w }
}

/// With the public address looked for: the shape is asked for unless the flags
/// name it.
pub open spec fn address_known(w: Wizard, ip_known: bool) -> Wizard {
    if w.flags.with_mint {
        shape_known(Wizard { ip_known, with_mint: true, ..w })
    } else {
        Wizard { step: WizardStep::AskMint, ip_known, ..w }
    }
}

/// After a step that was answered with yes.
pub open spec fn agreed(w: Wizard) -> Wizard {
    match w.step {
        WizardStep::CheckPlatform => if w.flags.version {
            Wizard { step: WizardStep::OfferDue, ..w }
        } else {
            Wizard { step: WizardStep::ResolveVersion, ..w }
        },
        WizardStep::ResolveVersion => Wizard { step: WizardStep::OfferDue, ..w },
        WizardStep::OfferDue => Wizard { step: WizardStep::OfferDocker, ..w },
        WizardStep::OfferDocker => Wizard { step: WizardStep::EnsureDocker { install: true }, ..w },
        WizardStep::EnsureDocker { .. } => Wizard { step: WizardStep::ResolveDir, ..w },
        WizardStep::ResolveDir => Wizard { step: WizardStep::DirTaken, ..w },
        WizardStep::DirTaken => Wizard { step: WizardStep::AskElsewhere, ..w },
        WizardStep::AskElsewhere => Wizard { step: WizardStep::AskDir, ..w },
        WizardStep::AskDir => Wizard { step: WizardStep::ResolveDir, ..w },
        WizardStep::FindAddress => address_known(w, true),
        WizardStep::AskMint => shape_known(Wizard { with_mint: true, ..w }),
        WizardStep::PortBusy { port } => Wizard { step: WizardStep::AskPort { port }, ..w },
        WizardStep::AskPort { port } => port_known(w, port),
        WizardStep::AskUnit => Wizard { step: WizardStep::CheckUnit, ..w },
        WizardStep::CheckUnit => Wizard { step: WizardStep::WebPortsBusy, ..w },
        WizardStep::AskMintPlace => Wizard {
            step: WizardStep::WebPortsBusy,
            other_machine: true,
            ..w
        },
        WizardStep::WebPortsBusy => web_ports_known(Wizard { busy: true, ..w }),
        WizardStep::AskConsoleDomain => console_named(w),
        WizardStep::MintPreset => mint_named(w),
        WizardStep::AskMintDomain => mint_named(w),
        WizardStep::AskDespiteBusy => ports_settled(w),
        WizardStep::AskEmail => Wizard { step: WizardStep::ConfirmDns, ..w },
        WizardStep::ConfirmDns => email_known(w),
        WizardStep::AskMintUrl => Wizard { step: WizardStep::ConfirmInstall, ..w },
        WizardStep::ConfirmInstall => Wizard { step: WizardStep::Execute, ..w },
        WizardStep::Execute => Wizard { step: WizardStep::End(WizardEnd::Installed), ..w },
        WizardStep::AskAccess => Wizard { step: WizardStep::End(WizardEnd::Failed), ..w },
        WizardStep::End(end) => Wizard { step: WizardStep::End(end), ..w },
    }
}

/// After a step that was answered with no.
pub open spec fn declined(w: Wizard) -> Wizard {
    match w.step {
        WizardStep::OfferDue => Wizard { step: WizardStep::EnsureDocker { install: false }, ..w },
        WizardStep::OfferDocker => Wizard { step: WizardStep::EnsureDocker { install: false }, ..w },
        WizardStep::DirTaken => Wizard { step: WizardStep::FindAddress, ..w },
        WizardStep::AskElsewhere => Wizard { step: WizardStep::End(WizardEnd::Kept), ..w },
        WizardStep::FindAddress => address_known(w, false),
        WizardStep::AskMint => shape_known(Wizard { with_mint: false, ..w }),
        WizardStep::PortBusy { port } => port_known(w, port),
        WizardStep::AskMintPlace => Wizard {
            step: WizardStep::WebPortsBusy,
            other_machine: false,
            ..w
        },
        WizardStep::WebPortsBusy => web_ports_known(Wizard { busy: false, ..w }),
        WizardStep::MintPreset => Wizard { step: WizardStep::AskMintDomain, ..w },
        WizardStep::AskDespiteBusy => ports_settled(
            Wizard { access: AccessMode::BehindProxy, ..w },
        ),
        WizardStep::ConfirmDns => Wizard { step: WizardStep::End(WizardEnd::Cancelled), ..w },
        WizardStep::ConfirmInstall => Wizard { step: WizardStep::End(WizardEnd::Cancelled), ..w },
        WizardStep::End(end) => Wizard { step: WizardStep::End(end), ..w },
        _ => Wizard { step: WizardStep::End(WizardEnd::Failed), ..w },
    }
}

/// After an access mode was chosen, or plain HTTP instead of waiting for DNS.
pub open spec fn chosen(w: Wizard, access: AccessMode) -> Wizard {
    match w.step {
        WizardStep::AskAccess => access_settled(Wizard { access, ..w }),
        WizardStep::ConfirmDns => if access == AccessMode::PlainHttp {
            email_known(Wizard { access, ..w })
        } else {
            Wizard { step: WizardStep::End(WizardEnd::Failed), ..w }
        },
        WizardStep::End(end) => Wizard { step: WizardStep::End(end), ..w },
        _ => Wizard { step: WizardStep::End(WizardEnd::Failed), ..w },
    }
}

/// A step that was cancelled or did not work.
pub open spec fn broken_off(w: Wizard, cancelled: bool) -> Wizard {
    let step = match w.step {
        WizardStep::End(end) => WizardStep::End(end),
        _ => if cancelled && is_prompt(w.step) {
            WizardStep::End(WizardEnd::Cancelled)
        } else {
            WizardStep::End(WizardEnd::Failed)
        },
    };
    Wizard { step, ..w }
}

#[verifier::opaque]
pub open spec fn wizard_next(w: Wizard, answer: Answer) -> Wizard {
    match answer {
        Answer::Yes => agreed(w),
        Answer::No => declined(w),
        Answer::Access(access) => chosen(w, access),
        Answer::Cancel => broken_off(w, true),
        Answer::Fail => broken_off(w, false),
    }
}

fn enter_email_known(w: Wizard) -> (r: Wizard)
    ensures
        r == email_known(w),
{
    if w.with_mint && !w.flags.mint_url && w.access == AccessMode::PlainHttp && !w.ip_known {
        Wizard { step: WizardStep::AskMintUrl, ..w }
    } else {
        Wizard { step: WizardStep::ConfirmInstall, ..w }
    }
}

fn enter_ports_settled(w: Wizard) -> (r: Wizard)
    ensures
        r == ports_settled(w),
{
    if w.access == AccessMode::DomainTls {
        if w.flags.email {
            Wizard { step: WizardStep::ConfirmDns, ..w }
        } else {
            Wizard { step: WizardStep::AskEmail, ..w }
        }
    } else {
        enter_email_known(w)
    }
}

fn enter_mint_named(w: Wizard) -> (r: Wizard)
    ensures
        r == mint_named(w),
{
    if w.access == AccessMode::DomainTls && w.busy {
        Wizard { step: WizardStep::AskDespiteBusy, ..w }
    } else {
        enter_ports_settled(w)
    }
}

fn enter_console_named(w: Wizard) -> (r: Wizard)
    ensures
        r == console_named(w),
{
    if w.with_mint {
        Wizard { step: WizardStep::MintPreset, ..w }
    } else {
        enter_mint_named(w)
    }
}

fn enter_access_settled(w: Wizard) -> (r: Wizard)
    ensures
        r == access_settled(w),
{
    if w.access == AccessMode::PlainHttp {
        enter_email_known(w)
    } else if w.flags.console_preset {
        enter_console_named(w)
    } else {
        Wizard { step: WizardStep::AskConsoleDomain, ..w }
    }
}

fn enter_web_ports_known(w: Wizard) -> (r: Wizard)
    ensures
        r == web_ports_known(w),
{
    if w.flags.behind_proxy {
        enter_access_settled(Wizard { access: AccessMode::BehindProxy, ..w })
    } else if w.flags.plain_http {
        enter_access_settled(Wizard { access: AccessMode::PlainHttp, ..w })
    } else if w.flags.console_domain && !w.busy {
        enter_access_settled(Wizard { access: AccessMode::DomainTls, ..w })
    } else {
        Wizard { step: WizardStep::AskAccess, ..w }
    }
}

fn enter_ports_known(w: Wizard) -> (r: Wizard)
    ensures
        r == ports_known(w),
{
    if w.with_mint {
        if w.flags.unit {
            Wizard { step: WizardStep::CheckUnit, ..w }
        } else {
            Wizard { step: WizardStep::AskUnit, ..w }
        }
    } else if w.flags.grpc_bind {
        Wizard { step: WizardStep::WebPortsBusy, ..w }
    } else {
        Wizard { step: WizardStep::AskMintPlace, ..w }
    }
}

fn enter_port_known(w: Wizard, port: PortName) -> (r: Wizard)
    ensures
        r == port_known(w, port),
{
    match port {
        PortName::Console => Wizard { step: WizardStep::PortBusy { port: PortName::Grpc }, ..w },
        PortName::Grpc => if w.with_mint {
            Wizard { step: WizardStep::PortBusy { port: PortName::Mint }, ..w }
        } else {
            enter_ports_known(w)
        },
        PortName::Mint => enter_ports_known(w),
    }
}

fn enter_shape_known(w: Wizard) -> (r: Wizard)
    ensures
        r == shape_known(w),
{
    Wizard { step: WizardStep::PortBusy { port: PortName::Console }, ..w }
}

fn enter_address_known(w: Wizard, ip_known: bool) -> (r: Wizard)
    ensures
        r == address_known(w, ip_known),
{
    if w.flags.with_mint {
        enter_shape_known(Wizard { ip_known, with_mint: true, ..w })
    } else {
        Wizard { step: WizardStep::AskMint, ip_known, ..w }
    }
}

fn enter_agreed(w: Wizard) -> (r: Wizard)
    ensures
        r == agreed(w),
{
    match w.step {
        WizardStep::CheckPlatform => if w.flags.version {
            Wizard { step: WizardStep::OfferDue, ..w }
        } else {
            Wizard { step: WizardStep::ResolveVersion, ..w }
        },
        WizardStep::ResolveVersion => Wizard { step: WizardStep::OfferDue, ..w },
        WizardStep::OfferDue => Wizard { step: WizardStep::OfferDocker, ..w },
        WizardStep::OfferDocker => Wizard { step: WizardStep::EnsureDocker { install: true }, ..w },
        WizardStep::EnsureDocker { .. } => Wizard { step: WizardStep::ResolveDir, ..w },
        WizardStep::ResolveDir => Wizard { step: WizardStep::DirTaken, ..w },
        WizardStep::DirTaken => Wizard { step: WizardStep::AskElsewhere, ..w },
        WizardStep::AskElsewhere => Wizard { step: WizardStep::AskDir, ..w },
        WizardStep::AskDir => Wizard { step: WizardStep::ResolveDir, ..w },
        WizardStep::FindAddress => enter_address_known(w, true),
        WizardStep::AskMint => enter_shape_known(Wizard { with_mint: true, ..w }),
        WizardStep::PortBusy { port } => Wizard { step: WizardStep::AskPort { port }, ..w },
        WizardStep::AskPort { port } => enter_port_known(w, port),
        WizardStep::AskUnit => Wizard { step: WizardStep::CheckUnit, ..w },
        WizardStep::CheckUnit => Wizard { step: WizardStep::WebPortsBusy, ..w },
        WizardStep::AskMintPlace => Wizard {
            step: WizardStep::WebPortsBusy,
            other_machine: true,
            ..w
        },
        WizardStep::WebPortsBusy => enter_web_ports_known(Wizard { busy: true, ..w }),
        WizardStep::AskConsoleDomain => enter_console_named(w),
        WizardStep::MintPreset => enter_mint_named(w),
        WizardStep::AskMintDomain => enter_mint_named(w),
        WizardStep::AskDespiteBusy => enter_ports_settled(w),
        WizardStep::AskEmail => Wizard { step: WizardStep::ConfirmDns, ..w },
        WizardStep::ConfirmDns => enter_email_known(w),
        WizardStep::AskMintUrl => Wizard { step: WizardStep::ConfirmInstall, ..w },
        WizardStep::ConfirmInstall => Wizard { step: WizardStep::Execute, ..w },
        WizardStep::Execute => Wizard { step: WizardStep::End(WizardEnd::Installed), ..w },
        WizardStep::AskAccess => Wizard { step: WizardStep::End(WizardEnd::Failed), ..w },
        WizardStep::End(end) => Wizard { step: WizardStep::End(end), ..w },
    }
}

fn enter_declined(w: Wizard) -> (r: Wizard)
    ensures
        r == declined(w),
{
    match w.step {
        WizardStep::OfferDue => Wizard { step: WizardStep::EnsureDocker { install: false }, ..w },
        WizardStep::OfferDocker => Wizard { step: WizardStep::EnsureDocker { install: false }, ..w },
        WizardStep::DirTaken => Wizard { step: WizardStep::FindAddress, ..w },
        WizardStep::AskElsewhere => Wizard { step: WizardStep::End(WizardEnd::Kept), ..w },
        WizardStep::FindAddress => enter_address_known(w, false),
        WizardStep::AskMint => enter_shape_known(Wizard { with_mint: false, ..w }),
        WizardStep::PortBusy { port } => enter_port_known(w, port),
        WizardStep::AskMintPlace => Wizard {
            step: WizardStep::WebPortsBusy,
            other_machine: false,
            ..w
        },
        WizardStep::WebPortsBusy => enter_web_ports_known(Wizard { busy: false, ..w }),
        WizardStep::MintPreset => Wizard { step: WizardStep::AskMintDomain, ..w },
        WizardStep::AskDespiteBusy => enter_ports_settled(
            Wizard { access: AccessMode::BehindProxy, ..w },
        ),
        WizardStep::ConfirmDns => Wizard { step: WizardStep::End(WizardEnd::Cancelled), ..w },
        WizardStep::ConfirmInstall => Wizard { step: WizardStep::End(WizardEnd::Cancelled), ..w },
        WizardStep::End(end) => Wizard { step: WizardStep::End(end), ..w },
        _ => Wizard { step: WizardStep::End(WizardEnd::Failed), ..w },
    }
}

fn enter_chosen(w: Wizard, access: AccessMode) -> (r: Wizard)
    ensures
        r == chosen(w, access),
{
    match w.step {
        WizardStep::AskAccess => enter_access_settled(Wizard { access, ..w }),
        WizardStep::ConfirmDns => if access == AccessMode::PlainHttp {
            enter_email_known(Wizard { access, ..w })
        } else {
            Wizard { step: WizardStep::End(WizardEnd::Failed), ..w }
        },
        WizardStep::End(end) => Wizard { step: WizardStep::End(end), ..w },
        _ => Wizard { step: WizardStep::End(WizardEnd::Failed), ..w },
    }
}

/// Starts the wizard; `next` takes it through its steps.
pub fn run(args: &InstallArgs) -> (r: Wizard)
    ensures
        r == wizard_start(flags_of(*args)),
{
    Wizard {
        step: WizardStep::CheckPlatform,
        flags: flags(args),
        with_mint: false,
        ip_known: false,
        other_machine: false,
        busy: false,
        access: AccessMode::PlainHttp,
    }
}

impl Wizard {
    /// Whether the operator may cancel the step.
    pub fn prompts(self) -> (r: bool)
        ensures
            r == is_prompt(self.step),
    {
        match self.step {
            WizardStep::OfferDocker | WizardStep::AskElsewhere | WizardStep::AskDir
            | WizardStep::AskMint | WizardStep::AskPort { .. } | WizardStep::AskUnit
            | WizardStep::AskMintPlace | WizardStep::AskAccess | WizardStep::AskConsoleDomain
            | WizardStep::AskMintDomain | WizardStep::AskDespiteBusy | WizardStep::AskEmail
            | WizardStep::ConfirmDns | WizardStep::AskMintUrl | WizardStep::ConfirmInstall => true,
            _ => false,
        }
    }

    fn break_off(self, cancelled: bool) -> (r: Self)
        ensures
            r == broken_off(self, cancelled),
    {
        let step = match self.step {
            WizardStep::End(end) => WizardStep::End(end),
            _ => if cancelled && self.prompts() {
                WizardStep::End(WizardEnd::Cancelled)
            } else {
                WizardStep::End(WizardEnd::Failed)
            },
        };
        Wizard { step, ..self }
    }

    pub fn next(self, answer: Answer) -> (r: Self)
        ensures
            r == wizard_next(self, answer),
    {
        proof {
            reveal(wizard_next);
        }
        match answer {
            Answer::Yes => enter_agreed(self),
            Answer::No => enter_declined(self),
            Answer::Access(access) => enter_chosen(self, access),
            Answer::Cancel => self.break_off(true),
            Answer::Fail => self.break_off(false),
        }
    }
}

pub const CANCELLED_OUTRO: &'static str = "Cancelled — nothing was changed.";

pub const CANCELLED_ERROR: &'static str = "install cancelled";

pub const KEPT_OUTRO: &'static str = "Nothing was changed.";

// ---------------------------------------------------------------------------
// laws
// ---------------------------------------------------------------------------
/// Where the wizard stands after these answers.
pub open spec fn wizard_after(flags: WizardFlags, answers: Seq<Answer>) -> Wizard
    decreases answers.len(),
{
    if answers.len() == 0 {
        wizard_start(flags)
    } else {
        wizard_next(wizard_after(flags, answers.drop_last()), answers.last())
    }
}

/// That the wizard came by this step, and how it was answered.
pub open spec fn came_by(
    flags: WizardFlags,
    answers: Seq<Answer>,
    step: WizardStep,
    answer: Answer,
) -> bool {
    exists|i: int|
        0 <= i < answers.len() && #[trigger] wizard_after(flags, answers.take(i)).step == step
            && answers[i] == answer
}

proof fn lemma_came_by(flags: WizardFlags, answers: Seq<Answer>, step: WizardStep, answer: Answer)
    requires
        answers.len() > 0,
    ensures
        came_by(flags, answers, step, answer) <==> came_by(
            flags,
            answers.drop_last(),
            step,
            answer,
        ) || (wizard_after(flags, answers.drop_last()).step == step && answers.last() == answer),
{
    let before = answers.drop_last();
    assert(answers.take(before.len() as int) =~= before);
    if came_by(flags, before, step, answer) {
        let i = choose|i: int|
            0 <= i < before.len() && #[trigger] wizard_after(flags, before.take(i)).step == step
                && before[i] == answer;
        assert(answers.take(i) =~= before.take(i));
    }
    if came_by(flags, answers, step, answer) {
        let i = choose|i: int|
            0 <= i < answers.len() && #[trigger] wizard_after(flags, answers.take(i)).step == step
                && answers[i] == answer;
        if i < before.len() {
            assert(before.take(i) =~= answers.take(i));
        }
    }
}

/// A question, and neither Docker nor the installation nor the end.
spec fn asking(step: WizardStep) -> bool {
    match step {
        WizardStep::EnsureDocker { .. } | WizardStep::Execute | WizardStep::End(_) => false,
        _ => true,
    }
}

/// Going on to the next question asks a question and keeps the flags.
proof fn lemma_going_on(w: Wizard, port: PortName, ip_known: bool)
    ensures
        asking(email_known(w).step) && email_known(w).flags == w.flags,
        asking(ports_settled(w).step) && ports_settled(w).flags == w.flags,
        asking(mint_named(w).step) && mint_named(w).flags == w.flags,
        asking(console_named(w).step) && console_named(w).flags == w.flags,
        asking(access_settled(w).step) && access_settled(w).flags == w.flags,
        asking(port_known(w, port).step) && port_known(w, port).flags == w.flags,
        asking(shape_known(w).step) && shape_known(w).flags == w.flags,
        asking(address_known(w, ip_known).step) && address_known(w, ip_known).flags == w.flags,
{
}

proof fn lemma_web_ports_going_on(w: Wizard)
    ensures
        asking(web_ports_known(w).step) && web_ports_known(w).flags == w.flags,
{
    lemma_going_on(
        Wizard { access: AccessMode::BehindProxy, ..w },
        PortName::Console,
        false,
    );
    lemma_going_on(Wizard { access: AccessMode::PlainHttp, ..w }, PortName::Console, false);
    lemma_going_on(Wizard { access: AccessMode::DomainTls, ..w }, PortName::Console, false);
}

/// What one answer does to the steps that matter most.
spec fn fair(w: Wizard, answer: Answer, next: Wizard) -> bool {
    &&& next.flags == w.flags
    &&& next.step is Execute ==> answer == Answer::Yes && w.step is ConfirmInstall
    &&& w.step is Execute ==> next.step is End && next.step != WizardStep::End(
        WizardEnd::Cancelled,
    ) && next.step != WizardStep::End(WizardEnd::Kept)
    &&& w.step is End ==> next.step == w.step
    &&& next.step == (WizardStep::EnsureDocker { install: true }) ==> answer == Answer::Yes
        && w.step is OfferDocker
}

proof fn lemma_yes_is_fair(w: Wizard)
    ensures
        fair(w, Answer::Yes, agreed(w)),
{
    match w.step {
        WizardStep::WebPortsBusy => {
            lemma_web_ports_going_on(Wizard { busy: true, ..w });
        },
        WizardStep::AskMint => {
            lemma_going_on(Wizard { with_mint: true, ..w }, PortName::Console, true);
        },
        WizardStep::AskPort { port } => {
            lemma_going_on(w, port, true);
        },
        _ => {
            lemma_going_on(w, PortName::Console, true);
        },
    }
}

proof fn lemma_no_is_fair(w: Wizard)
    ensures
        fair(w, Answer::No, declined(w)),
{
    match w.step {
        WizardStep::WebPortsBusy => {
            lemma_web_ports_going_on(Wizard { busy: false, ..w });
        },
        WizardStep::AskMint => {
            lemma_going_on(Wizard { with_mint: false, ..w }, PortName::Console, false);
        },
        WizardStep::PortBusy { port } => {
            lemma_going_on(w, port, false);
        },
        WizardStep::AskDespiteBusy => {
            lemma_going_on(
                Wizard { access: AccessMode::BehindProxy, ..w },
                PortName::Console,
                false,
            );
        },
        _ => {
            lemma_going_on(w, PortName::Console, false);
        },
    }
}

proof fn lemma_one_answer(w: Wizard, answer: Answer)
    ensures
        fair(w, answer, wizard_next(w, answer)),
{
    reveal(wizard_next);
    match answer {
        Answer::Yes => lemma_yes_is_fair(w),
        Answer::No => lemma_no_is_fair(w),
        Answer::Access(access) => lemma_going_on(Wizard { access, ..w }, PortName::Console, false),
        Answer::Cancel => {},
        Answer::Fail => {},
    }
}

/// Nothing is installed unless the operator confirmed it: the plan is carried
/// out right after that prompt was answered with yes.
pub proof fn law_install_needs_confirmation(flags: WizardFlags, answers: Seq<Answer>)
    requires
        wizard_after(flags, answers).step is Execute,
    ensures
        answers.len() > 0,
        answers.last() == Answer::Yes,
        wizard_after(flags, answers.drop_last()).step is ConfirmInstall,
{
    if answers.len() > 0 {
        lemma_one_answer(wizard_after(flags, answers.drop_last()), answers.last());
    }
}

/// Cancelling, at whichever prompt, and keeping the installation that is there
/// carry nothing out: no step of the installation was ever reached.
pub proof fn law_cancelled_wizard_installs_nothing(
    flags: WizardFlags,
    answers: Seq<Answer>,
    i: int,
)
    requires
        0 <= i <= answers.len(),
        wizard_after(flags, answers).step == WizardStep::End(WizardEnd::Cancelled)
            || wizard_after(flags, answers).step == WizardStep::End(WizardEnd::Kept),
    ensures
        !(wizard_after(flags, answers.take(i)).step is Execute),
{
    if wizard_after(flags, answers.take(i)).step is Execute {
        lemma_executed_stays(flags, answers, i);
    }
}

/// Steps from the installation on.
spec fn executed(step: WizardStep) -> bool {
    match step {
        WizardStep::Execute => true,
        WizardStep::End(end) => end == WizardEnd::Installed || end == WizardEnd::Failed,
        _ => false,
    }
}

proof fn lemma_executed_stays(flags: WizardFlags, answers: Seq<Answer>, i: int)
    requires
        0 <= i <= answers.len(),
        wizard_after(flags, answers.take(i)).step is Execute,
    ensures
        executed(wizard_after(flags, answers).step),
    decreases answers.len(),
{
    if i < answers.len() {
        let before = answers.drop_last();
        assert(before.take(i) =~= answers.take(i));
        lemma_executed_stays(flags, before, i);
        lemma_one_answer(wizard_after(flags, before), answers.last());
    } else {
        assert(answers.take(i) =~= answers);
    }
}

/// A prompt can always be cancelled, and the wizard then ends there.
pub proof fn law_every_prompt_can_be_cancelled(w: Wizard)
    requires
        is_prompt(w.step),
    ensures
        wizard_next(w, Answer::Cancel).step == WizardStep::End(WizardEnd::Cancelled),
{
    reveal(wizard_next);
}

/// Docker is installed only where the operator said so.
pub proof fn law_docker_is_installed_only_when_asked(flags: WizardFlags, answers: Seq<Answer>)
    requires
        wizard_after(flags, answers).step == (WizardStep::EnsureDocker { install: true }),
    ensures
        answers.len() > 0,
        answers.last() == Answer::Yes,
        wizard_after(flags, answers.drop_last()).step is OfferDocker,
{
    if answers.len() > 0 {
        lemma_one_answer(wizard_after(flags, answers.drop_last()), answers.last());
    }
}

/// Which questions were answered with yes so far.
struct Collected {
    pub unit: bool,
    pub url: bool,
    pub insisted: bool,
    pub dns: bool,
}

spec fn collected(flags: WizardFlags, answers: Seq<Answer>) -> Collected {
    Collected {
        unit: came_by(flags, answers, WizardStep::CheckUnit, Answer::Yes),
        url: came_by(flags, answers, WizardStep::AskMintUrl, Answer::Yes),
        insisted: came_by(flags, answers, WizardStep::AskDespiteBusy, Answer::Yes),
        dns: came_by(flags, answers, WizardStep::ConfirmDns, Answer::Yes),
    }
}

/// What one more answer adds.
spec fn collected_next(c: Collected, w: Wizard, answer: Answer) -> Collected {
    Collected {
        unit: c.unit || (w.step is CheckUnit && answer == Answer::Yes),
        url: c.url || (w.step is AskMintUrl && answer == Answer::Yes),
        insisted: c.insisted || (w.step is AskDespiteBusy && answer == Answer::Yes),
        dns: c.dns || (w.step is ConfirmDns && answer == Answer::Yes),
    }
}

/// What has been answered by the time that a step is reached.
spec fn answered_by(w: Wizard, c: Collected) -> bool {
    let asked_url = w.with_mint && !w.flags.mint_url && w.access == AccessMode::PlainHttp
        && !w.ip_known;
    let tls = w.access == AccessMode::DomainTls;
    match w.step {
        WizardStep::PortBusy { port } | WizardStep::AskPort { port } => {
            &&& w.flags.with_mint ==> w.with_mint
            &&& port is Mint ==> w.with_mint
        },
        WizardStep::AskMint => !w.flags.with_mint,
        WizardStep::AskUnit | WizardStep::CheckUnit => w.with_mint,
        WizardStep::AskMintPlace => !w.with_mint && !w.flags.with_mint,
        WizardStep::WebPortsBusy | WizardStep::AskAccess | WizardStep::AskConsoleDomain
        | WizardStep::MintPreset | WizardStep::AskMintDomain => {
            &&& w.flags.with_mint ==> w.with_mint
            &&& w.with_mint ==> c.unit
        },
        WizardStep::AskDespiteBusy => {
            &&& w.flags.with_mint ==> w.with_mint
            &&& w.with_mint ==> c.unit
            &&& tls
        },
        WizardStep::AskEmail | WizardStep::ConfirmDns => {
            &&& w.flags.with_mint ==> w.with_mint
            &&& w.with_mint ==> c.unit
            &&& tls
            &&& w.busy ==> c.insisted
        },
        WizardStep::AskMintUrl => {
            &&& w.flags.with_mint ==> w.with_mint
            &&& w.with_mint ==> c.unit
            &&& !tls
        },
        WizardStep::ConfirmInstall | WizardStep::Execute => {
            &&& w.flags.with_mint ==> w.with_mint
            &&& w.with_mint ==> c.unit
            &&& tls ==> c.dns && (w.busy ==> c.insisted)
            &&& asked_url ==> c.url
        },
        _ => true,
    }
}

/// Naming the console and the mint, and what follows, needs no more than a unit.
proof fn lemma_from_access(w: Wizard, c: Collected)
    requires
        w.flags.with_mint ==> w.with_mint,
        w.with_mint ==> c.unit,
    ensures
        answered_by(access_settled(w), c),
        answered_by(console_named(w), c),
        answered_by(mint_named(w), c),
        w.access == AccessMode::DomainTls && w.busy ==> c.insisted ==> answered_by(
            ports_settled(w),
            c,
        ),
        w.access != AccessMode::DomainTls || !w.busy ==> answered_by(ports_settled(w), c),
        w.access != AccessMode::DomainTls ==> answered_by(email_known(w), c),
        w.access == AccessMode::DomainTls && c.dns && (w.busy ==> c.insisted) ==> answered_by(
            email_known(w),
            c,
        ),
{
}

/// The early questions, up to the ports.
proof fn lemma_early_yes_keeps(w: Wizard, c: Collected)
    requires
        answered_by(w, c),
        w.step is FindAddress || w.step is AskMint || w.step is PortBusy || w.step is AskPort
            || w.step is AskUnit || w.step is CheckUnit || w.step is AskMintPlace,
    ensures
        answered_by(agreed(w), collected_next(c, w, Answer::Yes)),
{
}

proof fn lemma_web_ports_keep(w: Wizard, c: Collected)
    requires
        w.flags.with_mint ==> w.with_mint,
        w.with_mint ==> c.unit,
    ensures
        answered_by(web_ports_known(w), c),
{
    lemma_from_access(Wizard { access: AccessMode::BehindProxy, ..w }, c);
    lemma_from_access(Wizard { access: AccessMode::PlainHttp, ..w }, c);
    lemma_from_access(Wizard { access: AccessMode::DomainTls, ..w }, c);
}

proof fn lemma_yes_keeps(w: Wizard, c: Collected)
    requires
        answered_by(w, c),
    ensures
        answered_by(agreed(w), collected_next(c, w, Answer::Yes)),
{
    let next = collected_next(c, w, Answer::Yes);
    match w.step {
        WizardStep::WebPortsBusy => {
            lemma_web_ports_keep(Wizard { busy: true, ..w }, next);
        },
        WizardStep::AskConsoleDomain | WizardStep::MintPreset | WizardStep::AskMintDomain
        | WizardStep::AskDespiteBusy | WizardStep::ConfirmDns => {
            lemma_from_access(w, next);
        },
        WizardStep::FindAddress | WizardStep::AskMint | WizardStep::PortBusy { .. }
        | WizardStep::AskPort { .. } | WizardStep::AskUnit | WizardStep::CheckUnit
        | WizardStep::AskMintPlace => {
            lemma_early_yes_keeps(w, c);
        },
        _ => {},
    }
}

proof fn lemma_no_keeps(w: Wizard, c: Collected)
    requires
        answered_by(w, c),
    ensures
        answered_by(declined(w), c),
{
    match w.step {
        WizardStep::WebPortsBusy => {
            lemma_web_ports_keep(Wizard { busy: false, ..w }, c);
        },
        WizardStep::AskDespiteBusy => {
            lemma_from_access(Wizard { access: AccessMode::BehindProxy, ..w }, c);
        },
        _ => {},
    }
}

proof fn lemma_choice_keeps(w: Wizard, c: Collected, access: AccessMode)
    requires
        answered_by(w, c),
    ensures
        answered_by(chosen(w, access), c),
{
    if w.step is AskAccess || w.step is ConfirmDns {
        lemma_from_access(Wizard { access, ..w }, c);
    }
}

proof fn lemma_collected(flags: WizardFlags, answers: Seq<Answer>)
    ensures
        wizard_after(flags, answers).flags == flags,
        answered_by(wizard_after(flags, answers), collected(flags, answers)),
    decreases answers.len(),
{
    if answers.len() > 0 {
        let before = answers.drop_last();
        let (w, answer) = (wizard_after(flags, before), answers.last());
        let c = collected(flags, before);
        lemma_collected(flags, before);
        lemma_one_answer(w, answer);
        lemma_came_by(flags, answers, WizardStep::CheckUnit, Answer::Yes);
        lemma_came_by(flags, answers, WizardStep::AskMintUrl, Answer::Yes);
        lemma_came_by(flags, answers, WizardStep::AskDespiteBusy, Answer::Yes);
        lemma_came_by(flags, answers, WizardStep::ConfirmDns, Answer::Yes);
        assert(collected(flags, answers) == collected_next(c, w, answer));
        lemma_answer_keeps(w, c, answer);
    }
}

proof fn lemma_answer_keeps(w: Wizard, c: Collected, answer: Answer)
    requires
        answered_by(w, c),
    ensures
        answered_by(wizard_next(w, answer), collected_next(c, w, answer)),
{
    reveal(wizard_next);
    match answer {
        Answer::Yes => lemma_yes_keeps(w, c),
        Answer::No => lemma_no_keeps(w, c),
        Answer::Access(access) => lemma_choice_keeps(w, c, access),
        Answer::Cancel => {},
        Answer::Fail => {},
    }
}

/// When the plan is carried out, everything that it needs is known: a bundled
/// mint has a valid unit, and where its address could not be derived it was
/// asked for; the DNS records were confirmed, or the operator went on without;
/// and the bundled Caddy takes ports that are taken only where the operator
/// insisted.
pub proof fn law_execution_has_its_answers(flags: WizardFlags, answers: Seq<Answer>)
    requires
        wizard_after(flags, answers).step is Execute,
    ensures
        ({
            let w = wizard_after(flags, answers);
            &&& w.with_mint ==> came_by(flags, answers, WizardStep::CheckUnit, Answer::Yes)
            &&& flags.with_mint ==> w.with_mint
            &&& w.with_mint && !flags.mint_url && w.access == AccessMode::PlainHttp && !w.ip_known
                ==> came_by(flags, answers, WizardStep::AskMintUrl, Answer::Yes)
            &&& w.access == AccessMode::DomainTls && w.busy ==> came_by(
                flags,
                answers,
                WizardStep::AskDespiteBusy,
                Answer::Yes,
            )
            &&& w.access == AccessMode::DomainTls ==> came_by(
                flags,
                answers,
                WizardStep::ConfirmDns,
                Answer::Yes,
            )
        }),
{
    lemma_collected(flags, answers);
}

// ---------------------------------------------------------------------------
// laws of what is asked
// ---------------------------------------------------------------------------
/// The place of a step in the order of steps.
pub open spec fn order(step: WizardStep) -> int {
    match step {
        WizardStep::CheckPlatform => 0,
        WizardStep::ResolveVersion => 1,
        WizardStep::OfferDue => 2,
        WizardStep::OfferDocker => 3,
        WizardStep::EnsureDocker { .. } => 4,
        WizardStep::ResolveDir => 5,
        WizardStep::DirTaken => 6,
        WizardStep::AskElsewhere => 7,
        WizardStep::AskDir => 8,
        WizardStep::FindAddress => 9,
        WizardStep::AskMint => 10,
        WizardStep::PortBusy { port: PortName::Console } => 11,
        WizardStep::AskPort { port: PortName::Console } => 12,
        WizardStep::PortBusy { port: PortName::Grpc } => 13,
        WizardStep::AskPort { port: PortName::Grpc } => 14,
        WizardStep::PortBusy { port: PortName::Mint } => 15,
        WizardStep::AskPort { port: PortName::Mint } => 16,
        WizardStep::AskUnit => 17,
        WizardStep::CheckUnit => 18,
        WizardStep::AskMintPlace => 19,
        WizardStep::WebPortsBusy => 20,
        WizardStep::AskAccess => 21,
        WizardStep::AskConsoleDomain => 22,
        WizardStep::MintPreset => 23,
        WizardStep::AskMintDomain => 24,
        WizardStep::AskDespiteBusy => 25,
        WizardStep::AskEmail => 26,
        WizardStep::ConfirmDns => 27,
        WizardStep::AskMintUrl => 28,
        WizardStep::ConfirmInstall => 29,
        WizardStep::Execute => 30,
        WizardStep::End(WizardEnd::Installed) => 31,
        WizardStep::End(_) => -1,
    }
}

/// Whether the step with a place in the order is due, given what is known and
/// the answer to the step before it: what the flags say is not asked, what only
/// a bundled mint, a hostname or a certificate needs only where there is one,
/// and another port, directory or hostname only where the first cannot be had.
pub open spec fn due(w: Wizard, place: int, before: int, yes: bool) -> bool {
    let tls = w.access == AccessMode::DomainTls;
    let named = w.access != AccessMode::PlainHttp;
    if place == 1 {
        !w.flags.version
    } else if place == 3 {
        before == 2 && yes
    } else if place == 7 {
        before == 6 && yes
    } else if place == 8 {
        before == 7 && yes
    } else if place == 10 {
        !w.flags.with_mint
    } else if place == 12 {
        before == 11 && yes
    } else if place == 14 {
        before == 13 && yes
    } else if place == 15 {
        w.with_mint
    } else if place == 16 {
        before == 15 && yes
    } else if place == 17 {
        w.with_mint && !w.flags.unit
    } else if place == 18 {
        w.with_mint
    } else if place == 19 {
        !w.with_mint && !w.flags.grpc_bind
    } else if place == 21 {
        !w.flags.behind_proxy && !w.flags.plain_http && (w.busy || !w.flags.console_domain)
    } else if place == 22 {
        named && !w.flags.console_preset
    } else if place == 23 {
        named && w.with_mint
    } else if place == 24 {
        before == 23 && !yes
    } else if place == 25 {
        tls && w.busy
    } else if place == 26 {
        tls && !w.flags.email
    } else if place == 27 {
        tls
    } else if place == 28 {
        w.with_mint && !w.flags.mint_url && !named && !w.ip_known
    } else {
        true
    }
}

/// Whether the step with this place asks something that can be answered with
/// no and still be gone on from.
pub open spec fn open_question(place: int) -> bool {
    place == 2 || place == 3 || place == 6 || place == 9 || place == 10 || place == 11 || place
        == 13 || place == 15 || place == 19 || place == 20 || place == 23 || place == 25
}

/// That a step fits what is known: what is for a bundled mint is asked with one,
/// where the operator's own runs without, hostnames where there are any, and
/// what is about certificates with TLS.
pub open spec fn fits(w: Wizard) -> bool {
    let k = order(w.step);
    &&& 15 <= k <= 18 || k == 23 || k == 24 ==> w.with_mint
    &&& k == 19 ==> !w.with_mint
    &&& 22 <= k <= 24 ==> w.access != AccessMode::PlainHttp
    &&& 25 <= k <= 27 ==> w.access == AccessMode::DomainTls
}

/// Every step that is reached fits what is known by then.
#[verifier::spinoff_prover]
#[verifier::rlimit(50)]
pub proof fn law_steps_fit(args: InstallArgs, start: Wizard, w: Wizard, answer: Answer, next: Wizard)
    requires
        call_ensures(run, (&args,), start),
        fits(w),
        call_ensures(Wizard::next, (w, answer), next),
    ensures
        fits(start),
        fits(next),
{
    reveal(wizard_next);
}

/// An answer that is one to the step leads to the very next step that is due.
#[verifier::spinoff_prover]
#[verifier::rlimit(50)]
pub proof fn law_next_question_is_the_one_due(w: Wizard, answer: Answer, next: Wizard)
    requires
        fits(w),
        call_ensures(Wizard::next, (w, answer), next),
        ({
            let k = order(w.step);
            ||| answer == Answer::Yes && 0 <= k <= 30 && k != 8 && k != 21
            ||| answer == Answer::No && open_question(k)
            ||| answer is Access && k == 21
            ||| answer == Answer::Access(AccessMode::PlainHttp) && k == 27
        }),
    ensures
        ({
            let (k, n) = (order(w.step), order(next.step));
            let yes = answer == Answer::Yes;
            &&& k < n <= 31
            &&& due(next, n, k, yes)
            &&& forall|j: int| k < j < n ==> !due(next, j, k, yes)
        }),
{
    reveal(wizard_next);
}

/// What is known after an answer is what was answered: whether there is a public
/// address, a mint, another machine, and whether the web's ports are taken. The
/// access mode is what the flags say, what was chosen, the operator's proxy
/// where they gave up ports that are taken, or plain HTTP where they gave up
/// waiting for DNS.
#[verifier::spinoff_prover]
#[verifier::rlimit(50)]
pub proof fn law_answers_are_remembered(w: Wizard, answer: Answer, next: Wizard)
    requires
        call_ensures(Wizard::next, (w, answer), next),
    ensures
        next.flags == w.flags,
        ({
            let k = order(w.step);
            let (yes, no) = (answer == Answer::Yes, answer == Answer::No);
            let given = yes || no;
            &&& k == 9 && given ==> next.ip_known == yes
            &&& !(k == 9 && given) ==> next.ip_known == w.ip_known
            &&& k == 9 && given ==> next.with_mint == (w.with_mint || w.flags.with_mint)
            &&& k == 10 && given ==> next.with_mint == yes
            &&& !((k == 9 || k == 10) && given) ==> next.with_mint == w.with_mint
            &&& k == 19 && given ==> next.other_machine == yes
            &&& !(k == 19 && given) ==> next.other_machine == w.other_machine
            &&& k == 20 && given ==> next.busy == yes
            &&& !(k == 20 && given) ==> next.busy == w.busy
            &&& k == 20 && given && w.flags.behind_proxy ==> next.access == AccessMode::BehindProxy
            &&& k == 20 && given && !w.flags.behind_proxy && w.flags.plain_http ==> next.access
                == AccessMode::PlainHttp
            &&& k == 20 && no && !w.flags.behind_proxy && !w.flags.plain_http
                && w.flags.console_domain ==> next.access == AccessMode::DomainTls
            &&& k == 21 ==> (answer matches Answer::Access(access) ==> next.access == access)
            &&& k == 25 && no ==> next.access == AccessMode::BehindProxy
            &&& k == 27 && answer == Answer::Access(AccessMode::PlainHttp) ==> next.access
                == AccessMode::PlainHttp
            &&& !(k == 20 && given) && !(answer is Access) && !(k == 25 && no) ==> next.access
                == w.access
        }),
{
    reveal(wizard_next);
}

/// Docker is made ready with leave to install it exactly where the operator gave
/// it. A directory that was entered is resolved again. The installation that is
/// there is kept, and the wizard cancelled, where the operator says so; and what
/// has to work, and does not, ends it as failed.
#[verifier::spinoff_prover]
#[verifier::rlimit(50)]
pub proof fn law_how_the_wizard_ends(w: Wizard, answer: Answer, next: Wizard)
    requires
        call_ensures(Wizard::next, (w, answer), next),
    ensures
        ({
            let k = order(w.step);
            let (yes, no) = (answer == Answer::Yes, answer == Answer::No);
            let failed = WizardStep::End(WizardEnd::Failed);
            let cancelled = WizardStep::End(WizardEnd::Cancelled);
            let prompt = k == 3 || k == 7 || k == 8 || k == 10 || k == 12 || k == 14 || k == 16
                || k == 17 || k == 19 || k == 21 || k == 22 || (24 <= k <= 29);
            &&& k == 3 && (yes || no) ==> next.step == (WizardStep::EnsureDocker { install: yes })
            &&& k == 2 && no ==> next.step == (WizardStep::EnsureDocker { install: false })
            &&& k == 8 && yes ==> next.step is ResolveDir
            &&& k == 7 && no ==> next.step == WizardStep::End(WizardEnd::Kept)
            &&& (k == 27 || k == 29) && no ==> next.step == cancelled
            &&& 0 <= k <= 30 && no && !open_question(k) && k != 7 && k != 27 && k != 29
                ==> next.step == failed
            &&& answer == Answer::Cancel && prompt ==> next.step == cancelled
            &&& answer == Answer::Cancel && 0 <= k <= 30 && !prompt ==> next.step == failed
            &&& answer == Answer::Fail && 0 <= k <= 30 ==> next.step == failed
            &&& w.step is End ==> next.step == w.step
        }),
{
    reveal(wizard_next);
}

/// A flag answers its question where it was given and, except for the release,
/// the console's hostname and the mint's address, holds something.
pub proof fn law_what_flags_answer(args: InstallArgs, r: Wizard)
    requires
        call_ensures(run, (&args,), r),
    ensures
        r.step is CheckPlatform,
        r.flags.version <==> args.version is Some,
        r.flags.with_mint == args.with_mint,
        r.flags.unit <==> args.unit is Some && args.unit->0@.len() > 0,
        r.flags.grpc_bind <==> args.grpc_bind is Some && args.grpc_bind->0@.len() > 0,
        r.flags.behind_proxy == args.behind_proxy,
        r.flags.plain_http == args.plain_http,
        r.flags.console_domain <==> args.console_domain is Some,
        r.flags.console_preset <==> args.console_domain is Some && args.console_domain->0@.len()
            > 0,
        r.flags.email <==> args.email is Some && args.email->0@.len() > 0,
        r.flags.mint_url <==> args.mint_url is Some,
        !r.with_mint && !r.ip_known && !r.other_machine && !r.busy,
{
}

} // verus!
