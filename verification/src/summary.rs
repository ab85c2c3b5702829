//! What an installation says of itself: before it starts, and when it is done.

use crate::install::{AccessMode, InstallPlan, ALL_INTERFACES};
use crate::text;
use vstd::prelude::*;

verus! {

pub const RULE: &'static str = "============================================================";

/// " + mint" for the shape that bundles one.
pub open spec fn shape_suffix(plan: InstallPlan) -> Seq<char> {
    if plan.mint is Some {
        " + mint"@
    } else {
        ""@
    }
}

pub fn suffix(plan: &InstallPlan) -> (r: &'static str)
    ensures
        r@ == shape_suffix(*plan),
{
    if plan.mint.is_some() {
        " + mint"
    } else {
        ""
    }
}

/// What a headless install says when it begins.
pub fn installing(plan: &InstallPlan) -> (r: String)
    ensures
        r@ == "Installing the branch processor "@
            + plan.version@
            + shape_suffix(*plan)
            + " into "@
            + plan.install_dir@,
{
    "Installing the branch processor ".to_owned()
        .concat(plan.version.as_str())
        .concat(suffix(plan))
        .concat(" into ")
        .concat(plan.install_dir.as_str())
}

/// What is said before the images are pulled, or instead of pulling them.
pub fn pulling(plan: &InstallPlan) -> (r: String)
    ensures
        r@ == (if plan.no_pull {
            "Skipping the image pull (--no-pull); using the local "@ + plan.version@ + " image."@
        } else {
            "Pulling the images ("@ + plan.version@ + ") ..."@
        }),
{
    if plan.no_pull {
        "Skipping the image pull (--no-pull); using the local ".to_owned()
            .concat(plan.version.as_str())
            .concat(" image.")
    } else {
        "Pulling the images (".to_owned().concat(plan.version.as_str()).concat(") ...")
    }
}

// ---------------------------------------------------------------------------
// next steps
// ---------------------------------------------------------------------------
pub const STEP_SEED: &'static str = "1. Write down the mint seed shown above — it is the only recovery path.";

pub const STEP_SELF_TEST: &'static str = "2. Mint tab   — the checklist and automatic self-test confirm and lock\n     the unit (give it a minute or two).";

pub const STEP_TELLERS_THIRD: &'static str = "3. Access tab — add teller accounts as needed.";

pub const STEP_COPY_SNIPPET: &'static str = "1. Mint tab   — copy the config snippet (the attachment is already set).";

pub const STEP_SET_UNIT: &'static str = "1. Mint tab   — set your unit and your mint's URL; copy the config snippet.";

pub const STEP_CONFIRM_LINK: &'static str = "3. Mint tab   — the checklist and self-test confirm the link end to end.";

pub const STEP_TELLERS_FOURTH: &'static str = "4. Access tab — add teller accounts as needed.";

pub open spec fn apply_snippet(target: Seq<char>) -> Seq<char> {
    "2. Your mintd — apply the snippet (cdk-mintd config apply) and restart it.\n     (It must run the compatible cdk release — the Mint tab shows\n     which one and why; its gRPC target is "@
        + target
        + ".)"@
}

fn render_apply_snippet(target: &str) -> (r: String)
    ensures
        r@ == apply_snippet(target@),
{
    "2. Your mintd — apply the snippet (cdk-mintd config apply) and restart it.\n     (It must run the compatible cdk release — the Mint tab shows\n     which one and why; its gRPC target is ".to_owned()
        .concat(target)
        .concat(".)")
}

/// What is left to the operator: little with a bundled mint, which is already
/// connected, and applying the config snippet for a mint of their own.
pub open spec fn steps_of(plan: InstallPlan) -> Seq<Seq<char>> {
    match (plan.mint, plan.attach) {
        (Some(m), _) => seq![
            STEP_SEED@,
            STEP_SELF_TEST@,
            STEP_TELLERS_THIRD@,
            "4. Wallets connect to "@ + m.mint_url@ + "."@,
        ],
        (None, Some(attach)) => seq![
            STEP_COPY_SNIPPET@,
            apply_snippet(attach.advertised_grpc@),
            STEP_CONFIRM_LINK@,
            STEP_TELLERS_FOURTH@,
        ],
        (None, None) => seq![
            STEP_SET_UNIT@,
            apply_snippet(plan.grpc()),
            STEP_CONFIRM_LINK@,
            STEP_TELLERS_FOURTH@,
        ],
    }
}

pub fn next_steps(plan: &InstallPlan) -> (r: Vec<String>)
    ensures
        text::texts(r@) == steps_of(*plan),
{
    broadcast use text::lemma_texts_push;

    let mut steps: Vec<String> = Vec::new();
    match (&plan.mint, &plan.attach) {
        (Some(m), _) => {
            steps.push(STEP_SEED.to_owned());
            steps.push(STEP_SELF_TEST.to_owned());
            steps.push(STEP_TELLERS_THIRD.to_owned());
            steps.push("4. Wallets connect to ".to_owned()
                .concat(m.mint_url.as_str())
                .concat("."));
        },
        (None, Some(attach)) => {
            steps.push(STEP_COPY_SNIPPET.to_owned());
            steps.push(render_apply_snippet(attach.advertised_grpc.as_str()));
            steps.push(STEP_CONFIRM_LINK.to_owned());
            steps.push(STEP_TELLERS_FOURTH.to_owned());
        },
        (None, None) => {
            steps.push(STEP_SET_UNIT.to_owned());
            steps.push(render_apply_snippet(plan.grpc_endpoint().as_str()));
            steps.push(STEP_CONFIRM_LINK.to_owned());
            steps.push(STEP_TELLERS_FOURTH.to_owned());
        },
    }
    assert(text::texts(steps@) =~= steps_of(*plan));
    steps
}

/// Each text with the same one before it.
pub open spec fn prefixed(lead: Seq<char>, list: Seq<Seq<char>>) -> Seq<Seq<char>> {
    list.map_values(|line: Seq<char>| lead + line)
}

fn prefix_all(lead: &str, list: &Vec<String>) -> (r: Vec<String>)
    ensures
        text::texts(r@) == prefixed(lead@, text::texts(list@)),
{
    let ghost all = text::texts(list@);
    let mut r: Vec<String> = Vec::new();
    let mut i: usize = 0;
    while i < list.len()
        invariant
            i <= list@.len(),
            all == text::texts(list@),
            text::texts(r@) == prefixed(lead@, all).take(i as int),
        decreases list@.len() - i,
    {
        let line = lead.to_owned().concat(list[i].as_str());
        proof {
            text::lemma_texts_push(r@, line);
            assert(prefixed(lead@, all).take(i + 1) =~= prefixed(lead@, all).take(i as int).push(
                lead@ + all[i as int],
            ));
        }
        r.push(line);
        i += 1;
    }
    assert(prefixed(lead@, all).take(i as int) =~= prefixed(lead@, all));
    r
}

// ---------------------------------------------------------------------------
// the summary of a headless install
// ---------------------------------------------------------------------------
/// The heading.
pub open spec fn heading(plan: InstallPlan) -> Seq<Seq<char>> {
    seq![
        ""@,
        RULE@,
        " Pecan branch processor "@ + plan.version@ + shape_suffix(plan) + " is running"@,
        RULE@,
        ""@,
        "  Operator console:  "@ + plan.url(),
    ]
}

fn render_heading(plan: &InstallPlan) -> (r: Vec<String>)
    ensures
        text::texts(r@) == heading(*plan),
{
    let title = " Pecan branch processor ".to_owned()
        .concat(plan.version.as_str())
        .concat(suffix(plan))
        .concat(" is running");
    let console = "  Operator console:  ".to_owned().concat(plan.console_url().as_str());
    let lines = text::words(&["", RULE, title.as_str(), RULE, "", console.as_str()]);
    assert(text::texts(lines@) =~= heading(*plan));
    lines
}

pub open spec fn mint_line(mint_url: Seq<char>, unit: Seq<char>) -> Seq<char> {
    "  Mint:              "@ + mint_url + "  (wallets connect here; unit \""@ + unit + "\")"@
}

pub open spec fn grpc_line(endpoint: Seq<char>) -> Seq<char> {
    "  Payment gRPC:      "@ + endpoint + "  (your cdk-mintd connects here)"@
}

pub open spec fn seed_note(install_dir: Seq<char>) -> Seq<char> {
    "  (also stored in "@ + install_dir + "/mint/mnemonic; included in mintctl backup)"@
}

/// Where payments go, and with a bundled mint its seed.
pub open spec fn payment_part(plan: InstallPlan) -> Seq<Seq<char>> {
    match plan.mint {
        Some(m) => seq![
            mint_line(m.mint_url@, plan.unit()),
            "  Payment link:      internal (processor:50051 on the compose network)"@,
            ""@,
            "  MINT SEED — write these 12 words down and store them offline."@,
            "  Anyone holding them can issue your ecash; without them the"@,
            "  mint cannot be recovered."@,
            ""@,
            "      "@ + m.mnemonic@,
            ""@,
            seed_note(plan.install_dir@),
            ""@,
        ],
        None => seq![grpc_line(plan.grpc()), ""@],
    }
}

fn render_payment_part(plan: &InstallPlan) -> (r: Vec<String>)
    ensures
        text::texts(r@) == payment_part(*plan),
{
    let lines = match &plan.mint {
        Some(m) => {
            let unit = plan.attached_unit();
            let mint = "  Mint:              ".to_owned()
                .concat(m.mint_url.as_str())
                .concat("  (wallets connect here; unit \"")
                .concat(unit.as_str())
                .concat("\")");
            let seed = "      ".to_owned().concat(m.mnemonic.as_str());
            let stored = "  (also stored in ".to_owned()
                .concat(plan.install_dir.as_str())
                .concat("/mint/mnemonic; included in mintctl backup)");
            text::words(
                &[
                    mint.as_str(),
                    "  Payment link:      internal (processor:50051 on the compose network)",
                    "",
                    "  MINT SEED — write these 12 words down and store them offline.",
                    "  Anyone holding them can issue your ecash; without them the",
                    "  mint cannot be recovered.",
                    "",
                    seed.as_str(),
                    "",
                    stored.as_str(),
                    "",
                ],
            )
        },
        None => {
            let endpoint = plan.grpc_endpoint();
            let grpc = "  Payment gRPC:      ".to_owned()
                .concat(endpoint.as_str())
                .concat("  (your cdk-mintd connects here)");
            text::words(&[grpc.as_str(), ""])
        },
    };
    assert(text::texts(lines@) =~= payment_part(*plan));
    lines
}

/// How to sign in.
pub open spec fn sign_in_part(plan: InstallPlan) -> Seq<Seq<char>> {
    seq![
        "  Sign in:           admin / "@ + plan.admin_password@,
        "                     (also stored in "@ + plan.install_dir@ + "/.env)"@,
        "                     You will be asked to choose your own password"@,
        "                     at first sign-in."@,
        ""@,
        "  First steps:"@,
    ]
}

fn render_sign_in_part(plan: &InstallPlan) -> (r: Vec<String>)
    ensures
        text::texts(r@) == sign_in_part(*plan),
{
    let sign_in = "  Sign in:           admin / ".to_owned().concat(plan.admin_password.as_str());
    let stored = "                     (also stored in ".to_owned()
        .concat(plan.install_dir.as_str())
        .concat("/.env)");
    let lines = text::words(
        &[
            sign_in.as_str(),
            stored.as_str(),
            "                     You will be asked to choose your own password",
            "                     at first sign-in.",
            "",
            "  First steps:",
        ],
    );
    assert(text::texts(lines@) =~= sign_in_part(*plan));
    lines
}

pub open spec fn proxy_line(domain: Seq<char>, port: u16) -> Seq<char> {
    "  Proxy "@ + domain + " to 127.0.0.1:"@ + text::decimal(port as nat) + "."@
}

fn render_proxy_line(domain: &str, port: u16) -> (r: String)
    ensures
        r@ == proxy_line(domain@, port),
{
    "  Proxy ".to_owned()
        .concat(domain)
        .concat(" to 127.0.0.1:")
        .concat(text::to_decimal(port as u64).as_str())
        .concat(".")
}

/// What the way the console is reached asks of the operator.
pub open spec fn access_part(plan: InstallPlan) -> Seq<Seq<char>> {
    match plan.access {
        AccessMode::DomainTls => seq![
            "  Certificates are provisioned automatically; the first HTTPS"@,
            "  request can take a minute. Firewall: allow 80 and 443."@,
        ],
        AccessMode::PlainHttp => seq![
            "  Plain-HTTP mode: fine on a trusted LAN, not for the public"@,
            match plan.mint {
                Some(m) => "  internet. Firewall: allow "@
                    + text::decimal(plan.ui_port as nat)
                    + " and "@
                    + text::decimal(m.mint_port as nat)
                    + "."@,
                None => "  internet. Firewall: allow "@
                    + text::decimal(plan.ui_port as nat)
                    + "."@,
            },
        ],
        AccessMode::BehindProxy => seq![
            "  Your reverse proxy terminates TLS. Ready-made server blocks:"@,
            "    "@ + plan.install_dir@ + "/proxy-snippets/  (Caddy and nginx)"@,
            proxy_line(plan.console_domain@, plan.ui_port),
        ] + (match plan.mint {
            Some(m) => seq![proxy_line(m.mint_domain@, m.mint_port)],
            None => Seq::empty(),
        }),
    }
}

fn render_access_part(plan: &InstallPlan) -> (r: Vec<String>)
    ensures
        text::texts(r@) == access_part(*plan),
{
    broadcast use text::lemma_texts_push;

    let mut lines: Vec<String> = Vec::new();
    match plan.access {
        AccessMode::DomainTls => {
            lines.push("  Certificates are provisioned automatically; the first HTTPS".to_owned());
            lines.push("  request can take a minute. Firewall: allow 80 and 443.".to_owned());
        },
        AccessMode::PlainHttp => {
            lines.push("  Plain-HTTP mode: fine on a trusted LAN, not for the public".to_owned());
            match &plan.mint {
                Some(m) => lines.push(
                    "  internet. Firewall: allow ".to_owned()
                        .concat(text::to_decimal(plan.ui_port as u64).as_str())
                        .concat(" and ")
                        .concat(text::to_decimal(m.mint_port as u64).as_str())
                        .concat("."),
                ),
                None => lines.push("  internet. Firewall: allow ".to_owned()
                    .concat(text::to_decimal(plan.ui_port as u64).as_str())
                    .concat(".")),
            }
        },
        AccessMode::BehindProxy => {
            lines.push("  Your reverse proxy terminates TLS. Ready-made server blocks:".to_owned());
            lines.push("    ".to_owned()
                .concat(plan.install_dir.as_str())
                .concat("/proxy-snippets/  (Caddy and nginx)"));
            lines.push(render_proxy_line(plan.console_domain.as_str(), plan.ui_port));
            match &plan.mint {
                Some(m) => lines.push(render_proxy_line(m.mint_domain.as_str(), m.mint_port)),
                None => {},
            }
        },
    }
    assert(text::texts(lines@) =~= access_part(*plan));
    lines
}

/// The warning that comes with a payment gRPC on all interfaces.
pub open spec fn exposure_part(plan: InstallPlan) -> Seq<Seq<char>> {
    if plan.grpc_bind_addr@ == ALL_INTERFACES@ {
        seq![
            ""@,
            "  The payment gRPC ("@ + plan.grpc() + ") is published on all interfaces and"@,
            "  carries no authentication — firewall it to the mint's host,"@,
            "  or enable TLS (GRPC_TLS_DIR in .env.example)."@,
        ]
    } else {
        Seq::empty()
    }
}

fn render_exposure_part(plan: &InstallPlan) -> (r: Vec<String>)
    ensures
        text::texts(r@) == exposure_part(*plan),
{
    let endpoint = plan.grpc_endpoint();
    let published = "  The payment gRPC (".to_owned()
        .concat(endpoint.as_str())
        .concat(") is published on all interfaces and");
    let lines = if text::same(plan.grpc_bind_addr.as_str(), ALL_INTERFACES) {
        text::words(
            &[
                "",
                published.as_str(),
                "  carries no authentication — firewall it to the mint's host,",
                "  or enable TLS (GRPC_TLS_DIR in .env.example).",
            ],
        )
    } else {
        Vec::new()
    };
    assert(text::texts(lines@) =~= exposure_part(*plan));
    lines
}

pub open spec fn manage_part() -> Seq<Seq<char>> {
    seq![
        ""@,
        "  Manage with: mintctl status | logs | update | backup | restore |"@,
        "               start | stop | uninstall"@,
        RULE@,
    ]
}

/// The summary of a headless install, line by line.
pub open spec fn summary_lines(plan: InstallPlan) -> Seq<Seq<char>> {
    heading(plan) + payment_part(plan) + sign_in_part(plan) + prefixed("    "@, steps_of(plan))
        + seq![""@] + access_part(plan) + exposure_part(plan) + manage_part()
}

pub fn print_summary(plan: &InstallPlan) -> (r: Vec<String>)
    ensures
        text::texts(r@) == summary_lines(*plan),
{
    let mut lines = render_heading(plan);
    text::extend(&mut lines, &render_payment_part(plan));
    text::extend(&mut lines, &render_sign_in_part(plan));
    text::extend(&mut lines, &prefix_all("    ", &next_steps(plan)));
    let blank = text::words(&[""]);
    assert(text::texts(blank@) =~= seq![""@]);
    text::extend(&mut lines, &blank);
    text::extend(&mut lines, &render_access_part(plan));
    text::extend(&mut lines, &render_exposure_part(plan));
    let manage = text::words(
        &[
            "",
            "  Manage with: mintctl status | logs | update | backup | restore |",
            "               start | stop | uninstall",
            RULE,
        ],
    );
    assert(text::texts(manage@) =~= manage_part());
    text::extend(&mut lines, &manage);
    lines
}

// ---------------------------------------------------------------------------
// the wizard's notes
// ---------------------------------------------------------------------------
/// How the console is reached, in words.
pub open spec fn reach_line(plan: InstallPlan) -> Seq<char> {
    plan.url() + (match plan.access {
        AccessMode::DomainTls => " — automatic HTTPS"@,
        AccessMode::BehindProxy => " — via your own reverse proxy"@,
        AccessMode::PlainHttp => " — plain HTTP (LAN/testing)"@,
    })
}

fn render_reach_line(plan: &InstallPlan) -> (r: String)
    ensures
        r@ == reach_line(*plan),
{
    let how = match plan.access {
        AccessMode::DomainTls => " — automatic HTTPS",
        AccessMode::BehindProxy => " — via your own reverse proxy",
        AccessMode::PlainHttp => " — plain HTTP (LAN/testing)",
    };
    plan.console_url().concat(how)
}

/// What the wizard shows before it asks whether to install.
pub open spec fn ready_body(plan: InstallPlan) -> Seq<char> {
    match (plan.mint, plan.attach) {
        (Some(m), Some(attach)) => "Console        "@
            + reach_line(plan)
            + "\nMint           "@
            + m.mint_url@
            + " — unit \""@
            + attach.unit@
            + "\" (wallets connect here)\nMint image     cashubtc/mintd:"@
            + m.mintd_version@
            + "\nPayment link   internal (processor:50051 on the compose network)\nDirectory      "@
            + plan.install_dir@
            + "\nVersion        "@
            + plan.version@
            + "\n\nA new mint seed (12 words) will be generated and shown once."@,
        _ => "Console        "@
            + reach_line(plan)
            + "\nPayment gRPC   "@
            + plan.grpc()
            + " (your cdk-mintd connects here)\nDirectory      "@
            + plan.install_dir@
            + "\nVersion        "@
            + plan.version@
            + "\n\nThe mint itself is attached afterwards, in the console's Mint tab."@,
    }
}

pub fn ready_to_install(plan: &InstallPlan) -> (r: String)
    ensures
        r@ == ready_body(*plan),
{
    let reach = render_reach_line(plan);
    match (&plan.mint, &plan.attach) {
        (Some(m), Some(attach)) => "Console        ".to_owned()
            .concat(reach.as_str())
            .concat("\nMint           ")
            .concat(m.mint_url.as_str())
            .concat(" — unit \"")
            .concat(attach.unit.as_str())
            .concat("\" (wallets connect here)\nMint image     cashubtc/mintd:")
            .concat(m.mintd_version.as_str())
            .concat("\nPayment link   internal (processor:50051 on the compose network)\nDirectory      ")
            .concat(plan.install_dir.as_str())
            .concat("\nVersion        ")
            .concat(plan.version.as_str())
            .concat("\n\nA new mint seed (12 words) will be generated and shown once."),
        _ => {
            let endpoint = plan.grpc_endpoint();
            "Console        ".to_owned()
                .concat(reach.as_str())
                .concat("\nPayment gRPC   ")
                .concat(endpoint.as_str())
                .concat(" (your cdk-mintd connects here)\nDirectory      ")
                .concat(plan.install_dir.as_str())
                .concat("\nVersion        ")
                .concat(plan.version.as_str())
                .concat("\n\nThe mint itself is attached afterwards, in the console's Mint tab.")
        },
    }
}

/// The first part of what the wizard shows when the stack runs.
pub open spec fn finish_head(plan: InstallPlan) -> Seq<char> {
    match (plan.mint, plan.attach) {
        (Some(m), Some(attach)) => "Operator console   "@
            + plan.url()
            + "\nMint               "@
            + m.mint_url@
            + "  (wallets connect here; unit \""@
            + attach.unit@
            + "\")\n\nSign in as         admin\nPassword           "@
            + plan.admin_password@
            + "\n(also stored in "@
            + plan.install_dir@
            + "/.env — you will choose\nyour own password at first sign-in)\n\nMINT SEED — write these 12 words down and store them offline.\nAnyone holding them can issue your ecash; without them the\nmint cannot be recovered.\n\n    "@
            + m.mnemonic@
            + "\n\n(also stored in "@
            + plan.install_dir@
            + "/mint/mnemonic; included in mintctl backup)\n\nNext steps:"@,
        _ => "Operator console   "@
            + plan.url()
            + "\nPayment gRPC       "@
            + plan.grpc()
            + "  (your cdk-mintd connects here)\n\nSign in as         admin\nPassword           "@
            + plan.admin_password@
            + "\n(also stored in "@
            + plan.install_dir@
            + "/.env — you will choose\nyour own password at first sign-in)\n\nNext steps:"@,
    }
}

fn render_finish_head(plan: &InstallPlan) -> (r: String)
    ensures
        r@ == finish_head(*plan),
{
    let console = plan.console_url();
    match (&plan.mint, &plan.attach) {
        (Some(m), Some(attach)) => "Operator console   ".to_owned()
            .concat(console.as_str())
            .concat("\nMint               ")
            .concat(m.mint_url.as_str())
            .concat("  (wallets connect here; unit \"")
            .concat(attach.unit.as_str())
            .concat("\")\n\nSign in as         admin\nPassword           ")
            .concat(plan.admin_password.as_str())
            .concat("\n(also stored in ")
            .concat(plan.install_dir.as_str())
            .concat("/.env — you will choose\nyour own password at first sign-in)\n\nMINT SEED — write these 12 words down and store them offline.\nAnyone holding them can issue your ecash; without them the\nmint cannot be recovered.\n\n    ")
            .concat(m.mnemonic.as_str())
            .concat("\n\n(also stored in ")
            .concat(plan.install_dir.as_str())
            .concat("/mint/mnemonic; included in mintctl backup)\n\nNext steps:"),
        _ => {
            let endpoint = plan.grpc_endpoint();
            "Operator console   ".to_owned()
                .concat(console.as_str())
                .concat("\nPayment gRPC       ")
                .concat(endpoint.as_str())
                .concat("  (your cdk-mintd connects here)\n\nSign in as         admin\nPassword           ")
                .concat(plan.admin_password.as_str())
                .concat("\n(also stored in ")
                .concat(plan.install_dir.as_str())
                .concat("/.env — you will choose\nyour own password at first sign-in)\n\nNext steps:")
        },
    }
}

/// Texts one after another.
pub open spec fn flat(list: Seq<Seq<char>>) -> Seq<char>
    decreases list.len(),
{
    if list.len() == 0 {
        Seq::empty()
    } else {
        flat(list.drop_last()) + list.last()
    }
}

pub open spec fn proxy_note(plan: InstallPlan) -> Seq<char> {
    "\n\nYour reverse proxy terminates TLS — ready-made server blocks\n(console"@
        + if plan.mint is Some { " and mint"@ } else { ""@ }
        + "):\n  "@
        + plan.install_dir@
        + "/proxy-snippets/  (Caddy and nginx)"@
}

/// What the wizard shows when the stack runs.
pub open spec fn finish_body(plan: InstallPlan) -> Seq<char> {
    let body = finish_head(plan) + flat(prefixed("\n  "@, steps_of(plan)));
    if plan.access == AccessMode::BehindProxy {
        body + proxy_note(plan)
    } else {
        body
    }
}

pub fn finish(plan: &InstallPlan) -> (r: String)
    ensures
        r@ == finish_body(*plan),
{
    let mut body = render_finish_head(plan);
    let steps = prefix_all("\n  ", &next_steps(plan));
    let ghost all = text::texts(steps@);
    let mut i: usize = 0;
    while i < steps.len()
        invariant
            i <= steps@.len(),
            all == text::texts(steps@),
            body@ == finish_head(*plan) + flat(all.take(i as int)),
        decreases steps@.len() - i,
    {
        assert(all.take(i + 1).drop_last() =~= all.take(i as int));
        body.append(steps[i].as_str());
        i += 1;
        assert(body@ =~= finish_head(*plan) + flat(all.take(i as int)));
    }
    assert(all.take(i as int) =~= all);
    if plan.access == AccessMode::BehindProxy {
        let and_mint = if plan.mint.is_some() {
            " and mint"
        } else {
            ""
        };
        let note = "\n\nYour reverse proxy terminates TLS — ready-made server blocks\n(console".to_owned()
            .concat(and_mint)
            .concat("):\n  ")
            .concat(plan.install_dir.as_str())
            .concat("/proxy-snippets/  (Caddy and nginx)");
        body.concat(note.as_str())
    } else {
        body
    }
}

pub fn finish_title(plan: &InstallPlan) -> (r: String)
    ensures
        r@ == "Branch processor "@ + plan.version@ + shape_suffix(*plan) + " is running"@,
{
    "Branch processor ".to_owned()
        .concat(plan.version.as_str())
        .concat(suffix(plan))
        .concat(" is running")
}

// ---------------------------------------------------------------------------
// laws
// ---------------------------------------------------------------------------
/// The seed of a bundled mint is shown when a headless install ends, on a line
/// of its own.
pub proof fn law_summary_shows_the_seed(plan: InstallPlan)
    ensures
        plan.mint matches Some(m) ==> summary_lines(plan).contains("      "@ + m.mnemonic@),
{
    if plan.mint is Some {
        let line = "      "@ + plan.mint->0.mnemonic@;
        let n = heading(plan).len() as int;
        assert(payment_part(plan)[7] == line);
        assert(summary_lines(plan)[n + 7] == line);
    }
}

/// The first password is shown when a headless install ends.
pub proof fn law_summary_shows_the_password(plan: InstallPlan)
    ensures
        summary_lines(plan).contains("  Sign in:           admin / "@ + plan.admin_password@),
{
    let line = "  Sign in:           admin / "@ + plan.admin_password@;
    let n = (heading(plan).len() + payment_part(plan).len()) as int;
    assert(sign_in_part(plan)[0] == line);
    assert(summary_lines(plan)[n] == line);
}

/// The wizard's last note shows the first password and, with a bundled mint,
/// the seed.
pub proof fn law_finish_shows_the_credentials(plan: InstallPlan)
    requires
        plan.mint is Some ==> plan.attach is Some,
    ensures
        text::found(finish_body(plan), plan.admin_password@) is Some,
        plan.mint matches Some(m) ==> text::found(finish_body(plan), m.mnemonic@) is Some,
{
    let all = finish_body(plan);
    let (head, password) = (finish_head(plan), plan.admin_password@);
    assert(all.take(head.len() as int) =~= head);
    let rest = all.skip(head.len() as int);
    assert(all =~= head + rest);
    match (plan.mint, plan.attach) {
        (Some(m), Some(attach)) => {
            let a = "Operator console   "@ + plan.url() + "\nMint               "@ + m.mint_url@
                + "  (wallets connect here; unit \""@ + attach.unit@
                + "\")\n\nSign in as         admin\nPassword           "@;
            let b = head.skip((a.len() + password.len()) as int);
            assert(head =~= a + password + b);
            assert(all =~= a + password + (b + rest));
            text::lemma_found_between(a, password, b + rest);
            let tail = "\n\n(also stored in "@ + plan.install_dir@
                + "/mint/mnemonic; included in mintctl backup)\n\nNext steps:"@;
            let c = head.take(head.len() - tail.len() - m.mnemonic@.len());
            assert(head =~= c + m.mnemonic@ + tail);
            assert(all =~= c + m.mnemonic@ + (tail + rest));
            text::lemma_found_between(c, m.mnemonic@, tail + rest);
        },
        _ => {
            let a = "Operator console   "@ + plan.url() + "\nPayment gRPC       "@ + plan.grpc()
                + "  (your cdk-mintd connects here)\n\nSign in as         admin\nPassword           "@;
            let b = head.skip((a.len() + password.len()) as int);
            assert(head =~= a + password + b);
            assert(all =~= a + password + (b + rest));
            text::lemma_found_between(a, password, b + rest);
        },
    }
}

/// The summary of a headless install names the console's address, how to sign
/// in, and what the access mode asks of the operator: which ports to open, or
/// what to proxy. With a bundled mint it names the address for wallets and tells
/// where the seed is kept, and otherwise where the operator's mint connects. It
/// has as many lines as that takes, and four more exactly where the payment gRPC
/// is open to all interfaces.
pub proof fn law_summary_tells(plan: InstallPlan, url: String, endpoint: String, r: Vec<String>)
    requires
        call_ensures(InstallPlan::console_url, (&plan,), url),
        call_ensures(InstallPlan::grpc_endpoint, (&plan,), endpoint),
        call_ensures(print_summary, (&plan,), r),
    ensures
        ({
            let s = text::texts(r@);
            let open = plan.grpc_bind_addr@ == "0.0.0.0"@;
            &&& s.contains("  Operator console:  "@ + url@)
            &&& s.contains("  Sign in:           admin / "@ + plan.admin_password@)
            &&& plan.mint is None ==> s.contains(
                "  Payment gRPC:      "@ + endpoint@ + "  (your cdk-mintd connects here)"@,
            )
            &&& plan.mint matches Some(m) ==> s.contains("      "@ + m.mnemonic@) && s.contains(
                "  (also stored in "@ + plan.install_dir@
                    + "/mint/mnemonic; included in mintctl backup)"@,
            )
            &&& plan.access == AccessMode::DomainTls ==> s.contains(
                "  request can take a minute. Firewall: allow 80 and 443."@,
            )
            &&& plan.access == AccessMode::PlainHttp && plan.mint is None ==> s.contains(
                "  internet. Firewall: allow "@ + text::decimal(plan.ui_port as nat) + "."@,
            )
            &&& plan.access == AccessMode::PlainHttp ==> (plan.mint matches Some(m) ==> s.contains(
                "  internet. Firewall: allow "@ + text::decimal(plan.ui_port as nat) + " and "@
                    + text::decimal(m.mint_port as nat) + "."@,
            ))
            &&& plan.access == AccessMode::BehindProxy ==> s.contains(
                "  Proxy "@ + plan.console_domain@ + " to 127.0.0.1:"@ + text::decimal(
                    plan.ui_port as nat,
                ) + "."@,
            )
            &&& plan.access == AccessMode::BehindProxy ==> (plan.mint matches Some(m)
                ==> s.contains(
                "  Proxy "@ + m.mint_domain@ + " to 127.0.0.1:"@ + text::decimal(
                    m.mint_port as nat,
                ) + "."@,
            ))
            &&& open ==> s.contains(
                "  The payment gRPC ("@ + endpoint@ + ") is published on all interfaces and"@,
            )
            &&& s.len() == 21 + (if plan.mint is Some {
                11int
            } else {
                2
            }) + (if plan.access != AccessMode::BehindProxy {
                2int
            } else if plan.mint is Some {
                4
            } else {
                3
            }) + (if open {
                4int
            } else {
                0
            })
        }),
{
    let s = text::texts(r@);
    let (h, p, i) = (heading(plan), payment_part(plan), sign_in_part(plan));
    let (a, e) = (access_part(plan), exposure_part(plan));
    let n = prefixed("    "@, steps_of(plan));
    assert(h.len() == 6 && i.len() == 6 && n.len() == 4 && manage_part().len() == 4);
    assert(s[5] == h[5]);
    assert(s[6 + p.len() as int] == i[0]);
    assert(s[6] == p[0]);
    if plan.mint is Some {
        assert(s[13] == p[7]);
        assert(s[15] == p[9]);
    }
    let at = 6 + p.len() + 6 + 4 + 1;
    assert(s[at as int + 1] == a[1]);
    if plan.access == AccessMode::BehindProxy {
        assert(s[at as int + 2] == a[2]);
        if plan.mint is Some {
            assert(s[at as int + 3] == a[3]);
        }
    }
    if plan.grpc_bind_addr@ == "0.0.0.0"@ {
        assert(s[at as int + a.len() as int + 1] == e[1]);
    }
}

/// What is left to do: with a bundled mint its seed is to be written down and
/// wallets are told its address; with an attachment, or without one, the
/// operator's mint is told where to reach the processor.
pub proof fn law_next_steps(plan: InstallPlan, endpoint: String, r: Vec<String>)
    requires
        call_ensures(InstallPlan::grpc_endpoint, (&plan,), endpoint),
        call_ensures(next_steps, (&plan,), r),
    ensures
        r@.len() == 4,
        plan.mint matches Some(m) ==> r@[3]@ == "4. Wallets connect to "@ + m.mint_url@ + "."@
            && r@[0]@ == "1. Write down the mint seed shown above — it is the only recovery path."@,
        plan.mint is None ==> (plan.attach matches Some(a) ==> text::found(
            r@[1]@,
            a.advertised_grpc@,
        ) is Some && r@[0]@
            == "1. Mint tab   — copy the config snippet (the attachment is already set)."@),
        plan.mint is None && plan.attach is None ==> text::found(r@[1]@, endpoint@) is Some
            && r@[0]@
            == "1. Mint tab   — set your unit and your mint's URL; copy the config snippet."@,
{
    let s = text::texts(r@);
    assert(s.len() == r@.len());
    assert(s[0] == r@[0]@ && s[1] == r@[1]@ && s[3] == r@[3]@);
    let lead = "2. Your mintd — apply the snippet (cdk-mintd config apply) and restart it.\n     (It must run the compatible cdk release — the Mint tab shows\n     which one and why; its gRPC target is "@;
    if plan.mint is None {
        let target = if plan.attach is Some {
            plan.attach->0.advertised_grpc@
        } else {
            endpoint@
        };
        text::lemma_found_between(lead, target, ".)"@);
    }
}

/// What the wizard shows before it installs names what it will install: the
/// console's address, the directory and the release, and with a bundled mint its
/// address and its unit.
pub proof fn law_ready_tells(plan: InstallPlan, url: String, endpoint: String, r: String)
    requires
        call_ensures(InstallPlan::console_url, (&plan,), url),
        call_ensures(InstallPlan::grpc_endpoint, (&plan,), endpoint),
        call_ensures(ready_to_install, (&plan,), r),
    ensures
        text::begins(r@, "Console        "@ + url@),
        text::found(
            r@,
            "\nDirectory      "@ + plan.install_dir@ + "\nVersion        "@ + plan.version@,
        ) is Some,
        plan.mint is Some && plan.attach is Some ==> text::found(
            r@,
            "\nMint           "@ + plan.mint->0.mint_url@ + " — unit \""@ + plan.attach->0.unit@
                + "\""@,
        ) is Some,
        plan.mint is None ==> text::found(r@, "\nPayment gRPC   "@ + endpoint@) is Some,
{
    let reach = reach_line(plan);
    let first = "Console        "@ + url@;
    let how = match plan.access {
        AccessMode::DomainTls => " — automatic HTTPS"@,
        AccessMode::BehindProxy => " — via your own reverse proxy"@,
        AccessMode::PlainHttp => " — plain HTTP (LAN/testing)"@,
    };
    let all = "Console        "@ + reach;
    assert(all =~= first + how);
    assert(r@.take(first.len() as int) =~= first);
    reveal_strlit("\nDirectory      ");
    let d = "\nDirectory      "@ + plan.install_dir@ + "\nVersion        "@ + plan.version@;
    if plan.mint is Some && plan.attach is Some {
        let (m, a) = (plan.mint->0, plan.attach->0);
        let link = "\nPayment link   internal (processor:50051 on the compose network)"@;
        reveal_strlit("\nPayment link   internal (processor:50051 on the compose network)");
        reveal_strlit(
            "\nPayment link   internal (processor:50051 on the compose network)\nDirectory      ",
        );
        assert("\nPayment link   internal (processor:50051 on the compose network)\nDirectory      "@
            =~= link + "\nDirectory      "@);
        reveal_strlit("\" (wallets connect here)\nMint image     cashubtc/mintd:");
        reveal_strlit("\"");
        reveal_strlit(" (wallets connect here)\nMint image     cashubtc/mintd:");
        assert("\" (wallets connect here)\nMint image     cashubtc/mintd:"@ =~= "\""@
            + " (wallets connect here)\nMint image     cashubtc/mintd:"@);
        let t = "\nMint           "@ + m.mint_url@ + " — unit \""@ + a.unit@ + "\""@;
        let rest = " (wallets connect here)\nMint image     cashubtc/mintd:"@ + m.mintd_version@
            + "\nPayment link   internal (processor:50051 on the compose network)\nDirectory      "@
            + plan.install_dir@ + "\nVersion        "@ + plan.version@
            + "\n\nA new mint seed (12 words) will be generated and shown once."@;
        assert(r@ =~= all + t + rest);
        text::lemma_found_between(all, t, rest);
        let before = all + t + " (wallets connect here)\nMint image     cashubtc/mintd:"@
            + m.mintd_version@ + link;
        let last = "\n\nA new mint seed (12 words) will be generated and shown once."@;
        assert(r@ =~= before + d + last);
        text::lemma_found_between(before, d, last);
    } else {
        reveal_strlit(" (your cdk-mintd connects here)\nDirectory      ");
        reveal_strlit(" (your cdk-mintd connects here)");
        assert(" (your cdk-mintd connects here)\nDirectory      "@
            =~= " (your cdk-mintd connects here)"@ + "\nDirectory      "@);
        let t = "\nPayment gRPC   "@ + endpoint@;
        let last = "\n\nThe mint itself is attached afterwards, in the console's Mint tab."@;
        let mid = " (your cdk-mintd connects here)"@;
        assert(r@ =~= all + t + (mid + d + last));
        text::lemma_found_between(all, t, mid + d + last);
        assert(r@ =~= (all + t + mid) + d + last);
        text::lemma_found_between(all + t + mid, d, last);
    }
}

/// The wizard's last note begins with the console's address, and points to the
/// snippets exactly for the operator's own proxy.
pub proof fn law_finish_tells(plan: InstallPlan, url: String, title: String, r: String)
    requires
        call_ensures(InstallPlan::console_url, (&plan,), url),
        call_ensures(finish, (&plan,), r),
        call_ensures(finish_title, (&plan,), title),
    ensures
        text::begins(r@, "Operator console   "@ + url@),
        plan.access == AccessMode::BehindProxy ==> text::found(
            r@,
            plan.install_dir@ + "/proxy-snippets/  (Caddy and nginx)"@,
        ) is Some,
        plan.access != AccessMode::BehindProxy ==> r@ == finish_head(plan) + flat(
            prefixed("\n  "@, steps_of(plan)),
        ),
        plan.mint is Some ==> title@ == "Branch processor "@ + plan.version@ + " + mint"@
            + " is running"@,
        plan.mint is None ==> title@ == "Branch processor "@ + plan.version@ + ""@
            + " is running"@,
{
    let first = "Operator console   "@ + url@;
    let head = finish_head(plan);
    assert(head.take(first.len() as int) =~= first);
    assert(r@.take(first.len() as int) =~= head.take(first.len() as int));
    if plan.access == AccessMode::BehindProxy {
        let body = head + flat(prefixed("\n  "@, steps_of(plan)));
        let and_mint = if plan.mint is Some {
            " and mint"@
        } else {
            ""@
        };
        let before = body
            + "\n\nYour reverse proxy terminates TLS — ready-made server blocks\n(console"@ + and_mint
            + "):\n  "@;
        let t = plan.install_dir@ + "/proxy-snippets/  (Caddy and nginx)"@;
        assert(r@ =~= before + t + Seq::<char>::empty());
        text::lemma_found_between(before, t, Seq::empty());
    }
}

/// A headless install says which release it installs and where, and whether it
/// pulls the images or takes the local one.
pub proof fn law_beginning_tells(plan: InstallPlan, begin: String, pull: String)
    requires
        call_ensures(installing, (&plan,), begin),
        call_ensures(pulling, (&plan,), pull),
    ensures
        plan.mint is Some ==> begin@ == "Installing the branch processor "@ + plan.version@
            + " + mint"@ + " into "@ + plan.install_dir@,
        plan.mint is None ==> begin@ == "Installing the branch processor "@ + plan.version@ + ""@
            + " into "@ + plan.install_dir@,
        plan.no_pull ==> text::begins(pull@, "Skipping the image pull (--no-pull)"@),
        !plan.no_pull ==> pull@ == "Pulling the images ("@ + plan.version@ + ") ..."@,
{
    if plan.no_pull {
        reveal_strlit("Skipping the image pull (--no-pull)");
        reveal_strlit("Skipping the image pull (--no-pull); using the local ");
        let t = "Skipping the image pull (--no-pull)"@;
        assert(pull@.take(t.len() as int) =~= t);
    }
}

} // verus!
