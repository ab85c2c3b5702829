//! The `.env` file of a plan: what is written, and that it reads back as the
//! plan.

use crate::compose;
use crate::envfile;
use crate::envfile::EnvFile;
use crate::install;
use crate::install::{AccessMode, AttachPlan, InstallPlan, MintPlan, ENV_FILE};
use crate::mint::FileWrite;
use crate::outside;
use crate::paths;
use crate::text;
use vstd::prelude::*;

verus! {

// ---------------------------------------------------------------------------
// the .env file
// ---------------------------------------------------------------------------
pub open spec fn generated_line(now: Seq<char>) -> Seq<char> {
    "# Generated by the Pecan installer "@ + now + "."@
}

/// The lines that every installation has.
pub open spec fn base_lines(plan: InstallPlan, now: Seq<char>, project: Seq<char>) -> Seq<Seq<char>> {
    seq![
        generated_line(now),
        "# Every key is documented in .env.example."@,
        envfile::entry("VERSION"@) + plan.version@,
        envfile::entry("COMPOSE_PROJECT_NAME"@) + project,
        envfile::entry("UI_PORT"@) + text::decimal(plan.ui_port as nat),
        envfile::entry("BIND_ADDR"@) + plan.bind_addr@,
        envfile::entry("COMPOSE_PROFILES"@) + install::profiles_of(plan.access, plan.mint is Some),
        envfile::entry("CONSOLE_DOMAIN"@) + plan.console_domain@,
        envfile::entry("GRPC_BIND_ADDR"@) + plan.grpc_bind_addr@,
        envfile::entry("GRPC_PORT"@) + text::decimal(plan.grpc_port as nat),
        "# First boot only; inert once users.json exists. Kept as a recovery path in"@,
        "# case the printed password is lost before the operator changes it."@,
        envfile::entry("INITIAL_ADMIN_PASSWORD"@) + plan.admin_password@,
        envfile::entry("ACME_EMAIL"@) + plan.acme_email@,
    ]
}

/// The lines for an attachment.
pub open spec fn attach_lines(attach: Option<AttachPlan>) -> Seq<Seq<char>> {
    match attach {
        Some(a) => seq![
            "# First boot only; inert once setup.json exists. Later changes happen in"@,
            "# the console's Mint tab."@,
            envfile::entry("INITIAL_UNIT"@) + a.unit@,
            envfile::entry("INITIAL_MINT_URL"@) + a.mint_url@,
            envfile::entry("INITIAL_ADVERTISED_GRPC"@) + a.advertised_grpc@,
        ],
        None => Seq::empty(),
    }
}

/// The lines for a bundled mint.
pub open spec fn mint_lines(mint: Option<MintPlan>) -> Seq<Seq<char>> {
    match mint {
        Some(m) => seq![
            "# The bundled mint. MINT_VERSION moves independently of VERSION:"@,
            "# 'mintctl update' never touches it (the mint holds money);"@,
            "# upgrade deliberately with 'mintctl update --mint-version <tag>'."@,
            envfile::entry("MINT_VERSION"@) + m.mintd_version@,
            envfile::entry("MINT_PORT"@) + text::decimal(m.mint_port as nat),
            envfile::entry("MINT_BIND_ADDR"@) + m.mint_bind_addr@,
            envfile::entry("MINT_DOMAIN"@) + m.mint_domain@,
        ],
        None => Seq::empty(),
    }
}

/// The `.env` file of a plan, line by line.
pub open spec fn env_lines(plan: InstallPlan, now: Seq<char>, project: Seq<char>) -> Seq<Seq<char>> {
    base_lines(plan, now, project) + attach_lines(plan.attach) + mint_lines(plan.mint)
}

fn render_base_lines(plan: &InstallPlan, now: &str, project: &str) -> (r: Vec<String>)
    ensures
        text::texts(r@) == base_lines(*plan, now@, project@),
{
    broadcast use text::lemma_texts_push;

    let mut lines: Vec<String> = Vec::new();
    lines.push("# Generated by the Pecan installer ".to_owned().concat(now).concat("."));
    lines.push("# Every key is documented in .env.example.".to_owned());
    lines.push(envfile::entry_line("VERSION", plan.version.as_str()));
    lines.push(envfile::entry_line("COMPOSE_PROJECT_NAME", project));
    lines.push(envfile::entry_line("UI_PORT", text::to_decimal(plan.ui_port as u64).as_str()));
    lines.push(envfile::entry_line("BIND_ADDR", plan.bind_addr.as_str()));
    lines.push(envfile::entry_line("COMPOSE_PROFILES", plan.compose_profiles().as_str()));
    lines.push(envfile::entry_line("CONSOLE_DOMAIN", plan.console_domain.as_str()));
    lines.push(envfile::entry_line("GRPC_BIND_ADDR", plan.grpc_bind_addr.as_str()));
    lines.push(envfile::entry_line("GRPC_PORT", text::to_decimal(plan.grpc_port as u64).as_str()));
    lines.push(
        "# First boot only; inert once users.json exists. Kept as a recovery path in".to_owned(),
    );
    lines.push("# case the printed password is lost before the operator changes it.".to_owned());
    lines.push(envfile::entry_line("INITIAL_ADMIN_PASSWORD", plan.admin_password.as_str()));
    lines.push(envfile::entry_line("ACME_EMAIL", plan.acme_email.as_str()));
    assert(text::texts(lines@) =~= base_lines(*plan, now@, project@));
    lines
}

fn render_attach_lines(attach: &Option<AttachPlan>) -> (r: Vec<String>)
    ensures
        text::texts(r@) == attach_lines(*attach),
{
    broadcast use text::lemma_texts_push;

    let mut lines: Vec<String> = Vec::new();
    match attach {
        Some(a) => {
            lines.push(
                "# First boot only; inert once setup.json exists. Later changes happen in".to_owned(),
            );
            lines.push("# the console's Mint tab.".to_owned());
            lines.push(envfile::entry_line("INITIAL_UNIT", a.unit.as_str()));
            lines.push(envfile::entry_line("INITIAL_MINT_URL", a.mint_url.as_str()));
            lines.push(envfile::entry_line("INITIAL_ADVERTISED_GRPC", a.advertised_grpc.as_str()));
        },
        None => {},
    }
    assert(text::texts(lines@) =~= attach_lines(*attach));
    lines
}

fn render_mint_lines(mint: &Option<MintPlan>) -> (r: Vec<String>)
    ensures
        text::texts(r@) == mint_lines(*mint),
{
    broadcast use text::lemma_texts_push;

    let mut lines: Vec<String> = Vec::new();
    match mint {
        Some(m) => {
            lines.push("# The bundled mint. MINT_VERSION moves independently of VERSION:".to_owned());
            lines.push("# 'mintctl update' never touches it (the mint holds money);".to_owned());
            lines.push(
                "# upgrade deliberately with 'mintctl update --mint-version <tag>'.".to_owned(),
            );
            lines.push(envfile::entry_line("MINT_VERSION", m.mintd_version.as_str()));
            lines.push(
                envfile::entry_line("MINT_PORT", text::to_decimal(m.mint_port as u64).as_str()),
            );
            lines.push(envfile::entry_line("MINT_BIND_ADDR", m.mint_bind_addr.as_str()));
            lines.push(envfile::entry_line("MINT_DOMAIN", m.mint_domain.as_str()));
        },
        None => {},
    }
    assert(text::texts(lines@) =~= mint_lines(*mint));
    lines
}

/// The text of a plan's `.env`, written at the time `now` for this project.
pub fn env_body(plan: &InstallPlan, now: &str, project: &str) -> (r: String)
    ensures
        r@ == envfile::terminated(env_lines(*plan, now@, project@)),
{
    let mut lines = render_base_lines(plan, now, project);
    text::extend(&mut lines, &render_attach_lines(&plan.attach));
    text::extend(&mut lines, &render_mint_lines(&plan.mint));
    envfile::terminate(&lines)
}

/// The time as the file's first line gives it: empty where it has no name.
pub open spec fn stamp(unix_seconds: i64) -> Seq<char> {
    match outside::rfc3339(unix_seconds) {
        Some(text) => text,
        None => Seq::empty(),
    }
}

/// The `.env` of a plan as it is written into `dir`: private, under the project
/// name that `dir` gives.
pub fn write_env(plan: &InstallPlan, dir: &str, unix_seconds: i64) -> (r: FileWrite)
    ensures
        writes_env(*plan, dir@, unix_seconds, r),
        envfile::plain_line(stamp(unix_seconds)),
        envfile::plain_line(compose::install_project(dir@)),
{
    let now = match outside::format_rfc3339(unix_seconds) {
        Some(text) => text,
        None => String::new(),
    };
    let project = compose::install_project_name(dir);
    proof {
        if now@.len() > 0 {
            assert(outside::time_char(now@[now@.len() - 1]));
        }
        assert(compose::name_char(project@[project@.len() - 1]));
    }
    FileWrite {
        path: paths::join(dir, ENV_FILE),
        contents: env_body(plan, now.as_str(), project.as_str()),
        mode: 0o600,
        exclusive: false,
    }
}

pub open spec fn writes_env(
    plan: InstallPlan,
    dir: Seq<char>,
    unix_seconds: i64,
    file: FileWrite,
) -> bool {
    &&& file.path@ == paths::below(dir, ENV_FILE@)
    &&& file.contents@ == envfile::terminated(
        env_lines(plan, stamp(unix_seconds), compose::install_project(dir)),
    )
    &&& file.mode == 0o600
    &&& !file.exclusive
}

/// A staged `.env` file under the project name of the directory that it will
/// be moved to.
pub fn name_project(staged: EnvFile, install_dir: &str, mode: Option<u32>) -> (r: (String, u32))
    ensures
        r.0@ == envfile::body_of(
            envfile::with_entry(
                staged@,
                "COMPOSE_PROJECT_NAME"@,
                compose::install_project(install_dir@),
            ),
        ),
        r.1 == (match mode {
            Some(mode) => mode & 0o777,
            None => 0o600,
        }),
{
    let mut env = staged;
    env.set("COMPOSE_PROJECT_NAME", compose::install_project_name(install_dir).as_str());
    env.save(mode)
}

// ---------------------------------------------------------------------------
// what the written file says
// ---------------------------------------------------------------------------
/// What the lines of every installation set a key to.
pub open spec fn base_setting(plan: InstallPlan, project: Seq<char>, key: Seq<char>) -> Option<
    Seq<char>,
> {
    if key == "ACME_EMAIL"@ {
        Some(plan.acme_email@)
    } else if key == "INITIAL_ADMIN_PASSWORD"@ {
        Some(plan.admin_password@)
    } else if key == "GRPC_PORT"@ {
        Some(text::decimal(plan.grpc_port as nat))
    } else if key == "GRPC_BIND_ADDR"@ {
        Some(plan.grpc_bind_addr@)
    } else if key == "CONSOLE_DOMAIN"@ {
        Some(plan.console_domain@)
    } else if key == "COMPOSE_PROFILES"@ {
        Some(install::profiles_of(plan.access, plan.mint is Some))
    } else if key == "BIND_ADDR"@ {
        Some(plan.bind_addr@)
    } else if key == "UI_PORT"@ {
        Some(text::decimal(plan.ui_port as nat))
    } else if key == "COMPOSE_PROJECT_NAME"@ {
        Some(project)
    } else if key == "VERSION"@ {
        Some(plan.version@)
    } else {
        None
    }
}

/// What the lines of an attachment set a key to.
pub open spec fn attach_setting(attach: Option<AttachPlan>, key: Seq<char>) -> Option<Seq<char>> {
    match attach {
        Some(a) => {
            if key == "INITIAL_ADVERTISED_GRPC"@ {
                Some(a.advertised_grpc@)
            } else if key == "INITIAL_MINT_URL"@ {
                Some(a.mint_url@)
            } else if key == "INITIAL_UNIT"@ {
                Some(a.unit@)
            } else {
                None
            }
        },
        None => None,
    }
}

/// What the lines of a bundled mint set a key to.
pub open spec fn mint_setting(mint: Option<MintPlan>, key: Seq<char>) -> Option<Seq<char>> {
    match mint {
        Some(m) => {
            if key == "MINT_DOMAIN"@ {
                Some(m.mint_domain@)
            } else if key == "MINT_BIND_ADDR"@ {
                Some(m.mint_bind_addr@)
            } else if key == "MINT_PORT"@ {
                Some(text::decimal(m.mint_port as nat))
            } else if key == "MINT_VERSION"@ {
                Some(m.mintd_version@)
            } else {
                None
            }
        },
        None => None,
    }
}

/// What a plan's `.env` sets a key to.
pub open spec fn setting(plan: InstallPlan, project: Seq<char>, key: Seq<char>) -> Option<
    Seq<char>,
> {
    match mint_setting(plan.mint, key) {
        Some(value) => Some(value),
        None => match attach_setting(plan.attach, key) {
            Some(value) => Some(value),
            None => base_setting(plan, project, key),
        },
    }
}

/// A key that a `.env` line can be for.
pub open spec fn plain_key(key: Seq<char>) -> bool {
    !key.contains('=') && key.len() > 0 && key[0] != '#'
}

/// One more line for a key without `=` in it.
proof fn lemma_one_more(env: Seq<Seq<char>>, key: Seq<char>, value: Seq<char>, asked: Seq<char>)
    requires
        !key.contains('='),
        !asked.contains('='),
    ensures
        envfile::last_value(env.push(envfile::entry(key) + value), asked) == (if asked == key {
            Some(value)
        } else {
            envfile::last_value(env, asked)
        }),
{
    if asked == key {
        envfile::lemma_last_value_own(env, key, value);
    } else {
        envfile::lemma_plain_keys_apart(key, asked);
        envfile::lemma_last_value_other(env, key, value, asked);
    }
}

proof fn lemma_base_setting(plan: InstallPlan, now: Seq<char>, project: Seq<char>, key: Seq<char>)
    requires
        plain_key(key),
    ensures
        envfile::last_value(base_lines(plan, now, project), key) == base_setting(plan, project, key),
{
    reveal_strlit("# Generated by the Pecan installer ");
    reveal_strlit("# Every key is documented in .env.example.");
    reveal_strlit("VERSION");
    reveal_strlit("COMPOSE_PROJECT_NAME");
    reveal_strlit("UI_PORT");
    reveal_strlit("BIND_ADDR");
    reveal_strlit("COMPOSE_PROFILES");
    reveal_strlit("CONSOLE_DOMAIN");
    reveal_strlit("GRPC_BIND_ADDR");
    reveal_strlit("GRPC_PORT");
    reveal_strlit("# First boot only; inert once users.json exists. Kept as a recovery path in");
    reveal_strlit("# case the printed password is lost before the operator changes it.");
    reveal_strlit("INITIAL_ADMIN_PASSWORD");
    reveal_strlit("ACME_EMAIL");
    let p0 = Seq::<Seq<char>>::empty();
    envfile::lemma_last_value_comment(p0, generated_line(now), key);
    let p1 = p0.push(generated_line(now));
    envfile::lemma_last_value_comment(p1, "# Every key is documented in .env.example."@, key);
    let p2 = p1.push("# Every key is documented in .env.example."@);
    lemma_one_more(p2, "VERSION"@, plan.version@, key);
    let p3 = p2.push(envfile::entry("VERSION"@) + plan.version@);
    lemma_one_more(p3, "COMPOSE_PROJECT_NAME"@, project, key);
    let p4 = p3.push(envfile::entry("COMPOSE_PROJECT_NAME"@) + project);
    lemma_one_more(p4, "UI_PORT"@, text::decimal(plan.ui_port as nat), key);
    let p5 = p4.push(envfile::entry("UI_PORT"@) + text::decimal(plan.ui_port as nat));
    lemma_one_more(p5, "BIND_ADDR"@, plan.bind_addr@, key);
    let p6 = p5.push(envfile::entry("BIND_ADDR"@) + plan.bind_addr@);
    lemma_one_more(p6, "COMPOSE_PROFILES"@, install::profiles_of(plan.access, plan.mint is Some), key);
    let p7 = p6.push(envfile::entry("COMPOSE_PROFILES"@) + install::profiles_of(plan.access, plan.mint is Some));
    lemma_one_more(p7, "CONSOLE_DOMAIN"@, plan.console_domain@, key);
    let p8 = p7.push(envfile::entry("CONSOLE_DOMAIN"@) + plan.console_domain@);
    lemma_one_more(p8, "GRPC_BIND_ADDR"@, plan.grpc_bind_addr@, key);
    let p9 = p8.push(envfile::entry("GRPC_BIND_ADDR"@) + plan.grpc_bind_addr@);
    lemma_one_more(p9, "GRPC_PORT"@, text::decimal(plan.grpc_port as nat), key);
    let p10 = p9.push(envfile::entry("GRPC_PORT"@) + text::decimal(plan.grpc_port as nat));
    envfile::lemma_last_value_comment(p10, "# First boot only; inert once users.json exists. Kept as a recovery path in"@, key);
    let p11 = p10.push("# First boot only; inert once users.json exists. Kept as a recovery path in"@);
    envfile::lemma_last_value_comment(p11, "# case the printed password is lost before the operator changes it."@, key);
    let p12 = p11.push("# case the printed password is lost before the operator changes it."@);
    lemma_one_more(p12, "INITIAL_ADMIN_PASSWORD"@, plan.admin_password@, key);
    let p13 = p12.push(envfile::entry("INITIAL_ADMIN_PASSWORD"@) + plan.admin_password@);
    lemma_one_more(p13, "ACME_EMAIL"@, plan.acme_email@, key);
    let p14 = p13.push(envfile::entry("ACME_EMAIL"@) + plan.acme_email@);
    assert(base_lines(plan, now, project) =~= p14);
}

proof fn lemma_attach_setting(a: AttachPlan, key: Seq<char>)
    requires
        plain_key(key),
    ensures
        envfile::last_value(attach_lines(Some(a)), key) == attach_setting(Some(a), key),
{
    reveal_strlit("# First boot only; inert once setup.json exists. Later changes happen in");
    reveal_strlit("# the console's Mint tab.");
    reveal_strlit("INITIAL_UNIT");
    reveal_strlit("INITIAL_MINT_URL");
    reveal_strlit("INITIAL_ADVERTISED_GRPC");
    let p0 = Seq::<Seq<char>>::empty();
    envfile::lemma_last_value_comment(p0, "# First boot only; inert once setup.json exists. Later changes happen in"@, key);
    let p1 = p0.push("# First boot only; inert once setup.json exists. Later changes happen in"@);
    envfile::lemma_last_value_comment(p1, "# the console's Mint tab."@, key);
    let p2 = p1.push("# the console's Mint tab."@);
    lemma_one_more(p2, "INITIAL_UNIT"@, a.unit@, key);
    let p3 = p2.push(envfile::entry("INITIAL_UNIT"@) + a.unit@);
    lemma_one_more(p3, "INITIAL_MINT_URL"@, a.mint_url@, key);
    let p4 = p3.push(envfile::entry("INITIAL_MINT_URL"@) + a.mint_url@);
    lemma_one_more(p4, "INITIAL_ADVERTISED_GRPC"@, a.advertised_grpc@, key);
    let p5 = p4.push(envfile::entry("INITIAL_ADVERTISED_GRPC"@) + a.advertised_grpc@);
    assert(attach_lines(Some(a)) =~= p5);
}

proof fn lemma_mint_setting(m: MintPlan, key: Seq<char>)
    requires
        plain_key(key),
    ensures
        envfile::last_value(mint_lines(Some(m)), key) == mint_setting(Some(m), key),
{
    reveal_strlit("# The bundled mint. MINT_VERSION moves independently of VERSION:");
    reveal_strlit("# 'mintctl update' never touches it (the mint holds money);");
    reveal_strlit("# upgrade deliberately with 'mintctl update --mint-version <tag>'.");
    reveal_strlit("MINT_VERSION");
    reveal_strlit("MINT_PORT");
    reveal_strlit("MINT_BIND_ADDR");
    reveal_strlit("MINT_DOMAIN");
    let p0 = Seq::<Seq<char>>::empty();
    envfile::lemma_last_value_comment(p0, "# The bundled mint. MINT_VERSION moves independently of VERSION:"@, key);
    let p1 = p0.push("# The bundled mint. MINT_VERSION moves independently of VERSION:"@);
    envfile::lemma_last_value_comment(p1, "# 'mintctl update' never touches it (the mint holds money);"@, key);
    let p2 = p1.push("# 'mintctl update' never touches it (the mint holds money);"@);
    envfile::lemma_last_value_comment(p2, "# upgrade deliberately with 'mintctl update --mint-version <tag>'."@, key);
    let p3 = p2.push("# upgrade deliberately with 'mintctl update --mint-version <tag>'."@);
    lemma_one_more(p3, "MINT_VERSION"@, m.mintd_version@, key);
    let p4 = p3.push(envfile::entry("MINT_VERSION"@) + m.mintd_version@);
    lemma_one_more(p4, "MINT_PORT"@, text::decimal(m.mint_port as nat), key);
    let p5 = p4.push(envfile::entry("MINT_PORT"@) + text::decimal(m.mint_port as nat));
    lemma_one_more(p5, "MINT_BIND_ADDR"@, m.mint_bind_addr@, key);
    let p6 = p5.push(envfile::entry("MINT_BIND_ADDR"@) + m.mint_bind_addr@);
    lemma_one_more(p6, "MINT_DOMAIN"@, m.mint_domain@, key);
    let p7 = p6.push(envfile::entry("MINT_DOMAIN"@) + m.mint_domain@);
    assert(mint_lines(Some(m)) =~= p7);
}

/// The lines of a plan's `.env` set every key to the plan's setting, and no key
/// to anything else.
pub proof fn law_env_lines_hold_the_plan(
    plan: InstallPlan,
    now: Seq<char>,
    project: Seq<char>,
    key: Seq<char>,
)
    requires
        plain_key(key),
    ensures
        envfile::last_value(env_lines(plan, now, project), key) == setting(plan, project, key),
{
    lemma_base_setting(plan, now, project, key);
    if plan.attach is Some {
        lemma_attach_setting(plan.attach->0, key);
    }
    if plan.mint is Some {
        lemma_mint_setting(plan.mint->0, key);
    }
    let (a, b) = (base_lines(plan, now, project), attach_lines(plan.attach));
    envfile::lemma_last_value_append(a, b, key);
    envfile::lemma_last_value_append(a + b, mint_lines(plan.mint), key);
}

/// That no text of the plan breaks a line of the `.env` file.
pub open spec fn plain_plan(plan: InstallPlan) -> bool {
    &&& envfile::plain_line(plan.version@)
    &&& envfile::plain_line(plan.bind_addr@)
    &&& envfile::plain_line(plan.console_domain@)
    &&& envfile::plain_line(plan.grpc_bind_addr@)
    &&& envfile::plain_line(plan.admin_password@)
    &&& envfile::plain_line(plan.acme_email@)
    &&& plan.attach matches Some(a) ==> {
        &&& envfile::plain_line(a.unit@)
        &&& envfile::plain_line(a.mint_url@)
        &&& envfile::plain_line(a.advertised_grpc@)
    }
    &&& plan.mint matches Some(m) ==> {
        &&& envfile::plain_line(m.mintd_version@)
        &&& envfile::plain_line(m.mint_bind_addr@)
        &&& envfile::plain_line(m.mint_domain@)
    }
}

proof fn lemma_plain_decimal(n: nat)
    ensures
        envfile::plain_line(text::decimal(n)),
{
    text::lemma_decimal(n);
    let s = text::decimal(n);
    assert('0' <= s[s.len() - 1]);
}

proof fn lemma_plain_profiles(access: AccessMode, with_mint: bool)
    ensures
        envfile::plain_line(install::profiles_of(access, with_mint)),
{
    reveal_strlit("tls,mint");
    reveal_strlit("tls");
    reveal_strlit("mint");
    reveal_strlit("");
}

proof fn lemma_plain_base(plan: InstallPlan, now: Seq<char>, project: Seq<char>)
    requires
        plain_plan(plan),
        envfile::plain_line(now),
        envfile::plain_line(project),
    ensures
        forall|i: int|
            0 <= i < base_lines(plan, now, project).len() ==> envfile::plain_line(
                #[trigger] base_lines(plan, now, project)[i],
            ),
{
    reveal_strlit("# Generated by the Pecan installer ");
    reveal_strlit("# Every key is documented in .env.example.");
    reveal_strlit("VERSION");
    reveal_strlit("COMPOSE_PROJECT_NAME");
    reveal_strlit("UI_PORT");
    reveal_strlit("BIND_ADDR");
    reveal_strlit("COMPOSE_PROFILES");
    reveal_strlit("CONSOLE_DOMAIN");
    reveal_strlit("GRPC_BIND_ADDR");
    reveal_strlit("GRPC_PORT");
    reveal_strlit("# First boot only; inert once users.json exists. Kept as a recovery path in");
    reveal_strlit("# case the printed password is lost before the operator changes it.");
    reveal_strlit("INITIAL_ADMIN_PASSWORD");
    reveal_strlit("ACME_EMAIL");
    reveal_strlit(".");
    lemma_plain_decimal(plan.ui_port as nat);
    lemma_plain_decimal(plan.grpc_port as nat);
    lemma_plain_profiles(plan.access, plan.mint is Some);
    let head = "# Generated by the Pecan installer "@;
    let line = generated_line(now);
    assert(line.last() == '.');
    assert forall|i: int| 0 <= i < line.len() implies line[i] != '\n' by {
        if head.len() <= i < line.len() - 1 {
            assert(now.contains(now[i - head.len()]));
        }
    }
    envfile::lemma_plain_entry("VERSION"@, plan.version@);
    envfile::lemma_plain_entry("COMPOSE_PROJECT_NAME"@, project);
    envfile::lemma_plain_entry("UI_PORT"@, text::decimal(plan.ui_port as nat));
    envfile::lemma_plain_entry("BIND_ADDR"@, plan.bind_addr@);
    envfile::lemma_plain_entry("COMPOSE_PROFILES"@, install::profiles_of(plan.access, plan.mint is Some));
    envfile::lemma_plain_entry("CONSOLE_DOMAIN"@, plan.console_domain@);
    envfile::lemma_plain_entry("GRPC_BIND_ADDR"@, plan.grpc_bind_addr@);
    envfile::lemma_plain_entry("GRPC_PORT"@, text::decimal(plan.grpc_port as nat));
    envfile::lemma_plain_entry("INITIAL_ADMIN_PASSWORD"@, plan.admin_password@);
    envfile::lemma_plain_entry("ACME_EMAIL"@, plan.acme_email@);
}

proof fn lemma_plain_attach(a: AttachPlan)
    requires
        envfile::plain_line(a.unit@),
        envfile::plain_line(a.mint_url@),
        envfile::plain_line(a.advertised_grpc@),
    ensures
        forall|i: int|
            0 <= i < attach_lines(Some(a)).len() ==> envfile::plain_line(
                #[trigger] attach_lines(Some(a))[i],
            ),
{
    reveal_strlit("# First boot only; inert once setup.json exists. Later changes happen in");
    reveal_strlit("# the console's Mint tab.");
    reveal_strlit("INITIAL_UNIT");
    reveal_strlit("INITIAL_MINT_URL");
    reveal_strlit("INITIAL_ADVERTISED_GRPC");
    envfile::lemma_plain_entry("INITIAL_UNIT"@, a.unit@);
    envfile::lemma_plain_entry("INITIAL_MINT_URL"@, a.mint_url@);
    envfile::lemma_plain_entry("INITIAL_ADVERTISED_GRPC"@, a.advertised_grpc@);
}

proof fn lemma_plain_mint(m: MintPlan)
    requires
        envfile::plain_line(m.mintd_version@),
        envfile::plain_line(m.mint_bind_addr@),
        envfile::plain_line(m.mint_domain@),
    ensures
        forall|i: int|
            0 <= i < mint_lines(Some(m)).len() ==> envfile::plain_line(
                #[trigger] mint_lines(Some(m))[i],
            ),
{
    reveal_strlit("# The bundled mint. MINT_VERSION moves independently of VERSION:");
    reveal_strlit("# 'mintctl update' never touches it (the mint holds money);");
    reveal_strlit("# upgrade deliberately with 'mintctl update --mint-version <tag>'.");
    reveal_strlit("MINT_VERSION");
    reveal_strlit("MINT_PORT");
    reveal_strlit("MINT_BIND_ADDR");
    reveal_strlit("MINT_DOMAIN");
    lemma_plain_decimal(m.mint_port as nat);
    envfile::lemma_plain_entry("MINT_VERSION"@, m.mintd_version@);
    envfile::lemma_plain_entry("MINT_PORT"@, text::decimal(m.mint_port as nat));
    envfile::lemma_plain_entry("MINT_BIND_ADDR"@, m.mint_bind_addr@);
    envfile::lemma_plain_entry("MINT_DOMAIN"@, m.mint_domain@);
}

proof fn lemma_plain_env(plan: InstallPlan, now: Seq<char>, project: Seq<char>)
    requires
        plain_plan(plan),
        envfile::plain_line(now),
        envfile::plain_line(project),
    ensures
        forall|i: int|
            0 <= i < env_lines(plan, now, project).len() ==> envfile::plain_line(
                #[trigger] env_lines(plan, now, project)[i],
            ),
{
    lemma_plain_base(plan, now, project);
    if plan.attach is Some {
        lemma_plain_attach(plan.attach->0);
    }
    if plan.mint is Some {
        lemma_plain_mint(plan.mint->0);
    }
    let (a, b, c) = (
        base_lines(plan, now, project),
        attach_lines(plan.attach),
        mint_lines(plan.mint),
    );
    assert forall|i: int| 0 <= i < (a + b + c).len() implies envfile::plain_line(
        #[trigger] (a + b + c)[i],
    ) by {
        if i < a.len() {
            assert((a + b + c)[i] == a[i]);
        } else if i < a.len() + b.len() {
            assert((a + b + c)[i] == b[i - a.len()]);
        } else {
            assert((a + b + c)[i] == c[i - a.len() - b.len()]);
        }
    }
}

/// The `.env` file that is written for a plan gives back, on every key, what
/// the plan says, and nothing on any other key.
pub proof fn law_written_env_reads_back(
    plan: InstallPlan,
    now: Seq<char>,
    project: Seq<char>,
    key: Seq<char>,
)
    requires
        plain_plan(plan),
        envfile::plain_line(now),
        envfile::plain_line(project),
        plain_key(key),
    ensures
        envfile::last_value(
            text::lines_of(envfile::terminated(env_lines(plan, now, project))),
            key,
        ) == setting(plan, project, key),
{
    lemma_plain_env(plan, now, project);
    envfile::lemma_lines_of_terminated(env_lines(plan, now, project));
    law_env_lines_hold_the_plan(plan, now, project, key);
}

/// The same of the file as it is committed, after the project was named: it
/// still says what the plan says, under the project of the final directory.
pub proof fn law_committed_env_reads_back(
    plan: InstallPlan,
    now: Seq<char>,
    staged: Seq<char>,
    project: Seq<char>,
    key: Seq<char>,
)
    requires
        plain_plan(plan),
        envfile::plain_line(now),
        envfile::plain_line(staged),
        envfile::plain_line(project),
        plain_key(key),
    ensures
        envfile::last_value(
            text::lines_of(
                envfile::body_of(
                    envfile::with_entry(
                        text::lines_of(envfile::terminated(env_lines(plan, now, staged))),
                        "COMPOSE_PROJECT_NAME"@,
                        project,
                    ),
                ),
            ),
            key,
        ) == setting(plan, project, key),
{
    let name = "COMPOSE_PROJECT_NAME"@;
    let env = env_lines(plan, now, staged);
    reveal_strlit("VERSION");
    reveal_strlit("COMPOSE_PROJECT_NAME");
    reveal_strlit("UI_PORT");
    reveal_strlit("BIND_ADDR");
    reveal_strlit("COMPOSE_PROFILES");
    reveal_strlit("CONSOLE_DOMAIN");
    reveal_strlit("GRPC_BIND_ADDR");
    reveal_strlit("GRPC_PORT");
    reveal_strlit("INITIAL_ADMIN_PASSWORD");
    reveal_strlit("ACME_EMAIL");
    reveal_strlit("INITIAL_UNIT");
    reveal_strlit("INITIAL_MINT_URL");
    reveal_strlit("INITIAL_ADVERTISED_GRPC");
    reveal_strlit("MINT_VERSION");
    reveal_strlit("MINT_PORT");
    reveal_strlit("MINT_BIND_ADDR");
    reveal_strlit("MINT_DOMAIN");
    lemma_plain_env(plan, now, staged);
    envfile::lemma_lines_of_terminated(env);
    envfile::lemma_plain_entry(name, project);
    law_env_lines_hold_the_plan(plan, now, staged, key);
    if key == name {
        envfile::lemma_plain_keys_apart(name, "VERSION"@);
        envfile::law_set_save_load(env, name, project, "VERSION"@);
    } else {
        envfile::lemma_plain_keys_apart(name, key);
        envfile::law_set_save_load(env, name, project, key);
    }
}

/// What the plan's settings are, key by key.
pub proof fn law_settings(plan: InstallPlan, project: Seq<char>)
    ensures
        setting(plan, project, "VERSION"@) == Some(plan.version@),
        setting(plan, project, "COMPOSE_PROJECT_NAME"@) == Some(project),
        setting(plan, project, "UI_PORT"@) == Some(text::decimal(plan.ui_port as nat)),
        setting(plan, project, "BIND_ADDR"@) == Some(plan.bind_addr@),
        setting(plan, project, "COMPOSE_PROFILES"@) == Some(install::profiles_of(plan.access, plan.mint is Some)),
        setting(plan, project, "CONSOLE_DOMAIN"@) == Some(plan.console_domain@),
        setting(plan, project, "GRPC_BIND_ADDR"@) == Some(plan.grpc_bind_addr@),
        setting(plan, project, "GRPC_PORT"@) == Some(text::decimal(plan.grpc_port as nat)),
        setting(plan, project, "INITIAL_ADMIN_PASSWORD"@) == Some(plan.admin_password@),
        setting(plan, project, "ACME_EMAIL"@) == Some(plan.acme_email@),
        setting(plan, project, "INITIAL_UNIT"@) == (match plan.attach {
            Some(a) => Some(a.unit@),
            None => None,
        }),
        setting(plan, project, "INITIAL_MINT_URL"@) == (match plan.attach {
            Some(a) => Some(a.mint_url@),
            None => None,
        }),
        setting(plan, project, "INITIAL_ADVERTISED_GRPC"@) == (match plan.attach {
            Some(a) => Some(a.advertised_grpc@),
            None => None,
        }),
        setting(plan, project, "MINT_VERSION"@) == (match plan.mint {
            Some(m) => Some(m.mintd_version@),
            None => None,
        }),
        setting(plan, project, "MINT_PORT"@) == (match plan.mint {
            Some(m) => Some(text::decimal(m.mint_port as nat)),
            None => None,
        }),
        setting(plan, project, "MINT_BIND_ADDR"@) == (match plan.mint {
            Some(m) => Some(m.mint_bind_addr@),
            None => None,
        }),
        setting(plan, project, "MINT_DOMAIN"@) == (match plan.mint {
            Some(m) => Some(m.mint_domain@),
            None => None,
        }),
{
    reveal_strlit("VERSION");
    reveal_strlit("COMPOSE_PROJECT_NAME");
    reveal_strlit("UI_PORT");
    reveal_strlit("BIND_ADDR");
    reveal_strlit("COMPOSE_PROFILES");
    reveal_strlit("CONSOLE_DOMAIN");
    reveal_strlit("GRPC_BIND_ADDR");
    reveal_strlit("GRPC_PORT");
    reveal_strlit("INITIAL_ADMIN_PASSWORD");
    reveal_strlit("ACME_EMAIL");
    reveal_strlit("INITIAL_UNIT");
    reveal_strlit("INITIAL_MINT_URL");
    reveal_strlit("INITIAL_ADVERTISED_GRPC");
    reveal_strlit("MINT_VERSION");
    reveal_strlit("MINT_PORT");
    reveal_strlit("MINT_BIND_ADDR");
    reveal_strlit("MINT_DOMAIN");
    assert("VERSION"@.len() == 7);
    assert("COMPOSE_PROJECT_NAME"@.len() == 20);
    assert("UI_PORT"@.len() == 7);
    assert("BIND_ADDR"@.len() == 9);
    assert("COMPOSE_PROFILES"@.len() == 16);
    assert("CONSOLE_DOMAIN"@.len() == 14);
    assert("GRPC_BIND_ADDR"@.len() == 14);
    assert("GRPC_PORT"@.len() == 9);
    assert("INITIAL_ADMIN_PASSWORD"@.len() == 22);
    assert("ACME_EMAIL"@.len() == 10);
    assert("INITIAL_UNIT"@.len() == 12);
    assert("INITIAL_MINT_URL"@.len() == 16);
    assert("INITIAL_ADVERTISED_GRPC"@.len() == 23);
    assert("MINT_VERSION"@.len() == 12);
    assert("MINT_PORT"@.len() == 9);
    assert("MINT_BIND_ADDR"@.len() == 14);
    assert("MINT_DOMAIN"@.len() == 11);
    assert("VERSION"@[0] != "UI_PORT"@[0]);
    assert("BIND_ADDR"@[0] != "GRPC_PORT"@[0]);
    assert("BIND_ADDR"@[0] != "MINT_PORT"@[0]);
    assert("COMPOSE_PROFILES"@[0] != "INITIAL_MINT_URL"@[0]);
    assert("CONSOLE_DOMAIN"@[0] != "GRPC_BIND_ADDR"@[0]);
    assert("CONSOLE_DOMAIN"@[0] != "MINT_BIND_ADDR"@[0]);
    assert("GRPC_BIND_ADDR"@[0] != "MINT_BIND_ADDR"@[0]);
    assert("GRPC_PORT"@[0] != "MINT_PORT"@[0]);
    assert("INITIAL_UNIT"@[0] != "MINT_VERSION"@[0]);
}

/// The file that is written for a plan goes into its directory, only its owner
/// can read it, and what is read from it is the plan.
pub proof fn law_written_file_holds_the_plan(
    plan: InstallPlan,
    dir: &str,
    unix_seconds: i64,
    file: FileWrite,
    path: &str,
    raw: &str,
    env: EnvFile,
    project: String,
)
    requires
        call_ensures(write_env, (&plan, dir, unix_seconds), file),
        call_ensures(EnvFile::load, (path, raw), env),
        raw@ == file.contents@,
        call_ensures(compose::install_project_name, (dir,), project),
        dir@.len() > 0,
        dir@.last() != '/',
        plain_plan(plan),
    ensures
        file.path@ == dir@ + "/.env"@,
        file.mode == 384,
        envfile::last_value(env@, "VERSION"@) == Some(plan.version@),
        envfile::last_value(env@, "COMPOSE_PROJECT_NAME"@) == Some(project@),
        envfile::last_value(env@, "UI_PORT"@) == Some(text::decimal(plan.ui_port as nat)),
        envfile::last_value(env@, "BIND_ADDR"@) == Some(plan.bind_addr@),
        envfile::last_value(env@, "CONSOLE_DOMAIN"@) == Some(plan.console_domain@),
        envfile::last_value(env@, "GRPC_BIND_ADDR"@) == Some(plan.grpc_bind_addr@),
        envfile::last_value(env@, "GRPC_PORT"@) == Some(text::decimal(plan.grpc_port as nat)),
        envfile::last_value(env@, "INITIAL_ADMIN_PASSWORD"@) == Some(plan.admin_password@),
        envfile::last_value(env@, "ACME_EMAIL"@) == Some(plan.acme_email@),
        envfile::last_value(env@, "INITIAL_UNIT"@) is Some <==> plan.attach is Some,
        plan.attach matches Some(a) ==> envfile::last_value(env@, "INITIAL_UNIT"@) == Some(a.unit@),
        plan.attach matches Some(a) ==> envfile::last_value(env@, "INITIAL_MINT_URL"@) == Some(
            a.mint_url@,
        ),
        plan.attach matches Some(a) ==> envfile::last_value(env@, "INITIAL_ADVERTISED_GRPC"@)
            == Some(a.advertised_grpc@),
        envfile::last_value(env@, "MINT_VERSION"@) is Some <==> plan.mint is Some,
        plan.mint matches Some(m) ==> envfile::last_value(env@, "MINT_VERSION"@) == Some(
            m.mintd_version@,
        ),
        plan.mint matches Some(m) ==> envfile::last_value(env@, "MINT_PORT"@) == Some(
            text::decimal(m.mint_port as nat),
        ),
        plan.mint matches Some(m) ==> envfile::last_value(env@, "MINT_BIND_ADDR"@) == Some(
            m.mint_bind_addr@,
        ),
        plan.mint matches Some(m) ==> envfile::last_value(env@, "MINT_DOMAIN"@) == Some(
            m.mint_domain@,
        ),
        install::names_profile(
            envfile::last_value(env@, "COMPOSE_PROFILES"@)->0,
            "tls"@,
        ) <==> plan.access == install::AccessMode::DomainTls,
        install::names_profile(
            envfile::last_value(env@, "COMPOSE_PROFILES"@)->0,
            "mint"@,
        ) <==> plan.mint is Some,
{
    let now = stamp(unix_seconds);
    law_settings(plan, project@);
    install::law_profiles_tell_the_shape(plan.access, plan.mint is Some);
    reveal_strlit(".env");
    reveal_strlit("/.env");
    assert(file.path@ =~= dir@ + "/.env"@);
    reveal_strlit("VERSION");
    law_written_env_reads_back(plan, now, project@, "VERSION"@);
    reveal_strlit("COMPOSE_PROJECT_NAME");
    law_written_env_reads_back(plan, now, project@, "COMPOSE_PROJECT_NAME"@);
    reveal_strlit("UI_PORT");
    law_written_env_reads_back(plan, now, project@, "UI_PORT"@);
    reveal_strlit("BIND_ADDR");
    law_written_env_reads_back(plan, now, project@, "BIND_ADDR"@);
    reveal_strlit("CONSOLE_DOMAIN");
    law_written_env_reads_back(plan, now, project@, "CONSOLE_DOMAIN"@);
    reveal_strlit("GRPC_BIND_ADDR");
    law_written_env_reads_back(plan, now, project@, "GRPC_BIND_ADDR"@);
    reveal_strlit("GRPC_PORT");
    law_written_env_reads_back(plan, now, project@, "GRPC_PORT"@);
    reveal_strlit("INITIAL_ADMIN_PASSWORD");
    law_written_env_reads_back(plan, now, project@, "INITIAL_ADMIN_PASSWORD"@);
    reveal_strlit("ACME_EMAIL");
    law_written_env_reads_back(plan, now, project@, "ACME_EMAIL"@);
    reveal_strlit("INITIAL_UNIT");
    law_written_env_reads_back(plan, now, project@, "INITIAL_UNIT"@);
    reveal_strlit("INITIAL_MINT_URL");
    law_written_env_reads_back(plan, now, project@, "INITIAL_MINT_URL"@);
    reveal_strlit("INITIAL_ADVERTISED_GRPC");
    law_written_env_reads_back(plan, now, project@, "INITIAL_ADVERTISED_GRPC"@);
    reveal_strlit("MINT_VERSION");
    law_written_env_reads_back(plan, now, project@, "MINT_VERSION"@);
    reveal_strlit("MINT_PORT");
    law_written_env_reads_back(plan, now, project@, "MINT_PORT"@);
    reveal_strlit("MINT_BIND_ADDR");
    law_written_env_reads_back(plan, now, project@, "MINT_BIND_ADDR"@);
    reveal_strlit("MINT_DOMAIN");
    law_written_env_reads_back(plan, now, project@, "MINT_DOMAIN"@);
    reveal_strlit("COMPOSE_PROFILES");
    law_written_env_reads_back(plan, now, project@, "COMPOSE_PROFILES"@);
}

/// A staged file keeps what it says, and names the project of the directory
/// that it is for.
pub proof fn law_project_is_named_for_its_directory(
    staged: EnvFile,
    dir: &str,
    mode: Option<u32>,
    r: (String, u32),
    project: String,
)
    requires
        call_ensures(name_project, (staged, dir, mode), r),
        call_ensures(compose::install_project_name, (dir,), project),
    ensures
        exists|lines: Seq<Seq<char>>|
            {
                &&& r.0@ == #[trigger] envfile::body_of(lines)
                &&& envfile::last_value(lines, "COMPOSE_PROJECT_NAME"@) == Some(project@)
                &&& forall|key: Seq<char>|
                    envfile::apart("COMPOSE_PROJECT_NAME"@, key) ==> #[trigger] envfile::last_value(
                        lines,
                        key,
                    ) == envfile::last_value(staged@, key)
            },
        mode is None ==> r.1 == 384,
{
    let lines = envfile::with_entry(staged@, "COMPOSE_PROJECT_NAME"@, project@);
    assert(r.0@ == envfile::body_of(lines));
    envfile::law_get_after_set(staged@, "COMPOSE_PROJECT_NAME"@, project@);
    assert forall|key: Seq<char>| envfile::apart("COMPOSE_PROJECT_NAME"@, key) implies
        #[trigger] envfile::last_value(lines, key) == envfile::last_value(staged@, key) by {
        envfile::law_set_keeps_other_keys(staged@, "COMPOSE_PROJECT_NAME"@, project@, key);
    }
}

} // verus!
