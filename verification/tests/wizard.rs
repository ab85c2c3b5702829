use mintctl::args::{DomainArgs, InstallArgs};
use mintctl::dns::{
    all_confirmed, any_mismatch, checked, choose_next, cloudflare_warning, confirm_dns,
    confirmed_line, domains_to_confirm, records_note, records_title, status_line, unconfirmed_hint, DnsCheck,
    DnsChoice, DnsStep,
};
use mintctl::domain::{
    apply_domain, current_access, domain_command, domain_from_answers, domain_from_flags,
    domain_questions, domain_snippets, mint_domain_preset, mint_site, preferred_access,
    snippet_plan, DomainChange, DomainQuestion, DomainQuestions, DomainRun, DomainStep,
};
use mintctl::envfile::EnvFile;
use mintctl::install::AccessMode;
use mintctl::ops::has_profile;
use mintctl::questions::{run, Answer, PortName, Wizard, WizardEnd, WizardStep};
use mintctl::wizard::{
    access_question, address_line, alternative_port, check_console_domain, check_directory,
    check_email, check_mint_domain, check_port, check_unit, check_url, collect_console_domain,
    collect_mint_domain, ensure_docker_interactive, existing_warning, grpc_bind, grpc_exposed,
    plan_from_answers, port_taken, reserved_unit_warning, Answers, MintAnswers,
};

fn unset() -> InstallArgs {
    InstallArgs {
        yes: false,
        console_domain: None,
        email: None,
        dir: None,
        version: None,
        ui_port: 9090,
        bind: None,
        plain_http: false,
        behind_proxy: false,
        grpc_bind: None,
        grpc_port: 50051,
        with_mint: false,
        unit: None,
        mint_domain: None,
        mint_url: None,
        advertised_grpc: None,
        mint_port: None,
        mint_version: None,
        install_docker: false,
        artifact_ref: None,
        artifacts_dir: None,
        no_pull: false,
    }
}

#[test]
fn answers_are_checked() {
    assert_eq!(check_directory(" x "), Ok(()));
    assert_eq!(check_directory(" \t"), Err("enter a directory path"));
    assert_eq!(check_port(" 1024 "), Ok(1024));
    assert_eq!(check_port("1023"), Err("enter a port number (1024-65535)"));
    assert!(check_port("65536").is_err() && check_port("x").is_err());
    assert_eq!(check_unit("ORA"), Ok(()));
    assert!(check_unit("a b").is_err());
    assert_eq!(check_console_domain(true), Ok(()));
    assert!(check_console_domain(false).is_err());
    assert_eq!(check_mint_domain(" m.org ", true, "c.org"), Ok(()));
    assert_eq!(
        check_mint_domain(" c.org ", true, "c.org"),
        Err("the mint needs its own hostname, different from the console's")
    );
    assert!(check_mint_domain("M", false, "c.org").unwrap_err().contains("mint.example.org"));
    assert_eq!(check_email(""), Ok(()));
    assert_eq!(check_email(" a@b "), Ok(()));
    assert_eq!(check_email("a b@c"), Err("enter an email address or leave empty"));
    assert!(check_email("ab").is_err());
    assert_eq!(check_url(" https://x"), Ok(()));
    assert!(check_url("x").is_err());
    assert!(collect_console_domain("c.org") && !collect_console_domain(""));
    assert!(collect_mint_domain("m.org", "c.org"));
    assert!(!collect_mint_domain("c.org", "c.org") && !collect_mint_domain("", "c.org"));
}

#[test]
fn alternatives_are_offered() {
    assert_eq!(alternative_port(9090), 19090);
    assert_eq!(alternative_port(60000), 65535);
    assert_eq!(alternative_port(55535), 65535);
    for port in [0, 80, 9090, 55535, 55536, 65535] {
        let offered = alternative_port(port);
        assert_eq!(check_port(&offered.to_string()), Ok(offered));
    }
    assert!(reserved_unit_warning("sat").expect("warned").starts_with("\"sat\" is a unit"));
    assert_eq!(reserved_unit_warning("ora"), None);
    assert!(ensure_docker_interactive(false, true, true));
    assert!(!ensure_docker_interactive(true, true, true));
    assert!(!ensure_docker_interactive(false, false, true));
    assert!(!ensure_docker_interactive(false, true, false));
    assert_eq!(existing_warning("/d"), "An installation already exists in /d");
    assert_eq!(port_taken(80, "console"), "Port 80 (for the console) is already in use.");
    assert!(grpc_exposed(50051).starts_with("The payment gRPC (port 50051) carries"));
    assert_eq!(address_line(Some("1.2.3.4"), Some("::1")), "Public IP: 1.2.3.4  (IPv6: ::1)");
    assert_eq!(address_line(Some("1.2.3.4"), None), "Public IP: 1.2.3.4");
    assert_eq!(address_line(None, Some("::1")), "Public IP: ::1 (IPv6 only)");
    assert!(address_line(None, None).contains("could not detect"));
}

#[test]
fn the_grpc_is_bound_by_where_the_mint_runs() {
    assert_eq!(grpc_bind(true, &Some("9.9.9.9".to_string()), true), "127.0.0.1");
    assert_eq!(grpc_bind(false, &Some("9.9.9.9".to_string()), true), "9.9.9.9");
    assert_eq!(grpc_bind(false, &Some(String::new()), true), "0.0.0.0");
    assert_eq!(grpc_bind(false, &None, false), "127.0.0.1");
    let q = access_question(true, true);
    assert!(q.info.is_some() && q.question.contains("wallets"));
    assert_eq!(q.preferred, AccessMode::BehindProxy);
    let q = access_question(false, false);
    assert!(q.info.is_none() && q.tls_label.contains("recommended"));
    assert_eq!(q.preferred, AccessMode::DomainTls);
}

fn given(access: AccessMode, public_ip: Option<&str>, entered: Option<&str>) -> Answers {
    Answers {
        install_dir: "/d".to_string(),
        version: "v1".to_string(),
        access,
        console_domain: "c.org".to_string(),
        acme_email: "a@b".to_string(),
        ui_port: 1,
        grpc_bind_addr: "127.0.0.1".to_string(),
        grpc_port: 2,
        public_ip: public_ip.map(|s| s.to_string()),
        admin_password: "pw".to_string(),
        mint: Some(MintAnswers {
            unit: "ora".to_string(),
            mint_domain: "m.org".to_string(),
            mint_port: 3,
            entered_url: entered.map(|s| s.to_string()),
        }),
    }
}

#[test]
fn answers_make_a_plan() {
    let p = plan_from_answers(&unset(), &given(AccessMode::DomainTls, None, None));
    assert_eq!(p.console_url(), "https://c.org");
    assert_eq!(p.mint.as_ref().expect("bundled").mint_url, "https://m.org");
    assert_eq!(p.attach.as_ref().expect("attached").unit, "ora");
    assert_eq!(p.bind_addr, "127.0.0.1");
    let p = plan_from_answers(&unset(), &given(AccessMode::PlainHttp, Some("1.2.3.4"), None));
    assert_eq!(p.console_domain, "");
    assert_eq!(p.mint.as_ref().expect("bundled").mint_url, "http://1.2.3.4:3");
    assert_eq!(p.mint.as_ref().expect("bundled").mint_domain, "");
    let p = plan_from_answers(&unset(), &given(AccessMode::PlainHttp, None, Some(" http://x:3// ")));
    assert_eq!(p.mint.expect("bundled").mint_url, "http://x:3");
    let mut answers = given(AccessMode::PlainHttp, None, None);
    answers.mint = None;
    let p = plan_from_answers(&unset(), &answers);
    assert!(p.mint.is_none() && p.attach.is_none());
}

fn ask(args: &InstallArgs, answers: &[Answer]) -> Wizard {
    let mut w = run(args);
    for answer in answers {
        w = w.next(*answer);
    }
    w
}

const YES: Answer = Answer::Yes;
const NO: Answer = Answer::No;

/// Platform, version, no docker offer, docker, directory, free, address, mint,
/// three free ports, the unit, its check, web ports free.
const TO_ACCESS: [Answer; 14] = [
    YES, YES, NO, YES, YES, NO, YES, YES, NO, NO, NO, YES, YES, NO,
];

#[test]
fn the_wizard_asks_its_questions() {
    let mut answers = TO_ACCESS.to_vec();
    assert_eq!(ask(&unset(), &answers).step, WizardStep::AskAccess);
    answers.push(Answer::Access(AccessMode::DomainTls));
    assert_eq!(ask(&unset(), &answers).step, WizardStep::AskConsoleDomain);
    answers.extend([YES, NO, YES]);
    assert_eq!(ask(&unset(), &answers).step, WizardStep::AskEmail);
    answers.extend([YES, YES]);
    assert_eq!(ask(&unset(), &answers).step, WizardStep::ConfirmInstall);
    answers.extend([YES, YES]);
    assert_eq!(ask(&unset(), &answers).step, WizardStep::End(WizardEnd::Installed));
}

#[test]
fn every_prompt_can_be_cancelled() {
    let mut answers = TO_ACCESS.to_vec();
    answers.extend([Answer::Access(AccessMode::DomainTls), YES, NO, YES, YES, YES]);
    let mut prompts = 0;
    for n in 0..answers.len() {
        let w = ask(&unset(), &answers[..n]);
        if w.prompts() {
            prompts += 1;
            assert_eq!(w.next(Answer::Cancel).step, WizardStep::End(WizardEnd::Cancelled));
        } else {
            assert_eq!(w.next(Answer::Cancel).step, WizardStep::End(WizardEnd::Failed));
        }
        assert_eq!(w.next(Answer::Fail).step, WizardStep::End(WizardEnd::Failed));
    }
    assert_eq!(prompts, 7);
}

#[test]
fn flags_answer_questions() {
    let mut args = unset();
    args.version = Some("v1".to_string());
    args.with_mint = true;
    args.unit = Some("ora".to_string());
    args.plain_http = true;
    let mut answers = vec![YES, NO, YES, YES, NO, NO];
    assert_eq!(ask(&args, &answers).step, WizardStep::PortBusy { port: PortName::Console });
    answers.extend([YES, YES, NO, NO, YES, NO]);
    // No public address: wallets need one.
    assert_eq!(ask(&args, &answers).step, WizardStep::AskMintUrl);
    args.mint_url = Some("http://x".to_string());
    assert_eq!(ask(&args, &answers).step, WizardStep::ConfirmInstall);
    answers.push(NO);
    assert_eq!(ask(&args, &answers).step, WizardStep::End(WizardEnd::Cancelled));
}

#[test]
fn an_existing_installation_is_kept_or_left_alone() {
    let to_taken = vec![YES, YES, NO, YES, YES, YES];
    assert_eq!(ask(&unset(), &to_taken).step, WizardStep::AskElsewhere);
    let mut kept = to_taken.clone();
    kept.push(NO);
    assert_eq!(ask(&unset(), &kept).step, WizardStep::End(WizardEnd::Kept));
    let mut elsewhere = to_taken;
    elsewhere.extend([YES, YES]);
    assert_eq!(ask(&unset(), &elsewhere).step, WizardStep::ResolveDir);
}

#[test]
fn taken_web_ports_lead_behind_a_proxy() {
    let mut args = unset();
    args.console_domain = Some("c.org".to_string());
    let mut answers = vec![YES, YES, NO, YES, YES, NO, YES, NO, NO, NO, YES];
    let w = ask(&args, &answers);
    assert_eq!(w.step, WizardStep::WebPortsBusy);
    assert!(w.other_machine);
    answers.extend([YES, Answer::Access(AccessMode::DomainTls)]);
    assert_eq!(ask(&args, &answers).step, WizardStep::AskDespiteBusy);
    answers.push(NO);
    let w = ask(&args, &answers);
    assert_eq!(w.step, WizardStep::ConfirmInstall);
    assert_eq!(w.access, AccessMode::BehindProxy);
}

#[test]
fn dns_can_be_given_up_for_plain_http() {
    let mut args = unset();
    args.console_domain = Some("c.org".to_string());
    args.email = Some("a@b".to_string());
    let mut answers = vec![YES, YES, NO, YES, YES, NO, YES, NO, NO, NO, NO, NO];
    assert_eq!(ask(&args, &answers).step, WizardStep::ConfirmDns);
    let mut aborted = answers.clone();
    aborted.push(NO);
    assert_eq!(ask(&args, &aborted).step, WizardStep::End(WizardEnd::Cancelled));
    answers.push(Answer::Access(AccessMode::PlainHttp));
    let w = ask(&args, &answers);
    assert_eq!(w.access, AccessMode::PlainHttp);
    assert_eq!(w.step, WizardStep::ConfirmInstall);
}

fn look(domain: &str, resolved: &[&str], matches: bool) -> Option<DnsCheck> {
    Some(DnsCheck {
        domain: domain.to_string(),
        resolved: resolved.iter().map(|s| s.to_string()).collect(),
        matches,
        behind_cloudflare: false,
    })
}

#[test]
fn records_are_shown_as_a_table() {
    let domains = vec!["c.org".to_string(), "mint.org".to_string()];
    assert_eq!(
        records_note(&domains, Some("1.2.3.4"), None),
        "A     c.org     →  1.2.3.4\nA     mint.org  →  1.2.3.4\n\nPorts 80 and 443 must be reachable from the internet."
    );
    assert_eq!(
        records_note(&vec!["é.org".to_string()], None, Some("::1")),
        "A     é.org   →  <this server's IP>\n\nAAAA  é.org   →  ::1   (optional)\n\nThe A records are required. AAAA is optional — add it only if IPv6\nto this server actually works; a wrong AAAA breaks certificates.\n\nPorts 80 and 443 must be reachable from the internet."
    );
    assert_eq!(
        records_title(2),
        "Create with your DNS provider — records pointing at this server"
    );
    assert_eq!(
        records_title(1),
        "Create with your DNS provider — record pointing at this server"
    );
}

#[test]
fn padding_counts_like_the_formatter() {
    for domains in [vec!["a", "bbb"], vec!["é.org", "x"], vec!["ab", "é"]] {
        let width = domains.iter().map(|d| d.len()).max().unwrap_or(0);
        let mut expected: Vec<String> = domains
            .iter()
            .map(|domain| format!("A     {domain:<width$}  →  ip"))
            .collect();
        expected.push(String::new());
        expected.push("Ports 80 and 443 must be reachable from the internet.".to_string());
        let owned: Vec<String> = domains.iter().map(|d| d.to_string()).collect();
        assert_eq!(records_note(&owned, Some("ip"), None), expected.join("\n"));
    }
}

#[test]
fn lookups_are_judged() {
    let good = look("c.org", &["1.2.3.4"], true);
    let wrong = look("m.org", &["5.6.7.8", "9.9.9.9"], false);
    let none = look("m.org", &[], false);
    assert_eq!(
        status_line(good.as_ref().expect("looked up"), Some("1.2.3.4")),
        "c.org  —  ok"
    );
    assert_eq!(
        status_line(wrong.as_ref().expect("looked up"), Some("1.2.3.4")),
        "m.org  —  resolves to 5.6.7.8, 9.9.9.9 — not the detected address (1.2.3.4)"
    );
    assert!(status_line(wrong.as_ref().expect("looked up"), None).ends_with("(unknown)"));
    assert_eq!(
        status_line(none.as_ref().expect("looked up"), None),
        "m.org  —  no record found"
    );
    let checks = vec![good, wrong];
    assert!(!all_confirmed(&checks) && any_mismatch(&checks));
    assert_eq!(checked(&checks), DnsStep::Ask);
    let checks = vec![look("c.org", &[], true), None];
    assert!(!all_confirmed(&checks) && !any_mismatch(&checks));
    assert!(!any_mismatch(&vec![none]));
    assert_eq!(checked(&vec![look("c.org", &[], true)]), DnsStep::Settled(AccessMode::DomainTls));
    assert!(all_confirmed(&Vec::new()));
    assert!(unconfirmed_hint(true).contains("Continue anyway"));
    assert!(unconfirmed_hint(false).contains("propagate"));
    assert!(cloudflare_warning("c.org").starts_with("c.org appears to be behind"));
    assert_eq!(confirmed_line(1), "DNS looks right — the record points at this server.");
    assert_eq!(confirmed_line(2), "DNS looks right — the records point at this server.");
}

#[test]
fn the_operator_decides_about_dns() {
    assert_eq!(confirm_dns(), DnsStep::Check);
    assert_eq!(choose_next(DnsChoice::CheckAgain), DnsStep::Check);
    assert_eq!(choose_next(DnsChoice::ContinueAnyway), DnsStep::Settled(AccessMode::DomainTls));
    assert_eq!(choose_next(DnsChoice::PlainHttp), DnsStep::Settled(AccessMode::PlainHttp));
    assert_eq!(choose_next(DnsChoice::Abort), DnsStep::Aborted);
}

fn domain_flags() -> DomainArgs {
    DomainArgs {
        console_domain: None,
        mint_domain: None,
        email: None,
        plain_http: false,
        behind_proxy: false,
        yes: true,
    }
}

fn running(bundled: bool) -> EnvFile {
    EnvFile::load(
        "/d/.env",
        if bundled {
            "VERSION=v1\nCOMPOSE_PROFILES=tls,mint\nCONSOLE_DOMAIN=old.org\nACME_EMAIL=a@b\nMINT_DOMAIN=m.org\nMINT_PORT=4444\nUI_PORT=80\n# kept\n"
        } else {
            "VERSION=v1\nCOMPOSE_PROFILES=\nUI_PORT=x\n"
        },
    )
}

fn questioned(args: &DomainArgs, bundled: bool, answers: &[Answer]) -> DomainQuestions {
    let mut q = domain_questions(args, &running(bundled));
    for answer in answers {
        q = q.next(*answer);
    }
    q
}

#[test]
fn domain_questions_follow_the_access_mode() {
    let tls = Answer::Access(AccessMode::DomainTls);
    let proxy = Answer::Access(AccessMode::BehindProxy);
    let plain = Answer::Access(AccessMode::PlainHttp);
    let none = domain_flags();
    let mut given = domain_flags();
    given.console_domain = Some("c.org".to_string());
    assert_eq!(questioned(&none, true, &[]).step, DomainQuestion::AskAccess);
    // plain HTTP asks for no hostname
    assert_eq!(questioned(&none, true, &[plain]).step, DomainQuestion::Settled);
    // a proxy needs the hostnames, and no records
    assert_eq!(questioned(&none, false, &[proxy]).step, DomainQuestion::AskConsoleDomain);
    assert_eq!(questioned(&none, false, &[proxy, Answer::Yes]).step, DomainQuestion::Settled);
    assert_eq!(questioned(&none, true, &[proxy, Answer::Yes]).step, DomainQuestion::MintPreset);
    let asked = [proxy, Answer::Yes, Answer::No];
    assert_eq!(questioned(&none, true, &asked).step, DomainQuestion::AskMintDomain);
    let asked = [proxy, Answer::Yes, Answer::No, Answer::Yes];
    assert_eq!(questioned(&none, true, &asked).step, DomainQuestion::Settled);
    // a hostname from the flags is not asked for
    assert_eq!(questioned(&given, false, &[tls]).step, DomainQuestion::ConfirmDns);
    assert_eq!(questioned(&given, true, &[tls]).step, DomainQuestion::MintPreset);
    assert_eq!(questioned(&given, true, &[tls, Answer::Yes]).step, DomainQuestion::ConfirmDns);
    // the records settle TLS, or the operator gives it up
    let q = questioned(&given, true, &[tls, Answer::Yes, tls]);
    assert_eq!((q.step, q.settled), (DomainQuestion::Settled, AccessMode::DomainTls));
    let q = questioned(&given, true, &[tls, Answer::Yes, plain]);
    assert_eq!((q.step, q.chosen), (DomainQuestion::Settled, AccessMode::DomainTls));
    assert_eq!(q.settled, AccessMode::PlainHttp);
    // every prompt can be cancelled
    assert_eq!(questioned(&none, true, &[Answer::Cancel]).step, DomainQuestion::Unsettled);
    assert_eq!(questioned(&none, true, &[tls, Answer::Cancel]).step, DomainQuestion::Unsettled);
    assert_eq!(questioned(&given, false, &[tls, Answer::Cancel]).step, DomainQuestion::Unsettled);
    assert_eq!(questioned(&none, true, &[plain, Answer::Cancel]).step, DomainQuestion::Settled);
}

#[test]
fn records_are_confirmed_for_each_hostname() {
    assert_eq!(domains_to_confirm("c.org", "m.org", false), vec!["c.org".to_string()]);
    assert_eq!(
        domains_to_confirm("c.org", "m.org", true),
        vec!["c.org".to_string(), "m.org".to_string()]
    );
}

fn refused(args: &DomainArgs, bundled: bool, console_ok: bool, mint_ok: bool) -> String {
    domain_from_flags(args, &running(bundled), console_ok, mint_ok).err().expect("refused")
}

#[test]
fn domain_flags_are_refused_in_their_order() {
    let mut args = domain_flags();
    assert!(refused(&args, false, true, true).starts_with("pass --console-domain <d>"));
    args.behind_proxy = true;
    assert_eq!(refused(&args, false, true, true), "--behind-proxy needs --console-domain");
    args.console_domain = Some("X".to_string());
    assert_eq!(
        refused(&args, true, false, true),
        "--console-domain X is not a valid hostname"
    );
    args.mint_domain = Some(String::new());
    assert!(refused(&args, true, true, true).starts_with("this install bundles a mint"));
    args.mint_domain = Some("M".to_string());
    assert_eq!(refused(&args, true, true, false), "--mint-domain M is not a valid hostname");
}

#[test]
fn a_change_keeps_the_mint_and_other_settings() {
    let mut args = domain_flags();
    args.console_domain = Some("new.org".to_string());
    let mut env = running(true);
    let change = domain_from_flags(&args, &env, true, true).ok().expect("changed");
    assert_eq!(change.access, AccessMode::DomainTls);
    assert_eq!(change.mint_domain, "m.org");
    assert_eq!(change.acme_email, "a@b");
    assert!(mint_site(&change, true) && !mint_site(&change, false));
    apply_domain(&mut env, &change);
    assert!(has_profile(&env, "mint") && has_profile(&env, "tls"));
    assert_eq!(
        env.save(None).0,
        "VERSION=v1\nMINT_PORT=4444\nUI_PORT=80\n# kept\nCOMPOSE_PROFILES=tls,mint\nBIND_ADDR=127.0.0.1\nCONSOLE_DOMAIN=new.org\nACME_EMAIL=a@b\nMINT_DOMAIN=m.org\nMINT_BIND_ADDR=127.0.0.1\n"
    );
    args = domain_flags();
    args.plain_http = true;
    let mut env = running(true);
    let change = domain_from_flags(&args, &env, false, false).ok().expect("changed");
    apply_domain(&mut env, &change);
    assert!(has_profile(&env, "mint") && !has_profile(&env, "tls"));
    assert_eq!(env.get("BIND_ADDR").as_deref(), Some("0.0.0.0"));
    assert_eq!(env.get("MINT_BIND_ADDR").as_deref(), Some("0.0.0.0"));
    assert_eq!(env.get("CONSOLE_DOMAIN").as_deref(), Some(""));
    let mut env = running(false);
    apply_domain(&mut env, &change);
    assert_eq!(env.get("MINT_DOMAIN"), None);
}

#[test]
fn answers_change_the_domain() {
    let mut args = domain_flags();
    args.email = Some("new@b".to_string());
    let env = running(true);
    let tls = AccessMode::DomainTls;
    let change = domain_from_answers(&args, &env, tls, tls, "c.org", "mm.org");
    assert_eq!((change.acme_email.as_str(), change.mint_domain.as_str()), ("new@b", "mm.org"));
    let proxy = AccessMode::BehindProxy;
    let change = domain_from_answers(&args, &env, proxy, proxy, "c.org", "mm.org");
    assert_eq!(change.acme_email, "a@b");
    let plain = AccessMode::PlainHttp;
    let change = domain_from_answers(&args, &env, plain, plain, "c.org", "mm.org");
    assert_eq!((change.console_domain.as_str(), change.mint_domain.as_str()), ("", ""));
    let change = domain_from_answers(&args, &env, tls, plain, "c.org", "mm.org");
    assert_eq!(change.access, plain);
    assert_eq!(change.console_domain, "c.org");
    assert_eq!(mint_domain_preset(&args, &env), "m.org");
    assert_eq!(current_access(&env), "Currently: https://old.org");
    assert_eq!(current_access(&running(false)), "Currently: plain HTTP (no domain).");
    assert_eq!(preferred_access(&env, true), tls);
    assert_eq!(preferred_access(&running(false), true), proxy);
    assert_eq!(preferred_access(&running(false), false), tls);
}

#[test]
fn snippets_follow_the_env() {
    let change = DomainChange {
        access: AccessMode::BehindProxy,
        console_domain: "c.org".to_string(),
        mint_domain: "m.org".to_string(),
        acme_email: String::new(),
    };
    let p = domain_snippets(&running(true), "/d", &change);
    assert_eq!(p.ui_port, 80);
    assert_eq!(p.access, AccessMode::BehindProxy);
    let m = p.mint.expect("bundled");
    assert_eq!((m.mint_url.as_str(), m.mint_port), ("https://m.org", 4444));
    let p = domain_snippets(&running(false), "/d", &change);
    assert_eq!(p.ui_port, 9090);
    assert!(p.mint.is_none());
    assert_eq!(snippet_plan("/d", "c.org", 1, Some(("m.org", 2))).grpc_port, 50051);
}

fn change_run(interactive: bool, access: AccessMode, answers: &[bool]) -> DomainRun {
    let mut r = domain_command(interactive).settled(access);
    for yes in answers {
        r = r.next(*yes);
    }
    r
}

#[test]
fn a_change_goes_through_its_steps() {
    let tls = AccessMode::DomainTls;
    let all = [true; 10];
    assert_eq!(change_run(true, tls, &all[..2]).step, DomainStep::Settle);
    assert_eq!(change_run(true, tls, &[true, true, false]).step, DomainStep::Unchanged);
    assert_eq!(change_run(true, tls, &all[..6]).step, DomainStep::BringUp);
    assert_eq!(change_run(true, AccessMode::BehindProxy, &all[..6]).step, DomainStep::WriteSnippets);
    assert_eq!(change_run(true, tls, &all[..8]).step, DomainStep::AwaitCertificate);
    assert_eq!(change_run(false, tls, &all[..8]).step, DomainStep::Done);
    assert_eq!(change_run(true, tls, &[true, true, true, true, false]).step, DomainStep::Failed);
    assert_eq!(change_run(true, tls, &[true, true, true, false]).step, DomainStep::Unchanged);
}
