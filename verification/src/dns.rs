//! The DNS records that certificates need: what to create, and what a look at
//! them shows.
//!
//! AAAA records are advisory: optional to create, but warned about when one
//! exists and points away from this server, because Let's Encrypt prefers IPv6
//! the moment an AAAA exists.

use crate::install::AccessMode;
use crate::text;
use vstd::prelude::*;

verus! {

// ---------------------------------------------------------------------------
// what to create
// ---------------------------------------------------------------------------
/// How many bytes a text takes.
pub open spec fn byte_length(s: Seq<char>) -> nat {
    vstd::utf8::encode_utf8(s).len()
}

/// The number of bytes of the longest text.
pub open spec fn widest(list: Seq<Seq<char>>) -> nat
    decreases list.len(),
{
    if list.len() == 0 {
        0
    } else {
        let rest = widest(list.drop_last());
        let last = byte_length(list.last());
        if last > rest {
            last
        } else {
            rest
        }
    }
}

/// A text with blanks behind it, so that it has at least this many characters.
pub open spec fn padded(s: Seq<char>, width: nat) -> Seq<char> {
    if s.len() < width {
        s + Seq::new((width - s.len()) as nat, |i: int| ' ')
    } else {
        s
    }
}

fn width_of(domains: &Vec<String>) -> (r: usize)
    ensures
        r == widest(text::texts(domains@)),
{
    let ghost all = text::texts(domains@);
    let mut width: usize = 0;
    let mut i: usize = 0;
    assert(all.take(0) =~= Seq::<Seq<char>>::empty());
    while i < domains.len()
        invariant
            i <= domains@.len(),
            all == text::texts(domains@),
            width == widest(all.take(i as int)),
        decreases domains@.len() - i,
    {
        assert(all.take(i + 1).drop_last() =~= all.take(i as int));
        assert(all.take(i + 1).last() == domains@[i as int]@);
        let n: usize = domains[i].as_str().as_bytes().len();
        if n > width {
            width = n;
        }
        i += 1;
    }
    assert(all.take(i as int) =~= all);
    width
}

fn pad(s: &str, width: usize) -> (r: String)
    ensures
        r@ == padded(s@, width as nat),
{
    let count: usize = text::to_chars(s).len();
    let mut r = s.to_owned();
    let mut i: usize = count;
    while i < width
        invariant
            count <= i,
            count == s@.len(),
            i <= width || i == count,
            r@ == s@ + Seq::new((i - count) as nat, |k: int| ' '),
        decreases width - i,
    {
        r.push(' ');
        i += 1;
        assert(r@ =~= s@ + Seq::new((i - count) as nat, |k: int| ' '));
    }
    assert(r@ =~= padded(s@, width as nat));
    r
}

/// One record to create.
pub open spec fn record_line(
    kind: Seq<char>,
    domain: Seq<char>,
    width: nat,
    address: Seq<char>,
    tail: Seq<char>,
) -> Seq<char> {
    kind + padded(domain, width) + "  →  "@ + address + tail
}

/// One record for each domain.
pub open spec fn record_lines(
    kind: Seq<char>,
    domains: Seq<Seq<char>>,
    width: nat,
    address: Seq<char>,
    tail: Seq<char>,
) -> Seq<Seq<char>> {
    domains.map_values(|domain: Seq<char>| record_line(kind, domain, width, address, tail))
}

fn render_records(kind: &str, domains: &Vec<String>, width: usize, address: &str, tail: &str) -> (r:
    Vec<String>)
    ensures
        text::texts(r@) == record_lines(
            kind@,
            text::texts(domains@),
            width as nat,
            address@,
            tail@,
        ),
{
    let ghost all = text::texts(domains@);
    let ghost lines = record_lines(kind@, all, width as nat, address@, tail@);
    let mut r: Vec<String> = Vec::new();
    let mut i: usize = 0;
    while i < domains.len()
        invariant
            i <= domains@.len(),
            all == text::texts(domains@),
            lines == record_lines(kind@, all, width as nat, address@, tail@),
            text::texts(r@) == lines.take(i as int),
        decreases domains@.len() - i,
    {
        let domain = pad(domains[i].as_str(), width);
        let line = kind.to_owned()
            .concat(domain.as_str())
            .concat("  →  ")
            .concat(address)
            .concat(tail);
        proof {
            text::lemma_texts_push(r@, line);
            assert(lines.take(i + 1) =~= lines.take(i as int).push(lines[i as int]));
            assert(all[i as int] == domains@[i as int]@);
        }
        r.push(line);
        i += 1;
    }
    assert(lines.take(i as int) =~= lines);
    r
}

pub const AAAA_ADVICE: &'static str = "The A records are required. AAAA is optional — add it only if IPv6\nto this server actually works; a wrong AAAA breaks certificates.";

pub const REACHABLE_PORTS: &'static str = "Ports 80 and 443 must be reachable from the internet.";

/// The records to create, as lines of a note.
pub open spec fn note_lines(
    domains: Seq<Seq<char>>,
    public_ip: Option<Seq<char>>,
    public_ipv6: Option<Seq<char>>,
) -> Seq<Seq<char>> {
    let width = widest(domains);
    let address = match public_ip {
        Some(ip) => ip,
        None => "<this server's IP>"@,
    };
    record_lines("A     "@, domains, width, address, ""@) + (match public_ipv6 {
        Some(v6) => seq![""@] + record_lines("AAAA  "@, domains, width, v6, "   (optional)"@)
            + seq![""@, AAAA_ADVICE@],
        None => Seq::empty(),
    }) + seq![""@, REACHABLE_PORTS@]
}

/// The note that shows the required records as a copy-ready table.
pub fn records_note(domains: &Vec<String>, public_ip: Option<&str>, public_ipv6: Option<&str>) -> (r:
    String)
    ensures
        r@ == text::joined(
            note_lines(
                text::texts(domains@),
                text::opt_str(public_ip),
                text::opt_str(public_ipv6),
            ),
            "\n"@,
        ),
{
    let width: usize = width_of(domains);
    let address = match public_ip {
        Some(ip) => ip,
        None => "<this server's IP>",
    };
    let mut lines = render_records("A     ", domains, width, address, "");
    match public_ipv6 {
        Some(v6) => {
            let gap = text::words(&[""]);
            assert(text::texts(gap@) =~= seq![""@]);
            let optional = render_records("AAAA  ", domains, width, v6, "   (optional)");
            let advice = text::words(&["", AAAA_ADVICE]);
            assert(text::texts(advice@) =~= seq![""@, AAAA_ADVICE@]);
            text::extend(&mut lines, &gap);
            text::extend(&mut lines, &optional);
            text::extend(&mut lines, &advice);
        },
        None => {},
    }
    let tail = text::words(&["", REACHABLE_PORTS]);
    assert(text::texts(tail@) =~= seq![""@, REACHABLE_PORTS@]);
    text::extend(&mut lines, &tail);
    assert(text::texts(lines@) =~= note_lines(
        text::texts(domains@),
        text::opt_str(public_ip),
        text::opt_str(public_ipv6),
    ));
    text::join(&lines, "\n")
}

/// The heading of the note.
pub fn records_title(count: usize) -> (r: String)
    ensures
        r@ == "Create with your DNS provider — record"@
            + if count > 1 { "s"@ } else { ""@ }
            + " pointing at this server"@,
{
    let plural = if count > 1 {
        "s"
    } else {
        ""
    };
    "Create with your DNS provider — record".to_owned()
        .concat(plural)
        .concat(" pointing at this server")
}

// ---------------------------------------------------------------------------
// what a look at them shows
// ---------------------------------------------------------------------------
/// What public resolvers say of a domain.
pub struct DnsCheck {
    pub domain: String,
    pub resolved: Vec<String>,
    /// Whether the record leads to this server.
    pub matches: bool,
    pub behind_cloudflare: bool,
}

/// Whether every domain was looked up and leads here.
pub open spec fn confirmed(checks: Seq<Option<DnsCheck>>) -> bool {
    forall|i: int| 0 <= i < checks.len() ==> (#[trigger] checks[i] matches Some(c) && c.matches)
}

pub fn all_confirmed(checks: &Vec<Option<DnsCheck>>) -> (r: bool)
    ensures
        r == confirmed(checks@),
{
    let mut i: usize = 0;
    while i < checks.len()
        invariant
            i <= checks@.len(),
            forall|k: int|
                0 <= k < i ==> (#[trigger] checks@[k] matches Some(c) && c.matches),
        decreases checks@.len() - i,
    {
        let good: bool = match &checks[i] {
            Some(c) => c.matches,
            None => false,
        };
        if !good {
            assert(!(checks@[i as int] matches Some(c) && c.matches));
            return false;
        }
        i += 1;
    }
    true
}

/// Whether a record exists and leads elsewhere.
pub open spec fn misdirected(check: Option<DnsCheck>) -> bool {
    check matches Some(c) && !c.matches && c.resolved@.len() > 0
}

pub fn any_mismatch(checks: &Vec<Option<DnsCheck>>) -> (r: bool)
    ensures
        r == exists|i: int| 0 <= i < checks@.len() && misdirected(#[trigger] checks@[i]),
{
    let mut i: usize = 0;
    while i < checks.len()
        invariant
            i <= checks@.len(),
            forall|k: int| 0 <= k < i ==> !misdirected(#[trigger] checks@[k]),
        decreases checks@.len() - i,
    {
        let wrong: bool = match &checks[i] {
            Some(c) => !c.matches && c.resolved.len() > 0,
            None => false,
        };
        if wrong {
            assert(misdirected(checks@[i as int]));
            return true;
        }
        assert(!misdirected(checks@[i as int]));
        i += 1;
    }
    false
}

/// What is said of one domain.
pub open spec fn status_of(check: DnsCheck, public_ip: Option<Seq<char>>) -> Seq<char> {
    let status = if check.matches {
        "ok"@
    } else if check.resolved@.len() == 0 {
        "no record found"@
    } else {
        "resolves to "@
            + text::joined(text::texts(check.resolved@), ", "@)
            + " — not the detected address ("@
            + match public_ip { Some(ip) => ip, None => "unknown"@ }
            + ")"@
    };
    check.domain@ + "  —  "@ + status
}

pub fn status_line(check: &DnsCheck, public_ip: Option<&str>) -> (r: String)
    ensures
        r@ == status_of(*check, text::opt_str(public_ip)),
{
    let status = if check.matches {
        "ok".to_owned()
    } else if check.resolved.len() == 0 {
        "no record found".to_owned()
    } else {
        let addresses = text::join(&check.resolved, ", ");
        let detected = match public_ip {
            Some(ip) => ip,
            None => "unknown",
        };
        "resolves to ".to_owned()
            .concat(addresses.as_str())
            .concat(" — not the detected address (")
            .concat(detected)
            .concat(")")
    };
    check.domain.as_str().to_owned().concat("  —  ").concat(status.as_str())
}

pub fn cloudflare_warning(domain: &str) -> (r: String)
    ensures
        r@ == domain@
            + " appears to be behind the Cloudflare proxy (orange cloud).\nCertificate issuance needs the record set to \"DNS only\" (grey cloud)."@,
{
    domain.to_owned()
        .concat(" appears to be behind the Cloudflare proxy (orange cloud).\nCertificate issuance needs the record set to \"DNS only\" (grey cloud).")
}

pub const MISMATCH_HINT: &'static str = "If the resolved address IS this server (several IPs, NAT, or the\ndetection answered over IPv6), choose \"Continue anyway\" — certificates\nonly need the record to actually reach this machine.";

pub const PROPAGATION_HINT: &'static str = "Freshly created records can take a few minutes to propagate.";

pub fn unconfirmed_hint(mismatch: bool) -> (r: &'static str)
    ensures
        r@ == (if mismatch {
            MISMATCH_HINT@
        } else {
            PROPAGATION_HINT@
        }),
{
    if mismatch {
        MISMATCH_HINT
    } else {
        PROPAGATION_HINT
    }
}

pub fn confirmed_line(count: usize) -> (r: String)
    ensures
        r@ == "DNS looks right — the record"@
            + if count > 1 { "s point"@ } else { " points"@ }
            + " at this server."@,
{
    let verb = if count > 1 {
        "s point"
    } else {
        " points"
    };
    "DNS looks right — the record".to_owned().concat(verb).concat(" at this server.")
}

// ---------------------------------------------------------------------------
// waiting for them
// ---------------------------------------------------------------------------
/// The hostnames whose records have to be right: the console's, and that of a
/// bundled mint.
pub fn domains_to_confirm(console: &str, mint: &str, has_mint: bool) -> (r: Vec<String>)
    ensures
        text::texts(r@) == seq![console@] + (if has_mint {
            seq![mint@]
        } else {
            Seq::empty()
        }),
{
    broadcast use text::lemma_texts_push;

    let mut domains: Vec<String> = Vec::new();
    domains.push(console.to_owned());
    if has_mint {
        domains.push(mint.to_owned());
    }
    assert(text::texts(domains@) =~= seq![console@] + (if has_mint {
        seq![mint@]
    } else {
        Seq::empty()
    }));
    domains
}

/// What the operator chose while the records are not right.
#[derive(Debug, Clone, Copy, PartialEq, Eq, Structural)]
pub enum DnsChoice {
    CheckAgain,
    ContinueAnyway,
    PlainHttp,
    Abort,
}

/// What is done next about the records.
#[derive(Debug, Clone, Copy, PartialEq, Eq, Structural)]
pub enum DnsStep {
    /// Look the records up.
    Check,
    /// Prompt: how to proceed.
    Ask,
    /// Go on with this access mode.
    Settled(AccessMode),
    Aborted,
}

/// Starts with a look at the records.
pub fn confirm_dns() -> (r: DnsStep)
    ensures
        r == DnsStep::Check,
{
    DnsStep::Check
}

pub open spec fn after_check(confirmed: bool) -> DnsStep {
    if confirmed {
        DnsStep::Settled(AccessMode::DomainTls)
    } else {
        DnsStep::Ask
    }
}

/// The records are right, or the operator is asked.
pub fn checked(checks: &Vec<Option<DnsCheck>>) -> (r: DnsStep)
    ensures
        r == after_check(confirmed(checks@)),
{
    if all_confirmed(checks) {
        DnsStep::Settled(AccessMode::DomainTls)
    } else {
        DnsStep::Ask
    }
}

pub open spec fn after_choice(choice: DnsChoice) -> DnsStep {
    match choice {
        DnsChoice::CheckAgain => DnsStep::Check,
        DnsChoice::ContinueAnyway => DnsStep::Settled(AccessMode::DomainTls),
        DnsChoice::PlainHttp => DnsStep::Settled(AccessMode::PlainHttp),
        DnsChoice::Abort => DnsStep::Aborted,
    }
}

pub fn choose_next(choice: DnsChoice) -> (r: DnsStep)
    ensures
        r == after_choice(choice),
{
    match choice {
        DnsChoice::CheckAgain => DnsStep::Check,
        DnsChoice::ContinueAnyway => DnsStep::Settled(AccessMode::DomainTls),
        DnsChoice::PlainHttp => DnsStep::Settled(AccessMode::PlainHttp),
        DnsChoice::Abort => DnsStep::Aborted,
    }
}

/// TLS is given up only where the operator chose so: with the records in place,
/// and without them, it stays otherwise.
pub proof fn law_tls_is_given_up_only_by_choice(confirmed: bool, choice: DnsChoice)
    ensures
        after_check(confirmed) != DnsStep::Settled(AccessMode::PlainHttp),
        after_choice(choice) == DnsStep::Settled(AccessMode::PlainHttp) <==> choice
            == DnsChoice::PlainHttp,
{
}

// ---------------------------------------------------------------------------
// laws
// ---------------------------------------------------------------------------
/// A column is as wide as the longest text in it takes bytes, and every text is
/// brought to that width with blanks behind it.
pub proof fn law_columns_line_up(domains: Seq<Seq<char>>, i: int)
    requires
        0 <= i < domains.len(),
    ensures
        byte_length(domains[i]) <= widest(domains),
        exists|k: int|
            0 <= k < domains.len() && byte_length(#[trigger] domains[k]) == widest(domains),
        ({
            let (s, width) = (domains[i], widest(domains));
            let r = padded(s, width);
            &&& s.len() <= width ==> r.len() == width
            &&& r.len() >= s.len() && r.take(s.len() as int) == s
            &&& forall|k: int| s.len() <= k < r.len() ==> #[trigger] r[k] == ' '
        }),
{
    lemma_widest(domains);
    let s = domains[i];
    assert(padded(s, widest(domains)).take(s.len() as int) =~= s);
}

proof fn lemma_widest(list: Seq<Seq<char>>)
    ensures
        forall|i: int| 0 <= i < list.len() ==> byte_length(#[trigger] list[i]) <= widest(list),
        list.len() > 0 ==> exists|k: int|
            0 <= k < list.len() && byte_length(#[trigger] list[k]) == widest(list),
    decreases list.len(),
{
    if list.len() > 0 {
        let rest = list.drop_last();
        lemma_widest(rest);
        assert forall|i: int| 0 <= i < list.len() implies byte_length(#[trigger] list[i])
            <= widest(list) by {
            if i < rest.len() {
                assert(rest[i] == list[i]);
            }
        }
        if byte_length(list.last()) > widest(rest) || rest.len() == 0 {
            assert(byte_length(list[list.len() - 1]) == widest(list));
        } else {
            let k = choose|k: int|
                0 <= k < rest.len() && byte_length(#[trigger] rest[k]) == widest(rest);
            assert(byte_length(list[k]) == widest(list));
        }
    }
}

/// The note has an A record for each hostname, with this server's address, and
/// an AAAA record for each where the server has an IPv6 address. It always says
/// which ports have to be reachable.
pub proof fn law_note_names_each_record(
    domains: Vec<String>,
    public_ip: Option<&str>,
    public_ipv6: Option<&str>,
    r: String,
    i: int,
)
    requires
        call_ensures(records_note, (&domains, public_ip, public_ipv6), r),
        0 <= i < domains@.len(),
    ensures
        exists|blanks: Seq<char>|
            (forall|k: int| 0 <= k < blanks.len() ==> blanks[k] == ' ') && text::found(
                r@,
                "A     "@ + #[trigger] (domains@[i]@ + blanks) + "  →  "@ + (match public_ip {
                    Some(ip) => ip@,
                    None => "<this server's IP>"@,
                }),
            ) is Some,
        public_ipv6 matches Some(v6) ==> exists|blanks: Seq<char>|
            (forall|k: int| 0 <= k < blanks.len() ==> blanks[k] == ' ') && text::found(
                r@,
                "AAAA  "@ + #[trigger] (domains@[i]@ + blanks) + "  →  "@ + v6@
                    + "   (optional)"@,
            ) is Some,
        text::found(r@, "Ports 80 and 443 must be reachable from the internet."@) is Some,
{
    let all = text::texts(domains@);
    let domain = all[i];
    assert(domain == domains@[i]@);
    let width = widest(all);
    let lines = note_lines(all, text::opt_str(public_ip), text::opt_str(public_ipv6));
    let blanks = padded(domain, width).skip(domain.len() as int);
    assert(padded(domain, width) =~= domain + blanks);
    let address = match public_ip {
        Some(ip) => ip@,
        None => "<this server's IP>"@,
    };
    reveal_strlit("");
    let line = "A     "@ + (domain + blanks) + "  →  "@ + address;
    assert(lines[i] =~= line);
    text::lemma_found_joined(lines, "\n"@, i);
    if let Some(v6) = public_ipv6 {
        let k = all.len() + 1 + i;
        let other = "AAAA  "@ + (domain + blanks) + "  →  "@ + v6@ + "   (optional)"@;
        assert(lines[k] =~= other);
        text::lemma_found_joined(lines, "\n"@, k);
    }
    let last = lines.len() - 1;
    assert(lines[last] == "Ports 80 and 443 must be reachable from the internet."@);
    text::lemma_found_joined(lines, "\n"@, last);
}

/// Only records that were all looked up and all lead here are confirmed; then
/// TLS is settled, and otherwise the operator is asked. A record leads elsewhere
/// only where there is one.
pub proof fn law_when_records_are_confirmed(
    checks: Vec<Option<DnsCheck>>,
    all: bool,
    wrong: bool,
    step: DnsStep,
    i: int,
)
    requires
        call_ensures(all_confirmed, (&checks,), all),
        call_ensures(any_mismatch, (&checks,), wrong),
        call_ensures(checked, (&checks,), step),
        0 <= i < checks@.len(),
    ensures
        all ==> checks@[i] is Some && checks@[i]->0.matches && !wrong,
        !all ==> exists|k: int|
            0 <= k < checks@.len() && (#[trigger] checks@[k] is None || !checks@[k]->0.matches),
        checks@[i] is Some && !checks@[i]->0.matches && checks@[i]->0.resolved@.len() > 0 ==> wrong,
        wrong ==> exists|k: int|
            0 <= k < checks@.len() && #[trigger] checks@[k] is Some && !checks@[k]->0.matches
                && checks@[k]->0.resolved@.len() > 0,
        all ==> step == DnsStep::Settled(AccessMode::DomainTls),
        !all ==> step == DnsStep::Ask,
{
    assert(misdirected(checks@[i]) <==> checks@[i] is Some && !checks@[i]->0.matches
        && checks@[i]->0.resolved@.len() > 0);
    if wrong {
        let k = choose|k: int| 0 <= k < checks@.len() && misdirected(#[trigger] checks@[k]);
        assert(checks@[k] is Some && !checks@[k]->0.matches);
    }
}

/// Each hostname is told of: that it is right, that there is no record, or every
/// address that it leads to instead.
pub proof fn law_status_line_tells(check: DnsCheck, public_ip: Option<&str>, r: String, i: int)
    requires
        call_ensures(status_line, (&check, public_ip), r),
    ensures
        check.matches ==> r@ == check.domain@ + "  —  "@ + "ok"@,
        !check.matches && check.resolved@.len() == 0 ==> r@ == check.domain@ + "  —  "@
            + "no record found"@,
        !check.matches && 0 <= i < check.resolved@.len() ==> text::found(
            r@,
            check.resolved@[i]@,
        ) is Some,
        !check.matches && check.resolved@.len() > 0 ==> (public_ip matches Some(ip) ==> text::found(
            r@,
            "not the detected address ("@ + ip@ + ")"@,
        ) is Some),
        text::begins(r@, check.domain@),
{
    assert(r@.take(check.domain@.len() as int) =~= check.domain@);
    if !check.matches && check.resolved@.len() > 0 {
        let parts = text::texts(check.resolved@);
        let listed = text::joined(parts, ", "@);
        let ip = match public_ip {
            Some(ip) => ip@,
            None => "unknown"@,
        };
        let head = check.domain@ + "  —  "@ + "resolves to "@;
        let tail = " — not the detected address ("@ + ip + ")"@;
        assert(r@ =~= head + listed + tail);
        if 0 <= i < check.resolved@.len() {
            assert(parts[i] == check.resolved@[i]@);
            text::lemma_found_joined(parts, ", "@, i);
            let (before, after) = choose|before: Seq<char>, after: Seq<char>|
                listed == #[trigger] (before + parts[i] + after);
            assert(r@ =~= (head + before) + parts[i] + (after + tail));
            text::lemma_found_between(head + before, parts[i], after + tail);
        }
        reveal_strlit(" — not the detected address (");
        reveal_strlit("not the detected address (");
        reveal_strlit(" — ");
        assert(" — not the detected address ("@ =~= " — "@ + "not the detected address ("@);
        let t = "not the detected address ("@ + ip + ")"@;
        assert(r@ =~= (head + listed + " — "@) + t + Seq::<char>::empty());
        text::lemma_found_between(head + listed + " — "@, t, Seq::empty());
    }
}

/// The hostnames to confirm are the console's and, exactly with a bundled mint,
/// the mint's.
pub proof fn law_hostnames_to_confirm(console: &str, mint: &str, has_mint: bool, r: Vec<String>)
    requires
        call_ensures(domains_to_confirm, (console, mint, has_mint), r),
    ensures
        r@.len() == (if has_mint {
            2int
        } else {
            1
        }),
        r@[0]@ == console@,
        has_mint ==> r@[1]@ == mint@,
{
    let s = text::texts(r@);
    assert(s.len() == r@.len());
    assert(s[0] == r@[0]@);
    if has_mint {
        assert(s[1] == r@[1]@);
    }
}

/// The operator's choice decides: another look, TLS all the same, plain HTTP, or
/// nothing at all.
pub proof fn law_choices(choice: DnsChoice, start: DnsStep, r: DnsStep, mismatch: bool, hint: &'static str)
    requires
        call_ensures(confirm_dns, (), start),
        call_ensures(choose_next, (choice,), r),
        call_ensures(unconfirmed_hint, (mismatch,), hint),
    ensures
        start is Check,
        r is Check <==> choice is CheckAgain,
        r == DnsStep::Settled(AccessMode::DomainTls) <==> choice is ContinueAnyway,
        r == DnsStep::Settled(AccessMode::PlainHttp) <==> choice is PlainHttp,
        r is Aborted <==> choice is Abort,
        !mismatch ==> hint@
            == "Freshly created records can take a few minutes to propagate."@,
        mismatch ==> text::found(hint@, "Continue anyway"@) is Some,
{
    if mismatch {
        reveal_strlit("If the resolved address IS this server (several IPs, NAT, or the\ndetection answered over IPv6), choose \"Continue anyway\" — certificates\nonly need the record to actually reach this machine.");
        reveal_strlit("Continue anyway");
        let s = "If the resolved address IS this server (several IPs, NAT, or the\ndetection answered over IPv6), choose \"Continue anyway\" — certificates\nonly need the record to actually reach this machine."@;
        let t = "Continue anyway"@;
        assert(s.skip(104).take(t.len() as int) =~= t);
        text::lemma_found_at(s, t, 104);
    }
}

/// One record is spoken of as one and several as several, and a proxied hostname
/// is named.
pub proof fn law_records_are_counted(
    count: usize,
    title: String,
    right: String,
    domain: &str,
    warning: String,
)
    requires
        call_ensures(records_title, (count,), title),
        call_ensures(confirmed_line, (count,), right),
        call_ensures(cloudflare_warning, (domain,), warning),
    ensures
        count > 1 ==> title@ == "Create with your DNS provider — record"@ + "s"@
            + " pointing at this server"@,
        count <= 1 ==> title@ == "Create with your DNS provider — record"@ + ""@
            + " pointing at this server"@,
        count > 1 ==> right@ == "DNS looks right — the record"@ + "s point"@ + " at this server."@,
        count <= 1 ==> right@ == "DNS looks right — the record"@ + " points"@
            + " at this server."@,
        text::begins(warning@, domain@),
{
    assert(warning@.take(domain@.len() as int) =~= domain@);
}

} // verus!
