//! Host checks that come before anything is asked or installed.

use crate::outside;
use crate::text;
use vstd::prelude::*;

verus! {

#[derive(Debug, Clone, Copy, PartialEq, Eq, Structural)]
pub enum PortStatus {
    Free,
    Busy,
    /// Could not tell (e.g. binding a privileged port without root).
    Unknown,
}

/// What binding a port led to.
#[derive(Debug, Clone, Copy, PartialEq, Eq, Structural)]
pub enum BindOutcome {
    Bound,
    /// Something else has the address.
    InUse,
    /// No permission on a privileged port without root, or anything else
    /// exotic.
    Refused,
}

/// Whether something on this host already listens on a port. A connect probe
/// catches loopback-reachable listeners without needing root; the bind probe,
/// made where nothing answered, then distinguishes free from bound-elsewhere.
pub fn port_status(answered: bool, bind: BindOutcome) -> (r: PortStatus)
    ensures
        r == PortStatus::Busy <==> answered || bind == BindOutcome::InUse,
        r == PortStatus::Free <==> !answered && bind == BindOutcome::Bound,
{
    if answered {
        PortStatus::Busy
    } else {
        match bind {
            BindOutcome::Bound => PortStatus::Free,
            BindOutcome::InUse => PortStatus::Busy,
            BindOutcome::Refused => PortStatus::Unknown,
        }
    }
}

pub fn ports_80_443_busy(http: PortStatus, https: PortStatus) -> (r: bool)
    ensures
        r == (http == PortStatus::Busy || https == PortStatus::Busy),
{
    http == PortStatus::Busy || https == PortStatus::Busy
}

/// The first port below which an unprivileged user cannot listen, from the
/// system's setting where it can be read.
pub open spec fn unprivileged_start(setting: Option<Seq<char>>) -> u16 {
    match setting {
        Some(value) => match text::parsed_u16(text::trimmed(value)) {
            Some(port) => port,
            None => 1024,
        },
        None => 1024,
    }
}

/// The first port that is below `minimum`.
pub open spec fn first_below(ports: Seq<u16>, minimum: u16) -> Option<u16>
    decreases ports.len(),
{
    if ports.len() == 0 {
        None
    } else if ports[0] < minimum {
        Some(ports[0])
    } else {
        first_below(ports.drop_first(), minimum)
    }
}

pub open spec fn rootless_warning(port: u16, minimum: u16) -> Seq<char> {
    "rootless Docker may need additional host configuration to publish port "@ + text::decimal(
        port as nat,
    )
        + ". Use --behind-proxy with an existing proxy, or --plain-http with ports >= "@
        + text::decimal(minimum as nat)
        + ", unless privileged ports are already enabled for rootlesskit. See https://docs.docker.com/engine/security/rootless/tips/#exposing-privileged-ports"@
}

/// What to warn of where Docker's security options and the system's setting
/// are these.
pub open spec fn rootless_advice(
    ports: Seq<u16>,
    options: Seq<char>,
    setting: Option<Seq<char>>,
) -> Option<Seq<char>> {
    let minimum = unprivileged_start(setting);
    if text::found(options, "rootless"@) is None {
        None
    } else {
        match first_below(ports, minimum) {
            Some(port) => Some(rootless_warning(port, minimum)),
            None => None,
        }
    }
}

/// What docker is asked for the daemon's security options.
pub fn security_options_args() -> (r: Vec<String>)
    ensures
        text::texts(r@) == seq!["info"@, "--format"@, "{{json .SecurityOptions}}"@],
{
    let args = text::words(&["info", "--format", "{{json .SecurityOptions}}"]);
    assert(text::texts(args@) =~= seq!["info"@, "--format"@, "{{json .SecurityOptions}}"@]);
    args
}

/// Rootless Docker publishes through the user's host namespace. Report a
/// privileged-port limitation before downloading images or committing secrets.
/// Capabilities granted to rootlesskit can also permit these ports, so this is
/// advisory rather than a reason to reject a working setup.
///
/// `options` is what `docker info` printed, where it succeeded, and `setting`
/// the system's unprivileged port start, where it could be read.
pub fn check_rootless_ports(
    ports: &Vec<u16>,
    linux: bool,
    options: Option<&[u8]>,
    setting: Option<&str>,
) -> (r: Option<String>)
    ensures
        match r {
            Some(warning) => linux && options is Some && rootless_advice(
                ports@,
                outside::text_of(options->0@),
                text::opt_str(setting),
            ) == Some(warning@),
            None => !linux || options is None || rootless_advice(
                ports@,
                outside::text_of(options->0@),
                text::opt_str(setting),
            ) is None,
        },
{
    if !linux {
        return None;
    }
    match options {
        Some(bytes) => rootless_ports_advice(ports, outside::decode_lossy(bytes).as_str(), setting),
        None => None,
    }
}

pub fn rootless_ports_advice(ports: &Vec<u16>, options: &str, setting: Option<&str>) -> (r: Option<
    String,
>)
    ensures
        match r {
            Some(warning) => rootless_advice(ports@, options@, text::opt_str(setting)) == Some(warning@),
            None => rootless_advice(ports@, options@, text::opt_str(setting)) is None,
        },
{
    if !text::contains(options, "rootless") {
        return None;
    }
    let minimum: u16 = match setting {
        Some(value) => match text::parse_u16(text::trim(value).as_str()) {
            Some(port) => port,
            None => 1024,
        },
        None => 1024,
    };
    let mut i: usize = 0;
    assert(ports@.skip(0) =~= ports@);
    while i < ports.len()
        invariant
            i <= ports@.len(),
            minimum == unprivileged_start(text::opt_str(setting)),
            text::found(options@, "rootless"@) is Some,
            first_below(ports@, minimum) == first_below(ports@.skip(i as int), minimum),
        decreases ports@.len() - i,
    {
        let port: u16 = ports[i];
        assert(ports@.skip(i as int).drop_first() =~= ports@.skip(i + 1));
        if port < minimum {
            return Some(
                "rootless Docker may need additional host configuration to publish port ".to_owned().concat(
                    text::to_decimal(port as u64).as_str(),
                ).concat(
                    ". Use --behind-proxy with an existing proxy, or --plain-http with ports >= ",
                ).concat(text::to_decimal(minimum as u64).as_str()).concat(
                    ", unless privileged ports are already enabled for rootlesskit. See https://docs.docker.com/engine/security/rootless/tips/#exposing-privileged-ports",
                ),
            );
        }
        i += 1;
    }
    None
}

// ---------------------------------------------------------------------------
// laws
// ---------------------------------------------------------------------------
/// Whatever answers, or cannot be bound because something else is, is busy; a
/// port is free exactly where nothing answered and it could be bound. The web's
/// ports are in the way where either is busy.
pub proof fn law_ports_in_use(
    answered: bool,
    bind: BindOutcome,
    r: PortStatus,
    https: PortStatus,
    busy: bool,
)
    requires
        call_ensures(port_status, (answered, bind), r),
        call_ensures(ports_80_443_busy, (r, https), busy),
    ensures
        answered ==> r is Busy && busy,
        !answered && bind is InUse ==> r is Busy,
        !answered && bind is Bound ==> r is Free,
        !answered && bind is Refused ==> r is Unknown,
        https is Busy ==> busy,
        !(r is Busy) && !(https is Busy) ==> !busy,
{
}

proof fn lemma_first_below(ports: Seq<u16>, minimum: u16)
    ensures
        first_below(ports, minimum) is Some <==> exists|i: int|
            0 <= i < ports.len() && #[trigger] ports[i] < minimum,
        first_below(ports, minimum) matches Some(port) ==> port < minimum && ports.contains(port),
    decreases ports.len(),
{
    if ports.len() > 0 {
        let rest = ports.drop_first();
        lemma_first_below(rest, minimum);
        if ports[0] >= minimum {
            if let Some(port) = first_below(rest, minimum) {
                let i = choose|i: int| 0 <= i < rest.len() && rest[i] == port;
                assert(ports[i + 1] == port);
            } else {
                assert forall|i: int| 0 <= i < ports.len() implies #[trigger] ports[i]
                    >= minimum by {
                    if i > 0 {
                        assert(ports[i] == rest[i - 1]);
                    }
                }
            }
        } else {
            assert(ports.contains(ports[0]));
        }
    }
}

/// Rootless Docker is warned of exactly where one of the ports lies below those
/// that an unprivileged user can have: below the system's setting, and below
/// 1024 where that is not known. The warning names such a port and that limit.
pub proof fn law_rootless_ports(
    ports: Vec<u16>,
    options: &str,
    setting: Option<&str>,
    limit: u16,
    r: Option<String>,
)
    requires
        call_ensures(rootless_ports_advice, (&ports, options, setting), r),
        match setting {
            None => limit == 1024,
            Some(value) => value@ == text::decimal(limit as nat) || value@ == text::decimal(
                limit as nat,
            ) + seq!['\n'],
        },
    ensures
        r is Some <==> text::found(options@, "rootless"@) is Some && exists|i: int|
            0 <= i < ports@.len() && #[trigger] ports@[i] < limit,
        r matches Some(warning) ==> text::found(
            warning@,
            "with ports >= "@ + text::decimal(limit as nat),
        ) is Some,
        r matches Some(warning) ==> exists|i: int|
            0 <= i < ports@.len() && #[trigger] ports@[i] < limit && text::found(
                warning@,
                "publish port "@ + text::decimal(ports@[i] as nat),
            ) is Some,
{
    if let Some(value) = setting {
        let d = text::decimal(limit as nat);
        let p = |c: char| text::white(c);
        text::lemma_decimal(limit as nat);
        let n = d.len() as int;
        assert('0' <= d[0] <= '9' && '0' <= d[n - 1] <= '9');
        assert(value@[0] == d[0] && value@[n - 1] == d[n - 1]);
        text::lemma_left_trimmed(value@, p, 0);
        assert(value@.skip(0) =~= value@);
        text::lemma_right_trimmed(value@, p, n);
        assert(value@.take(n) =~= d);
        text::law_port_reads_back(limit);
    }
    lemma_first_below(ports@, limit);
    if let Some(warning) = r {
        let port = first_below(ports@, limit)->0;
        let i = choose|i: int| 0 <= i < ports@.len() && ports@[i] == port;
        let head = "rootless Docker may need additional host configuration to "@;
        let mid = ". Use --behind-proxy with an existing proxy, or --plain-http "@;
        let tail = ", unless privileged ports are already enabled for rootlesskit. See https://docs.docker.com/engine/security/rootless/tips/#exposing-privileged-ports"@;
        let (a, b) = (text::decimal(port as nat), text::decimal(limit as nat));
        reveal_strlit("rootless Docker may need additional host configuration to ");
        reveal_strlit("publish port ");
        reveal_strlit("rootless Docker may need additional host configuration to publish port ");
        reveal_strlit(". Use --behind-proxy with an existing proxy, or --plain-http ");
        reveal_strlit("with ports >= ");
        reveal_strlit(". Use --behind-proxy with an existing proxy, or --plain-http with ports >= ");
        assert("rootless Docker may need additional host configuration to publish port "@ =~= head
            + "publish port "@);
        assert(". Use --behind-proxy with an existing proxy, or --plain-http with ports >= "@
            =~= mid + "with ports >= "@);
        assert(warning@ =~= head + ("publish port "@ + a) + (mid + "with ports >= "@ + b + tail));
        text::lemma_found_between(head, "publish port "@ + a, mid + "with ports >= "@ + b + tail);
        let before = head + "publish port "@ + a + mid;
        assert(warning@ =~= before + ("with ports >= "@ + b) + tail);
        text::lemma_found_between(before, "with ports >= "@ + b, tail);
        assert(ports@[i] < limit);
    }
}

/// Only Linux has that limit, and only a daemon that answers can be rootless.
pub proof fn law_rootless_is_linux_only(
    ports: Vec<u16>,
    linux: bool,
    options: Option<&[u8]>,
    setting: Option<&str>,
    r: Option<String>,
)
    requires
        call_ensures(check_rootless_ports, (&ports, linux, options, setting), r),
    ensures
        !linux || options is None ==> r is None,
        ports@.len() == 0 ==> r is None,
{
    if ports@.len() == 0 && options is Some {
        lemma_first_below(ports@, unprivileged_start(text::opt_str(setting)));
    }
}

/// The daemon is asked for its security options.
pub proof fn law_security_options_are_asked_for(r: Vec<String>)
    requires
        call_ensures(security_options_args, (), r),
    ensures
        text::texts(r@) == seq!["info"@, "--format"@, "{{json .SecurityOptions}}"@],
{
}

} // verus!
