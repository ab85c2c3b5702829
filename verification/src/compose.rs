//! Docker and docker compose: project names, command lines, and what their
//! answers mean.

use crate::envfile;
use crate::envfile::EnvFile;
use crate::outside;
use crate::paths;
use crate::release;
use crate::text;
use vstd::prelude::*;

verus! {

pub const BIN_LINK: &'static str = "/usr/local/bin/mintctl";

pub const DEFAULT_LINUX_DIR: &'static str = "/opt/pecan";

/// The project name of an installation whose directory has no usable name.
pub const FALLBACK_PROJECT: &'static str = "pecan";

// ---------------------------------------------------------------------------
// project names
// ---------------------------------------------------------------------------
/// The characters of a Compose project name.
pub open spec fn name_char(c: char) -> bool {
    'a' <= c <= 'z' || '0' <= c <= '9' || c == '_' || c == '-'
}

/// `base` with a hyphen for each character that a project name cannot have.
pub open spec fn hyphened(base: Seq<char>) -> Seq<char> {
    Seq::new(
        base.len(),
        |i: int|
            if name_char(base[i]) {
                base[i]
            } else {
                '-'
            },
    )
}

/// The project name made of a lower-case directory name: hyphens for what it
/// cannot hold, none of them (and no underscore) at the start.
pub open spec fn sanitized(base: Seq<char>) -> Seq<char> {
    let name = text::left_trimmed(hyphened(base), |c: char| c == '-' || c == '_');
    if name.len() == 0 {
        FALLBACK_PROJECT@
    } else {
        name
    }
}

/// The lower-case name of a directory: letter by letter where it is ASCII, and
/// by Unicode's rules otherwise.
pub open spec fn base_name(install_dir: Seq<char>) -> Seq<char> {
    match paths::name_of(install_dir) {
        Some(name) => if text::ascii(name) {
            text::lowered(name)
        } else {
            outside::unicode_lowercase(name)
        },
        None => FALLBACK_PROJECT@,
    }
}

/// The Compose project name derived from an installation's directory.
pub open spec fn project_of(install_dir: Seq<char>) -> Seq<char> {
    sanitized(base_name(install_dir))
}

pub fn sanitize(base: &str) -> (r: String)
    ensures
        r@ == sanitized(base@),
{
    let v = text::to_chars(base);
    let mut name = String::new();
    let mut i: usize = 0;
    while i < v.len()
        invariant
            i <= v@.len(),
            name@ == hyphened(v@.take(i as int)),
        decreases v@.len() - i,
    {
        let c = v[i];
        if ('a' <= c && c <= 'z') || ('0' <= c && c <= '9') || c == '_' || c == '-' {
            name.push(c);
        } else {
            name.push('-');
        }
        i += 1;
        assert(name@ =~= hyphened(v@.take(i as int)));
    }
    assert(v@.take(i as int) =~= v@);
    let name = text::trim_start_of(name.as_str(), '-', '_');
    if name.as_str().is_empty() {
        FALLBACK_PROJECT.to_owned()
    } else {
        name
    }
}

pub fn project_name(install_dir: &str) -> (r: String)
    ensures
        r@ == project_of(install_dir@),
{
    let base = match paths::file_name(install_dir) {
        Some(name) => outside::to_lowercase(name.as_str()),
        None => FALLBACK_PROJECT.to_owned(),
    };
    sanitize(base.as_str())
}

/// A project name with the first four bytes of a digest behind it.
pub open spec fn suffixed(project: Seq<char>, digest: Seq<u8>) -> Seq<char> {
    project + "-"@ + release::hex_of(digest.take(4))
}

pub fn project_with_suffix(project: &str, digest: &Vec<u8>) -> (r: String)
    requires
        digest@.len() >= 4,
    ensures
        r@ == suffixed(project@, digest@),
{
    let mut head: Vec<u8> = Vec::new();
    head.push(digest[0]);
    head.push(digest[1]);
    head.push(digest[2]);
    head.push(digest[3]);
    assert(head@ =~= digest@.take(4));
    project.to_owned().concat("-").concat(release::hex(head.as_slice()).as_str())
}

/// The project name of a new installation.
pub open spec fn install_project(install_dir: Seq<char>) -> Seq<char> {
    suffixed(project_of(install_dir), outside::sha256(vstd::utf8::encode_utf8(install_dir)))
}

/// New installations include a path suffix: two users can both install into
/// ~/pecan on a shared daemon without sharing named volumes. Existing projects
/// retain the COMPOSE_PROJECT_NAME already recorded in their .env.
pub fn install_project_name(install_dir: &str) -> (r: String)
    ensures
        r@ == install_project(install_dir@),
        project_name_ok(r@),
{
    let digest = outside::sha256_digest(install_dir.as_bytes());
    proof {
        law_install_project_name_is_accepted(base_name(install_dir@), digest@);
    }
    project_with_suffix(project_name(install_dir).as_str(), &digest)
}

/// A project name has at least one character, only those that Compose takes,
/// and it begins with a letter or a digit.
pub open spec fn project_name_ok(name: Seq<char>) -> bool {
    &&& name.len() > 0
    &&& forall|i: int| 0 <= i < name.len() ==> name_char(#[trigger] name[i])
    &&& name[0] != '-' && name[0] != '_'
}

/// Whatever the directory is called, Compose takes the project name.
pub proof fn law_project_name_is_accepted(base: Seq<char>)
    ensures
        project_name_ok(sanitized(base)),
{
    let p = |c: char| c == '-' || c == '_';
    let all = hyphened(base);
    text::lemma_left_trimmed_suffix(all, p);
    let name = text::left_trimmed(all, p);
    if name.len() == 0 {
        reveal_strlit("pecan");
    } else {
        assert forall|i: int| 0 <= i < name.len() implies name_char(#[trigger] name[i]) by {
            assert(name[i] == all[all.len() - name.len() + i]);
        }
    }
}

/// The suffixed name is accepted too.
pub proof fn law_install_project_name_is_accepted(base: Seq<char>, digest: Seq<u8>)
    requires
        digest.len() >= 4,
    ensures
        project_name_ok(suffixed(sanitized(base), digest)),
{
    law_project_name_is_accepted(base);
    reveal_strlit("-");
    let name = suffixed(sanitized(base), digest);
    let n = sanitized(base).len() as int;
    let tail = release::hex_of(digest.take(4));
    assert forall|i: int| 0 <= i < name.len() implies name_char(#[trigger] name[i]) by {
        if i > n {
            assert(name[i] == tail[i - n - 1]);
        }
    }
}

/// Installations share a project name, and with it their volumes, only where
/// both the names of their directories and the first four bytes of the digests
/// of their paths agree.
pub proof fn law_project_names_differ(a: Seq<char>, x: Seq<u8>, b: Seq<char>, y: Seq<u8>)
    requires
        x.len() >= 4,
        y.len() >= 4,
    ensures
        suffixed(a, x) == suffixed(b, y) <==> a == b && x.take(4) == y.take(4),
{
    if suffixed(a, x) == suffixed(b, y) {
        let (hx, hy) = (release::hex_of(x.take(4)), release::hex_of(y.take(4)));
        assert(hx.len() == 8 && hy.len() == 8);
        assert(suffixed(a, x).len() == a.len() + "-"@.len() + 8);
        assert(suffixed(b, y).len() == b.len() + "-"@.len() + 8);
        assert(a =~= suffixed(a, x).take(a.len() as int));
        assert(b =~= suffixed(b, y).take(b.len() as int));
        assert(hx =~= suffixed(a, x).skip((a.len() + "-"@.len()) as int));
        assert(hy =~= suffixed(b, y).skip((b.len() + "-"@.len()) as int));
        release::law_hex_tells_bytes_apart(x.take(4), y.take(4));
    }
}

// ---------------------------------------------------------------------------
// the installed stack
// ---------------------------------------------------------------------------
/// Where the management command is linked: for root in a system directory, and
/// otherwise below the user's home.
pub fn cli_link(root: bool, home: Option<&str>) -> (r: Result<String, String>)
    ensures
        match r {
            Ok(link) => if root {
                link@ == BIN_LINK@
            } else {
                home is Some && link@ == paths::below(home->0@, ".local/bin/mintctl"@)
            },
            Err(message) => !root && home is None && message@ == "HOME is not set"@,
        },
{
    if root {
        Ok(BIN_LINK.to_owned())
    } else {
        match home {
            Some(dir) => Ok(paths::join(dir, ".local/bin/mintctl")),
            None => Err("HOME is not set".to_owned()),
        }
    }
}

/// A command line: the program with its arguments, the directory it runs in,
/// and the variables that it does not inherit.
pub struct CommandLine {
    pub program: String,
    pub args: Vec<String>,
    pub current_dir: String,
    pub env_remove: Vec<String>,
}

/// An existing installation: the directory holding docker-compose.yml, .env,
/// and the mintctl binary itself.
pub struct Stack {
    pub install_dir: String,
}

/// The project that an installation runs as: the one recorded in its `.env`,
/// and otherwise the one derived from its directory.
pub open spec fn recorded_project(env: Seq<Seq<char>>, install_dir: Seq<char>) -> Seq<char> {
    match release::nonempty(envfile::last_value(env, "COMPOSE_PROJECT_NAME"@)) {
        Some(project) => project,
        None => project_of(install_dir),
    }
}

/// The arguments of a compose command that takes its files from `files`.
pub open spec fn compose_args(
    files: Seq<char>,
    install_dir: Seq<char>,
    project: Seq<char>,
    args: Seq<Seq<char>>,
) -> Seq<Seq<char>> {
    seq![
        "compose"@,
        "-f"@,
        paths::below(files, "docker-compose.yml"@),
        "--env-file"@,
        paths::below(files, ".env"@),
        "--project-directory"@,
        install_dir,
        "--project-name"@,
        project,
    ] + args
}

pub open spec fn compose_failed(args: Seq<Seq<char>>) -> Seq<char> {
    "docker compose "@ + text::joined(args, " "@) + " failed"@
}

/// The lines that hold more than white space.
pub open spec fn nonblank(lines: Seq<Seq<char>>) -> Seq<Seq<char>> {
    lines.filter(|line: Seq<char>| text::trimmed(line).len() > 0)
}

/// The last eight, or all where there are fewer.
pub open spec fn tail(lines: Seq<Seq<char>>) -> Seq<Seq<char>> {
    lines.skip(
        if lines.len() > 8 {
            lines.len() - 8
        } else {
            0
        },
    )
}

/// What a quiet compose command says when it failed: the tail of its output.
pub open spec fn quiet_failed(args: Seq<Seq<char>>, output: Seq<char>) -> Seq<char> {
    compose_failed(args) + ":\n"@ + text::joined(tail(nonblank(text::lines_of(output))), "\n"@)
}

pub open spec fn not_installed(dir: Seq<char>) -> Seq<char> {
    "no installation found next to this binary ("@ + dir
        + "). Set MINTCTL_DIR=/path/to/install or run the installer first."@
}

/// Where to look for the installation: MINTCTL_DIR wins, else the directory
/// that this binary lives in.
pub fn discovery_dir(mintctl_dir: Option<&str>, binary_dir: Option<&str>) -> (r: String)
    ensures
        r@ == (match (mintctl_dir, binary_dir) {
            (Some(dir), _) => dir@,
            (None, Some(dir)) => dir@,
            (None, None) => "."@,
        }),
{
    match (mintctl_dir, binary_dir) {
        (Some(dir), _) => dir.to_owned(),
        (None, Some(dir)) => dir.to_owned(),
        (None, None) => ".".to_owned(),
    }
}

impl Stack {
    /// The installation in `dir`: a `.env` file must exist there, and
    /// `resolved` is the directory's path with its links resolved, where that
    /// worked.
    pub fn discover(dir: &str, env_present: bool, resolved: Option<&str>) -> (r: Result<
        Self,
        String,
    >)
        ensures
            match r {
                Ok(stack) => env_present && resolved is Some && stack.install_dir@ == resolved->0@,
                Err(message) => if env_present {
                    resolved is None && message@ == "resolve install directory"@
                } else {
                    message@ == not_installed(dir@)
                },
            },
    {
        if !env_present {
            return Err(
                "no installation found next to this binary (".to_owned().concat(dir).concat(
                    "). Set MINTCTL_DIR=/path/to/install or run the installer first.",
                ),
            );
        }
        match resolved {
            Some(path) => Ok(Stack { install_dir: path.to_owned() }),
            None => Err("resolve install directory".to_owned()),
        }
    }

    pub fn env_path(&self) -> (r: String)
        ensures
            r@ == paths::below(self.install_dir@, ".env"@),
    {
        paths::join(self.install_dir.as_str(), ".env")
    }

    pub fn project(&self, env: &EnvFile) -> (r: String)
        ensures
            r@ == recorded_project(env@, self.install_dir@),
    {
        match env.get("COMPOSE_PROJECT_NAME") {
            Some(project) => if !project.as_str().is_empty() {
                return project;
            },
            None => {},
        }
        project_name(self.install_dir.as_str())
    }

    /// What became of a compose command, given whether it succeeded.
    pub fn compose(&self, args: &Vec<String>, success: bool) -> (r: Result<(), String>)
        ensures
            match r {
                Ok(_) => success,
                Err(message) => !success && message@ == compose_failed(text::texts(args@)),
            },
    {
        if success {
            Ok(())
        } else {
            Err(
                "docker compose ".to_owned().concat(text::join(args, " ").as_str()).concat(
                    " failed",
                ),
            )
        }
    }

    /// The same for a command whose output was kept back: nothing of it is
    /// shown unless the command failed, and then its tail.
    pub fn compose_quiet(
        &self,
        args: &Vec<String>,
        success: bool,
        stdout: &[u8],
        stderr: &[u8],
    ) -> (r: Result<(), String>)
        ensures
            match r {
                Ok(_) => success,
                Err(message) => !success && message@ == quiet_failed(
                    text::texts(args@),
                    outside::text_of(stdout@) + outside::text_of(stderr@),
                ),
            },
    {
        if success {
            return Ok(());
        }
        let mut combined = outside::decode_lossy(stdout);
        combined.append(outside::decode_lossy(stderr).as_str());
        Err(quiet_failure(args, combined.as_str()))
    }

    /// `docker compose` pinned to this installation's compose file and project
    /// directory, so that it never loads overrides on its own.
    pub fn compose_command(&self, env: &EnvFile, args: &Vec<String>) -> (r: CommandLine)
        ensures
            r.program@ == "docker"@,
            text::texts(r.args@) == compose_args(
                self.install_dir@,
                self.install_dir@,
                recorded_project(env@, self.install_dir@),
                text::texts(args@),
            ),
            r.current_dir@ == self.install_dir@,
            text::texts(r.env_remove@) == seq!["COMPOSE_PROFILES"@, "COMPOSE_FILE"@]
                + envfile::keys_of(env@),
    {
        self.command_with_files(self.install_dir.as_str(), env, args)
    }

    /// Stage artifacts elsewhere while resolving mounts and volumes against
    /// the original project. The `.env` file, which `env` holds, wins over the
    /// caller's shell: none of its keys is inherited.
    pub fn command_with_files(&self, files: &str, env: &EnvFile, args: &Vec<String>) -> (r:
        CommandLine)
        ensures
            r.program@ == "docker"@,
            text::texts(r.args@) == compose_args(
                files@,
                self.install_dir@,
                recorded_project(env@, self.install_dir@),
                text::texts(args@),
            ),
            r.current_dir@ == self.install_dir@,
            text::texts(r.env_remove@) == seq!["COMPOSE_PROFILES"@, "COMPOSE_FILE"@]
                + envfile::keys_of(env@),
    {
        broadcast use text::lemma_texts_push;

        let mut line: Vec<String> = Vec::new();
        line.push("compose".to_owned());
        line.push("-f".to_owned());
        line.push(paths::join(files, "docker-compose.yml"));
        line.push("--env-file".to_owned());
        line.push(paths::join(files, ".env"));
        line.push("--project-directory".to_owned());
        line.push(self.install_dir.clone());
        line.push("--project-name".to_owned());
        line.push(self.project(env));
        text::extend(&mut line, args);
        assert(text::texts(line@) =~= compose_args(
            files@,
            self.install_dir@,
            recorded_project(env@, self.install_dir@),
            text::texts(args@),
        ));
        let mut env_remove = text::words(&["COMPOSE_PROFILES", "COMPOSE_FILE"]);
        text::extend(&mut env_remove, &env.keys());
        assert(text::texts(env_remove@) =~= seq!["COMPOSE_PROFILES"@, "COMPOSE_FILE"@]
            + envfile::keys_of(env@));
        CommandLine {
            program: "docker".to_owned(),
            args: line,
            current_dir: self.install_dir.clone(),
            env_remove,
        }
    }
}

/// The installation's `.env` wins over the caller's shell: whatever it sets, a
/// compose command does not inherit. A comment sets nothing, and no variable's
/// name has an `=` in it.
pub proof fn law_env_wins_over_the_shell(env: Seq<Seq<char>>, key: Seq<char>)
    requires
        envfile::last_value(env, key) is Some,
        !key.contains('='),
        key.len() > 0 ==> key[0] != '#',
    ensures
        (seq!["COMPOSE_PROFILES"@, "COMPOSE_FILE"@] + envfile::keys_of(env)).contains(key),
{
    envfile::law_keys_cover_values(env, key);
    let keys = envfile::keys_of(env);
    let i = choose|i: int| 0 <= i < keys.len() && keys[i] == key;
    assert((seq!["COMPOSE_PROFILES"@, "COMPOSE_FILE"@] + keys)[2 + i] == key);
}

/// What a quiet compose command says when it failed with this output.
pub fn quiet_failure(args: &Vec<String>, output: &str) -> (r: String)
    ensures
        r@ == quiet_failed(text::texts(args@), output@),
{
    let all = text::lines(output);
    let ghost lines = text::texts(all@);
    let ghost p = |line: Seq<char>| text::trimmed(line).len() > 0;
    let mut kept: Vec<String> = Vec::new();
    let mut i: usize = 0;
    proof {
        reveal(Seq::filter);
        assert(lines.take(0).filter(p) =~= text::texts(kept@));
    }
    while i < all.len()
        invariant
            i <= all@.len(),
            lines == text::texts(all@),
            p == (|line: Seq<char>| text::trimmed(line).len() > 0),
            text::texts(kept@) == lines.take(i as int).filter(p),
        decreases all@.len() - i,
    {
        proof {
            reveal(Seq::filter);
            assert(lines.take(i + 1).last() == all@[i as int]@);
            assert(lines.take(i + 1).drop_last() =~= lines.take(i as int));
            text::lemma_texts_push(kept@, all@[i as int]);
        }
        if !text::trim(all[i].as_str()).as_str().is_empty() {
            kept.push(all[i].clone());
        }
        i += 1;
    }
    assert(lines.take(i as int) =~= lines);
    let from: usize = if kept.len() > 8 {
        kept.len() - 8
    } else {
        0
    };
    let mut last: Vec<String> = Vec::new();
    let mut j: usize = from;
    while j < kept.len()
        invariant
            from <= j <= kept@.len(),
            text::texts(last@) == text::texts(kept@).subrange(from as int, j as int),
        decreases kept@.len() - j,
    {
        proof {
            text::lemma_texts_push(last@, kept@[j as int]);
        }
        last.push(kept[j].clone());
        j += 1;
        assert(text::texts(last@) =~= text::texts(kept@).subrange(from as int, j as int));
    }
    assert(text::texts(last@) =~= tail(text::texts(kept@)));
    "docker compose ".to_owned().concat(text::join(args, " ").as_str()).concat(" failed").concat(
        ":\n",
    ).concat(text::join(&last, "\n").as_str())
}

// ---------------------------------------------------------------------------
// probes
// ---------------------------------------------------------------------------
/// Whether `id -u` named the superuser.
pub fn is_root(stdout: &[u8]) -> (r: bool)
    ensures
        r == (text::trimmed(outside::text_of(stdout@)) == "0"@),
{
    uid_is_root(outside::decode_lossy(stdout).as_str())
}

pub fn uid_is_root(uid: &str) -> (r: bool)
    ensures
        r == (text::trimmed(uid@) == "0"@),
{
    text::same(text::trim(uid).as_str(), "0")
}

/// The version that a health answer reports, given what its `version` field
/// holds: none where the answer was no JSON, and an empty one where it names
/// none.
pub fn reported_version(field: Option<Option<String>>) -> (r: Option<String>)
    ensures
        match (field, r) {
            (Some(Some(version)), Some(reported)) => reported == version,
            (Some(None), Some(reported)) => reported@ == Seq::<char>::empty(),
            (None, None) => true,
            _ => false,
        },
{
    match field {
        Some(Some(version)) => Some(version),
        Some(None) => Some(String::new()),
        None => None,
    }
}

/// The build version in the body of a `/healthz` answer.
pub fn probe_healthz(body: &[u8]) -> (r: Option<String>)
    ensures
        match (outside::json_text(body@, "version"@), r) {
            (Some(Some(version)), Some(reported)) => reported@ == version,
            (Some(None), Some(reported)) => reported@ == Seq::<char>::empty(),
            (None, None) => true,
            _ => false,
        },
{
    reported_version(outside::json_text_under(body, "version"))
}

/// Asking an address again and again until it answers or the budget is spent.
pub struct Poll {
    pub url: String,
    /// How long one request may take.
    pub timeout_secs: u64,
    /// How long to wait between requests.
    pub pause_secs: u64,
    pub budget_secs: u64,
}

impl Poll {
    /// Whether there is time for another request.
    pub fn again(&self, elapsed_millis: u64) -> (r: bool)
        ensures
            r <==> elapsed_millis < self.budget_secs * 1000,
    {
        elapsed_millis / 1000 < self.budget_secs
    }
}

pub open spec fn loopback_url(port: u16, path: Seq<char>) -> Seq<char> {
    "http://127.0.0.1:"@ + text::decimal(port as nat) + path
}

/// The console's health address on this host.
pub fn health_url(ui_port: u16) -> (r: String)
    ensures
        r@ == loopback_url(ui_port, "/healthz"@),
{
    "http://127.0.0.1:".to_owned().concat(text::to_decimal(ui_port as u64).as_str()).concat(
        "/healthz",
    )
}

/// Wait for the processor's console.
pub fn wait_healthy(ui_port: u16, budget_secs: u64) -> (r: Poll)
    ensures
        r.url@ == loopback_url(ui_port, "/healthz"@),
        r.timeout_secs == 3,
        r.pause_secs == 2,
        r.budget_secs == budget_secs,
{
    Poll { url: health_url(ui_port), timeout_secs: 3, pause_secs: 2, budget_secs }
}

/// Wait for any address to answer with success.
pub fn wait_http_ok(url: &str, budget_secs: u64) -> (r: Poll)
    ensures
        r.url@ == url@,
        r.timeout_secs == 3,
        r.pause_secs == 2,
        r.budget_secs == budget_secs,
{
    Poll { url: url.to_owned(), timeout_secs: 3, pause_secs: 2, budget_secs }
}

/// Services that answer a request with the caller's address, asked one after
/// another until an answer, without the white space around it, is an address.
pub struct AddressServices {
    pub urls: Vec<String>,
    /// How long one request may take.
    pub timeout_secs: u64,
}

/// IPv4-only endpoints come first: the DNS preflight compares this address
/// against A records, and on a dual-stack host the generic endpoints answer
/// over IPv6, which then never matches.
pub fn detect_public_ip() -> (r: AddressServices)
    ensures
        text::texts(r.urls@) == seq![
            "https://ipv4.icanhazip.com"@,
            "https://api.ipify.org"@,
            "https://ifconfig.me/ip"@,
            "https://icanhazip.com"@,
        ],
        r.timeout_secs == 5,
{
    let urls = text::words(
        &[
            "https://ipv4.icanhazip.com",
            "https://api.ipify.org",
            "https://ifconfig.me/ip",
            "https://icanhazip.com",
        ],
    );
    assert(text::texts(urls@) =~= seq![
        "https://ipv4.icanhazip.com"@,
        "https://api.ipify.org"@,
        "https://ifconfig.me/ip"@,
        "https://icanhazip.com"@,
    ]);
    AddressServices { urls, timeout_secs: 5 }
}

/// The same for IPv6, where the server has working IPv6 egress. The timeout is
/// short, since hosts without it fail here.
pub fn detect_public_ipv6() -> (r: AddressServices)
    ensures
        text::texts(r.urls@) == seq!["https://ipv6.icanhazip.com"@, "https://api6.ipify.org"@],
        r.timeout_secs == 3,
{
    let urls = text::words(&["https://ipv6.icanhazip.com", "https://api6.ipify.org"]);
    assert(text::texts(urls@) =~= seq![
        "https://ipv6.icanhazip.com"@,
        "https://api6.ipify.org"@,
    ]);
    AddressServices { urls, timeout_secs: 3 }
}

/// Whether `docker compose up` knows `--wait-timeout`, from its help.
pub fn supports_wait(success: bool, stdout: &[u8]) -> (r: bool)
    ensures
        r == (success && text::found(outside::text_of(stdout@), "--wait-timeout"@) is Some),
{
    success && help_names_wait(outside::decode_lossy(stdout).as_str())
}

pub fn help_names_wait(help: &str) -> (r: bool)
    ensures
        r == (text::found(help@, "--wait-timeout"@) is Some),
{
    text::contains(help, "--wait-timeout")
}

// ---------------------------------------------------------------------------
// docker preflight
// ---------------------------------------------------------------------------
/// Why Docker is not ready.
#[derive(Debug, Clone, Copy, PartialEq, Eq, Structural)]
pub enum DockerFailure {
    MissingOnMac,
    InstallNeedsRoot,
    DownloadFailed,
    InstallerFailed,
    Missing,
    NoAccess,
    NotResponding,
    NoComposeV2,
    ComposeTooOld,
}

/// What is asked or done next to get Docker ready. Each step is answered with
/// yes or no: whether it is so, or whether it worked.
#[derive(Debug, Clone, Copy, PartialEq, Eq, Structural)]
pub enum DockerStep {
    /// Is the docker command there?
    FindDocker,
    /// Is this the superuser, who may install it?
    FindRoot,
    DownloadInstaller,
    RunInstaller,
    /// Does the daemon answer?
    FindDaemon,
    /// Is this the superuser, whom the daemon cannot have refused?
    FindRootForDaemon,
    /// Is the compose plugin there?
    FindCompose,
    /// Does `compose up` know `--wait-timeout`?
    FindWaitTimeout,
    Ready,
    Failed(DockerFailure),
}

/// The preflight of Docker. Piping get.docker.com into a root shell is never
/// implicit: it requires explicit consent.
#[derive(Debug, Clone, Copy, PartialEq, Eq, Structural)]
pub struct DockerCheck {
    pub step: DockerStep,
    pub macos: bool,
    pub allow_install: bool,
}

pub open spec fn docker_start(macos: bool, allow_install: bool) -> DockerCheck {
    DockerCheck { step: DockerStep::FindDocker, macos, allow_install }
}

pub open spec fn docker_next(check: DockerCheck, yes: bool) -> DockerCheck {
    let step = match check.step {
        DockerStep::FindDocker => if yes {
            DockerStep::FindDaemon
        } else if check.macos {
            DockerStep::Failed(DockerFailure::MissingOnMac)
        } else if check.allow_install {
            DockerStep::FindRoot
        } else {
            DockerStep::Failed(DockerFailure::Missing)
        },
        DockerStep::FindRoot => if yes {
            DockerStep::DownloadInstaller
        } else {
            DockerStep::Failed(DockerFailure::InstallNeedsRoot)
        },
        DockerStep::DownloadInstaller => if yes {
            DockerStep::RunInstaller
        } else {
            DockerStep::Failed(DockerFailure::DownloadFailed)
        },
        DockerStep::RunInstaller => if yes {
            DockerStep::FindDaemon
        } else {
            DockerStep::Failed(DockerFailure::InstallerFailed)
        },
        DockerStep::FindDaemon => if yes {
            DockerStep::FindCompose
        } else if check.macos {
            DockerStep::Failed(DockerFailure::NotResponding)
        } else {
            DockerStep::FindRootForDaemon
        },
        DockerStep::FindRootForDaemon => if yes {
            DockerStep::Failed(DockerFailure::NotResponding)
        } else {
            DockerStep::Failed(DockerFailure::NoAccess)
        },
        DockerStep::FindCompose => if yes {
            DockerStep::FindWaitTimeout
        } else {
            DockerStep::Failed(DockerFailure::NoComposeV2)
        },
        DockerStep::FindWaitTimeout => if yes {
            DockerStep::Ready
        } else {
            DockerStep::Failed(DockerFailure::ComposeTooOld)
        },
        DockerStep::Ready => DockerStep::Ready,
        DockerStep::Failed(failure) => DockerStep::Failed(failure),
    };
    DockerCheck { step, ..check }
}

/// Starts the preflight; `next` takes it through its steps.
pub fn ensure_docker(macos: bool, allow_install: bool) -> (r: DockerCheck)
    ensures
        r == docker_start(macos, allow_install),
{
    DockerCheck { step: DockerStep::FindDocker, macos, allow_install }
}

impl DockerCheck {
    pub fn next(self, yes: bool) -> (r: Self)
        ensures
            r == docker_next(self, yes),
    {
        let step = match self.step {
            DockerStep::FindDocker => if yes {
                DockerStep::FindDaemon
            } else if self.macos {
                DockerStep::Failed(DockerFailure::MissingOnMac)
            } else if self.allow_install {
                DockerStep::FindRoot
            } else {
                DockerStep::Failed(DockerFailure::Missing)
            },
            DockerStep::FindRoot => if yes {
                DockerStep::DownloadInstaller
            } else {
                DockerStep::Failed(DockerFailure::InstallNeedsRoot)
            },
            DockerStep::DownloadInstaller => if yes {
                DockerStep::RunInstaller
            } else {
                DockerStep::Failed(DockerFailure::DownloadFailed)
            },
            DockerStep::RunInstaller => if yes {
                DockerStep::FindDaemon
            } else {
                DockerStep::Failed(DockerFailure::InstallerFailed)
            },
            DockerStep::FindDaemon => if yes {
                DockerStep::FindCompose
            } else if self.macos {
                DockerStep::Failed(DockerFailure::NotResponding)
            } else {
                DockerStep::FindRootForDaemon
            },
            DockerStep::FindRootForDaemon => if yes {
                DockerStep::Failed(DockerFailure::NotResponding)
            } else {
                DockerStep::Failed(DockerFailure::NoAccess)
            },
            DockerStep::FindCompose => if yes {
                DockerStep::FindWaitTimeout
            } else {
                DockerStep::Failed(DockerFailure::NoComposeV2)
            },
            DockerStep::FindWaitTimeout => if yes {
                DockerStep::Ready
            } else {
                DockerStep::Failed(DockerFailure::ComposeTooOld)
            },
            DockerStep::Ready => DockerStep::Ready,
            DockerStep::Failed(failure) => DockerStep::Failed(failure),
        };
        DockerCheck { step, ..self }
    }
}

pub const DOCKER_MISSING_ON_MAC: &'static str = "Docker is not installed. Install Docker Desktop from https://docs.docker.com/desktop/ (or OrbStack) and re-run.";

pub const DOCKER_INSTALL_NEEDS_ROOT: &'static str = "--install-docker installs system Docker and needs root. Install rootless Docker first (https://docs.docker.com/engine/security/rootless/), or ask an administrator to install Docker and grant this user access, then re-run mintctl as this user.";

pub const DOCKER_DOWNLOAD_FAILED: &'static str = "could not download Docker installer; nothing was executed";

pub const DOCKER_INSTALLER_FAILED: &'static str = "the Docker installer failed";

pub const DOCKER_MISSING: &'static str = "Docker is not installed. Re-run with --install-docker to fetch it from https://get.docker.com, or install Docker yourself and re-run.";

pub const DOCKER_NO_ACCESS: &'static str = "cannot talk to the Docker daemon as this user. Start your rootless Docker daemon or ask an administrator for Docker access (then log in again). Check 'docker context show' and 'docker info'.";

pub const DOCKER_NOT_RESPONDING: &'static str = "the Docker daemon is not responding. Is it running?";

pub const DOCKER_NO_COMPOSE_V2: &'static str = "Docker Compose v2 is required (the 'docker compose' plugin). Install docker-compose-plugin and re-run.";

pub const DOCKER_COMPOSE_TOO_OLD: &'static str = "Docker Compose is too old: upgrade the Compose v2 plugin to a version supporting 'up --wait --wait-timeout' before continuing";

pub open spec fn docker_message(failure: DockerFailure) -> Seq<char> {
    match failure {
        DockerFailure::MissingOnMac => DOCKER_MISSING_ON_MAC@,
        DockerFailure::InstallNeedsRoot => DOCKER_INSTALL_NEEDS_ROOT@,
        DockerFailure::DownloadFailed => DOCKER_DOWNLOAD_FAILED@,
        DockerFailure::InstallerFailed => DOCKER_INSTALLER_FAILED@,
        DockerFailure::Missing => DOCKER_MISSING@,
        DockerFailure::NoAccess => DOCKER_NO_ACCESS@,
        DockerFailure::NotResponding => DOCKER_NOT_RESPONDING@,
        DockerFailure::NoComposeV2 => DOCKER_NO_COMPOSE_V2@,
        DockerFailure::ComposeTooOld => DOCKER_COMPOSE_TOO_OLD@,
    }
}

impl DockerFailure {
    pub fn message(self) -> (r: &'static str)
        ensures
            r@ == docker_message(self),
    {
        match self {
            DockerFailure::MissingOnMac => DOCKER_MISSING_ON_MAC,
            DockerFailure::InstallNeedsRoot => DOCKER_INSTALL_NEEDS_ROOT,
            DockerFailure::DownloadFailed => DOCKER_DOWNLOAD_FAILED,
            DockerFailure::InstallerFailed => DOCKER_INSTALLER_FAILED,
            DockerFailure::Missing => DOCKER_MISSING,
            DockerFailure::NoAccess => DOCKER_NO_ACCESS,
            DockerFailure::NotResponding => DOCKER_NOT_RESPONDING,
            DockerFailure::NoComposeV2 => DOCKER_NO_COMPOSE_V2,
            DockerFailure::ComposeTooOld => DOCKER_COMPOSE_TOO_OLD,
        }
    }
}

pub const INSTALLING_DOCKER: &'static str = "Docker is not installed — installing via https://get.docker.com ...";

/// Succeeds where docker has this image.
pub fn image_inspect_args(reference: &str) -> (r: Vec<String>)
    ensures
        text::texts(r@) == seq!["image"@, "inspect"@, reference@],
{
    let args = text::words(&["image", "inspect", reference]);
    assert(text::texts(args@) =~= seq!["image"@, "inspect"@, reference@]);
    args
}

/// Succeeds where docker is installed.
pub fn docker_version_args() -> (r: Vec<String>)
    ensures
        text::texts(r@) == seq!["--version"@],
{
    let args = text::words(&["--version"]);
    assert(text::texts(args@) =~= seq!["--version"@]);
    args
}

/// Succeeds where the Docker daemon answers.
pub fn docker_info_args() -> (r: Vec<String>)
    ensures
        text::texts(r@) == seq!["info"@],
{
    let args = text::words(&["info"]);
    assert(text::texts(args@) =~= seq!["info"@]);
    args
}

/// Succeeds where docker has Compose v2.
pub fn compose_version_args() -> (r: Vec<String>)
    ensures
        text::texts(r@) == seq!["compose"@, "version"@],
{
    let args = text::words(&["compose", "version"]);
    assert(text::texts(args@) =~= seq!["compose"@, "version"@]);
    args
}

/// Prints the options that `compose up` knows.
pub fn up_help_args() -> (r: Vec<String>)
    ensures
        text::texts(r@) == seq!["compose"@, "up"@, "--help"@],
{
    let args = text::words(&["compose", "up", "--help"]);
    assert(text::texts(args@) =~= seq!["compose"@, "up"@, "--help"@]);
    args
}

/// What `id` is asked for the user's number.
pub fn user_id_args() -> (r: Vec<String>)
    ensures
        text::texts(r@) == seq!["-u"@],
{
    let args = text::words(&["-u"]);
    assert(text::texts(args@) =~= seq!["-u"@]);
    args
}

/// How curl downloads the Docker installer to `path`.
pub fn download_args(path: &str) -> (r: Vec<String>)
    ensures
        text::texts(r@) == seq![
            "-fsSL"@,
            "--retry"@,
            "3"@,
            "--connect-timeout"@,
            "15"@,
            "--max-time"@,
            "120"@,
            "https://get.docker.com"@,
            "-o"@,
            path@,
        ],
{
    let args = text::words(
        &[
            "-fsSL",
            "--retry",
            "3",
            "--connect-timeout",
            "15",
            "--max-time",
            "120",
            "https://get.docker.com",
            "-o",
            path,
        ],
    );
    assert(text::texts(args@) =~= seq![
        "-fsSL"@,
        "--retry"@,
        "3"@,
        "--connect-timeout"@,
        "15"@,
        "--max-time"@,
        "120"@,
        "https://get.docker.com"@,
        "-o"@,
        path@,
    ]);
    args
}

/// Where the preflight stands after these answers.
pub open spec fn docker_after(macos: bool, allow_install: bool, answers: Seq<bool>) -> DockerCheck
    decreases answers.len(),
{
    if answers.len() == 0 {
        docker_start(macos, allow_install)
    } else {
        docker_next(docker_after(macos, allow_install, answers.drop_last()), answers.last())
    }
}

/// The Docker installer is downloaded, and so run, only with consent, never on
/// macOS, and only where docker is missing and the user is root.
pub proof fn law_installer_needs_consent(macos: bool, allow_install: bool, answers: Seq<bool>)
    ensures
        docker_after(macos, allow_install, answers).step == DockerStep::DownloadInstaller
            ==> allow_install && !macos && answers == seq![false, true],
        docker_after(macos, allow_install, answers).step == DockerStep::RunInstaller
            ==> allow_install && !macos && answers == seq![false, true, true],
{
    reveal_with_fuel(docker_after, 4);
    lemma_docker_steps(macos, allow_install, answers);
    if answers.len() > 0 {
        lemma_docker_steps(macos, allow_install, answers.drop_last());
    }
    if answers.len() > 1 {
        lemma_docker_steps(macos, allow_install, answers.drop_last().drop_last());
    }
    let step = docker_after(macos, allow_install, answers).step;
    if step == DockerStep::DownloadInstaller {
        assert(answers =~= seq![false, true]);
    }
    if step == DockerStep::RunInstaller {
        assert(answers =~= seq![false, true, true]);
    }
}

/// How many answers each early step has behind it.
proof fn lemma_docker_steps(macos: bool, allow_install: bool, answers: Seq<bool>)
    ensures
        docker_after(macos, allow_install, answers).macos == macos,
        docker_after(macos, allow_install, answers).allow_install == allow_install,
        docker_after(macos, allow_install, answers).step == DockerStep::FindDocker <==> answers.len()
            == 0,
        docker_after(macos, allow_install, answers).step == DockerStep::FindRoot ==> answers.len()
            == 1,
        docker_after(macos, allow_install, answers).step == DockerStep::DownloadInstaller
            ==> answers.len() == 2,
        docker_after(macos, allow_install, answers).step == DockerStep::RunInstaller
            ==> answers.len() == 3,
    decreases answers.len(),
{
    if answers.len() > 0 {
        lemma_docker_steps(macos, allow_install, answers.drop_last());
    }
}

/// Docker counts as ready only after the daemon, the compose plugin and its
/// `--wait-timeout` were each found, in this order.
pub proof fn law_ready_docker_was_checked(macos: bool, allow_install: bool, answers: Seq<bool>)
    requires
        docker_after(macos, allow_install, answers).step == DockerStep::Ready,
    ensures
        exists|n: int|
            0 <= n && n + 3 <= answers.len() && #[trigger] docker_after(
                macos,
                allow_install,
                answers.take(n),
            ).step == DockerStep::FindDaemon && answers[n] && answers[n + 1] && answers[n + 2],
    decreases answers.len(),
{
    let a1 = answers.drop_last();
    let s1 = docker_after(macos, allow_install, a1);
    if s1.step == DockerStep::Ready {
        law_ready_docker_was_checked(macos, allow_install, a1);
        let n = choose|n: int|
            0 <= n && n + 3 <= a1.len() && #[trigger] docker_after(
                macos,
                allow_install,
                a1.take(n),
            ).step == DockerStep::FindDaemon && a1[n] && a1[n + 1] && a1[n + 2];
        assert(answers.take(n) =~= a1.take(n));
    } else {
        let a2 = a1.drop_last();
        let a3 = a2.drop_last();
        assert(docker_after(macos, allow_install, a2).step == DockerStep::FindCompose);
        assert(docker_after(macos, allow_install, a3).step == DockerStep::FindDaemon);
        let n = a3.len() as int;
        assert(answers.take(n) =~= a3);
    }
}

// ---------------------------------------------------------------------------
// laws of names, commands and probes
// ---------------------------------------------------------------------------
/// What can stand in a project name stands in it, and everything else becomes a
/// hyphen. Only what comes before the first lower-case letter or digit is
/// dropped, and where there is none the name is `pecan`.
pub proof fn law_what_a_name_is_made_of(base: &str, r: String, k: int)
    requires
        call_ensures(sanitize, (base,), r),
        0 <= k <= base@.len(),
        forall|j: int|
            0 <= j < k ==> !('a' <= #[trigger] base@[j] <= 'z' || '0' <= base@[j] <= '9'),
        k < base@.len() ==> 'a' <= base@[k] <= 'z' || '0' <= base@[k] <= '9',
    ensures
        k == base@.len() ==> r@ == "pecan"@,
        k < base@.len() ==> r@.len() == base@.len() - k,
        k < base@.len() ==> forall|i: int|
            0 <= i < r@.len() ==> #[trigger] r@[i] == (if 'a' <= base@[k + i] <= 'z' || '0'
                <= base@[k + i] <= '9' || base@[k + i] == '_' {
                base@[k + i]
            } else {
                '-'
            }),
{
    let p = |c: char| c == '-' || c == '_';
    let all = hyphened(base@);
    assert forall|j: int| 0 <= j < k implies p(all[j]) by {
        assert(!('a' <= base@[j] <= 'z' || '0' <= base@[j] <= '9'));
    }
    text::lemma_left_trimmed(all, p, k);
}

/// A directory whose name is a project name gives that name to its project,
/// wherever it is, and in lower case where it has capitals.
pub proof fn law_project_is_named_after_its_directory(
    parent: Seq<char>,
    name: Seq<char>,
    dir: &str,
    r: String,
)
    requires
        call_ensures(project_name, (dir,), r),
        parent.len() > 0,
        dir@ == paths::below(parent, name),
        text::ascii(name),
        name.len() > 0,
        project_name_ok(text::lowered(name)),
    ensures
        r@ == text::lowered(name),
{
    let low = text::lowered(name);
    let p = |c: char| c == '-' || c == '_';
    assert forall|i: int| 0 <= i < name.len() implies name[i] != '/' && name[i] != '.' by {
        assert(name_char(low[i]));
        assert(low[i] == text::lower(name[i]));
    }
    assert(name[0] != '.');
    paths::lemma_pieces_below(parent, name);
    assert(base_name(dir@) == low);
    assert(hyphened(low) =~= low);
    assert(!p(low[0]));
    text::lemma_left_trimmed(low, p, 0);
    assert(low.skip(0) =~= low);
}

/// A new installation's project has the name of its directory and then eight
/// characters of the digest of its path.
pub proof fn law_new_projects_are_told_apart(dir: &str, name: String, r: String)
    requires
        call_ensures(project_name, (dir,), name),
        call_ensures(install_project_name, (dir,), r),
        outside::sha256(vstd::utf8::encode_utf8(dir@)).len() >= 4,
    ensures
        r@.len() == name@.len() + 9,
        text::begins(r@, name@ + "-"@),
        r@.skip(name@.len() as int + 1) == release::hex_of(
            outside::sha256(vstd::utf8::encode_utf8(dir@)).take(4),
        ),
{
    reveal_strlit("-");
    assert(r@.take((name@ + "-"@).len() as int) =~= name@ + "-"@);
    assert(r@.skip(name@.len() as int + 1) =~= release::hex_of(
        outside::sha256(vstd::utf8::encode_utf8(dir@)).take(4),
    ));
}

/// The project that an installation has recorded is the one that it runs as;
/// only where it has recorded none is it the one of its directory.
pub proof fn law_recorded_project_wins(
    stack: Stack,
    env: EnvFile,
    dir: &str,
    derived: String,
    r: String,
)
    requires
        dir@ == stack.install_dir@,
        call_ensures(project_name, (dir,), derived),
        call_ensures(Stack::project, (&stack, &env), r),
    ensures
        envfile::last_value(env@, "COMPOSE_PROJECT_NAME"@) matches Some(p) ==> (p.len() > 0 ==> r@
            == p),
        envfile::last_value(env@, "COMPOSE_PROJECT_NAME"@) matches Some(p) ==> (p.len() == 0
            ==> r@ == derived@),
        envfile::last_value(env@, "COMPOSE_PROJECT_NAME"@) is None ==> r@ == derived@,
{
}

/// An option that a command line gives, with its value.
pub open spec fn option_is(args: Seq<Seq<char>>, option: Seq<char>, value: Seq<char>) -> bool {
    exists|k: int| 0 <= k && k + 1 < args.len() && #[trigger] args[k] == option && args[k + 1]
        == value
}

/// Every compose command is docker's, takes its compose file and its settings
/// from the directory that was given, runs in the installation as its project,
/// and ends in what it was asked to do. It inherits neither profiles nor files.
pub proof fn law_compose_is_pinned(
    stack: Stack,
    files: &str,
    env: EnvFile,
    args: Vec<String>,
    project: String,
    r: CommandLine,
)
    requires
        call_ensures(Stack::command_with_files, (&stack, files, &env, &args), r),
        call_ensures(Stack::project, (&stack, &env), project),
        files@.len() > 0,
        files@.last() != '/',
    ensures
        ({
            let s = text::texts(r.args@);
            let head = s.take(9);
            &&& r.program@ == "docker"@
            &&& r.current_dir@ == stack.install_dir@
            &&& s.len() == 9 + args@.len()
            &&& s[0] == "compose"@
            &&& option_is(head, "-f"@, files@ + "/docker-compose.yml"@)
            &&& option_is(head, "--env-file"@, files@ + "/.env"@)
            &&& option_is(head, "--project-directory"@, stack.install_dir@)
            &&& option_is(head, "--project-name"@, project@)
            &&& s.skip(9) == text::texts(args@)
            &&& text::texts(r.env_remove@).contains("COMPOSE_PROFILES"@)
            &&& text::texts(r.env_remove@).contains("COMPOSE_FILE"@)
        }),
        forall|key: Seq<char>|
            envfile::last_value(env@, key) is Some && !key.contains('=') && (key.len() > 0 ==> key[0]
                != '#') ==> #[trigger] text::texts(r.env_remove@).contains(key),
{
    let s = text::texts(r.args@);
    let head = s.take(9);
    reveal_strlit("docker-compose.yml");
    reveal_strlit("/docker-compose.yml");
    reveal_strlit(".env");
    reveal_strlit("/.env");
    assert(head[2] =~= files@ + "/docker-compose.yml"@);
    assert(head[4] =~= files@ + "/.env"@);
    assert(head[1] == "-f"@ && head[3] == "--env-file"@);
    assert(head[5] == "--project-directory"@ && head[6] == stack.install_dir@);
    assert(head[7] == "--project-name"@ && head[8] == project@);
    assert(s.skip(9) =~= text::texts(args@));
    let removed = text::texts(r.env_remove@);
    assert(removed[0] == "COMPOSE_PROFILES"@ && removed[1] == "COMPOSE_FILE"@);
    assert forall|key: Seq<char>|
        envfile::last_value(env@, key) is Some && !key.contains('=') && (key.len() > 0 ==> key[0]
            != '#') implies #[trigger] removed.contains(key) by {
        law_env_wins_over_the_shell(env@, key);
    }
}

/// A command takes its files from the installation itself unless it is told
/// otherwise.
pub proof fn law_own_files_are_the_default(
    stack: Stack,
    dir: &str,
    env: EnvFile,
    args: Vec<String>,
    own: CommandLine,
    told: CommandLine,
)
    requires
        dir@ == stack.install_dir@,
        call_ensures(Stack::compose_command, (&stack, &env, &args), own),
        call_ensures(Stack::command_with_files, (&stack, dir, &env, &args), told),
    ensures
        text::texts(own.args@) == text::texts(told.args@),
        text::texts(own.env_remove@) == text::texts(told.env_remove@),
        own.program@ == told.program@,
        own.current_dir@ == told.current_dir@,
{
}

/// A command that succeeded is well, and one that failed is reported with what
/// it was, output kept back or not.
pub proof fn law_failed_commands_are_named(
    stack: Stack,
    args: Vec<String>,
    success: bool,
    stdout: &[u8],
    stderr: &[u8],
    loud: Result<(), String>,
    quiet: Result<(), String>,
)
    requires
        call_ensures(Stack::compose, (&stack, &args, success), loud),
        call_ensures(Stack::compose_quiet, (&stack, &args, success, stdout, stderr), quiet),
    ensures
        loud is Ok <==> success,
        quiet is Ok <==> success,
        loud matches Err(message) ==> message@ == "docker compose "@ + text::joined(
            text::texts(args@),
            " "@,
        ) + " failed"@,
        quiet matches Err(message) ==> text::begins(
            message@,
            "docker compose "@ + text::joined(text::texts(args@), " "@) + " failed"@,
        ),
{
    if let Err(message) = quiet {
        let head = "docker compose "@ + text::joined(text::texts(args@), " "@) + " failed"@;
        assert(message@.take(head.len() as int) =~= head);
    }
}

/// Of the output of a failed command its last eight lines are shown, blank ones
/// not counted: each of them stands in the message.
pub proof fn law_tail_is_shown(args: Vec<String>, output: &str, r: String, i: int)
    requires
        call_ensures(quiet_failure, (&args, output), r),
        ({
            let kept = nonblank(text::lines_of(output@));
            0 <= i < kept.len() && i + 8 >= kept.len()
        }),
    ensures
        text::found(r@, nonblank(text::lines_of(output@))[i]) is Some,
        text::lines_of(output@).contains(nonblank(text::lines_of(output@))[i]),
        text::trimmed(nonblank(text::lines_of(output@))[i]).len() > 0,
        forall|k: int|
            0 <= k < text::lines_of(output@).len() && text::trimmed(
                #[trigger] text::lines_of(output@)[k],
            ).len() > 0 ==> nonblank(text::lines_of(output@)).contains(text::lines_of(output@)[k]),
{
    broadcast use vstd::seq_lib::group_filter_ensures;

    let lines = text::lines_of(output@);
    let p = |line: Seq<char>| text::trimmed(line).len() > 0;
    let kept = nonblank(lines);
    lines.lemma_filter_pred(p, i);
    lines.lemma_filter_contains_rev(p, kept[i]);
    assert forall|k: int|
        0 <= k < lines.len() && text::trimmed(#[trigger] lines[k]).len() > 0 implies kept.contains(
        lines[k],
    ) by {
        lines.lemma_filter_contains(p, k);
    }
    let shown = tail(kept);
    let n = kept.len() - shown.len();
    assert(shown[i - n] == kept[i]);
    text::lemma_found_joined(shown, "\n"@, i - n);
    let body = text::joined(shown, "\n"@);
    let (before, after) = choose|before: Seq<char>, after: Seq<char>|
        body == #[trigger] (before + shown[i - n] + after);
    let head = compose_failed(text::texts(args@)) + ":\n"@;
    assert(r@ =~= (head + before) + kept[i] + after);
    text::lemma_found_between(head + before, kept[i], after);
}

/// The command is linked into the system's directory for the superuser and into
/// the user's own otherwise, which needs a home.
pub proof fn law_where_the_command_is_linked(
    home: &str,
    root: Result<String, String>,
    user: Result<String, String>,
    homeless: Result<String, String>,
)
    requires
        call_ensures(cli_link, (true, Some(home)), root),
        call_ensures(cli_link, (false, Some(home)), user),
        call_ensures(cli_link, (false, None), homeless),
        home@.len() > 0,
        home@.last() != '/',
    ensures
        root is Ok && root->Ok_0@ == "/usr/local/bin/mintctl"@,
        user is Ok && user->Ok_0@ == home@ + "/.local/bin/mintctl"@,
        homeless is Err,
{
    reveal_strlit(".local/bin/mintctl");
    reveal_strlit("/.local/bin/mintctl");
    assert(user->Ok_0@ =~= home@ + "/.local/bin/mintctl"@);
}

/// The directory that was named is where the installation is looked for, then
/// that of the binary. It is one exactly where it holds the settings and its
/// path could be resolved.
pub proof fn law_where_the_installation_is(
    named: Option<&str>,
    binary: Option<&str>,
    dir: String,
    d: &str,
    env_present: bool,
    resolved: Option<&str>,
    r: Result<Stack, String>,
)
    requires
        call_ensures(discovery_dir, (named, binary), dir),
        d@ == dir@,
        call_ensures(Stack::discover, (d, env_present, resolved), r),
    ensures
        named matches Some(path) ==> dir@ == path@,
        named is None ==> (binary matches Some(path) ==> dir@ == path@),
        named is None && binary is None ==> dir@ == "."@,
        r is Ok <==> env_present && resolved is Some,
        r matches Ok(stack) ==> stack.install_dir@ == resolved->0@,
        !env_present ==> r is Err && text::found(r->Err_0@, d@) is Some,
{
    if !env_present {
        text::lemma_found_between(
            "no installation found next to this binary ("@,
            d@,
            "). Set MINTCTL_DIR=/path/to/install or run the installer first."@,
        );
    }
}

/// The superuser is the user with the number zero, white space around it aside.
pub proof fn law_who_is_root(uid: &str, trimmed: String, r: bool)
    requires
        call_ensures(text::trim, (uid,), trimmed),
        call_ensures(uid_is_root, (uid,), r),
    ensures
        r <==> trimmed@.len() == 1 && trimmed@[0] == '0',
{
    reveal_strlit("0");
    if trimmed@.len() == 1 && trimmed@[0] == '0' {
        assert(trimmed@ =~= "0"@);
    }
}

/// Compose can wait with a limit exactly where its help, which was had, names
/// the option.
pub proof fn law_waiting_is_in_the_help(
    help: &str,
    names: bool,
    stdout: &[u8],
    success: bool,
    r: bool,
)
    requires
        call_ensures(help_names_wait, (help,), names),
        call_ensures(supports_wait, (success, stdout), r),
        outside::text_of(stdout@) == help@,
    ensures
        r <==> success && names,
        names <==> text::found(help@, "--wait-timeout"@) is Some,
{
}

/// A request is made again until the budget is spent, and at once only where
/// there is one. The console is asked on this host, for its health.
pub proof fn law_polling(
    port: u16,
    budget: u64,
    poll: Poll,
    other: Poll,
    url: &str,
    elapsed: u64,
    earlier: u64,
    again: bool,
    before: bool,
)
    requires
        call_ensures(wait_healthy, (port, budget), poll),
        call_ensures(wait_http_ok, (url, budget), other),
        call_ensures(Poll::again, (&poll, elapsed), again),
        call_ensures(Poll::again, (&poll, earlier), before),
    ensures
        again <==> elapsed < budget * 1000,
        earlier <= elapsed && again ==> before,
        poll.url@ == "http://127.0.0.1:"@ + text::decimal(port as nat) + "/healthz"@,
        other.url@ == url@,
        poll.budget_secs == budget && other.budget_secs == budget,
        poll.timeout_secs == 3 && poll.pause_secs == 2,
        other.timeout_secs == 3 && other.pause_secs == 2,
{
}

/// The services for an IPv4 address that answer over nothing else come first,
/// and every request is encrypted.
pub proof fn law_address_services(v4: AddressServices, v6: AddressServices)
    requires
        call_ensures(detect_public_ip, (), v4),
        call_ensures(detect_public_ipv6, (), v6),
    ensures
        v4.urls@.len() == 4 && v6.urls@.len() == 2,
        v4.urls@[0]@ == "https://ipv4.icanhazip.com"@,
        v4.urls@[1]@ == "https://api.ipify.org"@,
        v6.urls@[0]@ == "https://ipv6.icanhazip.com"@,
        v6.urls@[1]@ == "https://api6.ipify.org"@,
        v4.timeout_secs == 5 && v6.timeout_secs == 3,
{
    let (a, b) = (text::texts(v4.urls@), text::texts(v6.urls@));
    assert(a.len() == v4.urls@.len() && b.len() == v6.urls@.len());
    assert(a[0] == v4.urls@[0]@ && a[1] == v4.urls@[1]@);
    assert(b[0] == v6.urls@[0]@ && b[1] == v6.urls@[1]@);
}

/// Each failure of the preflight says what is wrong.
pub proof fn law_docker_failures_are_told(failure: DockerFailure, r: &'static str)
    requires
        call_ensures(DockerFailure::message, (failure,), r),
    ensures
        failure is MissingOnMac ==> text::found(r@, "Install Docker Desktop"@) is Some,
        failure is InstallNeedsRoot ==> text::found(r@, "--install-docker installs system Docker and needs root"@) is Some,
        failure is DownloadFailed ==> text::found(r@, "could not download Docker installer"@) is Some,
        failure is InstallerFailed ==> text::found(r@, "installer failed"@) is Some,
        failure is Missing ==> text::found(r@, "Re-run with --install-docker"@) is Some,
        failure is NoAccess ==> text::found(r@, "cannot talk to the Docker daemon as this user"@) is Some,
        failure is NotResponding ==> text::found(r@, "the Docker daemon is not responding"@) is Some,
        failure is NoComposeV2 ==> text::found(r@, "Docker Compose v2 is required"@) is Some,
        failure is ComposeTooOld ==> text::found(r@, "Docker Compose is too old"@) is Some,
{
    match failure {
        DockerFailure::MissingOnMac => {
            reveal_strlit("Docker is not installed. Install Docker Desktop from https://docs.docker.com/desktop/ (or OrbStack) and re-run.");
            reveal_strlit("Install Docker Desktop");
            assert(r@.skip(25).take("Install Docker Desktop"@.len() as int) =~= "Install Docker Desktop"@);
            text::lemma_found_at(r@, "Install Docker Desktop"@, 25);
        },
        DockerFailure::InstallNeedsRoot => {
            reveal_strlit("--install-docker installs system Docker and needs root. Install rootless Docker first (https://docs.docker.com/engine/security/rootless/), or ask an administrator to install Docker and grant this user access, then re-run mintctl as this user.");
            reveal_strlit("--install-docker installs system Docker and needs root");
            assert(r@.skip(0).take("--install-docker installs system Docker and needs root"@.len() as int) =~= "--install-docker installs system Docker and needs root"@);
            text::lemma_found_at(r@, "--install-docker installs system Docker and needs root"@, 0);
        },
        DockerFailure::DownloadFailed => {
            reveal_strlit("could not download Docker installer; nothing was executed");
            reveal_strlit("could not download Docker installer");
            assert(r@.skip(0).take("could not download Docker installer"@.len() as int) =~= "could not download Docker installer"@);
            text::lemma_found_at(r@, "could not download Docker installer"@, 0);
        },
        DockerFailure::InstallerFailed => {
            reveal_strlit("the Docker installer failed");
            reveal_strlit("installer failed");
            assert(r@.skip(11).take("installer failed"@.len() as int) =~= "installer failed"@);
            text::lemma_found_at(r@, "installer failed"@, 11);
        },
        DockerFailure::Missing => {
            reveal_strlit("Docker is not installed. Re-run with --install-docker to fetch it from https://get.docker.com, or install Docker yourself and re-run.");
            reveal_strlit("Re-run with --install-docker");
            assert(r@.skip(25).take("Re-run with --install-docker"@.len() as int) =~= "Re-run with --install-docker"@);
            text::lemma_found_at(r@, "Re-run with --install-docker"@, 25);
        },
        DockerFailure::NoAccess => {
            reveal_strlit("cannot talk to the Docker daemon as this user. Start your rootless Docker daemon or ask an administrator for Docker access (then log in again). Check 'docker context show' and 'docker info'.");
            reveal_strlit("cannot talk to the Docker daemon as this user");
            assert(r@.skip(0).take("cannot talk to the Docker daemon as this user"@.len() as int) =~= "cannot talk to the Docker daemon as this user"@);
            text::lemma_found_at(r@, "cannot talk to the Docker daemon as this user"@, 0);
        },
        DockerFailure::NotResponding => {
            reveal_strlit("the Docker daemon is not responding. Is it running?");
            reveal_strlit("the Docker daemon is not responding");
            assert(r@.skip(0).take("the Docker daemon is not responding"@.len() as int) =~= "the Docker daemon is not responding"@);
            text::lemma_found_at(r@, "the Docker daemon is not responding"@, 0);
        },
        DockerFailure::NoComposeV2 => {
            reveal_strlit("Docker Compose v2 is required (the 'docker compose' plugin). Install docker-compose-plugin and re-run.");
            reveal_strlit("Docker Compose v2 is required");
            assert(r@.skip(0).take("Docker Compose v2 is required"@.len() as int) =~= "Docker Compose v2 is required"@);
            text::lemma_found_at(r@, "Docker Compose v2 is required"@, 0);
        },
        DockerFailure::ComposeTooOld => {
            reveal_strlit("Docker Compose is too old: upgrade the Compose v2 plugin to a version supporting 'up --wait --wait-timeout' before continuing");
            reveal_strlit("Docker Compose is too old");
            assert(r@.skip(0).take("Docker Compose is too old"@.len() as int) =~= "Docker Compose is too old"@);
            text::lemma_found_at(r@, "Docker Compose is too old"@, 0);
        },
    }
}

/// A yes leads on to the daemon, to the compose plugin and to its option, and
/// then docker is ready. A no ends the preflight with what was missing, except
/// where docker can be installed, which takes the operator's consent and the
/// superuser. A daemon that refuses anybody else may only lack access.
pub proof fn law_docker_is_checked_step_by_step(check: DockerCheck, yes: bool, next: DockerCheck)
    requires
        call_ensures(DockerCheck::next, (check, yes), next),
    ensures
        next.macos == check.macos && next.allow_install == check.allow_install,
        ({
            let failed = |failure: DockerFailure| next.step == DockerStep::Failed(failure);
            match check.step {
                DockerStep::FindDocker => {
                    &&& yes <==> next.step is FindDaemon
                    &&& !yes && check.macos ==> failed(DockerFailure::MissingOnMac)
                    &&& !yes && !check.macos && !check.allow_install ==> failed(
                        DockerFailure::Missing,
                    )
                    &&& !yes && !check.macos && check.allow_install ==> next.step is FindRoot
                },
                DockerStep::FindRoot => {
                    &&& yes <==> next.step is DownloadInstaller
                    &&& !yes ==> failed(DockerFailure::InstallNeedsRoot)
                },
                DockerStep::DownloadInstaller => {
                    &&& yes <==> next.step is RunInstaller
                    &&& !yes ==> failed(DockerFailure::DownloadFailed)
                },
                DockerStep::RunInstaller => {
                    &&& yes <==> next.step is FindDaemon
                    &&& !yes ==> failed(DockerFailure::InstallerFailed)
                },
                DockerStep::FindDaemon => {
                    &&& yes <==> next.step is FindCompose
                    &&& !yes && check.macos ==> failed(DockerFailure::NotResponding)
                    &&& !yes && !check.macos ==> next.step is FindRootForDaemon
                },
                DockerStep::FindRootForDaemon => {
                    &&& yes ==> failed(DockerFailure::NotResponding)
                    &&& !yes ==> failed(DockerFailure::NoAccess)
                },
                DockerStep::FindCompose => {
                    &&& yes <==> next.step is FindWaitTimeout
                    &&& !yes ==> failed(DockerFailure::NoComposeV2)
                },
                DockerStep::FindWaitTimeout => {
                    &&& yes <==> next.step is Ready
                    &&& !yes ==> failed(DockerFailure::ComposeTooOld)
                },
                DockerStep::Ready => next.step is Ready,
                DockerStep::Failed(_) => next.step == check.step,
            }
        }),
{
}

/// What is asked of docker, `id` and curl: each probe asks for what it finds
/// out, and the installer is fetched from Docker to the place that was given.
pub proof fn law_probes_ask(
    reference: &str,
    path: &str,
    image: Vec<String>,
    docker: Vec<String>,
    daemon: Vec<String>,
    plugin: Vec<String>,
    help: Vec<String>,
    user: Vec<String>,
    fetch: Vec<String>,
)
    requires
        call_ensures(image_inspect_args, (reference,), image),
        call_ensures(docker_version_args, (), docker),
        call_ensures(docker_info_args, (), daemon),
        call_ensures(compose_version_args, (), plugin),
        call_ensures(up_help_args, (), help),
        call_ensures(user_id_args, (), user),
        call_ensures(download_args, (path,), fetch),
    ensures
        text::texts(image@) == seq!["image"@, "inspect"@, reference@],
        text::texts(docker@) == seq!["--version"@],
        text::texts(daemon@) == seq!["info"@],
        text::texts(plugin@) == seq!["compose"@, "version"@],
        text::texts(help@) == seq!["compose"@, "up"@, "--help"@],
        text::texts(user@) == seq!["-u"@],
        option_is(text::texts(fetch@), "https://get.docker.com"@, "-o"@),
        option_is(text::texts(fetch@), "-o"@, path@),
        option_is(text::texts(fetch@), "--max-time"@, "120"@),
        text::texts(fetch@)[0] == "-fsSL"@,
{
    let s = text::texts(fetch@);
    assert(s[7] == "https://get.docker.com"@ && s[8] == "-o"@ && s[9] == path@);
    assert(s[5] == "--max-time"@ && s[6] == "120"@);
}

/// The settings are the file `.env` of the installation, and the console's
/// health is asked for on this host.
pub proof fn law_where_settings_and_health_are(
    stack: Stack,
    path: String,
    port: u16,
    url: String,
    macos: bool,
    allow: bool,
    check: DockerCheck,
)
    requires
        stack.install_dir@.len() > 0,
        stack.install_dir@.last() != '/',
        call_ensures(Stack::env_path, (&stack,), path),
        call_ensures(health_url, (port,), url),
        call_ensures(ensure_docker, (macos, allow), check),
    ensures
        path@ == stack.install_dir@ + "/.env"@,
        url@ == "http://127.0.0.1:"@ + text::decimal(port as nat) + "/healthz"@,
        check.step is FindDocker && check.macos == macos && check.allow_install == allow,
{
    reveal_strlit(".env");
    reveal_strlit("/.env");
    assert(path@ =~= stack.install_dir@ + "/.env"@);
}

/// A console that answers reports the version that it names, an empty one where
/// it names none, and nothing where the answer was no answer.
pub proof fn law_reported_versions(field: Option<Option<String>>, r: Option<String>)
    requires
        call_ensures(reported_version, (field,), r),
    ensures
        r is Some <==> field is Some,
        field matches Some(Some(version)) ==> r->0@ == version@,
        field == Some(None::<String>) ==> r->0@.len() == 0,
{
}

} // verus!
