//! The bundled mint: cdk-mintd config rendering and seed generation.
//!
//! In "processor + mint" installs the official cashubtc/mintd image runs
//! beside the processor (compose profile "mint"). cdk-mintd 0.18 stores its
//! configuration in the mint database: the TOML written here is an import
//! document consumed exactly once by `config init` on the mint's first start.
//! Later changes go through `cdk-mintd config apply`.

use crate::compose;
use crate::outside;
use crate::paths;
use crate::text;
use vstd::prelude::*;

verus! {

/// The cashubtc/mintd image tag that new bundled-mint installs pin.
pub const MINTD_DEFAULT_TAG: &'static str = "0.18.0-rc.0";

/// Units that wallets treat specially, or that invite confusion with real
/// currencies. They are not refused: a warning nudges the operator toward a
/// name that is unambiguously theirs.
pub const RESERVED_UNITS: [&'static str; 6] = ["sat", "msat", "btc", "usd", "eur", "auth"];

pub open spec fn reserved_unit(unit: Seq<char>) -> bool {
    exists|i: int| 0 <= i < RESERVED_UNITS@.len() && #[trigger] RESERVED_UNITS@[i]@ == unit
}

pub fn is_reserved_unit(unit: &str) -> (r: bool)
    ensures
        r == reserved_unit(unit@),
{
    let units = RESERVED_UNITS;
    let mut i: usize = 0;
    while i < units.len()
        invariant
            i <= units@.len(),
            units == RESERVED_UNITS,
            forall|k: int| 0 <= k < i ==> #[trigger] RESERVED_UNITS@[k]@ != unit@,
        decreases units@.len() - i,
    {
        if text::same(units[i], unit) {
            assert(RESERVED_UNITS@[i as int]@ == unit@);
            return true;
        }
        i += 1;
    }
    false
}

// ---------------------------------------------------------------------------
// the seed
// ---------------------------------------------------------------------------
/// How many words the seed has: 128 bits of entropy.
pub const SEED_WORDS: usize = 12;

/// A BIP39 mnemonic of that many English words: they are lower-case and stand
/// with single spaces between them, and the checksum holds.
pub open spec fn valid_seed(mnemonic: Seq<char>) -> bool {
    exists|indices: Seq<int>| #[trigger] seed_of(indices, mnemonic)
}

/// That a seed is made of the words with these indices.
pub open spec fn seed_of(indices: Seq<int>, mnemonic: Seq<char>) -> bool {
    &&& indices.len() == SEED_WORDS
    &&& outside::spells(indices, mnemonic)
    &&& forall|i: int|
        0 <= i < SEED_WORDS ==> outside::lower_word(
            outside::english_word(#[trigger] indices[i]),
        )
}

/// Generate the mint's BIP39 seed: 12 English words (128-bit entropy, the
/// secp256k1 security level, and short enough to transcribe at a counter).
/// Which words come is left to chance.
pub fn generate_mnemonic() -> (r: String)
    ensures
        valid_seed(r@),
{
    let mnemonic = outside::draw_mnemonic(SEED_WORDS).unwrap();
    assert(valid_seed(mnemonic@)) by {
        let indices = choose|indices: Seq<int>|
            indices.len() == SEED_WORDS && #[trigger] outside::spells(indices, mnemonic@) && (
            forall|i: int|
                0 <= i < SEED_WORDS ==> outside::lower_word(
                    outside::english_word(#[trigger] indices[i]),
                ));
        assert(seed_of(indices, mnemonic@));
    }
    mnemonic
}

/// Twelve words of lower-case letters with one space between each two.
pub open spec fn twelve_words(mnemonic: Seq<char>) -> bool {
    exists|words: Seq<Seq<char>>|
        words.len() == 12 && (forall|i: int| 0 <= i < 12 ==> outside::lower_word(
            #[trigger] words[i],
        )) && mnemonic == #[trigger] text::joined(words, seq![' '])
}

/// A seed is written down as twelve words.
pub proof fn law_seed_is_twelve_words(mnemonic: Seq<char>)
    requires
        valid_seed(mnemonic),
    ensures
        twelve_words(mnemonic),
{
    let indices = choose|indices: Seq<int>| #[trigger] seed_of(indices, mnemonic);
    let words = indices.map_values(|index: int| outside::english_word(index));
    assert forall|i: int| 0 <= i < 12 implies outside::lower_word(#[trigger] words[i]) by {
        assert(outside::lower_word(outside::english_word(indices[i])));
    }
    assert(mnemonic == text::joined(words, seq![' ']));
}

// ---------------------------------------------------------------------------
// the unit
// ---------------------------------------------------------------------------
/// A unit as it is stored: trimmed and in lower case.
pub open spec fn unit_slug(raw: Seq<char>) -> Seq<char> {
    text::lowered(text::trimmed(raw))
}

/// Whether a unit holds nothing but lower-case letters, digits, `-` and `_`.
pub open spec fn slug_chars(unit: Seq<char>) -> bool {
    forall|i: int| 0 <= i < unit.len() ==> compose::name_char(#[trigger] unit[i])
}

pub const UNIT_REQUIRED: &'static str = "the unit is required (a short name like \"ora\")";

pub open spec fn unit_refusal(raw: Seq<char>) -> Seq<char> {
    "the unit may only contain lowercase letters, digits, - and _ (got "@ + outside::quoted(raw)
        + ")"@
}

/// What the unit rule makes of an entry: the stored unit, or why there is none.
pub open spec fn checked_unit(raw: Seq<char>) -> Result<Seq<char>, Seq<char>> {
    let unit = unit_slug(raw);
    if unit.len() == 0 {
        Err(UNIT_REQUIRED@)
    } else if !slug_chars(unit) {
        Err(unit_refusal(raw))
    } else {
        Ok(unit)
    }
}

fn has_slug_chars(unit: &str) -> (r: bool)
    ensures
        r == slug_chars(unit@),
{
    let v = text::to_chars(unit);
    let mut i: usize = 0;
    while i < v.len()
        invariant
            i <= v@.len(),
            v@ == unit@,
            forall|j: int| 0 <= j < i ==> compose::name_char(#[trigger] v@[j]),
        decreases v@.len() - i,
    {
        let c = v[i];
        if !(('a' <= c && c <= 'z') || ('0' <= c && c <= '9') || c == '_' || c == '-') {
            return false;
        }
        i += 1;
    }
    true
}

/// The unit rule, which is the processor's too: trimmed, lowercased,
/// `[a-z0-9_-]+`.
pub fn validate_unit_slug(raw: &str) -> (r: Result<String, String>)
    ensures
        match r {
            Ok(unit) => checked_unit(raw@) == Ok::<Seq<char>, Seq<char>>(unit@),
            Err(message) => checked_unit(raw@) == Err::<Seq<char>, Seq<char>>(message@),
        },
{
    let trimmed = text::trim(raw);
    let unit = text::to_lower(trimmed.as_str());
    if unit.as_str().is_empty() {
        return Err(UNIT_REQUIRED.to_owned());
    }
    if !has_slug_chars(unit.as_str()) {
        return Err(
            "the unit may only contain lowercase letters, digits, - and _ (got ".to_owned().concat(
                outside::quote(raw).as_str(),
            ).concat(")"),
        );
    }
    Ok(unit)
}

/// A unit that was accepted is accepted again, as it is.
pub proof fn law_accepted_unit_is_stable(raw: Seq<char>)
    requires
        checked_unit(raw) is Ok,
    ensures
        checked_unit(checked_unit(raw)->Ok_0) == checked_unit(raw),
{
    let unit = unit_slug(raw);
    let p = |c: char| text::white(c);
    assert forall|i: int| 0 <= i < unit.len() implies !text::white(unit[i]) && text::lower(unit[i])
        == unit[i] by {
        assert(compose::name_char(unit[i]));
    }
    text::lemma_left_trimmed(unit, p, 0);
    assert(unit.skip(0) =~= unit);
    text::lemma_right_trimmed(unit, p, unit.len() as int);
    assert(unit.take(unit.len() as int) =~= unit);
    assert(text::lowered(unit) =~= unit);
}

// ---------------------------------------------------------------------------
// the import document
// ---------------------------------------------------------------------------
/// Up to the mint's address.
pub const CONFIG_HEAD: &'static str = r#"# Pecan — bundled mint (cdk-mintd) import document.
#
# Imported ONCE by `cdk-mintd config init` on the mint's first start; after
# that the mint's database is authoritative and edits here do NOTHING until
# you explicitly apply them:
#
#   docker compose -f <install-dir>/docker-compose.yml \
#     --project-directory <install-dir> \
#     run --rm --no-deps mintd cdk-mintd --work-dir /data config apply --file /config/mint.toml
#   mintctl start
#
# The mint's seed lives in ./mnemonic (0600) — it IS the mint: anyone holding
# it can issue this mint's ecash. mintctl backup includes it; keep copies
# offline.

[info]
"#;

/// From the listening address to the mint's name.
pub const CONFIG_SERVER: &'static str = r#"listen_host = "0.0.0.0"
listen_port = 8085
mnemonic = "file:/run/secrets/mint-mnemonic"

# Counter-friendly quote lifetimes (cdk's default 60 s melt TTL is too short
# for an in-person visit; the processor's self-test warns below comfortable
# thresholds).
[info.quote_ttl]
mint_ttl = 1800
melt_ttl = 900

[info.http_cache]
backend = "memory"
ttl = 60
tti = 60

[mint_info]
"#;

/// From the database to the unit of the payment backend.
pub const CONFIG_BACKEND: &'static str = r#"
[database]
engine = "sqlite"

[[payment_backend]]
backend = "grpcprocessor"
"#;

/// From the limits to the units of the processor.
pub const CONFIG_LIMITS: &'static str = r#"min_mint = 1
max_mint = 500000
min_melt = 1
max_melt = 500000

[grpc_processor]
"#;

/// How the mint reaches the processor.
pub const CONFIG_PROCESSOR: &'static str = r#"# Compose-internal DNS — the mint and processor share the stack's network.
address = "processor"
port = 50051
# Plaintext gRPC never leaves the compose network in this topology.
allow_insecure = true
"#;

/// The line that gives the mint's address.
pub open spec fn url_line(mint_url: Seq<char>) -> Seq<char> {
    "url = \""@ + mint_url + "\"\n"@
}

/// The line that gives the unit of the payment backend.
pub open spec fn unit_line(unit: Seq<char>) -> Seq<char> {
    "unit = \""@ + unit + "\"\n"@
}

/// The line that gives the units of the processor.
pub open spec fn supported_units_line(unit: Seq<char>) -> Seq<char> {
    "supported_units = [\""@ + unit + "\"]\n"@
}

/// The lines that name and describe the mint.
pub open spec fn about_lines(unit: Seq<char>) -> Seq<char> {
    "name = \""@ + unit + " mint\"\ndescription = \"Ecash mint for the "@ + unit
        + " unit, operated with Pecan\"\n"@
}

/// The cdk-mintd import document for a bundled mint.
pub open spec fn config_toml(unit: Seq<char>, mint_url: Seq<char>) -> Seq<char> {
    CONFIG_HEAD@ + url_line(mint_url) + CONFIG_SERVER@ + about_lines(unit) + CONFIG_BACKEND@
        + unit_line(unit) + CONFIG_LIMITS@ + supported_units_line(unit) + CONFIG_PROCESSOR@
}

/// The cdk-mintd import document for a bundled mint: one grpcprocessor
/// payment backend for `unit`, dialing the processor over the compose
/// network, seed as a file: secret reference.
pub fn render_config_toml(unit: &str, mint_url: &str) -> (r: String)
    ensures
        r@ == config_toml(unit@, mint_url@),
{
    let url_line = "url = \"".to_owned().concat(mint_url).concat("\"\n");
    let about = "name = \"".to_owned().concat(unit).concat(
        " mint\"\ndescription = \"Ecash mint for the ",
    ).concat(unit).concat(" unit, operated with Pecan\"\n");
    let unit_line = "unit = \"".to_owned().concat(unit).concat("\"\n");
    let supported = "supported_units = [\"".to_owned().concat(unit).concat("\"]\n");
    CONFIG_HEAD.to_owned().concat(url_line.as_str()).concat(CONFIG_SERVER).concat(
        about.as_str(),
    ).concat(CONFIG_BACKEND).concat(unit_line.as_str()).concat(CONFIG_LIMITS).concat(
        supported.as_str(),
    ).concat(CONFIG_PROCESSOR)
}

/// The document names the unit as the backend's and the processor's, and the
/// mint's address as it was given.
pub proof fn law_config_names_unit_and_url(unit: Seq<char>, mint_url: Seq<char>)
    ensures
        text::found(config_toml(unit, mint_url), url_line(mint_url)) is Some,
        text::found(config_toml(unit, mint_url), unit_line(unit)) is Some,
        text::found(config_toml(unit, mint_url), supported_units_line(unit)) is Some,
{
    let all = config_toml(unit, mint_url);
    let a = CONFIG_HEAD@;
    let b = CONFIG_SERVER@ + about_lines(unit) + CONFIG_BACKEND@;
    let c = CONFIG_LIMITS@;
    let d = CONFIG_PROCESSOR@;
    let rest = b + unit_line(unit) + c + supported_units_line(unit) + d;
    assert(all =~= a + url_line(mint_url) + rest);
    text::lemma_found_between(a, url_line(mint_url), rest);
    let before = a + url_line(mint_url) + b;
    let after = c + supported_units_line(unit) + d;
    assert(all =~= before + unit_line(unit) + after);
    text::lemma_found_between(before, unit_line(unit), after);
    text::lemma_found_between(
        before + unit_line(unit) + c,
        supported_units_line(unit),
        d,
    );
    assert(all =~= before + unit_line(unit) + c + supported_units_line(unit) + d);
}

// ---------------------------------------------------------------------------
// the files
// ---------------------------------------------------------------------------
/// A file to write.
pub struct FileWrite {
    pub path: String,
    pub contents: String,
    pub mode: u32,
    /// The file must not be there yet; it is never replaced.
    pub exclusive: bool,
}

/// The bundled mint's directory and the files in it.
pub struct MintFiles {
    pub dir: String,
    pub dir_mode: u32,
    pub config: FileWrite,
    pub seed: FileWrite,
}

pub open spec fn mint_dir(install_dir: Seq<char>) -> Seq<char> {
    paths::below(install_dir, "mint"@)
}

pub open spec fn seed_path(install_dir: Seq<char>) -> Seq<char> {
    paths::below(mint_dir(install_dir), "mnemonic"@)
}

pub open spec fn seed_refusal(install_dir: Seq<char>) -> Seq<char> {
    seed_path(install_dir)
        + " already exists — refusing to overwrite a mint seed or configuration"@
}

/// That these are the files of a bundled mint: private, and the seed made once.
pub open spec fn writes_mint_files(
    install_dir: Seq<char>,
    unit: Seq<char>,
    mint_url: Seq<char>,
    mnemonic: Seq<char>,
    files: MintFiles,
) -> bool {
    &&& files.dir@ == mint_dir(install_dir)
    &&& files.dir_mode == 0o700
    &&& files.config.path@ == paths::below(mint_dir(install_dir), "config.toml"@)
    &&& files.config.contents@ == config_toml(unit, mint_url)
    &&& files.config.mode == 0o600
    &&& !files.config.exclusive
    &&& files.seed.path@ == seed_path(install_dir)
    &&& files.seed.contents@ == mnemonic
    &&& files.seed.mode == 0o600
    &&& files.seed.exclusive
}

/// What to write as `<install-dir>/mint/{config.toml,mnemonic}`, with tight
/// modes. The seed is never overwritten: a leftover mnemonic from a previous
/// install is a hard error, not a silent replacement. The seed has no trailing
/// newline, since cdk's `file:` resolver reads the file verbatim.
pub fn write_mint_files(
    install_dir: &str,
    unit: &str,
    mint_url: &str,
    mnemonic: &str,
    seed_exists: bool,
) -> (r: Result<MintFiles, String>)
    ensures
        match r {
            Ok(files) => !seed_exists && writes_mint_files(
                install_dir@,
                unit@,
                mint_url@,
                mnemonic@,
                files,
            ),
            Err(message) => seed_exists && message@ == seed_refusal(install_dir@),
        },
{
    let dir = paths::join(install_dir, "mint");
    let seed_path = paths::join(dir.as_str(), "mnemonic");
    if seed_exists {
        return Err(
            seed_path.concat(
                " already exists — refusing to overwrite a mint seed or configuration",
            ),
        );
    }
    let config_path = paths::join(dir.as_str(), "config.toml");
    Ok(
        MintFiles {
            dir,
            dir_mode: 0o700,
            config: FileWrite {
                path: config_path,
                contents: render_config_toml(unit, mint_url),
                mode: 0o600,
                exclusive: false,
            },
            seed: FileWrite {
                path: seed_path,
                contents: mnemonic.to_owned(),
                mode: 0o600,
                exclusive: true,
            },
        },
    )
}

proof fn lemma_config_server(before: Seq<char>, after: Seq<char>)
    ensures
        text::found(before + CONFIG_SERVER@ + after, "listen_host = \"0.0.0.0\"\nlisten_port = 8085\n"@) is Some,
        text::found(before + CONFIG_SERVER@ + after, "mnemonic = \"file:/run/secrets/mint-mnemonic\"\n"@) is Some,
        text::found(before + CONFIG_SERVER@ + after, "mint_ttl = 1800\nmelt_ttl = 900\n"@) is Some,
{
    reveal_strlit(
        r#"listen_host = "0.0.0.0"
listen_port = 8085
mnemonic = "file:/run/secrets/mint-mnemonic"

# Counter-friendly quote lifetimes (cdk's default 60 s melt TTL is too short
# for an in-person visit; the processor's self-test warns below comfortable
# thresholds).
[info.quote_ttl]
mint_ttl = 1800
melt_ttl = 900

[info.http_cache]
backend = "memory"
ttl = 60
tti = 60

[mint_info]
"#,
    );
    reveal_strlit("listen_host = \"0.0.0.0\"\nlisten_port = 8085\n");
    assert(CONFIG_SERVER@.subrange(0, 43) =~= "listen_host = \"0.0.0.0\"\nlisten_port = 8085\n"@);
    text::lemma_found_in_part(before, CONFIG_SERVER@, after, "listen_host = \"0.0.0.0\"\nlisten_port = 8085\n"@, 0);
    reveal_strlit("mnemonic = \"file:/run/secrets/mint-mnemonic\"\n");
    assert(CONFIG_SERVER@.subrange(43, 88) =~= "mnemonic = \"file:/run/secrets/mint-mnemonic\"\n"@);
    text::lemma_found_in_part(before, CONFIG_SERVER@, after, "mnemonic = \"file:/run/secrets/mint-mnemonic\"\n"@, 43);
    reveal_strlit("mint_ttl = 1800\nmelt_ttl = 900\n");
    assert(CONFIG_SERVER@.subrange(274, 305) =~= "mint_ttl = 1800\nmelt_ttl = 900\n"@);
    text::lemma_found_in_part(before, CONFIG_SERVER@, after, "mint_ttl = 1800\nmelt_ttl = 900\n"@, 274);
}

proof fn lemma_config_backend(before: Seq<char>, after: Seq<char>)
    ensures
        text::found(before + CONFIG_BACKEND@ + after, "engine = \"sqlite\"\n"@) is Some,
        text::found(before + CONFIG_BACKEND@ + after, "backend = \"grpcprocessor\"\n"@) is Some,
{
    reveal_strlit(
        r#"
[database]
engine = "sqlite"

[[payment_backend]]
backend = "grpcprocessor"
"#,
    );
    reveal_strlit("engine = \"sqlite\"\n");
    assert(CONFIG_BACKEND@.subrange(12, 30) =~= "engine = \"sqlite\"\n"@);
    text::lemma_found_in_part(before, CONFIG_BACKEND@, after, "engine = \"sqlite\"\n"@, 12);
    reveal_strlit("backend = \"grpcprocessor\"\n");
    assert(CONFIG_BACKEND@.subrange(51, 77) =~= "backend = \"grpcprocessor\"\n"@);
    text::lemma_found_in_part(before, CONFIG_BACKEND@, after, "backend = \"grpcprocessor\"\n"@, 51);
}

proof fn lemma_config_limits(before: Seq<char>, after: Seq<char>)
    ensures
        text::found(before + CONFIG_LIMITS@ + after, "min_mint = 1\nmax_mint = 500000\nmin_melt = 1\nmax_melt = 500000\n"@) is Some,
{
    reveal_strlit(
        r#"min_mint = 1
max_mint = 500000
min_melt = 1
max_melt = 500000

[grpc_processor]
"#,
    );
    reveal_strlit("min_mint = 1\nmax_mint = 500000\nmin_melt = 1\nmax_melt = 500000\n");
    assert(CONFIG_LIMITS@.subrange(0, 62) =~= "min_mint = 1\nmax_mint = 500000\nmin_melt = 1\nmax_melt = 500000\n"@);
    text::lemma_found_in_part(before, CONFIG_LIMITS@, after, "min_mint = 1\nmax_mint = 500000\nmin_melt = 1\nmax_melt = 500000\n"@, 0);
}

proof fn lemma_config_processor(before: Seq<char>, after: Seq<char>)
    ensures
        text::found(before + CONFIG_PROCESSOR@ + after, "address = \"processor\"\nport = 50051\n"@) is Some,
        text::found(before + CONFIG_PROCESSOR@ + after, "allow_insecure = true\n"@) is Some,
{
    reveal_strlit(
        r#"# Compose-internal DNS — the mint and processor share the stack's network.
address = "processor"
port = 50051
# Plaintext gRPC never leaves the compose network in this topology.
allow_insecure = true
"#,
    );
    reveal_strlit("address = \"processor\"\nport = 50051\n");
    assert(CONFIG_PROCESSOR@.subrange(75, 110) =~= "address = \"processor\"\nport = 50051\n"@);
    text::lemma_found_in_part(before, CONFIG_PROCESSOR@, after, "address = \"processor\"\nport = 50051\n"@, 75);
    reveal_strlit("allow_insecure = true\n");
    assert(CONFIG_PROCESSOR@.subrange(178, 200) =~= "allow_insecure = true\n"@);
    text::lemma_found_in_part(before, CONFIG_PROCESSOR@, after, "allow_insecure = true\n"@, 178);
}

// ---------------------------------------------------------------------------
// laws
// ---------------------------------------------------------------------------
/// The mint listens on its port on all the container's interfaces, takes its
/// seed from the secret, keeps quotes for half an hour and a quarter, and pays
/// through the processor, which it reaches by its name in the stack's network.
pub proof fn law_config_connects_the_mint(unit: &str, mint_url: &str, r: String)
    requires
        call_ensures(render_config_toml, (unit, mint_url), r),
    ensures
        text::found(r@, "listen_host = \"0.0.0.0\"\nlisten_port = 8085\n"@) is Some,
        text::found(r@, "mnemonic = \"file:/run/secrets/mint-mnemonic\"\n"@) is Some,
        text::found(r@, "mint_ttl = 1800\nmelt_ttl = 900\n"@) is Some,
        text::found(r@, "engine = \"sqlite\"\n"@) is Some,
        text::found(r@, "backend = \"grpcprocessor\"\n"@) is Some,
        text::found(r@, "min_mint = 1\nmax_mint = 500000\nmin_melt = 1\nmax_melt = 500000\n"@) is Some,
        text::found(r@, "address = \"processor\"\nport = 50051\n"@) is Some,
        text::found(r@, "allow_insecure = true\n"@) is Some,
        text::found(r@, "url = \""@ + mint_url@ + "\"\n"@) is Some,
        text::found(r@, "unit = \""@ + unit@ + "\"\n"@) is Some,
        text::found(r@, "supported_units = [\""@ + unit@ + "\"]\n"@) is Some,
{
    law_config_names_unit_and_url(unit@, mint_url@);
    let (before, after) = (
        CONFIG_HEAD@ + url_line(mint_url@),
        about_lines(unit@) + CONFIG_BACKEND@ + unit_line(unit@) + CONFIG_LIMITS@
            + supported_units_line(unit@) + CONFIG_PROCESSOR@,
    );
    assert(r@ =~= before + CONFIG_SERVER@ + after);
    lemma_config_server(before, after);
    let (before, after) = (
        CONFIG_HEAD@ + url_line(mint_url@) + CONFIG_SERVER@ + about_lines(unit@),
        unit_line(unit@) + CONFIG_LIMITS@ + supported_units_line(unit@) + CONFIG_PROCESSOR@,
    );
    assert(r@ =~= before + CONFIG_BACKEND@ + after);
    lemma_config_backend(before, after);
    let (before, after) = (
        CONFIG_HEAD@ + url_line(mint_url@) + CONFIG_SERVER@ + about_lines(unit@) + CONFIG_BACKEND@
            + unit_line(unit@),
        supported_units_line(unit@) + CONFIG_PROCESSOR@,
    );
    assert(r@ =~= before + CONFIG_LIMITS@ + after);
    lemma_config_limits(before, after);
    let (before, after) = (
        CONFIG_HEAD@ + url_line(mint_url@) + CONFIG_SERVER@ + about_lines(unit@) + CONFIG_BACKEND@
            + unit_line(unit@) + CONFIG_LIMITS@ + supported_units_line(unit@),
        Seq::<char>::empty(),
    );
    assert(r@ =~= before + CONFIG_PROCESSOR@ + after);
    lemma_config_processor(before, after);
}

/// An entry is a unit exactly where, without the white space around it, it has a
/// character, and only letters, digits, `-` and `_`. It is stored in lower case.
pub proof fn law_which_units_are_valid(raw: &str, trimmed: String, t: &str, low: String, r: Result<String, String>)
    requires
        call_ensures(text::trim, (raw,), trimmed),
        t@ == trimmed@,
        call_ensures(text::to_lower, (t,), low),
        call_ensures(validate_unit_slug, (raw,), r),
    ensures
        r is Ok <==> t@.len() > 0 && forall|i: int|
            0 <= i < t@.len() ==> 'a' <= #[trigger] t@[i] <= 'z' || 'A' <= t@[i] <= 'Z' || '0'
                <= t@[i] <= '9' || t@[i] == '-' || t@[i] == '_',
        r matches Ok(unit) ==> unit@ == low@,
{
    let u = text::lowered(t@);
    assert forall|i: int| 0 <= i < t@.len() implies (compose::name_char(#[trigger] u[i]) <==> ('a'
        <= t@[i] <= 'z' || 'A' <= t@[i] <= 'Z' || '0' <= t@[i] <= '9' || t@[i] == '-' || t@[i]
        == '_')) by {
        assert(u[i] == text::lower(t@[i]));
    }
    if forall|i: int|
        0 <= i < t@.len() ==> 'a' <= #[trigger] t@[i] <= 'z' || 'A' <= t@[i] <= 'Z' || '0' <= t@[i]
            <= '9' || t@[i] == '-' || t@[i] == '_' {
        assert forall|i: int| 0 <= i < u.len() implies compose::name_char(#[trigger] u[i]) by {
            assert(t@[i] == t@[i]);
        }
    }
    if r is Ok {
        assert forall|i: int| 0 <= i < t@.len() implies 'a' <= #[trigger] t@[i] <= 'z' || 'A'
            <= t@[i] <= 'Z' || '0' <= t@[i] <= '9' || t@[i] == '-' || t@[i] == '_' by {
            assert(compose::name_char(u[i]));
        }
    }
}

/// Six units are warned of: those of bitcoin, two currencies, and the one that
/// wallets use for authentication.
pub proof fn law_reserved_units(unit: &str, r: bool)
    requires
        call_ensures(is_reserved_unit, (unit,), r),
    ensures
        r <==> unit@ == "sat"@ || unit@ == "msat"@ || unit@ == "btc"@ || unit@ == "usd"@ || unit@
            == "eur"@ || unit@ == "auth"@,
{
    let all = RESERVED_UNITS@;
    assert(all.len() == 6);
    assert(all[0]@ == "sat"@ && all[1]@ == "msat"@ && all[2]@ == "btc"@);
    assert(all[3]@ == "usd"@ && all[4]@ == "eur"@ && all[5]@ == "auth"@);
    if r {
        let i = choose|i: int| 0 <= i < all.len() && #[trigger] all[i]@ == unit@;
        assert(i == 0 || i == 1 || i == 2 || i == 3 || i == 4 || i == 5);
    }
}

/// A seed that is there is never written over. Otherwise seed and configuration
/// go into the mint's own directory, which nobody else can enter, as files that
/// nobody else can read; the seed as it was made, and only where there is none.
pub proof fn law_seed_is_written_once(
    install_dir: &str,
    unit: &str,
    mint_url: &str,
    mnemonic: &str,
    seed_exists: bool,
    config: String,
    r: Result<MintFiles, String>,
)
    requires
        call_ensures(write_mint_files, (install_dir, unit, mint_url, mnemonic, seed_exists), r),
        call_ensures(render_config_toml, (unit, mint_url), config),
        install_dir@.len() > 0,
        install_dir@.last() != '/',
    ensures
        r is Ok <==> !seed_exists,
        r matches Ok(files) ==> {
            &&& files.dir@ == install_dir@ + "/mint"@
            &&& files.seed.path@ == install_dir@ + "/mint/mnemonic"@
            &&& files.config.path@ == install_dir@ + "/mint/config.toml"@
            &&& files.seed.contents@ == mnemonic@
            &&& files.config.contents@ == config@
            &&& files.dir_mode == 448
            &&& files.seed.mode == 384 && files.config.mode == 384
            &&& files.seed.exclusive
        },
{
    reveal_strlit("mint");
    reveal_strlit("/mint");
    reveal_strlit("mnemonic");
    reveal_strlit("/mint/mnemonic");
    reveal_strlit("config.toml");
    reveal_strlit("/mint/config.toml");
    if let Ok(files) = r {
        assert(files.dir@ =~= install_dir@ + "/mint"@);
        assert(files.dir@.last() == 't');
        assert(files.seed.path@ =~= install_dir@ + "/mint/mnemonic"@);
        assert(files.config.path@ =~= install_dir@ + "/mint/config.toml"@);
    }
}

/// A drawn seed is twelve lower-case words.
pub proof fn law_drawn_seed_is_twelve_words(r: String)
    requires
        call_ensures(generate_mnemonic, (), r),
    ensures
        twelve_words(r@),
{
    law_seed_is_twelve_words(r@);
}

/// The mint is named and described by its unit.
pub proof fn law_config_names_the_mint(unit: &str, mint_url: &str, r: String)
    requires
        call_ensures(render_config_toml, (unit, mint_url), r),
    ensures
        text::found(r@, "name = \""@ + unit@ + " mint\""@) is Some,
        text::found(
            r@,
            "description = \"Ecash mint for the "@ + unit@ + " unit, operated with Pecan\"\n"@,
        ) is Some,
{
    reveal_strlit(" mint\"\ndescription = \"Ecash mint for the ");
    reveal_strlit(" mint\"");
    reveal_strlit("\n");
    reveal_strlit("description = \"Ecash mint for the ");
    assert(" mint\"\ndescription = \"Ecash mint for the "@ =~= " mint\""@ + "\n"@
        + "description = \"Ecash mint for the "@);
    let head = CONFIG_HEAD@ + url_line(mint_url@) + CONFIG_SERVER@;
    let name = "name = \""@ + unit@ + " mint\""@;
    let about = "description = \"Ecash mint for the "@ + unit@ + " unit, operated with Pecan\"\n"@;
    let tail = CONFIG_BACKEND@ + unit_line(unit@) + CONFIG_LIMITS@ + supported_units_line(unit@)
        + CONFIG_PROCESSOR@;
    assert(r@ =~= head + name + ("\n"@ + about + tail));
    text::lemma_found_between(head, name, "\n"@ + about + tail);
    assert(r@ =~= (head + name + "\n"@) + about + tail);
    text::lemma_found_between(head + name + "\n"@, about, tail);
}

} // verus!
