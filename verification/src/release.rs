//! Releases: tags, artifact addresses, and the check of a downloaded binary.

use crate::envfile;
use crate::outside;
use crate::paths;
use crate::text;
use vstd::prelude::*;

verus! {

pub const REPO: &'static str = "zeugmaster/pecan";

pub open spec fn hex_digit(d: int) -> char {
    if d < 10 {
        ((48 + d) as u32) as char
    } else {
        ((87 + d) as u32) as char
    }
}

/// Two lower-case hexadecimal digits for each byte.
pub open spec fn hex_of(bytes: Seq<u8>) -> Seq<char> {
    Seq::new(
        2 * bytes.len(),
        |i: int|
            if i % 2 == 0 {
                hex_digit(bytes[i / 2] as int / 16)
            } else {
                hex_digit(bytes[i / 2] as int % 16)
            },
    )
}

fn hex_char(d: u8) -> (r: char)
    requires
        d < 16,
    ensures
        r == hex_digit(d as int),
{
    if d < 10 {
        (48 + d) as char
    } else {
        (87 + d) as char
    }
}

pub fn hex(bytes: &[u8]) -> (r: String)
    ensures
        r@ == hex_of(bytes@),
{
    let mut r = String::new();
    let mut i: usize = 0;
    assert(r@ =~= hex_of(bytes@.take(0)));
    while i < bytes.len()
        invariant
            i <= bytes@.len(),
            r@ == hex_of(bytes@.take(i as int)),
        decreases bytes@.len() - i,
    {
        let b: u8 = bytes[i];
        r.push(hex_char(b / 16));
        r.push(hex_char(b % 16));
        i += 1;
        assert(r@ =~= hex_of(bytes@.take(i as int)));
    }
    assert(bytes@.take(i as int) =~= bytes@);
    r
}

proof fn lemma_hex_digit(d: int, e: int)
    requires
        0 <= d < 16,
        0 <= e < 16,
        hex_digit(d) == hex_digit(e),
    ensures
        d == e,
{
}

/// Two lists of bytes have the same digits only where they are the same.
pub proof fn law_hex_tells_bytes_apart(a: Seq<u8>, b: Seq<u8>)
    requires
        hex_of(a) == hex_of(b),
    ensures
        a == b,
{
    assert(a.len() == b.len()) by {
        assert(hex_of(a).len() == 2 * a.len());
        assert(hex_of(b).len() == 2 * b.len());
    }
    assert forall|i: int| 0 <= i < a.len() implies a[i] == b[i] by {
        let (j, k) = (2 * i, 2 * i + 1);
        assert(j / 2 == i && k / 2 == i && j % 2 == 0 && k % 2 == 1);
        assert(hex_of(a)[j] == hex_digit(a[i] as int / 16));
        assert(hex_of(b)[j] == hex_digit(b[i] as int / 16));
        assert(hex_of(a)[k] == hex_digit(a[i] as int % 16));
        assert(hex_of(b)[k] == hex_digit(b[i] as int % 16));
        lemma_hex_digit(a[i] as int / 16, b[i] as int / 16);
        lemma_hex_digit(a[i] as int % 16, b[i] as int % 16);
    }
    assert(a =~= b);
}

// ---------------------------------------------------------------------------
// tags
// ---------------------------------------------------------------------------
pub open spec fn alphanumeric(c: char) -> bool {
    '0' <= c <= '9' || 'A' <= c <= 'Z' || 'a' <= c <= 'z'
}

pub open spec fn tag_char(c: char) -> bool {
    alphanumeric(c) || c == '.' || c == '_' || c == '-'
}

/// An image or release tag: up to 128 letters, digits, dots, underscores and
/// hyphens, of which the first is a letter, a digit or an underscore.
pub open spec fn valid_tag(tag: Seq<char>) -> bool {
    &&& 0 < tag.len() <= 128
    &&& alphanumeric(tag[0]) || tag[0] == '_'
    &&& forall|i: int| 0 <= i < tag.len() ==> tag_char(#[trigger] tag[i])
}

pub open spec fn tag_refusal(tag: Seq<char>) -> Seq<char> {
    "invalid image/release tag "@ + outside::quoted(tag)
        + "; use letters, digits, dots, underscores and hyphens"@
}

fn is_alphanumeric(c: char) -> (r: bool)
    ensures
        r == alphanumeric(c),
{
    ('0' <= c && c <= '9') || ('A' <= c && c <= 'Z') || ('a' <= c && c <= 'z')
}

fn is_tag(tag: &str) -> (r: bool)
    ensures
        r == valid_tag(tag@),
{
    let v = text::to_chars(tag);
    if v.len() == 0 || v.len() > 128 || !(is_alphanumeric(v[0]) || v[0] == '_') {
        return false;
    }
    let mut i: usize = 0;
    while i < v.len()
        invariant
            i <= v@.len(),
            v@ == tag@,
            forall|j: int| 0 <= j < i ==> tag_char(#[trigger] v@[j]),
        decreases v@.len() - i,
    {
        let c = v[i];
        if !(is_alphanumeric(c) || c == '.' || c == '_' || c == '-') {
            return false;
        }
        i += 1;
    }
    true
}

/// Tags are also interpolated into Compose .env files and release URLs.
pub fn validate_tag(tag: &str) -> (r: Result<(), String>)
    ensures
        match r {
            Ok(_) => valid_tag(tag@),
            Err(message) => !valid_tag(tag@) && message@ == tag_refusal(tag@),
        },
{
    if is_tag(tag) {
        Ok(())
    } else {
        Err(
            "invalid image/release tag ".to_owned().concat(outside::quote(tag).as_str()).concat(
                "; use letters, digits, dots, underscores and hyphens",
            ),
        )
    }
}

/// A valid tag cannot add a line to the `.env` file, nor be read back as
/// anything but itself: the line that pins it is plain.
pub proof fn law_tag_stays_on_its_line(key: Seq<char>, tag: Seq<char>)
    requires
        valid_tag(tag),
        !key.contains('\n'),
    ensures
        envfile::plain_line(envfile::entry(key) + tag),
{
    let line = envfile::entry(key) + tag;
    assert(line.last() == tag.last());
    assert(tag_char(tag[tag.len() - 1]));
    if line.contains('\n') {
        let i = choose|i: int| 0 <= i < line.len() && line[i] == '\n';
        if i < key.len() {
            assert(key.contains(key[i]));
        } else if i > key.len() {
            assert(tag_char(tag[i - key.len() - 1]));
        }
    }
}

// ---------------------------------------------------------------------------
// versions
// ---------------------------------------------------------------------------
/// The release that this binary was stamped with, or "dev" from a checkout.
pub fn own_version(stamped: Option<&'static str>) -> (r: &'static str)
    ensures
        r@ == (match stamped {
            Some(version) => version@,
            None => "dev"@,
        }),
{
    match stamped {
        Some(version) => version,
        None => "dev",
    }
}

/// How this binary introduces itself to the servers that it asks.
pub fn user_agent(own: &str) -> (r: String)
    ensures
        r@ == "mintctl/"@ + own@,
{
    "mintctl/".to_owned().concat(own)
}

/// How a request can fail.
#[derive(Debug, Clone, Copy, PartialEq, Eq, Structural)]
pub enum HttpFailure {
    /// No answer came.
    Transport,
    /// The server answered with this status.
    Status(u16),
}

/// Failures that may pass: no answer, a time-out, too many requests, and
/// whatever the server itself got wrong.
pub open spec fn passing(failure: HttpFailure) -> bool {
    match failure {
        HttpFailure::Transport => true,
        HttpFailure::Status(code) => code == 408 || code == 429 || 500 <= code <= 599,
    }
}

/// After how many seconds to ask again, when the attempt (counted from zero)
/// failed: there are three attempts, and only failures that may pass are worth
/// another.
pub fn retry_after(attempt: u32, failure: HttpFailure) -> (r: Option<u64>)
    ensures
        r == (if !passing(failure) || attempt >= 2 {
            None::<u64>
        } else if attempt == 0 {
            Some(1u64)
        } else {
            Some(2u64)
        }),
{
    let again = match failure {
        HttpFailure::Transport => true,
        HttpFailure::Status(code) => code == 408 || code == 429 || (500 <= code && code <= 599),
    };
    if !again || attempt >= 2 {
        None
    } else if attempt == 0 {
        Some(1)
    } else {
        Some(2)
    }
}

pub fn latest_api_url() -> (r: String)
    ensures
        r@ == "https://api.github.com/repos/"@ + REPO@ + "/releases/latest"@,
{
    "https://api.github.com/repos/".to_owned().concat(REPO).concat("/releases/latest")
}

pub fn latest_page_url() -> (r: String)
    ensures
        r@ == "https://github.com/"@ + REPO@ + "/releases/latest"@,
{
    "https://github.com/".to_owned().concat(REPO).concat("/releases/latest")
}

/// A text that is there and not empty.
pub open spec fn nonempty(value: Option<Seq<char>>) -> Option<Seq<char>> {
    match value {
        Some(v) => if v.len() > 0 {
            Some(v)
        } else {
            None
        },
        None => None,
    }
}

/// The tag that the release API's answer names, given what its `tag_name`
/// field holds.
pub open spec fn named_tag(field: Option<Option<Seq<char>>>) -> Option<Seq<char>> {
    match field {
        Some(value) => nonempty(value),
        None => None,
    }
}

pub fn tag_in_field(field: Option<Option<String>>) -> (r: Option<String>)
    ensures
        match r {
            Some(tag) => field == Some(Some(tag)) && tag@.len() > 0,
            None => !(field matches Some(Some(value)) && value@.len() > 0),
        },
{
    match field {
        Some(Some(value)) => if value.as_str().is_empty() {
            None
        } else {
            Some(value)
        },
        _ => None,
    }
}

/// The tag that the release API answered with.
pub fn tag_from_api(body: &[u8]) -> (r: Option<String>)
    ensures
        match r {
            Some(tag) => named_tag(outside::json_text(body@, "tag_name"@)) == Some(tag@),
            None => named_tag(outside::json_text(body@, "tag_name"@)) is None,
        },
{
    tag_in_field(outside::json_text_under(body, "tag_name"))
}

pub open spec fn unresolved() -> Seq<char> {
    "could not resolve the latest release from GitHub. Pass --version vX.Y.Z explicitly."@
}

/// The tag in the address that the latest-release page led to.
pub fn tag_from_url(url: &str) -> (r: Result<String, String>)
    ensures
        match r {
            Ok(tag) => nonempty(text::after_first(url@, "/releases/tag/"@)) == Some(tag@),
            Err(message) => nonempty(text::after_first(url@, "/releases/tag/"@)) is None
                && message@ == unresolved(),
        },
{
    match text::second_piece(url, "/releases/tag/") {
        Some(tag) => if !tag.as_str().is_empty() {
            return Ok(tag);
        },
        None => {},
    }
    Err(
        "could not resolve the latest release from GitHub. Pass --version vX.Y.Z explicitly.".to_owned(),
    )
}

pub open spec fn unreachable_page() -> Seq<char> {
    "could not reach github.com to resolve the latest release"@
}

/// The latest release: what the API names, and otherwise what the address says
/// that the latest-release page led to. `api` is the API's answer and `page`
/// that address, where one came.
pub fn resolve_latest_version(api: Option<&[u8]>, page: Option<&str>) -> (r: Result<String, String>)
    ensures
        ({
            let named = match api {
                Some(body) => named_tag(outside::json_text(body@, "tag_name"@)),
                None => None,
            };
            match r {
                Ok(tag) => Some(tag@) == (if named is Some {
                    named
                } else {
                    match page {
                        Some(url) => nonempty(text::after_first(url@, "/releases/tag/"@)),
                        None => None,
                    }
                }),
                Err(message) => named is None && match page {
                    None => message@ == unreachable_page(),
                    Some(url) => nonempty(text::after_first(url@, "/releases/tag/"@)) is None
                        && message@ == unresolved(),
                },
            }
        }),
{
    if let Some(body) = api {
        if let Some(tag) = tag_from_api(body) {
            return Ok(tag);
        }
    }
    match page {
        Some(url) => tag_from_url(url),
        None => Err("could not reach github.com to resolve the latest release".to_owned()),
    }
}

// ---------------------------------------------------------------------------
// artifacts
// ---------------------------------------------------------------------------
/// Where install and update take their deployment artifacts from.
pub enum ArtifactSource {
    /// A git ref (normally the release tag) on raw.githubusercontent.com.
    Ref(String),
    /// A local checkout, for offline testing.
    Dir(String),
}

/// How one artifact is had.
pub enum Fetch {
    /// Copy the file at this path.
    Copy(String),
    /// Download what is at this address.
    Download(String),
}

impl ArtifactSource {
    /// How to have the artifact `rel`.
    pub fn fetch(&self, rel: &str) -> (r: Fetch)
        ensures
            match (self, r) {
                (ArtifactSource::Dir(dir), Fetch::Copy(path)) => path@ == paths::below(dir@, rel@),
                (ArtifactSource::Ref(git_ref), Fetch::Download(url)) => url@
                    == "https://raw.githubusercontent.com/"@ + REPO@ + "/"@ + git_ref@ + "/"@ + rel@,
                _ => false,
            },
    {
        match self {
            ArtifactSource::Dir(dir) => Fetch::Copy(paths::join(dir.as_str(), rel)),
            ArtifactSource::Ref(git_ref) => Fetch::Download(
                "https://raw.githubusercontent.com/".to_owned().concat(REPO).concat("/").concat(
                    git_ref.as_str(),
                ).concat("/").concat(rel),
            ),
        }
    }

    /// What to say when the artifact `rel` could not be had.
    pub fn fetch_failure(&self, rel: &str) -> (r: String)
        ensures
            match self {
                ArtifactSource::Dir(dir) => r@ == "copy "@ + rel@ + " from "@ + dir@,
                ArtifactSource::Ref(git_ref) => r@ == "could not download "@ + rel@ + " from "@ + (
                "https://raw.githubusercontent.com/"@ + REPO@ + "/"@ + git_ref@ + "/"@ + rel@),
            },
    {
        match self {
            ArtifactSource::Dir(dir) => "copy ".to_owned().concat(rel).concat(" from ").concat(
                dir.as_str(),
            ),
            ArtifactSource::Ref(git_ref) => {
                let url = "https://raw.githubusercontent.com/".to_owned().concat(REPO).concat(
                    "/",
                ).concat(git_ref.as_str()).concat("/").concat(rel);
                "could not download ".to_owned().concat(rel).concat(" from ").concat(url.as_str())
            },
        }
    }
}

/// The platform part that release assets use for an operating system.
pub open spec fn asset_os(os: Seq<char>) -> Option<Seq<char>> {
    if os == "linux"@ {
        Some("linux"@)
    } else if os == "macos"@ {
        Some("darwin"@)
    } else {
        None
    }
}

pub open spec fn asset_arch(arch: Seq<char>) -> Option<Seq<char>> {
    if arch == "x86_64"@ {
        Some("amd64"@)
    } else if arch == "aarch64"@ {
        Some("arm64"@)
    } else {
        None
    }
}

pub open spec fn unpublished(what: Seq<char>) -> Seq<char> {
    "no mintctl binaries are published for "@ + what
}

/// The release asset for a platform, such as `mintctl-linux-amd64`.
pub fn binary_asset_name(os: &str, arch: &str) -> (r: Result<String, String>)
    ensures
        match r {
            Ok(name) => asset_os(os@) is Some && asset_arch(arch@) is Some && name@ == "mintctl-"@
                + asset_os(os@)->0 + "-"@ + asset_arch(arch@)->0,
            Err(message) => (asset_os(os@) is None && message@ == unpublished(os@)) || (asset_os(
                os@,
            ) is Some && asset_arch(arch@) is None && message@ == unpublished(arch@)),
        },
{
    let system = if text::same(os, "linux") {
        "linux"
    } else if text::same(os, "macos") {
        "darwin"
    } else {
        return Err("no mintctl binaries are published for ".to_owned().concat(os));
    };
    let machine = if text::same(arch, "x86_64") {
        "amd64"
    } else if text::same(arch, "aarch64") {
        "arm64"
    } else {
        return Err("no mintctl binaries are published for ".to_owned().concat(arch));
    };
    Ok("mintctl-".to_owned().concat(system).concat("-").concat(machine))
}

// ---------------------------------------------------------------------------
// the release binary
// ---------------------------------------------------------------------------
pub open spec fn release_base(version: Seq<char>) -> Seq<char> {
    "https://github.com/"@ + REPO@ + "/releases/download/"@ + version
}

/// Where a file of a release is; only for a valid tag.
pub fn release_file_url(version: &str, file: &str) -> (r: Result<String, String>)
    ensures
        match r {
            Ok(url) => valid_tag(version@) && url@ == release_base(version@) + "/"@ + file@,
            Err(message) => !valid_tag(version@) && message@ == tag_refusal(version@),
        },
{
    match validate_tag(version) {
        Ok(_) => Ok(
            "https://github.com/".to_owned().concat(REPO).concat("/releases/download/").concat(
                version,
            ).concat("/").concat(file),
        ),
        Err(message) => Err(message),
    }
}

/// What a line of SHA256SUMS says of `asset`: its digest, in lower case. The
/// name may have the star of a binary file before it.
pub open spec fn line_digest(line: Seq<char>, asset: Seq<char>) -> Option<Seq<char>> {
    match text::first_word(line) {
        None => None,
        Some((digest, rest)) => match text::first_word(rest) {
            None => None,
            Some((name, _)) => if text::left_trimmed(name, |c: char| c == '*')
                == asset {
                Some(text::lowered(digest))
            } else {
                None
            },
        },
    }
}

/// The digest on the first line that names `asset`.
pub open spec fn listed_digest(sums: Seq<Seq<char>>, asset: Seq<char>) -> Option<Seq<char>>
    decreases sums.len(),
{
    if sums.len() == 0 {
        None
    } else if line_digest(sums[0], asset) is Some {
        line_digest(sums[0], asset)
    } else {
        listed_digest(sums.drop_first(), asset)
    }
}

fn digest_on_line(line: &str, asset: &str) -> (r: Option<String>)
    ensures
        match r {
            Some(digest) => line_digest(line@, asset@) == Some(digest@),
            None => line_digest(line@, asset@) is None,
        },
{
    match text::split_word(line) {
        None => None,
        Some((digest, rest)) => match text::split_word(rest.as_str()) {
            None => None,
            Some((name, _)) => {
                let bare = text::trim_start_char(name.as_str(), '*');
                if text::same(bare.as_str(), asset) {
                    Some(text::to_lower(digest.as_str()))
                } else {
                    None
                }
            },
        },
    }
}

/// The digest that the release's SHA256SUMS lists for `asset`.
pub fn expected_digest(sums: &str, asset: &str, version: &str) -> (r: Result<String, String>)
    ensures
        match r {
            Ok(digest) => listed_digest(text::lines_of(sums@), asset@) == Some(digest@),
            Err(message) => listed_digest(text::lines_of(sums@), asset@) is None && message@
                == asset@ + " is not listed in the "@ + version@ + " SHA256SUMS"@,
        },
{
    let all = text::lines(sums);
    let ghost lines = text::texts(all@);
    let mut i: usize = 0;
    assert(lines.skip(0) =~= lines);
    while i < all.len()
        invariant
            i <= all@.len(),
            lines == text::texts(all@),
            lines == text::lines_of(sums@),
            listed_digest(lines, asset@) == listed_digest(lines.skip(i as int), asset@),
        decreases all@.len() - i,
    {
        proof {
            assert(lines.skip(i as int)[0] == all@[i as int]@);
            assert(lines.skip(i as int).drop_first() =~= lines.skip(i + 1));
        }
        if let Some(digest) = digest_on_line(all[i].as_str(), asset) {
            return Ok(digest);
        }
        i += 1;
    }
    Err(
        asset.to_owned().concat(" is not listed in the ").concat(version).concat(" SHA256SUMS"),
    )
}

pub open spec fn mismatch(asset: Seq<char>, expected: Seq<char>, actual: Seq<char>) -> Seq<char> {
    "checksum mismatch for "@ + asset + ": expected "@ + expected + ", got "@ + actual
}

/// Whether a digest is the one that was expected.
pub fn check_digest(asset: &str, expected: &str, digest: &[u8]) -> (r: Result<(), String>)
    ensures
        match r {
            Ok(_) => hex_of(digest@) == expected@,
            Err(message) => hex_of(digest@) != expected@ && message@ == mismatch(
                asset@,
                expected@,
                hex_of(digest@),
            ),
        },
{
    let actual = hex(digest);
    if text::same(actual.as_str(), expected) {
        Ok(())
    } else {
        Err(
            "checksum mismatch for ".to_owned().concat(asset).concat(": expected ").concat(
                expected,
            ).concat(", got ").concat(actual.as_str()),
        )
    }
}

/// Whether a downloaded binary is the one that the release lists.
pub fn verify_binary(asset: &str, expected: &str, bytes: &[u8]) -> (r: Result<(), String>)
    ensures
        match r {
            Ok(_) => hex_of(outside::sha256(bytes@)) == expected@,
            Err(message) => hex_of(outside::sha256(bytes@)) != expected@ && message@ == mismatch(
                asset@,
                expected@,
                hex_of(outside::sha256(bytes@)),
            ),
        },
{
    let digest = outside::sha256_digest(bytes);
    check_digest(asset, expected, digest.as_slice())
}

// ---------------------------------------------------------------------------
// laws
// ---------------------------------------------------------------------------
/// A text without white space in it.
pub open spec fn solid(s: Seq<char>) -> bool {
    s.len() > 0 && forall|i: int| 0 <= i < s.len() ==> !text::white(#[trigger] s[i])
}

/// How `sha256sum` writes a line: the digest, and after a space either another
/// one or the star of a binary file, and the name.
pub open spec fn sum_line(digest: Seq<char>, binary: bool, name: Seq<char>) -> Seq<char> {
    digest + seq![
        ' ',
        if binary {
            '*'
        } else {
            ' '
        },
    ] + name
}

/// The digest that a release lists for an asset is the one on the first line
/// that names it, in lower case, with or without the star of a binary file.
pub proof fn law_listed_digest_is_found(
    sums: &str,
    asset: &str,
    version: &str,
    i: int,
    digest: Seq<char>,
    binary: bool,
    r: Result<String, String>,
)
    requires
        call_ensures(expected_digest, (sums, asset, version), r),
        0 <= i < text::lines_of(sums@).len(),
        solid(digest),
        solid(asset@),
        asset@[0] != '*',
        text::lines_of(sums@)[i] == sum_line(digest, binary, asset@),
        forall|j: int|
            0 <= j < i ==> text::found(#[trigger] text::lines_of(sums@)[j], asset@) is None,
    ensures
        r matches Ok(d) && d@ == text::lowered(digest),
{
    let lines = text::lines_of(sums@);
    lemma_sum_line(digest, binary, asset@);
    assert forall|j: int| 0 <= j < i implies line_digest(#[trigger] lines[j], asset@) is None by {
        if line_digest(lines[j], asset@) is Some {
            lemma_named_on_line(lines[j], asset@);
        }
    }
    lemma_first_listed(lines, asset@, i);
}

/// An asset that occurs on no line is not listed.
pub proof fn law_unlisted_asset_is_refused(
    sums: &str,
    asset: &str,
    version: &str,
    r: Result<String, String>,
)
    requires
        call_ensures(expected_digest, (sums, asset, version), r),
        forall|j: int|
            0 <= j < text::lines_of(sums@).len() ==> text::found(
                #[trigger] text::lines_of(sums@)[j],
                asset@,
            ) is None,
    ensures
        r is Err,
{
    let lines = text::lines_of(sums@);
    assert forall|j: int| 0 <= j < lines.len() implies line_digest(
        #[trigger] lines[j],
        asset@,
    ) is None by {
        if line_digest(lines[j], asset@) is Some {
            lemma_named_on_line(lines[j], asset@);
        }
    }
    lemma_none_listed(lines, asset@);
}

/// A line that names another asset says nothing of this one.
pub proof fn law_other_assets_are_passed_over(
    digest: Seq<char>,
    binary: bool,
    name: Seq<char>,
    asset: Seq<char>,
)
    requires
        solid(digest),
        solid(name),
        name[0] != '*',
    ensures
        line_digest(sum_line(digest, binary, name), asset) == (if name == asset {
            Some(text::lowered(digest))
        } else {
            None
        }),
{
    lemma_sum_words(digest, binary, name);
}

/// The two words of a line, the second without its star.
proof fn lemma_sum_words(digest: Seq<char>, binary: bool, name: Seq<char>)
    requires
        solid(digest),
        solid(name),
        name[0] != '*',
    ensures
        ({
            let line = sum_line(digest, binary, name);
            let (d, rest) = text::first_word(line)->0;
            let (n, _) = text::first_word(rest)->0;
            &&& text::first_word(line) is Some
            &&& d == digest
            &&& text::first_word(rest) is Some
            &&& text::left_trimmed(n, |c: char| c == '*') == name
        }),
{
    let line = sum_line(digest, binary, name);
    let rest = line.skip(digest.len() as int);
    let w = |c: char| text::white(c);
    assert(line[0] == digest[0]);
    text::lemma_left_trimmed(line, w, 0);
    assert(line.skip(0) =~= line);
    assert forall|i: int| 0 <= i < digest.len() implies !text::white(line[i]) by {
        assert(line[i] == digest[i]);
    }
    text::lemma_word_length(line, digest.len() as int);
    assert(line.take(digest.len() as int) =~= digest);
    let star = |c: char| c == '*';
    let k: int = if binary {
        1
    } else {
        2
    };
    let second = rest.skip(k);
    assert(rest[0] == ' ');
    if binary {
        assert(rest[1] == '*');
        assert(second =~= seq!['*'] + name);
    } else {
        assert(rest[1] == ' ' && rest[2] == name[0]);
        assert(second =~= name);
    }
    text::lemma_left_trimmed(rest, w, k);
    assert forall|i: int| 0 <= i < second.len() implies !text::white(second[i]) by {
        if binary {
            if i > 0 {
                assert(second[i] == name[i - 1]);
            }
        } else {
            assert(second[i] == name[i]);
        }
    }
    text::lemma_word_length(second, second.len() as int);
    assert(second.take(second.len() as int) =~= second);
    if binary {
        assert(second[1] == name[0]);
        text::lemma_left_trimmed(second, star, 1);
        assert(second.skip(1) =~= name);
    } else {
        text::lemma_left_trimmed(second, star, 0);
        assert(second.skip(0) =~= name);
    }
}

proof fn lemma_sum_line(digest: Seq<char>, binary: bool, asset: Seq<char>)
    requires
        solid(digest),
        solid(asset),
        asset[0] != '*',
    ensures
        line_digest(sum_line(digest, binary, asset), asset) == Some(text::lowered(digest)),
{
    lemma_sum_words(digest, binary, asset);
}

/// An asset that a line names occurs on it.
proof fn lemma_named_on_line(line: Seq<char>, asset: Seq<char>)
    requires
        line_digest(line, asset) is Some,
    ensures
        text::found(line, asset) is Some,
{
    let w = |c: char| text::white(c);
    let star = |c: char| c == '*';
    let (_, rest) = text::first_word(line)->0;
    let (name, _) = text::first_word(rest)->0;
    let t = text::left_trimmed(line, w);
    let u = text::left_trimmed(rest, w);
    text::lemma_left_trimmed_suffix(line, w);
    text::lemma_left_trimmed_suffix(rest, w);
    text::lemma_left_trimmed_suffix(name, star);
    text::lemma_word_bounds(t);
    text::lemma_word_bounds(u);
    let a = line.len() - t.len() + text::word_length(t) + (rest.len() - u.len()) + (name.len()
        - asset.len());
    assert(rest =~= line.skip(line.len() - t.len() + text::word_length(t)));
    assert(u =~= line.skip(line.len() - t.len() + text::word_length(t) + (rest.len() - u.len())));
    assert forall|i: int| 0 <= i < asset.len() implies line.skip(a)[i] == asset[i] by {
        assert(asset[i] == name[name.len() - asset.len() + i]);
        assert(name[name.len() - asset.len() + i] == u[name.len() - asset.len() + i]);
    }
    assert(line.skip(a).take(asset.len() as int) =~= asset);
    text::lemma_found_at(line, asset, a);
}

proof fn lemma_first_listed(lines: Seq<Seq<char>>, asset: Seq<char>, i: int)
    requires
        0 <= i < lines.len(),
        line_digest(lines[i], asset) is Some,
        forall|j: int| 0 <= j < i ==> line_digest(#[trigger] lines[j], asset) is None,
    ensures
        listed_digest(lines, asset) == line_digest(lines[i], asset),
    decreases i,
{
    if i > 0 {
        assert(line_digest(lines[0], asset) is None);
        assert forall|j: int| 0 <= j < i - 1 implies line_digest(
            #[trigger] lines.drop_first()[j],
            asset,
        ) is None by {
            assert(line_digest(lines[j + 1], asset) is None);
        }
        lemma_first_listed(lines.drop_first(), asset, i - 1);
    }
}

proof fn lemma_none_listed(lines: Seq<Seq<char>>, asset: Seq<char>)
    requires
        forall|j: int| 0 <= j < lines.len() ==> line_digest(#[trigger] lines[j], asset) is None,
    ensures
        listed_digest(lines, asset) is None,
    decreases lines.len(),
{
    if lines.len() > 0 {
        assert(line_digest(lines[0], asset) is None);
        assert forall|j: int| 0 <= j < lines.len() - 1 implies line_digest(
            #[trigger] lines.drop_first()[j],
            asset,
        ) is None by {
            assert(line_digest(lines[j + 1], asset) is None);
        }
        lemma_none_listed(lines.drop_first(), asset);
    }
}

/// A downloaded binary is accepted exactly where its digest, in hexadecimal, is
/// the listed one; so two that are accepted for one entry have one digest.
pub proof fn law_binary_is_the_listed_one(
    asset: &str,
    expected: &str,
    a: &[u8],
    b: &[u8],
    x: Result<(), String>,
    y: Result<(), String>,
)
    requires
        call_ensures(verify_binary, (asset, expected, a), x),
        call_ensures(verify_binary, (asset, expected, b), y),
    ensures
        x is Ok <==> hex_of(outside::sha256(a@)) == expected@,
        x is Ok && y is Ok ==> outside::sha256(a@) == outside::sha256(b@),
        x is Ok && y is Err ==> outside::sha256(a@) != outside::sha256(b@),
{
    if x is Ok && y is Ok {
        law_hex_tells_bytes_apart(outside::sha256(a@), outside::sha256(b@));
    }
}

/// The value of a lower-case hexadecimal digit.
pub open spec fn digit_value(c: char) -> int {
    if '0' <= c <= '9' {
        c as int - '0' as int
    } else {
        c as int - 'a' as int + 10
    }
}

/// Each byte is written as two lower-case digits, the high one first.
pub proof fn law_hex_writes_each_byte(bytes: &[u8], r: String, i: int)
    requires
        call_ensures(hex, (bytes,), r),
        0 <= i < bytes@.len(),
    ensures
        r@.len() == 2 * bytes@.len(),
        bytes@[i] == 16 * digit_value(r@[2 * i]) + digit_value(r@[2 * i + 1]),
        '0' <= r@[2 * i] <= '9' || 'a' <= r@[2 * i] <= 'f',
        '0' <= r@[2 * i + 1] <= '9' || 'a' <= r@[2 * i + 1] <= 'f',
{
    assert((2 * i) / 2 == i && (2 * i) % 2 == 0);
    assert((2 * i + 1) / 2 == i && (2 * i + 1) % 2 == 1);
}

/// A tag is accepted exactly where it has between one and 128 letters, digits,
/// dots, underscores and hyphens, and begins with neither a dot nor a hyphen.
pub proof fn law_which_tags_are_valid(tag: &str, r: Result<(), String>)
    requires
        call_ensures(validate_tag, (tag,), r),
    ensures
        r is Ok <==> {
            &&& 1 <= tag@.len() <= 128
            &&& tag@[0] != '.' && tag@[0] != '-'
            &&& forall|i: int|
                0 <= i < tag@.len() ==> {
                    let c = #[trigger] tag@[i];
                    ||| 'a' <= c <= 'z'
                    ||| 'A' <= c <= 'Z'
                    ||| '0' <= c <= '9'
                    ||| c == '.' || c == '_' || c == '-'
                }
        },
{
    if 1 <= tag@.len() <= 128 {
        assert(forall|i: int|
            0 <= i < tag@.len() ==> tag_char(#[trigger] tag@[i]) == ('a' <= tag@[i] <= 'z' || 'A'
                <= tag@[i] <= 'Z' || '0' <= tag@[i] <= '9' || tag@[i] == '.' || tag@[i] == '_'
                || tag@[i] == '-'));
    }
}

/// A failure is worth another attempt only where it may pass, and at most twice;
/// each pause is a second longer than the one before.
pub proof fn law_when_to_ask_again(attempt: u32, failure: HttpFailure, r: Option<u64>)
    requires
        call_ensures(retry_after, (attempt, failure), r),
    ensures
        r is Some <==> attempt < 2 && (match failure {
            HttpFailure::Transport => true,
            HttpFailure::Status(code) => code == 408 || code == 429 || (500 <= code && code < 600),
        }),
        r matches Some(pause) ==> pause == attempt + 1,
{
}

/// What the API names is the latest release; only where it names none, the
/// address that the page led to is asked.
pub proof fn law_api_wins_over_the_page(
    body: &[u8],
    tag: Seq<char>,
    page: Option<&str>,
    r: Result<String, String>,
)
    requires
        call_ensures(resolve_latest_version, (Some(body), page), r),
        outside::json_text(body@, "tag_name"@) == Some(Some(tag)),
        tag.len() > 0,
    ensures
        r matches Ok(latest) && latest@ == tag,
{
}

/// Without an answer from the API, the tag is what follows in the page's address.
pub proof fn law_page_names_the_tag(url: &str, head: Seq<char>, tag: Seq<char>, r: Result<String, String>)
    requires
        call_ensures(resolve_latest_version, (None, Some(url)), r),
        url@ == head + "/releases/tag/"@ + tag,
        text::found(url@, "/releases/tag/"@) == Some(head.len() as int),
        text::found(tag, "/releases/tag/"@) is None,
    ensures
        r is Ok <==> tag.len() > 0,
        r matches Ok(latest) ==> latest@ == tag,
{
    assert(url@.skip((head.len() + "/releases/tag/"@.len()) as int) =~= tag);
}

/// Without either there is no latest release.
pub proof fn law_no_answer_no_release(r: Result<String, String>)
    requires
        call_ensures(resolve_latest_version, (None, None), r),
    ensures
        r is Err,
{
}

/// Artifacts of a git ref are downloaded from that ref of the repository, and
/// those of a checkout are copied out of it.
pub proof fn law_artifacts_come_from_their_source(source: ArtifactSource, rel: &str, r: Fetch)
    requires
        call_ensures(ArtifactSource::fetch, (&source, rel), r),
    ensures
        source matches ArtifactSource::Ref(git_ref) ==> (r matches Fetch::Download(url) && url@
            == "https://raw.githubusercontent.com/"@ + "zeugmaster/pecan"@ + "/"@ + git_ref@ + "/"@
            + rel@),
        source matches ArtifactSource::Dir(dir) ==> (r matches Fetch::Copy(path) && path@
            == paths::below(dir@, rel@)),
{
}

/// A file of a release is had only for a valid tag, and from that release.
pub proof fn law_release_files(version: &str, file: &str, r: Result<String, String>)
    requires
        call_ensures(release_file_url, (version, file), r),
    ensures
        r is Ok <==> valid_tag(version@),
        r matches Ok(url) ==> url@ == "https://github.com/"@ + "zeugmaster/pecan"@
            + "/releases/download/"@ + version@ + "/"@ + file@,
{
}

/// Each published platform has an asset of its own, and no other has one.
pub proof fn law_assets_of_platforms(os: &str, arch: &str, r: Result<String, String>)
    requires
        call_ensures(binary_asset_name, (os, arch), r),
    ensures
        r is Ok <==> (os@ == "linux"@ || os@ == "macos"@) && (arch@ == "x86_64"@ || arch@
            == "aarch64"@),
        r matches Ok(name) ==> (os@ == "linux"@ ==> text::begins(name@, "mintctl-linux-"@)),
        r matches Ok(name) ==> (os@ == "macos"@ ==> text::begins(name@, "mintctl-darwin-"@)),
        r matches Ok(name) ==> (arch@ == "x86_64"@ ==> name@.skip(name@.len() - 5) == "amd64"@),
        r matches Ok(name) ==> (arch@ == "aarch64"@ ==> name@.skip(name@.len() - 5) == "arm64"@),
{
    reveal_strlit("linux");
    reveal_strlit("macos");
    reveal_strlit("darwin");
    reveal_strlit("x86_64");
    reveal_strlit("aarch64");
    reveal_strlit("amd64");
    reveal_strlit("arm64");
    reveal_strlit("mintctl-");
    reveal_strlit("-");
    reveal_strlit("mintctl-linux-");
    reveal_strlit("mintctl-darwin-");
    assert("linux"@[0] != "macos"@[0]);
    assert("x86_64"@.len() != "aarch64"@.len());
    if let Ok(name) = r {
        assert(name@.skip(name@.len() - 5) =~= asset_arch(arch@)->0);
        if os@ == "linux"@ {
            assert(name@.take(14) =~= "mintctl-linux-"@);
        }
        if os@ == "macos"@ {
            assert(name@.take(15) =~= "mintctl-darwin-"@);
        }
    }
}

/// Releases are asked for, and artifacts fetched, from the project's own
/// repository, under the name of this command and its version.
pub proof fn law_where_releases_are(
    stamped: Option<&'static str>,
    own: &'static str,
    agent: String,
    api: String,
    page: String,
    git_ref: String,
    rel: &str,
    failure: String,
)
    requires
        call_ensures(own_version, (stamped,), own),
        call_ensures(user_agent, (own,), agent),
        call_ensures(latest_api_url, (), api),
        call_ensures(latest_page_url, (), page),
        call_ensures(ArtifactSource::fetch_failure, (&ArtifactSource::Ref(git_ref), rel), failure),
    ensures
        stamped matches Some(version) ==> agent@ == "mintctl/"@ + version@,
        stamped is None ==> agent@ == "mintctl/"@ + "dev"@,
        api@ == "https://api.github.com/repos/"@ + "zeugmaster/pecan"@ + "/releases/latest"@,
        page@ == "https://github.com/"@ + "zeugmaster/pecan"@ + "/releases/latest"@,
        text::found(failure@, rel@) is Some,
        text::found(failure@, "zeugmaster/pecan"@ + "/"@ + git_ref@ + "/"@ + rel@) is Some,
{
    let base = "https://raw.githubusercontent.com/"@;
    let t = "zeugmaster/pecan"@ + "/"@ + git_ref@ + "/"@ + rel@;
    let head = "could not download "@;
    assert(failure@ =~= head + rel@ + (" from "@ + base + t));
    text::lemma_found_between(head, rel@, " from "@ + base + t);
    let before = head + rel@ + " from "@ + base;
    assert(failure@ =~= before + t + Seq::<char>::empty());
    text::lemma_found_between(before, t, Seq::empty());
}

/// A tag is one where the answer names it and it is not empty.
pub proof fn law_which_answers_name_a_tag(field: Option<Option<String>>, r: Option<String>)
    requires
        call_ensures(tag_in_field, (field,), r),
    ensures
        field matches Some(Some(tag)) ==> (tag@.len() > 0 ==> r == Some(tag)),
        field matches Some(Some(tag)) ==> (tag@.len() == 0 ==> r is None),
        field is None || field == Some(None::<String>) ==> r is None,
{
}

/// A digest is accepted exactly where its bytes, written out, are what was
/// expected; otherwise both are shown.
pub proof fn law_digests_are_compared(
    asset: &str,
    expected: &str,
    digest: &[u8],
    written: String,
    r: Result<(), String>,
)
    requires
        call_ensures(hex, (digest,), written),
        call_ensures(check_digest, (asset, expected, digest), r),
    ensures
        r is Ok <==> written@ == expected@,
        r matches Err(message) ==> message@ == "checksum mismatch for "@ + asset@ + ": expected "@
            + expected@ + ", got "@ + written@,
{
}

} // verus!
