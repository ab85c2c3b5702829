use mintctl::mint::{
    generate_mnemonic, is_reserved_unit, render_config_toml, validate_unit_slug, write_mint_files,
};
use mintctl::release::{
    binary_asset_name, check_digest, expected_digest, hex, latest_api_url, latest_page_url,
    own_version, release_file_url, resolve_latest_version, retry_after, tag_from_api, tag_from_url,
    tag_in_field, user_agent, validate_tag, verify_binary, ArtifactSource, Fetch, HttpFailure,
};
use sha2::{Digest, Sha256};

#[test]
fn asset_name_matches_this_platform() {
    let name = binary_asset_name("linux", "x86_64").expect("supported platform");
    assert!(name.starts_with("mintctl-"));
    assert!(name.contains("amd64") || name.contains("arm64"));
}

#[test]
fn asset_names_are_published_for_four_platforms() {
    assert_eq!(binary_asset_name("linux", "x86_64"), Ok("mintctl-linux-amd64".to_string()));
    assert_eq!(binary_asset_name("macos", "aarch64"), Ok("mintctl-darwin-arm64".to_string()));
    assert_eq!(
        binary_asset_name("windows", "x86_64"),
        Err("no mintctl binaries are published for windows".to_string())
    );
    assert_eq!(
        binary_asset_name("linux", "riscv64"),
        Err("no mintctl binaries are published for riscv64".to_string())
    );
}

#[test]
fn hex_encodes_lowercase() {
    assert_eq!(hex(&[0xde, 0xad, 0x01]), "dead01");
}

#[test]
fn mnemonic_is_twelve_valid_words() {
    let m = generate_mnemonic();
    assert_eq!(m.split_whitespace().count(), 12);
    // Round-trips through the bip39 parser (checksum holds).
    m.parse::<bip39::Mnemonic>().expect("valid mnemonic");
    // And two generations differ.
    assert_ne!(m, generate_mnemonic());
}

#[test]
fn mnemonic_is_what_its_contract_says() {
    let m = generate_mnemonic();
    let words: Vec<&str> = m.split(' ').collect();
    assert_eq!(words.len(), 12);
    for word in words {
        assert!(!word.is_empty() && word.chars().all(|c| c.is_ascii_lowercase()));
    }
}

#[test]
fn mnemonic_ends_in_its_checksum() {
    let m = generate_mnemonic();
    let list = bip39::Language::English.word_list();
    let mut bits: Vec<bool> = Vec::new();
    for word in m.split(' ') {
        let index = list.iter().position(|w| *w == word).expect("an English word");
        for k in 0..11 {
            bits.push((index >> (10 - k)) & 1 == 1);
        }
    }
    assert_eq!(bits.len(), 132);
    let mut entropy = [0u8; 16];
    for (i, bit) in bits[..128].iter().enumerate() {
        if *bit {
            entropy[i / 8] |= 1 << (7 - i % 8);
        }
    }
    let checksum = bits[128..].iter().fold(0u8, |n, bit| 2 * n + u8::from(*bit));
    assert_eq!(Sha256::digest(entropy)[0] / 16, checksum);
}

#[test]
fn unit_slug_rule_matches_the_processor() {
    assert_eq!(validate_unit_slug(" ORA ").expect("ok"), "ora");
    assert_eq!(validate_unit_slug("x_1-2").expect("ok"), "x_1-2");
    assert!(validate_unit_slug("").is_err());
    assert!(validate_unit_slug("no spaces").is_err());
    assert!(validate_unit_slug("ümlaut").is_err());
}

#[test]
fn refused_units_say_why() {
    assert_eq!(
        validate_unit_slug("  ").unwrap_err(),
        "the unit is required (a short name like \"ora\")"
    );
    assert_eq!(
        validate_unit_slug("a\"b").unwrap_err(),
        "the unit may only contain lowercase letters, digits, - and _ (got \"a\\\"b\")"
    );
    for unit in ["sat", "msat", "btc", "usd", "eur", "auth"] {
        assert!(is_reserved_unit(unit));
        assert!(validate_unit_slug(unit).is_ok());
    }
    assert!(!is_reserved_unit("ora"));
}

#[test]
fn config_toml_carries_the_unit_and_backend() {
    let toml = render_config_toml("ora", "https://mint.example.org");
    assert!(toml.contains("[[payment_backend]]"));
    assert!(toml.contains("backend = \"grpcprocessor\""));
    assert!(toml.contains("unit = \"ora\""));
    assert!(toml.contains("supported_units = [\"ora\"]"));
    assert!(toml.contains("url = \"https://mint.example.org\""));
    assert!(toml.contains("mnemonic = \"file:/run/secrets/mint-mnemonic\""));
    assert!(toml.contains("address = \"processor\""));
    assert!(!toml.contains("[[ln]]"));
}

#[test]
fn config_toml_is_whole() {
    let toml = render_config_toml("ora", "http://1.2.3.4:3338");
    assert!(toml.starts_with("# Pecan — bundled mint (cdk-mintd) import document.\n#\n"));
    assert!(toml.contains("[info]\nurl = \"http://1.2.3.4:3338\"\nlisten_host = \"0.0.0.0\"\nlisten_port = 8085\n"));
    assert!(toml.contains("name = \"ora mint\"\ndescription = \"Ecash mint for the ora unit, operated with Pecan\"\n\n[database]\n"));
    assert!(toml.ends_with("allow_insecure = true\n"));
    assert_eq!(toml.matches("ora").count(), 4);
}

#[test]
fn mint_files_are_private_and_the_seed_is_made_once() {
    let seed = "word ".repeat(12);
    let files = write_mint_files("/srv/p", "ora", "http://1.2.3.4:3338", seed.trim(), false)
        .ok()
        .expect("write");
    assert_eq!(files.dir, "/srv/p/mint");
    assert_eq!(files.dir_mode, 0o700);
    assert_eq!(files.seed.path, "/srv/p/mint/mnemonic");
    assert_eq!(files.seed.mode, 0o600);
    assert_eq!(files.seed.contents, seed.trim());
    assert!(files.seed.exclusive);
    assert_eq!(files.config.path, "/srv/p/mint/config.toml");
    assert_eq!(files.config.mode, 0o600);
    assert_eq!(
        write_mint_files("/srv/p", "ora", "http://1.2.3.4:3338", "other", true)
            .err()
            .expect("refused"),
        "/srv/p/mint/mnemonic already exists — refusing to overwrite a mint seed or configuration"
    );
}

#[test]
fn tags_are_validated() {
    for tag in ["v1.2.3", "_x", "0.18.0-rc.0", "mint-new"] {
        assert_eq!(validate_tag(tag), Ok(()));
    }
    assert_eq!(validate_tag(&"a".repeat(128)), Ok(()));
    for tag in ["", ".x", "-x", "a b", "a\nVERSION=x", "é", "a/b"] {
        assert!(validate_tag(tag).is_err());
    }
    assert!(validate_tag(&"a".repeat(129)).is_err());
    assert_eq!(
        validate_tag("tag\nVERSION=unexpected").unwrap_err(),
        "invalid image/release tag \"tag\\nVERSION=unexpected\"; use letters, digits, dots, underscores and hyphens"
    );
}

#[test]
fn the_latest_release_comes_from_the_api_or_the_page() {
    assert_eq!(tag_from_api(br#"{"tag_name":"v1.2.3"}"#).as_deref(), Some("v1.2.3"));
    assert_eq!(tag_from_api(br#"{"tag_name":""}"#), None);
    assert_eq!(tag_from_api(br#"{"tag_name":3}"#), None);
    assert_eq!(tag_from_api(b"<html>"), None);
    assert_eq!(tag_in_field(Some(Some("v1".to_string()))).as_deref(), Some("v1"));
    assert_eq!(tag_in_field(Some(None)), None);
    let page = "https://github.com/zeugmaster/pecan/releases/tag/v2.0.0";
    assert_eq!(tag_from_url(page).as_deref(), Ok("v2.0.0"));
    assert!(tag_from_url("https://github.com/zeugmaster/pecan/releases").is_err());
    assert!(tag_from_url("https://x/releases/tag/").is_err());
    assert_eq!(
        resolve_latest_version(Some(br#"{"tag_name":"v1.2.3"}"#), None).as_deref(),
        Ok("v1.2.3")
    );
    assert_eq!(resolve_latest_version(Some(b"{}"), Some(page)).as_deref(), Ok("v2.0.0"));
    assert_eq!(resolve_latest_version(None, Some(page)).as_deref(), Ok("v2.0.0"));
    assert!(resolve_latest_version(None, None).is_err());
    assert_eq!(latest_api_url(), "https://api.github.com/repos/zeugmaster/pecan/releases/latest");
    assert_eq!(latest_page_url(), "https://github.com/zeugmaster/pecan/releases/latest");
}

#[test]
fn requests_are_tried_three_times() {
    assert_eq!(retry_after(0, HttpFailure::Transport), Some(1));
    assert_eq!(retry_after(1, HttpFailure::Status(503)), Some(2));
    assert_eq!(retry_after(2, HttpFailure::Transport), None);
    assert_eq!(retry_after(0, HttpFailure::Status(404)), None);
    assert_eq!(retry_after(0, HttpFailure::Status(408)), Some(1));
    assert_eq!(retry_after(0, HttpFailure::Status(429)), Some(1));
    assert_eq!(retry_after(0, HttpFailure::Status(600)), None);
    assert_eq!(own_version(None), "dev");
    assert_eq!(own_version(Some("v1")), "v1");
    assert_eq!(user_agent("v1"), "mintctl/v1");
}

#[test]
fn artifacts_come_from_a_ref_or_a_directory() {
    match ArtifactSource::Ref("v1".to_string()).fetch("Caddyfile") {
        Fetch::Download(url) => assert_eq!(
            url,
            "https://raw.githubusercontent.com/zeugmaster/pecan/v1/Caddyfile"
        ),
        Fetch::Copy(_) => panic!("not a copy"),
    }
    let dir = ArtifactSource::Dir("/src".to_string());
    match dir.fetch("Caddyfile") {
        Fetch::Copy(path) => assert_eq!(path, "/src/Caddyfile"),
        Fetch::Download(_) => panic!("not a download"),
    }
    assert_eq!(dir.fetch_failure("Caddyfile"), "copy Caddyfile from /src");
}

#[test]
fn binaries_are_verified_against_the_sums() {
    let sums = "00ff  other\nBA7816BF8F01CFEA414140DE5DAE2223B00361A396177A9CB410FF61F20015AD *mintctl-linux-amd64\n";
    let expected = expected_digest(sums, "mintctl-linux-amd64", "v1").expect("listed");
    assert_eq!(
        expected,
        "ba7816bf8f01cfea414140de5dae2223b00361a396177a9cb410ff61f20015ad"
    );
    assert_eq!(verify_binary("mintctl-linux-amd64", &expected, b"abc"), Ok(()));
    let mismatch = verify_binary("mintctl-linux-amd64", &expected, b"abd").unwrap_err();
    assert!(mismatch.starts_with("checksum mismatch for mintctl-linux-amd64: expected ba78"));
    assert_eq!(check_digest("a", "dead", &[0xde, 0xad]), Ok(()));
    assert_eq!(
        check_digest("a", "dead", &[0xde, 0xae]),
        Err("checksum mismatch for a: expected dead, got deae".to_string())
    );
    assert_eq!(
        expected_digest(sums, "missing", "v1"),
        Err("missing is not listed in the v1 SHA256SUMS".to_string())
    );
    assert_eq!(
        release_file_url("v1", "SHA256SUMS").as_deref(),
        Ok("https://github.com/zeugmaster/pecan/releases/download/v1/SHA256SUMS")
    );
    assert!(release_file_url("../x", "SHA256SUMS").is_err());
}
