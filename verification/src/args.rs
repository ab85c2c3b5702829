//! The flags of the subcommands that take more than a few.

use vstd::prelude::*;

verus! {

/// The flags of `mintctl install`.
pub struct InstallArgs {
    /// Answer every prompt with its default (non-interactive).
    pub yes: bool,
    /// Serve the operator console at https://<hostname> via the bundled Caddy.
    pub console_domain: Option<String>,
    /// ACME account email for certificate notices.
    pub email: Option<String>,
    /// Install directory (root on Linux: /opt/pecan; otherwise ~/pecan).
    pub dir: Option<String>,
    /// Pin a release instead of resolving the latest.
    pub version: Option<String>,
    /// Host port for the operator console.
    pub ui_port: u16,
    /// Host bind address override for the console port.
    pub bind: Option<String>,
    /// Plain HTTP on the console port (LAN/testing): no domain, no TLS.
    pub plain_http: bool,
    /// Run behind your own reverse proxy: loopback bind and ready-made snippets.
    pub behind_proxy: bool,
    /// Bind address for the payment gRPC your cdk-mintd connects to
    /// (default 127.0.0.1; use 0.0.0.0 for a mint on another machine).
    pub grpc_bind: Option<String>,
    /// Host port for the payment gRPC (second instances need distinct ports).
    pub grpc_port: u16,
    /// Also run a mint on this server (official cashubtc/mintd image),
    /// configured and connected by the installer.
    pub with_mint: bool,
    /// Currency unit this install serves (lowercase letters, digits, - and _).
    /// Required with --with-mint; with --mint-url it pre-attaches an existing
    /// mint headlessly.
    pub unit: Option<String>,
    /// Public hostname for the bundled mint (wallets connect here); required
    /// with --with-mint unless --plain-http.
    pub mint_domain: Option<String>,
    /// With --unit (and no --with-mint): the existing mint's public URL to
    /// pre-attach. With --with-mint: override the derived mint URL (CI/NAT).
    pub mint_url: Option<String>,
    /// With --unit --mint-url: the host:port your mintd dials to reach this
    /// processor (default derived from the gRPC bind and public IP).
    pub advertised_grpc: Option<String>,
    /// Host port for the bundled mint's wallet-facing HTTP API (default 3338).
    pub mint_port: Option<u16>,
    /// Pin the bundled mint's image tag (default: the release-tested one).
    pub mint_version: Option<String>,
    /// Headless consent to install Docker via get.docker.com when missing.
    pub install_docker: bool,
    /// (testing) Fetch artifacts from this git ref instead of the release tag.
    pub artifact_ref: Option<String>,
    /// (testing) Copy artifacts from a local checkout.
    pub artifacts_dir: Option<String>,
    /// (testing) Use a locally built image, skip the pull.
    pub no_pull: bool,
}

/// The flags of `mintctl update`.
pub struct UpdateArgs {
    /// Update to this release instead of the latest.
    pub version: Option<String>,
    /// Update only the bundled mint to this tag; combine with --version to
    /// update both.
    pub mint_version: Option<String>,
    /// Also update the bundled mint to the target Pecan release's tested
    /// version.
    pub with_mint: bool,
    /// Show the proposed versions without changing the installation.
    pub check: bool,
    /// Non-interactive.
    pub yes: bool,
    /// (testing) Fetch artifacts from this git ref instead of the release tag.
    pub artifact_ref: Option<String>,
    /// (testing) Copy artifacts from a local checkout.
    pub artifacts_dir: Option<String>,
    /// (testing) Skip the image pull.
    pub no_pull: bool,
}

/// The flags of `mintctl domain`.
pub struct DomainArgs {
    /// The console's public hostname.
    pub console_domain: Option<String>,
    /// Bundled-mint installs only: the mint's public hostname.
    pub mint_domain: Option<String>,
    /// ACME account email for certificate notices.
    pub email: Option<String>,
    /// Switch to plain HTTP (drop TLS).
    pub plain_http: bool,
    /// Run behind your own reverse proxy (needs --console-domain).
    pub behind_proxy: bool,
    /// Non-interactive: apply the flags without the guided flow.
    pub yes: bool,
}

} // verus!
