//! The layout of the node's data directory.

use vstd::prelude::*;
use crate::text::{occurs_at, push_str, string_from_chars, to_chars, chars_match_at};

verus! {

/// A file or directory of the layout.
#[derive(Clone, Copy, Debug, PartialEq, Eq, Structural)]
pub enum Entry {
    /// The operator's configuration.
    Config,
    /// The alias chosen at the first start.
    DefaultAlias,
    /// The daemon's configuration file.
    DaemonConfig,
    /// The directory shared with dependent services.
    PublicDir,
    /// The list of what a backup leaves out.
    BackupIgnore,
    /// The file that the backup-ignore list is written to first.
    BackupIgnoreTemp,
    /// The marker of a pending restore.
    RestoreMarker,
    /// The channel backup.
    ChannelBackup,
    /// The routing-graph cache.
    GraphCache,
    /// The credential file.
    Credential,
    /// The file that a new secret is written to first.
    CredentialTemp,
    /// The daemon's TLS certificate.
    TlsCert,
    /// The recovery file with the seed phrase.
    SeedFile,
    /// The directory of the credential files for dependent services.
    MacaroonDir,
    /// The credential file whose presence shows that the wallet is open.
    AdminMacaroon,
    /// The published URL of the tower server.
    TowerUrl,
}

impl Entry {
    /// Where the entry lies below the data directory.
    pub open spec fn relative(self) -> Seq<char> {
        match self {
            Entry::Config => "start9/config.yaml"@,
            Entry::DefaultAlias => "default_alias.txt"@,
            Entry::DaemonConfig => "lnd.conf"@,
            Entry::PublicDir => "public"@,
            Entry::BackupIgnore => ".backupignore"@,
            Entry::BackupIgnoreTemp => ".backupignore.tmp"@,
            Entry::RestoreMarker => "start9/restore.yaml"@,
            Entry::ChannelBackup => "data/chain/bitcoin/mainnet/channel.backup"@,
            Entry::GraphCache => "data/graph"@,
            Entry::Credential => "pwd.dat"@,
            Entry::CredentialTemp => "new_pwd.dat"@,
            Entry::TlsCert => "tls.cert"@,
            Entry::SeedFile => "start9/cipherSeedMnemonic.txt"@,
            Entry::MacaroonDir => "data/chain/bitcoin/mainnet"@,
            Entry::AdminMacaroon => "data/chain/bitcoin/mainnet/admin.macaroon"@,
            Entry::TowerUrl => "start9/towerServerUrl"@,
        }
    }

    fn relative_text(&self) -> (r: &'static str)
        ensures
            r@ == self.relative(),
    {
        match self {
            Entry::Config => "start9/config.yaml",
            Entry::DefaultAlias => "default_alias.txt",
            Entry::DaemonConfig => "lnd.conf",
            Entry::PublicDir => "public",
            Entry::BackupIgnore => ".backupignore",
            Entry::BackupIgnoreTemp => ".backupignore.tmp",
            Entry::RestoreMarker => "start9/restore.yaml",
            Entry::ChannelBackup => "data/chain/bitcoin/mainnet/channel.backup",
            Entry::GraphCache => "data/graph",
            Entry::Credential => "pwd.dat",
            Entry::CredentialTemp => "new_pwd.dat",
            Entry::TlsCert => "tls.cert",
            Entry::SeedFile => "start9/cipherSeedMnemonic.txt",
            Entry::MacaroonDir => "data/chain/bitcoin/mainnet",
            Entry::AdminMacaroon => "data/chain/bitcoin/mainnet/admin.macaroon",
            Entry::TowerUrl => "start9/towerServerUrl",
        }
    }
}

/// A relative path below a directory: the two with one slash between them,
/// which is left out where the directory is empty or ends in a slash.
pub open spec fn join_spec(base: Seq<char>, relative: Seq<char>) -> Seq<char> {
    if base.len() == 0 || base.last() == '/' {
        base + relative
    } else {
        base + seq!['/'] + relative
    }
}

/// The layout below one data directory.
#[derive(Debug, Clone, PartialEq, Eq)]
pub struct Paths {
    pub base: String,
}

impl Paths {
    /// The layout below `base`.
    pub fn under(base: &str) -> (paths: Paths)
        ensures
            paths.base@ == base@,
    {
        Paths { base: base.to_owned() }
    }

    /// The path of an entry.
    pub fn at(&self, entry: Entry) -> (path: String)
        ensures
            path@ == join_spec(self.base@, entry.relative()),
    {
        let mut out = to_chars(self.base.as_str());
        if out.len() > 0 && out[out.len() - 1] != '/' {
            out.push('/');
        }
        push_str(&mut out, entry.relative_text());
        assert(out@ =~= join_spec(self.base@, entry.relative()));
        string_from_chars(&out)
    }
}

/// The ending of the credential files that are shared.
pub open spec fn macaroon_suffix() -> Seq<char> {
    ".macaroon"@
}

/// A file is shared where its name is a stem that is not empty, followed by
/// `.macaroon`.
pub open spec fn is_macaroon_spec(name: Seq<char>) -> bool {
    name.len() > macaroon_suffix().len() && occurs_at(
        name,
        macaroon_suffix(),
        name.len() - macaroon_suffix().len(),
    )
}

/// Whether a file of the credential directory is one of those shared with
/// dependent services.
pub fn is_macaroon(name: &str) -> (r: bool)
    ensures
        r == is_macaroon_spec(name@),
{
    let chars = to_chars(name);
    let suffix = to_chars(".macaroon");
    if chars.len() <= suffix.len() {
        return false;
    }
    chars_match_at(&chars, &suffix, chars.len() - suffix.len())
}

} // verus!
