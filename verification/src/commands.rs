//! The commands of the companion tool: the arguments of each.

use vstd::prelude::*;
use crate::json::texts_view;

verus! {

/// The argument that names the daemon to the tool.
pub open spec fn rpc_server_arg() -> Seq<char> {
    "--rpcserver=lnd.embassy"@
}

/// The arguments that ask the local tower server for its description.
pub open spec fn tower_info_spec() -> Seq<Seq<char>> {
    seq![rpc_server_arg(), "tower"@, "info"@]
}

/// The arguments that attach the node to the tower with this URI.
pub open spec fn add_tower_spec(uri: Seq<char>) -> Seq<Seq<char>> {
    seq![rpc_server_arg(), "wtclient"@, "add"@, uri]
}

/// The arguments that restore the channels from the backup file at this path.
pub open spec fn restore_backup_spec(path: Seq<char>) -> Seq<Seq<char>> {
    seq![rpc_server_arg(), "restorechanbackup"@, "--multi_file"@, path]
}

/// The arguments of `tower info`.
pub fn tower_info_args() -> (args: Vec<String>)
    ensures
        texts_view(args@) == tower_info_spec(),
{
    let mut args: Vec<String> = Vec::new();
    args.push("--rpcserver=lnd.embassy".to_owned());
    args.push("tower".to_owned());
    args.push("info".to_owned());
    assert(texts_view(args@) =~= tower_info_spec());
    args
}

/// The arguments of `wtclient add` for one tower.
pub fn add_tower_args(uri: &str) -> (args: Vec<String>)
    ensures
        texts_view(args@) == add_tower_spec(uri@),
{
    let mut args: Vec<String> = Vec::new();
    args.push("--rpcserver=lnd.embassy".to_owned());
    args.push("wtclient".to_owned());
    args.push("add".to_owned());
    args.push(uri.to_owned());
    assert(texts_view(args@) =~= add_tower_spec(uri@));
    args
}

/// The arguments of `restorechanbackup` for one backup file.
pub fn restore_backup_args(path: &str) -> (args: Vec<String>)
    ensures
        texts_view(args@) == restore_backup_spec(path@),
{
    let mut args: Vec<String> = Vec::new();
    args.push("--rpcserver=lnd.embassy".to_owned());
    args.push("restorechanbackup".to_owned());
    args.push("--multi_file".to_owned());
    args.push(path.to_owned());
    assert(texts_view(args@) =~= restore_backup_spec(path@));
    args
}

} // verus!
