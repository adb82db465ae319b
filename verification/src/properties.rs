//! The documents that the node exchanges with its platform: the properties
//! sheet, the seed phrase and the watchtower's description.

use vstd::prelude::*;
use crate::json::texts_view;
use crate::text::{decimal, push_decimal, push_str, string_from_chars};

verus! {

/// The properties sheet shown for the node.
#[derive(Debug, Clone)]
pub struct Properties {
    pub version: u8,
    pub data: Data,
}

/// The body of the properties sheet: the node's details, or a notice that they
/// are not available yet.
#[derive(Debug, Clone)]
pub enum Data {
    LND {
        sync_height: Property<String>,
        synced_to_chain: Property<String>,
        synced_to_graph: Property<String>,
        lnd_connect_grpc: Property<String>,
        lnd_connect_rest: Property<String>,
        node_uri: Property<String>,
        node_alias: Property<String>,
        node_id: Property<String>,
    },
    NotReady { not_ready: Property<String> },
}

/// One entry of the properties sheet.
#[derive(Debug, Clone)]
pub struct Property<T> {
    pub value_type: String,
    pub value: T,
    pub description: Option<String>,
    pub copyable: bool,
    pub qr: bool,
    pub masked: bool,
}

/// The seed phrase as the daemon hands it out: its words in order.
#[derive(Debug, Clone, PartialEq, Eq)]
pub struct CipherSeedMnemonic {
    pub cipher_seed_mnemonic: Vec<String>,
}

impl View for CipherSeedMnemonic {
    type V = Seq<Seq<char>>;

    open spec fn view(&self) -> Seq<Seq<char>> {
        texts_view(self.cipher_seed_mnemonic@)
    }
}

/// What the local watchtower server says of itself.
#[derive(Debug, Clone, PartialEq, Eq)]
pub struct TowerInfo {
    pub pubkey: String,
    pub listeners: Vec<String>,
    pub uris: Vec<String>,
}

/// The line of the recovery file for the word at position `index`, counted from
/// zero: its number, counted from one, a space, the word, a line feed.
pub open spec fn seed_line(index: nat, word: Seq<char>) -> Seq<char> {
    decimal(index + 1) + seq![' '] + word + seq!['\n']
}

/// The text of the recovery file: one line for each word, in order.
pub open spec fn seed_text(words: Seq<Seq<char>>) -> Seq<char>
    decreases words.len(),
{
    if words.len() == 0 {
        Seq::empty()
    } else {
        seed_text(words.drop_last()) + seed_line((words.len() - 1) as nat, words.last())
    }
}

/// The text of the recovery file for these words.
pub fn seed_file_text(words: &Vec<String>) -> (text: String)
    ensures
        text@ == seed_text(texts_view(words@)),
{
    let ghost all = texts_view(words@);
    let mut out: Vec<char> = Vec::new();
    let mut i: usize = 0;
    while i < words.len()
        invariant
            i <= words.len(),
            all == texts_view(words@),
            out@ == seed_text(all.take(i as int)),
        decreases words.len() - i,
    {
        let ghost before = out@;
        // A vector holds fewer than 2^64 words, so the line number fits.
        let number: u64 = (i as u64) + 1;
        push_decimal(&mut out, number);
        out.push(' ');
        push_str(&mut out, words[i].as_str());
        out.push('\n');
        proof {
            let next = all.take(i + 1);
            assert(next.drop_last() =~= all.take(i as int));
            assert(next.last() == words@[i as int]@);
            assert(out@ =~= before + seed_line(i as nat, words@[i as int]@));
        }
        i += 1;
    }
    assert(all.take(words.len() as int) =~= all);
    string_from_chars(&out)
}

} // verus!
