//! Cluster-wide configuration: where the node pool file and the word list
//! live.
use vstd::prelude::*;
use crate::path::{
    DOT, SLASH,
    ascii_bytes, ascii_bytes_spec, only_empty_segments, push_spec, skip_empty_back, skip_empty_front,
    strip_tilde,
};
use crate::dir_utils::{expand_tilde_spec, expanded_file, expanded_file_spec, opt_view};

verus! {

/// A node of the pool as the configuration file lists it.
#[derive(Debug)]
pub struct Node {
    pub id: u8,
    pub hostname: String,
    pub port: u32,
}

/// Entry point to the cluster's configuration.
pub struct ClusterConfig {}

/// Name of the file, inside the configuration directory, that lists the
/// node pool.
pub open spec fn config_filename() -> Seq<char> {
    "cluster.config.json"@
}

/// Directory of the cluster's data, before `~` expansion.
pub open spec fn data_dir() -> Seq<u8> {
    ascii_bytes_spec("~/.corgi/data"@)
}

/// Name of the word list inside the data directory.
pub open spec fn words_filename() -> Seq<u8> {
    ascii_bytes_spec("words"@)
}

/// The word list is `~/.corgi/data/words` expanded, whatever the home
/// directory: finding the data directory and then the file in it gives
/// the same path as expanding the whole path at once.
pub proof fn words_file_is_expanded_path(home: Option<Seq<u8>>)
    ensures
        expanded_file_spec(data_dir(), words_filename(), home) == expand_tilde_spec(
            ascii_bytes_spec("~/.corgi/data/words"@),
            home,
        ),
{
    reveal_strlit("~/.corgi/data");
    reveal_strlit("words");
    reveal_strlit("~/.corgi/data/words");
    let d = data_dir();
    let w = ascii_bytes_spec("~/.corgi/data/words"@);
    assert(d.len() == 13 && w.len() == 19);
    assert(!only_empty_segments(d.skip(1))) by {
        assert(d.skip(1)[1] == DOT && d.skip(1)[2] == 99u8);
    }
    assert(!only_empty_segments(w.skip(1))) by {
        assert(w.skip(1)[1] == DOT && w.skip(1)[2] == 99u8);
    }
    assert(skip_empty_front(d, 2) == 2);
    assert(skip_empty_front(w, 2) == 2);
    assert(skip_empty_back(d, 2, 13) == 13);
    assert(skip_empty_back(w, 2, 19) == 19);
    let rd = strip_tilde(d);
    let rw = strip_tilde(w);
    assert(rw =~= rd + seq![SLASH] + words_filename());
    if let Some(h) = home {
        let e = push_spec(h, rd);
        assert(e.last() == 97u8);
        assert(push_spec(e, words_filename()) =~= push_spec(h, rw));
    }
}

impl ClusterConfig {
    /// The name of the file that lists the node pool.
    pub fn get_config_filename() -> (name: String)
        ensures
            name@ == config_filename(),
    {
        "cluster.config.json".to_owned()
    }

    /// The node pool file inside the configuration directory `dir`, after
    /// `~` expansion of `dir`; none where `dir` needs a home directory and
    /// there is none.
    pub fn config_file_path(dir: &[u8]) -> (path: Option<Vec<u8>>)
        ensures
            exists|home: Option<Seq<u8>>|
                opt_view(path) == #[trigger] expanded_file_spec(
                    dir@,
                    ascii_bytes_spec(config_filename()),
                    home,
                ),
    {
        let name = Self::get_config_filename();
        let name = ascii_bytes(name.as_str());
        let path = expanded_file(dir, name.as_slice());
        proof {
            let home = choose|home: Option<Seq<u8>>|
                opt_view(path) == #[trigger] expanded_file_spec(dir@, name@, home);
            assert(expanded_file_spec(dir@, ascii_bytes_spec(config_filename()), home)
                == expanded_file_spec(dir@, name@, home));
        }
        path
    }

    /// The word list that servers send to their clients:
    /// `~/.corgi/data/words`, expanded; none where there is no home
    /// directory.
    pub fn get_words_file() -> (path: Option<Vec<u8>>)
        ensures
            exists|home: Option<Seq<u8>>|
                opt_view(path) == #[trigger] expanded_file_spec(
                    data_dir(),
                    words_filename(),
                    home,
                ),
    {
        let dir = ascii_bytes("~/.corgi/data");
        let name = ascii_bytes("words");
        let path = expanded_file(dir.as_slice(), name.as_slice());
        proof {
            let home = choose|home: Option<Seq<u8>>|
                opt_view(path) == #[trigger] expanded_file_spec(dir@, name@, home);
            assert(expanded_file_spec(data_dir(), words_filename(), home) == expanded_file_spec(dir@, name@, home));
        }
        path
    }
}

} // verus!
