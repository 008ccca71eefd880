//! The crash-dump description: key/value contributions a process may attach
//! to an in-progress crash dump while the vendor runtime requests them.

use vstd::prelude::*;
use vstd::string::StringExecFns;

verus! {

/// An ordered record of the key/value pairs contributed during one
/// description request. Pairs are recorded in the order they were added,
/// and only pairs added before the request returns are recorded at all.
pub struct CrashDumpDescription {
    pub pairs: Vec<(String, String)>,
}

impl View for CrashDumpDescription {
    type V = Seq<(Seq<char>, Seq<char>)>;

    open spec fn view(&self) -> Seq<(Seq<char>, Seq<char>)> {
        self.pairs@.map(|i: int, p: (String, String)| (p.0@, p.1@))
    }
}

impl CrashDumpDescription {
    /// An empty description: nothing has been contributed yet.
    pub fn new() -> (d: CrashDumpDescription)
        ensures
            d@ == Seq::<(Seq<char>, Seq<char>)>::empty(),
    {
        let d = CrashDumpDescription { pairs: Vec::new() };
        proof {
            assert(d@ =~= Seq::<(Seq<char>, Seq<char>)>::empty());
        }
        d
    }

    /// Records one key/value pair, after every pair recorded so far:
    /// the order of contributions is preserved.
    pub fn add(&mut self, key: &str, value: &str)
        ensures
            final(self)@ == old(self)@.push((key@, value@)),
    {
        self.pairs.push((String::from_str(key), String::from_str(value)));
        proof {
            assert(self@ =~= old(self)@.push((key@, value@)));
        }
    }

    /// How many pairs have been recorded.
    pub fn len(&self) -> (n: usize)
        ensures
            n == self@.len(),
    {
        self.pairs.len()
    }
}

} // verus!
