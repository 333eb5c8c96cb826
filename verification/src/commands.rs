//! The command table: an immutable mapping from trigger line to response
//! line, matched exactly against trimmed logical lines. The table is built
//! once, from pairs of adjacent lines (trigger, then response), and is only
//! read afterwards.

use vstd::prelude::*;

verus! {

use crate::linebuf::NL;

/// Holds for the bytes that trimming strips from both ends of a line:
/// space and the ASCII control whitespace (tab through carriage return).
pub open spec fn is_ws(b: u8) -> bool {
    b == 32 || (9 <= b && b <= 13)
}

/// `s` without its leading whitespace.
pub open spec fn trim_front(s: Seq<u8>) -> Seq<u8>
    decreases s.len(),
{
    if s.len() > 0 && is_ws(s.first()) {
        trim_front(s.drop_first())
    } else {
        s
    }
}

/// `s` without its trailing whitespace.
pub open spec fn trim_back(s: Seq<u8>) -> Seq<u8>
    decreases s.len(),
{
    if s.len() > 0 && is_ws(s.last()) {
        trim_back(s.drop_last())
    } else {
        s
    }
}

/// `s` without leading and trailing whitespace: the form in which a logical
/// line is matched against the table.
pub open spec fn trimmed(s: Seq<u8>) -> Seq<u8> {
    trim_back(trim_front(s))
}

/// The mapping that a sequence of (trigger, response) pairs builds up when
/// inserted in order: a later pair with the same trigger wins.
pub open spec fn table_map(pairs: Seq<(Seq<u8>, Seq<u8>)>) -> Map<Seq<u8>, Seq<u8>>
    decreases pairs.len(),
{
    if pairs.len() == 0 {
        Map::empty()
    } else {
        table_map(pairs.drop_last()).insert(pairs.last().0, pairs.last().1)
    }
}

/// The (trigger, response) pairs read off a flat list of lines: the first
/// line of each adjacent pair is the trigger, the second the response; a
/// trailing unpaired line is ignored.
pub open spec fn line_pairs(lines: Seq<Seq<u8>>) -> Seq<(Seq<u8>, Seq<u8>)>
    decreases lines.len(),
{
    if lines.len() < 2 {
        Seq::empty()
    } else if lines.len() % 2 == 1 {
        line_pairs(lines.drop_last())
    } else {
        line_pairs(lines.take(lines.len() - 2)).push(
            (lines[lines.len() - 2], lines[lines.len() - 1]),
        )
    }
}

/// Copies `v[lo..hi]` into a fresh vector.
pub fn copy_range(v: &Vec<u8>, lo: usize, hi: usize) -> (r: Vec<u8>)
    requires
        lo <= hi <= v@.len(),
    ensures
        r@ == v@.subrange(lo as int, hi as int),
{
    let mut r: Vec<u8> = Vec::new();
    let mut k = lo;
    while k < hi
        invariant
            lo <= k <= hi <= v@.len(),
            r@ == v@.subrange(lo as int, k as int),
        decreases hi - k,
    {
        r.push(v[k]);
        proof {
            assert(v@.subrange(lo as int, k + 1) =~= v@.subrange(lo as int, k as int).push(
                v@[k as int],
            ));
        }
        k = k + 1;
    }
    r
}

/// Copies a whole byte vector.
pub fn copy_bytes(v: &Vec<u8>) -> (r: Vec<u8>)
    ensures
        r@ == v@,
{
    let r = copy_range(v, 0, v.len());
    proof {
        assert(v@.subrange(0, v@.len() as int) =~= v@);
    }
    r
}

/// Compares two byte vectors for equality of contents.
pub fn bytes_eq(a: &Vec<u8>, b: &Vec<u8>) -> (r: bool)
    ensures
        r == (a@ == b@),
{
    if a.len() != b.len() {
        return false;
    }
    let mut k: usize = 0;
    while k < a.len()
        invariant
            k <= a@.len(),
            a@.len() == b@.len(),
            forall|i: int| 0 <= i < k ==> a@[i] == b@[i],
        decreases a@.len() - k,
    {
        if a[k] != b[k] {
            return false;
        }
        k = k + 1;
    }
    proof {
        assert(a@ =~= b@);
    }
    true
}

/// Strips leading and trailing whitespace from a line of bytes.
pub fn trim_bytes(s: &Vec<u8>) -> (r: Vec<u8>)
    ensures
        r@ == trimmed(s@),
{
    let mut lo: usize = 0;
    proof {
        assert(s@.skip(0) =~= s@);
    }
    while lo < s.len() && is_ws_byte(s[lo])
        invariant
            lo <= s@.len(),
            trim_front(s@) == trim_front(s@.skip(lo as int)),
        decreases s@.len() - lo,
    {
        proof {
            assert(s@.skip(lo as int).first() == s@[lo as int]);
            assert(s@.skip(lo as int).drop_first() =~= s@.skip(lo + 1));
        }
        lo = lo + 1;
    }
    proof {
        if lo < s@.len() {
            assert(!is_ws(s@.skip(lo as int).first()));
        }
        assert(trim_front(s@) == s@.skip(lo as int));
    }
    let mut hi: usize = s.len();
    while hi > lo && is_ws_byte(s[hi - 1])
        invariant
            lo <= hi <= s@.len(),
            trim_back(s@.skip(lo as int)) == trim_back(s@.subrange(lo as int, hi as int)),
        decreases hi,
    {
        proof {
            assert(s@.skip(lo as int) =~= s@.subrange(lo as int, s@.len() as int));
            assert(s@.subrange(lo as int, hi as int).last() == s@[hi - 1]);
            assert(s@.subrange(lo as int, hi as int).drop_last() =~= s@.subrange(
                lo as int,
                hi - 1,
            ));
        }
        hi = hi - 1;
    }
    proof {
        assert(s@.skip(lo as int) =~= s@.subrange(lo as int, s@.len() as int));
        if hi > lo {
            assert(s@.subrange(lo as int, hi as int).last() == s@[hi - 1]);
            assert(!is_ws(s@.subrange(lo as int, hi as int).last()));
        }
        assert(trim_back(s@.subrange(lo as int, hi as int)) == s@.subrange(lo as int, hi as int));
    }
    copy_range(s, lo, hi)
}

fn is_ws_byte(b: u8) -> (r: bool)
    ensures
        r == is_ws(b),
{
    b == 32 || (9 <= b && b <= 13)
}

/// The immutable table of (trigger, response) entries, viewed as the map
/// built by inserting the entries in order.
pub struct CommandTable {
    entries: Vec<(Vec<u8>, Vec<u8>)>,
}

impl View for CommandTable {
    type V = Map<Seq<u8>, Seq<u8>>;

    closed spec fn view(&self) -> Map<Seq<u8>, Seq<u8>> {
        table_map(self.pairs())
    }
}

impl CommandTable {
    /// The entries as pairs of byte sequences, in insertion order.
    pub closed spec fn pairs(&self) -> Seq<(Seq<u8>, Seq<u8>)> {
        self.entries@.map_values(|e: (Vec<u8>, Vec<u8>)| (e.0@, e.1@))
    }

    /// An empty table.
    pub fn new() -> (r: CommandTable)
        ensures
            r@ == Map::<Seq<u8>, Seq<u8>>::empty(),
    {
        let r = CommandTable { entries: Vec::new() };
        proof {
            assert(r.pairs() =~= Seq::<(Seq<u8>, Seq<u8>)>::empty());
        }
        r
    }

    /// Adds one entry; a trigger equal to an earlier one replaces its
    /// response.
    pub fn insert(&mut self, trigger: Vec<u8>, response: Vec<u8>)
        ensures
            final(self)@ == old(self)@.insert(trigger@, response@),
    {
        let ghost before = self.pairs();
        self.entries.push((trigger, response));
        proof {
            assert(self.pairs() =~= before.push((trigger@, response@)));
            assert(self.pairs().drop_last() =~= before);
        }
    }

    /// Whether the table holds no entry.
    pub fn is_empty(&self) -> (r: bool)
        ensures
            r == (self@ == Map::<Seq<u8>, Seq<u8>>::empty()),
    {
        if self.entries.len() == 0 {
            proof {
                assert(self.pairs() =~= Seq::<(Seq<u8>, Seq<u8>)>::empty());
            }
            true
        } else {
            proof {
                assert(self@.contains_key(self.pairs().last().0));
                assert(!Map::<Seq<u8>, Seq<u8>>::empty().contains_key(self.pairs().last().0));
            }
            false
        }
    }

    /// Exact-match lookup of a key that is already trimmed.
    pub fn lookup(&self, key: &Vec<u8>) -> (r: Option<Vec<u8>>)
        ensures
            r is Some == self@.contains_key(key@),
            r matches Some(v) ==> v@ == self@[key@],
    {
        let ghost full = self@;
        let mut j = self.entries.len();
        proof {
            assert(self.pairs().take(j as int) =~= self.pairs());
        }
        while j > 0
            invariant
                j <= self.entries@.len(),
                full == table_map(self.pairs()),
                full.contains_key(key@) == table_map(self.pairs().take(j as int)).contains_key(
                    key@,
                ),
                table_map(self.pairs().take(j as int)).contains_key(key@) ==> full[key@]
                    == table_map(self.pairs().take(j as int))[key@],
            decreases j,
        {
            j = j - 1;
            let ghost pre = self.pairs().take(j as int);
            proof {
                assert(self.pairs().take(j + 1).drop_last() =~= pre);
                assert(self.pairs().take(j + 1).last() == self.pairs()[j as int]);
            }
            if bytes_eq(&self.entries[j].0, key) {
                let r = copy_bytes(&self.entries[j].1);
                return Some(r);
            }
        }
        proof {
            assert(self.pairs().take(0) =~= Seq::<(Seq<u8>, Seq<u8>)>::empty());
            assert(!Map::<Seq<u8>, Seq<u8>>::empty().contains_key(key@));
        }
        None
    }

    /// The command recognizer: trims a logical line and looks the result up
    /// exactly; no prefix, wildcard or partial matching.
    pub fn recognize(&self, line: &Vec<u8>) -> (r: Option<Vec<u8>>)
        ensures
            r is Some == self@.contains_key(trimmed(line@)),
            r matches Some(v) ==> v@ == self@[trimmed(line@)],
    {
        let key = trim_bytes(line);
        self.lookup(&key)
    }

    /// Builds the table from the flat file contents: lines alternate between
    /// trigger and response, and a trailing unpaired line is ignored.
    pub fn from_lines(lines: &Vec<Vec<u8>>) -> (r: CommandTable)
        ensures
            r@ == table_map(line_pairs(lines.deep_view())),
    {
        let ghost dv = lines.deep_view();
        let mut t = CommandTable::new();
        let mut i: usize = 0;
        proof {
            assert(dv.take(0) =~= Seq::<Seq<u8>>::empty());
        }
        while lines.len() - i >= 2
            invariant
                i <= lines@.len(),
                i % 2 == 0,
                dv == lines.deep_view(),
                dv.len() == lines@.len(),
                t@ == table_map(line_pairs(dv.take(i as int))),
            decreases lines@.len() - i,
        {
            let trigger = copy_bytes(&lines[i]);
            let response = copy_bytes(&lines[i + 1]);
            proof {
                assert(dv[i as int] == lines@[i as int]@);
                assert(dv[i + 1] == lines@[i + 1]@);
            }
            t.insert(trigger, response);
            proof {
                let pre = dv.take(i as int);
                let two = dv.take(i + 2);
                assert(two.len() == i + 2 && two.len() % 2 == 0);
                assert(two.take(two.len() - 2) =~= pre);
                assert(two[two.len() - 2] == dv[i as int] && two[two.len() - 1] == dv[i + 1]);
                assert(line_pairs(two) == line_pairs(pre).push((dv[i as int], dv[i + 1])));
                assert(line_pairs(two).drop_last() =~= line_pairs(pre));
            }
            i = i + 2;
        }
        proof {
            if i == dv.len() {
                assert(dv.take(i as int) =~= dv);
            } else {
                assert(i + 1 == dv.len());
                assert(dv.len() % 2 == 1) by {
                    assert(i % 2 == 0);
                }
                assert(dv.drop_last() =~= dv.take(i as int));
                assert(line_pairs(dv) == line_pairs(dv.take(i as int)));
            }
        }
        t
    }
}

} // verus!
