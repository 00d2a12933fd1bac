use vstd::prelude::*;
use vstd::string::StrSliceExecFns;

verus! {

/// The kind of access that an operation needs.
#[derive(Clone, Copy, Debug, PartialEq, Eq, Structural)]
pub enum AccessMode {
    Read,
    Write,
    Actuate,
}

/// One granted pair of a path pattern and an access mode.
///
/// A pattern matches a path when it equals it, when it is `*`, or when it
/// ends in `.*` and the path starts with what precedes the `*`
/// (`Vehicle.*` matches `Vehicle.Speed` and `Vehicle.Cabin.Door`).
#[derive(Clone, Debug)]
pub struct Grant {
    pub pattern: String,
    pub mode: AccessMode,
}

/// A capability grant: the set of (path pattern, access mode) pairs that a
/// session may use. It is fixed once the session has started.
#[derive(Clone, Debug)]
pub struct Permissions {
    pub grants: Vec<Grant>,
}

pub open spec fn pattern_matches(p: Seq<char>, s: Seq<char>) -> bool {
    p == s || p == seq!['*'] || (p.len() >= 2 && p[p.len() - 1] == '*' && p[p.len() - 2]
        == '.' && p.len() - 1 <= s.len() && s.subrange(0, p.len() - 1) == p.subrange(
        0,
        p.len() - 1,
    ))
}

/// Whether some grant matches `path` with exactly `mode`.
pub open spec fn allows(grants: Seq<(Seq<char>, AccessMode)>, path: Seq<char>, mode: AccessMode) -> bool {
    exists|k: int| 0 <= k < grants.len() && #[trigger] grants[k].1 == mode && pattern_matches(grants[k].0, path)
}

impl View for Permissions {
    type V = Seq<(Seq<char>, AccessMode)>;

    open spec fn view(&self) -> Seq<(Seq<char>, AccessMode)> {
        self.grants@.map_values(|g: Grant| (g.pattern@, g.mode))
    }
}

fn equal_prefix(p: &str, s: &str, n: usize) -> (r: bool)
    requires
        n <= p@.len(),
        n <= s@.len(),
    ensures
        r == (s@.subrange(0, n as int) == p@.subrange(0, n as int)),
{
    let mut i: usize = 0;
    while i < n
        invariant
            n <= p@.len(),
            n <= s@.len(),
            i <= n,
            forall|k: int| 0 <= k < i ==> p@[k] == s@[k],
        decreases n - i,
    {
        if p.get_char(i) != s.get_char(i) {
            proof {
                assert(s@.subrange(0, n as int)[i as int] != p@.subrange(0, n as int)[i as int]);
            }
            return false;
        }
        i = i + 1;
    }
    proof {
        assert(s@.subrange(0, n as int) =~= p@.subrange(0, n as int));
    }
    true
}

/// Whether the pattern `p` matches the signal path `s`.
pub fn pattern_matches_path(p: &str, s: &str) -> (r: bool)
    ensures
        r == pattern_matches(p@, s@),
{
    let pl = p.unicode_len();
    let sl = s.unicode_len();
    if pl == sl && equal_prefix(p, s, pl) {
        proof {
            assert(p@ =~= p@.subrange(0, pl as int));
            assert(s@ =~= s@.subrange(0, sl as int));
        }
        return true;
    }
    proof {
        if p@ == s@ {
            assert(p@.subrange(0, pl as int) =~= p@);
            assert(s@.subrange(0, pl as int) =~= s@);
        }
    }
    if pl == 1 && p.get_char(0) == '*' {
        proof {
            assert(p@ =~= seq!['*']);
        }
        return true;
    }
    if pl >= 2 && p.get_char(pl - 1) == '*' && p.get_char(pl - 2) == '.' && pl - 1 <= sl {
        return equal_prefix(p, s, pl - 1);
    }
    false
}

impl Permissions {
    /// A grant holding no pairs.
    pub fn new() -> (r: Permissions)
        ensures
            r@ == Seq::<(Seq<char>, AccessMode)>::empty(),
    {
        let r = Permissions { grants: Vec::new() };
        proof {
            assert(r@ =~= Seq::<(Seq<char>, AccessMode)>::empty());
        }
        r
    }

    /// Adds the pair (`pattern`, `mode`).
    pub fn add_grant(&mut self, pattern: String, mode: AccessMode)
        ensures
            final(self)@ == old(self)@.push((pattern@, mode)),
    {
        self.grants.push(Grant { pattern, mode });
        proof {
            assert(final(self)@ =~= old(self)@.push((pattern@, mode)));
        }
    }

    /// Whether this grant covers `mode` on `path`.
    pub fn allows(&self, path: &str, mode: AccessMode) -> (r: bool)
        ensures
            r == allows(self@, path@, mode),
    {
        let mut k: usize = 0;
        while k < self.grants.len()
            invariant
                k <= self.grants@.len(),
                forall|j: int|
                    0 <= j < k ==> !(#[trigger] self@[j].1 == mode && pattern_matches(
                        self@[j].0,
                        path@,
                    )),
            decreases self.grants@.len() - k,
        {
            let g = &self.grants[k];
            if g.mode == mode && pattern_matches_path(g.pattern.as_str(), path) {
                proof {
                    assert(self@[k as int].1 == mode);
                }
                return true;
            }
            k = k + 1;
        }
        false
    }
}

} // verus!
