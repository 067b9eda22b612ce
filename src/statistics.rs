//! Running counters over placements.
use vstd::prelude::*;
use crate::lock::{LockResult, PlacementKind};

verus! {

/// Counters accumulated from lock results. Every counter saturates at
/// `u64::MAX` rather than wrapping.
#[derive(Clone, Copy, Debug, PartialEq, Eq, Structural)]
pub struct Statistics {
    pub pieces: u64,
    pub lines: u64,
    pub attack: u64,
    /// The combo streak of the latest placement (0 when it broke the streak).
    pub combo: u64,
    pub max_combo: u64,
    pub singles: u64,
    pub doubles: u64,
    pub triples: u64,
    pub tetrises: u64,
    pub mini_tspin_zeros: u64,
    pub mini_tspin_singles: u64,
    pub mini_tspin_doubles: u64,
    pub tspin_zeros: u64,
    pub tspin_singles: u64,
    pub tspin_doubles: u64,
    pub tspin_triples: u64,
    pub perfect_clears: u64,
}

pub open spec fn zero_statistics() -> Statistics {
    Statistics {
        pieces: 0,
        lines: 0,
        attack: 0,
        combo: 0,
        max_combo: 0,
        singles: 0,
        doubles: 0,
        triples: 0,
        tetrises: 0,
        mini_tspin_zeros: 0,
        mini_tspin_singles: 0,
        mini_tspin_doubles: 0,
        tspin_zeros: 0,
        tspin_singles: 0,
        tspin_doubles: 0,
        tspin_triples: 0,
        perfect_clears: 0,
    }
}

/// `a + b`, or `u64::MAX` where that does not fit.
pub open spec fn sat_add(a: u64, b: int) -> u64 {
    if a + b > u64::MAX {
        u64::MAX
    } else {
        (a + b) as u64
    }
}

/// The bucket that counts placements of kind `k`; `Nothing` has none.
pub open spec fn bucket(s: Statistics, k: PlacementKind) -> u64 {
    match k {
        PlacementKind::Nothing => 0,
        PlacementKind::Clear1 => s.singles,
        PlacementKind::Clear2 => s.doubles,
        PlacementKind::Clear3 => s.triples,
        PlacementKind::Clear4 => s.tetrises,
        PlacementKind::MiniTspin => s.mini_tspin_zeros,
        PlacementKind::MiniTspin1 => s.mini_tspin_singles,
        PlacementKind::MiniTspin2 => s.mini_tspin_doubles,
        PlacementKind::Tspin => s.tspin_zeros,
        PlacementKind::Tspin1 => s.tspin_singles,
        PlacementKind::Tspin2 => s.tspin_doubles,
        PlacementKind::Tspin3 => s.tspin_triples,
    }
}

pub open spec fn combo_of(l: LockResult) -> u64 {
    match l.combo {
        Some(c) => c as u64,
        None => 0,
    }
}

/// The statistics after one more placement: one more piece, its cleared
/// lines and sent garbage added, exactly one bucket of its kind raised, the
/// perfect-clear count raised if it was one, and the combo streak taken from it.
pub open spec fn updated(s: Statistics, l: LockResult) -> Statistics {
    let k = l.placement_kind;
    let c = combo_of(l);
    Statistics {
        pieces: sat_add(s.pieces, 1),
        lines: sat_add(s.lines, l.cleared_lines@.len() as int),
        attack: sat_add(s.attack, l.garbage_sent as int),
        combo: c,
        max_combo: if c > s.max_combo { c } else { s.max_combo },
        singles: if k == PlacementKind::Clear1 { sat_add(s.singles, 1) } else { s.singles },
        doubles: if k == PlacementKind::Clear2 { sat_add(s.doubles, 1) } else { s.doubles },
        triples: if k == PlacementKind::Clear3 { sat_add(s.triples, 1) } else { s.triples },
        tetrises: if k == PlacementKind::Clear4 { sat_add(s.tetrises, 1) } else { s.tetrises },
        mini_tspin_zeros: if k == PlacementKind::MiniTspin {
            sat_add(s.mini_tspin_zeros, 1)
        } else {
            s.mini_tspin_zeros
        },
        mini_tspin_singles: if k == PlacementKind::MiniTspin1 {
            sat_add(s.mini_tspin_singles, 1)
        } else {
            s.mini_tspin_singles
        },
        mini_tspin_doubles: if k == PlacementKind::MiniTspin2 {
            sat_add(s.mini_tspin_doubles, 1)
        } else {
            s.mini_tspin_doubles
        },
        tspin_zeros: if k == PlacementKind::Tspin { sat_add(s.tspin_zeros, 1) } else { s.tspin_zeros },
        tspin_singles: if k == PlacementKind::Tspin1 {
            sat_add(s.tspin_singles, 1)
        } else {
            s.tspin_singles
        },
        tspin_doubles: if k == PlacementKind::Tspin2 {
            sat_add(s.tspin_doubles, 1)
        } else {
            s.tspin_doubles
        },
        tspin_triples: if k == PlacementKind::Tspin3 {
            sat_add(s.tspin_triples, 1)
        } else {
            s.tspin_triples
        },
        perfect_clears: if l.perfect_clear {
            sat_add(s.perfect_clears, 1)
        } else {
            s.perfect_clears
        },
    }
}

/// The statistics after the placements of `locks`, in order, starting from `s`.
pub open spec fn updated_all(s: Statistics, locks: Seq<LockResult>) -> Statistics
    decreases locks.len(),
{
    if locks.len() == 0 {
        s
    } else {
        updated(updated_all(s, locks.drop_last()), locks.last())
    }
}

/// How many of `locks` are of kind `k`.
pub open spec fn count_kind(locks: Seq<LockResult>, k: PlacementKind) -> nat
    decreases locks.len(),
{
    if locks.len() == 0 {
        0
    } else {
        count_kind(locks.drop_last(), k) + if locks.last().placement_kind == k { 1nat } else { 0nat }
    }
}

/// How many of `locks` are perfect clears.
pub open spec fn count_perfect(locks: Seq<LockResult>) -> nat
    decreases locks.len(),
{
    if locks.len() == 0 {
        0
    } else {
        count_perfect(locks.drop_last()) + if locks.last().perfect_clear { 1nat } else { 0nat }
    }
}

fn add_sat(a: u64, b: u64) -> (r: u64)
    ensures
        r == sat_add(a, b as int),
{
    if a > u64::MAX - b {
        u64::MAX
    } else {
        a + b
    }
}

fn bump_if(cond: bool, a: u64) -> (r: u64)
    ensures
        r == if cond { sat_add(a, 1) } else { a },
{
    if cond {
        add_sat(a, 1)
    } else {
        a
    }
}

impl Default for Statistics {
    fn default() -> (r: Statistics)
        ensures
            r == zero_statistics(),
    {
        Statistics::new()
    }
}

impl Statistics {
    /// All counters at zero.
    pub fn new() -> (r: Statistics)
        ensures
            r == zero_statistics(),
    {
        Statistics {
            pieces: 0,
            lines: 0,
            attack: 0,
            combo: 0,
            max_combo: 0,
            singles: 0,
            doubles: 0,
            triples: 0,
            tetrises: 0,
            mini_tspin_zeros: 0,
            mini_tspin_singles: 0,
            mini_tspin_doubles: 0,
            tspin_zeros: 0,
            tspin_singles: 0,
            tspin_doubles: 0,
            tspin_triples: 0,
            perfect_clears: 0,
        }
    }

    /// Counts one placement.
    pub fn update(&mut self, l: &LockResult)
        ensures
            *final(self) == updated(*old(self), *l),
    {
        let k = l.placement_kind;
        let c: u64 = match l.combo {
            Some(c) => c as u64,
            None => 0,
        };
        self.pieces = add_sat(self.pieces, 1);
        self.lines = add_sat(self.lines, l.cleared_lines.len() as u64);
        self.attack = add_sat(self.attack, l.garbage_sent as u64);
        self.combo = c;
        if c > self.max_combo {
            self.max_combo = c;
        }
        self.singles = bump_if(k == PlacementKind::Clear1, self.singles);
        self.doubles = bump_if(k == PlacementKind::Clear2, self.doubles);
        self.triples = bump_if(k == PlacementKind::Clear3, self.triples);
        self.tetrises = bump_if(k == PlacementKind::Clear4, self.tetrises);
        self.mini_tspin_zeros = bump_if(k == PlacementKind::MiniTspin, self.mini_tspin_zeros);
        self.mini_tspin_singles = bump_if(k == PlacementKind::MiniTspin1, self.mini_tspin_singles);
        self.mini_tspin_doubles = bump_if(k == PlacementKind::MiniTspin2, self.mini_tspin_doubles);
        self.tspin_zeros = bump_if(k == PlacementKind::Tspin, self.tspin_zeros);
        self.tspin_singles = bump_if(k == PlacementKind::Tspin1, self.tspin_singles);
        self.tspin_doubles = bump_if(k == PlacementKind::Tspin2, self.tspin_doubles);
        self.tspin_triples = bump_if(k == PlacementKind::Tspin3, self.tspin_triples);
        self.perfect_clears = bump_if(l.perfect_clear, self.perfect_clears);
    }
}

/// Counting law: starting from zero, after any sequence of placements that
/// fits the counters, the piece count is the number of placements, every
/// clear-type bucket is the number of placements of that kind, and the
/// perfect-clear count is the number of perfect clears.
pub proof fn lemma_counts_match_placements(locks: Seq<LockResult>)
    requires
        locks.len() < u64::MAX,
    ensures
        updated_all(zero_statistics(), locks).pieces == locks.len(),
        updated_all(zero_statistics(), locks).perfect_clears == count_perfect(locks),
        forall|k: PlacementKind|
            k != PlacementKind::Nothing ==> #[trigger] bucket(updated_all(zero_statistics(), locks), k)
                == count_kind(locks, k),
    decreases locks.len(),
{
    if locks.len() > 0 {
        let rest = locks.drop_last();
        lemma_counts_match_placements(rest);
        lemma_counts_bounded(rest);
        assert forall|k: PlacementKind| k != PlacementKind::Nothing implies #[trigger] bucket(
            updated_all(zero_statistics(), locks),
            k,
        ) == count_kind(locks, k) by {
            let prev = updated_all(zero_statistics(), rest);
            assert(bucket(prev, k) == count_kind(rest, k));
            assert(count_kind(rest, k) <= rest.len());
            match k {
                PlacementKind::Nothing => {},
                PlacementKind::Clear1 => {},
                PlacementKind::Clear2 => {},
                PlacementKind::Clear3 => {},
                PlacementKind::Clear4 => {},
                PlacementKind::MiniTspin => {},
                PlacementKind::MiniTspin1 => {},
                PlacementKind::MiniTspin2 => {},
                PlacementKind::Tspin => {},
                PlacementKind::Tspin1 => {},
                PlacementKind::Tspin2 => {},
                PlacementKind::Tspin3 => {},
            }
        }
    }
}

proof fn lemma_counts_bounded(locks: Seq<LockResult>)
    ensures
        count_perfect(locks) <= locks.len(),
        forall|k: PlacementKind| #[trigger] count_kind(locks, k) <= locks.len(),
    decreases locks.len(),
{
    if locks.len() > 0 {
        lemma_counts_bounded(locks.drop_last());
        assert forall|k: PlacementKind| #[trigger] count_kind(locks, k) <= locks.len() by {
            assert(count_kind(locks.drop_last(), k) <= locks.drop_last().len());
        }
    }
}

} // verus!
