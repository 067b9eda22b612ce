//! The outcome of a piece coming to rest.
use vstd::prelude::*;
use vstd::string::StringExecFns;

verus! {

/// How a placement is classified.
#[derive(Clone, Copy, Debug, PartialEq, Eq, Structural)]
pub enum PlacementKind {
    Nothing,
    Clear1,
    Clear2,
    Clear3,
    Clear4,
    MiniTspin,
    MiniTspin1,
    MiniTspin2,
    Tspin,
    Tspin1,
    Tspin2,
    Tspin3,
}

impl PlacementKind {
    pub open spec fn spec_is_clear(self) -> bool {
        match self {
            PlacementKind::Nothing | PlacementKind::MiniTspin | PlacementKind::Tspin => false,
            _ => true,
        }
    }

    pub open spec fn spec_is_hard(self) -> bool {
        match self {
            PlacementKind::Clear4
            | PlacementKind::MiniTspin1
            | PlacementKind::MiniTspin2
            | PlacementKind::Tspin1
            | PlacementKind::Tspin2
            | PlacementKind::Tspin3 => true,
            _ => false,
        }
    }

    pub open spec fn spec_name(self) -> Seq<char> {
        match self {
            PlacementKind::Nothing => ""@,
            PlacementKind::Clear1 => "Single"@,
            PlacementKind::Clear2 => "Double"@,
            PlacementKind::Clear3 => "Triple"@,
            PlacementKind::Clear4 => "Tetris"@,
            PlacementKind::MiniTspin => "Mini T-Spin"@,
            PlacementKind::MiniTspin1 => "Mini T-Spin Single"@,
            PlacementKind::MiniTspin2 => "Mini T-Spin Double"@,
            PlacementKind::Tspin => "T-Spin"@,
            PlacementKind::Tspin1 => "T-Spin Single"@,
            PlacementKind::Tspin2 => "T-Spin Double"@,
            PlacementKind::Tspin3 => "T-Spin Triple"@,
        }
    }

    /// Whether the placement cleared at least one line.
    pub fn is_clear(self) -> (r: bool)
        ensures
            r == self.spec_is_clear(),
    {
        match self {
            PlacementKind::Nothing | PlacementKind::MiniTspin | PlacementKind::Tspin => false,
            _ => true,
        }
    }

    /// Whether the placement is a clear that keeps back-to-back going.
    pub fn is_hard(self) -> (r: bool)
        ensures
            r == self.spec_is_hard(),
    {
        match self {
            PlacementKind::Clear4
            | PlacementKind::MiniTspin1
            | PlacementKind::MiniTspin2
            | PlacementKind::Tspin1
            | PlacementKind::Tspin2
            | PlacementKind::Tspin3 => true,
            _ => false,
        }
    }

    /// The display name of the placement kind.
    pub fn name(self) -> (r: &'static str)
        ensures
            r@ == self.spec_name(),
    {
        match self {
            PlacementKind::Nothing => "",
            PlacementKind::Clear1 => "Single",
            PlacementKind::Clear2 => "Double",
            PlacementKind::Clear3 => "Triple",
            PlacementKind::Clear4 => "Tetris",
            PlacementKind::MiniTspin => "Mini T-Spin",
            PlacementKind::MiniTspin1 => "Mini T-Spin Single",
            PlacementKind::MiniTspin2 => "Mini T-Spin Double",
            PlacementKind::Tspin => "T-Spin",
            PlacementKind::Tspin1 => "T-Spin Single",
            PlacementKind::Tspin2 => "T-Spin Double",
            PlacementKind::Tspin3 => "T-Spin Triple",
        }
    }
}

/// What the engine reports when a piece locks.
#[derive(Clone, Debug)]
pub struct LockResult {
    pub placement_kind: PlacementKind,
    /// Indices of the rows that the placement cleared (at most four).
    pub cleared_lines: Vec<i32>,
    /// The combo count after this placement, if a combo is running.
    pub combo: Option<u32>,
    pub b2b: bool,
    pub perfect_clear: bool,
    pub garbage_sent: u32,
}

/// The headline an attack banner shows, in order of precedence.
#[derive(Clone, Copy, Debug, PartialEq, Eq, Structural)]
pub enum AttackText {
    PerfectClear,
    BackToBack(PlacementKind),
    Plain(PlacementKind),
}

pub open spec fn attack_text_of(l: LockResult) -> AttackText {
    if l.perfect_clear {
        AttackText::PerfectClear
    } else if l.b2b {
        AttackText::BackToBack(l.placement_kind)
    } else {
        AttackText::Plain(l.placement_kind)
    }
}

impl AttackText {
    pub open spec fn spec_text(self) -> Seq<char> {
        match self {
            AttackText::PerfectClear => "Perfect Clear"@,
            AttackText::BackToBack(k) => "Back-To-Back "@ + k.spec_name(),
            AttackText::Plain(k) => k.spec_name(),
        }
    }

    /// The headline of a lock result: a perfect clear takes precedence over
    /// back-to-back wording, which takes precedence over the bare kind name.
    pub fn of(l: &LockResult) -> (r: AttackText)
        ensures
            r == attack_text_of(*l),
    {
        if l.perfect_clear {
            AttackText::PerfectClear
        } else if l.b2b {
            AttackText::BackToBack(l.placement_kind)
        } else {
            AttackText::Plain(l.placement_kind)
        }
    }

    /// The words of the banner.
    pub fn text(self) -> (r: String)
        ensures
            r@ == self.spec_text(),
    {
        match self {
            AttackText::PerfectClear => String::from_str("Perfect Clear"),
            AttackText::BackToBack(k) => String::from_str("Back-To-Back ").concat(k.name()),
            AttackText::Plain(k) => String::from_str(k.name()),
        }
    }
}

} // verus!
