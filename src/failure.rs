//! The failure of a parse: the furthest offset reached and what was
//! expected there.
use vstd::prelude::*;

use vstd::string::StringExecFns;

verus! {

/// A kind of token that would have let a parse go further. The variants
/// are declared in the alphabetical order of their labels.
#[derive(Clone, Copy, PartialEq, Eq, Debug, Structural)]
pub enum Expected {
    CompassDirection,
    Bound,
    CloudCoverage,
    CloudType,
    ColorState,
    Descriptor,
    Digit,
    EndOfInput,
    Intensity,
    Letter,
    Minus,
    Obscuration,
    ObservationType,
    OtherCondition,
    Precipitation,
    PressureUnit,
    ReportName,
    RunwayDesignator,
    Trend,
    TrendTimeType,
    VelocityUnit,
    VisibilityTrend,
    VisibilityUnit,
    Whitespace,
}

impl Expected {
    /// Position of the label in alphabetical order.
    pub open spec fn rank(self) -> nat {
        match self {
            Expected::CompassDirection => 0,
            Expected::Bound => 1,
            Expected::CloudCoverage => 2,
            Expected::CloudType => 3,
            Expected::ColorState => 4,
            Expected::Descriptor => 5,
            Expected::Digit => 6,
            Expected::EndOfInput => 7,
            Expected::Intensity => 8,
            Expected::Letter => 9,
            Expected::Minus => 10,
            Expected::Obscuration => 11,
            Expected::ObservationType => 12,
            Expected::OtherCondition => 13,
            Expected::Precipitation => 14,
            Expected::PressureUnit => 15,
            Expected::ReportName => 16,
            Expected::RunwayDesignator => 17,
            Expected::Trend => 18,
            Expected::TrendTimeType => 19,
            Expected::VelocityUnit => 20,
            Expected::VisibilityTrend => 21,
            Expected::VisibilityUnit => 22,
            Expected::Whitespace => 23,
        }
    }

    fn rank_exec(self) -> (r: u8)
        ensures
            r == self.rank(),
    {
        match self {
            Expected::CompassDirection => 0,
            Expected::Bound => 1,
            Expected::CloudCoverage => 2,
            Expected::CloudType => 3,
            Expected::ColorState => 4,
            Expected::Descriptor => 5,
            Expected::Digit => 6,
            Expected::EndOfInput => 7,
            Expected::Intensity => 8,
            Expected::Letter => 9,
            Expected::Minus => 10,
            Expected::Obscuration => 11,
            Expected::ObservationType => 12,
            Expected::OtherCondition => 13,
            Expected::Precipitation => 14,
            Expected::PressureUnit => 15,
            Expected::ReportName => 16,
            Expected::RunwayDesignator => 17,
            Expected::Trend => 18,
            Expected::TrendTimeType => 19,
            Expected::VelocityUnit => 20,
            Expected::VisibilityTrend => 21,
            Expected::VisibilityUnit => 22,
            Expected::Whitespace => 23,
        }
    }

    /// The label shown to a reader.
    pub open spec fn spec_label(self) -> Seq<char> {
        match self {
            Expected::CompassDirection => "8-point compass direction"@,
            Expected::Bound => "bound"@,
            Expected::CloudCoverage => "cloud coverage"@,
            Expected::CloudType => "cloud type"@,
            Expected::ColorState => "color state"@,
            Expected::Descriptor => "descriptor"@,
            Expected::Digit => "digit"@,
            Expected::EndOfInput => "end of input"@,
            Expected::Intensity => "intensity"@,
            Expected::Letter => "letter"@,
            Expected::Minus => "minus"@,
            Expected::Obscuration => "obscuration"@,
            Expected::ObservationType => "observation type"@,
            Expected::OtherCondition => "other weather condition"@,
            Expected::Precipitation => "precipitation"@,
            Expected::PressureUnit => "pressure unit"@,
            Expected::ReportName => "report name"@,
            Expected::RunwayDesignator => "runway designator"@,
            Expected::Trend => "trend"@,
            Expected::TrendTimeType => "trend time type"@,
            Expected::VelocityUnit => "velocity unit"@,
            Expected::VisibilityTrend => "visibility trend"@,
            Expected::VisibilityUnit => "visibility unit"@,
            Expected::Whitespace => "whitespace"@,
        }
    }

    /// The label shown to a reader.
    pub fn label(self) -> (r: &'static str)
        ensures
            r@ == self.spec_label(),
    {
        match self {
            Expected::CompassDirection => "8-point compass direction",
            Expected::Bound => "bound",
            Expected::CloudCoverage => "cloud coverage",
            Expected::CloudType => "cloud type",
            Expected::ColorState => "color state",
            Expected::Descriptor => "descriptor",
            Expected::Digit => "digit",
            Expected::EndOfInput => "end of input",
            Expected::Intensity => "intensity",
            Expected::Letter => "letter",
            Expected::Minus => "minus",
            Expected::Obscuration => "obscuration",
            Expected::ObservationType => "observation type",
            Expected::OtherCondition => "other weather condition",
            Expected::Precipitation => "precipitation",
            Expected::PressureUnit => "pressure unit",
            Expected::ReportName => "report name",
            Expected::RunwayDesignator => "runway designator",
            Expected::Trend => "trend",
            Expected::TrendTimeType => "trend time type",
            Expected::VelocityUnit => "velocity unit",
            Expected::VisibilityTrend => "visibility trend",
            Expected::VisibilityUnit => "visibility unit",
            Expected::Whitespace => "whitespace",
        }
    }
}
/// Number of kinds of expected token.
pub const EXPECTED_KINDS: u8 = 24;

/// The kind of expected token of each rank.
pub open spec fn expected_of_rank(k: nat) -> Expected {
    if k == 0 {
        Expected::CompassDirection
    } else if k == 1 {
        Expected::Bound
    } else if k == 2 {
        Expected::CloudCoverage
    } else if k == 3 {
        Expected::CloudType
    } else if k == 4 {
        Expected::ColorState
    } else if k == 5 {
        Expected::Descriptor
    } else if k == 6 {
        Expected::Digit
    } else if k == 7 {
        Expected::EndOfInput
    } else if k == 8 {
        Expected::Intensity
    } else if k == 9 {
        Expected::Letter
    } else if k == 10 {
        Expected::Minus
    } else if k == 11 {
        Expected::Obscuration
    } else if k == 12 {
        Expected::ObservationType
    } else if k == 13 {
        Expected::OtherCondition
    } else if k == 14 {
        Expected::Precipitation
    } else if k == 15 {
        Expected::PressureUnit
    } else if k == 16 {
        Expected::ReportName
    } else if k == 17 {
        Expected::RunwayDesignator
    } else if k == 18 {
        Expected::Trend
    } else if k == 19 {
        Expected::TrendTimeType
    } else if k == 20 {
        Expected::VelocityUnit
    } else if k == 21 {
        Expected::VisibilityTrend
    } else if k == 22 {
        Expected::VisibilityUnit
    } else {
        Expected::Whitespace
    }
}

fn expected_of_rank_exec(k: u8) -> (r: Expected)
    ensures
        r == expected_of_rank(k as nat),
{
    match k {
        0 => Expected::CompassDirection,
        1 => Expected::Bound,
        2 => Expected::CloudCoverage,
        3 => Expected::CloudType,
        4 => Expected::ColorState,
        5 => Expected::Descriptor,
        6 => Expected::Digit,
        7 => Expected::EndOfInput,
        8 => Expected::Intensity,
        9 => Expected::Letter,
        10 => Expected::Minus,
        11 => Expected::Obscuration,
        12 => Expected::ObservationType,
        13 => Expected::OtherCondition,
        14 => Expected::Precipitation,
        15 => Expected::PressureUnit,
        16 => Expected::ReportName,
        17 => Expected::RunwayDesignator,
        18 => Expected::Trend,
        19 => Expected::TrendTimeType,
        20 => Expected::VelocityUnit,
        21 => Expected::VisibilityTrend,
        22 => Expected::VisibilityUnit,
        _ => Expected::Whitespace,
    }
}

/// The kinds in `set` of rank below `k`, in rank order.
pub open spec fn labels_below(set: Set<Expected>, k: nat) -> Seq<Expected>
    decreases k,
{
    if k == 0 {
        Seq::empty()
    } else {
        labels_below(set, (k - 1) as nat) + if set.contains(expected_of_rank((k - 1) as nat)) {
            seq![expected_of_rank((k - 1) as nat)]
        } else {
            Seq::empty()
        }
    }
}

/// The labels of a list, sorted and without repeats, whatever order and
/// repeats the list has.
pub open spec fn sorted_labels(e: Seq<Expected>) -> Seq<Expected> {
    labels_below(e.to_set(), EXPECTED_KINDS as nat)
}

/// The message of a failure depends only on which labels it holds.
pub proof fn message_ignores_label_order(a: Seq<Expected>, b: Seq<Expected>)
    requires
        a.to_set() == b.to_set(),
    ensures
        message_text(sorted_labels(a)) == message_text(sorted_labels(b)),
{
}

/// A failure state after noting that `e` was expected at `p`: a further
/// offset replaces what was known, the same offset adds `e`, an earlier one
/// changes nothing.
pub open spec fn noted(f: (int, Set<Expected>), p: int, e: Expected) -> (int, Set<Expected>) {
    if p > f.0 {
        (p, set![e])
    } else if p == f.0 {
        (p, f.1.insert(e))
    } else {
        f
    }
}

/// Ranks strictly increase along the list: sorted, without repeats.
pub open spec fn strictly_sorted(e: Seq<Expected>) -> bool {
    forall|i: int, j: int| 0 <= i < j < e.len() ==> (#[trigger] e[i]).rank() < (#[trigger] e[j]).rank()
}

/// A report, or part of one, that could not be parsed.
///
/// Each rule notes, through [`ParseError::note`], the labelled tokens it
/// tried and did not find; the error keeps the furthest such offset and
/// the labels noted there. The entry points in `parse` state this exactly
/// for a report that fails in its header, and bound the offset from below
/// by where the grammar stopped otherwise.
#[derive(Clone, PartialEq, Eq, Debug)]
pub struct ParseError {
    /// Byte offset of the furthest point at which a token was missing.
    pub offset: usize,
    /// What was expected there, sorted and without repeats.
    pub expected: Vec<Expected>,
}

impl ParseError {
    /// The offset and the set of labels expected there.
    pub open spec fn state(&self) -> (int, Set<Expected>) {
        (self.offset as int, self.expected@.to_set())
    }

    /// The offset lies within a text of `len` bytes and the labels are
    /// sorted without repeats.
    pub open spec fn wf(&self, len: int) -> bool {
        self.offset <= len && strictly_sorted(self.expected@)
    }

    /// No failure seen yet.
    pub fn start() -> (r: ParseError)
        ensures
            r.offset == 0,
            r.expected@.len() == 0,
            r.state() == (0int, Set::<Expected>::empty()),
    {
        let r = ParseError { offset: 0, expected: Vec::new() };
        assert(r.expected@.to_set() =~= Set::<Expected>::empty());
        r
    }

    /// Records that `e` was expected at `p`: a further offset replaces what
    /// was known, the same offset adds `e`, an earlier one is ignored.
    pub fn note(&mut self, p: usize, e: Expected)
        ensures
            p > old(self).offset ==> final(self).offset == p && final(self).expected@ == seq![e],
            p < old(self).offset ==> *final(self) == *old(self),
            p == old(self).offset ==> final(self).offset == p && final(self).expected@.to_set()
                == old(self).expected@.to_set().insert(e),
            strictly_sorted(old(self).expected@) ==> strictly_sorted(final(self).expected@),
            final(self).offset >= p,
            final(self).offset >= old(self).offset,
            final(self).offset == p ==> final(self).expected@.contains(e),
            final(self).state() == noted(old(self).state(), p as int, e),
    {
        if p > self.offset {
            self.offset = p;
            self.expected = vec![e];
            assert(self.expected@[0] == e);
            assert(self.expected@.to_set() =~= set![e]) by {
                assert forall|x: Expected| self.expected@.to_set().contains(x) implies x == e by {
                    assert(self.expected@.contains(x));
                }
            }
        } else if p == self.offset {
            let k = e.rank_exec();
            let mut i: usize = 0;
            while i < self.expected.len()
                invariant
                    0 <= i <= self.expected@.len(),
                    *self == *old(self),
                    k == e.rank(),
                    forall|j: int| 0 <= j < i ==> (#[trigger] self.expected@[j]).rank() < e.rank(),
                ensures
                    0 <= i <= self.expected@.len(),
                    *self == *old(self),
                    forall|j: int| 0 <= j < i ==> (#[trigger] self.expected@[j]).rank() < e.rank(),
                    i < self.expected@.len() ==> self.expected@[i as int].rank() >= e.rank(),
                decreases self.expected@.len() - i,
            {
                if self.expected[i].rank_exec() >= k {
                    break;
                }
                i += 1;
            }
            let ghost before = self.expected@;
            if i < self.expected.len() && self.expected[i].rank_exec() == k {
                assert(self.expected@[i as int] == e) by {
                    lemma_rank_injective(self.expected@[i as int], e);
                }
                assert(before.to_set().insert(e) =~= before.to_set());
                assert(self.expected@.contains(e));
            } else {
                self.expected.insert(i, e);
                assert(self.expected@ =~= before.insert(i as int, e));
                assert(self.expected@[i as int] == e);
                assert(self.expected@.to_set() =~= before.to_set().insert(e)) by {
                    assert forall|x: Expected| self.expected@.to_set().contains(x) implies before.to_set().insert(e).contains(x) by {
                        let j = choose|j: int| 0 <= j < self.expected@.len() && self.expected@[j] == x;
                        if j > i {
                            assert(self.expected@[j] == before[j - 1]);
                        }
                    }
                    assert forall|x: Expected| before.to_set().insert(e).contains(x) implies self.expected@.to_set().contains(x) by {
                        if x != e {
                            let j = choose|j: int| 0 <= j < before.len() && before[j] == x;
                            if j < i {
                                assert(self.expected@[j] == x);
                            } else {
                                assert(self.expected@[j + 1] == x);
                            }
                        } else {
                            assert(self.expected@[i as int] == x);
                        }
                    }
                }
                assert(strictly_sorted(old(self).expected@) ==> strictly_sorted(self.expected@)) by {
                    if strictly_sorted(before) {
                        assert forall|a: int, b: int| 0 <= a < b < self.expected@.len() implies (
                        #[trigger] self.expected@[a]).rank() < (#[trigger] self.expected@[b]).rank() by {
                            if b < i {
                            } else if b == i {
                            } else if a < i {
                                assert(self.expected@[b] == before[b - 1]);
                                if i < before.len() {
                                    assert(before[i as int].rank() >= e.rank());
                                }
                            } else if a == i {
                                assert(self.expected@[b] == before[b - 1]);
                                assert(before[i as int].rank() >= e.rank());
                                assert(before[i as int].rank() != e.rank());
                            } else {
                                assert(self.expected@[b] == before[b - 1]);
                                assert(self.expected@[a] == before[a - 1]);
                            }
                        }
                    }
                }
            }
        }
    }

    /// The labels held, sorted and without repeats.
    pub fn sorted_expected(&self) -> (r: Vec<Expected>)
        ensures
            r@ == sorted_labels(self.expected@),
    {
        let mut r: Vec<Expected> = Vec::new();
        let mut k: u8 = 0;
        while k < EXPECTED_KINDS
            invariant
                0 <= k <= EXPECTED_KINDS,
                r@ == labels_below(self.expected@.to_set(), k as nat),
            decreases EXPECTED_KINDS - k,
        {
            let x = expected_of_rank_exec(k);
            let mut found = false;
            let mut i: usize = 0;
            while i < self.expected.len()
                invariant
                    0 <= i <= self.expected@.len(),
                    found == (exists|j: int| 0 <= j < i && self.expected@[j] == x),
                decreases self.expected@.len() - i,
            {
                if self.expected[i] == x {
                    found = true;
                }
                i += 1;
            }
            proof {
                if found {
                    let j = choose|j: int| 0 <= j < i && self.expected@[j] == x;
                    assert(self.expected@.to_set().contains(x));
                } else {
                    if self.expected@.to_set().contains(x) {
                        assert(self.expected@.contains(x));
                    }
                }
            }
            if found {
                r.push(x);
            }
            proof {
                assert(labels_below(self.expected@.to_set(), (k + 1) as nat) =~= r@);
            }
            k += 1;
        }
        r
    }

    /// The message for a reader: `unclear cause` with no label, `expected`
    /// and the label with one, else `expected one of` and the labels, in
    /// alphabetical order and each once.
    pub fn message(&self) -> (r: String)
        ensures
            r@ == message_text(sorted_labels(self.expected@)),
    {
        let labels = self.sorted_expected();
        let n = labels.len();
        if n == 0 {
            String::from_str("unclear cause")
        } else if n == 1 {
            let mut r = String::from_str("expected ");
            r.append(labels[0].label());
            r
        } else {
            let mut r = String::from_str("expected one of ");
            let mut i: usize = 0;
            while i < n - 1
                invariant
                    n == labels@.len(),
                    n >= 2,
                    0 <= i <= n - 1,
                    r@ == "expected one of "@ + labels_with_commas(labels@.take(i as int)),
                decreases n - 1 - i,
            {
                r.append(labels[i].label());
                r.append(", ");
                assert(labels@.take(i as int + 1).drop_last() =~= labels@.take(i as int));
                i += 1;
            }
            assert(labels@.take(n - 1) =~= labels@.drop_last());
            r.append("or ");
            r.append(labels[n - 1].label());
            r
        }
    }
}

proof fn lemma_rank_injective(a: Expected, b: Expected)
    requires
        a.rank() == b.rank(),
    ensures
        a == b,
{
}

/// Each label followed by a comma and a space.
pub open spec fn labels_with_commas(e: Seq<Expected>) -> Seq<char>
    decreases e.len(),
{
    if e.len() == 0 {
        Seq::empty()
    } else {
        labels_with_commas(e.drop_last()) + e.last().spec_label() + ", "@
    }
}

/// The message for a list of labels.
pub open spec fn message_text(e: Seq<Expected>) -> Seq<char> {
    if e.len() == 0 {
        "unclear cause"@
    } else if e.len() == 1 {
        "expected "@ + e[0].spec_label()
    } else {
        "expected one of "@ + labels_with_commas(e.drop_last()) + "or "@ + e.last().spec_label()
    }
}

} // verus!
