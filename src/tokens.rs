//! The report's vocabulary and the structured record it decodes to.
use vstd::prelude::*;

use crate::units::{Angle, Length, Pressure, ThermodynamicTemperature, Velocity};
use crate::vocabulary::{lookup, table_view, Vocabulary};
use vstd::string::StringExecFns;

verus! {

/// How much of the sky a cloud layer covers.
#[derive(Clone, Copy, PartialEq, Eq, Debug, Structural)]
pub enum CloudCoverage {
    NoCloud,
    NilCloud,
    Clear,
    NoSignificantCloud,
    Few,
    Scattered,
    Broken,
    Overcast,
    VerticalVisibility,
}

impl CloudCoverage {
    proof fn lemma_spellings()
        ensures
            lookup(Self::spellings(), "SKC"@) == Some(CloudCoverage::NoCloud),
            lookup(Self::spellings(), "CLR"@) == Some(CloudCoverage::Clear),
            lookup(Self::spellings(), "NCD"@) == Some(CloudCoverage::NilCloud),
            lookup(Self::spellings(), "NSC"@) == Some(CloudCoverage::NoSignificantCloud),
            lookup(Self::spellings(), "FEW"@) == Some(CloudCoverage::Few),
            lookup(Self::spellings(), "FW"@) == Some(CloudCoverage::Few),
            lookup(Self::spellings(), "SCT"@) == Some(CloudCoverage::Scattered),
            lookup(Self::spellings(), "SC"@) == Some(CloudCoverage::Scattered),
            lookup(Self::spellings(), "BKN"@) == Some(CloudCoverage::Broken),
            lookup(Self::spellings(), "OVC"@) == Some(CloudCoverage::Overcast),
            lookup(Self::spellings(), "VV"@) == Some(CloudCoverage::VerticalVisibility),
    {
        reveal_strlit("SKC");
        reveal_strlit("CLR");
        reveal_strlit("NCD");
        reveal_strlit("NSC");
        reveal_strlit("FEW");
        reveal_strlit("FW");
        reveal_strlit("SCT");
        reveal_strlit("SC");
        reveal_strlit("BKN");
        reveal_strlit("OVC");
        reveal_strlit("VV");
        assert("SKC"@.len() == 3 && "SKC"@[0] == 'S' && "SKC"@[1] == 'K' && "SKC"@[2] == 'C');
        assert("CLR"@.len() == 3 && "CLR"@[0] == 'C' && "CLR"@[1] == 'L' && "CLR"@[2] == 'R');
        assert("NCD"@.len() == 3 && "NCD"@[0] == 'N' && "NCD"@[1] == 'C' && "NCD"@[2] == 'D');
        assert("NSC"@.len() == 3 && "NSC"@[0] == 'N' && "NSC"@[1] == 'S' && "NSC"@[2] == 'C');
        assert("FEW"@.len() == 3 && "FEW"@[0] == 'F' && "FEW"@[1] == 'E' && "FEW"@[2] == 'W');
        assert("FW"@.len() == 2 && "FW"@[0] == 'F' && "FW"@[1] == 'W');
        assert("SCT"@.len() == 3 && "SCT"@[0] == 'S' && "SCT"@[1] == 'C' && "SCT"@[2] == 'T');
        assert("SC"@.len() == 2 && "SC"@[0] == 'S' && "SC"@[1] == 'C');
        assert("BKN"@.len() == 3 && "BKN"@[0] == 'B' && "BKN"@[1] == 'K' && "BKN"@[2] == 'N');
        assert("OVC"@.len() == 3 && "OVC"@[0] == 'O' && "OVC"@[1] == 'V' && "OVC"@[2] == 'C');
        assert("VV"@.len() == 2 && "VV"@[0] == 'V' && "VV"@[1] == 'V');
        reveal_with_fuel(lookup, 12);
    }
}

impl Vocabulary for CloudCoverage {
    open spec fn spellings() -> Seq<(Seq<char>, Self)> {
        seq![
            ("SKC"@, CloudCoverage::NoCloud),
            ("CLR"@, CloudCoverage::Clear),
            ("NCD"@, CloudCoverage::NilCloud),
            ("NSC"@, CloudCoverage::NoSignificantCloud),
            ("FEW"@, CloudCoverage::Few),
            ("FW"@, CloudCoverage::Few),
            ("SCT"@, CloudCoverage::Scattered),
            ("SC"@, CloudCoverage::Scattered),
            ("BKN"@, CloudCoverage::Broken),
            ("OVC"@, CloudCoverage::Overcast),
            ("VV"@, CloudCoverage::VerticalVisibility),
        ]
    }

    open spec fn spec_code(self) -> Seq<char> {
        match self {
            CloudCoverage::NoCloud => "SKC"@,
            CloudCoverage::NilCloud => "NCD"@,
            CloudCoverage::Clear => "CLR"@,
            CloudCoverage::NoSignificantCloud => "NSC"@,
            CloudCoverage::Few => "FEW"@,
            CloudCoverage::Scattered => "SCT"@,
            CloudCoverage::Broken => "BKN"@,
            CloudCoverage::Overcast => "OVC"@,
            CloudCoverage::VerticalVisibility => "VV"@,
        }
    }

    fn spelling_table() -> (r: Vec<(&'static str, Self)>) {
        let r = vec![
            ("SKC", CloudCoverage::NoCloud),
            ("CLR", CloudCoverage::Clear),
            ("NCD", CloudCoverage::NilCloud),
            ("NSC", CloudCoverage::NoSignificantCloud),
            ("FEW", CloudCoverage::Few),
            ("FW", CloudCoverage::Few),
            ("SCT", CloudCoverage::Scattered),
            ("SC", CloudCoverage::Scattered),
            ("BKN", CloudCoverage::Broken),
            ("OVC", CloudCoverage::Overcast),
            ("VV", CloudCoverage::VerticalVisibility),
        ];
        assert(table_view(r@) =~= Self::spellings());
        r
    }

    fn code(self) -> (r: &'static str) {
        match self {
            CloudCoverage::NoCloud => "SKC",
            CloudCoverage::NilCloud => "NCD",
            CloudCoverage::Clear => "CLR",
            CloudCoverage::NoSignificantCloud => "NSC",
            CloudCoverage::Few => "FEW",
            CloudCoverage::Scattered => "SCT",
            CloudCoverage::Broken => "BKN",
            CloudCoverage::Overcast => "OVC",
            CloudCoverage::VerticalVisibility => "VV",
        }
    }

    proof fn code_round_trip(self) {
        Self::lemma_spellings();
    }

    proof fn spellings_unambiguous() {
        Self::lemma_spellings();
        assert forall|i: int| 0 <= i < Self::spellings().len() implies lookup(
            Self::spellings(),
            #[trigger] Self::spellings()[i].0,
        ) == Some(Self::spellings()[i].1) by {
            if i == 0 {
            } else if i == 1 {
            } else if i == 2 {
            } else if i == 3 {
            } else if i == 4 {
            } else if i == 5 {
            } else if i == 6 {
            } else if i == 7 {
            } else if i == 8 {
            } else if i == 9 {
            } else if i == 10 {
            }
        }
    }
}

/// Convective and other notable cloud kinds.
#[derive(Clone, Copy, PartialEq, Eq, Debug, Structural)]
pub enum CloudType {
    Cumulonimbus,
    ToweringCumulus,
    Cumulus,
    Cirrus,
    Altocumulus,
    Stratus,
}

impl CloudType {
    proof fn lemma_spellings()
        ensures
            lookup(Self::spellings(), "CB"@) == Some(CloudType::Cumulonimbus),
            lookup(Self::spellings(), "TCU"@) == Some(CloudType::ToweringCumulus),
            lookup(Self::spellings(), "CU"@) == Some(CloudType::Cumulus),
            lookup(Self::spellings(), "CI"@) == Some(CloudType::Cirrus),
            lookup(Self::spellings(), "AC"@) == Some(CloudType::Altocumulus),
            lookup(Self::spellings(), "ST"@) == Some(CloudType::Stratus),
    {
        reveal_strlit("CB");
        reveal_strlit("TCU");
        reveal_strlit("CU");
        reveal_strlit("CI");
        reveal_strlit("AC");
        reveal_strlit("ST");
        assert("CB"@.len() == 2 && "CB"@[0] == 'C' && "CB"@[1] == 'B');
        assert("TCU"@.len() == 3 && "TCU"@[0] == 'T' && "TCU"@[1] == 'C' && "TCU"@[2] == 'U');
        assert("CU"@.len() == 2 && "CU"@[0] == 'C' && "CU"@[1] == 'U');
        assert("CI"@.len() == 2 && "CI"@[0] == 'C' && "CI"@[1] == 'I');
        assert("AC"@.len() == 2 && "AC"@[0] == 'A' && "AC"@[1] == 'C');
        assert("ST"@.len() == 2 && "ST"@[0] == 'S' && "ST"@[1] == 'T');
        reveal_with_fuel(lookup, 7);
    }
}

impl Vocabulary for CloudType {
    open spec fn spellings() -> Seq<(Seq<char>, Self)> {
        seq![
            ("CB"@, CloudType::Cumulonimbus),
            ("TCU"@, CloudType::ToweringCumulus),
            ("CU"@, CloudType::Cumulus),
            ("CI"@, CloudType::Cirrus),
            ("AC"@, CloudType::Altocumulus),
            ("ST"@, CloudType::Stratus),
        ]
    }

    open spec fn spec_code(self) -> Seq<char> {
        match self {
            CloudType::Cumulonimbus => "CB"@,
            CloudType::ToweringCumulus => "TCU"@,
            CloudType::Cumulus => "CU"@,
            CloudType::Cirrus => "CI"@,
            CloudType::Altocumulus => "AC"@,
            CloudType::Stratus => "ST"@,
        }
    }

    fn spelling_table() -> (r: Vec<(&'static str, Self)>) {
        let r = vec![
            ("CB", CloudType::Cumulonimbus),
            ("TCU", CloudType::ToweringCumulus),
            ("CU", CloudType::Cumulus),
            ("CI", CloudType::Cirrus),
            ("AC", CloudType::Altocumulus),
            ("ST", CloudType::Stratus),
        ];
        assert(table_view(r@) =~= Self::spellings());
        r
    }

    fn code(self) -> (r: &'static str) {
        match self {
            CloudType::Cumulonimbus => "CB",
            CloudType::ToweringCumulus => "TCU",
            CloudType::Cumulus => "CU",
            CloudType::Cirrus => "CI",
            CloudType::Altocumulus => "AC",
            CloudType::Stratus => "ST",
        }
    }

    proof fn code_round_trip(self) {
        Self::lemma_spellings();
    }

    proof fn spellings_unambiguous() {
        Self::lemma_spellings();
        assert forall|i: int| 0 <= i < Self::spellings().len() implies lookup(
            Self::spellings(),
            #[trigger] Self::spellings()[i].0,
        ) == Some(Self::spellings()[i].1) by {
            if i == 0 {
            } else if i == 1 {
            } else if i == 2 {
            } else if i == 3 {
            } else if i == 4 {
            } else if i == 5 {
            }
        }
    }
}

/// Tendency of a runway visual range.
#[derive(Clone, Copy, PartialEq, Eq, Debug, Structural)]
pub enum VisibilityTrend {
    Up,
    Down,
    NoChange,
}

impl VisibilityTrend {
    proof fn lemma_spellings()
        ensures
            lookup(Self::spellings(), "D"@) == Some(VisibilityTrend::Down),
            lookup(Self::spellings(), "N"@) == Some(VisibilityTrend::NoChange),
            lookup(Self::spellings(), "U"@) == Some(VisibilityTrend::Up),
    {
        reveal_strlit("D");
        reveal_strlit("N");
        reveal_strlit("U");
        assert("D"@.len() == 1 && "D"@[0] == 'D');
        assert("N"@.len() == 1 && "N"@[0] == 'N');
        assert("U"@.len() == 1 && "U"@[0] == 'U');
        reveal_with_fuel(lookup, 4);
    }
}

impl Vocabulary for VisibilityTrend {
    open spec fn spellings() -> Seq<(Seq<char>, Self)> {
        seq![
            ("D"@, VisibilityTrend::Down),
            ("N"@, VisibilityTrend::NoChange),
            ("U"@, VisibilityTrend::Up),
        ]
    }

    open spec fn spec_code(self) -> Seq<char> {
        match self {
            VisibilityTrend::Up => "U"@,
            VisibilityTrend::Down => "D"@,
            VisibilityTrend::NoChange => "N"@,
        }
    }

    fn spelling_table() -> (r: Vec<(&'static str, Self)>) {
        let r = vec![
            ("D", VisibilityTrend::Down),
            ("N", VisibilityTrend::NoChange),
            ("U", VisibilityTrend::Up),
        ];
        assert(table_view(r@) =~= Self::spellings());
        r
    }

    fn code(self) -> (r: &'static str) {
        match self {
            VisibilityTrend::Up => "U",
            VisibilityTrend::Down => "D",
            VisibilityTrend::NoChange => "N",
        }
    }

    proof fn code_round_trip(self) {
        Self::lemma_spellings();
    }

    proof fn spellings_unambiguous() {
        Self::lemma_spellings();
        assert forall|i: int| 0 <= i < Self::spellings().len() implies lookup(
            Self::spellings(),
            #[trigger] Self::spellings()[i].0,
        ) == Some(Self::spellings()[i].1) by {
            if i == 0 {
            } else if i == 1 {
            } else if i == 2 {
            }
        }
    }
}

/// A reading beyond what the instrument can measure.
#[derive(Clone, Copy, PartialEq, Eq, Debug, Structural)]
pub enum OutOfRange {
    Above,
    Below,
}

impl OutOfRange {
    proof fn lemma_spellings()
        ensures
            lookup(Self::spellings(), "M"@) == Some(OutOfRange::Below),
            lookup(Self::spellings(), "P"@) == Some(OutOfRange::Above),
    {
        reveal_strlit("M");
        reveal_strlit("P");
        assert("M"@.len() == 1 && "M"@[0] == 'M');
        assert("P"@.len() == 1 && "P"@[0] == 'P');
        reveal_with_fuel(lookup, 3);
    }
}

impl Vocabulary for OutOfRange {
    open spec fn spellings() -> Seq<(Seq<char>, Self)> {
        seq![
            ("M"@, OutOfRange::Below),
            ("P"@, OutOfRange::Above),
        ]
    }

    open spec fn spec_code(self) -> Seq<char> {
        match self {
            OutOfRange::Above => "P"@,
            OutOfRange::Below => "M"@,
        }
    }

    fn spelling_table() -> (r: Vec<(&'static str, Self)>) {
        let r = vec![
            ("M", OutOfRange::Below),
            ("P", OutOfRange::Above),
        ];
        assert(table_view(r@) =~= Self::spellings());
        r
    }

    fn code(self) -> (r: &'static str) {
        match self {
            OutOfRange::Above => "P",
            OutOfRange::Below => "M",
        }
    }

    proof fn code_round_trip(self) {
        Self::lemma_spellings();
    }

    proof fn spellings_unambiguous() {
        Self::lemma_spellings();
        assert forall|i: int| 0 <= i < Self::spellings().len() implies lookup(
            Self::spellings(),
            #[trigger] Self::spellings()[i].0,
        ) == Some(Self::spellings()[i].1) by {
            if i == 0 {
            } else if i == 1 {
            }
        }
    }
}

/// What covers a runway.
#[derive(Clone, Copy, PartialEq, Eq, Debug, Structural)]
pub enum DepositType {
    ClearAndDry,
    Damp,
    Wet,
    Frost,
    DrySnow,
    WetSnow,
    Slush,
    Ice,
    CompactedSnow,
    FrozenRidges,
}

impl DepositType {
    proof fn lemma_spellings()
        ensures
            lookup(Self::spellings(), "0"@) == Some(DepositType::ClearAndDry),
            lookup(Self::spellings(), "1"@) == Some(DepositType::Damp),
            lookup(Self::spellings(), "2"@) == Some(DepositType::Wet),
            lookup(Self::spellings(), "3"@) == Some(DepositType::Frost),
            lookup(Self::spellings(), "4"@) == Some(DepositType::DrySnow),
            lookup(Self::spellings(), "5"@) == Some(DepositType::WetSnow),
            lookup(Self::spellings(), "6"@) == Some(DepositType::Slush),
            lookup(Self::spellings(), "7"@) == Some(DepositType::Ice),
            lookup(Self::spellings(), "8"@) == Some(DepositType::CompactedSnow),
            lookup(Self::spellings(), "9"@) == Some(DepositType::FrozenRidges),
    {
        reveal_strlit("0");
        reveal_strlit("1");
        reveal_strlit("2");
        reveal_strlit("3");
        reveal_strlit("4");
        reveal_strlit("5");
        reveal_strlit("6");
        reveal_strlit("7");
        reveal_strlit("8");
        reveal_strlit("9");
        assert("0"@.len() == 1 && "0"@[0] == '0');
        assert("1"@.len() == 1 && "1"@[0] == '1');
        assert("2"@.len() == 1 && "2"@[0] == '2');
        assert("3"@.len() == 1 && "3"@[0] == '3');
        assert("4"@.len() == 1 && "4"@[0] == '4');
        assert("5"@.len() == 1 && "5"@[0] == '5');
        assert("6"@.len() == 1 && "6"@[0] == '6');
        assert("7"@.len() == 1 && "7"@[0] == '7');
        assert("8"@.len() == 1 && "8"@[0] == '8');
        assert("9"@.len() == 1 && "9"@[0] == '9');
        reveal_with_fuel(lookup, 11);
    }
}

impl Vocabulary for DepositType {
    open spec fn spellings() -> Seq<(Seq<char>, Self)> {
        seq![
            ("0"@, DepositType::ClearAndDry),
            ("1"@, DepositType::Damp),
            ("2"@, DepositType::Wet),
            ("3"@, DepositType::Frost),
            ("4"@, DepositType::DrySnow),
            ("5"@, DepositType::WetSnow),
            ("6"@, DepositType::Slush),
            ("7"@, DepositType::Ice),
            ("8"@, DepositType::CompactedSnow),
            ("9"@, DepositType::FrozenRidges),
        ]
    }

    open spec fn spec_code(self) -> Seq<char> {
        match self {
            DepositType::ClearAndDry => "0"@,
            DepositType::Damp => "1"@,
            DepositType::Wet => "2"@,
            DepositType::Frost => "3"@,
            DepositType::DrySnow => "4"@,
            DepositType::WetSnow => "5"@,
            DepositType::Slush => "6"@,
            DepositType::Ice => "7"@,
            DepositType::CompactedSnow => "8"@,
            DepositType::FrozenRidges => "9"@,
        }
    }

    fn spelling_table() -> (r: Vec<(&'static str, Self)>) {
        let r = vec![
            ("0", DepositType::ClearAndDry),
            ("1", DepositType::Damp),
            ("2", DepositType::Wet),
            ("3", DepositType::Frost),
            ("4", DepositType::DrySnow),
            ("5", DepositType::WetSnow),
            ("6", DepositType::Slush),
            ("7", DepositType::Ice),
            ("8", DepositType::CompactedSnow),
            ("9", DepositType::FrozenRidges),
        ];
        assert(table_view(r@) =~= Self::spellings());
        r
    }

    fn code(self) -> (r: &'static str) {
        match self {
            DepositType::ClearAndDry => "0",
            DepositType::Damp => "1",
            DepositType::Wet => "2",
            DepositType::Frost => "3",
            DepositType::DrySnow => "4",
            DepositType::WetSnow => "5",
            DepositType::Slush => "6",
            DepositType::Ice => "7",
            DepositType::CompactedSnow => "8",
            DepositType::FrozenRidges => "9",
        }
    }

    proof fn code_round_trip(self) {
        Self::lemma_spellings();
    }

    proof fn spellings_unambiguous() {
        Self::lemma_spellings();
        assert forall|i: int| 0 <= i < Self::spellings().len() implies lookup(
            Self::spellings(),
            #[trigger] Self::spellings()[i].0,
        ) == Some(Self::spellings()[i].1) by {
            if i == 0 {
            } else if i == 1 {
            } else if i == 2 {
            } else if i == 3 {
            } else if i == 4 {
            } else if i == 5 {
            } else if i == 6 {
            } else if i == 7 {
            } else if i == 8 {
            } else if i == 9 {
            }
        }
    }
}

/// How much of a runway a deposit covers.
#[derive(Clone, Copy, PartialEq, Eq, Debug, Structural)]
pub enum Coverage {
    VeryLow,
    Low,
    Medium,
    High,
}

impl Coverage {
    proof fn lemma_spellings()
        ensures
            lookup(Self::spellings(), "1"@) == Some(Coverage::VeryLow),
            lookup(Self::spellings(), "2"@) == Some(Coverage::Low),
            lookup(Self::spellings(), "5"@) == Some(Coverage::Medium),
            lookup(Self::spellings(), "9"@) == Some(Coverage::High),
    {
        reveal_strlit("1");
        reveal_strlit("2");
        reveal_strlit("5");
        reveal_strlit("9");
        assert("1"@.len() == 1 && "1"@[0] == '1');
        assert("2"@.len() == 1 && "2"@[0] == '2');
        assert("5"@.len() == 1 && "5"@[0] == '5');
        assert("9"@.len() == 1 && "9"@[0] == '9');
        reveal_with_fuel(lookup, 5);
    }
}

impl Vocabulary for Coverage {
    open spec fn spellings() -> Seq<(Seq<char>, Self)> {
        seq![
            ("1"@, Coverage::VeryLow),
            ("2"@, Coverage::Low),
            ("5"@, Coverage::Medium),
            ("9"@, Coverage::High),
        ]
    }

    open spec fn spec_code(self) -> Seq<char> {
        match self {
            Coverage::VeryLow => "1"@,
            Coverage::Low => "2"@,
            Coverage::Medium => "5"@,
            Coverage::High => "9"@,
        }
    }

    fn spelling_table() -> (r: Vec<(&'static str, Self)>) {
        let r = vec![
            ("1", Coverage::VeryLow),
            ("2", Coverage::Low),
            ("5", Coverage::Medium),
            ("9", Coverage::High),
        ];
        assert(table_view(r@) =~= Self::spellings());
        r
    }

    fn code(self) -> (r: &'static str) {
        match self {
            Coverage::VeryLow => "1",
            Coverage::Low => "2",
            Coverage::Medium => "5",
            Coverage::High => "9",
        }
    }

    proof fn code_round_trip(self) {
        Self::lemma_spellings();
    }

    proof fn spellings_unambiguous() {
        Self::lemma_spellings();
        assert forall|i: int| 0 <= i < Self::spellings().len() implies lookup(
            Self::spellings(),
            #[trigger] Self::spellings()[i].0,
        ) == Some(Self::spellings()[i].1) by {
            if i == 0 {
            } else if i == 1 {
            } else if i == 2 {
            } else if i == 3 {
            }
        }
    }
}

/// Estimated braking action on a runway.
#[derive(Clone, Copy, PartialEq, Eq, Debug, Structural)]
pub enum BrakingAction {
    Poor,
    PoorToMedium,
    Medium,
    MediumToGood,
    Good,
    UnreliableMeasurement,
}

impl BrakingAction {
    proof fn lemma_spellings()
        ensures
            lookup(Self::spellings(), "91"@) == Some(BrakingAction::Poor),
            lookup(Self::spellings(), "92"@) == Some(BrakingAction::PoorToMedium),
            lookup(Self::spellings(), "93"@) == Some(BrakingAction::Medium),
            lookup(Self::spellings(), "94"@) == Some(BrakingAction::MediumToGood),
            lookup(Self::spellings(), "95"@) == Some(BrakingAction::Good),
            lookup(Self::spellings(), "99"@) == Some(BrakingAction::UnreliableMeasurement),
    {
        reveal_strlit("91");
        reveal_strlit("92");
        reveal_strlit("93");
        reveal_strlit("94");
        reveal_strlit("95");
        reveal_strlit("99");
        assert("91"@.len() == 2 && "91"@[0] == '9' && "91"@[1] == '1');
        assert("92"@.len() == 2 && "92"@[0] == '9' && "92"@[1] == '2');
        assert("93"@.len() == 2 && "93"@[0] == '9' && "93"@[1] == '3');
        assert("94"@.len() == 2 && "94"@[0] == '9' && "94"@[1] == '4');
        assert("95"@.len() == 2 && "95"@[0] == '9' && "95"@[1] == '5');
        assert("99"@.len() == 2 && "99"@[0] == '9' && "99"@[1] == '9');
        reveal_with_fuel(lookup, 7);
    }
}

impl Vocabulary for BrakingAction {
    open spec fn spellings() -> Seq<(Seq<char>, Self)> {
        seq![
            ("91"@, BrakingAction::Poor),
            ("92"@, BrakingAction::PoorToMedium),
            ("93"@, BrakingAction::Medium),
            ("94"@, BrakingAction::MediumToGood),
            ("95"@, BrakingAction::Good),
            ("99"@, BrakingAction::UnreliableMeasurement),
        ]
    }

    open spec fn spec_code(self) -> Seq<char> {
        match self {
            BrakingAction::Poor => "91"@,
            BrakingAction::PoorToMedium => "92"@,
            BrakingAction::Medium => "93"@,
            BrakingAction::MediumToGood => "94"@,
            BrakingAction::Good => "95"@,
            BrakingAction::UnreliableMeasurement => "99"@,
        }
    }

    fn spelling_table() -> (r: Vec<(&'static str, Self)>) {
        let r = vec![
            ("91", BrakingAction::Poor),
            ("92", BrakingAction::PoorToMedium),
            ("93", BrakingAction::Medium),
            ("94", BrakingAction::MediumToGood),
            ("95", BrakingAction::Good),
            ("99", BrakingAction::UnreliableMeasurement),
        ];
        assert(table_view(r@) =~= Self::spellings());
        r
    }

    fn code(self) -> (r: &'static str) {
        match self {
            BrakingAction::Poor => "91",
            BrakingAction::PoorToMedium => "92",
            BrakingAction::Medium => "93",
            BrakingAction::MediumToGood => "94",
            BrakingAction::Good => "95",
            BrakingAction::UnreliableMeasurement => "99",
        }
    }

    proof fn code_round_trip(self) {
        Self::lemma_spellings();
    }

    proof fn spellings_unambiguous() {
        Self::lemma_spellings();
        assert forall|i: int| 0 <= i < Self::spellings().len() implies lookup(
            Self::spellings(),
            #[trigger] Self::spellings()[i].0,
        ) == Some(Self::spellings()[i].1) by {
            if i == 0 {
            } else if i == 1 {
            } else if i == 2 {
            } else if i == 3 {
            } else if i == 4 {
            } else if i == 5 {
            }
        }
    }
}

/// Intensity of a weather phenomenon; moderate has an empty code.
#[derive(Clone, Copy, PartialEq, Eq, Debug, Structural)]
pub enum Intensity {
    Light,
    Moderate,
    Heavy,
}

impl Intensity {
    proof fn lemma_spellings()
        ensures
            lookup(Self::spellings(), "-"@) == Some(Intensity::Light),
            lookup(Self::spellings(), ""@) == Some(Intensity::Moderate),
            lookup(Self::spellings(), "+"@) == Some(Intensity::Heavy),
    {
        reveal_strlit("-");
        reveal_strlit("");
        assert(""@.len() == 0);
        reveal_strlit("+");
        assert("-"@.len() == 1 && "-"@[0] == '-');
        assert("+"@.len() == 1 && "+"@[0] == '+');
        reveal_with_fuel(lookup, 4);
    }
}

impl Vocabulary for Intensity {
    open spec fn spellings() -> Seq<(Seq<char>, Self)> {
        seq![
            ("-"@, Intensity::Light),
            (""@, Intensity::Moderate),
            ("+"@, Intensity::Heavy),
        ]
    }

    open spec fn spec_code(self) -> Seq<char> {
        match self {
            Intensity::Light => "-"@,
            Intensity::Moderate => ""@,
            Intensity::Heavy => "+"@,
        }
    }

    fn spelling_table() -> (r: Vec<(&'static str, Self)>) {
        let r = vec![
            ("-", Intensity::Light),
            ("", Intensity::Moderate),
            ("+", Intensity::Heavy),
        ];
        assert(table_view(r@) =~= Self::spellings());
        r
    }

    fn code(self) -> (r: &'static str) {
        match self {
            Intensity::Light => "-",
            Intensity::Moderate => "",
            Intensity::Heavy => "+",
        }
    }

    proof fn code_round_trip(self) {
        Self::lemma_spellings();
    }

    proof fn spellings_unambiguous() {
        Self::lemma_spellings();
        assert forall|i: int| 0 <= i < Self::spellings().len() implies lookup(
            Self::spellings(),
            #[trigger] Self::spellings()[i].0,
        ) == Some(Self::spellings()[i].1) by {
            if i == 0 {
            } else if i == 1 {
            } else if i == 2 {
            }
        }
    }
}

/// Qualifier of a weather phenomenon.
#[derive(Clone, Copy, PartialEq, Eq, Debug, Structural)]
pub enum Descriptor {
    Shallow,
    Partial,
    Patches,
    LowDrifting,
    Blowing,
    Showers,
    Thunderstorm,
    Freezing,
}

impl Descriptor {
    proof fn lemma_spellings()
        ensures
            lookup(Self::spellings(), "MI"@) == Some(Descriptor::Shallow),
            lookup(Self::spellings(), "PR"@) == Some(Descriptor::Partial),
            lookup(Self::spellings(), "BC"@) == Some(Descriptor::Patches),
            lookup(Self::spellings(), "DR"@) == Some(Descriptor::LowDrifting),
            lookup(Self::spellings(), "BL"@) == Some(Descriptor::Blowing),
            lookup(Self::spellings(), "SH"@) == Some(Descriptor::Showers),
            lookup(Self::spellings(), "TS"@) == Some(Descriptor::Thunderstorm),
            lookup(Self::spellings(), "FZ"@) == Some(Descriptor::Freezing),
    {
        reveal_strlit("MI");
        reveal_strlit("PR");
        reveal_strlit("BC");
        reveal_strlit("DR");
        reveal_strlit("BL");
        reveal_strlit("SH");
        reveal_strlit("TS");
        reveal_strlit("FZ");
        assert("MI"@.len() == 2 && "MI"@[0] == 'M' && "MI"@[1] == 'I');
        assert("PR"@.len() == 2 && "PR"@[0] == 'P' && "PR"@[1] == 'R');
        assert("BC"@.len() == 2 && "BC"@[0] == 'B' && "BC"@[1] == 'C');
        assert("DR"@.len() == 2 && "DR"@[0] == 'D' && "DR"@[1] == 'R');
        assert("BL"@.len() == 2 && "BL"@[0] == 'B' && "BL"@[1] == 'L');
        assert("SH"@.len() == 2 && "SH"@[0] == 'S' && "SH"@[1] == 'H');
        assert("TS"@.len() == 2 && "TS"@[0] == 'T' && "TS"@[1] == 'S');
        assert("FZ"@.len() == 2 && "FZ"@[0] == 'F' && "FZ"@[1] == 'Z');
        reveal_with_fuel(lookup, 9);
    }
}

impl Vocabulary for Descriptor {
    open spec fn spellings() -> Seq<(Seq<char>, Self)> {
        seq![
            ("MI"@, Descriptor::Shallow),
            ("PR"@, Descriptor::Partial),
            ("BC"@, Descriptor::Patches),
            ("DR"@, Descriptor::LowDrifting),
            ("BL"@, Descriptor::Blowing),
            ("SH"@, Descriptor::Showers),
            ("TS"@, Descriptor::Thunderstorm),
            ("FZ"@, Descriptor::Freezing),
        ]
    }

    open spec fn spec_code(self) -> Seq<char> {
        match self {
            Descriptor::Shallow => "MI"@,
            Descriptor::Partial => "PR"@,
            Descriptor::Patches => "BC"@,
            Descriptor::LowDrifting => "DR"@,
            Descriptor::Blowing => "BL"@,
            Descriptor::Showers => "SH"@,
            Descriptor::Thunderstorm => "TS"@,
            Descriptor::Freezing => "FZ"@,
        }
    }

    fn spelling_table() -> (r: Vec<(&'static str, Self)>) {
        let r = vec![
            ("MI", Descriptor::Shallow),
            ("PR", Descriptor::Partial),
            ("BC", Descriptor::Patches),
            ("DR", Descriptor::LowDrifting),
            ("BL", Descriptor::Blowing),
            ("SH", Descriptor::Showers),
            ("TS", Descriptor::Thunderstorm),
            ("FZ", Descriptor::Freezing),
        ];
        assert(table_view(r@) =~= Self::spellings());
        r
    }

    fn code(self) -> (r: &'static str) {
        match self {
            Descriptor::Shallow => "MI",
            Descriptor::Partial => "PR",
            Descriptor::Patches => "BC",
            Descriptor::LowDrifting => "DR",
            Descriptor::Blowing => "BL",
            Descriptor::Showers => "SH",
            Descriptor::Thunderstorm => "TS",
            Descriptor::Freezing => "FZ",
        }
    }

    proof fn code_round_trip(self) {
        Self::lemma_spellings();
    }

    proof fn spellings_unambiguous() {
        Self::lemma_spellings();
        assert forall|i: int| 0 <= i < Self::spellings().len() implies lookup(
            Self::spellings(),
            #[trigger] Self::spellings()[i].0,
        ) == Some(Self::spellings()[i].1) by {
            if i == 0 {
            } else if i == 1 {
            } else if i == 2 {
            } else if i == 3 {
            } else if i == 4 {
            } else if i == 5 {
            } else if i == 6 {
            } else if i == 7 {
            }
        }
    }
}

/// Forms of precipitation.
#[derive(Clone, Copy, PartialEq, Eq, Debug, Structural)]
pub enum Precipitation {
    Rain,
    Drizzle,
    Snow,
    SnowGrains,
    IceCrystals,
    IcePellets,
    Hail,
    Graupel,
    Unknown,
}

impl Precipitation {
    proof fn lemma_spellings()
        ensures
            lookup(Self::spellings(), "RA"@) == Some(Precipitation::Rain),
            lookup(Self::spellings(), "DZ"@) == Some(Precipitation::Drizzle),
            lookup(Self::spellings(), "SN"@) == Some(Precipitation::Snow),
            lookup(Self::spellings(), "SG"@) == Some(Precipitation::SnowGrains),
            lookup(Self::spellings(), "IC"@) == Some(Precipitation::IceCrystals),
            lookup(Self::spellings(), "PL"@) == Some(Precipitation::IcePellets),
            lookup(Self::spellings(), "GR"@) == Some(Precipitation::Hail),
            lookup(Self::spellings(), "GS"@) == Some(Precipitation::Graupel),
            lookup(Self::spellings(), "UP"@) == Some(Precipitation::Unknown),
    {
        reveal_strlit("RA");
        reveal_strlit("DZ");
        reveal_strlit("SN");
        reveal_strlit("SG");
        reveal_strlit("IC");
        reveal_strlit("PL");
        reveal_strlit("GR");
        reveal_strlit("GS");
        reveal_strlit("UP");
        assert("RA"@.len() == 2 && "RA"@[0] == 'R' && "RA"@[1] == 'A');
        assert("DZ"@.len() == 2 && "DZ"@[0] == 'D' && "DZ"@[1] == 'Z');
        assert("SN"@.len() == 2 && "SN"@[0] == 'S' && "SN"@[1] == 'N');
        assert("SG"@.len() == 2 && "SG"@[0] == 'S' && "SG"@[1] == 'G');
        assert("IC"@.len() == 2 && "IC"@[0] == 'I' && "IC"@[1] == 'C');
        assert("PL"@.len() == 2 && "PL"@[0] == 'P' && "PL"@[1] == 'L');
        assert("GR"@.len() == 2 && "GR"@[0] == 'G' && "GR"@[1] == 'R');
        assert("GS"@.len() == 2 && "GS"@[0] == 'G' && "GS"@[1] == 'S');
        assert("UP"@.len() == 2 && "UP"@[0] == 'U' && "UP"@[1] == 'P');
        reveal_with_fuel(lookup, 10);
    }
}

impl Vocabulary for Precipitation {
    open spec fn spellings() -> Seq<(Seq<char>, Self)> {
        seq![
            ("RA"@, Precipitation::Rain),
            ("DZ"@, Precipitation::Drizzle),
            ("SN"@, Precipitation::Snow),
            ("SG"@, Precipitation::SnowGrains),
            ("IC"@, Precipitation::IceCrystals),
            ("PL"@, Precipitation::IcePellets),
            ("GR"@, Precipitation::Hail),
            ("GS"@, Precipitation::Graupel),
            ("UP"@, Precipitation::Unknown),
        ]
    }

    open spec fn spec_code(self) -> Seq<char> {
        match self {
            Precipitation::Rain => "RA"@,
            Precipitation::Drizzle => "DZ"@,
            Precipitation::Snow => "SN"@,
            Precipitation::SnowGrains => "SG"@,
            Precipitation::IceCrystals => "IC"@,
            Precipitation::IcePellets => "PL"@,
            Precipitation::Hail => "GR"@,
            Precipitation::Graupel => "GS"@,
            Precipitation::Unknown => "UP"@,
        }
    }

    fn spelling_table() -> (r: Vec<(&'static str, Self)>) {
        let r = vec![
            ("RA", Precipitation::Rain),
            ("DZ", Precipitation::Drizzle),
            ("SN", Precipitation::Snow),
            ("SG", Precipitation::SnowGrains),
            ("IC", Precipitation::IceCrystals),
            ("PL", Precipitation::IcePellets),
            ("GR", Precipitation::Hail),
            ("GS", Precipitation::Graupel),
            ("UP", Precipitation::Unknown),
        ];
        assert(table_view(r@) =~= Self::spellings());
        r
    }

    fn code(self) -> (r: &'static str) {
        match self {
            Precipitation::Rain => "RA",
            Precipitation::Drizzle => "DZ",
            Precipitation::Snow => "SN",
            Precipitation::SnowGrains => "SG",
            Precipitation::IceCrystals => "IC",
            Precipitation::IcePellets => "PL",
            Precipitation::Hail => "GR",
            Precipitation::Graupel => "GS",
            Precipitation::Unknown => "UP",
        }
    }

    proof fn code_round_trip(self) {
        Self::lemma_spellings();
    }

    proof fn spellings_unambiguous() {
        Self::lemma_spellings();
        assert forall|i: int| 0 <= i < Self::spellings().len() implies lookup(
            Self::spellings(),
            #[trigger] Self::spellings()[i].0,
        ) == Some(Self::spellings()[i].1) by {
            if i == 0 {
            } else if i == 1 {
            } else if i == 2 {
            } else if i == 3 {
            } else if i == 4 {
            } else if i == 5 {
            } else if i == 6 {
            } else if i == 7 {
            } else if i == 8 {
            }
        }
    }
}

/// Phenomena that reduce visibility.
#[derive(Clone, Copy, PartialEq, Eq, Debug, Structural)]
pub enum Obscuration {
    Fog,
    Mist,
    Haze,
    VolcanicAsh,
    WidespreadDust,
    Smoke,
    Sand,
    Spray,
}

impl Obscuration {
    proof fn lemma_spellings()
        ensures
            lookup(Self::spellings(), "FG"@) == Some(Obscuration::Fog),
            lookup(Self::spellings(), "BR"@) == Some(Obscuration::Mist),
            lookup(Self::spellings(), "HZ"@) == Some(Obscuration::Haze),
            lookup(Self::spellings(), "VA"@) == Some(Obscuration::VolcanicAsh),
            lookup(Self::spellings(), "DU"@) == Some(Obscuration::WidespreadDust),
            lookup(Self::spellings(), "FU"@) == Some(Obscuration::Smoke),
            lookup(Self::spellings(), "SA"@) == Some(Obscuration::Sand),
            lookup(Self::spellings(), "PY"@) == Some(Obscuration::Spray),
    {
        reveal_strlit("FG");
        reveal_strlit("BR");
        reveal_strlit("HZ");
        reveal_strlit("VA");
        reveal_strlit("DU");
        reveal_strlit("FU");
        reveal_strlit("SA");
        reveal_strlit("PY");
        assert("FG"@.len() == 2 && "FG"@[0] == 'F' && "FG"@[1] == 'G');
        assert("BR"@.len() == 2 && "BR"@[0] == 'B' && "BR"@[1] == 'R');
        assert("HZ"@.len() == 2 && "HZ"@[0] == 'H' && "HZ"@[1] == 'Z');
        assert("VA"@.len() == 2 && "VA"@[0] == 'V' && "VA"@[1] == 'A');
        assert("DU"@.len() == 2 && "DU"@[0] == 'D' && "DU"@[1] == 'U');
        assert("FU"@.len() == 2 && "FU"@[0] == 'F' && "FU"@[1] == 'U');
        assert("SA"@.len() == 2 && "SA"@[0] == 'S' && "SA"@[1] == 'A');
        assert("PY"@.len() == 2 && "PY"@[0] == 'P' && "PY"@[1] == 'Y');
        reveal_with_fuel(lookup, 9);
    }
}

impl Vocabulary for Obscuration {
    open spec fn spellings() -> Seq<(Seq<char>, Self)> {
        seq![
            ("FG"@, Obscuration::Fog),
            ("BR"@, Obscuration::Mist),
            ("HZ"@, Obscuration::Haze),
            ("VA"@, Obscuration::VolcanicAsh),
            ("DU"@, Obscuration::WidespreadDust),
            ("FU"@, Obscuration::Smoke),
            ("SA"@, Obscuration::Sand),
            ("PY"@, Obscuration::Spray),
        ]
    }

    open spec fn spec_code(self) -> Seq<char> {
        match self {
            Obscuration::Fog => "FG"@,
            Obscuration::Mist => "BR"@,
            Obscuration::Haze => "HZ"@,
            Obscuration::VolcanicAsh => "VA"@,
            Obscuration::WidespreadDust => "DU"@,
            Obscuration::Smoke => "FU"@,
            Obscuration::Sand => "SA"@,
            Obscuration::Spray => "PY"@,
        }
    }

    fn spelling_table() -> (r: Vec<(&'static str, Self)>) {
        let r = vec![
            ("FG", Obscuration::Fog),
            ("BR", Obscuration::Mist),
            ("HZ", Obscuration::Haze),
            ("VA", Obscuration::VolcanicAsh),
            ("DU", Obscuration::WidespreadDust),
            ("FU", Obscuration::Smoke),
            ("SA", Obscuration::Sand),
            ("PY", Obscuration::Spray),
        ];
        assert(table_view(r@) =~= Self::spellings());
        r
    }

    fn code(self) -> (r: &'static str) {
        match self {
            Obscuration::Fog => "FG",
            Obscuration::Mist => "BR",
            Obscuration::Haze => "HZ",
            Obscuration::VolcanicAsh => "VA",
            Obscuration::WidespreadDust => "DU",
            Obscuration::Smoke => "FU",
            Obscuration::Sand => "SA",
            Obscuration::Spray => "PY",
        }
    }

    proof fn code_round_trip(self) {
        Self::lemma_spellings();
    }

    proof fn spellings_unambiguous() {
        Self::lemma_spellings();
        assert forall|i: int| 0 <= i < Self::spellings().len() implies lookup(
            Self::spellings(),
            #[trigger] Self::spellings()[i].0,
        ) == Some(Self::spellings()[i].1) by {
            if i == 0 {
            } else if i == 1 {
            } else if i == 2 {
            } else if i == 3 {
            } else if i == 4 {
            } else if i == 5 {
            } else if i == 6 {
            } else if i == 7 {
            }
        }
    }
}

/// Other weather phenomena.
#[derive(Clone, Copy, PartialEq, Eq, Debug, Structural)]
pub enum Other {
    Squall,
    SandWhirls,
    Duststorm,
    Sandstorm,
    FunnelCloud,
}

impl Other {
    proof fn lemma_spellings()
        ensures
            lookup(Self::spellings(), "SQ"@) == Some(Other::Squall),
            lookup(Self::spellings(), "PO"@) == Some(Other::SandWhirls),
            lookup(Self::spellings(), "DS"@) == Some(Other::Duststorm),
            lookup(Self::spellings(), "SS"@) == Some(Other::Sandstorm),
            lookup(Self::spellings(), "FC"@) == Some(Other::FunnelCloud),
    {
        reveal_strlit("SQ");
        reveal_strlit("PO");
        reveal_strlit("DS");
        reveal_strlit("SS");
        reveal_strlit("FC");
        assert("SQ"@.len() == 2 && "SQ"@[0] == 'S' && "SQ"@[1] == 'Q');
        assert("PO"@.len() == 2 && "PO"@[0] == 'P' && "PO"@[1] == 'O');
        assert("DS"@.len() == 2 && "DS"@[0] == 'D' && "DS"@[1] == 'S');
        assert("SS"@.len() == 2 && "SS"@[0] == 'S' && "SS"@[1] == 'S');
        assert("FC"@.len() == 2 && "FC"@[0] == 'F' && "FC"@[1] == 'C');
        reveal_with_fuel(lookup, 6);
    }
}

impl Vocabulary for Other {
    open spec fn spellings() -> Seq<(Seq<char>, Self)> {
        seq![
            ("SQ"@, Other::Squall),
            ("PO"@, Other::SandWhirls),
            ("DS"@, Other::Duststorm),
            ("SS"@, Other::Sandstorm),
            ("FC"@, Other::FunnelCloud),
        ]
    }

    open spec fn spec_code(self) -> Seq<char> {
        match self {
            Other::Squall => "SQ"@,
            Other::SandWhirls => "PO"@,
            Other::Duststorm => "DS"@,
            Other::Sandstorm => "SS"@,
            Other::FunnelCloud => "FC"@,
        }
    }

    fn spelling_table() -> (r: Vec<(&'static str, Self)>) {
        let r = vec![
            ("SQ", Other::Squall),
            ("PO", Other::SandWhirls),
            ("DS", Other::Duststorm),
            ("SS", Other::Sandstorm),
            ("FC", Other::FunnelCloud),
        ];
        assert(table_view(r@) =~= Self::spellings());
        r
    }

    fn code(self) -> (r: &'static str) {
        match self {
            Other::Squall => "SQ",
            Other::SandWhirls => "PO",
            Other::Duststorm => "DS",
            Other::Sandstorm => "SS",
            Other::FunnelCloud => "FC",
        }
    }

    proof fn code_round_trip(self) {
        Self::lemma_spellings();
    }

    proof fn spellings_unambiguous() {
        Self::lemma_spellings();
        assert forall|i: int| 0 <= i < Self::spellings().len() implies lookup(
            Self::spellings(),
            #[trigger] Self::spellings()[i].0,
        ) == Some(Self::spellings()[i].1) by {
            if i == 0 {
            } else if i == 1 {
            } else if i == 2 {
            } else if i == 3 {
            } else if i == 4 {
            }
        }
    }
}

/// Colour states give visibility and cloud height in one code; often used by military fields.
#[derive(Clone, Copy, PartialEq, Eq, Debug, Structural)]
pub enum ColorState {
    BluePlus,
    Blue,
    White,
    Green,
    YellowOne,
    YellowTwo,
    Amber,
    Red,
}

impl ColorState {
    proof fn lemma_spellings()
        ensures
            lookup(Self::spellings(), "BLU+"@) == Some(ColorState::BluePlus),
            lookup(Self::spellings(), "BLU"@) == Some(ColorState::Blue),
            lookup(Self::spellings(), "WHT"@) == Some(ColorState::White),
            lookup(Self::spellings(), "GRN"@) == Some(ColorState::Green),
            lookup(Self::spellings(), "YLO1"@) == Some(ColorState::YellowOne),
            lookup(Self::spellings(), "YLO2"@) == Some(ColorState::YellowTwo),
            lookup(Self::spellings(), "YLO"@) == Some(ColorState::YellowOne),
            lookup(Self::spellings(), "AMB"@) == Some(ColorState::Amber),
            lookup(Self::spellings(), "RED"@) == Some(ColorState::Red),
    {
        reveal_strlit("BLU+");
        reveal_strlit("BLU");
        reveal_strlit("WHT");
        reveal_strlit("GRN");
        reveal_strlit("YLO1");
        reveal_strlit("YLO2");
        reveal_strlit("YLO");
        reveal_strlit("AMB");
        reveal_strlit("RED");
        assert("BLU+"@.len() == 4 && "BLU+"@[0] == 'B' && "BLU+"@[1] == 'L' && "BLU+"@[2] == 'U' && "BLU+"@[3] == '+');
        assert("BLU"@.len() == 3 && "BLU"@[0] == 'B' && "BLU"@[1] == 'L' && "BLU"@[2] == 'U');
        assert("WHT"@.len() == 3 && "WHT"@[0] == 'W' && "WHT"@[1] == 'H' && "WHT"@[2] == 'T');
        assert("GRN"@.len() == 3 && "GRN"@[0] == 'G' && "GRN"@[1] == 'R' && "GRN"@[2] == 'N');
        assert("YLO1"@.len() == 4 && "YLO1"@[0] == 'Y' && "YLO1"@[1] == 'L' && "YLO1"@[2] == 'O' && "YLO1"@[3] == '1');
        assert("YLO2"@.len() == 4 && "YLO2"@[0] == 'Y' && "YLO2"@[1] == 'L' && "YLO2"@[2] == 'O' && "YLO2"@[3] == '2');
        assert("YLO"@.len() == 3 && "YLO"@[0] == 'Y' && "YLO"@[1] == 'L' && "YLO"@[2] == 'O');
        assert("AMB"@.len() == 3 && "AMB"@[0] == 'A' && "AMB"@[1] == 'M' && "AMB"@[2] == 'B');
        assert("RED"@.len() == 3 && "RED"@[0] == 'R' && "RED"@[1] == 'E' && "RED"@[2] == 'D');
        reveal_with_fuel(lookup, 10);
    }
}

impl Vocabulary for ColorState {
    open spec fn spellings() -> Seq<(Seq<char>, Self)> {
        seq![
            ("BLU+"@, ColorState::BluePlus),
            ("BLU"@, ColorState::Blue),
            ("WHT"@, ColorState::White),
            ("GRN"@, ColorState::Green),
            ("YLO1"@, ColorState::YellowOne),
            ("YLO2"@, ColorState::YellowTwo),
            ("YLO"@, ColorState::YellowOne),
            ("AMB"@, ColorState::Amber),
            ("RED"@, ColorState::Red),
        ]
    }

    open spec fn spec_code(self) -> Seq<char> {
        match self {
            ColorState::BluePlus => "BLU+"@,
            ColorState::Blue => "BLU"@,
            ColorState::White => "WHT"@,
            ColorState::Green => "GRN"@,
            ColorState::YellowOne => "YLO1"@,
            ColorState::YellowTwo => "YLO2"@,
            ColorState::Amber => "AMB"@,
            ColorState::Red => "RED"@,
        }
    }

    fn spelling_table() -> (r: Vec<(&'static str, Self)>) {
        let r = vec![
            ("BLU+", ColorState::BluePlus),
            ("BLU", ColorState::Blue),
            ("WHT", ColorState::White),
            ("GRN", ColorState::Green),
            ("YLO1", ColorState::YellowOne),
            ("YLO2", ColorState::YellowTwo),
            ("YLO", ColorState::YellowOne),
            ("AMB", ColorState::Amber),
            ("RED", ColorState::Red),
        ];
        assert(table_view(r@) =~= Self::spellings());
        r
    }

    fn code(self) -> (r: &'static str) {
        match self {
            ColorState::BluePlus => "BLU+",
            ColorState::Blue => "BLU",
            ColorState::White => "WHT",
            ColorState::Green => "GRN",
            ColorState::YellowOne => "YLO1",
            ColorState::YellowTwo => "YLO2",
            ColorState::Amber => "AMB",
            ColorState::Red => "RED",
        }
    }

    proof fn code_round_trip(self) {
        Self::lemma_spellings();
    }

    proof fn spellings_unambiguous() {
        Self::lemma_spellings();
        assert forall|i: int| 0 <= i < Self::spellings().len() implies lookup(
            Self::spellings(),
            #[trigger] Self::spellings()[i].0,
        ) == Some(Self::spellings()[i].1) by {
            if i == 0 {
            } else if i == 1 {
            } else if i == 2 {
            } else if i == 3 {
            } else if i == 4 {
            } else if i == 5 {
            } else if i == 6 {
            } else if i == 7 {
            } else if i == 8 {
            }
        }
    }
}

/// The eight compass points.
#[derive(Clone, Copy, PartialEq, Eq, Debug, Structural)]
pub enum CompassDirection {
    NorthEast,
    NorthWest,
    North,
    SouthEast,
    SouthWest,
    South,
    East,
    West,
}

impl CompassDirection {
    proof fn lemma_spellings()
        ensures
            lookup(Self::spellings(), "NE"@) == Some(CompassDirection::NorthEast),
            lookup(Self::spellings(), "NW"@) == Some(CompassDirection::NorthWest),
            lookup(Self::spellings(), "N"@) == Some(CompassDirection::North),
            lookup(Self::spellings(), "SE"@) == Some(CompassDirection::SouthEast),
            lookup(Self::spellings(), "SW"@) == Some(CompassDirection::SouthWest),
            lookup(Self::spellings(), "S"@) == Some(CompassDirection::South),
            lookup(Self::spellings(), "E"@) == Some(CompassDirection::East),
            lookup(Self::spellings(), "W"@) == Some(CompassDirection::West),
    {
        reveal_strlit("NE");
        reveal_strlit("NW");
        reveal_strlit("N");
        reveal_strlit("SE");
        reveal_strlit("SW");
        reveal_strlit("S");
        reveal_strlit("E");
        reveal_strlit("W");
        assert("NE"@.len() == 2 && "NE"@[0] == 'N' && "NE"@[1] == 'E');
        assert("NW"@.len() == 2 && "NW"@[0] == 'N' && "NW"@[1] == 'W');
        assert("N"@.len() == 1 && "N"@[0] == 'N');
        assert("SE"@.len() == 2 && "SE"@[0] == 'S' && "SE"@[1] == 'E');
        assert("SW"@.len() == 2 && "SW"@[0] == 'S' && "SW"@[1] == 'W');
        assert("S"@.len() == 1 && "S"@[0] == 'S');
        assert("E"@.len() == 1 && "E"@[0] == 'E');
        assert("W"@.len() == 1 && "W"@[0] == 'W');
        reveal_with_fuel(lookup, 9);
    }
}

impl Vocabulary for CompassDirection {
    open spec fn spellings() -> Seq<(Seq<char>, Self)> {
        seq![
            ("NE"@, CompassDirection::NorthEast),
            ("NW"@, CompassDirection::NorthWest),
            ("N"@, CompassDirection::North),
            ("SE"@, CompassDirection::SouthEast),
            ("SW"@, CompassDirection::SouthWest),
            ("S"@, CompassDirection::South),
            ("E"@, CompassDirection::East),
            ("W"@, CompassDirection::West),
        ]
    }

    open spec fn spec_code(self) -> Seq<char> {
        match self {
            CompassDirection::NorthEast => "NE"@,
            CompassDirection::NorthWest => "NW"@,
            CompassDirection::North => "N"@,
            CompassDirection::SouthEast => "SE"@,
            CompassDirection::SouthWest => "SW"@,
            CompassDirection::South => "S"@,
            CompassDirection::East => "E"@,
            CompassDirection::West => "W"@,
        }
    }

    fn spelling_table() -> (r: Vec<(&'static str, Self)>) {
        let r = vec![
            ("NE", CompassDirection::NorthEast),
            ("NW", CompassDirection::NorthWest),
            ("N", CompassDirection::North),
            ("SE", CompassDirection::SouthEast),
            ("SW", CompassDirection::SouthWest),
            ("S", CompassDirection::South),
            ("E", CompassDirection::East),
            ("W", CompassDirection::West),
        ];
        assert(table_view(r@) =~= Self::spellings());
        r
    }

    fn code(self) -> (r: &'static str) {
        match self {
            CompassDirection::NorthEast => "NE",
            CompassDirection::NorthWest => "NW",
            CompassDirection::North => "N",
            CompassDirection::SouthEast => "SE",
            CompassDirection::SouthWest => "SW",
            CompassDirection::South => "S",
            CompassDirection::East => "E",
            CompassDirection::West => "W",
        }
    }

    proof fn code_round_trip(self) {
        Self::lemma_spellings();
    }

    proof fn spellings_unambiguous() {
        Self::lemma_spellings();
        assert forall|i: int| 0 <= i < Self::spellings().len() implies lookup(
            Self::spellings(),
            #[trigger] Self::spellings()[i].0,
        ) == Some(Self::spellings()[i].1) by {
            if i == 0 {
            } else if i == 1 {
            } else if i == 2 {
            } else if i == 3 {
            } else if i == 4 {
            } else if i == 5 {
            } else if i == 6 {
            } else if i == 7 {
            }
        }
    }
}

/// State of the sea surface (WMO code table 3700).
#[derive(Clone, Copy, PartialEq, Eq, Debug, Structural)]
pub enum WaterSurfaceState {
    GlassyCalm,
    RippledCalm,
    Smooth,
    Slight,
    Moderate,
    Rough,
    VeryRough,
    High,
    VeryHigh,
    Phenomenal,
}

impl WaterSurfaceState {
    proof fn lemma_spellings()
        ensures
            lookup(Self::spellings(), "0"@) == Some(WaterSurfaceState::GlassyCalm),
            lookup(Self::spellings(), "1"@) == Some(WaterSurfaceState::RippledCalm),
            lookup(Self::spellings(), "2"@) == Some(WaterSurfaceState::Smooth),
            lookup(Self::spellings(), "3"@) == Some(WaterSurfaceState::Slight),
            lookup(Self::spellings(), "4"@) == Some(WaterSurfaceState::Moderate),
            lookup(Self::spellings(), "5"@) == Some(WaterSurfaceState::Rough),
            lookup(Self::spellings(), "6"@) == Some(WaterSurfaceState::VeryRough),
            lookup(Self::spellings(), "7"@) == Some(WaterSurfaceState::High),
            lookup(Self::spellings(), "8"@) == Some(WaterSurfaceState::VeryHigh),
            lookup(Self::spellings(), "9"@) == Some(WaterSurfaceState::Phenomenal),
    {
        reveal_strlit("0");
        reveal_strlit("1");
        reveal_strlit("2");
        reveal_strlit("3");
        reveal_strlit("4");
        reveal_strlit("5");
        reveal_strlit("6");
        reveal_strlit("7");
        reveal_strlit("8");
        reveal_strlit("9");
        assert("0"@.len() == 1 && "0"@[0] == '0');
        assert("1"@.len() == 1 && "1"@[0] == '1');
        assert("2"@.len() == 1 && "2"@[0] == '2');
        assert("3"@.len() == 1 && "3"@[0] == '3');
        assert("4"@.len() == 1 && "4"@[0] == '4');
        assert("5"@.len() == 1 && "5"@[0] == '5');
        assert("6"@.len() == 1 && "6"@[0] == '6');
        assert("7"@.len() == 1 && "7"@[0] == '7');
        assert("8"@.len() == 1 && "8"@[0] == '8');
        assert("9"@.len() == 1 && "9"@[0] == '9');
        reveal_with_fuel(lookup, 11);
    }
}

impl Vocabulary for WaterSurfaceState {
    open spec fn spellings() -> Seq<(Seq<char>, Self)> {
        seq![
            ("0"@, WaterSurfaceState::GlassyCalm),
            ("1"@, WaterSurfaceState::RippledCalm),
            ("2"@, WaterSurfaceState::Smooth),
            ("3"@, WaterSurfaceState::Slight),
            ("4"@, WaterSurfaceState::Moderate),
            ("5"@, WaterSurfaceState::Rough),
            ("6"@, WaterSurfaceState::VeryRough),
            ("7"@, WaterSurfaceState::High),
            ("8"@, WaterSurfaceState::VeryHigh),
            ("9"@, WaterSurfaceState::Phenomenal),
        ]
    }

    open spec fn spec_code(self) -> Seq<char> {
        match self {
            WaterSurfaceState::GlassyCalm => "0"@,
            WaterSurfaceState::RippledCalm => "1"@,
            WaterSurfaceState::Smooth => "2"@,
            WaterSurfaceState::Slight => "3"@,
            WaterSurfaceState::Moderate => "4"@,
            WaterSurfaceState::Rough => "5"@,
            WaterSurfaceState::VeryRough => "6"@,
            WaterSurfaceState::High => "7"@,
            WaterSurfaceState::VeryHigh => "8"@,
            WaterSurfaceState::Phenomenal => "9"@,
        }
    }

    fn spelling_table() -> (r: Vec<(&'static str, Self)>) {
        let r = vec![
            ("0", WaterSurfaceState::GlassyCalm),
            ("1", WaterSurfaceState::RippledCalm),
            ("2", WaterSurfaceState::Smooth),
            ("3", WaterSurfaceState::Slight),
            ("4", WaterSurfaceState::Moderate),
            ("5", WaterSurfaceState::Rough),
            ("6", WaterSurfaceState::VeryRough),
            ("7", WaterSurfaceState::High),
            ("8", WaterSurfaceState::VeryHigh),
            ("9", WaterSurfaceState::Phenomenal),
        ];
        assert(table_view(r@) =~= Self::spellings());
        r
    }

    fn code(self) -> (r: &'static str) {
        match self {
            WaterSurfaceState::GlassyCalm => "0",
            WaterSurfaceState::RippledCalm => "1",
            WaterSurfaceState::Smooth => "2",
            WaterSurfaceState::Slight => "3",
            WaterSurfaceState::Moderate => "4",
            WaterSurfaceState::Rough => "5",
            WaterSurfaceState::VeryRough => "6",
            WaterSurfaceState::High => "7",
            WaterSurfaceState::VeryHigh => "8",
            WaterSurfaceState::Phenomenal => "9",
        }
    }

    proof fn code_round_trip(self) {
        Self::lemma_spellings();
    }

    proof fn spellings_unambiguous() {
        Self::lemma_spellings();
        assert forall|i: int| 0 <= i < Self::spellings().len() implies lookup(
            Self::spellings(),
            #[trigger] Self::spellings()[i].0,
        ) == Some(Self::spellings()[i].1) by {
            if i == 0 {
            } else if i == 1 {
            } else if i == 2 {
            } else if i == 3 {
            } else if i == 4 {
            } else if i == 5 {
            } else if i == 6 {
            } else if i == 7 {
            } else if i == 8 {
            } else if i == 9 {
            }
        }
    }
}

/// A stretch `start..end` of the report text, in bytes.
#[derive(Clone, Copy, PartialEq, Eq, Debug, Structural)]
pub struct Span {
    pub start: usize,
    pub end: usize,
}

/// Relies on `String::push`, which appends one character to the string.
#[verifier::external_body]
fn push_char(s: &mut String, c: char)
    ensures
        final(s)@ == old(s)@.push(c),
{
    s.push(c)
}

/// A remark about how or when a report was made.
#[derive(Clone, Copy, PartialEq, Eq, Debug, Structural)]
pub enum ObservationFlag {
    Auto,
    Nil,
    Correction { letter: Option<char> },
    Delayed,
}

/// Whether a character has the Unicode `Alphabetic` property, as
/// `char::is_alphabetic` decides it.
pub uninterp spec fn alphabetic(c: char) -> bool;

/// Relies on `char::is_alphabetic`: whether the character has the Unicode
/// `Alphabetic` property, which depends on the character alone.
#[verifier::external_body]
fn is_alphabetic(c: char) -> (r: bool)
    ensures
        r == alphabetic(c),
{
    c.is_alphabetic()
}

impl ObservationFlag {
    /// The flag spelled by `t`, given whether its third character, if it
    /// has exactly three, is alphabetic: `AUTO`, `NIL`, `COR`, `RTD`, or
    /// `CC` followed by one alphabetic character.
    pub open spec fn spec_from_code_with(t: Seq<char>, third_alphabetic: bool) -> Option<
        ObservationFlag,
    > {
        if t == "AUTO"@ {
            Some(ObservationFlag::Auto)
        } else if t == "NIL"@ {
            Some(ObservationFlag::Nil)
        } else if t == "COR"@ {
            Some(ObservationFlag::Correction { letter: None })
        } else if t.len() == 3 && t[0] == 'C' && t[1] == 'C' && third_alphabetic {
            Some(ObservationFlag::Correction { letter: Some(t[2]) })
        } else if t == "RTD"@ {
            Some(ObservationFlag::Delayed)
        } else {
            None
        }
    }

    /// The flag spelled by `t`.
    pub open spec fn spec_from_code(t: Seq<char>) -> Option<ObservationFlag> {
        ObservationFlag::spec_from_code_with(t, t.len() == 3 && alphabetic(t[2]))
    }

    /// The code of a flag.
    pub open spec fn spec_code(self) -> Seq<char> {
        match self {
            ObservationFlag::Auto => "AUTO"@,
            ObservationFlag::Nil => "NIL"@,
            ObservationFlag::Correction { letter: None } => "COR"@,
            ObservationFlag::Correction { letter: Some(c) } => "CC"@.push(c),
            ObservationFlag::Delayed => "RTD"@,
        }
    }

    /// Reads a flag from its code, given whether the code's third
    /// character (when it has exactly three) is alphabetic.
    pub fn from_code_with(t: &str, third_alphabetic: bool) -> (r: Option<ObservationFlag>)
        ensures
            r == ObservationFlag::spec_from_code_with(t@, third_alphabetic),
    {
        if crate::text::same_text(t, "AUTO") {
            Some(ObservationFlag::Auto)
        } else if crate::text::same_text(t, "NIL") {
            Some(ObservationFlag::Nil)
        } else if crate::text::same_text(t, "COR") {
            Some(ObservationFlag::Correction { letter: None })
        } else if t.unicode_len() == 3 && t.get_char(0) == 'C' && t.get_char(1) == 'C'
            && third_alphabetic {
            Some(ObservationFlag::Correction { letter: Some(t.get_char(2)) })
        } else if crate::text::same_text(t, "RTD") {
            Some(ObservationFlag::Delayed)
        } else {
            None
        }
    }

    /// Reads a flag from its code.
    pub fn from_code(t: &str) -> (r: Option<ObservationFlag>)
        ensures
            r == ObservationFlag::spec_from_code(t@),
    {
        let third_alphabetic = t.unicode_len() == 3 && is_alphabetic(t.get_char(2));
        ObservationFlag::from_code_with(t, third_alphabetic)
    }

    /// The code of a flag.
    pub fn to_text(self) -> (r: String)
        ensures
            r@ == self.spec_code(),
    {
        match self {
            ObservationFlag::Auto => String::from_str("AUTO"),
            ObservationFlag::Nil => String::from_str("NIL"),
            ObservationFlag::Correction { letter: None } => String::from_str("COR"),
            ObservationFlag::Correction { letter: Some(c) } => {
                let mut r = String::from_str("CC");
                push_char(&mut r, c);
                r
            },
            ObservationFlag::Delayed => String::from_str("RTD"),
        }
    }

    /// Reading back the code of a flag gives the flag, for every flag whose
    /// correction letter, if any, is alphabetic.
    pub proof fn code_round_trip(self)
        requires
            self matches ObservationFlag::Correction { letter: Some(c) } ==> alphabetic(c),
        ensures
            ObservationFlag::spec_from_code(self.spec_code()) == Some(self),
    {
        reveal_strlit("AUTO");
        reveal_strlit("NIL");
        reveal_strlit("COR");
        reveal_strlit("RTD");
        reveal_strlit("CC");
        assert("AUTO"@.len() == 4 && "AUTO"@[0] == 'A');
        assert("NIL"@.len() == 3 && "NIL"@[0] == 'N');
        assert("COR"@.len() == 3 && "COR"@[0] == 'C' && "COR"@[1] == 'O');
        assert("RTD"@.len() == 3 && "RTD"@[0] == 'R');
        assert("CC"@.len() == 2 && "CC"@[0] == 'C' && "CC"@[1] == 'C');
        if let ObservationFlag::Correction { letter: Some(c) } = self {
            let t = "CC"@.push(c);
            assert(t[0] == 'C' && t[1] == 'C' && t[2] == c);
            assert(t != "COR"@ && t != "AUTO"@ && t != "NIL"@);
        }
    }
}

/// Day of month and time of an observation.
#[derive(Clone, Copy, PartialEq, Eq, Debug, Structural)]
pub struct DateTime {
    pub day_of_month: u8,
    pub time: MilitaryTime,
    /// Some stations omit the `Z`; it is unclear whether the time is then
    /// still in UTC.
    pub is_zulu: bool,
}

/// Hours and minutes of a day.
#[derive(Clone, Copy, PartialEq, Eq, Debug, Structural)]
pub struct MilitaryTime {
    pub hour: u8,
    pub minute: u8,
}

impl MilitaryTime {
    /// Minutes since midnight.
    pub open spec fn spec_minutes(self) -> int {
        60 * self.hour + self.minute
    }

    /// Minutes since midnight.
    pub fn minutes(self) -> (r: u32)
        ensures
            r == self.spec_minutes(),
    {
        60 * (self.hour as u32) + (self.minute as u32)
    }
}

/// A span of time within one day.
#[derive(Clone, Copy, PartialEq, Eq, Debug, Structural)]
pub struct TimeRange {
    pub begin: MilitaryTime,
    pub end: MilitaryTime,
}

impl TimeRange {
    /// Minutes from `begin` to `end`, negative when `end` is earlier.
    pub fn duration_minutes(self) -> (r: i32)
        ensures
            r == self.end.spec_minutes() - self.begin.spec_minutes(),
    {
        self.end.minutes() as i32 - self.begin.minutes() as i32
    }
}

/// Surface wind.
#[derive(Clone, Copy, PartialEq, Debug)]
pub struct Wind {
    /// A lack of direction indicates variable.
    pub direction: Option<Angle>,
    pub speed: Option<Velocity>,
    pub peak_gust: Option<Velocity>,
    pub variance: Option<(Angle, Angle)>,
}

impl Wind {
    /// Calm: a speed below the `f64` epsilon in m/s, from direction zero,
    /// with no gust and no variance.
    /// Undecided when speed or direction is not reported.
    pub open spec fn spec_is_calm(self) -> Option<bool> {
        match (self.speed, self.direction) {
            (Some(speed), Some(direction)) => Some(
                speed.spec_is_near_zero() && direction.degrees == 0 && self.peak_gust is None
                    && self.variance is None,
            ),
            _ => None,
        }
    }

    /// Whether the wind is calm: a speed below 2^-52 m/s (the epsilon of
    /// `f64`), from direction zero (directions are whole degrees), with no
    /// gust and no variance.
    pub fn is_calm(&self) -> (r: Option<bool>)
        ensures
            r == self.spec_is_calm(),
    {
        match (self.speed, self.direction) {
            (Some(speed), Some(direction)) => Some(
                speed.is_near_zero() && direction.degrees == 0 && self.peak_gust.is_none()
                    && self.variance.is_none(),
            ),
            _ => None,
        }
    }
}

/// Visual range along one runway.
#[derive(Clone, Copy, PartialEq, Debug)]
pub struct RunwayVisibility {
    pub designator: Span,
    pub visibility: VisibilityType,
    pub trend: Option<VisibilityTrend>,
}

/// A runway visual range that is fixed or varies between two readings.
#[derive(Clone, Copy, PartialEq, Debug)]
pub enum VisibilityType {
    Varying { lower: RawVisibility, upper: RawVisibility },
    Fixed(RawVisibility),
}

/// A distance, possibly beyond what could be measured.
#[derive(Clone, Copy, PartialEq, Debug)]
pub struct RawVisibility {
    /// If present, visibility is out of the observable range.
    pub out_of_range: Option<OutOfRange>,
    pub distance: Length,
}

/// State of one runway.
#[derive(Clone, Copy, PartialEq, Debug)]
pub struct RunwayReport {
    pub designator: Span,
    pub report_info: RunwayReportInfo,
}

/// What is reported of a runway. Friction coefficients are in hundredths.
#[derive(Clone, Copy, PartialEq, Debug)]
pub enum RunwayReportInfo {
    /// Runway has been cleared of any deposits.
    Cleared { friction: Option<u32> },
    ClosedSnowOrIce,
    Condition {
        deposit: DepositType,
        coverage: Option<Coverage>,
        depth: Option<Length>,
        friction_coefficient: Option<u32>,
        braking_action: Option<BrakingAction>,
    },
}

/// One weather phenomenon, current or recent.
#[derive(Clone, PartialEq, Eq, Debug)]
pub struct Weather {
    pub intensity: Intensity,
    /// If true, the phenomenon was not observed above the station but
    /// within 8 km of it.
    pub vicinity: bool,
    pub descriptor: Option<Descriptor>,
    /// Absent only for a descriptor on its own, such as `VCTS` or `VCSH`.
    pub condition: Option<Condition>,
}

/// The phenomenon proper of a weather group.
#[derive(Clone, PartialEq, Eq, Debug)]
pub enum Condition {
    /// There can be multiple forms of precipitation observed.
    Precipitation(Vec<Precipitation>),
    Obscuration(Obscuration),
    Other(Other),
}

/// What a [`Condition`] holds.
pub enum ConditionModel {
    Precipitation(Seq<Precipitation>),
    Obscuration(Obscuration),
    Other(Other),
}

/// What a [`Weather`] holds.
pub struct WeatherModel {
    pub intensity: Intensity,
    pub vicinity: bool,
    pub descriptor: Option<Descriptor>,
    pub condition: Option<ConditionModel>,
}

impl View for Condition {
    type V = ConditionModel;

    open spec fn view(&self) -> ConditionModel {
        match self {
            Condition::Precipitation(p) => ConditionModel::Precipitation(p@),
            Condition::Obscuration(o) => ConditionModel::Obscuration(*o),
            Condition::Other(o) => ConditionModel::Other(*o),
        }
    }
}

impl View for Weather {
    type V = WeatherModel;

    open spec fn view(&self) -> WeatherModel {
        WeatherModel {
            intensity: self.intensity,
            vicinity: self.vicinity,
            descriptor: self.descriptor,
            condition: match self.condition {
                Some(c) => Some(c@),
                None => None,
            },
        }
    }
}

/// The models of a list of weather groups.
pub open spec fn weather_models(w: Seq<Weather>) -> Seq<WeatherModel> {
    w.map_values(|x: Weather| x@)
}

/// The codes of a list of precipitation kinds, one after another.
pub open spec fn precipitation_text(p: Seq<Precipitation>) -> Seq<char>
    decreases p.len(),
{
    if p.len() == 0 {
        Seq::empty()
    } else {
        precipitation_text(p.drop_last()) + p.last().spec_code()
    }
}

/// The text of a condition.
pub open spec fn condition_text(c: ConditionModel) -> Seq<char> {
    match c {
        ConditionModel::Precipitation(p) => precipitation_text(p),
        ConditionModel::Obscuration(o) => o.spec_code(),
        ConditionModel::Other(o) => o.spec_code(),
    }
}

/// A weather group has a condition unless it is a descriptor on its own,
/// and a precipitation condition names at least one kind.
pub open spec fn weather_well_formed(w: WeatherModel) -> bool {
    match w.condition {
        Some(ConditionModel::Precipitation(p)) => p.len() > 0,
        Some(_) => true,
        None => w.descriptor is Some,
    }
}

/// The text of a weather group: intensity, `VC`, descriptor, condition.
pub open spec fn weather_text(w: WeatherModel) -> Seq<char> {
    w.intensity.spec_code() + (if w.vicinity {
        "VC"@
    } else {
        Seq::empty()
    }) + (match w.descriptor {
        Some(d) => d.spec_code(),
        None => Seq::empty(),
    }) + (match w.condition {
        Some(c) => condition_text(c),
        None => Seq::empty(),
    })
}

impl Condition {
    /// The text of the condition.
    pub fn to_text(&self) -> (r: String)
        ensures
            r@ == condition_text(self@),
    {
        match self {
            Condition::Precipitation(p) => {
                let mut r = String::new();
                let mut i: usize = 0;
                while i < p.len()
                    invariant
                        0 <= i <= p@.len(),
                        r@ == precipitation_text(p@.take(i as int)),
                    decreases p@.len() - i,
                {
                    r.append(p[i].code());
                    assert(p@.take(i as int + 1).drop_last() =~= p@.take(i as int));
                    i += 1;
                }
                assert(p@.take(i as int) =~= p@);
                r
            },
            Condition::Obscuration(o) => String::from_str(o.code()),
            Condition::Other(o) => String::from_str(o.code()),
        }
    }
}

impl Weather {
    /// The text of the weather group.
    pub fn to_text(&self) -> (r: String)
        ensures
            r@ == weather_text(self@),
    {
        let mut r = String::from_str(self.intensity.code());
        if self.vicinity {
            r.append("VC");
        }
        match self.descriptor {
            Some(d) => r.append(d.code()),
            None => {},
        }
        match &self.condition {
            Some(c) => {
                let t = c.to_text();
                r.append(t.as_str());
            },
            None => {},
        }
        assert(r@ =~= weather_text(self@));
        r
    }
}

/// One cloud layer.
#[derive(Clone, Copy, PartialEq, Debug)]
pub struct CloudCover {
    pub coverage: CloudCoverage,
    /// Absent when below station level or not assessed.
    pub base: Option<Length>,
    pub cloud_type: Option<CloudType>,
}

/// Air temperature and dewpoint.
#[derive(Clone, Copy, PartialEq, Debug)]
pub struct Temperatures {
    pub air: ThermodynamicTemperature,
    /// Some stations do not report it.
    pub dewpoint: Option<ThermodynamicTemperature>,
}

/// Rainfall totals, often reported by Australian stations.
#[derive(Clone, Copy, PartialEq, Debug)]
pub struct AccumulatedRainfall {
    /// In the 10 minutes before the report time.
    pub recent: Length,
    /// Since 0900 local time.
    pub past: Length,
}

/// Colour state, often reported by military stations.
#[derive(Clone, Copy, PartialEq, Eq, Debug, Structural)]
pub struct Color {
    /// `BLACK` indicates the airfield is closed.
    pub is_black: bool,
    pub current_color: ColorState,
    pub next_color: Option<ColorState>,
}

/// Prevailing and directional visibility.
#[derive(Clone, Copy, PartialEq, Debug)]
pub struct Visibility {
    pub prevailing: Option<RawVisibility>,
    /// Reported when visibility in one direction differs significantly from
    /// the prevailing visibility; the direction may be missing.
    pub minimum: Option<DirectionalOrRawVisiblity>,
    /// Reported besides the minimum when directional visibility differs a lot.
    pub maximum_directional: Option<DirectionalVisibility>,
}

/// A visibility reading with or without its direction.
#[derive(Clone, Copy, PartialEq, Debug)]
pub enum DirectionalOrRawVisiblity {
    Raw(RawVisibility),
    Directional(DirectionalVisibility),
}

/// A visibility reading towards one compass point.
#[derive(Clone, Copy, PartialEq, Debug)]
pub struct DirectionalVisibility {
    pub direction: CompassDirection,
    pub distance: RawVisibility,
}

/// Sea conditions, often reported by stations at sea.
#[derive(Clone, Copy, PartialEq, Debug)]
pub struct WaterConditions {
    /// Water temperature at the surface.
    pub temperature: Option<ThermodynamicTemperature>,
    pub surface_state: Option<WaterSurfaceState>,
    pub significant_wave_height: Option<Length>,
}

/// A trend forecast appended to a report.
#[derive(Clone, PartialEq, Debug)]
pub enum Trend {
    /// No significant change expected in the next two hours.
    NoSignificantChange,
    /// Expected changes.
    Becoming(TrendReport),
    /// Temporary fluctuations lasting less than an hour.
    Temporarily(TrendReport),
}

/// The forecast conditions of a trend.
#[derive(Clone, PartialEq, Debug)]
pub struct TrendReport {
    pub time: Option<TrendTime>,
    pub wind: Option<Wind>,
    pub visibility: Option<Visibility>,
    pub weather: Vec<Weather>,
    pub cloud_cover: Vec<CloudCover>,
    pub color_state: Option<ColorState>,
}

/// When a trend applies.
#[derive(Clone, Copy, PartialEq, Eq, Debug, Structural)]
pub enum TrendTime {
    At(MilitaryTime),
    Range { from: MilitaryTime, until: MilitaryTime },
    From(MilitaryTime),
    Until(MilitaryTime),
}

/// What a [`TrendReport`] holds.
pub struct TrendReportModel {
    pub time: Option<TrendTime>,
    pub wind: Option<Wind>,
    pub visibility: Option<Visibility>,
    pub weather: Seq<WeatherModel>,
    pub cloud_cover: Seq<CloudCover>,
    pub color_state: Option<ColorState>,
}

/// What a [`Trend`] holds.
pub enum TrendModel {
    NoSignificantChange,
    Becoming(TrendReportModel),
    Temporarily(TrendReportModel),
}

impl View for TrendReport {
    type V = TrendReportModel;

    open spec fn view(&self) -> TrendReportModel {
        TrendReportModel {
            time: self.time,
            wind: self.wind,
            visibility: self.visibility,
            weather: weather_models(self.weather@),
            cloud_cover: self.cloud_cover@,
            color_state: self.color_state,
        }
    }
}

impl View for Trend {
    type V = TrendModel;

    open spec fn view(&self) -> TrendModel {
        match self {
            Trend::NoSignificantChange => TrendModel::NoSignificantChange,
            Trend::Becoming(t) => TrendModel::Becoming(t@),
            Trend::Temporarily(t) => TrendModel::Temporarily(t@),
        }
    }
}

/// The models of a list of trends.
pub open spec fn trend_models(t: Seq<Trend>) -> Seq<TrendModel> {
    t.map_values(|x: Trend| x@)
}

/// A decoded report. Text fields are spans of the report text.
#[derive(Clone, PartialEq, Debug)]
pub struct MetarReport {
    /// Station ICAO identifier.
    pub identifier: Span,
    pub observation_time: Option<DateTime>,
    /// Usually used by forecasts, but some stations include it.
    pub observation_validity_range: Option<TimeRange>,
    pub observation_flags: Vec<ObservationFlag>,
    pub wind: Option<Wind>,
    pub visibility: Option<Visibility>,
    pub runway_visibilities: Vec<RunwayVisibility>,
    pub runway_reports: Vec<RunwayReport>,
    /// Active weather phenomena.
    pub weather: Vec<Weather>,
    /// Observed cloud layers.
    pub cloud_cover: Vec<CloudCover>,
    /// Ceiling and visibility OK.
    pub cavok: bool,
    pub temperatures: Option<Temperatures>,
    pub pressure: Option<Pressure>,
    pub accumulated_rainfall: Option<AccumulatedRainfall>,
    pub color: Option<Color>,
    pub recent_weather: Vec<Weather>,
    pub water_conditions: Option<WaterConditions>,
    pub trends: Vec<Trend>,
    /// Additional information outside the METAR format, from `RMK` on.
    pub remark: Option<Span>,
    /// Some automated stations indicate that they need maintenance; the
    /// readings may then be unreliable.
    pub maintenance_needed: bool,
}

/// What a [`MetarReport`] holds.
pub struct MetarModel {
    pub identifier: Span,
    pub observation_time: Option<DateTime>,
    pub observation_validity_range: Option<TimeRange>,
    pub observation_flags: Seq<ObservationFlag>,
    pub wind: Option<Wind>,
    pub visibility: Option<Visibility>,
    pub runway_visibilities: Seq<RunwayVisibility>,
    pub runway_reports: Seq<RunwayReport>,
    pub weather: Seq<WeatherModel>,
    pub cloud_cover: Seq<CloudCover>,
    pub cavok: bool,
    pub temperatures: Option<Temperatures>,
    pub pressure: Option<Pressure>,
    pub accumulated_rainfall: Option<AccumulatedRainfall>,
    pub color: Option<Color>,
    pub recent_weather: Seq<WeatherModel>,
    pub water_conditions: Option<WaterConditions>,
    pub trends: Seq<TrendModel>,
    pub remark: Option<Span>,
    pub maintenance_needed: bool,
}

impl View for MetarReport {
    type V = MetarModel;

    open spec fn view(&self) -> MetarModel {
        MetarModel {
            identifier: self.identifier,
            observation_time: self.observation_time,
            observation_validity_range: self.observation_validity_range,
            observation_flags: self.observation_flags@,
            wind: self.wind,
            visibility: self.visibility,
            runway_visibilities: self.runway_visibilities@,
            runway_reports: self.runway_reports@,
            weather: weather_models(self.weather@),
            cloud_cover: self.cloud_cover@,
            cavok: self.cavok,
            temperatures: self.temperatures,
            pressure: self.pressure,
            accumulated_rainfall: self.accumulated_rainfall,
            color: self.color,
            recent_weather: weather_models(self.recent_weather@),
            water_conditions: self.water_conditions,
            trends: trend_models(self.trends@),
            remark: self.remark,
            maintenance_needed: self.maintenance_needed,
        }
    }
}

} // verus!
