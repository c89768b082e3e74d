//! Physical quantities held as exact fractions of one base unit per kind.
//!
//! Every reading in a report is a short decimal numeral in some source unit,
//! so each quantity is stored as `numerator / denominator` of its SI base
//! unit (metre, metre per second, pascal, kelvin). Conversion happens on
//! construction and is exact; two values are equal when their fractions are.
//! Angles are whole degrees.
use vstd::prelude::*;

verus! {

/// Largest numerator accepted by the constructors.
pub const MAX_NUMERATOR: u64 = 2_000_000_000_000;

/// `2^52`, the inverse of the machine epsilon of `f64`.
pub const F64_EPSILON_INVERSE: i64 = 4_503_599_627_370_496;

/// Largest denominator accepted by the constructors.
pub const MAX_DENOMINATOR: u64 = 100_000_000;

/// `a / b == c / d` for fractions with positive denominators.
pub open spec fn same_fraction(a: int, b: int, c: int, d: int) -> bool {
    a * d == c * b
}

proof fn lemma_product_fits(x: int, y: int)
    requires
        i64::MIN <= x <= i64::MAX,
        0 <= y <= u64::MAX,
    ensures
        i128::MIN <= x * y <= i128::MAX,
{
    assert(-0x8000_0000_0000_0000 * 0xffff_ffff_ffff_ffff <= x * y) by (nonlinear_arith)
        requires
            -0x8000_0000_0000_0000 <= x,
            0 <= y <= 0xffff_ffff_ffff_ffff,
    ;
    assert(x * y <= 0x7fff_ffff_ffff_ffff * 0xffff_ffff_ffff_ffff) by (nonlinear_arith)
        requires
            x <= 0x7fff_ffff_ffff_ffff,
            0 <= y <= 0xffff_ffff_ffff_ffff,
    ;
}

/// Exact comparison of two fractions by cross multiplication.
fn fractions_equal(a: i64, b: u64, c: i64, d: u64) -> (r: bool)
    ensures
        r == same_fraction(a as int, b as int, c as int, d as int),
{
    proof {
        lemma_product_fits(a as int, d as int);
        lemma_product_fits(c as int, b as int);
    }
    let left: i128 = (a as i128) * (d as i128);
    let right: i128 = (c as i128) * (b as i128);
    left == right
}

/// The order of `a / b` and `c / d` for positive denominators.
pub open spec fn fraction_order(a: int, b: int, c: int, d: int) -> core::cmp::Ordering {
    if a * d < c * b {
        core::cmp::Ordering::Less
    } else if a * d == c * b {
        core::cmp::Ordering::Equal
    } else {
        core::cmp::Ordering::Greater
    }
}

/// Exact ordering of two fractions by cross multiplication.
fn compare_fractions(a: i64, b: u64, c: i64, d: u64) -> (r: core::cmp::Ordering)
    ensures
        r == fraction_order(a as int, b as int, c as int, d as int),
{
    proof {
        lemma_product_fits(a as int, d as int);
        lemma_product_fits(c as int, b as int);
    }
    let left: i128 = (a as i128) * (d as i128);
    let right: i128 = (c as i128) * (b as i128);
    if left < right {
        core::cmp::Ordering::Less
    } else if left == right {
        core::cmp::Ordering::Equal
    } else {
        core::cmp::Ordering::Greater
    }
}

/// An angle in whole degrees.
#[derive(Clone, Copy, PartialEq, Eq, Debug, Structural)]
pub struct Angle {
    pub degrees: u32,
}

impl Angle {
    pub fn from_degrees(degrees: u32) -> (r: Angle)
        ensures
            r.degrees == degrees,
    {
        Angle { degrees }
    }
}

/// Units in which a length may be given.
#[derive(Clone, Copy, PartialEq, Eq, Debug, Structural)]
pub enum LengthUnit {
    Metre,
    Kilometre,
    StatuteMile,
    Foot,
    Decimetre,
    Millimetre,
}

impl LengthUnit {
    /// One unit is `factor().0 / factor().1` metres.
    pub open spec fn factor(self) -> (int, int) {
        match self {
            LengthUnit::Metre => (1, 1),
            LengthUnit::Kilometre => (1000, 1),
            LengthUnit::StatuteMile => (1609344, 1000),
            LengthUnit::Foot => (3048, 10000),
            LengthUnit::Decimetre => (1, 10),
            LengthUnit::Millimetre => (1, 1000),
        }
    }

    fn factor_exec(self) -> (r: (u64, u64))
        ensures
            r.0 as int == self.factor().0,
            r.1 as int == self.factor().1,
    {
        match self {
            LengthUnit::Metre => (1, 1),
            LengthUnit::Kilometre => (1000, 1),
            LengthUnit::StatuteMile => (1609344, 1000),
            LengthUnit::Foot => (3048, 10000),
            LengthUnit::Decimetre => (1, 10),
            LengthUnit::Millimetre => (1, 1000),
        }
    }
}

/// A length of `numerator / denominator` metres.
#[derive(Clone, Copy, Debug)]
pub struct Length {
    pub numerator: i64,
    pub denominator: u64,
}

impl Length {
    /// The length that is `n / d` of `unit`.
    pub open spec fn spec_new(n: int, d: int, unit: LengthUnit) -> Length {
        Length {
            numerator: (n * unit.factor().0) as i64,
            denominator: (d * unit.factor().1) as u64,
        }
    }

    /// Converts `n / d` of `unit` to metres.
    pub fn new(n: u64, d: u64, unit: LengthUnit) -> (r: Length)
        requires
            n <= MAX_NUMERATOR,
            1 <= d <= MAX_DENOMINATOR,
        ensures
            r == Length::spec_new(n as int, d as int, unit),
            r.numerator == n * unit.factor().0,
            r.denominator == d * unit.factor().1,
            r.denominator > 0,
    {
        let (a, b) = unit.factor_exec();
        assert(n * a <= MAX_NUMERATOR * 1609344) by (nonlinear_arith)
            requires
                n <= MAX_NUMERATOR,
                a <= 1609344,
        ;
        assert(d * b <= MAX_DENOMINATOR * 10000) by (nonlinear_arith)
            requires
                d <= MAX_DENOMINATOR,
                b <= 10000,
        ;
        assert(1 <= d * b) by (nonlinear_arith)
            requires
                1 <= d,
                1 <= b,
        ;
        Length { numerator: (n * a) as i64, denominator: d * b }
    }

    /// Both lengths are the same distance.
    pub open spec fn same_as(self, other: Length) -> bool {
        same_fraction(
            self.numerator as int,
            self.denominator as int,
            other.numerator as int,
            other.denominator as int,
        )
    }
}

impl PartialEq for Length {
    fn eq(&self, other: &Length) -> (r: bool) {
        fractions_equal(self.numerator, self.denominator, other.numerator, other.denominator)
    }
}

impl vstd::std_specs::cmp::PartialEqSpecImpl for Length {
    open spec fn obeys_eq_spec() -> bool {
        true
    }

    open spec fn eq_spec(&self, other: &Length) -> bool {
        self.same_as(*other)
    }
}

impl PartialOrd for Length {
    fn partial_cmp(&self, other: &Length) -> (r: Option<core::cmp::Ordering>) {
        Some(compare_fractions(self.numerator, self.denominator, other.numerator, other.denominator))
    }
}

impl vstd::std_specs::cmp::PartialOrdSpecImpl for Length {
    open spec fn obeys_partial_cmp_spec() -> bool {
        true
    }

    open spec fn partial_cmp_spec(&self, other: &Length) -> Option<core::cmp::Ordering> {
        Some(
            fraction_order(
                self.numerator as int,
                self.denominator as int,
                other.numerator as int,
                other.denominator as int,
            ),
        )
    }
}

/// Units in which a speed may be given.
#[derive(Clone, Copy, PartialEq, Eq, Debug, Structural)]
pub enum VelocityUnit {
    MetrePerSecond,
    Knot,
    KilometrePerHour,
}

impl VelocityUnit {
    /// One unit is `factor().0 / factor().1` metres per second.
    pub open spec fn factor(self) -> (int, int) {
        match self {
            VelocityUnit::MetrePerSecond => (1, 1),
            VelocityUnit::Knot => (1852, 3600),
            VelocityUnit::KilometrePerHour => (1000, 3600),
        }
    }

    fn factor_exec(self) -> (r: (u64, u64))
        ensures
            r.0 as int == self.factor().0,
            r.1 as int == self.factor().1,
    {
        match self {
            VelocityUnit::MetrePerSecond => (1, 1),
            VelocityUnit::Knot => (1852, 3600),
            VelocityUnit::KilometrePerHour => (1000, 3600),
        }
    }
}

/// A speed of `numerator / denominator` metres per second.
#[derive(Clone, Copy, Debug)]
pub struct Velocity {
    pub numerator: i64,
    pub denominator: u64,
}

impl Velocity {
    /// The speed that is `n / d` of `unit`.
    pub open spec fn spec_new(n: int, d: int, unit: VelocityUnit) -> Velocity {
        Velocity {
            numerator: (n * unit.factor().0) as i64,
            denominator: (d * unit.factor().1) as u64,
        }
    }

    /// Converts `n / d` of `unit` to metres per second.
    pub fn new(n: u64, d: u64, unit: VelocityUnit) -> (r: Velocity)
        requires
            n <= MAX_NUMERATOR,
            1 <= d <= MAX_DENOMINATOR,
        ensures
            r == Velocity::spec_new(n as int, d as int, unit),
            r.denominator > 0,
    {
        let (a, b) = unit.factor_exec();
        assert(n * a <= MAX_NUMERATOR * 1852) by (nonlinear_arith)
            requires
                n <= MAX_NUMERATOR,
                a <= 1852,
        ;
        assert(d * b <= MAX_DENOMINATOR * 3600) by (nonlinear_arith)
            requires
                d <= MAX_DENOMINATOR,
                b <= 3600,
        ;
        assert(1 <= d * b) by (nonlinear_arith)
            requires
                1 <= d,
                1 <= b,
        ;
        Velocity { numerator: (n * a) as i64, denominator: d * b }
    }

    /// Both speeds are the same.
    pub open spec fn same_as(self, other: Velocity) -> bool {
        same_fraction(
            self.numerator as int,
            self.denominator as int,
            other.numerator as int,
            other.denominator as int,
        )
    }

    /// The speed is below the machine epsilon of `f64`, 2^-52 metres per
    /// second: the tolerance used to call a wind calm.
    pub open spec fn spec_is_near_zero(self) -> bool {
        self.numerator * F64_EPSILON_INVERSE < self.denominator
    }

    /// Whether the speed is below 2^-52 metres per second.
    pub fn is_near_zero(&self) -> (r: bool)
        ensures
            r == self.spec_is_near_zero(),
    {
        assert(-0x8000_0000_0000_0000 * F64_EPSILON_INVERSE <= self.numerator * F64_EPSILON_INVERSE)
            by (nonlinear_arith)
            requires
                -0x8000_0000_0000_0000 <= self.numerator,
        ;
        assert(self.numerator * F64_EPSILON_INVERSE <= 0x7fff_ffff_ffff_ffff * F64_EPSILON_INVERSE)
            by (nonlinear_arith)
            requires
                self.numerator <= 0x7fff_ffff_ffff_ffff,
        ;
        (self.numerator as i128) * (F64_EPSILON_INVERSE as i128) < (self.denominator as i128)
    }
}

impl PartialEq for Velocity {
    fn eq(&self, other: &Velocity) -> (r: bool) {
        fractions_equal(self.numerator, self.denominator, other.numerator, other.denominator)
    }
}

impl vstd::std_specs::cmp::PartialEqSpecImpl for Velocity {
    open spec fn obeys_eq_spec() -> bool {
        true
    }

    open spec fn eq_spec(&self, other: &Velocity) -> bool {
        self.same_as(*other)
    }
}

impl PartialOrd for Velocity {
    fn partial_cmp(&self, other: &Velocity) -> (r: Option<core::cmp::Ordering>) {
        Some(compare_fractions(self.numerator, self.denominator, other.numerator, other.denominator))
    }
}

impl vstd::std_specs::cmp::PartialOrdSpecImpl for Velocity {
    open spec fn obeys_partial_cmp_spec() -> bool {
        true
    }

    open spec fn partial_cmp_spec(&self, other: &Velocity) -> Option<core::cmp::Ordering> {
        Some(
            fraction_order(
                self.numerator as int,
                self.denominator as int,
                other.numerator as int,
                other.denominator as int,
            ),
        )
    }
}

/// Units in which a pressure may be given.
#[derive(Clone, Copy, PartialEq, Eq, Debug, Structural)]
pub enum PressureUnit {
    Pascal,
    Hectopascal,
    InchOfMercury,
}

impl PressureUnit {
    /// One unit is `factor().0 / factor().1` pascals.
    pub open spec fn factor(self) -> (int, int) {
        match self {
            PressureUnit::Pascal => (1, 1),
            PressureUnit::Hectopascal => (100, 1),
            PressureUnit::InchOfMercury => (3386389, 1000),
        }
    }

    fn factor_exec(self) -> (r: (u64, u64))
        ensures
            r.0 as int == self.factor().0,
            r.1 as int == self.factor().1,
    {
        match self {
            PressureUnit::Pascal => (1, 1),
            PressureUnit::Hectopascal => (100, 1),
            PressureUnit::InchOfMercury => (3386389, 1000),
        }
    }
}

/// A pressure of `numerator / denominator` pascals.
#[derive(Clone, Copy, Debug)]
pub struct Pressure {
    pub numerator: i64,
    pub denominator: u64,
}

impl Pressure {
    /// The pressure that is `n / d` of `unit`.
    pub open spec fn spec_new(n: int, d: int, unit: PressureUnit) -> Pressure {
        Pressure {
            numerator: (n * unit.factor().0) as i64,
            denominator: (d * unit.factor().1) as u64,
        }
    }

    /// Converts `n / d` of `unit` to pascals.
    pub fn new(n: u64, d: u64, unit: PressureUnit) -> (r: Pressure)
        requires
            n <= MAX_NUMERATOR,
            1 <= d <= MAX_DENOMINATOR,
        ensures
            r == Pressure::spec_new(n as int, d as int, unit),
            r.denominator > 0,
    {
        let (a, b) = unit.factor_exec();
        assert(n * a <= MAX_NUMERATOR * 3386389) by (nonlinear_arith)
            requires
                n <= MAX_NUMERATOR,
                a <= 3386389,
        ;
        assert(d * b <= MAX_DENOMINATOR * 1000) by (nonlinear_arith)
            requires
                d <= MAX_DENOMINATOR,
                b <= 1000,
        ;
        assert(1 <= d * b) by (nonlinear_arith)
            requires
                1 <= d,
                1 <= b,
        ;
        Pressure { numerator: (n * a) as i64, denominator: d * b }
    }

    /// Both pressures are the same.
    pub open spec fn same_as(self, other: Pressure) -> bool {
        same_fraction(
            self.numerator as int,
            self.denominator as int,
            other.numerator as int,
            other.denominator as int,
        )
    }
}

impl PartialEq for Pressure {
    fn eq(&self, other: &Pressure) -> (r: bool) {
        fractions_equal(self.numerator, self.denominator, other.numerator, other.denominator)
    }
}

impl vstd::std_specs::cmp::PartialEqSpecImpl for Pressure {
    open spec fn obeys_eq_spec() -> bool {
        true
    }

    open spec fn eq_spec(&self, other: &Pressure) -> bool {
        self.same_as(*other)
    }
}

impl PartialOrd for Pressure {
    fn partial_cmp(&self, other: &Pressure) -> (r: Option<core::cmp::Ordering>) {
        Some(compare_fractions(self.numerator, self.denominator, other.numerator, other.denominator))
    }
}

impl vstd::std_specs::cmp::PartialOrdSpecImpl for Pressure {
    open spec fn obeys_partial_cmp_spec() -> bool {
        true
    }

    open spec fn partial_cmp_spec(&self, other: &Pressure) -> Option<core::cmp::Ordering> {
        Some(
            fraction_order(
                self.numerator as int,
                self.denominator as int,
                other.numerator as int,
                other.denominator as int,
            ),
        )
    }
}

/// Largest magnitude of a whole number of degrees Celsius accepted.
pub const MAX_CELSIUS: i64 = 1_000_000_000;

/// A temperature of `numerator / denominator` kelvin.
#[derive(Clone, Copy, Debug)]
pub struct ThermodynamicTemperature {
    pub numerator: i64,
    pub denominator: u64,
}

impl ThermodynamicTemperature {
    /// `celsius` degrees Celsius, that is `celsius + 273.15` kelvin.
    pub open spec fn spec_from_celsius(celsius: int) -> ThermodynamicTemperature {
        ThermodynamicTemperature { numerator: (100 * celsius + 27315) as i64, denominator: 100 }
    }

    /// Converts a whole number of degrees Celsius to kelvin.
    pub fn from_celsius(celsius: i64) -> (r: ThermodynamicTemperature)
        requires
            -MAX_CELSIUS <= celsius <= MAX_CELSIUS,
        ensures
            r == ThermodynamicTemperature::spec_from_celsius(celsius as int),
    {
        ThermodynamicTemperature { numerator: 100 * celsius + 27315, denominator: 100 }
    }

    /// `n / d` kelvin.
    pub fn from_kelvin(n: i64, d: u64) -> (r: ThermodynamicTemperature)
        requires
            d >= 1,
        ensures
            r.numerator == n,
            r.denominator == d,
    {
        ThermodynamicTemperature { numerator: n, denominator: d }
    }

    /// Both temperatures are the same.
    pub open spec fn same_as(self, other: ThermodynamicTemperature) -> bool {
        same_fraction(
            self.numerator as int,
            self.denominator as int,
            other.numerator as int,
            other.denominator as int,
        )
    }
}

impl PartialEq for ThermodynamicTemperature {
    fn eq(&self, other: &ThermodynamicTemperature) -> (r: bool) {
        fractions_equal(self.numerator, self.denominator, other.numerator, other.denominator)
    }
}

impl vstd::std_specs::cmp::PartialEqSpecImpl for ThermodynamicTemperature {
    open spec fn obeys_eq_spec() -> bool {
        true
    }

    open spec fn eq_spec(&self, other: &ThermodynamicTemperature) -> bool {
        self.same_as(*other)
    }
}

impl PartialOrd for ThermodynamicTemperature {
    fn partial_cmp(&self, other: &ThermodynamicTemperature) -> (r: Option<core::cmp::Ordering>) {
        Some(compare_fractions(self.numerator, self.denominator, other.numerator, other.denominator))
    }
}

impl vstd::std_specs::cmp::PartialOrdSpecImpl for ThermodynamicTemperature {
    open spec fn obeys_partial_cmp_spec() -> bool {
        true
    }

    open spec fn partial_cmp_spec(&self, other: &ThermodynamicTemperature) -> Option<core::cmp::Ordering> {
        Some(
            fraction_order(
                self.numerator as int,
                self.denominator as int,
                other.numerator as int,
                other.denominator as int,
            ),
        )
    }
}

/// The same speed given in knots and in kilometres per hour agrees exactly:
/// one knot is 1.852 km/h.
pub proof fn knots_agree_with_kilometres_per_hour(n: int)
    requires
        0 <= n,
        1852 * n <= MAX_NUMERATOR,
    ensures
        Velocity::spec_new(1000 * n, 1, VelocityUnit::Knot).same_as(
            Velocity::spec_new(1852 * n, 1, VelocityUnit::KilometrePerHour),
        ),
{
    assert(1000 * n * 1852 == 1852 * n * 1000) by (nonlinear_arith);
}

/// One knot is exactly 463/900 (about 0.514444) metres per second.
pub proof fn knot_in_metres_per_second(n: int)
    requires
        0 <= n,
        463 * n <= MAX_NUMERATOR,
    ensures
        Velocity::spec_new(n, 1, VelocityUnit::Knot).same_as(
            Velocity::spec_new(463 * n, 900, VelocityUnit::MetrePerSecond),
        ),
{
    let a = n * 1852;
    let c = 463 * n * 1;
    assert(a * 900 == c * 3600) by (nonlinear_arith)
        requires
            a == n * 1852,
            c == 463 * n * 1,
    ;
    assert(0 <= a <= 4 * MAX_NUMERATOR) by (nonlinear_arith)
        requires
            a == n * 1852,
            463 * n <= MAX_NUMERATOR,
            0 <= n,
    ;
    assert(0 <= c <= MAX_NUMERATOR) by (nonlinear_arith)
        requires
            c == 463 * n * 1,
            463 * n <= MAX_NUMERATOR,
            0 <= n,
    ;
}

/// One kilometre per hour is exactly 5/18 metres per second.
pub proof fn kilometres_per_hour_in_metres_per_second(n: int)
    requires
        0 <= n,
        5 * n <= MAX_NUMERATOR,
    ensures
        Velocity::spec_new(n, 1, VelocityUnit::KilometrePerHour).same_as(
            Velocity::spec_new(5 * n, 18, VelocityUnit::MetrePerSecond),
        ),
{
    let a = n * 1000;
    let c = 5 * n * 1;
    assert(a * 18 == c * 3600) by (nonlinear_arith)
        requires
            a == n * 1000,
            c == 5 * n * 1,
    ;
    assert(0 <= a <= 200 * MAX_NUMERATOR) by (nonlinear_arith)
        requires
            a == n * 1000,
            5 * n <= MAX_NUMERATOR,
            0 <= n,
    ;
}

/// Lengths given in statute miles, feet and kilometres agree with the same
/// distance given in metres.
pub proof fn lengths_agree_in_metres(n: int)
    requires
        0 <= n,
        1609344 * n <= MAX_NUMERATOR,
    ensures
        Length::spec_new(n, 1, LengthUnit::StatuteMile).same_as(
            Length::spec_new(1609344 * n, 1000, LengthUnit::Metre),
        ),
        Length::spec_new(n, 1, LengthUnit::Foot).same_as(
            Length::spec_new(3048 * n, 10000, LengthUnit::Metre),
        ),
        Length::spec_new(n, 1, LengthUnit::Kilometre).same_as(
            Length::spec_new(1000 * n, 1, LengthUnit::Metre),
        ),
        Length::spec_new(n, 1, LengthUnit::Decimetre).same_as(
            Length::spec_new(100 * n, 1, LengthUnit::Millimetre),
        ),
{
    assert(n * 1609344 == 1609344 * n * 1) by (nonlinear_arith);
    assert(n * 3048 == 3048 * n * 1) by (nonlinear_arith);
    assert(n * 1000 == 1000 * n * 1) by (nonlinear_arith);
    let a = n * 1;
    let c = 100 * n * 1;
    assert(a * 1000 == c * 10) by (nonlinear_arith)
        requires
            a == n * 1,
            c == 100 * n * 1,
    ;
}

/// Hectopascals and inches of mercury agree with the same pressure in pascals.
pub proof fn pressures_agree_in_pascals(n: int)
    requires
        0 <= n,
        3386389 * n <= MAX_NUMERATOR,
    ensures
        Pressure::spec_new(n, 1, PressureUnit::Hectopascal).same_as(
            Pressure::spec_new(100 * n, 1, PressureUnit::Pascal),
        ),
        Pressure::spec_new(n, 1, PressureUnit::InchOfMercury).same_as(
            Pressure::spec_new(3386389 * n, 1000, PressureUnit::Pascal),
        ),
{
    assert(n * 100 == 100 * n * 1) by (nonlinear_arith);
    assert(n * 3386389 == 3386389 * n * 1) by (nonlinear_arith);
}

/// Two readings in degrees Celsius are the same temperature exactly when
/// the readings are equal, and each degree is one kelvin.
pub proof fn celsius_readings_agree(a: int, b: int)
    requires
        -MAX_CELSIUS <= a <= MAX_CELSIUS,
        -MAX_CELSIUS <= b <= MAX_CELSIUS,
    ensures
        ThermodynamicTemperature::spec_from_celsius(a).same_as(
            ThermodynamicTemperature::spec_from_celsius(b),
        ) <==> a == b,
        ThermodynamicTemperature::spec_from_celsius(a).numerator
            - ThermodynamicTemperature::spec_from_celsius(b).numerator == 100 * (a - b),
{
}

} // verus!
