//! The calculator's formulas: sphere volume, unit conversions, mass from
//! density, kinetic energy — each over exact rationals, with its exact
//! mathematical model, plus the laws that relate them.

use vstd::prelude::*;

use crate::rat::Rat;
use crate::rat::RatModel;
use crate::rat::divided_by_fits;
use crate::rat::times_fits;

verus! {

/// The rational with value `n`.
#[verifier::inline]
pub open spec fn int_model(n: int) -> RatModel {
    RatModel { num: n, den: 1 }
}

/// The rational approximation of pi.
#[verifier::inline]
pub open spec fn pi_model() -> RatModel {
    RatModel { num: 3_141_592_653_589_793, den: 1_000_000_000_000_000 }
}

/// Four thirds times pi, the leading factor of the sphere-volume formula.
#[verifier::inline]
pub open spec fn four_thirds_pi_model() -> RatModel {
    RatModel { num: 4, den: 3 }.times(pi_model())
}

/// One half, the leading factor of the kinetic-energy formula.
#[verifier::inline]
pub open spec fn half_model() -> RatModel {
    RatModel { num: 1, den: 2 }
}

/// The volume of a sphere of the given diameter:
/// `(4/3) * pi * (diameter/2)^3`.
#[verifier::inline]
pub open spec fn sphere_volume_model(diameter: RatModel) -> RatModel {
    let radius = diameter.divided_by(int_model(2));
    let r3 = radius.times(radius).times(radius);
    four_thirds_pi_model().times(r3)
}

/// The intermediate products of `sphere_volume` stay within `i128`.
#[verifier::inline]
pub open spec fn sphere_volume_fits(diameter: RatModel) -> bool {
    let radius = diameter.divided_by(int_model(2));
    let r2 = radius.times(radius);
    let r3 = r2.times(radius);
    &&& divided_by_fits(diameter, int_model(2))
    &&& times_fits(radius, radius)
    &&& times_fits(r2, radius)
    &&& times_fits(four_thirds_pi_model(), r3)
}

/// Volume of a sphere with the given diameter (km), in cubic kilometers.
pub fn sphere_volume(diameter: Rat) -> (r: Rat)
    requires
        diameter.wf(),
        sphere_volume_fits(diameter@),
    ensures
        r@ == sphere_volume_model(diameter@),
        r.wf(),
{
    let two = Rat::from_int(2);
    let radius = diameter.divided_by(two);
    let r3 = radius.times(radius).times(radius);
    let four_thirds = Rat::new(4, 3);
    let pi = Rat::new(3_141_592_653_589_793, 1_000_000_000_000_000);
    four_thirds.times(pi).times(r3)
}

/// Cubic kilometers scaled to cubic centimeters.
#[verifier::inline]
pub open spec fn km3_to_cm3_model(x: RatModel) -> RatModel {
    x.times(int_model(1_000_000_000_000_000))
}

/// Convert cubic kilometers to cubic centimeters.
pub fn km3_to_cm3(x: Rat) -> (r: Rat)
    requires
        x.wf(),
        times_fits(x@, int_model(1_000_000_000_000_000)),
    ensures
        r@ == km3_to_cm3_model(x@),
        r.wf(),
{
    x.times(Rat::from_int(1_000_000_000_000_000))
}

/// Kilograms scaled to grams.
#[verifier::inline]
pub open spec fn kg_to_g_model(x: RatModel) -> RatModel {
    x.times(int_model(1_000))
}

/// Convert kilograms to grams.
pub fn kg_to_g(x: Rat) -> (r: Rat)
    requires
        x.wf(),
        times_fits(x@, int_model(1_000)),
    ensures
        r@ == kg_to_g_model(x@),
        r.wf(),
{
    x.times(Rat::from_int(1_000))
}

/// Kilometers scaled to centimeters.
#[verifier::inline]
pub open spec fn km_to_cm_model(x: RatModel) -> RatModel {
    x.times(int_model(100_000))
}

/// Convert kilometers to centimeters.
pub fn km_to_cm(x: Rat) -> (r: Rat)
    requires
        x.wf(),
        times_fits(x@, int_model(100_000)),
    ensures
        r@ == km_to_cm_model(x@),
        r.wf(),
{
    x.times(Rat::from_int(100_000))
}

/// Explosive-energy units scaled to ergs.
#[verifier::inline]
pub open spec fn ton_to_erg_model(x: RatModel) -> RatModel {
    x.times(int_model(36_000_000_000_000_000))
}

/// Convert tons of explosive energy to ergs.
pub fn ton_to_erg(x: Rat) -> (r: Rat)
    requires
        x.wf(),
        times_fits(x@, int_model(36_000_000_000_000_000)),
    ensures
        r@ == ton_to_erg_model(x@),
        r.wf(),
{
    x.times(Rat::from_int(36_000_000_000_000_000))
}

/// Ergs scaled down to tons of explosive energy.
#[verifier::inline]
pub open spec fn erg_to_ton_model(x: RatModel) -> RatModel {
    x.divided_by(int_model(36_000_000_000_000_000))
}

/// Convert ergs to tons of explosive energy.
pub fn erg_to_ton(x: Rat) -> (r: Rat)
    requires
        x.wf(),
        divided_by_fits(x@, int_model(36_000_000_000_000_000)),
    ensures
        r@ == erg_to_ton_model(x@),
        r.wf(),
{
    x.divided_by(Rat::from_int(36_000_000_000_000_000))
}

/// Mass as volume times density.
#[verifier::inline]
pub open spec fn mass_from_volume_density_model(volume: RatModel, density: RatModel) -> RatModel {
    volume.times(density)
}

/// Mass (g) of a body with the given volume (cm^3) and density (g/cm^3).
pub fn mass_from_volume_density(volume: Rat, density: Rat) -> (r: Rat)
    requires
        volume.wf(),
        density.wf(),
        times_fits(volume@, density@),
    ensures
        r@ == mass_from_volume_density_model(volume@, density@),
        r.wf(),
{
    volume.times(density)
}

/// Kinetic energy as `(1/2) * mass * velocity^2`.
#[verifier::inline]
pub open spec fn kinetic_energy_model(mass: RatModel, velocity: RatModel) -> RatModel {
    half_model().times(mass).times(velocity.times(velocity))
}

/// The intermediate products of `kinetic_energy` stay within `i128`.
#[verifier::inline]
pub open spec fn kinetic_energy_fits(mass: RatModel, velocity: RatModel) -> bool {
    &&& times_fits(velocity, velocity)
    &&& times_fits(half_model(), mass)
    &&& times_fits(half_model().times(mass), velocity.times(velocity))
}

/// Kinetic energy (erg) of the given mass (g) at the given velocity (cm/s).
pub fn kinetic_energy(mass: Rat, velocity: Rat) -> (r: Rat)
    requires
        mass.wf(),
        velocity.wf(),
        kinetic_energy_fits(mass@, velocity@),
    ensures
        r@ == kinetic_energy_model(mass@, velocity@),
        r.wf(),
{
    let half = Rat::new(1, 2);
    let vsq = velocity.times(velocity);
    half.times(mass).times(vsq)
}

/// Law: the product of two well-formed rationals is well-formed.
pub proof fn lemma_times_wf(a: RatModel, b: RatModel)
    requires
        a.wf(),
        b.wf(),
    ensures
        a.times(b).wf(),
{
    assert(a.den * b.den > 0) by (nonlinear_arith)
        requires
            a.den > 0,
            b.den > 0,
    ;
}

/// Law: the sum of two well-formed rationals is well-formed.
pub proof fn lemma_plus_wf(a: RatModel, b: RatModel)
    requires
        a.wf(),
        b.wf(),
    ensures
        a.plus(b).wf(),
{
    assert(a.den * b.den > 0) by (nonlinear_arith)
        requires
            a.den > 0,
            b.den > 0,
    ;
}

/// Law: multiplying two rationals by the same positive rational, on either
/// side, preserves strict value order.
pub proof fn lemma_times_preserves_lt(a: RatModel, b: RatModel, c: RatModel)
    requires
        a.wf(),
        b.wf(),
        c.wf(),
        a.lt_value(b),
        0 < c.num,
    ensures
        a.times(c).lt_value(b.times(c)),
        c.times(a).lt_value(c.times(b)),
{
    assert((a.num * c.num) * (b.den * c.den) < (b.num * c.num) * (a.den * c.den))
        by (nonlinear_arith)
        requires
            a.num * b.den < b.num * a.den,
            c.num > 0,
            c.den > 0,
    ;
    assert((c.num * a.num) * (c.den * b.den) < (c.num * b.num) * (c.den * a.den))
        by (nonlinear_arith)
        requires
            a.num * b.den < b.num * a.den,
            c.num > 0,
            c.den > 0,
    ;
}

/// Law: replacing either factor of a product by one denoting the same value
/// leaves the denoted product unchanged.
pub proof fn lemma_times_congruence(a: RatModel, a2: RatModel, b: RatModel)
    requires
        a.wf(),
        a2.wf(),
        b.wf(),
        a.eq_value(a2),
    ensures
        a.times(b).eq_value(a2.times(b)),
        b.times(a).eq_value(b.times(a2)),
{
    assert((a.num * b.num) * (a2.den * b.den) == (a2.num * b.num) * (a.den * b.den))
        by (nonlinear_arith)
        requires
            a.num * a2.den == a2.num * a.den,
    ;
    assert((b.num * a.num) * (b.den * a2.den) == (b.num * a2.num) * (b.den * a.den))
        by (nonlinear_arith)
        requires
            a.num * a2.den == a2.num * a.den,
    ;
}

/// Law: replacing both addends of a sum by ones denoting the same values
/// leaves the denoted sum unchanged.
pub proof fn lemma_plus_congruence(a: RatModel, a2: RatModel, b: RatModel, b2: RatModel)
    requires
        a.wf(),
        a2.wf(),
        b.wf(),
        b2.wf(),
        a.eq_value(a2),
        b.eq_value(b2),
    ensures
        a.plus(b).eq_value(a2.plus(b2)),
{
    let x1: int = a.num * b.den;
    let x2: int = b.num * a.den;
    let y1: int = a2.num * b2.den;
    let y2: int = b2.num * a2.den;
    let cl: int = a2.den * b2.den;
    let cr: int = a.den * b.den;
    vstd::arithmetic::mul::lemma_mul_is_distributive_add_other_way(cl, x1, x2);
    vstd::arithmetic::mul::lemma_mul_is_distributive_add_other_way(cr, y1, y2);
    assert(x1 * cl == y1 * cr) by (nonlinear_arith)
        requires
            a.num * a2.den == a2.num * a.den,
            x1 == a.num * b.den,
            y1 == a2.num * b2.den,
            cl == a2.den * b2.den,
            cr == a.den * b.den,
    ;
    assert(x2 * cl == y2 * cr) by (nonlinear_arith)
        requires
            b.num * b2.den == b2.num * b.den,
            x2 == b.num * a.den,
            y2 == b2.num * a2.den,
            cl == a2.den * b2.den,
            cr == a.den * b.den,
    ;
}

/// Law: replacing the dividend by one denoting the same value leaves the
/// denoted quotient by a positive divisor unchanged.
pub proof fn lemma_divided_by_congruence(a: RatModel, a2: RatModel, c: RatModel)
    requires
        a.wf(),
        a2.wf(),
        c.wf(),
        0 < c.num,
        a.eq_value(a2),
    ensures
        a.divided_by(c).eq_value(a2.divided_by(c)),
{
    assert((a.num * c.den) * (a2.den * c.num) == (a2.num * c.den) * (a.den * c.num))
        by (nonlinear_arith)
        requires
            a.num * a2.den == a2.num * a.den,
    ;
}

/// Law: kinetic energy depends on the velocity only through its square, so a
/// sign flip of the velocity leaves the energy unchanged, exactly.
pub proof fn lemma_kinetic_energy_symmetric_in_velocity(mass: RatModel, velocity: RatModel)
    ensures
        kinetic_energy_model(mass, velocity.negated()) == kinetic_energy_model(mass, velocity),
{
    assert((-velocity.num) * (-velocity.num) == velocity.num * velocity.num)
        by (nonlinear_arith);
}

/// Law: converting tons to ergs and back returns the original value exactly,
/// and so does converting ergs to tons and back.
pub proof fn lemma_ton_erg_round_trip(x: RatModel)
    requires
        x.wf(),
    ensures
        erg_to_ton_model(ton_to_erg_model(x)).wf(),
        erg_to_ton_model(ton_to_erg_model(x)).eq_value(x),
        ton_to_erg_model(erg_to_ton_model(x)).wf(),
        ton_to_erg_model(erg_to_ton_model(x)).eq_value(x),
{
    let c: int = 36_000_000_000_000_000;
    assert(x.den * 1 * c > 0) by (nonlinear_arith)
        requires
            x.den > 0,
            c > 0,
    ;
    assert(x.num * c * 1 * (x.den * 1) == x.num * (x.den * 1 * c)) by (nonlinear_arith);
    assert(x.den * c * 1 > 0) by (nonlinear_arith)
        requires
            x.den > 0,
            c > 0,
    ;
    assert(x.num * 1 * c * x.den == x.num * (x.den * c * 1)) by (nonlinear_arith);
}

/// Law: at equal positive volume and equal nonzero velocity, the denser of
/// two bodies carries strictly more kinetic energy.
pub proof fn lemma_denser_means_more_energy(
    volume: RatModel,
    d1: RatModel,
    d2: RatModel,
    velocity: RatModel,
)
    requires
        volume.wf(),
        d1.wf(),
        d2.wf(),
        velocity.wf(),
        0 < volume.num,
        velocity.num != 0,
        d1.lt_value(d2),
    ensures
        kinetic_energy_model(mass_from_volume_density_model(volume, d1), velocity).lt_value(
            kinetic_energy_model(mass_from_volume_density_model(volume, d2), velocity),
        ),
{
    let m1 = volume.times(d1);
    let m2 = volume.times(d2);
    lemma_times_preserves_lt(d1, d2, volume);
    lemma_times_wf(volume, d1);
    lemma_times_wf(volume, d2);
    lemma_times_preserves_lt(m1, m2, half_model());
    lemma_times_wf(half_model(), m1);
    lemma_times_wf(half_model(), m2);
    let vsq = velocity.times(velocity);
    assert(velocity.num * velocity.num > 0) by (nonlinear_arith)
        requires
            velocity.num != 0,
    ;
    assert(velocity.den * velocity.den > 0) by (nonlinear_arith)
        requires
            velocity.den > 0,
    ;
    assert(vsq.num > 0 && vsq.den > 0);
    lemma_times_preserves_lt(half_model().times(m1), half_model().times(m2), vsq);
}

} // verus!
