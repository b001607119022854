use impact_energy::physics::erg_to_ton;
use impact_energy::physics::kg_to_g;
use impact_energy::physics::kinetic_energy;
use impact_energy::physics::km3_to_cm3;
use impact_energy::physics::km_to_cm;
use impact_energy::physics::mass_from_volume_density;
use impact_energy::physics::sphere_volume;
use impact_energy::physics::ton_to_erg;
use impact_energy::rat::Rat;

fn to_f64(r: &Rat) -> f64 {
    r.num as f64 / r.den as f64
}

fn close(a: f64, b: f64, rel: f64) -> bool {
    (a - b).abs() <= rel * b.abs()
}

#[test]
fn sphere_volume_of_unit_diameter() {
    let v: Rat = sphere_volume(Rat::from_int(1));
    assert!(close(to_f64(&v), 0.5235987756, 1e-9));
}

#[test]
fn sphere_volume_of_zero_diameter() {
    let v: Rat = sphere_volume(Rat::from_int(0));
    assert_eq!(v.num, 0);
}

#[test]
fn km3_to_cm3_scales_by_ten_to_the_fifteenth() {
    let one: Rat = Rat::from_int(1);
    let r: Rat = km3_to_cm3(one);
    assert!(r.same_value(Rat::from_int(1_000_000_000_000_000)));
    let v: Rat = sphere_volume(Rat::from_int(1));
    let cm3: Rat = km3_to_cm3(v);
    assert!(close(to_f64(&cm3), 5.235987756e14, 1e-9));
}

#[test]
fn kg_to_g_scales_by_a_thousand() {
    let r: Rat = kg_to_g(Rat::from_int(7));
    assert!(r.same_value(Rat::from_int(7_000)));
}

#[test]
fn km_to_cm_scales_by_a_hundred_thousand() {
    let r: Rat = km_to_cm(Rat::from_int(3));
    assert!(r.same_value(Rat::from_int(300_000)));
}

#[test]
fn ctype_mass_of_unit_asteroid() {
    let cm3: Rat = km3_to_cm3(sphere_volume(Rat::from_int(1)));
    let mass: Rat = mass_from_volume_density(cm3, Rat::new(138, 100));
    assert!(close(to_f64(&mass), 7.2257e14, 1e-3));
}

#[test]
fn kinetic_energy_of_two_grams_at_three() {
    let ke: Rat = kinetic_energy(Rat::from_int(2), Rat::from_int(3));
    assert!(ke.same_value(Rat::from_int(9)));
}

#[test]
fn kinetic_energy_ignores_velocity_sign() {
    let mass: Rat = Rat::new(311, 7);
    let v: Rat = Rat::new(1289, 3);
    let ke_forward: Rat = kinetic_energy(mass, v);
    let ke_backward: Rat = kinetic_energy(mass, v.negated());
    assert!(ke_forward.same_value(ke_backward));
    assert_eq!(ke_forward, ke_backward);
}

#[test]
fn ton_erg_round_trip_is_exact() {
    let x: Rat = Rat::new(12_345, 7);
    let back: Rat = erg_to_ton(ton_to_erg(x));
    assert!(back.same_value(x));
    let y: Rat = Rat::new(1, 36_000_000_000_000_000);
    let there: Rat = ton_to_erg(erg_to_ton(y));
    assert!(there.same_value(y));
}

#[test]
fn ton_to_erg_scales_by_the_fixed_factor() {
    let r: Rat = ton_to_erg(Rat::from_int(10));
    assert!(r.same_value(Rat::from_int(360_000_000_000_000_000)));
    let e: Rat = erg_to_ton(Rat::from_int(360_000_000_000_000_000));
    assert!(e.same_value(Rat::from_int(10)));
}
