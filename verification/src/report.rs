//! The fixed impact report: a 1-km asteroid at escape velocity, in three
//! density classes, compared against Ceres and a 10-megaton explosive.

use vstd::prelude::*;

use crate::physics::half_model;
use crate::physics::int_model;
use crate::physics::kinetic_energy;
use crate::physics::kinetic_energy_model;
use crate::physics::km3_to_cm3;
use crate::physics::km3_to_cm3_model;
use crate::physics::lemma_denser_means_more_energy;
use crate::physics::lemma_divided_by_congruence;
use crate::physics::lemma_plus_congruence;
use crate::physics::lemma_times_congruence;
use crate::physics::lemma_times_wf;
use crate::physics::mass_from_volume_density;
use crate::physics::mass_from_volume_density_model;
use crate::physics::sphere_volume;
use crate::physics::sphere_volume_model;
use crate::rat::Rat;
use crate::rat::RatModel;
use crate::rat::divided_by_fits;
use crate::rat::plus_fits;
use crate::rat::times_fits;

verus! {

/// Average density of a carbonaceous (c-type) asteroid, 1.38 g/cm^3.
#[verifier::inline]
pub open spec fn ctype_density_model() -> RatModel {
    RatModel { num: 138, den: 100 }
}

/// Average density of a silicate (s-type) asteroid, 2.71 g/cm^3.
#[verifier::inline]
pub open spec fn stype_density_model() -> RatModel {
    RatModel { num: 271, den: 100 }
}

/// Average density of a metallic (m-type) asteroid, 5.32 g/cm^3.
#[verifier::inline]
pub open spec fn mtype_density_model() -> RatModel {
    RatModel { num: 532, den: 100 }
}

/// The asteroid's diameter: 1 km.
#[verifier::inline]
pub open spec fn diameter_model() -> RatModel {
    RatModel { num: 1, den: 1 }
}

/// The escape velocity: 1.12e6 cm/s.
#[verifier::inline]
pub open spec fn escape_velocity_model() -> RatModel {
    RatModel { num: 1_120_000, den: 1 }
}

/// Ceres's mass: 9.393e23 g.
#[verifier::inline]
pub open spec fn ceres_mass_model() -> RatModel {
    RatModel { num: 939_300_000_000_000_000_000_000, den: 1 }
}

/// The 10-megaton explosive's energy: 4.2e23 erg.
#[verifier::inline]
pub open spec fn bomb_energy_model() -> RatModel {
    RatModel { num: 420_000_000_000_000_000_000_000, den: 1 }
}

/// The asteroid's volume in cubic kilometers.
#[verifier::inline]
pub open spec fn volume_km3_model() -> RatModel {
    sphere_volume_model(diameter_model())
}

/// The asteroid's volume in cubic centimeters.
#[verifier::inline]
pub open spec fn volume_cm3_model() -> RatModel {
    km3_to_cm3_model(volume_km3_model())
}

/// The asteroid's mass at the given density (g).
#[verifier::inline]
pub open spec fn class_mass_model(density: RatModel) -> RatModel {
    mass_from_volume_density_model(volume_cm3_model(), density)
}

/// The asteroid's kinetic energy at the given density (erg).
#[verifier::inline]
pub open spec fn class_energy_model(density: RatModel) -> RatModel {
    kinetic_energy_model(class_mass_model(density), escape_velocity_model())
}

/// The arithmetic mean of the three density classes' kinetic energies (erg).
#[verifier::inline]
pub open spec fn mean_energy_model() -> RatModel {
    class_energy_model(ctype_density_model()).plus(
        class_energy_model(stype_density_model()),
    ).plus(class_energy_model(mtype_density_model())).divided_by(int_model(3))
}

/// Ceres's kinetic energy at escape velocity (erg).
#[verifier::inline]
pub open spec fn ceres_energy_model() -> RatModel {
    kinetic_energy_model(ceres_mass_model(), escape_velocity_model())
}

/// How many times the explosive's energy Ceres's kinetic energy amounts to.
#[verifier::inline]
pub open spec fn difference_factor_model() -> RatModel {
    ceres_energy_model().divided_by(bomb_energy_model())
}

/// Every quantity of the fixed run, each as an exact rational.
#[derive(Clone, Copy, Debug, PartialEq, Eq, Structural)]
pub struct ImpactReport {
    pub ke_bomb: Rat,
    pub ke_ctype: Rat,
    pub ke_stype: Rat,
    pub ke_mtype: Rat,
    pub ke_mean: Rat,
    pub ke_ceres: Rat,
    pub difference_factor: Rat,
}

/// Run the fixed computation: volume of a 1-km sphere, converted to cm^3,
/// massed at the three class densities, turned into kinetic energies at
/// escape velocity, averaged, and set against Ceres and the explosive.
pub fn compute_report() -> (r: ImpactReport)
    ensures
        r.ke_bomb.wf(),
        r.ke_bomb@ == bomb_energy_model(),
        r.ke_ctype.wf(),
        r.ke_ctype@.eq_value(class_energy_model(ctype_density_model())),
        r.ke_stype.wf(),
        r.ke_stype@.eq_value(class_energy_model(stype_density_model())),
        r.ke_mtype.wf(),
        r.ke_mtype@.eq_value(class_energy_model(mtype_density_model())),
        r.ke_mean.wf(),
        r.ke_mean@.eq_value(mean_energy_model()),
        r.ke_ceres.wf(),
        r.ke_ceres@ == ceres_energy_model(),
        r.difference_factor.wf(),
        r.difference_factor@ == difference_factor_model(),
        r.ke_ctype@.lt_value(r.ke_stype@),
        r.ke_stype@.lt_value(r.ke_mtype@),
        0 < r.ke_ctype@.num,
        0 < r.ke_stype@.num,
        0 < r.ke_mtype@.num,
{
    let diameter = Rat::from_int(1);
    proof {
        lemma_model_wf();
        let radius = diameter@.divided_by(int_model(2));
        assert(radius == (RatModel { num: 1, den: 2 }));
        let r2 = radius.times(radius);
        let r3 = r2.times(radius);
        let fourpi = crate::physics::four_thirds_pi_model();
        assert(r2 == (RatModel { num: 1, den: 4 }) && times_fits(radius, radius))
            by (nonlinear_arith)
            requires
                r2 == radius.times(radius),
                radius == (RatModel { num: 1, den: 2 }),
        ;
        assert(r3 == (RatModel { num: 1, den: 8 }) && times_fits(r2, radius)) by (nonlinear_arith)
            requires
                r3 == r2.times(radius),
                r2 == (RatModel { num: 1, den: 4 }),
                radius == (RatModel { num: 1, den: 2 }),
        ;
        assert(fourpi == (RatModel { num: 12_566_370_614_359_172, den: 3_000_000_000_000_000 }));
        assert(times_fits(fourpi, r3) && fourpi.times(r3) == (RatModel {
            num: 12_566_370_614_359_172,
            den: 24_000_000_000_000_000,
        })) by (nonlinear_arith)
            requires
                fourpi == (RatModel { num: 12_566_370_614_359_172, den: 3_000_000_000_000_000 }),
                r3 == (RatModel { num: 1, den: 8 }),
        ;
    }
    let volume_km3 = sphere_volume(diameter);
    proof {
        assert(volume_km3@ == (RatModel {
            num: 12_566_370_614_359_172,
            den: 24_000_000_000_000_000,
        }));
        assert(times_fits(volume_km3@, int_model(1_000_000_000_000_000))) by (nonlinear_arith)
            requires
                volume_km3@ == (RatModel {
                    num: 12_566_370_614_359_172,
                    den: 24_000_000_000_000_000,
                }),
        ;
    }
    let volume_cm3_raw = km3_to_cm3(volume_km3);
    proof {
        assert(volume_cm3_raw@ == (RatModel {
            num: 12_566_370_614_359_172_000_000_000_000_000,
            den: 24_000_000_000_000_000,
        }));
        assert(volume_cm3_raw@.num % 4_000_000_000_000_000int == 0);
        assert(volume_cm3_raw@.den % 4_000_000_000_000_000int == 0);
    }
    let volume_cm3 = volume_cm3_raw.scaled_down(4_000_000_000_000_000);
    proof {
        assert(volume_cm3@ == (RatModel { num: 3_141_592_653_589_793, den: 6 }));
        assert(volume_cm3@.eq_value(volume_cm3_model()));
    }

    let ctype_density = Rat::new(138, 100);
    let stype_density = Rat::new(271, 100);
    let mtype_density = Rat::new(532, 100);
    let velocity = Rat::from_int(1_120_000);
    proof {
        assert(times_fits(volume_cm3@, ctype_density@) && volume_cm3@.times(ctype_density@)
            == (RatModel { num: 433_539_786_195_391_434, den: 600 })) by (nonlinear_arith)
            requires
                volume_cm3@ == (RatModel { num: 3_141_592_653_589_793, den: 6 }),
                ctype_density@ == (RatModel { num: 138, den: 100 }),
        ;
        assert(times_fits(volume_cm3@, stype_density@) && volume_cm3@.times(stype_density@)
            == (RatModel { num: 851_371_609_122_833_903, den: 600 })) by (nonlinear_arith)
            requires
                volume_cm3@ == (RatModel { num: 3_141_592_653_589_793, den: 6 }),
                stype_density@ == (RatModel { num: 271, den: 100 }),
        ;
        assert(times_fits(volume_cm3@, mtype_density@) && volume_cm3@.times(mtype_density@)
            == (RatModel { num: 1_671_327_291_709_769_876, den: 600 })) by (nonlinear_arith)
            requires
                volume_cm3@ == (RatModel { num: 3_141_592_653_589_793, den: 6 }),
                mtype_density@ == (RatModel { num: 532, den: 100 }),
        ;
    }
    let mass_ctype = mass_from_volume_density(volume_cm3, ctype_density);
    let mass_stype = mass_from_volume_density(volume_cm3, stype_density);
    let mass_mtype = mass_from_volume_density(volume_cm3, mtype_density);

    proof {
        assert({
            let hm = half_model().times(mass_ctype@);
            let vsq = velocity@.times(velocity@);
            times_fits(velocity@, velocity@) && times_fits(half_model(), mass_ctype@)
                && times_fits(hm, vsq) && hm.times(vsq) == (RatModel {
                num: 543_832_307_803_499_014_809_600_000_000,
                den: 1_200,
            })
        }) by (nonlinear_arith)
            requires
                mass_ctype@ == (RatModel { num: 433_539_786_195_391_434, den: 600 }),
                velocity@ == (RatModel { num: 1_120_000, den: 1 }),
        ;
        assert({
            let hm = half_model().times(mass_stype@);
            let vsq = velocity@.times(velocity@);
            times_fits(half_model(), mass_stype@) && times_fits(hm, vsq) && hm.times(vsq)
                == (RatModel { num: 1_067_960_546_483_682_847_923_200_000_000, den: 1_200 })
        }) by (nonlinear_arith)
            requires
                mass_stype@ == (RatModel { num: 851_371_609_122_833_903, den: 600 }),
                velocity@ == (RatModel { num: 1_120_000, den: 1 }),
        ;
        assert({
            let hm = half_model().times(mass_mtype@);
            let vsq = velocity@.times(velocity@);
            times_fits(half_model(), mass_mtype@) && times_fits(hm, vsq) && hm.times(vsq)
                == (RatModel { num: 2_096_512_954_720_735_332_454_400_000_000, den: 1_200 })
        }) by (nonlinear_arith)
            requires
                mass_mtype@ == (RatModel { num: 1_671_327_291_709_769_876, den: 600 }),
                velocity@ == (RatModel { num: 1_120_000, den: 1 }),
        ;
    }
    let ke_ctype = kinetic_energy(mass_ctype, velocity);
    let ke_stype = kinetic_energy(mass_stype, velocity);
    let ke_mtype = kinetic_energy(mass_mtype, velocity);

    proof {
        lemma_class_energy_congruent(volume_cm3@, ctype_density_model());
        lemma_class_energy_congruent(volume_cm3@, stype_density_model());
        lemma_class_energy_congruent(volume_cm3@, mtype_density_model());
        lemma_denser_means_more_energy(
            volume_cm3@,
            ctype_density_model(),
            stype_density_model(),
            velocity@,
        );
        lemma_denser_means_more_energy(
            volume_cm3@,
            stype_density_model(),
            mtype_density_model(),
            velocity@,
        );
        assert(plus_fits(ke_ctype@, ke_stype@) && ke_ctype@.plus(ke_stype@) == (RatModel {
            num: 1_934_151_425_144_618_235_279_360_000_000_000,
            den: 1_440_000,
        })) by (nonlinear_arith)
            requires
                ke_ctype@ == (RatModel {
                    num: 543_832_307_803_499_014_809_600_000_000,
                    den: 1_200,
                }),
                ke_stype@ == (RatModel {
                    num: 1_067_960_546_483_682_847_923_200_000_000,
                    den: 1_200,
                }),
        ;
    }
    let ke_sum_cs = ke_ctype.plus(ke_stype);
    proof {
        assert(plus_fits(ke_sum_cs@, ke_mtype@) && ke_sum_cs@.plus(ke_mtype@) == (RatModel {
            num: 5_339_960_364_971_400_761_069_568_000_000_000_000,
            den: 1_728_000_000,
        })) by (nonlinear_arith)
            requires
                ke_sum_cs@ == (RatModel {
                    num: 1_934_151_425_144_618_235_279_360_000_000_000,
                    den: 1_440_000,
                }),
                ke_mtype@ == (RatModel {
                    num: 2_096_512_954_720_735_332_454_400_000_000,
                    den: 1_200,
                }),
        ;
    }
    let ke_sum = ke_sum_cs.plus(ke_mtype);
    let three = Rat::from_int(3);
    proof {
        assert(divided_by_fits(ke_sum@, three@)) by (nonlinear_arith)
            requires
                ke_sum@ == (RatModel {
                    num: 5_339_960_364_971_400_761_069_568_000_000_000_000,
                    den: 1_728_000_000,
                }),
                three@ == (RatModel { num: 3, den: 1 }),
        ;
    }
    let ke_mean = ke_sum.divided_by(three);
    proof {
        lemma_mean_energy_congruent(ke_ctype@, ke_stype@, ke_mtype@, ke_sum_cs@, ke_sum@);
    }

    let ceres_mass = Rat::from_int(939_300_000_000_000_000_000_000);
    proof {
        assert({
            let hm = half_model().times(ceres_mass@);
            let vsq = velocity@.times(velocity@);
            times_fits(half_model(), ceres_mass@) && times_fits(hm, vsq) && hm.times(vsq)
                == (RatModel { num: 1_178_257_920_000_000_000_000_000_000_000_000_000, den: 2 })
        }) by (nonlinear_arith)
            requires
                ceres_mass@ == (RatModel { num: 939_300_000_000_000_000_000_000, den: 1 }),
                velocity@ == (RatModel { num: 1_120_000, den: 1 }),
        ;
    }
    let ke_ceres = kinetic_energy(ceres_mass, velocity);
    let ke_bomb = Rat::from_int(420_000_000_000_000_000_000_000);
    proof {
        assert(divided_by_fits(ke_ceres@, ke_bomb@)) by (nonlinear_arith)
            requires
                ke_ceres@ == (RatModel {
                    num: 1_178_257_920_000_000_000_000_000_000_000_000_000,
                    den: 2,
                }),
                ke_bomb@ == (RatModel { num: 420_000_000_000_000_000_000_000, den: 1 }),
        ;
    }
    let difference_factor = ke_ceres.divided_by(ke_bomb);

    ImpactReport {
        ke_bomb,
        ke_ctype,
        ke_stype,
        ke_mtype,
        ke_mean,
        ke_ceres,
        difference_factor,
    }
}

/// The model's fixed quantities all have positive denominators.
proof fn lemma_model_wf()
    ensures
        volume_cm3_model().wf(),
        class_energy_model(ctype_density_model()).wf(),
        class_energy_model(stype_density_model()).wf(),
        class_energy_model(mtype_density_model()).wf(),
{
    let radius = diameter_model().divided_by(int_model(2));
    assert(radius == (RatModel { num: 1, den: 2 }));
    let r2 = radius.times(radius);
    let r3 = r2.times(radius);
    lemma_times_wf(radius, radius);
    lemma_times_wf(r2, radius);
    lemma_times_wf(RatModel { num: 4, den: 3 }, crate::physics::pi_model());
    lemma_times_wf(crate::physics::four_thirds_pi_model(), r3);
    lemma_times_wf(volume_km3_model(), int_model(1_000_000_000_000_000));
    let vsq = escape_velocity_model().times(escape_velocity_model());
    lemma_times_wf(escape_velocity_model(), escape_velocity_model());
    lemma_times_wf(volume_cm3_model(), ctype_density_model());
    lemma_times_wf(half_model(), volume_cm3_model().times(ctype_density_model()));
    lemma_times_wf(half_model().times(volume_cm3_model().times(ctype_density_model())), vsq);
    lemma_times_wf(volume_cm3_model(), stype_density_model());
    lemma_times_wf(half_model(), volume_cm3_model().times(stype_density_model()));
    lemma_times_wf(half_model().times(volume_cm3_model().times(stype_density_model())), vsq);
    lemma_times_wf(volume_cm3_model(), mtype_density_model());
    lemma_times_wf(half_model(), volume_cm3_model().times(mtype_density_model()));
    lemma_times_wf(half_model().times(volume_cm3_model().times(mtype_density_model())), vsq);
}

/// The kinetic energy computed from the rescaled volume denotes the same
/// value as the one the model states over the raw volume.
proof fn lemma_class_energy_congruent(volume: RatModel, density: RatModel)
    requires
        volume.wf(),
        density.wf(),
        volume_cm3_model().wf(),
        volume.eq_value(volume_cm3_model()),
    ensures
        kinetic_energy_model(
            mass_from_volume_density_model(volume, density),
            escape_velocity_model(),
        ).eq_value(class_energy_model(density)),
{
    let half = RatModel { num: 1, den: 2 };
    let vsq = escape_velocity_model().times(escape_velocity_model());
    lemma_times_congruence(volume, volume_cm3_model(), density);
    lemma_times_wf(volume, density);
    lemma_times_wf(volume_cm3_model(), density);
    lemma_times_congruence(volume.times(density), volume_cm3_model().times(density), half);
    lemma_times_wf(half, volume.times(density));
    lemma_times_wf(half, volume_cm3_model().times(density));
    lemma_times_congruence(
        half.times(volume.times(density)),
        half.times(volume_cm3_model().times(density)),
        vsq,
    );
}

/// The mean computed from the three kinetic energies denotes the same value
/// as the model's mean, whenever each addend does.
proof fn lemma_mean_energy_congruent(
    ke_c: RatModel,
    ke_s: RatModel,
    ke_m: RatModel,
    sum_cs: RatModel,
    sum: RatModel,
)
    requires
        ke_c.wf(),
        ke_s.wf(),
        ke_m.wf(),
        sum_cs == ke_c.plus(ke_s),
        sum == sum_cs.plus(ke_m),
        class_energy_model(ctype_density_model()).wf(),
        class_energy_model(stype_density_model()).wf(),
        class_energy_model(mtype_density_model()).wf(),
        ke_c.eq_value(class_energy_model(ctype_density_model())),
        ke_s.eq_value(class_energy_model(stype_density_model())),
        ke_m.eq_value(class_energy_model(mtype_density_model())),
    ensures
        sum.divided_by(int_model(3)).eq_value(mean_energy_model()),
{
    let mc = class_energy_model(ctype_density_model());
    let ms = class_energy_model(stype_density_model());
    let mm = class_energy_model(mtype_density_model());
    lemma_plus_congruence(ke_c, mc, ke_s, ms);
    crate::physics::lemma_plus_wf(ke_c, ke_s);
    crate::physics::lemma_plus_wf(mc, ms);
    lemma_plus_congruence(sum_cs, mc.plus(ms), ke_m, mm);
    crate::physics::lemma_plus_wf(sum_cs, ke_m);
    crate::physics::lemma_plus_wf(mc.plus(ms), mm);
    lemma_divided_by_congruence(sum, mc.plus(ms).plus(mm), int_model(3));
}

} // verus!
