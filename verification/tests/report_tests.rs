use impact_energy::rat::Rat;
use impact_energy::report::ImpactReport;
use impact_energy::report::compute_report;

fn to_f64(r: &Rat) -> f64 {
    r.num as f64 / r.den as f64
}

fn close(a: f64, b: f64, rel: f64) -> bool {
    (a - b).abs() <= rel * b.abs()
}

#[test]
fn class_energies_match_the_expected_magnitudes() {
    let report: ImpactReport = compute_report();
    assert!(close(to_f64(&report.ke_ctype), 4.5376e26, 1e-2));
    assert!(close(to_f64(&report.ke_stype), 8.9155e26, 1e-2));
    assert!(close(to_f64(&report.ke_mtype), 1.7498e27, 1e-2));
}

#[test]
fn mean_energy_is_the_average_of_the_three_classes() {
    let report: ImpactReport = compute_report();
    let mean: f64 =
        (to_f64(&report.ke_ctype) + to_f64(&report.ke_stype) + to_f64(&report.ke_mtype)) / 3.0;
    assert!(close(to_f64(&report.ke_mean), mean, 1e-12));
}

#[test]
fn ceres_energy_and_difference_factor() {
    let report: ImpactReport = compute_report();
    assert!(close(to_f64(&report.ke_ceres), 5.889e35, 1e-2));
    assert!(close(to_f64(&report.difference_factor), 1.40e12, 1e-2));
    let recomputed: f64 = to_f64(&report.ke_ceres) / to_f64(&report.ke_bomb);
    assert!(close(to_f64(&report.difference_factor), recomputed, 1e-12));
}

#[test]
fn class_energies_rise_with_density() {
    let report: ImpactReport = compute_report();
    assert!(report.ke_ctype.below(report.ke_stype));
    assert!(report.ke_stype.below(report.ke_mtype));
    assert!(report.ke_ctype.num > 0);
    assert!(report.ke_stype.num > 0);
    assert!(report.ke_mtype.num > 0);
}

#[test]
fn bomb_energy_formats_to_the_report_line() {
    let report: ImpactReport = compute_report();
    let line: String = format!("{:.2E}", to_f64(&report.ke_bomb));
    assert_eq!(line, "4.20E23");
}
