use mpm::manifest::Manifest;
use mpm::progress::{percent, ProgressSnapshot};
use mpm::render::render_manifest;

#[test]
fn percent_rounds_down_and_survives_empty_wholes() {
    assert_eq!(percent(1, 4), 25);
    assert_eq!(percent(2, 3), 66);
    assert_eq!(percent(0, 10), 0);
    assert_eq!(percent(10, 10), 100);
    assert_eq!(percent(0, 0), 0);
}

#[test]
fn snapshot_reports_all_three_percentages() {
    let snap = ProgressSnapshot {
        received_objects: 50,
        total_objects: 200,
        indexed_objects: 100,
        checkout_current: 3,
        checkout_total: 4,
    };
    assert_eq!(snap.percentages(), (25, 50, 75));
}

#[test]
fn empty_manifest_renders_to_nothing() {
    assert_eq!(render_manifest(&Manifest::new()), "");
}
