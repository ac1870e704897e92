use magnetron_core::calibration::{calibration_for, Calibration};
use magnetron_core::grid::{cic_cell, control_cell, dirichlet_neighbours, smoothing_span, tsc_stencil};

fn nodes(ci: i32, cj: i32, nr: usize, nz: usize) -> Vec<(usize, usize, usize, usize)> {
    tsc_stencil(ci, cj, nr, nz).iter().map(|n| (n.i, n.j, n.wi, n.wj)).collect()
}

#[test]
fn cic_cell_clamps_to_last_cell() {
    assert_eq!(cic_cell(0, 4), 0);
    assert_eq!(cic_cell(2, 4), 2);
    assert_eq!(cic_cell(3, 4), 3);
    assert_eq!(cic_cell(4, 4), 3);
    assert_eq!(cic_cell(usize::MAX, 4), 3);
    assert_eq!(cic_cell(7, 1), 0);
}

#[test]
fn tsc_stencil_interior() {
    assert_eq!(
        nodes(2, 2, 4, 4),
        vec![
            (1, 1, 0, 0), (1, 2, 0, 1), (1, 3, 0, 2),
            (2, 1, 1, 0), (2, 2, 1, 1), (2, 3, 1, 2),
            (3, 1, 2, 0), (3, 2, 2, 1), (3, 3, 2, 2),
        ]
    );
}

#[test]
fn tsc_stencil_lower_corner_clamps_r_and_mirrors_z() {
    assert_eq!(
        nodes(0, 0, 4, 4),
        vec![
            (0, 1, 0, 0), (0, 0, 0, 1), (0, 1, 0, 2),
            (0, 1, 1, 0), (0, 0, 1, 1), (0, 1, 1, 2),
            (1, 1, 2, 0), (1, 0, 2, 1), (1, 1, 2, 2),
        ]
    );
}

#[test]
fn tsc_stencil_upper_corner_clamps_r_and_mirrors_z() {
    assert_eq!(
        nodes(4, 4, 4, 4),
        vec![
            (3, 3, 0, 0), (3, 4, 0, 1), (3, 3, 0, 2),
            (4, 3, 1, 0), (4, 4, 1, 1), (4, 3, 1, 2),
            (4, 3, 2, 0), (4, 4, 2, 1), (4, 3, 2, 2),
        ]
    );
}

#[test]
fn tsc_stencil_far_outside_in_r() {
    let ns = nodes(-50, 1, 3, 2);
    assert!(ns.iter().all(|&(i, j, _, _)| i == 0 && j <= 2));
    let ns = nodes(50, 1, 3, 2);
    assert!(ns.iter().all(|&(i, _, _, _)| i == 3));
}

#[test]
fn control_cells() {
    let c = control_cell(0, 0, 4, 6);
    assert_eq!((c.r_lo, c.r_hi, c.half_z), (0, 1, true));
    let c = control_cell(4, 3, 4, 6);
    assert_eq!((c.r_lo, c.r_hi, c.half_z), (3, 4, false));
    let c = control_cell(2, 6, 4, 6);
    assert_eq!((c.r_lo, c.r_hi, c.half_z), (1, 3, true));
    let c = control_cell(1, 1, 1, 6);
    assert_eq!((c.r_lo, c.r_hi, c.half_z), (0, 1, false));
}

#[test]
fn smoothing_spans() {
    assert_eq!(smoothing_span(2, 3), None);
    assert_eq!(smoothing_span(5, 3), Some((1, 4)));
    assert_eq!(smoothing_span(3, 3), Some((1, 2)));
    assert_eq!(smoothing_span(6, 4), Some((2, 4)));
    assert_eq!(smoothing_span(0, 0), Some((0, 0)));
}

#[test]
fn calibration_choice() {
    assert_eq!(calibration_for(32), Calibration::Steps32);
    assert_eq!(calibration_for(512), Calibration::Steps512);
    assert_eq!(calibration_for(64), Calibration::Fallback);
    assert_eq!(calibration_for(0), Calibration::Fallback);
}

#[test]
fn dirichlet_neighbours_mask_the_electrodes() {
    assert_eq!(dirichlet_neighbours(1, 4), (None, Some(2)));
    assert_eq!(dirichlet_neighbours(2, 4), (Some(1), Some(3)));
    assert_eq!(dirichlet_neighbours(3, 4), (Some(2), None));
    assert_eq!(dirichlet_neighbours(1, 2), (None, None));
}
