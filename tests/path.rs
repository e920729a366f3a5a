use smallpt::{scatter, survival, Material, Scatter, Survival, MAX_DEPTH, ROULETTE_DEPTH, SPLIT_DEPTH};

#[test]
fn constants_of_the_estimator() {
    assert_eq!(ROULETTE_DEPTH, 5);
    assert_eq!(MAX_DEPTH, 127);
    assert_eq!(SPLIT_DEPTH, 2);
}

#[test]
fn survival_near_camera_always_continues() {
    assert_eq!(survival(0), Survival::Continue { depth: 1 });
    assert_eq!(survival(3), Survival::Continue { depth: 4 });
    assert_eq!(survival(4), Survival::Continue { depth: 5 });
}

#[test]
fn survival_deeper_faces_roulette() {
    assert_eq!(survival(5), Survival::Roulette { depth: 6 });
    assert_eq!(survival(60), Survival::Roulette { depth: 61 });
    assert_eq!(survival(125), Survival::Roulette { depth: 126 });
}

#[test]
fn survival_backstop_terminates() {
    assert_eq!(survival(126), Survival::Terminate);
    assert_eq!(survival(127), Survival::Terminate);
    assert_eq!(survival(255), Survival::Terminate);
}

#[test]
fn every_path_ends_within_backstop() {
    let mut depth: u8 = 0;
    let mut bounces: u32 = 0;
    loop {
        match survival(depth) {
            Survival::Continue { depth: d } | Survival::Roulette { depth: d } => {
                assert_eq!(d, depth + 1);
                assert!(d < MAX_DEPTH);
                depth = d;
                bounces += 1;
            }
            Survival::Terminate => break,
        }
    }
    assert_eq!(bounces, 126);
}

#[test]
fn scatter_diffuse_and_mirror() {
    for depth in [1u8, 2, 3, 50, 126] {
        for tir in [false, true] {
            assert_eq!(scatter(Material::Diffuse, depth, tir), Scatter::CosineSample);
            assert_eq!(scatter(Material::Specular, depth, tir), Scatter::Mirror);
        }
    }
}

#[test]
fn scatter_glass() {
    assert_eq!(scatter(Material::Refractive, 1, false), Scatter::Both);
    assert_eq!(scatter(Material::Refractive, 2, false), Scatter::Both);
    assert_eq!(scatter(Material::Refractive, 3, false), Scatter::ChooseOne);
    assert_eq!(scatter(Material::Refractive, 100, false), Scatter::ChooseOne);
    assert_eq!(scatter(Material::Refractive, 1, true), Scatter::InternalReflection);
    assert_eq!(scatter(Material::Refractive, 9, true), Scatter::InternalReflection);
}
