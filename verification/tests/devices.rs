use drop_gui::device::{stage_dir, Device};
use drop_gui::pipeline::StageKind;

#[test]
fn device_table_lists_the_three_channels() {
    let all = Device::all();
    assert_eq!(all, vec![Device::CH100, Device::CH190, Device::CH270]);
}

#[test]
fn device_maxima_and_labels() {
    assert_eq!(Device::CH100.max_value(), 100);
    assert_eq!(Device::CH190.max_value(), 190);
    assert_eq!(Device::CH270.max_value(), 270);
    assert_eq!(Device::CH100.label(), "100");
    assert_eq!(Device::CH190.label(), "190");
    assert_eq!(Device::CH270.label(), "270");
}

#[test]
fn device_maxima_bits_encode_the_maxima() {
    assert_eq!(Device::CH100.max_value_bits(), (100.0f32).to_bits());
    assert_eq!(Device::CH190.max_value_bits(), (190.0f32).to_bits());
    assert_eq!(Device::CH270.max_value_bits(), (270.0f32).to_bits());
}

#[test]
fn model_paths_follow_the_table() {
    assert_eq!(
        Device::CH100.model_path(StageKind::SecondaryDimension),
        "assets/models/100/sec_dim"
    );
    assert_eq!(Device::CH100.model_path(StageKind::FlowRate), "assets/models/100/flow");
    assert_eq!(Device::CH190.model_path(StageKind::Frequency), "assets/models/190/freq");
    assert_eq!(Device::CH270.model_path(StageKind::SecondaryDimension), "assets/models/270/sec_dim");
    assert_eq!(stage_dir(StageKind::FlowRate), "flow");
}

#[test]
fn boundary_bit_patterns_encode_one_above_each_maximum() {
    // The patterns the boundary law speaks of are exactly the scalars one
    // micrometer above each device's maximum.
    assert_eq!(0x42CA_0000u32, (101.0f32).to_bits());
    assert_eq!(0x433F_0000u32, (191.0f32).to_bits());
    assert_eq!(0x4387_8000u32, (271.0f32).to_bits());
}

#[test]
fn dimension_boundary_is_inclusive() {
    // Exactly the maximum is valid; one unit above is not.
    for d in Device::all() {
        let max = d.max_value() as f32;
        assert!(d.accepts_dimension(max.to_bits()));
        assert!(!d.accepts_dimension((max + 1.0).to_bits()));
    }
}

#[test]
fn dimension_check_matches_real_comparison() {
    let inputs: &[f32] = &[0.0, -0.0, 40.0, 99.999, 100.0, 100.00001, 189.5, 270.0, 271.0,
        -5.0, f32::INFINITY, f32::NEG_INFINITY, f32::NAN];
    for d in Device::all() {
        let max = d.max_value() as f32;
        for x in inputs {
            assert_eq!(
                d.accepts_dimension(x.to_bits()),
                *x <= max,
                "disagreement on {:?} for device {}",
                x,
                d.label()
            );
        }
    }
}
