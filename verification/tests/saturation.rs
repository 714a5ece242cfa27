use underbrush::saturation::{SaturationType, SATURATION_VARIANTS};

#[test]
fn every_ordinal_round_trips() {
    for i in 0..SATURATION_VARIANTS {
        let t = SaturationType::from_index(i);
        assert_eq!(t.to_index(), i);
    }
}

#[test]
fn every_variant_round_trips() {
    let variants = [
        SaturationType::Tape,
        SaturationType::Tube,
        SaturationType::Transistor,
        SaturationType::LDR,
        SaturationType::Cubic,
        SaturationType::Quintic,
        SaturationType::SoftClip,
        SaturationType::Bypass,
    ];
    assert_eq!(variants.len(), SATURATION_VARIANTS);
    for (i, t) in variants.iter().enumerate() {
        assert_eq!(t.to_index(), i);
        assert_eq!(SaturationType::from_index(i), *t);
    }
}

#[test]
fn ordinals_follow_declaration_order() {
    assert_eq!(SaturationType::Tape.to_index(), 0);
    assert_eq!(SaturationType::Tube.to_index(), 1);
    assert_eq!(SaturationType::Transistor.to_index(), 2);
    assert_eq!(SaturationType::LDR.to_index(), 3);
    assert_eq!(SaturationType::Cubic.to_index(), 4);
    assert_eq!(SaturationType::Quintic.to_index(), 5);
    assert_eq!(SaturationType::SoftClip.to_index(), 6);
    assert_eq!(SaturationType::Bypass.to_index(), 7);
}
