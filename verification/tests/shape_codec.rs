use blend_load::rapier_physics::{decode_shape, encode_shape, ShapeError, ShapeParams};
use blend_load::scalars::Vec3Bits;

fn bits(x: f32) -> u32 {
    x.to_bits()
}

fn payload(values: &[f32]) -> Vec<u8> {
    let mut out: Vec<u8> = Vec::new();
    for v in values {
        out.extend_from_slice(&v.to_bits().to_le_bytes());
    }
    out
}

#[test]
fn sphere_payload_decodes_exactly() {
    let p = payload(&[2.5]);
    assert_eq!(p.len(), 4);
    assert_eq!(
        decode_shape(0, &p),
        Ok(ShapeParams::Sphere { radius: bits(2.5) })
    );
}

#[test]
fn capsule_payload_decodes_exactly() {
    let p = payload(&[1.25, 0.5]);
    assert_eq!(p.len(), 8);
    assert_eq!(
        decode_shape(1, &p),
        Ok(ShapeParams::Capsule { half_height: bits(1.25), radius: bits(0.5) })
    );
}

#[test]
fn box_payload_decodes_exactly() {
    let p = payload(&[0.5, 1.0, 2.0]);
    assert_eq!(p.len(), 12);
    assert_eq!(
        decode_shape(2, &p),
        Ok(ShapeParams::Cuboid {
            half_extents: Vec3Bits { x: bits(0.5), y: bits(1.0), z: bits(2.0) },
        })
    );
}

#[test]
fn short_payloads_fail() {
    let p = payload(&[0.5, 1.0, 2.0]);
    assert_eq!(decode_shape(0, &p[..3]), Err(ShapeError::Truncated));
    assert_eq!(decode_shape(1, &p[..7]), Err(ShapeError::Truncated));
    assert_eq!(decode_shape(2, &p[..11]), Err(ShapeError::Truncated));
    assert_eq!(decode_shape(2, &[]), Err(ShapeError::Truncated));
}

#[test]
fn unknown_tags_fail() {
    let p = payload(&[0.5, 1.0, 2.0]);
    assert_eq!(decode_shape(3, &p), Err(ShapeError::UnknownTag));
    assert_eq!(decode_shape(99, &p), Err(ShapeError::UnknownTag));
    assert_eq!(decode_shape(255, &p), Err(ShapeError::UnknownTag));
}

#[test]
fn encode_decode_round_trips_every_shape() {
    let shapes = [
        ShapeParams::Sphere { radius: bits(3.5) },
        ShapeParams::Capsule { half_height: bits(2.0), radius: bits(0.25) },
        ShapeParams::Cuboid {
            half_extents: Vec3Bits { x: bits(1.0), y: bits(2.0), z: bits(3.0) },
        },
    ];
    for shape in shapes {
        let (tag, bytes) = encode_shape(&shape);
        assert_eq!(decode_shape(tag, &bytes), Ok(shape));
    }
}
