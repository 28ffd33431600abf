use lens::bits::words_to_le_bytes;
use lens::instance::identity_rotation;
use lens::instance::instance_bytes;
use lens::InstanceRaw;
use lens::InstanceTransform;
use lens::Mat3Bits;
use lens::Mat4Bits;
use lens::Vec3Bits;
use lens::Vec4Bits;

fn bits3(x: f32, y: f32, z: f32) -> Vec3Bits {
    Vec3Bits { x: x.to_bits(), y: y.to_bits(), z: z.to_bits() }
}

#[test]
fn translation_round_trip_with_identity_rotation() {
    let transform = InstanceTransform {
        position: bits3(3.0, 0.0, 0.0),
        rotation: identity_rotation(),
    };
    let raw = transform.to_raw();
    // The translation column carries the position with unit weight.
    assert_eq!(f32::from_bits(raw.model.c3.x), 3.0);
    assert_eq!(f32::from_bits(raw.model.c3.y), 0.0);
    assert_eq!(f32::from_bits(raw.model.c3.z), 0.0);
    assert_eq!(f32::from_bits(raw.model.c3.w), 1.0);
    // The normal matrix is the identity.
    assert_eq!(raw.normal, identity_rotation());
    for (column, expected) in [
        (raw.normal.c0, [1.0, 0.0, 0.0]),
        (raw.normal.c1, [0.0, 1.0, 0.0]),
        (raw.normal.c2, [0.0, 0.0, 1.0]),
    ] {
        assert_eq!(f32::from_bits(column.x), expected[0]);
        assert_eq!(f32::from_bits(column.y), expected[1]);
        assert_eq!(f32::from_bits(column.z), expected[2]);
    }
}

#[test]
fn model_matrix_embeds_rotation_columns_with_zero_weight() {
    let rotation = Mat3Bits {
        c0: bits3(0.0, 1.0, 0.0),
        c1: bits3(-1.0, 0.0, 0.0),
        c2: bits3(0.0, 0.0, 1.0),
    };
    let transform = InstanceTransform { position: bits3(5.0, 6.0, 7.0), rotation };
    let raw = transform.to_raw();
    assert_eq!(raw.model.c0, Vec4Bits {
        x: 0.0f32.to_bits(),
        y: 1.0f32.to_bits(),
        z: 0.0f32.to_bits(),
        w: 0.0f32.to_bits(),
    });
    assert_eq!(raw.model.c1.x, (-1.0f32).to_bits());
    assert_eq!(raw.model.c1.w, 0.0f32.to_bits());
    assert_eq!(raw.model.c2.w, 0.0f32.to_bits());
    assert_eq!(raw.model.c3, Vec4Bits {
        x: 5.0f32.to_bits(),
        y: 6.0f32.to_bits(),
        z: 7.0f32.to_bits(),
        w: 1.0f32.to_bits(),
    });
    assert_eq!(raw.normal, rotation);
}

#[test]
fn words_encode_little_endian() {
    let bytes = words_to_le_bytes(&vec![0x0403_0201, 0x0807_0605]);
    assert_eq!(bytes, vec![1, 2, 3, 4, 5, 6, 7, 8]);
}

#[test]
fn instance_record_occupies_one_hundred_bytes_in_column_order() {
    let raw = InstanceRaw {
        model: Mat4Bits {
            c0: Vec4Bits { x: 0, y: 1, z: 2, w: 3 },
            c1: Vec4Bits { x: 4, y: 5, z: 6, w: 7 },
            c2: Vec4Bits { x: 8, y: 9, z: 10, w: 11 },
            c3: Vec4Bits { x: 12, y: 13, z: 14, w: 15 },
        },
        normal: Mat3Bits {
            c0: Vec3Bits { x: 16, y: 17, z: 18 },
            c1: Vec3Bits { x: 19, y: 20, z: 21 },
            c2: Vec3Bits { x: 22, y: 23, z: 24 },
        },
    };
    let bytes = instance_bytes(&vec![raw]);
    assert_eq!(bytes.len(), 100);
    // Word k of the record holds the value k, so byte 4k holds k's low
    // byte: the columns sit at byte offsets 0, 16, 32, 48, 64, 76, 88.
    for word in 0..25u32 {
        let base = (word * 4) as usize;
        assert_eq!(bytes[base], word as u8);
        assert_eq!(&bytes[base + 1..base + 4], &[0, 0, 0]);
    }
    // The second model-matrix column starts at byte 16 and the first
    // normal-matrix column at byte 64, as the instance layout declares.
    assert_eq!(bytes[16], 4);
    assert_eq!(bytes[48], 12);
    assert_eq!(bytes[64], 16);
    assert_eq!(bytes[76], 19);
    assert_eq!(bytes[88], 22);
}

#[test]
fn instance_buffer_packs_records_back_to_back() {
    let zero = InstanceTransform {
        position: bits3(0.0, 0.0, 0.0),
        rotation: identity_rotation(),
    }
    .to_raw();
    let bytes = instance_bytes(&vec![zero; 3]);
    assert_eq!(bytes.len(), 300);
    assert_eq!(&bytes[0..100], &bytes[100..200]);
    assert_eq!(&bytes[0..100], &bytes[200..300]);
}
