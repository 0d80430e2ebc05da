use tile_compositor::entity::{Entity, ENTITY_STRIDE};
use tile_compositor::error::Error;
use tile_compositor::instance::{
    InstanceBuffer, INSTANCE_STRIDE, MAX_INSTANCE_COUNT, MIN_INSTANCE_COUNT,
};
use tile_compositor::layout::{pad_to, push_word, word_bytes};
use tile_compositor::light::{Light, LIGHT_STRIDE};

#[test]
fn words_are_little_endian() {
    assert_eq!(word_bytes(0), [0, 0, 0, 0]);
    assert_eq!(word_bytes(0x12345678), [0x78, 0x56, 0x34, 0x12]);
    assert_eq!(word_bytes(u32::MAX), [255, 255, 255, 255]);
    assert_eq!(word_bytes(0x12345678), 0x12345678u32.to_le_bytes());
    let mut buffer = vec![7u8];
    push_word(&mut buffer, 256);
    assert_eq!(buffer, vec![7, 0, 1, 0, 0]);
}

#[test]
fn padding_adds_zeros_up_to_the_length() {
    let mut buffer = vec![1u8, 2];
    pad_to(&mut buffer, 5);
    assert_eq!(buffer, vec![1, 2, 0, 0, 0]);
    pad_to(&mut buffer, 3);
    assert_eq!(buffer, vec![1, 2, 0, 0, 0]);
}

#[test]
fn entity_detail_defaults_to_its_color() {
    let plain = Entity::new([0, 0], [0, 0], [1, 1], u32::MAX, None);
    assert_eq!(plain.color(), u32::MAX);
    assert_eq!(plain.detail(), u32::MAX);
    let detailed = Entity::new([1, 2], [3, 4], [5, 6], 7, Some(8));
    assert_eq!(detailed.position(), [1, 2]);
    assert_eq!(detailed.atlas_position(), [3, 4]);
    assert_eq!(detailed.size(), [5, 6]);
    assert_eq!(detailed.color(), 7);
    assert_eq!(detailed.detail(), 8);
}

#[test]
fn entity_layout_is_eight_words_and_padding() {
    let x = 1.5f32.to_bits();
    let y = (-2.0f32).to_bits();
    let entity = Entity::new([x, y], [3, 4], [1, 2], 0xaabbccdd, None);
    let bytes = entity.to_bytes();
    assert_eq!(bytes.len(), ENTITY_STRIDE);
    assert_eq!(&bytes[0..4], &1.5f32.to_le_bytes());
    assert_eq!(&bytes[4..8], &(-2.0f32).to_le_bytes());
    assert_eq!(&bytes[8..12], &[3, 0, 0, 0]);
    assert_eq!(&bytes[12..16], &[4, 0, 0, 0]);
    assert_eq!(&bytes[16..20], &[1, 0, 0, 0]);
    assert_eq!(&bytes[20..24], &[2, 0, 0, 0]);
    assert_eq!(&bytes[24..28], &[0xdd, 0xcc, 0xbb, 0xaa]);
    assert_eq!(&bytes[28..32], &[0xdd, 0xcc, 0xbb, 0xaa]);
    assert!(bytes[32..].iter().all(|&b| b == 0));
}

#[test]
fn light_layout_is_twelve_bytes_and_padding() {
    let light = Light::new([0.5f32.to_bits(), 1.0f32.to_bits()], [255, 128, 1], 200);
    assert_eq!(light.position(), [0x3f000000, 0x3f800000]);
    assert_eq!(light.color(), [255, 128, 1]);
    assert_eq!(light.magnitude(), 200);
    let bytes = light.to_bytes();
    assert_eq!(bytes.len(), LIGHT_STRIDE);
    assert_eq!(&bytes[0..4], &0.5f32.to_le_bytes());
    assert_eq!(&bytes[4..8], &1.0f32.to_le_bytes());
    assert_eq!(&bytes[8..12], &[255, 128, 1, 200]);
    assert!(bytes[12..].iter().all(|&b| b == 0));
}

#[test]
fn a_new_buffer_has_sixteen_free_slots() {
    let buffer = InstanceBuffer::new();
    assert_eq!(MIN_INSTANCE_COUNT, 16);
    assert_eq!(INSTANCE_STRIDE, 256);
    assert_eq!(buffer.capacity(), 16);
    assert_eq!(buffer.count(), 0);
    assert!(buffer.data().is_empty());
    assert_eq!(buffer.byte_size(), 4096);
}

#[test]
fn written_entities_lie_one_stride_apart() {
    let a = Entity::new([0, 0], [0, 0], [1, 1], 1, None);
    let b = Entity::new([0, 0], [1, 0], [1, 1], 2, Some(3));
    let mut buffer = InstanceBuffer::new();
    assert_eq!(buffer.write_entities(&[a, b]), Ok(()));
    assert_eq!(buffer.count(), 2);
    assert_eq!(buffer.offset(0), 0);
    assert_eq!(buffer.offset(1), 256);
    let data = buffer.data();
    assert_eq!(data.len(), 512);
    assert_eq!(&data[..256], &a.to_bytes()[..]);
    assert_eq!(&data[256..], &b.to_bytes()[..]);
    assert_eq!(buffer.write_entities(&[b]), Ok(()));
    assert_eq!(buffer.count(), 1);
    assert_eq!(buffer.data(), &b.to_bytes());
}

#[test]
fn a_full_buffer_is_accepted_and_one_more_is_rejected() {
    let entity = Entity::new([0, 0], [0, 0], [1, 1], 5, None);
    let mut buffer = InstanceBuffer::new();
    assert_eq!(buffer.write_entities(&vec![entity; 16]), Ok(()));
    assert_eq!(buffer.count(), 16);
    assert_eq!(buffer.offset(15), 15 * 256);
    let before = buffer.data().clone();
    let res = buffer.write_entities(&vec![entity; 17]);
    assert_eq!(res, Err(Error::InstanceOverflow { instances: 17, slots: 16 }));
    assert_eq!(buffer.count(), 16);
    assert_eq!(buffer.capacity(), 16);
    assert_eq!(buffer.data(), &before);
}

#[test]
fn too_many_lights_are_rejected_the_same_way() {
    let light = Light::new([0, 0], [1, 2, 3], 4);
    let mut buffer = InstanceBuffer::with_capacity(2);
    assert_eq!(buffer.write_lights(&[light, light]), Ok(()));
    let res = buffer.write_lights(&[light, light, light]);
    assert_eq!(res, Err(Error::InstanceOverflow { instances: 3, slots: 2 }));
    assert_eq!(buffer.count(), 2);
}

#[test]
fn growing_is_an_explicit_step() {
    let light = Light::new([0, 0], [1, 2, 3], 4);
    let mut buffer = InstanceBuffer::new();
    assert!(buffer.write_lights(&vec![light; 20]).is_err());
    assert!(buffer.reallocate(32));
    assert_eq!(buffer.capacity(), 32);
    assert_eq!(buffer.count(), 0);
    assert_eq!(buffer.write_lights(&vec![light; 20]), Ok(()));
    assert_eq!(buffer.count(), 20);
    assert!(!buffer.reallocate(MAX_INSTANCE_COUNT + 1));
    assert_eq!(buffer.capacity(), 32);
    assert_eq!(buffer.count(), 20);
    assert_eq!(InstanceBuffer::with_capacity(u32::MAX).capacity(), MAX_INSTANCE_COUNT);
}

#[test]
fn equal_lights_are_both_written() {
    let light = Light::new([0.25f32.to_bits(), 0.75f32.to_bits()], [255, 255, 255], 255);
    let mut buffer = InstanceBuffer::new();
    assert_eq!(buffer.write_lights(&[light, light]), Ok(()));
    assert_eq!(buffer.count(), 2);
    let data = buffer.data();
    assert_eq!(data.len(), 512);
    assert_eq!(&data[..256], &data[256..]);
    assert_eq!(&data[..256], &light.to_bytes()[..]);
    assert_ne!(buffer.offset(0), buffer.offset(1));
}
