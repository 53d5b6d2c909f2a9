//! Salt construction and round-trip behaviour.

use core::hash::Hasher;
use std::collections::hash_map::DefaultHasher;

use bcrypt_core::Salt;

#[test]
fn salt_round_trip() {
	for i in 0..2048 {
		let mut bytes = [0_u8; 16];

		let mut s = DefaultHasher::new();
		s.write_u32(i);
		bytes[0..8].copy_from_slice(&s.finish().to_ne_bytes());
		s.write_u32(i);
		bytes[8..16].copy_from_slice(&s.finish().to_ne_bytes());

		assert_eq!(Salt::from_bytes(&bytes).to_bytes(), bytes);
	}
}

#[test]
fn salt_round_trip_fixed_patterns() {
	let ascending: [u8; 16] = [
		0x00, 0x01, 0x02, 0x03, 0x04, 0x05, 0x06, 0x07, 0x08, 0x09, 0x0a, 0x0b, 0x0c, 0x0d,
		0x0e, 0x0f,
	];
	assert_eq!(Salt::from_bytes(&ascending).to_bytes(), ascending);
	assert_eq!(Salt::from_bytes(&[0; 16]).to_bytes(), [0; 16]);
	assert_eq!(Salt::from_bytes(&[0xff; 16]).to_bytes(), [0xff; 16]);
}
