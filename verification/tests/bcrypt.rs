//! Known-answer tests and input validation for the bcrypt driver.

use bcrypt_core::bcrypt;
use bcrypt_core::BcryptError::{Length, ZeroByte};
use bcrypt_core::Salt;
use bcrypt_core::WorkFactor;

/// Canonical bcrypt test vectors: raw key bytes, log-rounds, the 16 salt
/// bytes, and the expected 23-byte raw hash. These are the classic vectors
/// shared by the OpenBSD-derived suites (they appear, base64-encoded, in the
/// pyca test set among others), spanning empty, ASCII and high-bit keys.
#[test]
fn pyca_test_vectors() {
	let test_vectors: [(&[u8], u32, &[u8; 16], &[u8; 23]); 12] = [
		(b"U*U", 5, &[0x10, 0x41, 0x04, 0x10, 0x41, 0x04, 0x10, 0x41, 0x04, 0x10, 0x41, 0x04, 0x10, 0x41, 0x04, 0x10], &[0x1b, 0xb6, 0x91, 0x43, 0xf9, 0xa8, 0xd3, 0x04, 0xc8, 0xd2, 0x3d, 0x99, 0xab, 0x04, 0x9a, 0x77, 0xa6, 0x8e, 0x2c, 0xcc, 0x74, 0x42, 0x06]),
		(b"U*U*", 5, &[0x10, 0x41, 0x04, 0x10, 0x41, 0x04, 0x10, 0x41, 0x04, 0x10, 0x41, 0x04, 0x10, 0x41, 0x04, 0x10], &[0x5c, 0x84, 0x35, 0x0b, 0xdf, 0xba, 0xa9, 0x6a, 0xc1, 0x6f, 0x61, 0x5a, 0xe7, 0x9f, 0x35, 0xcf, 0xda, 0xcd, 0x68, 0x2d, 0x36, 0x9f, 0x23]),
		(b"U*U*U", 5, &[0x65, 0x96, 0x59, 0x65, 0x96, 0x59, 0x65, 0x96, 0x59, 0x65, 0x96, 0x59, 0x65, 0x96, 0x59, 0x65], &[0x09, 0xe6, 0x73, 0xa3, 0xf9, 0xa5, 0x44, 0x81, 0x8e, 0xb8, 0xdd, 0x69, 0xa8, 0xcb, 0x28, 0xb3, 0x2f, 0x6f, 0x7b, 0xe6, 0x04, 0xcf, 0xa7]),
		(b"", 5, &[0x10, 0x41, 0x04, 0x10, 0x41, 0x04, 0x10, 0x41, 0x04, 0x10, 0x41, 0x04, 0x10, 0x41, 0x04, 0x10], &[0xf7, 0x02, 0x36, 0x5c, 0x4d, 0x4a, 0xe1, 0xd5, 0x3d, 0x97, 0xcd, 0x28, 0xb0, 0xb9, 0x3f, 0x11, 0xf7, 0x9f, 0xce, 0x44, 0xd5, 0x60, 0xfd]),
		(&[0xa3], 5, &[0x05, 0x03, 0x00, 0x85, 0xd5, 0xed, 0x4c, 0x17, 0x6b, 0x2a, 0xc3, 0xcb, 0xee, 0x47, 0x29, 0x1c], &[0x51, 0xcf, 0x6e, 0x8d, 0xda, 0x3a, 0x01, 0x0d, 0x4c, 0xaf, 0x11, 0xe9, 0x67, 0x7a, 0xd2, 0x36, 0x84, 0x98, 0xff, 0xca, 0x96, 0x9c, 0x4b]),
		(b"Kk4DQuMMfZL9o", 4, &[0x79, 0x76, 0x2b, 0xe9, 0x97, 0x0f, 0x5b, 0xe7, 0x3a, 0xc7, 0x7c, 0x0e, 0x4f, 0x0a, 0x38, 0x51], &[0xdb, 0x8f, 0x03, 0x60, 0xd2, 0xaa, 0x48, 0xe1, 0x41, 0x55, 0x98, 0xbb, 0xc1, 0xb5, 0xc0, 0xd9, 0x10, 0x30, 0x43, 0xea, 0x39, 0x68, 0x6a]),
		(b"xVQVbwa1S0M8r", 4, &[0x51, 0x28, 0x3f, 0x9a, 0x94, 0x35, 0x82, 0xb4, 0x17, 0x32, 0xa6, 0x99, 0xab, 0xfc, 0xd5, 0xbe], &[0x3d, 0xab, 0x7c, 0x38, 0x3c, 0x97, 0xd7, 0xab, 0xeb, 0xb6, 0x42, 0xd7, 0x83, 0x94, 0x4f, 0x89, 0xac, 0x21, 0x20, 0xab, 0xa2, 0x31, 0xe6]),
		(b"9IeRXmnGxMYbs", 4, &[0xad, 0x2f, 0x62, 0x4d, 0x0f, 0x60, 0xf3, 0x2c, 0xc1, 0xff, 0x9f, 0x2a, 0x66, 0x33, 0xe5, 0xb5], &[0x58, 0xf4, 0x09, 0x37, 0x71, 0x76, 0x8f, 0x73, 0xf8, 0x28, 0x57, 0x4b, 0x6d, 0xab, 0x80, 0xde, 0xba, 0xf5, 0x52, 0xa8, 0x7c, 0x51, 0x1d]),
		(b"a", 6, &[0xa3, 0x61, 0x2d, 0x8c, 0x9a, 0x37, 0xda, 0xc2, 0xf9, 0x9d, 0x94, 0xda, 0x03, 0xbd, 0x45, 0x21], &[0xe6, 0xd5, 0x38, 0x31, 0xf8, 0x20, 0x60, 0xdc, 0x08, 0xa2, 0xe8, 0x48, 0x9c, 0xe8, 0x50, 0xce, 0x48, 0xfb, 0xf9, 0x76, 0x97, 0x87, 0x38]),
		(b"abc", 6, &[0x2a, 0x1f, 0x1d, 0xc7, 0x0a, 0x3d, 0x14, 0x79, 0x56, 0xa4, 0x6f, 0xeb, 0xe3, 0x01, 0x60, 0x17], &[0xd9, 0xa2, 0x75, 0xb4, 0x93, 0xbc, 0xbe, 0x10, 0x24, 0xb0, 0xff, 0x80, 0xd3, 0x30, 0x25, 0x3c, 0xfd, 0xca, 0x34, 0x68, 0x7d, 0x8f, 0x69]),
		(b"abcdefghijklmnopqrstuvwxyz", 6, &[0x02, 0xd1, 0x17, 0x6d, 0x74, 0x15, 0x8e, 0xe2, 0x9c, 0xff, 0xda, 0xc6, 0x15, 0x0c, 0xf1, 0x23], &[0x4d, 0x38, 0xb5, 0x23, 0xce, 0x9d, 0xc6, 0xf2, 0xf6, 0xff, 0x9f, 0xb3, 0xc2, 0xcd, 0x71, 0xdf, 0xe7, 0xf9, 0x6e, 0xb4, 0xa3, 0xba, 0xf1]),
		(b"", 6, &[0x14, 0x4b, 0x3d, 0x69, 0x1a, 0x7b, 0x4e, 0xcf, 0x39, 0xcf, 0x73, 0x5c, 0x7f, 0xa7, 0xa7, 0x9c], &[0x55, 0x7e, 0x94, 0xf3, 0x4b, 0xf2, 0x86, 0xe8, 0x71, 0x9a, 0x26, 0xbe, 0x94, 0xac, 0x1e, 0x16, 0xd9, 0x5e, 0xf9, 0xf8, 0x19, 0xde, 0xe0]),
	];

	for &(key, log_rounds, salt, expected_hash) in &test_vectors {
		assert_eq!(
			bcrypt(key, &Salt::from_bytes(salt), WorkFactor::exp(log_rounds).unwrap()),
			Ok(*expected_hash)
		);
	}
}

#[test]
fn invalid_inputs() {
	let salt = Salt::from_bytes(&[0; 16]);
	let work_factor = WorkFactor::exp(4).unwrap();
	assert_eq!(bcrypt(&[1; 73], &salt, work_factor), Err(Length));
	assert_eq!(bcrypt(b"f\0o", &salt, work_factor), Err(ZeroByte));
}

#[test]
fn zero_length_key_succeeds() {
	let salt = Salt::from_bytes(&[7; 16]);
	let work_factor = WorkFactor::exp(4).unwrap();
	assert!(bcrypt(b"", &salt, work_factor).is_ok());
}

#[test]
fn boundary_key_lengths() {
	let salt = Salt::from_bytes(&[3; 16]);
	let work_factor = WorkFactor::exp(4).unwrap();
	assert!(bcrypt(&[0x41; 72], &salt, work_factor).is_ok());
	assert_eq!(bcrypt(&[0x41; 73], &salt, work_factor), Err(Length));
}

#[test]
fn length_reported_before_zero_byte() {
	let salt = Salt::from_bytes(&[3; 16]);
	let work_factor = WorkFactor::exp(4).unwrap();
	let mut key = [0x41; 73];
	key[10] = 0;
	assert_eq!(bcrypt(&key, &salt, work_factor), Err(Length));
}

#[test]
fn zero_byte_positions() {
	let salt = Salt::from_bytes(&[9; 16]);
	let work_factor = WorkFactor::exp(4).unwrap();
	assert_eq!(bcrypt(b"\0", &salt, work_factor), Err(ZeroByte));
	assert_eq!(bcrypt(b"a\0b", &salt, work_factor), Err(ZeroByte));
	assert_eq!(bcrypt(b"ab\0", &salt, work_factor), Err(ZeroByte));
}

#[test]
fn deterministic() {
	let salt = Salt::from_bytes(&[0x5a; 16]);
	let work_factor = WorkFactor::exp(4).unwrap();
	let first = bcrypt(b"same key", &salt, work_factor).unwrap();
	let second = bcrypt(b"same key", &Salt::from_bytes(&[0x5a; 16]), WorkFactor::exp(4).unwrap()).unwrap();
	assert_eq!(first, second);
}

/// Pins the behaviour at a higher work factor and at the exact 72-byte key
/// limit; the expected hashes were computed with a second, independent
/// implementation that reproduces the canonical vectors above.
#[test]
fn deeper_and_boundary_vectors() {
	let salt_a: [u8; 16] = [0x00, 0x01, 0x02, 0x03, 0x04, 0x05, 0x06, 0x07, 0x08, 0x09, 0x0a, 0x0b, 0x0c, 0x0d, 0x0e, 0x0f];
	let expected_a: [u8; 23] = [0x4a, 0x2f, 0x10, 0x3a, 0x01, 0x55, 0xd0, 0x72, 0x45, 0x32, 0xfd, 0x78, 0x34, 0xcd, 0x5f, 0x12, 0x9a, 0x52, 0x43, 0x60, 0xfa, 0xc5, 0x7f];
	assert_eq!(
		bcrypt(b"deep work factor", &Salt::from_bytes(&salt_a), WorkFactor::exp(8).unwrap()),
		Ok(expected_a)
	);

	let mut long_key = [0_u8; 72];
	for (i, b) in long_key.iter_mut().enumerate() {
		*b = 0x41 + (i % 26) as u8;
	}
	let salt_b: [u8; 16] = [0xf0, 0xef, 0xee, 0xed, 0xec, 0xeb, 0xea, 0xe9, 0xe8, 0xe7, 0xe6, 0xe5, 0xe4, 0xe3, 0xe2, 0xe1];
	let expected_b: [u8; 23] = [0xdb, 0x52, 0xd0, 0x51, 0x37, 0x19, 0xfd, 0x9b, 0x7b, 0xee, 0xd8, 0x18, 0x9b, 0x0e, 0x29, 0x3c, 0x00, 0xf7, 0x65, 0xa5, 0x2e, 0x30, 0x7c];
	assert_eq!(
		bcrypt(&long_key, &Salt::from_bytes(&salt_b), WorkFactor::exp(4).unwrap()),
		Ok(expected_b)
	);
}
