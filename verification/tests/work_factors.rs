//! Work-factor construction boundaries and round counts.

use bcrypt_core::WorkFactor;

#[test]
fn work_factors() {
	assert_eq!(WorkFactor::exp(3), None);
	assert_eq!(WorkFactor::exp(4).map(|f| f.log_rounds()), Some(4));
	assert_eq!(WorkFactor::exp(31).map(|f| f.linear_rounds()), Some(2147483648));
	assert_eq!(WorkFactor::exp(32), None);
}

#[test]
fn work_factor_rejects_outside_range() {
	assert_eq!(WorkFactor::exp(0), None);
	assert_eq!(WorkFactor::exp(2), None);
	assert_eq!(WorkFactor::exp(100), None);
	assert_eq!(WorkFactor::exp(u32::MAX), None);
	assert!(WorkFactor::exp(4).is_some());
	assert!(WorkFactor::exp(31).is_some());
}

#[test]
fn work_factor_linear_rounds_values() {
	assert_eq!(WorkFactor::exp(4).unwrap().linear_rounds(), 16);
	assert_eq!(WorkFactor::exp(5).unwrap().linear_rounds(), 32);
	assert_eq!(WorkFactor::exp(10).unwrap().linear_rounds(), 1024);
	assert_eq!(WorkFactor::exp(20).unwrap().linear_rounds(), 1048576);
}

#[test]
fn work_factor_log_rounds_values() {
	for c in 4..=31 {
		assert_eq!(WorkFactor::exp(c).unwrap().log_rounds(), c);
	}
}
