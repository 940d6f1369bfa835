use zk_payroll::crypto::poseidon_commitment;
use zk_payroll::enrollment::enrollment_from_blinding;
use zk_payroll::enrollment::prepare_enrollment;

#[test]
fn an_enrollment_spells_its_secrets_in_hexadecimal() {
    let mut blinding = [0u8; 32];
    blinding[0] = 2;
    blinding[31] = 0x1f;
    let enrollment = enrollment_from_blinding(1, &blinding);
    assert_eq!(enrollment.blinding_hex, format!("02{}1f", "00".repeat(30)));
    assert_eq!(enrollment.commitment_hex, hex::encode(poseidon_commitment(1, &blinding).unwrap()));

    let mut two = [0u8; 32];
    two[0] = 2;
    assert_eq!(
        enrollment_from_blinding(1, &two).commitment_hex,
        "9a1817447a60199e51453274f217362acfe962966b4cf63d4190d6e7f5c05c11"
    );
}

#[test]
fn a_fresh_enrollment_commits_to_the_salary_under_its_blinding_factor() {
    let enrollment = prepare_enrollment(5_000_000).unwrap();
    assert_eq!(enrollment.blinding_hex.len(), 64);
    assert_eq!(enrollment.commitment_hex.len(), 64);
    let bytes = hex::decode(&enrollment.blinding_hex).unwrap();
    let blinding: [u8; 32] = bytes.try_into().unwrap();
    assert_eq!(
        enrollment.commitment_hex,
        hex::encode(poseidon_commitment(5_000_000, &blinding).unwrap())
    );
    assert_ne!(prepare_enrollment(5_000_000).unwrap(), enrollment);
}
