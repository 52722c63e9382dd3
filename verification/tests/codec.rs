use escrow::codec::{push_u64_le, read_u64_le};
use escrow::error::EscrowError;
use escrow::instruction::{EscrowInstruction, INSTRUCTION_LEN};
use escrow::pubkey::Pubkey;

#[test]
fn unpack_init_escrow() {
    let payload = [0u8, 50, 0, 0, 0, 0, 0, 0, 0];
    assert_eq!(
        EscrowInstruction::unpack(&payload),
        Ok(EscrowInstruction::InitEscrow { amount: 50 })
    );
}

#[test]
fn unpack_exchange() {
    let payload = [1u8, 0x08, 0x07, 0x06, 0x05, 0x04, 0x03, 0x02, 0x01];
    assert_eq!(
        EscrowInstruction::unpack(&payload),
        Ok(EscrowInstruction::Exchange { amount: 0x0102_0304_0506_0708 })
    );
}

#[test]
fn unpack_largest_amount() {
    let payload = [0u8, 255, 255, 255, 255, 255, 255, 255, 255];
    assert_eq!(
        EscrowInstruction::unpack(&payload),
        Ok(EscrowInstruction::InitEscrow { amount: u64::MAX })
    );
}

#[test]
fn unpack_rejects_unknown_tag() {
    for tag in 2..=255u8 {
        let payload = [tag, 50, 0, 0, 0, 0, 0, 0, 0];
        assert_eq!(EscrowInstruction::unpack(&payload), Err(EscrowError::InvalidInstruction));
    }
}

#[test]
fn unpack_rejects_truncated_payload() {
    let payload = [1u8, 50, 0, 0, 0, 0, 0, 0, 0];
    for len in 0..9 {
        assert_eq!(
            EscrowInstruction::unpack(&payload[..len]),
            Err(EscrowError::InvalidInstruction)
        );
    }
}

#[test]
fn unpack_rejects_trailing_bytes() {
    let payload = [1u8, 50, 0, 0, 0, 0, 0, 0, 0, 0];
    assert_eq!(EscrowInstruction::unpack(&payload), Err(EscrowError::InvalidInstruction));
}

#[test]
fn pack_gives_tag_and_little_endian_amount() {
    assert_eq!(
        EscrowInstruction::InitEscrow { amount: 100 }.pack(),
        vec![0u8, 100, 0, 0, 0, 0, 0, 0, 0]
    );
    assert_eq!(
        EscrowInstruction::Exchange { amount: 0x0102_0304_0506_0708 }.pack(),
        vec![1u8, 8, 7, 6, 5, 4, 3, 2, 1]
    );
    assert_eq!(EscrowInstruction::Exchange { amount: 1 }.pack().len(), INSTRUCTION_LEN);
}

#[test]
fn instruction_roundtrip() {
    for amount in [0u64, 1, 255, 256, 99, 1 << 32, u64::MAX - 1, u64::MAX] {
        for instruction in
            [EscrowInstruction::InitEscrow { amount }, EscrowInstruction::Exchange { amount }]
        {
            assert_eq!(EscrowInstruction::unpack(&instruction.pack()), Ok(instruction));
            assert_eq!(instruction.amount(), amount);
        }
    }
}

#[test]
fn payload_is_what_borsh_writes() {
    // An enum with one unsigned 64-bit field per variant: the index of the
    // variant in one byte, then the field.
    let amount: u64 = 0xdead_beef_0042;
    let mut expected = borsh::to_vec(&1u8).unwrap();
    expected.extend(borsh::to_vec(&amount).unwrap());
    assert_eq!(EscrowInstruction::Exchange { amount }.pack(), expected);
    let decoded: (u8, u64) = borsh::from_slice(&expected).unwrap();
    assert_eq!(decoded, (1, amount));
    // Like borsh, the codec refuses bytes that are left over.
    expected.push(0);
    assert!(borsh::from_slice::<(u8, u64)>(&expected).is_err());
    assert_eq!(EscrowInstruction::unpack(&expected), Err(EscrowError::InvalidInstruction));
}

#[test]
fn u64_little_endian_matches_std() {
    for x in [0u64, 1, 0x100, 0xffff, 0x0123_4567_89ab_cdef, u64::MAX] {
        let mut bytes = vec![7u8, 7];
        push_u64_le(&mut bytes, x);
        assert_eq!(&bytes[..2], &[7, 7]);
        assert_eq!(&bytes[2..], &x.to_le_bytes());
        assert_eq!(read_u64_le(&bytes, 2), x);
    }
}

#[test]
fn pubkey_reads_and_writes_its_bytes() {
    let mut source = vec![0u8; 40];
    for (i, byte) in source.iter_mut().enumerate() {
        *byte = i as u8;
    }
    let key = Pubkey::read_from(&source, 5);
    assert_eq!(&key.to_bytes()[..], &source[5..37]);
    let mut out = vec![9u8];
    key.push_to(&mut out);
    assert_eq!(out[0], 9);
    assert_eq!(&out[1..], &source[5..37]);
    assert_eq!(Pubkey::new_from_array(key.to_bytes()), key);
}

#[test]
fn pubkey_same_compares_all_bytes() {
    let a = Pubkey::new_from_array([3; 32]);
    let mut bytes = [3u8; 32];
    assert!(a.same(&Pubkey::new_from_array(bytes)));
    bytes[31] = 4;
    assert!(!a.same(&Pubkey::new_from_array(bytes)));
    bytes[31] = 3;
    bytes[0] = 4;
    assert!(!a.same(&Pubkey::new_from_array(bytes)));
}
