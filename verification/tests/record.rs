use escrow::error::EscrowError;
use escrow::pubkey::Pubkey;
use escrow::state::{Escrow, ESCROW_LEN};

fn sample() -> Escrow {
    Escrow {
        is_initialized: true,
        initializer_pubkey: Pubkey::new_from_array([1; 32]),
        temp_token_account_pubkey: Pubkey::new_from_array([2; 32]),
        initializer_token_to_receive_account_pubkey: Pubkey::new_from_array([3; 32]),
        expected_amount: 0x0102_0304_0506_0708,
    }
}

#[test]
fn record_has_105_bytes() {
    assert_eq!(ESCROW_LEN, 105);
    assert_eq!(sample().to_bytes().len(), 105);
}

#[test]
fn record_layout() {
    let bytes = sample().to_bytes();
    assert_eq!(bytes[0], 1);
    assert_eq!(&bytes[1..33], &[1u8; 32]);
    assert_eq!(&bytes[33..65], &[2u8; 32]);
    assert_eq!(&bytes[65..97], &[3u8; 32]);
    assert_eq!(&bytes[97..105], &[8u8, 7, 6, 5, 4, 3, 2, 1]);
}

#[test]
fn record_roundtrip() {
    for is_initialized in [false, true] {
        for expected_amount in [0u64, 50, u64::MAX] {
            let record = Escrow { is_initialized, expected_amount, ..sample() };
            assert_eq!(Escrow::unpack_unchecked(&record.to_bytes()), Ok(record));
            assert_eq!(record.is_initialized(), is_initialized);
        }
    }
}

#[test]
fn buffer_roundtrip() {
    let mut buffer = vec![0u8; 105];
    for (i, byte) in buffer.iter_mut().enumerate() {
        *byte = (i as u8).wrapping_mul(37);
    }
    buffer[0] = 1;
    let record = Escrow::unpack_unchecked(&buffer).unwrap();
    assert_eq!(record.to_bytes(), buffer);
}

#[test]
fn zeroed_buffer_is_an_uninitialized_record() {
    let record = Escrow::unpack_unchecked(&[0u8; 105]).unwrap();
    assert!(!record.is_initialized());
    assert_eq!(record.expected_amount, 0);
    assert_eq!(record.initializer_pubkey, Pubkey::new_from_array([0; 32]));
}

#[test]
fn unpack_refuses_other_sizes() {
    for len in [0usize, 1, 104, 106, 165] {
        assert_eq!(
            Escrow::unpack_unchecked(&vec![0u8; len]),
            Err(EscrowError::InvalidAccountData)
        );
    }
}

#[test]
fn unpack_refuses_flag_that_is_no_boolean() {
    let mut buffer = sample().to_bytes();
    buffer[0] = 2;
    assert_eq!(Escrow::unpack_unchecked(&buffer), Err(EscrowError::InvalidAccountData));
    buffer[0] = 255;
    assert_eq!(Escrow::unpack_unchecked(&buffer), Err(EscrowError::InvalidAccountData));
}

#[test]
fn pack_overwrites_a_buffer_of_the_right_size() {
    let mut buffer = vec![9u8; 105];
    assert_eq!(Escrow::pack(sample(), &mut buffer), Ok(()));
    assert_eq!(buffer, sample().to_bytes());
}

#[test]
fn pack_refuses_a_buffer_of_another_size() {
    for len in [0usize, 104, 106] {
        let mut buffer = vec![9u8; len];
        assert_eq!(Escrow::pack(sample(), &mut buffer), Err(EscrowError::InvalidAccountData));
        assert_eq!(buffer, vec![9u8; len]);
    }
}
