use faucet_codec::error::FaucetError;
use faucet_codec::instruction::{FaucetInstruction, Pubkey};

#[test]
fn test_instruction_unpacking() {
    // 1 tag, 1 admin, 8 amount
    let check = FaucetInstruction::unpack(&[0, 0, 7, 0, 0, 0, 0, 0, 0, 0]).unwrap();
    assert_eq!(
        FaucetInstruction::InitFaucet {
            admin: None,
            amount: 7
        },
        check
    );

    // 1 tag, 33 admin, 8 amount
    let check = FaucetInstruction::unpack(&[
        0, 1, 1, 1, 1, 1, 1, 1, 1, 1, 1, 1, 1, 1, 1, 1, 1, 1, 1, 1, 1, 1, 1, 1, 1, 1, 1, 1, 1,
        1, 1, 1, 1, 1, 7, 3, 0, 0, 0, 0, 0, 0,
    ])
    .unwrap();
    assert_eq!(
        FaucetInstruction::InitFaucet {
            admin: Some(Pubkey::new(&[1u8; 32])),
            amount: 775
        },
        check
    );

    // 1 tag,  8 amount
    let check = FaucetInstruction::unpack(&[1, 7, 3, 0, 0, 0, 0, 0, 0]).unwrap();
    assert_eq!(FaucetInstruction::MintTokens { amount: 775 }, check);

    // 1 tag
    let check = FaucetInstruction::unpack(&[2]).unwrap();
    assert_eq!(FaucetInstruction::CloseFaucet, check);
}

#[test]
fn test_instruction_packing() {
    let check = FaucetInstruction::InitFaucet {
        admin: None,
        amount: 900,
    };

    let packed = check.pack();
    let mut expect = vec![0, 0];
    expect.extend_from_slice(&u64::to_le_bytes(900));
    assert_eq!(packed, expect);

    let check = FaucetInstruction::InitFaucet {
        admin: Some(Pubkey::new(&[1u8; 32])),
        amount: 900,
    };

    let packed = check.pack();
    let mut expect = vec![0, 1];
    expect.extend_from_slice(&[1u8; 32]);
    expect.extend_from_slice(&u64::to_le_bytes(900));
    assert_eq!(packed, expect);

    let check = FaucetInstruction::MintTokens { amount: 900 };

    let packed = check.pack();
    let mut expect = vec![1];
    expect.extend_from_slice(&u64::to_le_bytes(900));
    assert_eq!(packed, expect);

    let check = FaucetInstruction::CloseFaucet;

    let packed = check.pack();
    assert_eq!(packed, vec![2]);
}

#[test]
fn mint_tokens_packs_to_exact_bytes() {
    // 900 = 0x0384 little-endian
    let packed = FaucetInstruction::MintTokens { amount: 900 }.pack();
    assert_eq!(packed, vec![1, 132, 3, 0, 0, 0, 0, 0, 0]);
}

#[test]
fn mint_tokens_unpacks_from_exact_bytes() {
    // 0x0307 little-endian = 775
    let check = FaucetInstruction::unpack(&[1, 7, 3, 0, 0, 0, 0, 0, 0]).unwrap();
    assert_eq!(FaucetInstruction::MintTokens { amount: 775 }, check);
}

#[test]
fn init_faucet_without_admin_unpacks() {
    let check = FaucetInstruction::unpack(&[0, 0, 7, 0, 0, 0, 0, 0, 0, 0]).unwrap();
    assert_eq!(
        FaucetInstruction::InitFaucet {
            admin: None,
            amount: 7
        },
        check
    );
}

#[test]
fn empty_input_is_rejected() {
    let check = FaucetInstruction::unpack(&[]);
    assert_eq!(check, Err(FaucetError::InvalidInstruction));
}

#[test]
fn unknown_tags_are_rejected() {
    assert_eq!(
        FaucetInstruction::unpack(&[3]),
        Err(FaucetError::InvalidInstruction)
    );
    assert_eq!(
        FaucetInstruction::unpack(&[255, 7, 3, 0, 0, 0, 0, 0, 0]),
        Err(FaucetError::InvalidInstruction)
    );
}

#[test]
fn close_faucet_tolerates_trailing_bytes() {
    let check = FaucetInstruction::unpack(&[2, 9, 9, 9]).unwrap();
    assert_eq!(FaucetInstruction::CloseFaucet, check);
}

#[test]
fn invalid_admin_discriminant_is_rejected() {
    assert_eq!(
        FaucetInstruction::unpack(&[0, 2]),
        Err(FaucetError::InvalidInstruction)
    );
    assert_eq!(
        FaucetInstruction::unpack(&[0, 2, 7, 0, 0, 0, 0, 0, 0, 0]),
        Err(FaucetError::InvalidInstruction)
    );
}

#[test]
fn truncated_inputs_are_rejected() {
    // MintTokens with only 7 amount bytes.
    assert_eq!(
        FaucetInstruction::unpack(&[1, 7, 3, 0, 0, 0, 0, 0]),
        Err(FaucetError::InvalidInstruction)
    );
    // InitFaucet with no optional-key field at all.
    assert_eq!(
        FaucetInstruction::unpack(&[0]),
        Err(FaucetError::InvalidInstruction)
    );
    // InitFaucet without admin, amount cut short.
    assert_eq!(
        FaucetInstruction::unpack(&[0, 0, 7, 3]),
        Err(FaucetError::InvalidInstruction)
    );
    // InitFaucet with a present admin but only 31 key bytes.
    let mut bytes = vec![0, 1];
    bytes.extend_from_slice(&[1u8; 31]);
    assert_eq!(
        FaucetInstruction::unpack(&bytes),
        Err(FaucetError::InvalidInstruction)
    );
    // InitFaucet with a full key but a truncated amount.
    let mut bytes = vec![0, 1];
    bytes.extend_from_slice(&[1u8; 32]);
    bytes.extend_from_slice(&[7, 3, 0]);
    assert_eq!(
        FaucetInstruction::unpack(&bytes),
        Err(FaucetError::InvalidInstruction)
    );
}

#[test]
fn round_trip_every_variant() {
    let commands = vec![
        FaucetInstruction::InitFaucet {
            admin: None,
            amount: 0,
        },
        FaucetInstruction::InitFaucet {
            admin: Some(Pubkey::new(&[42u8; 32])),
            amount: u64::MAX,
        },
        FaucetInstruction::MintTokens { amount: 900 },
        FaucetInstruction::CloseFaucet,
    ];
    for command in commands {
        let packed = command.pack();
        let unpacked = FaucetInstruction::unpack(&packed).unwrap();
        assert_eq!(command, unpacked);
    }
}

#[test]
fn pubkey_keeps_its_bytes() {
    let key = Pubkey::new(&[7u8; 32]);
    assert_eq!(key.to_bytes(), vec![7u8; 32]);
    assert_eq!(key.clone(), key);
}
