use base64::Engine;
use solana_sdk::hash::Hash as Blockhash;
use solana_sdk::instruction::AccountMeta;
use solana_sdk::instruction::Instruction;
use solana_sdk::pubkey::Pubkey;
use solana_sdk::signature::Keypair;
use solana_sdk::signer::Signer;
use solana_trading_sdk::errors::TradingEndpointError;
use solana_trading_sdk::transaction::build_legacy_transaction;
use solana_trading_sdk::transaction::build_transaction;
use solana_trading_sdk::transaction::collect_signers;
use solana_trading_sdk::transaction::sign_legacy_transaction;
use solana_trading_sdk::transaction::sign_transaction;
use solana_trading_sdk::transaction::FormatBase64VersionedTransaction;
use solana_trading_sdk::transaction::Transaction;

fn transfer(from: &Pubkey, lamports: u64) -> Instruction {
    solana_sdk::system_instruction::transfer(from, &Pubkey::new_unique(), lamports)
}

#[test]
fn a_legacy_transaction_is_signed_by_the_payer() {
    let payer = Keypair::new();
    let blockhash = Blockhash::new_unique();
    let ixs = vec![transfer(&payer.pubkey(), 10), transfer(&payer.pubkey(), 20)];
    let tx = build_legacy_transaction(&payer, ixs.clone(), blockhash, None).unwrap();
    let first = tx.signature().unwrap();
    match tx {
        Transaction::Legacy(inner) => {
            assert_eq!(inner.signatures.len(), 1);
            assert_eq!(inner.signatures[0], first);
            assert_eq!(inner.message.recent_blockhash, blockhash);
            assert_eq!(inner.message.account_keys[0], payer.pubkey());
            assert_eq!(inner.message.instructions.len(), 2);
            assert!(inner.verify().is_ok());
            let mut expected = solana_sdk::transaction::Transaction::new_unsigned(
                solana_sdk::message::Message::new(&ixs, Some(&payer.pubkey())),
            );
            expected.sign(&[&payer], blockhash);
            assert_eq!(inner, expected);
        }
        Transaction::Versioned(_) => panic!("legacy expected"),
    }
}

#[test]
fn a_versioned_transaction_is_signed_by_the_payer() {
    let payer = Keypair::new();
    let blockhash = Blockhash::new_unique();
    let ixs = vec![transfer(&payer.pubkey(), 10)];
    let tx = build_transaction(&payer, ixs.clone(), blockhash, None).unwrap();
    let first = tx.signature().unwrap();
    match tx {
        Transaction::Versioned(inner) => {
            assert_eq!(inner.signatures, vec![first]);
            assert_eq!(*inner.message.recent_blockhash(), blockhash);
            assert_eq!(inner.message.static_account_keys()[0], payer.pubkey());
            assert_eq!(inner.message.instructions().len(), 1);
            assert!(inner.verify_with_results().iter().all(|ok| *ok));
            let message = solana_sdk::message::v0::Message::try_compile(
                &payer.pubkey(),
                &ixs,
                &[],
                blockhash,
            )
            .unwrap();
            let expected = solana_sdk::transaction::VersionedTransaction::try_new(
                solana_sdk::message::VersionedMessage::V0(message),
                &[&payer],
            )
            .unwrap();
            assert_eq!(inner, expected);
        }
        Transaction::Legacy(_) => panic!("versioned expected"),
    }
}

#[test]
fn other_signers_sign_after_the_payer() {
    let payer = Keypair::new();
    let mint = Keypair::new();
    let blockhash = Blockhash::new_unique();
    let ix = Instruction::new_with_bytes(
        Pubkey::new_unique(),
        &[1],
        vec![AccountMeta::new(mint.pubkey(), true), AccountMeta::new(payer.pubkey(), true)],
    );
    let legacy =
        build_legacy_transaction(&payer, vec![ix.clone()], blockhash, Some(vec![&mint])).unwrap();
    match legacy {
        Transaction::Legacy(inner) => {
            assert_eq!(inner.signatures.len(), 2);
            assert!(inner.verify().is_ok());
        }
        Transaction::Versioned(_) => panic!("legacy expected"),
    }
    let versioned = build_transaction(&payer, vec![ix], blockhash, Some(vec![&mint])).unwrap();
    match versioned {
        Transaction::Versioned(inner) => {
            assert_eq!(inner.signatures.len(), 2);
            assert!(inner.verify_with_results().iter().all(|ok| *ok));
        }
        Transaction::Legacy(_) => panic!("versioned expected"),
    }
    let signers = collect_signers(&payer, Some(vec![&mint]));
    assert_eq!(signers.len(), 2);
    assert_eq!(signers[0].pubkey(), payer.pubkey());
    assert_eq!(signers[1].pubkey(), mint.pubkey());
    assert_eq!(collect_signers(&payer, None).len(), 1);
    assert_eq!(collect_signers(&payer, Some(vec![])).len(), 1);
}

#[test]
fn a_missing_signer_is_a_signing_error() {
    let payer = Keypair::new();
    let absent = Keypair::new();
    let ix = Instruction::new_with_bytes(
        Pubkey::new_unique(),
        &[1],
        vec![AccountMeta::new(absent.pubkey(), true)],
    );
    assert!(matches!(
        build_legacy_transaction(&payer, vec![ix.clone()], Blockhash::new_unique(), None),
        Err(TradingEndpointError::SigningError(_))
    ));
    assert!(matches!(
        build_transaction(&payer, vec![ix], Blockhash::new_unique(), None),
        Err(TradingEndpointError::SigningError(_))
    ));
}

#[test]
fn a_stranger_among_the_signers_is_a_signing_error() {
    let payer = Keypair::new();
    let stranger = Keypair::new();
    let ixs = vec![transfer(&payer.pubkey(), 1)];
    assert!(matches!(
        build_legacy_transaction(&payer, ixs.clone(), Blockhash::new_unique(), Some(vec![&stranger])),
        Err(TradingEndpointError::SigningError(_))
    ));
    assert!(matches!(
        build_transaction(&payer, ixs, Blockhash::new_unique(), Some(vec![&stranger])),
        Err(TradingEndpointError::SigningError(_))
    ));
}

#[test]
fn too_many_accounts_are_a_signing_error() {
    let payer = Keypair::new();
    let metas: Vec<AccountMeta> =
        (0..300).map(|_| AccountMeta::new_readonly(Pubkey::new_unique(), false)).collect();
    let ix = Instruction::new_with_bytes(Pubkey::new_unique(), &[1], metas);
    assert!(matches!(
        build_legacy_transaction(&payer, vec![ix.clone()], Blockhash::new_unique(), None),
        Err(TradingEndpointError::SigningError(_))
    ));
    assert!(matches!(
        build_transaction(&payer, vec![ix], Blockhash::new_unique(), None),
        Err(TradingEndpointError::SigningError(_))
    ));
}

#[test]
fn the_legacy_limit_counts_different_accounts() {
    let payer = Keypair::new();
    let program = Pubkey::new_unique();
    // payer + program + 253 accounts = 255 different accounts
    let fits = Instruction::new_with_bytes(
        program,
        &[1],
        (0..253).map(|_| AccountMeta::new_readonly(Pubkey::new_unique(), false)).collect(),
    );
    let signed = build_legacy_transaction(&payer, vec![fits], Blockhash::new_unique(), None).unwrap();
    match signed {
        Transaction::Legacy(inner) => {
            assert_eq!(inner.message.account_keys.len(), 255);
            assert!(inner.verify().is_ok());
        }
        Transaction::Versioned(_) => panic!("legacy expected"),
    }
    let over = Instruction::new_with_bytes(
        program,
        &[1],
        (0..254).map(|_| AccountMeta::new_readonly(Pubkey::new_unique(), false)).collect(),
    );
    assert!(matches!(
        build_legacy_transaction(&payer, vec![over], Blockhash::new_unique(), None),
        Err(TradingEndpointError::SigningError(_))
    ));
}

#[test]
fn an_account_named_many_times_counts_once() {
    let payer = Keypair::new();
    let program = Pubkey::new_unique();
    let one = Pubkey::new_unique();
    let many: Vec<Instruction> = (0..3)
        .map(|_| {
            Instruction::new_with_bytes(
                program,
                &[1],
                (0..200).map(|_| AccountMeta::new_readonly(one, false)).collect(),
            )
        })
        .collect();
    let blockhash = Blockhash::new_unique();
    let signed = build_legacy_transaction(&payer, many.clone(), blockhash, None).unwrap();
    match signed {
        Transaction::Legacy(inner) => {
            assert_eq!(inner.message.account_keys.len(), 3);
            assert_eq!(inner.message.account_keys[0], payer.pubkey());
            assert!(inner.message.account_keys.contains(&one));
            assert!(inner.message.account_keys.contains(&program));
            assert_eq!(inner.message.instructions.len(), 3);
            assert_eq!(inner.message.instructions[0].accounts.len(), 200);
            let mut expected = solana_sdk::transaction::Transaction::new_unsigned(
                solana_sdk::message::Message::new(&many, Some(&payer.pubkey())),
            );
            expected.sign(&[&payer], blockhash);
            assert_eq!(inner, expected);
        }
        Transaction::Versioned(_) => panic!("legacy expected"),
    }
    // the payer named as an account is no further account
    let own = Instruction::new_with_bytes(
        payer.pubkey(),
        &[1],
        vec![AccountMeta::new(payer.pubkey(), true)],
    );
    let signed = build_legacy_transaction(&payer, vec![own], blockhash, None).unwrap();
    match signed {
        Transaction::Legacy(inner) => assert_eq!(inner.message.account_keys, vec![payer.pubkey()]),
        Transaction::Versioned(_) => panic!("legacy expected"),
    }
}

#[test]
fn a_list_of_accounts_beyond_the_length_prefix_is_a_signing_error() {
    let payer = Keypair::new();
    let one = Pubkey::new_unique();
    let wide = Instruction::new_with_bytes(
        Pubkey::new_unique(),
        &[1],
        (0..65_536).map(|_| AccountMeta::new_readonly(one, false)).collect(),
    );
    assert!(matches!(
        build_legacy_transaction(&payer, vec![wide.clone()], Blockhash::new_unique(), None),
        Err(TradingEndpointError::SigningError(_))
    ));
    assert!(matches!(
        build_transaction(&payer, vec![wide], Blockhash::new_unique(), None),
        Err(TradingEndpointError::SigningError(_))
    ));
}

#[test]
fn data_beyond_the_length_prefix_is_a_signing_error() {
    let payer = Keypair::new();
    let long = Instruction::new_with_bytes(Pubkey::new_unique(), &vec![0u8; 65_536], vec![]);
    assert!(matches!(
        build_legacy_transaction(&payer, vec![long.clone()], Blockhash::new_unique(), None),
        Err(TradingEndpointError::SigningError(_))
    ));
    assert!(matches!(
        build_transaction(&payer, vec![long], Blockhash::new_unique(), None),
        Err(TradingEndpointError::SigningError(_))
    ));
    let fits = Instruction::new_with_bytes(Pubkey::new_unique(), &vec![0u8; 65_535], vec![]);
    assert!(build_legacy_transaction(&payer, vec![fits.clone()], Blockhash::new_unique(), None).is_ok());
    assert!(build_transaction(&payer, vec![fits], Blockhash::new_unique(), None).is_ok());
}

#[test]
fn a_transaction_without_instructions_can_be_signed() {
    let payer = Keypair::new();
    let legacy = build_legacy_transaction(&payer, vec![], Blockhash::new_unique(), None).unwrap();
    assert!(legacy.signature().is_some());
    let versioned = build_transaction(&payer, vec![], Blockhash::new_unique(), None).unwrap();
    assert!(versioned.signature().is_some());
}

#[test]
fn signing_with_collected_signers_matches_building() {
    let payer = Keypair::new();
    let blockhash = Blockhash::new_unique();
    let ixs = vec![transfer(&payer.pubkey(), 3)];
    let signers = collect_signers(&payer, None);
    let a = sign_legacy_transaction(&payer, ixs.clone(), blockhash, &signers).unwrap();
    let b = build_legacy_transaction(&payer, ixs.clone(), blockhash, None).unwrap();
    assert_eq!(a.signature(), b.signature());
    let c = sign_transaction(&payer, ixs.clone(), blockhash, &signers).unwrap();
    let d = build_transaction(&payer, ixs, blockhash, None).unwrap();
    assert_eq!(c.signature(), d.signature());
    assert_ne!(a.signature(), c.signature());
}

#[test]
fn base64_text_is_the_wire_format() {
    let payer = Keypair::new();
    let ixs = vec![transfer(&payer.pubkey(), 10)];
    let legacy = build_legacy_transaction(&payer, ixs.clone(), Blockhash::new_unique(), None).unwrap();
    let text = legacy.to_base64_string().unwrap();
    let bytes = base64::engine::general_purpose::STANDARD.decode(&text).unwrap();
    match &legacy {
        Transaction::Legacy(inner) => {
            assert_eq!(bytes, bincode::serialize(inner).unwrap());
            assert_eq!(inner.to_base64_string().unwrap(), text);
            let back: solana_sdk::transaction::Transaction = bincode::deserialize(&bytes).unwrap();
            assert_eq!(&back, inner);
        }
        Transaction::Versioned(_) => panic!("legacy expected"),
    }
    let versioned = build_transaction(&payer, ixs, Blockhash::new_unique(), None).unwrap();
    let text = versioned.to_base64_string().unwrap();
    let bytes = base64::engine::general_purpose::STANDARD.decode(&text).unwrap();
    match &versioned {
        Transaction::Versioned(inner) => {
            assert_eq!(bytes, bincode::serialize(inner).unwrap());
            assert_eq!(inner.to_base64_string().unwrap(), text);
        }
        Transaction::Legacy(_) => panic!("versioned expected"),
    }
}

#[test]
fn an_unsigned_default_transaction_has_no_signature() {
    let empty = Transaction::Legacy(solana_sdk::transaction::Transaction::default());
    assert_eq!(empty.signature(), None);
    let empty = Transaction::Versioned(solana_sdk::transaction::VersionedTransaction::default());
    assert_eq!(empty.signature(), None);
}

#[test]
fn a_signing_error_says_why() {
    let payer = Keypair::new();
    let stranger = Keypair::new();
    let ixs = vec![transfer(&payer.pubkey(), 1)];
    match build_legacy_transaction(&payer, ixs.clone(), Blockhash::new_unique(), Some(vec![&stranger])) {
        Err(TradingEndpointError::SigningError(text)) => {
            assert_eq!(text, solana_sdk::signer::SignerError::KeypairPubkeyMismatch.to_string())
        }
        _ => panic!("signing error expected"),
    }
    match build_transaction(&payer, ixs, Blockhash::new_unique(), Some(vec![&stranger])) {
        Err(TradingEndpointError::SigningError(text)) => {
            assert_eq!(text, solana_sdk::signer::SignerError::TooManySigners.to_string())
        }
        _ => panic!("signing error expected"),
    }
    let metas: Vec<AccountMeta> =
        (0..300).map(|_| AccountMeta::new(Pubkey::new_unique(), false)).collect();
    let wide: Vec<Instruction> = metas
        .chunks(100)
        .map(|c| Instruction::new_with_bytes(Pubkey::new_unique(), &[1], c.to_vec()))
        .collect();
    match build_transaction(&payer, wide, Blockhash::new_unique(), None) {
        Err(TradingEndpointError::SigningError(text)) => {
            assert_eq!(text, solana_sdk::message::CompileError::AccountIndexOverflow.to_string())
        }
        _ => panic!("signing error expected"),
    }
}
