use jetcv_nft::accounts::{Context, MintAccounts, MintCv, MintNft, RecordSlot, Signatory, UpdateUri};
use jetcv_nft::address::Address;
use jetcv_nft::deriver::{
    find_identity_address, find_master_edition_address, find_metadata_address, find_token_account_address,
    IdentityKeying,
};
use jetcv_nft::errors::{CallKind, CustomError};
use jetcv_nft::flow::{rejected, Effects, Phase, Work};
use jetcv_nft::instruction::{checked, mint_credential, mint_cv, mint_nft, update_uri};
use jetcv_nft::plan::{Allocation, MintArgs, MintPlan};
use jetcv_nft::records::{IdentityRecord, MasterEditionRecord, UserData, UserPda};

fn key(byte: u8) -> Address {
    Address::new([byte; 32])
}

fn program_id() -> Address {
    key(200)
}

fn hash() -> [u8; 32] {
    let mut hash = [0u8; 32];
    hash[31] = 0x01;
    hash
}

fn token_account(wallet: u8, mint: u8) -> Address {
    find_token_account_address(&key(wallet), &key(mint)).unwrap().address
}

fn credential_args() -> MintArgs {
    MintArgs {
        name: String::from("Credential#1"),
        symbol: String::from("CV"),
        uri: String::from("https://x/1.json"),
        user_id_hash: hash(),
    }
}

fn credential_accounts(keying: IdentityKeying) -> MintAccounts {
    let mint = key(20);
    let recipient = key(30);
    let owning_key = match keying {
        IdentityKeying::ByWallet => recipient,
        IdentityKeying::ByMint => mint,
    };
    MintAccounts {
        payer: Signatory { address: key(10), is_signer: true },
        mint_authority: Signatory { address: key(11), is_signer: true },
        update_authority: Signatory { address: key(12), is_signer: true },
        mint,
        recipient_token_account: token_account(30, 20),
        recipient,
        metadata: find_metadata_address(&mint).unwrap().address,
        master_edition: find_master_edition_address(&mint).unwrap().address,
        identity_record: RecordSlot {
            address: find_identity_address(keying, &owning_key, &program_id()).unwrap().address,
            initialized: false, lamports: 0,
        },
    }
}

/// Runs an instruction as the runtime would: the check, then each call in
/// turn with the result the other program gives, then the return.
fn execute(
    decision: Result<MintPlan, CustomError>,
    mut answer: impl FnMut(CallKind) -> Result<(), u64>,
) -> (Phase, Vec<CallKind>, Effects) {
    let mut phase = Phase::Start.advance(checked(&decision));
    let mut calls = Vec::new();
    loop {
        match phase.due() {
            Work::Validate => unreachable!(),
            Work::Call(call) => {
                calls.push(call);
                phase = match answer(call) {
                    Ok(()) => phase.advance(Ok(())),
                    Err(code) => phase.advance(rejected(call, code)),
                };
            }
            Work::Commit => phase = phase.advance(Ok(())),
            Work::Nothing => break,
        }
    }
    let effects = match decision {
        Ok(plan) => phase.settle(plan),
        Err(_) => Effects { units_minted: 0, metadata: None, master_edition: None, identity: None },
    };
    (phase, calls, effects)
}

#[test]
fn credential_is_minted_and_bound() {
    let ctx = Context { program_id: program_id(), accounts: credential_accounts(IdentityKeying::ByMint) };
    let decision = mint_credential(&ctx, credential_args(), IdentityKeying::ByMint);
    let plan = decision.clone().unwrap();
    assert_eq!(plan.issue.amount, 1);
    assert_eq!(plan.issue.to, token_account(30, 20));
    assert_eq!(plan.identity.address, ctx.accounts.identity_record.address);
    assert_eq!(plan.identity.space, 72);

    let (phase, calls, effects) = execute(decision, |_| Ok(()));
    assert_eq!(phase, Phase::Committed);
    assert_eq!(
        calls,
        vec![CallKind::MintTo, CallKind::CreateMetadata, CallKind::CreateMasterEdition, CallKind::BindIdentity]
    );
    assert_eq!(effects.units_minted, 1);
    let metadata = effects.metadata.unwrap();
    assert_eq!(metadata.name, "Credential#1");
    assert_eq!(metadata.symbol, "CV");
    assert_eq!(metadata.uri, "https://x/1.json");
    assert_eq!(metadata.seller_fee_basis_points, 0);
    assert_eq!(metadata.creators, None);
    assert_eq!(effects.master_edition, Some(MasterEditionRecord { max_supply: Some(1) }));
    let identity = effects.identity.unwrap();
    assert_eq!(identity.hash(), hash());
    assert_eq!(identity, IdentityRecord::ByMint(UserData { mint: key(20), user_id_hash: hash() }));
}

#[test]
fn unrelated_metadata_address_fails_before_any_call() {
    let mut accounts = credential_accounts(IdentityKeying::ByMint);
    accounts.metadata = key(99);
    let ctx = Context { program_id: program_id(), accounts };
    let decision = mint_credential(&ctx, credential_args(), IdentityKeying::ByMint);
    assert_eq!(decision, Err(CustomError::WrongMetadataPda));

    let (phase, calls, effects) = execute(decision, |_| Ok(()));
    assert_eq!(phase, Phase::Aborted(CustomError::WrongMetadataPda));
    assert!(calls.is_empty());
    assert_eq!(effects.units_minted, 0);
    assert_eq!(effects, Effects { units_minted: 0, metadata: None, master_edition: None, identity: None });
}

#[test]
fn unrelated_master_edition_address_fails_before_any_call() {
    let mut accounts = credential_accounts(IdentityKeying::ByWallet);
    accounts.master_edition = key(99);
    let ctx = Context { program_id: program_id(), accounts };
    let decision = mint_credential(&ctx, credential_args(), IdentityKeying::ByWallet);
    assert_eq!(decision, Err(CustomError::WrongMasterEditionPda));
    let (phase, calls, effects) = execute(decision, |_| Ok(()));
    assert_eq!(phase, Phase::Aborted(CustomError::WrongMasterEditionPda));
    assert!(calls.is_empty());
    assert_eq!(effects.units_minted, 0);
}

#[test]
fn token_account_of_another_wallet_fails_before_any_call() {
    let mut accounts = credential_accounts(IdentityKeying::ByMint);
    accounts.recipient_token_account = token_account(31, 20);
    let ctx = Context { program_id: program_id(), accounts };
    let decision = mint_credential(&ctx, credential_args(), IdentityKeying::ByMint);
    assert_eq!(decision, Err(CustomError::WrongRecipientTokenAccount));
    let (phase, calls, effects) = execute(decision, |_| Ok(()));
    assert_eq!(phase, Phase::Aborted(CustomError::WrongRecipientTokenAccount));
    assert!(calls.is_empty());
    assert_eq!(effects.units_minted, 0);
}

#[test]
fn resubmission_after_commit_is_refused() {
    let keying = IdentityKeying::ByMint;
    let mut ctx = Context { program_id: program_id(), accounts: credential_accounts(keying) };
    let (phase, _, effects) = execute(mint_credential(&ctx, credential_args(), keying), |_| Ok(()));
    assert_eq!(phase, Phase::Committed);

    ctx.accounts.identity_record.initialized = effects.identity.is_some();
    let again = mint_credential(&ctx, credential_args(), keying);
    assert_eq!(again, Err(CustomError::IdentityAlreadyInitialized));
    let (phase, calls, effects) = execute(again, |_| Ok(()));
    assert_eq!(phase, Phase::Aborted(CustomError::IdentityAlreadyInitialized));
    assert!(calls.is_empty());
    assert_eq!(effects.units_minted, 0);
    assert_eq!(effects.identity, None);
}

fn wallet_keyed_accounts(record_stands: bool) -> MintNft {
    let owner = Signatory { address: key(30), is_signer: true };
    let mint = key(20);
    MintNft {
        owner,
        mint,
        owner_ata: token_account(30, 20),
        user_pda: RecordSlot {
            address: find_identity_address(IdentityKeying::ByWallet, &owner.address, &program_id()).unwrap().address,
            initialized: record_stands,
            lamports: if record_stands { 1_392_000 } else { 0 },
        },
        metadata: find_metadata_address(&mint).unwrap().address,
        master_edition: find_master_edition_address(&mint).unwrap().address,
    }
}

#[test]
fn mint_nft_for_a_wallet_with_a_record_rewrites_it() {
    let mut other_hash = [0u8; 32];
    other_hash[0] = 0xab;
    let first = mint_nft(
        Context { program_id: program_id(), accounts: wallet_keyed_accounts(false) },
        String::from("Credential#1"),
        String::from("CV"),
        String::from("https://x/1.json"),
        hash(),
    );
    assert_eq!(first.clone().unwrap().identity.allocation, Allocation::Create);
    let (phase, _, stood) = execute(first.clone(), |_| Ok(()));
    assert_eq!(phase, Phase::Committed);
    assert_eq!(stood.identity, Some(IdentityRecord::ByWallet(UserPda { user: key(30), user_id_hash: hash() })));

    let second = mint_nft(
        Context { program_id: program_id(), accounts: wallet_keyed_accounts(stood.identity.is_some()) },
        String::from("Credential#2"),
        String::from("CV"),
        String::from("https://x/2.json"),
        other_hash,
    );
    let plan = second.clone().unwrap();
    assert_eq!(plan.identity.allocation, Allocation::Keep);
    assert_eq!(plan.identity.record, IdentityRecord::ByWallet(UserPda { user: key(30), user_id_hash: other_hash }));
    assert_eq!(plan.identity.address, first.unwrap().identity.address);
    assert_eq!(plan.issue.amount, 1);

    let (phase, calls, effects) = execute(second, |_| Ok(()));
    assert_eq!(phase, Phase::Committed);
    assert_eq!(
        calls,
        vec![CallKind::MintTo, CallKind::CreateMetadata, CallKind::CreateMasterEdition, CallKind::BindIdentity]
    );
    assert_eq!(effects.units_minted, 1);
    assert_eq!(effects.identity, Some(IdentityRecord::ByWallet(UserPda { user: key(30), user_id_hash: other_hash })));
}

#[test]
fn mint_nft_again_with_the_same_hash_leaves_the_record_as_it_stood() {
    let submit = |record_stands: bool| {
        mint_nft(
            Context { program_id: program_id(), accounts: wallet_keyed_accounts(record_stands) },
            String::from("Credential#1"),
            String::from("CV"),
            String::from("https://x/1.json"),
            hash(),
        )
    };
    let (_, _, stood) = execute(submit(false), |_| Ok(()));
    let (phase, _, effects) = execute(submit(true), |_| Ok(()));
    assert_eq!(phase, Phase::Committed);
    assert_eq!(effects.identity, stood.identity);
}

#[test]
fn mint_cv_for_a_mint_with_a_record_is_refused() {
    let mint = key(20);
    let accounts = MintCv {
        payer: Signatory { address: key(10), is_signer: true },
        mint,
        mint_authority: Signatory { address: key(11), is_signer: true },
        owner_ata: token_account(30, 20),
        owner: key(30),
        metadata: find_metadata_address(&mint).unwrap().address,
        master_edition: find_master_edition_address(&mint).unwrap().address,
        user_data: RecordSlot {
            address: find_identity_address(IdentityKeying::ByMint, &mint, &program_id()).unwrap().address,
            initialized: true,
            lamports: 1_392_000,
        },
        update_authority: Signatory { address: key(12), is_signer: true },
    };
    let refused = mint_cv(
        Context { program_id: program_id(), accounts },
        hash(),
        String::from("Credential#1"),
        String::from("CV"),
        String::from("https://x/1.json"),
    );
    assert_eq!(refused, Err(CustomError::IdentityAlreadyInitialized));
}

#[test]
fn funded_identity_account_is_adopted() {
    let keying = IdentityKeying::ByMint;
    let mut accounts = credential_accounts(keying);
    accounts.identity_record.lamports = 10;
    let ctx = Context { program_id: program_id(), accounts };
    let plan = mint_credential(&ctx, credential_args(), keying).unwrap();
    assert_eq!(plan.identity.allocation, Allocation::Adopt { held: 10 });
}

#[test]
fn resubmission_after_abort_may_succeed() {
    let keying = IdentityKeying::ByMint;
    let mut ctx = Context { program_id: program_id(), accounts: credential_accounts(keying) };
    let (phase, _, effects) = execute(mint_credential(&ctx, credential_args(), keying), |call| match call {
        CallKind::CreateMasterEdition => Err(5),
        _ => Ok(()),
    });
    assert_eq!(
        phase,
        Phase::Aborted(CustomError::ExternalRejection { call: CallKind::CreateMasterEdition, code: 5 })
    );
    ctx.accounts.identity_record.initialized = effects.identity.is_some();
    let (phase, _, effects) = execute(mint_credential(&ctx, credential_args(), keying), |_| Ok(()));
    assert_eq!(phase, Phase::Committed);
    assert_eq!(effects.units_minted, 1);
}

#[test]
fn history_mints_one_unit_per_mint() {
    let keying = IdentityKeying::ByMint;
    let mut minted = 0u64;
    let mut bound = false;
    let recipients = [30u8, 40, 50, 30];
    for recipient in recipients {
        let mut accounts = credential_accounts(keying);
        accounts.recipient = key(recipient);
        accounts.recipient_token_account = token_account(recipient, 20);
        accounts.identity_record.initialized = bound;
        let ctx = Context { program_id: program_id(), accounts };
        let (_, _, effects) = execute(mint_credential(&ctx, credential_args(), keying), |_| Ok(()));
        minted += effects.units_minted;
        bound = bound || effects.identity.is_some();
        if let Some(edition) = effects.master_edition {
            assert_eq!(edition.max_supply, Some(1));
        }
    }
    assert_eq!(minted, 1);
}

#[test]
fn rejected_call_aborts_and_stops_the_calls() {
    let keying = IdentityKeying::ByWallet;
    let ctx = Context { program_id: program_id(), accounts: credential_accounts(keying) };
    let (phase, calls, effects) = execute(mint_credential(&ctx, credential_args(), keying), |call| match call {
        CallKind::CreateMetadata => Err(0x0b),
        _ => Ok(()),
    });
    assert_eq!(phase, Phase::Aborted(CustomError::ExternalRejection { call: CallKind::CreateMetadata, code: 0x0b }));
    assert_eq!(calls, vec![CallKind::MintTo, CallKind::CreateMetadata]);
    assert_eq!(effects, Effects { units_minted: 0, metadata: None, master_edition: None, identity: None });
}

#[test]
fn each_rejected_call_is_named_with_its_code() {
    let keying = IdentityKeying::ByWallet;
    let all = [CallKind::MintTo, CallKind::CreateMetadata, CallKind::CreateMasterEdition, CallKind::BindIdentity];
    for (position, failing) in all.iter().enumerate() {
        let ctx = Context { program_id: program_id(), accounts: credential_accounts(keying) };
        let code = 100 + position as u64;
        let (phase, calls, effects) = execute(mint_credential(&ctx, credential_args(), keying), |call| {
            if call == *failing {
                Err(code)
            } else {
                Ok(())
            }
        });
        assert_eq!(phase, Phase::Aborted(CustomError::ExternalRejection { call: *failing, code }));
        assert_eq!(calls, all[..=position].to_vec());
        assert_eq!(effects.units_minted, 0);
    }
}

#[test]
fn mint_nft_keys_the_record_by_wallet() {
    let owner = Signatory { address: key(30), is_signer: true };
    let mint = key(20);
    let accounts = MintNft {
        owner,
        mint,
        owner_ata: token_account(30, 20),
        user_pda: RecordSlot {
            address: find_identity_address(IdentityKeying::ByWallet, &owner.address, &program_id()).unwrap().address,
            initialized: false, lamports: 0,
        },
        metadata: find_metadata_address(&mint).unwrap().address,
        master_edition: find_master_edition_address(&mint).unwrap().address,
    };
    let general = accounts.to_mint_accounts();
    assert_eq!(general.payer, owner);
    assert_eq!(general.mint_authority, owner);
    assert_eq!(general.update_authority, owner);
    assert_eq!(general.recipient, owner.address);
    assert_eq!(general.recipient_token_account, token_account(30, 20));

    let plan = mint_nft(
        Context { program_id: program_id(), accounts },
        String::from("Credential#1"),
        String::from("CV"),
        String::from("https://x/1.json"),
        hash(),
    )
    .unwrap();
    assert_eq!(plan.issue.authority, owner.address);
    assert_eq!(plan.issue.amount, 1);
    assert_eq!(plan.metadata.update_authority, owner.address);
    assert_eq!(plan.metadata.data.seller_fee_basis_points, 0);
    assert_eq!(plan.metadata.data.creators, None);
    assert_eq!(plan.edition.max_supply, Some(1));
    assert_eq!(plan.identity.record, IdentityRecord::ByWallet(UserPda { user: owner.address, user_id_hash: hash() }));
    assert_eq!(
        plan,
        mint_credential(
            &Context { program_id: program_id(), accounts: general },
            credential_args(),
            IdentityKeying::ByWallet
        )
        .unwrap()
    );
}

#[test]
fn mint_nft_refuses_a_wrong_metadata_address() {
    let owner = Signatory { address: key(30), is_signer: true };
    let mint = key(20);
    let accounts = MintNft {
        owner,
        mint,
        owner_ata: token_account(30, 20),
        user_pda: RecordSlot {
            address: find_identity_address(IdentityKeying::ByWallet, &owner.address, &program_id()).unwrap().address,
            initialized: false, lamports: 0,
        },
        metadata: key(99),
        master_edition: find_master_edition_address(&mint).unwrap().address,
    };
    let refused = mint_nft(
        Context { program_id: program_id(), accounts },
        String::from("Credential#1"),
        String::from("CV"),
        String::from("https://x/1.json"),
        hash(),
    );
    assert_eq!(refused, Err(CustomError::WrongMetadataPda));
}

#[test]
fn mint_cv_keys_the_record_by_mint() {
    let mint = key(20);
    let accounts = MintCv {
        payer: Signatory { address: key(10), is_signer: true },
        mint,
        mint_authority: Signatory { address: key(11), is_signer: true },
        owner_ata: token_account(30, 20),
        owner: key(30),
        metadata: find_metadata_address(&mint).unwrap().address,
        master_edition: find_master_edition_address(&mint).unwrap().address,
        user_data: RecordSlot {
            address: find_identity_address(IdentityKeying::ByMint, &mint, &program_id()).unwrap().address,
            initialized: false, lamports: 0,
        },
        update_authority: Signatory { address: key(12), is_signer: true },
    };
    assert_eq!(accounts.to_mint_accounts(), credential_accounts(IdentityKeying::ByMint));
    let plan = mint_cv(
        Context { program_id: program_id(), accounts },
        hash(),
        String::from("Credential#1"),
        String::from("CV"),
        String::from("https://x/1.json"),
    )
    .unwrap();
    assert_eq!(plan.identity.record, IdentityRecord::ByMint(UserData { mint, user_id_hash: hash() }));
    assert_eq!(plan.issue.to, token_account(30, 20));
    assert_eq!(plan.issue.authority, key(11));
    assert_eq!(plan.metadata.payer, key(10));
    assert_eq!(plan.metadata.update_authority, key(12));
    assert!(!plan.metadata.is_mutable);
    assert_eq!(
        plan,
        mint_credential(
            &Context { program_id: program_id(), accounts: credential_accounts(IdentityKeying::ByMint) },
            credential_args(),
            IdentityKeying::ByMint
        )
        .unwrap()
    );
}

#[test]
fn mint_cv_refuses_an_unsigned_mint_authority() {
    let mint = key(20);
    let accounts = MintCv {
        payer: Signatory { address: key(10), is_signer: true },
        mint,
        mint_authority: Signatory { address: key(11), is_signer: false },
        owner_ata: token_account(30, 20),
        owner: key(30),
        metadata: find_metadata_address(&mint).unwrap().address,
        master_edition: find_master_edition_address(&mint).unwrap().address,
        user_data: RecordSlot {
            address: find_identity_address(IdentityKeying::ByMint, &mint, &program_id()).unwrap().address,
            initialized: false, lamports: 0,
        },
        update_authority: Signatory { address: key(12), is_signer: true },
    };
    let refused = mint_cv(
        Context { program_id: program_id(), accounts },
        hash(),
        String::from("Credential#1"),
        String::from("CV"),
        String::from("https://x/1.json"),
    );
    assert_eq!(refused, Err(CustomError::MintAuthorityNotSigner));
}

#[test]
fn check_outcome_follows_the_decision() {
    let ctx = Context { program_id: program_id(), accounts: credential_accounts(IdentityKeying::ByMint) };
    assert_eq!(checked(&mint_credential(&ctx, credential_args(), IdentityKeying::ByMint)), Ok(()));
    assert_eq!(checked(&Err(CustomError::WrongIdentityPda)), Err(CustomError::WrongIdentityPda));
}

#[test]
fn update_uri_is_refused() {
    let signed = Context {
        program_id: program_id(),
        accounts: UpdateUri { update_authority: Signatory { address: key(12), is_signer: true } },
    };
    assert_eq!(update_uri(signed, String::from("https://x/2.json")), Err(CustomError::UpdateUnsupported));
    let unsigned = Context {
        program_id: program_id(),
        accounts: UpdateUri { update_authority: Signatory { address: key(12), is_signer: false } },
    };
    assert_eq!(update_uri(unsigned, String::new()), Err(CustomError::UpdateUnsupported));
}
