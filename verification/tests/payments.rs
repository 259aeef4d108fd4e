use anchor_lang::AnchorSerialize;
use creator_payer::{
    pay_creator, try_pay_creator, Context, Errors, Key, PayCreator, PayError, Payout, Settled,
};
use metaplex_token_metadata::error::MetadataError;
use metaplex_token_metadata::state::{Creator as Recorded, Data, Key as Kind, Metadata, MAX_METADATA_LEN};
use solana_program::program_error::ProgramError;
use solana_program::pubkey::Pubkey;

const PAYER: Key = [9u8; 32];
const MINT: Key = [4u8; 32];
const A: Key = [1u8; 32];
const B: Key = [2u8; 32];
const C: Key = [3u8; 32];

fn metadata_address(mint: &Key) -> Key {
    let program = mpl_token_metadata::id();
    let seeds: [&[u8]; 3] = [mpl_token_metadata::state::PREFIX.as_bytes(), program.as_ref(), mint];
    Pubkey::find_program_address(&seeds, &program).0.to_bytes()
}

fn metadata_data(creators: Option<&[(Key, u8)]>) -> Vec<u8> {
    let metadata = Metadata {
        key: Kind::MetadataV1,
        update_authority: Pubkey::new_from_array([7u8; 32]),
        mint: Pubkey::new_from_array(MINT),
        data: Data {
            name: "Asset".to_string(),
            symbol: "AST".to_string(),
            uri: "https://example.org/asset.json".to_string(),
            seller_fee_basis_points: 500,
            creators: creators.map(|list| {
                list.iter()
                    .map(|(address, share)| Recorded {
                        address: Pubkey::new_from_array(*address),
                        verified: true,
                        share: *share,
                    })
                    .collect()
            }),
        },
        primary_sale_happened: false,
        is_mutable: true,
        edition_nonce: Some(252),
    };
    let mut data = metadata.try_to_vec().unwrap();
    data.resize(MAX_METADATA_LEN, 0);
    data
}

fn invocation(metadata: Key, metadata_data: Vec<u8>, remaining_accounts: Vec<Key>) -> Context {
    Context {
        accounts: PayCreator { payer: PAYER, mint: MINT, metadata, metadata_data },
        remaining_accounts,
    }
}

fn amounts(out: &Payout) -> Vec<(Key, Key, u64)> {
    out.transfers.iter().map(|transfer| (transfer.from, transfer.to, transfer.lamports)).collect()
}

#[test]
fn an_invocation_pays_the_recorded_creators() {
    let data = metadata_data(Some(&[(A, 60), (B, 40)]));
    let out = pay_creator(&invocation(metadata_address(&MINT), data, vec![A, B]), 1000);
    assert_eq!(out.outcome, Ok(Settled::Distributed));
    assert_eq!(amounts(&out), vec![(PAYER, A, 600), (PAYER, B, 400)]);
}

#[test]
fn an_invocation_reads_shares_and_addresses_in_recorded_order() {
    let data = metadata_data(Some(&[(C, 34), (A, 33), (B, 33)]));
    let out = pay_creator(&invocation(metadata_address(&MINT), data, vec![C, A, B]), 10);
    assert_eq!(out.outcome, Ok(Settled::Distributed));
    assert_eq!(amounts(&out), vec![(PAYER, C, 3), (PAYER, A, 3), (PAYER, B, 3)]);
}

#[test]
fn a_record_without_creators_pays_nothing() {
    let data = metadata_data(None);
    let out = pay_creator(&invocation(metadata_address(&MINT), data, vec![A, B]), 1000);
    assert_eq!(out.outcome, Ok(Settled::NoCreators));
    assert!(out.transfers.is_empty());
}

#[test]
fn an_account_of_zeroes_reads_as_a_record_without_creators() {
    let data = vec![0u8; MAX_METADATA_LEN];
    let out = pay_creator(&invocation(metadata_address(&MINT), data, vec![]), 1000);
    assert_eq!(out.outcome, Ok(Settled::NoCreators));
    assert!(out.transfers.is_empty());
}

#[test]
fn a_metadata_account_at_another_address_is_refused() {
    let data = metadata_data(Some(&[(A, 60), (B, 40)]));
    let out = pay_creator(&invocation(metadata_address(&A), data, vec![A, B]), 1000);
    assert_eq!(out.outcome, Err(PayError::Rejected(Errors::MismatchedMetadataAddr)));
    assert!(out.transfers.is_empty());
}

#[test]
fn the_address_is_checked_before_the_data_is_read() {
    let out = pay_creator(&invocation(MINT, vec![1u8, 2, 3], vec![A, B]), 1000);
    assert_eq!(out.outcome, Err(PayError::Rejected(Errors::MismatchedMetadataAddr)));
    assert!(out.transfers.is_empty());
}

#[test]
fn data_of_another_length_is_the_decoders_error() {
    let mut data = metadata_data(Some(&[(A, 60), (B, 40)]));
    data.push(0);
    let out = pay_creator(&invocation(metadata_address(&MINT), data, vec![A, B]), 1000);
    assert_eq!(
        out.outcome,
        Err(PayError::Metadata(ProgramError::from(MetadataError::DataTypeMismatch)))
    );
    assert!(out.transfers.is_empty());
}

#[test]
fn data_of_another_kind_is_the_decoders_error() {
    let mut data = metadata_data(Some(&[(A, 60), (B, 40)]));
    data[0] = 1;
    let out = pay_creator(&invocation(metadata_address(&MINT), data, vec![A, B]), 1000);
    assert_eq!(
        out.outcome,
        Err(PayError::Metadata(ProgramError::from(MetadataError::DataTypeMismatch)))
    );
    assert!(out.transfers.is_empty());
}

#[test]
fn data_that_breaks_off_is_the_decoders_error() {
    let mut data = vec![255u8; MAX_METADATA_LEN];
    data[0] = 4;
    let out = pay_creator(&invocation(metadata_address(&MINT), data, vec![A, B]), 1000);
    assert!(matches!(out.outcome, Err(PayError::Metadata(ProgramError::BorshIoError(_)))));
    assert!(out.transfers.is_empty());
}

#[test]
fn an_invocation_fails_as_the_distribution_does() {
    let address = metadata_address(&MINT);
    let data = metadata_data(Some(&[(A, 60), (B, 60)]));
    let out = pay_creator(&invocation(address, data, vec![A, B]), 1000);
    assert_eq!(out.outcome, Err(PayError::Rejected(Errors::NumericalOverflow)));
    assert_eq!(amounts(&out), vec![(PAYER, A, 600)]);

    let data = metadata_data(Some(&[(A, 60), (B, 40)]));
    let out = pay_creator(&invocation(address, data, vec![A, C]), 1000);
    assert_eq!(out.outcome, Err(PayError::Rejected(Errors::PublicKeyMismatch)));
    assert_eq!(amounts(&out), vec![(PAYER, A, 600)]);

    let data = metadata_data(Some(&[(A, 60), (B, 40)]));
    let out = pay_creator(&invocation(address, data, vec![A]), 1000);
    assert_eq!(out.outcome, Err(PayError::NotEnoughAccountKeys));
    assert_eq!(amounts(&out), vec![(PAYER, A, 600)]);
}

#[test]
fn an_empty_account_at_the_right_address_cannot_be_paid_from() {
    let ctx = invocation(metadata_address(&MINT), vec![], vec![A, B]);
    assert_eq!(try_pay_creator(&ctx, 1000), None);
}

#[test]
fn an_empty_account_at_another_address_is_refused() {
    let ctx = invocation(metadata_address(&A), vec![], vec![A, B]);
    let out = try_pay_creator(&ctx, 1000).unwrap();
    assert_eq!(out.outcome, Err(PayError::Rejected(Errors::MismatchedMetadataAddr)));
    assert!(out.transfers.is_empty());
    let out = pay_creator(&ctx, 1000);
    assert_eq!(out.outcome, Err(PayError::Rejected(Errors::MismatchedMetadataAddr)));
    assert!(out.transfers.is_empty());
}

#[test]
fn an_account_with_data_is_paid_from_either_way() {
    let address = metadata_address(&MINT);
    let ctx = invocation(address, metadata_data(Some(&[(A, 33), (B, 33), (C, 34)])), vec![A, B, C]);
    let out = try_pay_creator(&ctx, 100).unwrap();
    assert_eq!(out, pay_creator(&ctx, 100));
    assert_eq!(out.outcome, Ok(Settled::Distributed));
    assert_eq!(amounts(&out), vec![(PAYER, A, 33), (PAYER, B, 33), (PAYER, C, 34)]);
}
