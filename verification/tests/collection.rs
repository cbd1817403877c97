use kwami::kwami_nft::{
    burn_kwami, check_dna_exists, initialize, mint_kwami, transfer_kwami, update_metadata,
    CollectionAuthority, DnaRegistry, ErrorCode, KwamiNft, MAX_DNA_PER_ACCOUNT,
};

fn id(b: u8) -> [u8; 32] {
    [b; 32]
}

/// SHA-256 of the one-byte string "a".
fn sha256_a() -> [u8; 32] {
    [
        0xca, 0x97, 0x81, 0x12, 0xca, 0x1b, 0xbd, 0xca, 0xfa, 0xc2, 0x31, 0xb3, 0x9a, 0x23, 0xdc,
        0x4d, 0xa7, 0x86, 0xef, 0xf8, 0x14, 0x7c, 0x4e, 0x72, 0xb9, 0x80, 0x77, 0x85, 0xaf, 0xee,
        0x48, 0xbb,
    ]
}

fn fresh_collection() -> (CollectionAuthority, DnaRegistry) {
    initialize(id(1), id(2), 254)
}

#[test]
fn initialize_collection_sets_all_fields() {
    let (authority, registry) = initialize(id(1), id(2), 254);
    assert_eq!(authority.authority, id(1));
    assert_eq!(authority.collection_mint, id(2));
    assert_eq!(authority.total_minted, 0);
    assert_eq!(authority.bump, 254);
    assert_eq!(registry.authority, id(1));
    assert_eq!(registry.collection, id(2));
    assert_eq!(registry.dna_count, 0);
    assert_eq!(registry.dna_hashes.len(), 0);
}

fn mint(
    registry: &mut DnaRegistry,
    authority: &mut CollectionAuthority,
    mint_id: u8,
    owner: [u8; 32],
    fp: [u8; 32],
    name: &str,
    now: i64,
) -> Result<KwamiNft, ErrorCode> {
    mint_kwami(
        registry,
        authority,
        id(mint_id),
        owner,
        250,
        fp,
        name.to_string(),
        "KWAMI".to_string(),
        "https://arweave.net/abc".to_string(),
        now,
    )
}

#[test]
fn mint_burn_remint_scenario() {
    let (mut authority, mut registry) = fresh_collection();
    let owner = id(9);
    let fp = sha256_a();

    let first = mint(&mut registry, &mut authority, 10, owner, fp, "Kwami#1", 1000).unwrap();
    assert_eq!(authority.total_minted, 1);
    assert_eq!(registry.dna_count, 1);
    assert_eq!(first.dna_hash, fp);
    assert_eq!(first.owner, owner);
    assert_eq!(first.mint, id(10));
    assert_eq!(first.minted_at, 1000);
    assert_eq!(first.updated_at, 1000);
    assert_eq!(first.metadata_uri, "https://arweave.net/abc");
    assert_eq!(first.bump, 250);
    assert!(check_dna_exists(&registry, &fp));

    let dup = mint(&mut registry, &mut authority, 11, owner, fp, "Kwami#2", 1001);
    assert_eq!(dup.unwrap_err(), ErrorCode::DuplicateDNA);
    assert_eq!(authority.total_minted, 1);
    assert_eq!(registry.dna_count, 1);

    burn_kwami(&first, &mut registry, &owner).unwrap();
    assert_eq!(registry.dna_count, 0);
    assert!(!check_dna_exists(&registry, &fp));

    let again = mint(&mut registry, &mut authority, 12, owner, fp, "Kwami#3", 2000).unwrap();
    assert_eq!(authority.total_minted, 2);
    assert_eq!(registry.dna_count, 1);
    // a fresh record, not a resurrection of the old one
    assert_eq!(again.minted_at, 2000);
    assert_eq!(again.updated_at, 2000);
    assert_ne!(again.minted_at, first.minted_at);
}

fn nth_fp(n: u64) -> [u8; 32] {
    let mut fp = [0u8; 32];
    fp[0] = (n % 256) as u8;
    fp[1] = ((n / 256) % 256) as u8;
    fp[2] = ((n / 65536) % 256) as u8;
    fp
}

#[test]
fn capacity_is_enforced_and_freed_by_burn() {
    let (mut authority, mut registry) = fresh_collection();
    let owner = id(9);
    for n in 0..MAX_DNA_PER_ACCOUNT {
        registry.insert(nth_fp(n)).unwrap();
    }
    assert_eq!(registry.dna_count, MAX_DNA_PER_ACCOUNT);

    // the CAPACITY + 1-th distinct fingerprint is refused
    let over = mint(
        &mut registry,
        &mut authority,
        10,
        owner,
        nth_fp(MAX_DNA_PER_ACCOUNT),
        "Kwami#1001",
        1000,
    );
    assert_eq!(over.unwrap_err(), ErrorCode::RegistryFull);
    assert_eq!(registry.dna_count, MAX_DNA_PER_ACCOUNT);

    // a duplicate is reported as a duplicate even when the registry is full
    let dup = mint(&mut registry, &mut authority, 10, owner, nth_fp(3), "Kwami#x", 1000);
    assert_eq!(dup.unwrap_err(), ErrorCode::DuplicateDNA);

    // after one burn the registry accepts a new distinct fingerprint again
    registry.remove(&nth_fp(3));
    assert_eq!(registry.dna_count, MAX_DNA_PER_ACCOUNT - 1);
    let fresh = mint(
        &mut registry,
        &mut authority,
        10,
        owner,
        nth_fp(MAX_DNA_PER_ACCOUNT),
        "Kwami#1001",
        1000,
    );
    assert!(fresh.is_ok());
    assert_eq!(registry.dna_count, MAX_DNA_PER_ACCOUNT);
}

#[test]
fn mint_rejects_out_of_bounds_inputs() {
    let (mut authority, mut registry) = fresh_collection();
    let owner = id(9);

    let long_name = "n".repeat(33);
    let r = mint_kwami(
        &mut registry,
        &mut authority,
        id(10),
        owner,
        250,
        nth_fp(1),
        long_name,
        "S".to_string(),
        "u".to_string(),
        1,
    );
    assert_eq!(r.unwrap_err(), ErrorCode::NameTooLong);

    let long_symbol = "s".repeat(11);
    let r = mint_kwami(
        &mut registry,
        &mut authority,
        id(10),
        owner,
        250,
        nth_fp(1),
        "n".repeat(32),
        long_symbol,
        "u".to_string(),
        1,
    );
    assert_eq!(r.unwrap_err(), ErrorCode::SymbolTooLong);

    let long_uri = "u".repeat(201);
    let r = mint_kwami(
        &mut registry,
        &mut authority,
        id(10),
        owner,
        250,
        nth_fp(1),
        "n".repeat(32),
        "s".repeat(10),
        long_uri,
        1,
    );
    assert_eq!(r.unwrap_err(), ErrorCode::UriTooLong);
    assert_eq!(registry.dna_count, 0);
    assert_eq!(authority.total_minted, 0);

    // everything exactly at its bound is accepted
    let r = mint_kwami(
        &mut registry,
        &mut authority,
        id(10),
        owner,
        250,
        nth_fp(1),
        "n".repeat(32),
        "s".repeat(10),
        "u".repeat(200),
        1,
    );
    assert!(r.is_ok());
}

#[test]
fn length_bounds_count_bytes_not_characters() {
    let (mut authority, mut registry) = fresh_collection();
    let owner = id(9);

    // twenty two-byte characters: 20 characters but 40 bytes, over the
    // 32-byte name bound
    let wide_name = "\u{e9}".repeat(20);
    assert_eq!(wide_name.len(), 40);
    let r = mint_kwami(
        &mut registry,
        &mut authority,
        id(10),
        owner,
        250,
        nth_fp(1),
        wide_name,
        "s".to_string(),
        "u".to_string(),
        1,
    );
    assert_eq!(r.unwrap_err(), ErrorCode::NameTooLong);

    // six two-byte characters: 12 bytes, over the 10-byte symbol bound
    let wide_symbol = "\u{e9}".repeat(6);
    assert_eq!(wide_symbol.len(), 12);
    let r = mint_kwami(
        &mut registry,
        &mut authority,
        id(10),
        owner,
        250,
        nth_fp(1),
        "n".to_string(),
        wide_symbol,
        "u".to_string(),
        1,
    );
    assert_eq!(r.unwrap_err(), ErrorCode::SymbolTooLong);

    // 101 two-byte characters: 202 bytes, over the 200-byte URI bound
    let wide_uri = "\u{e9}".repeat(101);
    assert_eq!(wide_uri.len(), 202);
    let r = mint_kwami(
        &mut registry,
        &mut authority,
        id(10),
        owner,
        250,
        nth_fp(1),
        "n".to_string(),
        "s".to_string(),
        wide_uri.clone(),
        1,
    );
    assert_eq!(r.unwrap_err(), ErrorCode::UriTooLong);
    assert_eq!(registry.dna_count, 0);
    assert_eq!(authority.total_minted, 0);

    // 100 two-byte characters fill the URI field exactly
    let mut nft =
        mint(&mut registry, &mut authority, 10, owner, nth_fp(1), "Kwami#1", 1).unwrap();
    let full_uri = "\u{e9}".repeat(100);
    assert_eq!(full_uri.len(), 200);
    update_metadata(&mut nft, &owner, full_uri.clone(), 2).unwrap();
    assert_eq!(nft.metadata_uri, full_uri);

    let r = update_metadata(&mut nft, &owner, wide_uri, 3);
    assert_eq!(r.unwrap_err(), ErrorCode::UriTooLong);
    assert_eq!(nft.metadata_uri, full_uri);
}

#[test]
fn update_metadata_is_owner_gated_and_keeps_dna() {
    let (mut authority, mut registry) = fresh_collection();
    let owner = id(9);
    let stranger = id(8);
    let mut nft = mint(&mut registry, &mut authority, 10, owner, sha256_a(), "Kwami#1", 100).unwrap();

    let r = update_metadata(&mut nft, &stranger, "https://x".to_string(), 200);
    assert_eq!(r.unwrap_err(), ErrorCode::InvalidOwner);
    assert_eq!(nft.metadata_uri, "https://arweave.net/abc");
    assert_eq!(nft.updated_at, 100);

    let r = update_metadata(&mut nft, &owner, "u".repeat(201), 200);
    assert_eq!(r.unwrap_err(), ErrorCode::UriTooLong);
    assert_eq!(nft.metadata_uri, "https://arweave.net/abc");

    update_metadata(&mut nft, &owner, "https://arweave.net/new".to_string(), 200).unwrap();
    assert_eq!(nft.metadata_uri, "https://arweave.net/new");
    assert_eq!(nft.updated_at, 200);
    // the fingerprint and identity are never touched by an update
    assert_eq!(nft.dna_hash, sha256_a());
    assert_eq!(nft.mint, id(10));
    assert_eq!(nft.owner, owner);
    assert_eq!(nft.minted_at, 100);
}

#[test]
fn transfer_is_owner_gated_and_keeps_dna() {
    let (mut authority, mut registry) = fresh_collection();
    let owner = id(9);
    let stranger = id(8);
    let new_owner = id(7);
    let mut nft = mint(&mut registry, &mut authority, 10, owner, sha256_a(), "Kwami#1", 100).unwrap();

    let r = transfer_kwami(&mut nft, &stranger, new_owner, 200);
    assert_eq!(r.unwrap_err(), ErrorCode::InvalidOwner);
    assert_eq!(nft.owner, owner);

    transfer_kwami(&mut nft, &owner, new_owner, 200).unwrap();
    assert_eq!(nft.owner, new_owner);
    assert_eq!(nft.updated_at, 200);
    assert_eq!(nft.dna_hash, sha256_a());
    assert_eq!(nft.metadata_uri, "https://arweave.net/abc");
    assert_eq!(nft.minted_at, 100);

    // the previous owner lost the right to act on the record
    let r = transfer_kwami(&mut nft, &owner, id(6), 300);
    assert_eq!(r.unwrap_err(), ErrorCode::InvalidOwner);
    assert_eq!(nft.owner, new_owner);
}

#[test]
fn burn_is_owner_gated() {
    let (mut authority, mut registry) = fresh_collection();
    let owner = id(9);
    let stranger = id(8);
    let nft = mint(&mut registry, &mut authority, 10, owner, sha256_a(), "Kwami#1", 100).unwrap();

    let r = burn_kwami(&nft, &mut registry, &stranger);
    assert_eq!(r.unwrap_err(), ErrorCode::InvalidOwner);
    assert_eq!(registry.dna_count, 1);
    assert!(check_dna_exists(&registry, &sha256_a()));
}

#[test]
fn burn_with_unregistered_dna_is_a_silent_noop() {
    let (mut authority, mut registry) = fresh_collection();
    let owner = id(9);
    let nft = mint(&mut registry, &mut authority, 10, owner, sha256_a(), "Kwami#1", 100).unwrap();
    // a record whose fingerprint was never registered burns without error
    let orphan = KwamiNft {
        mint: id(11),
        owner,
        dna_hash: nth_fp(77),
        minted_at: 100,
        updated_at: 100,
        metadata_uri: String::new(),
        bump: 250,
    };
    burn_kwami(&orphan, &mut registry, &owner).unwrap();
    assert_eq!(registry.dna_count, 1);
    assert!(check_dna_exists(&registry, &nft.dna_hash));
}

#[test]
fn check_dna_exists_reads_only() {
    let (mut authority, mut registry) = fresh_collection();
    assert!(!check_dna_exists(&registry, &sha256_a()));
    mint(&mut registry, &mut authority, 10, id(9), sha256_a(), "Kwami#1", 100).unwrap();
    assert!(check_dna_exists(&registry, &sha256_a()));
    assert!(!check_dna_exists(&registry, &nth_fp(5)));
}
