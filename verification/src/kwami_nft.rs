//! Non-fungible asset collection: DNA uniqueness registry, asset records,
//! and the instruction handlers that mint, update, transfer and burn them.
//!
//! Every asset carries an immutable 32-byte DNA fingerprint. A collection's
//! registry holds the fingerprints of all live assets; minting a fingerprint
//! that is already registered fails, and burning an asset frees its
//! fingerprint for re-minting. The registry lives in a fixed-size account,
//! so it holds at most [`MAX_DNA_PER_ACCOUNT`] fingerprints.
//!
//! The external runtime authenticates signers and commits or discards each
//! instruction atomically; the handlers here receive the authenticated
//! caller identity and the current time as plain values, and mutate nothing
//! when they return an error.

use vstd::prelude::*;
use crate::identity::{Identity, DnaHash, bytes32_eq};

verus! {

/// Maximum DNA entries stored in a single registry account (account size limit).
pub const MAX_DNA_PER_ACCOUNT: u64 = 1000;

/// Maximum length of an asset name, in bytes of its UTF-8 encoding.
pub const MAX_NAME_LEN: usize = 32;

/// Maximum length of an asset symbol, in bytes of its UTF-8 encoding.
pub const MAX_SYMBOL_LEN: usize = 10;

/// Maximum length of a metadata URI, in bytes of its UTF-8 encoding.
pub const MAX_URI_LEN: usize = 200;

/// The stored length of a string: the length of its UTF-8 encoding. The
/// records live in fixed-size accounts whose layout allocates bytes, so
/// every length bound is a byte bound.
pub open spec fn byte_len(s: Seq<char>) -> nat {
    vstd::utf8::encode_utf8(s).len()
}

/// Typed failures of the collection instructions. Every failure aborts the
/// whole instruction: the runtime discards all of its tentative writes.
#[derive(Clone, Copy, Debug, PartialEq, Eq, Structural)]
pub enum ErrorCode {
    /// This DNA already exists. Each asset must have unique DNA.
    DuplicateDNA,
    /// DNA registry is full. Maximum capacity reached.
    RegistryFull,
    /// Invalid owner for this asset record.
    InvalidOwner,
    /// Name exceeds the maximum length.
    NameTooLong,
    /// Symbol exceeds the maximum length.
    SymbolTooLong,
    /// URI exceeds the maximum length.
    UriTooLong,
}

/// The per-collection authority record: who administers the collection,
/// which mint it governs, how many assets were ever minted into it, and the
/// bump byte of its derived storage address.
#[derive(Debug)]
pub struct CollectionAuthority {
    /// Authority that can manage the collection.
    pub authority: Identity,
    /// Collection mint address.
    pub collection_mint: Identity,
    /// Total number of assets ever minted (burns do not decrease it).
    pub total_minted: u64,
    /// Bump seed of the record's derived address.
    pub bump: u8,
}

/// The per-collection DNA registry: an insertion-ordered, duplicate-free,
/// bounded sequence of the fingerprints of all live assets.
#[derive(Debug)]
pub struct DnaRegistry {
    /// Authority of the collection.
    pub authority: Identity,
    /// Collection this registry belongs to.
    pub collection: Identity,
    /// Fingerprints of the live assets, in insertion order.
    pub dna_hashes: Vec<DnaHash>,
    /// Count of registered fingerprints, always equal to `dna_hashes.len()`.
    pub dna_count: u64,
}

impl DnaRegistry {
    /// Whether `dna_hash` is registered.
    pub open spec fn spec_contains(&self, dna_hash: DnaHash) -> bool {
        self.dna_hashes@.contains(dna_hash)
    }

    /// The registry invariant: the stored count matches the sequence length,
    /// the capacity bound holds, and no fingerprint occurs twice.
    pub open spec fn wf(&self) -> bool {
        &&& self.dna_count == self.dna_hashes@.len()
        &&& self.dna_hashes@.len() <= MAX_DNA_PER_ACCOUNT
        &&& forall|i: int, j: int|
            0 <= i < j < self.dna_hashes@.len() ==> self.dna_hashes@[i] != self.dna_hashes@[j]
    }

    /// Membership scan: whether `dna_hash` is already registered.
    pub fn dna_exists(&self, dna_hash: &DnaHash) -> (r: bool)
        ensures
            r == self.spec_contains(*dna_hash),
    {
        let n = self.dna_hashes.len();
        for i in 0..n
            invariant
                n == self.dna_hashes@.len(),
                forall|k: int| 0 <= k < i ==> self.dna_hashes@[k] != *dna_hash,
        {
            if bytes32_eq(&self.dna_hashes[i], dna_hash) {
                return true;
            }
        }
        false
    }

    /// Insert-if-absent. A duplicate is reported before a full registry is:
    /// a fingerprint that is already present always fails with
    /// `DuplicateDNA`, even when the registry is also at capacity.
    pub fn insert(&mut self, dna_hash: DnaHash) -> (r: Result<(), ErrorCode>)
        requires
            old(self).wf(),
        ensures
            final(self).wf(),
            final(self).authority == old(self).authority,
            final(self).collection == old(self).collection,
            old(self).spec_contains(dna_hash) ==> r == Err::<(), ErrorCode>(
                ErrorCode::DuplicateDNA,
            ) && *final(self) == *old(self),
            !old(self).spec_contains(dna_hash) && old(self).dna_count == MAX_DNA_PER_ACCOUNT
                ==> r == Err::<(), ErrorCode>(ErrorCode::RegistryFull) && *final(self) == *old(
                self,
            ),
            !old(self).spec_contains(dna_hash) && old(self).dna_count < MAX_DNA_PER_ACCOUNT ==> r
                == Ok::<(), ErrorCode>(()),
            r is Ok ==> final(self).dna_hashes@ == old(self).dna_hashes@.push(dna_hash),
            r is Ok ==> final(self).spec_contains(dna_hash),
            r is Ok ==> final(self).dna_count == old(self).dna_count + 1,
    {
        if self.dna_exists(&dna_hash) {
            return Err(ErrorCode::DuplicateDNA);
        }
        if self.dna_count >= MAX_DNA_PER_ACCOUNT {
            return Err(ErrorCode::RegistryFull);
        }
        self.dna_hashes.push(dna_hash);
        self.dna_count = self.dna_count + 1;
        proof {
            let s_old = old(self).dna_hashes@;
            let s_new = self.dna_hashes@;
            assert(s_new[s_old.len() as int] == dna_hash);
            assert(self.spec_contains(dna_hash));
            assert forall|i: int, j: int| 0 <= i < j < s_new.len() implies s_new[i] != s_new[j] by {
                if j < s_old.len() {
                    assert(s_new[i] == s_old[i] && s_new[j] == s_old[j]);
                } else {
                    assert(s_new[j] == dna_hash);
                    assert(s_new[i] == s_old[i]);
                    if s_old[i] == dna_hash {
                        assert(s_old.contains(dna_hash));
                    }
                }
            }
        }
        Ok(())
    }

    /// Remove a fingerprint, freeing it for re-minting. Removing a
    /// fingerprint that is not registered is a silent no-op, not an error:
    /// a burn must stay safe even if the registry was never populated for
    /// that fingerprint.
    pub fn remove(&mut self, dna_hash: &DnaHash)
        requires
            old(self).wf(),
        ensures
            final(self).wf(),
            final(self).authority == old(self).authority,
            final(self).collection == old(self).collection,
            !old(self).spec_contains(*dna_hash) ==> *final(self) == *old(self),
            old(self).spec_contains(*dna_hash) ==> {
                &&& !final(self).spec_contains(*dna_hash)
                &&& final(self).dna_count == old(self).dna_count - 1
                &&& exists|i: int|
                    0 <= i < old(self).dna_hashes@.len() && old(self).dna_hashes@[i] == *dna_hash
                        && final(self).dna_hashes@ == old(self).dna_hashes@.remove(i)
            },
            forall|h: DnaHash|
                h != *dna_hash ==> (final(self).spec_contains(h) <==> old(self).spec_contains(h)),
    {
        let ghost s_old = self.dna_hashes@;
        let n = self.dna_hashes.len();
        let mut pos: usize = 0;
        let mut found = false;
        for i in 0..n
            invariant
                n == self.dna_hashes@.len(),
                !found ==> forall|k: int| 0 <= k < i ==> self.dna_hashes@[k] != *dna_hash,
                found ==> pos < i && self.dna_hashes@[pos as int] == *dna_hash,
        {
            if !found && bytes32_eq(&self.dna_hashes[i], dna_hash) {
                pos = i;
                found = true;
            }
        }
        if !found {
            return;
        }
        self.dna_hashes.remove(pos);
        self.dna_count = self.dna_count - 1;
        proof {
            let p = pos as int;
            let s_new = self.dna_hashes@;
            s_old.remove_ensures(p);
            assert(s_new == s_old.remove(p));
            // no fingerprint occurs twice afterwards, and the removed one is gone
            assert forall|j: int| 0 <= j < s_new.len() implies s_new[j] != *dna_hash by {
                if j < p {
                    assert(s_new[j] == s_old[j]);
                } else {
                    assert(s_new[j] == s_old[j + 1]);
                }
            }
            assert forall|i: int, j: int| 0 <= i < j < s_new.len() implies s_new[i] != s_new[j] by {
                let i0 = if i < p { i } else { i + 1 };
                let j0 = if j < p { j } else { j + 1 };
                assert(s_new[i] == s_old[i0]);
                assert(s_new[j] == s_old[j0]);
            }
            // membership of every other fingerprint is preserved
            assert forall|h: DnaHash|
                h != *dna_hash implies (self.spec_contains(h) <==> old(self).spec_contains(h)) by {
                if s_new.contains(h) {
                    let j = choose|j: int| 0 <= j < s_new.len() && s_new[j] == h;
                    if j < p {
                        assert(s_old[j] == h);
                    } else {
                        assert(s_old[j + 1] == h);
                    }
                    assert(s_old.contains(h));
                }
                if s_old.contains(h) {
                    let k = choose|k: int| 0 <= k < s_old.len() && s_old[k] == h;
                    if k < p {
                        assert(s_new[k] == h);
                    } else {
                        assert(k != p);
                        assert(s_new[k - 1] == s_old[k]);
                    }
                    assert(s_new.contains(h));
                }
            }
        }
    }
}

/// One live asset record: identity, current owner, immutable fingerprint,
/// timestamps and metadata pointer.
#[derive(Debug)]
pub struct KwamiNft {
    /// The mint address of this asset.
    pub mint: Identity,
    /// Current owner.
    pub owner: Identity,
    /// DNA fingerprint (immutable after creation).
    pub dna_hash: DnaHash,
    /// Timestamp when minted.
    pub minted_at: i64,
    /// Timestamp when last updated.
    pub updated_at: i64,
    /// Metadata URI.
    pub metadata_uri: String,
    /// Bump seed of the record's derived address.
    pub bump: u8,
}

impl KwamiNft {
    /// The record invariant: it was never updated before it was minted, and
    /// its metadata URI fits the stored layout.
    pub open spec fn wf(&self) -> bool {
        &&& self.minted_at <= self.updated_at
        &&& byte_len(self.metadata_uri@) <= MAX_URI_LEN
    }
}

/// Initialize a collection: create its authority record and its empty DNA
/// registry. The caller becomes the authority of both. The runtime has
/// already checked that neither record exists yet; `collection_bump` is the
/// bump byte of the authority record's derived storage address.
pub fn initialize(payer: Identity, collection_mint: Identity, collection_bump: u8) -> (r: (
    CollectionAuthority,
    DnaRegistry,
))
    ensures
        r.0 == (CollectionAuthority {
            authority: payer,
            collection_mint,
            total_minted: 0,
            bump: collection_bump,
        }),
        r.1.authority == payer,
        r.1.collection == collection_mint,
        r.1.dna_hashes@.len() == 0,
        r.1.dna_count == 0,
        r.1.wf(),
{
    let collection_authority = CollectionAuthority {
        authority: payer,
        collection_mint,
        total_minted: 0,
        bump: collection_bump,
    };
    let dna_registry = DnaRegistry {
        authority: payer,
        collection: collection_mint,
        dna_hashes: Vec::new(),
        dna_count: 0,
    };
    (collection_authority, dna_registry)
}

/// Mint a new asset with unique DNA. Checks, in order: the fingerprint is
/// not yet registered, the registry has room, and the name, symbol and URI
/// fit their bounds. On success it registers the fingerprint, counts the
/// mint, and returns the fresh asset record with both timestamps set to
/// `now`; the caller then has the runtime create the metadata account, and
/// a failure there discards the whole instruction. On any error nothing is
/// mutated.
pub fn mint_kwami(
    dna_registry: &mut DnaRegistry,
    collection_authority: &mut CollectionAuthority,
    mint: Identity,
    owner: Identity,
    nft_bump: u8,
    dna_hash: DnaHash,
    name: String,
    symbol: String,
    uri: String,
    now: i64,
) -> (r: Result<KwamiNft, ErrorCode>)
    requires
        old(dna_registry).wf(),
        old(collection_authority).total_minted < u64::MAX,
    ensures
        final(dna_registry).wf(),
        r is Err ==> *final(dna_registry) == *old(dna_registry) && *final(collection_authority)
            == *old(collection_authority),
        (r == Err::<KwamiNft, ErrorCode>(ErrorCode::DuplicateDNA)) <==> old(
            dna_registry,
        ).spec_contains(dna_hash),
        (r == Err::<KwamiNft, ErrorCode>(ErrorCode::RegistryFull)) <==> (!old(
            dna_registry,
        ).spec_contains(dna_hash) && old(dna_registry).dna_count == MAX_DNA_PER_ACCOUNT),
        (r == Err::<KwamiNft, ErrorCode>(ErrorCode::NameTooLong)) <==> (!old(
            dna_registry,
        ).spec_contains(dna_hash) && old(dna_registry).dna_count < MAX_DNA_PER_ACCOUNT && byte_len(name@)
            > MAX_NAME_LEN),
        (r == Err::<KwamiNft, ErrorCode>(ErrorCode::SymbolTooLong)) <==> (!old(
            dna_registry,
        ).spec_contains(dna_hash) && old(dna_registry).dna_count < MAX_DNA_PER_ACCOUNT && byte_len(name@)
            <= MAX_NAME_LEN && byte_len(symbol@) > MAX_SYMBOL_LEN),
        (r == Err::<KwamiNft, ErrorCode>(ErrorCode::UriTooLong)) <==> (!old(
            dna_registry,
        ).spec_contains(dna_hash) && old(dna_registry).dna_count < MAX_DNA_PER_ACCOUNT && byte_len(name@)
            <= MAX_NAME_LEN && byte_len(symbol@) <= MAX_SYMBOL_LEN && byte_len(uri@) > MAX_URI_LEN),
        (r is Ok) <==> (!old(dna_registry).spec_contains(dna_hash) && old(dna_registry).dna_count
            < MAX_DNA_PER_ACCOUNT && byte_len(name@) <= MAX_NAME_LEN && byte_len(symbol@) <= MAX_SYMBOL_LEN
            && byte_len(uri@) <= MAX_URI_LEN),
        r is Ok ==> final(dna_registry).dna_hashes@ == old(dna_registry).dna_hashes@.push(dna_hash)
            && final(dna_registry).spec_contains(dna_hash)
            && final(dna_registry).dna_count == old(dna_registry).dna_count + 1
            && final(dna_registry).authority == old(dna_registry).authority
            && final(dna_registry).collection == old(dna_registry).collection,
        r is Ok ==> *final(collection_authority) == (CollectionAuthority {
            total_minted: (old(collection_authority).total_minted + 1) as u64,
            ..*old(collection_authority)
        }),
        r matches Ok(nft) ==> nft == (KwamiNft {
            mint,
            owner,
            dna_hash,
            minted_at: now,
            updated_at: now,
            metadata_uri: uri,
            bump: nft_bump,
        }) && nft.wf(),
{
    if dna_registry.dna_exists(&dna_hash) {
        return Err(ErrorCode::DuplicateDNA);
    }
    if dna_registry.dna_count >= MAX_DNA_PER_ACCOUNT {
        return Err(ErrorCode::RegistryFull);
    }
    if name.as_str().as_bytes().len() > MAX_NAME_LEN {
        return Err(ErrorCode::NameTooLong);
    }
    if symbol.as_str().as_bytes().len() > MAX_SYMBOL_LEN {
        return Err(ErrorCode::SymbolTooLong);
    }
    if uri.as_str().as_bytes().len() > MAX_URI_LEN {
        return Err(ErrorCode::UriTooLong);
    }
    let kwami_nft = KwamiNft {
        mint,
        owner,
        dna_hash,
        minted_at: now,
        updated_at: now,
        metadata_uri: uri,
        bump: nft_bump,
    };
    match dna_registry.insert(dna_hash) {
        Ok(()) => {},
        Err(e) => {
            return Err(e);
        },
    }
    collection_authority.total_minted = collection_authority.total_minted + 1;
    Ok(kwami_nft)
}

/// Update an asset's metadata URI. Only the current owner may do so, and the
/// DNA fingerprint is never touched: this is the boundary between
/// identity-preserving metadata changes and anything that would need a new
/// mint. On any error nothing is mutated.
pub fn update_metadata(
    kwami_nft: &mut KwamiNft,
    caller: &Identity,
    new_uri: String,
    now: i64,
) -> (r: Result<(), ErrorCode>)
    requires
        old(kwami_nft).wf(),
        old(kwami_nft).minted_at <= now,
    ensures
        final(kwami_nft).wf(),
        (r == Err::<(), ErrorCode>(ErrorCode::InvalidOwner)) <==> *caller != old(kwami_nft).owner,
        (r == Err::<(), ErrorCode>(ErrorCode::UriTooLong)) <==> (*caller == old(kwami_nft).owner
            && byte_len(new_uri@) > MAX_URI_LEN),
        (r is Ok) <==> (*caller == old(kwami_nft).owner && byte_len(new_uri@) <= MAX_URI_LEN),
        r is Err ==> *final(kwami_nft) == *old(kwami_nft),
        r is Ok ==> *final(kwami_nft) == (KwamiNft {
            metadata_uri: new_uri,
            updated_at: now,
            ..*old(kwami_nft)
        }),
{
    if !bytes32_eq(caller, &kwami_nft.owner) {
        return Err(ErrorCode::InvalidOwner);
    }
    if new_uri.as_str().as_bytes().len() > MAX_URI_LEN {
        return Err(ErrorCode::UriTooLong);
    }
    kwami_nft.metadata_uri = new_uri;
    kwami_nft.updated_at = now;
    Ok(())
}

/// Transfer an asset to a new owner. Only the current owner may do so; the
/// fingerprint, timestamps of minting and metadata stay untouched. The new
/// owner is only required to be a syntactically valid identity. On any
/// error nothing is mutated.
pub fn transfer_kwami(
    kwami_nft: &mut KwamiNft,
    current_owner: &Identity,
    new_owner: Identity,
    now: i64,
) -> (r: Result<(), ErrorCode>)
    requires
        old(kwami_nft).wf(),
        old(kwami_nft).minted_at <= now,
    ensures
        final(kwami_nft).wf(),
        (r == Err::<(), ErrorCode>(ErrorCode::InvalidOwner)) <==> *current_owner != old(
            kwami_nft,
        ).owner,
        (r is Ok) <==> *current_owner == old(kwami_nft).owner,
        r is Err ==> *final(kwami_nft) == *old(kwami_nft),
        r is Ok ==> *final(kwami_nft) == (KwamiNft {
            owner: new_owner,
            updated_at: now,
            ..*old(kwami_nft)
        }),
{
    if !bytes32_eq(current_owner, &kwami_nft.owner) {
        return Err(ErrorCode::InvalidOwner);
    }
    kwami_nft.owner = new_owner;
    kwami_nft.updated_at = now;
    Ok(())
}

/// Burn an asset: only the current owner may do so. Its fingerprint is
/// removed from the registry in the same atomic step, freeing it for
/// re-minting; the record's storage is then reclaimed by the runtime and
/// refunded to the owner. Removal tolerates an absent fingerprint (a silent
/// no-op). On an ownership error nothing is mutated.
pub fn burn_kwami(kwami_nft: &KwamiNft, dna_registry: &mut DnaRegistry, caller: &Identity) -> (r:
    Result<(), ErrorCode>)
    requires
        old(dna_registry).wf(),
    ensures
        final(dna_registry).wf(),
        (r == Err::<(), ErrorCode>(ErrorCode::InvalidOwner)) <==> *caller != kwami_nft.owner,
        (r is Ok) <==> *caller == kwami_nft.owner,
        r is Err ==> *final(dna_registry) == *old(dna_registry),
        r is Ok ==> !final(dna_registry).spec_contains(kwami_nft.dna_hash),
        r is Ok && old(dna_registry).spec_contains(kwami_nft.dna_hash)
            ==> final(dna_registry).dna_count == old(dna_registry).dna_count - 1,
        r is Ok && !old(dna_registry).spec_contains(kwami_nft.dna_hash) ==> *final(dna_registry)
            == *old(dna_registry),
        forall|h: DnaHash|
            h != kwami_nft.dna_hash ==> (final(dna_registry).spec_contains(h) <==> old(
                dna_registry,
            ).spec_contains(h)),
        final(dna_registry).authority == old(dna_registry).authority,
        final(dna_registry).collection == old(dna_registry).collection,
{
    if !bytes32_eq(caller, &kwami_nft.owner) {
        return Err(ErrorCode::InvalidOwner);
    }
    dna_registry.remove(&kwami_nft.dna_hash);
    Ok(())
}

/// Read-only query: whether a DNA fingerprint is already registered.
pub fn check_dna_exists(dna_registry: &DnaRegistry, dna_hash: &DnaHash) -> (r: bool)
    ensures
        r == dna_registry.spec_contains(*dna_hash),
{
    dna_registry.dna_exists(dna_hash)
}

/// Uniqueness law: in a well-formed registry no two entries ever hold the
/// same fingerprint. Since every mint registers the new record's fingerprint
/// and every burn removes it in the same atomic step, no two live asset
/// records of a collection ever share a fingerprint.
pub proof fn lemma_registry_fingerprints_unique(r: DnaRegistry, i: int, j: int)
    requires
        r.wf(),
        0 <= i < r.dna_hashes@.len(),
        0 <= j < r.dna_hashes@.len(),
        i != j,
    ensures
        r.dna_hashes@[i] != r.dna_hashes@[j],
{
}

/// Re-mint after burn: once a burn has removed a fingerprint, the registry
/// no longer holds it and is strictly below capacity — exactly the state in
/// which `insert`, and so a fresh mint of the same fingerprint, must
/// succeed (with new timestamps, since a mint stamps the current time).
pub proof fn lemma_remint_after_burn(pre: DnaRegistry, post: DnaRegistry, fp: DnaHash, i: int)
    requires
        pre.wf(),
        0 <= i < pre.dna_hashes@.len(),
        pre.dna_hashes@[i] == fp,
        post.dna_hashes@ == pre.dna_hashes@.remove(i),
        post.dna_count == pre.dna_count - 1,
    ensures
        !post.spec_contains(fp),
        post.dna_count < MAX_DNA_PER_ACCOUNT,
{
    pre.dna_hashes@.remove_ensures(i);
    assert forall|j: int| 0 <= j < post.dna_hashes@.len() implies post.dna_hashes@[j] != fp by {
        if j < i {
            assert(post.dna_hashes@[j] == pre.dna_hashes@[j]);
        } else {
            assert(post.dna_hashes@[j] == pre.dna_hashes@[j + 1]);
        }
    }
}

} // verus!
