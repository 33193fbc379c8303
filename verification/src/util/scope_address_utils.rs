use crate::model::error::{outcome, ContractError, ContractErrorView};
use crate::util::codec::{
    base32_grouping,
    base32_to_bytes,
    base32_ungrouping,
    bech32_decode,
    bech32_decoding,
    bech32_encode,
    bech32_encoding,
    bytes_to_base32,
    hrp_has_upper,
    hrp_well_formed,
    uuid_parse,
    uuid_parsing,
    uuid_text,
    uuid_write,
};
use vstd::prelude::*;
use vstd::string::StringExecFns;

verus! {

/// The human-readable part of a scope address.
pub const SCOPE_PREFIX: &'static str = "scope";

/// The byte that marks the key of a scope in a metadata address.
pub const SCOPE_KEY: u8 = 0;

/// The bytes in a metadata address of a scope: the key byte and the uuid.
pub const SCOPE_BYTES: usize = 17;

/// What is said of an address whose human-readable part is not `scope`.
pub const WRONG_PREFIX: &'static str = "the address does not have the prefix [scope]";

/// What is said of an address whose data is not a scope key and a uuid.
pub const WRONG_PAYLOAD: &'static str =
    "the address does not hold the key byte of a scope followed by the 16 bytes of a uuid";

/// The bytes that a scope address encodes for a uuid.
pub open spec fn scope_bytes(uuid_bytes: Seq<u8>) -> Seq<u8> {
    seq![SCOPE_KEY] + uuid_bytes
}

/// What deriving the scope address of an asset uuid gives: the bech32
/// writing, under the prefix `scope`, of the scope key byte and the uuid's
/// bytes.
pub open spec fn scope_address_outcome(asset_uuid: Seq<char>) -> Result<
    Seq<char>,
    ContractErrorView,
> {
    match uuid_parsing(asset_uuid) {
        None => Err(ContractErrorView::UuidError),
        Some(bytes) => match bech32_encoding(SCOPE_PREFIX@, base32_grouping(scope_bytes(bytes))) {
            None => Err(ContractErrorView::Bech32Error),
            Some(address) => Ok(address),
        },
    }
}

/// What deriving the asset uuid of a scope address gives: the hyphenated
/// writing of the sixteen bytes behind the key byte.
pub open spec fn asset_uuid_outcome(scope_address: Seq<char>) -> Result<
    Seq<char>,
    ContractErrorView,
> {
    match bech32_decoding(scope_address) {
        None => Err(ContractErrorView::Bech32Error),
        Some((hrp, groups)) => if hrp != SCOPE_PREFIX@ {
            Err(
                ContractErrorView::InvalidAddress {
                    address: scope_address,
                    explanation: WRONG_PREFIX@,
                },
            )
        } else {
            match base32_ungrouping(groups) {
                None => Err(ContractErrorView::Bech32Error),
                Some(bytes) => if bytes.len() == SCOPE_BYTES && bytes[0] == SCOPE_KEY {
                    Ok(uuid_text(bytes.subrange(1, SCOPE_BYTES as int)))
                } else {
                    Err(
                        ContractErrorView::InvalidAddress {
                            address: scope_address,
                            explanation: WRONG_PAYLOAD@,
                        },
                    )
                },
            }
        },
    }
}

/// The scope address derived from an asset uuid, if there is one.
pub open spec fn scope_address_of(asset_uuid: Seq<char>) -> Option<Seq<char>> {
    match scope_address_outcome(asset_uuid) {
        Ok(address) => Some(address),
        Err(_) => None,
    }
}

/// The asset uuid derived from a scope address, if there is one.
pub open spec fn asset_uuid_of(scope_address: Seq<char>) -> Option<Seq<char>> {
    match asset_uuid_outcome(scope_address) {
        Ok(asset_uuid) => Some(asset_uuid),
        Err(_) => None,
    }
}

/// The hyphenated lower-case writing of the uuid that a text is read as.
pub open spec fn canonical_uuid(asset_uuid: Seq<char>) -> Option<Seq<char>> {
    match uuid_parsing(asset_uuid) {
        Some(bytes) => Some(uuid_text(bytes)),
        None => None,
    }
}

/// The lower-case writing, with the checksum of the first Bech32 variant, of
/// what an address decodes to.
pub open spec fn canonical_address(address: Seq<char>) -> Option<Seq<char>> {
    match bech32_decoding(address) {
        Some((hrp, groups)) => bech32_encoding(hrp, groups),
        None => None,
    }
}

/// Whether a text is the hyphenated lower-case writing of a uuid.
pub open spec fn is_canonical_uuid(asset_uuid: Seq<char>) -> bool {
    canonical_uuid(asset_uuid) == Some(asset_uuid)
}

/// Whether a text is the canonical writing of a bech32 address.
pub open spec fn is_canonical_address(address: Seq<char>) -> bool {
    canonical_address(address) == Some(address)
}

proof fn lemma_scope_prefix()
    ensures
        hrp_well_formed(SCOPE_PREFIX@),
        !hrp_has_upper(SCOPE_PREFIX@),
{
    reveal_strlit("scope");
    assert(SCOPE_PREFIX@.len() == 5);
    assert(forall|i: int|
        0 <= i < SCOPE_PREFIX@.len() ==> 'a' <= #[trigger] SCOPE_PREFIX@[i] <= 'z') by {
        assert(SCOPE_PREFIX@[0] == 's');
        assert(SCOPE_PREFIX@[1] == 'c');
        assert(SCOPE_PREFIX@[2] == 'o');
        assert(SCOPE_PREFIX@[3] == 'p');
        assert(SCOPE_PREFIX@[4] == 'e');
    }
}

/// The bytes of a vector from the second one on.
fn bytes_after_first(bytes: &Vec<u8>) -> (r: Vec<u8>)
    requires
        bytes@.len() >= 1,
    ensures
        r@ == bytes@.subrange(1, bytes@.len() as int),
{
    let mut r: Vec<u8> = Vec::new();
    let mut i: usize = 1;
    while i < bytes.len()
        invariant
            1 <= i <= bytes@.len(),
            r@ == bytes@.subrange(1, i as int),
        decreases bytes@.len() - i,
    {
        r.push(bytes[i]);
        assert(r@ =~= bytes@.subrange(1, i + 1));
        i = i + 1;
    }
    assert(r@ =~= bytes@.subrange(1, bytes@.len() as int));
    r
}

/// The key byte of a scope followed by the given bytes.
fn key_then_bytes(uuid_bytes: &Vec<u8>) -> (r: Vec<u8>)
    ensures
        r@ == scope_bytes(uuid_bytes@),
{
    let mut r: Vec<u8> = Vec::new();
    r.push(SCOPE_KEY);
    let mut i: usize = 0;
    while i < uuid_bytes.len()
        invariant
            i <= uuid_bytes@.len(),
            r@ == scope_bytes(uuid_bytes@.subrange(0, i as int)),
        decreases uuid_bytes@.len() - i,
    {
        r.push(uuid_bytes[i]);
        assert(r@ =~= scope_bytes(uuid_bytes@.subrange(0, i + 1)));
        i = i + 1;
    }
    assert(uuid_bytes@.subrange(0, uuid_bytes@.len() as int) =~= uuid_bytes@);
    r
}

/// Derives the scope address of an asset from the asset's uuid.
///
/// Succeeds exactly on the texts that parse as a uuid. The address that
/// comes out leads back to the uuid, in its hyphenated lower-case writing:
/// to the very text that was given, where that is how it was written.
pub fn asset_uuid_to_scope_address(asset_uuid: &str) -> (r: Result<String, ContractError>)
    ensures
        outcome(r) == scope_address_outcome(asset_uuid@),
        r is Ok <==> uuid_parsing(asset_uuid@) is Some,
        r matches Ok(address) ==> asset_uuid_of(address@) == canonical_uuid(asset_uuid@),
        r matches Ok(address) ==> is_canonical_uuid(asset_uuid@) ==> asset_uuid_of(address@)
            == Some(asset_uuid@),
{
    let uuid_bytes = match uuid_parse(asset_uuid) {
        Ok(bytes) => bytes,
        Err(error) => {
            return Err(ContractError::UuidError(error));
        },
    };
    let bytes = key_then_bytes(&uuid_bytes);
    let groups = bytes_to_base32(&bytes);
    proof {
        lemma_scope_prefix();
    }
    match bech32_encode(SCOPE_PREFIX, &groups) {
        Ok(address) => {
            proof {
                assert(bytes@.subrange(1, SCOPE_BYTES as int) =~= uuid_bytes@);
            }
            Ok(address)
        },
        Err(error) => Err(ContractError::Bech32Error(error)),
    }
}

/// Derives the uuid of an asset from the asset's scope address.
///
/// Succeeds exactly on the bech32 texts with the prefix `scope` that hold
/// the key byte of a scope and sixteen more bytes. The uuid that comes out
/// leads back to the address, in its canonical writing: to the very text
/// that was given, where that is how it was written.
pub fn scope_address_to_asset_uuid(scope_address: &str) -> (r: Result<String, ContractError>)
    ensures
        outcome(r) == asset_uuid_outcome(scope_address@),
        r matches Ok(asset_uuid) ==> scope_address_of(asset_uuid@) == canonical_address(
            scope_address@,
        ),
        r matches Ok(asset_uuid) ==> is_canonical_address(scope_address@) ==> scope_address_of(
            asset_uuid@,
        ) == Some(scope_address@),
{
    let (hrp, groups) = match bech32_decode(scope_address) {
        Ok(parts) => parts,
        Err(error) => {
            return Err(ContractError::Bech32Error(error));
        },
    };
    if hrp != String::from_str(SCOPE_PREFIX) {
        return Err(
            ContractError::InvalidAddress {
                address: String::from_str(scope_address),
                explanation: String::from_str(WRONG_PREFIX),
            },
        );
    }
    let bytes = match base32_to_bytes(&groups) {
        Ok(bytes) => bytes,
        Err(error) => {
            return Err(ContractError::Bech32Error(error));
        },
    };
    if bytes.len() != SCOPE_BYTES || bytes[0] != SCOPE_KEY {
        return Err(
            ContractError::InvalidAddress {
                address: String::from_str(scope_address),
                explanation: String::from_str(WRONG_PAYLOAD),
            },
        );
    }
    let uuid_bytes = bytes_after_first(&bytes);
    match uuid_write(&uuid_bytes) {
        Ok(asset_uuid) => {
            proof {
                assert(scope_bytes(uuid_bytes@) =~= bytes@);
            }
            Ok(asset_uuid)
        },
        Err(error) => Err(ContractError::UuidError(error)),
    }
}

} // verus!
