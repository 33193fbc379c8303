use crate::util::text::digit_char;
use bech32::{CheckBase32, FromBase32, ToBase32};
use vstd::prelude::*;

verus! {

/// What `bech32::decode` makes of a text: the human-readable part, in lower
/// case, and the data part as five-bit groups without the checksum; `None`
/// where it reports an error.
pub uninterp spec fn bech32_decoding(s: Seq<char>) -> Option<(Seq<char>, Seq<u8>)>;

/// What `bech32::encode` writes for a human-readable part and five-bit
/// groups, with the checksum of the first Bech32 variant; `None` where it
/// reports an error.
pub uninterp spec fn bech32_encoding(hrp: Seq<char>, groups: Seq<u8>) -> Option<Seq<char>>;

/// The five-bit groups that `ToBase32::to_base32` cuts a sequence of bytes
/// into, the last one padded with zero bits.
pub uninterp spec fn base32_grouping(bytes: Seq<u8>) -> Seq<u8>;

/// The bytes that `FromBase32::from_base32` puts five-bit groups together
/// to; `None` where a value is no five-bit group or the padding is not zero.
pub uninterp spec fn base32_ungrouping(groups: Seq<u8>) -> Option<Seq<u8>>;

/// The sixteen bytes that `Uuid::parse_str` reads from a text; `None` where
/// it reports an error.
pub uninterp spec fn uuid_parsing(s: Seq<char>) -> Option<Seq<u8>>;

/// Whether `bech32` accepts a text as a human-readable part: between 1 and
/// 83 printable ASCII characters, not both upper-case and lower-case letters
/// among them.
pub open spec fn hrp_well_formed(hrp: Seq<char>) -> bool {
    &&& 1 <= hrp.len() <= 83
    &&& forall|i: int| 0 <= i < hrp.len() ==> 33 <= #[trigger] hrp[i] as u32 <= 126
    &&& !(hrp_has_upper(hrp) && hrp_has_lower(hrp))
}

/// Whether an upper-case ASCII letter occurs in the text.
pub open spec fn hrp_has_upper(hrp: Seq<char>) -> bool {
    exists|i: int| 0 <= i < hrp.len() && 'A' <= #[trigger] hrp[i] <= 'Z'
}

/// Whether a lower-case ASCII letter occurs in the text.
pub open spec fn hrp_has_lower(hrp: Seq<char>) -> bool {
    exists|i: int| 0 <= i < hrp.len() && 'a' <= #[trigger] hrp[i] <= 'z'
}

/// Whether every value is a five-bit group.
pub open spec fn all_five_bit(groups: Seq<u8>) -> bool {
    forall|i: int| 0 <= i < groups.len() ==> #[trigger] groups[i] < 32
}

/// The character that writes a hexadecimal digit in lower case.
pub open spec fn hex_char(d: nat) -> char
    recommends
        d < 16,
{
    if d < 10 {
        digit_char(d)
    } else if d == 10 {
        'a'
    } else if d == 11 {
        'b'
    } else if d == 12 {
        'c'
    } else if d == 13 {
        'd'
    } else if d == 14 {
        'e'
    } else {
        'f'
    }
}

/// Bytes written as pairs of lower-case hexadecimal digits.
pub open spec fn hex_text(bytes: Seq<u8>) -> Seq<char>
    decreases bytes.len(),
{
    if bytes.len() == 0 {
        Seq::empty()
    } else {
        hex_text(bytes.drop_last()).push(hex_char((bytes.last() / 16) as nat)).push(
            hex_char((bytes.last() % 16) as nat),
        )
    }
}

/// The hyphenated lower-case writing of a uuid: groups of 4, 2, 2, 2 and 6
/// bytes in hexadecimal, with a hyphen between them.
pub open spec fn uuid_text(bytes: Seq<u8>) -> Seq<char>
    recommends
        bytes.len() == 16,
{
    hex_text(bytes.subrange(0, 4)).push('-') + hex_text(bytes.subrange(4, 6)).push('-') + hex_text(
        bytes.subrange(6, 8),
    ).push('-') + hex_text(bytes.subrange(8, 10)).push('-') + hex_text(bytes.subrange(10, 16))
}

/// Calls `bech32::decode` and hands out the human-readable part and the
/// five-bit groups as plain bytes. The result is named [`bech32_decoding`].
#[verifier::external_body]
pub(crate) fn bech32_decode(s: &str) -> (r: Result<(String, Vec<u8>), bech32::Error>)
    ensures
        r matches Ok((hrp, groups)) ==> bech32_decoding(s@) == Some((hrp@, groups@)),
        r is Err ==> bech32_decoding(s@) is None,
{
    let (hrp, data, _) = bech32::decode(s)?;
    Ok((hrp, data.into_iter().map(|group| group.to_u8()).collect()))
}

/// Calls `bech32::encode` for the first Bech32 variant. The result is named
/// [`bech32_encoding`]. It is claimed that the call succeeds on a
/// well-formed human-readable part and five-bit groups, which are the only
/// things it checks, and that the text it writes for a human-readable part
/// without upper-case letters decodes to what was encoded.
#[verifier::external_body]
pub(crate) fn bech32_encode(hrp: &str, groups: &Vec<u8>) -> (r: Result<String, bech32::Error>)
    ensures
        r matches Ok(text) ==> bech32_encoding(hrp@, groups@) == Some(text@),
        r matches Ok(text) ==> !hrp_has_upper(hrp@) ==> bech32_decoding(text@) == Some(
            (hrp@, groups@),
        ),
        r is Err ==> bech32_encoding(hrp@, groups@) is None,
        hrp_well_formed(hrp@) && all_five_bit(groups@) ==> r is Ok,
{
    let data = groups.check_base32()?;
    bech32::encode(hrp, data, bech32::Variant::Bech32)
}

/// Calls `ToBase32::to_base32` and hands out the groups as plain bytes. The
/// result is named [`base32_grouping`]. It is claimed that every group is
/// below 32 and that `from_base32`, its reciprocal, gives the bytes back.
#[verifier::external_body]
pub(crate) fn bytes_to_base32(bytes: &Vec<u8>) -> (r: Vec<u8>)
    ensures
        r@ == base32_grouping(bytes@),
        all_five_bit(r@),
        base32_ungrouping(r@) == Some(bytes@),
{
    bytes.to_base32().into_iter().map(|group| group.to_u8()).collect()
}

/// Calls `FromBase32::from_base32` for bytes. The result is named
/// [`base32_ungrouping`]. It is claimed that `to_base32`, its reciprocal,
/// gives the groups back wherever the call succeeds.
#[verifier::external_body]
pub(crate) fn base32_to_bytes(groups: &Vec<u8>) -> (r: Result<Vec<u8>, bech32::Error>)
    ensures
        r matches Ok(bytes) ==> base32_ungrouping(groups@) == Some(bytes@),
        r matches Ok(bytes) ==> base32_grouping(bytes@) == groups@,
        r is Err ==> base32_ungrouping(groups@) is None,
{
    let data = groups.check_base32()?;
    Vec::<u8>::from_base32(&data)
}

/// Calls `Uuid::parse_str` and hands out the sixteen bytes. The result is
/// named [`uuid_parsing`].
#[verifier::external_body]
pub(crate) fn uuid_parse(s: &str) -> (r: Result<Vec<u8>, uuid::Error>)
    ensures
        r matches Ok(bytes) ==> uuid_parsing(s@) == Some(bytes@) && bytes@.len() == 16,
        r is Err ==> uuid_parsing(s@) is None,
{
    uuid::Uuid::parse_str(s).map(|parsed| parsed.as_bytes().to_vec())
}

/// Calls `Uuid::from_slice` and writes the uuid with `to_string`, which is
/// the hyphenated lower-case form. It is claimed that the call succeeds on
/// sixteen bytes and on nothing else, and that `parse_str` reads the bytes
/// back from what was written.
#[verifier::external_body]
pub(crate) fn uuid_write(bytes: &Vec<u8>) -> (r: Result<String, uuid::Error>)
    ensures
        r is Ok <==> bytes@.len() == 16,
        r matches Ok(text) ==> text@ == uuid_text(bytes@),
        r matches Ok(text) ==> uuid_parsing(text@) == Some(bytes@),
{
    uuid::Uuid::from_slice(bytes).map(|made| made.to_string())
}

/// Whether a text is a bech32 address: whether `bech32` can decode it.
pub open spec fn valid_address(s: Seq<char>) -> bool {
    bech32_decoding(s) is Some
}

} // verus!
