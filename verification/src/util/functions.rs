use crate::model::error::{general_failure, ContractError, ContractErrorView};
use crate::util::codec::{bech32_decode, valid_address};
use crate::util::text::{decimal_text, number_text};
use vstd::prelude::*;
use vstd::string::StringExecFns;

verus! {

/// What separates the asset type from the contract's base name in the name
/// of an attribute.
pub const NAME_SEPARATOR: &'static str = ".";

/// How the failure to replace exactly one value begins; the number of values
/// that matched follows.
pub const REPLACEMENT_FAILURE: &'static str = "expected a single value to be replaced, but found ";

/// What follows a number of hundredths.
pub const PERCENT_SIGN: &'static str = "%";

/// How many of the smallest parts of a decimal make one: a decimal is held
/// as a whole number of parts of 10^-18.
pub const DECIMAL_FRACTIONAL: u128 = 1_000_000_000_000_000_000;

/// Calls `Uint128 * Decimal` of `cosmwasm-std` on an amount and a decimal
/// given by its atomics. The product is the amount times the atomics, divided
/// by 10^18 and rounded down; the call panics where that does not fit, which
/// is ruled out here.
#[verifier::external_body]
fn times_decimal(amount: u128, atomics: u128) -> (r: u128)
    requires
        amount as nat * atomics as nat / DECIMAL_FRACTIONAL as nat <= u128::MAX,
    ensures
        r as nat == amount as nat * atomics as nat / DECIMAL_FRACTIONAL as nat,
{
    (cosmwasm_std::Uint128::new(amount) * cosmwasm_std::Decimal::raw(atomics)).u128()
}

/// Writes a decimal, given by its atomics, as a percentage: the whole
/// hundredths that it holds, and a percent sign.
pub fn decimal_display_string(atomics: u128) -> (r: String)
    ensures
        r@ == decimal_text(100 * atomics as nat / DECIMAL_FRACTIONAL as nat) + PERCENT_SIGN@,
{
    let hundredths = times_decimal(100, atomics);
    number_text(hundredths).concat(PERCENT_SIGN)
}

/// The name of the attribute that the contract writes on the scopes of one
/// asset type: the type, a dot, and the contract's base name.
pub fn generate_asset_attribute_name(asset_type: &str, contract_base_name: &str) -> (r: String)
    ensures
        r@ == asset_type@ + NAME_SEPARATOR@ + contract_base_name@,
{
    String::from_str(asset_type).concat(NAME_SEPARATOR).concat(contract_base_name)
}

/// Checks that a text is a bech32 address and hands it back.
pub fn validate_address(address: &str) -> (r: Result<String, ContractError>)
    ensures
        r is Ok <==> valid_address(address@),
        r matches Ok(accepted) ==> accepted@ == address@,
        r matches Err(error) ==> error@ == ContractErrorView::Bech32Error,
{
    match bech32_decode(address) {
        Ok(_) => Ok(String::from_str(address)),
        Err(error) => Err(ContractError::Bech32Error(error)),
    }
}

/// The texts of a list of keys.
pub open spec fn key_texts(keys: Seq<&String>) -> Seq<Seq<char>> {
    Seq::new(keys.len(), |i: int| keys[i]@)
}

/// Whether one of the keys has the given text.
fn has_key(seen: &Vec<&String>, key: &String) -> (r: bool)
    ensures
        r == key_texts(seen@).contains(key@),
{
    let mut i: usize = 0;
    while i < seen.len()
        invariant
            i <= seen@.len(),
            forall|j: int| 0 <= j < i ==> key_texts(seen@)[j] != key@,
        decreases seen@.len() - i,
    {
        if *seen[i] == *key {
            assert(key_texts(seen@)[i as int] == key@);
            return true;
        }
        i = i + 1;
    }
    false
}

/// Counts how many different keys the values of a list have. The selector
/// names the key of a value; it is asked once for each value, in order.
pub fn distinct_count_by_property<T, F: Fn(&T) -> &String>(slice: &[T], selector: F) -> (r: usize)
    requires
        forall|i: int| 0 <= i < slice@.len() ==> call_requires(selector, (&#[trigger] slice@[i],)),
    ensures
        exists|keys: Seq<&String>|
            {
                &&& keys.len() == slice@.len()
                &&& forall|i: int|
                    0 <= i < slice@.len() ==> call_ensures(
                        selector,
                        (&slice@[i],),
                        #[trigger] keys[i],
                    )
                &&& r == key_texts(keys).to_set().len()
            },
{
    let ghost mut keys: Seq<&String> = Seq::empty();
    let mut seen: Vec<&String> = Vec::new();
    let mut i: usize = 0;
    while i < slice.len()
        invariant
            i <= slice@.len(),
            keys.len() == i,
            forall|j: int|
                0 <= j < i ==> call_ensures(selector, (&slice@[j],), #[trigger] keys[j]),
            forall|j: int|
                0 <= j < slice@.len() ==> call_requires(selector, (&#[trigger] slice@[j],)),
            key_texts(seen@).no_duplicates(),
            key_texts(seen@).to_set() == key_texts(keys).to_set(),
            seen@.len() <= i,
        decreases slice@.len() - i,
    {
        let key = selector(&slice[i]);
        let ghost keys_before = keys;
        let ghost seen_before = seen@;
        let known = has_key(&seen, key);
        proof {
            keys = keys.push(key);
            assert(key_texts(keys) =~= key_texts(keys_before).push(key@));
            key_texts(keys_before).lemma_push_to_set_commute(key@);
        }
        if !known {
            seen.push(key);
            proof {
                assert(key_texts(seen@) =~= key_texts(seen_before).push(key@));
                key_texts(seen_before).lemma_push_to_set_commute(key@);
            }
        } else {
            proof {
                assert(key_texts(seen_before).to_set().contains(key@));
                assert(key_texts(keys_before).to_set().insert(key@) =~= key_texts(
                    keys_before,
                ).to_set());
            }
        }
        i = i + 1;
    }
    proof {
        key_texts(seen@).unique_seq_to_set();
    }
    seen.len()
}

/// The values at the positions that are not marked, in their order.
pub open spec fn unmarked<T>(values: Seq<T>, marks: Seq<bool>) -> Seq<T>
    decreases values.len(),
{
    if values.len() == 0 || marks.len() == 0 {
        Seq::empty()
    } else if marks.last() {
        unmarked(values.drop_last(), marks.drop_last())
    } else {
        unmarked(values.drop_last(), marks.drop_last()).push(values.last())
    }
}

/// How many positions are marked.
pub open spec fn marked_count(marks: Seq<bool>) -> nat
    decreases marks.len(),
{
    if marks.len() == 0 {
        0
    } else if marks.last() {
        marked_count(marks.drop_last()) + 1
    } else {
        marked_count(marks.drop_last())
    }
}

proof fn lemma_marked_count_bound(marks: Seq<bool>)
    ensures
        marked_count(marks) <= marks.len(),
    decreases marks.len(),
{
    if marks.len() > 0 {
        lemma_marked_count_bound(marks.drop_last());
    }
}

/// What is said when not exactly one value was replaced.
pub fn replacement_failure_message(replaced: usize) -> (r: String)
    ensures
        r@ == REPLACEMENT_FAILURE@ + decimal_text(replaced as nat),
{
    let count = number_text(replaced as u128);
    String::from_str(REPLACEMENT_FAILURE).concat(count.as_str())
}

/// Takes the one value that the predicate accepts out of the list and puts
/// `new` at the end. Fails where the predicate accepts no value or more than
/// one; the failure says how many it accepted, in the words of
/// [`replacement_failure_message`].
///
/// The predicate is asked once for each value, in order.
pub fn replace_single_matching_vec_element<T, F: Fn(&T) -> bool>(
    v: Vec<T>,
    new: T,
    predicate: F,
) -> (r: Result<Vec<T>, ContractError>)
    requires
        forall|i: int| 0 <= i < v@.len() ==> call_requires(predicate, (&#[trigger] v@[i],)),
    ensures
        exists|marks: Seq<bool>|
            {
                &&& marks.len() == v@.len()
                &&& forall|i: int|
                    0 <= i < v@.len() ==> call_ensures(predicate, (&v@[i],), #[trigger] marks[i])
                &&& match r {
                    Ok(replaced) => marked_count(marks) == 1 && replaced@ == unmarked(
                        v@,
                        marks,
                    ).push(new),
                    Err(error) => marked_count(marks) != 1 && error@ == general_failure(
                        REPLACEMENT_FAILURE@ + decimal_text(marked_count(marks)),
                    ),
                }
            },
{
    let ghost values = v@;
    let ghost mut marks: Seq<bool> = Seq::empty();
    let mut kept: Vec<T> = Vec::new();
    let mut replaced: usize = 0;
    let total = v.len();
    for element in it: v.into_iter()
        invariant
            it.seq() == values,
            total == values.len(),
            marks.len() == it.index(),
            forall|i: int|
                0 <= i < it.index() ==> call_ensures(predicate, (&values[i],), #[trigger] marks[i]),
            forall|i: int| 0 <= i < values.len() ==> call_requires(predicate, (&#[trigger] values[i],)),
            replaced == marked_count(marks),
            kept@ == unmarked(values.take(it.index() as int), marks),
    {
        let ghost before = marks;
        let matched = predicate(&element);
        proof {
            marks = marks.push(matched);
            lemma_marked_count_bound(before);
            assert(marks.drop_last() =~= before);
            assert(values.take(it.index() + 1).drop_last() =~= values.take(it.index() as int));
        }
        if matched {
            replaced = replaced + 1;
        } else {
            kept.push(element);
        }
    }
    proof {
        assert(values.take(values.len() as int) =~= values);
    }
    if replaced == 1 {
        kept.push(new);
        Ok(kept)
    } else {
        Err(ContractError::std_err(replacement_failure_message(replaced)))
    }
}

} // verus!
