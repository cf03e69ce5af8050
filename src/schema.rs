use borsh::BorshDeserialize;
use vstd::prelude::*;

use crate::utils::get_byte_array_from_inputs;
use crate::utils::concat_le;

verus! {

/// The parameters a token is deployed with.
pub struct SchemaControlledMintInitializationParameters {
    pub token_name: String,
    pub token_symbol: String,
    pub premine: u128,
    pub cap: u128,
}

/// Name, symbol, premine and cap.
pub type ParamsView = (Seq<char>, Seq<char>, u128, u128);

impl View for SchemaControlledMintInitializationParameters {
    type V = ParamsView;

    open spec fn view(&self) -> ParamsView {
        (self.token_name@, self.token_symbol@, self.premine, self.cap)
    }
}

/// Errors of the token's bookkeeping.
#[derive(PartialEq, Eq, Structural, Debug, Clone, Copy)]
pub enum MintError {
    /// Adding to the total supply would pass `u128::MAX`.
    SupplyOverflow,
    /// Adding one to the mint counter would pass `u128::MAX`.
    MintCounterOverflow,
    /// The token has no minting policy.
    Unmintable,
    /// Payload bytes do not decode to the expected value.
    DecodeFailure,
}

impl MintError {
    /// A line of text that describes the error.
    pub fn message(&self) -> (r: String)
        ensures
            *self == MintError::SupplyOverflow ==> r@ == "total supply overflow"@,
            *self == MintError::MintCounterOverflow ==> r@ == "mint counter overflow"@,
            *self == MintError::Unmintable ==> r@ == "this token is unmintable"@,
            *self == MintError::DecodeFailure ==> r@ == "failed to decode the initialization parameters"@,
    {
        proof {
            reveal_strlit("total supply overflow");
            reveal_strlit("mint counter overflow");
            reveal_strlit("this token is unmintable");
            reveal_strlit("failed to decode the initialization parameters");
        }
        match self {
            MintError::SupplyOverflow => "total supply overflow".to_owned(),
            MintError::MintCounterOverflow => "mint counter overflow".to_owned(),
            MintError::Unmintable => "this token is unmintable".to_owned(),
            MintError::DecodeFailure => "failed to decode the initialization parameters".to_owned(),
        }
    }
}

/// What borsh reads from the front of `b` as a `(String, String, u128, u128)`.
pub uninterp spec fn borsh_params(b: Seq<u8>) -> Option<ParamsView>;

/// Relies on borsh's `BorshDeserialize` for `(String, String, u128, u128)`,
/// read from the front of the bytes (trailing bytes are left unread). The
/// first field starts with a four-byte length, so fewer bytes never decode.
#[verifier::external_body]
fn borsh_decode_params(b: &Vec<u8>) -> (r: Option<SchemaControlledMintInitializationParameters>)
    ensures
        match r {
            Some(p) => borsh_params(b@) == Some(p@),
            None => borsh_params(b@) is None,
        },
        b@.len() < 4 ==> r is None,
{
    let t = <(String, String, u128, u128)>::deserialize(&mut b.as_slice()).ok()?;
    Some(SchemaControlledMintInitializationParameters {
        token_name: t.0,
        token_symbol: t.1,
        premine: t.2,
        cap: t.3,
    })
}

/// The name and symbol of a token that was never configured.
pub open spec fn unset_text() -> Seq<char> {
    seq!['U', 'N', 'S', 'E', 'T']
}

/// The parameters that stand in for missing or unreadable configuration.
pub open spec fn fallback_params() -> ParamsView {
    (unset_text(), unset_text(), 0, u128::MAX)
}

/// The configuration that stored bytes describe, or the fallback.
pub open spec fn params_of(b: Seq<u8>) -> ParamsView {
    match borsh_params(b) {
        Some(p) => p,
        None => fallback_params(),
    }
}

/// The parameters that stand in for missing or unreadable configuration.
pub fn fallback() -> (r: SchemaControlledMintInitializationParameters)
    ensures
        r@ == fallback_params(),
{
    let name = "UNSET".to_owned();
    let symbol = "UNSET".to_owned();
    proof {
        reveal_strlit("UNSET");
        assert(name@ =~= unset_text());
        assert(symbol@ =~= unset_text());
    }
    SchemaControlledMintInitializationParameters {
        token_name: name,
        token_symbol: symbol,
        premine: 0,
        cap: u128::MAX,
    }
}

/// Reads configuration bytes; never fails, falling back where they do not decode.
pub fn params_or_fallback(b: &Vec<u8>) -> (r: SchemaControlledMintInitializationParameters)
    ensures
        r@ == params_of(b@),
        b@.len() < 4 ==> r@ == fallback_params(),
{
    match borsh_decode_params(b) {
        Some(p) => p,
        None => fallback(),
    }
}

/// Decodes initialization parameters from bytes.
pub fn decode_init_params(b: &Vec<u8>) -> (r: Result<SchemaControlledMintInitializationParameters, MintError>)
    ensures
        match r {
            Ok(p) => borsh_params(b@) == Some(p@),
            Err(e) => e == MintError::DecodeFailure && borsh_params(b@) is None,
        },
        b@.len() < 4 ==> r == Err::<SchemaControlledMintInitializationParameters, MintError>(MintError::DecodeFailure),
{
    match borsh_decode_params(b) {
        Some(p) => Ok(p),
        None => Err(MintError::DecodeFailure),
    }
}

/// Decodes initialization parameters from call inputs, after the operation selector.
pub fn decode_init_params_from_inputs(inputs: &Vec<u128>) -> (r: Result<SchemaControlledMintInitializationParameters, MintError>)
    requires
        inputs@.len() >= 1,
    ensures
        match r {
            Ok(p) => borsh_params(concat_le(inputs@.drop_first())) == Some(p@),
            Err(e) => e == MintError::DecodeFailure
                && borsh_params(concat_le(inputs@.drop_first())) is None,
        },
{
    let bytes = get_byte_array_from_inputs(inputs);
    decode_init_params(&bytes)
}

} // verus!
