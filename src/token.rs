use vstd::prelude::*;

use crate::schema::{
    borsh_params, fallback_params, params_of, unset_text, params_or_fallback, MintError,
    SchemaControlledMintInitializationParameters,
};
use crate::utils::{le_bytes, string_bytes, u128_le, utf8_bytes};

verus! {

/// The identity of a token contract.
#[derive(PartialEq, Eq, Structural, Debug, Clone, Copy)]
pub struct AlkaneId {
    pub block: u128,
    pub tx: u128,
}

/// An amount of one token.
#[derive(PartialEq, Eq, Structural, Debug, Clone, Copy)]
pub struct AlkaneTransfer {
    pub id: AlkaneId,
    pub value: u128,
}

/// What the host hands a call: the contract's own identity, the tokens
/// attached to the call, and the call's inputs.
pub struct Context {
    pub myself: AlkaneId,
    pub incoming_alkanes: Vec<AlkaneTransfer>,
    pub inputs: Vec<u128>,
}

/// What a call hands back: tokens to pass on, and response bytes.
pub struct CallResponse {
    pub alkanes: Vec<AlkaneTransfer>,
    pub data: Vec<u8>,
}

impl CallResponse {
    /// A response that passes the attached tokens on, with no data.
    pub fn forward(incoming: &Vec<AlkaneTransfer>) -> (r: CallResponse)
        ensures
            r.alkanes@ == incoming@,
            r.data@.len() == 0,
    {
        let mut alkanes: Vec<AlkaneTransfer> = Vec::new();
        let mut i: usize = 0;
        while i < incoming.len()
            invariant
                i <= incoming@.len(),
                alkanes@ == incoming@.subrange(0, i as int),
            decreases incoming.len() - i,
        {
            alkanes.push(incoming[i]);
            assert(incoming@.subrange(0, i + 1) == incoming@.subrange(0, i as int).push(incoming@[i as int]));
            i = i + 1;
        }
        assert(incoming@.subrange(0, i as int) == incoming@);
        CallResponse { alkanes, data: Vec::new() }
    }
}

/// A transaction id, as its 32 raw bytes.
#[derive(Debug, Clone, Copy)]
pub struct TxId {
    pub bytes: [u8; 32],
}

/// Whether two transaction ids hold the same bytes.
fn same_txid(a: &TxId, b: &TxId) -> (r: bool)
    ensures
        r == (a.bytes@ == b.bytes@),
{
    let mut i: usize = 0;
    while i < 32
        invariant
            i <= 32,
            a.bytes@.len() == 32,
            b.bytes@.len() == 32,
            forall|k: int| 0 <= k < i ==> a.bytes@[k] == b.bytes@[k],
        decreases 32 - i,
    {
        if a.bytes[i] != b.bytes[i] {
            return false;
        }
        i = i + 1;
    }
    assert(a.bytes@ =~= b.bytes@);
    true
}

/// The token's persistent state, in the model that contracts speak of.
pub struct MintStateView {
    /// The raw configuration bytes.
    pub consts: Seq<u8>,
    pub total_supply: u128,
    pub minted: u128,
    /// The transaction ids that were marked as seen.
    pub seen: Set<Seq<u8>>,
    /// The amount a single mint grants, as the token reports it.
    pub value_per_mint: u128,
}

/// The persistent state of a mintable token: the configuration bytes, the
/// supply and mint counters, the set of transaction ids already seen, and
/// the amount per mint that the token's policy reports. The state changes
/// only through the methods below.
pub struct MintableToken {
    consts: Vec<u8>,
    total_supply: u128,
    minted: u128,
    tx_hashes: Vec<TxId>,
    per_mint: u128,
}

/// The marker byte stored for a transaction id that was seen.
pub const SEEN_MARKER: u8 = 1;

/// Whether the bytes stored for a transaction id mark it as seen: only the
/// single byte `1` does; nothing stored, or any other value, does not.
pub fn is_seen_marker(stored: &Vec<u8>) -> (r: bool)
    ensures
        r == (stored@.len() == 1 && stored@[0] == 1),
{
    stored.len() == 1 && stored[0] == SEEN_MARKER
}

/// The total supply after adding `v` to `ts`, or `None` on overflow.
pub open spec fn supply_after(ts: u128, v: u128) -> Option<u128> {
    if ts + v <= u128::MAX {
        Some((ts + v) as u128)
    } else {
        None
    }
}

/// The mint counter after one more mint, or `None` on overflow.
pub open spec fn count_after(m: u128) -> Option<u128> {
    if m < u128::MAX {
        Some((m + 1) as u128)
    } else {
        None
    }
}

impl View for MintableToken {
    type V = MintStateView;

    closed spec fn view(&self) -> MintStateView {
        MintStateView {
            consts: self.consts@,
            total_supply: self.total_supply,
            minted: self.minted,
            seen: Set::new(|t: Seq<u8>| exists|i: int| 0 <= i < self.tx_hashes@.len() && self.tx_hashes@[i].bytes@ == t),
            value_per_mint: self.per_mint,
        }
    }
}

impl MintableToken {
    /// A token with the given configuration bytes and nothing minted or seen.
    pub fn new(consts: Vec<u8>) -> (r: MintableToken)
        ensures
            r@.consts == consts@,
            r@.total_supply == 0,
            r@.minted == 0,
            r@.seen == Set::<Seq<u8>>::empty(),
            r@.value_per_mint == 0,
    {
        MintableToken::from_parts(consts, 0, 0)
    }

    /// A token with the given configuration bytes and counters, and nothing
    /// seen, as loaded from storage.
    pub fn from_parts(consts: Vec<u8>, total_supply: u128, minted: u128) -> (r: MintableToken)
        ensures
            r@ == (MintStateView {
                consts: consts@,
                total_supply,
                minted,
                seen: Set::<Seq<u8>>::empty(),
                value_per_mint: 0,
            }),
    {
        let r = MintableToken { consts, total_supply, minted, tx_hashes: Vec::new(), per_mint: 0 };
        assert(r@.seen =~= Set::<Seq<u8>>::empty());
        r
    }

    /// The same token, reporting `v` as the amount a single mint grants.
    pub fn with_value_per_mint(self, v: u128) -> (r: MintableToken)
        ensures
            r@ == (MintStateView { value_per_mint: v, ..self@ }),
    {
        let mut r = self;
        r.per_mint = v;
        r
    }

    /// The configuration bytes as stored.
    pub fn consts_bytes(&self) -> (r: &Vec<u8>)
        ensures
            r@ == self@.consts,
    {
        &self.consts
    }

    /// The transaction ids marked as seen, each once.
    pub fn seen_ids(&self) -> (r: Vec<TxId>)
        ensures
            forall|t: Seq<u8>| self@.seen.contains(t) <==> exists|i: int| 0 <= i < r@.len() && r@[i].bytes@ == t,
    {
        let mut r: Vec<TxId> = Vec::new();
        let mut i: usize = 0;
        while i < self.tx_hashes.len()
            invariant
                i <= self.tx_hashes@.len(),
                r@ == self.tx_hashes@.subrange(0, i as int),
            decreases self.tx_hashes.len() - i,
        {
            r.push(self.tx_hashes[i]);
            assert(self.tx_hashes@.subrange(0, i + 1) == self.tx_hashes@.subrange(0, i as int).push(self.tx_hashes@[i as int]));
            i = i + 1;
        }
        assert(self.tx_hashes@.subrange(0, i as int) == self.tx_hashes@);
        r
    }

    /// The configuration, or the fallback where the stored bytes do not decode.
    pub fn get_consts(&self) -> (r: SchemaControlledMintInitializationParameters)
        ensures
            r@ == params_of(self@.consts),
            self@.consts.len() < 4 ==> r@ == fallback_params(),
    {
        params_or_fallback(&self.consts)
    }

    /// The configured name, or "UNSET".
    pub fn name(&self) -> (r: String)
        ensures
            r@ == params_of(self@.consts).0,
            self@.consts.len() < 4 ==> r@ == fallback_params().0,
    {
        self.get_consts().token_name
    }

    /// The configured symbol, or "UNSET".
    pub fn symbol(&self) -> (r: String)
        ensures
            r@ == params_of(self@.consts).1,
            self@.consts.len() < 4 ==> r@ == fallback_params().1,
    {
        self.get_consts().token_symbol
    }

    /// The configured cap on the total supply, or `u128::MAX`.
    pub fn cap(&self) -> (r: u128)
        ensures
            r == params_of(self@.consts).3,
            self@.consts.len() < 4 ==> r == u128::MAX,
    {
        self.get_consts().cap
    }

    /// The units minted so far.
    pub fn total_supply(&self) -> (r: u128)
        ensures
            r == self@.total_supply,
    {
        self.total_supply
    }

    /// Overwrites the total supply, unchecked.
    pub fn set_total_supply(&mut self, v: u128)
        ensures
            final(self)@ == (MintStateView { total_supply: v, ..old(self)@ }),
    {
        self.total_supply = v;
    }

    /// Adds `v` to the total supply; on overflow fails and changes nothing.
    pub fn increase_total_supply(&mut self, v: u128) -> (r: Result<(), MintError>)
        ensures
            match supply_after(old(self)@.total_supply, v) {
                Some(n) => r is Ok && final(self)@ == (MintStateView { total_supply: n, ..old(self)@ }),
                None => r == Err::<(), MintError>(MintError::SupplyOverflow) && final(self)@ == old(self)@,
            },
    {
        match self.total_supply().checked_add(v) {
            Some(n) => {
                self.set_total_supply(n);
                Ok(())
            },
            None => Err(MintError::SupplyOverflow),
        }
    }

    /// Adds `value` to the total supply and hands back that amount of the
    /// contract's own token. No cap and no replay check is made here.
    pub fn mint(&mut self, context: &Context, value: u128) -> (r: Result<AlkaneTransfer, MintError>)
        ensures
            match supply_after(old(self)@.total_supply, value) {
                Some(n) => r == Ok::<AlkaneTransfer, MintError>(AlkaneTransfer { id: context.myself, value })
                    && final(self)@ == (MintStateView { total_supply: n, ..old(self)@ }),
                None => r == Err::<AlkaneTransfer, MintError>(MintError::SupplyOverflow)
                    && final(self)@ == old(self)@,
            },
    {
        match self.increase_total_supply(value) {
            Ok(()) => Ok(AlkaneTransfer { id: context.myself, value }),
            Err(e) => Err(e),
        }
    }

    /// The number of successful mint operations so far.
    pub fn minted(&self) -> (r: u128)
        ensures
            r == self@.minted,
    {
        self.minted
    }

    /// Overwrites the mint counter, unchecked.
    pub fn set_minted(&mut self, v: u128)
        ensures
            final(self)@ == (MintStateView { minted: v, ..old(self)@ }),
    {
        self.minted = v;
    }

    /// Adds one to the mint counter; on overflow fails and changes nothing.
    pub fn increment_mint(&mut self) -> (r: Result<(), MintError>)
        ensures
            match count_after(old(self)@.minted) {
                Some(n) => r is Ok && final(self)@ == (MintStateView { minted: n, ..old(self)@ }),
                None => r == Err::<(), MintError>(MintError::MintCounterOverflow) && final(self)@ == old(self)@,
            },
    {
        match self.minted().checked_add(1) {
            Some(n) => {
                self.set_minted(n);
                Ok(())
            },
            None => Err(MintError::MintCounterOverflow),
        }
    }

    /// The amount a single mint grants, as the token reports it.
    pub fn value_per_mint(&self) -> (r: u128)
        ensures
            r == self@.value_per_mint,
    {
        self.per_mint
    }

    /// Whether `txid` was marked as seen.
    pub fn has_tx_hash(&self, txid: &TxId) -> (r: bool)
        ensures
            r == self@.seen.contains(txid.bytes@),
    {
        let mut i: usize = 0;
        while i < self.tx_hashes.len()
            invariant
                i <= self.tx_hashes@.len(),
                forall|k: int| 0 <= k < i ==> self.tx_hashes@[k].bytes@ != txid.bytes@,
            decreases self.tx_hashes.len() - i,
        {
            if same_txid(&self.tx_hashes[i], txid) {
                return true;
            }
            i = i + 1;
        }
        false
    }

    /// Marks `txid` as seen.
    pub fn add_tx_hash(&mut self, txid: &TxId) -> (r: Result<(), MintError>)
        ensures
            r is Ok,
            final(self)@ == (MintStateView { seen: old(self)@.seen.insert(txid.bytes@), ..old(self)@ }),
    {
        if !self.has_tx_hash(txid) {
            let ghost before = self.tx_hashes@;
            self.tx_hashes.push(*txid);
            proof {
                assert(self.tx_hashes@[before.len() as int] == *txid);
                assert forall|k: int| 0 <= k < before.len() implies self.tx_hashes@[k] == before[k] by {}
            }
        }
        proof {
            assert(self@.seen =~= old(self)@.seen.insert(txid.bytes@));
        }
        Ok(())
    }

    /// The minting policy of a token that has none: it always fails.
    pub fn mint_tokens(&self) -> (r: Result<CallResponse, MintError>)
        ensures
            r matches Err(e) && e == MintError::Unmintable,
    {
        Err(MintError::Unmintable)
    }
    /// Name query: the name's UTF-8 bytes, passing the attached tokens on.
    pub fn get_name(&self, context: &Context) -> (r: CallResponse)
        ensures
            r.alkanes@ == context.incoming_alkanes@,
            r.data@ == utf8_bytes(params_of(self@.consts).0),
            self@.consts.len() < 4 ==> r.data@ == utf8_bytes(unset_text()),
    {
        let mut rsp = CallResponse::forward(&context.incoming_alkanes);
        rsp.data = string_bytes(self.name());
        rsp
    }

    /// Symbol query: the symbol's UTF-8 bytes, passing the attached tokens on.
    pub fn get_symbol(&self, context: &Context) -> (r: CallResponse)
        ensures
            r.alkanes@ == context.incoming_alkanes@,
            r.data@ == utf8_bytes(params_of(self@.consts).1),
            self@.consts.len() < 4 ==> r.data@ == utf8_bytes(unset_text()),
    {
        let mut rsp = CallResponse::forward(&context.incoming_alkanes);
        rsp.data = string_bytes(self.symbol());
        rsp
    }

    /// Total-supply query: 16 little-endian bytes, passing the attached tokens on.
    pub fn get_total_supply(&self, context: &Context) -> (r: CallResponse)
        ensures
            r.alkanes@ == context.incoming_alkanes@,
            r.data@ == le_bytes(self@.total_supply),
    {
        let mut rsp = CallResponse::forward(&context.incoming_alkanes);
        rsp.data = u128_le(self.total_supply());
        rsp
    }

    /// Cap query: 16 little-endian bytes, passing the attached tokens on.
    pub fn get_cap(&self, context: &Context) -> (r: CallResponse)
        ensures
            r.alkanes@ == context.incoming_alkanes@,
            r.data@ == le_bytes(params_of(self@.consts).3),
            self@.consts.len() < 4 ==> r.data@ == le_bytes(u128::MAX),
    {
        let mut rsp = CallResponse::forward(&context.incoming_alkanes);
        rsp.data = u128_le(self.cap());
        rsp
    }

    /// Minted query: 16 little-endian bytes, passing the attached tokens on.
    pub fn get_minted(&self, context: &Context) -> (r: CallResponse)
        ensures
            r.alkanes@ == context.incoming_alkanes@,
            r.data@ == le_bytes(self@.minted),
    {
        let mut rsp = CallResponse::forward(&context.incoming_alkanes);
        rsp.data = u128_le(self.minted());
        rsp
    }

    /// Value-per-mint query: 16 little-endian bytes, passing the attached tokens on.
    pub fn get_value_per_mint(&self, context: &Context) -> (r: CallResponse)
        ensures
            r.alkanes@ == context.incoming_alkanes@,
            r.data@ == le_bytes(self@.value_per_mint),
    {
        let mut rsp = CallResponse::forward(&context.incoming_alkanes);
        rsp.data = u128_le(self.value_per_mint());
        rsp
    }

    /// Data and metadata queries: the attached tokens passed on, no data.
    pub fn get_data(&self, context: &Context) -> (r: CallResponse)
        ensures
            r.alkanes@ == context.incoming_alkanes@,
            r.data@.len() == 0,
    {
        CallResponse::forward(&context.incoming_alkanes)
    }
}

/// Two increases of the total supply, by `v1` and then by `v2`, leave the
/// same counter as one increase by `v1 + v2`, where no sum passes the maximum.
pub proof fn lemma_increases_compose(ts: u128, v1: u128, v2: u128)
    requires
        ts + v1 + v2 <= u128::MAX,
    ensures
        supply_after(ts, v1) == Some((ts + v1) as u128),
        supply_after((ts + v1) as u128, v2) == supply_after(ts, (v1 + v2) as u128),
        supply_after(ts, (v1 + v2) as u128) == Some((ts + v1 + v2) as u128),
{
}

/// From a total supply of `u128::MAX - k`, an increase by `k + 1` fails; the
/// failed increase leaves the state as it was (see `increase_total_supply`).
pub proof fn lemma_increase_past_max_fails(k: u128)
    requires
        k < u128::MAX,
    ensures
        supply_after((u128::MAX - k) as u128, (k + 1) as u128) is None,
{
}

/// The mint counter after `n` increments from `m`, or `None` where one fails.
pub open spec fn count_after_n(m: u128, n: nat) -> Option<u128>
    decreases n,
{
    if n == 0 {
        Some(m)
    } else {
        match count_after_n(m, (n - 1) as nat) {
            Some(c) => count_after(c),
            None => None,
        }
    }
}

/// From zero, `n` increments of the mint counter leave it at `n`, for every
/// `n` up to the maximum; the next increment after the maximum fails.
pub proof fn lemma_increments_count(n: nat)
    requires
        n <= u128::MAX,
    ensures
        count_after_n(0, n) == Some(n as u128),
        count_after(u128::MAX) is None,
    decreases n,
{
    if n > 0 {
        lemma_increments_count((n - 1) as nat);
    }
}

/// A transaction id is seen after it is marked, and marking it again
/// changes nothing; before any mark it is not seen.
pub proof fn lemma_replay_guard(seen: Set<Seq<u8>>, t: Seq<u8>)
    ensures
        seen.insert(t).contains(t),
        seen.insert(t).insert(t) == seen.insert(t),
        !Set::<Seq<u8>>::empty().contains(t),
{
    assert(seen.insert(t).insert(t) =~= seen.insert(t));
}

/// Configuration bytes that do not decode read as name and symbol "UNSET"
/// and the largest cap.
pub proof fn lemma_fallback(b: Seq<u8>)
    requires
        borsh_params(b) is None,
    ensures
        params_of(b).0 == unset_text(),
        params_of(b).1 == unset_text(),
        params_of(b).3 == u128::MAX,
{
}

} // verus!
