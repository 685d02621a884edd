//! The configuration of one foreign chain and its pool of paymasters.

use vstd::prelude::*;
use crate::account::is_valid_account_id;
use crate::error::Error;
use crate::paymaster::{
    advanced, pool_view, selected_index, swap_removed, PaymasterConfiguration, PaymasterView,
};
use crate::oracle::{convert, conversion_fits, converted, quote, AssetPriceView, PriceData};
use crate::uint::{u128_limit, u256_limit, U256};

verus! {

/// What the configuration of a foreign chain stands for.
pub struct ChainView {
    /// The id under which the price oracle quotes the chain's native asset.
    pub oracle_asset_id: Seq<char>,
    /// The gas that the paymaster's own transfer costs on the chain.
    pub transfer_gas: int,
    /// The fee rate as numerator and denominator.
    pub fee_rate: (u128, u128),
    /// The paymaster pool, in index order.
    pub paymasters: Seq<PaymasterView>,
    /// The raw round-robin cursor: any value of the counter.
    pub next_paymaster: u32,
}

impl ChainView {
    /// What holds of the view of every chain configuration.
    pub open spec fn well_formed(self) -> bool {
        &&& self.fee_rate.1 != 0
        &&& 0 <= self.transfer_gas < u128_limit()
        &&& self.paymasters.len() <= u32::MAX
        &&& forall|i: int|
            0 <= i < self.paymasters.len() ==> !is_valid_account_id(
                #[trigger] self.paymasters[i].key_path,
            )
    }

    /// The view of a chain that was just added: no paymaster, cursor zero.
    pub open spec fn fresh(oracle_asset_id: Seq<char>, transfer_gas: u128, fee_rate: (u128, u128)) -> ChainView {
        ChainView {
            oracle_asset_id,
            transfer_gas: transfer_gas as int,
            fee_rate,
            paymasters: Seq::empty(),
            next_paymaster: 0,
        }
    }
}

/// What `quantity` units of the chain's native asset cost in the local asset:
/// the conversion at the prices that `prices` quotes for the two assets and
/// at the chain's fee rate. It fails where a price is missing or the local
/// price's multiplier is zero, and where the conversion does not fit.
pub open spec fn token_price(
    chain: ChainView,
    local_asset_id: Seq<char>,
    prices: Seq<AssetPriceView>,
    quantity: int,
) -> Result<u128, Error> {
    match (quote(prices, local_asset_id), quote(prices, chain.oracle_asset_id)) {
        (Some(local), Some(foreign)) => if local.multiplier == 0 {
            Err(Error::PriceUnavailable)
        } else if !conversion_fits(quantity, local, foreign, chain.fee_rate) {
            Err(Error::ArithmeticOverflow)
        } else {
            Ok(converted(quantity, local, foreign, chain.fee_rate) as u128)
        },
        _ => Err(Error::PriceUnavailable),
    }
}

/// The units of the chain's native asset that a transaction may burn: its
/// gas limit and the gas of the paymaster's transfer, at its gas price.
pub open spec fn gas_tokens(gas: int, transfer_gas: int, gas_price: int) -> int {
    (gas + transfer_gas) * gas_price
}

/// What a transaction with the given gas limit and gas price costs in the
/// local asset. It fails where the units of gas do not fit 256 bits, and
/// where `token_price` fails.
pub open spec fn gas_cost(
    chain: ChainView,
    local_asset_id: Seq<char>,
    prices: Seq<AssetPriceView>,
    gas: int,
    gas_price: int,
) -> Result<u128, Error> {
    if gas_tokens(gas, chain.transfer_gas, gas_price) >= u256_limit() {
        Err(Error::ArithmeticOverflow)
    } else {
        token_price(
            chain,
            local_asset_id,
            prices,
            gas_tokens(gas, chain.transfer_gas, gas_price),
        )
    }
}

/// The configuration of a foreign chain.
#[derive(Debug)]
pub struct ChainConfiguration {
    paymasters: Vec<PaymasterConfiguration>,
    next_paymaster: u32,
    oracle_asset_id: String,
    transfer_gas: U256,
    fee_rate: (u128, u128),
}

impl View for ChainConfiguration {
    type V = ChainView;

    closed spec fn view(&self) -> ChainView {
        ChainView {
            oracle_asset_id: self.oracle_asset_id@,
            transfer_gas: self.transfer_gas@,
            fee_rate: self.fee_rate,
            paymasters: pool_view(self.paymasters@),
            next_paymaster: self.next_paymaster,
        }
    }
}

impl ChainConfiguration {
    #[verifier::type_invariant]
    spec fn valid(self) -> bool {
        &&& self.fee_rate.1 != 0
        &&& self.paymasters.len() <= u32::MAX
        &&& 0 <= self.transfer_gas@ < u128_limit()
        &&& forall|i: int|
            0 <= i < self.paymasters.len() ==> !is_valid_account_id(
                (#[trigger] self.paymasters[i])@.key_path,
            )
    }

    /// A chain with no paymaster and cursor zero, unless the fee rate has
    /// denominator zero.
    pub fn new(oracle_asset_id: String, transfer_gas: u128, fee_rate: (u128, u128)) -> (made: Result<
        ChainConfiguration,
        Error,
    >)
        ensures
            made is Ok <==> fee_rate.1 != 0,
            made matches Ok(chain) ==> chain@ == ChainView::fresh(
                oracle_asset_id@,
                transfer_gas,
                fee_rate,
            ),
            made matches Err(e) ==> e == Error::ZeroFeeDenominator,
    {
        if fee_rate.1 == 0 {
            return Err(Error::ZeroFeeDenominator);
        }
        let chain = ChainConfiguration {
            paymasters: Vec::new(),
            next_paymaster: 0,
            oracle_asset_id,
            transfer_gas: U256::from_u128(transfer_gas),
            fee_rate,
        };
        assert(chain@.paymasters =~= Seq::<PaymasterView>::empty());
        Ok(chain)
    }

    /// A chain with the given pool and cursor, as it was stored before. A fee
    /// rate with denominator zero is refused, and so is a pool whose indices
    /// do not fit 32 bits.
    pub fn restore(
        oracle_asset_id: String,
        transfer_gas: u128,
        fee_rate: (u128, u128),
        paymasters: Vec<PaymasterConfiguration>,
        next_paymaster: u32,
    ) -> (made: Result<ChainConfiguration, Error>)
        ensures
            made is Ok <==> fee_rate.1 != 0 && paymasters.len() <= u32::MAX,
            made matches Ok(chain) ==> chain@ == (ChainView {
                oracle_asset_id: oracle_asset_id@,
                transfer_gas: transfer_gas as int,
                fee_rate,
                paymasters: pool_view(paymasters@),
                next_paymaster,
            }),
            made matches Err(e) ==> e == (if fee_rate.1 == 0 {
                Error::ZeroFeeDenominator
            } else {
                Error::ArithmeticOverflow
            }),
    {
        if fee_rate.1 == 0 {
            return Err(Error::ZeroFeeDenominator);
        }
        if paymasters.len() > u32::MAX as usize {
            return Err(Error::ArithmeticOverflow);
        }
        let mut i: usize = 0;
        while i < paymasters.len()
            invariant
                i <= paymasters.len(),
                forall|k: int| 0 <= k < i ==> !is_valid_account_id((#[trigger] paymasters[k])@.key_path),
            decreases paymasters.len() - i,
        {
            let _ = paymasters[i].key_path();
            i += 1;
        }
        Ok(
            ChainConfiguration {
                paymasters,
                next_paymaster,
                oracle_asset_id,
                transfer_gas: U256::from_u128(transfer_gas),
                fee_rate,
            },
        )
    }

    /// The id under which the price oracle quotes the chain's native asset.
    pub fn oracle_asset_id(&self) -> (id: &str)
        ensures
            id@ == self@.oracle_asset_id,
    {
        self.oracle_asset_id.as_str()
    }

    /// The gas that the paymaster's own transfer costs.
    pub fn transfer_gas(&self) -> (gas: U256)
        ensures
            gas@ == self@.transfer_gas,
            0 <= gas@ < u128_limit(),
    {
        proof {
            use_type_invariant(self);
        }
        self.transfer_gas
    }

    /// The fee rate, whose denominator is never zero.
    pub fn fee_rate(&self) -> (rate: (u128, u128))
        ensures
            rate == self@.fee_rate,
            rate.1 != 0,
    {
        proof {
            use_type_invariant(self);
        }
        self.fee_rate
    }

    /// The raw round-robin cursor.
    pub fn cursor(&self) -> (cursor: u32)
        ensures
            cursor == self@.next_paymaster,
    {
        self.next_paymaster
    }

    /// The number of paymasters in the pool.
    pub fn paymaster_count(&self) -> (count: u32)
        ensures
            count == self@.paymasters.len(),
    {
        proof {
            use_type_invariant(self);
        }
        self.paymasters.len() as u32
    }

    /// Sets the oracle asset id and leaves the rest as it is.
    pub fn set_oracle_asset_id(&mut self, oracle_asset_id: String)
        ensures
            final(self)@ == (ChainView { oracle_asset_id: oracle_asset_id@, ..old(self)@ }),
    {
        proof {
            use_type_invariant(&*self);
        }
        self.oracle_asset_id = oracle_asset_id;
    }

    /// Sets the transfer gas and leaves the rest as it is.
    pub fn set_transfer_gas(&mut self, transfer_gas: u128)
        ensures
            final(self)@ == (ChainView { transfer_gas: transfer_gas as int, ..old(self)@ }),
    {
        proof {
            use_type_invariant(&*self);
        }
        self.transfer_gas = U256::from_u128(transfer_gas);
    }

    /// Appends a paymaster to the pool and returns its index: the number of
    /// paymasters that the pool held before.
    pub fn add_paymaster(&mut self, nonce: u32, key_path: String) -> (added: Result<u32, Error>)
        ensures
            added is Ok <==> !is_valid_account_id(key_path@) && old(self)@.paymasters.len() < u32::MAX,
            added matches Ok(index) ==> index == old(self)@.paymasters.len() && final(self)@ == (ChainView {
                paymasters: old(self)@.paymasters.push(PaymasterView { nonce, key_path: key_path@ }),
                ..old(self)@
            }),
            added matches Err(e) ==> final(self)@ == old(self)@ && e == (if is_valid_account_id(
                key_path@,
            ) {
                Error::KeyPathIsAccountId
            } else {
                Error::ArithmeticOverflow
            }),
    {
        proof {
            use_type_invariant(&*self);
        }
        let paymaster = match PaymasterConfiguration::new(nonce, key_path) {
            Ok(p) => p,
            Err(e) => {
                return Err(e);
            },
        };
        let count = self.paymasters.len();
        if count >= u32::MAX as usize {
            return Err(Error::ArithmeticOverflow);
        }
        let mut pool: Vec<PaymasterConfiguration> = Vec::new();
        core::mem::swap(&mut self.paymasters, &mut pool);
        pool.push(paymaster);
        core::mem::swap(&mut self.paymasters, &mut pool);
        assert(self@.paymasters =~= old(self)@.paymasters.push(
            PaymasterView { nonce, key_path: key_path@ },
        ));
        Ok(count as u32)
    }

    /// Sets the nonce of the paymaster at `index`.
    pub fn set_paymaster_nonce(&mut self, index: u32, nonce: u32) -> (set: Result<(), Error>)
        ensures
            set is Ok <==> index < old(self)@.paymasters.len(),
            set is Ok ==> final(self)@ == (ChainView {
                paymasters: old(self)@.paymasters.update(
                    index as int,
                    PaymasterView { nonce, key_path: old(self)@.paymasters[index as int].key_path },
                ),
                ..old(self)@
            }),
            set matches Err(e) ==> e == Error::PaymasterNotFound && final(self)@ == old(self)@,
    {
        proof {
            use_type_invariant(&*self);
        }
        if index as usize >= self.paymasters.len() {
            return Err(Error::PaymasterNotFound);
        }
        let mut pool: Vec<PaymasterConfiguration> = Vec::new();
        core::mem::swap(&mut self.paymasters, &mut pool);
        pool[index as usize].set_nonce(nonce);
        core::mem::swap(&mut self.paymasters, &mut pool);
        assert(self@.paymasters =~= old(self)@.paymasters.update(
            index as int,
            PaymasterView { nonce, key_path: old(self)@.paymasters[index as int].key_path },
        ));
        Ok(())
    }

    /// Removes the paymaster at `index` by putting the last one in its place.
    /// The cursor stays as it is.
    pub fn remove_paymaster(&mut self, index: u32) -> (removed: Result<(), Error>)
        ensures
            removed is Ok <==> index < old(self)@.paymasters.len(),
            removed is Ok ==> final(self)@ == (ChainView {
                paymasters: swap_removed(old(self)@.paymasters, index as int),
                ..old(self)@
            }),
            removed matches Err(e) ==> e == Error::PaymasterNotFound && final(self)@ == old(self)@,
    {
        proof {
            use_type_invariant(&*self);
        }
        if index as usize >= self.paymasters.len() {
            return Err(Error::PaymasterNotFound);
        }
        let mut pool: Vec<PaymasterConfiguration> = Vec::new();
        core::mem::swap(&mut self.paymasters, &mut pool);
        pool.swap_remove(index as usize);
        core::mem::swap(&mut self.paymasters, &mut pool);
        assert(self@.paymasters =~= swap_removed(old(self)@.paymasters, index as int));
        Ok(())
    }

    /// Empties the pool and leaves the rest as it is.
    pub fn clear_paymasters(&mut self)
        ensures
            final(self)@ == (ChainView { paymasters: Seq::empty(), ..old(self)@ }),
    {
        proof {
            use_type_invariant(&*self);
        }
        let mut pool: Vec<PaymasterConfiguration> = Vec::new();
        core::mem::swap(&mut self.paymasters, &mut pool);
        assert(self@.paymasters =~= Seq::<PaymasterView>::empty());
    }

    /// The paymasters of the pool in index order.
    pub fn paymasters(&self) -> (listed: Vec<&PaymasterConfiguration>)
        ensures
            self@.well_formed(),
            listed@.len() == self@.paymasters.len(),
            forall|i: int| 0 <= i < listed.len() ==> (#[trigger] listed[i])@ == self@.paymasters[i],
    {
        proof {
            use_type_invariant(self);
        }
        let mut listed: Vec<&PaymasterConfiguration> = Vec::new();
        let mut i: usize = 0;
        while i < self.paymasters.len()
            invariant
                i <= self.paymasters.len(),
                listed.len() == i,
                forall|k: int| 0 <= k < i ==> *listed[k] == self.paymasters[k],
            decreases self.paymasters.len() - i,
        {
            listed.push(&self.paymasters[i]);
            i += 1;
        }
        listed
    }

    /// Selects the next paymaster round-robin: the one at the cursor taken
    /// modulo the pool's length. The cursor then advances by one and wraps
    /// to zero after the largest value of its type. An empty pool selects
    /// nothing and leaves the cursor as it is.
    pub fn next_paymaster(&mut self) -> (selected: Option<PaymasterConfiguration>)
        ensures
            selected is Some <==> old(self)@.paymasters.len() > 0,
            selected matches Some(paymaster) ==> paymaster@ == old(self)@.paymasters[selected_index(
                old(self)@.next_paymaster,
                old(self)@.paymasters.len() as int,
            )] && final(self)@ == (ChainView {
                next_paymaster: advanced(old(self)@.next_paymaster),
                ..old(self)@
            }),
            selected is None ==> final(self)@ == old(self)@,
    {
        proof {
            use_type_invariant(&*self);
        }
        let count = self.paymasters.len();
        if count == 0 {
            return None;
        }
        let index = self.next_paymaster as usize % count;
        let paymaster = self.paymasters[index].duplicate();
        self.next_paymaster = if self.next_paymaster == u32::MAX {
            0
        } else {
            self.next_paymaster + 1
        };
        Some(paymaster)
    }

    /// What `foreign_tokens` units of the chain's native asset cost in the
    /// local asset, whose oracle id is `local_asset_id`.
    pub fn foreign_token_price(
        &self,
        local_asset_id: &str,
        price_data: &PriceData,
        foreign_tokens: U256,
    ) -> (price: Result<u128, Error>)
        ensures
            price == token_price(self@, local_asset_id@, price_data@, foreign_tokens@),
    {
        proof {
            use_type_invariant(self);
        }
        let local = match price_data.price_of(local_asset_id) {
            Some(p) => p,
            None => {
                return Err(Error::PriceUnavailable);
            },
        };
        let foreign = match price_data.price_of(self.oracle_asset_id.as_str()) {
            Some(p) => p,
            None => {
                return Err(Error::PriceUnavailable);
            },
        };
        if local.multiplier == 0 {
            return Err(Error::PriceUnavailable);
        }
        match convert(foreign_tokens, local, foreign, self.fee_rate) {
            Some(cost) => Ok(cost),
            None => Err(Error::ArithmeticOverflow),
        }
    }

    /// What a transaction with the given gas limit and gas price costs in
    /// the local asset.
    pub fn estimate(
        &self,
        local_asset_id: &str,
        price_data: &PriceData,
        gas: U256,
        gas_price: U256,
    ) -> (cost: Result<u128, Error>)
        ensures
            cost == gas_cost(self@, local_asset_id@, price_data@, gas@, gas_price@),
    {
        proof {
            use_type_invariant(self);
            gas.lemma_range();
            gas_price.lemma_range();
        }
        let ghost limit = u256_limit();
        let tokens = if gas_price.is_zero() {
            proof {
                assert((gas@ + self.transfer_gas@) * gas_price@ == 0) by (nonlinear_arith)
                    requires gas_price@ == 0;
            }
            U256::zero()
        } else {
            let total_gas = match gas.checked_add(self.transfer_gas) {
                Some(t) => t,
                None => {
                    proof {
                        assert((gas@ + self.transfer_gas@) * gas_price@ >= limit) by (nonlinear_arith)
                            requires gas@ + self.transfer_gas@ >= limit, gas_price@ >= 1, limit > 0;
                    }
                    return Err(Error::ArithmeticOverflow);
                },
            };
            match total_gas.checked_mul(gas_price) {
                Some(t) => t,
                None => {
                    return Err(Error::ArithmeticOverflow);
                },
            }
        };
        self.foreign_token_price(local_asset_id, price_data, tokens)
    }
}

} // verus!
