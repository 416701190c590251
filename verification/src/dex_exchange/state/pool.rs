//! The pool record and the arithmetic of the constant-product price.

use vstd::prelude::*;
use vstd::arithmetic::div_mod::{lemma_div_is_ordered, lemma_div_multiples_vanish};
use vstd::arithmetic::mul::lemma_mul_is_commutative;
use crate::address::Address;

verus! {

/// How many liquidity providers a pool can list.
pub const MAX_LIQUIDITY_PROVIDERS: usize = 10;

/// One exchange pool: two assets, the reserve of each in pool units, the
/// principals that have added liquidity, and the decimals by which a pool
/// unit is scaled when value moves through the asset ledger.
#[derive(Clone, Debug)]
pub struct Pool {
    pub owner: Address,
    pub token_a: Address,
    pub token_b: Address,
    pub reserve_a: u32,
    pub reserve_b: u32,
    pub is_initialized: bool,
    pub liquidity_providers: Vec<Address>,
    pub decimals: u8,
}

/// A pool as a mathematical value.
pub struct PoolView {
    pub owner: Address,
    pub token_a: Address,
    pub token_b: Address,
    pub reserve_a: int,
    pub reserve_b: int,
    pub is_initialized: bool,
    pub liquidity_providers: Seq<Address>,
    pub decimals: nat,
}

/// One change to a pool's reserves.
pub enum PoolOp {
    /// `provider` adds `amount_a` to reserve A and `amount_b` to reserve B.
    AddLiquidity { provider: Address, amount_a: nat, amount_b: nat },
    /// `amount_in` of `token_in` comes in and the quoted amount goes out.
    Swap { amount_in: nat, token_in: Address },
}

impl View for Pool {
    type V = PoolView;

    open spec fn view(&self) -> PoolView {
        PoolView {
            owner: self.owner,
            token_a: self.token_a,
            token_b: self.token_b,
            reserve_a: self.reserve_a as int,
            reserve_b: self.reserve_b as int,
            is_initialized: self.is_initialized,
            liquidity_providers: self.liquidity_providers@,
            decimals: self.decimals as nat,
        }
    }
}

impl PoolView {
    /// The list of providers is a set within the pool's capacity: nobody is
    /// listed twice and at most ten are listed.
    pub open spec fn wf(self) -> bool {
        &&& self.liquidity_providers.len() <= MAX_LIQUIDITY_PROVIDERS
        &&& self.liquidity_providers.no_duplicates()
    }

    /// The reserve that `token_in` is paid into and the reserve that the
    /// swap pays out of: side A comes in where `token_in` is the pool's
    /// asset A, side B in every other case.
    pub open spec fn reserves_for(self, token_in: Address) -> (int, int) {
        if token_in == self.token_a {
            (self.reserve_a, self.reserve_b)
        } else {
            (self.reserve_b, self.reserve_a)
        }
    }

    /// The pool after `amount_in` of `token_in` came in and the quoted
    /// amount went out.
    pub open spec fn after_swap(self, amount_in: nat, token_in: Address) -> PoolView {
        let (reserve_in, reserve_out) = self.reserves_for(token_in);
        let amount_out = quote(reserve_in, reserve_out, amount_in as int);
        if token_in == self.token_a {
            PoolView { reserve_a: reserve_in + amount_in, reserve_b: reserve_out - amount_out, ..self }
        } else {
            PoolView { reserve_b: reserve_in + amount_in, reserve_a: reserve_out - amount_out, ..self }
        }
    }

    /// The pool after one change. A swap of nothing changes nothing.
    pub open spec fn after(self, op: PoolOp) -> PoolView {
        match op {
            PoolOp::AddLiquidity { provider, amount_a, amount_b } => self.after_liquidity(
                provider,
                amount_a,
                amount_b,
            ),
            PoolOp::Swap { amount_in, token_in } => if amount_in == 0 {
                self
            } else {
                self.after_swap(amount_in, token_in)
            },
        }
    }

    /// The pool after a sequence of changes, applied in order.
    pub open spec fn after_all(self, ops: Seq<PoolOp>) -> PoolView
        decreases ops.len(),
    {
        if ops.len() == 0 {
            self
        } else {
            self.after(ops[0]).after_all(ops.drop_first())
        }
    }

    /// The list of providers after `provider` has added liquidity: as it
    /// was where the provider is listed already, one longer otherwise.
    pub open spec fn providers_with(self, provider: Address) -> Seq<Address> {
        if self.liquidity_providers.contains(provider) {
            self.liquidity_providers
        } else {
            self.liquidity_providers.push(provider)
        }
    }

    /// The pool after `provider` added `amount_a` and `amount_b`.
    pub open spec fn after_liquidity(self, provider: Address, amount_a: nat, amount_b: nat) -> PoolView {
        PoolView {
            reserve_a: self.reserve_a + amount_a,
            reserve_b: self.reserve_b + amount_b,
            liquidity_providers: self.providers_with(provider),
            ..self
        }
    }
}

/// The constant-product quote without fee: what a swap of `amount_in` pays
/// out, rounded down.
pub open spec fn quote(reserve_in: int, reserve_out: int, amount_in: int) -> int {
    (reserve_out * amount_in) / (reserve_in + amount_in)
}

/// A quote never exceeds the reserve it is paid from.
pub proof fn lemma_quote_within_reserve(reserve_in: int, reserve_out: int, amount_in: int)
    requires
        reserve_in >= 0,
        reserve_out >= 0,
        amount_in >= 0,
        reserve_in + amount_in > 0,
    ensures
        0 <= quote(reserve_in, reserve_out, amount_in) <= reserve_out,
{
    let d = reserve_in + amount_in;
    let n = reserve_out * amount_in;
    let full = reserve_out * d;
    assert(n <= full) by (nonlinear_arith)
        requires
            n == reserve_out * amount_in,
            full == reserve_out * d,
            reserve_out >= 0,
            amount_in <= d,
    ;
    assert(n >= 0) by (nonlinear_arith)
        requires
            n == reserve_out * amount_in,
            reserve_out >= 0,
            amount_in >= 0,
    ;
    lemma_div_is_ordered(0, n, d);
    lemma_div_is_ordered(n, full, d);
    lemma_mul_is_commutative(reserve_out, d);
    lemma_div_multiples_vanish(reserve_out, d);
}

/// A swap never lowers the product of the two reserves: no value leaves the
/// pool that the constant-product price does not cover.
pub proof fn lemma_product_never_falls(reserve_in: int, reserve_out: int, amount_in: int)
    requires
        reserve_in >= 0,
        reserve_out >= 0,
        amount_in >= 0,
        reserve_in + amount_in > 0,
    ensures
        (reserve_in + amount_in) * (reserve_out - quote(reserve_in, reserve_out, amount_in))
            >= reserve_in * reserve_out,
{
    let d = reserve_in + amount_in;
    let n = reserve_out * amount_in;
    let q = n / d;
    assert(q * d <= n) by (nonlinear_arith)
        requires
            d > 0,
            q == n / d,
    ;
    assert(d * (reserve_out - q) >= reserve_in * reserve_out) by (nonlinear_arith)
        requires
            q * d <= n,
            n == reserve_out * amount_in,
            d == reserve_in + amount_in,
    ;
}

/// Whatever sequence of liquidity additions and swaps is applied to a pool,
/// neither reserve falls below zero.
pub proof fn lemma_reserves_never_negative(pool: PoolView, ops: Seq<PoolOp>)
    requires
        pool.reserve_a >= 0,
        pool.reserve_b >= 0,
    ensures
        pool.after_all(ops).reserve_a >= 0,
        pool.after_all(ops).reserve_b >= 0,
    decreases ops.len(),
{
    if ops.len() > 0 {
        let next = pool.after(ops[0]);
        match ops[0] {
            PoolOp::AddLiquidity { .. } => {},
            PoolOp::Swap { amount_in, token_in } => {
                if amount_in > 0 {
                    let (reserve_in, reserve_out) = pool.reserves_for(token_in);
                    lemma_quote_within_reserve(reserve_in, reserve_out, amount_in as int);
                }
            },
        }
        lemma_reserves_never_negative(next, ops.drop_first());
    }
}

/// Computes the constant-product quote in 64-bit arithmetic, where the
/// product of two 32-bit values always fits. The quote is not defined where
/// the reserve and the amount that comes in are both zero.
pub fn amount_out(reserve_in: u32, reserve_out: u32, amount_in: u32) -> (r: u32)
    requires
        reserve_in + amount_in > 0,
    ensures
        r == quote(reserve_in as int, reserve_out as int, amount_in as int),
{
    proof {
        assert(reserve_out * amount_in <= 0xffff_ffff * 0xffff_ffff) by (nonlinear_arith)
            requires
                reserve_out <= 0xffff_ffff,
                amount_in <= 0xffff_ffff,
        ;
        lemma_quote_within_reserve(reserve_in as int, reserve_out as int, amount_in as int);
    }
    let product: u64 = (reserve_out as u64) * (amount_in as u64);
    let divisor: u64 = (reserve_in as u64) + (amount_in as u64);
    (product / divisor) as u32
}

impl Pool {
    /// A pool that no initialization has touched.
    pub fn empty() -> (r: Pool)
        ensures
            r@ == (PoolView {
                owner: Address::zero(),
                token_a: Address::zero(),
                token_b: Address::zero(),
                reserve_a: 0,
                reserve_b: 0,
                is_initialized: false,
                liquidity_providers: Seq::<Address>::empty(),
                decimals: 0,
            }),
    {
        Pool {
            owner: Address::zeroed(),
            token_a: Address::zeroed(),
            token_b: Address::zeroed(),
            reserve_a: 0,
            reserve_b: 0,
            is_initialized: false,
            liquidity_providers: Vec::new(),
            decimals: 0,
        }
    }

    /// Whether `provider` is on the pool's list.
    pub fn lists(&self, provider: &Address) -> (r: bool)
        ensures
            r == self@.liquidity_providers.contains(*provider),
    {
        let mut i: usize = 0;
        while i < self.liquidity_providers.len()
            invariant
                i <= self.liquidity_providers@.len(),
                forall|j: int| 0 <= j < i ==> self.liquidity_providers@[j] != *provider,
            decreases self.liquidity_providers@.len() - i,
        {
            if self.liquidity_providers[i] == *provider {
                return true;
            }
            i += 1;
        }
        false
    }
}

} // verus!
