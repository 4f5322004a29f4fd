use vstd::prelude::*;

use crate::address::{AccountRef, Address};
use crate::error::{from_ledger_error, ledger_failure, LedgerError, MarketError};
use crate::token::LedgerRequest;

verus! {

/// Largest platform fee, in percent of a sale's price.
pub const MAX_FEE_PERCENTAGE: u8 = 100;

/// The platform record: fee configuration and aggregate platform revenue.
#[derive(Clone, Copy, Debug)]
pub struct Marketplace {
    pub is_initialized: bool,
    pub authority: Address,
    /// Platform cut of every sale, in percent (0 to 100).
    pub fee_percentage: u8,
    /// Sum of the prices of all purchases processed through this marketplace.
    pub total_revenue: u64,
    /// Number of purchases processed through this marketplace.
    pub total_modules_sold: u64,
}

/// One listed, purchasable module.
#[derive(Debug)]
pub struct Module {
    pub is_initialized: bool,
    pub creator: Address,
    /// Price in the settlement token's smallest unit.
    pub price: u64,
    /// Zero-price listing allowed (tips only).
    pub is_free_issuance: bool,
    /// Content locator, set by a separate step.
    pub uri: String,
    pub total_sales: u64,
    pub total_revenue: u64,
    /// Revenue already paid out to the creator: a watermark that never
    /// exceeds `total_revenue`.
    pub collected_revenue: u64,
}

/// How one sale's price is divided between the platform and the creator.
#[derive(Clone, Copy, Debug, PartialEq, Eq, Structural)]
pub struct PaymentSplit {
    pub price: u64,
    pub platform_fee: u64,
    pub creator_amount: u64,
}

impl Marketplace {
    /// The record of a marketplace account that was never initialized.
    pub fn uninitialized() -> (r: Marketplace)
        ensures
            !r.is_initialized,
            r.authority@ == Seq::new(32, |i: int| 0u8),
            r.fee_percentage == 0,
            r.total_revenue == 0,
            r.total_modules_sold == 0,
    {
        let authority = Address { bytes: [0u8; 32] };
        assert(authority@ =~= Seq::new(32, |i: int| 0u8));
        Marketplace {
            is_initialized: false,
            authority,
            fee_percentage: 0,
            total_revenue: 0,
            total_modules_sold: 0,
        }
    }

    /// An initialized marketplace never takes more than the whole price.
    pub open spec fn well_formed(&self) -> bool {
        self.is_initialized ==> self.fee_percentage <= 100
    }
}

impl Module {
    /// A listed module has a price unless it is a free issuance, and never
    /// has more collected than it earned.
    pub open spec fn well_formed(&self) -> bool {
        &&& self.is_initialized ==> (self.price > 0 || self.is_free_issuance)
        &&& self.collected_revenue <= self.total_revenue
    }

    /// The record of a module account that was never initialized.
    pub fn uninitialized() -> (r: Module)
        ensures
            !r.is_initialized,
            r.creator@ == Seq::new(32, |i: int| 0u8),
            r.price == 0,
            !r.is_free_issuance,
            r.uri@.len() == 0,
            r.total_sales == 0,
            r.total_revenue == 0,
            r.collected_revenue == 0,
    {
        let creator = Address { bytes: [0u8; 32] };
        assert(creator@ =~= Seq::new(32, |i: int| 0u8));
        Module {
            is_initialized: false,
            creator,
            price: 0,
            is_free_issuance: false,
            uri: String::new(),
            total_sales: 0,
            total_revenue: 0,
            collected_revenue: 0,
        }
    }
}

pub open spec fn platform_fee_of(price: u64, fee_percentage: u8) -> int {
    (price as int * fee_percentage as int) / 100
}

/// Splits `price` into the platform's fee, `floor(price * fee / 100)`, and
/// the creator's remainder.
pub fn split_price(price: u64, fee_percentage: u8) -> (r: PaymentSplit)
    requires
        fee_percentage <= 100,
    ensures
        r.price == price,
        r.platform_fee == platform_fee_of(price, fee_percentage),
        r.platform_fee + r.creator_amount == price,
{
    assert(price as int * fee_percentage as int <= u64::MAX as int * 100) by (nonlinear_arith)
        requires
            fee_percentage <= 100,
    ;
    let product: u128 = price as u128 * fee_percentage as u128;
    assert(product <= price as int * 100) by (nonlinear_arith)
        requires
            product == price as int * fee_percentage as int,
            fee_percentage <= 100,
    ;
    let platform_fee: u128 = product / 100;
    assert(platform_fee <= price);
    let platform_fee = platform_fee as u64;
    PaymentSplit { price, platform_fee, creator_amount: price - platform_fee }
}

/// For every fee in [0, 100] and every price, the platform's fee is at most
/// the price, so fee and creator's remainder are both non-negative and add
/// up to the price.
pub proof fn lemma_fee_split(price: u64, fee_percentage: u8)
    requires
        fee_percentage <= 100,
    ensures
        0 <= platform_fee_of(price, fee_percentage) <= price,
        platform_fee_of(price, fee_percentage) + (price - platform_fee_of(price, fee_percentage))
            == price,
{
    assert(price as int * fee_percentage as int <= price as int * 100) by (nonlinear_arith)
        requires
            fee_percentage <= 100,
    ;
    assert(price as int * fee_percentage as int >= 0) by (nonlinear_arith);
}

pub open spec fn initialize_marketplace_error(
    program_id: Address,
    authority: AccountRef,
    marketplace_account: AccountRef,
    current: Marketplace,
    fee_percentage: u8,
    lamports: u64,
    minimum_balance: u64,
) -> Option<MarketError> {
    if marketplace_account.owner@ != program_id@ {
        Some(MarketError::WrongOwner)
    } else if !authority.is_signer {
        Some(MarketError::MissingSignature)
    } else if current.is_initialized {
        Some(MarketError::AlreadyInitialized)
    } else if fee_percentage > 100 {
        Some(MarketError::InvalidFeePercentage)
    } else if lamports < minimum_balance {
        Some(MarketError::RentExemptionViolation)
    } else {
        None
    }
}

/// Initializes the marketplace record held by `marketplace_account`, whose
/// balance is `lamports` and which needs `minimum_balance` to be exempt from
/// rent. On success the record holds the signer as authority and zeroed
/// counters; on failure it is left as it was.
pub fn process_initialize_marketplace(
    program_id: &Address,
    authority: &AccountRef,
    marketplace_account: &AccountRef,
    marketplace: &mut Marketplace,
    fee_percentage: u8,
    lamports: u64,
    minimum_balance: u64,
) -> (r: Result<(), MarketError>)
    ensures
        match initialize_marketplace_error(
            *program_id,
            *authority,
            *marketplace_account,
            *old(marketplace),
            fee_percentage,
            lamports,
            minimum_balance,
        ) {
            Some(e) => r == Err::<(), MarketError>(e) && *final(marketplace) == *old(marketplace),
            None => r is Ok && final(marketplace).is_initialized
                && final(marketplace).authority@ == authority.key@
                && final(marketplace).fee_percentage == fee_percentage
                && final(marketplace).total_revenue == 0
                && final(marketplace).total_modules_sold == 0,
        },
        old(marketplace).well_formed() ==> final(marketplace).well_formed(),
{
    if !marketplace_account.owner.same_as(program_id) {
        return Err(MarketError::WrongOwner);
    }
    if !authority.is_signer {
        return Err(MarketError::MissingSignature);
    }
    if marketplace.is_initialized {
        return Err(MarketError::AlreadyInitialized);
    }
    if fee_percentage > MAX_FEE_PERCENTAGE {
        return Err(MarketError::InvalidFeePercentage);
    }
    if lamports < minimum_balance {
        return Err(MarketError::RentExemptionViolation);
    }
    *marketplace = Marketplace {
        is_initialized: true,
        authority: authority.key,
        fee_percentage,
        total_revenue: 0,
        total_modules_sold: 0,
    };
    Ok(())
}

pub open spec fn list_module_error(
    program_id: Address,
    creator: AccountRef,
    marketplace: Marketplace,
    module_account: AccountRef,
    current: Module,
    price: u64,
    is_free_issuance: bool,
) -> Option<MarketError> {
    if !creator.is_signer {
        Some(MarketError::MissingSignature)
    } else if module_account.owner@ != program_id@ {
        Some(MarketError::WrongOwner)
    } else if !marketplace.is_initialized {
        Some(MarketError::Uninitialized)
    } else if current.is_initialized {
        Some(MarketError::AlreadyInitialized)
    } else if !is_free_issuance && price == 0 {
        Some(MarketError::InvalidPrice)
    } else {
        None
    }
}

/// Lists a module for sale in an initialized marketplace. On success the
/// record held by `module_account` names the signer as creator, carries the
/// price and the free-issuance flag, an empty locator and zeroed counters; on
/// failure it is left as it was.
pub fn process_list_module(
    program_id: &Address,
    creator: &AccountRef,
    marketplace: &Marketplace,
    module_account: &AccountRef,
    module: &mut Module,
    price: u64,
    is_free_issuance: bool,
) -> (r: Result<(), MarketError>)
    ensures
        match list_module_error(
            *program_id,
            *creator,
            *marketplace,
            *module_account,
            *old(module),
            price,
            is_free_issuance,
        ) {
            Some(e) => r == Err::<(), MarketError>(e) && *final(module) == *old(module),
            None => r is Ok && final(module).is_initialized
                && final(module).creator@ == creator.key@
                && final(module).price == price
                && final(module).is_free_issuance == is_free_issuance
                && final(module).uri@.len() == 0
                && final(module).total_sales == 0
                && final(module).total_revenue == 0
                && final(module).collected_revenue == 0,
        },
        old(module).well_formed() ==> final(module).well_formed(),
{
    if !creator.is_signer {
        return Err(MarketError::MissingSignature);
    }
    if !module_account.owner.same_as(program_id) {
        return Err(MarketError::WrongOwner);
    }
    if !marketplace.is_initialized {
        return Err(MarketError::Uninitialized);
    }
    if module.is_initialized {
        return Err(MarketError::AlreadyInitialized);
    }
    if !is_free_issuance && price == 0 {
        return Err(MarketError::InvalidPrice);
    }
    *module = Module {
        is_initialized: true,
        creator: creator.key,
        price,
        is_free_issuance,
        uri: String::new(),
        total_sales: 0,
        total_revenue: 0,
        collected_revenue: 0,
    };
    Ok(())
}

/// Whether one more purchase at the module's price would overflow one of the
/// four counters it increases.
pub open spec fn purchase_overflows(marketplace: Marketplace, module: Module) -> bool {
    module.total_sales as int + 1 > u64::MAX || module.total_revenue as int + module.price as int
        > u64::MAX || marketplace.total_revenue as int + module.price as int > u64::MAX
        || marketplace.total_modules_sold as int + 1 > u64::MAX
}

pub open spec fn purchase_error(
    program_id: Address,
    buyer: AccountRef,
    marketplace_account: AccountRef,
    marketplace: Marketplace,
    module_account: AccountRef,
    module: Module,
) -> Option<MarketError> {
    if !buyer.is_signer {
        Some(MarketError::MissingSignature)
    } else if marketplace_account.owner@ != program_id@ || module_account.owner@ != program_id@ {
        Some(MarketError::WrongOwner)
    } else if !marketplace.is_initialized || !module.is_initialized {
        Some(MarketError::Uninitialized)
    } else if marketplace.fee_percentage > 100 {
        Some(MarketError::InvalidFeePercentage)
    } else if purchase_overflows(marketplace, module) {
        Some(MarketError::ArithmeticOverflow)
    } else {
        None
    }
}

/// First step of a purchase: checks the buyer's signature, that this program
/// owns both records and that they are initialized, and that the counters can
/// take one more sale, and returns how the price is split. The caller then
/// asks the ledger to move the amounts and hands its answer to
/// `complete_purchase`.
pub fn process_purchase_module(
    program_id: &Address,
    buyer: &AccountRef,
    marketplace_account: &AccountRef,
    marketplace: &Marketplace,
    module_account: &AccountRef,
    module: &Module,
) -> (r: Result<PaymentSplit, MarketError>)
    ensures
        match purchase_error(
            *program_id,
            *buyer,
            *marketplace_account,
            *marketplace,
            *module_account,
            *module,
        ) {
            Some(e) => r == Err::<PaymentSplit, MarketError>(e),
            None => r matches Ok(split) && split.price == module.price && split.platform_fee
                == platform_fee_of(module.price, marketplace.fee_percentage) && split.platform_fee
                + split.creator_amount == module.price,
        },
{
    if !buyer.is_signer {
        return Err(MarketError::MissingSignature);
    }
    if !marketplace_account.owner.same_as(program_id) || !module_account.owner.same_as(program_id) {
        return Err(MarketError::WrongOwner);
    }
    if !marketplace.is_initialized || !module.is_initialized {
        return Err(MarketError::Uninitialized);
    }
    if marketplace.fee_percentage > MAX_FEE_PERCENTAGE {
        return Err(MarketError::InvalidFeePercentage);
    }
    if module.total_sales == u64::MAX || module.total_revenue > u64::MAX - module.price
        || marketplace.total_revenue > u64::MAX - module.price || marketplace.total_modules_sold
        == u64::MAX {
        return Err(MarketError::ArithmeticOverflow);
    }
    Ok(split_price(module.price, marketplace.fee_percentage))
}

pub open spec fn purchase_transfers_error(
    marketplace: Marketplace,
    module: Module,
    creator_token_owner: Address,
    platform_token_owner: Address,
) -> Option<MarketError> {
    if creator_token_owner@ != module.creator@ || platform_token_owner@ != marketplace.authority@ {
        Some(MarketError::Unauthorized)
    } else {
        None
    }
}

/// The two payments of a purchase, both from the buyer's token account:
/// the creator's share to `creator_token`, which must belong to the
/// module's creator, and the platform fee to `platform_token`, which must
/// belong to the marketplace's authority.
pub fn purchase_transfers(
    split: &PaymentSplit,
    buyer: &AccountRef,
    buyer_token: &AccountRef,
    marketplace: &Marketplace,
    module: &Module,
    creator_token: &AccountRef,
    creator_token_owner: &Address,
    platform_token: &AccountRef,
    platform_token_owner: &Address,
) -> (r: Result<(LedgerRequest, LedgerRequest), MarketError>)
    ensures
        match purchase_transfers_error(*marketplace, *module, *creator_token_owner, *platform_token_owner) {
            Some(e) => r == Err::<(LedgerRequest, LedgerRequest), MarketError>(e),
            None => r matches Ok(
                (
                    LedgerRequest::Transfer { source: s1, destination: d1, owner: o1, amount: a1 },
                    LedgerRequest::Transfer { source: s2, destination: d2, owner: o2, amount: a2 },
                ),
            ) && s1@ == buyer_token.key@ && d1@ == creator_token.key@ && o1@ == buyer.key@ && a1
                == split.creator_amount && s2@ == buyer_token.key@ && d2@ == platform_token.key@
                && o2@ == buyer.key@ && a2 == split.platform_fee,
        },
{
    if !creator_token_owner.same_as(&module.creator) || !platform_token_owner.same_as(
        &marketplace.authority,
    ) {
        return Err(MarketError::Unauthorized);
    }
    let to_creator = LedgerRequest::Transfer {
        source: buyer_token.key,
        destination: creator_token.key,
        owner: buyer.key,
        amount: split.creator_amount,
    };
    let to_platform = LedgerRequest::Transfer {
        source: buyer_token.key,
        destination: platform_token.key,
        owner: buyer.key,
        amount: split.platform_fee,
    };
    Ok((to_creator, to_platform))
}

/// One successful purchase at `price` as seen by the marketplace record.
pub open spec fn marketplace_purchase_step(before: Marketplace, price: u64, after: Marketplace) -> bool {
    &&& after.is_initialized == before.is_initialized
    &&& after.authority == before.authority
    &&& after.fee_percentage == before.fee_percentage
    &&& after.total_revenue == before.total_revenue + price
    &&& after.total_modules_sold == before.total_modules_sold + 1
}

/// One successful purchase as seen by the module record.
pub open spec fn module_purchase_step(before: Module, after: Module) -> bool {
    &&& after.is_initialized == before.is_initialized
    &&& after.creator == before.creator
    &&& after.price == before.price
    &&& after.is_free_issuance == before.is_free_issuance
    &&& after.uri@ == before.uri@
    &&& after.total_sales == before.total_sales + 1
    &&& after.total_revenue == before.total_revenue + before.price
    &&& after.collected_revenue == before.collected_revenue
}

pub open spec fn complete_purchase_error(
    payment: Result<(), LedgerError>,
    marketplace: Marketplace,
    module: Module,
) -> Option<MarketError> {
    match payment {
        Err(e) => Some(ledger_failure(e)),
        Ok(()) => if !marketplace.is_initialized || !module.is_initialized {
            Some(MarketError::Uninitialized)
        } else if purchase_overflows(marketplace, module) {
            Some(MarketError::ArithmeticOverflow)
        } else {
            None
        },
    }
}

/// Second step of a purchase: once the ledger reports that the payment went
/// through, records the sale on the module and on the marketplace. A refused
/// payment, an uninitialized record or a counter that would overflow leaves
/// both records as they were.
pub fn complete_purchase(
    marketplace: &mut Marketplace,
    module: &mut Module,
    payment: Result<(), LedgerError>,
) -> (r: Result<(), MarketError>)
    ensures
        match complete_purchase_error(payment, *old(marketplace), *old(module)) {
            Some(e) => r == Err::<(), MarketError>(e) && *final(marketplace) == *old(marketplace)
                && *final(module) == *old(module),
            None => r is Ok && marketplace_purchase_step(
                *old(marketplace),
                old(module).price,
                *final(marketplace),
            ) && module_purchase_step(*old(module), *final(module)),
        },
        old(marketplace).well_formed() ==> final(marketplace).well_formed(),
        old(module).well_formed() ==> final(module).well_formed(),
{
    if let Err(e) = payment {
        return Err(from_ledger_error(e));
    }
    if !marketplace.is_initialized || !module.is_initialized {
        return Err(MarketError::Uninitialized);
    }
    let price = module.price;
    let total_sales = match module.total_sales.checked_add(1) {
        Some(v) => v,
        None => return Err(MarketError::ArithmeticOverflow),
    };
    let module_revenue = match module.total_revenue.checked_add(price) {
        Some(v) => v,
        None => return Err(MarketError::ArithmeticOverflow),
    };
    let platform_revenue = match marketplace.total_revenue.checked_add(price) {
        Some(v) => v,
        None => return Err(MarketError::ArithmeticOverflow),
    };
    let modules_sold = match marketplace.total_modules_sold.checked_add(1) {
        Some(v) => v,
        None => return Err(MarketError::ArithmeticOverflow),
    };
    module.total_sales = total_sales;
    module.total_revenue = module_revenue;
    marketplace.total_revenue = platform_revenue;
    marketplace.total_modules_sold = modules_sold;
    Ok(())
}

pub open spec fn collect_revenue_error(
    program_id: Address,
    creator: AccountRef,
    marketplace: Marketplace,
    module_account: AccountRef,
    module: Module,
) -> Option<MarketError> {
    if !creator.is_signer {
        Some(MarketError::MissingSignature)
    } else if module_account.owner@ != program_id@ {
        Some(MarketError::WrongOwner)
    } else if !marketplace.is_initialized || !module.is_initialized {
        Some(MarketError::Uninitialized)
    } else if creator.key@ != module.creator@ {
        Some(MarketError::Unauthorized)
    } else if module.collected_revenue > module.total_revenue {
        Some(MarketError::MalformedRecord)
    } else {
        None
    }
}

/// First step of a revenue collection: the module's recorded creator asks
/// for the revenue earned since the last collection. Returns the transfer of
/// that amount from the `treasury` token account, held by
/// `treasury_authority`, to the creator's `revenue_account`. The caller has
/// the ledger perform it and hands its answer to `complete_collection`.
pub fn process_collect_revenue(
    program_id: &Address,
    creator: &AccountRef,
    marketplace: &Marketplace,
    module_account: &AccountRef,
    module: &Module,
    revenue_account: &AccountRef,
    treasury: &AccountRef,
    treasury_authority: &Address,
) -> (r: Result<LedgerRequest, MarketError>)
    ensures
        match collect_revenue_error(*program_id, *creator, *marketplace, *module_account, *module) {
            Some(e) => r == Err::<LedgerRequest, MarketError>(e),
            None => r matches Ok(
                LedgerRequest::Transfer { source: s, destination: d, owner: o, amount: a },
            ) && s@ == treasury.key@ && d@ == revenue_account.key@ && o@ == treasury_authority@
                && a == module.total_revenue - module.collected_revenue,
        },
{
    if !creator.is_signer {
        return Err(MarketError::MissingSignature);
    }
    if !module_account.owner.same_as(program_id) {
        return Err(MarketError::WrongOwner);
    }
    if !marketplace.is_initialized || !module.is_initialized {
        return Err(MarketError::Uninitialized);
    }
    if !creator.key.same_as(&module.creator) {
        return Err(MarketError::Unauthorized);
    }
    if module.collected_revenue > module.total_revenue {
        return Err(MarketError::MalformedRecord);
    }
    Ok(
        LedgerRequest::Transfer {
            source: treasury.key,
            destination: revenue_account.key,
            owner: *treasury_authority,
            amount: module.total_revenue - module.collected_revenue,
        },
    )
}

/// Second step of a revenue collection: once the ledger reports that the
/// payout went through, everything the module has earned counts as
/// collected, so the next collection pays only later revenue. A refused
/// payout leaves the record as it was.
pub fn complete_collection(module: &mut Module, payout: Result<(), LedgerError>) -> (r: Result<
    (),
    MarketError,
>)
    ensures
        match payout {
            Err(e) => r == Err::<(), MarketError>(ledger_failure(e)) && *final(module) == *old(module),
            Ok(()) => r is Ok && final(module).collected_revenue == old(module).total_revenue
                && final(module).is_initialized == old(module).is_initialized
                && final(module).creator == old(module).creator
                && final(module).price == old(module).price
                && final(module).is_free_issuance == old(module).is_free_issuance
                && final(module).uri@ == old(module).uri@
                && final(module).total_sales == old(module).total_sales
                && final(module).total_revenue == old(module).total_revenue,
        },
        old(module).well_formed() ==> final(module).well_formed(),
{
    match payout {
        Err(e) => Err(from_ledger_error(e)),
        Ok(()) => {
            module.collected_revenue = module.total_revenue;
            Ok(())
        },
    }
}

/// Sum of a sequence of prices.
pub open spec fn sum_of_prices(prices: Seq<u64>) -> int
    decreases prices.len(),
{
    if prices.len() == 0 {
        0
    } else {
        sum_of_prices(prices.drop_last()) + prices.last()
    }
}

/// Over any run of successful purchases against one marketplace, where
/// `history[i + 1]` is the record after the purchase at `prices[i]`, revenue
/// grows by the sum of the prices paid and the sale count by the number of
/// purchases; from a freshly initialized record the totals are exactly that
/// sum and that count.
pub proof fn lemma_marketplace_totals(history: Seq<Marketplace>, prices: Seq<u64>)
    requires
        history.len() == prices.len() + 1,
        forall|i: int|
            0 <= i < prices.len() ==> #[trigger] marketplace_purchase_step(
                history[i],
                prices[i],
                history[i + 1],
            ),
    ensures
        history.last().total_revenue == history[0].total_revenue + sum_of_prices(prices),
        history.last().total_modules_sold == history[0].total_modules_sold + prices.len(),
        history[0].total_revenue == 0 && history[0].total_modules_sold == 0 ==> {
            &&& history.last().total_revenue == sum_of_prices(prices)
            &&& history.last().total_modules_sold == prices.len()
        },
    decreases prices.len(),
{
    if prices.len() > 0 {
        let n = prices.len() - 1;
        let shorter = history.drop_last();
        assert forall|i: int| 0 <= i < prices.drop_last().len() implies #[trigger] marketplace_purchase_step(
            shorter[i],
            prices.drop_last()[i],
            shorter[i + 1],
        ) by {
            assert(marketplace_purchase_step(history[i], prices[i], history[i + 1]));
        }
        lemma_marketplace_totals(shorter, prices.drop_last());
        assert(marketplace_purchase_step(history[n], prices[n], history[n + 1]));
    }
}

/// Over any run of successful purchases against one module, starting from a
/// freshly listed record, the module's revenue is its sale count times its
/// price, and its price never changes.
pub proof fn lemma_module_revenue(history: Seq<Module>)
    requires
        history.len() >= 1,
        history[0].total_sales == 0,
        history[0].total_revenue == 0,
        forall|i: int|
            0 <= i < history.len() - 1 ==> #[trigger] module_purchase_step(history[i], history[i + 1]),
    ensures
        history.last().price == history[0].price,
        history.last().total_revenue == history.last().total_sales * history.last().price,
    decreases history.len(),
{
    if history.len() > 1 {
        let n = history.len() - 2;
        let shorter = history.drop_last();
        assert forall|i: int| 0 <= i < shorter.len() - 1 implies #[trigger] module_purchase_step(
            shorter[i],
            shorter[i + 1],
        ) by {
            assert(module_purchase_step(history[i], history[i + 1]));
        }
        lemma_module_revenue(shorter);
        assert(module_purchase_step(history[n], history[n + 1]));
        let before = history[n];
        let after = history[n + 1];
        assert((before.total_sales + 1) * before.price == before.total_sales * before.price
            + before.price) by (nonlinear_arith);
    }
}

} // verus!
