//! The `proton.swaps` pool table: picking the SNIPSXP and XPRUSDC pools out
//! of its rows and reading their reserves.
use vstd::prelude::*;
use crate::text::{first_word, spec_first_word};

verus! {

/// One reserve of a pool, as the table prints it ("123.4567 XPR").
pub struct PoolToken {
    pub quantity: String,
}

/// A row of the `proton.swaps` pools table.
pub struct Pool {
    pub lt_symbol: String,
    pub pool1: PoolToken,
    pub pool2: PoolToken,
}

/// Why the pool table could not be read.
#[derive(PartialEq, Eq, Structural, Debug, Clone, Copy)]
pub enum PoolsError {
    /// No row for the XPR/XUSDC pool (`8,XPRUSDC`).
    XprUsdcPoolNotFound,
    /// No row for the SNIPS/XPR pool (`8,SNIPSXP`).
    SnipsXpPoolNotFound,
}

impl PoolsError {
    pub open spec fn spec_message(self) -> Seq<char> {
        match self {
            PoolsError::XprUsdcPoolNotFound => "XPRUSDC pool not found"@,
            PoolsError::SnipsXpPoolNotFound => "SNIPSXP pool not found"@,
        }
    }

    /// The error's text.
    pub fn message(&self) -> (r: String)
        ensures
            r@ == self.spec_message(),
    {
        match self {
            PoolsError::XprUsdcPoolNotFound => String::from_str("XPRUSDC pool not found"),
            PoolsError::SnipsXpPoolNotFound => String::from_str("SNIPSXP pool not found"),
        }
    }
}

/// The reserves of the two pools, each the amount printed before the
/// token symbol.
pub struct PoolQuantities {
    /// SNIPS in the SNIPSXP pool.
    pub snips: String,
    /// XPR in the SNIPSXP pool.
    pub xpr: String,
    /// XUSDC in the XPRUSDC pool.
    pub xusdc: String,
    /// XPR in the XPRUSDC pool.
    pub xpr_for_xusdc: String,
}

/// The first row whose liquidity token symbol is `symbol`.
pub open spec fn find_pool(rows: Seq<Pool>, symbol: Seq<char>) -> Option<Pool>
    decreases rows.len(),
{
    if rows.len() == 0 {
        None
    } else if rows[0].lt_symbol@ == symbol {
        Some(rows[0])
    } else {
        find_pool(rows.drop_first(), symbol)
    }
}

/// The amount of a reserve: its first word, or `default` when it has none.
pub open spec fn reserve_amount(quantity: Seq<char>, default: Seq<char>) -> Seq<char> {
    match spec_first_word(quantity) {
        Some(w) => w,
        None => default,
    }
}

pub open spec fn spec_select_pool_quantities(rows: Seq<Pool>) -> Result<
    (Seq<char>, Seq<char>, Seq<char>, Seq<char>),
    PoolsError,
> {
    match find_pool(rows, "8,XPRUSDC"@) {
        None => Err(PoolsError::XprUsdcPoolNotFound),
        Some(x) => match find_pool(rows, "8,SNIPSXP"@) {
            None => Err(PoolsError::SnipsXpPoolNotFound),
            Some(s) => Ok(
                (
                    reserve_amount(s.pool1.quantity@, "0.0000"@),
                    reserve_amount(s.pool2.quantity@, "0.0000"@),
                    reserve_amount(x.pool2.quantity@, "0.000000"@),
                    reserve_amount(x.pool1.quantity@, "0.0000"@),
                ),
            ),
        },
    }
}

fn find_pool_index(rows: &Vec<Pool>, symbol: &str) -> (r: Option<usize>)
    ensures
        match r {
            Some(i) => i < rows.len() && find_pool(rows@, symbol@) == Some(rows@[i as int]),
            None => find_pool(rows@, symbol@) is None,
        },
{
    let key = String::from_str(symbol);
    let mut i: usize = 0;
    assert(rows@.skip(0) =~= rows@);
    while i < rows.len()
        invariant
            i <= rows.len(),
            key@ == symbol@,
            find_pool(rows@.skip(i as int), symbol@) == find_pool(rows@, symbol@),
        decreases rows.len() - i,
    {
        let ghost rest = rows@.skip(i as int);
        assert(rest[0] == rows@[i as int]);
        if rows[i].lt_symbol == key {
            return Some(i);
        }
        assert(rest.drop_first() =~= rows@.skip(i + 1));
        i = i + 1;
    }
    assert(rows@.skip(i as int).len() == 0);
    None
}

fn reserve(quantity: &String, default: &str) -> (r: String)
    ensures
        r@ == reserve_amount(quantity@, default@),
{
    match first_word(quantity.as_str()) {
        Some(w) => w,
        None => String::from_str(default),
    }
}

/// The reserves of the SNIPSXP and XPRUSDC pools out of the table rows (the
/// first row of each symbol counts): the XPRUSDC row is looked for first,
/// and a missing row is an error.
pub fn select_pool_quantities(rows: &Vec<Pool>) -> (r: Result<PoolQuantities, PoolsError>)
    ensures
        match (r, spec_select_pool_quantities(rows@)) {
            (Ok(q), Ok(e)) => q.snips@ == e.0 && q.xpr@ == e.1 && q.xusdc@ == e.2
                && q.xpr_for_xusdc@ == e.3,
            (Err(a), Err(b)) => a == b,
            _ => false,
        },
{
    let xi = match find_pool_index(rows, "8,XPRUSDC") {
        Some(i) => i,
        None => return Err(PoolsError::XprUsdcPoolNotFound),
    };
    let si = match find_pool_index(rows, "8,SNIPSXP") {
        Some(i) => i,
        None => return Err(PoolsError::SnipsXpPoolNotFound),
    };
    let x = &rows[xi];
    let s = &rows[si];
    Ok(
        PoolQuantities {
            snips: reserve(&s.pool1.quantity, "0.0000"),
            xpr: reserve(&s.pool2.quantity, "0.0000"),
            xusdc: reserve(&x.pool2.quantity, "0.000000"),
            xpr_for_xusdc: reserve(&x.pool1.quantity, "0.0000"),
        },
    )
}

/// How many times the pool table is asked for before giving up.
pub const MAX_POOL_FETCH_ATTEMPTS: u32 = 5;

/// After a failed `proton table proton.swaps pools`: the number of failed
/// attempts so far and whether to give up (at five).
pub fn pools_fetch_failed(failed_before: u32) -> (r: (u32, bool))
    ensures
        r.0 == (if failed_before < u32::MAX {
            failed_before + 1
        } else {
            failed_before as int
        }),
        r.1 == (r.0 >= MAX_POOL_FETCH_ATTEMPTS),
{
    let n = if failed_before < u32::MAX {
        failed_before + 1
    } else {
        failed_before
    };
    (n, n >= MAX_POOL_FETCH_ATTEMPTS)
}

} // verus!
