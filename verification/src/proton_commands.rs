//! The text of every `proton` CLI command the bot runs through `sh -c`.
use vstd::prelude::*;

verus! {

pub open spec fn transfer_command_text(
    account: Seq<char>,
    contract: Seq<char>,
    quantity: Seq<char>,
    to: Seq<char>,
    memo: Seq<char>,
) -> Seq<char> {
    "proton action "@ + contract + " transfer '{\"from\":\""@ + account + "\",\"to\":\""@ + to
        + "\",\"quantity\":\""@ + quantity + "\",\"memo\":\""@ + memo + "\"}' "@ + account
        + "@active"@
}

/// `proton action <contract> transfer` of `quantity` from `account` to `to`,
/// signed by `account@active`.
pub fn transfer_command(
    account: &str,
    contract: &str,
    quantity: &str,
    to: &str,
    memo: &str,
) -> (r: String)
    ensures
        r@ == transfer_command_text(account@, contract@, quantity@, to@, memo@),
{
    let mut s = String::new();
    s.append("proton action ");
    s.append(contract);
    s.append(" transfer '{\"from\":\"");
    s.append(account);
    s.append("\",\"to\":\"");
    s.append(to);
    s.append("\",\"quantity\":\"");
    s.append(quantity);
    s.append("\",\"memo\":\"");
    s.append(memo);
    s.append("\"}' ");
    s.append(account);
    s.append("@active");
    assert(s@ =~= transfer_command_text(account@, contract@, quantity@, to@, memo@));
    s
}

pub open spec fn symbol_entry_text(entry: (Seq<char>, Seq<char>)) -> Seq<char> {
    "{\"sym\": \""@ + entry.0 + "\", \"contract\": \""@ + entry.1 + "\"}"@
}

/// The symbol entries written one after another, separated by ", ".
pub open spec fn symbol_entries_text(entries: Seq<(Seq<char>, Seq<char>)>) -> Seq<char>
    decreases entries.len(),
{
    if entries.len() == 0 {
        Seq::empty()
    } else if entries.len() == 1 {
        symbol_entry_text(entries[0])
    } else {
        symbol_entries_text(entries.drop_last()) + ", "@ + symbol_entry_text(entries.last())
    }
}

pub open spec fn deposit_prep_command_text(
    account: Seq<char>,
    symbols: Seq<(Seq<char>, Seq<char>)>,
) -> Seq<char> {
    "proton action proton.swaps depositprep '{\"owner\": \""@ + account + "\", \"symbols\": ["@
        + symbol_entries_text(symbols) + "]}' "@ + account
}

/// `proton action proton.swaps depositprep` opening deposit records for
/// `account`, one for each (symbol, contract) pair such as ("4,XPR", "eosio.token").
pub fn deposit_prep_command(account: &str, symbols: &Vec<(String, String)>) -> (r: String)
    ensures
        r@ == deposit_prep_command_text(account@, symbols.deep_view()),
{
    let mut s = String::new();
    s.append("proton action proton.swaps depositprep '{\"owner\": \"");
    s.append(account);
    s.append("\", \"symbols\": [");
    let ghost start = s@;
    let ghost v = symbols.deep_view();
    let mut i: usize = 0;
    while i < symbols.len()
        invariant
            i <= symbols.len(),
            v == symbols.deep_view(),
            s@ == start + symbol_entries_text(v.take(i as int)),
        decreases symbols.len() - i,
    {
        let ghost before = s@;
        if i > 0 {
            s.append(", ");
        }
        s.append("{\"sym\": \"");
        s.append(symbols[i].0.as_str());
        s.append("\", \"contract\": \"");
        s.append(symbols[i].1.as_str());
        s.append("\"}");
        proof {
            assert(v[i as int] == (symbols@[i as int].0@, symbols@[i as int].1@));
            assert(v.take(i + 1).drop_last() =~= v.take(i as int));
            assert(v.take(i + 1).last() == v[i as int]);
            if i == 0 {
                assert(v.take(0) =~= Seq::<(Seq<char>, Seq<char>)>::empty());
                assert(s@ =~= start + symbol_entries_text(v.take(i + 1)));
            } else {
                assert(s@ =~= start + symbol_entries_text(v.take(i + 1)));
            }
        }
        i = i + 1;
    }
    s.append("]}' ");
    s.append(account);
    assert(v.take(symbols.len() as int) =~= v);
    assert(s@ =~= deposit_prep_command_text(account@, v));
    s
}

pub open spec fn liquidity_add_command_text(
    account: Seq<char>,
    lt_symbol: Seq<char>,
    token1_quantity: Seq<char>,
    token1_contract: Seq<char>,
    token2_quantity: Seq<char>,
    token2_contract: Seq<char>,
    token1_min_quantity: Seq<char>,
    token1_min_contract: Seq<char>,
    token2_min_quantity: Seq<char>,
    token2_min_contract: Seq<char>,
) -> Seq<char> {
    "proton action proton.swaps liquidityadd '{\"owner\":\""@ + account + "\",\"lt_symbol\":\""@
        + lt_symbol + "\",\"add_token1\":{\"quantity\":\""@ + token1_quantity
        + "\",\"contract\":\""@ + token1_contract + "\"},\"add_token2\":{\"quantity\":\""@
        + token2_quantity + "\",\"contract\":\""@ + token2_contract
        + "\"},\"add_token1_min\":{\"quantity\":\""@ + token1_min_quantity
        + "\",\"contract\":\""@ + token1_min_contract
        + "\"},\"add_token2_min\":{\"quantity\":\""@ + token2_min_quantity
        + "\",\"contract\":\""@ + token2_min_contract + "\"}}' "@ + account
}

/// `proton action proton.swaps liquidityadd` into the pool `lt_symbol`, with
/// the two amounts offered and the least of each the owner accepts.
pub fn liquidity_add_command(
    account: &str,
    lt_symbol: &str,
    token1_quantity: &str,
    token1_contract: &str,
    token2_quantity: &str,
    token2_contract: &str,
    token1_min_quantity: &str,
    token1_min_contract: &str,
    token2_min_quantity: &str,
    token2_min_contract: &str,
) -> (r: String)
    ensures
        r@ == liquidity_add_command_text(
            account@,
            lt_symbol@,
            token1_quantity@,
            token1_contract@,
            token2_quantity@,
            token2_contract@,
            token1_min_quantity@,
            token1_min_contract@,
            token2_min_quantity@,
            token2_min_contract@,
        ),
{
    let mut s = String::new();
    s.append("proton action proton.swaps liquidityadd '{\"owner\":\"");
    s.append(account);
    s.append("\",\"lt_symbol\":\"");
    s.append(lt_symbol);
    s.append("\",\"add_token1\":{\"quantity\":\"");
    s.append(token1_quantity);
    s.append("\",\"contract\":\"");
    s.append(token1_contract);
    s.append("\"},\"add_token2\":{\"quantity\":\"");
    s.append(token2_quantity);
    s.append("\",\"contract\":\"");
    s.append(token2_contract);
    s.append("\"},\"add_token1_min\":{\"quantity\":\"");
    s.append(token1_min_quantity);
    s.append("\",\"contract\":\"");
    s.append(token1_min_contract);
    s.append("\"},\"add_token2_min\":{\"quantity\":\"");
    s.append(token2_min_quantity);
    s.append("\",\"contract\":\"");
    s.append(token2_min_contract);
    s.append("\"}}' ");
    s.append(account);
    assert(s@ =~= liquidity_add_command_text(
        account@,
        lt_symbol@,
        token1_quantity@,
        token1_contract@,
        token2_quantity@,
        token2_contract@,
        token1_min_quantity@,
        token1_min_contract@,
        token2_min_quantity@,
        token2_min_contract@,
    ));
    s
}

/// The stake names, each in double quotes, separated by ", ".
pub open spec fn quoted_list_text(items: Seq<Seq<char>>) -> Seq<char>
    decreases items.len(),
{
    if items.len() == 0 {
        Seq::empty()
    } else if items.len() == 1 {
        "\""@ + items[0] + "\""@
    } else {
        quoted_list_text(items.drop_last()) + ", \""@ + items.last() + "\""@
    }
}

pub open spec fn open_stake_command_text(account: Seq<char>, stakes: Seq<Seq<char>>) -> Seq<
    char,
> {
    "proton action yield.farms open '{\"user\": \""@ + account + "\", \"stakes\": ["@
        + quoted_list_text(stakes) + "]}' "@ + account + "@active"@
}

/// `proton action yield.farms open` of the farming stakes named in `stakes`.
pub fn open_stake_command(account: &str, stakes: &Vec<String>) -> (r: String)
    ensures
        r@ == open_stake_command_text(account@, stakes.deep_view()),
{
    let mut s = String::new();
    s.append("proton action yield.farms open '{\"user\": \"");
    s.append(account);
    s.append("\", \"stakes\": [");
    let ghost start = s@;
    let ghost v = stakes.deep_view();
    let mut i: usize = 0;
    while i < stakes.len()
        invariant
            i <= stakes.len(),
            v == stakes.deep_view(),
            s@ == start + quoted_list_text(v.take(i as int)),
        decreases stakes.len() - i,
    {
        if i > 0 {
            s.append(", \"");
        } else {
            s.append("\"");
        }
        s.append(stakes[i].as_str());
        s.append("\"");
        proof {
            assert(v.take(i + 1).drop_last() =~= v.take(i as int));
            assert(v.take(i + 1).last() == v[i as int]);
            if i == 0 {
                assert(v.take(0) =~= Seq::<Seq<char>>::empty());
            }
            assert(s@ =~= start + quoted_list_text(v.take(i + 1)));
        }
        i = i + 1;
    }
    s.append("]}' ");
    s.append(account);
    s.append("@active");
    assert(v.take(stakes.len() as int) =~= v);
    assert(s@ =~= open_stake_command_text(account@, v));
    s
}

pub open spec fn swap_deposit_command_text(
    account: Seq<char>,
    contract: Seq<char>,
    quantity: Seq<char>,
    memo: Seq<char>,
) -> Seq<char> {
    "proton action "@ + contract + " transfer '{\"from\": \""@ + account
        + "\", \"to\": \"proton.swaps\", \"quantity\": \""@ + quantity + "\", \"memo\": \""@
        + memo + "\"}' "@ + account + "@active"@
}

/// A transfer of `quantity` to `proton.swaps` whose memo is a swap order,
/// as sent for an excess balance.
pub fn swap_deposit_command(account: &str, contract: &str, quantity: &str, memo: &str) -> (r:
    String)
    ensures
        r@ == swap_deposit_command_text(account@, contract@, quantity@, memo@),
{
    let mut s = String::new();
    s.append("proton action ");
    s.append(contract);
    s.append(" transfer '{\"from\": \"");
    s.append(account);
    s.append("\", \"to\": \"proton.swaps\", \"quantity\": \"");
    s.append(quantity);
    s.append("\", \"memo\": \"");
    s.append(memo);
    s.append("\"}' ");
    s.append(account);
    s.append("@active");
    assert(s@ =~= swap_deposit_command_text(account@, contract@, quantity@, memo@));
    s
}

pub open spec fn buy_ram_command_text(account: Seq<char>) -> Seq<char> {
    "proton action eosio buyrambytes '{\"payer\": \""@ + account + "\", \"receiver\": \""@
        + account + "\", \"bytes\": 5000}' "@ + account
}

/// `proton action eosio buyrambytes` of 5000 bytes for `account`.
pub fn buy_ram_command(account: &str) -> (r: String)
    ensures
        r@ == buy_ram_command_text(account@),
{
    let mut s = String::new();
    s.append("proton action eosio buyrambytes '{\"payer\": \"");
    s.append(account);
    s.append("\", \"receiver\": \"");
    s.append(account);
    s.append("\", \"bytes\": 5000}' ");
    s.append(account);
    assert(s@ =~= buy_ram_command_text(account@));
    s
}

pub open spec fn withdraw_all_command_text(account: Seq<char>) -> Seq<char> {
    "proton action proton.swaps withdrawall '{\"owner\": \""@ + account + "\"}' "@ + account
}

/// `proton action proton.swaps withdrawall` of everything `account` holds
/// on deposit at the exchange.
pub fn withdraw_all_command(account: &str) -> (r: String)
    ensures
        r@ == withdraw_all_command_text(account@),
{
    let mut s = String::new();
    s.append("proton action proton.swaps withdrawall '{\"owner\": \"");
    s.append(account);
    s.append("\"}' ");
    s.append(account);
    assert(s@ =~= withdraw_all_command_text(account@));
    s
}

pub open spec fn claim_rewards_command_text(account: Seq<char>, stake: Seq<char>) -> Seq<char> {
    "proton action yield.farms claim '{\"claimer\": \""@ + account + "\", \"stakes\": [\""@ + stake
        + "\"]}' "@ + account
}

/// `proton action yield.farms claim` of the farming rewards of `stake`.
pub fn claim_rewards_command(account: &str, stake: &str) -> (r: String)
    ensures
        r@ == claim_rewards_command_text(account@, stake@),
{
    let mut s = String::new();
    s.append("proton action yield.farms claim '{\"claimer\": \"");
    s.append(account);
    s.append("\", \"stakes\": [\"");
    s.append(stake);
    s.append("\"]}' ");
    s.append(account);
    assert(s@ =~= claim_rewards_command_text(account@, stake@));
    s
}

pub open spec fn account_tokens_command_text(account: Seq<char>) -> Seq<char> {
    "proton account "@ + account + " -t"@
}

/// `proton account <account> -t`, which lists the account's token balances.
pub fn account_tokens_command(account: &str) -> (r: String)
    ensures
        r@ == account_tokens_command_text(account@),
{
    let mut s = String::new();
    s.append("proton account ");
    s.append(account);
    s.append(" -t");
    assert(s@ =~= account_tokens_command_text(account@));
    s
}

/// `proton table proton.swaps pools`, which prints the pool table as JSON.
pub fn pools_table_command() -> (r: String)
    ensures
        r@ == "proton table proton.swaps pools"@,
{
    String::from_str("proton table proton.swaps pools")
}

} // verus!
