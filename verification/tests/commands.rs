use gift_for_dragons::proton_commands::{
    account_tokens_command, buy_ram_command, claim_rewards_command, deposit_prep_command,
    liquidity_add_command, open_stake_command, pools_table_command, swap_deposit_command,
    transfer_command, withdraw_all_command,
};

#[test]
fn deposit_prep_command_lists_symbols() {
    let symbols = vec![
        ("6,XUSDC".to_string(), "xtokens".to_string()),
        ("4,XPR".to_string(), "eosio.token".to_string()),
    ];
    assert_eq!(
        deposit_prep_command("panda4.gm", &symbols),
        "proton action proton.swaps depositprep '{\"owner\": \"panda4.gm\", \"symbols\": [{\"sym\": \"6,XUSDC\", \"contract\": \"xtokens\"}, {\"sym\": \"4,XPR\", \"contract\": \"eosio.token\"}]}' panda4.gm"
    );
    let one = vec![("4,SNIPS".to_string(), "snipcoins".to_string())];
    assert_eq!(
        deposit_prep_command("acc", &one),
        "proton action proton.swaps depositprep '{\"owner\": \"acc\", \"symbols\": [{\"sym\": \"4,SNIPS\", \"contract\": \"snipcoins\"}]}' acc"
    );
    assert_eq!(
        deposit_prep_command("acc", &vec![]),
        "proton action proton.swaps depositprep '{\"owner\": \"acc\", \"symbols\": []}' acc"
    );
}

#[test]
fn liquidity_add_command_names_both_tokens() {
    let cmd = liquidity_add_command(
        "panda4.gm", "8,SNIPSXP", "10.0000 SNIPS", "snipcoins", "0.1000 XPR", "eosio.token",
        "9.0000 SNIPS", "snipcoins", "0.0900 XPR", "eosio.token",
    );
    let expected = format!(
        "proton action proton.swaps liquidityadd '{{\"owner\":\"{a}\",\"lt_symbol\":\"{}\",\"add_token1\":{{\"quantity\":\"{}\",\"contract\":\"{}\"}},\"add_token2\":{{\"quantity\":\"{}\",\"contract\":\"{}\"}},\"add_token1_min\":{{\"quantity\":\"{}\",\"contract\":\"{}\"}},\"add_token2_min\":{{\"quantity\":\"{}\",\"contract\":\"{}\"}}}}' {a}",
        "8,SNIPSXP", "10.0000 SNIPS", "snipcoins", "0.1000 XPR", "eosio.token",
        "9.0000 SNIPS", "snipcoins", "0.0900 XPR", "eosio.token",
        a = "panda4.gm"
    );
    assert_eq!(cmd, expected);
}

#[test]
fn open_stake_command_quotes_stakes() {
    assert_eq!(
        open_stake_command("acc", &vec!["SNIPSXP".to_string()]),
        "proton action yield.farms open '{\"user\": \"acc\", \"stakes\": [\"SNIPSXP\"]}' acc@active"
    );
    assert_eq!(
        open_stake_command("acc", &vec!["SNIPSXP".to_string(), "XPRUSDC".to_string()]),
        "proton action yield.farms open '{\"user\": \"acc\", \"stakes\": [\"SNIPSXP\", \"XPRUSDC\"]}' acc@active"
    );
}

#[test]
fn transfer_command_is_signed_by_active_key() {
    assert_eq!(
        transfer_command("acc", "proton.swaps", "1.00000000 SNIPSXP", "yield.farms", "Stake LP"),
        "proton action proton.swaps transfer '{\"from\":\"acc\",\"to\":\"yield.farms\",\"quantity\":\"1.00000000 SNIPSXP\",\"memo\":\"Stake LP\"}' acc@active"
    );
}

#[test]
fn swap_deposit_command_carries_memo() {
    assert_eq!(
        swap_deposit_command("acc", "snipcoins", "5.0000 SNIPS", "SNIPSXP>XPRUSDC, 5000"),
        "proton action snipcoins transfer '{\"from\": \"acc\", \"to\": \"proton.swaps\", \"quantity\": \"5.0000 SNIPS\", \"memo\": \"SNIPSXP>XPRUSDC, 5000\"}' acc@active"
    );
}

#[test]
fn fixed_commands() {
    assert_eq!(
        buy_ram_command("acc"),
        "proton action eosio buyrambytes '{\"payer\": \"acc\", \"receiver\": \"acc\", \"bytes\": 5000}' acc"
    );
    assert_eq!(
        withdraw_all_command("acc"),
        "proton action proton.swaps withdrawall '{\"owner\": \"acc\"}' acc"
    );
    assert_eq!(
        claim_rewards_command("acc", "XPRUSDC"),
        "proton action yield.farms claim '{\"claimer\": \"acc\", \"stakes\": [\"XPRUSDC\"]}' acc"
    );
    assert_eq!(account_tokens_command("acc"), "proton account acc -t");
    assert_eq!(pools_table_command(), "proton table proton.swaps pools");
}
