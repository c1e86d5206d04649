use solana_k8s_cluster::digits::u64_to_string;
use solana_k8s_cluster::genesis::{
    account_keygen_result, account_type_name, external_process_result, faucet_keygen_result,
    genesis_build_result, Genesis, GenesisError, GenesisFlags,
};

fn default_flags() -> GenesisFlags {
    GenesisFlags {
        hashes_per_tick: "auto".to_string(),
        slots_per_epoch: None,
        target_lamports_per_signature: None,
        faucet_lamports: None,
        enable_warmup_epochs: false,
        max_genesis_archive_unpacked_size: None,
        cluster_type: "development".to_string(),
        bootstrap_validator_lamports: None,
        bootstrap_validator_stake_lamports: None,
    }
}

#[test]
fn u64_rendering() {
    assert_eq!(u64_to_string(0), "0");
    assert_eq!(u64_to_string(7), "7");
    assert_eq!(u64_to_string(10), "10");
    assert_eq!(u64_to_string(105), "105");
    assert_eq!(u64_to_string(1073741824), "1073741824");
    assert_eq!(u64_to_string(u64::MAX), "18446744073709551615");
}

#[test]
fn genesis_args_defaults() {
    let genesis = Genesis::new("/sol", default_flags());
    assert_eq!(genesis.config_dir, "/sol/config");
    let args = genesis.setup_genesis_flags();
    let expected: Vec<String> = [
        "--bootstrap-validator-stake-lamports",
        "10000000000",
        "--bootstrap-validator-lamports",
        "500000000000",
        "--hashes-per-tick",
        "auto",
        "--max-genesis-archive-unpacked-size",
        "1073741824",
        "--faucet-lamports",
        "500000000000000000",
        "--faucet-pubkey",
        "/sol/config/faucet.json",
        "--cluster-type",
        "development",
        "--ledger",
        "/sol/config/bootstrap-validator",
        "--bootstrap-validator",
        "/sol/config/bootstrap-validator/identity.json",
        "/sol/config/bootstrap-validator/vote-account.json",
        "/sol/config/bootstrap-validator/stake-account.json",
    ]
    .iter()
    .map(|s| s.to_string())
    .collect();
    assert_eq!(args, expected);
}

#[test]
fn genesis_args_overrides_and_optional_flags() {
    let flags = GenesisFlags {
        hashes_per_tick: "sleep".to_string(),
        slots_per_epoch: Some(8192),
        target_lamports_per_signature: Some(42),
        faucet_lamports: Some(1000),
        enable_warmup_epochs: true,
        max_genesis_archive_unpacked_size: Some(2048),
        cluster_type: "testnet".to_string(),
        bootstrap_validator_lamports: Some(777),
        bootstrap_validator_stake_lamports: Some(555),
    };
    let genesis = Genesis::new("/sol", flags);
    let args = genesis.setup_genesis_flags();
    let expected: Vec<String> = [
        "--bootstrap-validator-stake-lamports",
        "555",
        "--bootstrap-validator-lamports",
        "777",
        "--hashes-per-tick",
        "sleep",
        "--max-genesis-archive-unpacked-size",
        "2048",
        "--enable-warmup-epochs",
        "--faucet-lamports",
        "1000",
        "--faucet-pubkey",
        "/sol/config/faucet.json",
        "--cluster-type",
        "testnet",
        "--ledger",
        "/sol/config/bootstrap-validator",
        "--bootstrap-validator",
        "/sol/config/bootstrap-validator/identity.json",
        "/sol/config/bootstrap-validator/vote-account.json",
        "/sol/config/bootstrap-validator/stake-account.json",
        "--slots-per-epoch",
        "8192",
        "--target-lamports-per-signature",
        "42",
    ]
    .iter()
    .map(|s| s.to_string())
    .collect();
    assert_eq!(args, expected);
}

#[test]
fn identity_before_vote_before_stake_across_flag_combinations() {
    for warmup in [false, true] {
        for slots in [None, Some(1u64)] {
            for target in [None, Some(9u64)] {
                let flags = GenesisFlags {
                    hashes_per_tick: "auto".to_string(),
                    slots_per_epoch: slots,
                    target_lamports_per_signature: target,
                    faucet_lamports: None,
                    enable_warmup_epochs: warmup,
                    max_genesis_archive_unpacked_size: None,
                    cluster_type: "devnet".to_string(),
                    bootstrap_validator_lamports: None,
                    bootstrap_validator_stake_lamports: None,
                };
                let genesis = Genesis::new("/r", flags);
                let args = genesis.setup_genesis_flags();
                let identity = args
                    .iter()
                    .position(|a| a == "/r/config/bootstrap-validator/identity.json")
                    .unwrap();
                let vote = args
                    .iter()
                    .position(|a| a == "/r/config/bootstrap-validator/vote-account.json")
                    .unwrap();
                let stake = args
                    .iter()
                    .position(|a| a == "/r/config/bootstrap-validator/stake-account.json")
                    .unwrap();
                assert!(identity < vote && vote < stake);
                assert_eq!(vote, identity + 1);
                assert_eq!(stake, identity + 2);
            }
        }
    }
}

#[test]
fn regeneration_with_identical_config_gives_identical_args() {
    let first = Genesis::new("/sol", default_flags()).setup_genesis_flags();
    let second = Genesis::new("/sol", default_flags()).setup_genesis_flags();
    assert_eq!(first, second);
}

#[test]
fn validator_accounts_plan() {
    let genesis = Genesis::new("/sol", default_flags());
    let files = genesis.generate_accounts("validator", 3).unwrap();
    let expected: Vec<String> = [
        "/sol/config/validator-identity-0.json",
        "/sol/config/validator-vote-account-0.json",
        "/sol/config/validator-stake-account-0.json",
        "/sol/config/validator-identity-1.json",
        "/sol/config/validator-vote-account-1.json",
        "/sol/config/validator-stake-account-1.json",
        "/sol/config/validator-identity-2.json",
        "/sol/config/validator-vote-account-2.json",
        "/sol/config/validator-stake-account-2.json",
    ]
    .iter()
    .map(|s| s.to_string())
    .collect();
    assert_eq!(files, expected);
}

#[test]
fn bootstrap_accounts_plan() {
    let genesis = Genesis::new("/sol", default_flags());
    let files = genesis.generate_accounts("bootstrap", 1).unwrap();
    let expected: Vec<String> = [
        "/sol/config/bootstrap-validator/identity.json",
        "/sol/config/bootstrap-validator/vote-account.json",
        "/sol/config/bootstrap-validator/stake-account.json",
    ]
    .iter()
    .map(|s| s.to_string())
    .collect();
    assert_eq!(files, expected);
}

#[test]
fn bogus_role_is_invalid_argument() {
    let genesis = Genesis::new("/sol", default_flags());
    let result = genesis.generate_accounts("bogus", 2);
    match result {
        Err(GenesisError::InvalidArgument(message)) => {
            assert_eq!(message, "Invalid validator type: bogus")
        }
        _ => panic!("expected an invalid argument error"),
    }
}

#[test]
fn keypair_generator_args() {
    let args = Genesis::generate_keypair_args("/sol/config/faucet.json");
    let expected: Vec<String> = [
        "new",
        "--no-bip39-passphrase",
        "--silent",
        "-o",
        "/sol/config/faucet.json",
    ]
    .iter()
    .map(|s| s.to_string())
    .collect();
    assert_eq!(args, expected);
}

#[test]
fn faucet_keypair_path() {
    let genesis = Genesis::new("/sol", default_flags());
    assert_eq!(genesis.faucet_path(), "/sol/config/faucet.json");
}

#[test]
fn external_process_outcomes() {
    assert!(external_process_result(true, "ctx: ", String::new()).is_ok());
    let failed = external_process_result(false, "ctx: ", "boom".to_string());
    match failed {
        Err(GenesisError::ExternalProcessError(message)) => assert_eq!(message, "ctx: boom"),
        _ => panic!("expected an external process error"),
    }
}

#[test]
fn faucet_failure_names_the_step() {
    assert!(faucet_keygen_result(true, String::new()).is_ok());
    match faucet_keygen_result(false, "boom".to_string()) {
        Err(GenesisError::ExternalProcessError(message)) => {
            assert_eq!(message, "Failed to create new faucet keypair. err: boom")
        }
        _ => panic!("expected an external process error"),
    }
}

#[test]
fn account_failure_names_the_account_kind() {
    assert!(account_keygen_result(true, "identity", String::new()).is_ok());
    match account_keygen_result(false, "vote-account", "boom".to_string()) {
        Err(GenesisError::ExternalProcessError(message)) => assert_eq!(
            message,
            "Failed to create new account keypair. account: vote-account, err: boom"
        ),
        _ => panic!("expected an external process error"),
    }
}

#[test]
fn ledger_build_failure_names_the_step() {
    assert!(genesis_build_result(true, String::new()).is_ok());
    match genesis_build_result(false, "boom".to_string()) {
        Err(GenesisError::ExternalProcessError(message)) => {
            assert_eq!(message, "Failed to create genesis. err: boom")
        }
        _ => panic!("expected an external process error"),
    }
}

#[test]
fn account_type_names_in_order() {
    assert_eq!(account_type_name(0), "identity");
    assert_eq!(account_type_name(1), "vote-account");
    assert_eq!(account_type_name(2), "stake-account");
}
