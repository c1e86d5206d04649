//! Genesis-artifact planning: which keypair files are generated for each
//! deployment role, and the exact argument list handed to the external
//! genesis-ledger builder. The external processes themselves (the keypair
//! generator and the ledger builder) run outside the library; everything here
//! is a deterministic function of the configuration, so the argument lists and
//! file layouts are pinned down exactly.
use vstd::prelude::*;

use crate::digits::{dec_digits, u64_to_string};

verus! {

pub const DEFAULT_FAUCET_LAMPORTS: u64 = 500000000000000000;

pub const DEFAULT_MAX_GENESIS_ARCHIVE_UNPACKED_SIZE: u64 = 1073741824;

pub const DEFAULT_BOOTSTRAP_NODE_STAKE_LAMPORTS: u64 = 10000000000;

pub const DEFAULT_BOOTSTRAP_NODE_LAMPORTS: u64 = 500000000000;

/// Flags for the genesis-ledger builder. Optional values fall back to the
/// documented defaults above when absent. Lamport amounts are integral.
pub struct GenesisFlags {
    pub hashes_per_tick: String,
    pub slots_per_epoch: Option<u64>,
    pub target_lamports_per_signature: Option<u64>,
    pub faucet_lamports: Option<u64>,
    pub enable_warmup_epochs: bool,
    pub max_genesis_archive_unpacked_size: Option<u64>,
    pub cluster_type: String,
    pub bootstrap_validator_lamports: Option<u64>,
    pub bootstrap_validator_stake_lamports: Option<u64>,
}

/// The declarative deployment request: target namespace and node count.
#[derive(Clone, Debug)]
pub struct SetupConfig<'a> {
    pub namespace: &'a str,
    pub num_validators: i32,
    pub prebuild_genesis: bool,
}

/// Why a genesis step failed.
#[derive(Debug, Clone)]
pub enum GenesisError {
    /// An external process (keypair generator or ledger builder) exited
    /// non-zero; carries the captured standard-error text.
    ExternalProcessError(String),
    /// An unrecognized role was passed to account generation.
    InvalidArgument(String),
}

/// Planner for the genesis work directory: key-material file layout and the
/// ledger-builder invocation.
pub struct Genesis {
    pub flags: GenesisFlags,
    pub config_dir: String,
    pub args: Vec<String>,
}

/// The views of an argument or path list, element by element.
pub open spec fn arg_views(s: Seq<String>) -> Seq<Seq<char>> {
    s.map_values(|x: String| x@)
}

/// `dir`/`name`, with a single separator.
pub open spec fn path_join(dir: Seq<char>, name: Seq<char>) -> Seq<char> {
    dir + "/"@ + name
}

pub open spec fn spec_stake_lamports(flags: GenesisFlags) -> u64 {
    match flags.bootstrap_validator_stake_lamports {
        Some(l) => l,
        None => DEFAULT_BOOTSTRAP_NODE_STAKE_LAMPORTS,
    }
}

pub open spec fn spec_node_lamports(flags: GenesisFlags) -> u64 {
    match flags.bootstrap_validator_lamports {
        Some(l) => l,
        None => DEFAULT_BOOTSTRAP_NODE_LAMPORTS,
    }
}

pub open spec fn spec_archive_size(flags: GenesisFlags) -> u64 {
    match flags.max_genesis_archive_unpacked_size {
        Some(s) => s,
        None => DEFAULT_MAX_GENESIS_ARCHIVE_UNPACKED_SIZE,
    }
}

pub open spec fn spec_faucet_lamports(flags: GenesisFlags) -> u64 {
    match flags.faucet_lamports {
        Some(l) => l,
        None => DEFAULT_FAUCET_LAMPORTS,
    }
}

/// The complete argument list for the genesis-ledger builder. The three
/// bootstrap account paths stand in the fixed identity, vote, stake order:
/// any other order would produce a semantically different ledger.
pub open spec fn genesis_args(flags: GenesisFlags, dir: Seq<char>) -> Seq<Seq<char>> {
    seq![
        "--bootstrap-validator-stake-lamports"@,
        dec_digits(spec_stake_lamports(flags) as nat),
        "--bootstrap-validator-lamports"@,
        dec_digits(spec_node_lamports(flags) as nat),
        "--hashes-per-tick"@,
        flags.hashes_per_tick@,
        "--max-genesis-archive-unpacked-size"@,
        dec_digits(spec_archive_size(flags) as nat),
    ] + (if flags.enable_warmup_epochs {
        seq!["--enable-warmup-epochs"@]
    } else {
        Seq::<Seq<char>>::empty()
    }) + seq![
        "--faucet-lamports"@,
        dec_digits(spec_faucet_lamports(flags) as nat),
        "--faucet-pubkey"@,
        path_join(dir, "faucet.json"@),
        "--cluster-type"@,
        flags.cluster_type@,
        "--ledger"@,
        path_join(dir, "bootstrap-validator"@),
        "--bootstrap-validator"@,
        path_join(dir, "bootstrap-validator/identity.json"@),
        path_join(dir, "bootstrap-validator/vote-account.json"@),
        path_join(dir, "bootstrap-validator/stake-account.json"@),
    ] + (match flags.slots_per_epoch {
        Some(s) => seq!["--slots-per-epoch"@, dec_digits(s as nat)],
        None => Seq::<Seq<char>>::empty(),
    }) + (match flags.target_lamports_per_signature {
        Some(t) => seq!["--target-lamports-per-signature"@, dec_digits(t as nat)],
        None => Seq::<Seq<char>>::empty(),
    })
}

/// The three account kinds of a node, in the fixed generation order.
pub open spec fn account_types() -> Seq<Seq<char>> {
    seq!["identity"@, "vote-account"@, "stake-account"@]
}

/// The keypair file written for one account of one node. Bootstrap files live
/// under a fixed subdirectory with fixed names; standard-node files carry the
/// node index in their name.
pub open spec fn account_file(dir: Seq<char>, vt: Seq<char>, i: int, acct: Seq<char>) -> Seq<
    char,
> {
    if vt == "bootstrap"@ {
        path_join(dir, "bootstrap-validator/"@ + acct + ".json"@)
    } else {
        path_join(dir, "validator-"@ + acct + "-"@ + dec_digits(i as nat) + ".json"@)
    }
}

/// The three keypair files of node `i`, in the identity, vote, stake order.
pub open spec fn node_account_files(dir: Seq<char>, vt: Seq<char>, i: int) -> Seq<Seq<char>> {
    seq![
        account_file(dir, vt, i, "identity"@),
        account_file(dir, vt, i, "vote-account"@),
        account_file(dir, vt, i, "stake-account"@),
    ]
}

/// The keypair files of nodes `0..n`, in node order.
pub open spec fn account_files(dir: Seq<char>, vt: Seq<char>, n: int) -> Seq<Seq<char>>
    decreases n,
{
    if n <= 0 {
        Seq::<Seq<char>>::empty()
    } else {
        account_files(dir, vt, n - 1) + node_account_files(dir, vt, n - 1)
    }
}

/// Compares two string slices by contents.
pub fn str_equal(a: &str, b: &str) -> (r: bool)
    ensures
        r == (a@ == b@),
{
    let x: String = a.to_owned();
    let y: String = b.to_owned();
    x == y
}

/// Turns the outcome of an external process into a result: success is `Ok`,
/// and a non-zero exit carries the step's context followed by the captured
/// standard-error text.
pub fn external_process_result(success: bool, context: &str, stderr: String) -> (r: Result<
    (),
    GenesisError,
>)
    ensures
        success <==> r is Ok,
        r matches Err(e) ==> e matches GenesisError::ExternalProcessError(m) && m@ == context@
            + stderr@,
{
    if success {
        Ok(())
    } else {
        Err(GenesisError::ExternalProcessError(context.to_owned().concat(stderr.as_str())))
    }
}

/// The outcome of the faucet keypair generation: a failure names the step and
/// carries the captured standard-error text.
pub fn faucet_keygen_result(success: bool, stderr: String) -> (r: Result<(), GenesisError>)
    ensures
        success <==> r is Ok,
        r matches Err(e) ==> e matches GenesisError::ExternalProcessError(m) && m@
            == "Failed to create new faucet keypair. err: "@ + stderr@,
{
    external_process_result(success, "Failed to create new faucet keypair. err: ", stderr)
}

/// The outcome of one account keypair generation: a failure names the failing
/// account kind and carries the captured standard-error text.
pub fn account_keygen_result(success: bool, account: &str, stderr: String) -> (r: Result<
    (),
    GenesisError,
>)
    ensures
        success <==> r is Ok,
        r matches Err(e) ==> e matches GenesisError::ExternalProcessError(m) && m@
            == "Failed to create new account keypair. account: "@ + account@ + ", err: "@
            + stderr@,
{
    let context = "Failed to create new account keypair. account: ".to_owned().concat(
        account,
    ).concat(", err: ");
    let r = external_process_result(success, context.as_str(), stderr);
    proof {
        if r is Err {
            let m = r->Err_0->ExternalProcessError_0;
            assert(m@ =~= "Failed to create new account keypair. account: "@ + account@
                + ", err: "@ + stderr@);
        }
    }
    r
}

/// The outcome of the ledger build: a failure names the step and carries the
/// captured standard-error text.
pub fn genesis_build_result(success: bool, stderr: String) -> (r: Result<(), GenesisError>)
    ensures
        success <==> r is Ok,
        r matches Err(e) ==> e matches GenesisError::ExternalProcessError(m) && m@
            == "Failed to create genesis. err: "@ + stderr@,
{
    external_process_result(success, "Failed to create genesis. err: ", stderr)
}

/// The account kind at position `k` of a node's triple, in the identity,
/// vote, stake order.
pub fn account_type_name(k: usize) -> (r: &'static str)
    requires
        k < 3,
    ensures
        r@ == account_types()[k as int],
{
    if k == 0 {
        "identity"
    } else if k == 1 {
        "vote-account"
    } else {
        "stake-account"
    }
}

impl Genesis {
    /// A planner rooted at `solana_root`/config. Wiping and recreating that
    /// directory is the caller's side of the bargain; the planner itself only
    /// decides names and argument lists.
    pub fn new(solana_root: &str, flags: GenesisFlags) -> (g: Genesis)
        ensures
            g.config_dir@ == path_join(solana_root@, "config"@),
            g.flags == flags,
            g.args@ == Seq::<String>::empty(),
    {
        let config_dir = solana_root.to_owned().concat("/").concat("config");
        Genesis { flags, config_dir, args: Vec::new() }
    }

    /// The argument list for the external keypair generator: a fresh keypair,
    /// non-interactive, written to `output_path`.
    pub fn generate_keypair_args(output_path: &str) -> (r: Vec<String>)
        ensures
            arg_views(r@) == seq![
                "new"@,
                "--no-bip39-passphrase"@,
                "--silent"@,
                "-o"@,
                output_path@,
            ],
    {
        let mut args: Vec<String> = Vec::new();
        args.push("new".to_owned());
        args.push("--no-bip39-passphrase".to_owned());
        args.push("--silent".to_owned());
        args.push("-o".to_owned());
        args.push(output_path.to_owned());
        proof {
            assert(arg_views(args@) =~= seq![
                "new"@,
                "--no-bip39-passphrase"@,
                "--silent"@,
                "-o"@,
                output_path@,
            ]);
        }
        args
    }

    /// Where the faucet keypair is written.
    pub fn faucet_path(&self) -> (r: String)
        ensures
            r@ == path_join(self.config_dir@, "faucet.json"@),
    {
        self.config_dir.clone().concat("/").concat("faucet.json")
    }

    /// The three keypair file paths of node `i` for the given role, in the
    /// identity, vote, stake order.
    fn node_files(&self, validator_type: &str, i: i32) -> (r: Vec<String>)
        requires
            validator_type@ == "bootstrap"@ || validator_type@ == "validator"@,
            0 <= i,
        ensures
            arg_views(r@) == node_account_files(self.config_dir@, validator_type@, i as int),
    {
        let mut files: Vec<String> = Vec::new();
        if str_equal(validator_type, "bootstrap") {
            files.push(
                self.config_dir.clone().concat("/").concat("bootstrap-validator/").concat(
                    "identity",
                ).concat(".json"),
            );
            files.push(
                self.config_dir.clone().concat("/").concat("bootstrap-validator/").concat(
                    "vote-account",
                ).concat(".json"),
            );
            files.push(
                self.config_dir.clone().concat("/").concat("bootstrap-validator/").concat(
                    "stake-account",
                ).concat(".json"),
            );
        } else {
            let index = u64_to_string(i as u64);
            files.push(
                self.config_dir.clone().concat("/").concat("validator-").concat("identity").concat(
                    "-",
                ).concat(index.as_str()).concat(".json"),
            );
            files.push(
                self.config_dir.clone().concat("/").concat("validator-").concat(
                    "vote-account",
                ).concat("-").concat(index.as_str()).concat(".json"),
            );
            files.push(
                self.config_dir.clone().concat("/").concat("validator-").concat(
                    "stake-account",
                ).concat("-").concat(index.as_str()).concat(".json"),
            );
        }
        proof {
            assert(arg_views(files@) =~~= node_account_files(
                self.config_dir@,
                validator_type@,
                i as int,
            ));
        }
        files
    }

    /// Plans account generation for a role: the ordered list of keypair files
    /// to produce. Exactly the roles `"bootstrap"` and `"validator"` are
    /// accepted; any other role is an invalid argument and plans nothing.
    /// The bootstrap role is meant to be planned with a count of one: its
    /// file names are fixed, so a larger count only repeats the same three.
    pub fn generate_accounts(&self, validator_type: &str, number_of_accounts: i32) -> (r: Result<
        Vec<String>,
        GenesisError,
    >)
        requires
            0 <= number_of_accounts,
        ensures
            r is Ok <==> (validator_type@ == "bootstrap"@ || validator_type@ == "validator"@),
            r matches Ok(files) ==> arg_views(files@) == account_files(
                self.config_dir@,
                validator_type@,
                number_of_accounts as int,
            ),
            r matches Err(e) ==> e matches GenesisError::InvalidArgument(m) && m@
                == "Invalid validator type: "@ + validator_type@,
    {
        let is_bootstrap = str_equal(validator_type, "bootstrap");
        let is_validator = str_equal(validator_type, "validator");
        if !is_bootstrap && !is_validator {
            return Err(
                GenesisError::InvalidArgument(
                    "Invalid validator type: ".to_owned().concat(validator_type),
                ),
            );
        }
        let mut files: Vec<String> = Vec::new();
        let mut i: i32 = 0;
        while i < number_of_accounts
            invariant
                0 <= i <= number_of_accounts,
                validator_type@ == "bootstrap"@ || validator_type@ == "validator"@,
                arg_views(files@) == account_files(self.config_dir@, validator_type@, i as int),
            decreases number_of_accounts - i,
        {
            let mut node = self.node_files(validator_type, i);
            proof {
                assert(arg_views(files@ + node@) =~= arg_views(files@) + arg_views(node@));
            }
            files.append(&mut node);
            i = i + 1;
        }
        Ok(files)
    }

    /// Assembles the full argument list for the external ledger builder,
    /// exactly as `genesis_args` describes: defaults filled in, optional
    /// flags appended only when present, and the bootstrap account paths in
    /// the fixed identity, vote, stake order.
    #[verifier::rlimit(100)]
    pub fn setup_genesis_flags(&self) -> (r: Vec<String>)
        ensures
            arg_views(r@) == genesis_args(self.flags, self.config_dir@),
    {
        let mut args: Vec<String> = Vec::new();
        args.push("--bootstrap-validator-stake-lamports".to_owned());
        match self.flags.bootstrap_validator_stake_lamports {
            Some(lamports) => args.push(u64_to_string(lamports)),
            None => args.push(u64_to_string(DEFAULT_BOOTSTRAP_NODE_STAKE_LAMPORTS)),
        }
        args.push("--bootstrap-validator-lamports".to_owned());
        match self.flags.bootstrap_validator_lamports {
            Some(lamports) => args.push(u64_to_string(lamports)),
            None => args.push(u64_to_string(DEFAULT_BOOTSTRAP_NODE_LAMPORTS)),
        }
        args.push("--hashes-per-tick".to_owned());
        args.push(self.flags.hashes_per_tick.clone());
        args.push("--max-genesis-archive-unpacked-size".to_owned());
        match self.flags.max_genesis_archive_unpacked_size {
            Some(size) => args.push(u64_to_string(size)),
            None => args.push(u64_to_string(DEFAULT_MAX_GENESIS_ARCHIVE_UNPACKED_SIZE)),
        }
        if self.flags.enable_warmup_epochs {
            args.push("--enable-warmup-epochs".to_owned());
        }
        args.push("--faucet-lamports".to_owned());
        match self.flags.faucet_lamports {
            Some(lamports) => args.push(u64_to_string(lamports)),
            None => args.push(u64_to_string(DEFAULT_FAUCET_LAMPORTS)),
        }
        args.push("--faucet-pubkey".to_owned());
        args.push(self.config_dir.clone().concat("/").concat("faucet.json"));
        args.push("--cluster-type".to_owned());
        args.push(self.flags.cluster_type.clone());
        args.push("--ledger".to_owned());
        args.push(self.config_dir.clone().concat("/").concat("bootstrap-validator"));
        args.push("--bootstrap-validator".to_owned());
        args.push(self.config_dir.clone().concat("/").concat("bootstrap-validator/identity.json"));
        args.push(
            self.config_dir.clone().concat("/").concat("bootstrap-validator/vote-account.json"),
        );
        args.push(
            self.config_dir.clone().concat("/").concat("bootstrap-validator/stake-account.json"),
        );
        if let Some(slots_per_epoch) = self.flags.slots_per_epoch {
            args.push("--slots-per-epoch".to_owned());
            args.push(u64_to_string(slots_per_epoch));
        }
        if let Some(lamports_per_signature) = self.flags.target_lamports_per_signature {
            args.push("--target-lamports-per-signature".to_owned());
            args.push(u64_to_string(lamports_per_signature));
        }
        proof {
            assert(arg_views(args@) =~= genesis_args(self.flags, self.config_dir@));
        }
        args
    }
}

/// Law: the ledger-builder argument list places the bootstrap identity path,
/// the vote-account path and the stake-account path consecutively and in that
/// fixed order, for every input combination.
pub proof fn lemma_bootstrap_accounts_in_order(flags: GenesisFlags, dir: Seq<char>)
    ensures
        ({
            let args = genesis_args(flags, dir);
            exists|i: int|
                0 <= i && i + 2 < args.len() && #[trigger] args[i] == path_join(
                    dir,
                    "bootstrap-validator/identity.json"@,
                ) && args[i + 1] == path_join(dir, "bootstrap-validator/vote-account.json"@)
                    && args[i + 2] == path_join(dir, "bootstrap-validator/stake-account.json"@)
        }),
{
    let args = genesis_args(flags, dir);
    let w: int = if flags.enable_warmup_epochs {
        1
    } else {
        0
    };
    assert(args[17 + w] == path_join(dir, "bootstrap-validator/identity.json"@));
    assert(args[17 + w + 1] == path_join(dir, "bootstrap-validator/vote-account.json"@));
    assert(args[17 + w + 2] == path_join(dir, "bootstrap-validator/stake-account.json"@));
    assert(0 <= 17 + w && 17 + w + 2 < args.len());
}

/// Law: planning standard-node accounts for `n` nodes yields exactly `3 * n`
/// files, and node `i`'s triple stands at positions `3 * i` onward, in the
/// identity, vote, stake order.
pub proof fn lemma_validator_account_files(dir: Seq<char>, n: int)
    requires
        0 <= n,
    ensures
        account_files(dir, "validator"@, n).len() == 3 * n,
        forall|i: int|
            0 <= i < n ==> #[trigger] account_files(dir, "validator"@, n).subrange(
                3 * i,
                3 * i + 3,
            ) == node_account_files(dir, "validator"@, i),
    decreases n,
{
    if n > 0 {
        lemma_validator_account_files(dir, n - 1);
        let whole = account_files(dir, "validator"@, n);
        let prefix = account_files(dir, "validator"@, n - 1);
        assert forall|i: int| 0 <= i < n implies #[trigger] whole.subrange(3 * i, 3 * i + 3)
            == node_account_files(dir, "validator"@, i) by {
            if i < n - 1 {
                assert(whole.subrange(3 * i, 3 * i + 3) =~= prefix.subrange(3 * i, 3 * i + 3));
            } else {
                assert(whole.subrange(3 * i, 3 * i + 3) =~= node_account_files(
                    dir,
                    "validator"@,
                    i,
                ));
            }
        }
    }
}

/// Law: planning bootstrap accounts always yields the same fixed three file
/// names, whatever the count: every planned entry is one of the bootstrap
/// triple's members.
pub proof fn lemma_bootstrap_account_files(dir: Seq<char>, n: int)
    requires
        0 <= n,
    ensures
        account_files(dir, "bootstrap"@, n).len() == 3 * n,
        forall|k: int|
            0 <= k < 3 * n ==> #[trigger] account_files(dir, "bootstrap"@, n)[k]
                == node_account_files(dir, "bootstrap"@, 0)[k % 3],
    decreases n,
{
    if n > 0 {
        lemma_bootstrap_account_files(dir, n - 1);
        let whole = account_files(dir, "bootstrap"@, n);
        let prefix = account_files(dir, "bootstrap"@, n - 1);
        assert forall|k: int| 0 <= k < 3 * n implies #[trigger] whole[k] == node_account_files(
            dir,
            "bootstrap"@,
            0,
        )[k % 3] by {
            if k < 3 * (n - 1) {
                assert(whole[k] == prefix[k]);
            } else {
                let r = k - 3 * (n - 1);
                assert(whole[k] == node_account_files(dir, "bootstrap"@, n - 1)[r]);
                assert(k % 3 == r);
                assert(node_account_files(dir, "bootstrap"@, n - 1)[r] == node_account_files(
                    dir,
                    "bootstrap"@,
                    0,
                )[r]);
            }
        }
    }
}

/// Law: artifact generation is idempotent up to the freshly generated key
/// contents. Two planners with the same flags and the same work directory
/// (as after a reset and regeneration with identical configuration) hand the
/// ledger builder the identical argument list.
pub proof fn lemma_generation_idempotent(g1: Genesis, g2: Genesis)
    requires
        g1.flags == g2.flags,
        g1.config_dir@ == g2.config_dir@,
    ensures
        genesis_args(g1.flags, g1.config_dir@) == genesis_args(g2.flags, g2.config_dir@),
{
}

proof fn lemma_validator_account_file_injective(dir: Seq<char>, i: int, j: int, a: Seq<char>, b: Seq<char>)
    requires
        0 <= i,
        0 <= j,
        a == "identity"@ || a == "vote-account"@ || a == "stake-account"@,
        b == "identity"@ || b == "vote-account"@ || b == "stake-account"@,
        account_file(dir, "validator"@, i, a) == account_file(dir, "validator"@, j, b),
    ensures
        i == j,
        a == b,
{
    reveal_strlit("validator");
    reveal_strlit("bootstrap");
    reveal_strlit("validator-");
    reveal_strlit("identity");
    reveal_strlit("vote-account");
    reveal_strlit("stake-account");
    reveal_strlit("/");
    reveal_strlit("-");
    reveal_strlit(".json");
    assert("validator"@[0] == 'v' && "bootstrap"@[0] == 'b');
    assert("validator"@ != "bootstrap"@);
    let d1 = crate::digits::dec_digits(i as nat);
    let d2 = crate::digits::dec_digits(j as nat);
    let t1 = "validator-"@ + a + "-"@ + d1 + ".json"@;
    let t2 = "validator-"@ + b + "-"@ + d2 + ".json"@;
    let n1 = account_file(dir, "validator"@, i, a);
    let n2 = account_file(dir, "validator"@, j, b);
    assert(n1 == dir + "/"@ + t1);
    assert(n2 == dir + "/"@ + t2);
    let la: int = dir.len() as int + 11;
    assert(n1[la] == t1[10]);
    assert(t1[10] == a[0]);
    assert(n2[la] == t2[10]);
    assert(t2[10] == b[0]);
    assert("identity"@[0] == 'i' && "vote-account"@[0] == 'v' && "stake-account"@[0] == 's');
    assert(a == b);
    let p: int = dir.len() as int + 12 + a.len() as int;
    assert(t1.len() == 16 + a.len() + d1.len());
    assert(n1.len() == p + d1.len() + 5);
    assert(n2.len() == p + d2.len() + 5);
    assert(d1 =~= n1.subrange(p, n1.len() as int - 5));
    assert(d2 =~= n2.subrange(p, n2.len() as int - 5));
    crate::digits::lemma_dec_digits_injective(i as nat, j as nat);
}

/// Law: the standard-node plan never names the same file twice — the
/// `3 * n` planned files are `3 * n` distinct files.
pub proof fn lemma_validator_account_files_distinct(dir: Seq<char>, n: int)
    requires
        0 <= n,
    ensures
        account_files(dir, "validator"@, n).no_duplicates(),
{
    lemma_validator_account_files(dir, n);
    let plan = account_files(dir, "validator"@, n);
    assert forall|k: int| 0 <= k < 3 * n implies #[trigger] plan[k] == account_file(
        dir,
        "validator"@,
        k / 3,
        account_types()[k % 3],
    ) by {
        let i = k / 3;
        assert(plan.subrange(3 * i, 3 * i + 3) == node_account_files(dir, "validator"@, i));
        assert(plan.subrange(3 * i, 3 * i + 3)[k % 3] == plan[k]);
    }
    assert forall|k1: int, k2: int|
        0 <= k1 < plan.len() && 0 <= k2 < plan.len() && k1 != k2 implies plan[k1] != plan[k2] by {
        reveal_strlit("identity");
        reveal_strlit("vote-account");
        reveal_strlit("stake-account");
        if plan[k1] == plan[k2] {
            lemma_validator_account_file_injective(
                dir,
                k1 / 3,
                k2 / 3,
                account_types()[k1 % 3],
                account_types()[k2 % 3],
            );
            assert(k1 / 3 == k2 / 3 && k1 % 3 == k2 % 3);
        }
    }
}

/// Law: the bootstrap role's three planned files carry three distinct names.
pub proof fn lemma_bootstrap_triple_distinct(dir: Seq<char>)
    ensures
        node_account_files(dir, "bootstrap"@, 0).no_duplicates(),
{
    reveal_strlit("bootstrap");
    reveal_strlit("bootstrap-validator/");
    reveal_strlit("identity");
    reveal_strlit("vote-account");
    reveal_strlit("stake-account");
    reveal_strlit("/");
    reveal_strlit(".json");
    let triple = node_account_files(dir, "bootstrap"@, 0);
    assert(triple[0].len() == dir.len() + 34);
    assert(triple[1].len() == dir.len() + 38);
    assert(triple[2].len() == dir.len() + 39);
}

} // verus!
