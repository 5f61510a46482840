//! What an instruction asks of the token and serum programs, in the order it
//! asks it. The program that runs an instruction performs these actions one by
//! one and stops at the first that fails.
use vstd::prelude::*;
use vstd::slice::slice_to_vec;
use vstd::string::StringSliceAdditionalSpecFns;
use crate::state::Key;

verus! {

/// The accounts allocated for a serum market, each derived from the junior
/// tranche's mint and vault and a tag of its own.
#[derive(Clone, Copy, Debug, PartialEq, Eq)]
pub enum SerumAccount {
    Market,
    RequestQueue,
    EventQueue,
    Asks,
    Bids,
}

impl SerumAccount {
    /// Size in bytes allocated for the account.
    pub open spec fn spec_space(self) -> u64 {
        match self {
            SerumAccount::Market => 48,
            SerumAccount::RequestQueue => 640,
            SerumAccount::EventQueue => 65536,
            SerumAccount::Asks => 65536,
            SerumAccount::Bids => 65536,
        }
    }

    /// The tag that ends the account's seeds, as UTF-8 bytes.
    pub open spec fn spec_tag(self) -> Seq<u8> {
        match self {
            SerumAccount::Market => "market".spec_bytes(),
            SerumAccount::RequestQueue => "request_queue".spec_bytes(),
            SerumAccount::EventQueue => "event_queue".spec_bytes(),
            SerumAccount::Asks => "asks".spec_bytes(),
            SerumAccount::Bids => "bids".spec_bytes(),
        }
    }

    pub fn space(&self) -> (space: u64)
        ensures
            space == self.spec_space(),
    {
        assert(1u64 << 16 == 65536) by (bit_vector);
        match self {
            SerumAccount::Market => 48,
            SerumAccount::RequestQueue => 640,
            SerumAccount::EventQueue => 65536,
            SerumAccount::Asks => 1 << 16,
            SerumAccount::Bids => 1 << 16,
        }
    }

    pub fn tag(&self) -> (tag: Vec<u8>)
        ensures
            tag@ == self.spec_tag(),
    {
        let s = match self {
            SerumAccount::Market => "market",
            SerumAccount::RequestQueue => "request_queue",
            SerumAccount::EventQueue => "event_queue",
            SerumAccount::Asks => "asks",
            SerumAccount::Bids => "bids",
        };
        slice_to_vec(s.as_bytes())
    }

    /// The seeds of the account: the junior mint's address, the junior
    /// vault's address, then the tag.
    pub fn seeds(&self, junior_mint: &Key, junior_vault: &Key) -> (seeds: Vec<Vec<u8>>)
        ensures
            seeds@.len() == 3,
            seeds@[0]@ == junior_mint@,
            seeds@[1]@ == junior_vault@,
            seeds@[2]@ == self.spec_tag(),
    {
        let mut seeds: Vec<Vec<u8>> = Vec::new();
        seeds.push(slice_to_vec(junior_mint.as_slice()));
        seeds.push(slice_to_vec(junior_vault.as_slice()));
        seeds.push(self.tag());
        seeds
    }
}

/// One request to the token program or the serum program.
#[derive(Clone, Copy, Debug, PartialEq, Eq)]
pub enum TrancheAction {
    /// Moves `amount` tokens from `from` to `to`; `authority` signs.
    Transfer { from: Key, to: Key, authority: Key, amount: u64 },
    /// Moves `amount` tokens out of the tranche vault `from` to `to`; the
    /// tranche config account `authority` signs with the seeds that
    /// `tranche_config_seeds` gives for the three mints and `bump`.
    TransferFromVault {
        from: Key,
        to: Key,
        authority: Key,
        amount: u64,
        deposit_mint: Key,
        senior_tranche_mint: Key,
        junior_tranche_mint: Key,
        bump: u8,
    },
    /// Mints `amount` tokens of `mint` into `to`; `authority` signs.
    MintTo { mint: Key, to: Key, authority: Key, amount: u64 },
    /// Burns `amount` tokens of `mint` held in `from`; `authority` signs.
    Burn { mint: Key, from: Key, authority: Key, amount: u64 },
    /// Allocates the serum account `account` at `address`, paid by `payer`,
    /// with the seeds that `SerumAccount::seeds` gives for the junior mint
    /// and vault.
    AllocateSerumAccount {
        account: SerumAccount,
        address: Key,
        payer: Key,
        junior_tranche_mint: Key,
        junior_tranche_vault: Key,
    },
    /// Asks the serum program `dex_program` to open `market`, trading the
    /// coin token (`coin_mint`, held in `coin_vault`) against the quote token
    /// (`pc_mint`, held in `pc_vault`), over the given order books, queues
    /// and rent sysvar.
    InitializeMarket {
        dex_program: Key,
        market: Key,
        coin_mint: Key,
        coin_vault: Key,
        pc_mint: Key,
        pc_vault: Key,
        bids: Key,
        asks: Key,
        request_queue: Key,
        event_queue: Key,
        rent: Key,
        coin_lot_size: u64,
        pc_lot_size: u64,
        vault_signer_nonce: u64,
        pc_dust_threshold: u64,
    },
}

/// The seeds with which the tranche config account signs: the deposit mint,
/// the senior mint, the junior mint, then the one-byte bump.
pub fn tranche_config_seeds(
    deposit_mint: &Key,
    senior_tranche_mint: &Key,
    junior_tranche_mint: &Key,
    bump: u8,
) -> (seeds: Vec<Vec<u8>>)
    ensures
        seeds@.len() == 4,
        seeds@[0]@ == deposit_mint@,
        seeds@[1]@ == senior_tranche_mint@,
        seeds@[2]@ == junior_tranche_mint@,
        seeds@[3]@ == seq![bump],
{
    let mut seeds: Vec<Vec<u8>> = Vec::new();
    seeds.push(slice_to_vec(deposit_mint.as_slice()));
    seeds.push(slice_to_vec(senior_tranche_mint.as_slice()));
    seeds.push(slice_to_vec(junior_tranche_mint.as_slice()));
    let mut last: Vec<u8> = Vec::new();
    last.push(bump);
    seeds.push(last);
    seeds
}

/// What the program does next while it works through a list of requests.
pub enum RequestStep<E> {
    /// Perform this request and report how it went.
    Perform(TrancheAction),
    /// Stop, and end the instruction with this result.
    Finish(Result<(), E>),
}

/// The next step after `performed` requests of `requests` were made, the last
/// of which ended with `last` (`Ok` before the first request).
pub open spec fn spec_next_step<E>(requests: Seq<TrancheAction>, performed: nat, last: Result<(), E>) -> RequestStep<E> {
    match last {
        Err(e) => RequestStep::Finish(Err(e)),
        Ok(()) => if performed < requests.len() {
            RequestStep::Perform(requests[performed as int])
        } else {
            RequestStep::Finish(Ok(()))
        },
    }
}

/// Decides the next step: a failed request ends the instruction with its
/// error; otherwise the next request is made, and after the last one the
/// instruction succeeds.
pub fn next_step<E>(requests: &Vec<TrancheAction>, performed: usize, last: Result<(), E>) -> (step: RequestStep<E>)
    ensures
        step == spec_next_step(requests@, performed as nat, last),
        last matches Err(e) ==> step == RequestStep::<E>::Finish(Err(e)),
        last is Ok && performed < requests.len() ==> step == RequestStep::<E>::Perform(requests@[performed as int]),
        last is Ok && performed >= requests.len() ==> step == RequestStep::<E>::Finish(Ok(())),
{
    match last {
        Err(e) => RequestStep::Finish(Err(e)),
        Ok(()) => if performed < requests.len() {
            RequestStep::Perform(requests[performed])
        } else {
            RequestStep::Finish(Ok(()))
        },
    }
}

/// A failed request ends the instruction with its own error; after a
/// success the next request is made exactly as it was planned; after the
/// last request the instruction succeeds.
pub proof fn lemma_next_step_follows_the_plan<E>(requests: Seq<TrancheAction>, performed: nat, last: Result<(), E>)
    ensures
        last matches Err(e) ==> spec_next_step(requests, performed, last) == RequestStep::<E>::Finish(Err(e)),
        last is Ok && performed < requests.len() ==> spec_next_step(requests, performed, last)
            == RequestStep::<E>::Perform(requests[performed as int]),
        last is Ok && performed >= requests.len() ==> spec_next_step(requests, performed, last)
            == RequestStep::<E>::Finish(Ok(())),
{
}

/// The serum accounts get 48, 640 and 65 536 bytes (market, request queue,
/// event queue) and 65 536 bytes for each order book, and are tagged with
/// their names.
pub proof fn lemma_serum_account_spaces_and_tags()
    ensures
        SerumAccount::Market.spec_space() == 48,
        SerumAccount::RequestQueue.spec_space() == 640,
        SerumAccount::EventQueue.spec_space() == 65536,
        SerumAccount::Asks.spec_space() == 65536,
        SerumAccount::Bids.spec_space() == 65536,
        SerumAccount::Market.spec_tag() == "market".spec_bytes(),
        SerumAccount::RequestQueue.spec_tag() == "request_queue".spec_bytes(),
        SerumAccount::EventQueue.spec_tag() == "event_queue".spec_bytes(),
        SerumAccount::Asks.spec_tag() == "asks".spec_bytes(),
        SerumAccount::Bids.spec_tag() == "bids".spec_bytes(),
{
}

/// Working through `requests` from `performed` on, where the `i`-th request
/// ends with `outcomes[i]`: how many requests are made, and the result.
pub open spec fn spec_run<E>(
    requests: Seq<TrancheAction>,
    outcomes: Seq<Result<(), E>>,
    performed: nat,
    last: Result<(), E>,
) -> (nat, Result<(), E>)
    decreases requests.len() - performed,
{
    match spec_next_step(requests, performed, last) {
        RequestStep::Perform(_) => spec_run(requests, outcomes, performed + 1, outcomes[performed as int]),
        RequestStep::Finish(result) => (performed, result),
    }
}

/// Where every request succeeds, all are made and the instruction succeeds.
pub proof fn lemma_run_all_succeed<E>(requests: Seq<TrancheAction>, outcomes: Seq<Result<(), E>>)
    requires
        outcomes.len() >= requests.len(),
        forall|i: int| 0 <= i < requests.len() ==> #[trigger] outcomes[i] is Ok,
    ensures
        spec_run(requests, outcomes, 0, Ok(())) == (requests.len(), Ok::<(), E>(())),
{
    lemma_run_all_succeed_from(requests, outcomes, 0, Ok(()));
}

proof fn lemma_run_all_succeed_from<E>(
    requests: Seq<TrancheAction>,
    outcomes: Seq<Result<(), E>>,
    performed: nat,
    last: Result<(), E>,
)
    requires
        last is Ok,
        performed <= requests.len(),
        outcomes.len() >= requests.len(),
        forall|i: int| 0 <= i < requests.len() ==> #[trigger] outcomes[i] is Ok,
    ensures
        spec_run(requests, outcomes, performed, last) == (requests.len(), Ok::<(), E>(())),
    decreases requests.len() - performed,
{
    if performed < requests.len() {
        assert(outcomes[performed as int] is Ok);
        lemma_run_all_succeed_from(requests, outcomes, performed + 1, outcomes[performed as int]);
    }
}

/// Where request `k` is the first to fail, requests `0..=k` are made, none
/// after it, and the instruction ends with that request's error.
pub proof fn lemma_run_stops_at_first_failure<E>(
    requests: Seq<TrancheAction>,
    outcomes: Seq<Result<(), E>>,
    k: nat,
)
    requires
        k < requests.len(),
        k < outcomes.len(),
        outcomes[k as int] is Err,
        forall|i: int| 0 <= i < k ==> #[trigger] outcomes[i] is Ok,
    ensures
        spec_run(requests, outcomes, 0, Ok(())) == (k + 1, outcomes[k as int]),
{
    lemma_run_stops_from(requests, outcomes, k, 0, Ok(()));
}

proof fn lemma_run_stops_from<E>(
    requests: Seq<TrancheAction>,
    outcomes: Seq<Result<(), E>>,
    k: nat,
    performed: nat,
    last: Result<(), E>,
)
    requires
        last is Ok,
        performed <= k,
        k < requests.len(),
        k < outcomes.len(),
        outcomes[k as int] is Err,
        forall|i: int| 0 <= i < k ==> #[trigger] outcomes[i] is Ok,
    ensures
        spec_run(requests, outcomes, performed, last) == (k + 1, outcomes[k as int]),
    decreases k - performed,
{
    if performed < k {
        assert(outcomes[performed as int] is Ok);
        lemma_run_stops_from(requests, outcomes, k, performed + 1, outcomes[performed as int]);
    } else {
        let o = outcomes[k as int];
        assert(spec_run(requests, outcomes, k + 1, o) == (k + 1, o));
    }
}

} // verus!
