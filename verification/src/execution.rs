//! Block generation: draw instantiable templates against the abstract
//! chain state, sign each drawn transaction with its sender's local
//! sequence number, and apply its effects, producing a block ready for an
//! executor.

use vstd::prelude::*;

use crate::chain_state::AbstractChainState;
use crate::chain_state::spec_find_account;
use crate::transaction::InstantiatedTransaction;
use crate::transaction::StdlibScript;
use crate::transactions::TransactionKind;
use crate::transactions::TransactionRegistry;
use crate::transactions::instantiate_kind;
use crate::txn_executor::TransactionArgument;
use crate::types::AccountAddress;
use crate::types::Identifier;
use crate::types::TypeTag;

verus! {

/// The gas allowance a generated transaction reserves.
pub const GENERATED_TXN_GAS: u64 = 1_000_000;

/// A transaction signed for execution: the script to run with its type
/// actuals and arguments, under the sender's authority and local sequence
/// number. The signature bytes themselves belong to the cryptography
/// outside the core.
#[derive(Debug, PartialEq, Eq)]
pub struct SignedTransaction {
    pub sender: AccountAddress,
    pub transaction: StdlibScript,
    pub ty_args: Vec<TypeTag>,
    pub args: Vec<TransactionArgument>,
    pub sequence_number: u64,
    pub max_gas_amount: u64,
    pub gas_unit_price: u64,
    pub gas_currency: Identifier,
}

/// The block generator: the templates it may draw, and how many slots a
/// block has.
pub struct Generator {
    pub allowed_transactions: TransactionRegistry,
    pub block_size: u64,
}

impl Generator {
    /// A generator over the given templates and block size.
    pub fn new(allowed_transactions: TransactionRegistry, block_size: u64) -> (r: Generator)
        ensures
            r.block_size == block_size,
            r.allowed_transactions == allowed_transactions,
    {
        Generator { allowed_transactions, block_size }
    }

    /// Sign an instantiated transaction: pick a gas currency the sender
    /// holds a balance in, use the sender's local sequence number, and
    /// advance it. Nothing when the sender is unknown, holds no currency,
    /// or its sequence number is exhausted.
    pub fn sign_txn(
        chain_state: &mut AbstractChainState,
        txn: InstantiatedTransaction,
        rng: &mut rand::rngs::StdRng,
    ) -> (r: Option<SignedTransaction>)
        ensures
            r matches Some(signed) ==> signed.sender@ == txn.sender@ && signed.max_gas_amount
                == GENERATED_TXN_GAS && signed.gas_unit_price == 0,
            r is None ==> *final(chain_state) == *old(chain_state),
            ({
                let accounts = old(chain_state).accounts@;
                spec_find_account(accounts, txn.sender@, 0) matches Some(i) ==> (r matches Some(
                    signed,
                ) ==> (signed.sequence_number == accounts[i].1.sequence_number && final(
                    chain_state).accounts@.len() == accounts.len() && final(
                    chain_state).accounts@[i].0@ == accounts[i].0@ && final(
                    chain_state).accounts@[i].1.sequence_number == accounts[i].1.sequence_number
                    + 1 && (forall|k: int|
                    0 <= k < accounts.len() && k != i ==> #[trigger] final(chain_state).accounts@[
                        k] == accounts[k])))
            }),
            spec_find_account(old(chain_state).accounts@, txn.sender@, 0) is None ==> r is None,
            r is Some <==> ({
                let accounts = old(chain_state).accounts@;
                let buckets = old(chain_state).type_registry.meta_to_type@;
                &&& spec_find_account(accounts, txn.sender@, 0) is Some
                &&& crate::registered_types::spec_find_meta(
                    buckets,
                    crate::abstract_state::AbstractMetadata::IsCurrency,
                    0,
                ) is Some
                &&& crate::chain_state::spec_has_currency_candidate(
                    buckets[crate::registered_types::spec_find_meta(
                        buckets,
                        crate::abstract_state::AbstractMetadata::IsCurrency,
                        0,
                    )->0].1@,
                    accounts[spec_find_account(accounts, txn.sender@, 0)->0].1,
                )
                &&& accounts[spec_find_account(accounts, txn.sender@, 0)->0].1.sequence_number
                    < u64::MAX
            }),
    {
        let i = match chain_state.find_account(&txn.sender) {
            Some(i) => i,
            None => {
                return None;
            },
        };
        let gas_currency = match chain_state.get_gas_currency(&txn.sender, rng) {
            Some(c) => c,
            None => {
                return None;
            },
        };
        let sequence_number = chain_state.accounts[i].1.sequence_number;
        if sequence_number == u64::MAX {
            return None;
        }
        let entry_addr = chain_state.accounts[i].0.clone();
        let entry = &chain_state.accounts[i].1;
        let mut resources: Vec<crate::abstract_state::AbstractResource> = Vec::new();
        let mut j: usize = 0;
        while j < entry.resources.len()
            decreases entry.resources@.len() - j,
        {
            resources.push(entry.resources[j].clone_resource());
            j += 1;
        }
        let updated = crate::abstract_state::AbstractAccount {
            account: entry.account.clone_account(),
            resources,
            sequence_number: sequence_number + 1,
        };
        chain_state.accounts.set(i, (entry_addr, updated));
        Some(
            SignedTransaction {
                sender: txn.sender,
                transaction: txn.transaction,
                ty_args: txn.ty_args,
                args: txn.args,
                sequence_number,
                max_gas_amount: GENERATED_TXN_GAS,
                gas_unit_price: 0,
                gas_currency,
            },
        )
    }

    /// `name` is one of the registered template names.
    pub open spec fn spec_registered_name(
        name: Seq<char>,
        txns: Seq<(String, crate::transactions::TransactionKind)>,
    ) -> bool {
        exists|t: int| 0 <= t < txns.len() && name == (#[trigger] txns[t]).0@
    }

    /// Fill a block: for each slot, gather the templates that can
    /// currently instantiate, draw one uniformly, sign it and apply its
    /// effects to the chain state. Slots with no instantiable template
    /// stay empty, so the block holds at most `block_size` transactions.
    pub fn generate_block_and_apply(
        &self,
        chain_state: &mut AbstractChainState,
        rng: &mut rand::rngs::StdRng,
    ) -> (r: Vec<(String, SignedTransaction)>)
        ensures
            r@.len() <= self.block_size,
            forall|k: int|
                0 <= k < r@.len() ==> ((#[trigger] r@[k]).1.max_gas_amount == GENERATED_TXN_GAS
                    && r@[k].1.gas_unit_price == 0 && Self::spec_registered_name(
                    r@[k].0@,
                    self.allowed_transactions.transactions@,
                )),
    {
        let mut block: Vec<(String, SignedTransaction)> = Vec::new();
        let mut slot: u64 = 0;
        while slot < self.block_size
            invariant
                slot <= self.block_size,
                block@.len() <= slot,
                forall|k: int|
                    0 <= k < block@.len() ==> ((#[trigger] block@[k]).1.max_gas_amount
                        == GENERATED_TXN_GAS && block@[k].1.gas_unit_price == 0
                        && Self::spec_registered_name(
                        block@[k].0@,
                        self.allowed_transactions.transactions@,
                    )),
            decreases self.block_size - slot,
        {
            let mut allowed: Vec<(String, InstantiatedTransaction)> = Vec::new();
            let mut t: usize = 0;
            while t < self.allowed_transactions.transactions.len()
                invariant
                    forall|k: int|
                        0 <= k < allowed@.len() ==> Self::spec_registered_name(
                            (#[trigger] allowed@[k]).0@,
                            self.allowed_transactions.transactions@,
                        ),
                decreases self.allowed_transactions.transactions@.len() - t,
            {
                let entry = &self.allowed_transactions.transactions[t];
                let name = entry.0.clone();
                let kind = entry.1;
                match instantiate_kind(&kind, chain_state, rng) {
                    Option::Some(txn) => {
                        allowed.push((name, txn));
                    },
                    Option::None => {},
                }
                t += 1;
            }
            if allowed.len() > 0 {
                let pick = crate::fuzzer_rng::random_index(rng, allowed.len());
                let mut chosen: Option<(String, InstantiatedTransaction)> = None;
                while allowed.len() > 0
                    invariant
                        forall|k: int|
                            0 <= k < allowed@.len() ==> Self::spec_registered_name(
                                (#[trigger] allowed@[k]).0@,
                                self.allowed_transactions.transactions@,
                            ),
                        chosen matches Some(ch) ==> Self::spec_registered_name(
                            ch.0@,
                            self.allowed_transactions.transactions@,
                        ),
                    decreases allowed@.len(),
                {
                    match allowed.pop() {
                        Some(entry) => {
                            if allowed.len() == pick {
                                chosen = Some(entry);
                            }
                        },
                        None => {
                            break ;
                        },
                    }
                }
                match chosen {
                    Option::Some((name, txn)) => {
                        let replay = instantiate_for_effects(&txn);
                        let signed = Self::sign_txn(chain_state, txn, rng);
                        match signed {
                            Option::Some(signed_txn) => {
                                let applied = replay.apply_transaction(chain_state);
                                match applied {
                                    Result::Ok(()) => {
                                        block.push((name, signed_txn));
                                    },
                                    Result::Err(_) => {},
                                }
                            },
                            Option::None => {},
                        }
                    },
                    Option::None => {},
                }
            }
            slot += 1;
        }
        block
    }
}

/// A copy of an instantiated transaction carrying only what applying its
/// effects needs.
fn instantiate_for_effects(txn: &InstantiatedTransaction) -> (r: InstantiatedTransaction) {
    let mut effects: Vec<crate::abstract_state::Effect> = Vec::new();
    let mut i: usize = 0;
    while i < txn.effects.len()
        decreases txn.effects@.len() - i,
    {
        let e = match &txn.effects[i] {
            crate::abstract_state::Effect::PublishesResource(a, res) => {
                crate::abstract_state::Effect::PublishesResource(a.clone(), res.clone_resource())
            },
            crate::abstract_state::Effect::RemovesResource(a, res) => {
                crate::abstract_state::Effect::RemovesResource(a.clone(), res.clone_resource())
            },
            crate::abstract_state::Effect::RotatesKey(a, keys) => {
                crate::abstract_state::Effect::RotatesKey(
                    a.clone(),
                    (crate::types::clone_bytes(&keys.0), crate::types::clone_bytes(&keys.1)),
                )
            },
            crate::abstract_state::Effect::CreatesAccount(account) => {
                crate::abstract_state::Effect::CreatesAccount(account.clone_account())
            },
        };
        effects.push(e);
        i += 1;
    }
    InstantiatedTransaction {
        sender: txn.sender.clone(),
        ty_args: crate::types::clone_tag_vec(&txn.ty_args),
        args: Vec::new(),
        transaction: txn.transaction,
        effects,
    }
}

} // verus!
