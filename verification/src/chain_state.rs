//! The abstract chain state the transaction generator runs against: the
//! account table keyed by address, and the type registry the templates
//! draw their type actuals from.

use vstd::prelude::*;

use crate::abstract_state::AbstractAccount;
use crate::abstract_state::AbstractMetadata;
use crate::abstract_state::AbstractType;
use crate::abstract_state::AbstractResource;
use crate::abstract_state::Account;
use crate::abstract_state::Effect;
use crate::abstract_state::resource;
use crate::account_config;
use crate::registered_types::TypeRegistry;
use crate::types::AccountAddress;
use crate::types::Identifier;
use crate::types::StructTag;
use crate::types::TypeTag;
use crate::types::TypeTagV;

verus! {

/// Why an effect could not be applied to the chain state.
#[derive(Debug, Clone, Copy, PartialEq, Eq, Structural)]
pub enum ChainStateError {
    /// The account the effect touches is not in the state.
    MissingAccount,
    /// A resource of that type is already published under the account.
    ResourceAlreadyPublished,
}

/// The abstract chain state: accounts by address, and the registered
/// types.
#[derive(Debug, PartialEq, Eq)]
pub struct AbstractChainState {
    pub accounts: Vec<(AccountAddress, AbstractAccount)>,
    pub type_registry: TypeRegistry,
}

/// The index of the first account entry for `addr`.
pub open spec fn spec_find_account(
    accounts: Seq<(AccountAddress, AbstractAccount)>,
    addr: Seq<u8>,
    from: int,
) -> Option<int>
    decreases accounts.len() - from,
{
    if from < 0 || from >= accounts.len() {
        None
    } else if accounts[from].0@ == addr {
        Some(from)
    } else {
        spec_find_account(accounts, addr, from + 1)
    }
}

/// No two entries of the account table share an address: the invariant
/// the original map keying gives for free.
pub open spec fn spec_accounts_unique(accounts: Seq<(AccountAddress, AbstractAccount)>) -> bool {
    forall|i: int, j: int|
        0 <= i < j < accounts.len() ==> (#[trigger] accounts[i].0@) != (#[trigger] accounts[j].0@)
}

/// A missed lookup means no entry bears the address.
pub proof fn lemma_find_account_none(
    accounts: Seq<(AccountAddress, AbstractAccount)>,
    addr: Seq<u8>,
    from: int,
)
    requires
        0 <= from,
    ensures
        spec_find_account(accounts, addr, from) is None ==> (forall|j: int|
            from <= j < accounts.len() ==> (#[trigger] accounts[j].0@) != addr),
    decreases accounts.len() - from,
{
    if 0 <= from < accounts.len() && accounts[from].0@ != addr {
        lemma_find_account_none(accounts, addr, from + 1);
    }
}

/// Updating an entry with one bearing the same address keeps addresses
/// unique.
pub proof fn lemma_unique_update_same_key(
    accounts: Seq<(AccountAddress, AbstractAccount)>,
    i: int,
    entry: (AccountAddress, AbstractAccount),
)
    requires
        spec_accounts_unique(accounts),
        0 <= i < accounts.len(),
        entry.0@ == accounts[i].0@,
    ensures
        spec_accounts_unique(accounts.update(i, entry)),
{
    let updated = accounts.update(i, entry);
    assert forall|a: int, b: int|
        0 <= a < b < updated.len() implies (#[trigger] updated[a].0@) != (
    #[trigger] updated[b].0@) by {
        assert(accounts[a].0@ != accounts[b].0@);
    }
}

/// Appending an entry whose address no entry bears keeps addresses unique.
pub proof fn lemma_unique_push_fresh(
    accounts: Seq<(AccountAddress, AbstractAccount)>,
    entry: (AccountAddress, AbstractAccount),
)
    requires
        spec_accounts_unique(accounts),
        forall|j: int| 0 <= j < accounts.len() ==> (#[trigger] accounts[j].0@) != entry.0@,
    ensures
        spec_accounts_unique(accounts.push(entry)),
{
    let updated = accounts.push(entry);
    assert forall|a: int, b: int|
        0 <= a < b < updated.len() implies (#[trigger] updated[a].0@) != (
    #[trigger] updated[b].0@) by {
        if b < accounts.len() {
            assert(accounts[a].0@ != accounts[b].0@);
        } else {
            assert(updated[b] == entry);
            assert(accounts[a].0@ != entry.0@);
        }
    }
}

/// A found account entry is in range and keyed by the queried address.
pub proof fn lemma_find_account_hit(
    accounts: Seq<(AccountAddress, AbstractAccount)>,
    addr: Seq<u8>,
    from: int,
)
    ensures
        spec_find_account(accounts, addr, from) matches Some(i) ==> from <= i < accounts.len()
            && accounts[i].0@ == addr,
    decreases accounts.len() - from,
{
    if 0 <= from < accounts.len() && accounts[from].0@ != addr {
        lemma_find_account_hit(accounts, addr, from + 1);
    }
}

/// `c` is the module name of a currency in `bucket` whose balance resource
/// the account holds.
pub open spec fn spec_currency_candidate(
    bucket: Seq<AbstractType>,
    account: AbstractAccount,
    c: Seq<char>,
) -> bool {
    exists|ci: int|
        {
            &&& 0 <= ci < bucket.len()
            &&& spec_balance_type((#[trigger] bucket[ci]).type_@) is Some
            &&& account.spec_has_resource(spec_balance_type(bucket[ci].type_@)->0)
            &&& bucket[ci].type_@ is Struct
            &&& c == bucket[ci].type_@->Struct_0.module
        }
}

/// Some currency in `bucket` has a balance resource the account holds:
/// what decides whether a gas currency can be offered at all.
pub open spec fn spec_has_currency_candidate(
    bucket: Seq<AbstractType>,
    account: AbstractAccount,
) -> bool {
    exists|ci: int|
        {
            &&& 0 <= ci < bucket.len()
            &&& spec_balance_type((#[trigger] bucket[ci]).type_@) is Some
            &&& account.spec_has_resource(spec_balance_type(bucket[ci].type_@)->0)
        }
}

/// `c` names a registered currency the account can pay gas in.
pub open spec fn spec_offers_gas_currency(
    buckets: Seq<(AbstractMetadata, Vec<AbstractType>)>,
    account: AbstractAccount,
    c: Seq<char>,
) -> bool {
    exists|bi: int|
        {
            &&& 0 <= bi < buckets.len()
            &&& (#[trigger] buckets[bi]).0 == AbstractMetadata::IsCurrency
            &&& spec_currency_candidate(buckets[bi].1@, account, c)
        }
}

impl AbstractChainState {
    /// The state at the start of a run: the association account at
    /// sequence number one, and the fee, configuration and treasury
    /// accounts, all without resources yet. Resources of the genesis state
    /// are registered by the caller as it reads them off its genesis
    /// write-set.
    pub fn new(type_registry: TypeRegistry) -> (r: AbstractChainState)
        ensures
            r.accounts@.len() == 4,
            r.accounts@[0].0@ == Seq::new(crate::types::ADDRESS_LENGTH as nat, |i: int| 0xa5u8),
            r.accounts@[0].1.sequence_number == 1,
            r.accounts@[1].0@ == Seq::new(crate::types::ADDRESS_LENGTH as nat, |i: int| 0xfeu8),
            r.accounts@[2].0@ == Seq::new(crate::types::ADDRESS_LENGTH as nat, |i: int| 0xf1u8),
            r.accounts@[3].0@ == Seq::new(crate::types::ADDRESS_LENGTH as nat, |i: int| 0xb1u8),
            forall|k: int| 0 <= k < 4 ==> (#[trigger] r.accounts@[k].1).resources@.len() == 0,
            forall|k: int| 1 <= k < 4 ==> (#[trigger] r.accounts@[k].1).sequence_number == 0,
            spec_accounts_unique(r.accounts@),
            r.type_registry == type_registry,
    {
        let mut accounts: Vec<(AccountAddress, AbstractAccount)> = Vec::new();
        let assoc_addr = account_config::association_address();
        let mut assoc = AbstractAccount::new_from_account(
            Account::new_genesis_account(account_config::association_address()),
        );
        assoc.sequence_number = 1;
        accounts.push((assoc_addr, assoc));
        accounts.push(
            (
                account_config::transaction_fee_address(),
                AbstractAccount::new_from_account(
                    Account::new_genesis_account(account_config::transaction_fee_address()),
                ),
            ),
        );
        accounts.push(
            (
                account_config::config_address(),
                AbstractAccount::new_from_account(
                    Account::new_genesis_account(account_config::config_address()),
                ),
            ),
        );
        accounts.push(
            (
                account_config::treasury_compliance_account_address(),
                AbstractAccount::new_from_account(
                    Account::new_genesis_account(
                        account_config::treasury_compliance_account_address(),
                    ),
                ),
            ),
        );
        let r = AbstractChainState { accounts, type_registry };
        proof {
            assert forall|i: int, j: int|
                0 <= i < j < r.accounts@.len() implies (#[trigger] r.accounts@[i].0@) != (
            #[trigger] r.accounts@[j].0@) by {
                assert(r.accounts@[i].0@[0] != r.accounts@[j].0@[0]);
            }
        }
        r
    }

    /// The index of the account at `addr`, if it is in the state.
    pub fn find_account(&self, addr: &AccountAddress) -> (r: Option<usize>)
        ensures
            match spec_find_account(self.accounts@, addr@, 0) {
                Some(i) => r is Some && r->0 == i && 0 <= i < self.accounts@.len(),
                None => r is None,
            },
    {
        let mut i: usize = 0;
        while i < self.accounts.len()
            invariant
                i <= self.accounts@.len(),
                spec_find_account(self.accounts@, addr@, 0) == spec_find_account(
                    self.accounts@,
                    addr@,
                    i as int,
                ),
            decreases self.accounts@.len() - i,
        {
            if self.accounts[i].0.equals(addr) {
                return Some(i);
            }
            i += 1;
        }
        None
    }

    /// A fresh account, not yet part of the state: effects add it later.
    pub fn add_account(&mut self, rng: &mut rand::rngs::StdRng) -> (r: Account)
        ensures
            *final(self) == *old(self),
            r.addr.well_formed(),
    {
        Account::new(rng)
    }

    /// The module name of a gas currency the account can pay in: a random
    /// currency type for which the account holds a matching balance
    /// resource, or nothing when it holds none.
    pub fn get_gas_currency(&self, account_addr: &AccountAddress, rng: &mut rand::rngs::StdRng)
        -> (r: Option<Identifier>)
        ensures
            r is Some ==> spec_find_account(self.accounts@, account_addr@, 0) is Some,
            spec_find_account(self.accounts@, account_addr@, 0) matches Some(ai) ==> (r
                matches Some(c) ==> spec_offers_gas_currency(
                self.type_registry.meta_to_type@,
                self.accounts@[ai].1,
                c@,
            )),
            r is Some <==> ({
                &&& spec_find_account(self.accounts@, account_addr@, 0) is Some
                &&& crate::registered_types::spec_find_meta(
                    self.type_registry.meta_to_type@,
                    AbstractMetadata::IsCurrency,
                    0,
                ) is Some
                &&& spec_has_currency_candidate(
                    self.type_registry.meta_to_type@[crate::registered_types::spec_find_meta(
                        self.type_registry.meta_to_type@,
                        AbstractMetadata::IsCurrency,
                        0,
                    )->0].1@,
                    self.accounts@[spec_find_account(self.accounts@, account_addr@, 0)->0].1,
                )
            }),
    {
        let i = match self.find_account(account_addr) {
            Some(i) => i,
            None => {
                return None;
            },
        };
        let meta = AbstractMetadata::IsCurrency;
        let bucket_idx = match self.type_registry.find_meta(&meta) {
            Some(k) => k,
            None => {
                return None;
            },
        };
        proof {
            crate::registered_types::lemma_find_meta_hit(
                self.type_registry.meta_to_type@,
                meta,
                0,
            );
        }
        let currencies = &self.type_registry.meta_to_type[bucket_idx].1;
        let account_state = &self.accounts[i].1;
        let ghost ai = i as int;
        let mut candidates: Vec<Identifier> = Vec::new();
        let mut c: usize = 0;
        while c < currencies.len()
            invariant
                c <= currencies@.len(),
                bucket_idx < self.type_registry.meta_to_type@.len(),
                currencies == self.type_registry.meta_to_type@[bucket_idx as int].1,
                self.type_registry.meta_to_type@[bucket_idx as int].0
                    == AbstractMetadata::IsCurrency,
                0 <= ai < self.accounts@.len(),
                account_state == self.accounts@[ai].1,
                forall|k: int|
                    0 <= k < candidates@.len() ==> spec_currency_candidate(
                        currencies@,
                        self.accounts@[ai].1,
                        (#[trigger] candidates@[k])@,
                    ),
                bucket_idx as int == crate::registered_types::spec_find_meta(
                    self.type_registry.meta_to_type@,
                    AbstractMetadata::IsCurrency,
                    0,
                )->0,
                crate::registered_types::spec_find_meta(
                    self.type_registry.meta_to_type@,
                    AbstractMetadata::IsCurrency,
                    0,
                ) is Some,
                ai == spec_find_account(self.accounts@, account_addr@, 0)->0,
                spec_find_account(self.accounts@, account_addr@, 0) is Some,
                candidates@.len() == 0 ==> (forall|ci: int|
                    0 <= ci < c ==> !(spec_balance_type(
                        (#[trigger] currencies@[ci]).type_@,
                    ) is Some && self.accounts@[ai].1.spec_has_resource(
                        spec_balance_type(currencies@[ci].type_@)->0,
                    ))),
            decreases currencies@.len() - c,
        {
            let ty = &currencies[c];
            let balance = balance_resource_of(&ty.type_);
            match balance {
                Option::Some(res) => {
                    if account_state.has_resource(&res.type_) {
                        match &ty.type_ {
                            TypeTag::Struct(struct_tag) => {
                                candidates.push(struct_tag.module.clone());
                                proof {
                                    assert(spec_balance_type(currencies@[c as int].type_@)
                                        is Some);
                                    assert(candidates@.last()@ == currencies@[
                                        c as int].type_@->Struct_0.module);
                                    assert(spec_currency_candidate(
                                        currencies@,
                                        self.accounts@[ai].1,
                                        candidates@.last()@,
                                    ));
                                }
                            },
                            _ => {
                                proof {
                                    assert(!(spec_balance_type(currencies@[c as int].type_@)
                                        is Some));
                                }
                            },
                        }
                    }
                },
                Option::None => {},
            }
            c += 1;
        }
        if candidates.len() == 0 {
            proof {
                assert(!spec_has_currency_candidate(currencies@, self.accounts@[ai as int].1));
            }
            return None;
        }
        let pick = crate::fuzzer_rng::random_index(rng, candidates.len());
        Some(candidates[pick].clone())
    }

    /// Apply one effect of an instantiated transaction to the state.
    pub fn apply_effect(&mut self, effect: Effect) -> (r: Result<(), ChainStateError>)
        ensures
            ({
                let accounts = old(self).accounts@;
                match effect {
                    Effect::RotatesKey(address, keys) => {
                        match spec_find_account(accounts, address@, 0) {
                            Option::Some(i) => r is Ok && final(self).accounts@.len()
                                == accounts.len() && final(self).accounts@[i].1.account.privkey@
                                == keys.0@ && final(self).accounts@[i].1.account.pubkey@
                                == keys.1@,
                            Option::None => r == Result::<(), ChainStateError>::Err(
                                ChainStateError::MissingAccount,
                            ) && final(self).accounts@ == accounts,
                        }
                    },
                    Effect::RemovesResource(address, res) => {
                        match spec_find_account(accounts, address@, 0) {
                            Option::Some(i) => r is Ok && final(self).accounts@.len()
                                == accounts.len() && (forall|j: int|
                                0 <= j < accounts.len() && j != i ==> final(self).accounts@[j]
                                    == accounts[j]) && final(self).accounts@[i].0@
                                == accounts[i].0@ && final(self).accounts@[i].1.sequence_number
                                == accounts[i].1.sequence_number && ({
                                let oldrs = accounts[i].1.resources@;
                                let newrs = final(self).accounts@[i].1.resources@;
                                match crate::abstract_state::spec_find_resource(
                                    oldrs,
                                    res.type_@,
                                    0,
                                ) {
                                    Option::Some(k) => {
                                        &&& newrs.len() == oldrs.len() - 1
                                        &&& forall|j: int|
                                            0 <= j < k ==> (#[trigger] newrs[j]).type_@ == oldrs[
                                                j].type_@
                                        &&& forall|j: int|
                                            k <= j < newrs.len() ==> (#[trigger] newrs[j]).type_@
                                                == oldrs[j + 1].type_@
                                    },
                                    Option::None => newrs.len() == oldrs.len() && (forall|j: int|
                                        0 <= j < newrs.len() ==> (#[trigger] newrs[j]).type_@
                                            == oldrs[j].type_@),
                                }
                            }),
                            Option::None => r == Result::<(), ChainStateError>::Err(
                                ChainStateError::MissingAccount,
                            ) && final(self).accounts@ == accounts,
                        }
                    },
                    Effect::CreatesAccount(account) => r is Ok && (
                    match spec_find_account(accounts, account.addr@, 0) {
                        Option::Some(i) => final(self).accounts@.len() == accounts.len() && final(
                            self).accounts@[i].0@ == account.addr@ && final(self).accounts@[
                            i].1.resources@.len() == 0 && final(self).accounts@[
                            i].1.sequence_number == 0,
                        Option::None => final(self).accounts@.len() == accounts.len() + 1
                            && final(self).accounts@.last().0@ == account.addr@ && final(
                            self).accounts@.last().1.account == account && final(
                            self).accounts@.last().1.resources@.len() == 0 && final(
                            self).accounts@.last().1.sequence_number == 0 && (forall|k: int|
                            0 <= k < accounts.len() ==> #[trigger] final(self).accounts@[k]
                                == accounts[k]),
                    }),
                    Effect::PublishesResource(address, res) => {
                        match spec_find_account(accounts, address@, 0) {
                            Option::Some(i) => {
                                if accounts[i].1.spec_has_resource(res.type_@) {
                                    r == Result::<(), ChainStateError>::Err(
                                        ChainStateError::ResourceAlreadyPublished,
                                    ) && final(self).accounts@ == accounts
                                } else {
                                    r is Ok && final(self).accounts@.len() == accounts.len()
                                        && final(self).accounts@[i].1.spec_has_resource(
                                        res.type_@,
                                    )
                                }
                            },
                            Option::None => r == Result::<(), ChainStateError>::Err(
                                ChainStateError::MissingAccount,
                            ) && final(self).accounts@ == accounts,
                        }
                    },
                }
            }),
            spec_accounts_unique(old(self).accounts@) ==> spec_accounts_unique(
                final(self).accounts@,
            ),
            final(self).type_registry == old(self).type_registry,
    {
        match effect {
            Effect::RotatesKey(address, (new_privkey, new_pubkey)) => {
                let i = match self.find_account(&address) {
                    Some(i) => i,
                    None => {
                        return Err(ChainStateError::MissingAccount);
                    },
                };
                let entry_addr = self.accounts[i].0.clone();
                let entry = &self.accounts[i].1;
                let mut account = entry.account.clone_account();
                account.rotate_key(new_privkey, new_pubkey);
                let mut resources: Vec<AbstractResource> = Vec::new();
                let mut j: usize = 0;
                while j < entry.resources.len()
                    decreases entry.resources@.len() - j,
                {
                    resources.push(entry.resources[j].clone_resource());
                    j += 1;
                }
                let updated = AbstractAccount {
                    account,
                    resources,
                    sequence_number: entry.sequence_number,
                };
                proof {
                    if spec_accounts_unique(old(self).accounts@) {
                        lemma_unique_update_same_key(
                            old(self).accounts@,
                            i as int,
                            (entry_addr, updated),
                        );
                    }
                }
                self.accounts.set(i, (entry_addr, updated));
                Ok(())
            },
            Effect::RemovesResource(address, res) => {
                let i = match self.find_account(&address) {
                    Some(i) => i,
                    None => {
                        return Err(ChainStateError::MissingAccount);
                    },
                };
                let entry_addr = self.accounts[i].0.clone();
                let entry = &self.accounts[i].1;
                let mut updated = AbstractAccount {
                    account: entry.account.clone_account(),
                    resources: clone_resources(&entry.resources),
                    sequence_number: entry.sequence_number,
                };
                let ghost cloned = updated.resources@;
                let removed = updated.remove_resource(&res.type_);
                proof {
                    let oldrs = old(self).accounts@[i as int].1.resources@;
                    crate::abstract_state::lemma_find_resource_congruent(
                        cloned,
                        oldrs,
                        res.type_@,
                        0,
                    );
                    crate::abstract_state::lemma_find_resource_hit(cloned, res.type_@, 0);
                    if removed {
                        assert(crate::abstract_state::spec_find_resource(cloned, res.type_@, 0)
                            is Some);
                    } else {
                        assert(forall|j: int|
                            0 <= j < cloned.len() ==> (#[trigger] cloned[j]).type_@
                                != res.type_@);
                        assert(crate::abstract_state::spec_find_resource(oldrs, res.type_@, 0)
                            is None) by {
                            crate::abstract_state::lemma_find_resource_hit(oldrs, res.type_@, 0);
                            let fo = crate::abstract_state::spec_find_resource(
                                oldrs,
                                res.type_@,
                                0,
                            );
                            if fo is Some {
                                let k = fo->0;
                                assert(cloned[k].type_@ == oldrs[k].type_@);
                            }
                        }
                    }
                    if spec_accounts_unique(old(self).accounts@) {
                        lemma_unique_update_same_key(
                            old(self).accounts@,
                            i as int,
                            (entry_addr, updated),
                        );
                    }
                }
                self.accounts.set(i, (entry_addr, updated));
                Ok(())
            },
            Effect::CreatesAccount(account) => {
                let account_addr = account.addr.clone();
                let found = self.find_account(&account_addr);
                let abstract_account = AbstractAccount::new_from_account(account);
                match found {
                    Some(i) => {
                        proof {
                            lemma_find_account_hit(old(self).accounts@, account_addr@, 0);
                            if spec_accounts_unique(old(self).accounts@) {
                                lemma_unique_update_same_key(
                                    old(self).accounts@,
                                    i as int,
                                    (account_addr, abstract_account),
                                );
                            }
                        }
                        self.accounts.set(i, (account_addr, abstract_account));
                    },
                    None => {
                        proof {
                            lemma_find_account_none(self.accounts@, account_addr@, 0);
                            if spec_accounts_unique(old(self).accounts@) {
                                lemma_unique_push_fresh(
                                    old(self).accounts@,
                                    (account_addr, abstract_account),
                                );
                            }
                        }
                        self.accounts.push((account_addr, abstract_account));
                    },
                }
                Ok(())
            },
            Effect::PublishesResource(address, res) => {
                let i = match self.find_account(&address) {
                    Some(i) => i,
                    None => {
                        return Err(ChainStateError::MissingAccount);
                    },
                };
                if self.accounts[i].1.has_resource(&res.type_) {
                    return Err(ChainStateError::ResourceAlreadyPublished);
                }
                let entry_addr = self.accounts[i].0.clone();
                let entry = &self.accounts[i].1;
                let mut updated = AbstractAccount {
                    account: entry.account.clone_account(),
                    resources: clone_resources(&entry.resources),
                    sequence_number: entry.sequence_number,
                };
                proof {
                    let res_seq = updated.resources@;
                    let old_seq = self.accounts@[i as int].1.resources@;
                    assert forall|k: int|
                        0 <= k < res_seq.len() implies (#[trigger] res_seq[k]).type_@ != res.type_@
                        by {
                        assert(old_seq[k].type_@ != res.type_@) by {
                            if old_seq[k].type_@ == res.type_@ {
                                assert(self.accounts@[i as int].1.spec_has_resource(res.type_@));
                            }
                        }
                        assert(res_seq[k].type_@ == old_seq[k].type_@);
                    }
                }
                updated.add_resource(res);
                let ghost new_len = updated.resources@.len();
                proof {
                    assert(updated.resources@[new_len - 1].type_@ == updated.resources@.last().type_@);
                    assert(updated.spec_has_resource(updated.resources@.last().type_@));
                    if spec_accounts_unique(old(self).accounts@) {
                        lemma_unique_update_same_key(
                            old(self).accounts@,
                            i as int,
                            (entry_addr, updated),
                        );
                    }
                }
                self.accounts.set(i, (entry_addr, updated));
                Ok(())
            },
        }
    }
}

/// Copy a list of resources.
fn clone_resources(v: &Vec<AbstractResource>) -> (r: Vec<AbstractResource>)
    ensures
        r@.len() == v@.len(),
        forall|i: int| 0 <= i < v@.len() ==> (#[trigger] r@[i]).type_@ == v@[i].type_@,
{
    let mut out: Vec<AbstractResource> = Vec::new();
    let mut i: usize = 0;
    while i < v.len()
        invariant
            i <= v@.len(),
            out@.len() == i,
            forall|j: int| 0 <= j < i ==> (#[trigger] out@[j]).type_@ == v@[j].type_@,
        decreases v@.len() - i,
    {
        out.push(v[i].clone_resource());
        i += 1;
    }
    out
}

/// The type of the balance resource of a currency: the account module's
/// balance struct, instantiated at the currency. Only a struct currency
/// has one.
pub open spec fn spec_balance_type(currency: TypeTagV) -> Option<TypeTagV> {
    if currency is Struct {
        Some(
            TypeTagV::Struct(
                crate::types::StructTagV {
                    address: Seq::new(crate::types::ADDRESS_LENGTH as nat, |i: int| 0u8),
                    module: "LibraAccount"@,
                    name: "Balance"@,
                    type_params: seq![currency],
                },
            ),
        )
    } else {
        None
    }
}

/// The balance resource of a currency type: the account module's balance
/// struct, instantiated at the currency. Only a struct currency has one.
pub fn balance_resource_of(currency: &TypeTag) -> (r: Option<AbstractResource>)
    ensures
        match spec_balance_type(currency@) {
            Option::Some(t) => r matches Some(res) && res.type_@ == t,
            Option::None => r is None,
        },
{
    match currency {
        TypeTag::Struct(_) => {
            let base = StructTag {
                address: account_config::core_code_address(),
                module: Identifier::new("LibraAccount".to_owned()),
                name: Identifier::new("Balance".to_owned()),
                type_params: Vec::new(),
            };
            proof {
                crate::types::lemma_views_of_tags(base.type_params@);
                assert(crate::types::views_of_tags(base.type_params@) =~= Seq::<
                    crate::types::TypeTagV,
                >::empty());
            }
            let res = resource(TypeTag::Struct(base));
            let out = res.with_ty_param(currency.clone_tag());
            proof {
                assert(out.type_@->Struct_0.type_params =~= seq![currency@]);
                assert(out.type_@ =~= spec_balance_type(currency@)->0);
            }
            Some(out)
        },
        _ => None,
    }
}

} // verus!
