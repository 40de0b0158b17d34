//! Typed transaction templates: argument specifications with their
//! constraints, the inhabitation of arguments against the chain state, and
//! instantiated transactions ready to sign.

use vstd::prelude::*;

use crate::abstract_state::AbstractAccount;
use crate::abstract_state::AbstractMetadata;
use crate::abstract_state::AbstractType;
use crate::abstract_state::Account;
use crate::abstract_state::Constraint;
use crate::abstract_state::Effect;
use crate::abstract_state::resource;
use crate::chain_state::AbstractChainState;
use crate::chain_state::ChainStateError;
use crate::chain_state::balance_resource_of;
use crate::chain_state::spec_find_account;
use crate::types::AccountAddress;
use crate::types::Identifier;
use crate::types::StructTag;
use crate::types::TypeTag;
use crate::txn_executor::TransactionArgument;

verus! {

/// The scripts of the standard library a template can invoke. Their
/// compiled bytes belong to the standard library outside the core.
#[derive(Debug, Clone, Copy, PartialEq, Eq, Structural)]
pub enum StdlibScript {
    AddCurrencyToAccount,
    ApplyForAssociationAddress,
    CreateAccount,
    CreateChildVaspAccount,
    CreateParentVaspAccount,
    RotateAuthenticationKey,
}

/// The type of one positional argument of a template.
#[derive(Debug, Clone, Copy, PartialEq, Eq, Structural)]
pub enum TransactionArgumentType {
    U8,
    U64,
    U128,
    Address,
    U8Vector,
    Bool,
}

/// The constraints a chosen type actual places on the sender.
#[derive(Debug, Clone, Copy, PartialEq, Eq, Structural)]
pub enum TyConstraint {
    /// The chosen type constrains nothing.
    Unconstrained,
    /// The sender must not yet hold a balance in the chosen currency.
    SenderLacksBalanceIn,
    /// The sender must already hold a balance in the chosen currency.
    SenderHoldsBalanceIn,
}

/// The constraints a chosen type actual generates.
pub fn ty_constraints(tc: &TyConstraint, ty: &AbstractType) -> (r: Vec<Constraint>)
    ensures
        tc is Unconstrained ==> r@.len() == 0,
        tc is SenderLacksBalanceIn ==> r@.len() <= 1 && (r@.len() == 1 ==> r@[0]
            is DoesNotHaveResource),
        tc is SenderHoldsBalanceIn ==> r@.len() <= 1 && (r@.len() == 1 ==> r@[0] is HasResource),
{
    let mut out: Vec<Constraint> = Vec::new();
    match tc {
        TyConstraint::Unconstrained => {},
        TyConstraint::SenderLacksBalanceIn => {
            match balance_resource_of(&ty.type_) {
                Option::Some(res) => {
                    out.push(Constraint::DoesNotHaveResource(res));
                },
                Option::None => {},
            }
        },
        TyConstraint::SenderHoldsBalanceIn => {
            match balance_resource_of(&ty.type_) {
                Option::Some(res) => {
                    out.push(Constraint::HasResource(res));
                },
                Option::None => {},
            }
        },
    }
    out
}

/// An argument a template's effects are instantiated with: a plain
/// transaction argument, a freshly created account, or a new key pair.
#[derive(Debug, PartialEq, Eq)]
pub enum EffectInstantiationArg {
    TxnArg(TransactionArgument),
    Account(Account),
    NewKey(Vec<u8>, Vec<u8>),
}

impl EffectInstantiationArg {
    /// Wrap plain transaction arguments for the effect generator.
    pub fn project(args: Vec<TransactionArgument>) -> (r: Vec<EffectInstantiationArg>)
        ensures
            r@.len() == args@.len(),
            forall|i: int| 0 <= i < r@.len() ==> (#[trigger] r@[i]) is TxnArg,
    {
        let mut out: Vec<EffectInstantiationArg> = Vec::new();
        let mut args = args;
        let ghost n = args@.len();
        let mut rev: Vec<EffectInstantiationArg> = Vec::new();
        while args.len() > 0
            invariant
                rev@.len() + args@.len() == n,
                forall|i: int| 0 <= i < rev@.len() ==> (#[trigger] rev@[i]) is TxnArg,
            decreases args@.len(),
        {
            match args.pop() {
                Some(a) => {
                    rev.push(EffectInstantiationArg::TxnArg(a));
                },
                None => {
                    proof {
                        assert(false);
                    }
                },
            }
        }
        while rev.len() > 0
            invariant
                out@.len() + rev@.len() == n,
                forall|i: int| 0 <= i < rev@.len() ==> (#[trigger] rev@[i]) is TxnArg,
                forall|i: int| 0 <= i < out@.len() ==> (#[trigger] out@[i]) is TxnArg,
            decreases rev@.len(),
        {
            match rev.pop() {
                Some(a) => {
                    out.push(a);
                },
                None => {
                    proof {
                        assert(false);
                    }
                },
            }
        }
        out
    }

    /// The plain argument inside. Only a plain argument has one.
    pub fn txn(self) -> (r: TransactionArgument)
        requires
            self is TxnArg,
        ensures
            self == EffectInstantiationArg::TxnArg(r),
    {
        match self {
            EffectInstantiationArg::TxnArg(arg) => arg,
            _ => TransactionArgument::Bool(false),
        }
    }

    /// The account inside. Only an account argument has one.
    pub fn account(self) -> (r: Account)
        requires
            self is Account,
        ensures
            self == EffectInstantiationArg::Account(r),
    {
        match self {
            EffectInstantiationArg::Account(account) => account,
            _ => Account { addr: AccountAddress::from_fill_byte(0), privkey: Vec::new(), pubkey: Vec::new() },
        }
    }

    /// The key pair inside. Only a new-key argument has one.
    pub fn keys(self) -> (r: (Vec<u8>, Vec<u8>))
        requires
            self is NewKey,
        ensures
            self == EffectInstantiationArg::NewKey(r.0, r.1),
    {
        match self {
            EffectInstantiationArg::NewKey(priv_key, pub_key) => (priv_key, pub_key),
            _ => (Vec::new(), Vec::new()),
        }
    }
}

/// One positional argument of a template: the constraints it must satisfy
/// and its type.
#[derive(Debug, PartialEq, Eq)]
pub struct AbstractTransactionArgument {
    pub preconditions: Vec<Constraint>,
    pub argument_type: TransactionArgumentType,
}

/// What inhabiting a numeric argument owes, given the intersection of its
/// range constraints: nothing can meet an empty range, and a drawn value
/// lies within a non-empty one whenever the upper bound fits the type.
pub open spec fn spec_numeric_inhabit_ok(
    arg_type: TransactionArgumentType,
    merged: Option<(u128, u128)>,
    r: Option<TransactionArgument>,
) -> bool {
    match merged {
        Option::Some(b) => {
            &&& (b.0 >= b.1 && (arg_type is U8 || arg_type is U64 || arg_type is U128
                || arg_type is U8Vector)) ==> r is None
            &&& (b.0 < b.1 && arg_type is U64 && b.1 <= u64::MAX) ==> (r matches Some(a) && a
                matches TransactionArgument::U64(x) && b.0 <= x < b.1)
            &&& (b.0 < b.1 && arg_type is U128) ==> (r matches Some(a) && a
                matches TransactionArgument::U128(x) && b.0 <= x < b.1)
            &&& (b.0 < b.1 && arg_type is U8 && b.1 <= u8::MAX) ==> (r matches Some(a) && a
                matches TransactionArgument::U8(x) && b.0 <= x < b.1)
        },
        Option::None => true,
    }
}

/// The account meets every resource constraint; range and absence
/// constraints do not speak about an existing account.
pub open spec fn spec_account_satisfies(
    account: AbstractAccount,
    preconds: Seq<Constraint>,
) -> bool {
    forall|i: int|
        0 <= i < preconds.len() ==> match #[trigger] preconds[i] {
            Constraint::HasResource(res) => account.spec_has_resource(res.type_@),
            Constraint::DoesNotHaveResource(res) => !account.spec_has_resource(res.type_@),
            _ => true,
        }
}

/// Fold the range constraints of `preconds[from..to]` onto `acc`.
pub open spec fn spec_fold_bounds(
    preconds: Seq<Constraint>,
    from: int,
    to: int,
    acc: Option<(u128, u128)>,
) -> Option<(u128, u128)>
    decreases to - from,
{
    if from < 0 || from >= to || to > preconds.len() {
        acc
    } else {
        let next = match preconds[from] {
            Constraint::RangeConstraint { lower, upper } => match acc {
                Option::None => Some((lower, upper)),
                Option::Some(b) => Some(
                    (
                        if lower >= b.0 {
                            lower
                        } else {
                            b.0
                        },
                        if upper <= b.1 {
                            upper
                        } else {
                            b.1
                        },
                    ),
                ),
            },
            _ => acc,
        };
        spec_fold_bounds(preconds, from + 1, to, next)
    }
}

impl AbstractTransactionArgument {
    /// Every precondition is a range constraint: what a numeric argument
    /// demands.
    pub open spec fn all_ranges(&self) -> bool {
        forall|i: int|
            0 <= i < self.preconditions@.len() ==> (#[trigger] self.preconditions@[i])
                is RangeConstraint
    }

    /// Every precondition constrains an account: what an address argument
    /// demands.
    pub open spec fn all_account_constraints(&self) -> bool {
        forall|i: int|
            0 <= i < self.preconditions@.len() ==> ((#[trigger] self.preconditions@[i])
                is HasResource || self.preconditions@[i] is DoesNotHaveResource
                || self.preconditions@[i] is AccountDNE)
    }

    /// The template's constraints extended by the ones the chosen type
    /// actuals generate.
    pub fn add_constraints(self, constraints: Vec<Constraint>) -> (r: AbstractTransactionArgument)
        ensures
            r.argument_type == self.argument_type,
            r.preconditions@ == self.preconditions@ + constraints@,
    {
        let mut preconditions = self.preconditions;
        let mut constraints = constraints;
        preconditions.append(&mut constraints);
        AbstractTransactionArgument { preconditions, argument_type: self.argument_type }
    }
}

impl TransactionArgumentType {
    /// A value of this type with no constraints: integers and booleans at
    /// random (the 64-bit carrier fixed at zero), byte strings of a fixed
    /// shape, addresses fresh.
    pub fn inhabit(&self, rng: &mut rand::rngs::StdRng) -> (r: TransactionArgument)
        ensures
            self is U8 ==> r is U8,
            self is U64 ==> r == TransactionArgument::U64(0),
            self is U128 ==> r is U128,
            self is U8Vector ==> r is U8Vector,
            self is Bool ==> r is Bool,
            self is Address ==> r is Address,
    {
        match self {
            TransactionArgumentType::U8 => TransactionArgument::U8(
                crate::fuzzer_rng::random_u8(rng),
            ),
            TransactionArgumentType::U64 => TransactionArgument::U64(0),
            TransactionArgumentType::U128 => TransactionArgument::U128(
                crate::fuzzer_rng::random_u128(rng),
            ),
            TransactionArgumentType::U8Vector => {
                let mut bytes: Vec<u8> = Vec::new();
                let mut i: usize = 0;
                while i < 32
                    invariant
                        i <= 32,
                    decreases 32 - i,
                {
                    bytes.push(crate::fuzzer_rng::random_u8(rng));
                    i += 1;
                }
                TransactionArgument::U8Vector(bytes)
            },
            TransactionArgumentType::Bool => TransactionArgument::Bool(
                crate::fuzzer_rng::random_bool(rng),
            ),
            TransactionArgumentType::Address => {
                let account = Account::new(rng);
                TransactionArgument::Address(account.addr)
            },
        }
    }
}

impl AbstractTransactionArgument {
    /// Produce a concrete argument satisfying the preconditions against
    /// the chain state, or nothing when the constraints cannot be met:
    /// numeric arguments draw within the intersected bounds, an address
    /// that must not exist is fresh, and any other address samples the
    /// accounts that satisfy every constraint.
    pub fn inhabit(&self, chain_state: &AbstractChainState, rng: &mut rand::rngs::StdRng) -> (r:
        Option<TransactionArgument>)
        ensures
            self.preconditions@.len() == 0 ==> r is Some,
            self.argument_type is Bool ==> r is Some && r->0 is Bool,
            self.argument_type is Address ==> (r matches Some(a) ==> a is Address),
            (self.preconditions@.len() > 0 && self.all_ranges()) ==> spec_numeric_inhabit_ok(
                self.argument_type,
                spec_fold_bounds(self.preconditions@, 0, self.preconditions@.len() as int, None),
                r,
            ),
            (self.argument_type is Address && self.all_account_constraints() && (exists|j: int|
                0 <= j < self.preconditions@.len() && (#[trigger] self.preconditions@[j])
                    is AccountDNE)) ==> (r matches Some(a) && a is Address),
            (self.preconditions@.len() > 0 && self.argument_type is Address
                && self.all_account_constraints() && !(exists|j: int|
                0 <= j < self.preconditions@.len() && (#[trigger] self.preconditions@[j])
                    is AccountDNE)) ==> ({
                let accounts = chain_state.accounts@;
                &&& (r is Some <==> exists|ai: int|
                    0 <= ai < accounts.len() && spec_account_satisfies(
                        (#[trigger] accounts[ai]).1,
                        self.preconditions@,
                    ))
                &&& (r matches Some(a) ==> (a matches TransactionArgument::Address(ad)
                    && exists|ai: int|
                    0 <= ai < accounts.len() && (#[trigger] accounts[ai]).0@ == ad@
                        && spec_account_satisfies(accounts[ai].1, self.preconditions@)))
            }),
    {
        if self.preconditions.len() == 0 {
            return Some(self.argument_type.inhabit(rng));
        }
        match self.argument_type {
            TransactionArgumentType::U8
            | TransactionArgumentType::U64
            | TransactionArgumentType::U128
            | TransactionArgumentType::U8Vector => {
                if !self.check_all_ranges() {
                    return None;
                }
            },
            TransactionArgumentType::Address => {
                if !self.check_all_account_constraints() {
                    return None;
                }
            },
            TransactionArgumentType::Bool => {},
        }
        match self.argument_type {
            TransactionArgumentType::Bool => Some(self.argument_type.inhabit(rng)),
            TransactionArgumentType::U8 => {
                let (lower_bound, upper_bound) = match self.merge_bounds() {
                    Some(b) => b,
                    None => (u8::MIN as u128, u8::MAX as u128),
                };
                if lower_bound >= upper_bound {
                    return None;
                }
                let val = crate::fuzzer_rng::random_range_u128(rng, lower_bound, upper_bound);
                Some(TransactionArgument::U8(val as u8))
            },
            TransactionArgumentType::U64 => {
                let (lower_bound, upper_bound) = match self.merge_bounds() {
                    Some(b) => b,
                    None => (u64::MIN as u128, u64::MAX as u128),
                };
                if lower_bound >= upper_bound {
                    return None;
                }
                let val = crate::fuzzer_rng::random_range_u128(rng, lower_bound, upper_bound);
                Some(TransactionArgument::U64(val as u64))
            },
            TransactionArgumentType::U128 => {
                let (lower_bound, upper_bound) = match self.merge_bounds() {
                    Some(b) => b,
                    None => (u128::MIN, u128::MAX),
                };
                if lower_bound >= upper_bound {
                    return None;
                }
                let val = crate::fuzzer_rng::random_range_u128(rng, lower_bound, upper_bound);
                Some(TransactionArgument::U128(val))
            },
            TransactionArgumentType::U8Vector => {
                let (lower_bound, upper_bound) = match self.merge_bounds() {
                    Some(b) => b,
                    None => (u128::MIN, u128::MAX),
                };
                if lower_bound >= upper_bound {
                    return None;
                }
                let end = crate::fuzzer_rng::random_range_u128(rng, lower_bound, upper_bound);
                let len: usize = if end >= 4096 {
                    4096
                } else {
                    (end as usize) + 1
                };
                let mut bytes: Vec<u8> = Vec::new();
                let mut i: usize = 0;
                while i < len
                    invariant
                        i <= len,
                    decreases len - i,
                {
                    bytes.push(crate::fuzzer_rng::random_u8(rng));
                    i += 1;
                }
                Some(TransactionArgument::U8Vector(bytes))
            },
            TransactionArgumentType::Address => {
                let mut has_dne = false;
                let mut i: usize = 0;
                while i < self.preconditions.len()
                    invariant
                        i <= self.preconditions@.len(),
                        has_dne == exists|j: int|
                            0 <= j < i && (#[trigger] self.preconditions@[j]) is AccountDNE,
                    decreases self.preconditions@.len() - i,
                {
                    match &self.preconditions[i] {
                        Constraint::AccountDNE => {
                            has_dne = true;
                        },
                        _ => {},
                    }
                    i += 1;
                }
                if has_dne {
                    let account = Account::new(rng);
                    return Some(TransactionArgument::Address(account.addr));
                }
                let mut available: Vec<AccountAddress> = Vec::new();
                let mut a: usize = 0;
                while a < chain_state.accounts.len()
                    invariant
                        a <= chain_state.accounts@.len(),
                        self.argument_type is Address,
                        self.all_account_constraints(),
                        forall|k: int|
                            0 <= k < available@.len() ==> exists|ai: int|
                                0 <= ai < chain_state.accounts@.len() && (
                                #[trigger] available@[k])@ == chain_state.accounts@[ai].0@
                                    && spec_account_satisfies(
                                    chain_state.accounts@[ai].1,
                                    self.preconditions@,
                                ),
                        forall|ai: int|
                            0 <= ai < a && spec_account_satisfies(
                                (#[trigger] chain_state.accounts@[ai]).1,
                                self.preconditions@,
                            ) ==> available@.len() > 0,
                    decreases chain_state.accounts@.len() - a,
                {
                    let account = &chain_state.accounts[a].1;
                    let mut ok = true;
                    let mut c: usize = 0;
                    while c < self.preconditions.len()
                        invariant
                            c <= self.preconditions@.len(),
                            self.all_account_constraints(),
                            account == chain_state.accounts@[a as int].1,
                            ok == (forall|cj: int|
                                0 <= cj < c ==> match #[trigger] self.preconditions@[cj] {
                                    Constraint::HasResource(res) => account.spec_has_resource(
                                        res.type_@,
                                    ),
                                    Constraint::DoesNotHaveResource(
                                        res,
                                    ) => !account.spec_has_resource(res.type_@),
                                    _ => true,
                                }),
                        decreases self.preconditions@.len() - c,
                    {
                        let holds = match &self.preconditions[c] {
                            Constraint::AccountDNE => true,
                            cons => cons.constrain_account(account),
                        };
                        if !holds {
                            ok = false;
                        }
                        c += 1;
                    }
                    if ok {
                        proof {
                            assert(spec_account_satisfies(
                                chain_state.accounts@[a as int].1,
                                self.preconditions@,
                            ));
                        }
                        available.push(chain_state.accounts[a].0.clone());
                    }
                    a += 1;
                }
                if available.len() == 0 {
                    None
                } else {
                    let pick = crate::fuzzer_rng::random_index(rng, available.len());
                    Some(TransactionArgument::Address(available[pick].clone()))
                }
            },
        }
    }

    /// Whether every precondition is a range constraint.
    fn check_all_ranges(&self) -> (r: bool)
        ensures
            r == self.all_ranges(),
    {
        let mut i: usize = 0;
        while i < self.preconditions.len()
            invariant
                i <= self.preconditions@.len(),
                forall|j: int| 0 <= j < i ==> (#[trigger] self.preconditions@[j]) is RangeConstraint,
            decreases self.preconditions@.len() - i,
        {
            match &self.preconditions[i] {
                Constraint::RangeConstraint { .. } => {},
                _ => {
                    return false;
                },
            }
            i += 1;
        }
        true
    }

    /// Whether every precondition constrains an account.
    fn check_all_account_constraints(&self) -> (r: bool)
        ensures
            r == self.all_account_constraints(),
    {
        let mut i: usize = 0;
        while i < self.preconditions.len()
            invariant
                i <= self.preconditions@.len(),
                forall|j: int|
                    0 <= j < i ==> ((#[trigger] self.preconditions@[j]) is HasResource
                        || self.preconditions@[j] is DoesNotHaveResource
                        || self.preconditions@[j] is AccountDNE),
            decreases self.preconditions@.len() - i,
        {
            match &self.preconditions[i] {
                Constraint::HasResource(_) => {},
                Constraint::DoesNotHaveResource(_) => {},
                Constraint::AccountDNE => {},
                _ => {
                    return false;
                },
            }
            i += 1;
        }
        true
    }

    /// Intersect the range constraints, front to back: the fold the
    /// inhabitation of a numeric argument draws within.
    fn merge_bounds(&self) -> (r: Option<(u128, u128)>)
        requires
            self.all_ranges(),
        ensures
            r == spec_fold_bounds(
                self.preconditions@,
                0,
                self.preconditions@.len() as int,
                None,
            ),
    {
        let mut bounds: Option<(u128, u128)> = None;
        let mut i: usize = 0;
        while i < self.preconditions.len()
            invariant
                i <= self.preconditions@.len(),
                self.all_ranges(),
                spec_fold_bounds(
                    self.preconditions@,
                    0,
                    self.preconditions@.len() as int,
                    None,
                ) == spec_fold_bounds(
                    self.preconditions@,
                    i as int,
                    self.preconditions@.len() as int,
                    bounds,
                ),
            decreases self.preconditions@.len() - i,
        {
            bounds = self.preconditions[i].constrain_bounds(bounds);
            i += 1;
        }
        bounds
    }
}

/// A transaction instantiated against the chain state: ready to sign and
/// to apply its effects.
#[derive(Debug, PartialEq, Eq)]
pub struct InstantiatedTransaction {
    pub sender: AccountAddress,
    pub ty_args: Vec<TypeTag>,
    pub args: Vec<TransactionArgument>,
    pub transaction: StdlibScript,
    pub effects: Vec<Effect>,
}

/// The account an effect acts on, for those that need one to exist.
pub open spec fn spec_effect_address(e: Effect) -> Option<Seq<u8>> {
    match e {
        Effect::PublishesResource(addr, _) => Some(addr@),
        Effect::RemovesResource(addr, _) => Some(addr@),
        Effect::RotatesKey(addr, _) => Some(addr@),
        Effect::CreatesAccount(_) => None,
    }
}

impl InstantiatedTransaction {
    /// Apply every effect of the transaction to the chain state, stopping
    /// at the first that cannot be applied.
    pub fn apply_transaction(self, chain_state: &mut AbstractChainState) -> (r: Result<
        (),
        ChainStateError,
    >)
        ensures
            final(chain_state).type_registry == old(chain_state).type_registry,
            crate::chain_state::spec_accounts_unique(old(chain_state).accounts@)
                ==> crate::chain_state::spec_accounts_unique(final(chain_state).accounts@),
            self.effects@.len() == 0 ==> (r is Ok && final(chain_state).accounts@ == old(
                chain_state,
            ).accounts@),
            self.effects@.len() > 0 ==> (match spec_effect_address(self.effects@[0]) {
                Option::Some(addr) => crate::chain_state::spec_find_account(
                    old(chain_state).accounts@,
                    addr,
                    0,
                ) is None ==> (r == Result::<(), ChainStateError>::Err(
                    ChainStateError::MissingAccount,
                ) && final(chain_state).accounts@ == old(chain_state).accounts@),
                Option::None => true,
            }),
    {
        let ghost effects0 = self.effects@;
        let mut effects = self.effects;
        let mut rev: Vec<Effect> = Vec::new();
        while effects.len() > 0
            invariant
                effects0 == self.effects@,
                rev@.len() + effects@.len() == effects0.len(),
                forall|i: int|
                    0 <= i < effects@.len() ==> #[trigger] effects@[i] == effects0[i],
                forall|i: int|
                    0 <= i < rev@.len() ==> #[trigger] rev@[i] == effects0[
                        effects0.len() - 1 - i],
            decreases effects@.len(),
        {
            match effects.pop() {
                Some(e) => {
                    rev.push(e);
                },
                None => {
                    return Ok(());
                },
            }
        }
        let mut first = true;
        while rev.len() > 0
            invariant
                effects0 == self.effects@,
                rev@.len() <= effects0.len(),
                effects0.len() == 0 ==> chain_state.accounts@ == old(chain_state).accounts@,
                chain_state.type_registry == old(chain_state).type_registry,
                crate::chain_state::spec_accounts_unique(old(chain_state).accounts@)
                    ==> crate::chain_state::spec_accounts_unique(chain_state.accounts@),
                first ==> (chain_state.accounts@ == old(chain_state).accounts@ && rev@.len()
                    == effects0.len() && (forall|i: int|
                    0 <= i < rev@.len() ==> #[trigger] rev@[i] == effects0[
                        effects0.len() - 1 - i])),
                !first ==> (effects0.len() > 0 ==> (match spec_effect_address(effects0[0]) {
                    Option::Some(addr) => crate::chain_state::spec_find_account(
                        old(chain_state).accounts@,
                        addr,
                        0,
                    ) is Some,
                    Option::None => true,
                })),
            decreases rev@.len(),
        {
            first = false;
            let effect = match rev.pop() {
                Some(e) => e,
                None => {
                    return Ok(());
                },
            };
            match chain_state.apply_effect(effect) {
                Ok(()) => {},
                Err(e) => {
                    return Err(e);
                },
            }
        }
        Ok(())
    }
}

/// Project an address out of a transaction argument. Only an address
/// argument holds one.
pub fn addr(txn_arg: TransactionArgument) -> (r: AccountAddress)
    requires
        txn_arg is Address,
    ensures
        txn_arg == TransactionArgument::Address(r),
{
    match txn_arg {
        TransactionArgument::Address(a) => a,
        _ => AccountAddress::from_fill_byte(0),
    }
}

/// Project a boolean out of a transaction argument. Only a boolean
/// argument holds one.
pub fn bool(txn_arg: TransactionArgument) -> (r: bool)
    requires
        txn_arg is Bool,
    ensures
        txn_arg == TransactionArgument::Bool(r),
{
    match txn_arg {
        TransactionArgument::Bool(b) => b,
        _ => false,
    }
}

} // verus!
